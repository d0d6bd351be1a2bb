use wren_bridge::error::ErrorKind;
use wren_bridge::modules::{
    bind_foreign_method, get_module, load_module, modules_init, Builtins, Class, ForeignMethod,
    Module, Table, UserData, VmUserData,
};

fn registry() -> Table<Module> {
    modules_init("class Scheduler {}".to_string(), "class Timer {}".to_string())
}

#[test]
fn a_new_class_has_no_methods() {
    let class = Class::new();
    assert_eq!(class.methods.get("anything"), None);
    assert_eq!(class.static_methods.get("anything"), None);
    assert_eq!(class.methods.get(""), None);
}

#[test]
fn a_new_module_has_its_source_and_no_classes() {
    let module = Module::new("var x = 1".to_string());
    assert_eq!(module.source, "var x = 1");
    assert!(module.classes.get("Scheduler").is_none());
}

#[test]
fn a_table_gives_back_what_was_inserted() {
    let mut table: Table<u32> = Table::new();
    assert_eq!(table.get("one"), None);
    table.insert("one", 1);
    table.insert("two", 2);
    assert_eq!(table.get("one"), Some(&1));
    assert_eq!(table.get("two"), Some(&2));
    assert_eq!(table.get("three"), None);
    assert_eq!(table.get("On"), None);
    assert_eq!(table.get("onee"), None);
}

#[test]
fn a_later_insert_replaces_the_earlier() {
    let mut table: Table<u32> = Table::new();
    table.insert("one", 1);
    table.insert("two", 2);
    table.insert("one", 11);
    assert_eq!(table.get("one"), Some(&11));
    assert_eq!(table.get("two"), Some(&2));
}

#[test]
fn a_table_takes_the_empty_key() {
    let mut table: Table<u32> = Table::new();
    table.insert("", 5);
    assert_eq!(table.get(""), Some(&5));
    assert_eq!(table.get(" "), None);
}

#[test]
fn the_scheduler_module_binds_its_two_entry_points() {
    let module = wren_bridge::scheduler::init_module("source".to_string());
    assert_eq!(module.source, "source");
    let class = module.classes.get("Scheduler").expect("the class is registered");
    assert_eq!(
        class.static_methods.get("captureMethods_()"),
        Some(&ForeignMethod::CaptureMethods)
    );
    assert_eq!(class.static_methods.get("awaitAll_()"), Some(&ForeignMethod::AwaitAll));
    assert_eq!(class.static_methods.get("awaitAll_"), None);
    assert_eq!(class.methods.get("captureMethods_()"), None);
    assert!(module.classes.get("Timer").is_none());
}

#[test]
fn the_timer_module_binds_its_entry_point() {
    let module = wren_bridge::timer::init_module("source".to_string());
    assert_eq!(module.source, "source");
    let class = module.classes.get("Timer").expect("the class is registered");
    assert_eq!(class.static_methods.get("startTimer_(_,_)"), Some(&ForeignMethod::StartTimer));
    assert_eq!(class.static_methods.get("startTimer_(_)"), None);
    assert_eq!(class.methods.get("startTimer_(_,_)"), None);
}

#[test]
fn the_os_module_binds_its_getters() {
    let module = wren_bridge::os::init_module("source".to_string());
    assert_eq!(module.source, "source");
    let platform = module.classes.get("Platform").expect("the class is registered");
    assert_eq!(platform.static_methods.get("isPosix"), Some(&ForeignMethod::IsPosix));
    assert_eq!(platform.static_methods.get("name"), Some(&ForeignMethod::Name));
    assert_eq!(platform.static_methods.get("homePath"), Some(&ForeignMethod::HomePath));
    assert_eq!(platform.static_methods.get("cwd"), None);
    let process = module.classes.get("Process").expect("the class is registered");
    assert_eq!(process.static_methods.get("allArguments"), Some(&ForeignMethod::AllArguments));
    assert_eq!(process.static_methods.get("version"), Some(&ForeignMethod::Version));
    assert_eq!(process.static_methods.get("cwd"), Some(&ForeignMethod::Cwd));
    assert_eq!(process.static_methods.get("pid"), Some(&ForeignMethod::Pid));
    assert_eq!(process.static_methods.get("ppid"), Some(&ForeignMethod::Ppid));
    assert_eq!(process.static_methods.get("name"), None);
    assert_eq!(process.methods.get("pid"), None);
}

#[test]
fn the_registry_holds_the_scheduler_and_the_timer() {
    let modules = registry();
    assert_eq!(get_module(&modules, "scheduler").unwrap().source, "class Scheduler {}");
    assert_eq!(get_module(&modules, "timer").unwrap().source, "class Timer {}");
    assert!(get_module(&modules, "os").is_none());
    assert!(get_module(&modules, "").is_none());
    assert!(get_module(&modules, "Scheduler").is_none());
}

#[test]
fn load_module_gives_the_source() {
    let modules = registry();
    assert_eq!(load_module(&modules, "scheduler"), Some("class Scheduler {}".to_string()));
    assert_eq!(load_module(&modules, "timer"), Some("class Timer {}".to_string()));
    assert_eq!(load_module(&modules, "missing"), None);
}

#[test]
fn bind_foreign_method_finds_registered_methods() {
    let modules = registry();
    assert_eq!(
        bind_foreign_method(&modules, "scheduler", "Scheduler", true, "captureMethods_()"),
        Some(ForeignMethod::CaptureMethods)
    );
    assert_eq!(
        bind_foreign_method(&modules, "scheduler", "Scheduler", true, "awaitAll_()"),
        Some(ForeignMethod::AwaitAll)
    );
    assert_eq!(
        bind_foreign_method(&modules, "timer", "Timer", true, "startTimer_(_,_)"),
        Some(ForeignMethod::StartTimer)
    );
}

#[test]
fn bind_foreign_method_finds_nothing_else() {
    let modules = registry();
    // not static
    assert_eq!(
        bind_foreign_method(&modules, "scheduler", "Scheduler", false, "captureMethods_()"),
        None
    );
    // another module
    assert_eq!(
        bind_foreign_method(&modules, "timer", "Scheduler", true, "captureMethods_()"),
        None
    );
    // another class
    assert_eq!(
        bind_foreign_method(&modules, "scheduler", "Timer", true, "captureMethods_()"),
        None
    );
    // another signature
    assert_eq!(
        bind_foreign_method(&modules, "scheduler", "Scheduler", true, "captureMethods_(_)"),
        None
    );
    // no such module
    assert_eq!(bind_foreign_method(&modules, "os", "Process", true, "pid"), None);
}

#[test]
fn user_data_keeps_every_default() {
    let mut user_data = UserData;
    assert_eq!(user_data.resolve_module("main", "timer"), Some("timer".to_string()));
    assert_eq!(user_data.resolve_module("main", ""), Some(String::new()));
    assert_eq!(user_data.resolve_module("main", "ti\0mer"), None);
    assert_eq!(user_data.load_module("timer"), None);
    assert_eq!(user_data.bind_foreign_method("timer", "Timer", true, "startTimer_(_,_)"), None);
    user_data.on_write("text");
    user_data.on_error(ErrorKind::Runtime("message"));
}

#[test]
fn builtins_answer_from_the_registry() {
    let mut host = Builtins { modules: registry() };
    assert_eq!(host.load_module("scheduler"), Some("class Scheduler {}".to_string()));
    assert_eq!(host.load_module("other"), None);
    assert_eq!(
        host.bind_foreign_method("timer", "Timer", true, "startTimer_(_,_)"),
        Some(ForeignMethod::StartTimer)
    );
    assert_eq!(host.bind_foreign_method("timer", "Timer", false, "startTimer_(_,_)"), None);
    assert_eq!(host.resolve_module("main", "timer"), Some("timer".to_string()));
    assert_eq!(host.resolve_module("main", "ti\0mer"), None);
}

#[test]
fn a_missing_home_directory_is_an_error_for_the_script() {
    assert_eq!(
        wren_bridge::os::home_path_from(None),
        Err("Cannot get the user's home directory")
    );
    assert_eq!(
        wren_bridge::os::NO_HOME_DIRECTORY,
        "Cannot get the user's home directory"
    );
}

#[test]
fn a_home_directory_is_handed_on_as_it_is() {
    assert_eq!(
        wren_bridge::os::home_path_from(Some("/home/alice".to_string())),
        Ok("/home/alice".to_string())
    );
    assert_eq!(wren_bridge::os::home_path_from(Some(String::new())), Ok(String::new()));
}

#[test]
fn the_home_directory_is_what_the_platform_reports() {
    let expected = dirs::home_dir().map(|dir| dir.to_string_lossy().to_string());
    match wren_bridge::os::home_path() {
        Ok(path) => assert_eq!(Some(path), expected),
        Err(message) => {
            assert_eq!(expected, None);
            assert_eq!(message, "Cannot get the user's home directory");
        }
    }
}

#[test]
fn a_missing_working_directory_is_an_error_for_the_script() {
    assert_eq!(
        wren_bridge::os::cwd_from(None),
        Err("Cannot get current working directory.")
    );
    assert_eq!(
        wren_bridge::os::cwd_from(Some("/tmp".to_string())),
        Ok("/tmp".to_string())
    );
}

#[test]
fn a_missing_parent_is_an_error_for_the_script() {
    assert_eq!(
        wren_bridge::os::ppid_from(None),
        Err("PPID is not implemented outside of unix based operating systems!")
    );
    assert_eq!(wren_bridge::os::ppid_from(Some(0)), Ok(0));
    assert_eq!(wren_bridge::os::ppid_from(Some(4711)), Ok(4711));
}
