//! The module through which scripts ask about the process and the platform
//! they run on. What the platform says comes from the host; what is fixed
//! here is which native function stands behind which foreign method, and
//! what a script is told where the platform has no answer.

use vstd::prelude::*;
use crate::modules::{Class, ForeignMethod, Module};

verus! {

/// The name of the module.
pub open spec fn module_name() -> Seq<char> {
    "os"@
}

/// The static methods of the class `Platform`.
pub open spec fn platform_methods() -> Map<Seq<char>, ForeignMethod> {
    map![
        "isPosix"@ => ForeignMethod::IsPosix,
        "name"@ => ForeignMethod::Name,
        "homePath"@ => ForeignMethod::HomePath,
    ]
}

/// The static methods of the class `Process`.
pub open spec fn process_methods() -> Map<Seq<char>, ForeignMethod> {
    map![
        "allArguments"@ => ForeignMethod::AllArguments,
        "version"@ => ForeignMethod::Version,
        "cwd"@ => ForeignMethod::Cwd,
        "pid"@ => ForeignMethod::Pid,
        "ppid"@ => ForeignMethod::Ppid,
    ]
}

/// `module` is the module with the source `source`: its two classes,
/// `Process` and `Platform`, bind their static getters and nothing else.
pub open spec fn is_os_module(module: Module, source: String) -> bool {
    &&& module.source == source
    &&& module.classes@.dom() == set!["Process"@, "Platform"@]
    &&& module.classes@["Process"@].methods@ == Map::<Seq<char>, ForeignMethod>::empty()
    &&& module.classes@["Process"@].static_methods@ == process_methods()
    &&& module.classes@["Platform"@].methods@ == Map::<Seq<char>, ForeignMethod>::empty()
    &&& module.classes@["Platform"@].static_methods@ == platform_methods()
}

/// The module: the script source `source` and the native functions behind
/// the foreign methods it declares.
pub fn init_module(source: String) -> (module: Module)
    ensures
        is_os_module(module, source),
{
    let mut platform_class = Class::new();
    platform_class.static_methods.insert("isPosix", ForeignMethod::IsPosix);
    platform_class.static_methods.insert("name", ForeignMethod::Name);
    platform_class.static_methods.insert("homePath", ForeignMethod::HomePath);

    let mut process_class = Class::new();
    process_class.static_methods.insert("allArguments", ForeignMethod::AllArguments);
    process_class.static_methods.insert("version", ForeignMethod::Version);
    process_class.static_methods.insert("cwd", ForeignMethod::Cwd);
    process_class.static_methods.insert("pid", ForeignMethod::Pid);
    process_class.static_methods.insert("ppid", ForeignMethod::Ppid);

    let ghost platform = platform_class;
    let ghost process = process_class;
    let mut module = Module::new(source);
    module.classes.insert("Process", process_class);
    module.classes.insert("Platform", platform_class);
    proof {
        reveal_strlit("isPosix");
        reveal_strlit("name");
        reveal_strlit("homePath");
        reveal_strlit("allArguments");
        reveal_strlit("version");
        reveal_strlit("cwd");
        reveal_strlit("pid");
        reveal_strlit("ppid");
        reveal_strlit("Process");
        reveal_strlit("Platform");
        assert("cwd"@[0] != "pid"@[0]);
        assert("Process"@.len() != "Platform"@.len());
        assert(platform.static_methods@ =~= platform_methods());
        assert(process.static_methods@ =~= process_methods());
        assert(module.classes@.dom() =~= set!["Process"@, "Platform"@]);
    }
    module
}

/// What a script is told when the home directory cannot be found.
pub const NO_HOME_DIRECTORY: &'static str = "Cannot get the user's home directory";

/// Asks `dirs::home_dir` for the user's home directory and turns the path
/// into text, replacing what is not Unicode in it. The answer depends on
/// the platform and on the environment of the process, and may be missing;
/// nothing is claimed about it.
#[verifier::external_body]
fn home_dir() -> (dir: Option<String>) {
    dirs::home_dir().map(|dir| dir.to_string_lossy().to_string())
}

/// The answer to a script that asks for the home directory, given what the
/// platform said: the directory, or the error to abort the fiber with.
pub fn home_path_from(dir: Option<String>) -> (r: Result<String, &'static str>)
    ensures
        match dir {
            Some(path) => r == Ok::<String, &'static str>(path),
            None => r matches Err(message) && message@ == NO_HOME_DIRECTORY@,
        },
{
    match dir {
        Some(path) => Ok(path),
        None => Err(NO_HOME_DIRECTORY),
    }
}

/// The user's home directory, or the error to abort the fiber with where
/// the platform knows none.
pub fn home_path() -> (r: Result<String, &'static str>)
    ensures
        r matches Err(message) ==> message@ == NO_HOME_DIRECTORY@,
{
    home_path_from(home_dir())
}

/// What a script is told when the working directory cannot be found.
pub const NO_WORKING_DIRECTORY: &'static str = "Cannot get current working directory.";

/// The answer to a script that asks for the working directory, given what
/// the platform said: the directory, or the error to abort the fiber with.
pub fn cwd_from(dir: Option<String>) -> (r: Result<String, &'static str>)
    ensures
        match dir {
            Some(path) => r == Ok::<String, &'static str>(path),
            None => r matches Err(message) && message@ == NO_WORKING_DIRECTORY@,
        },
{
    match dir {
        Some(path) => Ok(path),
        None => Err(NO_WORKING_DIRECTORY),
    }
}

/// What a script is told where a process does not know its parent.
pub const NO_PARENT_ID: &'static str =
    "PPID is not implemented outside of unix based operating systems!";

/// The answer to a script that asks for the id of the parent process, given
/// what the platform said: the id, or the error to abort the fiber with on
/// a platform that has none to give.
pub fn ppid_from(parent: Option<u32>) -> (r: Result<u32, &'static str>)
    ensures
        match parent {
            Some(id) => r == Ok::<u32, &'static str>(id),
            None => r matches Err(message) && message@ == NO_PARENT_ID@,
        },
{
    match parent {
        Some(id) => Ok(id),
        None => Err(NO_PARENT_ID),
    }
}

} // verus!
