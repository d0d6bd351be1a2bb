//! The registry of built-in modules: for each module its script source and,
//! for each of its classes, the native function behind every foreign method.
//!
//! The virtual machine asks the host by name: for the source of a module
//! when a script imports it, and for the function behind a foreign method
//! when it meets the method's declaration. The registry answers from tables
//! keyed by text.

use vstd::prelude::*;
use vstd::string::StringSliceAdditionalSpecFns;
use crate::error::ErrorKind;
use crate::handle::{find_nul, first_index_of, NUL};

verus! {

/// What a sequence of entries maps each key to: the value of the last
/// entry with that key.
spec fn entries_map<V>(entries: Seq<(String, V)>) -> Map<Seq<char>, V>
    decreases entries.len(),
{
    if entries.len() == 0 {
        Map::empty()
    } else {
        entries_map(entries.drop_last()).insert(entries.last().0@, entries.last().1)
    }
}

/// No entry of `entries` from `from` on has the key `key`.
spec fn absent_from<V>(entries: Seq<(String, V)>, key: Seq<char>, from: int) -> bool {
    forall|j: int| from <= j < entries.len() ==> entries[j].0@ != key
}

/// A key that no entry has is not mapped.
proof fn lemma_absent_key<V>(entries: Seq<(String, V)>, key: Seq<char>)
    requires
        absent_from(entries, key, 0),
    ensures
        !entries_map(entries).contains_key(key),
    decreases entries.len(),
{
    if entries.len() > 0 {
        assert(absent_from(entries.drop_last(), key, 0));
        lemma_absent_key(entries.drop_last(), key);
    }
}

/// A key is mapped to the value of the last entry that has it.
proof fn lemma_last_entry_wins<V>(entries: Seq<(String, V)>, key: Seq<char>, at: int)
    requires
        0 <= at < entries.len(),
        entries[at].0@ == key,
        absent_from(entries, key, at + 1),
    ensures
        entries_map(entries).contains_key(key),
        entries_map(entries)[key] == entries[at].1,
    decreases entries.len(),
{
    if at < entries.len() - 1 {
        assert(absent_from(entries.drop_last(), key, at + 1));
        lemma_last_entry_wins(entries.drop_last(), key, at);
    }
}

/// A table keyed by text.
pub struct Table<V> {
    entries: Vec<(String, V)>,
}

impl<V> View for Table<V> {
    type V = Map<Seq<char>, V>;

    closed spec fn view(&self) -> Map<Seq<char>, V> {
        entries_map(self.entries@)
    }
}

impl<V> Table<V> {
    /// The table without entries.
    pub fn new() -> (table: Table<V>)
        ensures
            table@ == Map::<Seq<char>, V>::empty(),
    {
        Table { entries: Vec::new() }
    }

    /// Maps `key` to `value`, in place of what it was mapped to before.
    pub fn insert(&mut self, key: &str, value: V)
        ensures
            final(self)@ == old(self)@.insert(key@, value),
    {
        self.entries.push((key.to_owned(), value));
        assert(self.entries@.drop_last() =~= old(self).entries@);
    }

    /// What `key` is mapped to.
    pub fn get(&self, key: &str) -> (found: Option<&V>)
        ensures
            match found {
                Some(value) => self@.contains_key(key@) && self@[key@] == *value,
                None => !self@.contains_key(key@),
            },
    {
        let wanted = key.to_owned();
        let mut index = self.entries.len();
        while index > 0
            invariant
                index <= self.entries@.len(),
                wanted@ == key@,
                absent_from(self.entries@, key@, index as int),
            decreases index,
        {
            index -= 1;
            if self.entries[index].0 == wanted {
                proof {
                    lemma_last_entry_wins(self.entries@, key@, index as int);
                }
                return Some(&self.entries[index].1);
            }
        }
        proof {
            lemma_absent_key(self.entries@, key@);
        }
        None
    }
}

/// The native functions that the built-in modules bind.
#[derive(Debug, Clone, Copy, PartialEq, Eq, Structural)]
pub enum ForeignMethod {
    /// Captures the protocol methods and installs the scheduler.
    CaptureMethods,
    /// Requests the barrier.
    AwaitAll,
    /// Starts a timer for the calling fiber.
    StartTimer,
    /// Whether the platform is of the POSIX family.
    IsPosix,
    /// The name of the operating system.
    Name,
    /// The user's home directory.
    HomePath,
    /// The arguments of the process.
    AllArguments,
    /// The version of the virtual machine.
    Version,
    /// The working directory of the process.
    Cwd,
    /// The id of the process.
    Pid,
    /// The id of the parent process.
    Ppid,
}

/// The foreign methods of one class, by signature.
pub struct Class {
    pub methods: Table<ForeignMethod>,
    pub static_methods: Table<ForeignMethod>,
}

impl Class {
    /// A class without foreign methods.
    pub fn new() -> (class: Class)
        ensures
            class.methods@ == Map::<Seq<char>, ForeignMethod>::empty(),
            class.static_methods@ == Map::<Seq<char>, ForeignMethod>::empty(),
    {
        Class { methods: Table::new(), static_methods: Table::new() }
    }

    /// The function behind the foreign method with this signature, static
    /// or not.
    pub open spec fn method(&self, is_static: bool, signature: Seq<char>) -> Option<ForeignMethod> {
        let table = if is_static {
            self.static_methods@
        } else {
            self.methods@
        };
        if table.contains_key(signature) {
            Some(table[signature])
        } else {
            None
        }
    }
}

/// One built-in module: its script source and its classes, by name.
pub struct Module {
    pub source: String,
    pub classes: Table<Class>,
}

impl Module {
    /// A module with this source and without classes.
    pub fn new(source: String) -> (module: Module)
        ensures
            module.source == source,
            module.classes@ == Map::<Seq<char>, Class>::empty(),
    {
        Module { source, classes: Table::new() }
    }

    /// The function behind a foreign method of one of the module's classes.
    pub open spec fn method(&self, class_name: Seq<char>, is_static: bool, signature: Seq<char>) -> Option<
        ForeignMethod,
    > {
        if self.classes@.contains_key(class_name) {
            self.classes@[class_name].method(is_static, signature)
        } else {
            None
        }
    }
}

/// The function that `modules` binds to a foreign method: that of the
/// module's class, if there is such a module, class and method.
pub open spec fn bound_method(
    modules: Map<Seq<char>, Module>,
    module: Seq<char>,
    class_name: Seq<char>,
    is_static: bool,
    signature: Seq<char>,
) -> Option<ForeignMethod> {
    if modules.contains_key(module) {
        modules[module].method(class_name, is_static, signature)
    } else {
        None
    }
}

/// The registry of the built-in modules of the bridge: the scheduler
/// module and the timer module, each with the source given for it.
pub fn modules_init(scheduler_source: String, timer_source: String) -> (modules: Table<Module>)
    ensures
        modules@.dom() == set![crate::scheduler::module_name(), crate::timer::module_name()],
        crate::scheduler::is_scheduler_module(
            modules@[crate::scheduler::module_name()],
            scheduler_source,
        ),
        crate::timer::is_timer_module(modules@[crate::timer::module_name()], timer_source),
{
    let mut modules = Table::new();
    modules.insert(crate::scheduler::MODULE_NAME, crate::scheduler::init_module(scheduler_source));
    modules.insert("timer", crate::timer::init_module(timer_source));
    proof {
        reveal_strlit("scheduler");
        reveal_strlit("timer");
        assert("scheduler"@.len() != "timer"@.len());
        assert(modules@.dom() =~= set![
            crate::scheduler::module_name(),
            crate::timer::module_name(),
        ]);
    }
    modules
}

/// The built-in module with this name.
pub fn get_module<'a>(modules: &'a Table<Module>, name: &str) -> (found: Option<&'a Module>)
    ensures
        match found {
            Some(module) => modules@.contains_key(name@) && modules@[name@] == *module,
            None => !modules@.contains_key(name@),
        },
{
    modules.get(name)
}

/// The source of the built-in module with this name, for the machine to
/// compile.
pub fn load_module(modules: &Table<Module>, name: &str) -> (source: Option<String>)
    ensures
        match source {
            Some(text) => modules@.contains_key(name@) && text@ == modules@[name@].source@,
            None => !modules@.contains_key(name@),
        },
{
    match modules.get(name) {
        Some(module) => Some(module.source.clone()),
        None => None,
    }
}

/// The native function behind a foreign method that a script declares.
pub fn bind_foreign_method(
    modules: &Table<Module>,
    module: &str,
    class_name: &str,
    is_static: bool,
    signature: &str,
) -> (method: Option<ForeignMethod>)
    ensures
        method == bound_method(modules@, module@, class_name@, is_static, signature@),
{
    match modules.get(module) {
        None => None,
        Some(found) => match found.classes.get(class_name) {
            None => None,
            Some(class) => {
                let table = if is_static {
                    &class.static_methods
                } else {
                    &class.methods
                };
                match table.get(signature) {
                    None => None,
                    Some(method) => Some(*method),
                }
            },
        },
    }
}

/// Whether `name` can be handed to the machine as it is: it holds no NUL.
pub open spec fn is_c_text(name: &str) -> bool {
    first_index_of(name.spec_bytes(), NUL) == name.spec_bytes().len()
}

/// What the host of a virtual machine decides for it. Every method has a
/// default, so that a host states only what it cares about.
pub trait VmUserData: Sized {
    /// The name under which the module `name`, imported by `resolver`, is
    /// to be loaded; `None` fails the import. By default a module keeps its
    /// name.
    fn resolve_module(&mut self, resolver: &str, name: &str) -> (resolved: Option<String>)
        default_ensures
            *final(self) == *old(self),
            match resolved {
                Some(text) => is_c_text(name) && text@ == name@,
                None => !is_c_text(name),
            },
    {
        let bytes = name.as_bytes();
        if find_nul(bytes) == bytes.len() {
            Some(name.to_owned())
        } else {
            None
        }
    }

    /// The source of a module; `None` if there is no such module. By
    /// default there is none.
    fn load_module(&mut self, name: &str) -> (source: Option<String>)
        default_ensures
            *final(self) == *old(self),
            source is None,
    {
        None
    }

    /// The native function behind a foreign method; `None` if there is
    /// none. By default there is none.
    fn bind_foreign_method(
        &mut self,
        module: &str,
        classname: &str,
        is_static: bool,
        signature: &str,
    ) -> (method: Option<ForeignMethod>)
        default_ensures
            *final(self) == *old(self),
            method is None,
    {
        None
    }

    /// Called with each piece of text that a script prints. By default the
    /// text is dropped.
    fn on_write(&mut self, text: &str) {
    }

    /// Called with each report of an error. By default the report is
    /// dropped.
    fn on_error(&mut self, kind: ErrorKind) {
    }
}

/// A host that leaves every decision at its default.
#[derive(Debug, Clone, Copy)]
pub struct UserData;

impl VmUserData for UserData {
    fn resolve_module(&mut self, resolver: &str, name: &str) -> (resolved: Option<String>)
        ensures
            match resolved {
                Some(text) => is_c_text(name) && text@ == name@,
                None => !is_c_text(name),
            },
    {
        let bytes = name.as_bytes();
        if find_nul(bytes) == bytes.len() {
            Some(name.to_owned())
        } else {
            None
        }
    }

    fn load_module(&mut self, name: &str) -> (source: Option<String>)
        ensures
            source is None,
    {
        None
    }

    fn bind_foreign_method(
        &mut self,
        module: &str,
        classname: &str,
        is_static: bool,
        signature: &str,
    ) -> (method: Option<ForeignMethod>)
        ensures
            method is None,
    {
        None
    }
}

/// A host that answers the machine from a registry of built-in modules.
pub struct Builtins {
    pub modules: Table<Module>,
}

impl VmUserData for Builtins {
    fn load_module(&mut self, name: &str) -> (source: Option<String>)
        ensures
            final(self).modules@ == old(self).modules@,
            match source {
                Some(text) => old(self).modules@.contains_key(name@) && text@ == old(
                    self,
                ).modules@[name@].source@,
                None => !old(self).modules@.contains_key(name@),
            },
    {
        load_module(&self.modules, name)
    }

    fn bind_foreign_method(
        &mut self,
        module: &str,
        classname: &str,
        is_static: bool,
        signature: &str,
    ) -> (method: Option<ForeignMethod>)
        ensures
            final(self).modules@ == old(self).modules@,
            method == bound_method(old(self).modules@, module@, classname@, is_static, signature@),
    {
        bind_foreign_method(&self.modules, module, classname, is_static, signature)
    }
}

} // verus!
