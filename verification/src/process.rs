use vstd::prelude::*;

verus! {

/// A module loaded into a process, known by its name.
pub struct Module {
    pub name: String,
}

/// An opened process: its handle, as an integer, and its known modules.
pub struct Process {
    handle: usize,
    modules: Vec<Module>,
}

impl Process {
    /// The handle the process was opened with.
    pub closed spec fn spec_handle(&self) -> usize {
        self.handle
    }

    /// The known modules, in order.
    pub closed spec fn spec_modules(&self) -> Seq<Module> {
        self.modules@
    }

    pub fn new(handle: usize, modules: Vec<Module>) -> (process: Process)
        ensures
            process.spec_handle() == handle,
            process.spec_modules() == modules@,
    {
        Process { handle, modules }
    }

    /// The first known module named `name`, if any.
    pub fn get_module(&self, name: &str) -> (found: Option<&Module>)
        ensures
            match found {
                Some(m) => exists|i: int|
                    0 <= i < self.spec_modules().len() && self.spec_modules()[i] == *m
                        && m.name@ == name@ && forall|j: int|
                        0 <= j < i ==> (#[trigger] self.spec_modules()[j]).name@ != name@,
                None => forall|i: int|
                    0 <= i < self.spec_modules().len() ==> (#[trigger] self.spec_modules()[i]).name@
                        != name@,
            },
    {
        let target: String = name.to_owned();
        let len = self.modules.len();
        let mut i: usize = 0;
        while i < len
            invariant
                len == self.modules@.len(),
                i <= len,
                target@ == name@,
                forall|j: int| 0 <= j < i ==> (#[trigger] self.modules@[j]).name@ != name@,
            decreases len - i,
        {
            if self.modules[i].name == target {
                assert(self.spec_modules()[i as int] == self.modules@[i as int]);
                return Some(&self.modules[i]);
            }
            i = i + 1;
        }
        None
    }
}

} // verus!
