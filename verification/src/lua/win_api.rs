//! The host script's entry object: module resolution over a process.

use crate::error::Error;
use crate::lua::WinModule;
use crate::win;
use crate::win::process::spec_module_matches;
use vstd::prelude::*;

verus! {

/// The single callable object a host script starts from.
pub struct WinApi {}

impl WinApi {
    pub fn new() -> (r: WinApi) {
        WinApi {}
    }

    /// Resolves a module of `process` by case-insensitive base name, with
    /// or without the library-file suffix, over the enumerated inventory.
    /// An unknown name fails with a definite `ModuleNotFound` error
    /// carrying the name.
    pub fn get_module(
        process: &win::Process,
        modules: &Vec<win::ModuleInfo>,
        module_name: &str,
    ) -> (r: Result<WinModule, Error>)
        ensures
            match r {
                Ok(m) => {
                    &&& m.spec_module().spec_process() == *process
                    &&& exists|i: int|
                        0 <= i < modules@.len() && spec_module_matches(
                            #[trigger] modules@[i],
                            module_name@,
                        ) && m.spec_module().spec_handle() == modules@[i].handle
                },
                Err(e) => {
                    &&& forall|i: int|
                        0 <= i < modules@.len() ==> !spec_module_matches(
                            #[trigger] modules@[i],
                            module_name@,
                        )
                    &&& e matches Error::ModuleNotFound(n) && n@ == module_name@
                },
            },
    {
        match process.get_module(modules, module_name) {
            Some(m) => Ok(WinModule::new(m)),
            None => Err(Error::ModuleNotFound(module_name.to_owned())),
        }
    }
}

} // verus!
