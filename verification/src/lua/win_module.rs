//! A resolved module as the host script sees it.

use crate::error::Error;
use crate::lua::WinFunction;
use crate::win;
use vstd::prelude::*;

verus! {

/// A resolved module handle, offering symbol lookup in two flavors: a
/// "must exist" accessor that fails with a definite error, and — by the
/// caller dropping the error — an optional one that yields "not found".
#[derive(Clone, Copy, Debug)]
pub struct WinModule {
    module: win::Module,
}

impl WinModule {
    pub closed spec fn spec_module(&self) -> win::Module {
        self.module
    }

    pub fn new(module: win::Module) -> (r: WinModule)
        ensures
            r.spec_module() == module,
    {
        WinModule { module }
    }

    pub fn module(&self) -> (r: win::Module)
        ensures
            r == self.spec_module(),
    {
        self.module
    }

    /// Turns the address that resolving `function_name` in this module
    /// returned into a callable function handle. An absent symbol — no
    /// address — fails with `FunctionNotFound`, carrying the name; this is
    /// the "must exist" access path, and `.ok()` on its result is the
    /// optional one.
    pub fn get_function(&self, function_name: &str, address: Option<u64>) -> (r: Result<
        WinFunction,
        Error,
    >)
        ensures
            match address {
                Some(a) => r matches Ok(f) && f.spec_address() == a,
                None => r matches Err(e) && (e matches Error::FunctionNotFound(n) && n@
                    == function_name@),
            },
    {
        match address {
            Some(a) => Ok(WinFunction::new(a)),
            None => Err(Error::FunctionNotFound(function_name.to_owned())),
        }
    }
}

} // verus!
