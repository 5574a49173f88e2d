//! A resolved native function and the verified half of calling it.

use crate::error::Error;
use crate::types::Value;
use vstd::prelude::*;

verus! {

/// The greatest number of arguments a calling-convention thunk accepts.
pub const MAX_INVOCATION_ARGS: usize = 7;

/// A native function resolved to a raw address.
pub struct WinFunction {
    address: u64,
}

/// A fully prepared call: a target address and at most seven argument
/// words. The caller of the thunk that performs it guarantees that the
/// real target's signature matches; this library cannot check that.
pub struct Invocation {
    address: u64,
    words: Vec<u64>,
}

impl Invocation {
    pub closed spec fn spec_address(&self) -> u64 {
        self.address
    }

    pub closed spec fn spec_words(&self) -> Seq<u64> {
        self.words@
    }

    /// Every prepared call has an arity some thunk accepts.
    #[verifier::type_invariant]
    pub closed spec fn spec_wf(&self) -> bool {
        self.words@.len() <= MAX_INVOCATION_ARGS
    }

    pub fn address(&self) -> (r: u64)
        ensures
            r == self.spec_address(),
    {
        self.address
    }

    pub fn words(&self) -> (r: &Vec<u64>)
        ensures
            r@ == self.spec_words(),
            r@.len() <= MAX_INVOCATION_ARGS,
    {
        proof {
            use_type_invariant(self);
        }
        &self.words
    }
}

impl WinFunction {
    pub closed spec fn spec_address(&self) -> u64 {
        self.address
    }

    pub fn new(address: u64) -> (r: WinFunction)
        ensures
            r.spec_address() == address,
    {
        WinFunction { address }
    }

    pub fn address(&self) -> (r: u64)
        ensures
            r == self.spec_address(),
    {
        self.address
    }

    /// Reduces every argument to its 64-bit machine word and selects the
    /// call's arity. A string argument passed directly — rather than
    /// through a pointer wrapping it — has no word form and fails the whole
    /// call with `NotAnInteger`; more arguments than any thunk accepts fail
    /// with `TooManyArguments`.
    pub fn prepare_call(&self, args: &Vec<Value>) -> (r: Result<Invocation, Error>)
        ensures
            (r is Ok) == (args@.len() <= MAX_INVOCATION_ARGS && (forall|i: int|
                0 <= i < args@.len() ==> (#[trigger] args@[i].spec_vmval()).spec_value_u64()
                    is Some)),
            r matches Ok(inv) ==> {
                &&& inv.spec_address() == self.spec_address()
                &&& inv.spec_words().len() == args@.len()
                &&& forall|i: int|
                    0 <= i < args@.len() ==> inv.spec_words()[i] == (
                    #[trigger] args@[i].spec_vmval()).spec_value_u64().unwrap()
            },
            r matches Err(e) ==> {
                if exists|i: int|
                    0 <= i < args@.len() && (#[trigger] args@[i].spec_vmval()).spec_value_u64()
                        is None {
                    e is NotAnInteger
                } else {
                    e is TooManyArguments && args@.len() > MAX_INVOCATION_ARGS
                }
            },
    {
        let mut words: Vec<u64> = Vec::new();
        let mut i: usize = 0;
        while i < args.len()
            invariant
                0 <= i <= args@.len(),
                words@.len() == i,
                forall|j: int|
                    0 <= j < i ==> (#[trigger] args@[j].spec_vmval()).spec_value_u64() is Some,
                forall|j: int|
                    0 <= j < i ==> words@[j] == (
                    #[trigger] args@[j].spec_vmval()).spec_value_u64().unwrap(),
            decreases args@.len() - i,
        {
            match args[i].value_u64() {
                Some(w) => {
                    words.push(w);
                },
                None => {
                    return Err(Error::NotAnInteger);
                },
            }
            i += 1;
        }
        if words.len() > MAX_INVOCATION_ARGS {
            return Err(Error::TooManyArguments);
        }
        Ok(Invocation { address: self.address, words })
    }
}

} // verus!
