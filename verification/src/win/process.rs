//! A process handle with its cached access rights, and module resolution
//! over an enumerated module inventory.

use crate::win::Module;
use crate::error::Error;
use vstd::prelude::*;
use vstd::string::StringSliceAdditionalSpecFns;
use vstd::string::StrSliceExecFns;
use vstd::utf8::encode_utf8;

verus! {

/// An opaque process handle plus the access-rights bitmask it was opened
/// with. Operations requiring rights not present in the bitmask fail; they
/// are never silently downgraded.
#[derive(Clone, Copy, Debug)]
pub struct Process {
    handle: u64,
    access_rights: u32,
}

/// One enumerated module of a process: its opaque handle and its base name,
/// as the operating system reported them.
#[derive(Debug)]
pub struct ModuleInfo {
    pub handle: u64,
    pub base_name: String,
}

/// An upper-case ASCII letter folded to lower case; every other byte kept.
pub open spec fn spec_lower_byte(b: u8) -> u8 {
    if 65 <= b && b <= 90 {
        (b + 32) as u8
    } else {
        b
    }
}

/// The bytes of the conventional library-file suffix, `.dll`.
pub open spec fn spec_dll_suffix() -> Seq<u8> {
    seq![0x2eu8, 0x64u8, 0x6cu8, 0x6cu8]
}

/// A module name folded to lower case, with one trailing library-file
/// suffix removed if present: the form in which names are compared, so a
/// module resolves by case-insensitive base name with or without the
/// suffix.
pub open spec fn spec_normalized_name(bs: Seq<u8>) -> Seq<u8> {
    let l = bs.map_values(|b: u8| spec_lower_byte(b));
    if l.len() >= 4 && l.subrange(l.len() - 4, l.len() as int) == spec_dll_suffix() {
        l.subrange(0, l.len() - 4)
    } else {
        l
    }
}

/// Whether an enumerated module answers to the queried name.
pub open spec fn spec_module_matches(m: ModuleInfo, query: Seq<char>) -> bool {
    spec_normalized_name(encode_utf8(m.base_name@)) == spec_normalized_name(encode_utf8(query))
}

/// The comparison form of a name: lower-cased bytes, one trailing `.dll`
/// removed if present.
fn normalized_name(s: &str) -> (r: Vec<u8>)
    ensures
        r@ == spec_normalized_name(s.spec_bytes()),
{
    let bytes = s.as_bytes_vec();
    let mut lower: Vec<u8> = Vec::new();
    let mut i: usize = 0;
    while i < bytes.len()
        invariant
            0 <= i <= bytes@.len(),
            lower@.len() == i,
            forall|j: int| 0 <= j < i ==> lower@[j] == spec_lower_byte(bytes@[j]),
        decreases bytes@.len() - i,
    {
        let b = bytes[i];
        if 65 <= b && b <= 90 {
            lower.push(b + 32);
        } else {
            lower.push(b);
        }
        i += 1;
    }
    proof {
        assert(lower@ =~= bytes@.map_values(|b: u8| spec_lower_byte(b)));
    }
    let n = lower.len();
    if n >= 4 && lower[n - 4] == 0x2eu8 && lower[n - 3] == 0x64u8 && lower[n - 2] == 0x6cu8
        && lower[n - 1] == 0x6cu8 {
        proof {
            assert(lower@.subrange(n - 4, n as int) =~= spec_dll_suffix());
        }
        lower.truncate(n - 4);
        lower
    } else {
        proof {
            if n >= 4 {
                assert(lower@.subrange(n - 4, n as int) != spec_dll_suffix());
            }
        }
        lower
    }
}

/// Whether two byte vectors hold the same bytes.
fn bytes_eq(a: &Vec<u8>, b: &Vec<u8>) -> (r: bool)
    ensures
        r == (a@ == b@),
{
    if a.len() != b.len() {
        return false;
    }
    let mut i: usize = 0;
    while i < a.len()
        invariant
            0 <= i <= a@.len(),
            a@.len() == b@.len(),
            forall|j: int| 0 <= j < i ==> a@[j] == b@[j],
        decreases a@.len() - i,
    {
        if a[i] != b[i] {
            return false;
        }
        i += 1;
    }
    proof {
        assert(a@ =~= b@);
    }
    true
}

impl Process {
    pub fn new(handle: u64, access_rights: u32) -> (r: Process)
        ensures
            r.spec_handle() == handle,
            r.spec_access_rights() == access_rights,
    {
        Process { handle, access_rights }
    }

    pub closed spec fn spec_handle(&self) -> u64 {
        self.handle
    }

    pub closed spec fn spec_access_rights(&self) -> u32 {
        self.access_rights
    }

    pub fn handle(&self) -> (r: u64)
        ensures
            r == self.spec_handle(),
    {
        self.handle
    }

    /// Succeeds exactly when every requested right is present in the cached
    /// access-rights bitmask; otherwise fails with `InsufficientAccess`.
    pub fn has_access_rights(&self, access_rights: u32) -> (r: Result<(), Error>)
        ensures
            (r is Ok) == (self.spec_access_rights() & access_rights == access_rights),
            r matches Err(e) ==> e is InsufficientAccess,
    {
        if self.access_rights & access_rights != access_rights {
            Err(Error::InsufficientAccess)
        } else {
            Ok(())
        }
    }

    /// Resolves a module by case-insensitive base name, with or without the
    /// conventional library-file suffix, over the enumerated inventory.
    /// Returns the first module in enumeration order whose base name
    /// answers to the query, or nothing when none does.
    pub fn get_module(&self, modules: &Vec<ModuleInfo>, module_name: &str) -> (r: Option<Module>)
        ensures
            match r {
                Some(m) => {
                    &&& m.spec_process() == *self
                    &&& exists|i: int|
                        {
                            &&& 0 <= i < modules@.len()
                            &&& spec_module_matches(#[trigger] modules@[i], module_name@)
                            &&& m.spec_handle() == modules@[i].handle
                            &&& forall|j: int|
                                0 <= j < i ==> !spec_module_matches(
                                    #[trigger] modules@[j],
                                    module_name@,
                                )
                        }
                },
                None => forall|i: int|
                    0 <= i < modules@.len() ==> !spec_module_matches(
                        #[trigger] modules@[i],
                        module_name@,
                    ),
            },
    {
        let query = normalized_name(module_name);
        let mut i: usize = 0;
        while i < modules.len()
            invariant
                0 <= i <= modules@.len(),
                query@ == spec_normalized_name(encode_utf8(module_name@)),
                forall|j: int|
                    0 <= j < i ==> !spec_module_matches(#[trigger] modules@[j], module_name@),
            decreases modules@.len() - i,
    {
            let base = normalized_name(modules[i].base_name.as_str());
            if bytes_eq(&base, &query) {
                return Some(Module::new(*self, modules[i].handle));
            }
            i += 1;
        }
        None
    }

    /// The base names of the modules in which resolving the symbol yielded
    /// an address, in enumeration order. Each entry pairs a module's base
    /// name with the address that resolving the symbol in it returned.
    pub fn find_function_module(&self, resolutions: &Vec<(String, Option<u64>)>) -> (r: Vec<
        String,
    >)
        ensures
            r@.map_values(|s: String| s@) == spec_exporting_names(resolutions@),
    {
        let mut names: Vec<String> = Vec::new();
        let mut i: usize = 0;
        proof {
            assert(resolutions@.subrange(0, 0) =~= Seq::<(String, Option<u64>)>::empty());
            assert(names@.map_values(|s: String| s@) =~= spec_exporting_names(
                resolutions@.subrange(0, 0),
            ));
        }
        while i < resolutions.len()
            invariant
                0 <= i <= resolutions@.len(),
                names@.map_values(|s: String| s@) == spec_exporting_names(
                    resolutions@.subrange(0, i as int),
                ),
            decreases resolutions@.len() - i,
        {
            proof {
                assert(resolutions@.subrange(0, i + 1).drop_last() =~= resolutions@.subrange(
                    0,
                    i as int,
                ));
                assert(resolutions@.subrange(0, i + 1).last() == resolutions@[i as int]);
            }
            if resolutions[i].1.is_some() {
                names.push(resolutions[i].0.clone());
                proof {
                    assert(names@.map_values(|s: String| s@) =~= spec_exporting_names(
                        resolutions@.subrange(0, i + 1),
                    ));
                }
            } else {
                proof {
                    assert(names@.map_values(|s: String| s@) =~= spec_exporting_names(
                        resolutions@.subrange(0, i + 1),
                    ));
                }
            }
            i += 1;
        }
        proof {
            assert(resolutions@.subrange(0, resolutions@.len() as int) =~= resolutions@);
        }
        names
    }
}

/// The base names among the (name, resolved address) pairs whose resolution
/// yielded an address, in order.
pub open spec fn spec_exporting_names(rs: Seq<(String, Option<u64>)>) -> Seq<Seq<char>>
    decreases rs.len(),
{
    if rs.len() == 0 {
        Seq::empty()
    } else {
        let rest = spec_exporting_names(rs.drop_last());
        if rs.last().1 is Some {
            rest + seq![rs.last().0@]
        } else {
            rest
        }
    }
}

} // verus!
