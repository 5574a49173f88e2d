use vstd::prelude::*;

verus! {

/// Every recoverable failure of the library. All of these are local errors
/// returned to the caller; none is process-fatal.
#[derive(Debug)]
pub enum Error {
    /// A buffer was requested whose size exceeds the largest capacity tier;
    /// carries the requested size.
    BufTooLarge(usize),
    /// A symbol of this name was not exported by the module.
    FunctionNotFound(String),
    /// An operating-system call failed; carries the platform error code.
    GetLastError(u32),
    /// The cached access-rights bitmask lacks a right the operation needs.
    InsufficientAccess,
    /// No loaded module has this base name.
    ModuleNotFound(String),
    /// A value was asked for its machine-word form but has none
    /// (a string value passed directly instead of through a pointer).
    NotAnInteger,
    /// Text handed to the string-value constructor contains an embedded
    /// terminator; carries the offending text.
    NulError(String),
    /// A field appended to a struct descriptor overlaps an existing field.
    OverlappingFields,
    /// A struct-typed field was read or written as a scalar value.
    StructAsValue,
    /// A field appended to a struct descriptor duplicates an existing
    /// field's name; carries that name.
    StructDuplicateName(String),
    /// No field of the struct descriptor has the requested name.
    StructFieldNotFound,
    /// The value's type does not fit within the field's declared type.
    StructSetInvalidType,
    /// An invocation was prepared with more arguments than any
    /// calling-convention thunk accepts.
    TooManyArguments,
}

} // verus!
