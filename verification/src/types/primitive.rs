//! Primitive type descriptors: indivisible scalar layouts.

use crate::types::Type;
use vstd::prelude::*;

verus! {

/// Width in bytes of a native pointer on the targets this library supports.
pub const POINTER_SIZE: usize = 8;

/// A primitive type descriptor. `CString` carries its capacity in bytes,
/// including the terminator; `Pointer` carries its pointee's type.
#[derive(Debug)]
pub enum Primitive {
    Empty,
    U8,
    U16,
    U32,
    U64,
    CString(usize),
    Pointer(Box<Type>),
    RawPointer,
}

impl Primitive {
    /// Number of bytes a value of this primitive occupies.
    pub open spec fn spec_size(&self) -> int {
        match self {
            Primitive::Empty => 0,
            Primitive::U8 => 1,
            Primitive::U16 => 2,
            Primitive::U32 => 4,
            Primitive::U64 => 8,
            Primitive::CString(n) => *n as int,
            Primitive::Pointer(_) => POINTER_SIZE as int,
            Primitive::RawPointer => POINTER_SIZE as int,
        }
    }

    /// The width in bytes of an integer primitive, and nothing for the rest.
    pub open spec fn spec_integer_width(&self) -> Option<int> {
        match self {
            Primitive::U8 => Some(1int),
            Primitive::U16 => Some(2int),
            Primitive::U32 => Some(4int),
            Primitive::U64 => Some(8int),
            _ => None,
        }
    }

    /// Whether a value of this primitive may be stored where `other` is
    /// declared: integers fit within any integer of equal or greater width;
    /// a string fits within any string of equal or greater capacity; typed
    /// and untyped pointers fit within any pointer slot or a word wide
    /// enough to hold an address; `Empty` fits only within `Empty`.
    pub open spec fn spec_fits_within(&self, other: &Primitive) -> bool {
        match self {
            Primitive::Empty => other is Empty,
            Primitive::U8 => other is U8 || other is U16 || other is U32 || other is U64,
            Primitive::U16 => other is U16 || other is U32 || other is U64,
            Primitive::U32 => other is U32 || other is U64,
            Primitive::U64 => other is U64,
            Primitive::CString(n) => match other {
                Primitive::CString(m) => *n <= *m,
                _ => false,
            },
            Primitive::Pointer(_) => match other {
                Primitive::Pointer(_) | Primitive::U64 => true,
                Primitive::U32 => POINTER_SIZE == 4,
                _ => false,
            },
            Primitive::RawPointer => match other {
                Primitive::RawPointer | Primitive::Pointer(_) | Primitive::U64 => true,
                Primitive::U32 => POINTER_SIZE == 4,
                _ => false,
            },
        }
    }

    pub fn size(&self) -> (r: usize)
        ensures
            r == self.spec_size(),
    {
        match self {
            Primitive::Empty => 0,
            Primitive::U8 => 1,
            Primitive::U16 => 2,
            Primitive::U32 => 4,
            Primitive::U64 => 8,
            Primitive::CString(n) => *n,
            Primitive::Pointer(_) => POINTER_SIZE,
            Primitive::RawPointer => POINTER_SIZE,
        }
    }

    /// True if this value fits within the other value; for example, a `U8`
    /// fits within a `U16`, and a string of capacity 12 fits within a string
    /// of capacity 20.
    pub fn fits_within(&self, other: &Primitive) -> (r: bool)
        ensures
            r == self.spec_fits_within(other),
    {
        match self {
            Primitive::Empty => matches!(other, Primitive::Empty),
            Primitive::U8 => matches!(
                other,
                Primitive::U8 | Primitive::U16 | Primitive::U32 | Primitive::U64
            ),
            Primitive::U16 => matches!(other, Primitive::U16 | Primitive::U32 | Primitive::U64),
            Primitive::U32 => matches!(other, Primitive::U32 | Primitive::U64),
            Primitive::U64 => matches!(other, Primitive::U64),
            Primitive::CString(n) => match other {
                Primitive::CString(m) => *n <= *m,
                _ => false,
            },
            Primitive::Pointer(_) => match other {
                Primitive::Pointer(_) | Primitive::U64 => true,
                Primitive::U32 => POINTER_SIZE == 4,
                _ => false,
            },
            Primitive::RawPointer => match other {
                Primitive::RawPointer | Primitive::Pointer(_) | Primitive::U64 => true,
                Primitive::U32 => POINTER_SIZE == 4,
                _ => false,
            },
        }
    }
}

/// Law: among the integer primitives, fitting is exactly the width order.
/// An integer primitive fits within another if and only if its width is
/// equal or smaller; in particular it never fits within a strictly
/// narrower one.
pub proof fn lemma_integer_fits_by_width(a: Primitive, b: Primitive)
    requires
        a.spec_integer_width() is Some,
        b.spec_integer_width() is Some,
    ensures
        a.spec_fits_within(&b) <==> a.spec_integer_width().unwrap()
            <= b.spec_integer_width().unwrap(),
{
}

} // verus!
