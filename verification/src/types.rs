//! The type descriptor system, typed runtime values, and struct instances.

pub mod buf;
pub mod primitive;
pub mod struct_;

pub use buf::Buf;
pub use primitive::Primitive;
pub use struct_::{Struct, StructField};

use crate::encoding::{
    read_u16_le, read_u32_le, read_u64_le, set_byte, spec_cstr_prefix, spec_le_bytes,
    spec_le_decode, write_u16_le, write_u32_le, write_u64_le,
};
use crate::error::Error;
use vstd::prelude::*;
use vstd::slice::slice_index_get;
use vstd::string::StrSliceExecFns;
use vstd::utf8::encode_utf8;

verus! {

/// A type descriptor: either a primitive scalar layout or a composite
/// struct layout.
#[derive(Debug)]
pub enum Type {
    Primitive(Primitive),
    Struct(Struct),
}

impl Type {
    /// Number of bytes a value of this type occupies.
    pub open spec fn spec_size(&self) -> int
        decreases self,
    {
        match self {
            Type::Primitive(p) => p.spec_size(),
            Type::Struct(s) => s.spec_size(),
        }
    }

    /// Whether a value of this type may be stored where `other` is declared:
    /// primitives follow the primitive fitting rule, a struct fits within a
    /// struct of equal or greater size, and primitives and structs never fit
    /// within one another.
    pub open spec fn spec_fits_within(&self, other: &Type) -> bool {
        match self {
            Type::Primitive(a) => match other {
                Type::Primitive(b) => a.spec_fits_within(b),
                Type::Struct(_) => false,
            },
            Type::Struct(a) => match other {
                Type::Struct(b) => a.spec_size() <= b.spec_size(),
                Type::Primitive(_) => false,
            },
        }
    }

    pub fn size(&self) -> (r: usize)
        ensures
            r as int == self.spec_size(),
        decreases *self,
    {
        match self {
            Type::Primitive(p) => p.size(),
            Type::Struct(s) => s.size(),
        }
    }

    pub fn fits_within(&self, other: &Type) -> (r: bool)
        ensures
            r == self.spec_fits_within(other),
    {
        match self {
            Type::Primitive(a) => match other {
                Type::Primitive(b) => a.fits_within(b),
                Type::Struct(_) => false,
            },
            Type::Struct(a) => match other {
                Type::Struct(b) => a.fits_within(b),
                Type::Primitive(_) => false,
            },
        }
    }
}

/// No type has a negative size.
pub proof fn lemma_type_size_nonneg(t: &Type)
    ensures
        t.spec_size() >= 0,
{
    match t {
        Type::Primitive(_) => {
        },
        Type::Struct(s) => {
            struct_::lemma_struct_size_nonneg(s);
        },
    }
}

/// Whether a type is a scalar layout: a primitive whose pointee types, all
/// the way down, are primitives too. Every runtime value carries a scalar
/// type.
pub open spec fn spec_scalar_type(t: &Type) -> bool
    decreases t,
{
    match t {
        Type::Primitive(p) => match p {
            Primitive::Pointer(inner) => spec_scalar_type(inner),
            _ => true,
        },
        Type::Struct(_) => false,
    }
}

/// A deep copy of a scalar type descriptor.
fn clone_scalar_type(t: &Type) -> (r: Type)
    requires
        spec_scalar_type(t),
    ensures
        r == *t,
    decreases *t,
{
    match t {
        Type::Primitive(p) => Type::Primitive(
            match p {
                Primitive::Empty => Primitive::Empty,
                Primitive::U8 => Primitive::U8,
                Primitive::U16 => Primitive::U16,
                Primitive::U32 => Primitive::U32,
                Primitive::U64 => Primitive::U64,
                Primitive::CString(n) => Primitive::CString(*n),
                Primitive::Pointer(inner) => Primitive::Pointer(Box::new(clone_scalar_type(inner))),
                Primitive::RawPointer => Primitive::RawPointer,
            },
        ),
        Type::Struct(_) => vstd::pervasive::unreached(),
    }
}

/// The scalar payload held in a value's pinned backing cell. This is the
/// form a value takes when it is marshaled for foreign code.
#[derive(Debug)]
pub enum VMVal {
    U8(u8),
    U16(u16),
    U32(u32),
    U64(u64),
    /// The text's bytes, without the terminator; none of them is zero.
    CString(Vec<u8>),
    /// A raw machine address.
    Pointer(u64),
}

impl VMVal {
    /// The payload reduced to an unsigned 64-bit machine word; a string has
    /// no such form.
    pub open spec fn spec_value_u64(&self) -> Option<u64> {
        match self {
            VMVal::U8(u) => Some(*u as u64),
            VMVal::U16(u) => Some(*u as u64),
            VMVal::U32(u) => Some(*u as u64),
            VMVal::U64(u) => Some(*u),
            VMVal::CString(_) => None,
            VMVal::Pointer(p) => Some(*p),
        }
    }

    /// Reduces the payload to an unsigned 64-bit machine word, for every
    /// variant but a string.
    pub fn value_u64(&self) -> (r: Option<u64>)
        ensures
            r == self.spec_value_u64(),
    {
        match self {
            VMVal::U8(u) => Some(*u as u64),
            VMVal::U16(u) => Some(*u as u64),
            VMVal::U32(u) => Some(*u as u64),
            VMVal::U64(u) => Some(*u),
            VMVal::CString(_) => None,
            VMVal::Pointer(p) => Some(*p),
        }
    }

    /// The text bytes, only for a string payload.
    pub fn cstr(&self) -> (r: Option<&Vec<u8>>)
        ensures
            match self {
                VMVal::CString(b) => r == Some(b),
                _ => r is None,
            },
    {
        match self {
            VMVal::CString(b) => Some(b),
            _ => None,
        }
    }
}

/// Relies on `std::sync::Arc::as_ptr`: returns the address of the cell's
/// shared heap allocation. The address depends on the machine, so nothing
/// further is stated of it.
#[verifier::external_body]
fn cell_address(cell: &std::sync::Arc<VMVal>) -> (r: u64) {
    std::sync::Arc::as_ptr(cell) as u64
}

/// Relies on `std::sync::Arc::clone`: returns another handle to the same
/// shared allocation, whose contents — and address — are unchanged.
#[verifier::external_body]
fn clone_cell(cell: &std::sync::Arc<VMVal>) -> (r: std::sync::Arc<VMVal>)
    ensures
        r == *cell,
{
    std::sync::Arc::clone(cell)
}

/// A typed runtime value: one scalar payload in a reference-counted backing
/// cell whose heap allocation never moves, so the address taken at
/// construction stays valid for the cell's whole lifetime. A pointer-typed
/// value exclusively owns exactly one pointee value and keeps it alive; the
/// chain is one child per pointer level, never a general graph.
#[derive(Debug)]
pub struct Value {
    value: std::sync::Arc<VMVal>,
    addr: u64,
    type_: Type,
    child: Option<Box<Value>>,
}

impl Value {
    /// The payload in the backing cell.
    pub closed spec fn spec_vmval(&self) -> VMVal {
        *self.value
    }

    /// The address of the backing cell, taken at construction.
    pub closed spec fn spec_addr(&self) -> u64 {
        self.addr
    }

    /// The value's declared type.
    pub closed spec fn spec_type(&self) -> Type {
        self.type_
    }

    /// The owned pointee value, present exactly for pointer-typed values.
    pub closed spec fn spec_child(&self) -> Option<Value> {
        match self.child {
            Some(b) => Some(*b),
            None => None,
        }
    }

    /// The declared type always matches the payload: integer types hold
    /// the matching integer payload; a string type's capacity is its text
    /// length plus one for the terminator, and the text holds no zero byte;
    /// a typed pointer holds the address of its owned child's cell; a raw
    /// pointer holds a bare address and owns nothing.
    #[verifier::type_invariant]
    pub closed spec fn spec_wf(&self) -> bool
        decreases self,
    {
        match &self.type_ {
            Type::Primitive(p) => match p {
                Primitive::Empty => false,
                Primitive::U8 => self.spec_vmval() is U8 && self.child is None,
                Primitive::U16 => self.spec_vmval() is U16 && self.child is None,
                Primitive::U32 => self.spec_vmval() is U32 && self.child is None,
                Primitive::U64 => self.spec_vmval() is U64 && self.child is None,
                Primitive::CString(n) => {
                    &&& self.spec_vmval() matches VMVal::CString(b) && b@.len() + 1 == *n as int
                        && (forall|i: int| 0 <= i < b@.len() ==> b@[i] != 0u8)
                    &&& self.child is None
                },
                Primitive::Pointer(inner) => {
                    &&& self.spec_vmval() matches VMVal::Pointer(p) && (self.child matches Some(c)
                        && c.spec_type() == *inner && p == c.spec_addr() && c.spec_wf())
                },
                Primitive::RawPointer => self.spec_vmval() is Pointer && self.child is None,
            },
            Type::Struct(_) => false,
        }
    }

    pub fn new_u8(u: u8) -> (r: Value)
        ensures
            r.spec_vmval() == VMVal::U8(u),
            r.spec_type() == Type::Primitive(Primitive::U8),
            r.spec_child() is None,
    {
        let cell = std::sync::Arc::new(VMVal::U8(u));
        let addr = cell_address(&cell);
        Value { value: cell, addr, type_: Type::Primitive(Primitive::U8), child: None }
    }

    pub fn new_u16(u: u16) -> (r: Value)
        ensures
            r.spec_vmval() == VMVal::U16(u),
            r.spec_type() == Type::Primitive(Primitive::U16),
            r.spec_child() is None,
    {
        let cell = std::sync::Arc::new(VMVal::U16(u));
        let addr = cell_address(&cell);
        Value { value: cell, addr, type_: Type::Primitive(Primitive::U16), child: None }
    }

    pub fn new_u32(u: u32) -> (r: Value)
        ensures
            r.spec_vmval() == VMVal::U32(u),
            r.spec_type() == Type::Primitive(Primitive::U32),
            r.spec_child() is None,
    {
        let cell = std::sync::Arc::new(VMVal::U32(u));
        let addr = cell_address(&cell);
        Value { value: cell, addr, type_: Type::Primitive(Primitive::U32), child: None }
    }

    pub fn new_u64(u: u64) -> (r: Value)
        ensures
            r.spec_vmval() == VMVal::U64(u),
            r.spec_type() == Type::Primitive(Primitive::U64),
            r.spec_child() is None,
    {
        let cell = std::sync::Arc::new(VMVal::U64(u));
        let addr = cell_address(&cell);
        Value { value: cell, addr, type_: Type::Primitive(Primitive::U64), child: None }
    }

    /// An untyped pointer value holding an address received back from
    /// foreign code, with no known pointee type and no owned child.
    pub fn new_raw_pointer(p: u64) -> (r: Value)
        ensures
            r.spec_vmval() == VMVal::Pointer(p),
            r.spec_type() == Type::Primitive(Primitive::RawPointer),
            r.spec_child() is None,
    {
        let cell = std::sync::Arc::new(VMVal::Pointer(p));
        let addr = cell_address(&cell);
        Value { value: cell, addr, type_: Type::Primitive(Primitive::RawPointer), child: None }
    }

    /// Wraps `value` as the owned pointee of a new pointer value whose
    /// payload is the address of `value`'s backing cell — not a copy of its
    /// contents. The pointee stays alive exactly as long as the new value.
    pub fn new_pointer(value: Value) -> (r: Value)
        ensures
            r.spec_vmval() == VMVal::Pointer(value.spec_addr()),
            r.spec_type() matches Type::Primitive(Primitive::Pointer(t)) && *t
                == value.spec_type(),
            r.spec_child() == Some(value),
    {
        proof {
            use_type_invariant(&value);
            lemma_value_type_scalar(&value);
        }
        let pointee_type = clone_scalar_type(value.type_());
        let addr_of_child = value.address();
        let cell = std::sync::Arc::new(VMVal::Pointer(addr_of_child));
        let addr = cell_address(&cell);
        Value {
            value: cell,
            addr,
            type_: Type::Primitive(Primitive::Pointer(Box::new(pointee_type))),
            child: Some(Box::new(value)),
        }
    }

    pub fn value(&self) -> (r: &std::sync::Arc<VMVal>)
        ensures
            **r == self.spec_vmval(),
    {
        &self.value
    }

    pub fn type_(&self) -> (r: &Type)
        ensures
            *r == self.spec_type(),
    {
        &self.type_
    }

    /// The address of this value's backing cell.
    pub fn address(&self) -> (r: u64)
        ensures
            r == self.spec_addr(),
    {
        self.addr
    }

    /// The owned pointee value, present exactly for pointer-typed values.
    pub fn child(&self) -> (r: Option<&Value>)
        ensures
            match r {
                Some(c) => self.spec_child() == Some(*c),
                None => self.spec_child() is None,
            },
    {
        match &self.child {
            Some(b) => Some(&**b),
            None => None,
        }
    }

    /// The payload reduced to an unsigned 64-bit machine word; a string has
    /// no such form.
    pub fn value_u64(&self) -> (r: Option<u64>)
        ensures
            r == self.spec_vmval().spec_value_u64(),
    {
        (&*self.value).value_u64()
    }

    /// The payload as a signed 64-bit integer, reinterpreting the machine
    /// word; a string yields nothing.
    pub fn int_value(&self) -> (r: Option<i64>)
        ensures
            match self.spec_vmval().spec_value_u64() {
                Some(u) => r == Some(u as i64),
                None => r is None,
            },
    {
        match self.value_u64() {
            Some(u) =>
            Some(
                #[verifier::truncate]
                (u as i64),
            ),
            None => None,
        }
    }
}

impl Value {
    /// Constructs a string value from text. The text's bytes are stored
    /// without the terminator; the declared capacity is the byte length
    /// plus one for the terminator. Text holding an embedded terminator is
    /// rejected with `NulError`, carrying the text.
    pub fn new_cstring(s: String) -> (r: Result<Value, Error>)
        requires
            encode_utf8(s@).len() < usize::MAX,
        ensures
            match r {
                Ok(v) => {
                    &&& forall|i: int| 0 <= i < encode_utf8(s@).len() ==> encode_utf8(s@)[i] != 0u8
                    &&& v.spec_vmval() matches VMVal::CString(b) && b@ == encode_utf8(s@)
                    &&& v.spec_type() matches Type::Primitive(Primitive::CString(n)) && n as int
                        == encode_utf8(s@).len() + 1
                    &&& v.spec_child() is None
                },
                Err(e) => {
                    &&& exists|i: int|
                        0 <= i < encode_utf8(s@).len() && encode_utf8(s@)[i] == 0u8
                    &&& e matches Error::NulError(t) && t@ == s@
                },
            },
    {
        let bytes = s.as_str().as_bytes_vec();
        let mut i: usize = 0;
        while i < bytes.len()
            invariant
                0 <= i <= bytes@.len(),
                bytes@ == encode_utf8(s@),
                forall|j: int| 0 <= j < i ==> bytes@[j] != 0u8,
            decreases bytes@.len() - i,
        {
            if bytes[i] == 0u8 {
                return Err(Error::NulError(s));
            }
            i += 1;
        }
        Ok(Self::cstring_from_bytes(bytes))
    }

    /// A string value over raw stored bytes, as decoded from a struct field.
    fn cstring_from_bytes(bytes: Vec<u8>) -> (r: Value)
        requires
            bytes@.len() + 1 <= usize::MAX,
            forall|i: int| 0 <= i < bytes@.len() ==> bytes@[i] != 0u8,
        ensures
            r.spec_vmval() matches VMVal::CString(b) && b@ == bytes@,
            r.spec_type() matches Type::Primitive(Primitive::CString(n)) && n as int == bytes@.len()
                + 1,
            r.spec_child() is None,
    {
        let n = bytes.len() + 1;
        let cell = std::sync::Arc::new(VMVal::CString(bytes));
        let addr = cell_address(&cell);
        Value { value: cell, addr, type_: Type::Primitive(Primitive::CString(n)), child: None }
    }

    /// The text bytes, only for a string value.
    pub fn cstr(&self) -> (r: Option<&Vec<u8>>)
        ensures
            match self.spec_vmval() {
                VMVal::CString(b) => r matches Some(x) && x@ == b@,
                _ => r is None,
            },
    {
        (&*self.value).cstr()
    }

    /// A second value over the same backing cell: equal in payload, type,
    /// cell address and owned chain. The cell — and, below a pointer, each
    /// cell of the chain — is shared, not copied, so addresses already
    /// handed out stay those of the duplicate too.
    pub fn duplicate(&self) -> (r: Value)
        ensures
            r == *self,
        decreases *self,
    {
        proof {
            use_type_invariant(self);
            lemma_value_type_scalar(self);
        }
        Value {
            value: clone_cell(&self.value),
            addr: self.addr,
            type_: clone_scalar_type(&self.type_),
            child: match &self.child {
                Some(b) => Some(Box::new((&**b).duplicate())),
                None => None,
            },
        }
    }
}

/// Every value's declared type is scalar.
pub proof fn lemma_value_type_scalar(v: &Value)
    requires
        v.spec_wf(),
    ensures
        spec_scalar_type(&v.spec_type()),
    decreases v,
{
    match &v.spec_type() {
        Type::Primitive(p) => match p {
            Primitive::Pointer(inner) => {
                let c = v.spec_child().unwrap();
                lemma_value_type_scalar(&c);
            },
            _ => {
            },
        },
        Type::Struct(_) => {
        },
    }
}

/// The bytes `set_field` writes for a value: the value's own width, in
/// little-endian order for integers and addresses, and the text bytes
/// followed by one terminator for a string.
pub open spec fn spec_encoded_value(v: &Value) -> Seq<u8> {
    match v.spec_vmval() {
        VMVal::U8(u) => seq![u],
        VMVal::U16(u) => spec_le_bytes(u as int, 2),
        VMVal::U32(u) => spec_le_bytes(u as int, 4),
        VMVal::U64(u) => spec_le_bytes(u as int, 8),
        VMVal::CString(b) => b@ + seq![0u8],
        VMVal::Pointer(p) => spec_le_bytes(p as int, 8),
    }
}

/// What `get_field` yields for a field of type `t` over the instance bytes
/// `data`: nothing for an empty field, a decoded scalar value otherwise.
/// (A struct-typed field cannot be read as a value at all.)
pub open spec fn spec_field_read_ok(t: Type, off: int, data: Seq<u8>, r: Option<Value>) -> bool {
    match t {
        Type::Primitive(Primitive::Empty) => r is None,
        Type::Primitive(Primitive::U8) => r matches Some(v) && v.spec_vmval() == VMVal::U8(
            data[off],
        ) && v.spec_type() == Type::Primitive(Primitive::U8),
        Type::Primitive(Primitive::U16) => r matches Some(v) && v.spec_vmval() == VMVal::U16(
            spec_le_decode(data.subrange(off, off + 2)) as u16,
        ) && v.spec_type() == Type::Primitive(Primitive::U16),
        Type::Primitive(Primitive::U32) => r matches Some(v) && v.spec_vmval() == VMVal::U32(
            spec_le_decode(data.subrange(off, off + 4)) as u32,
        ) && v.spec_type() == Type::Primitive(Primitive::U32),
        Type::Primitive(Primitive::U64) => r matches Some(v) && v.spec_vmval() == VMVal::U64(
            spec_le_decode(data.subrange(off, off + 8)) as u64,
        ) && v.spec_type() == Type::Primitive(Primitive::U64),
        Type::Primitive(Primitive::CString(cap)) => r matches Some(v) && (v.spec_vmval() matches
            VMVal::CString(b) && b@ == spec_cstr_prefix(data.subrange(off, off + cap))
            && (v.spec_type() matches Type::Primitive(Primitive::CString(n)) && n as int == b@.len()
            + 1)),
        Type::Primitive(Primitive::Pointer(_)) => r matches Some(v) && v.spec_vmval()
            == VMVal::Pointer(
            spec_le_decode(data.subrange(off, off + primitive::POINTER_SIZE as int)) as u64,
        ) && v.spec_type() == Type::Primitive(Primitive::RawPointer),
        Type::Primitive(Primitive::RawPointer) => r matches Some(v) && v.spec_vmval()
            == VMVal::Pointer(
            spec_le_decode(data.subrange(off, off + primitive::POINTER_SIZE as int)) as u64,
        ) && v.spec_type() == Type::Primitive(Primitive::RawPointer),
        Type::Struct(_) => false,
    }
}

/// Law: reading a field inverts writing it, whenever the field's declared
/// type is the written value's own type. If the bytes at `off` hold what
/// `set_field` stores for `v` — as its contract guarantees after a
/// successful write — and `w` is what `get_field` yields for a field of
/// `v`'s type at `off` — as its contract guarantees — then `w` carries
/// `v`'s payload back: the same integer, the same address, and for a
/// string the same text with the terminator consumed. (A typed-pointer
/// field is read back as an untyped address, so its payload equality is
/// stated through the address.)
pub proof fn lemma_get_field_inverts_set_field(v: &Value, w: &Value, data: Seq<u8>, off: int)
    requires
        v.spec_wf(),
        0 <= off,
        off + spec_encoded_value(v).len() <= data.len(),
        data.subrange(off, off + spec_encoded_value(v).len() as int) == spec_encoded_value(v),
        spec_field_read_ok(v.spec_type(), off, data, Some(*w)),
    ensures
        v.spec_vmval() matches VMVal::U8(u) ==> w.spec_vmval() == VMVal::U8(u),
        v.spec_vmval() matches VMVal::U16(u) ==> w.spec_vmval() == VMVal::U16(u),
        v.spec_vmval() matches VMVal::U32(u) ==> w.spec_vmval() == VMVal::U32(u),
        v.spec_vmval() matches VMVal::U64(u) ==> w.spec_vmval() == VMVal::U64(u),
        v.spec_vmval() matches VMVal::CString(b) ==> w.spec_vmval() matches VMVal::CString(b2)
            && b2@ == b@,
        v.spec_vmval() matches VMVal::Pointer(p) ==> w.spec_vmval() == VMVal::Pointer(p),
{
    crate::encoding::lemma_pow256_widths();
    let enc = spec_encoded_value(v);
    match v.spec_vmval() {
        VMVal::U8(u) => {
            assert(data.subrange(off, off + 1)[0] == enc[0]);
        },
        VMVal::U16(u) => {
            crate::encoding::lemma_le_bytes_len(u as int, 2);
            crate::encoding::lemma_le_round_trip(u as int, 2);
        },
        VMVal::U32(u) => {
            crate::encoding::lemma_le_bytes_len(u as int, 4);
            crate::encoding::lemma_le_round_trip(u as int, 4);
        },
        VMVal::U64(u) => {
            crate::encoding::lemma_le_bytes_len(u as int, 8);
            crate::encoding::lemma_le_round_trip(u as int, 8);
        },
        VMVal::CString(b) => {
            let n = b@.len() as int;
            let range = data.subrange(off, off + n + 1);
            assert(range =~= enc);
            assert(forall|j: int| 0 <= j < n ==> range[j] != 0u8);
            assert(range[n] == 0u8);
            crate::encoding::lemma_cstr_prefix_characterize(range, n);
            assert(range.subrange(0, n) =~= b@);
        },
        VMVal::Pointer(p) => {
            crate::encoding::lemma_le_bytes_len(p as int, 8);
            crate::encoding::lemma_le_round_trip(p as int, 8);
        },
    }
}

/// One struct descriptor bound to one buffer sized to the struct's total
/// size. Fields are read and written through the descriptor's layout under
/// a little-endian, fixed-width encoding.
#[derive(Debug)]
pub struct StructBuf {
    struct_: Struct,
    buf: Buf,
}

impl StructBuf {
    pub closed spec fn spec_struct(&self) -> Struct {
        self.struct_
    }

    /// The instance bytes: the buffer's logical window.
    pub closed spec fn spec_data(&self) -> Seq<u8> {
        self.buf.spec_window()
    }

    /// The address of the instance's first byte.
    pub closed spec fn spec_addr(&self) -> u64 {
        self.buf.spec_addr()
    }

    /// The buffer is well formed and sized to the struct's total size.
    pub closed spec fn spec_wf(&self) -> bool {
        self.buf.spec_wf() && self.buf.spec_size() == self.struct_.spec_size()
    }

    /// Binds the descriptor to a fresh zeroed buffer sized to the struct's
    /// total size; fails with `BufTooLarge` exactly when that size exceeds
    /// the largest buffer tier.
    pub fn new(struct_: Struct) -> (r: Result<StructBuf, Error>)
        ensures
            (struct_.spec_size() < buf::BUF_DATA_MEGA_SIZE) == (r is Ok),
            r matches Ok(sb) ==> {
                &&& sb.spec_wf()
                &&& sb.spec_struct() == struct_
                &&& sb.spec_data().len() == struct_.spec_size()
                &&& forall|i: int| 0 <= i < sb.spec_data().len() ==> sb.spec_data()[i] == 0u8
            },
            r matches Err(e) ==> e matches Error::BufTooLarge(s) && s as int == struct_.spec_size(),
    {
        let size = struct_.size();
        let buf = match Buf::new(size) {
            Ok(b) => b,
            Err(e) => {
                return Err(e);
            },
        };
        Ok(StructBuf { struct_, buf })
    }

    pub fn struct_(&self) -> (r: &Struct)
        ensures
            *r == self.spec_struct(),
    {
        &self.struct_
    }

    /// The address of the backing buffer's first byte: what a caller passes
    /// to foreign code expecting a pointer to this structure.
    pub fn pointer_to(&self) -> (r: u64)
        ensures
            r == self.spec_addr(),
    {
        self.buf.address()
    }

    /// Reads the named field: nothing for an empty field; otherwise the
    /// field's byte range decoded under the little-endian, fixed-width
    /// encoding of its declared type. A string field is decoded up to its
    /// declared capacity or the first zero byte, whichever comes first;
    /// pointer fields are decoded as untyped addresses. A missing field
    /// fails with `StructFieldNotFound`; a struct-typed field cannot be
    /// read as a scalar and fails with `StructAsValue`.
    pub fn get_field(&self, name: &str) -> (r: Result<Option<Value>, Error>)
        requires
            self.spec_wf(),
        ensures
            match self.spec_struct().spec_get_field(name@) {
                None => r matches Err(e) && e is StructFieldNotFound,
                Some(f) => match f.spec_type() {
                    Type::Struct(_) => r matches Err(e) && e is StructAsValue,
                    _ => r matches Ok(o) && spec_field_read_ok(
                        f.spec_type(),
                        f.spec_offset(),
                        self.spec_data(),
                        o,
                    ),
                },
            },
    {
        let field = match self.struct_.get_field(name) {
            Some(f) => f,
            None => {
                return Err(Error::StructFieldNotFound);
            },
        };
        proof {
            use_type_invariant(&self.struct_);
            struct_::lemma_get_field_end(&self.struct_, name@);
            use_type_invariant(field);
            struct_::lemma_field_end(field);
            lemma_type_size_nonneg(&field.spec_type());
            buf::lemma_buf_wf(&self.buf);
        }
        let off = field.offset();
        let data = self.buf.data();
        match field.type_() {
            Type::Primitive(Primitive::Empty) => Ok(None),
            Type::Primitive(Primitive::U8) => {
                let b = *slice_index_get(data, off);
                Ok(Some(Value::new_u8(b)))
            },
            Type::Primitive(Primitive::U16) => Ok(Some(Value::new_u16(read_u16_le(data, off)))),
            Type::Primitive(Primitive::U32) => Ok(Some(Value::new_u32(read_u32_le(data, off)))),
            Type::Primitive(Primitive::U64) => Ok(Some(Value::new_u64(read_u64_le(data, off)))),
            Type::Primitive(Primitive::CString(cap)) => {
                let cap = *cap;
                let ghost range = self.spec_data().subrange(off as int, off + cap);
                let mut bytes: Vec<u8> = Vec::new();
                let mut i: usize = 0;
                let mut terminated = false;
                while i < cap && !terminated
                    invariant
                        0 <= i <= cap,
                        off + cap <= usize::MAX,
                        off + cap <= data@.len(),
                        data@ == self.spec_data(),
                        range == self.spec_data().subrange(off as int, off + cap),
                        !terminated ==> bytes@ == range.subrange(0, i as int),
                        !terminated ==> forall|j: int| 0 <= j < i ==> range[j] != 0u8,
                        terminated ==> i > 0 && bytes@ == range.subrange(0, i - 1) && range[i - 1]
                            == 0u8 && (forall|j: int| 0 <= j < i - 1 ==> range[j] != 0u8),
                    decreases cap - i,
                {
                    let b = *slice_index_get(data, off + i);
                    proof {
                        assert(range[i as int] == data@[off + i]);
                    }
                    if b == 0u8 {
                        terminated = true;
                    } else {
                        bytes.push(b);
                        proof {
                            assert(bytes@ =~= range.subrange(0, i + 1));
                        }
                    }
                    i += 1;
                }
                proof {
                    if terminated {
                        crate::encoding::lemma_cstr_prefix_characterize(range, i - 1);
                    } else {
                        crate::encoding::lemma_cstr_prefix_characterize(range, i as int);
                        assert(range.subrange(0, range.len() as int) =~= range);
                    }
                }
                Ok(Some(Value::cstring_from_bytes(bytes)))
            },
            Type::Primitive(Primitive::Pointer(_)) => Ok(
                Some(Value::new_raw_pointer(read_u64_le(data, off))),
            ),
            Type::Primitive(Primitive::RawPointer) => Ok(
                Some(Value::new_raw_pointer(read_u64_le(data, off))),
            ),
            Type::Struct(_) => Err(Error::StructAsValue),
        }
    }

    /// Writes a value into the named field. The value's type must fit
    /// within the field's declared type; the write covers the value's own
    /// width at the field's offset, leaving every other byte unchanged. A
    /// missing field fails with `StructFieldNotFound`, an incompatible
    /// value with `StructSetInvalidType`; on any error the bytes are
    /// unchanged.
    pub fn set_field(&mut self, name: &str, value: &Value) -> (r: Result<(), Error>)
        requires
            old(self).spec_wf(),
        ensures
            final(self).spec_wf(),
            final(self).spec_struct() == old(self).spec_struct(),
            final(self).spec_addr() == old(self).spec_addr(),
            final(self).spec_data().len() == old(self).spec_data().len(),
            match old(self).spec_struct().spec_get_field(name@) {
                None => r matches Err(e) && e is StructFieldNotFound && final(self).spec_data()
                    == old(self).spec_data(),
                Some(f) => {
                    if !value.spec_type().spec_fits_within(&f.spec_type()) {
                        r matches Err(e) && e is StructSetInvalidType && final(self).spec_data()
                            == old(self).spec_data()
                    } else {
                        let enc = spec_encoded_value(value);
                        let off = f.spec_offset();
                        {
                            &&& r is Ok
                            &&& final(self).spec_data().subrange(off, off + enc.len() as int)
                                == enc
                            &&& forall|i: int|
                                0 <= i < old(self).spec_data().len() && !(off <= i < off
                                    + enc.len()) ==> final(self).spec_data()[i] == old(
                                    self,
                                ).spec_data()[i]
                        }
                    }
                },
            },
    {
        proof {
            use_type_invariant(value);
        }
        let field = match self.struct_.get_field(name) {
            Some(f) => f,
            None => {
                return Err(Error::StructFieldNotFound);
            },
        };
        if !value.type_().fits_within(field.type_()) {
            return Err(Error::StructSetInvalidType);
        }
        proof {
            use_type_invariant(&self.struct_);
            struct_::lemma_get_field_end(&self.struct_, name@);
            use_type_invariant(field);
            struct_::lemma_field_end(field);
            lemma_type_size_nonneg(&field.spec_type());
            buf::lemma_buf_wf(&self.buf);
        }
        let off = field.offset();
        let ghost old_data = self.spec_data();
        let ghost enc = spec_encoded_value(value);
        let ghost fty = field.spec_type();
        let w = self.buf.data_mut();
        match value.type_() {
            Type::Primitive(Primitive::U8) => {
                let u = match value.value_u64() {
                    Some(u) => u,
                    None => vstd::pervasive::unreached(),
                };
                set_byte(w, off, u as u8);
            },
            Type::Primitive(Primitive::U16) => {
                let u = match value.value_u64() {
                    Some(u) => u,
                    None => vstd::pervasive::unreached(),
                };
                write_u16_le(w, off, u as u16);
            },
            Type::Primitive(Primitive::U32) => {
                let u = match value.value_u64() {
                    Some(u) => u,
                    None => vstd::pervasive::unreached(),
                };
                write_u32_le(w, off, u as u32);
            },
            Type::Primitive(Primitive::U64) => {
                let u = match value.value_u64() {
                    Some(u) => u,
                    None => vstd::pervasive::unreached(),
                };
                write_u64_le(w, off, u);
            },
            Type::Primitive(Primitive::CString(_)) => {
                let bytes = match value.cstr() {
                    Some(b) => b,
                    None => vstd::pervasive::unreached(),
                };
                let n = bytes.len();
                let mut i: usize = 0;
                while i < n
                    invariant
                        0 <= i <= n,
                        off + n + 1 <= usize::MAX,
                        n == bytes@.len(),
                        bytes@.len() + 1 <= enc.len(),
                        enc == bytes@ + seq![0u8],
                        off + enc.len() <= w@.len(),
                        w@.len() == old_data.len(),
                        forall|j: int| 0 <= j < i ==> w@[off + j] == bytes@[j],
                        forall|j: int|
                            0 <= j < w@.len() && !(off <= j < off + i) ==> w@[j] == old_data[j],
                    decreases n - i,
                {
                    set_byte(w, off + i, *slice_index_get(bytes, i));
                    i += 1;
                }
                set_byte(w, off + n, 0u8);
            },
            Type::Primitive(Primitive::Pointer(_)) => {
                let u = match value.value_u64() {
                    Some(u) => u,
                    None => vstd::pervasive::unreached(),
                };
                write_u64_le(w, off, u);
            },
            Type::Primitive(Primitive::RawPointer) => {
                let u = match value.value_u64() {
                    Some(u) => u,
                    None => vstd::pervasive::unreached(),
                };
                write_u64_le(w, off, u);
            },
            Type::Primitive(Primitive::Empty) => vstd::pervasive::unreached(),
            Type::Struct(_) => vstd::pervasive::unreached(),
        }
        Ok(())
    }
}

} // verus!
