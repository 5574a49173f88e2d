use wlb::types::buf::BufData;
use wlb::types::{Buf, Primitive, Struct, StructBuf, StructField, Type, VMVal, Value};
use wlb::Error;

#[test]
fn buf_tier_selection() {
    assert_eq!(Buf::new(0).unwrap().capacity(), 32);
    assert_eq!(Buf::new(32).unwrap().capacity(), 32);
    assert_eq!(Buf::new(33).unwrap().capacity(), 128);
    assert_eq!(Buf::new(128).unwrap().capacity(), 128);
    assert_eq!(Buf::new(129).unwrap().capacity(), 1024);
    assert_eq!(Buf::new(1023).unwrap().capacity(), 1024);
    // The large-tier boundary itself already selects the mega tier.
    assert_eq!(Buf::new(1024).unwrap().capacity(), 65536);
    assert_eq!(Buf::new(65535).unwrap().capacity(), 65536);
    assert!(matches!(Buf::new(65536), Err(Error::BufTooLarge(65536))));
    assert!(matches!(Buf::new(100_000), Err(Error::BufTooLarge(100_000))));
}

#[test]
fn buf_exposes_logical_window_only() {
    let buf = Buf::new(33).unwrap();
    assert_eq!(buf.size(), 33);
    assert_eq!(buf.data().len(), 33);
    assert!(buf.data().iter().all(|b| *b == 0));
    let mut buf = Buf::new(5).unwrap();
    assert_eq!(buf.data_mut().len(), 5);
    buf.data_mut()[4] = 7;
    assert_eq!(buf.data()[4], 7);
    assert_eq!(buf.data()[0], 0);
}

#[test]
fn value_constructors_and_word_forms() {
    assert_eq!(Value::new_u8(0xab).value_u64(), Some(0xab));
    assert_eq!(Value::new_u16(0xabcd).value_u64(), Some(0xabcd));
    assert_eq!(Value::new_u32(0xdeadbeef).value_u64(), Some(0xdeadbeef));
    assert_eq!(Value::new_u64(u64::MAX).value_u64(), Some(u64::MAX));
    assert_eq!(Value::new_raw_pointer(0x1234).value_u64(), Some(0x1234));
    assert!(matches!(
        Value::new_u16(5).type_(),
        Type::Primitive(Primitive::U16)
    ));
    assert!(matches!(
        Value::new_raw_pointer(1).type_(),
        Type::Primitive(Primitive::RawPointer)
    ));
    assert_eq!(Value::new_u64(u64::MAX).int_value(), Some(-1));
    assert_eq!(Value::new_u8(9).int_value(), Some(9));
}

#[test]
fn cstring_value_stores_text_and_capacity() {
    let v = Value::new_cstring("abc".to_string()).unwrap();
    assert_eq!(v.cstr().unwrap().as_slice(), b"abc");
    assert_eq!(v.value_u64(), None);
    assert_eq!(v.int_value(), None);
    // Capacity counts the terminator: three bytes of text plus one.
    assert!(matches!(v.type_(), Type::Primitive(Primitive::CString(4))));
}

#[test]
fn cstring_value_rejects_embedded_terminator() {
    let r = Value::new_cstring("ab\0c".to_string());
    assert!(matches!(r, Err(Error::NulError(ref t)) if t == "ab\0c"));
}

#[test]
fn pointer_value_holds_child_cell_address() {
    let v = Value::new_u32(7);
    let addr = v.address();
    let p = Value::new_pointer(v);
    // The pointer's numeric payload is the child's backing-cell address.
    assert_eq!(p.value_u64(), Some(addr));
    match p.type_() {
        Type::Primitive(Primitive::Pointer(inner)) => {
            assert!(matches!(**inner, Type::Primitive(Primitive::U32)));
        }
        t => panic!("unexpected pointer type {:?}", t),
    }
    // The wrapped value lives on, owned by the pointer value.
    let child = p.child().unwrap();
    assert_eq!(child.value_u64(), Some(7));
    assert_eq!(child.address(), addr);
    // Plain values own no child.
    assert!(Value::new_u8(1).child().is_none());
}

#[test]
fn nested_pointer_chains_one_child_per_level() {
    let inner = Value::new_u16(3);
    let inner_addr = inner.address();
    let mid = Value::new_pointer(inner);
    let mid_addr = mid.address();
    let outer = Value::new_pointer(mid);
    assert_eq!(outer.value_u64(), Some(mid_addr));
    let mid_ref = outer.child().unwrap();
    assert_eq!(mid_ref.value_u64(), Some(inner_addr));
    assert_eq!(mid_ref.child().unwrap().value_u64(), Some(3));
}

#[test]
fn vmval_accessors() {
    assert_eq!(VMVal::U8(4).value_u64(), Some(4));
    assert_eq!(VMVal::Pointer(99).value_u64(), Some(99));
    assert_eq!(VMVal::CString(b"hi".to_vec()).value_u64(), None);
    assert_eq!(
        VMVal::CString(b"hi".to_vec()).cstr().map(|b| b.as_slice()),
        Some(&b"hi"[..])
    );
    assert!(VMVal::U32(1).cstr().is_none());
}

fn one_field_struct(name: &str, offset: usize, t: Type) -> Struct {
    let mut s = Struct::new();
    s.push(StructField::new(name.to_string(), offset, t)).unwrap();
    s
}

#[test]
fn struct_buf_sizes_buffer_to_struct() {
    let mut s = Struct::new();
    s.push(StructField::new(
        "a".to_string(),
        0,
        Type::Primitive(Primitive::U32),
    ))
    .unwrap();
    s.push(StructField::new(
        "b".to_string(),
        4,
        Type::Primitive(Primitive::U16),
    ))
    .unwrap();
    let sb = StructBuf::new(s).unwrap();
    assert_eq!(sb.struct_().size(), 6);
    assert_ne!(sb.pointer_to(), 0);

    let huge = one_field_struct("x", 65532, Type::Primitive(Primitive::U32));
    assert!(matches!(StructBuf::new(huge), Err(Error::BufTooLarge(65536))));
}

#[test]
fn u32_field_round_trip() {
    let s = one_field_struct("n", 0, Type::Primitive(Primitive::U32));
    let mut sb = StructBuf::new(s).unwrap();
    sb.set_field("n", &Value::new_u32(0xdeadbeef)).unwrap();
    let v = sb.get_field("n").unwrap().unwrap();
    assert_eq!(v.int_value(), Some(0xdeadbeef));
    assert!(matches!(v.type_(), Type::Primitive(Primitive::U32)));
}

#[test]
fn narrow_value_in_wide_field_little_endian() {
    // A one-byte value written into a U32-declared field touches only the
    // field's first byte; reading the field back decodes it little-endian,
    // so the byte lands in the low-order position.
    let s = one_field_struct("n", 0, Type::Primitive(Primitive::U32));
    let mut sb = StructBuf::new(s).unwrap();
    sb.set_field("n", &Value::new_u8(0xab)).unwrap();
    let v = sb.get_field("n").unwrap().unwrap();
    assert_eq!(v.value_u64(), Some(0xab));
}

#[test]
fn u16_and_u64_field_round_trips() {
    let s16 = one_field_struct("n", 2, Type::Primitive(Primitive::U16));
    let mut sb = StructBuf::new(s16).unwrap();
    sb.set_field("n", &Value::new_u16(0xbeef)).unwrap();
    assert_eq!(sb.get_field("n").unwrap().unwrap().value_u64(), Some(0xbeef));

    let s64 = one_field_struct("n", 0, Type::Primitive(Primitive::U64));
    let mut sb = StructBuf::new(s64).unwrap();
    sb.set_field("n", &Value::new_u64(0x0123_4567_89ab_cdef)).unwrap();
    assert_eq!(
        sb.get_field("n").unwrap().unwrap().value_u64(),
        Some(0x0123_4567_89ab_cdef)
    );
}

#[test]
fn cstring_field_round_trip() {
    let s = one_field_struct("s", 0, Type::Primitive(Primitive::CString(10)));
    let mut sb = StructBuf::new(s).unwrap();
    let v = Value::new_cstring("abc".to_string()).unwrap();
    sb.set_field("s", &v).unwrap();
    let back = sb.get_field("s").unwrap().unwrap();
    // The terminator is consumed, not part of the returned text.
    assert_eq!(back.cstr().unwrap().as_slice(), b"abc");
    assert!(matches!(back.type_(), Type::Primitive(Primitive::CString(4))));
}

#[test]
fn cstring_too_large_for_field_is_rejected() {
    let s = one_field_struct("s", 0, Type::Primitive(Primitive::CString(3)));
    let mut sb = StructBuf::new(s).unwrap();
    // "abc" needs capacity 4 (text plus terminator) and the field holds 3.
    let v = Value::new_cstring("abc".to_string()).unwrap();
    assert!(matches!(
        sb.set_field("s", &v),
        Err(Error::StructSetInvalidType)
    ));
}

#[test]
fn pointer_field_round_trip() {
    let s = one_field_struct("p", 0, Type::Primitive(Primitive::RawPointer));
    let mut sb = StructBuf::new(s).unwrap();
    sb.set_field("p", &Value::new_raw_pointer(0x1122_3344_5566_7788)).unwrap();
    let v = sb.get_field("p").unwrap().unwrap();
    assert_eq!(v.value_u64(), Some(0x1122_3344_5566_7788));
    assert!(matches!(v.type_(), Type::Primitive(Primitive::RawPointer)));
}

#[test]
fn empty_field_reads_as_nothing() {
    let s = one_field_struct("e", 0, Type::Primitive(Primitive::Empty));
    let sb = StructBuf::new(s).unwrap();
    assert!(sb.get_field("e").unwrap().is_none());
}

#[test]
fn missing_field_and_type_mismatch_errors() {
    let s = one_field_struct("n", 0, Type::Primitive(Primitive::U8));
    let mut sb = StructBuf::new(s).unwrap();
    assert!(matches!(
        sb.get_field("missing"),
        Err(Error::StructFieldNotFound)
    ));
    assert!(matches!(
        sb.set_field("missing", &Value::new_u8(1)),
        Err(Error::StructFieldNotFound)
    ));
    // A four-byte value does not fit within a one-byte field.
    assert!(matches!(
        sb.set_field("n", &Value::new_u32(1)),
        Err(Error::StructSetInvalidType)
    ));
    // A failed write leaves the field's bytes unchanged.
    assert_eq!(sb.get_field("n").unwrap().unwrap().value_u64(), Some(0));
}

#[test]
fn struct_typed_field_is_not_a_scalar() {
    let mut inner = Struct::new();
    inner
        .push(StructField::new(
            "x".to_string(),
            0,
            Type::Primitive(Primitive::U16),
        ))
        .unwrap();
    let s = one_field_struct("nested", 0, Type::Struct(inner));
    let mut sb = StructBuf::new(s).unwrap();
    assert!(matches!(sb.get_field("nested"), Err(Error::StructAsValue)));
    // No runtime value has a struct type, so a write to a struct-typed
    // field is rejected as a type mismatch before any byte moves.
    assert!(matches!(
        sb.set_field("nested", &Value::new_u16(1)),
        Err(Error::StructSetInvalidType)
    ));
}

#[test]
fn set_field_widens_integers() {
    // A U16 value fits within a U64-declared field.
    let s = one_field_struct("n", 0, Type::Primitive(Primitive::U64));
    let mut sb = StructBuf::new(s).unwrap();
    sb.set_field("n", &Value::new_u16(0x0102)).unwrap();
    assert_eq!(sb.get_field("n").unwrap().unwrap().value_u64(), Some(0x0102));
}

#[test]
fn stable_text_rendering() {
    assert_eq!(Value::new_u8(0xab).render(), "0xab");
    assert_eq!(Value::new_u8(5).render(), "0x05");
    assert_eq!(Value::new_u16(0x1a2).render(), "0x01a2");
    assert_eq!(Value::new_u32(0xdeadbeef).render(), "0xdeadbeef");
    assert_eq!(Value::new_u64(1).render(), "0x0000000000000001");
    assert_eq!(
        Value::new_cstring("abc".to_string()).unwrap().render(),
        "abc"
    );
    assert_eq!(Value::new_raw_pointer(0).render(), "*0x0");
    assert_eq!(Value::new_raw_pointer(0xdead).render(), "*0xdead");
    let v = Value::new_u8(1);
    let addr = v.address();
    let p = Value::new_pointer(v);
    assert_eq!(p.render(), format!("*0x{:x}", addr));
}

#[test]
fn empty_text_value() {
    let v = Value::new_cstring(String::new()).unwrap();
    assert_eq!(v.cstr().unwrap().len(), 0);
    // Capacity 1: the terminator alone.
    assert!(matches!(v.type_(), Type::Primitive(Primitive::CString(1))));
    assert_eq!(v.render(), "");
}

#[test]
fn cstring_at_exact_capacity() {
    // "ab" needs capacity 3, exactly what the field declares.
    let s = one_field_struct("s", 0, Type::Primitive(Primitive::CString(3)));
    let mut sb = StructBuf::new(s).unwrap();
    sb.set_field("s", &Value::new_cstring("ab".to_string()).unwrap())
        .unwrap();
    assert_eq!(
        sb.get_field("s").unwrap().unwrap().cstr().unwrap().as_slice(),
        b"ab"
    );
}

#[test]
fn buf_data_tiers_carry_their_lengths() {
    assert_eq!(BufData::new_small().get().len(), 32);
    assert_eq!(BufData::new_medium().get().len(), 128);
    assert_eq!(BufData::new_large().get().len(), 1024);
    assert_eq!(BufData::new_mega().get().len(), 65536);
    assert!(BufData::new_medium().get().iter().all(|b| *b == 0));
    let mut d = BufData::new_small();
    assert_eq!(d.get_mut().len(), 32);
    d.get_mut()[31] = 9;
    assert_eq!(d.get()[31], 9);
    assert_eq!(d.get().len(), 32);
}

#[test]
fn duplicate_shares_the_backing_cell() {
    let v = Value::new_u32(9);
    let d = v.duplicate();
    assert_eq!(d.address(), v.address());
    assert_eq!(d.value_u64(), Some(9));
    // A pointer over the duplicate carries the original cell's address.
    let p = Value::new_pointer(d);
    assert_eq!(p.value_u64(), Some(v.address()));
    // The whole chain is shared, address for address.
    let q = p.duplicate();
    assert_eq!(q.address(), p.address());
    assert_eq!(q.value_u64(), p.value_u64());
    assert_eq!(
        q.child().unwrap().address(),
        p.child().unwrap().address()
    );
    let s = Value::new_cstring("hey".to_string()).unwrap();
    let sd = s.duplicate();
    assert_eq!(sd.address(), s.address());
    assert_eq!(sd.cstr().unwrap(), s.cstr().unwrap());
}
