use wlb::types::primitive::POINTER_SIZE;
use wlb::types::{Primitive, Struct, StructField, Type};
use wlb::Error;

fn u32_t() -> Type {
    Type::Primitive(Primitive::U32)
}

fn u16_t() -> Type {
    Type::Primitive(Primitive::U16)
}

#[test]
fn primitive_sizes() {
    assert_eq!(Primitive::Empty.size(), 0);
    assert_eq!(Primitive::U8.size(), 1);
    assert_eq!(Primitive::U16.size(), 2);
    assert_eq!(Primitive::U32.size(), 4);
    assert_eq!(Primitive::U64.size(), 8);
    assert_eq!(Primitive::CString(17).size(), 17);
    assert_eq!(
        Primitive::Pointer(Box::new(Type::Primitive(Primitive::Empty))).size(),
        POINTER_SIZE
    );
    assert_eq!(Primitive::RawPointer.size(), POINTER_SIZE);
}

#[test]
fn integer_fits_by_width() {
    let ints = [Primitive::U8, Primitive::U16, Primitive::U32, Primitive::U64];
    let widths = [1usize, 2, 4, 8];
    for (a, wa) in ints.iter().zip(widths.iter()) {
        for (b, wb) in ints.iter().zip(widths.iter()) {
            assert_eq!(a.fits_within(b), wa <= wb, "{:?} in {:?}", a, b);
        }
    }
}

#[test]
fn cstring_and_pointer_fits() {
    assert!(Primitive::CString(12).fits_within(&Primitive::CString(20)));
    assert!(Primitive::CString(20).fits_within(&Primitive::CString(20)));
    assert!(!Primitive::CString(21).fits_within(&Primitive::CString(20)));
    assert!(!Primitive::CString(4).fits_within(&Primitive::U32));

    let ptr = Primitive::Pointer(Box::new(Type::Primitive(Primitive::U8)));
    assert!(ptr.fits_within(&Primitive::U64));
    assert!(ptr.fits_within(&Primitive::Pointer(Box::new(Type::Primitive(Primitive::U32)))));
    assert!(!ptr.fits_within(&Primitive::U32));
    assert!(!ptr.fits_within(&Primitive::U16));
    assert!(Primitive::RawPointer.fits_within(&Primitive::RawPointer));
    assert!(Primitive::RawPointer.fits_within(&Primitive::U64));

    assert!(Primitive::Empty.fits_within(&Primitive::Empty));
    assert!(!Primitive::Empty.fits_within(&Primitive::U8));
    assert!(!Primitive::U8.fits_within(&Primitive::Empty));
}

#[test]
fn empty_struct_size_is_zero() {
    let s = Struct::new();
    assert!(s.is_empty());
    assert_eq!(s.size(), 0);
}

#[test]
fn struct_size_is_greatest_field_end() {
    let mut s = Struct::new();
    s.push(StructField::new("a".to_string(), 0, u32_t())).unwrap();
    s.push(StructField::new("b".to_string(), 4, u16_t())).unwrap();
    assert_eq!(s.size(), 6);
    assert!(!s.is_empty());
    assert_eq!(s.fields().len(), 2);
}

#[test]
fn push_rejects_duplicate_name() {
    let mut s = Struct::new();
    s.push(StructField::new("x".to_string(), 0, u32_t())).unwrap();
    let before = s.fields().len();
    let r = s.push(StructField::new("x".to_string(), 8, u16_t()));
    assert!(matches!(r, Err(Error::StructDuplicateName(ref n)) if n == "x"));
    assert_eq!(s.fields().len(), before);
}

#[test]
fn push_rejects_overlapping_fields() {
    let mut s = Struct::new();
    s.push(StructField::new("x".to_string(), 0, u32_t())).unwrap();
    let before = s.fields().len();
    // Bytes [2, 4) intersect the existing [0, 4) range at bytes 2 and 3.
    let r = s.push(StructField::new("y".to_string(), 2, u16_t()));
    assert!(matches!(r, Err(Error::OverlappingFields)));
    assert_eq!(s.fields().len(), before);
    // A single shared byte is enough: [3, 5) touches [0, 4) at byte 3.
    let r = s.push(StructField::new("z".to_string(), 3, u16_t()));
    assert!(matches!(r, Err(Error::OverlappingFields)));
    assert_eq!(s.fields().len(), before);
    // Adjacent ranges do not intersect.
    s.push(StructField::new("w".to_string(), 4, u16_t())).unwrap();
    assert_eq!(s.fields().len(), 2);
}

#[test]
fn field_accessors_and_lookup() {
    let mut s = Struct::new();
    s.push(StructField::new("first".to_string(), 0, u32_t())).unwrap();
    s.push(StructField::new("second".to_string(), 4, u16_t())).unwrap();
    let f = s.get_field("second").unwrap();
    assert_eq!(f.name(), "second");
    assert_eq!(f.offset(), 4);
    assert!(matches!(f.type_(), Type::Primitive(Primitive::U16)));
    assert!(s.get_field("third").is_none());
    assert!(f.in_field(5));
    assert!(!f.in_field(6));
    assert!(!f.in_field(3));
}

#[test]
fn overlaps_is_byte_range_intersection() {
    let a = StructField::new("a".to_string(), 0, u32_t());
    let b = StructField::new("b".to_string(), 3, u16_t());
    let c = StructField::new("c".to_string(), 4, u16_t());
    assert!(a.overlaps(&b));
    assert!(b.overlaps(&a));
    assert!(!a.overlaps(&c));
    assert!(!c.overlaps(&a));
    let empty = StructField::new("e".to_string(), 1, Type::Primitive(Primitive::Empty));
    assert!(!a.overlaps(&empty));
    assert!(!empty.overlaps(&a));
}

#[test]
fn type_fits_within() {
    assert!(u16_t().fits_within(&u32_t()));
    assert!(!u32_t().fits_within(&u16_t()));
    assert!(!u16_t().fits_within(&Type::Struct(Struct::new())));

    let mut small = Struct::new();
    small.push(StructField::new("a".to_string(), 0, u16_t())).unwrap();
    let mut big = Struct::new();
    big.push(StructField::new("a".to_string(), 0, u32_t())).unwrap();
    assert!(small.fits_within(&big));
    assert!(!big.fits_within(&small));
    assert!(Type::Struct(small).fits_within(&Type::Struct(big)));
}
