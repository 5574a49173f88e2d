//! The stable text rendering of runtime values: fixed-width hexadecimal
//! for integers, the decoded text for strings, and a `*`-prefixed
//! hexadecimal address for pointers.

use crate::types::{VMVal, Value};
use vstd::prelude::*;
use vstd::string::{StrSliceExecFns, StringExecFns};

verus! {

/// The hexadecimal digit for one value below sixteen.
pub open spec fn spec_hex_digit(d: int) -> char {
    if d == 0 {
        '0'
    } else if d == 1 {
        '1'
    } else if d == 2 {
        '2'
    } else if d == 3 {
        '3'
    } else if d == 4 {
        '4'
    } else if d == 5 {
        '5'
    } else if d == 6 {
        '6'
    } else if d == 7 {
        '7'
    } else if d == 8 {
        '8'
    } else if d == 9 {
        '9'
    } else if d == 10 {
        'a'
    } else if d == 11 {
        'b'
    } else if d == 12 {
        'c'
    } else if d == 13 {
        'd'
    } else if d == 14 {
        'e'
    } else {
        'f'
    }
}

/// The lowest `n` hexadecimal digits of `v`, most significant first.
pub open spec fn spec_hex_fixed(v: int, n: nat) -> Seq<char>
    decreases n,
{
    if n == 0 {
        Seq::empty()
    } else {
        spec_hex_fixed(v / 16, (n - 1) as nat) + seq![spec_hex_digit(v % 16)]
    }
}

/// The hexadecimal digits of `v` without leading zeros (a single zero for
/// zero), most significant first.
pub open spec fn spec_hex_min(v: nat) -> Seq<char>
    decreases v,
{
    if v < 16 {
        seq![spec_hex_digit(v as int)]
    } else {
        spec_hex_min(v / 16) + seq![spec_hex_digit((v % 16) as int)]
    }
}

/// What `String::from_utf8_lossy` yields for given bytes; the result is a
/// function of the bytes alone.
pub uninterp spec fn lossy_text_of(bs: Seq<u8>) -> Seq<char>;

/// Relies on `String::from_utf8_lossy`: decodes the bytes as UTF-8 text,
/// replacing invalid sequences with the replacement character.
#[verifier::external_body]
fn lossy_text(bs: &Vec<u8>) -> (r: String)
    ensures
        r@ == lossy_text_of(bs@),
{
    String::from_utf8_lossy(bs.as_slice()).to_string()
}

fn hex_digit_str(d: u8) -> (r: &'static str)
    requires
        d < 16,
    ensures
        r@ == seq![spec_hex_digit(d as int)],
{
    let r: &'static str = match d {
        0 => "0",
        1 => "1",
        2 => "2",
        3 => "3",
        4 => "4",
        5 => "5",
        6 => "6",
        7 => "7",
        8 => "8",
        9 => "9",
        10 => "a",
        11 => "b",
        12 => "c",
        13 => "d",
        14 => "e",
        _ => "f",
    };
    proof {
        reveal_strlit("0");
        reveal_strlit("1");
        reveal_strlit("2");
        reveal_strlit("3");
        reveal_strlit("4");
        reveal_strlit("5");
        reveal_strlit("6");
        reveal_strlit("7");
        reveal_strlit("8");
        reveal_strlit("9");
        reveal_strlit("a");
        reveal_strlit("b");
        reveal_strlit("c");
        reveal_strlit("d");
        reveal_strlit("e");
        reveal_strlit("f");
        assert(r@ =~= seq![spec_hex_digit(d as int)]);
    }
    r
}

/// The lowest `width` hexadecimal digits of `v`, most significant first.
fn hex_fixed(v: u64, width: usize) -> (r: String)
    ensures
        r@ == spec_hex_fixed(v as int, width as nat),
    decreases width,
{
    if width == 0 {
        let r = String::new();
        proof {
            assert(r@ =~= spec_hex_fixed(v as int, 0));
        }
        r
    } else {
        let mut s = hex_fixed(v / 16, width - 1);
        s.append(hex_digit_str((v % 16) as u8));
        proof {
            assert(s@ =~= spec_hex_fixed(v as int, width as nat));
        }
        s
    }
}

/// The hexadecimal digits of `v` without leading zeros.
fn hex_min(v: u64) -> (r: String)
    ensures
        r@ == spec_hex_min(v as nat),
    decreases v,
{
    if v < 16 {
        hex_digit_str(v as u8).to_owned()
    } else {
        let mut s = hex_min(v / 16);
        s.append(hex_digit_str((v % 16) as u8));
        proof {
            assert(s@ =~= spec_hex_min(v as nat));
        }
        s
    }
}

/// The rendering of each payload: `0x` and fixed-width lowercase
/// hexadecimal for integers — two, four, eight or sixteen digits matching
/// the width — the decoded text for a string, and `*0x` with the minimal
/// hexadecimal address for a pointer.
pub open spec fn spec_render(vm: VMVal) -> Seq<char> {
    match vm {
        VMVal::U8(u) => seq!['0', 'x'] + spec_hex_fixed(u as int, 2),
        VMVal::U16(u) => seq!['0', 'x'] + spec_hex_fixed(u as int, 4),
        VMVal::U32(u) => seq!['0', 'x'] + spec_hex_fixed(u as int, 8),
        VMVal::U64(u) => seq!['0', 'x'] + spec_hex_fixed(u as int, 16),
        VMVal::CString(b) => lossy_text_of(b@),
        VMVal::Pointer(p) => seq!['*', '0', 'x'] + spec_hex_min(p as nat),
    }
}

fn hex_prefix() -> (r: String)
    ensures
        r@ == seq!['0', 'x'],
{
    proof {
        reveal_strlit("0x");
        assert("0x"@ =~= seq!['0', 'x']);
    }
    "0x".to_owned()
}

impl Value {
    /// The value's stable text rendering.
    pub fn render(&self) -> (r: String)
        ensures
            r@ == spec_render(self.spec_vmval()),
    {
        let vm: &VMVal = &**self.value();
        match vm {
            VMVal::U8(u) => {
                let mut s = hex_prefix();
                s.append(hex_fixed(*u as u64, 2).as_str());
                s
            },
            VMVal::U16(u) => {
                let mut s = hex_prefix();
                s.append(hex_fixed(*u as u64, 4).as_str());
                s
            },
            VMVal::U32(u) => {
                let mut s = hex_prefix();
                s.append(hex_fixed(*u as u64, 8).as_str());
                s
            },
            VMVal::U64(u) => {
                let mut s = hex_prefix();
                s.append(hex_fixed(*u, 16).as_str());
                s
            },
            VMVal::CString(b) => lossy_text(b),
            VMVal::Pointer(p) => {
                proof {
                    reveal_strlit("*");
                    assert("*"@ =~= seq!['*']);
                }
                let mut s = "*".to_owned();
                s.append(hex_prefix().as_str());
                s.append(hex_min(*p).as_str());
                proof {
                    assert(s@ =~= seq!['*', '0', 'x'] + spec_hex_min(*p as nat));
                }
                s
            },
        }
    }
}

} // verus!
