//! Text of numbers and padded fields, as the listings of the memory layout print them:
//! hexadecimal with at least a given number of upper-case digits, decimal, and fields padded
//! with spaces.

use vstd::prelude::*;
use vstd::string::{StrSliceExecFns, StringExecFns};

verus! {

/// The upper-case hexadecimal digit for `d < 16`.
pub open spec fn upper_hex_char(d: nat) -> char {
    if d < 10 {
        ((d + 48) as u32) as char
    } else {
        ((d + 55) as u32) as char
    }
}

/// The hexadecimal digits of `v`, upper case, without leading zeros but at least `min` of them
/// (and at least one): what `{:0min X}` prints.
pub open spec fn hex_min(v: nat, min: nat) -> Seq<char>
    decreases v + min,
{
    if v < 16 && min <= 1 {
        seq![upper_hex_char(v)]
    } else {
        hex_min(v / 16, if min > 0 { (min - 1) as nat } else { 0 }).push(upper_hex_char(v % 16))
    }
}

/// `0x` and at least eight upper-case hexadecimal digits: what `{:#010X}` prints.
pub open spec fn hex_field(v: nat) -> Seq<char> {
    "0x"@ + hex_min(v, 8)
}

/// The decimal digit for `d < 10`.
pub open spec fn dec_char(d: nat) -> char {
    ((d + 48) as u32) as char
}

/// The decimal digits of `v`, without leading zeros: what `{}` prints.
pub open spec fn dec_digits(v: nat) -> Seq<char>
    decreases v,
{
    if v < 10 {
        seq![dec_char(v)]
    } else {
        dec_digits(v / 10).push(dec_char(v % 10))
    }
}

/// `n` spaces.
pub open spec fn spaces(n: nat) -> Seq<char> {
    Seq::new(n, |i: int| ' ')
}

/// `s` right-aligned in a field of `width` characters: what `{: >width}` prints.
pub open spec fn pad_left(s: Seq<char>, width: nat) -> Seq<char> {
    if s.len() < width {
        spaces((width - s.len()) as nat) + s
    } else {
        s
    }
}

/// `s` left-aligned in a field of `width` characters: what `{: <width}` prints.
pub open spec fn pad_right(s: Seq<char>, width: nat) -> Seq<char> {
    if s.len() < width {
        s + spaces((width - s.len()) as nat)
    } else {
        s
    }
}

/// The text of an upper-case hexadecimal digit, which for `d < 10` is the decimal digit.
fn upper_hex_digit_str(d: u64) -> (r: &'static str)
    requires
        d < 16,
    ensures
        r@ == seq![upper_hex_char(d as nat)],
{
    proof {
        reveal_strlit("0");
        reveal_strlit("1");
        reveal_strlit("2");
        reveal_strlit("3");
        reveal_strlit("4");
        reveal_strlit("5");
        reveal_strlit("6");
        reveal_strlit("7");
        reveal_strlit("8");
        reveal_strlit("9");
        reveal_strlit("A");
        reveal_strlit("B");
        reveal_strlit("C");
        reveal_strlit("D");
        reveal_strlit("E");
        reveal_strlit("F");
    }
    let r = match d {
        0 => "0",
        1 => "1",
        2 => "2",
        3 => "3",
        4 => "4",
        5 => "5",
        6 => "6",
        7 => "7",
        8 => "8",
        9 => "9",
        10 => "A",
        11 => "B",
        12 => "C",
        13 => "D",
        14 => "E",
        _ => "F",
    };
    proof {
        assert(r@ =~= seq![upper_hex_char(d as nat)]);
    }
    r
}

/// Append the hexadecimal digits of `v`, upper case, at least `min` of them.
pub fn push_hex_min(s: &mut String, v: u64, min: usize)
    ensures
        final(s)@ == old(s)@ + hex_min(v as nat, min as nat),
    decreases v + min,
{
    if v < 16 && min <= 1 {
        s.append(upper_hex_digit_str(v));
        proof {
            assert(old(s)@ + hex_min(v as nat, min as nat) =~= old(s)@ + seq![upper_hex_char(v as nat)]);
        }
    } else {
        let rest_min: usize = if min > 0 { min - 1 } else { 0 };
        push_hex_min(s, v / 16, rest_min);
        s.append(upper_hex_digit_str(v % 16));
        proof {
            assert(old(s)@ + hex_min(v as nat, min as nat) =~= old(s)@ + hex_min(
                (v / 16) as nat,
                rest_min as nat,
            ) + seq![upper_hex_char((v % 16) as nat)]);
        }
    }
}

/// Append `0x` and at least eight upper-case hexadecimal digits of `v`.
pub fn push_hex_field(s: &mut String, v: u64)
    ensures
        final(s)@ == old(s)@ + hex_field(v as nat),
{
    proof {
        reveal_strlit("0x");
    }
    s.append("0x");
    push_hex_min(s, v, 8);
    proof {
        assert(old(s)@ + hex_field(v as nat) =~= old(s)@ + "0x"@ + hex_min(v as nat, 8));
    }
}

/// Append the decimal digits of `v`.
pub fn push_dec(s: &mut String, v: u64)
    ensures
        final(s)@ == old(s)@ + dec_digits(v as nat),
    decreases v,
{
    if v < 10 {
        s.append(upper_hex_digit_str(v));
        proof {
            assert(old(s)@ + dec_digits(v as nat) =~= old(s)@ + seq![upper_hex_char(v as nat)]);
        }
    } else {
        push_dec(s, v / 10);
        s.append(upper_hex_digit_str(v % 10));
        proof {
            assert(old(s)@ + dec_digits(v as nat) =~= old(s)@ + dec_digits((v / 10) as nat) + seq![
                upper_hex_char((v % 10) as nat),
            ]);
        }
    }
}

/// Append `n` spaces.
pub fn push_spaces(s: &mut String, n: usize)
    ensures
        final(s)@ == old(s)@ + spaces(n as nat),
{
    let mut i: usize = 0;
    while i < n
        invariant
            0 <= i <= n,
            s@ == old(s)@ + spaces(i as nat),
        decreases n - i,
    {
        s.append(" ");
        proof {
            reveal_strlit(" ");
            assert(" "@ =~= seq![' ']);
            assert(spaces((i + 1) as nat) =~= spaces(i as nat).push(' '));
            assert(s@ =~= old(s)@ + spaces((i + 1) as nat));
        }
        i = i + 1;
    }
}

/// The number of decimal digits of small numbers.
proof fn lemma_dec_len(v: nat)
    ensures
        v < 10 ==> dec_digits(v).len() == 1,
        10 <= v < 100 ==> dec_digits(v).len() == 2,
        100 <= v < 1000 ==> dec_digits(v).len() == 3,
        1000 <= v ==> dec_digits(v).len() >= 4,
        dec_digits(v).len() >= 1,
    decreases v,
{
    if v >= 10 {
        lemma_dec_len(v / 10);
    }
}

/// Append the decimal digits of `v`, right-aligned in a field of `width` characters.
pub fn push_dec_right_aligned(s: &mut String, v: u64, width: usize)
    requires
        width <= 4,
    ensures
        final(s)@ == old(s)@ + pad_left(dec_digits(v as nat), width as nat),
{
    proof {
        lemma_dec_len(v as nat);
    }
    let len: usize = if v < 10 {
        1
    } else if v < 100 {
        2
    } else if v < 1000 {
        3
    } else {
        4
    };
    if len < width {
        push_spaces(s, width - len);
    }
    push_dec(s, v);
    proof {
        assert(old(s)@ + pad_left(dec_digits(v as nat), width as nat) =~= s@);
    }
}

/// Append `t`, left-aligned in a field of `width` characters.
pub fn push_str_left_aligned(s: &mut String, t: &str, width: usize)
    ensures
        final(s)@ == old(s)@ + pad_right(t@, width as nat),
{
    s.append(t);
    let len = t.unicode_len();
    if len < width {
        push_spaces(s, width - len);
    }
    proof {
        assert(old(s)@ + pad_right(t@, width as nat) =~= s@);
    }
}

} // verus!
