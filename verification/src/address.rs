//! Typed physical and virtual addresses.

use vstd::prelude::*;
use core::marker::PhantomData;
use vstd::string::StringExecFns;
use crate::common::{align_down, is_power_of_two, spec_align_down};

verus! {

/// Metadata trait for marking the type of an address.
pub trait AddressType: Copy + Clone {}

/// Zero-sized type to mark a physical address.
#[derive(Copy, Clone, PartialOrd, PartialEq)]
pub struct Physical;

/// Zero-sized type to mark a virtual address.
#[derive(Copy, Clone, PartialOrd, PartialEq)]
pub struct Virtual;

impl AddressType for Physical {}

impl AddressType for Virtual {}

/// Generic address type.
#[derive(Copy)]
pub struct Address<ATYPE: AddressType> {
    value: usize,
    _address_type: PhantomData<ATYPE>,
}

impl<ATYPE: AddressType> Clone for Address<ATYPE> {
    fn clone(&self) -> (r: Self)
        ensures
            r == *self,
    {
        *self
    }
}

impl<ATYPE: AddressType> View for Address<ATYPE> {
    type V = usize;

    /// The numeric value of the address.
    closed spec fn view(&self) -> usize {
        self.value
    }
}

impl<ATYPE: AddressType> Address<ATYPE> {
    /// The address with the given numeric value.
    pub closed spec fn from_value(value: usize) -> Self {
        Address { value, _address_type: PhantomData }
    }

    /// Two addresses with the same numeric value are the same address.
    pub proof fn lemma_view_injective(a: Self, b: Self)
        ensures
            a@ == b@ ==> a == b,
            Self::from_value(a@) == a,
            Self::from_value(a@)@ == a@,
    {
    }

    /// Create an instance.
    pub fn new(value: usize) -> (r: Self)
        ensures
            r@ == value,
    {
        Self { value, _address_type: PhantomData }
    }

    /// Align down.
    pub fn align_down(self, alignment: usize) -> (r: Self)
        requires
            is_power_of_two(alignment),
        ensures
            r@ == spec_align_down(self@ as int, alignment as int),
    {
        let aligned = align_down(self.value, alignment);
        Self { value: aligned, _address_type: PhantomData }
    }

    /// Converts `Address` into an usize.
    pub fn into_usize(self) -> (r: usize)
        ensures
            r == self@,
    {
        self.value
    }

    /// Add the numeric value of another address to this one.
    pub fn add_assign(&mut self, other: Self)
        requires
            old(self)@ + other@ <= usize::MAX,
        ensures
            final(self)@ == old(self)@ + other@,
    {
        *self = Self { value: self.value + other.into_usize(), _address_type: PhantomData };
    }

    /// Subtract the numeric value of another address from this one.
    pub fn sub_assign(&mut self, other: Self)
        requires
            old(self)@ >= other@,
        ensures
            final(self)@ == old(self)@ - other@,
    {
        *self = Self { value: self.value - other.into_usize(), _address_type: PhantomData };
    }
}

impl<ATYPE: AddressType> core::ops::Add<usize> for Address<ATYPE> {
    type Output = Self;

    fn add(self, other: usize) -> (r: Self) {
        Self { value: self.value + other, _address_type: PhantomData }
    }
}

impl<ATYPE: AddressType> vstd::std_specs::ops::AddSpecImpl<usize> for Address<ATYPE> {
    open spec fn obeys_add_spec() -> bool {
        true
    }

    open spec fn add_req(self, rhs: usize) -> bool {
        self@ + rhs <= usize::MAX
    }

    open spec fn add_spec(self, rhs: usize) -> Self {
        Self::from_value((self@ + rhs) as usize)
    }
}

impl<ATYPE: AddressType> core::ops::Sub<usize> for Address<ATYPE> {
    type Output = Self;

    fn sub(self, other: usize) -> (r: Self) {
        Self { value: self.value - other, _address_type: PhantomData }
    }
}

impl<ATYPE: AddressType> vstd::std_specs::ops::SubSpecImpl<usize> for Address<ATYPE> {
    open spec fn obeys_sub_spec() -> bool {
        true
    }

    open spec fn sub_req(self, rhs: usize) -> bool {
        self@ >= rhs
    }

    open spec fn sub_spec(self, rhs: usize) -> Self {
        Self::from_value((self@ - rhs) as usize)
    }
}

/// The address built from a value has that value.
pub broadcast proof fn lemma_from_value<ATYPE: AddressType>(value: usize)
    ensures
        #[trigger] Address::<ATYPE>::from_value(value)@ == value,
{
}

impl<ATYPE: AddressType> PartialEq for Address<ATYPE> {
    fn eq(&self, other: &Self) -> (r: bool) {
        self.value == other.value
    }
}

impl<ATYPE: AddressType> vstd::std_specs::cmp::PartialEqSpecImpl for Address<ATYPE> {
    open spec fn obeys_eq_spec() -> bool {
        true
    }

    open spec fn eq_spec(&self, other: &Self) -> bool {
        self@ == other@
    }
}

/// The lower-case hexadecimal digit for `d < 16`.
pub open spec fn hex_char(d: nat) -> char {
    if d < 10 {
        ((d + 48) as u32) as char
    } else {
        ((d + 87) as u32) as char
    }
}

/// The last `n` hexadecimal digits of `v`, most significant first, padded with zeros.
pub open spec fn hex_digits(v: nat, n: nat) -> Seq<char>
    decreases n,
{
    if n == 0 {
        Seq::empty()
    } else {
        hex_digits(v / 16, (n - 1) as nat).push(hex_char(v % 16))
    }
}

/// The text of a hexadecimal digit.
fn hex_digit_str(d: u64) -> (r: &'static str)
    requires
        d < 16,
    ensures
        r@ == seq![hex_char(d as nat)],
{
    proof {
        reveal_strlit("0");
        reveal_strlit("1");
        reveal_strlit("2");
        reveal_strlit("3");
        reveal_strlit("4");
        reveal_strlit("5");
        reveal_strlit("6");
        reveal_strlit("7");
        reveal_strlit("8");
        reveal_strlit("9");
        reveal_strlit("a");
        reveal_strlit("b");
        reveal_strlit("c");
        reveal_strlit("d");
        reveal_strlit("e");
        reveal_strlit("f");
    }
    let r = match d {
        0 => "0",
        1 => "1",
        2 => "2",
        3 => "3",
        4 => "4",
        5 => "5",
        6 => "6",
        7 => "7",
        8 => "8",
        9 => "9",
        10 => "a",
        11 => "b",
        12 => "c",
        13 => "d",
        14 => "e",
        _ => "f",
    };
    proof {
        assert(r@ =~= seq![hex_char(d as nat)]);
    }
    r
}

/// Append the last `n` hexadecimal digits of `v` to `s`.
fn push_hex(s: &mut String, v: u64, n: usize)
    ensures
        final(s)@ == old(s)@ + hex_digits(v as nat, n as nat),
    decreases n,
{
    if n == 0 {
        proof { assert(old(s)@ + hex_digits(v as nat, 0) =~= old(s)@); }
        return;
    }
    push_hex(s, v / 16, n - 1);
    s.append(hex_digit_str(v % 16));
    proof {
        assert(hex_digits(v as nat, n as nat) == hex_digits((v / 16) as nat, (n - 1) as nat).push(
            hex_char((v % 16) as nat),
        ));
        assert(old(s)@ + hex_digits(v as nat, n as nat) =~= old(s)@ + hex_digits(
            (v / 16) as nat,
            (n - 1) as nat,
        ) + seq![hex_char((v % 16) as nat)]);
    }
}

/// The text of a physical address: `0x`, then bits [39:32], [31:16] and [15:0] in hexadecimal,
/// separated by underscores.
pub open spec fn physical_text(v: nat) -> Seq<char> {
    "0x"@ + hex_digits((v / 0x1_0000_0000) % 0x100, 2) + "_"@ + hex_digits((v / 0x1_0000) % 0x1_0000, 4)
        + "_"@ + hex_digits(v % 0x1_0000, 4)
}

/// The text of a virtual address: `0x`, then bits [63:48], [47:32], [31:16] and [15:0] in
/// hexadecimal, separated by underscores.
pub open spec fn virtual_text(v: nat) -> Seq<char> {
    "0x"@ + hex_digits((v / 0x1_0000_0000_0000) % 0x1_0000, 4) + "_"@ + hex_digits(
        (v / 0x1_0000_0000) % 0x1_0000,
        4,
    ) + "_"@ + hex_digits((v / 0x1_0000) % 0x1_0000, 4) + "_"@ + hex_digits(v % 0x1_0000, 4)
}

impl Address<Physical> {
    /// Human-readable form; physical addresses are not expected to exceed 40 bits.
    pub fn to_display_string(&self) -> (r: String)
        ensures
            r@ == physical_text(self@ as nat),
    {
        let v = self.value as u64;
        let q3: u64 = (v >> 32u64) & 0xff;
        let q2: u64 = (v >> 16u64) & 0xffff;
        let q1: u64 = v & 0xffff;
        proof {
            assert(q3 == (v / 0x1_0000_0000) % 0x100) by (bit_vector)
                requires
                    q3 == (v >> 32u64) & 0xff,
            ;
            assert(q2 == (v / 0x1_0000) % 0x1_0000) by (bit_vector)
                requires
                    q2 == (v >> 16u64) & 0xffff,
            ;
            assert(q1 == v % 0x1_0000) by (bit_vector)
                requires
                    q1 == v & 0xffff,
            ;
        }
        let mut s = String::from_str("0x");
        push_hex(&mut s, q3, 2);
        s.append("_");
        push_hex(&mut s, q2, 4);
        s.append("_");
        push_hex(&mut s, q1, 4);
        s
    }
}

impl Address<Virtual> {
    /// Human-readable form.
    pub fn to_display_string(&self) -> (r: String)
        ensures
            r@ == virtual_text(self@ as nat),
    {
        let v = self.value as u64;
        let q4: u64 = (v >> 48u64) & 0xffff;
        let q3: u64 = (v >> 32u64) & 0xffff;
        let q2: u64 = (v >> 16u64) & 0xffff;
        let q1: u64 = v & 0xffff;
        proof {
            assert(q4 == (v / 0x1_0000_0000_0000) % 0x1_0000) by (bit_vector)
                requires
                    q4 == (v >> 48u64) & 0xffff,
            ;
            assert(q3 == (v / 0x1_0000_0000) % 0x1_0000) by (bit_vector)
                requires
                    q3 == (v >> 32u64) & 0xffff,
            ;
            assert(q2 == (v / 0x1_0000) % 0x1_0000) by (bit_vector)
                requires
                    q2 == (v >> 16u64) & 0xffff,
            ;
            assert(q1 == v % 0x1_0000) by (bit_vector)
                requires
                    q1 == v & 0xffff,
            ;
        }
        let mut s = String::from_str("0x");
        push_hex(&mut s, q4, 4);
        s.append("_");
        push_hex(&mut s, q3, 4);
        s.append("_");
        push_hex(&mut s, q2, 4);
        s.append("_");
        push_hex(&mut s, q1, 4);
        s
    }
}

} // verus!
