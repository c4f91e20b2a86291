//! Equality and ordering of codes, among themselves and against raw bytes,
//! numbers and strings. Every comparison goes by the four bytes, first byte
//! first; the other forms are turned into a code before they are compared.

use crate::code::{
    be_bytes, code_in, code_of, leading_bytes, lemma_bytes_of_value, lemma_code_of_bytes,
    lemma_code_with_bytes, lemma_equal_by_bytes, lemma_u32_round_trip, FourCC, FourCCError,
    TypeId,
};
use std::cmp::Ordering;
use vstd::prelude::*;
use vstd::std_specs::cmp::{PartialEqSpecImpl, PartialOrdSpecImpl};

verus! {

/// How two bytes stand to each other as unsigned numbers.
pub open spec fn byte_order(x: u8, y: u8) -> Ordering {
    if x < y {
        Ordering::Less
    } else if x > y {
        Ordering::Greater
    } else {
        Ordering::Equal
    }
}

/// How two four-byte sequences stand to each other: the first place where
/// they differ decides, and sequences that differ nowhere are equal.
pub open spec fn lex_order(a: Seq<u8>, b: Seq<u8>) -> Ordering
    recommends
        a.len() == 4,
        b.len() == 4,
{
    if a[0] != b[0] {
        byte_order(a[0], b[0])
    } else if a[1] != b[1] {
        byte_order(a[1], b[1])
    } else if a[2] != b[2] {
        byte_order(a[2], b[2])
    } else {
        byte_order(a[3], b[3])
    }
}

/// The same relation seen from the other side.
pub open spec fn reversed(ord: Ordering) -> Ordering {
    match ord {
        Ordering::Less => Ordering::Greater,
        Ordering::Equal => Ordering::Equal,
        Ordering::Greater => Ordering::Less,
    }
}

/// How two numbers stand to each other.
pub open spec fn int_order(x: int, y: int) -> Ordering {
    if x < y {
        Ordering::Less
    } else if x > y {
        Ordering::Greater
    } else {
        Ordering::Equal
    }
}

/// Tells whether two arrays hold the same four bytes.
fn same_bytes(a: &TypeId, b: &TypeId) -> (same: bool)
    ensures
        same == (a@ == b@),
{
    let same = a[0] == b[0] && a[1] == b[1] && a[2] == b[2] && a[3] == b[3];
    proof {
        if same {
            assert(a@ =~= b@);
        }
    }
    same
}

/// Finds the first place where two arrays differ and orders them by it.
fn order_bytes(a: &TypeId, b: &TypeId) -> (ord: Ordering)
    ensures
        ord == lex_order(a@, b@),
{
    let mut i: usize = 0;
    while i < 4
        invariant
            i <= 4,
            forall|j: int| 0 <= j < i ==> a@[j] == b@[j],
        decreases 4 - i,
    {
        if a[i] < b[i] {
            return Ordering::Less;
        }
        if a[i] > b[i] {
            return Ordering::Greater;
        }
        i += 1;
    }
    Ordering::Equal
}

impl FourCC {
    /// How this code stands to `other`: the order of their bytes.
    pub open spec fn order(self, other: FourCC) -> Ordering {
        lex_order(self@, other@)
    }

    /// Whether this code and `other` hold the same bytes.
    pub fn equals(&self, other: &FourCC) -> (same: bool)
        ensures
            same == (*self == *other),
            same == (self@ == other@),
    {
        proof {
            lemma_equal_by_bytes(*self, *other);
        }
        same_bytes(&self.0, &other.0)
    }

    /// Whether this code is the one made of the given bytes.
    pub fn equals_bytes(&self, bytes: &TypeId) -> (same: bool)
        ensures
            same == (*self == FourCC(*bytes)),
            same == (self@ == bytes@),
    {
        proof {
            lemma_equal_by_bytes(*self, FourCC(*bytes));
        }
        same_bytes(&self.0, bytes)
    }

    /// Whether this code is the one made of the number `num`, which is to
    /// say whether it spells that number.
    pub fn equals_u32(&self, num: u32) -> (same: bool)
        ensures
            same == (*self == code_of(num)),
            same == (self.value() == num),
    {
        let other = FourCC::from_u32(num);
        proof {
            lemma_equal_by_bytes(*self, other);
            lemma_bytes_of_value(self@);
        }
        same_bytes(&self.0, &other.0)
    }

    /// Whether this code is the one made of the string `s`. A string of
    /// fewer than four bytes makes no code, and is refused.
    pub fn equals_str(&self, s: &str) -> (same: Result<bool, FourCCError>)
        ensures
            same == match code_in(s) {
                Ok(other) => Ok::<bool, FourCCError>(*self == other),
                Err(e) => Err(e),
            },
    {
        match FourCC::from_string(s) {
            Ok(other) => Ok(self.equals(&other)),
            Err(e) => Err(e),
        }
    }

    /// Orders this code against `other`, byte by byte from the first.
    pub fn compare(&self, other: &FourCC) -> (ord: Ordering)
        ensures
            ord == self.order(*other),
    {
        order_bytes(&self.0, &other.0)
    }

    /// Orders this code against the one made of the given bytes.
    pub fn compare_bytes(&self, bytes: &TypeId) -> (ord: Ordering)
        ensures
            ord == self.order(FourCC(*bytes)),
    {
        order_bytes(&self.0, bytes)
    }

    /// Orders this code against the one made of the number `num`. The two
    /// stand as the number that this code spells stands to `num`.
    pub fn compare_u32(&self, num: u32) -> (ord: Ordering)
        ensures
            ord == self.order(code_of(num)),
            ord == Ordering::Less <==> self.value() < num,
            ord == Ordering::Equal <==> self.value() == num,
            ord == Ordering::Greater <==> self.value() > num,
    {
        let other = FourCC::from_u32(num);
        proof {
            lemma_order_is_numeric(*self, other);
        }
        order_bytes(&self.0, &other.0)
    }

    /// Orders this code against the one made of the string `s`. A string of
    /// fewer than four bytes makes no code, and is refused.
    pub fn compare_str(&self, s: &str) -> (ord: Result<Ordering, FourCCError>)
        ensures
            ord == match code_in(s) {
                Ok(other) => Ok::<Ordering, FourCCError>(self.order(other)),
                Err(e) => Err(e),
            },
    {
        match FourCC::from_string(s) {
            Ok(other) => Ok(self.compare(&other)),
            Err(e) => Err(e),
        }
    }
}

/// `==` between codes: the same bytes.
impl PartialEq for FourCC {
    fn eq(&self, other: &FourCC) -> (same: bool) {
        self.equals(other)
    }
}

impl PartialEqSpecImpl for FourCC {
    open spec fn obeys_eq_spec() -> bool {
        true
    }

    open spec fn eq_spec(&self, other: &FourCC) -> bool {
        *self == *other
    }
}

impl Eq for FourCC {

}

/// `<` between codes: the order of their bytes. Any two codes are ordered.
impl PartialOrd for FourCC {
    fn partial_cmp(&self, other: &FourCC) -> (ord: Option<Ordering>) {
        Some(self.compare(other))
    }
}

impl PartialOrdSpecImpl for FourCC {
    open spec fn obeys_partial_cmp_spec() -> bool {
        true
    }

    open spec fn partial_cmp_spec(&self, other: &FourCC) -> Option<Ordering> {
        Some(self.order(*other))
    }
}

/// `==` against raw bytes.
impl PartialEq<&TypeId> for FourCC {
    fn eq(&self, other: &&TypeId) -> (same: bool) {
        self.equals_bytes(*other)
    }
}

impl PartialEqSpecImpl<&TypeId> for FourCC {
    open spec fn obeys_eq_spec() -> bool {
        true
    }

    open spec fn eq_spec(&self, other: &&TypeId) -> bool {
        *self == FourCC(**other)
    }
}

/// `<` against raw bytes.
impl PartialOrd<&TypeId> for FourCC {
    fn partial_cmp(&self, other: &&TypeId) -> (ord: Option<Ordering>) {
        Some(self.compare_bytes(*other))
    }
}

impl PartialOrdSpecImpl<&TypeId> for FourCC {
    open spec fn obeys_partial_cmp_spec() -> bool {
        true
    }

    open spec fn partial_cmp_spec(&self, other: &&TypeId) -> Option<Ordering> {
        Some(self.order(FourCC(**other)))
    }
}

/// `==` against a number, taken as the code made of it.
impl PartialEq<u32> for FourCC {
    fn eq(&self, other: &u32) -> (same: bool) {
        self.equals_u32(*other)
    }
}

impl PartialEqSpecImpl<u32> for FourCC {
    open spec fn obeys_eq_spec() -> bool {
        true
    }

    open spec fn eq_spec(&self, other: &u32) -> bool {
        *self == code_of(*other)
    }
}

/// `<` against a number, taken as the code made of it.
impl PartialOrd<u32> for FourCC {
    fn partial_cmp(&self, other: &u32) -> (ord: Option<Ordering>) {
        Some(self.compare_u32(*other))
    }
}

impl PartialOrdSpecImpl<u32> for FourCC {
    open spec fn obeys_partial_cmp_spec() -> bool {
        true
    }

    open spec fn partial_cmp_spec(&self, other: &u32) -> Option<Ordering> {
        Some(self.order(code_of(*other)))
    }
}

/// Two codes are equal in the order exactly when they are the same code.
pub proof fn lemma_order_equal(a: FourCC, b: FourCC)
    ensures
        a.order(b) == Ordering::Equal <==> a == b,
{
    lemma_equal_by_bytes(a, b);
    if a.order(b) == Ordering::Equal {
        assert(a@ =~= b@);
    }
}

/// Swapping the two sides reverses the order.
pub proof fn lemma_order_reversed(a: FourCC, b: FourCC)
    ensures
        b.order(a) == reversed(a.order(b)),
{
}

/// The order is transitive: what is below something that is not above a
/// third is below the third, and likewise with the strictness on the other
/// side or on neither.
pub proof fn lemma_order_transitive(a: FourCC, b: FourCC, c: FourCC)
    ensures
        a.order(b) == Ordering::Less && b.order(c) != Ordering::Greater ==> a.order(c)
            == Ordering::Less,
        a.order(b) != Ordering::Greater && b.order(c) == Ordering::Less ==> a.order(c)
            == Ordering::Less,
        a.order(b) != Ordering::Greater && b.order(c) != Ordering::Greater ==> a.order(c)
            != Ordering::Greater,
{
}

/// The order of two codes is the order of the numbers that they spell.
pub proof fn lemma_order_is_numeric(a: FourCC, b: FourCC)
    ensures
        a.order(b) == int_order(a.value(), b.value()),
{
}

/// A code stands to a number, to that number's big-endian bytes and to the
/// code made of the number in one and the same way, and to a string as it
/// stands to the code made of the string.
pub proof fn lemma_order_same_in_every_form(a: FourCC, n: u32, s: &str)
    ensures
        code_of(n)@ == be_bytes(n),
        code_of(n).value() == n,
        a.order(code_of(n)) == lex_order(a@, be_bytes(n)),
        a.order(code_of(n)) == int_order(a.value(), code_of(n).value()),
        a == code_of(n) <==> a.order(code_of(n)) == Ordering::Equal,
        match code_in(s) {
            Ok(c) => leading_bytes(s) == Some(c@) && a.order(c) == lex_order(
                a@,
                leading_bytes(s)->0,
            ),
            Err(_) => leading_bytes(s) is None,
        },
{
    lemma_code_of_bytes(n);
    lemma_u32_round_trip(n);
    lemma_order_is_numeric(a, code_of(n));
    lemma_order_equal(a, code_of(n));
    if leading_bytes(s) is Some {
        lemma_code_with_bytes(leading_bytes(s)->0);
    }
}

/// The first difference decides: a code is below another exactly when at
/// some place it has the smaller byte and at all earlier places the two agree.
pub proof fn lemma_order_first_difference(a: FourCC, b: FourCC)
    ensures
        a.order(b) == Ordering::Less <==> exists|i: int|
            0 <= i < 4 && #[trigger] a@[i] < b@[i] && forall|j: int|
                0 <= j < i ==> a@[j] == b@[j],
{
    let (x, y) = (a@, b@);
    if a.order(b) == Ordering::Less {
        let i: int = if x[0] != y[0] {
            0
        } else if x[1] != y[1] {
            1
        } else if x[2] != y[2] {
            2
        } else {
            3
        };
        assert(0 <= i < 4 && x[i] < y[i] && forall|j: int| 0 <= j < i ==> x[j] == y[j]);
    }
    if exists|i: int|
        0 <= i < 4 && #[trigger] x[i] < y[i] && forall|j: int| 0 <= j < i ==> x[j] == y[j] {
        let i: int = choose|i: int|
            0 <= i < 4 && #[trigger] x[i] < y[i] && forall|j: int| 0 <= j < i ==> x[j] == y[j];
        if i > 0 {
            assert(x[0] == y[0]);
        }
        if i > 1 {
            assert(x[1] == y[1]);
        }
        if i > 2 {
            assert(x[2] == y[2]);
        }
    }
}

} // verus!
