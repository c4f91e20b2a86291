//! The `FourCC` value, its byte and integer views, and the validity rule.

use vstd::prelude::*;
use vstd::string::{is_ascii_spec_bytes, StringSliceAdditionalSpecFns};

verus! {

/// Why a code could not be built.
#[derive(Clone, Copy, Debug, PartialEq, Eq, Structural)]
pub enum FourCCError {
    /// The source holds fewer than four bytes.
    ShortInput,
}

/// The raw form of a four character code.
pub type TypeId = [u8; 4];

/// A four character code: four bytes, kept in the order they were given.
/// The bytes are the whole of the value; nothing else is stored.
#[derive(Clone, Copy, Debug, Hash)]
pub struct FourCC(pub TypeId);

impl View for FourCC {
    type V = Seq<u8>;

    /// The four bytes, first to last.
    open spec fn view(&self) -> Seq<u8> {
        self.0@
    }
}

/// The number that four bytes spell in big-endian order.
pub open spec fn be_value(b: Seq<u8>) -> int
    recommends
        b.len() == 4,
{
    b[0] * 0x100_0000 + b[1] * 0x1_0000 + b[2] * 0x100 + b[3]
}

/// The four bytes that spell `n` in big-endian order.
pub open spec fn be_bytes(n: u32) -> Seq<u8> {
    seq![
        (n / 0x100_0000) as u8,
        (n / 0x1_0000 % 0x100) as u8,
        (n / 0x100 % 0x100) as u8,
        (n % 0x100) as u8,
    ]
}

/// The code that holds the four bytes of `b`.
pub open spec fn code_with(b: Seq<u8>) -> FourCC
    recommends
        b.len() == 4,
{
    FourCC([b[0], b[1], b[2], b[3]])
}

/// The code whose bytes spell `n` in big-endian order.
pub open spec fn code_of(n: u32) -> FourCC {
    code_with(be_bytes(n))
}

/// The first four bytes of a string's UTF-8 encoding, where it has that many.
pub open spec fn leading_bytes(s: &str) -> Option<Seq<u8>> {
    if s.spec_bytes().len() >= 4 {
        Some(s.spec_bytes().subrange(0, 4))
    } else {
        None
    }
}

/// What a string gives as a code: the code of its first four bytes, or the
/// refusal of a string that has fewer.
pub open spec fn code_in(s: &str) -> Result<FourCC, FourCCError> {
    match leading_bytes(s) {
        Some(b) => Ok(code_with(b)),
        None => Err(FourCCError::ShortInput),
    }
}

/// Whether a byte is a visible ASCII character: neither a control character,
/// nor a space, nor above 0x7e.
pub open spec fn is_graphic(b: u8) -> bool {
    0x21 <= b <= 0x7e
}

impl FourCC {
    /// The code read as a number, first byte most significant.
    pub open spec fn value(self) -> int {
        be_value(self@)
    }

    /// Whether all four bytes are visible ASCII characters.
    pub open spec fn valid(self) -> bool {
        forall|i: int| 0 <= i < 4 ==> is_graphic(#[trigger] self@[i])
    }

    /// Tells whether the code can be read as text: each of its bytes is a
    /// visible ASCII character.
    pub fn is_valid(&self) -> (ok: bool)
        ensures
            ok == self.valid(),
    {
        let mut i: usize = 0;
        while i < 4
            invariant
                i <= 4,
                forall|j: int| 0 <= j < i ==> is_graphic(#[trigger] self@[j]),
            decreases 4 - i,
        {
            let b: u8 = self.0[i];
            if b < 0x21 || b > 0x7e {
                assert(!is_graphic(self@[i as int]));
                return false;
            }
            i += 1;
        }
        true
    }

    /// Builds a code from the first four bytes of a string's UTF-8 encoding.
    /// What follows the fourth byte is not looked at. A string that encodes
    /// to fewer than four bytes is refused.
    pub fn from_string(s: &str) -> (made: Result<FourCC, FourCCError>)
        ensures
            made == code_in(s),
            match made {
                Ok(code) => leading_bytes(s) == Some(code@),
                Err(e) => leading_bytes(s) is None && e == FourCCError::ShortInput,
            },
    {
        let bytes = s.as_bytes();
        if bytes.len() < 4 {
            return Err(FourCCError::ShortInput);
        }
        let code = FourCC([bytes[0], bytes[1], bytes[2], bytes[3]]);
        proof {
            assert(code@ =~= s.spec_bytes().subrange(0, 4));
            assert(code.0 =~= code_with(s.spec_bytes().subrange(0, 4)).0);
        }
        Ok(code)
    }

    /// Builds a code from its four bytes, unchanged.
    pub fn from_bytes(bytes: &TypeId) -> (code: FourCC)
        ensures
            code == FourCC(*bytes),
            code@ == bytes@,
    {
        FourCC(*bytes)
    }

    /// Hands back the four bytes, unchanged.
    pub fn to_bytes(self) -> (bytes: TypeId)
        ensures
            bytes == self.0,
            bytes@ == self@,
    {
        self.0
    }

    /// Builds a code from a number: its bytes in big-endian order.
    pub fn from_u32(num: u32) -> (code: FourCC)
        ensures
            code == code_of(num),
            code@ == be_bytes(num),
            code.value() == num,
    {
        let b0: u8 = (num >> 24) as u8;
        let b1: u8 = ((num >> 16) & 0xff) as u8;
        let b2: u8 = ((num >> 8) & 0xff) as u8;
        let b3: u8 = (num & 0xff) as u8;
        proof {
            assert(num >> 24 == num / 0x100_0000 && (num >> 24) < 0x100) by (bit_vector);
            assert((num >> 16) & 0xff == num / 0x1_0000 % 0x100) by (bit_vector);
            assert((num >> 8) & 0xff == num / 0x100 % 0x100) by (bit_vector);
            assert(num & 0xff == num % 0x100) by (bit_vector);
        }
        let code = FourCC([b0, b1, b2, b3]);
        proof {
            assert(code@ =~= be_bytes(num));
            assert(code.0 =~= code_of(num).0);
            lemma_value_of_bytes(num);
        }
        code
    }

    /// Reads the code as a number: its bytes taken in big-endian order.
    pub fn to_u32(self) -> (num: u32)
        ensures
            num == self.value(),
            be_bytes(num) == self@,
            code_of(num) == self,
    {
        let b0: u32 = self.0[0] as u32;
        let b1: u32 = self.0[1] as u32;
        let b2: u32 = self.0[2] as u32;
        let b3: u32 = self.0[3] as u32;
        proof {
            assert(b0 < 0x100 && b1 < 0x100 && b2 < 0x100 && b3 < 0x100 ==> (b0 << 24 | b1 << 16
                | b2 << 8 | b3) == b0 * 0x100_0000 + b1 * 0x1_0000 + b2 * 0x100 + b3)
                by (bit_vector);
        }
        let num: u32 = b0 << 24 | b1 << 16 | b2 << 8 | b3;
        proof {
            lemma_bytes_of_value(self@);
            assert(code_of(num).0 =~= self.0);
        }
        num
    }
}

impl Default for FourCC {
    /// The code of four zero bytes.
    fn default() -> (code: FourCC)
        ensures
            code@ == seq![0u8, 0u8, 0u8, 0u8],
    {
        let code = FourCC([0, 0, 0, 0]);
        assert(code@ =~= seq![0u8, 0u8, 0u8, 0u8]);
        code
    }
}

/// Two codes are the same exactly when their bytes are.
pub proof fn lemma_equal_by_bytes(a: FourCC, b: FourCC)
    ensures
        a == b <==> a@ == b@,
{
    if a@ == b@ {
        assert(a.0 =~= b.0);
    }
}

/// In a string of ASCII characters each character is one byte: such a
/// string gives the code of its first four characters, and none if it has
/// fewer than four.
pub proof fn lemma_code_in_ascii(s: &str)
    requires
        s.is_ascii(),
    ensures
        s@.len() >= 4 ==> code_in(s) is Ok && code_in(s)->Ok_0@ == Seq::new(
            4,
            |i: int| s@[i] as u8,
        ),
        s@.len() < 4 ==> code_in(s) == Err::<FourCC, FourCCError>(FourCCError::ShortInput),
{
    is_ascii_spec_bytes(s);
    if s@.len() >= 4 {
        let b = s.spec_bytes().subrange(0, 4);
        assert(b =~= Seq::new(4, |i: int| s@[i] as u8));
        lemma_code_with_bytes(b);
    }
}

/// Reading the big-endian bytes of a number gives the number back.
pub proof fn lemma_value_of_bytes(n: u32)
    ensures
        be_value(be_bytes(n)) == n,
{
    let b = be_bytes(n);
    assert(b[0] == n / 0x100_0000 && b[1] == n / 0x1_0000 % 0x100 && b[2] == n / 0x100 % 0x100
        && b[3] == n % 0x100);
    assert(n == (n / 0x100_0000) * 0x100_0000 + (n / 0x1_0000 % 0x100) * 0x1_0000 + (n / 0x100
        % 0x100) * 0x100 + n % 0x100) by (bit_vector);
}

/// Four bytes spell a number that fits in 32 bits, and that number's
/// big-endian bytes are the same four.
pub proof fn lemma_bytes_of_value(b: Seq<u8>)
    requires
        b.len() == 4,
    ensures
        0 <= be_value(b) <= u32::MAX,
        be_bytes(be_value(b) as u32) == b,
{
    let (b0, b1, b2, b3) = (b[0], b[1], b[2], b[3]);
    let n: u32 = (b0 * 0x100_0000 + b1 * 0x1_0000 + b2 * 0x100 + b3) as u32;
    assert(n == be_value(b));
    assert(n == b0 * 0x100_0000 + b1 * 0x1_0000 + b2 * 0x100 + b3 ==> n / 0x100_0000 == b0 && n
        / 0x1_0000 % 0x100 == b1 && n / 0x100 % 0x100 == b2 && n % 0x100 == b3) by (bit_vector);
    assert(be_bytes(n) =~= b);
}

/// The code made of four bytes holds those bytes.
pub proof fn lemma_code_with_bytes(b: Seq<u8>)
    requires
        b.len() == 4,
    ensures
        code_with(b)@ == b,
{
    assert(code_with(b)@ =~= b);
}

/// The code made from a number holds that number's big-endian bytes.
pub proof fn lemma_code_of_bytes(n: u32)
    ensures
        code_of(n)@ == be_bytes(n),
{
    lemma_code_with_bytes(be_bytes(n));
}

/// Bytes made into a code and taken out again are the bytes that went in.
pub proof fn lemma_bytes_round_trip(bytes: TypeId)
    ensures
        FourCC(bytes).0 == bytes,
        FourCC(bytes)@ == bytes@,
{
}

/// A number made into a code and read back is the number that went in.
pub proof fn lemma_u32_round_trip(n: u32)
    ensures
        code_of(n).value() == n,
{
    lemma_code_of_bytes(n);
    lemma_value_of_bytes(n);
}

/// A code read as a number and made from that number again is the same
/// code: the two views never disagree.
pub proof fn lemma_code_round_trip(code: FourCC)
    ensures
        0 <= code.value() <= u32::MAX,
        code_of(code.value() as u32) == code,
{
    lemma_bytes_of_value(code@);
    lemma_code_of_bytes(code.value() as u32);
    lemma_equal_by_bytes(code_of(code.value() as u32), code);
}

} // verus!
