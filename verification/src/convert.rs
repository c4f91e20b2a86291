//! The standard conversion traits for codes: each is the named constructor or
//! accessor of `FourCC` under the operator's name.

use crate::code::{code_in, code_of, FourCC, FourCCError, TypeId};
use vstd::prelude::*;
use vstd::std_specs::convert::{FromSpecImpl, TryFromSpecImpl};

verus! {

/// A code from its four bytes, unchanged.
impl From<&TypeId> for FourCC {
    fn from(bytes: &TypeId) -> (code: FourCC) {
        FourCC::from_bytes(bytes)
    }
}

impl FromSpecImpl<&TypeId> for FourCC {
    open spec fn obeys_from_spec() -> bool {
        true
    }

    open spec fn from_spec(bytes: &TypeId) -> FourCC {
        FourCC(*bytes)
    }
}

/// A code from the first four bytes of a string; a shorter string is refused.
impl TryFrom<&str> for FourCC {
    type Error = FourCCError;

    fn try_from(s: &str) -> (made: Result<FourCC, FourCCError>) {
        FourCC::from_string(s)
    }
}

impl TryFromSpecImpl<&str> for FourCC {
    open spec fn obeys_try_from_spec() -> bool {
        true
    }

    open spec fn try_from_spec(s: &str) -> Result<FourCC, FourCCError> {
        code_in(s)
    }
}

/// A code from a number, most significant byte first.
impl From<u32> for FourCC {
    fn from(num: u32) -> (code: FourCC) {
        FourCC::from_u32(num)
    }
}

impl FromSpecImpl<u32> for FourCC {
    open spec fn obeys_from_spec() -> bool {
        true
    }

    open spec fn from_spec(num: u32) -> FourCC {
        code_of(num)
    }
}

/// The four bytes of a code.
impl From<FourCC> for TypeId {
    fn from(code: FourCC) -> (bytes: TypeId) {
        code.to_bytes()
    }
}

impl FromSpecImpl<FourCC> for TypeId {
    open spec fn obeys_from_spec() -> bool {
        true
    }

    open spec fn from_spec(code: FourCC) -> TypeId {
        code.0
    }
}

/// The number that a code spells, first byte most significant.
impl From<FourCC> for u32 {
    fn from(code: FourCC) -> (num: u32) {
        code.to_u32()
    }
}

impl FromSpecImpl<FourCC> for u32 {
    open spec fn obeys_from_spec() -> bool {
        true
    }

    open spec fn from_spec(code: FourCC) -> u32 {
        code.value() as u32
    }
}

} // verus!
