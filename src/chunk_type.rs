use crate::types::{error_from, Error, ErrorKind, Result};
use crate::text::{ascii_text, lemma_ascii_utf8, string_from_utf8};
use vstd::prelude::*;
use vstd::slice::slice_to_vec;
use vstd::string::StringSliceAdditionalSpecFns;

verus! {

/// The bit (0x20) of each type-code byte that carries a flag; for an ASCII
/// letter it is set exactly in lower case.
pub const FLAG_BIT: u8 = 0x20;

/// Whether `b` is an ASCII letter, `A-Z` or `a-z`.
pub open spec fn is_type_letter(b: u8) -> bool {
    (0x41 <= b <= 0x5a) || (0x61 <= b <= 0x7a)
}

/// Whether `b` is a well-formed type code: four ASCII letters.
pub open spec fn is_type_code(b: Seq<u8>) -> bool {
    &&& b.len() == 4
    &&& forall|i: int| 0 <= i < 4 ==> is_type_letter(#[trigger] b[i])
}

/// Whether `b` has its flag bit clear.
pub open spec fn flag_bit_clear(b: u8) -> bool {
    b & 0x20 == 0
}

/// The ancillary bit of byte 0 is clear.
pub open spec fn spec_is_critical(t: Seq<u8>) -> bool {
    flag_bit_clear(t[0])
}

/// The private bit of byte 1 is clear.
pub open spec fn spec_is_public(t: Seq<u8>) -> bool {
    flag_bit_clear(t[1])
}

/// The reserved bit of byte 2 is clear.
pub open spec fn spec_is_reserved_bit_valid(t: Seq<u8>) -> bool {
    flag_bit_clear(t[2])
}

/// The safe-to-copy bit of byte 3 is set.
pub open spec fn spec_is_safe_to_copy(t: Seq<u8>) -> bool {
    !flag_bit_clear(t[3])
}

/// A chunk type code: four ASCII letters, whose case carries four flags.
#[derive(Debug, Clone, Copy, PartialEq, Eq, Structural)]
pub struct ChunkType {
    ancillary: u8,
    private: u8,
    reserved: u8,
    safe_to_copy: u8,
}

impl View for ChunkType {
    type V = Seq<u8>;

    /// The four bytes of the code, in order.
    closed spec fn view(&self) -> Seq<u8> {
        seq![self.ancillary, self.private, self.reserved, self.safe_to_copy]
    }
}

/// Whether `i` is the first position of `b` that holds no ASCII letter.
pub open spec fn first_non_letter(b: Seq<u8>, i: int) -> bool {
    &&& 0 <= i < b.len()
    &&& !is_type_letter(b[i])
    &&& forall|j: int| 0 <= j < i ==> is_type_letter(#[trigger] b[j])
}

/// Each flag depends on its own byte alone: two type codes that agree on
/// that byte agree on the flag, whatever their other bytes hold.
pub proof fn lemma_flag_independence(a: Seq<u8>, b: Seq<u8>)
    requires
        is_type_code(a),
        is_type_code(b),
    ensures
        a[0] == b[0] ==> spec_is_critical(a) == spec_is_critical(b),
        a[1] == b[1] ==> spec_is_public(a) == spec_is_public(b),
        a[2] == b[2] ==> spec_is_reserved_bit_valid(a) == spec_is_reserved_bit_valid(b),
        a[3] == b[3] ==> spec_is_safe_to_copy(a) == spec_is_safe_to_copy(b),
{
}

/// The position of the first byte of `b` that is no ASCII letter.
pub open spec fn first_bad_byte(b: Seq<u8>) -> int {
    choose|i: int| first_non_letter(b, i)
}

/// The error for four bytes that are not all ASCII letters.
pub open spec fn type_code_error(b: Seq<u8>) -> ErrorKind {
    ErrorKind::TypeByteOutOfRange(first_bad_byte(b) as usize)
}

/// At most one position is the first that holds no letter.
pub proof fn lemma_first_non_letter_unique(b: Seq<u8>, i: int)
    requires
        first_non_letter(b, i),
    ensures
        first_bad_byte(b) == i,
{
    let k = first_bad_byte(b);
    assert(first_non_letter(b, k));
    if k < i {
        assert(is_type_letter(b[k]));
    } else if i < k {
        assert(is_type_letter(b[i]));
    }
}

impl ChunkType {
    /// Every type code holds four ASCII letters.
    #[verifier::type_invariant]
    pub open spec fn inv(self) -> bool {
        is_type_code(self@)
    }

    /// Returns the raw bytes of the code.
    pub fn bytes(&self) -> (r: [u8; 4])
        ensures
            r@ == self@,
            is_type_code(r@),
    {
        proof {
            use_type_invariant(self);
        }
        [self.ancillary, self.private, self.reserved, self.safe_to_copy]
    }

    /// Whether the code is valid: its reserved bit is clear.
    pub fn is_valid(&self) -> (r: bool)
        ensures
            r == spec_is_reserved_bit_valid(self@),
    {
        self.is_reserved_bit_valid()
    }

    /// Whether the chunk is critical (ancillary bit of byte 0 clear).
    pub fn is_critical(&self) -> (r: bool)
        ensures
            r == spec_is_critical(self@),
    {
        self.ancillary & FLAG_BIT == 0
    }

    /// Whether the chunk is public (private bit of byte 1 clear).
    pub fn is_public(&self) -> (r: bool)
        ensures
            r == spec_is_public(self@),
    {
        self.private & FLAG_BIT == 0
    }

    /// Whether the reserved bit of byte 2 is clear, as it must be.
    pub fn is_reserved_bit_valid(&self) -> (r: bool)
        ensures
            r == spec_is_reserved_bit_valid(self@),
    {
        self.reserved & FLAG_BIT == 0
    }

    /// Whether the chunk is safe to copy (bit of byte 3 set).
    pub fn is_safe_to_copy(&self) -> (r: bool)
        ensures
            r == spec_is_safe_to_copy(self@),
    {
        self.safe_to_copy & FLAG_BIT != 0
    }
    /// Builds a type code from four bytes, each of which must be an ASCII
    /// letter; the first one that is not is named in the error.
    pub fn try_from(value: [u8; 4]) -> (r: Result<ChunkType>)
        ensures
            r is Ok <==> is_type_code(value@),
            r matches Ok(t) ==> t@ == value@,
            r matches Err(e) ==> e.kind == type_code_error(value@),
    {
        let mut i: usize = 0;
        while i < 4
            invariant
                0 <= i <= 4,
                forall|j: int| 0 <= j < i ==> is_type_letter(#[trigger] value@[j]),
            decreases 4 - i,
        {
            let b = value[i];
            if !((0x41 <= b && b <= 0x5a) || (0x61 <= b && b <= 0x7a)) {
                let e = error_from(ErrorKind::TypeByteOutOfRange(i), "chunk type byte is out of range");
                proof {
                    lemma_first_non_letter_unique(value@, i as int);
                }
                return Err(e);
            }
            i = i + 1;
        }
        let t = ChunkType {
            ancillary: value[0],
            private: value[1],
            reserved: value[2],
            safe_to_copy: value[3],
        };
        assert(t@ =~= value@);
        Ok(t)
    }

    /// Builds a type code from a string of exactly four bytes, each an ASCII
    /// letter.
    pub fn from_str(value: &str) -> (r: Result<ChunkType>)
        ensures
            r is Ok <==> is_type_code(value.spec_bytes()),
            r matches Ok(t) ==> t@ == value.spec_bytes(),
            r matches Err(e) ==> e.kind == (if value.spec_bytes().len() != 4 {
                ErrorKind::TypeLength
            } else {
                type_code_error(value.spec_bytes())
            }),
    {
        if value.len() != 4 {
            Err(error_from(ErrorKind::TypeLength, "type code must be exactly 4 bytes long"))
        } else {
            let b = value.as_bytes();
            let arr: [u8; 4] = [b[0], b[1], b[2], b[3]];
            assert(arr@ =~= value.spec_bytes());
            ChunkType::try_from(arr)
        }
    }
    /// The code as text: its four letters.
    pub fn to_string(&self) -> (r: String)
        ensures
            r@ == ascii_text(self@),
    {
        let b = self.bytes();
        let v: Vec<u8> = slice_to_vec(b.as_slice());
        proof {
            assert forall|i: int| 0 <= i < v@.len() implies #[trigger] v@[i] < 0x80 by {
                assert(is_type_letter(v@[i]));
            }
            lemma_ascii_utf8(v@);
        }
        match string_from_utf8(v) {
            Some(s) => s,
            None => String::new(),
        }
    }
}

impl core::convert::TryFrom<[u8; 4]> for ChunkType {
    type Error = Error;

    fn try_from(value: [u8; 4]) -> Result<ChunkType> {
        ChunkType::try_from(value)
    }
}

impl vstd::std_specs::convert::TryFromSpecImpl<[u8; 4]> for ChunkType {
    /// Nothing is claimed of the trait call; the inherent `try_from` carries
    /// the contract.
    open spec fn obeys_try_from_spec() -> bool {
        false
    }

    open spec fn try_from_spec(value: [u8; 4]) -> Result<ChunkType> {
        arbitrary()
    }
}

impl core::str::FromStr for ChunkType {
    type Err = Error;

    fn from_str(value: &str) -> Result<ChunkType> {
        ChunkType::from_str(value)
    }
}

} // verus!
