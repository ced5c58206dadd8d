//! Parsing of a peer identity: a hex string that must decode to exactly
//! 32 bytes. Decode and length failures are argument-level errors, raised
//! before any connection is attempted.

use vstd::prelude::*;

verus! {

/// Why a peer identity string was rejected.
#[derive(Clone, Copy, Debug, PartialEq, Eq)]
pub enum IdentityError {
    /// The hex string has an odd number of digits.
    OddLength,
    /// The byte at the given index (second field) is not a hex digit.
    InvalidDigit(u8, usize),
    /// The string decoded cleanly, but to this many bytes instead of 32.
    WrongLength(usize),
}

/// A decoded peer identity: exactly 32 bytes.
#[derive(Clone, Debug, PartialEq, Eq)]
pub struct PeerIdentity {
    pub bytes: Vec<u8>,
}

impl PeerIdentity {
    /// A peer identity is well formed when it holds exactly 32 bytes.
    pub open spec fn wf(&self) -> bool {
        self.bytes@.len() == 32
    }
}

/// `b` is the ASCII code of a hex digit (either case).
pub open spec fn is_hex_digit(b: u8) -> bool {
    ||| 48 <= b <= 57
    ||| 97 <= b <= 102
    ||| 65 <= b <= 70
}

/// Numeric value of a hex digit.
pub open spec fn hex_val(b: u8) -> int {
    if 48 <= b <= 57 {
        b - 48
    } else if 97 <= b <= 102 {
        b - 87
    } else {
        b - 55
    }
}

/// The byte written as the two hex digits `hi` then `lo`.
pub open spec fn hex_byte(hi: u8, lo: u8) -> u8 {
    (hex_val(hi) * 16 + hex_val(lo)) as u8
}

/// Every byte of the sequence is a hex digit.
pub open spec fn all_hex(s: Seq<u8>) -> bool {
    forall|i: int| 0 <= i < s.len() ==> is_hex_digit(s[i])
}

/// The bytes denoted by an even-length sequence of hex digits.
pub open spec fn hex_decode_spec(s: Seq<u8>) -> Seq<u8> {
    Seq::new((s.len() / 2) as nat, |i: int| hex_byte(s[2 * i], s[2 * i + 1]))
}

/// `index` points at the first byte of `s` that is not a hex digit, and
/// `byte` is that byte.
pub open spec fn first_bad_digit(s: Seq<u8>, byte: u8, index: usize) -> bool {
    &&& 0 <= index < s.len()
    &&& byte == s[index as int]
    &&& !is_hex_digit(byte)
    &&& forall|k: int| 0 <= k < index ==> is_hex_digit(s[k])
}

/// The result is the invalid-digit rejection of `s`: it reports the first
/// byte of `s` that is not a hex digit, with its position.
pub open spec fn invalid_digit_err<T>(r: Result<T, IdentityError>, s: Seq<u8>) -> bool {
    r matches Err(IdentityError::InvalidDigit(byte, index)) && first_bad_digit(s, byte, index)
}

/// Relies on `hex::decode` (through `FromHex for Vec<u8>`): an odd-length
/// input is refused outright; otherwise the input is scanned left to right
/// and the first byte that is not a hex digit is reported with its position;
/// an even-length input of hex digits decodes pairwise to its bytes. The
/// error variants are mapped one for one onto the library's own.
#[verifier::external_body]
fn hex_decode(data: &[u8]) -> (r: Result<Vec<u8>, IdentityError>)
    ensures
        data@.len() % 2 != 0 ==> (r matches Err(IdentityError::OddLength)),
        data@.len() % 2 == 0 && all_hex(data@) ==> r is Ok && r->Ok_0@ == hex_decode_spec(data@),
        data@.len() % 2 == 0 && !all_hex(data@) ==> invalid_digit_err(r, data@),
{
    match hex::decode(data) {
        Ok(v) => Ok(v),
        Err(hex::FromHexError::OddLength) => Err(IdentityError::OddLength),
        Err(hex::FromHexError::InvalidHexCharacter { c, index }) => Err(
            IdentityError::InvalidDigit(c as u8, index),
        ),
        Err(hex::FromHexError::InvalidStringLength) => Err(IdentityError::OddLength),
    }
}

/// Parses a peer identity from the bytes of a hex string. Succeeds exactly
/// when the input is 64 hex digits, which decode to the 32 identity bytes.
/// An odd length or a non-digit is a decode error; any other digit count is
/// a length error carrying the decoded byte count.
pub fn parse_peer_identity(hex_input: &[u8]) -> (r: Result<PeerIdentity, IdentityError>)
    ensures
        r is Ok <==> (hex_input@.len() == 64 && all_hex(hex_input@)),
        r is Ok ==> r->Ok_0.wf() && r->Ok_0.bytes@ == hex_decode_spec(hex_input@),
        hex_input@.len() % 2 != 0 ==> r == Err::<PeerIdentity, IdentityError>(IdentityError::OddLength),
        hex_input@.len() % 2 == 0 && !all_hex(hex_input@) ==> invalid_digit_err(r, hex_input@),
        hex_input@.len() % 2 == 0 && all_hex(hex_input@) && hex_input@.len() != 64 ==> (r matches Err(IdentityError::WrongLength(len)) && len == hex_input@.len() / 2),
{
    match hex_decode(hex_input) {
        Err(e) => Err(e),
        Ok(bytes) => {
            if bytes.len() != 32 {
                Err(IdentityError::WrongLength(bytes.len()))
            } else {
                Ok(PeerIdentity { bytes })
            }
        },
    }
}

} // verus!
