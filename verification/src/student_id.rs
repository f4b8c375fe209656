//! Student identifiers: the twelve bytes that the store assigns to a record,
//! and their canonical text of twenty-four hexadecimal digits.

use crate::error::ApiError;
use vstd::prelude::*;

verus! {

/// The identifier that the store assigns to a student record.
#[derive(Clone, Copy, Debug, PartialEq, Eq, Hash)]
pub struct StudentId {
    pub bytes: [u8; 12],
}

/// `c` is one of `0..9`, `a..f`, `A..F`.
pub open spec fn is_hex_digit(c: char) -> bool {
    ('0' <= c && c <= '9') || ('a' <= c && c <= 'f') || ('A' <= c && c <= 'F')
}

/// The number, 0 to 15, that a hexadecimal digit stands for.
pub open spec fn hex_digit_value(c: char) -> int {
    if '0' <= c && c <= '9' {
        c as int - '0' as int
    } else if 'a' <= c && c <= 'f' {
        c as int - 'a' as int + 10
    } else {
        c as int - 'A' as int + 10
    }
}

/// The lower-case hexadecimal digit for a number from 0 to 15.
pub open spec fn lower_hex_digit(v: int) -> char {
    if v < 10 {
        ('0' as int + v) as char
    } else {
        ('a' as int + v - 10) as char
    }
}

/// `s` is the text of an identifier: exactly twenty-four hexadecimal digits,
/// in either case.
pub open spec fn is_hex_id(s: Seq<char>) -> bool {
    s.len() == 24 && forall|i: int| 0 <= i < 24 ==> is_hex_digit(#[trigger] s[i])
}

/// The byte that the digits at `2 * k` and `2 * k + 1` of `s` spell, high digit first.
pub open spec fn hex_byte(s: Seq<char>, k: int) -> u8 {
    (16 * hex_digit_value(s[2 * k]) + hex_digit_value(s[2 * k + 1])) as u8
}

/// The identifier that the text `s` spells, where `is_hex_id(s)`.
pub open spec fn decode_hex_id(s: Seq<char>) -> StudentId {
    StudentId {
        bytes: [
            hex_byte(s, 0),
            hex_byte(s, 1),
            hex_byte(s, 2),
            hex_byte(s, 3),
            hex_byte(s, 4),
            hex_byte(s, 5),
            hex_byte(s, 6),
            hex_byte(s, 7),
            hex_byte(s, 8),
            hex_byte(s, 9),
            hex_byte(s, 10),
            hex_byte(s, 11),
        ],
    }
}

/// The digit at position `i` of the canonical text of `id`.
pub open spec fn hex_char(id: StudentId, i: int) -> char {
    let byte = id.bytes[i / 2];
    if i % 2 == 0 {
        lower_hex_digit(byte as int / 16)
    } else {
        lower_hex_digit(byte as int % 16)
    }
}

/// The canonical text of `id`: twenty-four lower-case hexadecimal digits.
pub open spec fn encode_hex_id(id: StudentId) -> Seq<char> {
    Seq::new(24, |i: int| hex_char(id, i))
}

/// `bson::oid::Error`, the reason why a text was refused as an identifier.
/// Nothing is read from it.
#[verifier::external_type_specification]
#[verifier::external_body]
pub struct ExObjectIdError(bson::oid::Error);

/// Calls `bson::oid::ObjectId::parse_str` and hands back the bytes of the
/// identifier it built. The contract claims that the call succeeds exactly on
/// twenty-four hexadecimal digits, and that each byte is spelled by two
/// consecutive digits, the high one first.
#[verifier::external_body]
fn parse_object_id(s: &str) -> (r: Result<[u8; 12], bson::oid::Error>)
    ensures
        r is Ok <==> is_hex_id(s@),
        r matches Ok(bytes) ==> forall|k: int| 0 <= k < 12 ==> bytes[k] == hex_byte(s@, k),
{
    match bson::oid::ObjectId::parse_str(s) {
        Ok(oid) => Ok(oid.bytes()),
        Err(e) => Err(e),
    }
}

/// Calls `bson::oid::ObjectId::to_hex` on the identifier with these bytes.
/// The contract claims that the text has two lower-case hexadecimal digits
/// for each byte, in order, the high digit first.
#[verifier::external_body]
fn object_id_to_hex(bytes: [u8; 12]) -> (r: String)
    ensures
        r@.len() == 24,
        forall|i: int| 0 <= i < 24 ==> r@[i] == hex_char(StudentId { bytes }, i),
{
    bson::oid::ObjectId::from_bytes(bytes).to_hex()
}

impl StudentId {
    /// Reads an identifier from its text. Any text that is not twenty-four
    /// hexadecimal digits is a malformed request.
    pub fn parse_str(s: &str) -> (r: Result<StudentId, ApiError>)
        ensures
            r is Ok <==> is_hex_id(s@),
            r matches Ok(id) ==> id == decode_hex_id(s@),
            r matches Err(e) ==> e == ApiError::BadRequest,
    {
        match parse_object_id(s) {
            Ok(bytes) => {
                let id = StudentId { bytes };
                assert(id.bytes =~= decode_hex_id(s@).bytes);
                Ok(id)
            },
            Err(_) => Err(ApiError::BadRequest),
        }
    }

    /// Writes the identifier in its canonical text.
    pub fn to_hex(&self) -> (r: String)
        ensures
            r@ == encode_hex_id(*self),
    {
        object_id_to_hex(self.bytes)
    }
}

/// An identifier read back from its canonical text is the identifier itself.
pub proof fn lemma_hex_round_trip(id: StudentId)
    ensures
        is_hex_id(encode_hex_id(id)),
        decode_hex_id(encode_hex_id(id)) == id,
{
    let s = encode_hex_id(id);
    assert forall|k: int| 0 <= k < 12 implies hex_byte(s, k) == id.bytes[k] by {
        assert(s[2 * k] == hex_char(id, 2 * k));
        assert(s[2 * k + 1] == hex_char(id, 2 * k + 1));
    }
    assert(decode_hex_id(s).bytes =~= id.bytes);
}

} // verus!
