//! Record identifiers: twelve bytes, written outside the store as
//! twenty-four hexadecimal digits.

use vstd::prelude::*;
use crate::error::CommandError;

verus! {

/// The error that `mongodb::bson::oid::ObjectId::parse_str` returns.
#[verifier::external_type_specification]
#[verifier::external_body]
pub struct ExObjectIdError(mongodb::bson::oid::Error);

/// The identifier that the store gives a record when it is first persisted.
#[derive(Clone, Copy, Debug, PartialEq, Eq)]
pub struct RecordId {
    pub bytes: [u8; 12],
}

impl View for RecordId {
    type V = Seq<u8>;

    open spec fn view(&self) -> Seq<u8> {
        self.bytes@
    }
}

impl DeepView for RecordId {
    type V = Seq<u8>;

    open spec fn deep_view(&self) -> Seq<u8> {
        self@
    }
}

/// Whether `c` is one of `0..9`, `a..f`, `A..F`.
pub open spec fn is_hex_digit(c: char) -> bool {
    ('0' <= c && c <= '9') || ('a' <= c && c <= 'f') || ('A' <= c && c <= 'F')
}

/// The number that a hexadecimal digit stands for.
pub open spec fn hex_value(c: char) -> int {
    if '0' <= c && c <= '9' {
        c as int - '0' as int
    } else if 'a' <= c && c <= 'f' {
        c as int - 'a' as int + 10
    } else {
        c as int - 'A' as int + 10
    }
}

/// The lower-case digit for a number below sixteen.
pub open spec fn hex_digit(v: int) -> char {
    if v < 10 {
        ('0' as int + v) as char
    } else {
        ('a' as int + v - 10) as char
    }
}

/// Whether `s` is the external form of an identifier: exactly twenty-four
/// hexadecimal digits, in either case.
pub open spec fn is_hex_id(s: Seq<char>) -> bool {
    &&& s.len() == 24
    &&& forall|i: int| 0 <= i < 24 ==> is_hex_digit(#[trigger] s[i])
}

/// The bytes that twenty-four hexadecimal digits spell, two digits a byte,
/// the high half first.
pub open spec fn hex_decode(s: Seq<char>) -> Seq<u8> {
    Seq::new(12, |i: int| (hex_value(s[2 * i]) * 16 + hex_value(s[2 * i + 1])) as u8)
}

/// The lower-case hexadecimal spelling of `bytes`.
pub open spec fn hex_encode(bytes: Seq<u8>) -> Seq<char> {
    Seq::new(
        2 * bytes.len(),
        |i: int|
            if i % 2 == 0 {
                hex_digit(bytes[i / 2] as int / 16)
            } else {
                hex_digit(bytes[i / 2] as int % 16)
            },
    )
}

/// Calls `mongodb::bson::oid::ObjectId::parse_str` and hands the bytes of the
/// identifier back. The contract claims that the call succeeds exactly on
/// twenty-four hexadecimal digits and that the identifier holds the bytes
/// they spell.
#[verifier::external_body]
fn parse_object_id(s: &str) -> (r: Result<RecordId, mongodb::bson::oid::Error>)
    ensures
        r is Ok <==> is_hex_id(s@),
        r matches Ok(id) ==> id@ == hex_decode(s@),
{
    match mongodb::bson::oid::ObjectId::parse_str(s) {
        Ok(id) => Ok(RecordId { bytes: id.bytes() }),
        Err(e) => Err(e),
    }
}

/// Calls `mongodb::bson::oid::ObjectId::to_hex`. The contract claims that the
/// result is the lower-case hexadecimal spelling of the twelve bytes.
#[verifier::external_body]
fn object_id_hex(id: &RecordId) -> (r: String)
    ensures
        r@ == hex_encode(id@),
{
    mongodb::bson::oid::ObjectId::from_bytes(id.bytes).to_hex()
}

/// Calls `to_string` on the error of `ObjectId::parse_str`. Nothing is claimed
/// of the text.
#[verifier::external_body]
fn object_id_error_text(e: &mongodb::bson::oid::Error) -> (r: String) {
    e.to_string()
}

impl RecordId {
    /// Reads an identifier from its external form. Anything but twenty-four
    /// hexadecimal digits is an `InvalidArgument`.
    pub fn parse(s: &str) -> (r: Result<RecordId, CommandError>)
        ensures
            r is Ok <==> is_hex_id(s@),
            r matches Ok(id) ==> id@ == hex_decode(s@),
            r matches Err(e) ==> e is InvalidArgument,
    {
        match parse_object_id(s) {
            Ok(id) => Ok(id),
            Err(e) => Err(CommandError::InvalidArgument { message: object_id_error_text(&e) }),
        }
    }

    /// The external form of the identifier: twenty-four lower-case
    /// hexadecimal digits.
    pub fn to_hex(&self) -> (text: String)
        ensures
            text@ == hex_encode(self@),
    {
        object_id_hex(self)
    }

    /// Whether two identifiers hold the same bytes.
    pub fn same(&self, other: &RecordId) -> (r: bool)
        ensures
            r == (self@ == other@),
    {
        let mut i: usize = 0;
        while i < 12
            invariant
                i <= 12,
                forall|j: int| 0 <= j < i ==> self.bytes[j] == other.bytes[j],
            decreases 12 - i,
        {
            if self.bytes[i] != other.bytes[i] {
                return false;
            }
            i += 1;
        }
        assert(self@ =~= other@);
        true
    }
}

/// Reading back what `to_hex` wrote gives the same identifier.
pub proof fn lemma_hex_round_trip(bytes: Seq<u8>)
    requires
        bytes.len() == 12,
    ensures
        is_hex_id(hex_encode(bytes)),
        hex_decode(hex_encode(bytes)) == bytes,
{
    let s = hex_encode(bytes);
    assert forall|i: int| 0 <= i < 24 implies is_hex_digit(#[trigger] s[i]) by {
        let b = bytes[i / 2] as int;
        assert(0 <= b / 16 < 16 && 0 <= b % 16 < 16);
    }
    assert forall|k: int| 0 <= k < 12 implies #[trigger] hex_decode(s)[k] == bytes[k] by {
        let b = bytes[k] as int;
        assert((2 * k) / 2 == k && (2 * k) % 2 == 0);
        assert((2 * k + 1) / 2 == k && (2 * k + 1) % 2 == 1);
        assert(s[2 * k] == hex_digit(b / 16));
        assert(s[2 * k + 1] == hex_digit(b % 16));
        assert(0 <= b / 16 < 16 && 0 <= b % 16 < 16);
        assert(hex_value(hex_digit(b / 16)) == b / 16);
        assert(hex_value(hex_digit(b % 16)) == b % 16);
        assert((b / 16) * 16 + b % 16 == b);
    }
    assert(hex_decode(s) =~= bytes);
}

/// Different byte strings have different hexadecimal spellings.
pub proof fn lemma_hex_injective(a: Seq<u8>, b: Seq<u8>)
    requires
        hex_encode(a) == hex_encode(b),
    ensures
        a == b,
{
    assert(hex_encode(a).len() == 2 * a.len());
    assert(hex_encode(b).len() == 2 * b.len());
    assert forall|k: int| 0 <= k < a.len() implies a[k] == b[k] by {
        let x = a[k] as int;
        let y = b[k] as int;
        assert((2 * k) / 2 == k && (2 * k) % 2 == 0);
        assert((2 * k + 1) / 2 == k && (2 * k + 1) % 2 == 1);
        assert(hex_encode(a)[2 * k] == hex_digit(x / 16));
        assert(hex_encode(b)[2 * k] == hex_digit(y / 16));
        assert(hex_encode(a)[2 * k + 1] == hex_digit(x % 16));
        assert(hex_encode(b)[2 * k + 1] == hex_digit(y % 16));
        assert(0 <= x / 16 < 16 && 0 <= x % 16 < 16);
        assert(0 <= y / 16 < 16 && 0 <= y % 16 < 16);
        assert(hex_value(hex_digit(x / 16)) == x / 16);
        assert(hex_value(hex_digit(y / 16)) == y / 16);
        assert(hex_value(hex_digit(x % 16)) == x % 16);
        assert(hex_value(hex_digit(y % 16)) == y % 16);
        assert((x / 16) * 16 + x % 16 == x);
        assert((y / 16) * 16 + y % 16 == y);
    }
    assert(a =~= b);
}

} // verus!
