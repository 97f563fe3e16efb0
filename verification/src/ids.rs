//! Record identifiers: twelve bytes, written as twenty-four hexadecimal
//! digits, and the time stamps that records carry.

use vstd::prelude::*;

verus! {

/// The value of a hexadecimal digit, in either case; `None` for any other
/// character.
pub open spec fn hex_value(c: char) -> Option<nat> {
    if '0' <= c <= '9' {
        Some((c as nat - '0' as nat) as nat)
    } else if 'a' <= c <= 'f' {
        Some((c as nat - 'a' as nat + 10) as nat)
    } else if 'A' <= c <= 'F' {
        Some((c as nat - 'A' as nat + 10) as nat)
    } else {
        None
    }
}

/// The lower-case hexadecimal digit of a value below sixteen.
pub open spec fn hex_digit(v: nat) -> char {
    if v < 10 {
        ('0' as nat + v) as char
    } else {
        ('a' as nat + v - 10) as char
    }
}

/// Whether every character is a hexadecimal digit.
pub open spec fn is_hex_text(s: Seq<char>) -> bool {
    forall|i: int| 0 <= i < s.len() ==> (#[trigger] hex_value(s[i])) is Some
}

/// The bytes that a text of hexadecimal digits denotes, two digits a byte.
pub open spec fn hex_bytes(s: Seq<char>) -> Seq<u8> {
    Seq::new(
        s.len() / 2,
        |i: int| (16 * hex_value(s[2 * i])->0 + hex_value(s[2 * i + 1])->0) as u8,
    )
}

/// The lower-case hexadecimal text of some bytes, two digits a byte.
pub open spec fn hex_text(bytes: Seq<u8>) -> Seq<char> {
    Seq::new(
        2 * bytes.len(),
        |i: int|
            if i % 2 == 0 {
                hex_digit((bytes[i / 2] / 16) as nat)
            } else {
                hex_digit((bytes[i / 2] % 16) as nat)
            },
    )
}

/// The identifier that a text denotes: the text must be exactly twenty-four
/// hexadecimal digits.
pub open spec fn parsed_id(s: Seq<char>) -> Option<Seq<u8>> {
    if s.len() == 24 && is_hex_text(s) {
        Some(hex_bytes(s))
    } else {
        None
    }
}

/// The error of the BSON library's identifier parser.
#[verifier::external_type_specification]
#[verifier::external_body]
pub struct ExObjectIdError(mongodb::bson::oid::Error);

/// Why a text is no identifier.
#[derive(Clone, Copy, Debug, PartialEq, Eq, Structural)]
pub enum IdError {
    /// The text is not twenty-four hexadecimal digits.
    Malformed,
}

/// The identifier of a stored record.
#[derive(Clone, Copy, Debug)]
pub struct ObjectId {
    bytes: [u8; 12],
}

impl View for ObjectId {
    type V = Seq<u8>;

    closed spec fn view(&self) -> Seq<u8> {
        self.bytes@
    }
}

/// Decodes an identifier with `ObjectId::parse_str` of the BSON library. Its
/// source decodes the text as hexadecimal, two digits a byte and either case,
/// and accepts it exactly when twelve bytes come out.
#[verifier::external_body]
fn decode_object_id(s: &str) -> (r: Result<[u8; 12], mongodb::bson::oid::Error>)
    ensures
        match parsed_id(s@) {
            Some(bytes) => r is Ok && r->Ok_0@ == bytes,
            None => r is Err,
        },
{
    match mongodb::bson::oid::ObjectId::parse_str(s) {
        Ok(id) => Ok(id.bytes()),
        Err(e) => Err(e),
    }
}

/// Writes an identifier with `ObjectId::to_hex` of the BSON library, which
/// gives the twelve bytes as twenty-four lower-case hexadecimal digits.
#[verifier::external_body]
fn encode_object_id(bytes: [u8; 12]) -> (r: String)
    ensures
        r@ == hex_text(bytes@),
{
    mongodb::bson::oid::ObjectId::from_bytes(bytes).to_hex()
}

/// Makes a new identifier with `ObjectId::new` of the BSON library, from the
/// clock, a per-process random value and a counter: nothing is known of it.
#[verifier::external_body]
fn generate_object_id() -> (r: [u8; 12]) {
    mongodb::bson::oid::ObjectId::new().bytes()
}

impl ObjectId {
    /// The identifier with the given bytes.
    pub fn from_bytes(bytes: [u8; 12]) -> (id: ObjectId)
        ensures
            id@ == bytes@,
    {
        ObjectId { bytes }
    }

    /// The identifier's twelve bytes.
    pub fn bytes(&self) -> (b: [u8; 12])
        ensures
            b@ == self@,
    {
        self.bytes
    }

    /// A new identifier, unlike any other for practical purposes. Each call
    /// may give a different one.
    pub fn new() -> (id: ObjectId) {
        ObjectId { bytes: generate_object_id() }
    }

    /// Reads an identifier from its text: exactly twenty-four hexadecimal
    /// digits, in either case. Any other text is refused.
    pub fn parse_str(s: &str) -> (r: Result<ObjectId, IdError>)
        ensures
            match parsed_id(s@) {
                Some(bytes) => r is Ok && r->Ok_0@ == bytes,
                None => r == Err::<ObjectId, IdError>(IdError::Malformed),
            },
    {
        match decode_object_id(s) {
            Ok(bytes) => Ok(ObjectId { bytes }),
            Err(_) => Err(IdError::Malformed),
        }
    }

    /// The identifier as twenty-four lower-case hexadecimal digits.
    pub fn to_hex(&self) -> (s: String)
        ensures
            s@ == hex_text(self@),
    {
        encode_object_id(self.bytes)
    }

    /// Whether two identifiers are the same.
    pub fn same(&self, other: &ObjectId) -> (b: bool)
        ensures
            b == (self@ == other@),
    {
        let mut i: usize = 0;
        while i < 12
            invariant
                i <= 12,
                forall|j: int| 0 <= j < i ==> self.bytes@[j] == other.bytes@[j],
            decreases 12 - i,
        {
            if self.bytes[i] != other.bytes[i] {
                return false;
            }
            i = i + 1;
        }
        assert(self.bytes@ =~= other.bytes@);
        true
    }
}

/// A hexadecimal digit written in lower case reads back as its value.
pub proof fn lemma_hex_digit_value(v: nat)
    requires
        v < 16,
    ensures
        hex_value(hex_digit(v)) == Some(v),
{
}

/// An identifier written as text reads back as the same identifier.
pub proof fn lemma_hex_round_trip(bytes: Seq<u8>)
    requires
        bytes.len() == 12,
    ensures
        parsed_id(hex_text(bytes)) == Some(bytes),
{
    let s = hex_text(bytes);
    assert forall|i: int| 0 <= i < s.len() implies (#[trigger] hex_value(s[i])) is Some by {
        let b = bytes[i / 2];
        lemma_hex_digit_value((b / 16) as nat);
        lemma_hex_digit_value((b % 16) as nat);
    }
    assert forall|k: int| 0 <= k < 12 implies hex_bytes(s)[k] == bytes[k] by {
        let b = bytes[k];
        assert((2 * k) / 2 == k && (2 * k) % 2 == 0);
        assert((2 * k + 1) / 2 == k && (2 * k + 1) % 2 == 1);
        lemma_hex_digit_value((b / 16) as nat);
        lemma_hex_digit_value((b % 16) as nat);
        assert(16 * (b / 16) + b % 16 == b);
    }
    assert(hex_bytes(s) =~= bytes);
}

} // verus!
