use vstd::prelude::*;
use vstd::std_specs::cmp::PartialEqSpecImpl;

verus! {

/// The value of a hexadecimal digit, in either case.
pub open spec fn hex_digit_value(c: char) -> Option<int> {
    if '0' <= c <= '9' {
        Some(c as int - '0' as int)
    } else if 'a' <= c <= 'f' {
        Some(c as int - 'a' as int + 10)
    } else if 'A' <= c <= 'F' {
        Some(c as int - 'A' as int + 10)
    } else {
        None
    }
}

/// The lower-case hexadecimal digit that stands for `v`, for `0 <= v < 16`.
pub open spec fn hex_digit(v: int) -> char {
    if v < 10 {
        ('0' as int + v) as char
    } else {
        ('a' as int + v - 10) as char
    }
}

/// Whether `s` is the text form of a native identifier: 24 hexadecimal digits.
pub open spec fn is_hex_id(s: Seq<char>) -> bool {
    &&& s.len() == 24
    &&& forall|i: int| 0 <= i < 24 ==> (#[trigger] hex_digit_value(s[i])) is Some
}

/// The 12 bytes that the 24 hexadecimal digits of `s` spell, two digits a byte,
/// the high one first.
pub open spec fn hex_id_bytes(s: Seq<char>) -> Seq<u8> {
    Seq::new(
        12,
        |i: int| (hex_digit_value(s[2 * i]).unwrap() * 16 + hex_digit_value(s[2 * i + 1]).unwrap()) as u8,
    )
}

/// The 24 lower-case hexadecimal digits that spell `bytes`.
pub open spec fn hex_id_text(bytes: Seq<u8>) -> Seq<char> {
    Seq::new(
        24,
        |i: int| if i % 2 == 0 { hex_digit(bytes[i / 2] as int / 16) } else { hex_digit(bytes[i / 2] as int % 16) },
    )
}

/// A digit stands for the value that it was written for.
pub proof fn lemma_hex_digit(v: int)
    requires
        0 <= v < 16,
    ensures
        hex_digit_value(hex_digit(v)) == Some(v),
{
}

/// The text form of a native identifier reads back as that identifier.
pub proof fn hex_text_reads_back(bytes: Seq<u8>)
    requires
        bytes.len() == 12,
    ensures
        is_hex_id(hex_id_text(bytes)),
        hex_id_bytes(hex_id_text(bytes)) == bytes,
{
    let text = hex_id_text(bytes);
    assert forall|i: int| 0 <= i < 24 implies (#[trigger] hex_digit_value(text[i])) is Some by {
        lemma_hex_digit(bytes[i / 2] as int / 16);
        lemma_hex_digit(bytes[i / 2] as int % 16);
    }
    assert forall|i: int| 0 <= i < 12 implies hex_id_bytes(text)[i] == bytes[i] by {
        lemma_hex_digit(bytes[i] as int / 16);
        lemma_hex_digit(bytes[i] as int % 16);
        assert((2 * i) / 2 == i && (2 * i) % 2 == 0);
        assert((2 * i + 1) / 2 == i && (2 * i + 1) % 2 == 1);
    }
    assert(hex_id_bytes(text) =~= bytes);
}

/// A native identifier of the document store: twelve bytes, opaque to this library.
#[derive(Clone, Copy, Debug)]
pub struct ObjectId {
    pub bytes: [u8; 12],
}

impl View for ObjectId {
    type V = Seq<u8>;

    open spec fn view(&self) -> Seq<u8> {
        self.bytes@
    }
}

impl PartialEq for ObjectId {
    fn eq(&self, other: &ObjectId) -> (r: bool) {
        let mut i: usize = 0;
        while i < 12
            invariant
                i <= 12,
                forall|j: int| 0 <= j < i ==> self.bytes[j] == other.bytes[j],
            decreases 12 - i,
        {
            if self.bytes[i] != other.bytes[i] {
                return false;
            }
            i += 1;
        }
        assert(self@ =~= other@);
        true
    }
}

impl Eq for ObjectId {

}

impl PartialEqSpecImpl for ObjectId {
    open spec fn obeys_eq_spec() -> bool {
        true
    }

    open spec fn eq_spec(&self, other: &ObjectId) -> bool {
        self@ == other@
    }
}

/// Why `mongodb::bson::oid::ObjectId::parse_str` refused a text.
#[verifier::external_type_specification]
#[verifier::external_body]
pub struct ExOidError(mongodb::bson::oid::Error);

/// Calls `mongodb::bson::oid::ObjectId::parse_str`. That function decodes the
/// text's bytes as hexadecimal digits of either case, two to a byte, and accepts
/// the text exactly when twelve bytes come out.
#[verifier::external_body]
fn oid_parse_str(s: &str) -> (r: Result<ObjectId, mongodb::bson::oid::Error>)
    ensures
        r is Ok <==> is_hex_id(s@),
        r matches Ok(id) ==> id@ == hex_id_bytes(s@),
{
    match mongodb::bson::oid::ObjectId::parse_str(s) {
        Ok(o) => Ok(ObjectId { bytes: o.bytes() }),
        Err(e) => Err(e),
    }
}

/// Calls `mongodb::bson::oid::ObjectId::to_hex`, which spells the twelve bytes
/// as 24 lower-case hexadecimal digits.
#[verifier::external_body]
fn oid_to_hex(id: &ObjectId) -> (r: String)
    ensures
        r@ == hex_id_text(id@),
{
    mongodb::bson::oid::ObjectId::from_bytes(id.bytes).to_hex()
}

/// Calls `mongodb::bson::oid::ObjectId::new`, which makes an identifier from the
/// clock, a number drawn once per process and a counter. Nothing is claimed of
/// the bytes. The outside function panics where the machine's clock stands
/// before 1970 or after 2105.
#[verifier::external_body]
fn oid_new() -> ObjectId {
    ObjectId { bytes: mongodb::bson::oid::ObjectId::new().bytes() }
}

impl ObjectId {
    /// A fresh identifier, as the document store's client library generates
    /// it: from the clock, a number drawn once per process and a counter. On a
    /// machine whose clock stands before 1970 or after 2105 the call does not
    /// come back.
    pub fn new() -> ObjectId {
        oid_new()
    }

    /// Reads a native identifier from its text form. The text is accepted
    /// exactly when it is 24 hexadecimal digits.
    pub fn parse_str(s: &str) -> (r: Option<ObjectId>)
        ensures
            r is Some <==> is_hex_id(s@),
            r matches Some(id) ==> id@ == hex_id_bytes(s@),
    {
        match oid_parse_str(s) {
            Ok(id) => Some(id),
            Err(_) => None,
        }
    }

    /// The text form of the identifier: 24 lower-case hexadecimal digits.
    pub fn to_hex(&self) -> (r: String)
        ensures
            r@ == hex_id_text(self@),
    {
        oid_to_hex(self)
    }
}

} // verus!
