//! Record ids of the raffle service: twelve bytes, written as 24 hex digits.
//! Parsing, printing and minting go through `bson`'s `ObjectId`.

use vstd::prelude::*;

verus! {

/// The id of a raffle or a ticket, as the service stores it: twelve bytes.
#[derive(Clone, Copy, Debug)]
pub struct RecordId {
    pub bytes: [u8; 12],
}

/// The lower-case hex digit of a value below 16.
pub open spec fn hex_digit(v: nat) -> char {
    if v < 10 {
        ('0' as int + v) as char
    } else {
        ('a' as int + v - 10) as char
    }
}

/// Lower-case hex text of a byte string, two digits per byte, high nibble first.
pub open spec fn hex_text(bytes: Seq<u8>) -> Seq<char> {
    Seq::new(
        2 * bytes.len(),
        |i: int|
            if i % 2 == 0 {
                hex_digit((bytes[i / 2] / 16) as nat)
            } else {
                hex_digit((bytes[i / 2] % 16) as nat)
            },
    )
}

/// A hex digit of either case.
pub open spec fn is_hex_digit(c: char) -> bool {
    ('0' <= c && c <= '9') || ('a' <= c && c <= 'f') || ('A' <= c && c <= 'F')
}

/// The value of a hex digit of either case.
pub open spec fn hex_value(c: char) -> nat {
    if '0' <= c && c <= '9' {
        (c as int - '0' as int) as nat
    } else if 'a' <= c && c <= 'f' {
        (c as int - 'a' as int + 10) as nat
    } else {
        (c as int - 'A' as int + 10) as nat
    }
}

/// The record id that a text names: exactly 24 hex digits of either case, read two per
/// byte, high nibble first; any other text names none.
pub open spec fn parsed_record_id(s: Seq<char>) -> Option<Seq<u8>> {
    if s.len() == 24 && (forall|i: int| 0 <= i < 24 ==> is_hex_digit(#[trigger] s[i])) {
        Some(Seq::new(12, |i: int| (hex_value(s[2 * i]) * 16 + hex_value(s[2 * i + 1])) as u8))
    } else {
        None
    }
}

/// Reads a record id from its hex text with `bson::oid::ObjectId::parse_str`, which
/// decodes the text with the `hex` crate (digits of either case, two per byte) and
/// accepts it only when that gives exactly twelve bytes.
#[verifier::external_body]
pub(crate) fn parse_record_id(s: &str) -> (r: Option<RecordId>)
    ensures
        match r {
            Some(id) => parsed_record_id(s@) == Some(id.bytes@),
            None => parsed_record_id(s@) is None,
        },
{
    match bson::oid::ObjectId::parse_str(s) {
        Ok(oid) => Some(RecordId { bytes: oid.bytes() }),
        Err(_) => None,
    }
}

/// Writes a record id as `bson::oid::ObjectId` displays it: `hex::encode` of the twelve
/// bytes, lower case.
#[verifier::external_body]
pub(crate) fn record_id_text(id: &RecordId) -> (s: String)
    ensures
        s@ == hex_text(id.bytes@),
{
    bson::oid::ObjectId::from_bytes(id.bytes).to_string()
}

/// A fresh record id from `bson::oid::ObjectId::new`, which `ObjectId::default` also
/// calls. Nothing is stated of its bytes: they come from the clock, the process and a
/// counter.
#[verifier::external_body]
pub(crate) fn new_record_id() -> (id: RecordId) {
    RecordId { bytes: bson::oid::ObjectId::new().bytes() }
}

/// Whether two record ids are the same twelve bytes.
pub fn same_record(a: &RecordId, b: &RecordId) -> (r: bool)
    ensures
        r == (a.bytes@ == b.bytes@),
{
    let mut i: usize = 0;
    while i < 12
        invariant
            i <= 12,
            forall|k: int| 0 <= k < i ==> a.bytes@[k] == b.bytes@[k],
        decreases 12 - i,
    {
        if a.bytes[i] != b.bytes[i] {
            return false;
        }
        i = i + 1;
    }
    assert(a.bytes@ =~= b.bytes@);
    true
}

/// A record id printed with `record_id_text` reads back as the same id with
/// `parse_record_id`.
pub proof fn lemma_record_id_text_round_trip(bytes: Seq<u8>)
    requires
        bytes.len() == 12,
    ensures
        parsed_record_id(hex_text(bytes)) == Some(bytes),
{
    let s = hex_text(bytes);
    assert forall|i: int| 0 <= i < 24 implies is_hex_digit(#[trigger] s[i]) by {
        let b = bytes[i / 2];
        assert(b / 16 < 16 && b % 16 < 16);
    }
    let back = Seq::new(12, |i: int| (hex_value(s[2 * i]) * 16 + hex_value(s[2 * i + 1])) as u8);
    assert forall|i: int| 0 <= i < 12 implies back[i] == bytes[i] by {
        let b = bytes[i];
        assert((2 * i) / 2 == i);
        assert((2 * i + 1) / 2 == i);
        assert((2 * i) % 2 == 0);
        assert((2 * i + 1) % 2 == 1);
        assert(hex_value(s[2 * i]) == b / 16);
        assert(hex_value(s[2 * i + 1]) == b % 16);
    }
    assert(back =~= bytes);
}

} // verus!
