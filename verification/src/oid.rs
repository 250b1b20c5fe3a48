//! Object ids and their text form.

use vstd::prelude::*;

verus! {

/// The digits of the text form of an object id, by value.
pub open spec fn hex_digits() -> Seq<char> {
    seq!['0', '1', '2', '3', '4', '5', '6', '7', '8', '9', 'a', 'b', 'c', 'd', 'e', 'f']
}

/// Two lower-case hexadecimal digits for each byte, the high half first.
pub open spec fn hex_text(bytes: Seq<u8>) -> Seq<char> {
    Seq::new(
        2 * bytes.len(),
        |i: int|
            if i % 2 == 0 {
                hex_digits()[bytes[i / 2] as int / 16]
            } else {
                hex_digits()[bytes[i / 2] as int % 16]
            },
    )
}

/// The id of a git object: twenty bytes.
#[derive(Copy, Clone, Hash, PartialEq, Eq, Debug)]
pub struct Oid {
    bytes: [u8; 20],
}

impl View for Oid {
    type V = Seq<u8>;

    closed spec fn view(&self) -> Seq<u8> {
        self.bytes@
    }
}

/// Hex-encodes an object id through `git2::Oid`: `Oid::from_bytes` takes the
/// twenty bytes, which it accepts for every value of them, and the `Display`
/// of the id it gives writes two lower-case hexadecimal digits for each byte,
/// in the order of the bytes.
#[verifier::external_body]
fn git_oid_text(bytes: &[u8; 20]) -> (text: String)
    ensures
        text@ == hex_text(bytes@),
{
    match git2::Oid::from_bytes(bytes) {
        Ok(id) => id.to_string(),
        Err(_) => String::new(),
    }
}

impl Oid {
    /// The id that holds `bytes`.
    pub fn from_bytes(bytes: [u8; 20]) -> (id: Oid)
        ensures
            id@ == bytes@,
    {
        Oid { bytes }
    }

    /// The bytes of the id.
    pub fn as_bytes(&self) -> (bytes: &[u8; 20])
        ensures
            bytes@ == self@,
    {
        &self.bytes
    }

    /// The text form of the id: forty lower-case hexadecimal digits.
    pub fn to_hex(&self) -> (text: String)
        ensures
            text@ == hex_text(self@),
            text@.len() == 40,
    {
        git_oid_text(&self.bytes)
    }
}

} // verus!
