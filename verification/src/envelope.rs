//! The envelope that a suite travels in: a length of eight bytes, least
//! significant byte first, and then that many bytes of UTF-8 text. Bytes
//! after the text are ignored.

use crate::error::CheckError;
use vstd::prelude::*;
use vstd::utf8::{
    decode_utf8, encode_utf8, encode_utf8_decode_utf8, encode_utf8_valid_utf8, valid_utf8,
};

verus! {

/// The number that bytes stand for, least significant byte first.
pub open spec fn le_value(bytes: Seq<u8>) -> nat
    decreases bytes.len(),
{
    if bytes.len() == 0 {
        0
    } else {
        bytes[0] as nat + 256 * le_value(bytes.drop_first())
    }
}

/// The `count` bytes that stand for a number, least significant byte
/// first.
pub open spec fn le_bytes(n: nat, count: nat) -> Seq<u8>
    decreases count,
{
    if count == 0 {
        Seq::empty()
    } else {
        seq![(n % 256) as u8] + le_bytes(n / 256, (count - 1) as nat)
    }
}

/// The envelope of a text: the length of its UTF-8 bytes in eight bytes,
/// and then those bytes.
pub open spec fn spec_envelope(text: Seq<char>) -> Seq<u8> {
    le_bytes(encode_utf8(text).len(), 8) + encode_utf8(text)
}

/// The bytes that an envelope frames: those that follow the length, as
/// many as the length says. None where the envelope is shorter than its
/// length field or than the length says.
pub open spec fn spec_envelope_payload(data: Seq<u8>) -> Option<Seq<u8>> {
    if data.len() >= 8 && le_value(data.subrange(0, 8)) <= data.len() - 8 {
        Some(data.subrange(8, 8 + le_value(data.subrange(0, 8)) as int))
    } else {
        None
    }
}

/// The text of an envelope: its payload read as UTF-8. None where there
/// is no payload or the payload is not UTF-8.
pub open spec fn spec_envelope_text(data: Seq<u8>) -> Option<Seq<char>> {
    match spec_envelope_payload(data) {
        Some(payload) => if valid_utf8(payload) {
            Some(decode_utf8(payload))
        } else {
            None
        },
        None => None,
    }
}

/// Calls `bincode::deserialize` for a `String`.
///
/// Trusted: the call reads a length of eight bytes, least significant byte
/// first, takes that many bytes after it, and gives them as a string where
/// they are UTF-8. It fails where the input is too short or the bytes are
/// not UTF-8, and it ignores what follows the bytes it took.
#[verifier::external_body]
fn bincode_string(data: &[u8]) -> (r: Option<String>)
    ensures
        match r {
            Some(text) => spec_envelope_text(data@) == Some(text@),
            None => spec_envelope_text(data@) is None,
        },
{
    bincode::deserialize::<String>(data).ok()
}

/// Takes the text out of an envelope.
pub fn decode_envelope(test_data: &[u8]) -> (r: Result<String, CheckError>)
    ensures
        match r {
            Ok(text) => spec_envelope_text(test_data@) == Some(text@),
            Err(e) => e == CheckError::Decode && spec_envelope_text(test_data@) is None,
        },
{
    match bincode_string(test_data) {
        Some(text) => Ok(text),
        None => Err(CheckError::Decode),
    }
}

/// Calls `bincode::serialize` on a string.
///
/// Trusted: the call succeeds on every string, for it runs without a limit
/// on the size and writes into a vector. Its result is the length of the
/// string's UTF-8 bytes in eight bytes, least significant byte first, and
/// then those bytes.
#[verifier::external_body]
fn bincode_bytes(text: &str) -> (r: Option<Vec<u8>>)
    ensures
        r is Some,
        r matches Some(bytes) ==> bytes@ == spec_envelope(text@),
{
    bincode::serialize(text).ok()
}

/// Puts a text into an envelope. The envelope is there for every text, and
/// its text is the text that was put in.
pub fn encode_envelope(text: &str) -> (r: Option<Vec<u8>>)
    ensures
        r matches Some(bytes) && bytes@ == spec_envelope(text@) && spec_envelope_text(bytes@)
            == Some(text@),
{
    match bincode_bytes(text) {
        Some(bytes) => {
            let len = bytes.len();
            proof {
                lemma_le_bytes_len(encode_utf8(text@).len(), 8);
                assert(encode_utf8(text@).len() + 8 == len);
                lemma_envelope_round_trip(text@);
            }
            Some(bytes)
        },
        None => None,
    }
}

/// A number written in `count` bytes takes `count` bytes.
pub proof fn lemma_le_bytes_len(n: nat, count: nat)
    ensures
        le_bytes(n, count).len() == count,
    decreases count,
{
    if count > 0 {
        lemma_le_bytes_len(n / 256, (count - 1) as nat);
    }
}

/// Reading the bytes of a number, least significant byte first, gives the
/// number back where it fits in the bytes.
pub proof fn lemma_le_round_trip(n: nat, count: nat)
    requires
        count <= 8,
        n < pow256(count),
    ensures
        le_bytes(n, count).len() == count,
        le_value(le_bytes(n, count)) == n,
    decreases count,
{
    if count > 0 {
        let rest = (count - 1) as nat;
        assert(pow256(count) == 256 * pow256(rest));
        lemma_le_round_trip(n / 256, rest);
        let bytes = le_bytes(n, count);
        assert(bytes.drop_first() =~= le_bytes(n / 256, rest));
        assert(bytes[0] == (n % 256) as u8);
    }
}

/// 256 to the power of `count`.
pub open spec fn pow256(count: nat) -> nat
    decreases count,
{
    if count == 0 {
        1
    } else {
        256 * pow256((count - 1) as nat)
    }
}

/// The text of the envelope of a text is that text, for every text whose
/// UTF-8 bytes are fewer than 2^64.
pub proof fn lemma_envelope_round_trip(text: Seq<char>)
    requires
        encode_utf8(text).len() < 0x1_0000_0000_0000_0000,
    ensures
        spec_envelope_text(spec_envelope(text)) == Some(text),
{
    let payload = encode_utf8(text);
    let data = spec_envelope(text);
    assert(pow256(8) == 0x1_0000_0000_0000_0000) by {
        reveal_with_fuel(pow256, 9);
    }
    lemma_le_round_trip(payload.len(), 8);
    assert(data.subrange(0, 8) =~= le_bytes(payload.len(), 8));
    assert(data.subrange(8, 8 + payload.len() as int) =~= payload);
    encode_utf8_valid_utf8(text);
    encode_utf8_decode_utf8(text);
}

} // verus!
