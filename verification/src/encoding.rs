//! Link tags, and the text of hashes in messages.
//!
//! A link tag built from a text is the text serialized the way Holochain
//! serializes app data (MessagePack, through `holochain_serialized_bytes`).
//! A hash shows in a message as Holochain writes it: `u`, then its 39 bytes
//! in URL-safe base64 without padding (`holo_hash::holo_hash_encode`).
use vstd::prelude::*;
use hdk::prelude::holochain_serialized_bytes::SerializedBytesError;
use vstd::utf8::encode_utf8;
use crate::host::{Failure, FailureModel};

verus! {

/// The error that `holochain_serialized_bytes` reports for a value it could not serialize.
#[verifier::external_type_specification]
#[verifier::external_body]
pub struct ExSerializedBytesError(SerializedBytesError);

/// The MessagePack header of a string of `n` bytes: fixstr below 32 bytes,
/// then str8, str16 and str32, lengths big-endian.
pub open spec fn str_header(n: nat) -> Seq<u8> {
    if n < 32 {
        seq![(0xa0 + n) as u8]
    } else if n < 256 {
        seq![0xd9u8, n as u8]
    } else if n < 65536 {
        seq![0xdau8, (n / 256) as u8, (n % 256) as u8]
    } else {
        seq![
            0xdbu8,
            (n / 16777216) as u8,
            (n / 65536 % 256) as u8,
            (n / 256 % 256) as u8,
            (n % 256) as u8,
        ]
    }
}

/// A text serialized as Holochain serializes app data (MessagePack): the
/// string header of its UTF-8 length, then its UTF-8 bytes.
pub open spec fn serialized_text(text: Seq<char>) -> Seq<u8> {
    str_header(encode_utf8(text).len()) + encode_utf8(text)
}

/// The character of a 6-bit value in the URL-safe base64 alphabet.
pub open spec fn base64_url_char(v: nat) -> char {
    if v < 26 {
        (65 + v) as char
    } else if v < 52 {
        (97 + (v - 26)) as char
    } else if v < 62 {
        (48 + (v - 52)) as char
    } else if v == 62 {
        '-'
    } else {
        '_'
    }
}

/// Bytes in URL-safe base64 without padding: each three bytes give four
/// characters; a last one or two bytes give two or three.
pub open spec fn base64_url(bytes: Seq<u8>) -> Seq<char>
    decreases bytes.len(),
{
    if bytes.len() == 0 {
        seq![]
    } else {
        let b0 = bytes[0] as nat;
        let b1 = if bytes.len() > 1 { bytes[1] as nat } else { 0 };
        let b2 = if bytes.len() > 2 { bytes[2] as nat } else { 0 };
        let c0 = base64_url_char(b0 / 4);
        let c1 = base64_url_char((b0 % 4) * 16 + b1 / 16);
        let c2 = base64_url_char((b1 % 16) * 4 + b2 / 64);
        let c3 = base64_url_char(b2 % 64);
        if bytes.len() == 1 {
            seq![c0, c1]
        } else if bytes.len() == 2 {
            seq![c0, c1, c2]
        } else {
            seq![c0, c1, c2, c3] + base64_url(bytes.skip(3))
        }
    }
}

/// A hash as Holochain writes it: `u`, then its bytes in URL-safe base64
/// without padding.
pub open spec fn hash_text(raw: Seq<u8>) -> Seq<char> {
    seq!['u'] + base64_url(raw)
}

/// Calls `holochain_serialized_bytes::encode` on a text. Claimed: it returns
/// bytes (the serializer writes into a `Vec`, which does not fail), and where
/// the text's UTF-8 length fits in 32 bits those bytes are `serialized_text`
/// of the text. Longer texts get a length header cut to 32 bits (`len as u32`
/// in rmp's `write_str`); nothing is claimed of their bytes.
#[verifier::external_body]
fn serialize_text(text: &str) -> (r: Result<Vec<u8>, SerializedBytesError>)
    ensures
        r is Ok,
        r matches Ok(bytes) ==> (encode_utf8(text@).len() < 4294967296 ==> bytes@ == serialized_text(text@)),
{
    hdk::prelude::holochain_serialized_bytes::encode(&text)
}

/// Calls `holo_hash::holo_hash_encode` on a byte string. Claimed: the text is
/// `hash_text` of the bytes (`u`, then URL-safe base64 without padding).
#[verifier::external_body]
fn encode_hash(raw: &[u8]) -> (text: String)
    ensures
        text@ == hash_text(raw@),
{
    holo_hash::holo_hash_encode(raw)
}

/// The link tag made from a text: the text, serialized.
pub fn link_tag(tag: &str) -> (r: Result<Vec<u8>, SerializedBytesError>)
    ensures
        r is Ok,
        encode_utf8(tag@).len() < 4294967296 ==> (r matches Ok(bytes) && bytes@ == serialized_text(tag@)),
{
    serialize_text(tag)
}

/// A text's UTF-8 encoding has at most four bytes per character.
pub proof fn utf8_length_bound(text: Seq<char>)
    ensures
        encode_utf8(text).len() <= 4 * text.len(),
    decreases text.len(),
{
    if text.len() > 0 {
        utf8_length_bound(text.drop_first());
    }
}

/// The tag of the link from a nifty's id entry to the nifty.
pub open spec fn id_to_nifty_text() -> Seq<char> {
    "id -> nifty"@
}

/// The tag of the link from a nifty's id entry to the nifty, serialized.
pub fn id_to_nifty_tag() -> (r: Result<Vec<u8>, SerializedBytesError>)
    ensures
        r matches Ok(bytes) && bytes@ == serialized_text(id_to_nifty_text()),
{
    let r = link_tag("id -> nifty");
    proof {
        reveal_strlit("id -> nifty");
        utf8_length_bound(id_to_nifty_text());
    }
    r
}

/// The tag argument of a plan, as contracts speak of it: `None` where the tag
/// could not be serialized.
pub open spec fn tag_model(tag: &Result<Vec<u8>, SerializedBytesError>) -> Option<Seq<u8>> {
    match tag {
        Ok(bytes) => Some(bytes@),
        Err(_) => None,
    }
}

/// The start of the message of a failed lookup.
pub open spec fn not_found_prefix() -> Seq<char> {
    "No entry was found for hash "@
}

/// The message of a lookup that found nothing for the hash whose text is given.
pub open spec fn not_found_message(text: Seq<char>) -> Seq<char> {
    not_found_prefix() + text
}

/// The message of a lookup that found nothing, built from the hash's text.
pub fn missing_entry_message(text: &str) -> (message: String)
    ensures
        message@ == not_found_message(text@),
{
    let message = String::from_str("No entry was found for hash ");
    message.concat(text)
}

/// The zome's failure when nothing was found for a hash, given by its bytes.
pub fn entry_not_found(raw: &Vec<u8>) -> (failure: Failure)
    ensures
        failure@ == FailureModel::Guest(not_found_message(hash_text(raw@))),
{
    let text = encode_hash(raw.as_slice());
    Failure::Guest(missing_entry_message(text.as_str()))
}

} // verus!
