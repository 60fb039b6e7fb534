use vstd::prelude::*;

use vstd::utf8::{decode_utf8, valid_utf8};

verus! {

/// The text whose characters are the bytes of `bytes`, one for one (the
/// "binary string" that `btoa` encodes).
pub open spec fn binary_text(bytes: Seq<u8>) -> Seq<char> {
    bytes.map_values(|b: u8| b as char)
}

/// The bytes whose values are the low eight bits of the characters of `s`.
pub open spec fn low_bytes(s: Seq<char>) -> Seq<u8> {
    s.map_values(|c: char| c as u8)
}

/// The message that `String::from_utf8`'s error displays for `bytes`, which
/// tells where the first invalid sequence starts.
pub uninterp spec fn utf8_error_text(bytes: Seq<u8>) -> Seq<char>;

/// `String::from_utf8`, its error displayed: the text that `bytes` encode in
/// UTF-8 when they are valid UTF-8, else the error's message.
#[verifier::external_body]
fn string_from_utf8(bytes: Vec<u8>) -> (r: Result<String, String>)
    ensures
        r is Ok <==> valid_utf8(bytes@),
        r matches Ok(s) ==> s@ == decode_utf8(bytes@),
        r matches Err(m) ==> m@ == utf8_error_text(bytes@),
{
    String::from_utf8(bytes).map_err(|e| e.to_string())
}

/// The binary string of `bytes`: one character for each byte, with the
/// byte's value.
pub fn binary_string(bytes: &[u8]) -> (s: String)
    ensures
        s@ == binary_text(bytes@),
{
    let mut s = String::new();
    let mut k: usize = 0;
    while k < bytes.len()
        invariant
            k <= bytes@.len(),
            s@ == binary_text(bytes@.subrange(0, k as int)),
        decreases bytes.len() - k,
    {
        let b = bytes[k];
        crate::text::push_char(&mut s, b as char);
        k = k + 1;
        assert(s@ =~= binary_text(bytes@.subrange(0, k as int)));
    }
    assert(bytes@.subrange(0, bytes@.len() as int) =~= bytes@);
    s
}

/// The bytes of a binary string: the low eight bits of each character.
pub fn binary_bytes(binary: &str) -> (bytes: Vec<u8>)
    ensures
        bytes@ == low_bytes(binary@),
{
    let chars = crate::text::chars_of(binary);
    let mut bytes: Vec<u8> = Vec::new();
    let mut k: usize = 0;
    while k < chars.len()
        invariant
            chars@ == binary@,
            k <= chars@.len(),
            bytes@ == low_bytes(chars@.subrange(0, k as int)),
        decreases chars.len() - k,
    {
        let c = chars[k];
        bytes.push(#[verifier::truncate] (c as u8));
        k = k + 1;
        assert(bytes@ =~= low_bytes(chars@.subrange(0, k as int)));
    }
    assert(chars@.subrange(0, chars@.len() as int) =~= chars@);
    bytes
}

/// Reading back the binary string of some bytes gives those bytes.
pub proof fn law_binary_string_round_trip(bytes: Seq<u8>)
    ensures
        low_bytes(binary_text(bytes)) == bytes,
{
    assert forall|i: int| 0 <= i < bytes.len() implies #[trigger] low_bytes(binary_text(bytes))[i]
        == bytes[i] by {
        let b = bytes[i];
        assert((b as char) as u8 == b);
    }
    assert(low_bytes(binary_text(bytes)) =~= bytes);
}

/// Checks the plaintext of a message to encrypt: an empty one is refused.
pub fn require_plaintext(plaintext: &str) -> (r: Result<(), String>)
    ensures
        r is Ok <==> plaintext@.len() != 0,
        r matches Err(m) ==> m@ == "Empty message"@,
{
    if plaintext.is_empty() {
        return Err(String::from_str("Empty message"));
    }
    Ok(())
}

/// The text that decryption produced, read as UTF-8: the text when the bytes
/// are valid UTF-8, else the message that says where they are not.
pub fn decrypted_text(bytes: Vec<u8>) -> (r: Result<String, String>)
    ensures
        r is Ok <==> valid_utf8(bytes@),
        r matches Ok(s) ==> s@ == decode_utf8(bytes@),
        r matches Err(m) ==> m@ == utf8_error_text(bytes@),
{
    string_from_utf8(bytes)
}

} // verus!
