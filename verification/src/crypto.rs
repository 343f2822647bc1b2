//! Message signatures: lowercase-hex HMAC-SHA256 over the four payload frames.

use hmac::Mac;
use vstd::prelude::*;
use vstd::string::StringSliceAdditionalSpecFns;

verus! {

/// The HMAC-SHA256 tag of `message` under `key`, as the `hmac` and `sha2`
/// crates compute it.
pub uninterp spec fn hmac_sha256(key: Seq<u8>, message: Seq<u8>) -> Seq<u8>;

/// The lowercase hex digit of a value below sixteen.
pub open spec fn hex_digit(n: int) -> char {
    if n == 0 {
        '0'
    } else if n == 1 {
        '1'
    } else if n == 2 {
        '2'
    } else if n == 3 {
        '3'
    } else if n == 4 {
        '4'
    } else if n == 5 {
        '5'
    } else if n == 6 {
        '6'
    } else if n == 7 {
        '7'
    } else if n == 8 {
        '8'
    } else if n == 9 {
        '9'
    } else if n == 10 {
        'a'
    } else if n == 11 {
        'b'
    } else if n == 12 {
        'c'
    } else if n == 13 {
        'd'
    } else if n == 14 {
        'e'
    } else {
        'f'
    }
}

/// Two lowercase hex digits per byte, high nibble first.
pub open spec fn hex_lower(data: Seq<u8>) -> Seq<char> {
    Seq::new(
        2 * data.len(),
        |i: int|
            if i % 2 == 0 {
                hex_digit(data[i / 2] as int / 16)
            } else {
                hex_digit(data[i / 2] as int % 16)
            },
    )
}

/// The bytes that the four payload frames are signed as: their concatenation
/// in wire order.
pub open spec fn signed_bytes(
    header: Seq<u8>,
    parent_header: Seq<u8>,
    metadata: Seq<u8>,
    content: Seq<u8>,
) -> Seq<u8> {
    header + parent_header + metadata + content
}

/// The signature text of a payload: empty without a key, else the hex of the
/// HMAC tag.
pub open spec fn signature(
    key: Seq<u8>,
    header: Seq<u8>,
    parent_header: Seq<u8>,
    metadata: Seq<u8>,
    content: Seq<u8>,
) -> Seq<char> {
    if key.len() == 0 {
        Seq::empty()
    } else {
        hex_lower(hmac_sha256(key, signed_bytes(header, parent_header, metadata, content)))
    }
}

/// The signature text as the bytes of its frame.
pub open spec fn signature_frame(
    key: Seq<u8>,
    header: Seq<u8>,
    parent_header: Seq<u8>,
    metadata: Seq<u8>,
    content: Seq<u8>,
) -> Seq<u8> {
    signature(key, header, parent_header, metadata, content).map_values(|c: char| c as u8)
}

/// Trusted: `Hmac::<Sha256>::new_from_slice`, `update` and `finalize` of the
/// `hmac` crate. The tag is a function of key and message alone; keys of any
/// length are accepted, so the call does not fail. The tag has the output
/// size of SHA-256, which `sha2` fixes at 32 bytes.
#[verifier::external_body]
fn hmac_sha256_tag(key: &[u8], message: &[u8]) -> (tag: Vec<u8>)
    ensures
        tag@ == hmac_sha256(key@, message@),
        tag@.len() == 32,
{
    let mut mac = hmac::Hmac::<sha2::Sha256>::new_from_slice(key).expect("HMAC key error");
    mac.update(message);
    mac.finalize().into_bytes().to_vec()
}

/// Trusted: `hex::encode`, which writes each byte as two digits from the
/// table `0123456789abcdef`, high nibble first.
#[verifier::external_body]
pub(crate) fn hex_encode(data: &[u8]) -> (text: String)
    ensures
        text@ == hex_lower(data@),
{
    hex::encode(data)
}

/// Appends a copy of `src` to `dst`.
pub fn append_bytes(dst: &mut Vec<u8>, src: &[u8])
    ensures
        final(dst)@ == old(dst)@ + src@,
{
    let mut i: usize = 0;
    while i < src.len()
        invariant
            i <= src.len(),
            dst@ == old(dst)@ + src@.subrange(0, i as int),
        decreases src.len() - i,
    {
        dst.push(src[i]);
        i += 1;
        assert(dst@ =~= old(dst)@ + src@.subrange(0, i as int));
    }
    assert(src@.subrange(0, src@.len() as int) =~= src@);
}

/// Hex text is ASCII, so a signature occupies one byte per digit.
pub proof fn lemma_hex_lower_is_ascii(data: Seq<u8>)
    ensures
        vstd::utf8::is_ascii_chars(hex_lower(data)),
        vstd::utf8::encode_utf8(hex_lower(data)) == hex_lower(data).map_values(|c: char| c as u8),
{
    let h = hex_lower(data);
    assert(vstd::utf8::is_ascii_chars(h));
    vstd::utf8::is_ascii_chars_encode_utf8(h);
    assert(vstd::utf8::encode_utf8(h) =~= h.map_values(|c: char| c as u8));
}

/// Signs the four payload frames. Without a key the signature is empty;
/// the scheme name does not change the result.
pub fn sign_message(
    key: &str,
    signature_scheme: &str,
    header: &[u8],
    parent_header: &[u8],
    metadata: &[u8],
    content: &[u8],
) -> (sig: String)
    ensures
        sig@ == signature(key.spec_bytes(), header@, parent_header@, metadata@, content@),
        vstd::utf8::encode_utf8(sig@) == signature_frame(
            key.spec_bytes(),
            header@,
            parent_header@,
            metadata@,
            content@,
        ),
        sig@.len() == if key.spec_bytes().len() == 0 {
            0int
        } else {
            64int
        },
{
    let key_bytes = key.as_bytes();
    if key_bytes.len() == 0 {
        let sig = String::new();
        proof {
            assert(vstd::utf8::is_ascii_chars(sig@));
            vstd::utf8::is_ascii_chars_encode_utf8(sig@);
            assert(vstd::utf8::encode_utf8(sig@) =~= sig@.map_values(|c: char| c as u8));
        }
        return sig;
    }
    let mut message: Vec<u8> = Vec::new();
    append_bytes(&mut message, header);
    append_bytes(&mut message, parent_header);
    append_bytes(&mut message, metadata);
    append_bytes(&mut message, content);
    assert(message@ =~= signed_bytes(header@, parent_header@, metadata@, content@));
    let tag = hmac_sha256_tag(key_bytes, message.as_slice());
    let sig = hex_encode(tag.as_slice());
    proof {
        lemma_hex_lower_is_ascii(tag@);
    }
    sig
}

/// Under one key, the same four byte strings always get the same signature:
/// two answers of `sign_message` to the same question are equal.
pub proof fn law_signature_repeats(
    key: Seq<u8>,
    header: Seq<u8>,
    parent_header: Seq<u8>,
    metadata: Seq<u8>,
    content: Seq<u8>,
    first: Seq<char>,
    second: Seq<char>,
)
    requires
        first == signature(key, header, parent_header, metadata, content),
        second == signature(key, header, parent_header, metadata, content),
    ensures
        first == second,
{
}

} // verus!
