//! The values of the `Authorization` header: Basic for a personal access
//! token, Bearer for an OAuth access token.

use vstd::prelude::*;
use vstd::string::*;

verus! {

/// The Base64 encoding of a byte sequence in the standard alphabet, with
/// padding, as the `base64` crate's `STANDARD` engine produces it.
pub uninterp spec fn base64_standard(bytes: Seq<u8>) -> Seq<char>;

/// Whether the Base64 text of `len` bytes has a length that a `usize`
/// holds.
pub open spec fn base64_fits(len: nat) -> bool {
    (len / 3) * 4 + (if len % 3 == 0 {
        0int
    } else {
        4int
    }) <= usize::MAX
}

/// The bytes that a token's Basic credentials encode: an empty user name,
/// a colon, and the token in UTF-8.
pub open spec fn basic_credentials(pat: Seq<char>) -> Seq<u8> {
    seq![0x3Au8] + vstd::utf8::encode_utf8(pat)
}

/// The Basic header value of a token.
pub open spec fn basic_header(pat: Seq<char>) -> Seq<char> {
    "Basic "@ + base64_standard(basic_credentials(pat))
}

/// The Bearer header value of an access token.
pub open spec fn bearer_header(token: Seq<char>) -> Seq<char> {
    "Bearer "@ + token
}

/// `Engine::encode` of the `base64` crate, on its `STANDARD` engine: the
/// text is the standard Base64 encoding of the bytes. The call panics
/// where the length of that text overflows `usize`, which `requires` rules
/// out.
#[verifier::external_body]
fn base64_encode(bytes: &Vec<u8>) -> (text: String)
    requires
        base64_fits(bytes@.len()),
    ensures
        text@ == base64_standard(bytes@),
{
    base64::Engine::encode(&base64::engine::general_purpose::STANDARD, bytes)
}

/// Whether the Base64 text of `len` bytes fits.
fn fits_base64(len: usize) -> (fits: bool)
    ensures
        fits == base64_fits(len as nat),
{
    let groups = len / 3;
    if groups > usize::MAX / 4 {
        return false;
    }
    let whole = groups * 4;
    len % 3 == 0 || whole <= usize::MAX - 4
}

/// The bytes of a token's Basic credentials.
fn credentials_of(pat: &str) -> (bytes: Vec<u8>)
    ensures
        bytes@ == basic_credentials(pat@),
{
    let mut bytes: Vec<u8> = Vec::new();
    bytes.push(0x3Au8);
    let mut token = pat.as_bytes_vec();
    bytes.append(&mut token);
    assert(bytes@ =~= basic_credentials(pat@));
    bytes
}

/// The Basic header value around the Base64 text of the credentials:
/// `Basic`, a space, and the text.
pub fn basic_header_around(encoded: &str) -> (header: String)
    ensures
        header@ == "Basic "@ + encoded@,
{
    let mut header = String::from_str("Basic ");
    header.append(encoded);
    header
}

/// The value of the `Authorization` header for a personal access token:
/// `Basic`, a space, and the Base64 text of a colon followed by the token.
///
/// Any token is encodable; the one limit is the machine's, on the length
/// of the encoded text.
pub fn basic_auth_header_for_pat(pat: &str) -> (header: String)
    requires
        base64_fits(basic_credentials(pat@).len()),
    ensures
        header@ == basic_header(pat@),
{
    let bytes = credentials_of(pat);
    let encoded = base64_encode(&bytes);
    basic_header_around(encoded.as_str())
}

/// The value of the `Authorization` header for a personal access token,
/// or `None` where the encoded text would not fit in memory.
pub fn checked_basic_auth_header(pat: &str) -> (header: Option<String>)
    ensures
        base64_fits(basic_credentials(pat@).len()) ==> header is Some && header->0@ == basic_header(
            pat@,
        ),
        !base64_fits(basic_credentials(pat@).len()) ==> header is None,
{
    let bytes = credentials_of(pat);
    if fits_base64(bytes.len()) {
        let encoded = base64_encode(&bytes);
        Some(basic_header_around(encoded.as_str()))
    } else {
        None
    }
}

/// The value of the `Authorization` header for an OAuth access token:
/// `Bearer`, a space, and the token.
pub fn bearer_auth_header(token: &str) -> (header: String)
    ensures
        header@ == bearer_header(token@),
{
    let mut header = String::from_str("Bearer ");
    header.append(token);
    header
}

/// The UTF-8 encoding of a text has at most four bytes for each character.
proof fn lemma_utf8_len(text: Seq<char>)
    ensures
        vstd::utf8::encode_utf8(text).len() <= 4 * text.len(),
    decreases text.len(),
{
    if text.len() > 0 {
        lemma_utf8_len(text.drop_first());
    }
}

/// The machine's limit is far away: every token of up to 2^27 characters
/// can be encoded.
pub proof fn law_tokens_fit(pat: Seq<char>)
    requires
        pat.len() <= 0x0800_0000,
    ensures
        base64_fits(basic_credentials(pat).len()),
{
    lemma_utf8_len(pat);
}

} // verus!
