//! The `Basic` value of an HTTP authorization header.

use vstd::prelude::*;
use vstd::utf8::encode_utf8;

verus! {

/// The standard base64 text, with padding, of a sequence of bytes.
pub uninterp spec fn base64_standard(input: Seq<u8>) -> Seq<char>;

/// Whether the base64 text of `len` bytes is short enough to be held in one
/// allocation.
pub open spec fn encodable(len: nat) -> bool {
    len / 3 * 4 + 4 <= isize::MAX
}

/// The header value of the `Basic` scheme around an encoded credential.
pub open spec fn basic_value_of(encoded: Seq<char>) -> Seq<char> {
    "Basic "@ + encoded
}

/// The header value that carries `credential`, the bytes of `user:password`.
pub open spec fn basic_token_of(credential: Seq<u8>) -> Seq<char> {
    basic_value_of(base64_standard(credential))
}

/// Calls `Engine::encode` of the `base64` crate on its `STANDARD` engine.
/// Trusted: the text returned is the standard padded base64 encoding of
/// `input`, a function of the bytes alone. The call panics when the encoded
/// text is too long to compute or to allocate; `encodable` keeps such inputs
/// out.
#[verifier::external_body]
fn encode_standard(input: &[u8]) -> (text: String)
    requires
        encodable(input@.len()),
    ensures
        text@ == base64_standard(input@),
{
    base64::Engine::encode(&base64::engine::general_purpose::STANDARD, input)
}

/// Whether a credential is short enough for `basic_token`.
pub fn can_encode(credential: &str) -> (yes: bool)
    ensures
        yes == encodable(encode_utf8(credential@).len()),
{
    credential.as_bytes().len() / 3 <= (isize::MAX as usize - 4) / 4
}

/// Puts the name of the `Basic` scheme and a space before a credential that
/// is already encoded.
pub fn basic_value(encoded: &str) -> (token: String)
    ensures
        token@ == basic_value_of(encoded@),
{
    let scheme = "Basic ".to_owned();
    scheme.concat(encoded)
}

/// Builds the value of a `Proxy-Authorization` or `Authorization` header for
/// the `Basic` scheme from a credential written as `user:password`.
pub fn basic_token(credential: &str) -> (token: String)
    requires
        encodable(encode_utf8(credential@).len()),
    ensures
        token@ == basic_token_of(encode_utf8(credential@)),
{
    let encoded = encode_standard(credential.as_bytes());
    basic_value(encoded.as_str())
}

} // verus!
