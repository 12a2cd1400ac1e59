//! Random identifiers and their URL-safe notation.

use base64::engine::general_purpose::URL_SAFE_NO_PAD;
use base64::Engine as _;
use vstd::prelude::*;

use crate::failure::joined;
use crate::failure::PasskeyPluginError;
use crate::text::{is_token, token_char};

verus! {

/// The number of random bytes in an identifier.
pub const IDENTIFIER_BYTES: usize = 24;

/// The character of the URL-safe alphabet that stands for six bits.
pub open spec fn url_safe_symbol(bits: int) -> char {
    if bits < 26 {
        (('A' as int) + bits) as char
    } else if bits < 52 {
        (('a' as int) + bits - 26) as char
    } else if bits < 62 {
        (('0' as int) + bits - 52) as char
    } else if bits == 62 {
        '-'
    } else {
        '_'
    }
}

/// The byte at `i`, zero past the end.
pub open spec fn padded(bytes: Seq<u8>, i: int) -> int {
    if i < bytes.len() {
        bytes[i] as int
    } else {
        0
    }
}

/// The `i`th group of six bits of a byte string, four of them to three bytes.
pub open spec fn six_bits(bytes: Seq<u8>, i: int) -> int {
    let first = i / 4 * 3;
    if i % 4 == 0 {
        padded(bytes, first) / 4
    } else if i % 4 == 1 {
        padded(bytes, first) % 4 * 16 + padded(bytes, first + 1) / 16
    } else if i % 4 == 2 {
        padded(bytes, first + 1) % 16 * 4 + padded(bytes, first + 2) / 64
    } else {
        padded(bytes, first + 2) % 64
    }
}

/// The URL-safe base64 notation of a byte string, without padding.
pub open spec fn url_safe_base64(bytes: Seq<u8>) -> Seq<char> {
    Seq::new(
        ((bytes.len() * 4 + 2) / 3) as nat,
        |i: int| url_safe_symbol(six_bits(bytes, i)),
    )
}

/// The identifier made of a prefix and random bytes.
pub open spec fn identifier(prefix: Seq<char>, bytes: Seq<u8>) -> Seq<char> {
    prefix + url_safe_base64(bytes)
}

/// A text that some choice of random bytes makes an identifier with this prefix.
pub open spec fn is_identifier(prefix: Seq<char>, text: Seq<char>) -> bool {
    exists|bytes: Seq<u8>|
        bytes.len() == IDENTIFIER_BYTES && text == #[trigger] identifier(prefix, bytes)
}

/// Encodes bytes with `base64`'s `URL_SAFE_NO_PAD` engine: the URL-safe alphabet of RFC 4648,
/// without padding.
#[verifier::external_body]
pub(crate) fn encode_url_safe(bytes: &[u8]) -> (r: String)
    ensures
        r@ == url_safe_base64(bytes@),
{
    URL_SAFE_NO_PAD.encode(bytes)
}

/// Draws bytes from the system's generator with `getrandom::fill`.
///
/// Which bytes come, and whether the generator fails, is up to the system.
#[verifier::external_body]
pub(crate) fn random_bytes(count: usize) -> (r: Result<Vec<u8>, String>)
    ensures
        r matches Ok(bytes) ==> bytes.len() == count,
{
    let mut bytes = vec![0_u8; count];
    getrandom::fill(&mut bytes).map_err(|error| error.to_string())?;
    Ok(bytes)
}

/// A 128-bit value with the version and variant bits of a random UUID.
pub open spec fn is_random_uuid(value: u128) -> bool {
    &&& value / 0x1000_0000_0000_0000_0000 % 16 == 4
    &&& value / 0x4000_0000_0000_0000 % 4 == 2
}

/// Draws a random user handle with `uuid`'s `Uuid::new_v4`, as its 128-bit value.
///
/// The version and variant bits are fixed; which handle comes is up to the system.
#[verifier::external_body]
pub(crate) fn random_user_id() -> (r: u128)
    ensures
        is_random_uuid(r),
{
    uuid::Uuid::new_v4().as_u128()
}

/// The identifier made of `prefix` and `bytes`.
pub fn identifier_of(prefix: &str, bytes: &[u8]) -> (r: String)
    ensures
        r@ == identifier(prefix@, bytes@),
{
    joined(prefix, encode_url_safe(bytes).as_str())
}

/// A fresh identifier; it fails only where the system gives no random bytes.
pub fn random_id(prefix: &str) -> (r: Result<String, PasskeyPluginError>)
    ensures
        match r {
            Ok(id) => is_identifier(prefix@, id@),
            Err(error) => error is Random,
        },
{
    match random_bytes(IDENTIFIER_BYTES) {
        Ok(bytes) => {
            let id = identifier_of(prefix, bytes.as_slice());
            assert(id@ == identifier(prefix@, bytes@));
            Ok(id)
        },
        Err(error) => Err(PasskeyPluginError::Random(error)),
    }
}

/// Every generated identifier is a token, and short enough for a request to name it.
pub proof fn identifiers_are_tokens(prefix: Seq<char>, text: Seq<char>)
    requires
        is_token(prefix, 96),
        is_identifier(prefix, text),
    ensures
        is_token(text, 128),
{
    let bytes = choose|bytes: Seq<u8>|
        bytes.len() == IDENTIFIER_BYTES && text == #[trigger] identifier(prefix, bytes);
    let tail = url_safe_base64(bytes);
    assert(tail.len() == 32);
    assert forall|i: int| 0 <= i < text.len() implies token_char(#[trigger] text[i]) by {
        if i < prefix.len() {
            assert(text[i] == prefix[i]);
        } else {
            let j = i - prefix.len();
            assert(text[i] == tail[j]);
            let bits = six_bits(bytes, j);
            assert(0 <= bits < 64);
            assert(tail[j] == url_safe_symbol(bits));
        }
    }
}

/// The URL-safe notation tells byte strings apart.
pub proof fn url_safe_base64_is_injective(a: Seq<u8>, b: Seq<u8>)
    requires
        url_safe_base64(a) == url_safe_base64(b),
    ensures
        a == b,
{
    let x = url_safe_base64(a);
    let y = url_safe_base64(b);
    assert(x.len() == y.len());
    assert(a.len() == b.len());
    assert forall|i: int| 0 <= i < x.len() implies six_bits(a, i) == six_bits(b, i) by {
        assert(x[i] == y[i]);
        assert(x[i] == url_safe_symbol(six_bits(a, i)));
        assert(y[i] == url_safe_symbol(six_bits(b, i)));
        symbols_differ(six_bits(a, i), six_bits(b, i));
    }
    assert forall|k: int| 0 <= k < a.len() implies a[k] == b[k] by {
        let first = k / 3 * 4;
        if k % 3 == 0 {
            assert(six_bits(a, first) == six_bits(b, first));
            assert(six_bits(a, first + 1) == six_bits(b, first + 1));
        } else if k % 3 == 1 {
            assert(six_bits(a, first + 1) == six_bits(b, first + 1));
            assert(six_bits(a, first + 2) == six_bits(b, first + 2));
        } else {
            assert(six_bits(a, first + 2) == six_bits(b, first + 2));
            assert(six_bits(a, first + 3) == six_bits(b, first + 3));
        }
    }
    assert(a =~= b);
}

proof fn symbols_differ(a: int, b: int)
    requires
        0 <= a < 64,
        0 <= b < 64,
        url_safe_symbol(a) == url_safe_symbol(b),
    ensures
        a == b,
{
    assert(url_safe_symbol(a) as int == url_safe_symbol(b) as int);
}

} // verus!
