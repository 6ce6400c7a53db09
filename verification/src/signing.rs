use hmac::{Hmac, Mac};
use sha2::Sha256;
use vstd::prelude::*;
use vstd::utf8::encode_utf8;


verus! {

/// The bytes that percent-encoding keeps as they are: ASCII letters and
/// digits, `-`, `.`, `_` and `~`.
pub open spec fn is_url_safe_byte(b: u8) -> bool {
    ||| 48 <= b <= 57
    ||| 65 <= b <= 90
    ||| 97 <= b <= 122
    ||| b == 45
    ||| b == 46
    ||| b == 95
    ||| b == 126
}

/// An upper-case hexadecimal digit for `0 <= d < 16`.
pub open spec fn upper_hex_digit(d: int) -> char {
    if d < 10 {
        (d + 48) as char
    } else {
        (d + 55) as char
    }
}

/// A lower-case hexadecimal digit for `0 <= d < 16`.
pub open spec fn lower_hex_digit(d: int) -> char {
    if d < 10 {
        (d + 48) as char
    } else {
        (d + 87) as char
    }
}

/// How one byte is written in percent-encoded text.
pub open spec fn percent_encode_byte(b: u8) -> Seq<char> {
    if is_url_safe_byte(b) {
        seq![b as char]
    } else {
        seq!['%', upper_hex_digit(b as int / 16), upper_hex_digit(b as int % 16)]
    }
}

/// Percent-encoding of a byte string, byte by byte.
pub open spec fn percent_encode(bytes: Seq<u8>) -> Seq<char>
    decreases bytes.len(),
{
    if bytes.len() == 0 {
        Seq::empty()
    } else {
        percent_encode(bytes.drop_last()) + percent_encode_byte(bytes.last())
    }
}

/// Percent-encoding of a text: of the bytes of its UTF-8 encoding.
pub open spec fn url_encoded(s: Seq<char>) -> Seq<char> {
    percent_encode(encode_utf8(s))
}

/// Lower-case hexadecimal text of a byte string, two digits per byte.
pub open spec fn lower_hex(bytes: Seq<u8>) -> Seq<char>
    decreases bytes.len(),
{
    if bytes.len() == 0 {
        Seq::empty()
    } else {
        lower_hex(bytes.drop_last()) + seq![
            lower_hex_digit(bytes.last() as int / 16),
            lower_hex_digit(bytes.last() as int % 16),
        ]
    }
}

/// The HMAC-SHA256 tag of `message` under `key`, as the `hmac` and `sha2`
/// crates compute it.
pub uninterp spec fn hmac_sha256_tag(key: Seq<u8>, message: Seq<u8>) -> Seq<u8>;

/// `urlencoding::encode`: percent-encodes every byte of the UTF-8 encoding
/// except ASCII alphanumerics and `-`, `.`, `_`, `~`; the escapes use
/// upper-case hexadecimal digits.
#[verifier::external_body]
pub(crate) fn url_encode(s: &str) -> (res: String)
    ensures
        res@ == url_encoded(s@),
{
    urlencoding::encode(s).into_owned()
}

/// `hex::encode`: two lower-case hexadecimal digits per byte, in order.
#[verifier::external_body]
fn hex_encode(bytes: &[u8]) -> (res: String)
    ensures
        res@ == lower_hex(bytes@),
{
    hex::encode(bytes)
}

/// The error type of `Mac::new_from_slice` in the `hmac` crate.
#[verifier::external_type_specification]
#[verifier::external_body]
pub struct ExInvalidLength(hmac::digest::InvalidLength);

/// `Hmac::<Sha256>::new_from_slice`, then `update` and `finalize`: the
/// HMAC-SHA256 tag of `message` under `key`, 32 bytes long (the output size
/// of SHA-256). The `hmac` crate accepts keys of any length for HMAC (longer
/// keys are hashed first), so the key step never fails.
#[verifier::external_body]
fn hmac_sha256(key: &[u8], message: &[u8]) -> (res: Result<Vec<u8>, hmac::digest::InvalidLength>)
    ensures
        res is Ok,
        res matches Ok(tag) ==> tag@ == hmac_sha256_tag(key@, message@) && tag@.len() == 32,
{
    match Hmac::<Sha256>::new_from_slice(key) {
        Ok(mut mac) => {
            mac.update(message);
            Ok(mac.finalize().into_bytes().to_vec())
        },
        Err(e) => Err(e),
    }
}

/// A request parameter as text: its name and its (not yet encoded) value.
pub open spec fn param_view(p: (String, String)) -> (Seq<char>, Seq<char>) {
    (p.0@, p.1@)
}

/// The parameters of a request as text.
pub open spec fn params_view(ps: Seq<(String, String)>) -> Seq<(Seq<char>, Seq<char>)> {
    ps.map_values(|p: (String, String)| param_view(p))
}

/// `name=value` with the value percent-encoded.
pub open spec fn query_pair(p: (Seq<char>, Seq<char>)) -> Seq<char> {
    p.0 + seq!['='] + url_encoded(p.1)
}

/// The query string that is signed: the encoded pairs joined by `&`.
pub open spec fn query_string(ps: Seq<(Seq<char>, Seq<char>)>) -> Seq<char>
    decreases ps.len(),
{
    if ps.len() == 0 {
        Seq::empty()
    } else if ps.len() == 1 {
        query_pair(ps[0])
    } else {
        query_string(ps.drop_last()) + seq!['&'] + query_pair(ps.last())
    }
}

/// The signature of a request: the lower-case hex of the HMAC-SHA256 tag of
/// the query string's UTF-8 bytes under the secret's UTF-8 bytes.
pub open spec fn signature(secret: Seq<char>, ps: Seq<(Seq<char>, Seq<char>)>) -> Seq<char> {
    lower_hex(hmac_sha256_tag(encode_utf8(secret), encode_utf8(query_string(ps))))
}

/// Signs `params` with `secret` (see [`signature`]).
pub fn sign_params(secret: &str, params: &[(String, String)]) -> (res: Result<String, SigningError>)
    ensures
        res is Ok,
        res matches Ok(sig) ==> sig@ == signature(secret@, params_view(params@)) && sig@.len() == 64,
{
    let mut query = String::new();
    let n = params.len();
    let ghost ps = params_view(params@);
    for i in 0..n
        invariant
            n == params@.len(),
            ps == params_view(params@),
            query@ == query_string(ps.take(i as int)),
    {
        let ghost before = query@;
        if i > 0 {
            query.push('&');
        }
        query.append(params[i].0.as_str());
        query.push('=');
        let encoded = url_encode(params[i].1.as_str());
        query.append(encoded.as_str());
        proof {
            assert(ps.take(i + 1).drop_last() =~= ps.take(i as int));
            assert(ps[i as int] == param_view(params@[i as int]));
            if i == 0 {
                assert(query@ =~= query_pair(ps[0]));
            } else {
                assert(query@ =~= before + seq!['&'] + query_pair(ps[i as int]));
            }
            assert(query@ =~= query_string(ps.take(i + 1)));
        }
    }
    assert(ps.take(n as int) =~= ps);
    match hmac_sha256(secret.as_bytes(), query.as_str().as_bytes()) {
        Ok(tag) => {
            let sig = hex_encode(tag.as_slice());
            proof {
                lemma_lower_hex_len(tag@);
            }
            Ok(sig)
        },
        Err(_) => Err(SigningError::InvalidKey),
    }
}

/// Hexadecimal text has two digits per byte.
pub proof fn lemma_lower_hex_len(bytes: Seq<u8>)
    ensures
        lower_hex(bytes).len() == 2 * bytes.len(),
    decreases bytes.len(),
{
    if bytes.len() > 0 {
        lemma_lower_hex_len(bytes.drop_last());
    }
}

/// Why a request could not be signed.
#[derive(Debug, PartialEq, Eq, Structural)]
pub enum SigningError {
    /// The HMAC key was refused.
    InvalidKey,
}

} // verus!
