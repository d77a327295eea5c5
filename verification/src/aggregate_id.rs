use vstd::prelude::*;
use rand::RngCore;
use base64::Engine;

verus! {

/// The character of a six-bit value in the URL-safe base64 alphabet:
/// `A`-`Z`, `a`-`z`, `0`-`9`, `-`, `_`.
pub open spec fn url_safe_base64_char(v: int) -> char {
    if v < 26 {
        (v + 65) as char
    } else if v < 52 {
        (v - 26 + 97) as char
    } else if v < 62 {
        (v - 52 + 48) as char
    } else if v == 62 {
        '-'
    } else {
        '_'
    }
}

/// The unpadded URL-safe base64 text of some bytes: every three bytes become
/// four characters of six bits each; a last single byte becomes two
/// characters and a last pair of bytes three, without padding.
pub open spec fn base64_url_safe_no_pad(b: Seq<u8>) -> Seq<char>
    decreases b.len(),
{
    let b0 = if b.len() > 0 { b[0] as int } else { 0 };
    let b1 = if b.len() > 1 { b[1] as int } else { 0 };
    let b2 = if b.len() > 2 { b[2] as int } else { 0 };
    if b.len() == 0 {
        Seq::empty()
    } else if b.len() == 1 {
        seq![url_safe_base64_char(b0 / 4), url_safe_base64_char((b0 % 4) * 16)]
    } else if b.len() == 2 {
        seq![
            url_safe_base64_char(b0 / 4),
            url_safe_base64_char((b0 % 4) * 16 + b1 / 16),
            url_safe_base64_char((b1 % 16) * 4),
        ]
    } else {
        seq![
            url_safe_base64_char(b0 / 4),
            url_safe_base64_char((b0 % 4) * 16 + b1 / 16),
            url_safe_base64_char((b1 % 16) * 4 + b2 / 64),
            url_safe_base64_char(b2 % 64),
        ] + base64_url_safe_no_pad(b.skip(3))
    }
}

/// A character of the URL-safe base64 alphabet.
pub open spec fn is_url_safe_base64_char(c: char) -> bool {
    ('A' <= c && c <= 'Z') || ('a' <= c && c <= 'z') || ('0' <= c && c <= '9') || c == '-' || c == '_'
}

/// Calls `base64::engine::general_purpose::URL_SAFE_NO_PAD.encode` (through
/// `base64::prelude::BASE64_URL_SAFE_NO_PAD`). Trusted: the result is the
/// unpadded URL-safe base64 text of the bytes. The encoder panics only when
/// the length of the text overflows, which the precondition excludes.
#[verifier::external_body]
fn encode_url_safe_no_pad(bytes: &[u8]) -> (r: String)
    requires
        (bytes@.len() / 3) * 4 + 3 <= usize::MAX,
    ensures
        r@ == base64_url_safe_no_pad(bytes@),
{
    base64::prelude::BASE64_URL_SAFE_NO_PAD.encode(bytes)
}

/// Fills four bytes from `rand::rngs::OsRng` with `RngCore::try_fill_bytes`.
/// Trusted only for the number of bytes when the operating system provides
/// them: their values are random, and whether the operating system provides
/// them is not known in advance.
#[verifier::external_body]
fn random_id_bytes() -> (r: Option<Vec<u8>>)
    ensures
        r matches Some(bytes) ==> bytes@.len() == 4,
{
    let mut bytes = vec![0u8; 4];
    match rand::rngs::OsRng.try_fill_bytes(&mut bytes) {
        Ok(()) => Some(bytes),
        Err(_) => None,
    }
}

proof fn lemma_chars_of_values(v: int)
    requires
        0 <= v < 64,
    ensures
        is_url_safe_base64_char(url_safe_base64_char(v)),
{
}

/// The id that four bytes make: their unpadded URL-safe base64 text, six
/// characters of that alphabet.
pub fn aggregate_id_from_bytes(bytes: &[u8]) -> (r: String)
    requires
        bytes@.len() == 4,
    ensures
        r@ == base64_url_safe_no_pad(bytes@),
        r@.len() == 6,
        forall|i: int| 0 <= i < r@.len() ==> is_url_safe_base64_char(#[trigger] r@[i]),
{
    let id = encode_url_safe_no_pad(bytes);
    proof {
        let b = bytes@;
        let rest = b.skip(3);
        let (b0, b1, b2, r0) = (b[0] as int, b[1] as int, b[2] as int, rest[0] as int);
        assert(rest.len() == 1);
        assert(base64_url_safe_no_pad(rest) == seq![
            url_safe_base64_char(r0 / 4),
            url_safe_base64_char((r0 % 4) * 16),
        ]);
        lemma_chars_of_values(b0 / 4);
        lemma_chars_of_values((b0 % 4) * 16 + b1 / 16);
        lemma_chars_of_values((b1 % 16) * 4 + b2 / 64);
        lemma_chars_of_values(b2 % 64);
        lemma_chars_of_values(r0 / 4);
        lemma_chars_of_values((r0 % 4) * 16);
        assert(id@.len() == 6);
        assert forall|i: int| 0 <= i < id@.len() implies is_url_safe_base64_char(#[trigger] id@[i]) by {
            if i >= 4 {
                assert(id@[i] == base64_url_safe_no_pad(rest)[i - 4]);
            }
        }
    }
    id
}

/// A new random id for an element of an aggregate: four random bytes in
/// unpadded URL-safe base64, so six characters of that alphabet; `None` when
/// the operating system provides no random bytes.
pub fn make_random_aggregate_id() -> (r: Option<String>)
    ensures
        r matches Some(id) ==> {
            &&& exists|bytes: Seq<u8>| bytes.len() == 4 && id@ == base64_url_safe_no_pad(bytes)
            &&& id@.len() == 6
            &&& forall|i: int| 0 <= i < id@.len() ==> is_url_safe_base64_char(#[trigger] id@[i])
        },
{
    match random_id_bytes() {
        Some(bytes) => Some(aggregate_id_from_bytes(bytes.as_slice())),
        None => None,
    }
}

} // verus!
