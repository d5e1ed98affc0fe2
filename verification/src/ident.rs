//! Identifiers and digests the library takes from outside crates: the text of a UUID
//! (`uuid`), SHA-256 (`sha2`) and HMAC-SHA256 (`hmac`).

use vstd::arithmetic::power::pow;
use hmac::Mac;
use sha2::Digest;
use vstd::prelude::*;

use crate::text::hex_char;

verus! {

/// Nibble `k` of `id`, counting from the most significant (`0 <= k < 32`).
pub open spec fn uuid_nibble(id: u128, k: int) -> int {
    ((id as int) / pow(16, (31 - k) as nat)) % 16
}

/// How many hyphens precede position `p` of the hyphenated form.
pub open spec fn hyphens_before(p: int) -> int {
    if p < 9 { 0 } else if p < 14 { 1 } else if p < 19 { 2 } else if p < 24 { 3 } else { 4 }
}

/// The hyphenated lowercase form of a UUID, `xxxxxxxx-xxxx-xxxx-xxxx-xxxxxxxxxxxx`, with
/// the 128-bit value's most significant nibble first.
pub open spec fn uuid_text(id: u128) -> Seq<char> {
    Seq::new(
        36,
        |p: int|
            if p == 8 || p == 13 || p == 18 || p == 23 {
                '-'
            } else {
                hex_char(uuid_nibble(id, p - hyphens_before(p)))
            },
    )
}

proof fn lemma_pow16_step(j: nat)
    ensures
        pow(16, j + 1) == 16 * pow(16, j),
        pow(16, j) > 0,
{
    reveal(pow);
    vstd::arithmetic::power::lemma_pow_positive(16, j);
}

proof fn lemma_pow16_top()
    ensures
        pow(16, 32) == 0x1_0000_0000_0000_0000_0000_0000_0000_0000,
{
    reveal_with_fuel(pow, 33);
}

/// Equal nibbles from position `31 - j` down give equal quotients by `16^j`.
proof fn lemma_quotients_agree(a: u128, b: u128, j: nat)
    requires
        j <= 32,
        forall|k: int| 0 <= k < 32 ==> #[trigger] uuid_nibble(a, k) == uuid_nibble(b, k),
    ensures
        (a as int) / pow(16, j) == (b as int) / pow(16, j),
    decreases 32 - j,
{
    lemma_pow16_step(j);
    if j == 32 {
        lemma_pow16_top();
        vstd::arithmetic::div_mod::lemma_basic_div(a as int, pow(16, 32));
        vstd::arithmetic::div_mod::lemma_basic_div(b as int, pow(16, 32));
    } else {
        lemma_quotients_agree(a, b, j + 1);
        let p = pow(16, j);
        vstd::arithmetic::div_mod::lemma_div_denominator(a as int, p, 16);
        vstd::arithmetic::div_mod::lemma_div_denominator(b as int, p, 16);
        assert(p * 16 == pow(16, j + 1)) by (nonlinear_arith)
            requires
                pow(16, j + 1) == 16 * p;
        let qa = (a as int) / p;
        let qb = (b as int) / p;
        vstd::arithmetic::div_mod::lemma_fundamental_div_mod(qa, 16);
        vstd::arithmetic::div_mod::lemma_fundamental_div_mod(qb, 16);
        assert(uuid_nibble(a, 31 - j) == qa % 16);
        assert(uuid_nibble(b, 31 - j) == qb % 16);
    }
}

proof fn lemma_hex_char_injective(x: int, y: int)
    requires
        0 <= x < 16,
        0 <= y < 16,
        hex_char(x) == hex_char(y),
    ensures
        x == y,
{
}

/// Distinct identifiers are written differently.
pub proof fn lemma_uuid_text_injective(a: u128, b: u128)
    requires
        uuid_text(a) == uuid_text(b),
    ensures
        a == b,
{
    assert forall|k: int| 0 <= k < 32 implies #[trigger] uuid_nibble(a, k) == uuid_nibble(b, k) by {
        let p = if k < 8 { k } else if k < 12 { k + 1 } else if k < 16 { k + 2 } else if k < 20 { k + 3 } else { k + 4 };
        assert(p - hyphens_before(p) == k);
        assert(0 <= p < 36 && p != 8 && p != 13 && p != 18 && p != 23);
        assert(uuid_text(a)[p] == hex_char(uuid_nibble(a, k)));
        assert(uuid_text(b)[p] == hex_char(uuid_nibble(b, k)));
        lemma_pow16_step((31 - k) as nat);
        vstd::arithmetic::div_mod::lemma_mod_bound((a as int) / pow(16, (31 - k) as nat), 16);
        vstd::arithmetic::div_mod::lemma_mod_bound((b as int) / pow(16, (31 - k) as nat), 16);
        lemma_hex_char_injective(uuid_nibble(a, k), uuid_nibble(b, k));
    }
    lemma_quotients_agree(a, b, 0);
    lemma_pow16_step(0);
    assert(pow(16, 0) == 1) by {
        reveal(pow);
    }
}

/// `uuid::Uuid::from_u128(id).to_string()`. The crate's `Display` writes the hyphenated
/// lowercase form of the big-endian bytes of `id`; the contract states exactly that.
#[verifier::external_body]
pub(crate) fn uuid_string(id: u128) -> (s: String)
    ensures
        s@ == uuid_text(id),
{
    uuid::Uuid::from_u128(id).to_string()
}

/// The simple form of a UUID: its 32 lowercase hex digits, most significant first.
pub open spec fn uuid_simple_text(id: u128) -> Seq<char> {
    Seq::new(32, |k: int| hex_char(uuid_nibble(id, k)))
}

/// `uuid::Uuid::from_u128(id).simple().to_string()`: the crate writes the 32 lowercase
/// hex digits of the big-endian bytes of `id`, which the contract states exactly.
#[verifier::external_body]
pub(crate) fn uuid_simple_string(id: u128) -> (s: String)
    ensures
        s@ == uuid_simple_text(id),
{
    uuid::Uuid::from_u128(id).simple().to_string()
}

/// A version-4 UUID of the RFC variant: its 13th hex digit is `4`, and its 17th is one of
/// `8`, `9`, `a` and `b`.
pub open spec fn is_v4(id: u128) -> bool {
    uuid_nibble(id, 12) == 4 && 8 <= uuid_nibble(id, 16) <= 11
}

/// `uuid::Uuid::new_v4()`, as its 128-bit value. It is random; the crate masks in the
/// version and variant bits, which is all that is promised of the value.
#[verifier::external_body]
pub(crate) fn random_uuid() -> (id: u128)
    ensures
        is_v4(id),
{
    uuid::Uuid::new_v4().as_u128()
}

/// The SHA-256 digest of `bytes`.
pub uninterp spec fn sha256_digest(bytes: Seq<u8>) -> Seq<u8>;

/// `sha2::Sha256::digest`: a function of the input bytes alone, named rather than
/// written out, and always 32 bytes long.
#[verifier::external_body]
pub(crate) fn sha256(bytes: &[u8]) -> (d: Vec<u8>)
    ensures
        d@ == sha256_digest(bytes@),
        d@.len() == 32,
{
    sha2::Sha256::digest(bytes).to_vec()
}

/// The HMAC-SHA256 tag of `message` under `key`.
pub uninterp spec fn hmac_sha256_tag(key: Seq<u8>, message: Seq<u8>) -> Seq<u8>;

/// `hmac`: `Hmac::<Sha256>::new_from_slice(key)` (which accepts a key of any length),
/// updated with `message`, then `Mac::verify_slice(tag)`. The crate compares the whole
/// computed tag in constant time and refuses a tag of any other length, so the answer is
/// whether `tag` is exactly the tag; the tag itself is named rather than written out.
#[verifier::external_body]
pub(crate) fn hmac_sha256_verify(key: &[u8], message: &[u8], tag: &[u8]) -> (ok: bool)
    ensures
        ok == (tag@ == hmac_sha256_tag(key@, message@)),
{
    match hmac::Hmac::<sha2::Sha256>::new_from_slice(key) {
        Ok(mut mac) => {
            mac.update(message);
            mac.verify_slice(tag).is_ok()
        },
        Err(_) => false,
    }
}

/// The 128-bit value of a UUID written in one of the forms `uuid::Uuid::parse_str`
/// accepts, or `None` when the text is not a UUID.
pub uninterp spec fn uuid_parsed(text: Seq<char>) -> Option<u128>;

/// `uuid::Uuid::parse_str(text)`, read as its 128-bit value. The accepted forms (simple,
/// hyphenated, braced, URN) are the crate's; its result is named rather than written out,
/// and depends on the text alone.
#[verifier::external_body]
pub(crate) fn parse_uuid(text: &str) -> (r: Option<u128>)
    ensures
        r == uuid_parsed(text@),
{
    match uuid::Uuid::parse_str(text) {
        Ok(id) => Some(id.as_u128()),
        Err(_) => None,
    }
}

} // verus!
