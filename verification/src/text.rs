//! Text forms of the values that cross the registry interface: hash
//! identifiers (`"sha256:<hex>"`), public keys, signatures and versions.

use vstd::prelude::*;

verus! {

/// Why a text is not a hash identifier.
#[derive(Clone, Copy, Debug, PartialEq, Eq, Structural)]
pub enum HashErrno {
    /// The text is not of the form `<algorithm>:<lower-case hex>`.
    InvalidHash,
    /// The text has that form, but names an algorithm other than `sha256`.
    UnsupportedHashAlgorithm,
}

/// The name of the one supported digest algorithm, `sha256`.
pub open spec fn algorithm_name() -> Seq<char> {
    seq!['s', 'h', 'a', '2', '5', '6']
}

/// The characters `0`-`9` and `a`-`f`.
pub open spec fn is_lower_hex(c: char) -> bool {
    ('0' <= c && c <= '9') || ('a' <= c && c <= 'f')
}

/// The characters `A`-`F`.
pub open spec fn is_upper_hex_letter(c: char) -> bool {
    'A' <= c && c <= 'F'
}

/// `k` is the position of the first colon of `text`.
pub open spec fn first_colon_at(text: Seq<char>, k: int) -> bool {
    &&& 0 <= k < text.len()
    &&& text[k] == ':'
    &&& forall|i: int| 0 <= i < k ==> text[i] != ':'
}

/// A hash identifier: `sha256:` followed by an even number of lower-case
/// hexadecimal digits (possibly none).
pub open spec fn is_hash_text(text: Seq<char>) -> bool {
    &&& text.len() >= 7
    &&& text.subrange(0, 7) == algorithm_name().push(':')
    &&& (text.len() - 7) % 2 == 0
    &&& forall|i: int| 7 <= i < text.len() ==> is_lower_hex(#[trigger] text[i])
}

/// A hash identifier that carries a full SHA-256 digest: 32 bytes, 64 digits.
pub open spec fn is_sha256_text(text: Seq<char>) -> bool {
    is_hash_text(text) && text.len() == 71
}

/// The text has an algorithm part that is not `sha256`, and no upper-case
/// hexadecimal letter after its first colon.
pub open spec fn names_other_algorithm(text: Seq<char>) -> bool {
    exists|k: int|
        {
            &&& #[trigger] first_colon_at(text, k)
            &&& text.subrange(0, k) != algorithm_name()
            &&& forall|i: int| k < i < text.len() ==> !is_upper_hex_letter(text[i])
        }
}

/// The error reported for a text that is not a hash identifier.
pub open spec fn hash_text_error(text: Seq<char>) -> HashErrno {
    if names_other_algorithm(text) {
        HashErrno::UnsupportedHashAlgorithm
    } else {
        HashErrno::InvalidHash
    }
}

/// Whether `PublicKey::from_str` of `warg-crypto` accepts the text.
pub uninterp spec fn is_public_key_text(text: Seq<char>) -> bool;

/// The text that `warg-crypto` shows for the public key that it reads from
/// the text.
pub uninterp spec fn shown_public_key(text: Seq<char>) -> Seq<char>;

/// The text of a public key in the form in which `warg-crypto` shows it.
pub open spec fn is_canonical_key(text: Seq<char>) -> bool {
    is_public_key_text(text) && shown_public_key(text) == text
}

/// Whether `Signature::from_str` of `warg-crypto` accepts the text.
pub uninterp spec fn is_signature_text(text: Seq<char>) -> bool;

/// Whether `semver::Version::parse` accepts the text.
pub uninterp spec fn is_version_text(text: Seq<char>) -> bool;

/// The characters `a`-`z`.
pub open spec fn is_lower_letter(c: char) -> bool {
    'a' <= c && c <= 'z'
}

/// The characters `0`-`9`.
pub open spec fn is_digit(c: char) -> bool {
    '0' <= c && c <= '9'
}

/// A namespace: words in lower case joined by single hyphens, each word a
/// letter followed by letters and digits.
pub open spec fn is_namespace(text: Seq<char>) -> bool {
    &&& text.len() > 0
    &&& text.last() != '-'
    &&& forall|i: int|
        0 <= i < text.len() ==> if i == 0 || text[i - 1] == '-' {
            is_lower_letter(#[trigger] text[i])
        } else {
            is_lower_letter(text[i]) || is_digit(text[i]) || text[i] == '-'
        }
}

/// A package name: a namespace, a colon, and a name of the same form as a
/// namespace.
pub open spec fn is_package_name(text: Seq<char>) -> bool {
    exists|k: int|
        0 <= k < text.len() && #[trigger] text[k] == ':' && is_namespace(text.take(k))
            && is_namespace(text.skip(k + 1))
}

/// `AnyHash::from_str` of `warg-crypto`: it accepts exactly the hash
/// identifiers, and reports an unknown algorithm apart from every other
/// malformation.
#[verifier::external_body]
pub(crate) fn check_hash_text(text: &str) -> (r: Result<(), HashErrno>)
    ensures
        r is Ok <==> is_hash_text(text@),
        r matches Err(e) ==> e == hash_text_error(text@),
{
    match text.parse::<warg_crypto::hash::AnyHash>() {
        Ok(_) => Ok(()),
        Err(warg_crypto::hash::AnyHashError::InvalidHashAlgorithm(_)) => {
            Err(HashErrno::UnsupportedHashAlgorithm)
        },
        Err(_) => Err(HashErrno::InvalidHash),
    }
}

/// `AnyHash::from_str` and the conversion to `Hash<Sha256>` of
/// `warg-crypto`: together they accept exactly the hash identifiers with a
/// 32-byte digest.
#[verifier::external_body]
pub(crate) fn sha256_digest_parses(text: &str) -> (ok: bool)
    ensures
        ok == is_sha256_text(text@),
{
    let hash = text.parse::<warg_crypto::hash::AnyHash>().ok();
    hash.and_then(
        |hash| warg_crypto::hash::Hash::<warg_crypto::hash::Sha256>::try_from(hash).ok(),
    ).is_some()
}

/// `HashAlgorithm::from_str` of `warg-crypto`: it accepts `sha256` and
/// nothing else.
#[verifier::external_body]
pub(crate) fn hash_algorithm_parses(text: &str) -> (ok: bool)
    ensures
        ok == (text@ == algorithm_name()),
{
    text.parse::<warg_crypto::hash::HashAlgorithm>().is_ok()
}

/// `PublicKey::from_str` of `warg-crypto`, and the key shown again as text:
/// the canonical text of the key, where the text is one of a key. The
/// canonical text is read as the same key and shown as itself.
#[verifier::external_body]
pub(crate) fn canonical_public_key(text: &str) -> (r: Option<String>)
    ensures
        r is Some <==> is_public_key_text(text@),
        r matches Some(shown) ==> shown@ == shown_public_key(text@) && is_canonical_key(shown@),
{
    text.parse::<warg_crypto::signing::PublicKey>().ok().map(|key| key.to_string())
}

/// `Signature::from_str` of `warg-crypto`: whether it accepts the text.
#[verifier::external_body]
pub(crate) fn signature_parses(text: &str) -> (ok: bool)
    ensures
        ok == is_signature_text(text@),
{
    text.parse::<warg_crypto::signing::Signature>().is_ok()
}

/// `semver::Version::parse`: whether it accepts the text. A version is
/// shown as the text that it was read from.
#[verifier::external_body]
pub(crate) fn version_parses(text: &str) -> (ok: bool)
    ensures
        ok == is_version_text(text@),
{
    semver::Version::parse(text).is_ok()
}

/// `PackageName::new` of `warg-protocol`: it accepts exactly the package
/// names. It splits the text at its last colon and asks of both parts that
/// they are kebab-case words without upper-case letters.
#[verifier::external_body]
pub(crate) fn package_name_parses(text: &str) -> (ok: bool)
    ensures
        ok == is_package_name(text@),
{
    warg_protocol::registry::PackageName::new(text).is_ok()
}

/// Checks a hash identifier and hands it back.
///
/// Succeeds exactly on the hash identifiers; the copy returned has the same
/// characters as the input. A text whose algorithm part is not `sha256` is
/// reported as `UnsupportedHashAlgorithm`, every other malformed text as
/// `InvalidHash`.
pub fn parse_hash(hash_str: &str) -> (r: Result<String, HashErrno>)
    ensures
        r is Ok <==> is_hash_text(hash_str@),
        r matches Ok(id) ==> id@ == hash_str@,
        r matches Err(e) ==> e == hash_text_error(hash_str@),
{
    match check_hash_text(hash_str) {
        Ok(()) => Ok(hash_str.to_owned()),
        Err(e) => Err(e),
    }
}

/// A hash identifier never names another algorithm, so the two ways in which
/// `parse_hash` fails and the one in which it succeeds exclude one another.
pub proof fn lemma_hash_text_is_not_other_algorithm(text: Seq<char>)
    requires
        is_hash_text(text),
    ensures
        !names_other_algorithm(text),
{
    assert forall|k: int| first_colon_at(text, k) implies text.subrange(0, k)
        == algorithm_name() by {
        let head = text.subrange(0, 7);
        assert(head == algorithm_name().push(':'));
        assert(text[6] == head[6]);
        assert(forall|i: int| 0 <= i < 6 ==> text[i] == #[trigger] head[i]);
        if k < 6 {
            assert(text[k] == head[k]);
        }
        assert(k == 6);
        assert(text.subrange(0, 6) =~= algorithm_name());
    }
}

} // verus!
