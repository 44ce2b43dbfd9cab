use registry_log::text::{parse_hash, HashErrno};

const DIGEST: &str = "sha256:7d38b5cd25a2baf85ad3bb5b9311383e671a8a142eb302b324d4a5fba8748c69";

#[test]
fn parse_hash_hands_back_a_hash_identifier() {
    assert_eq!(parse_hash(DIGEST), Ok(DIGEST.to_string()));
}

#[test]
fn parse_hash_accepts_any_even_number_of_digits() {
    assert_eq!(parse_hash("sha256:"), Ok("sha256:".to_string()));
    assert_eq!(parse_hash("sha256:ab"), Ok("sha256:ab".to_string()));
    assert_eq!(parse_hash("sha256:0123456789abcdef"), Ok("sha256:0123456789abcdef".to_string()));
}

#[test]
fn parse_hash_agrees_with_the_outside_parser() {
    let texts = [
        DIGEST, "sha256:", "sha256:ab", "sha256:a", "sha256:AB", "sha256:zz", "sha256", "",
        ":", "md5:ab", "md5:AB", "md5:a", "sha256:ab:cd", "SHA256:ab", "sha256 :ab", "sha256:\u{e9}",
        "a:b:c", "sha2567:ab",
    ];
    for text in texts {
        let outside = text.parse::<warg_crypto::hash::AnyHash>();
        assert_eq!(parse_hash(text).is_ok(), outside.is_ok(), "{text:?}");
        if let Ok(hash) = outside {
            assert_eq!(parse_hash(text), Ok(hash.to_string()));
        }
    }
}

#[test]
fn parse_hash_rejects_an_odd_number_of_digits() {
    assert_eq!(parse_hash("sha256:0"), Err(HashErrno::InvalidHash));
    assert_eq!(parse_hash("sha256:abc"), Err(HashErrno::InvalidHash));
}

#[test]
fn parse_hash_rejects_upper_case_digits() {
    assert_eq!(parse_hash("sha256:AB"), Err(HashErrno::InvalidHash));
    assert_eq!(
        parse_hash("sha256:7D38B5CD25A2BAF85AD3BB5B9311383E671A8A142EB302B324D4A5FBA8748C69"),
        Err(HashErrno::InvalidHash)
    );
}

#[test]
fn parse_hash_rejects_a_text_without_colon() {
    assert_eq!(parse_hash("sha256"), Err(HashErrno::InvalidHash));
    assert_eq!(parse_hash(""), Err(HashErrno::InvalidHash));
}

#[test]
fn parse_hash_rejects_characters_that_are_no_digits() {
    assert_eq!(parse_hash("sha256:zz"), Err(HashErrno::InvalidHash));
    assert_eq!(parse_hash("sha256:ab:cd"), Err(HashErrno::InvalidHash));
}

#[test]
fn parse_hash_tells_an_unknown_algorithm_apart() {
    assert_eq!(parse_hash("md5:ab"), Err(HashErrno::UnsupportedHashAlgorithm));
    assert_eq!(parse_hash("md5:a"), Err(HashErrno::UnsupportedHashAlgorithm));
    assert_eq!(parse_hash(":"), Err(HashErrno::UnsupportedHashAlgorithm));
    assert_eq!(parse_hash("SHA256:ab"), Err(HashErrno::UnsupportedHashAlgorithm));
}

#[test]
fn parse_hash_reports_upper_case_digits_before_the_algorithm() {
    assert_eq!(parse_hash("md5:AB"), Err(HashErrno::InvalidHash));
}
