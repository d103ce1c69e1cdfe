use vanity_ssh::keypair::KeyPair;
use vanity_ssh::pattern::{
    extract_base64_from_openssh_string, pattern_matches_token, public_key_matches_pattern,
    Pattern, PatternError,
};

fn pattern(raw: &str) -> Pattern {
    match Pattern::new(String::from(raw)) {
        Ok(p) => p,
        Err(_) => panic!("pattern was rejected"),
    }
}

/// The encoded-key token of a keypair, computed independently of the
/// library through ssh_key itself.
fn token_of(kp: &KeyPair) -> String {
    let ed = ssh_key::public::Ed25519PublicKey::try_from(&kp.public_key[..]).unwrap();
    let line = ssh_key::public::PublicKey::from(ed).to_string();
    String::from(line.split_whitespace().nth(1).unwrap())
}

#[test]
fn plain_string_compiles_to_suffix() {
    let p = pattern("yee");
    assert_eq!(p.render(), "Suffix: yee");
}

#[test]
fn delimited_string_compiles_to_regex() {
    let p = pattern("/ab+/");
    assert_eq!(p.render(), "Regex: ab+");
}

#[test]
fn invalid_regex_is_rejected() {
    let r = Pattern::new(String::from("/(/"));
    assert!(matches!(r, Err(PatternError::InvalidPatternSyntax)));
}

#[test]
fn single_slash_is_a_suffix() {
    let p = pattern("/");
    assert_eq!(p.render(), "Suffix: /");
}

#[test]
fn patterns_compare_by_source_text() {
    assert!(pattern("abc") == pattern("abc"));
    assert!(pattern("abc") != pattern("abd"));
    assert!(pattern("/a+/") == pattern("/a+/"));
    assert!(pattern("/a+/") != pattern("/b+/"));
    assert!(pattern("abc") != pattern("/abc/"));
}

#[test]
fn suffix_match_requires_exact_tail() {
    let ab = pattern("AB");
    assert!(pattern_matches_token("xxxxAB", &ab));
    assert!(!pattern_matches_token("xxxxAC", &ab));
    assert!(!pattern_matches_token("xxxxaB", &ab));
    assert!(pattern_matches_token("AB", &ab));
    assert!(!pattern_matches_token("B", &ab));
}

#[test]
fn regex_searches_the_token() {
    assert!(pattern_matches_token("hello", &pattern("/ell/")));
    assert!(pattern_matches_token("hello", &pattern("/^h.*o$/")));
    assert!(!pattern_matches_token("hello", &pattern("/xyz/")));
}

#[test]
fn matched_key_token_ends_with_suffix() {
    let kp = KeyPair::from_secret([5u8; 32]);
    let token = token_of(&kp);
    let tail = &token[token.len() - 2..];
    assert!(public_key_matches_pattern(&kp, &pattern(tail)));

    let last = token.chars().last().unwrap();
    let near_last = if last == 'A' { 'B' } else { 'A' };
    let near_miss = format!("{}{}", &tail[..1], near_last);
    assert!(!public_key_matches_pattern(&kp, &pattern(&near_miss)));
}

#[test]
fn empty_suffix_matches_every_key() {
    let kp = KeyPair::from_secret([11u8; 32]);
    assert!(public_key_matches_pattern(&kp, &pattern("")));
}

#[test]
fn token_extraction_skips_algorithm_and_comment() {
    assert_eq!(
        extract_base64_from_openssh_string("ssh-ed25519 AAAAC3Nza host@example"),
        "AAAAC3Nza"
    );
    assert_eq!(extract_base64_from_openssh_string("lonely"), "");
}

#[test]
fn probability_is_sixtyfour_to_minus_length() {
    assert_eq!(pattern("AB").probability_exponent(), Some(2));
    assert_eq!(pattern("").probability_exponent(), Some(0));
    assert_eq!(pattern("yee").probability_exponent(), Some(3));
    assert_eq!(pattern("AB").expected_attempts(), Some(4096));
    assert_eq!(pattern("").expected_attempts(), Some(1));
    assert_eq!(pattern("yee").expected_attempts(), Some(262144));
}

#[test]
fn long_suffix_expectation_saturates() {
    let long = "A".repeat(11);
    assert_eq!(pattern(&long).expected_attempts(), Some(u64::MAX));
}

#[test]
fn regex_has_no_probability_and_no_estimate() {
    let p = pattern("/yee/");
    assert_eq!(p.probability_exponent(), None);
    assert_eq!(p.expected_attempts(), None);
    assert_eq!(p.estimate_time(1000), None);
}

#[test]
fn estimate_time_exact_values() {
    let a = pattern("A");
    assert_eq!(a.estimate_time(64), Some(String::from("1s")));
    assert_eq!(a.estimate_time(1), Some(String::from("1m 4s")));
    assert_eq!(pattern("").estimate_time(5), Some(String::from("0s")));
}

#[test]
fn estimate_time_shrinks_with_rate() {
    let abc = pattern("ABC");
    assert_eq!(abc.estimate_time(10), Some(String::from("7h 16m 54s")));
    assert_eq!(abc.estimate_time(100), Some(String::from("43m 41s")));
}

#[test]
fn estimate_time_is_infinite_when_not_representable() {
    assert_eq!(pattern("AB").estimate_time(0), Some(String::from("\u{221e}")));
    let long = "A".repeat(30);
    assert_eq!(pattern(&long).estimate_time(u64::MAX), Some(String::from("\u{221e}")));
}

#[test]
fn wall_clock_filename_has_the_pattern_and_a_timestamp() {
    let name = pattern("ab").to_filename();
    assert!(name.starts_with("ab_"));
    assert!(name.len() > 3);
    assert!(name[3..].chars().all(|c| c.is_ascii_digit()));
}

#[test]
fn filenames_carry_pattern_and_timestamp() {
    assert_eq!(pattern("ab").to_filename_at(42), "ab_42");
    assert_eq!(pattern("/a+b$/").to_filename_at(7), "regex_a_b__7");
    let long = "x".repeat(30);
    let p = pattern(&format!("/{}/", long));
    assert_eq!(p.to_filename_at(1), format!("regex_{}_1", "x".repeat(20)));
}
