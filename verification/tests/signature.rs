use miniaturs::signature::{
    ensure_signature_is_valid_for_path_and_query, make_url_safe_base64_hash, SignatureError,
};

const SECRET: &str = "doyouwanttoknowasecretdoyoupromisenottotellwhoaohoh";
const PATH: &str = "200x-100/https://beachape.com/images/octopress_with_container.png";
// From https://www.liavaag.org/English/SHA-Generator/HMAC/
const EXPECTED_SIGNED_BASE_64: &str = "Y/w4HN8q+yZPkR1N1SMJ9gDlCRk=";

#[test]
fn test_make_url_safe_base64_hash() -> Result<(), SignatureError> {
    let result = make_url_safe_base64_hash(SECRET, PATH)?;
    let expected = EXPECTED_SIGNED_BASE_64.replace("/", "_").replace("+", "-");
    assert_eq!(expected, result);
    Ok(())
}

#[test]
fn test_ensure_signature_is_valid_for_path() -> Result<(), SignatureError> {
    let signature = EXPECTED_SIGNED_BASE_64.replace("/", "_").replace("+", "-");
    let path_with_signature = format!("/{signature}/{PATH}");
    let hashed = make_url_safe_base64_hash(SECRET, &path_with_signature)?;
    ensure_signature_is_valid_for_path_and_query(SECRET, &path_with_signature, &hashed)
}

#[test]
fn signature_is_url_safe_and_padded() {
    let signature = make_url_safe_base64_hash(SECRET, PATH).unwrap();
    assert_eq!("Y_w4HN8q-yZPkR1N1SMJ9gDlCRk=", signature);
    assert_eq!(28, signature.len());
}

#[test]
fn signing_never_hands_the_message_back() {
    let signature = make_url_safe_base64_hash("omgwtfbbq", "100x80/https://beachape.com/images/octopress_with_container.png").unwrap();
    assert_eq!("7jvWwDNbUKAK2V0FFLM1Gt8nBLQ=", signature);
}

#[test]
fn a_signature_passes_for_the_message_it_was_made_for() {
    for (secret, message) in [
        ("", ""),
        ("k", "m"),
        (SECRET, PATH),
        ("a secret that is longer than the sixty-four bytes of one block of the hash function", "x"),
        ("sécret", "päth/☃?q=1"),
    ] {
        let signature = make_url_safe_base64_hash(secret, message).unwrap();
        assert_eq!(
            Ok(()),
            ensure_signature_is_valid_for_path_and_query(secret, message, &signature)
        );
    }
}

#[test]
fn the_signature_segment_is_taken_off_before_the_check() {
    let signature = make_url_safe_base64_hash(SECRET, PATH).unwrap();
    let arrived = format!("/{signature}/{PATH}");
    assert_eq!(
        Ok(()),
        ensure_signature_is_valid_for_path_and_query(SECRET, &arrived, &signature)
    );
    // The same signature does not speak for the path with the segment left on.
    let own = make_url_safe_base64_hash(SECRET, &arrived).unwrap();
    assert_ne!(own, signature);
}

#[test]
fn any_other_signature_is_a_bad_signature() {
    let signature = make_url_safe_base64_hash(SECRET, PATH).unwrap();
    let other_message = make_url_safe_base64_hash(SECRET, "201x-100/https://beachape.com/").unwrap();
    let other_secret = make_url_safe_base64_hash("another secret", PATH).unwrap();
    let mut flipped: Vec<char> = signature.chars().collect();
    flipped[3] = if flipped[3] == 'A' { 'B' } else { 'A' };
    let flipped: String = flipped.into_iter().collect();
    for wrong in [
        other_message.as_str(),
        other_secret.as_str(),
        flipped.as_str(),
        "",
        "lol",
        "not base64 at all!",
        // Standard alphabet instead of the URL-safe one.
        EXPECTED_SIGNED_BASE_64,
        // Without its padding.
        "Y_w4HN8q-yZPkR1N1SMJ9gDlCRk",
        // A longer tag that begins with the right one.
        "Y_w4HN8q-yZPkR1N1SMJ9gDlCRkA",
    ] {
        assert_ne!(signature, wrong);
        assert_eq!(
            Err(SignatureError::BadSignature),
            ensure_signature_is_valid_for_path_and_query(SECRET, PATH, wrong)
        );
    }
}

#[test]
fn a_signature_with_stray_trailing_bits_is_turned_down() {
    // "Y_w4HN8q-yZPkR1N1SMJ9gDlCRk=" ends in a symbol with two spare bits;
    // the next symbol of the alphabet decodes to the same bytes in a lax reader.
    assert_eq!(
        Err(SignatureError::BadSignature),
        ensure_signature_is_valid_for_path_and_query(SECRET, PATH, "Y_w4HN8q-yZPkR1N1SMJ9gDlCRl=")
    );
}

#[test]
fn signature_errors_describe_themselves() {
    assert_eq!(
        "Bad signature received; it did not pass the check.",
        SignatureError::BadSignature.message()
    );
    assert_eq!("The secret key could not be used.", SignatureError::CouldNotUseKey.message());
}

#[test]
fn a_signature_fits_in_one_segment_of_a_path() {
    for (secret, message) in [("", ""), ("k", "m"), (SECRET, PATH), ("sécret", "päth/☃?q=1")] {
        let signature = make_url_safe_base64_hash(secret, message).unwrap();
        assert_eq!(28, signature.len());
        assert!(signature.ends_with('='));
        assert!(signature
            .chars()
            .all(|c| c.is_ascii_alphanumeric() || c == '-' || c == '_' || c == '='));
        assert!(!signature.contains('/') && !signature.contains('+'));
        assert_eq!(signature, make_url_safe_base64_hash(secret, message).unwrap());
    }
}
