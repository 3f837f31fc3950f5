use cm_launcher::digest::{check_digest, verify_sha256};

const ABC_SHA256: &str = "ba7816bf8f01cfea414140de5dae2223b00361a396177a9cb410ff61f20015ad";

#[test]
fn digest_of_known_bytes_is_accepted() {
    assert_eq!(verify_sha256(b"abc", ABC_SHA256), Ok(()));
}

#[test]
fn digest_is_accepted_in_any_case() {
    assert_eq!(verify_sha256(b"abc", &ABC_SHA256.to_uppercase()), Ok(()));
    let mixed: String = ABC_SHA256
        .chars()
        .enumerate()
        .map(|(i, c)| if i % 2 == 0 { c.to_ascii_uppercase() } else { c })
        .collect();
    assert_eq!(verify_sha256(b"abc", &mixed), Ok(()));
}

#[test]
fn one_changed_byte_is_rejected() {
    let r = verify_sha256(b"abd", ABC_SHA256);
    assert_eq!(
        r,
        Err(format!(
            "SHA-256 mismatch: expected {}, got {}",
            ABC_SHA256, "a52d159f262b2c6ddb724a61840befc36eb30c88877a4030b65cbe86298449c9"
        ))
    );
    assert_eq!(verify_sha256(b"abd", ABC_SHA256), r);
}

#[test]
fn digest_of_nothing() {
    assert_eq!(
        verify_sha256(b"", "E3B0C44298FC1C149AFBF4C8996FB92427AE41E4649B934CA495991B7852B855"),
        Ok(())
    );
}

#[test]
fn check_digest_quotes_both() {
    assert_eq!(check_digest("00ff", "00FF"), Ok(()));
    assert_eq!(
        check_digest("00ff", "00fe"),
        Err("SHA-256 mismatch: expected 00fe, got 00ff".to_string())
    );
    assert!(check_digest("00ff", "00f").is_err());
}
