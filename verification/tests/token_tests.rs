use inventory_auth::config_jwt::{
    generate_token, get_email_by_token, valid_token, TOKEN_LIFETIME_SECONDS,
};

const SECRET: &str = "test-signing-secret";

#[test]
fn issued_token_is_valid_at_issuance() {
    let token = generate_token(SECRET, "user@example.com", 1_000);
    assert!(valid_token(SECRET, &token, 1_000));
}

#[test]
fn issued_token_is_valid_just_before_expiry() {
    let token = generate_token(SECRET, "user@example.com", 1_000);
    assert!(valid_token(SECRET, &token, 1_000 + TOKEN_LIFETIME_SECONDS - 1));
}

#[test]
fn issued_token_is_invalid_from_expiry_on() {
    let token = generate_token(SECRET, "user@example.com", 1_000);
    assert!(!valid_token(SECRET, &token, 1_000 + TOKEN_LIFETIME_SECONDS));
    assert!(!valid_token(SECRET, &token, 1_000 + TOKEN_LIFETIME_SECONDS + 5_000));
}

#[test]
fn subject_round_trips() {
    let token = generate_token(SECRET, "alice@example.com", 42);
    assert!(valid_token(SECRET, &token, 42));
    assert_eq!(get_email_by_token(SECRET, &token), "alice@example.com");
}

#[test]
fn wrong_secret_is_rejected() {
    let token = generate_token(SECRET, "user@example.com", 1_000);
    assert!(!valid_token("another secret", &token, 1_000));
}

#[test]
fn tampered_token_is_rejected() {
    let token = generate_token(SECRET, "user@example.com", 1_000);
    let mut tampered = token.clone();
    let last = tampered.pop().unwrap();
    tampered.push(if last == 'A' { 'B' } else { 'A' });
    assert!(!valid_token(SECRET, &tampered, 1_000));
}

#[test]
fn malformed_tokens_never_panic() {
    let garbage = [
        "",
        ".",
        "..",
        "...",
        "abc",
        "a.b.c",
        "Bearer abc.def.ghi",
        "eyJhbGciOiJIUzI1NiJ9",
        "eyJhbGciOiJIUzI1NiJ9..",
        "\u{0}\u{0}\u{0}",
        "ÿþý.ÿþý.ÿþý",
        "🙂.🙂.🙂",
        "eyJhbGciOiJub25lIn0.eyJzdWIiOiJ4IiwiZXhwIjo5OTk5OTk5OTk5fQ.",
    ];
    for token in garbage {
        assert!(!valid_token(SECRET, token, 0));
        assert!(!valid_token(SECRET, token, u64::MAX));
    }
}

#[test]
fn token_without_expiration_is_rejected() {
    // A well-signed token must still carry the expected claims; one with
    // no exp claim never validates. Built by signing under the same
    // secret but a different claim set is not possible through the
    // library, so check a structurally valid but unsigned form instead.
    assert!(!valid_token(SECRET, "eyJhbGciOiJIUzI1NiJ9.e30.AAAA", 0));
}
