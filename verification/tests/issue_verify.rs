use email_loop::email::request;
use email_loop::email::verify;
use email_loop::email::RequestError;
use email_loop::email::VerifyError;
use email_loop::store::MemoryStore;
use email_loop::CODE_LENGTH;

const ALPHABET: &str = "234679acdefghjkmnpqrtvwxyzACEFGHJKLMNPQRSTUVWXYZ";

fn assert_code_shape(code: &str) {
    assert_eq!(code.chars().count(), CODE_LENGTH);
    for c in code.chars() {
        assert!(ALPHABET.contains(c), "character {:?} outside the alphabet", c);
    }
}

/// A code that is certainly different from the given one.
fn other_code(code: &str) -> &'static str {
    if code == "222222" {
        "333333"
    } else {
        "222222"
    }
}

#[test]
fn end_to_end_request_then_verify() {
    let mut store = MemoryStore::new();
    let out = request(
        &mut store,
        1_000,
        600,
        "https://broker.example",
        "user@example.com",
        "rp1",
        "https://rp.example/cb",
    )
    .expect("a valid address must be accepted");

    assert_code_shape(&out.code);
    assert_eq!(out.session_id.len(), 64);
    assert!(out.session_id.chars().all(|c| c.is_ascii_hexdigit()));

    // The session identifier is hexadecimal and the code alphanumeric, so
    // percent-encoding leaves both untouched in the URL.
    let expected_href = format!(
        "https://broker.example/confirm?session={}&code={}",
        out.session_id, out.code
    );
    assert_eq!(out.href, expected_href);

    assert_eq!(out.mail.to, "user@example.com");
    assert_eq!(
        out.mail.subject,
        format!("Code: {} - Finish logging in to rp1", out.code)
    );
    assert_eq!(
        out.mail.body,
        format!(
            "Enter your login code:\n\n{}\n\nOr click this link:\n\n{}",
            out.code, out.href
        )
    );
    assert!(out.mail.body.contains(&out.code));
    assert!(out.mail.body.contains(&out.href));

    let (token, redirect) =
        verify(&store, 1_100, &out.session_id, &out.code).expect("the issued code must verify");
    assert_eq!(token.subject, "user@example.com");
    assert_eq!(token.audience, "rp1");
    assert!(!token.subject.is_empty());
    assert_eq!(redirect, "https://rp.example/cb");

    // Replay: the minimal core does not consume the record on success, so
    // the same (session, code) pair still verifies until the TTL expires.
    let replay = verify(&store, 1_200, &out.session_id, &out.code);
    assert!(replay.is_ok());
}

#[test]
fn second_issuance_overwrites_the_code() {
    let mut store = MemoryStore::new();
    let first = request(
        &mut store,
        10,
        600,
        "https://broker.example",
        "user@example.com",
        "rp1",
        "https://rp.example/cb",
    )
    .unwrap();
    let second = request(
        &mut store,
        20,
        600,
        "https://broker.example",
        "user@example.com",
        "rp1",
        "https://rp.example/cb",
    )
    .unwrap();

    // The identifier is derived from (email, client_id), so both requests
    // land on the same session.
    assert_eq!(first.session_id, second.session_id);

    if first.code != second.code {
        let old = verify(&store, 30, &first.session_id, &first.code);
        assert!(matches!(old, Err(VerifyError::IncorrectCode)));
    }
    let new = verify(&store, 30, &second.session_id, &second.code);
    assert!(new.is_ok());
}

#[test]
fn unknown_session_is_not_found() {
    let store = MemoryStore::new();
    let r = verify(&store, 0, "0123456789abcdef", "234679");
    assert!(matches!(r, Err(VerifyError::SessionNotFound)));
}

#[test]
fn expired_session_is_not_found() {
    let mut store = MemoryStore::new();
    let out = request(
        &mut store,
        0,
        10,
        "https://broker.example",
        "user@example.com",
        "rp1",
        "https://rp.example/cb",
    )
    .unwrap();
    // Just before the deadline the record is still live.
    assert!(verify(&store, 9, &out.session_id, &out.code).is_ok());
    // At the deadline it reads as absent, and no token is minted.
    let r = verify(&store, 10, &out.session_id, &out.code);
    assert!(matches!(r, Err(VerifyError::SessionNotFound)));
}

#[test]
fn wrong_code_is_rejected() {
    let mut store = MemoryStore::new();
    let out = request(
        &mut store,
        0,
        600,
        "https://broker.example",
        "user@example.com",
        "rp1",
        "https://rp.example/cb",
    )
    .unwrap();
    let r = verify(&store, 1, &out.session_id, other_code(&out.code));
    assert!(matches!(r, Err(VerifyError::IncorrectCode)));
}

#[test]
fn malformed_addresses_are_refused() {
    for bad in ["", "nope", "@example.com", "user@", "user@example.com@"] {
        let mut store = MemoryStore::new();
        let r = request(
            &mut store,
            0,
            600,
            "https://broker.example",
            bad,
            "rp1",
            "https://rp.example/cb",
        );
        assert!(
            matches!(r, Err(RequestError::InvalidAddress)),
            "{:?} must be refused",
            bad
        );
        // Nothing was stored for a refused request.
        let probe = verify(&store, 0, "0123456789abcdef", "234679");
        assert!(matches!(probe, Err(VerifyError::SessionNotFound)));
    }
}

#[test]
fn addresses_with_several_at_signs_parse() {
    let mut store = MemoryStore::new();
    let out = request(
        &mut store,
        0,
        600,
        "https://broker.example",
        "a@b@example.com",
        "rp1",
        "https://rp.example/cb",
    )
    .unwrap();
    assert_eq!(out.mail.to, "a@b@example.com");
    let (token, _) = verify(&store, 1, &out.session_id, &out.code).unwrap();
    assert_eq!(token.subject, "a@b@example.com");
}

#[test]
fn verify_error_messages() {
    assert_eq!(VerifyError::SessionNotFound.message(), "session not found");
    assert_eq!(VerifyError::IncorrectCode.message(), "incorrect code");
    // Either failure presents the same outward message.
    assert_eq!(
        VerifyError::SessionNotFound.uniform_message(),
        VerifyError::IncorrectCode.uniform_message()
    );
}
