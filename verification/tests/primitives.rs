use email_loop::code::generate_code;
use email_loop::crypto::derive_session_id;
use email_loop::email::build_href;
use email_loop::email::build_store_key;
use email_loop::hex::hex_encode;
use email_loop::query::percent_encode_query;
use email_loop::store::MemoryStore;
use email_loop::store::SessionRecord;

const ALPHABET: &str = "234679acdefghjkmnpqrtvwxyzACEFGHJKLMNPQRSTUVWXYZ";

#[test]
fn generated_codes_use_the_alphabet() {
    for len in [0usize, 1, 6, 32] {
        let code = generate_code(len);
        assert_eq!(code.chars().count(), len);
        for c in code.chars() {
            assert!(ALPHABET.contains(c), "character {:?} outside the alphabet", c);
        }
    }
}

#[test]
fn session_id_is_deterministic() {
    let a = derive_session_id("user@example.com", "rp1");
    let b = derive_session_id("user@example.com", "rp1");
    assert_eq!(a, b);
}

#[test]
fn session_id_depends_on_both_inputs() {
    let base = derive_session_id("user@example.com", "rp1");
    assert_ne!(base, derive_session_id("other@example.com", "rp1"));
    assert_ne!(base, derive_session_id("user@example.com", "rp2"));
}

#[test]
fn session_id_is_lower_case_hex() {
    let sid = derive_session_id("user@example.com", "rp1");
    assert_eq!(sid.len(), 64);
    assert!(sid
        .chars()
        .all(|c| c.is_ascii_digit() || ('a'..='f').contains(&c)));
    // The identifier is a digest, not a readback of the inputs.
    assert_ne!(sid, "user@example.com\nrp1");
}

#[test]
fn hex_encoding_exact_values() {
    assert_eq!(hex_encode(&Vec::<u8>::new()), "");
    assert_eq!(hex_encode(&vec![0x00, 0xff, 0x1a]), "00ff1a");
    assert_eq!(hex_encode(&vec![0x0f, 0xf0]), "0ff0");
}

#[test]
fn percent_encoding_exact_values() {
    assert_eq!(percent_encode_query("AZaz09-_.~"), "AZaz09-_.~");
    assert_eq!(percent_encode_query("a b/c%"), "a%20b%2fc%25");
    assert_eq!(percent_encode_query("?&="), "%3f%26%3d");
    assert_eq!(percent_encode_query(""), "");
}

#[test]
fn clean_diagnostics_report_clean() {
    let diag = email_loop::email::IssueDiagnostics::all_ok();
    assert!(diag.is_clean());
    let failed = email_loop::email::IssueDiagnostics {
        store_error: Some("connection refused".to_string()),
        ttl_error: None,
        mail_error: None,
    };
    assert!(!failed.is_clean());
}

#[test]
fn store_key_is_namespaced() {
    assert_eq!(build_store_key("abc"), "session:abc");
}

#[test]
fn href_embeds_encoded_parameters() {
    let href = build_href("https://b.example", "a1b2", "C code");
    assert_eq!(href, "https://b.example/confirm?session=a1b2&code=C%20code");
}

fn record(code: &str) -> SessionRecord {
    SessionRecord {
        email: "user@example.com".to_string(),
        client_id: "rp1".to_string(),
        code: code.to_string(),
        redirect: "https://rp.example/cb".to_string(),
    }
}

#[test]
fn store_set_then_get() {
    let mut store = MemoryStore::new();
    store.hset_session("session:k1", record("234679"), 0);
    let got = store.hget_session("session:k1", 5).expect("the key was set");
    assert_eq!(got.code, "234679");
    assert_eq!(got.email, "user@example.com");
    assert!(store.hget_session("session:k2", 5).is_none());
}

#[test]
fn store_entry_without_expiry_persists() {
    let mut store = MemoryStore::new();
    store.hset_session("session:k1", record("234679"), 0);
    assert!(store.hget_session("session:k1", u64::MAX).is_some());
}

#[test]
fn store_expiry_reaps_the_entry() {
    let mut store = MemoryStore::new();
    store.hset_session("session:k1", record("234679"), 0);
    assert!(store.expire_session("session:k1", 100, 0));
    assert!(store.hget_session("session:k1", 99).is_some());
    assert!(store.hget_session("session:k1", 100).is_none());
    // Setting an expiry on a missing or dead key reports failure.
    assert!(!store.expire_session("session:k2", 100, 0));
    assert!(!store.expire_session("session:k1", 300, 200));
}

#[test]
fn store_overwrite_keeps_the_expiry() {
    let mut store = MemoryStore::new();
    store.hset_session("session:k1", record("234679"), 0);
    assert!(store.expire_session("session:k1", 100, 0));
    // Overwriting the fields of a live key leaves its expiry in place.
    store.hset_session("session:k1", record("777777"), 50);
    let got = store.hget_session("session:k1", 99).expect("still live");
    assert_eq!(got.code, "777777");
    assert!(store.hget_session("session:k1", 100).is_none());
}

#[test]
fn store_reset_of_dead_key_starts_fresh() {
    let mut store = MemoryStore::new();
    store.hset_session("session:k1", record("234679"), 0);
    assert!(store.expire_session("session:k1", 100, 0));
    // After expiry the key reads as absent; setting it again creates a
    // fresh entry with no expiry.
    store.hset_session("session:k1", record("999999"), 150);
    assert!(store.hget_session("session:k1", 10_000).is_some());
}
