use login_test::hasher::to_lower_hex;
use login_test::{Account, Application};

const EMPTY_SHA512: &str = "cf83e1357eefb8bdf1542850d66d8007d620e4050b5715dc83f4a921d36ce9ce47d0d13c5d85f2b0ff8318d2877eec2f63b931bd47417a81a538327af927da3e";
const ABC_SHA512: &str = "ddaf35a193617abacc417349ae20413112e6fa4e89a97ea20a9eeee64b55d39a2192992a274fc1a836ba3c23a3feebbd454d4423643ce80e2a9ac94fa54ca49f";

#[test]
fn hash_of_empty_is_known_constant() {
    assert_eq!(Application::hash(b""), EMPTY_SHA512);
}

#[test]
fn hash_of_abc_is_known_constant() {
    assert_eq!(Application::hash(b"abc"), ABC_SHA512);
}

#[test]
fn hash_is_deterministic() {
    assert_eq!(Application::hash(b"secret"), Application::hash(b"secret"));
    assert_eq!(Application::hash(b""), Application::hash(b""));
}

#[test]
fn hash_has_no_collisions_in_corpus() {
    let corpus: Vec<&[u8]> = vec![
        b"", b"a", b"b", b"ab", b"ba", b"secret", b"Secret", b"secret ", b"\x00", b"\x00\x00",
        b"password", b"hunter2", "p\u{e4}ss".as_bytes(),
    ];
    let hashes: Vec<String> = corpus.iter().map(|p| Application::hash(p)).collect();
    for i in 0..hashes.len() {
        for j in 0..hashes.len() {
            if i != j {
                assert_ne!(hashes[i], hashes[j]);
            }
        }
    }
}

#[test]
fn hash_is_128_lowercase_hex_digits() {
    let long = vec![0xffu8; 10_000];
    for p in [&b""[..], b"x", b"secret", &long[..]] {
        let h = Application::hash(p);
        assert_eq!(h.len(), 128);
        assert!(h.chars().all(|c| c.is_ascii_digit() || ('a'..='f').contains(&c)));
    }
}

#[test]
fn to_lower_hex_renders_each_byte() {
    assert_eq!(to_lower_hex(&[]), "");
    assert_eq!(to_lower_hex(&[0x00, 0x0f, 0xa0, 0xff, 0x3c]), "000fa0ff3c");
}

#[test]
fn account_new_keeps_fields() {
    let a = Account::new("carol".to_string(), "abc".to_string());
    assert_eq!(a.username, "carol");
    assert_eq!(a.password_hash, "abc");
}

#[test]
fn new_session_is_logged_out() {
    let app = Application::new();
    assert!(!app.is_logged_in());
    assert!(app.account().is_none());
    assert_eq!(app.username_input(), "");
    assert_eq!(app.password_input(), "");
}

#[test]
fn login_holds_account() {
    let mut app = Application::new();
    app.login("alice".to_string(), "secret".to_string());
    assert!(app.is_logged_in());
    let account = app.account().unwrap();
    assert_eq!(account.username, "alice");
    assert_eq!(account.password_hash, Application::hash(b"secret"));
    assert_ne!(account.password_hash, "secret");
}

#[test]
fn logout_after_login_clears_account() {
    let mut app = Application::new();
    app.login("alice".to_string(), "secret".to_string());
    app.logout();
    assert!(!app.is_logged_in());
    assert!(app.account().is_none());
}

#[test]
fn logout_while_logged_out_is_noop() {
    let mut app = Application::new();
    app.logout();
    assert!(!app.is_logged_in());
    assert!(app.account().is_none());
}

#[test]
fn second_login_replaces_first() {
    let mut app = Application::new();
    app.login("alice".to_string(), "secret".to_string());
    app.login("bob".to_string(), "other".to_string());
    let account = app.account().unwrap();
    assert_eq!(account.username, "bob");
    assert_eq!(account.password_hash, Application::hash(b"other"));
}

#[test]
fn login_with_empty_password_succeeds() {
    let mut app = Application::new();
    app.login("bob".to_string(), String::new());
    assert!(app.is_logged_in());
    let account = app.account().unwrap();
    assert_eq!(account.username, "bob");
    assert_eq!(account.password_hash, EMPTY_SHA512);
}

#[test]
fn login_hashes_utf8_bytes() {
    let mut app = Application::new();
    app.login("dave".to_string(), "p\u{e4}ss".to_string());
    assert_eq!(app.account().unwrap().password_hash, Application::hash("p\u{e4}ss".as_bytes()));
}

#[test]
fn submit_login_uses_buffers_and_clears_them() {
    let mut app = Application::new();
    app.username_input_mut().push_str("alice");
    app.password_input_mut().push_str("secret");
    assert_eq!(app.username_input(), "alice");
    assert_eq!(app.password_input(), "secret");
    app.submit_login();
    assert_eq!(app.username_input(), "");
    assert_eq!(app.password_input(), "");
    let account = app.account().unwrap();
    assert_eq!(account.username, "alice");
    assert_eq!(account.password_hash, Application::hash(b"secret"));
}

#[test]
fn submit_login_with_empty_buffers_succeeds() {
    let mut app = Application::new();
    app.submit_login();
    assert!(app.is_logged_in());
    let account = app.account().unwrap();
    assert_eq!(account.username, "");
    assert_eq!(account.password_hash, EMPTY_SHA512);
}

#[test]
fn account_mut_edits_in_place() {
    let mut app = Application::new();
    assert!(app.account_mut().is_none());
    app.login("alice".to_string(), "secret".to_string());
    app.account_mut().unwrap().username.push_str("2");
    assert_eq!(app.account().unwrap().username, "alice2");
}
