use letter::authenticate::Credentials;
use letter::configuration::HmacSecret;
use letter::login::login;
use letter::login::login_form;
use letter::login::login_redirect;
use letter::login::LoginError;
use letter::login::QueryParams;
use letter::redirect::RedirectSigner;
use letter::store::Store;

use argon2::password_hash::SaltString;
use argon2::PasswordHasher;

fn secret() -> HmacSecret {
    HmacSecret("super-long-and-secret-random-key".to_string())
}

fn store_with_admin(password: &str) -> Store {
    let mut store = Store::new();
    let salt = SaltString::generate(&mut rand::thread_rng());
    let hash = argon2::Argon2::default()
        .hash_password(password.as_bytes(), &salt)
        .unwrap()
        .to_string();
    store.insert_user(3, "admin", &hash);
    store
}

fn credentials(username: &str, password: &str) -> Credentials {
    Credentials {
        username: username.to_string(),
        password: password.to_string(),
    }
}

/// Split a `/login?error=...&tag=...` location into the raw (still
/// URL-encoded) error and the tag.
fn split_location(location: &str) -> (String, String) {
    let query = location.strip_prefix("/login?error=").unwrap();
    let (error, tag) = query.split_once("&tag=").unwrap();
    (error.to_string(), tag.to_string())
}

#[test]
fn unknown_username_and_wrong_password_fail_the_same_way() {
    let store = store_with_admin("the right password");

    let unknown = login(&store, &credentials("fake user", "fake password"));
    let wrong = login(&store, &credentials("admin", "fake password"));

    let m1 = match unknown {
        Err(e @ LoginError::AuthError(_)) => e.message(),
        other => panic!("expected AuthError, got {:?}", other),
    };
    let m2 = match wrong {
        Err(e @ LoginError::AuthError(_)) => e.message(),
        other => panic!("expected AuthError, got {:?}", other),
    };
    assert_eq!(m1, "Authentication failed");
    assert_eq!(m2, "Authentication failed");
}

#[test]
fn successful_login_yields_the_user_id() {
    let store = store_with_admin("the right password");
    let result = login(&store, &credentials("admin", "the right password"));
    assert_eq!(result.unwrap(), 3);
}

#[test]
fn failure_redirect_carries_a_verifying_tag() {
    let key = secret();
    let location = login_redirect(&LoginError::AuthError("bad".to_string()), &key);

    assert!(location.starts_with("/login?error="));
    assert!(location.contains("error=Authentication%20failed"));

    let (encoded_error, tag) = split_location(&location);
    // The page receives the error URL-decoded; this message decodes by
    // replacing the one escape.
    let error = encoded_error.replace("%20", " ");
    let params = QueryParams {
        error,
        tag: Some(tag),
    };
    assert!(params.is_valid(&key));
}

#[test]
fn tampered_error_text_fails_verification() {
    let key = secret();
    let location = login_redirect(&LoginError::AuthError("bad".to_string()), &key);
    let (_, tag) = split_location(&location);

    let tampered = QueryParams {
        error: "<script>alert(1)</script>".to_string(),
        tag: Some(tag),
    };
    assert!(!tampered.is_valid(&key));

    // And the page then renders no message at all.
    let page = login_form(Some(&tampered), &key);
    let bare = login_form(None, &key);
    assert_eq!(page, bare);
    assert!(!page.contains("script"));
}

#[test]
fn missing_and_malformed_tags_fail_closed() {
    let key = secret();
    let no_tag = QueryParams {
        error: "Authentication failed".to_string(),
        tag: None,
    };
    assert!(!no_tag.is_valid(&key));

    let not_hex = QueryParams {
        error: "Authentication failed".to_string(),
        tag: Some("zzzz-not-hex".to_string()),
    };
    assert!(!not_hex.is_valid(&key));
}

#[test]
fn a_verified_message_is_rendered_escaped() {
    let key = secret();
    let message = "<b>watch & learn</b>";
    let tag = RedirectSigner::sign(message, key.as_bytes());
    let params = QueryParams {
        error: message.to_string(),
        tag: Some(hex::encode(&tag)),
    };
    assert!(params.is_valid(&key));

    let page = login_form(Some(&params), &key);
    assert!(page.contains("<p><i>&lt;b&gt;watch &amp; learn&lt;/b&gt;</i></p>"));
    assert!(!page.contains("<b>watch"));
}

#[test]
fn the_login_page_always_carries_the_form() {
    let key = secret();
    let page = login_form(None, &key);
    assert!(page.starts_with("<!DOCTYPE html>"));
    assert!(page.contains("<form action=\"/login\" method=\"post\">"));
    assert!(page.contains("name=\"username\""));
    assert!(page.contains("name=\"password\""));
}

#[test]
fn sign_verify_round_trip_holds_and_mutations_fail() {
    let key = b"another secret key";
    let message = "error message with spaces & symbols";

    let tag = RedirectSigner::sign(message, key);
    assert_eq!(tag.len(), 32);
    assert!(RedirectSigner::verify(message, &tag, key));

    // A single flipped bit in the tag is rejected.
    let mut flipped = tag.clone();
    flipped[0] ^= 1;
    assert!(!RedirectSigner::verify(message, &flipped, key));

    // A truncated tag is rejected.
    assert!(!RedirectSigner::verify(message, &tag[..31], key));

    // A single changed character in the message is rejected.
    assert!(!RedirectSigner::verify("Error message with spaces & symbols", &tag, key));

    // Another key is rejected.
    assert!(!RedirectSigner::verify(message, &tag, b"another secret kez"));
}

#[test]
fn an_unknown_username_costs_comparable_time_to_a_wrong_password() {
    // Without the dummy-hash verification the unknown-username path would
    // return in microseconds, orders of magnitude faster than the real
    // key derivation. A generous band keeps the check robust to machine
    // noise while still catching a short-circuited branch.
    let store = store_with_admin("the right password");

    // Warm both paths once.
    let _ = login(&store, &credentials("fake user", "fake password"));
    let _ = login(&store, &credentials("admin", "fake password"));

    let start = std::time::Instant::now();
    for _ in 0..3 {
        let _ = login(&store, &credentials("fake user", "fake password"));
    }
    let unknown_user_time = start.elapsed();

    let start = std::time::Instant::now();
    for _ in 0..3 {
        let _ = login(&store, &credentials("admin", "fake password"));
    }
    let wrong_password_time = start.elapsed();

    assert!(
        unknown_user_time * 4 > wrong_password_time,
        "unknown-username path was too fast: {:?} vs {:?}",
        unknown_user_time,
        wrong_password_time
    );
}

#[test]
fn an_unknown_username_on_an_empty_store_is_a_plain_auth_failure() {
    // This path runs the argon2 verification against the fixed dummy hash
    // and must still answer with the generic failure.
    let store = Store::new();
    let result = login(&store, &credentials("nobody", "anything"));
    assert!(matches!(result, Err(LoginError::AuthError(_))));
}
