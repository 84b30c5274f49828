use letter::authenticate::authenticate;
use letter::authenticate::AuthError;
use letter::authenticate::Credentials;
use letter::confirmation::confirm;
use letter::confirmation::Parameters;
use letter::domain::person::Person;
use letter::email::Outbox;
use letter::newsletters::extract_credentials;
use letter::newsletters::parse_confirmed_subscribers;
use letter::newsletters::publish;
use letter::newsletters::Newsletter;
use letter::newsletters::PublishError;
use letter::store::Store;
use letter::subscriptions::subscribe;
use letter::subscriptions::SubscriberForm;

use argon2::password_hash::SaltString;
use argon2::PasswordHasher;
use base64::Engine;

fn sender() -> Person {
    Person::parse("Letter Team".to_string(), "team@example.com".to_string()).unwrap()
}

fn issue() -> Newsletter {
    Newsletter {
        title: "Newsletter title".to_string(),
        body: "Newsletter body".to_string(),
    }
}

fn password_hash_of(password: &str) -> String {
    let salt = SaltString::generate(&mut rand::thread_rng());
    argon2::Argon2::default()
        .hash_password(password.as_bytes(), &salt)
        .unwrap()
        .to_string()
}

fn seed_operator(store: &mut Store) {
    let hash = password_hash_of("everythinghastostartsomewhere");
    store.insert_user(7, "admin", &hash);
}

fn auth_header(username: &str, password: &str) -> String {
    let payload = base64::engine::general_purpose::STANDARD
        .encode(format!("{}:{}", username, password));
    format!("Basic {}", payload)
}

fn subscribe_confirmed(store: &mut Store, outbox: &mut Outbox, name: &str, email: &str) {
    let form = SubscriberForm {
        email: email.to_string(),
        name: name.to_string(),
    };
    subscribe(store, outbox, form).unwrap();
    let html = &outbox.sent[outbox.sent.len() - 1].html_content;
    let marker = "subscription_token=";
    let start = html.find(marker).unwrap() + marker.len();
    let params = Parameters {
        subscription_token: html[start..start + 20].to_string(),
    };
    confirm(store, Some(&params)).unwrap();
}

#[test]
fn newsletters_are_delivered_to_each_confirmed_subscriber() {
    let mut store = Store::new();
    let mut outbox = Outbox::new(sender());
    seed_operator(&mut store);
    subscribe_confirmed(
        &mut store,
        &mut outbox,
        "le guin",
        "ursula_le_guin@gmail.com",
    );
    let sent_before = outbox.sent.len();

    let header = auth_header("admin", "everythinghastostartsomewhere");
    let result = publish(&store, &mut outbox, Some(&header), &issue());

    assert!(result.is_ok());
    assert_eq!(outbox.sent.len(), sent_before + 1);
    let email = &outbox.sent[sent_before];
    assert_eq!(email.to.len(), 1);
    assert_eq!(email.to[0].email.as_str(), "ursula_le_guin@gmail.com");
    assert_eq!(email.subject, "Newsletter title");
    assert_eq!(email.html_content, "Newsletter body");
}

#[test]
fn newsletters_are_not_delivered_to_unconfirmed_subscribers() {
    let mut store = Store::new();
    let mut outbox = Outbox::new(sender());
    seed_operator(&mut store);
    let form = SubscriberForm {
        email: "ursula_le_guin@gmail.com".to_string(),
        name: "le guin".to_string(),
    };
    subscribe(&mut store, &mut outbox, form).unwrap();
    let sent_before = outbox.sent.len();

    let header = auth_header("admin", "everythinghastostartsomewhere");
    let result = publish(&store, &mut outbox, Some(&header), &issue());

    assert!(result.is_ok());
    assert_eq!(outbox.sent.len(), sent_before);
}

#[test]
fn publish_requests_missing_authorization_are_rejected() {
    let mut store = Store::new();
    let mut outbox = Outbox::new(sender());
    seed_operator(&mut store);

    let result = publish(&store, &mut outbox, None, &issue());

    match result {
        Err(e @ PublishError::AuthError(_)) => {
            let (status, challenge) = e.error_response();
            assert_eq!(status, 401);
            assert_eq!(challenge.as_deref(), Some("Basic realm=\"publish\""));
        }
        other => panic!("expected an auth error, got {:?}", other),
    }
    assert_eq!(outbox.sent.len(), 0);
}

#[test]
fn publish_with_unknown_user_is_rejected() {
    let mut store = Store::new();
    let mut outbox = Outbox::new(sender());
    seed_operator(&mut store);
    subscribe_confirmed(&mut store, &mut outbox, "le guin", "ursula_le_guin@gmail.com");
    let sent_before = outbox.sent.len();

    let header = auth_header("nobody", "whatever");
    let result = publish(&store, &mut outbox, Some(&header), &issue());

    assert!(matches!(result, Err(PublishError::AuthError(_))));
    assert_eq!(outbox.sent.len(), sent_before);
}

#[test]
fn publish_with_wrong_password_is_rejected() {
    let mut store = Store::new();
    let mut outbox = Outbox::new(sender());
    seed_operator(&mut store);

    let header = auth_header("admin", "not-the-password");
    let result = publish(&store, &mut outbox, Some(&header), &issue());

    assert!(matches!(result, Err(PublishError::AuthError(_))));
    assert_eq!(outbox.sent.len(), 0);
}

#[test]
fn extract_credentials_reads_a_basic_header() {
    let header = auth_header("admin", "sec:ret");
    let credentials = extract_credentials(Some(&header)).unwrap();
    assert_eq!(credentials.username, "admin");
    assert_eq!(credentials.password, "sec:ret");
}

#[test]
fn extract_credentials_names_each_failure() {
    assert_eq!(
        extract_credentials(None).unwrap_err(),
        "Missing authorization header"
    );
    assert_eq!(
        extract_credentials(Some("Bearer abc")).unwrap_err(),
        "Invalid authorization header format"
    );
    assert_eq!(
        extract_credentials(Some("Basic !!!not-base64!!!")).unwrap_err(),
        "Failed to base64-decode authorization header"
    );
    let bad_utf8 = format!(
        "Basic {}",
        base64::engine::general_purpose::STANDARD.encode([0xffu8, 0xfe, 0xfd])
    );
    assert_eq!(
        extract_credentials(Some(&bad_utf8)).unwrap_err(),
        "Failed to parse authorization header as UTF8 string"
    );
    let no_colon = format!(
        "Basic {}",
        base64::engine::general_purpose::STANDARD.encode("admin")
    );
    assert_eq!(
        extract_credentials(Some(&no_colon)).unwrap_err(),
        "A password is missing"
    );
}

#[test]
fn a_stored_row_that_no_longer_validates_is_skipped() {
    let rows = vec![
        ("le guin".to_string(), "ursula_le_guin@gmail.com".to_string()),
        ("broken{name".to_string(), "valid@example.com".to_string()),
        ("fine".to_string(), "not-an-email".to_string()),
        ("also fine".to_string(), "second@example.com".to_string()),
    ];
    let subscribers = parse_confirmed_subscribers(rows);
    assert_eq!(subscribers.len(), 2);
    assert_eq!(subscribers[0].email.as_str(), "ursula_le_guin@gmail.com");
    assert_eq!(subscribers[1].email.as_str(), "second@example.com");
}

#[test]
fn authenticate_accepts_the_right_password() {
    let mut store = Store::new();
    let hash = password_hash_of("correct horse");
    store.insert_user(42, "admin", &hash);

    let result = authenticate(
        &store,
        &Credentials {
            username: "admin".to_string(),
            password: "correct horse".to_string(),
        },
    );
    assert_eq!(result, Ok(42));
}

#[test]
fn authenticate_rejects_a_malformed_stored_hash_as_unexpected() {
    let mut store = Store::new();
    store.insert_user(1, "admin", "not-a-phc-hash");

    let result = authenticate(
        &store,
        &Credentials {
            username: "admin".to_string(),
            password: "anything".to_string(),
        },
    );
    assert!(matches!(result, Err(AuthError::UnexpectedError(_))));
}
