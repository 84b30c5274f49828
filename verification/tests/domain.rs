use letter::domain::email;
use letter::domain::email::Email;
use letter::domain::name;
use letter::domain::name::Name;
use letter::domain::person;
use letter::domain::person::Person;
use letter::domain::subscriber::SubscriberEmail;
use letter::domain::subscriber::SubscriberName;

use fake::faker::internet::en::SafeEmail;
use fake::faker::name::en::Name as FakeName;
use fake::Fake;

#[test]
fn a_256_grapheme_long_name_is_valid() {
    let name = "a̐".repeat(256);
    assert!(Name::parse(name).is_ok());
}

#[test]
fn a_name_longer_than_256_graphemes_is_rejected() {
    let name = "a".repeat(257);
    let result = Name::parse(name);
    assert!(matches!(result, Err(name::Error::TooLong)));
}

#[test]
fn whitespace_only_names_are_rejected() {
    let name = " ".to_string();
    let result = Name::parse(name);
    assert!(matches!(result, Err(name::Error::Empty)));
}

#[test]
fn name_empty_string_is_rejected() {
    let name = "".to_string();
    let result = Name::parse(name);
    assert!(matches!(result, Err(name::Error::Empty)));
}

#[test]
fn names_containing_an_invalid_character_are_rejected() {
    for name in &['/', '(', ')', '"', '<', '>', '\\', '{', '}'] {
        let name = name.to_string();
        let result = Name::parse(name);
        assert!(matches!(result, Err(name::Error::InvalidCharacters)));
    }
}

#[test]
fn a_valid_name_is_parsed_successfully() {
    let name = "Ursula Le Guin".to_string();
    assert!(Name::parse(name).is_ok());
}

#[test]
fn every_unicode_whitespace_only_name_is_rejected() {
    for ws in [
        "\u{0009}", "\u{000A}", "\u{000B}", "\u{000C}", "\u{000D}", " ", "\u{0085}", "\u{00A0}",
        "\u{1680}", "\u{2000}", "\u{2009}", "\u{200A}", "\u{2028}", "\u{2029}", "\u{202F}",
        "\u{205F}", "\u{3000}", " \t\r\n ",
    ] {
        let result = Name::parse(ws.to_string());
        assert!(matches!(result, Err(name::Error::Empty)), "not rejected: {:?}", ws);
    }
}

#[test]
fn a_padded_name_is_kept_untrimmed() {
    let name = Name::parse("  le guin  ".to_string()).unwrap();
    assert_eq!(name.as_str(), "  le guin  ");
}

#[test]
fn email_empty_string_is_rejected() {
    let email = "".to_string();
    let result = Email::parse(email);
    assert!(matches!(result, Err(email::Error::Empty)));
}

#[test]
fn email_missing_at_symbol_is_rejected() {
    let email = "ursuladomain.com".to_string();
    let result = Email::parse(email);
    assert!(matches!(result, Err(email::Error::Invalid(_))));
}

#[test]
fn email_missing_subject_is_rejected() {
    let email = "@domain.com".to_string();
    let result = Email::parse(email);
    assert!(matches!(result, Err(email::Error::Invalid(_))));
}

#[test]
fn invalid_email_error_names_the_input() {
    let result = Email::parse("not-an-email".to_string());
    match result {
        Err(email::Error::Invalid(m)) => assert_eq!(m, "Invalid email: not-an-email"),
        other => panic!("expected Invalid, got {:?}", other),
    }
}

#[test]
fn generated_valid_emails_are_parsed_successfully() {
    for _ in 0..100 {
        let email: String = SafeEmail().fake();
        assert!(Email::parse(email.clone()).is_ok(), "rejected: {:?}", email);
    }
}

#[test]
fn valid_name_and_email() {
    let name: String = FakeName().fake();
    let email: String = SafeEmail().fake();
    let result = Person::parse(name, email);
    assert!(matches!(result, Ok(_)));
}

#[test]
fn empty_name_is_rejected() {
    let name = "".to_string();
    let email = SafeEmail().fake();
    assert!(matches!(
        Person::parse(name, email),
        Err(person::Error::NameError(_))
    ));
}

#[test]
fn invalid_name_is_rejected() {
    let name = "{hello}".to_string();
    let email = SafeEmail().fake();
    assert!(matches!(
        Person::parse(name, email),
        Err(person::Error::NameError(_))
    ));
}

#[test]
fn empty_email_is_rejected() {
    let name = FakeName().fake();
    let email = "".to_string();
    assert!(matches!(
        Person::parse(name, email),
        Err(person::Error::EmailError(_))
    ));
}

#[test]
fn invalid_email_is_rejected() {
    let name = FakeName().fake();
    let email = "this is not an email".to_string();
    assert!(matches!(
        Person::parse(name, email),
        Err(person::Error::EmailError(_))
    ));
}

#[test]
fn raw_subscriber_fields_are_kept_verbatim() {
    let name = SubscriberName::parse("  anything goes {} ".to_string());
    let email = SubscriberEmail::parse("not validated".to_string());
    assert_eq!(name.as_str(), "  anything goes {} ");
    assert_eq!(email.as_str(), "not validated");
}
