use letter::domain::person::Person;
use letter::email::EmailBuilder;
use letter::email::Outbox;

fn person(name: &str, email: &str) -> Person {
    Person::parse(name.to_string(), email.to_string()).unwrap()
}

#[test]
fn the_builder_accumulates_every_part() {
    let sender = person("Letter Team", "team@example.com");
    let recipient = person("le guin", "ursula_le_guin@gmail.com");

    let email = EmailBuilder::new(sender)
        .to(&recipient)
        .subject("Welcome!")
        .html_content("<p>Hello</p>")
        .build();

    assert_eq!(email.sender.email.as_str(), "team@example.com");
    assert_eq!(email.to.len(), 1);
    assert_eq!(email.to[0].email.as_str(), "ursula_le_guin@gmail.com");
    assert_eq!(email.subject, "Welcome!");
    assert_eq!(email.html_content, "<p>Hello</p>");
}

#[test]
fn the_builder_starts_empty_and_can_take_several_recipients() {
    let sender = person("Letter Team", "team@example.com");
    let a = person("A", "a@example.com");
    let b = person("B", "b@example.com");

    let empty = EmailBuilder::new(sender.clone()).build();
    assert_eq!(empty.to.len(), 0);
    assert_eq!(empty.subject, "");
    assert_eq!(empty.html_content, "");

    let email = EmailBuilder::new(sender).to(&a).to(&b).build();
    assert_eq!(email.to.len(), 2);
    assert_eq!(email.to[0].email.as_str(), "a@example.com");
    assert_eq!(email.to[1].email.as_str(), "b@example.com");
}

#[test]
fn the_outbox_records_messages_in_order() {
    let sender = person("Letter Team", "team@example.com");
    let recipient = person("le guin", "ursula_le_guin@gmail.com");
    let mut outbox = Outbox::new(sender);

    let first = outbox.email_builder().to(&recipient).subject("one").build();
    outbox.send_email(first).unwrap();
    let second = outbox.email_builder().to(&recipient).subject("two").build();
    outbox.send_email(second).unwrap();

    assert_eq!(outbox.sent.len(), 2);
    assert_eq!(outbox.sent[0].subject, "one");
    assert_eq!(outbox.sent[1].subject, "two");
    assert_eq!(outbox.sent[0].sender.email.as_str(), "team@example.com");
}
