//! Outbound email: the message shape the provider accepts, a builder for it,
//! and an outbox that records every message handed over for delivery. The
//! HTTP transport to the provider lives outside the library; the outbox is
//! the library's view of what was sent.

use vstd::prelude::*;

use crate::domain::person::Person;

verus! {

/// One outbound message: a sender, the recipients, a subject and an HTML
/// body.
#[derive(Debug)]
pub struct Email {
    pub sender: Person,
    pub to: Vec<Person>,
    pub subject: String,
    pub html_content: String,
}

/// Accumulates the parts of an [`Email`] one call at a time.
#[derive(Debug)]
pub struct EmailBuilder {
    sender: Person,
    to: Vec<Person>,
    subject: String,
    html_content: String,
}

impl EmailBuilder {
    pub closed spec fn spec_sender(&self) -> Person {
        self.sender
    }

    pub closed spec fn spec_to(&self) -> Seq<Person> {
        self.to@
    }

    pub closed spec fn spec_subject(&self) -> Seq<char> {
        self.subject@
    }

    pub closed spec fn spec_html_content(&self) -> Seq<char> {
        self.html_content@
    }

    /// Start a message from the given sender, with no recipients and empty
    /// subject and body.
    pub fn new(sender: Person) -> (r: Self)
        ensures
            r.spec_sender() == sender,
            r.spec_to() == Seq::<Person>::empty(),
            r.spec_subject() == Seq::<char>::empty(),
            r.spec_html_content() == Seq::<char>::empty(),
    {
        EmailBuilder { sender, to: Vec::new(), subject: String::new(), html_content: String::new() }
    }

    /// Add one recipient.
    pub fn to(self, person: &Person) -> (r: Self)
        ensures
            r.spec_sender() == self.spec_sender(),
            r.spec_to().len() == self.spec_to().len() + 1,
            forall|i: int| 0 <= i < self.spec_to().len() ==> r.spec_to()[i] == self.spec_to()[i],
            r.spec_to().last().name@ == person.name@,
            r.spec_to().last().email@ == person.email@,
            r.spec_subject() == self.spec_subject(),
            r.spec_html_content() == self.spec_html_content(),
    {
        let mut this = self;
        this.to.push(person.clone());
        this
    }

    /// Set the subject.
    pub fn subject(self, subject: &str) -> (r: Self)
        ensures
            r.spec_sender() == self.spec_sender(),
            r.spec_to() == self.spec_to(),
            r.spec_subject() == subject@,
            r.spec_html_content() == self.spec_html_content(),
    {
        let mut this = self;
        this.subject = subject.to_owned();
        this
    }

    /// Set the HTML body.
    pub fn html_content(self, html_content: &str) -> (r: Self)
        ensures
            r.spec_sender() == self.spec_sender(),
            r.spec_to() == self.spec_to(),
            r.spec_subject() == self.spec_subject(),
            r.spec_html_content() == html_content@,
    {
        let mut this = self;
        this.html_content = html_content.to_owned();
        this
    }

    /// Finish: the message carries exactly what was accumulated.
    pub fn build(self) -> (r: Email)
        ensures
            r.sender == self.spec_sender(),
            r.to@ == self.spec_to(),
            r.subject@ == self.spec_subject(),
            r.html_content@ == self.spec_html_content(),
    {
        Email {
            sender: self.sender,
            to: self.to,
            subject: self.subject,
            html_content: self.html_content,
        }
    }
}

/// The sending side of the email collaborator, seen from the library: a
/// fixed sender identity and the list of messages handed over, in order.
#[derive(Debug)]
pub struct Outbox {
    pub sender: Person,
    pub sent: Vec<Email>,
}

impl Outbox {
    /// A fresh outbox for the given sender.
    pub fn new(sender: Person) -> (r: Self)
        ensures
            r.sender == sender,
            r.sent@ == Seq::<Email>::empty(),
    {
        Outbox { sender, sent: Vec::new() }
    }

    /// A builder primed with this outbox's sender.
    pub fn email_builder(&self) -> (r: EmailBuilder)
        ensures
            r.spec_sender().name@ == self.sender.name@,
            r.spec_sender().email@ == self.sender.email@,
            r.spec_to() == Seq::<Person>::empty(),
            r.spec_subject() == Seq::<char>::empty(),
            r.spec_html_content() == Seq::<char>::empty(),
    {
        EmailBuilder::new(self.sender.clone())
    }

    /// Record one message as dispatched.
    pub fn send_email(&mut self, email: Email) -> (r: Result<(), String>)
        ensures
            r is Ok,
            final(self).sent@ == old(self).sent@.push(email),
            final(self).sender == old(self).sender,
    {
        self.sent.push(email);
        Ok(())
    }
}

} // verus!
