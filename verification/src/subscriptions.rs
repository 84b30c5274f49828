//! The double opt-in subscription flow: validate the form, persist the
//! subscriber together with a fresh confirmation token, then hand a
//! confirmation email to the outbox. The email goes out only once the rows
//! are in place, so the store is never held open across a network send; a
//! delivery failure leaves the subscriber persisted, merely unnotified.

use vstd::prelude::*;
use vstd::string::StringExecFns;

use rand::Rng;

use crate::domain::email::Email;
use crate::domain::name::Name;
use crate::domain::person;
use crate::domain::person::Person;
use crate::email::Outbox;
use crate::store::Store;
use crate::store::SubscriberStatus;

verus! {

/// Raw fields of the subscription form.
#[derive(Debug)]
pub struct SubscriberForm {
    pub email: String,
    pub name: String,
}

/// Why a subscription attempt failed. A rejected form is the caller's
/// mistake; anything else is an internal fault carrying a stage description.
#[derive(Debug)]
pub enum SubscribeError {
    ParseError(person::Error),
    UnexpectedError(String),
}

impl SubscribeError {
    /// The HTTP status the error maps to: a rejected form is a bad request,
    /// everything else an internal error.
    pub fn status_code(&self) -> (r: u16)
        ensures
            r == (match self {
                SubscribeError::ParseError(_) => 400u16,
                SubscribeError::UnexpectedError(_) => 500u16,
            }),
    {
        match self {
            SubscribeError::ParseError(_) => 400,
            SubscribeError::UnexpectedError(_) => 500,
        }
    }
}

/// The token alphabet: ASCII letters and digits.
pub open spec fn alphanumeric_char(c: char) -> bool {
    ('0' <= c && c <= '9') || ('a' <= c && c <= 'z') || ('A' <= c && c <= 'Z')
}

/// What a freshly issued confirmation token looks like: 20 characters, all
/// alphanumeric.
pub open spec fn token_wf(t: Seq<char>) -> bool {
    t.len() == 20 && forall|i: int| 0 <= i < t.len() ==> alphanumeric_char(#[trigger] t[i])
}

/// Relies on `rand::thread_rng` sampling `rand::distributions::Alphanumeric`:
/// every sampled character is an ASCII letter or digit; the values depend on
/// the generator's state, so nothing more is promised of them.
#[verifier::external_body]
pub(crate) fn generate_subscription_token() -> (t: String)
    ensures
        token_wf(t@),
{
    let mut rng = rand::thread_rng();
    std::iter::repeat_with(|| rng.sample(rand::distributions::Alphanumeric))
        .map(char::from)
        .take(20)
        .collect()
}

/// The confirmation URL a new subscriber must visit.
pub open spec fn confirmation_link(token: Seq<char>) -> Seq<char> {
    "http://127.0.0.1/subscriptions/confirm?subscription_token="@ + token
}

/// The body of the confirmation email: a greeting around the confirmation
/// link.
pub open spec fn confirmation_email_html(token: Seq<char>) -> Seq<char> {
    "<p>Thanks for subscribing to our newsletter!</p><br/>Click <a href=\""@ + confirmation_link(
        token,
    ) + "\">here</a> to confirm your subscription."@
}

/// Build the confirmation email for `subscriber` and hand it to the outbox.
pub fn send_confirmation_email(outbox: &mut Outbox, subscriber: &Person, token: &str) -> (r: Result<
    (),
    String,
>)
    ensures
        r is Ok,
        final(outbox).sent@.len() == old(outbox).sent@.len() + 1,
        forall|i: int|
            0 <= i < old(outbox).sent@.len() ==> final(outbox).sent@[i] == old(outbox).sent@[i],
        final(outbox).sent@.last().to@.len() == 1,
        final(outbox).sent@.last().to@[0].name@ == subscriber.name@,
        final(outbox).sent@.last().to@[0].email@ == subscriber.email@,
        final(outbox).sent@.last().subject@ == "Welcome!"@,
        final(outbox).sent@.last().html_content@ == confirmation_email_html(token@),
        final(outbox).sender == old(outbox).sender,
{
    let confirmation_link: String = String::from_str(
        "http://127.0.0.1/subscriptions/confirm?subscription_token=",
    ).concat(token);
    let html_content: String = String::from_str(
        "<p>Thanks for subscribing to our newsletter!</p><br/>Click <a href=\"",
    ).concat(confirmation_link.as_str()).concat(
        "\">here</a> to confirm your subscription.",
    );
    proof {
        assert(html_content@ =~= confirmation_email_html(token@));
    }

    let message = outbox.email_builder().to(subscriber).subject("Welcome!").html_content(
        html_content.as_str(),
    ).build();
    outbox.send_email(message)
}

/// Subscribe one visitor: parse the form, persist the subscriber in the
/// pending state together with a fresh confirmation token, then send the
/// confirmation email. A rejected form leaves the store and the outbox
/// untouched.
pub fn subscribe(store: &mut Store, outbox: &mut Outbox, form: SubscriberForm) -> (r: Result<
    (),
    SubscribeError,
>)
    requires
        old(store).wf(),
        old(store).next_id < u64::MAX,
    ensures
        final(store).wf(),
        match r {
            Ok(_) => {
                &&& Person::valid(form.name@, form.email@)
                &&& final(store).subscriptions@.len() == old(store).subscriptions@.len() + 1
                &&& forall|i: int|
                    0 <= i < old(store).subscriptions@.len() ==> final(store).subscriptions@[i]
                        == old(store).subscriptions@[i]
                &&& final(store).subscriptions@.last().email@ == form.email@
                &&& final(store).subscriptions@.last().name@ == form.name@
                &&& final(store).subscriptions@.last().status
                    == SubscriberStatus::PendingConfirmation
                &&& final(store).tokens@.len() == old(store).tokens@.len() + 1
                &&& forall|i: int|
                    0 <= i < old(store).tokens@.len() ==> final(store).tokens@[i]
                        == old(store).tokens@[i]
                &&& final(store).tokens@.last().subscriber_id
                    == final(store).subscriptions@.last().id
                &&& token_wf(final(store).tokens@.last().subscription_token@)
                &&& final(store).users == old(store).users
                &&& final(outbox).sent@.len() == old(outbox).sent@.len() + 1
                &&& forall|i: int|
                    0 <= i < old(outbox).sent@.len() ==> final(outbox).sent@[i]
                        == old(outbox).sent@[i]
                &&& final(outbox).sent@.last().to@.len() == 1
                &&& final(outbox).sent@.last().to@[0].email@ == form.email@
                &&& final(outbox).sent@.last().to@[0].name@ == form.name@
                &&& final(outbox).sent@.last().subject@ == "Welcome!"@
                &&& final(outbox).sent@.last().html_content@ == confirmation_email_html(
                    final(store).tokens@.last().subscription_token@,
                )
            },
            Err(SubscribeError::ParseError(e)) => {
                &&& !Person::valid(form.name@, form.email@)
                &&& (match e {
                    person::Error::EmailError(ee) => !Email::valid(form.email@) && (if form.email@.len() == 0 {
                        ee == crate::domain::email::Error::Empty
                    } else {
                        ee matches crate::domain::email::Error::Invalid(m) && m@
                            == "Invalid email: "@ + form.email@
                    }),
                    person::Error::NameError(ne) => Email::valid(form.email@) && !Name::valid(
                        form.name@,
                    ) && ne == Name::rejection(form.name@),
                })
                &&& *final(store) == *old(store)
                &&& *final(outbox) == *old(outbox)
            },
            Err(SubscribeError::UnexpectedError(_)) => false,
        },
{
    // The form's address is checked before its name, so a form with two bad
    // fields reports the address's rejection.
    let parsed_email = match Email::parse(form.email) {
        Ok(m) => m,
        Err(e) => {
            return Err(SubscribeError::ParseError(person::Error::EmailError(e)));
        },
    };
    let parsed_name = match Name::parse(form.name) {
        Ok(n) => n,
        Err(e) => {
            return Err(SubscribeError::ParseError(person::Error::NameError(e)));
        },
    };
    let subscriber = Person { name: parsed_name, email: parsed_email };

    let id = store.insert_subscriber(&subscriber);

    let token = generate_subscription_token();
    store.insert_token(id, token.as_str());

    match send_confirmation_email(outbox, &subscriber, token.as_str()) {
        Ok(_) => Ok(()),
        Err(_) => Err(
            SubscribeError::UnexpectedError(
                String::from_str("Failed to send a confirmation email."),
            ),
        ),
    }
}

} // verus!
