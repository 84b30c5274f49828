//! Raw subscriber data as it arrives from a form, before validation.

use vstd::prelude::*;

use crate::subscriptions::SubscriberForm;

verus! {

/// A raw subscriber name, carried as-is; validation happens in `Name`.
#[derive(Debug)]
pub struct SubscriberName(String);

impl View for SubscriberName {
    type V = Seq<char>;

    closed spec fn view(&self) -> Seq<char> {
        self.0@
    }
}

impl SubscriberName {
    /// Wrap a raw string.
    pub fn parse(s: String) -> (r: Self)
        ensures
            r@ == s@,
    {
        SubscriberName(s)
    }

    /// Read access to the wrapped string.
    pub fn as_str(&self) -> (r: &str)
        ensures
            r@ == self@,
    {
        self.0.as_str()
    }
}

/// A raw subscriber address, carried as-is; validation happens in `Email`.
#[derive(Debug)]
pub struct SubscriberEmail(String);

impl View for SubscriberEmail {
    type V = Seq<char>;

    closed spec fn view(&self) -> Seq<char> {
        self.0@
    }
}

impl SubscriberEmail {
    /// Wrap a raw string.
    pub fn parse(s: String) -> (r: Self)
        ensures
            r@ == s@,
    {
        SubscriberEmail(s)
    }

    /// Read access to the wrapped string.
    pub fn as_str(&self) -> (r: &str)
        ensures
            r@ == self@,
    {
        self.0.as_str()
    }
}

/// Raw form fields paired together.
#[derive(Debug)]
pub struct Subscriber {
    pub email: SubscriberEmail,
    pub name: SubscriberName,
}

impl Subscriber {
    /// Wrap a form's fields as they are.
    pub fn from_form(form: SubscriberForm) -> (r: Subscriber)
        ensures
            r.email@ == form.email@,
            r.name@ == form.name@,
    {
        Subscriber {
            email: SubscriberEmail::parse(form.email),
            name: SubscriberName::parse(form.name),
        }
    }
}

} // verus!
