//! A mailing-list service core: double opt-in subscriptions, timing-safe
//! credential checks, tamper-evident login redirects, and newsletter fan-out
//! to confirmed subscribers.

pub mod admin;
pub mod authenticate;
pub mod confirmation;
pub mod configuration;
pub mod domain;
pub mod email;
pub mod login;
pub mod newsletters;
pub mod redirect;
pub mod store;
pub mod subscriptions;

use vstd::prelude::*;

verus! {

/// The characters that a display name may never contain.
pub open spec fn forbidden_name_char(c: char) -> bool {
    c == '/' || c == '(' || c == ')' || c == '"' || c == '<' || c == '>' || c == '\\' || c == '{'
        || c == '}'
}

} // verus!
