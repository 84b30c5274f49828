//! Validated value objects: a subscriber's display name and email address.

pub mod email;
pub mod name;
pub mod person;
pub mod subscriber;
