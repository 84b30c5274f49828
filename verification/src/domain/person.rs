//! A subscriber identity: a validated name together with a validated address.

use vstd::prelude::*;

use crate::domain::email;
use crate::domain::email::Email;
use crate::domain::name;
use crate::domain::name::Name;

verus! {

/// Why a candidate identity was rejected: whichever of the two fields
/// failed first (the name is checked before the address).
#[derive(Debug, Clone, PartialEq, Eq)]
pub enum Error {
    NameError(name::Error),
    EmailError(email::Error),
}

/// A validated subscriber identity.
#[derive(Debug)]
pub struct Person {
    pub name: Name,
    pub email: Email,
}

impl Clone for Person {
    fn clone(&self) -> (r: Self)
        ensures
            r.name@ == self.name@,
            r.email@ == self.email@,
    {
        Person { name: self.name.clone(), email: self.email.clone() }
    }
}

impl Person {
    /// What `parse` accepts: both fields pass their own validation.
    pub open spec fn valid(name_s: Seq<char>, email_s: Seq<char>) -> bool {
        Name::valid(name_s) && Email::valid(email_s)
    }

    /// Validate a raw name and a raw address together. The name is checked
    /// first, so a form with two bad fields reports the name's rejection.
    pub fn parse(name_s: String, email_s: String) -> (r: Result<Person, Error>)
        ensures
            match r {
                Ok(p) => Self::valid(name_s@, email_s@) && p.name@ == name_s@ && p.email@
                    == email_s@,
                Err(e) => !Self::valid(name_s@, email_s@) && match e {
                    Error::NameError(ne) => !Name::valid(name_s@) && ne == Name::rejection(
                        name_s@,
                    ),
                    Error::EmailError(_) => Name::valid(name_s@) && !Email::valid(email_s@),
                },
            },
    {
        let parsed_name = match Name::parse(name_s) {
            Ok(n) => n,
            Err(e) => {
                return Err(Error::NameError(e));
            },
        };
        let parsed_email = match Email::parse(email_s) {
            Ok(m) => m,
            Err(e) => {
                return Err(Error::EmailError(e));
            },
        };
        Ok(Person { name: parsed_name, email: parsed_email })
    }
}

} // verus!
