//! A subscriber's email address, validated on construction.

use vstd::prelude::*;
use vstd::string::StringExecFns;

verus! {

/// Why a candidate address was rejected.
#[derive(Debug, Clone, PartialEq, Eq)]
pub enum Error {
    /// The string is empty.
    Empty,
    /// The string is not a syntactically valid address; the payload is a
    /// human-readable message naming the offending input.
    Invalid(String),
}

/// Whether a string is a syntactically valid email address under the HTML5
/// address grammar; the verdict depends on the characters alone.
pub uninterp spec fn email_accepted(s: Seq<char>) -> bool;

/// Relies on `validator::validate_email`: a pure syntactic check of the
/// address against the HTML5 email grammar; an empty string is rejected.
#[verifier::external_body]
fn validate_email_str(s: &str) -> (r: bool)
    ensures
        r == email_accepted(s@),
        s@.len() == 0 ==> !r,
{
    validator::validate_email(s)
}

/// A validated email address. `parse` is the only way to obtain one.
#[derive(Debug)]
pub struct Email(String);

impl Clone for Email {
    fn clone(&self) -> (r: Self)
        ensures
            r@ == self@,
    {
        proof {
            use_type_invariant(self);
        }
        Email(self.0.clone())
    }
}

impl View for Email {
    type V = Seq<char>;

    closed spec fn view(&self) -> Seq<char> {
        self.0@
    }
}

impl Email {
    #[verifier::type_invariant]
    closed spec fn type_inv(&self) -> bool {
        Self::valid(self.0@)
    }

    /// What `parse` accepts: a non-empty, syntactically valid address.
    pub open spec fn valid(s: Seq<char>) -> bool {
        s.len() != 0 && email_accepted(s)
    }

    /// Validate a raw string as an email address. Emptiness is reported as
    /// its own error; any other rejection carries a message naming the input.
    pub fn parse(s: String) -> (r: Result<Email, Error>)
        ensures
            match r {
                Ok(email) => Self::valid(s@) && email@ == s@,
                Err(e) => !Self::valid(s@) && if s@.len() == 0 {
                    e == Error::Empty
                } else {
                    e matches Error::Invalid(m) && m@ == "Invalid email: "@ + s@
                },
            },
    {
        if s.as_str().is_empty() {
            return Err(Error::Empty);
        }

        if validate_email_str(s.as_str()) {
            Ok(Email(s))
        } else {
            let msg = String::from_str("Invalid email: ").concat(s.as_str());
            Err(Error::Invalid(msg))
        }
    }

    /// Read access to the validated string.
    pub fn as_str(&self) -> (r: &str)
        ensures
            r@ == self@,
    {
        self.0.as_str()
    }
}

} // verus!
