//! Publishing a newsletter issue: authenticate the caller from a Basic
//! authorization header, load the confirmed subscribers, re-validate each
//! stored row, and hand one message per valid subscriber to the outbox. A
//! stored row that no longer validates is skipped, so one bad row cannot
//! block delivery to the rest of the list; each message is addressed to a
//! single subscriber, so no address leaks to another recipient.

use vstd::prelude::*;
use vstd::string::StrSliceExecFns;

use base64::Engine;
use vstd::string::StringExecFns;
use vstd::utf8::decode_utf8;
use vstd::utf8::valid_utf8;

use crate::authenticate::auth_ok;
use crate::authenticate::authenticate;
use crate::authenticate::AuthError;
use crate::authenticate::Credentials;
use crate::domain::person::Person;
use crate::email::Outbox;
use crate::store::confirmed_pairs;
use crate::store::str_eq;
use crate::store::user_lookup;
use crate::store::Store;

verus! {

/// One issue to publish: a subject line and an HTML body.
#[derive(Debug)]
pub struct Newsletter {
    pub title: String,
    pub body: String,
}

/// Why a publish attempt failed. An authentication failure is answered with
/// a challenge; anything else is an internal fault.
#[derive(Debug)]
pub enum PublishError {
    AuthError(String),
    UnexpectedError(String),
}

impl PublishError {
    /// The response the error maps to: the status code, and for an
    /// authentication failure the `WWW-Authenticate` challenge to attach.
    pub fn error_response(&self) -> (r: (u16, Option<String>))
        ensures
            match self {
                PublishError::AuthError(_) => r.0 == 401 && (r.1 matches Some(h) && h@
                    == "Basic realm=\"publish\""@),
                PublishError::UnexpectedError(_) => r.0 == 500 && r.1 is None,
            },
    {
        match self {
            PublishError::AuthError(_) => (
                401,
                Some(String::from_str("Basic realm=\"publish\"")),
            ),
            PublishError::UnexpectedError(_) => (500, None),
        }
    }
}

/// Whether the header starts with the `Basic ` scheme marker.
pub open spec fn has_basic_prefix(h: Seq<char>) -> bool {
    h.len() >= 6 && h.take(6) == "Basic "@
}

/// What `base64::engine::general_purpose::STANDARD.decode` yields on the
/// string: the decoded bytes, or nothing when the string is not standard
/// base64 with padding. The outcome depends on the string alone.
pub uninterp spec fn base64_standard_decoded(s: Seq<char>) -> Option<Seq<u8>>;

/// Relies on `base64::engine::general_purpose::STANDARD.decode`: a pure
/// function of its input.
#[verifier::external_body]
fn base64_decode(s: &str) -> (r: Option<Vec<u8>>)
    ensures
        match r {
            Some(b) => base64_standard_decoded(s@) == Some(b@),
            None => base64_standard_decoded(s@) is None,
        },
{
    base64::engine::general_purpose::STANDARD.decode(s).ok()
}

/// Relies on `String::from_utf8`: succeeds exactly on valid UTF-8 and
/// yields its decoding, as vstd's `valid_utf8` and `decode_utf8` state them.
#[verifier::external_body]
fn string_from_utf8(bytes: Vec<u8>) -> (r: Option<String>)
    ensures
        match r {
            Some(s) => valid_utf8(bytes@) && s@ == decode_utf8(bytes@),
            None => !valid_utf8(bytes@),
        },
{
    String::from_utf8(bytes).ok()
}

/// The position of the first `:` in the string, or `-1` when there is none.
pub open spec fn first_colon(s: Seq<char>) -> int
    decreases s.len(),
{
    if s.len() == 0 {
        -1
    } else if s[0] == ':' {
        0
    } else {
        let r = first_colon(s.drop_first());
        if r < 0 {
            -1
        } else {
            r + 1
        }
    }
}

proof fn lemma_first_colon_found(s: Seq<char>, i: int)
    requires
        0 <= i < s.len(),
        s[i] == ':',
        forall|j: int| 0 <= j < i ==> s[j] != ':',
    ensures
        first_colon(s) == i,
    decreases i,
{
    if i > 0 {
        lemma_first_colon_found(s.drop_first(), i - 1);
    }
}

proof fn lemma_first_colon_none(s: Seq<char>)
    requires
        forall|j: int| 0 <= j < s.len() ==> s[j] != ':',
    ensures
        first_colon(s) == -1,
    decreases s.len(),
{
    if s.len() > 0 {
        lemma_first_colon_none(s.drop_first());
    }
}

/// The username and password a Basic authorization header carries: the
/// base64 payload after the scheme marker, decoded as UTF-8 and split at the
/// first colon. `None` when any of those steps fails.
pub open spec fn extracted_credentials(h: Seq<char>) -> Option<(Seq<char>, Seq<char>)> {
    if !has_basic_prefix(h) {
        None
    } else {
        match base64_standard_decoded(h.skip(6)) {
            None => None,
            Some(bytes) => if !valid_utf8(bytes) {
                None
            } else {
                let d = decode_utf8(bytes);
                if first_colon(d) < 0 {
                    None
                } else {
                    Some((d.take(first_colon(d)), d.skip(first_colon(d) + 1)))
                }
            },
        }
    }
}

/// Read a username and password out of a Basic authorization header. Every
/// failure names the stage that rejected the header.
pub fn extract_credentials(auth_header: Option<&str>) -> (r: Result<Credentials, String>)
    ensures
        match auth_header {
            None => r matches Err(m) && m@ == "Missing authorization header"@,
            Some(h) => match r {
                Ok(c) => extracted_credentials(h@) == Some((c.username@, c.password@)),
                Err(m) => extracted_credentials(h@) is None && if !has_basic_prefix(h@) {
                    m@ == "Invalid authorization header format"@
                } else if base64_standard_decoded(h@.skip(6)) is None {
                    m@ == "Failed to base64-decode authorization header"@
                } else if !valid_utf8(base64_standard_decoded(h@.skip(6))->0) {
                    m@ == "Failed to parse authorization header as UTF8 string"@
                } else {
                    m@ == "A password is missing"@
                },
            },
        },
{
    let h = match auth_header {
        Some(h) => h,
        None => {
            return Err(String::from_str("Missing authorization header"));
        },
    };

    let hlen = h.unicode_len();
    if hlen < 6 {
        return Err(String::from_str("Invalid authorization header format"));
    }
    let prefix = h.substring_char(0, 6);
    if !str_eq(prefix, "Basic ") {
        proof {
            assert(prefix@ =~= h@.take(6));
        }
        return Err(String::from_str("Invalid authorization header format"));
    }
    proof {
        assert(prefix@ =~= h@.take(6));
    }
    let encoded = h.substring_char(6, hlen);
    proof {
        assert(encoded@ =~= h@.skip(6));
    }

    let bytes = match base64_decode(encoded) {
        Some(b) => b,
        None => {
            return Err(String::from_str("Failed to base64-decode authorization header"));
        },
    };

    let ghost payload_bytes: Seq<u8> = bytes@;
    let decoded = match string_from_utf8(bytes) {
        Some(s) => s,
        None => {
            return Err(String::from_str("Failed to parse authorization header as UTF8 string"));
        },
    };
    proof {
        assert(base64_standard_decoded(h@.skip(6)) == Some(payload_bytes));
        assert(decoded@ == decode_utf8(payload_bytes));
    }

    let dlen = decoded.as_str().unicode_len();
    let mut i: usize = 0;
    while i < dlen
        invariant
            i <= dlen,
            dlen == decoded@.len(),
            auth_header matches Some(hh) && hh@ == h@,
            has_basic_prefix(h@),
            base64_standard_decoded(h@.skip(6)) == Some(payload_bytes),
            valid_utf8(payload_bytes),
            decoded@ == decode_utf8(payload_bytes),
            forall|j: int| 0 <= j < i ==> decoded@[j] != ':',
        decreases dlen - i,
    {
        if decoded.as_str().get_char(i) == ':' {
            proof {
                lemma_first_colon_found(decoded@, i as int);
            }
            let username = decoded.as_str().substring_char(0, i);
            let password = decoded.as_str().substring_char(i + 1, dlen);
            proof {
                assert(username@ =~= decoded@.take(i as int));
                assert(password@ =~= decoded@.skip(i as int + 1));
                assert(has_basic_prefix(h@));
                assert(first_colon(decoded@) == i as int);
                assert(extracted_credentials(h@) == Some(
                    (decoded@.take(i as int), decoded@.skip(i as int + 1)),
                ));
            }
            return Ok(
                Credentials { username: username.to_owned(), password: password.to_owned() },
            );
        }
        i = i + 1;
    }
    proof {
        lemma_first_colon_none(decoded@);
    }
    Err(String::from_str("A password is missing"))
}

/// The `(name, email)` views of two string fields.
pub open spec fn pair_views(rows: Seq<(String, String)>) -> Seq<(Seq<char>, Seq<char>)> {
    rows.map_values(|p: (String, String)| (p.0@, p.1@))
}

/// The pairs that still pass the subscriber validation, in order.
pub open spec fn valid_subscriber_pairs(pairs: Seq<(Seq<char>, Seq<char>)>) -> Seq<
    (Seq<char>, Seq<char>),
>
    decreases pairs.len(),
{
    if pairs.len() == 0 {
        Seq::empty()
    } else {
        valid_subscriber_pairs(pairs.drop_last()) + if Person::valid(
            pairs.last().0,
            pairs.last().1,
        ) {
            seq![pairs.last()]
        } else {
            Seq::empty()
        }
    }
}

/// Re-validate stored `(name, email)` rows through the same parsers that
/// guard subscription; a row that no longer parses is skipped rather than
/// failing the whole batch.
pub fn parse_confirmed_subscribers(rows: Vec<(String, String)>) -> (r: Vec<Person>)
    ensures
        r@.len() == valid_subscriber_pairs(pair_views(rows@)).len(),
        forall|i: int|
            0 <= i < r@.len() ==> ((#[trigger] r@[i]).name@, r@[i].email@)
                == valid_subscriber_pairs(pair_views(rows@))[i],
{
    let ghost pv = pair_views(rows@);
    let n = rows.len();
    let mut out: Vec<Person> = Vec::new();
    let mut i: usize = 0;
    while i < n
        invariant
            i <= n,
            n == rows@.len(),
            pv == pair_views(rows@),
            pv.len() == n,
            forall|j: int| 0 <= j < n ==> pv[j] == ((#[trigger] rows@[j]).0@, rows@[j].1@),
            out@.len() == valid_subscriber_pairs(pv.take(i as int)).len(),
            forall|j: int|
                0 <= j < out@.len() ==> ((#[trigger] out@[j]).name@, out@[j].email@)
                    == valid_subscriber_pairs(pv.take(i as int))[j],
        decreases n - i,
    {
        proof {
            assert(pv.take(i + 1).drop_last() =~= pv.take(i as int));
            assert(pv.take(i + 1).last() == pv[i as int]);
        }
        let name = rows[i].0.clone();
        let email = rows[i].1.clone();
        match Person::parse(name, email) {
            Ok(subscriber) => {
                out.push(subscriber);
            },
            Err(_) => {},
        }
        i = i + 1;
    }
    proof {
        assert(pv.take(n as int) =~= pv);
    }
    out
}

/// Publish one issue: check the caller's credentials, then hand one message
/// per still-valid confirmed subscriber to the outbox, each addressed to
/// that subscriber alone, with the issue's title as subject and its body as
/// content. Nothing is sent when authentication fails.
pub fn publish(
    store: &Store,
    outbox: &mut Outbox,
    auth_header: Option<&str>,
    newsletter: &Newsletter,
) -> (r: Result<(), PublishError>)
    ensures
        match r {
            Ok(_) => {
                &&& auth_header matches Some(h) && extracted_credentials(h@) matches Some(c)
                    && auth_ok(store.users@, c.0, c.1)
                &&& final(outbox).sent@.len() == old(outbox).sent@.len()
                    + valid_subscriber_pairs(confirmed_pairs(store.subscriptions@)).len()
                &&& forall|i: int|
                    0 <= i < old(outbox).sent@.len() ==> final(outbox).sent@[i] == old(
                        outbox,
                    ).sent@[i]
                &&& forall|k: int|
                    0 <= k < valid_subscriber_pairs(confirmed_pairs(store.subscriptions@)).len()
                        ==> {
                        let msg = #[trigger] final(outbox).sent@[old(outbox).sent@.len() + k];
                        let pair = valid_subscriber_pairs(confirmed_pairs(store.subscriptions@))[k];
                        &&& msg.to@.len() == 1
                        &&& msg.to@[0].name@ == pair.0
                        &&& msg.to@[0].email@ == pair.1
                        &&& msg.subject@ == newsletter.title@
                        &&& msg.html_content@ == newsletter.body@
                    }
            },
            Err(PublishError::AuthError(_)) => {
                &&& *final(outbox) == *old(outbox)
                &&& match auth_header {
                    None => true,
                    Some(h) => match extracted_credentials(h@) {
                        None => true,
                        Some(c) => match user_lookup(store.users@, c.0) {
                            None => true,
                            Some(u) => crate::authenticate::phc_string_parses(u.password_hash@)
                                && !crate::authenticate::argon2_verify_ok(c.1, u.password_hash@),
                        },
                    },
                }
            },
            Err(PublishError::UnexpectedError(_)) => {
                &&& *final(outbox) == *old(outbox)
                &&& auth_header matches Some(h) && extracted_credentials(h@) matches Some(c)
                    && user_lookup(store.users@, c.0) matches Some(u)
                    && !crate::authenticate::phc_string_parses(u.password_hash@)
            },
        },
{
    let credentials = match extract_credentials(auth_header) {
        Ok(c) => c,
        Err(m) => {
            return Err(PublishError::AuthError(m));
        },
    };

    match authenticate(store, &credentials) {
        Ok(_) => {},
        Err(AuthError::InvalidCredentials) => {
            return Err(PublishError::AuthError(String::from_str("Authentication failed")));
        },
        Err(AuthError::UnexpectedError(m)) => {
            return Err(PublishError::UnexpectedError(m));
        },
    }

    let confirmed = store.get_confirmed_subscribers();
    proof {
        assert(pair_views(confirmed@) =~= confirmed_pairs(store.subscriptions@));
    }
    let subscribers = parse_confirmed_subscribers(confirmed);

    let ghost vsp = valid_subscriber_pairs(confirmed_pairs(store.subscriptions@));
    let n = subscribers.len();
    let mut i: usize = 0;
    while i < n
        invariant
            i <= n,
            n == subscribers@.len(),
            n == vsp.len(),
            forall|j: int|
                0 <= j < n ==> ((#[trigger] subscribers@[j]).name@, subscribers@[j].email@)
                    == vsp[j],
            outbox.sent@.len() == old(outbox).sent@.len() + i,
            forall|j: int|
                0 <= j < old(outbox).sent@.len() ==> outbox.sent@[j] == old(outbox).sent@[j],
            forall|k: int|
                0 <= k < i ==> {
                    let msg = #[trigger] outbox.sent@[old(outbox).sent@.len() + k];
                    &&& msg.to@.len() == 1
                    &&& msg.to@[0].name@ == vsp[k].0
                    &&& msg.to@[0].email@ == vsp[k].1
                    &&& msg.subject@ == newsletter.title@
                    &&& msg.html_content@ == newsletter.body@
                },
        decreases n - i,
    {
        let message = outbox.email_builder().subject(newsletter.title.as_str()).to(
            &subscribers[i],
        ).html_content(newsletter.body.as_str()).build();
        match outbox.send_email(message) {
            Ok(_) => {},
            Err(_) => {
                // A failed send aborts the remaining fan-out and names the
                // recipient it failed on.
                let mut msg = String::from_str("Failed to send email to ");
                msg.append(subscribers[i].email.as_str());
                return Err(PublishError::UnexpectedError(msg));
            },
        }
        i = i + 1;
    }
    Ok(())
}

} // verus!
