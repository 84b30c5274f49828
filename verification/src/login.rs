//! The login page and the login flow. A failed login redirects to the login
//! page with the error message and its tag in the query string; the page
//! renders the message only when the tag verifies, so a crafted redirect
//! cannot make the page show attacker-chosen text as a system error. What
//! the page does render is HTML-escaped besides.

use vstd::prelude::*;
use vstd::string::StringExecFns;
use vstd::utf8::encode_utf8;

use crate::authenticate::authenticate;
use crate::authenticate::is_expected_auth_outcome;
use crate::authenticate::AuthError;
use crate::authenticate::Credentials;
use crate::configuration::HmacSecret;
use crate::redirect::hex_decode;
use crate::redirect::hex_decoded;
use crate::redirect::hex_encode;
use crate::redirect::hex_encoding;
use crate::redirect::lemma_hex_roundtrip;
use crate::redirect::url_encode;
use crate::redirect::url_encoded;
use crate::redirect::valid_hex;
use crate::redirect::RedirectSigner;
use crate::store::Store;

verus! {

/// How one character renders in escaped HTML: the five minimally escaped
/// characters become entities, everything else stands as-is.
pub open spec fn html_escape_char(c: char) -> Seq<char> {
    if c == '"' {
        seq!['&', 'q', 'u', 'o', 't', ';']
    } else if c == '&' {
        seq!['&', 'a', 'm', 'p', ';']
    } else if c == '\'' {
        seq!['&', '#', 'x', '2', '7', ';']
    } else if c == '<' {
        seq!['&', 'l', 't', ';']
    } else if c == '>' {
        seq!['&', 'g', 't', ';']
    } else {
        seq![c]
    }
}

/// A string with `"`, `&`, `'`, `<` and `>` entity-escaped.
pub open spec fn html_escaped(s: Seq<char>) -> Seq<char>
    decreases s.len(),
{
    if s.len() == 0 {
        Seq::empty()
    } else {
        html_escaped(s.drop_last()) + html_escape_char(s.last())
    }
}

/// Relies on `htmlescape::encode_minimal`: replaces exactly `"`, `&`, `'`,
/// `<` and `>` by their entities, character by character.
#[verifier::external_body]
fn html_escape_minimal(s: &str) -> (r: String)
    ensures
        r@ == html_escaped(s@),
{
    htmlescape::encode_minimal(s)
}

/// The query parameters a login page may receive: an error message and its
/// hex-encoded tag.
#[derive(Debug)]
pub struct QueryParams {
    pub error: String,
    pub tag: Option<String>,
}

/// The view of an optional tag string.
pub open spec fn spec_tag_view(tag: &Option<String>) -> Option<Seq<char>> {
    match tag {
        Some(t) => Some(t@),
        None => None,
    }
}

/// What the login page accepts before rendering an error: a tag must be
/// present, be hex, and decode to the MAC of the exact signed query string.
/// A missing tag, a non-hex tag and a wrong tag are all alike invalid.
pub open spec fn signature_accepted(error: Seq<char>, tag: Option<Seq<char>>, key: Seq<u8>) -> bool {
    match tag {
        None => false,
        Some(t) => valid_hex(t) && hex_decoded(t) == RedirectSigner::sign_spec(error, key),
    }
}

impl QueryParams {
    /// Whether the carried tag verifies the carried error message under the
    /// operator's secret.
    pub fn is_valid(&self, secret: &HmacSecret) -> (r: bool)
        ensures
            r == signature_accepted(self.error@, spec_tag_view(&self.tag), encode_utf8(secret.0@)),
    {
        let tag_hex = match &self.tag {
            Some(t) => t,
            None => {
                return false;
            },
        };
        let tag = match hex_decode(tag_hex.as_str()) {
            Some(t) => t,
            None => {
                return false;
            },
        };
        RedirectSigner::verify(self.error.as_str(), tag.as_slice(), secret.as_bytes())
    }
}

/// The error paragraph the page shows for a verified message.
pub open spec fn error_fragment(error: Seq<char>) -> Seq<char> {
    "<p><i>"@ + html_escaped(error) + "</i></p>"@
}

/// The login page around an error fragment (possibly empty).
pub open spec fn login_page(error_html: Seq<char>) -> Seq<char> {
    "<!DOCTYPE html>\n<html lang=\"en\">\n<head>\n    <meta http-equiv=\"content-type\" content=\"text/html; charset=utf-8\">\n    <title>Login</title>\n</head>\n<body>\n    "@
        + error_html
        + "\n    <form action=\"/login\" method=\"post\">\n        <label>Username\n            <input\n                type=\"text\"\n                placeholder=\"Enter Username\"\n                name=\"username\"\n            >\n        </label>\n        <label>Password\n            <input\n                type=\"password\"\n                placeholder=\"Enter Password\"\n                name=\"password\"\n            >\n        </label>\n        <button type=\"submit\">Login</button>\n    </form>\n</body>\n</html>"@
}

/// Render the login page. The error message is shown only when its tag
/// verifies, and HTML-escaped then; otherwise the page carries no message,
/// whatever the query said.
pub fn login_form(query_params: Option<&QueryParams>, hmac_secret: &HmacSecret) -> (r: String)
    ensures
        r@ == login_page(
            match query_params {
                Some(q) => if signature_accepted(
                    q.error@,
                    spec_tag_view(&q.tag),
                    encode_utf8(hmac_secret.0@),
                ) {
                    error_fragment(q.error@)
                } else {
                    Seq::empty()
                },
                None => Seq::empty(),
            },
        ),
{
    let error_html: String = match query_params {
        Some(q) => {
            if q.is_valid(hmac_secret) {
                let escaped = html_escape_minimal(q.error.as_str());
                let mut fragment = String::from_str("<p><i>");
                fragment.append(escaped.as_str());
                fragment.append("</i></p>");
                proof {
                    assert(fragment@ =~= error_fragment(q.error@));
                }
                fragment
            } else {
                String::new()
            }
        },
        None => String::new(),
    };

    let mut page = String::from_str(
        "<!DOCTYPE html>\n<html lang=\"en\">\n<head>\n    <meta http-equiv=\"content-type\" content=\"text/html; charset=utf-8\">\n    <title>Login</title>\n</head>\n<body>\n    ",
    );
    page.append(error_html.as_str());
    page.append(
        "\n    <form action=\"/login\" method=\"post\">\n        <label>Username\n            <input\n                type=\"text\"\n                placeholder=\"Enter Username\"\n                name=\"username\"\n            >\n        </label>\n        <label>Password\n            <input\n                type=\"password\"\n                placeholder=\"Enter Password\"\n                name=\"password\"\n            >\n        </label>\n        <button type=\"submit\">Login</button>\n    </form>\n</body>\n</html>",
    );
    proof {
        assert(page@ =~= login_page(error_html@));
    }
    page
}

/// Why a login failed: bad credentials (the user-facing message is the
/// generic one), or an internal fault.
#[derive(Debug)]
pub enum LoginError {
    AuthError(String),
    UnexpectedError(String),
}

impl LoginError {
    /// The message shown to the user: always the generic one for bad
    /// credentials, so the page never hints at which part was wrong.
    pub fn message(&self) -> (r: String)
        ensures
            match self {
                LoginError::AuthError(_) => r@ == "Authentication failed"@,
                LoginError::UnexpectedError(m) => r@ == m@,
            },
    {
        match self {
            LoginError::AuthError(_) => String::from_str("Authentication failed"),
            LoginError::UnexpectedError(m) => m.clone(),
        }
    }
}

/// Check the credentials against the stored users. A success carries the
/// user id for the session; either failure kind keeps its internal detail
/// for the logs and maps to a generic message for the user.
pub fn login(store: &Store, credentials: &Credentials) -> (r: Result<u64, LoginError>)
    ensures
        is_expected_auth_outcome(
            match r {
                Ok(id) => Ok(id),
                Err(LoginError::AuthError(_)) => Err(AuthError::InvalidCredentials),
                Err(LoginError::UnexpectedError(m)) => Err(AuthError::UnexpectedError(m)),
            },
            store.users@,
            credentials.username@,
            credentials.password@,
        ),
        r matches Err(LoginError::AuthError(m)) ==> m@ == "Authentication failed"@,
{
    match authenticate(store, credentials) {
        Ok(id) => Ok(id),
        Err(AuthError::InvalidCredentials) => Err(
            LoginError::AuthError(String::from_str("Authentication failed")),
        ),
        Err(AuthError::UnexpectedError(m)) => Err(LoginError::UnexpectedError(m)),
    }
}

/// The location a failed login redirects to: the login page, with the
/// message and its tag in the query string.
pub open spec fn login_failure_location(message: Seq<char>, key: Seq<u8>) -> Seq<char> {
    "/login?error="@ + url_encoded(message) + "&tag="@ + hex_encoding(
        RedirectSigner::sign_spec(message, key),
    )
}

/// Build the redirect for a failed login: the user-facing message rides in
/// the query string, signed so the page can trust it.
pub fn login_redirect(e: &LoginError, secret: &HmacSecret) -> (r: String)
    ensures
        match e {
            LoginError::AuthError(_) => r@ == login_failure_location(
                "Authentication failed"@,
                encode_utf8(secret.0@),
            ),
            LoginError::UnexpectedError(m) => r@ == login_failure_location(
                m@,
                encode_utf8(secret.0@),
            ),
        },
{
    let message = e.message();
    let tag = RedirectSigner::sign(message.as_str(), secret.as_bytes());
    let tag_hex = hex_encode(tag.as_slice());
    let mut location = String::from_str("/login?error=");
    location.append(url_encode(message.as_str()).as_str());
    location.append("&tag=");
    location.append(tag_hex.as_str());
    proof {
        assert(location@ =~= login_failure_location(message@, encode_utf8(secret.0@)));
    }
    location
}

/// Round trip across the redirect: the tag that `login_redirect` puts in the
/// URL is accepted by the login page for the same message and key.
pub proof fn lemma_redirect_roundtrip(message: Seq<char>, key: Seq<u8>)
    ensures
        signature_accepted(
            message,
            Some(hex_encoding(RedirectSigner::sign_spec(message, key))),
            key,
        ),
{
    lemma_hex_roundtrip(RedirectSigner::sign_spec(message, key));
}

/// Tampering fails closed: keeping the old tag while altering the message
/// leaves the page rendering nothing, whenever the altered message's MAC
/// differs from the original's (which no contract here can rule in or out —
/// it is what the MAC is trusted for).
pub proof fn lemma_tampering_fails_closed(original: Seq<char>, tampered: Seq<char>, key: Seq<u8>)
    requires
        RedirectSigner::sign_spec(tampered, key) != RedirectSigner::sign_spec(original, key),
    ensures
        !signature_accepted(
            tampered,
            Some(hex_encoding(RedirectSigner::sign_spec(original, key))),
            key,
        ),
{
    lemma_hex_roundtrip(RedirectSigner::sign_spec(original, key));
}

} // verus!
