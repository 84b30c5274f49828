//! The settings the service runs with, as plain values: database
//! coordinates, application parameters and the email sender account.
//! Reading them from files or the environment happens outside the library;
//! here live the pieces with behavior: the environment name, the connection
//! strings, and the HMAC secret.

use vstd::prelude::*;
use vstd::string::StringExecFns;
use vstd::utf8::encode_utf8;

use core::mem::swap;

use crate::store::str_eq;

verus! {

/// The decimal digit for a value below ten.
pub open spec fn dec_digit_char(n: int) -> char {
    if n == 0 {
        '0'
    } else if n == 1 {
        '1'
    } else if n == 2 {
        '2'
    } else if n == 3 {
        '3'
    } else if n == 4 {
        '4'
    } else if n == 5 {
        '5'
    } else if n == 6 {
        '6'
    } else if n == 7 {
        '7'
    } else if n == 8 {
        '8'
    } else {
        '9'
    }
}

/// A non-negative number written in decimal, without leading zeros (except
/// for zero itself).
pub open spec fn dec_string(n: int) -> Seq<char>
    recommends
        n >= 0,
    decreases n,
{
    if n < 10 {
        seq![dec_digit_char(n)]
    } else {
        dec_string(n / 10) + seq![dec_digit_char(n % 10)]
    }
}

/// Relies on `String::push`: appends exactly one character.
#[verifier::external_body]
fn push_char(s: &mut String, c: char)
    ensures
        final(s)@ == old(s)@.push(c),
{
    s.push(c);
}

fn decimal_digit(n: u16) -> (c: char)
    requires
        n < 10,
    ensures
        c == dec_digit_char(n as int),
{
    if n == 0 {
        '0'
    } else if n == 1 {
        '1'
    } else if n == 2 {
        '2'
    } else if n == 3 {
        '3'
    } else if n == 4 {
        '4'
    } else if n == 5 {
        '5'
    } else if n == 6 {
        '6'
    } else if n == 7 {
        '7'
    } else if n == 8 {
        '8'
    } else {
        '9'
    }
}

/// Append `n` in decimal.
fn push_decimal(out: &mut String, n: u16)
    ensures
        final(out)@ == old(out)@ + dec_string(n as int),
    decreases n,
{
    if n < 10 {
        push_char(out, decimal_digit(n));
        proof {
            assert(out@ =~= old(out)@ + dec_string(n as int));
        }
    } else {
        push_decimal(out, n / 10);
        push_char(out, decimal_digit(n % 10));
        proof {
            assert(out@ =~= old(out)@ + dec_string(n as int));
        }
    }
}

/// The deployment environment the service runs in.
#[derive(Debug, Clone, Copy, PartialEq, Eq, Structural)]
pub enum Environment {
    Local,
    Production,
}

impl Environment {
    /// The environment's lowercase name.
    pub fn as_str(&self) -> (r: &'static str)
        ensures
            match self {
                Environment::Local => r@ == "local"@,
                Environment::Production => r@ == "production"@,
            },
    {
        match self {
            Environment::Local => "local",
            Environment::Production => "production",
        }
    }

    /// The environment a lowercase name denotes; any other name is rejected
    /// with a message that repeats it.
    pub fn try_from(s: String) -> (r: Result<Environment, String>)
        ensures
            match r {
                Ok(e) => (s@ == "local"@ && e == Environment::Local) || (s@ == "production"@ && e
                    == Environment::Production),
                Err(m) => s@ != "local"@ && s@ != "production"@ && m@ == s@
                    + " is not a supported environment. Use either `local` or `production`."@,
            },
    {
        if str_eq(s.as_str(), "local") {
            Ok(Environment::Local)
        } else if str_eq(s.as_str(), "production") {
            Ok(Environment::Production)
        } else {
            Err(s.concat(" is not a supported environment. Use either `local` or `production`."))
        }
    }
}

/// Where the relational store lives and how to authenticate against it.
#[derive(Debug)]
pub struct DatabaseSettings {
    pub username: String,
    pub password: String,
    pub port: u16,
    pub host: String,
    pub database_name: String,
}

/// A postgres connection URL for these coordinates and that database name.
pub open spec fn connection_string_of(
    username: Seq<char>,
    password: Seq<char>,
    host: Seq<char>,
    port: u16,
) -> Seq<char> {
    "postgres://"@ + username + ":"@ + password + "@"@ + host + ":"@ + dec_string(port as int)
}

impl DatabaseSettings {
    /// The connection URL of the configured logical database.
    pub fn connection_string(&self) -> (r: String)
        ensures
            r@ == connection_string_of(self.username@, self.password@, self.host@, self.port)
                + "/"@ + self.database_name@,
    {
        let mut out = self.connection_string_without_db();
        out.append("/");
        out.append(self.database_name.as_str());
        out
    }

    /// The connection URL of the server itself, without a database name:
    /// useful for operations that create or drop databases.
    pub fn connection_string_without_db(&self) -> (r: String)
        ensures
            r@ == connection_string_of(self.username@, self.password@, self.host@, self.port),
    {
        let mut out = String::from_str("postgres://");
        out.append(self.username.as_str());
        out.append(":");
        out.append(self.password.as_str());
        out.append("@");
        out.append(self.host.as_str());
        out.append(":");
        push_decimal(&mut out, self.port);
        proof {
            assert(out@ =~= connection_string_of(
                self.username@,
                self.password@,
                self.host@,
                self.port,
            ));
        }
        out
    }
}

/// The operator-configured secret that keys the redirect signer.
#[derive(Debug)]
pub struct HmacSecret(pub String);

impl HmacSecret {
    /// The secret's bytes, as the HMAC primitive consumes them.
    pub fn as_bytes(&self) -> (r: &[u8])
        ensures
            r@ == encode_utf8(self.0@),
    {
        self.0.as_str().as_bytes()
    }
}

/// How the HTTP side of the service is set up.
#[derive(Debug)]
pub struct ApplicationSettings {
    pub port: u16,
    pub host: String,
    pub redis_uri: String,
    pub hmac_secret: Option<HmacSecret>,
}

/// The email provider account used for outbound mail.
#[derive(Debug)]
pub struct EmailSettings {
    pub api_key: String,
    pub api_url: String,
    pub sender_name: String,
    pub sender_email: String,
}

/// Everything the service needs to start.
#[derive(Debug)]
pub struct Settings {
    pub database: DatabaseSettings,
    pub application: ApplicationSettings,
    pub email: Option<EmailSettings>,
}

impl Settings {
    /// Point the email settings, when they exist, at another provider URL;
    /// everything else is kept.
    pub fn set_email_url(&mut self, email_url: String)
        ensures
            final(self).database == old(self).database,
            final(self).application == old(self).application,
            match old(self).email {
                None => final(self).email is None,
                Some(e) => final(self).email matches Some(f) && f.api_url == email_url
                    && f.api_key == e.api_key && f.sender_name == e.sender_name && f.sender_email
                    == e.sender_email,
            },
    {
        let mut email_settings: Option<EmailSettings> = None;
        swap(&mut email_settings, &mut self.email);
        match email_settings {
            Some(mut e) => {
                e.api_url = email_url;
                self.email = Some(e);
            },
            None => {},
        }
    }
}

} // verus!
