//! A subscriber's display name, validated on construction.

use vstd::prelude::*;
use vstd::string::StrSliceExecFns;

use crate::forbidden_name_char;
use unicode_segmentation::UnicodeSegmentation;

verus! {

/// Why a candidate name was rejected.
#[derive(Debug, Clone, PartialEq, Eq)]
pub enum Error {
    /// The string is empty or holds nothing but whitespace.
    Empty,
    /// The string is longer than 256 extended grapheme clusters.
    TooLong,
    /// The string holds one of the forbidden characters.
    InvalidCharacters,
}

/// The Unicode code points with the `White_Space` property; the same set
/// that `str::trim` strips from both ends.
pub open spec fn is_unicode_whitespace(c: char) -> bool {
    c == '\u{0009}' || c == '\u{000A}' || c == '\u{000B}' || c == '\u{000C}' || c == '\u{000D}'
        || c == '\u{0020}' || c == '\u{0085}' || c == '\u{00A0}' || c == '\u{1680}'
        || c == '\u{2000}' || c == '\u{2001}' || c == '\u{2002}' || c == '\u{2003}'
        || c == '\u{2004}' || c == '\u{2005}' || c == '\u{2006}' || c == '\u{2007}'
        || c == '\u{2008}' || c == '\u{2009}' || c == '\u{200A}' || c == '\u{2028}'
        || c == '\u{2029}' || c == '\u{202F}' || c == '\u{205F}' || c == '\u{3000}'
}

/// True of the empty string and of strings made of whitespace alone:
/// exactly the strings that trimming leaves empty.
pub open spec fn whitespace_only(s: Seq<char>) -> bool {
    forall|i: int| 0 <= i < s.len() ==> is_unicode_whitespace(s[i])
}

/// How many extended grapheme clusters a string holds.
pub uninterp spec fn grapheme_count(s: Seq<char>) -> nat;

/// Relies on `unicode_segmentation::UnicodeSegmentation::graphemes` (with the
/// extended grapheme definition): the clusters depend on the characters alone,
/// and counting them yields their number.
#[verifier::external_body]
fn count_graphemes(s: &str) -> (n: usize)
    ensures
        n as nat == grapheme_count(s@),
{
    s.graphemes(true).count()
}

fn is_unicode_whitespace_exec(c: char) -> (r: bool)
    ensures
        r == is_unicode_whitespace(c),
{
    c == '\u{0009}' || c == '\u{000A}' || c == '\u{000B}' || c == '\u{000C}' || c == '\u{000D}'
        || c == '\u{0020}' || c == '\u{0085}' || c == '\u{00A0}' || c == '\u{1680}'
        || c == '\u{2000}' || c == '\u{2001}' || c == '\u{2002}' || c == '\u{2003}'
        || c == '\u{2004}' || c == '\u{2005}' || c == '\u{2006}' || c == '\u{2007}'
        || c == '\u{2008}' || c == '\u{2009}' || c == '\u{200A}' || c == '\u{2028}'
        || c == '\u{2029}' || c == '\u{202F}' || c == '\u{205F}' || c == '\u{3000}'
}

fn all_whitespace(s: &str) -> (r: bool)
    ensures
        r == whitespace_only(s@),
{
    let len = s.unicode_len();
    let mut i: usize = 0;
    while i < len
        invariant
            i <= len,
            len == s@.len(),
            forall|j: int| 0 <= j < i ==> is_unicode_whitespace(s@[j]),
        decreases len - i,
    {
        let c = s.get_char(i);
        if !is_unicode_whitespace_exec(c) {
            return false;
        }
        i = i + 1;
    }
    true
}

fn forbidden_name_char_exec(c: char) -> (r: bool)
    ensures
        r == forbidden_name_char(c),
{
    c == '/' || c == '(' || c == ')' || c == '"' || c == '<' || c == '>' || c == '\\' || c == '{'
        || c == '}'
}

fn contains_forbidden(s: &str) -> (r: bool)
    ensures
        r == exists|i: int| 0 <= i < s@.len() && forbidden_name_char(s@[i]),
{
    let len = s.unicode_len();
    let mut i: usize = 0;
    while i < len
        invariant
            i <= len,
            len == s@.len(),
            forall|j: int| 0 <= j < i ==> !forbidden_name_char(s@[j]),
        decreases len - i,
    {
        let c = s.get_char(i);
        if forbidden_name_char_exec(c) {
            return true;
        }
        i = i + 1;
    }
    false
}

/// A validated display name. `parse` is the only way to obtain one.
#[derive(Debug)]
pub struct Name(String);

impl Clone for Name {
    fn clone(&self) -> (r: Self)
        ensures
            r@ == self@,
    {
        proof {
            use_type_invariant(self);
        }
        Name(self.0.clone())
    }
}

impl View for Name {
    type V = Seq<char>;

    closed spec fn view(&self) -> Seq<char> {
        self.0@
    }
}

impl Name {
    #[verifier::type_invariant]
    closed spec fn type_inv(&self) -> bool {
        Self::valid(self.0@)
    }

    /// What `parse` accepts: not whitespace-only, at most 256 graphemes,
    /// none of the forbidden characters.
    pub open spec fn valid(s: Seq<char>) -> bool {
        &&& !whitespace_only(s)
        &&& grapheme_count(s) <= 256
        &&& forall|i: int| 0 <= i < s.len() ==> !forbidden_name_char(s[i])
    }

    /// Which rejection a given string earns; meaningful only when `valid`
    /// does not hold. The checks apply in a fixed order: emptiness first,
    /// then length, then the character set.
    pub open spec fn rejection(s: Seq<char>) -> Error {
        if whitespace_only(s) {
            Error::Empty
        } else if grapheme_count(s) > 256 {
            Error::TooLong
        } else {
            Error::InvalidCharacters
        }
    }

    /// Validate a raw string as a display name. The stored value keeps the
    /// original, untrimmed content; trimming serves emptiness detection only.
    pub fn parse(s: String) -> (r: Result<Name, Error>)
        ensures
            match r {
                Ok(name) => Self::valid(s@) && name@ == s@,
                Err(e) => !Self::valid(s@) && e == Self::rejection(s@),
            },
    {
        if all_whitespace(s.as_str()) {
            return Err(Error::Empty);
        }
        let n = count_graphemes(s.as_str());
        if n > 256 {
            return Err(Error::TooLong);
        }
        if contains_forbidden(s.as_str()) {
            return Err(Error::InvalidCharacters);
        }
        Ok(Name(s))
    }

    /// Read access to the validated string.
    pub fn as_str(&self) -> (r: &str)
        ensures
            r@ == self@,
    {
        self.0.as_str()
    }
}

} // verus!
