//! The credential that a write presents to the store.
use vstd::prelude::*;

verus! {

#[verifier::external_type_specification]
#[verifier::external_body]
pub struct ExHeaderValue(http::HeaderValue);

#[verifier::external_type_specification]
#[verifier::external_body]
pub struct ExInvalidHeaderValue(http::header::InvalidHeaderValue);

/// Whether a character may stand in an HTTP header value: a tab, or any
/// character but the other control characters and DEL. (Characters beyond
/// ASCII are encoded as bytes of 128 and more, which are all allowed.)
pub open spec fn header_char_ok(c: char) -> bool {
    (c as u32 >= 32 && c as u32 != 127) || c == '\t'
}

/// Whether every character of the text may stand in an HTTP header value.
pub open spec fn header_text_ok(s: Seq<char>) -> bool {
    forall|i: int| 0 <= i < s.len() ==> header_char_ok(#[trigger] s[i])
}

/// Relies on http's `HeaderValue::try_from(String)`: it accepts a text exactly
/// when each of its bytes is a tab or lies in 32..=255 other than 127.
#[verifier::external_body]
fn header_value(text: String) -> (r: Result<http::HeaderValue, http::header::InvalidHeaderValue>)
    ensures
        r.is_ok() <==> header_text_ok(text@),
{
    http::HeaderValue::try_from(text)
}

/// The text `Token ` that precedes a token.
pub open spec fn token_prefix() -> Seq<char> {
    seq!['T', 'o', 'k', 'e', 'n', ' ']
}

/// A text that http accepts as a header value.
#[derive(Debug, PartialEq, Eq)]
pub struct HeaderText {
    text: String,
}

impl HeaderText {
    #[verifier::type_invariant]
    spec fn well_formed(&self) -> bool {
        header_text_ok(self.text@)
    }

    /// The text.
    pub closed spec fn spec_text(&self) -> Seq<char> {
        self.text@
    }

    /// The text, where http accepts it as a header value.
    pub fn new(text: String) -> (r: Result<HeaderText, http::header::InvalidHeaderValue>)
        ensures
            r.is_ok() <==> header_text_ok(text@),
            r.is_ok() ==> r.unwrap().spec_text() == text@,
    {
        let checked = text.clone();
        match header_value(checked) {
            Ok(_) => Ok(HeaderText { text }),
            Err(e) => Err(e),
        }
    }

    /// The text.
    pub fn as_string(&self) -> (r: &String)
        ensures
            r@ == self.spec_text(),
            header_text_ok(r@),
    {
        proof {
            use_type_invariant(self);
        }
        &self.text
    }
}

/// How a write authenticates.
#[derive(Debug, PartialEq, Eq)]
pub enum Authorization {
    /// An API token; holds the whole header value, `Token <token>`.
    Token(HeaderText),
}

impl Authorization {
    /// The value of the `Authorization` header.
    pub open spec fn spec_header_value(&self) -> Seq<char> {
        match self {
            Authorization::Token(v) => v.spec_text(),
        }
    }

    /// Token authorization: the header value is `Token ` followed by the
    /// token. Fails where that text is no legal header value.
    pub fn token(token: &str) -> (r: Result<Authorization, http::header::InvalidHeaderValue>)
        ensures
            r.is_ok() <==> header_text_ok(token_prefix() + token@),
            r.is_ok() ==> r.unwrap().spec_header_value() == token_prefix() + token@,
    {
        proof {
            reveal_strlit("Token ");
            assert("Token "@ =~= token_prefix());
        }
        let mut text = String::from_str("Token ");
        text.append(token);
        match HeaderText::new(text) {
            Ok(value) => Ok(Authorization::Token(value)),
            Err(e) => Err(e),
        }
    }

    /// The value of the `Authorization` header, which http accepts.
    pub fn header_value(&self) -> (r: &String)
        ensures
            r@ == self.spec_header_value(),
            header_text_ok(r@),
    {
        match self {
            Authorization::Token(v) => v.as_string(),
        }
    }
}

} // verus!
