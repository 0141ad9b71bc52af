//! What this crate reads of a URL, and the parser that supplies it.
//!
//! URLs are parsed by `reqwest::Url`. A parsed URL is opaque to the
//! verifier, so it is turned at once into a [`ParsedUrl`], which holds as
//! plain strings the two things the normalizer looks at.

use vstd::prelude::*;
use reqwest::Url;

verus! {

/// A URL after parsing: its serialization, and its path cut at the
/// slashes. A URL that cannot be a base has no such segments.
#[derive(Debug, PartialEq, Eq)]
pub struct ParsedUrl {
    pub text: String,
    pub segments: Option<Vec<String>>,
}

/// A [`ParsedUrl`] with its strings as sequences of characters.
pub struct ParsedUrlView {
    pub text: Seq<char>,
    pub segments: Option<Seq<Seq<char>>>,
}

impl View for ParsedUrl {
    type V = ParsedUrlView;

    open spec fn view(&self) -> ParsedUrlView {
        ParsedUrlView {
            text: self.text@,
            segments: match self.segments {
                Some(segments) => Some(crate::text::texts(segments@)),
                None => None,
            },
        }
    }
}

/// What the URL parser makes of `input`: the parsed URL, or the reason why
/// `input` is no absolute URL. The parser is a function of its input, and
/// this is its name; nothing here says what it yields on a given string.
pub uninterp spec fn url_parse(input: Seq<char>) -> Result<ParsedUrlView, Seq<char>>;

/// The outcome of a parse with its strings as sequences of characters.
pub open spec fn parse_view(parsed: Result<ParsedUrl, String>) -> Result<ParsedUrlView, Seq<char>> {
    match parsed {
        Ok(url) => Ok(url@),
        Err(reason) => Err(reason@),
    }
}

/// Parses `input` with `reqwest::Url::parse`.
///
/// Trusted, not proved: that the result is [`url_parse`] of `input`, which
/// claims no more than that the parser yields the same for the same string.
/// Of a URL that parses, `text` is its serialization (what `Url` converts
/// into as a `String`) and `segments` is what `Url::path_segments` yields,
/// collected in order; of one that does not, the error is the message of
/// the parser's `ParseError`.
#[verifier::external_body]
pub(crate) fn parse_url(input: &str) -> (parsed: Result<ParsedUrl, String>)
    ensures
        parse_view(parsed) == url_parse(input@),
{
    match Url::parse(input) {
        Ok(url) => Ok(
            ParsedUrl {
                segments: url.path_segments().map(|parts| parts.map(|part| part.to_owned()).collect()),
                text: url.into(),
            },
        ),
        Err(error) => Err(error.to_string()),
    }
}

} // verus!
