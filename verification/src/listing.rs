//! What a listing of files or albums prints.
//!
//! A listing is either numbered lines, newest entry last, or one JSON
//! document. The JSON is written by `serde_json`; the numbered lines are
//! made here.

use vstd::prelude::*;
use vstd::string::StringExecFns;
use crate::error::{Error, ErrorKind, ErrorView};
use crate::text::texts;

verus! {

/// The character of a decimal digit.
pub open spec fn digit(d: nat) -> char {
    if d == 0 {
        '0'
    } else if d == 1 {
        '1'
    } else if d == 2 {
        '2'
    } else if d == 3 {
        '3'
    } else if d == 4 {
        '4'
    } else if d == 5 {
        '5'
    } else if d == 6 {
        '6'
    } else if d == 7 {
        '7'
    } else if d == 8 {
        '8'
    } else {
        '9'
    }
}

/// `n` in decimal, without leading zeros.
pub open spec fn decimal(n: nat) -> Seq<char>
    decreases n,
{
    if n < 10 {
        seq![digit(n)]
    } else {
        decimal(n / 10).push(digit(n % 10))
    }
}

/// The `k`-th line of a numbered listing: the label, the number `k + 1`,
/// and the entry that stands `k` places from the end.
pub open spec fn numbered_line(label: Seq<char>, items: Seq<Seq<char>>, k: int) -> Seq<char> {
    label + seq![' '] + decimal((k + 1) as nat) + seq![':', ' '] + items[items.len() - 1 - k]
}

/// A numbered listing of `items`: one line for each, the last entry first.
pub open spec fn numbered(label: Seq<char>, items: Seq<Seq<char>>) -> Seq<Seq<char>> {
    Seq::new(items.len(), |k: int| numbered_line(label, items, k))
}

/// What `serde_json` makes of a list of strings when it writes them as
/// pretty-printed JSON: the document, or the reason why there is none. The
/// writer is a function of its input, and this is its name; nothing here
/// says what it yields on a given list.
pub uninterp spec fn json_pretty(items: Seq<Seq<char>>) -> Result<Seq<char>, Seq<char>>;

/// The outcome of writing a document, with its strings as sequences of
/// characters.
pub open spec fn document_view(document: Result<String, String>) -> Result<Seq<char>, Seq<char>> {
    match document {
        Ok(text) => Ok(text@),
        Err(reason) => Err(reason@),
    }
}

/// The listing that a written document makes: the document as the one
/// thing to print, or an output error with the writer's reason.
pub open spec fn document_listing(document: Result<Seq<char>, Seq<char>>) -> Result<
    Seq<Seq<char>>,
    ErrorView,
> {
    match document {
        Ok(text) => Ok(seq![text]),
        Err(reason) => Err(ErrorView { kind: ErrorKind::Io, message: reason }),
    }
}

/// What a listing of `items` prints, piece by piece.
pub open spec fn listing(label: Seq<char>, items: Seq<Seq<char>>, json: bool) -> Result<
    Seq<Seq<char>>,
    ErrorView,
> {
    if json {
        document_listing(json_pretty(items))
    } else {
        Ok(numbered(label, items))
    }
}

/// The view of a listing or of the error in its place.
pub open spec fn listing_view(listing: Result<Vec<String>, Error>) -> Result<
    Seq<Seq<char>>,
    ErrorView,
> {
    match listing {
        Ok(lines) => Ok(texts(lines@)),
        Err(error) => Err(error@),
    }
}

/// Writes `items` as pretty-printed JSON with `serde_json::to_string_pretty`.
///
/// Trusted, not proved: that the result is [`json_pretty`] of `items`,
/// which claims no more than that the writer yields the same for the same
/// list. Where it fails, the error is the message of its `serde_json::Error`.
#[verifier::external_body]
pub(crate) fn write_json(items: &Vec<String>) -> (document: Result<String, String>)
    ensures
        document_view(document) == json_pretty(texts(items@)),
{
    match serde_json::to_string_pretty(items) {
        Ok(text) => Ok(text),
        Err(error) => Err(error.to_string()),
    }
}

fn digit_str(d: usize) -> (text: &'static str)
    requires
        d < 10,
    ensures
        text@ == seq![digit(d as nat)],
{
    proof {
        reveal_strlit("0");
        reveal_strlit("1");
        reveal_strlit("2");
        reveal_strlit("3");
        reveal_strlit("4");
        reveal_strlit("5");
        reveal_strlit("6");
        reveal_strlit("7");
        reveal_strlit("8");
        reveal_strlit("9");
    }
    let text = if d == 0 {
        "0"
    } else if d == 1 {
        "1"
    } else if d == 2 {
        "2"
    } else if d == 3 {
        "3"
    } else if d == 4 {
        "4"
    } else if d == 5 {
        "5"
    } else if d == 6 {
        "6"
    } else if d == 7 {
        "7"
    } else if d == 8 {
        "8"
    } else {
        "9"
    };
    assert(text@ =~= seq![digit(d as nat)]);
    text
}

/// `n` in decimal.
pub fn to_decimal(n: usize) -> (text: String)
    ensures
        text@ == decimal(n as nat),
    decreases n,
{
    if n < 10 {
        String::from_str(digit_str(n))
    } else {
        let text = to_decimal(n / 10).concat(digit_str(n % 10));
        assert(text@ == decimal(n as nat));
        text
    }
}

/// The lines of a numbered listing of `items` under `label`: the last
/// entry is number 1.
pub fn numbered_lines(label: &str, items: &Vec<String>) -> (lines: Vec<String>)
    ensures
        lines@.len() == items@.len(),
        texts(lines@) == numbered(label@, texts(items@)),
{
    let total: usize = items.len();
    let mut lines: Vec<String> = Vec::new();
    let mut k: usize = 0;
    while k < total
        invariant
            total == items@.len(),
            k <= total,
            lines@.len() == k,
            forall|j: int| 0 <= j < k ==> lines@[j]@ == numbered_line(label@, texts(items@), j),
        decreases total - k,
    {
        let line = String::from_str(label).concat(" ").concat(to_decimal(k + 1).as_str()).concat(
            ": ",
        ).concat(items[total - 1 - k].as_str());
        proof {
            reveal_strlit(" ");
            reveal_strlit(": ");
            assert(" "@ == seq![' ']);
            assert(": "@ == seq![':', ' ']);
            assert(line@ == numbered_line(label@, texts(items@), k as int));
        }
        lines.push(line);
        k = k + 1;
    }
    assert(texts(lines@) == numbered(label@, texts(items@)));
    lines
}

/// Makes a listing of a written document.
pub fn listing_from_document(document: Result<String, String>) -> (listing: Result<
    Vec<String>,
    Error,
>)
    ensures
        listing_view(listing) == document_listing(document_view(document)),
{
    match document {
        Ok(text) => {
            let mut lines: Vec<String> = Vec::new();
            lines.push(text);
            assert(texts(lines@) == seq![text@]);
            Ok(lines)
        },
        Err(reason) => Err(Error::new(ErrorKind::Io, reason)),
    }
}

/// What a listing of `items` prints, piece by piece: one JSON document if
/// `json` is set, else numbered lines under `label`.
pub fn render_listing(label: &str, items: &Vec<String>, json: bool) -> (listing: Result<
    Vec<String>,
    Error,
>)
    ensures
        listing_view(listing) == self::listing(label@, texts(items@), json),
{
    if json {
        listing_from_document(write_json(items))
    } else {
        Ok(numbered_lines(label, items))
    }
}

} // verus!
