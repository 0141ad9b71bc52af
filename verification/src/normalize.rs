//! Album and file references, brought into the form the remote API takes.
//!
//! An album is named by its URL, a file by its bare code. Users may give
//! either as a bare code or as a full URL; an input is taken for a URL
//! where it holds the site's name. Input that claims to be a URL goes
//! through the URL parser. An album that fails to parse is an
//! error; a file that fails to parse, or whose URL has no path segments,
//! is left out of its batch without a word.

use vstd::prelude::*;
use vstd::string::StringExecFns;
use crate::error::{Error, ErrorKind, ErrorView};
use crate::text::{contains, occurs_in, texts};
use crate::url::{parse_url, parse_view, url_parse, ParsedUrl, ParsedUrlView};

verus! {

/// An input that holds this is taken to be an album's full URL.
pub const SITE: &'static str = "catbox.moe";

/// An input that holds this is taken to be a file's full URL.
pub const FILE_HOST: &'static str = "files.catbox.moe";

/// What a bare album code is appended to.
pub const ALBUM_PREFIX: &'static str = "https://catbox.moe/c/";

/// The URL of an album, as the URL parser serialized it.
#[derive(Debug, PartialEq, Eq)]
pub struct AlbumReference {
    url: String,
}

impl View for AlbumReference {
    type V = Seq<char>;

    closed spec fn view(&self) -> Seq<char> {
        self.url@
    }
}

impl AlbumReference {
    /// The album's URL.
    pub fn as_str(&self) -> (url: &str)
        ensures
            url@ == self@,
    {
        self.url.as_str()
    }
}

/// The bare code of a remote file.
#[derive(Debug, PartialEq, Eq)]
pub struct FileReference {
    code: String,
}

impl View for FileReference {
    type V = Seq<char>;

    closed spec fn view(&self) -> Seq<char> {
        self.code@
    }
}

impl FileReference {
    /// The file's code.
    pub fn as_str(&self) -> (code: &str)
        ensures
            code@ == self@,
    {
        self.code.as_str()
    }
}

/// The codes of `files`, each as its sequence of characters.
pub open spec fn codes(files: Seq<FileReference>) -> Seq<Seq<char>> {
    Seq::new(files.len(), |i: int| files[i]@)
}

/// The string that is parsed for an album: the input itself where it holds
/// the site's name, else the input appended to the album prefix.
pub open spec fn album_candidate(album: Seq<char>) -> Seq<char> {
    if occurs_in(SITE@, album) {
        album
    } else {
        ALBUM_PREFIX@ + album
    }
}

/// The album that a parse yields: the URL's serialization, or a
/// normalization error with the parser's reason.
pub open spec fn album_of(parsed: Result<ParsedUrlView, Seq<char>>) -> Result<Seq<char>, ErrorView> {
    match parsed {
        Ok(url) => Ok(url.text),
        Err(reason) => Err(ErrorView { kind: ErrorKind::Normalization, message: reason }),
    }
}

/// The album that `album` names.
pub open spec fn normalized_album(album: Seq<char>) -> Result<Seq<char>, ErrorView> {
    album_of(url_parse(album_candidate(album)))
}

/// The file code that a parse yields: the first segment of the URL's path,
/// if it parsed and has path segments.
pub open spec fn first_segment(parsed: Result<ParsedUrlView, Seq<char>>) -> Option<Seq<char>> {
    match parsed {
        Ok(url) => match url.segments {
            Some(segments) => if segments.len() > 0 {
                Some(segments[0])
            } else {
                None
            },
            None => None,
        },
        Err(_) => None,
    }
}

/// The file code that `file` names, if any: the first path segment of the
/// URL where `file` holds the file host's name, else `file` itself.
pub open spec fn normalized_file(file: Seq<char>) -> Option<Seq<char>> {
    if occurs_in(FILE_HOST@, file) {
        first_segment(url_parse(file))
    } else {
        Some(file)
    }
}

/// The file codes that `files` name, in order, without those that name none.
pub open spec fn normalized_files(files: Seq<Seq<char>>) -> Seq<Seq<char>>
    decreases files.len(),
{
    if files.len() == 0 {
        Seq::empty()
    } else {
        let before = normalized_files(files.drop_last());
        match normalized_file(files.last()) {
            Some(code) => before.push(code),
            None => before,
        }
    }
}

/// The view of an album or of the error in its place.
pub open spec fn album_view(album: Result<AlbumReference, Error>) -> Result<Seq<char>, ErrorView> {
    match album {
        Ok(reference) => Ok(reference@),
        Err(error) => Err(error@),
    }
}

/// The view of a file reference, if there is one.
pub open spec fn file_view(file: Option<FileReference>) -> Option<Seq<char>> {
    match file {
        Some(reference) => Some(reference@),
        None => None,
    }
}

/// The string to parse for the album that `album` names.
pub fn to_album_candidate(album: &str) -> (candidate: String)
    ensures
        candidate@ == album_candidate(album@),
{
    if contains(album, SITE) {
        String::from_str(album)
    } else {
        String::from_str(ALBUM_PREFIX).concat(album)
    }
}

/// Makes an album reference of a parse's outcome.
pub fn album_from_parsed(parsed: Result<ParsedUrl, String>) -> (album: Result<AlbumReference, Error>)
    ensures
        album_view(album) == album_of(parse_view(parsed)),
{
    match parsed {
        Ok(url) => Ok(AlbumReference { url: url.text }),
        Err(reason) => Err(Error::new(ErrorKind::Normalization, reason)),
    }
}

/// Brings an album reference into canonical form: a full URL is parsed as
/// it stands, a bare code is first appended to the album prefix. Fails
/// exactly when the URL parser rejects that string.
pub fn normalize_album(album: &str) -> (normalized: Result<AlbumReference, Error>)
    ensures
        album_view(normalized) == normalized_album(album@),
{
    let candidate = to_album_candidate(album);
    album_from_parsed(parse_url(candidate.as_str()))
}

/// Makes a file reference of a parse's outcome: the first path segment,
/// where the URL parsed and has one.
pub fn file_from_parsed(parsed: Result<ParsedUrl, String>) -> (file: Option<FileReference>)
    ensures
        file_view(file) == first_segment(parse_view(parsed)),
{
    match parsed {
        Ok(url) => match url.segments {
            Some(segments) => if segments.len() > 0 {
                Some(FileReference { code: segments[0].clone() })
            } else {
                None
            },
            None => None,
        },
        Err(_) => None,
    }
}

/// Brings a file reference into canonical form: of a full URL the first
/// path segment, a bare code as it stands. `None` where `file` claims to
/// be a URL and yields no such segment.
pub fn normalize_file(file: String) -> (normalized: Option<FileReference>)
    ensures
        file_view(normalized) == normalized_file(file@),
{
    if contains(file.as_str(), FILE_HOST) {
        file_from_parsed(parse_url(file.as_str()))
    } else {
        Some(FileReference { code: file })
    }
}

/// Brings every file reference into canonical form, in order, and leaves
/// out those that have none.
pub fn normalize_files(files: Vec<String>) -> (normalized: Vec<FileReference>)
    ensures
        codes(normalized@) == normalized_files(texts(files@)),
{
    let ghost inputs = files@;
    let mut normalized: Vec<FileReference> = Vec::new();
    assert(codes(normalized@) == Seq::<Seq<char>>::empty());
    for file in it: files
        invariant
            it.seq() == inputs,
            codes(normalized@) == normalized_files(texts(inputs.take(it.index() as int))),
    {
        let ghost seen = inputs.take(it.index() as int);
        let ghost grown = inputs.take(it.index() + 1);
        assert(texts(grown).drop_last() == texts(seen));
        assert(texts(grown).last() == file@);
        let ghost before = normalized@;
        match normalize_file(file) {
            Some(reference) => {
                normalized.push(reference);
                assert(codes(normalized@) == codes(before).push(reference@));
            },
            None => {},
        }
    }
    assert(inputs.take(inputs.len() as int) == inputs);
    normalized
}

/// Whether `url` is an album URL in canonical form: it holds the site's
/// name, and the URL parser serializes it to itself.
pub open spec fn is_canonical_album(url: Seq<char>) -> bool {
    &&& occurs_in(SITE@, url)
    &&& url_parse(url) matches Ok(parsed) && parsed.text == url
}

/// Normalizing an album URL that is already canonical yields that URL.
pub proof fn lemma_canonical_album_is_fixed(url: Seq<char>)
    requires
        is_canonical_album(url),
    ensures
        normalized_album(url) == Ok::<Seq<char>, ErrorView>(url),
{
}

/// Normalization of albums is idempotent: where an input, a bare code or
/// a URL, is normalized to a canonical album URL, normalizing that URL
/// again changes nothing.
pub proof fn lemma_normalize_album_is_idempotent(album: Seq<char>)
    requires
        normalized_album(album) matches Ok(url) && is_canonical_album(url),
    ensures
        normalized_album(normalized_album(album)->Ok_0) == normalized_album(album),
{
}

/// The code of a file URL survives the round through the parser: where a
/// file URL is serialized to a string that still holds the file host's
/// name and parses back to the same URL, that string names the same file
/// code as the input did.
pub proof fn lemma_file_code_is_stable(file: Seq<char>)
    requires
        occurs_in(FILE_HOST@, file),
        url_parse(file) matches Ok(parsed) && occurs_in(FILE_HOST@, parsed.text) && url_parse(
            parsed.text,
        ) == Ok::<ParsedUrlView, Seq<char>>(parsed),
    ensures
        normalized_file(url_parse(file)->Ok_0.text) == normalized_file(file),
{
}

} // verus!
