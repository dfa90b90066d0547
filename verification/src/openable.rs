//! How a value is turned into what the system opens: a string is read as a URL
//! or as the path of a file, and a list is opened whole or not at all.

use vstd::prelude::*;
use vstd::string::StringExecFns;

verus! {

/// Why a text is not an absolute URL.
#[derive(Clone, Copy, Debug, PartialEq, Eq, Structural)]
pub enum UrlFault {
    /// The text has no scheme, and there is no base to resolve it against.
    RelativeWithoutBase,
    /// The text breaks the URL syntax in another way.
    Malformed,
}

/// What `url::Url::parse` makes of a text: the serialization of the URL that
/// it read, or the fault that it found.
pub uninterp spec fn parsed_url(text: Seq<char>) -> Result<Seq<char>, UrlFault>;

/// The outcome of a parse with its text taken as a sequence of characters.
pub open spec fn parse_view(parsed: Result<String, UrlFault>) -> Result<Seq<char>, UrlFault> {
    match parsed {
        Ok(text) => Ok(text@),
        Err(fault) => Err(fault),
    }
}

/// Calls `url::Url::parse` and takes the serialization out of the URL. Of the
/// parser's errors only the one for a relative URL without a base is told
/// apart. The contract claims that the outcome depends on the text alone, and
/// names it `parsed_url`.
#[verifier::external_body]
fn parse_url(text: &str) -> (parsed: Result<String, UrlFault>)
    ensures
        parse_view(parsed) == parsed_url(text@),
{
    match url::Url::parse(text) {
        Ok(url) => Ok(String::from(url)),
        Err(url::ParseError::RelativeUrlWithoutBase) => Err(UrlFault::RelativeWithoutBase),
        Err(_) => Err(UrlFault::Malformed),
    }
}

/// What is known of a string once it has been parsed.
#[derive(Debug, PartialEq, Eq)]
pub enum Reading {
    /// The text to make the URL from.
    Address(String),
    /// The string has no scheme: whether a file of that name exists decides.
    Probe,
}

/// A `Reading` with its text as a sequence of characters.
pub enum ReadingView {
    Address(Seq<char>),
    Probe,
}

impl View for Reading {
    type V = ReadingView;

    open spec fn view(&self) -> ReadingView {
        match self {
            Reading::Address(text) => ReadingView::Address(text@),
            Reading::Probe => ReadingView::Probe,
        }
    }
}

/// What the system makes the URL from.
#[derive(Debug, PartialEq, Eq)]
pub enum Source {
    /// The text of a URL.
    Address(String),
    /// The path of a file that exists.
    File(String),
}

/// A `Source` with its text as a sequence of characters.
pub enum SourceView {
    Address(Seq<char>),
    File(Seq<char>),
}

impl View for Source {
    type V = SourceView;

    open spec fn view(&self) -> SourceView {
        match self {
            Source::Address(text) => SourceView::Address(text@),
            Source::File(path) => SourceView::File(path@),
        }
    }
}

/// How a string is read, given the outcome of parsing it: a URL is taken in
/// its serialized form, a string without a scheme may be a path, and anything
/// else is handed on as it is.
pub open spec fn reading_of(value: Seq<char>, parsed: Result<Seq<char>, UrlFault>) -> ReadingView {
    match parsed {
        Ok(text) => ReadingView::Address(text),
        Err(UrlFault::RelativeWithoutBase) => ReadingView::Probe,
        Err(UrlFault::Malformed) => ReadingView::Address(value),
    }
}

/// Reads a string from the outcome of parsing it.
pub fn url_parsed(value: &str, parsed: Result<String, UrlFault>) -> (r: Reading)
    ensures
        r@ == reading_of(value@, parse_view(parsed)),
{
    match parsed {
        Ok(text) => Reading::Address(text),
        Err(UrlFault::RelativeWithoutBase) => Reading::Probe,
        Err(UrlFault::Malformed) => Reading::Address(String::from_str(value)),
    }
}

/// Parses a string and reads it.
pub fn url(value: &str) -> (r: Reading)
    ensures
        r@ == reading_of(value@, parsed_url(value@)),
{
    url_parsed(value, parse_url(value))
}

/// Settles a string without a scheme: the path of a file if one exists under
/// that name, the text of a URL if none does.
pub fn url_probed(value: &str, on_disk: bool) -> (r: Source)
    ensures
        r@ == if on_disk {
            SourceView::File(value@)
        } else {
            SourceView::Address(value@)
        },
{
    if on_disk {
        Source::File(String::from_str(value))
    } else {
        Source::Address(String::from_str(value))
    }
}

/// The URL that stands for a scheme: the scheme, a colon and two slashes.
pub fn scheme_url(scheme: &str) -> (r: String)
    ensures
        r@ == scheme@ + "://"@,
{
    let mut r = String::from_str(scheme);
    r.append("://");
    r
}

/// Every item of the list was converted.
pub open spec fn all_some<T>(items: Seq<Option<T>>) -> bool {
    forall|i: int| 0 <= i < items.len() ==> (#[trigger] items[i]) is Some
}

/// The conversions of a list, item by item, if all of them succeeded; nothing
/// if one of them failed.
pub fn all_openable<T>(items: Vec<Option<T>>) -> (r: Option<Vec<T>>)
    ensures
        r is Some <==> all_some(items@),
        r matches Some(urls) ==> urls@.len() == items@.len() && forall|i: int|
            0 <= i < items@.len() ==> items@[i] == Some(#[trigger] urls@[i]),
{
    let mut urls: Vec<T> = Vec::new();
    for item in it: items
        invariant
            it.seq() == items@,
            urls@.len() == it.index(),
            forall|i: int|
                #![trigger items@[i]]
                #![trigger urls@[i]]
                0 <= i < it.index() ==> items@[i] == Some(urls@[i]),
    {
        match item {
            None => {
                return None;
            },
            Some(url) => {
                urls.push(url);
            },
        }
    }
    Some(urls)
}

} // verus!
