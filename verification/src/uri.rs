//! URIs and file paths. A URI is held as its text; what the text means is
//! asked of the `url` crate.

use std::path::PathBuf;
use vstd::prelude::*;

verus! {

/// `std::path::PathBuf`, of which nothing is known here: a path is carried,
/// never looked into.
#[verifier::external_type_specification]
#[verifier::external_body]
pub struct ExPathBuf(PathBuf);

/// The scheme of the URL that `Url::parse` reads from a text, lower-cased and
/// without the `:`; `None` where the text is no absolute URL.
pub uninterp spec fn scheme_of(uri: Seq<char>) -> Option<Seq<char>>;

/// The path that `Url::to_file_path` gives for the URL that a text holds, as
/// the platform the library is built for writes paths; `None` where the text
/// is no absolute URL or the URL names no local file.
pub uninterp spec fn file_path_of(uri: Seq<char>) -> Option<PathBuf>;

/// The text of the `file` URL that `Url::from_file_path` makes of a path;
/// `None` where it makes none: the path is not absolute.
pub uninterp spec fn uri_of_file(path: PathBuf) -> Option<Seq<char>>;

/// The path that `PathBuf::from` makes of a text.
pub uninterp spec fn path_of(text: Seq<char>) -> PathBuf;

/// `Url::parse`, and `Url::scheme` of the URL it gives. The same text gives
/// the same scheme, or none; which, is `scheme_of`.
#[verifier::external_body]
pub(crate) fn scheme(uri: &str) -> (r: Option<String>)
    ensures
        match r {
            Some(s) => scheme_of(uri@) == Some(s@),
            None => scheme_of(uri@) is None,
        },
{
    match url::Url::parse(uri) {
        Ok(url) => Some(url.scheme().to_owned()),
        Err(_) => None,
    }
}

/// `Url::parse`, and `Url::to_file_path` of the URL it gives. The same text
/// gives the same path, or none; which, is `file_path_of`.
#[verifier::external_body]
pub(crate) fn file_path(uri: &str) -> (r: Option<PathBuf>)
    ensures
        r == file_path_of(uri@),
{
    match url::Url::parse(uri) {
        Ok(url) => url.to_file_path().ok(),
        Err(_) => None,
    }
}

/// `Url::from_file_path`, and `Url::into_string` of the URL it gives. The
/// same path gives the same text, or none; which, is `uri_of_file`.
#[verifier::external_body]
pub(crate) fn file_uri(path: &PathBuf) -> (r: Option<String>)
    ensures
        match r {
            Some(s) => uri_of_file(*path) == Some(s@),
            None => uri_of_file(*path) is None,
        },
{
    match url::Url::from_file_path(path) {
        Ok(url) => Some(url.into_string()),
        Err(_) => None,
    }
}

/// `PathBuf::from` of a string slice: the path that the text writes.
#[verifier::external_body]
pub(crate) fn path_from(text: &str) -> (r: PathBuf)
    ensures
        r == path_of(text@),
{
    PathBuf::from(text)
}

} // verus!
