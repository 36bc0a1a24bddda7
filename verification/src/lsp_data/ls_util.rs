//! Utilities for working with the language server protocol.

use crate::lsp_data::{parse_file_path, Location, Position, Range, UrlFileParseError};
use crate::span;
use crate::uri::file_uri;
use vstd::prelude::*;

verus! {

/// Convert a language server protocol position into an RLS position. Lines
/// and characters are cut down to 32 bits.
pub fn position_to_rls(p: Position) -> (r: span::Position)
    ensures
        r.row == p.line as u32,
        r.col == p.character as u32,
        p.line <= u32::MAX ==> r.row == p.line,
        p.character <= u32::MAX ==> r.col == p.character,
{
    span::Position::new(p.line as u32, p.character as u32)
}

/// Convert a language server protocol range into an RLS range.
pub fn range_to_rls(r: Range) -> (range: span::Range)
    ensures
        range.row_start == r.start.line as u32,
        range.col_start == r.start.character as u32,
        range.row_end == r.end.line as u32,
        range.col_end == r.end.character as u32,
{
    span::Range::from_positions(position_to_rls(r.start), position_to_rls(r.end))
}

/// Convert an RLS position into a language server protocol position.
pub fn rls_to_position(p: span::Position) -> (r: Position)
    ensures
        r.line == p.row,
        r.character == p.col,
{
    Position { line: p.row as u64, character: p.col as u64 }
}

/// Convert an RLS range into a language server protocol range.
pub fn rls_to_range(r: span::Range) -> (range: Range)
    ensures
        range.start.line == r.row_start,
        range.start.character == r.col_start,
        range.end.line == r.row_end,
        range.end.character == r.col_end,
{
    Range { start: rls_to_position(r.start()), end: rls_to_position(r.end()) }
}

/// Convert a language server protocol location into an RLS span.
pub fn location_to_rls(l: Location) -> (r: Result<span::Span, UrlFileParseError>)
    ensures
        match r {
            Ok(s) => crate::lsp_data::file_of(l.uri@) == Ok::<_, UrlFileParseError>(s.file)
                && s.range.row_start == l.range.start.line as u32 && s.range.col_start
                == l.range.start.character as u32 && s.range.row_end == l.range.end.line as u32
                && s.range.col_end == l.range.end.character as u32,
            Err(e) => crate::lsp_data::file_of(l.uri@) == Err::<std::path::PathBuf, _>(e),
        },
{
    match parse_file_path(l.uri.as_str()) {
        Ok(path) => Ok(span::Span::from_range(range_to_rls(l.range), path)),
        Err(e) => Err(e),
    }
}

/// Convert an RLS span into a language server protocol location, where the
/// span's file can be named by a URI.
pub fn try_rls_to_location(span: &span::Span) -> (r: Option<Location>)
    ensures
        match r {
            Some(l) => crate::uri::uri_of_file(span.file) == Some(l.uri@) && l.range.start.line
                == span.range.row_start && l.range.start.character == span.range.col_start
                && l.range.end.line == span.range.row_end && l.range.end.character
                == span.range.col_end,
            None => crate::uri::uri_of_file(span.file) is None,
        },
{
    if file_uri(&span.file).is_some() {
        Some(rls_to_location(span))
    } else {
        None
    }
}

/// Convert an RLS span into a language server protocol location. The span's
/// file must be one that a URI can name, which is to say that its path is
/// absolute; for any other span there is `try_rls_to_location`.
pub fn rls_to_location(span: &span::Span) -> (l: Location)
    requires
        crate::uri::uri_of_file(span.file) is Some,
    ensures
        crate::uri::uri_of_file(span.file) == Some(l.uri@),
        l.range.start.line == span.range.row_start,
        l.range.start.character == span.range.col_start,
        l.range.end.line == span.range.row_end,
        l.range.end.character == span.range.col_end,
{
    // An RLS span has the same info as an LSP Location
    Location { uri: file_uri(&span.file).unwrap(), range: rls_to_range(span.range) }
}

/// Convert an RLS location into a language server protocol location, where
/// the location's file can be named by a URI: the empty range at its
/// position.
pub fn try_rls_location_to_location(l: &span::Location) -> (r: Option<Location>)
    ensures
        match r {
            Some(loc) => crate::uri::uri_of_file(l.file) == Some(loc.uri@) && loc.range.start.line
                == l.position.row && loc.range.start.character == l.position.col
                && loc.range.end == loc.range.start,
            None => crate::uri::uri_of_file(l.file) is None,
        },
{
    if file_uri(&l.file).is_some() {
        Some(rls_location_to_location(l))
    } else {
        None
    }
}

/// Convert an RLS location into a language server protocol location. The
/// location's file must be one that a URI can name; for any other location
/// there is `try_rls_location_to_location`.
pub fn rls_location_to_location(l: &span::Location) -> (loc: Location)
    requires
        crate::uri::uri_of_file(l.file) is Some,
    ensures
        crate::uri::uri_of_file(l.file) == Some(loc.uri@),
        loc.range.start.line == l.position.row,
        loc.range.start.character == l.position.col,
        loc.range.end == loc.range.start,
{
    Location {
        uri: file_uri(&l.file).unwrap(),
        range: rls_to_range(span::Range::from_positions(l.position, l.position)),
    }
}

/// The number of line breaks in a text.
pub open spec fn line_breaks(text: Seq<char>) -> nat
    decreases text.len(),
{
    if text.len() == 0 {
        0
    } else if text.last() == '\n' {
        line_breaks(text.drop_last()) + 1
    } else {
        line_breaks(text.drop_last())
    }
}

/// The number of characters after the last line break of a text; of all its
/// characters, where it has no line break.
pub open spec fn last_line_len(text: Seq<char>) -> nat
    decreases text.len(),
{
    if text.len() == 0 || text.last() == '\n' {
        0
    } else {
        last_line_len(text.drop_last()) + 1
    }
}

/// Creates a `Range` spanning the whole of a file with the given content. It
/// starts at the first character of the first line. It ends behind the last
/// character: on the line after the last line break, as many characters in
/// as follow that break.
pub fn range_from_vfs_file(content: &str) -> (range: Range)
    ensures
        range.start == (Position { line: 0, character: 0 }),
        range.end.line == line_breaks(content@),
        range.end.character == last_line_len(content@),
{
    let n = content.unicode_len();
    let mut line_count: u64 = 0;
    let mut col: u64 = 0;
    for c in it: content.chars()
        invariant
            n == content@.len(),
            it.seq() == content@,
            line_count == line_breaks(content@.take(it.index())),
            col == last_line_len(content@.take(it.index())),
            line_count <= it.index(),
            col <= it.index(),
    {
        proof {
            let i = it.index();
            assert(content@.take(i + 1).drop_last() =~= content@.take(i));
            assert(content@.take(i + 1).last() == c);
        }
        if c == '\n' {
            line_count += 1;
            col = 0;
        } else {
            col += 1;
        }
    }
    proof {
        assert(content@.take(content@.len() as int) =~= content@);
    }
    // range is zero-based and the end position is exclusive
    Range { start: Position::new(0, 0), end: Position::new(line_count, col) }
}

} // verus!
