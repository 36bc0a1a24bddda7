//! Places in source files as the analysis counts them: rows and columns from
//! zero, in 32 bits.

use std::path::PathBuf;
use vstd::prelude::*;

verus! {

/// A row and a column, both counted from zero.
#[derive(Debug, Clone, Copy, PartialEq, Eq, Structural)]
pub struct Position {
    pub row: u32,
    pub col: u32,
}

/// The stretch from one position to another.
#[derive(Debug, Clone, Copy, PartialEq, Eq, Structural)]
pub struct Range {
    pub row_start: u32,
    pub row_end: u32,
    pub col_start: u32,
    pub col_end: u32,
}

/// A position in a file.
#[derive(Debug, PartialEq, Eq)]
pub struct Location {
    pub file: PathBuf,
    pub position: Position,
}

/// A range in a file.
#[derive(Debug, PartialEq, Eq)]
pub struct Span {
    pub file: PathBuf,
    pub range: Range,
}

impl Position {
    pub fn new(row: u32, col: u32) -> (p: Position)
        ensures
            p == (Position { row, col }),
    {
        Position { row, col }
    }
}

impl Range {
    /// The range that starts at `start` and ends at `end`.
    pub fn from_positions(start: Position, end: Position) -> (r: Range)
        ensures
            r.start_of() == start,
            r.end_of() == end,
    {
        Range { row_start: start.row, row_end: end.row, col_start: start.col, col_end: end.col }
    }

    pub open spec fn start_of(self) -> Position {
        Position { row: self.row_start, col: self.col_start }
    }

    pub open spec fn end_of(self) -> Position {
        Position { row: self.row_end, col: self.col_end }
    }

    /// Where the range starts.
    pub fn start(self) -> (p: Position)
        ensures
            p == self.start_of(),
    {
        Position { row: self.row_start, col: self.col_start }
    }

    /// Where the range ends.
    pub fn end(self) -> (p: Position)
        ensures
            p == self.end_of(),
    {
        Position { row: self.row_end, col: self.col_end }
    }
}

impl Span {
    /// The span of `range` in `file`.
    pub fn from_range(range: Range, file: PathBuf) -> (s: Span)
        ensures
            s.range == range,
            s.file == file,
    {
        Span { file, range }
    }
}

} // verus!
