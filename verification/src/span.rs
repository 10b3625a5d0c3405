//! Locations: where the front end puts a finding, and where the editor shows it.

use vstd::prelude::*;

verus! {

/// A location as the parser and the analyzer report it: a line and a column,
/// both counted from 1.
#[derive(Clone, Copy, Debug, PartialEq, Eq, Structural)]
pub struct SourceSpan {
    pub line: u32,
    pub column: u32,
}

/// A position as the editor protocol counts it: a line and a character offset
/// in that line, both counted from 0.
#[derive(Clone, Copy, Debug, PartialEq, Eq, Structural)]
pub struct Position {
    pub line: u32,
    pub character: u32,
}

/// A stretch of text between two protocol positions, the end not included.
#[derive(Clone, Copy, Debug, PartialEq, Eq, Structural)]
pub struct Range {
    pub start: Position,
    pub end: Position,
}

/// The protocol coordinate of a front-end coordinate: one less, and 0 for a
/// coordinate that is itself 0 and so names nothing in the text.
pub open spec fn protocol_coordinate(source: u32) -> u32 {
    if source >= 1 {
        (source - 1) as u32
    } else {
        0
    }
}

impl SourceSpan {
    /// A span is well formed when it names a line and a column of a text.
    pub open spec fn well_formed(self) -> bool {
        self.line >= 1 && self.column >= 1
    }

    /// The protocol position of this span.
    pub open spec fn protocol_position(self) -> Position {
        Position {
            line: protocol_coordinate(self.line),
            character: protocol_coordinate(self.column),
        }
    }

    /// The range shown for a finding at this span: the single character at its
    /// protocol position.
    pub open spec fn protocol_range(self) -> Range {
        Range::point(self.protocol_position())
    }

    pub fn new(line: u32, column: u32) -> (span: SourceSpan)
        ensures
            span.line == line,
            span.column == column,
    {
        SourceSpan { line, column }
    }

    /// Maps the span into protocol coordinates.
    pub fn to_protocol_position(&self) -> (position: Position)
        ensures
            position == self.protocol_position(),
            self.well_formed() ==> position.line == self.line - 1 && position.character
                == self.column - 1,
    {
        let line: u32 = if self.line >= 1 {
            self.line - 1
        } else {
            0
        };
        let character: u32 = if self.column >= 1 {
            self.column - 1
        } else {
            0
        };
        Position { line, character }
    }

    /// The single-character range at the span's protocol position.
    pub fn to_protocol_range(&self) -> (range: Range)
        ensures
            range == self.protocol_range(),
            range.is_point(),
            range.start == self.protocol_position(),
    {
        let start = self.to_protocol_position();
        let end = Position { line: start.line, character: start.character + 1 };
        Range { start, end }
    }
}

impl Range {
    /// The range that covers the one character at `start`.
    pub open spec fn point(start: Position) -> Range {
        Range {
            start,
            end: Position { line: start.line, character: (start.character + 1) as u32 },
        }
    }

    /// A range is a point when it ends one character after its start, in the
    /// same line.
    pub open spec fn is_point(self) -> bool {
        self.end.line == self.start.line && self.end.character == self.start.character + 1
    }

    /// Where a finding without a location is shown: the first character of the
    /// document.
    pub open spec fn sentinel_range() -> Range {
        Range {
            start: Position { line: 0, character: 0 },
            end: Position { line: 0, character: 1 },
        }
    }

    /// The range of a finding that carries no location.
    pub fn sentinel() -> (range: Range)
        ensures
            range == Range::sentinel_range(),
            range.is_point(),
    {
        Range {
            start: Position { line: 0, character: 0 },
            end: Position { line: 0, character: 1 },
        }
    }
}

/// Two well-formed spans that differ are shown at different positions, and a
/// well-formed span is found again from its position by adding one to each
/// coordinate.
pub proof fn lemma_position_mapping_is_faithful(a: SourceSpan, b: SourceSpan)
    requires
        a.well_formed(),
        b.well_formed(),
    ensures
        a.protocol_position().line + 1 == a.line,
        a.protocol_position().character + 1 == a.column,
        a.protocol_position() == b.protocol_position() ==> a == b,
{
}

} // verus!
