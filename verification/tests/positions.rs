use swiftsc_lsp::span::{Position, Range, SourceSpan};

#[test]
fn first_line_first_column_is_the_protocol_origin() {
    let position = SourceSpan::new(1, 1).to_protocol_position();
    assert_eq!(position, Position { line: 0, character: 0 });
}

#[test]
fn position_is_one_less_in_each_coordinate() {
    let position = SourceSpan::new(12, 40).to_protocol_position();
    assert_eq!(position.line, 11);
    assert_eq!(position.character, 39);
}

#[test]
fn zero_coordinates_map_to_zero() {
    assert_eq!(
        SourceSpan::new(0, 0).to_protocol_position(),
        Position { line: 0, character: 0 }
    );
    assert_eq!(
        SourceSpan::new(0, 7).to_protocol_position(),
        Position { line: 0, character: 6 }
    );
    assert_eq!(
        SourceSpan::new(7, 0).to_protocol_position(),
        Position { line: 6, character: 0 }
    );
}

#[test]
fn largest_coordinates_do_not_overflow() {
    let range = SourceSpan::new(u32::MAX, u32::MAX).to_protocol_range();
    assert_eq!(range.start, Position { line: u32::MAX - 1, character: u32::MAX - 1 });
    assert_eq!(range.end, Position { line: u32::MAX - 1, character: u32::MAX });
}

#[test]
fn range_ends_one_column_after_its_start() {
    let range = SourceSpan::new(3, 9).to_protocol_range();
    assert_eq!(range.start, Position { line: 2, character: 8 });
    assert_eq!(range.end, Position { line: 2, character: 9 });
}

#[test]
fn range_of_a_span_starts_at_its_position() {
    let span = SourceSpan::new(5, 2);
    assert_eq!(span.to_protocol_range().start, span.to_protocol_position());
}

#[test]
fn distinct_spans_have_distinct_positions() {
    let a = SourceSpan::new(4, 8).to_protocol_position();
    let b = SourceSpan::new(4, 9).to_protocol_position();
    let c = SourceSpan::new(5, 8).to_protocol_position();
    assert_ne!(a, b);
    assert_ne!(a, c);
    assert_ne!(b, c);
}

#[test]
fn sentinel_is_the_first_character_of_the_document() {
    let range = Range::sentinel();
    assert_eq!(range.start, Position { line: 0, character: 0 });
    assert_eq!(range.end, Position { line: 0, character: 1 });
}
