use amp::lines::{map_lines, record_line, Hunk, HunkHeader, LinePair};
use amp::LineStatus;

fn pair(old_line: Option<u32>, new_line: Option<u32>) -> LinePair {
    LinePair { old_line, new_line, context: false }
}

fn hunk(header: HunkHeader, lines: Vec<LinePair>) -> Hunk {
    Hunk { header, lines }
}

#[test]
fn single_added_line() {
    let hunks = vec![hunk(HunkHeader::new(4, 0, 5, 1), vec![pair(None, Some(5))])];
    let m = map_lines(&hunks);
    assert_eq!(m.len(), 1);
    assert_eq!(m.get(&5), Some(&LineStatus::Added));
}

#[test]
fn single_modified_line() {
    let hunks = vec![hunk(HunkHeader::new(5, 1, 5, 1), vec![pair(Some(5), Some(5))])];
    let m = map_lines(&hunks);
    assert_eq!(m.len(), 1);
    assert_eq!(m.get(&5), Some(&LineStatus::Modified));
}

#[test]
fn no_hunks_no_lines() {
    let m = map_lines(&Vec::new());
    assert!(m.is_empty());
}

#[test]
fn empty_hunk_contributes_nothing() {
    let m = map_lines(&vec![hunk(HunkHeader::new(1, 0, 1, 0), Vec::new())]);
    assert!(m.is_empty());
}

#[test]
fn deletions_are_never_keyed() {
    let hunks = vec![hunk(
        HunkHeader::new(7, 2, 6, 0),
        vec![pair(Some(7), None), pair(Some(8), None)],
    )];
    let m = map_lines(&hunks);
    assert!(m.is_empty());
    assert_eq!(m.get(&7), None);
    assert_eq!(m.get(&8), None);
}

#[test]
fn context_lines_are_skipped() {
    let ctx = LinePair { old_line: Some(2), new_line: Some(2), context: true };
    let m = map_lines(&vec![hunk(HunkHeader::new(2, 1, 2, 2), vec![ctx, pair(None, Some(3))])]);
    assert_eq!(m.len(), 1);
    assert_eq!(m.get(&2), None);
    assert_eq!(m.get(&3), Some(&LineStatus::Added));
}

#[test]
fn later_hunk_wins_for_same_line() {
    let hunks = vec![
        hunk(HunkHeader::new(3, 0, 3, 1), vec![pair(None, Some(3))]),
        hunk(HunkHeader::new(3, 1, 3, 1), vec![pair(Some(3), Some(3))]),
    ];
    let m = map_lines(&hunks);
    assert_eq!(m.len(), 1);
    assert_eq!(m.get(&3), Some(&LineStatus::Modified));
}

#[test]
fn recorded_change_correlates_by_offset() {
    // One line replaced by two: the first stands against the old line, the
    // second goes beyond the old range.
    let mut hunks: Vec<Hunk> = Vec::new();
    let h = HunkHeader::new(10, 1, 10, 2);
    assert!(record_line(&mut hunks, Some(h), Some(10), None, '-'));
    assert!(record_line(&mut hunks, Some(h), None, Some(10), '+'));
    assert!(record_line(&mut hunks, Some(h), None, Some(11), '+'));
    assert_eq!(hunks.len(), 1);
    assert_eq!(hunks[0].lines.len(), 3);
    assert_eq!(hunks[0].lines[1].old_line, Some(10));
    assert_eq!(hunks[0].lines[2].old_line, None);
    let m = map_lines(&hunks);
    assert_eq!(m.len(), 2);
    assert_eq!(m.get(&10), Some(&LineStatus::Modified));
    assert_eq!(m.get(&11), Some(&LineStatus::Added));
}

#[test]
fn recorded_lines_split_by_header() {
    let mut hunks: Vec<Hunk> = Vec::new();
    record_line(&mut hunks, Some(HunkHeader::new(1, 0, 2, 1)), None, Some(2), '+');
    record_line(&mut hunks, Some(HunkHeader::new(9, 1, 10, 0)), Some(9), None, '-');
    record_line(&mut hunks, None, None, Some(40), '+');
    assert_eq!(hunks.len(), 2);
    assert_eq!(hunks[0].lines[0].old_line, None);
    assert!(hunks[1].lines[0].new_line.is_none());
    let m = map_lines(&hunks);
    assert_eq!(m.len(), 1);
    assert_eq!(m.get(&2), Some(&LineStatus::Added));
}

#[test]
fn recorded_context_line_is_marked() {
    let mut hunks: Vec<Hunk> = Vec::new();
    record_line(&mut hunks, Some(HunkHeader::new(4, 2, 4, 2)), Some(4), Some(4), ' ');
    assert!(hunks[0].lines[0].context);
    assert!(map_lines(&hunks).is_empty());
}

#[test]
fn counterpart_past_largest_line_number_is_dropped() {
    let mut hunks: Vec<Hunk> = Vec::new();
    let h = HunkHeader::new(u32::MAX, 2, 1, 2);
    record_line(&mut hunks, Some(h), None, Some(1), '+');
    record_line(&mut hunks, Some(h), None, Some(2), '+');
    assert_eq!(hunks[0].lines[0].old_line, Some(u32::MAX));
    assert_eq!(hunks[0].lines[1].old_line, None);
}
