//! Line-level status: diff hunks between the index and the working tree,
//! and the map from new-file line number to the status of that line.
use std::collections::HashMap;
use vstd::prelude::*;

verus! {

/// Status of one line of the working-tree copy.
#[derive(Clone, Copy, Debug, PartialEq, Eq, Structural)]
pub enum LineStatus {
    /// The line has no counterpart in the old version.
    Added,
    /// The line replaces a changed line that still has a counterpart in the old version.
    Modified,
}

/// Line ranges of a hunk: `old_lines` lines from `old_start` in the old
/// version became `new_lines` lines from `new_start` in the new version.
#[derive(Clone, Copy, Debug, PartialEq, Eq, Structural)]
pub struct HunkHeader {
    pub old_start: u32,
    pub old_lines: u32,
    pub new_start: u32,
    pub new_lines: u32,
}

impl HunkHeader {
    /// A header from the old and new line ranges.
    pub fn new(old_start: u32, old_lines: u32, new_start: u32, new_lines: u32) -> (r: HunkHeader)
        ensures
            r == (HunkHeader { old_start, old_lines, new_start, new_lines }),
    {
        HunkHeader { old_start, old_lines, new_start, new_lines }
    }
}

/// One line of a hunk, with its number in each version where it has one.
#[derive(Clone, Copy, Debug, PartialEq, Eq, Structural)]
pub struct LinePair {
    pub old_line: Option<u32>,
    pub new_line: Option<u32>,
    /// The line is unchanged and only positions the hunk.
    pub context: bool,
}

/// A contiguous block of a diff and its lines, in file order.
#[derive(Debug)]
pub struct Hunk {
    pub header: HunkHeader,
    pub lines: Vec<LinePair>,
}

/// The entry that a line contributes to the map, if any: context lines and
/// lines without a new-file number contribute none.
pub open spec fn pair_status(p: LinePair) -> Option<LineStatus> {
    if p.context {
        None
    } else {
        match p.new_line {
            None => None,
            Some(_) => match p.old_line {
                None => Some(LineStatus::Added),
                Some(_) => Some(LineStatus::Modified),
            },
        }
    }
}

/// The map after one line is applied to it: a later entry for the same line wins.
pub open spec fn apply_pair(m: Map<usize, LineStatus>, p: LinePair) -> Map<usize, LineStatus> {
    match pair_status(p) {
        Some(s) => m.insert(p.new_line.unwrap() as usize, s),
        None => m,
    }
}

/// The map after a sequence of lines is applied to it, in order.
pub open spec fn apply_pairs(m: Map<usize, LineStatus>, ps: Seq<LinePair>) -> Map<
    usize,
    LineStatus,
>
    decreases ps.len(),
{
    if ps.len() == 0 {
        m
    } else {
        apply_pair(apply_pairs(m, ps.drop_last()), ps.last())
    }
}

/// The line-status map of a sequence of hunks, processed in file order.
pub open spec fn hunks_line_map(hs: Seq<Hunk>) -> Map<usize, LineStatus>
    decreases hs.len(),
{
    if hs.len() == 0 {
        Map::empty()
    } else {
        apply_pairs(hunks_line_map(hs.drop_last()), hs.last().lines@)
    }
}

/// Builds the map from new-file line number to line status for a diff.
pub fn map_lines(hunks: &Vec<Hunk>) -> (r: HashMap<usize, LineStatus>)
    ensures
        r@ == hunks_line_map(hunks@),
{
    let mut line_map: HashMap<usize, LineStatus> = HashMap::new();
    let mut i: usize = 0;
    while i < hunks.len()
        invariant
            0 <= i <= hunks@.len(),
            line_map@ == hunks_line_map(hunks@.take(i as int)),
        decreases hunks@.len() - i,
    {
        let lines = &hunks[i].lines;
        assert(hunks@.take(i as int + 1).drop_last() =~= hunks@.take(i as int));
        let ghost before = line_map@;
        let mut j: usize = 0;
        while j < lines.len()
            invariant
                0 <= j <= lines@.len(),
                lines == hunks@[i as int].lines,
                line_map@ == apply_pairs(before, lines@.take(j as int)),
            decreases lines@.len() - j,
        {
            let p = lines[j];
            assert(lines@.take(j as int + 1).drop_last() =~= lines@.take(j as int));
            if !p.context {
                match p.new_line {
                    Some(n) => {
                        let status = match p.old_line {
                            Some(_) => LineStatus::Modified,
                            None => LineStatus::Added,
                        };
                        line_map.insert(n as usize, status);
                    },
                    None => {},
                }
            }
            j = j + 1;
        }
        assert(lines@.take(lines@.len() as int) =~= lines@);
        i = i + 1;
    }
    assert(hunks@.take(hunks@.len() as int) =~= hunks@);
    line_map
}


/// A hunk whose one line has a new-file number and no old one gives a map
/// of one entry: that line, added.
pub proof fn lemma_single_added_line(h: Hunk)
    requires
        h.lines@.len() == 1,
        !h.lines@[0].context,
        h.lines@[0].new_line is Some,
        h.lines@[0].old_line is None,
    ensures
        hunks_line_map(seq![h]) == Map::<usize, LineStatus>::empty().insert(
            h.lines@[0].new_line.unwrap() as usize,
            LineStatus::Added,
        ),
        hunks_line_map(seq![h]).len() == 1,
{
    lemma_single_line_map(h);
}

/// A hunk whose one line has both a new-file and an old-file number gives a
/// map of one entry: that line, modified.
pub proof fn lemma_single_modified_line(h: Hunk)
    requires
        h.lines@.len() == 1,
        !h.lines@[0].context,
        h.lines@[0].new_line is Some,
        h.lines@[0].old_line is Some,
    ensures
        hunks_line_map(seq![h]) == Map::<usize, LineStatus>::empty().insert(
            h.lines@[0].new_line.unwrap() as usize,
            LineStatus::Modified,
        ),
        hunks_line_map(seq![h]).len() == 1,
{
    lemma_single_line_map(h);
}

proof fn lemma_single_line_map(h: Hunk)
    requires
        h.lines@.len() == 1,
    ensures
        hunks_line_map(seq![h]) == apply_pair(Map::empty(), h.lines@[0]),
        pair_status(h.lines@[0]) is Some ==> hunks_line_map(seq![h]).len() == 1,
{
    let hs = seq![h];
    let ps = h.lines@;
    assert(hs.drop_last() =~= Seq::<Hunk>::empty());
    assert(hs.last() == h);
    assert(hunks_line_map(hs.drop_last()) == Map::<usize, LineStatus>::empty());
    assert(ps.drop_last() =~= Seq::<LinePair>::empty());
    assert(apply_pairs(Map::empty(), ps.drop_last()) == Map::<usize, LineStatus>::empty());
    assert(ps.last() == ps[0]);
    assert(hunks_line_map(hs) == apply_pair(Map::empty(), ps[0]));
    if pair_status(ps[0]) is Some {
        let k = ps[0].new_line.unwrap() as usize;
        assert(hunks_line_map(hs).dom() =~= set![k]);
        assert(set![k].len() == 1) by {
            assert(set![k] =~= Set::<usize>::empty().insert(k));
        }
    }
}

/// No hunks, no entries.
pub proof fn lemma_no_hunks_empty_map()
    ensures
        hunks_line_map(Seq::<Hunk>::empty()) == Map::<usize, LineStatus>::empty(),
{
}

/// Whether line `k` of the new version is named by a changed (non-context)
/// line of the hunks.
pub open spec fn names_new_line(hs: Seq<Hunk>, k: usize) -> bool {
    exists|i: int, j: int|
        0 <= i < hs.len() && 0 <= j < hs[i].lines@.len() && !(#[trigger] hs[i].lines@[j]).context
            && hs[i].lines@[j].new_line is Some && hs[i].lines@[j].new_line.unwrap() as usize
            == k
}

proof fn lemma_apply_pairs_keys(m: Map<usize, LineStatus>, ps: Seq<LinePair>, k: usize)
    requires
        apply_pairs(m, ps).contains_key(k),
    ensures
        m.contains_key(k) || exists|j: int|
            0 <= j < ps.len() && !(#[trigger] ps[j]).context && ps[j].new_line is Some
                && ps[j].new_line.unwrap() as usize == k,
    decreases ps.len(),
{
    if ps.len() > 0 {
        let prev = apply_pairs(m, ps.drop_last());
        if prev.contains_key(k) {
            lemma_apply_pairs_keys(m, ps.drop_last(), k);
            if !m.contains_key(k) {
                let j = choose|j: int|
                    0 <= j < ps.drop_last().len() && !(#[trigger] ps.drop_last()[j]).context
                        && ps.drop_last()[j].new_line is Some && ps.drop_last()[j].new_line.unwrap()
                        as usize == k;
                assert(ps[j] == ps.drop_last()[j]);
            }
        } else {
            let j = ps.len() - 1;
            assert(ps[j] == ps.last());
        }
    }
}

/// Every key of the map is the new-file number of a changed line: a line
/// that only the old version has (a pure deletion) never becomes a key.
pub proof fn lemma_keys_are_new_lines(hs: Seq<Hunk>, k: usize)
    requires
        hunks_line_map(hs).contains_key(k),
    ensures
        names_new_line(hs, k),
    decreases hs.len(),
{
    let last = hs.len() - 1;
    let prev = hunks_line_map(hs.drop_last());
    lemma_apply_pairs_keys(prev, hs.last().lines@, k);
    if prev.contains_key(k) {
        lemma_keys_are_new_lines(hs.drop_last(), k);
        let (i, j) = choose|i: int, j: int|
            0 <= i < hs.drop_last().len() && 0 <= j < hs.drop_last()[i].lines@.len()
                && !(#[trigger] hs.drop_last()[i].lines@[j]).context
                && hs.drop_last()[i].lines@[j].new_line is Some
                && hs.drop_last()[i].lines@[j].new_line.unwrap() as usize == k;
        assert(hs[i] == hs.drop_last()[i]);
        assert(!hs[i].lines@[j].context);
    } else {
        let j = choose|j: int|
            0 <= j < hs.last().lines@.len() && !(#[trigger] hs.last().lines@[j]).context
                && hs.last().lines@[j].new_line is Some && hs.last().lines@[j].new_line.unwrap()
                as usize == k;
        assert(hs[last] == hs.last());
        assert(!hs[last].lines@[j].context);
    }
}

/// Whether a diff line's origin sigil marks added or deleted content, as
/// opposed to context, headers or binary markers.
pub open spec fn is_change_origin(c: char) -> bool {
    c == '+' || c == '-' || c == '>' || c == '<'
}

/// Whether a diff line's origin sigil marks added content.
pub open spec fn is_addition_origin(c: char) -> bool {
    c == '+' || c == '>'
}

/// The old-file line that stands at the same offset in the hunk as new-file
/// line `n`, if the old range reaches that far.
pub open spec fn counterpart(h: HunkHeader, n: u32) -> Option<u32> {
    if h.new_start <= n && n - h.new_start < h.old_lines && h.old_start + (n - h.new_start)
        <= u32::MAX {
        Some((h.old_start + (n - h.new_start)) as u32)
    } else {
        None
    }
}

/// The line pair for one raw diff line of hunk `h`: an added line is
/// correlated with the old line at its offset, so that a changed line reads
/// as modified and a line beyond the old range as added.
pub open spec fn pair_of(h: HunkHeader, old_line: Option<u32>, new_line: Option<u32>, origin: char) -> LinePair {
    LinePair {
        old_line: if is_addition_origin(origin) && new_line is Some {
            counterpart(h, new_line.unwrap())
        } else {
            old_line
        },
        new_line,
        context: !is_change_origin(origin),
    }
}

/// Whether every line of every hunk is the pair that `pair_of` makes of
/// some raw diff line under that hunk's header.
pub open spec fn recorded_hunks(hs: Seq<Hunk>) -> bool {
    forall|i: int, j: int|
        0 <= i < hs.len() && 0 <= j < hs[i].lines@.len() ==> is_recorded_pair(
            hs[i].header,
            #[trigger] hs[i].lines@[j],
        )
}

/// Whether `p` is the pair that `pair_of` makes of some raw diff line under header `h`.
pub open spec fn is_recorded_pair(h: HunkHeader, p: LinePair) -> bool {
    exists|old_line: Option<u32>, new_line: Option<u32>, origin: char|
        p == #[trigger] pair_of(h, old_line, new_line, origin)
}

/// Appends one raw diff line to the hunks gathered so far: to the last hunk
/// when it has the same header, else to a new hunk. A line outside any hunk
/// is not recorded. Always asks for the walk to go on.
pub fn record_line(
    hunks: &mut Vec<Hunk>,
    header: Option<HunkHeader>,
    old_line: Option<u32>,
    new_line: Option<u32>,
    origin: char,
) -> (r: bool)
    ensures
        r,
        recorded_hunks(old(hunks)@) ==> recorded_hunks(final(hunks)@),
        header is None ==> final(hunks)@ == old(hunks)@,
        header matches Some(h) ==> {
            let p = pair_of(h, old_line, new_line, origin);
            let n = old(hunks)@.len();
            if n > 0 && old(hunks)@.last().header == h {
                &&& final(hunks)@.len() == n
                &&& forall|i: int| 0 <= i < n - 1 ==> final(hunks)@[i] == old(hunks)@[i]
                &&& final(hunks)@.last().header == h
                &&& final(hunks)@.last().lines@ == old(hunks)@.last().lines@.push(p)
            } else {
                &&& final(hunks)@.len() == n + 1
                &&& forall|i: int| 0 <= i < n ==> final(hunks)@[i] == old(hunks)@[i]
                &&& final(hunks)@.last().header == h
                &&& final(hunks)@.last().lines@ == seq![p]
            }
        },
{
    let h = match header {
        Some(h) => h,
        None => {
            return true;
        },
    };
    let addition = origin == '+' || origin == '>';
    let old_counterpart = if addition {
        match new_line {
            Some(n) => {
                if h.new_start <= n && n - h.new_start < h.old_lines {
                    h.old_start.checked_add(n - h.new_start)
                } else {
                    None
                }
            },
            None => old_line,
        }
    } else {
        old_line
    };
    let p = LinePair {
        old_line: old_counterpart,
        new_line,
        context: !(origin == '+' || origin == '-' || origin == '>' || origin == '<'),
    };
    let same_hunk = hunks.len() > 0 && hunks[hunks.len() - 1].header == h;
    if same_hunk {
        let ghost before = hunks@;
        let mut last = hunks.pop().unwrap();
        last.lines.push(p);
        hunks.push(last);
        proof {
            if recorded_hunks(before) {
                assert forall|i: int, j: int|
                    0 <= i < hunks@.len() && 0 <= j < hunks@[i].lines@.len() implies is_recorded_pair(
                    hunks@[i].header,
                    #[trigger] hunks@[i].lines@[j],
                ) by {
                    if i < before.len() - 1 {
                        assert(hunks@[i] == before[i]);
                    } else if j < before[i].lines@.len() {
                        assert(hunks@[i].lines@[j] == before[i].lines@[j]);
                    } else {
                        assert(hunks@[i].lines@[j] == pair_of(h, old_line, new_line, origin));
                    }
                }
            }
        }
    } else {
        let ghost before = hunks@;
        let mut lines: Vec<LinePair> = Vec::new();
        lines.push(p);
        hunks.push(Hunk { header: h, lines });
        assert(lines@ =~= seq![p]);
        proof {
            if recorded_hunks(before) {
                assert forall|i: int, j: int|
                    0 <= i < hunks@.len() && 0 <= j < hunks@[i].lines@.len() implies is_recorded_pair(
                    hunks@[i].header,
                    #[trigger] hunks@[i].lines@[j],
                ) by {
                    if i < before.len() {
                        assert(hunks@[i] == before[i]);
                    } else {
                        assert(hunks@[i].lines@[j] == pair_of(h, old_line, new_line, origin));
                    }
                }
            }
        }
    }
    true
}

} // verus!
