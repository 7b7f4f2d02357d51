//! Per-file snapshot of version-control status: the file's coarse status
//! and, for tracked files, the status of each changed line.
use crate::lines::{
    hunks_line_map, map_lines, record_line, recorded_hunks, Hunk, HunkHeader, LineStatus,
};
use crate::status::{classify_spec, map_status, ChangeFlags, FileStatus};
use git2::{Diff, DiffOptions, IntoCString, Repository};
use std::collections::HashMap;
use std::path::PathBuf;
use vstd::prelude::*;

verus! {

#[verifier::external_type_specification]
#[verifier::external_body]
pub struct ExRepository(git2::Repository);

#[verifier::external_type_specification]
#[verifier::external_body]
pub struct ExDiff<'repo>(git2::Diff<'repo>);

#[verifier::external_type_specification]
#[verifier::external_body]
pub struct ExPathBuf(std::path::PathBuf);

/// Relies on git2's `Repository::workdir`: the working directory of the
/// repository, `None` for a bare one.
#[verifier::external_body]
fn workdir(repo: &Repository) -> (r: Option<PathBuf>) {
    repo.workdir().map(|p| p.to_path_buf())
}

/// Relies on std's `Path::strip_prefix`: `path` made relative to `base`,
/// `None` where `base` is not a prefix of it.
#[verifier::external_body]
fn strip_prefix(path: &PathBuf, base: &PathBuf) -> (r: Option<PathBuf>) {
    path.strip_prefix(base).ok().map(|p| p.to_path_buf())
}

/// Relies on git2's `Repository::status_file`: the status flags of one
/// path, read through `Status::is_wt_new`, `is_index_new`,
/// `is_wt_modified` and `is_index_modified`; `None` where the path cannot
/// be resolved against the repository.
#[verifier::external_body]
fn status_file(repo: &Repository, rel: &PathBuf) -> (r: Option<ChangeFlags>) {
    repo.status_file(rel).ok().map(|s| ChangeFlags {
        worktree_new: s.is_wt_new(),
        index_new: s.is_index_new(),
        worktree_modified: s.is_wt_modified(),
        index_modified: s.is_index_modified(),
    })
}

/// Relies on git2's `Repository::diff_index_to_workdir`: the diff of one
/// path between the index and the working tree, with `context_lines` lines
/// of context around each change; `None` where the path is not valid UTF-8,
/// cannot be made a C string, or the diff fails.
#[verifier::external_body]
fn diff_index_to_workdir<'repo>(repo: &'repo Repository, rel: &PathBuf, context_lines: u32) -> (r:
    Option<Diff<'repo>>) {
    let pathspec = IntoCString::into_c_string(rel.to_str()?).ok()?;
    let mut opts = DiffOptions::new();
    opts.context_lines(context_lines);
    opts.pathspec(pathspec);
    repo.diff_index_to_workdir(None, Some(&mut opts)).ok()
}

/// Relies on git2's `Diff::foreach`: walks every line of the diff in file
/// order, handing each to `record_line`, which never stops the walk; `None`
/// where the walk fails. Every line gathered is thus the pair that
/// `record_line` makes of a raw line under its hunk's header.
#[verifier::external_body]
fn diff_hunks(diff: &Diff) -> (r: Option<Vec<Hunk>>)
    ensures
        r matches Some(hs) ==> recorded_hunks(hs@),
{
    let mut hunks: Vec<Hunk> = Vec::new();
    diff.foreach(&mut |_, _| true, None, None, Some(&mut |_, hunk, line| {
        let header = hunk.map(|h| HunkHeader::new(h.old_start(), h.old_lines(), h.new_start(), h.new_lines()));
        record_line(&mut hunks, header, line.old_lineno(), line.new_lineno(), line.origin())
    })).ok()?;
    Some(hunks)
}

/// The line map of a snapshot: empty for an untracked file or where no
/// diff could be produced, else the map of the diff's hunks.
pub open spec fn snapshot_lines(status: FileStatus, hunks: Option<Seq<Hunk>>) -> Map<usize, LineStatus> {
    if status == FileStatus::Untracked {
        Map::empty()
    } else {
        match hunks {
            Some(hs) => hunks_line_map(hs),
            None => Map::empty(),
        }
    }
}

/// An immutable snapshot of one file's version-control status.
pub struct FileData {
    status: FileStatus,
    line_map: HashMap<usize, LineStatus>,
}

impl FileData {
    /// The file's coarse status.
    pub closed spec fn spec_status(&self) -> FileStatus {
        self.status
    }

    /// The map from new-file line number to line status.
    pub closed spec fn spec_lines(&self) -> Map<usize, LineStatus> {
        self.line_map@
    }

    /// An untracked file has no line statuses.
    pub open spec fn wf(&self) -> bool {
        self.spec_status() == FileStatus::Untracked ==> self.spec_lines().is_empty()
    }

    /// Assembles a snapshot from the file's change flags and, where one
    /// could be produced, the index-to-working-tree diff of the file.
    pub fn new(flags: ChangeFlags, hunks: &Option<Vec<Hunk>>) -> (r: FileData)
        ensures
            r.spec_status() == classify_spec(flags),
            r.spec_lines() == snapshot_lines(
                classify_spec(flags),
                match hunks {
                    Some(h) => Some(h@),
                    None => None,
                },
            ),
            r.wf(),
    {
        let status = map_status(flags);
        let line_map = match (status, hunks) {
            (FileStatus::Untracked, _) => HashMap::new(),
            (_, Some(h)) => map_lines(h),
            (_, None) => HashMap::new(),
        };
        FileData { status, line_map }
    }

    /// Builds the snapshot of `path` in `repo`: `None` where either is
    /// absent, the path lies outside the working tree, or its status cannot
    /// be read. A tracked file's lines come from the diff between index and
    /// working tree, taken without context lines so that an added line can
    /// be paired with the old line at its offset; where that diff fails the
    /// line map is empty.
    pub fn from(repo: &Option<Repository>, path: &Option<PathBuf>) -> (r: Option<FileData>)
        ensures
            repo is None || path is None ==> r is None,
            r matches Some(d) ==> d.wf() && exists|f: ChangeFlags, hs: Option<Seq<Hunk>>|
                d.spec_status() == classify_spec(f) && d.spec_lines() == snapshot_lines(
                    classify_spec(f),
                    hs,
                ) && (hs matches Some(h) ==> recorded_hunks(h)),
    {
        let repo = match repo {
            Some(r) => r,
            None => {
                return None;
            },
        };
        let path = match path {
            Some(p) => p,
            None => {
                return None;
            },
        };
        let base = workdir(repo)?;
        let rel = strip_prefix(path, &base)?;
        let flags = status_file(repo, &rel)?;
        let hunks = if map_status(flags) == FileStatus::Untracked {
            None
        } else {
            match diff_index_to_workdir(repo, &rel, 0) {
                Some(diff) => diff_hunks(&diff),
                None => None,
            }
        };
        let d = FileData::new(flags, &hunks);
        let ghost hs = match hunks {
            Some(h) => Some(h@),
            None => None,
        };
        assert(d.spec_status() == classify_spec(flags) && d.spec_lines() == snapshot_lines(
            classify_spec(flags),
            hs,
        ) && (hs matches Some(h) ==> recorded_hunks(h)));
        Some(d)
    }

    /// The file's coarse status.
    pub fn status(&self) -> (r: &FileStatus)
        ensures
            *r == self.spec_status(),
    {
        &self.status
    }

    /// The status of new-file line `line_no`; `None` where the line is
    /// unchanged or out of range.
    pub fn status_of_line(&self, line_no: usize) -> (r: Option<&LineStatus>)
        ensures
            match r {
                Some(s) => self.spec_lines().contains_key(line_no) && self.spec_lines()[line_no]
                    == *s,
                None => !self.spec_lines().contains_key(line_no),
            },
    {
        self.line_map.get(&line_no)
    }
}

/// An untracked file's snapshot has no line statuses, whatever diff was
/// offered for it.
pub proof fn lemma_untracked_has_no_lines(flags: ChangeFlags, hunks: Option<Seq<Hunk>>)
    requires
        classify_spec(flags) == FileStatus::Untracked,
    ensures
        snapshot_lines(classify_spec(flags), hunks).is_empty(),
{
}

} // verus!
