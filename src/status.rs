//! File-level status: the change flags reported for a path and the fixed
//! precedence table that turns them into one coarse status.
use vstd::prelude::*;

verus! {

/// Coarse version-control status of one file.
#[derive(Clone, Copy, Debug, PartialEq, Eq, Structural)]
pub enum FileStatus {
    /// Tracked, with no differences in the index or the working tree.
    Unmodified,
    /// The working tree differs from the index; the index matches the last commit.
    Modified,
    /// The index differs from the last commit; the working tree matches the index.
    Staged,
    /// The working tree differs from the index and the index differs from the last commit.
    Partial,
    /// The file has no index entry.
    Untracked,
}

/// The four independent change signals reported for a path.
#[derive(Clone, Copy, Debug, PartialEq, Eq, Structural)]
pub struct ChangeFlags {
    /// The working tree holds content that the index does not know.
    pub worktree_new: bool,
    /// The index holds content that the last commit does not know.
    pub index_new: bool,
    /// The working tree is modified relative to the index.
    pub worktree_modified: bool,
    /// The index is modified relative to the last commit.
    pub index_modified: bool,
}

/// The precedence table: the first rule whose condition holds decides.
pub open spec fn classify_spec(f: ChangeFlags) -> FileStatus {
    if f.worktree_new && f.index_new {
        FileStatus::Partial
    } else if f.worktree_new {
        FileStatus::Untracked
    } else if f.index_new {
        FileStatus::Staged
    } else if f.worktree_modified && f.index_modified {
        FileStatus::Partial
    } else if f.worktree_modified {
        FileStatus::Modified
    } else if f.index_modified {
        FileStatus::Staged
    } else {
        FileStatus::Unmodified
    }
}

/// Human-readable label of each status.
pub open spec fn label_spec(s: FileStatus) -> Seq<char> {
    match s {
        FileStatus::Unmodified => "ok"@,
        FileStatus::Modified => "modified"@,
        FileStatus::Staged => "staged"@,
        FileStatus::Partial => "partially staged"@,
        FileStatus::Untracked => "untracked"@,
    }
}

/// Classifies a set of change flags by the precedence table.
pub fn map_status(flags: ChangeFlags) -> (r: FileStatus)
    ensures
        r == classify_spec(flags),
{
    if flags.worktree_new {
        if flags.index_new {
            // Parts of the file are staged as new in the index.
            FileStatus::Partial
        } else {
            // The file has never been added to the repository.
            FileStatus::Untracked
        }
    } else if flags.index_new {
        // The complete file is staged as new in the index.
        FileStatus::Staged
    } else if flags.worktree_modified {
        if flags.index_modified {
            // The file has both staged and unstaged modifications.
            FileStatus::Partial
        } else {
            // The file has unstaged modifications.
            FileStatus::Modified
        }
    } else if flags.index_modified {
        // The file has staged modifications.
        FileStatus::Staged
    } else {
        // The file is tracked, but has no modifications.
        FileStatus::Unmodified
    }
}

impl FileStatus {
    /// The label used when a status is rendered.
    pub fn to_string(&self) -> (r: String)
        ensures
            r@ == label_spec(*self),
    {
        let s: &str = match *self {
            FileStatus::Unmodified => "ok",
            FileStatus::Modified => "modified",
            FileStatus::Staged => "staged",
            FileStatus::Partial => "partially staged",
            FileStatus::Untracked => "untracked",
        };
        s.to_string()
    }
}

/// New content in the working tree that the index has not seen at all
/// makes the file untracked, whatever the modification flags say.
pub proof fn lemma_worktree_new_alone_is_untracked(f: ChangeFlags)
    requires
        f.worktree_new,
        !f.index_new,
    ensures
        classify_spec(f) == FileStatus::Untracked,
{
}

/// New content in both the working tree and the index makes the file
/// partially staged, whatever the modification flags say.
pub proof fn lemma_both_new_is_partial(f: ChangeFlags)
    requires
        f.worktree_new,
        f.index_new,
    ensures
        classify_spec(f) == FileStatus::Partial,
{
}

/// With no flag set the file is unmodified.
pub proof fn lemma_no_flags_is_ok(f: ChangeFlags)
    requires
        !f.worktree_new,
        !f.index_new,
        !f.worktree_modified,
        !f.index_modified,
    ensures
        classify_spec(f) == FileStatus::Unmodified,
{
}

/// Every combination of the four flags gets exactly one of the five
/// statuses: the table has a catch-all rule, and the status that a
/// combination gets is the one the first matching rule names.
pub proof fn lemma_classify_total(f: ChangeFlags)
    ensures
        classify_spec(f) == FileStatus::Unmodified || classify_spec(f) == FileStatus::Modified
            || classify_spec(f) == FileStatus::Staged || classify_spec(f) == FileStatus::Partial
            || classify_spec(f) == FileStatus::Untracked,
        f.worktree_new && f.index_new ==> classify_spec(f) == FileStatus::Partial,
        f.worktree_new && !f.index_new ==> classify_spec(f) == FileStatus::Untracked,
        !f.worktree_new && f.index_new ==> classify_spec(f) == FileStatus::Staged,
        !f.worktree_new && !f.index_new && f.worktree_modified && f.index_modified
            ==> classify_spec(f) == FileStatus::Partial,
        !f.worktree_new && !f.index_new && f.worktree_modified && !f.index_modified
            ==> classify_spec(f) == FileStatus::Modified,
        !f.worktree_new && !f.index_new && !f.worktree_modified && f.index_modified
            ==> classify_spec(f) == FileStatus::Staged,
        !f.worktree_new && !f.index_new && !f.worktree_modified && !f.index_modified
            ==> classify_spec(f) == FileStatus::Unmodified,
{
}

} // verus!
