use amp::status::{map_status, ChangeFlags};
use amp::FileStatus;
use amp::FileStatus::{Modified, Partial, Staged, Unmodified, Untracked};

fn flags(worktree_new: bool, index_new: bool, worktree_modified: bool, index_modified: bool) -> ChangeFlags {
    ChangeFlags { worktree_new, index_new, worktree_modified, index_modified }
}

#[test]
fn worktree_new_without_index_new_is_untracked() {
    for wm in [false, true] {
        for im in [false, true] {
            assert_eq!(map_status(flags(true, false, wm, im)), FileStatus::Untracked);
        }
    }
}

#[test]
fn worktree_new_with_index_new_is_partial() {
    for wm in [false, true] {
        for im in [false, true] {
            assert_eq!(map_status(flags(true, true, wm, im)), FileStatus::Partial);
        }
    }
}

#[test]
fn no_flags_is_unmodified() {
    assert_eq!(map_status(flags(false, false, false, false)), FileStatus::Unmodified);
}

#[test]
fn every_flag_combination_has_one_status() {
    // Index bits: worktree_new, index_new, worktree_modified, index_modified.
    let expected = [
        Unmodified, Staged, Modified, Partial, // !wn, !in
        Staged, Staged, Staged, Staged, // !wn, in
        Untracked, Untracked, Untracked, Untracked, // wn, !in
        Partial, Partial, Partial, Partial, // wn, in
    ];
    for bits in 0..16usize {
        let f = flags(bits & 8 != 0, bits & 4 != 0, bits & 2 != 0, bits & 1 != 0);
        assert_eq!(map_status(f), expected[bits], "combination {}", bits);
    }
}

#[test]
fn index_new_alone_is_staged() {
    assert_eq!(map_status(flags(false, true, false, false)), FileStatus::Staged);
}

#[test]
fn both_modified_is_partial() {
    assert_eq!(map_status(flags(false, false, true, true)), FileStatus::Partial);
}

#[test]
fn worktree_modified_alone_is_modified() {
    assert_eq!(map_status(flags(false, false, true, false)), FileStatus::Modified);
}

#[test]
fn index_modified_alone_is_staged() {
    assert_eq!(map_status(flags(false, false, false, true)), FileStatus::Staged);
}

#[test]
fn status_labels() {
    assert_eq!(FileStatus::Unmodified.to_string(), "ok");
    assert_eq!(FileStatus::Modified.to_string(), "modified");
    assert_eq!(FileStatus::Staged.to_string(), "staged");
    assert_eq!(FileStatus::Partial.to_string(), "partially staged");
    assert_eq!(FileStatus::Untracked.to_string(), "untracked");
}
