//! Version-control status engine: classifies a file's change flags, maps
//! diff hunks to per-line statuses, and assembles both into a snapshot.
pub mod git;
pub mod jump;
pub mod lines;
pub mod presenters;
pub mod status;

pub use git::FileData;
pub use lines::LineStatus;
pub use status::FileStatus;
