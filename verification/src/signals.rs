//! Change signals as the status backends report them, and the classification
//! of each into a [`StatusItemType`].
//!
//! Each backend has its own small type here. A caller that reads a repository
//! turns what the backend yields into one of these, variant for variant.

use crate::status::StatusItemType;
use vstd::prelude::*;
use vstd::std_specs::convert::FromSpecImpl;

verus! {

/// Summary of one path in the diff of index against worktree.
#[derive(Copy, Clone, Hash, PartialEq, Eq, Debug, Structural)]
pub enum WorktreeSummary {
    Removed,
    Added,
    Modified,
    TypeChange,
    Renamed,
    Copied,
    IntentToAdd,
    Conflict,
}

/// One change in the diff of a tree against the index.
#[derive(Copy, Clone, Hash, PartialEq, Eq, Debug, Structural)]
pub enum IndexChange {
    Addition,
    Deletion,
    Modification,
    Rewrite,
}

/// Flags of the per-file scan. Several may be set for one path.
#[derive(Copy, Clone, Hash, PartialEq, Eq, Debug, Structural)]
pub struct StatusFlags {
    pub index_new: bool,
    pub index_modified: bool,
    pub index_deleted: bool,
    pub index_renamed: bool,
    pub index_typechange: bool,
    pub wt_new: bool,
    pub wt_modified: bool,
    pub wt_deleted: bool,
    pub wt_typechange: bool,
    pub wt_renamed: bool,
    pub ignored: bool,
    pub conflicted: bool,
}

/// Kind of one delta in a diff between two trees.
#[derive(Copy, Clone, Hash, PartialEq, Eq, Debug, Structural)]
pub enum Delta {
    Unmodified,
    Added,
    Deleted,
    Modified,
    Renamed,
    Copied,
    Ignored,
    Untracked,
    Typechange,
    Unreadable,
    Conflicted,
}

/// Classification of an index/worktree summary.
pub open spec fn summary_type(summary: WorktreeSummary) -> StatusItemType {
    match summary {
        WorktreeSummary::Removed => StatusItemType::Deleted,
        WorktreeSummary::Added => StatusItemType::New,
        WorktreeSummary::Copied => StatusItemType::New,
        WorktreeSummary::IntentToAdd => StatusItemType::New,
        WorktreeSummary::Modified => StatusItemType::Modified,
        WorktreeSummary::TypeChange => StatusItemType::Typechange,
        WorktreeSummary::Renamed => StatusItemType::Renamed,
        WorktreeSummary::Conflict => StatusItemType::Conflicted,
    }
}

/// Classification of a tree/index change. A rewrite counts as a modification.
pub open spec fn index_change_type(change: IndexChange) -> StatusItemType {
    match change {
        IndexChange::Addition => StatusItemType::New,
        IndexChange::Deletion => StatusItemType::Deleted,
        IndexChange::Modification => StatusItemType::Modified,
        IndexChange::Rewrite => StatusItemType::Modified,
    }
}

/// Classification of a flag set: the first row that matches, from the top.
pub open spec fn flags_type(s: StatusFlags) -> StatusItemType {
    if s.index_new || s.wt_new {
        StatusItemType::New
    } else if s.index_deleted || s.wt_deleted {
        StatusItemType::Deleted
    } else if s.index_renamed || s.wt_renamed {
        StatusItemType::Renamed
    } else if s.index_typechange || s.wt_typechange {
        StatusItemType::Typechange
    } else if s.conflicted {
        StatusItemType::Conflicted
    } else {
        StatusItemType::Modified
    }
}

/// Classification of a tree delta. What was added or copied is new, and a
/// conflict is a conflict. A modification, and every kind that says nothing
/// of a change (unmodified, ignored, untracked, unreadable), counts as a
/// modification.
pub open spec fn delta_type(d: Delta) -> StatusItemType {
    match d {
        Delta::Added => StatusItemType::New,
        Delta::Copied => StatusItemType::New,
        Delta::Deleted => StatusItemType::Deleted,
        Delta::Renamed => StatusItemType::Renamed,
        Delta::Typechange => StatusItemType::Typechange,
        Delta::Conflicted => StatusItemType::Conflicted,
        Delta::Modified => StatusItemType::Modified,
        Delta::Unmodified => StatusItemType::Modified,
        Delta::Ignored => StatusItemType::Modified,
        Delta::Untracked => StatusItemType::Modified,
        Delta::Unreadable => StatusItemType::Modified,
    }
}

impl From<WorktreeSummary> for StatusItemType {
    fn from(summary: WorktreeSummary) -> (r: Self) {
        match summary {
            WorktreeSummary::Removed => Self::Deleted,
            WorktreeSummary::Added | WorktreeSummary::Copied | WorktreeSummary::IntentToAdd => {
                Self::New
            },
            WorktreeSummary::Modified => Self::Modified,
            WorktreeSummary::TypeChange => Self::Typechange,
            WorktreeSummary::Renamed => Self::Renamed,
            WorktreeSummary::Conflict => Self::Conflicted,
        }
    }
}

impl FromSpecImpl<WorktreeSummary> for StatusItemType {
    open spec fn obeys_from_spec() -> bool {
        true
    }

    open spec fn from_spec(summary: WorktreeSummary) -> Self {
        summary_type(summary)
    }
}

impl From<IndexChange> for StatusItemType {
    fn from(change: IndexChange) -> (r: Self) {
        match change {
            IndexChange::Addition => Self::New,
            IndexChange::Deletion => Self::Deleted,
            IndexChange::Modification | IndexChange::Rewrite => Self::Modified,
        }
    }
}

impl FromSpecImpl<IndexChange> for StatusItemType {
    open spec fn obeys_from_spec() -> bool {
        true
    }

    open spec fn from_spec(change: IndexChange) -> Self {
        index_change_type(change)
    }
}

impl From<StatusFlags> for StatusItemType {
    fn from(s: StatusFlags) -> (r: Self) {
        if s.index_new || s.wt_new {
            Self::New
        } else if s.index_deleted || s.wt_deleted {
            Self::Deleted
        } else if s.index_renamed || s.wt_renamed {
            Self::Renamed
        } else if s.index_typechange || s.wt_typechange {
            Self::Typechange
        } else if s.conflicted {
            Self::Conflicted
        } else {
            Self::Modified
        }
    }
}

impl FromSpecImpl<StatusFlags> for StatusItemType {
    open spec fn obeys_from_spec() -> bool {
        true
    }

    open spec fn from_spec(s: StatusFlags) -> Self {
        flags_type(s)
    }
}

impl From<Delta> for StatusItemType {
    fn from(d: Delta) -> (r: Self) {
        match d {
            Delta::Added | Delta::Copied => Self::New,
            Delta::Deleted => Self::Deleted,
            Delta::Renamed => Self::Renamed,
            Delta::Typechange => Self::Typechange,
            Delta::Conflicted => Self::Conflicted,
            Delta::Modified
            | Delta::Unmodified
            | Delta::Ignored
            | Delta::Untracked
            | Delta::Unreadable => Self::Modified,
        }
    }
}

impl FromSpecImpl<Delta> for StatusItemType {
    open spec fn obeys_from_spec() -> bool {
        true
    }

    open spec fn from_spec(d: Delta) -> Self {
        delta_type(d)
    }
}

} // verus!
