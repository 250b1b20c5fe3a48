//! The status listing: which paths changed, how, in which order.

use crate::error::Error;
use crate::listing::{
    distinct_paths, insert_by_path, lemma_ordered_strictly, lemma_sorted_ignores_arrival_order,
    lemma_sorted_is_ordered, lemma_sorted_is_permutation, lemma_sorted_of_ordered,
    lemma_sorted_strictly_ascends, ordered_by_path, sorted_by_path, strictly_ascending,
};
use crate::oid::Oid;
use crate::order::path_le_spec;
use crate::signals::{index_change_type, summary_type, IndexChange, StatusFlags, WorktreeSummary};
use crate::text::same_text;
use vstd::prelude::*;
use vstd::std_specs::convert::FromSpecImpl;

verus! {

/// The kind of change reported for one path.
#[derive(Copy, Clone, Hash, PartialEq, Eq, Debug, Structural)]
pub enum StatusItemType {
    New,
    Modified,
    Deleted,
    Renamed,
    Typechange,
    Conflicted,
}

/// Which diff a status query computes.
#[derive(Copy, Clone, Hash, PartialEq, Eq, Debug, Structural)]
pub enum StatusType {
    /// Worktree against index.
    WorkingDir,
    /// Index against the tree of HEAD.
    Stage,
    /// Both diffs, one record per diff and path.
    Both,
}

impl Default for StatusType {
    fn default() -> (r: Self)
        ensures
            r == StatusType::WorkingDir,
    {
        StatusType::WorkingDir
    }
}

/// One changed path with its classification.
#[derive(Clone, Hash, PartialEq, Eq, Debug)]
pub struct StatusItem {
    /// Path relative to the repository root, with `/` as separator.
    pub path: String,
    /// What happened to the path.
    pub status: StatusItemType,
}

/// A [`StatusItem`] as contracts see it.
pub ghost struct StatusItemView {
    pub path: Seq<char>,
    pub status: StatusItemType,
}

impl View for StatusItem {
    type V = StatusItemView;

    open spec fn view(&self) -> StatusItemView {
        StatusItemView { path: self.path@, status: self.status }
    }
}

/// The records of a listing as contracts see them, in the listing's order.
pub open spec fn item_views(items: Seq<StatusItem>) -> Seq<StatusItemView> {
    items.map_values(|item: StatusItem| item@)
}

/// How untracked files are listed.
#[derive(Copy, Clone, Hash, PartialEq, Eq, Debug, Structural)]
pub enum ShowUntrackedFilesConfig {
    /// No untracked file is listed.
    No,
    /// An untracked directory is listed as one entry.
    Normal,
    /// Every untracked file is listed.
    All,
}

impl ShowUntrackedFilesConfig {
    /// Untracked files are listed at all.
    pub open spec fn includes_untracked(self) -> bool {
        self != ShowUntrackedFilesConfig::No
    }

    /// Untracked directories are walked, so that each file in them is listed.
    pub open spec fn recurses_untracked_dirs(self) -> bool {
        self == ShowUntrackedFilesConfig::All
    }

    /// Whether untracked files are listed at all.
    #[verifier::when_used_as_spec(includes_untracked)]
    pub fn include_untracked(self) -> (b: bool)
        ensures
            b == self.includes_untracked(),
    {
        match self {
            ShowUntrackedFilesConfig::No => false,
            _ => true,
        }
    }

    /// Whether untracked directories are walked.
    #[verifier::when_used_as_spec(recurses_untracked_dirs)]
    pub fn recurse_untracked_dirs(self) -> (b: bool)
        ensures
            b == self.recurses_untracked_dirs(),
    {
        match self {
            ShowUntrackedFilesConfig::All => true,
            _ => false,
        }
    }
}

/// What the walk of the worktree does with untracked files.
#[derive(Copy, Clone, Hash, PartialEq, Eq, Debug, Structural)]
pub enum UntrackedFiles {
    /// They are not listed.
    Hidden,
    /// They are listed, a directory of them as one entry.
    Collapsed,
    /// Each of them is listed.
    Files,
}

/// What the walk does with untracked files under `config`.
pub open spec fn untracked_files_of(config: ShowUntrackedFilesConfig) -> UntrackedFiles {
    match config {
        ShowUntrackedFilesConfig::All => UntrackedFiles::Files,
        ShowUntrackedFilesConfig::Normal => UntrackedFiles::Collapsed,
        ShowUntrackedFilesConfig::No => UntrackedFiles::Hidden,
    }
}

impl From<ShowUntrackedFilesConfig> for UntrackedFiles {
    fn from(value: ShowUntrackedFilesConfig) -> (r: Self) {
        match value {
            ShowUntrackedFilesConfig::All => Self::Files,
            ShowUntrackedFilesConfig::Normal => Self::Collapsed,
            ShowUntrackedFilesConfig::No => Self::Hidden,
        }
    }
}

impl FromSpecImpl<ShowUntrackedFilesConfig> for UntrackedFiles {
    open spec fn obeys_from_spec() -> bool {
        true
    }

    open spec fn from_spec(value: ShowUntrackedFilesConfig) -> Self {
        untracked_files_of(value)
    }
}

/// Which diff a scan of the per-file backend reports.
#[derive(Copy, Clone, Hash, PartialEq, Eq, Debug, Structural)]
pub enum StatusShow {
    /// Index against the tree of HEAD.
    Index,
    /// Worktree against index.
    Workdir,
    /// Both.
    IndexAndWorkdir,
}

/// The diff that a scan reports for a query of `status_type`.
pub open spec fn status_show_of(status_type: StatusType) -> StatusShow {
    match status_type {
        StatusType::WorkingDir => StatusShow::Workdir,
        StatusType::Stage => StatusShow::Index,
        StatusType::Both => StatusShow::IndexAndWorkdir,
    }
}

impl From<StatusType> for StatusShow {
    fn from(s: StatusType) -> (r: Self) {
        match s {
            StatusType::WorkingDir => Self::Workdir,
            StatusType::Stage => Self::Index,
            StatusType::Both => Self::IndexAndWorkdir,
        }
    }
}

impl FromSpecImpl<StatusType> for StatusShow {
    open spec fn obeys_from_spec() -> bool {
        true
    }

    open spec fn from_spec(s: StatusType) -> Self {
        status_show_of(s)
    }
}

/// One item as a status backend yields it.
#[derive(Clone, Hash, PartialEq, Eq, Debug)]
pub enum StatusEntry {
    /// A path of the diff of index against worktree. Without a summary the
    /// backend saw nothing to report for it.
    IndexWorktree { path: String, summary: Option<WorktreeSummary> },
    /// A path of the diff of the tree of HEAD against the index.
    TreeIndex { path: String, change: IndexChange },
    /// A path that the backend could not read.
    Unreadable,
}

impl StatusEntry {
    /// The record that this entry gives in a listing of `status_type`, if any.
    /// An entry of the other diff, one without a summary and an unreadable one
    /// give none.
    pub open spec fn record(self, status_type: StatusType) -> Option<StatusItemView> {
        match self {
            StatusEntry::IndexWorktree { path, summary } => {
                if status_type != StatusType::Stage && summary is Some {
                    Some(StatusItemView { path: path@, status: summary_type(summary->0) })
                } else {
                    None
                }
            },
            StatusEntry::TreeIndex { path, change } => {
                if status_type != StatusType::WorkingDir {
                    Some(StatusItemView { path: path@, status: index_change_type(change) })
                } else {
                    None
                }
            },
            StatusEntry::Unreadable => None,
        }
    }

    /// The record that this entry gives in a listing of `status_type`, if any.
    pub fn to_item(&self, status_type: StatusType) -> (r: Option<StatusItem>)
        ensures
            r is Some <==> self.record(status_type) is Some,
            r is Some ==> r->0@ == self.record(status_type)->0,
    {
        match self {
            StatusEntry::IndexWorktree { path, summary } => {
                match (status_type, summary) {
                    (StatusType::Stage, _) => None,
                    (_, None) => None,
                    (_, Some(summary)) => Some(
                        StatusItem { path: path.clone(), status: StatusItemType::from(*summary) },
                    ),
                }
            },
            StatusEntry::TreeIndex { path, change } => {
                match status_type {
                    StatusType::WorkingDir => None,
                    _ => Some(
                        StatusItem { path: path.clone(), status: StatusItemType::from(*change) },
                    ),
                }
            },
            StatusEntry::Unreadable => None,
        }
    }
}

/// The records that `entries` give in a listing of `status_type`, in the order
/// of the entries.
pub open spec fn records(status_type: StatusType, entries: Seq<StatusEntry>) -> Seq<StatusItemView>
    decreases entries.len(),
{
    if entries.len() == 0 {
        Seq::empty()
    } else {
        let rest = records(status_type, entries.drop_last());
        match entries.last().record(status_type) {
            Some(item) => rest.push(item),
            None => rest,
        }
    }
}

/// The listing of `status_type` for what a backend yielded: its records,
/// ordered by path.
pub open spec fn status_listing(status_type: StatusType, entries: Seq<StatusEntry>) -> Seq<
    StatusItemView,
> {
    sorted_by_path(records(status_type, entries))
}

/// The status listing for the items that a backend yielded.
///
/// Every entry of the diff that `status_type` selects gives one record, under
/// its own classification; in `Both` a path that both diffs report is listed
/// twice. Unreadable entries are left out and do not fail the query. The
/// records come ordered by path, those of one path in the order of `entries`;
/// where the entries give no path twice, the order is strict.
pub fn get_status(status_type: StatusType, entries: &[StatusEntry]) -> (res: Vec<StatusItem>)
    ensures
        item_views(res@) == status_listing(status_type, entries@),
        ordered_by_path(item_views(res@)),
        distinct_paths(records(status_type, entries@)) ==> strictly_ascending(item_views(res@)),
        item_views(res@).to_multiset() == records(status_type, entries@).to_multiset(),
        res@.len() == records(status_type, entries@).len(),
{
    let mut res: Vec<StatusItem> = Vec::new();
    let mut i: usize = 0;
    while i < entries.len()
        invariant
            i <= entries@.len(),
            item_views(res@) == status_listing(status_type, entries@.take(i as int)),
        decreases entries@.len() - i,
    {
        let ghost before = records(status_type, entries@.take(i as int));
        assert(entries@.take(i + 1).drop_last() =~= entries@.take(i as int));
        match entries[i].to_item(status_type) {
            Some(item) => {
                assert(before.push(item@).drop_last() =~= before);
                insert_by_path(&mut res, item);
            },
            None => {},
        }
        i += 1;
    }
    proof {
        assert(entries@.take(i as int) =~= entries@);
        lemma_sorted_is_ordered(records(status_type, entries@));
        lemma_sorted_is_permutation(records(status_type, entries@));
        if distinct_paths(records(status_type, entries@)) {
            lemma_sorted_strictly_ascends(records(status_type, entries@));
        }
    }
    res
}

/// A listing ascends strictly by path, for every kind of query, where the
/// backend yields no path twice for it: every record's path is strictly
/// earlier than that of each record behind it.
pub proof fn lemma_listing_strictly_ascends(status_type: StatusType, entries: Seq<StatusEntry>)
    requires
        distinct_paths(records(status_type, entries)),
    ensures
        strictly_ascending(status_listing(status_type, entries)),
{
    lemma_sorted_strictly_ascends(records(status_type, entries));
}

/// A listing ascends by path, for every kind of query: of two records the
/// earlier one's path is no later than the other's, and where the two paths
/// differ it is strictly earlier.
pub proof fn lemma_listing_ascends(
    status_type: StatusType,
    entries: Seq<StatusEntry>,
    i: int,
    j: int,
)
    requires
        0 <= i < j < status_listing(status_type, entries).len(),
    ensures
        path_le_spec(
            status_listing(status_type, entries)[i].path,
            status_listing(status_type, entries)[j].path,
        ),
        status_listing(status_type, entries)[i].path != status_listing(status_type, entries)[j].path
            ==> !path_le_spec(
            status_listing(status_type, entries)[j].path,
            status_listing(status_type, entries)[i].path,
        ),
{
    let listing = status_listing(status_type, entries);
    lemma_sorted_is_ordered(records(status_type, entries));
    if listing[i].path != listing[j].path {
        lemma_ordered_strictly(listing, i, j);
    }
}

/// Ordering a listing once more yields the same listing.
pub proof fn lemma_listing_is_fixed(status_type: StatusType, entries: Seq<StatusEntry>)
    ensures
        sorted_by_path(status_listing(status_type, entries)) == status_listing(
            status_type,
            entries,
        ),
{
    lemma_sorted_is_ordered(records(status_type, entries));
    lemma_sorted_of_ordered(status_listing(status_type, entries));
}

/// A listing does not depend on the order in which the backend yields its
/// entries, as long as no two records have the same path: entries that give
/// the same records give the same listing.
pub proof fn lemma_listing_ignores_arrival_order(
    status_type: StatusType,
    a: Seq<StatusEntry>,
    b: Seq<StatusEntry>,
)
    requires
        distinct_paths(records(status_type, a)),
        records(status_type, a).to_multiset() == records(status_type, b).to_multiset(),
    ensures
        status_listing(status_type, a) == status_listing(status_type, b),
{
    lemma_sorted_ignores_arrival_order(records(status_type, a), records(status_type, b));
}

/// A query for both diffs lists what the two queries for one diff list
/// together: each record as often as the two hold it between them.
pub proof fn lemma_both_is_union(entries: Seq<StatusEntry>)
    ensures
        status_listing(StatusType::Both, entries).to_multiset() == status_listing(
            StatusType::WorkingDir,
            entries,
        ).to_multiset().add(status_listing(StatusType::Stage, entries).to_multiset()),
{
    lemma_records_of_both(entries);
    lemma_sorted_is_permutation(records(StatusType::Both, entries));
    lemma_sorted_is_permutation(records(StatusType::WorkingDir, entries));
    lemma_sorted_is_permutation(records(StatusType::Stage, entries));
}

proof fn lemma_records_of_both(entries: Seq<StatusEntry>)
    ensures
        records(StatusType::Both, entries).to_multiset() == records(
            StatusType::WorkingDir,
            entries,
        ).to_multiset().add(records(StatusType::Stage, entries).to_multiset()),
    decreases entries.len(),
{
    broadcast use vstd::seq_lib::group_to_multiset_ensures;

    let both = records(StatusType::Both, entries).to_multiset();
    let worktree = records(StatusType::WorkingDir, entries).to_multiset();
    let stage = records(StatusType::Stage, entries).to_multiset();
    if entries.len() > 0 {
        lemma_records_of_both(entries.drop_last());
    }
    assert(both =~= worktree.add(stage));
}

/// The settings of the scan that tells whether the working directory is clean.
#[derive(Copy, Clone, Hash, PartialEq, Eq, Debug, Structural)]
pub struct WorkdirScan {
    /// Which diff the scan reports.
    pub show: StatusShow,
    /// The index is refreshed before the scan.
    pub update_index: bool,
    /// Untracked files are reported.
    pub include_untracked: bool,
    /// Renames between HEAD and the index are detected.
    pub renames_head_to_index: bool,
    /// Untracked directories are walked.
    pub recurse_untracked_dirs: bool,
}

/// The scan behind [`is_workdir_clean`]: worktree only, with a refreshed
/// index and rename detection, untracked files as `show_untracked` says.
pub fn workdir_scan(show_untracked: ShowUntrackedFilesConfig) -> (scan: WorkdirScan)
    ensures
        scan == (WorkdirScan {
            show: StatusShow::Workdir,
            update_index: true,
            include_untracked: show_untracked.includes_untracked(),
            renames_head_to_index: true,
            recurse_untracked_dirs: show_untracked.recurses_untracked_dirs(),
        }),
{
    WorkdirScan {
        show: StatusShow::from(StatusType::WorkingDir),
        update_index: true,
        include_untracked: show_untracked.include_untracked(),
        renames_head_to_index: true,
        recurse_untracked_dirs: show_untracked.recurse_untracked_dirs(),
    }
}

/// A repository has no working directory where it is bare and no worktree.
pub open spec fn without_workdir(bare: bool, worktree: bool) -> bool {
    bare && !worktree
}

/// Whether a repository has no working directory. Such a repository is
/// clean, and there is nothing in it to scan.
#[verifier::when_used_as_spec(without_workdir)]
pub fn has_no_workdir(bare: bool, worktree: bool) -> (none: bool)
    ensures
        none == without_workdir(bare, worktree),
{
    bare && !worktree
}

/// A repository is clean where it has no working directory, or where a scan
/// of the working directory reported nothing.
pub open spec fn workdir_clean(bare: bool, worktree: bool, reported: nat) -> bool {
    without_workdir(bare, worktree) || reported == 0
}

/// Whether the working directory is clean.
///
/// A bare repository that is no worktree has no working directory and is
/// clean whatever `scanned` holds. Any other is clean if and only if the scan
/// of [`workdir_scan`] reported no entry.
pub fn is_workdir_clean(bare: bool, worktree: bool, scanned: &[StatusFlags]) -> (clean: bool)
    ensures
        clean == workdir_clean(bare, worktree, scanned@.len()),
{
    if has_no_workdir(bare, worktree) {
        return true;
    }
    scanned.len() == 0
}

/// For a repository with a working directory, and a scan that reports
/// nothing exactly where the backend of the listing yields no record for the
/// worktree, the working directory is clean if and only if the listing of
/// the worktree is empty.
pub proof fn lemma_clean_iff_listing_empty(
    bare: bool,
    worktree: bool,
    reported: nat,
    entries: Seq<StatusEntry>,
)
    requires
        !without_workdir(bare, worktree),
        (reported == 0) == (records(StatusType::WorkingDir, entries).len() == 0),
    ensures
        workdir_clean(bare, worktree, reported) <==> status_listing(
            StatusType::WorkingDir,
            entries,
        ).len() == 0,
{
    lemma_sorted_is_permutation(records(StatusType::WorkingDir, entries));
}

/// How untracked files are listed where the caller does not say: as
/// `status.showUntrackedFiles` has it, and every one of them where the
/// setting is absent or holds neither `no` nor `normal`.
pub open spec fn configured_untracked(configured: Option<&str>) -> ShowUntrackedFilesConfig {
    match configured {
        Some(value) => if value@ == "no"@ {
            ShowUntrackedFilesConfig::No
        } else if value@ == "normal"@ {
            ShowUntrackedFilesConfig::Normal
        } else {
            ShowUntrackedFilesConfig::All
        },
        None => ShowUntrackedFilesConfig::All,
    }
}

/// How untracked files are listed: as `show_untracked` says, and where it
/// says nothing as the value `configured` of `status.showUntrackedFiles`
/// has it.
pub fn untracked_files_config(
    show_untracked: Option<ShowUntrackedFilesConfig>,
    configured: Option<&str>,
) -> (config: ShowUntrackedFilesConfig)
    ensures
        config == match show_untracked {
            Some(config) => config,
            None => configured_untracked(configured),
        },
{
    match show_untracked {
        Some(config) => config,
        None => match configured {
            Some(value) => if same_text(value, "no") {
                ShowUntrackedFilesConfig::No
            } else if same_text(value, "normal") {
                ShowUntrackedFilesConfig::Normal
            } else {
                ShowUntrackedFilesConfig::All
            },
            None => ShowUntrackedFilesConfig::All,
        },
    }
}

/// How far a reset goes.
#[derive(Copy, Clone, Hash, PartialEq, Eq, Debug, Structural)]
pub enum ResetType {
    /// Only HEAD moves.
    Soft,
    /// HEAD moves and the index follows.
    Mixed,
    /// HEAD moves, index and worktree follow.
    Hard,
}

/// A reset that is to be carried out.
#[derive(Copy, Clone, Debug, PartialEq, Eq)]
pub struct Reset {
    /// The commit to reset to.
    pub commit: Oid,
    /// How far the reset goes.
    pub kind: ResetType,
}

/// Discards all changes in the working directory: worktree and index are
/// reset hard to `head`, the commit that HEAD points to. In a repository
/// without commits there is no such commit, and nothing to reset to.
pub fn discard_status(head: Option<Oid>) -> (r: Result<Reset, Error>)
    ensures
        match r {
            Ok(reset) => head == Some(reset.commit) && reset.kind == ResetType::Hard,
            Err(e) => head is None && e is NoHead,
        },
{
    match head {
        Some(commit) => Ok(Reset { commit, kind: ResetType::Hard }),
        None => Err(Error::NoHead),
    }
}

} // verus!
