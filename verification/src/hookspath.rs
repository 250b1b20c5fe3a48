//! Where a hook script is looked for, and from where it is run.
//!
//! A hook is looked for in the directory that `core.hooksPath` names, if the
//! setting is there; then in `hooks` below the git directory; then in each
//! directory that the caller hands over, in the order given. The first of
//! these that holds an executable file of the hook's name wins. Whether a
//! directory holds such a file is for the caller to find out: it is handed in
//! as one `bool` for each directory.

use vstd::prelude::*;
use vstd::string::{StrSliceExecFns, StringExecFns};

verus! {

/// `name` below `dir`: `name` itself where it starts at the root, else the
/// two with one `/` between them.
pub open spec fn join_text(dir: Seq<char>, name: Seq<char>) -> Seq<char> {
    if name.len() > 0 && name[0] == '/' {
        name
    } else if dir.len() == 0 || dir.last() == '/' {
        dir + name
    } else {
        dir + seq!['/'] + name
    }
}

/// The path of `name` below `dir`.
pub fn join_path(dir: &str, name: &str) -> (path: String)
    ensures
        path@ == join_text(dir@, name@),
{
    proof {
        reveal_strlit("/");
    }
    let name_len = name.unicode_len();
    if name_len > 0 && name.get_char(0) == '/' {
        return name.to_owned();
    }
    let dir_len = dir.unicode_len();
    let mut path = dir.to_owned();
    if dir_len > 0 && dir.get_char(dir_len - 1) != '/' {
        path.append("/");
    }
    path.append(name);
    path
}

/// What a repository tells about where its hooks live.
#[derive(Clone, Debug, PartialEq, Eq)]
pub struct RepoLayout {
    /// The git directory.
    pub git_dir: String,
    /// The root of the worktree; none for a bare repository without one.
    pub workdir: Option<String>,
    /// The value of `core.hooksPath`, if it is set.
    pub hooks_path: Option<String>,
}

impl RepoLayout {
    /// The directory from which a hook is run: the root of the worktree, or
    /// the git directory where there is no worktree.
    pub open spec fn pwd_text(&self) -> Seq<char> {
        match self.workdir {
            Some(dir) => dir@,
            None => self.git_dir@,
        }
    }

    /// The directory from which a hook is run.
    pub fn pwd(&self) -> (dir: String)
        ensures
            dir@ == self.pwd_text(),
    {
        match &self.workdir {
            Some(dir) => dir.clone(),
            None => self.git_dir.clone(),
        }
    }

    /// The directories in which a hook is looked for, first choice first: the
    /// one of `core.hooksPath`, taken from the directory in which hooks run;
    /// `hooks` in the git directory; each of `other_paths`, taken from the git
    /// directory.
    pub open spec fn locations(&self, other_paths: Option<&[&str]>) -> Seq<Seq<char>> {
        let configured = match self.hooks_path {
            Some(dir) => seq![join_text(self.pwd_text(), dir@)],
            None => Seq::empty(),
        };
        let others = match other_paths {
            Some(paths) => Seq::new(paths@.len(), |i: int| join_text(self.git_dir@, paths@[i]@)),
            None => Seq::empty(),
        };
        configured + seq![join_text(self.git_dir@, "hooks"@)] + others
    }

    /// The directories in which a hook is looked for, first choice first.
    pub fn search_locations(&self, other_paths: Option<&[&str]>) -> (dirs: Vec<String>)
        ensures
            texts(dirs@) == self.locations(other_paths),
    {
        let mut dirs: Vec<String> = Vec::new();
        match &self.hooks_path {
            Some(dir) => {
                let pwd = self.pwd();
                dirs.push(join_path(pwd.as_str(), dir.as_str()));
            },
            None => {},
        }
        dirs.push(join_path(self.git_dir.as_str(), "hooks"));
        let ghost head = texts(dirs@);
        assert(head =~= match self.hooks_path {
            Some(dir) => seq![join_text(self.pwd_text(), dir@)],
            None => Seq::empty(),
        } + seq![join_text(self.git_dir@, "hooks"@)]);
        match other_paths {
            Some(paths) => {
                let mut i: usize = 0;
                assert(texts(dirs@) =~= head + Seq::new(
                    0,
                    |k: int| join_text(self.git_dir@, paths@[k]@),
                ));
                while i < paths.len()
                    invariant
                        i <= paths@.len(),
                        texts(dirs@) == head + Seq::new(
                            i as nat,
                            |k: int| join_text(self.git_dir@, paths@[k]@),
                        ),
                    decreases paths@.len() - i,
                {
                    let ghost before = texts(dirs@);
                    let dir = join_path(self.git_dir.as_str(), paths[i]);
                    dirs.push(dir);
                    assert(texts(dirs@) =~= before.push(dir@));
                    assert(texts(dirs@) =~= head + Seq::new(
                        (i + 1) as nat,
                        |k: int| join_text(self.git_dir@, paths@[k]@),
                    ));
                    i += 1;
                }
            },
            None => {},
        }
        dirs
    }
}

/// The text of each string, in order.
pub open spec fn texts(strings: Seq<String>) -> Seq<Seq<char>> {
    strings.map_values(|s: String| s@)
}

/// The first index at which `present` holds `true`, if any.
pub open spec fn first_present(present: Seq<bool>) -> Option<int>
    decreases present.len(),
{
    if present.len() == 0 {
        None
    } else {
        match first_present(present.drop_last()) {
            Some(k) => Some(k),
            None => if present.last() {
                Some(present.len() - 1)
            } else {
                None
            },
        }
    }
}

/// [`first_present`] names an index that holds `true` with none before it
/// that does, and names none only where nothing holds `true`.
pub proof fn lemma_first_present(present: Seq<bool>)
    ensures
        match first_present(present) {
            Some(k) => 0 <= k < present.len() && present[k] && forall|i: int|
                0 <= i < k ==> !present[i],
            None => forall|i: int| 0 <= i < present.len() ==> !present[i],
        },
    decreases present.len(),
{
    if present.len() > 0 {
        lemma_first_present(present.drop_last());
        assert(forall|i: int| 0 <= i < present.len() - 1 ==> present.drop_last()[i] == present[i]);
    }
}

/// The hook file that was found.
#[derive(Clone, Debug, PartialEq, Eq)]
pub struct HookFile {
    /// The directory that holds the hook.
    pub dir: String,
    /// The path of the hook itself.
    pub path: String,
}

/// A [`HookFile`] as contracts see it.
pub ghost struct HookFileView {
    pub dir: Seq<char>,
    pub path: Seq<char>,
}

impl View for HookFile {
    type V = HookFileView;

    open spec fn view(&self) -> HookFileView {
        HookFileView { dir: self.dir@, path: self.path@ }
    }
}

/// Where one hook was looked for and found, and from where it is to be run.
#[derive(Clone, Debug, PartialEq, Eq)]
pub struct HookPaths {
    /// The git directory.
    pub git: String,
    /// The name of the hook.
    pub hook_name: String,
    /// The directories that were searched, first choice first.
    pub search_locations: Vec<String>,
    /// The hook that was found, if any.
    pub hook: Option<HookFile>,
    /// The directory from which the hook is run.
    pub pwd: String,
}

/// Which of `n` directories wins: the first of them for which `present` holds
/// `true`. What `present` holds beyond the `n`-th place does not count, and a
/// directory for which it holds nothing counts as not holding the hook.
pub open spec fn resolved_index(present: Seq<bool>, n: int) -> Option<int> {
    if n <= present.len() {
        first_present(present.take(n))
    } else {
        first_present(present)
    }
}

/// Precedence among the directories: the one that wins is the first that
/// holds the hook, whatever the directories behind it hold.
pub proof fn lemma_first_holder_wins(present: Seq<bool>, n: int, k: int)
    requires
        0 <= k < n,
        k < present.len(),
        present[k],
        forall|i: int| 0 <= i < k ==> !present[i],
    ensures
        resolved_index(present, n) == Some(k),
{
    let seen = if n <= present.len() {
        present.take(n)
    } else {
        present
    };
    lemma_first_present(seen);
    assert(forall|i: int| 0 <= i < seen.len() ==> seen[i] == present[i]);
}

/// Where the directory that won loses the hook, the next one that holds it
/// wins instead.
pub proof fn lemma_next_holder_takes_over(present: Seq<bool>, n: int, k: int, j: int)
    requires
        resolved_index(present, n) == Some(k),
        0 <= k < j < n,
        j < present.len(),
        present[j],
        forall|i: int| k < i < j ==> !present[i],
    ensures
        resolved_index(present.update(k, false), n) == Some(j),
{
    let seen = if n <= present.len() {
        present.take(n)
    } else {
        present
    };
    lemma_first_present(seen);
    let lost = present.update(k, false);
    assert forall|i: int| 0 <= i < j implies !lost[i] by {
        if i < k {
            assert(seen[i] == present[i]);
        }
    }
    lemma_first_holder_wins(lost, n, j);
}

/// With `core.hooksPath` set, its directory is the first choice: a hook that
/// it holds wins over one in `hooks` of the git directory and over one in any
/// of `other_paths`.
pub proof fn lemma_hooks_path_wins(
    repo: RepoLayout,
    other_paths: Option<&[&str]>,
    present: Seq<bool>,
)
    requires
        repo.hooks_path is Some,
        present.len() > 0,
        present[0],
    ensures
        repo.locations(other_paths)[0] == join_text(repo.pwd_text(), repo.hooks_path->0@),
        resolved_index(present, repo.locations(other_paths).len() as int) == Some(0int),
{
    lemma_first_holder_wins(present, repo.locations(other_paths).len() as int, 0);
}

/// The hook file that a search for `hook` comes to, if any: the file of that
/// name in the first directory of `repo` and `other_paths` for which `present`
/// holds `true`.
pub open spec fn resolved_hook(
    repo: RepoLayout,
    other_paths: Option<&[&str]>,
    hook: Seq<char>,
    present: Seq<bool>,
) -> Option<HookFileView> {
    let locations = repo.locations(other_paths);
    match resolved_index(present, locations.len() as int) {
        Some(k) => Some(HookFileView { dir: locations[k], path: join_text(locations[k], hook) }),
        None => None,
    }
}

/// A hook that lies both in the directory of `core.hooksPath` and in the
/// first of `other_paths`, and not in `hooks` of the git directory, is run
/// from the directory of `core.hooksPath`; once it is gone from there, the one
/// in the first of `other_paths` is run instead.
pub proof fn lemma_hooks_path_before_other_paths(
    repo: RepoLayout,
    other_paths: &[&str],
    hook: Seq<char>,
    present: Seq<bool>,
)
    requires
        repo.hooks_path is Some,
        other_paths@.len() > 0,
        present.len() >= 3,
        present[0],
        !present[1],
        present[2],
    ensures
        resolved_hook(repo, Some(other_paths), hook, present) == Some(
            HookFileView {
                dir: join_text(repo.pwd_text(), repo.hooks_path->0@),
                path: join_text(join_text(repo.pwd_text(), repo.hooks_path->0@), hook),
            },
        ),
        resolved_hook(repo, Some(other_paths), hook, present.update(0, false)) == Some(
            HookFileView {
                dir: join_text(repo.git_dir@, other_paths@[0]@),
                path: join_text(join_text(repo.git_dir@, other_paths@[0]@), hook),
            },
        ),
{
    let locations = repo.locations(Some(other_paths));
    let n = locations.len() as int;
    lemma_first_holder_wins(present, n, 0);
    lemma_next_holder_takes_over(present, n, 0, 2);
}

impl HookPaths {
    /// The hook that was found, as contracts see it.
    pub open spec fn hook_view(&self) -> Option<HookFileView> {
        match self.hook {
            Some(file) => Some(file@),
            None => None,
        }
    }

    /// A hook was found.
    pub open spec fn is_found(&self) -> bool {
        self.hook is Some
    }

    /// Whether a hook was found.
    #[verifier::when_used_as_spec(is_found)]
    pub fn found(&self) -> (b: bool)
        ensures
            b == self.is_found(),
    {
        self.hook.is_some()
    }

    /// Looks `hook` up for `repo`. `present` says, for each directory of
    /// [`RepoLayout::search_locations`] in turn, whether it holds an executable
    /// file named `hook`.
    pub fn new(
        repo: &RepoLayout,
        other_paths: Option<&[&str]>,
        hook: &str,
        present: &[bool],
    ) -> (paths: Self)
        ensures
            paths.git@ == repo.git_dir@,
            paths.hook_name@ == hook@,
            paths.pwd@ == repo.pwd_text(),
            texts(paths.search_locations@) == repo.locations(other_paths),
            paths.hook_view() == resolved_hook(*repo, other_paths, hook@, present@),
    {
        let dirs = repo.search_locations(other_paths);
        let ghost locations = repo.locations(other_paths);
        let limit = if dirs.len() <= present.len() {
            dirs.len()
        } else {
            present.len()
        };
        let ghost seen = present@.take(limit as int);
        assert(resolved_index(present@, locations.len() as int) == first_present(seen)) by {
            if limit == present.len() {
                assert(seen =~= present@);
            }
        }
        let mut found: Option<HookFile> = None;
        let mut i: usize = 0;
        while i < limit && found.is_none()
            invariant
                i <= limit,
                limit <= dirs@.len(),
                limit <= present@.len(),
                seen == present@.take(limit as int),
                texts(dirs@) == locations,
                match found {
                    Some(file) => first_present(seen) == Some(i - 1) && file.dir@ == locations[i
                        - 1] && file.path@ == join_text(locations[i - 1], hook@),
                    None => first_present(seen.take(i as int)) is None,
                },
            decreases limit - i,
        {
            assert(seen.take(i + 1).drop_last() =~= seen.take(i as int));
            if present[i] {
                proof {
                    lemma_first_present(seen);
                    lemma_first_present(seen.take(i as int));
                    assert forall|k: int| 0 <= k < i implies !seen[k] by {
                        assert(seen.take(i as int)[k] == seen[k]);
                    }
                }
                let dir = dirs[i].clone();
                let path = join_path(dir.as_str(), hook);
                found = Some(HookFile { dir, path });
            }
            i += 1;
        }
        proof {
            if found is None {
                assert(seen.take(i as int) =~= seen);
            }
        }
        HookPaths {
            git: repo.git_dir.clone(),
            hook_name: hook.to_owned(),
            search_locations: dirs,
            hook: found,
            pwd: repo.pwd(),
        }
    }
}

/// Whether `hook` is there for `repo`, given for each directory of
/// [`RepoLayout::search_locations`] in turn whether it holds the hook.
pub fn hook_available(
    repo: &RepoLayout,
    other_paths: Option<&[&str]>,
    hook: &str,
    present: &[bool],
) -> (available: bool)
    ensures
        available == (resolved_hook(*repo, other_paths, hook@, present@) is Some),
{
    let paths = HookPaths::new(repo, other_paths, hook, present);
    paths.found()
}

} // verus!
