//! What a hook is handed and what a hook run yields.

use crate::hookspath::{
    join_path, join_text, resolved_hook, texts, HookFileView, HookPaths, RepoLayout,
};
use crate::oid::{hex_text, Oid};
use vstd::prelude::*;
use vstd::string::StringExecFns;

verus! {

/// What came back from a hook that was run.
#[derive(Debug, PartialEq, Eq)]
pub struct HookRunResponse {
    /// Path of the hook that was run.
    pub hook: String,
    /// What the hook wrote to its standard output.
    pub stdout: String,
    /// What the hook wrote to its standard error.
    pub stderr: String,
    /// Exit code of the hook's process (0 means success).
    pub code: i32,
}

/// Outcome of asking for a hook.
#[derive(Debug, PartialEq, Eq)]
pub enum HookResult {
    /// No hook was found, so nothing was run.
    NoHookFound,
    /// The hook was run; a rejection is a non-zero `code`.
    Run(HookRunResponse),
}

impl HookRunResponse {
    /// The hook succeeded: it exited with code 0.
    pub open spec fn successful(&self) -> bool {
        self.code == 0
    }

    /// Whether the hook succeeded (exit code 0).
    #[verifier::when_used_as_spec(successful)]
    pub fn is_successful(&self) -> (b: bool)
        ensures
            b == self.successful(),
    {
        self.code == 0
    }
}

impl HookResult {
    /// A hook was found, run, and exited with code 0.
    pub open spec fn successful(&self) -> bool {
        match self {
            HookResult::NoHookFound => false,
            HookResult::Run(response) => response.code == 0,
        }
    }

    /// Whether a hook was found and ran successfully.
    #[verifier::when_used_as_spec(successful)]
    pub fn is_successful(&self) -> (b: bool)
        ensures
            b == self.successful(),
    {
        match self {
            HookResult::NoHookFound => false,
            HookResult::Run(response) => response.is_successful(),
        }
    }
}

/// One ref that a push is about to update, as the pre-push hook is told.
#[derive(Clone, Debug, PartialEq, Eq)]
pub struct PrePushRef {
    /// Name of the local ref.
    pub local_ref: String,
    /// Id that the local ref points to; none when the push deletes.
    pub local_oid: Option<Oid>,
    /// Name of the ref on the remote.
    pub remote_ref: String,
    /// Id that the remote ref points to; none when it does not exist yet.
    pub remote_oid: Option<Oid>,
}

/// The text that stands for an id that is absent: forty zeros.
pub open spec fn zero_oid_text() -> Seq<char> {
    Seq::new(40, |i: int| '0')
}

/// The text of an id in a line for the hook: its forty hexadecimal digits, or
/// forty zeros where there is none.
pub open spec fn oid_text(oid: Option<Oid>) -> Seq<char> {
    match oid {
        Some(id) => hex_text(id@),
        None => zero_oid_text(),
    }
}

/// A [`PrePushRef`] as contracts see it.
pub ghost struct PrePushRefView {
    pub local_ref: Seq<char>,
    pub local_oid: Option<Oid>,
    pub remote_ref: Seq<char>,
    pub remote_oid: Option<Oid>,
}

impl View for PrePushRef {
    type V = PrePushRefView;

    open spec fn view(&self) -> PrePushRefView {
        PrePushRefView {
            local_ref: self.local_ref@,
            local_oid: self.local_oid,
            remote_ref: self.remote_ref@,
            remote_oid: self.remote_oid,
        }
    }
}

/// The updates of a push as contracts see them, in order.
pub open spec fn update_views(updates: Seq<PrePushRef>) -> Seq<PrePushRefView> {
    updates.map_values(|update: PrePushRef| update@)
}

impl PrePushRefView {
    /// The line for this update: local ref, local id, remote ref and remote
    /// id, with one space between each two.
    pub open spec fn line_text(self) -> Seq<char> {
        self.local_ref + seq![' '] + oid_text(self.local_oid) + seq![' '] + self.remote_ref
            + seq![' '] + oid_text(self.remote_oid)
    }
}

/// What the pre-push hook reads on its standard input: the line of each
/// update, each ended by a line feed, in the order of the updates.
pub open spec fn stdin_text(updates: Seq<PrePushRefView>) -> Seq<char>
    decreases updates.len(),
{
    if updates.len() == 0 {
        Seq::empty()
    } else {
        stdin_text(updates.drop_last()) + updates.last().line_text() + seq!['\n']
    }
}

impl PrePushRef {
    /// The update of `remote_ref` from `remote_oid` to what `local_ref` holds.
    pub fn new(
        local_ref: &str,
        local_oid: Option<Oid>,
        remote_ref: &str,
        remote_oid: Option<Oid>,
    ) -> (update: Self)
        ensures
            update@ == (PrePushRefView {
                local_ref: local_ref@,
                local_oid,
                remote_ref: remote_ref@,
                remote_oid,
            }),
    {
        Self {
            local_ref: local_ref.to_owned(),
            local_oid,
            remote_ref: remote_ref.to_owned(),
            remote_oid,
        }
    }

    /// The text of `oid` in a line for the hook.
    pub fn format_oid(oid: Option<Oid>) -> (text: String)
        ensures
            text@ == oid_text(oid),
            text@.len() == 40,
    {
        match oid {
            Some(id) => id.to_hex(),
            None => {
                proof {
                    reveal_strlit("0000000000000000000000000000000000000000");
                }
                String::from_str("0000000000000000000000000000000000000000")
            },
        }
    }

    /// The line for this update, without the line feed that ends it.
    pub fn to_line(&self) -> (line: String)
        ensures
            line@ == self@.line_text(),
    {
        proof {
            reveal_strlit(" ");
        }
        let mut line = self.local_ref.clone();
        line.append(" ");
        line.append(Self::format_oid(self.local_oid).as_str());
        line.append(" ");
        line.append(self.remote_ref.as_str());
        line.append(" ");
        line.append(Self::format_oid(self.remote_oid).as_str());
        line
    }

    /// The standard input of the pre-push hook for `updates`.
    pub fn to_stdin(updates: &[Self]) -> (stdin: String)
        ensures
            stdin@ == stdin_text(update_views(updates@)),
    {
        proof {
            reveal_strlit("\n");
        }
        let mut stdin = String::new();
        let mut i: usize = 0;
        let ghost views = update_views(updates@);
        while i < updates.len()
            invariant
                i <= updates@.len(),
                views == update_views(updates@),
                stdin@ == stdin_text(views.take(i as int)),
                "\n"@ == seq!['\n'],
            decreases updates@.len() - i,
        {
            assert(views.take(i + 1).drop_last() =~= views.take(i as int));
            stdin.append(updates[i].to_line().as_str());
            stdin.append("\n");
            i += 1;
        }
        assert(views.take(i as int) =~= views);
        stdin
    }
}

/// Name of the hook that runs after a commit was made.
pub const HOOK_POST_COMMIT: &'static str = "post-commit";

/// Name of the hook that runs before a commit is made.
pub const HOOK_PRE_COMMIT: &'static str = "pre-commit";

/// Name of the hook that checks, and may rewrite, a commit message.
pub const HOOK_COMMIT_MSG: &'static str = "commit-msg";

/// Name of the hook that prepares a commit message.
pub const HOOK_PREPARE_COMMIT_MSG: &'static str = "prepare-commit-msg";

/// Name of the hook that runs before a push.
pub const HOOK_PRE_PUSH: &'static str = "pre-push";

/// Name of the file through which a hook is handed the commit message.
pub const HOOK_COMMIT_MSG_TEMP_FILE: &'static str = "COMMIT_EDITMSG";

/// Where the message of a commit that is being prepared comes from.
#[derive(Copy, Clone, Debug, PartialEq, Eq)]
pub enum PrepareCommitMsgSource {
    Message,
    Template,
    Merge,
    Squash,
    Commit(Oid),
}

impl PrepareCommitMsgSource {
    /// The word that tells the hook of this source.
    pub open spec fn kind_text(self) -> Seq<char> {
        match self {
            PrepareCommitMsgSource::Message => "message"@,
            PrepareCommitMsgSource::Template => "template"@,
            PrepareCommitMsgSource::Merge => "merge"@,
            PrepareCommitMsgSource::Squash => "squash"@,
            PrepareCommitMsgSource::Commit(_) => "commit"@,
        }
    }

    /// The word that tells the hook of this source.
    pub fn kind(&self) -> (word: &'static str)
        ensures
            word@ == self.kind_text(),
    {
        match self {
            PrepareCommitMsgSource::Message => "message",
            PrepareCommitMsgSource::Template => "template",
            PrepareCommitMsgSource::Merge => "merge",
            PrepareCommitMsgSource::Squash => "squash",
            PrepareCommitMsgSource::Commit(_) => "commit",
        }
    }
}

/// A hook process that is to be spawned.
#[derive(Clone, Debug, PartialEq, Eq)]
pub struct HookCommand {
    /// The hook file. It is spawned as a process of its own, not through a
    /// shell.
    pub hook: String,
    /// The arguments of the process, in order.
    pub args: Vec<String>,
    /// What is written to the standard input of the process before it is
    /// closed, if anything.
    pub stdin: Option<String>,
    /// The working directory of the process.
    pub pwd: String,
    /// The file that holds the commit message for the hook: it is written
    /// before the process starts and read back when it has ended.
    pub message_file: Option<String>,
}

/// A [`HookCommand`] as contracts see it.
pub ghost struct HookCommandView {
    pub hook: Seq<char>,
    pub args: Seq<Seq<char>>,
    pub stdin: Option<Seq<char>>,
    pub pwd: Seq<char>,
    pub message_file: Option<Seq<char>>,
}

impl View for HookCommand {
    type V = HookCommandView;

    open spec fn view(&self) -> HookCommandView {
        HookCommandView {
            hook: self.hook@,
            args: texts(self.args@),
            stdin: match self.stdin {
                Some(text) => Some(text@),
                None => None,
            },
            pwd: self.pwd@,
            message_file: match self.message_file {
                Some(path) => Some(path@),
                None => None,
            },
        }
    }
}

/// What is to be done for a hook.
#[derive(Clone, Debug, PartialEq, Eq)]
pub enum HookStep {
    /// No hook was found: nothing is spawned, and the outcome is
    /// [`HookResult::NoHookFound`].
    NoHookFound,
    /// The hook is to be run.
    Run(HookCommand),
}

/// A [`HookStep`] as contracts see it.
pub ghost enum HookStepView {
    NoHookFound,
    Run(HookCommandView),
}

impl View for HookStep {
    type V = HookStepView;

    open spec fn view(&self) -> HookStepView {
        match self {
            HookStep::NoHookFound => HookStepView::NoHookFound,
            HookStep::Run(command) => HookStepView::Run(command@),
        }
    }
}

/// The step for a hook that takes what `args` and `stdin` say: none where no
/// hook was found, else a run of the hook from `pwd`.
pub open spec fn plain_step(
    hook: Option<HookFileView>,
    pwd: Seq<char>,
    args: Seq<Seq<char>>,
    stdin: Option<Seq<char>>,
) -> HookStepView {
    match hook {
        None => HookStepView::NoHookFound,
        Some(file) => HookStepView::Run(
            HookCommandView { hook: file.path, args, stdin, pwd, message_file: None },
        ),
    }
}

/// The step for a hook that is handed the commit message: none where no hook
/// was found, else a run of the hook from `pwd`, with the message in
/// `COMMIT_EDITMSG` in the directory of the hook, the path of that file as
/// first argument, and `more_args` behind it.
pub open spec fn message_step(
    hook: Option<HookFileView>,
    pwd: Seq<char>,
    more_args: Seq<Seq<char>>,
) -> HookStepView {
    match hook {
        None => HookStepView::NoHookFound,
        Some(file) => {
            let message_file = join_text(file.dir, HOOK_COMMIT_MSG_TEMP_FILE@);
            HookStepView::Run(
                HookCommandView {
                    hook: file.path,
                    args: seq![message_file] + more_args,
                    stdin: None,
                    pwd,
                    message_file: Some(message_file),
                },
            )
        },
    }
}

/// What `prepare-commit-msg` is told behind the path of the message file: the
/// word for the source and, for a commit only, the id of that commit.
pub open spec fn prepare_args(source: PrepareCommitMsgSource) -> Seq<Seq<char>> {
    match source {
        PrepareCommitMsgSource::Commit(id) => seq![source.kind_text(), hex_text(id@)],
        _ => seq![source.kind_text()],
    }
}

/// The first argument of `pre-push`: the name of the remote, or the url
/// where the remote has no name.
pub open spec fn remote_name_or_url(remote: Option<&str>, url: Seq<char>) -> Seq<char> {
    match remote {
        Some(name) => if name@.len() > 0 {
            name@
        } else {
            url
        },
        None => url,
    }
}

/// The texts of `strs`, in order.
pub open spec fn str_texts(strs: Seq<&str>) -> Seq<Seq<char>> {
    strs.map_values(|s: &str| s@)
}

impl HookPaths {
    /// The step that runs the hook with `args` and nothing to read.
    pub fn run_hook(&self, args: &[&str]) -> (step: HookStep)
        ensures
            step@ == plain_step(self.hook_view(), self.pwd@, str_texts(args@), None),
    {
        self.run_hook_with_stdin(args, None)
    }

    /// The step that runs the hook with `args` and `stdin` to read: none
    /// where no hook was found, else the run of the hook from the directory
    /// that hooks are run from.
    pub fn run_hook_with_stdin(&self, args: &[&str], stdin: Option<&str>) -> (step: HookStep)
        ensures
            step@ == plain_step(
                self.hook_view(),
                self.pwd@,
                str_texts(args@),
                match stdin {
                    Some(text) => Some(text@),
                    None => None,
                },
            ),
    {
        let mut owned: Vec<String> = Vec::new();
        let mut i: usize = 0;
        while i < args.len()
            invariant
                i <= args@.len(),
                texts(owned@) == str_texts(args@).take(i as int),
            decreases args@.len() - i,
        {
            let ghost before = texts(owned@);
            owned.push(args[i].to_owned());
            assert(str_texts(args@).take(i + 1) =~= before.push(args@[i as int]@));
            i += 1;
        }
        assert(str_texts(args@).take(i as int) =~= str_texts(args@));
        let stdin = match stdin {
            Some(text) => Some(text.to_owned()),
            None => None,
        };
        plain_command(self, owned, stdin)
    }
}

fn plain_command(paths: &HookPaths, args: Vec<String>, stdin: Option<String>) -> (step: HookStep)
    ensures
        step@ == plain_step(
            paths.hook_view(),
            paths.pwd@,
            texts(args@),
            match stdin {
                Some(text) => Some(text@),
                None => None,
            },
        ),
{
    match &paths.hook {
        None => HookStep::NoHookFound,
        Some(file) => HookStep::Run(
            HookCommand {
                hook: file.path.clone(),
                args,
                stdin,
                pwd: paths.pwd.clone(),
                message_file: None,
            },
        ),
    }
}

fn message_command(paths: &HookPaths, more_args: Vec<String>) -> (step: HookStep)
    ensures
        step@ == message_step(paths.hook_view(), paths.pwd@, texts(more_args@)),
{
    match &paths.hook {
        None => HookStep::NoHookFound,
        Some(file) => {
            let message_file = join_path(file.dir.as_str(), HOOK_COMMIT_MSG_TEMP_FILE);
            let mut args: Vec<String> = Vec::new();
            args.push(message_file.clone());
            let mut more_args = more_args;
            let ghost more = texts(more_args@);
            args.append(&mut more_args);
            assert(texts(args@) =~= seq![message_file@] + more);
            HookStep::Run(
                HookCommand {
                    hook: file.path.clone(),
                    args,
                    stdin: None,
                    pwd: paths.pwd.clone(),
                    message_file: Some(message_file),
                },
            )
        },
    }
}

/// The step for `commit-msg`. `present` says, for each directory of
/// [`RepoLayout::search_locations`] in turn, whether it holds the hook.
pub fn hooks_commit_msg(
    repo: &RepoLayout,
    other_paths: Option<&[&str]>,
    present: &[bool],
) -> (step: HookStep)
    ensures
        step@ == message_step(
            resolved_hook(*repo, other_paths, HOOK_COMMIT_MSG@, present@),
            repo.pwd_text(),
            Seq::empty(),
        ),
{
    let paths = HookPaths::new(repo, other_paths, HOOK_COMMIT_MSG, present);
    let more_args: Vec<String> = Vec::new();
    message_command(&paths, more_args)
}

/// The step for `pre-commit`: the hook is run without arguments.
pub fn hooks_pre_commit(
    repo: &RepoLayout,
    other_paths: Option<&[&str]>,
    present: &[bool],
) -> (step: HookStep)
    ensures
        step@ == plain_step(
            resolved_hook(*repo, other_paths, HOOK_PRE_COMMIT@, present@),
            repo.pwd_text(),
            Seq::empty(),
            None,
        ),
{
    let paths = HookPaths::new(repo, other_paths, HOOK_PRE_COMMIT, present);
    let args: Vec<String> = Vec::new();
    assert(texts(args@) =~= Seq::empty());
    plain_command(&paths, args, None)
}

/// The step for `post-commit`: the hook is run without arguments.
pub fn hooks_post_commit(
    repo: &RepoLayout,
    other_paths: Option<&[&str]>,
    present: &[bool],
) -> (step: HookStep)
    ensures
        step@ == plain_step(
            resolved_hook(*repo, other_paths, HOOK_POST_COMMIT@, present@),
            repo.pwd_text(),
            Seq::empty(),
            None,
        ),
{
    let paths = HookPaths::new(repo, other_paths, HOOK_POST_COMMIT, present);
    let args: Vec<String> = Vec::new();
    assert(texts(args@) =~= Seq::empty());
    plain_command(&paths, args, None)
}

/// The step for `pre-push`. The hook is told the name of the remote, or the
/// url in its place where `remote` is none or empty, and the url; on its
/// standard input it reads one line for each of `updates`. It is run also
/// where `updates` is empty.
pub fn hooks_pre_push(
    repo: &RepoLayout,
    other_paths: Option<&[&str]>,
    present: &[bool],
    remote: Option<&str>,
    url: &str,
    updates: &[PrePushRef],
) -> (step: HookStep)
    ensures
        step@ == plain_step(
            resolved_hook(*repo, other_paths, HOOK_PRE_PUSH@, present@),
            repo.pwd_text(),
            seq![remote_name_or_url(remote, url@), url@],
            Some(stdin_text(update_views(updates@))),
        ),
{
    let paths = HookPaths::new(repo, other_paths, HOOK_PRE_PUSH, present);
    let remote_name = match remote {
        Some(name) => if name.unicode_len() > 0 {
            name
        } else {
            url
        },
        None => url,
    };
    let mut args: Vec<String> = Vec::new();
    args.push(remote_name.to_owned());
    args.push(url.to_owned());
    assert(texts(args@) =~= seq![remote_name_or_url(remote, url@), url@]);
    plain_command(&paths, args, Some(PrePushRef::to_stdin(updates)))
}

/// The step for `prepare-commit-msg`. Behind the path of the message file
/// the hook is told the source of the message and, for a commit, its id.
pub fn hooks_prepare_commit_msg(
    repo: &RepoLayout,
    other_paths: Option<&[&str]>,
    present: &[bool],
    source: PrepareCommitMsgSource,
) -> (step: HookStep)
    ensures
        step@ == message_step(
            resolved_hook(*repo, other_paths, HOOK_PREPARE_COMMIT_MSG@, present@),
            repo.pwd_text(),
            prepare_args(source),
        ),
{
    let paths = HookPaths::new(repo, other_paths, HOOK_PREPARE_COMMIT_MSG, present);
    let mut more_args: Vec<String> = Vec::new();
    more_args.push(source.kind().to_owned());
    match source {
        PrepareCommitMsgSource::Commit(id) => {
            more_args.push(id.to_hex());
        },
        _ => {},
    }
    assert(texts(more_args@) =~= prepare_args(source));
    message_command(&paths, more_args)
}

/// What a hook process left behind when it ended.
#[derive(Clone, Debug, PartialEq, Eq)]
pub struct HookOutput {
    /// The exit code; none where the process ended without one.
    pub code: Option<i32>,
    /// What the process wrote to its standard output.
    pub stdout: String,
    /// What the process wrote to its standard error.
    pub stderr: String,
}

/// The code under which a run is reported: the exit code of the process, and
/// 1 where it ended without one.
pub open spec fn reported_code(code: Option<i32>) -> i32 {
    match code {
        Some(code) => code,
        None => 1,
    }
}

impl HookCommand {
    /// The outcome of the run of this command: what the process left behind,
    /// whatever its exit code. A rejection is an outcome, not a failure.
    pub fn finished(&self, output: HookOutput) -> (result: HookResult)
        ensures
            result matches HookResult::Run(response) && response.hook@ == self.hook@
                && response.stdout@ == output.stdout@ && response.stderr@ == output.stderr@
                && response.code == reported_code(output.code),
    {
        let code = match output.code {
            Some(code) => code,
            None => 1,
        };
        HookResult::Run(
            HookRunResponse {
                hook: self.hook.clone(),
                stdout: output.stdout,
                stderr: output.stderr,
                code,
            },
        )
    }

    /// The outcome of the run of a command with a message file. The message
    /// becomes what the file held when the process had ended, whether the
    /// hook accepted or rejected.
    pub fn finished_with_message(
        &self,
        output: HookOutput,
        message_file_text: String,
        msg: &mut String,
    ) -> (result: HookResult)
        ensures
            result matches HookResult::Run(response) && response.hook@ == self.hook@
                && response.stdout@ == output.stdout@ && response.stderr@ == output.stderr@
                && response.code == reported_code(output.code),
            final(msg)@ == message_file_text@,
    {
        *msg = message_file_text;
        self.finished(output)
    }
}

} // verus!
