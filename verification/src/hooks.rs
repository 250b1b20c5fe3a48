//! Hook outcomes as a client reports them, and the updates of a push.

use crate::error::Error;
use crate::hook_protocol::{
    message_step, plain_step, prepare_args, remote_name_or_url, stdin_text, update_views,
    HookStep, HookStepView, PrePushRef, PrePushRefView, PrepareCommitMsgSource, HOOK_COMMIT_MSG,
    HOOK_POST_COMMIT, HOOK_PREPARE_COMMIT_MSG, HOOK_PRE_COMMIT, HOOK_PRE_PUSH,
};
use crate::hookspath::{hook_available, resolved_hook, RepoLayout};
use crate::oid::Oid;
use crate::text::same_text;
use vstd::prelude::*;
use vstd::std_specs::convert::FromSpecImpl;
use vstd::string::StringExecFns;

verus! {

/// Outcome of a hook as the client reports it.
#[derive(Debug, PartialEq, Eq)]
pub enum HookResult {
    /// Nothing objected: no hook was found, or it exited with code 0.
    Okay,
    /// The hook rejected; the text is what it printed.
    NotOk(String),
}

/// A [`HookResult`] as contracts see it.
pub ghost enum HookResultView {
    Okay,
    NotOk(Seq<char>),
}

impl View for HookResult {
    type V = HookResultView;

    open spec fn view(&self) -> HookResultView {
        match self {
            HookResult::Okay => HookResultView::Okay,
            HookResult::NotOk(text) => HookResultView::NotOk(text@),
        }
    }
}

/// What a rejecting hook is reported to have printed: its standard output
/// where the standard error is empty, its standard error where the standard
/// output is empty, else both, with a line feed between them.
pub open spec fn rejection_text(stdout: Seq<char>, stderr: Seq<char>) -> Seq<char> {
    if stderr.len() == 0 {
        stdout
    } else if stdout.len() == 0 {
        stderr
    } else {
        stdout + seq!['\n'] + stderr
    }
}

/// How the outcome of a hook is reported: a hook that was not found or that
/// exited with code 0 is fine, any other rejected with what it printed.
pub open spec fn report(result: crate::hook_protocol::HookResult) -> HookResultView {
    match result {
        crate::hook_protocol::HookResult::NoHookFound => HookResultView::Okay,
        crate::hook_protocol::HookResult::Run(response) => if response.code == 0 {
            HookResultView::Okay
        } else {
            HookResultView::NotOk(rejection_text(response.stdout@, response.stderr@))
        },
    }
}

impl From<crate::hook_protocol::HookResult> for HookResult {
    fn from(v: crate::hook_protocol::HookResult) -> (r: Self)
        ensures
            r@ == report(v),
    {
        match v {
            crate::hook_protocol::HookResult::NoHookFound => Self::Okay,
            crate::hook_protocol::HookResult::Run(response) => {
                if response.is_successful() {
                    Self::Okay
                } else {
                    Self::NotOk(
                        if response.stderr.as_str().is_empty() {
                            response.stdout
                        } else if response.stdout.as_str().is_empty() {
                            response.stderr
                        } else {
                            proof {
                                reveal_strlit("\n");
                                assert("\n"@ =~= seq!['\n']);
                            }
                            let mut text = response.stdout;
                            text.append("\n");
                            text.append(response.stderr.as_str());
                            text
                        },
                    )
                }
            },
        }
    }
}

/// Where both outputs are there the conversion makes a text of its own, which
/// no value of the argument holds. So what it yields is stated on `from`
/// itself, over views, and not through `from_spec`.
impl FromSpecImpl<crate::hook_protocol::HookResult> for HookResult {
    open spec fn obeys_from_spec() -> bool {
        false
    }

    open spec fn from_spec(v: crate::hook_protocol::HookResult) -> Self {
        HookResult::Okay
    }
}

/// The step for `commit-msg` as the client takes it: the hook is looked for
/// in the repository's own directories only. `present` says, for each
/// directory of [`RepoLayout::search_locations`] without further paths,
/// whether it holds the hook.
pub fn hooks_commit_msg(repo: &RepoLayout, present: &[bool]) -> (step: HookStep)
    ensures
        step@ == message_step(
            resolved_hook(*repo, None, HOOK_COMMIT_MSG@, present@),
            repo.pwd_text(),
            Seq::empty(),
        ),
{
    crate::hook_protocol::hooks_commit_msg(repo, None, present)
}

/// The step for `pre-commit` as the client takes it: the hook is looked for
/// in the repository's own directories only.
pub fn hooks_pre_commit(repo: &RepoLayout, present: &[bool]) -> (step: HookStep)
    ensures
        step@ == plain_step(
            resolved_hook(*repo, None, HOOK_PRE_COMMIT@, present@),
            repo.pwd_text(),
            Seq::empty(),
            None,
        ),
{
    crate::hook_protocol::hooks_pre_commit(repo, None, present)
}

/// The step for `post-commit` as the client takes it: the hook is looked for
/// in the repository's own directories only.
pub fn hooks_post_commit(repo: &RepoLayout, present: &[bool]) -> (step: HookStep)
    ensures
        step@ == plain_step(
            resolved_hook(*repo, None, HOOK_POST_COMMIT@, present@),
            repo.pwd_text(),
            Seq::empty(),
            None,
        ),
{
    crate::hook_protocol::hooks_post_commit(repo, None, present)
}

/// The step for `prepare-commit-msg` as the client takes it: the hook is
/// looked for in the repository's own directories only.
pub fn hooks_prepare_commit_msg(
    repo: &RepoLayout,
    present: &[bool],
    source: PrepareCommitMsgSource,
) -> (step: HookStep)
    ensures
        step@ == message_step(
            resolved_hook(*repo, None, HOOK_PREPARE_COMMIT_MSG@, present@),
            repo.pwd_text(),
            prepare_args(source),
        ),
{
    crate::hook_protocol::hooks_prepare_commit_msg(repo, None, present, source)
}

/// What is being pushed.
pub enum PrePushTarget<'a> {
    /// Push a single branch.
    Branch {
        /// Local branch name being pushed.
        branch: &'a str,
        /// Whether this is a delete push.
        delete: bool,
    },
    /// Push tags.
    Tags,
}

/// The `push.default` setting.
#[derive(Copy, Clone, Hash, PartialEq, Eq, Debug, Structural)]
pub enum PushDefaultStrategyConfig {
    Nothing,
    Current,
    Upstream,
    Simple,
    Matching,
}

impl Default for PushDefaultStrategyConfig {
    fn default() -> (r: Self)
        ensures
            r == PushDefaultStrategyConfig::Simple,
    {
        PushDefaultStrategyConfig::Simple
    }
}

/// What the client says of a value of `push.default` that it does not know.
pub open spec fn invalid_push_default_text(value: Seq<char>) -> Seq<char> {
    "invalid value for push.default: "@ + value
}

/// The setting that the value `value` of `push.default` stands for, if any;
/// `tracking` is the old word for `upstream`.
pub open spec fn push_default_of(value: Seq<char>) -> Option<PushDefaultStrategyConfig> {
    if value == "nothing"@ {
        Some(PushDefaultStrategyConfig::Nothing)
    } else if value == "current"@ {
        Some(PushDefaultStrategyConfig::Current)
    } else if value == "upstream"@ || value == "tracking"@ {
        Some(PushDefaultStrategyConfig::Upstream)
    } else if value == "simple"@ {
        Some(PushDefaultStrategyConfig::Simple)
    } else if value == "matching"@ {
        Some(PushDefaultStrategyConfig::Matching)
    } else {
        None
    }
}

/// The `push.default` setting for the value `configured` of it: `simple`
/// where the setting is absent, and an error where it holds a word that is
/// none of the settings.
pub fn push_default_strategy_config(configured: Option<&str>) -> (r: Result<
    PushDefaultStrategyConfig,
    Error,
>)
    ensures
        match r {
            Ok(config) => match configured {
                Some(value) => push_default_of(value@) == Some(config),
                None => config == PushDefaultStrategyConfig::Simple,
            },
            Err(e) => {
                &&& configured is Some
                &&& push_default_of(configured->0@) is None
                &&& e matches Error::GitConfig(text)
                &&& text@ == invalid_push_default_text(configured->0@)
            },
        },
{
    match configured {
        None => Ok(PushDefaultStrategyConfig::Simple),
        Some(value) => {
            if same_text(value, "nothing") {
                Ok(PushDefaultStrategyConfig::Nothing)
            } else if same_text(value, "current") {
                Ok(PushDefaultStrategyConfig::Current)
            } else if same_text(value, "upstream") || same_text(value, "tracking") {
                Ok(PushDefaultStrategyConfig::Upstream)
            } else if same_text(value, "simple") {
                Ok(PushDefaultStrategyConfig::Simple)
            } else if same_text(value, "matching") {
                Ok(PushDefaultStrategyConfig::Matching)
            } else {
                let mut text = String::from_str("invalid value for push.default: ");
                text.append(value);
                Err(Error::GitConfig(text))
            }
        },
    }
}

/// The ref of a local branch: `refs/heads/` and the name of the branch.
pub open spec fn branch_ref_text(branch: Seq<char>) -> Seq<char> {
    "refs/heads/"@ + branch
}

/// The ref on the remote that a push of `branch` goes to. A push that deletes
/// goes to the ref of the branch's own name, whatever is configured. Any other
/// goes to the upstream merge ref where `push.default` is `upstream` and the
/// branch has one that could be read, else to the ref of the branch's own
/// name.
pub open spec fn remote_ref_text(
    branch: Seq<char>,
    delete: bool,
    push_default: PushDefaultStrategyConfig,
    upstream: Result<Option<String>, Error>,
) -> Seq<char> {
    if delete || push_default != PushDefaultStrategyConfig::Upstream {
        branch_ref_text(branch)
    } else {
        match upstream {
            Ok(Some(upstream_ref)) => upstream_ref@,
            _ => branch_ref_text(branch),
        }
    }
}

fn branch_ref(branch: &str) -> (name: String)
    ensures
        name@ == branch_ref_text(branch@),
{
    let mut name = String::from_str("refs/heads/");
    name.append(branch);
    name
}

/// The ref on the remote that a push of `branch` goes to. `upstream` is the
/// upstream merge ref of the branch as the repository gave it.
pub fn get_remote_ref_for_push(
    branch: &str,
    delete: bool,
    push_default: PushDefaultStrategyConfig,
    upstream: &Result<Option<String>, Error>,
) -> (remote_ref: String)
    ensures
        remote_ref@ == remote_ref_text(branch@, delete, push_default, *upstream),
        delete ==> remote_ref@ == branch_ref_text(branch@),
{
    if delete {
        return branch_ref(branch);
    }
    match push_default {
        PushDefaultStrategyConfig::Upstream => {
            match upstream {
                Ok(Some(upstream_ref)) => {
                    return upstream_ref.clone();
                },
                _ => {},
            }
        },
        _ => {},
    }
    branch_ref(branch)
}

/// A push that deletes a branch goes to the ref of the branch's own name on
/// the remote, whatever `push.default` says and whatever upstream merge ref
/// the branch has.
pub proof fn lemma_delete_goes_to_own_ref(
    branch: Seq<char>,
    push_default: PushDefaultStrategyConfig,
    upstream: Result<Option<String>, Error>,
)
    ensures
        remote_ref_text(branch, true, push_default, upstream) == branch_ref_text(branch),
{
}

/// One ref that a remote advertised, with the id it points to.
#[derive(Clone, Debug, PartialEq, Eq)]
pub struct AdvertisedRef {
    pub name: String,
    pub oid: Oid,
}

/// The id that the remote advertised for `name`, if it advertised the ref.
/// Where a name was advertised more than once, the last counts.
pub open spec fn advertised_oid_of(advertised: Seq<AdvertisedRef>, name: Seq<char>) -> Option<Oid>
    decreases advertised.len(),
{
    if advertised.len() == 0 {
        None
    } else if advertised.last().name@ == name {
        Some(advertised.last().oid)
    } else {
        advertised_oid_of(advertised.drop_last(), name)
    }
}

/// The id that the remote advertised for `name`, if it advertised the ref.
pub fn advertised_oid(advertised: &[AdvertisedRef], name: &str) -> (oid: Option<Oid>)
    ensures
        oid == advertised_oid_of(advertised@, name@),
{
    let mut i: usize = advertised.len();
    assert(advertised@.take(i as int) =~= advertised@);
    while i > 0
        invariant
            i <= advertised@.len(),
            advertised_oid_of(advertised@, name@) == advertised_oid_of(
                advertised@.take(i as int),
                name@,
            ),
        decreases i,
    {
        assert(advertised@.take(i as int).drop_last() =~= advertised@.take(i - 1));
        if same_text(advertised[i - 1].name.as_str(), name) {
            return Some(advertised[i - 1].oid);
        }
        i -= 1;
    }
    None
}

/// The update that a push of a branch announces: the ref of the branch with
/// the commit it points to (none for a push that deletes), and `remote_ref`
/// with the id that the remote advertised for it.
pub open spec fn branch_update(
    branch: Seq<char>,
    remote_ref: Seq<char>,
    delete: bool,
    local_commit: Option<Oid>,
    advertised: Seq<AdvertisedRef>,
) -> PrePushRefView {
    PrePushRefView {
        local_ref: branch_ref_text(branch),
        local_oid: if delete {
            None
        } else {
            local_commit
        },
        remote_ref,
        remote_oid: advertised_oid_of(advertised, remote_ref),
    }
}

/// The update that a push of the branch `branch_name` to `remote_ref`
/// announces. `local_commit` is the commit of the branch, if the branch and
/// its commit could be found.
pub fn pre_push_branch_update(
    branch_name: &str,
    remote_ref: &str,
    delete: bool,
    local_commit: Option<Oid>,
    advertised: &[AdvertisedRef],
) -> (update: PrePushRef)
    ensures
        update@ == branch_update(branch_name@, remote_ref@, delete, local_commit, advertised@),
{
    let local_ref = branch_ref(branch_name);
    let local_oid = if delete {
        None
    } else {
        local_commit
    };
    let remote_oid = advertised_oid(advertised, remote_ref);
    PrePushRef::new(local_ref.as_str(), local_oid, remote_ref, remote_oid)
}

/// A tag that is missing on the remote, with what its reference holds.
#[derive(Clone, Debug, PartialEq, Eq)]
pub struct MissingTag {
    /// The full name of the tag's ref.
    pub name: String,
    /// Whether the reference could be found in the repository.
    pub found: bool,
    /// What the reference points to directly.
    pub target: Option<Oid>,
    /// The commit that the reference leads to when it is peeled.
    pub commit: Option<Oid>,
}

impl MissingTag {
    /// The id that a push of this tag announces: what the reference points
    /// to directly, else the commit that it peels to.
    pub open spec fn pushed_oid(&self) -> Option<Oid> {
        match self.target {
            Some(id) => Some(id),
            None => self.commit,
        }
    }

    /// The update that announces this tag: its ref on both sides, its id,
    /// and the id that the remote advertised for the ref.
    pub open spec fn update(&self, advertised: Seq<AdvertisedRef>) -> PrePushRefView {
        PrePushRefView {
            local_ref: self.name@,
            local_oid: self.pushed_oid(),
            remote_ref: self.name@,
            remote_oid: advertised_oid_of(advertised, self.name@),
        }
    }
}

/// The updates that a push of tags announces: one for each tag whose
/// reference was found, in the order of `tags`.
pub open spec fn tag_updates(tags: Seq<MissingTag>, advertised: Seq<AdvertisedRef>) -> Seq<
    PrePushRefView,
>
    decreases tags.len(),
{
    if tags.len() == 0 {
        Seq::empty()
    } else if tags.last().found {
        tag_updates(tags.drop_last(), advertised).push(tags.last().update(advertised))
    } else {
        tag_updates(tags.drop_last(), advertised)
    }
}

/// The updates that a push of the tags `tags` announces.
pub fn pre_push_tag_updates(tags: &[MissingTag], advertised: &[AdvertisedRef]) -> (updates: Vec<
    PrePushRef,
>)
    ensures
        update_views(updates@) == tag_updates(tags@, advertised@),
{
    let mut updates: Vec<PrePushRef> = Vec::new();
    let mut i: usize = 0;
    while i < tags.len()
        invariant
            i <= tags@.len(),
            update_views(updates@) == tag_updates(tags@.take(i as int), advertised@),
        decreases tags@.len() - i,
    {
        assert(tags@.take(i + 1).drop_last() =~= tags@.take(i as int));
        let tag = &tags[i];
        if tag.found {
            let tag_oid = match tag.target {
                Some(id) => Some(id),
                None => tag.commit,
            };
            let advertised_oid = advertised_oid(advertised, tag.name.as_str());
            let update = PrePushRef::new(
                tag.name.as_str(),
                tag_oid,
                tag.name.as_str(),
                advertised_oid,
            );
            updates.push(update);
        }
        i += 1;
    }
    assert(tags@.take(i as int) =~= tags@);
    updates
}

/// What the client says where a remote has no url.
pub open spec fn no_url_text(remote: Seq<char>) -> Seq<char> {
    "remote '"@ + remote + "' has no URL configured"@
}

/// The url that a push to `remote` goes to: its push url where it has one,
/// else its url. A remote with neither is an error.
pub fn push_url(remote: &str, pushurl: Option<&str>, url: Option<&str>) -> (r: Result<
    String,
    Error,
>)
    ensures
        match r {
            Ok(found) => match pushurl {
                Some(p) => found@ == p@,
                None => url is Some && found@ == url->0@,
            },
            Err(e) => {
                &&& pushurl is None
                &&& url is None
                &&& e matches Error::Generic(text)
                &&& text@ == no_url_text(remote@)
            },
        },
{
    match pushurl {
        Some(p) => Ok(p.to_owned()),
        None => match url {
            Some(u) => Ok(u.to_owned()),
            None => {
                let mut text = String::from_str("remote '");
                text.append(remote);
                text.append("' has no URL configured");
                Err(Error::Generic(text))
            },
        },
    }
}

/// What the repository told about the thing that is pushed.
#[derive(Debug, PartialEq, Eq)]
pub struct PushFacts {
    /// The commit of the branch that is pushed, if the branch and its commit
    /// could be found.
    pub local_commit: Option<Oid>,
    /// The `push.default` setting.
    pub push_default: PushDefaultStrategyConfig,
    /// The upstream merge ref of the branch that is pushed.
    pub upstream: Result<Option<String>, Error>,
    /// The tags that the remote lacks.
    pub missing_tags: Vec<MissingTag>,
}

/// The updates that a push of `push` announces: for a branch the one of
/// [`branch_update`] to the ref of [`remote_ref_text`], for tags those of
/// [`tag_updates`].
pub open spec fn push_updates(
    push: PrePushTarget<'_>,
    facts: PushFacts,
    advertised: Seq<AdvertisedRef>,
) -> Seq<PrePushRefView> {
    match push {
        PrePushTarget::Branch { branch, delete } => seq![
            branch_update(
                branch@,
                remote_ref_text(branch@, delete, facts.push_default, facts.upstream),
                delete,
                facts.local_commit,
                advertised,
            ),
        ],
        PrePushTarget::Tags => tag_updates(facts.missing_tags@, advertised),
    }
}

/// The updates that a push of `push` announces.
pub fn pre_push_updates(
    push: &PrePushTarget<'_>,
    facts: &PushFacts,
    advertised: &[AdvertisedRef],
) -> (updates: Vec<PrePushRef>)
    ensures
        update_views(updates@) == push_updates(*push, *facts, advertised@),
{
    match push {
        PrePushTarget::Branch { branch, delete } => {
            let remote_ref = get_remote_ref_for_push(
                branch,
                *delete,
                facts.push_default,
                &facts.upstream,
            );
            let update = pre_push_branch_update(
                branch,
                remote_ref.as_str(),
                *delete,
                facts.local_commit,
                advertised,
            );
            let mut updates: Vec<PrePushRef> = Vec::new();
            updates.push(update);
            updates
        },
        PrePushTarget::Tags => pre_push_tag_updates(facts.missing_tags.as_slice(), advertised),
    }
}

/// What is to be done for `pre-push` before a push of `push` to `remote`:
/// nothing where there is no hook, whatever else holds; an error where there
/// is one and the remote has neither push url nor url; else a run of the
/// hook, which is told the name of the remote and the url that the push goes
/// to, and reads the updates of [`push_updates`] on its standard input.
pub open spec fn pre_push_step(
    repo: RepoLayout,
    present: Seq<bool>,
    remote: &str,
    pushurl: Option<&str>,
    url: Option<&str>,
    push: PrePushTarget<'_>,
    facts: PushFacts,
    advertised: Seq<AdvertisedRef>,
) -> Result<HookStepView, Seq<char>> {
    let hook = resolved_hook(repo, None, HOOK_PRE_PUSH@, present);
    if hook is None {
        Ok(HookStepView::NoHookFound)
    } else if pushurl is None && url is None {
        Err(no_url_text(remote@))
    } else {
        let target = match pushurl {
            Some(p) => p@,
            None => url->0@,
        };
        Ok(
            plain_step(
                hook,
                repo.pwd_text(),
                seq![remote_name_or_url(Some(remote), target), target],
                Some(stdin_text(push_updates(push, facts, advertised))),
            ),
        )
    }
}

/// What is to be done for `pre-push` before a push of `push` to `remote`.
/// `present` says, for each directory of [`RepoLayout::search_locations`]
/// without further paths, whether it holds the hook.
pub fn hooks_pre_push(
    repo: &RepoLayout,
    present: &[bool],
    remote: &str,
    pushurl: Option<&str>,
    url: Option<&str>,
    push: &PrePushTarget<'_>,
    facts: &PushFacts,
    advertised: &[AdvertisedRef],
) -> (r: Result<HookStep, Error>)
    ensures
        match r {
            Ok(step) => pre_push_step(
                *repo,
                present@,
                remote,
                pushurl,
                url,
                *push,
                *facts,
                advertised@,
            ) == Ok::<HookStepView, Seq<char>>(step@),
            Err(e) => {
                &&& e matches Error::Generic(text)
                &&& pre_push_step(*repo, present@, remote, pushurl, url, *push, *facts, advertised@)
                    == Err::<HookStepView, Seq<char>>(text@)
            },
        },
{
    if !hook_available(repo, None, HOOK_PRE_PUSH, present) {
        return Ok(HookStep::NoHookFound);
    }
    let target = match push_url(remote, pushurl, url) {
        Ok(target) => target,
        Err(e) => {
            return Err(e);
        },
    };
    let updates = pre_push_updates(push, facts, advertised);
    Ok(
        crate::hook_protocol::hooks_pre_push(
            repo,
            None,
            present,
            Some(remote),
            target.as_str(),
            updates.as_slice(),
        ),
    )
}

} // verus!
