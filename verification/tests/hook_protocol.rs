use asyncgit::hook_protocol::{
    hooks_commit_msg, hooks_post_commit, hooks_pre_commit, hooks_pre_push,
    hooks_prepare_commit_msg, HookOutput, HookResult, HookRunResponse, HookStep, PrePushRef,
    PrepareCommitMsgSource, HOOK_COMMIT_MSG, HOOK_COMMIT_MSG_TEMP_FILE, HOOK_POST_COMMIT,
    HOOK_PREPARE_COMMIT_MSG, HOOK_PRE_COMMIT, HOOK_PRE_PUSH,
};
use asyncgit::hookspath::{hook_available, join_path, HookFile, HookPaths, RepoLayout};
use asyncgit::oid::Oid;

fn oid(hex: &str) -> Oid {
    let id = git2::Oid::from_str(hex).unwrap();
    let bytes: [u8; 20] = id.as_bytes().try_into().unwrap();
    Oid::from_bytes(bytes)
}

fn repo_init() -> RepoLayout {
    RepoLayout {
        git_dir: String::from("/tmp/repo/.git/"),
        workdir: Some(String::from("/tmp/repo/")),
        hooks_path: None,
    }
}

fn repo_init_bare() -> RepoLayout {
    RepoLayout { git_dir: String::from("/tmp/bare/"), workdir: None, hooks_path: None }
}

fn output(code: i32, stdout: &str, stderr: &str) -> HookOutput {
    HookOutput { code: Some(code), stdout: String::from(stdout), stderr: String::from(stderr) }
}

fn command(step: HookStep) -> asyncgit::hook_protocol::HookCommand {
    match step {
        HookStep::Run(command) => command,
        HookStep::NoHookFound => panic!("a hook should have been found"),
    }
}

fn branch_update(branch: &str, local: Option<Oid>, remote: Option<Oid>) -> PrePushRef {
    let name = format!("refs/heads/{branch}");
    PrePushRef::new(&name, local, &name, remote)
}

#[test]
fn test_pre_push_ref_format() {
    let zero_oid = "0".repeat(40);
    let oid_a = "a".repeat(40);
    let oid_b = "b".repeat(40);

    // Both oids present
    let update = PrePushRef::new(
        "refs/heads/main",
        Some(oid(&oid_a)),
        "refs/heads/main",
        Some(oid(&oid_b)),
    );
    assert_eq!(update.to_line(), format!("refs/heads/main {oid_a} refs/heads/main {oid_b}"));

    // No remote oid (new branch)
    let update =
        PrePushRef::new("refs/heads/feature", Some(oid(&oid_a)), "refs/heads/feature", None);
    assert_eq!(
        update.to_line(),
        format!("refs/heads/feature {oid_a} refs/heads/feature {zero_oid}")
    );

    // No local oid (delete)
    let update = PrePushRef::new("refs/heads/old", None, "refs/heads/old", Some(oid(&oid_b)));
    assert_eq!(update.to_line(), format!("refs/heads/old {zero_oid} refs/heads/old {oid_b}"));

    // to_stdin adds newlines
    let updates = [
        PrePushRef::new("refs/heads/a", Some(oid(&oid_a)), "refs/heads/a", None),
        PrePushRef::new("refs/heads/b", Some(oid(&oid_b)), "refs/heads/b", None),
    ];
    assert_eq!(
        PrePushRef::to_stdin(&updates),
        format!(
            "refs/heads/a {oid_a} refs/heads/a {zero_oid}\nrefs/heads/b {oid_b} refs/heads/b {zero_oid}\n"
        )
    );
}

#[test]
fn pre_push_stdin_is_one_line_per_update() {
    let updates = [
        PrePushRef::new(
            "refs/heads/a",
            Some(oid("0123456789abcdef0123456789abcdef01234567")),
            "refs/heads/a",
            None,
        ),
        PrePushRef::new(
            "refs/heads/b",
            Some(oid("fedcba9876543210fedcba9876543210fedcba98")),
            "refs/heads/b",
            None,
        ),
    ];
    assert_eq!(
        PrePushRef::to_stdin(&updates),
        "refs/heads/a 0123456789abcdef0123456789abcdef01234567 refs/heads/a 0000000000000000000000000000000000000000\nrefs/heads/b fedcba9876543210fedcba9876543210fedcba98 refs/heads/b 0000000000000000000000000000000000000000\n"
    );
    assert_eq!(PrePushRef::to_stdin(&[]), "");
}

#[test]
fn oid_text_is_lower_case_hex_of_the_bytes() {
    let mut bytes = [0u8; 20];
    for (i, byte) in bytes.iter_mut().enumerate() {
        *byte = (i as u8) * 13 + 0xa5;
    }
    let id = Oid::from_bytes(bytes);
    assert_eq!(id.as_bytes(), &bytes);
    assert_eq!(id.to_hex(), "a5b2bfccd9e6f3000d1a2734414e5b6875828f9c");
    assert_eq!(Oid::from_bytes([0u8; 20]).to_hex(), "0".repeat(40));
    assert_eq!(PrePushRef::format_oid(None), "0".repeat(40));
    assert_eq!(PrePushRef::format_oid(Some(id)), "a5b2bfccd9e6f3000d1a2734414e5b6875828f9c");
}

#[test]
fn hook_names() {
    assert_eq!(HOOK_POST_COMMIT, "post-commit");
    assert_eq!(HOOK_PRE_COMMIT, "pre-commit");
    assert_eq!(HOOK_COMMIT_MSG, "commit-msg");
    assert_eq!(HOOK_PREPARE_COMMIT_MSG, "prepare-commit-msg");
    assert_eq!(HOOK_PRE_PUSH, "pre-push");
    assert_eq!(HOOK_COMMIT_MSG_TEMP_FILE, "COMMIT_EDITMSG");
}

#[test]
fn run_response_success_is_exit_code_zero() {
    let ok = HookRunResponse {
        hook: String::from("/r/.git/hooks/pre-commit"),
        stdout: String::new(),
        stderr: String::new(),
        code: 0,
    };
    assert!(ok.is_successful());
    let rejected = HookRunResponse {
        hook: String::from("/r/.git/hooks/pre-commit"),
        stdout: String::from("rejected\n"),
        stderr: String::new(),
        code: 1,
    };
    assert!(!rejected.is_successful());
    assert!(!HookResult::NoHookFound.is_successful());
    assert!(HookResult::Run(ok).is_successful());
    assert!(!HookResult::Run(rejected).is_successful());
}

#[test]
fn join_path_puts_one_separator() {
    assert_eq!(join_path("/r/.git", "hooks"), "/r/.git/hooks");
    assert_eq!(join_path("/r/.git/", "hooks"), "/r/.git/hooks");
    assert_eq!(join_path("", "hooks"), "hooks");
    assert_eq!(join_path("/r/.git/", "/abs/hooks"), "/abs/hooks");
    assert_eq!(join_path("/r/.git/", "../.myhooks"), "/r/.git/../.myhooks");
    assert_eq!(join_path("/r", ""), "/r/");
}

#[test]
fn search_locations_in_order_of_precedence() {
    let mut repo = repo_init();
    assert_eq!(repo.search_locations(None), vec![String::from("/tmp/repo/.git/hooks")]);
    assert_eq!(
        repo.search_locations(Some(&["../.myhooks", "/opt/hooks"])),
        vec![
            String::from("/tmp/repo/.git/hooks"),
            String::from("/tmp/repo/.git/../.myhooks"),
            String::from("/opt/hooks"),
        ]
    );
    repo.hooks_path = Some(String::from("my_hooks"));
    assert_eq!(
        repo.search_locations(Some(&["../.myhooks"])),
        vec![
            String::from("/tmp/repo/my_hooks"),
            String::from("/tmp/repo/.git/hooks"),
            String::from("/tmp/repo/.git/../.myhooks"),
        ]
    );
    repo.hooks_path = Some(String::from("/abs/hooks"));
    assert_eq!(
        repo.search_locations(None),
        vec![String::from("/abs/hooks"), String::from("/tmp/repo/.git/hooks")]
    );
}

#[test]
fn hooks_path_wins_and_fallback_takes_over() {
    let mut repo = repo_init();
    repo.hooks_path = Some(String::from("/cfg"));
    let others: &[&str] = &["/fallback"];
    // present in core.hooksPath and in the fallback
    let paths = HookPaths::new(&repo, Some(others), "pre-commit", &[true, false, true]);
    assert_eq!(
        paths.hook,
        Some(HookFile { dir: String::from("/cfg"), path: String::from("/cfg/pre-commit") })
    );
    let run = command(hooks_pre_commit(&repo, Some(others), &[true, false, true]));
    assert_eq!(run.hook, "/cfg/pre-commit");
    // removed from core.hooksPath
    let paths = HookPaths::new(&repo, Some(others), "pre-commit", &[false, false, true]);
    assert_eq!(
        paths.hook,
        Some(HookFile {
            dir: String::from("/fallback"),
            path: String::from("/fallback/pre-commit")
        })
    );
    let run = command(hooks_pre_commit(&repo, Some(others), &[false, false, true]));
    assert_eq!(run.hook, "/fallback/pre-commit");
    // the native directory comes before the fallback
    let run = command(hooks_pre_commit(&repo, Some(others), &[false, true, true]));
    assert_eq!(run.hook, "/tmp/repo/.git/hooks/pre-commit");
}

#[test]
fn answers_beyond_the_locations_do_not_count() {
    let repo = repo_init();
    assert!(!hook_available(&repo, None, "pre-commit", &[false, true, true]));
    assert!(!hook_available(&repo, None, "pre-commit", &[]));
    assert!(hook_available(&repo, None, "pre-commit", &[true]));
    let paths = HookPaths::new(&repo, Some(&["/a", "/b"]), "pre-push", &[false]);
    assert!(!paths.found());
    assert_eq!(paths.hook_name, "pre-push");
    assert_eq!(paths.git, "/tmp/repo/.git/");
    assert_eq!(paths.search_locations.len(), 3);
}

#[test]
fn test_smoke() {
    let repo = repo_init();

    let step = hooks_commit_msg(&repo, None, &[false]);
    assert_eq!(step, HookStep::NoHookFound);

    // a post-commit hook that exits with 0
    let run = command(hooks_post_commit(&repo, None, &[true]));
    let res = run.finished(output(0, "", ""));

    assert!(res.is_successful());
}

#[test]
fn test_hooks_commit_msg_ok() {
    let repo = repo_init();

    // a hook that exits with 0 and leaves the file alone
    let run = command(hooks_commit_msg(&repo, None, &[true]));
    assert_eq!(run.hook, "/tmp/repo/.git/hooks/commit-msg");
    assert_eq!(run.args, vec![String::from("/tmp/repo/.git/hooks/COMMIT_EDITMSG")]);
    assert_eq!(run.message_file, Some(String::from("/tmp/repo/.git/hooks/COMMIT_EDITMSG")));
    assert_eq!(run.stdin, None);
    assert_eq!(run.pwd, "/tmp/repo/");

    let mut msg = String::from("test");
    let file = msg.clone();
    let res = run.finished_with_message(output(0, "", ""), file, &mut msg);

    assert!(res.is_successful());

    assert_eq!(msg, String::from("test"));
}

#[test]
fn test_no_hook_found() {
    let repo = repo_init();

    let res = hooks_pre_commit(&repo, None, &[false]);
    assert_eq!(res, HookStep::NoHookFound);
}

#[test]
fn test_other_path() {
    let repo = repo_init();

    // the hook lies in `.myhooks` beside the git directory only
    let run = command(hooks_pre_commit(&repo, Some(&["../.myhooks"]), &[false, true]));
    assert_eq!(run.hook, "/tmp/repo/.git/../.myhooks/pre-commit");
    let res = run.finished(output(0, "", ""));

    assert!(res.is_successful());
}

#[test]
fn test_other_path_precedence() {
    let repo = repo_init();

    // an accepting hook in the git directory, a rejecting one in `.myhooks`
    let run = command(hooks_pre_commit(&repo, Some(&["../.myhooks"]), &[true, true]));
    assert_eq!(run.hook, "/tmp/repo/.git/hooks/pre-commit");
    let res = run.finished(output(0, "", ""));

    assert!(res.is_successful());
}

#[test]
fn test_pre_commit_fail_sh() {
    let repo = repo_init();

    let run = command(hooks_pre_commit(&repo, None, &[true]));
    assert!(run.args.is_empty());
    let res = run.finished(output(1, "rejected\n", ""));
    assert!(!res.is_successful());
}

#[test]
fn test_pre_commit_fail_hookspath() {
    let mut repo = repo_init();
    repo.hooks_path = Some(String::from("/tmp/hooks"));

    let run = command(hooks_pre_commit(&repo, None, &[true, false]));
    assert_eq!(run.hook, "/tmp/hooks/pre-commit");
    let res = run.finished(output(1, "rejected\n", ""));

    let HookResult::Run(response) = res else { unreachable!() };

    assert_eq!(response.code, 1);
    assert_eq!(&response.stdout, "rejected\n");
}

#[test]
fn test_pre_commit_fail_bare() {
    let repo = repo_init_bare();

    let run = command(hooks_pre_commit(&repo, None, &[true]));
    assert_eq!(run.hook, "/tmp/bare/hooks/pre-commit");
    let res = run.finished(output(1, "rejected\n", ""));
    assert!(!res.is_successful());
}

#[test]
fn test_hooks_commit_msg_reject() {
    let repo = repo_init();

    // the hook writes `msg` into the file, prints `rejected` and exits with 1
    let run = command(hooks_commit_msg(&repo, None, &[true]));

    let mut msg = String::from("test");
    let res =
        run.finished_with_message(output(1, "rejected\n", ""), String::from("msg\n"), &mut msg);

    let HookResult::Run(response) = res else { unreachable!() };

    assert_eq!(response.code, 1);
    assert_eq!(&response.stdout, "rejected\n");

    assert_eq!(msg, String::from("msg\n"));
}

#[test]
fn test_commit_msg_no_block_but_alter() {
    let repo = repo_init();

    let run = command(hooks_commit_msg(&repo, None, &[true]));

    let mut msg = String::from("test");
    let res = run.finished_with_message(output(0, "", ""), String::from("msg\n"), &mut msg);

    assert!(res.is_successful());
    assert_eq!(msg, String::from("msg\n"));
}

#[test]
fn test_hook_pwd_in_bare_without_workdir() {
    let repo = repo_init_bare();
    let git_root = repo.git_dir.clone();

    let hook = HookPaths::new(&repo, None, HOOK_POST_COMMIT, &[false]);

    assert_eq!(hook.pwd, git_root);
}

#[test]
fn test_hook_pwd() {
    let repo = repo_init();

    let hook = HookPaths::new(&repo, None, HOOK_POST_COMMIT, &[false]);

    assert_eq!(hook.pwd, "/tmp/repo/");
    assert_eq!(repo.pwd(), "/tmp/repo/");
}

#[test]
fn test_hooks_prep_commit_msg_success() {
    let repo = repo_init();

    let run =
        command(hooks_prepare_commit_msg(&repo, None, &[true], PrepareCommitMsgSource::Message));
    assert_eq!(run.hook, "/tmp/repo/.git/hooks/prepare-commit-msg");
    assert_eq!(
        run.args,
        vec![String::from("/tmp/repo/.git/hooks/COMMIT_EDITMSG"), String::from("message")]
    );

    // the hook writes `msg:` and its second argument into the file
    let mut msg = String::from("test");
    let file = format!("msg:{}\n", run.args[1]);
    let res = run.finished_with_message(output(0, "", ""), file, &mut msg);

    assert!(res.is_successful());
    assert_eq!(msg, String::from("msg:message\n"));
}

#[test]
fn test_hooks_prep_commit_msg_reject() {
    let repo = repo_init();

    let run = command(hooks_prepare_commit_msg(
        &repo,
        None,
        &[true],
        PrepareCommitMsgSource::Commit(Oid::from_bytes([0u8; 20])),
    ));
    assert_eq!(run.args.len(), 3);

    // the hook writes its second and third argument into the file
    let mut msg = String::from("test");
    let file = format!("{},{}\n", run.args[1], run.args[2]);
    let res = run.finished_with_message(output(2, "rejected\n", ""), file, &mut msg);

    let HookResult::Run(response) = res else { unreachable!() };

    assert_eq!(response.code, 2);
    assert_eq!(&response.stdout, "rejected\n");

    assert_eq!(msg, String::from("commit,0000000000000000000000000000000000000000\n"));
}

#[test]
fn prepare_commit_msg_names_each_source() {
    let repo = repo_init();
    let sources = [
        (PrepareCommitMsgSource::Message, "message"),
        (PrepareCommitMsgSource::Template, "template"),
        (PrepareCommitMsgSource::Merge, "merge"),
        (PrepareCommitMsgSource::Squash, "squash"),
    ];
    for (source, word) in sources {
        assert_eq!(source.kind(), word);
        let run = command(hooks_prepare_commit_msg(&repo, None, &[true], source));
        assert_eq!(
            run.args,
            vec![String::from("/tmp/repo/.git/hooks/COMMIT_EDITMSG"), String::from(word)]
        );
    }
    let id = oid("00112233445566778899aabbccddeeff00112233");
    let run =
        command(hooks_prepare_commit_msg(&repo, None, &[true], PrepareCommitMsgSource::Commit(id)));
    assert_eq!(
        run.args,
        vec![
            String::from("/tmp/repo/.git/hooks/COMMIT_EDITMSG"),
            String::from("commit"),
            String::from("00112233445566778899aabbccddeeff00112233"),
        ]
    );
    assert_eq!(
        hooks_prepare_commit_msg(&repo, None, &[false], PrepareCommitMsgSource::Merge),
        HookStep::NoHookFound
    );
}

#[test]
fn test_pre_push_sh() {
    let repo = repo_init();

    let updates = [branch_update("master", Some(oid(&"1".repeat(40))), None)];

    let run = command(hooks_pre_push(
        &repo,
        None,
        &[true],
        Some("origin"),
        "https://example.com/repo.git",
        &updates,
    ));
    let res = run.finished(output(0, "", ""));

    assert!(res.is_successful());
}

#[test]
fn test_pre_push_fail_sh() {
    let repo = repo_init();

    let updates = [branch_update("master", Some(oid(&"1".repeat(40))), None)];

    let run = command(hooks_pre_push(
        &repo,
        None,
        &[true],
        Some("origin"),
        "https://example.com/repo.git",
        &updates,
    ));
    let res = run.finished(output(3, "failed\n", ""));
    let HookResult::Run(response) = res else { unreachable!() };
    assert_eq!(response.code, 3);
    assert_eq!(&response.stdout, "failed\n");
}

#[test]
fn test_pre_push_no_remote_name() {
    let repo = repo_init();

    let updates = [branch_update("master", Some(oid(&"1".repeat(40))), None)];

    let run =
        command(hooks_pre_push(&repo, None, &[true], None, "https://example.com/repo.git", &updates));

    // When remote is None, URL should be passed for both arguments
    assert_eq!(
        format!("arg1={} arg2={}\n", run.args[0], run.args[1]),
        "arg1=https://example.com/repo.git arg2=https://example.com/repo.git\n"
    );
    assert_eq!(run.args.len(), 2);

    let empty_name = command(hooks_pre_push(
        &repo,
        None,
        &[true],
        Some(""),
        "https://example.com/repo.git",
        &updates,
    ));
    assert_eq!(empty_name.args, run.args);
}

#[test]
fn test_pre_push_with_arguments() {
    let repo = repo_init();

    let updates = [branch_update("master", Some(oid(&"1".repeat(40))), None)];

    let run = command(hooks_pre_push(
        &repo,
        None,
        &[true],
        Some("origin"),
        "https://example.com/repo.git",
        &updates,
    ));

    assert_eq!(
        format!("remote_name={}\nremote_url={}\n", run.args[0], run.args[1]),
        "remote_name=origin\nremote_url=https://example.com/repo.git\n"
    );
    assert_eq!(run.pwd, "/tmp/repo/");
    assert_eq!(run.message_file, None);
}

#[test]
fn test_pre_push_multiple_updates() {
    let repo = repo_init();

    let head = oid(&"1".repeat(40));
    let branch_update = branch_update("master", Some(head), None);
    let tag_update = PrePushRef::new("refs/tags/v1", Some(head), "refs/tags/v1", None);

    let updates = [branch_update, tag_update];
    let expected_stdin = PrePushRef::to_stdin(&updates);

    let run = command(hooks_pre_push(
        &repo,
        None,
        &[true],
        Some("origin"),
        "https://example.com/repo.git",
        &updates,
    ));

    assert_eq!(
        run.stdin.as_deref(),
        Some(
            "refs/heads/master 1111111111111111111111111111111111111111 refs/heads/master 0000000000000000000000000000000000000000\nrefs/tags/v1 1111111111111111111111111111111111111111 refs/tags/v1 0000000000000000000000000000000000000000\n"
        )
    );

    // the hook copies its standard input to its standard output and exits with 0
    let copied = run.stdin.clone().unwrap();
    let res = run.finished(output(0, &copied, ""));

    let HookResult::Run(response) = res else {
        unreachable!("Expected Run result, got: {res:?}")
    };

    assert!(
        response.is_successful(),
        "Hook should succeed: stdout {} stderr {}",
        response.stdout,
        response.stderr
    );
    assert_eq!(response.stdout, expected_stdin, "stdin should include all refspec lines");
}

#[test]
fn test_pre_push_delete_ref_uses_zero_oid() {
    let repo = repo_init();

    let updates = [branch_update("master", None, Some(oid(&"2".repeat(40))))];
    let expected_stdin = PrePushRef::to_stdin(&updates);

    let run = command(hooks_pre_push(
        &repo,
        None,
        &[true],
        Some("origin"),
        "https://example.com/repo.git",
        &updates,
    ));

    assert_eq!(
        run.stdin.as_deref(),
        Some(
            "refs/heads/master 0000000000000000000000000000000000000000 refs/heads/master 2222222222222222222222222222222222222222\n"
        )
    );

    // the hook copies its standard input to its standard output and exits with 0
    let copied = run.stdin.clone().unwrap();
    let res = run.finished(output(0, &copied, ""));

    let HookResult::Run(response) = res else {
        unreachable!("Expected Run result, got: {res:?}")
    };

    assert!(response.is_successful());
    assert_eq!(response.stdout, expected_stdin);
}

#[test]
fn test_pre_push_stdin() {
    let repo = repo_init();

    let updates = [branch_update("master", Some(oid(&"1".repeat(40))), None)];
    let expected_stdin = PrePushRef::to_stdin(&updates);

    let run = command(hooks_pre_push(
        &repo,
        None,
        &[true],
        Some("origin"),
        "https://github.com/user/repo.git",
        &updates,
    ));

    // the hook copies its standard input to its standard output and exits with 0
    let copied = run.stdin.clone().unwrap();
    let res = run.finished(output(0, &copied, ""));

    let HookResult::Run(response) = res else {
        unreachable!("Expected Run result, got: {res:?}")
    };

    assert!(response.is_successful());
    assert_eq!(response.stdout, expected_stdin);
}

#[test]
fn pre_push_runs_without_updates() {
    let repo = repo_init();
    let run = command(hooks_pre_push(&repo, None, &[true], Some("origin"), "u", &[]));
    assert_eq!(run.stdin, Some(String::new()));
    assert_eq!(hooks_pre_push(&repo, None, &[false], Some("origin"), "u", &[]), HookStep::NoHookFound);
}

#[test]
fn a_run_without_exit_code_counts_as_rejected() {
    let repo = repo_init();
    let run = command(hooks_pre_commit(&repo, None, &[true]));
    let res = run.finished(HookOutput {
        code: None,
        stdout: String::new(),
        stderr: String::from("killed"),
    });
    assert_eq!(
        res,
        HookResult::Run(HookRunResponse {
            hook: String::from("/tmp/repo/.git/hooks/pre-commit"),
            stdout: String::new(),
            stderr: String::from("killed"),
            code: 1,
        })
    );
}

#[test]
fn test_pre_commit_sh() {
    let repo = repo_init();

    let run = command(hooks_pre_commit(&repo, None, &[true]));
    let res = run.finished(output(0, "", ""));
    assert!(res.is_successful());
}

#[test]
fn test_hooks_commit_msg_with_shell_command_ok() {
    let repo = repo_init();

    // the hook puts `shell_command` in the place of `sth` in the file
    let run = command(hooks_commit_msg(&repo, None, &[true]));

    let mut msg = String::from("test_sth");
    let file = msg.replace("sth", "shell_command");
    let res = run.finished_with_message(output(0, "", ""), file, &mut msg);

    assert!(res.is_successful());

    assert_eq!(msg, String::from("test_shell_command"));
}

#[test]
fn test_hook_with_missing_shebang() {
    const TEXT: &str = "Hello, world!";

    let repo = repo_init();

    let hook = HookPaths::new(&repo, None, HOOK_PRE_COMMIT, &[true]);

    assert!(hook.found());

    // the hook prints its arguments and exits with 42
    let run = command(hook.run_hook(&[TEXT]));
    let printed = format!("{}\n", run.args.join(" "));
    let result = run.finished(output(42, &printed, ""));

    let HookResult::Run(response) = result else {
        unreachable!("run_hook should've run");
    };

    let stdout = response.stdout.as_str().trim_ascii_end();

    assert_eq!(response.code, 42);
    assert_eq!(response.hook, hook.hook.unwrap().path);
    assert_eq!(stdout, TEXT, "{:?} != {TEXT:?}", stdout);
    assert!(response.stderr.is_empty());
}

#[test]
fn run_hook_hands_args_and_stdin_on() {
    let repo = repo_init();
    let hook = HookPaths::new(&repo, None, "update", &[true]);
    let run = command(hook.run_hook_with_stdin(&["a", "", "b c"], Some("in\n")));
    assert_eq!(run.hook, "/tmp/repo/.git/hooks/update");
    assert_eq!(run.args, vec![String::from("a"), String::new(), String::from("b c")]);
    assert_eq!(run.stdin, Some(String::from("in\n")));
    assert_eq!(run.pwd, "/tmp/repo/");
    assert_eq!(run.message_file, None);
    let missing = HookPaths::new(&repo, None, "update", &[false]);
    assert_eq!(missing.run_hook(&["a"]), HookStep::NoHookFound);
}
