use site_sentinel::classify::{BatchAction, ChangeEvent, EventKind, classify, plan_batch};
use site_sentinel::command::{build_command, finish_command, launch_failure};
use site_sentinel::config::{apply_reload, config_from_fields, Config, ConfigError, ReloadOutcome};
use site_sentinel::front_matter::{front_matter, front_matter_now, title_from_stem, title_of_path};
use site_sentinel::notify::{escape_for_applescript, notification_script};
use site_sentinel::path::{file_name_of, has_extension_of, last_index_of, stem_of};
use site_sentinel::pipeline::{after_build, after_deploy, sync_command, sync_command_with_key, BuildDecision, StageOutcome};
use site_sentinel::publish::{nothing_to_commit, publish_command, publish_next, publish_start, PublishNext, PublishPhase};
use site_sentinel::retry::{RetryCounter, RetryStep, MAX_RETRIES, RETRY_DELAY_SECS};

fn some(s: &str) -> Option<String> {
    Some(s.to_string())
}

fn sample_config() -> Config {
    match config_from_fields(some("content"), some("sentinel.log"), some("~/.ssh/id"), some("me@host"), some("/var/www")) {
        Ok(c) => c,
        Err(_) => panic!("complete settings must load"),
    }
}

fn event(path: &str, size: Option<u64>) -> ChangeEvent {
    ChangeEvent { path: path.to_string(), size }
}

fn args_of(line: &site_sentinel::command::CommandLine) -> Vec<&str> {
    line.args.iter().map(|a| a.as_str()).collect()
}

/// Runs a retried operation whose attempts have the given outcomes; returns
/// (attempts, pauses, succeeded).
fn drive_retry(outcomes: &[bool]) -> (usize, usize, bool) {
    let mut counter = RetryCounter::new();
    let mut attempts = 0;
    let mut pauses = 0;
    loop {
        let ok = outcomes[attempts];
        attempts += 1;
        match counter.record(ok) {
            RetryStep::Succeeded => return (attempts, pauses, true),
            RetryStep::GiveUp => return (attempts, pauses, false),
            RetryStep::WaitAndRetry => pauses += 1,
        }
    }
}

#[test]
fn test_notification_delivery_hugo_fail() {
    let script = notification_script("TEST: Hugo Build Failed", "This is a test notification.");
    assert_eq!(script, "display notification \"This is a test notification.\" with title \"TEST: Hugo Build Failed\"");
}

#[test]
fn test_notification_delivery_git_fail() {
    let script = notification_script("TEST: Git Sync Failed", "This is a test notification.");
    assert_eq!(script, "display notification \"This is a test notification.\" with title \"TEST: Git Sync Failed\"");
}

#[test]
fn test_notification_delivery_deploy_fail() {
    let script = notification_script("TEST: Deploy Failed", "This is a test notification.");
    assert_eq!(script, "display notification \"This is a test notification.\" with title \"TEST: Deploy Failed\"");
}

#[test]
fn test_notification_with_special_chars() {
    let script = notification_script("TEST: Special Chars", "Quotes \" and Backslashes \\ should work.");
    assert_eq!(
        script,
        "display notification \"Quotes \\\" and Backslashes \\\\ should work.\" with title \"TEST: Special Chars\""
    );
}

#[test]
fn test_retry_logic_failure_triggers_error() {
    let (_, _, succeeded) = drive_retry(&[false, false, false, false]);
    assert!(!succeeded);
}

#[test]
fn escaping_doubles_backslashes_and_quotes() {
    assert_eq!(escape_for_applescript("a\"b\\c"), "a\\\"b\\\\c");
    assert_eq!(escape_for_applescript(""), "");
    assert_eq!(escape_for_applescript("plain"), "plain");
}

#[test]
fn always_failing_operation_is_tried_three_times() {
    assert_eq!(MAX_RETRIES, 2);
    assert_eq!(RETRY_DELAY_SECS, 5);
    assert_eq!(drive_retry(&[false, false, false, false, false]), (3, 2, false));
}

#[test]
fn operation_succeeding_on_second_attempt_stops_there() {
    assert_eq!(drive_retry(&[true]), (1, 0, true));
    assert_eq!(drive_retry(&[false, true, false]), (2, 1, true));
    assert_eq!(drive_retry(&[false, false, true]), (3, 2, true));
}

#[test]
fn failed_build_aborts_pipeline() {
    match after_build(false) {
        BuildDecision::Abort(n) => {
            assert_eq!(n.title, "Hugo Build Failed");
            assert_eq!(n.message, "Check log for details.");
        }
        BuildDecision::PublishAndSync => panic!("a failed build must not publish"),
    }
    assert!(matches!(after_build(true), BuildDecision::PublishAndSync));
}

#[test]
fn each_failed_stage_is_reported() {
    let both = after_deploy(StageOutcome::Succeeded, StageOutcome::Succeeded);
    assert!(both.succeeded);
    assert!(both.notices.is_empty());

    let sync_only = after_deploy(StageOutcome::Succeeded, StageOutcome::Failed);
    assert!(!sync_only.succeeded);
    assert_eq!(sync_only.notices.len(), 1);
    assert_eq!(sync_only.notices[0].title, "Deploy Failed");

    let publish_crash = after_deploy(StageOutcome::Crashed, StageOutcome::Succeeded);
    assert!(!publish_crash.succeeded);
    assert_eq!(publish_crash.notices.len(), 1);
    assert_eq!(publish_crash.notices[0].title, "Git Sync Failed");

    let neither = after_deploy(StageOutcome::Failed, StageOutcome::Crashed);
    assert_eq!(neither.notices.len(), 2);
    assert_eq!(neither.notices[0].title, "Git Sync Failed");
    assert_eq!(neither.notices[1].title, "Deploy Failed");
    assert_eq!(neither.notices[1].message, "Check log.");
}

#[test]
fn empty_markdown_file_is_scaffolded_without_build() {
    let plan = plan_batch(&vec![event("notes/my-first-post.md", Some(0))]);
    assert!(!plan.needs_build);
    assert_eq!(plan.actions.len(), 1);
    match &plan.actions[0] {
        BatchAction::Scaffold(p) => assert_eq!(p, "notes/my-first-post.md"),
        BatchAction::ReloadConfig => panic!("expected a scaffold"),
    }
    assert_eq!(title_of_path("notes/my-first-post.md"), "my first post");
    let text = front_matter("notes/my-first-post.md", "2024-01-02T03:04:05+01:00");
    assert_eq!(
        text,
        "+++\ntitle = \"my first post\"\ndate = 2024-01-02T03:04:05+01:00\ndraft = false\ntags = []\n+++\n\n"
    );
}

#[test]
fn changed_markdown_file_triggers_one_build() {
    let plan = plan_batch(&vec![
        event("notes/existing.md", Some(120)),
        event("site.toml", Some(300)),
        event("notes/other.md", Some(7)),
    ]);
    assert!(plan.needs_build);
    assert_eq!(plan.actions.len(), 1);
    assert!(matches!(plan.actions[0], BatchAction::ReloadConfig));
}

#[test]
fn other_paths_are_ignored() {
    assert_eq!(classify("notes/picture.png", Some(10)), EventKind::Other);
    assert_eq!(classify("notes/.md", Some(0)), EventKind::Other);
    assert_eq!(classify("notes/gone.md", None), EventKind::Content);
    assert_eq!(classify("/home/me/blog/site.toml", Some(0)), EventKind::Config);
    let plan = plan_batch(&vec![event("notes/picture.png", Some(0))]);
    assert!(!plan.needs_build);
    assert!(plan.actions.is_empty());
}

#[test]
fn reload_missing_dest_dir_keeps_previous_settings() {
    let mut current = sample_config();
    let loaded = config_from_fields(some("content"), some("new.log"), some("key"), some("me@host"), None);
    match &loaded {
        Err(ConfigError::MissingField(f)) => assert_eq!(f, "dest_dir"),
        _ => panic!("a missing field must be reported"),
    }
    match apply_reload(&mut current, loaded) {
        ReloadOutcome::Kept(n) => {
            assert_eq!(n.title, "Config Reload Failed");
            assert_eq!(n.message, "missing field `dest_dir`");
        }
        ReloadOutcome::Reloaded => panic!("a bad reload must not apply"),
    }
    assert_eq!(current.sentinel.log_file, "sentinel.log");
    assert_eq!(current.deploy.dest_dir, "/var/www");
}

#[test]
fn good_reload_replaces_settings() {
    let mut current = sample_config();
    let loaded = config_from_fields(some("posts"), some("other.log"), some("k"), some("you@there"), some("/srv"));
    assert!(matches!(apply_reload(&mut current, loaded), ReloadOutcome::Reloaded));
    assert_eq!(current.sentinel.content_dir, "posts");
    assert_eq!(current.deploy.dest_dir, "/srv");
}

#[test]
fn config_errors_name_their_cause() {
    assert!(matches!(
        config_from_fields(None, None, None, None, None),
        Err(ConfigError::MissingField(ref f)) if f == "content_dir"
    ));
    assert!(matches!(
        config_from_fields(some("c"), some("l"), some("k"), None, some("d")),
        Err(ConfigError::MissingField(ref f)) if f == "ssh_target"
    ));
    assert_eq!(ConfigError::Unreadable("gone".to_string()).describe(), "could not read site.toml: gone");
    assert_eq!(ConfigError::Malformed("bad".to_string()).describe(), "failed to parse site.toml: bad");
}

#[test]
fn clean_status_publishes_without_commit_or_push() {
    assert_eq!(publish_start(), PublishPhase::Status);
    assert!(matches!(publish_next(PublishPhase::Status, Ok(String::new())), PublishNext::Finished(Ok(()))));
    assert!(matches!(publish_next(PublishPhase::Status, Ok(" \n\t".to_string())), PublishNext::Finished(Ok(()))));
    assert!(nothing_to_commit("\u{3000}\r\n"));
    assert!(!nothing_to_commit(" M content/a.md\n"));
}

#[test]
fn dirty_status_stages_commits_and_pushes() {
    let mut phase = PublishPhase::Status;
    let mut seen = Vec::new();
    loop {
        seen.push(args_of(&publish_command(phase)).join(" "));
        let out = if phase == PublishPhase::Status { " M a.md\n".to_string() } else { String::new() };
        match publish_next(phase, Ok(out)) {
            PublishNext::Run(next) => phase = next,
            PublishNext::Finished(r) => {
                assert!(r.is_ok());
                break;
            }
        }
    }
    assert_eq!(
        seen,
        vec!["status --porcelain", "add .", "commit -m Auto-save by Site Sentinel", "push"]
    );
    assert_eq!(publish_command(PublishPhase::Push).program, "git");
}

#[test]
fn failed_step_ends_publish_with_its_error() {
    let err = launch_failure("git", "not found".to_string());
    match publish_next(PublishPhase::Commit, Err(err)) {
        PublishNext::Finished(Err(e)) => {
            assert_eq!(e.program, "git");
            assert_eq!(e.exit_code, None);
            assert_eq!(e.describe(), "git failed: not found");
        }
        _ => panic!("a failed step must end publishing"),
    }
}

#[test]
fn finished_commands_map_to_output_or_error() {
    match finish_command("hugo", true, Some(0), "built".to_string(), String::new()) {
        Ok(out) => assert_eq!(out, "built"),
        Err(_) => panic!("success must return stdout"),
    }
    match finish_command("hugo", false, Some(2), String::new(), "boom".to_string()) {
        Err(e) => {
            assert_eq!(e.program, "hugo");
            assert_eq!(e.stderr, "boom");
            assert_eq!(e.exit_code, Some(2));
        }
        Ok(_) => panic!("failure must be an error"),
    }
    let build = build_command();
    assert_eq!(build.program, "hugo");
    assert_eq!(args_of(&build), vec!["--minify"]);
}

#[test]
fn sync_command_mirrors_build_output() {
    let deploy = sample_config().deploy;
    let line = sync_command_with_key("/keys/id", &deploy);
    assert_eq!(line.program, "rsync");
    assert_eq!(args_of(&line), vec!["-az", "--delete", "-e", "ssh -i /keys/id", "public/", "me@host:/var/www"]);
}

#[test]
fn sync_command_expands_home_in_key() {
    let deploy = sample_config().deploy;
    let line = sync_command(&deploy);
    let rsh = &line.args[3];
    assert!(rsh.starts_with("ssh -i "));
    assert!(rsh.ends_with("/.ssh/id"));
    assert_ne!(rsh, "ssh -i ~/.ssh/id");
}

#[test]
fn title_replaces_every_dash() {
    assert_eq!(title_from_stem("a-b--c"), "a b  c");
    assert_eq!(title_from_stem("Already Spaced"), "Already Spaced");
    assert_eq!(title_of_path("notes/"), "Untitled");
    assert_eq!(title_of_path("x/release-notes.v2.md"), "release notes.v2");
}

#[test]
fn fresh_front_matter_has_title_and_timestamp() {
    let text = front_matter_now("notes/hello-world.md");
    assert!(text.starts_with("+++\ntitle = \"hello world\"\ndate = "));
    assert!(text.ends_with("\ndraft = false\ntags = []\n+++\n\n"));
    assert!(text.len() > "+++\ntitle = \"hello world\"\ndate = \ndraft = false\ntags = []\n+++\n\n".len());
}

#[test]
fn path_helpers_split_names() {
    assert_eq!(file_name_of("a/b/c.md"), "c.md");
    assert_eq!(file_name_of("plain"), "plain");
    assert_eq!(stem_of("c.tar.gz"), "c.tar");
    assert_eq!(stem_of(".hidden"), ".hidden");
    assert!(has_extension_of("c.md", "md"));
    assert!(!has_extension_of("c.mdx", "md"));
    assert_eq!(last_index_of("a/b/c", '/'), Some(3));
    assert_eq!(last_index_of("abc", '/'), None);
}
