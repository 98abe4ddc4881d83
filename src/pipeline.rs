use vstd::prelude::*;
use crate::command::{CommandLine, line_of};
use crate::config::DeployConfig;
use crate::notify::Notice;

verus! {

/// Local directory that the site build writes and the mirror copies.
pub const BUILD_OUTPUT_DIR: &'static str = "public/";

/// A path that begins with a home-directory shorthand that expansion resolves:
/// a lone `~`, or `~` followed by a path separator.
pub open spec fn has_home_prefix(s: Seq<char>) -> bool {
    s.len() >= 1 && s[0] == '~' && (s.len() == 1 || s[1] == '/' || s[1] == '\\')
}

/// What home-directory expansion may make of `s`: it leaves a path without the
/// shorthand as it is; a path with it either stays as it is (no home directory
/// known) or becomes some home directory followed by the rest of the path.
pub open spec fn home_expansion_of(s: Seq<char>, r: Seq<char>) -> bool {
    if has_home_prefix(s) {
        r == s || exists|home: Seq<char>| r == home + s.skip(1)
    } else {
        r == s
    }
}

/// Relies on shellexpand::tilde: a leading `~` followed by `/` or the end of the
/// string is replaced by the home directory when one is known; anything else is
/// returned unchanged.
#[verifier::external_body]
fn expand_home(s: &str) -> (r: String)
    ensures
        home_expansion_of(s@, r@),
{
    shellexpand::tilde(s).into_owned()
}

/// The mirror command: archive mode, deleting extraneous files, over a secure
/// shell with the given key, from the build output to `target:dest`.
pub open spec fn sync_args(key: Seq<char>, target: Seq<char>, dest: Seq<char>) -> Seq<Seq<char>> {
    seq!["-az"@, "--delete"@, "-e"@, "ssh -i "@ + key, BUILD_OUTPUT_DIR@, target + ":"@ + dest]
}

/// The mirror command for an already expanded key path.
pub fn sync_command_with_key(key: &str, deploy: &DeployConfig) -> (r: CommandLine)
    ensures
        r@ == line_of("rsync"@, sync_args(key@, deploy.ssh_target@, deploy.dest_dir@)),
{
    let mut rsh = String::from_str("ssh -i ");
    rsh.append(key);
    let mut dest = deploy.ssh_target.clone();
    dest.append(":");
    dest.append(deploy.dest_dir.as_str());
    let args = vec![
        String::from_str("-az"),
        String::from_str("--delete"),
        String::from_str("-e"),
        rsh,
        String::from_str(BUILD_OUTPUT_DIR),
        dest,
    ];
    let r = CommandLine { program: String::from_str("rsync"), args };
    proof {
        assert(r.args@.map_values(|a: String| a@) =~= sync_args(key@, deploy.ssh_target@, deploy.dest_dir@));
    }
    r
}

/// The mirror command, with the key path's home-directory shorthand expanded.
pub fn sync_command(deploy: &DeployConfig) -> (r: CommandLine)
    ensures
        exists|key: Seq<char>|
            home_expansion_of(deploy.ssh_key@, key) && r@ == line_of(
                "rsync"@,
                sync_args(key, deploy.ssh_target@, deploy.dest_dir@),
            ),
{
    let key = expand_home(deploy.ssh_key.as_str());
    sync_command_with_key(key.as_str(), deploy)
}

/// What the pipeline does once the build has finished.
pub enum BuildDecision {
    /// The build failed: report it and stop; nothing is published or synced.
    Abort(Notice),
    /// The build succeeded: start publish and sync side by side.
    PublishAndSync,
}

pub open spec fn build_failed_notice(n: Notice) -> bool {
    n.title@ == "Hugo Build Failed"@ && n.message@ == "Check log for details."@
}

/// Whether a pipeline run goes on to publish and sync after its build.
pub open spec fn starts_publish_and_sync(build_succeeded: bool) -> bool {
    build_succeeded
}

/// Decides, from the build's success, whether publish and sync start.
pub fn after_build(build_succeeded: bool) -> (r: BuildDecision)
    ensures
        r is PublishAndSync <==> starts_publish_and_sync(build_succeeded),
        r matches BuildDecision::Abort(n) ==> build_failed_notice(n),
{
    if build_succeeded {
        BuildDecision::PublishAndSync
    } else {
        BuildDecision::Abort(
            Notice { title: String::from_str("Hugo Build Failed"), message: String::from_str("Check log for details.") },
        )
    }
}

/// How one concurrently run stage ended.
#[derive(Clone, Copy, Debug, PartialEq, Eq, Structural)]
pub enum StageOutcome {
    Succeeded,
    /// The stage returned an error after its retries.
    Failed,
    /// The stage's task ended abnormally without returning.
    Crashed,
}

/// The aggregate of a publish and a sync outcome.
pub struct DeployReport {
    /// One notice per failed stage, publish first.
    pub notices: Vec<Notice>,
    /// Whether both stages succeeded.
    pub succeeded: bool,
}

pub open spec fn notice_view(n: Notice) -> (Seq<char>, Seq<char>) {
    (n.title@, n.message@)
}

pub open spec fn publish_failed_notice() -> (Seq<char>, Seq<char>) {
    ("Git Sync Failed"@, "Check log."@)
}

pub open spec fn sync_failed_notice() -> (Seq<char>, Seq<char>) {
    ("Deploy Failed"@, "Check log."@)
}

/// The notices owed for a pair of stage outcomes, in stage order.
pub open spec fn deploy_notices(publish: StageOutcome, sync: StageOutcome) -> Seq<(Seq<char>, Seq<char>)> {
    (if publish == StageOutcome::Succeeded { seq![] } else { seq![publish_failed_notice()] })
        + (if sync == StageOutcome::Succeeded { seq![] } else { seq![sync_failed_notice()] })
}

/// Joins the outcomes of the two stages: each failure is reported on its own,
/// and the run succeeds only when both stages did.
pub fn after_deploy(publish: StageOutcome, sync: StageOutcome) -> (r: DeployReport)
    ensures
        r.succeeded == (publish == StageOutcome::Succeeded && sync == StageOutcome::Succeeded),
        r.notices@.map_values(|n: Notice| notice_view(n)) == deploy_notices(publish, sync),
{
    let mut notices: Vec<Notice> = Vec::new();
    if publish != StageOutcome::Succeeded {
        notices.push(Notice { title: String::from_str("Git Sync Failed"), message: String::from_str("Check log.") });
    }
    if sync != StageOutcome::Succeeded {
        notices.push(Notice { title: String::from_str("Deploy Failed"), message: String::from_str("Check log.") });
    }
    proof {
        assert(notices@.map_values(|n: Notice| notice_view(n)) =~= deploy_notices(publish, sync));
    }
    DeployReport { notices, succeeded: publish == StageOutcome::Succeeded && sync == StageOutcome::Succeeded }
}

/// A failed build starts neither publish nor sync.
pub proof fn failed_build_starts_no_stage(build_succeeded: bool)
    requires
        !build_succeeded,
    ensures
        !starts_publish_and_sync(build_succeeded),
{
}

/// After a successful build both stages run, and their outcomes are judged
/// apart: each failed stage gets its own notice whatever the other did, and
/// the run succeeds only when neither failed.
pub proof fn stage_failures_are_reported_independently(publish: StageOutcome, sync: StageOutcome)
    ensures
        starts_publish_and_sync(true),
        deploy_notices(publish, sync).contains(publish_failed_notice()) <==> publish != StageOutcome::Succeeded,
        deploy_notices(publish, sync).contains(sync_failed_notice()) <==> sync != StageOutcome::Succeeded,
        deploy_notices(publish, sync).len() == 0 <==> (publish == StageOutcome::Succeeded
            && sync == StageOutcome::Succeeded),
{
    let ns = deploy_notices(publish, sync);
    let p = publish_failed_notice();
    let q = sync_failed_notice();
    reveal_strlit("Git Sync Failed");
    reveal_strlit("Deploy Failed");
    assert(p != q) by {
        assert(p.0[0] != q.0[0]);
    }
    if publish != StageOutcome::Succeeded {
        assert(ns[0] == p);
    }
    if sync != StageOutcome::Succeeded {
        assert(ns[ns.len() - 1] == q);
    }
    if ns.contains(p) {
        let k = choose|k: int| 0 <= k < ns.len() && ns[k] == p;
        assert(publish != StageOutcome::Succeeded);
    }
    if ns.contains(q) {
        let k = choose|k: int| 0 <= k < ns.len() && ns[k] == q;
        assert(sync != StageOutcome::Succeeded);
    }
}

} // verus!
