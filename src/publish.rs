use vstd::prelude::*;
use vstd::string::*;
use crate::command::{CommandError, CommandLine, line_of};

verus! {

/// The commit message of every automatic commit.
pub const COMMIT_MESSAGE: &'static str = "Auto-save by Site Sentinel";

/// Characters with the Unicode `White_Space` property.
pub open spec fn is_white_space(c: char) -> bool {
    ('\u{9}' <= c && c <= '\u{d}') || c == ' ' || c == '\u{85}' || c == '\u{a0}' || c == '\u{1680}'
        || ('\u{2000}' <= c && c <= '\u{200a}') || c == '\u{2028}' || c == '\u{2029}'
        || c == '\u{202f}' || c == '\u{205f}' || c == '\u{3000}'
}

/// Text that is empty once surrounding white space is trimmed.
pub open spec fn is_blank(s: Seq<char>) -> bool {
    forall|k: int| 0 <= k < s.len() ==> is_white_space(#[trigger] s[k])
}

fn white_space(c: char) -> (r: bool)
    ensures
        r == is_white_space(c),
{
    ('\u{9}' <= c && c <= '\u{d}') || c == ' ' || c == '\u{85}' || c == '\u{a0}' || c == '\u{1680}'
        || ('\u{2000}' <= c && c <= '\u{200a}') || c == '\u{2028}' || c == '\u{2029}'
        || c == '\u{202f}' || c == '\u{205f}' || c == '\u{3000}'
}

/// Whether a status listing reports no pending change.
pub fn nothing_to_commit(status: &str) -> (r: bool)
    ensures
        r == is_blank(status@),
{
    let n = status.unicode_len();
    let mut i: usize = 0;
    while i < n
        invariant
            n == status@.len(),
            i <= n,
            forall|k: int| 0 <= k < i ==> is_white_space(#[trigger] status@[k]),
        decreases n - i,
    {
        if !white_space(status.get_char(i)) {
            return false;
        }
        i = i + 1;
    }
    true
}

/// The steps of publishing to version control, in order.
#[derive(Clone, Copy, Debug, PartialEq, Eq, Structural)]
pub enum PublishPhase {
    Status,
    StageAll,
    Commit,
    Push,
}

/// What publishing does after a step has run.
pub enum PublishNext {
    /// Run this step next.
    Run(PublishPhase),
    /// Publishing is over, with this outcome.
    Finished(Result<(), CommandError>),
}

/// The version-control arguments of each step.
pub open spec fn publish_args(phase: PublishPhase) -> Seq<Seq<char>> {
    match phase {
        PublishPhase::Status => seq!["status"@, "--porcelain"@],
        PublishPhase::StageAll => seq!["add"@, "."@],
        PublishPhase::Commit => seq!["commit"@, "-m"@, COMMIT_MESSAGE@],
        PublishPhase::Push => seq!["push"@],
    }
}

/// The first step of a publish attempt.
pub fn publish_start() -> (r: PublishPhase)
    ensures
        r == PublishPhase::Status,
{
    PublishPhase::Status
}

/// The command that one step runs.
pub fn publish_command(phase: PublishPhase) -> (r: CommandLine)
    ensures
        r@ == line_of("git"@, publish_args(phase)),
{
    let args = match phase {
        PublishPhase::Status => vec![String::from_str("status"), String::from_str("--porcelain")],
        PublishPhase::StageAll => vec![String::from_str("add"), String::from_str(".")],
        PublishPhase::Commit => vec![String::from_str("commit"), String::from_str("-m"), String::from_str(COMMIT_MESSAGE)],
        PublishPhase::Push => vec![String::from_str("push")],
    };
    let r = CommandLine { program: String::from_str("git"), args };
    proof {
        assert(r.args@.map_values(|a: String| a@) =~= publish_args(phase));
    }
    r
}

/// Decides what follows a step, given what the step's command returned.
/// A clean status ends publishing successfully without commit or push; any
/// failed step ends it with that step's error.
pub fn publish_next(phase: PublishPhase, result: Result<String, CommandError>) -> (r: PublishNext)
    ensures
        match result {
            Err(e) => r == PublishNext::Finished(Err(e)),
            Ok(out) => match phase {
                PublishPhase::Status => if is_blank(out@) {
                    r == PublishNext::Finished(Ok(()))
                } else {
                    r == PublishNext::Run(PublishPhase::StageAll)
                },
                PublishPhase::StageAll => r == PublishNext::Run(PublishPhase::Commit),
                PublishPhase::Commit => r == PublishNext::Run(PublishPhase::Push),
                PublishPhase::Push => r == PublishNext::Finished(Ok(())),
            },
        },
{
    match result {
        Err(e) => PublishNext::Finished(Err(e)),
        Ok(out) => match phase {
            PublishPhase::Status => if nothing_to_commit(out.as_str()) {
                PublishNext::Finished(Ok(()))
            } else {
                PublishNext::Run(PublishPhase::StageAll)
            },
            PublishPhase::StageAll => PublishNext::Run(PublishPhase::Commit),
            PublishPhase::Commit => PublishNext::Run(PublishPhase::Push),
            PublishPhase::Push => PublishNext::Finished(Ok(())),
        },
    }
}

} // verus!
