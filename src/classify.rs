use vstd::prelude::*;
use crate::config::CONFIG_FILE;
use crate::path::{extension, file_name, file_name_of, has_extension, has_extension_of, same_text};

verus! {

/// Extension of the content files that are scaffolded and built.
pub const CONTENT_EXTENSION: &'static str = "md";

/// One changed path of a debounced batch, with the size of the file found
/// there (`None` where no file could be inspected).
pub struct ChangeEvent {
    pub path: String,
    pub size: Option<u64>,
}

/// What a changed path means.
#[derive(Clone, Copy, Debug, PartialEq, Eq, Structural)]
pub enum EventKind {
    /// The settings file changed: reload it.
    Config,
    /// An empty content file: write its front matter.
    NewEmptyFile,
    /// A content file with content: the site needs a build.
    Content,
    /// Anything else: ignored.
    Other,
}

pub open spec fn is_config_path(path: Seq<char>) -> bool {
    file_name(path) == CONFIG_FILE@
}

pub open spec fn is_content_path(path: Seq<char>) -> bool {
    has_extension(file_name(path)) && extension(file_name(path)) == CONTENT_EXTENSION@
}

pub open spec fn event_kind(path: Seq<char>, size: Option<u64>) -> EventKind {
    if is_config_path(path) {
        EventKind::Config
    } else if is_content_path(path) {
        if size == Some(0u64) {
            EventKind::NewEmptyFile
        } else {
            EventKind::Content
        }
    } else {
        EventKind::Other
    }
}

/// Classifies one changed path.
pub fn classify(path: &str, size: Option<u64>) -> (r: EventKind)
    ensures
        r == event_kind(path@, size),
{
    let name = file_name_of(path);
    if same_text(name, CONFIG_FILE) {
        EventKind::Config
    } else if has_extension_of(name, CONTENT_EXTENSION) {
        match size {
            Some(0) => EventKind::NewEmptyFile,
            _ => EventKind::Content,
        }
    } else {
        EventKind::Other
    }
}

/// A step that the event loop takes for one event, in batch order.
pub enum BatchAction {
    ReloadConfig,
    /// Write front matter into the empty file at this path.
    Scaffold(String),
}

/// The model of a batch action.
pub enum PlannedAction {
    ReloadConfig,
    Scaffold(Seq<char>),
}

impl View for BatchAction {
    type V = PlannedAction;

    open spec fn view(&self) -> PlannedAction {
        match self {
            BatchAction::ReloadConfig => PlannedAction::ReloadConfig,
            BatchAction::Scaffold(p) => PlannedAction::Scaffold(p@),
        }
    }
}

/// What the event loop does with a batch: its steps, in order, and whether a
/// single pipeline run follows them.
pub struct BatchPlan {
    pub actions: Vec<BatchAction>,
    pub needs_build: bool,
}

pub open spec fn action_for(e: ChangeEvent) -> Seq<PlannedAction> {
    match event_kind(e.path@, e.size) {
        EventKind::Config => seq![PlannedAction::ReloadConfig],
        EventKind::NewEmptyFile => seq![PlannedAction::Scaffold(e.path@)],
        _ => seq![],
    }
}

/// The steps owed for a batch, in the order of its events.
pub open spec fn planned_actions(events: Seq<ChangeEvent>) -> Seq<PlannedAction>
    decreases events.len(),
{
    if events.len() == 0 {
        seq![]
    } else {
        planned_actions(events.drop_last()) + action_for(events.last())
    }
}

/// Whether some event of the batch calls for a build.
pub open spec fn batch_needs_build(events: Seq<ChangeEvent>) -> bool {
    exists|k: int| 0 <= k < events.len() && event_kind(events[k].path@, events[k].size) == EventKind::Content
}

/// Classifies a batch: settings reloads and scaffolds in event order, and one
/// build flag for the whole batch, however many content files changed.
pub fn plan_batch(events: &Vec<ChangeEvent>) -> (r: BatchPlan)
    ensures
        r.actions@.map_values(|a: BatchAction| a@) == planned_actions(events@),
        r.needs_build == batch_needs_build(events@),
{
    let mut actions: Vec<BatchAction> = Vec::new();
    let mut needs_build = false;
    let mut i: usize = 0;
    while i < events.len()
        invariant
            i <= events@.len(),
            actions@.map_values(|a: BatchAction| a@) == planned_actions(events@.take(i as int)),
            needs_build == batch_needs_build(events@.take(i as int)),
        decreases events@.len() - i,
    {
        let e = &events[i];
        let kind = classify(e.path.as_str(), e.size);
        let ghost before = actions@;
        match kind {
            EventKind::Config => actions.push(BatchAction::ReloadConfig),
            EventKind::NewEmptyFile => actions.push(BatchAction::Scaffold(e.path.clone())),
            EventKind::Content => needs_build = true,
            EventKind::Other => {},
        }
        proof {
            let pre = events@.take(i as int);
            let post = events@.take(i + 1);
            assert(post.drop_last() =~= pre);
            assert(post.last() == events@[i as int]);
            assert(actions@.map_values(|a: BatchAction| a@) =~= before.map_values(|a: BatchAction| a@)
                + action_for(events@[i as int]));
            if kind == EventKind::Content {
                assert(post[i as int] == events@[i as int]);
            }
            if batch_needs_build(post) {
                let k = choose|k: int| 0 <= k < post.len() && event_kind(post[k].path@, post[k].size) == EventKind::Content;
                if k < i {
                    assert(pre[k] == post[k]);
                }
            }
            if batch_needs_build(pre) {
                let k = choose|k: int| 0 <= k < pre.len() && event_kind(pre[k].path@, pre[k].size) == EventKind::Content;
                assert(pre[k] == post[k]);
            }
        }
        i = i + 1;
    }
    proof {
        assert(events@.take(events@.len() as int) =~= events@);
    }
    BatchPlan { actions, needs_build }
}

} // verus!
