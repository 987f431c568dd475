//! Deciding which filesystem change notifications force a shader reload.
//!
//! The watching itself happens outside this crate: a background mechanism
//! enqueues raw change records, and the frame orchestrator drains them, as
//! plain values of [`WatcherEvent`], strictly before the tick's render step
//! runs.  This module holds the decision applied to each drained record.

use vstd::prelude::*;

use crate::state::CommonModel;
use crate::state::ExampleCommonState;

verus! {

/// What kind of change a filesystem notification reports.
#[derive(Clone, Copy, PartialEq, Eq, Structural, Debug)]
pub enum WatchEventKind {
    Modify,
    Create,
    Remove,
    Other,
}

/// Model of [`WatcherEvent`].
pub struct WatchEventModel {
    pub kind: WatchEventKind,
    pub paths: Seq<Seq<u8>>,
}

/// One drained filesystem change record: the kind of change and the
/// affected paths, as the bytes of each path.
pub struct WatcherEvent {
    pub kind: WatchEventKind,
    pub paths: Vec<Vec<u8>>,
}

impl View for WatcherEvent {
    type V = WatchEventModel;

    open spec fn view(&self) -> WatchEventModel {
        WatchEventModel { kind: self.kind, paths: self.paths.deep_view() }
    }
}

impl DeepView for WatcherEvent {
    type V = WatchEventModel;

    open spec fn deep_view(&self) -> WatchEventModel {
        self.view()
    }
}

/// The byte `.` as it appears in a path.
pub const BYTE_DOT: u8 = 46;

/// The byte `/`, the path separator.
pub const BYTE_SLASH: u8 = 47;

/// The byte `w`.
pub const BYTE_W: u8 = 119;

/// The byte `g`.
pub const BYTE_G: u8 = 103;

/// The byte `s`.
pub const BYTE_S: u8 = 115;

/// The byte `l`.
pub const BYTE_L: u8 = 108;

/// Whether the path's final component has the shader source extension
/// `wgsl`: the path ends in `.wgsl`, and the byte before that suffix exists
/// and is not the path separator, so that a bare `.wgsl` file name, whose
/// leading dot marks a hidden file rather than an extension, does not count.
pub open spec fn spec_is_shader_path(p: Seq<u8>) -> bool {
    &&& p.len() >= 6
    &&& p[p.len() - 5] == BYTE_DOT
    &&& p[p.len() - 4] == BYTE_W
    &&& p[p.len() - 3] == BYTE_G
    &&& p[p.len() - 2] == BYTE_S
    &&& p[p.len() - 1] == BYTE_L
    &&& p[p.len() - 6] != BYTE_SLASH
}

/// Whether any of the paths is a shader source path.
pub open spec fn spec_any_shader_path(paths: Seq<Seq<u8>>) -> bool {
    exists|i: int| 0 <= i < paths.len() && #[trigger] spec_is_shader_path(paths[i])
}

/// Only modification events touching a shader source path are actionable:
/// they, and nothing else, make the orchestrator reload the shader.
pub open spec fn spec_actionable(e: WatchEventModel) -> bool {
    e.kind is Modify && spec_any_shader_path(e.paths)
}

/// How many events of the batch are actionable.
pub open spec fn spec_count_actionable(evs: Seq<WatchEventModel>) -> nat
    decreases evs.len(),
{
    if evs.len() == 0 {
        0
    } else {
        (if spec_actionable(evs[0]) {
            1nat
        } else {
            0
        }) + spec_count_actionable(evs.skip(1))
    }
}

/// What draining a batch does to the common state: one reload per
/// actionable event, so the shader generation grows by their count and the
/// state is dirty if it was dirty before or any event was actionable.
/// Nothing else changes.
pub open spec fn spec_drain(s: CommonModel, evs: Seq<WatchEventModel>) -> CommonModel {
    CommonModel {
        shader_generation: s.shader_generation + spec_count_actionable(evs),
        dirty: s.dirty || spec_count_actionable(evs) > 0,
        ..s
    }
}

pub fn is_shader_path(p: &[u8]) -> (r: bool)
    ensures
        r == spec_is_shader_path(p@),
{
    if p.len() < 6 {
        return false;
    }
    let n: usize = p.len();
    p[n - 5] == BYTE_DOT && p[n - 4] == BYTE_W && p[n - 3] == BYTE_G && p[n - 2] == BYTE_S && p[n
        - 1] == BYTE_L && p[n - 6] != BYTE_SLASH
}

/// Whether this event must trigger a shader reload.
pub fn is_actionable(e: &WatcherEvent) -> (r: bool)
    ensures
        r == spec_actionable(e@),
{
    match e.kind {
        WatchEventKind::Modify => {},
        _ => {
            return false;
        },
    }
    let mut i: usize = 0;
    while i < e.paths.len()
        invariant
            e@.kind is Modify,
            i <= e.paths.len(),
            forall|j: int| 0 <= j < i ==> !spec_is_shader_path(e@.paths[j]),
        decreases e.paths.len() - i,
    {
        if is_shader_path(e.paths[i].as_slice()) {
            proof {
                assert(spec_is_shader_path(e@.paths[i as int]));
            }
            return true;
        }
        i = i + 1;
    }
    false
}

/// Counting over a batch extended by one event.
proof fn lemma_count_actionable_push(evs: Seq<WatchEventModel>, e: WatchEventModel)
    ensures
        spec_count_actionable(evs.push(e)) == spec_count_actionable(evs) + (
        if spec_actionable(e) {
            1nat
        } else {
            0
        }),
    decreases evs.len(),
{
    if evs.len() == 0 {
        assert(evs.push(e)[0] == e);
        assert(evs.push(e).skip(1) =~= Seq::<WatchEventModel>::empty());
        assert(spec_count_actionable(evs.push(e).skip(1)) == 0);
    } else {
        assert(evs.push(e)[0] == evs[0]);
        assert(evs.push(e).skip(1) =~= evs.skip(1).push(e));
        lemma_count_actionable_push(evs.skip(1), e);
    }
}

/// No batch holds more actionable events than events.
proof fn lemma_count_actionable_le_len(evs: Seq<WatchEventModel>)
    ensures
        spec_count_actionable(evs) <= evs.len(),
    decreases evs.len(),
{
    if evs.len() > 0 {
        lemma_count_actionable_le_len(evs.skip(1));
    }
}

/// Drain one batch of watcher events into a demo's common state: every
/// actionable event applies a reload (replacing the shader handle and
/// marking the state dirty); everything else is ignored.  Returns how many
/// events were actionable.
///
/// The caller recompiles the shader module once per reported reload before
/// the tick's render step runs; an inactionable batch leaves the state
/// untouched.
pub fn apply_watch_events(common: &mut ExampleCommonState, events: &Vec<WatcherEvent>) -> (n:
    usize)
    requires
        old(common)@.shader_generation + events@.len() <= u64::MAX,
    ensures
        n as nat == spec_count_actionable(events.deep_view()),
        final(common)@ == spec_drain(old(common)@, events.deep_view()),
{
    let ghost evs = events.deep_view();
    let mut n: usize = 0;
    let mut i: usize = 0;
    proof {
        assert(evs.take(0) =~= Seq::<WatchEventModel>::empty());
    }
    while i < events.len()
        invariant
            i <= events.len(),
            evs == events.deep_view(),
            evs.len() == events@.len(),
            n as nat == spec_count_actionable(evs.take(i as int)),
            n <= i,
            common@ == spec_drain(old(common)@, evs.take(i as int)),
            old(common)@.shader_generation + evs.len() <= u64::MAX,
        decreases events.len() - i,
    {
        proof {
            assert(evs.take(i + 1) =~= evs.take(i as int).push(evs[i as int]));
            lemma_count_actionable_push(evs.take(i as int), evs[i as int]);
            lemma_count_actionable_le_len(evs.take(i + 1));
            assert(evs.take(i + 1).len() <= evs.len());
        }
        if is_actionable(&events[i]) {
            common.apply_reload();
            n = n + 1;
        }
        i = i + 1;
    }
    proof {
        assert(evs.take(events@.len() as int) =~= evs);
    }
    n
}

} // verus!
