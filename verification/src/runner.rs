//! The frame orchestrator's decisions, and the laws that hold across whole
//! ticks.
//!
//! Once per tick the orchestrator drains the watcher, applies the drained
//! events to the active demo's common state, advances its running time,
//! dispatches input, and invokes the demo's render step, which prepares the
//! pipeline cache, draws, and counts the frame.  The functions here compute
//! each of those decisions; the proofs at the bottom relate arbitrary
//! sequences of such operations to the rebuilds the render steps perform.

use vstd::prelude::*;

use crate::pipeline::CacheModel;
use crate::pipeline::spec_coherent;
use crate::pipeline::spec_needs_rebuild;
use crate::pipeline::spec_prepare;
use crate::state::CommonModel;
use crate::state::ExampleCommonState;
use crate::state::spec_apply_reload;
use crate::state::spec_increase_frame;
use crate::state::spec_increase_time;
use crate::state::spec_mark_dirty;
use crate::state::spec_polygon_mode_down;
use crate::state::spec_polygon_mode_up;
use crate::watcher::WatchEventModel;
use crate::watcher::spec_count_actionable;
use crate::watcher::spec_drain;

verus! {

/// Target interval between ticks, in nanoseconds: sixty ticks a second.
pub const FRAME_INTERVAL_NANOS: u64 = 16_666_667;

/// When the tick after the one running at `now_nanos` should be scheduled:
/// one target interval later.  This is a pacing hint, not a deadline; a
/// single outstanding tick is scheduled at a time, so late ticks never
/// accumulate a backlog.
pub fn next_tick_deadline(now_nanos: u64) -> (d: u64)
    ensures
        d == if now_nanos + FRAME_INTERVAL_NANOS <= u64::MAX {
            (now_nanos + FRAME_INTERVAL_NANOS) as int
        } else {
            u64::MAX as int
        },
{
    if now_nanos <= u64::MAX - FRAME_INTERVAL_NANOS {
        now_nanos + FRAME_INTERVAL_NANOS
    } else {
        u64::MAX
    }
}

/// The keys the orchestrator itself reads.  Every other key reaches the
/// active demo unchanged as `Other`.
#[derive(Clone, Copy, PartialEq, Eq, Structural, Debug)]
pub enum KeyPress {
    Up,
    W,
    Down,
    S,
    Escape,
    P,
    N,
    Other,
}

/// What the loop around the orchestrator must do after a key was handled.
#[derive(Clone, Copy, PartialEq, Eq, Structural, Debug)]
pub enum KeyAction {
    /// Stop the loop.
    Exit,
    /// Make the previous demo the active one.
    SelectPrevious,
    /// Make the next demo the active one.
    SelectNext,
    /// Hand the key on to the active demo's own handler.
    Forward,
}

/// What a key press does to the active demo's common state, and what the
/// loop does next.  The fill-mode keys also reach the demo's own handler;
/// the demo-switching keys and escape do not.
pub open spec fn spec_handle_key(s: CommonModel, key: KeyPress) -> (CommonModel, KeyAction) {
    match key {
        KeyPress::Up | KeyPress::W => (spec_polygon_mode_up(s), KeyAction::Forward),
        KeyPress::Down | KeyPress::S => (spec_polygon_mode_down(s), KeyAction::Forward),
        KeyPress::Escape => (s, KeyAction::Exit),
        KeyPress::P => (s, KeyAction::SelectPrevious),
        KeyPress::N => (s, KeyAction::SelectNext),
        KeyPress::Other => (s, KeyAction::Forward),
    }
}

/// Route one key press: the up/down keys cycle the fill mode (marking the
/// state dirty) and are still forwarded to the demo; escape and the
/// demo-switching keys leave the state untouched and are not forwarded.
pub fn handle_key(common: &mut ExampleCommonState, key: KeyPress) -> (action: KeyAction)
    ensures
        (final(common)@, action) == spec_handle_key(old(common)@, key),
{
    match key {
        KeyPress::Up | KeyPress::W => {
            common.polygon_mode_up();
            KeyAction::Forward
        },
        KeyPress::Down | KeyPress::S => {
            common.polygon_mode_down();
            KeyAction::Forward
        },
        KeyPress::Escape => KeyAction::Exit,
        KeyPress::P => KeyAction::SelectPrevious,
        KeyPress::N => KeyAction::SelectNext,
        KeyPress::Other => KeyAction::Forward,
    }
}

/// The demo before `index` in the fixed demo list, clamping at the first.
pub fn previous_example_index(index: usize) -> (r: usize)
    ensures
        r == if index > 0 {
            index - 1
        } else {
            0int
        },
{
    if index > 0 {
        index - 1
    } else {
        0
    }
}

/// The demo after `index` in a list of `count` demos, clamping at the last.
pub fn next_example_index(index: usize, count: usize) -> (r: usize)
    requires
        0 < count,
        index < count,
    ensures
        r == if index + 1 < count {
            index + 1
        } else {
            count - 1
        },
        r < count,
{
    if index + 1 < count {
        index + 1
    } else {
        count - 1
    }
}

/// The multisample count to render with, from which multisample counts the
/// adapter reports for the surface format: the largest supported of 16, 8,
/// 4 and 2, or 1 when none is.
pub open spec fn spec_max_sample_count(x16: bool, x8: bool, x4: bool, x2: bool) -> u32 {
    if x16 {
        16
    } else if x8 {
        8
    } else if x4 {
        4
    } else if x2 {
        2
    } else {
        1
    }
}

pub fn max_sample_count(x16: bool, x8: bool, x4: bool, x2: bool) -> (r: u32)
    ensures
        r == spec_max_sample_count(x16, x8, x4, x2),
{
    if x16 {
        16
    } else if x8 {
        8
    } else if x4 {
        4
    } else if x2 {
        2
    } else {
        1
    }
}

/// How many instances the instanced-drawing demo renders after one scroll
/// step: scrolling up adds one, capped at 100; scrolling down removes one,
/// but never below 3.
pub open spec fn spec_instances_after_scroll(n: u32, scroll_up: bool) -> int {
    if scroll_up {
        if n + 1 < 100 {
            n + 1
        } else {
            100int
        }
    } else {
        if n - 1 > 3 {
            n - 1
        } else {
            3int
        }
    }
}

pub fn instances_after_scroll(n: u32, scroll_up: bool) -> (r: u32)
    ensures
        r == spec_instances_after_scroll(n, scroll_up),
{
    if scroll_up {
        if n < 100 {
            n + 1
        } else {
            100
        }
    } else {
        if n > 4 {
            n - 1
        } else {
            3
        }
    }
}

/// One operation the frame loop can apply to a demo's common state and its
/// pipeline cache, in the order the orchestrator applies them.  A render
/// step stands for the whole of one: preparing the pipeline (rebuilding if
/// dirty or absent), drawing, and counting the completed frame.
pub enum LoopOp {
    MarkDirty,
    ApplyReload,
    DrainBatch { evs: Seq<WatchEventModel> },
    IncreaseTime { dt: nat },
    PolygonModeUp,
    PolygonModeDown,
    RenderStep,
}

/// What one operation does to the state and the cache.
pub open spec fn spec_step(s: CommonModel, c: CacheModel, op: LoopOp) -> (CommonModel, CacheModel) {
    match op {
        LoopOp::MarkDirty => (spec_mark_dirty(s), c),
        LoopOp::ApplyReload => (spec_apply_reload(s), c),
        LoopOp::DrainBatch { evs } => (spec_drain(s, evs), c),
        LoopOp::IncreaseTime { dt } => (spec_increase_time(s, dt), c),
        LoopOp::PolygonModeUp => (spec_polygon_mode_up(s), c),
        LoopOp::PolygonModeDown => (spec_polygon_mode_down(s), c),
        LoopOp::RenderStep => {
            let prepared = spec_prepare(s, c);
            (spec_increase_frame(prepared.0), prepared.1)
        },
    }
}

/// Running a whole sequence of operations, first to last.  A tick whose
/// presentation surface turns out unavailable is skipped entirely and
/// contributes no operation: every state, the dirty flag included, is left
/// untouched until the retry on the next tick.
pub open spec fn spec_run(s: CommonModel, c: CacheModel, ops: Seq<LoopOp>) -> (
    CommonModel,
    CacheModel,
)
    decreases ops.len(),
{
    if ops.len() == 0 {
        (s, c)
    } else {
        let stepped = spec_step(s, c, ops[0]);
        spec_run(stepped.0, stepped.1, ops.skip(1))
    }
}

/// Whether this operation leaves the state dirty no matter what it was
/// before: an explicit invalidation, a reload, a fill-mode change, or a
/// drained batch holding at least one actionable event.
pub open spec fn spec_sets_dirty(op: LoopOp) -> bool {
    match op {
        LoopOp::MarkDirty => true,
        LoopOp::ApplyReload => true,
        LoopOp::DrainBatch { evs } => spec_count_actionable(evs) > 0,
        LoopOp::IncreaseTime { .. } => false,
        LoopOp::PolygonModeUp => true,
        LoopOp::PolygonModeDown => true,
        LoopOp::RenderStep => false,
    }
}

/// Running a concatenation runs the two parts in order.
proof fn lemma_run_append(s: CommonModel, c: CacheModel, a: Seq<LoopOp>, b: Seq<LoopOp>)
    ensures
        spec_run(s, c, a + b) == spec_run(spec_run(s, c, a).0, spec_run(s, c, a).1, b),
    decreases a.len(),
{
    if a.len() == 0 {
        assert(a + b =~= b);
    } else {
        assert((a + b)[0] == a[0]);
        assert((a + b).skip(1) =~= a.skip(1) + b);
        let stepped = spec_step(s, c, a[0]);
        lemma_run_append(stepped.0, stepped.1, a.skip(1), b);
    }
}

/// Running a single operation is stepping it.
proof fn lemma_run_one(s: CommonModel, c: CacheModel, op: LoopOp)
    ensures
        spec_run(s, c, seq![op]) == spec_step(s, c, op),
{
    reveal_with_fuel(spec_run, 2);
    assert(seq![op][0] == op);
    assert(seq![op].skip(1) =~= Seq::<LoopOp>::empty());
}

/// Every operation but a render step leaves a dirty state dirty.
proof fn lemma_dirty_preserved(s: CommonModel, c: CacheModel, ops: Seq<LoopOp>)
    requires
        s.dirty,
        forall|k: int| 0 <= k < ops.len() ==> !(#[trigger] ops[k] is RenderStep),
    ensures
        spec_run(s, c, ops).0.dirty,
    decreases ops.len(),
{
    if ops.len() > 0 {
        let stepped = spec_step(s, c, ops[0]);
        assert(forall|k: int|
            0 <= k < ops.skip(1).len() ==> !(#[trigger] ops.skip(1)[k] is RenderStep)) by {
            assert(forall|k: int|
                0 <= k < ops.skip(1).len() ==> ops.skip(1)[k] == ops[k + 1]);
        };
        lemma_dirty_preserved(stepped.0, stepped.1, ops.skip(1));
    }
}

/// Between any operation that dirties the state and the next render step,
/// that render step rebuilds the pipeline: with `ops[i]` dirtying, no render
/// step strictly between `i` and `j`, and a render step at `j`, the state
/// reaching step `j` is dirty, so the step's preparation reports a rebuild.
pub proof fn lemma_rebuild_between_dirty_and_render(
    s: CommonModel,
    c: CacheModel,
    ops: Seq<LoopOp>,
    i: int,
    j: int,
)
    requires
        0 <= i < j < ops.len(),
        spec_sets_dirty(ops[i]),
        forall|k: int| i < k < j ==> !(#[trigger] ops[k] is RenderStep),
        ops[j] is RenderStep,
    ensures
        spec_needs_rebuild(
            spec_run(s, c, ops.take(j)).0,
            spec_run(s, c, ops.take(j)).1,
        ),
{
    let prefix = ops.take(i + 1);
    let middle = ops.subrange(i + 1, j);
    assert(ops.take(j) =~= prefix + middle);
    lemma_run_append(s, c, prefix, middle);

    let before = ops.take(i);
    assert(prefix =~= before + seq![ops[i]]);
    lemma_run_append(s, c, before, seq![ops[i]]);
    let at_i = spec_run(s, c, before);
    lemma_run_one(at_i.0, at_i.1, ops[i]);
    let after_i = spec_step(at_i.0, at_i.1, ops[i]);
    assert(after_i.0.dirty);

    assert(forall|k: int| 0 <= k < middle.len() ==> !(#[trigger] middle[k] is RenderStep)) by {
        assert(forall|k: int| 0 <= k < middle.len() ==> middle[k] == ops[i + 1 + k]);
    };
    lemma_dirty_preserved(after_i.0, after_i.1, middle);
}

/// The state is clean immediately after any render step: a run ending in a
/// render step leaves the dirty flag false.
pub proof fn lemma_render_step_leaves_clean(s: CommonModel, c: CacheModel, ops: Seq<LoopOp>)
    requires
        ops.len() > 0,
        ops.last() is RenderStep,
    ensures
        !spec_run(s, c, ops).0.dirty,
{
    let front = ops.take(ops.len() - 1);
    assert(ops =~= front + seq![ops.last()]);
    lemma_run_append(s, c, front, seq![ops.last()]);
    let at_last = spec_run(s, c, front);
    lemma_run_one(at_last.0, at_last.1, ops.last());
}

/// One operation preserves coherence of state and cache.
proof fn lemma_step_preserves_coherence(s: CommonModel, c: CacheModel, op: LoopOp)
    requires
        spec_coherent(s, c),
    ensures
        spec_coherent(spec_step(s, c, op).0, spec_step(s, c, op).1),
{
}

/// Coherence of state and cache — a clear dirty flag vouching for the
/// cached pipeline's inputs — holds after any sequence of operations that
/// starts from a coherent pair, as every demo does: it starts dirty with no
/// pipeline.  Together with `lemma_rebuild_between_dirty_and_render` this
/// says no render step ever draws with a pipeline built from an outdated
/// shader or fill mode.
pub proof fn lemma_run_preserves_coherence(s: CommonModel, c: CacheModel, ops: Seq<LoopOp>)
    requires
        spec_coherent(s, c),
    ensures
        spec_coherent(spec_run(s, c, ops).0, spec_run(s, c, ops).1),
    decreases ops.len(),
{
    if ops.len() > 0 {
        lemma_step_preserves_coherence(s, c, ops[0]);
        let stepped = spec_step(s, c, ops[0]);
        lemma_run_preserves_coherence(stepped.0, stepped.1, ops.skip(1));
    }
}

/// The time accumulator never decreases and the frame counter never
/// decreases, whatever sequence of operations the loop applies: time is
/// frozen, not rewound, while a demo is inactive, and frames only ever
/// complete.
pub proof fn lemma_time_and_frame_monotone(s: CommonModel, c: CacheModel, ops: Seq<LoopOp>)
    ensures
        spec_run(s, c, ops).0.time_nanos >= s.time_nanos,
        spec_run(s, c, ops).0.frame >= s.frame,
    decreases ops.len(),
{
    if ops.len() > 0 {
        let stepped = spec_step(s, c, ops[0]);
        lemma_time_and_frame_monotone(stepped.0, stepped.1, ops.skip(1));
    }
}

/// A drained batch holding at least one actionable event makes the
/// immediately following render step rebuild the pipeline cache exactly
/// once: that step rebuilds, and a second render step with no intervening
/// events does not rebuild again — however many events of the batch
/// reported the same file.
pub proof fn lemma_reload_batch_rebuilds_once(
    s: CommonModel,
    c: CacheModel,
    evs: Seq<WatchEventModel>,
)
    requires
        spec_count_actionable(evs) > 0,
    ensures
        spec_prepare(spec_drain(s, evs), c).2,
        !spec_prepare(
            spec_increase_frame(spec_prepare(spec_drain(s, evs), c).0),
            spec_prepare(spec_drain(s, evs), c).1,
        ).2,
{
}

} // verus!
