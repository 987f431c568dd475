//! The double-buffered texture pair whose read/write roles swap every frame.

use vstd::prelude::*;

use crate::pipeline::CacheModel;
use crate::pipeline::PipelineCache;
use crate::pipeline::spec_needs_rebuild;
use crate::pipeline::spec_prepare;
use crate::state::ExampleCommonState;

verus! {

/// Which of the two textures is bound read-only (sampled) and which
/// write-only (storage) during the render pass of frame `f`: the pair
/// alternates strictly every frame.
pub open spec fn spec_roles(f: nat) -> (nat, nat) {
    (f % 2, (f + 1) % 2)
}

/// The role assignment for frame `frame`: `(read_index, write_index)` into
/// the pair.  A pure function of the frame counter alone; the caller must
/// compute bindings fresh every frame, since the roles change every frame.
pub fn roles(frame: u64) -> (r: (usize, usize))
    ensures
        r.0 as nat == spec_roles(frame as nat).0,
        r.1 as nat == spec_roles(frame as nat).1,
        r.0 != r.1,
        r.0 < 2 && r.1 < 2,
{
    let read: usize = (frame % 2) as usize;
    let write: usize = 1 - read;
    (read, write)
}

/// The roles of two consecutive frames always differ, and the assignment
/// repeats with period two.
pub proof fn lemma_roles_alternate(f: nat)
    ensures
        spec_roles(f) != spec_roles(f + 1),
        spec_roles(f) == spec_roles(f + 2),
{
    assert(f % 2 == (f + 2) % 2) by {
        vstd::arithmetic::div_mod::lemma_mod_add_multiples_vanish(f as int, 2);
    };
    assert((f + 1) % 2 == (f + 3) % 2) by {
        vstd::arithmetic::div_mod::lemma_mod_add_multiples_vanish((f + 1) as int, 2);
    };
}

/// Model of [`PingPongPair`].
pub struct PairModel {
    pub cleared: bool,
}

/// Two same-format, same-size textures created once at demo construction.
/// The textures themselves are GPU resources held by the caller; this type
/// tracks the one fact the render policy depends on: whether both have been
/// cleared to their defined baseline value, without which the feedback loop
/// would read undefined content on its first read-role access.
pub struct PingPongPair {
    cleared: bool,
}

impl View for PingPongPair {
    type V = PairModel;

    closed spec fn view(&self) -> PairModel {
        PairModel { cleared: self.cleared }
    }
}

/// A pair and a pipeline cache belonging to one demo fit together when a
/// present pipeline implies that the textures were cleared: both facts are
/// established by the same first render step.
pub open spec fn spec_pair_fits(pair: PairModel, cache: CacheModel) -> bool {
    cache.built is Some ==> pair.cleared
}

impl PingPongPair {
    /// A freshly created pair: the textures' content is still undefined.
    pub fn new() -> (p: Self)
        ensures
            !p@.cleared,
    {
        PingPongPair { cleared: false }
    }

    /// Whether both textures have been cleared to the baseline value.
    pub fn cleared(&self) -> (c: bool)
        ensures
            c == self@.cleared,
    {
        self.cleared
    }
}

/// Everything a feedback demo's render step must do before recording its
/// draw, in order.
pub struct FramePlan {
    /// Rebuild the pipeline from the current shader module and fill mode.
    pub rebuild: bool,
    /// Clear both textures to the baseline value, before the draw.
    pub clear_textures: bool,
    /// Index of the texture to bind read-only (sampled) this frame.
    pub read_index: usize,
    /// Index of the texture to bind write-only (storage) this frame.
    pub write_index: usize,
}

/// The decisions of one feedback render step: rebuild the pipeline if the
/// state is dirty or no pipeline exists yet (clearing the dirty flag), clear
/// both textures alongside any rebuild, and assign this frame's read and
/// write roles.
///
/// The returned plan never binds the same texture for reading and writing,
/// and after following it both textures are cleared, so a draw never reads
/// undefined content: on the very first step the absent pipeline forces a
/// rebuild, and with it the clear.
pub fn plan_frame(
    pair: &mut PingPongPair,
    cache: &mut PipelineCache,
    common: &mut ExampleCommonState,
) -> (plan: FramePlan)
    requires
        spec_pair_fits(old(pair)@, old(cache)@),
    ensures
        plan.rebuild == spec_needs_rebuild(old(common)@, old(cache)@),
        plan.clear_textures == plan.rebuild,
        (final(common)@, final(cache)@, plan.rebuild) == spec_prepare(old(common)@, old(cache)@),
        plan.read_index as nat == spec_roles(old(common)@.frame).0,
        plan.write_index as nat == spec_roles(old(common)@.frame).1,
        plan.read_index != plan.write_index,
        plan.read_index < 2 && plan.write_index < 2,
        final(pair)@.cleared == (old(pair)@.cleared || plan.clear_textures),
        final(pair)@.cleared,
        spec_pair_fits(final(pair)@, final(cache)@),
{
    let rebuild = cache.prepare_for_render(common);
    if rebuild {
        pair.cleared = true;
    }
    let (read_index, write_index) = roles(common.frame());
    FramePlan { rebuild, clear_textures: rebuild, read_index, write_index }
}

} // verus!
