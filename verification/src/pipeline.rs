//! The lazily rebuilt, dirty-invalidated pipeline cache.

use vstd::prelude::*;

use crate::state::CommonModel;
use crate::state::ExampleCommonState;
use crate::state::PolygonMode;

verus! {

/// The inputs a cached pipeline was built from.  The GPU layer keeps the
/// pipeline object itself; it rebuilds its object exactly when
/// [`PipelineCache::prepare_for_render`] reports a rebuild, so the object it
/// holds always corresponds to this fingerprint.
#[derive(Clone, Copy, PartialEq, Eq, Structural, Debug)]
pub struct PipelineFingerprint {
    pub shader_generation: u64,
    pub polygon_mode: PolygonMode,
}

/// Model of [`PipelineCache`]: nothing yet, or the fingerprint of the last
/// build.
pub struct CacheModel {
    pub built: Option<FingerprintModel>,
}

pub struct FingerprintModel {
    pub shader_generation: nat,
    pub polygon_mode: PolygonMode,
}

/// Zero or one constructed pipeline, owned by one demo.  The only
/// transitions are Absent -> Present and Present -> Present, both by
/// rebuilding at the start of a render step; nothing ever moves back to
/// Absent, since `mark_dirty` only forces the next step to rebuild.
pub struct PipelineCache {
    built: Option<PipelineFingerprint>,
}

impl View for PipelineCache {
    type V = CacheModel;

    closed spec fn view(&self) -> CacheModel {
        CacheModel {
            built: match self.built {
                Some(fp) => Some(
                    FingerprintModel {
                        shader_generation: fp.shader_generation as nat,
                        polygon_mode: fp.polygon_mode,
                    },
                ),
                None => None,
            },
        }
    }
}

/// An absent cache, as every demo starts out.
pub open spec fn spec_empty_cache() -> CacheModel {
    CacheModel { built: None }
}

/// A render step must rebuild exactly when the state is dirty or no
/// pipeline exists yet.
pub open spec fn spec_needs_rebuild(s: CommonModel, c: CacheModel) -> bool {
    s.dirty || c.built is None
}

/// What one render-step preparation does to state and cache: if a rebuild is
/// due, the cache takes the fingerprint of the current inputs; either way the
/// dirty flag is clear afterwards.
pub open spec fn spec_prepare(s: CommonModel, c: CacheModel) -> (CommonModel, CacheModel, bool) {
    let rebuild = spec_needs_rebuild(s, c);
    let c2 = if rebuild {
        CacheModel {
            built: Some(
                FingerprintModel {
                    shader_generation: s.shader_generation,
                    polygon_mode: s.polygon_mode,
                },
            ),
        }
    } else {
        c
    };
    (CommonModel { dirty: false, ..s }, c2, rebuild)
}

/// The cache is coherent with the state when a clear dirty flag vouches for
/// the cached pipeline: whenever a pipeline is present and the state is not
/// dirty, the pipeline was built from the current shader generation and fill
/// mode.  Every state mutation that changes a build input also sets the
/// dirty flag, so this holds at every point of the frame loop.
pub open spec fn spec_coherent(s: CommonModel, c: CacheModel) -> bool {
    c.built matches Some(fp) && !s.dirty ==> (
        c.built->Some_0.shader_generation == s.shader_generation
            && c.built->Some_0.polygon_mode == s.polygon_mode
    )
}

impl PipelineCache {
    /// A demo starts with no pipeline; the first render step builds one.
    pub fn new() -> (c: Self)
        ensures
            c@ == spec_empty_cache(),
    {
        PipelineCache { built: None }
    }

    /// Whether the next render step would rebuild.
    pub fn needs_rebuild(&self, common: &ExampleCommonState) -> (r: bool)
        ensures
            r == spec_needs_rebuild(common@, self@),
    {
        common.dirty || self.built.is_none()
    }

    /// The rebuild decision, evaluated exactly once at the start of a render
    /// step, before any draw command is issued.
    ///
    /// Returns whether the caller must (re)construct its pipeline object from
    /// the current shader module and fill mode.  When it returns true, the
    /// cache records the fingerprint of those inputs; in every case the dirty
    /// flag is clear afterwards, and the cached fingerprint equals the
    /// current inputs whenever the cache was coherent before the call, so a
    /// draw never uses a pipeline that is stale relative to a reloaded
    /// shader or a changed mode.
    pub fn prepare_for_render(&mut self, common: &mut ExampleCommonState) -> (rebuild: bool)
        ensures
            (final(common)@, final(self)@, rebuild) == spec_prepare(old(common)@, old(self)@),
            spec_coherent(old(common)@, old(self)@) ==> final(self)@.built == Some(
                FingerprintModel {
                    shader_generation: final(common)@.shader_generation,
                    polygon_mode: final(common)@.polygon_mode,
                },
            ),
    {
        let rebuild = common.dirty || self.built.is_none();
        if rebuild {
            self.built = Some(
                PipelineFingerprint {
                    shader_generation: common.shader_generation,
                    polygon_mode: common.polygon_mode,
                },
            );
            common.dirty = false;
        }
        rebuild
    }

    /// The fingerprint of the last build, if any.
    pub fn built(&self) -> (b: Option<PipelineFingerprint>)
        ensures
            b is Some <==> self@.built is Some,
            b matches Some(fp) ==> self@.built == Some(
                FingerprintModel {
                    shader_generation: fp.shader_generation as nat,
                    polygon_mode: fp.polygon_mode,
                },
            ),
    {
        self.built
    }
}

/// The dirty flag is clear immediately after any render-step preparation.
pub proof fn lemma_prepare_clears_dirty(s: CommonModel, c: CacheModel)
    ensures
        !spec_prepare(s, c).0.dirty,
{
}

/// A dirty state forces the render step to rebuild, and an absent cache
/// does too.
pub proof fn lemma_dirty_forces_rebuild(s: CommonModel, c: CacheModel)
    requires
        s.dirty || c.built is None,
    ensures
        spec_prepare(s, c).2,
{
}

/// Render-step preparation preserves coherence, and leaves the cache
/// matching the current build inputs, so the pipeline the following draw
/// uses is never stale relative to a reloaded shader or a changed mode.
pub proof fn lemma_prepare_preserves_coherence(s: CommonModel, c: CacheModel)
    requires
        spec_coherent(s, c),
    ensures
        spec_coherent(spec_prepare(s, c).0, spec_prepare(s, c).1),
        spec_prepare(s, c).1.built == Some(
            FingerprintModel {
                shader_generation: s.shader_generation,
                polygon_mode: s.polygon_mode,
            },
        ),
{
}

} // verus!
