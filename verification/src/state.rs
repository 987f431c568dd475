//! The dirty-tracked common state every demo instance owns.

use vstd::prelude::*;

verus! {

/// How polygons are rasterized when a pipeline is built from this state.
#[derive(Clone, Copy, PartialEq, Eq, Structural, Debug)]
pub enum PolygonMode {
    Fill,
    Line,
    Point,
}

/// Mathematical model of [`ExampleCommonState`].
pub struct CommonModel {
    pub shader_generation: nat,
    pub shader_source: Seq<char>,
    pub label: Seq<char>,
    pub polygon_mode: PolygonMode,
    pub time_nanos: nat,
    pub frame: nat,
    pub dirty: bool,
}

/// State each demo keeps: its compiled shader's identity, fill mode, running
/// time, frame counter and a dirty flag.
///
/// The compiled shader module itself lives with the GPU layer.  Because a
/// reload replaces the module wholesale and never mutates it in place, a
/// generation number that grows by one with every reload identifies the
/// module currently in use; the GPU layer keeps the module belonging to the
/// latest generation.
pub struct ExampleCommonState {
    /// Identity of the compiled shader module currently in use.
    pub shader_generation: u64,
    /// Name of the shader source this demo (re)loads.
    pub shader_source: String,
    /// Short label naming the demo, used when labelling GPU objects.
    pub label: String,
    /// Fill mode consumed by the next pipeline build.
    pub polygon_mode: PolygonMode,
    /// Accumulated running time in nanoseconds; advances only while the demo
    /// is the active one.
    pub time_nanos: u64,
    /// Number of completed renders of this demo.
    pub frame: u64,
    /// True whenever the shader or the fill mode changed since the last
    /// pipeline build, and on first construction.
    pub dirty: bool,
}

impl View for ExampleCommonState {
    type V = CommonModel;

    open spec fn view(&self) -> CommonModel {
        CommonModel {
            shader_generation: self.shader_generation as nat,
            shader_source: self.shader_source@,
            label: self.label@,
            polygon_mode: self.polygon_mode,
            time_nanos: self.time_nanos as nat,
            frame: self.frame as nat,
            dirty: self.dirty,
        }
    }
}

/// The state a freshly constructed demo starts from: generation 0 of its
/// shader, fill mode, zero time, zero frames, and dirty, so that the first
/// render step is forced to build a pipeline.
pub open spec fn spec_new_state(shader_source: Seq<char>, label: Seq<char>) -> CommonModel {
    CommonModel {
        shader_generation: 0,
        shader_source: shader_source,
        label: label,
        polygon_mode: PolygonMode::Fill,
        time_nanos: 0,
        frame: 0,
        dirty: true,
    }
}

pub open spec fn spec_mark_dirty(s: CommonModel) -> CommonModel {
    CommonModel { dirty: true, ..s }
}

/// Replacing the compiled shader: the next generation takes over.
pub open spec fn spec_recreate_shader(s: CommonModel) -> CommonModel {
    CommonModel { shader_generation: s.shader_generation + 1, ..s }
}

/// A shader reload as the orchestrator applies it: the handle is replaced
/// and the state is marked dirty in the same step.
pub open spec fn spec_apply_reload(s: CommonModel) -> CommonModel {
    spec_mark_dirty(spec_recreate_shader(s))
}

pub open spec fn spec_increase_time(s: CommonModel, dt: nat) -> CommonModel {
    CommonModel { time_nanos: s.time_nanos + dt, ..s }
}

pub open spec fn spec_increase_frame(s: CommonModel) -> CommonModel {
    CommonModel { frame: s.frame + 1, ..s }
}

/// One step "up" through the fill modes.  The cycle clamps at `Fill`: moving
/// up from `Fill` leaves it unchanged rather than wrapping around.
pub open spec fn spec_mode_up(m: PolygonMode) -> PolygonMode {
    match m {
        PolygonMode::Fill => PolygonMode::Fill,
        PolygonMode::Line => PolygonMode::Fill,
        PolygonMode::Point => PolygonMode::Line,
    }
}

/// One step "down" through the fill modes, clamping at `Point`.
pub open spec fn spec_mode_down(m: PolygonMode) -> PolygonMode {
    match m {
        PolygonMode::Fill => PolygonMode::Line,
        PolygonMode::Line => PolygonMode::Point,
        PolygonMode::Point => PolygonMode::Point,
    }
}

/// Moving the fill mode up always marks the state dirty, even when the mode
/// was already at the clamped extreme and did not change.
pub open spec fn spec_polygon_mode_up(s: CommonModel) -> CommonModel {
    CommonModel { polygon_mode: spec_mode_up(s.polygon_mode), dirty: true, ..s }
}

/// Moving the fill mode down always marks the state dirty, even when the
/// mode was already at the clamped extreme and did not change.
pub open spec fn spec_polygon_mode_down(s: CommonModel) -> CommonModel {
    CommonModel { polygon_mode: spec_mode_down(s.polygon_mode), dirty: true, ..s }
}

impl ExampleCommonState {
    /// A fresh demo state.  The caller loads and compiles generation 0 of the
    /// named shader; construction starts dirty so that the first render step
    /// builds a pipeline before anything is drawn.
    pub fn new(shader_source: String, label: String) -> (s: Self)
        ensures
            s@ == spec_new_state(shader_source@, label@),
    {
        ExampleCommonState {
            shader_generation: 0,
            shader_source,
            label,
            polygon_mode: PolygonMode::Fill,
            time_nanos: 0,
            frame: 0,
            dirty: true,
        }
    }

    /// Force the next render step to rebuild the pipeline.  Idempotent.
    pub fn mark_dirty(&mut self)
        ensures
            final(self)@ == spec_mark_dirty(old(self)@),
    {
        self.dirty = true;
    }

    /// Replace the compiled shader by its next generation.  The caller must
    /// have compiled the new module successfully before calling this, so the
    /// handle is never left pointing at a failed build.
    ///
    /// This alone does not mark the state dirty; the orchestrator applies
    /// reloads through [`Self::apply_reload`], which does.
    pub fn recreate_shader(&mut self)
        requires
            old(self).shader_generation < u64::MAX,
        ensures
            final(self)@ == spec_recreate_shader(old(self)@),
    {
        self.shader_generation = self.shader_generation + 1;
    }

    /// A shader reload: replace the handle, then mark dirty, so the next
    /// render step rebuilds the pipeline against the new module.
    pub fn apply_reload(&mut self)
        requires
            old(self).shader_generation < u64::MAX,
        ensures
            final(self)@ == spec_apply_reload(old(self)@),
    {
        self.recreate_shader();
        self.mark_dirty();
    }

    /// Advance the running time by `dt` nanoseconds.  Advancing by zero
    /// leaves the state exactly as it was.
    pub fn increase_time(&mut self, dt: u64)
        requires
            old(self).time_nanos + dt <= u64::MAX,
        ensures
            final(self)@ == spec_increase_time(old(self)@, dt as nat),
            dt == 0 ==> final(self)@ == old(self)@,
    {
        self.time_nanos = self.time_nanos + dt;
    }

    /// Count one completed render of this demo.
    pub fn increase_frame(&mut self)
        requires
            old(self).frame < u64::MAX,
        ensures
            final(self)@ == spec_increase_frame(old(self)@),
    {
        self.frame = self.frame + 1;
    }

    /// The number of completed renders, consumed by the ping-pong role
    /// selection.
    pub fn frame(&self) -> (f: u64)
        ensures
            f as nat == self@.frame,
    {
        self.frame
    }

    /// Move the fill mode one step up (clamping at `Fill`) and mark dirty.
    pub fn polygon_mode_up(&mut self)
        ensures
            final(self)@ == spec_polygon_mode_up(old(self)@),
    {
        self.polygon_mode = match self.polygon_mode {
            PolygonMode::Fill => PolygonMode::Fill,
            PolygonMode::Line => PolygonMode::Fill,
            PolygonMode::Point => PolygonMode::Line,
        };
        self.dirty = true;
    }

    /// Move the fill mode one step down (clamping at `Point`) and mark dirty.
    pub fn polygon_mode_down(&mut self)
        ensures
            final(self)@ == spec_polygon_mode_down(old(self)@),
    {
        self.polygon_mode = match self.polygon_mode {
            PolygonMode::Fill => PolygonMode::Line,
            PolygonMode::Line => PolygonMode::Point,
            PolygonMode::Point => PolygonMode::Point,
        };
        self.dirty = true;
    }
}

} // verus!
