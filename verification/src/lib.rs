//! Per-frame resource lifecycle and invalidation engine for a family of small
//! rendering demos.
//!
//! Each demo owns a [`state::ExampleCommonState`]: its accumulated running
//! time, frame counter, polygon fill mode, the identity of its compiled
//! shader, and a dirty flag.  A [`pipeline::PipelineCache`] lazily rebuilds a
//! graphics pipeline exactly when the dirty flag is set or no pipeline exists
//! yet, and clears the flag.  A [`pingpong::PingPongPair`] alternates the
//! read/write roles of two textures every frame.  The [`watcher`] module
//! decides which filesystem events force a shader reload, and [`runner`]
//! holds the frame orchestrator's decisions: key routing, demo selection,
//! frame pacing, and the laws that relate whole event sequences to rebuilds.
//!
//! Everything that talks to a GPU, a window or the filesystem lives outside
//! this crate; this crate computes every decision those layers act on.

pub mod pingpong;
pub mod pipeline;
pub mod runner;
pub mod state;
pub mod watcher;
