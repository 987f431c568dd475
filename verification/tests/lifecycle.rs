use render_lifecycle::pipeline::PipelineCache;
use render_lifecycle::runner::FRAME_INTERVAL_NANOS;
use render_lifecycle::runner::KeyAction;
use render_lifecycle::runner::KeyPress;
use render_lifecycle::runner::handle_key;
use render_lifecycle::runner::instances_after_scroll;
use render_lifecycle::runner::max_sample_count;
use render_lifecycle::runner::next_example_index;
use render_lifecycle::runner::next_tick_deadline;
use render_lifecycle::runner::previous_example_index;
use render_lifecycle::state::ExampleCommonState;
use render_lifecycle::state::PolygonMode;

fn fresh_state() -> ExampleCommonState {
    ExampleCommonState::new(String::from("ex01.wgsl"), String::from("ex01"))
}

#[test]
fn first_render_builds_then_second_does_not() {
    let mut common = fresh_state();
    assert!(common.dirty);
    assert_eq!(common.frame, 0);

    let mut cache = PipelineCache::new();
    let rebuilt = cache.prepare_for_render(&mut common);
    assert!(rebuilt);
    assert!(!common.dirty);
    common.increase_frame();
    assert_eq!(common.frame, 1);

    let rebuilt_again = cache.prepare_for_render(&mut common);
    assert!(!rebuilt_again);
    assert!(!common.dirty);
}

#[test]
fn render_after_mark_dirty_rebuilds() {
    let mut common = fresh_state();
    let mut cache = PipelineCache::new();
    cache.prepare_for_render(&mut common);

    common.mark_dirty();
    assert!(common.dirty);
    let rebuilt = cache.prepare_for_render(&mut common);
    assert!(rebuilt);
    assert!(!common.dirty);
}

#[test]
fn mark_dirty_is_idempotent() {
    let mut common = fresh_state();
    common.mark_dirty();
    common.mark_dirty();
    assert!(common.dirty);
}

#[test]
fn rebuild_fingerprint_tracks_inputs() {
    let mut common = fresh_state();
    let mut cache = PipelineCache::new();
    cache.prepare_for_render(&mut common);
    let fp = cache.built().unwrap();
    assert_eq!(fp.shader_generation, 0);
    assert_eq!(fp.polygon_mode, PolygonMode::Fill);

    common.apply_reload();
    common.polygon_mode_down();
    cache.prepare_for_render(&mut common);
    let fp = cache.built().unwrap();
    assert_eq!(fp.shader_generation, 1);
    assert_eq!(fp.polygon_mode, PolygonMode::Line);
}

#[test]
fn apply_reload_bumps_generation_and_dirties() {
    let mut common = fresh_state();
    let mut cache = PipelineCache::new();
    cache.prepare_for_render(&mut common);
    assert!(!common.dirty);

    common.apply_reload();
    assert_eq!(common.shader_generation, 1);
    assert!(common.dirty);
}

#[test]
fn recreate_shader_alone_does_not_dirty() {
    let mut common = fresh_state();
    let mut cache = PipelineCache::new();
    cache.prepare_for_render(&mut common);

    common.recreate_shader();
    assert_eq!(common.shader_generation, 1);
    assert!(!common.dirty);
}

#[test]
fn increase_time_zero_is_identity() {
    let mut common = fresh_state();
    common.increase_time(125);
    common.increase_time(0);
    assert_eq!(common.time_nanos, 125);
}

#[test]
fn increase_time_accumulates() {
    let mut common = fresh_state();
    common.increase_time(16_666_667);
    common.increase_time(16_666_667);
    assert_eq!(common.time_nanos, 33_333_334);
}

// The fill-mode cycle clamps asymmetrically, matching the observed
// behaviour: moving up from `Fill` does nothing rather than wrapping.
#[test]
fn mode_up_clamps_at_fill() {
    let mut common = fresh_state();
    assert_eq!(common.polygon_mode, PolygonMode::Fill);
    common.polygon_mode_up();
    assert_eq!(common.polygon_mode, PolygonMode::Fill);
    // Even the clamped no-op press marks the state dirty.
    assert!(common.dirty);
}

#[test]
fn mode_down_clamps_at_point() {
    let mut common = fresh_state();
    common.polygon_mode_down();
    assert_eq!(common.polygon_mode, PolygonMode::Line);
    common.polygon_mode_down();
    assert_eq!(common.polygon_mode, PolygonMode::Point);
    common.polygon_mode_down();
    assert_eq!(common.polygon_mode, PolygonMode::Point);
}

#[test]
fn mode_cycle_down_then_up() {
    let mut common = fresh_state();
    common.polygon_mode_down();
    common.polygon_mode_down();
    common.polygon_mode_up();
    assert_eq!(common.polygon_mode, PolygonMode::Line);
    common.polygon_mode_up();
    assert_eq!(common.polygon_mode, PolygonMode::Fill);
}

#[test]
fn up_key_changes_mode_and_forwards() {
    let mut common = fresh_state();
    common.polygon_mode_down();
    let mut cache = PipelineCache::new();
    cache.prepare_for_render(&mut common);

    let action = handle_key(&mut common, KeyPress::Up);
    assert_eq!(action, KeyAction::Forward);
    assert_eq!(common.polygon_mode, PolygonMode::Fill);
    assert!(common.dirty);

    let action = handle_key(&mut common, KeyPress::S);
    assert_eq!(action, KeyAction::Forward);
    assert_eq!(common.polygon_mode, PolygonMode::Line);
}

#[test]
fn escape_exits_without_touching_state() {
    let mut common = fresh_state();
    let mut cache = PipelineCache::new();
    cache.prepare_for_render(&mut common);

    let action = handle_key(&mut common, KeyPress::Escape);
    assert_eq!(action, KeyAction::Exit);
    assert!(!common.dirty);
    assert_eq!(common.polygon_mode, PolygonMode::Fill);
}

#[test]
fn switch_keys_select_without_touching_state() {
    let mut common = fresh_state();
    assert_eq!(handle_key(&mut common, KeyPress::P), KeyAction::SelectPrevious);
    assert_eq!(handle_key(&mut common, KeyPress::N), KeyAction::SelectNext);
    assert_eq!(handle_key(&mut common, KeyPress::Other), KeyAction::Forward);
    assert_eq!(common.shader_generation, 0);
}

#[test]
fn example_index_navigation_clamps() {
    assert_eq!(previous_example_index(3), 2);
    assert_eq!(previous_example_index(0), 0);
    assert_eq!(next_example_index(3, 7), 4);
    assert_eq!(next_example_index(6, 7), 6);
}

#[test]
fn max_sample_count_picks_largest_supported() {
    assert_eq!(max_sample_count(true, true, true, true), 16);
    assert_eq!(max_sample_count(false, true, true, true), 8);
    assert_eq!(max_sample_count(false, false, true, true), 4);
    assert_eq!(max_sample_count(false, false, false, true), 2);
    assert_eq!(max_sample_count(false, false, false, false), 1);
}

#[test]
fn instance_count_scroll_clamps() {
    assert_eq!(instances_after_scroll(3, false), 3);
    assert_eq!(instances_after_scroll(4, false), 3);
    assert_eq!(instances_after_scroll(50, true), 51);
    assert_eq!(instances_after_scroll(99, true), 100);
    assert_eq!(instances_after_scroll(100, true), 100);
}

#[test]
fn tick_deadline_is_one_interval_later() {
    assert_eq!(next_tick_deadline(0), FRAME_INTERVAL_NANOS);
    assert_eq!(next_tick_deadline(1_000), 1_000 + FRAME_INTERVAL_NANOS);
    assert_eq!(next_tick_deadline(u64::MAX - 5), u64::MAX);
}
