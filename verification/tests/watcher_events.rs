use render_lifecycle::pipeline::PipelineCache;
use render_lifecycle::state::ExampleCommonState;
use render_lifecycle::watcher::WatchEventKind;
use render_lifecycle::watcher::WatcherEvent;
use render_lifecycle::watcher::apply_watch_events;
use render_lifecycle::watcher::is_actionable;
use render_lifecycle::watcher::is_shader_path;

fn event(kind: WatchEventKind, path: &[u8]) -> WatcherEvent {
    WatcherEvent { kind, paths: vec![path.to_vec()] }
}

fn rendered_state() -> (ExampleCommonState, PipelineCache) {
    let mut common = ExampleCommonState::new(String::from("ex07.wgsl"), String::from("ex07"));
    let mut cache = PipelineCache::new();
    cache.prepare_for_render(&mut common);
    (common, cache)
}

#[test]
fn modify_wgsl_event_is_actionable() {
    assert!(is_actionable(&event(WatchEventKind::Modify, b"src/ex01.wgsl")));
}

#[test]
fn create_and_remove_events_are_not_actionable() {
    assert!(!is_actionable(&event(WatchEventKind::Create, b"src/ex01.wgsl")));
    assert!(!is_actionable(&event(WatchEventKind::Remove, b"src/ex01.wgsl")));
    assert!(!is_actionable(&event(WatchEventKind::Other, b"src/ex01.wgsl")));
}

#[test]
fn other_extensions_are_not_actionable() {
    assert!(!is_actionable(&event(WatchEventKind::Modify, b"src/main.rs")));
    assert!(!is_actionable(&event(WatchEventKind::Modify, b"src/ex01.wgslx")));
    assert!(!is_actionable(&event(WatchEventKind::Modify, b"wgsl")));
}

#[test]
fn hidden_file_named_after_extension_is_not_actionable() {
    // `.wgsl` as a whole file name is a hidden file, not an extension.
    assert!(!is_shader_path(b".wgsl"));
    assert!(!is_shader_path(b"src/.wgsl"));
    assert!(is_shader_path(b"src/a.wgsl"));
    assert!(is_shader_path(b"a.b.wgsl"));
}

#[test]
fn any_path_of_the_event_may_match() {
    let ev = WatcherEvent {
        kind: WatchEventKind::Modify,
        paths: vec![b"notes.txt".to_vec(), b"src/ex03.wgsl".to_vec()],
    };
    assert!(is_actionable(&ev));

    let ev = WatcherEvent { kind: WatchEventKind::Modify, paths: vec![] };
    assert!(!is_actionable(&ev));
}

#[test]
fn modify_event_dirties_clean_state_and_same_tick_render_rebuilds() {
    let (mut common, mut cache) = rendered_state();
    assert!(!common.dirty);

    let events = vec![event(WatchEventKind::Modify, b"src/ex07.wgsl")];
    let n = apply_watch_events(&mut common, &events);
    assert_eq!(n, 1);
    assert!(common.dirty);
    assert_eq!(common.shader_generation, 1);

    let rebuilt = cache.prepare_for_render(&mut common);
    assert!(rebuilt);
    assert!(!common.dirty);
}

#[test]
fn double_event_in_one_batch_rebuilds_once() {
    let (mut common, mut cache) = rendered_state();

    // Two change records for the same file in one drained batch.
    let events = vec![
        event(WatchEventKind::Modify, b"src/ex07.wgsl"),
        event(WatchEventKind::Modify, b"src/ex07.wgsl"),
    ];
    let n = apply_watch_events(&mut common, &events);
    assert_eq!(n, 2);

    let rebuilt = cache.prepare_for_render(&mut common);
    assert!(rebuilt);
    common.increase_frame();

    // The very next render step performs no second rebuild.
    let rebuilt_again = cache.prepare_for_render(&mut common);
    assert!(!rebuilt_again);
}

#[test]
fn inactionable_batch_leaves_state_untouched() {
    let (mut common, mut cache) = rendered_state();

    let events = vec![
        event(WatchEventKind::Create, b"src/ex07.wgsl"),
        event(WatchEventKind::Modify, b"src/trace.txt"),
    ];
    let n = apply_watch_events(&mut common, &events);
    assert_eq!(n, 0);
    assert!(!common.dirty);
    assert_eq!(common.shader_generation, 0);

    let rebuilt = cache.prepare_for_render(&mut common);
    assert!(!rebuilt);
}

#[test]
fn empty_batch_is_a_no_op() {
    let (mut common, _cache) = rendered_state();
    let n = apply_watch_events(&mut common, &Vec::new());
    assert_eq!(n, 0);
    assert!(!common.dirty);
}
