use tuimodplayer::control::ModuleControl;
use tuimodplayer::engine::{
    apply_backend_event, compute_decode_status, repeat_count_for, samples_to_keep, BackendEvent,
    CurrentModuleState, ModuleCreationError, ModuleReadResult, SharedState,
};
use tuimodplayer::player::ModuleInfo;

fn info(title: &str) -> ModuleInfo {
    ModuleInfo::from_parts(Some(title.to_owned()), 4, 8, Vec::new(), Vec::new())
}

#[test]
fn reload_applies_the_most_recently_stored_control() {
    // UpdateControl then Reload: the loaded session observes the updated
    // record, not a stale one.
    let mut st: SharedState<u32> = SharedState::new(48000, ModuleControl::default());
    let mut c = ModuleControl::default();
    c.tempo_up();
    c.toggle_repeat();
    let apply_now = st.update_control(c);
    assert!(!apply_now); // nothing loaded yet

    let (ev, to_apply) = st.complete_reload(Some((7u32, info("t"))));
    match ev {
        BackendEvent::StartedPlaying { module_info } => assert_eq!(module_info.title, "t"),
        BackendEvent::PlayListExhausted => panic!("expected a started session"),
    }
    let applied = to_apply.expect("a loaded session gets the stored control");
    assert_eq!(applied.tempo.value(), 1);
    assert!(applied.repeat);
    match st.module {
        CurrentModuleState::Loaded { session } => assert_eq!(session, 7),
        _ => panic!("expected a loaded session"),
    }
}

#[test]
fn update_control_on_a_loaded_session_asks_to_apply() {
    let mut st: SharedState<u32> = SharedState::new(48000, ModuleControl::default());
    let _ = st.complete_reload(Some((1u32, info("x"))));
    let mut c = ModuleControl::default();
    c.gain_up();
    assert!(st.update_control(c));
}

#[test]
fn exhausted_playlist_is_announced_once_per_reload() {
    let mut st: SharedState<u32> = SharedState::new(48000, ModuleControl::default());
    let (ev, to_apply) = st.complete_reload(None);
    assert!(matches!(ev, BackendEvent::PlayListExhausted));
    assert!(to_apply.is_none());
    assert!(matches!(st.module, CurrentModuleState::Exhausted));
}

#[test]
fn contended_renderer_keeps_no_samples() {
    // The callback finding the lock held elsewhere zeroes the whole
    // buffer and returns at once.
    assert_eq!(samples_to_keep(&ModuleReadResult::WouldBlock), 0);
    assert_eq!(samples_to_keep(&ModuleReadResult::NotLoaded), 0);
    assert_eq!(samples_to_keep(&ModuleReadResult::Exhausted), 0);
    assert_eq!(
        samples_to_keep(&ModuleReadResult::Read { frames: 128, elapsed_ns: 5 }),
        256
    );
}

#[test]
fn zero_frame_read_ends_the_track() {
    let mut st: SharedState<u32> = SharedState::new(48000, ModuleControl::default());
    let _ = st.complete_reload(Some((1u32, info("x"))));
    let ended = st.note_read(0);
    assert!(ended);
    assert!(matches!(st.module, CurrentModuleState::NotLoaded));
}

#[test]
fn progress_keeps_the_session_loaded() {
    // With repeat on, a looping decoder keeps yielding frames and the
    // session is never torn down.
    let mut st: SharedState<u32> = SharedState::new(48000, ModuleControl::default());
    let mut c = ModuleControl::default();
    c.toggle_repeat();
    let _ = st.update_control(c);
    let _ = st.complete_reload(Some((1u32, info("x"))));
    for _ in 0..10 {
        let ended = st.note_read(512);
        assert!(!ended);
        assert!(matches!(st.module, CurrentModuleState::Loaded { .. }));
    }
}

#[test]
fn repeat_count_is_infinite_only_with_the_flag() {
    let mut c = ModuleControl::default();
    assert_eq!(repeat_count_for(&c), 0);
    c.toggle_repeat();
    assert_eq!(repeat_count_for(&c), -1);
}

#[test]
fn decode_status_is_exact_in_parts_per_million() {
    // 1 ms to render 480 frames at 48 kHz: 10% of realtime.
    let s = compute_decode_status(960, 480, 1_000_000, 48000);
    assert_eq!(s.buffer_samples, 960);
    assert_eq!(s.decode_time_ns, 1_000_000);
    assert_eq!(s.cpu_util_ppm, 100_000);

    let idle = compute_decode_status(960, 0, 1_000_000, 48000);
    assert_eq!(idle.cpu_util_ppm, 0);

    let slow = compute_decode_status(960, 480, 20_000_000, 48000);
    assert_eq!(slow.cpu_util_ppm, 2_000_000); // twice realtime
}

#[test]
fn backend_events_replace_or_clear_the_playing_state() {
    let mut current: Option<ModuleInfo> = None;
    apply_backend_event(
        &mut current,
        BackendEvent::StartedPlaying { module_info: info("a") },
    );
    assert_eq!(current.as_ref().unwrap().title, "a");
    apply_backend_event(&mut current, BackendEvent::PlayListExhausted);
    assert!(current.is_none());
}

#[test]
fn module_creation_error_names_the_decoder() {
    let e = ModuleCreationError;
    assert_eq!(e.message(), "the module decoder failed to open the module");
}

#[test]
fn sample_rate_is_kept() {
    let st: SharedState<u32> = SharedState::new(44100, ModuleControl::default());
    assert_eq!(st.sample_rate(), 44100);
}

#[test]
fn renderer_under_a_held_lock_returns_an_all_zero_buffer() {
    // The shared lock is held elsewhere (here: by this test); the
    // callback's non-blocking attempt fails at once, it keeps nothing,
    // zeroes the whole buffer and returns — it never waits and never
    // panics.
    let m = std::sync::Mutex::new(SharedState::<u32>::new(48000, ModuleControl::default()));
    let _guard = m.lock().unwrap();
    let result = match m.try_lock() {
        Err(_) => ModuleReadResult::WouldBlock,
        Ok(_) => panic!("the lock was supposed to be held elsewhere"),
    };
    let mut buffer = vec![1.0f32; 256];
    let keep = samples_to_keep(&result);
    assert_eq!(keep, 0);
    for sample in buffer[keep..].iter_mut() {
        *sample = 0.0;
    }
    assert!(buffer.iter().all(|s| *s == 0.0));
}
