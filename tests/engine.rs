use present_loop::frame_loop::{
    AcquireOutcome, ChainState, ClearColor, Engine, Event, FatalError, Phase, RebuildOutcome,
    Step, Submission,
};
use present_loop::frame_sync::{FlushOutcome, FrameSync, FrameToken};
use present_loop::surface::{
    choose_config, recreate_config, Capabilities, ConfigError, Extent, SwapConfig,
};
use present_loop::targets::{build_render_targets, RenderTarget, Viewport};

fn caps() -> Capabilities {
    Capabilities {
        formats: vec![44, 50],
        alpha_modes: vec![1, 8],
        min_image_count: 2,
        max_image_count: Some(8),
        min_extent: Extent::new(1, 1),
        max_extent: Extent::new(4096, 4096),
    }
}

fn images(n: usize, w: u32, h: u32) -> Vec<Extent> {
    vec![Extent::new(w, h); n]
}

fn engine_at(w: u32, h: u32) -> Engine {
    let config = choose_config(&caps(), Extent::new(w, h)).unwrap();
    Engine::new(config, &images(config.image_count as usize, w, h)).unwrap()
}

const BLACK: ClearColor = ClearColor { r: 0, g: 0, b: 0, a: 255 };

#[test]
fn triangle() {
    let mut e = engine_at(800, 600);
    for _ in 0..3 {
        assert_eq!(e.handle_event(Event::RedrawEventsCleared), Step::RetireCompleted);
        assert_eq!(e.retired(Extent::new(800, 600)), Step::Acquire);
        let step = e.acquired(AcquireOutcome::Acquired { image_index: 1, suboptimal: false });
        assert!(matches!(step, Step::Submit(_)));
        assert_eq!(e.flushed(FlushOutcome::Flushed), Step::Wait);
    }
    assert_eq!(e.handle_event(Event::CloseRequested), Step::Exit(FrameToken::Pending));
    assert_eq!(e.phase, Phase::Exited);
}

#[test]
fn initial_build_at_800_by_600() {
    let config = choose_config(&caps(), Extent::new(800, 600)).unwrap();
    assert_eq!(
        config,
        SwapConfig { format: 44, image_count: 2, alpha: 1, extent: Extent::new(800, 600) }
    );
    let e = Engine::new(config, &images(2, 800, 600)).unwrap();
    assert_eq!(e.targets.len(), 2);
    assert_eq!(e.viewport, Viewport { width: 800, height: 600 });
    assert_eq!(e.chain_state(), ChainState::Valid);
    assert_eq!(e.sync.token, FrameToken::AlreadyComplete);
}

#[test]
fn choose_config_errors() {
    let mut c = caps();
    assert_eq!(
        choose_config(&c, Extent::new(0, 600)),
        Err(ConfigError::UnsupportedDimensions)
    );
    assert_eq!(
        choose_config(&c, Extent::new(800, 5000)),
        Err(ConfigError::UnsupportedDimensions)
    );
    c.alpha_modes.clear();
    assert_eq!(choose_config(&c, Extent::new(800, 600)), Err(ConfigError::NoAlphaMode));
    c.formats.clear();
    assert_eq!(choose_config(&c, Extent::new(800, 600)), Err(ConfigError::NoFormat));
}

#[test]
fn choose_config_at_the_bounds() {
    let c = caps();
    assert!(choose_config(&c, Extent::new(1, 1)).is_ok());
    assert!(choose_config(&c, Extent::new(4096, 4096)).is_ok());
    assert!(choose_config(&c, Extent::new(4097, 4096)).is_err());
}

#[test]
fn new_without_images_fails() {
    let config = choose_config(&caps(), Extent::new(800, 600)).unwrap();
    assert_eq!(Engine::new(config, &Vec::new()).err(), Some(FatalError::NoImages));
}

#[test]
fn rebuild_twice_keeps_count_and_format() {
    let config = choose_config(&caps(), Extent::new(800, 600)).unwrap();
    let once = recreate_config(config, Extent::new(640, 480));
    let twice = recreate_config(once, Extent::new(640, 480));
    assert_eq!(once, twice);
    assert_eq!(twice.image_count, 2);
    assert_eq!(twice.format, 44);
    assert_eq!(twice.extent, Extent::new(640, 480));
}

#[test]
fn viewport_follows_rebuilt_images() {
    let mut viewport = Viewport::empty();
    let targets = build_render_targets(&images(3, 1, 1), &mut viewport);
    assert_eq!(viewport, Viewport { width: 1, height: 1 });
    assert_eq!(targets.len(), 3);
    assert_eq!(targets[2], RenderTarget { image_index: 2, extent: Extent::new(1, 1) });

    let mut e = engine_at(800, 600);
    e.handle_event(Event::Resized(Extent::new(1024, 768)));
    e.handle_event(Event::RedrawEventsCleared);
    e.retired(Extent::new(1024, 768));
    assert_eq!(e.rebuilt(RebuildOutcome::Built(images(2, 1024, 768))), Step::Acquire);
    assert_eq!(e.viewport, Viewport { width: 1024, height: 768 });
    assert_eq!(e.config.extent, Extent::new(1024, 768));
    assert_eq!(e.chain_state(), ChainState::Valid);
}

#[test]
fn resize_burst_rebuilds_once_at_final_size() {
    let mut e = engine_at(800, 600);
    assert_eq!(e.handle_event(Event::Resized(Extent::new(0, 0))), Step::Wait);
    assert_eq!(e.handle_event(Event::Resized(Extent::new(400, 300))), Step::Wait);
    assert_eq!(e.chain_state(), ChainState::Stale);
    let mut rebuilds = 0;
    for _ in 0..2 {
        assert_eq!(e.handle_event(Event::RedrawEventsCleared), Step::RetireCompleted);
        let step = e.retired(Extent::new(400, 300));
        if let Step::Rebuild(config) = step {
            rebuilds += 1;
            assert_eq!(config.extent, Extent::new(400, 300));
            assert_eq!(e.chain_state(), ChainState::Rebuilding);
            assert_eq!(e.rebuilt(RebuildOutcome::Built(images(2, 400, 300))), Step::Acquire);
        } else {
            assert_eq!(step, Step::Acquire);
        }
        e.acquired(AcquireOutcome::Acquired { image_index: 0, suboptimal: false });
        e.flushed(FlushOutcome::Flushed);
    }
    assert_eq!(rebuilds, 1);
}

#[test]
fn out_of_date_acquire_skips_frame_then_rebuilds() {
    let mut e = engine_at(800, 600);
    e.handle_event(Event::RedrawEventsCleared);
    e.retired(Extent::new(800, 600));
    let token = e.sync.token;
    assert_eq!(e.acquired(AcquireOutcome::OutOfDate), Step::Wait);
    assert_eq!(e.chain_state(), ChainState::Stale);
    assert_eq!(e.phase, Phase::Idle);
    assert_eq!(e.sync.token, token);
    assert_eq!(e.handle_event(Event::RedrawEventsCleared), Step::RetireCompleted);
    assert!(matches!(e.retired(Extent::new(800, 600)), Step::Rebuild(_)));
}

#[test]
fn unsupported_rebuild_skips_frame() {
    let mut e = engine_at(800, 600);
    e.handle_event(Event::Resized(Extent::new(0, 0)));
    e.handle_event(Event::RedrawEventsCleared);
    e.retired(Extent::new(0, 0));
    assert_eq!(e.rebuilt(RebuildOutcome::UnsupportedDimensions), Step::Wait);
    assert_eq!(e.chain_state(), ChainState::Stale);
    assert_eq!(e.config.extent, Extent::new(800, 600));
    assert_eq!(e.viewport, Viewport { width: 800, height: 600 });
}

#[test]
fn close_mid_frame_finishes_the_frame_first() {
    let mut e = engine_at(800, 600);
    e.handle_event(Event::RedrawEventsCleared);
    e.retired(Extent::new(800, 600));
    let step = e.acquired(AcquireOutcome::Acquired { image_index: 1, suboptimal: false });
    assert_eq!(
        step,
        Step::Submit(Submission {
            image_index: 1,
            wait_on: FrameToken::AlreadyComplete,
            clear: BLACK
        })
    );
    assert_eq!(e.handle_event(Event::CloseRequested), Step::Wait);
    assert_eq!(e.phase, Phase::Submitting(1));
    assert_eq!(e.flushed(FlushOutcome::Flushed), Step::Exit(FrameToken::Pending));
    assert_eq!(e.phase, Phase::Exited);
    assert_eq!(e.handle_event(Event::RedrawEventsCleared), Step::Exit(FrameToken::Pending));
}

#[test]
fn close_between_frames_exits_at_once() {
    let mut e = engine_at(800, 600);
    assert_eq!(
        e.handle_event(Event::CloseRequested),
        Step::Exit(FrameToken::AlreadyComplete)
    );
    assert_eq!(e.phase, Phase::Exited);
}

#[test]
fn suboptimal_image_is_used_and_marks_stale() {
    let mut e = engine_at(800, 600);
    e.handle_event(Event::RedrawEventsCleared);
    e.retired(Extent::new(800, 600));
    let step = e.acquired(AcquireOutcome::Acquired { image_index: 0, suboptimal: true });
    assert!(matches!(step, Step::Submit(_)));
    assert_eq!(e.chain_state(), ChainState::Stale);
}

#[test]
fn submission_waits_on_previous_frame() {
    let mut e = engine_at(800, 600);
    e.handle_event(Event::RedrawEventsCleared);
    e.retired(Extent::new(800, 600));
    e.acquired(AcquireOutcome::Acquired { image_index: 0, suboptimal: false });
    e.flushed(FlushOutcome::Flushed);
    e.handle_event(Event::RedrawEventsCleared);
    e.retired(Extent::new(800, 600));
    let step = e.acquired(AcquireOutcome::Acquired { image_index: 1, suboptimal: false });
    assert_eq!(
        step,
        Step::Submit(Submission { image_index: 1, wait_on: FrameToken::Pending, clear: BLACK })
    );
}

#[test]
fn flush_failures_reset_the_token() {
    let mut e = engine_at(800, 600);
    e.handle_event(Event::RedrawEventsCleared);
    e.retired(Extent::new(800, 600));
    e.acquired(AcquireOutcome::Acquired { image_index: 0, suboptimal: false });
    assert_eq!(e.flushed(FlushOutcome::OutOfDate), Step::Wait);
    assert_eq!(e.sync.token, FrameToken::AlreadyComplete);
    assert_eq!(e.chain_state(), ChainState::Stale);

    let mut e = engine_at(800, 600);
    e.handle_event(Event::RedrawEventsCleared);
    e.retired(Extent::new(800, 600));
    e.acquired(AcquireOutcome::Acquired { image_index: 0, suboptimal: false });
    assert_eq!(e.flushed(FlushOutcome::Failed), Step::FrameDropped);
    assert_eq!(e.sync.token, FrameToken::AlreadyComplete);
    assert_eq!(e.chain_state(), ChainState::Valid);
}

#[test]
fn fatal_errors() {
    let mut e = engine_at(800, 600);
    e.handle_event(Event::RedrawEventsCleared);
    e.retired(Extent::new(800, 600));
    assert_eq!(
        e.acquired(AcquireOutcome::Acquired { image_index: 2, suboptimal: false }),
        Step::Fatal(FatalError::ImageIndexOutOfRange)
    );

    let mut e = engine_at(800, 600);
    e.handle_event(Event::RedrawEventsCleared);
    e.retired(Extent::new(800, 600));
    assert_eq!(e.acquired(AcquireOutcome::Failed), Step::Fatal(FatalError::AcquireFailed));

    let mut e = engine_at(800, 600);
    e.handle_event(Event::Resized(Extent::new(10, 10)));
    e.handle_event(Event::RedrawEventsCleared);
    e.retired(Extent::new(10, 10));
    assert_eq!(e.rebuilt(RebuildOutcome::Failed), Step::Fatal(FatalError::RebuildFailed));

    let mut e = engine_at(800, 600);
    e.handle_event(Event::Resized(Extent::new(10, 10)));
    e.handle_event(Event::RedrawEventsCleared);
    e.retired(Extent::new(10, 10));
    assert_eq!(
        e.rebuilt(RebuildOutcome::Built(Vec::new())),
        Step::Fatal(FatalError::NoImages)
    );
    assert_eq!(e.phase, Phase::Exited);
}

#[test]
fn frame_sync_replaces_token() {
    let mut s = FrameSync::new();
    assert_eq!(s.join_target(), FrameToken::AlreadyComplete);
    assert!(!s.complete_submission(FlushOutcome::Flushed));
    assert_eq!(s.join_target(), FrameToken::Pending);
    assert!(s.complete_submission(FlushOutcome::OutOfDate));
    assert_eq!(s.join_target(), FrameToken::AlreadyComplete);
}

#[test]
fn events_during_a_frame_do_not_start_another() {
    let mut e = engine_at(800, 600);
    e.handle_event(Event::RedrawEventsCleared);
    assert_eq!(e.handle_event(Event::RedrawEventsCleared), Step::Wait);
    assert_eq!(e.handle_event(Event::Other), Step::Wait);
    assert_eq!(e.phase, Phase::Retiring);
}

#[test]
fn two_stale_ticks_rebuild_with_same_count_and_format() {
    let mut e = engine_at(800, 600);
    let start = e.config;
    let mut asked = Vec::new();
    e.handle_event(Event::Resized(Extent::new(640, 480)));
    for _ in 0..2 {
        assert_eq!(e.handle_event(Event::RedrawEventsCleared), Step::RetireCompleted);
        match e.retired(Extent::new(640, 480)) {
            Step::Rebuild(config) => asked.push(config),
            other => panic!("expected a rebuild, got {:?}", other),
        }
        assert_eq!(e.rebuilt(RebuildOutcome::Built(images(2, 640, 480))), Step::Acquire);
        assert_eq!(e.acquired(AcquireOutcome::OutOfDate), Step::Wait);
    }
    assert_eq!(asked.len(), 2);
    assert_eq!(asked[0], asked[1]);
    assert_eq!(asked[0].image_count, start.image_count);
    assert_eq!(asked[0].format, start.format);
    assert_eq!(e.targets.len(), 2);
}
