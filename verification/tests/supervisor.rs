use midnight2_core::supervisor::{LoopAction, PresentationLoop, ShutdownToken, SimulationLoop};

#[test]
fn token_starts_clear_and_latches() {
    let mut token = ShutdownToken::new();
    assert!(!token.should_shutdown());
    token.shutdown();
    assert!(token.should_shutdown());
    token.shutdown();
    assert!(token.should_shutdown());
}

#[test]
fn signal_during_frame_takes_effect_next_iteration() {
    // The flag is observed only at the top of an iteration: a frame that
    // already began runs to completion, and the next iteration shuts the
    // pipeline down instead of rendering.
    let mut token = ShutdownToken::new();
    let mut looper = PresentationLoop::new();

    let observed = token.should_shutdown();
    let action = looper.step(observed);
    assert_eq!(action, LoopAction::RenderFrame);

    // Signal arrives while the frame is in progress; the decision above
    // already stands and the frame is not aborted.
    token.shutdown();

    let observed = token.should_shutdown();
    let action = looper.step(observed);
    assert_eq!(action, LoopAction::ShutdownPipeline);
}

#[test]
fn presentation_loop_renders_until_signalled() {
    let mut looper = PresentationLoop::new();
    for _ in 0..5 {
        assert_eq!(looper.step(false), LoopAction::RenderFrame);
    }
    assert_eq!(looper.step(true), LoopAction::ShutdownPipeline);
}

#[test]
fn acquire_failure_finishes_the_loop() {
    let mut looper = PresentationLoop::new();
    assert_eq!(looper.step(false), LoopAction::RenderFrame);
    // The frame fails to acquire its surface image: the loop stops and
    // never decides another iteration.
    looper.stop_after_failure();
}

#[test]
fn simulation_loop_exits_on_signal() {
    let mut token = ShutdownToken::new();
    let mut looper = SimulationLoop::new();
    assert!(looper.step(token.should_shutdown()));
    assert!(looper.step(token.should_shutdown()));
    token.shutdown();
    assert!(!looper.step(token.should_shutdown()));
}
