use sb6::{handle_window_event, EventResponse, KeyAction, LoopAction, RunLoop, Stage, WindowEvent, KEY_ESCAPE};

/// Drives a run-loop against a stub that records the application callbacks,
/// raising the close flag once `frames` frames have been polled.
fn record_run(frames: usize) -> Vec<&'static str> {
    let mut calls: Vec<&'static str> = Vec::new();
    let mut rl = RunLoop::new();
    let mut close = frames == 0;
    let mut polled: usize = 0;
    let mut steps = 0;
    loop {
        steps += 1;
        assert!(steps < 1000, "run-loop did not terminate");
        match rl.next_action(close) {
            LoopAction::Startup => calls.push("startup"),
            LoopAction::Update => calls.push("update"),
            LoopAction::Render => calls.push("render"),
            LoopAction::Present => {}
            LoopAction::PollEvents => {
                polled += 1;
                if polled == frames {
                    close = true;
                }
            }
            LoopAction::Shutdown => calls.push("shutdown"),
            LoopAction::Exit => break,
        }
    }
    calls
}

#[test]
fn one_frame_then_close_records_startup_update_render_shutdown() {
    assert_eq!(record_run(1), vec!["startup", "update", "render", "shutdown"]);
}

#[test]
fn zero_frames_still_pairs_startup_and_shutdown() {
    assert_eq!(record_run(0), vec!["startup", "shutdown"]);
}

#[test]
fn three_frames_then_close() {
    assert_eq!(
        record_run(3),
        vec!["startup", "update", "render", "update", "render", "update", "render", "shutdown"]
    );
}

#[test]
fn escape_during_polling_ends_the_loop() {
    let mut rl = RunLoop::new();
    let mut close = false;
    let mut actions = Vec::new();
    loop {
        let a = rl.next_action(close);
        actions.push(a);
        match a {
            LoopAction::PollEvents => {
                let ev = WindowEvent::Key { key: KEY_ESCAPE, action: KeyAction::Press };
                if handle_window_event(ev) == EventResponse::RequestClose {
                    close = true;
                }
            }
            LoopAction::Exit => break,
            _ => {}
        }
    }
    assert_eq!(
        actions,
        vec![
            LoopAction::Startup,
            LoopAction::Update,
            LoopAction::Render,
            LoopAction::Present,
            LoopAction::PollEvents,
            LoopAction::Shutdown,
            LoopAction::Exit,
        ]
    );
}

#[test]
fn close_flag_is_ignored_before_startup_and_mid_frame() {
    let mut rl = RunLoop::new();
    assert_eq!(rl.stage(), Stage::Created);
    assert_eq!(rl.next_action(true), LoopAction::Startup);
    assert_eq!(rl.stage(), Stage::Running);
    assert_eq!(rl.next_action(false), LoopAction::Update);
    assert_eq!(rl.next_action(true), LoopAction::Render);
    assert_eq!(rl.next_action(true), LoopAction::Present);
    assert_eq!(rl.next_action(true), LoopAction::PollEvents);
    assert_eq!(rl.stage(), Stage::Running);
    assert_eq!(rl.next_action(true), LoopAction::Shutdown);
    assert_eq!(rl.stage(), Stage::Closed);
}

#[test]
fn nothing_but_exit_after_shutdown() {
    let mut rl = RunLoop::new();
    rl.next_action(false);
    assert_eq!(rl.next_action(true), LoopAction::Shutdown);
    for flag in [false, true, false, false, true] {
        assert_eq!(rl.next_action(flag), LoopAction::Exit);
        assert_eq!(rl.stage(), Stage::Closed);
    }
}

#[test]
fn startup_happens_once_and_first() {
    let flags = [true, false, false, false, false, false, false, false, false, true, true];
    let mut rl = RunLoop::new();
    let actions: Vec<LoopAction> = flags.iter().map(|f| rl.next_action(*f)).collect();
    assert_eq!(actions[0], LoopAction::Startup);
    assert_eq!(actions.iter().filter(|a| **a == LoopAction::Startup).count(), 1);
    assert_eq!(actions.iter().filter(|a| **a == LoopAction::Shutdown).count(), 1);
    for i in 0..actions.len() - 1 {
        assert_eq!(actions[i] == LoopAction::Update, actions[i + 1] == LoopAction::Render);
    }
}

#[test]
fn standing_close_request_closes_from_every_stage() {
    // i transitions without a close request reach each stage in turn
    for i in 0..6 {
        let mut rl = RunLoop::new();
        for _ in 0..i {
            rl.next_action(false);
        }
        for _ in 0..4 {
            rl.next_action(true);
        }
        assert_eq!(rl.stage(), Stage::Closed, "after {} open steps", i);
    }
}
