use key_monitor::keyboard_controller::{
    keyboard_thread_name, stop_keyboard_input, KeyPressAction, KeyPressEvent, KeyPressLoop, KeyPressPhase,
    StopPoll, KEY_PRESS_INTERVAL_MS, LOOP_WAIT_SECONDS, PRESSES_PER_LOOP,
};
use key_monitor::keyboard_input::{
    virtual_key_of, InputAction, InputEvent, InputLoop, InputPhase, KEY_CHAR, ROUND_WAIT_SECONDS,
};

#[test]
fn stop_keyboard_input_sends_the_signal() {
    let (tx, rx) = std::sync::mpsc::channel::<()>();
    stop_keyboard_input(tx);
    assert_eq!(rx.try_recv(), Ok(()));
}

#[test]
fn stop_keyboard_input_ignores_a_gone_thread() {
    let (tx, rx) = std::sync::mpsc::channel::<()>();
    drop(rx);
    stop_keyboard_input(tx);
}

#[test]
fn older_stop_keyboard_input_sends_the_signal() {
    let (tx, rx) = std::sync::mpsc::channel::<()>();
    key_monitor::keyboard_input::stop_keyboard_input(tx);
    assert!(rx.try_recv().is_ok());
}

#[test]
fn constants() {
    assert_eq!(KEY_PRESS_INTERVAL_MS, 500);
    assert_eq!(LOOP_WAIT_SECONDS, 120);
    assert_eq!(PRESSES_PER_LOOP, 2);
}

#[test]
fn one_round_presses_twice_then_rests() {
    let mut lp = KeyPressLoop::new();
    assert_eq!(lp.current_action(), KeyPressAction::PollStop);
    let press = KeyPressAction::PressNumLock { pause_ms: 500 };
    assert_eq!(lp.step(KeyPressEvent::Polled(StopPoll::Empty)), press);
    assert_eq!(lp.step(KeyPressEvent::Finished), press);
    assert_eq!(lp.step(KeyPressEvent::Finished), KeyPressAction::Rest { seconds: 120, presses: 2 });
    assert_eq!(lp.step(KeyPressEvent::Finished), KeyPressAction::PollStop);
    assert_eq!(lp.phase, KeyPressPhase::Polling);
}

#[test]
fn stop_signal_ends_the_loop_for_good() {
    let mut lp = KeyPressLoop::new();
    assert_eq!(lp.step(KeyPressEvent::Polled(StopPoll::Stop)), KeyPressAction::Exit);
    assert_eq!(lp.phase, KeyPressPhase::Stopped);
    assert_eq!(lp.step(KeyPressEvent::Polled(StopPoll::Empty)), KeyPressAction::Exit);
    assert_eq!(lp.step(KeyPressEvent::Finished), KeyPressAction::Exit);
}

#[test]
fn disconnected_channel_does_not_stop() {
    let mut lp = KeyPressLoop::new();
    assert_eq!(
        lp.step(KeyPressEvent::Polled(StopPoll::Disconnected)),
        KeyPressAction::PressNumLock { pause_ms: 500 }
    );
    assert_eq!(lp.phase, KeyPressPhase::Pressing { done: 0 });
}

#[test]
fn mismatched_event_repeats_awaited_action() {
    let mut lp = KeyPressLoop::new();
    assert_eq!(lp.step(KeyPressEvent::Finished), KeyPressAction::PollStop);
    lp.step(KeyPressEvent::Polled(StopPoll::Empty));
    assert_eq!(lp.step(KeyPressEvent::Polled(StopPoll::Stop)), KeyPressAction::PressNumLock { pause_ms: 500 });
    assert_eq!(lp.phase, KeyPressPhase::Pressing { done: 0 });
}

#[test]
fn thread_names_are_numbered() {
    assert_eq!(keyboard_thread_name(0), "KeyboardInputThread-0");
    assert_eq!(keyboard_thread_name(42), "KeyboardInputThread-42");
    assert_ne!(keyboard_thread_name(1), keyboard_thread_name(10));
}

#[test]
fn virtual_key_takes_low_byte() {
    assert_eq!(virtual_key_of(0x0153), 0x53);
    assert_eq!(virtual_key_of(-1), 0xff);
    assert_eq!(virtual_key_of(0), 0);
}

#[test]
fn older_loop_round() {
    let mut lp = InputLoop::new();
    assert_eq!(lp.current_action(), InputAction::PollStop);
    assert_eq!(lp.step(InputEvent::Polled(StopPoll::Empty)), InputAction::ScanKey { ch: KEY_CHAR });
    assert_eq!(KEY_CHAR, b'S' as i8);
    assert_eq!(lp.step(InputEvent::Scanned(0x0153)), InputAction::MapKey { key: 0x53 });
    assert_eq!(lp.step(InputEvent::Mapped(0x1f)), InputAction::Press { vk: 0x53, scan: 0x1f });
    assert_eq!(lp.step(InputEvent::Finished), InputAction::ScanKey { ch: KEY_CHAR });
    assert_eq!(lp.step(InputEvent::Scanned(0x53)), InputAction::MapKey { key: 0x53 });
    assert_eq!(lp.step(InputEvent::Mapped(300)), InputAction::ReportMapFailure);
    assert_eq!(lp.step(InputEvent::Finished), InputAction::Rest { seconds: ROUND_WAIT_SECONDS });
    assert_eq!(lp.step(InputEvent::Finished), InputAction::PollStop);
    assert_eq!(lp.phase, InputPhase::Polling);
    assert_eq!(lp.step(InputEvent::Polled(StopPoll::Stop)), InputAction::Exit);
    assert_eq!(lp.phase, InputPhase::Stopped);
    assert_eq!(lp.step(InputEvent::Finished), InputAction::Exit);
}

#[test]
fn stop_during_first_press_exits_within_one_round() {
    let mut lp = KeyPressLoop::new();
    let mut action = lp.step(KeyPressEvent::Polled(StopPoll::Empty));
    let mut presses = 0u64;
    let mut millis = 0u64;
    loop {
        let event = match action {
            KeyPressAction::PollStop => KeyPressEvent::Polled(StopPoll::Stop),
            KeyPressAction::PressNumLock { pause_ms } => {
                presses += 1;
                millis += pause_ms;
                KeyPressEvent::Finished
            }
            KeyPressAction::Rest { seconds, .. } => {
                millis += seconds * 1000;
                KeyPressEvent::Finished
            }
            KeyPressAction::Exit => break,
        };
        action = lp.step(event);
    }
    assert_eq!(presses, 2);
    assert_eq!(millis, 121_000);
}

#[test]
fn presses_are_even_at_every_poll() {
    let mut lp = KeyPressLoop::new();
    let mut action = lp.current_action();
    let mut presses = 0u32;
    let mut polls = 0u32;
    loop {
        let event = match action {
            KeyPressAction::PollStop => {
                assert_eq!(presses % 2, 0);
                polls += 1;
                KeyPressEvent::Polled(if polls > 3 { StopPoll::Stop } else { StopPoll::Disconnected })
            }
            KeyPressAction::PressNumLock { .. } => {
                presses += 1;
                KeyPressEvent::Finished
            }
            KeyPressAction::Rest { .. } => KeyPressEvent::Finished,
            KeyPressAction::Exit => break,
        };
        action = lp.step(event);
    }
    assert_eq!(presses, 6);
}
