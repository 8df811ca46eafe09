use vstd::prelude::*;

use crate::keyboard_controller::StopPoll;

verus! {

/// Wait between two rounds of presses, in seconds.
pub const ROUND_WAIT_SECONDS: u64 = 120;

/// Number of key presses in one round.
pub const PRESSES_PER_ROUND: u32 = 2;

/// The character whose virtual key is pressed (`S`), as the keyboard-layout lookup takes it.
pub const KEY_CHAR: i8 = 83;

/// Where the older keyboard input loop stands.
#[derive(Clone, Copy, Debug, PartialEq, Eq, Structural)]
pub enum InputPhase {
    /// Waiting for the result of a look at the stop channel.
    Polling,
    /// Waiting for the virtual key of the key character; `done` presses of this round are behind.
    Scanning { done: u32 },
    /// Waiting for the scan code of virtual key `vk`.
    Mapping { done: u32, vk: u8 },
    /// Waiting for a press (or, when `press` is `None`, a failure report) to complete.
    Pressing { done: u32, press: Option<KeyStroke> },
    /// Waiting for the wait between rounds to end.
    Resting,
    /// The loop has ended.
    Stopped,
}

/// A key to press: its virtual key and scan code.
#[derive(Clone, Copy, Debug, PartialEq, Eq, Structural)]
pub struct KeyStroke {
    pub vk: u8,
    pub scan: u8,
}

/// What the thread reports back after carrying out an action.
#[derive(Clone, Copy, Debug, PartialEq, Eq, Structural)]
pub enum InputEvent {
    /// The stop channel was looked at, with this outcome.
    Polled(StopPoll),
    /// The keyboard layout gave this virtual-key word for the key character.
    Scanned(i16),
    /// The keyboard layout gave this scan code for the virtual key.
    Mapped(u32),
    /// A press, a failure report or a wait is complete.
    Finished,
}

/// What the thread is to do next.
#[derive(Clone, Copy, Debug, PartialEq, Eq, Structural)]
pub enum InputAction {
    /// Look at the stop channel without blocking.
    PollStop,
    /// Look up the virtual key of character `ch` in the keyboard layout.
    ScanKey { ch: i8 },
    /// Look up the scan code of virtual key `key`.
    MapKey { key: u32 },
    /// Press and release virtual key `vk` with scan code `scan`.
    Press { vk: u8, scan: u8 },
    /// The scan code did not fit in a byte: report it and skip this press.
    ReportMapFailure,
    /// Wait `seconds` seconds before the next round.
    Rest { seconds: u64 },
    /// Leave the loop.
    Exit,
}

/// The virtual key in the low byte of a layout lookup result.
pub open spec fn virtual_key(word: i16) -> u8 {
    (word & 0xff) as u8
}

/// The action that a phase is waiting to see completed.
pub open spec fn awaited_input_action(phase: InputPhase) -> InputAction {
    match phase {
        InputPhase::Polling => InputAction::PollStop,
        InputPhase::Scanning { .. } => InputAction::ScanKey { ch: KEY_CHAR },
        InputPhase::Mapping { vk, .. } => InputAction::MapKey { key: vk as u32 },
        InputPhase::Pressing { press, .. } => match press {
            Some(stroke) => InputAction::Press { vk: stroke.vk, scan: stroke.scan },
            None => InputAction::ReportMapFailure,
        },
        InputPhase::Resting => InputAction::Rest { seconds: ROUND_WAIT_SECONDS },
        InputPhase::Stopped => InputAction::Exit,
    }
}

/// One step of the older keyboard input loop: the loop ends only when the stop
/// signal is received; otherwise each round looks up and presses the key of
/// `S` `PRESSES_PER_ROUND` times (skipping a press whose scan code does not
/// fit in a byte), then waits `ROUND_WAIT_SECONDS`. An event that does not
/// answer the awaited action leaves the phase as it is.
pub open spec fn input_step(phase: InputPhase, event: InputEvent) -> (InputPhase, InputAction) {
    match (phase, event) {
        (InputPhase::Stopped, _) => (InputPhase::Stopped, InputAction::Exit),
        (InputPhase::Polling, InputEvent::Polled(StopPoll::Stop)) => (InputPhase::Stopped, InputAction::Exit),
        (InputPhase::Polling, InputEvent::Polled(_)) => (
            InputPhase::Scanning { done: 0 },
            InputAction::ScanKey { ch: KEY_CHAR },
        ),
        (InputPhase::Scanning { done }, InputEvent::Scanned(word)) => (
            InputPhase::Mapping { done, vk: virtual_key(word) },
            InputAction::MapKey { key: virtual_key(word) as u32 },
        ),
        (InputPhase::Mapping { done, vk }, InputEvent::Mapped(scan)) => if scan <= 255 {
            (
                InputPhase::Pressing { done, press: Some(KeyStroke { vk, scan: scan as u8 }) },
                InputAction::Press { vk, scan: scan as u8 },
            )
        } else {
            (InputPhase::Pressing { done, press: None }, InputAction::ReportMapFailure)
        },
        (InputPhase::Pressing { done, .. }, InputEvent::Finished) => if done + 1 < PRESSES_PER_ROUND {
            (InputPhase::Scanning { done: (done + 1) as u32 }, InputAction::ScanKey { ch: KEY_CHAR })
        } else {
            (InputPhase::Resting, InputAction::Rest { seconds: ROUND_WAIT_SECONDS })
        },
        (InputPhase::Resting, InputEvent::Finished) => (InputPhase::Polling, InputAction::PollStop),
        (p, _) => (p, awaited_input_action(p)),
    }
}

/// A phase that the loop can reach: a round never counts more presses than it makes.
pub open spec fn input_phase_wf(phase: InputPhase) -> bool {
    match phase {
        InputPhase::Scanning { done } => done < PRESSES_PER_ROUND,
        InputPhase::Mapping { done, .. } => done < PRESSES_PER_ROUND,
        InputPhase::Pressing { done, .. } => done < PRESSES_PER_ROUND,
        _ => true,
    }
}

/// The virtual key in the low byte of a layout lookup result.
pub fn virtual_key_of(word: i16) -> (vk: u8)
    ensures
        vk == virtual_key(word),
{
    let masked: i16 = word & 0xff;
    assert(0 <= masked <= 255) by (bit_vector)
        requires
            masked == word & 0xff,
    ;
    masked as u8
}

/// The decisions of the older keyboard input thread, from one event to the next action.
pub struct InputLoop {
    pub phase: InputPhase,
}

impl InputLoop {
    /// A loop that starts by looking at the stop channel.
    pub fn new() -> (lp: Self)
        ensures
            lp.phase == InputPhase::Polling,
    {
        InputLoop { phase: InputPhase::Polling }
    }

    /// The action the loop is waiting to see completed.
    pub fn current_action(&self) -> (action: InputAction)
        ensures
            action == awaited_input_action(self.phase),
    {
        match self.phase {
            InputPhase::Polling => InputAction::PollStop,
            InputPhase::Scanning { .. } => InputAction::ScanKey { ch: KEY_CHAR },
            InputPhase::Mapping { vk, .. } => InputAction::MapKey { key: vk as u32 },
            InputPhase::Pressing { press, .. } => match press {
                Some(stroke) => InputAction::Press { vk: stroke.vk, scan: stroke.scan },
                None => InputAction::ReportMapFailure,
            },
            InputPhase::Resting => InputAction::Rest { seconds: ROUND_WAIT_SECONDS },
            InputPhase::Stopped => InputAction::Exit,
        }
    }

    /// Takes the outcome of the last action and returns the next one.
    pub fn step(&mut self, event: InputEvent) -> (action: InputAction)
        ensures
            (final(self).phase, action) == input_step(old(self).phase, event),
            input_phase_wf(old(self).phase) ==> input_phase_wf(final(self).phase),
    {
        match (self.phase, event) {
            (InputPhase::Stopped, _) => InputAction::Exit,
            (InputPhase::Polling, InputEvent::Polled(StopPoll::Stop)) => {
                self.phase = InputPhase::Stopped;
                InputAction::Exit
            },
            (InputPhase::Polling, InputEvent::Polled(_)) => {
                self.phase = InputPhase::Scanning { done: 0 };
                InputAction::ScanKey { ch: KEY_CHAR }
            },
            (InputPhase::Scanning { done }, InputEvent::Scanned(word)) => {
                let vk = virtual_key_of(word);
                self.phase = InputPhase::Mapping { done, vk };
                InputAction::MapKey { key: vk as u32 }
            },
            (InputPhase::Mapping { done, vk }, InputEvent::Mapped(scan)) => {
                if scan <= 255 {
                    let scan_byte = scan as u8;
                    self.phase = InputPhase::Pressing { done, press: Some(KeyStroke { vk, scan: scan_byte }) };
                    InputAction::Press { vk, scan: scan_byte }
                } else {
                    self.phase = InputPhase::Pressing { done, press: None };
                    InputAction::ReportMapFailure
                }
            },
            (InputPhase::Pressing { done, .. }, InputEvent::Finished) => {
                if done < PRESSES_PER_ROUND - 1 {
                    self.phase = InputPhase::Scanning { done: done + 1 };
                    InputAction::ScanKey { ch: KEY_CHAR }
                } else {
                    self.phase = InputPhase::Resting;
                    InputAction::Rest { seconds: ROUND_WAIT_SECONDS }
                }
            },
            (InputPhase::Resting, InputEvent::Finished) => {
                self.phase = InputPhase::Polling;
                InputAction::PollStop
            },
            _ => self.current_action(),
        }
    }
}

/// The loop ends only on the stop signal, and an ended loop stays ended;
/// a scan code that does not fit in a byte skips one press but never ends the loop.
pub proof fn lemma_input_stops_only_on_signal(phase: InputPhase, event: InputEvent)
    ensures
        (input_step(phase, event).0 == InputPhase::Stopped) == (phase == InputPhase::Stopped || (phase
            == InputPhase::Polling && event == InputEvent::Polled(StopPoll::Stop))),
        (input_step(phase, event).1 == InputAction::Exit) == (input_step(phase, event).0 == InputPhase::Stopped),
        input_phase_wf(phase) ==> input_phase_wf(input_step(phase, event).0),
{
}

/// A failed scan-code conversion is reported and that press is skipped: the
/// round goes on with the next press, or with the wait after the last one.
pub proof fn lemma_failed_mapping_skips_press(done: u32, vk: u8, scan: u32)
    requires
        done < PRESSES_PER_ROUND,
        scan > 255,
    ensures
        input_step(InputPhase::Mapping { done, vk }, InputEvent::Mapped(scan)) == (
            InputPhase::Pressing { done, press: None },
            InputAction::ReportMapFailure,
        ),
        input_step(InputPhase::Pressing { done, press: None }, InputEvent::Finished).1 == (if done + 1
            < PRESSES_PER_ROUND {
            InputAction::ScanKey { ch: KEY_CHAR }
        } else {
            InputAction::Rest { seconds: ROUND_WAIT_SECONDS }
        }),
{
}

/// The phases and actions of the loop after a sequence of events.
pub open spec fn input_run(phase: InputPhase, events: Seq<InputEvent>) -> (InputPhase, Seq<InputAction>)
    decreases events.len(),
{
    if events.len() == 0 {
        (phase, Seq::empty())
    } else {
        let (next, action) = input_step(phase, events[0]);
        let (last, rest) = input_run(next, events.drop_first());
        (last, seq![action] + rest)
    }
}

/// A run follows a trace whose every step is a step of the loop.
proof fn lemma_input_trace(phases: Seq<InputPhase>, events: Seq<InputEvent>, actions: Seq<InputAction>, k: int)
    requires
        0 <= k <= events.len(),
        actions.len() == events.len(),
        phases.len() == events.len() + 1,
        forall|j: int| 0 <= j < events.len() ==> input_step(phases[j], #[trigger] events[j]) == (phases[j + 1], actions[j]),
    ensures
        input_run(phases[k], events.subrange(k, events.len() as int)) == (
            phases[events.len() as int],
            actions.subrange(k, actions.len() as int),
        ),
    decreases events.len() - k,
{
    let n = events.len() as int;
    if k < n {
        lemma_input_trace(phases, events, actions, k + 1);
        assert(events.subrange(k, n).drop_first() =~= events.subrange(k + 1, n));
        assert(events.subrange(k, n)[0] == events[k]);
        assert(seq![actions[k]] + actions.subrange(k + 1, n) =~= actions.subrange(k, n));
    } else {
        assert(actions.subrange(k, n) =~= Seq::<InputAction>::empty());
    }
}

/// One round: when the stop channel holds no signal and the layout gives a
/// scan code that fits in a byte, the loop looks up and presses the key of `S`
/// twice, then waits `ROUND_WAIT_SECONDS`, then looks at the stop channel again.
pub proof fn lemma_input_round(poll: StopPoll, word: i16, scan: u32)
    requires
        poll != StopPoll::Stop,
        scan <= 255,
    ensures
        ({
            let vk = virtual_key(word);
            let events = seq![
                InputEvent::Polled(poll),
                InputEvent::Scanned(word),
                InputEvent::Mapped(scan),
                InputEvent::Finished,
                InputEvent::Scanned(word),
                InputEvent::Mapped(scan),
                InputEvent::Finished,
                InputEvent::Finished,
            ];
            input_run(InputPhase::Polling, events) == (
                InputPhase::Polling,
                seq![
                    InputAction::ScanKey { ch: KEY_CHAR },
                    InputAction::MapKey { key: vk as u32 },
                    InputAction::Press { vk, scan: scan as u8 },
                    InputAction::ScanKey { ch: KEY_CHAR },
                    InputAction::MapKey { key: vk as u32 },
                    InputAction::Press { vk, scan: scan as u8 },
                    InputAction::Rest { seconds: ROUND_WAIT_SECONDS },
                    InputAction::PollStop,
                ],
            )
        }),
{
    let vk = virtual_key(word);
    let events = seq![
        InputEvent::Polled(poll),
        InputEvent::Scanned(word),
        InputEvent::Mapped(scan),
        InputEvent::Finished,
        InputEvent::Scanned(word),
        InputEvent::Mapped(scan),
        InputEvent::Finished,
        InputEvent::Finished,
    ];
    let phases = seq![
        InputPhase::Polling,
        InputPhase::Scanning { done: 0 },
        InputPhase::Mapping { done: 0, vk },
        InputPhase::Pressing { done: 0, press: Some(KeyStroke { vk, scan: scan as u8 }) },
        InputPhase::Scanning { done: 1 },
        InputPhase::Mapping { done: 1, vk },
        InputPhase::Pressing { done: 1, press: Some(KeyStroke { vk, scan: scan as u8 }) },
        InputPhase::Resting,
        InputPhase::Polling,
    ];
    let actions = seq![
        InputAction::ScanKey { ch: KEY_CHAR },
        InputAction::MapKey { key: vk as u32 },
        InputAction::Press { vk, scan: scan as u8 },
        InputAction::ScanKey { ch: KEY_CHAR },
        InputAction::MapKey { key: vk as u32 },
        InputAction::Press { vk, scan: scan as u8 },
        InputAction::Rest { seconds: ROUND_WAIT_SECONDS },
        InputAction::PollStop,
    ];
    assert forall|j: int| 0 <= j < 8 implies input_step(phases[j], #[trigger] events[j]) == (phases[j + 1], actions[j]) by {
    }
    lemma_input_trace(phases, events, actions, 0);
    assert(events.subrange(0, 8) =~= events);
    assert(actions.subrange(0, 8) =~= actions);
}

/// The event that answers the awaited action once the stop signal waits in
/// the channel, when the keyboard layout gives `word` for the key character
/// and `scan` for its virtual key.
pub open spec fn input_answer_after_stop(phase: InputPhase, word: i16, scan: u32) -> InputEvent {
    match phase {
        InputPhase::Polling => InputEvent::Polled(StopPoll::Stop),
        InputPhase::Scanning { .. } => InputEvent::Scanned(word),
        InputPhase::Mapping { .. } => InputEvent::Mapped(scan),
        _ => InputEvent::Finished,
    }
}

/// The presses of a round still ahead after press number `done` (from 0).
pub open spec fn presses_ahead(done: u32) -> nat {
    if done + 1 < PRESSES_PER_ROUND {
        (PRESSES_PER_ROUND - 1 - done) as nat
    } else {
        0
    }
}

/// The steps left until the loop ends once the stop signal waits in the channel.
pub open spec fn input_steps_to_stop(phase: InputPhase) -> nat {
    match phase {
        InputPhase::Stopped => 0,
        InputPhase::Polling => 1,
        InputPhase::Resting => 2,
        InputPhase::Pressing { done, .. } => 3 + 3 * presses_ahead(done),
        InputPhase::Mapping { done, .. } => 4 + 3 * presses_ahead(done),
        InputPhase::Scanning { done } => 5 + 3 * presses_ahead(done),
    }
}

/// The key presses made and the milliseconds waited from `phase` until the
/// loop ends, when the stop signal waits in the channel.
pub open spec fn input_run_after_stop(phase: InputPhase, word: i16, scan: u32) -> (nat, nat)
    decreases input_steps_to_stop(phase),
{
    if phase is Stopped {
        (0, 0)
    } else {
        let action = awaited_input_action(phase);
        let rest = input_run_after_stop(input_step(phase, input_answer_after_stop(phase, word, scan)).0, word, scan);
        (
            rest.0 + if action is Press {
                1nat
            } else {
                0nat
            },
            rest.1 + match action {
                InputAction::Rest { seconds } => seconds as nat * 1000,
                _ => 0nat,
            },
        )
    }
}

/// Once stopped, the older thread exits within one round, whatever the
/// keyboard layout answers: at most `PRESSES_PER_ROUND` more presses and at
/// most one wait of `ROUND_WAIT_SECONDS`.
pub proof fn lemma_input_stop_latency(phase: InputPhase, word: i16, scan: u32)
    requires
        input_phase_wf(phase),
    ensures
        input_run_after_stop(phase, word, scan).0 <= PRESSES_PER_ROUND,
        input_run_after_stop(phase, word, scan).1 <= ROUND_WAIT_SECONDS * 1000,
{
    let vk = virtual_key(word);
    let p = if scan <= 255 {
        1nat
    } else {
        0nat
    };
    assert(input_run_after_stop(InputPhase::Stopped, word, scan) == (0nat, 0nat));
    assert(input_run_after_stop(InputPhase::Polling, word, scan) == (0nat, 0nat));
    assert(input_run_after_stop(InputPhase::Resting, word, scan) == (0nat, 120000nat));
    let last_press = input_step(InputPhase::Mapping { done: 1, vk }, InputEvent::Mapped(scan)).0;
    assert(input_step(last_press, InputEvent::Finished).0 == InputPhase::Resting);
    assert(input_run_after_stop(last_press, word, scan) == (p, 120000nat));
    assert(input_run_after_stop(InputPhase::Mapping { done: 1, vk }, word, scan) == (p, 120000nat));
    assert(input_run_after_stop(InputPhase::Scanning { done: 1 }, word, scan) == (p, 120000nat));
    let first_press = input_step(InputPhase::Mapping { done: 0, vk }, InputEvent::Mapped(scan)).0;
    assert(input_run_after_stop(first_press, word, scan) == (2 * p, 120000nat));
    assert(input_run_after_stop(InputPhase::Mapping { done: 0, vk }, word, scan) == (2 * p, 120000nat));
    match phase {
        InputPhase::Pressing { done, press } => {
            assert(input_run_after_stop(InputPhase::Pressing { done: 1, press }, word, scan) == (if press is Some {
                1nat
            } else {
                0nat
            }, 120000nat));
            assert(input_run_after_stop(InputPhase::Pressing { done: 0, press }, word, scan).1 == 120000);
        },
        InputPhase::Mapping { done, vk: other } => {
            let p1 = input_step(InputPhase::Mapping { done: 1, vk: other }, InputEvent::Mapped(scan)).0;
            assert(input_step(p1, InputEvent::Finished).0 == InputPhase::Resting);
            assert(input_run_after_stop(p1, word, scan) == (p, 120000nat));
            let p0 = input_step(InputPhase::Mapping { done: 0, vk: other }, InputEvent::Mapped(scan)).0;
            assert(input_run_after_stop(p0, word, scan) == (2 * p, 120000nat));
        },
        _ => {},
    }
}

} // verus!

pub use crate::keyboard_controller::stop_keyboard_input;
