use vstd::prelude::*;
use vstd::string::StringExecFns;

use crate::text::{decimal, lemma_decimal_injective, push_decimal};

verus! {

#[verifier::external_type_specification]
#[verifier::external_body]
#[verifier::reject_recursive_types(T)]
pub struct ExSender<T>(std::sync::mpsc::Sender<T>);

/// Calls `Sender::send` with the unit stop signal and reports whether it was
/// delivered. Trusted only to make the call: whether the receiving thread is
/// still alive, and so what comes back, is left unsaid.
#[verifier::external_body]
fn send_stop_signal(sender: &std::sync::mpsc::Sender<()>) -> (delivered: bool) {
    sender.send(()).is_ok()
}

/// Stops a keyboard input thread: sends it the stop signal; a thread that is
/// already gone is ignored.
pub fn stop_keyboard_input(sender: std::sync::mpsc::Sender<()>) {
    let _ = send_stop_signal(&sender);
}

/// Pause after each NumLock press, in milliseconds.
pub const KEY_PRESS_INTERVAL_MS: u64 = 500;

/// Wait between two rounds of presses, in seconds.
pub const LOOP_WAIT_SECONDS: u64 = 120;

/// Number of NumLock presses in one round.
pub const PRESSES_PER_LOOP: u32 = 2;

/// What a non-blocking look at the stop channel found.
#[derive(Clone, Copy, Debug, PartialEq, Eq, Structural)]
pub enum StopPoll {
    /// The stop signal was received.
    Stop,
    /// Nothing has been sent.
    Empty,
    /// The sending side is gone.
    Disconnected,
}

/// Where the keyboard input loop stands.
#[derive(Clone, Copy, Debug, PartialEq, Eq, Structural)]
pub enum KeyPressPhase {
    /// Waiting for the result of a look at the stop channel.
    Polling,
    /// Waiting for a press to complete; `done` presses of this round are complete before it.
    Pressing { done: u32 },
    /// Waiting for the wait between rounds to end.
    Resting,
    /// The loop has ended.
    Stopped,
}

/// What the thread reports back after carrying out an action.
#[derive(Clone, Copy, Debug, PartialEq, Eq, Structural)]
pub enum KeyPressEvent {
    /// The stop channel was looked at, with this outcome.
    Polled(StopPoll),
    /// A press or a wait is complete.
    Finished,
}

/// What the thread is to do next.
#[derive(Clone, Copy, Debug, PartialEq, Eq, Structural)]
pub enum KeyPressAction {
    /// Look at the stop channel without blocking.
    PollStop,
    /// Press and release NumLock, then pause for `pause_ms` milliseconds.
    PressNumLock { pause_ms: u64 },
    /// A round of `presses` presses is complete; wait `seconds` seconds.
    Rest { seconds: u64, presses: u32 },
    /// Leave the loop.
    Exit,
}

/// The action that a phase is waiting to see completed.
pub open spec fn awaited_action(phase: KeyPressPhase) -> KeyPressAction {
    match phase {
        KeyPressPhase::Polling => KeyPressAction::PollStop,
        KeyPressPhase::Pressing { .. } => KeyPressAction::PressNumLock { pause_ms: KEY_PRESS_INTERVAL_MS },
        KeyPressPhase::Resting => KeyPressAction::Rest { seconds: LOOP_WAIT_SECONDS, presses: PRESSES_PER_LOOP },
        KeyPressPhase::Stopped => KeyPressAction::Exit,
    }
}

/// One step of the keyboard input loop: the loop ends only when the stop
/// signal is received; otherwise each round presses NumLock `PRESSES_PER_LOOP`
/// times, waits `LOOP_WAIT_SECONDS`, and looks at the stop channel again.
/// An event that does not answer the awaited action leaves the phase as it is.
pub open spec fn key_press_step(phase: KeyPressPhase, event: KeyPressEvent) -> (KeyPressPhase, KeyPressAction) {
    match (phase, event) {
        (KeyPressPhase::Stopped, _) => (KeyPressPhase::Stopped, KeyPressAction::Exit),
        (KeyPressPhase::Polling, KeyPressEvent::Polled(StopPoll::Stop)) => (KeyPressPhase::Stopped, KeyPressAction::Exit),
        (KeyPressPhase::Polling, KeyPressEvent::Polled(_)) => (
            KeyPressPhase::Pressing { done: 0 },
            KeyPressAction::PressNumLock { pause_ms: KEY_PRESS_INTERVAL_MS },
        ),
        (KeyPressPhase::Pressing { done }, KeyPressEvent::Finished) => if done + 1 < PRESSES_PER_LOOP {
            (
                KeyPressPhase::Pressing { done: (done + 1) as u32 },
                KeyPressAction::PressNumLock { pause_ms: KEY_PRESS_INTERVAL_MS },
            )
        } else {
            (
                KeyPressPhase::Resting,
                KeyPressAction::Rest { seconds: LOOP_WAIT_SECONDS, presses: PRESSES_PER_LOOP },
            )
        },
        (KeyPressPhase::Resting, KeyPressEvent::Finished) => (KeyPressPhase::Polling, KeyPressAction::PollStop),
        (p, _) => (p, awaited_action(p)),
    }
}

/// A phase that the loop can reach: a round never counts more presses than it makes.
pub open spec fn key_press_phase_wf(phase: KeyPressPhase) -> bool {
    match phase {
        KeyPressPhase::Pressing { done } => done < PRESSES_PER_LOOP,
        _ => true,
    }
}

/// The decisions of a keyboard input thread, from one event to the next action.
pub struct KeyPressLoop {
    pub phase: KeyPressPhase,
}

impl KeyPressLoop {
    /// A loop that starts by looking at the stop channel.
    pub fn new() -> (lp: Self)
        ensures
            lp.phase == KeyPressPhase::Polling,
    {
        KeyPressLoop { phase: KeyPressPhase::Polling }
    }

    /// The action the loop is waiting to see completed.
    pub fn current_action(&self) -> (action: KeyPressAction)
        ensures
            action == awaited_action(self.phase),
    {
        match self.phase {
            KeyPressPhase::Polling => KeyPressAction::PollStop,
            KeyPressPhase::Pressing { .. } => KeyPressAction::PressNumLock { pause_ms: KEY_PRESS_INTERVAL_MS },
            KeyPressPhase::Resting => KeyPressAction::Rest { seconds: LOOP_WAIT_SECONDS, presses: PRESSES_PER_LOOP },
            KeyPressPhase::Stopped => KeyPressAction::Exit,
        }
    }

    /// Takes the outcome of the last action and returns the next one.
    pub fn step(&mut self, event: KeyPressEvent) -> (action: KeyPressAction)
        ensures
            (final(self).phase, action) == key_press_step(old(self).phase, event),
            key_press_phase_wf(old(self).phase) ==> key_press_phase_wf(final(self).phase),
    {
        match (self.phase, event) {
            (KeyPressPhase::Stopped, _) => KeyPressAction::Exit,
            (KeyPressPhase::Polling, KeyPressEvent::Polled(StopPoll::Stop)) => {
                self.phase = KeyPressPhase::Stopped;
                KeyPressAction::Exit
            },
            (KeyPressPhase::Polling, KeyPressEvent::Polled(_)) => {
                self.phase = KeyPressPhase::Pressing { done: 0 };
                KeyPressAction::PressNumLock { pause_ms: KEY_PRESS_INTERVAL_MS }
            },
            (KeyPressPhase::Pressing { done }, KeyPressEvent::Finished) => {
                if done < PRESSES_PER_LOOP - 1 {
                    self.phase = KeyPressPhase::Pressing { done: done + 1 };
                    KeyPressAction::PressNumLock { pause_ms: KEY_PRESS_INTERVAL_MS }
                } else {
                    self.phase = KeyPressPhase::Resting;
                    KeyPressAction::Rest { seconds: LOOP_WAIT_SECONDS, presses: PRESSES_PER_LOOP }
                }
            },
            (KeyPressPhase::Resting, KeyPressEvent::Finished) => {
                self.phase = KeyPressPhase::Polling;
                KeyPressAction::PollStop
            },
            _ => self.current_action(),
        }
    }
}

/// The phases and actions of the loop after a sequence of events.
pub open spec fn key_press_run(phase: KeyPressPhase, events: Seq<KeyPressEvent>) -> (KeyPressPhase, Seq<KeyPressAction>)
    decreases events.len(),
{
    if events.len() == 0 {
        (phase, Seq::empty())
    } else {
        let (next, action) = key_press_step(phase, events[0]);
        let (last, rest) = key_press_run(next, events.drop_first());
        (last, seq![action] + rest)
    }
}

/// The loop ends only on the stop signal: a step ends it exactly when the
/// stop channel was looked at and held the signal, and an ended loop stays
/// ended. A disconnected channel does not end it.
pub proof fn lemma_stops_only_on_signal(phase: KeyPressPhase, event: KeyPressEvent)
    ensures
        (key_press_step(phase, event).0 == KeyPressPhase::Stopped) == (phase == KeyPressPhase::Stopped || (
        phase == KeyPressPhase::Polling && event == KeyPressEvent::Polled(StopPoll::Stop))),
        (key_press_step(phase, event).1 == KeyPressAction::Exit) == (key_press_step(phase, event).0
            == KeyPressPhase::Stopped),
        key_press_phase_wf(phase) ==> key_press_phase_wf(key_press_step(phase, event).0),
{
}

/// One round: when the stop channel holds no signal, the loop presses NumLock
/// `PRESSES_PER_LOOP` times (pausing after each), then waits
/// `LOOP_WAIT_SECONDS`, then looks at the stop channel again.
pub proof fn lemma_round(poll: StopPoll)
    requires
        poll != StopPoll::Stop,
    ensures
        key_press_run(
            KeyPressPhase::Polling,
            seq![KeyPressEvent::Polled(poll), KeyPressEvent::Finished, KeyPressEvent::Finished, KeyPressEvent::Finished],
        ) == (
            KeyPressPhase::Polling,
            seq![
                KeyPressAction::PressNumLock { pause_ms: KEY_PRESS_INTERVAL_MS },
                KeyPressAction::PressNumLock { pause_ms: KEY_PRESS_INTERVAL_MS },
                KeyPressAction::Rest { seconds: LOOP_WAIT_SECONDS, presses: PRESSES_PER_LOOP },
                KeyPressAction::PollStop,
            ],
        ),
{
    let press = KeyPressAction::PressNumLock { pause_ms: KEY_PRESS_INTERVAL_MS };
    let rest = KeyPressAction::Rest { seconds: LOOP_WAIT_SECONDS, presses: PRESSES_PER_LOOP };
    let f = KeyPressEvent::Finished;
    let e4 = seq![f, f, f];
    let events = seq![KeyPressEvent::Polled(poll)] + e4;
    assert(events =~= seq![KeyPressEvent::Polled(poll), f, f, f]);
    assert(e4.drop_first() =~= seq![f, f]);
    assert(seq![f, f].drop_first() =~= seq![f]);
    assert(seq![f].drop_first() =~= Seq::<KeyPressEvent>::empty());
    assert(events.drop_first() =~= e4);
    let r4 = key_press_run(KeyPressPhase::Polling, seq![f].drop_first());
    assert(r4.0 == KeyPressPhase::Polling && r4.1 =~= Seq::<KeyPressAction>::empty());
    let r3 = key_press_run(KeyPressPhase::Resting, seq![f]);
    assert(r3.0 == KeyPressPhase::Polling && r3.1 =~= seq![KeyPressAction::PollStop]);
    let r2 = key_press_run(KeyPressPhase::Pressing { done: 1 }, seq![f, f]);
    assert(r2.0 == KeyPressPhase::Polling && r2.1 =~= seq![rest, KeyPressAction::PollStop]);
    let r1 = key_press_run(KeyPressPhase::Pressing { done: 0 }, e4);
    assert(r1.0 == KeyPressPhase::Polling && r1.1 =~= seq![press, rest, KeyPressAction::PollStop]);
    let r0 = key_press_run(KeyPressPhase::Polling, events);
    assert(r0.1 =~= seq![press, press, rest, KeyPressAction::PollStop]);
}

/// The event that answers the awaited action once the stop signal waits in
/// the channel: a look at the channel finds it; a press or a wait completes.
pub open spec fn answer_after_stop(phase: KeyPressPhase) -> KeyPressEvent {
    match phase {
        KeyPressPhase::Polling => KeyPressEvent::Polled(StopPoll::Stop),
        _ => KeyPressEvent::Finished,
    }
}

/// How long an action keeps the thread busy, in milliseconds.
pub open spec fn action_millis(action: KeyPressAction) -> nat {
    match action {
        KeyPressAction::PressNumLock { pause_ms } => pause_ms as nat,
        KeyPressAction::Rest { seconds, .. } => seconds as nat * 1000,
        _ => 0,
    }
}

/// 1 for a NumLock press, 0 for any other action.
pub open spec fn press_of(action: KeyPressAction) -> nat {
    if action is PressNumLock {
        1
    } else {
        0
    }
}

/// The steps left until the loop ends once the stop signal waits in the channel.
pub open spec fn steps_to_stop(phase: KeyPressPhase) -> nat {
    match phase {
        KeyPressPhase::Stopped => 0,
        KeyPressPhase::Polling => 1,
        KeyPressPhase::Resting => 2,
        KeyPressPhase::Pressing { done } => 3 + if done < PRESSES_PER_LOOP {
            (PRESSES_PER_LOOP - done) as nat
        } else {
            0
        },
    }
}

/// The NumLock presses made and the milliseconds spent from `phase` until the
/// loop ends, when the stop signal waits in the channel: the awaited action
/// is carried out, answered, and so on until `Exit`.
pub open spec fn run_after_stop(phase: KeyPressPhase) -> (nat, nat)
    decreases steps_to_stop(phase),
{
    if phase is Stopped {
        (0, 0)
    } else {
        let action = awaited_action(phase);
        let rest = run_after_stop(key_press_step(phase, answer_after_stop(phase)).0);
        (rest.0 + press_of(action), rest.1 + action_millis(action))
    }
}

/// Once stopped, a keyboard input thread exits within one round: from any
/// phase it can be in when the stop signal is sent, it makes at most
/// `PRESSES_PER_LOOP` more presses and spends at most `LOOP_WAIT_SECONDS`
/// plus one pause per press before it exits.
pub proof fn lemma_stop_latency(phase: KeyPressPhase)
    requires
        key_press_phase_wf(phase),
    ensures
        run_after_stop(phase).0 <= PRESSES_PER_LOOP,
        run_after_stop(phase).1 <= LOOP_WAIT_SECONDS * 1000 + PRESSES_PER_LOOP * KEY_PRESS_INTERVAL_MS,
{
    assert(run_after_stop(KeyPressPhase::Stopped) == (0nat, 0nat));
    assert(run_after_stop(KeyPressPhase::Polling) == (0nat, 0nat));
    assert(run_after_stop(KeyPressPhase::Resting) == (0nat, 120000nat));
    assert(run_after_stop(KeyPressPhase::Pressing { done: 1 }) == (1nat, 120500nat));
    assert(run_after_stop(KeyPressPhase::Pressing { done: 0 }) == (2nat, 121000nat));
}

/// The number of NumLock presses among `actions`.
pub open spec fn press_count(actions: Seq<KeyPressAction>) -> nat
    decreases actions.len(),
{
    if actions.len() == 0 {
        0
    } else {
        press_of(actions[0]) + press_count(actions.drop_first())
    }
}

/// `event` reports the outcome of carrying out `action`.
pub open spec fn answers(action: KeyPressAction, event: KeyPressEvent) -> bool {
    match action {
        KeyPressAction::PollStop => event is Polled,
        KeyPressAction::PressNumLock { .. } => event == KeyPressEvent::Finished,
        KeyPressAction::Rest { .. } => event == KeyPressEvent::Finished,
        KeyPressAction::Exit => false,
    }
}

/// Every event of `events` reports the outcome of the action the loop awaits
/// at that point, as the thread that drives the loop reports them.
pub open spec fn answering_run(phase: KeyPressPhase, events: Seq<KeyPressEvent>) -> bool
    decreases events.len(),
{
    if events.len() == 0 {
        true
    } else {
        &&& answers(awaited_action(phase), events[0])
        &&& answering_run(key_press_step(phase, events[0]).0, events.drop_first())
    }
}

/// `count` NumLock presses made so far agree with `phase`: a whole number of
/// rounds, plus the presses of the current round while pressing.
pub open spec fn presses_agree(phase: KeyPressPhase, count: nat) -> bool {
    match phase {
        KeyPressPhase::Pressing { done } => done < PRESSES_PER_LOOP && count % 2 == (done + 1) % 2,
        _ => count % 2 == 0,
    }
}

/// The action a step returns is the one the new phase awaits.
proof fn lemma_step_awaits(phase: KeyPressPhase, event: KeyPressEvent)
    ensures
        key_press_step(phase, event).1 == awaited_action(key_press_step(phase, event).0),
{
}

/// Counting along a run in which every event answers its action, every look
/// at the stop channel and the exit come after an even number of presses.
proof fn lemma_even_presses_at_polls(phase: KeyPressPhase, count: nat, events: Seq<KeyPressEvent>)
    requires
        presses_agree(phase, count),
        answering_run(phase, events),
    ensures
        forall|k: int|
            0 <= k < key_press_run(phase, events).1.len() && (key_press_run(phase, events).1[k]
                == KeyPressAction::PollStop || key_press_run(phase, events).1[k] == KeyPressAction::Exit) ==> (count
                + press_count(#[trigger] key_press_run(phase, events).1.take(k + 1))) % 2 == 0,
    decreases events.len(),
{
    if events.len() > 0 {
        let (next, action) = key_press_step(phase, events[0]);
        let rest = key_press_run(next, events.drop_first()).1;
        let acts = key_press_run(phase, events).1;
        lemma_step_awaits(phase, events[0]);
        assert(presses_agree(next, count + press_of(action)));
        lemma_even_presses_at_polls(next, count + press_of(action), events.drop_first());
        assert(acts == seq![action] + rest);
        assert forall|k: int|
            0 <= k < acts.len() && (acts[k] == KeyPressAction::PollStop || acts[k] == KeyPressAction::Exit) implies (
            count + press_count(#[trigger] acts.take(k + 1))) % 2 == 0 by {
            assert(acts.take(k + 1)[0] == action);
            assert(acts.take(k + 1).drop_first() =~= rest.take(k));
            if k == 0 {
                assert(rest.take(0).len() == 0);
            } else {
                assert(rest[k - 1] == acts[k]);
                assert(rest.take(k) == rest.take((k - 1) + 1));
            }
        }
    }
}

/// NumLock is never left toggled: in a run of the loop from its start, every
/// look at the stop channel and the exit come after an even number of
/// presses (each round presses `PRESSES_PER_LOOP`, that is two, times).
pub proof fn lemma_numlock_restored_at_polls(events: Seq<KeyPressEvent>)
    requires
        answering_run(KeyPressPhase::Polling, events),
    ensures
        forall|k: int|
            0 <= k < key_press_run(KeyPressPhase::Polling, events).1.len() && (key_press_run(
                KeyPressPhase::Polling,
                events,
            ).1[k] == KeyPressAction::PollStop || key_press_run(KeyPressPhase::Polling, events).1[k]
                == KeyPressAction::Exit) ==> press_count(
                #[trigger] key_press_run(KeyPressPhase::Polling, events).1.take(k + 1),
            ) % 2 == 0,
{
    lemma_even_presses_at_polls(KeyPressPhase::Polling, 0, events);
}

/// The prefix of the name of every keyboard input thread.
pub open spec fn thread_name_prefix() -> Seq<char> {
    seq!['K', 'e', 'y', 'b', 'o', 'a', 'r', 'd', 'I', 'n', 'p', 'u', 't', 'T', 'h', 'r', 'e', 'a', 'd', '-']
}

/// The name of the keyboard input thread with the given number:
/// `KeyboardInputThread-<number>`.
pub fn keyboard_thread_name(thread_id: usize) -> (name: String)
    ensures
        name@ == thread_name_prefix() + decimal(thread_id as nat),
{
    proof {
        reveal_strlit("KeyboardInputThread-");
    }
    let mut name = String::new();
    name.append("KeyboardInputThread-");
    assert(name@ =~= thread_name_prefix());
    push_decimal(&mut name, thread_id);
    name
}

/// Threads with different numbers get different names, so the counter that
/// numbers them makes every thread name unique.
pub proof fn lemma_thread_names_unique(a: usize, b: usize)
    requires
        a != b,
    ensures
        thread_name_prefix() + decimal(a as nat) != thread_name_prefix() + decimal(b as nat),
{
    if thread_name_prefix() + decimal(a as nat) == thread_name_prefix() + decimal(b as nat) {
        let p = thread_name_prefix();
        assert(decimal(a as nat) =~= (p + decimal(a as nat)).subrange(p.len() as int, (p + decimal(a as nat)).len() as int));
        assert(decimal(b as nat) =~= (p + decimal(b as nat)).subrange(p.len() as int, (p + decimal(b as nat)).len() as int));
        lemma_decimal_injective(a as nat, b as nat);
    }
}

} // verus!
