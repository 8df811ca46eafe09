use vstd::prelude::*;
use vstd::string::StringExecFns;

use crate::logger::level::LevelFilter;
use crate::logger::view::LogView;

verus! {

/// A user interaction with the main window.
#[derive(Clone, Copy, Debug, PartialEq, Eq, Structural)]
pub enum UiEvent {
    /// The "Clear Logs" button was clicked.
    ClearLogs,
    /// The key press button was clicked while it read "Start Key Press".
    StartKeyPress,
    /// The key press button was clicked while it read "Stop Key Press".
    StopKeyPress,
    /// A level was picked in the level selector.
    SelectLevel(LevelFilter),
    /// "Yes" was clicked in the trace warning.
    ConfirmTrace,
    /// "No" was clicked in the trace warning.
    CancelTrace,
}

/// What the window decides after an interaction.
#[derive(Clone, Copy, Debug, PartialEq, Eq, Structural)]
pub enum UiDecision {
    Nothing,
    /// A key press thread is to be started.
    StartKeyboardInput,
    /// The running key press thread is to be stopped.
    StopKeyboardInput,
}

/// What the window asks of its host after an interaction.
#[derive(Debug)]
pub enum UiAction {
    Nothing,
    /// Start a keyboard input thread and hand its stop sender to `key_press_started`.
    StartKeyboardInput,
    /// Stop the running key press thread: pass this, its stop sender, to
    /// `stop_keyboard_input`.
    StopKeyboardInput(std::sync::mpsc::Sender<()>),
}

/// The decision an action carries out.
pub open spec fn decision_of(action: UiAction) -> UiDecision {
    match action {
        UiAction::Nothing => UiDecision::Nothing,
        UiAction::StartKeyboardInput => UiDecision::StartKeyboardInput,
        UiAction::StopKeyboardInput(_) => UiDecision::StopKeyboardInput,
    }
}

/// The decision-relevant state of the window.
#[derive(Clone, Copy, Debug, PartialEq, Eq, Structural)]
pub struct UiModel {
    pub level: LevelFilter,
    pub previous: LevelFilter,
    pub warning: bool,
    pub running: bool,
}

/// How the window reacts to one interaction. Clearing does not touch this
/// state; starting is asked of the host only when no key press thread runs;
/// stopping a running one hands it back to be stopped; picking `Trace` only
/// opens the warning and remembers the current level, which "Yes" replaces by
/// `Trace` and "No" restores; any other level is taken at once.
pub open spec fn ui_step(m: UiModel, event: UiEvent) -> (UiModel, UiDecision) {
    match event {
        UiEvent::ClearLogs => (m, UiDecision::Nothing),
        UiEvent::StartKeyPress => (m, if m.running {
            UiDecision::Nothing
        } else {
            UiDecision::StartKeyboardInput
        }),
        UiEvent::StopKeyPress => if m.running {
            (UiModel { running: false, ..m }, UiDecision::StopKeyboardInput)
        } else {
            (m, UiDecision::Nothing)
        },
        UiEvent::SelectLevel(level) => if level == LevelFilter::Trace {
            (UiModel { previous: m.level, warning: true, ..m }, UiDecision::Nothing)
        } else {
            (UiModel { level, ..m }, UiDecision::Nothing)
        },
        UiEvent::ConfirmTrace => if m.warning {
            (UiModel { level: LevelFilter::Trace, warning: false, ..m }, UiDecision::Nothing)
        } else {
            (m, UiDecision::Nothing)
        },
        UiEvent::CancelTrace => if m.warning {
            (UiModel { level: m.previous, warning: false, ..m }, UiDecision::Nothing)
        } else {
            (m, UiDecision::Nothing)
        },
    }
}

/// The main window's state: the log view, the running key press thread (by
/// its stop sender) and the trace warning.
pub struct MyApp {
    log_view: LogView,
    key_press_sender: Option<std::sync::mpsc::Sender<()>>,
    show_trace_warning: bool,
    previous_log_level: LevelFilter,
}

impl MyApp {
    /// The decision-relevant state of this window.
    pub closed spec fn model(self) -> UiModel {
        UiModel {
            level: self.log_view.log_level,
            previous: self.previous_log_level,
            warning: self.show_trace_warning,
            running: self.key_press_sender is Some,
        }
    }

    /// The stop sender of the running key press thread, if one runs.
    pub closed spec fn sender(self) -> Option<std::sync::mpsc::Sender<()>> {
        self.key_press_sender
    }

    /// The collected log lines of this window.
    pub closed spec fn logs(self) -> Seq<String> {
        self.log_view.logs@
    }

    /// A window over `logs` that shows information and more severe records,
    /// with no key press thread and no warning open.
    pub fn new(logs: Vec<String>) -> (app: Self)
        ensures
            app.logs() == logs@,
            app.model() == initial_model(),
            app.sender() is None,
    {
        let log_view = LogView::new(logs);
        let level = log_view.log_level;
        MyApp {
            log_view,
            key_press_sender: None,
            show_trace_warning: false,
            previous_log_level: level,
        }
    }

    /// The log view of this window.
    pub fn log_view(&self) -> (view: &LogView)
        ensures
            view.logs@ == self.logs(),
            view.log_level == self.model().level,
    {
        &self.log_view
    }

    /// Whether a key press thread runs (its stop sender is held).
    pub fn is_key_press_running(&self) -> (running: bool)
        ensures
            running == self.model().running,
    {
        self.key_press_sender.is_some()
    }

    /// Whether the trace warning is open.
    pub fn show_trace_warning(&self) -> (open: bool)
        ensures
            open == self.model().warning,
    {
        self.show_trace_warning
    }

    /// The level that "No" in the trace warning restores.
    pub fn previous_log_level(&self) -> (level: LevelFilter)
        ensures
            level == self.model().previous,
    {
        self.previous_log_level
    }

    /// Puts `logs` in place of the collected lines and returns those.
    pub fn replace_logs(&mut self, logs: Vec<String>) -> (old_logs: Vec<String>)
        ensures
            old_logs@ == old(self).logs(),
            final(self).logs() == logs@,
            final(self).model() == old(self).model(),
            final(self).sender() == old(self).sender(),
    {
        let mut other = logs;
        std::mem::swap(&mut self.log_view.logs, &mut other);
        other
    }

    /// Reacts to one interaction (see `ui_step`); clearing empties the log,
    /// and stopping hands the held stop sender back to the host.
    pub fn handle_event(&mut self, event: UiEvent) -> (action: UiAction)
        ensures
            (final(self).model(), decision_of(action)) == ui_step(old(self).model(), event),
            action matches UiAction::StopKeyboardInput(tx) ==> old(self).sender() == Some(tx),
            final(self).sender() == (if decision_of(action) == UiDecision::StopKeyboardInput {
                None
            } else {
                old(self).sender()
            }),
            final(self).logs() == (if event == UiEvent::ClearLogs {
                Seq::empty()
            } else {
                old(self).logs()
            }),
    {
        match event {
            UiEvent::ClearLogs => {
                self.log_view.clear();
                UiAction::Nothing
            },
            UiEvent::StartKeyPress => {
                if self.is_key_press_running() {
                    UiAction::Nothing
                } else {
                    UiAction::StartKeyboardInput
                }
            },
            UiEvent::StopKeyPress => {
                match self.key_press_sender.take() {
                    Some(sender) => UiAction::StopKeyboardInput(sender),
                    None => UiAction::Nothing,
                }
            },
            UiEvent::SelectLevel(level) => {
                match level {
                    LevelFilter::Trace => {
                        self.previous_log_level = self.log_view.log_level;
                        self.show_trace_warning = true;
                    },
                    _ => {
                        self.log_view.log_level = level;
                    },
                }
                UiAction::Nothing
            },
            UiEvent::ConfirmTrace => {
                if self.show_trace_warning {
                    self.log_view.log_level = LevelFilter::Trace;
                    self.show_trace_warning = false;
                }
                UiAction::Nothing
            },
            UiEvent::CancelTrace => {
                if self.show_trace_warning {
                    self.log_view.log_level = self.previous_log_level;
                    self.show_trace_warning = false;
                }
                UiAction::Nothing
            },
        }
    }

    /// The text of the key press button: "Stop Key Press" while a thread
    /// runs, "Start Key Press" otherwise.
    pub fn key_press_button_label(&self) -> (label: &'static str)
        ensures
            label@ == (if self.model().running {
                "Stop Key Press"@
            } else {
                "Start Key Press"@
            }),
    {
        if self.is_key_press_running() {
            "Stop Key Press"
        } else {
            "Start Key Press"
        }
    }

    /// The text colour (red, green, blue) of the key press button: red while
    /// a thread runs, green when one can be started.
    pub fn key_press_button_color(&self) -> (rgb: (u8, u8, u8))
        ensures
            rgb == (if self.model().running {
                (200u8, 50u8, 50u8)
            } else {
                (50u8, 160u8, 50u8)
            }),
    {
        if self.is_key_press_running() {
            (200, 50, 50)
        } else {
            (50, 160, 50)
        }
    }

    /// Records a started key press thread by its stop sender.
    pub fn key_press_started(&mut self, sender: std::sync::mpsc::Sender<()>)
        ensures
            final(self).model() == (UiModel { running: true, ..old(self).model() }),
            final(self).sender() == Some(sender),
            final(self).logs() == old(self).logs(),
    {
        self.key_press_sender = Some(sender);
    }
}

/// The title of the main window: `Log Viewer v<version>`.
pub fn window_title(version: &str) -> (title: String)
    ensures
        title@ == "Log Viewer v"@ + version@,
{
    let mut title = String::new();
    title.append("Log Viewer v");
    title.append(version);
    title
}

/// Picking `Trace` asks for confirmation first: the level does not change
/// until "Yes", which sets `Trace`; "No" restores the level shown before.
pub proof fn lemma_trace_needs_confirmation(m: UiModel)
    ensures
        ui_step(m, UiEvent::SelectLevel(LevelFilter::Trace)).0.level == m.level,
        ui_step(m, UiEvent::SelectLevel(LevelFilter::Trace)).0.warning,
        ui_step(ui_step(m, UiEvent::SelectLevel(LevelFilter::Trace)).0, UiEvent::CancelTrace).0 == (UiModel {
            previous: m.level,
            warning: false,
            ..m
        }),
        ui_step(ui_step(m, UiEvent::SelectLevel(LevelFilter::Trace)).0, UiEvent::CancelTrace).0.level == m.level,
        !ui_step(ui_step(m, UiEvent::SelectLevel(LevelFilter::Trace)).0, UiEvent::CancelTrace).0.warning,
        ui_step(ui_step(m, UiEvent::SelectLevel(LevelFilter::Trace)).0, UiEvent::ConfirmTrace).0.level
            == LevelFilter::Trace,
        !ui_step(ui_step(m, UiEvent::SelectLevel(LevelFilter::Trace)).0, UiEvent::ConfirmTrace).0.warning,
{
}

/// Any level other than `Trace` is taken at once, and nothing but picking a
/// level or answering the trace warning changes the displayed level.
pub proof fn lemma_level_changes(m: UiModel, level: LevelFilter, event: UiEvent)
    ensures
        level != LevelFilter::Trace ==> ui_step(m, UiEvent::SelectLevel(level)).0.level == level,
        (event == UiEvent::ClearLogs || event == UiEvent::StartKeyPress || event == UiEvent::StopKeyPress)
            ==> ui_step(m, event).0.level == m.level,
{
}

/// Starting is asked for only when no key press thread runs; stopping asks
/// to stop exactly when one runs and leaves none running; nothing else starts
/// or stops one.
pub proof fn lemma_start_stop(m: UiModel, event: UiEvent)
    ensures
        (ui_step(m, UiEvent::StartKeyPress).1 == UiDecision::StartKeyboardInput) == !m.running,
        (ui_step(m, UiEvent::StopKeyPress).1 == UiDecision::StopKeyboardInput) == m.running,
        !ui_step(m, UiEvent::StopKeyPress).0.running,
        event != UiEvent::StopKeyPress ==> ui_step(m, event).0.running == m.running,
        (event != UiEvent::StartKeyPress && event != UiEvent::StopKeyPress) ==> ui_step(m, event).1
            == UiDecision::Nothing,
{
}

/// A window's model says a key press thread runs exactly when the window
/// holds that thread's stop sender.
pub proof fn lemma_running_iff_sender(app: MyApp)
    ensures
        app.model().running == (app.sender() is Some),
{
}

/// The state of a new window.
pub open spec fn initial_model() -> UiModel {
    UiModel { level: LevelFilter::Info, previous: LevelFilter::Info, warning: false, running: false }
}

/// The model after a sequence of interactions.
pub open spec fn ui_run(m: UiModel, events: Seq<UiEvent>) -> UiModel
    decreases events.len(),
{
    if events.len() == 0 {
        m
    } else {
        ui_run(ui_step(m, events[0]).0, events.drop_first())
    }
}

/// `Trace` is reached only through "Yes": from a state in which neither the
/// shown nor the remembered level is `Trace` (a new window's state), no
/// sequence of interactions without a "Yes" makes either of them `Trace`.
pub proof fn lemma_trace_only_through_yes(m: UiModel, events: Seq<UiEvent>)
    requires
        m.level != LevelFilter::Trace,
        m.previous != LevelFilter::Trace,
        !events.contains(UiEvent::ConfirmTrace),
    ensures
        ui_run(m, events).level != LevelFilter::Trace,
        ui_run(m, events).previous != LevelFilter::Trace,
    decreases events.len(),
{
    if events.len() > 0 {
        assert(events[0] != UiEvent::ConfirmTrace);
        assert(!events.drop_first().contains(UiEvent::ConfirmTrace)) by {
            if events.drop_first().contains(UiEvent::ConfirmTrace) {
                let k = choose|k: int| 0 <= k < events.drop_first().len() && events.drop_first()[k] == UiEvent::ConfirmTrace;
                assert(events[k + 1] == UiEvent::ConfirmTrace);
            }
        }
        lemma_trace_only_through_yes(ui_step(m, events[0]).0, events.drop_first());
    }
}

/// The level is never `Off`: from a state in which neither the shown nor the
/// remembered level is `Off` (a new window's state), interactions that pick
/// only levels the selector offers (see `selectable_levels`) keep both off `Off`.
pub proof fn lemma_level_never_off(m: UiModel, events: Seq<UiEvent>)
    requires
        m.level != LevelFilter::Off,
        m.previous != LevelFilter::Off,
        !events.contains(UiEvent::SelectLevel(LevelFilter::Off)),
    ensures
        ui_run(m, events).level != LevelFilter::Off,
        ui_run(m, events).previous != LevelFilter::Off,
    decreases events.len(),
{
    if events.len() > 0 {
        assert(events[0] != UiEvent::SelectLevel(LevelFilter::Off));
        assert(!events.drop_first().contains(UiEvent::SelectLevel(LevelFilter::Off))) by {
            if events.drop_first().contains(UiEvent::SelectLevel(LevelFilter::Off)) {
                let k = choose|k: int|
                    0 <= k < events.drop_first().len() && events.drop_first()[k] == UiEvent::SelectLevel(LevelFilter::Off);
                assert(events[k + 1] == UiEvent::SelectLevel(LevelFilter::Off));
            }
        }
        lemma_level_never_off(ui_step(m, events[0]).0, events.drop_first());
    }
}

/// What happens between a window and its host: an interaction, or the host
/// reporting a key press thread it started (`key_press_started`).
#[derive(Clone, Copy, Debug, PartialEq, Eq, Structural)]
pub enum SessionEvent {
    Ui(UiEvent),
    Started,
}

/// The window's model, whether a start was just asked for, and how many stop
/// senders of started threads have not yet been handed back to be stopped.
pub open spec fn session_step(s: (UiModel, bool, int), event: SessionEvent) -> (UiModel, bool, int) {
    match event {
        SessionEvent::Ui(e) => {
            let (m, d) = ui_step(s.0, e);
            (
                m,
                d == UiDecision::StartKeyboardInput,
                if d == UiDecision::StopKeyboardInput {
                    s.2 - 1
                } else {
                    s.2
                },
            )
        },
        SessionEvent::Started => (UiModel { running: true, ..s.0 }, false, s.2 + 1),
    }
}

/// The host starts a thread only right after the window asked for one.
pub open spec fn session_follows_requests(s: (UiModel, bool, int), events: Seq<SessionEvent>) -> bool
    decreases events.len(),
{
    if events.len() == 0 {
        true
    } else {
        &&& (events[0] == SessionEvent::Started ==> s.1)
        &&& session_follows_requests(session_step(s, events[0]), events.drop_first())
    }
}

/// The session state after a sequence of events.
pub open spec fn session_run(s: (UiModel, bool, int), events: Seq<SessionEvent>) -> (UiModel, bool, int)
    decreases events.len(),
{
    if events.len() == 0 {
        s
    } else {
        session_run(session_step(s, events[0]), events.drop_first())
    }
}

/// At most one key press thread is outstanding, and one exactly while the
/// window shows one running.
pub open spec fn one_thread_at_most(s: (UiModel, bool, int)) -> bool {
    &&& s.2 == (if s.0.running {
        1int
    } else {
        0int
    })
    &&& (s.1 ==> !s.0.running)
}

/// When the host starts a thread only when asked and hands every stop sender
/// it gets back to `stop_keyboard_input`, at most one started thread is not
/// yet told to stop, and one exactly while a thread runs: no second thread is
/// started before the first is told to stop.
pub proof fn lemma_one_thread_at_most(s: (UiModel, bool, int), events: Seq<SessionEvent>)
    requires
        one_thread_at_most(s),
        session_follows_requests(s, events),
    ensures
        one_thread_at_most(session_run(s, events)),
    decreases events.len(),
{
    if events.len() > 0 {
        lemma_one_thread_at_most(session_step(s, events[0]), events.drop_first());
    }
}

/// A new window starts with no thread outstanding.
pub proof fn lemma_new_window_has_no_thread()
    ensures
        one_thread_at_most((initial_model(), false, 0)),
        initial_model().level != LevelFilter::Trace && initial_model().previous != LevelFilter::Trace,
        initial_model().level != LevelFilter::Off && initial_model().previous != LevelFilter::Off,
{
}

/// Clearing the log changes nothing else: no level, no warning, no thread;
/// the trace warning opens only on picking `Trace`, and closes only on "Yes"
/// or "No".
pub proof fn lemma_clear_only_clears(m: UiModel, event: UiEvent)
    ensures
        ui_step(m, UiEvent::ClearLogs) == (m, UiDecision::Nothing),
        ui_step(m, event).0.warning && !m.warning ==> event == UiEvent::SelectLevel(LevelFilter::Trace),
        !ui_step(m, event).0.warning && m.warning ==> (event == UiEvent::ConfirmTrace || event
            == UiEvent::CancelTrace),
{
}

} // verus!
