//! The monitor loop's decisions. The loop waits for the timer or a shutdown
//! signal, reads the window that has the focus, and posts a report of it;
//! the program around it performs each action this module decides on and
//! hands back what came of it.

use crate::event::{activity_event, ActivityEvent, WindowSnapshot};
use crate::text::str_eq;
use vstd::prelude::*;

verus! {

/// The three builds of the monitor.
#[derive(Debug, Clone, Copy, PartialEq, Eq, Structural)]
pub enum Variant {
    /// The Unix command line tool that starts itself again as its worker.
    Unix,
    /// The command line tool that daemonizes itself.
    Daemon,
    /// The Windows command line tool.
    Windows,
}

/// How a build of the monitor behaves.
#[derive(Debug, Clone, Copy, PartialEq, Eq, Structural)]
pub struct MonitorConfig {
    /// Seconds between two looks at the active window.
    pub interval_secs: u64,
    /// Whether the timer's first, immediate tick is let pass without a look.
    pub skip_first_tick: bool,
    /// Whether only the programs on the tracked list are reported.
    pub tracked_only: bool,
    /// Whether a shutdown signal ends the loop at once; otherwise the loop
    /// notices it once the tick under way, or the next one, is done.
    pub stop_on_signal: bool,
    /// Whether the server's answer to a report must be the JSON `null` for
    /// the report to count as sent.
    pub answer_must_be_null: bool,
}

/// The configuration of each build.
pub open spec fn config_of(variant: Variant) -> MonitorConfig {
    match variant {
        Variant::Unix => MonitorConfig {
            interval_secs: 10,
            skip_first_tick: true,
            tracked_only: false,
            stop_on_signal: true,
            answer_must_be_null: false,
        },
        Variant::Daemon => MonitorConfig {
            interval_secs: 300,
            skip_first_tick: false,
            tracked_only: false,
            stop_on_signal: false,
            answer_must_be_null: true,
        },
        Variant::Windows => MonitorConfig {
            interval_secs: 900,
            skip_first_tick: true,
            tracked_only: true,
            stop_on_signal: true,
            answer_must_be_null: false,
        },
    }
}

/// The configuration of a build.
pub fn config(variant: Variant) -> (r: MonitorConfig)
    ensures
        r == config_of(variant),
{
    match variant {
        Variant::Unix => MonitorConfig {
            interval_secs: 10,
            skip_first_tick: true,
            tracked_only: false,
            stop_on_signal: true,
            answer_must_be_null: false,
        },
        Variant::Daemon => MonitorConfig {
            interval_secs: 300,
            skip_first_tick: false,
            tracked_only: false,
            stop_on_signal: false,
            answer_must_be_null: true,
        },
        Variant::Windows => MonitorConfig {
            interval_secs: 900,
            skip_first_tick: true,
            tracked_only: true,
            stop_on_signal: true,
            answer_must_be_null: false,
        },
    }
}

/// Whether a build counts a report as sent, given the server's answer: the
/// daemonizing build demands the JSON `null`, the others take any answer.
pub fn answer_accepted(variant: Variant, answer: &[u8]) -> (r: bool)
    ensures
        r == (!config_of(variant).answer_must_be_null || crate::event::is_json_null(answer@)),
{
    !config(variant).answer_must_be_null || crate::event::parses_as_unit(answer)
}

/// The address each build posts its reports to.
pub open spec fn endpoint_of(variant: Variant) -> Seq<char> {
    match variant {
        Variant::Unix => "https://affectionate-compassion-production.up.railway.app/activity"@,
        Variant::Daemon => "https://affectionate-compassion-production.up.railway.app"@,
        Variant::Windows => "https://api.whatmedoin.frixaco.com/activity"@,
    }
}

/// The address a build posts its reports to.
pub fn endpoint(variant: Variant) -> (r: &'static str)
    ensures
        r@ == endpoint_of(variant),
{
    match variant {
        Variant::Unix => "https://affectionate-compassion-production.up.railway.app/activity",
        Variant::Daemon => "https://affectionate-compassion-production.up.railway.app",
        Variant::Windows => "https://api.whatmedoin.frixaco.com/activity",
    }
}

/// The programs whose windows the Windows build reports: the terminal, the
/// editor, chat, flash cards, notes, 3D modelling, the shell, and games
/// (osu!, Elden Ring and Wuthering Waves, under their programs' names and
/// descriptions).
pub open spec fn tracked_window_names() -> Seq<Seq<char>> {
    seq![
        "wezterm-gui"@,
        "Cursor"@,
        "Slack"@,
        "anki"@,
        "Heptabase"@,
        "osu!"@,
        "Blender"@,
        "pwsh"@,
        "eldenring"@,
        "ELDEN RING\u{2122}"@,
        "Wuthering Waves"@,
        "Client-Win64-Shipping"@,
    ]
}

/// The `i`th name on the tracked list.
fn tracked_window_name(i: usize) -> (r: &'static str)
    requires
        i < 12,
    ensures
        r@ == tracked_window_names()[i as int],
{
    if i == 0 {
        "wezterm-gui"
    } else if i == 1 {
        "Cursor"
    } else if i == 2 {
        "Slack"
    } else if i == 3 {
        "anki"
    } else if i == 4 {
        "Heptabase"
    } else if i == 5 {
        "osu!"
    } else if i == 6 {
        "Blender"
    } else if i == 7 {
        "pwsh"
    } else if i == 8 {
        "eldenring"
    } else if i == 9 {
        "ELDEN RING\u{2122}"
    } else if i == 10 {
        "Wuthering Waves"
    } else {
        "Client-Win64-Shipping"
    }
}

/// Whether a program of this name is on the tracked list.
pub fn is_tracked_window(name: &str) -> (r: bool)
    ensures
        r == tracked_window_names().contains(name@),
{
    let mut i: usize = 0;
    while i < 12
        invariant
            i <= 12,
            tracked_window_names().len() == 12,
            forall|j: int| 0 <= j < i ==> tracked_window_names()[j] != name@,
        decreases 12 - i,
    {
        if str_eq(tracked_window_name(i), name) {
            assert(tracked_window_names()[i as int] == name@);
            return true;
        }
        i = i + 1;
    }
    false
}

/// Where the loop stands.
#[derive(Debug, Clone, Copy, PartialEq, Eq, Structural)]
pub enum Phase {
    /// Waiting for the timer's first tick, which is let pass.
    Priming,
    /// Waiting for the timer or a shutdown signal.
    Idle,
    /// Waiting to learn which window has the focus.
    Observing,
    /// Waiting for a report to be posted.
    Sending,
    /// Done.
    Stopped,
}

/// The monitor loop's state.
#[derive(Debug, Clone, Copy, PartialEq, Eq, Structural)]
pub struct Monitor {
    /// Which build runs the loop.
    pub variant: Variant,
    /// Where the loop stands.
    pub phase: Phase,
    /// False once a shutdown signal has come.
    pub running: bool,
}

/// What happened, as the loop is told of it.
pub enum MonitorEvent {
    /// The timer ticked.
    Tick,
    /// The window with the focus was read, or could not be.
    Observed(Option<WindowSnapshot>),
    /// The report was posted, or posting it failed.
    Sent(bool),
    /// A shutdown signal came.
    Shutdown,
}

/// What the loop asks for next.
pub enum MonitorAction {
    /// Wait for the timer (and, where the build listens, a shutdown signal).
    AwaitTick,
    /// Read the window that has the focus.
    ReadActiveWindow,
    /// Post this report.
    Send(ActivityEvent),
    /// Keep waiting for what was asked for before.
    Continue,
    /// Leave the loop.
    Exit,
}

/// A loop action as the contracts see it; a report by its three fields.
pub enum ActionView {
    AwaitTick,
    ReadActiveWindow,
    Send(Seq<char>, Seq<char>, Seq<char>),
    Continue,
    Exit,
}

impl View for MonitorAction {
    type V = ActionView;

    open spec fn view(&self) -> ActionView {
        match self {
            MonitorAction::AwaitTick => ActionView::AwaitTick,
            MonitorAction::ReadActiveWindow => ActionView::ReadActiveWindow,
            MonitorAction::Send(e) => ActionView::Send(e.platform@, e.title@, e.url@),
            MonitorAction::Continue => ActionView::Continue,
            MonitorAction::Exit => ActionView::Exit,
        }
    }
}

/// The loop as it starts: waiting for the timer.
pub open spec fn initial(variant: Variant) -> Monitor {
    Monitor {
        variant,
        phase: if config_of(variant).skip_first_tick {
            Phase::Priming
        } else {
            Phase::Idle
        },
        running: true,
    }
}

/// Where a tick's work ends: back to waiting, or out of the loop once a
/// shutdown signal has come.
pub open spec fn finish_tick(m: Monitor) -> (Monitor, ActionView) {
    if m.running {
        (Monitor { phase: Phase::Idle, ..m }, ActionView::AwaitTick)
    } else {
        (Monitor { phase: Phase::Stopped, ..m }, ActionView::Exit)
    }
}

/// Whether the window would be reported by this build.
pub open spec fn reports_window(variant: Variant, w: WindowSnapshot) -> bool {
    !config_of(variant).tracked_only || tracked_window_names().contains(w.process_name@)
}

/// The loop's first action: the timer's first tick is let pass without a
/// look at the running flag where the build does so; otherwise the flag is
/// looked at before the first wait, and the loop ends at once where it is
/// down.
pub open spec fn begin(m: Monitor) -> (Monitor, ActionView) {
    match m.phase {
        Phase::Stopped => (m, ActionView::Exit),
        Phase::Idle => if m.running {
            (m, ActionView::AwaitTick)
        } else {
            (Monitor { phase: Phase::Stopped, ..m }, ActionView::Exit)
        },
        _ => (m, ActionView::AwaitTick),
    }
}

/// What the loop does on an event, from a state. An event that the state
/// does not wait for changes nothing and asks to keep waiting.
///
/// The running flag is looked at before every wait for the timer: once the
/// first tick has passed, and once a tick's work is done. A shutdown while
/// the first tick is let pass, or during a tick's work, lowers the flag, so
/// the loop ends when that tick is done. A
/// shutdown during the wait ends the loop at once in the builds that wait
/// for signals beside the timer; the daemonizing build only lowers its flag
/// then, and does the work of the tick it waits for before it ends.
pub open spec fn next(m: Monitor, ev: MonitorEvent) -> (Monitor, ActionView) {
    match m.phase {
        Phase::Stopped => (m, ActionView::Exit),
        Phase::Priming => match ev {
            MonitorEvent::Tick => finish_tick(m),
            MonitorEvent::Shutdown => (Monitor { running: false, ..m }, ActionView::Continue),
            _ => (m, ActionView::Continue),
        },
        Phase::Idle => match ev {
            MonitorEvent::Tick => if !m.running && config_of(m.variant).stop_on_signal {
                (Monitor { phase: Phase::Stopped, ..m }, ActionView::Exit)
            } else {
                (Monitor { phase: Phase::Observing, ..m }, ActionView::ReadActiveWindow)
            },
            MonitorEvent::Shutdown => if config_of(m.variant).stop_on_signal {
                (Monitor { phase: Phase::Stopped, running: false, ..m }, ActionView::Exit)
            } else {
                (Monitor { running: false, ..m }, ActionView::AwaitTick)
            },
            _ => (m, ActionView::Continue),
        },
        Phase::Observing => match ev {
            MonitorEvent::Observed(None) => finish_tick(m),
            MonitorEvent::Observed(Some(w)) => if reports_window(m.variant, w) {
                (
                    Monitor { phase: Phase::Sending, ..m },
                    ActionView::Send(
                        crate::event::platform_name(),
                        w.process_name@,
                        w.process_path@,
                    ),
                )
            } else {
                finish_tick(m)
            },
            MonitorEvent::Shutdown => (Monitor { running: false, ..m }, ActionView::Continue),
            _ => (m, ActionView::Continue),
        },
        Phase::Sending => match ev {
            MonitorEvent::Sent(_) => finish_tick(m),
            MonitorEvent::Shutdown => (Monitor { running: false, ..m }, ActionView::Continue),
            _ => (m, ActionView::Continue),
        },
    }
}

impl Monitor {
    /// The loop of a build as it starts; its first action is to wait for the
    /// timer.
    pub fn new(variant: Variant) -> (r: Monitor)
        ensures
            r == initial(variant),
    {
        let cfg = config(variant);
        Monitor {
            variant,
            phase: if cfg.skip_first_tick {
                Phase::Priming
            } else {
                Phase::Idle
            },
            running: true,
        }
    }

    /// The first action of the loop.
    pub fn begin(&mut self) -> (a: MonitorAction)
        ensures
            (*final(self), a@) == begin(*old(self)),
    {
        match self.phase {
            Phase::Stopped => MonitorAction::Exit,
            Phase::Idle => {
                if self.running {
                    MonitorAction::AwaitTick
                } else {
                    self.phase = Phase::Stopped;
                    MonitorAction::Exit
                }
            },
            _ => MonitorAction::AwaitTick,
        }
    }

    fn finish(&mut self) -> (a: MonitorAction)
        ensures
            (*final(self), a@) == finish_tick(*old(self)),
    {
        if self.running {
            self.phase = Phase::Idle;
            MonitorAction::AwaitTick
        } else {
            self.phase = Phase::Stopped;
            MonitorAction::Exit
        }
    }

    /// Takes in an event and says what to do next.
    pub fn step(&mut self, ev: MonitorEvent) -> (a: MonitorAction)
        ensures
            (*final(self), a@) == next(*old(self), ev),
    {
        let stop_on_signal = config(self.variant).stop_on_signal;
        match self.phase {
            Phase::Stopped => MonitorAction::Exit,
            Phase::Priming => match ev {
                MonitorEvent::Tick => self.finish(),
                MonitorEvent::Shutdown => {
                    self.running = false;
                    MonitorAction::Continue
                },
                _ => MonitorAction::Continue,
            },
            Phase::Idle => match ev {
                MonitorEvent::Tick => {
                    if !self.running && stop_on_signal {
                        self.phase = Phase::Stopped;
                        MonitorAction::Exit
                    } else {
                        self.phase = Phase::Observing;
                        MonitorAction::ReadActiveWindow
                    }
                },
                MonitorEvent::Shutdown => {
                    self.running = false;
                    if stop_on_signal {
                        self.phase = Phase::Stopped;
                        MonitorAction::Exit
                    } else {
                        MonitorAction::AwaitTick
                    }
                },
                _ => MonitorAction::Continue,
            },
            Phase::Observing => match ev {
                MonitorEvent::Observed(None) => self.finish(),
                MonitorEvent::Observed(Some(w)) => {
                    let reported = !config(self.variant).tracked_only || is_tracked_window(
                        w.process_name.as_str(),
                    );
                    if reported {
                        self.phase = Phase::Sending;
                        MonitorAction::Send(activity_event(&w))
                    } else {
                        self.finish()
                    }
                },
                MonitorEvent::Shutdown => {
                    self.running = false;
                    MonitorAction::Continue
                },
                _ => MonitorAction::Continue,
            },
            Phase::Sending => match ev {
                MonitorEvent::Sent(_) => self.finish(),
                MonitorEvent::Shutdown => {
                    self.running = false;
                    MonitorAction::Continue
                },
                _ => MonitorAction::Continue,
            },
        }
    }
}

/// The state after the loop has taken in `evs`, one after another.
pub open spec fn run(m: Monitor, evs: Seq<MonitorEvent>) -> Monitor
    decreases evs.len(),
{
    if evs.len() == 0 {
        m
    } else {
        run(next(m, evs[0]).0, evs.drop_first())
    }
}

/// How many reports the loop asks to post while taking in `evs`.
pub open spec fn sends(m: Monitor, evs: Seq<MonitorEvent>) -> nat
    decreases evs.len(),
{
    if evs.len() == 0 {
        0
    } else {
        let (m2, a) = next(m, evs[0]);
        (if a is Send {
            1nat
        } else {
            0nat
        }) + sends(m2, evs.drop_first())
    }
}

/// How many timer ticks `evs` holds.
pub open spec fn ticks(evs: Seq<MonitorEvent>) -> nat
    decreases evs.len(),
{
    if evs.len() == 0 {
        0
    } else {
        (if evs[0] is Tick {
            1nat
        } else {
            0nat
        }) + ticks(evs.drop_first())
    }
}

/// Once stopped, the loop stays stopped and asks to post nothing more.
pub proof fn lemma_stopped_is_final(m: Monitor, evs: Seq<MonitorEvent>)
    requires
        m.phase == Phase::Stopped,
    ensures
        run(m, evs) == m,
        sends(m, evs) == 0,
    decreases evs.len(),
{
    if evs.len() > 0 {
        lemma_stopped_is_final(m, evs.drop_first());
    }
}

/// A report is asked for only right after the window with the focus was
/// read, only of that window, and only where the build reports it.
pub proof fn lemma_report_only_of_observed_window(m: Monitor, ev: MonitorEvent)
    requires
        next(m, ev).1 is Send,
    ensures
        m.phase == Phase::Observing,
        ev matches MonitorEvent::Observed(Some(w)) && reports_window(m.variant, w)
            && next(m, ev).1 == ActionView::Send(
            crate::event::platform_name(),
            w.process_name@,
            w.process_path@,
        ),
{
}

/// Each timer tick leads to at most one report.
pub proof fn lemma_one_report_per_tick(m: Monitor, evs: Seq<MonitorEvent>)
    ensures
        sends(m, evs) <= ticks(evs) + if m.phase == Phase::Observing {
            1nat
        } else {
            0nat
        },
    decreases evs.len(),
{
    if evs.len() > 0 {
        lemma_one_report_per_tick(next(m, evs[0]).0, evs.drop_first());
    }
}

/// In the builds that stop on a signal, a shutdown signal while waiting
/// ends the loop at once.
pub proof fn lemma_signal_stops_at_once(m: Monitor)
    requires
        m.phase == Phase::Idle,
        config_of(m.variant).stop_on_signal,
    ensures
        next(m, MonitorEvent::Shutdown).0.phase == Phase::Stopped,
        next(m, MonitorEvent::Shutdown).1 == ActionView::Exit,
{
}

/// After a shutdown signal the loop posts at most one more report (the one
/// of a tick already under way, or of the next tick), and stays shut down.
pub proof fn lemma_at_most_one_report_after_shutdown(m: Monitor, evs: Seq<MonitorEvent>)
    requires
        !m.running,
    ensures
        sends(m, evs) <= if m.phase == Phase::Sending || m.phase == Phase::Stopped {
            0nat
        } else {
            1nat
        },
        !run(m, evs).running,
    decreases evs.len(),
{
    if evs.len() > 0 {
        lemma_at_most_one_report_after_shutdown(next(m, evs[0]).0, evs.drop_first());
    }
}

/// Where a build lets the timer's first tick pass, that tick reads no window.
pub proof fn lemma_first_tick_passes(variant: Variant)
    requires
        config_of(variant).skip_first_tick,
    ensures
        next(initial(variant), MonitorEvent::Tick).1 == ActionView::AwaitTick,
        next(initial(variant), MonitorEvent::Tick).0.phase == Phase::Idle,
{
}

/// A loop whose running flag is down ends where it next looks at the flag:
/// before its first wait, or after the timer's first tick has passed.
pub proof fn lemma_flag_down_ends_loop(m: Monitor)
    requires
        !m.running,
    ensures
        m.phase == Phase::Idle ==> begin(m) == (Monitor { phase: Phase::Stopped, ..m }, ActionView::Exit),
        m.phase == Phase::Priming ==> next(m, MonitorEvent::Tick) == (
            Monitor { phase: Phase::Stopped, ..m },
            ActionView::Exit,
        ),
{
}

/// A loop whose running flag is up and that has not stopped starts by
/// waiting for the timer, and changes nothing in doing so.
pub proof fn lemma_running_loop_begins_by_waiting(m: Monitor)
    requires
        m.running,
        m.phase != Phase::Stopped,
    ensures
        begin(m) == (m, ActionView::AwaitTick),
{
}

/// Whether a report was posted or failed, the loop goes on the same way:
/// back to waiting for the timer while its flag is up, out of the loop once
/// it is down.
pub proof fn lemma_report_outcome_does_not_matter(m: Monitor, ok: bool)
    requires
        m.phase == Phase::Sending,
    ensures
        next(m, MonitorEvent::Sent(ok)) == next(m, MonitorEvent::Sent(!ok)),
        m.running ==> next(m, MonitorEvent::Sent(ok)) == (
            Monitor { phase: Phase::Idle, ..m },
            ActionView::AwaitTick,
        ),
        !m.running ==> next(m, MonitorEvent::Sent(ok)) == (
            Monitor { phase: Phase::Stopped, ..m },
            ActionView::Exit,
        ),
{
}

/// A running loop that waits for the timer reads the active window on the
/// tick, and keeps its flag and build.
pub proof fn lemma_tick_reads_window(m: Monitor)
    requires
        m.running,
        m.phase == Phase::Idle,
    ensures
        next(m, MonitorEvent::Tick) == (
            Monitor { phase: Phase::Observing, ..m },
            ActionView::ReadActiveWindow,
        ),
{
}

/// A window read by a running loop is reported, with the program's name as
/// the title and its path as the address, unless the build reports only the
/// tracked programs and this one is not among them; a window that could not
/// be read, or is not reported, sends the loop back to waiting.
pub proof fn lemma_observed_window_reported(m: Monitor, w: WindowSnapshot)
    requires
        m.running,
        m.phase == Phase::Observing,
    ensures
        (m.variant != Variant::Windows || tracked_window_names().contains(w.process_name@))
            ==> next(m, MonitorEvent::Observed(Some(w))) == (
            Monitor { phase: Phase::Sending, ..m },
            ActionView::Send("desktop"@, w.process_name@, w.process_path@),
        ),
        (m.variant == Variant::Windows && !tracked_window_names().contains(w.process_name@))
            ==> next(m, MonitorEvent::Observed(Some(w))) == (
            Monitor { phase: Phase::Idle, ..m },
            ActionView::AwaitTick,
        ),
        next(m, MonitorEvent::Observed(None)) == (
            Monitor { phase: Phase::Idle, ..m },
            ActionView::AwaitTick,
        ),
{
}

/// A shutdown signal always lowers the running flag and keeps the build.
/// Waiting for the timer, the builds that wait for signals beside it stop at
/// once and the daemonizing build goes on waiting; at any other point the
/// loop keeps doing what it was doing.
pub proof fn lemma_shutdown_lowers_flag(m: Monitor)
    requires
        m.phase != Phase::Stopped,
    ensures
        !next(m, MonitorEvent::Shutdown).0.running,
        next(m, MonitorEvent::Shutdown).0.variant == m.variant,
        m.phase == Phase::Idle && m.variant != Variant::Daemon ==> next(
            m,
            MonitorEvent::Shutdown,
        ) == (Monitor { phase: Phase::Stopped, running: false, ..m }, ActionView::Exit),
        m.phase == Phase::Idle && m.variant == Variant::Daemon ==> next(
            m,
            MonitorEvent::Shutdown,
        ) == (Monitor { running: false, ..m }, ActionView::AwaitTick),
        m.phase != Phase::Idle ==> next(m, MonitorEvent::Shutdown) == (
            Monitor { running: false, ..m },
            ActionView::Continue,
        ),
{
}

} // verus!
