//! The command line: which subcommands each build offers, and what starting
//! and stopping the daemon decide from its pid file.

use crate::monitor::Variant;
use crate::pidfile::{contents_view, pid_of, read_pid};
use crate::text::str_eq;
use vstd::prelude::*;

verus! {

/// The subcommands of the command line tools.
#[derive(Debug, Clone, Copy, PartialEq, Eq, Structural)]
pub enum Command {
    /// Run the monitor in the foreground.
    Run,
    /// Start the monitor in the background.
    Start,
    /// Stop the monitor that runs.
    Stop,
    /// Add the monitor to the programs started at log-in.
    Install,
    /// Remove the monitor from the programs started at log-in.
    Uninstall,
    /// Show the logs.
    Logs,
}

/// A subcommand as the command line offers it: its name, its help text, and
/// what it does.
pub struct Subcommand {
    pub name: &'static str,
    pub about: &'static str,
    pub command: Command,
}

/// The subcommands a build offers, in the order its help lists them.
pub open spec fn subcommands_of(variant: Variant) -> Seq<(Seq<char>, Seq<char>, Command)> {
    match variant {
        Variant::Windows => seq![
            ("run"@, "Run the window monitor in foreground"@, Command::Run),
            ("start"@, "Start the window monitor in background"@, Command::Start),
            ("stop"@, "Stop the running monitor"@, Command::Stop),
            ("install"@, "Install to startup"@, Command::Install),
            ("uninstall"@, "Remove from startup"@, Command::Uninstall),
            ("logs"@, "Show logs"@, Command::Logs),
        ],
        _ => seq![
            ("start"@, "Starts daemon"@, Command::Start),
            ("stop"@, "Stops daemon"@, Command::Stop),
            ("logs"@, "Shows daemon logs"@, Command::Logs),
        ],
    }
}

/// The name and help text of the command line tool.
pub open spec fn program_about() -> (Seq<char>, Seq<char>) {
    ("wmd"@, "whatmedoin CLI"@)
}

/// The name and help text of the command line tool.
pub fn program() -> (r: (&'static str, &'static str))
    ensures
        (r.0@, r.1@) == program_about(),
{
    ("wmd", "whatmedoin CLI")
}

/// Whether a listed subcommand matches the spec's entry.
pub open spec fn subcommand_is(s: Subcommand, e: (Seq<char>, Seq<char>, Command)) -> bool {
    s.name@ == e.0 && s.about@ == e.1 && s.command == e.2
}

/// The subcommands a build offers, in the order its help lists them.
pub fn subcommands(variant: Variant) -> (r: Vec<Subcommand>)
    ensures
        r@.len() == subcommands_of(variant).len(),
        forall|i: int| 0 <= i < r@.len() ==> subcommand_is(#[trigger] r@[i], subcommands_of(variant)[i]),
{
    let mut r: Vec<Subcommand> = Vec::new();
    match variant {
        Variant::Windows => {
            r.push(Subcommand { name: "run", about: "Run the window monitor in foreground", command: Command::Run });
            r.push(Subcommand { name: "start", about: "Start the window monitor in background", command: Command::Start });
            r.push(Subcommand { name: "stop", about: "Stop the running monitor", command: Command::Stop });
            r.push(Subcommand { name: "install", about: "Install to startup", command: Command::Install });
            r.push(Subcommand { name: "uninstall", about: "Remove from startup", command: Command::Uninstall });
            r.push(Subcommand { name: "logs", about: "Show logs", command: Command::Logs });
        },
        _ => {
            r.push(Subcommand { name: "start", about: "Starts daemon", command: Command::Start });
            r.push(Subcommand { name: "stop", about: "Stops daemon", command: Command::Stop });
            r.push(Subcommand { name: "logs", about: "Shows daemon logs", command: Command::Logs });
        },
    }
    r
}

/// The first entry of `table` from index `from` on that goes by `name`.
pub open spec fn lookup(table: Seq<(Seq<char>, Seq<char>, Command)>, name: Seq<char>, from: int) -> Option<Command>
    decreases table.len() - from,
{
    if from < 0 || from >= table.len() {
        None
    } else if table[from].0 == name {
        Some(table[from].2)
    } else {
        lookup(table, name, from + 1)
    }
}

/// The subcommand a build offers under `name`, if any.
pub open spec fn command_named(variant: Variant, name: Seq<char>) -> Option<Command> {
    lookup(subcommands_of(variant), name, 0)
}

/// The subcommand a build offers under `name`, if any.
pub fn parse_command(variant: Variant, name: &str) -> (r: Option<Command>)
    ensures
        r == command_named(variant, name@),
{
    let table = subcommands(variant);
    let ghost spec_table = subcommands_of(variant);
    let mut i: usize = 0;
    while i < table.len()
        invariant
            table@.len() == spec_table.len(),
            spec_table == subcommands_of(variant),
            forall|k: int| 0 <= k < table@.len() ==> subcommand_is(#[trigger] table@[k], spec_table[k]),
            i <= table@.len(),
            command_named(variant, name@) == lookup(spec_table, name@, i as int),
        decreases table@.len() - i,
    {
        assert(subcommand_is(table@[i as int], spec_table[i as int]));
        if str_eq(table[i].name, name) {
            return Some(table[i].command);
        }
        i = i + 1;
    }
    None
}

/// Every subcommand a build offers is found again under its own name, so
/// the command line never hands over a name that does not parse.
pub proof fn lemma_offered_names_parse(variant: Variant, i: int)
    requires
        0 <= i < subcommands_of(variant).len(),
    ensures
        command_named(variant, subcommands_of(variant)[i].0) == Some(subcommands_of(variant)[i].2),
{
    reveal_strlit("run");
    reveal_strlit("start");
    reveal_strlit("stop");
    reveal_strlit("install");
    reveal_strlit("uninstall");
    reveal_strlit("logs");
    assert("stop"@[0] != "logs"@[0]);
    assert("run"@.len() == 3);
    assert("start"@.len() == 5);
    assert("stop"@.len() == 4);
    assert("install"@.len() == 7);
    assert("uninstall"@.len() == 9);
    assert("logs"@.len() == 4);
    let t = subcommands_of(variant);
    let name = t[i].0;
    reveal_with_fuel(lookup, 7);
    match variant {
        Variant::Windows => {
            assert(t[0].0 == "run"@);
            assert(t[1].0 == "start"@);
            assert(t[2].0 == "stop"@);
            assert(t[3].0 == "install"@);
            assert(t[4].0 == "uninstall"@);
            assert(t[5].0 == "logs"@);
        },
        _ => {
            assert(t[0].0 == "start"@);
            assert(t[1].0 == "stop"@);
            assert(t[2].0 == "logs"@);
        },
    }
}

/// Each subcommand name selects the command of that name: `start`, `stop`
/// and `logs` in every build, and `run`, `install` and `uninstall` in the
/// Windows build only.
pub proof fn lemma_names_select_their_commands(variant: Variant)
    ensures
        command_named(variant, "start"@) == Some(Command::Start),
        command_named(variant, "stop"@) == Some(Command::Stop),
        command_named(variant, "logs"@) == Some(Command::Logs),
        command_named(variant, "run"@) == if variant == Variant::Windows {
            Some(Command::Run)
        } else {
            None
        },
        command_named(variant, "install"@) == if variant == Variant::Windows {
            Some(Command::Install)
        } else {
            None
        },
        command_named(variant, "uninstall"@) == if variant == Variant::Windows {
            Some(Command::Uninstall)
        } else {
            None
        },
{
    reveal_strlit("run");
    reveal_strlit("start");
    reveal_strlit("stop");
    reveal_strlit("install");
    reveal_strlit("uninstall");
    reveal_strlit("logs");
    assert("stop"@[0] != "logs"@[0]);
    assert("logs"@[0] != "stop"@[0]);
    assert("run"@.len() == 3);
    assert("start"@.len() == 5);
    assert("stop"@.len() == 4);
    assert("install"@.len() == 7);
    assert("uninstall"@.len() == 9);
    assert("logs"@.len() == 4);
    reveal_with_fuel(lookup, 8);
}

/// What `start` does, given the pid file.
#[derive(Debug, Clone, Copy, PartialEq, Eq, Structural)]
pub enum StartPlan {
    /// A daemon runs already: say so and do nothing.
    AlreadyRunning,
    /// Start the daemon.
    Launch,
}

/// What `stop` does, given the pid file.
#[derive(Debug, Clone, Copy, PartialEq, Eq, Structural)]
pub enum StopPlan {
    /// No daemon runs: say so and do nothing.
    NotRunning,
    /// Send the daemon with this process id the termination signal.
    Terminate(i32),
}

/// `start` launches a daemon only where none can be found from the pid file.
pub fn plan_start(pid_file: Option<&str>) -> (r: StartPlan)
    ensures
        r == if pid_of(contents_view(pid_file)) is Ok {
            StartPlan::AlreadyRunning
        } else {
            StartPlan::Launch
        },
{
    if read_pid(pid_file).is_ok() {
        StartPlan::AlreadyRunning
    } else {
        StartPlan::Launch
    }
}

/// `stop` signals the process that the pid file names, if it names one.
pub fn plan_stop(pid_file: Option<&str>) -> (r: StopPlan)
    ensures
        r == match pid_of(contents_view(pid_file)) {
            Ok(pid) => StopPlan::Terminate(pid),
            Err(_) => StopPlan::NotRunning,
        },
{
    match read_pid(pid_file) {
        Ok(pid) => StopPlan::Terminate(pid),
        Err(_) => StopPlan::NotRunning,
    }
}

/// How many times `stop` looks whether the daemon is gone.
pub open spec fn poll_limit() -> nat {
    10
}

/// Milliseconds `stop` waits between two looks.
pub fn poll_interval_ms() -> (r: u64)
    ensures
        r == 500,
{
    500
}

/// After the termination signal, `stop` looks whether the daemon is gone,
/// waiting between looks, until it is gone or it has waited ten times.
#[derive(Debug, Clone, Copy, PartialEq, Eq, Structural)]
pub struct StopPoller {
    /// How many times it has waited so far.
    pub attempts: u32,
    /// Whether it has seen the daemon gone.
    pub finished: bool,
}

/// One look: the poller after it, and whether to wait before the next.
pub open spec fn poll_step(p: StopPoller, running: bool) -> (StopPoller, bool) {
    if p.finished || p.attempts >= poll_limit() {
        (p, false)
    } else if running {
        (StopPoller { attempts: (p.attempts + 1) as u32, finished: false }, true)
    } else {
        (StopPoller { finished: true, ..p }, false)
    }
}

/// How many times the poller waits while it sees `looks`, one after another.
pub open spec fn waits(p: StopPoller, looks: Seq<bool>) -> nat
    decreases looks.len(),
{
    if looks.len() == 0 {
        0
    } else {
        let (p2, wait) = poll_step(p, looks[0]);
        (if wait {
            1nat
        } else {
            0nat
        }) + waits(p2, looks.drop_first())
    }
}

impl StopPoller {
    /// A poller that has not looked yet.
    pub fn new() -> (r: StopPoller)
        ensures
            r == (StopPoller { attempts: 0, finished: false }),
    {
        StopPoller { attempts: 0, finished: false }
    }

    /// Whether to look again.
    pub fn should_check(&self) -> (r: bool)
        ensures
            r == (!self.finished && self.attempts < poll_limit()),
    {
        !self.finished && self.attempts < 10
    }

    /// Records one look; says whether to wait before the next one.
    pub fn record(&mut self, running: bool) -> (wait: bool)
        ensures
            (*final(self), wait) == poll_step(*old(self), running),
    {
        if self.finished || self.attempts >= 10 {
            false
        } else if running {
            self.attempts = self.attempts + 1;
            true
        } else {
            self.finished = true;
            false
        }
    }
}

/// However long the daemon takes to go, `stop` waits at most ten times.
pub proof fn lemma_stop_waits_at_most_ten_times(p: StopPoller, looks: Seq<bool>)
    requires
        p.attempts <= poll_limit(),
    ensures
        waits(p, looks) + p.attempts <= poll_limit(),
    decreases looks.len(),
{
    if looks.len() > 0 {
        lemma_stop_waits_at_most_ten_times(poll_step(p, looks[0]).0, looks.drop_first());
    }
}

/// Once it has seen the daemon gone, `stop` looks no more.
pub proof fn lemma_stop_ends_when_gone(p: StopPoller)
    requires
        !p.finished,
        p.attempts < poll_limit(),
    ensures
        poll_step(p, false).0.finished,
        !poll_step(p, false).1,
{
}

} // verus!
