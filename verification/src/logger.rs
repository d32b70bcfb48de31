//! The logger: a cheaply duplicable handle that writes leveled, prefixed
//! lines to the configured output channel, and a one-shot progress report
//! composing the queue gauge with the work-item locator.

use std::io::Write;
use std::sync::Arc;
use vstd::prelude::*;
use vstd::rwlock::{RwLock, RwLockPredicate};
use vstd::string::StringExecFns;
use crate::configure::Verbose;
use crate::gauge::{gauge_text, QueueStatusBar};
use crate::locator::{locator_text, ProgressAt};
use crate::text::prefixed;

verus! {

/// Shared mutable state reachable from every duplicate of the handle.
/// Empty for now — a placeholder for future counters — and kept behind a
/// lock so that such additions stay race-free.
pub struct LoggerState {}

/// The lock invariant on the shared state: nothing is required of it yet.
pub struct StateInv {}

impl RwLockPredicate<LoggerState> for StateInv {
    open spec fn inv(self, v: LoggerState) -> bool {
        true
    }
}

/// A logging handle: immutable configuration plus the shared state block.
/// Duplicates carry their own copy of the configuration and share the state.
pub struct Logger {
    pub verbose: Verbose,
    pub stderr: bool,
    pub state: Arc<RwLock<LoggerState, StateInv>>,
}

/// Relies on `std::io::stdout` and `writeln`: best-effort write of the line
/// and a newline to standard output; a failure is not surfaced.
#[verifier::external_body]
fn emit_stdout(line: &str) {
    let _ = writeln!(std::io::stdout(), "{}", line);
}

/// Relies on `std::io::stderr` and `writeln`: best-effort write of the line
/// and a newline to standard error; a failure is not surfaced.
#[verifier::external_body]
fn emit_stderr(line: &str) {
    let _ = writeln!(std::io::stderr(), "{}", line);
}

/// Relies on `std::sync::Arc::clone`: the duplicate shares the same
/// allocation, so as a value it equals the original.
#[verifier::external_body]
fn dup_state(state: &Arc<RwLock<LoggerState, StateInv>>) -> (r: Arc<
    RwLock<LoggerState, StateInv>,
>)
    ensures
        r == *state,
{
    Arc::clone(state)
}

/// The three lines a headline writes, in order: an empty line, the title
/// behind a `### ` mark, and another empty line.
pub fn headline_lines(title: &str) -> (r: Vec<String>)
    ensures
        r@.len() == 3,
        r@[0]@ == Seq::<char>::empty(),
        r@[1]@ == "### "@ + title@,
        r@[2]@ == Seq::<char>::empty(),
{
    let mut lines: Vec<String> = Vec::new();
    lines.push(String::new());
    lines.push(prefixed("### ", title));
    lines.push(String::new());
    lines
}

/// The one line a progress report writes: the gauge, then the locator.
pub fn progress_line(queue: &QueueStatusBar, at: &ProgressAt) -> (r: String)
    ensures
        r@ == gauge_text(queue.cores as nat, queue.pending as nat) + ", latest: "@ + locator_text(
            *at,
        ),
{
    let mut r = queue.render();
    r.append(", latest: ");
    let loc = at.render();
    r.append(loc.as_str());
    proof {
        assert(r@ =~= gauge_text(queue.cores as nat, queue.pending as nat) + ", latest: "@
            + locator_text(*at));
    }
    r
}

impl Clone for Logger {
    /// A duplicate handle: its own copy of the configuration, sharing the
    /// same state block and lock.
    fn clone(&self) -> (r: Self)
        ensures
            r == *self,
    {
        Logger { verbose: self.verbose, stderr: self.stderr, state: dup_state(&self.state) }
    }
}

impl Logger {
    /// A fresh handle with the given configuration and fresh shared state.
    pub fn new(verbose: Verbose, stderr: bool) -> (r: Logger)
        ensures
            r.verbose == verbose,
            r.stderr == stderr,
    {
        Logger {
            verbose,
            stderr,
            state: Arc::new(RwLock::new(LoggerState {  }, Ghost(StateInv {  }))),
        }
    }

    /// One line to the configured channel: standard error if the handle was
    /// built for it, standard output otherwise.
    fn println(&self, line: &str) {
        if self.stderr {
            emit_stderr(line);
        } else {
            emit_stdout(line);
        }
    }

    /// Writes the headline block: three separate writes, not atomic as a
    /// group under concurrent callers.
    pub fn headline(&self, title: &str) {
        let lines = headline_lines(title);
        self.println(lines[0].as_str());
        self.println(lines[1].as_str());
        self.println(lines[2].as_str());
    }

    /// Writes `D: ` followed by the line, verbatim.
    pub fn debug(&self, line: &str) {
        self.println(prefixed("D: ", line).as_str());
    }

    /// Writes the progress report. It always goes to standard output, even
    /// on a handle configured for standard error.
    pub fn progress<P: Into<ProgressAt>>(&self, queue: QueueStatusBar, progress: P) {
        let at: ProgressAt = progress.into();
        let line = progress_line(&queue, &at);
        emit_stdout(line.as_str());
    }

    /// Writes the line unprefixed.
    pub fn info(&self, line: &str) {
        self.println(line);
    }

    /// Writes `><> ` followed by the line: the mark of messages from the
    /// worker's own protocol layer.
    pub fn fishnet_info(&self, line: &str) {
        self.println(prefixed("><> ", line).as_str());
    }

    /// Writes `W: ` followed by the line, verbatim.
    pub fn warn(&self, line: &str) {
        self.println(prefixed("W: ", line).as_str());
    }

    /// Writes `E: ` followed by the line, verbatim.
    pub fn error(&self, line: &str) {
        self.println(prefixed("E: ", line).as_str());
    }
}

} // verus!
