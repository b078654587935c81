//! The model of one live streaming operation.
//!
//! The operating-system side of a running command (the child process, its
//! pipes, and the two reader threads that feed lines into a channel) lives
//! outside this crate. What lives here is the supervisor's state for that
//! operation: the sanitized lines not yet drained, whether the input pipe is
//! still open, and whether the child is running, has exited, or was
//! cancelled. The runner feeds events in ([`StreamingProcess::record_line`],
//! [`StreamingProcess::record_exit`]) and the UI polls the state out
//! ([`StreamingProcess::poll_output`], [`StreamingProcess::try_wait`]);
//! every operation is non-blocking by construction, because every operation
//! here is a pure state change.
//!
//! The transition semantics is written out once, as [`step`], and each
//! mutating method promises to be exactly one step. The laws at the end of
//! the module are stated over arbitrary event sequences: a cancelled
//! operation never again reports success, and a closed input pipe never
//! reopens.

use vstd::prelude::*;
use vstd::string::StringExecFns;

use crate::policy::ImmediateResult;
use crate::sanitize::sanitize;
use crate::sanitize::strip_ansi;

verus! {

/// Whether the child is still running, has exited (and with what success),
/// or was cancelled by the user.
#[derive(Clone, Copy, Debug, PartialEq, Eq, Structural)]
pub enum ProcessStatus {
    Running,
    Exited(bool),
    Cancelled,
}

/// The abstract state of one streaming operation.
#[verifier::ext_equal]
pub struct ProcState {
    /// Sanitized output lines that have arrived and were not drained yet.
    pub lines: Seq<Seq<char>>,
    /// Whether the child's input pipe is still open.
    pub input_open: bool,
    /// Whether the child is running, exited, or cancelled.
    pub status: ProcessStatus,
}

/// One observation or action on a streaming operation.
pub enum ProcessEvent {
    /// A raw output line arrived from one of the reader threads.
    LineArrived(Seq<char>),
    /// The child was seen to have exited, with the given success.
    ExitObserved(bool),
    /// The pending lines were drained.
    Drained,
    /// The user terminated the operation.
    Terminated,
}

/// The transition semantics of a streaming operation: what each event does
/// to the abstract state.
///
/// An arriving line is sanitized and buffered. An observed exit is recorded
/// only while the child counts as running — in particular it cannot
/// overwrite a cancellation — and closes the input pipe. Draining empties
/// the line buffer. Termination closes the input pipe and marks the
/// operation cancelled, whatever state it was in: a cancelled operation
/// discards the child's own exit status.
pub open spec fn step(s: ProcState, e: ProcessEvent) -> ProcState {
    match e {
        ProcessEvent::LineArrived(raw) => ProcState {
            lines: s.lines.push(sanitize(raw)),
            input_open: s.input_open,
            status: s.status,
        },
        ProcessEvent::ExitObserved(ok) => if s.status is Running {
            ProcState { lines: s.lines, input_open: false, status: ProcessStatus::Exited(ok) }
        } else {
            s
        },
        ProcessEvent::Drained => ProcState {
            lines: Seq::<Seq<char>>::empty(),
            input_open: s.input_open,
            status: s.status,
        },
        ProcessEvent::Terminated => ProcState {
            lines: s.lines,
            input_open: false,
            status: ProcessStatus::Cancelled,
        },
    }
}

/// The state after a whole sequence of events.
pub open spec fn run_events(s: ProcState, evs: Seq<ProcessEvent>) -> ProcState
    decreases evs.len(),
{
    if evs.len() == 0 {
        s
    } else {
        run_events(step(s, evs[0]), evs.skip(1))
    }
}

/// What a non-blocking completion check reports in each status.
pub open spec fn status_report(s: ProcessStatus) -> Option<bool> {
    match s {
        ProcessStatus::Running => None,
        ProcessStatus::Exited(ok) => Some(ok),
        ProcessStatus::Cancelled => Some(false),
    }
}

/// A running process with streaming output and interactive input, as the
/// supervisor sees it.
pub struct StreamingProcess {
    pending: Vec<String>,
    stdin_open: bool,
    state: ProcessStatus,
}

impl StreamingProcess {
    /// The abstract state of this operation.
    pub closed spec fn abs(self) -> ProcState {
        ProcState {
            lines: self.pending.deep_view(),
            input_open: self.stdin_open,
            status: self.state,
        }
    }

    /// The sanitized lines that have arrived and were not drained yet.
    pub open spec fn pending_lines(self) -> Seq<Seq<char>> {
        self.abs().lines
    }

    /// Whether the input pipe is still open.
    pub open spec fn input_open(self) -> bool {
        self.abs().input_open
    }

    /// Whether the child is running, exited, or cancelled.
    pub open spec fn status(self) -> ProcessStatus {
        self.abs().status
    }

    /// The state of a freshly spawned operation: nothing buffered, input
    /// open, child running.
    pub fn new() -> (p: StreamingProcess)
        ensures
            p.abs() == (ProcState {
                lines: Seq::<Seq<char>>::empty(),
                input_open: true,
                status: ProcessStatus::Running,
            }),
    {
        let p = StreamingProcess { pending: Vec::new(), stdin_open: true, state: ProcessStatus::Running };
        proof {
            assert(p.abs() =~~= (ProcState {
                lines: Seq::<Seq<char>>::empty(),
                input_open: true,
                status: ProcessStatus::Running,
            }));
        }
        p
    }

    /// A raw line arrived from a reader thread: sanitize it and buffer it.
    pub fn record_line(&mut self, raw: &str)
        ensures
            final(self).abs() == step(old(self).abs(), ProcessEvent::LineArrived(raw@)),
    {
        let clean = strip_ansi(raw);
        self.pending.push(clean);
        proof {
            assert(final(self).abs() =~~= step(old(self).abs(), ProcessEvent::LineArrived(raw@)));
        }
    }

    /// The runner observed that the child exited, with the given success.
    pub fn record_exit(&mut self, success: bool)
        ensures
            final(self).abs() == step(old(self).abs(), ProcessEvent::ExitObserved(success)),
    {
        match self.state {
            ProcessStatus::Running => {
                self.state = ProcessStatus::Exited(success);
                self.stdin_open = false;
            },
            _ => {},
        }
        proof {
            assert(final(self).abs() =~~= step(old(self).abs(), ProcessEvent::ExitObserved(success)));
        }
    }

    /// Drain all buffered output lines without blocking: returns everything
    /// that was pending and leaves the buffer empty, so that a repeated
    /// call with no new output returns an empty sequence.
    pub fn poll_output(&mut self) -> (lines: Vec<String>)
        ensures
            lines.deep_view() == old(self).pending_lines(),
            final(self).abs() == step(old(self).abs(), ProcessEvent::Drained),
    {
        let mut lines: Vec<String> = Vec::new();
        core::mem::swap(&mut lines, &mut self.pending);
        proof {
            assert(final(self).abs() =~~= step(old(self).abs(), ProcessEvent::Drained));
        }
        lines
    }

    /// The line to write to the child's input pipe, terminator included, or
    /// nothing when the pipe is closed or gone: sending into a closed pipe
    /// is a silent no-op, never an error.
    pub fn send_input(&self, text: &str) -> (r: Option<String>)
        ensures
            self.input_open() ==> (r matches Some(line) && line@ == text@ + "\n"@),
            !self.input_open() ==> r is None,
    {
        if self.stdin_open {
            let mut line = text.to_owned();
            line.append("\n");
            Some(line)
        } else {
            None
        }
    }

    /// Non-blocking completion check: nothing while the child runs, its
    /// success once it exited, and failure once the operation was
    /// cancelled, whatever the child did afterwards.
    pub fn try_wait(&self) -> (r: Option<bool>)
        ensures
            r == status_report(self.status()),
    {
        match self.state {
            ProcessStatus::Running => None,
            ProcessStatus::Exited(ok) => Some(ok),
            ProcessStatus::Cancelled => Some(false),
        }
    }

    /// The user terminated the operation: the input pipe is closed (so a
    /// child blocked on a prompt wakes up) and the operation counts as
    /// cancelled from here on. Safe to call any number of times.
    pub fn kill(&mut self)
        ensures
            final(self).abs() == step(old(self).abs(), ProcessEvent::Terminated),
    {
        self.stdin_open = false;
        self.state = ProcessStatus::Cancelled;
        proof {
            assert(final(self).abs() =~~= step(old(self).abs(), ProcessEvent::Terminated));
        }
    }
}

/// The fixed outcome reported for a user-cancelled operation. The child's
/// own exit status and the accumulated log are discarded by design.
pub fn cancelled_outcome() -> (r: ImmediateResult)
    ensures
        !r@.success,
        r@.message == "Cancelled by user"@,
{
    ImmediateResult { success: false, message: "Cancelled by user".to_owned() }
}

/// The outcome reported when the operating system could not start the
/// command at all: a failure naming the executable and the error.
pub fn launch_failure(cmd: &str, err: &str) -> (r: ImmediateResult)
    ensures
        !r@.success,
        r@.message == "Could not run "@ + cmd@ + ": "@ + err@,
{
    let mut message = "Could not run ".to_owned();
    message.append(cmd);
    message.append(": ");
    message.append(err);
    ImmediateResult { success: false, message }
}

/// Termination is idempotent: terminating an already-terminated operation
/// changes nothing.
pub proof fn lemma_terminate_idempotent(s: ProcState)
    ensures
        step(step(s, ProcessEvent::Terminated), ProcessEvent::Terminated) == step(
            s,
            ProcessEvent::Terminated,
        ),
{
}

/// Draining leaves nothing behind: after a drain, a second drain (with no
/// line arriving in between) finds an empty buffer.
pub proof fn lemma_repeated_drain_empty(s: ProcState)
    ensures
        step(s, ProcessEvent::Drained).lines == Seq::<Seq<char>>::empty(),
        step(step(s, ProcessEvent::Drained), ProcessEvent::Drained).lines == Seq::<
            Seq<char>,
        >::empty(),
{
}

/// The input pipe is open only while the child counts as running. Every
/// state a freshly spawned operation can reach satisfies this: observing an
/// exit and terminating both close the pipe.
pub open spec fn consistent(s: ProcState) -> bool {
    s.status is Running || !s.input_open
}

/// Every event preserves consistency, so in any reachable state a child
/// that exited or was cancelled has its input pipe closed — which is what
/// makes sending input afterwards a silent no-op.
pub proof fn lemma_step_preserves_consistency(s: ProcState, e: ProcessEvent)
    requires
        consistent(s),
    ensures
        consistent(step(s, e)),
{
}

/// A closed input pipe never reopens, whatever happens afterwards: sending
/// input stays a no-op once the child exited or the user terminated.
pub proof fn lemma_input_stays_closed(s: ProcState, evs: Seq<ProcessEvent>)
    requires
        !s.input_open,
    ensures
        !run_events(s, evs).input_open,
    decreases evs.len(),
{
    if evs.len() > 0 {
        lemma_input_stays_closed(step(s, evs[0]), evs.skip(1));
    }
}

/// Cancellation is final: once an operation was terminated, no sequence of
/// later events makes the completion check report success.
pub proof fn lemma_cancelled_never_reports_success(s: ProcState, evs: Seq<ProcessEvent>)
    requires
        s.status is Cancelled,
    ensures
        run_events(s, evs).status is Cancelled,
        status_report(run_events(s, evs).status) != Some(true),
    decreases evs.len(),
{
    if evs.len() > 0 {
        lemma_cancelled_never_reports_success(step(s, evs[0]), evs.skip(1));
    }
}

} // verus!
