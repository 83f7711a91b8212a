//! The orchestration of one run: acquire an enumeration handle for the
//! device class, locate the target device, request the restart, report the
//! outcome, and release the handle on every path.
//!
//! The run is a state machine. Each step consumes the outcome of the last
//! command — acquiring the handle, running the locator, submitting the
//! state change, presenting a message, releasing the handle — and decides
//! the next command; a driver performs the commands against the subsystem
//! and feeds the outcomes back. A presenter that does nothing and
//! acknowledges at once gives the unattended variant of the run; the
//! decisions here do not change.

use vstd::prelude::*;
use crate::action::DeviceStateChangeAction;
use crate::message::Message;
use crate::message::Severity;

verus! {

/// What a run asks its driver to do next.
#[derive(Clone, PartialEq, Eq, Debug)]
pub enum Command {
    /// Acquire the enumeration handle for the fixed device class.
    OpenSet,
    /// Enumerate the class and scan it for the target identifier.
    FindDevice,
    /// Submit a property-change request for the located device.
    ChangeState(DeviceStateChangeAction),
    /// Present a message to the user.
    Show(Message, Severity),
    /// Release the enumeration handle.
    CloseSet,
    /// End the run with a success or failure status.
    Exit(bool),
}

/// The outcome of a command, handed back to the run. Commands with nothing
/// to report — presenting a message, releasing the handle — are acknowledged.
#[derive(Clone, PartialEq, Eq, Debug)]
pub enum Event {
    OpenSucceeded,
    OpenFailed(String),
    DeviceFound,
    DeviceNotFound,
    FindFailed(String),
    ChangeSucceeded,
    ChangeFailed(String),
    Acknowledged,
}

/// Where a run stands between two commands.
#[derive(Clone, PartialEq, Eq, Debug)]
pub enum Phase {
    /// The handle is being acquired.
    Opening,
    /// The handle is held; the locator is running.
    Finding,
    /// The handle is held; the restart request is with the subsystem.
    Changing,
    /// The handle is held; the outcome is being presented, after which the
    /// handle is released and the run ends with `success`.
    Showing { success: bool },
    /// The handle is being released; the run then ends with `success`.
    Closing { success: bool },
    /// An operation failed while the handle was held; the handle is being
    /// released, after which the error is presented.
    ClosingOnError { error: String },
    /// No handle is held any more; a failure is being presented, after which
    /// the run ends with failure status.
    ShowingLast,
    /// The run is over.
    Finished { success: bool },
}

/// The one step relation of a run: from a phase, the outcome of the pending
/// command decides the next phase and the next command. `None` is an outcome
/// that the pending command cannot produce.
pub open spec fn next(p: Phase, e: Event) -> Option<(Phase, Command)> {
    match (p, e) {
        (Phase::Opening, Event::OpenSucceeded) => Some((Phase::Finding, Command::FindDevice)),
        (Phase::Opening, Event::OpenFailed(msg)) => Some((
            Phase::ShowingLast,
            Command::Show(Message::Failure(msg), Severity::Alert),
        )),
        (Phase::Finding, Event::DeviceFound) => Some((
            Phase::Changing,
            Command::ChangeState(DeviceStateChangeAction::Restart),
        )),
        (Phase::Finding, Event::DeviceNotFound) => Some((
            Phase::Showing { success: false },
            Command::Show(Message::NotFound, Severity::Alert),
        )),
        (Phase::Finding, Event::FindFailed(msg)) => Some((
            Phase::ClosingOnError { error: msg },
            Command::CloseSet,
        )),
        (Phase::Changing, Event::ChangeSucceeded) => Some((
            Phase::Showing { success: true },
            Command::Show(Message::Restarted, Severity::Info),
        )),
        (Phase::Changing, Event::ChangeFailed(msg)) => Some((
            Phase::ClosingOnError { error: msg },
            Command::CloseSet,
        )),
        (Phase::Showing { success }, Event::Acknowledged) => Some((
            Phase::Closing { success },
            Command::CloseSet,
        )),
        (Phase::Closing { success }, Event::Acknowledged) => Some((
            Phase::Finished { success },
            Command::Exit(success),
        )),
        (Phase::ClosingOnError { error }, Event::Acknowledged) => Some((
            Phase::ShowingLast,
            Command::Show(Message::Failure(error), Severity::Alert),
        )),
        (Phase::ShowingLast, Event::Acknowledged) => Some((
            Phase::Finished { success: false },
            Command::Exit(false),
        )),
        _ => None,
    }
}

/// A run of the orchestrator, stepped by its driver.
pub struct Orchestrator {
    pub phase: Phase,
}

impl Orchestrator {
    /// Begins a run: the first command is to acquire the enumeration handle.
    pub fn start() -> (r: (Orchestrator, Command))
        ensures
            r.0.phase == Phase::Opening,
            r.1 == Command::OpenSet,
    {
        (Orchestrator { phase: Phase::Opening }, Command::OpenSet)
    }

    /// Consumes the outcome of the pending command and decides the next
    /// command, exactly as the step relation says; `None` on an outcome the
    /// pending command cannot produce.
    pub fn step(self, event: Event) -> (r: Option<(Orchestrator, Command)>)
        ensures
            r is Some <==> next(self.phase, event) is Some,
            r matches Some(oc) ==> next(self.phase, event) == Some((oc.0.phase, oc.1)),
    {
        match (self.phase, event) {
            (Phase::Opening, Event::OpenSucceeded) => Some((
                Orchestrator { phase: Phase::Finding },
                Command::FindDevice,
            )),
            (Phase::Opening, Event::OpenFailed(msg)) => Some((
                Orchestrator { phase: Phase::ShowingLast },
                Command::Show(Message::Failure(msg), Severity::Alert),
            )),
            (Phase::Finding, Event::DeviceFound) => Some((
                Orchestrator { phase: Phase::Changing },
                Command::ChangeState(DeviceStateChangeAction::Restart),
            )),
            (Phase::Finding, Event::DeviceNotFound) => Some((
                Orchestrator { phase: Phase::Showing { success: false } },
                Command::Show(Message::NotFound, Severity::Alert),
            )),
            (Phase::Finding, Event::FindFailed(msg)) => Some((
                Orchestrator { phase: Phase::ClosingOnError { error: msg } },
                Command::CloseSet,
            )),
            (Phase::Changing, Event::ChangeSucceeded) => Some((
                Orchestrator { phase: Phase::Showing { success: true } },
                Command::Show(Message::Restarted, Severity::Info),
            )),
            (Phase::Changing, Event::ChangeFailed(msg)) => Some((
                Orchestrator { phase: Phase::ClosingOnError { error: msg } },
                Command::CloseSet,
            )),
            (Phase::Showing { success }, Event::Acknowledged) => Some((
                Orchestrator { phase: Phase::Closing { success } },
                Command::CloseSet,
            )),
            (Phase::Closing { success }, Event::Acknowledged) => Some((
                Orchestrator { phase: Phase::Finished { success } },
                Command::Exit(success),
            )),
            (Phase::ClosingOnError { error }, Event::Acknowledged) => Some((
                Orchestrator { phase: Phase::ShowingLast },
                Command::Show(Message::Failure(error), Severity::Alert),
            )),
            (Phase::ShowingLast, Event::Acknowledged) => Some((
                Orchestrator { phase: Phase::Finished { success: false } },
                Command::Exit(false),
            )),
            _ => None,
        }
    }
}

/// The events drive the run from phase `p` to its end.
pub open spec fn valid_run(p: Phase, es: Seq<Event>) -> bool
    decreases es.len(),
{
    if es.len() == 0 {
        p is Finished
    } else {
        match next(p, es[0]) {
            Some(pc) => valid_run(pc.0, es.skip(1)),
            None => false,
        }
    }
}

/// The commands a run issues, in order, under the events `es`.
pub open spec fn run_commands(p: Phase, es: Seq<Event>) -> Seq<Command>
    decreases es.len(),
{
    if es.len() == 0 {
        Seq::empty()
    } else {
        match next(p, es[0]) {
            Some(pc) => seq![pc.1] + run_commands(pc.0, es.skip(1)),
            None => Seq::empty(),
        }
    }
}

/// The phase a run reaches under the events `es`.
pub open spec fn final_phase(p: Phase, es: Seq<Event>) -> Phase
    decreases es.len(),
{
    if es.len() == 0 {
        p
    } else {
        match next(p, es[0]) {
            Some(pc) => final_phase(pc.0, es.skip(1)),
            None => p,
        }
    }
}

/// How often the handle is released in a sequence of commands.
pub open spec fn close_count(cs: Seq<Command>) -> nat
    decreases cs.len(),
{
    if cs.len() == 0 {
        0
    } else {
        (if cs[0] is CloseSet {
            1nat
        } else {
            0nat
        }) + close_count(cs.skip(1))
    }
}

proof fn lemma_close_count_cons(c: Command, rest: Seq<Command>)
    ensures
        close_count(seq![c] + rest) == (if c is CloseSet {
            1nat
        } else {
            0nat
        }) + close_count(rest),
{
    let s = seq![c] + rest;
    assert(s[0] == c);
    assert(s.skip(1) =~= rest);
}

/// How many releases a phase still owes: one while the handle is held and
/// its release not yet commanded, none otherwise.
pub open spec fn closes_owed(p: Phase) -> nat {
    match p {
        Phase::Finding | Phase::Changing | Phase::Showing { .. } => 1,
        _ => 0,
    }
}

proof fn lemma_closes_balance(p: Phase, es: Seq<Event>)
    requires
        valid_run(p, es),
        !(p is Opening),
    ensures
        close_count(run_commands(p, es)) == closes_owed(p),
    decreases es.len(),
{
    if es.len() == 0 {
    } else {
        let pc = next(p, es[0])->Some_0;
        lemma_closes_balance(pc.0, es.skip(1));
        lemma_close_count_cons(pc.1, run_commands(pc.0, es.skip(1)));
    }
}

/// The enumeration handle is released exactly once per run, on every exit
/// path: a run whose acquisition succeeded releases the handle exactly once,
/// whichever way it then went; a run whose acquisition failed holds no
/// handle and never releases one.
pub proof fn lemma_handle_released_exactly_once(es: Seq<Event>)
    requires
        valid_run(Phase::Opening, es),
    ensures
        close_count(run_commands(Phase::Opening, es)) == (if es[0] is OpenSucceeded {
            1nat
        } else {
            0nat
        }),
{
    let pc = next(Phase::Opening, es[0])->Some_0;
    lemma_closes_balance(pc.0, es.skip(1));
    lemma_close_count_cons(pc.1, run_commands(pc.0, es.skip(1)));
}

/// When the target identifier is absent from the enumerated set, the run
/// presents "could not find device" — no generic error — releases the
/// handle, and exits with failure status.
pub proof fn lemma_run_not_found(es: Seq<Event>)
    requires
        valid_run(Phase::Opening, es),
        es[0] is OpenSucceeded,
        es[1] is DeviceNotFound,
    ensures
        es.len() == 4,
        final_phase(Phase::Opening, es) == (Phase::Finished { success: false }),
        run_commands(Phase::Opening, es) == seq![
            Command::FindDevice,
            Command::Show(Message::NotFound, Severity::Alert),
            Command::CloseSet,
            Command::Exit(false),
        ],
{
    reveal_with_fuel(valid_run, 6);
    reveal_with_fuel(run_commands, 6);
    reveal_with_fuel(final_phase, 6);
    assert(es.skip(1)[0] == es[1]);
    assert(valid_run(Phase::Finding, es.skip(1)));
    assert(valid_run(Phase::Showing { success: false }, es.skip(1).skip(1)));
    let es2 = es.skip(1).skip(1);
    assert(es2[0] is Acknowledged) by {
        if !(es2[0] is Acknowledged) {
            assert(next(Phase::Showing { success: false }, es2[0]) is None);
        }
    }
    assert(valid_run(Phase::Closing { success: false }, es2.skip(1)));
    let es3 = es2.skip(1);
    assert(es3[0] is Acknowledged) by {
        if !(es3[0] is Acknowledged) {
            assert(next(Phase::Closing { success: false }, es3[0]) is None);
        }
    }
    assert(valid_run(Phase::Finished { success: false }, es3.skip(1)));
    assert(es3.skip(1).len() == 0) by {
        if es3.skip(1).len() != 0 {
            assert(next(Phase::Finished { success: false }, es3.skip(1)[0]) is None);
        }
    }
    assert(es.len() == 4);
    assert(run_commands(Phase::Opening, es) =~= seq![
        Command::FindDevice,
        Command::Show(Message::NotFound, Severity::Alert),
        Command::CloseSet,
        Command::Exit(false),
    ]);
}

/// When the target is present and both the state-change submission and the
/// installer invocation succeed, the run presents the success message,
/// releases the handle, and exits with success status.
pub proof fn lemma_run_success(es: Seq<Event>)
    requires
        valid_run(Phase::Opening, es),
        es[0] is OpenSucceeded,
        es[1] is DeviceFound,
        es[2] is ChangeSucceeded,
    ensures
        es.len() == 5,
        final_phase(Phase::Opening, es) == (Phase::Finished { success: true }),
        run_commands(Phase::Opening, es) == seq![
            Command::FindDevice,
            Command::ChangeState(DeviceStateChangeAction::Restart),
            Command::Show(Message::Restarted, Severity::Info),
            Command::CloseSet,
            Command::Exit(true),
        ],
{
    reveal_with_fuel(valid_run, 7);
    reveal_with_fuel(run_commands, 7);
    reveal_with_fuel(final_phase, 7);
    assert(es.skip(1)[0] == es[1]);
    assert(es.skip(1).skip(1)[0] == es[2]);
    assert(valid_run(Phase::Finding, es.skip(1)));
    assert(valid_run(Phase::Changing, es.skip(1).skip(1)));
    assert(valid_run(Phase::Showing { success: true }, es.skip(1).skip(1).skip(1)));
    let es3 = es.skip(1).skip(1).skip(1);
    assert(es3[0] is Acknowledged) by {
        if !(es3[0] is Acknowledged) {
            assert(next(Phase::Showing { success: true }, es3[0]) is None);
        }
    }
    assert(valid_run(Phase::Closing { success: true }, es3.skip(1)));
    let es4 = es3.skip(1);
    assert(es4[0] is Acknowledged) by {
        if !(es4[0] is Acknowledged) {
            assert(next(Phase::Closing { success: true }, es4[0]) is None);
        }
    }
    assert(valid_run(Phase::Finished { success: true }, es4.skip(1)));
    assert(es4.skip(1).len() == 0) by {
        if es4.skip(1).len() != 0 {
            assert(next(Phase::Finished { success: true }, es4.skip(1)[0]) is None);
        }
    }
    assert(es.len() == 5);
    assert(run_commands(Phase::Opening, es) =~= seq![
        Command::FindDevice,
        Command::ChangeState(DeviceStateChangeAction::Restart),
        Command::Show(Message::Restarted, Severity::Info),
        Command::CloseSet,
        Command::Exit(true),
    ]);
}

/// When the installer invocation fails, the run releases the handle first,
/// then presents a failure message carrying the subsystem's own error text,
/// and exits with failure status.
pub proof fn lemma_run_change_failed(es: Seq<Event>, error: String)
    requires
        valid_run(Phase::Opening, es),
        es[0] is OpenSucceeded,
        es[1] is DeviceFound,
        es[2] == Event::ChangeFailed(error),
    ensures
        es.len() == 5,
        final_phase(Phase::Opening, es) == (Phase::Finished { success: false }),
        run_commands(Phase::Opening, es) == seq![
            Command::FindDevice,
            Command::ChangeState(DeviceStateChangeAction::Restart),
            Command::CloseSet,
            Command::Show(Message::Failure(error), Severity::Alert),
            Command::Exit(false),
        ],
{
    reveal_with_fuel(valid_run, 7);
    reveal_with_fuel(run_commands, 7);
    reveal_with_fuel(final_phase, 7);
    assert(es.skip(1)[0] == es[1]);
    assert(es.skip(1).skip(1)[0] == es[2]);
    assert(valid_run(Phase::Finding, es.skip(1)));
    assert(valid_run(Phase::Changing, es.skip(1).skip(1)));
    assert(valid_run(Phase::ClosingOnError { error }, es.skip(1).skip(1).skip(1)));
    let es3 = es.skip(1).skip(1).skip(1);
    assert(es3[0] is Acknowledged) by {
        if !(es3[0] is Acknowledged) {
            assert(next(Phase::ClosingOnError { error }, es3[0]) is None);
        }
    }
    assert(valid_run(Phase::ShowingLast, es3.skip(1)));
    let es4 = es3.skip(1);
    assert(es4[0] is Acknowledged) by {
        if !(es4[0] is Acknowledged) {
            assert(next(Phase::ShowingLast, es4[0]) is None);
        }
    }
    assert(valid_run(Phase::Finished { success: false }, es4.skip(1)));
    assert(es4.skip(1).len() == 0) by {
        if es4.skip(1).len() != 0 {
            assert(next(Phase::Finished { success: false }, es4.skip(1)[0]) is None);
        }
    }
    assert(es.len() == 5);
    assert(run_commands(Phase::Opening, es) =~= seq![
        Command::FindDevice,
        Command::ChangeState(DeviceStateChangeAction::Restart),
        Command::CloseSet,
        Command::Show(Message::Failure(error), Severity::Alert),
        Command::Exit(false),
    ]);
}

} // verus!
