use crate::errors::{ErrorView, PulseCtlError, PulseCtlErrorType};
use vstd::prelude::*;
use vstd::string::StringExecFns;

verus! {

/// What one turn of the event loop reported.
#[derive(Clone, Copy, Debug, PartialEq, Eq, Structural)]
pub enum IterateResult {
    /// The turn ran; callbacks that were due have been delivered.
    Success,
    /// The loop was asked to quit.
    Quit,
    /// The loop failed.
    Error,
}

/// The states of the connection to the server.
#[derive(Clone, Copy, Debug, PartialEq, Eq, Structural)]
pub enum ContextState {
    Unconnected,
    Connecting,
    Authorizing,
    SettingName,
    Ready,
    Failed,
    Terminated,
}

/// The states of one request that was handed to the server.
#[derive(Clone, Copy, Debug, PartialEq, Eq, Structural)]
pub enum OperationState {
    Running,
    Done,
    Cancelled,
}

/// Where a session stands.
#[derive(Clone, Copy, Debug, PartialEq, Eq, Structural)]
pub enum Phase {
    /// The handshake was started and has not ended.
    Connecting,
    /// Connected, and no request is in flight.
    Ready,
    /// Connected, and one request is in flight.
    Busy,
    /// The handshake failed. The session stays so.
    Failed,
    /// The session was torn down.
    Closed,
}

/// What one turn of the event loop means to whoever waits.
#[derive(Clone, Copy, Debug, PartialEq, Eq, Structural)]
pub enum Verdict {
    /// Nothing is decided: turn the loop again.
    Pending,
    /// What was waited for has come.
    Complete,
    /// The loop quit or failed.
    LoopStopped,
    /// The server gave up: the context failed or was terminated, or the
    /// operation was cancelled.
    Refused,
}

/// The session with the server: the name the client goes by, and where the
/// connection stands.
pub struct Handler {
    name: String,
    phase: Phase,
}

/// What a `Handler` holds, as plain values.
pub struct HandlerView {
    pub name: Seq<char>,
    pub phase: Phase,
}

impl View for Handler {
    type V = HandlerView;

    closed spec fn view(&self) -> HandlerView {
        HandlerView { name: self.name@, phase: self.phase }
    }
}

/// What a turn means during the handshake. The loop is looked at first: once
/// it has stopped, the state of the context no longer counts.
pub open spec fn handshake_verdict(tick: IterateResult, context: ContextState) -> Verdict {
    match tick {
        IterateResult::Quit | IterateResult::Error => Verdict::LoopStopped,
        IterateResult::Success => match context {
            ContextState::Ready => Verdict::Complete,
            ContextState::Failed | ContextState::Terminated => Verdict::Refused,
            _ => Verdict::Pending,
        },
    }
}

/// What a turn means while a request is in flight. The loop is looked at
/// first: once it has stopped, the state of the operation no longer counts.
pub open spec fn wait_verdict(tick: IterateResult, operation: OperationState) -> Verdict {
    match tick {
        IterateResult::Quit | IterateResult::Error => Verdict::LoopStopped,
        IterateResult::Success => match operation {
            OperationState::Done => Verdict::Complete,
            OperationState::Cancelled => Verdict::Refused,
            OperationState::Running => Verdict::Pending,
        },
    }
}

/// What a run of verdicts comes to: the first of them that decides
/// anything, and `Pending` if there is none.
pub open spec fn first_deciding(verdicts: Seq<Verdict>) -> Verdict
    decreases verdicts.len(),
{
    if verdicts.len() == 0 {
        Verdict::Pending
    } else if verdicts[0] != Verdict::Pending {
        verdicts[0]
    } else {
        first_deciding(verdicts.skip(1))
    }
}

/// What each turn of a run means during the handshake.
pub open spec fn handshake_verdicts(turns: Seq<(IterateResult, ContextState)>) -> Seq<Verdict> {
    turns.map_values(|turn: (IterateResult, ContextState)| handshake_verdict(turn.0, turn.1))
}

/// What each turn of a run means while a request is in flight.
pub open spec fn wait_verdicts(turns: Seq<(IterateResult, OperationState)>) -> Seq<Verdict> {
    turns.map_values(|turn: (IterateResult, OperationState)| wait_verdict(turn.0, turn.1))
}

/// What a run of turns means during the handshake: what its first turn means
/// that decides anything, and `Pending` if there is none.
pub open spec fn handshake_outcome(turns: Seq<(IterateResult, ContextState)>) -> Verdict {
    first_deciding(handshake_verdicts(turns))
}

/// What a run of turns means while a request is in flight: what its first
/// turn means that decides anything, and `Pending` if there is none.
pub open spec fn wait_outcome(turns: Seq<(IterateResult, OperationState)>) -> Verdict {
    first_deciding(wait_verdicts(turns))
}

/// The error that ends a handshake on a verdict of failure.
pub open spec fn handshake_error(verdict: Verdict) -> ErrorView {
    ErrorView {
        kind: PulseCtlErrorType::ConnectError,
        message: if verdict == Verdict::LoopStopped {
            "iterate state was not success, quitting..."@
        } else {
            "context state failed/terminated, quitting..."@
        },
    }
}

/// The error that ends a wait on a verdict of failure.
pub open spec fn wait_error(verdict: Verdict) -> ErrorView {
    ErrorView {
        kind: PulseCtlErrorType::OperationError,
        message: if verdict == Verdict::LoopStopped {
            "the event loop stopped before the operation was done"@
        } else {
            "the operation was cancelled"@
        },
    }
}

/// The error for a call that the session, in the phase it is in, cannot take.
pub open spec fn refusal(phase: Phase) -> ErrorView {
    match phase {
        Phase::Busy => ErrorView {
            kind: PulseCtlErrorType::OperationError,
            message: "a request is already in flight"@,
        },
        Phase::Ready => ErrorView {
            kind: PulseCtlErrorType::OperationError,
            message: "no request is in flight"@,
        },
        Phase::Connecting => ErrorView {
            kind: PulseCtlErrorType::ConnectError,
            message: "the session is not connected yet"@,
        },
        Phase::Failed => ErrorView {
            kind: PulseCtlErrorType::ConnectError,
            message: "the session failed to connect"@,
        },
        Phase::Closed => ErrorView {
            kind: PulseCtlErrorType::ConnectError,
            message: "the session is closed"@,
        },
    }
}

/// The answer that goes with a verdict is `None` while it is pending,
/// success when it is complete, and else the error that `error` gives.
pub open spec fn told(
    answer: Option<Result<(), PulseCtlError>>,
    verdict: Verdict,
    error: ErrorView,
) -> bool {
    match verdict {
        Verdict::Pending => answer is None,
        Verdict::Complete => answer == Some(Ok::<(), PulseCtlError>(())),
        _ => answer matches Some(Err(e)) && e@ == error,
    }
}

/// The phase of a connecting session after a verdict on its handshake.
pub open spec fn phase_after_handshake(verdict: Verdict) -> Phase {
    match verdict {
        Verdict::Pending => Phase::Connecting,
        Verdict::Complete => Phase::Ready,
        _ => Phase::Failed,
    }
}

/// The phase of a busy session after a verdict on its request: a request
/// that ended, well or badly, leaves the session ready for the next.
pub open spec fn phase_after_wait(verdict: Verdict) -> Phase {
    match verdict {
        Verdict::Pending => Phase::Busy,
        _ => Phase::Ready,
    }
}

fn refuse(phase: Phase) -> (e: PulseCtlError)
    ensures
        e@ == refusal(phase),
{
    match phase {
        Phase::Busy => PulseCtlError::new(
            PulseCtlErrorType::OperationError,
            "a request is already in flight",
        ),
        Phase::Ready => PulseCtlError::new(
            PulseCtlErrorType::OperationError,
            "no request is in flight",
        ),
        Phase::Connecting => PulseCtlError::new(
            PulseCtlErrorType::ConnectError,
            "the session is not connected yet",
        ),
        Phase::Failed => PulseCtlError::new(
            PulseCtlErrorType::ConnectError,
            "the session failed to connect",
        ),
        Phase::Closed => PulseCtlError::new(
            PulseCtlErrorType::ConnectError,
            "the session is closed",
        ),
    }
}

fn judge_handshake(tick: IterateResult, context: ContextState) -> (v: Verdict)
    ensures
        v == handshake_verdict(tick, context),
{
    match tick {
        IterateResult::Quit | IterateResult::Error => Verdict::LoopStopped,
        IterateResult::Success => match context {
            ContextState::Ready => Verdict::Complete,
            ContextState::Failed | ContextState::Terminated => Verdict::Refused,
            _ => Verdict::Pending,
        },
    }
}

fn judge_wait(tick: IterateResult, operation: OperationState) -> (v: Verdict)
    ensures
        v == wait_verdict(tick, operation),
{
    match tick {
        IterateResult::Quit | IterateResult::Error => Verdict::LoopStopped,
        IterateResult::Success => match operation {
            OperationState::Done => Verdict::Complete,
            OperationState::Cancelled => Verdict::Refused,
            OperationState::Running => Verdict::Pending,
        },
    }
}

fn tell_handshake(verdict: Verdict) -> (answer: Option<Result<(), PulseCtlError>>)
    ensures
        told(answer, verdict, handshake_error(verdict)),
{
    match verdict {
        Verdict::Pending => None,
        Verdict::Complete => Some(Ok(())),
        Verdict::LoopStopped => Some(
            Err(
                PulseCtlError::new(
                    PulseCtlErrorType::ConnectError,
                    "iterate state was not success, quitting...",
                ),
            ),
        ),
        Verdict::Refused => Some(
            Err(
                PulseCtlError::new(
                    PulseCtlErrorType::ConnectError,
                    "context state failed/terminated, quitting...",
                ),
            ),
        ),
    }
}

fn tell_wait(verdict: Verdict) -> (answer: Option<Result<(), PulseCtlError>>)
    ensures
        told(answer, verdict, wait_error(verdict)),
{
    match verdict {
        Verdict::Pending => None,
        Verdict::Complete => Some(Ok(())),
        Verdict::LoopStopped => Some(
            Err(
                PulseCtlError::new(
                    PulseCtlErrorType::OperationError,
                    "the event loop stopped before the operation was done",
                ),
            ),
        ),
        Verdict::Refused => Some(
            Err(PulseCtlError::new(PulseCtlErrorType::OperationError, "the operation was cancelled")),
        ),
    }
}

impl Handler {
    /// Opens a session under the client name `name`. The handshake is
    /// started and not over: the session is `Connecting` until the turns of
    /// the event loop, handed to `handshake_step` or `handshake`, decide it.
    pub fn connect(name: &str) -> (h: Handler)
        ensures
            h@.name == name@,
            h@.phase == Phase::Connecting,
    {
        Handler { name: String::from_str(name), phase: Phase::Connecting }
    }

    /// The name the client goes by.
    pub fn name(&self) -> (n: &str)
        ensures
            n@ == self@.name,
    {
        self.name.as_str()
    }

    /// Where the session stands.
    pub fn phase(&self) -> (p: Phase)
        ensures
            p == self@.phase,
    {
        self.phase
    }

    /// Whether the session can take a request now.
    pub fn is_ready(&self) -> (b: bool)
        ensures
            b == (self@.phase == Phase::Ready),
    {
        match self.phase {
            Phase::Ready => true,
            _ => false,
        }
    }

    /// Takes in one turn of the event loop during the handshake, with the
    /// state of the context after it. `None` asks for another turn;
    /// `Some(Ok)` says that the session is ready; `Some(Err)` that the
    /// handshake failed, for good. A session that is not connecting refuses
    /// the turn and stays as it is.
    pub fn handshake_step(&mut self, tick: IterateResult, context: ContextState) -> (answer: Option<
        Result<(), PulseCtlError>,
    >)
        ensures
            final(self)@.name == old(self)@.name,
            old(self)@.phase == Phase::Connecting ==> {
                &&& told(
                    answer,
                    handshake_verdict(tick, context),
                    handshake_error(handshake_verdict(tick, context)),
                )
                &&& final(self)@.phase == phase_after_handshake(handshake_verdict(tick, context))
            },
            old(self)@.phase != Phase::Connecting ==> {
                &&& answer matches Some(Err(e)) && e@ == refusal(old(self)@.phase)
                &&& final(self)@.phase == old(self)@.phase
            },
    {
        match self.phase {
            Phase::Connecting => {
                let verdict = judge_handshake(tick, context);
                match verdict {
                    Verdict::Pending => {},
                    Verdict::Complete => {
                        self.phase = Phase::Ready;
                    },
                    _ => {
                        self.phase = Phase::Failed;
                    },
                }
                tell_handshake(verdict)
            },
            _ => Some(Err(refuse(self.phase))),
        }
    }

    /// Runs the handshake over recorded turns, in order, up to the first
    /// turn that decides it; later turns are not looked at. The answer and
    /// the phase afterwards are those of `handshake_step` on that turn; with
    /// no such turn the answer is `None` and the session is still connecting.
    pub fn handshake(&mut self, turns: &Vec<(IterateResult, ContextState)>) -> (answer: Option<
        Result<(), PulseCtlError>,
    >)
        ensures
            final(self)@.name == old(self)@.name,
            old(self)@.phase == Phase::Connecting ==> {
                &&& told(
                    answer,
                    handshake_outcome(turns@),
                    handshake_error(handshake_outcome(turns@)),
                )
                &&& final(self)@.phase == phase_after_handshake(handshake_outcome(turns@))
            },
            old(self)@.phase != Phase::Connecting ==> {
                &&& answer matches Some(Err(e)) && e@ == refusal(old(self)@.phase)
                &&& final(self)@.phase == old(self)@.phase
            },
    {
        match self.phase {
            Phase::Connecting => {},
            _ => {
                return Some(Err(refuse(self.phase)));
            },
        }
        let mut i: usize = 0;
        assert(handshake_verdicts(turns@).skip(0) =~= handshake_verdicts(turns@));
        while i < turns.len()
            invariant
                i <= turns.len(),
                self@.name == old(self)@.name,
                old(self)@.phase == Phase::Connecting,
                self@.phase == Phase::Connecting,
                handshake_outcome(turns@) == first_deciding(handshake_verdicts(turns@).skip(i as int)),
            decreases turns.len() - i,
        {
            let (tick, context) = turns[i];
            proof {
                let verdicts = handshake_verdicts(turns@);
                let rest = verdicts.skip(i as int);
                assert(rest[0] == verdicts[i as int]);
                assert(rest.skip(1) =~= verdicts.skip(i + 1));
            }
            let answer = self.handshake_step(tick, context);
            if answer.is_some() {
                return answer;
            }
            i += 1;
        }
        None
    }

    /// Marks that a request is handed to the server. A ready session
    /// becomes busy; any other refuses and stays as it is.
    pub fn start_request(&mut self) -> (r: Result<(), PulseCtlError>)
        ensures
            final(self)@.name == old(self)@.name,
            old(self)@.phase == Phase::Ready ==> r is Ok && final(self)@.phase == Phase::Busy,
            old(self)@.phase != Phase::Ready ==> {
                &&& r matches Err(e) && e@ == refusal(old(self)@.phase)
                &&& final(self)@.phase == old(self)@.phase
            },
    {
        match self.phase {
            Phase::Ready => {
                self.phase = Phase::Busy;
                Ok(())
            },
            _ => Err(refuse(self.phase)),
        }
    }

    /// Takes in one turn of the event loop while a request is in flight,
    /// with the state of its operation after the turn. `None` asks for
    /// another turn; `Some(Ok)` says that the operation is done; `Some(Err)`
    /// that the loop stopped or the operation was cancelled. Either `Some`
    /// leaves the session ready for the next request. A session without a
    /// request in flight refuses the turn and stays as it is.
    pub fn wait_step(&mut self, tick: IterateResult, operation: OperationState) -> (answer: Option<
        Result<(), PulseCtlError>,
    >)
        ensures
            final(self)@.name == old(self)@.name,
            old(self)@.phase == Phase::Busy ==> {
                &&& told(
                    answer,
                    wait_verdict(tick, operation),
                    wait_error(wait_verdict(tick, operation)),
                )
                &&& final(self)@.phase == phase_after_wait(wait_verdict(tick, operation))
            },
            old(self)@.phase != Phase::Busy ==> {
                &&& answer matches Some(Err(e)) && e@ == refusal(old(self)@.phase)
                &&& final(self)@.phase == old(self)@.phase
            },
    {
        match self.phase {
            Phase::Busy => {
                let verdict = judge_wait(tick, operation);
                match verdict {
                    Verdict::Pending => {},
                    _ => {
                        self.phase = Phase::Ready;
                    },
                }
                tell_wait(verdict)
            },
            _ => Some(Err(refuse(self.phase))),
        }
    }

    /// Waits for the request in flight over recorded turns, in order, up to
    /// the first turn that decides it; later turns are not looked at. The
    /// answer and the phase afterwards are those of `wait_step` on that
    /// turn; with no such turn the answer is `None` and the session is
    /// still busy.
    pub fn wait_for_operation(&mut self, turns: &Vec<(IterateResult, OperationState)>) -> (answer:
        Option<Result<(), PulseCtlError>>)
        ensures
            final(self)@.name == old(self)@.name,
            old(self)@.phase == Phase::Busy ==> {
                &&& told(answer, wait_outcome(turns@), wait_error(wait_outcome(turns@)))
                &&& final(self)@.phase == phase_after_wait(wait_outcome(turns@))
            },
            old(self)@.phase != Phase::Busy ==> {
                &&& answer matches Some(Err(e)) && e@ == refusal(old(self)@.phase)
                &&& final(self)@.phase == old(self)@.phase
            },
    {
        match self.phase {
            Phase::Busy => {},
            _ => {
                return Some(Err(refuse(self.phase)));
            },
        }
        let mut i: usize = 0;
        assert(wait_verdicts(turns@).skip(0) =~= wait_verdicts(turns@));
        while i < turns.len()
            invariant
                i <= turns.len(),
                self@.name == old(self)@.name,
                old(self)@.phase == Phase::Busy,
                self@.phase == Phase::Busy,
                wait_outcome(turns@) == first_deciding(wait_verdicts(turns@).skip(i as int)),
            decreases turns.len() - i,
        {
            let (tick, operation) = turns[i];
            proof {
                let verdicts = wait_verdicts(turns@);
                let rest = verdicts.skip(i as int);
                assert(rest[0] == verdicts[i as int]);
                assert(rest.skip(1) =~= verdicts.skip(i + 1));
            }
            let answer = self.wait_step(tick, operation);
            if answer.is_some() {
                return answer;
            }
            i += 1;
        }
        None
    }

    /// Tears the session down. The answer says whether there is anything to
    /// tear down: `true` the first time, and the session is closed from then
    /// on; `false` on a session that is closed already.
    pub fn disconnect(&mut self) -> (teardown: bool)
        ensures
            final(self)@.name == old(self)@.name,
            final(self)@.phase == Phase::Closed,
            teardown == (old(self)@.phase != Phase::Closed),
    {
        match self.phase {
            Phase::Closed => false,
            _ => {
                self.phase = Phase::Closed;
                true
            },
        }
    }
}

/// A run of verdicts comes to the first of them that decides anything.
proof fn lemma_first_deciding(verdicts: Seq<Verdict>, k: int)
    requires
        0 <= k < verdicts.len(),
        forall|j: int| 0 <= j < k ==> #[trigger] verdicts[j] == Verdict::Pending,
        verdicts[k] != Verdict::Pending,
    ensures
        first_deciding(verdicts) == verdicts[k],
    decreases k,
{
    if k > 0 {
        let rest = verdicts.skip(1);
        assert(verdicts[0] == Verdict::Pending);
        assert forall|j: int| 0 <= j < k - 1 implies #[trigger] rest[j] == Verdict::Pending by {
            assert(rest[j] == verdicts[j + 1]);
        }
        assert(rest[k - 1] == verdicts[k]);
        lemma_first_deciding(rest, k - 1);
    }
}

/// A handshake is decided by the first turn that decides anything: the
/// turns before it only ask for another turn, and the turns after it do not
/// count.
pub proof fn lemma_first_deciding_turn_ends_handshake(
    turns: Seq<(IterateResult, ContextState)>,
    k: int,
)
    requires
        0 <= k < turns.len(),
        forall|j: int|
            0 <= j < k ==> handshake_verdict(
                (#[trigger] turns[j]).0,
                turns[j].1,
            ) == Verdict::Pending,
        handshake_verdict(turns[k].0, turns[k].1) != Verdict::Pending,
    ensures
        handshake_outcome(turns) == handshake_verdict(turns[k].0, turns[k].1),
{
    lemma_first_deciding(handshake_verdicts(turns), k);
}

/// A wait is decided by the first turn that decides anything: the turns
/// before it only ask for another turn, and the turns after it do not count.
pub proof fn lemma_first_deciding_turn_ends_wait(
    turns: Seq<(IterateResult, OperationState)>,
    k: int,
)
    requires
        0 <= k < turns.len(),
        forall|j: int|
            0 <= j < k ==> wait_verdict((#[trigger] turns[j]).0, turns[j].1) == Verdict::Pending,
        wait_verdict(turns[k].0, turns[k].1) != Verdict::Pending,
    ensures
        wait_outcome(turns) == wait_verdict(turns[k].0, turns[k].1),
{
    lemma_first_deciding(wait_verdicts(turns), k);
}

/// When the event loop quits or fails while a request is in flight, the
/// wait ends in an `OperationError`: whatever state the operation shows on
/// that turn, and whatever the turns after it bring.
pub proof fn lemma_stopped_loop_fails_wait(turns: Seq<(IterateResult, OperationState)>, k: int)
    requires
        0 <= k < turns.len(),
        forall|j: int|
            0 <= j < k ==> wait_verdict((#[trigger] turns[j]).0, turns[j].1) == Verdict::Pending,
        turns[k].0 != IterateResult::Success,
    ensures
        wait_outcome(turns) == Verdict::LoopStopped,
        wait_error(wait_outcome(turns)).kind == PulseCtlErrorType::OperationError,
{
    lemma_first_deciding_turn_ends_wait(turns, k);
}

} // verus!
