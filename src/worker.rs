//! The session worker as a state machine: from its phase and what just
//! happened (a scheduler started, the connection attempt ended, a command
//! arrived, a call returned) to its next phase, the event it reports, and
//! what it does next. The thread that hosts the worker performs each action
//! and hands back what came of it.

use vstd::prelude::*;
use crate::error::{worker_start_failure, ConnectionError};
use crate::protocol::{
    answers, call_of, fits, outcome_event, pending_of, split_command, AdapterCall, DbCommand,
    DbEvent, Pending, Reply,
};

verus! {

/// Where the worker stands in the life of its connection.
pub enum Phase {
    /// The thread runs; its scheduler is being built.
    Initializing,
    /// The adapter is connecting.
    Connecting,
    /// Connected; the handshake is being delivered. `monitored` tells whether
    /// the connection offers a termination signal to watch.
    Ready { monitored: bool },
    /// Waiting for the next command.
    Idle,
    /// One call to the adapter is in flight.
    Busy(Pending),
    /// The adapter is being torn down.
    Disconnecting,
    /// The worker is done; its thread exits.
    Terminated,
}

/// What came of the worker's last action.
pub enum WorkerInput {
    SchedulerStarted,
    /// The scheduler could not be built, with the reason.
    SchedulerFailed(String),
    ConnectSucceeded { monitored: bool },
    ConnectFailed(ConnectionError),
    /// The supervisor took the command sender.
    HandshakeDelivered,
    /// Nobody was left to take the command sender.
    HandshakeRejected,
    CommandReceived(DbCommand),
    /// Every command sender is gone.
    QueueClosed,
    CallFinished(Reply),
    DisconnectFinished,
}

/// What the worker does next.
pub enum WorkerAction {
    StartScheduler,
    Connect,
    /// Hand the command sender to the supervisor.
    DeliverHandshake,
    /// Wait for the next command, first starting the connection monitor
    /// where `start_monitor` says so.
    AwaitCommand { start_monitor: bool },
    /// Make this adapter call.
    Call(AdapterCall),
    /// Keep waiting for the call in flight.
    AwaitReply,
    /// Tear the adapter down: mark the disconnect as requested, then close.
    Disconnect,
    Exit,
}

/// One step of the worker: the event to report, if any, and what to do next.
pub struct Step<H> {
    pub emit: Option<DbEvent<H>>,
    pub action: WorkerAction,
}

/// What the worker does in a phase where the input was not one it awaits.
pub open spec fn awaited(p: Phase) -> WorkerAction {
    match p {
        Phase::Initializing => WorkerAction::StartScheduler,
        Phase::Connecting => WorkerAction::Connect,
        Phase::Ready { .. } => WorkerAction::DeliverHandshake,
        Phase::Idle => WorkerAction::AwaitCommand { start_monitor: false },
        Phase::Busy(_) => WorkerAction::AwaitReply,
        Phase::Disconnecting => WorkerAction::Disconnect,
        Phase::Terminated => WorkerAction::Exit,
    }
}

/// An input left unanswered: nothing reported, the phase kept, the awaited
/// action repeated.
pub open spec fn ignored<H>(
    p: Phase,
    e: Option<DbEvent<H>>,
    a: WorkerAction,
    q: Phase,
) -> bool {
    e is None && a == awaited(p) && q == p
}

/// One step of the worker from phase `p` on input `i`: reports `e`, then
/// does `a`, in phase `q`.
///
/// A scheduler that fails, or a connection attempt that fails, ends the
/// worker with one `ConnectionFailed`. A successful attempt hands the command
/// sender over; then each command other than a disconnect becomes one adapter
/// call, and its reply becomes the one event that answers it before the next
/// command is taken. A disconnect request, a closed queue or a refused
/// handshake tear the adapter down, after which the worker exits.
pub open spec fn transition<H>(
    p: Phase,
    i: WorkerInput,
    e: Option<DbEvent<H>>,
    a: WorkerAction,
    q: Phase,
) -> bool {
    match (p, i) {
        (Phase::Initializing, WorkerInput::SchedulerStarted) => e is None && a
            == WorkerAction::Connect && q == Phase::Connecting,
        (Phase::Initializing, WorkerInput::SchedulerFailed(d)) => (e matches Some(
            DbEvent::ConnectionFailed(err),
        ) && err.user_message@ == "Failed to connect to database worker."@ && err.detail == d)
            && a == WorkerAction::Exit && q == Phase::Terminated,
        (Phase::Connecting, WorkerInput::ConnectSucceeded { monitored }) => e is None && a
            == WorkerAction::DeliverHandshake && q == (Phase::Ready { monitored }),
        (Phase::Connecting, WorkerInput::ConnectFailed(err)) => e == Some(
            DbEvent::<H>::ConnectionFailed(err),
        ) && a == WorkerAction::Exit && q == Phase::Terminated,
        (Phase::Ready { monitored }, WorkerInput::HandshakeDelivered) => e is None && a == (
        WorkerAction::AwaitCommand { start_monitor: monitored }) && q == Phase::Idle,
        (Phase::Ready { .. }, WorkerInput::HandshakeRejected) => e is None && a
            == WorkerAction::Disconnect && q == Phase::Disconnecting,
        (Phase::Idle, WorkerInput::CommandReceived(c)) => match (call_of(c), pending_of(c)) {
            (Some(call), Some(pd)) => e is None && a == WorkerAction::Call(call) && q
                == Phase::Busy(pd),
            _ => e is None && a == WorkerAction::Disconnect && q == Phase::Disconnecting,
        },
        (Phase::Idle, WorkerInput::QueueClosed) => e is None && a == WorkerAction::Disconnect && q
            == Phase::Disconnecting,
        (Phase::Busy(pd), WorkerInput::CallFinished(r)) => if fits(pd, r) {
            (e matches Some(ev) && answers(pd, r, ev)) && a == (WorkerAction::AwaitCommand {
                start_monitor: false,
            }) && q == Phase::Idle
        } else {
            ignored(p, e, a, q)
        },
        (Phase::Disconnecting, WorkerInput::DisconnectFinished) => e is None && a
            == WorkerAction::Exit && q == Phase::Terminated,
        _ => ignored(p, e, a, q),
    }
}

/// The worker's state.
pub struct Worker {
    phase: Phase,
}

impl View for Worker {
    type V = Phase;

    closed spec fn view(&self) -> Phase {
        self.phase
    }
}

impl Worker {
    /// A worker whose thread has just started.
    pub fn new() -> (r: Worker)
        ensures
            r@ == Phase::Initializing,
    {
        Worker { phase: Phase::Initializing }
    }

    /// Whether the worker is done.
    pub fn is_terminated(&self) -> (r: bool)
        ensures
            r == (self@ is Terminated),
    {
        match self.phase {
            Phase::Terminated => true,
            _ => false,
        }
    }

    /// Takes in what came of the last action; returns the event to report and
    /// the next action.
    pub fn step<H>(&mut self, input: WorkerInput) -> (r: Step<H>)
        ensures
            transition(old(self)@, input, r.emit, r.action, final(self)@),
    {
        let mut phase = Phase::Terminated;
        std::mem::swap(&mut self.phase, &mut phase);
        let (next, emit, action): (Phase, Option<DbEvent<H>>, WorkerAction) = match (
            phase,
            input,
        ) {
            (Phase::Initializing, WorkerInput::SchedulerStarted) => (
                Phase::Connecting,
                None,
                WorkerAction::Connect,
            ),
            (Phase::Initializing, WorkerInput::SchedulerFailed(d)) => (
                Phase::Terminated,
                Some(DbEvent::ConnectionFailed(worker_start_failure(d))),
                WorkerAction::Exit,
            ),
            (Phase::Connecting, WorkerInput::ConnectSucceeded { monitored }) => (
                Phase::Ready { monitored },
                None,
                WorkerAction::DeliverHandshake,
            ),
            (Phase::Connecting, WorkerInput::ConnectFailed(err)) => (
                Phase::Terminated,
                Some(DbEvent::ConnectionFailed(err)),
                WorkerAction::Exit,
            ),
            (Phase::Ready { monitored }, WorkerInput::HandshakeDelivered) => (
                Phase::Idle,
                None,
                WorkerAction::AwaitCommand { start_monitor: monitored },
            ),
            (Phase::Ready { .. }, WorkerInput::HandshakeRejected) => (
                Phase::Disconnecting,
                None,
                WorkerAction::Disconnect,
            ),
            (Phase::Idle, WorkerInput::CommandReceived(c)) => match split_command(c) {
                Some((call, pd)) => (Phase::Busy(pd), None, WorkerAction::Call(call)),
                None => (Phase::Disconnecting, None, WorkerAction::Disconnect),
            },
            (Phase::Idle, WorkerInput::QueueClosed) => (
                Phase::Disconnecting,
                None,
                WorkerAction::Disconnect,
            ),
            (Phase::Busy(pd), WorkerInput::CallFinished(reply)) => {
                let kept = pending_for_answer(&pd);
                match outcome_event(pd, reply) {
                    Some(ev) => (
                        Phase::Idle,
                        Some(ev),
                        WorkerAction::AwaitCommand { start_monitor: false },
                    ),
                    None => (Phase::Busy(kept), None, WorkerAction::AwaitReply),
                }
            },
            (Phase::Disconnecting, WorkerInput::DisconnectFinished) => (
                Phase::Terminated,
                None,
                WorkerAction::Exit,
            ),
            (p, _) => {
                let a = awaited_action(&p);
                (p, None, a)
            },
        };
        self.phase = next;
        Step { emit, action }
    }
}

fn pending_for_answer(p: &Pending) -> (r: Pending)
    ensures
        r == *p,
{
    match p {
        Pending::Query => Pending::Query,
        Pending::Schemas => Pending::Schemas,
        Pending::Tables { schema } => Pending::Tables { schema: schema.clone() },
        Pending::Columns { schema, table } => Pending::Columns {
            schema: schema.clone(),
            table: table.clone(),
        },
        Pending::Preview { schema, table } => Pending::Preview {
            schema: schema.clone(),
            table: table.clone(),
        },
    }
}

fn awaited_action(p: &Phase) -> (r: WorkerAction)
    ensures
        r == awaited(*p),
{
    match p {
        Phase::Initializing => WorkerAction::StartScheduler,
        Phase::Connecting => WorkerAction::Connect,
        Phase::Ready { .. } => WorkerAction::DeliverHandshake,
        Phase::Idle => WorkerAction::AwaitCommand { start_monitor: false },
        Phase::Busy(_) => WorkerAction::AwaitReply,
        Phase::Disconnecting => WorkerAction::Disconnect,
        Phase::Terminated => WorkerAction::Exit,
    }
}

/// A run of the worker: `phases[j]` is its phase before step `j`, which takes
/// `inputs[j]`, reports `emits[j]` and does `actions[j]`; every step is a
/// transition of the worker.
pub open spec fn is_run<H>(
    phases: Seq<Phase>,
    inputs: Seq<WorkerInput>,
    emits: Seq<Option<DbEvent<H>>>,
    actions: Seq<WorkerAction>,
) -> bool {
    &&& phases.len() == inputs.len() + 1
    &&& emits.len() == inputs.len()
    &&& actions.len() == inputs.len()
    &&& forall|j: int|
        0 <= j < inputs.len() ==> transition(
            phases[j],
            #[trigger] inputs[j],
            emits[j],
            actions[j],
            phases[j + 1],
        )
}

/// Whether the connection attempt is still undecided in this phase.
pub open spec fn settling(p: Phase) -> bool {
    p is Initializing || p is Connecting || p is Ready
}

/// How many connection outcomes the first `n` steps of a run produced: each
/// `ConnectionFailed` the worker reports, and each handshake it delivers, for
/// which the supervisor reports `Connected`.
pub open spec fn connect_outcomes<H>(
    phases: Seq<Phase>,
    inputs: Seq<WorkerInput>,
    emits: Seq<Option<DbEvent<H>>>,
    n: int,
) -> nat
    decreases n,
{
    if n <= 0 {
        0
    } else {
        connect_outcomes(phases, inputs, emits, n - 1) + (if emits[n - 1] matches Some(
            DbEvent::ConnectionFailed(_),
        ) {
            1nat
        } else {
            0nat
        }) + (if phases[n - 1] is Ready && inputs[n - 1] is HandshakeDelivered {
            1nat
        } else {
            0nat
        })
    }
}

proof fn answer_is_not_connect_failure<H>(p: Pending, r: Reply, e: DbEvent<H>)
    requires
        answers(p, r, e),
    ensures
        !(e is ConnectionFailed),
{
}

proof fn outcomes_so_far<H>(
    phases: Seq<Phase>,
    inputs: Seq<WorkerInput>,
    emits: Seq<Option<DbEvent<H>>>,
    actions: Seq<WorkerAction>,
    j: int,
)
    requires
        is_run(phases, inputs, emits, actions),
        phases[0] is Initializing,
        forall|k: int| 0 <= k < inputs.len() ==> !(#[trigger] inputs[k] is HandshakeRejected),
        0 <= j <= inputs.len(),
    ensures
        settling(phases[j]) ==> connect_outcomes(phases, inputs, emits, j) == 0,
        !settling(phases[j]) ==> connect_outcomes(phases, inputs, emits, j) == 1,
    decreases j,
{
    if j > 0 {
        let m = j - 1;
        outcomes_so_far(phases, inputs, emits, actions, m);
        let i = inputs[m];
        assert(transition(phases[m], i, emits[m], actions[m], phases[j]));
        assert(!(i is HandshakeRejected));
        if let Phase::Busy(pd) = phases[m] {
            if let WorkerInput::CallFinished(r) = i {
                if fits(pd, r) {
                    answer_is_not_connect_failure(pd, r, emits[m]->0);
                }
            }
        }
    }
}

/// Exactly one connection outcome per spawned worker: in any run that starts
/// with the worker's thread, never more than one of `ConnectionFailed` and a
/// delivered handshake (reported as `Connected`) happens, and once the attempt
/// is decided exactly one has. A handshake that nobody is left to take (the
/// supervisor gone) is outside this guarantee.
pub proof fn one_connect_outcome<H>(
    phases: Seq<Phase>,
    inputs: Seq<WorkerInput>,
    emits: Seq<Option<DbEvent<H>>>,
    actions: Seq<WorkerAction>,
)
    requires
        is_run(phases, inputs, emits, actions),
        phases[0] is Initializing,
        forall|j: int| 0 <= j < inputs.len() ==> !(#[trigger] inputs[j] is HandshakeRejected),
    ensures
        connect_outcomes(phases, inputs, emits, inputs.len() as int) <= 1,
        !settling(phases[inputs.len() as int]) ==> connect_outcomes(
            phases,
            inputs,
            emits,
            inputs.len() as int,
        ) == 1,
{
    outcomes_so_far(phases, inputs, emits, actions, inputs.len() as int);
}

proof fn stays_down<H>(
    phases: Seq<Phase>,
    inputs: Seq<WorkerInput>,
    emits: Seq<Option<DbEvent<H>>>,
    actions: Seq<WorkerAction>,
    k: int,
    j: int,
)
    requires
        is_run(phases, inputs, emits, actions),
        0 <= k < inputs.len(),
        phases[k] is Idle,
        inputs[k] matches WorkerInput::CommandReceived(DbCommand::Disconnect),
        k < j <= inputs.len(),
    ensures
        phases[j] is Disconnecting || phases[j] is Terminated,
    decreases j - k,
{
    let m = j - 1;
    assert(transition(phases[m], inputs[m], emits[m], actions[m], phases[j]));
    if m > k {
        stays_down(phases, inputs, emits, actions, k, m);
    }
}

/// Once the worker takes a disconnect request, it makes no further adapter
/// call and reports nothing more: every later step only tears the adapter
/// down and exits.
pub proof fn nothing_after_disconnect<H>(
    phases: Seq<Phase>,
    inputs: Seq<WorkerInput>,
    emits: Seq<Option<DbEvent<H>>>,
    actions: Seq<WorkerAction>,
    k: int,
)
    requires
        is_run(phases, inputs, emits, actions),
        0 <= k < inputs.len(),
        phases[k] is Idle,
        inputs[k] matches WorkerInput::CommandReceived(DbCommand::Disconnect),
    ensures
        forall|j: int|
            k <= j < inputs.len() ==> #[trigger] emits[j] is None && !(actions[j] is Call),
        forall|j: int|
            k < j <= inputs.len() ==> #[trigger] phases[j] is Disconnecting || phases[j] is Terminated,
{
    assert forall|j: int| k < j <= inputs.len() implies #[trigger] phases[j] is Disconnecting
        || phases[j] is Terminated by {
        stays_down(phases, inputs, emits, actions, k, j);
    }
    assert forall|j: int| k <= j < inputs.len() implies #[trigger] emits[j] is None && !(
    actions[j] is Call) by {
        assert(transition(phases[j], inputs[j], emits[j], actions[j], phases[j + 1]));
        if j > k {
            stays_down(phases, inputs, emits, actions, k, j);
        }
    }
}

proof fn idle_between<H>(
    commands: Seq<DbCommand>,
    replies: Seq<Reply>,
    phases: Seq<Phase>,
    inputs: Seq<WorkerInput>,
    emits: Seq<Option<DbEvent<H>>>,
    actions: Seq<WorkerAction>,
    c: int,
)
    requires
        is_run(phases, inputs, emits, actions),
        phases[0] is Idle,
        replies.len() == commands.len(),
        inputs.len() == 2 * commands.len(),
        forall|i: int|
            0 <= i < commands.len() ==> ((#[trigger] pending_of(commands[i])) matches Some(pd)
                && fits(pd, replies[i])),
        forall|i: int|
            0 <= i < commands.len() ==> inputs[2 * i] == WorkerInput::CommandReceived(
                #[trigger] commands[i],
            ) && inputs[2 * i + 1] == WorkerInput::CallFinished(replies[i]),
        0 <= c <= commands.len(),
    ensures
        phases[2 * c] is Idle,
        c < commands.len() ==> emits[2 * c] is None && actions[2 * c] == WorkerAction::Call(
            call_of(commands[c])->0,
        ) && (emits[2 * c + 1] matches Some(e) && answers(
            pending_of(commands[c])->0,
            replies[c],
            e,
        )) && phases[2 * c + 2] is Idle,
    decreases c,
{
    if c > 0 {
        idle_between(commands, replies, phases, inputs, emits, actions, c - 1);
    }
    if c < commands.len() {
        let cmd = commands[c];
        let pd = pending_of(cmd)->0;
        assert(inputs[2 * c] == WorkerInput::CommandReceived(cmd));
        assert(transition(
            phases[2 * c],
            inputs[2 * c],
            emits[2 * c],
            actions[2 * c],
            phases[2 * c + 1],
        ));
        assert(phases[2 * c + 1] == Phase::Busy(pd));
        assert(transition(
            phases[2 * c + 1],
            inputs[2 * c + 1],
            emits[2 * c + 1],
            actions[2 * c + 1],
            phases[2 * c + 2],
        ));
    }
}

/// Events come in the order of the commands that produced them: when the
/// worker, idle, takes commands one at a time, each followed by the reply to
/// its call, the step after the `i`-th command reports the event that answers
/// that command, and the worker is idle again before it takes the next one.
pub proof fn events_follow_commands<H>(
    commands: Seq<DbCommand>,
    replies: Seq<Reply>,
    phases: Seq<Phase>,
    inputs: Seq<WorkerInput>,
    emits: Seq<Option<DbEvent<H>>>,
    actions: Seq<WorkerAction>,
)
    requires
        is_run(phases, inputs, emits, actions),
        phases[0] is Idle,
        replies.len() == commands.len(),
        inputs.len() == 2 * commands.len(),
        forall|i: int|
            0 <= i < commands.len() ==> ((#[trigger] pending_of(commands[i])) matches Some(pd)
                && fits(pd, replies[i])),
        forall|i: int|
            0 <= i < commands.len() ==> inputs[2 * i] == WorkerInput::CommandReceived(
                #[trigger] commands[i],
            ) && inputs[2 * i + 1] == WorkerInput::CallFinished(replies[i]),
    ensures
        forall|i: int|
            0 <= i < commands.len() ==> emits[2 * i] is None && actions[2 * i]
                == WorkerAction::Call(call_of(#[trigger] commands[i])->0) && (emits[2 * i + 1] matches Some(
                e) && answers(pending_of(commands[i])->0, replies[i], e)) && phases[2 * i + 2] is Idle,
{
    assert forall|i: int| 0 <= i < commands.len() implies emits[2 * i] is None && actions[2 * i]
        == WorkerAction::Call(call_of(#[trigger] commands[i])->0) && (emits[2 * i + 1] matches Some(e)
        && answers(pending_of(commands[i])->0, replies[i], e)) && phases[2 * i + 2] is Idle by {
        idle_between(commands, replies, phases, inputs, emits, actions, i);
    }
}

} // verus!
