//! The sandbox runner: one hard-isolated, resource-capped container
//! invocation per render request.
//!
//! `SandboxInvocation` describes one container run. Its resource caps and
//! isolation settings are non-negotiable: the only constructor sets them, and
//! nothing exposes a way to weaken them per request, since the payload is
//! always untrusted.
//!
//! `Runner` is the decision core of the invocation as a state machine: the
//! surrounding program performs the outside work (pulling the image, spawning
//! the container, writing its input, awaiting it, killing it) and feeds the
//! result of each step back as an event; the machine answers with the next
//! action. The lemmas at the end state the global laws of every complete run:
//! exactly one outcome is produced, and a deadline expiry forces exactly one
//! kill, addressed to the exact container name, and a timeout outcome.
use crate::bytes::copy_bytes;
use crate::digits::{dec_digits, lemma_dec_digits_injective, u64_to_dec};
use crate::outcome::{
    frame_to_outcome, outcome_of_frame, InfraReason, OutcomeModel, ReasonModel, RenderOutcome,
};
use crate::protocol::{decode_frame, decode_frame_spec};
use vstd::prelude::*;

verus! {

/// Which renderer a container runs.
#[derive(Clone, Copy, PartialEq, Eq, Structural, Debug)]
pub enum RenderRole {
    Latex,
    Typst,
}

/// The container-name prefix for a role: `slave-latex-` or `slave-typst-`.
pub open spec fn role_prefix(role: RenderRole) -> Seq<u8> {
    match role {
        RenderRole::Latex => seq![
            115u8, 108u8, 97u8, 118u8, 101u8, 45u8, 108u8, 97u8, 116u8, 101u8, 120u8, 45u8,
        ],
        RenderRole::Typst => seq![
            115u8, 108u8, 97u8, 118u8, 101u8, 45u8, 116u8, 121u8, 112u8, 115u8, 116u8, 45u8,
        ],
    }
}

/// The deterministic container name for a role and correlation id: the role
/// prefix followed by the id in decimal.
pub open spec fn container_name_spec(role: RenderRole, correlation_id: u64) -> Seq<u8> {
    role_prefix(role) + dec_digits(correlation_id as nat)
}

/// Builds the container name for a role and correlation id.
pub fn container_name(role: RenderRole, correlation_id: u64) -> (r: Vec<u8>)
    ensures
        r@ == container_name_spec(role, correlation_id),
{
    let mut r: Vec<u8> = match role {
        RenderRole::Latex => vec![
            115u8, 108u8, 97u8, 118u8, 101u8, 45u8, 108u8, 97u8, 116u8, 101u8, 120u8, 45u8,
        ],
        RenderRole::Typst => vec![
            115u8, 108u8, 97u8, 118u8, 101u8, 45u8, 116u8, 121u8, 112u8, 115u8, 116u8, 45u8,
        ],
    };
    proof {
        assert(r@ =~= role_prefix(role));
    }
    let digits = u64_to_dec(correlation_id);
    crate::bytes::push_bytes(&mut r, &digits);
    r
}

/// Container names never collide: two jobs get the same name only if they
/// have the same role and the same correlation id.
pub proof fn lemma_container_name_injective(
    role1: RenderRole,
    id1: u64,
    role2: RenderRole,
    id2: u64,
)
    requires
        container_name_spec(role1, id1) == container_name_spec(role2, id2),
    ensures
        role1 == role2,
        id1 == id2,
{
    let n1 = container_name_spec(role1, id1);
    let n2 = container_name_spec(role2, id2);
    let d1 = dec_digits(id1 as nat);
    let d2 = dec_digits(id2 as nat);
    if role1 != role2 {
        assert(n1[6] == role_prefix(role1)[6]);
        assert(n2[6] == role_prefix(role2)[6]);
        assert(role_prefix(RenderRole::Latex)[6] == 108);
        assert(role_prefix(RenderRole::Typst)[6] == 116);
        assert(false);
    }
    assert(role_prefix(role1) == role_prefix(role2));
    assert(n1.len() == 12 + d1.len());
    assert(n2.len() == 12 + d2.len());
    assert(d1 =~= d2) by {
        assert forall|i: int| 0 <= i < d1.len() implies d1[i] == d2[i] by {
            assert(d1[i] == n1[12 + i]);
            assert(d2[i] == n2[12 + i]);
        }
    }
    lemma_dec_digits_injective(id1 as nat, id2 as nat);
}

/// The mathematical model of a sandbox invocation.
pub struct InvocationModel {
    /// The renderer image reference.
    pub image: Seq<u8>,
    /// The explicit container name.
    pub name: Seq<u8>,
    /// The bytes written to the container's input stream.
    pub payload: Seq<u8>,
    /// Ceiling on the number of processes in the container.
    pub pids_limit: u64,
    /// Memory ceiling, in megabytes.
    pub memory_mb: u64,
    /// CPU-share ceiling.
    pub cpus: u64,
    /// Wall-clock deadline, in seconds.
    pub deadline_secs: u64,
    /// The root filesystem is mounted read-only.
    pub read_only_root: bool,
    /// The container has no network access.
    pub no_network: bool,
    /// All privileges are dropped.
    pub drop_all_caps: bool,
    /// The only writable path is a volatile scratch directory.
    pub scratch_tmpfs: bool,
}

/// The non-negotiable resource caps and isolation settings of every
/// invocation.
pub open spec fn hardened(m: InvocationModel) -> bool {
    &&& m.pids_limit == 5000
    &&& m.memory_mb == 500
    &&& m.cpus == 1
    &&& m.deadline_secs == 15
    &&& m.read_only_root
    &&& m.no_network
    &&& m.drop_all_caps
    &&& m.scratch_tmpfs
}

/// One hard-isolated, resource-capped container invocation. Owned exclusively
/// by one runner for the lifetime of one invocation; never reused.
pub struct SandboxInvocation {
    image: Vec<u8>,
    name: Vec<u8>,
    payload: Vec<u8>,
    pids_limit: u64,
    memory_mb: u64,
    cpus: u64,
    deadline_secs: u64,
    read_only_root: bool,
    no_network: bool,
    drop_all_caps: bool,
    scratch_tmpfs: bool,
}

impl View for SandboxInvocation {
    type V = InvocationModel;

    closed spec fn view(&self) -> InvocationModel {
        InvocationModel {
            image: self.image@,
            name: self.name@,
            payload: self.payload@,
            pids_limit: self.pids_limit,
            memory_mb: self.memory_mb,
            cpus: self.cpus,
            deadline_secs: self.deadline_secs,
            read_only_root: self.read_only_root,
            no_network: self.no_network,
            drop_all_caps: self.drop_all_caps,
            scratch_tmpfs: self.scratch_tmpfs,
        }
    }
}

impl SandboxInvocation {
    /// The only way to make an invocation: every invocation is hardened.
    pub fn new(image: Vec<u8>, name: Vec<u8>, payload: Vec<u8>) -> (r: Self)
        ensures
            r@.image == image@,
            r@.name == name@,
            r@.payload == payload@,
            hardened(r@),
    {
        SandboxInvocation {
            image,
            name,
            payload,
            pids_limit: 5000,
            memory_mb: 500,
            cpus: 1,
            deadline_secs: 15,
            read_only_root: true,
            no_network: true,
            drop_all_caps: true,
            scratch_tmpfs: true,
        }
    }

    /// The renderer image reference.
    pub fn image(&self) -> (r: &Vec<u8>)
        ensures
            r@ == self@.image,
    {
        &self.image
    }

    /// The explicit container name.
    pub fn name(&self) -> (r: &Vec<u8>)
        ensures
            r@ == self@.name,
    {
        &self.name
    }

    /// The bytes to write to the container's input stream.
    pub fn payload(&self) -> (r: &Vec<u8>)
        ensures
            r@ == self@.payload,
    {
        &self.payload
    }

    /// The process-count ceiling.
    pub fn pids_limit(&self) -> (r: u64)
        ensures
            r == self@.pids_limit,
    {
        self.pids_limit
    }

    /// The memory ceiling, in megabytes.
    pub fn memory_mb(&self) -> (r: u64)
        ensures
            r == self@.memory_mb,
    {
        self.memory_mb
    }

    /// The CPU-share ceiling.
    pub fn cpus(&self) -> (r: u64)
        ensures
            r == self@.cpus,
    {
        self.cpus
    }

    /// The wall-clock deadline, in seconds.
    pub fn deadline_secs(&self) -> (r: u64)
        ensures
            r == self@.deadline_secs,
    {
        self.deadline_secs
    }

    /// Whether the root filesystem is read-only (always true).
    pub fn read_only_root(&self) -> (r: bool)
        ensures
            r == self@.read_only_root,
    {
        self.read_only_root
    }

    /// Whether the container is cut off from the network (always true).
    pub fn no_network(&self) -> (r: bool)
        ensures
            r == self@.no_network,
    {
        self.no_network
    }

    /// Whether all privileges are dropped (always true).
    pub fn drop_all_caps(&self) -> (r: bool)
        ensures
            r == self@.drop_all_caps,
    {
        self.drop_all_caps
    }

    /// Whether the scratch directory is volatile-memory tmpfs (always true).
    pub fn scratch_tmpfs(&self) -> (r: bool)
        ensures
            r == self@.scratch_tmpfs,
    {
        self.scratch_tmpfs
    }
}

/// Where a runner stands in the lifecycle of its invocation.
#[derive(Clone, Copy, PartialEq, Eq, Structural, Debug)]
pub enum RunnerPhase {
    /// Ensuring the image is present locally.
    Pulling,
    /// Spawning the container.
    Spawning,
    /// Writing the input payload to the container.
    Writing,
    /// Racing container completion against the deadline.
    Awaiting,
    /// The deadline elapsed; the kill must complete before the run is over.
    Killing,
    /// The run resolved to an outcome.
    Done,
}

/// What the outside world reports back to the runner.
pub enum RunnerEvent {
    /// The image pull finished (`ok` tells whether it succeeded).
    Pulled { ok: bool },
    /// The container spawn finished.
    Spawned { ok: bool },
    /// The input payload write finished.
    InputWritten { ok: bool },
    /// The container exited before the deadline; `ok` tells whether the exit
    /// status was zero, and the two streams are its captured output.
    Exited { ok: bool, stdout: Vec<u8>, stderr: Vec<u8> },
    /// The deadline elapsed before the container exited.
    DeadlineExpired,
    /// The forced kill was attempted (the run times out whether or not the
    /// kill command itself succeeded).
    KillFinished,
}

/// The mathematical model of a runner event.
pub enum EventModel {
    Pulled { ok: bool },
    Spawned { ok: bool },
    InputWritten { ok: bool },
    Exited { ok: bool, stdout: Seq<u8>, stderr: Seq<u8> },
    DeadlineExpired,
    KillFinished,
}

impl View for RunnerEvent {
    type V = EventModel;

    open spec fn view(&self) -> EventModel {
        match self {
            RunnerEvent::Pulled { ok } => EventModel::Pulled { ok: *ok },
            RunnerEvent::Spawned { ok } => EventModel::Spawned { ok: *ok },
            RunnerEvent::InputWritten { ok } => EventModel::InputWritten { ok: *ok },
            RunnerEvent::Exited { ok, stdout, stderr } => EventModel::Exited {
                ok: *ok,
                stdout: stdout@,
                stderr: stderr@,
            },
            RunnerEvent::DeadlineExpired => EventModel::DeadlineExpired,
            RunnerEvent::KillFinished => EventModel::KillFinished,
        }
    }
}

/// What the runner asks the outside world to do next.
pub enum RunnerAction {
    /// Ensure the image is present locally.
    PullImage,
    /// Spawn the container.
    SpawnContainer,
    /// Write the input payload to the container's input stream.
    WriteInput,
    /// Await container completion, racing it against the deadline.
    AwaitExit,
    /// Issue a forced kill addressed to exactly this container name.
    KillContainer { name: Vec<u8> },
    /// The run is over with this outcome.
    Finish { outcome: RenderOutcome },
}

/// The mathematical model of a runner action.
pub enum ActionModel {
    PullImage,
    SpawnContainer,
    WriteInput,
    AwaitExit,
    KillContainer { name: Seq<u8> },
    Finish { outcome: OutcomeModel },
}

impl View for RunnerAction {
    type V = ActionModel;

    open spec fn view(&self) -> ActionModel {
        match self {
            RunnerAction::PullImage => ActionModel::PullImage,
            RunnerAction::SpawnContainer => ActionModel::SpawnContainer,
            RunnerAction::WriteInput => ActionModel::WriteInput,
            RunnerAction::AwaitExit => ActionModel::AwaitExit,
            RunnerAction::KillContainer { name } => ActionModel::KillContainer { name: name@ },
            RunnerAction::Finish { outcome } => ActionModel::Finish { outcome: outcome@ },
        }
    }
}

/// Which events can arrive in which phase.
pub open spec fn event_fits(phase: RunnerPhase, e: EventModel) -> bool {
    match phase {
        RunnerPhase::Pulling => e is Pulled,
        RunnerPhase::Spawning => e is Spawned,
        RunnerPhase::Writing => e is InputWritten,
        RunnerPhase::Awaiting => e is Exited || e is DeadlineExpired,
        RunnerPhase::Killing => e is KillFinished,
        RunnerPhase::Done => false,
    }
}

/// The outcome of a container exit: a non-zero exit with no recognizable
/// protocol payload is an infrastructure failure carrying the captured
/// streams for diagnostics; a zero exit is decoded by the protocol.
pub open spec fn exit_outcome(ok: bool, stdout: Seq<u8>, stderr: Seq<u8>) -> OutcomeModel {
    if ok {
        outcome_of_frame(decode_frame_spec(stdout))
    } else {
        OutcomeModel::InfrastructureError { reason: ReasonModel::NonZeroExit { stdout, stderr } }
    }
}

/// The runner's transition function: from a phase and an event to the next
/// phase and the action the outside world must perform.
pub open spec fn step_spec(phase: RunnerPhase, name: Seq<u8>, e: EventModel) -> (
    RunnerPhase,
    ActionModel,
) {
    match (phase, e) {
        (RunnerPhase::Pulling, EventModel::Pulled { ok }) => if ok {
            (RunnerPhase::Spawning, ActionModel::SpawnContainer)
        } else {
            (
                RunnerPhase::Done,
                ActionModel::Finish {
                    outcome: OutcomeModel::InfrastructureError { reason: ReasonModel::PullFailure },
                },
            )
        },
        (RunnerPhase::Spawning, EventModel::Spawned { ok }) => if ok {
            (RunnerPhase::Writing, ActionModel::WriteInput)
        } else {
            (
                RunnerPhase::Done,
                ActionModel::Finish {
                    outcome: OutcomeModel::InfrastructureError {
                        reason: ReasonModel::SpawnFailure,
                    },
                },
            )
        },
        (RunnerPhase::Writing, EventModel::InputWritten { ok }) => if ok {
            (RunnerPhase::Awaiting, ActionModel::AwaitExit)
        } else {
            (
                RunnerPhase::Done,
                ActionModel::Finish {
                    outcome: OutcomeModel::InfrastructureError {
                        reason: ReasonModel::SpawnFailure,
                    },
                },
            )
        },
        (RunnerPhase::Awaiting, EventModel::Exited { ok, stdout, stderr }) => (
            RunnerPhase::Done,
            ActionModel::Finish { outcome: exit_outcome(ok, stdout, stderr) },
        ),
        (RunnerPhase::Awaiting, EventModel::DeadlineExpired) => (
            RunnerPhase::Killing,
            ActionModel::KillContainer { name },
        ),
        (RunnerPhase::Killing, EventModel::KillFinished) => (
            RunnerPhase::Done,
            ActionModel::Finish {
                outcome: OutcomeModel::InfrastructureError { reason: ReasonModel::Timeout },
            },
        ),
        _ => (phase, ActionModel::AwaitExit),
    }
}

/// The per-request orchestration state: an invocation and the phase its run
/// has reached.
pub struct Runner {
    invocation: SandboxInvocation,
    phase: RunnerPhase,
}

impl Runner {
    /// The invocation this runner owns.
    pub closed spec fn inv_model(&self) -> InvocationModel {
        self.invocation@
    }

    /// The phase the run has reached.
    pub closed spec fn phase_spec(&self) -> RunnerPhase {
        self.phase
    }

    /// A runner for one invocation; the first duty of the outside world is
    /// the image pull.
    pub fn new(invocation: SandboxInvocation) -> (r: Self)
        ensures
            r.inv_model() == invocation@,
            r.phase_spec() == RunnerPhase::Pulling,
    {
        Runner { invocation, phase: RunnerPhase::Pulling }
    }

    /// The invocation this runner owns.
    pub fn invocation(&self) -> (r: &SandboxInvocation)
        ensures
            r@ == self.inv_model(),
    {
        &self.invocation
    }

    /// The phase the run has reached.
    pub fn phase(&self) -> (r: RunnerPhase)
        ensures
            r == self.phase_spec(),
    {
        self.phase
    }

    /// Feeds one event into the machine and returns the next action, exactly
    /// as the transition function says.
    pub fn step(&mut self, event: RunnerEvent) -> (a: RunnerAction)
        requires
            event_fits(old(self).phase_spec(), event@),
        ensures
            final(self).inv_model() == old(self).inv_model(),
            (final(self).phase_spec(), a@) == step_spec(
                old(self).phase_spec(),
                old(self).inv_model().name,
                event@,
            ),
    {
        match (self.phase, event) {
            (RunnerPhase::Pulling, RunnerEvent::Pulled { ok }) => {
                if ok {
                    self.phase = RunnerPhase::Spawning;
                    RunnerAction::SpawnContainer
                } else {
                    self.phase = RunnerPhase::Done;
                    RunnerAction::Finish {
                        outcome: RenderOutcome::InfrastructureError {
                            reason: InfraReason::PullFailure,
                        },
                    }
                }
            },
            (RunnerPhase::Spawning, RunnerEvent::Spawned { ok }) => {
                if ok {
                    self.phase = RunnerPhase::Writing;
                    RunnerAction::WriteInput
                } else {
                    self.phase = RunnerPhase::Done;
                    RunnerAction::Finish {
                        outcome: RenderOutcome::InfrastructureError {
                            reason: InfraReason::SpawnFailure,
                        },
                    }
                }
            },
            (RunnerPhase::Writing, RunnerEvent::InputWritten { ok }) => {
                if ok {
                    self.phase = RunnerPhase::Awaiting;
                    RunnerAction::AwaitExit
                } else {
                    self.phase = RunnerPhase::Done;
                    RunnerAction::Finish {
                        outcome: RenderOutcome::InfrastructureError {
                            reason: InfraReason::SpawnFailure,
                        },
                    }
                }
            },
            (RunnerPhase::Awaiting, RunnerEvent::Exited { ok, stdout, stderr }) => {
                self.phase = RunnerPhase::Done;
                if ok {
                    let frame = decode_frame(&stdout);
                    RunnerAction::Finish { outcome: frame_to_outcome(frame) }
                } else {
                    RunnerAction::Finish {
                        outcome: RenderOutcome::InfrastructureError {
                            reason: InfraReason::NonZeroExit { stdout, stderr },
                        },
                    }
                }
            },
            (RunnerPhase::Awaiting, RunnerEvent::DeadlineExpired) => {
                self.phase = RunnerPhase::Killing;
                RunnerAction::KillContainer { name: copy_bytes(&self.invocation.name) }
            },
            (RunnerPhase::Killing, RunnerEvent::KillFinished) => {
                self.phase = RunnerPhase::Done;
                RunnerAction::Finish {
                    outcome: RenderOutcome::InfrastructureError { reason: InfraReason::Timeout },
                }
            },
            _ => vstd::pervasive::unreached(),
        }
    }
}

/// The actions a runner emits when fed a sequence of events.
pub open spec fn run_actions(phase: RunnerPhase, name: Seq<u8>, events: Seq<EventModel>) -> Seq<
    ActionModel,
>
    decreases events.len(),
{
    if events.len() == 0 {
        Seq::empty()
    } else {
        let next = step_spec(phase, name, events[0]);
        seq![next.1] + run_actions(next.0, name, events.skip(1))
    }
}

/// Whether every event of the sequence fits the phase the machine is in when
/// it arrives.
pub open spec fn trace_valid(phase: RunnerPhase, name: Seq<u8>, events: Seq<EventModel>) -> bool
    decreases events.len(),
{
    events.len() == 0 || (event_fits(phase, events[0]) && trace_valid(
        step_spec(phase, name, events[0]).0,
        name,
        events.skip(1),
    ))
}

/// The phase the machine is in after consuming the events.
pub open spec fn end_phase(phase: RunnerPhase, name: Seq<u8>, events: Seq<EventModel>) -> RunnerPhase
    decreases events.len(),
{
    if events.len() == 0 {
        phase
    } else {
        end_phase(step_spec(phase, name, events[0]).0, name, events.skip(1))
    }
}

/// The outcomes of the `Finish` actions in a run, in order.
pub open spec fn finishes(actions: Seq<ActionModel>) -> Seq<OutcomeModel>
    decreases actions.len(),
{
    if actions.len() == 0 {
        Seq::empty()
    } else {
        let rest = finishes(actions.skip(1));
        match actions[0] {
            ActionModel::Finish { outcome } => seq![outcome] + rest,
            _ => rest,
        }
    }
}

/// The target names of the `KillContainer` actions in a run, in order.
pub open spec fn kill_names(actions: Seq<ActionModel>) -> Seq<Seq<u8>>
    decreases actions.len(),
{
    if actions.len() == 0 {
        Seq::empty()
    } else {
        let rest = kill_names(actions.skip(1));
        match actions[0] {
            ActionModel::KillContainer { name } => seq![name] + rest,
            _ => rest,
        }
    }
}

/// How many deadline expiries the event sequence holds.
pub open spec fn deadline_count(events: Seq<EventModel>) -> int
    decreases events.len(),
{
    if events.len() == 0 {
        0
    } else {
        (if events[0] is DeadlineExpired {
            1int
        } else {
            0int
        }) + deadline_count(events.skip(1))
    }
}

/// The timeout outcome.
pub open spec fn timeout_outcome() -> OutcomeModel {
    OutcomeModel::InfrastructureError { reason: ReasonModel::Timeout }
}

proof fn lemma_run_from(phase: RunnerPhase, name: Seq<u8>, events: Seq<EventModel>)
    requires
        phase != RunnerPhase::Done,
        trace_valid(phase, name, events),
        end_phase(phase, name, events) == RunnerPhase::Done,
    ensures
        finishes(run_actions(phase, name, events)).len() == 1,
        phase != RunnerPhase::Killing ==> kill_names(run_actions(phase, name, events)).len()
            == deadline_count(events),
        deadline_count(events) <= 1,
        deadline_count(events) == 1 ==> finishes(run_actions(phase, name, events))[0]
            == timeout_outcome(),
        forall|i: int|
            0 <= i < kill_names(run_actions(phase, name, events)).len() ==> kill_names(
                run_actions(phase, name, events),
            )[i] == name,
        phase == RunnerPhase::Killing ==> kill_names(run_actions(phase, name, events)).len() == 0
            && deadline_count(events) == 0 && finishes(run_actions(phase, name, events))[0]
            == timeout_outcome(),
    decreases events.len(),
{
    assert(events.len() > 0);
    let e = events[0];
    let next = step_spec(phase, name, e);
    let p2 = next.0;
    let a = next.1;
    let rest = events.skip(1);
    let run = run_actions(phase, name, events);
    let runrest = run_actions(p2, name, rest);
    assert(run == seq![a] + runrest);
    assert(run.skip(1) =~= runrest);
    assert(trace_valid(p2, name, rest));
    assert(deadline_count(events) == (if e is DeadlineExpired {
        1int
    } else {
        0int
    }) + deadline_count(rest));
    if p2 == RunnerPhase::Done {
        // No event fits the terminal phase, so the trace ends here.
        if rest.len() > 0 {
            assert(event_fits(p2, rest[0]));
            assert(false);
        }
        assert(runrest =~= Seq::<ActionModel>::empty());
        assert(finishes(runrest) =~= Seq::<OutcomeModel>::empty());
        assert(kill_names(runrest) =~= Seq::<Seq<u8>>::empty());
        assert(a is Finish);
        let o = a->Finish_outcome;
        assert(finishes(run) =~= seq![o]);
        assert(kill_names(run) =~= Seq::<Seq<u8>>::empty());
        assert(!(e is DeadlineExpired));
        assert(deadline_count(rest) == 0);
        if phase == RunnerPhase::Killing {
            assert(o == timeout_outcome());
        }
    } else {
        lemma_run_from(p2, name, rest);
        assert(!(a is Finish));
        assert(finishes(run) =~= finishes(runrest));
        if e is DeadlineExpired {
            // The only transition that does not finish and consumes a
            // deadline expiry: it emits the kill and enters the kill phase.
            assert(p2 == RunnerPhase::Killing);
            assert(a == ActionModel::KillContainer { name });
            assert(kill_names(run) =~= seq![name] + kill_names(runrest));
            assert(kill_names(runrest).len() == 0);
            assert(kill_names(run) =~= seq![name]);
            assert(deadline_count(rest) == 0);
            assert(finishes(runrest)[0] == timeout_outcome());
        } else {
            assert(!(a is KillContainer));
            assert(kill_names(run) =~= kill_names(runrest));
            if phase == RunnerPhase::Killing {
                assert(false);
            }
            if p2 == RunnerPhase::Killing {
                // Only a deadline expiry enters the kill phase.
                assert(false);
            }
        }
    }
}

/// Every complete run resolves to exactly one outcome: never zero, never more
/// than one.
pub proof fn lemma_exactly_one_outcome(name: Seq<u8>, events: Seq<EventModel>)
    requires
        trace_valid(RunnerPhase::Pulling, name, events),
        end_phase(RunnerPhase::Pulling, name, events) == RunnerPhase::Done,
    ensures
        finishes(run_actions(RunnerPhase::Pulling, name, events)).len() == 1,
{
    lemma_run_from(RunnerPhase::Pulling, name, events);
}

/// If the deadline expires during a run, exactly one kill is issued, it is
/// addressed to the exact container name, and the run resolves to a timeout
/// outcome — never a success.
pub proof fn lemma_deadline_forces_kill_and_timeout(name: Seq<u8>, events: Seq<EventModel>)
    requires
        trace_valid(RunnerPhase::Pulling, name, events),
        end_phase(RunnerPhase::Pulling, name, events) == RunnerPhase::Done,
        deadline_count(events) >= 1,
    ensures
        kill_names(run_actions(RunnerPhase::Pulling, name, events)) =~= seq![name],
        finishes(run_actions(RunnerPhase::Pulling, name, events)) =~= seq![timeout_outcome()],
{
    lemma_run_from(RunnerPhase::Pulling, name, events);
}

/// If the deadline never expires, no kill is issued.
pub proof fn lemma_no_deadline_no_kill(name: Seq<u8>, events: Seq<EventModel>)
    requires
        trace_valid(RunnerPhase::Pulling, name, events),
        end_phase(RunnerPhase::Pulling, name, events) == RunnerPhase::Done,
        deadline_count(events) == 0,
    ensures
        kill_names(run_actions(RunnerPhase::Pulling, name, events)).len() == 0,
{
    lemma_run_from(RunnerPhase::Pulling, name, events);
}

} // verus!
