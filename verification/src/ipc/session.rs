//! The decisions of a live connection, separated from its I/O.
//!
//! The transport reads and writes frames; these functions decide what each
//! outcome means for the connection: whether a frame is delivered, skipped
//! or fails, and whether the connection is poisoned. A poisoned connection
//! answers every further call with `Closed`.

use crate::id::JobId;
use crate::ipc::error::{ipc_error_is_fatal, IpcError, ProtocolError};
use crate::ipc::lifecycle::{
    container_rejection, container_step, enforce_container_to_host, enforce_host_to_container,
    host_rejection, host_step,
    LifecycleAction, LifecycleState,
};
use crate::ipc::message::container_to_host::ReadyPayload;
use crate::ipc::message::host_to_container::InitPayload;
use crate::ipc::message::{container_wire_type, host_wire_type, ContainerToHost, HostToContainer};
use crate::ipc::policy::{
    bucket_capacity, normalized_spec, sat_add_usize, streak_cleared, streak_error,
    unknown_frame_outcome,
    UnknownFrameBudget, UnknownTrafficBudget, UnknownTrafficLimitConfig,
};
use crate::ipc::recv_policy::UnknownTypePolicy;
use crate::ipc::codec::DEFAULT_MAX_UNKNOWN_SKIPS;
use crate::ipc::policy::DEFAULT_MAX_UNKNOWN_BYTES;
use crate::ipc::version::{compatible_spec, is_compatible, PROTOCOL_VERSION};
use vstd::prelude::*;

verus! {

/// `Closed` when the connection is poisoned.
pub fn check_poisoned(poisoned: bool) -> (r: Result<(), IpcError>)
    ensures
        poisoned ==> r matches Err(IpcError::Closed),
        !poisoned ==> r is Ok,
{
    if poisoned {
        return Err(IpcError::Closed);
    }
    Ok(())
}

/// Whether an outcome poisons the connection: exactly fatal errors do.
pub fn poisons<T>(result: &Result<T, IpcError>) -> (r: bool)
    ensures
        r == match result {
            Ok(_) => false,
            Err(e) => ipc_error_is_fatal(*e),
        },
{
    match result {
        Ok(_) => false,
        Err(e) => e.is_fatal(),
    }
}

/// The host's handshake check of the container's first message: it must
/// be `ready`, advertising a compatible protocol version.
pub fn expect_ready(msg: ContainerToHost) -> (r: Result<ReadyPayload, IpcError>)
    ensures
        match msg {
            ContainerToHost::Ready(p) => if compatible_spec(p.protocol_version@) {
                r == Ok::<ReadyPayload, IpcError>(p)
            } else {
                r matches Err(IpcError::Protocol(ProtocolError::UnsupportedVersion { peer, local }))
                    && peer@ == p.protocol_version@ && local@ == "1.0"@
            },
            _ => r matches Err(IpcError::Protocol(ProtocolError::UnexpectedMessage { expected, got }))
                && expected@ == "ready"@ && got@ == container_wire_type(msg),
        },
{
    let got = msg.wire_type();
    match msg {
        ContainerToHost::Ready(payload) => {
            if !is_compatible(payload.protocol_version.as_str()) {
                let peer = payload.protocol_version.as_str().to_owned();
                return Err(
                    IpcError::Protocol(
                        ProtocolError::UnsupportedVersion { peer, local: PROTOCOL_VERSION },
                    ),
                );
            }
            Ok(payload)
        },
        _ => Err(IpcError::Protocol(ProtocolError::UnexpectedMessage { expected: "ready", got })),
    }
}

/// The container's handshake check of the host's first message: it must
/// be `init`.
pub fn expect_init(msg: HostToContainer) -> (r: Result<InitPayload, IpcError>)
    ensures
        match msg {
            HostToContainer::Init(p) => r == Ok::<InitPayload, IpcError>(p),
            _ => r matches Err(IpcError::Protocol(ProtocolError::UnexpectedMessage { expected, got }))
                && expected@ == "init"@ && got@ == host_wire_type(msg),
        },
{
    let got = msg.wire_type();
    match msg {
        HostToContainer::Init(payload) => Ok(payload),
        _ => Err(IpcError::Protocol(ProtocolError::UnexpectedMessage { expected: "init", got })),
    }
}

/// Whether `msg` could be sent now, without changing `state`: a dry run of
/// the container → host lifecycle rules on a copy.
pub fn validate_outbound_state(state: &LifecycleState, msg: &ContainerToHost) -> (r: Result<
    (),
    IpcError,
>)
    ensures
        r is Ok <==> container_step(state.phase_spec(), state.job_spec(), *msg) is Some,
        r matches Err(e) ==> container_rejection(e, state.phase_spec(), state.job_spec(), *msg),
{
    let mut lifecycle = state.clone();
    match enforce_container_to_host(&mut lifecycle, msg) {
        Ok(_) => Ok(()),
        Err(e) => Err(e),
    }
}

/// What a receive does with one decoded (or undecodable) frame.
#[derive(Debug)]
pub enum RecvStep<T> {
    /// Hand the message to the caller.
    Deliver(T),
    /// Drop the frame and read the next one.
    Skip,
    /// Return the error to the caller.
    Fail(IpcError),
}

/// `d` is the decoder's report of a message type it does not know.
pub open spec fn is_unknown_type(d: Result<HostToContainer, IpcError>) -> bool {
    d matches Err(IpcError::Protocol(ProtocolError::UnknownMessageType(_)))
}

/// One received frame of `frame_len` bytes, decoded as `decoded`, takes
/// the client session `pre` to `post` with outcome `step`. A poisoned
/// session fails with `Closed` and changes nothing. Under `SkipBounded`
/// an unknown type is charged to the streak (count by one, bytes
/// saturating) and skipped, or, over the streak's limits, fails with the
/// streak's error and poisons. A decoded message is delivered when the
/// lifecycle accepts it (ending the streak under `SkipBounded`) and fails
/// with the lifecycle's refusal otherwise. Any other error is returned,
/// and poisons when fatal.
pub open spec fn frame_transition(
    pre: ClientSession,
    policy: UnknownTypePolicy,
    frame_len: nat,
    decoded: Result<HostToContainer, IpcError>,
    step: RecvStep<HostToContainer>,
    post: ClientSession,
) -> bool {
    &&& post.lifecycle_spec().job_spec() == pre.lifecycle_spec().job_spec() || (
    decoded matches Ok(m) && m is Messages)
    &&& pre.poisoned_spec() ==> (step matches RecvStep::Fail(IpcError::Closed)
        && post.poisoned_spec() && post.budget_spec() == pre.budget_spec()
        && post.lifecycle_spec() == pre.lifecycle_spec())
    &&& !pre.poisoned_spec() ==> match decoded {
        Err(e) => if is_unknown_type(decoded) && policy is SkipBounded {
            let count = pre.budget_spec().count_spec() + 1;
            let bytes = sat_add_usize(pre.budget_spec().bytes_spec(), frame_len);
            let over = count > DEFAULT_MAX_UNKNOWN_SKIPS || bytes > DEFAULT_MAX_UNKNOWN_BYTES;
            &&& post.budget_spec().count_spec() == count
            &&& post.budget_spec().bytes_spec() == bytes
            &&& over ==> (step matches RecvStep::Fail(f) && streak_error(f, count, bytes))
                && post.poisoned_spec()
            &&& !over ==> step is Skip && !post.poisoned_spec()
        } else {
            &&& step == RecvStep::<HostToContainer>::Fail(e)
            &&& post.poisoned_spec() == ipc_error_is_fatal(e)
            &&& post.budget_spec() == pre.budget_spec()
        },
        Ok(m) => match host_step(pre.lifecycle_spec().phase_spec(), pre.lifecycle_spec().job_spec(), m) {
            Some((phase, job)) => {
                &&& step == RecvStep::Deliver(m)
                &&& post.lifecycle_spec().phase_spec() == phase
                &&& post.lifecycle_spec().job_spec() == job
                &&& !post.poisoned_spec()
                &&& policy is SkipBounded ==> post.budget_spec().count_spec() == 0
                    && post.budget_spec().bytes_spec() == 0
                &&& policy is Strict ==> post.budget_spec() == pre.budget_spec()
            },
            None => step matches RecvStep::Fail(e) && host_rejection(
                e,
                pre.lifecycle_spec().phase_spec(),
                pre.lifecycle_spec().job_spec(),
                m,
            ) && post.poisoned_spec() == ipc_error_is_fatal(e),
        },
    }
}

/// The client's connection state: lifecycle, unknown-type streak and the
/// poison flag.
pub struct ClientSession {
    lifecycle: LifecycleState,
    unknown_budget: UnknownFrameBudget,
    poisoned: bool,
}

impl ClientSession {
    #[verifier::type_invariant]
    spec fn streak_within_limit(self) -> bool {
        self.poisoned || self.unknown_budget.count_spec() <= DEFAULT_MAX_UNKNOWN_SKIPS
    }

    /// The lifecycle state.
    pub closed spec fn lifecycle_spec(&self) -> LifecycleState {
        self.lifecycle
    }

    /// The unknown-type streak.
    pub closed spec fn budget_spec(&self) -> UnknownFrameBudget {
        self.unknown_budget
    }

    /// Whether the connection is poisoned.
    pub closed spec fn poisoned_spec(&self) -> bool {
        self.poisoned
    }

    /// A fresh session processing `active_job_id` after the handshake.
    pub fn new(active_job_id: JobId) -> (s: Self)
        ensures
            s.lifecycle_spec().phase_spec() is Processing,
            s.lifecycle_spec().job_spec() == active_job_id@,
            s.budget_spec().count_spec() == 0,
            !s.poisoned_spec(),
    {
        ClientSession {
            lifecycle: LifecycleState::new(active_job_id),
            unknown_budget: UnknownFrameBudget::new(),
            poisoned: false,
        }
    }

    /// Whether the connection is poisoned.
    pub fn is_poisoned(&self) -> (b: bool)
        ensures
            b == self.poisoned_spec(),
    {
        self.poisoned
    }

    /// Poisons the connection.
    pub fn poison(&mut self)
        ensures
            final(self).poisoned_spec(),
            final(self).lifecycle_spec() == old(self).lifecycle_spec(),
            final(self).budget_spec() == old(self).budget_spec(),
    {
        self.poisoned = true;
    }

    /// Before sending `msg`: a poisoned connection refuses with `Closed`;
    /// otherwise the lifecycle rules apply (a fatal refusal poisons). The
    /// returned action is to be honoured once the frame is written.
    pub fn prepare_send(&mut self, msg: &ContainerToHost) -> (r: Result<LifecycleAction, IpcError>)
        ensures
            old(self).poisoned_spec() ==> (r matches Err(IpcError::Closed) && final(self).poisoned_spec()
                && final(self).lifecycle_spec().phase_spec() == old(self).lifecycle_spec().phase_spec()),
            !old(self).poisoned_spec() ==> match container_step(
                old(self).lifecycle_spec().phase_spec(),
                old(self).lifecycle_spec().job_spec(),
                *msg,
            ) {
                Some((phase, action)) => r == Ok::<LifecycleAction, IpcError>(action) && final(
                self).lifecycle_spec().phase_spec() == phase && !final(self).poisoned_spec(),
                None => r matches Err(e) && container_rejection(
                    e,
                    old(self).lifecycle_spec().phase_spec(),
                    old(self).lifecycle_spec().job_spec(),
                    *msg,
                ) && final(self).poisoned_spec() == ipc_error_is_fatal(e)
                    && final(self).lifecycle_spec().phase_spec() == old(
                self).lifecycle_spec().phase_spec(),
            },
            final(self).lifecycle_spec().job_spec() == old(self).lifecycle_spec().job_spec(),
            final(self).budget_spec() == old(self).budget_spec(),
    {
        if self.poisoned {
            return Err(IpcError::Closed);
        }
        proof {
            use_type_invariant(&*self);
        }
        let mut lifecycle = self.lifecycle.clone();
        let r = enforce_container_to_host(&mut lifecycle, msg);
        self.lifecycle = lifecycle;
        if poisons(&r) {
            self.poisoned = true;
        }
        r
    }

    /// After the transport tried to write the frame: a fatal write error
    /// poisons, and so does a successful write whose action was to close.
    pub fn finish_send(&mut self, written: Result<(), IpcError>, action: LifecycleAction) -> (r: Result<
        (),
        IpcError,
    >)
        ensures
            r == written,
            final(self).poisoned_spec() == (old(self).poisoned_spec() || match written {
                Ok(()) => action is CloseAfterCurrentFrame,
                Err(e) => ipc_error_is_fatal(e),
            }),
            final(self).lifecycle_spec() == old(self).lifecycle_spec(),
            final(self).budget_spec() == old(self).budget_spec(),
    {
        match &written {
            Ok(()) => {
                if action.should_close_after_frame() {
                    self.poisoned = true;
                }
            },
            Err(e) => {
                if e.is_fatal() {
                    self.poisoned = true;
                }
            },
        }
        written
    }

    /// The peer closed the stream: the connection is done.
    pub fn on_end_of_stream(&mut self) -> (e: IpcError)
        ensures
            e is Closed,
            final(self).poisoned_spec(),
            final(self).lifecycle_spec() == old(self).lifecycle_spec(),
            final(self).budget_spec() == old(self).budget_spec(),
    {
        self.poisoned = true;
        IpcError::Closed
    }

    /// The transport failed to produce a frame: the error is returned and
    /// the connection poisoned.
    pub fn on_transport_error(&mut self, e: IpcError) -> (r: IpcError)
        ensures
            r == e,
            final(self).poisoned_spec(),
            final(self).lifecycle_spec() == old(self).lifecycle_spec(),
            final(self).budget_spec() == old(self).budget_spec(),
    {
        self.poisoned = true;
        e
    }

    /// Decides one received frame of `frame_len` bytes, given its decoding.
    /// A poisoned connection fails with `Closed` and changes nothing.
    /// An unknown type under `SkipBounded` is charged to the streak budget
    /// and skipped, or fails and poisons once the budget is exceeded. A
    /// decoded message goes through the lifecycle rules; a delivered
    /// message ends the streak (under `SkipBounded`) and poisons when the
    /// lifecycle asks to close. Other errors poison when fatal.
    pub fn on_frame(
        &mut self,
        policy: UnknownTypePolicy,
        frame_len: usize,
        decoded: Result<HostToContainer, IpcError>,
    ) -> (step: RecvStep<HostToContainer>)
        ensures
            frame_transition(*old(self), policy, frame_len as nat, decoded, step, *final(self)),
            final(self).budget_spec().count_spec() <= DEFAULT_MAX_UNKNOWN_SKIPS || final(
            self).poisoned_spec(),
    {
        proof {
            use_type_invariant(&*self);
        }
        if self.poisoned {
            return RecvStep::Fail(IpcError::Closed);
        }
        match decoded {
            Err(e) => {
                let unknown = match &e {
                    IpcError::Protocol(ProtocolError::UnknownMessageType(_)) => true,
                    _ => false,
                };
                if unknown && matches!(policy, UnknownTypePolicy::SkipBounded) {
                    let mut budget = self.unknown_budget;
                    match budget.on_unknown(frame_len) {
                        Ok(()) => {
                            self.unknown_budget = budget;
                            RecvStep::Skip
                        },
                        Err(err) => {
                            self.poisoned = true;
                            self.unknown_budget = budget;
                            RecvStep::Fail(err)
                        },
                    }
                } else {
                    if e.is_fatal() {
                        self.poisoned = true;
                    }
                    RecvStep::Fail(e)
                }
            },
            Ok(msg) => {
                let mut lifecycle = self.lifecycle.clone();
                let r = enforce_host_to_container(&mut lifecycle, &msg);
                self.lifecycle = lifecycle;
                match r {
                    Ok(action) => {
                        if matches!(policy, UnknownTypePolicy::SkipBounded) {
                            let mut budget = self.unknown_budget;
                            budget.reset();
                            self.unknown_budget = budget;
                        }
                        if action.should_close_after_frame() {
                            self.poisoned = true;
                        }
                        RecvStep::Deliver(msg)
                    },
                    Err(e) => {
                        if e.is_fatal() {
                            self.poisoned = true;
                        }
                        RecvStep::Fail(e)
                    },
                }
            },
        }
    }
}

/// The container's connection state before the handshake completes: the
/// unknown-traffic budget and the poison flag. A streak over its limit
/// poisons the connection, so an open connection always has room to count
/// one more frame.
pub struct PendingSession {
    unknown_budget: UnknownTrafficBudget,
    poisoned: bool,
}

impl PendingSession {
    #[verifier::type_invariant]
    spec fn streak_within_limit(self) -> bool {
        self.poisoned || self.unknown_budget.streak().count_spec() <= DEFAULT_MAX_UNKNOWN_SKIPS
    }

    /// The unknown-traffic budget.
    pub closed spec fn budget_spec(&self) -> UnknownTrafficBudget {
        self.unknown_budget
    }

    /// Whether the connection is poisoned.
    pub closed spec fn poisoned_spec(&self) -> bool {
        self.poisoned
    }

    /// A fresh connection at clock reading `now`, under `limits`.
    pub fn new(now: u64, limits: UnknownTrafficLimitConfig) -> (s: Self)
        ensures
            s.budget_spec().limits_spec() == normalized_spec(limits),
            s.budget_spec().streak().count_spec() == 0,
            s.budget_spec().streak().bytes_spec() == 0,
            s.budget_spec().total_count_spec() == 0,
            s.budget_spec().total_bytes_spec() == 0,
            s.budget_spec().ignored_keys_spec() == 0,
            s.budget_spec().ignored_bytes_spec() == 0,
            s.budget_spec().tokens_spec() == bucket_capacity(normalized_spec(limits)),
            s.budget_spec().last_refill_spec() == now,
            !s.poisoned_spec(),
    {
        PendingSession { unknown_budget: UnknownTrafficBudget::new(now, limits), poisoned: false }
    }

    /// Whether the connection is poisoned.
    pub fn is_poisoned(&self) -> (b: bool)
        ensures
            b == self.poisoned_spec(),
    {
        self.poisoned
    }

    /// Poisons the connection.
    pub fn poison(&mut self)
        ensures
            final(self).poisoned_spec(),
            final(self).budget_spec() == old(self).budget_spec(),
    {
        self.poisoned = true;
    }

    /// The transport failed to produce a frame: the error is returned, and
    /// poisons the connection when fatal.
    pub fn on_transport_error(&mut self, e: IpcError) -> (r: IpcError)
        ensures
            r == e,
            final(self).poisoned_spec() == (old(self).poisoned_spec() || ipc_error_is_fatal(e)),
            final(self).budget_spec() == old(self).budget_spec(),
    {
        if e.is_fatal() {
            self.poisoned = true;
        }
        e
    }

    /// The peer closed the stream: the connection is done.
    pub fn on_end_of_stream(&mut self) -> (e: IpcError)
        ensures
            e is Closed,
            final(self).poisoned_spec(),
            final(self).budget_spec() == old(self).budget_spec(),
    {
        self.poisoned = true;
        IpcError::Closed
    }

    /// Decides one frame of `frame_len` bytes received at clock reading
    /// `now`, given its decoding. A poisoned connection fails with
    /// `Closed`. A decoded message ends the unknown streak and is
    /// delivered; an unknown type is charged to the budget and skipped, or
    /// fails and poisons when the budget refuses it; any other error fails,
    /// and poisons when fatal.
    pub fn on_frame(
        &mut self,
        frame_len: usize,
        decoded: Result<HostToContainer, IpcError>,
        now: u64,
    ) -> (step: RecvStep<HostToContainer>)
        ensures
            old(self).poisoned_spec() ==> (step matches RecvStep::Fail(IpcError::Closed)
                && final(self).poisoned_spec() && final(self).budget_spec() == old(
            self).budget_spec()),
            !old(self).poisoned_spec() ==> match decoded {
                Ok(m) => step == RecvStep::Deliver(m) && !final(self).poisoned_spec()
                    && streak_cleared(old(self).budget_spec(), final(self).budget_spec()),
                Err(e) => if e matches IpcError::Protocol(ProtocolError::UnknownMessageType(_)) {
                    &&& step is Skip || step is Fail
                    &&& step is Skip ==> unknown_frame_outcome(
                        old(self).budget_spec(),
                        final(self).budget_spec(),
                        frame_len as nat,
                        now,
                        Ok(()),
                    ) && !final(self).poisoned_spec()
                    &&& step matches RecvStep::Fail(f) ==> unknown_frame_outcome(
                        old(self).budget_spec(),
                        final(self).budget_spec(),
                        frame_len as nat,
                        now,
                        Err(f),
                    ) && final(self).poisoned_spec()
                } else {
                    step == RecvStep::<HostToContainer>::Fail(e) && final(self).poisoned_spec()
                        == ipc_error_is_fatal(e) && final(self).budget_spec() == old(
                    self).budget_spec()
                },
            },
    {
        proof {
            use_type_invariant(&*self);
        }
        if self.poisoned {
            return RecvStep::Fail(IpcError::Closed);
        }
        match decoded {
            Ok(msg) => {
                let mut budget = self.unknown_budget;
                budget.reset_consecutive();
                self.unknown_budget = budget;
                RecvStep::Deliver(msg)
            },
            Err(e) => {
                let unknown = match &e {
                    IpcError::Protocol(ProtocolError::UnknownMessageType(_)) => true,
                    _ => false,
                };
                if unknown {
                    let mut budget = self.unknown_budget;
                    match budget.on_unknown(frame_len, now) {
                        Ok(()) => {
                            self.unknown_budget = budget;
                            RecvStep::Skip
                        },
                        Err(err) => {
                            self.poisoned = true;
                            self.unknown_budget = budget;
                            RecvStep::Fail(err)
                        },
                    }
                } else {
                    if e.is_fatal() {
                        self.poisoned = true;
                    }
                    RecvStep::Fail(e)
                }
            },
        }
    }
}

/// The total of the first `n` frame lengths.
pub open spec fn lengths_total(lens: Seq<usize>, n: int) -> nat
    decreases n,
{
    if n <= 0 || n > lens.len() {
        0
    } else {
        lengths_total(lens, n - 1) + lens[n - 1] as nat
    }
}

/// `states`, `steps` trace the client session through the unknown-type
/// frames `frames` of lengths `lens`, received under `SkipBounded` from a
/// live session with no streak.
pub open spec fn unknown_run(
    states: Seq<ClientSession>,
    lens: Seq<usize>,
    frames: Seq<Result<HostToContainer, IpcError>>,
    steps: Seq<RecvStep<HostToContainer>>,
) -> bool {
    &&& states.len() == frames.len() + 1
    &&& lens.len() == frames.len()
    &&& steps.len() == frames.len()
    &&& !states[0].poisoned_spec()
    &&& states[0].budget_spec().count_spec() == 0
    &&& states[0].budget_spec().bytes_spec() == 0
    &&& forall|i: int|
        0 <= i < frames.len() ==> is_unknown_type(frames[i]) && #[trigger] run_step(
            states,
            lens,
            frames,
            steps,
            i,
        )
}

/// Frame `i` of a run takes state `i` to state `i + 1` under `SkipBounded`.
pub open spec fn run_step(
    states: Seq<ClientSession>,
    lens: Seq<usize>,
    frames: Seq<Result<HostToContainer, IpcError>>,
    steps: Seq<RecvStep<HostToContainer>>,
    i: int,
) -> bool {
    frame_transition(
        states[i],
        UnknownTypePolicy::SkipBounded,
        lens[i] as nat,
        frames[i],
        steps[i],
        states[i + 1],
    )
}

proof fn lemma_lengths_total_monotone(lens: Seq<usize>, a: int, b: int)
    requires
        0 <= a <= b <= lens.len(),
    ensures
        lengths_total(lens, a) <= lengths_total(lens, b),
    decreases b - a,
{
    if a < b {
        lemma_lengths_total_monotone(lens, a, b - 1);
    }
}

proof fn lemma_unknown_run_prefix(
    states: Seq<ClientSession>,
    lens: Seq<usize>,
    frames: Seq<Result<HostToContainer, IpcError>>,
    steps: Seq<RecvStep<HostToContainer>>,
    n: int,
)
    requires
        unknown_run(states, lens, frames, steps),
        0 <= n <= frames.len(),
        n <= DEFAULT_MAX_UNKNOWN_SKIPS,
        lengths_total(lens, n) <= DEFAULT_MAX_UNKNOWN_BYTES,
    ensures
        !states[n].poisoned_spec(),
        states[n].budget_spec().count_spec() == n,
        states[n].budget_spec().bytes_spec() == lengths_total(lens, n),
        forall|i: int| 0 <= i < n ==> #[trigger] steps[i] is Skip,
    decreases n,
{
    if n > 0 {
        lemma_lengths_total_monotone(lens, n - 1, n);
        lemma_unknown_run_prefix(states, lens, frames, steps, n - 1);
        assert(run_step(states, lens, frames, steps, n - 1));
    }
}

proof fn lemma_unknown_run_closed(
    states: Seq<ClientSession>,
    lens: Seq<usize>,
    frames: Seq<Result<HostToContainer, IpcError>>,
    steps: Seq<RecvStep<HostToContainer>>,
    m: int,
    n: int,
)
    requires
        unknown_run(states, lens, frames, steps),
        0 <= m <= n <= frames.len(),
        states[m].poisoned_spec(),
    ensures
        states[n].poisoned_spec(),
        forall|i: int| m <= i < n ==> #[trigger] steps[i] matches RecvStep::Fail(IpcError::Closed),
    decreases n - m,
{
    if m < n {
        assert(run_step(states, lens, frames, steps, m));
        lemma_unknown_run_closed(states, lens, frames, steps, m + 1, n);
    }
}

/// A bounded receive over a run of unknown message types, from a live
/// session with no streak, when the run's bytes stay within
/// [`DEFAULT_MAX_UNKNOWN_BYTES`]: the first 32 frames are skipped (the
/// streak counting their frames and bytes); the 33rd fails with
/// `TooManyUnknownMessages` of count 33 and limit 32 and poisons the
/// connection; every later frame fails with `Closed`.
pub proof fn lemma_unknown_run_is_bounded(
    states: Seq<ClientSession>,
    lens: Seq<usize>,
    frames: Seq<Result<HostToContainer, IpcError>>,
    steps: Seq<RecvStep<HostToContainer>>,
)
    requires
        unknown_run(states, lens, frames, steps),
        lengths_total(
            lens,
            if frames.len() < 33 {
                frames.len() as int
            } else {
                33
            },
        ) <= DEFAULT_MAX_UNKNOWN_BYTES,
    ensures
        forall|i: int|
            0 <= i < frames.len() && i < 32 ==> #[trigger] steps[i] is Skip && !states[i
                + 1].poisoned_spec() && states[i + 1].budget_spec().count_spec() == i + 1
                && states[i + 1].budget_spec().bytes_spec() == lengths_total(lens, i + 1),
        frames.len() > 32 ==> (steps[32] matches RecvStep::Fail(
            IpcError::Protocol(ProtocolError::TooManyUnknownMessages { count, limit }),
        ) && count == 33 && limit == 32 && states[33].poisoned_spec()),
        forall|i: int| 33 <= i < frames.len() ==> #[trigger] steps[i] matches RecvStep::Fail(
            IpcError::Closed,
        ),
{
    let k = if frames.len() < 33 {
        frames.len() as int
    } else {
        33
    };
    assert forall|i: int| 0 <= i < frames.len() && i < 32 implies #[trigger] steps[i] is Skip
        && !states[i + 1].poisoned_spec() && states[i + 1].budget_spec().count_spec() == i + 1
        && states[i + 1].budget_spec().bytes_spec() == lengths_total(lens, i + 1) by {
        lemma_lengths_total_monotone(lens, i + 1, k);
        lemma_unknown_run_prefix(states, lens, frames, steps, i + 1);
    }
    if frames.len() > 32 {
        lemma_lengths_total_monotone(lens, 32, 33);
        lemma_unknown_run_prefix(states, lens, frames, steps, 32);
        assert(run_step(states, lens, frames, steps, 32));
        lemma_unknown_run_closed(states, lens, frames, steps, 33, frames.len() as int);
    }
}

/// After a skipped run, a message the lifecycle accepts is delivered and
/// ends the streak: a bounded receive returns the first known message.
pub proof fn lemma_known_frame_ends_run(
    pre: ClientSession,
    frame_len: nat,
    m: HostToContainer,
    step: RecvStep<HostToContainer>,
    post: ClientSession,
)
    requires
        !pre.poisoned_spec(),
        host_step(pre.lifecycle_spec().phase_spec(), pre.lifecycle_spec().job_spec(), m) is Some,
        frame_transition(pre, UnknownTypePolicy::SkipBounded, frame_len, Ok(m), step, post),
    ensures
        step == RecvStep::Deliver(m),
        !post.poisoned_spec(),
        post.budget_spec().count_spec() == 0,
        post.budget_spec().bytes_spec() == 0,
{
}

/// Under `Strict` an unknown message type is handed back as the decoder
/// reported it, and the connection stays usable.
pub proof fn lemma_strict_returns_unknown_type(
    pre: ClientSession,
    frame_len: nat,
    d: Result<HostToContainer, IpcError>,
    step: RecvStep<HostToContainer>,
    post: ClientSession,
)
    requires
        !pre.poisoned_spec(),
        is_unknown_type(d),
        frame_transition(pre, UnknownTypePolicy::Strict, frame_len, d, step, post),
    ensures
        d matches Err(e) && step == RecvStep::<HostToContainer>::Fail(e),
        !post.poisoned_spec(),
        post.budget_spec() == pre.budget_spec(),
{
}

} // verus!
