use crate::encoder::{EncoderError, MessageEncoder, Payload};
use crate::params::{same_params, Fraction, RoundParameters};
use vstd::prelude::*;

verus! {

/// The participant's signing key pair.
#[derive(Debug, Clone)]
pub struct SigningKeyPair {
    pub public: Vec<u8>,
    pub secret: Vec<u8>,
}

/// How the participant masks its model.
#[derive(PartialEq, Eq, Structural, Debug, Copy, Clone)]
pub struct MaskConfig {
    pub group_type: u8,
    pub data_type: u8,
    pub bound_type: u8,
    pub model_type: u8,
}

/// A non-negative rational number `numerator / denominator`.
#[derive(PartialEq, Eq, Structural, Debug, Copy, Clone)]
pub struct Ratio {
    pub numerator: u64,
    pub denominator: u64,
}

/// The settings a participant starts from.
#[derive(Debug, Clone)]
pub struct PetSettings {
    pub keys: SigningKeyPair,
    pub mask_config: MaskConfig,
    pub scalar: Ratio,
    /// Largest number of payload bytes in one message; `None` for no limit.
    pub max_message_size: Option<usize>,
}

/// Data common to all the phases.
#[derive(Debug, Clone)]
pub struct SharedState {
    /// Keys that identify the participant; they sign its PET messages.
    pub keys: SigningKeyPair,
    /// Masking configuration.
    pub mask_config: MaskConfig,
    /// Scalar used for masking.
    pub scalar: Ratio,
    /// Largest number of payload bytes in one message; larger payloads are
    /// split into several parts. `None` for no limit.
    pub message_size: Option<usize>,
    /// The round parameters last fetched.
    pub round_params: RoundParameters,
}

impl SharedState {
    /// The shared state of a participant that has not heard of any round yet.
    pub fn new(settings: PetSettings) -> (r: Self)
        ensures
            r.keys == settings.keys,
            r.mask_config == settings.mask_config,
            r.scalar == settings.scalar,
            r.message_size == settings.max_message_size,
            r.round_params.round_id == 0,
            r.round_params.pk@.len() == 0,
            r.round_params.seed@.len() == 0,
            r.round_params.sum == (Fraction { numerator: 0, denominator: 1 }),
            r.round_params.update == (Fraction { numerator: 0, denominator: 1 }),
    {
        SharedState {
            keys: settings.keys,
            mask_config: settings.mask_config,
            scalar: settings.scalar,
            message_size: settings.max_message_size,
            round_params: RoundParameters::initial(),
        }
    }
}

/// Private data of the `NewRound` phase.
#[derive(PartialEq, Eq, Structural, Debug, Copy, Clone)]
pub struct NewRound;

/// Private data of the `Awaiting` phase.
#[derive(PartialEq, Eq, Structural, Debug, Copy, Clone)]
pub struct Awaiting;

/// Private data of the `Sum` phase: the ephemeral key of this round.
#[derive(Debug, Clone)]
pub struct Sum {
    pub ephm_pk: Vec<u8>,
}

/// Private data of the `Update` phase.
#[derive(PartialEq, Eq, Structural, Debug, Copy, Clone)]
pub struct Update;

/// Private data of the `Sum2` phase: the ephemeral key of this round.
#[derive(Debug, Clone)]
pub struct Sum2 {
    pub ephm_pk: Vec<u8>,
}

/// State of the state machine in one phase.
#[derive(Debug, Clone)]
pub struct State<P> {
    /// Data specific to the current phase.
    pub private: P,
    /// Data common to most of the phases.
    pub shared: SharedState,
}

impl<P> State<P> {
    /// Create a new state.
    pub fn new(shared: SharedState, private: P) -> (r: Self)
        ensures
            r.shared == shared,
            r.private == private,
    {
        State { shared, private }
    }
}

/// The state machine in a specific phase. The IO collaborator that the
/// machine talks to is held by whoever drives it, not here.
#[derive(Debug, Clone)]
pub struct Phase<P> {
    /// State of the phase.
    pub state: State<P>,
}

impl<P> Phase<P> {
    /// The machine in the phase of `state`.
    pub fn new(state: State<P>) -> (r: Self)
        ensures
            r.state == state,
    {
        Phase { state }
    }

    /// The same shared data, in the `Awaiting` phase.
    pub fn into_awaiting(self) -> (r: Phase<Awaiting>)
        ensures
            r.state == (State { private: Awaiting, shared: self.state.shared }),
    {
        Phase::new(State::new(self.state.shared, Awaiting))
    }

    /// The encoder for a PET payload under the participant's message size:
    /// its parts carry at most `message_size` bytes of data each, or the
    /// whole payload where there is no limit. The state machine only ever
    /// builds sum, update and sum2 payloads, which the encoder always takes.
    pub fn message_encoder(&self, payload: &Payload) -> (r: MessageEncoder)
        requires
            !(payload is Chunk),
        ensures
            crate::encoder::well_framed(
                r.parts@,
                match self.state.shared.message_size {
                    Some(m) => m as nat,
                    None => 0,
                },
            ),
            crate::encoder::concat_data(r.parts@) == crate::encoder::payload_bytes(*payload),
    {
        let max: usize = match self.state.shared.message_size {
            Some(m) => m,
            None => 0,
        };
        match MessageEncoder::new(payload, max) {
            Ok(e) => e,
            Err(EncoderError::ChunkPayload) => {
                proof {
                    assert(false);
                }
                MessageEncoder { parts: Vec::new() }
            },
        }
    }
}

/// The state machine's state in whichever phase it is.
#[derive(Debug, Clone)]
pub enum SerializableState {
    NewRound(State<NewRound>),
    Awaiting(State<Awaiting>),
    Sum(State<Sum>),
    Update(State<Update>),
    Sum2(State<Sum2>),
}

/// The shared data of a state, whatever its phase.
pub open spec fn shared_of(s: SerializableState) -> SharedState {
    match s {
        SerializableState::NewRound(st) => st.shared,
        SerializableState::Awaiting(st) => st.shared,
        SerializableState::Sum(st) => st.shared,
        SerializableState::Update(st) => st.shared,
        SerializableState::Sum2(st) => st.shared,
    }
}

/// Whether the round parameters held are those of the current round.
#[derive(PartialEq, Eq, Structural, Debug, Copy, Clone)]
pub enum RoundFreshness {
    /// A new round started.
    Outdated,
    /// The round parameters could not be fetched.
    Unknown,
    /// The round parameters did not change.
    Fresh,
}

/// Freshness of the parameters `held`, given what the coordinator answered
/// (`None` where it could not be reached).
pub open spec fn freshness(held: RoundParameters, fetched: Option<RoundParameters>) -> RoundFreshness {
    match fetched {
        None => RoundFreshness::Unknown,
        Some(p) => if same_params(p, held) {
            RoundFreshness::Fresh
        } else {
            RoundFreshness::Outdated
        },
    }
}

/// Compare the round parameters held in `shared` with those fetched from the
/// coordinator, and keep the fetched ones where they differ.
pub fn check_round_freshness(shared: &mut SharedState, fetched: Option<RoundParameters>) -> (r:
    RoundFreshness)
    ensures
        r == freshness(old(shared).round_params, fetched),
        r == RoundFreshness::Outdated ==> fetched == Some(final(shared).round_params),
        r == RoundFreshness::Outdated ==> final(shared).keys == old(shared).keys
            && final(shared).mask_config == old(shared).mask_config && final(shared).scalar
            == old(shared).scalar && final(shared).message_size == old(shared).message_size,
        r != RoundFreshness::Outdated ==> *final(shared) == *old(shared),
{
    match fetched {
        None => RoundFreshness::Unknown,
        Some(params) => {
            if params == shared.round_params {
                RoundFreshness::Fresh
            } else {
                shared.round_params = params;
                RoundFreshness::Outdated
            }
        },
    }
}

/// What the freshness probe at the start of a step decided.
#[derive(Debug)]
pub enum Probe {
    /// No progress can be made now: the state is handed back as it was.
    Pending(SerializableState),
    /// A new round started: the machine is back in `NewRound`, with the new
    /// parameters, and the IO collaborator is to be told.
    NewRound(State<NewRound>),
    /// The round did not change: the phase-specific step runs on this state.
    Fresh(SerializableState),
}

/// The `NewRound` state that keeps the shared data of `s` with parameters `p`.
pub open spec fn reset_state(s: SerializableState, p: RoundParameters) -> State<NewRound> {
    State { private: NewRound, shared: SharedState { round_params: p, ..shared_of(s) } }
}

/// The outcome of the freshness probe on state `s`.
pub open spec fn probe_outcome(s: SerializableState, fetched: Option<RoundParameters>) -> Probe {
    match fetched {
        None => Probe::Pending(s),
        Some(p) => if same_params(p, shared_of(s).round_params) {
            Probe::Fresh(s)
        } else {
            Probe::NewRound(reset_state(s, p))
        },
    }
}

/// The phase-specific part of a state.
#[derive(Debug)]
pub enum PrivateState {
    NewRound(NewRound),
    Awaiting(Awaiting),
    Sum(Sum),
    Update(Update),
    Sum2(Sum2),
}

/// The state made of shared data `shared` and phase-specific data `p`.
pub open spec fn joined(shared: SharedState, p: PrivateState) -> SerializableState {
    match p {
        PrivateState::NewRound(x) => SerializableState::NewRound(State { private: x, shared }),
        PrivateState::Awaiting(x) => SerializableState::Awaiting(State { private: x, shared }),
        PrivateState::Sum(x) => SerializableState::Sum(State { private: x, shared }),
        PrivateState::Update(x) => SerializableState::Update(State { private: x, shared }),
        PrivateState::Sum2(x) => SerializableState::Sum2(State { private: x, shared }),
    }
}

/// Split a state into its shared data and its phase-specific data.
pub fn split_state(s: SerializableState) -> (r: (SharedState, PrivateState))
    ensures
        r.0 == shared_of(s),
        joined(r.0, r.1) == s,
{
    match s {
        SerializableState::NewRound(st) => (st.shared, PrivateState::NewRound(st.private)),
        SerializableState::Awaiting(st) => (st.shared, PrivateState::Awaiting(st.private)),
        SerializableState::Sum(st) => (st.shared, PrivateState::Sum(st.private)),
        SerializableState::Update(st) => (st.shared, PrivateState::Update(st.private)),
        SerializableState::Sum2(st) => (st.shared, PrivateState::Sum2(st.private)),
    }
}

/// Put a state together from its shared data and its phase-specific data.
pub fn join_state(shared: SharedState, p: PrivateState) -> (r: SerializableState)
    ensures
        r == joined(shared, p),
{
    match p {
        PrivateState::NewRound(x) => SerializableState::NewRound(State::new(shared, x)),
        PrivateState::Awaiting(x) => SerializableState::Awaiting(State::new(shared, x)),
        PrivateState::Sum(x) => SerializableState::Sum(State::new(shared, x)),
        PrivateState::Update(x) => SerializableState::Update(State::new(shared, x)),
        PrivateState::Sum2(x) => SerializableState::Sum2(State::new(shared, x)),
    }
}

/// The first part of every step: probe round freshness with what the
/// coordinator answered (`None` where the fetch failed). Where the fetch
/// failed the state comes back unchanged; where the parameters changed the
/// machine resets to `NewRound` with the new ones; otherwise the
/// phase-specific step is next.
pub fn probe(s: SerializableState, fetched: Option<RoundParameters>) -> (r: Probe)
    ensures
        r == probe_outcome(s, fetched),
{
    let ghost s0 = s;
    let (mut shared, private) = split_state(s);
    match check_round_freshness(&mut shared, fetched) {
        RoundFreshness::Unknown => Probe::Pending(join_state(shared, private)),
        RoundFreshness::Fresh => Probe::Fresh(join_state(shared, private)),
        RoundFreshness::Outdated => {
            let r = State::new(shared, NewRound);
            proof {
                assert(r.shared == reset_state(s0, fetched->0).shared);
            }
            Probe::NewRound(r)
        },
    }
}

/// Which tasks the participant is eligible for in the current round.
#[derive(PartialEq, Eq, Structural, Debug, Copy, Clone)]
pub struct Eligibility {
    pub sum: bool,
    pub update: bool,
}

/// Where `NewRound` leads: a participant eligible for the sum task starts
/// `Sum` with the ephemeral key `ephm_pk`; otherwise one eligible for the
/// update task starts `Update`; any other waits in `Awaiting`.
pub open spec fn new_round_next(state: State<NewRound>, eligibility: Eligibility, ephm_pk: Vec<u8>) -> SerializableState {
    if eligibility.sum {
        SerializableState::Sum(State { private: Sum { ephm_pk }, shared: state.shared })
    } else if eligibility.update {
        SerializableState::Update(State { private: Update, shared: state.shared })
    } else {
        SerializableState::Awaiting(State { private: Awaiting, shared: state.shared })
    }
}

/// The phase-specific step of `NewRound`: a participant eligible for the sum
/// task starts `Sum` with the ephemeral key `ephm_pk`; otherwise one eligible
/// for the update task starts `Update`; any other waits in `Awaiting`.
pub fn new_round_step(state: State<NewRound>, eligibility: Eligibility, ephm_pk: Vec<u8>) -> (r:
    SerializableState)
    ensures
        r == new_round_next(state, eligibility, ephm_pk),
        shared_of(r) == state.shared,
        eligibility.sum ==> r == SerializableState::Sum(
            State { private: Sum { ephm_pk }, shared: state.shared },
        ),
        !eligibility.sum && eligibility.update ==> r == SerializableState::Update(
            State { private: Update, shared: state.shared },
        ),
        !eligibility.sum && !eligibility.update ==> r == SerializableState::Awaiting(
            State { private: Awaiting, shared: state.shared },
        ),
{
    if eligibility.sum {
        SerializableState::Sum(State::new(state.shared, Sum { ephm_pk }))
    } else if eligibility.update {
        SerializableState::Update(State::new(state.shared, Update))
    } else {
        SerializableState::Awaiting(State::new(state.shared, Awaiting))
    }
}

/// Outcome of a step.
#[derive(Debug)]
pub enum TransitionOutcome {
    /// No progress was made: the state machine is handed back unchanged.
    Pending(SerializableState),
    /// The state machine moved on to this state.
    Complete(SerializableState),
}

/// The phase-specific step of `Awaiting`: there is nothing to do but wait.
pub fn awaiting_step(state: State<Awaiting>) -> (r: TransitionOutcome)
    ensures
        r == TransitionOutcome::Pending(SerializableState::Awaiting(state)),
{
    TransitionOutcome::Pending(SerializableState::Awaiting(state))
}

/// Failure to send a PET message.
#[derive(PartialEq, Eq, Structural, Debug, Copy, Clone)]
pub struct SendMessageError;

/// The state that follows a successfully sent message: `Sum` leads to
/// `Sum2`, `Update` and `Sum2` to `Awaiting`. Other phases send nothing.
pub open spec fn after_sent(s: SerializableState) -> SerializableState {
    match s {
        SerializableState::Sum(st) => SerializableState::Sum2(
            State { private: Sum2 { ephm_pk: st.private.ephm_pk }, shared: st.shared },
        ),
        SerializableState::Update(st) => SerializableState::Awaiting(
            State { private: Awaiting, shared: st.shared },
        ),
        SerializableState::Sum2(st) => SerializableState::Awaiting(
            State { private: Awaiting, shared: st.shared },
        ),
        _ => s,
    }
}

/// The step of a sending phase once its message went out, or failed to:
/// on success the phase is over; on failure the machine stays where it is,
/// so that the caller may try again.
pub fn message_step(s: SerializableState, sent: Result<(), SendMessageError>) -> (r:
    TransitionOutcome)
    ensures
        sent is Err ==> r == TransitionOutcome::Pending(s),
        sent is Ok && (s is Sum || s is Update || s is Sum2) ==> r == TransitionOutcome::Complete(
            after_sent(s),
        ),
        sent is Ok && !(s is Sum || s is Update || s is Sum2) ==> r == TransitionOutcome::Pending(
            s,
        ),
{
    if sent.is_err() {
        return TransitionOutcome::Pending(s);
    }
    match s {
        SerializableState::Sum(st) => {
            let State { private, shared } = st;
            let next = State::new(shared, Sum2 { ephm_pk: private.ephm_pk });
            TransitionOutcome::Complete(SerializableState::Sum2(next))
        },
        SerializableState::Update(st) => TransitionOutcome::Complete(
            SerializableState::Awaiting(State::new(st.shared, Awaiting)),
        ),
        SerializableState::Sum2(st) => TransitionOutcome::Complete(
            SerializableState::Awaiting(State::new(st.shared, Awaiting)),
        ),
        _ => TransitionOutcome::Pending(s),
    }
}

/// Probing is idempotent while it makes no progress: a probe that leaves the
/// machine pending hands back the state it was given, and probing that state
/// again with the same answer from the coordinator leaves it pending again.
pub proof fn lemma_pending_is_idempotent(s: SerializableState, fetched: Option<RoundParameters>)
    requires
        probe_outcome(s, fetched) is Pending,
    ensures
        probe_outcome(s, fetched) == Probe::Pending(s),
        probe_outcome(probe_outcome(s, fetched)->Pending_0, fetched) == probe_outcome(s, fetched),
{
}

/// Freshness detection: where the coordinator answers with the parameters
/// that the machine holds, the phase-specific step runs next on the state as
/// it is; where it answers with other parameters, the machine is back in
/// `NewRound` in this one step, holding the new parameters and keeping the
/// rest of its shared data.
pub proof fn lemma_freshness_detection(s: SerializableState, p: RoundParameters)
    ensures
        same_params(p, shared_of(s).round_params) ==> probe_outcome(s, Some(p)) == Probe::Fresh(
            s,
        ),
        !same_params(p, shared_of(s).round_params) ==> {
            &&& probe_outcome(s, Some(p)) is NewRound
            &&& probe_outcome(s, Some(p))->NewRound_0.shared.round_params == p
            &&& probe_outcome(s, Some(p))->NewRound_0.shared.keys == shared_of(s).keys
            &&& probe_outcome(s, Some(p))->NewRound_0.shared.message_size == shared_of(
                s,
            ).message_size
        },
{
}

/// What a phase-specific step learned from the IO collaborator.
#[derive(Debug)]
pub enum PhaseInput {
    /// Nothing: the phase has no IO work to report.
    Nothing,
    /// The participant's eligibility in the new round, and a fresh ephemeral key.
    Eligibility(Eligibility, Vec<u8>),
    /// Whether the phase's message went out.
    Sent(Result<(), SendMessageError>),
}

/// The outcome of the phase-specific step on state `s`, given what the IO
/// collaborator reported: `NewRound` moves on once it knows the
/// participant's eligibility; `Sum`, `Update` and `Sum2` move on once their
/// message went out and stay where they are when it did not; anything else
/// leaves the machine pending with its state as it was.
pub open spec fn phase_step_outcome(s: SerializableState, input: PhaseInput) -> TransitionOutcome {
    match s {
        SerializableState::NewRound(st) => match input {
            PhaseInput::Eligibility(e, k) => TransitionOutcome::Complete(new_round_next(st, e, k)),
            _ => TransitionOutcome::Pending(s),
        },
        SerializableState::Awaiting(_) => TransitionOutcome::Pending(s),
        _ => match input {
            PhaseInput::Sent(sent) => if sent is Err {
                TransitionOutcome::Pending(s)
            } else {
                TransitionOutcome::Complete(after_sent(s))
            },
            _ => TransitionOutcome::Pending(s),
        },
    }
}

/// A phase-specific step that makes no progress is idempotent too: it hands
/// back the state it was given, and stepping that state again with the same
/// report leaves it pending again.
pub proof fn lemma_stuck_step_is_idempotent(s: SerializableState, input: PhaseInput)
    requires
        phase_step_outcome(s, input) is Pending,
    ensures
        phase_step_outcome(s, input) == TransitionOutcome::Pending(s),
        phase_step_outcome(phase_step_outcome(s, input)->Pending_0, input) == phase_step_outcome(
            s,
            input,
        ),
{
}

/// A whole step of the machine: the freshness probe with what the
/// coordinator answered, then, where the round is fresh, the phase-specific
/// step with what the IO collaborator reported.
pub open spec fn step_outcome(
    s: SerializableState,
    fetched: Option<RoundParameters>,
    input: PhaseInput,
) -> TransitionOutcome {
    match probe_outcome(s, fetched) {
        Probe::Pending(t) => TransitionOutcome::Pending(t),
        Probe::NewRound(st) => TransitionOutcome::Complete(SerializableState::NewRound(st)),
        Probe::Fresh(t) => phase_step_outcome(t, input),
    }
}

/// Whole steps are idempotent over `Pending`: a step that makes no progress,
/// because the fetch failed or because the round is fresh and the phase is
/// stuck, hands back the state it was given, and the same step on that
/// state is pending again.
pub proof fn lemma_step_is_idempotent_over_pending(
    s: SerializableState,
    fetched: Option<RoundParameters>,
    input: PhaseInput,
)
    requires
        step_outcome(s, fetched, input) is Pending,
    ensures
        step_outcome(s, fetched, input) == TransitionOutcome::Pending(s),
        step_outcome(step_outcome(s, fetched, input)->Pending_0, fetched, input) == step_outcome(
            s,
            fetched,
            input,
        ),
{
}

/// Whole steps detect freshness: where the coordinator answers with the
/// parameters held, the step is the phase-specific step on the state as it
/// is; where it answers with others, the step ends in `NewRound` with them.
pub proof fn lemma_step_detects_freshness(s: SerializableState, p: RoundParameters, input: PhaseInput)
    ensures
        same_params(p, shared_of(s).round_params) ==> step_outcome(s, Some(p), input)
            == phase_step_outcome(s, input),
        !same_params(p, shared_of(s).round_params) ==> step_outcome(s, Some(p), input)
            == TransitionOutcome::Complete(SerializableState::NewRound(reset_state(s, p))),
{
}

/// A phase's own piece of work, which the state machine runs once the round
/// proved fresh.
pub trait Step: Sized {
    /// Try to make progress with what the IO collaborator reported.
    fn step(self, input: PhaseInput) -> TransitionOutcome;
}

impl Step for Phase<NewRound> {
    fn step(self, input: PhaseInput) -> (r: TransitionOutcome)
        ensures
            r == phase_step_outcome(SerializableState::NewRound(self.state), input),
    {
        match input {
            PhaseInput::Eligibility(e, ephm_pk) => TransitionOutcome::Complete(
                new_round_step(self.state, e, ephm_pk),
            ),
            _ => TransitionOutcome::Pending(SerializableState::NewRound(self.state)),
        }
    }
}

impl Step for Phase<Awaiting> {
    fn step(self, input: PhaseInput) -> (r: TransitionOutcome)
        ensures
            r == phase_step_outcome(SerializableState::Awaiting(self.state), input),
    {
        awaiting_step(self.state)
    }
}

impl Step for Phase<Sum> {
    fn step(self, input: PhaseInput) -> (r: TransitionOutcome)
        ensures
            r == phase_step_outcome(SerializableState::Sum(self.state), input),
    {
        match input {
            PhaseInput::Sent(sent) => message_step(SerializableState::Sum(self.state), sent),
            _ => TransitionOutcome::Pending(SerializableState::Sum(self.state)),
        }
    }
}

impl Step for Phase<Update> {
    fn step(self, input: PhaseInput) -> (r: TransitionOutcome)
        ensures
            r == phase_step_outcome(SerializableState::Update(self.state), input),
    {
        match input {
            PhaseInput::Sent(sent) => message_step(SerializableState::Update(self.state), sent),
            _ => TransitionOutcome::Pending(SerializableState::Update(self.state)),
        }
    }
}

impl Step for Phase<Sum2> {
    fn step(self, input: PhaseInput) -> (r: TransitionOutcome)
        ensures
            r == phase_step_outcome(SerializableState::Sum2(self.state), input),
    {
        match input {
            PhaseInput::Sent(sent) => message_step(SerializableState::Sum2(self.state), sent),
            _ => TransitionOutcome::Pending(SerializableState::Sum2(self.state)),
        }
    }
}

/// Run the phase-specific step on a state, whatever its phase.
pub fn phase_step(s: SerializableState, input: PhaseInput) -> (r: TransitionOutcome)
    ensures
        r == phase_step_outcome(s, input),
{
    match s {
        SerializableState::NewRound(st) => Phase::new(st).step(input),
        SerializableState::Awaiting(st) => Phase::new(st).step(input),
        SerializableState::Sum(st) => Phase::new(st).step(input),
        SerializableState::Update(st) => Phase::new(st).step(input),
        SerializableState::Sum2(st) => Phase::new(st).step(input),
    }
}

/// One whole step of the machine: probe round freshness with what the
/// coordinator answered (`None` where the fetch failed), then, where the
/// round is fresh, run the phase-specific step with what the IO collaborator
/// reported. The flag says whether the IO collaborator is to be told that a
/// new round started: exactly when the probe reset the machine.
pub fn step(s: SerializableState, fetched: Option<RoundParameters>, input: PhaseInput) -> (r: (
    TransitionOutcome,
    bool,
))
    ensures
        r.0 == step_outcome(s, fetched, input),
        r.1 == (probe_outcome(s, fetched) is NewRound),
{
    match probe(s, fetched) {
        Probe::Pending(t) => (TransitionOutcome::Pending(t), false),
        Probe::NewRound(st) => (TransitionOutcome::Complete(SerializableState::NewRound(st)), true),
        Probe::Fresh(t) => (phase_step(t, input), false),
    }
}

} // verus!
