use crate::client::{ClientId, ClientState, HeartBeatResetError, InvalidClientStateError};
use crate::heartbeat::{HeartBeatTimer, HEARTBEAT_TIMEOUT_SECS};
use crate::params::{count_for_fraction, fraction_count, Fraction, RoundParameters};
use crate::registry::{id_values, state_after_round_reset, Clients};
use crate::selector::Selector;
use vstd::prelude::*;

verus! {

/// Phase of the coordinator within a round.
#[derive(PartialEq, Eq, Structural, Debug, Copy, Clone)]
pub enum PhaseName {
    /// No round is running.
    Idle,
    /// Round parameters are published; the sum selection is next.
    NewRound,
    /// Selected participants submit their sum messages.
    Sum,
    /// Selected participants submit their masked updates.
    Update,
    /// Selected participants submit their sum2 messages.
    Sum2,
    /// The aggregator builds the global model.
    Aggregate,
}

/// Error returned to a participant whose request the coordinator refuses.
#[derive(PartialEq, Eq, Structural, Debug, Copy, Clone)]
pub enum RequestError {
    /// The participant is not tracked: it has to register again.
    ClientNotFound,
    /// The message does not fit the coordinator's phase or the participant's state.
    UnexpectedMessage,
}

/// How a phase ended.
#[derive(PartialEq, Eq, Structural, Debug, Copy, Clone)]
pub enum PhaseOutcome {
    /// The phase reached its target and the next one began.
    Advanced,
    /// The round was given up and a new one began.
    Aborted,
    /// The coordinator was in no phase that ends this way: nothing changed.
    Unchanged,
}

/// The fixed settings of the federated learning rounds.
#[derive(PartialEq, Eq, Structural, Debug, Copy, Clone)]
pub struct RoundSettings {
    /// Fraction of the waiting participants selected for the sum task.
    pub sum: Fraction,
    /// Fraction of the waiting participants selected for the update task.
    pub update: Fraction,
    /// Number of sum messages that ends the sum phase.
    pub sum_target: u64,
    /// Number of updates that ends the update phase.
    pub update_target: u64,
    /// Number of sum2 messages that ends the sum2 phase.
    pub sum2_target: u64,
}

impl RoundSettings {
    pub open spec fn wf(self) -> bool {
        self.sum.wf() && self.update.wf()
    }
}

/// Number of submissions that ends phase `p`.
pub open spec fn phase_target(s: RoundSettings, p: PhaseName) -> u64 {
    match p {
        PhaseName::Sum => s.sum_target,
        PhaseName::Update => s.update_target,
        PhaseName::Sum2 => s.sum2_target,
        _ => 0,
    }
}

/// Where a participant stands once its heartbeat timer expired: a participant
/// that submitted becomes inactive, any other is forgotten.
pub open spec fn state_after_expiry(s: ClientState) -> ClientState {
    match s {
        ClientState::Done => ClientState::DoneAndInactive,
        ClientState::DoneAndInactive => ClientState::DoneAndInactive,
        _ => ClientState::Unknown,
    }
}

/// The clients that moved from `Waiting` to `Selected` between `a` and `b`.
pub open spec fn promoted(a: Clients, b: Clients) -> Set<u128> {
    Set::new(
        |k: u128| a.state_of(k) == ClientState::Waiting && b.state_of(k) == ClientState::Selected,
    )
}

/// The fraction with which the phase that follows `p` selects participants.
pub open spec fn next_phase_fraction(s: RoundSettings, p: PhaseName) -> Fraction {
    match p {
        PhaseName::Sum => s.update,
        _ => s.sum,
    }
}

/// The phases that collect submissions.
pub open spec fn is_submission_phase(p: PhaseName) -> bool {
    p == PhaseName::Sum || p == PhaseName::Update || p == PhaseName::Sum2
}

/// Position of a phase within a round.
pub open spec fn phase_rank(p: PhaseName) -> int {
    match p {
        PhaseName::NewRound => 1,
        PhaseName::Sum => 2,
        PhaseName::Update => 3,
        PhaseName::Sum2 => 4,
        PhaseName::Aggregate => 5,
        PhaseName::Idle => 6,
    }
}

/// How the round machine may move from `a` to `b`: within a round the phase
/// only moves forward and the published parameters stay; a new round has
/// the next counter, begins in `NewRound`, and publishes parameters of its
/// own.
pub open spec fn is_round_step(a: Coordinator, b: Coordinator) -> bool {
    ||| (b.round == a.round && phase_rank(b.phase) >= phase_rank(a.phase) && b.params == a.params)
    ||| (b.round == a.round + 1 && b.phase == PhaseName::NewRound && b.params.round_id == b.round)
}

/// Where exactly the clients `chosen`, all of them waiting before, became
/// selected, those are the promoted clients, and there are as many as chosen.
proof fn lemma_promoted_are_chosen(a: Clients, b: Clients, chosen: Seq<ClientId>)
    requires
        id_values(chosen).no_duplicates(),
        forall|i: int|
            0 <= i < chosen.len() ==> a.state_of(#[trigger] chosen[i].id) == ClientState::Waiting,
        forall|k: u128|
            #[trigger] b.state_of(k) == if id_values(chosen).contains(k) {
                ClientState::Selected
            } else {
                a.state_of(k)
            },
    ensures
        promoted(a, b) == id_values(chosen).to_set(),
        promoted(a, b).len() == chosen.len(),
{
    assert forall|k: u128| promoted(a, b).contains(k) == id_values(chosen).to_set().contains(k) by {
        if id_values(chosen).contains(k) {
            let i = choose|i: int| 0 <= i < id_values(chosen).len() && id_values(chosen)[i] == k;
            assert(a.state_of(chosen[i].id) == ClientState::Waiting);
        }
    }
    assert(promoted(a, b) =~= id_values(chosen).to_set());
    id_values(chosen).unique_seq_to_set();
}

/// What to do once the aggregator failed a request.
#[derive(PartialEq, Eq, Structural, Debug, Copy, Clone)]
pub enum AggregatorDecision {
    /// Send the same request once more.
    Retry,
    /// Give the round up.
    GiveUp,
}

/// The aggregator is given one second chance: after its first failure on a
/// request the request is sent again; after the second the round is given up.
pub fn after_aggregator_failure(failures: u32) -> (r: AggregatorDecision)
    requires
        failures >= 1,
    ensures
        r == (if failures == 1 {
            AggregatorDecision::Retry
        } else {
            AggregatorDecision::GiveUp
        }),
{
    if failures == 1 {
        AggregatorDecision::Retry
    } else {
        AggregatorDecision::GiveUp
    }
}

/// The coordinator's round state machine, with the participants it tracks.
pub struct Coordinator {
    /// The tracked participants.
    pub clients: Clients,
    /// Current phase.
    pub phase: PhaseName,
    /// Counter of the current round.
    pub round: u64,
    /// The parameters published for the current round.
    pub params: RoundParameters,
    /// Fixed settings.
    pub settings: RoundSettings,
    /// Submissions accepted in the current phase.
    pub submissions: u64,
}

impl Coordinator {
    pub open spec fn wf(&self) -> bool {
        &&& self.clients.wf()
        &&& self.settings.wf()
        &&& self.params.round_id == self.round
        &&& self.params.sum == self.settings.sum
        &&& self.params.update == self.settings.update
    }

    /// A coordinator that runs no round yet, over the given participants.
    pub fn new(settings: RoundSettings, clients: Clients) -> (r: Coordinator)
        requires
            settings.wf(),
            clients.wf(),
        ensures
            r.wf(),
            r.phase == PhaseName::Idle,
            r.round == 0,
            r.submissions == 0,
            r.settings == settings,
            r.clients == clients,
    {
        let mut params = RoundParameters::initial();
        params.sum = settings.sum;
        params.update = settings.update;
        Coordinator { clients, phase: PhaseName::Idle, round: 0, params, settings, submissions: 0 }
    }

    /// Begin a new round with fresh key material: the counter goes up by
    /// one, new parameters are published, and the participants of the last
    /// round wait again.
    fn begin_new_round(&mut self, pk: Vec<u8>, seed: Vec<u8>)
        requires
            old(self).wf(),
            old(self).round < u64::MAX,
        ensures
            final(self).wf(),
            final(self).phase == PhaseName::NewRound,
            final(self).round == old(self).round + 1,
            final(self).submissions == 0,
            final(self).settings == old(self).settings,
            final(self).params.pk@ == pk@,
            final(self).params.seed@ == seed@,
            forall|k: u128|
                #[trigger] final(self).clients.state_of(k) == state_after_round_reset(
                    old(self).clients.state_of(k),
                ),
    {
        self.clients.reset_round();
        self.round = self.round + 1;
        self.params = RoundParameters {
            round_id: self.round,
            pk,
            seed,
            sum: self.settings.sum,
            update: self.settings.update,
        };
        self.phase = PhaseName::NewRound;
        self.submissions = 0;
    }

    /// Start a round from `Idle`, with fresh key material. Returns whether a
    /// round was started; in any other phase nothing changes.
    pub fn start_round(&mut self, pk: Vec<u8>, seed: Vec<u8>) -> (r: bool)
        requires
            old(self).wf(),
            old(self).round < u64::MAX,
        ensures
            is_round_step(*old(self), *final(self)),
            final(self).wf(),
            r == (old(self).phase == PhaseName::Idle),
            r ==> {
                &&& final(self).phase == PhaseName::NewRound
                &&& final(self).round == old(self).round + 1
                &&& final(self).submissions == 0
                &&& final(self).params.pk@ == pk@
                &&& final(self).params.seed@ == seed@
                &&& forall|k: u128|
                    #[trigger] final(self).clients.state_of(k) == state_after_round_reset(
                        old(self).clients.state_of(k),
                    )
            },
            !r ==> *final(self) == *old(self),
    {
        if self.phase != PhaseName::Idle {
            return false;
        }
        self.begin_new_round(pk, seed);
        true
    }

    /// Promote a share `fraction` of the waiting participants to `Selected`,
    /// drawn by `selector`, and return them.
    fn select_participants<S: Selector>(&mut self, fraction: Fraction, selector: &mut S) -> (r: Vec<
        ClientId,
    >)
        requires
            old(self).wf(),
            fraction.wf(),
        ensures
            final(self).wf(),
            final(self).phase == old(self).phase,
            final(self).round == old(self).round,
            final(self).params == old(self).params,
            final(self).settings == old(self).settings,
            final(self).submissions == old(self).submissions,
            r@.len() == fraction_count(
                fraction,
                old(self).clients.partition(ClientState::Waiting).len(),
            ),
            id_values(r@).no_duplicates(),
            forall|i: int|
                0 <= i < r@.len() ==> old(self).clients.state_of(#[trigger] r@[i].id)
                    == ClientState::Waiting,
            forall|k: u128|
                #[trigger] final(self).clients.state_of(k) == if id_values(r@).contains(k) {
                    ClientState::Selected
                } else {
                    old(self).clients.state_of(k)
                },
    {
        let waiting = self.clients.waiting_ids();
        let selected = self.clients.selected_ids();
        let ghost w = id_values(waiting@);
        proof {
            w.unique_seq_to_set();
            waiting@.lemma_no_duplicates_injective(|c: ClientId| c.id);
        }
        let min_count = count_for_fraction(fraction, waiting.len());
        let chosen = selector.select(min_count, waiting, selected);
        proof {
            chosen@.lemma_no_duplicates_injective(|c: ClientId| c.id);
            assert forall|i: int| 0 <= i < chosen@.len() implies old(self).clients.state_of(
                #[trigger] chosen@[i].id,
            ) == ClientState::Waiting by {
                let c = chosen@[i];
                let j = choose|j: int| 0 <= j < waiting@.len() && waiting@[j] == c;
                assert(w[j] == c.id);
                assert(w.to_set().contains(c.id));
                assert(old(self).clients.partition(ClientState::Waiting).contains(c.id));
                assert(old(self).clients.occurrences(c.id) <= 1);
            }
        }
        let ghost ids = id_values(chosen@);
        let mut i: usize = 0;
        while i < chosen.len()
            invariant
                self.wf(),
                self.phase == old(self).phase,
                self.round == old(self).round,
                self.params == old(self).params,
                self.settings == old(self).settings,
                self.submissions == old(self).submissions,
                0 <= i <= chosen@.len(),
                ids == id_values(chosen@),
                ids.no_duplicates(),
                forall|j: int|
                    0 <= j < chosen@.len() ==> old(self).clients.state_of(#[trigger] chosen@[j].id)
                        == ClientState::Waiting,
                forall|k: u128|
                    #[trigger] self.clients.state_of(k) == if ids.subrange(0, i as int).contains(
                        k,
                    ) {
                        ClientState::Selected
                    } else {
                        old(self).clients.state_of(k)
                    },
            decreases chosen@.len() - i,
        {
            let id = chosen[i];
            let ghost before = self.clients;
            let ghost prefix = ids.subrange(0, i as int);
            proof {
                assert(ids[i as int] == id.id);
                assert(!prefix.contains(id.id));
                assert(old(self).clients.state_of(chosen@[i as int].id) == ClientState::Waiting);
                assert(before.state_of(id.id) == ClientState::Waiting);
            }
            let _ = self.clients.set_state(id, ClientState::Selected);
            proof {
                assert(ids.subrange(0, i + 1) =~= prefix.push(id.id));
                assert forall|k: u128| #[trigger]
                    self.clients.state_of(k) == if ids.subrange(0, i + 1).contains(k) {
                        ClientState::Selected
                    } else {
                        old(self).clients.state_of(k)
                    } by {
                    assert(before.state_of(k) == if prefix.contains(k) {
                        ClientState::Selected
                    } else {
                        old(self).clients.state_of(k)
                    });
                    if k != id.id {
                        assert(prefix.push(id.id).contains(k) == prefix.contains(k));
                    } else {
                        assert(prefix.push(id.id)[i as int] == k);
                    }
                }
            }
            i = i + 1;
        }
        proof {
            assert(ids.subrange(0, chosen@.len() as int) =~= ids);
        }
        chosen
    }

    /// Leave `NewRound` for `Sum`: select the sum participants among the
    /// waiting ones, `ceil(sum fraction * waiting)` of them, and return them.
    /// In any other phase nothing changes and no one is returned.
    pub fn begin_sum<S: Selector>(&mut self, selector: &mut S) -> (r: Vec<ClientId>)
        requires
            old(self).wf(),
        ensures
            is_round_step(*old(self), *final(self)),
            final(self).wf(),
            old(self).phase == PhaseName::NewRound ==> {
                &&& final(self).phase == PhaseName::Sum
                &&& final(self).round == old(self).round
                &&& final(self).submissions == 0
                &&& r@.len() == fraction_count(
                    old(self).settings.sum,
                    old(self).clients.partition(ClientState::Waiting).len(),
                )
                &&& forall|i: int|
                    0 <= i < r@.len() ==> old(self).clients.state_of(#[trigger] r@[i].id)
                        == ClientState::Waiting
                &&& forall|k: u128|
                    #[trigger] final(self).clients.state_of(k) == if id_values(r@).contains(k) {
                        ClientState::Selected
                    } else {
                        old(self).clients.state_of(k)
                    }
            },
            old(self).phase != PhaseName::NewRound ==> *final(self) == *old(self) && r@.len() == 0,
    {
        if self.phase != PhaseName::NewRound {
            return Vec::new();
        }
        let sum = self.settings.sum;
        let r = self.select_participants(sum, selector);
        self.phase = PhaseName::Sum;
        self.submissions = 0;
        r
    }

    /// Register a new participant, which waits from now on. On success its
    /// heartbeat timer is returned, for the caller to spawn.
    pub fn handle_register(&mut self, id: ClientId) -> (r: Result<HeartBeatTimer, InvalidClientStateError>)
        requires
            old(self).wf(),
        ensures
            is_round_step(*old(self), *final(self)),
            final(self).wf(),
            final(self).phase == old(self).phase,
            final(self).round == old(self).round,
            final(self).submissions == old(self).submissions,
            r is Ok <==> old(self).clients.state_of(id.id) == ClientState::Unknown,
            r is Ok ==> final(self).clients.state_of(id.id) == ClientState::Waiting
                && final(self).clients.agrees_except(&old(self).clients, id.id),
            r matches Ok(t) ==> t.id == id && t.timeout_secs == HEARTBEAT_TIMEOUT_SECS,
            r is Err ==> final(self).clients == old(self).clients,
    {
        self.clients.register(id)
    }

    /// Reset a participant's heartbeat timer with the standard timeout.
    pub fn handle_heartbeat(&self, id: &ClientId) -> (r: Result<(), HeartBeatResetError>)
        requires
            self.wf(),
        ensures
            !self.clients.state_of(id.id).is_active_state() ==> r == Err::<(), _>(
                HeartBeatResetError::ClientNotFound,
            ),
            self.clients.state_of(id.id).is_active_state() ==> r == Ok::<(), HeartBeatResetError>(
                (),
            ) || r == Err::<(), _>(HeartBeatResetError::BackPressure) || r == Err::<(), _>(
                HeartBeatResetError::Expired,
            ),
    {
        self.clients.reset_heartbeat(id, std::time::Duration::from_secs(HEARTBEAT_TIMEOUT_SECS))
    }

    /// React to the expiration of a participant's heartbeat timer: one that
    /// submitted becomes inactive, one that went inactive already stays so,
    /// any other is forgotten.
    pub fn handle_heartbeat_expired(&mut self, id: ClientId)
        requires
            old(self).wf(),
        ensures
            is_round_step(*old(self), *final(self)),
            final(self).wf(),
            final(self).phase == old(self).phase,
            final(self).round == old(self).round,
            final(self).submissions == old(self).submissions,
            final(self).clients.state_of(id.id) == state_after_expiry(
                old(self).clients.state_of(id.id),
            ),
            final(self).clients.agrees_except(&old(self).clients, id.id),
    {
        let state = self.clients.get_state(&id);
        match state {
            ClientState::Done => {
                let _ = self.clients.set_state(id, ClientState::DoneAndInactive);
            },
            ClientState::DoneAndInactive => {
                proof {
                    assert(self.clients.agrees_except(&self.clients, id.id));
                }
            },
            _ => {
                let _ = self.clients.remove(&id);
            },
        }
    }

    /// Check a submission that participant `id` made for phase `phase`.
    /// It is accepted, to be forwarded to the aggregator, where the
    /// participant is selected and the coordinator is in that phase. A
    /// selected participant that submits for another phase is ignored for
    /// the rest of the round; anyone else is refused with no change.
    pub fn handle_submit(&mut self, id: ClientId, phase: PhaseName) -> (r: Result<(), RequestError>)
        requires
            old(self).wf(),
        ensures
            is_round_step(*old(self), *final(self)),
            final(self).wf(),
            final(self).phase == old(self).phase,
            final(self).round == old(self).round,
            final(self).submissions == old(self).submissions,
            old(self).clients.state_of(id.id) == ClientState::Unknown ==> r == Err::<(), _>(
                RequestError::ClientNotFound,
            ) && final(self).clients == old(self).clients,
            old(self).clients.state_of(id.id) != ClientState::Unknown && old(self).clients.state_of(
                id.id,
            ) != ClientState::Selected ==> r == Err::<(), _>(RequestError::UnexpectedMessage)
                && final(self).clients == old(self).clients,
            old(self).clients.state_of(id.id) == ClientState::Selected && phase == old(self).phase
                && is_submission_phase(old(self).phase) ==> r == Ok::<(), RequestError>(())
                && final(self).clients == old(self).clients,
            old(self).clients.state_of(id.id) == ClientState::Selected && (phase != old(self).phase
                || !is_submission_phase(old(self).phase)) ==> {
                &&& r == Err::<(), _>(RequestError::UnexpectedMessage)
                &&& final(self).clients.state_of(id.id) == ClientState::Ignored
                &&& final(self).clients.agrees_except(&old(self).clients, id.id)
            },
    {
        let state = self.clients.get_state(&id);
        if state == ClientState::Unknown {
            return Err(RequestError::ClientNotFound);
        }
        if state != ClientState::Selected {
            return Err(RequestError::UnexpectedMessage);
        }
        let accepting = self.phase == PhaseName::Sum || self.phase == PhaseName::Update
            || self.phase == PhaseName::Sum2;
        if phase != self.phase || !accepting {
            let _ = self.clients.set_state(id, ClientState::Ignored);
            return Err(RequestError::UnexpectedMessage);
        }
        Ok(())
    }

    /// Record that the aggregator took the submission of participant `id`:
    /// a selected participant is done, and counts toward the phase's target.
    /// Returns whether it was recorded; otherwise nothing changes.
    pub fn submission_forwarded(&mut self, id: ClientId) -> (r: bool)
        requires
            old(self).wf(),
        ensures
            is_round_step(*old(self), *final(self)),
            final(self).wf(),
            final(self).phase == old(self).phase,
            final(self).round == old(self).round,
            r == (old(self).clients.state_of(id.id) == ClientState::Selected),
            r ==> {
                &&& final(self).clients.state_of(id.id) == ClientState::Done
                &&& final(self).clients.agrees_except(&old(self).clients, id.id)
                &&& final(self).submissions == if old(self).submissions == u64::MAX {
                    u64::MAX as int
                } else {
                    old(self).submissions + 1
                }
            },
            !r ==> *final(self) == *old(self),
    {
        if self.clients.get_state(&id) != ClientState::Selected {
            return false;
        }
        let _ = self.clients.set_state(id, ClientState::Done);
        self.submissions = self.submissions.saturating_add(1);
        true
    }

    /// Whether the current phase collected as many submissions as it needs.
    pub fn target_reached(&self) -> (r: bool)
        ensures
            r == (is_submission_phase(self.phase) && self.submissions >= phase_target(
                self.settings,
                self.phase,
            )),
    {
        match self.phase {
            PhaseName::Sum => self.submissions >= self.settings.sum_target,
            PhaseName::Update => self.submissions >= self.settings.update_target,
            PhaseName::Sum2 => self.submissions >= self.settings.sum2_target,
            _ => false,
        }
    }

    /// End the current submission phase, because its target is reached or
    /// its deadline passed. With the target reached the next phase begins:
    /// `Sum` leads to `Update` and `Update` to `Sum2`, each with a fresh
    /// selection among the waiting participants, and `Sum2` leads to
    /// `Aggregate`. Short of the target the round is given up and a new one
    /// begins with the fresh key material `pk` and `seed`.
    pub fn end_phase<S: Selector>(&mut self, selector: &mut S, pk: Vec<u8>, seed: Vec<u8>) -> (r:
        PhaseOutcome)
        requires
            old(self).wf(),
            old(self).round < u64::MAX,
        ensures
            is_round_step(*old(self), *final(self)),
            final(self).wf(),
            !is_submission_phase(old(self).phase) ==> r == PhaseOutcome::Unchanged && *final(self)
                == *old(self),
            is_submission_phase(old(self).phase) && old(self).submissions < phase_target(
                old(self).settings,
                old(self).phase,
            ) ==> {
                &&& r == PhaseOutcome::Aborted
                &&& final(self).phase == PhaseName::NewRound
                &&& final(self).round == old(self).round + 1
                &&& final(self).params.pk@ == pk@
                &&& final(self).params.seed@ == seed@
                &&& final(self).submissions == 0
                &&& forall|k: u128|
                    #[trigger] final(self).clients.state_of(k) == state_after_round_reset(
                        old(self).clients.state_of(k),
                    )
            },
            is_submission_phase(old(self).phase) && old(self).submissions >= phase_target(
                old(self).settings,
                old(self).phase,
            ) ==> {
                &&& r == PhaseOutcome::Advanced
                &&& final(self).round == old(self).round
                &&& final(self).params == old(self).params
                &&& final(self).submissions == 0
                &&& final(self).phase == match old(self).phase {
                    PhaseName::Sum => PhaseName::Update,
                    PhaseName::Update => PhaseName::Sum2,
                    _ => PhaseName::Aggregate,
                }
                &&& old(self).phase == PhaseName::Sum2 ==> final(self).clients
                    == old(self).clients
                &&& old(self).phase != PhaseName::Sum2 ==> {
                    &&& forall|k: u128|
                        #[trigger] final(self).clients.state_of(k) == old(self).clients.state_of(k)
                            || (old(self).clients.state_of(k) == ClientState::Waiting
                            && final(self).clients.state_of(k) == ClientState::Selected)
                    &&& promoted(old(self).clients, final(self).clients).len() == fraction_count(
                        next_phase_fraction(old(self).settings, old(self).phase),
                        old(self).clients.partition(ClientState::Waiting).len(),
                    )
                }
            },
    {
        if !self.target_reached() {
            if self.phase == PhaseName::Sum || self.phase == PhaseName::Update || self.phase
                == PhaseName::Sum2 {
                self.begin_new_round(pk, seed);
                return PhaseOutcome::Aborted;
            }
            return PhaseOutcome::Unchanged;
        }
        let ghost before = self.clients;
        match self.phase {
            PhaseName::Sum => {
                let update = self.settings.update;
                let chosen = self.select_participants(update, selector);
                proof {
                    lemma_promoted_are_chosen(before, self.clients, chosen@);
                }
                self.phase = PhaseName::Update;
            },
            PhaseName::Update => {
                let sum = self.settings.sum;
                let chosen = self.select_participants(sum, selector);
                proof {
                    lemma_promoted_are_chosen(before, self.clients, chosen@);
                }
                self.phase = PhaseName::Sum2;
            },
            _ => {
                self.phase = PhaseName::Aggregate;
            },
        }
        self.submissions = 0;
        PhaseOutcome::Advanced
    }

    /// React to the aggregator's answer in `Aggregate`: on success the round
    /// is over and the coordinator is idle; on failure the round is given up
    /// and a new one begins with the fresh key material `pk` and `seed`.
    pub fn aggregation_finished(&mut self, success: bool, pk: Vec<u8>, seed: Vec<u8>) -> (r:
        PhaseOutcome)
        requires
            old(self).wf(),
            old(self).round < u64::MAX,
        ensures
            is_round_step(*old(self), *final(self)),
            final(self).wf(),
            old(self).phase != PhaseName::Aggregate ==> r == PhaseOutcome::Unchanged && *final(self)
                == *old(self),
            old(self).phase == PhaseName::Aggregate && success ==> {
                &&& r == PhaseOutcome::Advanced
                &&& final(self).phase == PhaseName::Idle
                &&& final(self).round == old(self).round
                &&& final(self).clients == old(self).clients
            },
            old(self).phase == PhaseName::Aggregate && !success ==> {
                &&& r == PhaseOutcome::Aborted
                &&& final(self).phase == PhaseName::NewRound
                &&& final(self).round == old(self).round + 1
                &&& final(self).params.pk@ == pk@
                &&& final(self).params.seed@ == seed@
                &&& forall|k: u128|
                    #[trigger] final(self).clients.state_of(k) == state_after_round_reset(
                        old(self).clients.state_of(k),
                    )
            },
    {
        if self.phase != PhaseName::Aggregate {
            return PhaseOutcome::Unchanged;
        }
        if success {
            self.phase = PhaseName::Idle;
            PhaseOutcome::Advanced
        } else {
            self.begin_new_round(pk, seed);
            PhaseOutcome::Aborted
        }
    }

    /// Give the running round up, because the aggregator failed: a new one
    /// begins with the fresh key material `pk` and `seed`. Where no round
    /// runs (`Idle`), nothing changes.
    pub fn abort_round(&mut self, pk: Vec<u8>, seed: Vec<u8>) -> (r: PhaseOutcome)
        requires
            old(self).wf(),
            old(self).round < u64::MAX,
        ensures
            is_round_step(*old(self), *final(self)),
            final(self).wf(),
            old(self).phase == PhaseName::Idle ==> r == PhaseOutcome::Unchanged && *final(self)
                == *old(self),
            old(self).phase != PhaseName::Idle ==> {
                &&& r == PhaseOutcome::Aborted
                &&& final(self).phase == PhaseName::NewRound
                &&& final(self).round == old(self).round + 1
                &&& final(self).submissions == 0
                &&& final(self).params.pk@ == pk@
                &&& final(self).params.seed@ == seed@
                &&& forall|k: u128|
                    #[trigger] final(self).clients.state_of(k) == state_after_round_reset(
                        old(self).clients.state_of(k),
                    )
            },
    {
        if self.phase == PhaseName::Idle {
            return PhaseOutcome::Unchanged;
        }
        self.begin_new_round(pk, seed);
        PhaseOutcome::Aborted
    }
}

} // verus!
