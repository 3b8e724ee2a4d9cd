use crate::client::{
    is_valid_transition, valid_transition, ClientId, ClientState, HeartBeatResetError,
    InvalidClientStateError,
};
use crate::heartbeat::{
    clone_expiration_sender, expiration_channel, reset_channel, reset_receiver_bound,
    reset_pair, reset_sender_bound, same_expiration_channel, reset_result, try_send_reset,
    HeartBeatTimer, HEARTBEAT_RESET_CAPACITY, HEARTBEAT_TIMEOUT_SECS,
};
use std::collections::{HashMap, HashSet};
use std::time::Duration;
use tokio::sync::mpsc::{Receiver, Sender, UnboundedReceiver, UnboundedSender};
use vstd::prelude::*;
use vstd::std_specs::iter::IteratorSpec;

verus! {

broadcast use vstd::std_specs::hash::group_hash_axioms;

/// An active client: the sending half of its heartbeat timer's reset inbox.
pub struct ActiveClient {
    heartbeat_reset: Sender<Duration>,
}

impl ActiveClient {
    /// The bound of the reset inbox that this client's sender feeds.
    pub closed spec fn reset_bound(self) -> usize {
        reset_sender_bound(self.heartbeat_reset)
    }

    /// Whether this client's sender feeds the reset inbox `rx`.
    pub closed spec fn feeds(self, rx: Receiver<Duration>) -> bool {
        reset_pair(self.heartbeat_reset, rx)
    }
}

/// A store for all the clients the coordinator is tracking, partitioned by
/// their lifecycle state.
pub struct Clients {
    /// Active clients that could be selected at some point.
    waiting: HashMap<u128, ActiveClient>,
    /// Active clients selected for the current round, that have not submitted yet.
    selected: HashMap<u128, ActiveClient>,
    /// Active clients that cannot take part in the current round.
    ignored: HashMap<u128, ActiveClient>,
    /// Active clients that submitted their contribution this round.
    done: HashMap<u128, ActiveClient>,
    /// Clients that submitted their contribution and went silent since.
    done_and_inactive: HashSet<u128>,
    /// Handed, cloned, to every heartbeat timer, to report expirations.
    heartbeat_expirations_tx: UnboundedSender<ClientId>,
}

impl Clients {
    /// Whether the partition of clients in state `part` holds `id`.
    pub closed spec fn holds(&self, part: ClientState, id: u128) -> bool {
        match part {
            ClientState::Waiting => self.waiting@.contains_key(id),
            ClientState::Selected => self.selected@.contains_key(id),
            ClientState::Ignored => self.ignored@.contains_key(id),
            ClientState::Done => self.done@.contains_key(id),
            ClientState::DoneAndInactive => self.done_and_inactive@.contains(id),
            ClientState::Unknown => false,
        }
    }

    /// The sender on which the store's timers report expirations.
    pub closed spec fn expiration_sink(&self) -> UnboundedSender<ClientId> {
        self.heartbeat_expirations_tx
    }

    /// The active client stored for `id`, taken from the first active
    /// partition that has it: its heartbeat handle.
    pub closed spec fn entry(&self, id: u128) -> Option<ActiveClient> {
        if self.waiting@.contains_key(id) {
            Some(self.waiting@[id])
        } else if self.selected@.contains_key(id) {
            Some(self.selected@[id])
        } else if self.ignored@.contains_key(id) {
            Some(self.ignored@[id])
        } else if self.done@.contains_key(id) {
            Some(self.done@[id])
        } else {
            None
        }
    }

    /// The state in which the store holds `id`: the first partition that has it.
    pub open spec fn state_of(&self, id: u128) -> ClientState {
        if self.holds(ClientState::Waiting, id) {
            ClientState::Waiting
        } else if self.holds(ClientState::Selected, id) {
            ClientState::Selected
        } else if self.holds(ClientState::Ignored, id) {
            ClientState::Ignored
        } else if self.holds(ClientState::Done, id) {
            ClientState::Done
        } else if self.holds(ClientState::DoneAndInactive, id) {
            ClientState::DoneAndInactive
        } else {
            ClientState::Unknown
        }
    }

    /// How many of the five partitions hold `id`.
    pub open spec fn occurrences(&self, id: u128) -> int {
        (if self.holds(ClientState::Waiting, id) { 1int } else { 0 })
            + (if self.holds(ClientState::Selected, id) { 1int } else { 0 })
            + (if self.holds(ClientState::Ignored, id) { 1int } else { 0 })
            + (if self.holds(ClientState::Done, id) { 1int } else { 0 })
            + (if self.holds(ClientState::DoneAndInactive, id) { 1int } else { 0 })
    }

    /// Every identifier stands in at most one partition.
    pub open spec fn wf(&self) -> bool {
        forall|id: u128| #[trigger] self.occurrences(id) <= 1
    }

    /// The identifiers that the partition of clients in state `part` holds.
    pub open spec fn partition(&self, part: ClientState) -> Set<u128> {
        Set::new(|id: u128| self.holds(part, id))
    }

    /// Every partition holds the same identifiers in `self` as in `other`, `id` aside.
    pub open spec fn agrees_except(&self, other: &Self, id: u128) -> bool {
        forall|part: ClientState, k: u128|
            k != id ==> #[trigger] self.holds(part, k) == other.holds(part, k)
    }

    /// An empty store, with the receiving end of the channel on which its
    /// heartbeat timers report expirations.
    pub fn new() -> (r: (Self, UnboundedReceiver<ClientId>))
        ensures
            r.0.wf(),
            forall|id: u128| r.0.state_of(id) == ClientState::Unknown,
    {
        let (heartbeat_expirations_tx, heartbeat_expirations_rx) = expiration_channel();
        let clients = Clients {
            waiting: HashMap::new(),
            selected: HashMap::new(),
            ignored: HashMap::new(),
            done: HashMap::new(),
            done_and_inactive: HashSet::new(),
            heartbeat_expirations_tx,
        };
        (clients, heartbeat_expirations_rx)
    }

    /// Create a new active client and its timer. Spawning the timer is up to the caller.
    fn new_active_client(&self, id: ClientId) -> (r: (ActiveClient, HeartBeatTimer))
        ensures
            r.1.id == id,
            r.1.timeout_secs == HEARTBEAT_TIMEOUT_SECS,
            r.0.reset_bound() == HEARTBEAT_RESET_CAPACITY,
            reset_receiver_bound(r.1.resets) == HEARTBEAT_RESET_CAPACITY,
            r.0.feeds(r.1.resets),
            same_expiration_channel(r.1.expirations, self.expiration_sink()),
    {
        let (heartbeat_reset_tx, heartbeat_reset_rx) = reset_channel(HEARTBEAT_RESET_CAPACITY);
        let heartbeat_timer = HeartBeatTimer {
            id,
            timeout_secs: HEARTBEAT_TIMEOUT_SECS,
            expirations: clone_expiration_sender(&self.heartbeat_expirations_tx),
            resets: heartbeat_reset_rx,
        };
        (ActiveClient { heartbeat_reset: heartbeat_reset_tx }, heartbeat_timer)
    }

    /// Return the state of the given client, whether it is active or not.
    pub fn get_state(&self, id: &ClientId) -> (r: ClientState)
        ensures
            r == self.state_of(id.id),
    {
        if self.waiting.contains_key(&id.id) {
            ClientState::Waiting
        } else if self.selected.contains_key(&id.id) {
            ClientState::Selected
        } else if self.ignored.contains_key(&id.id) {
            ClientState::Ignored
        } else if self.done.contains_key(&id.id) {
            ClientState::Done
        } else if self.done_and_inactive.contains(&id.id) {
            ClientState::DoneAndInactive
        } else {
            ClientState::Unknown
        }
    }

    /// Return whether the given client is tracked.
    pub fn contains(&self, id: &ClientId) -> (r: bool)
        ensures
            r == (self.state_of(id.id) != ClientState::Unknown),
    {
        self.get_state(id) != ClientState::Unknown
    }

    /// Return whether the given client is tracked and active.
    pub fn is_active(&self, id: &ClientId) -> (r: bool)
        ensures
            r == self.state_of(id.id).is_active_state(),
    {
        let state = self.get_state(id);
        state != ClientState::Unknown && state != ClientState::DoneAndInactive
    }

    /// Return whether the given client is tracked and inactive.
    pub fn is_inactive(&self, id: &ClientId) -> (r: bool)
        requires
            self.wf(),
        ensures
            r == (self.state_of(id.id) == ClientState::DoneAndInactive),
    {
        proof {
            assert(self.occurrences(id.id) <= 1);
        }
        self.done_and_inactive.contains(&id.id)
    }

    /// Remove the given client from whichever active partition holds it.
    fn remove_active(&mut self, id: &ClientId) -> (r: Option<ActiveClient>)
        requires
            old(self).wf(),
        ensures
            final(self).agrees_except(old(self), id.id),
            forall|part: ClientState|
                part != ClientState::DoneAndInactive ==> !#[trigger] final(self).holds(part, id.id),
            final(self).holds(ClientState::DoneAndInactive, id.id) == old(self).holds(
                ClientState::DoneAndInactive,
                id.id,
            ),
            r is Some <==> old(self).state_of(id.id).is_active_state(),
            r == old(self).entry(id.id),
            final(self).waiting@ == old(self).waiting@.remove(id.id),
            final(self).selected@ == old(self).selected@.remove(id.id),
            final(self).ignored@ == old(self).ignored@.remove(id.id),
            final(self).done@ == old(self).done@.remove(id.id),
            final(self).done_and_inactive@ == old(self).done_and_inactive@,
            final(self).entry(id.id) is None,
            forall|k: u128| k != id.id ==> #[trigger] final(self).entry(k) == old(self).entry(k),
            final(self).heartbeat_expirations_tx == old(self).heartbeat_expirations_tx,
    {
        proof {
            assert(self.occurrences(id.id) <= 1);
            if !self.waiting@.contains_key(id.id) {
                assert(self.waiting@.remove(id.id) =~= self.waiting@);
            }
            if !self.selected@.contains_key(id.id) {
                assert(self.selected@.remove(id.id) =~= self.selected@);
            }
            if !self.ignored@.contains_key(id.id) {
                assert(self.ignored@.remove(id.id) =~= self.ignored@);
            }
            if !self.done@.contains_key(id.id) {
                assert(self.done@.remove(id.id) =~= self.done@);
            }
        }
        if let Some(c) = self.waiting.remove(&id.id) {
            return Some(c);
        }
        if let Some(c) = self.selected.remove(&id.id) {
            return Some(c);
        }
        if let Some(c) = self.ignored.remove(&id.id) {
            return Some(c);
        }
        self.done.remove(&id.id)
    }

    /// Put an active client into the partition of state `part`, where no
    /// partition holds it yet.
    fn insert_active(&mut self, part: ClientState, id: ClientId, client: ActiveClient)
        requires
            part.is_active_state(),
            old(self).state_of(id.id) == ClientState::Unknown,
        ensures
            final(self).agrees_except(old(self), id.id),
            forall|q: ClientState| #[trigger] final(self).holds(q, id.id) == (q == part),
            final(self).entry(id.id) == Some(client),
            forall|k: u128| k != id.id ==> #[trigger] final(self).entry(k) == old(self).entry(k),
            final(self).done_and_inactive@ == old(self).done_and_inactive@,
            final(self).heartbeat_expirations_tx == old(self).heartbeat_expirations_tx,
    {
        match part {
            ClientState::Waiting => {
                self.waiting.insert(id.id, client);
            },
            ClientState::Selected => {
                self.selected.insert(id.id, client);
            },
            ClientState::Done => {
                self.done.insert(id.id, client);
            },
            _ => {
                self.ignored.insert(id.id, client);
            },
        }
    }

    /// Start tracking a new client, in state `Waiting`. This fails where the
    /// client is tracked already. On success the client's heartbeat timer is
    /// returned, for the caller to spawn.
    pub fn register(&mut self, id: ClientId) -> (r: Result<HeartBeatTimer, InvalidClientStateError>)
        requires
            old(self).wf(),
        ensures
            final(self).wf(),
            match r {
                Ok(timer) => {
                    &&& old(self).state_of(id.id) == ClientState::Unknown
                    &&& timer.id == id
                    &&& timer.timeout_secs == HEARTBEAT_TIMEOUT_SECS
                    &&& final(self).state_of(id.id) == ClientState::Waiting
                    &&& final(self).agrees_except(old(self), id.id)
                    &&& reset_receiver_bound(timer.resets) == HEARTBEAT_RESET_CAPACITY
                    &&& same_expiration_channel(timer.expirations, old(self).expiration_sink())
                    &&& final(self).entry(id.id) matches Some(c) && c.reset_bound()
                        == HEARTBEAT_RESET_CAPACITY && c.feeds(timer.resets)
                    &&& forall|k: u128|
                        k != id.id ==> #[trigger] final(self).entry(k) == old(self).entry(k)
                },
                Err(e) => {
                    &&& old(self).state_of(id.id) != ClientState::Unknown
                    &&& e == InvalidClientStateError(old(self).state_of(id.id), ClientState::Waiting)
                    &&& *final(self) == *old(self)
                },
            },
    {
        let current_state = self.get_state(&id);
        if current_state != ClientState::Unknown {
            return Err(InvalidClientStateError(current_state, ClientState::Waiting));
        }
        let (client, timer) = self.new_active_client(id);
        self.insert_active(ClientState::Waiting, id, client);
        proof {
            lemma_wf_after_change(old(self), self, id.id);
        }
        Ok(timer)
    }

    /// Move the given client into `new_state`, along an edge of the lifecycle
    /// graph; any other change is refused and leaves the store as it was.
    /// A client that comes back from `DoneAndInactive` gets a fresh heartbeat
    /// timer, returned for the caller to spawn; a client that becomes
    /// `DoneAndInactive` gives its timer up.
    pub fn set_state(&mut self, id: ClientId, new_state: ClientState) -> (r: Result<
        Option<HeartBeatTimer>,
        InvalidClientStateError,
    >)
        requires
            old(self).wf(),
        ensures
            final(self).wf(),
            r is Ok <==> valid_transition(old(self).state_of(id.id), new_state),
            match r {
                Ok(timer) => {
                    &&& final(self).state_of(id.id) == new_state
                    &&& final(self).agrees_except(old(self), id.id)
                    &&& (timer is Some <==> old(self).state_of(id.id)
                        == ClientState::DoneAndInactive)
                    &&& (timer matches Some(t) ==> t.id == id && t.timeout_secs
                        == HEARTBEAT_TIMEOUT_SECS && reset_receiver_bound(t.resets)
                        == HEARTBEAT_RESET_CAPACITY && same_expiration_channel(
                        t.expirations,
                        old(self).expiration_sink(),
                    ))
                    &&& (timer matches Some(t) ==> (final(self).entry(id.id) matches Some(c)
                        && c.reset_bound() == HEARTBEAT_RESET_CAPACITY && c.feeds(t.resets)))
                    &&& (old(self).state_of(id.id).is_active_state() && new_state
                        != ClientState::DoneAndInactive ==> final(self).entry(id.id) == old(
                        self,
                    ).entry(id.id))
                    &&& (new_state == ClientState::DoneAndInactive ==> final(self).entry(id.id) is None)
                    &&& forall|k: u128|
                        k != id.id ==> #[trigger] final(self).entry(k) == old(self).entry(k)
                },
                Err(e) => {
                    &&& e == InvalidClientStateError(old(self).state_of(id.id), new_state)
                    &&& *final(self) == *old(self)
                },
            },
    {
        let current_state = self.get_state(&id);
        if !is_valid_transition(current_state, new_state) {
            return Err(InvalidClientStateError(current_state, new_state));
        }
        proof {
            assert(self.occurrences(id.id) <= 1);
        }
        if new_state == ClientState::DoneAndInactive {
            let _ = self.remove_active(&id);
            let ghost mid = *self;
            self.done_and_inactive.insert(id.id);
            proof {
                assert(!mid.holds(ClientState::Waiting, id.id));
                assert(!mid.holds(ClientState::Selected, id.id));
                assert(!mid.holds(ClientState::Ignored, id.id));
                assert(!mid.holds(ClientState::Done, id.id));
                assert(self.agrees_except(&mid, id.id));
                lemma_agrees_trans(old(self), &mid, self, id.id);
                lemma_wf_after_change(old(self), self, id.id);
            }
            return Ok(None);
        }
        let mut heartbeat_timer: Option<HeartBeatTimer> = None;
        let client = if self.is_inactive(&id) {
            self.done_and_inactive.remove(&id.id);
            proof {
                assert(self.agrees_except(old(self), id.id));
            }
            let (new_client, new_heartbeat_timer) = self.new_active_client(id);
            heartbeat_timer = Some(new_heartbeat_timer);
            new_client
        } else {
            match self.remove_active(&id) {
                Some(c) => c,
                None => {
                    proof {
                        assert(false);
                    }
                    return Err(InvalidClientStateError(current_state, new_state));
                },
            }
        };
        let ghost mid = *self;
        self.insert_active(new_state, id, client);
        proof {
            lemma_agrees_trans(old(self), &mid, self, id.id);
            lemma_wf_after_change(old(self), self, id.id);
        }
        Ok(heartbeat_timer)
    }

    /// Stop tracking the given client, whatever its state, and return the
    /// state it was in. An active client's timer is released with it.
    pub fn remove(&mut self, id: &ClientId) -> (r: ClientState)
        requires
            old(self).wf(),
        ensures
            final(self).wf(),
            r == old(self).state_of(id.id),
            final(self).state_of(id.id) == ClientState::Unknown,
            final(self).agrees_except(old(self), id.id),
    {
        let r = self.get_state(id);
        proof {
            assert(self.occurrences(id.id) <= 1);
        }
        let _ = self.remove_active(id);
        let ghost mid = *self;
        self.done_and_inactive.remove(&id.id);
        proof {
            assert(!mid.holds(ClientState::Waiting, id.id));
            assert(!mid.holds(ClientState::Selected, id.id));
            assert(!mid.holds(ClientState::Ignored, id.id));
            assert(!mid.holds(ClientState::Done, id.id));
            assert(self.agrees_except(&mid, id.id));
            lemma_agrees_trans(old(self), &mid, self, id.id);
            lemma_wf_after_change(old(self), self, id.id);
        }
        r
    }

    /// The active client stored for `id`, from whichever active partition
    /// holds it; `None` where the client is unknown or inactive.
    fn active_entry(&self, id: &ClientId) -> (r: Option<&ActiveClient>)
        requires
            self.wf(),
        ensures
            r is Some <==> self.state_of(id.id).is_active_state(),
            r matches Some(c) ==> self.entry(id.id) == Some(*c),
    {
        proof {
            assert(self.occurrences(id.id) <= 1);
        }
        if let Some(c) = self.waiting.get(&id.id) {
            Some(c)
        } else if let Some(c) = self.selected.get(&id.id) {
            Some(c)
        } else if let Some(c) = self.ignored.get(&id.id) {
            Some(c)
        } else if let Some(c) = self.done.get(&id.id) {
            Some(c)
        } else {
            None
        }
    }

    /// Reset the heartbeat timer of the given client with a replacement
    /// timeout. This fails with `ClientNotFound` where the client is unknown
    /// or inactive; otherwise the reset is queued, or the timer's inbox is
    /// full (`BackPressure`), or the timer expired already (`Expired`).
    pub fn reset_heartbeat(&self, id: &ClientId, timeout: Duration) -> (r: Result<
        (),
        HeartBeatResetError,
    >)
        requires
            self.wf(),
        ensures
            !self.state_of(id.id).is_active_state() ==> r == Err::<(), _>(
                HeartBeatResetError::ClientNotFound,
            ),
            self.state_of(id.id).is_active_state() ==> r == Ok::<(), HeartBeatResetError>(())
                || r == Err::<(), _>(HeartBeatResetError::BackPressure) || r == Err::<(), _>(
                HeartBeatResetError::Expired,
            ),
    {
        let client = match self.active_entry(id) {
            Some(c) => c,
            None => return Err(HeartBeatResetError::ClientNotFound),
        };
        let delivery = try_send_reset(&client.heartbeat_reset, timeout);
        reset_result(delivery)
    }

    /// Move every client of partition `part` back into `Waiting`, keeping its timer.
    fn move_all_to_waiting(&mut self, part: ClientState)
        requires
            old(self).wf(),
            part == ClientState::Selected || part == ClientState::Done || part
                == ClientState::Ignored,
        ensures
            final(self).wf(),
            forall|k: u128|
                #[trigger] final(self).state_of(k) == if old(self).state_of(k) == part {
                    ClientState::Waiting
                } else {
                    old(self).state_of(k)
                },
    {
        let ids = match part {
            ClientState::Selected => ids_of(&self.selected),
            ClientState::Done => ids_of(&self.done),
            _ => ids_of(&self.ignored),
        };
        proof {
            assert forall|k: u128| #[trigger] old(self).holds(part, k) == id_values(ids@).contains(
                k,
            ) by {
                assert(id_values(ids@).to_set().contains(k) == id_values(ids@).contains(k));
            }
            assert forall|k: u128| #[trigger] old(self).holds(part, k) == (old(self).state_of(k)
                == part) by {
                assert(old(self).occurrences(k) <= 1);
            }
        }
        let mut i: usize = 0;
        while i < ids.len()
            invariant
                self.wf(),
                part == ClientState::Selected || part == ClientState::Done || part
                    == ClientState::Ignored,
                0 <= i <= ids@.len(),
                id_values(ids@).no_duplicates(),
                forall|k: u128| #[trigger]
                    old(self).holds(part, k) == id_values(ids@).contains(k),
                forall|k: u128| #[trigger]
                    old(self).holds(part, k) == (old(self).state_of(k) == part),
                forall|k: u128|
                    #[trigger] self.state_of(k) == if old(self).state_of(k) == part && id_values(
                        ids@,
                    ).subrange(0, i as int).contains(k) {
                        ClientState::Waiting
                    } else {
                        old(self).state_of(k)
                    },
            decreases ids@.len() - i,
        {
            let id = ids[i];
            proof {
                assert(id_values(ids@)[i as int] == id.id);
                assert(id_values(ids@).contains(id.id));
                assert(!id_values(ids@).subrange(0, i as int).contains(id.id));
                assert(self.state_of(id.id) == part);
                assert(self.occurrences(id.id) <= 1);
            }
            let ghost before = *self;
            match self.remove_active(&id) {
                Some(client) => {
                    let ghost mid = *self;
                    proof {
                        assert(!mid.holds(ClientState::DoneAndInactive, id.id));
                    }
                    self.insert_active(ClientState::Waiting, id, client);
                    proof {
                        lemma_agrees_trans(&before, &mid, self, id.id);
                        lemma_wf_after_change(&before, self, id.id);
                    }
                },
                None => {
                    proof {
                        assert(false);
                    }
                },
            }
            proof {
                assert(id_values(ids@).subrange(0, i + 1) =~= id_values(ids@).subrange(
                    0,
                    i as int,
                ).push(id.id));
                assert forall|k: u128| #[trigger]
                    self.state_of(k) == if old(self).state_of(k) == part && id_values(
                        ids@,
                    ).subrange(0, i + 1).contains(k) {
                        ClientState::Waiting
                    } else {
                        old(self).state_of(k)
                    } by {
                    let prefix = id_values(ids@).subrange(0, i as int);
                    assert(before.state_of(k) == if old(self).state_of(k) == part
                        && prefix.contains(k) {
                        ClientState::Waiting
                    } else {
                        old(self).state_of(k)
                    });
                    if k != id.id {
                        assert(self.state_of(k) == before.state_of(k));
                        assert(prefix.push(id.id).contains(k) == prefix.contains(k));
                    } else {
                        assert(old(self).holds(part, k));
                        assert(prefix.push(id.id)[i as int] == k);
                        assert(prefix.push(id.id).contains(k));
                    }
                }
            }
            i = i + 1;
        }
        proof {
            assert(id_values(ids@).subrange(0, ids@.len() as int) =~= id_values(ids@));
        }
    }

    /// Begin a new round: every client that is selected, done or ignored
    /// waits again, and clients that went silent are forgotten.
    pub fn reset_round(&mut self)
        requires
            old(self).wf(),
        ensures
            final(self).wf(),
            forall|k: u128|
                #[trigger] final(self).state_of(k) == state_after_round_reset(
                    old(self).state_of(k),
                ),
    {
        self.move_all_to_waiting(ClientState::Selected);
        let ghost after_selected = *self;
        self.move_all_to_waiting(ClientState::Done);
        let ghost after_done = *self;
        self.move_all_to_waiting(ClientState::Ignored);
        let ghost mid = *self;
        self.done_and_inactive.clear();
        proof {
            assert forall|k: u128| #[trigger] self.occurrences(k) <= 1 by {
                assert(mid.occurrences(k) <= 1);
            }
            assert forall|k: u128|
                #[trigger] self.state_of(k) == state_after_round_reset(old(self).state_of(k)) by {
                assert(mid.occurrences(k) <= 1);
                assert(after_selected.state_of(k) == if old(self).state_of(k) == ClientState::Selected {
                    ClientState::Waiting
                } else {
                    old(self).state_of(k)
                });
                assert(after_done.state_of(k) == if after_selected.state_of(k) == ClientState::Done {
                    ClientState::Waiting
                } else {
                    after_selected.state_of(k)
                });
                assert(mid.state_of(k) == if after_done.state_of(k) == ClientState::Ignored {
                    ClientState::Waiting
                } else {
                    after_done.state_of(k)
                });
            }
        }
    }

    /// The identifiers of the waiting clients, each once, in no particular order.
    pub fn waiting_ids(&self) -> (r: Vec<ClientId>)
        ensures
            id_values(r@).to_set() == self.partition(ClientState::Waiting),
            id_values(r@).no_duplicates(),
    {
        assert(self.partition(ClientState::Waiting) =~= self.waiting@.dom());
        ids_of(&self.waiting)
    }

    /// The identifiers of the selected clients, each once, in no particular order.
    pub fn selected_ids(&self) -> (r: Vec<ClientId>)
        ensures
            id_values(r@).to_set() == self.partition(ClientState::Selected),
            id_values(r@).no_duplicates(),
    {
        assert(self.partition(ClientState::Selected) =~= self.selected@.dom());
        ids_of(&self.selected)
    }
}

/// Where a client in state `s` stands once a new round begins: every tracked
/// active client waits again, and clients that went silent are forgotten.
pub open spec fn state_after_round_reset(s: ClientState) -> ClientState {
    match s {
        ClientState::Waiting | ClientState::Selected | ClientState::Done | ClientState::Ignored => {
            ClientState::Waiting
        },
        _ => ClientState::Unknown,
    }
}

/// Partitions are disjoint: in a well-formed store no identifier stands in
/// two partitions, and the state it is reported in is the partition that
/// holds it. Every operation on the store keeps it well formed.
pub proof fn lemma_partitions_disjoint(c: &Clients, id: u128, p: ClientState, q: ClientState)
    requires
        c.wf(),
        c.holds(p, id),
        c.holds(q, id),
    ensures
        p == q,
        c.state_of(id) == p,
{
    assert(c.occurrences(id) <= 1);
}

/// A store that differs from a well-formed one in `id` alone, and holds `id`
/// at most once, is well formed.
proof fn lemma_wf_after_change(a: &Clients, b: &Clients, id: u128)
    requires
        a.wf(),
        b.agrees_except(a, id),
        b.occurrences(id) <= 1,
    ensures
        b.wf(),
{
    assert forall|k: u128| #[trigger] b.occurrences(k) <= 1 by {
        if k != id {
            assert(a.occurrences(k) <= 1);
            assert(b.holds(ClientState::Waiting, k) == a.holds(ClientState::Waiting, k));
            assert(b.holds(ClientState::Selected, k) == a.holds(ClientState::Selected, k));
            assert(b.holds(ClientState::Ignored, k) == a.holds(ClientState::Ignored, k));
            assert(b.holds(ClientState::Done, k) == a.holds(ClientState::Done, k));
            assert(b.holds(ClientState::DoneAndInactive, k) == a.holds(
                ClientState::DoneAndInactive,
                k,
            ));
        }
    }
}

/// Agreement outside of `id` carries over from one change to the next.
proof fn lemma_agrees_trans(a: &Clients, b: &Clients, c: &Clients, id: u128)
    requires
        b.agrees_except(a, id),
        c.agrees_except(b, id),
    ensures
        c.agrees_except(a, id),
{
    assert forall|part: ClientState, k: u128| k != id implies #[trigger] c.holds(part, k) == a.holds(
        part,
        k,
    ) by {
        assert(b.holds(part, k) == a.holds(part, k));
    }
}

/// The 128-bit values of a sequence of identifiers.
pub open spec fn id_values(v: Seq<ClientId>) -> Seq<u128> {
    v.map_values(|c: ClientId| c.id)
}

/// The identifiers of the clients that a partition holds, in no particular order.
fn ids_of(m: &HashMap<u128, ActiveClient>) -> (r: Vec<ClientId>)
    ensures
        id_values(r@).to_set() == m@.dom(),
        id_values(r@).no_duplicates(),
{
    let mut r: Vec<ClientId> = Vec::new();
    let ghost keys = vstd::std_specs::hash::spec_keys_iter(m).remaining();
    for k in it: m.keys()
        invariant
            it.seq() == keys,
            r@.len() == it.index(),
            forall|j: int| 0 <= j < r@.len() ==> r@[j].id == *keys[j],
    {
        r.push(ClientId { id: *k });
    }
    proof {
        assert(id_values(r@) =~= keys.unref());
        assert(keys.unref().to_set() == m@.dom());
    }
    r
}

} // verus!
