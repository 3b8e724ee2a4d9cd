use vstd::prelude::*;

verus! {

/// Relies on uuid::Uuid::new_v4: a fresh random identifier, read as its
/// 128-bit value. Whatever the draw, its version nibble is 4 and its variant
/// bits are `10`.
#[verifier::external_body]
fn random_uuid_bits() -> (r: u128)
    ensures
        is_v4_uuid(r),
{
    uuid::Uuid::new_v4().as_u128()
}

/// Whether `bits` has the layout of a random (version 4) uuid.
pub open spec fn is_v4_uuid(bits: u128) -> bool {
    (bits >> 76u128) & 0xfu128 == 4 && (bits >> 62u128) & 0x3u128 == 2
}

/// A unique random client identifier.
#[derive(PartialEq, Eq, Structural, Hash, Debug, Copy, Clone)]
pub struct ClientId {
    pub id: u128,
}

impl ClientId {
    /// Return a new random client identifier.
    pub fn new() -> (r: Self)
        ensures
            is_v4_uuid(r.id),
    {
        ClientId { id: random_uuid_bits() }
    }

    /// Build an identifier out of its 128-bit value.
    pub fn from_u128(id: u128) -> (r: Self)
        ensures
            r.id == id,
    {
        ClientId { id }
    }

    /// The identifier's 128-bit value.
    pub fn as_u128(&self) -> (r: u128)
        ensures
            r == self.id,
    {
        self.id
    }
}

/// Lifecycle state of a participant tracked by the coordinator.
#[derive(PartialEq, Eq, Structural, Debug, Copy, Clone)]
pub enum ClientState {
    /// Tracked, and eligible for the next selection.
    Waiting,
    /// Chosen for the current round, has not submitted yet.
    Selected,
    /// Submitted its contribution this round.
    Done,
    /// Excluded for the remainder of the round.
    Ignored,
    /// Submitted its contribution, then went silent.
    DoneAndInactive,
    /// Not tracked at all.
    Unknown,
}

impl ClientState {
    /// Whether a client in this state holds a heartbeat timer.
    pub open spec fn is_active_state(self) -> bool {
        self != ClientState::Unknown && self != ClientState::DoneAndInactive
    }
}

/// The edges of the lifecycle graph: every other change of state is refused.
pub open spec fn valid_transition(current: ClientState, next: ClientState) -> bool {
    match (current, next) {
        (ClientState::Waiting, ClientState::Selected) => true,
        (ClientState::Selected, ClientState::Done) => true,
        (ClientState::Selected, ClientState::Ignored) => true,
        (ClientState::Done, ClientState::Ignored) => true,
        (ClientState::Done, ClientState::DoneAndInactive) => true,
        (ClientState::DoneAndInactive, ClientState::Ignored) => true,
        _ => false,
    }
}

/// Return whether the transition from `current_state` to `new_state` is valid.
pub fn is_valid_transition(current_state: ClientState, new_state: ClientState) -> (r: bool)
    ensures
        r == valid_transition(current_state, new_state),
{
    match (current_state, new_state) {
        (ClientState::Waiting, ClientState::Selected) => true,
        (ClientState::Selected, ClientState::Done) => true,
        (ClientState::Selected, ClientState::Ignored) => true,
        (ClientState::Done, ClientState::Ignored) => true,
        (ClientState::Done, ClientState::DoneAndInactive) => true,
        (ClientState::DoneAndInactive, ClientState::Ignored) => true,
        _ => false,
    }
}

/// Error returned when resetting a heartbeat timer fails.
#[derive(PartialEq, Eq, Structural, Debug, Copy, Clone)]
pub enum HeartBeatResetError {
    /// The timer expired already.
    Expired,
    /// Tried to reset the timer of a non-existent or inactive client.
    ClientNotFound,
    /// Could not reset the timer due to too many pending resets.
    BackPressure,
}

impl HeartBeatResetError {
    /// A human readable description of the error.
    pub fn message(&self) -> (r: String)
        ensures
            r@ == match self {
                HeartBeatResetError::Expired => "the heartbeat timer already expired"@,
                HeartBeatResetError::ClientNotFound => "client not found"@,
                HeartBeatResetError::BackPressure => "too many pending resets"@,
            },
    {
        match self {
            HeartBeatResetError::Expired => "the heartbeat timer already expired".to_owned(),
            HeartBeatResetError::ClientNotFound => "client not found".to_owned(),
            HeartBeatResetError::BackPressure => "too many pending resets".to_owned(),
        }
    }
}

/// Error returned when trying to move a client into a state that the
/// lifecycle graph does not allow: it holds the current and the requested state.
#[derive(PartialEq, Eq, Structural, Debug, Copy, Clone)]
pub struct InvalidClientStateError(pub ClientState, pub ClientState);

} // verus!
