use crate::client::ClientId;
use std::time::Duration;
use tokio::sync::mpsc::{Receiver, Sender, UnboundedReceiver, UnboundedSender};
use vstd::prelude::*;

verus! {

#[verifier::external_type_specification]
#[verifier::external_body]
#[verifier::reject_recursive_types(T)]
pub struct ExSender<T>(Sender<T>);

#[verifier::external_type_specification]
#[verifier::external_body]
#[verifier::reject_recursive_types(T)]
pub struct ExReceiver<T>(Receiver<T>);

#[verifier::external_type_specification]
#[verifier::external_body]
#[verifier::reject_recursive_types(T)]
pub struct ExUnboundedSender<T>(UnboundedSender<T>);

#[verifier::external_type_specification]
#[verifier::external_body]
#[verifier::reject_recursive_types(T)]
pub struct ExUnboundedReceiver<T>(UnboundedReceiver<T>);

/// How many resets a heartbeat timer's inbox holds before it pushes back.
pub const HEARTBEAT_RESET_CAPACITY: usize = 10;

/// Nominal heartbeat timeout, in seconds.
pub const HEARTBEAT_TIMEOUT_SECS: u64 = 10;

/// What became of an attempt to put a reset into a timer's inbox.
#[derive(PartialEq, Eq, Structural, Debug, Copy, Clone)]
pub enum ResetDelivery {
    /// The reset is queued.
    Queued,
    /// The inbox is full.
    Full,
    /// The timer dropped its inbox.
    Closed,
}

/// The bound that a reset channel was made with, as its sending half
/// reports it (`Sender::max_capacity`).
pub uninterp spec fn reset_sender_bound(tx: Sender<Duration>) -> usize;

/// The bound that a reset channel was made with, as its receiving half
/// reports it (`Receiver::max_capacity`).
pub uninterp spec fn reset_receiver_bound(rx: Receiver<Duration>) -> usize;

/// Whether a sender and a receiver are the two halves of one reset channel.
pub uninterp spec fn reset_pair(tx: Sender<Duration>, rx: Receiver<Duration>) -> bool;

/// Relies on tokio::sync::mpsc::channel: a bounded channel, handed out as its
/// sending and its receiving half, with `capacity`
/// slots, whose two halves both report that bound as their
/// `max_capacity`. It panics on a capacity of zero, and on one above the
/// semaphore's limit of `usize::MAX >> 3` permits.
#[verifier::external_body]
pub(crate) fn reset_channel(capacity: usize) -> (r: (Sender<Duration>, Receiver<Duration>))
    requires
        capacity > 0,
        capacity <= usize::MAX / 8,
    ensures
        reset_sender_bound(r.0) == capacity,
        reset_receiver_bound(r.1) == capacity,
        reset_pair(r.0, r.1),
{
    tokio::sync::mpsc::channel::<Duration>(capacity)
}

/// Relies on core::time::Duration::from_secs, which builds a duration of
/// whole seconds; it promises nothing that this library reads.
pub assume_specification[ core::time::Duration::from_secs ](secs: u64) -> Duration;

/// Relies on tokio::sync::mpsc::Sender::try_send: the reset is queued, or the
/// channel is full, or its receiver is gone.
#[verifier::external_body]
pub(crate) fn try_send_reset(tx: &Sender<Duration>, timeout: Duration) -> (r: ResetDelivery) {
    match tx.try_send(timeout) {
        Ok(()) => ResetDelivery::Queued,
        Err(tokio::sync::mpsc::error::TrySendError::Full(_)) => ResetDelivery::Full,
        Err(tokio::sync::mpsc::error::TrySendError::Closed(_)) => ResetDelivery::Closed,
    }
}

/// Relies on tokio::sync::mpsc::unbounded_channel: the fan-in channel on which
/// every timer reports its expiration.
#[verifier::external_body]
pub(crate) fn expiration_channel() -> (r: (UnboundedSender<ClientId>, UnboundedReceiver<ClientId>)) {
    tokio::sync::mpsc::unbounded_channel::<ClientId>()
}

/// Whether two expiration senders feed the same channel
/// (`UnboundedSender::same_channel`).
pub uninterp spec fn same_expiration_channel(
    a: UnboundedSender<ClientId>,
    b: UnboundedSender<ClientId>,
) -> bool;

/// Relies on Clone for tokio::sync::mpsc::UnboundedSender: one more sender on
/// the same channel, as `same_channel` reports it.
#[verifier::external_body]
pub(crate) fn clone_expiration_sender(tx: &UnboundedSender<ClientId>) -> (r: UnboundedSender<
    ClientId,
>)
    ensures
        same_expiration_channel(r, *tx),
{
    tx.clone()
}

/// The error that a failed delivery of a reset means to the caller.
pub open spec fn reset_outcome(d: ResetDelivery) -> Result<(), crate::client::HeartBeatResetError> {
    match d {
        ResetDelivery::Queued => Ok(()),
        ResetDelivery::Full => Err(crate::client::HeartBeatResetError::BackPressure),
        ResetDelivery::Closed => Err(crate::client::HeartBeatResetError::Expired),
    }
}

/// Map the delivery of a reset to the result of the reset request.
pub fn reset_result(d: ResetDelivery) -> (r: Result<(), crate::client::HeartBeatResetError>)
    ensures
        r == reset_outcome(d),
{
    match d {
        ResetDelivery::Queued => Ok(()),
        ResetDelivery::Full => Err(crate::client::HeartBeatResetError::BackPressure),
        ResetDelivery::Closed => Err(crate::client::HeartBeatResetError::Expired),
    }
}

/// A heartbeat timer that is ready to be spawned: it reports `id` on
/// `expirations` once `timeout_secs` seconds pass without a reset arriving on
/// `resets`.
pub struct HeartBeatTimer {
    pub id: ClientId,
    pub timeout_secs: u64,
    pub expirations: UnboundedSender<ClientId>,
    pub resets: Receiver<Duration>,
}

/// State of a running heartbeat countdown, in milliseconds of a monotonic clock.
#[derive(PartialEq, Eq, Structural, Debug, Copy, Clone)]
pub struct Countdown {
    /// The instant at which the timer fires unless a reset comes first.
    pub deadline: u64,
}

/// What a running timer has just observed.
#[derive(PartialEq, Eq, Structural, Debug, Copy, Clone)]
pub enum TimerEvent {
    /// A reset with a replacement timeout, received at instant `now`.
    Reset { now: u64, timeout: u64 },
    /// The clock reached instant `now` with no reset in between.
    Tick { now: u64 },
    /// The reset inbox was closed.
    InboxClosed,
}

/// What a running timer must do next.
#[derive(PartialEq, Eq, Structural, Debug, Copy, Clone)]
pub enum TimerAction {
    /// Keep counting down to the given deadline.
    WaitUntil(u64),
    /// Report the expiration and stop.
    Expire,
    /// Stop without reporting anything.
    Stop,
}

/// The action that `event` calls for in countdown state `c`.
pub open spec fn timer_action(c: Countdown, event: TimerEvent) -> TimerAction {
    match event {
        TimerEvent::Reset { now, timeout } => if c.deadline <= now {
            TimerAction::Expire
        } else if now + timeout > u64::MAX {
            TimerAction::WaitUntil(u64::MAX)
        } else {
            TimerAction::WaitUntil((now + timeout) as u64)
        },
        TimerEvent::Tick { now } => if c.deadline <= now {
            TimerAction::Expire
        } else {
            TimerAction::WaitUntil(c.deadline)
        },
        TimerEvent::InboxClosed => TimerAction::Stop,
    }
}

impl Countdown {
    /// Start a countdown of `timeout` milliseconds at instant `now`.
    pub fn start(now: u64, timeout: u64) -> (r: Countdown)
        ensures
            r.deadline == if now + timeout > u64::MAX {
                u64::MAX as int
            } else {
                now + timeout
            },
    {
        Countdown { deadline: now.saturating_add(timeout) }
    }

    /// Decide what the timer does on `event`, and move the deadline where a
    /// reset arrived in time. A reset that arrives once the deadline has
    /// passed does not revive the timer: it expires.
    pub fn on_event(&mut self, event: TimerEvent) -> (r: TimerAction)
        ensures
            r == timer_action(*old(self), event),
            match r {
                TimerAction::WaitUntil(d) => final(self).deadline == d,
                _ => *final(self) == *old(self),
            },
    {
        match event {
            TimerEvent::Reset { now, timeout } => {
                if self.deadline <= now {
                    TimerAction::Expire
                } else {
                    self.deadline = now.saturating_add(timeout);
                    TimerAction::WaitUntil(self.deadline)
                }
            },
            TimerEvent::Tick { now } => {
                if self.deadline <= now {
                    TimerAction::Expire
                } else {
                    TimerAction::WaitUntil(self.deadline)
                }
            },
            TimerEvent::InboxClosed => TimerAction::Stop,
        }
    }
}

} // verus!
