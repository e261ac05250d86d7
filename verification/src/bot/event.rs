use crate::bot::potions::Potion;
use vstd::prelude::*;

verus! {

/// Nanoseconds after which an ephemeral event is no longer acted on.
pub const FISH_EVENT_TTL: u64 = 1_000_000_000;

/// Events that flow through the central queue.
///
/// Timestamps are nanoseconds on the caller's monotonic clock. *Ephemeral*
/// events carry one and are dropped once they are older than
/// [`FISH_EVENT_TTL`]; the others are never dropped for their age.
#[derive(Debug, Clone, Copy, PartialEq, Eq, Structural)]
pub enum FisherEvent {
    /// The poller saw a catch. Ephemeral.
    FishDetected { fish_id: i32, timestamp: u64 },
    /// A potion timer ran out: time to drink again.
    DrinkPotion(Potion),
    /// Cast the rod. Ephemeral.
    Cast { timestamp: u64 },
    /// Hotkey: switch the macro on or off.
    Toggle,
    /// Hotkey: pause or resume.
    Pause,
}

impl FisherEvent {
    /// When an ephemeral event was made; `None` for a persistent one.
    pub open spec fn created_at(self) -> Option<u64> {
        match self {
            FisherEvent::FishDetected { fish_id, timestamp } => Some(timestamp),
            FisherEvent::Cast { timestamp } => Some(timestamp),
            _ => None,
        }
    }

    pub open spec fn is_ephemeral(self) -> bool {
        self.created_at() is Some
    }

    /// Whether the event is ephemeral and older than the time to live at `now`.
    /// An event stamped later than `now` has no age.
    pub open spec fn stale_at(self, now: u64) -> bool {
        match self.created_at() {
            Some(t) => now - t > FISH_EVENT_TTL,
            None => false,
        }
    }

    /// The timestamp of an ephemeral event.
    pub fn timestamp(&self) -> (r: Option<u64>)
        ensures
            r == self.created_at(),
    {
        match self {
            FisherEvent::FishDetected { fish_id, timestamp } => Some(*timestamp),
            FisherEvent::Cast { timestamp } => Some(*timestamp),
            _ => None,
        }
    }

    /// Whether the event must be dropped for its age when consumed at `now`.
    pub fn is_stale(&self, now: u64) -> (r: bool)
        ensures
            r == self.stale_at(now),
    {
        match self.timestamp() {
            Some(t) => now > t && now - t > FISH_EVENT_TTL,
            None => false,
        }
    }
}

} // verus!
