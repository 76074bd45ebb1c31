use vstd::prelude::*;

verus! {

/// Where a stored value stands in its life cycle.
///
/// Times are nanoseconds on the clock of one `EphemeralOption`, counted from
/// the moment that option was created.
pub enum Phase {
    /// No value is stored.
    Empty,
    /// A value is stored; its timer was started at `start`.
    Live(nat),
    /// A value is stored, and it has been seen to outlive its time.
    Expired,
}

/// The abstract state of an `EphemeralOption<T>`: its phase, the value it
/// holds (expired or not), and how many nanoseconds a value lives.
pub struct Model<T> {
    pub phase: Phase,
    pub value: Option<T>,
    pub max: nat,
}

impl<T> Model<T> {
    /// A value is held exactly when the phase is not `Empty`.
    pub open spec fn wf(self) -> bool {
        (self.phase is Empty) == (self.value is None)
    }

    /// Whether a timer started at `start` has run out at time `now`: more than
    /// `max` nanoseconds lie between them (none do when `now` comes first).
    pub open spec fn outlived(start: nat, now: int, max: nat) -> bool {
        now - start > max
    }

    /// Whether the held value may still be handed out at time `now`.
    pub open spec fn live_at(self, now: int) -> bool {
        match self.phase {
            Phase::Live(start) => !Self::outlived(start, now, self.max),
            _ => false,
        }
    }

    /// The value as seen at time `now`: `None` when empty or expired.
    pub open spec fn current(self, now: int) -> Option<T> {
        if self.live_at(now) {
            self.value
        } else {
            None
        }
    }

    /// The state after the clock was read at `now`: a live value whose time
    /// has run out is marked expired; nothing else changes.
    pub open spec fn checked(self, now: int) -> Model<T> {
        match self.phase {
            Phase::Live(start) => if Self::outlived(start, now, self.max) {
                Model { phase: Phase::Expired, ..self }
            } else {
                self
            },
            _ => self,
        }
    }

    /// The state after `v` was stored at time `now`, with a fresh timer.
    pub open spec fn stored(self, v: T, now: nat) -> Model<T> {
        Model { phase: Phase::Live(now), value: Some(v), max: self.max }
    }

    /// The state after the held value was changed in place to `v`: the timer
    /// is left as it was.
    pub open spec fn updated(self, v: T) -> Model<T> {
        Model { value: Some(v), ..self }
    }

    /// The state after the value was removed.
    pub open spec fn emptied(self) -> Model<T> {
        Model { phase: Phase::Empty, value: None, max: self.max }
    }

    /// The state after the timer was reset at time `now`: a held value,
    /// expired or not, becomes live again; an empty state stays empty.
    pub open spec fn reset(self, now: nat) -> Model<T> {
        if self.phase is Empty {
            self
        } else {
            Model { phase: Phase::Live(now), ..self }
        }
    }
}

} // verus!
