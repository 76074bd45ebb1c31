use std::time::Duration;
use std::time::Instant;
use vstd::prelude::*;

use crate::clock::{
    duration_as_nanos, duration_nanos, instant_elapsed, instant_now, is_duration_nanos,
};
use crate::model::{Model, Phase};
use crate::trace::{output, step, Op};

verus! {

/// The timer of a stored value: running since the given time (nanoseconds on
/// the option's own clock), or seen to have run out.
#[derive(Debug, Clone, Copy)]
enum Timer {
    NotExpired(u128),
    Expired,
}

/// A stored value together with its timer.
#[derive(Debug)]
struct Stored<T> {
    timer: Timer,
    val: T,
}

/// An `Option` that automatically reverts to `None` after a certain amount of time.
///
/// The value is not dropped when its time runs out, only when it is
/// overwritten or taken, or when the `EphemeralOption` itself is dropped.
///
/// Every operation that looks at the clock comes in two forms: one that reads
/// the monotonic clock, and one ending in `_at` that takes the time as an
/// argument. Both count nanoseconds on the option's own clock, which starts
/// with `new`, or else with the first call of `insert`, `get_or_insert`,
/// `replace` or `reset_timer`; until then it reads 0.
#[derive(Debug)]
#[must_use]
pub struct EphemeralOption<T> {
    slot: Option<Stored<T>>,
    max_nanos: u128,
    origin: Option<Instant>,
}

impl<T> View for EphemeralOption<T> {
    type V = Model<T>;

    closed spec fn view(&self) -> Model<T> {
        Model {
            phase: match self.slot {
                None => Phase::Empty,
                Some(s) => match s.timer {
                    Timer::NotExpired(start) => Phase::Live(start as nat),
                    Timer::Expired => Phase::Expired,
                },
            },
            value: match self.slot {
                None => None,
                Some(s) => Some(s.val),
            },
            max: self.max_nanos as nat,
        }
    }
}

impl<T> EphemeralOption<T> {
    /// Whether the option's clock has started.
    pub closed spec fn clock_started(&self) -> bool {
        self.origin is Some
    }

    /// The model of every option is well formed.
    pub proof fn lemma_wf(&self)
        ensures
            self@.wf(),
    {
    }

    /// Whether a timer started at `start` has run out at `now`.
    fn outlived(&self, start: u128, now: u128) -> (b: bool)
        ensures
            b == Model::<T>::outlived(start as nat, now as int, self.max_nanos as nat),
    {
        now > start && now - start > self.max_nanos
    }

    /// Reads the option's clock: nanoseconds since it started, or 0 if it has
    /// not started.
    fn now(&self) -> (now: u128)
        ensures
            !self.clock_started() ==> now == 0,
            self.clock_started() ==> is_duration_nanos(now as nat),
    {
        match &self.origin {
            Some(origin) => {
                let elapsed = instant_elapsed(origin);
                let nanos = duration_as_nanos(&elapsed);
                assert(duration_nanos(elapsed) == nanos as nat);
                nanos
            },
            None => 0,
        }
    }

    /// Reads the option's clock, starting it (at 0) if it has not started.
    fn start_clock(&mut self) -> (now: u128)
        ensures
            final(self)@ == old(self)@,
            final(self).clock_started(),
            !old(self).clock_started() ==> now == 0,
            old(self).clock_started() ==> is_duration_nanos(now as nat),
    {
        match &self.origin {
            Some(origin) => {
                let elapsed = instant_elapsed(origin);
                let nanos = duration_as_nanos(&elapsed);
                assert(duration_nanos(elapsed) == nanos as nat);
                nanos
            },
            None => {
                self.origin = Some(instant_now());
                0
            },
        }
    }

    /// Create a new `EphemeralOption<T>` with a value that expires after a set
    /// amount of time. Its clock starts now, at time 0.
    pub fn new(val: T, max_time: Duration) -> (opt: Self)
        ensures
            opt@.phase == Phase::Live(0),
            opt@.value == Some(val),
            opt@.max == duration_nanos(max_time),
            opt.clock_started(),
    {
        let origin = Some(instant_now());
        let max_nanos = duration_as_nanos(&max_time);
        EphemeralOption {
            slot: Some(Stored { timer: Timer::NotExpired(0), val }),
            max_nanos,
            origin,
        }
    }

    /// Create a new, empty `EphemeralOption<T>` that will expire a value after
    /// a set amount of time. The clock is not read: it starts with the first
    /// call of `insert`, `get_or_insert`, `replace` or `reset_timer`.
    pub fn new_empty(max_time: Duration) -> (opt: Self)
        ensures
            opt@.phase == Phase::Empty,
            opt@.value == None::<T>,
            opt@.max == duration_nanos(max_time),
            !opt.clock_started(),
    {
        let max_nanos = duration_as_nanos(&max_time);
        EphemeralOption { slot: None, max_nanos, origin: None }
    }

    /// Marks a live value as expired if its time has run out at `now`.
    fn check_time_at(&mut self, now: u128)
        ensures
            final(self)@ == old(self)@.checked(now as int),
            final(self).clock_started() == old(self).clock_started(),
    {
        let expired = match &self.slot {
            Some(s) => match s.timer {
                Timer::NotExpired(start_time) => self.outlived(start_time, now),
                Timer::Expired => false,
            },
            None => false,
        };
        if expired {
            if let Some(s) = &mut self.slot {
                s.timer = Timer::Expired;
            }
        }
    }

    /// Whether a value is stored whose timer is still running.
    fn is_not_expired(&self) -> (b: bool)
        ensures
            b == (self@.phase is Live),
    {
        match &self.slot {
            Some(s) => match s.timer {
                Timer::NotExpired(_) => true,
                Timer::Expired => false,
            },
            None => false,
        }
    }

    /// The value as seen at time `now`: `None` if it is empty or if it has
    /// expired by then.
    pub fn get_at(&self, now: u128) -> (r: Option<&T>)
        ensures
            r == (match self@.current(now as int) {
                Some(v) => Some(&v),
                None => None,
            }),
            r == (match output(self@, Op::Get(now as nat)) {
                Some(v) => Some(&v),
                None => None,
            }),
    {
        match &self.slot {
            Some(s) => match s.timer {
                Timer::NotExpired(start_time) => if self.outlived(start_time, now) {
                    None
                } else {
                    Some(&s.val)
                },
                Timer::Expired => None,
            },
            None => None,
        }
    }

    /// Get a shared reference to the value of the `EphemeralOption`.
    ///
    /// Will return `None` if it is empty or if it has expired.
    pub fn get(&self) -> (r: Option<&T>)
        ensures
            exists|now: u128|
                {
                    &&& !self.clock_started() ==> now == 0
                    &&& self.clock_started() ==> is_duration_nanos(now as nat)
                    &&& r == (match #[trigger] self@.current(now as int) {
                        Some(v) => Some(&v),
                        None => None,
                    })
                },
    {
        let now = self.now();
        self.get_at(now)
    }

    /// Get a shared reference to the value without checking whether it has
    /// expired. The value must be there.
    pub fn get_unchecked(&self) -> (r: &T)
        requires
            self@.value is Some,
        ensures
            *r == self@.value.unwrap(),
    {
        &self.slot.as_ref().unwrap().val
    }

    /// Get a shared reference to the value regardless of whether it has
    /// expired or not. Will only return `None` if the value does not exist.
    pub fn get_expired(&self) -> (r: Option<&T>)
        ensures
            r == (match self@.value {
                Some(v) => Some(&v),
                None => None,
            }),
            r == (match output(self@, Op::GetExpired) {
                Some(v) => Some(&v),
                None => None,
            }),
    {
        match &self.slot {
            Some(s) => Some(&s.val),
            None => None,
        }
    }

    /// Take the value out at time `now`, leaving the option empty. Returns it
    /// if it had not expired by then; an expired value is dropped.
    pub fn take_at(&mut self, now: u128) -> (r: Option<T>)
        ensures
            r == old(self)@.current(now as int),
            final(self)@ == old(self)@.emptied(),
            r == output(old(self)@, Op::Take(now as nat)),
            final(self)@ == step(old(self)@, Op::Take(now as nat)),
            final(self).clock_started() == old(self).clock_started(),
    {
        self.check_time_at(now);
        match self.slot.take() {
            Some(s) => match s.timer {
                Timer::NotExpired(_) => Some(s.val),
                Timer::Expired => None,
            },
            None => None,
        }
    }

    /// Get a mutable reference to the value as seen at time `now`: `None` if
    /// it is empty or if it has expired by then (it is then marked expired).
    pub fn get_mut_at(&mut self, now: u128) -> (r: Option<&mut T>)
        ensures
            old(self)@.live_at(now as int) ==> {
                &&& r is Some
                &&& *r.unwrap() == old(self)@.value.unwrap()
                &&& final(self)@ == old(self)@.updated(*final(r.unwrap()))
            },
            !old(self)@.live_at(now as int) ==> {
                &&& r is None
                &&& final(self)@ == old(self)@.checked(now as int)
            },
            r matches Some(x) ==> {
                &&& Some(*x) == output(old(self)@, Op::GetMut(now as nat, *final(x)))
                &&& final(self)@ == step(old(self)@, Op::GetMut(now as nat, *final(x)))
            },
            r is None ==> forall|w: T|
                #[trigger] step(old(self)@, Op::GetMut(now as nat, w)) == final(self)@
                    && output(old(self)@, Op::GetMut(now as nat, w)) is None,
            final(self).clock_started() == old(self).clock_started(),
    {
        self.check_time_at(now);
        match &mut self.slot {
            Some(s) => match s.timer {
                Timer::NotExpired(_) => Some(&mut s.val),
                Timer::Expired => None,
            },
            None => None,
        }
    }

    /// Get a mutable reference to the value without checking whether it has
    /// expired. The value must be there.
    pub fn get_mut_unchecked(&mut self) -> (r: &mut T)
        requires
            old(self)@.value is Some,
        ensures
            *r == old(self)@.value.unwrap(),
            final(self)@ == old(self)@.updated(*final(r)),
            final(self).clock_started() == old(self).clock_started(),
    {
        &mut self.slot.as_mut().unwrap().val
    }

    /// Get a mutable reference to the value regardless of whether it has
    /// expired or not. Will only return `None` if the value does not exist.
    pub fn get_mut_expired(&mut self) -> (r: Option<&mut T>)
        ensures
            old(self)@.value is Some ==> {
                &&& r is Some
                &&& *r.unwrap() == old(self)@.value.unwrap()
                &&& final(self)@ == old(self)@.updated(*final(r.unwrap()))
            },
            old(self)@.value is None ==> r is None && final(self)@ == old(self)@,
            r matches Some(x) ==> {
                &&& Some(*x) == output(old(self)@, Op::GetMutExpired(*final(x)))
                &&& final(self)@ == step(old(self)@, Op::GetMutExpired(*final(x)))
            },
            r is None ==> forall|w: T|
                #[trigger] step(old(self)@, Op::GetMutExpired(w)) == final(self)@
                    && output(old(self)@, Op::GetMutExpired(w)) is None,
            final(self).clock_started() == old(self).clock_started(),
    {
        match &mut self.slot {
            Some(s) => Some(&mut s.val),
            None => None,
        }
    }

    /// Overwrite the value at time `now`, starting its timer afresh. Returns a
    /// mutable reference to the inserted value.
    pub fn insert_at(&mut self, val: T, now: u128) -> (r: &mut T)
        ensures
            *r == val,
            final(self)@ == old(self)@.stored(*final(r), now as nat),
            Some(*r) == output(old(self)@, Op::Insert(val, now as nat, *final(r))),
            final(self)@ == step(old(self)@, Op::Insert(val, now as nat, *final(r))),
            final(self).clock_started() == old(self).clock_started(),
    {
        let s = self.slot.insert(Stored { timer: Timer::NotExpired(now), val });
        &mut s.val
    }

    /// Overwrite the value at time `now` if it is currently `None` (empty or
    /// expired), starting its timer afresh. Returns a mutable reference to the
    /// value it then holds.
    pub fn get_or_insert_at(&mut self, val: T, now: u128) -> (r: &mut T)
        ensures
            old(self)@.live_at(now as int) ==> {
                &&& *r == old(self)@.value.unwrap()
                &&& final(self)@ == old(self)@.updated(*final(r))
            },
            !old(self)@.live_at(now as int) ==> {
                &&& *r == val
                &&& final(self)@ == old(self)@.stored(*final(r), now as nat)
            },
            Some(*r) == output(old(self)@, Op::GetOrInsert(val, now as nat, *final(r))),
            final(self)@ == step(old(self)@, Op::GetOrInsert(val, now as nat, *final(r))),
            final(self).clock_started() == old(self).clock_started(),
    {
        self.check_time_at(now);
        if self.is_not_expired() {
            return &mut self.slot.as_mut().unwrap().val;
        }
        self.insert_at(val, now)
    }

    /// Replace the value at time `now`, starting the new value's timer, and
    /// return the old value if it had not expired by then.
    pub fn replace_at(&mut self, val: T, now: u128) -> (r: Option<T>)
        ensures
            r == old(self)@.current(now as int),
            final(self)@ == old(self)@.stored(val, now as nat),
            r == output(old(self)@, Op::Replace(val, now as nat)),
            final(self)@ == step(old(self)@, Op::Replace(val, now as nat)),
            final(self).clock_started() == old(self).clock_started(),
    {
        let old_val = self.take_at(now);
        self.slot = Some(Stored { timer: Timer::NotExpired(now), val });
        old_val
    }

    /// Restart the timer at time `now`, if a value (expired or not) is there.
    pub fn reset_timer_at(&mut self, now: u128)
        ensures
            final(self)@ == old(self)@.reset(now as nat),
            final(self)@ == step(old(self)@, Op::ResetTimer(now as nat)),
            final(self).clock_started() == old(self).clock_started(),
    {
        if let Some(s) = &mut self.slot {
            s.timer = Timer::NotExpired(now);
        }
    }

    /// Convert into an `Option<T>` at time `now`: `Some` only if the value is
    /// there and has not expired by then.
    pub fn into_option_at(self, now: u128) -> (r: Option<T>)
        ensures
            r == self@.current(now as int),
    {
        let mut this = self;
        this.take_at(now)
    }

    /// Get a mutable, exclusive reference to the value of the `EphemeralOption`.
    ///
    /// Will return `None` if it is empty or if it has expired.
    pub fn get_mut(&mut self) -> (r: Option<&mut T>)
        ensures
            exists|now: u128|
                {
                    &&& !old(self).clock_started() ==> now == 0
                    &&& old(self).clock_started() ==> is_duration_nanos(now as nat)
                    &&& #[trigger] old(self)@.live_at(now as int) ==> {
                        &&& r is Some
                        &&& *r.unwrap() == old(self)@.value.unwrap()
                        &&& final(self)@ == old(self)@.updated(*final(r.unwrap()))
                    }
                    &&& !old(self)@.live_at(now as int) ==> {
                        &&& r is None
                        &&& final(self)@ == old(self)@.checked(now as int)
                    }
                },
            final(self).clock_started() == old(self).clock_started(),
    {
        let now = self.now();
        self.get_mut_at(now)
    }

    /// Overwrite the value in the `EphemeralOption`, resetting the timer for
    /// when it expires. Returns a mutable reference to the inserted value.
    pub fn insert(&mut self, val: T) -> (r: &mut T)
        ensures
            *r == val,
            exists|now: u128|
                {
                    &&& !old(self).clock_started() ==> now == 0
                    &&& old(self).clock_started() ==> is_duration_nanos(now as nat)
                    &&& final(self)@ == #[trigger] old(self)@.stored(*final(r), now as nat)
                },
            final(self).clock_started(),
    {
        let now = self.start_clock();
        self.insert_at(val, now)
    }

    /// Overwrite the value in the `EphemeralOption` if it is currently `None`
    /// (empty or expired), resetting the timer if a new value is inserted.
    /// Returns a mutable reference to the contained value.
    pub fn get_or_insert(&mut self, val: T) -> (r: &mut T)
        ensures
            exists|now: u128|
                {
                    &&& !old(self).clock_started() ==> now == 0
                    &&& old(self).clock_started() ==> is_duration_nanos(now as nat)
                    &&& #[trigger] old(self)@.live_at(now as int) ==> {
                        &&& *r == old(self)@.value.unwrap()
                        &&& final(self)@ == old(self)@.updated(*final(r))
                    }
                    &&& !old(self)@.live_at(now as int) ==> {
                        &&& *r == val
                        &&& final(self)@ == old(self)@.stored(*final(r), now as nat)
                    }
                },
            final(self).clock_started(),
    {
        let now = self.start_clock();
        self.get_or_insert_at(val, now)
    }

    /// Take the value out of the `EphemeralOption`, leaving it empty. An
    /// expired value is dropped, and `None` is returned.
    pub fn take(&mut self) -> (r: Option<T>)
        ensures
            exists|now: u128|
                {
                    &&& !old(self).clock_started() ==> now == 0
                    &&& old(self).clock_started() ==> is_duration_nanos(now as nat)
                    &&& r == #[trigger] old(self)@.current(now as int)
                },
            final(self)@ == old(self)@.emptied(),
            final(self).clock_started() == old(self).clock_started(),
    {
        let now = self.now();
        self.take_at(now)
    }

    /// Replace the value with a new one, resetting the timer, and return the
    /// old value if it had not expired. An expired value is dropped.
    pub fn replace(&mut self, val: T) -> (r: Option<T>)
        ensures
            exists|now: u128|
                {
                    &&& !old(self).clock_started() ==> now == 0
                    &&& old(self).clock_started() ==> is_duration_nanos(now as nat)
                    &&& r == #[trigger] old(self)@.current(now as int)
                    &&& final(self)@ == old(self)@.stored(val, now as nat)
                },
            final(self).clock_started(),
    {
        let now = self.start_clock();
        self.replace_at(val, now)
    }

    /// Reset the timer for when the value expires, if a value is there.
    pub fn reset_timer(&mut self)
        ensures
            exists|now: u128|
                {
                    &&& !old(self).clock_started() ==> now == 0
                    &&& old(self).clock_started() ==> is_duration_nanos(now as nat)
                    &&& final(self)@ == #[trigger] old(self)@.reset(now as nat)
                },
            final(self).clock_started(),
    {
        let now = self.start_clock();
        self.reset_timer_at(now)
    }

    /// Convert an `EphemeralOption<T>` into an `Option<T>`: `Some` only if
    /// the value exists and has not expired.
    pub fn into_option(self) -> (r: Option<T>)
        ensures
            exists|now: u128|
                {
                    &&& !self.clock_started() ==> now == 0
                    &&& self.clock_started() ==> is_duration_nanos(now as nat)
                    &&& r == #[trigger] self@.current(now as int)
                },
    {
        let now = self.now();
        self.into_option_at(now)
    }
}

} // verus!
