//! Sequences of operations on an `EphemeralOption`, as the operations'
//! contracts describe them: what each leaves behind and what it returns.

use vstd::prelude::*;

use crate::model::Model;

verus! {

/// One operation, with the time at which it looks at the clock and, for one
/// that hands out a mutable reference, the value left behind through it.
pub enum Op<T> {
    /// `get_at(t)`
    Get(nat),
    /// `get_expired()`
    GetExpired,
    /// `get_mut_at(t)`, writing `w` through the reference if one is returned.
    GetMut(nat, T),
    /// `get_mut_expired()`, writing `w` through the reference if one is returned.
    GetMutExpired(T),
    /// `insert_at(v, t)`, writing `w` through the returned reference.
    Insert(T, nat, T),
    /// `get_or_insert_at(v, t)`, writing `w` through the returned reference.
    GetOrInsert(T, nat, T),
    /// `take_at(t)`
    Take(nat),
    /// `replace_at(v, t)`
    Replace(T, nat),
    /// `reset_timer_at(t)`
    ResetTimer(nat),
}

impl<T> Op<T> {
    /// Whether the operation only reads: it neither stores, removes, nor
    /// restarts a value.
    pub open spec fn is_read(self) -> bool {
        match self {
            Op::Get(_) | Op::GetExpired | Op::GetMut(_, _) | Op::GetMutExpired(_) => true,
            _ => false,
        }
    }

    /// The time at which the operation looks at the clock, if it does.
    pub open spec fn time(self) -> Option<nat> {
        match self {
            Op::Get(t) => Some(t),
            Op::GetMut(t, _) => Some(t),
            Op::Insert(_, t, _) => Some(t),
            Op::GetOrInsert(_, t, _) => Some(t),
            Op::Take(t) => Some(t),
            Op::Replace(_, t) => Some(t),
            Op::ResetTimer(t) => Some(t),
            _ => None,
        }
    }
}

/// The state that `op` leaves behind, applied to state `m`.
pub open spec fn step<T>(m: Model<T>, op: Op<T>) -> Model<T> {
    match op {
        Op::Get(_) => m,
        Op::GetExpired => m,
        Op::GetMut(t, w) => if m.live_at(t as int) {
            m.updated(w)
        } else {
            m.checked(t as int)
        },
        Op::GetMutExpired(w) => if m.value is Some {
            m.updated(w)
        } else {
            m
        },
        Op::Insert(_, t, w) => m.stored(w, t),
        Op::GetOrInsert(_, t, w) => if m.live_at(t as int) {
            m.updated(w)
        } else {
            m.stored(w, t)
        },
        Op::Take(_) => m.emptied(),
        Op::Replace(v, t) => m.stored(v, t),
        Op::ResetTimer(t) => m.reset(t),
    }
}

/// The value that `op` hands out (by value or by reference) when applied to
/// state `m`; `None` for an operation that hands out nothing.
pub open spec fn output<T>(m: Model<T>, op: Op<T>) -> Option<T> {
    match op {
        Op::Get(t) => m.current(t as int),
        Op::GetExpired => m.value,
        Op::GetMut(t, _) => m.current(t as int),
        Op::GetMutExpired(_) => m.value,
        Op::Insert(v, _, _) => Some(v),
        Op::GetOrInsert(v, t, _) => if m.live_at(t as int) {
            m.value
        } else {
            Some(v)
        },
        Op::Take(t) => m.current(t as int),
        Op::Replace(_, t) => m.current(t as int),
        Op::ResetTimer(_) => None,
    }
}

/// The state after running `ops` in order from `m`.
pub open spec fn run<T>(m: Model<T>, ops: Seq<Op<T>>) -> Model<T>
    decreases ops.len(),
{
    if ops.len() == 0 {
        m
    } else {
        run(step(m, ops[0]), ops.drop_first())
    }
}

/// What each operation of `ops` hands out, when run in order from `m`.
pub open spec fn outputs<T>(m: Model<T>, ops: Seq<Op<T>>) -> Seq<Option<T>>
    decreases ops.len(),
{
    if ops.len() == 0 {
        Seq::empty()
    } else {
        seq![output(m, ops[0])] + outputs(step(m, ops[0]), ops.drop_first())
    }
}

} // verus!
