//! Properties that hold across the operations of an `EphemeralOption`,
//! stated over the model that the operations' contracts speak of.

use vstd::prelude::*;

use std::time::Duration;

use crate::clock::duration_nanos;
use crate::model::{Model, Phase};
use crate::trace::{outputs, run, step, Op};

verus! {

/// A value stored at time `t` is handed out at every time `u` from `t` up to
/// `t` plus the option's lifetime: a read right after a write gives back what
/// was written.
pub proof fn law_stored_value_is_current<T>(m: Model<T>, v: T, t: nat, u: int)
    requires
        t <= u <= t + m.max,
    ensures
        m.stored(v, t).current(u) == Some(v),
{
}

/// Once more than the lifetime has passed since a value was stored, reads give
/// `None`, yet the value itself is still held (and `get_expired` returns it).
pub proof fn law_stored_value_expires<T>(m: Model<T>, v: T, t: nat, u: int)
    requires
        u > t + m.max,
    ensures
        m.stored(v, t).current(u) is None,
        m.stored(v, t).value == Some(v),
{
}

/// What a read returns is either nothing or the held value.
pub proof fn law_current_is_held_value<T>(m: Model<T>, t: int)
    requires
        m.wf(),
    ensures
        m.current(t) is None || m.current(t) == m.value,
        m.current(t) is Some <==> m.live_at(t),
{
}

/// Expiry is permanent: a value that cannot be handed out at time `t` cannot
/// be handed out at any later time either, until it is stored again or its
/// timer is reset.
pub proof fn law_expiry_is_permanent<T>(m: Model<T>, t: int, u: int)
    requires
        !m.live_at(t),
        t <= u,
    ensures
        !m.live_at(u),
{
}

/// Reading the clock at time `t` changes nothing that a read at a later time
/// `u` sees, and never drops the held value.
pub proof fn law_check_is_unobservable<T>(m: Model<T>, t: int, u: int)
    requires
        t <= u,
    ensures
        m.checked(t).current(u) == m.current(u),
        m.checked(t).value == m.value,
        m.checked(t).max == m.max,
{
}

/// Reading the clock at `now` (as the `&mut` operations do before they act)
/// never adds, drops or changes the held value and never changes the
/// lifetime. A live value whose timer started at `s` becomes expired exactly
/// when more than the lifetime lies between `s` and `now`, and stays live
/// otherwise; an empty or expired state is left as it is.
pub proof fn law_check_time<T>(m: Model<T>, now: int)
    ensures
        m.checked(now).value == m.value,
        m.checked(now).max == m.max,
        m.phase matches Phase::Live(s) ==> m.checked(now).phase == (if now - s > m.max {
            Phase::Expired
        } else {
            Phase::Live(s)
        }),
        !(m.phase is Live) ==> m.checked(now) == m,
        m.checked(now).phase is Empty <==> m.phase is Empty,
        m.checked(now).phase is Live ==> m.checked(now).phase == m.phase,
{
}

/// After the value was taken, the option is empty: every read, including one
/// that ignores expiry, gives `None`, and a second take gives `None`.
pub proof fn law_taken_is_empty<T>(m: Model<T>, t: int)
    ensures
        m.emptied().current(t) is None,
        m.emptied().value is None,
        m.emptied().emptied() == m.emptied(),
{
}

/// Resetting the timer of a held value at time `t`, expired or not, makes it
/// readable again at every time from `t` up to `t` plus the lifetime.
pub proof fn law_reset_revives<T>(m: Model<T>, t: nat, u: int)
    requires
        m.value is Some,
        m.wf(),
        t <= u <= t + m.max,
    ensures
        m.reset(t).current(u) == m.value,
{
}

/// Resetting the timer of an empty option leaves it empty.
pub proof fn law_reset_of_empty<T>(m: Model<T>, t: nat)
    requires
        m.phase is Empty,
    ensures
        m.reset(t) == m,
{
}

/// Changing the held value in place keeps the timer: what can be read, and
/// when, stays the same, with the new value in place of the old.
pub proof fn law_update_keeps_timer<T>(m: Model<T>, v: T, t: int)
    requires
        m.value is Some,
    ensures
        m.updated(v).live_at(t) == m.live_at(t),
        m.updated(v).live_at(t) ==> m.updated(v).current(t) == Some(v),
{
}

/// Every operation keeps the model well formed: a value is held exactly when
/// the phase is not `Empty`.
pub proof fn law_operations_keep_wf<T>(m: Model<T>, v: T, t: nat, u: int)
    requires
        m.wf(),
    ensures
        m.checked(u).wf(),
        m.stored(v, t).wf(),
        m.emptied().wf(),
        m.reset(t).wf(),
        m.value is Some ==> m.updated(v).wf(),
{
}

/// The lifetime never changes: it is fixed when the option is created.
pub proof fn law_lifetime_is_fixed<T>(m: Model<T>, v: T, t: nat, u: int)
    ensures
        m.checked(u).max == m.max,
        m.stored(v, t).max == m.max,
        m.emptied().max == m.max,
        m.reset(t).max == m.max,
        m.updated(v).max == m.max,
{
}

/// Every operation hands out exactly one result.
proof fn lemma_outputs_len<T>(m: Model<T>, ops: Seq<Op<T>>)
    ensures
        outputs(m, ops).len() == ops.len(),
    decreases ops.len(),
{
    if ops.len() > 0 {
        lemma_outputs_len(step(m, ops[0]), ops.drop_first());
    }
}

/// A fresh option made by `new(v, d)` hands out `v` exactly while at most
/// `d` (in nanoseconds) has passed on its clock, and `None` from then on.
pub proof fn law_new_lives_for_its_lifetime<T>(m: Model<T>, v: T, d: Duration, u: int)
    requires
        m.phase == Phase::Live(0),
        m.value == Some(v),
        m.max == duration_nanos(d),
    ensures
        m.current(u) == (if u <= duration_nanos(d) {
            Some(v)
        } else {
            None
        }),
{
}

/// Calling `get_expired` anywhere in a sequence of operations changes nothing:
/// the state left at the end and what every other operation hands out are the
/// same as without it, and it hands out the value held at that point.
pub proof fn law_get_expired_changes_nothing<T>(m: Model<T>, ops: Seq<Op<T>>, i: int)
    requires
        0 <= i <= ops.len(),
    ensures
        run(m, ops.insert(i, Op::GetExpired)) == run(m, ops),
        outputs(m, ops.insert(i, Op::GetExpired)) == outputs(m, ops).insert(
            i,
            run(m, ops.take(i)).value,
        ),
    decreases ops.len(),
{
    let with = ops.insert(i, Op::GetExpired);
    lemma_outputs_len(m, ops);
    if i == 0 {
        assert(with.drop_first() =~= ops);
        assert(ops.take(0) =~= Seq::<Op<T>>::empty());
        assert(outputs(m, with) =~= outputs(m, ops).insert(0, m.value));
    } else {
        let rest = ops.drop_first();
        assert(with[0] == ops[0]);
        assert(with.drop_first() =~= rest.insert(i - 1, Op::GetExpired));
        law_get_expired_changes_nothing(step(m, ops[0]), rest, i - 1);
        assert(ops.take(i)[0] == ops[0]);
        assert(ops.take(i).drop_first() =~= rest.take(i - 1));
        assert(outputs(m, with) =~= outputs(m, ops).insert(i, run(m, ops.take(i)).value));
    }
}

/// Once a held value cannot be handed out at time `t`, it stays so through
/// any sequence of reads (`get`, `get_mut`, `get_expired`, `get_mut_expired`)
/// made at `t` or later: every timed read gives `None`, every read that
/// ignores expiry gives the held value, and at the end the value is still held
/// and cannot be handed out at `t` or at any later time.
pub proof fn law_expiry_lasts_through_reads<T>(m: Model<T>, ops: Seq<Op<T>>, t: int)
    requires
        m.wf(),
        m.value is Some,
        !m.live_at(t),
        forall|k: int|
            0 <= k < ops.len() ==> (#[trigger] ops[k]).is_read() && (ops[k].time() matches Some(
                s,
            ) ==> s >= t),
    ensures
        run(m, ops).value is Some,
        forall|u: int| u >= t ==> !run(m, ops).live_at(u),
        forall|k: int|
            0 <= k < ops.len() ==> (#[trigger] outputs(m, ops)[k]) == (if ops[k].time() is Some {
                None
            } else {
                run(m, ops.take(k)).value
            }),
    decreases ops.len(),
{
    assert forall|u: int| u >= t implies !m.live_at(u) by {
        law_expiry_is_permanent(m, t, u);
    }
    if ops.len() > 0 {
        let op = ops[0];
        let rest = ops.drop_first();
        let next = step(m, op);
        assert(op.is_read());
        lemma_outputs_len(next, rest);
        assert(next.wf());
        assert(!next.live_at(t));
        assert forall|k: int| 0 <= k < rest.len() implies (#[trigger] rest[k]).is_read() && (
        rest[k].time() matches Some(s) ==> s >= t) by {
            assert(rest[k] == ops[k + 1]);
        }
        law_expiry_lasts_through_reads(next, rest, t);
        assert forall|k: int| 0 <= k < ops.len() implies (#[trigger] outputs(m, ops)[k]) == (
        if ops[k].time() is Some {
            None
        } else {
            run(m, ops.take(k)).value
        }) by {
            if k == 0 {
                assert(ops.take(0) =~= Seq::<Op<T>>::empty());
            } else {
                assert(outputs(m, ops)[k] == outputs(next, rest)[k - 1]);
                assert(rest[k - 1] == ops[k]);
                assert(ops.take(k)[0] == op);
                assert(ops.take(k).drop_first() =~= rest.take(k - 1));
            }
        }
    }
}

} // verus!
