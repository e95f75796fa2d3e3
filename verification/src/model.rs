//! The abstract state machine of the counter: the value of `active` after a
//! sequence of operations, and the laws that every such sequence obeys.

use vstd::prelude::*;

verus! {

/// One caller-visible operation on the counter.
pub enum Op {
    TryAcquire,
    Release,
}

/// Whether a new holder may be admitted while `active` slots are held.
pub open spec fn can_admit(active: nat, capacity: nat) -> bool {
    active < capacity
}

/// The counter after one operation. A `TryAcquire` that is not admitted
/// leaves the counter unchanged; a `Release` at zero is caller misuse and is
/// modelled as a no-op (valid traces never contain one).
pub open spec fn counter_step(active: nat, capacity: nat, op: Op) -> nat {
    match op {
        Op::TryAcquire => if can_admit(active, capacity) {
            active + 1
        } else {
            active
        },
        Op::Release => if active > 0 {
            (active - 1) as nat
        } else {
            active
        },
    }
}

/// The counter after running `ops` in order, starting from a fresh semaphore.
pub open spec fn counter_after(ops: Seq<Op>, capacity: nat) -> nat
    decreases ops.len(),
{
    if ops.len() == 0 {
        0
    } else {
        counter_step(counter_after(ops.drop_last(), capacity), capacity, ops.last())
    }
}

/// A trace is valid when every `Release` matches an earlier successful
/// acquisition: no release is issued while the counter is zero.
pub open spec fn valid_trace(ops: Seq<Op>, capacity: nat) -> bool
    decreases ops.len(),
{
    ops.len() == 0 || {
        &&& valid_trace(ops.drop_last(), capacity)
        &&& (ops.last() is Release ==> counter_after(ops.drop_last(), capacity) > 0)
    }
}

/// How many acquisition attempts in `ops` were admitted.
pub open spec fn admitted(ops: Seq<Op>, capacity: nat) -> nat
    decreases ops.len(),
{
    if ops.len() == 0 {
        0
    } else {
        admitted(ops.drop_last(), capacity) + if ops.last() is TryAcquire
            && can_admit(counter_after(ops.drop_last(), capacity), capacity) {
            1nat
        } else {
            0nat
        }
    }
}

/// How many `Release` operations `ops` holds.
pub open spec fn released(ops: Seq<Op>) -> nat
    decreases ops.len(),
{
    if ops.len() == 0 {
        0
    } else {
        released(ops.drop_last()) + if ops.last() is Release {
            1nat
        } else {
            0nat
        }
    }
}

/// The modelled counter never leaves `[0, capacity]`: an acquisition is
/// admitted only below `capacity`, and the counter is a `nat`. The model
/// treats a release at zero as a no-op, so the bound needs no validity
/// premise; the executable counter keeps to the model only on valid traces,
/// where every release matches an earlier admission — an unmatched release
/// wraps it, as the caller contract warns.
pub proof fn lemma_counter_bounded(ops: Seq<Op>, capacity: nat)
    ensures
        counter_after(ops, capacity) <= capacity,
    decreases ops.len(),
{
    if ops.len() > 0 {
        lemma_counter_bounded(ops.drop_last(), capacity);
    }
}

/// At every observable instant along a trace — after every prefix of it —
/// the counter lies in `[0, capacity]`.
pub proof fn lemma_every_prefix_bounded(ops: Seq<Op>, capacity: nat)
    ensures
        forall|i: int|
            0 <= i <= ops.len() ==> #[trigger] counter_after(ops.take(i), capacity) <= capacity,
{
    assert forall|i: int|
        0 <= i <= ops.len() implies #[trigger] counter_after(
        ops.take(i),
        capacity,
    ) <= capacity by {
        lemma_counter_bounded(ops.take(i), capacity);
    }
}

/// Conservation: on a valid trace the counter equals the number of admitted
/// acquisitions not yet matched by a release.
pub proof fn lemma_conservation(ops: Seq<Op>, capacity: nat)
    requires
        valid_trace(ops, capacity),
    ensures
        counter_after(ops, capacity) + released(ops) == admitted(ops, capacity),
    decreases ops.len(),
{
    if ops.len() > 0 {
        lemma_conservation(ops.drop_last(), capacity);
    }
}

/// The semaphore is drained exactly when every admitted acquisition has been
/// matched by a release: after as many releases as admissions the counter is
/// zero, and a zero counter is only reached once every holder has released.
pub proof fn lemma_drained_iff_matched(ops: Seq<Op>, capacity: nat)
    requires
        valid_trace(ops, capacity),
    ensures
        counter_after(ops, capacity) == 0 <==> released(ops) == admitted(ops, capacity),
{
    lemma_conservation(ops, capacity);
}

/// A trace without releases is valid.
pub proof fn lemma_release_free_is_valid(ops: Seq<Op>, capacity: nat)
    requires
        released(ops) == 0,
    ensures
        valid_trace(ops, capacity),
    decreases ops.len(),
{
    if ops.len() > 0 {
        lemma_release_free_is_valid(ops.drop_last(), capacity);
    }
}

/// Without an intervening release, at most `capacity` acquisition attempts
/// are admitted.
pub proof fn lemma_admissions_bounded(ops: Seq<Op>, capacity: nat)
    requires
        released(ops) == 0,
    ensures
        admitted(ops, capacity) <= capacity,
{
    lemma_release_free_is_valid(ops, capacity);
    lemma_conservation(ops, capacity);
    lemma_counter_bounded(ops, capacity);
}

/// Once `capacity` acquisitions have been admitted with no intervening
/// release, the next attempt is refused: it is not admitted and leaves the
/// counter unchanged.
pub proof fn lemma_attempt_at_capacity_fails(ops: Seq<Op>, capacity: nat)
    requires
        released(ops) == 0,
        admitted(ops, capacity) == capacity,
    ensures
        admitted(ops.push(Op::TryAcquire), capacity) == capacity,
        counter_after(ops.push(Op::TryAcquire), capacity) == capacity,
    decreases ops.len(),
{
    lemma_release_free_is_valid(ops, capacity);
    lemma_conservation(ops, capacity);
    lemma_counter_bounded(ops, capacity);
    assert(ops.push(Op::TryAcquire).drop_last() =~= ops);
}

/// An admitted acquisition leaves the counter positive: a drain wait that
/// begins after a re-acquisition sees an active semaphore and must wait for
/// it to drain again.
pub proof fn lemma_admission_blocks_drain(ops: Seq<Op>, capacity: nat)
    requires
        can_admit(counter_after(ops, capacity), capacity),
    ensures
        counter_after(ops.push(Op::TryAcquire), capacity) > 0,
{
    assert(ops.push(Op::TryAcquire).drop_last() =~= ops);
}

} // verus!
