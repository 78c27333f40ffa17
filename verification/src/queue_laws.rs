//! The guarantees of the work-dispatch queue, stated and proved over the spec
//! functions that the queue's contracts use: no duplicate delivery at an
//! instant, monotonic try counts, the visibility window, exclusion of terminal
//! rows, idempotent acknowledgement and age-based expiry.

use vstd::prelude::*;

use crate::queue::{
    ack_transition, eligible, enqueue_transition, lease_transition, spec_ack_rows,
    spec_lease_index, spec_leased, lemma_lease_index, try_counts_have_headroom, ExecutionId,
    ExecutionQueue, ExecutionRow, Message, PluginId, Status, LEASE_VISIBILITY_SECONDS,
    MESSAGE_EXPIRY_SECONDS,
};

verus! {

/// No duplicate delivery at an instant, part one: a successful lease at time
/// `now` removes exactly the claimed row from the set of rows eligible at
/// `now`; every other row's eligibility is untouched.
pub proof fn lemma_lease_removes_exactly_leased(
    rows: Seq<ExecutionRow>,
    plugin_id: PluginId,
    now: i64,
    i: int,
)
    requires
        0 <= now <= i64::MAX - LEASE_VISIBILITY_SECONDS,
        spec_lease_index(rows, plugin_id, now) == Some(i),
    ensures
        0 <= i < rows.len(),
        eligible(rows[i], plugin_id, now),
        !eligible(rows.update(i, spec_leased(rows[i], now))[i], plugin_id, now),
        forall|j: int|
            0 <= j < rows.len() && j != i ==> (eligible(
                #[trigger] rows.update(i, spec_leased(rows[i], now))[j],
                plugin_id,
                now,
            ) <==> eligible(rows[j], plugin_id, now)),
{
    lemma_lease_index(rows, plugin_id, now);
}

/// No duplicate delivery at an instant, part two: for a partition holding
/// exactly one eligible row for a plugin, a lease claims that row, and a
/// second lease at the same instant sees nothing eligible at all. Serialized
/// one after another at one instant, N leases therefore hand out exactly one
/// non-empty result and N-1 empty ones.
pub proof fn lemma_no_duplicate_delivery(
    rows: Seq<ExecutionRow>,
    plugin_id: PluginId,
    now: i64,
    i: int,
)
    requires
        0 <= now <= i64::MAX - LEASE_VISIBILITY_SECONDS,
        0 <= i < rows.len(),
        eligible(rows[i], plugin_id, now),
        forall|j: int| 0 <= j < rows.len() && j != i ==> !eligible(rows[j], plugin_id, now),
    ensures
        spec_lease_index(rows, plugin_id, now) == Some(i),
        spec_lease_index(rows.update(i, spec_leased(rows[i], now)), plugin_id, now) is None,
{
    lemma_lease_index(rows, plugin_id, now);
    let rows2 = rows.update(i, spec_leased(rows[i], now));
    lemma_lease_index(rows2, plugin_id, now);
    lemma_lease_removes_exactly_leased(rows, plugin_id, now, i);
}

/// The visibility window: immediately after a lease at `now` the row is not
/// eligible at any instant before `now + LEASE_VISIBILITY_SECONDS`; once the
/// window has elapsed it is eligible again, as long as it is still within its
/// age window (its status and plugin are untouched by the lease).
pub proof fn lemma_visibility_window(r: ExecutionRow, plugin_id: PluginId, now: i64, t: i64)
    requires
        0 <= now <= i64::MAX - LEASE_VISIBILITY_SECONDS,
        eligible(r, plugin_id, now),
    ensures
        now <= t < now + LEASE_VISIBILITY_SECONDS ==> !eligible(spec_leased(r, now), plugin_id, t),
        t >= now + LEASE_VISIBILITY_SECONDS && r.creation_time >= t - MESSAGE_EXPIRY_SECONDS
            ==> eligible(spec_leased(r, now), plugin_id, t),
{
}

/// Age-based expiry: a row created more than `MESSAGE_EXPIRY_SECONDS` before
/// `now` is never the row a lease claims, whatever its status or visibility.
pub proof fn lemma_age_expiry(rows: Seq<ExecutionRow>, plugin_id: PluginId, now: i64, j: int)
    requires
        0 <= j < rows.len(),
        rows[j].creation_time < now - MESSAGE_EXPIRY_SECONDS,
    ensures
        spec_lease_index(rows, plugin_id, now) != Some(j),
{
    lemma_lease_index(rows, plugin_id, now);
}

/// Terminal exclusion, pointwise: a lease never claims a row whose status is
/// terminal.
pub proof fn lemma_lease_skips_terminal(
    rows: Seq<ExecutionRow>,
    plugin_id: PluginId,
    now: i64,
    j: int,
)
    requires
        0 <= j < rows.len(),
        rows[j].current_status.is_terminal(),
    ensures
        spec_lease_index(rows, plugin_id, now) != Some(j),
{
    lemma_lease_index(rows, plugin_id, now);
}

/// Idempotent acknowledgement: once a key has been acknowledged with a
/// terminal status, acknowledging it again — with any terminal status, at any
/// time — changes nothing; in particular `last_updated` keeps the time of the
/// first successful acknowledgement.
pub proof fn lemma_ack_idempotent(
    rows: Seq<ExecutionRow>,
    key: ExecutionId,
    s1: Status,
    t1: i64,
    s2: Status,
    t2: i64,
)
    requires
        s1.is_terminal(),
        s2.is_terminal(),
    ensures
        spec_ack_rows(spec_ack_rows(rows, key, s1, t1), key, s2, t2) == spec_ack_rows(
            rows,
            key,
            s1,
            t1,
        ),
{
    let once = spec_ack_rows(rows, key, s1, t1);
    assert(spec_ack_rows(once, key, s2, t2) =~= once);
}

/// One logical operation against a partition, as its parameters. The enqueued
/// message and the lease result are quantified away in [`op_step`].
pub enum QueueOp {
    Enqueue { plugin_id: PluginId, creation_time: i64 },
    Lease { plugin_id: PluginId, now: i64 },
    Ack { execution_key: ExecutionId, status: Status, now: i64 },
}

/// The preconditions under which the partition accepts the operation: the
/// bounds the executable operations require.
pub open spec fn op_enabled(pre: ExecutionQueue, op: QueueOp) -> bool {
    match op {
        QueueOp::Enqueue { plugin_id, creation_time } => creation_time >= 0 && pre.next_key()
            < i64::MAX,
        QueueOp::Lease { plugin_id, now } => 0 <= now <= i64::MAX - LEASE_VISIBILITY_SECONDS
            && try_counts_have_headroom(pre.rows()),
        QueueOp::Ack { execution_key, status, now } => now >= 0 && status.is_terminal(),
    }
}

/// The operation takes the partition from `pre` to `post`.
pub open spec fn op_step(pre: ExecutionQueue, post: ExecutionQueue, op: QueueOp) -> bool {
    match op {
        QueueOp::Enqueue { plugin_id, creation_time } => exists|m: Seq<u8>|
            enqueue_transition(pre, post, plugin_id, m, creation_time),
        QueueOp::Lease { plugin_id, now } => exists|r: Option<Message>|
            lease_transition(pre, post, r, plugin_id, now),
        QueueOp::Ack { execution_key, status, now } => ack_transition(
            pre,
            post,
            execution_key,
            status,
            now,
        ),
    }
}

/// Monotonic try counts: across any single queue operation, every row keeps
/// its position and its key, and its try count never decreases; only a lease
/// raises one, and then by exactly 1 on the row it claims.
pub proof fn lemma_try_count_monotonic(pre: ExecutionQueue, post: ExecutionQueue, op: QueueOp)
    requires
        op_enabled(pre, op),
        op_step(pre, post, op),
    ensures
        post.rows().len() >= pre.rows().len(),
        forall|i: int|
            0 <= i < pre.rows().len() ==> #[trigger] post.rows()[i].execution_key
                == pre.rows()[i].execution_key,
        forall|i: int|
            0 <= i < pre.rows().len() ==> #[trigger] post.rows()[i].try_count
                >= pre.rows()[i].try_count,
        forall|i: int|
            0 <= i < pre.rows().len() ==> #[trigger] post.rows()[i].try_count
                <= pre.rows()[i].try_count + 1,
{
    match op {
        QueueOp::Enqueue { plugin_id, creation_time } => {
            let m = choose|m: Seq<u8>| enqueue_transition(pre, post, plugin_id, m, creation_time);
            assert(enqueue_transition(pre, post, plugin_id, m, creation_time));
            assert forall|i: int| 0 <= i < pre.rows().len() implies #[trigger] post.rows()[i]
                == pre.rows()[i] by {
                assert(post.rows().subrange(0, pre.rows().len() as int)[i] == post.rows()[i]);
            }
        },
        QueueOp::Lease { plugin_id, now } => {
            let r = choose|r: Option<Message>| lease_transition(pre, post, r, plugin_id, now);
            assert(lease_transition(pre, post, r, plugin_id, now));
            lemma_lease_index(pre.rows(), plugin_id, now);
        },
        QueueOp::Ack { execution_key, status, now } => {},
    }
}

/// Monotonic try counts along any execution: every row present at the start
/// keeps its position and its key, and its try count never decreases across
/// any sequence of queue operations.
pub proof fn lemma_try_count_monotonic_along_trace(states: Seq<ExecutionQueue>, ops: Seq<QueueOp>)
    requires
        trace_ok(states, ops),
    ensures
        forall|t: int|
            0 <= t < states.len() ==> (#[trigger] states[t]).rows().len()
                >= states[0].rows().len(),
        forall|t: int, i: int|
            0 <= t < states.len() && 0 <= i < states[0].rows().len()
                ==> (#[trigger] states[t].rows()[i]).execution_key
                == states[0].rows()[i].execution_key
                && states[t].rows()[i].try_count >= states[0].rows()[i].try_count,
    decreases ops.len(),
{
    if ops.len() > 0 {
        lemma_try_count_monotonic(states[0], states[1], ops[0]);
        let states2 = states.subrange(1, states.len() as int);
        let ops2 = ops.subrange(1, ops.len() as int);
        assert forall|t: int|
            0 <= t < ops2.len() implies op_enabled(#[trigger] states2[t], ops2[t]) && op_step(
            states2[t],
            states2[t + 1],
            ops2[t],
        ) by {
            assert(states[t + 1] == states2[t]);
            assert(states[t + 2] == states2[t + 1]);
            assert(ops[t + 1] == ops2[t]);
        }
        lemma_try_count_monotonic_along_trace(states2, ops2);
        assert(states2[0] == states[1]);
        assert forall|t: int| 0 <= t < states.len() implies (#[trigger] states[t]).rows().len()
            >= states[0].rows().len() by {
            if t > 0 {
                assert(states2[t - 1] == states[t]);
            }
        }
        assert forall|t: int, i: int|
            0 <= t < states.len() && 0 <= i < states[0].rows().len()
                implies (#[trigger] states[t].rows()[i]).execution_key
                == states[0].rows()[i].execution_key
                && states[t].rows()[i].try_count >= states[0].rows()[i].try_count by {
            if t > 0 {
                assert(states2[t - 1] == states[t]);
                assert(states2[t - 1].rows()[i] == states[t].rows()[i]);
            }
        }
    }
}

/// The key `key` occurs among the partition's rows.
pub open spec fn key_present(q: ExecutionQueue, key: ExecutionId) -> bool {
    exists|i: int| 0 <= i < q.rows().len() && #[trigger] q.rows()[i].execution_key == key
}

/// Every row under `key` carries the status `s`.
pub open spec fn key_has_status(q: ExecutionQueue, key: ExecutionId, s: Status) -> bool {
    forall|i: int|
        0 <= i < q.rows().len() && #[trigger] q.rows()[i].execution_key == key
            ==> q.rows()[i].current_status == s
}

/// One step preserves well-formedness, the presence of a key, and — for a
/// terminal status — the status recorded under the key: there is no
/// transition out of a terminal state.
pub proof fn lemma_step_preserves_terminal(
    pre: ExecutionQueue,
    post: ExecutionQueue,
    op: QueueOp,
    key: ExecutionId,
    s: Status,
)
    requires
        pre.wf(),
        op_enabled(pre, op),
        op_step(pre, post, op),
        s.is_terminal(),
        key_present(pre, key),
        key_has_status(pre, key, s),
    ensures
        post.wf(),
        key_present(post, key),
        key_has_status(post, key, s),
{
    match op {
        QueueOp::Enqueue { plugin_id, creation_time } => {
            let m = choose|m: Seq<u8>| enqueue_transition(pre, post, plugin_id, m, creation_time);
            assert(enqueue_transition(pre, post, plugin_id, m, creation_time));
            assert forall|i: int| 0 <= i < pre.rows().len() implies #[trigger] post.rows()[i]
                == pre.rows()[i] by {
                assert(post.rows().subrange(0, pre.rows().len() as int)[i] == post.rows()[i]);
            }
            let w = choose|i: int|
                0 <= i < pre.rows().len() && #[trigger] pre.rows()[i].execution_key == key;
            assert(post.rows()[w].execution_key == key);
        },
        QueueOp::Lease { plugin_id, now } => {
            let r = choose|r: Option<Message>| lease_transition(pre, post, r, plugin_id, now);
            assert(lease_transition(pre, post, r, plugin_id, now));
            lemma_lease_index(pre.rows(), plugin_id, now);
            let w = choose|i: int|
                0 <= i < pre.rows().len() && #[trigger] pre.rows()[i].execution_key == key;
            assert(post.rows()[w].execution_key == key);
        },
        QueueOp::Ack { execution_key, status, now } => {
            let w = choose|i: int|
                0 <= i < pre.rows().len() && #[trigger] pre.rows()[i].execution_key == key;
            assert(post.rows()[w].execution_key == key);
        },
    }
}

/// A valid execution: `states` has one more entry than `ops`, and each
/// operation is enabled in, and steps from, the state before it.
pub open spec fn trace_ok(states: Seq<ExecutionQueue>, ops: Seq<QueueOp>) -> bool {
    &&& states.len() == ops.len() + 1
    &&& forall|t: int|
        0 <= t < ops.len() ==> op_enabled(#[trigger] states[t], ops[t]) && op_step(
            states[t],
            states[t + 1],
            ops[t],
        )
}

/// Once a row is terminal, it stays terminal through any sequence of queue
/// operations, and the partition stays well-formed.
pub proof fn lemma_terminal_preserved_along_trace(
    states: Seq<ExecutionQueue>,
    ops: Seq<QueueOp>,
    key: ExecutionId,
    s: Status,
)
    requires
        trace_ok(states, ops),
        states[0].wf(),
        s.is_terminal(),
        key_present(states[0], key),
        key_has_status(states[0], key, s),
    ensures
        forall|t: int| 0 <= t < states.len() ==> (#[trigger] states[t]).wf(),
        forall|t: int| 0 <= t < states.len() ==> key_present(#[trigger] states[t], key),
        forall|t: int| 0 <= t < states.len() ==> key_has_status(#[trigger] states[t], key, s),
    decreases ops.len(),
{
    if ops.len() > 0 {
        lemma_step_preserves_terminal(states[0], states[1], ops[0], key, s);
        let states2 = states.subrange(1, states.len() as int);
        let ops2 = ops.subrange(1, ops.len() as int);
        assert forall|t: int|
            0 <= t < ops2.len() implies op_enabled(#[trigger] states2[t], ops2[t]) && op_step(
            states2[t],
            states2[t + 1],
            ops2[t],
        ) by {
            assert(states[t + 1] == states2[t]);
            assert(states[t + 2] == states2[t + 1]);
            assert(ops[t + 1] == ops2[t]);
        }
        lemma_terminal_preserved_along_trace(states2, ops2, key, s);
        assert forall|t: int| 0 <= t < states.len() implies (#[trigger] states[t]).wf()
            && key_present(states[t], key) && key_has_status(states[t], key, s) by {
            if t > 0 {
                assert(states2[t - 1] == states[t]);
            }
        }
    }
}

/// Terminal exclusion: once a row is terminal, no lease in any future of the
/// partition — for any plugin and at any instant — ever claims that key again.
pub proof fn lemma_terminal_exclusion(
    states: Seq<ExecutionQueue>,
    ops: Seq<QueueOp>,
    key: ExecutionId,
    s: Status,
)
    requires
        trace_ok(states, ops),
        states[0].wf(),
        s.is_terminal(),
        key_present(states[0], key),
        key_has_status(states[0], key, s),
    ensures
        forall|t: int, plugin_id: PluginId, now: i64|
            0 <= t < states.len() ==> match #[trigger] spec_lease_index(
                states[t].rows(),
                plugin_id,
                now,
            ) {
                Some(i) => states[t].rows()[i].execution_key != key,
                None => true,
            },
{
    lemma_terminal_preserved_along_trace(states, ops, key, s);
    assert forall|t: int, plugin_id: PluginId, now: i64| 0 <= t < states.len() implies match
        #[trigger] spec_lease_index(states[t].rows(), plugin_id, now) {
        Some(i) => states[t].rows()[i].execution_key != key,
        None => true,
    } by {
        lemma_lease_index(states[t].rows(), plugin_id, now);
        assert(states[t].wf() && key_present(states[t], key) && key_has_status(states[t], key, s));
        let li = spec_lease_index(states[t].rows(), plugin_id, now);
        if li is Some {
            let i: int = li->0;
            if states[t].rows()[i].execution_key == key {
                assert(states[t].rows()[i].current_status == s);
            }
        }
    }
}

} // verus!
