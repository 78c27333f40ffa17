//! Scenario tests for the work-dispatch queue: delivery, the visibility
//! window, terminal statuses, idempotent acknowledgement and age-based
//! expiry.

use plugin_work_queue::queue::{
    ExecutionQueue, PluginWorkQueue, PluginId, Status, LEASE_VISIBILITY_SECONDS,
    MESSAGE_EXPIRY_SECONDS,
};

const NOW: i64 = 1_000_000;

#[test]
fn enqueue_lease_retry_cycle() {
    // Enqueue one message, lease it (try_count 0), see the queue empty while
    // the visibility window holds, and lease it again (try_count 1) after the
    // window elapses.
    let mut q = ExecutionQueue::new();
    let plugin = PluginId(42);
    let key = q.enqueue(plugin, vec![1, 2, 3], NOW);

    let first = q.lease(plugin, NOW).expect("a fresh message must be leased");
    assert_eq!(first.request.execution_key.0, key.0);
    assert_eq!(first.request.plugin_id, plugin);
    assert_eq!(first.request.pipeline_message, vec![1, 2, 3]);
    let row = q.row_for_key(key).expect("the row persists");
    assert_eq!(row.try_count, 0);

    assert!(q.lease(plugin, NOW).is_none(), "leased row must be invisible");
    assert!(
        q.lease(plugin, NOW + LEASE_VISIBILITY_SECONDS - 1).is_none(),
        "still invisible one second before the window ends"
    );

    let second = q
        .lease(plugin, NOW + LEASE_VISIBILITY_SECONDS)
        .expect("the row becomes eligible again once the window elapses");
    assert_eq!(second.request.execution_key.0, key.0);
    let row = q.row_for_key(key).expect("the row persists");
    assert_eq!(row.try_count, 1);
}

#[test]
fn processed_message_never_leased_again() {
    let mut q = ExecutionQueue::new();
    let plugin = PluginId(7);
    let key = q.enqueue(plugin, b"event".to_vec(), NOW);
    q.acknowledge(key, Status::Processed, NOW + 1);
    assert!(q.lease(plugin, NOW + 2).is_none());
    assert!(q.lease(plugin, NOW + 2 * LEASE_VISIBILITY_SECONDS).is_none());
}

#[test]
fn failed_message_never_leased_again() {
    let mut q = ExecutionQueue::new();
    let plugin = PluginId(7);
    let key = q.enqueue(plugin, b"event".to_vec(), NOW);
    q.acknowledge(key, Status::Failed, NOW + 1);
    assert!(q.lease(plugin, NOW + 2).is_none());
    assert!(q.lease(plugin, NOW + 2 * LEASE_VISIBILITY_SECONDS).is_none());
}

#[test]
fn ten_leases_at_one_instant_get_ten_distinct_messages() {
    // Ten distinct messages, ten leases at the same instant: every lease
    // succeeds, no key is handed out twice, and an eleventh lease is empty.
    let mut q = ExecutionQueue::new();
    let plugin = PluginId(9);
    for i in 0..10u8 {
        q.enqueue(plugin, vec![i], NOW);
    }
    let mut keys: Vec<i64> = Vec::new();
    for _ in 0..10 {
        let m = q.lease(plugin, NOW).expect("each of the ten leases wins a row");
        keys.push(m.request.execution_key.0);
    }
    keys.sort();
    keys.dedup();
    assert_eq!(keys.len(), 10, "all ten execution keys are distinct");
    assert!(q.lease(plugin, NOW).is_none(), "the eleventh lease sees nothing");
}

#[test]
fn rows_older_than_one_day_are_never_leased() {
    // A row two days old, still Enqueued and visible, is permanently skipped.
    let mut q = ExecutionQueue::new();
    let plugin = PluginId(3);
    let two_days_ago = NOW - 2 * MESSAGE_EXPIRY_SECONDS;
    q.enqueue_at(plugin, b"stale".to_vec(), two_days_ago);
    assert!(q.lease(plugin, NOW).is_none());
}

#[test]
fn expiry_boundary_is_exactly_one_day() {
    let mut q = ExecutionQueue::new();
    let plugin = PluginId(3);
    let key = q.enqueue_at(plugin, b"old".to_vec(), NOW - MESSAGE_EXPIRY_SECONDS);
    let leased = q.lease(plugin, NOW).expect("a row exactly one day old is still eligible");
    assert_eq!(leased.request.execution_key.0, key.0);

    let mut q2 = ExecutionQueue::new();
    q2.enqueue_at(plugin, b"older".to_vec(), NOW - MESSAGE_EXPIRY_SECONDS - 1);
    assert!(q2.lease(plugin, NOW).is_none(), "one second past the cutoff is too old");
}

#[test]
fn oldest_eligible_row_is_leased_first() {
    let mut q = ExecutionQueue::new();
    let plugin = PluginId(5);
    q.enqueue_at(plugin, b"younger".to_vec(), NOW - 10);
    let older = q.enqueue_at(plugin, b"older".to_vec(), NOW - 500);
    let m = q.lease(plugin, NOW).expect("something is eligible");
    assert_eq!(m.request.execution_key.0, older.0);
    assert_eq!(m.request.pipeline_message, b"older".to_vec());
}

#[test]
fn lease_only_returns_rows_of_the_requested_plugin() {
    let mut q = ExecutionQueue::new();
    q.enqueue(PluginId(1), b"one".to_vec(), NOW);
    assert!(q.lease(PluginId(2), NOW).is_none());
    let m = q.lease(PluginId(1), NOW).expect("the right plugin finds its message");
    assert_eq!(m.request.plugin_id, PluginId(1));
}

#[test]
fn repeated_processed_ack_keeps_last_updated() {
    let mut q = ExecutionQueue::new();
    let plugin = PluginId(11);
    let key = q.enqueue(plugin, b"m".to_vec(), NOW);
    q.acknowledge(key, Status::Processed, NOW + 5);
    let first_update = q.row_for_key(key).unwrap().last_updated;
    assert_eq!(first_update, NOW + 5);
    q.acknowledge(key, Status::Processed, NOW + 50);
    q.acknowledge(key, Status::Processed, NOW + 500);
    let row = q.row_for_key(key).unwrap();
    assert_eq!(row.last_updated, first_update, "later acks never touch last_updated");
    assert_eq!(row.current_status, Status::Processed);
}

#[test]
fn ack_after_failure_keeps_failed_status() {
    // Terminal states never change, whichever terminal ack comes later.
    let mut q = ExecutionQueue::new();
    let plugin = PluginId(11);
    let key = q.enqueue(plugin, b"m".to_vec(), NOW);
    q.acknowledge(key, Status::Failed, NOW + 5);
    q.acknowledge(key, Status::Processed, NOW + 6);
    let row = q.row_for_key(key).unwrap();
    assert_eq!(row.current_status, Status::Failed);
    assert_eq!(row.last_updated, NOW + 5);
}

#[test]
fn ack_of_unknown_key_is_a_quiet_no_op() {
    let mut q = ExecutionQueue::new();
    let plugin = PluginId(13);
    let key = q.enqueue(plugin, b"m".to_vec(), NOW);
    q.acknowledge(plugin_work_queue::queue::ExecutionId(999), Status::Processed, NOW + 1);
    let row = q.row_for_key(key).unwrap();
    assert_eq!(row.current_status, Status::Enqueued);
    assert_eq!(row.last_updated, NOW);
    assert!(q.row_for_key(plugin_work_queue::queue::ExecutionId(999)).is_none());
}

#[test]
fn try_count_starts_at_minus_one_and_counts_leases() {
    let mut q = ExecutionQueue::new();
    let plugin = PluginId(21);
    let key = q.enqueue(plugin, b"m".to_vec(), NOW);
    assert_eq!(q.row_for_key(key).unwrap().try_count, -1, "never leased");
    let mut t = NOW;
    for expected in 0..5i64 {
        q.lease(plugin, t).expect("eligible again");
        assert_eq!(q.row_for_key(key).unwrap().try_count, expected);
        t += LEASE_VISIBILITY_SECONDS;
    }
}

#[test]
fn generator_and_analyzer_partitions_are_independent() {
    let mut client = PluginWorkQueue::new();
    let plugin = PluginId(77);
    let gen_key = client.put_generator_message(plugin, b"raw-event".to_vec(), NOW);
    assert!(client.get_analyzer_message(plugin, NOW).is_none());
    let m = client.get_generator_message(plugin, NOW).expect("the generator queue has it");
    assert_eq!(m.request.execution_key.0, gen_key.0);

    let ana_key = client.put_analyzer_message(plugin, b"update".to_vec(), NOW);
    let m = client.get_analyzer_message(plugin, NOW).expect("the analyzer queue has it");
    assert_eq!(m.request.execution_key.0, ana_key.0);
    client.ack_analyzer(ana_key, Status::Processed, NOW + 1);
    client.ack_generator(gen_key, Status::Failed, NOW + 1);
    assert!(client.get_generator_message(plugin, NOW + LEASE_VISIBILITY_SECONDS).is_none());
    assert!(client.get_analyzer_message(plugin, NOW + LEASE_VISIBILITY_SECONDS).is_none());
}

#[test]
fn single_eligible_row_is_delivered_exactly_once() {
    // Exactly one eligible row; two back-to-back leases at one instant yield
    // one message and one empty result.
    let mut q = ExecutionQueue::new();
    let plugin = PluginId(31);
    q.enqueue(plugin, b"only".to_vec(), NOW);
    let winner = q.lease(plugin, NOW);
    let loser = q.lease(plugin, NOW);
    assert!(winner.is_some());
    assert!(loser.is_none());
}

#[test]
fn empty_payload_and_epoch_clock_are_accepted() {
    let mut q = ExecutionQueue::new();
    let plugin = PluginId(0);
    let key = q.enqueue(plugin, Vec::new(), 0);
    let m = q.lease(plugin, 0).expect("eligible immediately at its creation instant");
    assert_eq!(m.request.execution_key.0, key.0);
    assert!(m.request.pipeline_message.is_empty());
}

#[test]
fn duplicate_enqueues_create_distinct_rows() {
    // No deduplication: the same payload enqueued twice is delivered twice,
    // under two different keys.
    let mut q = ExecutionQueue::new();
    let plugin = PluginId(8);
    let k1 = q.enqueue(plugin, b"same".to_vec(), NOW);
    let k2 = q.enqueue(plugin, b"same".to_vec(), NOW);
    assert_ne!(k1.0, k2.0);
    let m1 = q.lease(plugin, NOW).expect("first copy");
    let m2 = q.lease(plugin, NOW).expect("second copy");
    assert_ne!(m1.request.execution_key.0, m2.request.execution_key.0);
    assert_eq!(m1.request.pipeline_message, m2.request.pipeline_message);
}
