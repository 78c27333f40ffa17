//! The execution-record store: one partition of the durable work-dispatch
//! queue, holding pending and historical execution requests.
//!
//! A row is created by `enqueue`, claimed by `lease` (which hides it from
//! other pollers for a visibility window) and finished by `acknowledge`
//! (which moves it to a terminal status). Retries are driven purely by the
//! visibility window elapsing; there is no explicit re-enqueue.

use vstd::prelude::*;

verus! {

/// How long a freshly leased row stays invisible to other pollers, in seconds.
pub const LEASE_VISIBILITY_SECONDS: i64 = 10;

/// Rows whose creation time is further in the past than this are permanently
/// excluded from leasing (one day), in seconds.
pub const MESSAGE_EXPIRY_SECONDS: i64 = 86400;

/// The status of one execution request.
///
/// `Enqueued` is the initial state and the only state from which a row can be
/// leased; `Processed` and `Failed` are terminal.
#[derive(Clone, Copy, Debug, PartialEq, Eq, Structural)]
pub enum Status {
    Enqueued,
    Failed,
    Processed,
}

impl Status {
    /// A terminal status never changes again.
    pub open spec fn is_terminal(self) -> bool {
        self is Processed || self is Failed
    }
}

/// The store-assigned, immutable identifier of one execution request.
#[derive(Clone, Copy, Debug, PartialEq, Eq, Structural)]
pub struct ExecutionId(pub i64);

impl From<i64> for ExecutionId {
    fn from(id: i64) -> (r: Self) {
        ExecutionId(id)
    }
}

impl vstd::std_specs::convert::FromSpecImpl<i64> for ExecutionId {
    open spec fn obeys_from_spec() -> bool {
        true
    }

    open spec fn from_spec(id: i64) -> Self {
        ExecutionId(id)
    }
}

impl From<ExecutionId> for i64 {
    fn from(id: ExecutionId) -> (r: Self) {
        id.0
    }
}

impl vstd::std_specs::convert::FromSpecImpl<ExecutionId> for i64 {
    open spec fn obeys_from_spec() -> bool {
        true
    }

    open spec fn from_spec(id: ExecutionId) -> Self {
        id.0
    }
}

/// The target plugin of an execution request, as the 128-bit value of its
/// UUID. Callers that hold a UUID convert it with `as_u128`/`from_u128`.
#[derive(Clone, Copy, Debug, PartialEq, Eq, Structural)]
pub struct PluginId(pub u128);

/// One durable row of a queue partition.
#[derive(Debug)]
pub struct ExecutionRow {
    pub execution_key: ExecutionId,
    pub plugin_id: PluginId,
    pub pipeline_message: Vec<u8>,
    pub current_status: Status,
    pub try_count: i64,
    pub creation_time: i64,
    pub last_updated: i64,
    pub visible_after: i64,
}

/// The prior field values of a freshly leased row, handed to the poller.
#[derive(Clone, Debug)]
pub struct NextExecutionRequest {
    pub execution_key: ExecutionId,
    pub plugin_id: PluginId,
    pub pipeline_message: Vec<u8>,
}

/// A leased message.
#[derive(Clone, Debug)]
pub struct Message {
    pub request: NextExecutionRequest,
}

/// A row may be leased exactly when it targets the requested plugin, is still
/// `Enqueued`, its visibility window has elapsed, and it is no more than
/// `MESSAGE_EXPIRY_SECONDS` old.
pub open spec fn eligible(r: ExecutionRow, plugin_id: PluginId, now: i64) -> bool {
    &&& r.plugin_id == plugin_id
    &&& r.current_status is Enqueued
    &&& r.visible_after <= now
    &&& r.creation_time >= now - MESSAGE_EXPIRY_SECONDS
}

/// The row `r` after a successful lease at time `now`: one more try, hidden
/// until `now + LEASE_VISIBILITY_SECONDS`; all other fields unchanged.
pub open spec fn spec_leased(r: ExecutionRow, now: i64) -> ExecutionRow {
    ExecutionRow {
        try_count: (r.try_count + 1) as i64,
        last_updated: now,
        visible_after: (now + LEASE_VISIBILITY_SECONDS) as i64,
        ..r
    }
}

/// The row `r` after a first acknowledgement at time `now`: the terminal
/// status is recorded and `last_updated` advances; all other fields unchanged.
pub open spec fn spec_acked(r: ExecutionRow, status: Status, now: i64) -> ExecutionRow {
    ExecutionRow { current_status: status, last_updated: now, ..r }
}

/// One partition of the work queue: generator plugins and analyzer plugins
/// each get one, with identical behaviour and no interleaving.
#[derive(Debug)]
pub struct ExecutionQueue {
    rows: Vec<ExecutionRow>,
    next_key: i64,
}

impl ExecutionQueue {
    /// The rows of the partition, oldest insertion first.
    pub closed spec fn rows(self) -> Seq<ExecutionRow> {
        self.rows@
    }

    /// The key the next enqueued row will receive.
    pub closed spec fn next_key(self) -> i64 {
        self.next_key
    }

    /// Well-formedness: keys are assigned from a strictly increasing counter
    /// (so they are unique and never reused), try counts start at -1, and all
    /// timestamps are non-negative.
    pub open spec fn wf(self) -> bool {
        wf_rows(self.rows(), self.next_key())
    }

    pub fn new() -> (q: Self)
        ensures
            q.wf(),
            q.rows() =~= Seq::<ExecutionRow>::empty(),
            q.next_key() == 1,
    {
        ExecutionQueue { rows: Vec::new(), next_key: 1 }
    }

    /// Append a new execution request whose `creation_time` (and initial
    /// `last_updated` and `visible_after`) is `creation_time`. The row is
    /// immediately lease-eligible once `creation_time` has passed and starts
    /// with `try_count == -1` ("never leased"). Returns the store-assigned key.
    pub fn enqueue_at(
        &mut self,
        plugin_id: PluginId,
        pipeline_message: Vec<u8>,
        creation_time: i64,
    ) -> (key: ExecutionId)
        requires
            old(self).wf(),
            creation_time >= 0,
            old(self).next_key() < i64::MAX,
        ensures
            final(self).wf(),
            key.0 == old(self).next_key(),
            final(self).next_key() == old(self).next_key() + 1,
            final(self).rows().len() == old(self).rows().len() + 1,
            final(self).rows().subrange(0, old(self).rows().len() as int) =~= old(self).rows(),
            enqueued_row(final(self).rows().last(), key, plugin_id, pipeline_message@, creation_time),
    {
        let key = ExecutionId(self.next_key);
        let row = ExecutionRow {
            execution_key: key,
            plugin_id,
            pipeline_message,
            current_status: Status::Enqueued,
            try_count: -1,
            creation_time,
            last_updated: creation_time,
            visible_after: creation_time,
        };
        self.rows.push(row);
        self.next_key = self.next_key + 1;
        key
    }

    /// Append a new execution request at time `now`: immediately
    /// lease-eligible, never leased. Returns the store-assigned key.
    pub fn enqueue(&mut self, plugin_id: PluginId, pipeline_message: Vec<u8>, now: i64) -> (key:
        ExecutionId)
        requires
            old(self).wf(),
            now >= 0,
            old(self).next_key() < i64::MAX,
        ensures
            final(self).wf(),
            key.0 == old(self).next_key(),
            final(self).next_key() == old(self).next_key() + 1,
            final(self).rows().len() == old(self).rows().len() + 1,
            final(self).rows().subrange(0, old(self).rows().len() as int) =~= old(self).rows(),
            enqueued_row(final(self).rows().last(), key, plugin_id, pipeline_message@, now),
    {
        self.enqueue_at(plugin_id, pipeline_message, now)
    }
}

/// Machine limit: every try count can still be incremented without
/// overflowing its 64-bit counter.
pub open spec fn try_counts_have_headroom(rows: Seq<ExecutionRow>) -> bool {
    forall|i: int| 0 <= i < rows.len() ==> #[trigger] rows[i].try_count < i64::MAX
}

/// Copy a byte vector element by element.
fn copy_bytes(bytes: &Vec<u8>) -> (r: Vec<u8>)
    ensures
        r@ == bytes@,
{
    let mut r: Vec<u8> = Vec::new();
    let n = bytes.len();
    for i in 0..n
        invariant
            n == bytes.len(),
            r@ == bytes@.subrange(0, i as int),
    {
        r.push(bytes[i]);
    }
    proof {
        assert(bytes@.subrange(0, n as int) =~= bytes@);
    }
    r
}

impl ExecutionQueue {
    /// Atomically claim the oldest eligible row for `plugin_id` at time `now`:
    /// its try count rises by exactly one, it becomes invisible until
    /// `now + LEASE_VISIBILITY_SECONDS`, and its prior identifying fields are
    /// returned. Returns `None`, with the partition unchanged, exactly when no
    /// row is eligible — an empty result, never an error.
    pub fn lease(&mut self, plugin_id: PluginId, now: i64) -> (r: Option<Message>)
        requires
            old(self).wf(),
            now >= 0,
            now <= i64::MAX - LEASE_VISIBILITY_SECONDS,
            try_counts_have_headroom(old(self).rows()),
        ensures
            final(self).wf(),
            final(self).next_key() == old(self).next_key(),
            match spec_lease_index(old(self).rows(), plugin_id, now) {
                Some(i) => {
                    &&& r is Some
                    &&& final(self).rows() == old(self).rows().update(
                        i,
                        spec_leased(old(self).rows()[i], now),
                    )
                    &&& r->0.request.execution_key == old(self).rows()[i].execution_key
                    &&& r->0.request.plugin_id == old(self).rows()[i].plugin_id
                    &&& r->0.request.pipeline_message@ == old(self).rows()[i].pipeline_message@
                },
                None => r is None && final(self).rows() == old(self).rows(),
            },
    {
        let ghost rows0 = self.rows@;
        let n = self.rows.len();
        let mut best: Option<usize> = None;
        for i in 0..n
            invariant
                self.rows@ == rows0,
                self.next_key == old(self).next_key(),
                n == rows0.len(),
                now >= 0,
                match best {
                    Some(b) => b < i && spec_lease_index_upto(rows0, plugin_id, now, i as int)
                        == Some(b as int),
                    None => spec_lease_index_upto(rows0, plugin_id, now, i as int) is None,
                },
        {
            let row_plugin = self.rows[i].plugin_id;
            let row_status = self.rows[i].current_status;
            let row_visible = self.rows[i].visible_after;
            let row_created = self.rows[i].creation_time;
            let is_eligible = row_plugin == plugin_id && row_status == Status::Enqueued
                && row_visible <= now && row_created >= now - MESSAGE_EXPIRY_SECONDS;
            if is_eligible {
                best = match best {
                    Some(b) => {
                        if row_created < self.rows[b].creation_time {
                            Some(i)
                        } else {
                            Some(b)
                        }
                    },
                    None => Some(i),
                };
            }
        }
        match best {
            None => None,
            Some(idx) => {
                let key = self.rows[idx].execution_key;
                let target = self.rows[idx].plugin_id;
                let tc = self.rows[idx].try_count;
                let message = copy_bytes(&self.rows[idx].pipeline_message);
                self.rows[idx].try_count = tc + 1;
                self.rows[idx].last_updated = now;
                self.rows[idx].visible_after = now + LEASE_VISIBILITY_SECONDS;
                proof {
                    assert(self.rows@ =~= rows0.update(
                        idx as int,
                        spec_leased(rows0[idx as int], now),
                    ));
                }
                Some(Message { request: NextExecutionRequest {
                    execution_key: key,
                    plugin_id: target,
                    pipeline_message: message,
                } })
            },
        }
    }
}

/// The rows after acknowledging `key` with a terminal `status` at time `now`:
/// a row that is still `Enqueued` under that key takes the terminal status and
/// a fresh `last_updated`; a missing key, or a row that is already terminal,
/// changes nothing.
pub open spec fn spec_ack_rows(
    rows: Seq<ExecutionRow>,
    key: ExecutionId,
    status: Status,
    now: i64,
) -> Seq<ExecutionRow> {
    Seq::new(
        rows.len(),
        |i: int|
            if rows[i].execution_key == key && rows[i].current_status is Enqueued {
                spec_acked(rows[i], status, now)
            } else {
                rows[i]
            },
    )
}

impl ExecutionQueue {
    /// Record a terminal outcome for a previously leased request. Idempotent:
    /// on an unknown key or an already-terminal row this is a no-op, not an
    /// error, and in particular it never disturbs the `last_updated` of the
    /// first successful acknowledgement. There is no way back to `Enqueued`.
    pub fn acknowledge(&mut self, execution_key: ExecutionId, status: Status, now: i64)
        requires
            old(self).wf(),
            now >= 0,
            status.is_terminal(),
        ensures
            final(self).wf(),
            final(self).next_key() == old(self).next_key(),
            final(self).rows() == spec_ack_rows(old(self).rows(), execution_key, status, now),
    {
        let ghost rows0 = self.rows@;
        let n = self.rows.len();
        for i in 0..n
            invariant
                n == rows0.len(),
                self.rows@.len() == rows0.len(),
                now >= 0,
                self.next_key == old(self).next_key(),
                forall|j: int|
                    0 <= j < i ==> self.rows@[j] == spec_ack_rows(
                        rows0,
                        execution_key,
                        status,
                        now,
                    )[j],
                forall|j: int| i <= j < n ==> self.rows@[j] == rows0[j],
        {
            let matches_key = self.rows[i].execution_key == execution_key;
            let is_enqueued = self.rows[i].current_status == Status::Enqueued;
            if matches_key && is_enqueued {
                self.rows[i].current_status = status;
                self.rows[i].last_updated = now;
            }
        }
        proof {
            assert(self.rows@ =~= spec_ack_rows(rows0, execution_key, status, now));
        }
    }

    /// Look up the row with the given key, if any.
    pub fn row_for_key(&self, execution_key: ExecutionId) -> (r: Option<&ExecutionRow>)
        ensures
            (r is Some) <==> exists|i: int|
                0 <= i < self.rows().len() && #[trigger] self.rows()[i].execution_key
                    == execution_key,
            r matches Some(row) ==> exists|i: int|
                0 <= i < self.rows().len() && #[trigger] self.rows()[i].execution_key
                    == execution_key && *row == self.rows()[i],
    {
        let n = self.rows.len();
        for i in 0..n
            invariant
                n == self.rows.len(),
                forall|j: int|
                    0 <= j < i ==> #[trigger] self.rows@[j].execution_key != execution_key,
        {
            if self.rows[i].execution_key == execution_key {
                return Some(&self.rows[i]);
            }
        }
        None
    }
}

/// The enqueue transition between two partition states.
pub open spec fn enqueue_transition(
    pre: ExecutionQueue,
    post: ExecutionQueue,
    plugin_id: PluginId,
    message: Seq<u8>,
    creation_time: i64,
) -> bool {
    &&& post.next_key() == pre.next_key() + 1
    &&& post.rows().len() == pre.rows().len() + 1
    &&& post.rows().subrange(0, pre.rows().len() as int) == pre.rows()
    &&& enqueued_row(
        post.rows().last(),
        ExecutionId(pre.next_key()),
        plugin_id,
        message,
        creation_time,
    )
}

/// The lease transition between two partition states, together with its
/// result.
pub open spec fn lease_transition(
    pre: ExecutionQueue,
    post: ExecutionQueue,
    r: Option<Message>,
    plugin_id: PluginId,
    now: i64,
) -> bool {
    &&& post.next_key() == pre.next_key()
    &&& match spec_lease_index(pre.rows(), plugin_id, now) {
        Some(i) => {
            &&& r is Some
            &&& post.rows() == pre.rows().update(i, spec_leased(pre.rows()[i], now))
            &&& r->0.request.execution_key == pre.rows()[i].execution_key
            &&& r->0.request.plugin_id == pre.rows()[i].plugin_id
            &&& r->0.request.pipeline_message@ == pre.rows()[i].pipeline_message@
        },
        None => r is None && post.rows() == pre.rows(),
    }
}

/// The acknowledge transition between two partition states.
pub open spec fn ack_transition(
    pre: ExecutionQueue,
    post: ExecutionQueue,
    execution_key: ExecutionId,
    status: Status,
    now: i64,
) -> bool {
    &&& post.next_key() == pre.next_key()
    &&& post.rows() == spec_ack_rows(pre.rows(), execution_key, status, now)
}

/// The queue client: one independent partition per plugin kind, never
/// interleaved, with identical behaviour.
#[derive(Debug)]
pub struct PluginWorkQueue {
    pub generator: ExecutionQueue,
    pub analyzer: ExecutionQueue,
}

impl PluginWorkQueue {
    pub open spec fn wf(self) -> bool {
        self.generator.wf() && self.analyzer.wf()
    }

    pub fn new() -> (q: Self)
        ensures
            q.wf(),
            q.generator.rows() =~= Seq::<ExecutionRow>::empty(),
            q.analyzer.rows() =~= Seq::<ExecutionRow>::empty(),
    {
        PluginWorkQueue { generator: ExecutionQueue::new(), analyzer: ExecutionQueue::new() }
    }

    /// Enqueue a generator execution request at time `now`.
    pub fn put_generator_message(
        &mut self,
        plugin_id: PluginId,
        pipeline_message: Vec<u8>,
        now: i64,
    ) -> (key: ExecutionId)
        requires
            old(self).wf(),
            now >= 0,
            old(self).generator.next_key() < i64::MAX,
        ensures
            final(self).wf(),
            key.0 == old(self).generator.next_key(),
            enqueue_transition(
                old(self).generator,
                final(self).generator,
                plugin_id,
                pipeline_message@,
                now,
            ),
            final(self).analyzer == old(self).analyzer,
    {
        self.generator.enqueue(plugin_id, pipeline_message, now)
    }

    /// Enqueue an analyzer execution request at time `now`.
    pub fn put_analyzer_message(
        &mut self,
        plugin_id: PluginId,
        pipeline_message: Vec<u8>,
        now: i64,
    ) -> (key: ExecutionId)
        requires
            old(self).wf(),
            now >= 0,
            old(self).analyzer.next_key() < i64::MAX,
        ensures
            final(self).wf(),
            key.0 == old(self).analyzer.next_key(),
            enqueue_transition(
                old(self).analyzer,
                final(self).analyzer,
                plugin_id,
                pipeline_message@,
                now,
            ),
            final(self).generator == old(self).generator,
    {
        self.analyzer.enqueue(plugin_id, pipeline_message, now)
    }

    /// Lease the oldest eligible generator request for `plugin_id`, or an
    /// empty result when there is none.
    pub fn get_generator_message(&mut self, plugin_id: PluginId, now: i64) -> (r: Option<Message>)
        requires
            old(self).wf(),
            now >= 0,
            now <= i64::MAX - LEASE_VISIBILITY_SECONDS,
            try_counts_have_headroom(old(self).generator.rows()),
        ensures
            final(self).wf(),
            lease_transition(old(self).generator, final(self).generator, r, plugin_id, now),
            final(self).analyzer == old(self).analyzer,
    {
        self.generator.lease(plugin_id, now)
    }

    /// Lease the oldest eligible analyzer request for `plugin_id`, or an
    /// empty result when there is none.
    pub fn get_analyzer_message(&mut self, plugin_id: PluginId, now: i64) -> (r: Option<Message>)
        requires
            old(self).wf(),
            now >= 0,
            now <= i64::MAX - LEASE_VISIBILITY_SECONDS,
            try_counts_have_headroom(old(self).analyzer.rows()),
        ensures
            final(self).wf(),
            lease_transition(old(self).analyzer, final(self).analyzer, r, plugin_id, now),
            final(self).generator == old(self).generator,
    {
        self.analyzer.lease(plugin_id, now)
    }

    /// Record a terminal outcome for a generator request.
    pub fn ack_generator(&mut self, execution_key: ExecutionId, status: Status, now: i64)
        requires
            old(self).wf(),
            now >= 0,
            status.is_terminal(),
        ensures
            final(self).wf(),
            ack_transition(old(self).generator, final(self).generator, execution_key, status, now),
            final(self).analyzer == old(self).analyzer,
    {
        self.generator.acknowledge(execution_key, status, now)
    }

    /// Record a terminal outcome for an analyzer request.
    pub fn ack_analyzer(&mut self, execution_key: ExecutionId, status: Status, now: i64)
        requires
            old(self).wf(),
            now >= 0,
            status.is_terminal(),
        ensures
            final(self).wf(),
            ack_transition(old(self).analyzer, final(self).analyzer, execution_key, status, now),
            final(self).generator == old(self).generator,
    {
        self.analyzer.acknowledge(execution_key, status, now)
    }
}

/// What a freshly enqueued row looks like.
pub open spec fn enqueued_row(
    r: ExecutionRow,
    key: ExecutionId,
    plugin_id: PluginId,
    message: Seq<u8>,
    creation_time: i64,
) -> bool {
    &&& r.execution_key == key
    &&& r.plugin_id == plugin_id
    &&& r.pipeline_message@ == message
    &&& r.current_status is Enqueued
    &&& r.try_count == -1
    &&& r.creation_time == creation_time
    &&& r.last_updated == creation_time
    &&& r.visible_after == creation_time
}

/// The index the lease operation claims among the first `n` rows: the first
/// row with the smallest `creation_time` among the eligible ones, or `None`
/// when none of them is eligible (oldest first, approximating FIFO).
pub open spec fn spec_lease_index_upto(
    rows: Seq<ExecutionRow>,
    plugin_id: PluginId,
    now: i64,
    n: int,
) -> Option<int>
    decreases n,
{
    if n <= 0 {
        None
    } else {
        let prev = spec_lease_index_upto(rows, plugin_id, now, n - 1);
        if eligible(rows[n - 1], plugin_id, now) {
            match prev {
                None => Some(n - 1),
                Some(b) => if rows[n - 1].creation_time < rows[b].creation_time {
                    Some(n - 1)
                } else {
                    Some(b)
                },
            }
        } else {
            prev
        }
    }
}

/// The index the lease operation claims, over the whole partition.
pub open spec fn spec_lease_index(rows: Seq<ExecutionRow>, plugin_id: PluginId, now: i64) -> Option<
    int,
> {
    spec_lease_index_upto(rows, plugin_id, now, rows.len() as int)
}

/// The claimed index is in range, eligible, and has the smallest
/// `creation_time` of any eligible row; it is `None` exactly when no row is
/// eligible.
pub proof fn lemma_lease_index_upto(rows: Seq<ExecutionRow>, plugin_id: PluginId, now: i64, n: int)
    requires
        0 <= n <= rows.len(),
    ensures
        match spec_lease_index_upto(rows, plugin_id, now, n) {
            Some(i) => {
                &&& 0 <= i < n
                &&& eligible(rows[i], plugin_id, now)
                &&& forall|j: int|
                    0 <= j < n && #[trigger] eligible(rows[j], plugin_id, now)
                        ==> rows[i].creation_time <= rows[j].creation_time
            },
            None => forall|j: int| 0 <= j < n ==> !eligible(rows[j], plugin_id, now),
        },
    decreases n,
{
    if n > 0 {
        lemma_lease_index_upto(rows, plugin_id, now, n - 1);
    }
}

/// `spec_lease_index`, with its properties stated over the whole partition.
pub proof fn lemma_lease_index(rows: Seq<ExecutionRow>, plugin_id: PluginId, now: i64)
    ensures
        match spec_lease_index(rows, plugin_id, now) {
            Some(i) => {
                &&& 0 <= i < rows.len()
                &&& eligible(rows[i], plugin_id, now)
                &&& forall|j: int|
                    0 <= j < rows.len() && #[trigger] eligible(rows[j], plugin_id, now)
                        ==> rows[i].creation_time <= rows[j].creation_time
            },
            None => forall|j: int| 0 <= j < rows.len() ==> !eligible(rows[j], plugin_id, now),
        },
{
    lemma_lease_index_upto(rows, plugin_id, now, rows.len() as int);
}

/// Well-formedness of a partition's rows against its key counter.
pub open spec fn wf_rows(rows: Seq<ExecutionRow>, next_key: i64) -> bool {
    &&& forall|i: int, j: int|
        0 <= i < j < rows.len() ==> rows[i].execution_key.0 < rows[j].execution_key.0
    &&& forall|i: int| 0 <= i < rows.len() ==> #[trigger] rows[i].execution_key.0 < next_key
    &&& forall|i: int| 0 <= i < rows.len() ==> #[trigger] rows[i].try_count >= -1
    &&& forall|i: int|
        0 <= i < rows.len() ==> {
            &&& #[trigger] rows[i].creation_time >= 0
            &&& rows[i].last_updated >= 0
            &&& rows[i].visible_after >= 0
        }
    &&& next_key >= 1
}

} // verus!
