//! The export pipeline's decisions: a bounded queue of finished spans with a
//! drop policy and counters, batching, retry with bounded backoff, and the
//! configuration that sets them. Transmission itself is the caller's.
use vstd::prelude::*;
use crate::span::{Attribute, Span, SpanView};

verus! {

/// Which span goes when a span arrives at a full queue.
#[derive(PartialEq, Eq, Structural, Clone, Copy, Debug)]
pub enum DropPolicy {
    DropOldest,
    DropNewest,
}

pub open spec fn spans_view(s: Seq<Span>) -> Seq<SpanView> {
    Seq::new(s.len(), |i: int| s[i]@)
}

/// `a + b`, stopping at `u64::MAX`.
pub open spec fn sat_add(a: u64, b: nat) -> u64 {
    if a + b > u64::MAX {
        u64::MAX
    } else {
        (a + b) as u64
    }
}

/// Finished spans waiting for export, oldest first.
pub struct ExportQueue {
    spans: Vec<Span>,
    capacity: usize,
    policy: DropPolicy,
    dropped: u64,
    lost: u64,
}

impl ExportQueue {
    pub closed spec fn pending(&self) -> Seq<SpanView> {
        spans_view(self.spans@)
    }

    pub closed spec fn cap(&self) -> nat {
        self.capacity as nat
    }

    pub closed spec fn drop_policy(&self) -> DropPolicy {
        self.policy
    }

    /// Spans refused or evicted because the queue was full.
    pub closed spec fn dropped_count(&self) -> u64 {
        self.dropped
    }

    /// Spans whose batch could not be delivered.
    pub closed spec fn lost_count(&self) -> u64 {
        self.lost
    }

    /// What `enqueue` makes of `self` when `span` arrives: `after`.
    pub open spec fn enqueue_post(self, after: Self, span: SpanView) -> bool {
        &&& after.wf()
        &&& after.cap() == self.cap()
        &&& after.drop_policy() == self.drop_policy()
        &&& after.lost_count() == self.lost_count()
        &&& self.pending().len() < self.cap() ==> {
            &&& after.pending() == self.pending().push(span)
            &&& after.dropped_count() == self.dropped_count()
        }
        &&& self.pending().len() >= self.cap() ==> {
            &&& after.dropped_count() == sat_add(self.dropped_count(), 1)
            &&& self.drop_policy() == DropPolicy::DropNewest ==> after.pending() == self.pending()
            &&& self.drop_policy() == DropPolicy::DropOldest ==> after.pending()
                == self.pending().drop_first().push(span)
        }
    }

    pub closed spec fn wf(&self) -> bool {
        &&& self.capacity > 0
        &&& self.spans@.len() <= self.capacity
    }

    pub fn new(capacity: usize, policy: DropPolicy) -> (r: ExportQueue)
        requires
            capacity > 0,
        ensures
            r.wf(),
            r.pending() == Seq::<SpanView>::empty(),
            r.cap() == capacity,
            r.drop_policy() == policy,
            r.dropped_count() == 0,
            r.lost_count() == 0,
    {
        let r = ExportQueue { spans: Vec::new(), capacity, policy, dropped: 0, lost: 0 };
        assert(r.pending() =~= Seq::<SpanView>::empty());
        r
    }

    pub fn len(&self) -> (r: usize)
        ensures
            r == self.pending().len(),
    {
        self.spans.len()
    }

    pub fn capacity(&self) -> (r: usize)
        ensures
            r == self.cap(),
    {
        self.capacity
    }

    pub fn dropped(&self) -> (r: u64)
        ensures
            r == self.dropped_count(),
    {
        self.dropped
    }

    pub fn lost(&self) -> (r: u64)
        ensures
            r == self.lost_count(),
    {
        self.lost
    }

    /// Adds a finished span without waiting. On a full queue one span is
    /// dropped by the policy (the oldest queued, or this one) and the drop
    /// counter goes up.
    pub fn enqueue(&mut self, span: Span)
        requires
            old(self).wf(),
        ensures
            old(self).enqueue_post(*final(self), span@),
            old(self).pending().len() + 1 == final(self).pending().len() + (
            final(self).dropped_count() - old(self).dropped_count()) || final(self).dropped_count()
                == u64::MAX,
    {
        let ghost before = self.spans@;
        if self.spans.len() < self.capacity {
            self.spans.push(span);
            assert(spans_view(self.spans@) =~= spans_view(before).push(span@));
            return;
        }
        self.dropped = if self.dropped == u64::MAX {
            u64::MAX
        } else {
            self.dropped + 1
        };
        match self.policy {
            DropPolicy::DropNewest => {},
            DropPolicy::DropOldest => {
                self.spans.remove(0);
                self.spans.push(span);
                assert(spans_view(self.spans@) =~= spans_view(before).drop_first().push(span@));
            },
        }
    }

    /// Takes the `max` oldest spans (all of them where fewer wait), in order.
    pub fn take_batch(&mut self, max: usize) -> (r: Vec<Span>)
        requires
            old(self).wf(),
        ensures
            final(self).wf(),
            final(self).cap() == old(self).cap(),
            final(self).drop_policy() == old(self).drop_policy(),
            final(self).dropped_count() == old(self).dropped_count(),
            final(self).lost_count() == old(self).lost_count(),
            ({
                let k = if max < old(self).pending().len() {
                    max as int
                } else {
                    old(self).pending().len() as int
                };
                &&& spans_view(r@) == old(self).pending().subrange(0, k)
                &&& final(self).pending() == old(self).pending().subrange(
                    k,
                    old(self).pending().len() as int,
                )
            }),
    {
        let ghost before = self.spans@;
        let k = if max < self.spans.len() {
            max
        } else {
            self.spans.len()
        };
        let mut batch = self.spans.split_off(k);
        std::mem::swap(&mut batch, &mut self.spans);
        assert(spans_view(batch@) =~= spans_view(before).subrange(0, k as int));
        assert(spans_view(self.spans@) =~= spans_view(before).subrange(k as int, before.len() as int));
        batch
    }

    /// Counts `n` spans of a batch that could not be delivered.
    pub fn record_lost(&mut self, n: usize)
        ensures
            final(self).pending() == old(self).pending(),
            final(self).wf() == old(self).wf(),
            final(self).cap() == old(self).cap(),
            final(self).drop_policy() == old(self).drop_policy(),
            final(self).dropped_count() == old(self).dropped_count(),
            final(self).lost_count() == sat_add(old(self).lost_count(), n as nat),
    {
        self.lost = if self.lost as u128 + n as u128 > u64::MAX as u128 {
            u64::MAX
        } else {
            self.lost + n as u64
        };
    }
}

/// Whether a batch is due: a full batch waits, or some spans have waited
/// for the whole window.
pub open spec fn flush_due(pending: nat, batch_size: nat, waited_ms: nat, window_ms: nat) -> bool {
    pending >= batch_size || (pending > 0 && waited_ms >= window_ms)
}

pub fn should_flush(pending: usize, batch_size: usize, waited_ms: u64, window_ms: u64) -> (r: bool)
    ensures
        r == flush_due(pending as nat, batch_size as nat, waited_ms as nat, window_ms as nat),
{
    pending >= batch_size || (pending > 0 && waited_ms >= window_ms)
}

/// How failed deliveries are retried.
#[derive(PartialEq, Eq, Structural, Clone, Copy, Debug)]
pub struct RetryPolicy {
    /// Deliveries tried per batch in all, the first included.
    pub max_attempts: u32,
    pub base_backoff_ms: u64,
    pub max_backoff_ms: u64,
}

/// The wait before retry number `k + 1`: the base doubled `k` times, capped.
pub open spec fn backoff_ms(base: u64, cap: u64, k: nat) -> u64
    decreases k,
{
    if k == 0 {
        if base <= cap {
            base
        } else {
            cap
        }
    } else {
        let prev = backoff_ms(base, cap, (k - 1) as nat);
        if 2 * prev <= cap {
            (2 * prev) as u64
        } else {
            cap
        }
    }
}

pub fn backoff(policy: &RetryPolicy, k: u32) -> (r: u64)
    ensures
        r == backoff_ms(policy.base_backoff_ms, policy.max_backoff_ms, k as nat),
{
    let cap = policy.max_backoff_ms;
    let mut d: u64 = if policy.base_backoff_ms <= cap {
        policy.base_backoff_ms
    } else {
        cap
    };
    let mut i: u32 = 0;
    while i < k
        invariant
            i <= k,
            cap == policy.max_backoff_ms,
            d == backoff_ms(policy.base_backoff_ms, cap, i as nat),
            d <= cap,
        decreases k - i,
    {
        d = if d <= cap / 2 {
            2 * d
        } else {
            cap
        };
        i = i + 1;
    }
    d
}

/// What to do after a delivery attempt.
#[derive(PartialEq, Eq, Structural, Clone, Copy, Debug)]
pub enum ExportStep {
    /// Delivered: the batch is done.
    Delivered,
    /// Try again after the delay.
    Retry { delay_ms: u64 },
    /// Out of attempts: the batch is discarded and counted as lost.
    GiveUp,
}

pub open spec fn next_step(policy: RetryPolicy, attempts: nat, delivered: bool) -> ExportStep {
    if delivered {
        ExportStep::Delivered
    } else if attempts < policy.max_attempts {
        ExportStep::Retry {
            delay_ms: backoff_ms(policy.base_backoff_ms, policy.max_backoff_ms, (attempts - 1) as nat),
        }
    } else {
        ExportStep::GiveUp
    }
}

/// The step after `attempts` deliveries of a batch were tried, the last
/// with the given outcome.
pub fn after_attempt(policy: &RetryPolicy, attempts: u32, delivered: bool) -> (r: ExportStep)
    requires
        attempts >= 1,
    ensures
        r == next_step(*policy, attempts as nat, delivered),
{
    if delivered {
        ExportStep::Delivered
    } else if attempts < policy.max_attempts {
        ExportStep::Retry { delay_ms: backoff(policy, attempts - 1) }
    } else {
        ExportStep::GiveUp
    }
}

/// The pipeline's settings, checked once at startup.
pub struct ExporterConfig {
    pub endpoint: Vec<u8>,
    pub resource: Vec<Attribute>,
    pub batch_size: usize,
    pub batch_timeout_ms: u64,
    pub queue_capacity: usize,
    pub drop_policy: DropPolicy,
    pub retry: RetryPolicy,
}

#[derive(PartialEq, Eq, Structural, Clone, Copy, Debug)]
pub enum ConfigError {
    EmptyEndpoint,
    ZeroBatchSize,
    ZeroQueueCapacity,
    BatchLargerThanQueue,
    ZeroAttempts,
}

pub const DEFAULT_BATCH_SIZE: usize = 512;

pub const DEFAULT_BATCH_TIMEOUT_MS: u64 = 5000;

pub const DEFAULT_QUEUE_CAPACITY: usize = 2048;

pub const DEFAULT_MAX_ATTEMPTS: u32 = 3;

pub const DEFAULT_BASE_BACKOFF_MS: u64 = 100;

pub const DEFAULT_MAX_BACKOFF_MS: u64 = 5000;

impl ExporterConfig {
    /// The first setting that is out of range, in field order.
    pub open spec fn check(self) -> Result<(), ConfigError> {
        if self.endpoint@.len() == 0 {
            Err(ConfigError::EmptyEndpoint)
        } else if self.batch_size == 0 {
            Err(ConfigError::ZeroBatchSize)
        } else if self.queue_capacity == 0 {
            Err(ConfigError::ZeroQueueCapacity)
        } else if self.batch_size > self.queue_capacity {
            Err(ConfigError::BatchLargerThanQueue)
        } else if self.retry.max_attempts == 0 {
            Err(ConfigError::ZeroAttempts)
        } else {
            Ok(())
        }
    }

    pub fn validate(&self) -> (r: Result<(), ConfigError>)
        ensures
            r == self.check(),
    {
        if self.endpoint.len() == 0 {
            Err(ConfigError::EmptyEndpoint)
        } else if self.batch_size == 0 {
            Err(ConfigError::ZeroBatchSize)
        } else if self.queue_capacity == 0 {
            Err(ConfigError::ZeroQueueCapacity)
        } else if self.batch_size > self.queue_capacity {
            Err(ConfigError::BatchLargerThanQueue)
        } else if self.retry.max_attempts == 0 {
            Err(ConfigError::ZeroAttempts)
        } else {
            Ok(())
        }
    }

    /// The defaults for a collector at `endpoint`: batches of 512 or every
    /// 5 s, 2048 queued spans, newest dropped when full, three attempts with
    /// backoff from 100 ms up to 5 s.
    pub fn with_endpoint(endpoint: Vec<u8>) -> (r: ExporterConfig)
        ensures
            r.endpoint@ == endpoint@,
            r.resource@.len() == 0,
            r.batch_size == DEFAULT_BATCH_SIZE,
            r.batch_timeout_ms == DEFAULT_BATCH_TIMEOUT_MS,
            r.queue_capacity == DEFAULT_QUEUE_CAPACITY,
            r.drop_policy == DropPolicy::DropNewest,
            r.retry == (RetryPolicy {
                max_attempts: DEFAULT_MAX_ATTEMPTS,
                base_backoff_ms: DEFAULT_BASE_BACKOFF_MS,
                max_backoff_ms: DEFAULT_MAX_BACKOFF_MS,
            }),
    {
        ExporterConfig {
            endpoint,
            resource: Vec::new(),
            batch_size: DEFAULT_BATCH_SIZE,
            batch_timeout_ms: DEFAULT_BATCH_TIMEOUT_MS,
            queue_capacity: DEFAULT_QUEUE_CAPACITY,
            drop_policy: DropPolicy::DropNewest,
            retry: RetryPolicy {
                max_attempts: DEFAULT_MAX_ATTEMPTS,
                base_backoff_ms: DEFAULT_BASE_BACKOFF_MS,
                max_backoff_ms: DEFAULT_MAX_BACKOFF_MS,
            },
        }
    }
}

} // verus!
