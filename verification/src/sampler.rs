//! Active-session sampler core: a time-ordered buffer of session samples
//! that one periodic writer appends to and evicts from, and that readers
//! copy out of.
//!
//! Each polling tick yields a batch of captured sessions; the batch is
//! stamped with a single capture timestamp, appended at the tail, and the
//! head is then evicted down to the retention window. A tick whose capture
//! failed is recorded as skipped and leaves the buffer untouched.

use vstd::prelude::*;
use std::collections::VecDeque;

verus! {

/// One snapshot record of a non-idle database backend captured at a
/// specific instant. `sample_time` is in milliseconds since the epoch.
pub struct ActiveSessionSample {
    pub process_id: i32,
    pub user_name: String,
    pub database_name: String,
    pub query_id: i64,
    pub session_state: String,
    pub wait_event_type: String,
    pub wait_event: String,
    pub query_text: String,
    pub backend_type: String,
    pub sample_time: u64,
}

impl Clone for ActiveSessionSample {
    fn clone(&self) -> (r: Self)
        ensures
            r == *self,
    {
        ActiveSessionSample {
            process_id: self.process_id,
            user_name: self.user_name.clone(),
            database_name: self.database_name.clone(),
            query_id: self.query_id,
            session_state: self.session_state.clone(),
            wait_event_type: self.wait_event_type.clone(),
            wait_event: self.wait_event.clone(),
            query_text: self.query_text.clone(),
            backend_type: self.backend_type.clone(),
            sample_time: self.sample_time,
        }
    }
}

/// Sample times never decrease along the buffer.
pub open spec fn time_ordered(s: Seq<ActiveSessionSample>) -> bool {
    forall|a: int, b: int|
        0 <= a <= b < s.len() ==> #[trigger] s[a].sample_time <= #[trigger] s[b].sample_time
}

/// The sample restamped with the tick's shared capture time.
pub open spec fn stamp_one(s: ActiveSessionSample, now: u64) -> ActiveSessionSample {
    ActiveSessionSample { sample_time: now, ..s }
}

/// The whole batch restamped with the tick's shared capture time.
pub open spec fn stamped(batch: Seq<ActiveSessionSample>, now: u64) -> Seq<ActiveSessionSample> {
    batch.map(|i: int, s: ActiveSessionSample| stamp_one(s, now))
}

/// The oldest sample time the retention window keeps at time `now`.
pub open spec fn cutoff_time(now: u64, retention: u64) -> u64 {
    if now >= retention {
        (now - retention) as u64
    } else {
        0
    }
}

/// The samples inside the retention window: those not older than `cutoff`.
pub open spec fn retained(s: Seq<ActiveSessionSample>, cutoff: u64) -> Seq<ActiveSessionSample> {
    s.filter(|x: ActiveSessionSample| x.sample_time >= cutoff)
}

/// In a time-ordered buffer whose first `k` samples are stale and whose
/// rest are not, evicting from the head is the same as keeping exactly the
/// samples inside the window.
proof fn lemma_ordered_filter_is_suffix(s: Seq<ActiveSessionSample>, cutoff: u64, k: int)
    requires
        0 <= k <= s.len(),
        forall|i: int| 0 <= i < k ==> s[i].sample_time < cutoff,
        forall|i: int| k <= i < s.len() ==> s[i].sample_time >= cutoff,
    ensures
        retained(s, cutoff) =~= s.skip(k),
    decreases s.len(),
{
    reveal(Seq::<_>::filter);
    if s.len() == 0 {
        assert(retained(s, cutoff) =~= s.skip(k));
    } else {
        let last = s.last();
        if k == s.len() {
            assert(last.sample_time < cutoff);
            lemma_ordered_filter_is_suffix(s.drop_last(), cutoff, k - 1);
            assert(retained(s, cutoff) =~= retained(s.drop_last(), cutoff));
            assert(retained(s, cutoff) =~= s.skip(k));
        } else {
            assert(last.sample_time >= cutoff);
            lemma_ordered_filter_is_suffix(s.drop_last(), cutoff, k);
            assert(retained(s, cutoff) =~= retained(s.drop_last(), cutoff).push(last));
            assert(s.drop_last().skip(k).push(last) =~= s.skip(k));
        }
    }
}

proof fn lemma_retained_times(s: Seq<ActiveSessionSample>, cutoff: u64)
    ensures
        forall|i: int|
            0 <= i < retained(s, cutoff).len() ==> #[trigger] retained(s, cutoff)[i].sample_time
                >= cutoff,
    decreases s.len(),
{
    reveal(Seq::<_>::filter);
    if s.len() == 0 {
    } else {
        lemma_retained_times(s.drop_last(), cutoff);
        if s.last().sample_time >= cutoff {
            assert(retained(s, cutoff) == retained(s.drop_last(), cutoff).push(s.last()));
        } else {
            assert(retained(s, cutoff) == retained(s.drop_last(), cutoff));
        }
    }
}

/// Law: whatever buffer a tick's append left behind, its eviction pass at
/// capture time `now` keeps no sample older than `now` minus the retention
/// period; a reader's snapshot taken after that tick therefore contains
/// none either.
pub proof fn lemma_retention_window(s: Seq<ActiveSessionSample>, now: u64, retention: u64)
    ensures
        forall|i: int|
            0 <= i < retained(s, cutoff_time(now, retention)).len() ==> #[trigger] retained(
                s,
                cutoff_time(now, retention),
            )[i].sample_time + retention >= now,
{
    lemma_retained_times(s, cutoff_time(now, retention));
}

/// Background sampler state: polling interval, retention window, the
/// time-ordered sample buffer, and a count of ticks skipped on failure.
pub struct ActiveSessionSampler {
    sample_interval_ms: u64,
    retention_period_ms: u64,
    samples: VecDeque<ActiveSessionSample>,
    skipped_ticks: u64,
}

impl ActiveSessionSampler {
    /// The retained samples, oldest first.
    pub closed spec fn buffer(self) -> Seq<ActiveSessionSample> {
        self.samples@
    }

    /// The fixed polling interval, in milliseconds.
    pub closed spec fn sample_interval(self) -> u64 {
        self.sample_interval_ms
    }

    /// The retention window, in milliseconds.
    pub closed spec fn retention(self) -> u64 {
        self.retention_period_ms
    }

    /// How many ticks have been skipped because their capture failed.
    pub closed spec fn skipped(self) -> u64 {
        self.skipped_ticks
    }

    /// The buffer is ordered ascending by sample time.
    pub open spec fn wf(self) -> bool {
        time_ordered(self.buffer())
    }

    pub fn new(sample_interval_ms: u64, retention_period_ms: u64) -> (r: Self)
        ensures
            r.wf(),
            r.sample_interval() == sample_interval_ms,
            r.retention() == retention_period_ms,
            r.buffer() == Seq::<ActiveSessionSample>::empty(),
            r.skipped() == 0,
    {
        let r = ActiveSessionSampler {
            sample_interval_ms,
            retention_period_ms,
            samples: VecDeque::new(),
            skipped_ticks: 0,
        };
        proof {
            assert(r.buffer() =~= Seq::<ActiveSessionSample>::empty());
        }
        r
    }

    /// One successful polling tick: stamps the captured batch with the
    /// tick's capture time `now`, appends it at the tail, then evicts from
    /// the head every sample older than `now` minus the retention period.
    /// Eviction runs whether or not the batch is empty.
    ///
    /// Capture times never run backward across ticks, so `now` is no older
    /// than anything already buffered.
    pub fn record_tick(&mut self, batch: &Vec<ActiveSessionSample>, now: u64)
        requires
            old(self).wf(),
            forall|i: int|
                0 <= i < old(self).buffer().len() ==> old(self).buffer()[i].sample_time <= now,
        ensures
            final(self).wf(),
            final(self).sample_interval() == old(self).sample_interval(),
            final(self).retention() == old(self).retention(),
            final(self).skipped() == old(self).skipped(),
            final(self).buffer() == retained(
                old(self).buffer() + stamped(batch@, now),
                cutoff_time(now, old(self).retention()),
            ),
            forall|i: int|
                0 <= i < final(self).buffer().len() ==> cutoff_time(now, old(self).retention())
                    <= #[trigger] final(self).buffer()[i].sample_time <= now,
    {
        let ghost pre = self.samples@;

        let mut i: usize = 0;
        while i < batch.len()
            invariant
                i <= batch@.len(),
                self.samples@ == pre + stamped(batch@.take(i as int), now),
                self.sample_interval_ms == old(self).sample_interval_ms,
                self.retention_period_ms == old(self).retention_period_ms,
                self.skipped_ticks == old(self).skipped_ticks,
            decreases batch@.len() - i,
        {
            let s = &batch[i];
            let restamped = ActiveSessionSample {
                process_id: s.process_id,
                user_name: s.user_name.clone(),
                database_name: s.database_name.clone(),
                query_id: s.query_id,
                session_state: s.session_state.clone(),
                wait_event_type: s.wait_event_type.clone(),
                wait_event: s.wait_event.clone(),
                query_text: s.query_text.clone(),
                backend_type: s.backend_type.clone(),
                sample_time: now,
            };
            proof {
                assert(restamped == stamp_one(batch@[i as int], now));
            }
            self.samples.push_back(restamped);
            proof {
                assert((pre + stamped(batch@.take(i as int), now)).push(
                    stamp_one(batch@[i as int], now),
                ) =~= pre + stamped(batch@.take(i as int + 1), now));
            }
            i += 1;
        }
        proof {
            assert(batch@.take(batch@.len() as int) =~= batch@);
        }

        let ghost appended = pre + stamped(batch@, now);
        proof {
            assert forall|a: int, b: int| 0 <= a <= b < appended.len() implies appended[a].sample_time
                <= appended[b].sample_time by {
                if b >= pre.len() {
                    assert(appended[b] == stamp_one(batch@[b - pre.len()], now));
                    if a >= pre.len() {
                        assert(appended[a] == stamp_one(batch@[a - pre.len()], now));
                    } else {
                        assert(appended[a] == pre[a]);
                    }
                } else {
                    assert(appended[a] == pre[a] && appended[b] == pre[b]);
                }
            }
        }

        let cutoff: u64 = if now >= self.retention_period_ms {
            now - self.retention_period_ms
        } else {
            0
        };
        let ghost mut k: int = 0;
        while self.samples.len() > 0 && self.samples[0].sample_time < cutoff
            invariant
                time_ordered(appended),
                0 <= k <= appended.len(),
                self.samples@ == appended.skip(k),
                forall|i: int| 0 <= i < k ==> appended[i].sample_time < cutoff,
                cutoff == cutoff_time(now, old(self).retention_period_ms),
                self.sample_interval_ms == old(self).sample_interval_ms,
                self.retention_period_ms == old(self).retention_period_ms,
                self.skipped_ticks == old(self).skipped_ticks,
            decreases self.samples@.len(),
        {
            self.samples.pop_front();
            proof {
                assert(appended.skip(k).subrange(1, appended.skip(k).len() as int) =~= appended.skip(
                    k + 1,
                ));
                k = k + 1;
            }
        }
        proof {
            assert forall|i: int| k <= i < appended.len() implies appended[i].sample_time
                >= cutoff by {
                if self.samples@.len() > 0 {
                    assert(appended[k] == self.samples@[0]);
                    assert(appended[k].sample_time >= cutoff);
                }
            }
            lemma_ordered_filter_is_suffix(appended, cutoff, k);
            assert forall|i: int| 0 <= i < self.samples@.len() implies cutoff
                <= #[trigger] self.samples@[i].sample_time <= now by {
                assert(self.samples@[i] == appended[k + i]);
                if k + i >= pre.len() {
                    assert(appended[k + i] == stamp_one(batch@[k + i - pre.len()], now));
                } else {
                    assert(appended[k + i] == pre[k + i]);
                }
            }
        }
    }

    /// One failed polling tick: the tick's work is discarded, the buffer is
    /// left as it was, and the skip count grows (until it saturates). The
    /// failure is never surfaced to readers and never stops the sampler.
    pub fn record_failed_tick(&mut self)
        ensures
            final(self).buffer() == old(self).buffer(),
            final(self).sample_interval() == old(self).sample_interval(),
            final(self).retention() == old(self).retention(),
            final(self).skipped() == if old(self).skipped() < u64::MAX {
                (old(self).skipped() + 1) as u64
            } else {
                old(self).skipped()
            },
    {
        if self.skipped_ticks < u64::MAX {
            self.skipped_ticks = self.skipped_ticks + 1;
        }
    }

    /// An independent, fully materialized copy of the buffer's current
    /// contents, oldest first. A reader never observes a partially
    /// appended batch: the copy reflects the buffer exactly as some tick
    /// boundary left it.
    pub fn get_recent_samples(&self) -> (r: Vec<ActiveSessionSample>)
        ensures
            r@ == self.buffer(),
    {
        let mut r: Vec<ActiveSessionSample> = Vec::new();
        let mut i: usize = 0;
        while i < self.samples.len()
            invariant
                i <= self.samples@.len(),
                r@ == self.samples@.take(i as int),
            decreases self.samples@.len() - i,
        {
            r.push(self.samples[i].clone());
            proof {
                assert(self.samples@.take(i as int + 1) =~= self.samples@.take(i as int).push(
                    self.samples@[i as int],
                ));
            }
            i += 1;
        }
        proof {
            assert(self.samples@.take(self.samples@.len() as int) =~= self.samples@);
        }
        r
    }

    /// The side channel for the best-effort failure policy: how many ticks
    /// were skipped because their capture failed.
    pub fn skipped_ticks(&self) -> (r: u64)
        ensures
            r == self.skipped(),
    {
        self.skipped_ticks
    }
}

} // verus!
