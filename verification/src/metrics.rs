//! Per-shard gauges and counters the driver reports, modeled as maps from
//! shard id to value.

use vstd::prelude::*;

use crate::assoc::AssocMap;
use crate::types::bump;

verus! {

/// `a + b`, held at the top of the range.
pub open spec fn sat_add(a: u64, b: u64) -> u64 {
    if a + b > 0xffff_ffff_ffff_ffff {
        0xffff_ffff_ffff_ffff as u64
    } else {
        (a + b) as u64
    }
}

/// A per-shard counter or gauge; absent shards read as zero.
pub struct CounterMap {
    m: AssocMap<u64, u64>,
}

impl CounterMap {
    /// The value recorded for a shard.
    pub closed spec fn value(self, shard_id: u64) -> u64 {
        if self.m@.contains_key(shard_id) {
            self.m@[shard_id]
        } else {
            0
        }
    }

    pub fn new() -> (r: CounterMap)
        ensures
            forall|k: u64| #[trigger] r.value(k) == 0,
    {
        CounterMap { m: AssocMap::new() }
    }

    pub fn get(&self, shard_id: u64) -> (r: u64)
        ensures
            r == self.value(shard_id),
    {
        match self.m.get(&shard_id) {
            Some(v) => *v,
            None => 0,
        }
    }

    /// Adds one, held at the top of the range.
    pub fn inc(&mut self, shard_id: u64)
        ensures
            final(self).value(shard_id) == bump(old(self).value(shard_id)),
            forall|k: u64|
                k != shard_id ==> #[trigger] final(self).value(k) == old(self).value(k),
    {
        let cur = self.get(shard_id);
        let next = if cur == 0xffff_ffff_ffff_ffff {
            cur
        } else {
            cur + 1
        };
        self.m.insert(shard_id, next);
    }

    /// Adds `n`, held at the top of the range.
    pub fn add(&mut self, shard_id: u64, n: u64)
        ensures
            final(self).value(shard_id) == sat_add(old(self).value(shard_id), n),
            forall|k: u64|
                k != shard_id ==> #[trigger] final(self).value(k) == old(self).value(k),
    {
        let cur = self.get(shard_id);
        let next = if cur > 0xffff_ffff_ffff_ffff - n {
            0xffff_ffff_ffff_ffff
        } else {
            cur + n
        };
        self.m.insert(shard_id, next);
    }

    /// Sets the gauge.
    pub fn set(&mut self, shard_id: u64, v: u64)
        ensures
            final(self).value(shard_id) == v,
            forall|k: u64|
                k != shard_id ==> #[trigger] final(self).value(k) == old(self).value(k),
    {
        self.m.insert(shard_id, v);
    }
}

/// All metrics the core emits, by shard.
pub struct Metrics {
    /// Current stage of the shard, as its numeric rank.
    pub stage: CounterMap,
    /// Header requests that timed out.
    pub header_timeout: CounterMap,
    /// Header requests that came back in error.
    pub header_error: CounterMap,
    /// Part slots re-armed for retry.
    pub retry_part: CounterMap,
    /// Parts currently done.
    pub parts_done: CounterMap,
    /// Parts the shard needs in total.
    pub parts_total: CounterMap,
    /// Downloaded parts thrown away after a failed finalization.
    pub discard_parts: CounterMap,
    /// External fetches that succeeded.
    pub external_parts_done: CounterMap,
    /// External fetches that failed.
    pub external_parts_failed: CounterMap,
    /// Bytes fetched from external storage.
    pub external_parts_size_downloaded: CounterMap,
}

impl Metrics {
    pub fn new() -> (r: Metrics)
        ensures
            forall|k: u64| #[trigger] r.stage.value(k) == 0,
            forall|k: u64| #[trigger] r.header_timeout.value(k) == 0,
            forall|k: u64| #[trigger] r.header_error.value(k) == 0,
            forall|k: u64| #[trigger] r.retry_part.value(k) == 0,
            forall|k: u64| #[trigger] r.parts_done.value(k) == 0,
            forall|k: u64| #[trigger] r.parts_total.value(k) == 0,
            forall|k: u64| #[trigger] r.discard_parts.value(k) == 0,
            forall|k: u64| #[trigger] r.external_parts_done.value(k) == 0,
            forall|k: u64| #[trigger] r.external_parts_failed.value(k) == 0,
            forall|k: u64| #[trigger] r.external_parts_size_downloaded.value(k) == 0,
    {
        Metrics {
            stage: CounterMap::new(),
            header_timeout: CounterMap::new(),
            header_error: CounterMap::new(),
            retry_part: CounterMap::new(),
            parts_done: CounterMap::new(),
            parts_total: CounterMap::new(),
            discard_parts: CounterMap::new(),
            external_parts_done: CounterMap::new(),
            external_parts_failed: CounterMap::new(),
            external_parts_size_downloaded: CounterMap::new(),
        }
    }
}

} // verus!
