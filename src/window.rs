//! Sliding-window timestamp lists keyed by a string (a principal or an
//! address), with lazy eviction on insert and eager eviction on pruning.
use vstd::hash_map::StringHashMap;
use vstd::prelude::*;

verus! {

/// The timestamps of `s` strictly later than `cutoff`, in their order.
pub open spec fn kept_after(s: Seq<i64>, cutoff: int) -> Seq<i64>
    decreases s.len(),
{
    if s.len() == 0 {
        s
    } else {
        let rest = kept_after(s.drop_last(), cutoff);
        if s.last() > cutoff {
            rest.push(s.last())
        } else {
            rest
        }
    }
}

/// A window list after recording `ts`: the entries older than the window
/// (`t <= ts - w`) are evicted and `ts` is appended.
pub open spec fn window_after(s: Seq<i64>, ts: i64, w: i64) -> Seq<i64> {
    kept_after(s, ts - w).push(ts)
}

/// Pre-increment count: entries of `s` inside the window `(ts - w, ts]`
/// as eviction sees it, before `ts` itself is added.
pub open spec fn count_in_window(s: Seq<i64>, ts: i64, w: i64) -> nat {
    kept_after(s, ts - w).len()
}

/// The window list of `key`, empty when the key was never seen.
pub open spec fn stamps_of(m: Map<Seq<char>, Seq<i64>>, key: Seq<char>) -> Seq<i64> {
    if m.contains_key(key) {
        m[key]
    } else {
        Seq::empty()
    }
}

/// Every list pruned against `cutoff`; keys left with no entry are dropped.
pub open spec fn pruned_index(m: Map<Seq<char>, Seq<i64>>, cutoff: int) -> Map<
    Seq<char>,
    Seq<i64>,
> {
    Map::new(
        |k: Seq<char>| m.contains_key(k) && kept_after(m[k], cutoff).len() > 0,
        |k: Seq<char>| kept_after(m[k], cutoff),
    )
}

pub proof fn lemma_kept_after_bounded(s: Seq<i64>, cutoff: int)
    ensures
        kept_after(s, cutoff).len() <= s.len(),
        forall|i: int|
            0 <= i < kept_after(s, cutoff).len() ==> #[trigger] kept_after(s, cutoff)[i] > cutoff,
    decreases s.len(),
{
    if s.len() > 0 {
        lemma_kept_after_bounded(s.drop_last(), cutoff);
    }
}

/// Timestamps of one key.
#[derive(Debug, Clone)]
struct WindowEntry {
    timestamps: Vec<i64>,
}

impl WindowEntry {
    fn new() -> (r: Self)
        ensures
            r.timestamps@ == Seq::<i64>::empty(),
    {
        WindowEntry { timestamps: Vec::new() }
    }

    /// Keeps only the timestamps later than `cutoff`.
    fn prune(&mut self, cutoff: i128)
        ensures
            final(self).timestamps@ == kept_after(old(self).timestamps@, cutoff as int),
    {
        let mut kept: Vec<i64> = Vec::new();
        let n = self.timestamps.len();
        let mut i: usize = 0;
        while i < n
            invariant
                n == self.timestamps@.len(),
                i <= n,
                self.timestamps@ == old(self).timestamps@,
                kept@ == kept_after(self.timestamps@.take(i as int), cutoff as int),
            decreases n - i,
        {
            let t = self.timestamps[i];
            if t as i128 > cutoff {
                kept.push(t);
            }
            proof {
                assert(self.timestamps@.take(i + 1).drop_last() =~= self.timestamps@.take(
                    i as int,
                ));
            }
            i += 1;
        }
        proof {
            assert(self.timestamps@.take(n as int) =~= self.timestamps@);
        }
        self.timestamps = kept;
    }

    /// Evicts the timestamps outside the window ending at `timestamp`, then
    /// records `timestamp`.
    fn add_and_prune(&mut self, timestamp: i64, window_seconds: i64)
        ensures
            final(self).timestamps@ == window_after(
                old(self).timestamps@,
                timestamp,
                window_seconds,
            ),
    {
        let cutoff: i128 = timestamp as i128 - window_seconds as i128;
        self.prune(cutoff);
        self.timestamps.push(timestamp);
    }

    fn count(&self) -> (r: usize)
        ensures
            r == self.timestamps@.len(),
    {
        self.timestamps.len()
    }
}

/// Window lists keyed by string, with the list of keys kept beside the map
/// so that every entry can be visited when pruning.
pub struct WindowIndex {
    entries: StringHashMap<WindowEntry>,
    keys: Vec<String>,
}

impl View for WindowIndex {
    type V = Map<Seq<char>, Seq<i64>>;

    closed spec fn view(&self) -> Map<Seq<char>, Seq<i64>> {
        self.entries@.map_values(|e: WindowEntry| e.timestamps@)
    }
}

impl WindowIndex {
    /// Every key of the map is listed, and every listed key is in the map.
    pub closed spec fn wf(&self) -> bool {
        &&& forall|i: int|
            0 <= i < self.keys@.len() ==> self.entries@.contains_key(#[trigger] self.keys@[i]@)
        &&& forall|k: Seq<char>|
            #[trigger] self.entries@.contains_key(k) ==> exists|i: int|
                0 <= i < self.keys@.len() && self.keys@[i]@ == k
    }

    pub fn new() -> (r: Self)
        ensures
            r.wf(),
            r@ == Map::<Seq<char>, Seq<i64>>::empty(),
    {
        let r = WindowIndex { entries: StringHashMap::new(), keys: Vec::new() };
        assert(r@ =~= Map::<Seq<char>, Seq<i64>>::empty());
        r
    }

    /// Number of timestamps stored for `key`.
    pub fn count(&self, key: &str) -> (r: usize)
        ensures
            r == stamps_of(self@, key@).len(),
    {
        match self.entries.get(key) {
            Some(e) => e.count(),
            None => 0,
        }
    }

    /// Records `timestamp` for `key` after evicting what left the window;
    /// returns the number of timestamps now stored for `key`.
    pub fn record(&mut self, key: &String, timestamp: i64, window_seconds: i64) -> (r: usize)
        requires
            old(self).wf(),
        ensures
            final(self).wf(),
            final(self)@ == old(self)@.insert(
                key@,
                window_after(stamps_of(old(self)@, key@), timestamp, window_seconds),
            ),
            r == window_after(stamps_of(old(self)@, key@), timestamp, window_seconds).len(),
    {
        let mut entry = match self.entries.get(key.as_str()) {
            Some(e) => WindowEntry { timestamps: e.timestamps.clone() },
            None => WindowEntry::new(),
        };
        let fresh = !self.entries.contains_key(key.as_str());
        entry.add_and_prune(timestamp, window_seconds);
        let r = entry.count();
        self.entries.insert(key.clone(), entry);
        if fresh {
            self.keys.push(key.clone());
        }
        proof {
            assert(self@ =~= old(self)@.insert(
                key@,
                window_after(stamps_of(old(self)@, key@), timestamp, window_seconds),
            ));
            assert forall|k: Seq<char>| #[trigger] self.entries@.contains_key(k) implies exists|
                i: int,
            |
                0 <= i < self.keys@.len() && self.keys@[i]@ == k by {
                if k != key@ {
                    assert(old(self).entries@.contains_key(k));
                    let i = choose|i: int| 0 <= i < old(self).keys@.len() && old(self).keys@[i]@ == k;
                    assert(self.keys@[i] == old(self).keys@[i]);
                } else if fresh {
                    assert(self.keys@[self.keys@.len() - 1]@ == k);
                } else {
                    assert(old(self).entries@.contains_key(k));
                    let i = choose|i: int| 0 <= i < old(self).keys@.len() && old(self).keys@[i]@ == k;
                    assert(self.keys@[i] == old(self).keys@[i]);
                }
            }
        }
        r
    }

    /// Evicts from every list the timestamps not later than `cutoff`, and
    /// drops the keys left empty.
    pub fn prune(&mut self, cutoff: i128)
        requires
            old(self).wf(),
        ensures
            final(self).wf(),
            final(self)@ == pruned_index(old(self)@, cutoff as int),
    {
        let mut entries: StringHashMap<WindowEntry> = StringHashMap::new();
        let mut keys: Vec<String> = Vec::new();
        let n = self.keys.len();
        let mut i: usize = 0;
        while i < n
            invariant
                n == self.keys@.len(),
                i <= n,
                self.wf(),
                self@ == old(self)@,
                forall|j: int|
                    0 <= j < keys@.len() ==> entries@.contains_key(#[trigger] keys@[j]@),
                forall|k: Seq<char>|
                    #[trigger] entries@.contains_key(k) ==> exists|j: int|
                        0 <= j < keys@.len() && keys@[j]@ == k,
                forall|k: Seq<char>| #[trigger]
                    entries@.contains_key(k) ==> (self@.contains_key(k) && kept_after(
                        self@[k],
                        cutoff as int,
                    ).len() > 0 && entries@[k].timestamps@ == kept_after(self@[k], cutoff as int)),
                forall|j: int|
                    0 <= j < i ==> (kept_after(#[trigger] self@[self.keys@[j]@], cutoff as int).len()
                        > 0 ==> entries@.contains_key(self.keys@[j]@)),
            decreases n - i,
        {
            let key = &self.keys[i];
            match self.entries.get(key.as_str()) {
                Some(e) => {
                    assert(self@[key@] == e.timestamps@);
                    let mut pruned = WindowEntry { timestamps: e.timestamps.clone() };
                    assert(pruned.timestamps@ == e.timestamps@);
                    pruned.prune(cutoff);
                    if pruned.timestamps.len() > 0 && !entries.contains_key(key.as_str()) {
                        let ghost prev_keys = keys@;
                        let ghost prev_entries = entries@;
                        entries.insert(key.clone(), pruned);
                        keys.push(key.clone());
                        proof {
                            assert(keys@[keys@.len() - 1]@ == key@);
                            assert forall|k: Seq<char>| #[trigger]
                                entries@.contains_key(k) implies exists|j: int|
                                0 <= j < keys@.len() && keys@[j]@ == k by {
                                if k != key@ {
                                    assert(prev_entries.contains_key(k));
                                    let j = choose|j: int|
                                        0 <= j < prev_keys.len() && prev_keys[j]@ == k;
                                    assert(keys@[j] == prev_keys[j]);
                                }
                            }
                        }
                    }
                },
                None => {},
            }
            i += 1;
        }
        let ghost old_view = self@;
        let ghost new_keys = keys@;
        let ghost new_entries = entries@;
        proof {
            assert forall|k: Seq<char>| #[trigger] pruned_index(old_view, cutoff as int).contains_key(
                k,
            ) implies entries@.contains_key(k) by {
                let j = choose|j: int| 0 <= j < self.keys@.len() && self.keys@[j]@ == k;
                assert(kept_after(self@[self.keys@[j]@], cutoff as int).len() > 0);
            }
        }
        self.entries = entries;
        self.keys = keys;
        proof {
            assert(self@ =~= pruned_index(old_view, cutoff as int));
            assert forall|k: Seq<char>| #[trigger] self.entries@.contains_key(k) implies exists|
                i: int,
            |
                0 <= i < self.keys@.len() && self.keys@[i]@ == k by {
                assert(new_entries.contains_key(k));
                let j = choose|j: int| 0 <= j < new_keys.len() && new_keys[j]@ == k;
                assert(self.keys@[j]@ == k);
            }
        }
    }

    pub fn clear(&mut self)
        ensures
            final(self).wf(),
            final(self)@ == Map::<Seq<char>, Seq<i64>>::empty(),
    {
        self.entries.clear();
        self.keys.clear();
        proof {
            assert(self@ =~= Map::<Seq<char>, Seq<i64>>::empty());
        }
    }
}

} // verus!
