//! Ingress bookkeeping: the bounded set of recently seen request ids, and the
//! heartbeat watchdog.
use crate::text::text_of;
use vstd::prelude::*;

verus! {

/// Smallest number of ids the dedup window keeps.
pub const MIN_RECENT_IDS: usize = 1024;

/// Silence, in milliseconds, after which the upstream producer counts as lost.
pub const HEARTBEAT_TIMEOUT_MS: u64 = 10_000;

/// Recently seen request ids, least recently seen first.
pub struct RecentIds {
    pub ids: Vec<String>,
    pub capacity: usize,
}

/// The window after first seeing `id`: appended, and the least recent id evicted when full.
pub open spec fn window_with(ids: Seq<Seq<char>>, id: Seq<char>, capacity: nat) -> Seq<Seq<char>> {
    if ids.len() + 1 > capacity {
        ids.push(id).remove(0)
    } else {
        ids.push(id)
    }
}

impl RecentIds {
    pub open spec fn texts(&self) -> Seq<Seq<char>> {
        self.ids@.map_values(|s: String| s@)
    }

    pub open spec fn wf(&self) -> bool {
        &&& self.capacity > 0
        &&& self.ids@.len() <= self.capacity
        &&& self.texts().no_duplicates()
    }

    /// An empty window holding up to `capacity` ids.
    pub fn new(capacity: usize) -> (r: Self)
        requires
            capacity > 0,
        ensures
            r.wf(),
            r.texts() == Seq::<Seq<char>>::empty(),
            r.capacity == capacity,
    {
        let r = RecentIds { ids: Vec::new(), capacity };
        assert(r.texts() =~= Seq::<Seq<char>>::empty());
        r
    }

    fn position(&self, key: &String) -> (r: Option<usize>)
        ensures
            r is None <==> !self.texts().contains(key@),
            r matches Some(i) ==> i < self.ids@.len() && self.texts()[i as int] == key@,
    {
        let mut i: usize = 0;
        while i < self.ids.len()
            invariant
                i <= self.ids@.len(),
                forall|j: int| 0 <= j < i ==> #[trigger] self.texts()[j] != key@,
            decreases self.ids@.len() - i,
        {
            if self.ids[i] == *key {
                assert(self.texts()[i as int] == key@);
                return Some(i);
            }
            i = i + 1;
        }
        assert(!self.texts().contains(key@));
        None
    }

    /// Whether `id` was seen recently.
    pub fn contains(&self, id: &str) -> (r: bool)
        ensures
            r == self.texts().contains(id@),
    {
        let key = text_of(id);
        self.position(&key).is_some()
    }

    /// Notes `id` as seen now. Returns whether it is new; a repeated id becomes the most
    /// recently seen.
    pub fn observe(&mut self, id: &str) -> (r: bool)
        requires
            old(self).wf(),
        ensures
            final(self).wf(),
            final(self).capacity == old(self).capacity,
            r == !old(self).texts().contains(id@),
            final(self).texts().contains(id@),
            r ==> final(self).texts() == window_with(old(self).texts(), id@, old(self).capacity as nat),
            !r ==> exists|i: int|
                0 <= i < old(self).texts().len() && old(self).texts()[i] == id@ && final(self).texts()
                    == old(self).texts().remove(i).push(id@),
    {
        let key = text_of(id);
        let ghost before = self.texts();
        match self.position(&key) {
            Some(i) => {
                let moved = self.ids.remove(i);
                self.ids.push(moved);
                assert(self.texts() =~= before.remove(i as int).push(id@));
                assert(self.texts().no_duplicates()) by {
                    let s = before.remove(i as int);
                    assert forall|a: int, b: int|
                        0 <= a < self.texts().len() && 0 <= b < self.texts().len() && a != b implies self.texts()[a]
                        != self.texts()[b] by {
                        if a < s.len() && b < s.len() {
                            let oa = if a < i { a } else { a + 1 };
                            let ob = if b < i { b } else { b + 1 };
                            assert(s[a] == before[oa]);
                            assert(s[b] == before[ob]);
                        } else if a < s.len() {
                            let oa = if a < i { a } else { a + 1 };
                            assert(s[a] == before[oa]);
                        } else if b < s.len() {
                            let ob = if b < i { b } else { b + 1 };
                            assert(s[b] == before[ob]);
                        }
                    }
                }
                assert(self.texts()[self.texts().len() - 1] == id@);
                false
            },
            None => {
                self.ids.push(key);
                let ghost pushed = self.texts();
                assert(pushed =~= before.push(id@));
                if self.ids.len() > self.capacity {
                    self.ids.remove(0);
                    assert(self.texts() =~= pushed.remove(0));
                }
                assert(self.texts() =~= window_with(before, id@, self.capacity as nat));
                assert(self.texts().no_duplicates()) by {
                    assert(pushed.no_duplicates());
                    if pushed.len() > self.capacity {
                        assert forall|a: int, b: int|
                            0 <= a < self.texts().len() && 0 <= b < self.texts().len() && a != b implies self.texts()[a]
                            != self.texts()[b] by {
                            assert(self.texts()[a] == pushed[a + 1]);
                            assert(self.texts()[b] == pushed[b + 1]);
                        }
                    }
                }
                assert(self.texts()[self.texts().len() - 1] == id@);
                true
            },
        }
    }
}

/// Tracks the upstream producer's liveness from its heartbeats.
pub struct Watchdog {
    pub last_heartbeat_ms: u64,
}

impl Watchdog {
    /// A watchdog that counts the producer as alive at `now_ms`.
    pub fn new(now_ms: u64) -> (r: Self)
        ensures
            r.last_heartbeat_ms == now_ms,
    {
        Watchdog { last_heartbeat_ms: now_ms }
    }

    /// A heartbeat arrived at `now_ms`.
    pub fn on_heartbeat(&mut self, now_ms: u64)
        ensures
            final(self).last_heartbeat_ms == now_ms,
    {
        self.last_heartbeat_ms = now_ms;
    }

    /// A timer tick at `now_ms`: alerts when the producer has been silent for more than the
    /// timeout, and then restarts the silence count so that alerts come at most once per window.
    pub fn on_tick(&mut self, now_ms: u64) -> (alert: bool)
        ensures
            alert == (now_ms > old(self).last_heartbeat_ms && now_ms - old(self).last_heartbeat_ms
                > HEARTBEAT_TIMEOUT_MS),
            alert ==> final(self).last_heartbeat_ms == now_ms,
            !alert ==> final(self).last_heartbeat_ms == old(self).last_heartbeat_ms,
    {
        if now_ms > self.last_heartbeat_ms && now_ms - self.last_heartbeat_ms > HEARTBEAT_TIMEOUT_MS {
            self.last_heartbeat_ms = now_ms;
            true
        } else {
            false
        }
    }
}

} // verus!
