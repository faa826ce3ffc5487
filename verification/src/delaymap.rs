//! A set of timers, one per key at most, polled against an explicit clock.

use vstd::prelude::*;

verus! {

/// The moment `period` seconds after `now`, in milliseconds since the
/// epoch; the end of time if that moment cannot be written in 64 bits.
pub open spec fn deadline_after(now: u64, period: u64) -> u64 {
    if now + period * 1000 <= u64::MAX {
        (now + period * 1000) as u64
    } else {
        u64::MAX
    }
}

/// Computes [`deadline_after`].
pub fn deadline(now: u64, period: u64) -> (d: u64)
    ensures
        d == deadline_after(now, period),
{
    match period.checked_mul(1000) {
        Some(ms) => now.saturating_add(ms),
        None => u64::MAX,
    }
}

/// What identifies a timer. Two keys are the same key when their views
/// are equal.
pub trait TimerKey: View + Sized {
    /// Whether `self` and `other` are the same key.
    fn same(&self, other: &Self) -> (b: bool)
        ensures
            b == (self@ == other@),
    ;

    /// A key of its own that is the same key as `self`.
    fn duplicate(&self) -> (k: Self)
        ensures
            k@ == self@,
    ;
}

impl TimerKey for String {
    fn same(&self, other: &Self) -> (b: bool) {
        *self == *other
    }

    fn duplicate(&self) -> (k: Self) {
        self.clone()
    }
}

impl TimerKey for u64 {
    fn same(&self, other: &Self) -> (b: bool) {
        *self == *other
    }

    fn duplicate(&self) -> (k: Self) {
        *self
    }
}

#[derive(Debug)]
struct Timer<K> {
    key: K,
    deadline: u64,
}

/// One armed timer: its key and the moment it expires.
pub struct TimerView<A> {
    pub key: A,
    pub deadline: u64,
}

/// The armed timers, oldest insertion first.
pub struct DelayMapView<A> {
    pub timers: Seq<TimerView<A>>,
}

impl<A> DelayMapView<A> {
    /// No key has two timers.
    pub open spec fn wf(self) -> bool {
        forall|i: int, j: int|
            0 <= i < self.timers.len() && 0 <= j < self.timers.len()
                && #[trigger] self.timers[i].key == #[trigger] self.timers[j].key ==> i == j
    }

    /// Whether position `i` holds the timer of `key`.
    pub open spec fn at(self, i: int, key: A) -> bool {
        0 <= i < self.timers.len() && self.timers[i].key == key
    }

    /// Whether `key` has a timer.
    pub open spec fn armed(self, key: A) -> bool {
        exists|i: int| self.at(i, key)
    }

    /// The position of the timer of `key`.
    pub open spec fn index(self, key: A) -> int {
        choose|i: int| self.at(i, key)
    }

    /// The moment the timer of `key` expires.
    pub open spec fn deadline_of(self, key: A) -> u64 {
        self.timers[self.index(key)].deadline
    }

    /// The timers without the one of `key`.
    pub open spec fn remove(self, key: A) -> DelayMapView<A> {
        if self.armed(key) {
            DelayMapView { timers: self.timers.remove(self.index(key)) }
        } else {
            self
        }
    }

    /// The timers with `key` armed anew, as the latest insertion, to expire
    /// `period` seconds after `now`.
    pub open spec fn insert(self, key: A, now: u64, period: u64) -> DelayMapView<A> {
        DelayMapView {
            timers: self.remove(key).timers.push(
                TimerView { key, deadline: deadline_after(now, period) },
            ),
        }
    }

    /// Whether position `i` holds the timer that expires next: none expires
    /// earlier, and none before it in insertion order expires as early.
    pub open spec fn is_next(self, i: int) -> bool {
        &&& 0 <= i < self.timers.len()
        &&& forall|j: int| 0 <= j < self.timers.len() ==> self.timers[i].deadline <= (#[trigger] self.timers[j]).deadline
        &&& forall|j: int| 0 <= j < i ==> (#[trigger] self.timers[j]).deadline > self.timers[i].deadline
    }

    /// The position of the timer that expires next.
    pub open spec fn next_index(self) -> int {
        choose|i: int| self.is_next(i)
    }

    /// Whether a timer has expired at `now`.
    pub open spec fn is_due(self, now: u64) -> bool {
        self.timers.len() > 0 && self.timers[self.next_index()].deadline <= now
    }

    /// The timers after a poll at `now`, and the key that fired: the one
    /// that expires next, if it has expired.
    pub open spec fn next(self, now: u64) -> (DelayMapView<A>, Option<A>) {
        if self.is_due(now) {
            (
                DelayMapView { timers: self.timers.remove(self.next_index()) },
                Some(self.timers[self.next_index()].key),
            )
        } else {
            (self, None)
        }
    }

    /// A key's position is the only one that holds it.
    pub proof fn lemma_index(self, i: int, key: A)
        requires
            self.wf(),
            self.at(i, key),
        ensures
            self.armed(key),
            self.index(key) == i,
    {
        let j = self.index(key);
        assert(self.timers[i].key == self.timers[j].key);
    }

    /// Among the first `n` timers one expires first: none of them expires
    /// earlier, and none before it expires as early.
    pub proof fn lemma_first_of(self, n: int) -> (i: int)
        requires
            1 <= n <= self.timers.len(),
        ensures
            0 <= i < n,
            forall|j: int| 0 <= j < n ==> self.timers[i].deadline <= (#[trigger] self.timers[j]).deadline,
            forall|j: int| 0 <= j < i ==> (#[trigger] self.timers[j]).deadline > self.timers[i].deadline,
        decreases n,
    {
        if n == 1 {
            0
        } else {
            let before = self.lemma_first_of(n - 1);
            if self.timers[n - 1].deadline < self.timers[before].deadline {
                n - 1
            } else {
                before
            }
        }
    }

    /// Where a timer is armed, one of them expires next.
    pub proof fn lemma_next_exists(self)
        requires
            self.timers.len() > 0,
        ensures
            self.is_next(self.next_index()),
    {
        let i = self.lemma_first_of(self.timers.len() as int);
        assert(self.is_next(i));
    }

    /// Only one position holds the timer that expires next.
    pub proof fn lemma_next_index(self, i: int)
        requires
            self.is_next(i),
        ensures
            self.next_index() == i,
    {
        let j = self.next_index();
        if j < i {
            assert(self.timers[j].deadline > self.timers[i].deadline);
        } else if i < j {
            assert(self.timers[i].deadline > self.timers[j].deadline);
        }
    }

    /// Removing a key leaves every other timer as it was and keeps the
    /// keys distinct.
    pub proof fn lemma_remove(self, key: A)
        requires
            self.wf(),
        ensures
            self.remove(key).wf(),
            !self.remove(key).armed(key),
            forall|k: A| k != key ==> (#[trigger] self.remove(key).armed(k) <==> self.armed(k)),
            forall|k: A| k != key && self.armed(k) ==> #[trigger] self.remove(key).deadline_of(k) == self.deadline_of(k),
    {
        let r = self.remove(key);
        if self.armed(key) {
            let i = self.index(key);
            assert forall|a: int| 0 <= a < r.timers.len() implies #[trigger] r.timers[a] == self.timers[if a < i { a } else { a + 1 }] by {}
            assert(r.wf()) by {
                assert forall|a: int, b: int|
                    0 <= a < r.timers.len() && 0 <= b < r.timers.len()
                        && #[trigger] r.timers[a].key == #[trigger] r.timers[b].key implies a == b by {
                    let a0 = if a < i { a } else { a + 1 };
                    let b0 = if b < i { b } else { b + 1 };
                    assert(self.timers[a0].key == self.timers[b0].key);
                }
            }
            assert(!r.armed(key)) by {
                if r.armed(key) {
                    let a = r.index(key);
                    let a0 = if a < i { a } else { a + 1 };
                    assert(self.timers[a0].key == self.timers[i].key);
                }
            }
            assert forall|k: A| k != key implies (#[trigger] r.armed(k) <==> self.armed(k)) by {
                if r.armed(k) {
                    let a = r.index(k);
                    assert(self.at(if a < i { a } else { a + 1 }, k));
                }
                if self.armed(k) {
                    let a = self.index(k);
                    assert(r.at(if a < i { a } else { a - 1 }, k));
                }
            }
            assert forall|k: A| k != key && self.armed(k) implies #[trigger] r.deadline_of(k) == self.deadline_of(k) by {
                let a = self.index(k);
                let b = if a < i { a } else { a - 1 };
                r.lemma_index(b, k);
            }
        }
    }

    /// After an insertion the key is armed with the new deadline, and
    /// every other timer is as it was.
    pub proof fn lemma_insert(self, key: A, now: u64, period: u64)
        requires
            self.wf(),
        ensures
            self.insert(key, now, period).wf(),
            self.insert(key, now, period).armed(key),
            self.insert(key, now, period).deadline_of(key) == deadline_after(now, period),
            forall|k: A| k != key ==> (#[trigger] self.insert(key, now, period).armed(k) <==> self.armed(k)),
            forall|k: A| k != key && self.armed(k) ==> #[trigger] self.insert(key, now, period).deadline_of(k) == self.deadline_of(k),
    {
        self.lemma_remove(key);
        let r = self.remove(key);
        let n = self.insert(key, now, period);
        let last = r.timers.len() as int;
        assert(n.wf()) by {
            assert forall|a: int, b: int|
                0 <= a < n.timers.len() && 0 <= b < n.timers.len()
                    && #[trigger] n.timers[a].key == #[trigger] n.timers[b].key implies a == b by {
                if a < last && b < last {
                    assert(r.timers[a].key == r.timers[b].key);
                } else if a < last {
                    assert(r.at(a, key));
                } else if b < last {
                    assert(r.at(b, key));
                }
            }
        }
        n.lemma_index(last, key);
        assert forall|k: A| k != key implies (#[trigger] n.armed(k) <==> self.armed(k)) by {
            if n.armed(k) {
                let a = n.index(k);
                assert(r.at(a, k));
                assert(r.armed(k));
            }
            if self.armed(k) {
                assert(r.armed(k));
                let a = r.index(k);
                assert(n.at(a, k));
                assert(n.armed(k));
            }
        }
        assert forall|k: A| k != key && self.armed(k) implies #[trigger] n.deadline_of(k) == self.deadline_of(k) by {
            assert(r.armed(k));
            let a = r.index(k);
            n.lemma_index(a, k);
        }
    }
}

/// Timers, one per key at most. Time is handed in by the caller, in
/// milliseconds since the epoch: the map never reads a clock and never
/// waits.
#[derive(Debug)]
pub struct DelayMap<K: TimerKey> {
    timers: Vec<Timer<K>>,
}

impl<K: TimerKey> View for DelayMap<K> {
    type V = DelayMapView<K::V>;

    closed spec fn view(&self) -> DelayMapView<K::V> {
        DelayMapView {
            timers: self.timers@.map_values(|t: Timer<K>| TimerView { key: t.key@, deadline: t.deadline }),
        }
    }
}

impl<K: TimerKey> DelayMap<K> {
    #[verifier::type_invariant]
    closed spec fn inv(self) -> bool {
        self@.wf()
    }

    /// A map without timers.
    pub fn new() -> (m: DelayMap<K>)
        ensures
            m@.timers == Seq::<TimerView<K::V>>::empty(),
            m@.wf(),
    {
        DelayMap { timers: Vec::new() }
    }

    fn position(&self, key: &K) -> (r: Option<usize>)
        ensures
            match r {
                Some(i) => self@.at(i as int, key@),
                None => !self@.armed(key@),
            },
    {
        let mut i: usize = 0;
        while i < self.timers.len()
            invariant
                i <= self.timers.len(),
                forall|j: int| 0 <= j < i ==> !self@.at(j, key@),
            decreases self.timers.len() - i,
        {
            if self.timers[i].key.same(key) {
                return Some(i);
            }
            i += 1;
        }
        None
    }

    /// Disarms the timer of `key`; nothing happens if it has none.
    pub fn remove(&mut self, key: &K)
        ensures
            final(self)@ == old(self)@.remove(key@),
            final(self)@.wf(),
    {
        proof {
            use_type_invariant(&*self);
        }
        match self.position(key) {
            Some(i) => {
                proof {
                    self@.lemma_index(i as int, key@);
                    self@.lemma_remove(key@);
                }
                let mut timers: Vec<Timer<K>> = Vec::new();
                std::mem::swap(&mut self.timers, &mut timers);
                timers.remove(i);
                assert((DelayMap { timers })@.timers =~= old(self)@.timers.remove(i as int));
                self.timers = timers;
            },
            None => {},
        }
    }

    /// Arms the timer of `key` to expire `period` seconds after `now`. A
    /// timer that `key` already had is replaced.
    pub fn insert(&mut self, key: &K, now: u64, period: u64)
        ensures
            final(self)@ == old(self)@.insert(key@, now, period),
            final(self)@.wf(),
    {
        proof {
            use_type_invariant(&*self);
        }
        self.remove(key);
        let timer = Timer { key: key.duplicate(), deadline: deadline(now, period) };
        let mut timers: Vec<Timer<K>> = Vec::new();
        std::mem::swap(&mut self.timers, &mut timers);
        timers.push(timer);
        proof {
            old(self)@.lemma_insert(key@, now, period);
            assert((DelayMap { timers })@.timers =~= old(self)@.insert(key@, now, period).timers);
        }
        self.timers = timers;
    }

    /// Whether any timer is armed.
    pub fn has_pending(&self) -> (b: bool)
        ensures
            b == (self@.timers.len() > 0),
            self@.wf(),
    {
        proof {
            use_type_invariant(self);
        }
        self.timers.len() > 0
    }

    fn next_position(&self) -> (i: usize)
        requires
            self@.timers.len() > 0,
        ensures
            self@.is_next(i as int),
            self@.next_index() == i,
    {
        let mut best: usize = 0;
        let mut i: usize = 1;
        while i < self.timers.len()
            invariant
                1 <= i <= self.timers.len(),
                best < i,
                forall|j: int| 0 <= j < i ==> self@.timers[best as int].deadline <= (#[trigger] self@.timers[j]).deadline,
                forall|j: int| 0 <= j < best ==> (#[trigger] self@.timers[j]).deadline > self@.timers[best as int].deadline,
            decreases self.timers.len() - i,
        {
            if self.timers[i].deadline < self.timers[best].deadline {
                best = i;
            }
            i += 1;
        }
        proof {
            self@.lemma_next_index(best as int);
        }
        best
    }

    /// The moment at which the next timer expires, if any is armed.
    pub fn next_deadline(&self) -> (d: Option<u64>)
        ensures
            match d {
                Some(d) => self@.timers.len() > 0 && d == self@.timers[self@.next_index()].deadline,
                None => self@.timers.len() == 0,
            },
    {
        if self.timers.len() == 0 {
            None
        } else {
            let i = self.next_position();
            Some(self.timers[i].deadline)
        }
    }

    /// Polls the timers at `now`: the key whose timer expires next is
    /// handed out and disarmed if its deadline has come. Among timers with
    /// the same deadline the one inserted first fires first.
    pub fn next(&mut self, now: u64) -> (key: Option<K>)
        ensures
            final(self)@ == old(self)@.next(now).0,
            match key {
                Some(k) => old(self)@.next(now).1 == Some(k@),
                None => old(self)@.next(now).1 is None,
            },
            final(self)@.wf(),
    {
        proof {
            use_type_invariant(&*self);
        }
        if self.timers.len() == 0 {
            return None;
        }
        let i = self.next_position();
        if self.timers[i].deadline > now {
            return None;
        }
        proof {
            let k = self@.timers[i as int].key;
            self@.lemma_index(i as int, k);
            self@.lemma_remove(k);
        }
        let mut timers: Vec<Timer<K>> = Vec::new();
        std::mem::swap(&mut self.timers, &mut timers);
        let timer = timers.remove(i);
        assert((DelayMap { timers })@.timers =~= old(self)@.timers.remove(i as int));
        self.timers = timers;
        Some(timer.key)
    }
}

} // verus!
