//! One tier of the retention policy: a budget of distinct slots at one granularity.
use vstd::prelude::*;
use crate::time::{slot_key_of, Resolution, Timestamp};

verus! {

/// What a bucket is, mathematically: its budget of slots, its granularity, and the
/// keys of the slots it has taken so far.
pub struct BucketState {
    pub capacity: nat,
    pub resolution: Resolution,
    pub seen: Set<Seq<char>>,
}

impl BucketState {
    /// The bucket holds a finite set of slots within its budget.
    pub open spec fn bounded(self) -> bool {
        self.seen.finite() && self.seen.len() <= self.capacity
    }

    /// The bucket still has room for a slot it has not seen.
    pub open spec fn is_open(self) -> bool {
        self.seen.len() < self.capacity
    }

    /// The key of the slot that instant `t` falls into at this bucket's granularity.
    pub open spec fn key(self, t: int) -> Seq<char> {
        slot_key_of(t, self.resolution)
    }

    /// Whether an offer of instant `t` is accepted: the bucket is open and the slot of
    /// `t` is new to it.
    pub open spec fn accepts(self, t: int) -> bool {
        self.is_open() && !self.seen.contains(self.key(t))
    }

    /// The bucket after an offer of instant `t`: an accepted slot is recorded, and a
    /// rejected offer changes nothing.
    pub open spec fn after(self, t: int) -> BucketState {
        if self.accepts(t) {
            BucketState { seen: self.seen.insert(self.key(t)), ..self }
        } else {
            self
        }
    }

    /// The bucket after offers of `ts`, one by one from the first.
    pub open spec fn run(self, ts: Seq<int>) -> BucketState
        decreases ts.len(),
    {
        if ts.len() == 0 {
            self
        } else {
            self.after(ts[0]).run(ts.drop_first())
        }
    }

    /// The answers to offers of `ts`, one by one from the first.
    pub open spec fn decisions(self, ts: Seq<int>) -> Seq<bool>
        decreases ts.len(),
    {
        if ts.len() == 0 {
            Seq::empty()
        } else {
            seq![self.accepts(ts[0])].add(self.after(ts[0]).decisions(ts.drop_first()))
        }
    }
}

/// Whatever instants are offered to a bucket, in whatever order, the number of slots it
/// holds never exceeds its capacity.
pub proof fn lemma_capacity_bound(s: BucketState, ts: Seq<int>)
    requires
        s.bounded(),
    ensures
        s.run(ts).bounded(),
        s.run(ts).capacity == s.capacity,
        s.run(ts).resolution == s.resolution,
    decreases ts.len(),
{
    if ts.len() > 0 {
        lemma_capacity_bound(s.after(ts[0]), ts.drop_first());
    }
}

/// An instant offered twice in a row is rejected the second time, so of the two offers
/// at most one is accepted.
pub proof fn lemma_duplicate_rejected(s: BucketState, t: int)
    ensures
        !s.after(t).accepts(t),
        !(s.accepts(t) && s.after(t).accepts(t)),
{
}

/// A bucket that has used up its budget rejects every later offer, whatever the
/// instants, and never changes again.
pub proof fn lemma_saturation_final(s: BucketState, ts: Seq<int>)
    requires
        !s.is_open(),
    ensures
        s.run(ts) == s,
        s.decisions(ts).len() == ts.len(),
        forall|i: int| 0 <= i < ts.len() ==> !#[trigger] s.decisions(ts)[i],
    decreases ts.len(),
{
    if ts.len() > 0 {
        lemma_saturation_final(s, ts.drop_first());
    }
}

/// A bucket of capacity zero rejects every offer and never changes.
pub proof fn lemma_zero_capacity(s: BucketState, ts: Seq<int>)
    requires
        s.capacity == 0,
    ensures
        s.run(ts) == s,
        s.decisions(ts).len() == ts.len(),
        forall|i: int| 0 <= i < ts.len() ==> !#[trigger] s.decisions(ts)[i],
{
    lemma_saturation_final(s, ts);
}

/// An empty bucket of capacity one keeps whichever of two instants in different slots
/// comes first, and rejects the other.
pub proof fn lemma_first_come_first_served(s: BucketState, a: int, b: int)
    requires
        s.capacity == 1,
        s.seen == Set::<Seq<char>>::empty(),
        s.key(a) != s.key(b),
    ensures
        s.decisions(seq![a, b]) == seq![true, false],
        s.decisions(seq![b, a]) == seq![true, false],
{
    let e = Seq::<int>::empty();
    assert(s.after(a).seen.len() == 1);
    assert(s.after(b).seen.len() == 1);
    assert(seq![a, b].drop_first() =~= seq![b]);
    assert(seq![b, a].drop_first() =~= seq![a]);
    assert(seq![b].drop_first() =~= e);
    assert(seq![a].drop_first() =~= e);
    assert(s.after(a).decisions(seq![b]) =~= seq![false].add(s.after(a).after(b).decisions(e)));
    assert(s.after(b).decisions(seq![a]) =~= seq![false].add(s.after(b).after(a).decisions(e)));
    assert(s.decisions(seq![a, b]) =~= seq![true].add(s.after(a).decisions(seq![b])));
    assert(s.decisions(seq![b, a]) =~= seq![true].add(s.after(b).decisions(seq![a])));
    assert(s.decisions(seq![a, b]) =~= seq![true, false]);
    assert(s.decisions(seq![b, a]) =~= seq![true, false]);
}

/// A retention tier: remembers the distinct slots it has accepted, up to a fixed number.
#[derive(Debug)]
pub struct DateBucket {
    capacity: usize,
    resolution: Resolution,
    seen: Vec<String>,
}

impl View for DateBucket {
    type V = BucketState;

    closed spec fn view(&self) -> BucketState {
        BucketState { capacity: self.capacity as nat, resolution: self.resolution, seen: self.keys().to_set() }
    }
}

impl DateBucket {
    /// The keys held, in the order they were accepted.
    spec fn keys(&self) -> Seq<Seq<char>> {
        self.seen@.map_values(|k: String| k@)
    }

    /// The keys held are distinct and within the budget.
    pub closed spec fn wf(&self) -> bool {
        &&& self.keys().no_duplicates()
        &&& self.seen@.len() <= self.capacity
    }

    /// A well-formed bucket holds no more slots than its capacity.
    pub proof fn lemma_wf_bounded(&self)
        requires
            self.wf(),
        ensures
            self@.bounded(),
    {
        self.lemma_view_bounded();
    }

    proof fn lemma_view_bounded(&self)
        requires
            self.wf(),
        ensures
            self@.bounded(),
            self@.seen.len() == self.seen@.len(),
    {
        self.keys().unique_seq_to_set();
    }

    /// An empty bucket that will accept at most `capacity` distinct slots at granularity
    /// `resolution`.
    pub fn new(resolution: Resolution, capacity: usize) -> (b: DateBucket)
        ensures
            b.wf(),
            b@ == (BucketState { capacity: capacity as nat, resolution, seen: Set::empty() }),
    {
        let b = DateBucket { capacity, resolution, seen: Vec::new() };
        assert(b.keys().to_set() =~= Set::<Seq<char>>::empty());
        b
    }

    /// Whether the slot `key` has been accepted.
    fn holds(&self, key: &String) -> (r: bool)
        ensures
            r == self.keys().contains(key@),
    {
        let mut i: usize = 0;
        while i < self.seen.len()
            invariant
                0 <= i <= self.seen@.len(),
                forall|j: int| 0 <= j < i ==> self.keys()[j] != key@,
            decreases self.seen@.len() - i,
        {
            if self.seen[i] == *key {
                assert(self.keys()[i as int] == key@);
                return true;
            }
            i = i + 1;
        }
        false
    }

    /// Offers instant `t`: accepted when the bucket is open and the slot of `t` is new to
    /// it, in which case the slot is recorded. A rejected offer changes nothing.
    pub fn offer(&mut self, t: Timestamp) -> (accepted: bool)
        requires
            old(self).wf(),
        ensures
            final(self).wf(),
            accepted == old(self)@.accepts(t@),
            final(self)@ == old(self)@.after(t@),
    {
        proof {
            self.lemma_view_bounded();
        }
        if self.seen.len() >= self.capacity {
            return false;
        }
        let key = t.slot_key(self.resolution);
        if self.holds(&key) {
            return false;
        }
        let ghost old_keys = self.keys();
        self.seen.push(key);
        assert(self.keys() =~= old_keys.push(key@));
        proof {
            old_keys.lemma_push_to_set_commute(key@);
        }
        true
    }

    /// The number of distinct slots this bucket may hold.
    pub fn capacity(&self) -> (c: usize)
        ensures
            c as nat == self@.capacity,
    {
        self.capacity
    }

    /// The granularity of this bucket.
    pub fn resolution(&self) -> (r: Resolution)
        ensures
            r == self@.resolution,
    {
        self.resolution
    }

    /// The number of distinct slots accepted so far.
    pub fn len(&self) -> (n: usize)
        requires
            self.wf(),
        ensures
            n as nat == self@.seen.len(),
    {
        proof {
            self.lemma_view_bounded();
        }
        self.seen.len()
    }

    /// Whether the bucket may still accept a new slot.
    pub fn is_open(&self) -> (r: bool)
        requires
            self.wf(),
        ensures
            r == self@.is_open(),
    {
        proof {
            self.lemma_view_bounded();
        }
        self.seen.len() < self.capacity
    }

    /// Whether the slot of instant `t` has been accepted.
    pub fn has_slot_of(&self, t: Timestamp) -> (r: bool)
        ensures
            r == self@.seen.contains(self@.key(t@)),
    {
        let key = t.slot_key(self.resolution);
        self.holds(&key)
    }
}

} // verus!
