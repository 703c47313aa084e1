use vstd::prelude::*;

verus! {

/// The larger of two counts.
pub open spec fn larger(a: i32, b: i32) -> i32 {
    if a >= b {
        a
    } else {
        b
    }
}

// ---------------------------------------------------------------------------
// CrdtCounter: a plain counter whose merge adds the other replica's count.
// ---------------------------------------------------------------------------

/// A counter whose merge adds the count of the other replica.
#[derive(Debug, Clone, Copy)]
pub struct CrdtCounter {
    pub count: i32,
}

impl CrdtCounter {
    /// The state that merging `other` into `self` produces.
    pub open spec fn merged(self, other: CrdtCounter) -> CrdtCounter {
        CrdtCounter { count: (self.count + other.count) as i32 }
    }

    /// The state after one increment.
    pub open spec fn incremented(self) -> CrdtCounter {
        CrdtCounter { count: (self.count + 1) as i32 }
    }

    /// A counter at zero.
    pub fn new() -> (c: CrdtCounter)
        ensures
            c.count == 0,
    {
        CrdtCounter { count: 0 }
    }

    /// Adds one to the count.
    pub fn increment(&mut self)
        requires
            old(self).count < i32::MAX,
        ensures
            final(self).count == old(self).count + 1,
            *final(self) == old(self).incremented(),
    {
        self.count += 1;
    }

    /// Adds the count of `other` to this one.
    pub fn merge(&mut self, other: &CrdtCounter)
        requires
            i32::MIN <= old(self).count + other.count <= i32::MAX,
        ensures
            final(self).count == old(self).count + other.count,
            *final(self) == old(self).merged(*other),
    {
        self.count += other.count;
    }
}

impl Default for CrdtCounter {
    fn default() -> (c: CrdtCounter)
        ensures
            c.count == 0,
    {
        CrdtCounter::new()
    }
}

// ---------------------------------------------------------------------------
// GCounter: a grow-only counter whose merge keeps the larger count.
// ---------------------------------------------------------------------------

/// A grow-only counter: merge keeps the larger of the two counts.
#[derive(Debug, Clone, Copy)]
pub struct GCounter {
    pub count: i32,
}

impl GCounter {
    /// The state that merging `other` into `self` produces.
    pub open spec fn merged(self, other: GCounter) -> GCounter {
        GCounter { count: larger(self.count, other.count) }
    }

    /// `self` holds at least every increment that `other` holds.
    pub open spec fn covers(self, other: GCounter) -> bool {
        other.count <= self.count
    }

    /// The state after one increment.
    pub open spec fn incremented(self) -> GCounter {
        GCounter { count: (self.count + 1) as i32 }
    }

    /// A counter at zero.
    pub fn new() -> (c: GCounter)
        ensures
            c.count == 0,
    {
        GCounter { count: 0 }
    }

    /// Adds one to the count.
    pub fn increment(&mut self)
        requires
            old(self).count < i32::MAX,
        ensures
            final(self).count == old(self).count + 1,
            *final(self) == old(self).incremented(),
    {
        self.count += 1;
    }

    /// Keeps the larger of this count and that of `other`.
    pub fn merge(&mut self, other: &GCounter)
        ensures
            *final(self) == old(self).merged(*other),
    {
        self.count = self.count.max(other.count);
    }
}

impl Default for GCounter {
    fn default() -> (c: GCounter)
        ensures
            c.count == 0,
    {
        GCounter::new()
    }
}

// ---------------------------------------------------------------------------
// PNCounter: a pair of grow-only counts, one for increments and one for
// decrements; its value is their difference.
// ---------------------------------------------------------------------------

/// A counter that can go up and down: it keeps how often it was incremented
/// and how often it was decremented, and merges each of the two like a
/// [`GCounter`].
#[derive(Debug, Clone, Copy)]
pub struct PNCounter {
    pub positive: i32,
    pub negative: i32,
}

impl PNCounter {
    /// The value that the counter stands for.
    pub open spec fn spec_value(self) -> int {
        self.positive - self.negative
    }

    /// The state that merging `other` into `self` produces.
    pub open spec fn merged(self, other: PNCounter) -> PNCounter {
        PNCounter {
            positive: larger(self.positive, other.positive),
            negative: larger(self.negative, other.negative),
        }
    }

    /// `self` holds at least every increment and decrement that `other` holds.
    pub open spec fn covers(self, other: PNCounter) -> bool {
        other.positive <= self.positive && other.negative <= self.negative
    }

    /// The state after one increment.
    pub open spec fn incremented(self) -> PNCounter {
        PNCounter { positive: (self.positive + 1) as i32, negative: self.negative }
    }

    /// The state after one decrement.
    pub open spec fn decremented(self) -> PNCounter {
        PNCounter { positive: self.positive, negative: (self.negative + 1) as i32 }
    }

    /// A counter at zero, with neither increments nor decrements.
    pub fn new() -> (c: PNCounter)
        ensures
            c.positive == 0,
            c.negative == 0,
    {
        PNCounter { positive: 0, negative: 0 }
    }

    /// Records one increment.
    pub fn increment(&mut self)
        requires
            old(self).positive < i32::MAX,
        ensures
            final(self).positive == old(self).positive + 1,
            final(self).negative == old(self).negative,
            *final(self) == old(self).incremented(),
    {
        self.positive += 1;
    }

    /// Records one decrement.
    pub fn decrement(&mut self)
        requires
            old(self).negative < i32::MAX,
        ensures
            final(self).positive == old(self).positive,
            final(self).negative == old(self).negative + 1,
            *final(self) == old(self).decremented(),
    {
        self.negative += 1;
    }

    /// The number of increments minus the number of decrements.
    pub fn value(&self) -> (v: i32)
        requires
            i32::MIN <= self.spec_value() <= i32::MAX,
        ensures
            v == self.spec_value(),
    {
        self.positive - self.negative
    }

    /// Keeps, for increments and for decrements alike, the larger of the two
    /// counts.
    pub fn merge(&mut self, other: &PNCounter)
        ensures
            *final(self) == old(self).merged(*other),
    {
        self.positive = self.positive.max(other.positive);
        self.negative = self.negative.max(other.negative);
    }
}

impl Default for PNCounter {
    fn default() -> (c: PNCounter)
        ensures
            c.positive == 0,
            c.negative == 0,
    {
        PNCounter::new()
    }
}

// ---------------------------------------------------------------------------
// Laws
// ---------------------------------------------------------------------------

/// Two `CrdtCounter` replicas that merge each other's state reach the same
/// count, whichever merges first.
pub proof fn lemma_crdt_merge_commutative(a: CrdtCounter, b: CrdtCounter)
    ensures
        a.merged(b) == b.merged(a),
{
}

/// Merging `CrdtCounter` states is associative, as long as no partial sum
/// leaves the range of `i32`.
pub proof fn lemma_crdt_merge_associative(a: CrdtCounter, b: CrdtCounter, c: CrdtCounter)
    requires
        i32::MIN <= a.count + b.count <= i32::MAX,
        i32::MIN <= b.count + c.count <= i32::MAX,
        i32::MIN <= a.count + b.count + c.count <= i32::MAX,
    ensures
        a.merged(b).merged(c) == a.merged(b.merged(c)),
{
}

/// Merging a `CrdtCounter` with its own state leaves it unchanged only at
/// zero: every other count is added to itself.
pub proof fn lemma_crdt_merge_self(a: CrdtCounter)
    requires
        a.count == 0,
    ensures
        a.merged(a) == a,
{
}

/// The count that a `CrdtCounter` reaches is the sum of the replicas' counts:
/// merging adds exactly the other count, and an increment adds one.
pub proof fn lemma_crdt_merge_adds_increments(a: CrdtCounter, b: CrdtCounter)
    requires
        i32::MIN <= a.count + b.count < i32::MAX,
        b.count < i32::MAX,
    ensures
        a.merged(b.incremented()) == a.merged(b).incremented(),
{
}

/// Merging `GCounter` states is commutative.
pub proof fn lemma_gcounter_merge_commutative(a: GCounter, b: GCounter)
    ensures
        a.merged(b) == b.merged(a),
{
}

/// Merging `GCounter` states is associative.
pub proof fn lemma_gcounter_merge_associative(a: GCounter, b: GCounter, c: GCounter)
    ensures
        a.merged(b).merged(c) == a.merged(b.merged(c)),
{
}

/// Merging a `GCounter` with its own state, or with any state that it
/// already covers, leaves it unchanged.
pub proof fn lemma_gcounter_merge_idempotent(a: GCounter, b: GCounter)
    requires
        a.covers(b),
    ensures
        a.merged(a) == a,
        a.merged(b) == a,
{
}

/// The merge of two `GCounter` states is their least upper bound: it covers
/// both, and every state that covers both covers it.
pub proof fn lemma_gcounter_merge_least_upper_bound(a: GCounter, b: GCounter, c: GCounter)
    ensures
        a.merged(b).covers(a),
        a.merged(b).covers(b),
        c.covers(a) && c.covers(b) ==> c.covers(a.merged(b)),
{
}

/// A `GCounter` only grows: an increment yields a state that covers the old
/// one, and a replica that has seen the increment keeps it through any merge.
pub proof fn lemma_gcounter_increment_grows(a: GCounter, b: GCounter)
    requires
        a.count < i32::MAX,
    ensures
        a.incremented().covers(a),
        !a.covers(a.incremented()),
        b.merged(a.incremented()).covers(a.incremented()),
{
}

/// Merging `PNCounter` states is commutative.
pub proof fn lemma_pncounter_merge_commutative(a: PNCounter, b: PNCounter)
    ensures
        a.merged(b) == b.merged(a),
{
}

/// Merging `PNCounter` states is associative.
pub proof fn lemma_pncounter_merge_associative(a: PNCounter, b: PNCounter, c: PNCounter)
    ensures
        a.merged(b).merged(c) == a.merged(b.merged(c)),
{
}

/// Merging a `PNCounter` with its own state, or with any state that it
/// already covers, leaves it unchanged.
pub proof fn lemma_pncounter_merge_idempotent(a: PNCounter, b: PNCounter)
    requires
        a.covers(b),
    ensures
        a.merged(a) == a,
        a.merged(b) == a,
{
}

/// The merge of two `PNCounter` states is their least upper bound: it covers
/// both, and every state that covers both covers it.
pub proof fn lemma_pncounter_merge_least_upper_bound(a: PNCounter, b: PNCounter, c: PNCounter)
    ensures
        a.merged(b).covers(a),
        a.merged(b).covers(b),
        c.covers(a) && c.covers(b) ==> c.covers(a.merged(b)),
{
}

/// An increment raises the value of a `PNCounter` by one, a decrement lowers
/// it by one, the two commute, and a decrement undoes an increment's effect on
/// the value.
pub proof fn lemma_pncounter_increment_decrement(a: PNCounter)
    requires
        a.positive < i32::MAX,
        a.negative < i32::MAX,
    ensures
        a.incremented().spec_value() == a.spec_value() + 1,
        a.decremented().spec_value() == a.spec_value() - 1,
        a.incremented().decremented() == a.decremented().incremented(),
        a.incremented().decremented().spec_value() == a.spec_value(),
        a.incremented().covers(a),
        a.decremented().covers(a),
{
}

} // verus!
