use vstd::prelude::*;

verus! {

/// Whether a draw is kept as value number `size` (counting from zero) of a
/// sample: it is kept while the values kept so far stay within the budget, and
/// in any case while the sample is smaller than its minimum size.
pub open spec fn keeps(size: nat, min_size: nat, within_budget: bool) -> bool {
    within_budget || size < min_size
}

/// The size of a sample, counting from the draw at position `k`: draws are
/// kept one after the other until one is refused, the sample reaches
/// `max_size`, or the draws run out.
pub open spec fn kept_from(within_budget: Seq<bool>, min_size: nat, max_size: nat, k: nat) -> nat
    decreases within_budget.len() - k,
{
    if k >= max_size || k >= within_budget.len() || !keeps(k, min_size, within_budget[k as int]) {
        k
    } else {
        kept_from(within_budget, min_size, max_size, k + 1)
    }
}

/// The size of a sample whose successive draws meet the budget test
/// `within_budget[k]`, the test made with the total of the values kept
/// before draw `k`.
pub open spec fn kept_len(within_budget: Seq<bool>, min_size: nat, max_size: nat) -> nat {
    kept_from(within_budget, min_size, max_size, 0)
}

/// The progress of one sample being drawn: how many values it holds, and
/// whether a draw has been refused, which ends the sample.
pub struct SampleState {
    min_size: usize,
    max_size: usize,
    size: usize,
    stopped: bool,
}

impl SampleState {
    #[verifier::type_invariant]
    spec fn within_max(&self) -> bool {
        self.size <= self.max_size
    }

    /// The least number of values the sample holds, budget or not.
    pub closed spec fn min_size(&self) -> nat {
        self.min_size as nat
    }

    /// The most values the sample holds.
    pub closed spec fn max_size(&self) -> nat {
        self.max_size as nat
    }

    /// The number of values kept so far.
    pub closed spec fn size(&self) -> nat {
        self.size as nat
    }

    /// Whether a draw was refused, which ends the sample.
    pub closed spec fn stopped(&self) -> bool {
        self.stopped
    }

    /// Whether the sample takes another draw.
    pub open spec fn open(&self) -> bool {
        !self.stopped() && self.size() < self.max_size()
    }

    /// An empty sample that will hold between `min_size` and `max_size`
    /// values, as far as draws are offered.
    pub fn new(min_size: usize, max_size: usize) -> (s: SampleState)
        ensures
            s.min_size() == min_size,
            s.max_size() == max_size,
            s.size() == 0,
            !s.stopped(),
    {
        SampleState { min_size, max_size, size: 0, stopped: false }
    }

    /// The number of values kept so far; never more than the maximum size.
    pub fn len(&self) -> (r: usize)
        ensures
            r == self.size(),
            r <= self.max_size(),
    {
        proof {
            use_type_invariant(self);
        }
        self.size
    }

    /// Whether the sample takes another draw: no draw was refused and the
    /// sample is below its maximum size.
    pub fn wants_draw(&self) -> (r: bool)
        ensures
            r == self.open(),
            r == (!self.stopped() && self.size() < self.max_size()),
    {
        !self.stopped && self.size < self.max_size
    }

    /// Offers the next draw, with the outcome of the budget test on the total
    /// of the values kept so far. Returns whether the draw is kept; a refused
    /// draw ends the sample.
    pub fn offer(&mut self, within_budget: bool) -> (kept: bool)
        requires
            old(self).open(),
        ensures
            kept == keeps(old(self).size(), old(self).min_size(), within_budget),
            kept == (within_budget || old(self).size() < old(self).min_size()),
            final(self).min_size() == old(self).min_size(),
            final(self).max_size() == old(self).max_size(),
            kept ==> final(self).size() == old(self).size() + 1 && !final(self).stopped(),
            !kept ==> final(self).size() == old(self).size() && final(self).stopped(),
    {
        if within_budget || self.size < self.min_size {
            self.size = self.size + 1;
            true
        } else {
            self.stopped = true;
            false
        }
    }
}


/// The size of the sample that draws with the budget outcomes
/// `within_budget`, in order, give; the run stops where the sample does.
pub fn kept_count(min_size: usize, max_size: usize, within_budget: &Vec<bool>) -> (r: usize)
    ensures
        r == kept_len(within_budget@, min_size as nat, max_size as nat),
{
    let mut state = SampleState::new(min_size, max_size);
    let mut k: usize = 0;
    while k < within_budget.len() && state.wants_draw()
        invariant_except_break
            !state.stopped(),
        invariant
            state.min_size() == min_size,
            state.max_size() == max_size,
            state.size() == k,
            k <= within_budget@.len(),
            kept_from(within_budget@, min_size as nat, max_size as nat, k as nat) == kept_len(
                within_budget@,
                min_size as nat,
                max_size as nat,
            ),
        ensures
            state.size() == kept_len(within_budget@, min_size as nat, max_size as nat),
        decreases within_budget@.len() - k,
    {
        if !state.offer(within_budget[k]) {
            break;
        }
        k = k + 1;
    }
    state.len()
}

/// Whether the draw at position `j` is one the sample takes and keeps: it
/// comes before the maximum size, and is kept.
pub open spec fn kept_at(within_budget: Seq<bool>, min_size: nat, max_size: nat, j: int) -> bool {
    &&& 0 <= j
    &&& j < max_size
    &&& j < within_budget.len()
    &&& keeps(j as nat, min_size, within_budget[j])
}

/// Every draw before position `kept_from(.., k)` from `k` on is kept, and the
/// run stops for one of its three reasons.
proof fn lemma_kept_from(within_budget: Seq<bool>, min_size: nat, max_size: nat, k: nat)
    ensures
        k <= kept_from(within_budget, min_size, max_size, k),
        forall|j: int|
            k <= j && j < kept_from(within_budget, min_size, max_size, k) ==> #[trigger] kept_at(
                within_budget,
                min_size,
                max_size,
                j,
            ),
        ({
            let r = kept_from(within_budget, min_size, max_size, k);
            r >= max_size || r >= within_budget.len() || !keeps(
                r,
                min_size,
                within_budget[r as int],
            )
        }),
    decreases within_budget.len() - k,
{
    if k >= max_size || k >= within_budget.len() || !keeps(
        k,
        min_size,
        within_budget[k as int],
    ) {
    } else {
        lemma_kept_from(within_budget, min_size, max_size, k + 1);
        assert(kept_at(within_budget, min_size, max_size, k as int));
    }
}

proof fn lemma_kept_len_facts(within_budget: Seq<bool>, min_size: nat, max_size: nat)
    ensures
        ({
            let r = kept_len(within_budget, min_size, max_size);
            &&& r <= max_size
            &&& r <= within_budget.len()
            &&& forall|j: int| 0 <= j < r ==> #[trigger] kept_at(within_budget, min_size, max_size, j)
            &&& r < max_size && r < within_budget.len() ==> !keeps(
                r,
                min_size,
                within_budget[r as int],
            )
        }),
{
    lemma_kept_from(within_budget, min_size, max_size, 0);
    let r = kept_len(within_budget, min_size, max_size);
    if r > 0 {
        assert(kept_at(within_budget, min_size, max_size, r - 1));
    }
}

/// A sample keeps each draw in turn, as long as the draw passes the budget
/// test or the sample is below its minimum size, and ends at the first draw
/// that does neither, at its maximum size, or where the draws run out: its
/// values are exactly the draws before the first of these.
pub proof fn law_kept_len_characterized(within_budget: Seq<bool>, min_size: nat, max_size: nat)
    ensures
        ({
            let r = kept_len(within_budget, min_size, max_size);
            &&& r <= max_size
            &&& r <= within_budget.len()
            &&& forall|j: int| 0 <= j < r ==> #[trigger] within_budget[j] || j < min_size
            &&& r < max_size && r < within_budget.len() ==> !within_budget[r as int] && r
                >= min_size
        }),
{
    lemma_kept_len_facts(within_budget, min_size, max_size);
    let r = kept_len(within_budget, min_size, max_size);
    assert forall|j: int| 0 <= j < r implies #[trigger] within_budget[j] || j < min_size by {
        assert(kept_at(within_budget, min_size, max_size, j));
    }
}

/// A sample that has refused no draw and is below its maximum size takes
/// another draw, whatever its minimum size.
pub proof fn law_sample_open_below_max(s: SampleState)
    ensures
        s.open() <==> (!s.stopped() && s.size() < s.max_size()),
{
}

/// While a sample has kept fewer values than the draws it will keep, it takes
/// another draw: a sample that has refused no draw is open at every size below
/// `kept_len` of its budget outcomes, which may lie beyond its minimum size.
pub proof fn law_sample_open_before_kept_len(s: SampleState, within_budget: Seq<bool>)
    requires
        !s.stopped(),
        s.size() < kept_len(within_budget, s.min_size(), s.max_size()),
    ensures
        s.open(),
{
    lemma_kept_len_facts(within_budget, s.min_size(), s.max_size());
}

/// A draw that is offered is kept exactly when it passes the budget test or
/// the sample is below its minimum size; a kept draw grows the sample by one,
/// a refused one ends it.
pub proof fn law_sample_keeps(size: nat, min_size: nat, within_budget: bool)
    ensures
        keeps(size, min_size, within_budget) <==> (within_budget || size < min_size),
        within_budget ==> keeps(size, min_size, within_budget),
        size < min_size ==> keeps(size, min_size, within_budget),
{
}

/// A sample never holds more than its maximum size, and it holds at least its
/// minimum size whatever the budget, as far as the maximum size and the draws
/// allow.
pub proof fn law_kept_len_bounds(within_budget: Seq<bool>, min_size: nat, max_size: nat)
    ensures
        kept_len(within_budget, min_size, max_size) <= max_size,
        kept_len(within_budget, min_size, max_size) >= min_size || kept_len(
            within_budget,
            min_size,
            max_size,
        ) == max_size || kept_len(within_budget, min_size, max_size) == within_budget.len(),
{
    lemma_kept_len_facts(within_budget, min_size, max_size);
}

/// With an unbounded budget every draw passes the budget test, and the sample
/// fills up to its maximum size (as far as draws are offered).
pub proof fn law_kept_len_unbounded_budget(within_budget: Seq<bool>, min_size: nat, max_size: nat)
    requires
        forall|k: int| 0 <= k < within_budget.len() ==> within_budget[k],
    ensures
        kept_len(within_budget, min_size, max_size) == if max_size <= within_budget.len() {
            max_size
        } else {
            within_budget.len()
        },
{
    lemma_kept_len_facts(within_budget, min_size, max_size);
}

/// A draw that fails the budget test once the sample has reached its minimum
/// size is not kept, nor is any later one: the sample holds at most the
/// draws before it.
pub proof fn law_kept_len_ends_at_refused_draw(
    within_budget: Seq<bool>,
    min_size: nat,
    max_size: nat,
    k: nat,
)
    requires
        k < within_budget.len(),
        !within_budget[k as int],
        min_size <= k,
    ensures
        kept_len(within_budget, min_size, max_size) <= k,
{
    lemma_kept_len_facts(within_budget, min_size, max_size);
    if kept_len(within_budget, min_size, max_size) > k {
        assert(kept_at(within_budget, min_size, max_size, k as int));
    }
}

} // verus!
