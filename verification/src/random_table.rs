use vstd::prelude::*;
use rltk::RandomNumberGenerator;
use crate::rng::range;

verus! {

//----------------------------------------------------------------------------
// Weighted random tables.
//
// A table holds items with integer weights. A roll draws a number `r` and
// walks the entries in insertion order, returning the first entry whose
// weight exceeds what is left of `r`, after subtracting the weights of the
// entries passed over.
//----------------------------------------------------------------------------

pub struct RandomEntry<T> {
    item: T,
    weight: i32,
}

impl<T: Copy> RandomEntry<T> {
    pub closed spec fn item_spec(&self) -> T {
        self.item
    }

    pub closed spec fn weight_spec(&self) -> i32 {
        self.weight
    }

    pub fn new(item: T, weight: i32) -> (e: RandomEntry<T>)
        ensures
            e.item_spec() == item,
            e.weight_spec() == weight,
    {
        RandomEntry { item, weight }
    }
}

/// The sum of the weights of a sequence of entries.
pub open spec fn sum_weights<T>(s: Seq<(T, i32)>) -> int
    decreases s.len(),
{
    if s.len() == 0 {
        0
    } else {
        s[0].1 + sum_weights(s.drop_first())
    }
}

/// The item a roll of `roll` selects from the entries `s`.
pub open spec fn pick_spec<T>(s: Seq<(T, i32)>, roll: int) -> Option<T>
    decreases s.len(),
{
    if s.len() == 0 {
        None
    } else if roll < s[0].1 {
        Some(s[0].0)
    } else {
        pick_spec(s.drop_first(), roll - s[0].1)
    }
}

pub open spec fn nonnegative_weights<T>(s: Seq<(T, i32)>) -> bool {
    forall|i: int| 0 <= i < s.len() ==> s[i].1 >= 0
}

spec fn entries_view<T>(entries: Seq<RandomEntry<T>>) -> Seq<(T, i32)> {
    entries.map_values(|e: RandomEntry<T>| (e.item, e.weight))
}

pub struct RandomTable<T> {
    entries: Vec<RandomEntry<T>>,
    total_weight: i32,
}

impl<T> View for RandomTable<T> {
    type V = Seq<(T, i32)>;

    /// The (item, weight) entries of the table, in insertion order.
    closed spec fn view(&self) -> Seq<(T, i32)> {
        entries_view(self.entries@)
    }
}

pub proof fn lemma_sum_weights_push<T>(s: Seq<(T, i32)>, e: (T, i32))
    ensures
        sum_weights(s.push(e)) == sum_weights(s) + e.1,
    decreases s.len(),
{
    if s.len() == 0 {
        assert(s.push(e).drop_first() =~= Seq::<(T, i32)>::empty());
        assert(sum_weights(s.push(e).drop_first()) == 0);
        assert(s.push(e)[0] == e);
    } else {
        lemma_sum_weights_push(s.drop_first(), e);
        assert(s.push(e).drop_first() =~= s.drop_first().push(e));
        assert(s.push(e)[0] == s[0]);
    }
}

impl<T> RandomTable<T> {
    /// The table's total weight: the sum of the weights of its entries (the
    /// table keeps it as a running total, equal to this by its invariant).
    pub open spec fn total(&self) -> int {
        sum_weights(self@)
    }

    #[verifier::type_invariant]
    closed spec fn inv(&self) -> bool {
        self.total_weight as int == sum_weights(self@)
    }

}

impl<T: Copy> RandomTable<T> {
    /// An empty table.
    pub fn new() -> (t: RandomTable<T>)
        ensures
            t@ == Seq::<(T, i32)>::empty(),
            t.total() == 0,
    {
        let t = RandomTable { entries: Vec::new(), total_weight: 0 };
        assert(t@ =~= Seq::<(T, i32)>::empty());
        t
    }

    /// The table with `item` appended at `weight`.
    pub fn insert(self, item: T, weight: i32) -> (t: RandomTable<T>)
        requires
            i32::MIN <= self.total() + weight <= i32::MAX,
        ensures
            t@ == self@.push((item, weight)),
            t.total() == self.total() + weight,
    {
        proof {
            use_type_invariant(&self);
            lemma_sum_weights_push(self@, (item, weight));
        }
        let RandomTable { mut entries, total_weight } = self;
        let ghost old_entries = entries@;
        entries.push(RandomEntry { item, weight });
        assert(entries_view(entries@) =~= entries_view(old_entries).push((item, weight)));
        let t = RandomTable { entries, total_weight: total_weight + weight };
        proof {
            use_type_invariant(&t);
        }
        t
    }

    /// The item that the roll `roll` selects: walking the entries in order,
    /// the first whose weight exceeds what is left of the roll.
    pub fn roll_with(&self, roll: i32) -> (r: Option<T>)
        requires
            0 <= roll,
            nonnegative_weights(self@),
        ensures
            r == pick_spec(self@, roll as int),
    {
        let n = self.entries.len();
        let mut left = roll;
        assert(self@.skip(0) =~= self@);
        let mut i: usize = 0;
        while i < n
            invariant
                n == self.entries.len(),
                n == self@.len(),
                i <= n,
                0 <= left,
                nonnegative_weights(self@),
                pick_spec(self@.skip(i as int), left as int) == pick_spec(self@, roll as int),
            decreases n - i,
        {
            let entry = &self.entries[i];
            assert(self@[i as int] == (entry.item, entry.weight));
            assert(self@.skip(i as int)[0] == self@[i as int]);
            assert(self@.skip(i as int).drop_first() =~= self@.skip(i + 1));
            if left < entry.weight {
                return Some(entry.item);
            }
            left = left - entry.weight;
            i = i + 1;
        }
        assert(self@.skip(n as int) =~= Seq::<(T, i32)>::empty());
        None
    }

    /// Draws a roll uniformly from `0..total` and selects an item with it, so
    /// that each entry is chosen in proportion to its weight. An empty-weight
    /// table gives `None`.
    pub fn roll(&self, rng: &mut RandomNumberGenerator) -> (r: Option<T>)
        requires
            self.total() >= 0,
            nonnegative_weights(self@),
        ensures
            self.total() == 0 ==> r is None,
            self.total() > 0 ==> r is Some,
            self.total() > 0 ==> exists|roll: int| 0 <= roll < self.total() && r == pick_spec(self@, roll),
    {
        proof {
            use_type_invariant(self);
        }
        if self.total_weight == 0 {
            return None;
        }
        let roll = range(rng, 0, self.total_weight);
        let r = self.roll_with(roll);
        proof {
            lemma_roll_in_range_selects(self@, roll as int);
        }
        assert(0 <= (roll as int) < self.total() && r == pick_spec(self@, roll as int));
        r
    }
}

/// A roll lands on the entry whose span of the cumulative weights holds it:
/// with nonnegative weights, a roll `r` with `sum(before k) <= r < sum(before
/// k) + weight(k)` selects entry `k`.
pub proof fn lemma_roll_selects_entry<T>(s: Seq<(T, i32)>, k: int, roll: int)
    requires
        nonnegative_weights(s),
        0 <= k < s.len(),
        sum_weights(s.take(k)) <= roll < sum_weights(s.take(k)) + s[k].1,
    ensures
        pick_spec(s, roll) == Some(s[k].0),
    decreases k,
{
    if k == 0 {
        assert(s.take(0) =~= Seq::<(T, i32)>::empty());
    } else {
        assert(s.take(k).drop_first() =~= s.drop_first().take(k - 1));
        assert(s.take(k)[0] == s[0]);
        lemma_sum_nonnegative(s.drop_first().take(k - 1));
        assert(s.drop_first()[k - 1] == s[k]);
        lemma_roll_selects_entry(s.drop_first(), k - 1, roll - s[0].1);
    }
}

/// Any roll from zero up to (not including) the total weight selects some
/// entry, when no weight is negative.
pub proof fn lemma_roll_in_range_selects<T>(s: Seq<(T, i32)>, roll: int)
    requires
        nonnegative_weights(s),
        0 <= roll < sum_weights(s),
    ensures
        pick_spec(s, roll) is Some,
    decreases s.len(),
{
    if s.len() > 0 && roll >= s[0].1 {
        lemma_roll_in_range_selects(s.drop_first(), roll - s[0].1);
    }
}

pub proof fn lemma_sum_nonnegative<T>(s: Seq<(T, i32)>)
    requires
        nonnegative_weights(s),
    ensures
        sum_weights(s) >= 0,
    decreases s.len(),
{
    if s.len() > 0 {
        lemma_sum_nonnegative(s.drop_first());
    }
}

/// A roll selects an item of the table: some entry holds it.
pub proof fn lemma_pick_is_entry<T>(s: Seq<(T, i32)>, roll: int)
    ensures
        pick_spec(s, roll) matches Some(t) ==> exists|k: int| 0 <= k < s.len() && s[k].0 == t,
    decreases s.len(),
{
    if s.len() > 0 && roll >= s[0].1 {
        lemma_pick_is_entry(s.drop_first(), roll - s[0].1);
        if pick_spec(s, roll) is Some {
            let k = choose|k: int| 0 <= k < s.drop_first().len() && s.drop_first()[k].0 == pick_spec(s, roll)->0;
            assert(s[k + 1] == s.drop_first()[k]);
        }
    }
}

/// With no negative weight, the total is at least the weight of any entry.
pub proof fn lemma_sum_at_least_entry<T>(s: Seq<(T, i32)>, k: int)
    requires
        nonnegative_weights(s),
        0 <= k < s.len(),
    ensures
        sum_weights(s) >= s[k].1,
    decreases s.len(),
{
    if k == 0 {
        lemma_sum_nonnegative(s.drop_first());
    } else {
        lemma_sum_at_least_entry(s.drop_first(), k - 1);
    }
}

} // verus!
