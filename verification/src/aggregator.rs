//! The collection of worker averages and its reduction to a mean of means.

use vstd::prelude::*;

verus! {

/// `total` is a value that `plus` may give when the items of `values` are
/// added to `start` one by one, the first item first.
pub open spec fn sums_to<T, P: Fn(T, T) -> T>(plus: P, start: T, values: Seq<T>, total: T) -> bool
    decreases values.len(),
{
    if values.len() == 0 {
        total == start
    } else {
        exists|partial: T|
            sums_to(plus, start, values.drop_last(), partial) && #[trigger] call_ensures(
                plus,
                (partial, values.last()),
                total,
            )
    }
}

/// Adding one more item extends a sum by one application of `plus`.
pub proof fn lemma_sums_to_push<T, P: Fn(T, T) -> T>(
    plus: P,
    start: T,
    values: Seq<T>,
    partial: T,
    item: T,
    total: T,
)
    requires
        sums_to(plus, start, values, partial),
        call_ensures(plus, (partial, item), total),
    ensures
        sums_to(plus, start, values.push(item), total),
{
    let longer = values.push(item);
    assert(longer.drop_last() =~= values);
    assert(longer.last() == item);
}

/// `result` is a value that reducing `values` may give: `zero` where there
/// are no values, else their sum from `zero` divided by how many they are.
pub open spec fn is_final_aggregate<T, P: Fn(T, T) -> T, Q: Fn(T, usize) -> T>(
    plus: P,
    over: Q,
    zero: T,
    values: Seq<T>,
    result: T,
) -> bool {
    if values.len() == 0 {
        result == zero
    } else {
        exists|total: T, count: usize|
            count == values.len() && sums_to(plus, zero, values, total)
                && #[trigger] call_ensures(over, (total, count), result)
    }
}

/// The averages that workers have contributed, in the order of their arrival.
#[derive(Debug)]
pub struct AggregatorData<T> {
    averages: Vec<T>,
}

impl<T> View for AggregatorData<T> {
    type V = Seq<T>;

    closed spec fn view(&self) -> Seq<T> {
        self.averages@
    }
}

impl<T: Copy> AggregatorData<T> {
    /// An aggregator that holds no average yet.
    pub fn new() -> (result: Self)
        ensures
            result@ == Seq::<T>::empty(),
    {
        AggregatorData { averages: Vec::new() }
    }

    /// Appends one average behind those already held.
    pub fn add_average(&mut self, average: T)
        ensures
            final(self)@ == old(self)@.push(average),
    {
        self.averages.push(average);
    }

    /// How many averages are held.
    pub fn len(&self) -> (result: usize)
        ensures
            result == self@.len(),
    {
        self.averages.len()
    }

    /// The mean of the averages held, or `zero` where none is held.
    ///
    /// The sum is taken from `zero`, one average after the other in the
    /// order of their arrival, and divided by their number. `plus` and
    /// `over` must accept what they are handed on that way, and no more.
    pub fn calculate_final_aggregate<P: Fn(T, T) -> T, Q: Fn(T, usize) -> T>(
        &self,
        zero: T,
        plus: P,
        over: Q,
    ) -> (result: T)
        requires
            forall|partial: T, i: int|
                0 <= i < self@.len() && #[trigger] sums_to(plus, zero, self@.take(i), partial)
                    ==> call_requires(plus, (partial, self@[i])),
            forall|total: T, count: usize|
                0 < count == self@.len() && sums_to(plus, zero, self@, total)
                    ==> #[trigger] call_requires(over, (total, count)),
        ensures
            is_final_aggregate(plus, over, zero, self@, result),
    {
        let count = self.averages.len();
        if count == 0 {
            return zero;
        }
        let mut total = zero;
        let mut i: usize = 0;
        while i < count
            invariant
                count == self@.len(),
                self@ == self.averages@,
                i <= count,
                sums_to(plus, zero, self@.take(i as int), total),
                forall|partial: T, j: int|
                    0 <= j < self@.len() && #[trigger] sums_to(plus, zero, self@.take(j), partial)
                        ==> call_requires(plus, (partial, self@[j])),
            decreases count - i,
        {
            let next = plus(total, self.averages[i]);
            proof {
                lemma_sums_to_push(plus, zero, self@.take(i as int), total, self@[i as int], next);
                assert(self@.take(i as int).push(self@[i as int]) =~= self@.take(i + 1));
            }
            total = next;
            i += 1;
        }
        assert(self@.take(count as int) =~= self@);
        over(total, count)
    }
}

/// Whatever `plus` hands back for a pair is what `spec_plus` gives for it.
pub open spec fn computes_sum<T, P: Fn(T, T) -> T>(plus: P, spec_plus: spec_fn(T, T) -> T) -> bool {
    forall|a: T, b: T, r: T| #[trigger] call_ensures(plus, (a, b), r) ==> r == spec_plus(a, b)
}

/// Whatever `over` hands back for a value and a count is what `spec_over`
/// gives for them.
pub open spec fn computes_quotient<T, Q: Fn(T, usize) -> T>(
    over: Q,
    spec_over: spec_fn(T, nat) -> T,
) -> bool {
    forall|a: T, n: usize, r: T| #[trigger]
        call_ensures(over, (a, n), r) ==> r == spec_over(a, n as nat)
}

/// The sum does not depend on the order or the grouping of its terms.
pub open spec fn order_free<T>(spec_plus: spec_fn(T, T) -> T) -> bool {
    &&& forall|a: T, b: T| #[trigger] spec_plus(a, b) == spec_plus(b, a)
    &&& forall|a: T, b: T, c: T| #[trigger]
        spec_plus(spec_plus(a, b), c) == spec_plus(a, spec_plus(b, c))
}

/// The mean of `values`: their sum from `zero` divided by their number, or
/// `zero` itself where there is no value.
pub open spec fn mean_of<T>(
    spec_plus: spec_fn(T, T) -> T,
    spec_over: spec_fn(T, nat) -> T,
    zero: T,
    values: Seq<T>,
) -> T {
    if values.len() == 0 {
        zero
    } else {
        spec_over(values.fold_left(zero, spec_plus), values.len())
    }
}

/// Where `plus` computes `spec_plus`, a sum built with it is the left fold
/// of `spec_plus` over the values.
pub proof fn lemma_sums_to_fold<T, P: Fn(T, T) -> T>(
    plus: P,
    spec_plus: spec_fn(T, T) -> T,
    start: T,
    values: Seq<T>,
    total: T,
)
    requires
        computes_sum(plus, spec_plus),
        sums_to(plus, start, values, total),
    ensures
        total == values.fold_left(start, spec_plus),
    decreases values.len(),
{
    if values.len() > 0 {
        let partial = choose|partial: T|
            sums_to(plus, start, values.drop_last(), partial) && #[trigger] call_ensures(
                plus,
                (partial, values.last()),
                total,
            );
        lemma_sums_to_fold(plus, spec_plus, start, values.drop_last(), partial);
    }
}

/// The final aggregate is the mean: where `plus` and `over` compute
/// `spec_plus` and `spec_over`, every value that the reduction may give is
/// the sum of the averages divided by their number, and `zero` for none.
pub proof fn lemma_final_aggregate_is_mean<T, P: Fn(T, T) -> T, Q: Fn(T, usize) -> T>(
    plus: P,
    over: Q,
    spec_plus: spec_fn(T, T) -> T,
    spec_over: spec_fn(T, nat) -> T,
    zero: T,
    values: Seq<T>,
    result: T,
)
    requires
        computes_sum(plus, spec_plus),
        computes_quotient(over, spec_over),
        is_final_aggregate(plus, over, zero, values, result),
    ensures
        result == mean_of(spec_plus, spec_over, zero, values),
{
    if values.len() > 0 {
        let (total, count) = choose|total: T, count: usize|
            count == values.len() && sums_to(plus, zero, values, total)
                && #[trigger] call_ensures(over, (total, count), result);
        lemma_sums_to_fold(plus, spec_plus, zero, values, total);
    }
}

/// Order independence: where the sum is free of order and grouping, two
/// sequences that hold the same values the same number of times have the
/// same mean.
pub proof fn lemma_mean_ignores_order<T>(
    spec_plus: spec_fn(T, T) -> T,
    spec_over: spec_fn(T, nat) -> T,
    zero: T,
    first: Seq<T>,
    second: Seq<T>,
)
    requires
        order_free(spec_plus),
        first.to_multiset() == second.to_multiset(),
    ensures
        mean_of(spec_plus, spec_over, zero, first) == mean_of(spec_plus, spec_over, zero, second),
{
    first.to_multiset_ensures();
    second.to_multiset_ensures();
    assert forall|x: T, y: T, v: T| #[trigger]
        spec_plus(spec_plus(v, x), y) == spec_plus(spec_plus(v, y), x) by {
        assert(spec_plus(spec_plus(v, x), y) == spec_plus(v, spec_plus(x, y)));
        assert(spec_plus(x, y) == spec_plus(y, x));
        assert(spec_plus(spec_plus(v, y), x) == spec_plus(v, spec_plus(y, x)));
    }
    vstd::seq_lib::lemma_fold_left_permutation(first, second, spec_plus, zero);
}

/// Order independence of the reduction itself: two aggregators that hold
/// the same averages the same number of times, in whatever order they
/// arrived, reduce to the same value, where `plus` and `over` compute a sum
/// free of order and grouping and a quotient.
pub proof fn lemma_final_aggregate_ignores_order<T, P: Fn(T, T) -> T, Q: Fn(T, usize) -> T>(
    plus: P,
    over: Q,
    spec_plus: spec_fn(T, T) -> T,
    spec_over: spec_fn(T, nat) -> T,
    zero: T,
    first: Seq<T>,
    first_result: T,
    second: Seq<T>,
    second_result: T,
)
    requires
        computes_sum(plus, spec_plus),
        computes_quotient(over, spec_over),
        order_free(spec_plus),
        first.to_multiset() == second.to_multiset(),
        is_final_aggregate(plus, over, zero, first, first_result),
        is_final_aggregate(plus, over, zero, second, second_result),
    ensures
        first_result == second_result,
{
    lemma_final_aggregate_is_mean(plus, over, spec_plus, spec_over, zero, first, first_result);
    lemma_final_aggregate_is_mean(plus, over, spec_plus, spec_over, zero, second, second_result);
    lemma_mean_ignores_order(spec_plus, spec_over, zero, first, second);
}

} // verus!
