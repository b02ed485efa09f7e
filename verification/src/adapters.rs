//! What chains of iterator adapters compute: mapping, filtering, summing,
//! and taking the first items of a sequence without end.

use vstd::prelude::*;

verus! {

/// The sum of the squares of the numbers in `s`.
pub open spec fn sum_of_squares(s: Seq<i32>) -> int
    decreases s.len(),
{
    if s.len() == 0 {
        0
    } else {
        sum_of_squares(s.drop_last()) + s.last() * s.last()
    }
}

/// A sum of squares is not negative.
pub proof fn lemma_sum_of_squares_is_not_negative(s: Seq<i32>)
    ensures
        0 <= sum_of_squares(s),
    decreases s.len(),
{
    if s.len() > 0 {
        lemma_sum_of_squares_is_not_negative(s.drop_last());
        assert(0 <= s.last() * s.last()) by (nonlinear_arith);
    }
}

/// No part of a sum of squares is greater than the whole: neither the sum
/// over a prefix, nor that sum and the square that follows it.
pub proof fn lemma_sum_of_squares_grows(s: Seq<i32>, n: int)
    requires
        0 <= n <= s.len(),
    ensures
        0 <= sum_of_squares(s.take(n)) <= sum_of_squares(s),
        n < s.len() ==> sum_of_squares(s.take(n)) + s[n] * s[n] <= sum_of_squares(s),
    decreases s.len() - n,
{
    lemma_sum_of_squares_is_not_negative(s.take(n));
    if n < s.len() {
        lemma_sum_of_squares_grows(s, n + 1);
        assert(s.take(n + 1).drop_last() =~= s.take(n));
        assert(s.take(n + 1).last() == s[n]);
        assert(0 <= s[n] * s[n]) by (nonlinear_arith);
    } else {
        assert(s.take(n) =~= s);
    }
}

/// Squares every number and adds the squares up, as mapping and summing do.
///
/// The sum has to fit in an `i32`; then every square and every partial sum
/// fits as well.
pub fn squared_sum(numbers: &[i32]) -> (sum: i32)
    requires
        sum_of_squares(numbers@) <= i32::MAX,
    ensures
        sum == sum_of_squares(numbers@),
{
    let mut sum: i32 = 0;
    let mut i: usize = 0;
    assert(numbers@.take(0).len() == 0);
    while i < numbers.len()
        invariant
            i <= numbers@.len(),
            sum == sum_of_squares(numbers@.take(i as int)),
            sum_of_squares(numbers@) <= i32::MAX,
        decreases numbers@.len() - i,
    {
        let x: i32 = numbers[i];
        proof {
            lemma_sum_of_squares_grows(numbers@, i as int);
            assert(numbers@.take(i + 1).drop_last() =~= numbers@.take(i as int));
            assert(numbers@.take(i + 1).last() == x);
            assert(0 <= x * x) by (nonlinear_arith);
        }
        sum = sum + x * x;
        i += 1;
    }
    assert(numbers@.take(i as int) =~= numbers@);
    sum
}

/// Adds one to every number, as mapping does. No number may be the
/// greatest `i32`.
pub fn plus_one(numbers: &[i32]) -> (raised: Vec<i32>)
    requires
        forall|k: int| 0 <= k < numbers@.len() ==> numbers@[k] < i32::MAX,
    ensures
        raised@.len() == numbers@.len(),
        forall|k: int| 0 <= k < numbers@.len() ==> raised@[k] == numbers@[k] + 1,
{
    let mut raised: Vec<i32> = Vec::new();
    let mut i: usize = 0;
    while i < numbers.len()
        invariant
            i <= numbers@.len(),
            raised@.len() == i,
            forall|k: int| 0 <= k < numbers@.len() ==> numbers@[k] < i32::MAX,
            forall|k: int| 0 <= k < i ==> raised@[k] == numbers@[k] + 1,
        decreases numbers@.len() - i,
    {
        raised.push(numbers[i] + 1);
        i += 1;
    }
    raised
}

/// Keeps the numbers greater than `bound`, in their order, as filtering
/// does.
pub fn larger_than(numbers: &[i32], bound: i32) -> (kept: Vec<i32>)
    ensures
        kept@ == numbers@.filter(|x: i32| x > bound),
{
    let mut kept: Vec<i32> = Vec::new();
    let mut i: usize = 0;
    let ghost keep = |x: i32| x > bound;
    proof {
        reveal(Seq::filter);
        assert(numbers@.take(0).len() == 0);
    }
    while i < numbers.len()
        invariant
            i <= numbers@.len(),
            keep == (|x: i32| x > bound),
            kept@ == numbers@.take(i as int).filter(keep),
        decreases numbers@.len() - i,
    {
        let x: i32 = numbers[i];
        proof {
            reveal(Seq::filter);
            assert(numbers@.take(i + 1).drop_last() =~= numbers@.take(i as int));
            assert(numbers@.take(i + 1).last() == x);
        }
        if x > bound {
            kept.push(x);
        }
        i += 1;
    }
    assert(numbers@.take(i as int) =~= numbers@);
    kept
}

/// The largest `count` for which [`successor_squares`] stays within `i32`.
pub const MAX_SUCCESSOR_SQUARES: usize = 46339;

/// The first `count` items of the sequence without end that starts at one,
/// adds one to each number and squares the result: 4, 9, 16 and so on.
pub fn successor_squares(count: usize) -> (squares: Vec<i32>)
    requires
        count <= MAX_SUCCESSOR_SQUARES,
    ensures
        squares@.len() == count,
        forall|k: int| 0 <= k < count ==> squares@[k] == (k + 2) * (k + 2),
{
    let mut squares: Vec<i32> = Vec::new();
    let mut x: i32 = 1;
    while squares.len() < count
        invariant
            squares@.len() <= count <= MAX_SUCCESSOR_SQUARES,
            x == squares@.len() + 1,
            forall|k: int| 0 <= k < squares@.len() ==> squares@[k] == (k + 2) * (k + 2),
        decreases count - squares@.len(),
    {
        let successor: i32 = x + 1;
        assert(0 <= successor * successor <= 46340 * 46340) by (nonlinear_arith)
            requires
                0 <= successor <= 46340,
        ;
        squares.push(successor * successor);
        x = successor;
    }
    squares
}

} // verus!
