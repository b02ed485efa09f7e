//! Generic functions and generic data: the largest element of a list, first
//! for one element type at a time and then for every ordered type, and a
//! point whose coordinates share one type.

use core::cmp::Ordering;
use vstd::prelude::*;
use vstd::std_specs::cmp::PartialOrdSpec;

verus! {

/// `m` is the greatest number of `s`: it occurs in `s` and nothing in `s`
/// exceeds it.
pub open spec fn is_largest_i32(s: Seq<i32>, m: i32) -> bool {
    &&& exists|k: int| 0 <= k < s.len() && s[k] == m
    &&& forall|k: int| 0 <= k < s.len() ==> s[k] <= m
}

/// `m` is the greatest character of `s`, by code point.
pub open spec fn is_largest_char(s: Seq<char>, m: char) -> bool {
    &&& exists|k: int| 0 <= k < s.len() && s[k] == m
    &&& forall|k: int| 0 <= k < s.len() ==> s[k] <= m
}

/// The greatest number of a slice, which must not be empty.
pub fn largest_i32_reference(list: &[i32]) -> (largest: i32)
    requires
        list@.len() > 0,
    ensures
        is_largest_i32(list@, largest),
{
    let mut largest: i32 = list[0];
    let mut i: usize = 1;
    while i < list.len()
        invariant
            1 <= i <= list@.len(),
            exists|k: int| 0 <= k < i && list@[k] == largest,
            forall|k: int| 0 <= k < i ==> list@[k] <= largest,
        decreases list@.len() - i,
    {
        let item: i32 = list[i];
        if item > largest {
            largest = item;
        }
        i += 1;
    }
    largest
}

/// The greatest of five numbers.
pub fn largest_i32_fixed_length(list: [i32; 5]) -> (largest: i32)
    ensures
        is_largest_i32(list@, largest),
{
    let mut largest: i32 = list[0];
    let mut i: usize = 1;
    while i < 5
        invariant
            1 <= i <= 5,
            list@.len() == 5,
            exists|k: int| 0 <= k < i && list@[k] == largest,
            forall|k: int| 0 <= k < i ==> list@[k] <= largest,
        decreases 5 - i,
    {
        let item: i32 = list[i];
        if item > largest {
            largest = item;
        }
        i += 1;
    }
    largest
}

/// The greatest character of a slice, which must not be empty.
pub fn largest_char(list: &[char]) -> (largest: char)
    requires
        list@.len() > 0,
    ensures
        is_largest_char(list@, largest),
{
    let mut largest: char = list[0];
    let mut i: usize = 1;
    while i < list.len()
        invariant
            1 <= i <= list@.len(),
            exists|k: int| 0 <= k < i && list@[k] == largest,
            forall|k: int| 0 <= k < i ==> list@[k] <= largest,
        decreases list@.len() - i,
    {
        let item: char = list[i];
        if item > largest {
            largest = item;
        }
        i += 1;
    }
    largest
}

/// `a > b`, as the type's comparison defines it.
pub open spec fn exceeds<T: PartialOrd>(a: T, b: T) -> bool {
    a.partial_cmp_spec(&b) == Some(Ordering::Greater)
}

/// The type's `>` is known to compute what its specification says.
pub open spec fn comparison_is_specified<T: PartialOrd>() -> bool {
    T::obeys_partial_cmp_spec()
}

/// `>` is a strict order on `T`: nothing exceeds itself, and what exceeds a
/// value exceeds everything that the value exceeds.
pub open spec fn exceeds_is_strict_order<T: PartialOrd>() -> bool {
    &&& forall|a: T| !#[trigger] exceeds(a, a)
    &&& forall|a: T, b: T, c: T| #[trigger]
        exceeds(a, b) && #[trigger] exceeds(b, c) ==> exceeds(a, c)
}

/// The element that a scan from the left ends with when it starts with the
/// first element and moves on to each later element that exceeds the one it
/// holds. Under a partial order, elements that cannot be compared with the
/// held one are passed over.
pub open spec fn running_largest<T: PartialOrd>(s: Seq<T>) -> T
    recommends
        s.len() > 0,
    decreases s.len(),
{
    if s.len() <= 1 {
        s[0]
    } else {
        let held = running_largest(s.drop_last());
        if exceeds(s.last(), held) {
            s.last()
        } else {
            held
        }
    }
}

/// The largest element of a slice, which must not be empty, for any type
/// with `>`: the element that a scan from the left ends with.
///
/// Without a specification of the type's `>` all that can be said is that
/// the result is one of the elements.
pub fn largest<T: PartialOrd + Copy>(list: &[T]) -> (largest: &T)
    requires
        list@.len() > 0,
    ensures
        exists|k: int| 0 <= k < list@.len() && list@[k] == *largest,
        comparison_is_specified::<T>() ==> *largest == running_largest(list@),
{
    let mut largest: &T = &list[0];
    let mut i: usize = 1;
    while i < list.len()
        invariant
            1 <= i <= list@.len(),
            exists|k: int| 0 <= k < i && list@[k] == *largest,
            comparison_is_specified::<T>() ==> *largest == running_largest(list@.take(i as int)),
        decreases list@.len() - i,
    {
        let item: &T = &list[i];
        assert(list@.take(i + 1).drop_last() =~= list@.take(i as int));
        if *item > *largest {
            largest = item;
        }
        i += 1;
    }
    assert(list@.take(i as int) =~= list@);
    largest
}

/// Where `>` is a strict order, no element of the list exceeds the one that
/// the scan ends with: the result of [`largest`] is maximal.
pub proof fn lemma_running_largest_is_maximal<T: PartialOrd>(s: Seq<T>, k: int)
    requires
        0 <= k < s.len(),
        exceeds_is_strict_order::<T>(),
    ensures
        !exceeds(s[k], running_largest(s)),
    decreases s.len(),
{
    if s.len() > 1 {
        let front = s.drop_last();
        let held = running_largest(front);
        if k < s.len() - 1 {
            lemma_running_largest_is_maximal(front, k);
            assert(front[k] == s[k]);
            if exceeds(s.last(), held) && exceeds(s[k], s.last()) {
                assert(exceeds(s[k], held));
            }
        }
    }
}

/// On numbers the scan ends with the greatest of them.
pub proof fn lemma_running_largest_of_numbers(s: Seq<i32>)
    requires
        s.len() > 0,
    ensures
        is_largest_i32(s, running_largest(s)),
    decreases s.len(),
{
    if s.len() > 1 {
        let front = s.drop_last();
        lemma_running_largest_of_numbers(front);
        let held = running_largest(front);
        let w = choose|k: int| 0 <= k < front.len() && front[k] == held;
        assert(s[w] == held);
        assert(s[s.len() - 1] == s.last());
        assert forall|k: int| 0 <= k < s.len() implies s[k] <= running_largest(s) by {
            if k < s.len() - 1 {
                assert(front[k] == s[k]);
            }
        }
    } else {
        assert(s[0] == running_largest(s));
    }
}

/// A point in the plane whose two coordinates have the same type.
#[derive(Debug)]
pub struct Point<T> {
    pub x: T,
    pub y: T,
}

impl Point<i32> {
    /// The first coordinate of a point with whole-number coordinates.
    pub fn get_x(&self) -> (x: &i32)
        ensures
            *x == self.x,
    {
        &self.x
    }
}

} // verus!
