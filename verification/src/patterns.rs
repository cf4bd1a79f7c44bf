//! Macros by pattern, each written out as the function that its rules compute.

use vstd::prelude::*;

use crate::syntax::ExpandError;
use crate::text::{append_all, concat_all, texts};

verus! {

/// The values of a list of machine integers.
pub open spec fn ints(values: Seq<i32>) -> Seq<int> {
    values.map_values(|v: i32| v as int)
}

/// What the two rules of the minimum macro compute on one or more values: a
/// single value is itself; a first value followed by others is the smaller of the
/// first and what the same macro gives for the others.
pub open spec fn nested_min(values: Seq<int>) -> int
    decreases values.len(),
{
    if values.len() <= 1 {
        values[0]
    } else {
        let rest = nested_min(values.drop_first());
        if values[0] <= rest {
            values[0]
        } else {
            rest
        }
    }
}

/// The nested expansion is the minimum of the values: it is one of them, and none
/// of them is smaller.
pub proof fn nested_min_is_minimum(values: Seq<int>)
    requires
        values.len() >= 1,
    ensures
        values.contains(nested_min(values)),
        forall|i: int| 0 <= i < values.len() ==> nested_min(values) <= values[i],
    decreases values.len(),
{
    if values.len() > 1 {
        let rest = values.drop_first();
        nested_min_is_minimum(rest);
        let k = choose|k: int| 0 <= k < rest.len() && rest[k] == nested_min(rest);
        assert(values[k + 1] == rest[k]);
        assert forall|i: int| 0 <= i < values.len() implies nested_min(values) <= values[i] by {
            if i > 0 {
                assert(values[i] == rest[i - 1]);
            }
        }
    }
}

/// The minimum of one or more values. With no value at all no rule of the macro
/// matches, and the result is `NoRuleMatches`.
pub fn find_min(values: &[i32]) -> (r: Result<i32, ExpandError>)
    ensures
        values@.len() == 0 ==> r == Err::<i32, ExpandError>(ExpandError::NoRuleMatches),
        values@.len() > 0 ==> r is Ok && r->Ok_0 == nested_min(ints(values@)),
        values@.len() > 0 ==> values@.contains(r->Ok_0),
        forall|i: int| 0 <= i < values@.len() ==> r->Ok_0 <= values@[i],
{
    let n = values.len();
    if n == 0 {
        return Err(ExpandError::NoRuleMatches);
    }
    let mut best: i32 = values[n - 1];
    let mut start: usize = n - 1;
    proof {
        assert(ints(values@).skip(n - 1) =~= seq![values@[n - 1] as int]);
    }
    while start > 0
        invariant
            0 <= start < n,
            n == values@.len(),
            best == nested_min(ints(values@).skip(start as int)),
        decreases start,
    {
        start = start - 1;
        proof {
            let tail = ints(values@).skip(start as int);
            assert(tail.drop_first() =~= ints(values@).skip(start + 1));
            assert(tail[0] == values@[start as int]);
        }
        if values[start] <= best {
            best = values[start];
        }
    }
    proof {
        let all = ints(values@);
        assert(all.skip(0) =~= all);
        nested_min_is_minimum(all);
        let k = choose|k: int| 0 <= k < all.len() && all[k] == nested_min(all);
        assert(values@[k] == best);
        assert forall|i: int| 0 <= i < values@.len() implies best <= values@[i] by {
            assert(all[i] == values@[i]);
        }
    }
    Ok(best)
}

/// The list form of the vector macro: the elements as given, in order, with
/// every duplicate kept.
pub fn vector_from_elements<T: Copy>(elements: &[T]) -> (v: Vec<T>)
    ensures
        v@ == elements@,
{
    let mut temp_vec: Vec<T> = Vec::new();
    let mut i: usize = 0;
    while i < elements.len()
        invariant
            i <= elements@.len(),
            temp_vec@ == elements@.take(i as int),
        decreases elements@.len() - i,
    {
        temp_vec.push(elements[i]);
        proof {
            assert(temp_vec@ =~= elements@.take(i + 1));
        }
        i = i + 1;
    }
    proof {
        assert(elements@.take(elements@.len() as int) =~= elements@);
    }
    temp_vec
}

/// The value-and-count form of the vector macro: `count` copies of `elem`.
pub fn vector_from_count<T: Copy>(elem: T, count: usize) -> (v: Vec<T>)
    ensures
        v@ == Seq::new(count as nat, |i: int| elem),
{
    let mut temp_vec: Vec<T> = Vec::new();
    let mut i: usize = 0;
    while i < count
        invariant
            i <= count,
            temp_vec@ == Seq::new(i as nat, |k: int| elem),
        decreases count - i,
    {
        temp_vec.push(elem);
        proof {
            assert(temp_vec@ =~= Seq::new((i + 1) as nat, |k: int| elem));
        }
        i = i + 1;
    }
    temp_vec
}

/// One step of the paired repetition: a declaration of the `i`-th name of each list.
pub open spec fn paired_declarations(first: Seq<Seq<char>>, second: Seq<Seq<char>>) -> Seq<
    Seq<char>,
> {
    Seq::new(first.len(), |i: int| "let "@ + first[i] + ": (); let "@ + second[i] + ": (); "@)
}

/// Two lists of names that repeat together: one pair of declarations for each
/// position. Lists of different lengths give `CountMismatch` with both lengths;
/// nothing is cut off and nothing is filled in.
pub fn repeat_two(first: &Vec<String>, second: &Vec<String>) -> (r: Result<String, ExpandError>)
    ensures
        first@.len() == second@.len() ==> r is Ok && r->Ok_0@ == concat_all(
            paired_declarations(texts(first@), texts(second@)),
        ),
        first@.len() != second@.len() ==> r == Err::<String, ExpandError>(
            ExpandError::CountMismatch { first: first.len(), second: second.len() },
        ),
{
    if first.len() != second.len() {
        return Err(ExpandError::CountMismatch { first: first.len(), second: second.len() });
    }
    let mut steps: Vec<String> = Vec::new();
    let mut i: usize = 0;
    while i < first.len()
        invariant
            i <= first.len(),
            first.len() == second.len(),
            steps@.len() == i,
            forall|k: int|
                0 <= k < i ==> steps@[k]@ == "let "@ + first@[k]@ + ": (); let "@ + second@[k]@
                    + ": (); "@,
        decreases first.len() - i,
    {
        let mut step = String::new();
        step.push_str("let ");
        step.push_str(first[i].as_str());
        step.push_str(": (); let ");
        step.push_str(second[i].as_str());
        step.push_str(": (); ");
        proof {
            assert(step@ =~= "let "@ + first@[i as int]@ + ": (); let "@ + second@[i as int]@
                + ": (); "@);
        }
        steps.push(step);
        i = i + 1;
    }
    proof {
        assert(texts(steps@) =~= paired_declarations(texts(first@), texts(second@)));
    }
    Ok(append_all(&steps))
}

} // verus!
