//! What it means to sort without changing the order of equals, and the step
//! by which the library's sorts keep it.

use vstd::prelude::*;

verus! {

/// Whether `before` orders values as a ranking does: no value stands before
/// itself or before one that stands before it, and a value that stands
/// before another also stands before everything that the other does not
/// follow.
pub open spec fn is_ranking<T>(before: spec_fn(T, T) -> bool) -> bool {
    &&& forall|a: T, b: T| #[trigger] before(a, b) ==> !before(b, a)
    &&& forall|a: T, b: T, c: T| #[trigger] before(a, b) && !#[trigger] before(c, b) ==> before(a, c)
}

/// Whether `output` is `input` sorted by `before`, where `origin[i]` is the
/// place in `input` of the value at place `i` of `output`: every value of
/// the input stands in the output once, no value stands behind one that it
/// should stand before, and values of equal rank stand in the order of the
/// input.
pub open spec fn is_stable_sort<T>(
    input: Seq<T>,
    output: Seq<T>,
    origin: Seq<int>,
    before: spec_fn(T, T) -> bool,
) -> bool {
    sorts_prefix(input, output, origin, before, input.len() as int)
}

/// Whether the first `count` values of `input` stand sorted in `output`.
pub open spec fn sorts_prefix<T>(
    input: Seq<T>,
    output: Seq<T>,
    origin: Seq<int>,
    before: spec_fn(T, T) -> bool,
    count: int,
) -> bool {
    &&& 0 <= count <= input.len()
    &&& output.len() == count
    &&& origin.len() == count
    &&& forall|i: int|
        0 <= i < count ==> 0 <= #[trigger] origin[i] < count && output[i] == input[origin[i]]
    &&& forall|i: int, j: int| 0 <= i < j < count ==> #[trigger] origin[i] != #[trigger] origin[j]
    &&& forall|i: int, j: int|
        0 <= i < j < count ==> !before(#[trigger] output[j], #[trigger] output[i])
    &&& forall|i: int, j: int|
        0 <= i < j < count && !before(output[i], output[j]) ==> #[trigger] origin[i]
            < #[trigger] origin[j]
}

/// Putting the next value of the input in front of the first one that it
/// stands before keeps the output sorted.
pub proof fn insertion_keeps_sorted<T>(
    input: Seq<T>,
    output: Seq<T>,
    origin: Seq<int>,
    before: spec_fn(T, T) -> bool,
    count: int,
    place: int,
)
    requires
        is_ranking(before),
        0 <= count < input.len(),
        sorts_prefix(input, output, origin, before, count),
        0 <= place <= count,
        forall|k: int| 0 <= k < place ==> !before(input[count], #[trigger] output[k]),
        place < count ==> before(input[count], output[place]),
    ensures
        sorts_prefix(
            input,
            output.insert(place, input[count]),
            origin.insert(place, count),
            before,
            count + 1,
        ),
{
    let x = input[count];
    let out2 = output.insert(place, x);
    let org2 = origin.insert(place, count);
    output.insert_ensures(place, x);
    origin.insert_ensures(place, count);
    assert forall|k: int| place <= k < count implies before(x, #[trigger] output[k]) by {
        if k > place {
            assert(!before(output[k], output[place]));
            assert(before(x, output[place]));
        }
    }
    assert forall|i: int| 0 <= i < count + 1 implies 0 <= #[trigger] org2[i] < count + 1 && out2[i]
        == input[org2[i]] by {
        if i < place {
            assert(org2[i] == origin[i]);
        } else if i > place {
            assert(org2[i] == origin[i - 1]);
            assert(out2[i] == output[i - 1]);
        }
    }
    assert forall|i: int, j: int| 0 <= i < j < count + 1 implies #[trigger] org2[i]
        != #[trigger] org2[j] by {
        let a = if i < place {
            i
        } else {
            i - 1
        };
        let b = if j < place {
            j
        } else {
            j - 1
        };
        if i != place && j != place {
            assert(org2[i] == origin[a]);
            assert(org2[j] == origin[b]);
        } else if i == place {
            assert(org2[j] == origin[b]);
        } else {
            assert(org2[i] == origin[a]);
        }
    }
    assert forall|i: int, j: int| 0 <= i < j < count + 1 implies !before(
        #[trigger] out2[j],
        #[trigger] out2[i],
    ) by {
        let a = if i < place {
            i
        } else {
            i - 1
        };
        let b = if j < place {
            j
        } else {
            j - 1
        };
        if i != place && j != place {
            assert(out2[i] == output[a]);
            assert(out2[j] == output[b]);
        } else if i == place {
            assert(out2[j] == output[b]);
            assert(before(x, output[b]));
        } else {
            assert(out2[i] == output[a]);
        }
    }
    assert forall|i: int, j: int|
        0 <= i < j < count + 1 && !before(out2[i], out2[j]) implies #[trigger] org2[i]
        < #[trigger] org2[j] by {
        let a = if i < place {
            i
        } else {
            i - 1
        };
        let b = if j < place {
            j
        } else {
            j - 1
        };
        if i != place && j != place {
            assert(out2[i] == output[a]);
            assert(out2[j] == output[b]);
            assert(org2[i] == origin[a]);
            assert(org2[j] == origin[b]);
        } else if i == place {
            assert(out2[j] == output[b]);
            assert(before(x, output[b]));
        } else {
            assert(org2[i] == origin[a]);
        }
    }
}

} // verus!
