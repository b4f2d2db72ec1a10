//! Point-indexed arrays: one row for each point of the scene.
//!
//! Every array that belongs to the point set (a parameter group, a moment
//! buffer, an accumulator) is a `Vec` whose position is the point's index.
//! The operations here rebuild such arrays when the point set changes.

use vstd::prelude::*;

verus! {

/// The positions at which `mask` holds, in ascending order.
pub open spec fn positions(mask: Seq<bool>) -> Seq<usize>
    decreases mask.len(),
{
    if mask.len() == 0 {
        Seq::empty()
    } else {
        let front = positions(mask.drop_last());
        if mask.last() {
            front.push((mask.len() - 1) as usize)
        } else {
            front
        }
    }
}

/// Whether every index in `indices` names a row of an array of `len` rows.
pub open spec fn in_bounds(indices: Seq<usize>, len: nat) -> bool {
    forall|k: int| 0 <= k < indices.len() ==> (#[trigger] indices[k]) < len
}

/// The rows of `rows` that `indices` names, in the order of `indices`.
pub open spec fn gathered<R>(rows: Seq<R>, indices: Seq<usize>) -> Seq<R> {
    Seq::new(indices.len(), |k: int| rows[indices[k] as int])
}

/// `len` rows that all equal `value`.
pub open spec fn filled<R>(len: nat, value: R) -> Seq<R> {
    Seq::new(len, |i: int| value)
}

/// Row by row, `chosen` where `mask` holds and `kept` where it does not.
pub open spec fn merged<R>(mask: Seq<bool>, chosen: Seq<R>, kept: Seq<R>) -> Seq<R> {
    Seq::new(
        kept.len(),
        |i: int|
            if mask[i] {
                chosen[i]
            } else {
                kept[i]
            },
    )
}

/// `positions` lists exactly the positions at which the mask holds, each
/// once and in ascending order.
pub proof fn lemma_positions(mask: Seq<bool>)
    requires
        mask.len() <= usize::MAX,
    ensures
        positions(mask).len() <= mask.len(),
        in_bounds(positions(mask), mask.len()),
        forall|k: int| 0 <= k < positions(mask).len() ==> mask[(#[trigger] positions(mask)[k]) as int],
        forall|j: int, k: int|
            0 <= j < k < positions(mask).len() ==> (#[trigger] positions(mask)[j]) < (
            #[trigger] positions(mask)[k]),
        forall|i: int|
            0 <= i < mask.len() && mask[i] ==> exists|k: int|
                0 <= k < positions(mask).len() && #[trigger] positions(mask)[k] == i,
    decreases mask.len(),
{
    if mask.len() > 0 {
        let front = mask.drop_last();
        lemma_positions(front);
        assert forall|i: int| 0 <= i < mask.len() && mask[i] implies exists|k: int|
            0 <= k < positions(mask).len() && #[trigger] positions(mask)[k] == i by {
            if i < mask.len() - 1 {
                assert(front[i]);
                let k = choose|k: int|
                    0 <= k < positions(front).len() && #[trigger] positions(front)[k] == i;
                assert(positions(mask)[k] == i);
            } else {
                assert(positions(mask)[positions(mask).len() - 1] == i);
            }
        }
        assert forall|k: int| 0 <= k < positions(mask).len() implies mask[(
        #[trigger] positions(mask)[k]) as int] by {
            if k < positions(front).len() {
                assert(positions(mask)[k] == positions(front)[k]);
                assert(front[positions(front)[k] as int]);
            }
        }
    }
}

/// A position belongs to `positions` exactly when the mask holds there.
pub proof fn lemma_positions_contains(mask: Seq<bool>, i: usize)
    requires
        mask.len() <= usize::MAX,
    ensures
        positions(mask).contains(i) <==> (i < mask.len() && mask[i as int]),
{
    lemma_positions(mask);
    if positions(mask).contains(i) {
        let k = choose|k: int| 0 <= k < positions(mask).len() && positions(mask)[k] == i;
        assert(mask[positions(mask)[k] as int]);
    }
    if i < mask.len() && mask[i as int] {
        let k = choose|k: int|
            0 <= k < positions(mask).len() && #[trigger] positions(mask)[k] == i as int;
        assert(positions(mask)[k] == i);
    }
}

/// The indices of the rows at which `mask` holds.
pub fn argwhere(mask: &Vec<bool>) -> (indices: Vec<usize>)
    ensures
        indices@ == positions(mask@),
{
    let mut indices: Vec<usize> = Vec::new();
    let mut i: usize = 0;
    while i < mask.len()
        invariant
            i <= mask.len(),
            indices@ == positions(mask@.take(i as int)),
        decreases mask.len() - i,
    {
        proof {
            assert(mask@.take(i + 1).drop_last() == mask@.take(i as int));
        }
        if mask[i] {
            indices.push(i);
        }
        i += 1;
    }
    proof {
        assert(mask@.take(i as int) == mask@);
    }
    indices
}

/// The rows that `indices` names, in the order of `indices`.
pub fn select<R: Copy>(rows: &Vec<R>, indices: &Vec<usize>) -> (out: Vec<R>)
    requires
        in_bounds(indices@, rows@.len()),
    ensures
        out@ == gathered(rows@, indices@),
{
    let mut out: Vec<R> = Vec::new();
    let mut k: usize = 0;
    while k < indices.len()
        invariant
            k <= indices.len(),
            in_bounds(indices@, rows@.len()),
            out@ == gathered(rows@, indices@.take(k as int)),
        decreases indices.len() - k,
    {
        out.push(rows[indices[k]]);
        k += 1;
        proof {
            assert(out@ == gathered(rows@, indices@.take(k as int)));
        }
    }
    proof {
        assert(indices@.take(k as int) == indices@);
    }
    out
}

/// An array of `len` rows that all equal `value`.
pub fn full<R: Copy>(len: usize, value: R) -> (out: Vec<R>)
    ensures
        out@ == filled(len as nat, value),
{
    let mut out: Vec<R> = Vec::new();
    let mut i: usize = 0;
    while i < len
        invariant
            i <= len,
            out@ == filled(i as nat, value),
        decreases len - i,
    {
        out.push(value);
        i += 1;
    }
    out
}

/// Appends the rows of `tail` to `rows`.
pub fn extend<R: Copy>(rows: &mut Vec<R>, tail: &Vec<R>)
    ensures
        final(rows)@ == old(rows)@ + tail@,
{
    let mut i: usize = 0;
    while i < tail.len()
        invariant
            i <= tail.len(),
            rows@ == old(rows)@ + tail@.take(i as int),
        decreases tail.len() - i,
    {
        rows.push(tail[i]);
        i += 1;
    }
    proof {
        assert(tail@.take(i as int) == tail@);
    }
}

/// Row by row, `chosen` where `mask` holds and `kept` where it does not.
pub fn mask_where<R: Copy>(kept: &Vec<R>, mask: &Vec<bool>, chosen: &Vec<R>) -> (out: Vec<R>)
    requires
        mask@.len() == kept@.len(),
        chosen@.len() == kept@.len(),
    ensures
        out@ == merged(mask@, chosen@, kept@),
{
    let mut out: Vec<R> = Vec::new();
    let mut i: usize = 0;
    while i < kept.len()
        invariant
            i <= kept.len(),
            mask@.len() == kept@.len(),
            chosen@.len() == kept@.len(),
            out@ == merged(mask@, chosen@, kept@).take(i as int),
        decreases kept.len() - i,
    {
        if mask[i] {
            out.push(chosen[i]);
        } else {
            out.push(kept[i]);
        }
        i += 1;
    }
    proof {
        assert(merged(mask@, chosen@, kept@).take(i as int) == merged(mask@, chosen@, kept@));
    }
    out
}

} // verus!
