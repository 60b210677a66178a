//! Reconciling a tag's artwork list with a desired one, position by position.

use vstd::prelude::*;

verus! {

/// One step of a reconciliation.
#[derive(Debug, Clone, Copy, PartialEq, Eq, Structural)]
pub enum ArtworkOp {
    /// Put the desired item of this index at this index; beyond the end of
    /// the list the item is appended.
    SetAt(usize),
    /// Take the item at this index out of the list.
    RemoveAt(usize),
}

/// The number of steps that turn a list of `current` items into one of
/// `desired` items.
pub open spec fn spec_plan_len(current: nat, desired: nat) -> nat {
    if current > desired {
        current
    } else {
        desired
    }
}

/// The steps that turn a list of `current` items into the desired list of
/// `desired` items: one `SetAt` for each desired index, in rising order, then
/// one `RemoveAt` for each index left over, from the last one down.
pub open spec fn spec_plan(current: nat, desired: nat) -> Seq<ArtworkOp> {
    Seq::new(
        spec_plan_len(current, desired),
        |k: int|
            if k < desired {
                ArtworkOp::SetAt(k as usize)
            } else {
                ArtworkOp::RemoveAt((current - 1 - (k - desired)) as usize)
            },
    )
}

/// A list after one step towards `desired`.
pub open spec fn spec_apply_op<T>(list: Seq<T>, op: ArtworkOp, desired: Seq<T>) -> Seq<T> {
    match op {
        ArtworkOp::SetAt(i) => if i < list.len() {
            list.update(i as int, desired[i as int])
        } else {
            list.push(desired[i as int])
        },
        ArtworkOp::RemoveAt(i) => list.remove(i as int),
    }
}

/// A list after a sequence of steps towards `desired`, first step first.
pub open spec fn spec_apply<T>(list: Seq<T>, ops: Seq<ArtworkOp>, desired: Seq<T>) -> Seq<T>
    decreases ops.len(),
{
    if ops.len() == 0 {
        list
    } else {
        spec_apply_op(spec_apply(list, ops.drop_last(), desired), ops.last(), desired)
    }
}

/// Whether a step stays within a list of `len` items: a `SetAt` names a
/// desired item and a place in the list or right behind it, a `RemoveAt` a
/// place in the list.
pub open spec fn spec_op_in_bounds(len: nat, op: ArtworkOp, desired: nat) -> bool {
    match op {
        ArtworkOp::SetAt(i) => i < desired && i <= len,
        ArtworkOp::RemoveAt(i) => i < len,
    }
}

/// The list after the first `k` steps of the plan: the desired items up to
/// where the steps have come, and behind them what is left of the current
/// list.
pub open spec fn spec_midway<T>(current: Seq<T>, desired: Seq<T>, k: nat) -> Seq<T> {
    if k <= desired.len() {
        Seq::new(
            spec_plan_len(current.len(), k),
            |i: int|
                if i < k {
                    desired[i]
                } else {
                    current[i]
                },
        )
    } else {
        Seq::new(
            (current.len() - (k - desired.len())) as nat,
            |i: int|
                if i < desired.len() {
                    desired[i]
                } else {
                    current[i]
                },
        )
    }
}

/// The steps that turn a list of `current` items into one of `desired` items.
pub fn reconcile_plan(current: usize, desired: usize) -> (plan: Vec<ArtworkOp>)
    ensures
        plan@ == spec_plan(current as nat, desired as nat),
        plan@.len() == spec_plan_len(current as nat, desired as nat),
{
    let mut plan: Vec<ArtworkOp> = Vec::new();
    let mut i: usize = 0;
    while i < desired
        invariant
            i <= desired,
            plan@.len() == i,
            forall|k: int| 0 <= k < i ==> plan@[k] == ArtworkOp::SetAt(k as usize),
        decreases desired - i,
    {
        plan.push(ArtworkOp::SetAt(i));
        i += 1;
    }
    let mut j: usize = current;
    while j > desired
        invariant
            desired <= j || current <= desired,
            j <= current,
            current > desired ==> plan@.len() == desired + (current - j),
            current <= desired ==> plan@.len() == desired && j == current,
            forall|k: int| 0 <= k < desired ==> plan@[k] == ArtworkOp::SetAt(k as usize),
            forall|k: int|
                desired <= k < plan@.len() ==> plan@[k] == ArtworkOp::RemoveAt(
                    (current - 1 - (k - desired)) as usize,
                ),
        decreases j,
    {
        j -= 1;
        plan.push(ArtworkOp::RemoveAt(j));
    }
    assert(plan@ =~= spec_plan(current as nat, desired as nat));
    plan
}

/// One step of the plan takes the list from where the first `k` steps have
/// brought it to where the first `k + 1` bring it, and stays within it.
pub proof fn lemma_plan_step<T>(current: Seq<T>, desired: Seq<T>, k: nat)
    requires
        k < spec_plan_len(current.len(), desired.len()),
        current.len() <= usize::MAX,
        desired.len() <= usize::MAX,
    ensures
        spec_apply_op(
            spec_midway(current, desired, k),
            spec_plan(current.len(), desired.len())[k as int],
            desired,
        ) == spec_midway(current, desired, k + 1),
        spec_op_in_bounds(
            spec_midway(current, desired, k).len(),
            spec_plan(current.len(), desired.len())[k as int],
            desired.len(),
        ),
{
    let before = spec_midway(current, desired, k);
    let op = spec_plan(current.len(), desired.len())[k as int];
    let after = spec_midway(current, desired, k + 1);
    assert(spec_apply_op(before, op, desired) =~= after);
}

/// The first `k` steps of the plan bring the current list to
/// `spec_midway(current, desired, k)`.
pub proof fn lemma_plan_prefix<T>(current: Seq<T>, desired: Seq<T>, k: nat)
    requires
        k <= spec_plan_len(current.len(), desired.len()),
        current.len() <= usize::MAX,
        desired.len() <= usize::MAX,
    ensures
        spec_apply(current, spec_plan(current.len(), desired.len()).take(k as int), desired)
            == spec_midway(current, desired, k),
    decreases k,
{
    let plan = spec_plan(current.len(), desired.len());
    if k == 0 {
        assert(plan.take(0).len() == 0);
        assert(spec_midway(current, desired, 0) =~= current);
    } else {
        let shorter = (k - 1) as nat;
        lemma_plan_prefix(current, desired, shorter);
        lemma_plan_step(current, desired, shorter);
        assert(plan.take(k as int).drop_last() =~= plan.take(shorter as int));
        assert(plan.take(k as int).last() == plan[shorter as int]);
    }
}

/// Reconciliation gives the desired list: whatever the current list holds,
/// the plan for the two lengths turns it into the desired list exactly, with
/// as many steps as the longer of the two lists has items.
pub proof fn lemma_plan_reconciles<T>(current: Seq<T>, desired: Seq<T>)
    requires
        current.len() <= usize::MAX,
        desired.len() <= usize::MAX,
    ensures
        spec_apply(current, spec_plan(current.len(), desired.len()), desired) == desired,
        spec_plan(current.len(), desired.len()).len() == spec_plan_len(
            current.len(),
            desired.len(),
        ),
{
    let plan = spec_plan(current.len(), desired.len());
    let n = spec_plan_len(current.len(), desired.len());
    lemma_plan_prefix(current, desired, n);
    assert(plan.take(n as int) =~= plan);
    assert(spec_midway(current, desired, n) =~= desired);
}

/// No step of the plan reaches beyond the list as it is when the step is
/// taken, and the removals come in falling order of their indices.
pub proof fn lemma_plan_in_bounds<T>(current: Seq<T>, desired: Seq<T>, k: nat)
    requires
        k < spec_plan_len(current.len(), desired.len()),
        current.len() <= usize::MAX,
        desired.len() <= usize::MAX,
    ensures
        spec_op_in_bounds(
            spec_apply(
                current,
                spec_plan(current.len(), desired.len()).take(k as int),
                desired,
            ).len(),
            spec_plan(current.len(), desired.len())[k as int],
            desired.len(),
        ),
        k >= desired.len() ==> spec_plan(current.len(), desired.len())[k as int]
            == ArtworkOp::RemoveAt((current.len() - 1 - (k - desired.len())) as usize),
{
    lemma_plan_prefix(current, desired, k);
    lemma_plan_step(current, desired, k);
}

} // verus!
