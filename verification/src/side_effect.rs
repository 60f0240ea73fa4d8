//! The shape of one deferred operation, and the meaning of running a
//! sequence of them.

use vstd::prelude::*;

verus! {

/// One unit of deferred work aimed at a parent value.
///
/// An operation may carry data owned by the producer that built it, but it
/// holds no reference to the parent: the parent is supplied, by exclusive
/// reference, only at the moment the operation runs. The two spec functions
/// say exactly what running it does — `effect` gives the parent value after
/// the operation, `output` the value it returns.
pub trait SideEffect<ParentType, ReturnType>: Sized {
    /// The parent value after this operation has been applied.
    spec fn effect(self, parent: ParentType) -> ParentType;

    /// The value this operation returns when applied.
    spec fn output(self, parent: ParentType) -> ReturnType;

    /// Apply this operation to the parent.
    fn apply(&self, parent: &mut ParentType) -> (result: ReturnType)
        ensures
            *final(parent) == self.effect(*old(parent)),
            result == self.output(*old(parent)),
    ;
}

/// The parent value after every operation of `ops` has been applied, in
/// order: `ops[0]` first, each later operation seeing the parent as already
/// mutated by the ones before it.
pub open spec fn apply_effects<ParentType, ReturnType, Op: SideEffect<ParentType, ReturnType>>(
    ops: Seq<Op>,
    parent: ParentType,
) -> ParentType
    decreases ops.len(),
{
    if ops.len() == 0 {
        parent
    } else {
        ops.last().effect(apply_effects(ops.drop_last(), parent))
    }
}

/// The results returned by the operations of `ops` when applied in order to
/// `parent`, one per operation: `ops[i]` runs against the parent as mutated
/// by `ops[0]` through `ops[i - 1]`.
pub open spec fn apply_outputs<ParentType, ReturnType, Op: SideEffect<ParentType, ReturnType>>(
    ops: Seq<Op>,
    parent: ParentType,
) -> Seq<ReturnType>
    decreases ops.len(),
{
    if ops.len() == 0 {
        Seq::empty()
    } else {
        apply_outputs(ops.drop_last(), parent).push(
            ops.last().output(apply_effects(ops.drop_last(), parent)),
        )
    }
}

/// Law: running a sequence of operations collects exactly one result per
/// operation.
pub proof fn lemma_outputs_len<P, R, Op: SideEffect<P, R>>(ops: Seq<Op>, parent: P)
    ensures
        apply_outputs(ops, parent).len() == ops.len(),
    decreases ops.len(),
{
    if ops.len() != 0 {
        lemma_outputs_len(ops.drop_last(), parent);
    }
}

/// Law: the `i`-th collected result is the return value of the `i`-th
/// appended operation, applied to the parent as already mutated by the
/// operations appended before it.
pub proof fn lemma_output_at<P, R, Op: SideEffect<P, R>>(ops: Seq<Op>, parent: P, i: int)
    requires
        0 <= i < ops.len(),
    ensures
        apply_outputs(ops, parent)[i] == ops[i].output(apply_effects(ops.take(i), parent)),
    decreases ops.len(),
{
    lemma_outputs_len(ops.drop_last(), parent);
    if i == ops.len() - 1 {
        assert(ops.take(i) =~= ops.drop_last());
    } else {
        lemma_output_at(ops.drop_last(), parent, i);
        assert(ops.drop_last().take(i) =~= ops.take(i));
    }
}

/// Law: an empty sequence of operations leaves the parent untouched and
/// collects no results.
pub proof fn lemma_no_ops_no_effect<P, R, Op: SideEffect<P, R>>(parent: P)
    ensures
        apply_effects(Seq::<Op>::empty(), parent) == parent,
        apply_outputs::<P, R, Op>(Seq::empty(), parent) =~= Seq::<R>::empty(),
{
}

} // verus!
