//! The deferred message: an ordered queue of operations aimed at a parent,
//! executed at most once.

use core::marker::PhantomData;
use vstd::prelude::*;

use crate::side_effect::apply_effects;
use crate::side_effect::apply_outputs;
use crate::side_effect::SideEffect;

verus! {

/// Misuse of a [`MessageToParent`]. Both variants mark a programming defect,
/// not a recoverable condition: a caller that receives one should fail
/// loudly rather than retry or fall back to a default.
#[derive(Clone, Copy, Debug, PartialEq, Eq, Structural)]
pub enum MessageError {
    /// `run_side_effects` or `run_side_effects_accumulate_results` was
    /// called on a message that had already been executed.
    AlreadyExecuted,
    /// `get_results` was called although no executing call asked for the
    /// results to be accumulated.
    ResultsNotAccumulated,
}

/// An ordered, append-only queue of operations aimed at a parent value,
/// together with the state of its single execution.
///
/// A producer builds the message while holding no reference to the parent,
/// then moves it up the call stack; whichever owner holds exclusive access
/// to the parent executes it, exactly once, optionally accumulating the
/// operations' results in order.
pub struct MessageToParent<ParentType, ReturnType, Op> {
    side_effects: Vec<Op>,
    results: Vec<ReturnType>,
    executed: bool,
    has_results: bool,
    parent_marker: PhantomData<ParentType>,
}

impl<ParentType, ReturnType, Op> MessageToParent<ParentType, ReturnType, Op> {
    /// The pending operations, in the order they were appended.
    pub closed spec fn ops(self) -> Seq<Op> {
        self.side_effects@
    }

    /// The results accumulated so far, in operation order.
    pub closed spec fn collected(self) -> Seq<ReturnType> {
        self.results@
    }

    /// Whether the message has been executed.
    pub closed spec fn is_executed(self) -> bool {
        self.executed
    }

    /// Whether an executing call accumulated the operations' results.
    pub closed spec fn has_collected(self) -> bool {
        self.has_results
    }

    /// Well-formedness: results can have been accumulated only by an
    /// executing call, and until one asks for accumulation the collected
    /// sequence stays empty.
    pub open spec fn wf(self) -> bool {
        &&& self.has_collected() ==> self.is_executed()
        &&& !self.has_collected() ==> self.collected() == Seq::<ReturnType>::empty()
    }

    /// A fresh, still-buildable message with no pending operations.
    pub fn new() -> (message: Self)
        ensures
            message.ops() == Seq::<Op>::empty(),
            message.collected() == Seq::<ReturnType>::empty(),
            !message.is_executed(),
            !message.has_collected(),
            message.wf(),
    {
        MessageToParent {
            side_effects: Vec::new(),
            results: Vec::new(),
            executed: false,
            has_results: false,
            parent_marker: PhantomData,
        }
    }

    /// Append one operation to the tail of the queue. The parent will run
    /// the operations in the order they were appended.
    ///
    /// Appending is meaningful only while the message is still being built:
    /// once the message has been executed, the call is ignored.
    pub fn add_side_effect(&mut self, new_side_effect: Op)
        ensures
            !old(self).is_executed() ==> final(self).ops() == old(self).ops().push(
                new_side_effect,
            ),
            old(self).is_executed() ==> final(self).ops() == old(self).ops(),
            final(self).collected() == old(self).collected(),
            final(self).is_executed() == old(self).is_executed(),
            final(self).has_collected() == old(self).has_collected(),
            old(self).wf() ==> final(self).wf(),
    {
        if !self.executed {
            self.side_effects.push(new_side_effect);
        }
    }

    /// Drop every pending operation, leaving the rest of the message as it
    /// was. A producer that changes its mind calls this before the message
    /// is executed; afterwards it is pointless, since the already-executed
    /// guard blocks any further run.
    pub fn clear_side_effects(&mut self)
        ensures
            final(self).ops() == Seq::<Op>::empty(),
            final(self).collected() == old(self).collected(),
            final(self).is_executed() == old(self).is_executed(),
            final(self).has_collected() == old(self).has_collected(),
            old(self).wf() ==> final(self).wf(),
    {
        self.side_effects.clear();
    }

    /// The results accumulated by `run_side_effects_accumulate_results`, in
    /// operation order.
    ///
    /// Fails with [`MessageError::ResultsNotAccumulated`] unless an
    /// accumulating run has happened: asking for results that were never
    /// gathered is a defect the caller must see, not an empty default.
    pub fn get_results(&self) -> (result: Result<&Vec<ReturnType>, MessageError>)
        ensures
            (match result {
                Ok(results) => self.has_collected() && results@ == self.collected(),
                Err(defect) => !self.has_collected() && defect
                    == MessageError::ResultsNotAccumulated,
            }),
    {
        if !self.has_results {
            return Err(MessageError::ResultsNotAccumulated);
        }
        Ok(&self.results)
    }
}

impl<ParentType, ReturnType, Op: SideEffect<ParentType, ReturnType>> MessageToParent<
    ParentType,
    ReturnType,
    Op,
> {
    /// Run every pending operation against `parent`, in append order,
    /// discarding the individual results, and mark the message executed.
    ///
    /// Fails with [`MessageError::AlreadyExecuted`], touching neither the
    /// message nor the parent, if the message was executed before: running a
    /// message twice is a defect, and the guard keeps it from silently
    /// re-applying its operations.
    pub fn run_side_effects(&mut self, parent: &mut ParentType) -> (result: Result<
        (),
        MessageError,
    >)
        ensures
            final(self).ops() == old(self).ops(),
            final(self).collected() == old(self).collected(),
            final(self).has_collected() == old(self).has_collected(),
            old(self).wf() ==> final(self).wf(),
            old(self).is_executed() ==> ({
                &&& result == Err::<(), MessageError>(MessageError::AlreadyExecuted)
                &&& final(self).is_executed()
                &&& *final(parent) == *old(parent)
            }),
            !old(self).is_executed() ==> ({
                &&& result == Ok::<(), MessageError>(())
                &&& final(self).is_executed()
                &&& *final(parent) == apply_effects(old(self).ops(), *old(parent))
            }),
    {
        if self.executed {
            return Err(MessageError::AlreadyExecuted);
        }
        let ghost ops = self.side_effects@;
        let count = self.side_effects.len();
        let mut index: usize = 0;
        while index < count
            invariant
                index <= count,
                count == self.side_effects.len(),
                self.side_effects@ == ops,
                self.results@ == old(self).results@,
                self.executed == old(self).executed,
                self.has_results == old(self).has_results,
                *parent == apply_effects(ops.take(index as int), *old(parent)),
            decreases count - index,
        {
            let operation = &self.side_effects[index];
            operation.apply(parent);
            proof {
                assert(ops.take(index as int + 1).drop_last() =~= ops.take(index as int));
                assert(ops.take(index as int + 1).last() == ops[index as int]);
            }
            index += 1;
        }
        proof {
            assert(ops.take(count as int) =~= ops);
        }
        self.executed = true;
        Ok(())
    }

    /// Run every pending operation against `parent`, in append order, and
    /// additionally record each operation's return value, in the same order,
    /// for `get_results` to hand back. Marks the message executed.
    ///
    /// Fails with [`MessageError::AlreadyExecuted`], touching neither the
    /// message nor the parent, if the message was executed before.
    pub fn run_side_effects_accumulate_results(&mut self, parent: &mut ParentType) -> (result:
        Result<(), MessageError>)
        ensures
            final(self).ops() == old(self).ops(),
            old(self).wf() ==> final(self).wf(),
            old(self).is_executed() ==> ({
                &&& result == Err::<(), MessageError>(MessageError::AlreadyExecuted)
                &&& final(self).is_executed()
                &&& final(self).collected() == old(self).collected()
                &&& final(self).has_collected() == old(self).has_collected()
                &&& *final(parent) == *old(parent)
            }),
            !old(self).is_executed() ==> ({
                &&& result == Ok::<(), MessageError>(())
                &&& final(self).is_executed()
                &&& final(self).has_collected()
                &&& final(self).collected() == old(self).collected() + apply_outputs(
                    old(self).ops(),
                    *old(parent),
                )
                &&& *final(parent) == apply_effects(old(self).ops(), *old(parent))
            }),
    {
        if self.executed {
            return Err(MessageError::AlreadyExecuted);
        }
        let ghost ops = self.side_effects@;
        let count = self.side_effects.len();
        let mut index: usize = 0;
        while index < count
            invariant
                index <= count,
                count == self.side_effects.len(),
                self.side_effects@ == ops,
                self.executed == old(self).executed,
                self.has_results == old(self).has_results,
                self.results@ == old(self).results@ + apply_outputs(
                    ops.take(index as int),
                    *old(parent),
                ),
                *parent == apply_effects(ops.take(index as int), *old(parent)),
            decreases count - index,
        {
            let operation = &self.side_effects[index];
            let output = operation.apply(parent);
            self.results.push(output);
            proof {
                assert(ops.take(index as int + 1).drop_last() =~= ops.take(index as int));
                assert(ops.take(index as int + 1).last() == ops[index as int]);
            }
            index += 1;
        }
        proof {
            assert(ops.take(count as int) =~= ops);
        }
        self.executed = true;
        self.has_results = true;
        Ok(())
    }
}

} // verus!
