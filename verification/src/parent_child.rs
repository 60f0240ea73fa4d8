//! A small owner/component pair exercising the message queue: a `Child`
//! that, without ever holding a reference to its `Parent`, hands back a
//! message of operations for the parent to run on itself.

use vstd::prelude::*;

use crate::message::MessageToParent;
use crate::side_effect::SideEffect;

verus! {

/// A component owned by [`Parent`]. It holds no pointer back to its owner;
/// everything it wants done to the parent travels inside a
/// [`MessageToParent`] returned by value.
pub struct Child {}

/// The owning side of the pair: it holds the [`Child`] and a flag the
/// child's deferred operations may flip.
pub struct Parent {
    pub child: Child,
    pub is_mutant: bool,
}

/// The operations a [`Child`] can defer against its [`Parent`].
#[derive(Clone, Copy, Debug, PartialEq, Eq, Structural)]
pub enum ParentOp {
    /// Announce the attempt; leaves the parent alone and returns `false`.
    Announce,
    /// Let the parent look at itself; leaves it alone and returns `true`.
    Inspect,
    /// Set the parent's flag and return its new value.
    Mutate,
    /// Read the parent's flag without changing it.
    Observe,
}

impl SideEffect<Parent, bool> for ParentOp {
    open spec fn effect(self, parent: Parent) -> Parent {
        match self {
            ParentOp::Mutate => Parent { child: parent.child, is_mutant: true },
            _ => parent,
        }
    }

    open spec fn output(self, parent: Parent) -> bool {
        match self {
            ParentOp::Announce => false,
            ParentOp::Inspect => true,
            ParentOp::Mutate => true,
            ParentOp::Observe => parent.is_mutant,
        }
    }

    fn apply(&self, parent: &mut Parent) -> (result: bool) {
        match self {
            ParentOp::Announce => false,
            ParentOp::Inspect => true,
            ParentOp::Mutate => {
                parent.is_mutant = true;
                parent.is_mutant
            },
            ParentOp::Observe => parent.is_mutant,
        }
    }
}

impl Parent {
    /// A fresh parent whose flag is still unset.
    pub fn new() -> (parent: Self)
        ensures
            !parent.is_mutant,
    {
        Self { child: Child::new(), is_mutant: false }
    }
}

impl Child {
    /// A fresh child.
    pub fn new() -> (child: Self) {
        Self {}
    }

    /// Build the child's mutation attempt: a message that announces itself,
    /// lets the parent inspect itself, flips the parent's flag, and lets the
    /// parent inspect itself once more — all deferred until an owner of the
    /// parent runs the message.
    pub fn mutate_parent(&mut self) -> (message: MessageToParent<Parent, bool, ParentOp>)
        ensures
            message.ops() =~= seq![
                ParentOp::Announce,
                ParentOp::Inspect,
                ParentOp::Mutate,
                ParentOp::Inspect,
            ],
            message.collected() == Seq::<bool>::empty(),
            !message.is_executed(),
            !message.has_collected(),
    {
        let mut returning_message = MessageToParent::<Parent, bool, ParentOp>::new();

        returning_message.add_side_effect(ParentOp::Announce);
        returning_message.add_side_effect(ParentOp::Inspect);
        returning_message.add_side_effect(ParentOp::Mutate);
        returning_message.add_side_effect(ParentOp::Inspect);

        returning_message
    }
}

} // verus!
