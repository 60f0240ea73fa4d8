//! A deferred side-effect queue.
//!
//! A component owned by some parent cannot call back into that parent while
//! the parent's own call frame still holds exclusive access to the component.
//! Instead of keeping a back-pointer, the component builds a
//! [`MessageToParent`]: an ordered, append-only list of operations aimed at
//! the parent. The message is returned up the call stack by value, and the
//! owner (or any ancestor it is forwarded to) executes it exactly once while
//! it holds exclusive access to the target.

pub mod message;
pub mod parent_child;
pub mod side_effect;

pub use message::MessageError;
pub use message::MessageToParent;
pub use parent_child::Child;
pub use parent_child::Parent;
pub use parent_child::ParentOp;
pub use side_effect::SideEffect;
