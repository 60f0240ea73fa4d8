use message_to_parent::MessageError;
use message_to_parent::MessageToParent;
use message_to_parent::Parent;
use message_to_parent::ParentOp;

#[test]
fn run_applies_operations_to_parent() {
    let mut parent = Parent::new();
    let mut message = MessageToParent::<Parent, bool, ParentOp>::new();
    message.add_side_effect(ParentOp::Mutate);

    let outcome = message.run_side_effects(&mut parent);

    assert_eq!(outcome, Ok(()));
    assert!(parent.is_mutant);
}

#[test]
fn accumulate_collects_results_in_append_order() {
    let mut parent = Parent::new();
    let mut message = MessageToParent::<Parent, bool, ParentOp>::new();
    message.add_side_effect(ParentOp::Observe);
    message.add_side_effect(ParentOp::Mutate);
    message.add_side_effect(ParentOp::Observe);

    let outcome = message.run_side_effects_accumulate_results(&mut parent);

    assert_eq!(outcome, Ok(()));
    // The first observation ran before the mutation, the second after it:
    // the order of the results is the order the operations were appended.
    assert_eq!(message.get_results(), Ok(&vec![false, true, true]));
    assert!(parent.is_mutant);
}

#[test]
fn scenario_read_flag_then_set_flag() {
    let mut parent = Parent::new();
    assert!(!parent.is_mutant);

    let mut message = MessageToParent::<Parent, bool, ParentOp>::new();
    message.add_side_effect(ParentOp::Observe);
    message.add_side_effect(ParentOp::Mutate);

    let outcome = message.run_side_effects_accumulate_results(&mut parent);

    assert_eq!(outcome, Ok(()));
    assert_eq!(message.get_results(), Ok(&vec![false, true]));
    assert!(parent.is_mutant);
}

#[test]
fn second_run_fails_as_already_executed() {
    let mut parent = Parent::new();
    let mut message = MessageToParent::<Parent, bool, ParentOp>::new();
    message.add_side_effect(ParentOp::Mutate);

    assert_eq!(message.run_side_effects(&mut parent), Ok(()));
    assert_eq!(
        message.run_side_effects(&mut parent),
        Err(MessageError::AlreadyExecuted)
    );
    assert!(parent.is_mutant);
}

#[test]
fn second_accumulating_run_fails_and_keeps_results() {
    let mut parent = Parent::new();
    let mut message = MessageToParent::<Parent, bool, ParentOp>::new();
    message.add_side_effect(ParentOp::Observe);

    assert_eq!(message.run_side_effects_accumulate_results(&mut parent), Ok(()));
    assert_eq!(
        message.run_side_effects_accumulate_results(&mut parent),
        Err(MessageError::AlreadyExecuted)
    );
    // Only the first call touched the parent or the results.
    assert_eq!(message.get_results(), Ok(&vec![false]));
    assert!(!parent.is_mutant);
}

#[test]
fn accumulating_run_after_plain_run_fails() {
    let mut parent = Parent::new();
    let mut message = MessageToParent::<Parent, bool, ParentOp>::new();
    message.add_side_effect(ParentOp::Observe);

    assert_eq!(message.run_side_effects(&mut parent), Ok(()));
    assert_eq!(
        message.run_side_effects_accumulate_results(&mut parent),
        Err(MessageError::AlreadyExecuted)
    );
    // The failed accumulating run gathered nothing.
    assert_eq!(message.get_results(), Err(MessageError::ResultsNotAccumulated));
}

#[test]
fn results_after_plain_run_fail_as_not_accumulated() {
    let mut parent = Parent::new();
    let mut message = MessageToParent::<Parent, bool, ParentOp>::new();
    message.add_side_effect(ParentOp::Mutate);

    assert_eq!(message.run_side_effects(&mut parent), Ok(()));
    assert_eq!(message.get_results(), Err(MessageError::ResultsNotAccumulated));
}

#[test]
fn results_before_any_run_fail_as_not_accumulated() {
    let message = MessageToParent::<Parent, bool, ParentOp>::new();
    assert_eq!(message.get_results(), Err(MessageError::ResultsNotAccumulated));
}

#[test]
fn cleared_message_runs_without_mutating() {
    let mut parent = Parent::new();
    let mut message = MessageToParent::<Parent, bool, ParentOp>::new();
    message.add_side_effect(ParentOp::Mutate);
    message.clear_side_effects();

    let outcome = message.run_side_effects_accumulate_results(&mut parent);

    assert_eq!(outcome, Ok(()));
    assert_eq!(message.get_results(), Ok(&vec![]));
    assert!(!parent.is_mutant);
}

#[test]
fn empty_message_run_is_noop_but_executes() {
    let mut parent = Parent::new();
    let mut message = MessageToParent::<Parent, bool, ParentOp>::new();

    assert_eq!(message.run_side_effects(&mut parent), Ok(()));
    assert!(!parent.is_mutant);
    // The empty run still moved the message out of its building state.
    assert_eq!(
        message.run_side_effects(&mut parent),
        Err(MessageError::AlreadyExecuted)
    );
}

#[test]
fn childs_mutation_attempt_runs_against_parent() {
    let mut parent = Parent::new();

    let mut mutation_attempt = parent.child.mutate_parent();
    let outcome = mutation_attempt.run_side_effects_accumulate_results(&mut parent);

    assert_eq!(outcome, Ok(()));
    assert_eq!(
        mutation_attempt.get_results(),
        Ok(&vec![false, true, true, true])
    );
    assert!(parent.is_mutant);
}
