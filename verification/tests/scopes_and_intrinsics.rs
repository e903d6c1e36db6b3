use queryvm::arith::{Arith, OP_ADD, OP_DIVIDE, OP_MULTIPLY, OP_NEGATE, OP_SUBTRACT};
use queryvm::bytecode::{Address, NamedFunction, ScopeId, ScopedSlot};
use queryvm::errors::{ProgramError, QueryExecutionError};
use queryvm::machine::Intrinsics;
use queryvm::state::{ScopeFrame, State};
use queryvm::value::{truthy, Value};

fn named(func: u32) -> NamedFunction {
    NamedFunction { name: "op", func }
}

fn slot00() -> ScopedSlot {
    ScopedSlot(ScopeId(0), 0)
}

#[test]
fn store_then_load_returns_the_stored_value() {
    let mut state = State::new(Address(0));
    state.push_scope(ScopeId(0), 2, 0, Address(9));
    state
        .store_slot(&slot00(), Value::Number(42))
        .expect("slot exists");
    assert_eq!(state.slot(&slot00()), Ok(Some(Value::Number(42))));
}

#[test]
fn recursive_scope_entry_shadows_and_restores() {
    let mut state = State::new(Address(0));
    state.push_scope(ScopeId(0), 1, 0, Address(5));
    state
        .store_slot(&slot00(), Value::Number(1))
        .expect("slot exists");
    // Re-entering the same lexical level shadows the old scope.
    state.push_scope(ScopeId(0), 1, 0, Address(6));
    assert_eq!(state.slot(&slot00()), Ok(None));
    state
        .store_slot(&slot00(), Value::Number(2))
        .expect("slot exists");
    assert_eq!(state.slot(&slot00()), Ok(Some(Value::Number(2))));
    // Exiting restores the shadowed scope and its binding.
    assert_eq!(state.pop_scope(), Ok(Address(6)));
    assert_eq!(state.slot(&slot00()), Ok(Some(Value::Number(1))));
    assert_eq!(state.pop_scope(), Ok(Address(5)));
}

#[test]
fn dup_then_pop_leaves_the_stack_unchanged() {
    let mut state = State::new(Address(0));
    state.push(Value::Number(3));
    state.push(Value::Number(4));
    state.dup().expect("stack is not empty");
    assert_eq!(state.pop(), Ok(Value::Number(4)));
    assert_eq!(state.pop(), Ok(Value::Number(4)));
    assert_eq!(state.pop(), Ok(Value::Number(3)));
    assert_eq!(state.pop(), Err(ProgramError::PopEmptyStack));
}

#[test]
fn pop_scope_on_a_fresh_state_reports_pop_empty_scope() {
    let mut state = State::new(Address(0));
    assert_eq!(state.pop_scope(), Err(ProgramError::PopEmptyScope));
}

#[test]
fn slot_errors_distinguish_scope_and_index() {
    let mut state = State::new(Address(0));
    assert_eq!(
        state.slot(&slot00()),
        Err(ProgramError::UninitializedScope)
    );
    state.push_scope(ScopeId(0), 1, 0, Address(0));
    assert_eq!(
        state.slot(&ScopedSlot(ScopeId(0), 5)),
        Err(ProgramError::UnknownSlot)
    );
    assert_eq!(state.slot(&slot00()), Ok(None));
}

#[test]
fn arithmetic_intrinsics_compute_exact_values() {
    let a = Arith;
    assert_eq!(
        a.call2(&named(OP_ADD), Value::Number(1), Value::Number(2)),
        Ok(Value::Number(3))
    );
    assert_eq!(
        a.call2(&named(OP_SUBTRACT), Value::Number(1), Value::Number(2)),
        Ok(Value::Number(-1))
    );
    assert_eq!(
        a.call2(&named(OP_MULTIPLY), Value::Number(6), Value::Number(7)),
        Ok(Value::Number(42))
    );
    assert_eq!(
        a.call2(&named(OP_DIVIDE), Value::Number(7), Value::Number(2)),
        Ok(Value::Number(3))
    );
    // Division truncates towards zero.
    assert_eq!(
        a.call2(&named(OP_DIVIDE), Value::Number(-7), Value::Number(2)),
        Ok(Value::Number(-3))
    );
    assert_eq!(a.call1(&named(OP_NEGATE), Value::Number(5)), Ok(Value::Number(-5)));
}

#[test]
fn arithmetic_intrinsics_report_typed_failures() {
    let a = Arith;
    assert_eq!(
        a.call2(&named(OP_DIVIDE), Value::Number(1), Value::Number(0)),
        Err(QueryExecutionError::DivisionByZero)
    );
    assert_eq!(
        a.call2(&named(OP_ADD), Value::Number(i64::MAX), Value::Number(1)),
        Err(QueryExecutionError::Overflow)
    );
    assert_eq!(
        a.call2(&named(OP_DIVIDE), Value::Number(i64::MIN), Value::Number(-1)),
        Err(QueryExecutionError::Overflow)
    );
    assert_eq!(
        a.call2(&named(OP_ADD), Value::Null, Value::Number(1)),
        Err(QueryExecutionError::TypeMismatch)
    );
    assert_eq!(
        a.call2(&named(99), Value::Number(1), Value::Number(1)),
        Err(QueryExecutionError::UnknownFunction)
    );
    assert_eq!(
        a.call1(&named(OP_NEGATE), Value::Number(i64::MIN)),
        Err(QueryExecutionError::Overflow)
    );
    assert_eq!(
        a.call1(&named(OP_NEGATE), Value::Str(String::from("x"))),
        Err(QueryExecutionError::TypeMismatch)
    );
}

#[test]
fn truthiness_follows_the_null_and_false_rule() {
    assert!(!truthy(Value::Null));
    assert!(!truthy(Value::Bool(false)));
    assert!(truthy(Value::Bool(true)));
    assert!(truthy(Value::Number(0)));
    assert!(truthy(Value::Str(String::new())));
    assert!(truthy(Value::Array(vec![])));
}

#[test]
fn cloned_values_are_deep_and_equal() {
    let v = Value::Array(vec![
        Value::Number(1),
        Value::Str(String::from("two")),
        Value::Array(vec![Value::Bool(true)]),
    ]);
    let c = v.clone();
    assert_eq!(c, v);
}

#[test]
fn pop_scope_with_a_dangling_frame_reports_pop_unknown_scope() {
    // A frame for a lexical level that holds no live scope is a
    // compiler/machine mismatch.
    let mut state = State::new(Address(0));
    state.scope_stack.push(ScopeFrame { pc: Address(4), id: ScopeId(3) });
    assert_eq!(state.pop_scope(), Err(ProgramError::PopUnknownScope));
}
