use queryvm::arith::{Arith, OP_ADD, OP_DIVIDE};
use queryvm::bytecode::{Address, ByteCode, Closure, NamedFunction, Program, ScopeId, ScopedSlot};
use queryvm::errors::{ProgramError, QueryExecutionError};
use queryvm::machine::{Machine, RunOutcome};
use queryvm::value::Value;

const FUEL: u64 = 10_000;

fn program(code: Vec<ByteCode>) -> Program {
    Program { code, entry_point: Address(0) }
}

fn add() -> NamedFunction {
    NamedFunction { name: "add", func: OP_ADD }
}

fn div() -> NamedFunction {
    NamedFunction { name: "div", func: OP_DIVIDE }
}

fn slot00() -> ScopedSlot {
    ScopedSlot(ScopeId(0), 0)
}

#[test]
fn add_two_numbers_yields_three() {
    let p = program(vec![
        ByteCode::Push(Value::Number(1)),
        ByteCode::Push(Value::Number(2)),
        ByteCode::Intrinsic2(add()),
        ByteCode::Output,
    ]);
    let mut m = Machine::new(p, Arith);
    assert_eq!(m.next(FUEL), RunOutcome::Yielded(Value::Number(3)));
    assert_eq!(m.next(FUEL), RunOutcome::Finished);
    assert_eq!(m.next(FUEL), RunOutcome::Finished);
}

#[test]
fn fork_results_come_in_lifo_order() {
    // The originating state falls through the fork, outputs first, and the
    // scheduled snapshot is explored afterwards.
    let p = program(vec![
        ByteCode::Fork { fork_pc: Address(3) },
        ByteCode::Push(Value::Number(20)),
        ByteCode::Output,
        ByteCode::Push(Value::Number(10)),
        ByteCode::Output,
    ]);
    let mut m = Machine::new(p, Arith);
    assert_eq!(m.next(FUEL), RunOutcome::Yielded(Value::Number(20)));
    assert_eq!(m.next(FUEL), RunOutcome::Yielded(Value::Number(10)));
    assert_eq!(m.next(FUEL), RunOutcome::Finished);
}

#[test]
fn later_fork_is_explored_before_earlier_fork() {
    // Fork{a} then Fork{b} from the same segment: b's result appears before
    // a's once the originating state has yielded its own.
    let p = program(vec![
        ByteCode::Fork { fork_pc: Address(4) },
        ByteCode::Fork { fork_pc: Address(6) },
        ByteCode::Push(Value::Number(1)),
        ByteCode::Output,
        ByteCode::Push(Value::Number(20)),
        ByteCode::Output,
        ByteCode::Push(Value::Number(10)),
        ByteCode::Output,
    ]);
    let mut m = Machine::new(p, Arith);
    assert_eq!(m.next(FUEL), RunOutcome::Yielded(Value::Number(1)));
    assert_eq!(m.next(FUEL), RunOutcome::Yielded(Value::Number(10)));
    assert_eq!(m.next(FUEL), RunOutcome::Yielded(Value::Number(20)));
    assert_eq!(m.next(FUEL), RunOutcome::Finished);
}

#[test]
fn failed_intrinsic_defers_error_to_output() {
    let p = program(vec![
        ByteCode::Push(Value::Number(1)),
        ByteCode::Push(Value::Number(0)),
        ByteCode::Intrinsic2(div()),
        ByteCode::Output,
    ]);
    let mut m = Machine::new(p, Arith);
    assert_eq!(m.next(FUEL), RunOutcome::Failed(QueryExecutionError::DivisionByZero));
    assert_eq!(m.next(FUEL), RunOutcome::Finished);
}

#[test]
fn deferred_error_wins_even_with_values_on_the_stack() {
    // The stack still holds 5 below the failed call's consumed arguments, but
    // Output must yield the recorded error, not a value.
    let p = program(vec![
        ByteCode::Push(Value::Number(5)),
        ByteCode::Push(Value::Number(1)),
        ByteCode::Push(Value::Number(0)),
        ByteCode::Intrinsic2(div()),
        ByteCode::Output,
    ]);
    let mut m = Machine::new(p, Arith);
    assert_eq!(m.next(FUEL), RunOutcome::Failed(QueryExecutionError::DivisionByZero));
}

#[test]
fn failed_fork_does_not_stop_other_forks() {
    // One failing solution path yields one error; the other path still
    // yields its value.
    let p = program(vec![
        ByteCode::Fork { fork_pc: Address(5) },
        ByteCode::Push(Value::Number(1)),
        ByteCode::Push(Value::Number(0)),
        ByteCode::Intrinsic2(div()),
        ByteCode::Output,
        ByteCode::Push(Value::Number(7)),
        ByteCode::Output,
    ]);
    let mut m = Machine::new(p, Arith);
    assert_eq!(m.next(FUEL), RunOutcome::Failed(QueryExecutionError::DivisionByZero));
    assert_eq!(m.next(FUEL), RunOutcome::Yielded(Value::Number(7)));
    assert_eq!(m.next(FUEL), RunOutcome::Finished);
}

#[test]
fn ret_with_no_open_scope_is_fatal() {
    let p = program(vec![ByteCode::Ret]);
    let mut m = Machine::new(p, Arith);
    assert_eq!(m.next(FUEL), RunOutcome::Fatal(ProgramError::PopEmptyScope));
}

#[test]
fn dup_then_pop_is_a_no_op() {
    let p = program(vec![
        ByteCode::Push(Value::Number(7)),
        ByteCode::Dup,
        ByteCode::Pop,
        ByteCode::Output,
    ]);
    let mut m = Machine::new(p, Arith);
    assert_eq!(m.next(FUEL), RunOutcome::Yielded(Value::Number(7)));
}

#[test]
fn call_new_scope_store_load_ret_round_trip() {
    let p = program(vec![
        ByteCode::Call { function: Address(2), return_address: Address(1) },
        ByteCode::Output,
        ByteCode::NewScope { id: ScopeId(0), variable_cnt: 1, closure_cnt: 0 },
        ByteCode::Push(Value::Number(99)),
        ByteCode::Store(slot00()),
        ByteCode::Load(slot00()),
        ByteCode::Ret,
    ]);
    let mut m = Machine::new(p, Arith);
    assert_eq!(m.next(FUEL), RunOutcome::Yielded(Value::Number(99)));
}

#[test]
fn closure_is_called_through_its_slot() {
    let p = program(vec![
        ByteCode::Call { function: Address(2), return_address: Address(1) },
        ByteCode::Output,
        ByteCode::NewScope { id: ScopeId(0), variable_cnt: 0, closure_cnt: 1 },
        ByteCode::PushClosure(Closure(Address(7))),
        ByteCode::StoreClosure(slot00()),
        ByteCode::CallClosure { slot: slot00(), return_address: Address(6) },
        ByteCode::Ret,
        ByteCode::NewScope { id: ScopeId(1), variable_cnt: 0, closure_cnt: 0 },
        ByteCode::Push(Value::Number(5)),
        ByteCode::Ret,
    ]);
    let mut m = Machine::new(p, Arith);
    assert_eq!(m.next(FUEL), RunOutcome::Yielded(Value::Number(5)));
}

#[test]
fn forked_state_keeps_its_own_stores() {
    // The originating state overwrites the slot after forking; the snapshot
    // still sees the value from before the fork.
    let p = program(vec![
        ByteCode::Call { function: Address(2), return_address: Address(1) },
        ByteCode::Output,
        ByteCode::NewScope { id: ScopeId(0), variable_cnt: 1, closure_cnt: 0 },
        ByteCode::Push(Value::Number(1)),
        ByteCode::Store(slot00()),
        ByteCode::Fork { fork_pc: Address(10) },
        ByteCode::Push(Value::Number(2)),
        ByteCode::Store(slot00()),
        ByteCode::Load(slot00()),
        ByteCode::Ret,
        ByteCode::Load(slot00()),
        ByteCode::Ret,
    ]);
    let mut m = Machine::new(p, Arith);
    assert_eq!(m.next(FUEL), RunOutcome::Yielded(Value::Number(2)));
    assert_eq!(m.next(FUEL), RunOutcome::Yielded(Value::Number(1)));
    assert_eq!(m.next(FUEL), RunOutcome::Finished);
}

#[test]
fn append_extends_array_in_slot() {
    let p = program(vec![
        ByteCode::Call { function: Address(2), return_address: Address(1) },
        ByteCode::Output,
        ByteCode::NewScope { id: ScopeId(0), variable_cnt: 1, closure_cnt: 0 },
        ByteCode::Push(Value::Array(vec![])),
        ByteCode::Store(slot00()),
        ByteCode::Push(Value::Number(7)),
        ByteCode::Append(slot00()),
        ByteCode::Load(slot00()),
        ByteCode::Ret,
    ]);
    let mut m = Machine::new(p, Arith);
    assert_eq!(
        m.next(FUEL),
        RunOutcome::Yielded(Value::Array(vec![Value::Number(7)]))
    );
}

#[test]
fn append_to_non_array_is_fatal() {
    let p = program(vec![
        ByteCode::Call { function: Address(2), return_address: Address(1) },
        ByteCode::Output,
        ByteCode::NewScope { id: ScopeId(0), variable_cnt: 1, closure_cnt: 0 },
        ByteCode::Push(Value::Number(1)),
        ByteCode::Store(slot00()),
        ByteCode::Push(Value::Number(7)),
        ByteCode::Append(slot00()),
        ByteCode::Ret,
    ]);
    let mut m = Machine::new(p, Arith);
    assert_eq!(m.next(FUEL), RunOutcome::Fatal(ProgramError::AppendToNonArray));
}

#[test]
fn jump_unless_takes_the_branch_on_a_falsy_condition() {
    let p = program(vec![
        ByteCode::Push(Value::Bool(false)),
        ByteCode::JumpUnless(Address(4)),
        ByteCode::Push(Value::Number(1)),
        ByteCode::Output,
        ByteCode::Push(Value::Number(2)),
        ByteCode::Output,
    ]);
    let mut m = Machine::new(p, Arith);
    assert_eq!(m.next(FUEL), RunOutcome::Yielded(Value::Number(2)));
}

#[test]
fn jump_unless_falls_through_on_a_truthy_condition() {
    let p = program(vec![
        ByteCode::Push(Value::Number(0)),
        ByteCode::JumpUnless(Address(4)),
        ByteCode::Push(Value::Number(1)),
        ByteCode::Output,
        ByteCode::Push(Value::Number(2)),
        ByteCode::Output,
    ]);
    let mut m = Machine::new(p, Arith);
    assert_eq!(m.next(FUEL), RunOutcome::Yielded(Value::Number(1)));
}

#[test]
fn const_replaces_the_top_of_the_stack() {
    let p = program(vec![
        ByteCode::Push(Value::Number(1)),
        ByteCode::Const(Value::Str(String::from("ok"))),
        ByteCode::Output,
    ]);
    let mut m = Machine::new(p, Arith);
    assert_eq!(m.next(FUEL), RunOutcome::Yielded(Value::Str(String::from("ok"))));
}

#[test]
fn pop_on_an_empty_stack_is_fatal() {
    let p = program(vec![ByteCode::Pop]);
    let mut m = Machine::new(p, Arith);
    assert_eq!(m.next(FUEL), RunOutcome::Fatal(ProgramError::PopEmptyStack));
}

#[test]
fn load_before_any_scope_is_fatal() {
    let p = program(vec![ByteCode::Load(slot00())]);
    let mut m = Machine::new(p, Arith);
    assert_eq!(m.next(FUEL), RunOutcome::Fatal(ProgramError::UninitializedScope));
}

#[test]
fn new_scope_without_call_is_fatal() {
    let p = program(vec![ByteCode::NewScope {
        id: ScopeId(0),
        variable_cnt: 1,
        closure_cnt: 0,
    }]);
    let mut m = Machine::new(p, Arith);
    assert_eq!(m.next(FUEL), RunOutcome::Fatal(ProgramError::NewScopeWithoutCall));
}

#[test]
fn placeholder_opcode_is_fatal() {
    let p = program(vec![ByteCode::Object]);
    let mut m = Machine::new(p, Arith);
    assert_eq!(
        m.next(FUEL),
        RunOutcome::Fatal(ProgramError::UnimplementedInstruction)
    );
}

#[test]
fn unreachable_opcode_is_fatal() {
    let p = program(vec![ByteCode::Unreachable]);
    let mut m = Machine::new(p, Arith);
    assert_eq!(
        m.next(FUEL),
        RunOutcome::Fatal(ProgramError::UnreachableInstruction)
    );
}

#[test]
fn empty_program_finishes_immediately() {
    let p = program(vec![]);
    let mut m = Machine::new(p, Arith);
    assert_eq!(m.next(FUEL), RunOutcome::Finished);
}

#[test]
fn infinite_loop_runs_out_of_fuel() {
    let p = program(vec![ByteCode::Jump(Address(0))]);
    let mut m = Machine::new(p, Arith);
    assert_eq!(m.next(10), RunOutcome::OutOfFuel);
}

#[test]
fn load_of_a_never_stored_slot_is_fatal() {
    let p = program(vec![
        ByteCode::Call { function: Address(2), return_address: Address(1) },
        ByteCode::Output,
        ByteCode::NewScope { id: ScopeId(0), variable_cnt: 1, closure_cnt: 0 },
        ByteCode::Load(slot00()),
        ByteCode::Ret,
    ]);
    let mut m = Machine::new(p, Arith);
    assert_eq!(m.next(FUEL), RunOutcome::Fatal(ProgramError::UninitializedSlot));
}

#[test]
fn second_call_before_new_scope_is_fatal() {
    let p = program(vec![
        ByteCode::Call { function: Address(1), return_address: Address(0) },
        ByteCode::Call { function: Address(2), return_address: Address(0) },
        ByteCode::Nop,
    ]);
    let mut m = Machine::new(p, Arith);
    assert_eq!(m.next(FUEL), RunOutcome::Fatal(ProgramError::NestedCall));
}

#[test]
fn scope_id_at_the_machine_limit_is_fatal() {
    let p = program(vec![
        ByteCode::Call { function: Address(1), return_address: Address(2) },
        ByteCode::NewScope { id: ScopeId(usize::MAX), variable_cnt: 0, closure_cnt: 0 },
    ]);
    let mut m = Machine::new(p, Arith);
    assert_eq!(m.next(FUEL), RunOutcome::Fatal(ProgramError::ScopeIdOverflow));
}
