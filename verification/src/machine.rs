//! The scheduler and the instruction loop.
//!
//! An [`Environment`] owns the immutable program and a LIFO list of suspended
//! execution states; the machine repeatedly resumes the most recently
//! suspended state and runs the instruction loop against it until it yields
//! one result, exhausts its instructions, or fails. The whole loop is
//! specified against the small-step interpreter [`step`] and its bounded
//! iteration [`run`].

use vstd::prelude::*;

use crate::bytecode::{Address, ByteCode, NamedFunction, Program, ScopeId, ScopedSlot};
use crate::errors::{ProgramError, QueryExecutionError};
use crate::state::{
    spec_append, spec_closure_slot, spec_dup, spec_new_state, spec_pop, spec_pop_closure,
    spec_pop_scope, spec_push, spec_push_closure, spec_push_scope, spec_slot, spec_store_closure,
    spec_store_slot, State, StateV,
};
use crate::value::{clone_value, spec_truthy, truthy, val_of, Val, Value};

verus! {

/// The intrinsic function set installed into a machine. Intrinsics are
/// external collaborators: the machine only relies on each call agreeing with
/// its mathematical meaning, given by the two specification functions.
pub trait Intrinsics: Sized {
    /// The meaning of the unary intrinsic `f` on one argument.
    spec fn spec_call1(&self, f: NamedFunction, arg: Val) -> Result<Val, QueryExecutionError>;

    /// The meaning of the binary intrinsic `f` on two arguments.
    spec fn spec_call2(&self, f: NamedFunction, lhs: Val, rhs: Val) -> Result<
        Val,
        QueryExecutionError,
    >;

    /// Apply the unary intrinsic `f`.
    fn call1(&self, f: &NamedFunction, arg: Value) -> (r: Result<Value, QueryExecutionError>)
        ensures
            match r {
                Ok(v) => self.spec_call1(*f, arg@) == Ok::<Val, QueryExecutionError>(v@),
                Err(e) => self.spec_call1(*f, arg@) == Err::<Val, QueryExecutionError>(e),
            },
    ;

    /// Apply the binary intrinsic `f`.
    fn call2(&self, f: &NamedFunction, lhs: Value, rhs: Value) -> (r: Result<
        Value,
        QueryExecutionError,
    >)
        ensures
            match r {
                Ok(v) => self.spec_call2(*f, lhs@, rhs@) == Ok::<Val, QueryExecutionError>(v@),
                Err(e) => self.spec_call2(*f, lhs@, rhs@) == Err::<Val, QueryExecutionError>(e),
            },
    ;
}

/// The scheduler state: the shared immutable program and the LIFO list of
/// suspended execution states awaiting exploration.
#[derive(Debug)]
pub struct Environment {
    pub program: Program,
    pub forks: Vec<State>,
}

/// The models of a list of suspended execution states.
pub open spec fn forks_views(forks: Seq<State>) -> Seq<StateV> {
    forks.map_values(|s: State| s@)
}

impl Environment {
    /// Snapshot `state`, redirect the snapshot to `new_pc`, and schedule it.
    /// The most recently pushed state is the next one explored.
    pub fn push_fork(&mut self, state: &State, new_pc: Address)
        ensures
            final(self).program == old(self).program,
            forks_views(final(self).forks@) == forks_views(old(self).forks@).push(
                StateV { pc: new_pc, ..state@ },
            ),
    {
        let mut new_state = state.clone();
        new_state.pc = new_pc;
        self.forks.push(new_state);
        proof {
            assert(forks_views(self.forks@) =~= forks_views(old(self).forks@).push(
                StateV { pc: new_pc, ..state@ },
            ));
        }
    }

    /// Take the most recently suspended execution state, if any.
    pub fn pop_fork(&mut self) -> (r: Option<State>)
        ensures
            final(self).program == old(self).program,
            match r {
                Some(s) => old(self).forks@.len() > 0 && s@ == forks_views(
                    old(self).forks@,
                ).last() && forks_views(final(self).forks@) == forks_views(
                    old(self).forks@,
                ).drop_last(),
                None => old(self).forks@.len() == 0 && *final(self) == *old(self),
            },
    {
        if self.forks.len() == 0 {
            None
        } else {
            let s = self.forks.pop().unwrap();
            proof {
                assert(forks_views(self.forks@) =~= forks_views(old(self).forks@).drop_last());
            }
            Some(s)
        }
    }
}

/// What one run-segment produced.
#[derive(Debug, PartialEq, Eq)]
pub enum RunOutcome {
    /// An `Output` instruction yielded one result value.
    Yielded(Value),
    /// An `Output` instruction yielded the deferred error of a failed
    /// intrinsic call on this solution path.
    Failed(QueryExecutionError),
    /// Nothing further: no state was pending, or the resumed state ran past
    /// the end of its instructions and vanished.
    Finished,
    /// A fatal internal-consistency violation; never a query result.
    Fatal(ProgramError),
    /// The step budget was exhausted before the segment completed.
    OutOfFuel,
}

/// The specification-level configuration of one run-segment: the running
/// state, the deferred error, the pending call return address, and the models
/// of the states scheduled so far by this segment.
#[verifier::ext_equal]
pub struct Cfg {
    pub state: StateV,
    pub err: Option<QueryExecutionError>,
    pub call_pc: Option<Address>,
    pub pushed: Seq<StateV>,
}

/// How a run-segment stopped.
#[verifier::ext_equal]
pub enum Out {
    Yielded(Val),
    Failed(QueryExecutionError),
    Finished,
    Fatal(ProgramError),
}

/// One small step of a run-segment: still going, or stopped with an outcome.
/// A stopped step keeps its configuration so the scheduled states remain
/// visible.
#[verifier::ext_equal]
pub enum Step {
    Going(Cfg),
    Done(Cfg, Out),
}

/// The configuration a run-segment starts from: a resumed state, no deferred
/// error, no pending call, nothing scheduled yet.
pub open spec fn init_cfg(s: StateV) -> Cfg {
    Cfg { state: s, err: None, call_pc: None, pushed: Seq::empty() }
}

/// Advance the program counter to the next instruction.
pub open spec fn bump(s: StateV) -> StateV {
    StateV { pc: s.pc.succ(), ..s }
}

/// The running state after one instruction that leaves scheduling and the
/// run-segment registers untouched.
pub open spec fn going(cfg: Cfg, s2: StateV) -> Step {
    Step::Going(Cfg { state: s2, ..cfg })
}

/// A state operation that either continues with a new state (advancing past
/// the instruction) or stops the segment fatally.
pub open spec fn going_or_fatal(cfg: Cfg, r: Result<StateV, ProgramError>) -> Step {
    match r {
        Ok(s2) => going(cfg, bump(s2)),
        Err(e) => Step::Done(cfg, Out::Fatal(e)),
    }
}

/// The effect of `Pop`.
pub open spec fn step_pop_instr(cfg: Cfg) -> Step {
    match spec_pop(cfg.state) {
        Ok((s2, _)) => going(cfg, bump(s2)),
        Err(e) => Step::Done(cfg, Out::Fatal(e)),
    }
}

/// The effect of `Const(v)`.
pub open spec fn step_const(cfg: Cfg, v: Value) -> Step {
    match spec_pop(cfg.state) {
        Ok((s2, _)) => going(cfg, bump(spec_push(s2, val_of(v)))),
        Err(e) => Step::Done(cfg, Out::Fatal(e)),
    }
}

/// The effect of `Load(slot)`.
pub open spec fn step_load(cfg: Cfg, slot: ScopedSlot) -> Step {
    match spec_slot(cfg.state, slot) {
        Err(e) => Step::Done(cfg, Out::Fatal(e)),
        Ok(None) => Step::Done(cfg, Out::Fatal(ProgramError::UninitializedSlot)),
        Ok(Some(v)) => going(cfg, bump(spec_push(cfg.state, v))),
    }
}

/// The effect of `Store(slot)`.
pub open spec fn step_store(cfg: Cfg, slot: ScopedSlot) -> Step {
    match spec_pop(cfg.state) {
        Err(e) => Step::Done(cfg, Out::Fatal(e)),
        Ok((s2, v)) => going_or_fatal(cfg, spec_store_slot(s2, slot, v)),
    }
}

/// The effect of `StoreClosure(slot)`.
pub open spec fn step_store_closure(cfg: Cfg, slot: ScopedSlot) -> Step {
    match spec_pop_closure(cfg.state) {
        Err(e) => Step::Done(cfg, Out::Fatal(e)),
        Ok((s2, c)) => going_or_fatal(cfg, spec_store_closure(s2, slot, c)),
    }
}

/// The effect of `Append(slot)`.
pub open spec fn step_append(cfg: Cfg, slot: ScopedSlot) -> Step {
    match spec_pop(cfg.state) {
        Err(e) => Step::Done(cfg, Out::Fatal(e)),
        Ok((s2, v)) => going_or_fatal(cfg, spec_append(s2, slot, v)),
    }
}

/// The effect of `Fork { fork_pc }`: schedule a snapshot redirected to
/// `fork_pc` and continue.
pub open spec fn step_fork(cfg: Cfg, fork_pc: Address) -> Step {
    Step::Going(
        Cfg {
            state: bump(cfg.state),
            pushed: cfg.pushed.push(StateV { pc: fork_pc, ..cfg.state }),
            ..cfg
        },
    )
}

/// The effect of `JumpUnless(a)`.
pub open spec fn step_jump_unless(cfg: Cfg, a: Address) -> Step {
    match spec_pop(cfg.state) {
        Err(e) => Step::Done(cfg, Out::Fatal(e)),
        Ok((s2, v)) => if spec_truthy(v) {
            going(cfg, bump(s2))
        } else {
            going(cfg, StateV { pc: a, ..s2 })
        },
    }
}

/// The effect of `CallClosure { slot, return_address }`.
pub open spec fn step_call_closure(cfg: Cfg, slot: ScopedSlot, return_address: Address) -> Step {
    match spec_closure_slot(cfg.state, slot) {
        Err(e) => Step::Done(cfg, Out::Fatal(e)),
        Ok(None) => Step::Done(cfg, Out::Fatal(ProgramError::UninitializedSlot)),
        Ok(Some(cl)) => if cfg.call_pc is Some {
            Step::Done(cfg, Out::Fatal(ProgramError::NestedCall))
        } else {
            Step::Going(
                Cfg {
                    state: StateV { pc: cl.0, ..cfg.state },
                    call_pc: Some(return_address),
                    ..cfg
                },
            )
        },
    }
}

/// The effect of `Call { function, return_address }`.
pub open spec fn step_call(cfg: Cfg, function: Address, return_address: Address) -> Step {
    if cfg.call_pc is Some {
        Step::Done(cfg, Out::Fatal(ProgramError::NestedCall))
    } else {
        Step::Going(
            Cfg {
                state: StateV { pc: function, ..cfg.state },
                call_pc: Some(return_address),
                ..cfg
            },
        )
    }
}

/// The effect of `NewScope`, consuming the pending return address.
pub open spec fn step_new_scope(
    cfg: Cfg,
    id: ScopeId,
    variable_cnt: usize,
    closure_cnt: usize,
) -> Step {
    match cfg.call_pc {
        None => Step::Done(cfg, Out::Fatal(ProgramError::NewScopeWithoutCall)),
        Some(ra) => if id.0 == usize::MAX {
            Step::Done(cfg, Out::Fatal(ProgramError::ScopeIdOverflow))
        } else {
            Step::Going(
                Cfg {
                    state: bump(spec_push_scope(cfg.state, id, variable_cnt, closure_cnt, ra)),
                    call_pc: None,
                    ..cfg
                },
            )
        },
    }
}

/// The effect of `Ret`.
pub open spec fn step_ret(cfg: Cfg) -> Step {
    match spec_pop_scope(cfg.state) {
        Err(e) => Step::Done(cfg, Out::Fatal(e)),
        Ok((s2, a)) => going(cfg, StateV { pc: a, ..s2 }),
    }
}

/// The effect of `Output`: the deferred error if one is recorded, else the
/// top of the operand stack, as this segment's one result.
pub open spec fn step_output(cfg: Cfg) -> Step {
    match cfg.err {
        Some(e) => Step::Done(cfg, Out::Failed(e)),
        None => match spec_pop(cfg.state) {
            Err(e) => Step::Done(cfg, Out::Fatal(e)),
            Ok((_, v)) => Step::Done(cfg, Out::Yielded(v)),
        },
    }
}

/// The effect of a unary intrinsic call: on success the result replaces the
/// argument; on failure the error is recorded and execution falls through
/// with the stack one value short.
pub open spec fn step_intrinsic1<I: Intrinsics>(intr: I, cfg: Cfg, f: NamedFunction) -> Step {
    match spec_pop(cfg.state) {
        Err(e) => Step::Done(cfg, Out::Fatal(e)),
        Ok((s2, arg)) => match intr.spec_call1(f, arg) {
            Ok(v) => going(cfg, bump(spec_push(s2, v))),
            Err(e) => Step::Going(Cfg { state: bump(s2), err: Some(e), ..cfg }),
        },
    }
}

/// The effect of a binary intrinsic call; the right argument is popped first.
pub open spec fn step_intrinsic2<I: Intrinsics>(intr: I, cfg: Cfg, f: NamedFunction) -> Step {
    match spec_pop(cfg.state) {
        Err(e) => Step::Done(cfg, Out::Fatal(e)),
        Ok((s1, rhs)) => match spec_pop(s1) {
            Err(e) => Step::Done(cfg, Out::Fatal(e)),
            Ok((s2, lhs)) => match intr.spec_call2(f, lhs, rhs) {
                Ok(v) => going(cfg, bump(spec_push(s2, v))),
                Err(e) => Step::Going(Cfg { state: bump(s2), err: Some(e), ..cfg }),
            },
        },
    }
}

/// The effect of one instruction on a configuration.
pub open spec fn step_code<I: Intrinsics>(intr: I, cfg: Cfg, code: ByteCode) -> Step {
    match code {
        ByteCode::Unreachable => Step::Done(
            cfg,
            Out::Fatal(ProgramError::UnreachableInstruction),
        ),
        ByteCode::PlaceHolder | ByteCode::Object | ByteCode::ForkTryBegin | ByteCode::ForkTryEnd
            | ByteCode::ForkAlt | ByteCode::ForkLabel | ByteCode::Backtrack | ByteCode::PushPC
            | ByteCode::CallPC | ByteCode::Each | ByteCode::ExpBegin | ByteCode::ExpEnd
            | ByteCode::PathBegin | ByteCode::PathEnd => Step::Done(
            cfg,
            Out::Fatal(ProgramError::UnimplementedInstruction),
        ),
        ByteCode::Nop => going(cfg, bump(cfg.state)),
        ByteCode::Push(v) => going(cfg, bump(spec_push(cfg.state, val_of(v)))),
        ByteCode::Pop => step_pop_instr(cfg),
        ByteCode::Dup => going_or_fatal(cfg, spec_dup(cfg.state)),
        ByteCode::Const(v) => step_const(cfg, v),
        ByteCode::Load(slot) => step_load(cfg, slot),
        ByteCode::Store(slot) => step_store(cfg, slot),
        ByteCode::PushClosure(c) => going(cfg, bump(spec_push_closure(cfg.state, c))),
        ByteCode::StoreClosure(slot) => step_store_closure(cfg, slot),
        ByteCode::Append(slot) => step_append(cfg, slot),
        ByteCode::Fork { fork_pc } => step_fork(cfg, fork_pc),
        ByteCode::Jump(a) => going(cfg, StateV { pc: a, ..cfg.state }),
        ByteCode::JumpUnless(a) => step_jump_unless(cfg, a),
        ByteCode::CallClosure { slot, return_address } => step_call_closure(
            cfg,
            slot,
            return_address,
        ),
        ByteCode::Call { function, return_address } => step_call(cfg, function, return_address),
        ByteCode::NewScope { id, variable_cnt, closure_cnt } => step_new_scope(
            cfg,
            id,
            variable_cnt,
            closure_cnt,
        ),
        ByteCode::Ret => step_ret(cfg),
        ByteCode::Output => step_output(cfg),
        ByteCode::Intrinsic1(f) => step_intrinsic1(intr, cfg, f),
        ByteCode::Intrinsic2(f) => step_intrinsic2(intr, cfg, f),
    }
}

/// One small step: fetch the instruction at the program counter and apply its
/// effect; a failed fetch ends the segment with nothing further.
pub open spec fn step<I: Intrinsics>(program: Program, intr: I, cfg: Cfg) -> Step {
    match program.spec_fetch(cfg.state.pc) {
        None => Step::Done(cfg, Out::Finished),
        Some(code) => step_code(intr, cfg, code),
    }
}

/// `n` small steps from `cfg`; a stopped segment stays stopped.
pub open spec fn run<I: Intrinsics>(program: Program, intr: I, cfg: Cfg, n: nat) -> Step
    decreases n,
{
    if n == 0 {
        Step::Going(cfg)
    } else {
        match run(program, intr, cfg, (n - 1) as nat) {
            Step::Going(c) => step(program, intr, c),
            done => done,
        }
    }
}

/// Running one more step applies `step` to a still-going run.
pub proof fn lemma_run_unfold<I: Intrinsics>(program: Program, intr: I, cfg: Cfg, n: nat)
    ensures
        run(program, intr, cfg, n + 1) == (match run(program, intr, cfg, n) {
            Step::Going(c) => step(program, intr, c),
            done => done,
        }),
{
    assert((n + 1) as nat - 1 == n);
}

/// The returned outcome reports exactly how the specification-level run
/// stopped.
pub open spec fn outcome_matches(o: Out, r: RunOutcome) -> bool {
    match (o, r) {
        (Out::Yielded(v), RunOutcome::Yielded(value)) => value@ == v,
        (Out::Failed(e1), RunOutcome::Failed(e2)) => e1 == e2,
        (Out::Finished, RunOutcome::Finished) => true,
        (Out::Fatal(p1), RunOutcome::Fatal(p2)) => p1 == p2,
        _ => false,
    }
}

/// The contract of one run-segment resumed from `start` with `rest` still
/// pending: for some step count within the budget, the specification-level
/// run stops with the reported outcome (or is still going when the budget ran
/// out), and the pending list afterwards is `rest` plus exactly the states
/// the run scheduled, in order.
pub open spec fn run_code_post<I: Intrinsics>(
    program: Program,
    intr: I,
    start: StateV,
    rest: Seq<StateV>,
    fuel: u64,
    r: RunOutcome,
    final_forks: Seq<StateV>,
) -> bool {
    exists|n: nat|
        #![trigger run(program, intr, init_cfg(start), n)]
        n <= fuel && match run(program, intr, init_cfg(start), n) {
            Step::Going(c) => r == RunOutcome::OutOfFuel && n == fuel && final_forks == rest
                + c.pushed,
            Step::Done(c, o) => outcome_matches(o, r) && final_forks == rest + c.pushed,
        }
}

/// Provides the witness for `run_code_post`.
proof fn lemma_post_witness<I: Intrinsics>(
    program: Program,
    intr: I,
    start: StateV,
    rest: Seq<StateV>,
    fuel: u64,
    r: RunOutcome,
    final_forks: Seq<StateV>,
    n: nat,
)
    requires
        n <= fuel,
        match run(program, intr, init_cfg(start), n) {
            Step::Going(c) => r == RunOutcome::OutOfFuel && n == fuel && final_forks == rest
                + c.pushed,
            Step::Done(c, o) => outcome_matches(o, r) && final_forks == rest + c.pushed,
        },
    ensures
        run_code_post(program, intr, start, rest, fuel, r, final_forks),
{
}

/// How the instruction loop proceeds after one instruction: keep running
/// this segment, or stop it with an outcome.
enum Flow {
    Continue,
    Stop(RunOutcome),
}

/// Control-flow and output instructions, exactly as `step_code` describes.
#[verifier::rlimit(100)]
fn exec_instr_control<I: Intrinsics>(
    intrinsics: &I,
    state: &mut State,
    err: &mut Option<QueryExecutionError>,
    call_pc: &mut Option<Address>,
    code: &ByteCode,
    Ghost(pushed): Ghost<Seq<StateV>>,
) -> (r: Flow)
    requires
        !(*code is Fork),
        old(state)@.pc.0 < usize::MAX,
        (*code is Jump) || (*code is JumpUnless) || (*code is CallClosure) || (*code
            is Call) || (*code is NewScope) || (*code is Ret) || (*code is Output) || (*code
            is Intrinsic1) || (*code is Intrinsic2),
    ensures
        ({
            let c0 = Cfg {
                state: old(state)@,
                err: *old(err),
                call_pc: *old(call_pc),
                pushed: pushed,
            };
            match step_code(*intrinsics, c0, *code) {
                Step::Going(c) => r is Continue && final(state)@ == c.state && *final(err) == c.err
                    && *final(call_pc) == c.call_pc && c.pushed == pushed,
                Step::Done(c, o) => (match r {
                    Flow::Continue => false,
                    Flow::Stop(out) => outcome_matches(o, out),
                }) && c.pushed == pushed,
            }
        }),
{
    let ghost c0 = Cfg { state: state@, err: *err, call_pc: *call_pc, pushed: pushed };
    match code {
        ByteCode::Jump(address) => {
            state.pc = *address;
            proof {
                assert(step_code(*intrinsics, c0, *code) =~~= Step::Going(
                    Cfg { state: state@, err: *err, call_pc: *call_pc, pushed: pushed },
                ));
            }
            Flow::Continue
        }
        ByteCode::JumpUnless(address) => {
            let target: Address = *address;
            let cond = match state.pop() {
                Err(e) => {
                    proof {
                        assert(step_code(*intrinsics, c0, *code) =~~= Step::Done(c0, Out::Fatal(e)));
                    }
                    return Flow::Stop(RunOutcome::Fatal(e));
                }
                Ok(v) => v,
            };
            if !truthy(cond) {
                state.pc = target;
            } else {
                state.pc.next();
            }
            proof {
                assert(step_code(*intrinsics, c0, *code) =~~= Step::Going(
                    Cfg { state: state@, err: *err, call_pc: *call_pc, pushed: pushed },
                ));
            }
            Flow::Continue
        }
        ByteCode::CallClosure { slot, return_address } => {
            let closure = match state.closure_slot(slot) {
                Err(e) => {
                    proof {
                        assert(step_code(*intrinsics, c0, *code) =~~= Step::Done(c0, Out::Fatal(e)));
                    }
                    return Flow::Stop(RunOutcome::Fatal(e));
                }
                Ok(None) => {
                    proof {
                        assert(step_code(*intrinsics, c0, *code) =~~= Step::Done(c0, Out::Fatal(ProgramError::UninitializedSlot)));
                    }
                    return Flow::Stop(RunOutcome::Fatal(ProgramError::UninitializedSlot));
                }
                Ok(Some(c)) => c,
            };
            if call_pc.is_some() {
                proof {
                    assert(step_code(*intrinsics, c0, *code) =~~= Step::Done(c0, Out::Fatal(ProgramError::NestedCall)));
                }
                return Flow::Stop(RunOutcome::Fatal(ProgramError::NestedCall));
            }
            *call_pc = Some(*return_address);
            state.pc = closure.0;
            proof {
                assert(step_code(*intrinsics, c0, *code) =~~= Step::Going(
                    Cfg { state: state@, err: *err, call_pc: *call_pc, pushed: pushed },
                ));
            }
            Flow::Continue
        }
        ByteCode::Call { function, return_address } => {
            if call_pc.is_some() {
                proof {
                    assert(step_code(*intrinsics, c0, *code) =~~= Step::Done(c0, Out::Fatal(ProgramError::NestedCall)));
                }
                return Flow::Stop(RunOutcome::Fatal(ProgramError::NestedCall));
            }
            *call_pc = Some(*return_address);
            state.pc = *function;
            proof {
                assert(step_code(*intrinsics, c0, *code) =~~= Step::Going(
                    Cfg { state: state@, err: *err, call_pc: *call_pc, pushed: pushed },
                ));
            }
            Flow::Continue
        }
        ByteCode::NewScope { id, variable_cnt, closure_cnt } => {
            let return_address = match *call_pc {
                None => {
                    proof {
                        assert(step_code(*intrinsics, c0, *code) =~~= Step::Done(c0, Out::Fatal(ProgramError::NewScopeWithoutCall)));
                    }
                    return Flow::Stop(RunOutcome::Fatal(ProgramError::NewScopeWithoutCall));
                }
                Some(a) => a,
            };
            if id.0 == usize::MAX {
                proof {
                    assert(step_code(*intrinsics, c0, *code) =~~= Step::Done(c0, Out::Fatal(ProgramError::ScopeIdOverflow)));
                }
                return Flow::Stop(RunOutcome::Fatal(ProgramError::ScopeIdOverflow));
            }
            *call_pc = None;
            state.push_scope(*id, *variable_cnt, *closure_cnt, return_address);
            state.pc.next();
            proof {
                assert(step_code(*intrinsics, c0, *code) =~~= Step::Going(
                    Cfg { state: state@, err: *err, call_pc: *call_pc, pushed: pushed },
                ));
            }
            Flow::Continue
        }
        ByteCode::Ret => {
            let return_address = match state.pop_scope() {
                Err(e) => {
                    proof {
                        assert(step_code(*intrinsics, c0, *code) =~~= Step::Done(c0, Out::Fatal(e)));
                    }
                    return Flow::Stop(RunOutcome::Fatal(e));
                }
                Ok(a) => a,
            };
            state.pc = return_address;
            proof {
                assert(step_code(*intrinsics, c0, *code) =~~= Step::Going(
                    Cfg { state: state@, err: *err, call_pc: *call_pc, pushed: pushed },
                ));
            }
            Flow::Continue
        }
        ByteCode::Output => {
            match *err {
                Some(e) => {
                    proof {
                        assert(step_code(*intrinsics, c0, *code) =~~= Step::Done(c0, Out::Failed(e)));
                    }
                    return Flow::Stop(RunOutcome::Failed(e));
                }
                None => {}
            }
            match state.pop() {
                Err(e) => {
                    proof {
                        assert(step_code(*intrinsics, c0, *code) =~~= Step::Done(c0, Out::Fatal(e)));
                    }
                    return Flow::Stop(RunOutcome::Fatal(e));
                }
                Ok(value) => {
                    proof {
                        assert(step_code(*intrinsics, c0, *code) =~~= Step::Done(c0, Out::Yielded(c0.state.stack.last())));
                    }
                    return Flow::Stop(RunOutcome::Yielded(value));
                }
            }
        }
        ByteCode::Intrinsic1(f) => {
            let arg = match state.pop() {
                Err(e) => {
                    proof {
                        assert(step_code(*intrinsics, c0, *code) =~~= Step::Done(c0, Out::Fatal(e)));
                    }
                    return Flow::Stop(RunOutcome::Fatal(e));
                }
                Ok(v) => v,
            };
            match intrinsics.call1(f, arg) {
                Ok(value) => {
                    state.push(value);
                }
                Err(e) => {
                    *err = Some(e);
                }
            }
            state.pc.next();
            proof {
                assert(step_code(*intrinsics, c0, *code) =~~= Step::Going(
                    Cfg { state: state@, err: *err, call_pc: *call_pc, pushed: pushed },
                ));
            }
            Flow::Continue
        }
        ByteCode::Intrinsic2(f) => {
            let rhs = match state.pop() {
                Err(e) => {
                    proof {
                        assert(step_code(*intrinsics, c0, *code) =~~= Step::Done(c0, Out::Fatal(e)));
                    }
                    return Flow::Stop(RunOutcome::Fatal(e));
                }
                Ok(v) => v,
            };
            let lhs = match state.pop() {
                Err(e) => {
                    proof {
                        assert(step_code(*intrinsics, c0, *code) =~~= Step::Done(c0, Out::Fatal(e)));
                    }
                    return Flow::Stop(RunOutcome::Fatal(e));
                }
                Ok(v) => v,
            };
            match intrinsics.call2(f, lhs, rhs) {
                Ok(value) => {
                    state.push(value);
                }
                Err(e) => {
                    *err = Some(e);
                }
            }
            state.pc.next();
            proof {
                assert(step_code(*intrinsics, c0, *code) =~~= Step::Going(
                    Cfg { state: state@, err: *err, call_pc: *call_pc, pushed: pushed },
                ));
            }
            Flow::Continue
        }
        // Excluded by the precondition; these belong to the other group.
        _ => {
            proof {
                assert(false);
            }
            Flow::Stop(RunOutcome::Finished)
        }
    }
}

/// Stack, slot and staging instructions, exactly as `step_code` describes.
#[verifier::rlimit(100)]
fn exec_instr_data<I: Intrinsics>(
    intrinsics: &I,
    state: &mut State,
    err: &mut Option<QueryExecutionError>,
    call_pc: &mut Option<Address>,
    code: &ByteCode,
    Ghost(pushed): Ghost<Seq<StateV>>,
) -> (r: Flow)
    requires
        !(*code is Fork),
        old(state)@.pc.0 < usize::MAX,
        !((*code is Jump) || (*code is JumpUnless) || (*code is CallClosure) || (*code
            is Call) || (*code is NewScope) || (*code is Ret) || (*code is Output) || (*code
            is Intrinsic1) || (*code is Intrinsic2)),
    ensures
        ({
            let c0 = Cfg {
                state: old(state)@,
                err: *old(err),
                call_pc: *old(call_pc),
                pushed: pushed,
            };
            match step_code(*intrinsics, c0, *code) {
                Step::Going(c) => r is Continue && final(state)@ == c.state && *final(err) == c.err
                    && *final(call_pc) == c.call_pc && c.pushed == pushed,
                Step::Done(c, o) => (match r {
                    Flow::Continue => false,
                    Flow::Stop(out) => outcome_matches(o, out),
                }) && c.pushed == pushed,
            }
        }),
{
    let ghost c0 = Cfg { state: state@, err: *err, call_pc: *call_pc, pushed: pushed };
    match code {
        // Excluded by the precondition; scheduling needs the environment.
        ByteCode::Fork { .. } => {
            proof {
                assert(false);
            }
            Flow::Stop(RunOutcome::Finished)
        }
        ByteCode::Unreachable => {
            proof {
                assert(step_code(*intrinsics, c0, *code) =~~= Step::Done(c0, Out::Fatal(ProgramError::UnreachableInstruction)));
            }
            return Flow::Stop(RunOutcome::Fatal(ProgramError::UnreachableInstruction));
        }
        ByteCode::PlaceHolder | ByteCode::Object | ByteCode::ForkTryBegin
            | ByteCode::ForkTryEnd | ByteCode::ForkAlt | ByteCode::ForkLabel
            | ByteCode::Backtrack | ByteCode::PushPC | ByteCode::CallPC | ByteCode::Each
            | ByteCode::ExpBegin | ByteCode::ExpEnd | ByteCode::PathBegin
            | ByteCode::PathEnd => {
            proof {
                assert(step_code(*intrinsics, c0, *code) =~~= Step::Done(c0, Out::Fatal(ProgramError::UnimplementedInstruction)));
            }
            return Flow::Stop(RunOutcome::Fatal(ProgramError::UnimplementedInstruction));
        }
        ByteCode::Nop => {
            state.pc.next();
            proof {
                assert(step_code(*intrinsics, c0, *code) =~~= Step::Going(
                    Cfg { state: state@, err: *err, call_pc: *call_pc, pushed: pushed },
                ));
            }
            Flow::Continue
        }
        ByteCode::Push(v) => {
            let value = clone_value(v);
            state.push(value);
            state.pc.next();
            proof {
                assert(step_code(*intrinsics, c0, *code) =~~= Step::Going(
                    Cfg { state: state@, err: *err, call_pc: *call_pc, pushed: pushed },
                ));
            }
            Flow::Continue
        }
        ByteCode::Pop => {
            match state.pop() {
                Err(e) => {
                    proof {
                        assert(step_code(*intrinsics, c0, *code) =~~= Step::Done(c0, Out::Fatal(e)));
                    }
                    return Flow::Stop(RunOutcome::Fatal(e));
                }
                Ok(_) => {}
            }
            state.pc.next();
            proof {
                assert(step_code(*intrinsics, c0, *code) =~~= Step::Going(
                    Cfg { state: state@, err: *err, call_pc: *call_pc, pushed: pushed },
                ));
            }
            Flow::Continue
        }
        ByteCode::Dup => {
            match state.dup() {
                Err(e) => {
                    proof {
                        assert(step_code(*intrinsics, c0, *code) =~~= Step::Done(c0, Out::Fatal(e)));
                    }
                    return Flow::Stop(RunOutcome::Fatal(e));
                }
                Ok(_) => {}
            }
            state.pc.next();
            proof {
                assert(step_code(*intrinsics, c0, *code) =~~= Step::Going(
                    Cfg { state: state@, err: *err, call_pc: *call_pc, pushed: pushed },
                ));
            }
            Flow::Continue
        }
        ByteCode::Const(v) => {
            match state.pop() {
                Err(e) => {
                    proof {
                        assert(step_code(*intrinsics, c0, *code) =~~= Step::Done(c0, Out::Fatal(e)));
                    }
                    return Flow::Stop(RunOutcome::Fatal(e));
                }
                Ok(_) => {}
            }
            let value = clone_value(v);
            state.push(value);
            state.pc.next();
            proof {
                assert(step_code(*intrinsics, c0, *code) =~~= Step::Going(
                    Cfg { state: state@, err: *err, call_pc: *call_pc, pushed: pushed },
                ));
            }
            Flow::Continue
        }
        ByteCode::Load(slot) => {
            let loaded = match state.slot(slot) {
                Err(e) => {
                    proof {
                        assert(step_code(*intrinsics, c0, *code) =~~= Step::Done(c0, Out::Fatal(e)));
                    }
                    return Flow::Stop(RunOutcome::Fatal(e));
                }
                Ok(None) => {
                    proof {
                        assert(step_code(*intrinsics, c0, *code) =~~= Step::Done(c0, Out::Fatal(ProgramError::UninitializedSlot)));
                    }
                    return Flow::Stop(RunOutcome::Fatal(ProgramError::UninitializedSlot));
                }
                Ok(Some(v)) => v,
            };
            state.push(loaded);
            state.pc.next();
            proof {
                assert(step_code(*intrinsics, c0, *code) =~~= Step::Going(
                    Cfg { state: state@, err: *err, call_pc: *call_pc, pushed: pushed },
                ));
            }
            Flow::Continue
        }
        ByteCode::Store(slot) => {
            let value = match state.pop() {
                Err(e) => {
                    proof {
                        assert(step_code(*intrinsics, c0, *code) =~~= Step::Done(c0, Out::Fatal(e)));
                    }
                    return Flow::Stop(RunOutcome::Fatal(e));
                }
                Ok(v) => v,
            };
            match state.store_slot(slot, value) {
                Err(e) => {
                    proof {
                        assert(step_code(*intrinsics, c0, *code) =~~= Step::Done(c0, Out::Fatal(e)));
                    }
                    return Flow::Stop(RunOutcome::Fatal(e));
                }
                Ok(_) => {}
            }
            state.pc.next();
            proof {
                assert(step_code(*intrinsics, c0, *code) =~~= Step::Going(
                    Cfg { state: state@, err: *err, call_pc: *call_pc, pushed: pushed },
                ));
            }
            Flow::Continue
        }
        ByteCode::PushClosure(closure) => {
            state.push_closure(*closure);
            state.pc.next();
            proof {
                assert(step_code(*intrinsics, c0, *code) =~~= Step::Going(
                    Cfg { state: state@, err: *err, call_pc: *call_pc, pushed: pushed },
                ));
            }
            Flow::Continue
        }
        ByteCode::StoreClosure(slot) => {
            let closure = match state.pop_closure() {
                Err(e) => {
                    proof {
                        assert(step_code(*intrinsics, c0, *code) =~~= Step::Done(c0, Out::Fatal(e)));
                    }
                    return Flow::Stop(RunOutcome::Fatal(e));
                }
                Ok(c) => c,
            };
            match state.store_closure(slot, closure) {
                Err(e) => {
                    proof {
                        assert(step_code(*intrinsics, c0, *code) =~~= Step::Done(c0, Out::Fatal(e)));
                    }
                    return Flow::Stop(RunOutcome::Fatal(e));
                }
                Ok(_) => {}
            }
            state.pc.next();
            proof {
                assert(step_code(*intrinsics, c0, *code) =~~= Step::Going(
                    Cfg { state: state@, err: *err, call_pc: *call_pc, pushed: pushed },
                ));
            }
            Flow::Continue
        }
        ByteCode::Append(slot) => {
            let value = match state.pop() {
                Err(e) => {
                    proof {
                        assert(step_code(*intrinsics, c0, *code) =~~= Step::Done(c0, Out::Fatal(e)));
                    }
                    return Flow::Stop(RunOutcome::Fatal(e));
                }
                Ok(v) => v,
            };
            match state.append(slot, value) {
                Err(e) => {
                    proof {
                        assert(step_code(*intrinsics, c0, *code) =~~= Step::Done(c0, Out::Fatal(e)));
                    }
                    return Flow::Stop(RunOutcome::Fatal(e));
                }
                Ok(_) => {}
            }
            state.pc.next();
            proof {
                assert(step_code(*intrinsics, c0, *code) =~~= Step::Going(
                    Cfg { state: state@, err: *err, call_pc: *call_pc, pushed: pushed },
                ));
            }
            Flow::Continue
        }
        // Excluded by the precondition; these belong to the other group.
        _ => {
            proof {
                assert(false);
            }
            Flow::Stop(RunOutcome::Finished)
        }
    }
}

/// Execute one non-`Fork` instruction against the execution state alone,
/// exactly as `step_code` describes. `Fork` is excluded because scheduling
/// needs the environment.
fn exec_instr<I: Intrinsics>(
    intrinsics: &I,
    state: &mut State,
    err: &mut Option<QueryExecutionError>,
    call_pc: &mut Option<Address>,
    code: &ByteCode,
    Ghost(pushed): Ghost<Seq<StateV>>,
) -> (r: Flow)
    requires
        !(*code is Fork),
        old(state)@.pc.0 < usize::MAX,
    ensures
        ({
            let c0 = Cfg {
                state: old(state)@,
                err: *old(err),
                call_pc: *old(call_pc),
                pushed: pushed,
            };
            match step_code(*intrinsics, c0, *code) {
                Step::Going(c) => r is Continue && final(state)@ == c.state && *final(err) == c.err
                    && *final(call_pc) == c.call_pc && c.pushed == pushed,
                Step::Done(c, o) => (match r {
                    Flow::Continue => false,
                    Flow::Stop(out) => outcome_matches(o, out),
                }) && c.pushed == pushed,
            }
        }),
{
    match code {
        ByteCode::Jump(_) | ByteCode::JumpUnless(_) | ByteCode::CallClosure { .. }
            | ByteCode::Call { .. } | ByteCode::NewScope { .. } | ByteCode::Ret
            | ByteCode::Output | ByteCode::Intrinsic1(_) | ByteCode::Intrinsic2(_) => {
            exec_instr_control(intrinsics, state, err, call_pc, code, Ghost(pushed))
        }
        _ => {
            exec_instr_data(intrinsics, state, err, call_pc, code, Ghost(pushed))
        }
    }
}

/// Execute one instruction of the resumed state: fetch at the current program
/// counter and apply the instruction's effect, exactly as the small-step
/// interpreter `step` describes. `rest` and `pushed` describe the pending
/// list: everything that was pending when the segment began, plus what this
/// segment has scheduled so far.
#[verifier::rlimit(100)]
fn exec_step<I: Intrinsics>(
    env: &mut Environment,
    intrinsics: &I,
    state: &mut State,
    err: &mut Option<QueryExecutionError>,
    call_pc: &mut Option<Address>,
    Ghost(rest): Ghost<Seq<StateV>>,
    Ghost(pushed): Ghost<Seq<StateV>>,
) -> (r: Flow)
    requires
        forks_views(old(env).forks@) == rest + pushed,
    ensures
        final(env).program == old(env).program,
        ({
            let c0 = Cfg {
                state: old(state)@,
                err: *old(err),
                call_pc: *old(call_pc),
                pushed: pushed,
            };
            match step(old(env).program, *intrinsics, c0) {
                Step::Going(c) => r is Continue && final(state)@ == c.state && *final(err) == c.err
                    && *final(call_pc) == c.call_pc && forks_views(final(env).forks@) == rest
                    + c.pushed,
                Step::Done(c, o) => (match r {
                    Flow::Continue => false,
                    Flow::Stop(out) => outcome_matches(o, out),
                }) && forks_views(final(env).forks@) == rest + c.pushed,
            }
        }),
{
    let ghost program0 = env.program;
    let ghost c0 = Cfg { state: state@, err: *err, call_pc: *call_pc, pushed: pushed };
    let code = env.program.fetch_code(state.pc);
    match code {
        None => {
            proof {
                assert(step(program0, *intrinsics, c0) =~~= Step::Done(c0, Out::Finished));
            }
            Flow::Stop(RunOutcome::Finished)
        }
        Some(ByteCode::Fork { fork_pc }) => {
            let target: Address = *fork_pc;
            env.push_fork(state, target);
            state.pc.next();
            proof {
                assert(forks_views(env.forks@) =~= rest + pushed.push(
                    StateV { pc: target, ..c0.state },
                ));
                assert(step(program0, *intrinsics, c0) =~~= Step::Going(
                    Cfg {
                        state: state@,
                        err: *err,
                        call_pc: *call_pc,
                        pushed: pushed.push(StateV { pc: target, ..c0.state }),
                    },
                ));
            }
            Flow::Continue
        }
        Some(other) => {
            let flow = exec_instr(intrinsics, state, err, call_pc, other, Ghost(pushed));
            proof {
                assert(step(program0, *intrinsics, c0) == step_code(*intrinsics, c0, *other));
            }
            flow
        }
    }
}

/// Resume the most recently suspended execution state and run it for one
/// run-segment: until it yields one result (`Yielded` / `Failed`), runs past
/// the end of its instructions (`Finished`), hits a fatal internal
/// inconsistency (`Fatal`), or exhausts the step budget (`OutOfFuel`). States
/// scheduled by `Fork` instructions are left pending in LIFO order. With no
/// state pending, returns `Finished` and changes nothing.
#[verifier::rlimit(100)]
pub fn run_code<I: Intrinsics>(env: &mut Environment, intrinsics: &I, fuel: u64) -> (r: RunOutcome)
    ensures
        final(env).program == old(env).program,
        old(env).forks@.len() == 0 ==> r == RunOutcome::Finished && *final(env) == *old(env),
        old(env).forks@.len() > 0 ==> run_code_post(
            old(env).program,
            *intrinsics,
            forks_views(old(env).forks@).last(),
            forks_views(old(env).forks@).drop_last(),
            fuel,
            r,
            forks_views(final(env).forks@),
        ),
{
    let mut state = match env.pop_fork() {
        None => {
            return RunOutcome::Finished;
        }
        Some(s) => s,
    };
    let ghost program = env.program;
    let ghost start: StateV = state@;
    let ghost rest: Seq<StateV> = forks_views(env.forks@);
    let mut err: Option<QueryExecutionError> = None;
    let mut call_pc: Option<Address> = None;
    let ghost mut pushed: Seq<StateV> = Seq::empty();
    let ghost mut steps: nat = 0;
    let mut fuel_left: u64 = fuel;
    proof {
        assert(init_cfg(start) =~~= (Cfg {
            state: state@,
            err: err,
            call_pc: call_pc,
            pushed: pushed,
        }));
    }
    loop
        invariant
            steps + fuel_left == fuel,
            env.program == program,
            program == old(env).program,
            forks_views(env.forks@) == rest + pushed,
            run(program, *intrinsics, init_cfg(start), steps) == Step::Going(
                Cfg { state: state@, err: err, call_pc: call_pc, pushed: pushed },
            ),
            rest == forks_views(old(env).forks@).drop_last(),
            start == forks_views(old(env).forks@).last(),
            old(env).forks@.len() > 0,
        decreases fuel_left,
    {
        let ghost cb = Cfg { state: state@, err: err, call_pc: call_pc, pushed: pushed };
        if fuel_left == 0 {
            proof {
                lemma_post_witness(
                    program,
                    *intrinsics,
                    start,
                    rest,
                    fuel,
                    RunOutcome::OutOfFuel,
                    forks_views(env.forks@),
                    steps,
                );
            }
            return RunOutcome::OutOfFuel;
        }
        fuel_left = fuel_left - 1;
        let flow = exec_step(env, intrinsics, &mut state, &mut err, &mut call_pc, Ghost(rest), Ghost(pushed));
        proof {
            lemma_run_unfold(program, *intrinsics, init_cfg(start), steps);
            steps = steps + 1;
        }
        match flow {
            Flow::Continue => {
                proof {
                    let c = step(program, *intrinsics, cb)->Going_0;
                    pushed = c.pushed;
                    assert((Cfg { state: state@, err: err, call_pc: call_pc, pushed: pushed })
                        =~~= c);
                }
            }
            Flow::Stop(out) => {
                proof {
                    lemma_post_witness(
                        program,
                        *intrinsics,
                        start,
                        rest,
                        fuel,
                        out,
                        forks_views(env.forks@),
                        steps,
                    );
                }
                return out;
            }
        }
    }
}


/// The machine: a restartable producer of results driven by depth-first
/// exploration of suspended execution states.
#[derive(Debug)]
pub struct Machine<I: Intrinsics> {
    pub env: Environment,
    pub intrinsics: I,
}

impl<I: Intrinsics> Machine<I> {
    /// A machine over `program` with one fresh execution state positioned at
    /// the program's entry address.
    pub fn new(program: Program, intrinsics: I) -> (m: Machine<I>)
        ensures
            m.env.program == program,
            forks_views(m.env.forks@) == seq![spec_new_state(program.entry_point)],
            m.intrinsics == intrinsics,
    {
        let state = State::new(program.entry_point);
        let mut forks: Vec<State> = Vec::new();
        forks.push(state);
        proof {
            assert(forks_views(forks@) =~= seq![spec_new_state(program.entry_point)]);
        }
        Machine { env: Environment { program, forks }, intrinsics }
    }

    /// Produce the next result of the machine, spending at most `fuel`
    /// instruction steps on the resumed execution state.
    pub fn next(&mut self, fuel: u64) -> (r: RunOutcome)
        ensures
            final(self).env.program == old(self).env.program,
            final(self).intrinsics == old(self).intrinsics,
            old(self).env.forks@.len() == 0 ==> r == RunOutcome::Finished && *final(self) == *old(
                self,
            ),
            old(self).env.forks@.len() > 0 ==> run_code_post(
                old(self).env.program,
                old(self).intrinsics,
                forks_views(old(self).env.forks@).last(),
                forks_views(old(self).env.forks@).drop_last(),
                fuel,
                r,
                forks_views(final(self).env.forks@),
            ),
    {
        run_code(&mut self.env, &self.intrinsics, fuel)
    }
}

} // verus!
