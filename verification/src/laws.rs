//! Laws of the machine, proved from the specification-level semantics that
//! the executable operations are verified against.

use vstd::prelude::*;

use crate::bytecode::{Address, Program, ScopeId, ScopedSlot};
use crate::errors::ProgramError;
use crate::machine::{
    init_cfg, run, run_code_post, step, step_ret, Cfg, Intrinsics, Out, RunOutcome, Step,
};
use crate::state::{
    spec_dup, spec_pop, spec_pop_scope, spec_push_scope, spec_slot, spec_store_slot, StateV,
};
use crate::value::Val;

verus! {

/// No instruction of the program is a `Fork`.
pub open spec fn fork_free(program: Program) -> bool {
    forall|i: int| 0 <= i < program.code.len() ==> !(#[trigger] program.code[i] is Fork)
}

/// One step of a fork-free program schedules nothing new.
pub proof fn lemma_fork_free_step<I: Intrinsics>(program: Program, intr: I, c: Cfg)
    requires
        fork_free(program),
    ensures
        match step(program, intr, c) {
            Step::Going(c2) => c2.pushed == c.pushed,
            Step::Done(c2, _) => c2.pushed == c.pushed,
        },
{
    match program.spec_fetch(c.state.pc) {
        Some(code) => {
            assert(!(code is Fork));
        }
        None => {}
    }
}

/// A run of a fork-free program, however long, schedules nothing new.
pub proof fn lemma_fork_free_run<I: Intrinsics>(program: Program, intr: I, cfg: Cfg, n: nat)
    requires
        fork_free(program),
    ensures
        match run(program, intr, cfg, n) {
            Step::Going(c) => c.pushed == cfg.pushed,
            Step::Done(c, _) => c.pushed == cfg.pushed,
        },
    decreases n,
{
    if n > 0 {
        lemma_fork_free_run(program, intr, cfg, (n - 1) as nat);
        match run(program, intr, cfg, (n - 1) as nat) {
            Step::Going(c) => {
                lemma_fork_free_step(program, intr, c);
            }
            _ => {}
        }
    }
}

/// A machine over a fork-free program yields at most one result: the
/// run-segment that consumes its one pending execution state leaves the
/// pending list empty, and with an empty pending list every later advance
/// returns `Finished` and changes nothing.
pub proof fn lemma_fork_free_single_result<I: Intrinsics>(
    program: Program,
    intr: I,
    start: StateV,
    fuel: u64,
    r: RunOutcome,
    final_forks: Seq<StateV>,
)
    requires
        fork_free(program),
        run_code_post(program, intr, start, Seq::empty(), fuel, r, final_forks),
    ensures
        final_forks == Seq::<StateV>::empty(),
{
    let n = choose|n: nat|
        #![trigger run(program, intr, init_cfg(start), n)]
        n <= fuel && match run(program, intr, init_cfg(start), n) {
            Step::Going(c) => r == RunOutcome::OutOfFuel && n == fuel && final_forks
                == Seq::<StateV>::empty() + c.pushed,
            Step::Done(c, o) => crate::machine::outcome_matches(o, r) && final_forks
                == Seq::<StateV>::empty() + c.pushed,
        };
    lemma_fork_free_run(program, intr, init_cfg(start), n);
    match run(program, intr, init_cfg(start), n) {
        Step::Going(c) => {
            assert(final_forks =~= Seq::<StateV>::empty());
        }
        Step::Done(c, _) => {
            assert(final_forks =~= Seq::<StateV>::empty());
        }
    }
}

/// Exploration order is strictly LIFO: of two execution states scheduled in
/// order from the same segment, the one scheduled second is resumed first,
/// and the one scheduled first is resumed before anything that was pending
/// earlier.
pub proof fn lemma_lifo_order(pending: Seq<StateV>, first: StateV, second: StateV)
    ensures
        pending.push(first).push(second).last() == second,
        pending.push(first).push(second).drop_last() == pending.push(first),
        pending.push(first).last() == first,
        pending.push(first).drop_last() == pending,
{
    assert(pending.push(first).push(second).drop_last() =~= pending.push(first));
    assert(pending.push(first).drop_last() =~= pending);
}

/// A store followed by a load of the same slot, with no scope entered or
/// exited in between, yields exactly the stored value.
pub proof fn lemma_store_load_round_trip(s: StateV, slot: ScopedSlot, v: Val)
    requires
        spec_store_slot(s, slot, v) is Ok,
    ensures
        spec_slot(spec_store_slot(s, slot, v).unwrap(), slot) == Ok::<Option<Val>, ProgramError>(
            Some(v),
        ),
{
}

/// Shadow/restore: entering a lexical level that already holds a live scope
/// and then exiting restores the state exactly, every slot of the level
/// included, and returns the recorded resume address.
pub proof fn lemma_scope_shadow_restore(
    s: StateV,
    id: ScopeId,
    variable_cnt: usize,
    closure_cnt: usize,
    ret: Address,
)
    requires
        id.0 < s.scopes.len(),
        s.scopes[id.0 as int].current is Some,
    ensures
        spec_pop_scope(spec_push_scope(s, id, variable_cnt, closure_cnt, ret)) == Ok::<
            (StateV, Address),
            ProgramError,
        >((s, ret)),
{
    let s2 = spec_push_scope(s, id, variable_cnt, closure_cnt, ret);
    let entry = s.scopes[id.0 as int];
    assert(entry.saved.push(entry.current.unwrap()).drop_last() =~= entry.saved);
    assert(s2.scope_stack.drop_last() =~= s.scope_stack);
    let restored = spec_pop_scope(s2).unwrap().0;
    assert(restored.scopes =~~= s.scopes);
    assert(restored =~~= s);
}

/// Duplicating the top of the stack and popping it is a no-op: the remaining
/// state is exactly the original, and the popped value is the original top.
pub proof fn lemma_dup_pop_no_op(s: StateV)
    requires
        s.stack.len() > 0,
    ensures
        spec_dup(s) is Ok,
        spec_pop(spec_dup(s).unwrap()) == Ok::<(StateV, Val), ProgramError>((s, s.stack.last())),
{
    assert(s.stack.push(s.stack.last()).drop_last() =~= s.stack);
    assert(spec_pop(spec_dup(s).unwrap()).unwrap().0 =~~= s);
}

/// Exiting with no open scope fails fatally with `PopEmptyScope`; a correct
/// compiler never emits a `Ret` that runs in such a state.
pub proof fn lemma_ret_on_empty_scope_stack(cfg: Cfg)
    requires
        cfg.state.scope_stack.len() == 0,
    ensures
        spec_pop_scope(cfg.state) == Err::<(StateV, Address), ProgramError>(
            ProgramError::PopEmptyScope,
        ),
        step_ret(cfg) == Step::Done(cfg, Out::Fatal(ProgramError::PopEmptyScope)),
{
}

} // verus!
