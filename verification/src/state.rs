//! One independent, resumable execution state and its scope table.
//!
//! A [`State`] owns a program counter, an operand stack, the scope table, the
//! stack of open scopes with their return addresses, and a transient closure
//! staging stack. Every operation is specified against the mathematical model
//! [`StateV`]; the `spec_*` functions here are the single source of truth for
//! what each operation does, and the instruction semantics are built from
//! them.

use vstd::prelude::*;

use crate::bytecode::{Address, Closure, ScopeId, ScopedSlot};
use crate::errors::ProgramError;
use crate::value::{clone_value, lemma_vals_of, val_of, vals_of, Val, Value};

verus! {

/// A fixed-arity record of variable slots and closure slots for one lexical
/// nesting level, instantiated at scope entry with all slots uninitialized.
#[derive(Debug)]
pub struct Scope {
    pub slots: Vec<Option<Value>>,
    pub closure_slots: Vec<Option<Closure>>,
}

/// The model of a [`Scope`].
#[verifier::ext_equal]
pub struct ScopeV {
    pub slots: Seq<Option<Val>>,
    pub closure_slots: Seq<Option<Closure>>,
}

/// The model of an optional value slot.
pub open spec fn opt_val(o: Option<Value>) -> Option<Val> {
    match o {
        Some(v) => Some(val_of(v)),
        None => None,
    }
}

impl View for Scope {
    type V = ScopeV;

    open spec fn view(&self) -> ScopeV {
        ScopeV {
            slots: self.slots@.map_values(|o: Option<Value>| opt_val(o)),
            closure_slots: self.closure_slots@,
        }
    }
}

/// The model of a freshly entered scope: all slots empty.
pub open spec fn spec_new_scope(variable_cnt: usize, closure_cnt: usize) -> ScopeV {
    ScopeV {
        slots: Seq::new(variable_cnt as nat, |i: int| None),
        closure_slots: Seq::new(closure_cnt as nat, |i: int| None),
    }
}

impl Scope {
    /// A fresh scope with the given arities, every slot uninitialized.
    pub fn new(variable_cnt: usize, closure_cnt: usize) -> (s: Self)
        ensures
            s@ == spec_new_scope(variable_cnt, closure_cnt),
    {
        let mut slots: Vec<Option<Value>> = Vec::new();
        let mut i: usize = 0;
        while i < variable_cnt
            invariant
                i <= variable_cnt,
                slots@.len() == i,
                forall|j: int| 0 <= j < i ==> slots@[j] is None,
            decreases variable_cnt - i,
        {
            slots.push(None);
            i = i + 1;
        }
        let mut closure_slots: Vec<Option<Closure>> = Vec::new();
        let mut k: usize = 0;
        while k < closure_cnt
            invariant
                k <= closure_cnt,
                closure_slots@.len() == k,
                forall|j: int| 0 <= j < k ==> closure_slots@[j] is None,
            decreases closure_cnt - k,
        {
            closure_slots.push(None);
            k = k + 1;
        }
        let s = Scope { slots, closure_slots };
        proof {
            assert(s@ =~~= spec_new_scope(variable_cnt, closure_cnt));
        }
        s
    }
}

impl Clone for Scope {
    /// Cloning a scope preserves its model.
    fn clone(&self) -> (res: Self)
        ensures
            res@ == self@,
    {
        let slots = self.slots.clone();
        let closure_slots = self.closure_slots.clone();
        proof {
            assert forall|i: int| 0 <= i < slots@.len() implies opt_val(slots@[i]) == opt_val(
                self.slots@[i],
            ) by {
                assert(cloned::<Option<Value>>(self.slots@[i], slots@[i]));
            }
            assert forall|i: int|
                0 <= i < closure_slots@.len() implies closure_slots@[i] == self.closure_slots@[i] by {
                assert(cloned::<Option<Closure>>(self.closure_slots@[i], closure_slots@[i]));
            }
            let res = Scope { slots, closure_slots };
            assert(res@ =~~= self@);
        }
        Scope { slots, closure_slots }
    }
}

/// One lexical level of the scope table: the scope live at this level, if it
/// has been entered, and the shadow stack of scopes saved by re-entrant
/// (recursive) entries of the same level.
#[derive(Debug)]
pub struct ScopeEntry {
    pub current: Option<Scope>,
    pub saved: Vec<Scope>,
}

/// The model of a [`ScopeEntry`].
#[verifier::ext_equal]
pub struct ScopeEntryV {
    pub current: Option<ScopeV>,
    pub saved: Seq<ScopeV>,
}

impl View for ScopeEntry {
    type V = ScopeEntryV;

    open spec fn view(&self) -> ScopeEntryV {
        ScopeEntryV {
            current: match self.current {
                Some(s) => Some(s@),
                None => None,
            },
            saved: self.saved@.map_values(|s: Scope| s@),
        }
    }
}

/// The model of a lexical level that has never been entered.
pub open spec fn empty_entry() -> ScopeEntryV {
    ScopeEntryV { current: None, saved: Seq::empty() }
}

impl Clone for ScopeEntry {
    /// Cloning a scope-table entry preserves its model.
    fn clone(&self) -> (res: Self)
        ensures
            res@ == self@,
    {
        let current = match &self.current {
            Some(s) => Some(s.clone()),
            None => None,
        };
        let saved = self.saved.clone();
        proof {
            assert forall|i: int| 0 <= i < saved@.len() implies saved@[i]@ == self.saved@[i]@ by {
                assert(cloned::<Scope>(self.saved@[i], saved@[i]));
            }
            let res = ScopeEntry { current, saved };
            assert(res@ =~~= self@);
        }
        ScopeEntry { current, saved }
    }
}

/// One open scope: the address execution resumes at when the scope is exited,
/// and the lexical level that was entered.
#[derive(Copy, Debug, PartialEq, Eq, Structural)]
pub struct ScopeFrame {
    pub pc: Address,
    pub id: ScopeId,
}

impl Clone for ScopeFrame {
    fn clone(&self) -> (res: Self)
        ensures
            res == *self,
    {
        ScopeFrame { pc: self.pc, id: self.id }
    }
}

/// One independent, resumable execution state.
#[derive(Debug)]
pub struct State {
    pub pc: Address,
    pub stack: Vec<Value>,
    pub scopes: Vec<ScopeEntry>,
    pub scope_stack: Vec<ScopeFrame>,
    pub closure_stack: Vec<Closure>,
}

/// The model of a [`State`].
#[verifier::ext_equal]
pub struct StateV {
    pub pc: Address,
    pub stack: Seq<Val>,
    pub scopes: Seq<ScopeEntryV>,
    pub scope_stack: Seq<ScopeFrame>,
    pub closure_stack: Seq<Closure>,
}

impl View for State {
    type V = StateV;

    open spec fn view(&self) -> StateV {
        StateV {
            pc: self.pc,
            stack: self.stack@.map_values(|v: Value| val_of(v)),
            scopes: self.scopes@.map_values(|e: ScopeEntry| e@),
            scope_stack: self.scope_stack@,
            closure_stack: self.closure_stack@,
        }
    }
}

/// The model of a fresh execution state positioned at `pc`.
pub open spec fn spec_new_state(pc: Address) -> StateV {
    StateV {
        pc: pc,
        stack: Seq::empty(),
        scopes: Seq::empty(),
        scope_stack: Seq::empty(),
        closure_stack: Seq::empty(),
    }
}

/// Push a value onto the operand stack.
pub open spec fn spec_push(s: StateV, v: Val) -> StateV {
    StateV { stack: s.stack.push(v), ..s }
}

/// Pop the operand stack; fails on an empty stack.
pub open spec fn spec_pop(s: StateV) -> Result<(StateV, Val), ProgramError> {
    if s.stack.len() == 0 {
        Err(ProgramError::PopEmptyStack)
    } else {
        Ok((StateV { stack: s.stack.drop_last(), ..s }, s.stack.last()))
    }
}

/// Duplicate the top of the operand stack; fails on an empty stack.
pub open spec fn spec_dup(s: StateV) -> Result<StateV, ProgramError> {
    if s.stack.len() == 0 {
        Err(ProgramError::PopEmptyStack)
    } else {
        Ok(StateV { stack: s.stack.push(s.stack.last()), ..s })
    }
}

/// Push a closure onto the closure staging stack.
pub open spec fn spec_push_closure(s: StateV, c: Closure) -> StateV {
    StateV { closure_stack: s.closure_stack.push(c), ..s }
}

/// Pop the closure staging stack; fails when it is empty.
pub open spec fn spec_pop_closure(s: StateV) -> Result<(StateV, Closure), ProgramError> {
    if s.closure_stack.len() == 0 {
        Err(ProgramError::PopEmptyStack)
    } else {
        Ok((StateV { closure_stack: s.closure_stack.drop_last(), ..s }, s.closure_stack.last()))
    }
}

/// Read the variable slot addressed by `slot` in the scope currently live at
/// its lexical level.
pub open spec fn spec_slot(s: StateV, slot: ScopedSlot) -> Result<Option<Val>, ProgramError> {
    let sid = (slot.0).0;
    if sid >= s.scopes.len() || s.scopes[sid as int].current is None {
        Err(ProgramError::UninitializedScope)
    } else {
        let sc = s.scopes[sid as int].current.unwrap();
        if slot.1 >= sc.slots.len() {
            Err(ProgramError::UnknownSlot)
        } else {
            Ok(sc.slots[slot.1 as int])
        }
    }
}

/// Overwrite the variable slot addressed by `slot`.
pub open spec fn spec_store_slot(s: StateV, slot: ScopedSlot, v: Val) -> Result<
    StateV,
    ProgramError,
> {
    let sid = (slot.0).0;
    if sid >= s.scopes.len() || s.scopes[sid as int].current is None {
        Err(ProgramError::UninitializedScope)
    } else {
        let entry = s.scopes[sid as int];
        let sc = entry.current.unwrap();
        if slot.1 >= sc.slots.len() {
            Err(ProgramError::UnknownSlot)
        } else {
            let sc2 = ScopeV { slots: sc.slots.update(slot.1 as int, Some(v)), ..sc };
            let entry2 = ScopeEntryV { current: Some(sc2), ..entry };
            Ok(StateV { scopes: s.scopes.update(sid as int, entry2), ..s })
        }
    }
}

/// Read the closure slot addressed by `slot`.
pub open spec fn spec_closure_slot(s: StateV, slot: ScopedSlot) -> Result<
    Option<Closure>,
    ProgramError,
> {
    let sid = (slot.0).0;
    if sid >= s.scopes.len() || s.scopes[sid as int].current is None {
        Err(ProgramError::UninitializedScope)
    } else {
        let sc = s.scopes[sid as int].current.unwrap();
        if slot.1 >= sc.closure_slots.len() {
            Err(ProgramError::UnknownSlot)
        } else {
            Ok(sc.closure_slots[slot.1 as int])
        }
    }
}

/// Overwrite the closure slot addressed by `slot`.
pub open spec fn spec_store_closure(s: StateV, slot: ScopedSlot, c: Closure) -> Result<
    StateV,
    ProgramError,
> {
    let sid = (slot.0).0;
    if sid >= s.scopes.len() || s.scopes[sid as int].current is None {
        Err(ProgramError::UninitializedScope)
    } else {
        let entry = s.scopes[sid as int];
        let sc = entry.current.unwrap();
        if slot.1 >= sc.closure_slots.len() {
            Err(ProgramError::UnknownSlot)
        } else {
            let sc2 = ScopeV { closure_slots: sc.closure_slots.update(slot.1 as int, Some(c)), ..sc };
            let entry2 = ScopeEntryV { current: Some(sc2), ..entry };
            Ok(StateV { scopes: s.scopes.update(sid as int, entry2), ..s })
        }
    }
}

/// Pop a value and append it to the array held by `slot`; fails unless the
/// slot currently holds an array.
pub open spec fn spec_append(s: StateV, slot: ScopedSlot, v: Val) -> Result<StateV, ProgramError> {
    match spec_slot(s, slot) {
        Err(e) => Err(e),
        Ok(None) => Err(ProgramError::UninitializedSlot),
        Ok(Some(cur)) => match cur {
            Val::Arr(items) => spec_store_slot(s, slot, Val::Arr(items.push(v))),
            _ => Err(ProgramError::AppendToNonArray),
        },
    }
}

/// Enter lexical level `id`: grow the table as needed, shadow a live scope at
/// that level, install a fresh scope, and record the open scope.
pub open spec fn spec_push_scope(
    s: StateV,
    id: ScopeId,
    variable_cnt: usize,
    closure_cnt: usize,
    pc: Address,
) -> StateV {
    let grown = if id.0 >= s.scopes.len() {
        s.scopes + Seq::new((id.0 + 1 - s.scopes.len()) as nat, |i: int| empty_entry())
    } else {
        s.scopes
    };
    let entry = grown[id.0 as int];
    let entry2 = match entry.current {
        Some(prev) => ScopeEntryV {
            current: Some(spec_new_scope(variable_cnt, closure_cnt)),
            saved: entry.saved.push(prev),
        },
        None => ScopeEntryV {
            current: Some(spec_new_scope(variable_cnt, closure_cnt)),
            saved: entry.saved,
        },
    };
    StateV {
        scopes: grown.update(id.0 as int, entry2),
        scope_stack: s.scope_stack.push(ScopeFrame { pc, id }),
        ..s
    }
}

/// Exit the innermost open scope: restore the shadowed scope at its level (or
/// leave the level empty) and return the recorded resume address.
pub open spec fn spec_pop_scope(s: StateV) -> Result<(StateV, Address), ProgramError> {
    if s.scope_stack.len() == 0 {
        Err(ProgramError::PopEmptyScope)
    } else {
        let frame = s.scope_stack.last();
        if frame.id.0 >= s.scopes.len() || s.scopes[frame.id.0 as int].current is None {
            Err(ProgramError::PopUnknownScope)
        } else {
            let entry = s.scopes[frame.id.0 as int];
            let entry2 = if entry.saved.len() == 0 {
                ScopeEntryV { current: None, saved: entry.saved }
            } else {
                ScopeEntryV { current: Some(entry.saved.last()), saved: entry.saved.drop_last() }
            };
            Ok(
                (
                    StateV {
                        scopes: s.scopes.update(frame.id.0 as int, entry2),
                        scope_stack: s.scope_stack.drop_last(),
                        ..s
                    },
                    frame.pc,
                ),
            )
        }
    }
}

impl State {
    /// A fresh execution state positioned at `pc`, with empty stacks and an
    /// empty scope table.
    pub fn new(pc: Address) -> (s: Self)
        ensures
            s@ == spec_new_state(pc),
    {
        let s = State {
            pc,
            stack: Vec::new(),
            scopes: Vec::new(),
            scope_stack: Vec::new(),
            closure_stack: Vec::new(),
        };
        proof {
            assert(s@ =~~= spec_new_state(pc));
        }
        s
    }

    /// Push a value onto the operand stack.
    pub fn push(&mut self, item: Value)
        ensures
            final(self)@ == spec_push(old(self)@, item@),
    {
        self.stack.push(item);
        proof {
            assert(self@ =~~= spec_push(old(self)@, item@));
        }
    }

    /// Pop the operand stack.
    pub fn pop(&mut self) -> (r: Result<Value, ProgramError>)
        ensures
            match r {
                Ok(v) => old(self)@.stack.len() > 0 && v@ == old(self)@.stack.last() && final(self)@ == StateV { stack: old(self)@.stack.drop_last(), ..old(self)@ },
                Err(e) => e == ProgramError::PopEmptyStack && old(self)@.stack.len() == 0 && *final(self) == *old(self),
            },
    {
        if self.stack.len() == 0 {
            Err(ProgramError::PopEmptyStack)
        } else {
            let v = self.stack.pop().unwrap();
            proof {
                assert(self@ =~~= (StateV { stack: old(self)@.stack.drop_last(), ..old(self)@ }));
            }
            Ok(v)
        }
    }

    /// Duplicate the top of the operand stack.
    pub fn dup(&mut self) -> (r: Result<(), ProgramError>)
        ensures
            match r {
                Ok(_) => old(self)@.stack.len() > 0 && final(self)@ == StateV {
                    stack: old(self)@.stack.push(old(self)@.stack.last()),
                    ..old(self)@
                },
                Err(e) => e == ProgramError::PopEmptyStack && old(self)@.stack.len() == 0 && *final(self) == *old(self),
            },
    {
        match self.pop() {
            Err(e) => Err(e),
            Ok(value) => {
                let copy = clone_value(&value);
                self.push(copy);
                self.push(value);
                proof {
                    assert(old(self)@.stack.drop_last().push(old(self)@.stack.last())
                        =~= old(self)@.stack);
                    assert(self@ =~~= (StateV {
                        stack: old(self)@.stack.push(old(self)@.stack.last()),
                        ..old(self)@
                    }));
                }
                Ok(())
            }
        }
    }

    /// Push a closure onto the closure staging stack.
    pub fn push_closure(&mut self, closure: Closure)
        ensures
            final(self)@ == spec_push_closure(old(self)@, closure),
    {
        self.closure_stack.push(closure);
        proof {
            assert(self@ =~~= spec_push_closure(old(self)@, closure));
        }
    }

    /// Pop the closure staging stack.
    pub fn pop_closure(&mut self) -> (r: Result<Closure, ProgramError>)
        ensures
            match r {
                Ok(c) => old(self)@.closure_stack.len() > 0 && c == old(self)@.closure_stack.last() && final(self)@ == StateV {
                    closure_stack: old(self)@.closure_stack.drop_last(),
                    ..old(self)@
                },
                Err(e) => e == ProgramError::PopEmptyStack && old(self)@.closure_stack.len() == 0
                    && *final(self) == *old(self),
            },
    {
        if self.closure_stack.len() == 0 {
            Err(ProgramError::PopEmptyStack)
        } else {
            let c = self.closure_stack.pop().unwrap();
            proof {
                assert(self@ =~~= (StateV {
                    closure_stack: old(self)@.closure_stack.drop_last(),
                    ..old(self)@
                }));
            }
            Ok(c)
        }
    }

    /// Read the variable slot addressed by `scoped_slot`, returning a copy of
    /// its contents.
    pub fn slot(&self, scoped_slot: &ScopedSlot) -> (r: Result<Option<Value>, ProgramError>)
        ensures
            match r {
                Ok(Some(v)) => spec_slot(self@, *scoped_slot) == Ok::<Option<Val>, ProgramError>(
                    Some(v@),
                ),
                Ok(None) => spec_slot(self@, *scoped_slot) == Ok::<Option<Val>, ProgramError>(None),
                Err(e) => spec_slot(self@, *scoped_slot) == Err::<Option<Val>, ProgramError>(e),
            },
    {
        let sid = (scoped_slot.0).0;
        if sid >= self.scopes.len() {
            return Err(ProgramError::UninitializedScope);
        }
        match &self.scopes[sid].current {
            None => Err(ProgramError::UninitializedScope),
            Some(scope) => {
                if scoped_slot.1 >= scope.slots.len() {
                    Err(ProgramError::UnknownSlot)
                } else {
                    match &scope.slots[scoped_slot.1] {
                        None => Ok(None),
                        Some(v) => Ok(Some(clone_value(v))),
                    }
                }
            }
        }
    }

    /// Overwrite the variable slot addressed by `scoped_slot`.
    pub fn store_slot(&mut self, scoped_slot: &ScopedSlot, value: Value) -> (r: Result<
        (),
        ProgramError,
    >)
        ensures
            match r {
                Ok(_) => spec_store_slot(old(self)@, *scoped_slot, value@) == Ok::<
                    StateV,
                    ProgramError,
                >(final(self)@),
                Err(e) => spec_store_slot(old(self)@, *scoped_slot, value@) == Err::<
                    StateV,
                    ProgramError,
                >(e) && final(self)@ == old(self)@,
            },
    {
        let sid = (scoped_slot.0).0;
        if sid >= self.scopes.len() {
            return Err(ProgramError::UninitializedScope);
        }
        let mut entry = self.scopes.remove(sid);
        match entry.current {
            None => {
                self.scopes.insert(sid, entry);
                proof {
                    assert(self.scopes@ =~= old(self).scopes@);
                    assert(self@ =~~= old(self)@);
                }
                Err(ProgramError::UninitializedScope)
            }
            Some(mut scope) => {
                if scoped_slot.1 >= scope.slots.len() {
                    entry.current = Some(scope);
                    self.scopes.insert(sid, entry);
                    proof {
                        assert(self.scopes@ =~= old(self).scopes@);
                        assert(self@ =~~= old(self)@);
                    }
                    Err(ProgramError::UnknownSlot)
                } else {
                    scope.slots.set(scoped_slot.1, Some(value));
                    entry.current = Some(scope);
                    self.scopes.insert(sid, entry);
                    proof {
                        assert(self@ =~~= spec_store_slot(
                            old(self)@,
                            *scoped_slot,
                            value@,
                        ).unwrap());
                    }
                    Ok(())
                }
            }
        }
    }

    /// Read the closure slot addressed by `scoped_slot`.
    pub fn closure_slot(&self, scoped_slot: &ScopedSlot) -> (r: Result<
        Option<Closure>,
        ProgramError,
    >)
        ensures
            match r {
                Ok(c) => spec_closure_slot(self@, *scoped_slot) == Ok::<
                    Option<Closure>,
                    ProgramError,
                >(c),
                Err(e) => spec_closure_slot(self@, *scoped_slot) == Err::<
                    Option<Closure>,
                    ProgramError,
                >(e),
            },
    {
        let sid = (scoped_slot.0).0;
        if sid >= self.scopes.len() {
            return Err(ProgramError::UninitializedScope);
        }
        match &self.scopes[sid].current {
            None => Err(ProgramError::UninitializedScope),
            Some(scope) => {
                if scoped_slot.1 >= scope.closure_slots.len() {
                    Err(ProgramError::UnknownSlot)
                } else {
                    match &scope.closure_slots[scoped_slot.1] {
                        None => Ok(None),
                        Some(c) => Ok(Some(*c)),
                    }
                }
            }
        }
    }

    /// Overwrite the closure slot addressed by `scoped_slot`.
    pub fn store_closure(&mut self, scoped_slot: &ScopedSlot, closure: Closure) -> (r: Result<
        (),
        ProgramError,
    >)
        ensures
            match r {
                Ok(_) => spec_store_closure(old(self)@, *scoped_slot, closure) == Ok::<
                    StateV,
                    ProgramError,
                >(final(self)@),
                Err(e) => spec_store_closure(old(self)@, *scoped_slot, closure) == Err::<
                    StateV,
                    ProgramError,
                >(e) && final(self)@ == old(self)@,
            },
    {
        let sid = (scoped_slot.0).0;
        if sid >= self.scopes.len() {
            return Err(ProgramError::UninitializedScope);
        }
        let mut entry = self.scopes.remove(sid);
        match entry.current {
            None => {
                self.scopes.insert(sid, entry);
                proof {
                    assert(self.scopes@ =~= old(self).scopes@);
                    assert(self@ =~~= old(self)@);
                }
                Err(ProgramError::UninitializedScope)
            }
            Some(mut scope) => {
                if scoped_slot.1 >= scope.closure_slots.len() {
                    entry.current = Some(scope);
                    self.scopes.insert(sid, entry);
                    proof {
                        assert(self.scopes@ =~= old(self).scopes@);
                        assert(self@ =~~= old(self)@);
                    }
                    Err(ProgramError::UnknownSlot)
                } else {
                    scope.closure_slots.set(scoped_slot.1, Some(closure));
                    entry.current = Some(scope);
                    self.scopes.insert(sid, entry);
                    proof {
                        assert(self@ =~~= spec_store_closure(
                            old(self)@,
                            *scoped_slot,
                            closure,
                        ).unwrap());
                    }
                    Ok(())
                }
            }
        }
    }

    /// Pop a value's worth of work for `Append`: append `value` to the array
    /// held by the slot.
    pub fn append(&mut self, scoped_slot: &ScopedSlot, value: Value) -> (r: Result<
        (),
        ProgramError,
    >)
        ensures
            match r {
                Ok(_) => spec_append(old(self)@, *scoped_slot, value@) == Ok::<
                    StateV,
                    ProgramError,
                >(final(self)@),
                Err(e) => spec_append(old(self)@, *scoped_slot, value@) == Err::<
                    StateV,
                    ProgramError,
                >(e) && final(self)@ == old(self)@,
            },
    {
        let current = match self.slot(scoped_slot) {
            Err(e) => {
                return Err(e);
            }
            Ok(c) => c,
        };
        match current {
            None => Err(ProgramError::UninitializedSlot),
            Some(Value::Array(mut items)) => {
                let ghost items0 = items@;
                proof {
                    lemma_vals_of(items0);
                }
                items.push(value);
                proof {
                    lemma_vals_of(items@);
                    assert(vals_of(items@) =~= vals_of(items0).push(value@));
                }
                match self.store_slot(scoped_slot, Value::Array(items)) {
                    Err(e) => {
                        proof {
                            assert(false);
                        }
                        Err(e)
                    }
                    Ok(_) => Ok(()),
                }
            }
            Some(_) => Err(ProgramError::AppendToNonArray),
        }
    }

    /// Enter lexical level `scope_id`, shadowing any scope already live there
    /// and recording the resume address `pc` for the matching exit.
    pub fn push_scope(
        &mut self,
        scope_id: ScopeId,
        variable_cnt: usize,
        closure_cnt: usize,
        pc: Address,
    )
        requires
            scope_id.0 < usize::MAX,
        ensures
            final(self)@ == spec_push_scope(old(self)@, scope_id, variable_cnt, closure_cnt, pc),
    {
        while self.scopes.len() <= scope_id.0
            invariant
                scope_id.0 < usize::MAX,
                self.scopes@.len() <= scope_id.0 + 1 || self.scopes@.len() == old(
                    self,
                ).scopes@.len(),
                self.scopes@.len() >= old(self).scopes@.len(),
                forall|j: int|
                    0 <= j < old(self).scopes@.len() ==> self.scopes@[j] == old(self).scopes@[j],
                forall|j: int|
                    old(self).scopes@.len() <= j < self.scopes@.len() ==> self.scopes@[j]@
                        == empty_entry(),
                self.pc == old(self).pc,
                self.stack == old(self).stack,
                self.scope_stack == old(self).scope_stack,
                self.closure_stack == old(self).closure_stack,
            decreases scope_id.0 + 1 - self.scopes.len(),
        {
            let fresh = ScopeEntry { current: None, saved: Vec::new() };
            proof {
                assert(fresh@ =~~= empty_entry());
            }
            self.scopes.push(fresh);
        }
        let mut entry = self.scopes.remove(scope_id.0);
        let fresh_scope = Scope::new(variable_cnt, closure_cnt);
        let prev = entry.current;
        entry.current = Some(fresh_scope);
        match prev {
            Some(p) => entry.saved.push(p),
            None => {}
        }
        self.scopes.insert(scope_id.0, entry);
        self.scope_stack.push(ScopeFrame { pc, id: scope_id });
        proof {
            assert(self@ =~~= spec_push_scope(old(self)@, scope_id, variable_cnt, closure_cnt, pc));
        }
    }

    /// Exit the innermost open scope, restoring the shadowed scope at its
    /// level, and return the recorded resume address.
    pub fn pop_scope(&mut self) -> (r: Result<Address, ProgramError>)
        ensures
            match r {
                Ok(a) => spec_pop_scope(old(self)@) == Ok::<(StateV, Address), ProgramError>(
                    (final(self)@, a),
                ),
                Err(e) => spec_pop_scope(old(self)@) == Err::<(StateV, Address), ProgramError>(e)
                    && *final(self) == *old(self),
            },
    {
        if self.scope_stack.len() == 0 {
            return Err(ProgramError::PopEmptyScope);
        }
        let frame = self.scope_stack[self.scope_stack.len() - 1];
        if frame.id.0 >= self.scopes.len() {
            return Err(ProgramError::PopUnknownScope);
        }
        let is_live = match &self.scopes[frame.id.0].current {
            Some(_) => true,
            None => false,
        };
        if !is_live {
            return Err(ProgramError::PopUnknownScope);
        }
        self.scope_stack.pop();
        let mut entry = self.scopes.remove(frame.id.0);
        let restored = entry.saved.pop();
        entry.current = restored;
        self.scopes.insert(frame.id.0, entry);
        proof {
            assert(self@ =~~= spec_pop_scope(old(self)@).unwrap().0);
        }
        Ok(frame.pc)
    }
}

impl Clone for State {
    /// Cloning an execution state preserves its model; this is what makes
    /// scheduling a snapshot of the current state cheap to reason about.
    fn clone(&self) -> (res: Self)
        ensures
            res@ == self@,
    {
        let stack = self.stack.clone();
        let scopes = self.scopes.clone();
        let scope_stack = self.scope_stack.clone();
        let closure_stack = self.closure_stack.clone();
        proof {
            assert forall|i: int| 0 <= i < stack@.len() implies val_of(stack@[i]) == val_of(
                self.stack@[i],
            ) by {
                assert(cloned::<Value>(self.stack@[i], stack@[i]));
            }
            assert forall|i: int| 0 <= i < scopes@.len() implies scopes@[i]@ == self.scopes@[i]@ by {
                assert(cloned::<ScopeEntry>(self.scopes@[i], scopes@[i]));
            }
            assert forall|i: int|
                0 <= i < scope_stack@.len() implies scope_stack@[i] == self.scope_stack@[i] by {
                assert(cloned::<ScopeFrame>(self.scope_stack@[i], scope_stack@[i]));
            }
            assert forall|i: int|
                0 <= i < closure_stack@.len() implies closure_stack@[i]
                    == self.closure_stack@[i] by {
                assert(cloned::<Closure>(self.closure_stack@[i], closure_stack@[i]));
            }
            let res = State { pc: self.pc, stack, scopes, scope_stack, closure_stack };
            assert(res@ =~~= self@);
        }
        State { pc: self.pc, stack, scopes, scope_stack, closure_stack }
    }
}

} // verus!
