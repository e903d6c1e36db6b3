//! The compiled program artifact and its instruction set.
//!
//! A [`Program`] is a flat, immutable sequence of instructions addressed by
//! [`Address`], plus an entry address. Several opcodes are forward-looking
//! placeholders with no assigned semantics; the dispatch keeps a case for each
//! so they can be given behaviour later without redesign.

use vstd::prelude::*;

use crate::value::Value;

verus! {

/// An instruction address: a totally ordered program-counter value with a
/// successor operation.
#[derive(Copy, Debug, PartialEq, Eq, Structural, PartialOrd, Ord, Hash)]
pub struct Address(pub usize);

impl Clone for Address {
    fn clone(&self) -> (res: Self)
        ensures
            res == *self,
    {
        Address(self.0)
    }
}

impl Address {
    /// The address of the instruction that follows this one.
    pub open spec fn succ(self) -> Address {
        Address((self.0 + 1) as usize)
    }

    /// Advance to the next instruction.
    pub fn next(&mut self)
        requires
            old(self).0 < usize::MAX,
        ensures
            *final(self) == old(self).succ(),
    {
        self.0 = self.0 + 1;
    }
}

/// The index of a lexical nesting level, assigned at compile time and stable
/// across all execution states of the same program.
#[derive(Copy, Debug, PartialEq, Eq, Structural, Hash)]
pub struct ScopeId(pub usize);

impl Clone for ScopeId {
    fn clone(&self) -> (res: Self)
        ensures
            res == *self,
    {
        ScopeId(self.0)
    }
}

/// The address of one binding: a lexical level and a slot index inside the
/// scope active at that level.
#[derive(Copy, Debug, PartialEq, Eq, Structural, Hash)]
pub struct ScopedSlot(pub ScopeId, pub usize);

impl Clone for ScopedSlot {
    fn clone(&self) -> (res: Self)
        ensures
            res == *self,
    {
        ScopedSlot(ScopeId((self.0).0), self.1)
    }
}

/// A callable value: a bare code address. A closure deliberately captures no
/// environment; the scope table's absolute addressing supplies lexical
/// context, so a closure is valid only while the levels it references remain
/// live in the executing state's scope table.
#[derive(Copy, Debug, PartialEq, Eq, Structural)]
pub struct Closure(pub Address);

impl Clone for Closure {
    fn clone(&self) -> (res: Self)
        ensures
            res == *self,
    {
        Closure(Address((self.0).0))
    }
}

/// A reference to an intrinsic function: a dispatch index into the installed
/// intrinsic set, and a name used only for diagnostics.
#[derive(Copy, Debug, PartialEq, Eq)]
pub struct NamedFunction {
    pub name: &'static str,
    pub func: u32,
}

impl Clone for NamedFunction {
    fn clone(&self) -> (res: Self)
        ensures
            res == *self,
    {
        NamedFunction { name: self.name, func: self.func }
    }
}

/// One instruction of the compiled program.
#[derive(Debug)]
pub enum ByteCode {
    /// Never emitted on a reachable path; executing it is fatal.
    Unreachable,
    /// A placeholder opcode left for a later extension; executing it is fatal.
    PlaceHolder,
    /// No effect.
    Nop,
    /// Push a literal value.
    Push(Value),
    /// Discard the top of the operand stack.
    Pop,
    /// Duplicate the top of the operand stack.
    Dup,
    /// Pop one value and push a literal in its place.
    Const(Value),
    /// Push a clone of the value stored at the slot.
    Load(ScopedSlot),
    /// Pop a value and store it into the slot.
    Store(ScopedSlot),
    /// Push a closure literal onto the closure staging stack.
    PushClosure(Closure),
    /// Pop the closure staging stack and store into a closure slot.
    StoreClosure(ScopedSlot),
    /// Object construction; a placeholder in this machine.
    Object,
    /// Pop a value and append it to the array held by the slot.
    Append(ScopedSlot),
    /// Snapshot the current execution state, redirect the snapshot to
    /// `fork_pc`, and schedule it; the current state continues unaffected.
    Fork { fork_pc: Address },
    /// Backtracking barrier; a placeholder in this machine.
    ForkTryBegin,
    /// Backtracking barrier; a placeholder in this machine.
    ForkTryEnd,
    /// Backtracking alternative; a placeholder in this machine.
    ForkAlt,
    /// Labelled backtrack target; a placeholder in this machine.
    ForkLabel,
    /// Explicit backtrack; a placeholder in this machine.
    Backtrack,
    /// Unconditional jump.
    Jump(Address),
    /// Pop a condition; jump to the address unless the condition is truthy.
    JumpUnless(Address),
    /// Call the closure stored at the slot, recording the return address for
    /// the `NewScope` that must follow immediately.
    CallClosure { slot: ScopedSlot, return_address: Address },
    /// Jump to `function`, recording the return address for the `NewScope`
    /// that must follow immediately.
    Call { function: Address, return_address: Address },
    /// Explicit program-counter push; a placeholder in this machine.
    PushPC,
    /// Explicit program-counter call; a placeholder in this machine.
    CallPC,
    /// Enter lexical level `id` with the given slot arities, consuming the
    /// return address recorded by the preceding call.
    NewScope { id: ScopeId, variable_cnt: usize, closure_cnt: usize },
    /// Exit the innermost open scope and resume at its recorded address.
    Ret,
    /// Yield one result: the recorded deferred error if any, else the top of
    /// the operand stack.
    Output,
    /// Iteration; a placeholder in this machine.
    Each,
    /// Expression grouping; a placeholder in this machine.
    ExpBegin,
    /// Expression grouping; a placeholder in this machine.
    ExpEnd,
    /// Path tracking; a placeholder in this machine.
    PathBegin,
    /// Path tracking; a placeholder in this machine.
    PathEnd,
    /// Pop one argument and apply the named unary intrinsic.
    Intrinsic1(NamedFunction),
    /// Pop two arguments (right, then left) and apply the named binary
    /// intrinsic.
    Intrinsic2(NamedFunction),
}

/// The immutable compiled artifact: a flat instruction sequence and an entry
/// address.
#[derive(Debug)]
pub struct Program {
    pub code: Vec<ByteCode>,
    pub entry_point: Address,
}

impl Program {
    /// The instruction at `pc`, or `None` past the end of the program.
    pub open spec fn spec_fetch(self, pc: Address) -> Option<ByteCode> {
        if pc.0 < self.code.len() {
            Some(self.code[pc.0 as int])
        } else {
            None
        }
    }

    /// Fetch the instruction at `pc`.
    pub fn fetch_code(&self, pc: Address) -> (r: Option<&ByteCode>)
        ensures
            match r {
                Some(code) => self.spec_fetch(pc) == Some(*code) && pc.0 < usize::MAX,
                None => self.spec_fetch(pc) is None,
            },
    {
        if pc.0 < self.code.len() {
            Some(&self.code[pc.0])
        } else {
            None
        }
    }
}

} // verus!
