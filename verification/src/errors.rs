//! The two disjoint error classes of the machine.
//!
//! `ProgramError` marks an internal consistency violation: a mismatch between
//! the compiled program and the machine's contract. Such an error ends the
//! whole run-segment and is never surfaced as a query result.
//!
//! `QueryExecutionError` is a user-visible failure signalled by an intrinsic
//! function; it propagates through the deferred-error mechanism and is yielded
//! at the next `Output` as the result of the failing solution path.

use vstd::prelude::*;

verus! {

/// A fatal internal-consistency violation. No program emitted by a correct
/// compiler triggers one of these.
#[derive(Clone, Copy, Debug, PartialEq, Eq, Structural)]
pub enum ProgramError {
    /// An instruction popped the operand stack while it was empty.
    PopEmptyStack,
    /// A slot of a scope that has never been entered was addressed.
    UninitializedScope,
    /// A slot index exceeded the declared arity of its scope.
    UnknownSlot,
    /// A load from a slot that has never been stored to.
    UninitializedSlot,
    /// `Ret` ran with no open scope to pop.
    PopEmptyScope,
    /// The scope recorded on the scope stack is missing from the scope table.
    PopUnknownScope,
    /// A `Call` or `CallClosure` ran while a return address was already
    /// pending; a `NewScope` must consume the pending address first.
    NestedCall,
    /// `NewScope` ran with no pending return address from a preceding call.
    NewScopeWithoutCall,
    /// `Append` addressed a slot whose current value is not an array.
    AppendToNonArray,
    /// An `Unreachable` instruction was executed.
    UnreachableInstruction,
    /// A placeholder opcode with no assigned semantics was executed.
    UnimplementedInstruction,
    /// A scope id at the upper machine limit cannot be allocated.
    ScopeIdOverflow,
}

/// A user-visible failure produced by an intrinsic function. One failing
/// solution path yields one such error in the output sequence; other pending
/// execution states are unaffected.
#[derive(Clone, Copy, Debug, PartialEq, Eq, Structural)]
pub enum QueryExecutionError {
    /// The named intrinsic is not known to the installed intrinsic set.
    UnknownFunction,
    /// An intrinsic was applied to values outside its domain.
    TypeMismatch,
    /// Division by zero.
    DivisionByZero,
    /// An arithmetic result does not fit the number representation.
    Overflow,
}

} // verus!
