//! A small numeric intrinsic set: negation, addition, subtraction,
//! multiplication and truncating division over `Number` values, with typed
//! failures for unknown names, non-numeric arguments, division by zero and
//! results that do not fit the number representation.

use vstd::prelude::*;

use crate::bytecode::NamedFunction;
use crate::errors::QueryExecutionError;
use crate::machine::Intrinsics;
use crate::value::{Val, Value};

verus! {

/// Dispatch index of the unary negation intrinsic.
pub const OP_NEGATE: u32 = 0;

/// Dispatch index of the addition intrinsic.
pub const OP_ADD: u32 = 1;

/// Dispatch index of the subtraction intrinsic.
pub const OP_SUBTRACT: u32 = 2;

/// Dispatch index of the multiplication intrinsic.
pub const OP_MULTIPLY: u32 = 3;

/// Dispatch index of the (truncating) division intrinsic.
pub const OP_DIVIDE: u32 = 4;

/// A number result when it fits the representation, else an overflow error.
pub open spec fn int_result(n: int) -> Result<Val, QueryExecutionError> {
    if n < i64::MIN as int || n > i64::MAX as int {
        Err(QueryExecutionError::Overflow)
    } else {
        Ok(Val::Int(n))
    }
}

/// Truncating division, the quotient rounded towards zero, with a typed error
/// for a zero divisor and for the one overflowing quotient.
pub open spec fn div_result(a: int, b: int) -> Result<Val, QueryExecutionError> {
    if b == 0 {
        Err(QueryExecutionError::DivisionByZero)
    } else {
        let q = if a == 0 {
            0int
        } else if a > 0 && b > 0 {
            a / b
        } else if a < 0 && b < 0 {
            (a * -1) / (b * -1)
        } else if a < 0 {
            ((a * -1) / b) * -1
        } else {
            (a / (b * -1)) * -1
        };
        int_result(q)
    }
}

/// The numeric intrinsic set.
#[derive(Debug)]
pub struct Arith;

impl Intrinsics for Arith {
    open spec fn spec_call1(&self, f: NamedFunction, arg: Val) -> Result<Val, QueryExecutionError> {
        if f.func == OP_NEGATE {
            match arg {
                Val::Int(a) => int_result(-a),
                _ => Err(QueryExecutionError::TypeMismatch),
            }
        } else {
            Err(QueryExecutionError::UnknownFunction)
        }
    }

    open spec fn spec_call2(&self, f: NamedFunction, lhs: Val, rhs: Val) -> Result<
        Val,
        QueryExecutionError,
    > {
        if f.func == OP_ADD || f.func == OP_SUBTRACT || f.func == OP_MULTIPLY || f.func
            == OP_DIVIDE {
            match (lhs, rhs) {
                (Val::Int(a), Val::Int(b)) => {
                    if f.func == OP_ADD {
                        int_result(a + b)
                    } else if f.func == OP_SUBTRACT {
                        int_result(a - b)
                    } else if f.func == OP_MULTIPLY {
                        int_result(a * b)
                    } else {
                        div_result(a, b)
                    }
                }
                _ => Err(QueryExecutionError::TypeMismatch),
            }
        } else {
            Err(QueryExecutionError::UnknownFunction)
        }
    }

    fn call1(&self, f: &NamedFunction, arg: Value) -> (r: Result<Value, QueryExecutionError>) {
        if f.func != OP_NEGATE {
            return Err(QueryExecutionError::UnknownFunction);
        }
        match arg {
            Value::Number(a) => {
                if a == i64::MIN {
                    Err(QueryExecutionError::Overflow)
                } else {
                    Ok(Value::Number(-a))
                }
            }
            _ => Err(QueryExecutionError::TypeMismatch),
        }
    }

    fn call2(&self, f: &NamedFunction, lhs: Value, rhs: Value) -> (r: Result<
        Value,
        QueryExecutionError,
    >) {
        if !(f.func == OP_ADD || f.func == OP_SUBTRACT || f.func == OP_MULTIPLY || f.func
            == OP_DIVIDE) {
            return Err(QueryExecutionError::UnknownFunction);
        }
        let a = match lhs {
            Value::Number(a) => a,
            _ => {
                return Err(QueryExecutionError::TypeMismatch);
            }
        };
        let b = match rhs {
            Value::Number(b) => b,
            _ => {
                return Err(QueryExecutionError::TypeMismatch);
            }
        };
        let computed: Option<i64> = if f.func == OP_ADD {
            a.checked_add(b)
        } else if f.func == OP_SUBTRACT {
            a.checked_sub(b)
        } else if f.func == OP_MULTIPLY {
            a.checked_mul(b)
        } else {
            if b == 0 {
                return Err(QueryExecutionError::DivisionByZero);
            }
            a.checked_div(b)
        };
        match computed {
            Some(n) => Ok(Value::Number(n)),
            None => Err(QueryExecutionError::Overflow),
        }
    }
}

} // verus!
