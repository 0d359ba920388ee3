use crate::types::ValueType;
use vstd::prelude::*;

verus! {

/// A runtime value: a tagged 32-bit or 64-bit integer, copied by value on
/// every operand-stack push and pop.
#[derive(Debug, Clone, Copy, PartialEq, Eq, Structural)]
pub enum Value {
    I32(i32),
    I64(i64),
}

/// Addition of two 32-bit values modulo 2^32: the numeric domain's defined
/// overflow behavior, not a trap.
pub open spec fn wrap_add32(a: i32, b: i32) -> i32 {
    if a + b > i32::MAX {
        (a + b - 0x1_0000_0000) as i32
    } else if a + b < i32::MIN {
        (a + b + 0x1_0000_0000) as i32
    } else {
        (a + b) as i32
    }
}

/// The zero value of a declared local's type: every local starts at zero.
pub open spec fn zero_value(t: ValueType) -> Value {
    match t {
        ValueType::I32 => Value::I32(0),
        ValueType::I64 => Value::I64(0),
    }
}

} // verus!
