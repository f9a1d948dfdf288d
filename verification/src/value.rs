//! The numeric type tags and the tagged result value of an evaluation.
//!
//! The expression language works with three 32-bit numeric kinds. A `Type` is
//! a compile-time tag only: at run time every operand lives on the word stack
//! as an untagged 32-bit word, and the tag is recovered from the opcode that
//! produced or consumes it. Floating-point operands are carried as the 32-bit
//! IEEE-754 bit pattern of the value.

use vstd::prelude::*;

verus! {

/// The three numeric kinds of the expression language. Purely a compile-time
/// tag; never present at run time.
#[derive(Clone, Copy, Debug, PartialEq, Eq, Structural)]
pub enum Type {
    /// 32-bit signed two's-complement integer.
    I32,
    /// 32-bit IEEE-754 floating-point number.
    F32,
    /// 32-bit unsigned integer.
    U32,
}

/// The tagged result of executing a program: the final stack word, tagged
/// with the type the exit instruction assigned to it.
///
/// `Float32` holds the IEEE-754 bit pattern of the 32-bit floating-point
/// result, exactly as the word sat on the stack.
#[derive(Clone, Copy, Debug, PartialEq, Eq, Structural)]
pub enum Value {
    SignedInt32(i32),
    UnsignedInt32(u32),
    Float32(u32),
}

} // verus!
