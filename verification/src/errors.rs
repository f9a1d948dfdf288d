//! The error taxonomy of the expression pipeline.
//!
//! Every failure is reported as a `Result` value; no function of this library
//! panics on any input its contract admits.

use vstd::prelude::*;

verus! {

/// An error raised while turning source text into a program: the lexical
/// errors come from the tokenizer, the rest from the parser and type checker.
#[derive(Clone, Copy, Debug, PartialEq, Eq, Structural)]
pub enum CompileError {
    /// A `_` was not followed by one of the cast suffix letters `i`, `f`, `u`.
    InvalidCastSuffix,
    /// A float literal could not be read as a 32-bit IEEE-754 number.
    InvalidFloatLiteral,
    /// An integer literal does not fit in 32 bits.
    InvalidIntLiteral,
    /// A character that starts no token.
    InvalidCharacter,
    /// A token in primary position that is none of literal, `(`, `+`, `-`.
    ExpectedValue,
    /// An opening `(` without its matching `)`.
    ExpectedCloseParen,
    /// Tokens left over after a complete expression.
    ExpectedEndOfInput,
    /// A binary operator applied to two operands of different types.
    TypeMismatch,
}

/// An error raised while executing a compiled program.
#[derive(Clone, Copy, Debug, PartialEq, Eq, Structural)]
pub enum RuntimeError {
    /// A division instruction met a zero divisor.
    DivisionByZero,
}

/// Any error an `evaluate` call can return.
#[derive(Clone, Copy, Debug, PartialEq, Eq, Structural)]
pub enum Error {
    Compile(CompileError),
    Runtime(RuntimeError),
}

} // verus!
