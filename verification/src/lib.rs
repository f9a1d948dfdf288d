//! A typed arithmetic expression compiler and stack-based virtual machine.
//!
//! Source text is tokenized, parsed by a single-pass precedence-climbing
//! parser that emits bytecode directly, and the bytecode is executed by an
//! interpreter over a stack of untagged 32-bit words. Three numeric types are
//! supported — 32-bit signed and unsigned integers and IEEE-754 single
//! floats — with explicit casts and no implicit promotion.
//!
//! `evaluate(source)` is `execute(compile(source))`: text to tokens to
//! bytecode to a tagged result, each stage a pure function of its input with
//! its exact behaviour stated in its contract.

use vstd::prelude::*;

pub mod errors;
pub mod float_words;
pub mod bytecode;
pub mod models;
pub mod parser;
pub mod token;
pub mod value;
pub mod vm;

pub use crate::bytecode::ByteCode;
pub use crate::errors::{CompileError, Error, RuntimeError};
pub use crate::parser::{compile, Parser};
pub use crate::token::{tokenize, Opc, Token};
pub use crate::value::{Type, Value};
pub use crate::vm::execute;

use vstd::string::StringSliceAdditionalSpecFns;
use crate::parser::spec_compile;
use crate::vm::spec_execute;

verus! {

/// The result of evaluating source text: the compiled program's execution
/// result, or the compile error. `None` marks a run on which the machine
/// would get stuck; compiled programs satisfy the safety invariant, so an
/// evaluation never meets that case.
pub open spec fn spec_evaluate(b: Seq<u8>) -> Option<Result<Value, Error>> {
    match spec_compile(b) {
        Err(e) => Some(Err(Error::Compile(e))),
        Ok(code) => match spec_execute(code) {
            None => None,
            Some(Ok(v)) => Some(Ok(v)),
            Some(Err(e)) => Some(Err(Error::Runtime(e))),
        },
    }
}

/// An evaluation always has an answer: every program the compiler accepts
/// satisfies the safety invariant, and on a safe program the machine reaches
/// an exit or a runtime error — it cannot fault and cannot run forever.
pub proof fn lemma_evaluate_total(b: Seq<u8>)
    ensures
        spec_evaluate(b) is Some,
{
    if let Ok(toks) = crate::token::spec_tokenize(b) {
        crate::parser::lemma_parse_wf(toks);
        if let Ok(code) = crate::parser::spec_parse(toks) {
            crate::vm::lemma_wf_executes(code, 0, Seq::empty());
        }
    }
}

/// Compiles and executes an expression, exactly as `spec_evaluate` says on
/// the UTF-8 bytes of the source. Nothing is shared across calls: each call
/// builds its own token sequence, program and stack.
pub fn evaluate(source: &str) -> (r: Result<Value, Error>)
    ensures
        Some(r) == spec_evaluate(source.spec_bytes()),
{
    match compile(source) {
        Err(e) => Err(Error::Compile(e)),
        Ok(program) => match execute(program) {
            Ok(v) => Ok(v),
            Err(e) => Err(Error::Runtime(e)),
        },
    }
}

} // verus!

