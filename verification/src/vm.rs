//! The virtual machine: executes a bytecode program on a stack of untagged
//! 32-bit words.
//!
//! The machine holds a program counter and a growable word stack. It carries
//! no type tags at run time: the meaning of each stack word is recovered from
//! the instruction that consumes it, and the result is tagged only by the
//! exit instruction that ends the run. The safety invariant `wf` — every
//! instruction finds its operands, the counter stays inside the program, the
//! run ends at the single exit instruction — is established by the compiler
//! and required here; on a safe program the machine can neither fault nor
//! run forever.
//!
//! `spec_execute` states the result of every step exactly. Integer
//! arithmetic wraps around; the two integer divisions reject a zero divisor
//! with `DivisionByZero`; comparisons push the word 0 or 1 and never
//! special-case any operand.

use vstd::prelude::*;
use vstd::pervasive::unreached;
use crate::bytecode::{op_of_word, wf, wf_from, ByteCode, Operation};
use crate::bytecode::decode_op;
use crate::errors::RuntimeError;
use crate::float_words::{
    add_f32_words, div_f32_words, eq_f32_words, f32_add_bits, f32_div_bits, f32_eq_bits,
    f32_lt_bits, f32_mul_bits, f32_of_i32_bits, f32_of_u32_bits, f32_sub_bits, f32_to_i32_words,
    f32_to_u32_words, i32_of_f32_bits, i32_to_f32_words, lt_f32_words, mul_f32_words,
    sub_f32_words, u32_of_f32_bits, u32_to_f32_words,
};
use crate::value::Value;

verus! {

/// Two's-complement negation of a word.
pub open spec fn word_neg(a: u32) -> u32 {
    vstd::wrapping::u32_specs::wrapping_sub(0u32, a)
}

/// Wraparound sum of two words.
pub open spec fn word_add(l: u32, r: u32) -> u32 {
    vstd::wrapping::u32_specs::wrapping_add(l, r)
}

/// Wraparound difference of two words.
pub open spec fn word_sub(l: u32, r: u32) -> u32 {
    vstd::wrapping::u32_specs::wrapping_sub(l, r)
}

/// Wraparound product of two words.
pub open spec fn word_mul(l: u32, r: u32) -> u32 {
    vstd::wrapping::u32_specs::wrapping_mul(l, r)
}

/// The words read as signed integers, divided with truncation toward zero;
/// the one overflowing case (the smallest integer divided by minus one)
/// wraps back to the smallest integer. Meaningful only for a nonzero
/// divisor; the machine rejects a zero divisor before dividing.
pub open spec fn word_div_s(l: u32, r: u32) -> u32 {
    let x = (l as i32) as int;
    let d = (r as i32) as int;
    let q = if x == 0 {
        0int
    } else if x > 0 && d > 0 {
        x / d
    } else if x < 0 && d < 0 {
        (x * -1) / (d * -1)
    } else if x < 0 {
        ((x * -1) / d) * -1
    } else {
        (x / (d * -1)) * -1
    };
    if i32::MIN <= q <= i32::MAX {
        (q as i32) as u32
    } else {
        0x8000_0000u32
    }
}

/// The words read as unsigned integers, divided. Meaningful only for a
/// nonzero divisor.
pub open spec fn word_div_u(l: u32, r: u32) -> u32 {
    if r == 0 {
        0u32
    } else {
        (l as int / r as int) as u32
    }
}

/// Comparison results are pushed as the word 0 or 1.
pub open spec fn word_of_bool(b: bool) -> u32 {
    if b {
        1u32
    } else {
        0u32
    }
}

/// The result of running the program from position `i` with the given
/// stack: the tagged value of the exit instruction, a runtime error, or
/// `None` where the machine would get stuck — the counter outside the
/// program, a word that is no instruction, or a missing operand. On a
/// program satisfying `wf_from` the result is never `None`.
pub open spec fn spec_execute_from(
    code: Seq<u32>,
    i: int,
    stack: Seq<u32>,
) -> Option<Result<Value, RuntimeError>>
    decreases code.len() - i,
{
    if !(0 <= i < code.len()) {
        None
    } else {
        match op_of_word(code[i]) {
            None => None,
            Some(op) => match op {
                Operation::Nop => spec_execute_from(code, i + 1, stack),
                Operation::Const32 => if i + 1 < code.len() {
                    spec_execute_from(code, i + 2, stack.push(code[i + 1]))
                } else {
                    None
                },
                Operation::ExitI32 => if stack.len() >= 1 {
                    Some(Ok(Value::SignedInt32(stack.last() as i32)))
                } else {
                    None
                },
                Operation::ExitU32 => if stack.len() >= 1 {
                    Some(Ok(Value::UnsignedInt32(stack.last())))
                } else {
                    None
                },
                Operation::ExitF32 => if stack.len() >= 1 {
                    Some(Ok(Value::Float32(stack.last())))
                } else {
                    None
                },
                _ => if crate::bytecode::is_unary(op) {
                    if stack.len() >= 1 {
                        spec_execute_from(
                            code,
                            i + 1,
                            stack.drop_last().push(unary_result(op, stack.last())),
                        )
                    } else {
                        None
                    }
                } else {
                    // A binary instruction: the right operand was pushed last.
                    if stack.len() >= 2 {
                        let l = stack[stack.len() - 2];
                        let r = stack.last();
                        if (op == Operation::I32DivS || op == Operation::I32DivU) && r == 0 {
                            Some(Err(RuntimeError::DivisionByZero))
                        } else {
                            spec_execute_from(
                                code,
                                i + 1,
                                stack.drop_last().drop_last().push(binary_result(op, l, r)),
                            )
                        }
                    } else {
                        None
                    }
                },
            },
        }
    }
}

/// The word a unary instruction pushes for the word it popped.
pub open spec fn unary_result(op: Operation, a: u32) -> u32 {
    match op {
        Operation::I32Neg => word_neg(a),
        Operation::F32Neg => f32_word_neg(a),
        Operation::I32CastF32S => f32_of_i32_bits(a as i32),
        Operation::I32CastF32U => f32_of_u32_bits(a),
        Operation::F32CastI32S => i32_of_f32_bits(a) as u32,
        Operation::F32CastI32U => u32_of_f32_bits(a),
        _ => a,
    }
}

/// The word a binary instruction pushes for the two words it popped, the
/// left operand having been pushed first. Not consulted for a zero divisor
/// of the integer divisions, which error out instead.
pub open spec fn binary_result(op: Operation, l: u32, r: u32) -> u32 {
    match op {
        Operation::I32Add => word_add(l, r),
        Operation::I32Sub => word_sub(l, r),
        Operation::I32Mul => word_mul(l, r),
        Operation::I32DivS => word_div_s(l, r),
        Operation::I32DivU => word_div_u(l, r),
        Operation::I32Lt => word_of_bool(l < r),
        Operation::I32Eq => word_of_bool(l == r),
        Operation::F32Add => f32_add_bits(l, r),
        Operation::F32Sub => f32_sub_bits(l, r),
        Operation::F32Mul => f32_mul_bits(l, r),
        Operation::F32Div => f32_div_bits(l, r),
        Operation::F32Lt => word_of_bool(f32_lt_bits(l, r)),
        Operation::F32Eq => word_of_bool(f32_eq_bits(l, r)),
        _ => l,
    }
}

/// IEEE-754 negation flips the sign bit and leaves the rest of the word
/// unchanged, for every operand including zeroes, infinities and `NaN`.
pub open spec fn f32_word_neg(a: u32) -> u32 {
    a ^ 0x8000_0000u32
}

/// The result of running a program on an empty stack.
pub open spec fn spec_execute(code: Seq<u32>) -> Option<Result<Value, RuntimeError>> {
    spec_execute_from(code, 0, Seq::empty())
}

/// On a program satisfying the safety invariant, execution from a stack of
/// the invariant's depth never gets stuck: it reaches an exit or a runtime
/// error.
pub proof fn lemma_wf_executes(code: Seq<u32>, i: int, stack: Seq<u32>)
    requires
        wf_from(code, i, stack.len() as int),
    ensures
        spec_execute_from(code, i, stack) is Some,
    decreases code.len() - i,
{
    match op_of_word(code[i]) {
        None => {},
        Some(op) => {
            if op == Operation::Nop {
                lemma_wf_executes(code, i + 1, stack);
            } else if op == Operation::Const32 {
                lemma_wf_executes(code, i + 2, stack.push(code[i + 1]));
            } else if crate::bytecode::is_unary(op) {
                lemma_wf_executes(code, i + 1, stack.drop_last().push(unary_result(op, stack.last())));
            } else if crate::bytecode::is_binary(op) {
                let l = stack[stack.len() - 2];
                let r = stack.last();
                if !((op == Operation::I32DivS || op == Operation::I32DivU) && r == 0) {
                    lemma_wf_executes(
                        code,
                        i + 1,
                        stack.drop_last().drop_last().push(binary_result(op, l, r)),
                    );
                }
            }
        },
    }
}

/// Signed division on raw words: truncation toward zero, wrapping on the one
/// overflowing case.
fn div_s_words(l: u32, r: u32) -> (res: u32)
    requires
        r != 0,
    ensures
        res == word_div_s(l, r),
{
    let li = l as i32;
    let ri = r as i32;
    proof {
        assert(ri != 0) by (bit_vector)
            requires
                r != 0 && ri == r as i32,
        ;
    }
    match li.checked_div(ri) {
        Some(q) => q as u32,
        None => 0x8000_0000u32,
    }
}

/// Pops the top word; the safety invariant guarantees it is there.
fn pop_word(stack: &mut Vec<u32>) -> (x: u32)
    requires
        old(stack)@.len() >= 1,
    ensures
        x == old(stack)@.last(),
        final(stack)@ == old(stack)@.drop_last(),
{
    let r = match stack.pop() {
        Some(x) => x,
        None => unreached(),
    };
    proof {
        assert(stack@ =~= old(stack)@.drop_last());
    }
    r
}

/// Executes a safe program and returns the value its exit instruction tags,
/// or the runtime error it runs into: exactly what `spec_execute` says of
/// the program's words.
pub fn execute(program: ByteCode) -> (r: Result<Value, RuntimeError>)
    requires
        wf(program@),
    ensures
        spec_execute(program@) == Some(r),
{
    let words = &program.words;
    let n: usize = words.len();
    let mut pc: usize = 0;
    let mut stack: Vec<u32> = Vec::new();
    loop
        invariant
            words@ == program@,
            n == words@.len(),
            pc <= n,
            wf_from(words@, pc as int, stack@.len() as int),
            spec_execute_from(words@, pc as int, stack@) == spec_execute(words@),
        decreases n - pc,
    {
        let ghost stack_before = stack@;
        let ghost pc0 = pc as int;
        let w = words[pc];
        match decode_op(w) {
            None => {
                return unreached();
            },
            Some(op) => match op {
                Operation::Nop => {
                    pc = pc + 1;
                },
                Operation::Const32 => {
                    let imm = words[pc + 1];
                    stack.push(imm);
                    pc = pc + 2;
                },
                Operation::ExitI32 => {
                    let a = pop_word(&mut stack);
                    return Ok(Value::SignedInt32(a as i32));
                },
                Operation::ExitU32 => {
                    let a = pop_word(&mut stack);
                    return Ok(Value::UnsignedInt32(a));
                },
                Operation::ExitF32 => {
                    let a = pop_word(&mut stack);
                    return Ok(Value::Float32(a));
                },
                Operation::I32Neg => {
                    let a = pop_word(&mut stack);
                    stack.push(0u32.wrapping_sub(a));
                    pc = pc + 1;
                },
                Operation::F32Neg => {
                    let a = pop_word(&mut stack);
                    stack.push(a ^ 0x8000_0000u32);
                    pc = pc + 1;
                },
                Operation::I32CastF32S => {
                    let a = pop_word(&mut stack);
                    stack.push(i32_to_f32_words(a as i32));
                    pc = pc + 1;
                },
                Operation::I32CastF32U => {
                    let a = pop_word(&mut stack);
                    stack.push(u32_to_f32_words(a));
                    pc = pc + 1;
                },
                Operation::F32CastI32S => {
                    let a = pop_word(&mut stack);
                    stack.push(f32_to_i32_words(a) as u32);
                    pc = pc + 1;
                },
                Operation::F32CastI32U => {
                    let a = pop_word(&mut stack);
                    stack.push(f32_to_u32_words(a));
                    pc = pc + 1;
                },
                _ => {
                    // A binary instruction: the right operand was pushed last.
                    let r = pop_word(&mut stack);
                    let l = pop_word(&mut stack);
                    let res: u32 = match op {
                        Operation::I32Add => l.wrapping_add(r),
                        Operation::I32Sub => l.wrapping_sub(r),
                        Operation::I32Mul => l.wrapping_mul(r),
                        Operation::I32DivS => {
                            if r == 0 {
                                return Err(RuntimeError::DivisionByZero);
                            }
                            div_s_words(l, r)
                        },
                        Operation::I32DivU => {
                            if r == 0 {
                                return Err(RuntimeError::DivisionByZero);
                            }
                            l / r
                        },
                        Operation::I32Lt => {
                            if l < r {
                                1
                            } else {
                                0
                            }
                        },
                        Operation::I32Eq => {
                            if l == r {
                                1
                            } else {
                                0
                            }
                        },
                        Operation::F32Add => add_f32_words(l, r),
                        Operation::F32Sub => sub_f32_words(l, r),
                        Operation::F32Mul => mul_f32_words(l, r),
                        Operation::F32Div => div_f32_words(l, r),
                        Operation::F32Lt => {
                            if lt_f32_words(l, r) {
                                1
                            } else {
                                0
                            }
                        },
                        Operation::F32Eq => {
                            if eq_f32_words(l, r) {
                                1
                            } else {
                                0
                            }
                        },
                        _ => {
                            return unreached();
                        },
                    };
                    stack.push(res);
                    proof {
                        assert(stack@ =~= stack_before.drop_last().drop_last().push(res));
                        assert(res == binary_result(op, l, r));
                        assert(spec_execute_from(words@, pc0, stack_before)
                            == spec_execute_from(words@, pc0 + 1, stack@));
                    }
                    pc = pc + 1;
                },
            },
        }
    }
}

} // verus!
