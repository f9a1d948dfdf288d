//! The bytecode validator and the instructions the current grammar never
//! emits: the no-op, the comparisons, and the edge cases of division.
//!
//! Word encoding used below: 2 no-op, 3 literal push (the next word is its
//! immediate), 4/5/6 float/signed/unsigned exit, 12/13 float less-than and
//! equality, 20/21 signed and unsigned division, 22/23 word less-than and
//! equality.

use wordcalc::{execute, ByteCode, RuntimeError, Value};

fn run(words: Vec<u32>) -> Result<Value, RuntimeError> {
    execute(ByteCode::from_words(words).expect("the program must pass validation"))
}

fn rejected(words: Vec<u32>) {
    assert!(ByteCode::from_words(words).is_none());
}

#[test]
fn nop_is_honored() {
    assert_eq!(run(vec![2, 3, 7, 5]), Ok(Value::SignedInt32(7)));
}

#[test]
fn word_less_than_is_unsigned() {
    assert_eq!(run(vec![3, 5, 3, 3, 22, 6]), Ok(Value::UnsignedInt32(0)));
    assert_eq!(run(vec![3, 3, 3, 5, 22, 6]), Ok(Value::UnsignedInt32(1)));
    // The word carrying -1 compares as the largest unsigned word.
    assert_eq!(
        run(vec![3, (-1i32) as u32, 3, 1, 22, 6]),
        Ok(Value::UnsignedInt32(0))
    );
}

#[test]
fn comparisons_never_reject_zero() {
    // A zero right operand is an error for division alone, never for a
    // comparison.
    assert_eq!(run(vec![3, 5, 3, 0, 22, 6]), Ok(Value::UnsignedInt32(0)));
    assert_eq!(run(vec![3, 0, 3, 0, 23, 6]), Ok(Value::UnsignedInt32(1)));
    assert_eq!(
        run(vec![3, 5, 3, 0, 21, 6]),
        Err(RuntimeError::DivisionByZero)
    );
    assert_eq!(
        run(vec![3, 5, 3, 0, 20, 6]),
        Err(RuntimeError::DivisionByZero)
    );
}

#[test]
fn word_equality() {
    assert_eq!(run(vec![3, 7, 3, 7, 23, 6]), Ok(Value::UnsignedInt32(1)));
    assert_eq!(run(vec![3, 7, 3, 8, 23, 6]), Ok(Value::UnsignedInt32(0)));
}

#[test]
fn float_comparisons_follow_ieee() {
    let zero = (0.0f32).to_bits();
    let negzero = (-0.0f32).to_bits();
    let nan = f32::NAN.to_bits();
    let one = (1.0f32).to_bits();
    // The two zeroes are equal; NaN equals nothing, not even itself.
    assert_eq!(run(vec![3, zero, 3, negzero, 13, 6]), Ok(Value::UnsignedInt32(1)));
    assert_eq!(run(vec![3, nan, 3, nan, 13, 6]), Ok(Value::UnsignedInt32(0)));
    // NaN is unordered.
    assert_eq!(run(vec![3, nan, 3, one, 12, 6]), Ok(Value::UnsignedInt32(0)));
    assert_eq!(run(vec![3, negzero, 3, zero, 12, 6]), Ok(Value::UnsignedInt32(0)));
    assert_eq!(run(vec![3, zero, 3, one, 12, 6]), Ok(Value::UnsignedInt32(1)));
}

#[test]
fn signed_division_wraps_on_overflow() {
    // The smallest signed integer divided by minus one wraps back to itself.
    assert_eq!(
        run(vec![3, i32::MIN as u32, 3, (-1i32) as u32, 20, 5]),
        Ok(Value::SignedInt32(i32::MIN))
    );
}

#[test]
fn exit_tags_the_result() {
    let pi = (3.25f32).to_bits();
    assert_eq!(run(vec![3, pi, 4]), Ok(Value::Float32(pi)));
    assert_eq!(run(vec![3, 7, 5]), Ok(Value::SignedInt32(7)));
    assert_eq!(run(vec![3, 7, 6]), Ok(Value::UnsignedInt32(7)));
}

#[test]
fn validation_rejects_unsafe_programs() {
    // Nothing to run.
    rejected(vec![]);
    // A literal push without its immediate word.
    rejected(vec![3]);
    // An exit with nothing on the stack.
    rejected(vec![5]);
    // A binary instruction with one operand.
    rejected(vec![3, 1, 17, 5]);
    // The reserved control code points decode to no instruction.
    rejected(vec![0]);
    rejected(vec![3, 9, 0, 5]);
    rejected(vec![3, 9, 1, 5]);
    // No exit at the end.
    rejected(vec![3, 1, 2]);
    // An exit before the end.
    rejected(vec![3, 1, 5, 2]);
    // A word that encodes no instruction.
    rejected(vec![3, 1, 99, 5]);
}

#[test]
fn validation_accepts_compiler_shapes() {
    assert!(ByteCode::from_words(vec![3, 1, 3, 2, 17, 5]).is_some());
    assert!(ByteCode::from_words(vec![2, 2, 3, 1, 16, 5]).is_some());
}

#[test]
fn disassembly_lists_instructions() {
    let bc = wordcalc::compile("1 + 10").unwrap();
    assert_eq!(bc.disassemble(), "Const32 1\nConst32 a\nI32Add\nExitI32\n");
    let bc2 = wordcalc::compile("2.0_i").unwrap();
    assert_eq!(
        bc2.disassemble(),
        format!("Const32 {:x}\nF32CastI32S\nExitI32\n", (2.0f32).to_bits())
    );
}
