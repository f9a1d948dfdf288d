//! Behaviour of `evaluate` and `compile` on whole expressions: results,
//! precedence, casts, the error taxonomy, and determinism.

use wordcalc::{compile, evaluate, CompileError, Error, RuntimeError, Value};

fn eval_ok(s: &str, v: Value) {
    assert_eq!(evaluate(s), Ok(v));
}

fn eval_compile_err(s: &str, e: CompileError) {
    assert_eq!(evaluate(s), Err(Error::Compile(e)));
}

#[test]
fn simple_addition() {
    eval_ok("1 + 2", Value::SignedInt32(3));
}

#[test]
fn precedence() {
    eval_ok("2 + 3 * 4", Value::SignedInt32(14));
    eval_ok("3 * 4 + 2", Value::SignedInt32(14));
    eval_ok("1 + 2 * 3 - 4", Value::SignedInt32(3));
}

#[test]
fn left_associative_at_equal_precedence() {
    eval_ok("4 / 2 / 2", Value::SignedInt32(1));
    eval_ok("10 - 3 - 2", Value::SignedInt32(5));
}

#[test]
fn parentheses_override_precedence() {
    eval_ok("(2 + 3) * 4", Value::SignedInt32(20));
    eval_ok("4 * (2 + 3)", Value::SignedInt32(20));
}

#[test]
fn unary_binds_tighter_than_binary() {
    eval_ok("-2 + 3", Value::SignedInt32(1));
    eval_ok("-2 * 3", Value::SignedInt32(-6));
    eval_ok("+2 + 3", Value::SignedInt32(5));
}

#[test]
fn type_mismatch_rejected() {
    eval_compile_err("1 + 1.0", CompileError::TypeMismatch);
    eval_compile_err("1.0 + 1_u", CompileError::TypeMismatch);
}

#[test]
fn cast_changes_running_type() {
    eval_ok("1_f + 2.0", Value::Float32((3.0f32).to_bits()));
    eval_ok("2.5_i + 1", Value::SignedInt32(3));
    eval_ok("1_u + 2_u", Value::UnsignedInt32(3));
}

#[test]
fn unsigned_wraparound() {
    eval_ok("0_u - 1_u", Value::UnsignedInt32(u32::MAX));
}

#[test]
fn division_by_zero() {
    assert_eq!(
        evaluate("5 / 0"),
        Err(Error::Runtime(RuntimeError::DivisionByZero))
    );
    assert_eq!(
        evaluate("5_u / 0_u"),
        Err(Error::Runtime(RuntimeError::DivisionByZero))
    );
}

#[test]
fn float_division_by_zero_is_infinity() {
    eval_ok("1.0 / 0.0", Value::Float32(f32::INFINITY.to_bits()));
}

#[test]
fn compile_is_deterministic() {
    for s in ["1 + 2", "2 + 3 * 4", "(1.5 - 2.25) * 4.0_f", "-2_f_u + 1_u"] {
        let a = compile(s).unwrap();
        let b = compile(s).unwrap();
        assert_eq!(a.words, b.words);
        assert_eq!(evaluate(s), evaluate(s));
    }
}

#[test]
fn malformed_input() {
    eval_compile_err("(1 + 2", CompileError::ExpectedCloseParen);
    eval_compile_err("1 2", CompileError::ExpectedEndOfInput);
}

#[test]
fn expected_value() {
    eval_compile_err("", CompileError::ExpectedValue);
    eval_compile_err(")", CompileError::ExpectedValue);
    eval_compile_err("*", CompileError::ExpectedValue);
    eval_compile_err("1 + ", CompileError::ExpectedValue);
    eval_compile_err("()", CompileError::ExpectedValue);
    eval_compile_err("foo", CompileError::ExpectedValue);
    eval_compile_err("1 + bar", CompileError::ExpectedValue);
}

#[test]
fn invalid_cast_suffix() {
    eval_compile_err("1_x", CompileError::InvalidCastSuffix);
    eval_compile_err("1_", CompileError::InvalidCastSuffix);
}

#[test]
fn invalid_character() {
    eval_compile_err("1 @ 2", CompileError::InvalidCharacter);
    eval_compile_err("#", CompileError::InvalidCharacter);
    eval_compile_err(".5", CompileError::InvalidCharacter);
}

#[test]
fn integer_literal_bounds() {
    // The digits are read as a 32-bit word; the signed exit reads it back as
    // a signed integer.
    eval_ok("4294967295", Value::SignedInt32(-1));
    eval_compile_err("4294967296", CompileError::InvalidIntLiteral);
}

#[test]
fn float_literals() {
    eval_ok("2.5", Value::Float32((2.5f32).to_bits()));
    eval_ok("1.", Value::Float32((1.0f32).to_bits()));
    eval_ok("0.1 + 0.2", Value::Float32((0.1f32 + 0.2f32).to_bits()));
    eval_ok("1.0 + 2.4", Value::Float32((1.0f32 + 2.4f32).to_bits()));
}

#[test]
fn float_negation() {
    eval_ok("-2.5", Value::Float32((-2.5f32).to_bits()));
    eval_ok("-0.", Value::Float32((-0.0f32).to_bits()));
}

#[test]
fn casts_truncate_toward_zero() {
    eval_ok("2.9_i", Value::SignedInt32(2));
    eval_ok("(0.0 - 2.9)_i", Value::SignedInt32(-2));
    eval_ok("(0.0 - 1.5)_u", Value::UnsignedInt32(0));
}

#[test]
fn casts_from_integers_round_to_nearest() {
    eval_ok("5_f", Value::Float32((5i32 as f32).to_bits()));
    eval_ok("2147483000_f", Value::Float32((2147483000i32 as f32).to_bits()));
    eval_ok("(4294967295_u)_f", Value::Float32((u32::MAX as f32).to_bits()));
}

#[test]
fn casts_stack_through_unary_and_parens() {
    // A cast binds to one primary; a second cast needs a fresh primary, which
    // parentheses or a unary operator provide.
    eval_compile_err("2_u_f", CompileError::ExpectedEndOfInput);
    eval_ok("(2_u)_f", Value::Float32((2.0f32).to_bits()));
    eval_ok("+2_f_u", Value::UnsignedInt32(2));
    eval_ok("-2_f", Value::Float32((-2.0f32).to_bits()));
}

#[test]
fn whitespace_is_skipped() {
    eval_ok(" \t1\t+\r\n2 ", Value::SignedInt32(3));
}

#[test]
fn signed_division_truncates() {
    eval_ok("7 / 2", Value::SignedInt32(3));
    eval_ok("(0 - 7) / 2", Value::SignedInt32(-3));
    eval_ok("7 / (0 - 2)", Value::SignedInt32(-3));
}
