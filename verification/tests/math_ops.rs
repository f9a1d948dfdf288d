//! Arithmetic through the full pipeline: tokenize, parse, execute.

use wordcalc::{execute, tokenize, Parser, Value};

fn tst_i32(s: &str, e: i32) {
    let toks = tokenize(s).unwrap();
    let ops = Parser::new(toks).parse().unwrap();
    let r = execute(ops).unwrap();
    assert_eq!(r, Value::SignedInt32(e));
}

fn tst_u32(s: &str, e: u32) {
    let toks = tokenize(s).unwrap();
    let ops = Parser::new(toks).parse().unwrap();
    let r = execute(ops).unwrap();
    assert_eq!(r, Value::UnsignedInt32(e));
}

fn tst_f32(s: &str, e: f32) {
    let toks = tokenize(s).unwrap();
    let ops = Parser::new(toks).parse().unwrap();
    let r = execute(ops).unwrap();
    assert_eq!(r, Value::Float32(e.to_bits()));
}

#[test]
fn add() {
    tst_u32("1_u + 2_u", 3);
    tst_u32(&format!("{}_u + 1_u", u32::MAX), 0);
    tst_i32("1 + 2", 3);
    tst_i32(&format!("{}", i32::MAX), i32::MAX);
    tst_f32("1.0 + 2.4", 3.4);
}

#[test]
fn math_add() {
    tst_u32("1_u + 2_u", 3);
    tst_u32(&format!("{}_u + 1_u", u32::MAX), 0);
    tst_i32("1 + 2", 3);
    tst_i32(&format!("{}", i32::MAX), i32::MAX);
    tst_f32("1.0 + 2.4", 3.4);
}

#[test]
fn sub() {
    tst_u32("2_u - 1_u", 1);
    tst_u32("0_u - 1_u", u32::MAX);
    tst_i32("1 - 2", -1);
    tst_i32(&format!("{} - 1", i32::MIN), i32::MAX);
    tst_f32("1. - 2.0", -1.);
}

#[test]
fn math_sub() {
    tst_u32("2_u - 1_u", 1);
    tst_u32("0_u - 1_u", u32::MAX);
    tst_i32("1 - 2", -1);
    tst_i32(&format!("{} - 1", i32::MIN), i32::MAX);
    tst_f32("1. - 2.0", -1.);
}

#[test]
fn mul() {
    tst_u32("2_u * 3_u", 6);
    tst_i32("2 * 3", 6);
    tst_f32("2.0 * 0.5", 1.);
}

#[test]
fn math_mul() {
    tst_u32("2_u * 3_u", 6);
    tst_i32("2 * 3", 6);
    tst_f32("2.0 * 0.5", 1.);
}

#[test]
fn div() {
    tst_u32("6_u / 2_u", 3);
    tst_i32("6 / 3", 2);
    tst_f32("6.0 / 0.5", 12.);
    tst_i32("2 * 10 / 3", 2 * 10 / 3);
    tst_i32("4 / 2 / 2", 4 / 2 / 2);
}

#[test]
fn math_div() {
    tst_u32("6_u / 2_u", 3);
    tst_i32("6 / 3", 2);
    tst_f32("6.0 / 0.5", 12.);
    tst_i32("2 * 10 / 3", 2 * 10 / 3);
    tst_i32("4 / 2 / 2", 4 / 2 / 2);
}

#[test]
fn chain() {
    tst_i32("1 + 2 + 3", 6);
}

#[test]
fn mulsum() {
    tst_i32("2 + 3 * 4", 2 + 3 * 4);
    tst_i32("3 * 4 + 2", 3 * 4 + 2);
}

#[test]
fn paren() {
    tst_i32("(2 + 3) * 4", (2 + 3) * 4);
    tst_i32("4 * (2 + 3)", 4 * (2 + 3));
}
