//! The compiler: a single-pass precedence-climbing parser that emits
//! bytecode directly, with no intermediate syntax tree.
//!
//! Grammar:
//! ```text
//! expression  := primary (binary-tail)*
//! primary     := literal cast?
//!              | '(' expression ')' cast?
//!              | ('+' | '-') primary cast?
//! literal     := int-literal | float-literal
//! cast        := '_i' | '_f' | '_u'
//! ```
//!
//! A `primary` is parsed as the left operand; while the next token is an
//! operator of at least the caller's minimum precedence, the operator is
//! consumed, the right-hand `primary` is parsed, and any operators of
//! strictly higher precedence are first absorbed into the right-hand side by
//! a recursive call with a raised minimum. Both operands of a binary
//! operator must share one type — there is no implicit promotion — and the
//! operator's opcode is selected by that type. A leading `+` or `-` binds to
//! the immediately following primary only; `-` emits the type's negate
//! instruction, `+` emits nothing. A cast token immediately after a primary
//! rewrites that primary's static type and emits the one conversion
//! instruction of the (source, target) pair, or nothing where the words are
//! bit-identical.
//!
//! `spec_primary`, `spec_expression` and `spec_parse` state the emitted code
//! exactly; `lemma_parse_wf` shows that every program the compiler emits
//! satisfies the safety invariant `wf` the virtual machine requires.

use vstd::prelude::*;
use vstd::string::StringSliceAdditionalSpecFns;
use crate::bytecode::{
    lemma_op_word_roundtrip, lemma_seg_concat, lemma_wf_of_seg, op_word, seg_from, wf,
    ByteCode, Operation,
};
use crate::bytecode::encode_op;
use crate::errors::CompileError;
use crate::token::{spec_tokenize, tokenize, Opc, Token};
use crate::value::Type;

verus! {

/// The token at position `i`, or `Eof` past the end.
pub open spec fn spec_peek(toks: Seq<Token>, i: int) -> Token {
    if 0 <= i < toks.len() {
        toks[i]
    } else {
        Token::Eof
    }
}

/// The exit instruction matching the final type of the expression.
impl Type {
    pub open spec fn exit_spec(self) -> Operation {
        match self {
            Type::I32 => Operation::ExitI32,
            Type::U32 => Operation::ExitU32,
            Type::F32 => Operation::ExitF32,
        }
    }

    pub fn exit(&self) -> (op: Operation)
        ensures
            op == self.exit_spec(),
    {
        match self {
            Type::I32 => Operation::ExitI32,
            Type::U32 => Operation::ExitU32,
            Type::F32 => Operation::ExitF32,
        }
    }
}

/// The words a cast from `t` to `target` emits: one conversion instruction,
/// or none where the cast is elided.
pub open spec fn cast_words(t: Type, target: Type) -> Seq<u32> {
    match t.cast_spec(target) {
        Some(op) => seq![op_word(op)],
        None => Seq::empty(),
    }
}

/// A completed primary of type `t` at position `j`, with `emitted` words so
/// far, absorbs one cast token if one follows.
pub open spec fn spec_cast_tail(toks: Seq<Token>, j: int, t: Type, emitted: Seq<u32>) -> (
    Type,
    int,
    Seq<u32>,
) {
    match spec_peek(toks, j) {
        Token::Cast(target) => (target, j + 1, emitted + cast_words(t, target)),
        _ => (t, j, emitted),
    }
}

/// The primary starting at position `i`: its type, the position after it,
/// and the words it emits.
///
/// A sub-parse always advances and stays inside the token sequence
/// (`lemma_primary_advances`), so the position checks guarding the recursive
/// calls never fail; they keep the recursion visibly well-founded.
pub open spec fn spec_primary(toks: Seq<Token>, i: int) -> Result<
    (Type, int, Seq<u32>),
    CompileError,
>
    decreases toks.len() - i, 1int,
{
    match spec_peek(toks, i) {
        Token::LParen => match spec_primary(toks, i + 1) {
            Err(e) => Err(e),
            Ok((p, j, c1)) => if i < j <= toks.len() {
                match spec_expression(toks, j, p, 0) {
                    Err(e) => Err(e),
                    Ok((t, k, c2)) => if spec_peek(toks, k) == Token::RParen {
                        Ok(spec_cast_tail(toks, k + 1, t, c1 + c2))
                    } else {
                        Err(CompileError::ExpectedCloseParen)
                    },
                }
            } else {
                Err(CompileError::ExpectedValue)
            },
        },
        Token::Operator(Opc::Minus) => match spec_primary(toks, i + 1) {
            Err(e) => Err(e),
            Ok((p, j, c)) => Ok(spec_cast_tail(toks, j, p, c + seq![op_word(p.neg_spec())])),
        },
        Token::Operator(Opc::Plus) => match spec_primary(toks, i + 1) {
            Err(e) => Err(e),
            Ok((p, j, c)) => Ok(spec_cast_tail(toks, j, p, c)),
        },
        Token::I32(w) => Ok(
            spec_cast_tail(toks, i + 1, Type::I32, seq![op_word(Operation::Const32), w]),
        ),
        Token::F32(w) => Ok(
            spec_cast_tail(toks, i + 1, Type::F32, seq![op_word(Operation::Const32), w]),
        ),
        _ => Err(CompileError::ExpectedValue),
    }
}

/// The binary tail starting at position `i`, combining operators of at least
/// `min_pred` with the left operand of type `lhs` already parsed (and its
/// code already emitted): the resulting type, the position after the tail,
/// and the words the tail emits.
pub open spec fn spec_expression(toks: Seq<Token>, i: int, lhs: Type, min_pred: int) -> Result<
    (Type, int, Seq<u32>),
    CompileError,
>
    decreases toks.len() - i, 0int,
{
    match spec_peek(toks, i) {
        Token::Operator(op) => if op.pred_spec() >= min_pred {
            match spec_primary(toks, i + 1) {
                Err(e) => Err(e),
                Ok((rhs0, j, c1)) => if i < j <= toks.len() {
                    // Absorb operators binding tighter than `op` into the
                    // right-hand side.
                    match spec_expression(toks, j, rhs0, op.pred_spec() + 1) {
                        Err(e) => Err(e),
                        Ok((rhs, k, c2)) => if rhs != lhs {
                            Err(CompileError::TypeMismatch)
                        } else if i < k <= toks.len() {
                            match spec_expression(toks, k, lhs, min_pred) {
                                Err(e) => Err(e),
                                Ok((ft, m, c3)) => Ok(
                                    (
                                        ft,
                                        m,
                                        c1 + c2 + seq![op_word(op.code_spec(lhs))] + c3,
                                    ),
                                ),
                            }
                        } else {
                            Err(CompileError::TypeMismatch)
                        },
                    }
                } else {
                    Err(CompileError::ExpectedValue)
                },
            }
        } else {
            Ok((lhs, i, Seq::empty()))
        },
        _ => Ok((lhs, i, Seq::empty())),
    }
}

/// The whole program for a token sequence: one expression, the matching exit
/// instruction appended, and nothing left over.
pub open spec fn spec_parse(toks: Seq<Token>) -> Result<Seq<u32>, CompileError> {
    match spec_primary(toks, 0) {
        Err(e) => Err(e),
        Ok((p, i, c1)) => match spec_expression(toks, i, p, 0) {
            Err(e) => Err(e),
            Ok((t, j, c2)) => if spec_peek(toks, j) == Token::Eof {
                Ok(c1 + c2 + seq![op_word(t.exit_spec())])
            } else {
                Err(CompileError::ExpectedEndOfInput)
            },
        },
    }
}

/// The program (or the error) for source text: tokenize, then parse.
pub open spec fn spec_compile(b: Seq<u8>) -> Result<Seq<u32>, CompileError> {
    match spec_tokenize(b) {
        Err(e) => Err(e),
        Ok(toks) => spec_parse(toks),
    }
}

/// A successful primary consumes at least one token and stays inside the
/// sequence.
pub proof fn lemma_primary_advances(toks: Seq<Token>, i: int)
    ensures
        spec_primary(toks, i) matches Ok((t, j, c)) ==> i < j <= toks.len(),
    decreases toks.len() - i, 1int,
{
    match spec_peek(toks, i) {
        Token::LParen => {
            lemma_primary_advances(toks, i + 1);
            if let Ok((p, j, c1)) = spec_primary(toks, i + 1) {
                if i < j <= toks.len() {
                    lemma_expression_advances(toks, j, p, 0);
                }
            }
        },
        Token::Operator(Opc::Minus) => {
            lemma_primary_advances(toks, i + 1);
        },
        Token::Operator(Opc::Plus) => {
            lemma_primary_advances(toks, i + 1);
        },
        _ => {},
    }
}

/// A successful binary tail never moves backward, and moves only inside the
/// sequence (an empty tail at a position past the end stays there).
pub proof fn lemma_expression_advances(toks: Seq<Token>, i: int, lhs: Type, min_pred: int)
    ensures
        spec_expression(toks, i, lhs, min_pred) matches Ok((t, j, c)) ==> i <= j && (j == i || j
            <= toks.len()),
    decreases toks.len() - i, 0int,
{
    match spec_peek(toks, i) {
        Token::Operator(op) => {
            if op.pred_spec() >= min_pred {
                lemma_primary_advances(toks, i + 1);
                if let Ok((rhs0, j, c1)) = spec_primary(toks, i + 1) {
                    if i < j <= toks.len() {
                        lemma_expression_advances(toks, j, rhs0, op.pred_spec() + 1);
                        if let Ok((rhs, k, c2)) = spec_expression(
                            toks,
                            j,
                            rhs0,
                            op.pred_spec() + 1,
                        ) {
                            if rhs == lhs && i < k <= toks.len() {
                                lemma_expression_advances(toks, k, lhs, min_pred);
                            }
                        }
                    }
                }
            }
        },
        _ => {},
    }
}

/// The code a primary emits pushes exactly one word onto the stack: run from
/// any depth, it is safe and ends one word deeper.
pub proof fn lemma_primary_seg(toks: Seq<Token>, i: int, d: int)
    requires
        d >= 0,
    ensures
        spec_primary(toks, i) matches Ok((t, j, c)) ==> seg_from(c, 0, d) == Some(d + 1),
    decreases toks.len() - i, 1int,
{
    match spec_peek(toks, i) {
        Token::LParen => {
            lemma_primary_advances(toks, i + 1);
            lemma_primary_seg(toks, i + 1, d);
            if let Ok((p, j, c1)) = spec_primary(toks, i + 1) {
                if i < j <= toks.len() {
                    lemma_expression_seg(toks, j, p, 0, d + 1);
                    if let Ok((t, k, c2)) = spec_expression(toks, j, p, 0) {
                        if spec_peek(toks, k) == Token::RParen {
                            lemma_seg_concat(c1, c2, 0, d, d + 1);
                            lemma_cast_tail_seg(toks, k + 1, t, c1 + c2, d);
                        }
                    }
                }
            }
        },
        Token::Operator(Opc::Minus) => {
            lemma_primary_seg(toks, i + 1, d);
            if let Ok((p, j, c)) = spec_primary(toks, i + 1) {
                let neg = seq![op_word(p.neg_spec())];
                lemma_seg_concat(c, neg, 0, d, d + 1);
                lemma_op_word_roundtrip(p.neg_spec());
                assert(seg_from(neg, 1, d + 1) == Some(d + 1));
                assert(seg_from(neg, 0, d + 1) == Some(d + 1));
                lemma_cast_tail_seg(toks, j, p, c + neg, d);
            }
        },
        Token::Operator(Opc::Plus) => {
            lemma_primary_seg(toks, i + 1, d);
            if let Ok((p, j, c)) = spec_primary(toks, i + 1) {
                lemma_cast_tail_seg(toks, j, p, c, d);
            }
        },
        Token::I32(w) => {
            let c = seq![op_word(Operation::Const32), w];
            lemma_op_word_roundtrip(Operation::Const32);
            assert(seg_from(c, 2, d + 1) == Some(d + 1));
            assert(seg_from(c, 0, d) == Some(d + 1));
            lemma_cast_tail_seg(toks, i + 1, Type::I32, c, d);
        },
        Token::F32(w) => {
            let c = seq![op_word(Operation::Const32), w];
            lemma_op_word_roundtrip(Operation::Const32);
            assert(seg_from(c, 2, d + 1) == Some(d + 1));
            assert(seg_from(c, 0, d) == Some(d + 1));
            lemma_cast_tail_seg(toks, i + 1, Type::F32, c, d);
        },
        _ => {},
    }
}

/// The cast tail keeps the one-word effect of the primary it follows.
proof fn lemma_cast_tail_seg(toks: Seq<Token>, j: int, t: Type, emitted: Seq<u32>, d: int)
    requires
        d >= 0,
        seg_from(emitted, 0, d) == Some(d + 1),
    ensures
        seg_from(spec_cast_tail(toks, j, t, emitted).2, 0, d) == Some(d + 1),
{
    match spec_peek(toks, j) {
        Token::Cast(target) => {
            match t.cast_spec(target) {
                Some(op) => {
                    let cw = seq![op_word(op)];
                    lemma_seg_concat(emitted, cw, 0, d, d + 1);
                    lemma_op_word_roundtrip(op);
                    assert(seg_from(cw, 1, d + 1) == Some(d + 1));
                    assert(seg_from(cw, 0, d + 1) == Some(d + 1));
                },
                None => {
                    assert(emitted + Seq::<u32>::empty() =~= emitted);
                },
            }
        },
        _ => {},
    }
}

/// The code a binary tail emits combines words already on the stack: run
/// from any positive depth, it is safe and preserves that depth.
pub proof fn lemma_expression_seg(toks: Seq<Token>, i: int, lhs: Type, min_pred: int, d: int)
    requires
        d >= 1,
    ensures
        spec_expression(toks, i, lhs, min_pred) matches Ok((t, j, c)) ==> seg_from(c, 0, d)
            == Some(d),
    decreases toks.len() - i, 0int,
{
    match spec_peek(toks, i) {
        Token::Operator(op) => {
            if op.pred_spec() >= min_pred {
                lemma_primary_advances(toks, i + 1);
                lemma_primary_seg(toks, i + 1, d);
                if let Ok((rhs0, j, c1)) = spec_primary(toks, i + 1) {
                    if i < j <= toks.len() {
                        lemma_expression_advances(toks, j, rhs0, op.pred_spec() + 1);
                        lemma_expression_seg(toks, j, rhs0, op.pred_spec() + 1, d + 1);
                        if let Ok((rhs, k, c2)) = spec_expression(
                            toks,
                            j,
                            rhs0,
                            op.pred_spec() + 1,
                        ) {
                            if rhs == lhs && i < k <= toks.len() {
                                lemma_expression_seg(toks, k, lhs, min_pred, d);
                                if let Ok((ft, m, c3)) = spec_expression(toks, k, lhs, min_pred) {
                                    let w = seq![op_word(op.code_spec(lhs))];
                                    lemma_seg_concat(c1, c2, 0, d, d + 1);
                                    lemma_op_word_roundtrip(op.code_spec(lhs));
                                    assert(seg_from(w, 1, d) == Some(d));
                                    assert(seg_from(w, 0, d + 1) == Some(d));
                                    lemma_seg_concat(c1 + c2, w, 0, d, d + 1);
                                    lemma_seg_concat(c1 + c2 + w, c3, 0, d, d);
                                }
                            }
                        }
                    }
                }
            }
        },
        _ => {},
    }
}

/// Every program the parser accepts satisfies the safety invariant the
/// virtual machine requires.
pub proof fn lemma_parse_wf(toks: Seq<Token>)
    ensures
        spec_parse(toks) matches Ok(code) ==> wf(code),
{
    lemma_primary_seg(toks, 0, 0);
    if let Ok((p, i, c1)) = spec_primary(toks, 0) {
        lemma_expression_seg(toks, i, p, 0, 1);
        if let Ok((t, j, c2)) = spec_expression(toks, i, p, 0) {
            if spec_peek(toks, j) == Token::Eof {
                lemma_seg_concat(c1, c2, 0, 0, 1);
                let w = op_word(t.exit_spec());
                lemma_op_word_roundtrip(t.exit_spec());
                lemma_wf_of_seg(c1 + c2, w, 0, 0, 1);
                assert((c1 + c2).push(w) =~= c1 + c2 + seq![w]);
            }
        }
    }
}

/// Compilation is a function of the source text alone: any two results that
/// `compile`'s contract ties to the same source are byte-identical.
pub proof fn lemma_compile_deterministic(
    b: Seq<u8>,
    r1: Result<Seq<u32>, CompileError>,
    r2: Result<Seq<u32>, CompileError>,
)
    requires
        r1 == spec_compile(b),
        r2 == spec_compile(b),
    ensures
        r1 == r2,
{
}

/// The single-pass parser and code generator. It owns the token sequence,
/// a cursor into it, and the bytecode emitted so far.
pub struct Parser {
    tokens: Vec<Token>,
    index: usize,
    output: Vec<u32>,
}

impl Parser {
    /// The tokens being parsed.
    pub closed spec fn toks(self) -> Seq<Token> {
        self.tokens@
    }

    /// The cursor.
    pub closed spec fn pos(self) -> int {
        self.index as int
    }

    /// The words emitted so far.
    pub closed spec fn out(self) -> Seq<u32> {
        self.output@
    }

    /// The cursor never leaves the token sequence.
    pub closed spec fn wf(self) -> bool {
        self.index <= self.tokens@.len()
    }

    /// A parser as `new` returns it: at the first token, nothing emitted.
    pub open spec fn fresh(self) -> bool {
        self.wf() && self.pos() == 0 && self.out() == Seq::<u32>::empty()
    }

    pub fn new(toks: Vec<Token>) -> (p: Parser)
        ensures
            p.fresh(),
            p.toks() == toks@,
    {
        Parser { tokens: toks, index: 0, output: Vec::new() }
    }

    /// The token at the cursor, `Eof` past the end.
    fn peek(&self) -> (t: Token)
        requires
            self.wf(),
        ensures
            t == spec_peek(self.toks(), self.pos()),
    {
        if self.index < self.tokens.len() {
            self.tokens[self.index]
        } else {
            Token::Eof
        }
    }

    /// Advances past the token at the cursor, if any.
    fn eat(&mut self)
        requires
            old(self).wf(),
        ensures
            final(self).wf(),
            final(self).toks() == old(self).toks(),
            final(self).out() == old(self).out(),
            final(self).pos() == if old(self).pos() < old(self).toks().len() {
                old(self).pos() + 1
            } else {
                old(self).pos()
            },
    {
        if self.index < self.tokens.len() {
            self.index = self.index + 1;
        }
    }

    /// The token at the cursor, consumed.
    fn next(&mut self) -> (t: Token)
        requires
            old(self).wf(),
        ensures
            final(self).wf(),
            final(self).toks() == old(self).toks(),
            final(self).out() == old(self).out(),
            t == spec_peek(old(self).toks(), old(self).pos()),
            final(self).pos() == if old(self).pos() < old(self).toks().len() {
                old(self).pos() + 1
            } else {
                old(self).pos()
            },
    {
        let t = self.peek();
        self.eat();
        t
    }

    /// Emits one instruction word.
    fn emit(&mut self, op: Operation)
        ensures
            final(self).toks() == old(self).toks(),
            final(self).pos() == old(self).pos(),
            final(self).wf() == old(self).wf(),
            final(self).out() == old(self).out() + seq![op_word(op)],
    {
        let w = encode_op(op);
        self.output.push(w);
        proof {
            assert(self.out() =~= old(self).out() + seq![op_word(op)]);
        }
    }

    /// Emits one raw data word (the immediate of a literal push).
    fn emit_word(&mut self, w: u32)
        ensures
            final(self).toks() == old(self).toks(),
            final(self).pos() == old(self).pos(),
            final(self).wf() == old(self).wf(),
            final(self).out() == old(self).out() + seq![w],
    {
        self.output.push(w);
        proof {
            assert(self.out() =~= old(self).out() + seq![w]);
        }
    }

    /// Parses one primary and emits its code, as `spec_primary` says.
    #[verifier::rlimit(100)]
    fn primary(&mut self) -> (r: Result<Type, CompileError>)
        requires
            old(self).wf(),
        ensures
            final(self).wf(),
            final(self).toks() == old(self).toks(),
            match r {
                Ok(t) => spec_primary(old(self).toks(), old(self).pos()) matches Ok((t2, j, c))
                    && t2 == t && final(self).pos() == j && final(self).out() == old(self).out()
                    + c,
                Err(e) => spec_primary(old(self).toks(), old(self).pos()) == Err::<
                    (Type, int, Seq<u32>),
                    CompileError,
                >(e),
            },
        decreases old(self).toks().len() - old(self).pos(), 1int,
    {
        let ghost toks = self.toks();
        let ghost i = self.pos();
        let t = self.next();
        let r: Type = match t {
            Token::LParen => {
                let p = match self.primary() {
                    Ok(p) => p,
                    Err(e) => {
                        return Err(e);
                    },
                };
                proof {
                    lemma_primary_advances(toks, i + 1);
                }
                let r = match self.expression(p, 0) {
                    Ok(r) => r,
                    Err(e) => {
                        return Err(e);
                    },
                };
                match self.next() {
                    Token::RParen => r,
                    _ => {
                        return Err(CompileError::ExpectedCloseParen);
                    },
                }
            },
            Token::Operator(Opc::Minus) => {
                let p = match self.primary() {
                    Ok(p) => p,
                    Err(e) => {
                        return Err(e);
                    },
                };
                self.emit(p.neg());
                p
            },
            Token::Operator(Opc::Plus) => {
                match self.primary() {
                    Ok(p) => p,
                    Err(e) => {
                        return Err(e);
                    },
                }
            },
            Token::I32(w) => {
                self.emit(Operation::Const32);
                self.emit_word(w);
                Type::I32
            },
            Token::F32(w) => {
                self.emit(Operation::Const32);
                self.emit_word(w);
                Type::F32
            },
            _ => {
                return Err(CompileError::ExpectedValue);
            },
        };
        match self.peek() {
            Token::Cast(target) => {
                self.eat();
                match r.cast(target) {
                    Some(opn) => self.emit(opn),
                    None => (),
                }
                Ok(target)
            },
            _ => Ok(r),
        }
    }

    /// Parses the binary tail for a left operand of type `lhs` and emits its
    /// code, as `spec_expression` says.
    fn expression(&mut self, lhs: Type, min_pred: u32) -> (r: Result<Type, CompileError>)
        requires
            old(self).wf(),
        ensures
            final(self).wf(),
            final(self).toks() == old(self).toks(),
            match r {
                Ok(t) => spec_expression(
                    old(self).toks(),
                    old(self).pos(),
                    lhs,
                    min_pred as int,
                ) matches Ok((t2, j, c)) && t2 == t && final(self).pos() == j && final(self).out()
                    == old(self).out() + c,
                Err(e) => spec_expression(old(self).toks(), old(self).pos(), lhs, min_pred as int)
                    == Err::<(Type, int, Seq<u32>), CompileError>(e),
            },
        decreases old(self).toks().len() - old(self).pos(), 0int,
    {
        let ghost toks = self.toks();
        let ghost i = self.pos();
        let ghost out0 = self.out();
        match self.peek() {
            Token::Operator(op) => {
                let p = op.pred();
                if p >= min_pred {
                    self.eat();
                    let rhs0 = match self.primary() {
                        Ok(t) => t,
                        Err(e) => {
                            return Err(e);
                        },
                    };
                    proof {
                        lemma_primary_advances(toks, i + 1);
                    }
                    let rhs = match self.expression(rhs0, p + 1) {
                        Ok(t) => t,
                        Err(e) => {
                            return Err(e);
                        },
                    };
                    proof {
                        lemma_expression_advances(
                            toks,
                            spec_primary(toks, i + 1)->Ok_0.1,
                            rhs0,
                            p as int + 1,
                        );
                    }
                    if rhs != lhs {
                        return Err(CompileError::TypeMismatch);
                    }
                    self.emit(op.code(lhs));
                    let ghost c1 = spec_primary(toks, i + 1)->Ok_0.2;
                    let ghost j = spec_primary(toks, i + 1)->Ok_0.1;
                    let ghost c2 = spec_expression(toks, j, rhs0, p as int + 1)->Ok_0.2;
                    let ghost k = spec_expression(toks, j, rhs0, p as int + 1)->Ok_0.1;
                    proof {
                        assert(self.out() =~= out0 + (c1 + c2 + seq![op_word(op.code_spec(lhs))]));
                    }
                    let res = match self.expression(lhs, min_pred) {
                        Ok(t) => t,
                        Err(e) => {
                            return Err(e);
                        },
                    };
                    let ghost c3 = spec_expression(toks, k, lhs, min_pred as int)->Ok_0.2;
                    proof {
                        assert(self.out() =~= out0 + (c1 + c2 + seq![op_word(op.code_spec(lhs))]
                            + c3));
                    }
                    Ok(res)
                } else {
                    proof {
                        assert(out0 + Seq::<u32>::empty() =~= out0);
                    }
                    Ok(lhs)
                }
            },
            _ => {
                proof {
                    assert(out0 + Seq::<u32>::empty() =~= out0);
                }
                Ok(lhs)
            },
        }
    }

    /// Parses the whole token sequence into a program, as `spec_parse` says;
    /// what it accepts satisfies the safety invariant `wf`.
    pub fn parse(self) -> (r: Result<ByteCode, CompileError>)
        requires
            self.fresh(),
        ensures
            match r {
                Ok(bc) => spec_parse(self.toks()) == Ok::<Seq<u32>, CompileError>(bc@) && wf(bc@),
                Err(e) => spec_parse(self.toks()) == Err::<Seq<u32>, CompileError>(e),
            },
    {
        let ghost toks = self.toks();
        let mut this = self;
        let p = match this.primary() {
            Ok(t) => t,
            Err(e) => {
                return Err(e);
            },
        };
        let e = match this.expression(p, 0) {
            Ok(t) => t,
            Err(e) => {
                return Err(e);
            },
        };
        match this.next() {
            Token::Eof => {
                this.emit(e.exit());
                proof {
                    let c1 = spec_primary(toks, 0)->Ok_0.2;
                    let i = spec_primary(toks, 0)->Ok_0.1;
                    let c2 = spec_expression(toks, i, p, 0)->Ok_0.2;
                    assert(this.out() =~= c1 + c2 + seq![op_word(e.exit_spec())]);
                    lemma_parse_wf(toks);
                }
                Ok(ByteCode { words: this.output })
            },
            _ => Err(CompileError::ExpectedEndOfInput),
        }
    }
}

/// Compiles source text into a bytecode program, or reports the first
/// error, exactly as `spec_compile` says on the UTF-8 bytes of the source.
/// Every program returned satisfies the safety invariant `wf`.
pub fn compile(source: &str) -> (r: Result<ByteCode, CompileError>)
    ensures
        match r {
            Ok(bc) => spec_compile(source.spec_bytes()) == Ok::<Seq<u32>, CompileError>(bc@) && wf(
                bc@,
            ),
            Err(e) => spec_compile(source.spec_bytes()) == Err::<Seq<u32>, CompileError>(e),
        },
{
    let toks = match tokenize(source) {
        Ok(v) => v,
        Err(e) => {
            return Err(e);
        },
    };
    Parser::new(toks).parse()
}

} // verus!
