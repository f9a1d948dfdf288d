//! The lexer: source text to a sequence of tokens.
//!
//! The source is read byte by byte; every byte that can start a token is an
//! ASCII byte, and any byte outside the recognized classes — including any
//! non-ASCII byte — is an invalid character. The whole token sequence is
//! produced eagerly, and `spec_tokenize` states exactly which sequence (or
//! which error) every input yields.

use vstd::prelude::*;
use vstd::string::StringSliceAdditionalSpecFns;
use crate::errors::CompileError;
use crate::float_words::{f32_literal_bits, parse_f32_word};
use crate::value::Type;

verus! {

/// A binary operator symbol, with its fixed precedence level.
#[derive(Clone, Copy, Debug, PartialEq, Eq, Structural)]
pub enum Opc {
    Plus,
    Minus,
    Star,
    Slash,
}

impl Opc {
    /// The operator a byte denotes, if any: `+` `-` `*` `/` in ASCII.
    pub open spec fn of_byte(c: u8) -> Option<Opc> {
        if c == 43 {
            Some(Opc::Plus)
        } else if c == 45 {
            Some(Opc::Minus)
        } else if c == 42 {
            Some(Opc::Star)
        } else if c == 47 {
            Some(Opc::Slash)
        } else {
            None
        }
    }

    pub fn new(c: u8) -> (r: Option<Opc>)
        ensures
            r == Opc::of_byte(c),
    {
        if c == 43 {
            Some(Opc::Plus)
        } else if c == 45 {
            Some(Opc::Minus)
        } else if c == 42 {
            Some(Opc::Star)
        } else if c == 47 {
            Some(Opc::Slash)
        } else {
            None
        }
    }

    /// The precedence level: higher binds tighter.
    pub open spec fn pred_spec(self) -> u32 {
        match self {
            Opc::Plus => 0,
            Opc::Minus => 0,
            Opc::Star => 1,
            Opc::Slash => 1,
        }
    }

    pub fn pred(&self) -> (p: u32)
        ensures
            p == self.pred_spec(),
    {
        match self {
            Opc::Plus => 0,
            Opc::Minus => 0,
            Opc::Star => 1,
            Opc::Slash => 1,
        }
    }
}

/// One lexical token.
///
/// An integer literal is carried as the 32-bit word its digits denote, a
/// float literal as the IEEE-754 bit pattern its digits denote. An identifier
/// run lexes to `Symbol`; no grammar production consumes identifiers, so
/// their text is not kept. `Eof` is never produced by the tokenizer: the
/// parser synthesizes it past the end of the sequence.
#[derive(Clone, Copy, Debug, PartialEq, Eq, Structural)]
pub enum Token {
    Eof,
    LParen,
    RParen,
    Operator(Opc),
    Symbol,
    I32(u32),
    F32(u32),
    Cast(Type),
}

/// The ASCII whitespace bytes (space, tab, line feed, vertical tab, form
/// feed, carriage return).
pub open spec fn is_space_byte(c: u8) -> bool {
    c == 32 || (9 <= c && c <= 13)
}

pub open spec fn is_digit_byte(c: u8) -> bool {
    48 <= c && c <= 57
}

pub open spec fn is_alpha_byte(c: u8) -> bool {
    (65 <= c && c <= 90) || (97 <= c && c <= 122)
}

pub open spec fn is_alnum_byte(c: u8) -> bool {
    is_alpha_byte(c) || is_digit_byte(c)
}

/// The first position at or after `i` that does not hold an ASCII digit.
pub open spec fn scan_digits(b: Seq<u8>, i: int) -> int
    decreases b.len() - i,
{
    if 0 <= i < b.len() && is_digit_byte(b[i]) {
        scan_digits(b, i + 1)
    } else {
        i
    }
}

/// The first position at or after `i` that does not hold an ASCII letter or
/// digit.
pub open spec fn scan_alnum(b: Seq<u8>, i: int) -> int
    decreases b.len() - i,
{
    if 0 <= i < b.len() && is_alnum_byte(b[i]) {
        scan_alnum(b, i + 1)
    } else {
        i
    }
}

pub proof fn lemma_scan_digits_bounds(b: Seq<u8>, i: int)
    requires
        0 <= i <= b.len(),
    ensures
        i <= scan_digits(b, i) <= b.len(),
    decreases b.len() - i,
{
    if i < b.len() && is_digit_byte(b[i]) {
        lemma_scan_digits_bounds(b, i + 1);
    }
}

pub proof fn lemma_scan_alnum_bounds(b: Seq<u8>, i: int)
    requires
        0 <= i <= b.len(),
    ensures
        i <= scan_alnum(b, i) <= b.len(),
    decreases b.len() - i,
{
    if i < b.len() && is_alnum_byte(b[i]) {
        lemma_scan_alnum_bounds(b, i + 1);
    }
}

/// The integer the decimal digits `b[i..j)` denote.
pub open spec fn int_value(b: Seq<u8>, i: int, j: int) -> int
    decreases j - i,
{
    if i >= j {
        0
    } else {
        int_value(b, i, j - 1) * 10 + (b[j - 1] - 48)
    }
}

/// Prepends a token to the result of tokenizing the rest of the input.
pub open spec fn with_token(
    t: Token,
    rest: Result<Seq<Token>, CompileError>,
) -> Result<Seq<Token>, CompileError> {
    match rest {
        Ok(ts) => Ok(seq![t] + ts),
        Err(e) => Err(e),
    }
}

/// The tokens (or the lexical error) of the input from position `i` on.
///
/// Bytes are ASCII code points: 40 and 41 are the parentheses, 95 is the
/// underscore opening a cast and 105, 102, 117 its suffix letters `i`, `f`,
/// `u`, 46 is the decimal point.
///
/// The sub-scans always stay inside the input (`lemma_scan_digits_bounds`),
/// so the bound checks guarding the recursive calls never fail; they keep the
/// recursion visibly well-founded.
pub open spec fn spec_tokenize_from(b: Seq<u8>, i: int) -> Result<Seq<Token>, CompileError>
    decreases b.len() - i,
{
    if !(0 <= i < b.len()) {
        Ok(Seq::empty())
    } else {
        let c = b[i];
        if is_space_byte(c) {
            spec_tokenize_from(b, i + 1)
        } else {
            match Opc::of_byte(c) {
                Some(op) => with_token(Token::Operator(op), spec_tokenize_from(b, i + 1)),
                None => if c == 40 {
                    with_token(Token::LParen, spec_tokenize_from(b, i + 1))
                } else if c == 41 {
                    with_token(Token::RParen, spec_tokenize_from(b, i + 1))
                } else if c == 95 {
                    if i + 1 < b.len() && b[i + 1] == 105 {
                        with_token(Token::Cast(Type::I32), spec_tokenize_from(b, i + 2))
                    } else if i + 1 < b.len() && b[i + 1] == 102 {
                        with_token(Token::Cast(Type::F32), spec_tokenize_from(b, i + 2))
                    } else if i + 1 < b.len() && b[i + 1] == 117 {
                        with_token(Token::Cast(Type::U32), spec_tokenize_from(b, i + 2))
                    } else {
                        Err(CompileError::InvalidCastSuffix)
                    }
                } else if is_digit_byte(c) {
                    let j = scan_digits(b, i);
                    if j < b.len() && b[j] == 46 {
                        let k = scan_digits(b, j + 1);
                        if i < k <= b.len() {
                            match f32_literal_bits(b.subrange(i, k)) {
                                Some(bits) => with_token(
                                    Token::F32(bits),
                                    spec_tokenize_from(b, k),
                                ),
                                None => Err(CompileError::InvalidFloatLiteral),
                            }
                        } else {
                            Err(CompileError::InvalidFloatLiteral)
                        }
                    } else {
                        if int_value(b, i, j) <= u32::MAX && i < j <= b.len() {
                            with_token(
                                Token::I32(int_value(b, i, j) as u32),
                                spec_tokenize_from(b, j),
                            )
                        } else {
                            Err(CompileError::InvalidIntLiteral)
                        }
                    }
                } else if is_alpha_byte(c) {
                    let j = scan_alnum(b, i + 1);
                    if i < j <= b.len() {
                        with_token(Token::Symbol, spec_tokenize_from(b, j))
                    } else {
                        Err(CompileError::InvalidCharacter)
                    }
                } else {
                    Err(CompileError::InvalidCharacter)
                },
            }
        }
    }
}

/// The token sequence (or the lexical error) of the whole input.
pub open spec fn spec_tokenize(b: Seq<u8>) -> Result<Seq<Token>, CompileError> {
    spec_tokenize_from(b, 0)
}

/// Joins an already-produced prefix with the tokens still to come.
pub open spec fn prepend_tokens(
    acc: Seq<Token>,
    rest: Result<Seq<Token>, CompileError>,
) -> Result<Seq<Token>, CompileError> {
    match rest {
        Ok(ts) => Ok(acc + ts),
        Err(e) => Err(e),
    }
}

/// Turns source text into its token sequence, or reports the first lexical
/// error, exactly as `spec_tokenize` says on the UTF-8 bytes of the source.
pub fn tokenize(source: &str) -> (r: Result<Vec<Token>, CompileError>)
    ensures
        match r {
            Ok(v) => spec_tokenize(source.spec_bytes()) == Ok::<Seq<Token>, CompileError>(v@),
            Err(e) => spec_tokenize(source.spec_bytes()) == Err::<Seq<Token>, CompileError>(e),
        },
{
    let bytes: &[u8] = source.as_bytes();
    let n: usize = bytes.len();
    let mut toks: Vec<Token> = Vec::new();
    let mut i: usize = 0;
    while i < n
        invariant
            i <= n,
            n == bytes@.len(),
            bytes@ == source.spec_bytes(),
            spec_tokenize_from(bytes@, 0) == prepend_tokens(
                toks@,
                spec_tokenize_from(bytes@, i as int),
            ),
        decreases n - i,
    {
        let ghost b = bytes@;
        let ghost toks_before = toks@;
        let c = bytes[i];
        if c == 32 || (9 <= c && c <= 13) {
            i = i + 1;
        } else if let Some(op) = Opc::new(c) {
            toks.push(Token::Operator(op));
            i = i + 1;
            proof {
                lemma_push_one(toks_before, Token::Operator(op), spec_tokenize_from(b, i as int));
            }
        } else if c == 40 {
            toks.push(Token::LParen);
            i = i + 1;
            proof {
                lemma_push_one(toks_before, Token::LParen, spec_tokenize_from(b, i as int));
            }
        } else if c == 41 {
            toks.push(Token::RParen);
            i = i + 1;
            proof {
                lemma_push_one(toks_before, Token::RParen, spec_tokenize_from(b, i as int));
            }
        } else if c == 95 {
            if i + 1 < n && bytes[i + 1] == 105 {
                toks.push(Token::Cast(Type::I32));
                i = i + 2;
                proof {
                    lemma_push_one(toks_before, Token::Cast(Type::I32), spec_tokenize_from(b, i as int));
                }
            } else if i + 1 < n && bytes[i + 1] == 102 {
                toks.push(Token::Cast(Type::F32));
                i = i + 2;
                proof {
                    lemma_push_one(toks_before, Token::Cast(Type::F32), spec_tokenize_from(b, i as int));
                }
            } else if i + 1 < n && bytes[i + 1] == 117 {
                toks.push(Token::Cast(Type::U32));
                i = i + 2;
                proof {
                    lemma_push_one(toks_before, Token::Cast(Type::U32), spec_tokenize_from(b, i as int));
                }
            } else {
                return Err(CompileError::InvalidCastSuffix);
            }
        } else if 48 <= c && c <= 57 {
            // End of the digit run.
            let mut j: usize = i;
            while j < n && 48 <= bytes[j] && bytes[j] <= 57
                invariant
                    i <= j <= n,
                    n == bytes@.len(),
                    bytes@ == b,
                    scan_digits(b, i as int) == scan_digits(b, j as int),
                    forall|q: int| i <= q < j ==> is_digit_byte(#[trigger] b[q]),
                decreases n - j,
            {
                j = j + 1;
            }
            proof {
                assert(scan_digits(b, j as int) == j);
            }
            if j < n && bytes[j] == 46 {
                // A float literal: digits, the dot, then more digits.
                let mut k: usize = j + 1;
                while k < n && 48 <= bytes[k] && bytes[k] <= 57
                    invariant
                        j + 1 <= k <= n,
                        n == bytes@.len(),
                        bytes@ == b,
                        scan_digits(b, j + 1) == scan_digits(b, k as int),
                    decreases n - k,
                {
                    k = k + 1;
                }
                proof {
                    assert(scan_digits(b, k as int) == k);
                }
                let lit: &[u8] = &bytes[i..k];
                match parse_f32_word(lit) {
                    Some(bits) => {
                        toks.push(Token::F32(bits));
                        i = k;
                        proof {
                            lemma_push_one(toks_before, Token::F32(bits), spec_tokenize_from(b, i as int));
                        }
                    },
                    None => {
                        return Err(CompileError::InvalidFloatLiteral);
                    },
                }
            } else {
                // An integer literal; its value must fit in 32 bits. The
                // accumulator stops growing once it has passed that bound,
                // so it cannot overflow however long the digit run is.
                let mut v: u64 = 0;
                let mut p: usize = i;
                while p < j
                    invariant
                        i <= p <= j <= n,
                        n == bytes@.len(),
                        bytes@ == b,
                        forall|q: int| i <= q < j ==> is_digit_byte(#[trigger] b[q]),
                        int_value(b, i as int, p as int) <= u32::MAX
                            ==> v == int_value(b, i as int, p as int),
                        int_value(b, i as int, p as int) > u32::MAX ==> v > u32::MAX,
                        v <= 0xFFFF_FFFFu64 * 10 + 9,
                    decreases j - p,
                {
                    let d = bytes[p];
                    if v <= u32::MAX as u64 {
                        v = v * 10 + (d - 48) as u64;
                    }
                    p = p + 1;
                }
                if v > u32::MAX as u64 {
                    return Err(CompileError::InvalidIntLiteral);
                }
                toks.push(Token::I32(v as u32));
                i = j;
                proof {
                    lemma_push_one(toks_before, Token::I32(v as u32), spec_tokenize_from(b, i as int));
                }
            }
        } else if (65 <= c && c <= 90) || (97 <= c && c <= 122) {
            // An identifier run: a letter, then letters and digits.
            let mut j: usize = i + 1;
            while j < n && ((65 <= bytes[j] && bytes[j] <= 90) || (97 <= bytes[j] && bytes[j] <= 122)
                || (48 <= bytes[j] && bytes[j] <= 57))
                invariant
                    i + 1 <= j <= n,
                    n == bytes@.len(),
                    bytes@ == b,
                    scan_alnum(b, i + 1) == scan_alnum(b, j as int),
                decreases n - j,
            {
                j = j + 1;
            }
            proof {
                assert(scan_alnum(b, j as int) == j);
            }
            toks.push(Token::Symbol);
            i = j;
            proof {
                lemma_push_one(toks_before, Token::Symbol, spec_tokenize_from(b, i as int));
            }
        } else {
            return Err(CompileError::InvalidCharacter);
        }
    }
    proof {
        assert(toks@ + Seq::<Token>::empty() =~= toks@);
    }
    Ok(toks)
}

/// Pushing one token onto the produced prefix absorbs it from the front of
/// what remains.
proof fn lemma_push_one(acc: Seq<Token>, t: Token, rest: Result<Seq<Token>, CompileError>)
    ensures
        prepend_tokens(acc, with_token(t, rest)) == prepend_tokens(acc.push(t), rest),
{
    match rest {
        Ok(ts) => {
            assert(acc + (seq![t] + ts) =~= acc.push(t) + ts);
        },
        Err(_) => {},
    }
}

} // verus!
