//! The instruction set and the bytecode program form.
//!
//! A program is a flat sequence of 32-bit words. Every instruction occupies
//! one word, tag-encoded as a small integer, except the literal push, which
//! reserves the next word as its raw immediate operand. The two lowest code
//! points stay reserved for control instructions (an absolute jump and a
//! conditional skip) that this instruction set does not define: nothing emits
//! them, and honoring them would need an execution budget to keep every run
//! terminating, so they decode as invalid.
//!
//! `wf_from` is the static safety invariant of a program: every instruction
//! finds its operands on the stack, the program counter never leaves the
//! program, and the program ends in exactly one exit instruction. The
//! compiler establishes it; the virtual machine relies on it.

use vstd::prelude::*;
use vstd::string::StringExecFns;
use crate::token::Opc;
use crate::value::Type;

verus! {

/// One instruction tag.
///
/// Groups: the no-op; the literal push (one immediate word follows); one exit
/// instruction per type; one negation per representation; the four directed
/// casts among the three types (identity and bit-identical casts are never
/// encoded); and the binary arithmetic and comparison instructions. The two
/// integer types share their wraparound arithmetic instructions; division
/// alone distinguishes the signed and the unsigned reading of the words.
#[derive(Clone, Copy, Debug, PartialEq, Eq, Structural)]
pub enum Operation {
    Nop,
    Const32,
    ExitF32,
    ExitI32,
    ExitU32,
    F32Neg,
    F32Add,
    F32Sub,
    F32Mul,
    F32Div,
    F32Lt,
    F32Eq,
    F32CastI32S,
    F32CastI32U,
    I32Neg,
    I32Add,
    I32Sub,
    I32Mul,
    I32DivS,
    I32DivU,
    I32Lt,
    I32Eq,
    I32CastF32S,
    I32CastF32U,
}

/// The word encoding an instruction tag.
pub open spec fn op_word(op: Operation) -> u32 {
    match op {
        Operation::Nop => 2,
        Operation::Const32 => 3,
        Operation::ExitF32 => 4,
        Operation::ExitI32 => 5,
        Operation::ExitU32 => 6,
        Operation::F32Neg => 7,
        Operation::F32Add => 8,
        Operation::F32Sub => 9,
        Operation::F32Mul => 10,
        Operation::F32Div => 11,
        Operation::F32Lt => 12,
        Operation::F32Eq => 13,
        Operation::F32CastI32S => 14,
        Operation::F32CastI32U => 15,
        Operation::I32Neg => 16,
        Operation::I32Add => 17,
        Operation::I32Sub => 18,
        Operation::I32Mul => 19,
        Operation::I32DivS => 20,
        Operation::I32DivU => 21,
        Operation::I32Lt => 22,
        Operation::I32Eq => 23,
        Operation::I32CastF32S => 24,
        Operation::I32CastF32U => 25,
    }
}

/// The instruction tag a word encodes, if any.
pub open spec fn op_of_word(w: u32) -> Option<Operation> {
    if w == 2 {
        Some(Operation::Nop)
    } else if w == 3 {
        Some(Operation::Const32)
    } else if w == 4 {
        Some(Operation::ExitF32)
    } else if w == 5 {
        Some(Operation::ExitI32)
    } else if w == 6 {
        Some(Operation::ExitU32)
    } else if w == 7 {
        Some(Operation::F32Neg)
    } else if w == 8 {
        Some(Operation::F32Add)
    } else if w == 9 {
        Some(Operation::F32Sub)
    } else if w == 10 {
        Some(Operation::F32Mul)
    } else if w == 11 {
        Some(Operation::F32Div)
    } else if w == 12 {
        Some(Operation::F32Lt)
    } else if w == 13 {
        Some(Operation::F32Eq)
    } else if w == 14 {
        Some(Operation::F32CastI32S)
    } else if w == 15 {
        Some(Operation::F32CastI32U)
    } else if w == 16 {
        Some(Operation::I32Neg)
    } else if w == 17 {
        Some(Operation::I32Add)
    } else if w == 18 {
        Some(Operation::I32Sub)
    } else if w == 19 {
        Some(Operation::I32Mul)
    } else if w == 20 {
        Some(Operation::I32DivS)
    } else if w == 21 {
        Some(Operation::I32DivU)
    } else if w == 22 {
        Some(Operation::I32Lt)
    } else if w == 23 {
        Some(Operation::I32Eq)
    } else if w == 24 {
        Some(Operation::I32CastF32S)
    } else if w == 25 {
        Some(Operation::I32CastF32U)
    } else {
        None
    }
}

/// Decoding inverts encoding.
pub proof fn lemma_op_word_roundtrip(op: Operation)
    ensures
        op_of_word(op_word(op)) == Some(op),
{
}

/// Encodes an instruction tag into its word.
pub fn encode_op(op: Operation) -> (w: u32)
    ensures
        w == op_word(op),
{
    match op {
        Operation::Nop => 2,
        Operation::Const32 => 3,
        Operation::ExitF32 => 4,
        Operation::ExitI32 => 5,
        Operation::ExitU32 => 6,
        Operation::F32Neg => 7,
        Operation::F32Add => 8,
        Operation::F32Sub => 9,
        Operation::F32Mul => 10,
        Operation::F32Div => 11,
        Operation::F32Lt => 12,
        Operation::F32Eq => 13,
        Operation::F32CastI32S => 14,
        Operation::F32CastI32U => 15,
        Operation::I32Neg => 16,
        Operation::I32Add => 17,
        Operation::I32Sub => 18,
        Operation::I32Mul => 19,
        Operation::I32DivS => 20,
        Operation::I32DivU => 21,
        Operation::I32Lt => 22,
        Operation::I32Eq => 23,
        Operation::I32CastF32S => 24,
        Operation::I32CastF32U => 25,
    }
}

/// Decodes a word into its instruction tag; the disassembling direction.
pub fn decode_op(w: u32) -> (r: Option<Operation>)
    ensures
        r == op_of_word(w),
{
    if w == 2 {
        Some(Operation::Nop)
    } else if w == 3 {
        Some(Operation::Const32)
    } else if w == 4 {
        Some(Operation::ExitF32)
    } else if w == 5 {
        Some(Operation::ExitI32)
    } else if w == 6 {
        Some(Operation::ExitU32)
    } else if w == 7 {
        Some(Operation::F32Neg)
    } else if w == 8 {
        Some(Operation::F32Add)
    } else if w == 9 {
        Some(Operation::F32Sub)
    } else if w == 10 {
        Some(Operation::F32Mul)
    } else if w == 11 {
        Some(Operation::F32Div)
    } else if w == 12 {
        Some(Operation::F32Lt)
    } else if w == 13 {
        Some(Operation::F32Eq)
    } else if w == 14 {
        Some(Operation::F32CastI32S)
    } else if w == 15 {
        Some(Operation::F32CastI32U)
    } else if w == 16 {
        Some(Operation::I32Neg)
    } else if w == 17 {
        Some(Operation::I32Add)
    } else if w == 18 {
        Some(Operation::I32Sub)
    } else if w == 19 {
        Some(Operation::I32Mul)
    } else if w == 20 {
        Some(Operation::I32DivS)
    } else if w == 21 {
        Some(Operation::I32DivU)
    } else if w == 22 {
        Some(Operation::I32Lt)
    } else if w == 23 {
        Some(Operation::I32Eq)
    } else if w == 24 {
        Some(Operation::I32CastF32S)
    } else if w == 25 {
        Some(Operation::I32CastF32U)
    } else {
        None
    }
}

/// An exit instruction: pops the result and halts.
pub open spec fn is_exit(op: Operation) -> bool {
    op == Operation::ExitF32 || op == Operation::ExitI32 || op == Operation::ExitU32
}

/// An instruction that pops one word and pushes one word.
pub open spec fn is_unary(op: Operation) -> bool {
    op == Operation::F32Neg || op == Operation::I32Neg || op == Operation::F32CastI32S
        || op == Operation::F32CastI32U || op == Operation::I32CastF32S
        || op == Operation::I32CastF32U
}

/// An instruction that pops two words and pushes one word.
pub open spec fn is_binary(op: Operation) -> bool {
    op == Operation::F32Add || op == Operation::F32Sub || op == Operation::F32Mul
        || op == Operation::F32Div || op == Operation::F32Lt || op == Operation::F32Eq
        || op == Operation::I32Add || op == Operation::I32Sub || op == Operation::I32Mul
        || op == Operation::I32DivS || op == Operation::I32DivU || op == Operation::I32Lt
        || op == Operation::I32Eq
}

/// The stack depth a straight-line code segment leaves behind.
///
/// Walking `code` from position `i` with `depth` words on the stack: the
/// result is the depth at the end of the segment, or `None` where an
/// instruction would underflow the stack, where a word decodes to no
/// instruction or to an exit (a segment is code an expression continues
/// after), or where a literal push lacks its immediate.
pub open spec fn seg_from(code: Seq<u32>, i: int, depth: int) -> Option<int>
    decreases code.len() - i,
{
    if !(0 <= i <= code.len()) {
        None
    } else if i == code.len() {
        Some(depth)
    } else {
        match op_of_word(code[i]) {
            None => None,
            Some(op) => if op == Operation::Nop {
                seg_from(code, i + 1, depth)
            } else if op == Operation::Const32 {
                if i + 1 < code.len() {
                    seg_from(code, i + 2, depth + 1)
                } else {
                    None
                }
            } else if is_unary(op) {
                if depth >= 1 {
                    seg_from(code, i + 1, depth)
                } else {
                    None
                }
            } else if is_binary(op) {
                if depth >= 2 {
                    seg_from(code, i + 1, depth - 1)
                } else {
                    None
                }
            } else {
                None
            },
        }
    }
}

/// The safety invariant of a whole program, from position `i` with `depth`
/// stack words: every instruction finds its operands, the program counter
/// stays inside the program, and the last word — and no earlier one — is an
/// exit instruction reached with at least one word on the stack.
pub open spec fn wf_from(code: Seq<u32>, i: int, depth: int) -> bool
    decreases code.len() - i,
{
    if !(0 <= i < code.len()) {
        false
    } else {
        match op_of_word(code[i]) {
            None => false,
            Some(op) => if op == Operation::Nop {
                wf_from(code, i + 1, depth)
            } else if op == Operation::Const32 {
                i + 1 < code.len() && wf_from(code, i + 2, depth + 1)
            } else if is_unary(op) {
                depth >= 1 && wf_from(code, i + 1, depth)
            } else if is_binary(op) {
                depth >= 2 && wf_from(code, i + 1, depth - 1)
            } else {
                depth >= 1 && i == code.len() - 1
            },
        }
    }
}

/// A safe program: executable from an empty stack.
pub open spec fn wf(code: Seq<u32>) -> bool {
    wf_from(code, 0, 0)
}

/// A segment is read through any prefix it is appended to unchanged.
pub proof fn lemma_seg_offset(a: Seq<u32>, b: Seq<u32>, k: int, d: int)
    requires
        0 <= k <= b.len(),
    ensures
        seg_from(a + b, a.len() + k, d) == seg_from(b, k, d),
    decreases b.len() - k,
{
    if k < b.len() {
        assert((a + b)[a.len() + k] == b[k]);
        match op_of_word(b[k]) {
            None => {},
            Some(op) => {
                if op == Operation::Nop {
                    lemma_seg_offset(a, b, k + 1, d);
                } else if op == Operation::Const32 {
                    if k + 1 < b.len() {
                        lemma_seg_offset(a, b, k + 2, d + 1);
                    }
                } else if is_unary(op) {
                    if d >= 1 {
                        lemma_seg_offset(a, b, k + 1, d);
                    }
                } else if is_binary(op) {
                    if d >= 2 {
                        lemma_seg_offset(a, b, k + 1, d - 1);
                    }
                }
            },
        }
    }
}

/// Two safe segments in sequence: the second starts at the depth the first
/// left behind.
pub proof fn lemma_seg_concat(a: Seq<u32>, b: Seq<u32>, i: int, d: int, m: int)
    requires
        0 <= i <= a.len(),
        seg_from(a, i, d) == Some(m),
    ensures
        seg_from(a + b, i, d) == seg_from(b, 0, m),
    decreases a.len() - i,
{
    if i == a.len() {
        lemma_seg_offset(a, b, 0, d);
    } else {
        assert((a + b)[i] == a[i]);
        match op_of_word(a[i]) {
            None => {},
            Some(op) => {
                if op == Operation::Nop {
                    lemma_seg_concat(a, b, i + 1, d, m);
                } else if op == Operation::Const32 {
                    lemma_seg_concat(a, b, i + 2, d + 1, m);
                } else if is_unary(op) {
                    lemma_seg_concat(a, b, i + 1, d, m);
                } else if is_binary(op) {
                    lemma_seg_concat(a, b, i + 1, d - 1, m);
                }
            },
        }
    }
}

/// Appending the exit instruction to a complete segment yields a safe
/// program, provided the segment leaves at least one word for the exit to
/// return.
pub proof fn lemma_wf_of_seg(code: Seq<u32>, w: u32, i: int, depth: int, m: int)
    requires
        0 <= i <= code.len(),
        seg_from(code, i, depth) == Some(m),
        m >= 1,
        op_of_word(w) matches Some(op) && is_exit(op),
    ensures
        wf_from(code.push(w), i, depth),
    decreases code.len() - i,
{
    if i == code.len() {
        assert(code.push(w)[i] == w);
    } else {
        assert(code.push(w)[i] == code[i]);
        match op_of_word(code[i]) {
            None => {},
            Some(op) => {
                if op == Operation::Nop {
                    lemma_wf_of_seg(code, w, i + 1, depth, m);
                } else if op == Operation::Const32 {
                    lemma_wf_of_seg(code, w, i + 2, depth + 1, m);
                } else if is_unary(op) {
                    lemma_wf_of_seg(code, w, i + 1, depth, m);
                } else if is_binary(op) {
                    lemma_wf_of_seg(code, w, i + 1, depth - 1, m);
                }
            },
        }
    }
}

/// A compiled program: an ordered sequence of 32-bit words, immutable once
/// produced, and the sole artifact crossing from compiler to virtual
/// machine.
#[derive(Debug)]
pub struct ByteCode {
    /// The instruction words. The compiler only produces words satisfying
    /// `wf`, which the virtual machine requires.
    pub words: Vec<u32>,
}

impl View for ByteCode {
    type V = Seq<u32>;

    open spec fn view(&self) -> Seq<u32> {
        self.words@
    }
}

/// Decides the safety invariant `wf` for a word sequence: a single linear
/// scan tracking the stack depth, special-casing the one variable-width
/// instruction (the literal push and its immediate word).
pub fn validate(words: &Vec<u32>) -> (b: bool)
    ensures
        b == wf(words@),
{
    let n: usize = words.len();
    let mut i: usize = 0;
    let mut depth: usize = 0;
    while i < n
        invariant
            n == words@.len(),
            i <= n,
            depth <= i,
            wf(words@) == wf_from(words@, i as int, depth as int),
        decreases n - i,
    {
        match decode_op(words[i]) {
            None => {
                return false;
            },
            Some(op) => {
                if op == Operation::Nop {
                    i = i + 1;
                } else if op == Operation::Const32 {
                    if i + 1 >= n {
                        return false;
                    }
                    i = i + 2;
                    depth = depth + 1;
                } else if op == Operation::F32Neg || op == Operation::I32Neg || op
                    == Operation::F32CastI32S || op == Operation::F32CastI32U || op
                    == Operation::I32CastF32S || op == Operation::I32CastF32U {
                    if depth < 1 {
                        return false;
                    }
                    i = i + 1;
                } else if op == Operation::ExitF32 || op == Operation::ExitI32 || op
                    == Operation::ExitU32 {
                    return depth >= 1 && i == n - 1;
                } else {
                    // A binary instruction.
                    if depth < 2 {
                        return false;
                    }
                    depth = depth - 1;
                    i = i + 1;
                }
            },
        }
    }
    false
}

impl ByteCode {
    /// Accepts a word sequence as a program only where the scan `validate`
    /// shows it safe to execute.
    pub fn from_words(words: Vec<u32>) -> (r: Option<ByteCode>)
        ensures
            match r {
                Some(bc) => wf(words@) && bc@ == words@,
                None => !wf(words@),
            },
    {
        if validate(&words) {
            Some(ByteCode { words })
        } else {
            None
        }
    }

    /// One instruction name per line, the immediate of a literal push in
    /// hexadecimal on the same line: exactly `spec_disassembly` of the words.
    pub fn disassemble(&self) -> (s: String)
        ensures
            s@ == spec_disassembly(self@, 0),
    {
        let n: usize = self.words.len();
        let mut out = String::new();
        let mut i: usize = 0;
        while i < n
            invariant
                i <= n,
                n == self.words@.len(),
                spec_disassembly(self.words@, 0) == out@ + spec_disassembly(
                    self.words@,
                    i as int,
                ),
            decreases n - i,
        {
            let ghost before = out@;
            let ghost rest = self@;
            match decode_op(self.words[i]) {
                None => {
                    out.append("???\n");
                    i = i + 1;
                    proof {
                        assert(out@ + spec_disassembly(rest, i as int) =~= before + ("???\n"@
                            + spec_disassembly(rest, i as int)));
                    }
                },
                Some(op) => {
                    if i + 1 < n {
                        let imm_present = match op {
                            Operation::Const32 => true,
                            _ => false,
                        };
                        if imm_present {
                            out.append("Const32 ");
                            let h = hex_str(self.words[i + 1]);
                            out.append(h.as_str());
                            out.append("\n");
                            i = i + 2;
                            proof {
                                assert(out@ + spec_disassembly(rest, i as int) =~= before + (
                                "Const32 "@ + hex_digits(rest[i - 1]) + "\n"@ + spec_disassembly(
                                    rest,
                                    i as int,
                                )));
                            }
                            continue;
                        }
                    } else if match op {
                        Operation::Const32 => true,
                        _ => false,
                    } {
                        out.append("Const32 ?\n");
                        i = i + 1;
                        proof {
                            assert(out@ + spec_disassembly(rest, i as int) =~= before + (
                            "Const32 ?\n"@ + spec_disassembly(rest, i as int)));
                        }
                        continue;
                    }
                    out.append(op_name(op));
                    out.append("\n");
                    i = i + 1;
                    proof {
                        assert(out@ + spec_disassembly(rest, i as int) =~= before + (op_name_seq(
                            op,
                        ) + "\n"@ + spec_disassembly(rest, i as int)));
                    }
                },
            }
        }
        proof {
            assert(out@ + Seq::<char>::empty() =~= out@);
        }
        out
    }
}

/// The listing of the program from position `i` on: one instruction name per
/// line; the literal push carries its immediate word in hexadecimal, or a
/// question mark where the immediate is missing; a word that encodes no
/// instruction prints as question marks.
pub open spec fn spec_disassembly(code: Seq<u32>, i: int) -> Seq<char>
    decreases code.len() - i,
{
    if !(0 <= i < code.len()) {
        Seq::empty()
    } else {
        match op_of_word(code[i]) {
            None => "???\n"@ + spec_disassembly(code, i + 1),
            Some(op) => if op == Operation::Const32 {
                if i + 1 < code.len() {
                    "Const32 "@ + hex_digits(code[i + 1]) + "\n"@ + spec_disassembly(code, i + 2)
                } else {
                    "Const32 ?\n"@
                }
            } else {
                op_name_seq(op) + "\n"@ + spec_disassembly(code, i + 1)
            },
        }
    }
}

/// The hexadecimal digits of a word, most significant first, no leading
/// zeroes.
pub open spec fn hex_digits(n: u32) -> Seq<char>
    decreases n,
{
    if n < 16 {
        hex_digit_seq(n)
    } else {
        hex_digits((n / 16) as u32) + hex_digit_seq((n % 16) as u32)
    }
}

/// One hexadecimal digit, lower case.
pub open spec fn hex_digit_seq(d: u32) -> Seq<char> {
    if d == 0 {
        "0"@
    } else if d == 1 {
        "1"@
    } else if d == 2 {
        "2"@
    } else if d == 3 {
        "3"@
    } else if d == 4 {
        "4"@
    } else if d == 5 {
        "5"@
    } else if d == 6 {
        "6"@
    } else if d == 7 {
        "7"@
    } else if d == 8 {
        "8"@
    } else if d == 9 {
        "9"@
    } else if d == 10 {
        "a"@
    } else if d == 11 {
        "b"@
    } else if d == 12 {
        "c"@
    } else if d == 13 {
        "d"@
    } else if d == 14 {
        "e"@
    } else {
        "f"@
    }
}

fn hex_digit_str(d: u32) -> (s: &'static str)
    requires
        d < 16,
    ensures
        s@ == hex_digit_seq(d),
{
    if d == 0 {
        "0"
    } else if d == 1 {
        "1"
    } else if d == 2 {
        "2"
    } else if d == 3 {
        "3"
    } else if d == 4 {
        "4"
    } else if d == 5 {
        "5"
    } else if d == 6 {
        "6"
    } else if d == 7 {
        "7"
    } else if d == 8 {
        "8"
    } else if d == 9 {
        "9"
    } else if d == 10 {
        "a"
    } else if d == 11 {
        "b"
    } else if d == 12 {
        "c"
    } else if d == 13 {
        "d"
    } else if d == 14 {
        "e"
    } else {
        "f"
    }
}

/// The hexadecimal rendering of a word.
fn hex_str(n: u32) -> (s: String)
    ensures
        s@ == hex_digits(n),
    decreases n,
{
    if n < 16 {
        let mut s = String::new();
        s.append(hex_digit_str(n));
        proof {
            assert(Seq::<char>::empty() + hex_digit_seq(n) =~= hex_digit_seq(n));
        }
        s
    } else {
        let mut s = hex_str(n / 16);
        s.append(hex_digit_str(n % 16));
        s
    }
}

/// The printed name of an instruction.
pub open spec fn op_name_seq(op: Operation) -> Seq<char> {
    match op {
        Operation::Nop => "Nop"@,
        Operation::Const32 => "Const32"@,
        Operation::ExitF32 => "ExitF32"@,
        Operation::ExitI32 => "ExitI32"@,
        Operation::ExitU32 => "ExitU32"@,
        Operation::F32Neg => "F32Neg"@,
        Operation::F32Add => "F32Add"@,
        Operation::F32Sub => "F32Sub"@,
        Operation::F32Mul => "F32Mul"@,
        Operation::F32Div => "F32Div"@,
        Operation::F32Lt => "F32Lt"@,
        Operation::F32Eq => "F32Eq"@,
        Operation::F32CastI32S => "F32CastI32S"@,
        Operation::F32CastI32U => "F32CastI32U"@,
        Operation::I32Neg => "I32Neg"@,
        Operation::I32Add => "I32Add"@,
        Operation::I32Sub => "I32Sub"@,
        Operation::I32Mul => "I32Mul"@,
        Operation::I32DivS => "I32DivS"@,
        Operation::I32DivU => "I32DivU"@,
        Operation::I32Lt => "I32Lt"@,
        Operation::I32Eq => "I32Eq"@,
        Operation::I32CastF32S => "I32CastF32S"@,
        Operation::I32CastF32U => "I32CastF32U"@,
    }
}

fn op_name(op: Operation) -> (s: &'static str)
    ensures
        s@ == op_name_seq(op),
{
    match op {
        Operation::Nop => "Nop",
        Operation::Const32 => "Const32",
        Operation::ExitF32 => "ExitF32",
        Operation::ExitI32 => "ExitI32",
        Operation::ExitU32 => "ExitU32",
        Operation::F32Neg => "F32Neg",
        Operation::F32Add => "F32Add",
        Operation::F32Sub => "F32Sub",
        Operation::F32Mul => "F32Mul",
        Operation::F32Div => "F32Div",
        Operation::F32Lt => "F32Lt",
        Operation::F32Eq => "F32Eq",
        Operation::F32CastI32S => "F32CastI32S",
        Operation::F32CastI32U => "F32CastI32U",
        Operation::I32Neg => "I32Neg",
        Operation::I32Add => "I32Add",
        Operation::I32Sub => "I32Sub",
        Operation::I32Mul => "I32Mul",
        Operation::I32DivS => "I32DivS",
        Operation::I32DivU => "I32DivU",
        Operation::I32Lt => "I32Lt",
        Operation::I32Eq => "I32Eq",
        Operation::I32CastF32S => "I32CastF32S",
        Operation::I32CastF32U => "I32CastF32U",
    }
}

impl Type {
    /// The negate instruction for operands of this type. Both integer types
    /// share the two's-complement negate.
    pub open spec fn neg_spec(self) -> Operation {
        match self {
            Type::I32 => Operation::I32Neg,
            Type::U32 => Operation::I32Neg,
            Type::F32 => Operation::F32Neg,
        }
    }

    pub fn neg(&self) -> (op: Operation)
        ensures
            op == self.neg_spec(),
    {
        match self {
            Type::I32 => Operation::I32Neg,
            Type::U32 => Operation::I32Neg,
            Type::F32 => Operation::F32Neg,
        }
    }

    pub open spec fn add_spec(self) -> Operation {
        match self {
            Type::I32 => Operation::I32Add,
            Type::U32 => Operation::I32Add,
            Type::F32 => Operation::F32Add,
        }
    }

    pub fn add(&self) -> (op: Operation)
        ensures
            op == self.add_spec(),
    {
        match self {
            Type::I32 => Operation::I32Add,
            Type::U32 => Operation::I32Add,
            Type::F32 => Operation::F32Add,
        }
    }

    pub open spec fn sub_spec(self) -> Operation {
        match self {
            Type::I32 => Operation::I32Sub,
            Type::U32 => Operation::I32Sub,
            Type::F32 => Operation::F32Sub,
        }
    }

    pub fn sub(&self) -> (op: Operation)
        ensures
            op == self.sub_spec(),
    {
        match self {
            Type::I32 => Operation::I32Sub,
            Type::U32 => Operation::I32Sub,
            Type::F32 => Operation::F32Sub,
        }
    }

    pub open spec fn mul_spec(self) -> Operation {
        match self {
            Type::I32 => Operation::I32Mul,
            Type::U32 => Operation::I32Mul,
            Type::F32 => Operation::F32Mul,
        }
    }

    pub fn mul(&self) -> (op: Operation)
        ensures
            op == self.mul_spec(),
    {
        match self {
            Type::I32 => Operation::I32Mul,
            Type::U32 => Operation::I32Mul,
            Type::F32 => Operation::F32Mul,
        }
    }

    /// Division alone distinguishes the signed and the unsigned reading.
    pub open spec fn div_spec(self) -> Operation {
        match self {
            Type::I32 => Operation::I32DivS,
            Type::U32 => Operation::I32DivU,
            Type::F32 => Operation::F32Div,
        }
    }

    pub fn div(&self) -> (op: Operation)
        ensures
            op == self.div_spec(),
    {
        match self {
            Type::I32 => Operation::I32DivS,
            Type::U32 => Operation::I32DivU,
            Type::F32 => Operation::F32Div,
        }
    }

    /// The conversion instruction from this type to `target`, or `None`
    /// where the words are bit-identical (identity casts and the casts
    /// between the two integer types) and the cast is elided.
    pub open spec fn cast_spec(self, target: Type) -> Option<Operation> {
        match (self, target) {
            (Type::I32, Type::F32) => Some(Operation::I32CastF32S),
            (Type::U32, Type::F32) => Some(Operation::I32CastF32U),
            (Type::F32, Type::I32) => Some(Operation::F32CastI32S),
            (Type::F32, Type::U32) => Some(Operation::F32CastI32U),
            _ => None,
        }
    }

    pub fn cast(&self, target: Type) -> (r: Option<Operation>)
        ensures
            r == self.cast_spec(target),
    {
        match (self, target) {
            (Type::I32, Type::F32) => Some(Operation::I32CastF32S),
            (Type::U32, Type::F32) => Some(Operation::I32CastF32U),
            (Type::F32, Type::I32) => Some(Operation::F32CastI32S),
            (Type::F32, Type::U32) => Some(Operation::F32CastI32U),
            _ => None,
        }
    }
}

impl Opc {
    /// The arithmetic instruction this operator stands for on operands of
    /// type `t`.
    pub open spec fn code_spec(self, t: Type) -> Operation {
        match self {
            Opc::Plus => t.add_spec(),
            Opc::Minus => t.sub_spec(),
            Opc::Star => t.mul_spec(),
            Opc::Slash => t.div_spec(),
        }
    }

    pub fn code(&self, t: Type) -> (op: Operation)
        ensures
            op == self.code_spec(t),
    {
        match self {
            Opc::Plus => t.add(),
            Opc::Minus => t.sub(),
            Opc::Star => t.mul(),
            Opc::Slash => t.div(),
        }
    }
}

} // verus!
