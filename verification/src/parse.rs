//! Encoding microcommand text into a word: what each piece of the grammar
//! contributes, and the parser that accumulates it.
use vstd::prelude::*;
use crate::control_signals::{BaseCs, Cs};
use crate::command::Command;
use crate::foreign::{
    all_decimal, all_digits, decimal_value, digit_of, drop_underscores, negation_overflows, parse_i32,
    parse_int_i32, radix_prefix, radix_value, to_upper, uppercase,
};
use crate::grammar::{
    alu_shape, alu_subject, arrow_at, arrow_len, comm_split, cond_parts, goto_addr, last_then,
    lit_at, match_alu, match_comm, match_cond, match_goto, match_reg, match_single, match_then,
    match_transfer, no_newline, reg_operand, single_action, transfer_split, wrapped_alu, AluMatch, AluShape,
    has_lit_at, has_no_newline,
};
use crate::text::{
    all_ascii, upper, byte_len, lemma_encode_len, lemma_utf8_piece, utf8_len, trim_bounds, chars_of, dec, drop_empty, eq_str, push_dec, push_slice, push_str, split, split_chars, string_of, trim,
    trim_chars, views,
};

verus! {

/// The outcome of parsing a piece of text: the bits it contributes, an error
/// message, or an abnormal stop.
pub enum Parsed {
    Bits(u64),
    Fail(Seq<char>),
    Abort,
}

/// The word bit of a signal.
pub open spec fn sig(b: BaseCs) -> u64 {
    1u64 << (b.spec_index() as u64)
}

/// The bits that a control signal or field value sets in a word.
pub open spec fn cs_bits(cs: Cs) -> u64 {
    match cs {
        Cs::Base(b) => sig(b),
        Cs::Bit(x) => (x as u64) << 16u64,
        Cs::Addr(a) => (a as u64) << 24u64,
        Cs::Comp(c) => (if c { 1u64 } else { 0u64 }) << 32u64,
        Cs::Type(t) => (if t { 1u64 } else { 0u64 }) << 39u64,
    }
}

/// `p` with `bits` added to what it contributes.
pub open spec fn or_bits(p: Parsed, bits: u64) -> Parsed {
    match p {
        Parsed::Bits(b) => Parsed::Bits(bits | b),
        other => other,
    }
}

/// `prefix` followed by `s` in backquotes.
pub open spec fn quoted(prefix: Seq<char>, s: Seq<char>) -> Seq<char> {
    prefix + "`"@ + s + "`"@
}

pub open spec fn msg_if_structure() -> Seq<char> {
    "seems like if command, but unable to parce it"@
}

pub open spec fn msg_if_condition() -> Seq<char> {
    "unable to parse if condition"@
}

pub open spec fn msg_bit_value() -> Seq<char> {
    "unable to parse bit value"@
}

pub open spec fn msg_bit_range(v: nat) -> Seq<char> {
    quoted("can only use bits in range [0, 15], but found "@, dec(v))
}

pub open spec fn msg_mixed_bytes() -> Seq<char> {
    "cannot activate lower and upper bytes at the same time"@
}

pub open spec fn msg_no_bits() -> Seq<char> {
    "no bits was selected"@
}

pub open spec fn msg_goto() -> Seq<char> {
    "invalid goto body"@
}

pub open spec fn msg_register(s: Seq<char>) -> Seq<char> {
    quoted("unable to parse register "@, s)
}

pub open spec fn msg_commutator(s: Seq<char>) -> Seq<char> {
    quoted("unable to parse commutator function "@, s)
}

/// Message for an operand that names no register of its side: `kind` 0 for
/// the right side, 1 for the left side, 2 for a lone operand.
pub open spec fn msg_operand(kind: nat, s: Seq<char>) -> Seq<char> {
    if kind == 0 {
        quoted("unable to parse right reg input "@, s)
    } else if kind == 1 {
        quoted("unable to parse left reg input "@, s)
    } else {
        quoted("unable to parse reg input "@, s)
    }
}

pub open spec fn msg_alu() -> Seq<char> {
    "unable to parse ALU actions"@
}

pub open spec fn msg_write(s: Seq<char>) -> Seq<char> {
    quoted("unable to parse omc write value "@, s)
}

pub open spec fn msg_omc() -> Seq<char> {
    "unable to parse omc"@
}

// ---------------------------------------------------------------------------
// Jumps

/// A jump `GOTO label @ XX` (after trimming) contributes its address.
pub open spec fn goto_bits(g: Seq<char>) -> Parsed {
    match goto_addr(trim(g)) {
        Some(a) => Parsed::Bits((a as u64) << 24u64),
        None => Parsed::Fail(msg_goto()),
    }
}

// ---------------------------------------------------------------------------
// Tested bits

/// The bit that a flag name stands for: C, V, Z, N, EI, INT, IRQ, W, P.
pub open spec fn flag_bit(t: Seq<char>) -> Option<int> {
    if t == "C"@ {
        Some(0)
    } else if t == "V"@ {
        Some(1)
    } else if t == "Z"@ {
        Some(2)
    } else if t == "N"@ {
        Some(3)
    } else if t == "EI"@ {
        Some(5)
    } else if t == "INT"@ || t == "IRQ"@ {
        Some(6)
    } else if t == "W"@ {
        Some(7)
    } else if t == "P"@ {
        Some(8)
    } else {
        None
    }
}

/// State of the scan of a bit list: the mask so far and the byte chosen by
/// the first bit (`Some(true)` for the high byte), an error, or an abnormal
/// stop.
pub enum BitScan {
    State(u8, Option<bool>),
    Fail(Seq<char>),
    Abort,
}

/// The number that the integer parser reads from `t`: one to nine decimal
/// digits read as their decimal value, the same after `-` as its negation
/// and after `--` as itself; other text as `parse_int` reads it.
pub open spec fn int_value(t: Seq<char>) -> Option<i32> {
    if all_decimal(t) && 1 <= t.len() <= 9 {
        Some(decimal_value(t) as i32)
    } else if 2 <= t.len() <= 10 && t[0] == '-' && all_decimal(t.drop_first()) {
        Some((-decimal_value(t.drop_first())) as i32)
    } else if 3 <= t.len() <= 11 && t[0] == '-' && t[1] == '-' && all_decimal(
        t.subrange(2, t.len() as int),
    ) {
        Some(decimal_value(t.subrange(2, t.len() as int)) as i32)
    } else {
        parse_int_i32(t)
    }
}

/// One token `t` (trimmed) of a bit list, scanned after state `(bits, high)`:
/// a flag name, or a number; a number that the integer parser overflows on
/// stops the scan.
pub open spec fn bit_step(bits: u8, high: Option<bool>, t: Seq<char>) -> BitScan {
    match flag_bit(t) {
        Some(v) => bit_value_step(bits, high, v),
        None => if negation_overflows(trim(t)) {
            BitScan::Abort
        } else {
            match int_value(t) {
                Some(v) => bit_value_step(bits, high, v as int),
                None => BitScan::Fail(msg_bit_value()),
            }
        },
    }
}

/// Bit number `v` of a bit list, scanned after state `(bits, high)`.
pub open spec fn bit_value_step(bits: u8, high: Option<bool>, v: int) -> BitScan {
    if v >= 16 {
        BitScan::Fail(msg_bit_range(v as nat))
    } else {
        let h = v >= 8;
        if high is Some && high != Some(h) {
            BitScan::Fail(msg_mixed_bytes())
        } else if v < 0 {
            BitScan::Abort
        } else {
            let shift: u8 = if h {
                (v - 8) as u8
            } else {
                v as u8
            };
            BitScan::State(bits | (1u8 << shift), Some(h))
        }
    }
}

/// The scan of the first `k` tokens of a bit list.
pub open spec fn bit_scan(toks: Seq<Seq<char>>, k: nat) -> BitScan
    decreases k,
{
    if k == 0 {
        BitScan::State(0, None)
    } else {
        match bit_scan(toks, (k - 1) as nat) {
            BitScan::State(bits, high) => bit_step(bits, high, trim(toks[k - 1])),
            other => other,
        }
    }
}

/// A comma-separated bit list contributes the byte selector (LTOL for the
/// low byte, HTOL for the high one) and the mask of the bits within it.
pub open spec fn bit_list_bits(s: Seq<char>) -> Parsed {
    let toks = split(s, ',');
    match bit_scan(toks, toks.len()) {
        BitScan::State(bits, Some(h)) => Parsed::Bits(
            sig(
                if h {
                    BaseCs::HTOL
                } else {
                    BaseCs::LTOL
                },
            ) | ((bits as u64) << 16u64),
        ),
        BitScan::State(_, None) => Parsed::Fail(msg_no_bits()),
        BitScan::Fail(m) => Parsed::Fail(m),
        BitScan::Abort => Parsed::Abort,
    }
}

// ---------------------------------------------------------------------------
// Conditional jumps

/// A condition `REG(bits) = 0|1` (after trimming) and its jump contribute
/// the tested register, the compared value, the bit list and the address.
pub open spec fn if_bits(cond: Seq<char>, goto: Seq<char>) -> Parsed {
    let c = trim(cond);
    match cond_parts(c) {
        None => Parsed::Fail(msg_if_condition()),
        Some((reg, one, j)) => {
            let head = sig(reg) | cs_bits(Cs::Comp(one));
            match bit_list_bits(c.subrange(3, j)) {
                Parsed::Bits(b) => or_bits(goto_bits(goto), head | b),
                other => other,
            }
        },
    }
}

// ---------------------------------------------------------------------------
// Operational microcommands

/// The signals of a commutator function name.
pub open spec fn comm_bits(f: Seq<char>) -> Option<u64> {
    if f == "LTOL"@ {
        Some(sig(BaseCs::LTOL))
    } else if f == "LTOH"@ {
        Some(sig(BaseCs::LTOH))
    } else if f == "HTOL"@ {
        Some(sig(BaseCs::HTOL))
    } else if f == "HTOH"@ {
        Some(sig(BaseCs::HTOH))
    } else if f == "SWAB"@ {
        Some(sig(BaseCs::LTOH) | sig(BaseCs::HTOL))
    } else if f == "EXTEND SIGN"@ || f == "SEXT"@ {
        Some(sig(BaseCs::SEXT))
    } else if f == "ROR"@ {
        Some(sig(BaseCs::SHRT) | sig(BaseCs::SHRF))
    } else if f == "ROL"@ {
        Some(sig(BaseCs::SHLT) | sig(BaseCs::SHL0))
    } else if f == "ASR"@ || f == "SHR"@ {
        Some(sig(BaseCs::SHRT))
    } else if f == "ASL"@ || f == "SHL"@ {
        Some(sig(BaseCs::SHLT))
    } else {
        None
    }
}

/// The read signal of a register name on one side of the ALU: `kind` 0 for
/// the right side (DR, CR, IP, SP), 1 for the left side (AC, BR, PS, IR),
/// 2 for a lone operand (any of the eight).
pub open spec fn read_reg(name: Seq<char>, kind: nat) -> Option<BaseCs> {
    if kind != 1 && name == "DR"@ {
        Some(BaseCs::RDDR)
    } else if kind != 1 && name == "CR"@ {
        Some(BaseCs::RDCR)
    } else if kind != 1 && name == "IP"@ {
        Some(BaseCs::RDIP)
    } else if kind != 1 && name == "SP"@ {
        Some(BaseCs::RDSP)
    } else if kind != 0 && name == "AC"@ {
        Some(BaseCs::RDAC)
    } else if kind != 0 && name == "BR"@ {
        Some(BaseCs::RDBR)
    } else if kind != 0 && name == "PS"@ {
        Some(BaseCs::RDPS)
    } else if kind != 0 && name == "IR"@ {
        Some(BaseCs::RDIR)
    } else {
        None
    }
}

/// The outcome of an ALU operand or expression: its bits and whether it
/// passes a whole register through the ALU, or an error.
pub enum OperandParsed {
    Read(u64, bool),
    Fail(Seq<char>),
}

/// The signal of a byte selector: `(0..7)` (1) LTOL, `(8..15)` (2) HTOL.
pub open spec fn sel_bits(suf: nat) -> u64 {
    if suf == 1 {
        sig(BaseCs::LTOL)
    } else if suf == 2 {
        sig(BaseCs::HTOL)
    } else {
        0u64
    }
}

/// An ALU operand `m` (after trimming): a register name of its side or `0`,
/// with an optional byte selector `(0..7)` (LTOL) or `(8..15)` (HTOL). A
/// whole register without selector is passed through the ALU.
pub open spec fn operand_bits(m: Seq<char>, kind: nat) -> OperandParsed {
    let s = trim(m);
    match reg_operand(s) {
        None => OperandParsed::Fail(msg_register(s)),
        Some((k, suf)) => {
            let name = s.take(k);
            let sel = sel_bits(suf);
            if name == "0"@ {
                OperandParsed::Read(sel, false)
            } else {
                match read_reg(name, kind) {
                    Some(b) => OperandParsed::Read(sel | sig(b), suf == 0),
                    None => OperandParsed::Fail(msg_operand(kind, name)),
                }
            }
        },
    }
}

/// The signals of the flags of an ALU expression.
pub open spec fn alu_flag_bits(sh: AluShape) -> u64 {
    (if sh.coml {
        sig(BaseCs::COML)
    } else {
        0u64
    }) | (if sh.comr {
        sig(BaseCs::COMR)
    } else {
        0u64
    }) | (if sh.sora {
        sig(BaseCs::SORA)
    } else {
        0u64
    }) | (if sh.pls1 {
        sig(BaseCs::PLS1)
    } else {
        0u64
    })
}

/// The operand `m` (after trimming) names a right ALU input: DR, CR, IP or
/// SP, perhaps with a byte selector.
pub open spec fn names_right_input(m: Seq<char>) -> bool {
    match reg_operand(trim(m)) {
        Some((k, _)) => read_reg(trim(m).take(k), 0) is Some,
        None => false,
    }
}

/// The shape by which the ALU expression `x` of shape `sh` is read: a lone
/// complemented operand that names a right input (`~DR`) complements the
/// right input (COMR), as the text of such a word writes it; any other `~`
/// before the first operand complements the left input (COML).
pub open spec fn read_shape(x: Seq<char>, sh: AluShape) -> AluShape {
    if sh.right is None && sh.coml && names_right_input(x.subrange(sh.left.0, sh.left.1)) {
        AluShape {
            coml: false,
            left: sh.left,
            sora: sh.sora,
            comr: true,
            right: sh.right,
            pls1: sh.pls1,
        }
    } else {
        sh
    }
}

/// An ALU expression `x` of shape `sh` contributes its flags and its
/// operands (the right one first).
pub open spec fn alu_bits(x: Seq<char>, sh: AluShape) -> OperandParsed {
    let flags = alu_flag_bits(read_shape(x, sh));
    let left = x.subrange(sh.left.0, sh.left.1);
    match sh.right {
        Some((lo, hi)) => match operand_bits(x.subrange(lo, hi), 0) {
            OperandParsed::Read(rb, rdo) => match operand_bits(left, 1) {
                OperandParsed::Read(lb, ldo) => OperandParsed::Read(flags | rb | lb, ldo || rdo),
                other => other,
            },
            other => other,
        },
        None => match operand_bits(left, 2) {
            OperandParsed::Read(lb, ldo) => OperandParsed::Read(flags | lb, ldo),
            other => other,
        },
    }
}

/// The signal of a written destination name.
pub open spec fn write_sig(t: Seq<char>) -> Option<BaseCs> {
    if t == "DR"@ {
        Some(BaseCs::WRDR)
    } else if t == "CR"@ {
        Some(BaseCs::WRCR)
    } else if t == "IP"@ {
        Some(BaseCs::WRIP)
    } else if t == "SP"@ {
        Some(BaseCs::WRSP)
    } else if t == "AC"@ {
        Some(BaseCs::WRAC)
    } else if t == "BR"@ {
        Some(BaseCs::WRBR)
    } else if t == "PS"@ {
        Some(BaseCs::WRPS)
    } else if t == "AR"@ {
        Some(BaseCs::WRAR)
    } else if t == "C"@ {
        Some(BaseCs::SETC)
    } else if t == "V"@ {
        Some(BaseCs::SETV)
    } else if t == "N"@ || t == "Z"@ {
        Some(BaseCs::STNZ)
    } else {
        None
    }
}

/// The first `k` comma-separated destinations (each trimmed).
pub open spec fn writes_scan(toks: Seq<Seq<char>>, k: nat) -> Parsed
    decreases k,
{
    if k == 0 {
        Parsed::Bits(0)
    } else {
        match writes_scan(toks, (k - 1) as nat) {
            Parsed::Bits(b) => {
                let t = trim(toks[k - 1]);
                match write_sig(t) {
                    Some(w) => Parsed::Bits(b | sig(w)),
                    None => Parsed::Fail(msg_write(t)),
                }
            },
            other => other,
        }
    }
}

/// A comma-separated list of destinations (after trimming).
pub open spec fn writes_bits(w: Seq<char>) -> Parsed {
    let toks = split(trim(w), ',');
    writes_scan(toks, toks.len())
}

/// The ALU expression `read` (after trimming, and inside its brackets when
/// it is `(x)`) and the destinations `write`; a whole register passed
/// through the ALU without a commutator function is moved by LTOL and HTOH.
pub open spec fn alu_write_bits(comm_do: bool, read: Seq<char>, write: Seq<char>) -> Parsed {
    let x = alu_subject(trim(read));
    match alu_shape(x) {
        None => Parsed::Fail(msg_alu()),
        Some(sh) => match alu_bits(x, sh) {
            OperandParsed::Fail(m) => Parsed::Fail(m),
            OperandParsed::Read(ab, alu_do) => {
                let pass = if alu_do && !comm_do {
                    sig(BaseCs::LTOL) | sig(BaseCs::HTOH)
                } else {
                    0u64
                };
                or_bits(writes_bits(write), ab | pass)
            },
        },
    }
}

/// A transfer `read → write`: an optional commutator function applied to
/// the ALU expression, and the destinations.
pub open spec fn transfer_bits(read: Seq<char>, write: Seq<char>) -> Parsed {
    let r = trim(read);
    match comm_split(r) {
        Some((f, lo, hi)) => match comm_bits(f) {
            None => Parsed::Fail(msg_commutator(f)),
            Some(cb) => or_bits(alu_write_bits(true, r.subrange(lo, hi), write), cb),
        },
        None => alu_write_bits(false, read, write),
    }
}

/// One `;`-separated action (after trimming): a single action, or a transfer.
pub open spec fn action_bits(seg: Seq<char>) -> Parsed {
    let t = trim(seg);
    match single_action(t) {
        Some(b) => Parsed::Bits(sig(b)),
        None => match transfer_split(t) {
            Some(p) => transfer_bits(t.take(p), t.subrange(p + arrow_len(t, p), t.len() as int)),
            None => Parsed::Fail(msg_omc()),
        },
    }
}

/// The first `k` actions.
pub open spec fn actions_scan(segs: Seq<Seq<char>>, k: nat) -> Parsed
    decreases k,
{
    if k == 0 {
        Parsed::Bits(0)
    } else {
        match actions_scan(segs, (k - 1) as nat) {
            Parsed::Bits(b) => or_bits(action_bits(segs[k - 1]), b),
            other => other,
        }
    }
}

/// An operational microcommand: its non-empty `;`-separated actions.
pub open spec fn omc_bits(s: Seq<char>) -> Parsed {
    let segs = drop_empty(split(s, ';'));
    actions_scan(segs, segs.len())
}

// ---------------------------------------------------------------------------
// What a failed read leaves set

/// The bits that reading a condition and its jump sets before it fails: the
/// tested register and compared value once the condition matches, and the
/// bit list once that is read.
pub open spec fn if_partial(cond: Seq<char>, goto: Seq<char>) -> u64 {
    let c = trim(cond);
    match cond_parts(c) {
        None => 0u64,
        Some((reg, one, j)) => {
            let head = sig(reg) | cs_bits(Cs::Comp(one));
            match bit_list_bits(c.subrange(3, j)) {
                Parsed::Bits(b) => head | b,
                _ => head,
            }
        },
    }
}

/// The bits that reading an ALU operand sets before it fails: its byte
/// selector, once the operand has the shape of one.
pub open spec fn operand_partial(m: Seq<char>) -> u64 {
    match reg_operand(trim(m)) {
        None => 0u64,
        Some((_, suf)) => sel_bits(suf),
    }
}

/// The bits that reading the operands of the ALU expression `x` of shape
/// `sh` sets before one of them fails: the flags, the right operand once it
/// is read, and what the failing operand set.
pub open spec fn alu_partial(x: Seq<char>, sh: AluShape) -> u64 {
    let fl = alu_flag_bits(read_shape(x, sh));
    let left = x.subrange(sh.left.0, sh.left.1);
    match sh.right {
        Some((lo, hi)) => {
            let right = x.subrange(lo, hi);
            match operand_bits(right, 0) {
                OperandParsed::Read(rb, _) => (fl | rb) | operand_partial(left),
                OperandParsed::Fail(_) => fl | operand_partial(right),
            }
        },
        None => fl | operand_partial(left),
    }
}

/// The bits of the first `k` destinations up to the first that fails.
pub open spec fn writes_acc(toks: Seq<Seq<char>>, k: nat) -> u64
    decreases k,
{
    if k == 0 {
        0u64
    } else {
        match writes_scan(toks, k) {
            Parsed::Bits(b) => b,
            _ => writes_acc(toks, (k - 1) as nat),
        }
    }
}

/// The bits that reading a list of destinations sets before it fails.
pub open spec fn writes_partial(w: Seq<char>) -> u64 {
    let toks = split(trim(w), ',');
    writes_acc(toks, toks.len())
}

/// The bits that reading an ALU expression and its destinations sets before
/// it fails.
pub open spec fn alu_write_partial(comm_do: bool, read: Seq<char>, write: Seq<char>) -> u64 {
    let x = alu_subject(trim(read));
    match alu_shape(x) {
        None => 0u64,
        Some(sh) => match alu_bits(x, sh) {
            OperandParsed::Fail(_) => alu_partial(x, sh),
            OperandParsed::Read(ab, alu_do) => {
                let pass = if alu_do && !comm_do {
                    sig(BaseCs::LTOL) | sig(BaseCs::HTOH)
                } else {
                    0u64
                };
                (ab | pass) | writes_partial(write)
            },
        },
    }
}

/// The bits that reading a transfer sets before it fails.
pub open spec fn transfer_partial(read: Seq<char>, write: Seq<char>) -> u64 {
    let r = trim(read);
    match comm_split(r) {
        Some((f, lo, hi)) => match comm_bits(f) {
            None => 0u64,
            Some(cb) => cb | alu_write_partial(true, r.subrange(lo, hi), write),
        },
        None => alu_write_partial(false, read, write),
    }
}

/// The bits that reading one action sets before it fails.
pub open spec fn action_partial(seg: Seq<char>) -> u64 {
    let t = trim(seg);
    match single_action(t) {
        Some(_) => 0u64,
        None => match transfer_split(t) {
            Some(p) => transfer_partial(t.take(p), t.subrange(p + arrow_len(t, p), t.len() as int)),
            None => 0u64,
        },
    }
}

/// The bits of the first `k` actions up to the first that fails, with what
/// that one set before it failed.
pub open spec fn actions_acc(segs: Seq<Seq<char>>, k: nat) -> u64
    decreases k,
{
    if k == 0 {
        0u64
    } else {
        match actions_scan(segs, k) {
            Parsed::Bits(b) => b,
            _ => match actions_scan(segs, (k - 1) as nat) {
                Parsed::Bits(b) => b | action_partial(segs[k - 1]),
                _ => actions_acc(segs, (k - 1) as nat),
            },
        }
    }
}

/// The bits that reading an operational microcommand sets before it fails.
pub open spec fn omc_partial(s: Seq<char>) -> u64 {
    let segs = drop_empty(split(s, ';'));
    actions_acc(segs, segs.len())
}

/// State of the parse of a microcommand: the word built so far, and the
/// byte range of the piece of text read last, within the text it was cut
/// from.
pub struct ParseState {
    pub cmd: u64,
    pub range: std::ops::Range<usize>,
}

// ---------------------------------------------------------------------------
// Whole microcommands

/// The bits of the unconditional jump: control type, RDPS, LTOL, mask 0b10000.
pub open spec fn goto_head() -> u64 {
    cs_bits(Cs::Type(true)) | sig(BaseCs::RDPS) | sig(BaseCs::LTOL) | cs_bits(Cs::Bit(0x10))
}

/// Where reading a condition and its jump leaves the range of the piece
/// read last, given where the condition and the jump begin (in bytes):
/// the condition when it does not match, the bit list (within the trimmed
/// condition) when that fails, else the jump.
pub open spec fn if_range(cond: Seq<char>, goto: Seq<char>, cond_at: int, goto_at: int) -> (int, int) {
    let c = trim(cond);
    match cond_parts(c) {
        None => (cond_at, cond_at + utf8_len(cond)),
        Some((_, _, j)) => match bit_list_bits(c.subrange(3, j)) {
            Parsed::Bits(_) => (goto_at, goto_at + utf8_len(goto)),
            _ => (utf8_len(c.take(3)) as int, (utf8_len(c.take(3)) + utf8_len(c.subrange(3, j))) as int),
        },
    }
}

/// Where reading upper-case microcommand text `u` leaves the range of the
/// piece read last (in bytes), starting from `(start, end)`: for a
/// conditional jump as `if_range` says, within the text after `IF`; for a
/// jump, the whole text; else unchanged.
pub open spec fn parse_range(u: Seq<char>, start: int, end: int) -> (int, int) {
    if u.len() > 2 && lit_at(u, 0, "IF"@) && no_newline(u) {
        let rest = u.subrange(2, u.len() as int);
        let i = last_then(rest, rest.len() - 1);
        if i >= 1 {
            if_range(rest.take(i), rest.subrange(i + 4, rest.len() as int), 0, utf8_len(rest.take(i + 4)) as int)
        } else {
            (start, end)
        }
    } else if u.len() > 4 && lit_at(u, 0, "GOTO"@) && no_newline(u) {
        (0, utf8_len(u) as int)
    } else {
        (start, end)
    }
}

/// The bits that reading upper-case microcommand text `u` sets before it
/// fails: the control kind of a conditional jump and what its condition
/// set; the whole head of an unconditional jump; what the actions set.
pub open spec fn parse_partial(u: Seq<char>) -> u64 {
    if u.len() > 2 && lit_at(u, 0, "IF"@) && no_newline(u) {
        let rest = u.subrange(2, u.len() as int);
        let i = last_then(rest, rest.len() - 1);
        if i >= 1 {
            cs_bits(Cs::Type(true)) | if_partial(rest.take(i), rest.subrange(i + 4, rest.len() as int))
        } else {
            cs_bits(Cs::Type(true))
        }
    } else if u.len() > 4 && lit_at(u, 0, "GOTO"@) && no_newline(u) {
        goto_head()
    } else {
        omc_partial(u)
    }
}

/// The word of upper-case microcommand text `u`: `IF cond THEN jump` (split
/// at the last `THEN`), `GOTO label @ XX`, or operational actions.
pub open spec fn spec_parse(u: Seq<char>) -> Parsed {
    if u.len() > 2 && lit_at(u, 0, "IF"@) && no_newline(u) {
        let rest = u.subrange(2, u.len() as int);
        let i = last_then(rest, rest.len() - 1);
        if i >= 1 {
            or_bits(
                if_bits(rest.take(i), rest.subrange(i + 4, rest.len() as int)),
                cs_bits(Cs::Type(true)),
            )
        } else {
            Parsed::Fail(msg_if_structure())
        }
    } else if u.len() > 4 && lit_at(u, 0, "GOTO"@) && no_newline(u) {
        or_bits(goto_bits(u), goto_head())
    } else {
        omc_bits(u)
    }
}


// ---------------------------------------------------------------------------
// The parser

/// Why parsing stopped: an error message, or an input on which parsing
/// cannot go on (a negative bit number, or one that the integer parser
/// cannot negate).
pub enum ParseStop {
    Message(Vec<char>),
    Abort,
}

/// `r` and the word change from `old` to `new` are what `p` describes; where
/// reading stops, the word holds the bits `part` that were set before.
pub open spec fn applied(old: u64, new: u64, r: Result<(), ParseStop>, p: Parsed, part: u64) -> bool {
    match p {
        Parsed::Bits(b) => r is Ok && new == old | b,
        Parsed::Fail(m) => r matches Err(ParseStop::Message(e)) && e@ == m && new == old | part,
        Parsed::Abort => r matches Err(ParseStop::Abort) && new == old | part,
    }
}

/// `Err(Message(prefix `s`))`.
fn quoted_stop(prefix: &str, s: &[char]) -> (r: ParseStop)
    ensures
        r matches ParseStop::Message(e) && e@ == quoted(prefix@, s@),
{
    let mut e: Vec<char> = Vec::new();
    push_str(&mut e, prefix);
    push_str(&mut e, "`");
    push_slice(&mut e, s);
    push_str(&mut e, "`");
    assert(e@ =~= quoted(prefix@, s@));
    ParseStop::Message(e)
}

/// `Message(msg)`.
fn stop(msg: &str) -> (r: ParseStop)
    ensures
        r matches ParseStop::Message(e) && e@ == msg@,
{
    ParseStop::Message(chars_of(msg))
}

proof fn lemma_or_assoc(x: u64, a: u64, b: u64)
    ensures
        (x | a) | b == x | (a | b),
{
    assert((x | a) | b == x | (a | b)) by (bit_vector);
}

proof fn lemma_or_zero(x: u64)
    ensures
        x | 0u64 == x,
{
    assert(x | 0u64 == x) by (bit_vector);
}

proof fn lemma_or_zero_left(x: u64)
    ensures
        0u64 | x == x,
{
    assert(0u64 | x == x) by (bit_vector);
}

proof fn lemma_bit_scan_stops(toks: Seq<Seq<char>>, k: nat, n: nat)
    requires
        k <= n,
        !(bit_scan(toks, k) is State),
    ensures
        bit_scan(toks, n) == bit_scan(toks, k),
    decreases n - k,
{
    if n > k {
        lemma_bit_scan_stops(toks, k, (n - 1) as nat);
    }
}

proof fn lemma_writes_scan_stops(toks: Seq<Seq<char>>, k: nat, n: nat)
    requires
        k <= n,
        !(writes_scan(toks, k) is Bits),
    ensures
        writes_scan(toks, n) == writes_scan(toks, k),
    decreases n - k,
{
    if n > k {
        lemma_writes_scan_stops(toks, k, (n - 1) as nat);
    }
}

proof fn lemma_actions_scan_stops(segs: Seq<Seq<char>>, k: nat, n: nat)
    requires
        k <= n,
        !(actions_scan(segs, k) is Bits),
    ensures
        actions_scan(segs, n) == actions_scan(segs, k),
    decreases n - k,
{
    if n > k {
        lemma_actions_scan_stops(segs, k, (n - 1) as nat);
    }
}

proof fn lemma_writes_acc(toks: Seq<Seq<char>>, k: nat, n: nat, b: u64)
    requires
        k < n,
        writes_scan(toks, k) == Parsed::Bits(b),
        !(writes_scan(toks, k + 1) is Bits),
    ensures
        writes_acc(toks, n) == b,
    decreases n,
{
    if n > k + 1 {
        lemma_writes_scan_stops(toks, k + 1, (n - 1) as nat);
        lemma_writes_scan_stops(toks, k + 1, n);
        lemma_writes_acc(toks, k, (n - 1) as nat, b);
        assert(writes_acc(toks, n) == writes_acc(toks, (n - 1) as nat));
    } else {
        assert(writes_acc(toks, k + 1) == writes_acc(toks, k));
        if k == 0 {
            assert(writes_scan(toks, 0) == Parsed::Bits(0u64));
        } else {
            assert(writes_acc(toks, k) == b);
        }
    }
}

proof fn lemma_actions_acc(segs: Seq<Seq<char>>, k: nat, n: nat, b: u64)
    requires
        k < n,
        actions_scan(segs, k) == Parsed::Bits(b),
        !(actions_scan(segs, k + 1) is Bits),
    ensures
        actions_acc(segs, n) == b | action_partial(segs[k as int]),
    decreases n,
{
    if n > k + 1 {
        lemma_actions_scan_stops(segs, k + 1, (n - 1) as nat);
        lemma_actions_scan_stops(segs, k + 1, n);
        lemma_actions_acc(segs, k, (n - 1) as nat, b);
    }
}

/// The bit of a flag name.
fn match_flag(t: &[char]) -> (r: Option<u8>)
    ensures
        match flag_bit(t@) {
            Some(v) => r == Some(v as u8) && 0 <= v <= 8,
            None => r is None,
        },
{
    if eq_str(t, "C") {
        Some(0)
    } else if eq_str(t, "V") {
        Some(1)
    } else if eq_str(t, "Z") {
        Some(2)
    } else if eq_str(t, "N") {
        Some(3)
    } else if eq_str(t, "EI") {
        Some(5)
    } else if eq_str(t, "INT") || eq_str(t, "IRQ") {
        Some(6)
    } else if eq_str(t, "W") {
        Some(7)
    } else if eq_str(t, "P") {
        Some(8)
    } else {
        None
    }
}

/// The value of `c` as a digit of `radix`.
fn digit_value(c: char, radix: u32) -> (r: Option<u32>)
    requires
        2 <= radix <= 16,
    ensures
        match digit_of(c, radix as nat) {
            Some(v) => r == Some(v as u32),
            None => r is None,
        },
{
    let v: u32 = if '0' <= c && c <= '9' {
        (c as u32) - ('0' as u32)
    } else if 'a' <= c && c <= 'z' {
        (c as u32) - ('a' as u32) + 10
    } else if 'A' <= c && c <= 'Z' {
        (c as u32) - ('A' as u32) + 10
    } else {
        36
    };
    if v < radix {
        Some(v)
    } else {
        None
    }
}

/// Whether the integer parser overflows on the trimmed text `t`.
fn overflows_on_negation(t: &[char]) -> (r: bool)
    ensures
        r == negation_overflows(t@),
{
    if t.len() < 1 || t[0] != '-' {
        return false;
    }
    if t.len() >= 2 && t[1] == '_' {
        return false;
    }
    let rest = &t[1..t.len()];
    assert(rest@ =~= t@.drop_first());
    let n = rest.len();
    let (radix, p): (u32, usize) = if n >= 2 && rest[0] == '0' && (rest[1] == 'x' || rest[1] == 'X') {
        (16, 2)
    } else if n >= 2 && rest[0] == '0' && (rest[1] == 'b' || rest[1] == 'B') {
        (2, 2)
    } else if n >= 2 && rest[0] == '0' && (rest[1] == 'o' || rest[1] == 'O') {
        (8, 2)
    } else {
        (10, 0)
    };
    assert(radix_prefix(rest@) == (radix as nat, p as int));
    let mut d: Vec<char> = Vec::new();
    let mut i: usize = p;
    assert(rest@.subrange(p as int, p as int) =~= Seq::<char>::empty());
    while i < n
        invariant
            p <= i <= n == rest@.len(),
            d@ == drop_underscores(rest@.subrange(p as int, i as int)),
        decreases n - i,
    {
        assert(rest@.subrange(p as int, i + 1).drop_last() =~= rest@.subrange(p as int, i as int));
        if rest[i] != '_' {
            d.push(rest[i]);
        }
        i = i + 1;
    }
    let ghost ds = d@;
    if d.len() < 2 || d[0] != '-' {
        return false;
    }
    let ghost digits = ds.drop_first();
    assert(negation_overflows(t@) == (all_digits(digits, radix as nat) && radix_value(digits, radix as nat)
        == 0x8000_0000));
    let mut acc: u64 = 0;
    let mut j: usize = 1;
    assert(ds.subrange(1, 1) =~= Seq::<char>::empty());
    while j < d.len()
        invariant
            1 <= j <= d@.len(),
            ds == d@,
            digits == ds.drop_first(),
            negation_overflows(t@) == (all_digits(digits, radix as nat) && radix_value(digits, radix as nat)
                == 0x8000_0000),
            2 <= radix <= 16,
            all_digits(ds.subrange(1, j as int), radix as nat),
            acc <= 0x8000_0001,
            radix_value(ds.subrange(1, j as int), radix as nat) <= 0x8000_0000 ==> acc == radix_value(
                ds.subrange(1, j as int),
                radix as nat,
            ),
            radix_value(ds.subrange(1, j as int), radix as nat) > 0x8000_0000 ==> acc == 0x8000_0001,
        decreases d@.len() - j,
    {
        let ghost pre = ds.subrange(1, j as int);
        let ghost next = ds.subrange(1, j + 1);
        assert(next.drop_last() =~= pre);
        assert(next.last() == ds[j as int]);
        match digit_value(d[j], radix) {
            None => {
                assert(digits[j - 1] == ds[j as int]);
                assert(digit_of(digits[j - 1], radix as nat) is None);
                assert(!all_digits(digits, radix as nat));
                return false;
            },
            Some(v) => {
                let ghost pv = radix_value(pre, radix as nat);
                assert(radix_value(next, radix as nat) == pv * radix + v);
                assert(pv * radix >= pv) by (nonlinear_arith)
                    requires
                        radix >= 2,
                ;
                assert(acc * (radix as u64) <= 0x8000_0001 * 16) by (nonlinear_arith)
                    requires
                        acc <= 0x8000_0001,
                        radix <= 16,
                ;
                let x = acc * (radix as u64) + (v as u64);
                if x > 0x8000_0000 {
                    proof {
                        if pv <= 0x8000_0000 {
                            assert(acc == pv);
                        } else {
                            assert(pv * radix + v > 0x8000_0000);
                        }
                    }
                    acc = 0x8000_0001;
                } else {
                    proof {
                        if pv > 0x8000_0000 {
                            assert(acc * radix >= acc) by (nonlinear_arith)
                                requires
                                    radix >= 2,
                            ;
                        }
                    }
                    acc = x;
                }
                proof {
                    assert forall|k: int| 0 <= k < next.len() implies #[trigger] digit_of(next[k], radix as nat) is Some by {
                        if k < pre.len() {
                            assert(next[k] == pre[k]);
                        }
                    }
                }
            },
        }
        j = j + 1;
    }
    assert(ds.subrange(1, ds.len() as int) =~= digits);
    acc == 0x8000_0000
}

/// Bit number `v` scanned after state `(bits, high)`.
pub fn bit_value(bits: u8, high: Option<bool>, v: i32) -> (r: Result<(u8, bool), ParseStop>)
    ensures
        match bit_value_step(bits, high, v as int) {
            BitScan::State(b, h) => r matches Ok((rb, rh)) && rb == b && h == Some(rh),
            BitScan::Fail(m) => r matches Err(ParseStop::Message(e)) && e@ == m,
            BitScan::Abort => r matches Err(ParseStop::Abort),
        },
{
    if v >= 16 {
        let mut e: Vec<char> = Vec::new();
        push_str(&mut e, "can only use bits in range [0, 15], but found ");
        push_str(&mut e, "`");
        push_dec(&mut e, v as u32);
        push_str(&mut e, "`");
        assert(e@ =~= msg_bit_range(v as nat));
        return Err(ParseStop::Message(e));
    }
    let h = v >= 8;
    match high {
        Some(old) => {
            if old != h {
                return Err(stop("cannot activate lower and upper bytes at the same time"));
            }
        },
        None => {},
    }
    if v < 0 {
        return Err(ParseStop::Abort);
    }
    let shift: u8 = if h {
        (v - 8) as u8
    } else {
        v as u8
    };
    Ok((bits | (1u8 << shift), h))
}

/// One trimmed token `t` of a bit list, scanned after state `(bits, high)`.
fn bit_token(bits: u8, high: Option<bool>, t: &[char]) -> (r: Result<(u8, bool), ParseStop>)
    ensures
        match bit_step(bits, high, t@) {
            BitScan::State(b, h) => r matches Ok((rb, rh)) && rb == b && h == Some(rh),
            BitScan::Fail(m) => r matches Err(ParseStop::Message(e)) && e@ == m,
            BitScan::Abort => r matches Err(ParseStop::Abort),
        },
{
    match match_flag(t) {
        Some(v) => {
            assert(flag_bit(t@) == Some(v as int));
            bit_value(bits, high, v as i32)
        },
        None => {
            let tt = trim_chars(t);
            if overflows_on_negation(tt) {
                Err(ParseStop::Abort)
            } else {
                let st = string_of(t);
                match parse_i32(st.as_str()) {
                    Some(v) => bit_value(bits, high, v),
                    None => Err(stop("unable to parse bit value")),
                }
            }
        },
    }
}

impl ParseState {
    /// A state with no signal set.
    pub fn new() -> (s: ParseState)
        ensures
            s.cmd == 0,
            s.range.start == 0 && s.range.end == 0,
    {
        ParseState { cmd: 0, range: std::ops::Range { start: 0, end: 0 } }
    }

    /// Sets the bits of `cs` in the word.
    pub fn add_state(&mut self, cs: Cs)
        ensures
            final(self).range == old(self).range,
            final(self).cmd == old(self).cmd | cs_bits(cs),
    {
        match cs {
            Cs::Base(base) => base.update_state(&mut self.cmd),
            Cs::Bit(bit) => self.cmd = self.cmd | ((bit as u64) << 16),
            Cs::Addr(addr) => self.cmd = self.cmd | ((addr as u64) << 24),
            Cs::Comp(comp) => self.cmd = self.cmd | ((if comp { 1u64 } else { 0u64 }) << 32),
            Cs::Type(mc_type) => self.cmd = self.cmd | ((if mc_type { 1u64 } else { 0u64 }) << 39),
        }
    }

    /// Reads the jump `goto`.
    fn parse_goto(&mut self, goto: &[char], at: usize) -> (r: Result<(), ParseStop>)
        requires
            at + utf8_len(goto@) <= usize::MAX,
        ensures
            applied(old(self).cmd, final(self).cmd, r, goto_bits(goto@), 0u64),
            final(self).range.start == at,
            final(self).range.end == at + utf8_len(goto@),
    {
        let end = at + byte_len(goto);
        self.range = std::ops::Range { start: at, end };
        let t = trim_chars(goto);
        match match_goto(t) {
            Some(addr) => {
                self.add_state(Cs::Addr(addr));
                Ok(())
            },
            None => {
                proof {
                    lemma_or_zero(old(self).cmd);
                }
                Err(stop("invalid goto body"))
            },
        }
    }

    /// Reads the bit list `bit`.
    fn parse_bit(&mut self, bit: &[char], at: usize) -> (r: Result<(), ParseStop>)
        requires
            at + utf8_len(bit@) <= usize::MAX,
        ensures
            applied(old(self).cmd, final(self).cmd, r, bit_list_bits(bit@), 0u64),
            final(self).range.start == at,
            final(self).range.end == at + utf8_len(bit@),
    {
        proof {
            lemma_or_zero(old(self).cmd);
        }
        let end = at + byte_len(bit);
        self.range = std::ops::Range { start: at, end };
        let toks = split_chars(bit, ',');
        let ghost ts = split(bit@, ',');
        assert(views(toks@) =~= ts);
        let mut bits: u8 = 0;
        let mut comm: Option<bool> = None;
        let mut k: usize = 0;
        while k < toks.len()
            invariant
                k <= toks@.len() == ts.len(),
                ts == split(bit@, ','),
                forall|m: int| 0 <= m < toks@.len() ==> (#[trigger] toks@[m])@ == ts[m],
                bit_scan(ts, k as nat) == BitScan::State(bits, comm),
                self.cmd == old(self).cmd,
                old(self).cmd | 0u64 == old(self).cmd,
                self.range.start == at,
                self.range.end == at + utf8_len(bit@),
            decreases toks@.len() - k,
        {
            let t = trim_chars(toks[k].as_slice());
            assert(t@ == trim(ts[k as int]));
            assert(bit_scan(ts, (k + 1) as nat) == bit_step(bits, comm, t@));
            let step = bit_token(bits, comm, t);
            match step {
                Ok((b, h)) => {
                    bits = b;
                    comm = Some(h);
                },
                Err(e) => {
                    proof {
                        lemma_bit_scan_stops(ts, (k + 1) as nat, ts.len());
                    }
                    return Err(e);
                },
            }
            k = k + 1;
        }
        match comm {
            Some(h) => {
                self.add_state(Cs::Base(if h { BaseCs::HTOL } else { BaseCs::LTOL }));
                let ghost mid = self.cmd;
                self.add_state(Cs::Bit(bits));
                proof {
                    lemma_or_assoc(old(self).cmd, sig(if h { BaseCs::HTOL } else { BaseCs::LTOL }), (bits as u64) << 16u64);
                }
                Ok(())
            },
            None => Err(stop("no bits was selected")),
        }
    }

    /// Reads the condition `condition` and the jump `goto`.
    fn parse_if(&mut self, condition: &[char], goto: &[char], cond_at: usize, goto_at: usize) -> (r: Result<
        (),
        ParseStop,
    >)
        requires
            cond_at + utf8_len(condition@) <= usize::MAX,
            goto_at + utf8_len(goto@) <= usize::MAX,
        ensures
            applied(old(self).cmd, final(self).cmd, r, if_bits(condition@, goto@), if_partial(condition@, goto@)),
            final(self).range.start == if_range(condition@, goto@, cond_at as int, goto_at as int).0,
            final(self).range.end == if_range(condition@, goto@, cond_at as int, goto_at as int).1,
    {
        let end = cond_at + byte_len(condition);
        self.range = std::ops::Range { start: cond_at, end };
        let (lo, hi) = trim_bounds(condition);
        let c = &condition[lo..hi];
        assert(c@ =~= condition@.subrange(lo as int, hi as int));
        proof {
            lemma_utf8_piece(condition@, lo as int, hi as int);
        }
        proof {
            lemma_or_zero(old(self).cmd);
        }
        match match_cond(c) {
            None => Err(stop("unable to parse if condition")),
            Some((reg, one, j)) => {
                self.add_state(Cs::Base(reg));
                self.add_state(Cs::Comp(one));
                let ghost c2 = self.cmd;
                proof {
                    lemma_or_assoc(old(self).cmd, sig(reg), cs_bits(Cs::Comp(one)));
                }
                let bl = &c[3..j];
                assert(bl@ =~= c@.subrange(3, j as int));
                let head = &c[0..3];
                assert(head@ =~= c@.take(3));
                proof {
                    lemma_utf8_piece(c@, 3, j as int);
                }
                let bit_at = byte_len(head);
                proof {
                    lemma_or_zero(c2);
                }
                match self.parse_bit(bl, bit_at) {
                    Err(e) => Err(e),
                    Ok(()) => {
                        let ghost c3 = self.cmd;
                        let r = self.parse_goto(goto, goto_at);
                        proof {
                            if r is Err {
                                let b = bit_list_bits(c@.subrange(3, j as int))->Bits_0;
                                let h = sig(reg) | cs_bits(Cs::Comp(one));
                                let o = old(self).cmd;
                                let c4 = self.cmd;
                                assert(c4 == o | (h | b)) by (bit_vector)
                                    requires
                                        c2 == o | h,
                                        c3 == c2 | b,
                                        c4 == c3 | 0u64,
                                ;
                            }
                            if r is Ok {
                                let b = bit_list_bits(c@.subrange(3, j as int))->Bits_0;
                                let g = goto_bits(goto@)->Bits_0;
                                let h = sig(reg) | cs_bits(Cs::Comp(one));
                                let o = old(self).cmd;
                                let c4 = self.cmd;
                                assert(c4 == o | ((h | b) | g)) by (bit_vector)
                                    requires
                                        c2 == o | h,
                                        c3 == c2 | b,
                                        c4 == c3 | g,
                                ;
                            }
                        }
                        r
                    },
                }
            },
        }
    }
}


/// The signals of a commutator function name.
fn comm_signals(f: &[char]) -> (r: Option<u64>)
    ensures
        r == comm_bits(f@),
{
    let ltol = 1u64 << BaseCs::LTOL.index();
    let ltoh = 1u64 << BaseCs::LTOH.index();
    let htol = 1u64 << BaseCs::HTOL.index();
    let htoh = 1u64 << BaseCs::HTOH.index();
    let sext = 1u64 << BaseCs::SEXT.index();
    let shlt = 1u64 << BaseCs::SHLT.index();
    let shl0 = 1u64 << BaseCs::SHL0.index();
    let shrt = 1u64 << BaseCs::SHRT.index();
    let shrf = 1u64 << BaseCs::SHRF.index();
    if eq_str(f, "LTOL") {
        Some(ltol)
    } else if eq_str(f, "LTOH") {
        Some(ltoh)
    } else if eq_str(f, "HTOL") {
        Some(htol)
    } else if eq_str(f, "HTOH") {
        Some(htoh)
    } else if eq_str(f, "SWAB") {
        Some(ltoh | htol)
    } else if eq_str(f, "EXTEND SIGN") || eq_str(f, "SEXT") {
        Some(sext)
    } else if eq_str(f, "ROR") {
        Some(shrt | shrf)
    } else if eq_str(f, "ROL") {
        Some(shlt | shl0)
    } else if eq_str(f, "ASR") || eq_str(f, "SHR") {
        Some(shrt)
    } else if eq_str(f, "ASL") || eq_str(f, "SHL") {
        Some(shlt)
    } else {
        None
    }
}

/// The read signal of a register name on one side of the ALU.
fn read_reg_of(name: &[char], kind: u8) -> (r: Option<BaseCs>)
    ensures
        r == read_reg(name@, kind as nat),
{
    if kind != 1 && eq_str(name, "DR") {
        Some(BaseCs::RDDR)
    } else if kind != 1 && eq_str(name, "CR") {
        Some(BaseCs::RDCR)
    } else if kind != 1 && eq_str(name, "IP") {
        Some(BaseCs::RDIP)
    } else if kind != 1 && eq_str(name, "SP") {
        Some(BaseCs::RDSP)
    } else if kind != 0 && eq_str(name, "AC") {
        Some(BaseCs::RDAC)
    } else if kind != 0 && eq_str(name, "BR") {
        Some(BaseCs::RDBR)
    } else if kind != 0 && eq_str(name, "PS") {
        Some(BaseCs::RDPS)
    } else if kind != 0 && eq_str(name, "IR") {
        Some(BaseCs::RDIR)
    } else {
        None
    }
}

/// The signal of a written destination name.
fn write_sig_of(t: &[char]) -> (r: Option<BaseCs>)
    ensures
        r == write_sig(t@),
{
    if eq_str(t, "DR") {
        Some(BaseCs::WRDR)
    } else if eq_str(t, "CR") {
        Some(BaseCs::WRCR)
    } else if eq_str(t, "IP") {
        Some(BaseCs::WRIP)
    } else if eq_str(t, "SP") {
        Some(BaseCs::WRSP)
    } else if eq_str(t, "AC") {
        Some(BaseCs::WRAC)
    } else if eq_str(t, "BR") {
        Some(BaseCs::WRBR)
    } else if eq_str(t, "PS") {
        Some(BaseCs::WRPS)
    } else if eq_str(t, "AR") {
        Some(BaseCs::WRAR)
    } else if eq_str(t, "C") {
        Some(BaseCs::SETC)
    } else if eq_str(t, "V") {
        Some(BaseCs::SETV)
    } else if eq_str(t, "N") || eq_str(t, "Z") {
        Some(BaseCs::STNZ)
    } else {
        None
    }
}

/// Whether the operand `m` names a right ALU input.
fn names_right(m: &[char]) -> (r: bool)
    ensures
        r == names_right_input(m@),
{
    let s = trim_chars(m);
    match match_reg(s) {
        None => false,
        Some((k, _)) => {
            let name = &s[0..k];
            assert(name@ =~= s@.take(k as int));
            read_reg_of(name, 0).is_some()
        },
    }
}

/// The ALU expression of `a`: inside the brackets of `(x)` where that is
/// one, else `a` itself; with its parts.
fn alu_target<'a>(a: &'a [char]) -> (r: Option<(&'a [char], AluMatch)>)
    ensures
        match alu_shape(alu_subject(a@)) {
            Some(sh) => r matches Some((x, m)) && x@ == alu_subject(a@) && m.shape() == sh
                && m.left.0 <= m.left.1 <= x@.len() && (m.right matches Some((lo, hi)) ==> lo
                <= hi <= x@.len()),
            None => r is None,
        },
{
    let n = a.len();
    if n >= 2 && a[0] == '(' && a[n - 1] == ')' {
        let inner = &a[1..n - 1];
        assert(inner@ =~= a@.subrange(1, a@.len() - 1));
        match match_alu(inner) {
            Some(m) => {
                return Some((inner, m));
            },
            None => {},
        }
    }
    match match_alu(a) {
        Some(m) => Some((a, m)),
        None => None,
    }
}

impl ParseState {
    /// Adds `bits` to the word.
    fn add_bits(&mut self, bits: u64)
        ensures
            final(self).range == old(self).range,
            final(self).cmd == old(self).cmd | bits,
    {
        self.cmd = self.cmd | bits;
    }

    /// Reads a register operand: sets its byte selector, and gives whether
    /// it is a whole register and its name.
    fn sub(&mut self, mtch: &[char]) -> (r: Result<(bool, Vec<char>), ParseStop>)
        ensures
            final(self).range == old(self).range,
            match reg_operand(trim(mtch@)) {
                None => r matches Err(ParseStop::Message(e)) && e@ == msg_register(trim(mtch@))
                    && final(self).cmd == old(self).cmd,
                Some((k, suf)) => r matches Ok((d, name)) && d == (suf == 0) && name@ == trim(
                    mtch@,
                ).take(k) && final(self).cmd == old(self).cmd | sel_bits(suf),
            },
    {
        let s = trim_chars(mtch);
        match match_reg(s) {
            None => Err(quoted_stop("unable to parse register ", s)),
            Some((k, kind)) => {
                let alu_do = if kind == 1 {
                    self.add_state(Cs::Base(BaseCs::LTOL));
                    false
                } else if kind == 2 {
                    self.add_state(Cs::Base(BaseCs::HTOL));
                    false
                } else {
                    proof {
                        lemma_or_zero(old(self).cmd);
                    }
                    true
                };
                let mut name: Vec<char> = Vec::new();
                push_slice(&mut name, &s[0..k]);
                assert(name@ =~= s@.take(k as int));
                Ok((alu_do, name))
            },
        }
    }

    /// Reads an ALU operand of side `kind` and gives whether it passes a
    /// whole register through the ALU.
    fn operand(&mut self, m: &[char], kind: u8) -> (r: Result<bool, ParseStop>)
        requires
            kind <= 2,
        ensures
            final(self).range == old(self).range,
            match operand_bits(m@, kind as nat) {
                OperandParsed::Read(b, d) => r == Ok::<bool, ParseStop>(d) && final(self).cmd == old(
                    self,
                ).cmd | b,
                OperandParsed::Fail(e) => r matches Err(ParseStop::Message(x)) && x@ == e
                    && final(self).cmd == old(self).cmd | operand_partial(m@),
            },
    {
        let (alu_do, name) = match self.sub(m) {
            Ok(x) => x,
            Err(e) => {
                proof {
                    lemma_or_zero(old(self).cmd);
                }
                return Err(e);
            },
        };
        if eq_str(name.as_slice(), "0") {
            return Ok(false);
        }
        match read_reg_of(name.as_slice(), kind) {
            Some(b) => {
                let ghost mid = self.cmd;
                self.add_state(Cs::Base(b));
                proof {
                    let (k, suf) = reg_operand(trim(m@)).unwrap();
                    lemma_or_assoc(old(self).cmd, sel_bits(suf), sig(b));
                }
                Ok(alu_do)
            },
            None => {
                let prefix = if kind == 0 {
                    "unable to parse right reg input "
                } else if kind == 1 {
                    "unable to parse left reg input "
                } else {
                    "unable to parse reg input "
                };
                Err(quoted_stop(prefix, name.as_slice()))
            },
        }
    }

    /// Sets the flags of an ALU expression.
    fn add_alu_flags(&mut self, m: &AluMatch)
        ensures
            final(self).range == old(self).range,
            final(self).cmd == old(self).cmd | alu_flag_bits(m.shape()),
    {
        let f1 = if m.coml {
            1u64 << BaseCs::COML.index()
        } else {
            0
        };
        let f2 = if m.comr {
            1u64 << BaseCs::COMR.index()
        } else {
            0
        };
        let f3 = if m.sora {
            1u64 << BaseCs::SORA.index()
        } else {
            0
        };
        let f4 = if m.pls1 {
            1u64 << BaseCs::PLS1.index()
        } else {
            0
        };
        self.add_bits(((f1 | f2) | f3) | f4);
    }

    /// Reads a comma-separated list of destinations.
    fn parse_writes(&mut self, w: &[char]) -> (r: Result<(), ParseStop>)
        ensures
            final(self).range == old(self).range,
            applied(old(self).cmd, final(self).cmd, r, writes_bits(w@), writes_partial(w@)),
    {
        let t = trim_chars(w);
        let toks = split_chars(t, ',');
        let ghost ts = split(trim(w@), ',');
        let ghost start = self.cmd;
        let mut k: usize = 0;
        let mut bits: u64 = 0;
        proof {
            lemma_or_zero(start);
        }
        while k < toks.len()
            invariant
                k <= toks@.len() == ts.len(),
                ts == split(trim(w@), ','),
                forall|m: int| 0 <= m < toks@.len() ==> (#[trigger] toks@[m])@ == ts[m],
                writes_scan(ts, k as nat) == Parsed::Bits(bits),
                self.cmd == start | bits,
                start == old(self).cmd,
                self.range == old(self).range,
            decreases toks@.len() - k,
        {
            let tok = trim_chars(toks[k].as_slice());
            assert(tok@ == trim(ts[k as int]));
            match write_sig_of(tok) {
                Some(b) => {
                    self.add_state(Cs::Base(b));
                    proof {
                        lemma_or_assoc(start, bits, sig(b));
                    }
                    bits = bits | (1u64 << b.index());
                },
                None => {
                    proof {
                        lemma_writes_scan_stops(ts, (k + 1) as nat, ts.len());
                        lemma_writes_acc(ts, k as nat, ts.len(), bits);
                    }
                    return Err(quoted_stop("unable to parse omc write value ", tok));
                },
            }
            k = k + 1;
        }
        Ok(())
    }
}


impl ParseState {
    /// Reads the ALU expression `read` and the destinations `write`.
    fn parse_alu_write(&mut self, comm_do: bool, read: &[char], write: &[char]) -> (r: Result<
        (),
        ParseStop,
    >)
        ensures
            final(self).range == old(self).range,
            applied(old(self).cmd, final(self).cmd, r, alu_write_bits(comm_do, read@, write@),
                alu_write_partial(comm_do, read@, write@)),
    {
        let a = trim_chars(read);
        let (x, m) = match alu_target(a) {
            Some(t) => t,
            None => {
                proof {
                    lemma_or_zero(old(self).cmd);
                }
                return Err(stop("unable to parse ALU actions"));
            },
        };
        let ghost sh = m.shape();
        let ghost rsh = read_shape(x@, sh);
        let left = &x[m.left.0..m.left.1];
        assert(left@ =~= x@.subrange(sh.left.0, sh.left.1));
        let lone_right = m.right.is_none() && m.coml && names_right(left);
        let fm = AluMatch {
            coml: m.coml && !lone_right,
            left: m.left,
            sora: m.sora,
            comr: m.comr || lone_right,
            right: m.right,
            pls1: m.pls1,
        };
        assert(fm.shape() == rsh);
        let ghost c0 = self.cmd;
        self.add_alu_flags(&fm);
        let ghost c1 = self.cmd;
        let alu_do = match m.right {
            Some((lo, hi)) => {
                let right = &x[lo..hi];
                assert(right@ =~= x@.subrange(lo as int, hi as int));
                let rdo = match self.operand(right, 0) {
                    Ok(d) => d,
                    Err(e) => {
                        proof {
                            lemma_or_assoc(c0, alu_flag_bits(rsh), operand_partial(right@));
                        }
                        return Err(e);
                    },
                };
                let ghost c2 = self.cmd;
                let ldo = match self.operand(left, 1) {
                    Ok(d) => d,
                    Err(e) => {
                        proof {
                            let rb = operand_bits(right@, 0)->Read_0;
                            let fl = alu_flag_bits(rsh);
                            let op = operand_partial(left@);
                            let c3 = self.cmd;
                            assert(c3 == c0 | ((fl | rb) | op)) by (bit_vector)
                                requires
                                    c1 == c0 | fl,
                                    c2 == c1 | rb,
                                    c3 == c2 | op,
                            ;
                        }
                        return Err(e);
                    },
                };
                proof {
                    let rb = operand_bits(right@, 0)->Read_0;
                    let lb = operand_bits(left@, 1)->Read_0;
                    let fl = alu_flag_bits(rsh);
                    let c3 = self.cmd;
                    assert(c3 == c0 | ((fl | rb) | lb)) by (bit_vector)
                        requires
                            c1 == c0 | fl,
                            c2 == c1 | rb,
                            c3 == c2 | lb,
                    ;
                }
                ldo || rdo
            },
            None => {
                let d = match self.operand(left, 2) {
                    Ok(d) => d,
                    Err(e) => {
                        proof {
                            lemma_or_assoc(c0, alu_flag_bits(rsh), operand_partial(left@));
                        }
                        return Err(e);
                    },
                };
                proof {
                    lemma_or_assoc(c0, alu_flag_bits(rsh), operand_bits(left@, 2)->Read_0);
                }
                d
            },
        };
        let ghost c4 = self.cmd;
        let pass: u64 = if alu_do && !comm_do {
            (1u64 << BaseCs::LTOL.index()) | (1u64 << BaseCs::HTOH.index())
        } else {
            0
        };
        self.add_bits(pass);
        let ghost c5 = self.cmd;
        let r = self.parse_writes(write);
        proof {
            if r is Err {
                match alu_bits(x@, sh) {
                    OperandParsed::Read(abits, _) => {
                        let wp = writes_partial(write@);
                        let c6 = self.cmd;
                        assert(c4 == c0 | abits);
                        assert(c6 == c0 | ((abits | pass) | wp)) by (bit_vector)
                            requires
                                c4 == c0 | abits,
                                c5 == c4 | pass,
                                c6 == c5 | wp,
                        ;
                    },
                    OperandParsed::Fail(_) => {},
                }
            }
            if r is Ok {
                let w = writes_bits(write@)->Bits_0;
                let c6 = self.cmd;
                match alu_bits(x@, sh) {
                    OperandParsed::Read(abits, _) => {
                        assert(c4 == c0 | abits);
                        assert(c6 == c0 | ((abits | pass) | w)) by (bit_vector)
                            requires
                                c4 == c0 | abits,
                                c5 == c4 | pass,
                                c6 == c5 | w,
                        ;
                    },
                    OperandParsed::Fail(_) => {},
                }
            }
        }
        r
    }

    /// Reads a transfer `read → write`.
    fn parse_transfer(&mut self, read: &[char], write: &[char]) -> (r: Result<(), ParseStop>)
        ensures
            final(self).range == old(self).range,
            applied(old(self).cmd, final(self).cmd, r, transfer_bits(read@, write@), transfer_partial(read@, write@)),
    {
        let rt = trim_chars(read);
        match match_comm(rt) {
            Some((f, lo, hi)) => match comm_signals(f.as_slice()) {
                None => {
                    proof {
                        lemma_or_zero(old(self).cmd);
                    }
                    Err(quoted_stop("unable to parse commutator function ", f.as_slice()))
                },
                Some(cb) => {
                    self.add_bits(cb);
                    let ghost c1 = self.cmd;
                    let op = &rt[lo..hi];
                    assert(op@ =~= rt@.subrange(lo as int, hi as int));
                    let r = self.parse_alu_write(true, op, write);
                    proof {
                        if r is Err {
                            lemma_or_assoc(
                                old(self).cmd,
                                cb,
                                alu_write_partial(true, op@, write@),
                            );
                        }
                        if r is Ok {
                            lemma_or_assoc(
                                old(self).cmd,
                                cb,
                                alu_write_bits(true, op@, write@)->Bits_0,
                            );
                        }
                    }
                    r
                },
            },
            None => self.parse_alu_write(false, read, write),
        }
    }

    /// Reads one `;`-separated action.
    fn parse_action(&mut self, seg: &[char]) -> (r: Result<(), ParseStop>)
        ensures
            final(self).range == old(self).range,
            applied(old(self).cmd, final(self).cmd, r, action_bits(seg@), action_partial(seg@)),
    {
        let t = trim_chars(seg);
        match match_single(t) {
            Some(b) => {
                self.add_state(Cs::Base(b));
                Ok(())
            },
            None => match match_transfer(t) {
                Some(p) => {
                    let n = t.len();
                    let a = arrow_at(t, p);
                    let read = &t[0..p];
                    let write = &t[p + a..n];
                    assert(read@ =~= t@.take(p as int));
                    assert(write@ =~= t@.subrange(p + arrow_len(t@, p as int), n as int));
                    self.parse_transfer(read, write)
                },
                None => {
                    proof {
                        lemma_or_zero(old(self).cmd);
                    }
                    Err(stop("unable to parse omc"))
                },
            },
        }
    }

    /// Reads an operational microcommand: its non-empty `;`-separated actions.
    fn parse_omc(&mut self, s: &[char]) -> (r: Result<(), ParseStop>)
        ensures
            final(self).range == old(self).range,
            applied(old(self).cmd, final(self).cmd, r, omc_bits(s@), omc_partial(s@)),
    {
        let pieces = split_chars(s, ';');
        let ghost all = split(s@, ';');
        assert(views(pieces@) =~= all);
        let mut segs: Vec<Vec<char>> = Vec::new();
        let mut i: usize = 0;
        while i < pieces.len()
            invariant
                i <= pieces@.len(),
                views(segs@) == drop_empty(views(pieces@).take(i as int)),
            decreases pieces@.len() - i,
        {
            if pieces[i].len() > 0 {
                let mut seg: Vec<char> = Vec::new();
                push_slice(&mut seg, pieces[i].as_slice());
                segs.push(seg);
            }
            i = i + 1;
            proof {
                let t = views(pieces@).take(i as int);
                assert(t.drop_last() =~= views(pieces@).take(i - 1));
                assert(views(segs@) =~= drop_empty(t));
            }
        }
        assert(views(pieces@).take(i as int) =~= all);
        let ghost ds = views(segs@);
        let ghost start = self.cmd;
        let ghost mut bits: u64 = 0;
        proof {
            lemma_or_zero(start);
        }
        let mut k: usize = 0;
        while k < segs.len()
            invariant
                k <= segs@.len() == ds.len(),
                ds == views(segs@),
                ds == drop_empty(split(s@, ';')),
                actions_scan(ds, k as nat) == Parsed::Bits(bits),
                self.cmd == start | bits,
                start == old(self).cmd,
                self.range == old(self).range,
            decreases segs@.len() - k,
        {
            let ghost before = self.cmd;
            match self.parse_action(segs[k].as_slice()) {
                Ok(()) => {
                    proof {
                        let ab = action_bits(ds[k as int])->Bits_0;
                        lemma_or_assoc(start, bits, ab);
                        bits = bits | ab;
                    }
                },
                Err(e) => {
                    proof {
                        lemma_actions_scan_stops(ds, (k + 1) as nat, ds.len());
                        lemma_actions_acc(ds, k as nat, ds.len(), bits);
                        lemma_or_assoc(start, bits, action_partial(ds[k as int]));
                    }
                    return Err(e);
                },
            }
            k = k + 1;
        }
        Ok(())
    }
}


impl ParseState {
    /// Reads upper-case microcommand text.
    fn parse_general(&mut self, s: &[char]) -> (r: Result<(), ParseStop>)
        requires
            utf8_len(s@) <= usize::MAX,
        ensures
            applied(old(self).cmd, final(self).cmd, r, spec_parse(s@), parse_partial(s@)),
            final(self).range.start == parse_range(s@, old(self).range.start as int, old(self).range.end as int).0,
            final(self).range.end == parse_range(s@, old(self).range.start as int, old(self).range.end as int).1,
    {
        proof {
            reveal_strlit("IF");
            reveal_strlit("GOTO");
        }
        let n = s.len();
        if n > 2 && has_lit_at(s, 0, "IF") && has_no_newline(s) {
            self.add_state(Cs::Type(true));
            let ghost c1 = self.cmd;
            let rest = &s[2..n];
            assert(rest@ =~= s@.subrange(2, n as int));
            match match_then(rest) {
                None => Err(stop("seems like if command, but unable to parce it")),
                Some(i) => {
                    let m = rest.len();
                    let cond = &rest[0..i];
                    let goto = &rest[i + 4..m];
                    assert(cond@ =~= rest@.take(i as int));
                    assert(goto@ =~= rest@.subrange(i + 4, m as int));
                    let upto = &rest[0..i + 4];
                    assert(upto@ =~= rest@.take(i + 4));
                    proof {
                        lemma_utf8_piece(s@, 2, n as int);
                        lemma_utf8_piece(rest@, 0, i as int);
                        lemma_utf8_piece(rest@, i + 4, m as int);
                        assert(rest@.take(m as int) =~= rest@);
                        assert(rest@.take(0) =~= Seq::<char>::empty());
                    }
                    let goto_at = byte_len(upto);
                    let r = self.parse_if(cond, goto, 0, goto_at);
                    proof {
                        if r is Err {
                            lemma_or_assoc(
                                old(self).cmd,
                                cs_bits(Cs::Type(true)),
                                if_partial(cond@, goto@),
                            );
                        }
                        if r is Ok {
                            lemma_or_assoc(
                                old(self).cmd,
                                cs_bits(Cs::Type(true)),
                                if_bits(cond@, goto@)->Bits_0,
                            );
                        }
                    }
                    r
                },
            }
        } else if n > 4 && has_lit_at(s, 0, "GOTO") && has_no_newline(s) {
            let ghost c0 = self.cmd;
            self.add_state(Cs::Type(true));
            let ghost c1 = self.cmd;
            self.add_state(Cs::Base(BaseCs::RDPS));
            let ghost c2 = self.cmd;
            self.add_state(Cs::Base(BaseCs::LTOL));
            let ghost c3 = self.cmd;
            self.add_state(Cs::Bit(0b10000));
            let ghost c4 = self.cmd;
            let r = self.parse_goto(s, 0);
            proof {
                if r is Err {
                    let t = cs_bits(Cs::Type(true));
                    let p = sig(BaseCs::RDPS);
                    let l = sig(BaseCs::LTOL);
                    let b = cs_bits(Cs::Bit(0x10));
                    let c5 = self.cmd;
                    assert(c5 == c0 | (((t | p) | l) | b)) by (bit_vector)
                        requires
                            c1 == c0 | t,
                            c2 == c1 | p,
                            c3 == c2 | l,
                            c4 == c3 | b,
                            c5 == c4 | 0u64,
                    ;
                }
                if r is Ok {
                    let t = cs_bits(Cs::Type(true));
                    let p = sig(BaseCs::RDPS);
                    let l = sig(BaseCs::LTOL);
                    let b = cs_bits(Cs::Bit(0x10));
                    let g = goto_bits(s@)->Bits_0;
                    let c5 = self.cmd;
                    assert(c5 == c0 | ((((t | p) | l) | b) | g)) by (bit_vector)
                        requires
                            c1 == c0 | t,
                            c2 == c1 | p,
                            c3 == c2 | l,
                            c4 == c3 | b,
                            c5 == c4 | g,
                    ;
                }
            }
            r
        } else {
            self.parse_omc(s)
        }
    }
}

impl Default for ParseState {
    fn default() -> (s: ParseState)
        ensures
            s.cmd == 0,
            s.range.start == 0 && s.range.end == 0,
    {
        ParseState { cmd: 0, range: std::ops::Range { start: 0, end: 0 } }
    }
}

/// `s` upper-cased as `str::to_uppercase` does it: for ASCII text, its
/// letters `a`..`z` upper-cased.
pub open spec fn case_folded(s: Seq<char>) -> Seq<char> {
    if all_ascii(s) {
        upper(s)
    } else {
        uppercase(s)
    }
}

/// The outcome of reading microcommand text `s` without regard to case:
/// the word, or the error message followed by `` at `s` ``; `None` where
/// reading aborts.
pub open spec fn spec_from_str(s: Seq<char>) -> Option<Result<u64, Seq<char>>> {
    match spec_parse(case_folded(s)) {
        Parsed::Bits(b) => Some(Ok(b)),
        Parsed::Fail(m) => Some(Err(m + " at "@ + "`"@ + s + "`"@)),
        Parsed::Abort => None,
    }
}

impl Command {
    /// The word of upper-case microcommand text `u`; `None` where reading
    /// aborts (see `from_str`).
    pub fn parse_upper(u: &str) -> (r: Option<Result<Command, String>>)
        ensures
            match spec_parse(u@) {
                Parsed::Bits(b) => r matches Some(Ok(c)) && c.cmd == b,
                Parsed::Fail(m) => r matches Some(Err(e)) && e@ == m,
                Parsed::Abort => r is None,
            },
    {
        let v = chars_of(u);
        let bytes = u.as_bytes();
        let _n = bytes.len();
        proof {
            lemma_encode_len(u@);
        }
        let mut state = ParseState::new();
        match state.parse_general(v.as_slice()) {
            Ok(()) => {
                proof {
                    lemma_or_zero_left(spec_parse(u@)->Bits_0);
                }
                Some(Ok(Command::new(state.cmd)))
            },
            Err(ParseStop::Message(e)) => Some(Err(string_of(e.as_slice()))),
            Err(ParseStop::Abort) => None,
        }
    }

    /// The word of microcommand text `s`, read without regard to case (the
    /// text is upper-cased first); an error names the text. `None` for text
    /// on which reading aborts: a bit list holding a negative bit number, or
    /// a number on which the integer parser overflows.
    pub fn from_str(s: &str) -> (r: Option<Result<Command, String>>)
        ensures
            match spec_from_str(s@) {
                Some(Ok(b)) => r matches Some(Ok(c)) && c.cmd == b,
                Some(Err(m)) => r matches Some(Err(e)) && e@ == m,
                None => r is None,
            },
    {
        let u = to_upper(s);
        match Command::parse_upper(u.as_str()) {
            Some(Ok(c)) => Some(Ok(c)),
            Some(Err(e)) => {
                let mut m = chars_of(e.as_str());
                push_str(&mut m, " at ");
                push_str(&mut m, "`");
                push_str(&mut m, s);
                push_str(&mut m, "`");
                Some(Err(string_of(m.as_slice())))
            },
            None => None,
        }
    }
}

} // verus!
