//! Reading back the text of operational microcommands.
use vstd::prelude::*;
use crate::control_signals::{bit_at, holds, lemma_from_index_roundtrip, BaseCs};
use crate::grammar::{alu_subject, wrapped_alu, no_newline, comm_split, last_open, lit_at, ops_word, alu_run, alu_shape, is_alu_char, plus_one_at, reg_operand, reg_run, reg_suffix, right_operand, space_run, AluShape};
use crate::command::{alu_full_text, alu_left, alu_right, alu_text, nullify, opt};
use crate::text::{drop_empty, join};
use crate::parse::{names_right_input, write_sig, writes_scan, alu_write_bits, transfer_bits, writes_bits, Parsed, comm_bits, alu_bits, alu_flag_bits, operand_bits, read_reg, sel_bits, sig, OperandParsed};
use crate::roundtrip::{lacks, lemma_trim_pad, lemma_upper_concat, lemma_upper_fixed, lemma_upper_if_then, no_lower, reg_name};
use crate::text::upper;
use crate::text::{is_ws, trim, lemma_lead_ws_unique, lemma_trail_ws_unique, trim_start};

verus! {

/// The name of ALU operand number `i`: the eight read registers, then `0`.
pub open spec fn op_name(i: nat) -> Seq<char> {
    if i < 8 {
        reg_name(BaseCs::spec_from_index(i))
    } else {
        "0"@
    }
}

/// The byte selector `(0..7)` after an operand, or nothing.
pub open spec fn low_sel(lo7: bool) -> Seq<char> {
    if lo7 {
        "(0..7)"@
    } else {
        Seq::empty()
    }
}

/// The signals that operand number `i` reads, with the selector `(0..7)`
/// under `lo7`.
pub open spec fn op_bits(i: nat, lo7: bool) -> u64 {
    let sel = if lo7 {
        sig(BaseCs::LTOL)
    } else {
        0u64
    };
    if i < 8 {
        sel | sig(BaseCs::spec_from_index(i))
    } else {
        sel
    }
}

proof fn lemma_op_name(i: nat)
    requires
        i <= 8,
    ensures
        1 <= op_name(i).len() <= 2,
        forall|k: int| 0 <= k < op_name(i).len() ==> ('A' <= #[trigger] op_name(i)[k] <= 'Z') || op_name(i)[k] == '0',
        (op_name(i) == "0"@) == (i == 8),
{
    reveal_strlit("DR");
    reveal_strlit("CR");
    reveal_strlit("IP");
    reveal_strlit("SP");
    reveal_strlit("AC");
    reveal_strlit("BR");
    reveal_strlit("PS");
    reveal_strlit("IR");
    reveal_strlit("0");
    let name = op_name(i);
    if i < 8 {
        assert(name.len() != "0"@.len());
    }
}

proof fn lemma_read_reg(i: nat, kind: nat)
    requires
        i < 8,
        kind <= 2,
        kind == 0 ==> i < 4,
        kind == 1 ==> i >= 4,
    ensures
        read_reg(op_name(i), kind) == Some(BaseCs::spec_from_index(i)),
{
    reveal_strlit("DR");
    reveal_strlit("CR");
    reveal_strlit("IP");
    reveal_strlit("SP");
    reveal_strlit("AC");
    reveal_strlit("BR");
    reveal_strlit("PS");
    reveal_strlit("IR");
    let name = op_name(i);
        if i == 0 {

        } else if i == 1 {
            assert(name[0] != "DR"@[0]);
        } else if i == 2 {
            assert(name[0] != "DR"@[0]);
            assert(name[0] != "CR"@[0]);
        } else if i == 3 {
            assert(name[0] != "DR"@[0]);
            assert(name[0] != "CR"@[0]);
            assert(name[0] != "IP"@[0]);
        } else if i == 4 {
            assert(name[0] != "DR"@[0]);
            assert(name[0] != "CR"@[0]);
            assert(name[0] != "IP"@[0]);
            assert(name[0] != "SP"@[0]);
        } else if i == 5 {
            assert(name[0] != "DR"@[0]);
            assert(name[0] != "CR"@[0]);
            assert(name[0] != "IP"@[0]);
            assert(name[0] != "SP"@[0]);
            assert(name[0] != "AC"@[0]);
        } else if i == 6 {
            assert(name[0] != "DR"@[0]);
            assert(name[0] != "CR"@[0]);
            assert(name[0] != "IP"@[0]);
            assert(name[0] != "SP"@[0]);
            assert(name[0] != "AC"@[0]);
            assert(name[0] != "BR"@[0]);
        } else if i == 7 {
            assert(name[0] != "DR"@[0]);
            assert(name[0] != "CR"@[0]);
            assert(name[1] != "IP"@[1]);
            assert(name[0] != "SP"@[0]);
            assert(name[0] != "AC"@[0]);
            assert(name[0] != "BR"@[0]);
            assert(name[0] != "PS"@[0]);
        }
}

/// Of the operand names, exactly DR, CR, IP and SP are right ALU inputs.
proof fn lemma_right_name(i: nat)
    requires
        i <= 8,
    ensures
        (read_reg(op_name(i), 0) is Some) == (i < 4),
{
    reveal_strlit("DR");
    reveal_strlit("CR");
    reveal_strlit("IP");
    reveal_strlit("SP");
    reveal_strlit("AC");
    reveal_strlit("BR");
    reveal_strlit("PS");
    reveal_strlit("IR");
    reveal_strlit("0");
    let name = op_name(i);
    if i < 4 {
        lemma_read_reg(i, 0);
    } else if i < 7 {
        assert(name[0] != "DR"@[0]);
        assert(name[0] != "CR"@[0]);
        assert(name[0] != "IP"@[0]);
        assert(name[0] != "SP"@[0]);
    } else if i == 7 {
        assert(name[0] != "DR"@[0]);
        assert(name[0] != "CR"@[0]);
        assert(name[1] != "IP"@[1]);
        assert(name[0] != "SP"@[0]);
    } else {
        assert(name[0] != "DR"@[0]);
        assert(name[0] != "CR"@[0]);
        assert(name[0] != "IP"@[0]);
        assert(name[0] != "SP"@[0]);
    }
}

pub(crate) proof fn lemma_trim_right_pad(s: Seq<char>)
    requires
        s.len() > 0,
        !is_ws(s[0]),
        !is_ws(s.last()),
    ensures
        trim(s + " "@) == s,
{
    reveal_strlit(" ");
    let a = s + " "@;
    lemma_lead_ws_unique(a, 0);
    assert(trim_start(a) =~= a);
    lemma_trail_ws_unique(a, 1);
    assert(trim(a) =~= s);
}

/// An ALU operand, perhaps followed by a space, reads as its signals; it
/// passes a whole register unless it is `0` or carries a selector.
proof fn lemma_operand(i: nat, kind: nat, lo7: bool, pad: bool)
    requires
        i <= 8,
        kind <= 2,
        kind == 0 ==> (i < 4 || i == 8),
        kind == 1 ==> i >= 4,
    ensures
        operand_bits(
            op_name(i) + low_sel(lo7) + (if pad {
                " "@
            } else {
                Seq::<char>::empty()
            }),
            kind,
        ) == OperandParsed::Read(op_bits(i, lo7), i < 8 && !lo7),
        names_right_input(
            op_name(i) + low_sel(lo7) + (if pad {
                " "@
            } else {
                Seq::<char>::empty()
            }),
        ) == (i < 4),
{
    reveal_strlit("(0..7)");
    reveal_strlit("(8..15)");
    reveal_strlit(" ");
    lemma_op_name(i);
    let name = op_name(i);
    let core = name + low_sel(lo7);
    let k = name.len() as int;
    assert(core.len() >= 1);
    assert(!is_ws(core[0]));
    assert(!is_ws(core.last()));
    let m = core + (if pad {
        " "@
    } else {
        Seq::<char>::empty()
    });
    if pad {
        lemma_trim_right_pad(core);
    } else {
        lemma_trim_pad(core);
        assert(m =~= core);
    }
    assert(trim(m) == core);
    assert(reg_run(core, k) == k);
    if k == 2 {
        assert(reg_run(core, 1) == k);
    }
    assert(reg_run(core, 0) == k);
    let suf = core.subrange(k, core.len() as int);
    assert(suf =~= low_sel(lo7));
    if lo7 {
        assert(reg_suffix(suf) == Some(1nat));
    } else {
        assert(reg_suffix(suf) == Some(0nat));
    }
    assert(core.take(k) =~= name);
    if i < 8 {
        lemma_read_reg(i, kind);
    }
    lemma_right_name(i);
}


// ---------------------------------------------------------------------------
// ALU expressions

/// `~` under `neg`, else nothing.
pub open spec fn tilde(neg: bool) -> Seq<char> {
    if neg {
        "~"@
    } else {
        Seq::empty()
    }
}

/// ` + 1` under `pls`, else nothing.
pub open spec fn plus_one(pls: bool) -> Seq<char> {
    if pls {
        " + 1"@
    } else {
        Seq::empty()
    }
}

/// An ALU operand: perhaps complemented, operand number `i`, perhaps with
/// the selector `(0..7)`.
pub open spec fn operand(neg: bool, i: nat, lo7: bool) -> Seq<char> {
    tilde(neg) + op_name(i) + low_sel(lo7)
}

proof fn lemma_alu_run_span(x: Seq<char>, s: int, e: int)
    requires
        0 <= s <= e <= x.len(),
        forall|k: int| s <= k < e ==> is_alu_char(#[trigger] x[k]),
        e < x.len() ==> !is_alu_char(x[e]),
    ensures
        alu_run(x, s) == e,
    decreases e - s,
{
    if s < e {
        lemma_alu_run_span(x, s + 1, e);
    }
}

proof fn lemma_operand_chars(neg: bool, i: nat, lo7: bool)
    requires
        i <= 8,
    ensures
        operand(neg, i, lo7).len() == tilde(neg).len() + op_name(i).len() + low_sel(lo7).len(),
        neg ==> operand(neg, i, lo7)[0] == '~',
        !neg ==> operand(neg, i, lo7)[0] != '~' && is_alu_char(operand(neg, i, lo7)[0]),
        forall|k: int| tilde(neg).len() <= k < operand(neg, i, lo7).len() ==> is_alu_char(#[trigger] operand(neg, i, lo7)[k]) && operand(neg, i, lo7)[k] != ' ',
        operand(neg, i, lo7).subrange(tilde(neg).len() as int, operand(neg, i, lo7).len() as int) == op_name(i) + low_sel(lo7),
        !is_ws(operand(neg, i, lo7).last()),
        tilde(neg).len() == (if neg { 1nat } else { 0nat }),
        low_sel(lo7).len() == (if lo7 { 6nat } else { 0nat }),
{
    reveal_strlit("~");
    reveal_strlit("(0..7)");
    lemma_op_name(i);
    let o = operand(neg, i, lo7);
    let t = tilde(neg).len() as int;
    let n = op_name(i).len() as int;
    assert forall|k: int| t <= k < o.len() implies is_alu_char(#[trigger] o[k]) && o[k] != ' ' by {
        if k < t + n {
            assert(o[k] == op_name(i)[k - t]);
        } else {
            assert(o[k] == low_sel(lo7)[k - t - n]);
        }
    }
    assert(o.subrange(t, o.len() as int) =~= op_name(i) + low_sel(lo7));
    if !neg {
        assert(o[0] == op_name(i)[0]);
    }
}


/// The flag signals of an ALU expression.
pub open spec fn flags_of(coml: bool, comr: bool, sora: bool, pls: bool) -> u64 {
    alu_flag_bits(AluShape { coml, left: (0, 0), sora, comr, right: None, pls1: pls })
}

/// A lone ALU operand, perhaps followed by ` + 1`.
#[verifier::rlimit(30)]
proof fn lemma_alu_single(neg: bool, i: nat, lo7: bool, pls: bool)
    requires
        i <= 8,
        !(lo7 && pls),
    ensures
        ({
            let x = operand(neg, i, lo7) + plus_one(pls);
            let sh = alu_shape(x);
            &&& sh is Some
            &&& alu_bits(x, sh->0) == OperandParsed::Read(
                flags_of(neg && i >= 4, neg && i < 4, false, pls) | op_bits(i, lo7),
                i < 8 && !lo7,
            )
        }),
{
    reveal_strlit(" + 1");
    reveal_strlit(" ");
    let o = operand(neg, i, lo7);
    lemma_operand_chars(neg, i, lo7);
    lemma_op_name(i);
    let x = o + plus_one(pls);
    let t: int = if neg { 1 } else { 0 };
    let n = o.len() as int;
    assert(x[0] == o[0]);
    if !pls {
        assert(x =~= o);
        lemma_alu_run_span(x, t, n);
        let sh = AluShape { coml: neg, left: (t, n), sora: false, comr: false, right: None, pls1: false };
        assert(alu_shape(x) == Some(sh));
        assert(x.subrange(t, n) =~= op_name(i) + low_sel(lo7) + Seq::<char>::empty());
        lemma_operand(i, 2, lo7, false);
    } else {
        assert(x.len() == n + 4);
        assert(x[n] == ' ' && x[n + 1] == '+' && x[n + 2] == ' ' && x[n + 3] == '1');
        assert forall|k: int| t <= k < n + 1 implies is_alu_char(#[trigger] x[k]) by {
            if k < n {
                assert(x[k] == o[k]);
            }
        }
        lemma_alu_run_span(x, t, n + 1);
        let j = n + 1;
        assert(space_run(x, j + 2) == j + 2);
        assert(space_run(x, j + 1) == j + 2);
        assert(right_operand(x, j) is None);
        assert(plus_one_at(x, j));
        let sh = AluShape { coml: neg, left: (t, j), sora: false, comr: false, right: None, pls1: true };
        assert(alu_shape(x) == Some(sh));
        assert(x.subrange(t, j) =~= op_name(i) + low_sel(lo7) + " "@);
        lemma_operand(i, 2, lo7, true);
    }
}

/// Two ALU operands joined by ` + ` or ` & `, perhaps followed by ` + 1`.
pub open spec fn pair_text(neg1: bool, i1: nat, sora: bool, neg2: bool, i2: nat, lo7: bool, pls: bool) -> Seq<char> {
    operand(neg1, i1, false) + (if sora {
        " & "@
    } else {
        " + "@
    }) + operand(neg2, i2, lo7) + plus_one(pls)
}

/// The shape of a pair expression.
pub open spec fn pair_shape(neg1: bool, i1: nat, sora: bool, neg2: bool, i2: nat, lo7: bool, pls: bool) -> AluShape {
    let n1 = operand(neg1, i1, false).len() as int;
    let n2 = operand(neg2, i2, lo7).len() as int;
    let t1: int = if neg1 { 1 } else { 0 };
    let t2: int = if neg2 { 1 } else { 0 };
    let a = n1 + 3;
    AluShape {
        coml: neg1,
        left: (t1, n1 + 1),
        sora,
        comr: neg2,
        right: Some((a + t2, if pls { a + n2 + 1 } else { a + n2 })),
        pls1: pls,
    }
}

/// The left operand of a pair: the operand runs up to the space before the
/// operator.
proof fn lemma_pair_left(neg1: bool, i1: nat, rest: Seq<char>)
    requires
        i1 <= 8,
        rest.len() >= 2,
        rest[0] == ' ',
        rest[1] == '+' || rest[1] == '&',
    ensures
        ({
            let o1 = operand(neg1, i1, false);
            let x = o1 + rest;
            let t1: int = if neg1 { 1 } else { 0 };
            &&& x[0] == o1[0]
            &&& (x[0] == '~') == neg1
            &&& alu_run(x, t1) == o1.len() + 1
            &&& x.subrange(t1, o1.len() + 1int) == op_name(i1) + low_sel(false) + " "@
        }),
{
    reveal_strlit(" ");
    let o1 = operand(neg1, i1, false);
    lemma_operand_chars(neg1, i1, false);
    lemma_op_name(i1);
    let x = o1 + rest;
    let t1: int = if neg1 { 1 } else { 0 };
    let n1 = o1.len() as int;
    assert(x[0] == o1[0]);
    assert(x[n1] == ' ');
    assert(x[n1 + 1] == rest[1]);
    assert forall|k: int| t1 <= k < n1 + 1 implies is_alu_char(#[trigger] x[k]) by {
        if k < n1 {
            assert(x[k] == o1[k]);
        }
    }
    lemma_alu_run_span(x, t1, n1 + 1);
    assert(x.subrange(t1, n1 + 1) =~= op_name(i1) + low_sel(false) + " "@);
}

/// The right operand of a pair, after the operator and a space.
proof fn lemma_pair_right(p: Seq<char>, neg2: bool, i2: nat, lo7: bool, pls: bool)
    requires
        i2 <= 8,
        !(lo7 && pls),
        p.len() >= 2,
        p[p.len() - 1] == ' ',
        p[p.len() - 2] == '+' || p[p.len() - 2] == '&',
    ensures
        ({
            let o2 = operand(neg2, i2, lo7);
            let x = p + (o2 + plus_one(pls));
            let a = p.len() as int;
            let t2: int = if neg2 { 1 } else { 0 };
            let hi = if pls { a + o2.len() + 1 } else { a + o2.len() };
            &&& right_operand(x, a - 2) == Some((neg2, a + t2, hi))
            &&& (hi < x.len()) == pls
            &&& pls ==> x.subrange(a + t2, hi) == op_name(i2) + low_sel(lo7) + " "@
            &&& !pls ==> x.subrange(a + t2, hi) == op_name(i2) + low_sel(lo7) + Seq::<char>::empty()
        }),
{
    reveal_strlit(" + 1");
    reveal_strlit(" ");
    let o2 = operand(neg2, i2, lo7);
    lemma_operand_chars(neg2, i2, lo7);
    lemma_op_name(i2);
    let y = o2 + plus_one(pls);
    let x = p + y;
    let a = p.len() as int;
    let j = a - 2;
    let t2: int = if neg2 { 1 } else { 0 };
    let n2 = o2.len() as int;
    assert(x[a - 1] == ' ');
    assert(x[a] == o2[0]);
    assert(space_run(x, a) == a);
    assert(space_run(x, j + 1) == a);
    let hi = if pls { a + n2 + 1 } else { a + n2 };
    if pls {
        assert(x.len() == a + n2 + 4);
        assert(x[a + n2] == ' ' && x[a + n2 + 1] == '+' && x[a + n2 + 2] == ' ' && x[a + n2 + 3] == '1');
        assert(space_run(x, hi + 2) == hi + 2);
        assert(space_run(x, hi + 1) == hi + 2);
        assert(plus_one_at(x, hi));
        assert(x.subrange(a + t2, hi) =~= op_name(i2) + low_sel(lo7) + " "@);
    } else {
        assert(x.len() == a + n2);
        assert(x.subrange(a + t2, hi) =~= op_name(i2) + low_sel(lo7) + Seq::<char>::empty());
    }
    assert forall|k: int| a + t2 <= k < hi implies is_alu_char(#[trigger] x[k]) by {
        if k < a + n2 {
            assert(x[k] == o2[k - a]);
        }
    }
    lemma_alu_run_span(x, a + t2, hi);
}

#[verifier::rlimit(60)]
proof fn lemma_pair_shape(neg1: bool, i1: nat, sora: bool, neg2: bool, i2: nat, lo7: bool, pls: bool)
    requires
        i1 <= 8,
        i2 <= 8,
        !(lo7 && pls),
        !(sora && pls),
    ensures
        alu_shape(pair_text(neg1, i1, sora, neg2, i2, lo7, pls)) == Some(
            pair_shape(neg1, i1, sora, neg2, i2, lo7, pls),
        ),
{
    reveal_strlit(" + ");
    reveal_strlit(" & ");
    let o1 = operand(neg1, i1, false);
    let o2 = operand(neg2, i2, lo7);
    let op = if sora { " & "@ } else { " + "@ };
    let x = pair_text(neg1, i1, sora, neg2, i2, lo7, pls);
    let y = o2 + plus_one(pls);
    let p = o1 + op;
    assert(x =~= o1 + (op + y));
    assert(x =~= p + y);
    lemma_pair_left(neg1, i1, op + y);
    lemma_pair_right(p, neg2, i2, lo7, pls);
    let n1 = o1.len() as int;
    let j = n1 + 1;
    let t1: int = if neg1 { 1 } else { 0 };
    assert(x[j] == (if sora { '&' } else { '+' }));
    assert(alu_run(x, t1) == j);
    let sh = pair_shape(neg1, i1, sora, neg2, i2, lo7, pls);
    let rt = sh.right.unwrap();
    assert(right_operand(x, j) == Some((sh.comr, rt.0, rt.1)));
}

/// Two ALU operands joined by ` + ` or ` & ` read as their flags and signals.
#[verifier::rlimit(60)]
proof fn lemma_alu_pair(neg1: bool, i1: nat, sora: bool, neg2: bool, i2: nat, lo7: bool, pls: bool)
    requires
        4 <= i1 <= 8,
        i2 < 4 || i2 == 8,
        !(lo7 && pls),
        !(sora && pls),
    ensures
        ({
            let x = pair_text(neg1, i1, sora, neg2, i2, lo7, pls);
            let sh = alu_shape(x);
            &&& sh is Some
            &&& alu_bits(x, sh->0) == OperandParsed::Read(
                (flags_of(neg1, neg2, sora, pls) | op_bits(i2, lo7)) | op_bits(i1, false),
                i1 < 8 || (i2 < 8 && !lo7),
            )
        }),
{
    reveal_strlit(" + ");
    reveal_strlit(" & ");
    lemma_pair_shape(neg1, i1, sora, neg2, i2, lo7, pls);
    let o1 = operand(neg1, i1, false);
    let o2 = operand(neg2, i2, lo7);
    let op = if sora { " & "@ } else { " + "@ };
    let x = pair_text(neg1, i1, sora, neg2, i2, lo7, pls);
    let y = o2 + plus_one(pls);
    let p = o1 + op;
    assert(x =~= o1 + (op + y));
    assert(x =~= p + y);
    lemma_pair_left(neg1, i1, op + y);
    lemma_pair_right(p, neg2, i2, lo7, pls);
    lemma_operand(i1, 1, false, true);
    lemma_operand(i2, 0, lo7, pls);
    let sh = pair_shape(neg1, i1, sora, neg2, i2, lo7, pls);
    assert(alu_flag_bits(sh) == flags_of(neg1, neg2, sora, pls));
    if pls {
        assert(op_name(i2) + low_sel(lo7) + (if pls { " "@ } else { Seq::<char>::empty() }) == op_name(i2) + low_sel(lo7) + " "@);
    } else {
        assert(op_name(i2) + low_sel(lo7) + (if pls { " "@ } else { Seq::<char>::empty() }) == op_name(i2) + low_sel(lo7) + Seq::<char>::empty());
    }
}

// ---------------------------------------------------------------------------
// Operational words by their parts

/// The read signal of operand number `i`, none for `0` (number 8).
pub open spec fn reg_bit(i: nat) -> u64 {
    if i < 8 {
        1u64 << (i as u64)
    } else {
        0u64
    }
}

/// The ALU flag signals: COMR, COML, PLS1, SORA.
pub open spec fn flag_word(comr: bool, coml: bool, pls: bool, sora: bool) -> u64 {
    (if comr { 1u64 << 8u64 } else { 0u64 }) | (if coml { 1u64 << 9u64 } else { 0u64 }) | (if pls {
        1u64 << 10u64
    } else {
        0u64
    }) | (if sora { 1u64 << 11u64 } else { 0u64 })
}

/// The commutator signals that code `cc` stands for: 0 none; 1 LTOL and
/// HTOH (the value passes unchanged); 2 HTOH; 3 LTOL and SEXT; 4 LTOL;
/// 5 LTOH and HTOL; 6 LTOH; 7 HTOL; 8 SEXT; 9 SHLT and SHL0; 10 SHLT;
/// 11 SHRT and SHRF; 12 SHRT.
pub open spec fn comm_code_bits(cc: nat) -> u64 {
    if cc == 1 {
        (1u64 << 12u64) | (1u64 << 15u64)
    } else if cc == 2 {
        1u64 << 15u64
    } else if cc == 3 {
        (1u64 << 12u64) | (1u64 << 16u64)
    } else if cc == 4 {
        1u64 << 12u64
    } else if cc == 5 {
        (1u64 << 13u64) | (1u64 << 14u64)
    } else if cc == 6 {
        1u64 << 13u64
    } else if cc == 7 {
        1u64 << 14u64
    } else if cc == 8 {
        1u64 << 16u64
    } else if cc == 9 {
        (1u64 << 17u64) | (1u64 << 18u64)
    } else if cc == 10 {
        1u64 << 17u64
    } else if cc == 11 {
        (1u64 << 19u64) | (1u64 << 20u64)
    } else if cc == 12 {
        1u64 << 19u64
    } else {
        0u64
    }
}

/// The bits of the written destinations (21..32).
pub const WRITE_BITS: u64 = 0xFFE0_0000;

/// The bits of the memory, input-output, interrupt and halt actions.
pub const ACTION_BITS: u64 = 0x4F_0000_0000;

/// The operational microcommand with right operand `rr` (0..4, or 8 for
/// none), left operand `lr` (4..8, or 8 for none), the ALU flags, the
/// commutator code `cc`, the written destinations `wr` and the actions
/// `acts`.
pub open spec fn omc_word(
    rr: nat,
    lr: nat,
    comr: bool,
    coml: bool,
    pls: bool,
    sora: bool,
    cc: nat,
    wr: u64,
    acts: u64,
) -> u64 {
    reg_bit(rr) | reg_bit(lr) | flag_word(comr, coml, pls, sora) | comm_code_bits(cc) | wr | acts
}

/// The parts of an operational microcommand whose text reads back to it.
pub open spec fn omc_parts_ok(
    rr: nat,
    lr: nat,
    comr: bool,
    coml: bool,
    pls: bool,
    sora: bool,
    cc: nat,
    wr: u64,
    acts: u64,
) -> bool {
    &&& (rr < 4 || rr == 8)
    &&& (4 <= lr <= 8)
    &&& cc <= 12
    &&& wr & !WRITE_BITS == 0
    &&& acts & !ACTION_BITS == 0
    &&& !(sora && pls)
    &&& (!sora && comr ==> lr < 8 || coml || rr < 8)
    &&& (cc != 0 && !sora ==> lr < 8 || coml || rr < 8 || comr)
    &&& (cc == 1 ==> lr < 8 || rr < 8)
    &&& (cc == 3 ==> !pls)
    &&& (cc == 0 ==> rr == 8 && lr == 8 && !comr && !coml && !pls && !sora)
    &&& (wr == 0 ==> cc == 0 && rr == 8 && lr == 8 && !comr && !coml && !pls && !sora)
}

/// The commutator signals lie in bits 12..21.
pub(crate) proof fn lemma_comm_code_range(cc: nat)
    ensures
        comm_code_bits(cc) & !0x1F_F000u64 == 0,
{
    assert((((1u64 << 12u64) | (1u64 << 15u64)) & !0x1F_F000u64 == 0) && ((1u64 << 15u64) & !0x1F_F000u64 == 0)
            && ((((1u64 << 12u64) | (1u64 << 16u64))) & !0x1F_F000u64 == 0) && ((1u64 << 12u64) & !0x1F_F000u64 == 0)
            && ((((1u64 << 13u64) | (1u64 << 14u64))) & !0x1F_F000u64 == 0) && ((1u64 << 13u64) & !0x1F_F000u64 == 0)
            && ((1u64 << 14u64) & !0x1F_F000u64 == 0) && ((1u64 << 16u64) & !0x1F_F000u64 == 0)
            && ((((1u64 << 17u64) | (1u64 << 18u64))) & !0x1F_F000u64 == 0) && ((1u64 << 17u64) & !0x1F_F000u64 == 0)
            && ((((1u64 << 19u64) | (1u64 << 20u64))) & !0x1F_F000u64 == 0) && ((1u64 << 19u64) & !0x1F_F000u64 == 0)
            && (0u64 & !0x1F_F000u64 == 0)) by (bit_vector);
}

/// Which bits an operational word by its parts has.
pub(crate) proof fn lemma_omc_bit(
    rr: nat,
    lr: nat,
    comr: bool,
    coml: bool,
    pls: bool,
    sora: bool,
    cc: nat,
    wr: u64,
    acts: u64,
    j: u64,
)
    requires
        omc_parts_ok(rr, lr, comr, coml, pls, sora, cc, wr, acts),
        j < 64,
    ensures
        bit_at(omc_word(rr, lr, comr, coml, pls, sora, cc, wr, acts), j) == (
        (j < 8 && (j == rr || j == lr))
        || (j == 8 && comr) || (j == 9 && coml) || (j == 10 && pls) || (j == 11 && sora)
        || (12 <= j < 21 && bit_at(comm_code_bits(cc), j))
        || (21 <= j < 32 && bit_at(wr, j))
        || (32 <= j && bit_at(acts, j))),
{
    let r = reg_bit(rr);
    let l = reg_bit(lr);
    let f = flag_word(comr, coml, pls, sora);
    let c = comm_code_bits(cc);
    let rv: u64 = rr as u64;
    let lv: u64 = lr as u64;
    lemma_comm_code_range(cc);
    assert(bit_at(r | l | f | c | wr | acts, j) == ((j < 8 && (j == rv || j == lv)) || (j == 8 && comr)
        || (j == 9 && coml) || (j == 10 && pls) || (j == 11 && sora) || (12 <= j < 21 && bit_at(c, j))
        || (21 <= j < 32 && bit_at(wr, j)) || (32 <= j && bit_at(acts, j)))) by (bit_vector)
        requires
            r == (if rv < 8 { 1u64 << rv } else { 0u64 }),
            l == (if lv < 8 { 1u64 << lv } else { 0u64 }),
            rv < 4 || rv == 8,
            4 <= lv <= 8,
            f == (if comr { 1u64 << 8u64 } else { 0u64 }) | (if coml { 1u64 << 9u64 } else { 0u64 }) | (
            if pls { 1u64 << 10u64 } else { 0u64 }) | (if sora { 1u64 << 11u64 } else { 0u64 }),
            c & !0x1F_F000u64 == 0,
            wr & !0xFFE0_0000u64 == 0,
            acts & !0x4F_0000_0000u64 == 0,
            j < 64,
    ;
}


/// The ALU text of the parts, with the selector `(0..7)` after it under `lo7`.
pub open spec fn alu_expr(rr: nat, lr: nat, comr: bool, coml: bool, pls: bool, sora: bool, lo7: bool) -> Seq<char> {
    if sora {
        pair_text(coml, lr, true, comr, rr, lo7, false)
    } else if (lr < 8 || coml) && (rr < 8 || comr) {
        pair_text(coml, lr, false, comr, rr, lo7, pls)
    } else if lr < 8 || coml {
        operand(coml, lr, lo7) + plus_one(pls)
    } else {
        operand(comr, rr, lo7) + plus_one(pls)
    }
}

pub(crate) proof fn lemma_drop_empty3(a: Seq<char>, b: Seq<char>, c: Seq<char>)
    ensures
        drop_empty(seq![a, b, c]) == (if a.len() > 0 { seq![a] } else { Seq::empty() }) + (if b.len()
            > 0 { seq![b] } else { Seq::empty() }) + (if c.len() > 0 { seq![c] } else { Seq::empty() }),
{
    let s = seq![a, b, c];
    let s1 = s.drop_last().drop_last();
    let s2 = s.drop_last();
    assert(s1 =~= seq![a]);
    assert(s1.drop_last() =~= Seq::<Seq<char>>::empty());
    assert(s2.drop_last() =~= s1);
    assert(drop_empty(Seq::<Seq<char>>::empty()) =~= Seq::<Seq<char>>::empty());
    assert(drop_empty(s1) =~= (if a.len() > 0 { seq![a] } else { Seq::empty() }));
    assert(s2.last() == b);
    assert(s.last() == c);
    assert(drop_empty(s2) =~= (if a.len() > 0 { seq![a] } else { Seq::empty() }) + (if b.len() > 0 {
        seq![b]
    } else {
        Seq::empty()
    }));
    assert(drop_empty(s) =~= (if a.len() > 0 { seq![a] } else { Seq::empty() }) + (if b.len() > 0 {
        seq![b]
    } else {
        Seq::empty()
    }) + (if c.len() > 0 { seq![c] } else { Seq::empty() }));
}

pub(crate) proof fn lemma_join1(a: Seq<char>, sep: Seq<char>)
    ensures
        join(seq![a], sep) == a,
{
}

pub(crate) proof fn lemma_join2(a: Seq<char>, b: Seq<char>, sep: Seq<char>)
    ensures
        join(seq![a, b], sep) == a + sep + b,
{
    assert(seq![a, b].drop_last() =~= seq![a]);
    lemma_join1(a, sep);
    assert(join(seq![a], sep) == a);
    assert(seq![a, b].last() == b);
}

pub(crate) proof fn lemma_join3(a: Seq<char>, b: Seq<char>, c: Seq<char>, sep: Seq<char>)
    ensures
        join(seq![a, b, c], sep) == a + sep + b + sep + c,
{
    assert(seq![a, b, c].drop_last() =~= seq![a, b]);
    lemma_join2(a, b, sep);
    assert(seq![a, b, c].last() == c);
}

/// One side of the ALU: the names of the read registers among four, with
/// `~` under the complement; for a single register or none.
proof fn lemma_alu_side(x: u64, i: nat, base: nat, comp: bool, a: BaseCs, b: BaseCs, c: BaseCs, d: BaseCs)
    requires
        base == 0 || base == 4,
        i == 8 || base <= i < base + 4,
        a == BaseCs::spec_from_index(base),
        b == BaseCs::spec_from_index(base + 1),
        c == BaseCs::spec_from_index(base + 2),
        d == BaseCs::spec_from_index(base + 3),
        forall|k: nat| base <= k < base + 4 ==> #[trigger] holds(x, BaseCs::spec_from_index(k)) == (k == i),
    ensures
        ({
            let j = join(opt(holds(x, a), reg_name(a)) + opt(holds(x, b), reg_name(b)) + opt(holds(x, c), reg_name(c)) + opt(holds(x, d), reg_name(d)), " | "@);
            let side = if comp { "~"@ + nullify(j) } else { j };
            &&& side == (if comp || i < 8 { operand(comp, i, false) } else { Seq::empty() })
            &&& nullify(side) == operand(comp, i, false)
        }),
{
    reveal_strlit("~");
    reveal_strlit("0");
    assert(holds(x, a) == (base == i));
    assert(holds(x, b) == (base + 1 == i));
    assert(holds(x, c) == (base + 2 == i));
    assert(holds(x, d) == (base + 3 == i));
    let items = opt(holds(x, a), reg_name(a)) + opt(holds(x, b), reg_name(b)) + opt(holds(x, c), reg_name(c)) + opt(holds(x, d), reg_name(d));
    lemma_op_name(i);
    if i < 8 {
        assert(items =~= seq![op_name(i)]);
    } else {
        assert(items =~= Seq::<Seq<char>>::empty());
    }
    assert(operand(comp, i, false) =~= tilde(comp) + op_name(i));
}


/// The signals 0..12 of an operational word by its parts.
pub(crate) proof fn lemma_omc_alu_holds(
    rr: nat,
    lr: nat,
    comr: bool,
    coml: bool,
    pls: bool,
    sora: bool,
    cc: nat,
    wr: u64,
    acts: u64,
)
    requires
        omc_parts_ok(rr, lr, comr, coml, pls, sora, cc, wr, acts),
    ensures
        ({
            let x = omc_word(rr, lr, comr, coml, pls, sora, cc, wr, acts);
            &&& forall|k: nat| k < 8 ==> #[trigger] holds(x, BaseCs::spec_from_index(k)) == (k == rr || k == lr)
            &&& holds(x, BaseCs::COMR) == comr
            &&& holds(x, BaseCs::COML) == coml
            &&& holds(x, BaseCs::PLS1) == pls
            &&& holds(x, BaseCs::SORA) == sora
        }),
{
    let x = omc_word(rr, lr, comr, coml, pls, sora, cc, wr, acts);
    assert forall|k: nat| k < 8 implies #[trigger] holds(x, BaseCs::spec_from_index(k)) == (k == rr || k == lr) by {
        lemma_from_index_roundtrip(k);
        lemma_omc_bit(rr, lr, comr, coml, pls, sora, cc, wr, acts, k as u64);
    }
    lemma_omc_bit(rr, lr, comr, coml, pls, sora, cc, wr, acts, 8);
    lemma_omc_bit(rr, lr, comr, coml, pls, sora, cc, wr, acts, 9);
    lemma_omc_bit(rr, lr, comr, coml, pls, sora, cc, wr, acts, 10);
    lemma_omc_bit(rr, lr, comr, coml, pls, sora, cc, wr, acts, 11);
}

/// The ALU text of an operational word by its parts.
#[verifier::rlimit(40)]
pub(crate) proof fn lemma_alu_text_omc(
    rr: nat,
    lr: nat,
    comr: bool,
    coml: bool,
    pls: bool,
    sora: bool,
    cc: nat,
    wr: u64,
    acts: u64,
)
    requires
        omc_parts_ok(rr, lr, comr, coml, pls, sora, cc, wr, acts),
        cc >= 1,
    ensures
        alu_text(omc_word(rr, lr, comr, coml, pls, sora, cc, wr, acts)) == alu_expr(rr, lr, comr, coml, pls, sora, false),
{
    reveal_strlit(" + ");
    reveal_strlit(" + 1");
    reveal_strlit("1");
    reveal_strlit(" & ");
    let x = omc_word(rr, lr, comr, coml, pls, sora, cc, wr, acts);
    lemma_omc_alu_holds(rr, lr, comr, coml, pls, sora, cc, wr, acts);
    assert forall|k: nat| 0 <= k < 4 implies #[trigger] holds(x, BaseCs::spec_from_index(k)) == (k == rr) by {
        assert(holds(x, BaseCs::spec_from_index(k)) == (k == rr || k == lr));
    }
    assert forall|k: nat| 4 <= k < 8 implies #[trigger] holds(x, BaseCs::spec_from_index(k)) == (k == lr) by {
        assert(holds(x, BaseCs::spec_from_index(k)) == (k == rr || k == lr));
    }
    lemma_alu_side(x, rr, 0, comr, BaseCs::RDDR, BaseCs::RDCR, BaseCs::RDIP, BaseCs::RDSP);
    lemma_alu_side(x, lr, 4, coml, BaseCs::RDAC, BaseCs::RDBR, BaseCs::RDPS, BaseCs::RDIR);
    let l = alu_left(x);
    let r = alu_right(x);
    assert(l == (if coml || lr < 8 { operand(coml, lr, false) } else { Seq::empty() }));
    assert(r == (if comr || rr < 8 { operand(comr, rr, false) } else { Seq::empty() }));
    lemma_op_name(lr);
    lemma_op_name(rr);
    lemma_operand_chars(coml, lr, false);
    lemma_operand_chars(comr, rr, false);
    if sora {
        assert(alu_text(x) =~= alu_expr(rr, lr, comr, coml, pls, sora, false));
    } else {
        let p = if pls { "1"@ } else { Seq::<char>::empty() };
        lemma_drop_empty3(l, r, p);
        let le = coml || lr < 8;
        let re = comr || rr < 8;
        assert(alu_text(x) == join(drop_empty(seq![l, r, p]), " + "@));
        if le && re {
            if pls {
                assert(drop_empty(seq![l, r, p]) =~= seq![l, r, p]);
                lemma_join3(l, r, p, " + "@);
            } else {
                assert(drop_empty(seq![l, r, p]) =~= seq![l, r]);
                lemma_join2(l, r, " + "@);
            }
        } else if le {
            if pls {
                assert(drop_empty(seq![l, r, p]) =~= seq![l, p]);
                lemma_join2(l, p, " + "@);
            } else {
                assert(drop_empty(seq![l, r, p]) =~= seq![l]);
                lemma_join1(l, " + "@);
            }
        } else {
            if pls {
                assert(drop_empty(seq![l, r, p]) =~= seq![r, p]);
                lemma_join2(r, p, " + "@);
            } else {
                assert(drop_empty(seq![l, r, p]) =~= seq![r]);
                lemma_join1(r, " + "@);
            }
        }
        assert(alu_text(x) =~= alu_expr(rr, lr, comr, coml, pls, sora, false));
    }
}


/// The signals that an ALU text by its parts reads as.
pub open spec fn alu_expr_bits(rr: nat, lr: nat, comr: bool, coml: bool, pls: bool, sora: bool, lo7: bool) -> u64 {
    flag_word(comr, coml, pls, sora) | reg_bit(rr) | reg_bit(lr) | (if lo7 { 1u64 << 12u64 } else { 0u64 })
}

proof fn lemma_op_bits(i: nat, lo7: bool)
    requires
        i <= 8,
    ensures
        op_bits(i, lo7) == (if lo7 { 1u64 << 12u64 } else { 0u64 }) | reg_bit(i),
{
    if i < 8 {
        lemma_from_index_roundtrip(i);
        assert(sig(BaseCs::spec_from_index(i)) == 1u64 << (i as u64));
    } else {
        let s: u64 = if lo7 { 1u64 << 12u64 } else { 0u64 };
        assert(s == s | 0u64) by (bit_vector);
    }
}

/// An ALU text by its parts reads back as its signals; it passes a whole
/// register when it names one (without a selector).
#[verifier::rlimit(40)]
proof fn lemma_read_alu(rr: nat, lr: nat, comr: bool, coml: bool, pls: bool, sora: bool, lo7: bool)
    requires
        rr < 4 || rr == 8,
        4 <= lr <= 8,
        !(sora && pls),
        !(lo7 && pls),
        !sora && comr ==> lr < 8 || coml || rr < 8,
    ensures
        ({
            let x = alu_expr(rr, lr, comr, coml, pls, sora, lo7);
            let sh = alu_shape(x);
            &&& sh is Some
            &&& alu_bits(x, sh->0) matches OperandParsed::Read(b, d)
            &&& b == alu_expr_bits(rr, lr, comr, coml, pls, sora, lo7)
            &&& (!lo7 ==> d == (lr < 8 || rr < 8))
        }),
{
    let f = flag_word(comr, coml, pls, sora);
    let s: u64 = if lo7 { 1u64 << 12u64 } else { 0u64 };
    let rb = reg_bit(rr);
    let lb = reg_bit(lr);
    lemma_op_bits(rr, lo7);
    lemma_op_bits(lr, lo7);
    lemma_op_bits(lr, false);
    let le = coml || lr < 8;
    let re = comr || rr < 8;
    let c8: u64 = if comr { 1u64 << 8u64 } else { 0u64 };
    let c9: u64 = if coml { 1u64 << 9u64 } else { 0u64 };
    let c10: u64 = if pls { 1u64 << 10u64 } else { 0u64 };
    let c11: u64 = if sora { 1u64 << 11u64 } else { 0u64 };
    assert(f == c8 | c9 | c10 | c11);
    if sora || (le && re) {
        lemma_alu_pair(coml, lr, sora, comr, rr, lo7, if sora { false } else { pls });
        let g = flags_of(coml, comr, sora, pls);
        assert(g == ((c9 | c8) | c11) | c10);
        assert((g | (s | rb)) | (0u64 | lb) == f | rb | lb | s) by (bit_vector)
            requires
                g == ((c9 | c8) | c11) | c10,
                f == c8 | c9 | c10 | c11,
        ;
    } else if le {
        lemma_alu_single(coml, lr, lo7, pls);
        assert(!comr && !sora && rr == 8);
        let g = flags_of(coml, false, false, pls);
        assert(g == ((c9 | 0u64) | 0u64) | c10);
        assert(g | (s | lb) == f | 0u64 | lb | s) by (bit_vector)
            requires
                g == ((c9 | 0u64) | 0u64) | c10,
                f == 0u64 | c9 | c10 | 0u64,
        ;
    } else {
        lemma_alu_single(comr, rr, lo7, pls);
        assert(!coml && !sora && lr == 8);
        assert(comr ==> rr < 4);
        let g = flags_of(false, comr, false, pls);
        assert(g == ((0u64 | c8) | 0u64) | c10);
        assert(g | (s | rb) == f | rb | 0u64 | s) by (bit_vector)
            requires
                g == ((0u64 | c8) | 0u64) | c10,
                f == c8 | 0u64 | c10 | 0u64,
        ;
    }
}


/// The characters an ALU text is made of: upper-case letters, `0`, `~`,
/// space, `+`, `&`, `1`, and with a selector `(`, `.`, `7`, `)`.
pub open spec fn alu_char(c: char, lo7: bool) -> bool {
    ('A' <= c <= 'Z') || c == '0' || c == '~' || c == ' ' || c == '+' || c == '&' || c == '1' || (lo7
        && (c == '(' || c == '.' || c == '7' || c == ')'))
}

/// Every character of `s` is an ALU text character.
pub open spec fn alu_chars(s: Seq<char>, lo7: bool) -> bool {
    forall|k: int| 0 <= k < s.len() ==> alu_char(#[trigger] s[k], lo7)
}

proof fn lemma_alu_chars_concat(a: Seq<char>, b: Seq<char>, lo7: bool)
    requires
        alu_chars(a, lo7),
        alu_chars(b, lo7),
    ensures
        alu_chars(a + b, lo7),
{
    assert forall|k: int| 0 <= k < (a + b).len() implies alu_char(#[trigger] (a + b)[k], lo7) by {
        if k < a.len() {
            assert((a + b)[k] == a[k]);
        } else {
            assert((a + b)[k] == b[k - a.len()]);
        }
    }
}

proof fn lemma_operand_alu_chars(neg: bool, i: nat, lo7: bool, sel: bool)
    requires
        i <= 8,
        sel ==> lo7,
    ensures
        alu_chars(operand(neg, i, sel), lo7),
{
    reveal_strlit("~");
    reveal_strlit("(0..7)");
    lemma_op_name(i);
    let o = operand(neg, i, sel);
    let t = tilde(neg).len() as int;
    let n = op_name(i).len() as int;
    assert forall|k: int| 0 <= k < o.len() implies alu_char(#[trigger] o[k], lo7) by {
        if k < t {
            assert(o[k] == '~');
        } else if k < t + n {
            assert(o[k] == op_name(i)[k - t]);
        } else {
            assert(o[k] == low_sel(sel)[k - t - n]);
        }
    }
}

/// Facts about an ALU text by its parts that reading it needs.
#[verifier::rlimit(50)]
pub(crate) proof fn lemma_alu_expr_chars(rr: nat, lr: nat, comr: bool, coml: bool, pls: bool, sora: bool, lo7: bool)
    requires
        rr < 4 || rr == 8,
        4 <= lr <= 8,
        !(sora && pls),
        !(lo7 && pls),
        !sora && comr ==> lr < 8 || coml || rr < 8,
    ensures
        ({
            let x = alu_expr(rr, lr, comr, coml, pls, sora, lo7);
            &&& x.len() >= 1
            &&& alu_chars(x, lo7)
            &&& x[0] == '~' || x[0] == '0' || x[0] == 'D' || x[0] == 'C' || x[0] == 'I' || x[0] == 'S'
                || x[0] == 'A' || x[0] == 'B' || x[0] == 'P'
            &&& x[0] == 'S' ==> x.len() >= 2 && x[1] == 'P'
            &&& x[0] == 'A' ==> x.len() >= 2 && x[1] == 'C'
            &&& x[0] == 'I' ==> x.len() >= 2 && (x[1] == 'P' || x[1] == 'R')
            &&& x.last() != ' '
            &&& !lo7 ==> x.last() != ')'
            &&& lo7 ==> x == alu_expr(rr, lr, comr, coml, pls, sora, false) + "(0..7)"@
        }),
{
    reveal_strlit(" + ");
    reveal_strlit(" & ");
    reveal_strlit(" + 1");
    reveal_strlit("(0..7)");
    reveal_strlit("DR");
    reveal_strlit("CR");
    reveal_strlit("IP");
    reveal_strlit("SP");
    reveal_strlit("AC");
    reveal_strlit("BR");
    reveal_strlit("PS");
    reveal_strlit("IR");
    reveal_strlit("0");
    let x = alu_expr(rr, lr, comr, coml, pls, sora, lo7);
    let pl = plus_one(pls);
    assert(alu_chars(" + "@, lo7));
    assert(alu_chars(" & "@, lo7));
    assert(alu_chars(pl, lo7));
    lemma_op_name(rr);
    lemma_op_name(lr);
    lemma_operand_chars(coml, lr, false);
    lemma_operand_chars(comr, rr, lo7);
    lemma_operand_chars(coml, lr, lo7);
    lemma_operand_chars(false, rr, lo7);
    if sora || ((lr < 8 || coml) && (rr < 8 || comr)) {
        let sp = !sora && pls;
        let o1 = operand(coml, lr, false);
        let o2 = operand(comr, rr, lo7);
        let op = if sora { " & "@ } else { " + "@ };
        lemma_operand_alu_chars(coml, lr, lo7, false);
        lemma_operand_alu_chars(comr, rr, lo7, lo7);
        lemma_alu_chars_concat(o1, op, lo7);
        lemma_alu_chars_concat(o1 + op, o2, lo7);
        lemma_alu_chars_concat(o1 + op + o2, plus_one(sp), lo7);
        assert(x == o1 + op + o2 + plus_one(sp));
        assert(x[0] == o1[0]);
        if !coml {
            assert(o1[0] == op_name(lr)[0]);
            if lr < 8 {
                assert(x[1] == o1[1]);
                assert(o1[1] == op_name(lr)[1]);
            }
        }
        if lo7 {
            assert(operand(comr, rr, true) =~= operand(comr, rr, false) + "(0..7)"@);
            assert(x =~= alu_expr(rr, lr, comr, coml, pls, sora, false) + "(0..7)"@);
        }
        assert(x.last() == (o1 + op + o2 + plus_one(sp)).last());
    } else {
        let neg = if lr < 8 || coml { coml } else { comr };
        let i = if lr < 8 || coml { lr } else { rr };
        let o = operand(neg, i, lo7);
        lemma_operand_alu_chars(neg, i, lo7, lo7);
        lemma_alu_chars_concat(o, pl, lo7);
        assert(x == o + pl);
        assert(x[0] == o[0]);
        if !neg {
            assert(o[0] == op_name(i)[0]);
            if i < 8 {
                assert(x[1] == o[1]);
                assert(o[1] == op_name(i)[1]);
            }
        }
        if lo7 {
            assert(operand(neg, i, true) =~= operand(neg, i, false) + "(0..7)"@);
            assert(x =~= alu_expr(rr, lr, comr, coml, pls, sora, false) + "(0..7)"@);
        }
    }
}


/// Whether commutator code `cc` holds signal `j`.
pub open spec fn comm_has(cc: nat, j: u64) -> bool {
    if cc == 1 {
        j == 12 || j == 15
    } else if cc == 2 {
        j == 15
    } else if cc == 3 {
        j == 12 || j == 16
    } else if cc == 4 {
        j == 12
    } else if cc == 5 {
        j == 13 || j == 14
    } else if cc == 6 {
        j == 13
    } else if cc == 7 {
        j == 14
    } else if cc == 8 {
        j == 16
    } else if cc == 9 {
        j == 17 || j == 18
    } else if cc == 10 {
        j == 17
    } else if cc == 11 {
        j == 19 || j == 20
    } else if cc == 12 {
        j == 19
    } else {
        false
    }
}

proof fn lemma_comm_code_bit(j: u64)
    by (bit_vector)
    requires
        j < 64,
    ensures
        ((((1u64 << 12u64) | (1u64 << 15u64)) >> j) & 1u64 == 1u64) == (j == 12 || j == 15),
        ((((1u64 << 15u64)) >> j) & 1u64 == 1u64) == (j == 15),
        ((((1u64 << 12u64) | (1u64 << 16u64)) >> j) & 1u64 == 1u64) == (j == 12 || j == 16),
        ((((1u64 << 12u64)) >> j) & 1u64 == 1u64) == (j == 12),
        ((((1u64 << 13u64) | (1u64 << 14u64)) >> j) & 1u64 == 1u64) == (j == 13 || j == 14),
        ((((1u64 << 13u64)) >> j) & 1u64 == 1u64) == (j == 13),
        ((((1u64 << 14u64)) >> j) & 1u64 == 1u64) == (j == 14),
        ((((1u64 << 16u64)) >> j) & 1u64 == 1u64) == (j == 16),
        ((((1u64 << 17u64) | (1u64 << 18u64)) >> j) & 1u64 == 1u64) == (j == 17 || j == 18),
        ((((1u64 << 17u64)) >> j) & 1u64 == 1u64) == (j == 17),
        ((((1u64 << 19u64) | (1u64 << 20u64)) >> j) & 1u64 == 1u64) == (j == 19 || j == 20),
        ((((1u64 << 19u64)) >> j) & 1u64 == 1u64) == (j == 19),
        (0u64 >> j) & 1u64 != 1u64,
{
}

proof fn lemma_comm_holds(cc: nat, j: u64)
    requires
        cc <= 12,
        j < 64,
    ensures
        bit_at(comm_code_bits(cc), j) == comm_has(cc, j),
{
    lemma_comm_code_bit(j);
}

/// The name under which code `cc` wraps its ALU text (codes 2 and 4..=12).
pub open spec fn comm_name(cc: nat) -> Seq<char> {
    if cc == 2 {
        "HTOH"@
    } else if cc == 4 {
        "LTOL"@
    } else if cc == 5 {
        "SWAB"@
    } else if cc == 6 {
        "LTOH"@
    } else if cc == 7 {
        "HTOL"@
    } else if cc == 8 {
        "SEXT"@
    } else if cc == 9 {
        "ROL"@
    } else if cc == 10 {
        "SHL"@
    } else if cc == 11 {
        "ROR"@
    } else {
        "ASR"@
    }
}

/// The value that a word with commutator code `cc` and ALU text `alu`
/// reads, as it is printed.
pub open spec fn read_text(cc: nat, alu: Seq<char>) -> Seq<char> {
    if cc == 0 {
        "0"@
    } else if cc == 1 {
        alu
    } else if cc == 3 {
        "extend sign "@ + alu + "(0..7)"@
    } else {
        comm_name(cc) + "("@ + alu + ")"@
    }
}

/// The printed value of an operational word by its parts.
#[verifier::rlimit(40)]
pub(crate) proof fn lemma_full_text(
    rr: nat,
    lr: nat,
    comr: bool,
    coml: bool,
    pls: bool,
    sora: bool,
    cc: nat,
    wr: u64,
    acts: u64,
)
    requires
        omc_parts_ok(rr, lr, comr, coml, pls, sora, cc, wr, acts),
    ensures
        alu_full_text(omc_word(rr, lr, comr, coml, pls, sora, cc, wr, acts)) == read_text(
            cc,
            alu_text(omc_word(rr, lr, comr, coml, pls, sora, cc, wr, acts)),
        ),
{
    let x = omc_word(rr, lr, comr, coml, pls, sora, cc, wr, acts);
    lemma_omc_bit(rr, lr, comr, coml, pls, sora, cc, wr, acts, 12);
    lemma_omc_bit(rr, lr, comr, coml, pls, sora, cc, wr, acts, 13);
    lemma_omc_bit(rr, lr, comr, coml, pls, sora, cc, wr, acts, 14);
    lemma_omc_bit(rr, lr, comr, coml, pls, sora, cc, wr, acts, 15);
    lemma_omc_bit(rr, lr, comr, coml, pls, sora, cc, wr, acts, 16);
    lemma_omc_bit(rr, lr, comr, coml, pls, sora, cc, wr, acts, 17);
    lemma_omc_bit(rr, lr, comr, coml, pls, sora, cc, wr, acts, 18);
    lemma_omc_bit(rr, lr, comr, coml, pls, sora, cc, wr, acts, 19);
    lemma_omc_bit(rr, lr, comr, coml, pls, sora, cc, wr, acts, 20);
    lemma_comm_holds(cc, 12);
    lemma_comm_holds(cc, 13);
    lemma_comm_holds(cc, 14);
    lemma_comm_holds(cc, 15);
    lemma_comm_holds(cc, 16);
    lemma_comm_holds(cc, 17);
    lemma_comm_holds(cc, 18);
    lemma_comm_holds(cc, 19);
    lemma_comm_holds(cc, 20);
}


pub(crate) proof fn lemma_not_lit(r: Seq<char>, w: Seq<char>, k: int)
    requires
        0 <= k < w.len(),
        k < r.len() ==> r[k] != w[k],
    ensures
        !lit_at(r, 0, w),
{
    if lit_at(r, 0, w) {
        assert(r.subrange(0, w.len() as int)[k] == r[k]);
    }
}

pub(crate) proof fn lemma_seq_ne(a: Seq<char>, b: Seq<char>, k: int)
    requires
        a.len() != b.len() || (0 <= k < a.len() && k < b.len() && a[k] != b[k]),
    ensures
        a != b,
{
}

/// A commutator word and the bracket after it are no other commutator
/// word, and the word reads as the signals of its code.
proof fn lemma_comm_word(cc: nat, r: Seq<char>)
    requires
        cc == 2 || 4 <= cc <= 12,
        r.len() > comm_name(cc).len(),
        r.subrange(0, comm_name(cc).len() as int) == comm_name(cc),
        r[comm_name(cc).len() as int] == '(',
    ensures
        cc != 8 && cc != 10 ==> ops_word(r) == Some(comm_name(cc)),
        cc == 8 || cc == 10 ==> ops_word(r) is None,
        comm_bits(comm_name(cc)) == Some(comm_code_bits(cc)),
{
    reveal_strlit("ASL");
    reveal_strlit("ASR");
    reveal_strlit("EXTEND SIGN");
    reveal_strlit("HTOH");
    reveal_strlit("HTOL");
    reveal_strlit("LTOH");
    reveal_strlit("LTOL");
    reveal_strlit("ROL");
    reveal_strlit("ROR");
    reveal_strlit("SEXT");
    reveal_strlit("SHL");
    reveal_strlit("SHR");
    reveal_strlit("SWAB");
    let f = comm_name(cc);
    assert forall|k: int| 0 <= k < f.len() implies r[k] == f[k] by {
        assert(r.subrange(0, f.len() as int)[k] == r[k]);
    }
    if cc == 2 {
        assert(r[0] == f[0]);
        assert(r.len() > f.len() && forall|k: int| 0 <= k < f.len() ==> r[k] == f[k]);
        lemma_not_lit(r, "LTOL"@, 0);
        lemma_not_lit(r, "LTOH"@, 0);
        lemma_not_lit(r, "HTOL"@, 3);
        lemma_seq_ne(f, "LTOL"@, 0);
        lemma_seq_ne(f, "LTOH"@, 0);
        lemma_seq_ne(f, "HTOL"@, 3);
    } else if cc == 4 {
        assert(r[0] == f[0]);
        assert(r.len() > f.len() && forall|k: int| 0 <= k < f.len() ==> r[k] == f[k]);

    } else if cc == 5 {
        assert(r[0] == f[0]);
        assert(r.len() > f.len() && forall|k: int| 0 <= k < f.len() ==> r[k] == f[k]);
        lemma_not_lit(r, "LTOL"@, 0);
        lemma_not_lit(r, "LTOH"@, 0);
        lemma_not_lit(r, "HTOL"@, 0);
        lemma_not_lit(r, "HTOH"@, 0);
        lemma_seq_ne(f, "LTOL"@, 0);
        lemma_seq_ne(f, "LTOH"@, 0);
        lemma_seq_ne(f, "HTOL"@, 0);
        lemma_seq_ne(f, "HTOH"@, 0);
    } else if cc == 6 {
        assert(r[0] == f[0]);
        assert(r.len() > f.len() && forall|k: int| 0 <= k < f.len() ==> r[k] == f[k]);
        lemma_not_lit(r, "LTOL"@, 3);
        lemma_seq_ne(f, "LTOL"@, 3);
    } else if cc == 7 {
        assert(r[0] == f[0]);
        assert(r.len() > f.len() && forall|k: int| 0 <= k < f.len() ==> r[k] == f[k]);
        lemma_not_lit(r, "LTOL"@, 0);
        lemma_not_lit(r, "LTOH"@, 0);
        lemma_seq_ne(f, "LTOL"@, 0);
        lemma_seq_ne(f, "LTOH"@, 0);
    } else if cc == 8 {
        assert(r[0] == f[0]);
        assert(r.len() > f.len() && forall|k: int| 0 <= k < f.len() ==> r[k] == f[k]);
        lemma_not_lit(r, "LTOL"@, 0);
        lemma_not_lit(r, "LTOH"@, 0);
        lemma_not_lit(r, "HTOL"@, 0);
        lemma_not_lit(r, "HTOH"@, 0);
        lemma_not_lit(r, "SWAB"@, 1);
        lemma_not_lit(r, "EXTEND SIGN"@, 0);
        lemma_not_lit(r, "ROR"@, 0);
        lemma_not_lit(r, "ROL"@, 0);
        lemma_not_lit(r, "ASR"@, 0);
        lemma_not_lit(r, "ASL"@, 0);
        lemma_seq_ne(f, "LTOL"@, 0);
        lemma_seq_ne(f, "LTOH"@, 0);
        lemma_seq_ne(f, "HTOL"@, 0);
        lemma_seq_ne(f, "HTOH"@, 0);
        lemma_seq_ne(f, "SWAB"@, 1);
        lemma_seq_ne(f, "EXTEND SIGN"@, 0);
    } else if cc == 9 {
        assert(r[0] == f[0]);
        assert(r.len() > f.len() && forall|k: int| 0 <= k < f.len() ==> r[k] == f[k]);
        lemma_not_lit(r, "LTOL"@, 0);
        lemma_not_lit(r, "LTOH"@, 0);
        lemma_not_lit(r, "HTOL"@, 0);
        lemma_not_lit(r, "HTOH"@, 0);
        lemma_not_lit(r, "SWAB"@, 0);
        lemma_not_lit(r, "EXTEND SIGN"@, 0);
        lemma_not_lit(r, "ROR"@, 2);
        lemma_seq_ne(f, "LTOL"@, 0);
        lemma_seq_ne(f, "LTOH"@, 0);
        lemma_seq_ne(f, "HTOL"@, 0);
        lemma_seq_ne(f, "HTOH"@, 0);
        lemma_seq_ne(f, "SWAB"@, 0);
        lemma_seq_ne(f, "EXTEND SIGN"@, 0);
        lemma_seq_ne(f, "SEXT"@, 0);
        lemma_seq_ne(f, "ROR"@, 2);
    } else if cc == 10 {
        assert(r[0] == f[0]);
        assert(r.len() > f.len() && forall|k: int| 0 <= k < f.len() ==> r[k] == f[k]);
        lemma_not_lit(r, "LTOL"@, 0);
        lemma_not_lit(r, "LTOH"@, 0);
        lemma_not_lit(r, "HTOL"@, 0);
        lemma_not_lit(r, "HTOH"@, 0);
        lemma_not_lit(r, "SWAB"@, 1);
        lemma_not_lit(r, "EXTEND SIGN"@, 0);
        lemma_not_lit(r, "ROR"@, 0);
        lemma_not_lit(r, "ROL"@, 0);
        lemma_not_lit(r, "ASR"@, 0);
        lemma_not_lit(r, "ASL"@, 0);
        lemma_seq_ne(f, "LTOL"@, 0);
        lemma_seq_ne(f, "LTOH"@, 0);
        lemma_seq_ne(f, "HTOL"@, 0);
        lemma_seq_ne(f, "HTOH"@, 0);
        lemma_seq_ne(f, "SWAB"@, 0);
        lemma_seq_ne(f, "EXTEND SIGN"@, 0);
        lemma_seq_ne(f, "SEXT"@, 0);
        lemma_seq_ne(f, "ROR"@, 0);
        lemma_seq_ne(f, "ROL"@, 0);
        lemma_seq_ne(f, "ASR"@, 0);
        lemma_seq_ne(f, "SHR"@, 2);
        lemma_seq_ne(f, "ASL"@, 0);
    } else if cc == 11 {
        assert(r[0] == f[0]);
        assert(r.len() > f.len() && forall|k: int| 0 <= k < f.len() ==> r[k] == f[k]);
        lemma_not_lit(r, "LTOL"@, 0);
        lemma_not_lit(r, "LTOH"@, 0);
        lemma_not_lit(r, "HTOL"@, 0);
        lemma_not_lit(r, "HTOH"@, 0);
        lemma_not_lit(r, "SWAB"@, 0);
        lemma_not_lit(r, "EXTEND SIGN"@, 0);
        lemma_seq_ne(f, "LTOL"@, 0);
        lemma_seq_ne(f, "LTOH"@, 0);
        lemma_seq_ne(f, "HTOL"@, 0);
        lemma_seq_ne(f, "HTOH"@, 0);
        lemma_seq_ne(f, "SWAB"@, 0);
        lemma_seq_ne(f, "EXTEND SIGN"@, 0);
        lemma_seq_ne(f, "SEXT"@, 0);
    } else if cc == 12 {
        assert(r[0] == f[0]);
        assert(r.len() > f.len() && forall|k: int| 0 <= k < f.len() ==> r[k] == f[k]);
        lemma_not_lit(r, "LTOL"@, 0);
        lemma_not_lit(r, "LTOH"@, 0);
        lemma_not_lit(r, "HTOL"@, 0);
        lemma_not_lit(r, "HTOH"@, 0);
        lemma_not_lit(r, "SWAB"@, 0);
        lemma_not_lit(r, "EXTEND SIGN"@, 0);
        lemma_not_lit(r, "ROR"@, 0);
        lemma_not_lit(r, "ROL"@, 0);
        lemma_seq_ne(f, "LTOL"@, 0);
        lemma_seq_ne(f, "LTOH"@, 0);
        lemma_seq_ne(f, "HTOL"@, 0);
        lemma_seq_ne(f, "HTOH"@, 0);
        lemma_seq_ne(f, "SWAB"@, 0);
        lemma_seq_ne(f, "EXTEND SIGN"@, 0);
        lemma_seq_ne(f, "SEXT"@, 0);
        lemma_seq_ne(f, "ROR"@, 0);
        lemma_seq_ne(f, "ROL"@, 0);
    }
    assert(r.subrange(0, f.len() as int) =~= f);
}


proof fn lemma_last_open_span(r: Seq<char>, i: int, q: int)
    requires
        1 <= q <= i < r.len(),
        r[q] == '(',
        forall|k: int| q < k <= i ==> #[trigger] r[k] != '(',
    ensures
        last_open(r, i) == q,
    decreases i,
{
    if i > q {
        lemma_last_open_span(r, i - 1, q);
    }
}

pub(crate) proof fn lemma_alu_chars_no_newline(x: Seq<char>, lo7: bool)
    requires
        alu_chars(x, lo7),
    ensures
        no_newline(x),
        no_lower(x),
{
    assert forall|i: int| 0 <= i < x.len() implies x[i] != '\n' by {
        assert(alu_char(x[i], lo7));
    }
    assert forall|i: int| 0 <= i < x.len() implies !('a' <= #[trigger] x[i] && x[i] <= 'z') by {
        assert(alu_char(x[i], lo7));
    }
}

/// A plain ALU text names no commutator function.
proof fn lemma_split_plain(x: Seq<char>)
    requires
        x.len() >= 1,
        alu_chars(x, false),
        x[0] == '~' || x[0] == '0' || x[0] == 'D' || x[0] == 'C' || x[0] == 'I' || x[0] == 'S'
            || x[0] == 'A' || x[0] == 'B' || x[0] == 'P',
        x[0] == 'S' ==> x.len() >= 2 && x[1] == 'P',
        x[0] == 'A' ==> x.len() >= 2 && x[1] == 'C',
    ensures
        comm_split(x) is None,
{
    reveal_strlit("LTOL");
    reveal_strlit("LTOH");
    reveal_strlit("HTOL");
    reveal_strlit("HTOH");
    reveal_strlit("SWAB");
    reveal_strlit("EXTEND SIGN");
    reveal_strlit("ROR");
    reveal_strlit("ROL");
    reveal_strlit("ASR");
    reveal_strlit("ASL");
    lemma_alu_chars_no_newline(x, false);
    lemma_not_lit(x, "LTOL"@, 0);
    lemma_not_lit(x, "LTOH"@, 0);
    lemma_not_lit(x, "HTOL"@, 0);
    lemma_not_lit(x, "HTOH"@, 0);
    lemma_not_lit(x, "SWAB"@, if x[0] == 'S' { 1 } else { 0 });
    lemma_not_lit(x, "EXTEND SIGN"@, 0);
    lemma_not_lit(x, "ROR"@, 0);
    lemma_not_lit(x, "ROL"@, 0);
    lemma_not_lit(x, "ASR"@, if x[0] == 'A' { 1 } else { 0 });
    lemma_not_lit(x, "ASL"@, if x[0] == 'A' { 1 } else { 0 });
    assert(alu_char(x.last(), false));
}

/// A named commutator function around an ALU text: the function and the
/// text inside it.
pub(crate) proof fn lemma_split_named(cc: nat, x: Seq<char>)
    requires
        cc == 2 || 4 <= cc <= 12,
        x.len() >= 1,
        alu_chars(x, false),
    ensures
        ({
            let r = comm_name(cc) + "("@ + x + ")"@;
            let n = comm_name(cc).len() as int;
            &&& cc != 8 && cc != 10 ==> comm_split(r) == Some((comm_name(cc), n, r.len() as int))
                && r.subrange(n, r.len() as int) == "("@ + x + ")"@
            &&& (cc == 8 || cc == 10) ==> comm_split(r) == Some((comm_name(cc), n + 1, r.len() - 1))
                && r.subrange(n + 1, r.len() - 1) == x
            &&& comm_bits(comm_name(cc)) == Some(comm_code_bits(cc))
            &&& no_lower(r)
        }),
{
    reveal_strlit("(");
    reveal_strlit(")");
    reveal_strlit("HTOH");
    reveal_strlit("LTOL");
    reveal_strlit("SWAB");
    reveal_strlit("LTOH");
    reveal_strlit("HTOL");
    reveal_strlit("SEXT");
    reveal_strlit("ROL");
    reveal_strlit("SHL");
    reveal_strlit("ROR");
    reveal_strlit("ASR");
    let f = comm_name(cc);
    let n = f.len() as int;
    let r = f + "("@ + x + ")"@;
    assert(3 <= n <= 4);
    assert(r.subrange(0, n) =~= f);
    assert(r[n] == '(');
    lemma_comm_word(cc, r);
    lemma_alu_chars_no_newline(x, false);
    assert(no_newline(r)) by {
        assert forall|i: int| 0 <= i < r.len() implies r[i] != '\n' by {
            if n + 1 <= i < n + 1 + x.len() {
                assert(r[i] == x[i - n - 1]);
            }
        }
    }
    assert(no_lower(r)) by {
        assert forall|i: int| 0 <= i < r.len() implies !('a' <= #[trigger] r[i] && r[i] <= 'z') by {
            if n + 1 <= i < n + 1 + x.len() {
                assert(r[i] == x[i - n - 1]);
            }
        }
    }
    if cc == 8 || cc == 10 {
        assert forall|k: int| n < k <= r.len() - 2 implies #[trigger] r[k] != '(' by {
            assert(r[k] == x[k - n - 1]);
            assert(alu_char(x[k - n - 1], false));
        }
        lemma_last_open_span(r, r.len() - 2, n);
        assert(r.take(n) =~= f);
        assert(r.subrange(n + 1, r.len() - 1) =~= x);
    } else {
        assert(r.subrange(n, r.len() as int) =~= "("@ + x + ")"@);
    }
}

/// `EXTEND SIGN` before an ALU text: the function and what follows it.
proof fn lemma_split_extend(x: Seq<char>)
    requires
        alu_chars(x, true),
    ensures
        ({
            let r = "EXTEND SIGN "@ + x;
            &&& comm_split(r) == Some(("EXTEND SIGN"@, 11int, r.len() as int))
            &&& r.subrange(11, r.len() as int) == " "@ + x
            &&& comm_bits("EXTEND SIGN"@) == Some(1u64 << 16u64)
        }),
{
    reveal_strlit("EXTEND SIGN ");
    reveal_strlit("EXTEND SIGN");
    reveal_strlit("LTOL");
    reveal_strlit("LTOH");
    reveal_strlit("HTOL");
    reveal_strlit("HTOH");
    reveal_strlit("SWAB");
    reveal_strlit(" ");
    let r = "EXTEND SIGN "@ + x;
    lemma_not_lit(r, "LTOL"@, 0);
    lemma_not_lit(r, "LTOH"@, 0);
    lemma_not_lit(r, "HTOL"@, 0);
    lemma_not_lit(r, "HTOH"@, 0);
    lemma_not_lit(r, "SWAB"@, 0);
    assert(r.subrange(0, 11) =~= "EXTEND SIGN"@);
    lemma_alu_chars_no_newline(x, true);
    assert(no_newline(r)) by {
        assert forall|i: int| 0 <= i < r.len() implies r[i] != '\n' by {
            if i >= 12 {
                assert(r[i] == x[i - 12]);
            }
        }
    }
    assert(r.subrange(11, r.len() as int) =~= " "@ + x);
    lemma_seq_ne("EXTEND SIGN"@, "LTOL"@, 0);
    lemma_seq_ne("EXTEND SIGN"@, "LTOH"@, 0);
    lemma_seq_ne("EXTEND SIGN"@, "HTOL"@, 0);
    lemma_seq_ne("EXTEND SIGN"@, "HTOH"@, 0);
    lemma_seq_ne("EXTEND SIGN"@, "SWAB"@, 0);
}


proof fn lemma_or_norm(g: u64, cb: u64, wb: u64)
    by (bit_vector)
    ensures
        cb | ((g | 0u64) | wb) == (g | cb) | wb,
        (1u64 << 16u64) | (((g | (1u64 << 12u64)) | 0u64) | wb) == ((g | 0u64) | ((1u64 << 12u64) | (
        1u64 << 16u64))) | wb,
{
}

/// A plain ALU text as the value of a transfer.
proof fn lemma_transfer_plain(a0: Seq<char>, w: Seq<char>, wb: u64, ab: u64, d: bool)
    requires
        a0.len() >= 1,
        alu_chars(a0, false),
        a0[0] == '~' || a0[0] == '0' || a0[0] == 'D' || a0[0] == 'C' || a0[0] == 'I' || a0[0] == 'S'
            || a0[0] == 'A' || a0[0] == 'B' || a0[0] == 'P',
        a0[0] == 'S' ==> a0.len() >= 2 && a0[1] == 'P',
        a0[0] == 'A' ==> a0.len() >= 2 && a0[1] == 'C',
        a0.last() != ' ',
        alu_shape(a0) is Some,
        alu_bits(a0, alu_shape(a0)->0) == OperandParsed::Read(ab, d),
        writes_bits(" "@ + w) == Parsed::Bits(wb),
    ensures
        transfer_bits(a0 + " "@, " "@ + w) == Parsed::Bits((ab | (if d {
            sig(BaseCs::LTOL) | sig(BaseCs::HTOH)
        } else {
            0u64
        })) | wb),
{
    lemma_split_plain(a0);
    assert(!is_ws(a0[0]) && !is_ws(a0.last())) by {
        assert(alu_char(a0.last(), false));
    }
    lemma_trim_right_pad(a0);
    lemma_trim_pad(a0);
    assert(!wrapped_alu(a0));
}

/// A named commutator function around an ALU text as the value of a
/// transfer.
#[verifier::rlimit(40)]
#[verifier::spinoff_prover]
proof fn lemma_transfer_named(cc: nat, a0: Seq<char>, w: Seq<char>, wb: u64, ab: u64, d: bool)
    requires
        cc == 2 || 4 <= cc <= 12,
        a0.len() >= 1,
        alu_chars(a0, false),
        a0[0] != '(',
        a0[0] != ' ',
        a0.last() != ' ',
        alu_shape(a0) is Some,
        alu_bits(a0, alu_shape(a0)->0) == OperandParsed::Read(ab, d),
        writes_bits(" "@ + w) == Parsed::Bits(wb),
    ensures
        transfer_bits(comm_name(cc) + "("@ + a0 + ")"@ + " "@, " "@ + w) == Parsed::Bits(
            comm_code_bits(cc) | ((ab | 0u64) | wb),
        ),
{
    reveal_strlit("(");
    reveal_strlit(")");
    reveal_strlit("HTOH");
    reveal_strlit("LTOL");
    reveal_strlit("SWAB");
    reveal_strlit("LTOH");
    reveal_strlit("HTOL");
    reveal_strlit("SEXT");
    reveal_strlit("ROL");
    reveal_strlit("SHL");
    reveal_strlit("ROR");
    reveal_strlit("ASR");
    lemma_split_named(cc, a0);
    let f = comm_name(cc);
    let rd = f + "("@ + a0 + ")"@;
    assert(rd[0] == f[0]);
    lemma_trim_right_pad(rd);
    assert(!is_ws(a0[0]) && !is_ws(a0.last())) by {
        assert(alu_char(a0[0], false));
        assert(alu_char(a0.last(), false));
    }
    if cc == 8 || cc == 10 {
        lemma_trim_pad(a0);
        assert(!wrapped_alu(a0));
    } else {
        let inner = "("@ + a0 + ")"@;
        lemma_trim_pad(inner);
        assert(inner.subrange(1, inner.len() - 1) =~= a0);
        assert(wrapped_alu(inner));
    }
}

/// `EXTEND SIGN` and an ALU text with its selector as the value of a
/// transfer.
proof fn lemma_transfer_extend(a7: Seq<char>, w: Seq<char>, wb: u64, ab: u64, d: bool)
    requires
        a7.len() >= 1,
        alu_chars(a7, true),
        a7[0] != '(',
        a7[0] != ' ',
        a7.last() != ' ',
        alu_shape(a7) is Some,
        alu_bits(a7, alu_shape(a7)->0) == OperandParsed::Read(ab, d),
        writes_bits(" "@ + w) == Parsed::Bits(wb),
    ensures
        transfer_bits("EXTEND SIGN "@ + a7 + " "@, " "@ + w) == Parsed::Bits(
            (1u64 << 16u64) | ((ab | 0u64) | wb),
        ),
{
    reveal_strlit("EXTEND SIGN ");
    let rd = "EXTEND SIGN "@ + a7;
    lemma_split_extend(a7);
    assert(rd[0] == 'E');
    assert(rd.last() == a7.last());
    assert(!is_ws(a7[0]) && !is_ws(a7.last())) by {
        assert(alu_char(a7[0], true));
        assert(alu_char(a7.last(), true));
    }
    lemma_trim_right_pad(rd);
    lemma_trim_pad(a7);
    assert(!wrapped_alu(a7));
}

/// What reading the ALU text of the parts needs of it.
pub open spec fn alu_ready(rr: nat, lr: nat, comr: bool, coml: bool, pls: bool, sora: bool) -> bool {
    &&& (rr < 4 || rr == 8)
    &&& 4 <= lr <= 8
    &&& !(sora && pls)
    &&& (!sora && comr ==> lr < 8 || coml || rr < 8)
}

#[verifier::rlimit(40)]
pub(crate) proof fn lemma_read_transfer_plain(rr: nat, lr: nat, comr: bool, coml: bool, pls: bool, sora: bool, w: Seq<char>, wb: u64)
    requires
        alu_ready(rr, lr, comr, coml, pls, sora),
        lr < 8 || rr < 8,
        writes_bits(" "@ + w) == Parsed::Bits(wb),
    ensures
        transfer_bits(upper(read_text(1, alu_expr(rr, lr, comr, coml, pls, sora, false))) + " "@, " "@ + w)
            == Parsed::Bits((alu_expr_bits(rr, lr, comr, coml, pls, sora, false) | comm_code_bits(1)) | wb),
{
    let a0 = alu_expr(rr, lr, comr, coml, pls, sora, false);
    lemma_alu_expr_chars(rr, lr, comr, coml, pls, sora, false);
    lemma_read_alu(rr, lr, comr, coml, pls, sora, false);
    lemma_alu_chars_no_newline(a0, false);
    lemma_upper_fixed(a0);
    lemma_transfer_plain(a0, w, wb, alu_expr_bits(rr, lr, comr, coml, pls, sora, false), true);
    assert(sig(BaseCs::LTOL) | sig(BaseCs::HTOH) == comm_code_bits(1));
}

/// The value `0` of a transfer with no commutator signal.
pub(crate) proof fn lemma_read_transfer_zero(w: Seq<char>, wb: u64)
    requires
        writes_bits(" "@ + w) == Parsed::Bits(wb),
    ensures
        transfer_bits(upper(read_text(0, alu_expr(8, 8, false, false, false, false, false))) + " "@, " "@ + w)
            == Parsed::Bits((alu_expr_bits(8, 8, false, false, false, false, false) | comm_code_bits(0)) | wb),
{
    reveal_strlit("0");
    let a0 = alu_expr(8, 8, false, false, false, false, false);
    lemma_alu_expr_chars(8, 8, false, false, false, false, false);
    lemma_read_alu(8, 8, false, false, false, false, false);
    lemma_op_name(8);
    assert(a0 =~= "0"@) by {
        assert(operand(false, 8, false) =~= op_name(8));
    }
    lemma_upper_fixed(a0);
    let d = alu_bits(a0, alu_shape(a0)->0)->Read_1;
    lemma_transfer_plain(a0, w, wb, alu_expr_bits(8, 8, false, false, false, false, false), d);
    assert(!d);
}

#[verifier::rlimit(40)]
pub(crate) proof fn lemma_read_transfer_extend(rr: nat, lr: nat, comr: bool, coml: bool, pls: bool, sora: bool, w: Seq<char>, wb: u64)
    requires
        alu_ready(rr, lr, comr, coml, pls, sora),
        !pls,
        writes_bits(" "@ + w) == Parsed::Bits(wb),
    ensures
        transfer_bits(upper(read_text(3, alu_expr(rr, lr, comr, coml, pls, sora, false))) + " "@, " "@ + w)
            == Parsed::Bits((alu_expr_bits(rr, lr, comr, coml, pls, sora, false) | comm_code_bits(3)) | wb),
{
    reveal_strlit("(0..7)");
    let a0 = alu_expr(rr, lr, comr, coml, pls, sora, false);
    let a7 = alu_expr(rr, lr, comr, coml, pls, sora, true);
    lemma_alu_expr_chars(rr, lr, comr, coml, pls, sora, true);
    lemma_read_alu(rr, lr, comr, coml, pls, sora, true);
    lemma_alu_chars_no_newline(a7, true);
    assert(read_text(3, a0) =~= "extend sign "@ + a7);
    lemma_upper_fixed(a7);
    lemma_upper_concat("extend sign "@, a7);
    lemma_upper_if_then();
    let g = (flag_word(comr, coml, pls, sora) | reg_bit(rr)) | reg_bit(lr);
    let ab7 = alu_bits(a7, alu_shape(a7)->0)->Read_0;
    assert(ab7 == g | (1u64 << 12u64));
    lemma_transfer_extend(a7, w, wb, ab7, alu_bits(a7, alu_shape(a7)->0)->Read_1);
    lemma_or_norm(g, comm_code_bits(3), wb);
}

#[verifier::rlimit(40)]
pub(crate) proof fn lemma_read_transfer_named(rr: nat, lr: nat, comr: bool, coml: bool, pls: bool, sora: bool, cc: nat, w: Seq<char>, wb: u64)
    requires
        alu_ready(rr, lr, comr, coml, pls, sora),
        cc == 2 || 4 <= cc <= 12,
        writes_bits(" "@ + w) == Parsed::Bits(wb),
    ensures
        transfer_bits(upper(read_text(cc, alu_expr(rr, lr, comr, coml, pls, sora, false))) + " "@, " "@ + w)
            == Parsed::Bits((alu_expr_bits(rr, lr, comr, coml, pls, sora, false) | comm_code_bits(cc)) | wb),
{
    let a0 = alu_expr(rr, lr, comr, coml, pls, sora, false);
    lemma_alu_expr_chars(rr, lr, comr, coml, pls, sora, false);
    lemma_read_alu(rr, lr, comr, coml, pls, sora, false);
    let g = (flag_word(comr, coml, pls, sora) | reg_bit(rr)) | reg_bit(lr);
    let ab = alu_expr_bits(rr, lr, comr, coml, pls, sora, false);
    assert(ab == g | 0u64);
    lemma_split_named(cc, a0);
    lemma_upper_fixed(comm_name(cc) + "("@ + a0 + ")"@);
    lemma_transfer_named(cc, a0, w, wb, ab, alu_bits(a0, alu_shape(a0)->0)->Read_1);
    lemma_or_norm(ab, comm_code_bits(cc), wb);
}


// ---------------------------------------------------------------------------
// Written destinations

/// The name of destination token number `i` (0..12).
pub open spec fn wname(i: nat) -> Seq<char> {
    if i == 0 {
        "DR"@
    } else if i == 1 {
        "CR"@
    } else if i == 2 {
        "IP"@
    } else if i == 3 {
        "SP"@
    } else if i == 4 {
        "AC"@
    } else if i == 5 {
        "BR"@
    } else if i == 6 {
        "PS"@
    } else if i == 7 {
        "AR"@
    } else if i == 8 {
        "N"@
    } else if i == 9 {
        "Z"@
    } else if i == 10 {
        "V"@
    } else {
        "C"@
    }
}

/// The signal of destination token number `i`.
pub open spec fn wsig(i: nat) -> BaseCs {
    if i == 0 {
        BaseCs::WRDR
    } else if i == 1 {
        BaseCs::WRCR
    } else if i == 2 {
        BaseCs::WRIP
    } else if i == 3 {
        BaseCs::WRSP
    } else if i == 4 {
        BaseCs::WRAC
    } else if i == 5 {
        BaseCs::WRBR
    } else if i == 6 {
        BaseCs::WRPS
    } else if i == 7 {
        BaseCs::WRAR
    } else if i == 8 {
        BaseCs::STNZ
    } else if i == 9 {
        BaseCs::STNZ
    } else if i == 10 {
        BaseCs::SETV
    } else {
        BaseCs::SETC
    }
}

/// The destination tokens of `x` among the first `m`.
pub open spec fn wtoks(x: u64, m: nat) -> Seq<Seq<char>>
    decreases m,
{
    if m == 0 {
        Seq::empty()
    } else {
        wtoks(x, (m - 1) as nat) + opt(holds(x, wsig((m - 1) as nat)), wname((m - 1) as nat))
    }
}

/// The signals of the destination tokens of `x` among the first `m`.
pub open spec fn wacc(x: u64, m: nat) -> u64
    decreases m,
{
    if m == 0 {
        0u64
    } else if holds(x, wsig((m - 1) as nat)) {
        wacc(x, (m - 1) as nat) | sig(wsig((m - 1) as nat))
    } else {
        wacc(x, (m - 1) as nat)
    }
}

pub(crate) proof fn lemma_wname(i: nat)
    requires
        i < 12,
    ensures
        1 <= wname(i).len() <= 2,
        write_sig(wname(i)) == Some(wsig(i)),
        lacks(wname(i), ','),
        !is_ws(wname(i)[0]),
        !is_ws(wname(i).last()),
        no_lower(wname(i)),
        no_newline(wname(i)),
        'A' <= wname(i).last() <= 'Z',
        forall|k: int| 0 <= k < wname(i).len() ==> 'A' <= #[trigger] wname(i)[k] <= 'Z',
        lacks(wname(i), 'T'),
{
    reveal_strlit("DR");
    reveal_strlit("CR");
    reveal_strlit("IP");
    reveal_strlit("SP");
    reveal_strlit("AC");
    reveal_strlit("BR");
    reveal_strlit("PS");
    reveal_strlit("AR");
    reveal_strlit("C");
    reveal_strlit("V");
    reveal_strlit("N");
    reveal_strlit("Z");
    if i == 0 {

    } else if i == 1 {
        lemma_seq_ne("CR"@, "DR"@, 0);
    } else if i == 2 {
        lemma_seq_ne("IP"@, "DR"@, 0);
        lemma_seq_ne("IP"@, "CR"@, 0);
    } else if i == 3 {
        lemma_seq_ne("SP"@, "DR"@, 0);
        lemma_seq_ne("SP"@, "CR"@, 0);
        lemma_seq_ne("SP"@, "IP"@, 0);
    } else if i == 4 {
        lemma_seq_ne("AC"@, "DR"@, 0);
        lemma_seq_ne("AC"@, "CR"@, 0);
        lemma_seq_ne("AC"@, "IP"@, 0);
        lemma_seq_ne("AC"@, "SP"@, 0);
    } else if i == 5 {
        lemma_seq_ne("BR"@, "DR"@, 0);
        lemma_seq_ne("BR"@, "CR"@, 0);
        lemma_seq_ne("BR"@, "IP"@, 0);
        lemma_seq_ne("BR"@, "SP"@, 0);
        lemma_seq_ne("BR"@, "AC"@, 0);
    } else if i == 6 {
        lemma_seq_ne("PS"@, "DR"@, 0);
        lemma_seq_ne("PS"@, "CR"@, 0);
        lemma_seq_ne("PS"@, "IP"@, 0);
        lemma_seq_ne("PS"@, "SP"@, 0);
        lemma_seq_ne("PS"@, "AC"@, 0);
        lemma_seq_ne("PS"@, "BR"@, 0);
    } else if i == 7 {
        lemma_seq_ne("AR"@, "DR"@, 0);
        lemma_seq_ne("AR"@, "CR"@, 0);
        lemma_seq_ne("AR"@, "IP"@, 0);
        lemma_seq_ne("AR"@, "SP"@, 0);
        lemma_seq_ne("AR"@, "AC"@, 1);
        lemma_seq_ne("AR"@, "BR"@, 0);
        lemma_seq_ne("AR"@, "PS"@, 0);
    } else if i == 8 {
        lemma_seq_ne("N"@, "DR"@, 0);
        lemma_seq_ne("N"@, "CR"@, 0);
        lemma_seq_ne("N"@, "IP"@, 0);
        lemma_seq_ne("N"@, "SP"@, 0);
        lemma_seq_ne("N"@, "AC"@, 0);
        lemma_seq_ne("N"@, "BR"@, 0);
        lemma_seq_ne("N"@, "PS"@, 0);
        lemma_seq_ne("N"@, "AR"@, 0);
        lemma_seq_ne("N"@, "C"@, 0);
        lemma_seq_ne("N"@, "V"@, 0);
    } else if i == 9 {
        lemma_seq_ne("Z"@, "DR"@, 0);
        lemma_seq_ne("Z"@, "CR"@, 0);
        lemma_seq_ne("Z"@, "IP"@, 0);
        lemma_seq_ne("Z"@, "SP"@, 0);
        lemma_seq_ne("Z"@, "AC"@, 0);
        lemma_seq_ne("Z"@, "BR"@, 0);
        lemma_seq_ne("Z"@, "PS"@, 0);
        lemma_seq_ne("Z"@, "AR"@, 0);
        lemma_seq_ne("Z"@, "C"@, 0);
        lemma_seq_ne("Z"@, "V"@, 0);
    } else if i == 10 {
        lemma_seq_ne("V"@, "DR"@, 0);
        lemma_seq_ne("V"@, "CR"@, 0);
        lemma_seq_ne("V"@, "IP"@, 0);
        lemma_seq_ne("V"@, "SP"@, 0);
        lemma_seq_ne("V"@, "AC"@, 0);
        lemma_seq_ne("V"@, "BR"@, 0);
        lemma_seq_ne("V"@, "PS"@, 0);
        lemma_seq_ne("V"@, "AR"@, 0);
        lemma_seq_ne("V"@, "C"@, 0);
    } else if i == 11 {
        lemma_seq_ne("C"@, "DR"@, 0);
        lemma_seq_ne("C"@, "CR"@, 0);
        lemma_seq_ne("C"@, "IP"@, 0);
        lemma_seq_ne("C"@, "SP"@, 0);
        lemma_seq_ne("C"@, "AC"@, 0);
        lemma_seq_ne("C"@, "BR"@, 0);
        lemma_seq_ne("C"@, "PS"@, 0);
        lemma_seq_ne("C"@, "AR"@, 0);
    }
}

pub(crate) proof fn lemma_wtoks_prefix(x: u64, m: nat, m2: nat)
    requires
        m <= m2,
    ensures
        wtoks(x, m2).len() >= wtoks(x, m).len(),
        wtoks(x, m2).take(wtoks(x, m).len() as int) == wtoks(x, m),
    decreases m2,
{
    if m2 > m {
        lemma_wtoks_prefix(x, m, (m2 - 1) as nat);
        let n = wtoks(x, m).len() as int;
        assert(wtoks(x, m2).take(n) =~= wtoks(x, (m2 - 1) as nat).take(n));
    } else {
        assert(wtoks(x, m2).take(wtoks(x, m).len() as int) =~= wtoks(x, m));
    }
}

pub(crate) proof fn lemma_wtoks_shape(x: u64, m: nat, k: int)
    requires
        m <= 12,
        0 <= k < wtoks(x, m).len(),
    ensures
        exists|i: nat| i < m && wtoks(x, m)[k] == wname(i),
    decreases m,
{
    let p = wtoks(x, (m - 1) as nat);
    if k < p.len() {
        lemma_wtoks_shape(x, (m - 1) as nat, k);
        let i = choose|i: nat| i < m - 1 && p[k] == wname(i);
        assert(wtoks(x, m)[k] == p[k]);
    } else {
        assert(wtoks(x, m)[k] == wname((m - 1) as nat));
    }
}

pub(crate) proof fn lemma_writes_scan(x: u64, toks: Seq<Seq<char>>, m: nat)
    requires
        m <= 12,
        toks.len() == wtoks(x, 12).len(),
        forall|i: int| 0 <= i < toks.len() ==> trim(#[trigger] toks[i]) == wtoks(x, 12)[i],
    ensures
        writes_scan(toks, wtoks(x, m).len()) == Parsed::Bits(wacc(x, m)),
    decreases m,
{
    if m > 0 {
        let j = (m - 1) as nat;
        lemma_writes_scan(x, toks, j);
        let c = wtoks(x, j).len();
        if holds(x, wsig(j)) {
            lemma_wtoks_prefix(x, m, 12);
            assert(wtoks(x, m) == wtoks(x, j) + seq![wname(j)]);
            assert(wtoks(x, 12)[c as int] == wtoks(x, m)[c as int]);
            lemma_wname(j);
        } else {
            assert(wtoks(x, m) =~= wtoks(x, j));
        }
    }
}


pub(crate) proof fn lemma_wr_decompose(wr: u64)
    by (bit_vector)
    requires
        wr & !0xFFE0_0000u64 == 0,
    ensures
        wr == (if (wr >> 21u64) & 1u64 == 1u64 { (if (wr >> 22u64) & 1u64 == 1u64 { (if (wr >> 23u64) & 1u64 == 1u64 { (if (wr >> 23u64) & 1u64 == 1u64 { (if (wr >> 31u64) & 1u64 == 1u64 { (if (wr >> 30u64) & 1u64 == 1u64 { (if (wr >> 29u64) & 1u64 == 1u64 { (if (wr >> 28u64) & 1u64 == 1u64 { (if (wr >> 27u64) & 1u64 == 1u64 { (if (wr >> 26u64) & 1u64 == 1u64 { (if (wr >> 25u64) & 1u64 == 1u64 { (if (wr >> 24u64) & 1u64 == 1u64 { 0u64 | (1u64 << 24u64) } else { 0u64 }) | (1u64 << 25u64) } else { (if (wr >> 24u64) & 1u64 == 1u64 { 0u64 | (1u64 << 24u64) } else { 0u64 }) }) | (1u64 << 26u64) } else { (if (wr >> 25u64) & 1u64 == 1u64 { (if (wr >> 24u64) & 1u64 == 1u64 { 0u64 | (1u64 << 24u64) } else { 0u64 }) | (1u64 << 25u64) } else { (if (wr >> 24u64) & 1u64 == 1u64 { 0u64 | (1u64 << 24u64) } else { 0u64 }) }) }) | (1u64 << 27u64) } else { (if (wr >> 26u64) & 1u64 == 1u64 { (if (wr >> 25u64) & 1u64 == 1u64 { (if (wr >> 24u64) & 1u64 == 1u64 { 0u64 | (1u64 << 24u64) } else { 0u64 }) | (1u64 << 25u64) } else { (if (wr >> 24u64) & 1u64 == 1u64 { 0u64 | (1u64 << 24u64) } else { 0u64 }) }) | (1u64 << 26u64) } else { (if (wr >> 25u64) & 1u64 == 1u64 { (if (wr >> 24u64) & 1u64 == 1u64 { 0u64 | (1u64 << 24u64) } else { 0u64 }) | (1u64 << 25u64) } else { (if (wr >> 24u64) & 1u64 == 1u64 { 0u64 | (1u64 << 24u64) } else { 0u64 }) }) }) }) | (1u64 << 28u64) } else { (if (wr >> 27u64) & 1u64 == 1u64 { (if (wr >> 26u64) & 1u64 == 1u64 { (if (wr >> 25u64) & 1u64 == 1u64 { (if (wr >> 24u64) & 1u64 == 1u64 { 0u64 | (1u64 << 24u64) } else { 0u64 }) | (1u64 << 25u64) } else { (if (wr >> 24u64) & 1u64 == 1u64 { 0u64 | (1u64 << 24u64) } else { 0u64 }) }) | (1u64 << 26u64) } else { (if (wr >> 25u64) & 1u64 == 1u64 { (if (wr >> 24u64) & 1u64 == 1u64 { 0u64 | (1u64 << 24u64) } else { 0u64 }) | (1u64 << 25u64) } else { (if (wr >> 24u64) & 1u64 == 1u64 { 0u64 | (1u64 << 24u64) } else { 0u64 }) }) }) | (1u64 << 27u64) } else { (if (wr >> 26u64) & 1u64 == 1u64 { (if (wr >> 25u64) & 1u64 == 1u64 { (if (wr >> 24u64) & 1u64 == 1u64 { 0u64 | (1u64 << 24u64) } else { 0u64 }) | (1u64 << 25u64) } else { (if (wr >> 24u64) & 1u64 == 1u64 { 0u64 | (1u64 << 24u64) } else { 0u64 }) }) | (1u64 << 26u64) } else { (if (wr >> 25u64) & 1u64 == 1u64 { (if (wr >> 24u64) & 1u64 == 1u64 { 0u64 | (1u64 << 24u64) } else { 0u64 }) | (1u64 << 25u64) } else { (if (wr >> 24u64) & 1u64 == 1u64 { 0u64 | (1u64 << 24u64) } else { 0u64 }) }) }) }) }) | (1u64 << 29u64) } else { (if (wr >> 28u64) & 1u64 == 1u64 { (if (wr >> 27u64) & 1u64 == 1u64 { (if (wr >> 26u64) & 1u64 == 1u64 { (if (wr >> 25u64) & 1u64 == 1u64 { (if (wr >> 24u64) & 1u64 == 1u64 { 0u64 | (1u64 << 24u64) } else { 0u64 }) | (1u64 << 25u64) } else { (if (wr >> 24u64) & 1u64 == 1u64 { 0u64 | (1u64 << 24u64) } else { 0u64 }) }) | (1u64 << 26u64) } else { (if (wr >> 25u64) & 1u64 == 1u64 { (if (wr >> 24u64) & 1u64 == 1u64 { 0u64 | (1u64 << 24u64) } else { 0u64 }) | (1u64 << 25u64) } else { (if (wr >> 24u64) & 1u64 == 1u64 { 0u64 | (1u64 << 24u64) } else { 0u64 }) }) }) | (1u64 << 27u64) } else { (if (wr >> 26u64) & 1u64 == 1u64 { (if (wr >> 25u64) & 1u64 == 1u64 { (if (wr >> 24u64) & 1u64 == 1u64 { 0u64 | (1u64 << 24u64) } else { 0u64 }) | (1u64 << 25u64) } else { (if (wr >> 24u64) & 1u64 == 1u64 { 0u64 | (1u64 << 24u64) } else { 0u64 }) }) | (1u64 << 26u64) } else { (if (wr >> 25u64) & 1u64 == 1u64 { (if (wr >> 24u64) & 1u64 == 1u64 { 0u64 | (1u64 << 24u64) } else { 0u64 }) | (1u64 << 25u64) } else { (if (wr >> 24u64) & 1u64 == 1u64 { 0u64 | (1u64 << 24u64) } else { 0u64 }) }) }) }) | (1u64 << 28u64) } else { (if (wr >> 27u64) & 1u64 == 1u64 { (if (wr >> 26u64) & 1u64 == 1u64 { (if (wr >> 25u64) & 1u64 == 1u64 { (if (wr >> 24u64) & 1u64 == 1u64 { 0u64 | (1u64 << 24u64) } else { 0u64 }) | (1u64 << 25u64) } else { (if (wr >> 24u64) & 1u64 == 1u64 { 0u64 | (1u64 << 24u64) } else { 0u64 }) }) | (1u64 << 26u64) } else { (if (wr >> 25u64) & 1u64 == 1u64 { (if (wr >> 24u64) & 1u64 == 1u64 { 0u64 | (1u64 << 24u64) } else { 0u64 }) | (1u64 << 25u64) } else { (if (wr >> 24u64) & 1u64 == 1u64 { 0u64 | (1u64 << 24u64) } else { 0u64 }) }) }) | (1u64 << 27u64) } else { (if (wr >> 26u64) & 1u64 == 1u64 { (if (wr >> 25u64) & 1u64 == 1u64 { (if (wr >> 24u64) & 1u64 == 1u64 { 0u64 | (1u64 << 24u64) } else { 0u64 }) | (1u64 << 25u64) } else { (if (wr >> 24u64) & 1u64 == 1u64 { 0u64 | (1u64 << 24u64) } else { 0u64 }) }) | (1u64 << 26u64) } else { (if (wr >> 25u64) & 1u64 == 1u64 { (if (wr >> 24u64) & 1u64 == 1u64 { 0u64 | (1u64 << 24u64) } else { 0u64 }) | (1u64 << 25u64) } else { (if (wr >> 24u64) & 1u64 == 1u64 { 0u64 | (1u64 << 24u64) } else { 0u64 }) }) }) }) }) }) | (1u64 << 30u64) } else { (if (wr >> 29u64) & 1u64 == 1u64 { (if (wr >> 28u64) & 1u64 == 1u64 { (if (wr >> 27u64) & 1u64 == 1u64 { (if (wr >> 26u64) & 1u64 == 1u64 { (if (wr >> 25u64) & 1u64 == 1u64 { (if (wr >> 24u64) & 1u64 == 1u64 { 0u64 | (1u64 << 24u64) } else { 0u64 }) | (1u64 << 25u64) } else { (if (wr >> 24u64) & 1u64 == 1u64 { 0u64 | (1u64 << 24u64) } else { 0u64 }) }) | (1u64 << 26u64) } else { (if (wr >> 25u64) & 1u64 == 1u64 { (if (wr >> 24u64) & 1u64 == 1u64 { 0u64 | (1u64 << 24u64) } else { 0u64 }) | (1u64 << 25u64) } else { (if (wr >> 24u64) & 1u64 == 1u64 { 0u64 | (1u64 << 24u64) } else { 0u64 }) }) }) | (1u64 << 27u64) } else { (if (wr >> 26u64) & 1u64 == 1u64 { (if (wr >> 25u64) & 1u64 == 1u64 { (if (wr >> 24u64) & 1u64 == 1u64 { 0u64 | (1u64 << 24u64) } else { 0u64 }) | (1u64 << 25u64) } else { (if (wr >> 24u64) & 1u64 == 1u64 { 0u64 | (1u64 << 24u64) } else { 0u64 }) }) | (1u64 << 26u64) } else { (if (wr >> 25u64) & 1u64 == 1u64 { (if (wr >> 24u64) & 1u64 == 1u64 { 0u64 | (1u64 << 24u64) } else { 0u64 }) | (1u64 << 25u64) } else { (if (wr >> 24u64) & 1u64 == 1u64 { 0u64 | (1u64 << 24u64) } else { 0u64 }) }) }) }) | (1u64 << 28u64) } else { (if (wr >> 27u64) & 1u64 == 1u64 { (if (wr >> 26u64) & 1u64 == 1u64 { (if (wr >> 25u64) & 1u64 == 1u64 { (if (wr >> 24u64) & 1u64 == 1u64 { 0u64 | (1u64 << 24u64) } else { 0u64 }) | (1u64 << 25u64) } else { (if (wr >> 24u64) & 1u64 == 1u64 { 0u64 | (1u64 << 24u64) } else { 0u64 }) }) | (1u64 << 26u64) } else { (if (wr >> 25u64) & 1u64 == 1u64 { (if (wr >> 24u64) & 1u64 == 1u64 { 0u64 | (1u64 << 24u64) } else { 0u64 }) | (1u64 << 25u64) } else { (if (wr >> 24u64) & 1u64 == 1u64 { 0u64 | (1u64 << 24u64) } else { 0u64 }) }) }) | (1u64 << 27u64) } else { (if (wr >> 26u64) & 1u64 == 1u64 { (if (wr >> 25u64) & 1u64 == 1u64 { (if (wr >> 24u64) & 1u64 == 1u64 { 0u64 | (1u64 << 24u64) } else { 0u64 }) | (1u64 << 25u64) } else { (if (wr >> 24u64) & 1u64 == 1u64 { 0u64 | (1u64 << 24u64) } else { 0u64 }) }) | (1u64 << 26u64) } else { (if (wr >> 25u64) & 1u64 == 1u64 { (if (wr >> 24u64) & 1u64 == 1u64 { 0u64 | (1u64 << 24u64) } else { 0u64 }) | (1u64 << 25u64) } else { (if (wr >> 24u64) & 1u64 == 1u64 { 0u64 | (1u64 << 24u64) } else { 0u64 }) }) }) }) }) | (1u64 << 29u64) } else { (if (wr >> 28u64) & 1u64 == 1u64 { (if (wr >> 27u64) & 1u64 == 1u64 { (if (wr >> 26u64) & 1u64 == 1u64 { (if (wr >> 25u64) & 1u64 == 1u64 { (if (wr >> 24u64) & 1u64 == 1u64 { 0u64 | (1u64 << 24u64) } else { 0u64 }) | (1u64 << 25u64) } else { (if (wr >> 24u64) & 1u64 == 1u64 { 0u64 | (1u64 << 24u64) } else { 0u64 }) }) | (1u64 << 26u64) } else { (if (wr >> 25u64) & 1u64 == 1u64 { (if (wr >> 24u64) & 1u64 == 1u64 { 0u64 | (1u64 << 24u64) } else { 0u64 }) | (1u64 << 25u64) } else { (if (wr >> 24u64) & 1u64 == 1u64 { 0u64 | (1u64 << 24u64) } else { 0u64 }) }) }) | (1u64 << 27u64) } else { (if (wr >> 26u64) & 1u64 == 1u64 { (if (wr >> 25u64) & 1u64 == 1u64 { (if (wr >> 24u64) & 1u64 == 1u64 { 0u64 | (1u64 << 24u64) } else { 0u64 }) | (1u64 << 25u64) } else { (if (wr >> 24u64) & 1u64 == 1u64 { 0u64 | (1u64 << 24u64) } else { 0u64 }) }) | (1u64 << 26u64) } else { (if (wr >> 25u64) & 1u64 == 1u64 { (if (wr >> 24u64) & 1u64 == 1u64 { 0u64 | (1u64 << 24u64) } else { 0u64 }) | (1u64 << 25u64) } else { (if (wr >> 24u64) & 1u64 == 1u64 { 0u64 | (1u64 << 24u64) } else { 0u64 }) }) }) }) | (1u64 << 28u64) } else { (if (wr >> 27u64) & 1u64 == 1u64 { (if (wr >> 26u64) & 1u64 == 1u64 { (if (wr >> 25u64) & 1u64 == 1u64 { (if (wr >> 24u64) & 1u64 == 1u64 { 0u64 | (1u64 << 24u64) } else { 0u64 }) | (1u64 << 25u64) } else { (if (wr >> 24u64) & 1u64 == 1u64 { 0u64 | (1u64 << 24u64) } else { 0u64 }) }) | (1u64 << 26u64) } else { (if (wr >> 25u64) & 1u64 == 1u64 { (if (wr >> 24u64) & 1u64 == 1u64 { 0u64 | (1u64 << 24u64) } else { 0u64 }) | (1u64 << 25u64) } else { (if (wr >> 24u64) & 1u64 == 1u64 { 0u64 | (1u64 << 24u64) } else { 0u64 }) }) }) | (1u64 << 27u64) } else { (if (wr >> 26u64) & 1u64 == 1u64 { (if (wr >> 25u64) & 1u64 == 1u64 { (if (wr >> 24u64) & 1u64 == 1u64 { 0u64 | (1u64 << 24u64) } else { 0u64 }) | (1u64 << 25u64) } else { (if (wr >> 24u64) & 1u64 == 1u64 { 0u64 | (1u64 << 24u64) } else { 0u64 }) }) | (1u64 << 26u64) } else { (if (wr >> 25u64) & 1u64 == 1u64 { (if (wr >> 24u64) & 1u64 == 1u64 { 0u64 | (1u64 << 24u64) } else { 0u64 }) | (1u64 << 25u64) } else { (if (wr >> 24u64) & 1u64 == 1u64 { 0u64 | (1u64 << 24u64) } else { 0u64 }) }) }) }) }) }) }) | (1u64 << 31u64) } else { (if (wr >> 30u64) & 1u64 == 1u64 { (if (wr >> 29u64) & 1u64 == 1u64 { (if (wr >> 28u64) & 1u64 == 1u64 { (if (wr >> 27u64) & 1u64 == 1u64 { (if (wr >> 26u64) & 1u64 == 1u64 { (if (wr >> 25u64) & 1u64 == 1u64 { (if (wr >> 24u64) & 1u64 == 1u64 { 0u64 | (1u64 << 24u64) } else { 0u64 }) | (1u64 << 25u64) } else { (if (wr >> 24u64) & 1u64 == 1u64 { 0u64 | (1u64 << 24u64) } else { 0u64 }) }) | (1u64 << 26u64) } else { (if (wr >> 25u64) & 1u64 == 1u64 { (if (wr >> 24u64) & 1u64 == 1u64 { 0u64 | (1u64 << 24u64) } else { 0u64 }) | (1u64 << 25u64) } else { (if (wr >> 24u64) & 1u64 == 1u64 { 0u64 | (1u64 << 24u64) } else { 0u64 }) }) }) | (1u64 << 27u64) } else { (if (wr >> 26u64) & 1u64 == 1u64 { (if (wr >> 25u64) & 1u64 == 1u64 { (if (wr >> 24u64) & 1u64 == 1u64 { 0u64 | (1u64 << 24u64) } else { 0u64 }) | (1u64 << 25u64) } else { (if (wr >> 24u64) & 1u64 == 1u64 { 0u64 | (1u64 << 24u64) } else { 0u64 }) }) | (1u64 << 26u64) } else { (if (wr >> 25u64) & 1u64 == 1u64 { (if (wr >> 24u64) & 1u64 == 1u64 { 0u64 | (1u64 << 24u64) } else { 0u64 }) | (1u64 << 25u64) } else { (if (wr >> 24u64) & 1u64 == 1u64 { 0u64 | (1u64 << 24u64) } else { 0u64 }) }) }) }) | (1u64 << 28u64) } else { (if (wr >> 27u64) & 1u64 == 1u64 { (if (wr >> 26u64) & 1u64 == 1u64 { (if (wr >> 25u64) & 1u64 == 1u64 { (if (wr >> 24u64) & 1u64 == 1u64 { 0u64 | (1u64 << 24u64) } else { 0u64 }) | (1u64 << 25u64) } else { (if (wr >> 24u64) & 1u64 == 1u64 { 0u64 | (1u64 << 24u64) } else { 0u64 }) }) | (1u64 << 26u64) } else { (if (wr >> 25u64) & 1u64 == 1u64 { (if (wr >> 24u64) & 1u64 == 1u64 { 0u64 | (1u64 << 24u64) } else { 0u64 }) | (1u64 << 25u64) } else { (if (wr >> 24u64) & 1u64 == 1u64 { 0u64 | (1u64 << 24u64) } else { 0u64 }) }) }) | (1u64 << 27u64) } else { (if (wr >> 26u64) & 1u64 == 1u64 { (if (wr >> 25u64) & 1u64 == 1u64 { (if (wr >> 24u64) & 1u64 == 1u64 { 0u64 | (1u64 << 24u64) } else { 0u64 }) | (1u64 << 25u64) } else { (if (wr >> 24u64) & 1u64 == 1u64 { 0u64 | (1u64 << 24u64) } else { 0u64 }) }) | (1u64 << 26u64) } else { (if (wr >> 25u64) & 1u64 == 1u64 { (if (wr >> 24u64) & 1u64 == 1u64 { 0u64 | (1u64 << 24u64) } else { 0u64 }) | (1u64 << 25u64) } else { (if (wr >> 24u64) & 1u64 == 1u64 { 0u64 | (1u64 << 24u64) } else { 0u64 }) }) }) }) }) | (1u64 << 29u64) } else { (if (wr >> 28u64) & 1u64 == 1u64 { (if (wr >> 27u64) & 1u64 == 1u64 { (if (wr >> 26u64) & 1u64 == 1u64 { (if (wr >> 25u64) & 1u64 == 1u64 { (if (wr >> 24u64) & 1u64 == 1u64 { 0u64 | (1u64 << 24u64) } else { 0u64 }) | (1u64 << 25u64) } else { (if (wr >> 24u64) & 1u64 == 1u64 { 0u64 | (1u64 << 24u64) } else { 0u64 }) }) | (1u64 << 26u64) } else { (if (wr >> 25u64) & 1u64 == 1u64 { (if (wr >> 24u64) & 1u64 == 1u64 { 0u64 | (1u64 << 24u64) } else { 0u64 }) | (1u64 << 25u64) } else { (if (wr >> 24u64) & 1u64 == 1u64 { 0u64 | (1u64 << 24u64) } else { 0u64 }) }) }) | (1u64 << 27u64) } else { (if (wr >> 26u64) & 1u64 == 1u64 { (if (wr >> 25u64) & 1u64 == 1u64 { (if (wr >> 24u64) & 1u64 == 1u64 { 0u64 | (1u64 << 24u64) } else { 0u64 }) | (1u64 << 25u64) } else { (if (wr >> 24u64) & 1u64 == 1u64 { 0u64 | (1u64 << 24u64) } else { 0u64 }) }) | (1u64 << 26u64) } else { (if (wr >> 25u64) & 1u64 == 1u64 { (if (wr >> 24u64) & 1u64 == 1u64 { 0u64 | (1u64 << 24u64) } else { 0u64 }) | (1u64 << 25u64) } else { (if (wr >> 24u64) & 1u64 == 1u64 { 0u64 | (1u64 << 24u64) } else { 0u64 }) }) }) }) | (1u64 << 28u64) } else { (if (wr >> 27u64) & 1u64 == 1u64 { (if (wr >> 26u64) & 1u64 == 1u64 { (if (wr >> 25u64) & 1u64 == 1u64 { (if (wr >> 24u64) & 1u64 == 1u64 { 0u64 | (1u64 << 24u64) } else { 0u64 }) | (1u64 << 25u64) } else { (if (wr >> 24u64) & 1u64 == 1u64 { 0u64 | (1u64 << 24u64) } else { 0u64 }) }) | (1u64 << 26u64) } else { (if (wr >> 25u64) & 1u64 == 1u64 { (if (wr >> 24u64) & 1u64 == 1u64 { 0u64 | (1u64 << 24u64) } else { 0u64 }) | (1u64 << 25u64) } else { (if (wr >> 24u64) & 1u64 == 1u64 { 0u64 | (1u64 << 24u64) } else { 0u64 }) }) }) | (1u64 << 27u64) } else { (if (wr >> 26u64) & 1u64 == 1u64 { (if (wr >> 25u64) & 1u64 == 1u64 { (if (wr >> 24u64) & 1u64 == 1u64 { 0u64 | (1u64 << 24u64) } else { 0u64 }) | (1u64 << 25u64) } else { (if (wr >> 24u64) & 1u64 == 1u64 { 0u64 | (1u64 << 24u64) } else { 0u64 }) }) | (1u64 << 26u64) } else { (if (wr >> 25u64) & 1u64 == 1u64 { (if (wr >> 24u64) & 1u64 == 1u64 { 0u64 | (1u64 << 24u64) } else { 0u64 }) | (1u64 << 25u64) } else { (if (wr >> 24u64) & 1u64 == 1u64 { 0u64 | (1u64 << 24u64) } else { 0u64 }) }) }) }) }) }) | (1u64 << 30u64) } else { (if (wr >> 29u64) & 1u64 == 1u64 { (if (wr >> 28u64) & 1u64 == 1u64 { (if (wr >> 27u64) & 1u64 == 1u64 { (if (wr >> 26u64) & 1u64 == 1u64 { (if (wr >> 25u64) & 1u64 == 1u64 { (if (wr >> 24u64) & 1u64 == 1u64 { 0u64 | (1u64 << 24u64) } else { 0u64 }) | (1u64 << 25u64) } else { (if (wr >> 24u64) & 1u64 == 1u64 { 0u64 | (1u64 << 24u64) } else { 0u64 }) }) | (1u64 << 26u64) } else { (if (wr >> 25u64) & 1u64 == 1u64 { (if (wr >> 24u64) & 1u64 == 1u64 { 0u64 | (1u64 << 24u64) } else { 0u64 }) | (1u64 << 25u64) } else { (if (wr >> 24u64) & 1u64 == 1u64 { 0u64 | (1u64 << 24u64) } else { 0u64 }) }) }) | (1u64 << 27u64) } else { (if (wr >> 26u64) & 1u64 == 1u64 { (if (wr >> 25u64) & 1u64 == 1u64 { (if (wr >> 24u64) & 1u64 == 1u64 { 0u64 | (1u64 << 24u64) } else { 0u64 }) | (1u64 << 25u64) } else { (if (wr >> 24u64) & 1u64 == 1u64 { 0u64 | (1u64 << 24u64) } else { 0u64 }) }) | (1u64 << 26u64) } else { (if (wr >> 25u64) & 1u64 == 1u64 { (if (wr >> 24u64) & 1u64 == 1u64 { 0u64 | (1u64 << 24u64) } else { 0u64 }) | (1u64 << 25u64) } else { (if (wr >> 24u64) & 1u64 == 1u64 { 0u64 | (1u64 << 24u64) } else { 0u64 }) }) }) }) | (1u64 << 28u64) } else { (if (wr >> 27u64) & 1u64 == 1u64 { (if (wr >> 26u64) & 1u64 == 1u64 { (if (wr >> 25u64) & 1u64 == 1u64 { (if (wr >> 24u64) & 1u64 == 1u64 { 0u64 | (1u64 << 24u64) } else { 0u64 }) | (1u64 << 25u64) } else { (if (wr >> 24u64) & 1u64 == 1u64 { 0u64 | (1u64 << 24u64) } else { 0u64 }) }) | (1u64 << 26u64) } else { (if (wr >> 25u64) & 1u64 == 1u64 { (if (wr >> 24u64) & 1u64 == 1u64 { 0u64 | (1u64 << 24u64) } else { 0u64 }) | (1u64 << 25u64) } else { (if (wr >> 24u64) & 1u64 == 1u64 { 0u64 | (1u64 << 24u64) } else { 0u64 }) }) }) | (1u64 << 27u64) } else { (if (wr >> 26u64) & 1u64 == 1u64 { (if (wr >> 25u64) & 1u64 == 1u64 { (if (wr >> 24u64) & 1u64 == 1u64 { 0u64 | (1u64 << 24u64) } else { 0u64 }) | (1u64 << 25u64) } else { (if (wr >> 24u64) & 1u64 == 1u64 { 0u64 | (1u64 << 24u64) } else { 0u64 }) }) | (1u64 << 26u64) } else { (if (wr >> 25u64) & 1u64 == 1u64 { (if (wr >> 24u64) & 1u64 == 1u64 { 0u64 | (1u64 << 24u64) } else { 0u64 }) | (1u64 << 25u64) } else { (if (wr >> 24u64) & 1u64 == 1u64 { 0u64 | (1u64 << 24u64) } else { 0u64 }) }) }) }) }) | (1u64 << 29u64) } else { (if (wr >> 28u64) & 1u64 == 1u64 { (if (wr >> 27u64) & 1u64 == 1u64 { (if (wr >> 26u64) & 1u64 == 1u64 { (if (wr >> 25u64) & 1u64 == 1u64 { (if (wr >> 24u64) & 1u64 == 1u64 { 0u64 | (1u64 << 24u64) } else { 0u64 }) | (1u64 << 25u64) } else { (if (wr >> 24u64) & 1u64 == 1u64 { 0u64 | (1u64 << 24u64) } else { 0u64 }) }) | (1u64 << 26u64) } else { (if (wr >> 25u64) & 1u64 == 1u64 { (if (wr >> 24u64) & 1u64 == 1u64 { 0u64 | (1u64 << 24u64) } else { 0u64 }) | (1u64 << 25u64) } else { (if (wr >> 24u64) & 1u64 == 1u64 { 0u64 | (1u64 << 24u64) } else { 0u64 }) }) }) | (1u64 << 27u64) } else { (if (wr >> 26u64) & 1u64 == 1u64 { (if (wr >> 25u64) & 1u64 == 1u64 { (if (wr >> 24u64) & 1u64 == 1u64 { 0u64 | (1u64 << 24u64) } else { 0u64 }) | (1u64 << 25u64) } else { (if (wr >> 24u64) & 1u64 == 1u64 { 0u64 | (1u64 << 24u64) } else { 0u64 }) }) | (1u64 << 26u64) } else { (if (wr >> 25u64) & 1u64 == 1u64 { (if (wr >> 24u64) & 1u64 == 1u64 { 0u64 | (1u64 << 24u64) } else { 0u64 }) | (1u64 << 25u64) } else { (if (wr >> 24u64) & 1u64 == 1u64 { 0u64 | (1u64 << 24u64) } else { 0u64 }) }) }) }) | (1u64 << 28u64) } else { (if (wr >> 27u64) & 1u64 == 1u64 { (if (wr >> 26u64) & 1u64 == 1u64 { (if (wr >> 25u64) & 1u64 == 1u64 { (if (wr >> 24u64) & 1u64 == 1u64 { 0u64 | (1u64 << 24u64) } else { 0u64 }) | (1u64 << 25u64) } else { (if (wr >> 24u64) & 1u64 == 1u64 { 0u64 | (1u64 << 24u64) } else { 0u64 }) }) | (1u64 << 26u64) } else { (if (wr >> 25u64) & 1u64 == 1u64 { (if (wr >> 24u64) & 1u64 == 1u64 { 0u64 | (1u64 << 24u64) } else { 0u64 }) | (1u64 << 25u64) } else { (if (wr >> 24u64) & 1u64 == 1u64 { 0u64 | (1u64 << 24u64) } else { 0u64 }) }) }) | (1u64 << 27u64) } else { (if (wr >> 26u64) & 1u64 == 1u64 { (if (wr >> 25u64) & 1u64 == 1u64 { (if (wr >> 24u64) & 1u64 == 1u64 { 0u64 | (1u64 << 24u64) } else { 0u64 }) | (1u64 << 25u64) } else { (if (wr >> 24u64) & 1u64 == 1u64 { 0u64 | (1u64 << 24u64) } else { 0u64 }) }) | (1u64 << 26u64) } else { (if (wr >> 25u64) & 1u64 == 1u64 { (if (wr >> 24u64) & 1u64 == 1u64 { 0u64 | (1u64 << 24u64) } else { 0u64 }) | (1u64 << 25u64) } else { (if (wr >> 24u64) & 1u64 == 1u64 { 0u64 | (1u64 << 24u64) } else { 0u64 }) }) }) }) }) }) }) }) | (1u64 << 23u64) } else { (if (wr >> 31u64) & 1u64 == 1u64 { (if (wr >> 30u64) & 1u64 == 1u64 { (if (wr >> 29u64) & 1u64 == 1u64 { (if (wr >> 28u64) & 1u64 == 1u64 { (if (wr >> 27u64) & 1u64 == 1u64 { (if (wr >> 26u64) & 1u64 == 1u64 { (if (wr >> 25u64) & 1u64 == 1u64 { (if (wr >> 24u64) & 1u64 == 1u64 { 0u64 | (1u64 << 24u64) } else { 0u64 }) | (1u64 << 25u64) } else { (if (wr >> 24u64) & 1u64 == 1u64 { 0u64 | (1u64 << 24u64) } else { 0u64 }) }) | (1u64 << 26u64) } else { (if (wr >> 25u64) & 1u64 == 1u64 { (if (wr >> 24u64) & 1u64 == 1u64 { 0u64 | (1u64 << 24u64) } else { 0u64 }) | (1u64 << 25u64) } else { (if (wr >> 24u64) & 1u64 == 1u64 { 0u64 | (1u64 << 24u64) } else { 0u64 }) }) }) | (1u64 << 27u64) } else { (if (wr >> 26u64) & 1u64 == 1u64 { (if (wr >> 25u64) & 1u64 == 1u64 { (if (wr >> 24u64) & 1u64 == 1u64 { 0u64 | (1u64 << 24u64) } else { 0u64 }) | (1u64 << 25u64) } else { (if (wr >> 24u64) & 1u64 == 1u64 { 0u64 | (1u64 << 24u64) } else { 0u64 }) }) | (1u64 << 26u64) } else { (if (wr >> 25u64) & 1u64 == 1u64 { (if (wr >> 24u64) & 1u64 == 1u64 { 0u64 | (1u64 << 24u64) } else { 0u64 }) | (1u64 << 25u64) } else { (if (wr >> 24u64) & 1u64 == 1u64 { 0u64 | (1u64 << 24u64) } else { 0u64 }) }) }) }) | (1u64 << 28u64) } else { (if (wr >> 27u64) & 1u64 == 1u64 { (if (wr >> 26u64) & 1u64 == 1u64 { (if (wr >> 25u64) & 1u64 == 1u64 { (if (wr >> 24u64) & 1u64 == 1u64 { 0u64 | (1u64 << 24u64) } else { 0u64 }) | (1u64 << 25u64) } else { (if (wr >> 24u64) & 1u64 == 1u64 { 0u64 | (1u64 << 24u64) } else { 0u64 }) }) | (1u64 << 26u64) } else { (if (wr >> 25u64) & 1u64 == 1u64 { (if (wr >> 24u64) & 1u64 == 1u64 { 0u64 | (1u64 << 24u64) } else { 0u64 }) | (1u64 << 25u64) } else { (if (wr >> 24u64) & 1u64 == 1u64 { 0u64 | (1u64 << 24u64) } else { 0u64 }) }) }) | (1u64 << 27u64) } else { (if (wr >> 26u64) & 1u64 == 1u64 { (if (wr >> 25u64) & 1u64 == 1u64 { (if (wr >> 24u64) & 1u64 == 1u64 { 0u64 | (1u64 << 24u64) } else { 0u64 }) | (1u64 << 25u64) } else { (if (wr >> 24u64) & 1u64 == 1u64 { 0u64 | (1u64 << 24u64) } else { 0u64 }) }) | (1u64 << 26u64) } else { (if (wr >> 25u64) & 1u64 == 1u64 { (if (wr >> 24u64) & 1u64 == 1u64 { 0u64 | (1u64 << 24u64) } else { 0u64 }) | (1u64 << 25u64) } else { (if (wr >> 24u64) & 1u64 == 1u64 { 0u64 | (1u64 << 24u64) } else { 0u64 }) }) }) }) }) | (1u64 << 29u64) } else { (if (wr >> 28u64) & 1u64 == 1u64 { (if (wr >> 27u64) & 1u64 == 1u64 { (if (wr >> 26u64) & 1u64 == 1u64 { (if (wr >> 25u64) & 1u64 == 1u64 { (if (wr >> 24u64) & 1u64 == 1u64 { 0u64 | (1u64 << 24u64) } else { 0u64 }) | (1u64 << 25u64) } else { (if (wr >> 24u64) & 1u64 == 1u64 { 0u64 | (1u64 << 24u64) } else { 0u64 }) }) | (1u64 << 26u64) } else { (if (wr >> 25u64) & 1u64 == 1u64 { (if (wr >> 24u64) & 1u64 == 1u64 { 0u64 | (1u64 << 24u64) } else { 0u64 }) | (1u64 << 25u64) } else { (if (wr >> 24u64) & 1u64 == 1u64 { 0u64 | (1u64 << 24u64) } else { 0u64 }) }) }) | (1u64 << 27u64) } else { (if (wr >> 26u64) & 1u64 == 1u64 { (if (wr >> 25u64) & 1u64 == 1u64 { (if (wr >> 24u64) & 1u64 == 1u64 { 0u64 | (1u64 << 24u64) } else { 0u64 }) | (1u64 << 25u64) } else { (if (wr >> 24u64) & 1u64 == 1u64 { 0u64 | (1u64 << 24u64) } else { 0u64 }) }) | (1u64 << 26u64) } else { (if (wr >> 25u64) & 1u64 == 1u64 { (if (wr >> 24u64) & 1u64 == 1u64 { 0u64 | (1u64 << 24u64) } else { 0u64 }) | (1u64 << 25u64) } else { (if (wr >> 24u64) & 1u64 == 1u64 { 0u64 | (1u64 << 24u64) } else { 0u64 }) }) }) }) | (1u64 << 28u64) } else { (if (wr >> 27u64) & 1u64 == 1u64 { (if (wr >> 26u64) & 1u64 == 1u64 { (if (wr >> 25u64) & 1u64 == 1u64 { (if (wr >> 24u64) & 1u64 == 1u64 { 0u64 | (1u64 << 24u64) } else { 0u64 }) | (1u64 << 25u64) } else { (if (wr >> 24u64) & 1u64 == 1u64 { 0u64 | (1u64 << 24u64) } else { 0u64 }) }) | (1u64 << 26u64) } else { (if (wr >> 25u64) & 1u64 == 1u64 { (if (wr >> 24u64) & 1u64 == 1u64 { 0u64 | (1u64 << 24u64) } else { 0u64 }) | (1u64 << 25u64) } else { (if (wr >> 24u64) & 1u64 == 1u64 { 0u64 | (1u64 << 24u64) } else { 0u64 }) }) }) | (1u64 << 27u64) } else { (if (wr >> 26u64) & 1u64 == 1u64 { (if (wr >> 25u64) & 1u64 == 1u64 { (if (wr >> 24u64) & 1u64 == 1u64 { 0u64 | (1u64 << 24u64) } else { 0u64 }) | (1u64 << 25u64) } else { (if (wr >> 24u64) & 1u64 == 1u64 { 0u64 | (1u64 << 24u64) } else { 0u64 }) }) | (1u64 << 26u64) } else { (if (wr >> 25u64) & 1u64 == 1u64 { (if (wr >> 24u64) & 1u64 == 1u64 { 0u64 | (1u64 << 24u64) } else { 0u64 }) | (1u64 << 25u64) } else { (if (wr >> 24u64) & 1u64 == 1u64 { 0u64 | (1u64 << 24u64) } else { 0u64 }) }) }) }) }) }) | (1u64 << 30u64) } else { (if (wr >> 29u64) & 1u64 == 1u64 { (if (wr >> 28u64) & 1u64 == 1u64 { (if (wr >> 27u64) & 1u64 == 1u64 { (if (wr >> 26u64) & 1u64 == 1u64 { (if (wr >> 25u64) & 1u64 == 1u64 { (if (wr >> 24u64) & 1u64 == 1u64 { 0u64 | (1u64 << 24u64) } else { 0u64 }) | (1u64 << 25u64) } else { (if (wr >> 24u64) & 1u64 == 1u64 { 0u64 | (1u64 << 24u64) } else { 0u64 }) }) | (1u64 << 26u64) } else { (if (wr >> 25u64) & 1u64 == 1u64 { (if (wr >> 24u64) & 1u64 == 1u64 { 0u64 | (1u64 << 24u64) } else { 0u64 }) | (1u64 << 25u64) } else { (if (wr >> 24u64) & 1u64 == 1u64 { 0u64 | (1u64 << 24u64) } else { 0u64 }) }) }) | (1u64 << 27u64) } else { (if (wr >> 26u64) & 1u64 == 1u64 { (if (wr >> 25u64) & 1u64 == 1u64 { (if (wr >> 24u64) & 1u64 == 1u64 { 0u64 | (1u64 << 24u64) } else { 0u64 }) | (1u64 << 25u64) } else { (if (wr >> 24u64) & 1u64 == 1u64 { 0u64 | (1u64 << 24u64) } else { 0u64 }) }) | (1u64 << 26u64) } else { (if (wr >> 25u64) & 1u64 == 1u64 { (if (wr >> 24u64) & 1u64 == 1u64 { 0u64 | (1u64 << 24u64) } else { 0u64 }) | (1u64 << 25u64) } else { (if (wr >> 24u64) & 1u64 == 1u64 { 0u64 | (1u64 << 24u64) } else { 0u64 }) }) }) }) | (1u64 << 28u64) } else { (if (wr >> 27u64) & 1u64 == 1u64 { (if (wr >> 26u64) & 1u64 == 1u64 { (if (wr >> 25u64) & 1u64 == 1u64 { (if (wr >> 24u64) & 1u64 == 1u64 { 0u64 | (1u64 << 24u64) } else { 0u64 }) | (1u64 << 25u64) } else { (if (wr >> 24u64) & 1u64 == 1u64 { 0u64 | (1u64 << 24u64) } else { 0u64 }) }) | (1u64 << 26u64) } else { (if (wr >> 25u64) & 1u64 == 1u64 { (if (wr >> 24u64) & 1u64 == 1u64 { 0u64 | (1u64 << 24u64) } else { 0u64 }) | (1u64 << 25u64) } else { (if (wr >> 24u64) & 1u64 == 1u64 { 0u64 | (1u64 << 24u64) } else { 0u64 }) }) }) | (1u64 << 27u64) } else { (if (wr >> 26u64) & 1u64 == 1u64 { (if (wr >> 25u64) & 1u64 == 1u64 { (if (wr >> 24u64) & 1u64 == 1u64 { 0u64 | (1u64 << 24u64) } else { 0u64 }) | (1u64 << 25u64) } else { (if (wr >> 24u64) & 1u64 == 1u64 { 0u64 | (1u64 << 24u64) } else { 0u64 }) }) | (1u64 << 26u64) } else { (if (wr >> 25u64) & 1u64 == 1u64 { (if (wr >> 24u64) & 1u64 == 1u64 { 0u64 | (1u64 << 24u64) } else { 0u64 }) | (1u64 << 25u64) } else { (if (wr >> 24u64) & 1u64 == 1u64 { 0u64 | (1u64 << 24u64) } else { 0u64 }) }) }) }) }) | (1u64 << 29u64) } else { (if (wr >> 28u64) & 1u64 == 1u64 { (if (wr >> 27u64) & 1u64 == 1u64 { (if (wr >> 26u64) & 1u64 == 1u64 { (if (wr >> 25u64) & 1u64 == 1u64 { (if (wr >> 24u64) & 1u64 == 1u64 { 0u64 | (1u64 << 24u64) } else { 0u64 }) | (1u64 << 25u64) } else { (if (wr >> 24u64) & 1u64 == 1u64 { 0u64 | (1u64 << 24u64) } else { 0u64 }) }) | (1u64 << 26u64) } else { (if (wr >> 25u64) & 1u64 == 1u64 { (if (wr >> 24u64) & 1u64 == 1u64 { 0u64 | (1u64 << 24u64) } else { 0u64 }) | (1u64 << 25u64) } else { (if (wr >> 24u64) & 1u64 == 1u64 { 0u64 | (1u64 << 24u64) } else { 0u64 }) }) }) | (1u64 << 27u64) } else { (if (wr >> 26u64) & 1u64 == 1u64 { (if (wr >> 25u64) & 1u64 == 1u64 { (if (wr >> 24u64) & 1u64 == 1u64 { 0u64 | (1u64 << 24u64) } else { 0u64 }) | (1u64 << 25u64) } else { (if (wr >> 24u64) & 1u64 == 1u64 { 0u64 | (1u64 << 24u64) } else { 0u64 }) }) | (1u64 << 26u64) } else { (if (wr >> 25u64) & 1u64 == 1u64 { (if (wr >> 24u64) & 1u64 == 1u64 { 0u64 | (1u64 << 24u64) } else { 0u64 }) | (1u64 << 25u64) } else { (if (wr >> 24u64) & 1u64 == 1u64 { 0u64 | (1u64 << 24u64) } else { 0u64 }) }) }) }) | (1u64 << 28u64) } else { (if (wr >> 27u64) & 1u64 == 1u64 { (if (wr >> 26u64) & 1u64 == 1u64 { (if (wr >> 25u64) & 1u64 == 1u64 { (if (wr >> 24u64) & 1u64 == 1u64 { 0u64 | (1u64 << 24u64) } else { 0u64 }) | (1u64 << 25u64) } else { (if (wr >> 24u64) & 1u64 == 1u64 { 0u64 | (1u64 << 24u64) } else { 0u64 }) }) | (1u64 << 26u64) } else { (if (wr >> 25u64) & 1u64 == 1u64 { (if (wr >> 24u64) & 1u64 == 1u64 { 0u64 | (1u64 << 24u64) } else { 0u64 }) | (1u64 << 25u64) } else { (if (wr >> 24u64) & 1u64 == 1u64 { 0u64 | (1u64 << 24u64) } else { 0u64 }) }) }) | (1u64 << 27u64) } else { (if (wr >> 26u64) & 1u64 == 1u64 { (if (wr >> 25u64) & 1u64 == 1u64 { (if (wr >> 24u64) & 1u64 == 1u64 { 0u64 | (1u64 << 24u64) } else { 0u64 }) | (1u64 << 25u64) } else { (if (wr >> 24u64) & 1u64 == 1u64 { 0u64 | (1u64 << 24u64) } else { 0u64 }) }) | (1u64 << 26u64) } else { (if (wr >> 25u64) & 1u64 == 1u64 { (if (wr >> 24u64) & 1u64 == 1u64 { 0u64 | (1u64 << 24u64) } else { 0u64 }) | (1u64 << 25u64) } else { (if (wr >> 24u64) & 1u64 == 1u64 { 0u64 | (1u64 << 24u64) } else { 0u64 }) }) }) }) }) }) }) | (1u64 << 31u64) } else { (if (wr >> 30u64) & 1u64 == 1u64 { (if (wr >> 29u64) & 1u64 == 1u64 { (if (wr >> 28u64) & 1u64 == 1u64 { (if (wr >> 27u64) & 1u64 == 1u64 { (if (wr >> 26u64) & 1u64 == 1u64 { (if (wr >> 25u64) & 1u64 == 1u64 { (if (wr >> 24u64) & 1u64 == 1u64 { 0u64 | (1u64 << 24u64) } else { 0u64 }) | (1u64 << 25u64) } else { (if (wr >> 24u64) & 1u64 == 1u64 { 0u64 | (1u64 << 24u64) } else { 0u64 }) }) | (1u64 << 26u64) } else { (if (wr >> 25u64) & 1u64 == 1u64 { (if (wr >> 24u64) & 1u64 == 1u64 { 0u64 | (1u64 << 24u64) } else { 0u64 }) | (1u64 << 25u64) } else { (if (wr >> 24u64) & 1u64 == 1u64 { 0u64 | (1u64 << 24u64) } else { 0u64 }) }) }) | (1u64 << 27u64) } else { (if (wr >> 26u64) & 1u64 == 1u64 { (if (wr >> 25u64) & 1u64 == 1u64 { (if (wr >> 24u64) & 1u64 == 1u64 { 0u64 | (1u64 << 24u64) } else { 0u64 }) | (1u64 << 25u64) } else { (if (wr >> 24u64) & 1u64 == 1u64 { 0u64 | (1u64 << 24u64) } else { 0u64 }) }) | (1u64 << 26u64) } else { (if (wr >> 25u64) & 1u64 == 1u64 { (if (wr >> 24u64) & 1u64 == 1u64 { 0u64 | (1u64 << 24u64) } else { 0u64 }) | (1u64 << 25u64) } else { (if (wr >> 24u64) & 1u64 == 1u64 { 0u64 | (1u64 << 24u64) } else { 0u64 }) }) }) }) | (1u64 << 28u64) } else { (if (wr >> 27u64) & 1u64 == 1u64 { (if (wr >> 26u64) & 1u64 == 1u64 { (if (wr >> 25u64) & 1u64 == 1u64 { (if (wr >> 24u64) & 1u64 == 1u64 { 0u64 | (1u64 << 24u64) } else { 0u64 }) | (1u64 << 25u64) } else { (if (wr >> 24u64) & 1u64 == 1u64 { 0u64 | (1u64 << 24u64) } else { 0u64 }) }) | (1u64 << 26u64) } else { (if (wr >> 25u64) & 1u64 == 1u64 { (if (wr >> 24u64) & 1u64 == 1u64 { 0u64 | (1u64 << 24u64) } else { 0u64 }) | (1u64 << 25u64) } else { (if (wr >> 24u64) & 1u64 == 1u64 { 0u64 | (1u64 << 24u64) } else { 0u64 }) }) }) | (1u64 << 27u64) } else { (if (wr >> 26u64) & 1u64 == 1u64 { (if (wr >> 25u64) & 1u64 == 1u64 { (if (wr >> 24u64) & 1u64 == 1u64 { 0u64 | (1u64 << 24u64) } else { 0u64 }) | (1u64 << 25u64) } else { (if (wr >> 24u64) & 1u64 == 1u64 { 0u64 | (1u64 << 24u64) } else { 0u64 }) }) | (1u64 << 26u64) } else { (if (wr >> 25u64) & 1u64 == 1u64 { (if (wr >> 24u64) & 1u64 == 1u64 { 0u64 | (1u64 << 24u64) } else { 0u64 }) | (1u64 << 25u64) } else { (if (wr >> 24u64) & 1u64 == 1u64 { 0u64 | (1u64 << 24u64) } else { 0u64 }) }) }) }) }) | (1u64 << 29u64) } else { (if (wr >> 28u64) & 1u64 == 1u64 { (if (wr >> 27u64) & 1u64 == 1u64 { (if (wr >> 26u64) & 1u64 == 1u64 { (if (wr >> 25u64) & 1u64 == 1u64 { (if (wr >> 24u64) & 1u64 == 1u64 { 0u64 | (1u64 << 24u64) } else { 0u64 }) | (1u64 << 25u64) } else { (if (wr >> 24u64) & 1u64 == 1u64 { 0u64 | (1u64 << 24u64) } else { 0u64 }) }) | (1u64 << 26u64) } else { (if (wr >> 25u64) & 1u64 == 1u64 { (if (wr >> 24u64) & 1u64 == 1u64 { 0u64 | (1u64 << 24u64) } else { 0u64 }) | (1u64 << 25u64) } else { (if (wr >> 24u64) & 1u64 == 1u64 { 0u64 | (1u64 << 24u64) } else { 0u64 }) }) }) | (1u64 << 27u64) } else { (if (wr >> 26u64) & 1u64 == 1u64 { (if (wr >> 25u64) & 1u64 == 1u64 { (if (wr >> 24u64) & 1u64 == 1u64 { 0u64 | (1u64 << 24u64) } else { 0u64 }) | (1u64 << 25u64) } else { (if (wr >> 24u64) & 1u64 == 1u64 { 0u64 | (1u64 << 24u64) } else { 0u64 }) }) | (1u64 << 26u64) } else { (if (wr >> 25u64) & 1u64 == 1u64 { (if (wr >> 24u64) & 1u64 == 1u64 { 0u64 | (1u64 << 24u64) } else { 0u64 }) | (1u64 << 25u64) } else { (if (wr >> 24u64) & 1u64 == 1u64 { 0u64 | (1u64 << 24u64) } else { 0u64 }) }) }) }) | (1u64 << 28u64) } else { (if (wr >> 27u64) & 1u64 == 1u64 { (if (wr >> 26u64) & 1u64 == 1u64 { (if (wr >> 25u64) & 1u64 == 1u64 { (if (wr >> 24u64) & 1u64 == 1u64 { 0u64 | (1u64 << 24u64) } else { 0u64 }) | (1u64 << 25u64) } else { (if (wr >> 24u64) & 1u64 == 1u64 { 0u64 | (1u64 << 24u64) } else { 0u64 }) }) | (1u64 << 26u64) } else { (if (wr >> 25u64) & 1u64 == 1u64 { (if (wr >> 24u64) & 1u64 == 1u64 { 0u64 | (1u64 << 24u64) } else { 0u64 }) | (1u64 << 25u64) } else { (if (wr >> 24u64) & 1u64 == 1u64 { 0u64 | (1u64 << 24u64) } else { 0u64 }) }) }) | (1u64 << 27u64) } else { (if (wr >> 26u64) & 1u64 == 1u64 { (if (wr >> 25u64) & 1u64 == 1u64 { (if (wr >> 24u64) & 1u64 == 1u64 { 0u64 | (1u64 << 24u64) } else { 0u64 }) | (1u64 << 25u64) } else { (if (wr >> 24u64) & 1u64 == 1u64 { 0u64 | (1u64 << 24u64) } else { 0u64 }) }) | (1u64 << 26u64) } else { (if (wr >> 25u64) & 1u64 == 1u64 { (if (wr >> 24u64) & 1u64 == 1u64 { 0u64 | (1u64 << 24u64) } else { 0u64 }) | (1u64 << 25u64) } else { (if (wr >> 24u64) & 1u64 == 1u64 { 0u64 | (1u64 << 24u64) } else { 0u64 }) }) }) }) }) }) | (1u64 << 30u64) } else { (if (wr >> 29u64) & 1u64 == 1u64 { (if (wr >> 28u64) & 1u64 == 1u64 { (if (wr >> 27u64) & 1u64 == 1u64 { (if (wr >> 26u64) & 1u64 == 1u64 { (if (wr >> 25u64) & 1u64 == 1u64 { (if (wr >> 24u64) & 1u64 == 1u64 { 0u64 | (1u64 << 24u64) } else { 0u64 }) | (1u64 << 25u64) } else { (if (wr >> 24u64) & 1u64 == 1u64 { 0u64 | (1u64 << 24u64) } else { 0u64 }) }) | (1u64 << 26u64) } else { (if (wr >> 25u64) & 1u64 == 1u64 { (if (wr >> 24u64) & 1u64 == 1u64 { 0u64 | (1u64 << 24u64) } else { 0u64 }) | (1u64 << 25u64) } else { (if (wr >> 24u64) & 1u64 == 1u64 { 0u64 | (1u64 << 24u64) } else { 0u64 }) }) }) | (1u64 << 27u64) } else { (if (wr >> 26u64) & 1u64 == 1u64 { (if (wr >> 25u64) & 1u64 == 1u64 { (if (wr >> 24u64) & 1u64 == 1u64 { 0u64 | (1u64 << 24u64) } else { 0u64 }) | (1u64 << 25u64) } else { (if (wr >> 24u64) & 1u64 == 1u64 { 0u64 | (1u64 << 24u64) } else { 0u64 }) }) | (1u64 << 26u64) } else { (if (wr >> 25u64) & 1u64 == 1u64 { (if (wr >> 24u64) & 1u64 == 1u64 { 0u64 | (1u64 << 24u64) } else { 0u64 }) | (1u64 << 25u64) } else { (if (wr >> 24u64) & 1u64 == 1u64 { 0u64 | (1u64 << 24u64) } else { 0u64 }) }) }) }) | (1u64 << 28u64) } else { (if (wr >> 27u64) & 1u64 == 1u64 { (if (wr >> 26u64) & 1u64 == 1u64 { (if (wr >> 25u64) & 1u64 == 1u64 { (if (wr >> 24u64) & 1u64 == 1u64 { 0u64 | (1u64 << 24u64) } else { 0u64 }) | (1u64 << 25u64) } else { (if (wr >> 24u64) & 1u64 == 1u64 { 0u64 | (1u64 << 24u64) } else { 0u64 }) }) | (1u64 << 26u64) } else { (if (wr >> 25u64) & 1u64 == 1u64 { (if (wr >> 24u64) & 1u64 == 1u64 { 0u64 | (1u64 << 24u64) } else { 0u64 }) | (1u64 << 25u64) } else { (if (wr >> 24u64) & 1u64 == 1u64 { 0u64 | (1u64 << 24u64) } else { 0u64 }) }) }) | (1u64 << 27u64) } else { (if (wr >> 26u64) & 1u64 == 1u64 { (if (wr >> 25u64) & 1u64 == 1u64 { (if (wr >> 24u64) & 1u64 == 1u64 { 0u64 | (1u64 << 24u64) } else { 0u64 }) | (1u64 << 25u64) } else { (if (wr >> 24u64) & 1u64 == 1u64 { 0u64 | (1u64 << 24u64) } else { 0u64 }) }) | (1u64 << 26u64) } else { (if (wr >> 25u64) & 1u64 == 1u64 { (if (wr >> 24u64) & 1u64 == 1u64 { 0u64 | (1u64 << 24u64) } else { 0u64 }) | (1u64 << 25u64) } else { (if (wr >> 24u64) & 1u64 == 1u64 { 0u64 | (1u64 << 24u64) } else { 0u64 }) }) }) }) }) | (1u64 << 29u64) } else { (if (wr >> 28u64) & 1u64 == 1u64 { (if (wr >> 27u64) & 1u64 == 1u64 { (if (wr >> 26u64) & 1u64 == 1u64 { (if (wr >> 25u64) & 1u64 == 1u64 { (if (wr >> 24u64) & 1u64 == 1u64 { 0u64 | (1u64 << 24u64) } else { 0u64 }) | (1u64 << 25u64) } else { (if (wr >> 24u64) & 1u64 == 1u64 { 0u64 | (1u64 << 24u64) } else { 0u64 }) }) | (1u64 << 26u64) } else { (if (wr >> 25u64) & 1u64 == 1u64 { (if (wr >> 24u64) & 1u64 == 1u64 { 0u64 | (1u64 << 24u64) } else { 0u64 }) | (1u64 << 25u64) } else { (if (wr >> 24u64) & 1u64 == 1u64 { 0u64 | (1u64 << 24u64) } else { 0u64 }) }) }) | (1u64 << 27u64) } else { (if (wr >> 26u64) & 1u64 == 1u64 { (if (wr >> 25u64) & 1u64 == 1u64 { (if (wr >> 24u64) & 1u64 == 1u64 { 0u64 | (1u64 << 24u64) } else { 0u64 }) | (1u64 << 25u64) } else { (if (wr >> 24u64) & 1u64 == 1u64 { 0u64 | (1u64 << 24u64) } else { 0u64 }) }) | (1u64 << 26u64) } else { (if (wr >> 25u64) & 1u64 == 1u64 { (if (wr >> 24u64) & 1u64 == 1u64 { 0u64 | (1u64 << 24u64) } else { 0u64 }) | (1u64 << 25u64) } else { (if (wr >> 24u64) & 1u64 == 1u64 { 0u64 | (1u64 << 24u64) } else { 0u64 }) }) }) }) | (1u64 << 28u64) } else { (if (wr >> 27u64) & 1u64 == 1u64 { (if (wr >> 26u64) & 1u64 == 1u64 { (if (wr >> 25u64) & 1u64 == 1u64 { (if (wr >> 24u64) & 1u64 == 1u64 { 0u64 | (1u64 << 24u64) } else { 0u64 }) | (1u64 << 25u64) } else { (if (wr >> 24u64) & 1u64 == 1u64 { 0u64 | (1u64 << 24u64) } else { 0u64 }) }) | (1u64 << 26u64) } else { (if (wr >> 25u64) & 1u64 == 1u64 { (if (wr >> 24u64) & 1u64 == 1u64 { 0u64 | (1u64 << 24u64) } else { 0u64 }) | (1u64 << 25u64) } else { (if (wr >> 24u64) & 1u64 == 1u64 { 0u64 | (1u64 << 24u64) } else { 0u64 }) }) }) | (1u64 << 27u64) } else { (if (wr >> 26u64) & 1u64 == 1u64 { (if (wr >> 25u64) & 1u64 == 1u64 { (if (wr >> 24u64) & 1u64 == 1u64 { 0u64 | (1u64 << 24u64) } else { 0u64 }) | (1u64 << 25u64) } else { (if (wr >> 24u64) & 1u64 == 1u64 { 0u64 | (1u64 << 24u64) } else { 0u64 }) }) | (1u64 << 26u64) } else { (if (wr >> 25u64) & 1u64 == 1u64 { (if (wr >> 24u64) & 1u64 == 1u64 { 0u64 | (1u64 << 24u64) } else { 0u64 }) | (1u64 << 25u64) } else { (if (wr >> 24u64) & 1u64 == 1u64 { 0u64 | (1u64 << 24u64) } else { 0u64 }) }) }) }) }) }) }) }) }) | (1u64 << 23u64) } else { (if (wr >> 23u64) & 1u64 == 1u64 { (if (wr >> 31u64) & 1u64 == 1u64 { (if (wr >> 30u64) & 1u64 == 1u64 { (if (wr >> 29u64) & 1u64 == 1u64 { (if (wr >> 28u64) & 1u64 == 1u64 { (if (wr >> 27u64) & 1u64 == 1u64 { (if (wr >> 26u64) & 1u64 == 1u64 { (if (wr >> 25u64) & 1u64 == 1u64 { (if (wr >> 24u64) & 1u64 == 1u64 { 0u64 | (1u64 << 24u64) } else { 0u64 }) | (1u64 << 25u64) } else { (if (wr >> 24u64) & 1u64 == 1u64 { 0u64 | (1u64 << 24u64) } else { 0u64 }) }) | (1u64 << 26u64) } else { (if (wr >> 25u64) & 1u64 == 1u64 { (if (wr >> 24u64) & 1u64 == 1u64 { 0u64 | (1u64 << 24u64) } else { 0u64 }) | (1u64 << 25u64) } else { (if (wr >> 24u64) & 1u64 == 1u64 { 0u64 | (1u64 << 24u64) } else { 0u64 }) }) }) | (1u64 << 27u64) } else { (if (wr >> 26u64) & 1u64 == 1u64 { (if (wr >> 25u64) & 1u64 == 1u64 { (if (wr >> 24u64) & 1u64 == 1u64 { 0u64 | (1u64 << 24u64) } else { 0u64 }) | (1u64 << 25u64) } else { (if (wr >> 24u64) & 1u64 == 1u64 { 0u64 | (1u64 << 24u64) } else { 0u64 }) }) | (1u64 << 26u64) } else { (if (wr >> 25u64) & 1u64 == 1u64 { (if (wr >> 24u64) & 1u64 == 1u64 { 0u64 | (1u64 << 24u64) } else { 0u64 }) | (1u64 << 25u64) } else { (if (wr >> 24u64) & 1u64 == 1u64 { 0u64 | (1u64 << 24u64) } else { 0u64 }) }) }) }) | (1u64 << 28u64) } else { (if (wr >> 27u64) & 1u64 == 1u64 { (if (wr >> 26u64) & 1u64 == 1u64 { (if (wr >> 25u64) & 1u64 == 1u64 { (if (wr >> 24u64) & 1u64 == 1u64 { 0u64 | (1u64 << 24u64) } else { 0u64 }) | (1u64 << 25u64) } else { (if (wr >> 24u64) & 1u64 == 1u64 { 0u64 | (1u64 << 24u64) } else { 0u64 }) }) | (1u64 << 26u64) } else { (if (wr >> 25u64) & 1u64 == 1u64 { (if (wr >> 24u64) & 1u64 == 1u64 { 0u64 | (1u64 << 24u64) } else { 0u64 }) | (1u64 << 25u64) } else { (if (wr >> 24u64) & 1u64 == 1u64 { 0u64 | (1u64 << 24u64) } else { 0u64 }) }) }) | (1u64 << 27u64) } else { (if (wr >> 26u64) & 1u64 == 1u64 { (if (wr >> 25u64) & 1u64 == 1u64 { (if (wr >> 24u64) & 1u64 == 1u64 { 0u64 | (1u64 << 24u64) } else { 0u64 }) | (1u64 << 25u64) } else { (if (wr >> 24u64) & 1u64 == 1u64 { 0u64 | (1u64 << 24u64) } else { 0u64 }) }) | (1u64 << 26u64) } else { (if (wr >> 25u64) & 1u64 == 1u64 { (if (wr >> 24u64) & 1u64 == 1u64 { 0u64 | (1u64 << 24u64) } else { 0u64 }) | (1u64 << 25u64) } else { (if (wr >> 24u64) & 1u64 == 1u64 { 0u64 | (1u64 << 24u64) } else { 0u64 }) }) }) }) }) | (1u64 << 29u64) } else { (if (wr >> 28u64) & 1u64 == 1u64 { (if (wr >> 27u64) & 1u64 == 1u64 { (if (wr >> 26u64) & 1u64 == 1u64 { (if (wr >> 25u64) & 1u64 == 1u64 { (if (wr >> 24u64) & 1u64 == 1u64 { 0u64 | (1u64 << 24u64) } else { 0u64 }) | (1u64 << 25u64) } else { (if (wr >> 24u64) & 1u64 == 1u64 { 0u64 | (1u64 << 24u64) } else { 0u64 }) }) | (1u64 << 26u64) } else { (if (wr >> 25u64) & 1u64 == 1u64 { (if (wr >> 24u64) & 1u64 == 1u64 { 0u64 | (1u64 << 24u64) } else { 0u64 }) | (1u64 << 25u64) } else { (if (wr >> 24u64) & 1u64 == 1u64 { 0u64 | (1u64 << 24u64) } else { 0u64 }) }) }) | (1u64 << 27u64) } else { (if (wr >> 26u64) & 1u64 == 1u64 { (if (wr >> 25u64) & 1u64 == 1u64 { (if (wr >> 24u64) & 1u64 == 1u64 { 0u64 | (1u64 << 24u64) } else { 0u64 }) | (1u64 << 25u64) } else { (if (wr >> 24u64) & 1u64 == 1u64 { 0u64 | (1u64 << 24u64) } else { 0u64 }) }) | (1u64 << 26u64) } else { (if (wr >> 25u64) & 1u64 == 1u64 { (if (wr >> 24u64) & 1u64 == 1u64 { 0u64 | (1u64 << 24u64) } else { 0u64 }) | (1u64 << 25u64) } else { (if (wr >> 24u64) & 1u64 == 1u64 { 0u64 | (1u64 << 24u64) } else { 0u64 }) }) }) }) | (1u64 << 28u64) } else { (if (wr >> 27u64) & 1u64 == 1u64 { (if (wr >> 26u64) & 1u64 == 1u64 { (if (wr >> 25u64) & 1u64 == 1u64 { (if (wr >> 24u64) & 1u64 == 1u64 { 0u64 | (1u64 << 24u64) } else { 0u64 }) | (1u64 << 25u64) } else { (if (wr >> 24u64) & 1u64 == 1u64 { 0u64 | (1u64 << 24u64) } else { 0u64 }) }) | (1u64 << 26u64) } else { (if (wr >> 25u64) & 1u64 == 1u64 { (if (wr >> 24u64) & 1u64 == 1u64 { 0u64 | (1u64 << 24u64) } else { 0u64 }) | (1u64 << 25u64) } else { (if (wr >> 24u64) & 1u64 == 1u64 { 0u64 | (1u64 << 24u64) } else { 0u64 }) }) }) | (1u64 << 27u64) } else { (if (wr >> 26u64) & 1u64 == 1u64 { (if (wr >> 25u64) & 1u64 == 1u64 { (if (wr >> 24u64) & 1u64 == 1u64 { 0u64 | (1u64 << 24u64) } else { 0u64 }) | (1u64 << 25u64) } else { (if (wr >> 24u64) & 1u64 == 1u64 { 0u64 | (1u64 << 24u64) } else { 0u64 }) }) | (1u64 << 26u64) } else { (if (wr >> 25u64) & 1u64 == 1u64 { (if (wr >> 24u64) & 1u64 == 1u64 { 0u64 | (1u64 << 24u64) } else { 0u64 }) | (1u64 << 25u64) } else { (if (wr >> 24u64) & 1u64 == 1u64 { 0u64 | (1u64 << 24u64) } else { 0u64 }) }) }) }) }) }) | (1u64 << 30u64) } else { (if (wr >> 29u64) & 1u64 == 1u64 { (if (wr >> 28u64) & 1u64 == 1u64 { (if (wr >> 27u64) & 1u64 == 1u64 { (if (wr >> 26u64) & 1u64 == 1u64 { (if (wr >> 25u64) & 1u64 == 1u64 { (if (wr >> 24u64) & 1u64 == 1u64 { 0u64 | (1u64 << 24u64) } else { 0u64 }) | (1u64 << 25u64) } else { (if (wr >> 24u64) & 1u64 == 1u64 { 0u64 | (1u64 << 24u64) } else { 0u64 }) }) | (1u64 << 26u64) } else { (if (wr >> 25u64) & 1u64 == 1u64 { (if (wr >> 24u64) & 1u64 == 1u64 { 0u64 | (1u64 << 24u64) } else { 0u64 }) | (1u64 << 25u64) } else { (if (wr >> 24u64) & 1u64 == 1u64 { 0u64 | (1u64 << 24u64) } else { 0u64 }) }) }) | (1u64 << 27u64) } else { (if (wr >> 26u64) & 1u64 == 1u64 { (if (wr >> 25u64) & 1u64 == 1u64 { (if (wr >> 24u64) & 1u64 == 1u64 { 0u64 | (1u64 << 24u64) } else { 0u64 }) | (1u64 << 25u64) } else { (if (wr >> 24u64) & 1u64 == 1u64 { 0u64 | (1u64 << 24u64) } else { 0u64 }) }) | (1u64 << 26u64) } else { (if (wr >> 25u64) & 1u64 == 1u64 { (if (wr >> 24u64) & 1u64 == 1u64 { 0u64 | (1u64 << 24u64) } else { 0u64 }) | (1u64 << 25u64) } else { (if (wr >> 24u64) & 1u64 == 1u64 { 0u64 | (1u64 << 24u64) } else { 0u64 }) }) }) }) | (1u64 << 28u64) } else { (if (wr >> 27u64) & 1u64 == 1u64 { (if (wr >> 26u64) & 1u64 == 1u64 { (if (wr >> 25u64) & 1u64 == 1u64 { (if (wr >> 24u64) & 1u64 == 1u64 { 0u64 | (1u64 << 24u64) } else { 0u64 }) | (1u64 << 25u64) } else { (if (wr >> 24u64) & 1u64 == 1u64 { 0u64 | (1u64 << 24u64) } else { 0u64 }) }) | (1u64 << 26u64) } else { (if (wr >> 25u64) & 1u64 == 1u64 { (if (wr >> 24u64) & 1u64 == 1u64 { 0u64 | (1u64 << 24u64) } else { 0u64 }) | (1u64 << 25u64) } else { (if (wr >> 24u64) & 1u64 == 1u64 { 0u64 | (1u64 << 24u64) } else { 0u64 }) }) }) | (1u64 << 27u64) } else { (if (wr >> 26u64) & 1u64 == 1u64 { (if (wr >> 25u64) & 1u64 == 1u64 { (if (wr >> 24u64) & 1u64 == 1u64 { 0u64 | (1u64 << 24u64) } else { 0u64 }) | (1u64 << 25u64) } else { (if (wr >> 24u64) & 1u64 == 1u64 { 0u64 | (1u64 << 24u64) } else { 0u64 }) }) | (1u64 << 26u64) } else { (if (wr >> 25u64) & 1u64 == 1u64 { (if (wr >> 24u64) & 1u64 == 1u64 { 0u64 | (1u64 << 24u64) } else { 0u64 }) | (1u64 << 25u64) } else { (if (wr >> 24u64) & 1u64 == 1u64 { 0u64 | (1u64 << 24u64) } else { 0u64 }) }) }) }) }) | (1u64 << 29u64) } else { (if (wr >> 28u64) & 1u64 == 1u64 { (if (wr >> 27u64) & 1u64 == 1u64 { (if (wr >> 26u64) & 1u64 == 1u64 { (if (wr >> 25u64) & 1u64 == 1u64 { (if (wr >> 24u64) & 1u64 == 1u64 { 0u64 | (1u64 << 24u64) } else { 0u64 }) | (1u64 << 25u64) } else { (if (wr >> 24u64) & 1u64 == 1u64 { 0u64 | (1u64 << 24u64) } else { 0u64 }) }) | (1u64 << 26u64) } else { (if (wr >> 25u64) & 1u64 == 1u64 { (if (wr >> 24u64) & 1u64 == 1u64 { 0u64 | (1u64 << 24u64) } else { 0u64 }) | (1u64 << 25u64) } else { (if (wr >> 24u64) & 1u64 == 1u64 { 0u64 | (1u64 << 24u64) } else { 0u64 }) }) }) | (1u64 << 27u64) } else { (if (wr >> 26u64) & 1u64 == 1u64 { (if (wr >> 25u64) & 1u64 == 1u64 { (if (wr >> 24u64) & 1u64 == 1u64 { 0u64 | (1u64 << 24u64) } else { 0u64 }) | (1u64 << 25u64) } else { (if (wr >> 24u64) & 1u64 == 1u64 { 0u64 | (1u64 << 24u64) } else { 0u64 }) }) | (1u64 << 26u64) } else { (if (wr >> 25u64) & 1u64 == 1u64 { (if (wr >> 24u64) & 1u64 == 1u64 { 0u64 | (1u64 << 24u64) } else { 0u64 }) | (1u64 << 25u64) } else { (if (wr >> 24u64) & 1u64 == 1u64 { 0u64 | (1u64 << 24u64) } else { 0u64 }) }) }) }) | (1u64 << 28u64) } else { (if (wr >> 27u64) & 1u64 == 1u64 { (if (wr >> 26u64) & 1u64 == 1u64 { (if (wr >> 25u64) & 1u64 == 1u64 { (if (wr >> 24u64) & 1u64 == 1u64 { 0u64 | (1u64 << 24u64) } else { 0u64 }) | (1u64 << 25u64) } else { (if (wr >> 24u64) & 1u64 == 1u64 { 0u64 | (1u64 << 24u64) } else { 0u64 }) }) | (1u64 << 26u64) } else { (if (wr >> 25u64) & 1u64 == 1u64 { (if (wr >> 24u64) & 1u64 == 1u64 { 0u64 | (1u64 << 24u64) } else { 0u64 }) | (1u64 << 25u64) } else { (if (wr >> 24u64) & 1u64 == 1u64 { 0u64 | (1u64 << 24u64) } else { 0u64 }) }) }) | (1u64 << 27u64) } else { (if (wr >> 26u64) & 1u64 == 1u64 { (if (wr >> 25u64) & 1u64 == 1u64 { (if (wr >> 24u64) & 1u64 == 1u64 { 0u64 | (1u64 << 24u64) } else { 0u64 }) | (1u64 << 25u64) } else { (if (wr >> 24u64) & 1u64 == 1u64 { 0u64 | (1u64 << 24u64) } else { 0u64 }) }) | (1u64 << 26u64) } else { (if (wr >> 25u64) & 1u64 == 1u64 { (if (wr >> 24u64) & 1u64 == 1u64 { 0u64 | (1u64 << 24u64) } else { 0u64 }) | (1u64 << 25u64) } else { (if (wr >> 24u64) & 1u64 == 1u64 { 0u64 | (1u64 << 24u64) } else { 0u64 }) }) }) }) }) }) }) | (1u64 << 31u64) } else { (if (wr >> 30u64) & 1u64 == 1u64 { (if (wr >> 29u64) & 1u64 == 1u64 { (if (wr >> 28u64) & 1u64 == 1u64 { (if (wr >> 27u64) & 1u64 == 1u64 { (if (wr >> 26u64) & 1u64 == 1u64 { (if (wr >> 25u64) & 1u64 == 1u64 { (if (wr >> 24u64) & 1u64 == 1u64 { 0u64 | (1u64 << 24u64) } else { 0u64 }) | (1u64 << 25u64) } else { (if (wr >> 24u64) & 1u64 == 1u64 { 0u64 | (1u64 << 24u64) } else { 0u64 }) }) | (1u64 << 26u64) } else { (if (wr >> 25u64) & 1u64 == 1u64 { (if (wr >> 24u64) & 1u64 == 1u64 { 0u64 | (1u64 << 24u64) } else { 0u64 }) | (1u64 << 25u64) } else { (if (wr >> 24u64) & 1u64 == 1u64 { 0u64 | (1u64 << 24u64) } else { 0u64 }) }) }) | (1u64 << 27u64) } else { (if (wr >> 26u64) & 1u64 == 1u64 { (if (wr >> 25u64) & 1u64 == 1u64 { (if (wr >> 24u64) & 1u64 == 1u64 { 0u64 | (1u64 << 24u64) } else { 0u64 }) | (1u64 << 25u64) } else { (if (wr >> 24u64) & 1u64 == 1u64 { 0u64 | (1u64 << 24u64) } else { 0u64 }) }) | (1u64 << 26u64) } else { (if (wr >> 25u64) & 1u64 == 1u64 { (if (wr >> 24u64) & 1u64 == 1u64 { 0u64 | (1u64 << 24u64) } else { 0u64 }) | (1u64 << 25u64) } else { (if (wr >> 24u64) & 1u64 == 1u64 { 0u64 | (1u64 << 24u64) } else { 0u64 }) }) }) }) | (1u64 << 28u64) } else { (if (wr >> 27u64) & 1u64 == 1u64 { (if (wr >> 26u64) & 1u64 == 1u64 { (if (wr >> 25u64) & 1u64 == 1u64 { (if (wr >> 24u64) & 1u64 == 1u64 { 0u64 | (1u64 << 24u64) } else { 0u64 }) | (1u64 << 25u64) } else { (if (wr >> 24u64) & 1u64 == 1u64 { 0u64 | (1u64 << 24u64) } else { 0u64 }) }) | (1u64 << 26u64) } else { (if (wr >> 25u64) & 1u64 == 1u64 { (if (wr >> 24u64) & 1u64 == 1u64 { 0u64 | (1u64 << 24u64) } else { 0u64 }) | (1u64 << 25u64) } else { (if (wr >> 24u64) & 1u64 == 1u64 { 0u64 | (1u64 << 24u64) } else { 0u64 }) }) }) | (1u64 << 27u64) } else { (if (wr >> 26u64) & 1u64 == 1u64 { (if (wr >> 25u64) & 1u64 == 1u64 { (if (wr >> 24u64) & 1u64 == 1u64 { 0u64 | (1u64 << 24u64) } else { 0u64 }) | (1u64 << 25u64) } else { (if (wr >> 24u64) & 1u64 == 1u64 { 0u64 | (1u64 << 24u64) } else { 0u64 }) }) | (1u64 << 26u64) } else { (if (wr >> 25u64) & 1u64 == 1u64 { (if (wr >> 24u64) & 1u64 == 1u64 { 0u64 | (1u64 << 24u64) } else { 0u64 }) | (1u64 << 25u64) } else { (if (wr >> 24u64) & 1u64 == 1u64 { 0u64 | (1u64 << 24u64) } else { 0u64 }) }) }) }) }) | (1u64 << 29u64) } else { (if (wr >> 28u64) & 1u64 == 1u64 { (if (wr >> 27u64) & 1u64 == 1u64 { (if (wr >> 26u64) & 1u64 == 1u64 { (if (wr >> 25u64) & 1u64 == 1u64 { (if (wr >> 24u64) & 1u64 == 1u64 { 0u64 | (1u64 << 24u64) } else { 0u64 }) | (1u64 << 25u64) } else { (if (wr >> 24u64) & 1u64 == 1u64 { 0u64 | (1u64 << 24u64) } else { 0u64 }) }) | (1u64 << 26u64) } else { (if (wr >> 25u64) & 1u64 == 1u64 { (if (wr >> 24u64) & 1u64 == 1u64 { 0u64 | (1u64 << 24u64) } else { 0u64 }) | (1u64 << 25u64) } else { (if (wr >> 24u64) & 1u64 == 1u64 { 0u64 | (1u64 << 24u64) } else { 0u64 }) }) }) | (1u64 << 27u64) } else { (if (wr >> 26u64) & 1u64 == 1u64 { (if (wr >> 25u64) & 1u64 == 1u64 { (if (wr >> 24u64) & 1u64 == 1u64 { 0u64 | (1u64 << 24u64) } else { 0u64 }) | (1u64 << 25u64) } else { (if (wr >> 24u64) & 1u64 == 1u64 { 0u64 | (1u64 << 24u64) } else { 0u64 }) }) | (1u64 << 26u64) } else { (if (wr >> 25u64) & 1u64 == 1u64 { (if (wr >> 24u64) & 1u64 == 1u64 { 0u64 | (1u64 << 24u64) } else { 0u64 }) | (1u64 << 25u64) } else { (if (wr >> 24u64) & 1u64 == 1u64 { 0u64 | (1u64 << 24u64) } else { 0u64 }) }) }) }) | (1u64 << 28u64) } else { (if (wr >> 27u64) & 1u64 == 1u64 { (if (wr >> 26u64) & 1u64 == 1u64 { (if (wr >> 25u64) & 1u64 == 1u64 { (if (wr >> 24u64) & 1u64 == 1u64 { 0u64 | (1u64 << 24u64) } else { 0u64 }) | (1u64 << 25u64) } else { (if (wr >> 24u64) & 1u64 == 1u64 { 0u64 | (1u64 << 24u64) } else { 0u64 }) }) | (1u64 << 26u64) } else { (if (wr >> 25u64) & 1u64 == 1u64 { (if (wr >> 24u64) & 1u64 == 1u64 { 0u64 | (1u64 << 24u64) } else { 0u64 }) | (1u64 << 25u64) } else { (if (wr >> 24u64) & 1u64 == 1u64 { 0u64 | (1u64 << 24u64) } else { 0u64 }) }) }) | (1u64 << 27u64) } else { (if (wr >> 26u64) & 1u64 == 1u64 { (if (wr >> 25u64) & 1u64 == 1u64 { (if (wr >> 24u64) & 1u64 == 1u64 { 0u64 | (1u64 << 24u64) } else { 0u64 }) | (1u64 << 25u64) } else { (if (wr >> 24u64) & 1u64 == 1u64 { 0u64 | (1u64 << 24u64) } else { 0u64 }) }) | (1u64 << 26u64) } else { (if (wr >> 25u64) & 1u64 == 1u64 { (if (wr >> 24u64) & 1u64 == 1u64 { 0u64 | (1u64 << 24u64) } else { 0u64 }) | (1u64 << 25u64) } else { (if (wr >> 24u64) & 1u64 == 1u64 { 0u64 | (1u64 << 24u64) } else { 0u64 }) }) }) }) }) }) | (1u64 << 30u64) } else { (if (wr >> 29u64) & 1u64 == 1u64 { (if (wr >> 28u64) & 1u64 == 1u64 { (if (wr >> 27u64) & 1u64 == 1u64 { (if (wr >> 26u64) & 1u64 == 1u64 { (if (wr >> 25u64) & 1u64 == 1u64 { (if (wr >> 24u64) & 1u64 == 1u64 { 0u64 | (1u64 << 24u64) } else { 0u64 }) | (1u64 << 25u64) } else { (if (wr >> 24u64) & 1u64 == 1u64 { 0u64 | (1u64 << 24u64) } else { 0u64 }) }) | (1u64 << 26u64) } else { (if (wr >> 25u64) & 1u64 == 1u64 { (if (wr >> 24u64) & 1u64 == 1u64 { 0u64 | (1u64 << 24u64) } else { 0u64 }) | (1u64 << 25u64) } else { (if (wr >> 24u64) & 1u64 == 1u64 { 0u64 | (1u64 << 24u64) } else { 0u64 }) }) }) | (1u64 << 27u64) } else { (if (wr >> 26u64) & 1u64 == 1u64 { (if (wr >> 25u64) & 1u64 == 1u64 { (if (wr >> 24u64) & 1u64 == 1u64 { 0u64 | (1u64 << 24u64) } else { 0u64 }) | (1u64 << 25u64) } else { (if (wr >> 24u64) & 1u64 == 1u64 { 0u64 | (1u64 << 24u64) } else { 0u64 }) }) | (1u64 << 26u64) } else { (if (wr >> 25u64) & 1u64 == 1u64 { (if (wr >> 24u64) & 1u64 == 1u64 { 0u64 | (1u64 << 24u64) } else { 0u64 }) | (1u64 << 25u64) } else { (if (wr >> 24u64) & 1u64 == 1u64 { 0u64 | (1u64 << 24u64) } else { 0u64 }) }) }) }) | (1u64 << 28u64) } else { (if (wr >> 27u64) & 1u64 == 1u64 { (if (wr >> 26u64) & 1u64 == 1u64 { (if (wr >> 25u64) & 1u64 == 1u64 { (if (wr >> 24u64) & 1u64 == 1u64 { 0u64 | (1u64 << 24u64) } else { 0u64 }) | (1u64 << 25u64) } else { (if (wr >> 24u64) & 1u64 == 1u64 { 0u64 | (1u64 << 24u64) } else { 0u64 }) }) | (1u64 << 26u64) } else { (if (wr >> 25u64) & 1u64 == 1u64 { (if (wr >> 24u64) & 1u64 == 1u64 { 0u64 | (1u64 << 24u64) } else { 0u64 }) | (1u64 << 25u64) } else { (if (wr >> 24u64) & 1u64 == 1u64 { 0u64 | (1u64 << 24u64) } else { 0u64 }) }) }) | (1u64 << 27u64) } else { (if (wr >> 26u64) & 1u64 == 1u64 { (if (wr >> 25u64) & 1u64 == 1u64 { (if (wr >> 24u64) & 1u64 == 1u64 { 0u64 | (1u64 << 24u64) } else { 0u64 }) | (1u64 << 25u64) } else { (if (wr >> 24u64) & 1u64 == 1u64 { 0u64 | (1u64 << 24u64) } else { 0u64 }) }) | (1u64 << 26u64) } else { (if (wr >> 25u64) & 1u64 == 1u64 { (if (wr >> 24u64) & 1u64 == 1u64 { 0u64 | (1u64 << 24u64) } else { 0u64 }) | (1u64 << 25u64) } else { (if (wr >> 24u64) & 1u64 == 1u64 { 0u64 | (1u64 << 24u64) } else { 0u64 }) }) }) }) }) | (1u64 << 29u64) } else { (if (wr >> 28u64) & 1u64 == 1u64 { (if (wr >> 27u64) & 1u64 == 1u64 { (if (wr >> 26u64) & 1u64 == 1u64 { (if (wr >> 25u64) & 1u64 == 1u64 { (if (wr >> 24u64) & 1u64 == 1u64 { 0u64 | (1u64 << 24u64) } else { 0u64 }) | (1u64 << 25u64) } else { (if (wr >> 24u64) & 1u64 == 1u64 { 0u64 | (1u64 << 24u64) } else { 0u64 }) }) | (1u64 << 26u64) } else { (if (wr >> 25u64) & 1u64 == 1u64 { (if (wr >> 24u64) & 1u64 == 1u64 { 0u64 | (1u64 << 24u64) } else { 0u64 }) | (1u64 << 25u64) } else { (if (wr >> 24u64) & 1u64 == 1u64 { 0u64 | (1u64 << 24u64) } else { 0u64 }) }) }) | (1u64 << 27u64) } else { (if (wr >> 26u64) & 1u64 == 1u64 { (if (wr >> 25u64) & 1u64 == 1u64 { (if (wr >> 24u64) & 1u64 == 1u64 { 0u64 | (1u64 << 24u64) } else { 0u64 }) | (1u64 << 25u64) } else { (if (wr >> 24u64) & 1u64 == 1u64 { 0u64 | (1u64 << 24u64) } else { 0u64 }) }) | (1u64 << 26u64) } else { (if (wr >> 25u64) & 1u64 == 1u64 { (if (wr >> 24u64) & 1u64 == 1u64 { 0u64 | (1u64 << 24u64) } else { 0u64 }) | (1u64 << 25u64) } else { (if (wr >> 24u64) & 1u64 == 1u64 { 0u64 | (1u64 << 24u64) } else { 0u64 }) }) }) }) | (1u64 << 28u64) } else { (if (wr >> 27u64) & 1u64 == 1u64 { (if (wr >> 26u64) & 1u64 == 1u64 { (if (wr >> 25u64) & 1u64 == 1u64 { (if (wr >> 24u64) & 1u64 == 1u64 { 0u64 | (1u64 << 24u64) } else { 0u64 }) | (1u64 << 25u64) } else { (if (wr >> 24u64) & 1u64 == 1u64 { 0u64 | (1u64 << 24u64) } else { 0u64 }) }) | (1u64 << 26u64) } else { (if (wr >> 25u64) & 1u64 == 1u64 { (if (wr >> 24u64) & 1u64 == 1u64 { 0u64 | (1u64 << 24u64) } else { 0u64 }) | (1u64 << 25u64) } else { (if (wr >> 24u64) & 1u64 == 1u64 { 0u64 | (1u64 << 24u64) } else { 0u64 }) }) }) | (1u64 << 27u64) } else { (if (wr >> 26u64) & 1u64 == 1u64 { (if (wr >> 25u64) & 1u64 == 1u64 { (if (wr >> 24u64) & 1u64 == 1u64 { 0u64 | (1u64 << 24u64) } else { 0u64 }) | (1u64 << 25u64) } else { (if (wr >> 24u64) & 1u64 == 1u64 { 0u64 | (1u64 << 24u64) } else { 0u64 }) }) | (1u64 << 26u64) } else { (if (wr >> 25u64) & 1u64 == 1u64 { (if (wr >> 24u64) & 1u64 == 1u64 { 0u64 | (1u64 << 24u64) } else { 0u64 }) | (1u64 << 25u64) } else { (if (wr >> 24u64) & 1u64 == 1u64 { 0u64 | (1u64 << 24u64) } else { 0u64 }) }) }) }) }) }) }) }) | (1u64 << 23u64) } else { (if (wr >> 31u64) & 1u64 == 1u64 { (if (wr >> 30u64) & 1u64 == 1u64 { (if (wr >> 29u64) & 1u64 == 1u64 { (if (wr >> 28u64) & 1u64 == 1u64 { (if (wr >> 27u64) & 1u64 == 1u64 { (if (wr >> 26u64) & 1u64 == 1u64 { (if (wr >> 25u64) & 1u64 == 1u64 { (if (wr >> 24u64) & 1u64 == 1u64 { 0u64 | (1u64 << 24u64) } else { 0u64 }) | (1u64 << 25u64) } else { (if (wr >> 24u64) & 1u64 == 1u64 { 0u64 | (1u64 << 24u64) } else { 0u64 }) }) | (1u64 << 26u64) } else { (if (wr >> 25u64) & 1u64 == 1u64 { (if (wr >> 24u64) & 1u64 == 1u64 { 0u64 | (1u64 << 24u64) } else { 0u64 }) | (1u64 << 25u64) } else { (if (wr >> 24u64) & 1u64 == 1u64 { 0u64 | (1u64 << 24u64) } else { 0u64 }) }) }) | (1u64 << 27u64) } else { (if (wr >> 26u64) & 1u64 == 1u64 { (if (wr >> 25u64) & 1u64 == 1u64 { (if (wr >> 24u64) & 1u64 == 1u64 { 0u64 | (1u64 << 24u64) } else { 0u64 }) | (1u64 << 25u64) } else { (if (wr >> 24u64) & 1u64 == 1u64 { 0u64 | (1u64 << 24u64) } else { 0u64 }) }) | (1u64 << 26u64) } else { (if (wr >> 25u64) & 1u64 == 1u64 { (if (wr >> 24u64) & 1u64 == 1u64 { 0u64 | (1u64 << 24u64) } else { 0u64 }) | (1u64 << 25u64) } else { (if (wr >> 24u64) & 1u64 == 1u64 { 0u64 | (1u64 << 24u64) } else { 0u64 }) }) }) }) | (1u64 << 28u64) } else { (if (wr >> 27u64) & 1u64 == 1u64 { (if (wr >> 26u64) & 1u64 == 1u64 { (if (wr >> 25u64) & 1u64 == 1u64 { (if (wr >> 24u64) & 1u64 == 1u64 { 0u64 | (1u64 << 24u64) } else { 0u64 }) | (1u64 << 25u64) } else { (if (wr >> 24u64) & 1u64 == 1u64 { 0u64 | (1u64 << 24u64) } else { 0u64 }) }) | (1u64 << 26u64) } else { (if (wr >> 25u64) & 1u64 == 1u64 { (if (wr >> 24u64) & 1u64 == 1u64 { 0u64 | (1u64 << 24u64) } else { 0u64 }) | (1u64 << 25u64) } else { (if (wr >> 24u64) & 1u64 == 1u64 { 0u64 | (1u64 << 24u64) } else { 0u64 }) }) }) | (1u64 << 27u64) } else { (if (wr >> 26u64) & 1u64 == 1u64 { (if (wr >> 25u64) & 1u64 == 1u64 { (if (wr >> 24u64) & 1u64 == 1u64 { 0u64 | (1u64 << 24u64) } else { 0u64 }) | (1u64 << 25u64) } else { (if (wr >> 24u64) & 1u64 == 1u64 { 0u64 | (1u64 << 24u64) } else { 0u64 }) }) | (1u64 << 26u64) } else { (if (wr >> 25u64) & 1u64 == 1u64 { (if (wr >> 24u64) & 1u64 == 1u64 { 0u64 | (1u64 << 24u64) } else { 0u64 }) | (1u64 << 25u64) } else { (if (wr >> 24u64) & 1u64 == 1u64 { 0u64 | (1u64 << 24u64) } else { 0u64 }) }) }) }) }) | (1u64 << 29u64) } else { (if (wr >> 28u64) & 1u64 == 1u64 { (if (wr >> 27u64) & 1u64 == 1u64 { (if (wr >> 26u64) & 1u64 == 1u64 { (if (wr >> 25u64) & 1u64 == 1u64 { (if (wr >> 24u64) & 1u64 == 1u64 { 0u64 | (1u64 << 24u64) } else { 0u64 }) | (1u64 << 25u64) } else { (if (wr >> 24u64) & 1u64 == 1u64 { 0u64 | (1u64 << 24u64) } else { 0u64 }) }) | (1u64 << 26u64) } else { (if (wr >> 25u64) & 1u64 == 1u64 { (if (wr >> 24u64) & 1u64 == 1u64 { 0u64 | (1u64 << 24u64) } else { 0u64 }) | (1u64 << 25u64) } else { (if (wr >> 24u64) & 1u64 == 1u64 { 0u64 | (1u64 << 24u64) } else { 0u64 }) }) }) | (1u64 << 27u64) } else { (if (wr >> 26u64) & 1u64 == 1u64 { (if (wr >> 25u64) & 1u64 == 1u64 { (if (wr >> 24u64) & 1u64 == 1u64 { 0u64 | (1u64 << 24u64) } else { 0u64 }) | (1u64 << 25u64) } else { (if (wr >> 24u64) & 1u64 == 1u64 { 0u64 | (1u64 << 24u64) } else { 0u64 }) }) | (1u64 << 26u64) } else { (if (wr >> 25u64) & 1u64 == 1u64 { (if (wr >> 24u64) & 1u64 == 1u64 { 0u64 | (1u64 << 24u64) } else { 0u64 }) | (1u64 << 25u64) } else { (if (wr >> 24u64) & 1u64 == 1u64 { 0u64 | (1u64 << 24u64) } else { 0u64 }) }) }) }) | (1u64 << 28u64) } else { (if (wr >> 27u64) & 1u64 == 1u64 { (if (wr >> 26u64) & 1u64 == 1u64 { (if (wr >> 25u64) & 1u64 == 1u64 { (if (wr >> 24u64) & 1u64 == 1u64 { 0u64 | (1u64 << 24u64) } else { 0u64 }) | (1u64 << 25u64) } else { (if (wr >> 24u64) & 1u64 == 1u64 { 0u64 | (1u64 << 24u64) } else { 0u64 }) }) | (1u64 << 26u64) } else { (if (wr >> 25u64) & 1u64 == 1u64 { (if (wr >> 24u64) & 1u64 == 1u64 { 0u64 | (1u64 << 24u64) } else { 0u64 }) | (1u64 << 25u64) } else { (if (wr >> 24u64) & 1u64 == 1u64 { 0u64 | (1u64 << 24u64) } else { 0u64 }) }) }) | (1u64 << 27u64) } else { (if (wr >> 26u64) & 1u64 == 1u64 { (if (wr >> 25u64) & 1u64 == 1u64 { (if (wr >> 24u64) & 1u64 == 1u64 { 0u64 | (1u64 << 24u64) } else { 0u64 }) | (1u64 << 25u64) } else { (if (wr >> 24u64) & 1u64 == 1u64 { 0u64 | (1u64 << 24u64) } else { 0u64 }) }) | (1u64 << 26u64) } else { (if (wr >> 25u64) & 1u64 == 1u64 { (if (wr >> 24u64) & 1u64 == 1u64 { 0u64 | (1u64 << 24u64) } else { 0u64 }) | (1u64 << 25u64) } else { (if (wr >> 24u64) & 1u64 == 1u64 { 0u64 | (1u64 << 24u64) } else { 0u64 }) }) }) }) }) }) | (1u64 << 30u64) } else { (if (wr >> 29u64) & 1u64 == 1u64 { (if (wr >> 28u64) & 1u64 == 1u64 { (if (wr >> 27u64) & 1u64 == 1u64 { (if (wr >> 26u64) & 1u64 == 1u64 { (if (wr >> 25u64) & 1u64 == 1u64 { (if (wr >> 24u64) & 1u64 == 1u64 { 0u64 | (1u64 << 24u64) } else { 0u64 }) | (1u64 << 25u64) } else { (if (wr >> 24u64) & 1u64 == 1u64 { 0u64 | (1u64 << 24u64) } else { 0u64 }) }) | (1u64 << 26u64) } else { (if (wr >> 25u64) & 1u64 == 1u64 { (if (wr >> 24u64) & 1u64 == 1u64 { 0u64 | (1u64 << 24u64) } else { 0u64 }) | (1u64 << 25u64) } else { (if (wr >> 24u64) & 1u64 == 1u64 { 0u64 | (1u64 << 24u64) } else { 0u64 }) }) }) | (1u64 << 27u64) } else { (if (wr >> 26u64) & 1u64 == 1u64 { (if (wr >> 25u64) & 1u64 == 1u64 { (if (wr >> 24u64) & 1u64 == 1u64 { 0u64 | (1u64 << 24u64) } else { 0u64 }) | (1u64 << 25u64) } else { (if (wr >> 24u64) & 1u64 == 1u64 { 0u64 | (1u64 << 24u64) } else { 0u64 }) }) | (1u64 << 26u64) } else { (if (wr >> 25u64) & 1u64 == 1u64 { (if (wr >> 24u64) & 1u64 == 1u64 { 0u64 | (1u64 << 24u64) } else { 0u64 }) | (1u64 << 25u64) } else { (if (wr >> 24u64) & 1u64 == 1u64 { 0u64 | (1u64 << 24u64) } else { 0u64 }) }) }) }) | (1u64 << 28u64) } else { (if (wr >> 27u64) & 1u64 == 1u64 { (if (wr >> 26u64) & 1u64 == 1u64 { (if (wr >> 25u64) & 1u64 == 1u64 { (if (wr >> 24u64) & 1u64 == 1u64 { 0u64 | (1u64 << 24u64) } else { 0u64 }) | (1u64 << 25u64) } else { (if (wr >> 24u64) & 1u64 == 1u64 { 0u64 | (1u64 << 24u64) } else { 0u64 }) }) | (1u64 << 26u64) } else { (if (wr >> 25u64) & 1u64 == 1u64 { (if (wr >> 24u64) & 1u64 == 1u64 { 0u64 | (1u64 << 24u64) } else { 0u64 }) | (1u64 << 25u64) } else { (if (wr >> 24u64) & 1u64 == 1u64 { 0u64 | (1u64 << 24u64) } else { 0u64 }) }) }) | (1u64 << 27u64) } else { (if (wr >> 26u64) & 1u64 == 1u64 { (if (wr >> 25u64) & 1u64 == 1u64 { (if (wr >> 24u64) & 1u64 == 1u64 { 0u64 | (1u64 << 24u64) } else { 0u64 }) | (1u64 << 25u64) } else { (if (wr >> 24u64) & 1u64 == 1u64 { 0u64 | (1u64 << 24u64) } else { 0u64 }) }) | (1u64 << 26u64) } else { (if (wr >> 25u64) & 1u64 == 1u64 { (if (wr >> 24u64) & 1u64 == 1u64 { 0u64 | (1u64 << 24u64) } else { 0u64 }) | (1u64 << 25u64) } else { (if (wr >> 24u64) & 1u64 == 1u64 { 0u64 | (1u64 << 24u64) } else { 0u64 }) }) }) }) }) | (1u64 << 29u64) } else { (if (wr >> 28u64) & 1u64 == 1u64 { (if (wr >> 27u64) & 1u64 == 1u64 { (if (wr >> 26u64) & 1u64 == 1u64 { (if (wr >> 25u64) & 1u64 == 1u64 { (if (wr >> 24u64) & 1u64 == 1u64 { 0u64 | (1u64 << 24u64) } else { 0u64 }) | (1u64 << 25u64) } else { (if (wr >> 24u64) & 1u64 == 1u64 { 0u64 | (1u64 << 24u64) } else { 0u64 }) }) | (1u64 << 26u64) } else { (if (wr >> 25u64) & 1u64 == 1u64 { (if (wr >> 24u64) & 1u64 == 1u64 { 0u64 | (1u64 << 24u64) } else { 0u64 }) | (1u64 << 25u64) } else { (if (wr >> 24u64) & 1u64 == 1u64 { 0u64 | (1u64 << 24u64) } else { 0u64 }) }) }) | (1u64 << 27u64) } else { (if (wr >> 26u64) & 1u64 == 1u64 { (if (wr >> 25u64) & 1u64 == 1u64 { (if (wr >> 24u64) & 1u64 == 1u64 { 0u64 | (1u64 << 24u64) } else { 0u64 }) | (1u64 << 25u64) } else { (if (wr >> 24u64) & 1u64 == 1u64 { 0u64 | (1u64 << 24u64) } else { 0u64 }) }) | (1u64 << 26u64) } else { (if (wr >> 25u64) & 1u64 == 1u64 { (if (wr >> 24u64) & 1u64 == 1u64 { 0u64 | (1u64 << 24u64) } else { 0u64 }) | (1u64 << 25u64) } else { (if (wr >> 24u64) & 1u64 == 1u64 { 0u64 | (1u64 << 24u64) } else { 0u64 }) }) }) }) | (1u64 << 28u64) } else { (if (wr >> 27u64) & 1u64 == 1u64 { (if (wr >> 26u64) & 1u64 == 1u64 { (if (wr >> 25u64) & 1u64 == 1u64 { (if (wr >> 24u64) & 1u64 == 1u64 { 0u64 | (1u64 << 24u64) } else { 0u64 }) | (1u64 << 25u64) } else { (if (wr >> 24u64) & 1u64 == 1u64 { 0u64 | (1u64 << 24u64) } else { 0u64 }) }) | (1u64 << 26u64) } else { (if (wr >> 25u64) & 1u64 == 1u64 { (if (wr >> 24u64) & 1u64 == 1u64 { 0u64 | (1u64 << 24u64) } else { 0u64 }) | (1u64 << 25u64) } else { (if (wr >> 24u64) & 1u64 == 1u64 { 0u64 | (1u64 << 24u64) } else { 0u64 }) }) }) | (1u64 << 27u64) } else { (if (wr >> 26u64) & 1u64 == 1u64 { (if (wr >> 25u64) & 1u64 == 1u64 { (if (wr >> 24u64) & 1u64 == 1u64 { 0u64 | (1u64 << 24u64) } else { 0u64 }) | (1u64 << 25u64) } else { (if (wr >> 24u64) & 1u64 == 1u64 { 0u64 | (1u64 << 24u64) } else { 0u64 }) }) | (1u64 << 26u64) } else { (if (wr >> 25u64) & 1u64 == 1u64 { (if (wr >> 24u64) & 1u64 == 1u64 { 0u64 | (1u64 << 24u64) } else { 0u64 }) | (1u64 << 25u64) } else { (if (wr >> 24u64) & 1u64 == 1u64 { 0u64 | (1u64 << 24u64) } else { 0u64 }) }) }) }) }) }) }) | (1u64 << 31u64) } else { (if (wr >> 30u64) & 1u64 == 1u64 { (if (wr >> 29u64) & 1u64 == 1u64 { (if (wr >> 28u64) & 1u64 == 1u64 { (if (wr >> 27u64) & 1u64 == 1u64 { (if (wr >> 26u64) & 1u64 == 1u64 { (if (wr >> 25u64) & 1u64 == 1u64 { (if (wr >> 24u64) & 1u64 == 1u64 { 0u64 | (1u64 << 24u64) } else { 0u64 }) | (1u64 << 25u64) } else { (if (wr >> 24u64) & 1u64 == 1u64 { 0u64 | (1u64 << 24u64) } else { 0u64 }) }) | (1u64 << 26u64) } else { (if (wr >> 25u64) & 1u64 == 1u64 { (if (wr >> 24u64) & 1u64 == 1u64 { 0u64 | (1u64 << 24u64) } else { 0u64 }) | (1u64 << 25u64) } else { (if (wr >> 24u64) & 1u64 == 1u64 { 0u64 | (1u64 << 24u64) } else { 0u64 }) }) }) | (1u64 << 27u64) } else { (if (wr >> 26u64) & 1u64 == 1u64 { (if (wr >> 25u64) & 1u64 == 1u64 { (if (wr >> 24u64) & 1u64 == 1u64 { 0u64 | (1u64 << 24u64) } else { 0u64 }) | (1u64 << 25u64) } else { (if (wr >> 24u64) & 1u64 == 1u64 { 0u64 | (1u64 << 24u64) } else { 0u64 }) }) | (1u64 << 26u64) } else { (if (wr >> 25u64) & 1u64 == 1u64 { (if (wr >> 24u64) & 1u64 == 1u64 { 0u64 | (1u64 << 24u64) } else { 0u64 }) | (1u64 << 25u64) } else { (if (wr >> 24u64) & 1u64 == 1u64 { 0u64 | (1u64 << 24u64) } else { 0u64 }) }) }) }) | (1u64 << 28u64) } else { (if (wr >> 27u64) & 1u64 == 1u64 { (if (wr >> 26u64) & 1u64 == 1u64 { (if (wr >> 25u64) & 1u64 == 1u64 { (if (wr >> 24u64) & 1u64 == 1u64 { 0u64 | (1u64 << 24u64) } else { 0u64 }) | (1u64 << 25u64) } else { (if (wr >> 24u64) & 1u64 == 1u64 { 0u64 | (1u64 << 24u64) } else { 0u64 }) }) | (1u64 << 26u64) } else { (if (wr >> 25u64) & 1u64 == 1u64 { (if (wr >> 24u64) & 1u64 == 1u64 { 0u64 | (1u64 << 24u64) } else { 0u64 }) | (1u64 << 25u64) } else { (if (wr >> 24u64) & 1u64 == 1u64 { 0u64 | (1u64 << 24u64) } else { 0u64 }) }) }) | (1u64 << 27u64) } else { (if (wr >> 26u64) & 1u64 == 1u64 { (if (wr >> 25u64) & 1u64 == 1u64 { (if (wr >> 24u64) & 1u64 == 1u64 { 0u64 | (1u64 << 24u64) } else { 0u64 }) | (1u64 << 25u64) } else { (if (wr >> 24u64) & 1u64 == 1u64 { 0u64 | (1u64 << 24u64) } else { 0u64 }) }) | (1u64 << 26u64) } else { (if (wr >> 25u64) & 1u64 == 1u64 { (if (wr >> 24u64) & 1u64 == 1u64 { 0u64 | (1u64 << 24u64) } else { 0u64 }) | (1u64 << 25u64) } else { (if (wr >> 24u64) & 1u64 == 1u64 { 0u64 | (1u64 << 24u64) } else { 0u64 }) }) }) }) }) | (1u64 << 29u64) } else { (if (wr >> 28u64) & 1u64 == 1u64 { (if (wr >> 27u64) & 1u64 == 1u64 { (if (wr >> 26u64) & 1u64 == 1u64 { (if (wr >> 25u64) & 1u64 == 1u64 { (if (wr >> 24u64) & 1u64 == 1u64 { 0u64 | (1u64 << 24u64) } else { 0u64 }) | (1u64 << 25u64) } else { (if (wr >> 24u64) & 1u64 == 1u64 { 0u64 | (1u64 << 24u64) } else { 0u64 }) }) | (1u64 << 26u64) } else { (if (wr >> 25u64) & 1u64 == 1u64 { (if (wr >> 24u64) & 1u64 == 1u64 { 0u64 | (1u64 << 24u64) } else { 0u64 }) | (1u64 << 25u64) } else { (if (wr >> 24u64) & 1u64 == 1u64 { 0u64 | (1u64 << 24u64) } else { 0u64 }) }) }) | (1u64 << 27u64) } else { (if (wr >> 26u64) & 1u64 == 1u64 { (if (wr >> 25u64) & 1u64 == 1u64 { (if (wr >> 24u64) & 1u64 == 1u64 { 0u64 | (1u64 << 24u64) } else { 0u64 }) | (1u64 << 25u64) } else { (if (wr >> 24u64) & 1u64 == 1u64 { 0u64 | (1u64 << 24u64) } else { 0u64 }) }) | (1u64 << 26u64) } else { (if (wr >> 25u64) & 1u64 == 1u64 { (if (wr >> 24u64) & 1u64 == 1u64 { 0u64 | (1u64 << 24u64) } else { 0u64 }) | (1u64 << 25u64) } else { (if (wr >> 24u64) & 1u64 == 1u64 { 0u64 | (1u64 << 24u64) } else { 0u64 }) }) }) }) | (1u64 << 28u64) } else { (if (wr >> 27u64) & 1u64 == 1u64 { (if (wr >> 26u64) & 1u64 == 1u64 { (if (wr >> 25u64) & 1u64 == 1u64 { (if (wr >> 24u64) & 1u64 == 1u64 { 0u64 | (1u64 << 24u64) } else { 0u64 }) | (1u64 << 25u64) } else { (if (wr >> 24u64) & 1u64 == 1u64 { 0u64 | (1u64 << 24u64) } else { 0u64 }) }) | (1u64 << 26u64) } else { (if (wr >> 25u64) & 1u64 == 1u64 { (if (wr >> 24u64) & 1u64 == 1u64 { 0u64 | (1u64 << 24u64) } else { 0u64 }) | (1u64 << 25u64) } else { (if (wr >> 24u64) & 1u64 == 1u64 { 0u64 | (1u64 << 24u64) } else { 0u64 }) }) }) | (1u64 << 27u64) } else { (if (wr >> 26u64) & 1u64 == 1u64 { (if (wr >> 25u64) & 1u64 == 1u64 { (if (wr >> 24u64) & 1u64 == 1u64 { 0u64 | (1u64 << 24u64) } else { 0u64 }) | (1u64 << 25u64) } else { (if (wr >> 24u64) & 1u64 == 1u64 { 0u64 | (1u64 << 24u64) } else { 0u64 }) }) | (1u64 << 26u64) } else { (if (wr >> 25u64) & 1u64 == 1u64 { (if (wr >> 24u64) & 1u64 == 1u64 { 0u64 | (1u64 << 24u64) } else { 0u64 }) | (1u64 << 25u64) } else { (if (wr >> 24u64) & 1u64 == 1u64 { 0u64 | (1u64 << 24u64) } else { 0u64 }) }) }) }) }) }) | (1u64 << 30u64) } else { (if (wr >> 29u64) & 1u64 == 1u64 { (if (wr >> 28u64) & 1u64 == 1u64 { (if (wr >> 27u64) & 1u64 == 1u64 { (if (wr >> 26u64) & 1u64 == 1u64 { (if (wr >> 25u64) & 1u64 == 1u64 { (if (wr >> 24u64) & 1u64 == 1u64 { 0u64 | (1u64 << 24u64) } else { 0u64 }) | (1u64 << 25u64) } else { (if (wr >> 24u64) & 1u64 == 1u64 { 0u64 | (1u64 << 24u64) } else { 0u64 }) }) | (1u64 << 26u64) } else { (if (wr >> 25u64) & 1u64 == 1u64 { (if (wr >> 24u64) & 1u64 == 1u64 { 0u64 | (1u64 << 24u64) } else { 0u64 }) | (1u64 << 25u64) } else { (if (wr >> 24u64) & 1u64 == 1u64 { 0u64 | (1u64 << 24u64) } else { 0u64 }) }) }) | (1u64 << 27u64) } else { (if (wr >> 26u64) & 1u64 == 1u64 { (if (wr >> 25u64) & 1u64 == 1u64 { (if (wr >> 24u64) & 1u64 == 1u64 { 0u64 | (1u64 << 24u64) } else { 0u64 }) | (1u64 << 25u64) } else { (if (wr >> 24u64) & 1u64 == 1u64 { 0u64 | (1u64 << 24u64) } else { 0u64 }) }) | (1u64 << 26u64) } else { (if (wr >> 25u64) & 1u64 == 1u64 { (if (wr >> 24u64) & 1u64 == 1u64 { 0u64 | (1u64 << 24u64) } else { 0u64 }) | (1u64 << 25u64) } else { (if (wr >> 24u64) & 1u64 == 1u64 { 0u64 | (1u64 << 24u64) } else { 0u64 }) }) }) }) | (1u64 << 28u64) } else { (if (wr >> 27u64) & 1u64 == 1u64 { (if (wr >> 26u64) & 1u64 == 1u64 { (if (wr >> 25u64) & 1u64 == 1u64 { (if (wr >> 24u64) & 1u64 == 1u64 { 0u64 | (1u64 << 24u64) } else { 0u64 }) | (1u64 << 25u64) } else { (if (wr >> 24u64) & 1u64 == 1u64 { 0u64 | (1u64 << 24u64) } else { 0u64 }) }) | (1u64 << 26u64) } else { (if (wr >> 25u64) & 1u64 == 1u64 { (if (wr >> 24u64) & 1u64 == 1u64 { 0u64 | (1u64 << 24u64) } else { 0u64 }) | (1u64 << 25u64) } else { (if (wr >> 24u64) & 1u64 == 1u64 { 0u64 | (1u64 << 24u64) } else { 0u64 }) }) }) | (1u64 << 27u64) } else { (if (wr >> 26u64) & 1u64 == 1u64 { (if (wr >> 25u64) & 1u64 == 1u64 { (if (wr >> 24u64) & 1u64 == 1u64 { 0u64 | (1u64 << 24u64) } else { 0u64 }) | (1u64 << 25u64) } else { (if (wr >> 24u64) & 1u64 == 1u64 { 0u64 | (1u64 << 24u64) } else { 0u64 }) }) | (1u64 << 26u64) } else { (if (wr >> 25u64) & 1u64 == 1u64 { (if (wr >> 24u64) & 1u64 == 1u64 { 0u64 | (1u64 << 24u64) } else { 0u64 }) | (1u64 << 25u64) } else { (if (wr >> 24u64) & 1u64 == 1u64 { 0u64 | (1u64 << 24u64) } else { 0u64 }) }) }) }) }) | (1u64 << 29u64) } else { (if (wr >> 28u64) & 1u64 == 1u64 { (if (wr >> 27u64) & 1u64 == 1u64 { (if (wr >> 26u64) & 1u64 == 1u64 { (if (wr >> 25u64) & 1u64 == 1u64 { (if (wr >> 24u64) & 1u64 == 1u64 { 0u64 | (1u64 << 24u64) } else { 0u64 }) | (1u64 << 25u64) } else { (if (wr >> 24u64) & 1u64 == 1u64 { 0u64 | (1u64 << 24u64) } else { 0u64 }) }) | (1u64 << 26u64) } else { (if (wr >> 25u64) & 1u64 == 1u64 { (if (wr >> 24u64) & 1u64 == 1u64 { 0u64 | (1u64 << 24u64) } else { 0u64 }) | (1u64 << 25u64) } else { (if (wr >> 24u64) & 1u64 == 1u64 { 0u64 | (1u64 << 24u64) } else { 0u64 }) }) }) | (1u64 << 27u64) } else { (if (wr >> 26u64) & 1u64 == 1u64 { (if (wr >> 25u64) & 1u64 == 1u64 { (if (wr >> 24u64) & 1u64 == 1u64 { 0u64 | (1u64 << 24u64) } else { 0u64 }) | (1u64 << 25u64) } else { (if (wr >> 24u64) & 1u64 == 1u64 { 0u64 | (1u64 << 24u64) } else { 0u64 }) }) | (1u64 << 26u64) } else { (if (wr >> 25u64) & 1u64 == 1u64 { (if (wr >> 24u64) & 1u64 == 1u64 { 0u64 | (1u64 << 24u64) } else { 0u64 }) | (1u64 << 25u64) } else { (if (wr >> 24u64) & 1u64 == 1u64 { 0u64 | (1u64 << 24u64) } else { 0u64 }) }) }) }) | (1u64 << 28u64) } else { (if (wr >> 27u64) & 1u64 == 1u64 { (if (wr >> 26u64) & 1u64 == 1u64 { (if (wr >> 25u64) & 1u64 == 1u64 { (if (wr >> 24u64) & 1u64 == 1u64 { 0u64 | (1u64 << 24u64) } else { 0u64 }) | (1u64 << 25u64) } else { (if (wr >> 24u64) & 1u64 == 1u64 { 0u64 | (1u64 << 24u64) } else { 0u64 }) }) | (1u64 << 26u64) } else { (if (wr >> 25u64) & 1u64 == 1u64 { (if (wr >> 24u64) & 1u64 == 1u64 { 0u64 | (1u64 << 24u64) } else { 0u64 }) | (1u64 << 25u64) } else { (if (wr >> 24u64) & 1u64 == 1u64 { 0u64 | (1u64 << 24u64) } else { 0u64 }) }) }) | (1u64 << 27u64) } else { (if (wr >> 26u64) & 1u64 == 1u64 { (if (wr >> 25u64) & 1u64 == 1u64 { (if (wr >> 24u64) & 1u64 == 1u64 { 0u64 | (1u64 << 24u64) } else { 0u64 }) | (1u64 << 25u64) } else { (if (wr >> 24u64) & 1u64 == 1u64 { 0u64 | (1u64 << 24u64) } else { 0u64 }) }) | (1u64 << 26u64) } else { (if (wr >> 25u64) & 1u64 == 1u64 { (if (wr >> 24u64) & 1u64 == 1u64 { 0u64 | (1u64 << 24u64) } else { 0u64 }) | (1u64 << 25u64) } else { (if (wr >> 24u64) & 1u64 == 1u64 { 0u64 | (1u64 << 24u64) } else { 0u64 }) }) }) }) }) }) }) }) }) }) | (1u64 << 22u64) } else { (if (wr >> 23u64) & 1u64 == 1u64 { (if (wr >> 23u64) & 1u64 == 1u64 { (if (wr >> 31u64) & 1u64 == 1u64 { (if (wr >> 30u64) & 1u64 == 1u64 { (if (wr >> 29u64) & 1u64 == 1u64 { (if (wr >> 28u64) & 1u64 == 1u64 { (if (wr >> 27u64) & 1u64 == 1u64 { (if (wr >> 26u64) & 1u64 == 1u64 { (if (wr >> 25u64) & 1u64 == 1u64 { (if (wr >> 24u64) & 1u64 == 1u64 { 0u64 | (1u64 << 24u64) } else { 0u64 }) | (1u64 << 25u64) } else { (if (wr >> 24u64) & 1u64 == 1u64 { 0u64 | (1u64 << 24u64) } else { 0u64 }) }) | (1u64 << 26u64) } else { (if (wr >> 25u64) & 1u64 == 1u64 { (if (wr >> 24u64) & 1u64 == 1u64 { 0u64 | (1u64 << 24u64) } else { 0u64 }) | (1u64 << 25u64) } else { (if (wr >> 24u64) & 1u64 == 1u64 { 0u64 | (1u64 << 24u64) } else { 0u64 }) }) }) | (1u64 << 27u64) } else { (if (wr >> 26u64) & 1u64 == 1u64 { (if (wr >> 25u64) & 1u64 == 1u64 { (if (wr >> 24u64) & 1u64 == 1u64 { 0u64 | (1u64 << 24u64) } else { 0u64 }) | (1u64 << 25u64) } else { (if (wr >> 24u64) & 1u64 == 1u64 { 0u64 | (1u64 << 24u64) } else { 0u64 }) }) | (1u64 << 26u64) } else { (if (wr >> 25u64) & 1u64 == 1u64 { (if (wr >> 24u64) & 1u64 == 1u64 { 0u64 | (1u64 << 24u64) } else { 0u64 }) | (1u64 << 25u64) } else { (if (wr >> 24u64) & 1u64 == 1u64 { 0u64 | (1u64 << 24u64) } else { 0u64 }) }) }) }) | (1u64 << 28u64) } else { (if (wr >> 27u64) & 1u64 == 1u64 { (if (wr >> 26u64) & 1u64 == 1u64 { (if (wr >> 25u64) & 1u64 == 1u64 { (if (wr >> 24u64) & 1u64 == 1u64 { 0u64 | (1u64 << 24u64) } else { 0u64 }) | (1u64 << 25u64) } else { (if (wr >> 24u64) & 1u64 == 1u64 { 0u64 | (1u64 << 24u64) } else { 0u64 }) }) | (1u64 << 26u64) } else { (if (wr >> 25u64) & 1u64 == 1u64 { (if (wr >> 24u64) & 1u64 == 1u64 { 0u64 | (1u64 << 24u64) } else { 0u64 }) | (1u64 << 25u64) } else { (if (wr >> 24u64) & 1u64 == 1u64 { 0u64 | (1u64 << 24u64) } else { 0u64 }) }) }) | (1u64 << 27u64) } else { (if (wr >> 26u64) & 1u64 == 1u64 { (if (wr >> 25u64) & 1u64 == 1u64 { (if (wr >> 24u64) & 1u64 == 1u64 { 0u64 | (1u64 << 24u64) } else { 0u64 }) | (1u64 << 25u64) } else { (if (wr >> 24u64) & 1u64 == 1u64 { 0u64 | (1u64 << 24u64) } else { 0u64 }) }) | (1u64 << 26u64) } else { (if (wr >> 25u64) & 1u64 == 1u64 { (if (wr >> 24u64) & 1u64 == 1u64 { 0u64 | (1u64 << 24u64) } else { 0u64 }) | (1u64 << 25u64) } else { (if (wr >> 24u64) & 1u64 == 1u64 { 0u64 | (1u64 << 24u64) } else { 0u64 }) }) }) }) }) | (1u64 << 29u64) } else { (if (wr >> 28u64) & 1u64 == 1u64 { (if (wr >> 27u64) & 1u64 == 1u64 { (if (wr >> 26u64) & 1u64 == 1u64 { (if (wr >> 25u64) & 1u64 == 1u64 { (if (wr >> 24u64) & 1u64 == 1u64 { 0u64 | (1u64 << 24u64) } else { 0u64 }) | (1u64 << 25u64) } else { (if (wr >> 24u64) & 1u64 == 1u64 { 0u64 | (1u64 << 24u64) } else { 0u64 }) }) | (1u64 << 26u64) } else { (if (wr >> 25u64) & 1u64 == 1u64 { (if (wr >> 24u64) & 1u64 == 1u64 { 0u64 | (1u64 << 24u64) } else { 0u64 }) | (1u64 << 25u64) } else { (if (wr >> 24u64) & 1u64 == 1u64 { 0u64 | (1u64 << 24u64) } else { 0u64 }) }) }) | (1u64 << 27u64) } else { (if (wr >> 26u64) & 1u64 == 1u64 { (if (wr >> 25u64) & 1u64 == 1u64 { (if (wr >> 24u64) & 1u64 == 1u64 { 0u64 | (1u64 << 24u64) } else { 0u64 }) | (1u64 << 25u64) } else { (if (wr >> 24u64) & 1u64 == 1u64 { 0u64 | (1u64 << 24u64) } else { 0u64 }) }) | (1u64 << 26u64) } else { (if (wr >> 25u64) & 1u64 == 1u64 { (if (wr >> 24u64) & 1u64 == 1u64 { 0u64 | (1u64 << 24u64) } else { 0u64 }) | (1u64 << 25u64) } else { (if (wr >> 24u64) & 1u64 == 1u64 { 0u64 | (1u64 << 24u64) } else { 0u64 }) }) }) }) | (1u64 << 28u64) } else { (if (wr >> 27u64) & 1u64 == 1u64 { (if (wr >> 26u64) & 1u64 == 1u64 { (if (wr >> 25u64) & 1u64 == 1u64 { (if (wr >> 24u64) & 1u64 == 1u64 { 0u64 | (1u64 << 24u64) } else { 0u64 }) | (1u64 << 25u64) } else { (if (wr >> 24u64) & 1u64 == 1u64 { 0u64 | (1u64 << 24u64) } else { 0u64 }) }) | (1u64 << 26u64) } else { (if (wr >> 25u64) & 1u64 == 1u64 { (if (wr >> 24u64) & 1u64 == 1u64 { 0u64 | (1u64 << 24u64) } else { 0u64 }) | (1u64 << 25u64) } else { (if (wr >> 24u64) & 1u64 == 1u64 { 0u64 | (1u64 << 24u64) } else { 0u64 }) }) }) | (1u64 << 27u64) } else { (if (wr >> 26u64) & 1u64 == 1u64 { (if (wr >> 25u64) & 1u64 == 1u64 { (if (wr >> 24u64) & 1u64 == 1u64 { 0u64 | (1u64 << 24u64) } else { 0u64 }) | (1u64 << 25u64) } else { (if (wr >> 24u64) & 1u64 == 1u64 { 0u64 | (1u64 << 24u64) } else { 0u64 }) }) | (1u64 << 26u64) } else { (if (wr >> 25u64) & 1u64 == 1u64 { (if (wr >> 24u64) & 1u64 == 1u64 { 0u64 | (1u64 << 24u64) } else { 0u64 }) | (1u64 << 25u64) } else { (if (wr >> 24u64) & 1u64 == 1u64 { 0u64 | (1u64 << 24u64) } else { 0u64 }) }) }) }) }) }) | (1u64 << 30u64) } else { (if (wr >> 29u64) & 1u64 == 1u64 { (if (wr >> 28u64) & 1u64 == 1u64 { (if (wr >> 27u64) & 1u64 == 1u64 { (if (wr >> 26u64) & 1u64 == 1u64 { (if (wr >> 25u64) & 1u64 == 1u64 { (if (wr >> 24u64) & 1u64 == 1u64 { 0u64 | (1u64 << 24u64) } else { 0u64 }) | (1u64 << 25u64) } else { (if (wr >> 24u64) & 1u64 == 1u64 { 0u64 | (1u64 << 24u64) } else { 0u64 }) }) | (1u64 << 26u64) } else { (if (wr >> 25u64) & 1u64 == 1u64 { (if (wr >> 24u64) & 1u64 == 1u64 { 0u64 | (1u64 << 24u64) } else { 0u64 }) | (1u64 << 25u64) } else { (if (wr >> 24u64) & 1u64 == 1u64 { 0u64 | (1u64 << 24u64) } else { 0u64 }) }) }) | (1u64 << 27u64) } else { (if (wr >> 26u64) & 1u64 == 1u64 { (if (wr >> 25u64) & 1u64 == 1u64 { (if (wr >> 24u64) & 1u64 == 1u64 { 0u64 | (1u64 << 24u64) } else { 0u64 }) | (1u64 << 25u64) } else { (if (wr >> 24u64) & 1u64 == 1u64 { 0u64 | (1u64 << 24u64) } else { 0u64 }) }) | (1u64 << 26u64) } else { (if (wr >> 25u64) & 1u64 == 1u64 { (if (wr >> 24u64) & 1u64 == 1u64 { 0u64 | (1u64 << 24u64) } else { 0u64 }) | (1u64 << 25u64) } else { (if (wr >> 24u64) & 1u64 == 1u64 { 0u64 | (1u64 << 24u64) } else { 0u64 }) }) }) }) | (1u64 << 28u64) } else { (if (wr >> 27u64) & 1u64 == 1u64 { (if (wr >> 26u64) & 1u64 == 1u64 { (if (wr >> 25u64) & 1u64 == 1u64 { (if (wr >> 24u64) & 1u64 == 1u64 { 0u64 | (1u64 << 24u64) } else { 0u64 }) | (1u64 << 25u64) } else { (if (wr >> 24u64) & 1u64 == 1u64 { 0u64 | (1u64 << 24u64) } else { 0u64 }) }) | (1u64 << 26u64) } else { (if (wr >> 25u64) & 1u64 == 1u64 { (if (wr >> 24u64) & 1u64 == 1u64 { 0u64 | (1u64 << 24u64) } else { 0u64 }) | (1u64 << 25u64) } else { (if (wr >> 24u64) & 1u64 == 1u64 { 0u64 | (1u64 << 24u64) } else { 0u64 }) }) }) | (1u64 << 27u64) } else { (if (wr >> 26u64) & 1u64 == 1u64 { (if (wr >> 25u64) & 1u64 == 1u64 { (if (wr >> 24u64) & 1u64 == 1u64 { 0u64 | (1u64 << 24u64) } else { 0u64 }) | (1u64 << 25u64) } else { (if (wr >> 24u64) & 1u64 == 1u64 { 0u64 | (1u64 << 24u64) } else { 0u64 }) }) | (1u64 << 26u64) } else { (if (wr >> 25u64) & 1u64 == 1u64 { (if (wr >> 24u64) & 1u64 == 1u64 { 0u64 | (1u64 << 24u64) } else { 0u64 }) | (1u64 << 25u64) } else { (if (wr >> 24u64) & 1u64 == 1u64 { 0u64 | (1u64 << 24u64) } else { 0u64 }) }) }) }) }) | (1u64 << 29u64) } else { (if (wr >> 28u64) & 1u64 == 1u64 { (if (wr >> 27u64) & 1u64 == 1u64 { (if (wr >> 26u64) & 1u64 == 1u64 { (if (wr >> 25u64) & 1u64 == 1u64 { (if (wr >> 24u64) & 1u64 == 1u64 { 0u64 | (1u64 << 24u64) } else { 0u64 }) | (1u64 << 25u64) } else { (if (wr >> 24u64) & 1u64 == 1u64 { 0u64 | (1u64 << 24u64) } else { 0u64 }) }) | (1u64 << 26u64) } else { (if (wr >> 25u64) & 1u64 == 1u64 { (if (wr >> 24u64) & 1u64 == 1u64 { 0u64 | (1u64 << 24u64) } else { 0u64 }) | (1u64 << 25u64) } else { (if (wr >> 24u64) & 1u64 == 1u64 { 0u64 | (1u64 << 24u64) } else { 0u64 }) }) }) | (1u64 << 27u64) } else { (if (wr >> 26u64) & 1u64 == 1u64 { (if (wr >> 25u64) & 1u64 == 1u64 { (if (wr >> 24u64) & 1u64 == 1u64 { 0u64 | (1u64 << 24u64) } else { 0u64 }) | (1u64 << 25u64) } else { (if (wr >> 24u64) & 1u64 == 1u64 { 0u64 | (1u64 << 24u64) } else { 0u64 }) }) | (1u64 << 26u64) } else { (if (wr >> 25u64) & 1u64 == 1u64 { (if (wr >> 24u64) & 1u64 == 1u64 { 0u64 | (1u64 << 24u64) } else { 0u64 }) | (1u64 << 25u64) } else { (if (wr >> 24u64) & 1u64 == 1u64 { 0u64 | (1u64 << 24u64) } else { 0u64 }) }) }) }) | (1u64 << 28u64) } else { (if (wr >> 27u64) & 1u64 == 1u64 { (if (wr >> 26u64) & 1u64 == 1u64 { (if (wr >> 25u64) & 1u64 == 1u64 { (if (wr >> 24u64) & 1u64 == 1u64 { 0u64 | (1u64 << 24u64) } else { 0u64 }) | (1u64 << 25u64) } else { (if (wr >> 24u64) & 1u64 == 1u64 { 0u64 | (1u64 << 24u64) } else { 0u64 }) }) | (1u64 << 26u64) } else { (if (wr >> 25u64) & 1u64 == 1u64 { (if (wr >> 24u64) & 1u64 == 1u64 { 0u64 | (1u64 << 24u64) } else { 0u64 }) | (1u64 << 25u64) } else { (if (wr >> 24u64) & 1u64 == 1u64 { 0u64 | (1u64 << 24u64) } else { 0u64 }) }) }) | (1u64 << 27u64) } else { (if (wr >> 26u64) & 1u64 == 1u64 { (if (wr >> 25u64) & 1u64 == 1u64 { (if (wr >> 24u64) & 1u64 == 1u64 { 0u64 | (1u64 << 24u64) } else { 0u64 }) | (1u64 << 25u64) } else { (if (wr >> 24u64) & 1u64 == 1u64 { 0u64 | (1u64 << 24u64) } else { 0u64 }) }) | (1u64 << 26u64) } else { (if (wr >> 25u64) & 1u64 == 1u64 { (if (wr >> 24u64) & 1u64 == 1u64 { 0u64 | (1u64 << 24u64) } else { 0u64 }) | (1u64 << 25u64) } else { (if (wr >> 24u64) & 1u64 == 1u64 { 0u64 | (1u64 << 24u64) } else { 0u64 }) }) }) }) }) }) }) | (1u64 << 31u64) } else { (if (wr >> 30u64) & 1u64 == 1u64 { (if (wr >> 29u64) & 1u64 == 1u64 { (if (wr >> 28u64) & 1u64 == 1u64 { (if (wr >> 27u64) & 1u64 == 1u64 { (if (wr >> 26u64) & 1u64 == 1u64 { (if (wr >> 25u64) & 1u64 == 1u64 { (if (wr >> 24u64) & 1u64 == 1u64 { 0u64 | (1u64 << 24u64) } else { 0u64 }) | (1u64 << 25u64) } else { (if (wr >> 24u64) & 1u64 == 1u64 { 0u64 | (1u64 << 24u64) } else { 0u64 }) }) | (1u64 << 26u64) } else { (if (wr >> 25u64) & 1u64 == 1u64 { (if (wr >> 24u64) & 1u64 == 1u64 { 0u64 | (1u64 << 24u64) } else { 0u64 }) | (1u64 << 25u64) } else { (if (wr >> 24u64) & 1u64 == 1u64 { 0u64 | (1u64 << 24u64) } else { 0u64 }) }) }) | (1u64 << 27u64) } else { (if (wr >> 26u64) & 1u64 == 1u64 { (if (wr >> 25u64) & 1u64 == 1u64 { (if (wr >> 24u64) & 1u64 == 1u64 { 0u64 | (1u64 << 24u64) } else { 0u64 }) | (1u64 << 25u64) } else { (if (wr >> 24u64) & 1u64 == 1u64 { 0u64 | (1u64 << 24u64) } else { 0u64 }) }) | (1u64 << 26u64) } else { (if (wr >> 25u64) & 1u64 == 1u64 { (if (wr >> 24u64) & 1u64 == 1u64 { 0u64 | (1u64 << 24u64) } else { 0u64 }) | (1u64 << 25u64) } else { (if (wr >> 24u64) & 1u64 == 1u64 { 0u64 | (1u64 << 24u64) } else { 0u64 }) }) }) }) | (1u64 << 28u64) } else { (if (wr >> 27u64) & 1u64 == 1u64 { (if (wr >> 26u64) & 1u64 == 1u64 { (if (wr >> 25u64) & 1u64 == 1u64 { (if (wr >> 24u64) & 1u64 == 1u64 { 0u64 | (1u64 << 24u64) } else { 0u64 }) | (1u64 << 25u64) } else { (if (wr >> 24u64) & 1u64 == 1u64 { 0u64 | (1u64 << 24u64) } else { 0u64 }) }) | (1u64 << 26u64) } else { (if (wr >> 25u64) & 1u64 == 1u64 { (if (wr >> 24u64) & 1u64 == 1u64 { 0u64 | (1u64 << 24u64) } else { 0u64 }) | (1u64 << 25u64) } else { (if (wr >> 24u64) & 1u64 == 1u64 { 0u64 | (1u64 << 24u64) } else { 0u64 }) }) }) | (1u64 << 27u64) } else { (if (wr >> 26u64) & 1u64 == 1u64 { (if (wr >> 25u64) & 1u64 == 1u64 { (if (wr >> 24u64) & 1u64 == 1u64 { 0u64 | (1u64 << 24u64) } else { 0u64 }) | (1u64 << 25u64) } else { (if (wr >> 24u64) & 1u64 == 1u64 { 0u64 | (1u64 << 24u64) } else { 0u64 }) }) | (1u64 << 26u64) } else { (if (wr >> 25u64) & 1u64 == 1u64 { (if (wr >> 24u64) & 1u64 == 1u64 { 0u64 | (1u64 << 24u64) } else { 0u64 }) | (1u64 << 25u64) } else { (if (wr >> 24u64) & 1u64 == 1u64 { 0u64 | (1u64 << 24u64) } else { 0u64 }) }) }) }) }) | (1u64 << 29u64) } else { (if (wr >> 28u64) & 1u64 == 1u64 { (if (wr >> 27u64) & 1u64 == 1u64 { (if (wr >> 26u64) & 1u64 == 1u64 { (if (wr >> 25u64) & 1u64 == 1u64 { (if (wr >> 24u64) & 1u64 == 1u64 { 0u64 | (1u64 << 24u64) } else { 0u64 }) | (1u64 << 25u64) } else { (if (wr >> 24u64) & 1u64 == 1u64 { 0u64 | (1u64 << 24u64) } else { 0u64 }) }) | (1u64 << 26u64) } else { (if (wr >> 25u64) & 1u64 == 1u64 { (if (wr >> 24u64) & 1u64 == 1u64 { 0u64 | (1u64 << 24u64) } else { 0u64 }) | (1u64 << 25u64) } else { (if (wr >> 24u64) & 1u64 == 1u64 { 0u64 | (1u64 << 24u64) } else { 0u64 }) }) }) | (1u64 << 27u64) } else { (if (wr >> 26u64) & 1u64 == 1u64 { (if (wr >> 25u64) & 1u64 == 1u64 { (if (wr >> 24u64) & 1u64 == 1u64 { 0u64 | (1u64 << 24u64) } else { 0u64 }) | (1u64 << 25u64) } else { (if (wr >> 24u64) & 1u64 == 1u64 { 0u64 | (1u64 << 24u64) } else { 0u64 }) }) | (1u64 << 26u64) } else { (if (wr >> 25u64) & 1u64 == 1u64 { (if (wr >> 24u64) & 1u64 == 1u64 { 0u64 | (1u64 << 24u64) } else { 0u64 }) | (1u64 << 25u64) } else { (if (wr >> 24u64) & 1u64 == 1u64 { 0u64 | (1u64 << 24u64) } else { 0u64 }) }) }) }) | (1u64 << 28u64) } else { (if (wr >> 27u64) & 1u64 == 1u64 { (if (wr >> 26u64) & 1u64 == 1u64 { (if (wr >> 25u64) & 1u64 == 1u64 { (if (wr >> 24u64) & 1u64 == 1u64 { 0u64 | (1u64 << 24u64) } else { 0u64 }) | (1u64 << 25u64) } else { (if (wr >> 24u64) & 1u64 == 1u64 { 0u64 | (1u64 << 24u64) } else { 0u64 }) }) | (1u64 << 26u64) } else { (if (wr >> 25u64) & 1u64 == 1u64 { (if (wr >> 24u64) & 1u64 == 1u64 { 0u64 | (1u64 << 24u64) } else { 0u64 }) | (1u64 << 25u64) } else { (if (wr >> 24u64) & 1u64 == 1u64 { 0u64 | (1u64 << 24u64) } else { 0u64 }) }) }) | (1u64 << 27u64) } else { (if (wr >> 26u64) & 1u64 == 1u64 { (if (wr >> 25u64) & 1u64 == 1u64 { (if (wr >> 24u64) & 1u64 == 1u64 { 0u64 | (1u64 << 24u64) } else { 0u64 }) | (1u64 << 25u64) } else { (if (wr >> 24u64) & 1u64 == 1u64 { 0u64 | (1u64 << 24u64) } else { 0u64 }) }) | (1u64 << 26u64) } else { (if (wr >> 25u64) & 1u64 == 1u64 { (if (wr >> 24u64) & 1u64 == 1u64 { 0u64 | (1u64 << 24u64) } else { 0u64 }) | (1u64 << 25u64) } else { (if (wr >> 24u64) & 1u64 == 1u64 { 0u64 | (1u64 << 24u64) } else { 0u64 }) }) }) }) }) }) | (1u64 << 30u64) } else { (if (wr >> 29u64) & 1u64 == 1u64 { (if (wr >> 28u64) & 1u64 == 1u64 { (if (wr >> 27u64) & 1u64 == 1u64 { (if (wr >> 26u64) & 1u64 == 1u64 { (if (wr >> 25u64) & 1u64 == 1u64 { (if (wr >> 24u64) & 1u64 == 1u64 { 0u64 | (1u64 << 24u64) } else { 0u64 }) | (1u64 << 25u64) } else { (if (wr >> 24u64) & 1u64 == 1u64 { 0u64 | (1u64 << 24u64) } else { 0u64 }) }) | (1u64 << 26u64) } else { (if (wr >> 25u64) & 1u64 == 1u64 { (if (wr >> 24u64) & 1u64 == 1u64 { 0u64 | (1u64 << 24u64) } else { 0u64 }) | (1u64 << 25u64) } else { (if (wr >> 24u64) & 1u64 == 1u64 { 0u64 | (1u64 << 24u64) } else { 0u64 }) }) }) | (1u64 << 27u64) } else { (if (wr >> 26u64) & 1u64 == 1u64 { (if (wr >> 25u64) & 1u64 == 1u64 { (if (wr >> 24u64) & 1u64 == 1u64 { 0u64 | (1u64 << 24u64) } else { 0u64 }) | (1u64 << 25u64) } else { (if (wr >> 24u64) & 1u64 == 1u64 { 0u64 | (1u64 << 24u64) } else { 0u64 }) }) | (1u64 << 26u64) } else { (if (wr >> 25u64) & 1u64 == 1u64 { (if (wr >> 24u64) & 1u64 == 1u64 { 0u64 | (1u64 << 24u64) } else { 0u64 }) | (1u64 << 25u64) } else { (if (wr >> 24u64) & 1u64 == 1u64 { 0u64 | (1u64 << 24u64) } else { 0u64 }) }) }) }) | (1u64 << 28u64) } else { (if (wr >> 27u64) & 1u64 == 1u64 { (if (wr >> 26u64) & 1u64 == 1u64 { (if (wr >> 25u64) & 1u64 == 1u64 { (if (wr >> 24u64) & 1u64 == 1u64 { 0u64 | (1u64 << 24u64) } else { 0u64 }) | (1u64 << 25u64) } else { (if (wr >> 24u64) & 1u64 == 1u64 { 0u64 | (1u64 << 24u64) } else { 0u64 }) }) | (1u64 << 26u64) } else { (if (wr >> 25u64) & 1u64 == 1u64 { (if (wr >> 24u64) & 1u64 == 1u64 { 0u64 | (1u64 << 24u64) } else { 0u64 }) | (1u64 << 25u64) } else { (if (wr >> 24u64) & 1u64 == 1u64 { 0u64 | (1u64 << 24u64) } else { 0u64 }) }) }) | (1u64 << 27u64) } else { (if (wr >> 26u64) & 1u64 == 1u64 { (if (wr >> 25u64) & 1u64 == 1u64 { (if (wr >> 24u64) & 1u64 == 1u64 { 0u64 | (1u64 << 24u64) } else { 0u64 }) | (1u64 << 25u64) } else { (if (wr >> 24u64) & 1u64 == 1u64 { 0u64 | (1u64 << 24u64) } else { 0u64 }) }) | (1u64 << 26u64) } else { (if (wr >> 25u64) & 1u64 == 1u64 { (if (wr >> 24u64) & 1u64 == 1u64 { 0u64 | (1u64 << 24u64) } else { 0u64 }) | (1u64 << 25u64) } else { (if (wr >> 24u64) & 1u64 == 1u64 { 0u64 | (1u64 << 24u64) } else { 0u64 }) }) }) }) }) | (1u64 << 29u64) } else { (if (wr >> 28u64) & 1u64 == 1u64 { (if (wr >> 27u64) & 1u64 == 1u64 { (if (wr >> 26u64) & 1u64 == 1u64 { (if (wr >> 25u64) & 1u64 == 1u64 { (if (wr >> 24u64) & 1u64 == 1u64 { 0u64 | (1u64 << 24u64) } else { 0u64 }) | (1u64 << 25u64) } else { (if (wr >> 24u64) & 1u64 == 1u64 { 0u64 | (1u64 << 24u64) } else { 0u64 }) }) | (1u64 << 26u64) } else { (if (wr >> 25u64) & 1u64 == 1u64 { (if (wr >> 24u64) & 1u64 == 1u64 { 0u64 | (1u64 << 24u64) } else { 0u64 }) | (1u64 << 25u64) } else { (if (wr >> 24u64) & 1u64 == 1u64 { 0u64 | (1u64 << 24u64) } else { 0u64 }) }) }) | (1u64 << 27u64) } else { (if (wr >> 26u64) & 1u64 == 1u64 { (if (wr >> 25u64) & 1u64 == 1u64 { (if (wr >> 24u64) & 1u64 == 1u64 { 0u64 | (1u64 << 24u64) } else { 0u64 }) | (1u64 << 25u64) } else { (if (wr >> 24u64) & 1u64 == 1u64 { 0u64 | (1u64 << 24u64) } else { 0u64 }) }) | (1u64 << 26u64) } else { (if (wr >> 25u64) & 1u64 == 1u64 { (if (wr >> 24u64) & 1u64 == 1u64 { 0u64 | (1u64 << 24u64) } else { 0u64 }) | (1u64 << 25u64) } else { (if (wr >> 24u64) & 1u64 == 1u64 { 0u64 | (1u64 << 24u64) } else { 0u64 }) }) }) }) | (1u64 << 28u64) } else { (if (wr >> 27u64) & 1u64 == 1u64 { (if (wr >> 26u64) & 1u64 == 1u64 { (if (wr >> 25u64) & 1u64 == 1u64 { (if (wr >> 24u64) & 1u64 == 1u64 { 0u64 | (1u64 << 24u64) } else { 0u64 }) | (1u64 << 25u64) } else { (if (wr >> 24u64) & 1u64 == 1u64 { 0u64 | (1u64 << 24u64) } else { 0u64 }) }) | (1u64 << 26u64) } else { (if (wr >> 25u64) & 1u64 == 1u64 { (if (wr >> 24u64) & 1u64 == 1u64 { 0u64 | (1u64 << 24u64) } else { 0u64 }) | (1u64 << 25u64) } else { (if (wr >> 24u64) & 1u64 == 1u64 { 0u64 | (1u64 << 24u64) } else { 0u64 }) }) }) | (1u64 << 27u64) } else { (if (wr >> 26u64) & 1u64 == 1u64 { (if (wr >> 25u64) & 1u64 == 1u64 { (if (wr >> 24u64) & 1u64 == 1u64 { 0u64 | (1u64 << 24u64) } else { 0u64 }) | (1u64 << 25u64) } else { (if (wr >> 24u64) & 1u64 == 1u64 { 0u64 | (1u64 << 24u64) } else { 0u64 }) }) | (1u64 << 26u64) } else { (if (wr >> 25u64) & 1u64 == 1u64 { (if (wr >> 24u64) & 1u64 == 1u64 { 0u64 | (1u64 << 24u64) } else { 0u64 }) | (1u64 << 25u64) } else { (if (wr >> 24u64) & 1u64 == 1u64 { 0u64 | (1u64 << 24u64) } else { 0u64 }) }) }) }) }) }) }) }) | (1u64 << 23u64) } else { (if (wr >> 31u64) & 1u64 == 1u64 { (if (wr >> 30u64) & 1u64 == 1u64 { (if (wr >> 29u64) & 1u64 == 1u64 { (if (wr >> 28u64) & 1u64 == 1u64 { (if (wr >> 27u64) & 1u64 == 1u64 { (if (wr >> 26u64) & 1u64 == 1u64 { (if (wr >> 25u64) & 1u64 == 1u64 { (if (wr >> 24u64) & 1u64 == 1u64 { 0u64 | (1u64 << 24u64) } else { 0u64 }) | (1u64 << 25u64) } else { (if (wr >> 24u64) & 1u64 == 1u64 { 0u64 | (1u64 << 24u64) } else { 0u64 }) }) | (1u64 << 26u64) } else { (if (wr >> 25u64) & 1u64 == 1u64 { (if (wr >> 24u64) & 1u64 == 1u64 { 0u64 | (1u64 << 24u64) } else { 0u64 }) | (1u64 << 25u64) } else { (if (wr >> 24u64) & 1u64 == 1u64 { 0u64 | (1u64 << 24u64) } else { 0u64 }) }) }) | (1u64 << 27u64) } else { (if (wr >> 26u64) & 1u64 == 1u64 { (if (wr >> 25u64) & 1u64 == 1u64 { (if (wr >> 24u64) & 1u64 == 1u64 { 0u64 | (1u64 << 24u64) } else { 0u64 }) | (1u64 << 25u64) } else { (if (wr >> 24u64) & 1u64 == 1u64 { 0u64 | (1u64 << 24u64) } else { 0u64 }) }) | (1u64 << 26u64) } else { (if (wr >> 25u64) & 1u64 == 1u64 { (if (wr >> 24u64) & 1u64 == 1u64 { 0u64 | (1u64 << 24u64) } else { 0u64 }) | (1u64 << 25u64) } else { (if (wr >> 24u64) & 1u64 == 1u64 { 0u64 | (1u64 << 24u64) } else { 0u64 }) }) }) }) | (1u64 << 28u64) } else { (if (wr >> 27u64) & 1u64 == 1u64 { (if (wr >> 26u64) & 1u64 == 1u64 { (if (wr >> 25u64) & 1u64 == 1u64 { (if (wr >> 24u64) & 1u64 == 1u64 { 0u64 | (1u64 << 24u64) } else { 0u64 }) | (1u64 << 25u64) } else { (if (wr >> 24u64) & 1u64 == 1u64 { 0u64 | (1u64 << 24u64) } else { 0u64 }) }) | (1u64 << 26u64) } else { (if (wr >> 25u64) & 1u64 == 1u64 { (if (wr >> 24u64) & 1u64 == 1u64 { 0u64 | (1u64 << 24u64) } else { 0u64 }) | (1u64 << 25u64) } else { (if (wr >> 24u64) & 1u64 == 1u64 { 0u64 | (1u64 << 24u64) } else { 0u64 }) }) }) | (1u64 << 27u64) } else { (if (wr >> 26u64) & 1u64 == 1u64 { (if (wr >> 25u64) & 1u64 == 1u64 { (if (wr >> 24u64) & 1u64 == 1u64 { 0u64 | (1u64 << 24u64) } else { 0u64 }) | (1u64 << 25u64) } else { (if (wr >> 24u64) & 1u64 == 1u64 { 0u64 | (1u64 << 24u64) } else { 0u64 }) }) | (1u64 << 26u64) } else { (if (wr >> 25u64) & 1u64 == 1u64 { (if (wr >> 24u64) & 1u64 == 1u64 { 0u64 | (1u64 << 24u64) } else { 0u64 }) | (1u64 << 25u64) } else { (if (wr >> 24u64) & 1u64 == 1u64 { 0u64 | (1u64 << 24u64) } else { 0u64 }) }) }) }) }) | (1u64 << 29u64) } else { (if (wr >> 28u64) & 1u64 == 1u64 { (if (wr >> 27u64) & 1u64 == 1u64 { (if (wr >> 26u64) & 1u64 == 1u64 { (if (wr >> 25u64) & 1u64 == 1u64 { (if (wr >> 24u64) & 1u64 == 1u64 { 0u64 | (1u64 << 24u64) } else { 0u64 }) | (1u64 << 25u64) } else { (if (wr >> 24u64) & 1u64 == 1u64 { 0u64 | (1u64 << 24u64) } else { 0u64 }) }) | (1u64 << 26u64) } else { (if (wr >> 25u64) & 1u64 == 1u64 { (if (wr >> 24u64) & 1u64 == 1u64 { 0u64 | (1u64 << 24u64) } else { 0u64 }) | (1u64 << 25u64) } else { (if (wr >> 24u64) & 1u64 == 1u64 { 0u64 | (1u64 << 24u64) } else { 0u64 }) }) }) | (1u64 << 27u64) } else { (if (wr >> 26u64) & 1u64 == 1u64 { (if (wr >> 25u64) & 1u64 == 1u64 { (if (wr >> 24u64) & 1u64 == 1u64 { 0u64 | (1u64 << 24u64) } else { 0u64 }) | (1u64 << 25u64) } else { (if (wr >> 24u64) & 1u64 == 1u64 { 0u64 | (1u64 << 24u64) } else { 0u64 }) }) | (1u64 << 26u64) } else { (if (wr >> 25u64) & 1u64 == 1u64 { (if (wr >> 24u64) & 1u64 == 1u64 { 0u64 | (1u64 << 24u64) } else { 0u64 }) | (1u64 << 25u64) } else { (if (wr >> 24u64) & 1u64 == 1u64 { 0u64 | (1u64 << 24u64) } else { 0u64 }) }) }) }) | (1u64 << 28u64) } else { (if (wr >> 27u64) & 1u64 == 1u64 { (if (wr >> 26u64) & 1u64 == 1u64 { (if (wr >> 25u64) & 1u64 == 1u64 { (if (wr >> 24u64) & 1u64 == 1u64 { 0u64 | (1u64 << 24u64) } else { 0u64 }) | (1u64 << 25u64) } else { (if (wr >> 24u64) & 1u64 == 1u64 { 0u64 | (1u64 << 24u64) } else { 0u64 }) }) | (1u64 << 26u64) } else { (if (wr >> 25u64) & 1u64 == 1u64 { (if (wr >> 24u64) & 1u64 == 1u64 { 0u64 | (1u64 << 24u64) } else { 0u64 }) | (1u64 << 25u64) } else { (if (wr >> 24u64) & 1u64 == 1u64 { 0u64 | (1u64 << 24u64) } else { 0u64 }) }) }) | (1u64 << 27u64) } else { (if (wr >> 26u64) & 1u64 == 1u64 { (if (wr >> 25u64) & 1u64 == 1u64 { (if (wr >> 24u64) & 1u64 == 1u64 { 0u64 | (1u64 << 24u64) } else { 0u64 }) | (1u64 << 25u64) } else { (if (wr >> 24u64) & 1u64 == 1u64 { 0u64 | (1u64 << 24u64) } else { 0u64 }) }) | (1u64 << 26u64) } else { (if (wr >> 25u64) & 1u64 == 1u64 { (if (wr >> 24u64) & 1u64 == 1u64 { 0u64 | (1u64 << 24u64) } else { 0u64 }) | (1u64 << 25u64) } else { (if (wr >> 24u64) & 1u64 == 1u64 { 0u64 | (1u64 << 24u64) } else { 0u64 }) }) }) }) }) }) | (1u64 << 30u64) } else { (if (wr >> 29u64) & 1u64 == 1u64 { (if (wr >> 28u64) & 1u64 == 1u64 { (if (wr >> 27u64) & 1u64 == 1u64 { (if (wr >> 26u64) & 1u64 == 1u64 { (if (wr >> 25u64) & 1u64 == 1u64 { (if (wr >> 24u64) & 1u64 == 1u64 { 0u64 | (1u64 << 24u64) } else { 0u64 }) | (1u64 << 25u64) } else { (if (wr >> 24u64) & 1u64 == 1u64 { 0u64 | (1u64 << 24u64) } else { 0u64 }) }) | (1u64 << 26u64) } else { (if (wr >> 25u64) & 1u64 == 1u64 { (if (wr >> 24u64) & 1u64 == 1u64 { 0u64 | (1u64 << 24u64) } else { 0u64 }) | (1u64 << 25u64) } else { (if (wr >> 24u64) & 1u64 == 1u64 { 0u64 | (1u64 << 24u64) } else { 0u64 }) }) }) | (1u64 << 27u64) } else { (if (wr >> 26u64) & 1u64 == 1u64 { (if (wr >> 25u64) & 1u64 == 1u64 { (if (wr >> 24u64) & 1u64 == 1u64 { 0u64 | (1u64 << 24u64) } else { 0u64 }) | (1u64 << 25u64) } else { (if (wr >> 24u64) & 1u64 == 1u64 { 0u64 | (1u64 << 24u64) } else { 0u64 }) }) | (1u64 << 26u64) } else { (if (wr >> 25u64) & 1u64 == 1u64 { (if (wr >> 24u64) & 1u64 == 1u64 { 0u64 | (1u64 << 24u64) } else { 0u64 }) | (1u64 << 25u64) } else { (if (wr >> 24u64) & 1u64 == 1u64 { 0u64 | (1u64 << 24u64) } else { 0u64 }) }) }) }) | (1u64 << 28u64) } else { (if (wr >> 27u64) & 1u64 == 1u64 { (if (wr >> 26u64) & 1u64 == 1u64 { (if (wr >> 25u64) & 1u64 == 1u64 { (if (wr >> 24u64) & 1u64 == 1u64 { 0u64 | (1u64 << 24u64) } else { 0u64 }) | (1u64 << 25u64) } else { (if (wr >> 24u64) & 1u64 == 1u64 { 0u64 | (1u64 << 24u64) } else { 0u64 }) }) | (1u64 << 26u64) } else { (if (wr >> 25u64) & 1u64 == 1u64 { (if (wr >> 24u64) & 1u64 == 1u64 { 0u64 | (1u64 << 24u64) } else { 0u64 }) | (1u64 << 25u64) } else { (if (wr >> 24u64) & 1u64 == 1u64 { 0u64 | (1u64 << 24u64) } else { 0u64 }) }) }) | (1u64 << 27u64) } else { (if (wr >> 26u64) & 1u64 == 1u64 { (if (wr >> 25u64) & 1u64 == 1u64 { (if (wr >> 24u64) & 1u64 == 1u64 { 0u64 | (1u64 << 24u64) } else { 0u64 }) | (1u64 << 25u64) } else { (if (wr >> 24u64) & 1u64 == 1u64 { 0u64 | (1u64 << 24u64) } else { 0u64 }) }) | (1u64 << 26u64) } else { (if (wr >> 25u64) & 1u64 == 1u64 { (if (wr >> 24u64) & 1u64 == 1u64 { 0u64 | (1u64 << 24u64) } else { 0u64 }) | (1u64 << 25u64) } else { (if (wr >> 24u64) & 1u64 == 1u64 { 0u64 | (1u64 << 24u64) } else { 0u64 }) }) }) }) }) | (1u64 << 29u64) } else { (if (wr >> 28u64) & 1u64 == 1u64 { (if (wr >> 27u64) & 1u64 == 1u64 { (if (wr >> 26u64) & 1u64 == 1u64 { (if (wr >> 25u64) & 1u64 == 1u64 { (if (wr >> 24u64) & 1u64 == 1u64 { 0u64 | (1u64 << 24u64) } else { 0u64 }) | (1u64 << 25u64) } else { (if (wr >> 24u64) & 1u64 == 1u64 { 0u64 | (1u64 << 24u64) } else { 0u64 }) }) | (1u64 << 26u64) } else { (if (wr >> 25u64) & 1u64 == 1u64 { (if (wr >> 24u64) & 1u64 == 1u64 { 0u64 | (1u64 << 24u64) } else { 0u64 }) | (1u64 << 25u64) } else { (if (wr >> 24u64) & 1u64 == 1u64 { 0u64 | (1u64 << 24u64) } else { 0u64 }) }) }) | (1u64 << 27u64) } else { (if (wr >> 26u64) & 1u64 == 1u64 { (if (wr >> 25u64) & 1u64 == 1u64 { (if (wr >> 24u64) & 1u64 == 1u64 { 0u64 | (1u64 << 24u64) } else { 0u64 }) | (1u64 << 25u64) } else { (if (wr >> 24u64) & 1u64 == 1u64 { 0u64 | (1u64 << 24u64) } else { 0u64 }) }) | (1u64 << 26u64) } else { (if (wr >> 25u64) & 1u64 == 1u64 { (if (wr >> 24u64) & 1u64 == 1u64 { 0u64 | (1u64 << 24u64) } else { 0u64 }) | (1u64 << 25u64) } else { (if (wr >> 24u64) & 1u64 == 1u64 { 0u64 | (1u64 << 24u64) } else { 0u64 }) }) }) }) | (1u64 << 28u64) } else { (if (wr >> 27u64) & 1u64 == 1u64 { (if (wr >> 26u64) & 1u64 == 1u64 { (if (wr >> 25u64) & 1u64 == 1u64 { (if (wr >> 24u64) & 1u64 == 1u64 { 0u64 | (1u64 << 24u64) } else { 0u64 }) | (1u64 << 25u64) } else { (if (wr >> 24u64) & 1u64 == 1u64 { 0u64 | (1u64 << 24u64) } else { 0u64 }) }) | (1u64 << 26u64) } else { (if (wr >> 25u64) & 1u64 == 1u64 { (if (wr >> 24u64) & 1u64 == 1u64 { 0u64 | (1u64 << 24u64) } else { 0u64 }) | (1u64 << 25u64) } else { (if (wr >> 24u64) & 1u64 == 1u64 { 0u64 | (1u64 << 24u64) } else { 0u64 }) }) }) | (1u64 << 27u64) } else { (if (wr >> 26u64) & 1u64 == 1u64 { (if (wr >> 25u64) & 1u64 == 1u64 { (if (wr >> 24u64) & 1u64 == 1u64 { 0u64 | (1u64 << 24u64) } else { 0u64 }) | (1u64 << 25u64) } else { (if (wr >> 24u64) & 1u64 == 1u64 { 0u64 | (1u64 << 24u64) } else { 0u64 }) }) | (1u64 << 26u64) } else { (if (wr >> 25u64) & 1u64 == 1u64 { (if (wr >> 24u64) & 1u64 == 1u64 { 0u64 | (1u64 << 24u64) } else { 0u64 }) | (1u64 << 25u64) } else { (if (wr >> 24u64) & 1u64 == 1u64 { 0u64 | (1u64 << 24u64) } else { 0u64 }) }) }) }) }) }) }) | (1u64 << 31u64) } else { (if (wr >> 30u64) & 1u64 == 1u64 { (if (wr >> 29u64) & 1u64 == 1u64 { (if (wr >> 28u64) & 1u64 == 1u64 { (if (wr >> 27u64) & 1u64 == 1u64 { (if (wr >> 26u64) & 1u64 == 1u64 { (if (wr >> 25u64) & 1u64 == 1u64 { (if (wr >> 24u64) & 1u64 == 1u64 { 0u64 | (1u64 << 24u64) } else { 0u64 }) | (1u64 << 25u64) } else { (if (wr >> 24u64) & 1u64 == 1u64 { 0u64 | (1u64 << 24u64) } else { 0u64 }) }) | (1u64 << 26u64) } else { (if (wr >> 25u64) & 1u64 == 1u64 { (if (wr >> 24u64) & 1u64 == 1u64 { 0u64 | (1u64 << 24u64) } else { 0u64 }) | (1u64 << 25u64) } else { (if (wr >> 24u64) & 1u64 == 1u64 { 0u64 | (1u64 << 24u64) } else { 0u64 }) }) }) | (1u64 << 27u64) } else { (if (wr >> 26u64) & 1u64 == 1u64 { (if (wr >> 25u64) & 1u64 == 1u64 { (if (wr >> 24u64) & 1u64 == 1u64 { 0u64 | (1u64 << 24u64) } else { 0u64 }) | (1u64 << 25u64) } else { (if (wr >> 24u64) & 1u64 == 1u64 { 0u64 | (1u64 << 24u64) } else { 0u64 }) }) | (1u64 << 26u64) } else { (if (wr >> 25u64) & 1u64 == 1u64 { (if (wr >> 24u64) & 1u64 == 1u64 { 0u64 | (1u64 << 24u64) } else { 0u64 }) | (1u64 << 25u64) } else { (if (wr >> 24u64) & 1u64 == 1u64 { 0u64 | (1u64 << 24u64) } else { 0u64 }) }) }) }) | (1u64 << 28u64) } else { (if (wr >> 27u64) & 1u64 == 1u64 { (if (wr >> 26u64) & 1u64 == 1u64 { (if (wr >> 25u64) & 1u64 == 1u64 { (if (wr >> 24u64) & 1u64 == 1u64 { 0u64 | (1u64 << 24u64) } else { 0u64 }) | (1u64 << 25u64) } else { (if (wr >> 24u64) & 1u64 == 1u64 { 0u64 | (1u64 << 24u64) } else { 0u64 }) }) | (1u64 << 26u64) } else { (if (wr >> 25u64) & 1u64 == 1u64 { (if (wr >> 24u64) & 1u64 == 1u64 { 0u64 | (1u64 << 24u64) } else { 0u64 }) | (1u64 << 25u64) } else { (if (wr >> 24u64) & 1u64 == 1u64 { 0u64 | (1u64 << 24u64) } else { 0u64 }) }) }) | (1u64 << 27u64) } else { (if (wr >> 26u64) & 1u64 == 1u64 { (if (wr >> 25u64) & 1u64 == 1u64 { (if (wr >> 24u64) & 1u64 == 1u64 { 0u64 | (1u64 << 24u64) } else { 0u64 }) | (1u64 << 25u64) } else { (if (wr >> 24u64) & 1u64 == 1u64 { 0u64 | (1u64 << 24u64) } else { 0u64 }) }) | (1u64 << 26u64) } else { (if (wr >> 25u64) & 1u64 == 1u64 { (if (wr >> 24u64) & 1u64 == 1u64 { 0u64 | (1u64 << 24u64) } else { 0u64 }) | (1u64 << 25u64) } else { (if (wr >> 24u64) & 1u64 == 1u64 { 0u64 | (1u64 << 24u64) } else { 0u64 }) }) }) }) }) | (1u64 << 29u64) } else { (if (wr >> 28u64) & 1u64 == 1u64 { (if (wr >> 27u64) & 1u64 == 1u64 { (if (wr >> 26u64) & 1u64 == 1u64 { (if (wr >> 25u64) & 1u64 == 1u64 { (if (wr >> 24u64) & 1u64 == 1u64 { 0u64 | (1u64 << 24u64) } else { 0u64 }) | (1u64 << 25u64) } else { (if (wr >> 24u64) & 1u64 == 1u64 { 0u64 | (1u64 << 24u64) } else { 0u64 }) }) | (1u64 << 26u64) } else { (if (wr >> 25u64) & 1u64 == 1u64 { (if (wr >> 24u64) & 1u64 == 1u64 { 0u64 | (1u64 << 24u64) } else { 0u64 }) | (1u64 << 25u64) } else { (if (wr >> 24u64) & 1u64 == 1u64 { 0u64 | (1u64 << 24u64) } else { 0u64 }) }) }) | (1u64 << 27u64) } else { (if (wr >> 26u64) & 1u64 == 1u64 { (if (wr >> 25u64) & 1u64 == 1u64 { (if (wr >> 24u64) & 1u64 == 1u64 { 0u64 | (1u64 << 24u64) } else { 0u64 }) | (1u64 << 25u64) } else { (if (wr >> 24u64) & 1u64 == 1u64 { 0u64 | (1u64 << 24u64) } else { 0u64 }) }) | (1u64 << 26u64) } else { (if (wr >> 25u64) & 1u64 == 1u64 { (if (wr >> 24u64) & 1u64 == 1u64 { 0u64 | (1u64 << 24u64) } else { 0u64 }) | (1u64 << 25u64) } else { (if (wr >> 24u64) & 1u64 == 1u64 { 0u64 | (1u64 << 24u64) } else { 0u64 }) }) }) }) | (1u64 << 28u64) } else { (if (wr >> 27u64) & 1u64 == 1u64 { (if (wr >> 26u64) & 1u64 == 1u64 { (if (wr >> 25u64) & 1u64 == 1u64 { (if (wr >> 24u64) & 1u64 == 1u64 { 0u64 | (1u64 << 24u64) } else { 0u64 }) | (1u64 << 25u64) } else { (if (wr >> 24u64) & 1u64 == 1u64 { 0u64 | (1u64 << 24u64) } else { 0u64 }) }) | (1u64 << 26u64) } else { (if (wr >> 25u64) & 1u64 == 1u64 { (if (wr >> 24u64) & 1u64 == 1u64 { 0u64 | (1u64 << 24u64) } else { 0u64 }) | (1u64 << 25u64) } else { (if (wr >> 24u64) & 1u64 == 1u64 { 0u64 | (1u64 << 24u64) } else { 0u64 }) }) }) | (1u64 << 27u64) } else { (if (wr >> 26u64) & 1u64 == 1u64 { (if (wr >> 25u64) & 1u64 == 1u64 { (if (wr >> 24u64) & 1u64 == 1u64 { 0u64 | (1u64 << 24u64) } else { 0u64 }) | (1u64 << 25u64) } else { (if (wr >> 24u64) & 1u64 == 1u64 { 0u64 | (1u64 << 24u64) } else { 0u64 }) }) | (1u64 << 26u64) } else { (if (wr >> 25u64) & 1u64 == 1u64 { (if (wr >> 24u64) & 1u64 == 1u64 { 0u64 | (1u64 << 24u64) } else { 0u64 }) | (1u64 << 25u64) } else { (if (wr >> 24u64) & 1u64 == 1u64 { 0u64 | (1u64 << 24u64) } else { 0u64 }) }) }) }) }) }) | (1u64 << 30u64) } else { (if (wr >> 29u64) & 1u64 == 1u64 { (if (wr >> 28u64) & 1u64 == 1u64 { (if (wr >> 27u64) & 1u64 == 1u64 { (if (wr >> 26u64) & 1u64 == 1u64 { (if (wr >> 25u64) & 1u64 == 1u64 { (if (wr >> 24u64) & 1u64 == 1u64 { 0u64 | (1u64 << 24u64) } else { 0u64 }) | (1u64 << 25u64) } else { (if (wr >> 24u64) & 1u64 == 1u64 { 0u64 | (1u64 << 24u64) } else { 0u64 }) }) | (1u64 << 26u64) } else { (if (wr >> 25u64) & 1u64 == 1u64 { (if (wr >> 24u64) & 1u64 == 1u64 { 0u64 | (1u64 << 24u64) } else { 0u64 }) | (1u64 << 25u64) } else { (if (wr >> 24u64) & 1u64 == 1u64 { 0u64 | (1u64 << 24u64) } else { 0u64 }) }) }) | (1u64 << 27u64) } else { (if (wr >> 26u64) & 1u64 == 1u64 { (if (wr >> 25u64) & 1u64 == 1u64 { (if (wr >> 24u64) & 1u64 == 1u64 { 0u64 | (1u64 << 24u64) } else { 0u64 }) | (1u64 << 25u64) } else { (if (wr >> 24u64) & 1u64 == 1u64 { 0u64 | (1u64 << 24u64) } else { 0u64 }) }) | (1u64 << 26u64) } else { (if (wr >> 25u64) & 1u64 == 1u64 { (if (wr >> 24u64) & 1u64 == 1u64 { 0u64 | (1u64 << 24u64) } else { 0u64 }) | (1u64 << 25u64) } else { (if (wr >> 24u64) & 1u64 == 1u64 { 0u64 | (1u64 << 24u64) } else { 0u64 }) }) }) }) | (1u64 << 28u64) } else { (if (wr >> 27u64) & 1u64 == 1u64 { (if (wr >> 26u64) & 1u64 == 1u64 { (if (wr >> 25u64) & 1u64 == 1u64 { (if (wr >> 24u64) & 1u64 == 1u64 { 0u64 | (1u64 << 24u64) } else { 0u64 }) | (1u64 << 25u64) } else { (if (wr >> 24u64) & 1u64 == 1u64 { 0u64 | (1u64 << 24u64) } else { 0u64 }) }) | (1u64 << 26u64) } else { (if (wr >> 25u64) & 1u64 == 1u64 { (if (wr >> 24u64) & 1u64 == 1u64 { 0u64 | (1u64 << 24u64) } else { 0u64 }) | (1u64 << 25u64) } else { (if (wr >> 24u64) & 1u64 == 1u64 { 0u64 | (1u64 << 24u64) } else { 0u64 }) }) }) | (1u64 << 27u64) } else { (if (wr >> 26u64) & 1u64 == 1u64 { (if (wr >> 25u64) & 1u64 == 1u64 { (if (wr >> 24u64) & 1u64 == 1u64 { 0u64 | (1u64 << 24u64) } else { 0u64 }) | (1u64 << 25u64) } else { (if (wr >> 24u64) & 1u64 == 1u64 { 0u64 | (1u64 << 24u64) } else { 0u64 }) }) | (1u64 << 26u64) } else { (if (wr >> 25u64) & 1u64 == 1u64 { (if (wr >> 24u64) & 1u64 == 1u64 { 0u64 | (1u64 << 24u64) } else { 0u64 }) | (1u64 << 25u64) } else { (if (wr >> 24u64) & 1u64 == 1u64 { 0u64 | (1u64 << 24u64) } else { 0u64 }) }) }) }) }) | (1u64 << 29u64) } else { (if (wr >> 28u64) & 1u64 == 1u64 { (if (wr >> 27u64) & 1u64 == 1u64 { (if (wr >> 26u64) & 1u64 == 1u64 { (if (wr >> 25u64) & 1u64 == 1u64 { (if (wr >> 24u64) & 1u64 == 1u64 { 0u64 | (1u64 << 24u64) } else { 0u64 }) | (1u64 << 25u64) } else { (if (wr >> 24u64) & 1u64 == 1u64 { 0u64 | (1u64 << 24u64) } else { 0u64 }) }) | (1u64 << 26u64) } else { (if (wr >> 25u64) & 1u64 == 1u64 { (if (wr >> 24u64) & 1u64 == 1u64 { 0u64 | (1u64 << 24u64) } else { 0u64 }) | (1u64 << 25u64) } else { (if (wr >> 24u64) & 1u64 == 1u64 { 0u64 | (1u64 << 24u64) } else { 0u64 }) }) }) | (1u64 << 27u64) } else { (if (wr >> 26u64) & 1u64 == 1u64 { (if (wr >> 25u64) & 1u64 == 1u64 { (if (wr >> 24u64) & 1u64 == 1u64 { 0u64 | (1u64 << 24u64) } else { 0u64 }) | (1u64 << 25u64) } else { (if (wr >> 24u64) & 1u64 == 1u64 { 0u64 | (1u64 << 24u64) } else { 0u64 }) }) | (1u64 << 26u64) } else { (if (wr >> 25u64) & 1u64 == 1u64 { (if (wr >> 24u64) & 1u64 == 1u64 { 0u64 | (1u64 << 24u64) } else { 0u64 }) | (1u64 << 25u64) } else { (if (wr >> 24u64) & 1u64 == 1u64 { 0u64 | (1u64 << 24u64) } else { 0u64 }) }) }) }) | (1u64 << 28u64) } else { (if (wr >> 27u64) & 1u64 == 1u64 { (if (wr >> 26u64) & 1u64 == 1u64 { (if (wr >> 25u64) & 1u64 == 1u64 { (if (wr >> 24u64) & 1u64 == 1u64 { 0u64 | (1u64 << 24u64) } else { 0u64 }) | (1u64 << 25u64) } else { (if (wr >> 24u64) & 1u64 == 1u64 { 0u64 | (1u64 << 24u64) } else { 0u64 }) }) | (1u64 << 26u64) } else { (if (wr >> 25u64) & 1u64 == 1u64 { (if (wr >> 24u64) & 1u64 == 1u64 { 0u64 | (1u64 << 24u64) } else { 0u64 }) | (1u64 << 25u64) } else { (if (wr >> 24u64) & 1u64 == 1u64 { 0u64 | (1u64 << 24u64) } else { 0u64 }) }) }) | (1u64 << 27u64) } else { (if (wr >> 26u64) & 1u64 == 1u64 { (if (wr >> 25u64) & 1u64 == 1u64 { (if (wr >> 24u64) & 1u64 == 1u64 { 0u64 | (1u64 << 24u64) } else { 0u64 }) | (1u64 << 25u64) } else { (if (wr >> 24u64) & 1u64 == 1u64 { 0u64 | (1u64 << 24u64) } else { 0u64 }) }) | (1u64 << 26u64) } else { (if (wr >> 25u64) & 1u64 == 1u64 { (if (wr >> 24u64) & 1u64 == 1u64 { 0u64 | (1u64 << 24u64) } else { 0u64 }) | (1u64 << 25u64) } else { (if (wr >> 24u64) & 1u64 == 1u64 { 0u64 | (1u64 << 24u64) } else { 0u64 }) }) }) }) }) }) }) }) }) | (1u64 << 23u64) } else { (if (wr >> 23u64) & 1u64 == 1u64 { (if (wr >> 31u64) & 1u64 == 1u64 { (if (wr >> 30u64) & 1u64 == 1u64 { (if (wr >> 29u64) & 1u64 == 1u64 { (if (wr >> 28u64) & 1u64 == 1u64 { (if (wr >> 27u64) & 1u64 == 1u64 { (if (wr >> 26u64) & 1u64 == 1u64 { (if (wr >> 25u64) & 1u64 == 1u64 { (if (wr >> 24u64) & 1u64 == 1u64 { 0u64 | (1u64 << 24u64) } else { 0u64 }) | (1u64 << 25u64) } else { (if (wr >> 24u64) & 1u64 == 1u64 { 0u64 | (1u64 << 24u64) } else { 0u64 }) }) | (1u64 << 26u64) } else { (if (wr >> 25u64) & 1u64 == 1u64 { (if (wr >> 24u64) & 1u64 == 1u64 { 0u64 | (1u64 << 24u64) } else { 0u64 }) | (1u64 << 25u64) } else { (if (wr >> 24u64) & 1u64 == 1u64 { 0u64 | (1u64 << 24u64) } else { 0u64 }) }) }) | (1u64 << 27u64) } else { (if (wr >> 26u64) & 1u64 == 1u64 { (if (wr >> 25u64) & 1u64 == 1u64 { (if (wr >> 24u64) & 1u64 == 1u64 { 0u64 | (1u64 << 24u64) } else { 0u64 }) | (1u64 << 25u64) } else { (if (wr >> 24u64) & 1u64 == 1u64 { 0u64 | (1u64 << 24u64) } else { 0u64 }) }) | (1u64 << 26u64) } else { (if (wr >> 25u64) & 1u64 == 1u64 { (if (wr >> 24u64) & 1u64 == 1u64 { 0u64 | (1u64 << 24u64) } else { 0u64 }) | (1u64 << 25u64) } else { (if (wr >> 24u64) & 1u64 == 1u64 { 0u64 | (1u64 << 24u64) } else { 0u64 }) }) }) }) | (1u64 << 28u64) } else { (if (wr >> 27u64) & 1u64 == 1u64 { (if (wr >> 26u64) & 1u64 == 1u64 { (if (wr >> 25u64) & 1u64 == 1u64 { (if (wr >> 24u64) & 1u64 == 1u64 { 0u64 | (1u64 << 24u64) } else { 0u64 }) | (1u64 << 25u64) } else { (if (wr >> 24u64) & 1u64 == 1u64 { 0u64 | (1u64 << 24u64) } else { 0u64 }) }) | (1u64 << 26u64) } else { (if (wr >> 25u64) & 1u64 == 1u64 { (if (wr >> 24u64) & 1u64 == 1u64 { 0u64 | (1u64 << 24u64) } else { 0u64 }) | (1u64 << 25u64) } else { (if (wr >> 24u64) & 1u64 == 1u64 { 0u64 | (1u64 << 24u64) } else { 0u64 }) }) }) | (1u64 << 27u64) } else { (if (wr >> 26u64) & 1u64 == 1u64 { (if (wr >> 25u64) & 1u64 == 1u64 { (if (wr >> 24u64) & 1u64 == 1u64 { 0u64 | (1u64 << 24u64) } else { 0u64 }) | (1u64 << 25u64) } else { (if (wr >> 24u64) & 1u64 == 1u64 { 0u64 | (1u64 << 24u64) } else { 0u64 }) }) | (1u64 << 26u64) } else { (if (wr >> 25u64) & 1u64 == 1u64 { (if (wr >> 24u64) & 1u64 == 1u64 { 0u64 | (1u64 << 24u64) } else { 0u64 }) | (1u64 << 25u64) } else { (if (wr >> 24u64) & 1u64 == 1u64 { 0u64 | (1u64 << 24u64) } else { 0u64 }) }) }) }) }) | (1u64 << 29u64) } else { (if (wr >> 28u64) & 1u64 == 1u64 { (if (wr >> 27u64) & 1u64 == 1u64 { (if (wr >> 26u64) & 1u64 == 1u64 { (if (wr >> 25u64) & 1u64 == 1u64 { (if (wr >> 24u64) & 1u64 == 1u64 { 0u64 | (1u64 << 24u64) } else { 0u64 }) | (1u64 << 25u64) } else { (if (wr >> 24u64) & 1u64 == 1u64 { 0u64 | (1u64 << 24u64) } else { 0u64 }) }) | (1u64 << 26u64) } else { (if (wr >> 25u64) & 1u64 == 1u64 { (if (wr >> 24u64) & 1u64 == 1u64 { 0u64 | (1u64 << 24u64) } else { 0u64 }) | (1u64 << 25u64) } else { (if (wr >> 24u64) & 1u64 == 1u64 { 0u64 | (1u64 << 24u64) } else { 0u64 }) }) }) | (1u64 << 27u64) } else { (if (wr >> 26u64) & 1u64 == 1u64 { (if (wr >> 25u64) & 1u64 == 1u64 { (if (wr >> 24u64) & 1u64 == 1u64 { 0u64 | (1u64 << 24u64) } else { 0u64 }) | (1u64 << 25u64) } else { (if (wr >> 24u64) & 1u64 == 1u64 { 0u64 | (1u64 << 24u64) } else { 0u64 }) }) | (1u64 << 26u64) } else { (if (wr >> 25u64) & 1u64 == 1u64 { (if (wr >> 24u64) & 1u64 == 1u64 { 0u64 | (1u64 << 24u64) } else { 0u64 }) | (1u64 << 25u64) } else { (if (wr >> 24u64) & 1u64 == 1u64 { 0u64 | (1u64 << 24u64) } else { 0u64 }) }) }) }) | (1u64 << 28u64) } else { (if (wr >> 27u64) & 1u64 == 1u64 { (if (wr >> 26u64) & 1u64 == 1u64 { (if (wr >> 25u64) & 1u64 == 1u64 { (if (wr >> 24u64) & 1u64 == 1u64 { 0u64 | (1u64 << 24u64) } else { 0u64 }) | (1u64 << 25u64) } else { (if (wr >> 24u64) & 1u64 == 1u64 { 0u64 | (1u64 << 24u64) } else { 0u64 }) }) | (1u64 << 26u64) } else { (if (wr >> 25u64) & 1u64 == 1u64 { (if (wr >> 24u64) & 1u64 == 1u64 { 0u64 | (1u64 << 24u64) } else { 0u64 }) | (1u64 << 25u64) } else { (if (wr >> 24u64) & 1u64 == 1u64 { 0u64 | (1u64 << 24u64) } else { 0u64 }) }) }) | (1u64 << 27u64) } else { (if (wr >> 26u64) & 1u64 == 1u64 { (if (wr >> 25u64) & 1u64 == 1u64 { (if (wr >> 24u64) & 1u64 == 1u64 { 0u64 | (1u64 << 24u64) } else { 0u64 }) | (1u64 << 25u64) } else { (if (wr >> 24u64) & 1u64 == 1u64 { 0u64 | (1u64 << 24u64) } else { 0u64 }) }) | (1u64 << 26u64) } else { (if (wr >> 25u64) & 1u64 == 1u64 { (if (wr >> 24u64) & 1u64 == 1u64 { 0u64 | (1u64 << 24u64) } else { 0u64 }) | (1u64 << 25u64) } else { (if (wr >> 24u64) & 1u64 == 1u64 { 0u64 | (1u64 << 24u64) } else { 0u64 }) }) }) }) }) }) | (1u64 << 30u64) } else { (if (wr >> 29u64) & 1u64 == 1u64 { (if (wr >> 28u64) & 1u64 == 1u64 { (if (wr >> 27u64) & 1u64 == 1u64 { (if (wr >> 26u64) & 1u64 == 1u64 { (if (wr >> 25u64) & 1u64 == 1u64 { (if (wr >> 24u64) & 1u64 == 1u64 { 0u64 | (1u64 << 24u64) } else { 0u64 }) | (1u64 << 25u64) } else { (if (wr >> 24u64) & 1u64 == 1u64 { 0u64 | (1u64 << 24u64) } else { 0u64 }) }) | (1u64 << 26u64) } else { (if (wr >> 25u64) & 1u64 == 1u64 { (if (wr >> 24u64) & 1u64 == 1u64 { 0u64 | (1u64 << 24u64) } else { 0u64 }) | (1u64 << 25u64) } else { (if (wr >> 24u64) & 1u64 == 1u64 { 0u64 | (1u64 << 24u64) } else { 0u64 }) }) }) | (1u64 << 27u64) } else { (if (wr >> 26u64) & 1u64 == 1u64 { (if (wr >> 25u64) & 1u64 == 1u64 { (if (wr >> 24u64) & 1u64 == 1u64 { 0u64 | (1u64 << 24u64) } else { 0u64 }) | (1u64 << 25u64) } else { (if (wr >> 24u64) & 1u64 == 1u64 { 0u64 | (1u64 << 24u64) } else { 0u64 }) }) | (1u64 << 26u64) } else { (if (wr >> 25u64) & 1u64 == 1u64 { (if (wr >> 24u64) & 1u64 == 1u64 { 0u64 | (1u64 << 24u64) } else { 0u64 }) | (1u64 << 25u64) } else { (if (wr >> 24u64) & 1u64 == 1u64 { 0u64 | (1u64 << 24u64) } else { 0u64 }) }) }) }) | (1u64 << 28u64) } else { (if (wr >> 27u64) & 1u64 == 1u64 { (if (wr >> 26u64) & 1u64 == 1u64 { (if (wr >> 25u64) & 1u64 == 1u64 { (if (wr >> 24u64) & 1u64 == 1u64 { 0u64 | (1u64 << 24u64) } else { 0u64 }) | (1u64 << 25u64) } else { (if (wr >> 24u64) & 1u64 == 1u64 { 0u64 | (1u64 << 24u64) } else { 0u64 }) }) | (1u64 << 26u64) } else { (if (wr >> 25u64) & 1u64 == 1u64 { (if (wr >> 24u64) & 1u64 == 1u64 { 0u64 | (1u64 << 24u64) } else { 0u64 }) | (1u64 << 25u64) } else { (if (wr >> 24u64) & 1u64 == 1u64 { 0u64 | (1u64 << 24u64) } else { 0u64 }) }) }) | (1u64 << 27u64) } else { (if (wr >> 26u64) & 1u64 == 1u64 { (if (wr >> 25u64) & 1u64 == 1u64 { (if (wr >> 24u64) & 1u64 == 1u64 { 0u64 | (1u64 << 24u64) } else { 0u64 }) | (1u64 << 25u64) } else { (if (wr >> 24u64) & 1u64 == 1u64 { 0u64 | (1u64 << 24u64) } else { 0u64 }) }) | (1u64 << 26u64) } else { (if (wr >> 25u64) & 1u64 == 1u64 { (if (wr >> 24u64) & 1u64 == 1u64 { 0u64 | (1u64 << 24u64) } else { 0u64 }) | (1u64 << 25u64) } else { (if (wr >> 24u64) & 1u64 == 1u64 { 0u64 | (1u64 << 24u64) } else { 0u64 }) }) }) }) }) | (1u64 << 29u64) } else { (if (wr >> 28u64) & 1u64 == 1u64 { (if (wr >> 27u64) & 1u64 == 1u64 { (if (wr >> 26u64) & 1u64 == 1u64 { (if (wr >> 25u64) & 1u64 == 1u64 { (if (wr >> 24u64) & 1u64 == 1u64 { 0u64 | (1u64 << 24u64) } else { 0u64 }) | (1u64 << 25u64) } else { (if (wr >> 24u64) & 1u64 == 1u64 { 0u64 | (1u64 << 24u64) } else { 0u64 }) }) | (1u64 << 26u64) } else { (if (wr >> 25u64) & 1u64 == 1u64 { (if (wr >> 24u64) & 1u64 == 1u64 { 0u64 | (1u64 << 24u64) } else { 0u64 }) | (1u64 << 25u64) } else { (if (wr >> 24u64) & 1u64 == 1u64 { 0u64 | (1u64 << 24u64) } else { 0u64 }) }) }) | (1u64 << 27u64) } else { (if (wr >> 26u64) & 1u64 == 1u64 { (if (wr >> 25u64) & 1u64 == 1u64 { (if (wr >> 24u64) & 1u64 == 1u64 { 0u64 | (1u64 << 24u64) } else { 0u64 }) | (1u64 << 25u64) } else { (if (wr >> 24u64) & 1u64 == 1u64 { 0u64 | (1u64 << 24u64) } else { 0u64 }) }) | (1u64 << 26u64) } else { (if (wr >> 25u64) & 1u64 == 1u64 { (if (wr >> 24u64) & 1u64 == 1u64 { 0u64 | (1u64 << 24u64) } else { 0u64 }) | (1u64 << 25u64) } else { (if (wr >> 24u64) & 1u64 == 1u64 { 0u64 | (1u64 << 24u64) } else { 0u64 }) }) }) }) | (1u64 << 28u64) } else { (if (wr >> 27u64) & 1u64 == 1u64 { (if (wr >> 26u64) & 1u64 == 1u64 { (if (wr >> 25u64) & 1u64 == 1u64 { (if (wr >> 24u64) & 1u64 == 1u64 { 0u64 | (1u64 << 24u64) } else { 0u64 }) | (1u64 << 25u64) } else { (if (wr >> 24u64) & 1u64 == 1u64 { 0u64 | (1u64 << 24u64) } else { 0u64 }) }) | (1u64 << 26u64) } else { (if (wr >> 25u64) & 1u64 == 1u64 { (if (wr >> 24u64) & 1u64 == 1u64 { 0u64 | (1u64 << 24u64) } else { 0u64 }) | (1u64 << 25u64) } else { (if (wr >> 24u64) & 1u64 == 1u64 { 0u64 | (1u64 << 24u64) } else { 0u64 }) }) }) | (1u64 << 27u64) } else { (if (wr >> 26u64) & 1u64 == 1u64 { (if (wr >> 25u64) & 1u64 == 1u64 { (if (wr >> 24u64) & 1u64 == 1u64 { 0u64 | (1u64 << 24u64) } else { 0u64 }) | (1u64 << 25u64) } else { (if (wr >> 24u64) & 1u64 == 1u64 { 0u64 | (1u64 << 24u64) } else { 0u64 }) }) | (1u64 << 26u64) } else { (if (wr >> 25u64) & 1u64 == 1u64 { (if (wr >> 24u64) & 1u64 == 1u64 { 0u64 | (1u64 << 24u64) } else { 0u64 }) | (1u64 << 25u64) } else { (if (wr >> 24u64) & 1u64 == 1u64 { 0u64 | (1u64 << 24u64) } else { 0u64 }) }) }) }) }) }) }) | (1u64 << 31u64) } else { (if (wr >> 30u64) & 1u64 == 1u64 { (if (wr >> 29u64) & 1u64 == 1u64 { (if (wr >> 28u64) & 1u64 == 1u64 { (if (wr >> 27u64) & 1u64 == 1u64 { (if (wr >> 26u64) & 1u64 == 1u64 { (if (wr >> 25u64) & 1u64 == 1u64 { (if (wr >> 24u64) & 1u64 == 1u64 { 0u64 | (1u64 << 24u64) } else { 0u64 }) | (1u64 << 25u64) } else { (if (wr >> 24u64) & 1u64 == 1u64 { 0u64 | (1u64 << 24u64) } else { 0u64 }) }) | (1u64 << 26u64) } else { (if (wr >> 25u64) & 1u64 == 1u64 { (if (wr >> 24u64) & 1u64 == 1u64 { 0u64 | (1u64 << 24u64) } else { 0u64 }) | (1u64 << 25u64) } else { (if (wr >> 24u64) & 1u64 == 1u64 { 0u64 | (1u64 << 24u64) } else { 0u64 }) }) }) | (1u64 << 27u64) } else { (if (wr >> 26u64) & 1u64 == 1u64 { (if (wr >> 25u64) & 1u64 == 1u64 { (if (wr >> 24u64) & 1u64 == 1u64 { 0u64 | (1u64 << 24u64) } else { 0u64 }) | (1u64 << 25u64) } else { (if (wr >> 24u64) & 1u64 == 1u64 { 0u64 | (1u64 << 24u64) } else { 0u64 }) }) | (1u64 << 26u64) } else { (if (wr >> 25u64) & 1u64 == 1u64 { (if (wr >> 24u64) & 1u64 == 1u64 { 0u64 | (1u64 << 24u64) } else { 0u64 }) | (1u64 << 25u64) } else { (if (wr >> 24u64) & 1u64 == 1u64 { 0u64 | (1u64 << 24u64) } else { 0u64 }) }) }) }) | (1u64 << 28u64) } else { (if (wr >> 27u64) & 1u64 == 1u64 { (if (wr >> 26u64) & 1u64 == 1u64 { (if (wr >> 25u64) & 1u64 == 1u64 { (if (wr >> 24u64) & 1u64 == 1u64 { 0u64 | (1u64 << 24u64) } else { 0u64 }) | (1u64 << 25u64) } else { (if (wr >> 24u64) & 1u64 == 1u64 { 0u64 | (1u64 << 24u64) } else { 0u64 }) }) | (1u64 << 26u64) } else { (if (wr >> 25u64) & 1u64 == 1u64 { (if (wr >> 24u64) & 1u64 == 1u64 { 0u64 | (1u64 << 24u64) } else { 0u64 }) | (1u64 << 25u64) } else { (if (wr >> 24u64) & 1u64 == 1u64 { 0u64 | (1u64 << 24u64) } else { 0u64 }) }) }) | (1u64 << 27u64) } else { (if (wr >> 26u64) & 1u64 == 1u64 { (if (wr >> 25u64) & 1u64 == 1u64 { (if (wr >> 24u64) & 1u64 == 1u64 { 0u64 | (1u64 << 24u64) } else { 0u64 }) | (1u64 << 25u64) } else { (if (wr >> 24u64) & 1u64 == 1u64 { 0u64 | (1u64 << 24u64) } else { 0u64 }) }) | (1u64 << 26u64) } else { (if (wr >> 25u64) & 1u64 == 1u64 { (if (wr >> 24u64) & 1u64 == 1u64 { 0u64 | (1u64 << 24u64) } else { 0u64 }) | (1u64 << 25u64) } else { (if (wr >> 24u64) & 1u64 == 1u64 { 0u64 | (1u64 << 24u64) } else { 0u64 }) }) }) }) }) | (1u64 << 29u64) } else { (if (wr >> 28u64) & 1u64 == 1u64 { (if (wr >> 27u64) & 1u64 == 1u64 { (if (wr >> 26u64) & 1u64 == 1u64 { (if (wr >> 25u64) & 1u64 == 1u64 { (if (wr >> 24u64) & 1u64 == 1u64 { 0u64 | (1u64 << 24u64) } else { 0u64 }) | (1u64 << 25u64) } else { (if (wr >> 24u64) & 1u64 == 1u64 { 0u64 | (1u64 << 24u64) } else { 0u64 }) }) | (1u64 << 26u64) } else { (if (wr >> 25u64) & 1u64 == 1u64 { (if (wr >> 24u64) & 1u64 == 1u64 { 0u64 | (1u64 << 24u64) } else { 0u64 }) | (1u64 << 25u64) } else { (if (wr >> 24u64) & 1u64 == 1u64 { 0u64 | (1u64 << 24u64) } else { 0u64 }) }) }) | (1u64 << 27u64) } else { (if (wr >> 26u64) & 1u64 == 1u64 { (if (wr >> 25u64) & 1u64 == 1u64 { (if (wr >> 24u64) & 1u64 == 1u64 { 0u64 | (1u64 << 24u64) } else { 0u64 }) | (1u64 << 25u64) } else { (if (wr >> 24u64) & 1u64 == 1u64 { 0u64 | (1u64 << 24u64) } else { 0u64 }) }) | (1u64 << 26u64) } else { (if (wr >> 25u64) & 1u64 == 1u64 { (if (wr >> 24u64) & 1u64 == 1u64 { 0u64 | (1u64 << 24u64) } else { 0u64 }) | (1u64 << 25u64) } else { (if (wr >> 24u64) & 1u64 == 1u64 { 0u64 | (1u64 << 24u64) } else { 0u64 }) }) }) }) | (1u64 << 28u64) } else { (if (wr >> 27u64) & 1u64 == 1u64 { (if (wr >> 26u64) & 1u64 == 1u64 { (if (wr >> 25u64) & 1u64 == 1u64 { (if (wr >> 24u64) & 1u64 == 1u64 { 0u64 | (1u64 << 24u64) } else { 0u64 }) | (1u64 << 25u64) } else { (if (wr >> 24u64) & 1u64 == 1u64 { 0u64 | (1u64 << 24u64) } else { 0u64 }) }) | (1u64 << 26u64) } else { (if (wr >> 25u64) & 1u64 == 1u64 { (if (wr >> 24u64) & 1u64 == 1u64 { 0u64 | (1u64 << 24u64) } else { 0u64 }) | (1u64 << 25u64) } else { (if (wr >> 24u64) & 1u64 == 1u64 { 0u64 | (1u64 << 24u64) } else { 0u64 }) }) }) | (1u64 << 27u64) } else { (if (wr >> 26u64) & 1u64 == 1u64 { (if (wr >> 25u64) & 1u64 == 1u64 { (if (wr >> 24u64) & 1u64 == 1u64 { 0u64 | (1u64 << 24u64) } else { 0u64 }) | (1u64 << 25u64) } else { (if (wr >> 24u64) & 1u64 == 1u64 { 0u64 | (1u64 << 24u64) } else { 0u64 }) }) | (1u64 << 26u64) } else { (if (wr >> 25u64) & 1u64 == 1u64 { (if (wr >> 24u64) & 1u64 == 1u64 { 0u64 | (1u64 << 24u64) } else { 0u64 }) | (1u64 << 25u64) } else { (if (wr >> 24u64) & 1u64 == 1u64 { 0u64 | (1u64 << 24u64) } else { 0u64 }) }) }) }) }) }) | (1u64 << 30u64) } else { (if (wr >> 29u64) & 1u64 == 1u64 { (if (wr >> 28u64) & 1u64 == 1u64 { (if (wr >> 27u64) & 1u64 == 1u64 { (if (wr >> 26u64) & 1u64 == 1u64 { (if (wr >> 25u64) & 1u64 == 1u64 { (if (wr >> 24u64) & 1u64 == 1u64 { 0u64 | (1u64 << 24u64) } else { 0u64 }) | (1u64 << 25u64) } else { (if (wr >> 24u64) & 1u64 == 1u64 { 0u64 | (1u64 << 24u64) } else { 0u64 }) }) | (1u64 << 26u64) } else { (if (wr >> 25u64) & 1u64 == 1u64 { (if (wr >> 24u64) & 1u64 == 1u64 { 0u64 | (1u64 << 24u64) } else { 0u64 }) | (1u64 << 25u64) } else { (if (wr >> 24u64) & 1u64 == 1u64 { 0u64 | (1u64 << 24u64) } else { 0u64 }) }) }) | (1u64 << 27u64) } else { (if (wr >> 26u64) & 1u64 == 1u64 { (if (wr >> 25u64) & 1u64 == 1u64 { (if (wr >> 24u64) & 1u64 == 1u64 { 0u64 | (1u64 << 24u64) } else { 0u64 }) | (1u64 << 25u64) } else { (if (wr >> 24u64) & 1u64 == 1u64 { 0u64 | (1u64 << 24u64) } else { 0u64 }) }) | (1u64 << 26u64) } else { (if (wr >> 25u64) & 1u64 == 1u64 { (if (wr >> 24u64) & 1u64 == 1u64 { 0u64 | (1u64 << 24u64) } else { 0u64 }) | (1u64 << 25u64) } else { (if (wr >> 24u64) & 1u64 == 1u64 { 0u64 | (1u64 << 24u64) } else { 0u64 }) }) }) }) | (1u64 << 28u64) } else { (if (wr >> 27u64) & 1u64 == 1u64 { (if (wr >> 26u64) & 1u64 == 1u64 { (if (wr >> 25u64) & 1u64 == 1u64 { (if (wr >> 24u64) & 1u64 == 1u64 { 0u64 | (1u64 << 24u64) } else { 0u64 }) | (1u64 << 25u64) } else { (if (wr >> 24u64) & 1u64 == 1u64 { 0u64 | (1u64 << 24u64) } else { 0u64 }) }) | (1u64 << 26u64) } else { (if (wr >> 25u64) & 1u64 == 1u64 { (if (wr >> 24u64) & 1u64 == 1u64 { 0u64 | (1u64 << 24u64) } else { 0u64 }) | (1u64 << 25u64) } else { (if (wr >> 24u64) & 1u64 == 1u64 { 0u64 | (1u64 << 24u64) } else { 0u64 }) }) }) | (1u64 << 27u64) } else { (if (wr >> 26u64) & 1u64 == 1u64 { (if (wr >> 25u64) & 1u64 == 1u64 { (if (wr >> 24u64) & 1u64 == 1u64 { 0u64 | (1u64 << 24u64) } else { 0u64 }) | (1u64 << 25u64) } else { (if (wr >> 24u64) & 1u64 == 1u64 { 0u64 | (1u64 << 24u64) } else { 0u64 }) }) | (1u64 << 26u64) } else { (if (wr >> 25u64) & 1u64 == 1u64 { (if (wr >> 24u64) & 1u64 == 1u64 { 0u64 | (1u64 << 24u64) } else { 0u64 }) | (1u64 << 25u64) } else { (if (wr >> 24u64) & 1u64 == 1u64 { 0u64 | (1u64 << 24u64) } else { 0u64 }) }) }) }) }) | (1u64 << 29u64) } else { (if (wr >> 28u64) & 1u64 == 1u64 { (if (wr >> 27u64) & 1u64 == 1u64 { (if (wr >> 26u64) & 1u64 == 1u64 { (if (wr >> 25u64) & 1u64 == 1u64 { (if (wr >> 24u64) & 1u64 == 1u64 { 0u64 | (1u64 << 24u64) } else { 0u64 }) | (1u64 << 25u64) } else { (if (wr >> 24u64) & 1u64 == 1u64 { 0u64 | (1u64 << 24u64) } else { 0u64 }) }) | (1u64 << 26u64) } else { (if (wr >> 25u64) & 1u64 == 1u64 { (if (wr >> 24u64) & 1u64 == 1u64 { 0u64 | (1u64 << 24u64) } else { 0u64 }) | (1u64 << 25u64) } else { (if (wr >> 24u64) & 1u64 == 1u64 { 0u64 | (1u64 << 24u64) } else { 0u64 }) }) }) | (1u64 << 27u64) } else { (if (wr >> 26u64) & 1u64 == 1u64 { (if (wr >> 25u64) & 1u64 == 1u64 { (if (wr >> 24u64) & 1u64 == 1u64 { 0u64 | (1u64 << 24u64) } else { 0u64 }) | (1u64 << 25u64) } else { (if (wr >> 24u64) & 1u64 == 1u64 { 0u64 | (1u64 << 24u64) } else { 0u64 }) }) | (1u64 << 26u64) } else { (if (wr >> 25u64) & 1u64 == 1u64 { (if (wr >> 24u64) & 1u64 == 1u64 { 0u64 | (1u64 << 24u64) } else { 0u64 }) | (1u64 << 25u64) } else { (if (wr >> 24u64) & 1u64 == 1u64 { 0u64 | (1u64 << 24u64) } else { 0u64 }) }) }) }) | (1u64 << 28u64) } else { (if (wr >> 27u64) & 1u64 == 1u64 { (if (wr >> 26u64) & 1u64 == 1u64 { (if (wr >> 25u64) & 1u64 == 1u64 { (if (wr >> 24u64) & 1u64 == 1u64 { 0u64 | (1u64 << 24u64) } else { 0u64 }) | (1u64 << 25u64) } else { (if (wr >> 24u64) & 1u64 == 1u64 { 0u64 | (1u64 << 24u64) } else { 0u64 }) }) | (1u64 << 26u64) } else { (if (wr >> 25u64) & 1u64 == 1u64 { (if (wr >> 24u64) & 1u64 == 1u64 { 0u64 | (1u64 << 24u64) } else { 0u64 }) | (1u64 << 25u64) } else { (if (wr >> 24u64) & 1u64 == 1u64 { 0u64 | (1u64 << 24u64) } else { 0u64 }) }) }) | (1u64 << 27u64) } else { (if (wr >> 26u64) & 1u64 == 1u64 { (if (wr >> 25u64) & 1u64 == 1u64 { (if (wr >> 24u64) & 1u64 == 1u64 { 0u64 | (1u64 << 24u64) } else { 0u64 }) | (1u64 << 25u64) } else { (if (wr >> 24u64) & 1u64 == 1u64 { 0u64 | (1u64 << 24u64) } else { 0u64 }) }) | (1u64 << 26u64) } else { (if (wr >> 25u64) & 1u64 == 1u64 { (if (wr >> 24u64) & 1u64 == 1u64 { 0u64 | (1u64 << 24u64) } else { 0u64 }) | (1u64 << 25u64) } else { (if (wr >> 24u64) & 1u64 == 1u64 { 0u64 | (1u64 << 24u64) } else { 0u64 }) }) }) }) }) }) }) }) | (1u64 << 23u64) } else { (if (wr >> 31u64) & 1u64 == 1u64 { (if (wr >> 30u64) & 1u64 == 1u64 { (if (wr >> 29u64) & 1u64 == 1u64 { (if (wr >> 28u64) & 1u64 == 1u64 { (if (wr >> 27u64) & 1u64 == 1u64 { (if (wr >> 26u64) & 1u64 == 1u64 { (if (wr >> 25u64) & 1u64 == 1u64 { (if (wr >> 24u64) & 1u64 == 1u64 { 0u64 | (1u64 << 24u64) } else { 0u64 }) | (1u64 << 25u64) } else { (if (wr >> 24u64) & 1u64 == 1u64 { 0u64 | (1u64 << 24u64) } else { 0u64 }) }) | (1u64 << 26u64) } else { (if (wr >> 25u64) & 1u64 == 1u64 { (if (wr >> 24u64) & 1u64 == 1u64 { 0u64 | (1u64 << 24u64) } else { 0u64 }) | (1u64 << 25u64) } else { (if (wr >> 24u64) & 1u64 == 1u64 { 0u64 | (1u64 << 24u64) } else { 0u64 }) }) }) | (1u64 << 27u64) } else { (if (wr >> 26u64) & 1u64 == 1u64 { (if (wr >> 25u64) & 1u64 == 1u64 { (if (wr >> 24u64) & 1u64 == 1u64 { 0u64 | (1u64 << 24u64) } else { 0u64 }) | (1u64 << 25u64) } else { (if (wr >> 24u64) & 1u64 == 1u64 { 0u64 | (1u64 << 24u64) } else { 0u64 }) }) | (1u64 << 26u64) } else { (if (wr >> 25u64) & 1u64 == 1u64 { (if (wr >> 24u64) & 1u64 == 1u64 { 0u64 | (1u64 << 24u64) } else { 0u64 }) | (1u64 << 25u64) } else { (if (wr >> 24u64) & 1u64 == 1u64 { 0u64 | (1u64 << 24u64) } else { 0u64 }) }) }) }) | (1u64 << 28u64) } else { (if (wr >> 27u64) & 1u64 == 1u64 { (if (wr >> 26u64) & 1u64 == 1u64 { (if (wr >> 25u64) & 1u64 == 1u64 { (if (wr >> 24u64) & 1u64 == 1u64 { 0u64 | (1u64 << 24u64) } else { 0u64 }) | (1u64 << 25u64) } else { (if (wr >> 24u64) & 1u64 == 1u64 { 0u64 | (1u64 << 24u64) } else { 0u64 }) }) | (1u64 << 26u64) } else { (if (wr >> 25u64) & 1u64 == 1u64 { (if (wr >> 24u64) & 1u64 == 1u64 { 0u64 | (1u64 << 24u64) } else { 0u64 }) | (1u64 << 25u64) } else { (if (wr >> 24u64) & 1u64 == 1u64 { 0u64 | (1u64 << 24u64) } else { 0u64 }) }) }) | (1u64 << 27u64) } else { (if (wr >> 26u64) & 1u64 == 1u64 { (if (wr >> 25u64) & 1u64 == 1u64 { (if (wr >> 24u64) & 1u64 == 1u64 { 0u64 | (1u64 << 24u64) } else { 0u64 }) | (1u64 << 25u64) } else { (if (wr >> 24u64) & 1u64 == 1u64 { 0u64 | (1u64 << 24u64) } else { 0u64 }) }) | (1u64 << 26u64) } else { (if (wr >> 25u64) & 1u64 == 1u64 { (if (wr >> 24u64) & 1u64 == 1u64 { 0u64 | (1u64 << 24u64) } else { 0u64 }) | (1u64 << 25u64) } else { (if (wr >> 24u64) & 1u64 == 1u64 { 0u64 | (1u64 << 24u64) } else { 0u64 }) }) }) }) }) | (1u64 << 29u64) } else { (if (wr >> 28u64) & 1u64 == 1u64 { (if (wr >> 27u64) & 1u64 == 1u64 { (if (wr >> 26u64) & 1u64 == 1u64 { (if (wr >> 25u64) & 1u64 == 1u64 { (if (wr >> 24u64) & 1u64 == 1u64 { 0u64 | (1u64 << 24u64) } else { 0u64 }) | (1u64 << 25u64) } else { (if (wr >> 24u64) & 1u64 == 1u64 { 0u64 | (1u64 << 24u64) } else { 0u64 }) }) | (1u64 << 26u64) } else { (if (wr >> 25u64) & 1u64 == 1u64 { (if (wr >> 24u64) & 1u64 == 1u64 { 0u64 | (1u64 << 24u64) } else { 0u64 }) | (1u64 << 25u64) } else { (if (wr >> 24u64) & 1u64 == 1u64 { 0u64 | (1u64 << 24u64) } else { 0u64 }) }) }) | (1u64 << 27u64) } else { (if (wr >> 26u64) & 1u64 == 1u64 { (if (wr >> 25u64) & 1u64 == 1u64 { (if (wr >> 24u64) & 1u64 == 1u64 { 0u64 | (1u64 << 24u64) } else { 0u64 }) | (1u64 << 25u64) } else { (if (wr >> 24u64) & 1u64 == 1u64 { 0u64 | (1u64 << 24u64) } else { 0u64 }) }) | (1u64 << 26u64) } else { (if (wr >> 25u64) & 1u64 == 1u64 { (if (wr >> 24u64) & 1u64 == 1u64 { 0u64 | (1u64 << 24u64) } else { 0u64 }) | (1u64 << 25u64) } else { (if (wr >> 24u64) & 1u64 == 1u64 { 0u64 | (1u64 << 24u64) } else { 0u64 }) }) }) }) | (1u64 << 28u64) } else { (if (wr >> 27u64) & 1u64 == 1u64 { (if (wr >> 26u64) & 1u64 == 1u64 { (if (wr >> 25u64) & 1u64 == 1u64 { (if (wr >> 24u64) & 1u64 == 1u64 { 0u64 | (1u64 << 24u64) } else { 0u64 }) | (1u64 << 25u64) } else { (if (wr >> 24u64) & 1u64 == 1u64 { 0u64 | (1u64 << 24u64) } else { 0u64 }) }) | (1u64 << 26u64) } else { (if (wr >> 25u64) & 1u64 == 1u64 { (if (wr >> 24u64) & 1u64 == 1u64 { 0u64 | (1u64 << 24u64) } else { 0u64 }) | (1u64 << 25u64) } else { (if (wr >> 24u64) & 1u64 == 1u64 { 0u64 | (1u64 << 24u64) } else { 0u64 }) }) }) | (1u64 << 27u64) } else { (if (wr >> 26u64) & 1u64 == 1u64 { (if (wr >> 25u64) & 1u64 == 1u64 { (if (wr >> 24u64) & 1u64 == 1u64 { 0u64 | (1u64 << 24u64) } else { 0u64 }) | (1u64 << 25u64) } else { (if (wr >> 24u64) & 1u64 == 1u64 { 0u64 | (1u64 << 24u64) } else { 0u64 }) }) | (1u64 << 26u64) } else { (if (wr >> 25u64) & 1u64 == 1u64 { (if (wr >> 24u64) & 1u64 == 1u64 { 0u64 | (1u64 << 24u64) } else { 0u64 }) | (1u64 << 25u64) } else { (if (wr >> 24u64) & 1u64 == 1u64 { 0u64 | (1u64 << 24u64) } else { 0u64 }) }) }) }) }) }) | (1u64 << 30u64) } else { (if (wr >> 29u64) & 1u64 == 1u64 { (if (wr >> 28u64) & 1u64 == 1u64 { (if (wr >> 27u64) & 1u64 == 1u64 { (if (wr >> 26u64) & 1u64 == 1u64 { (if (wr >> 25u64) & 1u64 == 1u64 { (if (wr >> 24u64) & 1u64 == 1u64 { 0u64 | (1u64 << 24u64) } else { 0u64 }) | (1u64 << 25u64) } else { (if (wr >> 24u64) & 1u64 == 1u64 { 0u64 | (1u64 << 24u64) } else { 0u64 }) }) | (1u64 << 26u64) } else { (if (wr >> 25u64) & 1u64 == 1u64 { (if (wr >> 24u64) & 1u64 == 1u64 { 0u64 | (1u64 << 24u64) } else { 0u64 }) | (1u64 << 25u64) } else { (if (wr >> 24u64) & 1u64 == 1u64 { 0u64 | (1u64 << 24u64) } else { 0u64 }) }) }) | (1u64 << 27u64) } else { (if (wr >> 26u64) & 1u64 == 1u64 { (if (wr >> 25u64) & 1u64 == 1u64 { (if (wr >> 24u64) & 1u64 == 1u64 { 0u64 | (1u64 << 24u64) } else { 0u64 }) | (1u64 << 25u64) } else { (if (wr >> 24u64) & 1u64 == 1u64 { 0u64 | (1u64 << 24u64) } else { 0u64 }) }) | (1u64 << 26u64) } else { (if (wr >> 25u64) & 1u64 == 1u64 { (if (wr >> 24u64) & 1u64 == 1u64 { 0u64 | (1u64 << 24u64) } else { 0u64 }) | (1u64 << 25u64) } else { (if (wr >> 24u64) & 1u64 == 1u64 { 0u64 | (1u64 << 24u64) } else { 0u64 }) }) }) }) | (1u64 << 28u64) } else { (if (wr >> 27u64) & 1u64 == 1u64 { (if (wr >> 26u64) & 1u64 == 1u64 { (if (wr >> 25u64) & 1u64 == 1u64 { (if (wr >> 24u64) & 1u64 == 1u64 { 0u64 | (1u64 << 24u64) } else { 0u64 }) | (1u64 << 25u64) } else { (if (wr >> 24u64) & 1u64 == 1u64 { 0u64 | (1u64 << 24u64) } else { 0u64 }) }) | (1u64 << 26u64) } else { (if (wr >> 25u64) & 1u64 == 1u64 { (if (wr >> 24u64) & 1u64 == 1u64 { 0u64 | (1u64 << 24u64) } else { 0u64 }) | (1u64 << 25u64) } else { (if (wr >> 24u64) & 1u64 == 1u64 { 0u64 | (1u64 << 24u64) } else { 0u64 }) }) }) | (1u64 << 27u64) } else { (if (wr >> 26u64) & 1u64 == 1u64 { (if (wr >> 25u64) & 1u64 == 1u64 { (if (wr >> 24u64) & 1u64 == 1u64 { 0u64 | (1u64 << 24u64) } else { 0u64 }) | (1u64 << 25u64) } else { (if (wr >> 24u64) & 1u64 == 1u64 { 0u64 | (1u64 << 24u64) } else { 0u64 }) }) | (1u64 << 26u64) } else { (if (wr >> 25u64) & 1u64 == 1u64 { (if (wr >> 24u64) & 1u64 == 1u64 { 0u64 | (1u64 << 24u64) } else { 0u64 }) | (1u64 << 25u64) } else { (if (wr >> 24u64) & 1u64 == 1u64 { 0u64 | (1u64 << 24u64) } else { 0u64 }) }) }) }) }) | (1u64 << 29u64) } else { (if (wr >> 28u64) & 1u64 == 1u64 { (if (wr >> 27u64) & 1u64 == 1u64 { (if (wr >> 26u64) & 1u64 == 1u64 { (if (wr >> 25u64) & 1u64 == 1u64 { (if (wr >> 24u64) & 1u64 == 1u64 { 0u64 | (1u64 << 24u64) } else { 0u64 }) | (1u64 << 25u64) } else { (if (wr >> 24u64) & 1u64 == 1u64 { 0u64 | (1u64 << 24u64) } else { 0u64 }) }) | (1u64 << 26u64) } else { (if (wr >> 25u64) & 1u64 == 1u64 { (if (wr >> 24u64) & 1u64 == 1u64 { 0u64 | (1u64 << 24u64) } else { 0u64 }) | (1u64 << 25u64) } else { (if (wr >> 24u64) & 1u64 == 1u64 { 0u64 | (1u64 << 24u64) } else { 0u64 }) }) }) | (1u64 << 27u64) } else { (if (wr >> 26u64) & 1u64 == 1u64 { (if (wr >> 25u64) & 1u64 == 1u64 { (if (wr >> 24u64) & 1u64 == 1u64 { 0u64 | (1u64 << 24u64) } else { 0u64 }) | (1u64 << 25u64) } else { (if (wr >> 24u64) & 1u64 == 1u64 { 0u64 | (1u64 << 24u64) } else { 0u64 }) }) | (1u64 << 26u64) } else { (if (wr >> 25u64) & 1u64 == 1u64 { (if (wr >> 24u64) & 1u64 == 1u64 { 0u64 | (1u64 << 24u64) } else { 0u64 }) | (1u64 << 25u64) } else { (if (wr >> 24u64) & 1u64 == 1u64 { 0u64 | (1u64 << 24u64) } else { 0u64 }) }) }) }) | (1u64 << 28u64) } else { (if (wr >> 27u64) & 1u64 == 1u64 { (if (wr >> 26u64) & 1u64 == 1u64 { (if (wr >> 25u64) & 1u64 == 1u64 { (if (wr >> 24u64) & 1u64 == 1u64 { 0u64 | (1u64 << 24u64) } else { 0u64 }) | (1u64 << 25u64) } else { (if (wr >> 24u64) & 1u64 == 1u64 { 0u64 | (1u64 << 24u64) } else { 0u64 }) }) | (1u64 << 26u64) } else { (if (wr >> 25u64) & 1u64 == 1u64 { (if (wr >> 24u64) & 1u64 == 1u64 { 0u64 | (1u64 << 24u64) } else { 0u64 }) | (1u64 << 25u64) } else { (if (wr >> 24u64) & 1u64 == 1u64 { 0u64 | (1u64 << 24u64) } else { 0u64 }) }) }) | (1u64 << 27u64) } else { (if (wr >> 26u64) & 1u64 == 1u64 { (if (wr >> 25u64) & 1u64 == 1u64 { (if (wr >> 24u64) & 1u64 == 1u64 { 0u64 | (1u64 << 24u64) } else { 0u64 }) | (1u64 << 25u64) } else { (if (wr >> 24u64) & 1u64 == 1u64 { 0u64 | (1u64 << 24u64) } else { 0u64 }) }) | (1u64 << 26u64) } else { (if (wr >> 25u64) & 1u64 == 1u64 { (if (wr >> 24u64) & 1u64 == 1u64 { 0u64 | (1u64 << 24u64) } else { 0u64 }) | (1u64 << 25u64) } else { (if (wr >> 24u64) & 1u64 == 1u64 { 0u64 | (1u64 << 24u64) } else { 0u64 }) }) }) }) }) }) }) | (1u64 << 31u64) } else { (if (wr >> 30u64) & 1u64 == 1u64 { (if (wr >> 29u64) & 1u64 == 1u64 { (if (wr >> 28u64) & 1u64 == 1u64 { (if (wr >> 27u64) & 1u64 == 1u64 { (if (wr >> 26u64) & 1u64 == 1u64 { (if (wr >> 25u64) & 1u64 == 1u64 { (if (wr >> 24u64) & 1u64 == 1u64 { 0u64 | (1u64 << 24u64) } else { 0u64 }) | (1u64 << 25u64) } else { (if (wr >> 24u64) & 1u64 == 1u64 { 0u64 | (1u64 << 24u64) } else { 0u64 }) }) | (1u64 << 26u64) } else { (if (wr >> 25u64) & 1u64 == 1u64 { (if (wr >> 24u64) & 1u64 == 1u64 { 0u64 | (1u64 << 24u64) } else { 0u64 }) | (1u64 << 25u64) } else { (if (wr >> 24u64) & 1u64 == 1u64 { 0u64 | (1u64 << 24u64) } else { 0u64 }) }) }) | (1u64 << 27u64) } else { (if (wr >> 26u64) & 1u64 == 1u64 { (if (wr >> 25u64) & 1u64 == 1u64 { (if (wr >> 24u64) & 1u64 == 1u64 { 0u64 | (1u64 << 24u64) } else { 0u64 }) | (1u64 << 25u64) } else { (if (wr >> 24u64) & 1u64 == 1u64 { 0u64 | (1u64 << 24u64) } else { 0u64 }) }) | (1u64 << 26u64) } else { (if (wr >> 25u64) & 1u64 == 1u64 { (if (wr >> 24u64) & 1u64 == 1u64 { 0u64 | (1u64 << 24u64) } else { 0u64 }) | (1u64 << 25u64) } else { (if (wr >> 24u64) & 1u64 == 1u64 { 0u64 | (1u64 << 24u64) } else { 0u64 }) }) }) }) | (1u64 << 28u64) } else { (if (wr >> 27u64) & 1u64 == 1u64 { (if (wr >> 26u64) & 1u64 == 1u64 { (if (wr >> 25u64) & 1u64 == 1u64 { (if (wr >> 24u64) & 1u64 == 1u64 { 0u64 | (1u64 << 24u64) } else { 0u64 }) | (1u64 << 25u64) } else { (if (wr >> 24u64) & 1u64 == 1u64 { 0u64 | (1u64 << 24u64) } else { 0u64 }) }) | (1u64 << 26u64) } else { (if (wr >> 25u64) & 1u64 == 1u64 { (if (wr >> 24u64) & 1u64 == 1u64 { 0u64 | (1u64 << 24u64) } else { 0u64 }) | (1u64 << 25u64) } else { (if (wr >> 24u64) & 1u64 == 1u64 { 0u64 | (1u64 << 24u64) } else { 0u64 }) }) }) | (1u64 << 27u64) } else { (if (wr >> 26u64) & 1u64 == 1u64 { (if (wr >> 25u64) & 1u64 == 1u64 { (if (wr >> 24u64) & 1u64 == 1u64 { 0u64 | (1u64 << 24u64) } else { 0u64 }) | (1u64 << 25u64) } else { (if (wr >> 24u64) & 1u64 == 1u64 { 0u64 | (1u64 << 24u64) } else { 0u64 }) }) | (1u64 << 26u64) } else { (if (wr >> 25u64) & 1u64 == 1u64 { (if (wr >> 24u64) & 1u64 == 1u64 { 0u64 | (1u64 << 24u64) } else { 0u64 }) | (1u64 << 25u64) } else { (if (wr >> 24u64) & 1u64 == 1u64 { 0u64 | (1u64 << 24u64) } else { 0u64 }) }) }) }) }) | (1u64 << 29u64) } else { (if (wr >> 28u64) & 1u64 == 1u64 { (if (wr >> 27u64) & 1u64 == 1u64 { (if (wr >> 26u64) & 1u64 == 1u64 { (if (wr >> 25u64) & 1u64 == 1u64 { (if (wr >> 24u64) & 1u64 == 1u64 { 0u64 | (1u64 << 24u64) } else { 0u64 }) | (1u64 << 25u64) } else { (if (wr >> 24u64) & 1u64 == 1u64 { 0u64 | (1u64 << 24u64) } else { 0u64 }) }) | (1u64 << 26u64) } else { (if (wr >> 25u64) & 1u64 == 1u64 { (if (wr >> 24u64) & 1u64 == 1u64 { 0u64 | (1u64 << 24u64) } else { 0u64 }) | (1u64 << 25u64) } else { (if (wr >> 24u64) & 1u64 == 1u64 { 0u64 | (1u64 << 24u64) } else { 0u64 }) }) }) | (1u64 << 27u64) } else { (if (wr >> 26u64) & 1u64 == 1u64 { (if (wr >> 25u64) & 1u64 == 1u64 { (if (wr >> 24u64) & 1u64 == 1u64 { 0u64 | (1u64 << 24u64) } else { 0u64 }) | (1u64 << 25u64) } else { (if (wr >> 24u64) & 1u64 == 1u64 { 0u64 | (1u64 << 24u64) } else { 0u64 }) }) | (1u64 << 26u64) } else { (if (wr >> 25u64) & 1u64 == 1u64 { (if (wr >> 24u64) & 1u64 == 1u64 { 0u64 | (1u64 << 24u64) } else { 0u64 }) | (1u64 << 25u64) } else { (if (wr >> 24u64) & 1u64 == 1u64 { 0u64 | (1u64 << 24u64) } else { 0u64 }) }) }) }) | (1u64 << 28u64) } else { (if (wr >> 27u64) & 1u64 == 1u64 { (if (wr >> 26u64) & 1u64 == 1u64 { (if (wr >> 25u64) & 1u64 == 1u64 { (if (wr >> 24u64) & 1u64 == 1u64 { 0u64 | (1u64 << 24u64) } else { 0u64 }) | (1u64 << 25u64) } else { (if (wr >> 24u64) & 1u64 == 1u64 { 0u64 | (1u64 << 24u64) } else { 0u64 }) }) | (1u64 << 26u64) } else { (if (wr >> 25u64) & 1u64 == 1u64 { (if (wr >> 24u64) & 1u64 == 1u64 { 0u64 | (1u64 << 24u64) } else { 0u64 }) | (1u64 << 25u64) } else { (if (wr >> 24u64) & 1u64 == 1u64 { 0u64 | (1u64 << 24u64) } else { 0u64 }) }) }) | (1u64 << 27u64) } else { (if (wr >> 26u64) & 1u64 == 1u64 { (if (wr >> 25u64) & 1u64 == 1u64 { (if (wr >> 24u64) & 1u64 == 1u64 { 0u64 | (1u64 << 24u64) } else { 0u64 }) | (1u64 << 25u64) } else { (if (wr >> 24u64) & 1u64 == 1u64 { 0u64 | (1u64 << 24u64) } else { 0u64 }) }) | (1u64 << 26u64) } else { (if (wr >> 25u64) & 1u64 == 1u64 { (if (wr >> 24u64) & 1u64 == 1u64 { 0u64 | (1u64 << 24u64) } else { 0u64 }) | (1u64 << 25u64) } else { (if (wr >> 24u64) & 1u64 == 1u64 { 0u64 | (1u64 << 24u64) } else { 0u64 }) }) }) }) }) }) | (1u64 << 30u64) } else { (if (wr >> 29u64) & 1u64 == 1u64 { (if (wr >> 28u64) & 1u64 == 1u64 { (if (wr >> 27u64) & 1u64 == 1u64 { (if (wr >> 26u64) & 1u64 == 1u64 { (if (wr >> 25u64) & 1u64 == 1u64 { (if (wr >> 24u64) & 1u64 == 1u64 { 0u64 | (1u64 << 24u64) } else { 0u64 }) | (1u64 << 25u64) } else { (if (wr >> 24u64) & 1u64 == 1u64 { 0u64 | (1u64 << 24u64) } else { 0u64 }) }) | (1u64 << 26u64) } else { (if (wr >> 25u64) & 1u64 == 1u64 { (if (wr >> 24u64) & 1u64 == 1u64 { 0u64 | (1u64 << 24u64) } else { 0u64 }) | (1u64 << 25u64) } else { (if (wr >> 24u64) & 1u64 == 1u64 { 0u64 | (1u64 << 24u64) } else { 0u64 }) }) }) | (1u64 << 27u64) } else { (if (wr >> 26u64) & 1u64 == 1u64 { (if (wr >> 25u64) & 1u64 == 1u64 { (if (wr >> 24u64) & 1u64 == 1u64 { 0u64 | (1u64 << 24u64) } else { 0u64 }) | (1u64 << 25u64) } else { (if (wr >> 24u64) & 1u64 == 1u64 { 0u64 | (1u64 << 24u64) } else { 0u64 }) }) | (1u64 << 26u64) } else { (if (wr >> 25u64) & 1u64 == 1u64 { (if (wr >> 24u64) & 1u64 == 1u64 { 0u64 | (1u64 << 24u64) } else { 0u64 }) | (1u64 << 25u64) } else { (if (wr >> 24u64) & 1u64 == 1u64 { 0u64 | (1u64 << 24u64) } else { 0u64 }) }) }) }) | (1u64 << 28u64) } else { (if (wr >> 27u64) & 1u64 == 1u64 { (if (wr >> 26u64) & 1u64 == 1u64 { (if (wr >> 25u64) & 1u64 == 1u64 { (if (wr >> 24u64) & 1u64 == 1u64 { 0u64 | (1u64 << 24u64) } else { 0u64 }) | (1u64 << 25u64) } else { (if (wr >> 24u64) & 1u64 == 1u64 { 0u64 | (1u64 << 24u64) } else { 0u64 }) }) | (1u64 << 26u64) } else { (if (wr >> 25u64) & 1u64 == 1u64 { (if (wr >> 24u64) & 1u64 == 1u64 { 0u64 | (1u64 << 24u64) } else { 0u64 }) | (1u64 << 25u64) } else { (if (wr >> 24u64) & 1u64 == 1u64 { 0u64 | (1u64 << 24u64) } else { 0u64 }) }) }) | (1u64 << 27u64) } else { (if (wr >> 26u64) & 1u64 == 1u64 { (if (wr >> 25u64) & 1u64 == 1u64 { (if (wr >> 24u64) & 1u64 == 1u64 { 0u64 | (1u64 << 24u64) } else { 0u64 }) | (1u64 << 25u64) } else { (if (wr >> 24u64) & 1u64 == 1u64 { 0u64 | (1u64 << 24u64) } else { 0u64 }) }) | (1u64 << 26u64) } else { (if (wr >> 25u64) & 1u64 == 1u64 { (if (wr >> 24u64) & 1u64 == 1u64 { 0u64 | (1u64 << 24u64) } else { 0u64 }) | (1u64 << 25u64) } else { (if (wr >> 24u64) & 1u64 == 1u64 { 0u64 | (1u64 << 24u64) } else { 0u64 }) }) }) }) }) | (1u64 << 29u64) } else { (if (wr >> 28u64) & 1u64 == 1u64 { (if (wr >> 27u64) & 1u64 == 1u64 { (if (wr >> 26u64) & 1u64 == 1u64 { (if (wr >> 25u64) & 1u64 == 1u64 { (if (wr >> 24u64) & 1u64 == 1u64 { 0u64 | (1u64 << 24u64) } else { 0u64 }) | (1u64 << 25u64) } else { (if (wr >> 24u64) & 1u64 == 1u64 { 0u64 | (1u64 << 24u64) } else { 0u64 }) }) | (1u64 << 26u64) } else { (if (wr >> 25u64) & 1u64 == 1u64 { (if (wr >> 24u64) & 1u64 == 1u64 { 0u64 | (1u64 << 24u64) } else { 0u64 }) | (1u64 << 25u64) } else { (if (wr >> 24u64) & 1u64 == 1u64 { 0u64 | (1u64 << 24u64) } else { 0u64 }) }) }) | (1u64 << 27u64) } else { (if (wr >> 26u64) & 1u64 == 1u64 { (if (wr >> 25u64) & 1u64 == 1u64 { (if (wr >> 24u64) & 1u64 == 1u64 { 0u64 | (1u64 << 24u64) } else { 0u64 }) | (1u64 << 25u64) } else { (if (wr >> 24u64) & 1u64 == 1u64 { 0u64 | (1u64 << 24u64) } else { 0u64 }) }) | (1u64 << 26u64) } else { (if (wr >> 25u64) & 1u64 == 1u64 { (if (wr >> 24u64) & 1u64 == 1u64 { 0u64 | (1u64 << 24u64) } else { 0u64 }) | (1u64 << 25u64) } else { (if (wr >> 24u64) & 1u64 == 1u64 { 0u64 | (1u64 << 24u64) } else { 0u64 }) }) }) }) | (1u64 << 28u64) } else { (if (wr >> 27u64) & 1u64 == 1u64 { (if (wr >> 26u64) & 1u64 == 1u64 { (if (wr >> 25u64) & 1u64 == 1u64 { (if (wr >> 24u64) & 1u64 == 1u64 { 0u64 | (1u64 << 24u64) } else { 0u64 }) | (1u64 << 25u64) } else { (if (wr >> 24u64) & 1u64 == 1u64 { 0u64 | (1u64 << 24u64) } else { 0u64 }) }) | (1u64 << 26u64) } else { (if (wr >> 25u64) & 1u64 == 1u64 { (if (wr >> 24u64) & 1u64 == 1u64 { 0u64 | (1u64 << 24u64) } else { 0u64 }) | (1u64 << 25u64) } else { (if (wr >> 24u64) & 1u64 == 1u64 { 0u64 | (1u64 << 24u64) } else { 0u64 }) }) }) | (1u64 << 27u64) } else { (if (wr >> 26u64) & 1u64 == 1u64 { (if (wr >> 25u64) & 1u64 == 1u64 { (if (wr >> 24u64) & 1u64 == 1u64 { 0u64 | (1u64 << 24u64) } else { 0u64 }) | (1u64 << 25u64) } else { (if (wr >> 24u64) & 1u64 == 1u64 { 0u64 | (1u64 << 24u64) } else { 0u64 }) }) | (1u64 << 26u64) } else { (if (wr >> 25u64) & 1u64 == 1u64 { (if (wr >> 24u64) & 1u64 == 1u64 { 0u64 | (1u64 << 24u64) } else { 0u64 }) | (1u64 << 25u64) } else { (if (wr >> 24u64) & 1u64 == 1u64 { 0u64 | (1u64 << 24u64) } else { 0u64 }) }) }) }) }) }) }) }) }) }) }) | (1u64 << 21u64) } else { (if (wr >> 22u64) & 1u64 == 1u64 { (if (wr >> 23u64) & 1u64 == 1u64 { (if (wr >> 23u64) & 1u64 == 1u64 { (if (wr >> 31u64) & 1u64 == 1u64 { (if (wr >> 30u64) & 1u64 == 1u64 { (if (wr >> 29u64) & 1u64 == 1u64 { (if (wr >> 28u64) & 1u64 == 1u64 { (if (wr >> 27u64) & 1u64 == 1u64 { (if (wr >> 26u64) & 1u64 == 1u64 { (if (wr >> 25u64) & 1u64 == 1u64 { (if (wr >> 24u64) & 1u64 == 1u64 { 0u64 | (1u64 << 24u64) } else { 0u64 }) | (1u64 << 25u64) } else { (if (wr >> 24u64) & 1u64 == 1u64 { 0u64 | (1u64 << 24u64) } else { 0u64 }) }) | (1u64 << 26u64) } else { (if (wr >> 25u64) & 1u64 == 1u64 { (if (wr >> 24u64) & 1u64 == 1u64 { 0u64 | (1u64 << 24u64) } else { 0u64 }) | (1u64 << 25u64) } else { (if (wr >> 24u64) & 1u64 == 1u64 { 0u64 | (1u64 << 24u64) } else { 0u64 }) }) }) | (1u64 << 27u64) } else { (if (wr >> 26u64) & 1u64 == 1u64 { (if (wr >> 25u64) & 1u64 == 1u64 { (if (wr >> 24u64) & 1u64 == 1u64 { 0u64 | (1u64 << 24u64) } else { 0u64 }) | (1u64 << 25u64) } else { (if (wr >> 24u64) & 1u64 == 1u64 { 0u64 | (1u64 << 24u64) } else { 0u64 }) }) | (1u64 << 26u64) } else { (if (wr >> 25u64) & 1u64 == 1u64 { (if (wr >> 24u64) & 1u64 == 1u64 { 0u64 | (1u64 << 24u64) } else { 0u64 }) | (1u64 << 25u64) } else { (if (wr >> 24u64) & 1u64 == 1u64 { 0u64 | (1u64 << 24u64) } else { 0u64 }) }) }) }) | (1u64 << 28u64) } else { (if (wr >> 27u64) & 1u64 == 1u64 { (if (wr >> 26u64) & 1u64 == 1u64 { (if (wr >> 25u64) & 1u64 == 1u64 { (if (wr >> 24u64) & 1u64 == 1u64 { 0u64 | (1u64 << 24u64) } else { 0u64 }) | (1u64 << 25u64) } else { (if (wr >> 24u64) & 1u64 == 1u64 { 0u64 | (1u64 << 24u64) } else { 0u64 }) }) | (1u64 << 26u64) } else { (if (wr >> 25u64) & 1u64 == 1u64 { (if (wr >> 24u64) & 1u64 == 1u64 { 0u64 | (1u64 << 24u64) } else { 0u64 }) | (1u64 << 25u64) } else { (if (wr >> 24u64) & 1u64 == 1u64 { 0u64 | (1u64 << 24u64) } else { 0u64 }) }) }) | (1u64 << 27u64) } else { (if (wr >> 26u64) & 1u64 == 1u64 { (if (wr >> 25u64) & 1u64 == 1u64 { (if (wr >> 24u64) & 1u64 == 1u64 { 0u64 | (1u64 << 24u64) } else { 0u64 }) | (1u64 << 25u64) } else { (if (wr >> 24u64) & 1u64 == 1u64 { 0u64 | (1u64 << 24u64) } else { 0u64 }) }) | (1u64 << 26u64) } else { (if (wr >> 25u64) & 1u64 == 1u64 { (if (wr >> 24u64) & 1u64 == 1u64 { 0u64 | (1u64 << 24u64) } else { 0u64 }) | (1u64 << 25u64) } else { (if (wr >> 24u64) & 1u64 == 1u64 { 0u64 | (1u64 << 24u64) } else { 0u64 }) }) }) }) }) | (1u64 << 29u64) } else { (if (wr >> 28u64) & 1u64 == 1u64 { (if (wr >> 27u64) & 1u64 == 1u64 { (if (wr >> 26u64) & 1u64 == 1u64 { (if (wr >> 25u64) & 1u64 == 1u64 { (if (wr >> 24u64) & 1u64 == 1u64 { 0u64 | (1u64 << 24u64) } else { 0u64 }) | (1u64 << 25u64) } else { (if (wr >> 24u64) & 1u64 == 1u64 { 0u64 | (1u64 << 24u64) } else { 0u64 }) }) | (1u64 << 26u64) } else { (if (wr >> 25u64) & 1u64 == 1u64 { (if (wr >> 24u64) & 1u64 == 1u64 { 0u64 | (1u64 << 24u64) } else { 0u64 }) | (1u64 << 25u64) } else { (if (wr >> 24u64) & 1u64 == 1u64 { 0u64 | (1u64 << 24u64) } else { 0u64 }) }) }) | (1u64 << 27u64) } else { (if (wr >> 26u64) & 1u64 == 1u64 { (if (wr >> 25u64) & 1u64 == 1u64 { (if (wr >> 24u64) & 1u64 == 1u64 { 0u64 | (1u64 << 24u64) } else { 0u64 }) | (1u64 << 25u64) } else { (if (wr >> 24u64) & 1u64 == 1u64 { 0u64 | (1u64 << 24u64) } else { 0u64 }) }) | (1u64 << 26u64) } else { (if (wr >> 25u64) & 1u64 == 1u64 { (if (wr >> 24u64) & 1u64 == 1u64 { 0u64 | (1u64 << 24u64) } else { 0u64 }) | (1u64 << 25u64) } else { (if (wr >> 24u64) & 1u64 == 1u64 { 0u64 | (1u64 << 24u64) } else { 0u64 }) }) }) }) | (1u64 << 28u64) } else { (if (wr >> 27u64) & 1u64 == 1u64 { (if (wr >> 26u64) & 1u64 == 1u64 { (if (wr >> 25u64) & 1u64 == 1u64 { (if (wr >> 24u64) & 1u64 == 1u64 { 0u64 | (1u64 << 24u64) } else { 0u64 }) | (1u64 << 25u64) } else { (if (wr >> 24u64) & 1u64 == 1u64 { 0u64 | (1u64 << 24u64) } else { 0u64 }) }) | (1u64 << 26u64) } else { (if (wr >> 25u64) & 1u64 == 1u64 { (if (wr >> 24u64) & 1u64 == 1u64 { 0u64 | (1u64 << 24u64) } else { 0u64 }) | (1u64 << 25u64) } else { (if (wr >> 24u64) & 1u64 == 1u64 { 0u64 | (1u64 << 24u64) } else { 0u64 }) }) }) | (1u64 << 27u64) } else { (if (wr >> 26u64) & 1u64 == 1u64 { (if (wr >> 25u64) & 1u64 == 1u64 { (if (wr >> 24u64) & 1u64 == 1u64 { 0u64 | (1u64 << 24u64) } else { 0u64 }) | (1u64 << 25u64) } else { (if (wr >> 24u64) & 1u64 == 1u64 { 0u64 | (1u64 << 24u64) } else { 0u64 }) }) | (1u64 << 26u64) } else { (if (wr >> 25u64) & 1u64 == 1u64 { (if (wr >> 24u64) & 1u64 == 1u64 { 0u64 | (1u64 << 24u64) } else { 0u64 }) | (1u64 << 25u64) } else { (if (wr >> 24u64) & 1u64 == 1u64 { 0u64 | (1u64 << 24u64) } else { 0u64 }) }) }) }) }) }) | (1u64 << 30u64) } else { (if (wr >> 29u64) & 1u64 == 1u64 { (if (wr >> 28u64) & 1u64 == 1u64 { (if (wr >> 27u64) & 1u64 == 1u64 { (if (wr >> 26u64) & 1u64 == 1u64 { (if (wr >> 25u64) & 1u64 == 1u64 { (if (wr >> 24u64) & 1u64 == 1u64 { 0u64 | (1u64 << 24u64) } else { 0u64 }) | (1u64 << 25u64) } else { (if (wr >> 24u64) & 1u64 == 1u64 { 0u64 | (1u64 << 24u64) } else { 0u64 }) }) | (1u64 << 26u64) } else { (if (wr >> 25u64) & 1u64 == 1u64 { (if (wr >> 24u64) & 1u64 == 1u64 { 0u64 | (1u64 << 24u64) } else { 0u64 }) | (1u64 << 25u64) } else { (if (wr >> 24u64) & 1u64 == 1u64 { 0u64 | (1u64 << 24u64) } else { 0u64 }) }) }) | (1u64 << 27u64) } else { (if (wr >> 26u64) & 1u64 == 1u64 { (if (wr >> 25u64) & 1u64 == 1u64 { (if (wr >> 24u64) & 1u64 == 1u64 { 0u64 | (1u64 << 24u64) } else { 0u64 }) | (1u64 << 25u64) } else { (if (wr >> 24u64) & 1u64 == 1u64 { 0u64 | (1u64 << 24u64) } else { 0u64 }) }) | (1u64 << 26u64) } else { (if (wr >> 25u64) & 1u64 == 1u64 { (if (wr >> 24u64) & 1u64 == 1u64 { 0u64 | (1u64 << 24u64) } else { 0u64 }) | (1u64 << 25u64) } else { (if (wr >> 24u64) & 1u64 == 1u64 { 0u64 | (1u64 << 24u64) } else { 0u64 }) }) }) }) | (1u64 << 28u64) } else { (if (wr >> 27u64) & 1u64 == 1u64 { (if (wr >> 26u64) & 1u64 == 1u64 { (if (wr >> 25u64) & 1u64 == 1u64 { (if (wr >> 24u64) & 1u64 == 1u64 { 0u64 | (1u64 << 24u64) } else { 0u64 }) | (1u64 << 25u64) } else { (if (wr >> 24u64) & 1u64 == 1u64 { 0u64 | (1u64 << 24u64) } else { 0u64 }) }) | (1u64 << 26u64) } else { (if (wr >> 25u64) & 1u64 == 1u64 { (if (wr >> 24u64) & 1u64 == 1u64 { 0u64 | (1u64 << 24u64) } else { 0u64 }) | (1u64 << 25u64) } else { (if (wr >> 24u64) & 1u64 == 1u64 { 0u64 | (1u64 << 24u64) } else { 0u64 }) }) }) | (1u64 << 27u64) } else { (if (wr >> 26u64) & 1u64 == 1u64 { (if (wr >> 25u64) & 1u64 == 1u64 { (if (wr >> 24u64) & 1u64 == 1u64 { 0u64 | (1u64 << 24u64) } else { 0u64 }) | (1u64 << 25u64) } else { (if (wr >> 24u64) & 1u64 == 1u64 { 0u64 | (1u64 << 24u64) } else { 0u64 }) }) | (1u64 << 26u64) } else { (if (wr >> 25u64) & 1u64 == 1u64 { (if (wr >> 24u64) & 1u64 == 1u64 { 0u64 | (1u64 << 24u64) } else { 0u64 }) | (1u64 << 25u64) } else { (if (wr >> 24u64) & 1u64 == 1u64 { 0u64 | (1u64 << 24u64) } else { 0u64 }) }) }) }) }) | (1u64 << 29u64) } else { (if (wr >> 28u64) & 1u64 == 1u64 { (if (wr >> 27u64) & 1u64 == 1u64 { (if (wr >> 26u64) & 1u64 == 1u64 { (if (wr >> 25u64) & 1u64 == 1u64 { (if (wr >> 24u64) & 1u64 == 1u64 { 0u64 | (1u64 << 24u64) } else { 0u64 }) | (1u64 << 25u64) } else { (if (wr >> 24u64) & 1u64 == 1u64 { 0u64 | (1u64 << 24u64) } else { 0u64 }) }) | (1u64 << 26u64) } else { (if (wr >> 25u64) & 1u64 == 1u64 { (if (wr >> 24u64) & 1u64 == 1u64 { 0u64 | (1u64 << 24u64) } else { 0u64 }) | (1u64 << 25u64) } else { (if (wr >> 24u64) & 1u64 == 1u64 { 0u64 | (1u64 << 24u64) } else { 0u64 }) }) }) | (1u64 << 27u64) } else { (if (wr >> 26u64) & 1u64 == 1u64 { (if (wr >> 25u64) & 1u64 == 1u64 { (if (wr >> 24u64) & 1u64 == 1u64 { 0u64 | (1u64 << 24u64) } else { 0u64 }) | (1u64 << 25u64) } else { (if (wr >> 24u64) & 1u64 == 1u64 { 0u64 | (1u64 << 24u64) } else { 0u64 }) }) | (1u64 << 26u64) } else { (if (wr >> 25u64) & 1u64 == 1u64 { (if (wr >> 24u64) & 1u64 == 1u64 { 0u64 | (1u64 << 24u64) } else { 0u64 }) | (1u64 << 25u64) } else { (if (wr >> 24u64) & 1u64 == 1u64 { 0u64 | (1u64 << 24u64) } else { 0u64 }) }) }) }) | (1u64 << 28u64) } else { (if (wr >> 27u64) & 1u64 == 1u64 { (if (wr >> 26u64) & 1u64 == 1u64 { (if (wr >> 25u64) & 1u64 == 1u64 { (if (wr >> 24u64) & 1u64 == 1u64 { 0u64 | (1u64 << 24u64) } else { 0u64 }) | (1u64 << 25u64) } else { (if (wr >> 24u64) & 1u64 == 1u64 { 0u64 | (1u64 << 24u64) } else { 0u64 }) }) | (1u64 << 26u64) } else { (if (wr >> 25u64) & 1u64 == 1u64 { (if (wr >> 24u64) & 1u64 == 1u64 { 0u64 | (1u64 << 24u64) } else { 0u64 }) | (1u64 << 25u64) } else { (if (wr >> 24u64) & 1u64 == 1u64 { 0u64 | (1u64 << 24u64) } else { 0u64 }) }) }) | (1u64 << 27u64) } else { (if (wr >> 26u64) & 1u64 == 1u64 { (if (wr >> 25u64) & 1u64 == 1u64 { (if (wr >> 24u64) & 1u64 == 1u64 { 0u64 | (1u64 << 24u64) } else { 0u64 }) | (1u64 << 25u64) } else { (if (wr >> 24u64) & 1u64 == 1u64 { 0u64 | (1u64 << 24u64) } else { 0u64 }) }) | (1u64 << 26u64) } else { (if (wr >> 25u64) & 1u64 == 1u64 { (if (wr >> 24u64) & 1u64 == 1u64 { 0u64 | (1u64 << 24u64) } else { 0u64 }) | (1u64 << 25u64) } else { (if (wr >> 24u64) & 1u64 == 1u64 { 0u64 | (1u64 << 24u64) } else { 0u64 }) }) }) }) }) }) }) | (1u64 << 31u64) } else { (if (wr >> 30u64) & 1u64 == 1u64 { (if (wr >> 29u64) & 1u64 == 1u64 { (if (wr >> 28u64) & 1u64 == 1u64 { (if (wr >> 27u64) & 1u64 == 1u64 { (if (wr >> 26u64) & 1u64 == 1u64 { (if (wr >> 25u64) & 1u64 == 1u64 { (if (wr >> 24u64) & 1u64 == 1u64 { 0u64 | (1u64 << 24u64) } else { 0u64 }) | (1u64 << 25u64) } else { (if (wr >> 24u64) & 1u64 == 1u64 { 0u64 | (1u64 << 24u64) } else { 0u64 }) }) | (1u64 << 26u64) } else { (if (wr >> 25u64) & 1u64 == 1u64 { (if (wr >> 24u64) & 1u64 == 1u64 { 0u64 | (1u64 << 24u64) } else { 0u64 }) | (1u64 << 25u64) } else { (if (wr >> 24u64) & 1u64 == 1u64 { 0u64 | (1u64 << 24u64) } else { 0u64 }) }) }) | (1u64 << 27u64) } else { (if (wr >> 26u64) & 1u64 == 1u64 { (if (wr >> 25u64) & 1u64 == 1u64 { (if (wr >> 24u64) & 1u64 == 1u64 { 0u64 | (1u64 << 24u64) } else { 0u64 }) | (1u64 << 25u64) } else { (if (wr >> 24u64) & 1u64 == 1u64 { 0u64 | (1u64 << 24u64) } else { 0u64 }) }) | (1u64 << 26u64) } else { (if (wr >> 25u64) & 1u64 == 1u64 { (if (wr >> 24u64) & 1u64 == 1u64 { 0u64 | (1u64 << 24u64) } else { 0u64 }) | (1u64 << 25u64) } else { (if (wr >> 24u64) & 1u64 == 1u64 { 0u64 | (1u64 << 24u64) } else { 0u64 }) }) }) }) | (1u64 << 28u64) } else { (if (wr >> 27u64) & 1u64 == 1u64 { (if (wr >> 26u64) & 1u64 == 1u64 { (if (wr >> 25u64) & 1u64 == 1u64 { (if (wr >> 24u64) & 1u64 == 1u64 { 0u64 | (1u64 << 24u64) } else { 0u64 }) | (1u64 << 25u64) } else { (if (wr >> 24u64) & 1u64 == 1u64 { 0u64 | (1u64 << 24u64) } else { 0u64 }) }) | (1u64 << 26u64) } else { (if (wr >> 25u64) & 1u64 == 1u64 { (if (wr >> 24u64) & 1u64 == 1u64 { 0u64 | (1u64 << 24u64) } else { 0u64 }) | (1u64 << 25u64) } else { (if (wr >> 24u64) & 1u64 == 1u64 { 0u64 | (1u64 << 24u64) } else { 0u64 }) }) }) | (1u64 << 27u64) } else { (if (wr >> 26u64) & 1u64 == 1u64 { (if (wr >> 25u64) & 1u64 == 1u64 { (if (wr >> 24u64) & 1u64 == 1u64 { 0u64 | (1u64 << 24u64) } else { 0u64 }) | (1u64 << 25u64) } else { (if (wr >> 24u64) & 1u64 == 1u64 { 0u64 | (1u64 << 24u64) } else { 0u64 }) }) | (1u64 << 26u64) } else { (if (wr >> 25u64) & 1u64 == 1u64 { (if (wr >> 24u64) & 1u64 == 1u64 { 0u64 | (1u64 << 24u64) } else { 0u64 }) | (1u64 << 25u64) } else { (if (wr >> 24u64) & 1u64 == 1u64 { 0u64 | (1u64 << 24u64) } else { 0u64 }) }) }) }) }) | (1u64 << 29u64) } else { (if (wr >> 28u64) & 1u64 == 1u64 { (if (wr >> 27u64) & 1u64 == 1u64 { (if (wr >> 26u64) & 1u64 == 1u64 { (if (wr >> 25u64) & 1u64 == 1u64 { (if (wr >> 24u64) & 1u64 == 1u64 { 0u64 | (1u64 << 24u64) } else { 0u64 }) | (1u64 << 25u64) } else { (if (wr >> 24u64) & 1u64 == 1u64 { 0u64 | (1u64 << 24u64) } else { 0u64 }) }) | (1u64 << 26u64) } else { (if (wr >> 25u64) & 1u64 == 1u64 { (if (wr >> 24u64) & 1u64 == 1u64 { 0u64 | (1u64 << 24u64) } else { 0u64 }) | (1u64 << 25u64) } else { (if (wr >> 24u64) & 1u64 == 1u64 { 0u64 | (1u64 << 24u64) } else { 0u64 }) }) }) | (1u64 << 27u64) } else { (if (wr >> 26u64) & 1u64 == 1u64 { (if (wr >> 25u64) & 1u64 == 1u64 { (if (wr >> 24u64) & 1u64 == 1u64 { 0u64 | (1u64 << 24u64) } else { 0u64 }) | (1u64 << 25u64) } else { (if (wr >> 24u64) & 1u64 == 1u64 { 0u64 | (1u64 << 24u64) } else { 0u64 }) }) | (1u64 << 26u64) } else { (if (wr >> 25u64) & 1u64 == 1u64 { (if (wr >> 24u64) & 1u64 == 1u64 { 0u64 | (1u64 << 24u64) } else { 0u64 }) | (1u64 << 25u64) } else { (if (wr >> 24u64) & 1u64 == 1u64 { 0u64 | (1u64 << 24u64) } else { 0u64 }) }) }) }) | (1u64 << 28u64) } else { (if (wr >> 27u64) & 1u64 == 1u64 { (if (wr >> 26u64) & 1u64 == 1u64 { (if (wr >> 25u64) & 1u64 == 1u64 { (if (wr >> 24u64) & 1u64 == 1u64 { 0u64 | (1u64 << 24u64) } else { 0u64 }) | (1u64 << 25u64) } else { (if (wr >> 24u64) & 1u64 == 1u64 { 0u64 | (1u64 << 24u64) } else { 0u64 }) }) | (1u64 << 26u64) } else { (if (wr >> 25u64) & 1u64 == 1u64 { (if (wr >> 24u64) & 1u64 == 1u64 { 0u64 | (1u64 << 24u64) } else { 0u64 }) | (1u64 << 25u64) } else { (if (wr >> 24u64) & 1u64 == 1u64 { 0u64 | (1u64 << 24u64) } else { 0u64 }) }) }) | (1u64 << 27u64) } else { (if (wr >> 26u64) & 1u64 == 1u64 { (if (wr >> 25u64) & 1u64 == 1u64 { (if (wr >> 24u64) & 1u64 == 1u64 { 0u64 | (1u64 << 24u64) } else { 0u64 }) | (1u64 << 25u64) } else { (if (wr >> 24u64) & 1u64 == 1u64 { 0u64 | (1u64 << 24u64) } else { 0u64 }) }) | (1u64 << 26u64) } else { (if (wr >> 25u64) & 1u64 == 1u64 { (if (wr >> 24u64) & 1u64 == 1u64 { 0u64 | (1u64 << 24u64) } else { 0u64 }) | (1u64 << 25u64) } else { (if (wr >> 24u64) & 1u64 == 1u64 { 0u64 | (1u64 << 24u64) } else { 0u64 }) }) }) }) }) }) | (1u64 << 30u64) } else { (if (wr >> 29u64) & 1u64 == 1u64 { (if (wr >> 28u64) & 1u64 == 1u64 { (if (wr >> 27u64) & 1u64 == 1u64 { (if (wr >> 26u64) & 1u64 == 1u64 { (if (wr >> 25u64) & 1u64 == 1u64 { (if (wr >> 24u64) & 1u64 == 1u64 { 0u64 | (1u64 << 24u64) } else { 0u64 }) | (1u64 << 25u64) } else { (if (wr >> 24u64) & 1u64 == 1u64 { 0u64 | (1u64 << 24u64) } else { 0u64 }) }) | (1u64 << 26u64) } else { (if (wr >> 25u64) & 1u64 == 1u64 { (if (wr >> 24u64) & 1u64 == 1u64 { 0u64 | (1u64 << 24u64) } else { 0u64 }) | (1u64 << 25u64) } else { (if (wr >> 24u64) & 1u64 == 1u64 { 0u64 | (1u64 << 24u64) } else { 0u64 }) }) }) | (1u64 << 27u64) } else { (if (wr >> 26u64) & 1u64 == 1u64 { (if (wr >> 25u64) & 1u64 == 1u64 { (if (wr >> 24u64) & 1u64 == 1u64 { 0u64 | (1u64 << 24u64) } else { 0u64 }) | (1u64 << 25u64) } else { (if (wr >> 24u64) & 1u64 == 1u64 { 0u64 | (1u64 << 24u64) } else { 0u64 }) }) | (1u64 << 26u64) } else { (if (wr >> 25u64) & 1u64 == 1u64 { (if (wr >> 24u64) & 1u64 == 1u64 { 0u64 | (1u64 << 24u64) } else { 0u64 }) | (1u64 << 25u64) } else { (if (wr >> 24u64) & 1u64 == 1u64 { 0u64 | (1u64 << 24u64) } else { 0u64 }) }) }) }) | (1u64 << 28u64) } else { (if (wr >> 27u64) & 1u64 == 1u64 { (if (wr >> 26u64) & 1u64 == 1u64 { (if (wr >> 25u64) & 1u64 == 1u64 { (if (wr >> 24u64) & 1u64 == 1u64 { 0u64 | (1u64 << 24u64) } else { 0u64 }) | (1u64 << 25u64) } else { (if (wr >> 24u64) & 1u64 == 1u64 { 0u64 | (1u64 << 24u64) } else { 0u64 }) }) | (1u64 << 26u64) } else { (if (wr >> 25u64) & 1u64 == 1u64 { (if (wr >> 24u64) & 1u64 == 1u64 { 0u64 | (1u64 << 24u64) } else { 0u64 }) | (1u64 << 25u64) } else { (if (wr >> 24u64) & 1u64 == 1u64 { 0u64 | (1u64 << 24u64) } else { 0u64 }) }) }) | (1u64 << 27u64) } else { (if (wr >> 26u64) & 1u64 == 1u64 { (if (wr >> 25u64) & 1u64 == 1u64 { (if (wr >> 24u64) & 1u64 == 1u64 { 0u64 | (1u64 << 24u64) } else { 0u64 }) | (1u64 << 25u64) } else { (if (wr >> 24u64) & 1u64 == 1u64 { 0u64 | (1u64 << 24u64) } else { 0u64 }) }) | (1u64 << 26u64) } else { (if (wr >> 25u64) & 1u64 == 1u64 { (if (wr >> 24u64) & 1u64 == 1u64 { 0u64 | (1u64 << 24u64) } else { 0u64 }) | (1u64 << 25u64) } else { (if (wr >> 24u64) & 1u64 == 1u64 { 0u64 | (1u64 << 24u64) } else { 0u64 }) }) }) }) }) | (1u64 << 29u64) } else { (if (wr >> 28u64) & 1u64 == 1u64 { (if (wr >> 27u64) & 1u64 == 1u64 { (if (wr >> 26u64) & 1u64 == 1u64 { (if (wr >> 25u64) & 1u64 == 1u64 { (if (wr >> 24u64) & 1u64 == 1u64 { 0u64 | (1u64 << 24u64) } else { 0u64 }) | (1u64 << 25u64) } else { (if (wr >> 24u64) & 1u64 == 1u64 { 0u64 | (1u64 << 24u64) } else { 0u64 }) }) | (1u64 << 26u64) } else { (if (wr >> 25u64) & 1u64 == 1u64 { (if (wr >> 24u64) & 1u64 == 1u64 { 0u64 | (1u64 << 24u64) } else { 0u64 }) | (1u64 << 25u64) } else { (if (wr >> 24u64) & 1u64 == 1u64 { 0u64 | (1u64 << 24u64) } else { 0u64 }) }) }) | (1u64 << 27u64) } else { (if (wr >> 26u64) & 1u64 == 1u64 { (if (wr >> 25u64) & 1u64 == 1u64 { (if (wr >> 24u64) & 1u64 == 1u64 { 0u64 | (1u64 << 24u64) } else { 0u64 }) | (1u64 << 25u64) } else { (if (wr >> 24u64) & 1u64 == 1u64 { 0u64 | (1u64 << 24u64) } else { 0u64 }) }) | (1u64 << 26u64) } else { (if (wr >> 25u64) & 1u64 == 1u64 { (if (wr >> 24u64) & 1u64 == 1u64 { 0u64 | (1u64 << 24u64) } else { 0u64 }) | (1u64 << 25u64) } else { (if (wr >> 24u64) & 1u64 == 1u64 { 0u64 | (1u64 << 24u64) } else { 0u64 }) }) }) }) | (1u64 << 28u64) } else { (if (wr >> 27u64) & 1u64 == 1u64 { (if (wr >> 26u64) & 1u64 == 1u64 { (if (wr >> 25u64) & 1u64 == 1u64 { (if (wr >> 24u64) & 1u64 == 1u64 { 0u64 | (1u64 << 24u64) } else { 0u64 }) | (1u64 << 25u64) } else { (if (wr >> 24u64) & 1u64 == 1u64 { 0u64 | (1u64 << 24u64) } else { 0u64 }) }) | (1u64 << 26u64) } else { (if (wr >> 25u64) & 1u64 == 1u64 { (if (wr >> 24u64) & 1u64 == 1u64 { 0u64 | (1u64 << 24u64) } else { 0u64 }) | (1u64 << 25u64) } else { (if (wr >> 24u64) & 1u64 == 1u64 { 0u64 | (1u64 << 24u64) } else { 0u64 }) }) }) | (1u64 << 27u64) } else { (if (wr >> 26u64) & 1u64 == 1u64 { (if (wr >> 25u64) & 1u64 == 1u64 { (if (wr >> 24u64) & 1u64 == 1u64 { 0u64 | (1u64 << 24u64) } else { 0u64 }) | (1u64 << 25u64) } else { (if (wr >> 24u64) & 1u64 == 1u64 { 0u64 | (1u64 << 24u64) } else { 0u64 }) }) | (1u64 << 26u64) } else { (if (wr >> 25u64) & 1u64 == 1u64 { (if (wr >> 24u64) & 1u64 == 1u64 { 0u64 | (1u64 << 24u64) } else { 0u64 }) | (1u64 << 25u64) } else { (if (wr >> 24u64) & 1u64 == 1u64 { 0u64 | (1u64 << 24u64) } else { 0u64 }) }) }) }) }) }) }) }) | (1u64 << 23u64) } else { (if (wr >> 31u64) & 1u64 == 1u64 { (if (wr >> 30u64) & 1u64 == 1u64 { (if (wr >> 29u64) & 1u64 == 1u64 { (if (wr >> 28u64) & 1u64 == 1u64 { (if (wr >> 27u64) & 1u64 == 1u64 { (if (wr >> 26u64) & 1u64 == 1u64 { (if (wr >> 25u64) & 1u64 == 1u64 { (if (wr >> 24u64) & 1u64 == 1u64 { 0u64 | (1u64 << 24u64) } else { 0u64 }) | (1u64 << 25u64) } else { (if (wr >> 24u64) & 1u64 == 1u64 { 0u64 | (1u64 << 24u64) } else { 0u64 }) }) | (1u64 << 26u64) } else { (if (wr >> 25u64) & 1u64 == 1u64 { (if (wr >> 24u64) & 1u64 == 1u64 { 0u64 | (1u64 << 24u64) } else { 0u64 }) | (1u64 << 25u64) } else { (if (wr >> 24u64) & 1u64 == 1u64 { 0u64 | (1u64 << 24u64) } else { 0u64 }) }) }) | (1u64 << 27u64) } else { (if (wr >> 26u64) & 1u64 == 1u64 { (if (wr >> 25u64) & 1u64 == 1u64 { (if (wr >> 24u64) & 1u64 == 1u64 { 0u64 | (1u64 << 24u64) } else { 0u64 }) | (1u64 << 25u64) } else { (if (wr >> 24u64) & 1u64 == 1u64 { 0u64 | (1u64 << 24u64) } else { 0u64 }) }) | (1u64 << 26u64) } else { (if (wr >> 25u64) & 1u64 == 1u64 { (if (wr >> 24u64) & 1u64 == 1u64 { 0u64 | (1u64 << 24u64) } else { 0u64 }) | (1u64 << 25u64) } else { (if (wr >> 24u64) & 1u64 == 1u64 { 0u64 | (1u64 << 24u64) } else { 0u64 }) }) }) }) | (1u64 << 28u64) } else { (if (wr >> 27u64) & 1u64 == 1u64 { (if (wr >> 26u64) & 1u64 == 1u64 { (if (wr >> 25u64) & 1u64 == 1u64 { (if (wr >> 24u64) & 1u64 == 1u64 { 0u64 | (1u64 << 24u64) } else { 0u64 }) | (1u64 << 25u64) } else { (if (wr >> 24u64) & 1u64 == 1u64 { 0u64 | (1u64 << 24u64) } else { 0u64 }) }) | (1u64 << 26u64) } else { (if (wr >> 25u64) & 1u64 == 1u64 { (if (wr >> 24u64) & 1u64 == 1u64 { 0u64 | (1u64 << 24u64) } else { 0u64 }) | (1u64 << 25u64) } else { (if (wr >> 24u64) & 1u64 == 1u64 { 0u64 | (1u64 << 24u64) } else { 0u64 }) }) }) | (1u64 << 27u64) } else { (if (wr >> 26u64) & 1u64 == 1u64 { (if (wr >> 25u64) & 1u64 == 1u64 { (if (wr >> 24u64) & 1u64 == 1u64 { 0u64 | (1u64 << 24u64) } else { 0u64 }) | (1u64 << 25u64) } else { (if (wr >> 24u64) & 1u64 == 1u64 { 0u64 | (1u64 << 24u64) } else { 0u64 }) }) | (1u64 << 26u64) } else { (if (wr >> 25u64) & 1u64 == 1u64 { (if (wr >> 24u64) & 1u64 == 1u64 { 0u64 | (1u64 << 24u64) } else { 0u64 }) | (1u64 << 25u64) } else { (if (wr >> 24u64) & 1u64 == 1u64 { 0u64 | (1u64 << 24u64) } else { 0u64 }) }) }) }) }) | (1u64 << 29u64) } else { (if (wr >> 28u64) & 1u64 == 1u64 { (if (wr >> 27u64) & 1u64 == 1u64 { (if (wr >> 26u64) & 1u64 == 1u64 { (if (wr >> 25u64) & 1u64 == 1u64 { (if (wr >> 24u64) & 1u64 == 1u64 { 0u64 | (1u64 << 24u64) } else { 0u64 }) | (1u64 << 25u64) } else { (if (wr >> 24u64) & 1u64 == 1u64 { 0u64 | (1u64 << 24u64) } else { 0u64 }) }) | (1u64 << 26u64) } else { (if (wr >> 25u64) & 1u64 == 1u64 { (if (wr >> 24u64) & 1u64 == 1u64 { 0u64 | (1u64 << 24u64) } else { 0u64 }) | (1u64 << 25u64) } else { (if (wr >> 24u64) & 1u64 == 1u64 { 0u64 | (1u64 << 24u64) } else { 0u64 }) }) }) | (1u64 << 27u64) } else { (if (wr >> 26u64) & 1u64 == 1u64 { (if (wr >> 25u64) & 1u64 == 1u64 { (if (wr >> 24u64) & 1u64 == 1u64 { 0u64 | (1u64 << 24u64) } else { 0u64 }) | (1u64 << 25u64) } else { (if (wr >> 24u64) & 1u64 == 1u64 { 0u64 | (1u64 << 24u64) } else { 0u64 }) }) | (1u64 << 26u64) } else { (if (wr >> 25u64) & 1u64 == 1u64 { (if (wr >> 24u64) & 1u64 == 1u64 { 0u64 | (1u64 << 24u64) } else { 0u64 }) | (1u64 << 25u64) } else { (if (wr >> 24u64) & 1u64 == 1u64 { 0u64 | (1u64 << 24u64) } else { 0u64 }) }) }) }) | (1u64 << 28u64) } else { (if (wr >> 27u64) & 1u64 == 1u64 { (if (wr >> 26u64) & 1u64 == 1u64 { (if (wr >> 25u64) & 1u64 == 1u64 { (if (wr >> 24u64) & 1u64 == 1u64 { 0u64 | (1u64 << 24u64) } else { 0u64 }) | (1u64 << 25u64) } else { (if (wr >> 24u64) & 1u64 == 1u64 { 0u64 | (1u64 << 24u64) } else { 0u64 }) }) | (1u64 << 26u64) } else { (if (wr >> 25u64) & 1u64 == 1u64 { (if (wr >> 24u64) & 1u64 == 1u64 { 0u64 | (1u64 << 24u64) } else { 0u64 }) | (1u64 << 25u64) } else { (if (wr >> 24u64) & 1u64 == 1u64 { 0u64 | (1u64 << 24u64) } else { 0u64 }) }) }) | (1u64 << 27u64) } else { (if (wr >> 26u64) & 1u64 == 1u64 { (if (wr >> 25u64) & 1u64 == 1u64 { (if (wr >> 24u64) & 1u64 == 1u64 { 0u64 | (1u64 << 24u64) } else { 0u64 }) | (1u64 << 25u64) } else { (if (wr >> 24u64) & 1u64 == 1u64 { 0u64 | (1u64 << 24u64) } else { 0u64 }) }) | (1u64 << 26u64) } else { (if (wr >> 25u64) & 1u64 == 1u64 { (if (wr >> 24u64) & 1u64 == 1u64 { 0u64 | (1u64 << 24u64) } else { 0u64 }) | (1u64 << 25u64) } else { (if (wr >> 24u64) & 1u64 == 1u64 { 0u64 | (1u64 << 24u64) } else { 0u64 }) }) }) }) }) }) | (1u64 << 30u64) } else { (if (wr >> 29u64) & 1u64 == 1u64 { (if (wr >> 28u64) & 1u64 == 1u64 { (if (wr >> 27u64) & 1u64 == 1u64 { (if (wr >> 26u64) & 1u64 == 1u64 { (if (wr >> 25u64) & 1u64 == 1u64 { (if (wr >> 24u64) & 1u64 == 1u64 { 0u64 | (1u64 << 24u64) } else { 0u64 }) | (1u64 << 25u64) } else { (if (wr >> 24u64) & 1u64 == 1u64 { 0u64 | (1u64 << 24u64) } else { 0u64 }) }) | (1u64 << 26u64) } else { (if (wr >> 25u64) & 1u64 == 1u64 { (if (wr >> 24u64) & 1u64 == 1u64 { 0u64 | (1u64 << 24u64) } else { 0u64 }) | (1u64 << 25u64) } else { (if (wr >> 24u64) & 1u64 == 1u64 { 0u64 | (1u64 << 24u64) } else { 0u64 }) }) }) | (1u64 << 27u64) } else { (if (wr >> 26u64) & 1u64 == 1u64 { (if (wr >> 25u64) & 1u64 == 1u64 { (if (wr >> 24u64) & 1u64 == 1u64 { 0u64 | (1u64 << 24u64) } else { 0u64 }) | (1u64 << 25u64) } else { (if (wr >> 24u64) & 1u64 == 1u64 { 0u64 | (1u64 << 24u64) } else { 0u64 }) }) | (1u64 << 26u64) } else { (if (wr >> 25u64) & 1u64 == 1u64 { (if (wr >> 24u64) & 1u64 == 1u64 { 0u64 | (1u64 << 24u64) } else { 0u64 }) | (1u64 << 25u64) } else { (if (wr >> 24u64) & 1u64 == 1u64 { 0u64 | (1u64 << 24u64) } else { 0u64 }) }) }) }) | (1u64 << 28u64) } else { (if (wr >> 27u64) & 1u64 == 1u64 { (if (wr >> 26u64) & 1u64 == 1u64 { (if (wr >> 25u64) & 1u64 == 1u64 { (if (wr >> 24u64) & 1u64 == 1u64 { 0u64 | (1u64 << 24u64) } else { 0u64 }) | (1u64 << 25u64) } else { (if (wr >> 24u64) & 1u64 == 1u64 { 0u64 | (1u64 << 24u64) } else { 0u64 }) }) | (1u64 << 26u64) } else { (if (wr >> 25u64) & 1u64 == 1u64 { (if (wr >> 24u64) & 1u64 == 1u64 { 0u64 | (1u64 << 24u64) } else { 0u64 }) | (1u64 << 25u64) } else { (if (wr >> 24u64) & 1u64 == 1u64 { 0u64 | (1u64 << 24u64) } else { 0u64 }) }) }) | (1u64 << 27u64) } else { (if (wr >> 26u64) & 1u64 == 1u64 { (if (wr >> 25u64) & 1u64 == 1u64 { (if (wr >> 24u64) & 1u64 == 1u64 { 0u64 | (1u64 << 24u64) } else { 0u64 }) | (1u64 << 25u64) } else { (if (wr >> 24u64) & 1u64 == 1u64 { 0u64 | (1u64 << 24u64) } else { 0u64 }) }) | (1u64 << 26u64) } else { (if (wr >> 25u64) & 1u64 == 1u64 { (if (wr >> 24u64) & 1u64 == 1u64 { 0u64 | (1u64 << 24u64) } else { 0u64 }) | (1u64 << 25u64) } else { (if (wr >> 24u64) & 1u64 == 1u64 { 0u64 | (1u64 << 24u64) } else { 0u64 }) }) }) }) }) | (1u64 << 29u64) } else { (if (wr >> 28u64) & 1u64 == 1u64 { (if (wr >> 27u64) & 1u64 == 1u64 { (if (wr >> 26u64) & 1u64 == 1u64 { (if (wr >> 25u64) & 1u64 == 1u64 { (if (wr >> 24u64) & 1u64 == 1u64 { 0u64 | (1u64 << 24u64) } else { 0u64 }) | (1u64 << 25u64) } else { (if (wr >> 24u64) & 1u64 == 1u64 { 0u64 | (1u64 << 24u64) } else { 0u64 }) }) | (1u64 << 26u64) } else { (if (wr >> 25u64) & 1u64 == 1u64 { (if (wr >> 24u64) & 1u64 == 1u64 { 0u64 | (1u64 << 24u64) } else { 0u64 }) | (1u64 << 25u64) } else { (if (wr >> 24u64) & 1u64 == 1u64 { 0u64 | (1u64 << 24u64) } else { 0u64 }) }) }) | (1u64 << 27u64) } else { (if (wr >> 26u64) & 1u64 == 1u64 { (if (wr >> 25u64) & 1u64 == 1u64 { (if (wr >> 24u64) & 1u64 == 1u64 { 0u64 | (1u64 << 24u64) } else { 0u64 }) | (1u64 << 25u64) } else { (if (wr >> 24u64) & 1u64 == 1u64 { 0u64 | (1u64 << 24u64) } else { 0u64 }) }) | (1u64 << 26u64) } else { (if (wr >> 25u64) & 1u64 == 1u64 { (if (wr >> 24u64) & 1u64 == 1u64 { 0u64 | (1u64 << 24u64) } else { 0u64 }) | (1u64 << 25u64) } else { (if (wr >> 24u64) & 1u64 == 1u64 { 0u64 | (1u64 << 24u64) } else { 0u64 }) }) }) }) | (1u64 << 28u64) } else { (if (wr >> 27u64) & 1u64 == 1u64 { (if (wr >> 26u64) & 1u64 == 1u64 { (if (wr >> 25u64) & 1u64 == 1u64 { (if (wr >> 24u64) & 1u64 == 1u64 { 0u64 | (1u64 << 24u64) } else { 0u64 }) | (1u64 << 25u64) } else { (if (wr >> 24u64) & 1u64 == 1u64 { 0u64 | (1u64 << 24u64) } else { 0u64 }) }) | (1u64 << 26u64) } else { (if (wr >> 25u64) & 1u64 == 1u64 { (if (wr >> 24u64) & 1u64 == 1u64 { 0u64 | (1u64 << 24u64) } else { 0u64 }) | (1u64 << 25u64) } else { (if (wr >> 24u64) & 1u64 == 1u64 { 0u64 | (1u64 << 24u64) } else { 0u64 }) }) }) | (1u64 << 27u64) } else { (if (wr >> 26u64) & 1u64 == 1u64 { (if (wr >> 25u64) & 1u64 == 1u64 { (if (wr >> 24u64) & 1u64 == 1u64 { 0u64 | (1u64 << 24u64) } else { 0u64 }) | (1u64 << 25u64) } else { (if (wr >> 24u64) & 1u64 == 1u64 { 0u64 | (1u64 << 24u64) } else { 0u64 }) }) | (1u64 << 26u64) } else { (if (wr >> 25u64) & 1u64 == 1u64 { (if (wr >> 24u64) & 1u64 == 1u64 { 0u64 | (1u64 << 24u64) } else { 0u64 }) | (1u64 << 25u64) } else { (if (wr >> 24u64) & 1u64 == 1u64 { 0u64 | (1u64 << 24u64) } else { 0u64 }) }) }) }) }) }) }) | (1u64 << 31u64) } else { (if (wr >> 30u64) & 1u64 == 1u64 { (if (wr >> 29u64) & 1u64 == 1u64 { (if (wr >> 28u64) & 1u64 == 1u64 { (if (wr >> 27u64) & 1u64 == 1u64 { (if (wr >> 26u64) & 1u64 == 1u64 { (if (wr >> 25u64) & 1u64 == 1u64 { (if (wr >> 24u64) & 1u64 == 1u64 { 0u64 | (1u64 << 24u64) } else { 0u64 }) | (1u64 << 25u64) } else { (if (wr >> 24u64) & 1u64 == 1u64 { 0u64 | (1u64 << 24u64) } else { 0u64 }) }) | (1u64 << 26u64) } else { (if (wr >> 25u64) & 1u64 == 1u64 { (if (wr >> 24u64) & 1u64 == 1u64 { 0u64 | (1u64 << 24u64) } else { 0u64 }) | (1u64 << 25u64) } else { (if (wr >> 24u64) & 1u64 == 1u64 { 0u64 | (1u64 << 24u64) } else { 0u64 }) }) }) | (1u64 << 27u64) } else { (if (wr >> 26u64) & 1u64 == 1u64 { (if (wr >> 25u64) & 1u64 == 1u64 { (if (wr >> 24u64) & 1u64 == 1u64 { 0u64 | (1u64 << 24u64) } else { 0u64 }) | (1u64 << 25u64) } else { (if (wr >> 24u64) & 1u64 == 1u64 { 0u64 | (1u64 << 24u64) } else { 0u64 }) }) | (1u64 << 26u64) } else { (if (wr >> 25u64) & 1u64 == 1u64 { (if (wr >> 24u64) & 1u64 == 1u64 { 0u64 | (1u64 << 24u64) } else { 0u64 }) | (1u64 << 25u64) } else { (if (wr >> 24u64) & 1u64 == 1u64 { 0u64 | (1u64 << 24u64) } else { 0u64 }) }) }) }) | (1u64 << 28u64) } else { (if (wr >> 27u64) & 1u64 == 1u64 { (if (wr >> 26u64) & 1u64 == 1u64 { (if (wr >> 25u64) & 1u64 == 1u64 { (if (wr >> 24u64) & 1u64 == 1u64 { 0u64 | (1u64 << 24u64) } else { 0u64 }) | (1u64 << 25u64) } else { (if (wr >> 24u64) & 1u64 == 1u64 { 0u64 | (1u64 << 24u64) } else { 0u64 }) }) | (1u64 << 26u64) } else { (if (wr >> 25u64) & 1u64 == 1u64 { (if (wr >> 24u64) & 1u64 == 1u64 { 0u64 | (1u64 << 24u64) } else { 0u64 }) | (1u64 << 25u64) } else { (if (wr >> 24u64) & 1u64 == 1u64 { 0u64 | (1u64 << 24u64) } else { 0u64 }) }) }) | (1u64 << 27u64) } else { (if (wr >> 26u64) & 1u64 == 1u64 { (if (wr >> 25u64) & 1u64 == 1u64 { (if (wr >> 24u64) & 1u64 == 1u64 { 0u64 | (1u64 << 24u64) } else { 0u64 }) | (1u64 << 25u64) } else { (if (wr >> 24u64) & 1u64 == 1u64 { 0u64 | (1u64 << 24u64) } else { 0u64 }) }) | (1u64 << 26u64) } else { (if (wr >> 25u64) & 1u64 == 1u64 { (if (wr >> 24u64) & 1u64 == 1u64 { 0u64 | (1u64 << 24u64) } else { 0u64 }) | (1u64 << 25u64) } else { (if (wr >> 24u64) & 1u64 == 1u64 { 0u64 | (1u64 << 24u64) } else { 0u64 }) }) }) }) }) | (1u64 << 29u64) } else { (if (wr >> 28u64) & 1u64 == 1u64 { (if (wr >> 27u64) & 1u64 == 1u64 { (if (wr >> 26u64) & 1u64 == 1u64 { (if (wr >> 25u64) & 1u64 == 1u64 { (if (wr >> 24u64) & 1u64 == 1u64 { 0u64 | (1u64 << 24u64) } else { 0u64 }) | (1u64 << 25u64) } else { (if (wr >> 24u64) & 1u64 == 1u64 { 0u64 | (1u64 << 24u64) } else { 0u64 }) }) | (1u64 << 26u64) } else { (if (wr >> 25u64) & 1u64 == 1u64 { (if (wr >> 24u64) & 1u64 == 1u64 { 0u64 | (1u64 << 24u64) } else { 0u64 }) | (1u64 << 25u64) } else { (if (wr >> 24u64) & 1u64 == 1u64 { 0u64 | (1u64 << 24u64) } else { 0u64 }) }) }) | (1u64 << 27u64) } else { (if (wr >> 26u64) & 1u64 == 1u64 { (if (wr >> 25u64) & 1u64 == 1u64 { (if (wr >> 24u64) & 1u64 == 1u64 { 0u64 | (1u64 << 24u64) } else { 0u64 }) | (1u64 << 25u64) } else { (if (wr >> 24u64) & 1u64 == 1u64 { 0u64 | (1u64 << 24u64) } else { 0u64 }) }) | (1u64 << 26u64) } else { (if (wr >> 25u64) & 1u64 == 1u64 { (if (wr >> 24u64) & 1u64 == 1u64 { 0u64 | (1u64 << 24u64) } else { 0u64 }) | (1u64 << 25u64) } else { (if (wr >> 24u64) & 1u64 == 1u64 { 0u64 | (1u64 << 24u64) } else { 0u64 }) }) }) }) | (1u64 << 28u64) } else { (if (wr >> 27u64) & 1u64 == 1u64 { (if (wr >> 26u64) & 1u64 == 1u64 { (if (wr >> 25u64) & 1u64 == 1u64 { (if (wr >> 24u64) & 1u64 == 1u64 { 0u64 | (1u64 << 24u64) } else { 0u64 }) | (1u64 << 25u64) } else { (if (wr >> 24u64) & 1u64 == 1u64 { 0u64 | (1u64 << 24u64) } else { 0u64 }) }) | (1u64 << 26u64) } else { (if (wr >> 25u64) & 1u64 == 1u64 { (if (wr >> 24u64) & 1u64 == 1u64 { 0u64 | (1u64 << 24u64) } else { 0u64 }) | (1u64 << 25u64) } else { (if (wr >> 24u64) & 1u64 == 1u64 { 0u64 | (1u64 << 24u64) } else { 0u64 }) }) }) | (1u64 << 27u64) } else { (if (wr >> 26u64) & 1u64 == 1u64 { (if (wr >> 25u64) & 1u64 == 1u64 { (if (wr >> 24u64) & 1u64 == 1u64 { 0u64 | (1u64 << 24u64) } else { 0u64 }) | (1u64 << 25u64) } else { (if (wr >> 24u64) & 1u64 == 1u64 { 0u64 | (1u64 << 24u64) } else { 0u64 }) }) | (1u64 << 26u64) } else { (if (wr >> 25u64) & 1u64 == 1u64 { (if (wr >> 24u64) & 1u64 == 1u64 { 0u64 | (1u64 << 24u64) } else { 0u64 }) | (1u64 << 25u64) } else { (if (wr >> 24u64) & 1u64 == 1u64 { 0u64 | (1u64 << 24u64) } else { 0u64 }) }) }) }) }) }) | (1u64 << 30u64) } else { (if (wr >> 29u64) & 1u64 == 1u64 { (if (wr >> 28u64) & 1u64 == 1u64 { (if (wr >> 27u64) & 1u64 == 1u64 { (if (wr >> 26u64) & 1u64 == 1u64 { (if (wr >> 25u64) & 1u64 == 1u64 { (if (wr >> 24u64) & 1u64 == 1u64 { 0u64 | (1u64 << 24u64) } else { 0u64 }) | (1u64 << 25u64) } else { (if (wr >> 24u64) & 1u64 == 1u64 { 0u64 | (1u64 << 24u64) } else { 0u64 }) }) | (1u64 << 26u64) } else { (if (wr >> 25u64) & 1u64 == 1u64 { (if (wr >> 24u64) & 1u64 == 1u64 { 0u64 | (1u64 << 24u64) } else { 0u64 }) | (1u64 << 25u64) } else { (if (wr >> 24u64) & 1u64 == 1u64 { 0u64 | (1u64 << 24u64) } else { 0u64 }) }) }) | (1u64 << 27u64) } else { (if (wr >> 26u64) & 1u64 == 1u64 { (if (wr >> 25u64) & 1u64 == 1u64 { (if (wr >> 24u64) & 1u64 == 1u64 { 0u64 | (1u64 << 24u64) } else { 0u64 }) | (1u64 << 25u64) } else { (if (wr >> 24u64) & 1u64 == 1u64 { 0u64 | (1u64 << 24u64) } else { 0u64 }) }) | (1u64 << 26u64) } else { (if (wr >> 25u64) & 1u64 == 1u64 { (if (wr >> 24u64) & 1u64 == 1u64 { 0u64 | (1u64 << 24u64) } else { 0u64 }) | (1u64 << 25u64) } else { (if (wr >> 24u64) & 1u64 == 1u64 { 0u64 | (1u64 << 24u64) } else { 0u64 }) }) }) }) | (1u64 << 28u64) } else { (if (wr >> 27u64) & 1u64 == 1u64 { (if (wr >> 26u64) & 1u64 == 1u64 { (if (wr >> 25u64) & 1u64 == 1u64 { (if (wr >> 24u64) & 1u64 == 1u64 { 0u64 | (1u64 << 24u64) } else { 0u64 }) | (1u64 << 25u64) } else { (if (wr >> 24u64) & 1u64 == 1u64 { 0u64 | (1u64 << 24u64) } else { 0u64 }) }) | (1u64 << 26u64) } else { (if (wr >> 25u64) & 1u64 == 1u64 { (if (wr >> 24u64) & 1u64 == 1u64 { 0u64 | (1u64 << 24u64) } else { 0u64 }) | (1u64 << 25u64) } else { (if (wr >> 24u64) & 1u64 == 1u64 { 0u64 | (1u64 << 24u64) } else { 0u64 }) }) }) | (1u64 << 27u64) } else { (if (wr >> 26u64) & 1u64 == 1u64 { (if (wr >> 25u64) & 1u64 == 1u64 { (if (wr >> 24u64) & 1u64 == 1u64 { 0u64 | (1u64 << 24u64) } else { 0u64 }) | (1u64 << 25u64) } else { (if (wr >> 24u64) & 1u64 == 1u64 { 0u64 | (1u64 << 24u64) } else { 0u64 }) }) | (1u64 << 26u64) } else { (if (wr >> 25u64) & 1u64 == 1u64 { (if (wr >> 24u64) & 1u64 == 1u64 { 0u64 | (1u64 << 24u64) } else { 0u64 }) | (1u64 << 25u64) } else { (if (wr >> 24u64) & 1u64 == 1u64 { 0u64 | (1u64 << 24u64) } else { 0u64 }) }) }) }) }) | (1u64 << 29u64) } else { (if (wr >> 28u64) & 1u64 == 1u64 { (if (wr >> 27u64) & 1u64 == 1u64 { (if (wr >> 26u64) & 1u64 == 1u64 { (if (wr >> 25u64) & 1u64 == 1u64 { (if (wr >> 24u64) & 1u64 == 1u64 { 0u64 | (1u64 << 24u64) } else { 0u64 }) | (1u64 << 25u64) } else { (if (wr >> 24u64) & 1u64 == 1u64 { 0u64 | (1u64 << 24u64) } else { 0u64 }) }) | (1u64 << 26u64) } else { (if (wr >> 25u64) & 1u64 == 1u64 { (if (wr >> 24u64) & 1u64 == 1u64 { 0u64 | (1u64 << 24u64) } else { 0u64 }) | (1u64 << 25u64) } else { (if (wr >> 24u64) & 1u64 == 1u64 { 0u64 | (1u64 << 24u64) } else { 0u64 }) }) }) | (1u64 << 27u64) } else { (if (wr >> 26u64) & 1u64 == 1u64 { (if (wr >> 25u64) & 1u64 == 1u64 { (if (wr >> 24u64) & 1u64 == 1u64 { 0u64 | (1u64 << 24u64) } else { 0u64 }) | (1u64 << 25u64) } else { (if (wr >> 24u64) & 1u64 == 1u64 { 0u64 | (1u64 << 24u64) } else { 0u64 }) }) | (1u64 << 26u64) } else { (if (wr >> 25u64) & 1u64 == 1u64 { (if (wr >> 24u64) & 1u64 == 1u64 { 0u64 | (1u64 << 24u64) } else { 0u64 }) | (1u64 << 25u64) } else { (if (wr >> 24u64) & 1u64 == 1u64 { 0u64 | (1u64 << 24u64) } else { 0u64 }) }) }) }) | (1u64 << 28u64) } else { (if (wr >> 27u64) & 1u64 == 1u64 { (if (wr >> 26u64) & 1u64 == 1u64 { (if (wr >> 25u64) & 1u64 == 1u64 { (if (wr >> 24u64) & 1u64 == 1u64 { 0u64 | (1u64 << 24u64) } else { 0u64 }) | (1u64 << 25u64) } else { (if (wr >> 24u64) & 1u64 == 1u64 { 0u64 | (1u64 << 24u64) } else { 0u64 }) }) | (1u64 << 26u64) } else { (if (wr >> 25u64) & 1u64 == 1u64 { (if (wr >> 24u64) & 1u64 == 1u64 { 0u64 | (1u64 << 24u64) } else { 0u64 }) | (1u64 << 25u64) } else { (if (wr >> 24u64) & 1u64 == 1u64 { 0u64 | (1u64 << 24u64) } else { 0u64 }) }) }) | (1u64 << 27u64) } else { (if (wr >> 26u64) & 1u64 == 1u64 { (if (wr >> 25u64) & 1u64 == 1u64 { (if (wr >> 24u64) & 1u64 == 1u64 { 0u64 | (1u64 << 24u64) } else { 0u64 }) | (1u64 << 25u64) } else { (if (wr >> 24u64) & 1u64 == 1u64 { 0u64 | (1u64 << 24u64) } else { 0u64 }) }) | (1u64 << 26u64) } else { (if (wr >> 25u64) & 1u64 == 1u64 { (if (wr >> 24u64) & 1u64 == 1u64 { 0u64 | (1u64 << 24u64) } else { 0u64 }) | (1u64 << 25u64) } else { (if (wr >> 24u64) & 1u64 == 1u64 { 0u64 | (1u64 << 24u64) } else { 0u64 }) }) }) }) }) }) }) }) }) | (1u64 << 23u64) } else { (if (wr >> 23u64) & 1u64 == 1u64 { (if (wr >> 31u64) & 1u64 == 1u64 { (if (wr >> 30u64) & 1u64 == 1u64 { (if (wr >> 29u64) & 1u64 == 1u64 { (if (wr >> 28u64) & 1u64 == 1u64 { (if (wr >> 27u64) & 1u64 == 1u64 { (if (wr >> 26u64) & 1u64 == 1u64 { (if (wr >> 25u64) & 1u64 == 1u64 { (if (wr >> 24u64) & 1u64 == 1u64 { 0u64 | (1u64 << 24u64) } else { 0u64 }) | (1u64 << 25u64) } else { (if (wr >> 24u64) & 1u64 == 1u64 { 0u64 | (1u64 << 24u64) } else { 0u64 }) }) | (1u64 << 26u64) } else { (if (wr >> 25u64) & 1u64 == 1u64 { (if (wr >> 24u64) & 1u64 == 1u64 { 0u64 | (1u64 << 24u64) } else { 0u64 }) | (1u64 << 25u64) } else { (if (wr >> 24u64) & 1u64 == 1u64 { 0u64 | (1u64 << 24u64) } else { 0u64 }) }) }) | (1u64 << 27u64) } else { (if (wr >> 26u64) & 1u64 == 1u64 { (if (wr >> 25u64) & 1u64 == 1u64 { (if (wr >> 24u64) & 1u64 == 1u64 { 0u64 | (1u64 << 24u64) } else { 0u64 }) | (1u64 << 25u64) } else { (if (wr >> 24u64) & 1u64 == 1u64 { 0u64 | (1u64 << 24u64) } else { 0u64 }) }) | (1u64 << 26u64) } else { (if (wr >> 25u64) & 1u64 == 1u64 { (if (wr >> 24u64) & 1u64 == 1u64 { 0u64 | (1u64 << 24u64) } else { 0u64 }) | (1u64 << 25u64) } else { (if (wr >> 24u64) & 1u64 == 1u64 { 0u64 | (1u64 << 24u64) } else { 0u64 }) }) }) }) | (1u64 << 28u64) } else { (if (wr >> 27u64) & 1u64 == 1u64 { (if (wr >> 26u64) & 1u64 == 1u64 { (if (wr >> 25u64) & 1u64 == 1u64 { (if (wr >> 24u64) & 1u64 == 1u64 { 0u64 | (1u64 << 24u64) } else { 0u64 }) | (1u64 << 25u64) } else { (if (wr >> 24u64) & 1u64 == 1u64 { 0u64 | (1u64 << 24u64) } else { 0u64 }) }) | (1u64 << 26u64) } else { (if (wr >> 25u64) & 1u64 == 1u64 { (if (wr >> 24u64) & 1u64 == 1u64 { 0u64 | (1u64 << 24u64) } else { 0u64 }) | (1u64 << 25u64) } else { (if (wr >> 24u64) & 1u64 == 1u64 { 0u64 | (1u64 << 24u64) } else { 0u64 }) }) }) | (1u64 << 27u64) } else { (if (wr >> 26u64) & 1u64 == 1u64 { (if (wr >> 25u64) & 1u64 == 1u64 { (if (wr >> 24u64) & 1u64 == 1u64 { 0u64 | (1u64 << 24u64) } else { 0u64 }) | (1u64 << 25u64) } else { (if (wr >> 24u64) & 1u64 == 1u64 { 0u64 | (1u64 << 24u64) } else { 0u64 }) }) | (1u64 << 26u64) } else { (if (wr >> 25u64) & 1u64 == 1u64 { (if (wr >> 24u64) & 1u64 == 1u64 { 0u64 | (1u64 << 24u64) } else { 0u64 }) | (1u64 << 25u64) } else { (if (wr >> 24u64) & 1u64 == 1u64 { 0u64 | (1u64 << 24u64) } else { 0u64 }) }) }) }) }) | (1u64 << 29u64) } else { (if (wr >> 28u64) & 1u64 == 1u64 { (if (wr >> 27u64) & 1u64 == 1u64 { (if (wr >> 26u64) & 1u64 == 1u64 { (if (wr >> 25u64) & 1u64 == 1u64 { (if (wr >> 24u64) & 1u64 == 1u64 { 0u64 | (1u64 << 24u64) } else { 0u64 }) | (1u64 << 25u64) } else { (if (wr >> 24u64) & 1u64 == 1u64 { 0u64 | (1u64 << 24u64) } else { 0u64 }) }) | (1u64 << 26u64) } else { (if (wr >> 25u64) & 1u64 == 1u64 { (if (wr >> 24u64) & 1u64 == 1u64 { 0u64 | (1u64 << 24u64) } else { 0u64 }) | (1u64 << 25u64) } else { (if (wr >> 24u64) & 1u64 == 1u64 { 0u64 | (1u64 << 24u64) } else { 0u64 }) }) }) | (1u64 << 27u64) } else { (if (wr >> 26u64) & 1u64 == 1u64 { (if (wr >> 25u64) & 1u64 == 1u64 { (if (wr >> 24u64) & 1u64 == 1u64 { 0u64 | (1u64 << 24u64) } else { 0u64 }) | (1u64 << 25u64) } else { (if (wr >> 24u64) & 1u64 == 1u64 { 0u64 | (1u64 << 24u64) } else { 0u64 }) }) | (1u64 << 26u64) } else { (if (wr >> 25u64) & 1u64 == 1u64 { (if (wr >> 24u64) & 1u64 == 1u64 { 0u64 | (1u64 << 24u64) } else { 0u64 }) | (1u64 << 25u64) } else { (if (wr >> 24u64) & 1u64 == 1u64 { 0u64 | (1u64 << 24u64) } else { 0u64 }) }) }) }) | (1u64 << 28u64) } else { (if (wr >> 27u64) & 1u64 == 1u64 { (if (wr >> 26u64) & 1u64 == 1u64 { (if (wr >> 25u64) & 1u64 == 1u64 { (if (wr >> 24u64) & 1u64 == 1u64 { 0u64 | (1u64 << 24u64) } else { 0u64 }) | (1u64 << 25u64) } else { (if (wr >> 24u64) & 1u64 == 1u64 { 0u64 | (1u64 << 24u64) } else { 0u64 }) }) | (1u64 << 26u64) } else { (if (wr >> 25u64) & 1u64 == 1u64 { (if (wr >> 24u64) & 1u64 == 1u64 { 0u64 | (1u64 << 24u64) } else { 0u64 }) | (1u64 << 25u64) } else { (if (wr >> 24u64) & 1u64 == 1u64 { 0u64 | (1u64 << 24u64) } else { 0u64 }) }) }) | (1u64 << 27u64) } else { (if (wr >> 26u64) & 1u64 == 1u64 { (if (wr >> 25u64) & 1u64 == 1u64 { (if (wr >> 24u64) & 1u64 == 1u64 { 0u64 | (1u64 << 24u64) } else { 0u64 }) | (1u64 << 25u64) } else { (if (wr >> 24u64) & 1u64 == 1u64 { 0u64 | (1u64 << 24u64) } else { 0u64 }) }) | (1u64 << 26u64) } else { (if (wr >> 25u64) & 1u64 == 1u64 { (if (wr >> 24u64) & 1u64 == 1u64 { 0u64 | (1u64 << 24u64) } else { 0u64 }) | (1u64 << 25u64) } else { (if (wr >> 24u64) & 1u64 == 1u64 { 0u64 | (1u64 << 24u64) } else { 0u64 }) }) }) }) }) }) | (1u64 << 30u64) } else { (if (wr >> 29u64) & 1u64 == 1u64 { (if (wr >> 28u64) & 1u64 == 1u64 { (if (wr >> 27u64) & 1u64 == 1u64 { (if (wr >> 26u64) & 1u64 == 1u64 { (if (wr >> 25u64) & 1u64 == 1u64 { (if (wr >> 24u64) & 1u64 == 1u64 { 0u64 | (1u64 << 24u64) } else { 0u64 }) | (1u64 << 25u64) } else { (if (wr >> 24u64) & 1u64 == 1u64 { 0u64 | (1u64 << 24u64) } else { 0u64 }) }) | (1u64 << 26u64) } else { (if (wr >> 25u64) & 1u64 == 1u64 { (if (wr >> 24u64) & 1u64 == 1u64 { 0u64 | (1u64 << 24u64) } else { 0u64 }) | (1u64 << 25u64) } else { (if (wr >> 24u64) & 1u64 == 1u64 { 0u64 | (1u64 << 24u64) } else { 0u64 }) }) }) | (1u64 << 27u64) } else { (if (wr >> 26u64) & 1u64 == 1u64 { (if (wr >> 25u64) & 1u64 == 1u64 { (if (wr >> 24u64) & 1u64 == 1u64 { 0u64 | (1u64 << 24u64) } else { 0u64 }) | (1u64 << 25u64) } else { (if (wr >> 24u64) & 1u64 == 1u64 { 0u64 | (1u64 << 24u64) } else { 0u64 }) }) | (1u64 << 26u64) } else { (if (wr >> 25u64) & 1u64 == 1u64 { (if (wr >> 24u64) & 1u64 == 1u64 { 0u64 | (1u64 << 24u64) } else { 0u64 }) | (1u64 << 25u64) } else { (if (wr >> 24u64) & 1u64 == 1u64 { 0u64 | (1u64 << 24u64) } else { 0u64 }) }) }) }) | (1u64 << 28u64) } else { (if (wr >> 27u64) & 1u64 == 1u64 { (if (wr >> 26u64) & 1u64 == 1u64 { (if (wr >> 25u64) & 1u64 == 1u64 { (if (wr >> 24u64) & 1u64 == 1u64 { 0u64 | (1u64 << 24u64) } else { 0u64 }) | (1u64 << 25u64) } else { (if (wr >> 24u64) & 1u64 == 1u64 { 0u64 | (1u64 << 24u64) } else { 0u64 }) }) | (1u64 << 26u64) } else { (if (wr >> 25u64) & 1u64 == 1u64 { (if (wr >> 24u64) & 1u64 == 1u64 { 0u64 | (1u64 << 24u64) } else { 0u64 }) | (1u64 << 25u64) } else { (if (wr >> 24u64) & 1u64 == 1u64 { 0u64 | (1u64 << 24u64) } else { 0u64 }) }) }) | (1u64 << 27u64) } else { (if (wr >> 26u64) & 1u64 == 1u64 { (if (wr >> 25u64) & 1u64 == 1u64 { (if (wr >> 24u64) & 1u64 == 1u64 { 0u64 | (1u64 << 24u64) } else { 0u64 }) | (1u64 << 25u64) } else { (if (wr >> 24u64) & 1u64 == 1u64 { 0u64 | (1u64 << 24u64) } else { 0u64 }) }) | (1u64 << 26u64) } else { (if (wr >> 25u64) & 1u64 == 1u64 { (if (wr >> 24u64) & 1u64 == 1u64 { 0u64 | (1u64 << 24u64) } else { 0u64 }) | (1u64 << 25u64) } else { (if (wr >> 24u64) & 1u64 == 1u64 { 0u64 | (1u64 << 24u64) } else { 0u64 }) }) }) }) }) | (1u64 << 29u64) } else { (if (wr >> 28u64) & 1u64 == 1u64 { (if (wr >> 27u64) & 1u64 == 1u64 { (if (wr >> 26u64) & 1u64 == 1u64 { (if (wr >> 25u64) & 1u64 == 1u64 { (if (wr >> 24u64) & 1u64 == 1u64 { 0u64 | (1u64 << 24u64) } else { 0u64 }) | (1u64 << 25u64) } else { (if (wr >> 24u64) & 1u64 == 1u64 { 0u64 | (1u64 << 24u64) } else { 0u64 }) }) | (1u64 << 26u64) } else { (if (wr >> 25u64) & 1u64 == 1u64 { (if (wr >> 24u64) & 1u64 == 1u64 { 0u64 | (1u64 << 24u64) } else { 0u64 }) | (1u64 << 25u64) } else { (if (wr >> 24u64) & 1u64 == 1u64 { 0u64 | (1u64 << 24u64) } else { 0u64 }) }) }) | (1u64 << 27u64) } else { (if (wr >> 26u64) & 1u64 == 1u64 { (if (wr >> 25u64) & 1u64 == 1u64 { (if (wr >> 24u64) & 1u64 == 1u64 { 0u64 | (1u64 << 24u64) } else { 0u64 }) | (1u64 << 25u64) } else { (if (wr >> 24u64) & 1u64 == 1u64 { 0u64 | (1u64 << 24u64) } else { 0u64 }) }) | (1u64 << 26u64) } else { (if (wr >> 25u64) & 1u64 == 1u64 { (if (wr >> 24u64) & 1u64 == 1u64 { 0u64 | (1u64 << 24u64) } else { 0u64 }) | (1u64 << 25u64) } else { (if (wr >> 24u64) & 1u64 == 1u64 { 0u64 | (1u64 << 24u64) } else { 0u64 }) }) }) }) | (1u64 << 28u64) } else { (if (wr >> 27u64) & 1u64 == 1u64 { (if (wr >> 26u64) & 1u64 == 1u64 { (if (wr >> 25u64) & 1u64 == 1u64 { (if (wr >> 24u64) & 1u64 == 1u64 { 0u64 | (1u64 << 24u64) } else { 0u64 }) | (1u64 << 25u64) } else { (if (wr >> 24u64) & 1u64 == 1u64 { 0u64 | (1u64 << 24u64) } else { 0u64 }) }) | (1u64 << 26u64) } else { (if (wr >> 25u64) & 1u64 == 1u64 { (if (wr >> 24u64) & 1u64 == 1u64 { 0u64 | (1u64 << 24u64) } else { 0u64 }) | (1u64 << 25u64) } else { (if (wr >> 24u64) & 1u64 == 1u64 { 0u64 | (1u64 << 24u64) } else { 0u64 }) }) }) | (1u64 << 27u64) } else { (if (wr >> 26u64) & 1u64 == 1u64 { (if (wr >> 25u64) & 1u64 == 1u64 { (if (wr >> 24u64) & 1u64 == 1u64 { 0u64 | (1u64 << 24u64) } else { 0u64 }) | (1u64 << 25u64) } else { (if (wr >> 24u64) & 1u64 == 1u64 { 0u64 | (1u64 << 24u64) } else { 0u64 }) }) | (1u64 << 26u64) } else { (if (wr >> 25u64) & 1u64 == 1u64 { (if (wr >> 24u64) & 1u64 == 1u64 { 0u64 | (1u64 << 24u64) } else { 0u64 }) | (1u64 << 25u64) } else { (if (wr >> 24u64) & 1u64 == 1u64 { 0u64 | (1u64 << 24u64) } else { 0u64 }) }) }) }) }) }) }) | (1u64 << 31u64) } else { (if (wr >> 30u64) & 1u64 == 1u64 { (if (wr >> 29u64) & 1u64 == 1u64 { (if (wr >> 28u64) & 1u64 == 1u64 { (if (wr >> 27u64) & 1u64 == 1u64 { (if (wr >> 26u64) & 1u64 == 1u64 { (if (wr >> 25u64) & 1u64 == 1u64 { (if (wr >> 24u64) & 1u64 == 1u64 { 0u64 | (1u64 << 24u64) } else { 0u64 }) | (1u64 << 25u64) } else { (if (wr >> 24u64) & 1u64 == 1u64 { 0u64 | (1u64 << 24u64) } else { 0u64 }) }) | (1u64 << 26u64) } else { (if (wr >> 25u64) & 1u64 == 1u64 { (if (wr >> 24u64) & 1u64 == 1u64 { 0u64 | (1u64 << 24u64) } else { 0u64 }) | (1u64 << 25u64) } else { (if (wr >> 24u64) & 1u64 == 1u64 { 0u64 | (1u64 << 24u64) } else { 0u64 }) }) }) | (1u64 << 27u64) } else { (if (wr >> 26u64) & 1u64 == 1u64 { (if (wr >> 25u64) & 1u64 == 1u64 { (if (wr >> 24u64) & 1u64 == 1u64 { 0u64 | (1u64 << 24u64) } else { 0u64 }) | (1u64 << 25u64) } else { (if (wr >> 24u64) & 1u64 == 1u64 { 0u64 | (1u64 << 24u64) } else { 0u64 }) }) | (1u64 << 26u64) } else { (if (wr >> 25u64) & 1u64 == 1u64 { (if (wr >> 24u64) & 1u64 == 1u64 { 0u64 | (1u64 << 24u64) } else { 0u64 }) | (1u64 << 25u64) } else { (if (wr >> 24u64) & 1u64 == 1u64 { 0u64 | (1u64 << 24u64) } else { 0u64 }) }) }) }) | (1u64 << 28u64) } else { (if (wr >> 27u64) & 1u64 == 1u64 { (if (wr >> 26u64) & 1u64 == 1u64 { (if (wr >> 25u64) & 1u64 == 1u64 { (if (wr >> 24u64) & 1u64 == 1u64 { 0u64 | (1u64 << 24u64) } else { 0u64 }) | (1u64 << 25u64) } else { (if (wr >> 24u64) & 1u64 == 1u64 { 0u64 | (1u64 << 24u64) } else { 0u64 }) }) | (1u64 << 26u64) } else { (if (wr >> 25u64) & 1u64 == 1u64 { (if (wr >> 24u64) & 1u64 == 1u64 { 0u64 | (1u64 << 24u64) } else { 0u64 }) | (1u64 << 25u64) } else { (if (wr >> 24u64) & 1u64 == 1u64 { 0u64 | (1u64 << 24u64) } else { 0u64 }) }) }) | (1u64 << 27u64) } else { (if (wr >> 26u64) & 1u64 == 1u64 { (if (wr >> 25u64) & 1u64 == 1u64 { (if (wr >> 24u64) & 1u64 == 1u64 { 0u64 | (1u64 << 24u64) } else { 0u64 }) | (1u64 << 25u64) } else { (if (wr >> 24u64) & 1u64 == 1u64 { 0u64 | (1u64 << 24u64) } else { 0u64 }) }) | (1u64 << 26u64) } else { (if (wr >> 25u64) & 1u64 == 1u64 { (if (wr >> 24u64) & 1u64 == 1u64 { 0u64 | (1u64 << 24u64) } else { 0u64 }) | (1u64 << 25u64) } else { (if (wr >> 24u64) & 1u64 == 1u64 { 0u64 | (1u64 << 24u64) } else { 0u64 }) }) }) }) }) | (1u64 << 29u64) } else { (if (wr >> 28u64) & 1u64 == 1u64 { (if (wr >> 27u64) & 1u64 == 1u64 { (if (wr >> 26u64) & 1u64 == 1u64 { (if (wr >> 25u64) & 1u64 == 1u64 { (if (wr >> 24u64) & 1u64 == 1u64 { 0u64 | (1u64 << 24u64) } else { 0u64 }) | (1u64 << 25u64) } else { (if (wr >> 24u64) & 1u64 == 1u64 { 0u64 | (1u64 << 24u64) } else { 0u64 }) }) | (1u64 << 26u64) } else { (if (wr >> 25u64) & 1u64 == 1u64 { (if (wr >> 24u64) & 1u64 == 1u64 { 0u64 | (1u64 << 24u64) } else { 0u64 }) | (1u64 << 25u64) } else { (if (wr >> 24u64) & 1u64 == 1u64 { 0u64 | (1u64 << 24u64) } else { 0u64 }) }) }) | (1u64 << 27u64) } else { (if (wr >> 26u64) & 1u64 == 1u64 { (if (wr >> 25u64) & 1u64 == 1u64 { (if (wr >> 24u64) & 1u64 == 1u64 { 0u64 | (1u64 << 24u64) } else { 0u64 }) | (1u64 << 25u64) } else { (if (wr >> 24u64) & 1u64 == 1u64 { 0u64 | (1u64 << 24u64) } else { 0u64 }) }) | (1u64 << 26u64) } else { (if (wr >> 25u64) & 1u64 == 1u64 { (if (wr >> 24u64) & 1u64 == 1u64 { 0u64 | (1u64 << 24u64) } else { 0u64 }) | (1u64 << 25u64) } else { (if (wr >> 24u64) & 1u64 == 1u64 { 0u64 | (1u64 << 24u64) } else { 0u64 }) }) }) }) | (1u64 << 28u64) } else { (if (wr >> 27u64) & 1u64 == 1u64 { (if (wr >> 26u64) & 1u64 == 1u64 { (if (wr >> 25u64) & 1u64 == 1u64 { (if (wr >> 24u64) & 1u64 == 1u64 { 0u64 | (1u64 << 24u64) } else { 0u64 }) | (1u64 << 25u64) } else { (if (wr >> 24u64) & 1u64 == 1u64 { 0u64 | (1u64 << 24u64) } else { 0u64 }) }) | (1u64 << 26u64) } else { (if (wr >> 25u64) & 1u64 == 1u64 { (if (wr >> 24u64) & 1u64 == 1u64 { 0u64 | (1u64 << 24u64) } else { 0u64 }) | (1u64 << 25u64) } else { (if (wr >> 24u64) & 1u64 == 1u64 { 0u64 | (1u64 << 24u64) } else { 0u64 }) }) }) | (1u64 << 27u64) } else { (if (wr >> 26u64) & 1u64 == 1u64 { (if (wr >> 25u64) & 1u64 == 1u64 { (if (wr >> 24u64) & 1u64 == 1u64 { 0u64 | (1u64 << 24u64) } else { 0u64 }) | (1u64 << 25u64) } else { (if (wr >> 24u64) & 1u64 == 1u64 { 0u64 | (1u64 << 24u64) } else { 0u64 }) }) | (1u64 << 26u64) } else { (if (wr >> 25u64) & 1u64 == 1u64 { (if (wr >> 24u64) & 1u64 == 1u64 { 0u64 | (1u64 << 24u64) } else { 0u64 }) | (1u64 << 25u64) } else { (if (wr >> 24u64) & 1u64 == 1u64 { 0u64 | (1u64 << 24u64) } else { 0u64 }) }) }) }) }) }) | (1u64 << 30u64) } else { (if (wr >> 29u64) & 1u64 == 1u64 { (if (wr >> 28u64) & 1u64 == 1u64 { (if (wr >> 27u64) & 1u64 == 1u64 { (if (wr >> 26u64) & 1u64 == 1u64 { (if (wr >> 25u64) & 1u64 == 1u64 { (if (wr >> 24u64) & 1u64 == 1u64 { 0u64 | (1u64 << 24u64) } else { 0u64 }) | (1u64 << 25u64) } else { (if (wr >> 24u64) & 1u64 == 1u64 { 0u64 | (1u64 << 24u64) } else { 0u64 }) }) | (1u64 << 26u64) } else { (if (wr >> 25u64) & 1u64 == 1u64 { (if (wr >> 24u64) & 1u64 == 1u64 { 0u64 | (1u64 << 24u64) } else { 0u64 }) | (1u64 << 25u64) } else { (if (wr >> 24u64) & 1u64 == 1u64 { 0u64 | (1u64 << 24u64) } else { 0u64 }) }) }) | (1u64 << 27u64) } else { (if (wr >> 26u64) & 1u64 == 1u64 { (if (wr >> 25u64) & 1u64 == 1u64 { (if (wr >> 24u64) & 1u64 == 1u64 { 0u64 | (1u64 << 24u64) } else { 0u64 }) | (1u64 << 25u64) } else { (if (wr >> 24u64) & 1u64 == 1u64 { 0u64 | (1u64 << 24u64) } else { 0u64 }) }) | (1u64 << 26u64) } else { (if (wr >> 25u64) & 1u64 == 1u64 { (if (wr >> 24u64) & 1u64 == 1u64 { 0u64 | (1u64 << 24u64) } else { 0u64 }) | (1u64 << 25u64) } else { (if (wr >> 24u64) & 1u64 == 1u64 { 0u64 | (1u64 << 24u64) } else { 0u64 }) }) }) }) | (1u64 << 28u64) } else { (if (wr >> 27u64) & 1u64 == 1u64 { (if (wr >> 26u64) & 1u64 == 1u64 { (if (wr >> 25u64) & 1u64 == 1u64 { (if (wr >> 24u64) & 1u64 == 1u64 { 0u64 | (1u64 << 24u64) } else { 0u64 }) | (1u64 << 25u64) } else { (if (wr >> 24u64) & 1u64 == 1u64 { 0u64 | (1u64 << 24u64) } else { 0u64 }) }) | (1u64 << 26u64) } else { (if (wr >> 25u64) & 1u64 == 1u64 { (if (wr >> 24u64) & 1u64 == 1u64 { 0u64 | (1u64 << 24u64) } else { 0u64 }) | (1u64 << 25u64) } else { (if (wr >> 24u64) & 1u64 == 1u64 { 0u64 | (1u64 << 24u64) } else { 0u64 }) }) }) | (1u64 << 27u64) } else { (if (wr >> 26u64) & 1u64 == 1u64 { (if (wr >> 25u64) & 1u64 == 1u64 { (if (wr >> 24u64) & 1u64 == 1u64 { 0u64 | (1u64 << 24u64) } else { 0u64 }) | (1u64 << 25u64) } else { (if (wr >> 24u64) & 1u64 == 1u64 { 0u64 | (1u64 << 24u64) } else { 0u64 }) }) | (1u64 << 26u64) } else { (if (wr >> 25u64) & 1u64 == 1u64 { (if (wr >> 24u64) & 1u64 == 1u64 { 0u64 | (1u64 << 24u64) } else { 0u64 }) | (1u64 << 25u64) } else { (if (wr >> 24u64) & 1u64 == 1u64 { 0u64 | (1u64 << 24u64) } else { 0u64 }) }) }) }) }) | (1u64 << 29u64) } else { (if (wr >> 28u64) & 1u64 == 1u64 { (if (wr >> 27u64) & 1u64 == 1u64 { (if (wr >> 26u64) & 1u64 == 1u64 { (if (wr >> 25u64) & 1u64 == 1u64 { (if (wr >> 24u64) & 1u64 == 1u64 { 0u64 | (1u64 << 24u64) } else { 0u64 }) | (1u64 << 25u64) } else { (if (wr >> 24u64) & 1u64 == 1u64 { 0u64 | (1u64 << 24u64) } else { 0u64 }) }) | (1u64 << 26u64) } else { (if (wr >> 25u64) & 1u64 == 1u64 { (if (wr >> 24u64) & 1u64 == 1u64 { 0u64 | (1u64 << 24u64) } else { 0u64 }) | (1u64 << 25u64) } else { (if (wr >> 24u64) & 1u64 == 1u64 { 0u64 | (1u64 << 24u64) } else { 0u64 }) }) }) | (1u64 << 27u64) } else { (if (wr >> 26u64) & 1u64 == 1u64 { (if (wr >> 25u64) & 1u64 == 1u64 { (if (wr >> 24u64) & 1u64 == 1u64 { 0u64 | (1u64 << 24u64) } else { 0u64 }) | (1u64 << 25u64) } else { (if (wr >> 24u64) & 1u64 == 1u64 { 0u64 | (1u64 << 24u64) } else { 0u64 }) }) | (1u64 << 26u64) } else { (if (wr >> 25u64) & 1u64 == 1u64 { (if (wr >> 24u64) & 1u64 == 1u64 { 0u64 | (1u64 << 24u64) } else { 0u64 }) | (1u64 << 25u64) } else { (if (wr >> 24u64) & 1u64 == 1u64 { 0u64 | (1u64 << 24u64) } else { 0u64 }) }) }) }) | (1u64 << 28u64) } else { (if (wr >> 27u64) & 1u64 == 1u64 { (if (wr >> 26u64) & 1u64 == 1u64 { (if (wr >> 25u64) & 1u64 == 1u64 { (if (wr >> 24u64) & 1u64 == 1u64 { 0u64 | (1u64 << 24u64) } else { 0u64 }) | (1u64 << 25u64) } else { (if (wr >> 24u64) & 1u64 == 1u64 { 0u64 | (1u64 << 24u64) } else { 0u64 }) }) | (1u64 << 26u64) } else { (if (wr >> 25u64) & 1u64 == 1u64 { (if (wr >> 24u64) & 1u64 == 1u64 { 0u64 | (1u64 << 24u64) } else { 0u64 }) | (1u64 << 25u64) } else { (if (wr >> 24u64) & 1u64 == 1u64 { 0u64 | (1u64 << 24u64) } else { 0u64 }) }) }) | (1u64 << 27u64) } else { (if (wr >> 26u64) & 1u64 == 1u64 { (if (wr >> 25u64) & 1u64 == 1u64 { (if (wr >> 24u64) & 1u64 == 1u64 { 0u64 | (1u64 << 24u64) } else { 0u64 }) | (1u64 << 25u64) } else { (if (wr >> 24u64) & 1u64 == 1u64 { 0u64 | (1u64 << 24u64) } else { 0u64 }) }) | (1u64 << 26u64) } else { (if (wr >> 25u64) & 1u64 == 1u64 { (if (wr >> 24u64) & 1u64 == 1u64 { 0u64 | (1u64 << 24u64) } else { 0u64 }) | (1u64 << 25u64) } else { (if (wr >> 24u64) & 1u64 == 1u64 { 0u64 | (1u64 << 24u64) } else { 0u64 }) }) }) }) }) }) }) }) | (1u64 << 23u64) } else { (if (wr >> 31u64) & 1u64 == 1u64 { (if (wr >> 30u64) & 1u64 == 1u64 { (if (wr >> 29u64) & 1u64 == 1u64 { (if (wr >> 28u64) & 1u64 == 1u64 { (if (wr >> 27u64) & 1u64 == 1u64 { (if (wr >> 26u64) & 1u64 == 1u64 { (if (wr >> 25u64) & 1u64 == 1u64 { (if (wr >> 24u64) & 1u64 == 1u64 { 0u64 | (1u64 << 24u64) } else { 0u64 }) | (1u64 << 25u64) } else { (if (wr >> 24u64) & 1u64 == 1u64 { 0u64 | (1u64 << 24u64) } else { 0u64 }) }) | (1u64 << 26u64) } else { (if (wr >> 25u64) & 1u64 == 1u64 { (if (wr >> 24u64) & 1u64 == 1u64 { 0u64 | (1u64 << 24u64) } else { 0u64 }) | (1u64 << 25u64) } else { (if (wr >> 24u64) & 1u64 == 1u64 { 0u64 | (1u64 << 24u64) } else { 0u64 }) }) }) | (1u64 << 27u64) } else { (if (wr >> 26u64) & 1u64 == 1u64 { (if (wr >> 25u64) & 1u64 == 1u64 { (if (wr >> 24u64) & 1u64 == 1u64 { 0u64 | (1u64 << 24u64) } else { 0u64 }) | (1u64 << 25u64) } else { (if (wr >> 24u64) & 1u64 == 1u64 { 0u64 | (1u64 << 24u64) } else { 0u64 }) }) | (1u64 << 26u64) } else { (if (wr >> 25u64) & 1u64 == 1u64 { (if (wr >> 24u64) & 1u64 == 1u64 { 0u64 | (1u64 << 24u64) } else { 0u64 }) | (1u64 << 25u64) } else { (if (wr >> 24u64) & 1u64 == 1u64 { 0u64 | (1u64 << 24u64) } else { 0u64 }) }) }) }) | (1u64 << 28u64) } else { (if (wr >> 27u64) & 1u64 == 1u64 { (if (wr >> 26u64) & 1u64 == 1u64 { (if (wr >> 25u64) & 1u64 == 1u64 { (if (wr >> 24u64) & 1u64 == 1u64 { 0u64 | (1u64 << 24u64) } else { 0u64 }) | (1u64 << 25u64) } else { (if (wr >> 24u64) & 1u64 == 1u64 { 0u64 | (1u64 << 24u64) } else { 0u64 }) }) | (1u64 << 26u64) } else { (if (wr >> 25u64) & 1u64 == 1u64 { (if (wr >> 24u64) & 1u64 == 1u64 { 0u64 | (1u64 << 24u64) } else { 0u64 }) | (1u64 << 25u64) } else { (if (wr >> 24u64) & 1u64 == 1u64 { 0u64 | (1u64 << 24u64) } else { 0u64 }) }) }) | (1u64 << 27u64) } else { (if (wr >> 26u64) & 1u64 == 1u64 { (if (wr >> 25u64) & 1u64 == 1u64 { (if (wr >> 24u64) & 1u64 == 1u64 { 0u64 | (1u64 << 24u64) } else { 0u64 }) | (1u64 << 25u64) } else { (if (wr >> 24u64) & 1u64 == 1u64 { 0u64 | (1u64 << 24u64) } else { 0u64 }) }) | (1u64 << 26u64) } else { (if (wr >> 25u64) & 1u64 == 1u64 { (if (wr >> 24u64) & 1u64 == 1u64 { 0u64 | (1u64 << 24u64) } else { 0u64 }) | (1u64 << 25u64) } else { (if (wr >> 24u64) & 1u64 == 1u64 { 0u64 | (1u64 << 24u64) } else { 0u64 }) }) }) }) }) | (1u64 << 29u64) } else { (if (wr >> 28u64) & 1u64 == 1u64 { (if (wr >> 27u64) & 1u64 == 1u64 { (if (wr >> 26u64) & 1u64 == 1u64 { (if (wr >> 25u64) & 1u64 == 1u64 { (if (wr >> 24u64) & 1u64 == 1u64 { 0u64 | (1u64 << 24u64) } else { 0u64 }) | (1u64 << 25u64) } else { (if (wr >> 24u64) & 1u64 == 1u64 { 0u64 | (1u64 << 24u64) } else { 0u64 }) }) | (1u64 << 26u64) } else { (if (wr >> 25u64) & 1u64 == 1u64 { (if (wr >> 24u64) & 1u64 == 1u64 { 0u64 | (1u64 << 24u64) } else { 0u64 }) | (1u64 << 25u64) } else { (if (wr >> 24u64) & 1u64 == 1u64 { 0u64 | (1u64 << 24u64) } else { 0u64 }) }) }) | (1u64 << 27u64) } else { (if (wr >> 26u64) & 1u64 == 1u64 { (if (wr >> 25u64) & 1u64 == 1u64 { (if (wr >> 24u64) & 1u64 == 1u64 { 0u64 | (1u64 << 24u64) } else { 0u64 }) | (1u64 << 25u64) } else { (if (wr >> 24u64) & 1u64 == 1u64 { 0u64 | (1u64 << 24u64) } else { 0u64 }) }) | (1u64 << 26u64) } else { (if (wr >> 25u64) & 1u64 == 1u64 { (if (wr >> 24u64) & 1u64 == 1u64 { 0u64 | (1u64 << 24u64) } else { 0u64 }) | (1u64 << 25u64) } else { (if (wr >> 24u64) & 1u64 == 1u64 { 0u64 | (1u64 << 24u64) } else { 0u64 }) }) }) }) | (1u64 << 28u64) } else { (if (wr >> 27u64) & 1u64 == 1u64 { (if (wr >> 26u64) & 1u64 == 1u64 { (if (wr >> 25u64) & 1u64 == 1u64 { (if (wr >> 24u64) & 1u64 == 1u64 { 0u64 | (1u64 << 24u64) } else { 0u64 }) | (1u64 << 25u64) } else { (if (wr >> 24u64) & 1u64 == 1u64 { 0u64 | (1u64 << 24u64) } else { 0u64 }) }) | (1u64 << 26u64) } else { (if (wr >> 25u64) & 1u64 == 1u64 { (if (wr >> 24u64) & 1u64 == 1u64 { 0u64 | (1u64 << 24u64) } else { 0u64 }) | (1u64 << 25u64) } else { (if (wr >> 24u64) & 1u64 == 1u64 { 0u64 | (1u64 << 24u64) } else { 0u64 }) }) }) | (1u64 << 27u64) } else { (if (wr >> 26u64) & 1u64 == 1u64 { (if (wr >> 25u64) & 1u64 == 1u64 { (if (wr >> 24u64) & 1u64 == 1u64 { 0u64 | (1u64 << 24u64) } else { 0u64 }) | (1u64 << 25u64) } else { (if (wr >> 24u64) & 1u64 == 1u64 { 0u64 | (1u64 << 24u64) } else { 0u64 }) }) | (1u64 << 26u64) } else { (if (wr >> 25u64) & 1u64 == 1u64 { (if (wr >> 24u64) & 1u64 == 1u64 { 0u64 | (1u64 << 24u64) } else { 0u64 }) | (1u64 << 25u64) } else { (if (wr >> 24u64) & 1u64 == 1u64 { 0u64 | (1u64 << 24u64) } else { 0u64 }) }) }) }) }) }) | (1u64 << 30u64) } else { (if (wr >> 29u64) & 1u64 == 1u64 { (if (wr >> 28u64) & 1u64 == 1u64 { (if (wr >> 27u64) & 1u64 == 1u64 { (if (wr >> 26u64) & 1u64 == 1u64 { (if (wr >> 25u64) & 1u64 == 1u64 { (if (wr >> 24u64) & 1u64 == 1u64 { 0u64 | (1u64 << 24u64) } else { 0u64 }) | (1u64 << 25u64) } else { (if (wr >> 24u64) & 1u64 == 1u64 { 0u64 | (1u64 << 24u64) } else { 0u64 }) }) | (1u64 << 26u64) } else { (if (wr >> 25u64) & 1u64 == 1u64 { (if (wr >> 24u64) & 1u64 == 1u64 { 0u64 | (1u64 << 24u64) } else { 0u64 }) | (1u64 << 25u64) } else { (if (wr >> 24u64) & 1u64 == 1u64 { 0u64 | (1u64 << 24u64) } else { 0u64 }) }) }) | (1u64 << 27u64) } else { (if (wr >> 26u64) & 1u64 == 1u64 { (if (wr >> 25u64) & 1u64 == 1u64 { (if (wr >> 24u64) & 1u64 == 1u64 { 0u64 | (1u64 << 24u64) } else { 0u64 }) | (1u64 << 25u64) } else { (if (wr >> 24u64) & 1u64 == 1u64 { 0u64 | (1u64 << 24u64) } else { 0u64 }) }) | (1u64 << 26u64) } else { (if (wr >> 25u64) & 1u64 == 1u64 { (if (wr >> 24u64) & 1u64 == 1u64 { 0u64 | (1u64 << 24u64) } else { 0u64 }) | (1u64 << 25u64) } else { (if (wr >> 24u64) & 1u64 == 1u64 { 0u64 | (1u64 << 24u64) } else { 0u64 }) }) }) }) | (1u64 << 28u64) } else { (if (wr >> 27u64) & 1u64 == 1u64 { (if (wr >> 26u64) & 1u64 == 1u64 { (if (wr >> 25u64) & 1u64 == 1u64 { (if (wr >> 24u64) & 1u64 == 1u64 { 0u64 | (1u64 << 24u64) } else { 0u64 }) | (1u64 << 25u64) } else { (if (wr >> 24u64) & 1u64 == 1u64 { 0u64 | (1u64 << 24u64) } else { 0u64 }) }) | (1u64 << 26u64) } else { (if (wr >> 25u64) & 1u64 == 1u64 { (if (wr >> 24u64) & 1u64 == 1u64 { 0u64 | (1u64 << 24u64) } else { 0u64 }) | (1u64 << 25u64) } else { (if (wr >> 24u64) & 1u64 == 1u64 { 0u64 | (1u64 << 24u64) } else { 0u64 }) }) }) | (1u64 << 27u64) } else { (if (wr >> 26u64) & 1u64 == 1u64 { (if (wr >> 25u64) & 1u64 == 1u64 { (if (wr >> 24u64) & 1u64 == 1u64 { 0u64 | (1u64 << 24u64) } else { 0u64 }) | (1u64 << 25u64) } else { (if (wr >> 24u64) & 1u64 == 1u64 { 0u64 | (1u64 << 24u64) } else { 0u64 }) }) | (1u64 << 26u64) } else { (if (wr >> 25u64) & 1u64 == 1u64 { (if (wr >> 24u64) & 1u64 == 1u64 { 0u64 | (1u64 << 24u64) } else { 0u64 }) | (1u64 << 25u64) } else { (if (wr >> 24u64) & 1u64 == 1u64 { 0u64 | (1u64 << 24u64) } else { 0u64 }) }) }) }) }) | (1u64 << 29u64) } else { (if (wr >> 28u64) & 1u64 == 1u64 { (if (wr >> 27u64) & 1u64 == 1u64 { (if (wr >> 26u64) & 1u64 == 1u64 { (if (wr >> 25u64) & 1u64 == 1u64 { (if (wr >> 24u64) & 1u64 == 1u64 { 0u64 | (1u64 << 24u64) } else { 0u64 }) | (1u64 << 25u64) } else { (if (wr >> 24u64) & 1u64 == 1u64 { 0u64 | (1u64 << 24u64) } else { 0u64 }) }) | (1u64 << 26u64) } else { (if (wr >> 25u64) & 1u64 == 1u64 { (if (wr >> 24u64) & 1u64 == 1u64 { 0u64 | (1u64 << 24u64) } else { 0u64 }) | (1u64 << 25u64) } else { (if (wr >> 24u64) & 1u64 == 1u64 { 0u64 | (1u64 << 24u64) } else { 0u64 }) }) }) | (1u64 << 27u64) } else { (if (wr >> 26u64) & 1u64 == 1u64 { (if (wr >> 25u64) & 1u64 == 1u64 { (if (wr >> 24u64) & 1u64 == 1u64 { 0u64 | (1u64 << 24u64) } else { 0u64 }) | (1u64 << 25u64) } else { (if (wr >> 24u64) & 1u64 == 1u64 { 0u64 | (1u64 << 24u64) } else { 0u64 }) }) | (1u64 << 26u64) } else { (if (wr >> 25u64) & 1u64 == 1u64 { (if (wr >> 24u64) & 1u64 == 1u64 { 0u64 | (1u64 << 24u64) } else { 0u64 }) | (1u64 << 25u64) } else { (if (wr >> 24u64) & 1u64 == 1u64 { 0u64 | (1u64 << 24u64) } else { 0u64 }) }) }) }) | (1u64 << 28u64) } else { (if (wr >> 27u64) & 1u64 == 1u64 { (if (wr >> 26u64) & 1u64 == 1u64 { (if (wr >> 25u64) & 1u64 == 1u64 { (if (wr >> 24u64) & 1u64 == 1u64 { 0u64 | (1u64 << 24u64) } else { 0u64 }) | (1u64 << 25u64) } else { (if (wr >> 24u64) & 1u64 == 1u64 { 0u64 | (1u64 << 24u64) } else { 0u64 }) }) | (1u64 << 26u64) } else { (if (wr >> 25u64) & 1u64 == 1u64 { (if (wr >> 24u64) & 1u64 == 1u64 { 0u64 | (1u64 << 24u64) } else { 0u64 }) | (1u64 << 25u64) } else { (if (wr >> 24u64) & 1u64 == 1u64 { 0u64 | (1u64 << 24u64) } else { 0u64 }) }) }) | (1u64 << 27u64) } else { (if (wr >> 26u64) & 1u64 == 1u64 { (if (wr >> 25u64) & 1u64 == 1u64 { (if (wr >> 24u64) & 1u64 == 1u64 { 0u64 | (1u64 << 24u64) } else { 0u64 }) | (1u64 << 25u64) } else { (if (wr >> 24u64) & 1u64 == 1u64 { 0u64 | (1u64 << 24u64) } else { 0u64 }) }) | (1u64 << 26u64) } else { (if (wr >> 25u64) & 1u64 == 1u64 { (if (wr >> 24u64) & 1u64 == 1u64 { 0u64 | (1u64 << 24u64) } else { 0u64 }) | (1u64 << 25u64) } else { (if (wr >> 24u64) & 1u64 == 1u64 { 0u64 | (1u64 << 24u64) } else { 0u64 }) }) }) }) }) }) }) | (1u64 << 31u64) } else { (if (wr >> 30u64) & 1u64 == 1u64 { (if (wr >> 29u64) & 1u64 == 1u64 { (if (wr >> 28u64) & 1u64 == 1u64 { (if (wr >> 27u64) & 1u64 == 1u64 { (if (wr >> 26u64) & 1u64 == 1u64 { (if (wr >> 25u64) & 1u64 == 1u64 { (if (wr >> 24u64) & 1u64 == 1u64 { 0u64 | (1u64 << 24u64) } else { 0u64 }) | (1u64 << 25u64) } else { (if (wr >> 24u64) & 1u64 == 1u64 { 0u64 | (1u64 << 24u64) } else { 0u64 }) }) | (1u64 << 26u64) } else { (if (wr >> 25u64) & 1u64 == 1u64 { (if (wr >> 24u64) & 1u64 == 1u64 { 0u64 | (1u64 << 24u64) } else { 0u64 }) | (1u64 << 25u64) } else { (if (wr >> 24u64) & 1u64 == 1u64 { 0u64 | (1u64 << 24u64) } else { 0u64 }) }) }) | (1u64 << 27u64) } else { (if (wr >> 26u64) & 1u64 == 1u64 { (if (wr >> 25u64) & 1u64 == 1u64 { (if (wr >> 24u64) & 1u64 == 1u64 { 0u64 | (1u64 << 24u64) } else { 0u64 }) | (1u64 << 25u64) } else { (if (wr >> 24u64) & 1u64 == 1u64 { 0u64 | (1u64 << 24u64) } else { 0u64 }) }) | (1u64 << 26u64) } else { (if (wr >> 25u64) & 1u64 == 1u64 { (if (wr >> 24u64) & 1u64 == 1u64 { 0u64 | (1u64 << 24u64) } else { 0u64 }) | (1u64 << 25u64) } else { (if (wr >> 24u64) & 1u64 == 1u64 { 0u64 | (1u64 << 24u64) } else { 0u64 }) }) }) }) | (1u64 << 28u64) } else { (if (wr >> 27u64) & 1u64 == 1u64 { (if (wr >> 26u64) & 1u64 == 1u64 { (if (wr >> 25u64) & 1u64 == 1u64 { (if (wr >> 24u64) & 1u64 == 1u64 { 0u64 | (1u64 << 24u64) } else { 0u64 }) | (1u64 << 25u64) } else { (if (wr >> 24u64) & 1u64 == 1u64 { 0u64 | (1u64 << 24u64) } else { 0u64 }) }) | (1u64 << 26u64) } else { (if (wr >> 25u64) & 1u64 == 1u64 { (if (wr >> 24u64) & 1u64 == 1u64 { 0u64 | (1u64 << 24u64) } else { 0u64 }) | (1u64 << 25u64) } else { (if (wr >> 24u64) & 1u64 == 1u64 { 0u64 | (1u64 << 24u64) } else { 0u64 }) }) }) | (1u64 << 27u64) } else { (if (wr >> 26u64) & 1u64 == 1u64 { (if (wr >> 25u64) & 1u64 == 1u64 { (if (wr >> 24u64) & 1u64 == 1u64 { 0u64 | (1u64 << 24u64) } else { 0u64 }) | (1u64 << 25u64) } else { (if (wr >> 24u64) & 1u64 == 1u64 { 0u64 | (1u64 << 24u64) } else { 0u64 }) }) | (1u64 << 26u64) } else { (if (wr >> 25u64) & 1u64 == 1u64 { (if (wr >> 24u64) & 1u64 == 1u64 { 0u64 | (1u64 << 24u64) } else { 0u64 }) | (1u64 << 25u64) } else { (if (wr >> 24u64) & 1u64 == 1u64 { 0u64 | (1u64 << 24u64) } else { 0u64 }) }) }) }) }) | (1u64 << 29u64) } else { (if (wr >> 28u64) & 1u64 == 1u64 { (if (wr >> 27u64) & 1u64 == 1u64 { (if (wr >> 26u64) & 1u64 == 1u64 { (if (wr >> 25u64) & 1u64 == 1u64 { (if (wr >> 24u64) & 1u64 == 1u64 { 0u64 | (1u64 << 24u64) } else { 0u64 }) | (1u64 << 25u64) } else { (if (wr >> 24u64) & 1u64 == 1u64 { 0u64 | (1u64 << 24u64) } else { 0u64 }) }) | (1u64 << 26u64) } else { (if (wr >> 25u64) & 1u64 == 1u64 { (if (wr >> 24u64) & 1u64 == 1u64 { 0u64 | (1u64 << 24u64) } else { 0u64 }) | (1u64 << 25u64) } else { (if (wr >> 24u64) & 1u64 == 1u64 { 0u64 | (1u64 << 24u64) } else { 0u64 }) }) }) | (1u64 << 27u64) } else { (if (wr >> 26u64) & 1u64 == 1u64 { (if (wr >> 25u64) & 1u64 == 1u64 { (if (wr >> 24u64) & 1u64 == 1u64 { 0u64 | (1u64 << 24u64) } else { 0u64 }) | (1u64 << 25u64) } else { (if (wr >> 24u64) & 1u64 == 1u64 { 0u64 | (1u64 << 24u64) } else { 0u64 }) }) | (1u64 << 26u64) } else { (if (wr >> 25u64) & 1u64 == 1u64 { (if (wr >> 24u64) & 1u64 == 1u64 { 0u64 | (1u64 << 24u64) } else { 0u64 }) | (1u64 << 25u64) } else { (if (wr >> 24u64) & 1u64 == 1u64 { 0u64 | (1u64 << 24u64) } else { 0u64 }) }) }) }) | (1u64 << 28u64) } else { (if (wr >> 27u64) & 1u64 == 1u64 { (if (wr >> 26u64) & 1u64 == 1u64 { (if (wr >> 25u64) & 1u64 == 1u64 { (if (wr >> 24u64) & 1u64 == 1u64 { 0u64 | (1u64 << 24u64) } else { 0u64 }) | (1u64 << 25u64) } else { (if (wr >> 24u64) & 1u64 == 1u64 { 0u64 | (1u64 << 24u64) } else { 0u64 }) }) | (1u64 << 26u64) } else { (if (wr >> 25u64) & 1u64 == 1u64 { (if (wr >> 24u64) & 1u64 == 1u64 { 0u64 | (1u64 << 24u64) } else { 0u64 }) | (1u64 << 25u64) } else { (if (wr >> 24u64) & 1u64 == 1u64 { 0u64 | (1u64 << 24u64) } else { 0u64 }) }) }) | (1u64 << 27u64) } else { (if (wr >> 26u64) & 1u64 == 1u64 { (if (wr >> 25u64) & 1u64 == 1u64 { (if (wr >> 24u64) & 1u64 == 1u64 { 0u64 | (1u64 << 24u64) } else { 0u64 }) | (1u64 << 25u64) } else { (if (wr >> 24u64) & 1u64 == 1u64 { 0u64 | (1u64 << 24u64) } else { 0u64 }) }) | (1u64 << 26u64) } else { (if (wr >> 25u64) & 1u64 == 1u64 { (if (wr >> 24u64) & 1u64 == 1u64 { 0u64 | (1u64 << 24u64) } else { 0u64 }) | (1u64 << 25u64) } else { (if (wr >> 24u64) & 1u64 == 1u64 { 0u64 | (1u64 << 24u64) } else { 0u64 }) }) }) }) }) }) | (1u64 << 30u64) } else { (if (wr >> 29u64) & 1u64 == 1u64 { (if (wr >> 28u64) & 1u64 == 1u64 { (if (wr >> 27u64) & 1u64 == 1u64 { (if (wr >> 26u64) & 1u64 == 1u64 { (if (wr >> 25u64) & 1u64 == 1u64 { (if (wr >> 24u64) & 1u64 == 1u64 { 0u64 | (1u64 << 24u64) } else { 0u64 }) | (1u64 << 25u64) } else { (if (wr >> 24u64) & 1u64 == 1u64 { 0u64 | (1u64 << 24u64) } else { 0u64 }) }) | (1u64 << 26u64) } else { (if (wr >> 25u64) & 1u64 == 1u64 { (if (wr >> 24u64) & 1u64 == 1u64 { 0u64 | (1u64 << 24u64) } else { 0u64 }) | (1u64 << 25u64) } else { (if (wr >> 24u64) & 1u64 == 1u64 { 0u64 | (1u64 << 24u64) } else { 0u64 }) }) }) | (1u64 << 27u64) } else { (if (wr >> 26u64) & 1u64 == 1u64 { (if (wr >> 25u64) & 1u64 == 1u64 { (if (wr >> 24u64) & 1u64 == 1u64 { 0u64 | (1u64 << 24u64) } else { 0u64 }) | (1u64 << 25u64) } else { (if (wr >> 24u64) & 1u64 == 1u64 { 0u64 | (1u64 << 24u64) } else { 0u64 }) }) | (1u64 << 26u64) } else { (if (wr >> 25u64) & 1u64 == 1u64 { (if (wr >> 24u64) & 1u64 == 1u64 { 0u64 | (1u64 << 24u64) } else { 0u64 }) | (1u64 << 25u64) } else { (if (wr >> 24u64) & 1u64 == 1u64 { 0u64 | (1u64 << 24u64) } else { 0u64 }) }) }) }) | (1u64 << 28u64) } else { (if (wr >> 27u64) & 1u64 == 1u64 { (if (wr >> 26u64) & 1u64 == 1u64 { (if (wr >> 25u64) & 1u64 == 1u64 { (if (wr >> 24u64) & 1u64 == 1u64 { 0u64 | (1u64 << 24u64) } else { 0u64 }) | (1u64 << 25u64) } else { (if (wr >> 24u64) & 1u64 == 1u64 { 0u64 | (1u64 << 24u64) } else { 0u64 }) }) | (1u64 << 26u64) } else { (if (wr >> 25u64) & 1u64 == 1u64 { (if (wr >> 24u64) & 1u64 == 1u64 { 0u64 | (1u64 << 24u64) } else { 0u64 }) | (1u64 << 25u64) } else { (if (wr >> 24u64) & 1u64 == 1u64 { 0u64 | (1u64 << 24u64) } else { 0u64 }) }) }) | (1u64 << 27u64) } else { (if (wr >> 26u64) & 1u64 == 1u64 { (if (wr >> 25u64) & 1u64 == 1u64 { (if (wr >> 24u64) & 1u64 == 1u64 { 0u64 | (1u64 << 24u64) } else { 0u64 }) | (1u64 << 25u64) } else { (if (wr >> 24u64) & 1u64 == 1u64 { 0u64 | (1u64 << 24u64) } else { 0u64 }) }) | (1u64 << 26u64) } else { (if (wr >> 25u64) & 1u64 == 1u64 { (if (wr >> 24u64) & 1u64 == 1u64 { 0u64 | (1u64 << 24u64) } else { 0u64 }) | (1u64 << 25u64) } else { (if (wr >> 24u64) & 1u64 == 1u64 { 0u64 | (1u64 << 24u64) } else { 0u64 }) }) }) }) }) | (1u64 << 29u64) } else { (if (wr >> 28u64) & 1u64 == 1u64 { (if (wr >> 27u64) & 1u64 == 1u64 { (if (wr >> 26u64) & 1u64 == 1u64 { (if (wr >> 25u64) & 1u64 == 1u64 { (if (wr >> 24u64) & 1u64 == 1u64 { 0u64 | (1u64 << 24u64) } else { 0u64 }) | (1u64 << 25u64) } else { (if (wr >> 24u64) & 1u64 == 1u64 { 0u64 | (1u64 << 24u64) } else { 0u64 }) }) | (1u64 << 26u64) } else { (if (wr >> 25u64) & 1u64 == 1u64 { (if (wr >> 24u64) & 1u64 == 1u64 { 0u64 | (1u64 << 24u64) } else { 0u64 }) | (1u64 << 25u64) } else { (if (wr >> 24u64) & 1u64 == 1u64 { 0u64 | (1u64 << 24u64) } else { 0u64 }) }) }) | (1u64 << 27u64) } else { (if (wr >> 26u64) & 1u64 == 1u64 { (if (wr >> 25u64) & 1u64 == 1u64 { (if (wr >> 24u64) & 1u64 == 1u64 { 0u64 | (1u64 << 24u64) } else { 0u64 }) | (1u64 << 25u64) } else { (if (wr >> 24u64) & 1u64 == 1u64 { 0u64 | (1u64 << 24u64) } else { 0u64 }) }) | (1u64 << 26u64) } else { (if (wr >> 25u64) & 1u64 == 1u64 { (if (wr >> 24u64) & 1u64 == 1u64 { 0u64 | (1u64 << 24u64) } else { 0u64 }) | (1u64 << 25u64) } else { (if (wr >> 24u64) & 1u64 == 1u64 { 0u64 | (1u64 << 24u64) } else { 0u64 }) }) }) }) | (1u64 << 28u64) } else { (if (wr >> 27u64) & 1u64 == 1u64 { (if (wr >> 26u64) & 1u64 == 1u64 { (if (wr >> 25u64) & 1u64 == 1u64 { (if (wr >> 24u64) & 1u64 == 1u64 { 0u64 | (1u64 << 24u64) } else { 0u64 }) | (1u64 << 25u64) } else { (if (wr >> 24u64) & 1u64 == 1u64 { 0u64 | (1u64 << 24u64) } else { 0u64 }) }) | (1u64 << 26u64) } else { (if (wr >> 25u64) & 1u64 == 1u64 { (if (wr >> 24u64) & 1u64 == 1u64 { 0u64 | (1u64 << 24u64) } else { 0u64 }) | (1u64 << 25u64) } else { (if (wr >> 24u64) & 1u64 == 1u64 { 0u64 | (1u64 << 24u64) } else { 0u64 }) }) }) | (1u64 << 27u64) } else { (if (wr >> 26u64) & 1u64 == 1u64 { (if (wr >> 25u64) & 1u64 == 1u64 { (if (wr >> 24u64) & 1u64 == 1u64 { 0u64 | (1u64 << 24u64) } else { 0u64 }) | (1u64 << 25u64) } else { (if (wr >> 24u64) & 1u64 == 1u64 { 0u64 | (1u64 << 24u64) } else { 0u64 }) }) | (1u64 << 26u64) } else { (if (wr >> 25u64) & 1u64 == 1u64 { (if (wr >> 24u64) & 1u64 == 1u64 { 0u64 | (1u64 << 24u64) } else { 0u64 }) | (1u64 << 25u64) } else { (if (wr >> 24u64) & 1u64 == 1u64 { 0u64 | (1u64 << 24u64) } else { 0u64 }) }) }) }) }) }) }) }) }) }) | (1u64 << 22u64) } else { (if (wr >> 23u64) & 1u64 == 1u64 { (if (wr >> 23u64) & 1u64 == 1u64 { (if (wr >> 31u64) & 1u64 == 1u64 { (if (wr >> 30u64) & 1u64 == 1u64 { (if (wr >> 29u64) & 1u64 == 1u64 { (if (wr >> 28u64) & 1u64 == 1u64 { (if (wr >> 27u64) & 1u64 == 1u64 { (if (wr >> 26u64) & 1u64 == 1u64 { (if (wr >> 25u64) & 1u64 == 1u64 { (if (wr >> 24u64) & 1u64 == 1u64 { 0u64 | (1u64 << 24u64) } else { 0u64 }) | (1u64 << 25u64) } else { (if (wr >> 24u64) & 1u64 == 1u64 { 0u64 | (1u64 << 24u64) } else { 0u64 }) }) | (1u64 << 26u64) } else { (if (wr >> 25u64) & 1u64 == 1u64 { (if (wr >> 24u64) & 1u64 == 1u64 { 0u64 | (1u64 << 24u64) } else { 0u64 }) | (1u64 << 25u64) } else { (if (wr >> 24u64) & 1u64 == 1u64 { 0u64 | (1u64 << 24u64) } else { 0u64 }) }) }) | (1u64 << 27u64) } else { (if (wr >> 26u64) & 1u64 == 1u64 { (if (wr >> 25u64) & 1u64 == 1u64 { (if (wr >> 24u64) & 1u64 == 1u64 { 0u64 | (1u64 << 24u64) } else { 0u64 }) | (1u64 << 25u64) } else { (if (wr >> 24u64) & 1u64 == 1u64 { 0u64 | (1u64 << 24u64) } else { 0u64 }) }) | (1u64 << 26u64) } else { (if (wr >> 25u64) & 1u64 == 1u64 { (if (wr >> 24u64) & 1u64 == 1u64 { 0u64 | (1u64 << 24u64) } else { 0u64 }) | (1u64 << 25u64) } else { (if (wr >> 24u64) & 1u64 == 1u64 { 0u64 | (1u64 << 24u64) } else { 0u64 }) }) }) }) | (1u64 << 28u64) } else { (if (wr >> 27u64) & 1u64 == 1u64 { (if (wr >> 26u64) & 1u64 == 1u64 { (if (wr >> 25u64) & 1u64 == 1u64 { (if (wr >> 24u64) & 1u64 == 1u64 { 0u64 | (1u64 << 24u64) } else { 0u64 }) | (1u64 << 25u64) } else { (if (wr >> 24u64) & 1u64 == 1u64 { 0u64 | (1u64 << 24u64) } else { 0u64 }) }) | (1u64 << 26u64) } else { (if (wr >> 25u64) & 1u64 == 1u64 { (if (wr >> 24u64) & 1u64 == 1u64 { 0u64 | (1u64 << 24u64) } else { 0u64 }) | (1u64 << 25u64) } else { (if (wr >> 24u64) & 1u64 == 1u64 { 0u64 | (1u64 << 24u64) } else { 0u64 }) }) }) | (1u64 << 27u64) } else { (if (wr >> 26u64) & 1u64 == 1u64 { (if (wr >> 25u64) & 1u64 == 1u64 { (if (wr >> 24u64) & 1u64 == 1u64 { 0u64 | (1u64 << 24u64) } else { 0u64 }) | (1u64 << 25u64) } else { (if (wr >> 24u64) & 1u64 == 1u64 { 0u64 | (1u64 << 24u64) } else { 0u64 }) }) | (1u64 << 26u64) } else { (if (wr >> 25u64) & 1u64 == 1u64 { (if (wr >> 24u64) & 1u64 == 1u64 { 0u64 | (1u64 << 24u64) } else { 0u64 }) | (1u64 << 25u64) } else { (if (wr >> 24u64) & 1u64 == 1u64 { 0u64 | (1u64 << 24u64) } else { 0u64 }) }) }) }) }) | (1u64 << 29u64) } else { (if (wr >> 28u64) & 1u64 == 1u64 { (if (wr >> 27u64) & 1u64 == 1u64 { (if (wr >> 26u64) & 1u64 == 1u64 { (if (wr >> 25u64) & 1u64 == 1u64 { (if (wr >> 24u64) & 1u64 == 1u64 { 0u64 | (1u64 << 24u64) } else { 0u64 }) | (1u64 << 25u64) } else { (if (wr >> 24u64) & 1u64 == 1u64 { 0u64 | (1u64 << 24u64) } else { 0u64 }) }) | (1u64 << 26u64) } else { (if (wr >> 25u64) & 1u64 == 1u64 { (if (wr >> 24u64) & 1u64 == 1u64 { 0u64 | (1u64 << 24u64) } else { 0u64 }) | (1u64 << 25u64) } else { (if (wr >> 24u64) & 1u64 == 1u64 { 0u64 | (1u64 << 24u64) } else { 0u64 }) }) }) | (1u64 << 27u64) } else { (if (wr >> 26u64) & 1u64 == 1u64 { (if (wr >> 25u64) & 1u64 == 1u64 { (if (wr >> 24u64) & 1u64 == 1u64 { 0u64 | (1u64 << 24u64) } else { 0u64 }) | (1u64 << 25u64) } else { (if (wr >> 24u64) & 1u64 == 1u64 { 0u64 | (1u64 << 24u64) } else { 0u64 }) }) | (1u64 << 26u64) } else { (if (wr >> 25u64) & 1u64 == 1u64 { (if (wr >> 24u64) & 1u64 == 1u64 { 0u64 | (1u64 << 24u64) } else { 0u64 }) | (1u64 << 25u64) } else { (if (wr >> 24u64) & 1u64 == 1u64 { 0u64 | (1u64 << 24u64) } else { 0u64 }) }) }) }) | (1u64 << 28u64) } else { (if (wr >> 27u64) & 1u64 == 1u64 { (if (wr >> 26u64) & 1u64 == 1u64 { (if (wr >> 25u64) & 1u64 == 1u64 { (if (wr >> 24u64) & 1u64 == 1u64 { 0u64 | (1u64 << 24u64) } else { 0u64 }) | (1u64 << 25u64) } else { (if (wr >> 24u64) & 1u64 == 1u64 { 0u64 | (1u64 << 24u64) } else { 0u64 }) }) | (1u64 << 26u64) } else { (if (wr >> 25u64) & 1u64 == 1u64 { (if (wr >> 24u64) & 1u64 == 1u64 { 0u64 | (1u64 << 24u64) } else { 0u64 }) | (1u64 << 25u64) } else { (if (wr >> 24u64) & 1u64 == 1u64 { 0u64 | (1u64 << 24u64) } else { 0u64 }) }) }) | (1u64 << 27u64) } else { (if (wr >> 26u64) & 1u64 == 1u64 { (if (wr >> 25u64) & 1u64 == 1u64 { (if (wr >> 24u64) & 1u64 == 1u64 { 0u64 | (1u64 << 24u64) } else { 0u64 }) | (1u64 << 25u64) } else { (if (wr >> 24u64) & 1u64 == 1u64 { 0u64 | (1u64 << 24u64) } else { 0u64 }) }) | (1u64 << 26u64) } else { (if (wr >> 25u64) & 1u64 == 1u64 { (if (wr >> 24u64) & 1u64 == 1u64 { 0u64 | (1u64 << 24u64) } else { 0u64 }) | (1u64 << 25u64) } else { (if (wr >> 24u64) & 1u64 == 1u64 { 0u64 | (1u64 << 24u64) } else { 0u64 }) }) }) }) }) }) | (1u64 << 30u64) } else { (if (wr >> 29u64) & 1u64 == 1u64 { (if (wr >> 28u64) & 1u64 == 1u64 { (if (wr >> 27u64) & 1u64 == 1u64 { (if (wr >> 26u64) & 1u64 == 1u64 { (if (wr >> 25u64) & 1u64 == 1u64 { (if (wr >> 24u64) & 1u64 == 1u64 { 0u64 | (1u64 << 24u64) } else { 0u64 }) | (1u64 << 25u64) } else { (if (wr >> 24u64) & 1u64 == 1u64 { 0u64 | (1u64 << 24u64) } else { 0u64 }) }) | (1u64 << 26u64) } else { (if (wr >> 25u64) & 1u64 == 1u64 { (if (wr >> 24u64) & 1u64 == 1u64 { 0u64 | (1u64 << 24u64) } else { 0u64 }) | (1u64 << 25u64) } else { (if (wr >> 24u64) & 1u64 == 1u64 { 0u64 | (1u64 << 24u64) } else { 0u64 }) }) }) | (1u64 << 27u64) } else { (if (wr >> 26u64) & 1u64 == 1u64 { (if (wr >> 25u64) & 1u64 == 1u64 { (if (wr >> 24u64) & 1u64 == 1u64 { 0u64 | (1u64 << 24u64) } else { 0u64 }) | (1u64 << 25u64) } else { (if (wr >> 24u64) & 1u64 == 1u64 { 0u64 | (1u64 << 24u64) } else { 0u64 }) }) | (1u64 << 26u64) } else { (if (wr >> 25u64) & 1u64 == 1u64 { (if (wr >> 24u64) & 1u64 == 1u64 { 0u64 | (1u64 << 24u64) } else { 0u64 }) | (1u64 << 25u64) } else { (if (wr >> 24u64) & 1u64 == 1u64 { 0u64 | (1u64 << 24u64) } else { 0u64 }) }) }) }) | (1u64 << 28u64) } else { (if (wr >> 27u64) & 1u64 == 1u64 { (if (wr >> 26u64) & 1u64 == 1u64 { (if (wr >> 25u64) & 1u64 == 1u64 { (if (wr >> 24u64) & 1u64 == 1u64 { 0u64 | (1u64 << 24u64) } else { 0u64 }) | (1u64 << 25u64) } else { (if (wr >> 24u64) & 1u64 == 1u64 { 0u64 | (1u64 << 24u64) } else { 0u64 }) }) | (1u64 << 26u64) } else { (if (wr >> 25u64) & 1u64 == 1u64 { (if (wr >> 24u64) & 1u64 == 1u64 { 0u64 | (1u64 << 24u64) } else { 0u64 }) | (1u64 << 25u64) } else { (if (wr >> 24u64) & 1u64 == 1u64 { 0u64 | (1u64 << 24u64) } else { 0u64 }) }) }) | (1u64 << 27u64) } else { (if (wr >> 26u64) & 1u64 == 1u64 { (if (wr >> 25u64) & 1u64 == 1u64 { (if (wr >> 24u64) & 1u64 == 1u64 { 0u64 | (1u64 << 24u64) } else { 0u64 }) | (1u64 << 25u64) } else { (if (wr >> 24u64) & 1u64 == 1u64 { 0u64 | (1u64 << 24u64) } else { 0u64 }) }) | (1u64 << 26u64) } else { (if (wr >> 25u64) & 1u64 == 1u64 { (if (wr >> 24u64) & 1u64 == 1u64 { 0u64 | (1u64 << 24u64) } else { 0u64 }) | (1u64 << 25u64) } else { (if (wr >> 24u64) & 1u64 == 1u64 { 0u64 | (1u64 << 24u64) } else { 0u64 }) }) }) }) }) | (1u64 << 29u64) } else { (if (wr >> 28u64) & 1u64 == 1u64 { (if (wr >> 27u64) & 1u64 == 1u64 { (if (wr >> 26u64) & 1u64 == 1u64 { (if (wr >> 25u64) & 1u64 == 1u64 { (if (wr >> 24u64) & 1u64 == 1u64 { 0u64 | (1u64 << 24u64) } else { 0u64 }) | (1u64 << 25u64) } else { (if (wr >> 24u64) & 1u64 == 1u64 { 0u64 | (1u64 << 24u64) } else { 0u64 }) }) | (1u64 << 26u64) } else { (if (wr >> 25u64) & 1u64 == 1u64 { (if (wr >> 24u64) & 1u64 == 1u64 { 0u64 | (1u64 << 24u64) } else { 0u64 }) | (1u64 << 25u64) } else { (if (wr >> 24u64) & 1u64 == 1u64 { 0u64 | (1u64 << 24u64) } else { 0u64 }) }) }) | (1u64 << 27u64) } else { (if (wr >> 26u64) & 1u64 == 1u64 { (if (wr >> 25u64) & 1u64 == 1u64 { (if (wr >> 24u64) & 1u64 == 1u64 { 0u64 | (1u64 << 24u64) } else { 0u64 }) | (1u64 << 25u64) } else { (if (wr >> 24u64) & 1u64 == 1u64 { 0u64 | (1u64 << 24u64) } else { 0u64 }) }) | (1u64 << 26u64) } else { (if (wr >> 25u64) & 1u64 == 1u64 { (if (wr >> 24u64) & 1u64 == 1u64 { 0u64 | (1u64 << 24u64) } else { 0u64 }) | (1u64 << 25u64) } else { (if (wr >> 24u64) & 1u64 == 1u64 { 0u64 | (1u64 << 24u64) } else { 0u64 }) }) }) }) | (1u64 << 28u64) } else { (if (wr >> 27u64) & 1u64 == 1u64 { (if (wr >> 26u64) & 1u64 == 1u64 { (if (wr >> 25u64) & 1u64 == 1u64 { (if (wr >> 24u64) & 1u64 == 1u64 { 0u64 | (1u64 << 24u64) } else { 0u64 }) | (1u64 << 25u64) } else { (if (wr >> 24u64) & 1u64 == 1u64 { 0u64 | (1u64 << 24u64) } else { 0u64 }) }) | (1u64 << 26u64) } else { (if (wr >> 25u64) & 1u64 == 1u64 { (if (wr >> 24u64) & 1u64 == 1u64 { 0u64 | (1u64 << 24u64) } else { 0u64 }) | (1u64 << 25u64) } else { (if (wr >> 24u64) & 1u64 == 1u64 { 0u64 | (1u64 << 24u64) } else { 0u64 }) }) }) | (1u64 << 27u64) } else { (if (wr >> 26u64) & 1u64 == 1u64 { (if (wr >> 25u64) & 1u64 == 1u64 { (if (wr >> 24u64) & 1u64 == 1u64 { 0u64 | (1u64 << 24u64) } else { 0u64 }) | (1u64 << 25u64) } else { (if (wr >> 24u64) & 1u64 == 1u64 { 0u64 | (1u64 << 24u64) } else { 0u64 }) }) | (1u64 << 26u64) } else { (if (wr >> 25u64) & 1u64 == 1u64 { (if (wr >> 24u64) & 1u64 == 1u64 { 0u64 | (1u64 << 24u64) } else { 0u64 }) | (1u64 << 25u64) } else { (if (wr >> 24u64) & 1u64 == 1u64 { 0u64 | (1u64 << 24u64) } else { 0u64 }) }) }) }) }) }) }) | (1u64 << 31u64) } else { (if (wr >> 30u64) & 1u64 == 1u64 { (if (wr >> 29u64) & 1u64 == 1u64 { (if (wr >> 28u64) & 1u64 == 1u64 { (if (wr >> 27u64) & 1u64 == 1u64 { (if (wr >> 26u64) & 1u64 == 1u64 { (if (wr >> 25u64) & 1u64 == 1u64 { (if (wr >> 24u64) & 1u64 == 1u64 { 0u64 | (1u64 << 24u64) } else { 0u64 }) | (1u64 << 25u64) } else { (if (wr >> 24u64) & 1u64 == 1u64 { 0u64 | (1u64 << 24u64) } else { 0u64 }) }) | (1u64 << 26u64) } else { (if (wr >> 25u64) & 1u64 == 1u64 { (if (wr >> 24u64) & 1u64 == 1u64 { 0u64 | (1u64 << 24u64) } else { 0u64 }) | (1u64 << 25u64) } else { (if (wr >> 24u64) & 1u64 == 1u64 { 0u64 | (1u64 << 24u64) } else { 0u64 }) }) }) | (1u64 << 27u64) } else { (if (wr >> 26u64) & 1u64 == 1u64 { (if (wr >> 25u64) & 1u64 == 1u64 { (if (wr >> 24u64) & 1u64 == 1u64 { 0u64 | (1u64 << 24u64) } else { 0u64 }) | (1u64 << 25u64) } else { (if (wr >> 24u64) & 1u64 == 1u64 { 0u64 | (1u64 << 24u64) } else { 0u64 }) }) | (1u64 << 26u64) } else { (if (wr >> 25u64) & 1u64 == 1u64 { (if (wr >> 24u64) & 1u64 == 1u64 { 0u64 | (1u64 << 24u64) } else { 0u64 }) | (1u64 << 25u64) } else { (if (wr >> 24u64) & 1u64 == 1u64 { 0u64 | (1u64 << 24u64) } else { 0u64 }) }) }) }) | (1u64 << 28u64) } else { (if (wr >> 27u64) & 1u64 == 1u64 { (if (wr >> 26u64) & 1u64 == 1u64 { (if (wr >> 25u64) & 1u64 == 1u64 { (if (wr >> 24u64) & 1u64 == 1u64 { 0u64 | (1u64 << 24u64) } else { 0u64 }) | (1u64 << 25u64) } else { (if (wr >> 24u64) & 1u64 == 1u64 { 0u64 | (1u64 << 24u64) } else { 0u64 }) }) | (1u64 << 26u64) } else { (if (wr >> 25u64) & 1u64 == 1u64 { (if (wr >> 24u64) & 1u64 == 1u64 { 0u64 | (1u64 << 24u64) } else { 0u64 }) | (1u64 << 25u64) } else { (if (wr >> 24u64) & 1u64 == 1u64 { 0u64 | (1u64 << 24u64) } else { 0u64 }) }) }) | (1u64 << 27u64) } else { (if (wr >> 26u64) & 1u64 == 1u64 { (if (wr >> 25u64) & 1u64 == 1u64 { (if (wr >> 24u64) & 1u64 == 1u64 { 0u64 | (1u64 << 24u64) } else { 0u64 }) | (1u64 << 25u64) } else { (if (wr >> 24u64) & 1u64 == 1u64 { 0u64 | (1u64 << 24u64) } else { 0u64 }) }) | (1u64 << 26u64) } else { (if (wr >> 25u64) & 1u64 == 1u64 { (if (wr >> 24u64) & 1u64 == 1u64 { 0u64 | (1u64 << 24u64) } else { 0u64 }) | (1u64 << 25u64) } else { (if (wr >> 24u64) & 1u64 == 1u64 { 0u64 | (1u64 << 24u64) } else { 0u64 }) }) }) }) }) | (1u64 << 29u64) } else { (if (wr >> 28u64) & 1u64 == 1u64 { (if (wr >> 27u64) & 1u64 == 1u64 { (if (wr >> 26u64) & 1u64 == 1u64 { (if (wr >> 25u64) & 1u64 == 1u64 { (if (wr >> 24u64) & 1u64 == 1u64 { 0u64 | (1u64 << 24u64) } else { 0u64 }) | (1u64 << 25u64) } else { (if (wr >> 24u64) & 1u64 == 1u64 { 0u64 | (1u64 << 24u64) } else { 0u64 }) }) | (1u64 << 26u64) } else { (if (wr >> 25u64) & 1u64 == 1u64 { (if (wr >> 24u64) & 1u64 == 1u64 { 0u64 | (1u64 << 24u64) } else { 0u64 }) | (1u64 << 25u64) } else { (if (wr >> 24u64) & 1u64 == 1u64 { 0u64 | (1u64 << 24u64) } else { 0u64 }) }) }) | (1u64 << 27u64) } else { (if (wr >> 26u64) & 1u64 == 1u64 { (if (wr >> 25u64) & 1u64 == 1u64 { (if (wr >> 24u64) & 1u64 == 1u64 { 0u64 | (1u64 << 24u64) } else { 0u64 }) | (1u64 << 25u64) } else { (if (wr >> 24u64) & 1u64 == 1u64 { 0u64 | (1u64 << 24u64) } else { 0u64 }) }) | (1u64 << 26u64) } else { (if (wr >> 25u64) & 1u64 == 1u64 { (if (wr >> 24u64) & 1u64 == 1u64 { 0u64 | (1u64 << 24u64) } else { 0u64 }) | (1u64 << 25u64) } else { (if (wr >> 24u64) & 1u64 == 1u64 { 0u64 | (1u64 << 24u64) } else { 0u64 }) }) }) }) | (1u64 << 28u64) } else { (if (wr >> 27u64) & 1u64 == 1u64 { (if (wr >> 26u64) & 1u64 == 1u64 { (if (wr >> 25u64) & 1u64 == 1u64 { (if (wr >> 24u64) & 1u64 == 1u64 { 0u64 | (1u64 << 24u64) } else { 0u64 }) | (1u64 << 25u64) } else { (if (wr >> 24u64) & 1u64 == 1u64 { 0u64 | (1u64 << 24u64) } else { 0u64 }) }) | (1u64 << 26u64) } else { (if (wr >> 25u64) & 1u64 == 1u64 { (if (wr >> 24u64) & 1u64 == 1u64 { 0u64 | (1u64 << 24u64) } else { 0u64 }) | (1u64 << 25u64) } else { (if (wr >> 24u64) & 1u64 == 1u64 { 0u64 | (1u64 << 24u64) } else { 0u64 }) }) }) | (1u64 << 27u64) } else { (if (wr >> 26u64) & 1u64 == 1u64 { (if (wr >> 25u64) & 1u64 == 1u64 { (if (wr >> 24u64) & 1u64 == 1u64 { 0u64 | (1u64 << 24u64) } else { 0u64 }) | (1u64 << 25u64) } else { (if (wr >> 24u64) & 1u64 == 1u64 { 0u64 | (1u64 << 24u64) } else { 0u64 }) }) | (1u64 << 26u64) } else { (if (wr >> 25u64) & 1u64 == 1u64 { (if (wr >> 24u64) & 1u64 == 1u64 { 0u64 | (1u64 << 24u64) } else { 0u64 }) | (1u64 << 25u64) } else { (if (wr >> 24u64) & 1u64 == 1u64 { 0u64 | (1u64 << 24u64) } else { 0u64 }) }) }) }) }) }) | (1u64 << 30u64) } else { (if (wr >> 29u64) & 1u64 == 1u64 { (if (wr >> 28u64) & 1u64 == 1u64 { (if (wr >> 27u64) & 1u64 == 1u64 { (if (wr >> 26u64) & 1u64 == 1u64 { (if (wr >> 25u64) & 1u64 == 1u64 { (if (wr >> 24u64) & 1u64 == 1u64 { 0u64 | (1u64 << 24u64) } else { 0u64 }) | (1u64 << 25u64) } else { (if (wr >> 24u64) & 1u64 == 1u64 { 0u64 | (1u64 << 24u64) } else { 0u64 }) }) | (1u64 << 26u64) } else { (if (wr >> 25u64) & 1u64 == 1u64 { (if (wr >> 24u64) & 1u64 == 1u64 { 0u64 | (1u64 << 24u64) } else { 0u64 }) | (1u64 << 25u64) } else { (if (wr >> 24u64) & 1u64 == 1u64 { 0u64 | (1u64 << 24u64) } else { 0u64 }) }) }) | (1u64 << 27u64) } else { (if (wr >> 26u64) & 1u64 == 1u64 { (if (wr >> 25u64) & 1u64 == 1u64 { (if (wr >> 24u64) & 1u64 == 1u64 { 0u64 | (1u64 << 24u64) } else { 0u64 }) | (1u64 << 25u64) } else { (if (wr >> 24u64) & 1u64 == 1u64 { 0u64 | (1u64 << 24u64) } else { 0u64 }) }) | (1u64 << 26u64) } else { (if (wr >> 25u64) & 1u64 == 1u64 { (if (wr >> 24u64) & 1u64 == 1u64 { 0u64 | (1u64 << 24u64) } else { 0u64 }) | (1u64 << 25u64) } else { (if (wr >> 24u64) & 1u64 == 1u64 { 0u64 | (1u64 << 24u64) } else { 0u64 }) }) }) }) | (1u64 << 28u64) } else { (if (wr >> 27u64) & 1u64 == 1u64 { (if (wr >> 26u64) & 1u64 == 1u64 { (if (wr >> 25u64) & 1u64 == 1u64 { (if (wr >> 24u64) & 1u64 == 1u64 { 0u64 | (1u64 << 24u64) } else { 0u64 }) | (1u64 << 25u64) } else { (if (wr >> 24u64) & 1u64 == 1u64 { 0u64 | (1u64 << 24u64) } else { 0u64 }) }) | (1u64 << 26u64) } else { (if (wr >> 25u64) & 1u64 == 1u64 { (if (wr >> 24u64) & 1u64 == 1u64 { 0u64 | (1u64 << 24u64) } else { 0u64 }) | (1u64 << 25u64) } else { (if (wr >> 24u64) & 1u64 == 1u64 { 0u64 | (1u64 << 24u64) } else { 0u64 }) }) }) | (1u64 << 27u64) } else { (if (wr >> 26u64) & 1u64 == 1u64 { (if (wr >> 25u64) & 1u64 == 1u64 { (if (wr >> 24u64) & 1u64 == 1u64 { 0u64 | (1u64 << 24u64) } else { 0u64 }) | (1u64 << 25u64) } else { (if (wr >> 24u64) & 1u64 == 1u64 { 0u64 | (1u64 << 24u64) } else { 0u64 }) }) | (1u64 << 26u64) } else { (if (wr >> 25u64) & 1u64 == 1u64 { (if (wr >> 24u64) & 1u64 == 1u64 { 0u64 | (1u64 << 24u64) } else { 0u64 }) | (1u64 << 25u64) } else { (if (wr >> 24u64) & 1u64 == 1u64 { 0u64 | (1u64 << 24u64) } else { 0u64 }) }) }) }) }) | (1u64 << 29u64) } else { (if (wr >> 28u64) & 1u64 == 1u64 { (if (wr >> 27u64) & 1u64 == 1u64 { (if (wr >> 26u64) & 1u64 == 1u64 { (if (wr >> 25u64) & 1u64 == 1u64 { (if (wr >> 24u64) & 1u64 == 1u64 { 0u64 | (1u64 << 24u64) } else { 0u64 }) | (1u64 << 25u64) } else { (if (wr >> 24u64) & 1u64 == 1u64 { 0u64 | (1u64 << 24u64) } else { 0u64 }) }) | (1u64 << 26u64) } else { (if (wr >> 25u64) & 1u64 == 1u64 { (if (wr >> 24u64) & 1u64 == 1u64 { 0u64 | (1u64 << 24u64) } else { 0u64 }) | (1u64 << 25u64) } else { (if (wr >> 24u64) & 1u64 == 1u64 { 0u64 | (1u64 << 24u64) } else { 0u64 }) }) }) | (1u64 << 27u64) } else { (if (wr >> 26u64) & 1u64 == 1u64 { (if (wr >> 25u64) & 1u64 == 1u64 { (if (wr >> 24u64) & 1u64 == 1u64 { 0u64 | (1u64 << 24u64) } else { 0u64 }) | (1u64 << 25u64) } else { (if (wr >> 24u64) & 1u64 == 1u64 { 0u64 | (1u64 << 24u64) } else { 0u64 }) }) | (1u64 << 26u64) } else { (if (wr >> 25u64) & 1u64 == 1u64 { (if (wr >> 24u64) & 1u64 == 1u64 { 0u64 | (1u64 << 24u64) } else { 0u64 }) | (1u64 << 25u64) } else { (if (wr >> 24u64) & 1u64 == 1u64 { 0u64 | (1u64 << 24u64) } else { 0u64 }) }) }) }) | (1u64 << 28u64) } else { (if (wr >> 27u64) & 1u64 == 1u64 { (if (wr >> 26u64) & 1u64 == 1u64 { (if (wr >> 25u64) & 1u64 == 1u64 { (if (wr >> 24u64) & 1u64 == 1u64 { 0u64 | (1u64 << 24u64) } else { 0u64 }) | (1u64 << 25u64) } else { (if (wr >> 24u64) & 1u64 == 1u64 { 0u64 | (1u64 << 24u64) } else { 0u64 }) }) | (1u64 << 26u64) } else { (if (wr >> 25u64) & 1u64 == 1u64 { (if (wr >> 24u64) & 1u64 == 1u64 { 0u64 | (1u64 << 24u64) } else { 0u64 }) | (1u64 << 25u64) } else { (if (wr >> 24u64) & 1u64 == 1u64 { 0u64 | (1u64 << 24u64) } else { 0u64 }) }) }) | (1u64 << 27u64) } else { (if (wr >> 26u64) & 1u64 == 1u64 { (if (wr >> 25u64) & 1u64 == 1u64 { (if (wr >> 24u64) & 1u64 == 1u64 { 0u64 | (1u64 << 24u64) } else { 0u64 }) | (1u64 << 25u64) } else { (if (wr >> 24u64) & 1u64 == 1u64 { 0u64 | (1u64 << 24u64) } else { 0u64 }) }) | (1u64 << 26u64) } else { (if (wr >> 25u64) & 1u64 == 1u64 { (if (wr >> 24u64) & 1u64 == 1u64 { 0u64 | (1u64 << 24u64) } else { 0u64 }) | (1u64 << 25u64) } else { (if (wr >> 24u64) & 1u64 == 1u64 { 0u64 | (1u64 << 24u64) } else { 0u64 }) }) }) }) }) }) }) }) | (1u64 << 23u64) } else { (if (wr >> 31u64) & 1u64 == 1u64 { (if (wr >> 30u64) & 1u64 == 1u64 { (if (wr >> 29u64) & 1u64 == 1u64 { (if (wr >> 28u64) & 1u64 == 1u64 { (if (wr >> 27u64) & 1u64 == 1u64 { (if (wr >> 26u64) & 1u64 == 1u64 { (if (wr >> 25u64) & 1u64 == 1u64 { (if (wr >> 24u64) & 1u64 == 1u64 { 0u64 | (1u64 << 24u64) } else { 0u64 }) | (1u64 << 25u64) } else { (if (wr >> 24u64) & 1u64 == 1u64 { 0u64 | (1u64 << 24u64) } else { 0u64 }) }) | (1u64 << 26u64) } else { (if (wr >> 25u64) & 1u64 == 1u64 { (if (wr >> 24u64) & 1u64 == 1u64 { 0u64 | (1u64 << 24u64) } else { 0u64 }) | (1u64 << 25u64) } else { (if (wr >> 24u64) & 1u64 == 1u64 { 0u64 | (1u64 << 24u64) } else { 0u64 }) }) }) | (1u64 << 27u64) } else { (if (wr >> 26u64) & 1u64 == 1u64 { (if (wr >> 25u64) & 1u64 == 1u64 { (if (wr >> 24u64) & 1u64 == 1u64 { 0u64 | (1u64 << 24u64) } else { 0u64 }) | (1u64 << 25u64) } else { (if (wr >> 24u64) & 1u64 == 1u64 { 0u64 | (1u64 << 24u64) } else { 0u64 }) }) | (1u64 << 26u64) } else { (if (wr >> 25u64) & 1u64 == 1u64 { (if (wr >> 24u64) & 1u64 == 1u64 { 0u64 | (1u64 << 24u64) } else { 0u64 }) | (1u64 << 25u64) } else { (if (wr >> 24u64) & 1u64 == 1u64 { 0u64 | (1u64 << 24u64) } else { 0u64 }) }) }) }) | (1u64 << 28u64) } else { (if (wr >> 27u64) & 1u64 == 1u64 { (if (wr >> 26u64) & 1u64 == 1u64 { (if (wr >> 25u64) & 1u64 == 1u64 { (if (wr >> 24u64) & 1u64 == 1u64 { 0u64 | (1u64 << 24u64) } else { 0u64 }) | (1u64 << 25u64) } else { (if (wr >> 24u64) & 1u64 == 1u64 { 0u64 | (1u64 << 24u64) } else { 0u64 }) }) | (1u64 << 26u64) } else { (if (wr >> 25u64) & 1u64 == 1u64 { (if (wr >> 24u64) & 1u64 == 1u64 { 0u64 | (1u64 << 24u64) } else { 0u64 }) | (1u64 << 25u64) } else { (if (wr >> 24u64) & 1u64 == 1u64 { 0u64 | (1u64 << 24u64) } else { 0u64 }) }) }) | (1u64 << 27u64) } else { (if (wr >> 26u64) & 1u64 == 1u64 { (if (wr >> 25u64) & 1u64 == 1u64 { (if (wr >> 24u64) & 1u64 == 1u64 { 0u64 | (1u64 << 24u64) } else { 0u64 }) | (1u64 << 25u64) } else { (if (wr >> 24u64) & 1u64 == 1u64 { 0u64 | (1u64 << 24u64) } else { 0u64 }) }) | (1u64 << 26u64) } else { (if (wr >> 25u64) & 1u64 == 1u64 { (if (wr >> 24u64) & 1u64 == 1u64 { 0u64 | (1u64 << 24u64) } else { 0u64 }) | (1u64 << 25u64) } else { (if (wr >> 24u64) & 1u64 == 1u64 { 0u64 | (1u64 << 24u64) } else { 0u64 }) }) }) }) }) | (1u64 << 29u64) } else { (if (wr >> 28u64) & 1u64 == 1u64 { (if (wr >> 27u64) & 1u64 == 1u64 { (if (wr >> 26u64) & 1u64 == 1u64 { (if (wr >> 25u64) & 1u64 == 1u64 { (if (wr >> 24u64) & 1u64 == 1u64 { 0u64 | (1u64 << 24u64) } else { 0u64 }) | (1u64 << 25u64) } else { (if (wr >> 24u64) & 1u64 == 1u64 { 0u64 | (1u64 << 24u64) } else { 0u64 }) }) | (1u64 << 26u64) } else { (if (wr >> 25u64) & 1u64 == 1u64 { (if (wr >> 24u64) & 1u64 == 1u64 { 0u64 | (1u64 << 24u64) } else { 0u64 }) | (1u64 << 25u64) } else { (if (wr >> 24u64) & 1u64 == 1u64 { 0u64 | (1u64 << 24u64) } else { 0u64 }) }) }) | (1u64 << 27u64) } else { (if (wr >> 26u64) & 1u64 == 1u64 { (if (wr >> 25u64) & 1u64 == 1u64 { (if (wr >> 24u64) & 1u64 == 1u64 { 0u64 | (1u64 << 24u64) } else { 0u64 }) | (1u64 << 25u64) } else { (if (wr >> 24u64) & 1u64 == 1u64 { 0u64 | (1u64 << 24u64) } else { 0u64 }) }) | (1u64 << 26u64) } else { (if (wr >> 25u64) & 1u64 == 1u64 { (if (wr >> 24u64) & 1u64 == 1u64 { 0u64 | (1u64 << 24u64) } else { 0u64 }) | (1u64 << 25u64) } else { (if (wr >> 24u64) & 1u64 == 1u64 { 0u64 | (1u64 << 24u64) } else { 0u64 }) }) }) }) | (1u64 << 28u64) } else { (if (wr >> 27u64) & 1u64 == 1u64 { (if (wr >> 26u64) & 1u64 == 1u64 { (if (wr >> 25u64) & 1u64 == 1u64 { (if (wr >> 24u64) & 1u64 == 1u64 { 0u64 | (1u64 << 24u64) } else { 0u64 }) | (1u64 << 25u64) } else { (if (wr >> 24u64) & 1u64 == 1u64 { 0u64 | (1u64 << 24u64) } else { 0u64 }) }) | (1u64 << 26u64) } else { (if (wr >> 25u64) & 1u64 == 1u64 { (if (wr >> 24u64) & 1u64 == 1u64 { 0u64 | (1u64 << 24u64) } else { 0u64 }) | (1u64 << 25u64) } else { (if (wr >> 24u64) & 1u64 == 1u64 { 0u64 | (1u64 << 24u64) } else { 0u64 }) }) }) | (1u64 << 27u64) } else { (if (wr >> 26u64) & 1u64 == 1u64 { (if (wr >> 25u64) & 1u64 == 1u64 { (if (wr >> 24u64) & 1u64 == 1u64 { 0u64 | (1u64 << 24u64) } else { 0u64 }) | (1u64 << 25u64) } else { (if (wr >> 24u64) & 1u64 == 1u64 { 0u64 | (1u64 << 24u64) } else { 0u64 }) }) | (1u64 << 26u64) } else { (if (wr >> 25u64) & 1u64 == 1u64 { (if (wr >> 24u64) & 1u64 == 1u64 { 0u64 | (1u64 << 24u64) } else { 0u64 }) | (1u64 << 25u64) } else { (if (wr >> 24u64) & 1u64 == 1u64 { 0u64 | (1u64 << 24u64) } else { 0u64 }) }) }) }) }) }) | (1u64 << 30u64) } else { (if (wr >> 29u64) & 1u64 == 1u64 { (if (wr >> 28u64) & 1u64 == 1u64 { (if (wr >> 27u64) & 1u64 == 1u64 { (if (wr >> 26u64) & 1u64 == 1u64 { (if (wr >> 25u64) & 1u64 == 1u64 { (if (wr >> 24u64) & 1u64 == 1u64 { 0u64 | (1u64 << 24u64) } else { 0u64 }) | (1u64 << 25u64) } else { (if (wr >> 24u64) & 1u64 == 1u64 { 0u64 | (1u64 << 24u64) } else { 0u64 }) }) | (1u64 << 26u64) } else { (if (wr >> 25u64) & 1u64 == 1u64 { (if (wr >> 24u64) & 1u64 == 1u64 { 0u64 | (1u64 << 24u64) } else { 0u64 }) | (1u64 << 25u64) } else { (if (wr >> 24u64) & 1u64 == 1u64 { 0u64 | (1u64 << 24u64) } else { 0u64 }) }) }) | (1u64 << 27u64) } else { (if (wr >> 26u64) & 1u64 == 1u64 { (if (wr >> 25u64) & 1u64 == 1u64 { (if (wr >> 24u64) & 1u64 == 1u64 { 0u64 | (1u64 << 24u64) } else { 0u64 }) | (1u64 << 25u64) } else { (if (wr >> 24u64) & 1u64 == 1u64 { 0u64 | (1u64 << 24u64) } else { 0u64 }) }) | (1u64 << 26u64) } else { (if (wr >> 25u64) & 1u64 == 1u64 { (if (wr >> 24u64) & 1u64 == 1u64 { 0u64 | (1u64 << 24u64) } else { 0u64 }) | (1u64 << 25u64) } else { (if (wr >> 24u64) & 1u64 == 1u64 { 0u64 | (1u64 << 24u64) } else { 0u64 }) }) }) }) | (1u64 << 28u64) } else { (if (wr >> 27u64) & 1u64 == 1u64 { (if (wr >> 26u64) & 1u64 == 1u64 { (if (wr >> 25u64) & 1u64 == 1u64 { (if (wr >> 24u64) & 1u64 == 1u64 { 0u64 | (1u64 << 24u64) } else { 0u64 }) | (1u64 << 25u64) } else { (if (wr >> 24u64) & 1u64 == 1u64 { 0u64 | (1u64 << 24u64) } else { 0u64 }) }) | (1u64 << 26u64) } else { (if (wr >> 25u64) & 1u64 == 1u64 { (if (wr >> 24u64) & 1u64 == 1u64 { 0u64 | (1u64 << 24u64) } else { 0u64 }) | (1u64 << 25u64) } else { (if (wr >> 24u64) & 1u64 == 1u64 { 0u64 | (1u64 << 24u64) } else { 0u64 }) }) }) | (1u64 << 27u64) } else { (if (wr >> 26u64) & 1u64 == 1u64 { (if (wr >> 25u64) & 1u64 == 1u64 { (if (wr >> 24u64) & 1u64 == 1u64 { 0u64 | (1u64 << 24u64) } else { 0u64 }) | (1u64 << 25u64) } else { (if (wr >> 24u64) & 1u64 == 1u64 { 0u64 | (1u64 << 24u64) } else { 0u64 }) }) | (1u64 << 26u64) } else { (if (wr >> 25u64) & 1u64 == 1u64 { (if (wr >> 24u64) & 1u64 == 1u64 { 0u64 | (1u64 << 24u64) } else { 0u64 }) | (1u64 << 25u64) } else { (if (wr >> 24u64) & 1u64 == 1u64 { 0u64 | (1u64 << 24u64) } else { 0u64 }) }) }) }) }) | (1u64 << 29u64) } else { (if (wr >> 28u64) & 1u64 == 1u64 { (if (wr >> 27u64) & 1u64 == 1u64 { (if (wr >> 26u64) & 1u64 == 1u64 { (if (wr >> 25u64) & 1u64 == 1u64 { (if (wr >> 24u64) & 1u64 == 1u64 { 0u64 | (1u64 << 24u64) } else { 0u64 }) | (1u64 << 25u64) } else { (if (wr >> 24u64) & 1u64 == 1u64 { 0u64 | (1u64 << 24u64) } else { 0u64 }) }) | (1u64 << 26u64) } else { (if (wr >> 25u64) & 1u64 == 1u64 { (if (wr >> 24u64) & 1u64 == 1u64 { 0u64 | (1u64 << 24u64) } else { 0u64 }) | (1u64 << 25u64) } else { (if (wr >> 24u64) & 1u64 == 1u64 { 0u64 | (1u64 << 24u64) } else { 0u64 }) }) }) | (1u64 << 27u64) } else { (if (wr >> 26u64) & 1u64 == 1u64 { (if (wr >> 25u64) & 1u64 == 1u64 { (if (wr >> 24u64) & 1u64 == 1u64 { 0u64 | (1u64 << 24u64) } else { 0u64 }) | (1u64 << 25u64) } else { (if (wr >> 24u64) & 1u64 == 1u64 { 0u64 | (1u64 << 24u64) } else { 0u64 }) }) | (1u64 << 26u64) } else { (if (wr >> 25u64) & 1u64 == 1u64 { (if (wr >> 24u64) & 1u64 == 1u64 { 0u64 | (1u64 << 24u64) } else { 0u64 }) | (1u64 << 25u64) } else { (if (wr >> 24u64) & 1u64 == 1u64 { 0u64 | (1u64 << 24u64) } else { 0u64 }) }) }) }) | (1u64 << 28u64) } else { (if (wr >> 27u64) & 1u64 == 1u64 { (if (wr >> 26u64) & 1u64 == 1u64 { (if (wr >> 25u64) & 1u64 == 1u64 { (if (wr >> 24u64) & 1u64 == 1u64 { 0u64 | (1u64 << 24u64) } else { 0u64 }) | (1u64 << 25u64) } else { (if (wr >> 24u64) & 1u64 == 1u64 { 0u64 | (1u64 << 24u64) } else { 0u64 }) }) | (1u64 << 26u64) } else { (if (wr >> 25u64) & 1u64 == 1u64 { (if (wr >> 24u64) & 1u64 == 1u64 { 0u64 | (1u64 << 24u64) } else { 0u64 }) | (1u64 << 25u64) } else { (if (wr >> 24u64) & 1u64 == 1u64 { 0u64 | (1u64 << 24u64) } else { 0u64 }) }) }) | (1u64 << 27u64) } else { (if (wr >> 26u64) & 1u64 == 1u64 { (if (wr >> 25u64) & 1u64 == 1u64 { (if (wr >> 24u64) & 1u64 == 1u64 { 0u64 | (1u64 << 24u64) } else { 0u64 }) | (1u64 << 25u64) } else { (if (wr >> 24u64) & 1u64 == 1u64 { 0u64 | (1u64 << 24u64) } else { 0u64 }) }) | (1u64 << 26u64) } else { (if (wr >> 25u64) & 1u64 == 1u64 { (if (wr >> 24u64) & 1u64 == 1u64 { 0u64 | (1u64 << 24u64) } else { 0u64 }) | (1u64 << 25u64) } else { (if (wr >> 24u64) & 1u64 == 1u64 { 0u64 | (1u64 << 24u64) } else { 0u64 }) }) }) }) }) }) }) | (1u64 << 31u64) } else { (if (wr >> 30u64) & 1u64 == 1u64 { (if (wr >> 29u64) & 1u64 == 1u64 { (if (wr >> 28u64) & 1u64 == 1u64 { (if (wr >> 27u64) & 1u64 == 1u64 { (if (wr >> 26u64) & 1u64 == 1u64 { (if (wr >> 25u64) & 1u64 == 1u64 { (if (wr >> 24u64) & 1u64 == 1u64 { 0u64 | (1u64 << 24u64) } else { 0u64 }) | (1u64 << 25u64) } else { (if (wr >> 24u64) & 1u64 == 1u64 { 0u64 | (1u64 << 24u64) } else { 0u64 }) }) | (1u64 << 26u64) } else { (if (wr >> 25u64) & 1u64 == 1u64 { (if (wr >> 24u64) & 1u64 == 1u64 { 0u64 | (1u64 << 24u64) } else { 0u64 }) | (1u64 << 25u64) } else { (if (wr >> 24u64) & 1u64 == 1u64 { 0u64 | (1u64 << 24u64) } else { 0u64 }) }) }) | (1u64 << 27u64) } else { (if (wr >> 26u64) & 1u64 == 1u64 { (if (wr >> 25u64) & 1u64 == 1u64 { (if (wr >> 24u64) & 1u64 == 1u64 { 0u64 | (1u64 << 24u64) } else { 0u64 }) | (1u64 << 25u64) } else { (if (wr >> 24u64) & 1u64 == 1u64 { 0u64 | (1u64 << 24u64) } else { 0u64 }) }) | (1u64 << 26u64) } else { (if (wr >> 25u64) & 1u64 == 1u64 { (if (wr >> 24u64) & 1u64 == 1u64 { 0u64 | (1u64 << 24u64) } else { 0u64 }) | (1u64 << 25u64) } else { (if (wr >> 24u64) & 1u64 == 1u64 { 0u64 | (1u64 << 24u64) } else { 0u64 }) }) }) }) | (1u64 << 28u64) } else { (if (wr >> 27u64) & 1u64 == 1u64 { (if (wr >> 26u64) & 1u64 == 1u64 { (if (wr >> 25u64) & 1u64 == 1u64 { (if (wr >> 24u64) & 1u64 == 1u64 { 0u64 | (1u64 << 24u64) } else { 0u64 }) | (1u64 << 25u64) } else { (if (wr >> 24u64) & 1u64 == 1u64 { 0u64 | (1u64 << 24u64) } else { 0u64 }) }) | (1u64 << 26u64) } else { (if (wr >> 25u64) & 1u64 == 1u64 { (if (wr >> 24u64) & 1u64 == 1u64 { 0u64 | (1u64 << 24u64) } else { 0u64 }) | (1u64 << 25u64) } else { (if (wr >> 24u64) & 1u64 == 1u64 { 0u64 | (1u64 << 24u64) } else { 0u64 }) }) }) | (1u64 << 27u64) } else { (if (wr >> 26u64) & 1u64 == 1u64 { (if (wr >> 25u64) & 1u64 == 1u64 { (if (wr >> 24u64) & 1u64 == 1u64 { 0u64 | (1u64 << 24u64) } else { 0u64 }) | (1u64 << 25u64) } else { (if (wr >> 24u64) & 1u64 == 1u64 { 0u64 | (1u64 << 24u64) } else { 0u64 }) }) | (1u64 << 26u64) } else { (if (wr >> 25u64) & 1u64 == 1u64 { (if (wr >> 24u64) & 1u64 == 1u64 { 0u64 | (1u64 << 24u64) } else { 0u64 }) | (1u64 << 25u64) } else { (if (wr >> 24u64) & 1u64 == 1u64 { 0u64 | (1u64 << 24u64) } else { 0u64 }) }) }) }) }) | (1u64 << 29u64) } else { (if (wr >> 28u64) & 1u64 == 1u64 { (if (wr >> 27u64) & 1u64 == 1u64 { (if (wr >> 26u64) & 1u64 == 1u64 { (if (wr >> 25u64) & 1u64 == 1u64 { (if (wr >> 24u64) & 1u64 == 1u64 { 0u64 | (1u64 << 24u64) } else { 0u64 }) | (1u64 << 25u64) } else { (if (wr >> 24u64) & 1u64 == 1u64 { 0u64 | (1u64 << 24u64) } else { 0u64 }) }) | (1u64 << 26u64) } else { (if (wr >> 25u64) & 1u64 == 1u64 { (if (wr >> 24u64) & 1u64 == 1u64 { 0u64 | (1u64 << 24u64) } else { 0u64 }) | (1u64 << 25u64) } else { (if (wr >> 24u64) & 1u64 == 1u64 { 0u64 | (1u64 << 24u64) } else { 0u64 }) }) }) | (1u64 << 27u64) } else { (if (wr >> 26u64) & 1u64 == 1u64 { (if (wr >> 25u64) & 1u64 == 1u64 { (if (wr >> 24u64) & 1u64 == 1u64 { 0u64 | (1u64 << 24u64) } else { 0u64 }) | (1u64 << 25u64) } else { (if (wr >> 24u64) & 1u64 == 1u64 { 0u64 | (1u64 << 24u64) } else { 0u64 }) }) | (1u64 << 26u64) } else { (if (wr >> 25u64) & 1u64 == 1u64 { (if (wr >> 24u64) & 1u64 == 1u64 { 0u64 | (1u64 << 24u64) } else { 0u64 }) | (1u64 << 25u64) } else { (if (wr >> 24u64) & 1u64 == 1u64 { 0u64 | (1u64 << 24u64) } else { 0u64 }) }) }) }) | (1u64 << 28u64) } else { (if (wr >> 27u64) & 1u64 == 1u64 { (if (wr >> 26u64) & 1u64 == 1u64 { (if (wr >> 25u64) & 1u64 == 1u64 { (if (wr >> 24u64) & 1u64 == 1u64 { 0u64 | (1u64 << 24u64) } else { 0u64 }) | (1u64 << 25u64) } else { (if (wr >> 24u64) & 1u64 == 1u64 { 0u64 | (1u64 << 24u64) } else { 0u64 }) }) | (1u64 << 26u64) } else { (if (wr >> 25u64) & 1u64 == 1u64 { (if (wr >> 24u64) & 1u64 == 1u64 { 0u64 | (1u64 << 24u64) } else { 0u64 }) | (1u64 << 25u64) } else { (if (wr >> 24u64) & 1u64 == 1u64 { 0u64 | (1u64 << 24u64) } else { 0u64 }) }) }) | (1u64 << 27u64) } else { (if (wr >> 26u64) & 1u64 == 1u64 { (if (wr >> 25u64) & 1u64 == 1u64 { (if (wr >> 24u64) & 1u64 == 1u64 { 0u64 | (1u64 << 24u64) } else { 0u64 }) | (1u64 << 25u64) } else { (if (wr >> 24u64) & 1u64 == 1u64 { 0u64 | (1u64 << 24u64) } else { 0u64 }) }) | (1u64 << 26u64) } else { (if (wr >> 25u64) & 1u64 == 1u64 { (if (wr >> 24u64) & 1u64 == 1u64 { 0u64 | (1u64 << 24u64) } else { 0u64 }) | (1u64 << 25u64) } else { (if (wr >> 24u64) & 1u64 == 1u64 { 0u64 | (1u64 << 24u64) } else { 0u64 }) }) }) }) }) }) | (1u64 << 30u64) } else { (if (wr >> 29u64) & 1u64 == 1u64 { (if (wr >> 28u64) & 1u64 == 1u64 { (if (wr >> 27u64) & 1u64 == 1u64 { (if (wr >> 26u64) & 1u64 == 1u64 { (if (wr >> 25u64) & 1u64 == 1u64 { (if (wr >> 24u64) & 1u64 == 1u64 { 0u64 | (1u64 << 24u64) } else { 0u64 }) | (1u64 << 25u64) } else { (if (wr >> 24u64) & 1u64 == 1u64 { 0u64 | (1u64 << 24u64) } else { 0u64 }) }) | (1u64 << 26u64) } else { (if (wr >> 25u64) & 1u64 == 1u64 { (if (wr >> 24u64) & 1u64 == 1u64 { 0u64 | (1u64 << 24u64) } else { 0u64 }) | (1u64 << 25u64) } else { (if (wr >> 24u64) & 1u64 == 1u64 { 0u64 | (1u64 << 24u64) } else { 0u64 }) }) }) | (1u64 << 27u64) } else { (if (wr >> 26u64) & 1u64 == 1u64 { (if (wr >> 25u64) & 1u64 == 1u64 { (if (wr >> 24u64) & 1u64 == 1u64 { 0u64 | (1u64 << 24u64) } else { 0u64 }) | (1u64 << 25u64) } else { (if (wr >> 24u64) & 1u64 == 1u64 { 0u64 | (1u64 << 24u64) } else { 0u64 }) }) | (1u64 << 26u64) } else { (if (wr >> 25u64) & 1u64 == 1u64 { (if (wr >> 24u64) & 1u64 == 1u64 { 0u64 | (1u64 << 24u64) } else { 0u64 }) | (1u64 << 25u64) } else { (if (wr >> 24u64) & 1u64 == 1u64 { 0u64 | (1u64 << 24u64) } else { 0u64 }) }) }) }) | (1u64 << 28u64) } else { (if (wr >> 27u64) & 1u64 == 1u64 { (if (wr >> 26u64) & 1u64 == 1u64 { (if (wr >> 25u64) & 1u64 == 1u64 { (if (wr >> 24u64) & 1u64 == 1u64 { 0u64 | (1u64 << 24u64) } else { 0u64 }) | (1u64 << 25u64) } else { (if (wr >> 24u64) & 1u64 == 1u64 { 0u64 | (1u64 << 24u64) } else { 0u64 }) }) | (1u64 << 26u64) } else { (if (wr >> 25u64) & 1u64 == 1u64 { (if (wr >> 24u64) & 1u64 == 1u64 { 0u64 | (1u64 << 24u64) } else { 0u64 }) | (1u64 << 25u64) } else { (if (wr >> 24u64) & 1u64 == 1u64 { 0u64 | (1u64 << 24u64) } else { 0u64 }) }) }) | (1u64 << 27u64) } else { (if (wr >> 26u64) & 1u64 == 1u64 { (if (wr >> 25u64) & 1u64 == 1u64 { (if (wr >> 24u64) & 1u64 == 1u64 { 0u64 | (1u64 << 24u64) } else { 0u64 }) | (1u64 << 25u64) } else { (if (wr >> 24u64) & 1u64 == 1u64 { 0u64 | (1u64 << 24u64) } else { 0u64 }) }) | (1u64 << 26u64) } else { (if (wr >> 25u64) & 1u64 == 1u64 { (if (wr >> 24u64) & 1u64 == 1u64 { 0u64 | (1u64 << 24u64) } else { 0u64 }) | (1u64 << 25u64) } else { (if (wr >> 24u64) & 1u64 == 1u64 { 0u64 | (1u64 << 24u64) } else { 0u64 }) }) }) }) }) | (1u64 << 29u64) } else { (if (wr >> 28u64) & 1u64 == 1u64 { (if (wr >> 27u64) & 1u64 == 1u64 { (if (wr >> 26u64) & 1u64 == 1u64 { (if (wr >> 25u64) & 1u64 == 1u64 { (if (wr >> 24u64) & 1u64 == 1u64 { 0u64 | (1u64 << 24u64) } else { 0u64 }) | (1u64 << 25u64) } else { (if (wr >> 24u64) & 1u64 == 1u64 { 0u64 | (1u64 << 24u64) } else { 0u64 }) }) | (1u64 << 26u64) } else { (if (wr >> 25u64) & 1u64 == 1u64 { (if (wr >> 24u64) & 1u64 == 1u64 { 0u64 | (1u64 << 24u64) } else { 0u64 }) | (1u64 << 25u64) } else { (if (wr >> 24u64) & 1u64 == 1u64 { 0u64 | (1u64 << 24u64) } else { 0u64 }) }) }) | (1u64 << 27u64) } else { (if (wr >> 26u64) & 1u64 == 1u64 { (if (wr >> 25u64) & 1u64 == 1u64 { (if (wr >> 24u64) & 1u64 == 1u64 { 0u64 | (1u64 << 24u64) } else { 0u64 }) | (1u64 << 25u64) } else { (if (wr >> 24u64) & 1u64 == 1u64 { 0u64 | (1u64 << 24u64) } else { 0u64 }) }) | (1u64 << 26u64) } else { (if (wr >> 25u64) & 1u64 == 1u64 { (if (wr >> 24u64) & 1u64 == 1u64 { 0u64 | (1u64 << 24u64) } else { 0u64 }) | (1u64 << 25u64) } else { (if (wr >> 24u64) & 1u64 == 1u64 { 0u64 | (1u64 << 24u64) } else { 0u64 }) }) }) }) | (1u64 << 28u64) } else { (if (wr >> 27u64) & 1u64 == 1u64 { (if (wr >> 26u64) & 1u64 == 1u64 { (if (wr >> 25u64) & 1u64 == 1u64 { (if (wr >> 24u64) & 1u64 == 1u64 { 0u64 | (1u64 << 24u64) } else { 0u64 }) | (1u64 << 25u64) } else { (if (wr >> 24u64) & 1u64 == 1u64 { 0u64 | (1u64 << 24u64) } else { 0u64 }) }) | (1u64 << 26u64) } else { (if (wr >> 25u64) & 1u64 == 1u64 { (if (wr >> 24u64) & 1u64 == 1u64 { 0u64 | (1u64 << 24u64) } else { 0u64 }) | (1u64 << 25u64) } else { (if (wr >> 24u64) & 1u64 == 1u64 { 0u64 | (1u64 << 24u64) } else { 0u64 }) }) }) | (1u64 << 27u64) } else { (if (wr >> 26u64) & 1u64 == 1u64 { (if (wr >> 25u64) & 1u64 == 1u64 { (if (wr >> 24u64) & 1u64 == 1u64 { 0u64 | (1u64 << 24u64) } else { 0u64 }) | (1u64 << 25u64) } else { (if (wr >> 24u64) & 1u64 == 1u64 { 0u64 | (1u64 << 24u64) } else { 0u64 }) }) | (1u64 << 26u64) } else { (if (wr >> 25u64) & 1u64 == 1u64 { (if (wr >> 24u64) & 1u64 == 1u64 { 0u64 | (1u64 << 24u64) } else { 0u64 }) | (1u64 << 25u64) } else { (if (wr >> 24u64) & 1u64 == 1u64 { 0u64 | (1u64 << 24u64) } else { 0u64 }) }) }) }) }) }) }) }) }) | (1u64 << 23u64) } else { (if (wr >> 23u64) & 1u64 == 1u64 { (if (wr >> 31u64) & 1u64 == 1u64 { (if (wr >> 30u64) & 1u64 == 1u64 { (if (wr >> 29u64) & 1u64 == 1u64 { (if (wr >> 28u64) & 1u64 == 1u64 { (if (wr >> 27u64) & 1u64 == 1u64 { (if (wr >> 26u64) & 1u64 == 1u64 { (if (wr >> 25u64) & 1u64 == 1u64 { (if (wr >> 24u64) & 1u64 == 1u64 { 0u64 | (1u64 << 24u64) } else { 0u64 }) | (1u64 << 25u64) } else { (if (wr >> 24u64) & 1u64 == 1u64 { 0u64 | (1u64 << 24u64) } else { 0u64 }) }) | (1u64 << 26u64) } else { (if (wr >> 25u64) & 1u64 == 1u64 { (if (wr >> 24u64) & 1u64 == 1u64 { 0u64 | (1u64 << 24u64) } else { 0u64 }) | (1u64 << 25u64) } else { (if (wr >> 24u64) & 1u64 == 1u64 { 0u64 | (1u64 << 24u64) } else { 0u64 }) }) }) | (1u64 << 27u64) } else { (if (wr >> 26u64) & 1u64 == 1u64 { (if (wr >> 25u64) & 1u64 == 1u64 { (if (wr >> 24u64) & 1u64 == 1u64 { 0u64 | (1u64 << 24u64) } else { 0u64 }) | (1u64 << 25u64) } else { (if (wr >> 24u64) & 1u64 == 1u64 { 0u64 | (1u64 << 24u64) } else { 0u64 }) }) | (1u64 << 26u64) } else { (if (wr >> 25u64) & 1u64 == 1u64 { (if (wr >> 24u64) & 1u64 == 1u64 { 0u64 | (1u64 << 24u64) } else { 0u64 }) | (1u64 << 25u64) } else { (if (wr >> 24u64) & 1u64 == 1u64 { 0u64 | (1u64 << 24u64) } else { 0u64 }) }) }) }) | (1u64 << 28u64) } else { (if (wr >> 27u64) & 1u64 == 1u64 { (if (wr >> 26u64) & 1u64 == 1u64 { (if (wr >> 25u64) & 1u64 == 1u64 { (if (wr >> 24u64) & 1u64 == 1u64 { 0u64 | (1u64 << 24u64) } else { 0u64 }) | (1u64 << 25u64) } else { (if (wr >> 24u64) & 1u64 == 1u64 { 0u64 | (1u64 << 24u64) } else { 0u64 }) }) | (1u64 << 26u64) } else { (if (wr >> 25u64) & 1u64 == 1u64 { (if (wr >> 24u64) & 1u64 == 1u64 { 0u64 | (1u64 << 24u64) } else { 0u64 }) | (1u64 << 25u64) } else { (if (wr >> 24u64) & 1u64 == 1u64 { 0u64 | (1u64 << 24u64) } else { 0u64 }) }) }) | (1u64 << 27u64) } else { (if (wr >> 26u64) & 1u64 == 1u64 { (if (wr >> 25u64) & 1u64 == 1u64 { (if (wr >> 24u64) & 1u64 == 1u64 { 0u64 | (1u64 << 24u64) } else { 0u64 }) | (1u64 << 25u64) } else { (if (wr >> 24u64) & 1u64 == 1u64 { 0u64 | (1u64 << 24u64) } else { 0u64 }) }) | (1u64 << 26u64) } else { (if (wr >> 25u64) & 1u64 == 1u64 { (if (wr >> 24u64) & 1u64 == 1u64 { 0u64 | (1u64 << 24u64) } else { 0u64 }) | (1u64 << 25u64) } else { (if (wr >> 24u64) & 1u64 == 1u64 { 0u64 | (1u64 << 24u64) } else { 0u64 }) }) }) }) }) | (1u64 << 29u64) } else { (if (wr >> 28u64) & 1u64 == 1u64 { (if (wr >> 27u64) & 1u64 == 1u64 { (if (wr >> 26u64) & 1u64 == 1u64 { (if (wr >> 25u64) & 1u64 == 1u64 { (if (wr >> 24u64) & 1u64 == 1u64 { 0u64 | (1u64 << 24u64) } else { 0u64 }) | (1u64 << 25u64) } else { (if (wr >> 24u64) & 1u64 == 1u64 { 0u64 | (1u64 << 24u64) } else { 0u64 }) }) | (1u64 << 26u64) } else { (if (wr >> 25u64) & 1u64 == 1u64 { (if (wr >> 24u64) & 1u64 == 1u64 { 0u64 | (1u64 << 24u64) } else { 0u64 }) | (1u64 << 25u64) } else { (if (wr >> 24u64) & 1u64 == 1u64 { 0u64 | (1u64 << 24u64) } else { 0u64 }) }) }) | (1u64 << 27u64) } else { (if (wr >> 26u64) & 1u64 == 1u64 { (if (wr >> 25u64) & 1u64 == 1u64 { (if (wr >> 24u64) & 1u64 == 1u64 { 0u64 | (1u64 << 24u64) } else { 0u64 }) | (1u64 << 25u64) } else { (if (wr >> 24u64) & 1u64 == 1u64 { 0u64 | (1u64 << 24u64) } else { 0u64 }) }) | (1u64 << 26u64) } else { (if (wr >> 25u64) & 1u64 == 1u64 { (if (wr >> 24u64) & 1u64 == 1u64 { 0u64 | (1u64 << 24u64) } else { 0u64 }) | (1u64 << 25u64) } else { (if (wr >> 24u64) & 1u64 == 1u64 { 0u64 | (1u64 << 24u64) } else { 0u64 }) }) }) }) | (1u64 << 28u64) } else { (if (wr >> 27u64) & 1u64 == 1u64 { (if (wr >> 26u64) & 1u64 == 1u64 { (if (wr >> 25u64) & 1u64 == 1u64 { (if (wr >> 24u64) & 1u64 == 1u64 { 0u64 | (1u64 << 24u64) } else { 0u64 }) | (1u64 << 25u64) } else { (if (wr >> 24u64) & 1u64 == 1u64 { 0u64 | (1u64 << 24u64) } else { 0u64 }) }) | (1u64 << 26u64) } else { (if (wr >> 25u64) & 1u64 == 1u64 { (if (wr >> 24u64) & 1u64 == 1u64 { 0u64 | (1u64 << 24u64) } else { 0u64 }) | (1u64 << 25u64) } else { (if (wr >> 24u64) & 1u64 == 1u64 { 0u64 | (1u64 << 24u64) } else { 0u64 }) }) }) | (1u64 << 27u64) } else { (if (wr >> 26u64) & 1u64 == 1u64 { (if (wr >> 25u64) & 1u64 == 1u64 { (if (wr >> 24u64) & 1u64 == 1u64 { 0u64 | (1u64 << 24u64) } else { 0u64 }) | (1u64 << 25u64) } else { (if (wr >> 24u64) & 1u64 == 1u64 { 0u64 | (1u64 << 24u64) } else { 0u64 }) }) | (1u64 << 26u64) } else { (if (wr >> 25u64) & 1u64 == 1u64 { (if (wr >> 24u64) & 1u64 == 1u64 { 0u64 | (1u64 << 24u64) } else { 0u64 }) | (1u64 << 25u64) } else { (if (wr >> 24u64) & 1u64 == 1u64 { 0u64 | (1u64 << 24u64) } else { 0u64 }) }) }) }) }) }) | (1u64 << 30u64) } else { (if (wr >> 29u64) & 1u64 == 1u64 { (if (wr >> 28u64) & 1u64 == 1u64 { (if (wr >> 27u64) & 1u64 == 1u64 { (if (wr >> 26u64) & 1u64 == 1u64 { (if (wr >> 25u64) & 1u64 == 1u64 { (if (wr >> 24u64) & 1u64 == 1u64 { 0u64 | (1u64 << 24u64) } else { 0u64 }) | (1u64 << 25u64) } else { (if (wr >> 24u64) & 1u64 == 1u64 { 0u64 | (1u64 << 24u64) } else { 0u64 }) }) | (1u64 << 26u64) } else { (if (wr >> 25u64) & 1u64 == 1u64 { (if (wr >> 24u64) & 1u64 == 1u64 { 0u64 | (1u64 << 24u64) } else { 0u64 }) | (1u64 << 25u64) } else { (if (wr >> 24u64) & 1u64 == 1u64 { 0u64 | (1u64 << 24u64) } else { 0u64 }) }) }) | (1u64 << 27u64) } else { (if (wr >> 26u64) & 1u64 == 1u64 { (if (wr >> 25u64) & 1u64 == 1u64 { (if (wr >> 24u64) & 1u64 == 1u64 { 0u64 | (1u64 << 24u64) } else { 0u64 }) | (1u64 << 25u64) } else { (if (wr >> 24u64) & 1u64 == 1u64 { 0u64 | (1u64 << 24u64) } else { 0u64 }) }) | (1u64 << 26u64) } else { (if (wr >> 25u64) & 1u64 == 1u64 { (if (wr >> 24u64) & 1u64 == 1u64 { 0u64 | (1u64 << 24u64) } else { 0u64 }) | (1u64 << 25u64) } else { (if (wr >> 24u64) & 1u64 == 1u64 { 0u64 | (1u64 << 24u64) } else { 0u64 }) }) }) }) | (1u64 << 28u64) } else { (if (wr >> 27u64) & 1u64 == 1u64 { (if (wr >> 26u64) & 1u64 == 1u64 { (if (wr >> 25u64) & 1u64 == 1u64 { (if (wr >> 24u64) & 1u64 == 1u64 { 0u64 | (1u64 << 24u64) } else { 0u64 }) | (1u64 << 25u64) } else { (if (wr >> 24u64) & 1u64 == 1u64 { 0u64 | (1u64 << 24u64) } else { 0u64 }) }) | (1u64 << 26u64) } else { (if (wr >> 25u64) & 1u64 == 1u64 { (if (wr >> 24u64) & 1u64 == 1u64 { 0u64 | (1u64 << 24u64) } else { 0u64 }) | (1u64 << 25u64) } else { (if (wr >> 24u64) & 1u64 == 1u64 { 0u64 | (1u64 << 24u64) } else { 0u64 }) }) }) | (1u64 << 27u64) } else { (if (wr >> 26u64) & 1u64 == 1u64 { (if (wr >> 25u64) & 1u64 == 1u64 { (if (wr >> 24u64) & 1u64 == 1u64 { 0u64 | (1u64 << 24u64) } else { 0u64 }) | (1u64 << 25u64) } else { (if (wr >> 24u64) & 1u64 == 1u64 { 0u64 | (1u64 << 24u64) } else { 0u64 }) }) | (1u64 << 26u64) } else { (if (wr >> 25u64) & 1u64 == 1u64 { (if (wr >> 24u64) & 1u64 == 1u64 { 0u64 | (1u64 << 24u64) } else { 0u64 }) | (1u64 << 25u64) } else { (if (wr >> 24u64) & 1u64 == 1u64 { 0u64 | (1u64 << 24u64) } else { 0u64 }) }) }) }) }) | (1u64 << 29u64) } else { (if (wr >> 28u64) & 1u64 == 1u64 { (if (wr >> 27u64) & 1u64 == 1u64 { (if (wr >> 26u64) & 1u64 == 1u64 { (if (wr >> 25u64) & 1u64 == 1u64 { (if (wr >> 24u64) & 1u64 == 1u64 { 0u64 | (1u64 << 24u64) } else { 0u64 }) | (1u64 << 25u64) } else { (if (wr >> 24u64) & 1u64 == 1u64 { 0u64 | (1u64 << 24u64) } else { 0u64 }) }) | (1u64 << 26u64) } else { (if (wr >> 25u64) & 1u64 == 1u64 { (if (wr >> 24u64) & 1u64 == 1u64 { 0u64 | (1u64 << 24u64) } else { 0u64 }) | (1u64 << 25u64) } else { (if (wr >> 24u64) & 1u64 == 1u64 { 0u64 | (1u64 << 24u64) } else { 0u64 }) }) }) | (1u64 << 27u64) } else { (if (wr >> 26u64) & 1u64 == 1u64 { (if (wr >> 25u64) & 1u64 == 1u64 { (if (wr >> 24u64) & 1u64 == 1u64 { 0u64 | (1u64 << 24u64) } else { 0u64 }) | (1u64 << 25u64) } else { (if (wr >> 24u64) & 1u64 == 1u64 { 0u64 | (1u64 << 24u64) } else { 0u64 }) }) | (1u64 << 26u64) } else { (if (wr >> 25u64) & 1u64 == 1u64 { (if (wr >> 24u64) & 1u64 == 1u64 { 0u64 | (1u64 << 24u64) } else { 0u64 }) | (1u64 << 25u64) } else { (if (wr >> 24u64) & 1u64 == 1u64 { 0u64 | (1u64 << 24u64) } else { 0u64 }) }) }) }) | (1u64 << 28u64) } else { (if (wr >> 27u64) & 1u64 == 1u64 { (if (wr >> 26u64) & 1u64 == 1u64 { (if (wr >> 25u64) & 1u64 == 1u64 { (if (wr >> 24u64) & 1u64 == 1u64 { 0u64 | (1u64 << 24u64) } else { 0u64 }) | (1u64 << 25u64) } else { (if (wr >> 24u64) & 1u64 == 1u64 { 0u64 | (1u64 << 24u64) } else { 0u64 }) }) | (1u64 << 26u64) } else { (if (wr >> 25u64) & 1u64 == 1u64 { (if (wr >> 24u64) & 1u64 == 1u64 { 0u64 | (1u64 << 24u64) } else { 0u64 }) | (1u64 << 25u64) } else { (if (wr >> 24u64) & 1u64 == 1u64 { 0u64 | (1u64 << 24u64) } else { 0u64 }) }) }) | (1u64 << 27u64) } else { (if (wr >> 26u64) & 1u64 == 1u64 { (if (wr >> 25u64) & 1u64 == 1u64 { (if (wr >> 24u64) & 1u64 == 1u64 { 0u64 | (1u64 << 24u64) } else { 0u64 }) | (1u64 << 25u64) } else { (if (wr >> 24u64) & 1u64 == 1u64 { 0u64 | (1u64 << 24u64) } else { 0u64 }) }) | (1u64 << 26u64) } else { (if (wr >> 25u64) & 1u64 == 1u64 { (if (wr >> 24u64) & 1u64 == 1u64 { 0u64 | (1u64 << 24u64) } else { 0u64 }) | (1u64 << 25u64) } else { (if (wr >> 24u64) & 1u64 == 1u64 { 0u64 | (1u64 << 24u64) } else { 0u64 }) }) }) }) }) }) }) | (1u64 << 31u64) } else { (if (wr >> 30u64) & 1u64 == 1u64 { (if (wr >> 29u64) & 1u64 == 1u64 { (if (wr >> 28u64) & 1u64 == 1u64 { (if (wr >> 27u64) & 1u64 == 1u64 { (if (wr >> 26u64) & 1u64 == 1u64 { (if (wr >> 25u64) & 1u64 == 1u64 { (if (wr >> 24u64) & 1u64 == 1u64 { 0u64 | (1u64 << 24u64) } else { 0u64 }) | (1u64 << 25u64) } else { (if (wr >> 24u64) & 1u64 == 1u64 { 0u64 | (1u64 << 24u64) } else { 0u64 }) }) | (1u64 << 26u64) } else { (if (wr >> 25u64) & 1u64 == 1u64 { (if (wr >> 24u64) & 1u64 == 1u64 { 0u64 | (1u64 << 24u64) } else { 0u64 }) | (1u64 << 25u64) } else { (if (wr >> 24u64) & 1u64 == 1u64 { 0u64 | (1u64 << 24u64) } else { 0u64 }) }) }) | (1u64 << 27u64) } else { (if (wr >> 26u64) & 1u64 == 1u64 { (if (wr >> 25u64) & 1u64 == 1u64 { (if (wr >> 24u64) & 1u64 == 1u64 { 0u64 | (1u64 << 24u64) } else { 0u64 }) | (1u64 << 25u64) } else { (if (wr >> 24u64) & 1u64 == 1u64 { 0u64 | (1u64 << 24u64) } else { 0u64 }) }) | (1u64 << 26u64) } else { (if (wr >> 25u64) & 1u64 == 1u64 { (if (wr >> 24u64) & 1u64 == 1u64 { 0u64 | (1u64 << 24u64) } else { 0u64 }) | (1u64 << 25u64) } else { (if (wr >> 24u64) & 1u64 == 1u64 { 0u64 | (1u64 << 24u64) } else { 0u64 }) }) }) }) | (1u64 << 28u64) } else { (if (wr >> 27u64) & 1u64 == 1u64 { (if (wr >> 26u64) & 1u64 == 1u64 { (if (wr >> 25u64) & 1u64 == 1u64 { (if (wr >> 24u64) & 1u64 == 1u64 { 0u64 | (1u64 << 24u64) } else { 0u64 }) | (1u64 << 25u64) } else { (if (wr >> 24u64) & 1u64 == 1u64 { 0u64 | (1u64 << 24u64) } else { 0u64 }) }) | (1u64 << 26u64) } else { (if (wr >> 25u64) & 1u64 == 1u64 { (if (wr >> 24u64) & 1u64 == 1u64 { 0u64 | (1u64 << 24u64) } else { 0u64 }) | (1u64 << 25u64) } else { (if (wr >> 24u64) & 1u64 == 1u64 { 0u64 | (1u64 << 24u64) } else { 0u64 }) }) }) | (1u64 << 27u64) } else { (if (wr >> 26u64) & 1u64 == 1u64 { (if (wr >> 25u64) & 1u64 == 1u64 { (if (wr >> 24u64) & 1u64 == 1u64 { 0u64 | (1u64 << 24u64) } else { 0u64 }) | (1u64 << 25u64) } else { (if (wr >> 24u64) & 1u64 == 1u64 { 0u64 | (1u64 << 24u64) } else { 0u64 }) }) | (1u64 << 26u64) } else { (if (wr >> 25u64) & 1u64 == 1u64 { (if (wr >> 24u64) & 1u64 == 1u64 { 0u64 | (1u64 << 24u64) } else { 0u64 }) | (1u64 << 25u64) } else { (if (wr >> 24u64) & 1u64 == 1u64 { 0u64 | (1u64 << 24u64) } else { 0u64 }) }) }) }) }) | (1u64 << 29u64) } else { (if (wr >> 28u64) & 1u64 == 1u64 { (if (wr >> 27u64) & 1u64 == 1u64 { (if (wr >> 26u64) & 1u64 == 1u64 { (if (wr >> 25u64) & 1u64 == 1u64 { (if (wr >> 24u64) & 1u64 == 1u64 { 0u64 | (1u64 << 24u64) } else { 0u64 }) | (1u64 << 25u64) } else { (if (wr >> 24u64) & 1u64 == 1u64 { 0u64 | (1u64 << 24u64) } else { 0u64 }) }) | (1u64 << 26u64) } else { (if (wr >> 25u64) & 1u64 == 1u64 { (if (wr >> 24u64) & 1u64 == 1u64 { 0u64 | (1u64 << 24u64) } else { 0u64 }) | (1u64 << 25u64) } else { (if (wr >> 24u64) & 1u64 == 1u64 { 0u64 | (1u64 << 24u64) } else { 0u64 }) }) }) | (1u64 << 27u64) } else { (if (wr >> 26u64) & 1u64 == 1u64 { (if (wr >> 25u64) & 1u64 == 1u64 { (if (wr >> 24u64) & 1u64 == 1u64 { 0u64 | (1u64 << 24u64) } else { 0u64 }) | (1u64 << 25u64) } else { (if (wr >> 24u64) & 1u64 == 1u64 { 0u64 | (1u64 << 24u64) } else { 0u64 }) }) | (1u64 << 26u64) } else { (if (wr >> 25u64) & 1u64 == 1u64 { (if (wr >> 24u64) & 1u64 == 1u64 { 0u64 | (1u64 << 24u64) } else { 0u64 }) | (1u64 << 25u64) } else { (if (wr >> 24u64) & 1u64 == 1u64 { 0u64 | (1u64 << 24u64) } else { 0u64 }) }) }) }) | (1u64 << 28u64) } else { (if (wr >> 27u64) & 1u64 == 1u64 { (if (wr >> 26u64) & 1u64 == 1u64 { (if (wr >> 25u64) & 1u64 == 1u64 { (if (wr >> 24u64) & 1u64 == 1u64 { 0u64 | (1u64 << 24u64) } else { 0u64 }) | (1u64 << 25u64) } else { (if (wr >> 24u64) & 1u64 == 1u64 { 0u64 | (1u64 << 24u64) } else { 0u64 }) }) | (1u64 << 26u64) } else { (if (wr >> 25u64) & 1u64 == 1u64 { (if (wr >> 24u64) & 1u64 == 1u64 { 0u64 | (1u64 << 24u64) } else { 0u64 }) | (1u64 << 25u64) } else { (if (wr >> 24u64) & 1u64 == 1u64 { 0u64 | (1u64 << 24u64) } else { 0u64 }) }) }) | (1u64 << 27u64) } else { (if (wr >> 26u64) & 1u64 == 1u64 { (if (wr >> 25u64) & 1u64 == 1u64 { (if (wr >> 24u64) & 1u64 == 1u64 { 0u64 | (1u64 << 24u64) } else { 0u64 }) | (1u64 << 25u64) } else { (if (wr >> 24u64) & 1u64 == 1u64 { 0u64 | (1u64 << 24u64) } else { 0u64 }) }) | (1u64 << 26u64) } else { (if (wr >> 25u64) & 1u64 == 1u64 { (if (wr >> 24u64) & 1u64 == 1u64 { 0u64 | (1u64 << 24u64) } else { 0u64 }) | (1u64 << 25u64) } else { (if (wr >> 24u64) & 1u64 == 1u64 { 0u64 | (1u64 << 24u64) } else { 0u64 }) }) }) }) }) }) | (1u64 << 30u64) } else { (if (wr >> 29u64) & 1u64 == 1u64 { (if (wr >> 28u64) & 1u64 == 1u64 { (if (wr >> 27u64) & 1u64 == 1u64 { (if (wr >> 26u64) & 1u64 == 1u64 { (if (wr >> 25u64) & 1u64 == 1u64 { (if (wr >> 24u64) & 1u64 == 1u64 { 0u64 | (1u64 << 24u64) } else { 0u64 }) | (1u64 << 25u64) } else { (if (wr >> 24u64) & 1u64 == 1u64 { 0u64 | (1u64 << 24u64) } else { 0u64 }) }) | (1u64 << 26u64) } else { (if (wr >> 25u64) & 1u64 == 1u64 { (if (wr >> 24u64) & 1u64 == 1u64 { 0u64 | (1u64 << 24u64) } else { 0u64 }) | (1u64 << 25u64) } else { (if (wr >> 24u64) & 1u64 == 1u64 { 0u64 | (1u64 << 24u64) } else { 0u64 }) }) }) | (1u64 << 27u64) } else { (if (wr >> 26u64) & 1u64 == 1u64 { (if (wr >> 25u64) & 1u64 == 1u64 { (if (wr >> 24u64) & 1u64 == 1u64 { 0u64 | (1u64 << 24u64) } else { 0u64 }) | (1u64 << 25u64) } else { (if (wr >> 24u64) & 1u64 == 1u64 { 0u64 | (1u64 << 24u64) } else { 0u64 }) }) | (1u64 << 26u64) } else { (if (wr >> 25u64) & 1u64 == 1u64 { (if (wr >> 24u64) & 1u64 == 1u64 { 0u64 | (1u64 << 24u64) } else { 0u64 }) | (1u64 << 25u64) } else { (if (wr >> 24u64) & 1u64 == 1u64 { 0u64 | (1u64 << 24u64) } else { 0u64 }) }) }) }) | (1u64 << 28u64) } else { (if (wr >> 27u64) & 1u64 == 1u64 { (if (wr >> 26u64) & 1u64 == 1u64 { (if (wr >> 25u64) & 1u64 == 1u64 { (if (wr >> 24u64) & 1u64 == 1u64 { 0u64 | (1u64 << 24u64) } else { 0u64 }) | (1u64 << 25u64) } else { (if (wr >> 24u64) & 1u64 == 1u64 { 0u64 | (1u64 << 24u64) } else { 0u64 }) }) | (1u64 << 26u64) } else { (if (wr >> 25u64) & 1u64 == 1u64 { (if (wr >> 24u64) & 1u64 == 1u64 { 0u64 | (1u64 << 24u64) } else { 0u64 }) | (1u64 << 25u64) } else { (if (wr >> 24u64) & 1u64 == 1u64 { 0u64 | (1u64 << 24u64) } else { 0u64 }) }) }) | (1u64 << 27u64) } else { (if (wr >> 26u64) & 1u64 == 1u64 { (if (wr >> 25u64) & 1u64 == 1u64 { (if (wr >> 24u64) & 1u64 == 1u64 { 0u64 | (1u64 << 24u64) } else { 0u64 }) | (1u64 << 25u64) } else { (if (wr >> 24u64) & 1u64 == 1u64 { 0u64 | (1u64 << 24u64) } else { 0u64 }) }) | (1u64 << 26u64) } else { (if (wr >> 25u64) & 1u64 == 1u64 { (if (wr >> 24u64) & 1u64 == 1u64 { 0u64 | (1u64 << 24u64) } else { 0u64 }) | (1u64 << 25u64) } else { (if (wr >> 24u64) & 1u64 == 1u64 { 0u64 | (1u64 << 24u64) } else { 0u64 }) }) }) }) }) | (1u64 << 29u64) } else { (if (wr >> 28u64) & 1u64 == 1u64 { (if (wr >> 27u64) & 1u64 == 1u64 { (if (wr >> 26u64) & 1u64 == 1u64 { (if (wr >> 25u64) & 1u64 == 1u64 { (if (wr >> 24u64) & 1u64 == 1u64 { 0u64 | (1u64 << 24u64) } else { 0u64 }) | (1u64 << 25u64) } else { (if (wr >> 24u64) & 1u64 == 1u64 { 0u64 | (1u64 << 24u64) } else { 0u64 }) }) | (1u64 << 26u64) } else { (if (wr >> 25u64) & 1u64 == 1u64 { (if (wr >> 24u64) & 1u64 == 1u64 { 0u64 | (1u64 << 24u64) } else { 0u64 }) | (1u64 << 25u64) } else { (if (wr >> 24u64) & 1u64 == 1u64 { 0u64 | (1u64 << 24u64) } else { 0u64 }) }) }) | (1u64 << 27u64) } else { (if (wr >> 26u64) & 1u64 == 1u64 { (if (wr >> 25u64) & 1u64 == 1u64 { (if (wr >> 24u64) & 1u64 == 1u64 { 0u64 | (1u64 << 24u64) } else { 0u64 }) | (1u64 << 25u64) } else { (if (wr >> 24u64) & 1u64 == 1u64 { 0u64 | (1u64 << 24u64) } else { 0u64 }) }) | (1u64 << 26u64) } else { (if (wr >> 25u64) & 1u64 == 1u64 { (if (wr >> 24u64) & 1u64 == 1u64 { 0u64 | (1u64 << 24u64) } else { 0u64 }) | (1u64 << 25u64) } else { (if (wr >> 24u64) & 1u64 == 1u64 { 0u64 | (1u64 << 24u64) } else { 0u64 }) }) }) }) | (1u64 << 28u64) } else { (if (wr >> 27u64) & 1u64 == 1u64 { (if (wr >> 26u64) & 1u64 == 1u64 { (if (wr >> 25u64) & 1u64 == 1u64 { (if (wr >> 24u64) & 1u64 == 1u64 { 0u64 | (1u64 << 24u64) } else { 0u64 }) | (1u64 << 25u64) } else { (if (wr >> 24u64) & 1u64 == 1u64 { 0u64 | (1u64 << 24u64) } else { 0u64 }) }) | (1u64 << 26u64) } else { (if (wr >> 25u64) & 1u64 == 1u64 { (if (wr >> 24u64) & 1u64 == 1u64 { 0u64 | (1u64 << 24u64) } else { 0u64 }) | (1u64 << 25u64) } else { (if (wr >> 24u64) & 1u64 == 1u64 { 0u64 | (1u64 << 24u64) } else { 0u64 }) }) }) | (1u64 << 27u64) } else { (if (wr >> 26u64) & 1u64 == 1u64 { (if (wr >> 25u64) & 1u64 == 1u64 { (if (wr >> 24u64) & 1u64 == 1u64 { 0u64 | (1u64 << 24u64) } else { 0u64 }) | (1u64 << 25u64) } else { (if (wr >> 24u64) & 1u64 == 1u64 { 0u64 | (1u64 << 24u64) } else { 0u64 }) }) | (1u64 << 26u64) } else { (if (wr >> 25u64) & 1u64 == 1u64 { (if (wr >> 24u64) & 1u64 == 1u64 { 0u64 | (1u64 << 24u64) } else { 0u64 }) | (1u64 << 25u64) } else { (if (wr >> 24u64) & 1u64 == 1u64 { 0u64 | (1u64 << 24u64) } else { 0u64 }) }) }) }) }) }) }) }) | (1u64 << 23u64) } else { (if (wr >> 31u64) & 1u64 == 1u64 { (if (wr >> 30u64) & 1u64 == 1u64 { (if (wr >> 29u64) & 1u64 == 1u64 { (if (wr >> 28u64) & 1u64 == 1u64 { (if (wr >> 27u64) & 1u64 == 1u64 { (if (wr >> 26u64) & 1u64 == 1u64 { (if (wr >> 25u64) & 1u64 == 1u64 { (if (wr >> 24u64) & 1u64 == 1u64 { 0u64 | (1u64 << 24u64) } else { 0u64 }) | (1u64 << 25u64) } else { (if (wr >> 24u64) & 1u64 == 1u64 { 0u64 | (1u64 << 24u64) } else { 0u64 }) }) | (1u64 << 26u64) } else { (if (wr >> 25u64) & 1u64 == 1u64 { (if (wr >> 24u64) & 1u64 == 1u64 { 0u64 | (1u64 << 24u64) } else { 0u64 }) | (1u64 << 25u64) } else { (if (wr >> 24u64) & 1u64 == 1u64 { 0u64 | (1u64 << 24u64) } else { 0u64 }) }) }) | (1u64 << 27u64) } else { (if (wr >> 26u64) & 1u64 == 1u64 { (if (wr >> 25u64) & 1u64 == 1u64 { (if (wr >> 24u64) & 1u64 == 1u64 { 0u64 | (1u64 << 24u64) } else { 0u64 }) | (1u64 << 25u64) } else { (if (wr >> 24u64) & 1u64 == 1u64 { 0u64 | (1u64 << 24u64) } else { 0u64 }) }) | (1u64 << 26u64) } else { (if (wr >> 25u64) & 1u64 == 1u64 { (if (wr >> 24u64) & 1u64 == 1u64 { 0u64 | (1u64 << 24u64) } else { 0u64 }) | (1u64 << 25u64) } else { (if (wr >> 24u64) & 1u64 == 1u64 { 0u64 | (1u64 << 24u64) } else { 0u64 }) }) }) }) | (1u64 << 28u64) } else { (if (wr >> 27u64) & 1u64 == 1u64 { (if (wr >> 26u64) & 1u64 == 1u64 { (if (wr >> 25u64) & 1u64 == 1u64 { (if (wr >> 24u64) & 1u64 == 1u64 { 0u64 | (1u64 << 24u64) } else { 0u64 }) | (1u64 << 25u64) } else { (if (wr >> 24u64) & 1u64 == 1u64 { 0u64 | (1u64 << 24u64) } else { 0u64 }) }) | (1u64 << 26u64) } else { (if (wr >> 25u64) & 1u64 == 1u64 { (if (wr >> 24u64) & 1u64 == 1u64 { 0u64 | (1u64 << 24u64) } else { 0u64 }) | (1u64 << 25u64) } else { (if (wr >> 24u64) & 1u64 == 1u64 { 0u64 | (1u64 << 24u64) } else { 0u64 }) }) }) | (1u64 << 27u64) } else { (if (wr >> 26u64) & 1u64 == 1u64 { (if (wr >> 25u64) & 1u64 == 1u64 { (if (wr >> 24u64) & 1u64 == 1u64 { 0u64 | (1u64 << 24u64) } else { 0u64 }) | (1u64 << 25u64) } else { (if (wr >> 24u64) & 1u64 == 1u64 { 0u64 | (1u64 << 24u64) } else { 0u64 }) }) | (1u64 << 26u64) } else { (if (wr >> 25u64) & 1u64 == 1u64 { (if (wr >> 24u64) & 1u64 == 1u64 { 0u64 | (1u64 << 24u64) } else { 0u64 }) | (1u64 << 25u64) } else { (if (wr >> 24u64) & 1u64 == 1u64 { 0u64 | (1u64 << 24u64) } else { 0u64 }) }) }) }) }) | (1u64 << 29u64) } else { (if (wr >> 28u64) & 1u64 == 1u64 { (if (wr >> 27u64) & 1u64 == 1u64 { (if (wr >> 26u64) & 1u64 == 1u64 { (if (wr >> 25u64) & 1u64 == 1u64 { (if (wr >> 24u64) & 1u64 == 1u64 { 0u64 | (1u64 << 24u64) } else { 0u64 }) | (1u64 << 25u64) } else { (if (wr >> 24u64) & 1u64 == 1u64 { 0u64 | (1u64 << 24u64) } else { 0u64 }) }) | (1u64 << 26u64) } else { (if (wr >> 25u64) & 1u64 == 1u64 { (if (wr >> 24u64) & 1u64 == 1u64 { 0u64 | (1u64 << 24u64) } else { 0u64 }) | (1u64 << 25u64) } else { (if (wr >> 24u64) & 1u64 == 1u64 { 0u64 | (1u64 << 24u64) } else { 0u64 }) }) }) | (1u64 << 27u64) } else { (if (wr >> 26u64) & 1u64 == 1u64 { (if (wr >> 25u64) & 1u64 == 1u64 { (if (wr >> 24u64) & 1u64 == 1u64 { 0u64 | (1u64 << 24u64) } else { 0u64 }) | (1u64 << 25u64) } else { (if (wr >> 24u64) & 1u64 == 1u64 { 0u64 | (1u64 << 24u64) } else { 0u64 }) }) | (1u64 << 26u64) } else { (if (wr >> 25u64) & 1u64 == 1u64 { (if (wr >> 24u64) & 1u64 == 1u64 { 0u64 | (1u64 << 24u64) } else { 0u64 }) | (1u64 << 25u64) } else { (if (wr >> 24u64) & 1u64 == 1u64 { 0u64 | (1u64 << 24u64) } else { 0u64 }) }) }) }) | (1u64 << 28u64) } else { (if (wr >> 27u64) & 1u64 == 1u64 { (if (wr >> 26u64) & 1u64 == 1u64 { (if (wr >> 25u64) & 1u64 == 1u64 { (if (wr >> 24u64) & 1u64 == 1u64 { 0u64 | (1u64 << 24u64) } else { 0u64 }) | (1u64 << 25u64) } else { (if (wr >> 24u64) & 1u64 == 1u64 { 0u64 | (1u64 << 24u64) } else { 0u64 }) }) | (1u64 << 26u64) } else { (if (wr >> 25u64) & 1u64 == 1u64 { (if (wr >> 24u64) & 1u64 == 1u64 { 0u64 | (1u64 << 24u64) } else { 0u64 }) | (1u64 << 25u64) } else { (if (wr >> 24u64) & 1u64 == 1u64 { 0u64 | (1u64 << 24u64) } else { 0u64 }) }) }) | (1u64 << 27u64) } else { (if (wr >> 26u64) & 1u64 == 1u64 { (if (wr >> 25u64) & 1u64 == 1u64 { (if (wr >> 24u64) & 1u64 == 1u64 { 0u64 | (1u64 << 24u64) } else { 0u64 }) | (1u64 << 25u64) } else { (if (wr >> 24u64) & 1u64 == 1u64 { 0u64 | (1u64 << 24u64) } else { 0u64 }) }) | (1u64 << 26u64) } else { (if (wr >> 25u64) & 1u64 == 1u64 { (if (wr >> 24u64) & 1u64 == 1u64 { 0u64 | (1u64 << 24u64) } else { 0u64 }) | (1u64 << 25u64) } else { (if (wr >> 24u64) & 1u64 == 1u64 { 0u64 | (1u64 << 24u64) } else { 0u64 }) }) }) }) }) }) | (1u64 << 30u64) } else { (if (wr >> 29u64) & 1u64 == 1u64 { (if (wr >> 28u64) & 1u64 == 1u64 { (if (wr >> 27u64) & 1u64 == 1u64 { (if (wr >> 26u64) & 1u64 == 1u64 { (if (wr >> 25u64) & 1u64 == 1u64 { (if (wr >> 24u64) & 1u64 == 1u64 { 0u64 | (1u64 << 24u64) } else { 0u64 }) | (1u64 << 25u64) } else { (if (wr >> 24u64) & 1u64 == 1u64 { 0u64 | (1u64 << 24u64) } else { 0u64 }) }) | (1u64 << 26u64) } else { (if (wr >> 25u64) & 1u64 == 1u64 { (if (wr >> 24u64) & 1u64 == 1u64 { 0u64 | (1u64 << 24u64) } else { 0u64 }) | (1u64 << 25u64) } else { (if (wr >> 24u64) & 1u64 == 1u64 { 0u64 | (1u64 << 24u64) } else { 0u64 }) }) }) | (1u64 << 27u64) } else { (if (wr >> 26u64) & 1u64 == 1u64 { (if (wr >> 25u64) & 1u64 == 1u64 { (if (wr >> 24u64) & 1u64 == 1u64 { 0u64 | (1u64 << 24u64) } else { 0u64 }) | (1u64 << 25u64) } else { (if (wr >> 24u64) & 1u64 == 1u64 { 0u64 | (1u64 << 24u64) } else { 0u64 }) }) | (1u64 << 26u64) } else { (if (wr >> 25u64) & 1u64 == 1u64 { (if (wr >> 24u64) & 1u64 == 1u64 { 0u64 | (1u64 << 24u64) } else { 0u64 }) | (1u64 << 25u64) } else { (if (wr >> 24u64) & 1u64 == 1u64 { 0u64 | (1u64 << 24u64) } else { 0u64 }) }) }) }) | (1u64 << 28u64) } else { (if (wr >> 27u64) & 1u64 == 1u64 { (if (wr >> 26u64) & 1u64 == 1u64 { (if (wr >> 25u64) & 1u64 == 1u64 { (if (wr >> 24u64) & 1u64 == 1u64 { 0u64 | (1u64 << 24u64) } else { 0u64 }) | (1u64 << 25u64) } else { (if (wr >> 24u64) & 1u64 == 1u64 { 0u64 | (1u64 << 24u64) } else { 0u64 }) }) | (1u64 << 26u64) } else { (if (wr >> 25u64) & 1u64 == 1u64 { (if (wr >> 24u64) & 1u64 == 1u64 { 0u64 | (1u64 << 24u64) } else { 0u64 }) | (1u64 << 25u64) } else { (if (wr >> 24u64) & 1u64 == 1u64 { 0u64 | (1u64 << 24u64) } else { 0u64 }) }) }) | (1u64 << 27u64) } else { (if (wr >> 26u64) & 1u64 == 1u64 { (if (wr >> 25u64) & 1u64 == 1u64 { (if (wr >> 24u64) & 1u64 == 1u64 { 0u64 | (1u64 << 24u64) } else { 0u64 }) | (1u64 << 25u64) } else { (if (wr >> 24u64) & 1u64 == 1u64 { 0u64 | (1u64 << 24u64) } else { 0u64 }) }) | (1u64 << 26u64) } else { (if (wr >> 25u64) & 1u64 == 1u64 { (if (wr >> 24u64) & 1u64 == 1u64 { 0u64 | (1u64 << 24u64) } else { 0u64 }) | (1u64 << 25u64) } else { (if (wr >> 24u64) & 1u64 == 1u64 { 0u64 | (1u64 << 24u64) } else { 0u64 }) }) }) }) }) | (1u64 << 29u64) } else { (if (wr >> 28u64) & 1u64 == 1u64 { (if (wr >> 27u64) & 1u64 == 1u64 { (if (wr >> 26u64) & 1u64 == 1u64 { (if (wr >> 25u64) & 1u64 == 1u64 { (if (wr >> 24u64) & 1u64 == 1u64 { 0u64 | (1u64 << 24u64) } else { 0u64 }) | (1u64 << 25u64) } else { (if (wr >> 24u64) & 1u64 == 1u64 { 0u64 | (1u64 << 24u64) } else { 0u64 }) }) | (1u64 << 26u64) } else { (if (wr >> 25u64) & 1u64 == 1u64 { (if (wr >> 24u64) & 1u64 == 1u64 { 0u64 | (1u64 << 24u64) } else { 0u64 }) | (1u64 << 25u64) } else { (if (wr >> 24u64) & 1u64 == 1u64 { 0u64 | (1u64 << 24u64) } else { 0u64 }) }) }) | (1u64 << 27u64) } else { (if (wr >> 26u64) & 1u64 == 1u64 { (if (wr >> 25u64) & 1u64 == 1u64 { (if (wr >> 24u64) & 1u64 == 1u64 { 0u64 | (1u64 << 24u64) } else { 0u64 }) | (1u64 << 25u64) } else { (if (wr >> 24u64) & 1u64 == 1u64 { 0u64 | (1u64 << 24u64) } else { 0u64 }) }) | (1u64 << 26u64) } else { (if (wr >> 25u64) & 1u64 == 1u64 { (if (wr >> 24u64) & 1u64 == 1u64 { 0u64 | (1u64 << 24u64) } else { 0u64 }) | (1u64 << 25u64) } else { (if (wr >> 24u64) & 1u64 == 1u64 { 0u64 | (1u64 << 24u64) } else { 0u64 }) }) }) }) | (1u64 << 28u64) } else { (if (wr >> 27u64) & 1u64 == 1u64 { (if (wr >> 26u64) & 1u64 == 1u64 { (if (wr >> 25u64) & 1u64 == 1u64 { (if (wr >> 24u64) & 1u64 == 1u64 { 0u64 | (1u64 << 24u64) } else { 0u64 }) | (1u64 << 25u64) } else { (if (wr >> 24u64) & 1u64 == 1u64 { 0u64 | (1u64 << 24u64) } else { 0u64 }) }) | (1u64 << 26u64) } else { (if (wr >> 25u64) & 1u64 == 1u64 { (if (wr >> 24u64) & 1u64 == 1u64 { 0u64 | (1u64 << 24u64) } else { 0u64 }) | (1u64 << 25u64) } else { (if (wr >> 24u64) & 1u64 == 1u64 { 0u64 | (1u64 << 24u64) } else { 0u64 }) }) }) | (1u64 << 27u64) } else { (if (wr >> 26u64) & 1u64 == 1u64 { (if (wr >> 25u64) & 1u64 == 1u64 { (if (wr >> 24u64) & 1u64 == 1u64 { 0u64 | (1u64 << 24u64) } else { 0u64 }) | (1u64 << 25u64) } else { (if (wr >> 24u64) & 1u64 == 1u64 { 0u64 | (1u64 << 24u64) } else { 0u64 }) }) | (1u64 << 26u64) } else { (if (wr >> 25u64) & 1u64 == 1u64 { (if (wr >> 24u64) & 1u64 == 1u64 { 0u64 | (1u64 << 24u64) } else { 0u64 }) | (1u64 << 25u64) } else { (if (wr >> 24u64) & 1u64 == 1u64 { 0u64 | (1u64 << 24u64) } else { 0u64 }) }) }) }) }) }) }) | (1u64 << 31u64) } else { (if (wr >> 30u64) & 1u64 == 1u64 { (if (wr >> 29u64) & 1u64 == 1u64 { (if (wr >> 28u64) & 1u64 == 1u64 { (if (wr >> 27u64) & 1u64 == 1u64 { (if (wr >> 26u64) & 1u64 == 1u64 { (if (wr >> 25u64) & 1u64 == 1u64 { (if (wr >> 24u64) & 1u64 == 1u64 { 0u64 | (1u64 << 24u64) } else { 0u64 }) | (1u64 << 25u64) } else { (if (wr >> 24u64) & 1u64 == 1u64 { 0u64 | (1u64 << 24u64) } else { 0u64 }) }) | (1u64 << 26u64) } else { (if (wr >> 25u64) & 1u64 == 1u64 { (if (wr >> 24u64) & 1u64 == 1u64 { 0u64 | (1u64 << 24u64) } else { 0u64 }) | (1u64 << 25u64) } else { (if (wr >> 24u64) & 1u64 == 1u64 { 0u64 | (1u64 << 24u64) } else { 0u64 }) }) }) | (1u64 << 27u64) } else { (if (wr >> 26u64) & 1u64 == 1u64 { (if (wr >> 25u64) & 1u64 == 1u64 { (if (wr >> 24u64) & 1u64 == 1u64 { 0u64 | (1u64 << 24u64) } else { 0u64 }) | (1u64 << 25u64) } else { (if (wr >> 24u64) & 1u64 == 1u64 { 0u64 | (1u64 << 24u64) } else { 0u64 }) }) | (1u64 << 26u64) } else { (if (wr >> 25u64) & 1u64 == 1u64 { (if (wr >> 24u64) & 1u64 == 1u64 { 0u64 | (1u64 << 24u64) } else { 0u64 }) | (1u64 << 25u64) } else { (if (wr >> 24u64) & 1u64 == 1u64 { 0u64 | (1u64 << 24u64) } else { 0u64 }) }) }) }) | (1u64 << 28u64) } else { (if (wr >> 27u64) & 1u64 == 1u64 { (if (wr >> 26u64) & 1u64 == 1u64 { (if (wr >> 25u64) & 1u64 == 1u64 { (if (wr >> 24u64) & 1u64 == 1u64 { 0u64 | (1u64 << 24u64) } else { 0u64 }) | (1u64 << 25u64) } else { (if (wr >> 24u64) & 1u64 == 1u64 { 0u64 | (1u64 << 24u64) } else { 0u64 }) }) | (1u64 << 26u64) } else { (if (wr >> 25u64) & 1u64 == 1u64 { (if (wr >> 24u64) & 1u64 == 1u64 { 0u64 | (1u64 << 24u64) } else { 0u64 }) | (1u64 << 25u64) } else { (if (wr >> 24u64) & 1u64 == 1u64 { 0u64 | (1u64 << 24u64) } else { 0u64 }) }) }) | (1u64 << 27u64) } else { (if (wr >> 26u64) & 1u64 == 1u64 { (if (wr >> 25u64) & 1u64 == 1u64 { (if (wr >> 24u64) & 1u64 == 1u64 { 0u64 | (1u64 << 24u64) } else { 0u64 }) | (1u64 << 25u64) } else { (if (wr >> 24u64) & 1u64 == 1u64 { 0u64 | (1u64 << 24u64) } else { 0u64 }) }) | (1u64 << 26u64) } else { (if (wr >> 25u64) & 1u64 == 1u64 { (if (wr >> 24u64) & 1u64 == 1u64 { 0u64 | (1u64 << 24u64) } else { 0u64 }) | (1u64 << 25u64) } else { (if (wr >> 24u64) & 1u64 == 1u64 { 0u64 | (1u64 << 24u64) } else { 0u64 }) }) }) }) }) | (1u64 << 29u64) } else { (if (wr >> 28u64) & 1u64 == 1u64 { (if (wr >> 27u64) & 1u64 == 1u64 { (if (wr >> 26u64) & 1u64 == 1u64 { (if (wr >> 25u64) & 1u64 == 1u64 { (if (wr >> 24u64) & 1u64 == 1u64 { 0u64 | (1u64 << 24u64) } else { 0u64 }) | (1u64 << 25u64) } else { (if (wr >> 24u64) & 1u64 == 1u64 { 0u64 | (1u64 << 24u64) } else { 0u64 }) }) | (1u64 << 26u64) } else { (if (wr >> 25u64) & 1u64 == 1u64 { (if (wr >> 24u64) & 1u64 == 1u64 { 0u64 | (1u64 << 24u64) } else { 0u64 }) | (1u64 << 25u64) } else { (if (wr >> 24u64) & 1u64 == 1u64 { 0u64 | (1u64 << 24u64) } else { 0u64 }) }) }) | (1u64 << 27u64) } else { (if (wr >> 26u64) & 1u64 == 1u64 { (if (wr >> 25u64) & 1u64 == 1u64 { (if (wr >> 24u64) & 1u64 == 1u64 { 0u64 | (1u64 << 24u64) } else { 0u64 }) | (1u64 << 25u64) } else { (if (wr >> 24u64) & 1u64 == 1u64 { 0u64 | (1u64 << 24u64) } else { 0u64 }) }) | (1u64 << 26u64) } else { (if (wr >> 25u64) & 1u64 == 1u64 { (if (wr >> 24u64) & 1u64 == 1u64 { 0u64 | (1u64 << 24u64) } else { 0u64 }) | (1u64 << 25u64) } else { (if (wr >> 24u64) & 1u64 == 1u64 { 0u64 | (1u64 << 24u64) } else { 0u64 }) }) }) }) | (1u64 << 28u64) } else { (if (wr >> 27u64) & 1u64 == 1u64 { (if (wr >> 26u64) & 1u64 == 1u64 { (if (wr >> 25u64) & 1u64 == 1u64 { (if (wr >> 24u64) & 1u64 == 1u64 { 0u64 | (1u64 << 24u64) } else { 0u64 }) | (1u64 << 25u64) } else { (if (wr >> 24u64) & 1u64 == 1u64 { 0u64 | (1u64 << 24u64) } else { 0u64 }) }) | (1u64 << 26u64) } else { (if (wr >> 25u64) & 1u64 == 1u64 { (if (wr >> 24u64) & 1u64 == 1u64 { 0u64 | (1u64 << 24u64) } else { 0u64 }) | (1u64 << 25u64) } else { (if (wr >> 24u64) & 1u64 == 1u64 { 0u64 | (1u64 << 24u64) } else { 0u64 }) }) }) | (1u64 << 27u64) } else { (if (wr >> 26u64) & 1u64 == 1u64 { (if (wr >> 25u64) & 1u64 == 1u64 { (if (wr >> 24u64) & 1u64 == 1u64 { 0u64 | (1u64 << 24u64) } else { 0u64 }) | (1u64 << 25u64) } else { (if (wr >> 24u64) & 1u64 == 1u64 { 0u64 | (1u64 << 24u64) } else { 0u64 }) }) | (1u64 << 26u64) } else { (if (wr >> 25u64) & 1u64 == 1u64 { (if (wr >> 24u64) & 1u64 == 1u64 { 0u64 | (1u64 << 24u64) } else { 0u64 }) | (1u64 << 25u64) } else { (if (wr >> 24u64) & 1u64 == 1u64 { 0u64 | (1u64 << 24u64) } else { 0u64 }) }) }) }) }) }) | (1u64 << 30u64) } else { (if (wr >> 29u64) & 1u64 == 1u64 { (if (wr >> 28u64) & 1u64 == 1u64 { (if (wr >> 27u64) & 1u64 == 1u64 { (if (wr >> 26u64) & 1u64 == 1u64 { (if (wr >> 25u64) & 1u64 == 1u64 { (if (wr >> 24u64) & 1u64 == 1u64 { 0u64 | (1u64 << 24u64) } else { 0u64 }) | (1u64 << 25u64) } else { (if (wr >> 24u64) & 1u64 == 1u64 { 0u64 | (1u64 << 24u64) } else { 0u64 }) }) | (1u64 << 26u64) } else { (if (wr >> 25u64) & 1u64 == 1u64 { (if (wr >> 24u64) & 1u64 == 1u64 { 0u64 | (1u64 << 24u64) } else { 0u64 }) | (1u64 << 25u64) } else { (if (wr >> 24u64) & 1u64 == 1u64 { 0u64 | (1u64 << 24u64) } else { 0u64 }) }) }) | (1u64 << 27u64) } else { (if (wr >> 26u64) & 1u64 == 1u64 { (if (wr >> 25u64) & 1u64 == 1u64 { (if (wr >> 24u64) & 1u64 == 1u64 { 0u64 | (1u64 << 24u64) } else { 0u64 }) | (1u64 << 25u64) } else { (if (wr >> 24u64) & 1u64 == 1u64 { 0u64 | (1u64 << 24u64) } else { 0u64 }) }) | (1u64 << 26u64) } else { (if (wr >> 25u64) & 1u64 == 1u64 { (if (wr >> 24u64) & 1u64 == 1u64 { 0u64 | (1u64 << 24u64) } else { 0u64 }) | (1u64 << 25u64) } else { (if (wr >> 24u64) & 1u64 == 1u64 { 0u64 | (1u64 << 24u64) } else { 0u64 }) }) }) }) | (1u64 << 28u64) } else { (if (wr >> 27u64) & 1u64 == 1u64 { (if (wr >> 26u64) & 1u64 == 1u64 { (if (wr >> 25u64) & 1u64 == 1u64 { (if (wr >> 24u64) & 1u64 == 1u64 { 0u64 | (1u64 << 24u64) } else { 0u64 }) | (1u64 << 25u64) } else { (if (wr >> 24u64) & 1u64 == 1u64 { 0u64 | (1u64 << 24u64) } else { 0u64 }) }) | (1u64 << 26u64) } else { (if (wr >> 25u64) & 1u64 == 1u64 { (if (wr >> 24u64) & 1u64 == 1u64 { 0u64 | (1u64 << 24u64) } else { 0u64 }) | (1u64 << 25u64) } else { (if (wr >> 24u64) & 1u64 == 1u64 { 0u64 | (1u64 << 24u64) } else { 0u64 }) }) }) | (1u64 << 27u64) } else { (if (wr >> 26u64) & 1u64 == 1u64 { (if (wr >> 25u64) & 1u64 == 1u64 { (if (wr >> 24u64) & 1u64 == 1u64 { 0u64 | (1u64 << 24u64) } else { 0u64 }) | (1u64 << 25u64) } else { (if (wr >> 24u64) & 1u64 == 1u64 { 0u64 | (1u64 << 24u64) } else { 0u64 }) }) | (1u64 << 26u64) } else { (if (wr >> 25u64) & 1u64 == 1u64 { (if (wr >> 24u64) & 1u64 == 1u64 { 0u64 | (1u64 << 24u64) } else { 0u64 }) | (1u64 << 25u64) } else { (if (wr >> 24u64) & 1u64 == 1u64 { 0u64 | (1u64 << 24u64) } else { 0u64 }) }) }) }) }) | (1u64 << 29u64) } else { (if (wr >> 28u64) & 1u64 == 1u64 { (if (wr >> 27u64) & 1u64 == 1u64 { (if (wr >> 26u64) & 1u64 == 1u64 { (if (wr >> 25u64) & 1u64 == 1u64 { (if (wr >> 24u64) & 1u64 == 1u64 { 0u64 | (1u64 << 24u64) } else { 0u64 }) | (1u64 << 25u64) } else { (if (wr >> 24u64) & 1u64 == 1u64 { 0u64 | (1u64 << 24u64) } else { 0u64 }) }) | (1u64 << 26u64) } else { (if (wr >> 25u64) & 1u64 == 1u64 { (if (wr >> 24u64) & 1u64 == 1u64 { 0u64 | (1u64 << 24u64) } else { 0u64 }) | (1u64 << 25u64) } else { (if (wr >> 24u64) & 1u64 == 1u64 { 0u64 | (1u64 << 24u64) } else { 0u64 }) }) }) | (1u64 << 27u64) } else { (if (wr >> 26u64) & 1u64 == 1u64 { (if (wr >> 25u64) & 1u64 == 1u64 { (if (wr >> 24u64) & 1u64 == 1u64 { 0u64 | (1u64 << 24u64) } else { 0u64 }) | (1u64 << 25u64) } else { (if (wr >> 24u64) & 1u64 == 1u64 { 0u64 | (1u64 << 24u64) } else { 0u64 }) }) | (1u64 << 26u64) } else { (if (wr >> 25u64) & 1u64 == 1u64 { (if (wr >> 24u64) & 1u64 == 1u64 { 0u64 | (1u64 << 24u64) } else { 0u64 }) | (1u64 << 25u64) } else { (if (wr >> 24u64) & 1u64 == 1u64 { 0u64 | (1u64 << 24u64) } else { 0u64 }) }) }) }) | (1u64 << 28u64) } else { (if (wr >> 27u64) & 1u64 == 1u64 { (if (wr >> 26u64) & 1u64 == 1u64 { (if (wr >> 25u64) & 1u64 == 1u64 { (if (wr >> 24u64) & 1u64 == 1u64 { 0u64 | (1u64 << 24u64) } else { 0u64 }) | (1u64 << 25u64) } else { (if (wr >> 24u64) & 1u64 == 1u64 { 0u64 | (1u64 << 24u64) } else { 0u64 }) }) | (1u64 << 26u64) } else { (if (wr >> 25u64) & 1u64 == 1u64 { (if (wr >> 24u64) & 1u64 == 1u64 { 0u64 | (1u64 << 24u64) } else { 0u64 }) | (1u64 << 25u64) } else { (if (wr >> 24u64) & 1u64 == 1u64 { 0u64 | (1u64 << 24u64) } else { 0u64 }) }) }) | (1u64 << 27u64) } else { (if (wr >> 26u64) & 1u64 == 1u64 { (if (wr >> 25u64) & 1u64 == 1u64 { (if (wr >> 24u64) & 1u64 == 1u64 { 0u64 | (1u64 << 24u64) } else { 0u64 }) | (1u64 << 25u64) } else { (if (wr >> 24u64) & 1u64 == 1u64 { 0u64 | (1u64 << 24u64) } else { 0u64 }) }) | (1u64 << 26u64) } else { (if (wr >> 25u64) & 1u64 == 1u64 { (if (wr >> 24u64) & 1u64 == 1u64 { 0u64 | (1u64 << 24u64) } else { 0u64 }) | (1u64 << 25u64) } else { (if (wr >> 24u64) & 1u64 == 1u64 { 0u64 | (1u64 << 24u64) } else { 0u64 }) }) }) }) }) }) }) }) }) }) }) }),
{
}

pub(crate) proof fn lemma_join_concat(p: Seq<Seq<char>>, q: Seq<Seq<char>>, sep: Seq<char>)
    requires
        p.len() > 0,
        q.len() > 0,
    ensures
        join(p + q, sep) == join(p, sep) + sep + join(q, sep),
    decreases q.len(),
{
    if q.len() == 1 {
        assert((p + q).drop_last() =~= p);
        assert((p + q).last() == q[0]);
    } else {
        lemma_join_concat(p, q.drop_last(), sep);
        assert((p + q).drop_last() =~= p + q.drop_last());
        assert((p + q).last() == q.last());
    }
}

/// Joining with `N, Z` as one item or as two.
pub(crate) proof fn lemma_join_nz(p: Seq<Seq<char>>, q: Seq<Seq<char>>)
    ensures
        join(p + seq!["N, Z"@] + q, ", "@) == join(p + seq!["N"@, "Z"@] + q, ", "@),
{
    reveal_strlit("N, Z");
    reveal_strlit("N");
    reveal_strlit("Z");
    reveal_strlit(", ");
    let m1 = seq!["N, Z"@];
    let m2 = seq!["N"@, "Z"@];
    lemma_join2("N"@, "Z"@, ", "@);
    assert(join(m2, ", "@) =~= "N, Z"@);
    assert(join(m1, ", "@) == "N, Z"@);
    if q.len() > 0 {
        lemma_join_concat(m1, q, ", "@);
        lemma_join_concat(m2, q, ", "@);
    } else {
        assert(m1 + q =~= m1);
        assert(m2 + q =~= m2);
    }
    if p.len() > 0 {
        lemma_join_concat(p, m1 + q, ", "@);
        lemma_join_concat(p, m2 + q, ", "@);
        assert(p + m1 + q =~= p + (m1 + q));
        assert(p + m2 + q =~= p + (m2 + q));
    } else {
        assert(p + m1 + q =~= m1 + q);
        assert(p + m2 + q =~= m2 + q);
    }
}

pub(crate) proof fn lemma_wtoks_count(x: u64, m: nat)
    requires
        m <= 12,
    ensures
        wtoks(x, m).len() == 0 ==> wacc(x, m) == 0,
    decreases m,
{
    if m > 0 {
        lemma_wtoks_count(x, (m - 1) as nat);
    }
}

pub(crate) proof fn lemma_join_ends(items: Seq<Seq<char>>, sep: Seq<char>)
    requires
        items.len() >= 1,
        forall|i: int| 0 <= i < items.len() ==> (#[trigger] items[i]).len() >= 1,
    ensures
        join(items, sep).len() >= 1,
        join(items, sep)[0] == items[0][0],
        join(items, sep).last() == items.last().last(),
    decreases items.len(),
{
    if items.len() > 1 {
        let init = items.drop_last();
        assert forall|i: int| 0 <= i < init.len() implies (#[trigger] init[i]).len() >= 1 by {
            assert(init[i] == items[i]);
        }
        lemma_join_ends(init, sep);
        assert(items[items.len() - 1].len() >= 1);
    }
}

} // verus!
