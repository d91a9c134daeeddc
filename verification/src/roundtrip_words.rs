//! Reading back the text of operational microcommands: destinations,
//! actions, and the whole text.
use vstd::prelude::*;
use crate::control_signals::{bit_at, holds, BaseCs};
use crate::command::{alu_full_text, omc_actions, omc_text, omc_transfer, opt, spec_mc, spec_text, write_items, Mc, Omc};
use crate::parse::{action_bits, actions_scan, omc_bits, sig, spec_parse, transfer_bits, writes_bits, Parsed};
use crate::roundtrip::{lacks, lemma_join_shape, lemma_split_concat, lemma_split_join, lemma_split_none, lemma_trim_id, lemma_trim_pad, no_lower, spaced};
use crate::roundtrip_omc::{
    lemma_join_ends, lemma_join_nz, lemma_omc_bit, lemma_wname, lemma_wr_decompose, lemma_writes_scan,
    lemma_wtoks_count, omc_parts_ok, omc_word, wacc, wname, wsig, wtoks, alu_ready, alu_expr, read_text,
    lemma_alu_expr_chars, lemma_alu_chars_no_newline, alu_char, comm_name, lemma_split_named,
    comm_code_bits, lemma_full_text, lemma_alu_text_omc, lemma_comm_code_range, alu_expr_bits, reg_bit,
    lemma_read_transfer_zero, lemma_read_transfer_plain, lemma_read_transfer_extend, lemma_read_transfer_named,
};
use crate::roundtrip::{lemma_upper_fixed, lemma_upper_concat, lemma_upper_if_then};
use crate::text::upper;
use crate::grammar::{arrow_len, is_spaced_arrow, last_arrow, lit_at, no_newline, single_action, space_run, spaces_from, transfer_split};
use crate::text::{drop_empty, is_ws, join, split, trim};

verus! {

/// Which destinations an operational word by its parts writes.
pub(crate) proof fn lemma_write_holds(
    rr: nat,
    lr: nat,
    comr: bool,
    coml: bool,
    pls: bool,
    sora: bool,
    cc: nat,
    wr: u64,
    acts: u64,
)
    requires
        omc_parts_ok(rr, lr, comr, coml, pls, sora, cc, wr, acts),
    ensures
        ({
            let x = omc_word(rr, lr, comr, coml, pls, sora, cc, wr, acts);
            &&& holds(x, BaseCs::WRDR) == ((wr >> 24u64) & 1u64 == 1u64)
            &&& holds(x, BaseCs::WRCR) == ((wr >> 25u64) & 1u64 == 1u64)
            &&& holds(x, BaseCs::WRIP) == ((wr >> 26u64) & 1u64 == 1u64)
            &&& holds(x, BaseCs::WRSP) == ((wr >> 27u64) & 1u64 == 1u64)
            &&& holds(x, BaseCs::WRAC) == ((wr >> 28u64) & 1u64 == 1u64)
            &&& holds(x, BaseCs::WRBR) == ((wr >> 29u64) & 1u64 == 1u64)
            &&& holds(x, BaseCs::WRPS) == ((wr >> 30u64) & 1u64 == 1u64)
            &&& holds(x, BaseCs::WRAR) == ((wr >> 31u64) & 1u64 == 1u64)
            &&& holds(x, BaseCs::STNZ) == ((wr >> 23u64) & 1u64 == 1u64)
            &&& holds(x, BaseCs::SETV) == ((wr >> 22u64) & 1u64 == 1u64)
            &&& holds(x, BaseCs::SETC) == ((wr >> 21u64) & 1u64 == 1u64)
        }),
{
    lemma_omc_bit(rr, lr, comr, coml, pls, sora, cc, wr, acts, 21);
    lemma_omc_bit(rr, lr, comr, coml, pls, sora, cc, wr, acts, 22);
    lemma_omc_bit(rr, lr, comr, coml, pls, sora, cc, wr, acts, 23);
    lemma_omc_bit(rr, lr, comr, coml, pls, sora, cc, wr, acts, 24);
    lemma_omc_bit(rr, lr, comr, coml, pls, sora, cc, wr, acts, 25);
    lemma_omc_bit(rr, lr, comr, coml, pls, sora, cc, wr, acts, 26);
    lemma_omc_bit(rr, lr, comr, coml, pls, sora, cc, wr, acts, 27);
    lemma_omc_bit(rr, lr, comr, coml, pls, sora, cc, wr, acts, 28);
    lemma_omc_bit(rr, lr, comr, coml, pls, sora, cc, wr, acts, 29);
    lemma_omc_bit(rr, lr, comr, coml, pls, sora, cc, wr, acts, 30);
    lemma_omc_bit(rr, lr, comr, coml, pls, sora, cc, wr, acts, 31);
}

proof fn lemma_wacc_value(x: u64, wr: u64)
    requires
        wr & !0xFFE0_0000u64 == 0,

        holds(x, BaseCs::WRDR) == ((wr >> 24u64) & 1u64 == 1u64),
        holds(x, BaseCs::WRCR) == ((wr >> 25u64) & 1u64 == 1u64),
        holds(x, BaseCs::WRIP) == ((wr >> 26u64) & 1u64 == 1u64),
        holds(x, BaseCs::WRSP) == ((wr >> 27u64) & 1u64 == 1u64),
        holds(x, BaseCs::WRAC) == ((wr >> 28u64) & 1u64 == 1u64),
        holds(x, BaseCs::WRBR) == ((wr >> 29u64) & 1u64 == 1u64),
        holds(x, BaseCs::WRPS) == ((wr >> 30u64) & 1u64 == 1u64),
        holds(x, BaseCs::WRAR) == ((wr >> 31u64) & 1u64 == 1u64),
        holds(x, BaseCs::STNZ) == ((wr >> 23u64) & 1u64 == 1u64),
        holds(x, BaseCs::SETV) == ((wr >> 22u64) & 1u64 == 1u64),
        holds(x, BaseCs::SETC) == ((wr >> 21u64) & 1u64 == 1u64),
    ensures
        wacc(x, 12) == wr,
{
    reveal_with_fuel(wacc, 13);
    lemma_wr_decompose(wr);
}

proof fn lemma_join_nz2(p: Seq<Seq<char>>, v: Seq<Seq<char>>, c: Seq<Seq<char>>)
    ensures
        join(((p + seq!["N, Z"@]) + v) + c, ", "@) == join((((p + seq!["N"@]) + seq!["Z"@]) + v) + c, ", "@),
{
    let q = v + c;
    assert(((p + seq!["N, Z"@]) + v) + c =~= p + seq!["N, Z"@] + q);
    assert((((p + seq!["N"@]) + seq!["Z"@]) + v) + c =~= p + seq!["N"@, "Z"@] + q);
    lemma_join_nz(p, q);
}

proof fn lemma_write_join(x: u64)
    ensures
        join(write_items(x), ", "@) == join(wtoks(x, 12), ", "@),
{
    assert(wtoks(x, 0) == Seq::<Seq<char>>::empty());
    assert(wtoks(x, 1) == wtoks(x, 0) + opt(holds(x, BaseCs::WRDR), "DR"@));
    assert(wtoks(x, 2) == wtoks(x, 1) + opt(holds(x, BaseCs::WRCR), "CR"@));
    assert(wtoks(x, 3) == wtoks(x, 2) + opt(holds(x, BaseCs::WRIP), "IP"@));
    assert(wtoks(x, 4) == wtoks(x, 3) + opt(holds(x, BaseCs::WRSP), "SP"@));
    assert(wtoks(x, 5) == wtoks(x, 4) + opt(holds(x, BaseCs::WRAC), "AC"@));
    assert(wtoks(x, 6) == wtoks(x, 5) + opt(holds(x, BaseCs::WRBR), "BR"@));
    assert(wtoks(x, 7) == wtoks(x, 6) + opt(holds(x, BaseCs::WRPS), "PS"@));
    assert(wtoks(x, 8) == wtoks(x, 7) + opt(holds(x, BaseCs::WRAR), "AR"@));
    assert(wtoks(x, 9) == wtoks(x, 8) + opt(holds(x, BaseCs::STNZ), "N"@));
    assert(wtoks(x, 10) == wtoks(x, 9) + opt(holds(x, BaseCs::STNZ), "Z"@));
    assert(wtoks(x, 11) == wtoks(x, 10) + opt(holds(x, BaseCs::SETV), "V"@));
    assert(wtoks(x, 12) == wtoks(x, 11) + opt(holds(x, BaseCs::SETC), "C"@));
    let o0 = opt(holds(x, BaseCs::WRDR), "DR"@);
    assert(wtoks(x, 1) =~= o0);
    let s = holds(x, BaseCs::STNZ);
    let ov = opt(holds(x, BaseCs::SETV), "V"@);
    let oc = opt(holds(x, BaseCs::SETC), "C"@);
    let a = wtoks(x, 8);
    assert(write_items(x) == ((a + opt(s, "N, Z"@)) + ov) + oc);
    if s {
        lemma_join_nz2(a, ov, oc);
    } else {
        assert(a + opt(s, "N, Z"@) =~= a);
        assert((a + opt(s, "N"@)) + opt(s, "Z"@) =~= a);
    }
}

/// The destinations of an operational word by its parts, one token each.
pub(crate) proof fn lemma_write_text(
    rr: nat,
    lr: nat,
    comr: bool,
    coml: bool,
    pls: bool,
    sora: bool,
    cc: nat,
    wr: u64,
    acts: u64,
)
    requires
        omc_parts_ok(rr, lr, comr, coml, pls, sora, cc, wr, acts),
    ensures
        ({
            let x = omc_word(rr, lr, comr, coml, pls, sora, cc, wr, acts);
            &&& join(write_items(x), ", "@) == join(wtoks(x, 12), ", "@)
            &&& wacc(x, 12) == wr
            &&& wr != 0 ==> wtoks(x, 12).len() >= 1
        }),
{
    let x = omc_word(rr, lr, comr, coml, pls, sora, cc, wr, acts);
    lemma_write_holds(rr, lr, comr, coml, pls, sora, cc, wr, acts);
    lemma_wacc_value(x, wr);
    lemma_write_join(x);
    lemma_wtoks_count(x, 12);
}

/// The written destinations, after a space, read back as their signals.
pub(crate) proof fn lemma_read_writes(x: u64)
    requires
        wtoks(x, 12).len() >= 1,
    ensures
        writes_bits(" "@ + join(wtoks(x, 12), ", "@)) == Parsed::Bits(wacc(x, 12)),
        no_lower(join(wtoks(x, 12), ", "@)),
        no_newline(join(wtoks(x, 12), ", "@)),
        forall|k: int| 0 <= k < join(wtoks(x, 12), ", "@).len() ==> #[trigger] join(wtoks(x, 12), ", "@)[k] != ';'
            && join(wtoks(x, 12), ", "@)[k] != '→' && join(wtoks(x, 12), ", "@)[k] != '-'
            && join(wtoks(x, 12), ", "@)[k] != ')',
        join(wtoks(x, 12), ", "@).len() >= 1,
        !is_ws(join(wtoks(x, 12), ", "@)[0]),
        !is_ws(join(wtoks(x, 12), ", "@).last()),
{
    reveal_strlit(", ");
    let t = wtoks(x, 12);
    let w = join(t, ", "@);
    assert forall|i: int| 0 <= i < t.len() implies lacks(#[trigger] t[i], ',') && t[i].len() >= 1
        && lacks(t[i], 'T') && no_lower(t[i]) && no_newline(t[i]) && !is_ws(t[i][0]) && !is_ws(t[i].last())
        && (forall|k: int| 0 <= k < t[i].len() ==> 'A' <= #[trigger] t[i][k] <= 'Z') by {
        lemma_wtoks_shape_pub(x, i);
    }
    lemma_join_shape(t);
    lemma_join_ends(t, ", "@);
    assert(!is_ws(w[0]) && !is_ws(w.last())) by {
        assert(t[0].len() >= 1 && !is_ws(t[0][0]));
        assert(t[t.len() - 1].len() >= 1 && !is_ws(t[t.len() - 1].last()));
    }
    lemma_trim_pad(w);
    lemma_split_join(t);
    let toks = split(w, ',');
    assert forall|i: int| 0 <= i < toks.len() implies trim(#[trigger] toks[i]) == t[i] by {
        if i == 0 {
            lemma_trim_id(t[0]);
        } else {
            lemma_trim_pad(t[i]);
        }
    }
    lemma_writes_scan(x, toks, 12);
    lemma_join_chars(t);
}

/// Every character of joined destination tokens is a letter, `,` or space.
proof fn lemma_join_chars(t: Seq<Seq<char>>)
    requires
        forall|i: int| 0 <= i < t.len() ==> (forall|k: int| 0 <= k < (#[trigger] t[i]).len() ==> 'A' <= #[trigger] t[i][k] <= 'Z'),
    ensures
        forall|k: int| 0 <= k < join(t, ", "@).len() ==> #[trigger] join(t, ", "@)[k] != ';'
            && join(t, ", "@)[k] != '→' && join(t, ", "@)[k] != '-' && join(t, ", "@)[k] != ')',
    decreases t.len(),
{
    reveal_strlit(", ");
    if t.len() > 1 {
        let init = t.drop_last();
        assert forall|i: int| 0 <= i < init.len() implies (forall|k: int| 0 <= k < (#[trigger] init[i]).len() ==> 'A' <= #[trigger] init[i][k] <= 'Z') by {
            assert(init[i] == t[i]);
        }
        lemma_join_chars(init);
        let j = join(init, ", "@);
        let l = t.last();
        assert(t[t.len() - 1] == l);
        let s = join(t, ", "@);
        assert(s =~= j + ", "@ + l);
        assert forall|k: int| 0 <= k < s.len() implies #[trigger] s[k] != ';' && s[k] != '→' && s[k] != '-' && s[k] != ')' by {
            if k < j.len() {
                assert(s[k] == j[k]);
            } else if k >= j.len() + 2 {
                assert(s[k] == l[k - j.len() - 2]);
            }
        }
    } else if t.len() == 1 {
        assert(join(t, ", "@) == t[0]);
    }
}

/// A destination token is the name of one of the twelve.
proof fn lemma_wtoks_shape_pub(x: u64, i: int)
    requires
        0 <= i < wtoks(x, 12).len(),
    ensures
        ({
            let t = wtoks(x, 12)[i];
            &&& lacks(t, ',')
            &&& t.len() >= 1
            &&& lacks(t, 'T')
            &&& no_lower(t)
            &&& no_newline(t)
            &&& !is_ws(t[0])
            &&& !is_ws(t.last())
            &&& forall|k: int| 0 <= k < t.len() ==> 'A' <= #[trigger] t[k] <= 'Z'
        }),
{
    crate::roundtrip_omc::lemma_wtoks_shape(x, 12, i);
    let n = choose|n: nat| n < 12 && wtoks(x, 12)[i] == wname(n);
    lemma_wname(n);
}


// ---------------------------------------------------------------------------
// Actions

/// The upper-case text of action number `i` (0..5).
pub open spec fn aname(i: nat) -> Seq<char> {
    if i == 0 {
        "MEM(AR) → DR"@
    } else if i == 1 {
        "DR → MEM(AR)"@
    } else if i == 2 {
        "IO"@
    } else if i == 3 {
        "IRQSC"@
    } else {
        "HALT"@
    }
}

/// The signal of action number `i`.
pub open spec fn asig(i: nat) -> BaseCs {
    if i == 0 {
        BaseCs::LOAD
    } else if i == 1 {
        BaseCs::STOR
    } else if i == 2 {
        BaseCs::IO
    } else if i == 3 {
        BaseCs::INTS
    } else {
        BaseCs::HALT
    }
}

/// The upper-case action texts of `x` among the first `m`.
pub open spec fn aitems(x: u64, m: nat) -> Seq<Seq<char>>
    decreases m,
{
    if m == 0 {
        Seq::empty()
    } else {
        aitems(x, (m - 1) as nat) + opt(holds(x, asig((m - 1) as nat)), aname((m - 1) as nat))
    }
}

/// `st` with the signals of the actions of `x` among the first `m`.
pub open spec fn aacc(x: u64, m: nat, st: u64) -> u64
    decreases m,
{
    if m == 0 {
        st
    } else if holds(x, asig((m - 1) as nat)) {
        aacc(x, (m - 1) as nat, st) | sig(asig((m - 1) as nat))
    } else {
        aacc(x, (m - 1) as nat, st)
    }
}

proof fn lemma_acts_decompose(acts: u64, st: u64)
    by (bit_vector)
    requires
        acts & !0x4F_0000_0000u64 == 0,
    ensures
        (if (acts >> 38u64) & 1u64 == 1u64 { (if (acts >> 35u64) & 1u64 == 1u64 { (if (acts >> 34u64) & 1u64 == 1u64 { (if (acts >> 33u64) & 1u64 == 1u64 { (if (acts >> 32u64) & 1u64 == 1u64 { st | (1u64 << 32u64) } else { st }) | (1u64 << 33u64) } else { (if (acts >> 32u64) & 1u64 == 1u64 { st | (1u64 << 32u64) } else { st }) }) | (1u64 << 34u64) } else { (if (acts >> 33u64) & 1u64 == 1u64 { (if (acts >> 32u64) & 1u64 == 1u64 { st | (1u64 << 32u64) } else { st }) | (1u64 << 33u64) } else { (if (acts >> 32u64) & 1u64 == 1u64 { st | (1u64 << 32u64) } else { st }) }) }) | (1u64 << 35u64) } else { (if (acts >> 34u64) & 1u64 == 1u64 { (if (acts >> 33u64) & 1u64 == 1u64 { (if (acts >> 32u64) & 1u64 == 1u64 { st | (1u64 << 32u64) } else { st }) | (1u64 << 33u64) } else { (if (acts >> 32u64) & 1u64 == 1u64 { st | (1u64 << 32u64) } else { st }) }) | (1u64 << 34u64) } else { (if (acts >> 33u64) & 1u64 == 1u64 { (if (acts >> 32u64) & 1u64 == 1u64 { st | (1u64 << 32u64) } else { st }) | (1u64 << 33u64) } else { (if (acts >> 32u64) & 1u64 == 1u64 { st | (1u64 << 32u64) } else { st }) }) }) }) | (1u64 << 38u64) } else { (if (acts >> 35u64) & 1u64 == 1u64 { (if (acts >> 34u64) & 1u64 == 1u64 { (if (acts >> 33u64) & 1u64 == 1u64 { (if (acts >> 32u64) & 1u64 == 1u64 { st | (1u64 << 32u64) } else { st }) | (1u64 << 33u64) } else { (if (acts >> 32u64) & 1u64 == 1u64 { st | (1u64 << 32u64) } else { st }) }) | (1u64 << 34u64) } else { (if (acts >> 33u64) & 1u64 == 1u64 { (if (acts >> 32u64) & 1u64 == 1u64 { st | (1u64 << 32u64) } else { st }) | (1u64 << 33u64) } else { (if (acts >> 32u64) & 1u64 == 1u64 { st | (1u64 << 32u64) } else { st }) }) }) | (1u64 << 35u64) } else { (if (acts >> 34u64) & 1u64 == 1u64 { (if (acts >> 33u64) & 1u64 == 1u64 { (if (acts >> 32u64) & 1u64 == 1u64 { st | (1u64 << 32u64) } else { st }) | (1u64 << 33u64) } else { (if (acts >> 32u64) & 1u64 == 1u64 { st | (1u64 << 32u64) } else { st }) }) | (1u64 << 34u64) } else { (if (acts >> 33u64) & 1u64 == 1u64 { (if (acts >> 32u64) & 1u64 == 1u64 { st | (1u64 << 32u64) } else { st }) | (1u64 << 33u64) } else { (if (acts >> 32u64) & 1u64 == 1u64 { st | (1u64 << 32u64) } else { st }) }) }) }) }) == st | acts,
        0u64 | acts == acts,
{
}

/// An action text reads back as its signal.
proof fn lemma_aname(i: nat)
    requires
        i < 5,
    ensures
        action_bits(aname(i)) == Parsed::Bits(sig(asig(i))),
        trim(aname(i)) == aname(i),
        aname(i).len() >= 2,
        !is_ws(aname(i)[0]),
        !is_ws(aname(i).last()),
        lacks(aname(i), ';'),
        no_newline(aname(i)),
        aname(i)[0] != 'G',
        aname(i)[0] == 'I' ==> aname(i)[1] != 'F',
{
    reveal_strlit("MEM(AR) → DR");
    reveal_strlit("DR → MEM(AR)");
    reveal_strlit("MEM(AR)");
    reveal_strlit("DR");
    reveal_strlit("IO");
    reveal_strlit("IRQSC");
    reveal_strlit("INTS");
    reveal_strlit("HALT");
    reveal_strlit("->");
    let t = aname(i);
    lemma_trim_pad(t);
    if i < 2 {
        let n = t.len() as int;
        assert(n == 12);
        let m = if i == 0 { t.subrange(7, n - 2) } else { t.subrange(2, n - 7) };
        assert(m.len() == 3 && m[0] == ' ' && m[1] == '→' && m[2] == ' ');
        assert(space_run(m, 1) == 1);
        assert(space_run(m, 0) == 1);
        assert(!lit_at(m, 1, "->"@)) by {
            if lit_at(m, 1, "->"@) {
                assert(m.subrange(1, 3)[0] == m[1]);
            }
        }
        assert(arrow_len(m, 1) == 1);
        assert(spaces_from(m, 2));
        assert(is_spaced_arrow(m));
        if i == 0 {
            assert(t.take(7) =~= "MEM(AR)"@);
            assert(t.subrange(n - 2, n) =~= "DR"@);
        } else {
            assert(t.take(7) != "MEM(AR)"@) by {
                assert(t.take(7)[0] != "MEM(AR)"@[0]);
            }
            assert(t.take(2) =~= "DR"@);
            assert(t.subrange(n - 7, n) =~= "MEM(AR)"@);
        }
    } else if i == 2 {
        assert(t != "HALT"@);
    } else if i == 3 {
        assert(t != "HALT"@);
        assert(t != "IO"@);
        assert(t != "INTS"@);
    }
}

proof fn lemma_aitems_prefix(x: u64, m: nat, m2: nat)
    requires
        m <= m2,
    ensures
        aitems(x, m2).len() >= aitems(x, m).len(),
        aitems(x, m2).take(aitems(x, m).len() as int) == aitems(x, m),
    decreases m2,
{
    if m2 > m {
        lemma_aitems_prefix(x, m, (m2 - 1) as nat);
        let n = aitems(x, m).len() as int;
        assert(aitems(x, m2).take(n) =~= aitems(x, (m2 - 1) as nat).take(n));
    } else {
        assert(aitems(x, m2).take(aitems(x, m).len() as int) =~= aitems(x, m));
    }
}

proof fn lemma_aitems_shape(x: u64, m: nat, k: int)
    requires
        m <= 5,
        0 <= k < aitems(x, m).len(),
    ensures
        exists|i: nat| i < m && aitems(x, m)[k] == aname(i),
    decreases m,
{
    let p = aitems(x, (m - 1) as nat);
    if k < p.len() {
        lemma_aitems_shape(x, (m - 1) as nat, k);
        let i = choose|i: nat| i < m - 1 && p[k] == aname(i);
        assert(aitems(x, m)[k] == p[k]);
    } else {
        assert(aitems(x, m)[k] == aname((m - 1) as nat));
    }
}

/// Scanning the segments of the actions, after `t` segments that scanned
/// to `st`.
proof fn lemma_actions_scan(x: u64, segs: Seq<Seq<char>>, t: nat, st: u64, m: nat)
    requires
        m <= 5,
        segs.len() == t + aitems(x, 5).len(),
        actions_scan(segs, t) == Parsed::Bits(st),
        forall|i: int| 0 <= i < aitems(x, 5).len() ==> trim(#[trigger] segs[t + i]) == aitems(x, 5)[i],
    ensures
        actions_scan(segs, t + aitems(x, m).len()) == Parsed::Bits(aacc(x, m, st)),
    decreases m,
{
    if m > 0 {
        let j = (m - 1) as nat;
        lemma_actions_scan(x, segs, t, st, j);
        let c = aitems(x, j).len();
        if holds(x, asig(j)) {
            lemma_aitems_prefix(x, m, 5);
            assert(aitems(x, m) == aitems(x, j) + seq![aname(j)]);
            assert(aitems(x, 5)[c as int] == aitems(x, m)[c as int]);
            lemma_aname(j);
            assert(trim(segs[t + c as int]) == aname(j));
            assert(action_bits(segs[t + c as int]) == action_bits(aname(j)));
        } else {
            assert(aitems(x, m) =~= aitems(x, j));
        }
    }
}


// ---------------------------------------------------------------------------
// The transfer item

/// What reading the printed value needs of its characters.
pub open spec fn value_text_ok(rd: Seq<char>) -> bool {
    &&& rd.len() >= 1
    &&& !is_ws(rd[0])
    &&& !is_ws(rd.last())
    &&& rd[0] != 'M' && rd[0] != 'G'
    &&& (rd[0] == 'I' ==> rd.len() >= 2 && rd[1] != 'F')
    &&& forall|k: int| 0 <= k < rd.len() ==> #[trigger] rd[k] != ';' && rd[k] != '→' && rd[k] != '-' && rd[k] != '\n'
}

proof fn lemma_value_text_plain(rr: nat, lr: nat, comr: bool, coml: bool, pls: bool, sora: bool)
    requires
        alu_ready(rr, lr, comr, coml, pls, sora),
    ensures
        value_text_ok(upper(read_text(1, alu_expr(rr, lr, comr, coml, pls, sora, false)))),
{
    let a0 = alu_expr(rr, lr, comr, coml, pls, sora, false);
    lemma_alu_expr_chars(rr, lr, comr, coml, pls, sora, false);
    lemma_alu_chars_no_newline(a0, false);
    lemma_upper_fixed(a0);
    assert(alu_char(a0.last(), false));
    assert(alu_char(a0[0], false));
    assert forall|k: int| 0 <= k < a0.len() implies #[trigger] a0[k] != ';' && a0[k] != '→' && a0[k] != '-' && a0[k] != '\n' by {
        assert(alu_char(a0[k], false));
    }
}

#[verifier::rlimit(40)]
proof fn lemma_value_text_extend(rr: nat, lr: nat, comr: bool, coml: bool, pls: bool, sora: bool)
    requires
        alu_ready(rr, lr, comr, coml, pls, sora),
        !pls,
    ensures
        value_text_ok(upper(read_text(3, alu_expr(rr, lr, comr, coml, pls, sora, false)))),
{
    reveal_strlit("(0..7)");
    reveal_strlit("extend sign ");
    reveal_strlit("EXTEND SIGN ");
    let a0 = alu_expr(rr, lr, comr, coml, pls, sora, false);
    let a7 = alu_expr(rr, lr, comr, coml, pls, sora, true);
    lemma_alu_expr_chars(rr, lr, comr, coml, pls, sora, true);
    lemma_upper_fixed(a7);
    lemma_alu_chars_no_newline(a7, true);
    assert(read_text(3, a0) =~= "extend sign "@ + a7);
    lemma_upper_concat("extend sign "@, a7);
    lemma_upper_if_then();
    let rd = "EXTEND SIGN "@ + a7;
    assert(alu_char(a7.last(), true));
    assert(rd.last() == a7.last());
    assert forall|k: int| 0 <= k < rd.len() implies #[trigger] rd[k] != ';' && rd[k] != '→' && rd[k] != '-' && rd[k] != '\n' by {
        if k >= 12 {
            assert(rd[k] == a7[k - 12]);
            assert(alu_char(a7[k - 12], true));
        }
    }
}

#[verifier::rlimit(40)]
proof fn lemma_value_text_named(rr: nat, lr: nat, comr: bool, coml: bool, pls: bool, sora: bool, cc: nat)
    requires
        alu_ready(rr, lr, comr, coml, pls, sora),
        cc == 2 || 4 <= cc <= 12,
    ensures
        value_text_ok(upper(read_text(cc, alu_expr(rr, lr, comr, coml, pls, sora, false)))),
{
    reveal_strlit("(");
    reveal_strlit(")");
    reveal_strlit("HTOH");
    reveal_strlit("LTOL");
    reveal_strlit("SWAB");
    reveal_strlit("LTOH");
    reveal_strlit("HTOL");
    reveal_strlit("SEXT");
    reveal_strlit("ROL");
    reveal_strlit("SHL");
    reveal_strlit("ROR");
    reveal_strlit("ASR");
    let a0 = alu_expr(rr, lr, comr, coml, pls, sora, false);
    lemma_alu_expr_chars(rr, lr, comr, coml, pls, sora, false);
    let f = comm_name(cc);
    let n = f.len() as int;
    let rd = f + "("@ + a0 + ")"@;
    lemma_split_named(cc, a0);
    lemma_upper_fixed(rd);
    assert(rd[0] == f[0]);
    lemma_alu_chars_no_newline(a0, false);
    assert forall|k: int| 0 <= k < rd.len() implies #[trigger] rd[k] != ';' && rd[k] != '→' && rd[k] != '-' && rd[k] != '\n' by {
        if n + 1 <= k < n + 1 + a0.len() {
            assert(rd[k] == a0[k - n - 1]);
            assert(alu_char(a0[k - n - 1], false));
        }
    }
}

proof fn lemma_value_text(rr: nat, lr: nat, comr: bool, coml: bool, pls: bool, sora: bool, cc: nat)
    requires
        alu_ready(rr, lr, comr, coml, pls, sora),
        cc <= 12,
        cc == 3 ==> !pls,
    ensures
        value_text_ok(upper(read_text(cc, alu_expr(rr, lr, comr, coml, pls, sora, false)))),
{
    reveal_strlit("0");
    if cc == 0 {
        lemma_upper_fixed("0"@);
    } else if cc == 1 {
        lemma_value_text_plain(rr, lr, comr, coml, pls, sora);
    } else if cc == 3 {
        lemma_value_text_extend(rr, lr, comr, coml, pls, sora);
    } else {
        lemma_value_text_named(rr, lr, comr, coml, pls, sora, cc);
    }
}

proof fn lemma_last_arrow_span(t: Seq<char>, i: int, p: int)
    requires
        1 <= p <= i < t.len(),
        arrow_len(t, p) > 0,
        p + arrow_len(t, p) < t.len(),
        forall|k: int| p < k <= i ==> #[trigger] arrow_len(t, k) == 0,
    ensures
        last_arrow(t, i) == p,
    decreases i,
{
    if i > p {
        lemma_last_arrow_span(t, i - 1, p);
    }
}

/// The transfer `value → destinations` read as one action.
#[verifier::rlimit(40)]
pub(crate) proof fn lemma_transfer_item(rd: Seq<char>, w: Seq<char>, tb: u64)
    requires
        value_text_ok(rd),
        w.len() >= 1,
        !is_ws(w[0]),
        !is_ws(w.last()),
        no_newline(w),
        forall|k: int| 0 <= k < w.len() ==> #[trigger] w[k] != ';' && w[k] != '→' && w[k] != '-' && w[k] != ')',
        transfer_bits(rd + " "@, " "@ + w) == Parsed::Bits(tb),
    ensures
        action_bits(rd + " → "@ + w) == Parsed::Bits(tb),
        trim(rd + " → "@ + w) == rd + " → "@ + w,
        lacks(rd + " → "@ + w, ';'),
        no_newline(rd + " → "@ + w),
{
    reveal_strlit(" → ");
    reveal_strlit(" ");
    reveal_strlit("->");
    reveal_strlit("MEM(AR)");
    reveal_strlit("HALT");
    reveal_strlit("IO");
    reveal_strlit("INTS");
    reveal_strlit("IRQSC");
    let t = rd + " → "@ + w;
    let n = t.len() as int;
    let r = rd.len() as int;
    let p = r + 1;
    assert(t[0] == rd[0]);
    assert(t.last() == w.last());
    lemma_trim_pad(t);
    assert(t[p] == '→');
    assert forall|k: int| 0 <= k < n implies #[trigger] t[k] != ';' && t[k] != '\n' && (k != p ==> t[k] != '→' && t[k] != '-') by {
        if k < r {
            assert(t[k] == rd[k]);
        } else if k >= r + 3 {
            assert(t[k] == w[k - r - 3]);
        }
    }
    assert(!lit_at(t, p, "->"@)) by {
        if lit_at(t, p, "->"@) {
            assert(t.subrange(p, p + 2)[0] == t[p]);
        }
    }
    assert forall|k: int| p < k <= n - 1 implies #[trigger] arrow_len(t, k) == 0 by {
        if lit_at(t, k, "->"@) {
            assert(t.subrange(k, k + 2)[0] == t[k]);
        }
    }
    lemma_last_arrow_span(t, n - 1, p);
    assert(transfer_split(t) == Some(p));
    assert(t.take(p) =~= rd + " "@);
    assert(t.subrange(p + 1, n) =~= " "@ + w);
    // not a single action
    assert(n >= 9 ==> !(t.take(7) == "MEM(AR)"@)) by {
        if n >= 9 && t.take(7) == "MEM(AR)"@ {
            assert(t.take(7)[0] == t[0]);
        }
    }
    assert(n >= 9 ==> !(t.subrange(n - 7, n) == "MEM(AR)"@)) by {
        if n >= 9 && t.subrange(n - 7, n) == "MEM(AR)"@ {
            assert(t.subrange(n - 7, n)[6] == t[n - 1]);
        }
    }
    assert(t != "HALT"@ && t != "IO"@ && t != "INTS"@ && t != "IRQSC"@) by {
        if n == 4 {
            assert(t[p] != "HALT"@[p]);
            assert(t[p] != "INTS"@[p]);
        } else if n == 2 {
            assert(t[p] != "IO"@[p]);
        } else if n == 5 {
            assert(t[p] != "IRQSC"@[p]);
        }
    }
    assert(single_action(t) is None);
}


// ---------------------------------------------------------------------------
// The whole text

proof fn lemma_split_join_semi(items: Seq<Seq<char>>)
    requires
        items.len() >= 1,
        forall|i: int| 0 <= i < items.len() ==> lacks(#[trigger] items[i], ';'),
    ensures
        split(join(items, "; "@), ';') == spaced(items),
    decreases items.len(),
{
    reveal_strlit("; ");
    reveal_strlit(" ");
    if items.len() == 1 {
        lemma_split_none(items[0], ';');
        assert(split(join(items, "; "@), ';') =~= spaced(items));
    } else {
        let init = items.drop_last();
        assert forall|i: int| 0 <= i < init.len() implies lacks(#[trigger] init[i], ';') by {
            assert(init[i] == items[i]);
        }
        lemma_split_join_semi(init);
        let last = " "@ + items.last();
        assert(join(items, "; "@) =~= join(init, "; "@) + seq![';'] + last);
        lemma_split_concat(join(init, "; "@), last, ';');
        assert(lacks(last, ';')) by {
            assert(lacks(items[items.len() - 1], ';'));
            assert forall|i: int| 0 <= i < last.len() implies #[trigger] last[i] != ';' by {
                if i > 0 {
                    assert(last[i] == items.last()[i - 1]);
                }
            }
        }
        lemma_split_none(last, ';');
        assert(split(join(items, "; "@), ';') =~= spaced(items));
    }
}

proof fn lemma_drop_empty_id(items: Seq<Seq<char>>)
    requires
        forall|i: int| 0 <= i < items.len() ==> (#[trigger] items[i]).len() > 0,
    ensures
        drop_empty(items) == items,
    decreases items.len(),
{
    if items.len() > 0 {
        let init = items.drop_last();
        assert forall|i: int| 0 <= i < init.len() implies (#[trigger] init[i]).len() > 0 by {
            assert(init[i] == items[i]);
        }
        lemma_drop_empty_id(init);
        assert(items[items.len() - 1].len() > 0);
        assert(init.push(items.last()) =~= items);
    }
}

proof fn lemma_upper_join(items: Seq<Seq<char>>, sep: Seq<char>)
    ensures
        upper(join(items, sep)) == join(items.map_values(|t: Seq<char>| upper(t)), upper(sep)),
    decreases items.len(),
{
    let m = items.map_values(|t: Seq<char>| upper(t));
    if items.len() == 1 {
        assert(m =~= seq![upper(items[0])]);
    } else if items.len() > 1 {
        let init = items.drop_last();
        lemma_upper_join(init, sep);
        assert(init.map_values(|t: Seq<char>| upper(t)) =~= m.drop_last());
        lemma_upper_concat(join(init, sep) + sep, items.last());
        lemma_upper_concat(join(init, sep), sep);
        assert(m.last() == upper(items.last()));
    } else {
        assert(upper(join(items, sep)) =~= join(m, upper(sep)));
    }
}

/// The upper-cased actions of `x` are its action texts.
#[verifier::rlimit(40)]
proof fn lemma_upper_actions(x: u64)
    ensures
        omc_actions(x).map_values(|t: Seq<char>| upper(t)) == aitems(x, 5),
{
    reveal_strlit("MEM(AR) → DR");
    reveal_strlit("DR → MEM(AR)");
    reveal_strlit("IO");
    reveal_strlit("IRQSC");
    reveal_strlit("HALT");
    lemma_upper_if_then();
    lemma_upper_fixed("MEM(AR) → DR"@);
    lemma_upper_fixed("DR → MEM(AR)"@);
    lemma_upper_fixed("IO"@);
    lemma_upper_fixed("IRQSC"@);
    assert(aitems(x, 0) == Seq::<Seq<char>>::empty());
    assert(aitems(x, 1) == aitems(x, 0) + opt(holds(x, BaseCs::LOAD), "MEM(AR) → DR"@));
    assert(aitems(x, 2) == aitems(x, 1) + opt(holds(x, BaseCs::STOR), "DR → MEM(AR)"@));
    assert(aitems(x, 3) == aitems(x, 2) + opt(holds(x, BaseCs::IO), "IO"@));
    assert(aitems(x, 4) == aitems(x, 3) + opt(holds(x, BaseCs::INTS), "IRQSC"@));
    assert(aitems(x, 5) == aitems(x, 4) + opt(holds(x, BaseCs::HALT), "HALT"@));
    assert(omc_actions(x).map_values(|t: Seq<char>| upper(t)) =~= aitems(x, 5));
}

/// The memory, input-output, interrupt and halt signals of a word by its
/// parts.
proof fn lemma_act_holds(
    rr: nat,
    lr: nat,
    comr: bool,
    coml: bool,
    pls: bool,
    sora: bool,
    cc: nat,
    wr: u64,
    acts: u64,
)
    requires
        omc_parts_ok(rr, lr, comr, coml, pls, sora, cc, wr, acts),
    ensures
        ({
            let x = omc_word(rr, lr, comr, coml, pls, sora, cc, wr, acts);
            &&& holds(x, BaseCs::LOAD) == ((acts >> 32u64) & 1u64 == 1u64)
            &&& holds(x, BaseCs::STOR) == ((acts >> 33u64) & 1u64 == 1u64)
            &&& holds(x, BaseCs::IO) == ((acts >> 34u64) & 1u64 == 1u64)
            &&& holds(x, BaseCs::INTS) == ((acts >> 35u64) & 1u64 == 1u64)
            &&& holds(x, BaseCs::HALT) == ((acts >> 38u64) & 1u64 == 1u64)
        }),
{
    lemma_omc_bit(rr, lr, comr, coml, pls, sora, cc, wr, acts, 32);
    lemma_omc_bit(rr, lr, comr, coml, pls, sora, cc, wr, acts, 33);
    lemma_omc_bit(rr, lr, comr, coml, pls, sora, cc, wr, acts, 34);
    lemma_omc_bit(rr, lr, comr, coml, pls, sora, cc, wr, acts, 35);
    lemma_omc_bit(rr, lr, comr, coml, pls, sora, cc, wr, acts, 38);
}

proof fn lemma_aacc_value(x: u64, acts: u64, st: u64)
    requires
        acts & !0x4F_0000_0000u64 == 0,
        holds(x, BaseCs::LOAD) == ((acts >> 32u64) & 1u64 == 1u64),
        holds(x, BaseCs::STOR) == ((acts >> 33u64) & 1u64 == 1u64),
        holds(x, BaseCs::IO) == ((acts >> 34u64) & 1u64 == 1u64),
        holds(x, BaseCs::INTS) == ((acts >> 35u64) & 1u64 == 1u64),
        holds(x, BaseCs::HALT) == ((acts >> 38u64) & 1u64 == 1u64),
    ensures
        aacc(x, 5, st) == st | acts,
        0u64 | acts == acts,
{
    reveal_with_fuel(aacc, 6);
    lemma_acts_decompose(acts, st);
}


proof fn lemma_final_bits(rv: u64, lv: u64, comr: bool, coml: bool, pls: bool, sora: bool, c: u64, wr: u64, acts: u64)
    by (bit_vector)
    requires
        rv < 4 || rv == 8,
        4 <= lv <= 8,
        c & !0x1F_F000u64 == 0,
        wr & !0xFFE0_0000u64 == 0,
        acts & !0x4F_0000_0000u64 == 0,
    ensures
        ({
            let r = if rv < 8 { 1u64 << rv } else { 0u64 };
            let l = if lv < 8 { 1u64 << lv } else { 0u64 };
            let f = (if comr { 1u64 << 8u64 } else { 0u64 }) | (if coml { 1u64 << 9u64 } else { 0u64 }) | (
            if pls { 1u64 << 10u64 } else { 0u64 }) | (if sora { 1u64 << 11u64 } else { 0u64 });
            let x = r | l | f | c | wr | acts;
            &&& x & 0x7F_FFFF_FFFFu64 == x
            &&& (x >> 39u64) & 1u64 != 1u64
            &&& (0u64 | (((((f | r) | l) | 0u64) | c) | wr)) | acts == x
            &&& (rv == 8 && lv == 8 && !comr && !coml && !pls && !sora && c == 0 && wr == 0) ==> 0u64 | acts == x
        }),
        (0u64 >> 21u64) & 1u64 != 1u64,
        (0u64 >> 22u64) & 1u64 != 1u64,
        (0u64 >> 23u64) & 1u64 != 1u64,
        (0u64 >> 24u64) & 1u64 != 1u64,
        (0u64 >> 25u64) & 1u64 != 1u64,
        (0u64 >> 26u64) & 1u64 != 1u64,
        (0u64 >> 27u64) & 1u64 != 1u64,
        (0u64 >> 28u64) & 1u64 != 1u64,
        (0u64 >> 29u64) & 1u64 != 1u64,
        (0u64 >> 30u64) & 1u64 != 1u64,
        (0u64 >> 31u64) & 1u64 != 1u64,
{
}

/// The items of the text of an operational word by its parts, upper-cased.
pub open spec fn omc_items(
    rr: nat,
    lr: nat,
    comr: bool,
    coml: bool,
    pls: bool,
    sora: bool,
    cc: nat,
    wr: u64,
    acts: u64,
) -> Seq<Seq<char>> {
    let x = omc_word(rr, lr, comr, coml, pls, sora, cc, wr, acts);
    let tr = if wr != 0 {
        seq![upper(read_text(cc, alu_expr(rr, lr, comr, coml, pls, sora, false))) + " → "@ + join(wtoks(x, 12), ", "@)]
    } else {
        Seq::empty()
    };
    tr + aitems(x, 5)
}

/// The upper-cased text of an operational word by its parts is its items
/// joined with `; `.
#[verifier::rlimit(60)]
proof fn lemma_omc_upper_text(
    rr: nat,
    lr: nat,
    comr: bool,
    coml: bool,
    pls: bool,
    sora: bool,
    cc: nat,
    wr: u64,
    acts: u64,
)
    requires
        omc_parts_ok(rr, lr, comr, coml, pls, sora, cc, wr, acts),
    ensures
        upper(omc_text(omc_word(rr, lr, comr, coml, pls, sora, cc, wr, acts))) == join(
            omc_items(rr, lr, comr, coml, pls, sora, cc, wr, acts),
            "; "@,
        ),
{
    reveal_strlit("; ");
    reveal_strlit(" → ");
    let x = omc_word(rr, lr, comr, coml, pls, sora, cc, wr, acts);
    let items = omc_transfer(x) + omc_actions(x);
    lemma_upper_join(items, "; "@);
    lemma_upper_fixed("; "@);
    assert(items.map_values(|t: Seq<char>| upper(t)) =~= omc_transfer(x).map_values(|t: Seq<char>| upper(t))
        + omc_actions(x).map_values(|t: Seq<char>| upper(t)));
    lemma_upper_actions(x);
    lemma_write_text(rr, lr, comr, coml, pls, sora, cc, wr, acts);
    let w0 = join(write_items(x), ", "@);
    let w = join(wtoks(x, 12), ", "@);
    if wr != 0 {
        lemma_read_writes(x);
        lemma_upper_fixed(w);
        lemma_upper_fixed(" → "@);
        lemma_full_text(rr, lr, comr, coml, pls, sora, cc, wr, acts);
        if cc >= 1 {
            lemma_alu_text_omc(rr, lr, comr, coml, pls, sora, cc, wr, acts);
        }
        let a = alu_full_text(x);
        lemma_upper_concat(a + " → "@, w);
        lemma_upper_concat(a, " → "@);
        assert(omc_transfer(x) == seq![a + " → "@ + w]);
        assert(omc_transfer(x).map_values(|t: Seq<char>| upper(t)) =~= seq![upper(a) + " → "@ + w]);
    } else {
        lemma_write_holds(rr, lr, comr, coml, pls, sora, cc, wr, acts);
        lemma_comm_code_range(cc);
        lemma_final_bits(rr as u64, lr as u64, comr, coml, pls, sora, comm_code_bits(cc), wr, acts);
        assert(write_items(x) =~= Seq::<Seq<char>>::empty());
        assert(omc_transfer(x) =~= Seq::<Seq<char>>::empty());
        assert(omc_transfer(x).map_values(|t: Seq<char>| upper(t)) =~= Seq::<Seq<char>>::empty());
    }
    assert(omc_items(rr, lr, comr, coml, pls, sora, cc, wr, acts) =~= items.map_values(|t: Seq<char>| upper(t)));
}


proof fn lemma_aitems_empty(x: u64, m: nat, st: u64)
    requires
        m <= 5,
        aitems(x, m).len() == 0,
    ensures
        aacc(x, m, st) == st,
    decreases m,
{
    if m > 0 {
        lemma_aitems_empty(x, (m - 1) as nat, st);
    }
}

proof fn lemma_join_prefix(items: Seq<Seq<char>>, sep: Seq<char>, k: int)
    requires
        items.len() >= 1,
        0 <= k < items[0].len(),
    ensures
        join(items, sep).len() > k,
        join(items, sep)[k] == items[0][k],
    decreases items.len(),
{
    if items.len() > 1 {
        let init = items.drop_last();
        assert(init[0] == items[0]);
        lemma_join_prefix(init, sep, k);
    }
}

/// The items of the text: each reads as one action.
#[verifier::rlimit(60)]
proof fn lemma_items_facts(
    rr: nat,
    lr: nat,
    comr: bool,
    coml: bool,
    pls: bool,
    sora: bool,
    cc: nat,
    wr: u64,
    acts: u64,
)
    requires
        omc_parts_ok(rr, lr, comr, coml, pls, sora, cc, wr, acts),
    ensures
        ({
            let x = omc_word(rr, lr, comr, coml, pls, sora, cc, wr, acts);
            let items = omc_items(rr, lr, comr, coml, pls, sora, cc, wr, acts);
            let t: nat = if wr != 0 { 1 } else { 0 };
            let tb = (alu_expr_bits(rr, lr, comr, coml, pls, sora, false) | comm_code_bits(cc)) | wr;
            &&& items.len() == t + aitems(x, 5).len()
            &&& forall|i: int| 0 <= i < items.len() ==> (#[trigger] items[i]).len() >= 1 && lacks(items[i], ';')
                && !is_ws(items[i][0]) && !is_ws(items[i].last()) && trim(items[i]) == items[i]
                && items[i][0] != 'G' && (items[i][0] == 'I' ==> items[i].len() >= 2 && items[i][1] != 'F')
            &&& forall|i: int| 0 <= i < aitems(x, 5).len() ==> items[t + i] == #[trigger] aitems(x, 5)[i]
            &&& wr != 0 ==> action_bits(items[0]) == Parsed::Bits(tb)
        }),
{
    reveal_strlit(" → ");
    let x = omc_word(rr, lr, comr, coml, pls, sora, cc, wr, acts);
    let items = omc_items(rr, lr, comr, coml, pls, sora, cc, wr, acts);
    let t: nat = if wr != 0 { 1 } else { 0 };
    let a = aitems(x, 5);
    assert forall|i: int| 0 <= i < a.len() implies #[trigger] a[i].len() >= 1 && lacks(a[i], ';')
        && !is_ws(a[i][0]) && !is_ws(a[i].last()) && trim(a[i]) == a[i] && a[i][0] != 'G'
        && (a[i][0] == 'I' ==> a[i].len() >= 2 && a[i][1] != 'F') by {
        lemma_aitems_shape(x, 5, i);
        let n = choose|n: nat| n < 5 && a[i] == aname(n);
        lemma_aname(n);
    }
    if wr != 0 {
        lemma_write_text(rr, lr, comr, coml, pls, sora, cc, wr, acts);
        lemma_read_writes(x);
        let w = join(wtoks(x, 12), ", "@);
        let rd = upper(read_text(cc, alu_expr(rr, lr, comr, coml, pls, sora, false)));
        lemma_value_text(rr, lr, comr, coml, pls, sora, cc);
        let tb = (alu_expr_bits(rr, lr, comr, coml, pls, sora, false) | comm_code_bits(cc)) | wr;
        if cc == 0 {
            lemma_read_transfer_zero(w, wr);
        } else if cc == 1 {
            lemma_read_transfer_plain(rr, lr, comr, coml, pls, sora, w, wr);
        } else if cc == 3 {
            lemma_read_transfer_extend(rr, lr, comr, coml, pls, sora, w, wr);
        } else {
            lemma_read_transfer_named(rr, lr, comr, coml, pls, sora, cc, w, wr);
        }
        lemma_transfer_item(rd, w, tb);
        let it = rd + " → "@ + w;
        assert(items[0] == it);
        assert(it[0] == rd[0]);
        assert(it.last() == w.last());
        if rd.len() >= 2 {
            assert(it[1] == rd[1]);
        }
        assert forall|i: int| 0 <= i < a.len() implies items[t + i] == #[trigger] a[i] by {
            assert(items[1 + i] == a[i]);
        }
    } else {
        assert(items =~= a);
    }
}

/// The text of an operational word by its parts reads back to the word.
#[verifier::rlimit(80)]
pub(crate) proof fn lemma_omc_reads_back(
    rr: nat,
    lr: nat,
    comr: bool,
    coml: bool,
    pls: bool,
    sora: bool,
    cc: nat,
    wr: u64,
    acts: u64,
    labels: Option<Seq<Seq<char>>>,
)
    requires
        omc_parts_ok(rr, lr, comr, coml, pls, sora, cc, wr, acts),
    ensures
        spec_parse(upper(spec_text(omc_word(rr, lr, comr, coml, pls, sora, cc, wr, acts), labels)))
            == Parsed::Bits(omc_word(rr, lr, comr, coml, pls, sora, cc, wr, acts)),
{
    reveal_strlit("IF");
    reveal_strlit("GOTO");
    let x = omc_word(rr, lr, comr, coml, pls, sora, cc, wr, acts);
    lemma_comm_code_range(cc);
    lemma_final_bits(rr as u64, lr as u64, comr, coml, pls, sora, comm_code_bits(cc), wr, acts);
    assert(reg_bit(rr) == (if (rr as u64) < 8 { 1u64 << (rr as u64) } else { 0u64 }));
    assert(reg_bit(lr) == (if (lr as u64) < 8 { 1u64 << (lr as u64) } else { 0u64 }));
    assert(spec_mc(x) == Mc::Operational(Omc { base: x }));
    assert(spec_text(x, labels) == omc_text(x));
    lemma_omc_upper_text(rr, lr, comr, coml, pls, sora, cc, wr, acts);
    let items = omc_items(rr, lr, comr, coml, pls, sora, cc, wr, acts);
    let u = join(items, "; "@);
    lemma_items_facts(rr, lr, comr, coml, pls, sora, cc, wr, acts);
    lemma_act_holds(rr, lr, comr, coml, pls, sora, cc, wr, acts);
    let t: nat = if wr != 0 { 1 } else { 0 };
    let a = aitems(x, 5);
    let tb = (alu_expr_bits(rr, lr, comr, coml, pls, sora, false) | comm_code_bits(cc)) | wr;
    let st: u64 = if wr != 0 { 0u64 | tb } else { 0u64 };
    if items.len() == 0 {
        assert(u =~= Seq::<char>::empty());
        assert(split(u, ';') == seq![Seq::<char>::empty()]);
        let d = seq![Seq::<char>::empty()];
        assert(d.drop_last() =~= Seq::<Seq<char>>::empty());
        assert(drop_empty(Seq::<Seq<char>>::empty()) =~= Seq::<Seq<char>>::empty());
        assert(d.last().len() == 0);
        assert(drop_empty(d) =~= Seq::<Seq<char>>::empty());
        assert(wr == 0);
        lemma_aitems_empty(x, 5, 0);
        lemma_aacc_value(x, acts, 0);
        assert(spec_parse(u) == Parsed::Bits(0u64));
    } else {
        assert forall|i: int| 0 <= i < items.len() implies lacks(#[trigger] items[i], ';') by {}
        lemma_split_join_semi(items);
        let segs = spaced(items);
        assert forall|i: int| 0 <= i < segs.len() implies (#[trigger] segs[i]).len() > 0 by {
            if i > 0 {
                assert(segs[i] == " "@ + items[i]);
            }
        }
        lemma_drop_empty_id(segs);
        assert forall|i: int| 0 <= i < a.len() implies trim(#[trigger] segs[t + i]) == a[i] by {
            assert(items[t + i] == a[i]);
            if t + i == 0 {
                assert(segs[0] == items[0]);
            } else {
                assert(segs[t + i] == " "@ + items[t + i]);
                lemma_trim_pad(items[t + i]);
            }
        }
        if wr != 0 {
            assert(segs[0] == items[0]);
            assert(action_bits(segs[0]) == Parsed::Bits(tb));
            assert(actions_scan(segs, 0) == Parsed::Bits(0u64));
            assert(actions_scan(segs, 1) == Parsed::Bits(0u64 | tb));
        }
        assert(actions_scan(segs, t) == Parsed::Bits(st));
        lemma_actions_scan(x, segs, t, st, 5);
        lemma_aacc_value(x, acts, st);
        assert(omc_bits(u) == Parsed::Bits(st | acts));
        // neither a conditional nor a jump
        lemma_join_prefix(items, "; "@, 0);
        if items[0].len() >= 2 {
            lemma_join_prefix(items, "; "@, 1);
        } else {
            reveal_strlit("; ");
            assert(items.len() >= 2 ==> u[1] == ';') by {
                if items.len() >= 2 {
                    lemma_join_two(items);
                }
            }
        }
        assert(!lit_at(u, 0, "IF"@)) by {
            if lit_at(u, 0, "IF"@) {
                assert(u.subrange(0, 2)[0] == u[0]);
                assert(u.subrange(0, 2)[1] == u[1]);
            }
        }
        assert(!lit_at(u, 0, "GOTO"@)) by {
            if lit_at(u, 0, "GOTO"@) {
                assert(u.subrange(0, 4)[0] == u[0]);
            }
        }
    }
}

/// With two or more items, the separator follows the first item.
proof fn lemma_join_two(items: Seq<Seq<char>>)
    requires
        items.len() >= 2,
    ensures
        join(items, "; "@).len() > items[0].len(),
        join(items, "; "@)[items[0].len() as int] == ';',
    decreases items.len(),
{
    reveal_strlit("; ");
    let init = items.drop_last();
    assert(init[0] == items[0]);
    if items.len() == 2 {
        assert(join(init, "; "@) == items[0]);
    } else {
        lemma_join_two(init);
    }
}

} // verus!
