//! Reading back what is written: the text that `Command::to_string` gives a
//! microcommand, upper-cased, reads back to the same word, for the words
//! whose text carries all of their bits.
use vstd::prelude::*;
use crate::control_signals::{bit_at, bool_num, holds, BaseCs, Bit, Addr, Comp, Cs};
use crate::command::{
    alu_left, alu_right, alu_text, bit_label, bit_labels, goto_text, opt, spec_mc, spec_text, Cmc, Mc,
    BASE_MASK, GOTO_BASE,
};
use crate::grammar::{
    cond_parts, cond_reg, goto_addr, hex_val, is_eq_sep, is_hex, last_at, last_close, last_then, lit_at,
    no_newline, space_run, spaced_hex,
};
use crate::parse::{
    bit_list_bits, bit_scan, bit_step, bit_value_step, cs_bits, flag_bit, goto_bits, goto_head, if_bits,
    int_value, or_bits, sig, spec_parse, BitScan, Parsed,
};
use crate::foreign::{all_decimal, decimal_value, negation_overflows};
use crate::text::{
    dec, digit, drop_empty, hex2, is_ws, join, lemma_lead_ws_unique, lemma_split_len, lemma_trail_ws_unique, split,
    trim, trim_start, up, upper,
};

verus! {

// ---------------------------------------------------------------------------
// Upper case

/// `s` holds no ASCII lower-case letter.
pub open spec fn no_lower(s: Seq<char>) -> bool {
    forall|i: int| 0 <= i < s.len() ==> !('a' <= #[trigger] s[i] && s[i] <= 'z')
}

pub(crate) proof fn lemma_upper_concat(a: Seq<char>, b: Seq<char>)
    ensures
        upper(a + b) == upper(a) + upper(b),
{
    assert(upper(a + b) =~= upper(a) + upper(b));
}

pub(crate) proof fn lemma_upper_fixed(s: Seq<char>)
    requires
        no_lower(s),
    ensures
        upper(s) == s,
{
    assert(upper(s) =~= s);
}

pub(crate) proof fn lemma_upper_no_newline(s: Seq<char>)
    requires
        no_newline(s),
    ensures
        no_newline(upper(s)),
{
}

// ---------------------------------------------------------------------------
// Trimming

/// Trimming leaves alone a text that neither begins nor ends with white space.
pub(crate) proof fn lemma_trim_id(s: Seq<char>)
    requires
        s.len() > 0 ==> !is_ws(s[0]) && !is_ws(s.last()),
    ensures
        trim(s) == s,
{
    lemma_lead_ws_unique(s, 0);
    assert(trim_start(s) =~= s);
    lemma_trail_ws_unique(s, 0);
    assert(trim(s) =~= s);
}

// ---------------------------------------------------------------------------
// Hexadecimal digits

proof fn lemma_hex_digit(d: nat)
    requires
        d < 16,
    ensures
        is_hex(digit(d)),
        hex_val(digit(d)) == d,
        !is_ws(digit(d)),
        digit(d) != '@',
        digit(d) != ' ',
        digit(d) != '\n',
        !('a' <= digit(d) && digit(d) <= 'z'),
{
}

pub(crate) proof fn lemma_hex2(a: u8)
    ensures
        hex2(a).len() == 2,
        is_hex(hex2(a)[0]) && is_hex(hex2(a)[1]),
        16 * hex_val(hex2(a)[0]) + hex_val(hex2(a)[1]) == a,
        no_lower(hex2(a)),
        no_newline(hex2(a)),
        hex2(a)[0] != '@' && hex2(a)[1] != '@' && hex2(a)[0] != ' ' && hex2(a)[1] != ' ',
        !is_ws(hex2(a)[1]),
{
    lemma_hex_digit((a / 16) as nat);
    lemma_hex_digit((a % 16) as nat);
}

// ---------------------------------------------------------------------------
// Jumps

/// The position of the last `@` of `t` at or below `i` that is followed by
/// spaces and one or two hex digits, when it is `p`.
proof fn lemma_last_at(t: Seq<char>, i: int, p: int)
    requires
        5 <= p <= i < t.len(),
        t[p] == '@',
        spaced_hex(t, p),
        forall|j: int| p < j <= i ==> t[j] != '@',
    ensures
        last_at(t, i) == p,
    decreases i,
{
    if i > p {
        lemma_last_at(t, i - 1, p);
    }
}

/// The jump text `GOTO label @ XX`.
pub open spec fn goto_line(label: Seq<char>, a: u8) -> Seq<char> {
    "GOTO "@ + (label + " @ "@) + hex2(a)
}

/// The jump text reads as the address `XX`, and what the parser needs of
/// its shape.
proof fn lemma_goto_addr(ul: Seq<char>, a: u8)
    requires
        ul.len() > 0,
        no_newline(ul),
    ensures
        goto_addr(goto_line(ul, a)) == Some(a),
        goto_line(ul, a).len() == ul.len() + 10,
        goto_line(ul, a)[0] == 'G',
        !is_ws(goto_line(ul, a)[0]),
        !is_ws(goto_line(ul, a).last()),
        no_newline(goto_line(ul, a)),
        lit_at(goto_line(ul, a), 0, "GOTO"@),
        !lit_at(goto_line(ul, a), 0, "IF"@),
        goto_line(ul, a)[1] == 'O' && goto_line(ul, a)[2] == 'T' && goto_line(ul, a)[3] == 'O'
            && goto_line(ul, a)[4] == ' ',
        forall|k: int| 0 <= k < ul.len() ==> #[trigger] goto_line(ul, a)[5 + k] == ul[k],
        goto_line(ul, a)[5 + ul.len() as int] == ' ',
        goto_line(ul, a)[6 + ul.len() as int] == '@',
        goto_line(ul, a)[7 + ul.len() as int] == ' ',
        goto_line(ul, a)[8 + ul.len() as int] != 'T' && goto_line(ul, a)[9 + ul.len() as int] != 'T',
{
    reveal_strlit("GOTO ");
    reveal_strlit(" @ ");
    reveal_strlit("GOTO");
    reveal_strlit("IF");
    lemma_hex2(a);
    let u = goto_line(ul, a);
    let n: int = u.len() as int;
    let p: int = 6 + ul.len() as int;
    assert(n == p + 4);
    assert(u[0] == 'G' && u[1] == 'O' && u[2] == 'T' && u[3] == 'O');
    assert(!lit_at(u, 0, "IF"@)) by {
        assert(u.subrange(0, 2)[0] == 'G');
    }
    assert(u.subrange(0, 4) =~= "GOTO"@);
    assert(no_newline(u)) by {
        assert forall|i: int| 0 <= i < n implies u[i] != '\n' by {
            if 5 <= i < 5 + ul.len() {
                assert(u[i] == ul[i - 5]);
            }
        }
    }
    assert(u[p] == '@');
    assert(u[p + 1] == ' ');
    assert(u[p + 2] == hex2(a)[0]);
    assert(u[p + 3] == hex2(a)[1]);
    assert(space_run(u, p + 2) == p + 2);
    assert(space_run(u, p + 1) == p + 2);
    assert(spaced_hex(u, p));
    lemma_last_at(u, n - 1, p);
}

/// The upper-cased jump text.
proof fn lemma_upper_goto_line(label: Seq<char>, a: u8)
    ensures
        upper(goto_line(label, a)) == goto_line(upper(label), a),
{
    reveal_strlit("GOTO ");
    reveal_strlit(" @ ");
    lemma_hex2(a);
    lemma_upper_concat("GOTO "@ + (label + " @ "@), hex2(a));
    lemma_upper_concat("GOTO "@, label + " @ "@);
    lemma_upper_concat(label, " @ "@);
    lemma_upper_fixed("GOTO "@);
    lemma_upper_fixed(" @ "@);
    lemma_upper_fixed(hex2(a));
}

/// The word of the unconditional jump to `a`.
pub open spec fn jump_word(a: u8) -> u64 {
    0x80_0010_1040u64 | ((a as u64) << 24u64)
}

/// The text `GOTO label @ XX` reads back to the jump to `XX`.
proof fn lemma_read_jump(label: Seq<char>, a: u8)
    requires
        label.len() > 0,
        no_newline(label),
    ensures
        spec_parse(upper(goto_line(label, a))) == Parsed::Bits(jump_word(a)),
{
    let ul = upper(label);
    lemma_upper_goto_line(label, a);
    lemma_upper_no_newline(label);
    let u = goto_line(ul, a);
    lemma_goto_addr(ul, a);
    lemma_trim_id(u);
    assert(goto_bits(u) == Parsed::Bits((a as u64) << 24u64));
    assert(goto_head() == 0x80_0010_1040u64) by {
        assert(sig(BaseCs::RDPS) == 1u64 << 6u64);
        assert(sig(BaseCs::LTOL) == 1u64 << 12u64);
        assert(((1u64 << 39u64) | (1u64 << 6u64)) | (1u64 << 12u64) | ((0x10u8 as u64) << 16u64)
            == 0x80_0010_1040u64) by (bit_vector);
    }
    assert(((a as u64) << 24u64) | 0x80_0010_1040u64 == 0x80_0010_1040u64 | ((a as u64) << 24u64)) by (bit_vector);
}

// ---------------------------------------------------------------------------
// Splitting joined text

/// `s` holds no `c`.
pub open spec fn lacks(s: Seq<char>, c: char) -> bool {
    forall|i: int| 0 <= i < s.len() ==> #[trigger] s[i] != c
}

pub(crate) proof fn lemma_split_none(b: Seq<char>, c: char)
    requires
        lacks(b, c),
    ensures
        split(b, c) == seq![b],
    decreases b.len(),
{
    if b.len() > 0 {
        let t = b.drop_first();
        assert(lacks(t, c)) by {
            assert forall|i: int| 0 <= i < t.len() implies #[trigger] t[i] != c by {
                assert(t[i] == b[i + 1]);
            }
        }
        lemma_split_none(t, c);
        assert(b[0] != c);
        assert(seq![b[0]] + t =~= b);
        assert(split(b, c) =~= seq![b]);
    } else {
        assert(b =~= Seq::<char>::empty());
    }
}

pub(crate) proof fn lemma_split_concat(a: Seq<char>, b: Seq<char>, c: char)
    ensures
        split(a + seq![c] + b, c) == split(a, c) + split(b, c),
    decreases a.len(),
{
    let x = a + seq![c] + b;
    if a.len() == 0 {
        assert(x.drop_first() =~= b);
        assert(split(x, c) =~= split(a, c) + split(b, c));
    } else {
        let t = a.drop_first();
        assert(x.drop_first() =~= t + seq![c] + b);
        lemma_split_concat(t, b, c);
        lemma_split_len(t, c);
        if a[0] == c {
            assert(split(x, c) =~= split(a, c) + split(b, c));
        } else {
            let rest = split(t, c) + split(b, c);
            assert(split(x, c) == rest.update(0, seq![a[0]] + rest[0]));
            assert(split(a, c) == split(t, c).update(0, seq![a[0]] + split(t, c)[0]));
            assert(split(x, c) =~= split(a, c) + split(b, c));
        }
    }
}

/// The pieces of `join(items, ", ")` split at `,`: the items, each but the
/// first after a space.
pub open spec fn spaced(items: Seq<Seq<char>>) -> Seq<Seq<char>> {
    Seq::new(items.len(), |i: int| if i == 0 { items[0] } else { " "@ + items[i] })
}

pub(crate) proof fn lemma_split_join(items: Seq<Seq<char>>)
    requires
        items.len() >= 1,
        forall|i: int| 0 <= i < items.len() ==> lacks(#[trigger] items[i], ','),
    ensures
        split(join(items, ", "@), ',') == spaced(items),
    decreases items.len(),
{
    reveal_strlit(", ");
    reveal_strlit(" ");
    if items.len() == 1 {
        lemma_split_none(items[0], ',');
        assert(split(join(items, ", "@), ',') =~= spaced(items));
    } else {
        let init = items.drop_last();
        assert forall|i: int| 0 <= i < init.len() implies lacks(#[trigger] init[i], ',') by {
            assert(init[i] == items[i]);
        }
        lemma_split_join(init);
        let last = " "@ + items.last();
        assert(join(items, ", "@) =~= join(init, ", "@) + seq![','] + last);
        lemma_split_concat(join(init, ", "@), last, ',');
        assert(lacks(last, ',')) by {
            assert(lacks(items[items.len() - 1], ','));
            assert forall|i: int| 0 <= i < last.len() implies #[trigger] last[i] != ',' by {
                if i > 0 {
                    assert(last[i] == items.last()[i - 1]);
                }
            }
        }
        lemma_split_none(last, ',');
        assert(split(join(items, ", "@), ',') =~= spaced(items));
    }
}

/// Trimming a text with one space on either side, or on its left.
pub(crate) proof fn lemma_trim_pad(s: Seq<char>)
    requires
        s.len() > 0,
        !is_ws(s[0]),
        !is_ws(s.last()),
    ensures
        trim(" "@ + s + " "@) == s,
        trim(" "@ + s) == s,
        trim(s) == s,
{
    reveal_strlit(" ");
    let a = " "@ + s + " "@;
    lemma_lead_ws_unique(a, 1);
    let t = trim_start(a);
    assert(t =~= s + " "@);
    lemma_trail_ws_unique(t, 1);
    assert(trim(a) =~= s);
    let b = " "@ + s;
    lemma_lead_ws_unique(b, 1);
    assert(trim_start(b) =~= s);
    lemma_trail_ws_unique(s, 0);
    assert(trim(b) =~= s);
    lemma_trim_id(s);
}

// ---------------------------------------------------------------------------
// The `THEN` of a conditional microcommand

proof fn lemma_last_then(r: Seq<char>, k: int, q: int)
    requires
        1 <= q <= k < r.len(),
        lit_at(r, q, "THEN"@),
        q + 4 < r.len(),
        forall|j: int| q < j <= k ==> !(#[trigger] lit_at(r, j, "THEN"@) && j + 4 < r.len()),
    ensures
        last_then(r, k) == q,
    decreases k,
{
    if k > q {
        assert(!(lit_at(r, k, "THEN"@) && k + 4 < r.len()));
        lemma_last_then(r, k - 1, q);
    }
}

/// `THEN` at `j` of `r` means these four characters there.
proof fn lemma_then_chars(r: Seq<char>, j: int)
    requires
        lit_at(r, j, "THEN"@),
    ensures
        r[j] == 'T' && r[j + 1] == 'H' && r[j + 2] == 'E' && r[j + 3] == 'N',
{
    reveal_strlit("THEN");
    let w = r.subrange(j, j + 4);
    assert(w[0] == r[j] && w[1] == r[j + 1] && w[2] == r[j + 2] && w[3] == r[j + 3]);
}

pub(crate) proof fn lemma_upper_if_then()
    ensures
        upper("if "@) == "IF "@,
        upper(" then "@) == " THEN "@,
        upper("Halt"@) == "HALT"@,
        upper("extend sign "@) == "EXTEND SIGN "@,
{
    reveal_strlit("if ");
    reveal_strlit("IF ");
    reveal_strlit(" then ");
    reveal_strlit(" THEN ");
    reveal_strlit("Halt");
    reveal_strlit("HALT");
    reveal_strlit("extend sign ");
    reveal_strlit("EXTEND SIGN ");
    assert(upper("if "@) =~= "IF "@);
    assert(upper(" then "@) =~= " THEN "@);
    assert(upper("Halt"@) =~= "HALT"@);
    assert(upper("extend sign "@) =~= "EXTEND SIGN "@);
}


// ---------------------------------------------------------------------------
// Conditional jumps

/// The name of a read register, as a condition tests it.
pub open spec fn reg_name(b: BaseCs) -> Seq<char> {
    match b {
        BaseCs::RDDR => "DR"@,
        BaseCs::RDCR => "CR"@,
        BaseCs::RDIP => "IP"@,
        BaseCs::RDSP => "SP"@,
        BaseCs::RDAC => "AC"@,
        BaseCs::RDBR => "BR"@,
        BaseCs::RDPS => "PS"@,
        BaseCs::RDIR => "IR"@,
        _ => Seq::empty(),
    }
}

proof fn lemma_reg_name_chars(b: BaseCs)
    requires
        b.spec_index() < 8,
    ensures
        reg_name(b).len() == 2,
        no_lower(reg_name(b)),
        lacks(reg_name(b), 'T'),
        no_newline(reg_name(b)),
        !is_ws(reg_name(b)[0]),
{
    reveal_strlit("DR");
    reveal_strlit("CR");
    reveal_strlit("IP");
    reveal_strlit("SP");
    reveal_strlit("AC");
    reveal_strlit("BR");
    reveal_strlit("PS");
    reveal_strlit("IR");
}

proof fn lemma_reg_name(b: BaseCs, c: Seq<char>)
    requires
        b.spec_index() < 8,
        c.len() >= 2,
        c.take(2) == reg_name(b),
    ensures
        cond_reg(c) == Some(b),
{
    reveal_strlit("DR");
    reveal_strlit("CR");
    reveal_strlit("IP");
    reveal_strlit("SP");
    reveal_strlit("AC");
    reveal_strlit("BR");
    reveal_strlit("PS");
    reveal_strlit("IR");
    let t = c.take(2);
    match b {
        BaseCs::RDDR => {},
        BaseCs::RDCR => {
            assert(t != "DR"@) by { assert(t[0] != "DR"@[0]); }
        },
        BaseCs::RDIP => {
            assert(t != "DR"@) by { assert(t[0] != "DR"@[0]); }
            assert(t != "CR"@) by { assert(t[0] != "CR"@[0]); }
        },
        BaseCs::RDSP => {
            assert(t != "DR"@) by { assert(t[0] != "DR"@[0]); }
            assert(t != "CR"@) by { assert(t[0] != "CR"@[0]); }
            assert(t != "IP"@) by { assert(t[0] != "IP"@[0]); }
        },
        BaseCs::RDAC => {
            assert(t != "DR"@) by { assert(t[0] != "DR"@[0]); }
            assert(t != "CR"@) by { assert(t[0] != "CR"@[0]); }
            assert(t != "IP"@) by { assert(t[0] != "IP"@[0]); }
            assert(t != "SP"@) by { assert(t[0] != "SP"@[0]); }
        },
        BaseCs::RDBR => {
            assert(t != "DR"@) by { assert(t[0] != "DR"@[0]); }
            assert(t != "CR"@) by { assert(t[0] != "CR"@[0]); }
            assert(t != "IP"@) by { assert(t[0] != "IP"@[0]); }
            assert(t != "SP"@) by { assert(t[0] != "SP"@[0]); }
            assert(t != "AC"@) by { assert(t[0] != "AC"@[0]); }
        },
        BaseCs::RDPS => {
            assert(t != "DR"@) by { assert(t[0] != "DR"@[0]); }
            assert(t != "CR"@) by { assert(t[0] != "CR"@[0]); }
            assert(t != "IP"@) by { assert(t[1] != "IP"@[1]); }
            assert(t != "SP"@) by { assert(t[0] != "SP"@[0]); }
            assert(t != "AC"@) by { assert(t[0] != "AC"@[0]); }
            assert(t != "BR"@) by { assert(t[0] != "BR"@[0]); }
        },
        _ => {
            assert(t != "DR"@) by { assert(t[0] != "DR"@[0]); }
            assert(t != "CR"@) by { assert(t[0] != "CR"@[0]); }
            assert(t != "IP"@) by { assert(t[1] != "IP"@[1]); }
            assert(t != "SP"@) by { assert(t[0] != "SP"@[0]); }
            assert(t != "AC"@) by { assert(t[0] != "AC"@[0]); }
            assert(t != "BR"@) by { assert(t[0] != "BR"@[0]); }
            assert(t != "PS"@) by { assert(t[0] != "PS"@[0]); }
        },
    }
}

/// `s` holds `THEN` somewhere.
pub open spec fn has_then(s: Seq<char>) -> bool {
    exists|i: int| lit_at(s, i, "THEN"@)
}

/// The condition `REG(bits) = 0|1`.
pub open spec fn cond_text(reg: BaseCs, bl: Seq<char>, one: bool) -> Seq<char> {
    reg_name(reg) + "("@ + bl + ") = "@ + dec(bool_num(one))
}

/// In `" " + c + " THEN " + jump`, the `THEN` that splits the text is the
/// one after `c`.
proof fn lemma_cond_then(c: Seq<char>, ul: Seq<char>, a: u8)
    requires
        lacks(c, 'T'),
        ul.len() > 0,
        no_newline(ul),
        !has_then(ul),
    ensures
        last_then(
            " "@ + c + " THEN "@ + goto_line(ul, a),
            c.len() + 6 + goto_line(ul, a).len() - 1,
        ) == c.len() + 2,
{
    reveal_strlit(" THEN ");
    reveal_strlit("THEN");
    reveal_strlit(" ");
    let g = goto_line(ul, a);
    lemma_goto_addr(ul, a);
    let r = " "@ + c + " THEN "@ + g;
    let n: int = c.len() as int;
    let q: int = n + 2;
    assert(r.len() == q + 5 + g.len());
    assert(r.subrange(q, q + 4) =~= "THEN"@);
    assert forall|j: int| q < j <= r.len() - 1 implies !(#[trigger] lit_at(r, j, "THEN"@) && j + 4
        < r.len()) by {
        if lit_at(r, j, "THEN"@) && j + 4 < r.len() {
            lemma_then_chars(r, j);
            let e = q + 10 + ul.len();
            if j < q + 5 {
                assert(false);
            } else if j < q + 10 {
                assert(r[j] == g[j - q - 5]);
                assert(r[j + 1] == g[j - q - 4]);
                assert(false);
            } else if j + 4 <= e {
                let i = j - q - 10;
                assert(r[j] == g[5 + i] && g[5 + i] == ul[i]);
                assert(r[j + 1] == g[5 + (i + 1)] && g[5 + (i + 1)] == ul[i + 1]);
                assert(r[j + 2] == g[5 + (i + 2)] && g[5 + (i + 2)] == ul[i + 2]);
                assert(r[j + 3] == g[5 + (i + 3)] && g[5 + (i + 3)] == ul[i + 3]);
                assert(ul.subrange(i, i + 4) =~= "THEN"@);
                assert(lit_at(ul, i, "THEN"@));
            } else if j < e {
                assert(r[e] == g[5 + ul.len() as int]);
                assert(false);
            } else {
                assert(r[j] == g[j - q - 5]);
                assert(false);
            }
        }
    }
    lemma_last_then(r, r.len() - 1, q);
}

/// The condition `REG(bits) = 0|1` reads as the register, the compared value
/// and the bit list.
proof fn lemma_cond_parts(reg: BaseCs, bl: Seq<char>, one: bool)
    requires
        reg.spec_index() < 8,
        bl.len() >= 1,
        no_newline(bl),
    ensures
        cond_parts(cond_text(reg, bl, one)) == Some((reg, one, bl.len() + 3int)),
        cond_text(reg, bl, one).subrange(3, bl.len() + 3int) == bl,
        cond_text(reg, bl, one).len() == bl.len() + 8,
        !is_ws(cond_text(reg, bl, one)[0]),
        !is_ws(cond_text(reg, bl, one).last()),
        no_newline(cond_text(reg, bl, one)),
        lacks(bl, 'T') ==> lacks(cond_text(reg, bl, one), 'T'),
{
    reveal_strlit("(");
    reveal_strlit(") = ");
    reveal_strlit(" = ");
    let name = reg_name(reg);
    let d = dec(bool_num(one));
    assert(d =~= seq![digit(bool_num(one))]);
    lemma_hex_digit(bool_num(one));
    let c = cond_text(reg, bl, one);
    lemma_reg_name_chars(reg);
    let n: int = c.len() as int;
    assert(n == bl.len() + 8);
    assert(c.take(2) =~= name);
    lemma_reg_name(reg, c);
    assert(c[0] == name[0]);
    assert(c.last() == d[0]);
    assert(no_newline(c)) by {
        assert forall|i: int| 0 <= i < n implies c[i] != '\n' by {
            if 3 <= i < 3 + bl.len() {
                assert(c[i] == bl[i - 3]);
            }
        }
    }
    assert(c[2] == '(');
    let m = c.subrange(n - 4, n - 1);
    assert(m =~= " = "@);
    assert(space_run(m, 1) == 1);
    assert(space_run(m, 0) == 1);
    assert(is_eq_sep(m));
    assert(last_close(c, n - 5) == n - 5);
    assert(last_close(c, n - 4) == n - 5);
    assert(last_close(c, n - 3) == n - 5);
    assert(last_close(c, n - 2) == n - 5);
    assert(c.subrange(3, n - 5) =~= bl);
    if lacks(bl, 'T') {
        assert forall|i: int| 0 <= i < n implies #[trigger] c[i] != 'T' by {
            if i < 2 {
                assert(c[i] == name[i]);
            } else if 3 <= i < 3 + bl.len() {
                assert(c[i] == bl[i - 3]);
            }
        }
    }
}

/// The text `IF REG(bits) = 0|1 THEN GOTO label @ XX` reads back to the
/// tested register, the compared value, the bits that the bit list gives
/// and the address.
#[verifier::rlimit(40)]
proof fn lemma_read_cond(reg: BaseCs, bl: Seq<char>, one: bool, ul: Seq<char>, a: u8)
    requires
        reg.spec_index() < 8,
        bl.len() >= 1,
        no_newline(bl),
        lacks(bl, 'T'),
        bit_list_bits(bl) is Bits,
        ul.len() > 0,
        no_newline(ul),
        !has_then(ul),
    ensures
        spec_parse("IF "@ + cond_text(reg, bl, one) + " THEN "@ + goto_line(ul, a)) == Parsed::Bits(
            cs_bits(Cs::Type(true)) | (((sig(reg) | cs_bits(Cs::Comp(one))) | bit_list_bits(
                bl,
            )->Bits_0) | ((a as u64) << 24u64)),
        ),
{
    reveal_strlit("IF ");
    reveal_strlit("IF");
    reveal_strlit(" THEN ");
    reveal_strlit(" ");
    let c = cond_text(reg, bl, one);
    let g = goto_line(ul, a);
    lemma_goto_addr(ul, a);
    lemma_cond_parts(reg, bl, one);
    lemma_reg_name_chars(reg);
    let n: int = c.len() as int;
    let u = "IF "@ + c + " THEN "@ + g;
    let r = u.subrange(2, u.len() as int);
    assert(r =~= " "@ + c + " THEN "@ + g);
    lemma_cond_then(c, ul, a);
    let q: int = n + 2;
    assert(r.take(q) =~= " "@ + c + " "@);
    lemma_trim_pad(c);
    assert(r.subrange(q + 4, r.len() as int) =~= " "@ + g);
    lemma_trim_pad(g);
    lemma_if_line_no_newline(c, g);
    assert(u.subrange(0, 2) =~= "IF"@);
    let t = cs_bits(Cs::Type(true));
    let head = sig(reg) | cs_bits(Cs::Comp(one));
    let b = bit_list_bits(bl)->Bits_0;
    let ga = (a as u64) << 24u64;
    assert(trim(r.take(q)) == c);
    assert(goto_bits(r.subrange(q + 4, r.len() as int)) == Parsed::Bits(ga));
    assert(if_bits(r.take(q), r.subrange(q + 4, r.len() as int)) == Parsed::Bits((head | b) | ga));
    assert(spec_parse(u) == or_bits(if_bits(r.take(q), r.subrange(q + 4, r.len() as int)), t));
}

proof fn lemma_if_line_no_newline(c: Seq<char>, g: Seq<char>)
    requires
        no_newline(c),
        no_newline(g),
    ensures
        no_newline("IF "@ + c + " THEN "@ + g),
{
    reveal_strlit("IF ");
    reveal_strlit(" THEN ");
    let u = "IF "@ + c + " THEN "@ + g;
    let n = c.len() as int;
    assert forall|i: int| 0 <= i < u.len() implies u[i] != '\n' by {
        if 3 <= i < 3 + n {
            assert(u[i] == c[i - 3]);
        } else if i >= 9 + n {
            assert(u[i] == g[i - 9 - n]);
        }
    }
}


// ---------------------------------------------------------------------------
// Bit lists

/// A bit label reads back as its bit.
proof fn lemma_bit_label(b: nat, ps: bool)
    requires
        b < 16,
        ps ==> b <= 8,
    ensures
        bit_label(b, ps).len() >= 1,
        !is_ws(bit_label(b, ps)[0]),
        !is_ws(bit_label(b, ps).last()),
        lacks(bit_label(b, ps), ','),
        lacks(bit_label(b, ps), 'T'),
        no_lower(bit_label(b, ps)),
        no_newline(bit_label(b, ps)),
        flag_bit(bit_label(b, ps)) == Some(b as int) || (flag_bit(bit_label(b, ps)) is None
            && !negation_overflows(trim(bit_label(b, ps))) && int_value(bit_label(b, ps)) == Some(
            b as i32)),
{
    reveal_strlit("C");
    reveal_strlit("V");
    reveal_strlit("Z");
    reveal_strlit("N");
    reveal_strlit("4");
    reveal_strlit("EI");
    reveal_strlit("INT");
    reveal_strlit("IRQ");
    reveal_strlit("W");
    reveal_strlit("P");
    let t = bit_label(b, ps);
    if ps {
        if b == 4 {
            assert(t =~= seq!['4']);
            lemma_trim_id(t);
            assert(all_decimal(t));
            assert(decimal_value(t.drop_last()) == 0);
        } else if b == 6 {
            assert(t != "INT"@) by {
                assert(t[1] != "INT"@[1]);
            }
        }
    } else {
        lemma_dec_small(b);
        lemma_trim_id(t);
        assert(t[0] != "C"@[0] && t[0] != "V"@[0] && t[0] != "Z"@[0] && t[0] != "N"@[0]
            && t[0] != "EI"@[0] && t[0] != "INT"@[0] && t[0] != "IRQ"@[0] && t[0] != "W"@[0]
            && t[0] != "P"@[0]);
    }
}

/// The decimal digits of a number below sixteen.
proof fn lemma_dec_small(b: nat)
    requires
        b < 16,
    ensures
        1 <= dec(b).len() <= 2,
        all_decimal(dec(b)),
        decimal_value(dec(b)) == b,
        !is_ws(dec(b)[0]),
        !is_ws(dec(b).last()),
        dec(b)[0] != '-',
        lacks(dec(b), ','),
        lacks(dec(b), 'T'),
        no_lower(dec(b)),
        no_newline(dec(b)),
        '0' <= dec(b)[0] <= '9',
{
    if b < 10 {
        let t = dec(b);
        assert(t =~= seq![digit(b)]);
        assert(decimal_value(t.drop_last()) == 0);
    } else {
        let t = dec(b);
        assert(dec(b / 10) =~= seq![digit(1)]);
        assert(t =~= seq![digit(1), digit((b % 10) as nat)]);
        assert(t.drop_last() =~= seq![digit(1)]);
        assert(decimal_value(t.drop_last().drop_last()) == 0);
        assert(decimal_value(t.drop_last()) == 1);
    }
}

/// The bits of `m` below bit `k`.
pub open spec fn below(m: u8, k: nat) -> u8 {
    ((m as u64) & !(0xFFFF_FFFF_FFFF_FFFFu64 << (k as u64))) as u8
}

proof fn lemma_below_step(m: u8, k: u64)
    by (bit_vector)
    requires
        k < 8,
    ensures
        ((m as u64 >> k) & 1u64 == 1u64) ==> ((m as u64) & !(0xFFFF_FFFF_FFFF_FFFFu64 << ((k + 1) as u64))) as u8
            == ((m as u64) & !(0xFFFF_FFFF_FFFF_FFFFu64 << k)) as u8 | (1u8 << (k as u8)),
        !((m as u64 >> k) & 1u64 == 1u64) ==> ((m as u64) & !(0xFFFF_FFFF_FFFF_FFFFu64 << ((k + 1) as u64))) as u8
            == ((m as u64) & !(0xFFFF_FFFF_FFFF_FFFFu64 << k)) as u8,
        ((m as u64 >> k) & 1u64 == 1u64) && m == 1 ==> k == 0,
        ((m as u64) & !(0xFFFF_FFFF_FFFF_FFFFu64 << 0u64)) as u8 == 0,
        ((m as u64) & !(0xFFFF_FFFF_FFFF_FFFFu64 << 8u64)) as u8 == m,
{
}

proof fn lemma_bit_labels_prefix(m: u8, off: nat, ps: bool, k: nat, k2: nat)
    requires
        k <= k2,
    ensures
        bit_labels(m, off, ps, k2).len() >= bit_labels(m, off, ps, k).len(),
        bit_labels(m, off, ps, k2).take(bit_labels(m, off, ps, k).len() as int) == bit_labels(
            m,
            off,
            ps,
            k,
        ),
    decreases k2,
{
    if k2 > k {
        lemma_bit_labels_prefix(m, off, ps, k, (k2 - 1) as nat);
        let a = bit_labels(m, off, ps, (k2 - 1) as nat);
        let n = bit_labels(m, off, ps, k).len() as int;
        assert(bit_labels(m, off, ps, k2).take(n) =~= a.take(n));
    } else {
        assert(bit_labels(m, off, ps, k2).take(bit_labels(m, off, ps, k).len() as int) =~= bit_labels(
            m,
            off,
            ps,
            k,
        ));
    }
}

/// What scanning the labels of the bits of `m` below `k` gives.
pub open spec fn scan_below(m: u8, high: bool, k: nat) -> BitScan {
    if below(m, k) == 0 {
        BitScan::State(0, None)
    } else {
        BitScan::State(below(m, k), Some(high))
    }
}

proof fn lemma_bit_scan(m: u8, off: nat, ps: bool, toks: Seq<Seq<char>>, k: nat)
    requires
        k <= 8,
        off == 0 || off == 8,
        ps && off == 8 ==> m == 1,
        toks.len() == bit_labels(m, off, ps, 8).len(),
        forall|i: int| 0 <= i < toks.len() ==> trim(#[trigger] toks[i]) == bit_labels(m, off, ps, 8)[i],
    ensures
        bit_scan(toks, bit_labels(m, off, ps, k).len()) == scan_below(m, off == 8, k),
    decreases k,
{
    let l8 = bit_labels(m, off, ps, 8);
    if k == 0 {
        lemma_below_step(m, 0);
    } else {
        let i = (k - 1) as nat;
        lemma_bit_scan(m, off, ps, toks, i);
        lemma_below_step(m, i as u64);
        let li = bit_labels(m, off, ps, i);
        let c = li.len();
        if bit_at(m as u64, i as u64) {
            let lk = bit_labels(m, off, ps, k);
            assert(lk == li + seq![bit_label(i + off, ps)]);
            lemma_bit_labels_prefix(m, off, ps, k, 8);
            assert(l8[c as int] == lk[c as int]);
            assert(trim(toks[c as int]) == bit_label(i + off, ps));
            lemma_bit_label(i + off, ps);
            let v = (i + off) as int;
            let h = off == 8;
            assert(v >= 8 <==> h);
            assert((if h { (v - 8) as u8 } else { v as u8 }) == i as u8);
            lemma_or_bit(below(m, i), i as u8);
            assert(lk.len() == c + 1);
        } else {
            assert(bit_labels(m, off, ps, k) =~= li);
        }
    }
}

/// The bit list that a conditional microcommand prints reads back as its
/// byte selector and its mask.
proof fn lemma_read_bit_list(m: u8, off: nat, ps: bool)
    requires
        m != 0,
        off == 0 || off == 8,
        ps && off == 8 ==> m == 1,
    ensures
        bit_list_bits(join(bit_labels(m, off, ps, 8), ", "@)) == Parsed::Bits(
            sig(if off == 8 { BaseCs::HTOL } else { BaseCs::LTOL }) | ((m as u64) << 16u64),
        ),
        join(bit_labels(m, off, ps, 8), ", "@).len() >= 1,
        lacks(join(bit_labels(m, off, ps, 8), ", "@), 'T'),
        no_lower(join(bit_labels(m, off, ps, 8), ", "@)),
        no_newline(join(bit_labels(m, off, ps, 8), ", "@)),
{
    let l8 = bit_labels(m, off, ps, 8);
    assert forall|i: int| 0 <= i < l8.len() implies lacks(#[trigger] l8[i], ',') && l8[i].len()
        >= 1 && !is_ws(l8[i][0]) && !is_ws(l8[i].last()) && lacks(l8[i], 'T') && no_lower(l8[i])
        && no_newline(l8[i]) by {
        lemma_labels_shape(m, off, ps, 8, i);
    }
    lemma_labels_nonempty(m, off, ps);
    lemma_split_join(l8);
    let toks = split(join(l8, ", "@), ',');
    assert forall|i: int| 0 <= i < toks.len() implies trim(#[trigger] toks[i]) == l8[i] by {
        if i == 0 {
            lemma_trim_id(l8[0]);
        } else {
            lemma_trim_pad(l8[i]);
        }
    }
    lemma_bit_scan(m, off, ps, toks, 8);
    lemma_below_step(m, 0);
    lemma_join_shape(l8);
}

proof fn lemma_labels_shape(m: u8, off: nat, ps: bool, k: nat, i: int)
    requires
        k <= 8,
        off == 0 || off == 8,
        ps && off == 8 ==> m == 1,
        0 <= i < bit_labels(m, off, ps, k).len(),
    ensures
        ({
            let t = bit_labels(m, off, ps, k)[i];
            &&& lacks(t, ',')
            &&& t.len() >= 1
            &&& !is_ws(t[0])
            &&& !is_ws(t.last())
            &&& lacks(t, 'T')
            &&& no_lower(t)
            &&& no_newline(t)
        }),
    decreases k,
{
    if k > 0 {
        let j = (k - 1) as nat;
        let lj = bit_labels(m, off, ps, j);
        if i < lj.len() {
            lemma_labels_shape(m, off, ps, j, i);
        } else {
            lemma_below_step(m, j as u64);
            lemma_bit_label(j + off, ps);
        }
    }
}

proof fn lemma_labels_count(m: u8, off: nat, ps: bool, k: nat)
    requires
        k <= 8,
    ensures
        (bit_labels(m, off, ps, k).len() == 0) == (below(m, k) == 0),
    decreases k,
{
    if k == 0 {
        lemma_below_step(m, 0);
    } else {
        let j = (k - 1) as nat;
        lemma_labels_count(m, off, ps, j);
        lemma_below_step(m, j as u64);
        lemma_or_bit(below(m, j), j as u8);
    }
}

proof fn lemma_labels_nonempty(m: u8, off: nat, ps: bool)
    requires
        m != 0,
    ensures
        bit_labels(m, off, ps, 8).len() >= 1,
{
    lemma_labels_count(m, off, ps, 8);
    lemma_below_step(m, 0);
}

proof fn lemma_or_bit(x: u8, j: u8)
    requires
        j < 8,
    ensures
        x | (1u8 << j) != 0,
        0u8 | (1u8 << j) == 1u8 << j,
{
    assert(x | (1u8 << j) != 0) by (bit_vector)
        requires
            j < 8,
    ;
    assert(0u8 | (1u8 << j) == 1u8 << j) by (bit_vector);
}

pub(crate) proof fn lemma_join_shape(items: Seq<Seq<char>>)
    requires
        items.len() >= 1,
        forall|i: int| 0 <= i < items.len() ==> (#[trigger] items[i]).len() >= 1 && lacks(items[i], 'T')
            && no_lower(items[i]) && no_newline(items[i]),
    ensures
        join(items, ", "@).len() >= 1,
        lacks(join(items, ", "@), 'T'),
        no_lower(join(items, ", "@)),
        no_newline(join(items, ", "@)),
    decreases items.len(),
{
    reveal_strlit(", ");
    if items.len() > 1 {
        let init = items.drop_last();
        assert forall|i: int| 0 <= i < init.len() implies (#[trigger] init[i]).len() >= 1 && lacks(init[i], 'T')
            && no_lower(init[i]) && no_newline(init[i]) by {
            assert(init[i] == items[i]);
        }
        lemma_join_shape(init);
        let j = join(init, ", "@);
        let l = items.last();
        assert(items[items.len() - 1] == l);
        let s = join(items, ", "@);
        assert(s =~= j + ", "@ + l);
        assert forall|i: int| 0 <= i < s.len() implies #[trigger] s[i] != 'T' && !('a' <= s[i] && s[i] <= 'z') && s[i] != '\n' by {
            if i < j.len() {
                assert(s[i] == j[i]);
            } else if i >= j.len() + 2 {
                assert(s[i] == l[i - j.len() - 2]);
            }
        }
    } else {
        assert(items[0] == join(items, ", "@));
    }
}


// ---------------------------------------------------------------------------
// The text of control words

pub(crate) proof fn lemma_two_bits(r: u64, s: u64, j: u64)
    requires
        r < 64,
        s < 64,
        j < 64,
    ensures
        bit_at((1u64 << r) | (1u64 << s), j) == (j == r || j == s),
{
    assert(((((1u64 << r) | (1u64 << s)) >> j) & 1u64 == 1u64) == (j == r || j == s)) by (bit_vector)
        requires
            r < 64,
            s < 64,
            j < 64,
    ;
}

/// The ALU text of a single read register with a byte selector is its name.
proof fn lemma_alu_text_single(r: nat, sel: nat)
    requires
        r < 8,
        sel == 12 || sel == 14,
    ensures
        alu_text((1u64 << (r as u64)) | (1u64 << (sel as u64))) == reg_name(BaseCs::spec_from_index(r)),
{
    reveal_strlit("DR");
    reveal_strlit("CR");
    reveal_strlit("IP");
    reveal_strlit("SP");
    reveal_strlit("AC");
    reveal_strlit("BR");
    reveal_strlit("PS");
    reveal_strlit("IR");
    let x = (1u64 << (r as u64)) | (1u64 << (sel as u64));
    lemma_two_bits(r as u64, sel as u64, 0);
    lemma_two_bits(r as u64, sel as u64, 1);
    lemma_two_bits(r as u64, sel as u64, 2);
    lemma_two_bits(r as u64, sel as u64, 3);
    lemma_two_bits(r as u64, sel as u64, 4);
    lemma_two_bits(r as u64, sel as u64, 5);
    lemma_two_bits(r as u64, sel as u64, 6);
    lemma_two_bits(r as u64, sel as u64, 7);
    lemma_two_bits(r as u64, sel as u64, 8);
    lemma_two_bits(r as u64, sel as u64, 9);
    lemma_two_bits(r as u64, sel as u64, 10);
    lemma_two_bits(r as u64, sel as u64, 11);
    let name = reg_name(BaseCs::spec_from_index(r));
    let right = opt(holds(x, BaseCs::RDDR), "DR"@) + opt(holds(x, BaseCs::RDCR), "CR"@) + opt(
        holds(x, BaseCs::RDIP),
        "IP"@,
    ) + opt(holds(x, BaseCs::RDSP), "SP"@);
    let left = opt(holds(x, BaseCs::RDAC), "AC"@) + opt(holds(x, BaseCs::RDBR), "BR"@) + opt(
        holds(x, BaseCs::RDPS),
        "PS"@,
    ) + opt(holds(x, BaseCs::RDIR), "IR"@);
    assert(bit_at(x, 0) == (r == 0));
    assert(bit_at(x, 1) == (r == 1));
    assert(bit_at(x, 2) == (r == 2));
    assert(bit_at(x, 3) == (r == 3));
    assert(bit_at(x, 4) == (r == 4));
    assert(bit_at(x, 5) == (r == 5));
    assert(bit_at(x, 6) == (r == 6));
    assert(bit_at(x, 7) == (r == 7));
    assert(!bit_at(x, 8) && !bit_at(x, 9) && !bit_at(x, 10) && !bit_at(x, 11));
    if r < 4 {
        assert(right =~= seq![name]);
        assert(left =~= Seq::<Seq<char>>::empty());
        assert(join(left, " | "@) =~= Seq::<char>::empty());
        assert(alu_left(x) =~= Seq::<char>::empty());
        assert(alu_right(x) == name);
        let parts = seq![alu_left(x), alu_right(x), Seq::<char>::empty()];
        let p1 = parts.drop_last().drop_last();
        assert(p1 =~= seq![alu_left(x)]);
        assert(p1.drop_last() =~= Seq::<Seq<char>>::empty());
        assert(drop_empty(Seq::<Seq<char>>::empty()) =~= Seq::<Seq<char>>::empty());
        assert(p1.last().len() == 0);
        assert(drop_empty(parts.drop_last().drop_last()) =~= Seq::<Seq<char>>::empty());
        assert(drop_empty(parts.drop_last()) =~= seq![name]);
        assert(drop_empty(parts) =~= seq![name]);
    } else {
        assert(left =~= seq![name]);
        assert(right =~= Seq::<Seq<char>>::empty());
        assert(join(right, " | "@) =~= Seq::<char>::empty());
        assert(alu_right(x) =~= Seq::<char>::empty());
        assert(alu_left(x) == name);
        let parts = seq![alu_left(x), alu_right(x), Seq::<char>::empty()];
        let p1 = parts.drop_last().drop_last();
        assert(p1 =~= seq![alu_left(x)]);
        assert(p1.drop_last() =~= Seq::<Seq<char>>::empty());
        assert(drop_empty(Seq::<Seq<char>>::empty()) =~= Seq::<Seq<char>>::empty());
        assert(p1.last() == name);
        assert(drop_empty(parts.drop_last().drop_last()) =~= seq![name]);
        assert(drop_empty(parts.drop_last()) =~= seq![name]);
        assert(drop_empty(parts) =~= seq![name]);
    }
}


/// A label under which a jump target can be written so that the text reads
/// back: not empty, on one line, and holding no `THEN` once upper-cased.
pub open spec fn fit_label(l: Seq<char>) -> bool {
    l.len() > 0 && no_newline(l) && !has_then(upper(l))
}

/// `labels` gives the address `a` a fit label.
pub open spec fn labelled(labels: Option<Seq<Seq<char>>>, a: u8) -> bool {
    labels matches Some(l) && (a as int) < l.len() && fit_label(l[a as int])
}

/// The conditional jump to `a` when bits `m` of the low byte (or, under
/// `high`, the high byte) of read register number `r` compare to `one`.
pub open spec fn cond_word(r: u64, high: bool, m: u8, one: bool, a: u8) -> u64 {
    (1u64 << 39u64) | ((if one { 1u64 } else { 0u64 }) << 32u64) | ((a as u64) << 24u64) | ((
    m as u64) << 16u64) | (1u64 << (if high { 14u64 } else { 12u64 })) | (1u64 << r)
}

/// The text of a jump reads back to its word.
pub(crate) proof fn lemma_jump_reads_back(a: u8, labels: Option<Seq<Seq<char>>>)
    requires
        labelled(labels, a),
    ensures
        spec_parse(upper(spec_text(jump_word(a), labels))) == Parsed::Bits(jump_word(a)),
{
    let w = jump_word(a);
    let l = labels->0;
    assert(bit_at(w, 39) && w & 0xFFFF == 0x1040 && ((w >> 16u64) & 0xff) as u8 == 0x10 && ((w
        >> 24u64) & 0xff) as u8 == a && (w >> 32u64) & 1 == 0) by (bit_vector)
        requires
            w == 0x80_0010_1040u64 | ((a as u64) << 24u64),
    ;
    assert(0x1040u64 & BASE_MASK == GOTO_BASE) by (bit_vector);
    assert(spec_text(w, labels) == goto_line(l[a as int], a));
    lemma_read_jump(l[a as int], a);
}

/// The fields of a conditional jump's word.
proof fn lemma_cond_fields(r: u64, high: bool, m: u8, one: bool, a: u8)
    requires
        r < 8,
    ensures
        ({
            let w = cond_word(r, high, m, one, a);
            let sel: u64 = if high { 14 } else { 12 };
            let base = (1u64 << r) | (1u64 << sel);
            &&& spec_mc(w) == Mc::Control(Cmc { base, bit: Bit(m), addr: Addr(a), comp: Comp(one) })
            &&& holds(base, BaseCs::RDPS) == (r == 6)
            &&& holds(base, BaseCs::HTOL) == high
            &&& (base & BASE_MASK == GOTO_BASE && m == 0x10 && !one ==> w == jump_word(a))
        }),
{
    let w = cond_word(r, high, m, one, a);
    let sel: u64 = if high { 14 } else { 12 };
    let c: u64 = if one { 1 } else { 0 };
    let base = (1u64 << r) | (1u64 << sel);
    assert(bit_at(w, 39) && w & 0xFFFF == base && ((w >> 16u64) & 0xff) as u8 == m && ((w >> 24u64)
        & 0xff) as u8 == a && ((w >> 32u64) & 1 != 0) == one) by (bit_vector)
        requires
            w == (1u64 << 39u64) | (c << 32u64) | ((a as u64) << 24u64) | ((m as u64) << 16u64) | (
            1u64 << sel) | (1u64 << r),
            r < 8,
            sel == 12 || sel == 14,
            base == (1u64 << r) | (1u64 << sel),
            c == 0 || c == 1,
            one == (c == 1),
    ;
    lemma_two_bits(r, sel, 6);
    lemma_two_bits(r, sel, 14);
    if base & BASE_MASK == GOTO_BASE && m == 0x10 && !one {
        assert(r == 6 && sel == 12) by (bit_vector)
            requires
                ((1u64 << r) | (1u64 << sel)) & 0x7F_FFFF_FFFFu64 == 0x1040u64,
                r < 8,
                sel == 12 || sel == 14,
        ;
        assert(w == jump_word(a)) by (bit_vector)
            requires
                w == (1u64 << 39u64) | (c << 32u64) | ((a as u64) << 24u64) | ((m as u64) << 16u64)
                    | (1u64 << sel) | (1u64 << r),
                r == 6,
                sel == 12,
                c == 0,
                m == 0x10,
        ;
    }
}

/// The text of a conditional jump that is not the unconditional one.
proof fn lemma_cond_text(r: u64, high: bool, m: u8, one: bool, a: u8, labels: Option<Seq<Seq<char>>>)
    requires
        r < 8,
        labelled(labels, a),
        cond_word(r, high, m, one, a) != jump_word(a),
    ensures
        spec_text(cond_word(r, high, m, one, a), labels) == "if "@ + cond_text(
            BaseCs::spec_from_index(r as nat),
            join(bit_labels(m, if high { 8 } else { 0 }, r == 6, 8), ", "@),
            one,
        ) + " then "@ + goto_line(labels->0[a as int], a),
{
    lemma_cond_fields(r, high, m, one, a);
    let sel: u64 = if high { 14 } else { 12 };
    lemma_alu_text_single(r as nat, sel as nat);
    let w = cond_word(r, high, m, one, a);
    let reg = BaseCs::spec_from_index(r as nat);
    let bl = join(bit_labels(m, if high { 8 } else { 0 }, r == 6, 8), ", "@);
    assert(spec_text(w, labels) =~= "if "@ + cond_text(reg, bl, one) + " then "@ + goto_line(
        labels->0[a as int],
        a,
    ));
}

/// Upper-casing the text of a conditional jump.
proof fn lemma_upper_cond_line(reg: BaseCs, bl: Seq<char>, one: bool, label: Seq<char>, a: u8)
    requires
        reg.spec_index() < 8,
        no_lower(bl),
    ensures
        upper("if "@ + cond_text(reg, bl, one) + " then "@ + goto_line(label, a)) == "IF "@
            + cond_text(reg, bl, one) + " THEN "@ + goto_line(upper(label), a),
{
    let d = dec(bool_num(one));
    lemma_reg_name_chars(reg);
    lemma_hex_digit(bool_num(one));
    assert(d =~= seq![digit(bool_num(one))]);
    reveal_strlit("(");
    reveal_strlit(") = ");
    let ct = cond_text(reg, bl, one);
    lemma_upper_concat(reg_name(reg) + "("@ + bl + ") = "@, d);
    lemma_upper_concat(reg_name(reg) + "("@ + bl, ") = "@);
    lemma_upper_concat(reg_name(reg) + "("@, bl);
    lemma_upper_concat(reg_name(reg), "("@);
    lemma_upper_fixed(reg_name(reg));
    lemma_upper_fixed("("@);
    lemma_upper_fixed(bl);
    lemma_upper_fixed(") = "@);
    lemma_upper_fixed(d);
    assert(upper(ct) == ct);
    lemma_upper_concat("if "@ + ct + " then "@, goto_line(label, a));
    lemma_upper_concat("if "@ + ct, " then "@);
    lemma_upper_concat("if "@, ct);
    lemma_upper_if_then();
    lemma_upper_goto_line(label, a);
}

/// The text of a conditional jump reads back to its word.
pub(crate) proof fn lemma_cond_reads_back(
    r: u64,
    high: bool,
    m: u8,
    one: bool,
    a: u8,
    labels: Option<Seq<Seq<char>>>,
)
    requires
        r < 8,
        m != 0,
        r == 6 && high ==> m == 1,
        labelled(labels, a),
    ensures
        spec_parse(upper(spec_text(cond_word(r, high, m, one, a), labels))) == Parsed::Bits(
            cond_word(r, high, m, one, a),
        ),
{
    let w = cond_word(r, high, m, one, a);
    if w == jump_word(a) {
        lemma_jump_reads_back(a, labels);
        return;
    }
    let sel: u64 = if high { 14 } else { 12 };
    let c: u64 = if one { 1 } else { 0 };
    let ps = r == 6;
    let off: nat = if high { 8 } else { 0 };
    let reg = BaseCs::spec_from_index(r as nat);
    let bl = join(bit_labels(m, off, ps, 8), ", "@);
    let label = labels->0[a as int];
    lemma_cond_text(r, high, m, one, a, labels);
    lemma_read_bit_list(m, off, ps);
    lemma_upper_cond_line(reg, bl, one, label, a);
    lemma_upper_no_newline(label);
    lemma_read_cond(reg, bl, one, upper(label), a);
    let b = sig(if high { BaseCs::HTOL } else { BaseCs::LTOL }) | ((m as u64) << 16u64);
    assert(sig(reg) == 1u64 << r);
    assert(sig(if high { BaseCs::HTOL } else { BaseCs::LTOL }) == 1u64 << sel);
    assert((1u64 << 39u64) | ((((1u64 << r) | (c << 32u64)) | ((1u64 << sel) | ((m as u64) << 16u64)))
        | ((a as u64) << 24u64)) == (1u64 << 39u64) | (c << 32u64) | ((a as u64) << 24u64) | ((
    m as u64) << 16u64) | (1u64 << sel) | (1u64 << r)) by (bit_vector);
}

} // verus!
