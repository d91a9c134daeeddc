//! Properties that relate the operations of the library to one another.
use vstd::prelude::*;
use crate::control_signals::{bit_at, bool_num, holds, lemma_from_index_roundtrip, BaseCs, Cs};
use crate::command::{spec_bases, spec_cs, BASE_MASK, TYPE_BIT};
use crate::parse::{cs_bits, spec_from_str, spec_parse, Parsed};
use crate::command::spec_text;
use crate::foreign::uppercase;
use crate::roundtrip::{cond_word, goto_line, jump_word, labelled, lemma_hex2};
use crate::command::{labels_of, BASE_MASK as OMC_MASK, GOTO_BASE};
use crate::grammar::{hex_val, is_hex};
use crate::table::Instruction;
use crate::text::{bin8, dec, drop_empty, hex2, join};
use crate::command::{alu_left, alu_right, alu_text, opt, write_items};
use crate::parse::{read_reg, sig, write_sig};
use crate::roundtrip_omc::{lemma_drop_empty3, lemma_join1};
use crate::foreign::{all_digits, digit_of, radix_value};
use crate::text::{all_ascii, upper};
use crate::roundtrip_omc::{omc_parts_ok, omc_word};

verus! {

/// The bits of a control microcommand that its signals and fields carry:
/// signals 0..16, mask 16..24, address 24..32, compared value 32, kind 39.
pub const CONTROL_WORD_MASK: u64 = 0x81_FFFF_FFFF;

/// The word that setting the control signals `css` one after the other, as
/// `ParseState::add_state` does, builds from an empty word.
pub open spec fn encode(css: Seq<Cs>) -> u64
    decreases css.len(),
{
    if css.len() == 0 {
        0
    } else {
        encode(css.drop_last()) | cs_bits(css.last())
    }
}

/// The bits of a word below bit `n`.
pub open spec fn low_mask(n: u64) -> u64 {
    !(0xFFFF_FFFF_FFFF_FFFFu64 << n)
}

proof fn lemma_low_step(x: u64, i: u64)
    by (bit_vector)
    requires
        i < 63,
    ensures
        (x >> i) & 1u64 == 1u64 ==> (x & !(0xFFFF_FFFF_FFFF_FFFFu64 << i)) | (1u64 << i) == x & !(
        0xFFFF_FFFF_FFFF_FFFFu64 << (i + 1) as u64),
        (x >> i) & 1u64 != 1u64 ==> x & !(0xFFFF_FFFF_FFFF_FFFFu64 << i) == x & !(
        0xFFFF_FFFF_FFFF_FFFFu64 << (i + 1) as u64),
{
}

proof fn lemma_encode_push(s: Seq<Cs>, c: Cs)
    ensures
        encode(s.push(c)) == encode(s) | cs_bits(c),
{
    assert(s.push(c).drop_last() =~= s);
}

/// Setting the listed signals of bits below `n` of `x` builds the low `n`
/// bits of `x`.
proof fn lemma_encode_bases(x: u64, n: nat)
    requires
        n <= 39,
    ensures
        encode(spec_bases(x, n)) == x & low_mask(n as u64),
    decreases n,
{
    if n == 0 {
        assert(x & !(0xFFFF_FFFF_FFFF_FFFFu64 << 0u64) == 0u64) by (bit_vector);
    } else {
        let i = (n - 1) as nat;
        lemma_encode_bases(x, i);
        lemma_low_step(x, i as u64);
        if bit_at(x, i as u64) {
            let b = BaseCs::spec_from_index(i);
            lemma_from_index_roundtrip(i);
            assert(spec_bases(x, n) =~= spec_bases(x, i).push(Cs::Base(b)));
            lemma_encode_push(spec_bases(x, i), Cs::Base(b));
        } else {
            assert(spec_bases(x, n) =~= spec_bases(x, i));
        }
    }
}

/// Setting, one after the other, the control signals that `Command::cs`
/// lists for a word gives back that word, less the bits that carry no
/// signal: bits 39.. of an operational microcommand, and bits 33..39 and
/// 40.. of a control one.
pub proof fn law_signals_rebuild_word(cmd: u64)
    ensures
        encode(spec_cs(cmd)) == if bit_at(cmd, TYPE_BIT) {
            cmd & CONTROL_WORD_MASK
        } else {
            cmd & BASE_MASK
        },
{
    if bit_at(cmd, TYPE_BIT) {
        let b = spec_bases(cmd, 16);
        let f1 = Cs::Bit(((cmd >> 16u64) & 0xff) as u8);
        let f2 = Cs::Addr(((cmd >> 24u64) & 0xff) as u8);
        let f3 = Cs::Comp((cmd >> 32u64) & 1 != 0);
        let f4 = Cs::Type(true);
        assert(spec_cs(cmd) =~= b.push(f1).push(f2).push(f3).push(f4));
        lemma_encode_bases(cmd, 16);
        lemma_encode_push(b, f1);
        lemma_encode_push(b.push(f1), f2);
        lemma_encode_push(b.push(f1).push(f2), f3);
        lemma_encode_push(b.push(f1).push(f2).push(f3), f4);
        let e0 = cmd & low_mask(16);
        let c = (cmd >> 32u64) & 1 != 0;
        assert((((e0 | ((((cmd >> 16u64) & 0xff) as u8 as u64) << 16u64)) | ((((cmd >> 24u64)
            & 0xff) as u8 as u64) << 24u64)) | ((if c {
            1u64
        } else {
            0u64
        }) << 32u64)) | (1u64 << 39u64) == cmd & 0x81_FFFF_FFFFu64) by (bit_vector)
            requires
                e0 == cmd & !(0xFFFF_FFFF_FFFF_FFFFu64 << 16u64),
                c == ((cmd >> 32u64) & 1 != 0),
                (cmd >> 39u64) & 1u64 == 1u64,
        ;
    } else {
        let b = spec_bases(cmd, 39);
        lemma_encode_bases(cmd, 39);
        lemma_encode_push(b, Cs::Type(false));
        assert((cmd & !(0xFFFF_FFFF_FFFF_FFFFu64 << 39u64)) | (0u64 << 39u64) == cmd
            & 0x7F_FFFF_FFFFu64) by (bit_vector);
    }
}


/// The microcommand words whose text, as `Command::to_string` writes it with
/// jump targets named by `labels`, carries all of their bits:
/// - the unconditional jump to an address that `labels` names;
/// - a conditional jump that tests a non-empty set of bits of the low or
///   the high byte of one read register (of the program state register's
///   high byte, only its bit 0 has a name) and jumps to an address that
///   `labels` names;
/// - an operational word made of its parts as `omc_word` describes them,
///   within the bounds of `omc_parts_ok`.
pub open spec fn text_reads_back(w: u64, labels: Option<Seq<Seq<char>>>) -> bool {
    ||| exists|a: u8| w == #[trigger] jump_word(a) && labelled(labels, a)
    ||| exists|r: u64, high: bool, m: u8, one: bool, a: u8|
        #![trigger cond_word(r, high, m, one, a)]
        r < 8 && m != 0 && (r == 6 && high ==> m == 1) && labelled(labels, a) && w == cond_word(
            r,
            high,
            m,
            one,
            a,
        )
    ||| exists|rr: nat, lr: nat, comr: bool, coml: bool, pls: bool, sora: bool, cc: nat, wr: u64, acts: u64|
        #![trigger omc_word(rr, lr, comr, coml, pls, sora, cc, wr, acts)]
        omc_parts_ok(rr, lr, comr, coml, pls, sora, cc, wr, acts) && w == omc_word(
            rr,
            lr,
            comr,
            coml,
            pls,
            sora,
            cc,
            wr,
            acts,
        )
}

/// Reading back what is written: the text that `Command::to_string` gives a
/// word that `text_reads_back` admits, upper-cased letter by letter,
/// parses (`Command::parse_upper`) to the same word; and so `from_str`
/// reads the text back to the word wherever `str::to_uppercase` agrees
/// with that upper-casing on it.
pub proof fn law_text_reads_back(w: u64, labels: Option<Seq<Seq<char>>>)
    requires
        text_reads_back(w, labels),
    ensures
        spec_parse(upper(spec_text(w, labels))) == Parsed::Bits(w),
        uppercase(spec_text(w, labels)) == upper(spec_text(w, labels)) ==> spec_from_str(
            spec_text(w, labels),
        ) == Some(Ok::<u64, Seq<char>>(w)),
        all_ascii(spec_text(w, labels)) ==> spec_from_str(spec_text(w, labels)) == Some(
            Ok::<u64, Seq<char>>(w),
        ),
{
    if exists|a: u8| w == #[trigger] jump_word(a) && labelled(labels, a) {
        let a = choose|a: u8| w == #[trigger] jump_word(a) && labelled(labels, a);
        crate::roundtrip::lemma_jump_reads_back(a, labels);
    } else if exists|r: u64, high: bool, m: u8, one: bool, a: u8|
        #![trigger cond_word(r, high, m, one, a)]
        r < 8 && m != 0 && (r == 6 && high ==> m == 1) && labelled(labels, a) && w == cond_word(
            r,
            high,
            m,
            one,
            a,
        ) {
        let (r, high, m, one, a) = choose|r: u64, high: bool, m: u8, one: bool, a: u8|
            #![trigger cond_word(r, high, m, one, a)]
            r < 8 && m != 0 && (r == 6 && high ==> m == 1) && labelled(labels, a) && w == cond_word(
                r,
                high,
                m,
                one,
                a,
            );
        crate::roundtrip::lemma_cond_reads_back(r, high, m, one, a, labels);
    } else {
        let (rr, lr, comr, coml, pls, sora, cc, wr, acts) = choose|
            rr: nat,
            lr: nat,
            comr: bool,
            coml: bool,
            pls: bool,
            sora: bool,
            cc: nat,
            wr: u64,
            acts: u64,
        |
            #![trigger omc_word(rr, lr, comr, coml, pls, sora, cc, wr, acts)]
            omc_parts_ok(rr, lr, comr, coml, pls, sora, cc, wr, acts) && w == omc_word(
                rr,
                lr,
                comr,
                coml,
                pls,
                sora,
                cc,
                wr,
                acts,
            );
        crate::roundtrip_words::lemma_omc_reads_back(rr, lr, comr, coml, pls, sora, cc, wr, acts, labels);
    }
}


/// The labels that name jump targets are those of the cells, each at its
/// own address.
pub proof fn law_labels_by_address(cells: Seq<Instruction>)
    ensures
        labels_of(cells).len() == cells.len(),
        forall|i: int| 0 <= i < cells.len() ==> #[trigger] labels_of(cells)[i] == cells[i].label@,
{
}

/// The text of the unconditional jump to `a`, with jump targets named by
/// the cells `cells`, names the target cell by its own label: `GOTO `, the
/// label of cell `a`, ` @ `, and two hexadecimal digits that read as `a`.
pub proof fn law_jump_names_its_target(cells: Seq<Instruction>, a: u8)
    requires
        (a as int) < cells.len(),
        cells[a as int].label@.len() > 0,
    ensures
        ({
            let t = spec_text(jump_word(a), Some(labels_of(cells)));
            let l = cells[a as int].label@;
            let n = l.len() as int;
            &&& t.len() == n + 10
            &&& t.take(5) == "GOTO "@
            &&& t.subrange(5, 5 + n) == l
            &&& t.subrange(5 + n, 8 + n) == " @ "@
            &&& is_hex(t[8 + n]) && is_hex(t[9 + n])
            &&& 16 * hex_val(t[8 + n]) + hex_val(t[9 + n]) == a
        }),
{
    reveal_strlit("GOTO ");
    reveal_strlit(" @ ");
    let w = jump_word(a);
    let labels = Some(labels_of(cells));
    assert(bit_at(w, 39) && w & 0xFFFF == 0x1040 && ((w >> 16u64) & 0xff) as u8 == 0x10 && ((w
        >> 24u64) & 0xff) as u8 == a && (w >> 32u64) & 1 == 0) by (bit_vector)
        requires
            w == 0x80_0010_1040u64 | ((a as u64) << 24u64),
    ;
    assert(0x1040u64 & OMC_MASK == GOTO_BASE) by (bit_vector);
    let l = cells[a as int].label@;
    assert(labels_of(cells)[a as int] == l);
    let t = spec_text(w, labels);
    assert(t == goto_line(l, a));
    lemma_hex2(a);
    let n = l.len() as int;
    assert(t.take(5) =~= "GOTO "@);
    assert(t.subrange(5, 5 + n) =~= l);
    assert(t.subrange(5 + n, 8 + n) =~= " @ "@);
    assert(t[8 + n] == hex2(a)[0]);
    assert(t[9 + n] == hex2(a)[1]);
}

/// The character at `k` of `s`, as a number; zero past its end.
pub open spec fn char_code(s: Seq<char>, k: int) -> int {
    if 0 <= k < s.len() {
        s[k] as int
    } else {
        0
    }
}

/// A number that tells the signal names apart: made of the length and the
/// characters at positions 0, 1, 2, 3 and 9.
pub open spec fn name_code(s: Seq<char>) -> int {
    s.len() * 0x8_0000_0000 + char_code(s, 0) * 0x1000_0000 + char_code(s, 1) * 0x20_0000
        + char_code(s, 2) * 0x4000 + char_code(s, 3) * 0x80 + char_code(s, 9)
}

/// The signal whose name has the code `c`.
pub open spec fn signal_of_code(c: int) -> Option<BaseCs> {
    if c == 159594391808 {
        Some(BaseCs::RDDR)
    } else if c == 159594375424 {
        Some(BaseCs::RDCR)
    } else if c == 159594473472 {
        Some(BaseCs::RDIP)
    } else if c == 159594637312 {
        Some(BaseCs::RDSP)
    } else if c == 159594340736 {
        Some(BaseCs::RDAC)
    } else if c == 159594359040 {
        Some(BaseCs::RDBR)
    } else if c == 159594588544 {
        Some(BaseCs::RDPS)
    } else if c == 159594473728 {
        Some(BaseCs::RDIR)
    } else if c == 155591076096 {
        Some(BaseCs::COMR)
    } else if c == 155591075328 {
        Some(BaseCs::COML)
    } else if c == 159074539648 {
        Some(BaseCs::PLS1)
    } else if c == 159886123136 {
        Some(BaseCs::SORA)
    } else if c == 158017512960 {
        Some(BaseCs::LTOL)
    } else if c == 158017512448 {
        Some(BaseCs::LTOH)
    } else if c == 156943771136 {
        Some(BaseCs::HTOL)
    } else if c == 156943770624 {
        Some(BaseCs::HTOH)
    } else if c == 159865252352 {
        Some(BaseCs::SEXT)
    } else if c == 159871347200 {
        Some(BaseCs::SHLT)
    } else if c == 159871342592 {
        Some(BaseCs::SHL0)
    } else if c == 159871445504 {
        Some(BaseCs::SHRT)
    } else if c == 159871443712 {
        Some(BaseCs::SHRF)
    } else if c == 159865184640 {
        Some(BaseCs::SETC)
    } else if c == 159865187072 {
        Some(BaseCs::SETV)
    } else if c == 159896546560 {
        Some(BaseCs::STNZ)
    } else if c == 160965929216 {
        Some(BaseCs::WRDR)
    } else if c == 160965912832 {
        Some(BaseCs::WRCR)
    } else if c == 160966010880 {
        Some(BaseCs::WRIP)
    } else if c == 160966174720 {
        Some(BaseCs::WRSP)
    } else if c == 160965878144 {
        Some(BaseCs::WRAC)
    } else if c == 160965896448 {
        Some(BaseCs::WRBR)
    } else if c == 160966125952 {
        Some(BaseCs::WRPS)
    } else if c == 160965880064 {
        Some(BaseCs::WRAR)
    } else if c == 158006796800 {
        Some(BaseCs::LOAD)
    } else if c == 159896561920 {
        Some(BaseCs::STOR)
    } else if c == 88480940032 {
        Some(BaseCs::IO)
    } else if c == 157199706496 {
        Some(BaseCs::INTS)
    } else if c == 365755163318 {
        Some(BaseCs::RESERVED36)
    } else if c == 365755163319 {
        Some(BaseCs::RESERVED37)
    } else if c == 156903877120 {
        Some(BaseCs::HALT)
    } else {
        None
    }
}

/// The name of a signal reads back as that signal.
pub proof fn law_signal_name_reads_back(b: BaseCs)
    ensures
        signal_of_code(name_code(b.spec_name())) == Some(b),
{
    match b {
        BaseCs::RDDR => {
            reveal_strlit("RDDR");
        },
        BaseCs::RDCR => {
            reveal_strlit("RDCR");
        },
        BaseCs::RDIP => {
            reveal_strlit("RDIP");
        },
        BaseCs::RDSP => {
            reveal_strlit("RDSP");
        },
        BaseCs::RDAC => {
            reveal_strlit("RDAC");
        },
        BaseCs::RDBR => {
            reveal_strlit("RDBR");
        },
        BaseCs::RDPS => {
            reveal_strlit("RDPS");
        },
        BaseCs::RDIR => {
            reveal_strlit("RDIR");
        },
        BaseCs::COMR => {
            reveal_strlit("COMR");
        },
        BaseCs::COML => {
            reveal_strlit("COML");
        },
        BaseCs::PLS1 => {
            reveal_strlit("PLS1");
        },
        BaseCs::SORA => {
            reveal_strlit("SORA");
        },
        BaseCs::LTOL => {
            reveal_strlit("LTOL");
        },
        BaseCs::LTOH => {
            reveal_strlit("LTOH");
        },
        BaseCs::HTOL => {
            reveal_strlit("HTOL");
        },
        BaseCs::HTOH => {
            reveal_strlit("HTOH");
        },
        BaseCs::SEXT => {
            reveal_strlit("SEXT");
        },
        BaseCs::SHLT => {
            reveal_strlit("SHLT");
        },
        BaseCs::SHL0 => {
            reveal_strlit("SHL0");
        },
        BaseCs::SHRT => {
            reveal_strlit("SHRT");
        },
        BaseCs::SHRF => {
            reveal_strlit("SHRF");
        },
        BaseCs::SETC => {
            reveal_strlit("SETC");
        },
        BaseCs::SETV => {
            reveal_strlit("SETV");
        },
        BaseCs::STNZ => {
            reveal_strlit("STNZ");
        },
        BaseCs::WRDR => {
            reveal_strlit("WRDR");
        },
        BaseCs::WRCR => {
            reveal_strlit("WRCR");
        },
        BaseCs::WRIP => {
            reveal_strlit("WRIP");
        },
        BaseCs::WRSP => {
            reveal_strlit("WRSP");
        },
        BaseCs::WRAC => {
            reveal_strlit("WRAC");
        },
        BaseCs::WRBR => {
            reveal_strlit("WRBR");
        },
        BaseCs::WRPS => {
            reveal_strlit("WRPS");
        },
        BaseCs::WRAR => {
            reveal_strlit("WRAR");
        },
        BaseCs::LOAD => {
            reveal_strlit("LOAD");
        },
        BaseCs::STOR => {
            reveal_strlit("STOR");
        },
        BaseCs::IO => {
            reveal_strlit("IO");
        },
        BaseCs::INTS => {
            reveal_strlit("INTS");
        },
        BaseCs::RESERVED36 => {
            reveal_strlit("RESERVED36");
        },
        BaseCs::RESERVED37 => {
            reveal_strlit("RESERVED37");
        },
        BaseCs::HALT => {
            reveal_strlit("HALT");
        },
    }
}

/// Distinct signals have distinct names.
pub proof fn law_signal_names_distinct(b1: BaseCs, b2: BaseCs)
    requires
        b1 != b2,
    ensures
        b1.spec_name() != b2.spec_name(),
{
    law_signal_name_reads_back(b1);
    law_signal_name_reads_back(b2);
}

/// The debug text of an address field is `addr 0x` and two hexadecimal
/// digits that read as the whole address.
pub proof fn law_address_debug_text(a: u8)
    ensures
        ({
            let d = Cs::Addr(a).spec_debug();
            &&& d.len() == 9
            &&& d.take(7) == "addr 0x"@
            &&& is_hex(d[7]) && is_hex(d[8])
            &&& 16 * hex_val(d[7]) + hex_val(d[8]) == a
        }),
{
    reveal_strlit("addr 0x");
    lemma_hex2(a);
    let d = Cs::Addr(a).spec_debug();
    assert(d.take(7) =~= "addr 0x"@);
    assert(d[7] == hex2(a)[0]);
    assert(d[8] == hex2(a)[1]);
}

/// What the debug text of a signal shows of it: a signal by its name,
/// which reads back as that signal; the bit mask as `bit 0b` and eight
/// binary digits worth the mask; the compared value and the kind as `comp `
/// or `TYPE ` and the digit of the flag.
pub proof fn law_signal_debug_text(cs: Cs)
    ensures
        cs matches Cs::Base(b) ==> signal_of_code(name_code(cs.spec_debug())) == Some(b),
        cs matches Cs::Bit(x) ==> ({
            let d = cs.spec_debug();
            &&& d.len() == 14
            &&& d.take(6) == "bit 0b"@
            &&& all_digits(d.subrange(6, 14), 2)
            &&& radix_value(d.subrange(6, 14), 2) == x
        }),
        cs matches Cs::Comp(c) ==> cs.spec_debug() == "comp "@ + seq![if c { '1' } else { '0' }],
        cs matches Cs::Type(t) ==> cs.spec_debug() == "TYPE "@ + seq![if t { '1' } else { '0' }],
{
    reveal_strlit("bit 0b");
    match cs {
        Cs::Base(b) => {
            law_signal_name_reads_back(b);
        },
        Cs::Bit(x) => {
            let d = cs.spec_debug();
            lemma_bin_prefix(x, 8);
            assert(bin8(x).take(8) =~= bin8(x));
            assert(d.take(6) =~= "bit 0b"@);
            assert(d.subrange(6, 14) =~= bin8(x));
            assert(x >> 0u8 == x) by (bit_vector);
        },
        Cs::Comp(c) => {
            assert(dec(bool_num(c)) =~= seq![if c { '1' } else { '0' }]);
        },
        Cs::Type(t) => {
            assert(dec(bool_num(t)) =~= seq![if t { '1' } else { '0' }]);
        },
        Cs::Addr(_) => {},
    }
}

proof fn lemma_shift_step(x: u8, k: u8)
    by (bit_vector)
    requires
        k < 8,
    ensures
        (x >> (8 - k) as u8) * 2 + ((x >> (7 - k) as u8) & 1) == x >> (7 - k) as u8,
        (x >> (7 - k) as u8) & 1 == 0 || (x >> (7 - k) as u8) & 1 == 1,
        k == 0 ==> x >> 8u8 == 0,
{
}

/// The first `k` binary digits of `x` are worth `x >> (8 - k)`.
proof fn lemma_bin_prefix(x: u8, k: nat)
    requires
        k <= 8,
    ensures
        all_digits(bin8(x).take(k as int), 2),
        radix_value(bin8(x).take(k as int), 2) == x >> (8 - k) as u8,
    decreases k,
{
    if k == 0 {
        lemma_shift_step(x, 0);
        assert(bin8(x).take(0) =~= Seq::<char>::empty());
    } else {
        let j = (k - 1) as nat;
        lemma_bin_prefix(x, j);
        lemma_shift_step(x, j as u8);
        let p = bin8(x).take(k as int);
        assert(p.drop_last() =~= bin8(x).take(j as int));
        assert(p.last() == bin8(x)[j as int]);
        assert forall|i: int| 0 <= i < p.len() implies #[trigger] digit_of(p[i], 2) is Some by {
            if i < j {
                assert(p[i] == bin8(x).take(j as int)[i]);
            }
        }
    }
}

/// In a word with one signal, bit `i`, exactly bit `i` is set.
proof fn lemma_single_bit(i: u64)
    by (bit_vector)
    requires
        i < 64,
    ensures
        forall|j: u64| j < 64 ==> ((((1u64 << i) >> j) & 1u64 == 1u64) == (i == j)),
{
}

/// The ALU text of a word that reads one register alone is the register's
/// name, which is the name of its read signal without the leading `RD`;
/// and that name, read as an operand, is the register's read signal.
pub proof fn law_read_register_named(b: BaseCs)
    requires
        b.spec_index() < 8,
    ensures
        alu_text(sig(b)) == b.spec_name().subrange(2, 4),
        read_reg(b.spec_name().subrange(2, 4), 2) == Some(b),
{
    reveal_strlit(" + ");
    reveal_strlit(" | ");
    reveal_strlit("DR");
    reveal_strlit("CR");
    reveal_strlit("IP");
    reveal_strlit("SP");
    reveal_strlit("AC");
    reveal_strlit("BR");
    reveal_strlit("PS");
    reveal_strlit("IR");
    reveal_strlit("AR");
    reveal_strlit("C");
    reveal_strlit("V");
    reveal_strlit("N");
    reveal_strlit("Z");
    lemma_single_bit(b.spec_index() as u64);
    let x = sig(b);
    let n = b.spec_name().subrange(2, 4);
    let e = Seq::<char>::empty();
    assert(join(Seq::<Seq<char>>::empty(), " | "@) == e);
    lemma_join1(n, " | "@);
    match b {
        BaseCs::RDDR => {
            reveal_strlit("RDDR");
            reveal_strlit("DR");
            assert(n =~= "DR"@);
            assert(read_reg(n, 2) == Some(BaseCs::RDDR));
            assert(opt(holds(x, BaseCs::RDDR), "DR"@) + opt(holds(x, BaseCs::RDCR), "CR"@) + opt(holds(x, BaseCs::RDIP), "IP"@) + opt(holds(x, BaseCs::RDSP), "SP"@) =~= seq![n]);
            assert(opt(holds(x, BaseCs::RDAC), "AC"@) + opt(holds(x, BaseCs::RDBR), "BR"@) + opt(holds(x, BaseCs::RDPS), "PS"@) + opt(holds(x, BaseCs::RDIR), "IR"@) =~= Seq::<Seq<char>>::empty());
        },
        BaseCs::RDCR => {
            reveal_strlit("RDCR");
            reveal_strlit("CR");
            assert(n =~= "CR"@);
            assert(n[0] != "DR"@[0]);
            assert(read_reg(n, 2) == Some(BaseCs::RDCR));
            assert(opt(holds(x, BaseCs::RDDR), "DR"@) + opt(holds(x, BaseCs::RDCR), "CR"@) + opt(holds(x, BaseCs::RDIP), "IP"@) + opt(holds(x, BaseCs::RDSP), "SP"@) =~= seq![n]);
            assert(opt(holds(x, BaseCs::RDAC), "AC"@) + opt(holds(x, BaseCs::RDBR), "BR"@) + opt(holds(x, BaseCs::RDPS), "PS"@) + opt(holds(x, BaseCs::RDIR), "IR"@) =~= Seq::<Seq<char>>::empty());
        },
        BaseCs::RDIP => {
            reveal_strlit("RDIP");
            reveal_strlit("IP");
            assert(n =~= "IP"@);
            assert(n[0] != "DR"@[0]);
            assert(n[0] != "CR"@[0]);
            assert(read_reg(n, 2) == Some(BaseCs::RDIP));
            assert(opt(holds(x, BaseCs::RDDR), "DR"@) + opt(holds(x, BaseCs::RDCR), "CR"@) + opt(holds(x, BaseCs::RDIP), "IP"@) + opt(holds(x, BaseCs::RDSP), "SP"@) =~= seq![n]);
            assert(opt(holds(x, BaseCs::RDAC), "AC"@) + opt(holds(x, BaseCs::RDBR), "BR"@) + opt(holds(x, BaseCs::RDPS), "PS"@) + opt(holds(x, BaseCs::RDIR), "IR"@) =~= Seq::<Seq<char>>::empty());
        },
        BaseCs::RDSP => {
            reveal_strlit("RDSP");
            reveal_strlit("SP");
            assert(n =~= "SP"@);
            assert(n[0] != "DR"@[0]);
            assert(n[0] != "CR"@[0]);
            assert(n[0] != "IP"@[0]);
            assert(read_reg(n, 2) == Some(BaseCs::RDSP));
            assert(opt(holds(x, BaseCs::RDDR), "DR"@) + opt(holds(x, BaseCs::RDCR), "CR"@) + opt(holds(x, BaseCs::RDIP), "IP"@) + opt(holds(x, BaseCs::RDSP), "SP"@) =~= seq![n]);
            assert(opt(holds(x, BaseCs::RDAC), "AC"@) + opt(holds(x, BaseCs::RDBR), "BR"@) + opt(holds(x, BaseCs::RDPS), "PS"@) + opt(holds(x, BaseCs::RDIR), "IR"@) =~= Seq::<Seq<char>>::empty());
        },
        BaseCs::RDAC => {
            reveal_strlit("RDAC");
            reveal_strlit("AC");
            assert(n =~= "AC"@);
            assert(n[0] != "DR"@[0]);
            assert(n[0] != "CR"@[0]);
            assert(n[0] != "IP"@[0]);
            assert(n[0] != "SP"@[0]);
            assert(read_reg(n, 2) == Some(BaseCs::RDAC));
            assert(opt(holds(x, BaseCs::RDAC), "AC"@) + opt(holds(x, BaseCs::RDBR), "BR"@) + opt(holds(x, BaseCs::RDPS), "PS"@) + opt(holds(x, BaseCs::RDIR), "IR"@) =~= seq![n]);
            assert(opt(holds(x, BaseCs::RDDR), "DR"@) + opt(holds(x, BaseCs::RDCR), "CR"@) + opt(holds(x, BaseCs::RDIP), "IP"@) + opt(holds(x, BaseCs::RDSP), "SP"@) =~= Seq::<Seq<char>>::empty());
        },
        BaseCs::RDBR => {
            reveal_strlit("RDBR");
            reveal_strlit("BR");
            assert(n =~= "BR"@);
            assert(n[0] != "DR"@[0]);
            assert(n[0] != "CR"@[0]);
            assert(n[0] != "IP"@[0]);
            assert(n[0] != "SP"@[0]);
            assert(n[0] != "AC"@[0]);
            assert(read_reg(n, 2) == Some(BaseCs::RDBR));
            assert(opt(holds(x, BaseCs::RDAC), "AC"@) + opt(holds(x, BaseCs::RDBR), "BR"@) + opt(holds(x, BaseCs::RDPS), "PS"@) + opt(holds(x, BaseCs::RDIR), "IR"@) =~= seq![n]);
            assert(opt(holds(x, BaseCs::RDDR), "DR"@) + opt(holds(x, BaseCs::RDCR), "CR"@) + opt(holds(x, BaseCs::RDIP), "IP"@) + opt(holds(x, BaseCs::RDSP), "SP"@) =~= Seq::<Seq<char>>::empty());
        },
        BaseCs::RDPS => {
            reveal_strlit("RDPS");
            reveal_strlit("PS");
            assert(n =~= "PS"@);
            assert(n[0] != "DR"@[0]);
            assert(n[0] != "CR"@[0]);
            assert(n[0] != "IP"@[0]);
            assert(n[0] != "SP"@[0]);
            assert(n[0] != "AC"@[0]);
            assert(n[0] != "BR"@[0]);
            assert(read_reg(n, 2) == Some(BaseCs::RDPS));
            assert(opt(holds(x, BaseCs::RDAC), "AC"@) + opt(holds(x, BaseCs::RDBR), "BR"@) + opt(holds(x, BaseCs::RDPS), "PS"@) + opt(holds(x, BaseCs::RDIR), "IR"@) =~= seq![n]);
            assert(opt(holds(x, BaseCs::RDDR), "DR"@) + opt(holds(x, BaseCs::RDCR), "CR"@) + opt(holds(x, BaseCs::RDIP), "IP"@) + opt(holds(x, BaseCs::RDSP), "SP"@) =~= Seq::<Seq<char>>::empty());
        },
        BaseCs::RDIR => {
            reveal_strlit("RDIR");
            reveal_strlit("IR");
            assert(n =~= "IR"@);
            assert(n[0] != "DR"@[0]);
            assert(n[0] != "CR"@[0]);
            assert(n[1] != "IP"@[1]);
            assert(n[0] != "SP"@[0]);
            assert(n[0] != "AC"@[0]);
            assert(n[0] != "BR"@[0]);
            assert(n[0] != "PS"@[0]);
            assert(read_reg(n, 2) == Some(BaseCs::RDIR));
            assert(opt(holds(x, BaseCs::RDAC), "AC"@) + opt(holds(x, BaseCs::RDBR), "BR"@) + opt(holds(x, BaseCs::RDPS), "PS"@) + opt(holds(x, BaseCs::RDIR), "IR"@) =~= seq![n]);
            assert(opt(holds(x, BaseCs::RDDR), "DR"@) + opt(holds(x, BaseCs::RDCR), "CR"@) + opt(holds(x, BaseCs::RDIP), "IP"@) + opt(holds(x, BaseCs::RDSP), "SP"@) =~= Seq::<Seq<char>>::empty());
        },
        _ => {},
    }
    let l = alu_left(x);
    let r = alu_right(x);
    lemma_drop_empty3(l, r, e);
    if b.spec_index() < 4 {
        assert(l == e);
        assert(r == n);
        assert(drop_empty(seq![l, r, e]) =~= seq![n]);
    } else {
        assert(l == n);
        assert(r == e);
        assert(drop_empty(seq![l, r, e]) =~= seq![n]);
    }
    lemma_join1(n, " + "@);
}

/// The destination that a word with one write signal names is the name of
/// that signal without the leading `WR`; a word that sets one flag names
/// the flag by the last letter of its signal (`N, Z` for STNZ, the last two
/// letters). Read back as a destination, that name is the signal again.
pub proof fn law_write_destination_named(b: BaseCs)
    requires
        21 <= b.spec_index() < 32,
    ensures
        b.spec_index() >= 24 ==> write_items(sig(b)) == seq![b.spec_name().subrange(2, 4)],
        b.spec_index() >= 24 ==> write_sig(b.spec_name().subrange(2, 4)) == Some(b),
        b == BaseCs::STNZ ==> write_items(sig(b)) == seq![
            seq![b.spec_name()[2]] + ", "@ + seq![b.spec_name()[3]],
        ],
        b == BaseCs::STNZ ==> write_sig(seq![b.spec_name()[2]]) == Some(b) && write_sig(
            seq![b.spec_name()[3]],
        ) == Some(b),
        b.spec_index() < 23 ==> write_items(sig(b)) == seq![b.spec_name().subrange(3, 4)],
        b.spec_index() < 23 ==> write_sig(b.spec_name().subrange(3, 4)) == Some(b),
{
    reveal_strlit(", ");
    reveal_strlit("N, Z");
    reveal_strlit("DR");
    reveal_strlit("CR");
    reveal_strlit("IP");
    reveal_strlit("SP");
    reveal_strlit("AC");
    reveal_strlit("BR");
    reveal_strlit("PS");
    reveal_strlit("IR");
    reveal_strlit("AR");
    reveal_strlit("C");
    reveal_strlit("V");
    reveal_strlit("N");
    reveal_strlit("Z");
    lemma_single_bit(b.spec_index() as u64);
    let x = sig(b);
    match b {
        BaseCs::WRDR => {
            reveal_strlit("WRDR");
            reveal_strlit("DR");
            assert(b.spec_name().subrange(2, 4) =~= "DR"@);
            assert(write_sig(b.spec_name().subrange(2, 4)) == Some(BaseCs::WRDR));
            assert(opt(holds(x, BaseCs::WRDR), "DR"@) + opt(holds(x, BaseCs::WRCR), "CR"@) + opt(holds(x, BaseCs::WRIP), "IP"@) + opt(holds(x, BaseCs::WRSP), "SP"@) + opt(holds(x, BaseCs::WRAC), "AC"@) + opt(holds(x, BaseCs::WRBR), "BR"@) + opt(holds(x, BaseCs::WRPS), "PS"@) + opt(holds(x, BaseCs::WRAR), "AR"@) + opt(holds(x, BaseCs::STNZ), "N, Z"@) + opt(holds(x, BaseCs::SETV), "V"@) + opt(holds(x, BaseCs::SETC), "C"@) =~= seq!["DR"@]);
        },
        BaseCs::WRCR => {
            reveal_strlit("WRCR");
            reveal_strlit("CR");
            assert(b.spec_name().subrange(2, 4) =~= "CR"@);
            assert(b.spec_name().subrange(2, 4)[0] != "DR"@[0]);
            assert(write_sig(b.spec_name().subrange(2, 4)) == Some(BaseCs::WRCR));
            assert(opt(holds(x, BaseCs::WRDR), "DR"@) + opt(holds(x, BaseCs::WRCR), "CR"@) + opt(holds(x, BaseCs::WRIP), "IP"@) + opt(holds(x, BaseCs::WRSP), "SP"@) + opt(holds(x, BaseCs::WRAC), "AC"@) + opt(holds(x, BaseCs::WRBR), "BR"@) + opt(holds(x, BaseCs::WRPS), "PS"@) + opt(holds(x, BaseCs::WRAR), "AR"@) + opt(holds(x, BaseCs::STNZ), "N, Z"@) + opt(holds(x, BaseCs::SETV), "V"@) + opt(holds(x, BaseCs::SETC), "C"@) =~= seq!["CR"@]);
        },
        BaseCs::WRIP => {
            reveal_strlit("WRIP");
            reveal_strlit("IP");
            assert(b.spec_name().subrange(2, 4) =~= "IP"@);
            assert(b.spec_name().subrange(2, 4)[0] != "DR"@[0]);
            assert(b.spec_name().subrange(2, 4)[0] != "CR"@[0]);
            assert(write_sig(b.spec_name().subrange(2, 4)) == Some(BaseCs::WRIP));
            assert(opt(holds(x, BaseCs::WRDR), "DR"@) + opt(holds(x, BaseCs::WRCR), "CR"@) + opt(holds(x, BaseCs::WRIP), "IP"@) + opt(holds(x, BaseCs::WRSP), "SP"@) + opt(holds(x, BaseCs::WRAC), "AC"@) + opt(holds(x, BaseCs::WRBR), "BR"@) + opt(holds(x, BaseCs::WRPS), "PS"@) + opt(holds(x, BaseCs::WRAR), "AR"@) + opt(holds(x, BaseCs::STNZ), "N, Z"@) + opt(holds(x, BaseCs::SETV), "V"@) + opt(holds(x, BaseCs::SETC), "C"@) =~= seq!["IP"@]);
        },
        BaseCs::WRSP => {
            reveal_strlit("WRSP");
            reveal_strlit("SP");
            assert(b.spec_name().subrange(2, 4) =~= "SP"@);
            assert(b.spec_name().subrange(2, 4)[0] != "DR"@[0]);
            assert(b.spec_name().subrange(2, 4)[0] != "CR"@[0]);
            assert(b.spec_name().subrange(2, 4)[0] != "IP"@[0]);
            assert(write_sig(b.spec_name().subrange(2, 4)) == Some(BaseCs::WRSP));
            assert(opt(holds(x, BaseCs::WRDR), "DR"@) + opt(holds(x, BaseCs::WRCR), "CR"@) + opt(holds(x, BaseCs::WRIP), "IP"@) + opt(holds(x, BaseCs::WRSP), "SP"@) + opt(holds(x, BaseCs::WRAC), "AC"@) + opt(holds(x, BaseCs::WRBR), "BR"@) + opt(holds(x, BaseCs::WRPS), "PS"@) + opt(holds(x, BaseCs::WRAR), "AR"@) + opt(holds(x, BaseCs::STNZ), "N, Z"@) + opt(holds(x, BaseCs::SETV), "V"@) + opt(holds(x, BaseCs::SETC), "C"@) =~= seq!["SP"@]);
        },
        BaseCs::WRAC => {
            reveal_strlit("WRAC");
            reveal_strlit("AC");
            assert(b.spec_name().subrange(2, 4) =~= "AC"@);
            assert(b.spec_name().subrange(2, 4)[0] != "DR"@[0]);
            assert(b.spec_name().subrange(2, 4)[0] != "CR"@[0]);
            assert(b.spec_name().subrange(2, 4)[0] != "IP"@[0]);
            assert(b.spec_name().subrange(2, 4)[0] != "SP"@[0]);
            assert(write_sig(b.spec_name().subrange(2, 4)) == Some(BaseCs::WRAC));
            assert(opt(holds(x, BaseCs::WRDR), "DR"@) + opt(holds(x, BaseCs::WRCR), "CR"@) + opt(holds(x, BaseCs::WRIP), "IP"@) + opt(holds(x, BaseCs::WRSP), "SP"@) + opt(holds(x, BaseCs::WRAC), "AC"@) + opt(holds(x, BaseCs::WRBR), "BR"@) + opt(holds(x, BaseCs::WRPS), "PS"@) + opt(holds(x, BaseCs::WRAR), "AR"@) + opt(holds(x, BaseCs::STNZ), "N, Z"@) + opt(holds(x, BaseCs::SETV), "V"@) + opt(holds(x, BaseCs::SETC), "C"@) =~= seq!["AC"@]);
        },
        BaseCs::WRBR => {
            reveal_strlit("WRBR");
            reveal_strlit("BR");
            assert(b.spec_name().subrange(2, 4) =~= "BR"@);
            assert(b.spec_name().subrange(2, 4)[0] != "DR"@[0]);
            assert(b.spec_name().subrange(2, 4)[0] != "CR"@[0]);
            assert(b.spec_name().subrange(2, 4)[0] != "IP"@[0]);
            assert(b.spec_name().subrange(2, 4)[0] != "SP"@[0]);
            assert(b.spec_name().subrange(2, 4)[0] != "AC"@[0]);
            assert(write_sig(b.spec_name().subrange(2, 4)) == Some(BaseCs::WRBR));
            assert(opt(holds(x, BaseCs::WRDR), "DR"@) + opt(holds(x, BaseCs::WRCR), "CR"@) + opt(holds(x, BaseCs::WRIP), "IP"@) + opt(holds(x, BaseCs::WRSP), "SP"@) + opt(holds(x, BaseCs::WRAC), "AC"@) + opt(holds(x, BaseCs::WRBR), "BR"@) + opt(holds(x, BaseCs::WRPS), "PS"@) + opt(holds(x, BaseCs::WRAR), "AR"@) + opt(holds(x, BaseCs::STNZ), "N, Z"@) + opt(holds(x, BaseCs::SETV), "V"@) + opt(holds(x, BaseCs::SETC), "C"@) =~= seq!["BR"@]);
        },
        BaseCs::WRPS => {
            reveal_strlit("WRPS");
            reveal_strlit("PS");
            assert(b.spec_name().subrange(2, 4) =~= "PS"@);
            assert(b.spec_name().subrange(2, 4)[0] != "DR"@[0]);
            assert(b.spec_name().subrange(2, 4)[0] != "CR"@[0]);
            assert(b.spec_name().subrange(2, 4)[0] != "IP"@[0]);
            assert(b.spec_name().subrange(2, 4)[0] != "SP"@[0]);
            assert(b.spec_name().subrange(2, 4)[0] != "AC"@[0]);
            assert(b.spec_name().subrange(2, 4)[0] != "BR"@[0]);
            assert(write_sig(b.spec_name().subrange(2, 4)) == Some(BaseCs::WRPS));
            assert(opt(holds(x, BaseCs::WRDR), "DR"@) + opt(holds(x, BaseCs::WRCR), "CR"@) + opt(holds(x, BaseCs::WRIP), "IP"@) + opt(holds(x, BaseCs::WRSP), "SP"@) + opt(holds(x, BaseCs::WRAC), "AC"@) + opt(holds(x, BaseCs::WRBR), "BR"@) + opt(holds(x, BaseCs::WRPS), "PS"@) + opt(holds(x, BaseCs::WRAR), "AR"@) + opt(holds(x, BaseCs::STNZ), "N, Z"@) + opt(holds(x, BaseCs::SETV), "V"@) + opt(holds(x, BaseCs::SETC), "C"@) =~= seq!["PS"@]);
        },
        BaseCs::WRAR => {
            reveal_strlit("WRAR");
            reveal_strlit("AR");
            assert(b.spec_name().subrange(2, 4) =~= "AR"@);
            assert(b.spec_name().subrange(2, 4)[0] != "DR"@[0]);
            assert(b.spec_name().subrange(2, 4)[0] != "CR"@[0]);
            assert(b.spec_name().subrange(2, 4)[0] != "IP"@[0]);
            assert(b.spec_name().subrange(2, 4)[0] != "SP"@[0]);
            assert(b.spec_name().subrange(2, 4)[1] != "AC"@[1]);
            assert(b.spec_name().subrange(2, 4)[0] != "BR"@[0]);
            assert(b.spec_name().subrange(2, 4)[0] != "PS"@[0]);
            assert(write_sig(b.spec_name().subrange(2, 4)) == Some(BaseCs::WRAR));
            assert(opt(holds(x, BaseCs::WRDR), "DR"@) + opt(holds(x, BaseCs::WRCR), "CR"@) + opt(holds(x, BaseCs::WRIP), "IP"@) + opt(holds(x, BaseCs::WRSP), "SP"@) + opt(holds(x, BaseCs::WRAC), "AC"@) + opt(holds(x, BaseCs::WRBR), "BR"@) + opt(holds(x, BaseCs::WRPS), "PS"@) + opt(holds(x, BaseCs::WRAR), "AR"@) + opt(holds(x, BaseCs::STNZ), "N, Z"@) + opt(holds(x, BaseCs::SETV), "V"@) + opt(holds(x, BaseCs::SETC), "C"@) =~= seq!["AR"@]);
        },
        BaseCs::STNZ => {
            reveal_strlit("STNZ");
            reveal_strlit("N"); reveal_strlit("Z");
            assert(seq![b.spec_name()[2]] + ", "@ + seq![b.spec_name()[3]] =~= "N, Z"@);
            assert(seq![b.spec_name()[2]] =~= "N"@);
            assert(seq![b.spec_name()[3]] =~= "Z"@);
            assert(seq![b.spec_name()[2]][0] != "C"@[0]);
            assert(seq![b.spec_name()[2]][0] != "V"@[0]);
            assert(write_sig(seq![b.spec_name()[2]]) == Some(BaseCs::STNZ));
            assert(seq![b.spec_name()[3]][0] != "C"@[0]);
            assert(seq![b.spec_name()[3]][0] != "V"@[0]);
            assert(seq![b.spec_name()[3]][0] != "N"@[0]);
            assert(write_sig(seq![b.spec_name()[3]]) == Some(BaseCs::STNZ));
            assert(opt(holds(x, BaseCs::WRDR), "DR"@) + opt(holds(x, BaseCs::WRCR), "CR"@) + opt(holds(x, BaseCs::WRIP), "IP"@) + opt(holds(x, BaseCs::WRSP), "SP"@) + opt(holds(x, BaseCs::WRAC), "AC"@) + opt(holds(x, BaseCs::WRBR), "BR"@) + opt(holds(x, BaseCs::WRPS), "PS"@) + opt(holds(x, BaseCs::WRAR), "AR"@) + opt(holds(x, BaseCs::STNZ), "N, Z"@) + opt(holds(x, BaseCs::SETV), "V"@) + opt(holds(x, BaseCs::SETC), "C"@) =~= seq!["N, Z"@]);
        },
        BaseCs::SETV => {
            reveal_strlit("SETV");
            reveal_strlit("V");
            assert(b.spec_name().subrange(3, 4) =~= "V"@);
            assert(b.spec_name().subrange(3, 4)[0] != "C"@[0]);
            assert(write_sig(b.spec_name().subrange(3, 4)) == Some(BaseCs::SETV));
            assert(opt(holds(x, BaseCs::WRDR), "DR"@) + opt(holds(x, BaseCs::WRCR), "CR"@) + opt(holds(x, BaseCs::WRIP), "IP"@) + opt(holds(x, BaseCs::WRSP), "SP"@) + opt(holds(x, BaseCs::WRAC), "AC"@) + opt(holds(x, BaseCs::WRBR), "BR"@) + opt(holds(x, BaseCs::WRPS), "PS"@) + opt(holds(x, BaseCs::WRAR), "AR"@) + opt(holds(x, BaseCs::STNZ), "N, Z"@) + opt(holds(x, BaseCs::SETV), "V"@) + opt(holds(x, BaseCs::SETC), "C"@) =~= seq!["V"@]);
        },
        BaseCs::SETC => {
            reveal_strlit("SETC");
            reveal_strlit("C");
            assert(b.spec_name().subrange(3, 4) =~= "C"@);
            assert(write_sig(b.spec_name().subrange(3, 4)) == Some(BaseCs::SETC));
            assert(opt(holds(x, BaseCs::WRDR), "DR"@) + opt(holds(x, BaseCs::WRCR), "CR"@) + opt(holds(x, BaseCs::WRIP), "IP"@) + opt(holds(x, BaseCs::WRSP), "SP"@) + opt(holds(x, BaseCs::WRAC), "AC"@) + opt(holds(x, BaseCs::WRBR), "BR"@) + opt(holds(x, BaseCs::WRPS), "PS"@) + opt(holds(x, BaseCs::WRAR), "AR"@) + opt(holds(x, BaseCs::STNZ), "N, Z"@) + opt(holds(x, BaseCs::SETV), "V"@) + opt(holds(x, BaseCs::SETC), "C"@) =~= seq!["C"@]);
        },
        _ => {},
    }
}

} // verus!
