//! Microcommands and their decoding into control signals and text.
use vstd::prelude::*;
use crate::control_signals::{bool_num, contains, bit_at, has_bit, holds, Addr, BaseCs, Bit, Comp, Cs};
use crate::table::{Instruction, Table};
use crate::text::{
    chars_of, dec, drop_empty, hex2, join, push_dec, push_hex2, push_join, push_join_nonempty,
    push_slice, push_str, string_of, views,
};

verus! {

/// Bit of a microcommand that marks it as conditional (control).
pub const TYPE_BIT: u64 = 39;

/// The low 39 bits: the single-bit signals of an operational microcommand.
pub const BASE_MASK: u64 = 0x7F_FFFF_FFFF;

/// The low 16 bits: the single-bit signals of a control microcommand.
pub const CONTROL_BASE_MASK: u64 = 0xFFFF;

/// A microcommand word.
#[derive(Clone, Copy)]
pub struct Command {
    pub cmd: u64,
}

/// An operational microcommand: a set of signals (bit `n` of `base` stands
/// for the `n`-th signal; only the low 39 bits carry meaning).
pub struct Omc {
    pub base: u64,
}

/// A control microcommand: a set of signals (bit `n` of `base` stands for
/// the `n`-th signal) with the tested bit mask, jump address and compared
/// value.
pub struct Cmc {
    pub base: u64,
    pub bit: Bit,
    pub addr: Addr,
    pub comp: Comp,
}

/// A decoded microcommand.
pub enum Mc {
    Operational(Omc),
    Control(Cmc),
}

/// `Cs::Base` of every signal `i < n` whose bit is set in `x`, in order.
pub open spec fn spec_bases(x: u64, n: nat) -> Seq<Cs>
    decreases n,
{
    if n == 0 {
        Seq::empty()
    } else {
        let i = (n - 1) as nat;
        spec_bases(x, i) + if bit_at(x, i as u64) {
            seq![Cs::Base(BaseCs::spec_from_index(i))]
        } else {
            Seq::empty()
        }
    }
}

/// Appends `Cs::Base` of every signal `i < n` whose bit is set in `x`.
fn push_bases(out: &mut Vec<Cs>, x: u64, n: u64)
    requires
        n <= 39,
    ensures
        final(out)@ == old(out)@ + spec_bases(x, n as nat),
{
    let ghost start = out@;
    let mut i: u64 = 0;
    while i < n
        invariant
            i <= n <= 39,
            out@ == start + spec_bases(x, i as nat),
        decreases n - i,
    {
        if has_bit(x, i) {
            let b = BaseCs::from_index(i).unwrap();
            out.push(Cs::Base(b));
        }
        i = i + 1;
        assert(out@ =~= start + spec_bases(x, i as nat));
    }
}

/// Lists the control signals of a decoded microcommand.
pub trait ToCss {
    spec fn spec_css(&self) -> Seq<Cs>;

    fn to_css(&self) -> (r: Vec<Cs>)
        ensures
            r@ == self.spec_css(),
    ;
}

impl ToCss for Omc {
    /// The signals of the set, in order of their bit.
    open spec fn spec_css(&self) -> Seq<Cs> {
        spec_bases(self.base, 39)
    }

    fn to_css(&self) -> (r: Vec<Cs>) {
        let mut v: Vec<Cs> = Vec::new();
        push_bases(&mut v, self.base, 39);
        v
    }
}

impl ToCss for Cmc {
    /// The signals of the set in order of their bit, then the bit mask,
    /// the address and the compared value.
    open spec fn spec_css(&self) -> Seq<Cs> {
        spec_bases(self.base, 39) + seq![
            Cs::Bit(self.bit.0),
            Cs::Addr(self.addr.0),
            Cs::Comp(self.comp.0),
        ]
    }

    fn to_css(&self) -> (r: Vec<Cs>) {
        let mut v: Vec<Cs> = Vec::new();
        push_bases(&mut v, self.base, 39);
        v.push(Cs::Bit(self.bit.0));
        v.push(Cs::Addr(self.addr.0));
        v.push(Cs::Comp(self.comp.0));
        assert(v@ =~= self.spec_css());
        v
    }
}

impl ToCss for Mc {
    open spec fn spec_css(&self) -> Seq<Cs> {
        match self {
            Mc::Operational(omc) => omc.spec_css(),
            Mc::Control(cmc) => cmc.spec_css(),
        }
    }

    fn to_css(&self) -> (r: Vec<Cs>) {
        match self {
            Mc::Operational(omc) => omc.to_css(),
            Mc::Control(cmc) => cmc.to_css(),
        }
    }
}

/// The decoding of the word `cmd`: a control microcommand when bit 39 is
/// set, with its signals in bits 0..16, mask in bits 16..24, address in
/// bits 24..32 and compared value in bit 32; else an operational one with
/// its signals in bits 0..39.
pub open spec fn spec_mc(cmd: u64) -> Mc {
    if bit_at(cmd, TYPE_BIT) {
        Mc::Control(
            Cmc {
                base: cmd & CONTROL_BASE_MASK,
                bit: Bit(((cmd >> 16u64) & 0xff) as u8),
                addr: Addr(((cmd >> 24u64) & 0xff) as u8),
                comp: Comp((cmd >> 32u64) & 1 != 0),
            },
        )
    } else {
        Mc::Operational(Omc { base: cmd & BASE_MASK })
    }
}

impl Mc {
    /// Decodes the word of `cmd`.
    pub fn from_command(cmd: Command) -> (r: Mc)
        ensures
            r == spec_mc(cmd.cmd),
    {
        if has_bit(cmd.cmd, TYPE_BIT) {
            Mc::Control(
                Cmc {
                    base: cmd.cmd & CONTROL_BASE_MASK,
                    bit: Bit(((cmd.cmd >> 16) & 0xff) as u8),
                    addr: Addr(((cmd.cmd >> 24) & 0xff) as u8),
                    comp: Comp((cmd.cmd >> 32) & 1 != 0),
                },
            )
        } else {
            Mc::Operational(Omc { base: cmd.cmd & BASE_MASK })
        }
    }
}

impl From<Command> for Mc {
    fn from(cmd: Command) -> (r: Mc) {
        Mc::from_command(cmd)
    }
}

impl vstd::std_specs::convert::FromSpecImpl<Command> for Mc {
    open spec fn obeys_from_spec() -> bool {
        true
    }

    open spec fn from_spec(v: Command) -> Mc {
        spec_mc(v.cmd)
    }
}

/// Bits below `n` of `x & m` are those of `x` where `m` has all bits below `n`.
proof fn lemma_bases_mask(x: u64, m: u64, n: nat)
    requires
        n <= 64,
        forall|i: u64| i < n ==> #[trigger] bit_at(m, i),
    ensures
        spec_bases(x & m, n) == spec_bases(x, n),
    decreases n,
{
    if n > 0 {
        let i = (n - 1) as u64;
        lemma_bases_mask(x, m, (n - 1) as nat);
        assert(bit_at(m, i));
        assert(bit_at(x & m, i) == bit_at(x, i)) by (bit_vector)
            requires
                (m >> i) & 1u64 == 1u64,
                i < 64,
        ;
    }
}

/// No bit at or above `lo` and below `hi` is set in `x`.
proof fn lemma_bases_high_clear(x: u64, lo: nat, hi: nat)
    requires
        lo <= hi <= 64,
        forall|i: u64| lo <= i < hi ==> !#[trigger] bit_at(x, i),
    ensures
        spec_bases(x, hi) == spec_bases(x, lo),
    decreases hi - lo,
{
    if hi > lo {
        lemma_bases_high_clear(x, lo, (hi - 1) as nat);
        assert(!bit_at(x, (hi - 1) as u64));
        assert(spec_bases(x, hi) =~= spec_bases(x, (hi - 1) as nat));
    }
}

/// The control signals of the word `cmd`: its signals in order of their bit,
/// then for a control microcommand the mask, address and compared value,
/// and last its kind.
pub open spec fn spec_cs(cmd: u64) -> Seq<Cs> {
    if bit_at(cmd, TYPE_BIT) {
        spec_bases(cmd, 16) + seq![
            Cs::Bit(((cmd >> 16u64) & 0xff) as u8),
            Cs::Addr(((cmd >> 24u64) & 0xff) as u8),
            Cs::Comp((cmd >> 32u64) & 1 != 0),
            Cs::Type(true),
        ]
    } else {
        spec_bases(cmd, 39).push(Cs::Type(false))
    }
}

impl Default for Command {
    /// The all-zero word.
    fn default() -> (r: Command)
        ensures
            r.cmd == 0,
    {
        Command { cmd: 0 }
    }
}

impl Command {
    pub fn new(cmd: u64) -> (r: Self)
        ensures
            r.cmd == cmd,
    {
        Self { cmd }
    }

    /// The control signals of the microcommand.
    pub fn cs(&self) -> (r: Vec<Cs>)
        ensures
            r@ == spec_cs(self.cmd),
    {
        let mc_type = has_bit(self.cmd, TYPE_BIT);
        let mc = Mc::from_command(*self);
        let mut res = mc.to_css();
        res.push(Cs::Type(mc_type));
        proof {
            let x = self.cmd;
            if mc_type {
                assert forall|i: u64| i < 16 implies #[trigger] bit_at(CONTROL_BASE_MASK, i) by {
                    assert(i < 16 ==> (0xFFFFu64 >> i) & 1u64 == 1u64) by (bit_vector);
                }
                lemma_bases_mask(x, CONTROL_BASE_MASK, 16);
                let b = x & CONTROL_BASE_MASK;
                assert forall|i: u64| 16 <= i < 39 implies !#[trigger] bit_at(b, i) by {
                    assert(16 <= i < 64 ==> ((x & 0xFFFFu64) >> i) & 1u64 == 0u64) by (bit_vector);
                }
                lemma_bases_high_clear(b, 16, 39);
                assert(res@ =~= spec_cs(x));
            } else {
                assert forall|i: u64| i < 39 implies #[trigger] bit_at(BASE_MASK, i) by {
                    assert(i < 39 ==> (0x7F_FFFF_FFFFu64 >> i) & 1u64 == 1u64) by (bit_vector);
                }
                lemma_bases_mask(x, BASE_MASK, 39);
                assert(res@ =~= spec_cs(x));
            }
        }
        res
    }
}


/// `[s]` when `b` holds, else nothing.
pub open spec fn opt(b: bool, s: Seq<char>) -> Seq<Seq<char>> {
    if b {
        seq![s]
    } else {
        Seq::empty()
    }
}

/// `"0"` in place of an empty operand.
pub open spec fn nullify(s: Seq<char>) -> Seq<char> {
    if s.len() == 0 {
        "0"@
    } else {
        s
    }
}

/// The right ALU input of the signal set `x`: the read registers among
/// DR, CR, IP, SP joined with `" | "`, prefixed by `~` when COMR is on.
pub open spec fn alu_right(x: u64) -> Seq<char> {
    let r = join(
        opt(holds(x, BaseCs::RDDR), "DR"@) + opt(holds(x, BaseCs::RDCR), "CR"@) + opt(
            holds(x, BaseCs::RDIP),
            "IP"@,
        ) + opt(holds(x, BaseCs::RDSP), "SP"@),
        " | "@,
    );
    if holds(x, BaseCs::COMR) {
        "~"@ + nullify(r)
    } else {
        r
    }
}

/// The left ALU input of the signal set `x`: the read registers among
/// AC, BR, PS, IR joined with `" | "`, prefixed by `~` when COML is on.
pub open spec fn alu_left(x: u64) -> Seq<char> {
    let l = join(
        opt(holds(x, BaseCs::RDAC), "AC"@) + opt(holds(x, BaseCs::RDBR), "BR"@) + opt(
            holds(x, BaseCs::RDPS),
            "PS"@,
        ) + opt(holds(x, BaseCs::RDIR), "IR"@),
        " | "@,
    );
    if holds(x, BaseCs::COML) {
        "~"@ + nullify(l)
    } else {
        l
    }
}

/// The ALU expression of the signal set `x`: `left & right` under SORA,
/// else the sum of the inputs and of `1` under PLS1, leaving out absent terms.
pub open spec fn alu_text(x: u64) -> Seq<char> {
    if holds(x, BaseCs::SORA) {
        nullify(alu_left(x)) + " & "@ + nullify(alu_right(x))
    } else {
        join(
            drop_empty(
                seq![
                    alu_left(x),
                    alu_right(x),
                    if holds(x, BaseCs::PLS1) {
                        "1"@
                    } else {
                        Seq::empty()
                    },
                ],
            ),
            " + "@,
        )
    }
}

/// `name(inner)`.
pub open spec fn wrap(name: Seq<char>, inner: Seq<char>) -> Seq<char> {
    name + "("@ + inner + ")"@
}

/// The value that the signal set `x` reads: the ALU expression under the
/// commutator function that its signals select.
pub open spec fn alu_full_text(x: u64) -> Seq<char> {
    let alu = alu_text(x);
    if holds(x, BaseCs::HTOH) && holds(x, BaseCs::LTOL) {
        alu
    } else if holds(x, BaseCs::HTOH) {
        wrap("HTOH"@, alu)
    } else if holds(x, BaseCs::LTOL) && holds(x, BaseCs::SEXT) {
        "extend sign "@ + alu + "(0..7)"@
    } else if holds(x, BaseCs::LTOL) {
        wrap("LTOL"@, alu)
    } else if holds(x, BaseCs::LTOH) && holds(x, BaseCs::HTOL) {
        wrap("SWAB"@, alu)
    } else if holds(x, BaseCs::LTOH) {
        wrap("LTOH"@, alu)
    } else if holds(x, BaseCs::HTOL) {
        wrap("HTOL"@, alu)
    } else if holds(x, BaseCs::SEXT) {
        wrap("SEXT"@, alu)
    } else if holds(x, BaseCs::SHLT) && holds(x, BaseCs::SHL0) {
        wrap("ROL"@, alu)
    } else if holds(x, BaseCs::SHLT) {
        wrap("SHL"@, alu)
    } else if holds(x, BaseCs::SHRT) && holds(x, BaseCs::SHRF) {
        wrap("ROR"@, alu)
    } else if holds(x, BaseCs::SHRT) {
        wrap("ASR"@, alu)
    } else {
        "0"@
    }
}

/// The written destinations of the signal set `x`, in order.
pub open spec fn write_items(x: u64) -> Seq<Seq<char>> {
    opt(holds(x, BaseCs::WRDR), "DR"@) + opt(holds(x, BaseCs::WRCR), "CR"@) + opt(
        holds(x, BaseCs::WRIP),
        "IP"@,
    ) + opt(holds(x, BaseCs::WRSP), "SP"@) + opt(holds(x, BaseCs::WRAC), "AC"@) + opt(
        holds(x, BaseCs::WRBR),
        "BR"@,
    ) + opt(holds(x, BaseCs::WRPS), "PS"@) + opt(holds(x, BaseCs::WRAR), "AR"@) + opt(
        holds(x, BaseCs::STNZ),
        "N, Z"@,
    ) + opt(holds(x, BaseCs::SETV), "V"@) + opt(holds(x, BaseCs::SETC), "C"@)
}

/// The memory, input-output, interrupt and halt actions of the signal set `x`.
pub open spec fn omc_actions(x: u64) -> Seq<Seq<char>> {
    opt(holds(x, BaseCs::LOAD), "MEM(AR) → DR"@) + opt(holds(x, BaseCs::STOR), "DR → MEM(AR)"@)
        + opt(holds(x, BaseCs::IO), "IO"@) + opt(holds(x, BaseCs::INTS), "IRQSC"@) + opt(
        holds(x, BaseCs::HALT),
        "Halt"@,
    )
}

/// The transfer `read → writes` of the signal set `x`, when anything is written.
pub open spec fn omc_transfer(x: u64) -> Seq<Seq<char>> {
    let write = join(write_items(x), ", "@);
    if write.len() > 0 {
        seq![alu_full_text(x) + " → "@ + write]
    } else {
        Seq::empty()
    }
}

/// The text of an operational microcommand with signal set `x`: the
/// transfer `read → writes` when anything is written, then the memory,
/// input-output, interrupt and halt actions, joined with `"; "`.
pub open spec fn omc_text(x: u64) -> Seq<char> {
    join(omc_transfer(x) + omc_actions(x), "; "@)
}

/// Appends `lit` to `items` when `b` holds.
fn push_opt(items: &mut Vec<Vec<char>>, b: bool, lit: &str)
    ensures
        views(final(items)@) == views(old(items)@) + opt(b, lit@),
{
    if b {
        items.push(chars_of(lit));
    }
    assert(views(items@) =~= views(old(items)@) + opt(b, lit@));
}

/// Appends `"0"` in place of an empty `s`, else `s`.
fn push_nullified(out: &mut Vec<char>, s: &Vec<char>)
    ensures
        final(out)@ == old(out)@ + nullify(s@),
{
    if s.len() == 0 {
        push_str(out, "0");
    } else {
        push_slice(out, s.as_slice());
    }
}

/// One ALU input: the names of the set ones among four read signals,
/// complemented under `comp`.
fn alu_input(
    x: u64,
    a: BaseCs,
    an: &str,
    b: BaseCs,
    bn: &str,
    c: BaseCs,
    cn: &str,
    d: BaseCs,
    dn: &str,
    comp: BaseCs,
) -> (r: Vec<char>)
    ensures
        r@ == ({
            let j = join(
                opt(holds(x, a), an@) + opt(holds(x, b), bn@) + opt(holds(x, c), cn@) + opt(
                    holds(x, d),
                    dn@,
                ),
                " | "@,
            );
            if holds(x, comp) {
                "~"@ + nullify(j)
            } else {
                j
            }
        }),
{
    let mut items: Vec<Vec<char>> = Vec::new();
    push_opt(&mut items, contains(x, a), an);
    push_opt(&mut items, contains(x, b), bn);
    push_opt(&mut items, contains(x, c), cn);
    push_opt(&mut items, contains(x, d), dn);
    let mut j: Vec<char> = Vec::new();
    push_join(&mut j, &items, " | ");
    assert(views(items@) =~= opt(holds(x, a), an@) + opt(holds(x, b), bn@) + opt(
        holds(x, c),
        cn@,
    ) + opt(holds(x, d), dn@));
    if contains(x, comp) {
        let mut r: Vec<char> = Vec::new();
        push_str(&mut r, "~");
        push_nullified(&mut r, &j);
        r
    } else {
        j
    }
}

/// The ALU expression of the signal set `base`.
pub fn get_alu(base: u64) -> (r: Vec<char>)
    ensures
        r@ == alu_text(base),
{
    let right = alu_input(
        base,
        BaseCs::RDDR,
        "DR",
        BaseCs::RDCR,
        "CR",
        BaseCs::RDIP,
        "IP",
        BaseCs::RDSP,
        "SP",
        BaseCs::COMR,
    );
    let left = alu_input(
        base,
        BaseCs::RDAC,
        "AC",
        BaseCs::RDBR,
        "BR",
        BaseCs::RDPS,
        "PS",
        BaseCs::RDIR,
        "IR",
        BaseCs::COML,
    );
    let mut alu: Vec<char> = Vec::new();
    if contains(base, BaseCs::SORA) {
        push_nullified(&mut alu, &left);
        push_str(&mut alu, " & ");
        push_nullified(&mut alu, &right);
    } else {
        let pls1 = if contains(base, BaseCs::PLS1) {
            chars_of("1")
        } else {
            Vec::new()
        };
        let mut terms: Vec<Vec<char>> = Vec::new();
        terms.push(left);
        terms.push(right);
        terms.push(pls1);
        push_join_nonempty(&mut alu, &terms, " + ");
        assert(views(terms@) =~= seq![
            alu_left(base),
            alu_right(base),
            if holds(base, BaseCs::PLS1) {
                "1"@
            } else {
                Seq::empty()
            },
        ]);
    }
    alu
}

/// Appends `name(inner)`.
fn push_wrapped(out: &mut Vec<char>, name: &str, inner: &Vec<char>)
    ensures
        final(out)@ == old(out)@ + wrap(name@, inner@),
{
    push_str(out, name);
    push_str(out, "(");
    push_slice(out, inner.as_slice());
    push_str(out, ")");
    assert(out@ =~= old(out)@ + wrap(name@, inner@));
}

/// The value that the signal set `base` reads, with its commutator function.
pub fn get_alu_full(base: u64) -> (r: Vec<char>)
    ensures
        r@ == alu_full_text(base),
{
    let alu = get_alu(base);
    let mut r: Vec<char> = Vec::new();
    let htoh = contains(base, BaseCs::HTOH);
    let ltol = contains(base, BaseCs::LTOL);
    let ltoh = contains(base, BaseCs::LTOH);
    let htol = contains(base, BaseCs::HTOL);
    let sext = contains(base, BaseCs::SEXT);
    let shlt = contains(base, BaseCs::SHLT);
    let shl0 = contains(base, BaseCs::SHL0);
    let shrt = contains(base, BaseCs::SHRT);
    let shrf = contains(base, BaseCs::SHRF);
    if htoh && ltol {
        push_slice(&mut r, alu.as_slice());
    } else if htoh {
        push_wrapped(&mut r, "HTOH", &alu);
    } else if ltol && sext {
        push_str(&mut r, "extend sign ");
        push_slice(&mut r, alu.as_slice());
        push_str(&mut r, "(0..7)");
    } else if ltol {
        push_wrapped(&mut r, "LTOL", &alu);
    } else if ltoh && htol {
        push_wrapped(&mut r, "SWAB", &alu);
    } else if ltoh {
        push_wrapped(&mut r, "LTOH", &alu);
    } else if htol {
        push_wrapped(&mut r, "HTOL", &alu);
    } else if sext {
        push_wrapped(&mut r, "SEXT", &alu);
    } else if shlt && shl0 {
        push_wrapped(&mut r, "ROL", &alu);
    } else if shlt {
        push_wrapped(&mut r, "SHL", &alu);
    } else if shrt && shrf {
        push_wrapped(&mut r, "ROR", &alu);
    } else if shrt {
        push_wrapped(&mut r, "ASR", &alu);
    } else {
        push_str(&mut r, "0");
    }
    assert(r@ =~= alu_full_text(base));
    r
}

/// The written destinations of the signal set `x`.
fn omc_writes(x: u64) -> (r: Vec<Vec<char>>)
    ensures
        views(r@) == write_items(x),
{
    let mut writes: Vec<Vec<char>> = Vec::new();
    push_opt(&mut writes, contains(x, BaseCs::WRDR), "DR");
    push_opt(&mut writes, contains(x, BaseCs::WRCR), "CR");
    push_opt(&mut writes, contains(x, BaseCs::WRIP), "IP");
    push_opt(&mut writes, contains(x, BaseCs::WRSP), "SP");
    push_opt(&mut writes, contains(x, BaseCs::WRAC), "AC");
    push_opt(&mut writes, contains(x, BaseCs::WRBR), "BR");
    push_opt(&mut writes, contains(x, BaseCs::WRPS), "PS");
    push_opt(&mut writes, contains(x, BaseCs::WRAR), "AR");
    push_opt(&mut writes, contains(x, BaseCs::STNZ), "N, Z");
    push_opt(&mut writes, contains(x, BaseCs::SETV), "V");
    push_opt(&mut writes, contains(x, BaseCs::SETC), "C");
    assert(views(writes@) =~= write_items(x));
    writes
}

/// Appends the memory, input-output, interrupt and halt actions of `x`.
fn push_actions(parts: &mut Vec<Vec<char>>, x: u64)
    ensures
        views(final(parts)@) == views(old(parts)@) + omc_actions(x),
{
    push_opt(parts, contains(x, BaseCs::LOAD), "MEM(AR) → DR");
    push_opt(parts, contains(x, BaseCs::STOR), "DR → MEM(AR)");
    push_opt(parts, contains(x, BaseCs::IO), "IO");
    push_opt(parts, contains(x, BaseCs::INTS), "IRQSC");
    push_opt(parts, contains(x, BaseCs::HALT), "Halt");
    assert(views(parts@) =~= views(old(parts)@) + omc_actions(x));
}

impl Omc {
    /// The text of the microcommand, as chars.
    fn text(&self) -> (r: Vec<char>)
        ensures
            r@ == omc_text(self.base),
    {
        let x = self.base;
        let writes = omc_writes(x);
        let mut write: Vec<char> = Vec::new();
        push_join(&mut write, &writes, ", ");
        let mut parts: Vec<Vec<char>> = Vec::new();
        if write.len() > 0 {
            let mut transfer = get_alu_full(x);
            push_str(&mut transfer, " → ");
            push_slice(&mut transfer, write.as_slice());
            parts.push(transfer);
        }
        assert(views(parts@) =~= omc_transfer(x));
        push_actions(&mut parts, x);
        let mut r: Vec<char> = Vec::new();
        push_join(&mut r, &parts, "; ");
        r
    }

    /// The text of the microcommand: its transfer, then its other actions.
    pub fn to_string(&self) -> (r: String)
        ensures
            r@ == omc_text(self.base),
    {
        let v = self.text();
        string_of(v.as_slice())
    }
}


/// Signal set of an unconditional jump: RDPS and LTOL.
pub const GOTO_BASE: u64 = 0x1040;

/// The labels of the cells `cells`.
pub open spec fn labels_of(cells: Seq<Instruction>) -> Seq<Seq<char>> {
    cells.map_values(|i: Instruction| i.label@)
}

/// The labels of the cells of `table`, when there is a table.
pub open spec fn table_labels(table: Option<&Table>) -> Option<Seq<Seq<char>>> {
    match table {
        Some(t) => Some(labels_of(t@)),
        None => None,
    }
}

/// `GOTO addr`, with the label of the target cell before the address
/// (`GOTO label @ addr`) when the table has a cell there with a label.
pub open spec fn goto_text(addr: u8, labels: Option<Seq<Seq<char>>>) -> Seq<char> {
    let label = match labels {
        Some(l) => if (addr as int) < l.len() && l[addr as int].len() > 0 {
            l[addr as int] + " @ "@
        } else {
            Seq::empty()
        },
        None => Seq::empty(),
    };
    "GOTO "@ + label + hex2(addr)
}

/// The name of bit `b` of the program state register.
pub open spec fn ps_flag(b: nat) -> Seq<char> {
    if b == 0 {
        "C"@
    } else if b == 1 {
        "V"@
    } else if b == 2 {
        "Z"@
    } else if b == 3 {
        "N"@
    } else if b == 4 {
        "4"@
    } else if b == 5 {
        "EI"@
    } else if b == 6 {
        "IRQ"@
    } else if b == 7 {
        "W"@
    } else {
        "P"@
    }
}

/// Bit `b` of a tested register: its flag name for the program state
/// register, else its number.
pub open spec fn bit_label(b: nat, ps: bool) -> Seq<char> {
    if ps {
        ps_flag(b)
    } else {
        dec(b)
    }
}

/// The labels of the bits below `k` that are set in `mask`, each moved up
/// by `offset`.
pub open spec fn bit_labels(mask: u8, offset: nat, ps: bool, k: nat) -> Seq<Seq<char>>
    decreases k,
{
    if k == 0 {
        Seq::empty()
    } else {
        let i = (k - 1) as nat;
        bit_labels(mask, offset, ps, i) + opt(bit_at(mask as u64, i as u64), bit_label(i + offset, ps))
    }
}

impl Cmc {
    /// The microcommand is the unconditional jump: mask `0b10000`,
    /// compared value 0, signals RDPS and LTOL only.
    pub open spec fn spec_is_goto(self) -> bool {
        self.bit.0 == 0x10 && !self.comp.0 && self.base & BASE_MASK == GOTO_BASE
    }

    /// Rendering fails: the program state register is tested on a bit of
    /// its high byte that has no name.
    pub open spec fn spec_panics(self) -> bool {
        !self.spec_is_goto() && holds(self.base, BaseCs::RDPS) && holds(self.base, BaseCs::HTOL)
            && self.bit.0 & 0xFE != 0
    }

    /// The text of the microcommand: its jump, preceded for a conditional
    /// one by `if alu(bits) = comp then`.
    pub open spec fn spec_text(self, labels: Option<Seq<Seq<char>>>) -> Seq<char> {
        let goto = goto_text(self.addr.0, labels);
        if self.spec_is_goto() {
            goto
        } else {
            let offset: nat = if holds(self.base, BaseCs::HTOL) {
                8
            } else {
                0
            };
            let bits = bit_labels(self.bit.0, offset, holds(self.base, BaseCs::RDPS), 8);
            "if "@ + alu_text(self.base) + "("@ + join(bits, ", "@) + ") = "@ + dec(
                bool_num(self.comp.0),
            ) + " then "@ + goto
        }
    }

    /// The jump of the microcommand.
    fn goto_to_string(&self, table: Option<&Table>) -> (r: Vec<char>)
        ensures
            r@ == goto_text(self.addr.0, table_labels(table)),
    {
        let addr = self.addr.0;
        let mut r: Vec<char> = Vec::new();
        push_str(&mut r, "GOTO ");
        match table {
            Some(t) => {
                if (addr as usize) < t.len() {
                    let label = chars_of(t[addr as usize].label.as_str());
                    if label.len() > 0 {
                        push_slice(&mut r, label.as_slice());
                        push_str(&mut r, " @ ");
                    }
                }
            },
            None => {},
        }
        push_hex2(&mut r, addr);
        assert(r@ =~= goto_text(self.addr.0, table_labels(table)));
        r
    }

    /// The text of the microcommand.
    pub fn to_string(&self, table: Option<&Table>) -> (r: String)
        requires
            !self.spec_panics(),
        ensures
            r@ == self.spec_text(table_labels(table)),
    {
        let v = self.text(table);
        string_of(v.as_slice())
    }

    fn text(&self, table: Option<&Table>) -> (r: Vec<char>)
        requires
            !self.spec_panics(),
        ensures
            r@ == self.spec_text(table_labels(table)),
    {
        let goto = self.goto_to_string(table);
        let b = self.base;
        if self.bit.0 == 0x10 && !self.comp.0 && b & BASE_MASK == GOTO_BASE {
            return goto;
        }
        let alu = get_alu(b);
        let htol = contains(b, BaseCs::HTOL);
        let ps = contains(b, BaseCs::RDPS);
        let offset: u8 = if htol {
            8
        } else {
            0
        };
        let mut bits: Vec<Vec<char>> = Vec::new();
        let mut i: u8 = 0;
        while i < 8
            invariant
                i <= 8,
                offset == (if holds(b, BaseCs::HTOL) { 8nat } else { 0nat }),
                ps == holds(b, BaseCs::RDPS),
                !self.spec_panics(),
                !self.spec_is_goto(),
                self.base == b,
                views(bits@) == bit_labels(self.bit.0, offset as nat, ps, i as nat),
            decreases 8 - i,
        {
            let ghost before = views(bits@);
            if (self.bit.0 >> i) & 1 == 1 {
                let n = i + offset;
                let mut label: Vec<char> = Vec::new();
                if ps {
                    proof {
                        let m = self.bit.0;
                        if offset == 8 {
                            assert(((m >> i) & 1 == 1 && m & 0xFE == 0u8) ==> i == 0) by (bit_vector);
                        }
                    }
                    push_ps_flag(&mut label, n);
                } else {
                    push_dec(&mut label, n as u32);
                }
                bits.push(label);
            }
            proof {
                let m = self.bit.0;
                assert(bit_at(m as u64, i as u64) == ((m >> i) & 1 == 1)) by (bit_vector);
            }
            i = i + 1;
            assert(views(bits@) =~= bit_labels(self.bit.0, offset as nat, ps, i as nat));
        }
        let mut r: Vec<char> = Vec::new();
        push_str(&mut r, "if ");
        push_slice(&mut r, alu.as_slice());
        push_str(&mut r, "(");
        push_join(&mut r, &bits, ", ");
        push_str(&mut r, ") = ");
        push_dec(&mut r, if self.comp.0 { 1 } else { 0 });
        push_str(&mut r, " then ");
        push_slice(&mut r, goto.as_slice());
        assert(r@ =~= self.spec_text(table_labels(table)));
        r
    }
}

/// Appends the name of bit `b` of the program state register.
fn push_ps_flag(out: &mut Vec<char>, b: u8)
    requires
        b <= 8,
    ensures
        final(out)@ == old(out)@ + ps_flag(b as nat),
{
    let s = if b == 0 {
        "C"
    } else if b == 1 {
        "V"
    } else if b == 2 {
        "Z"
    } else if b == 3 {
        "N"
    } else if b == 4 {
        "4"
    } else if b == 5 {
        "EI"
    } else if b == 6 {
        "IRQ"
    } else if b == 7 {
        "W"
    } else {
        "P"
    };
    push_str(out, s);
}

/// The text of the word `cmd`.
pub open spec fn spec_text(cmd: u64, labels: Option<Seq<Seq<char>>>) -> Seq<char> {
    match spec_mc(cmd) {
        Mc::Operational(omc) => omc_text(omc.base),
        Mc::Control(cmc) => cmc.spec_text(labels),
    }
}

/// Rendering the word `cmd` as text fails (see `Cmc::spec_panics`).
pub open spec fn spec_text_panics(cmd: u64) -> bool {
    match spec_mc(cmd) {
        Mc::Operational(_) => false,
        Mc::Control(cmc) => cmc.spec_panics(),
    }
}

impl Command {
    /// Whether the microcommand can be rendered as text (see
    /// `Cmc::spec_panics`).
    pub fn renders(&self) -> (r: bool)
        ensures
            r == !spec_text_panics(self.cmd),
    {
        match Mc::from_command(*self) {
            Mc::Operational(_) => true,
            Mc::Control(c) => {
                let goto = c.bit.0 == 0x10 && !c.comp.0 && c.base & BASE_MASK == GOTO_BASE;
                goto || !contains(c.base, BaseCs::RDPS) || !contains(c.base, BaseCs::HTOL)
                    || c.bit.0 & 0xFE == 0
            },
        }
    }

    /// The text of the microcommand; a jump target is shown with its label
    /// from `table`, where the table has one.
    pub fn to_string(&self, table: Option<&Table>) -> (r: String)
        requires
            !spec_text_panics(self.cmd),
        ensures
            r@ == spec_text(self.cmd, table_labels(table)),
    {
        let mc = Mc::from_command(*self);
        match mc {
            Mc::Operational(omc) => omc.to_string(),
            Mc::Control(cmc) => cmc.to_string(table),
        }
    }
}

} // verus!
