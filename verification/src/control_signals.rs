//! Control signals: the bits of a microcommand and their names.
use vstd::prelude::*;
use crate::text::{bin8, dec, hex2, push_bin8, push_dec, push_hex2, push_str, string_of};

verus! {

/// The single-bit control signals; the `n`-th variant is bit `n` of a
/// microcommand.
#[derive(Clone, Copy, PartialEq, Eq, Structural, Debug)]
pub enum BaseCs {
    /// Read Data Register
    RDDR,
    /// Read Command Register
    RDCR,
    /// Read Instruction Pointer
    RDIP,
    /// Read Stack Pointer
    RDSP,
    /// Read Accumulator
    RDAC,
    /// Read Buffer Register
    RDBR,
    /// Read Program State register
    RDPS,
    /// Read Input Register
    RDIR,
    /// Complement Right input
    COMR,
    /// Complement Left input
    COML,
    /// Plus one
    PLS1,
    /// Summary OR And
    SORA,
    /// Lower byte to lower
    LTOL,
    /// Lower byte to high
    LTOH,
    /// High byte to lower
    HTOL,
    /// High byte to high
    HTOH,
    /// Sign Extend from lower byte to high
    SEXT,
    /// SHift Left
    SHLT,
    /// Use old C as value for 0th bit (SH_L + SHL0 == ROL)
    SHL0,
    /// SHift RighT
    SHRT,
    /// Shift right with old C as the highest bit
    SHRF,
    /// Set flag C
    SETC,
    /// Set flag oVerflow
    SETV,
    /// Set flags N and Z
    STNZ,
    /// Write to Data Register
    WRDR,
    /// Write to Command Register
    WRCR,
    /// Write to Instruction Pointer
    WRIP,
    /// Write to Stack Pointer
    WRSP,
    /// Write to Accumulator
    WRAC,
    /// Write to Buffer Register
    WRBR,
    /// Write to Program State register
    WRPS,
    /// Write to Address Register
    WRAR,
    /// Load value from Memory to Data Register
    LOAD,
    /// Store value from Data Register to Memory
    STOR,
    /// Input output
    IO,
    /// Interrupt service
    INTS,
    /// Reserved
    RESERVED36,
    /// Reserved
    RESERVED37,
    /// Halt
    HALT,
}

/// Number of single-bit control signals.
pub const BASE_COUNT: u64 = 39;

impl BaseCs {
    /// The bit position of the signal.
    pub open spec fn spec_index(self) -> nat {
        match self {
            BaseCs::RDDR => 0,
            BaseCs::RDCR => 1,
            BaseCs::RDIP => 2,
            BaseCs::RDSP => 3,
            BaseCs::RDAC => 4,
            BaseCs::RDBR => 5,
            BaseCs::RDPS => 6,
            BaseCs::RDIR => 7,
            BaseCs::COMR => 8,
            BaseCs::COML => 9,
            BaseCs::PLS1 => 10,
            BaseCs::SORA => 11,
            BaseCs::LTOL => 12,
            BaseCs::LTOH => 13,
            BaseCs::HTOL => 14,
            BaseCs::HTOH => 15,
            BaseCs::SEXT => 16,
            BaseCs::SHLT => 17,
            BaseCs::SHL0 => 18,
            BaseCs::SHRT => 19,
            BaseCs::SHRF => 20,
            BaseCs::SETC => 21,
            BaseCs::SETV => 22,
            BaseCs::STNZ => 23,
            BaseCs::WRDR => 24,
            BaseCs::WRCR => 25,
            BaseCs::WRIP => 26,
            BaseCs::WRSP => 27,
            BaseCs::WRAC => 28,
            BaseCs::WRBR => 29,
            BaseCs::WRPS => 30,
            BaseCs::WRAR => 31,
            BaseCs::LOAD => 32,
            BaseCs::STOR => 33,
            BaseCs::IO => 34,
            BaseCs::INTS => 35,
            BaseCs::RESERVED36 => 36,
            BaseCs::RESERVED37 => 37,
            BaseCs::HALT => 38,
        }
    }

    /// The signal at bit position `i`.
    pub open spec fn spec_from_index(i: nat) -> BaseCs {
        if i == 0 {
            BaseCs::RDDR
        } else if i == 1 {
            BaseCs::RDCR
        } else if i == 2 {
            BaseCs::RDIP
        } else if i == 3 {
            BaseCs::RDSP
        } else if i == 4 {
            BaseCs::RDAC
        } else if i == 5 {
            BaseCs::RDBR
        } else if i == 6 {
            BaseCs::RDPS
        } else if i == 7 {
            BaseCs::RDIR
        } else if i == 8 {
            BaseCs::COMR
        } else if i == 9 {
            BaseCs::COML
        } else if i == 10 {
            BaseCs::PLS1
        } else if i == 11 {
            BaseCs::SORA
        } else if i == 12 {
            BaseCs::LTOL
        } else if i == 13 {
            BaseCs::LTOH
        } else if i == 14 {
            BaseCs::HTOL
        } else if i == 15 {
            BaseCs::HTOH
        } else if i == 16 {
            BaseCs::SEXT
        } else if i == 17 {
            BaseCs::SHLT
        } else if i == 18 {
            BaseCs::SHL0
        } else if i == 19 {
            BaseCs::SHRT
        } else if i == 20 {
            BaseCs::SHRF
        } else if i == 21 {
            BaseCs::SETC
        } else if i == 22 {
            BaseCs::SETV
        } else if i == 23 {
            BaseCs::STNZ
        } else if i == 24 {
            BaseCs::WRDR
        } else if i == 25 {
            BaseCs::WRCR
        } else if i == 26 {
            BaseCs::WRIP
        } else if i == 27 {
            BaseCs::WRSP
        } else if i == 28 {
            BaseCs::WRAC
        } else if i == 29 {
            BaseCs::WRBR
        } else if i == 30 {
            BaseCs::WRPS
        } else if i == 31 {
            BaseCs::WRAR
        } else if i == 32 {
            BaseCs::LOAD
        } else if i == 33 {
            BaseCs::STOR
        } else if i == 34 {
            BaseCs::IO
        } else if i == 35 {
            BaseCs::INTS
        } else if i == 36 {
            BaseCs::RESERVED36
        } else if i == 37 {
            BaseCs::RESERVED37
        } else {
            BaseCs::HALT
        }
    }

    /// The name of the signal, as its derived `Debug` prints it.
    pub open spec fn spec_name(self) -> Seq<char> {
        match self {
            BaseCs::RDDR => "RDDR"@,
            BaseCs::RDCR => "RDCR"@,
            BaseCs::RDIP => "RDIP"@,
            BaseCs::RDSP => "RDSP"@,
            BaseCs::RDAC => "RDAC"@,
            BaseCs::RDBR => "RDBR"@,
            BaseCs::RDPS => "RDPS"@,
            BaseCs::RDIR => "RDIR"@,
            BaseCs::COMR => "COMR"@,
            BaseCs::COML => "COML"@,
            BaseCs::PLS1 => "PLS1"@,
            BaseCs::SORA => "SORA"@,
            BaseCs::LTOL => "LTOL"@,
            BaseCs::LTOH => "LTOH"@,
            BaseCs::HTOL => "HTOL"@,
            BaseCs::HTOH => "HTOH"@,
            BaseCs::SEXT => "SEXT"@,
            BaseCs::SHLT => "SHLT"@,
            BaseCs::SHL0 => "SHL0"@,
            BaseCs::SHRT => "SHRT"@,
            BaseCs::SHRF => "SHRF"@,
            BaseCs::SETC => "SETC"@,
            BaseCs::SETV => "SETV"@,
            BaseCs::STNZ => "STNZ"@,
            BaseCs::WRDR => "WRDR"@,
            BaseCs::WRCR => "WRCR"@,
            BaseCs::WRIP => "WRIP"@,
            BaseCs::WRSP => "WRSP"@,
            BaseCs::WRAC => "WRAC"@,
            BaseCs::WRBR => "WRBR"@,
            BaseCs::WRPS => "WRPS"@,
            BaseCs::WRAR => "WRAR"@,
            BaseCs::LOAD => "LOAD"@,
            BaseCs::STOR => "STOR"@,
            BaseCs::IO => "IO"@,
            BaseCs::INTS => "INTS"@,
            BaseCs::RESERVED36 => "RESERVED36"@,
            BaseCs::RESERVED37 => "RESERVED37"@,
            BaseCs::HALT => "HALT"@,
        }
    }

    /// The bit position of the signal.
    pub fn index(&self) -> (r: u64)
        ensures
            r == self.spec_index(),
            r < BASE_COUNT,
    {
        match self {
            BaseCs::RDDR => 0,
            BaseCs::RDCR => 1,
            BaseCs::RDIP => 2,
            BaseCs::RDSP => 3,
            BaseCs::RDAC => 4,
            BaseCs::RDBR => 5,
            BaseCs::RDPS => 6,
            BaseCs::RDIR => 7,
            BaseCs::COMR => 8,
            BaseCs::COML => 9,
            BaseCs::PLS1 => 10,
            BaseCs::SORA => 11,
            BaseCs::LTOL => 12,
            BaseCs::LTOH => 13,
            BaseCs::HTOL => 14,
            BaseCs::HTOH => 15,
            BaseCs::SEXT => 16,
            BaseCs::SHLT => 17,
            BaseCs::SHL0 => 18,
            BaseCs::SHRT => 19,
            BaseCs::SHRF => 20,
            BaseCs::SETC => 21,
            BaseCs::SETV => 22,
            BaseCs::STNZ => 23,
            BaseCs::WRDR => 24,
            BaseCs::WRCR => 25,
            BaseCs::WRIP => 26,
            BaseCs::WRSP => 27,
            BaseCs::WRAC => 28,
            BaseCs::WRBR => 29,
            BaseCs::WRPS => 30,
            BaseCs::WRAR => 31,
            BaseCs::LOAD => 32,
            BaseCs::STOR => 33,
            BaseCs::IO => 34,
            BaseCs::INTS => 35,
            BaseCs::RESERVED36 => 36,
            BaseCs::RESERVED37 => 37,
            BaseCs::HALT => 38,
        }
    }

    /// The signal at bit position `i`, if there is one.
    pub fn from_index(i: u64) -> (r: Option<BaseCs>)
        ensures
            r is Some <==> i < BASE_COUNT,
            r matches Some(b) ==> b == BaseCs::spec_from_index(i as nat) && b.spec_index() == i,
    {
        match i {
            0 => Some(BaseCs::RDDR),
            1 => Some(BaseCs::RDCR),
            2 => Some(BaseCs::RDIP),
            3 => Some(BaseCs::RDSP),
            4 => Some(BaseCs::RDAC),
            5 => Some(BaseCs::RDBR),
            6 => Some(BaseCs::RDPS),
            7 => Some(BaseCs::RDIR),
            8 => Some(BaseCs::COMR),
            9 => Some(BaseCs::COML),
            10 => Some(BaseCs::PLS1),
            11 => Some(BaseCs::SORA),
            12 => Some(BaseCs::LTOL),
            13 => Some(BaseCs::LTOH),
            14 => Some(BaseCs::HTOL),
            15 => Some(BaseCs::HTOH),
            16 => Some(BaseCs::SEXT),
            17 => Some(BaseCs::SHLT),
            18 => Some(BaseCs::SHL0),
            19 => Some(BaseCs::SHRT),
            20 => Some(BaseCs::SHRF),
            21 => Some(BaseCs::SETC),
            22 => Some(BaseCs::SETV),
            23 => Some(BaseCs::STNZ),
            24 => Some(BaseCs::WRDR),
            25 => Some(BaseCs::WRCR),
            26 => Some(BaseCs::WRIP),
            27 => Some(BaseCs::WRSP),
            28 => Some(BaseCs::WRAC),
            29 => Some(BaseCs::WRBR),
            30 => Some(BaseCs::WRPS),
            31 => Some(BaseCs::WRAR),
            32 => Some(BaseCs::LOAD),
            33 => Some(BaseCs::STOR),
            34 => Some(BaseCs::IO),
            35 => Some(BaseCs::INTS),
            36 => Some(BaseCs::RESERVED36),
            37 => Some(BaseCs::RESERVED37),
            38 => Some(BaseCs::HALT),
            _ => None,
        }
    }

    /// Appends the name of the signal to `out`.
    pub fn push_name(&self, out: &mut Vec<char>)
        ensures
            final(out)@ == old(out)@ + self.spec_name(),
    {
        match self {
            BaseCs::RDDR => push_str(out, "RDDR"),
            BaseCs::RDCR => push_str(out, "RDCR"),
            BaseCs::RDIP => push_str(out, "RDIP"),
            BaseCs::RDSP => push_str(out, "RDSP"),
            BaseCs::RDAC => push_str(out, "RDAC"),
            BaseCs::RDBR => push_str(out, "RDBR"),
            BaseCs::RDPS => push_str(out, "RDPS"),
            BaseCs::RDIR => push_str(out, "RDIR"),
            BaseCs::COMR => push_str(out, "COMR"),
            BaseCs::COML => push_str(out, "COML"),
            BaseCs::PLS1 => push_str(out, "PLS1"),
            BaseCs::SORA => push_str(out, "SORA"),
            BaseCs::LTOL => push_str(out, "LTOL"),
            BaseCs::LTOH => push_str(out, "LTOH"),
            BaseCs::HTOL => push_str(out, "HTOL"),
            BaseCs::HTOH => push_str(out, "HTOH"),
            BaseCs::SEXT => push_str(out, "SEXT"),
            BaseCs::SHLT => push_str(out, "SHLT"),
            BaseCs::SHL0 => push_str(out, "SHL0"),
            BaseCs::SHRT => push_str(out, "SHRT"),
            BaseCs::SHRF => push_str(out, "SHRF"),
            BaseCs::SETC => push_str(out, "SETC"),
            BaseCs::SETV => push_str(out, "SETV"),
            BaseCs::STNZ => push_str(out, "STNZ"),
            BaseCs::WRDR => push_str(out, "WRDR"),
            BaseCs::WRCR => push_str(out, "WRCR"),
            BaseCs::WRIP => push_str(out, "WRIP"),
            BaseCs::WRSP => push_str(out, "WRSP"),
            BaseCs::WRAC => push_str(out, "WRAC"),
            BaseCs::WRBR => push_str(out, "WRBR"),
            BaseCs::WRPS => push_str(out, "WRPS"),
            BaseCs::WRAR => push_str(out, "WRAR"),
            BaseCs::LOAD => push_str(out, "LOAD"),
            BaseCs::STOR => push_str(out, "STOR"),
            BaseCs::IO => push_str(out, "IO"),
            BaseCs::INTS => push_str(out, "INTS"),
            BaseCs::RESERVED36 => push_str(out, "RESERVED36"),
            BaseCs::RESERVED37 => push_str(out, "RESERVED37"),
            BaseCs::HALT => push_str(out, "HALT"),
        }
    }

    /// Switches the signal on in the microcommand `state`.
    pub fn update_state(&self, state: &mut u64)
        ensures
            *final(state) == *old(state) | (1u64 << self.spec_index()),
    {
        *state = *state | (1u64 << self.index());
    }
}

/// Every signal has a bit below the number of signals, and that bit names
/// the signal again.
pub proof fn lemma_index_roundtrip(b: BaseCs)
    ensures
        b.spec_index() < BASE_COUNT,
        BaseCs::spec_from_index(b.spec_index()) == b,
{
}

/// Every bit below the number of signals names a signal whose bit it is.
pub proof fn lemma_from_index_roundtrip(i: nat)
    requires
        i < BASE_COUNT,
    ensures
        BaseCs::spec_from_index(i).spec_index() == i,
{
}

/// Whether bit `i` of `x` is set.
pub open spec fn bit_at(x: u64, i: u64) -> bool {
    (x >> i) & 1u64 == 1u64
}

/// Whether the set of signals `x` (bit `n` standing for the `n`-th signal)
/// holds `b`.
pub open spec fn holds(x: u64, b: BaseCs) -> bool {
    bit_at(x, b.spec_index() as u64)
}

/// Whether bit `i` of `x` is set.
pub fn has_bit(x: u64, i: u64) -> (r: bool)
    requires
        i < 64,
    ensures
        r == bit_at(x, i),
{
    (x >> i) & 1 == 1
}

/// Whether the set of signals `x` holds `b`.
pub fn contains(x: u64, b: BaseCs) -> (r: bool)
    ensures
        r == holds(x, b),
{
    has_bit(x, b.index())
}

/// A field value for the bit mask of a conditional microcommand.
#[derive(Clone, Copy, PartialEq, Eq, Structural)]
pub struct Bit(pub u8);

/// A field value for the jump address of a conditional microcommand.
#[derive(Clone, Copy, PartialEq, Eq, Structural)]
pub struct Addr(pub u8);

/// A field value for the compared bit value of a conditional microcommand.
#[derive(Clone, Copy, PartialEq, Eq, Structural)]
pub struct Comp(pub bool);

/// A field value for the kind of a microcommand (`true`: conditional).
#[derive(Clone, Copy, PartialEq, Eq, Structural)]
pub struct Type(pub bool);

/// One control signal or field of a microcommand.
#[derive(Clone, Copy, PartialEq, Eq, Structural)]
pub enum Cs {
    Base(BaseCs),
    Bit(u8),
    Addr(u8),
    Comp(bool),
    Type(bool),
}

/// `1` for `true`, `0` for `false`.
pub open spec fn bool_num(b: bool) -> nat {
    if b {
        1
    } else {
        0
    }
}

impl Cs {
    /// The debug rendering of the signal: its name, `bit 0b........`,
    /// `addr 0x..`, `comp 0|1` or `TYPE 0|1`.
    pub open spec fn spec_debug(self) -> Seq<char> {
        match self {
            Cs::Base(b) => b.spec_name(),
            Cs::Bit(x) => "bit 0b"@ + bin8(x),
            Cs::Addr(a) => "addr 0x"@ + hex2(a),
            Cs::Comp(c) => "comp "@ + dec(bool_num(c)),
            Cs::Type(t) => "TYPE "@ + dec(bool_num(t)),
        }
    }

    /// The debug rendering of the signal.
    pub fn debug_string(&self) -> (s: String)
        ensures
            s@ == self.spec_debug(),
    {
        let mut out: Vec<char> = Vec::new();
        match *self {
            Cs::Base(b) => b.push_name(&mut out),
            Cs::Bit(x) => {
                push_str(&mut out, "bit 0b");
                push_bin8(&mut out, x);
            },
            Cs::Addr(a) => {
                push_str(&mut out, "addr 0x");
                push_hex2(&mut out, a);
            },
            Cs::Comp(c) => {
                push_str(&mut out, "comp ");
                push_dec(&mut out, if c { 1 } else { 0 });
            },
            Cs::Type(t) => {
                push_str(&mut out, "TYPE ");
                push_dec(&mut out, if t { 1 } else { 0 });
            },
        }
        string_of(out.as_slice())
    }
}

} // verus!
