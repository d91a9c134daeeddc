use bcomp_mc::command::Command;
use bcomp_mc::control_signals::{BaseCs, Cs};
use bcomp_mc::parse::{bit_value, ParseStop, ParseState};

fn word(s: &str) -> u64 {
    match Command::from_str(s) {
        Some(Ok(c)) => c.cmd,
        Some(Err(e)) => panic!("unexpected error: {e}"),
        None => panic!("unexpected abort"),
    }
}

fn error(s: &str) -> String {
    match Command::from_str(s) {
        Some(Ok(c)) => panic!("unexpected word {:x}", c.cmd),
        Some(Err(e)) => e,
        None => panic!("unexpected abort"),
    }
}

#[test]
fn reads_extend_sign() {
    assert_eq!(word("extend sign CR(0..7) → BR"), 0x0020011002);
}

#[test]
fn reads_sum_through_alu() {
    assert_eq!(word("AC + DR → DR"), 0x0100_9011);
    assert_eq!(word("ac + dr -> dr"), 0x0100_9011);
    assert_eq!(word("  AC+DR→DR  "), 0x0100_9011);
}

#[test]
fn reads_flags() {
    assert_eq!(word("AC → N, Z, V, C"), 0xE0_9010);
    assert_eq!(word("AC → Z"), 0x80_9010);
}

#[test]
fn reads_single_actions() {
    assert_eq!(word("MEM(AR) → DR; DR → MEM(AR); IO; IRQSC; Halt"), 0x4F_0000_0000);
    assert_eq!(word("ints"), 1 << 35);
    assert_eq!(word("mem(ar) -> dr"), 1 << 32);
}

#[test]
fn reads_empty_text() {
    assert_eq!(word(""), 0);
    assert_eq!(word(";;"), 0);
}

#[test]
fn reads_several_actions() {
    assert_eq!(word("AC → DR; HALT"), (1 << 4) | (1 << 12) | (1 << 15) | (1 << 24) | (1 << 38));
}

#[test]
fn reads_commutators() {
    let ac = 1 << 4;
    let wr = 1 << 28;
    assert_eq!(word("HTOH(AC) → AC"), ac | wr | (1 << 15));
    assert_eq!(word("LTOL(AC) → AC"), ac | wr | (1 << 12));
    assert_eq!(word("SWAB(AC) → AC"), ac | wr | (1 << 13) | (1 << 14));
    assert_eq!(word("LTOH(AC) → AC"), ac | wr | (1 << 13));
    assert_eq!(word("HTOL(AC) → AC"), ac | wr | (1 << 14));
    assert_eq!(word("SEXT(AC) → AC"), ac | wr | (1 << 16));
    assert_eq!(word("ROL(AC) → AC"), ac | wr | (1 << 17) | (1 << 18));
    assert_eq!(word("SHL(AC) → AC"), ac | wr | (1 << 17));
    assert_eq!(word("ROR(AC) → AC"), ac | wr | (1 << 19) | (1 << 20));
    assert_eq!(word("ASR(AC) → AC"), ac | wr | (1 << 19));
    assert_eq!(word("ASL(AC) → AC"), ac | wr | (1 << 17));
    assert_eq!(word("SHR(AC) → AC"), ac | wr | (1 << 19));
}

#[test]
fn reads_alu_flags() {
    // COMR, COML, PLS1, SORA are bits 8, 9, 10, 11; LTOL and HTOH 12 and 15
    let pass = (1 << 12) | (1 << 15);
    assert_eq!(word("~AC & DR → BR"), (1 << 9) | (1 << 11) | (1 << 4) | 1 | pass | (1 << 29));
    assert_eq!(word("AC + ~DR + 1 → BR"), (1 << 8) | (1 << 10) | (1 << 4) | 1 | pass | (1 << 29));
    assert_eq!(word("~0 + 1 → BR"), (1 << 9) | (1 << 10) | (1 << 29));
}

#[test]
fn reads_byte_selectors() {
    // a byte of a register picks LTOL or HTOL and is not passed whole
    assert_eq!(word("LTOH(AC(0..7)) → DR"), (1 << 13) | (1 << 12) | (1 << 4) | (1 << 24));
    // outside a commutator function, `name(...)` reads as one
    assert_eq!(error("DR(8..15) → AC"), "unable to parse commutator function `DR` at `DR(8..15) → AC`");
    // an ALU operand holds no `1`, so the high byte cannot be named there
    assert_eq!(error("LTOL(DR(8..15)) → AC"), "unable to parse ALU actions at `LTOL(DR(8..15)) → AC`");
}

#[test]
fn reads_jump() {
    assert_eq!(word("GOTO LOOP @ 1A"), 0x80_1A10_1040);
    assert_eq!(word("goto loop @ 5"), 0x80_0510_1040);
    assert_eq!(word("GOTO a@b @  ff"), 0x80_FF10_1040);
}

#[test]
fn reads_conditional() {
    assert_eq!(word("if PS(Z) = 1 then GOTO LOOP @ 1A"), 0x81_1A04_1040);
    assert_eq!(word("IF PS(C, 4) = 0 THEN GOTO A @ 01"), 0x80_0111_1040);
    assert_eq!(word("if AC(8, 10) = 0 then GOTO X @ FF"), 0x80_FF05_4010);
    assert_eq!(word("if PS(P) = 0 then GOTO X @ 02"), 0x80_0201_4040);
    assert_eq!(word("if PS(INT, irq) = 0 then GOTO X @ 02"), 0x80_0240_1040);
}

#[test]
fn reads_bit_numbers_through_parse_int() {
    // `0x3` is upper-cased to `0X3`, which the integer parser reads as 3
    assert_eq!(word("if DR(0x3) = 1 then GOTO A @ 01"), 0x81_0108_1001);
    assert_eq!(word("if DR(0b1010) = 1 then GOTO A @ 01"), 0x81_0104_4001);
    assert_eq!(word("if DR( 1_5 ) = 1 then GOTO A @ 01"), 0x81_0180_4001);
    assert_eq!(word("if DR(-0) = 0 then GOTO A @ 01"), 0x80_0101_1001);
}

#[test]
fn error_if_structure() {
    assert_eq!(error("IF garbage"), "seems like if command, but unable to parce it at `IF garbage`");
}

#[test]
fn error_if_condition() {
    assert_eq!(
        error("if XX(Z) = 1 then GOTO A @ 10"),
        "unable to parse if condition at `if XX(Z) = 1 then GOTO A @ 10`"
    );
}

#[test]
fn error_bit_value() {
    assert_eq!(
        error("if PS(Q) = 1 then GOTO A @ 10"),
        "unable to parse bit value at `if PS(Q) = 1 then GOTO A @ 10`"
    );
}

#[test]
fn error_bit_range() {
    assert_eq!(
        error("if PS(16) = 1 then GOTO A @ 10"),
        "can only use bits in range [0, 15], but found `16` at `if PS(16) = 1 then GOTO A @ 10`"
    );
}

#[test]
fn error_mixed_bytes() {
    assert_eq!(
        error("if PS(C, 9) = 1 then GOTO A @ 10"),
        "cannot activate lower and upper bytes at the same time at `if PS(C, 9) = 1 then GOTO A @ 10`"
    );
}

#[test]
fn error_goto_body() {
    assert_eq!(error("if PS(Z) = 1 then GOTO 10"), "invalid goto body at `if PS(Z) = 1 then GOTO 10`");
    assert_eq!(error("GOTO 10"), "invalid goto body at `GOTO 10`");
}

#[test]
fn error_register() {
    assert_eq!(error("A-B → DR"), "unable to parse register `A-B` at `A-B → DR`");
}

#[test]
fn error_commutator() {
    assert_eq!(error("FOO(AC) → DR"), "unable to parse commutator function `FOO` at `FOO(AC) → DR`");
}

#[test]
fn error_right_reg() {
    assert_eq!(error("AC + BR → DR"), "unable to parse right reg input `BR` at `AC + BR → DR`");
}

#[test]
fn error_left_reg() {
    assert_eq!(error("DR + DR → DR"), "unable to parse left reg input `DR` at `DR + DR → DR`");
}

#[test]
fn error_reg() {
    assert_eq!(error("XY → DR"), "unable to parse reg input `XY` at `XY → DR`");
}

#[test]
fn error_alu() {
    assert_eq!(error("+ → DR"), "unable to parse ALU actions at `+ → DR`");
}

#[test]
fn error_write() {
    assert_eq!(error("AC → QQ"), "unable to parse omc write value `QQ` at `AC → QQ`");
}

#[test]
fn error_omc() {
    assert_eq!(error("hello"), "unable to parse omc at `hello`");
}

#[test]
fn abort_on_negative_bit() {
    assert!(Command::from_str("if PS(-1) = 1 then GOTO A @ 10").is_none());
    assert!(Command::from_str("if PS(C, -3) = 1 then GOTO A @ 10").is_none());
}

#[test]
fn reads_doubly_negated_bit() {
    // `--5` reads as the negation of -5
    assert_eq!(word("if PS(--5) = 1 then GOTO A @ 10"), word("if PS(5) = 1 then GOTO A @ 10"));
    assert_eq!(word("if PS(--5) = 1 then GOTO A @ 10"), 0x81_1020_1040);
    assert_eq!(
        error("if PS(-1-2) = 1 then GOTO A @ 10"),
        "unable to parse bit value at `if PS(-1-2) = 1 then GOTO A @ 10`"
    );
}

#[test]
fn abort_on_integer_overflow() {
    assert!(Command::from_str("if PS(--2147483648) = 1 then GOTO A @ 10").is_none());
    assert!(Command::from_str("if PS(-0x-8000_0000) = 1 then GOTO A @ 10").is_none());
    assert!(Command::from_str("if PS(--2147483647) = 1 then GOTO A @ 10").is_some());
}

#[test]
fn bit_numbers_one_at_a_time() {
    assert!(matches!(bit_value(0, None, 5), Ok((0x20, false))));
    assert!(matches!(bit_value(0x20, Some(false), 0), Ok((0x21, false))));
    assert!(matches!(bit_value(0, None, 9), Ok((0x02, true))));
    assert!(matches!(bit_value(0, Some(false), 9), Err(ParseStop::Message(_))));
    assert!(matches!(bit_value(0, None, 16), Err(ParseStop::Message(_))));
    assert!(matches!(bit_value(0, None, -1), Err(ParseStop::Abort)));
}

#[test]
fn reads_upper_case_text() {
    match Command::parse_upper("AC + DR → DR") {
        Some(Ok(c)) => assert_eq!(c.cmd, 0x0100_9011),
        _ => panic!("expected a word"),
    }
    // lower-case text is not upper-cased here
    match Command::parse_upper("halt") {
        Some(Err(e)) => assert_eq!(e, "unable to parse omc"),
        _ => panic!("expected an error"),
    }
    assert!(Command::parse_upper("IF PS(-2) = 1 THEN GOTO A @ 10").is_none());
}

#[test]
fn add_state_sets_bits() {
    let mut st = ParseState::new();
    st.add_state(Cs::Base(BaseCs::RDPS));
    st.add_state(Cs::Bit(0x10));
    st.add_state(Cs::Addr(0xAB));
    st.add_state(Cs::Comp(true));
    st.add_state(Cs::Type(true));
    assert_eq!(st.cmd, 0x81_AB10_0040);
    st.add_state(Cs::Comp(false));
    st.add_state(Cs::Type(false));
    assert_eq!(st.cmd, 0x81_AB10_0040);
    let d = ParseState::default();
    assert_eq!(d.cmd, 0);
    assert_eq!(d.range, 0..0);
    assert_eq!(ParseState::new().range, 0..0);
}

#[test]
fn rebuilding_a_word_from_its_signals() {
    for w in [0x0020011002u64, 0x81_1A04_1040, 0xFFFF_FFFF_FFFF_FFFF, 0x7F_FFFF_FFFF, 0x80_0000_0000] {
        let mut st = ParseState::new();
        for c in Command::new(w).cs() {
            st.add_state(c);
        }
        let mask = if w & (1 << 39) != 0 { 0x81_FFFF_FFFF } else { 0x7F_FFFF_FFFF };
        assert_eq!(st.cmd, w & mask);
    }
}

#[test]
fn lone_complemented_right_input() {
    // COMR | RDDR | LTOL | HTOH | WRAC
    assert_eq!(word("~DR -> AC"), 0x1000_9101);
    assert_eq!(Command::new(0x1000_9101).to_string(None), "~DR → AC");
    assert_eq!(word(&Command::new(0x1000_9101).to_string(None)), 0x1000_9101);
    assert_eq!(word("~SP + 1 → DR"), (1 << 8) | (1 << 10) | (1 << 3) | (1 << 12) | (1 << 15) | (1 << 24));
    // a lone complemented left input, or `~0`, complements the left input
    assert_eq!(word("~AC → DR"), (1 << 9) | (1 << 4) | (1 << 12) | (1 << 15) | (1 << 24));
    assert_eq!(word("~0 → DR"), (1 << 9) | (1 << 24));
}
