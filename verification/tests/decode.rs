use bcomp_mc::command::{get_alu, get_alu_full, Command, Mc, ToCss};
use bcomp_mc::control_signals::{BaseCs, Cs};
use bcomp_mc::table::Instruction;

fn debug_list(cmd: u64) -> Vec<String> {
    Command::new(cmd).cs().iter().map(|c| c.debug_string()).collect()
}

fn text(cmd: u64) -> String {
    Command::new(cmd).to_string(None)
}

fn s(v: Vec<char>) -> String {
    v.into_iter().collect()
}

fn cell(label: &str, encoded: u64) -> Instruction {
    Instruction { label: label.to_string(), encoded, decoded: String::new() }
}

#[test]
fn cs_of_operational_word() {
    assert_eq!(debug_list(0x0020011002), vec!["RDCR", "LTOL", "SEXT", "WRBR", "TYPE 0"]);
}

#[test]
fn cs_of_control_word() {
    assert_eq!(
        debug_list(0x81_1A04_1040),
        vec!["RDPS", "LTOL", "bit 0b00000100", "addr 0x1A", "comp 1", "TYPE 1"]
    );
}

#[test]
fn cs_of_empty_word() {
    assert_eq!(debug_list(0), vec!["TYPE 0"]);
}

#[test]
fn cs_of_control_word_ignores_high_signals() {
    // bits 16..39 of a control word are its fields, not signals
    assert_eq!(
        debug_list(0x80_0000_0000 | (1 << 38) | (1 << 33) | 0x8001),
        vec!["RDDR", "HTOH", "bit 0b00000000", "addr 0x00", "comp 0", "TYPE 1"]
    );
}

#[test]
fn cs_of_all_operational_signals() {
    let list = Command::new(0x7F_FFFF_FFFF).cs();
    assert_eq!(list.len(), 40);
    for (i, c) in list.iter().take(39).enumerate() {
        match c {
            Cs::Base(b) => assert_eq!(b.index(), i as u64),
            _ => panic!("expected a signal"),
        }
    }
    assert_eq!(list[39].debug_string(), "TYPE 0");
    assert_eq!(list[36].debug_string(), "RESERVED36");
    assert_eq!(list[38].debug_string(), "HALT");
}

#[test]
fn cs_debug_of_fields() {
    assert_eq!(Cs::Bit(0b1010_0001).debug_string(), "bit 0b10100001");
    assert_eq!(Cs::Addr(0x0F).debug_string(), "addr 0x0F");
    assert_eq!(Cs::Comp(false).debug_string(), "comp 0");
    assert_eq!(Cs::Type(true).debug_string(), "TYPE 1");
    assert_eq!(Cs::Base(BaseCs::WRAR).debug_string(), "WRAR");
}

#[test]
fn decoded_kinds() {
    match Mc::from_command(Command::new(0x81_1A04_1040)) {
        Mc::Control(c) => {
            assert_eq!(c.base, 0x1040);
            assert_eq!(c.bit.0, 4);
            assert_eq!(c.addr.0, 0x1A);
            assert!(c.comp.0);
            assert_eq!(c.to_css().len(), 5);
        }
        Mc::Operational(_) => panic!("expected a control microcommand"),
    }
    match Mc::from_command(Command::new(0xFF00_0000_0000_0001)) {
        Mc::Operational(o) => {
            assert_eq!(o.base, 1);
            assert_eq!(o.to_css().len(), 1);
        }
        Mc::Control(_) => panic!("expected an operational microcommand"),
    }
}

#[test]
fn conversion_and_default() {
    match Mc::from(Command::new(0x80_0001_0000)) {
        Mc::Control(c) => {
            assert_eq!(c.base, 0);
            assert_eq!(c.bit.0, 1);
            assert_eq!(c.addr.0, 0);
            assert!(!c.comp.0);
        }
        Mc::Operational(_) => panic!("expected a control microcommand"),
    }
    let zero = Command::default();
    assert_eq!(zero.cmd, 0);
    assert_eq!(zero.cs().len(), 1);
    assert_eq!(zero.to_string(None), "");
}

#[test]
fn update_state_sets_one_bit() {
    let mut w: u64 = 0x1;
    BaseCs::HALT.update_state(&mut w);
    assert_eq!(w, 0x1 | (1 << 38));
    BaseCs::HALT.update_state(&mut w);
    assert_eq!(w, 0x1 | (1 << 38));
    BaseCs::RDDR.update_state(&mut w);
    assert_eq!(w, 0x1 | (1 << 38));
    BaseCs::WRAR.update_state(&mut w);
    assert_eq!(w, 0x1 | (1 << 38) | (1 << 31));
}

#[test]
fn signal_index_round_trip() {
    for i in 0..39u64 {
        assert_eq!(BaseCs::from_index(i).unwrap().index(), i);
    }
    assert!(BaseCs::from_index(39).is_none());
}

#[test]
fn text_extend_sign() {
    assert_eq!(text(0x0020011002), "extend sign CR(0..7) → BR");
}

#[test]
fn text_sum_through_alu() {
    assert_eq!(text(0x0100_9011), "AC + DR → DR");
}

#[test]
fn text_flags() {
    assert_eq!(text(0xE0_9010), "AC → N, Z, V, C");
}

#[test]
fn text_single_actions() {
    assert_eq!(text(0x4F_0000_0000), "MEM(AR) → DR; DR → MEM(AR); IO; IRQSC; Halt");
}

#[test]
fn text_empty_word() {
    assert_eq!(text(0), "");
}

#[test]
fn text_reads_nothing_without_commutator() {
    // no commutator signal: the value read is 0
    assert_eq!(text((1 << 4) | (1 << 24)), "0 → DR");
}

#[test]
fn text_commutators() {
    let ac = 1 << 4;
    let wr = 1 << 28;
    assert_eq!(text(ac | wr | (1 << 15)), "HTOH(AC) → AC");
    assert_eq!(text(ac | wr | (1 << 12)), "LTOL(AC) → AC");
    assert_eq!(text(ac | wr | (1 << 13) | (1 << 14)), "SWAB(AC) → AC");
    assert_eq!(text(ac | wr | (1 << 13)), "LTOH(AC) → AC");
    assert_eq!(text(ac | wr | (1 << 14)), "HTOL(AC) → AC");
    assert_eq!(text(ac | wr | (1 << 16)), "SEXT(AC) → AC");
    assert_eq!(text(ac | wr | (1 << 17) | (1 << 18)), "ROL(AC) → AC");
    assert_eq!(text(ac | wr | (1 << 17)), "SHL(AC) → AC");
    assert_eq!(text(ac | wr | (1 << 19) | (1 << 20)), "ROR(AC) → AC");
    assert_eq!(text(ac | wr | (1 << 19)), "ASR(AC) → AC");
}

#[test]
fn alu_expressions() {
    // COMR, COML, PLS1, SORA are bits 8, 9, 10, 11
    assert_eq!(s(get_alu(0)), "");
    assert_eq!(s(get_alu(1 << 10)), "1");
    assert_eq!(s(get_alu((1 << 4) | 1 | (1 << 10))), "AC + DR + 1");
    assert_eq!(s(get_alu((1 << 4) | (1 << 5) | 1 | 2)), "AC | BR + DR | CR");
    assert_eq!(s(get_alu((1 << 11) | (1 << 8))), "0 & ~0");
    assert_eq!(s(get_alu((1 << 11) | (1 << 9) | (1 << 6) | 8)), "~PS & SP");
    assert_eq!(s(get_alu((1 << 9) | (1 << 8) | 4)), "~0 + ~IP");
    assert_eq!(s(get_alu((1 << 11) | (1 << 10) | (1 << 7))), "IR & 0");
}

#[test]
fn alu_full_expressions() {
    assert_eq!(s(get_alu_full(1 << 4)), "0");
    assert_eq!(s(get_alu_full((1 << 4) | (1 << 12) | (1 << 15))), "AC");
    assert_eq!(s(get_alu_full((1 << 4) | (1 << 12) | (1 << 16))), "extend sign AC(0..7)");
    // HTOH with LTOL wins over every other commutator signal
    assert_eq!(s(get_alu_full((1 << 4) | (1 << 12) | (1 << 15) | (1 << 19))), "AC");
}

#[test]
fn text_conditional_flags() {
    assert_eq!(text(0x81_1A04_1040), "if PS(Z) = 1 then GOTO 1A");
    // bit 4 of PS is shown as its number
    assert_eq!(text(0x80_0111_0040), "if PS(C, 4) = 0 then GOTO 01");
}

#[test]
fn text_conditional_high_byte() {
    assert_eq!(text(0x80_FF05_4010), "if AC(8, 10) = 0 then GOTO FF");
    // bit 0 of the high byte of PS is P
    assert_eq!(text(0x80_0201_4040), "if PS(P) = 0 then GOTO 02");
}

#[test]
fn text_conditional_on_alu() {
    assert_eq!(text(0x80_1080_1011), "if AC + DR(7) = 0 then GOTO 10");
}

#[test]
fn text_jump() {
    assert_eq!(text(0x80_0510_1040), "GOTO 05");
}

#[test]
fn text_jump_with_labels() {
    let table = vec![cell("", 0), cell("START", 0), cell("", 0), cell("", 0), cell("", 0), cell("LOOP", 0)];
    assert_eq!(Command::new(0x80_0510_1040).to_string(Some(table.as_slice())), "GOTO LOOP @ 05");
    // a cell without a label shows the address alone
    assert_eq!(Command::new(0x80_0210_1040).to_string(Some(table.as_slice())), "GOTO 02");
    // an address past the end of the table too
    assert_eq!(Command::new(0x80_4010_1040).to_string(Some(table.as_slice())), "GOTO 40");
    assert_eq!(
        Command::new(0x81_0104_1040).to_string(Some(table.as_slice())),
        "if PS(Z) = 1 then GOTO START @ 01"
    );
}
