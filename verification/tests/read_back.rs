use bcomp_mc::command::Command;
use bcomp_mc::table::{Instruction, WTable};

fn cells() -> Vec<Instruction> {
    (0..=0x20u64)
        .map(|i| Instruction {
            label: if i % 3 == 0 { format!("L{i:x}") } else { String::new() },
            encoded: 0,
            decoded: String::new(),
        })
        .collect()
}

fn reads_back(t: &WTable, w: u64) -> bool {
    let text = t.to_string(w);
    t.from_string(text) == Some(Ok(w))
}

#[test]
fn jumps_read_back_where_labelled() {
    let t = WTable::new(cells());
    assert!(reads_back(&t, 0x80_0310_1040));
    assert!(reads_back(&t, 0x80_1E10_1040));
    // without a label the text has no `@` and does not read back
    assert_eq!(t.to_string(0x80_0110_1040), "GOTO 01");
    assert!(!reads_back(&t, 0x80_0110_1040));
}

#[test]
fn conditional_jumps_read_back() {
    let t = WTable::new(cells());
    for reg in 0..8u64 {
        for high in [false, true] {
            let sel = if high { 1u64 << 14 } else { 1u64 << 12 };
            let masks: &[u64] = if reg == 6 && high { &[1] } else { &[1, 0x81, 0xFF, 0x10] };
            for &m in masks {
                for comp in [0u64, 1] {
                    let w = (1u64 << 39) | (comp << 32) | (0x06 << 24) | (m << 16) | sel | (1 << reg);
                    assert!(reads_back(&t, w), "{w:x}: {}", t.to_string(w));
                }
            }
        }
    }
}

#[test]
fn conditional_jumps_that_do_not_read_back() {
    let t = WTable::new(cells());
    // both byte selectors: the text shows the high byte only
    let w = (1u64 << 39) | (0x06 << 24) | (1 << 16) | (1 << 12) | (1 << 14) | 1;
    assert!(!reads_back(&t, w));
    // an ALU expression in the condition
    let w = (1u64 << 39) | (0x06 << 24) | (1 << 16) | (1 << 12) | 1 | (1 << 4);
    assert!(!reads_back(&t, w));
}

#[test]
fn operational_words_read_back() {
    let t = WTable::new(cells());
    let words = [
        0u64,
        1 << 38,
        0x4F_0000_0000,
        0x0020011002,
        0x0100_9011,
        0xE0_9010,
        (1 << 24) | (1 << 31),
        (1 << 4) | (1 << 28) | (1 << 15),
        (1 << 4) | 1 | (1 << 8) | (1 << 10) | (1 << 12) | (1 << 15) | (1 << 29),
        (1 << 9) | (1 << 11) | (1 << 13) | (1 << 14) | (1 << 21),
        (1 << 5) | (1 << 3) | (1 << 11) | (1 << 12) | (1 << 16) | (1 << 30) | (1 << 33),
        (1 << 7) | (1 << 17) | (1 << 18) | (1 << 27),
        (1 << 6) | (1 << 19) | (1 << 20) | (1 << 26) | (1 << 34),
    ];
    for w in words {
        assert!(reads_back(&t, w), "{w:x}: {}", t.to_string(w));
    }
}

#[test]
fn operational_words_that_do_not_read_back() {
    let t = WTable::new(cells());
    // two registers on one side of the ALU
    assert!(!reads_back(&t, (1 << 4) | (1 << 5) | (1 << 12) | (1 << 15) | (1 << 24)));
    // ALU signals with nothing written are not printed
    assert!(!reads_back(&t, (1 << 4) | (1 << 12) | (1 << 15)));
    // a reserved signal is not printed
    assert!(!reads_back(&t, 1 << 36));
    // upper bits are not printed
    assert!(!reads_back(&t, (1 << 40) | (1 << 38)));
    // LTOL besides SWAB's signals: only LTOL is printed
    assert!(!reads_back(&t, (1 << 4) | (1 << 12) | (1 << 13) | (1 << 14) | (1 << 21)));
}

#[test]
fn upper_casing_the_text_first() {
    let w = 0x0020011002u64;
    let text = Command::new(w).to_string(None);
    match Command::parse_upper(&text.to_ascii_uppercase()) {
        Some(Ok(c)) => assert_eq!(c.cmd, w),
        _ => panic!("expected the word back"),
    }
}
