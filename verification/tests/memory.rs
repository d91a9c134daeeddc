use bcomp_mc::table::{Instruction, WTable};

fn cells() -> Vec<Instruction> {
    (0..4u64)
        .map(|i| Instruction {
            label: if i == 2 { "LOOP".to_string() } else { String::new() },
            encoded: i,
            decoded: format!("cell {i}"),
        })
        .collect()
}

#[test]
fn table_reads_text() {
    let t = WTable::new(cells());
    assert_eq!(t.from_string("GOTO LOOP @ 02".to_string()), Some(Ok(0x80_0210_1040)));
    assert_eq!(t.from_string("ac → dr".to_string()), Some(Ok(0x0100_9010)));
    assert_eq!(t.from_string("nope".to_string()), Some(Err("unable to parse omc at `nope`".to_string())));
    assert_eq!(t.from_string("if PS(-1) = 1 then GOTO A @ 10".to_string()), None);
}

#[test]
fn table_names_jump_targets() {
    let t = WTable::new(cells());
    assert_eq!(t.to_string(0x80_0210_1040), "GOTO LOOP @ 02");
    assert_eq!(t.to_string(0x80_0110_1040), "GOTO 01");
    assert_eq!(t.to_string(0x80_0F10_1040), "GOTO 0F");
    assert_eq!(t.to_string(0x0100_9011), "AC + DR → DR");
}

#[test]
fn table_labels_can_change() {
    let mut t = WTable::new(cells());
    t.set_label(1, "START".to_string());
    assert_eq!(t.to_string(0x80_0110_1040), "GOTO START @ 01");
    t.set_label(2, String::new());
    assert_eq!(t.to_string(0x80_0210_1040), "GOTO 02");
    let c = t.get(1);
    assert_eq!(c.label, "START");
    assert_eq!(c.encoded, 1);
    assert_eq!(c.decoded, "cell 1");
    let d = t.get(3);
    assert_eq!(d.label, "");
    assert_eq!(d.encoded, 3);
}

#[test]
fn table_text_round_trip() {
    let t = WTable::new(cells());
    for w in [0x80_0210_1040u64, 0x0100_9011, 0xE0_9010, 0x4F_0000_0000, 0x81_0204_1040] {
        let text = t.to_string(w);
        assert_eq!(t.from_string(text), Some(Ok(w)));
    }
}

#[test]
fn copying_a_cell() {
    let c = Instruction { label: "L".to_string(), encoded: 7, decoded: "HALT".to_string() };
    let d = c.copy();
    assert_eq!(d.label, "L");
    assert_eq!(d.encoded, 7);
    assert_eq!(d.decoded, "HALT");
}
