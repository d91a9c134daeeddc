//! The microcommand grammar written as regular expressions, read with
//! `fancy_regex`, compared with `Command::from_str` on many texts.
use bcomp_mc::command::Command;
use fancy_regex::{Captures, Regex};

enum Stop {
    Msg(String),
    Abort,
}

fn msg(s: &str) -> Stop {
    Stop::Msg(s.to_string())
}

struct Grammar {
    if_type: Regex,
    goto_type: Regex,
    if_structure: Regex,
    goto: Regex,
    if_cond: Regex,
    single: Regex,
    omc: Regex,
    commutator: Regex,
    alu: Regex,
    alu_wrapped: Regex,
    reg_full: Regex,
}

const REGS: &str = "(?<RDDR>DR)|(?<RDCR>CR)|(?<RDIP>IP)|(?<RDSP>SP)|(?<RDAC>AC)|(?<RDBR>BR)|(?<RDPS>PS)|(?<RDIR>IR)";
const OPS: &str = "(?<OPS>(?<LTOL>LTOL)|(?<LTOH>LTOH)|(?<HTOL>HTOL)|(?<HTOH>HTOH)|(?<SWAB>SWAB)|(?<SEXT>EXTEND SIGN)|(?<ROR>ROR)|(?<ROL>ROL)|(?<ASR>ASR)|(?<ASL>ASL))";
const ALU: &str = r"(?<ALU>(?<COML>~)?(?<ALU_L>[^+&~1]+) *((\+|(?<SORA>&)) *(?<COMR>~)?(?<ALU_R>[^+&~1]+))? *(?<PLS1>\+ *1)?)";

fn anchored(p: &str) -> Regex {
    Regex::new(&format!("^{p}$")).unwrap()
}

impl Grammar {
    fn new() -> Grammar {
        Grammar {
            if_type: anchored("(?<IF_TYPE>IF(.+))"),
            goto_type: anchored("(?<GOTO_TYPE>GOTO(.+))"),
            if_structure: anchored("(?<IF_STRUCTURE>(.+)THEN(.+))"),
            goto: anchored("(?<GOTO>GOTO.+@ +([0-9a-fA-F]{1,2}))"),
            if_cond: anchored(&format!(
                r"(?<IF_COND>({REGS})\((?<IF_BIT>.+)\) *= *(?<COMP>(?<ONE>1)|(?<ZERO>0)))"
            )),
            single: anchored(
                r"(?<SINGLE>(?<LOAD>MEM\(AR\) +(->|→) +DR)|(?<STOR>DR +(->|→) +MEM\(AR\))|(?<HALT>HALT)|(?<IO>IO)|(?<INTS>INTS|IRQSC))",
            ),
            omc: anchored("(?<OMC>(.+)(?:->|→)(.+))"),
            commutator: anchored(&format!(
                r"(?<COMMUTATOR>((?<F1>{OPS})(?<OP1>.*))|((?<F>.+)\((?<OP>.*)\)))"
            )),
            alu: anchored(ALU),
            alu_wrapped: anchored(&format!(r"(?<ALU_WRAPPED>\({ALU}\))")),
            reg_full: anchored(
                r"(?<REG_FULL>((?<REG>[A-Z0]+)((?<REG_L>\(0\.\.7\))|(?<REG_H>\(8\.\.15\)))?)|(?<ZERO>0))",
            ),
        }
    }
}

fn sig(n: u32) -> u64 {
    1u64 << n
}

fn caps<'t>(re: &Regex, s: &'t str) -> Option<Captures<'t, str>> {
    re.captures(s).unwrap()
}

fn read_goto(g: &Grammar, s: &str) -> Result<u64, Stop> {
    let cap = caps(&g.goto, s.trim()).ok_or(msg("invalid goto body"))?;
    let addr = u8::from_str_radix(cap.get(2).unwrap().as_str(), 16).unwrap();
    Ok((addr as u64) << 24)
}

/// `parse_int::parse::<i32>`, with its one panic (negating `i32::MIN`)
/// reported as an abort; where it does not panic, the crate is asked too.
fn read_int(t: &str) -> Result<i32, Stop> {
    let u = t.trim();
    let (neg, rest) = match u.strip_prefix('-') {
        Some(r) => (true, r),
        None => (false, u),
    };
    let emulated: Result<i32, Stop> = if rest.starts_with('_') {
        Err(msg("unable to parse bit value"))
    } else {
        let (radix, body) = if rest.starts_with("0x") || rest.starts_with("0X") {
            (16, &rest[2..])
        } else if rest.starts_with("0b") || rest.starts_with("0B") {
            (2, &rest[2..])
        } else if rest.starts_with("0o") || rest.starts_with("0O") {
            (8, &rest[2..])
        } else {
            (10, rest)
        };
        let digits: String = body.chars().filter(|&c| c != '_').collect();
        match i32::from_str_radix(&digits, radix) {
            Err(_) => Err(msg("unable to parse bit value")),
            Ok(n) if neg => n.checked_neg().ok_or(Stop::Abort),
            Ok(n) => Ok(n),
        }
    };
    if let Err(Stop::Abort) = emulated {
        return emulated;
    }
    let real = parse_int::parse::<i32>(t).map_err(|_| msg("unable to parse bit value"));
    match (&emulated, &real) {
        (Ok(a), Ok(b)) => assert_eq!(a, b),
        (Err(_), Err(_)) => {}
        _ => panic!("integer reading differs on `{t}`"),
    }
    real
}

fn read_bits(s: &str) -> Result<u64, Stop> {
    let mut bits: u8 = 0;
    let mut high: Option<bool> = None;
    for t in s.split(',') {
        let t = t.trim();
        let v: i32 = match t {
            "C" => 0,
            "V" => 1,
            "Z" => 2,
            "N" => 3,
            "EI" => 5,
            "INT" | "IRQ" => 6,
            "W" => 7,
            "P" => 8,
            t => read_int(t)?,
        };
        if v >= 16 {
            return Err(Stop::Msg(format!("can only use bits in range [0, 15], but found `{v}`")));
        }
        let h = v >= 8;
        if high.is_some() && high != Some(h) {
            return Err(msg("cannot activate lower and upper bytes at the same time"));
        }
        high = Some(h);
        if v < 0 {
            return Err(Stop::Abort);
        }
        bits |= 1 << (if h { v - 8 } else { v });
    }
    match high {
        None => Err(msg("no bits was selected")),
        Some(h) => Ok(sig(if h { 14 } else { 12 }) | ((bits as u64) << 16)),
    }
}

fn read_if(g: &Grammar, cond: &str, goto: &str) -> Result<u64, Stop> {
    let cap = caps(&g.if_cond, cond.trim()).ok_or(msg("unable to parse if condition"))?;
    let mut w = 0u64;
    for (i, name) in ["RDDR", "RDCR", "RDIP", "RDSP", "RDAC", "RDBR", "RDPS", "RDIR"].iter().enumerate() {
        if cap.name(name).is_some() {
            w |= sig(i as u32);
        }
    }
    if cap.name("ONE").is_some() {
        w |= sig(32);
    }
    w |= read_bits(cap.name("IF_BIT").unwrap().as_str())?;
    Ok(w | read_goto(g, goto)?)
}

fn operand(g: &Grammar, m: &str) -> Result<(u64, bool, String), Stop> {
    let s = m.trim();
    match caps(&g.reg_full, s) {
        Some(cap) => {
            let (sel, whole) = match (cap.name("REG_L"), cap.name("REG_H")) {
                (Some(_), _) => (sig(12), false),
                (None, Some(_)) => (sig(14), false),
                (None, None) => (0, true),
            };
            Ok((sel, whole, cap.name("REG").unwrap().as_str().to_string()))
        }
        None => Err(Stop::Msg(format!("unable to parse register `{s}`"))),
    }
}

fn reg_bit(name: &str, kind: u32) -> Option<u32> {
    let right = ["DR", "CR", "IP", "SP"];
    let left = ["AC", "BR", "PS", "IR"];
    if kind != 1 {
        if let Some(i) = right.iter().position(|r| *r == name) {
            return Some(i as u32);
        }
    }
    if kind != 0 {
        if let Some(i) = left.iter().position(|r| *r == name) {
            return Some(4 + i as u32);
        }
    }
    None
}

fn side(g: &Grammar, m: &str, kind: u32) -> Result<(u64, bool), Stop> {
    let (sel, whole, name) = operand(g, m)?;
    if name == "0" {
        return Ok((sel, false));
    }
    match reg_bit(&name, kind) {
        Some(b) => Ok((sel | sig(b), whole)),
        None => {
            let what = ["right reg input", "left reg input", "reg input"][kind as usize];
            Err(Stop::Msg(format!("unable to parse {what} `{name}`")))
        }
    }
}

fn comm_signals(f: &str) -> Option<u64> {
    Some(match f {
        "LTOL" => sig(12),
        "LTOH" => sig(13),
        "HTOL" => sig(14),
        "HTOH" => sig(15),
        "SWAB" => sig(13) | sig(14),
        "EXTEND SIGN" | "SEXT" => sig(16),
        "ROR" => sig(19) | sig(20),
        "ROL" => sig(17) | sig(18),
        "ASR" | "SHR" => sig(19),
        "ASL" | "SHL" => sig(17),
        _ => return None,
    })
}

fn write_signal(t: &str) -> Option<u32> {
    Some(match t {
        "DR" => 24,
        "CR" => 25,
        "IP" => 26,
        "SP" => 27,
        "AC" => 28,
        "BR" => 29,
        "PS" => 30,
        "AR" => 31,
        "C" => 21,
        "V" => 22,
        "N" | "Z" => 23,
        _ => return None,
    })
}

fn read_transfer(g: &Grammar, read: &str, write: &str) -> Result<u64, Stop> {
    let mut w = 0u64;
    let mut read = read.to_string();
    let trimmed = read.trim().to_string();
    let comm_do = match caps(&g.commutator, &trimmed) {
        Some(cap) => {
            let op = cap.name("OP").or(cap.name("OP1")).unwrap().as_str().to_string();
            let f = cap.name("F").or(cap.name("F1")).unwrap().as_str();
            w |= comm_signals(f).ok_or(Stop::Msg(format!("unable to parse commutator function `{f}`")))?;
            read = op;
            true
        }
        None => false,
    };
    let r = read.trim();
    let cap = caps(&g.alu_wrapped, r).or(caps(&g.alu, r)).ok_or(msg("unable to parse ALU actions"))?;
    for (name, b) in [("COML", 9), ("COMR", 8), ("SORA", 11), ("PLS1", 10)] {
        if cap.name(name).is_some() {
            w |= sig(b);
        }
    }
    let alu_do = match (cap.name("ALU_L"), cap.name("ALU_R")) {
        (Some(l), Some(rt)) => {
            let (rb, rdo) = side(g, rt.as_str(), 0)?;
            let (lb, ldo) = side(g, l.as_str(), 1)?;
            w |= rb | lb;
            rdo || ldo
        }
        (Some(l), None) => {
            let (lb, ldo) = side(g, l.as_str(), 2)?;
            // a lone complemented right input (`~DR`) complements the right input
            if cap.name("COML").is_some() && lb & 0xF != 0 {
                w = (w & !sig(9)) | sig(8);
            }
            w |= lb;
            ldo
        }
        _ => unreachable!(),
    };
    if alu_do && !comm_do {
        w |= sig(12) | sig(15);
    }
    for t in write.trim().split(',') {
        let t = t.trim();
        w |= sig(write_signal(t).ok_or(Stop::Msg(format!("unable to parse omc write value `{t}`")))?);
    }
    Ok(w)
}

fn read_omc(g: &Grammar, u: &str) -> Result<u64, Stop> {
    let mut w = 0u64;
    for s in u.split(';').filter(|s| !s.is_empty()) {
        let t = s.trim();
        if let Some(cap) = caps(&g.single, t) {
            for (name, b) in [("LOAD", 32), ("STOR", 33), ("HALT", 38), ("IO", 34), ("INTS", 35)] {
                if cap.name(name).is_some() {
                    w |= sig(b);
                }
            }
        } else if let Some(cap) = caps(&g.omc, t) {
            w |= read_transfer(g, cap.get(2).unwrap().as_str(), cap.get(3).unwrap().as_str())?;
        } else {
            return Err(msg("unable to parse omc"));
        }
    }
    Ok(w)
}

fn read_general(g: &Grammar, u: &str) -> Result<u64, Stop> {
    if let Some(cap) = caps(&g.if_type, u) {
        let rest = cap.get(2).unwrap().as_str();
        let c = caps(&g.if_structure, rest).ok_or(msg("seems like if command, but unable to parce it"))?;
        Ok(sig(39) | read_if(g, c.get(2).unwrap().as_str(), c.get(3).unwrap().as_str())?)
    } else if caps(&g.goto_type, u).is_some() {
        Ok(sig(39) | sig(6) | sig(12) | (0x10 << 16) | read_goto(g, u)?)
    } else {
        read_omc(g, u)
    }
}

fn expected(g: &Grammar, s: &str) -> Option<Result<u64, String>> {
    match read_general(g, &s.to_uppercase()) {
        Ok(w) => Some(Ok(w)),
        Err(Stop::Msg(m)) => Some(Err(format!("{m} at `{s}`"))),
        Err(Stop::Abort) => None,
    }
}

fn actual(s: &str) -> Option<Result<u64, String>> {
    Command::from_str(s).map(|r| r.map(|c| c.cmd))
}

fn agree(g: &Grammar, s: &str) {
    assert_eq!(actual(s), expected(g, s), "text: {s:?}");
}

struct Lcg(u64);

impl Lcg {
    fn next(&mut self, n: usize) -> usize {
        self.0 = self.0.wrapping_mul(6364136223846793005).wrapping_add(1442695040888963407);
        ((self.0 >> 33) as usize) % n
    }
}

const TOKENS: &[&str] = &[
    "AC", "DR", "BR", "CR", "IP", "SP", "PS", "IR", "AR", "0", "1", "~", "+", "&", " ", " ", "(", ")", "→",
    "->", ",", ";", "N", "Z", "V", "C", "LTOL", "HTOH", "SWAB", "EXTEND SIGN", "SEXT", "ROR", "ROL", "ASR",
    "ASL", "SHL", "SHR", "(0..7)", "(8..15)", "MEM(AR)", "HALT", "halt", "IO", "IRQSC", "INTS", "IF", "if ",
    "THEN", " then ", "GOTO", "goto ", "@", " @ ", "1A", "f", "=", " = ", "x", "-", "5", "16", "0x3", "EI",
    "P", "W", "IRQ", "\t", "\n", "q",
];

#[test]
fn grammar_agrees_on_random_texts() {
    let g = Grammar::new();
    let mut rng = Lcg(0x5eed);
    for _ in 0..6000 {
        let n = 1 + rng.next(10);
        let mut s = String::new();
        for _ in 0..n {
            s.push_str(TOKENS[rng.next(TOKENS.len())]);
        }
        agree(&g, &s);
    }
}

#[test]
fn grammar_agrees_on_transfers() {
    let g = Grammar::new();
    let mut rng = Lcg(7);
    let lefts = ["AC", "~AC", "BR", "PS", "IR", "0", "~0", "DR", "AC(0..7)", "BR(8..15)", "XY", "", "~"];
    let rights = ["DR", "~DR", "CR", "IP", "SP", "0", "~0", "AC", "SP(0..7)", "", "1", "~1"];
    let ops = [" + ", "+", " & ", "&", "  +  "];
    let tails = ["", " + 1", "+1", " +  1", " + 2"];
    let comms = ["", "LTOL(", "HTOH(", "SWAB(", "extend sign ", "SEXT(", "ROL(", "ASL(", "SHR(", "FOO(", "ROR "];
    let writes = ["DR", "AC, BR", "N, Z, V, C", "AR,IP", "QQ", "", "DR,"];
    let arrows = [" → ", "→", " -> ", "->"];
    for _ in 0..6000 {
        let l = lefts[rng.next(lefts.len())];
        let alu = if rng.next(3) == 0 {
            l.to_string()
        } else {
            format!("{l}{}{}", ops[rng.next(ops.len())], rights[rng.next(rights.len())])
        };
        let alu = format!("{alu}{}", tails[rng.next(tails.len())]);
        let c = comms[rng.next(comms.len())];
        let read = if c.ends_with('(') {
            if rng.next(2) == 0 {
                format!("{c}{alu})")
            } else {
                format!("{c}({alu}))")
            }
        } else {
            format!("{c}{alu}")
        };
        let s = format!("{read}{}{}", arrows[rng.next(arrows.len())], writes[rng.next(writes.len())]);
        agree(&g, &s);
        agree(&g, &format!("{s}; HALT; mem(ar) → dr"));
    }
}

#[test]
fn grammar_agrees_on_jumps() {
    let g = Grammar::new();
    let mut rng = Lcg(11);
    let regs = ["PS", "AC", "DR", "XX", "IR", "SP"];
    let bits = ["Z", "C, 4", "8, 10", "P", "INT, irq", "0x3", "0b1010", " 1_5 ", "-0", "16", "-1", "C, 9", "Q", "", ",", "--5", "15,8", "-1-2", "--2147483648", "-0x-80000000", "-0b-10000000000000000000000000000000", "--0x5", "-_5", "- -3"];
    let comps = [" = 1", " = 0", "=1", "  =  0", " = 2", " == 1"];
    let gotos = ["GOTO LOOP @ 1A", "GOTO A @ 5", "goto a@b @  ff", "GOTO 10", "GOTO X @ 123", "GOTO @ 1", "GOTO X@1"];
    for _ in 0..4000 {
        let cond = format!("{}({}){}", regs[rng.next(regs.len())], bits[rng.next(bits.len())], comps[rng.next(comps.len())]);
        let goto = gotos[rng.next(gotos.len())];
        agree(&g, &format!("if {cond} then {goto}"));
        agree(&g, &format!("IF{cond}THEN{goto}"));
        agree(&g, goto);
        agree(&g, &format!("  {goto}  "));
    }
}

#[test]
fn grammar_agrees_on_round_trips() {
    let g = Grammar::new();
    let mut rng = Lcg(3);
    for _ in 0..3000 {
        let w = ((rng.next(1 << 20) as u64) << 20) | rng.next(1 << 20) as u64;
        let w = w & 0xFF_FFFF_FFFF;
        let c = Command::new(w);
        if c.renders() {
            agree(&g, &c.to_string(None));
        }
    }
}
