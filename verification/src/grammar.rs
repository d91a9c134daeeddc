//! The textual grammar of microcommands: recognizers for its pieces, each
//! with a specification over `Seq<char>`.
//!
//! Where the grammar lets a piece of text end at several places, the piece
//! extends as far as it can (the rightmost split that lets the rest match).
use vstd::prelude::*;
use crate::control_signals::BaseCs;
use crate::text::eq_str;

verus! {

/// No character of `s` is a line feed.
pub open spec fn no_newline(s: Seq<char>) -> bool {
    forall|i: int| 0 <= i < s.len() ==> s[i] != '\n'
}

/// `s` holds `lit` at position `i`.
pub open spec fn lit_at(s: Seq<char>, i: int, lit: Seq<char>) -> bool {
    0 <= i && i + lit.len() <= s.len() && s.subrange(i, i + lit.len()) == lit
}

/// Length of the arrow (`->` or `→`) at position `i` of `s`, 0 if none.
pub open spec fn arrow_len(s: Seq<char>, i: int) -> int {
    if lit_at(s, i, "->"@) {
        2
    } else if 0 <= i < s.len() && s[i] == '→' {
        1
    } else {
        0
    }
}

/// First position at or after `i` that is not a space.
pub open spec fn space_run(s: Seq<char>, i: int) -> int
    decreases s.len() - i,
{
    if i >= s.len() || s[i] != ' ' {
        i
    } else {
        space_run(s, i + 1)
    }
}

/// Characters that may form an ALU operand.
pub open spec fn is_alu_char(c: char) -> bool {
    c != '+' && c != '&' && c != '~' && c != '1'
}

/// First position at or after `i` holding no ALU operand character.
pub open spec fn alu_run(s: Seq<char>, i: int) -> int
    decreases s.len() - i,
{
    if i >= s.len() || !is_alu_char(s[i]) {
        i
    } else {
        alu_run(s, i + 1)
    }
}

/// Characters that may form a register name.
pub open spec fn is_reg_char(c: char) -> bool {
    ('A' <= c <= 'Z') || c == '0'
}

/// First position at or after `i` holding no register name character.
pub open spec fn reg_run(s: Seq<char>, i: int) -> int
    decreases s.len() - i,
{
    if i >= s.len() || !is_reg_char(s[i]) {
        i
    } else {
        reg_run(s, i + 1)
    }
}

/// All characters of `s` from `i` on are spaces.
pub open spec fn spaces_from(s: Seq<char>, i: int) -> bool {
    forall|k: int| i <= k < s.len() ==> s[k] == ' '
}

proof fn lemma_space_run(s: Seq<char>, i: int)
    requires
        0 <= i <= s.len(),
    ensures
        i <= space_run(s, i) <= s.len(),
        forall|k: int| i <= k < space_run(s, i) ==> s[k] == ' ',
        space_run(s, i) < s.len() ==> s[space_run(s, i)] != ' ',
    decreases s.len() - i,
{
    if i < s.len() && s[i] == ' ' {
        lemma_space_run(s, i + 1);
    }
}

proof fn lemma_alu_run(s: Seq<char>, i: int)
    requires
        0 <= i <= s.len(),
    ensures
        i <= alu_run(s, i) <= s.len(),
        forall|k: int| i <= k < alu_run(s, i) ==> is_alu_char(s[k]),
        alu_run(s, i) < s.len() ==> !is_alu_char(s[alu_run(s, i)]),
    decreases s.len() - i,
{
    if i < s.len() && is_alu_char(s[i]) {
        lemma_alu_run(s, i + 1);
    }
}

proof fn lemma_reg_run(s: Seq<char>, i: int)
    requires
        0 <= i <= s.len(),
    ensures
        i <= reg_run(s, i) <= s.len(),
    decreases s.len() - i,
{
    if i < s.len() && is_reg_char(s[i]) {
        lemma_reg_run(s, i + 1);
    }
}

/// First position at or after `i` that is not a space.
pub fn skip_spaces(s: &[char], i: usize) -> (r: usize)
    requires
        i <= s@.len(),
    ensures
        r as int == space_run(s@, i as int),
        i <= r <= s@.len(),
{
    let mut k = i;
    while k < s.len() && s[k] == ' '
        invariant
            i <= k <= s@.len(),
            space_run(s@, k as int) == space_run(s@, i as int),
        decreases s@.len() - k,
    {
        k = k + 1;
    }
    proof {
        lemma_space_run(s@, i as int);
    }
    k
}

/// First position at or after `i` holding no ALU operand character.
pub fn skip_alu(s: &[char], i: usize) -> (r: usize)
    requires
        i <= s@.len(),
    ensures
        r as int == alu_run(s@, i as int),
        i <= r <= s@.len(),
{
    let mut k = i;
    while k < s.len() && s[k] != '+' && s[k] != '&' && s[k] != '~' && s[k] != '1'
        invariant
            i <= k <= s@.len(),
            alu_run(s@, k as int) == alu_run(s@, i as int),
        decreases s@.len() - k,
    {
        k = k + 1;
    }
    proof {
        lemma_alu_run(s@, i as int);
    }
    k
}

/// First position at or after `i` holding no register name character.
pub fn skip_reg(s: &[char], i: usize) -> (r: usize)
    requires
        i <= s@.len(),
    ensures
        r as int == reg_run(s@, i as int),
        i <= r <= s@.len(),
{
    let mut k = i;
    while k < s.len() && (('A' <= s[k] && s[k] <= 'Z') || s[k] == '0')
        invariant
            i <= k <= s@.len(),
            reg_run(s@, k as int) == reg_run(s@, i as int),
        decreases s@.len() - k,
    {
        k = k + 1;
    }
    proof {
        lemma_reg_run(s@, i as int);
    }
    k
}

/// Whether `s` holds no line feed.
pub fn has_no_newline(s: &[char]) -> (r: bool)
    ensures
        r == no_newline(s@),
{
    let mut i: usize = 0;
    while i < s.len()
        invariant
            i <= s@.len(),
            forall|k: int| 0 <= k < i ==> s@[k] != '\n',
        decreases s@.len() - i,
    {
        if s[i] == '\n' {
            return false;
        }
        i = i + 1;
    }
    true
}

/// Whether `s` holds `lit` at position `i`.
pub fn has_lit_at(s: &[char], i: usize, lit: &str) -> (r: bool)
    ensures
        r == lit_at(s@, i as int, lit@),
{
    let n = crate::text::chars_of(lit).len();
    if i > s.len() || n > s.len() - i {
        return false;
    }
    let r = eq_str(&s[i..i + n], lit);
    assert(s@.subrange(i as int, i + n) =~= s@.subrange(i as int, i + lit@.len()));
    r
}

/// Length of the arrow at position `i` of `s`, 0 if none.
pub fn arrow_at(s: &[char], i: usize) -> (r: usize)
    ensures
        r as int == arrow_len(s@, i as int),
{
    if has_lit_at(s, i, "->") {
        2
    } else if i < s.len() && s[i] == '→' {
        1
    } else {
        0
    }
}

/// `m` is the separator of a condition: spaces, `=`, spaces.
pub open spec fn is_eq_sep(m: Seq<char>) -> bool {
    let k = space_run(m, 0);
    k < m.len() && m[k] == '=' && spaces_from(m, k + 1)
}

/// Whether `m` is the separator of a condition.
pub fn eq_sep(m: &[char]) -> (r: bool)
    ensures
        r == is_eq_sep(m@),
{
    let k = skip_spaces(m, 0);
    if k >= m.len() || m[k] != '=' {
        return false;
    }
    let e = skip_spaces(m, k + 1);
    proof {
        lemma_space_run(m@, k + 1);
    }
    e == m.len()
}

/// `m` is spaces, an arrow and spaces, with at least one space on each side.
pub open spec fn is_spaced_arrow(m: Seq<char>) -> bool {
    let k = space_run(m, 0);
    let a = arrow_len(m, k);
    k >= 1 && a > 0 && k + a < m.len() && spaces_from(m, k + a)
}

/// Whether `m` is spaces, an arrow and spaces.
pub fn spaced_arrow(m: &[char]) -> (r: bool)
    ensures
        r == is_spaced_arrow(m@),
{
    let k = skip_spaces(m, 0);
    let a = arrow_at(m, k);
    if k < 1 || a == 0 || a >= m.len() - k {
        return false;
    }
    let e = skip_spaces(m, k + a);
    proof {
        lemma_space_run(m@, k + a);
    }
    e == m.len()
}

/// The signal of a microcommand consisting of a single action:
/// `MEM(AR) → DR`, `DR → MEM(AR)`, `HALT`, `IO`, `INTS` or `IRQSC`.
pub open spec fn single_action(t: Seq<char>) -> Option<BaseCs> {
    let n = t.len();
    if n >= 9 && t.take(7) == "MEM(AR)"@ && t.subrange(n - 2, n as int) == "DR"@ && is_spaced_arrow(
        t.subrange(7, n - 2),
    ) {
        Some(BaseCs::LOAD)
    } else if n >= 9 && t.take(2) == "DR"@ && t.subrange(n - 7, n as int) == "MEM(AR)"@
        && is_spaced_arrow(t.subrange(2, n - 7)) {
        Some(BaseCs::STOR)
    } else if t == "HALT"@ {
        Some(BaseCs::HALT)
    } else if t == "IO"@ {
        Some(BaseCs::IO)
    } else if t == "INTS"@ || t == "IRQSC"@ {
        Some(BaseCs::INTS)
    } else {
        None
    }
}

/// The single action that `t` names, if it names one.
pub fn match_single(t: &[char]) -> (r: Option<BaseCs>)
    ensures
        r == single_action(t@),
{
    proof {
        reveal_strlit("MEM(AR)");
        reveal_strlit("DR");
    }
    let n = t.len();
    if n >= 9 && has_lit_at(t, 0, "MEM(AR)") && has_lit_at(t, n - 2, "DR") && spaced_arrow(
        &t[7..n - 2],
    ) {
        assert(t@.take(7) =~= t@.subrange(0, 7));
        return Some(BaseCs::LOAD);
    }
    if n >= 9 {
        assert(t@.take(7) =~= t@.subrange(0, 7));
    }
    if n >= 9 && has_lit_at(t, 0, "DR") && has_lit_at(t, n - 7, "MEM(AR)") && spaced_arrow(
        &t[2..n - 7],
    ) {
        assert(t@.take(2) =~= t@.subrange(0, 2));
        return Some(BaseCs::STOR);
    }
    if n >= 9 {
        assert(t@.take(2) =~= t@.subrange(0, 2));
    }
    if eq_str(t, "HALT") {
        Some(BaseCs::HALT)
    } else if eq_str(t, "IO") {
        Some(BaseCs::IO)
    } else if eq_str(t, "INTS") || eq_str(t, "IRQSC") {
        Some(BaseCs::INTS)
    } else {
        None
    }
}


/// `1` after a `+` and spaces, ending `x`, from position `b` on.
pub open spec fn plus_one_at(x: Seq<char>, b: int) -> bool {
    0 <= b < x.len() && x[b] == '+' && {
        let k = space_run(x, b + 1);
        k + 1 == x.len() && x[k] == '1'
    }
}

/// What follows the right operand of an ALU expression may end it at `b`:
/// nothing, or `+ 1`.
pub open spec fn after_ok(x: Seq<char>, b: int) -> bool {
    b == x.len() || plus_one_at(x, b)
}

/// The right operand of an ALU expression whose operator (`+` or `&`)
/// stands at `j`: whether it is complemented, and its bounds.
pub open spec fn right_operand(x: Seq<char>, j: int) -> Option<(bool, int, int)> {
    let a = space_run(x, j + 1);
    if a < x.len() && x[a] == '~' {
        let b = alu_run(x, a + 1);
        if b > a + 1 && after_ok(x, b) {
            Some((true, a + 1, b))
        } else {
            None
        }
    } else if a < x.len() && is_alu_char(x[a]) {
        let b = alu_run(x, a);
        if after_ok(x, b) {
            Some((false, a, b))
        } else {
            None
        }
    } else if a > j + 1 && after_ok(x, a) {
        Some((false, a - 1, a))
    } else {
        None
    }
}

/// The parts of an ALU expression `~left + ~right + 1` or `~left & ~right`
/// (every part but `left` optional), as bounds into the text.
pub struct AluShape {
    pub coml: bool,
    pub left: (int, int),
    pub sora: bool,
    pub comr: bool,
    pub right: Option<(int, int)>,
    pub pls1: bool,
}

/// The parts of `x` read as an ALU expression, if it is one.
pub open spec fn alu_shape(x: Seq<char>) -> Option<AluShape> {
    let i0: int = if x.len() > 0 && x[0] == '~' {
        1
    } else {
        0
    };
    let j = alu_run(x, i0);
    if j == i0 {
        None
    } else if j == x.len() {
        Some(
            AluShape {
                coml: i0 == 1,
                left: (i0, j),
                sora: false,
                comr: false,
                right: None,
                pls1: false,
            },
        )
    } else if (x[j] == '+' || x[j] == '&') && right_operand(x, j) is Some {
        let (comr, lo, hi) = right_operand(x, j).unwrap();
        Some(
            AluShape {
                coml: i0 == 1,
                left: (i0, j),
                sora: x[j] == '&',
                comr,
                right: Some((lo, hi)),
                pls1: hi < x.len(),
            },
        )
    } else if plus_one_at(x, j) {
        Some(
            AluShape {
                coml: i0 == 1,
                left: (i0, j),
                sora: false,
                comr: false,
                right: None,
                pls1: true,
            },
        )
    } else {
        None
    }
}

/// The parts of an ALU expression, as bounds into the text.
pub struct AluMatch {
    pub coml: bool,
    pub left: (usize, usize),
    pub sora: bool,
    pub comr: bool,
    pub right: Option<(usize, usize)>,
    pub pls1: bool,
}

impl AluMatch {
    pub open spec fn shape(self) -> AluShape {
        AluShape {
            coml: self.coml,
            left: (self.left.0 as int, self.left.1 as int),
            sora: self.sora,
            comr: self.comr,
            right: match self.right {
                Some((lo, hi)) => Some((lo as int, hi as int)),
                None => None,
            },
            pls1: self.pls1,
        }
    }
}

/// Whether `+ 1` ends `x` from position `b` on.
pub fn plus_one(x: &[char], b: usize) -> (r: bool)
    ensures
        r == plus_one_at(x@, b as int),
{
    if b >= x.len() || x[b] != '+' {
        return false;
    }
    let k = skip_spaces(x, b + 1);
    k < x.len() && k + 1 == x.len() && x[k] == '1'
}

/// Whether the right operand may end `x` at `b`.
pub fn after_right(x: &[char], b: usize) -> (r: bool)
    requires
        b <= x@.len(),
    ensures
        r == after_ok(x@, b as int),
{
    b == x.len() || plus_one(x, b)
}

/// The right operand after the operator at `j`.
pub fn match_right(x: &[char], j: usize) -> (r: Option<(bool, usize, usize)>)
    requires
        j < x@.len(),
    ensures
        match right_operand(x@, j as int) {
            Some((c, lo, hi)) => r matches Some((rc, rlo, rhi)) && rc == c && rlo == lo && rhi
                == hi && 0 <= lo <= hi <= x@.len(),
            None => r is None,
        },
{
    let n = x.len();
    let a = skip_spaces(x, j + 1);
    if a < n && x[a] == '~' {
        let b = skip_alu(x, a + 1);
        if b > a + 1 && after_right(x, b) {
            Some((true, a + 1, b))
        } else {
            None
        }
    } else if a < x.len() && x[a] != '+' && x[a] != '&' && x[a] != '~' && x[a] != '1' {
        let b = skip_alu(x, a);
        if after_right(x, b) {
            Some((false, a, b))
        } else {
            None
        }
    } else if a > j + 1 && after_right(x, a) {
        Some((false, a - 1, a))
    } else {
        None
    }
}

/// The parts of `x` read as an ALU expression, if it is one.
pub fn match_alu(x: &[char]) -> (r: Option<AluMatch>)
    ensures
        match alu_shape(x@) {
            Some(sh) => r matches Some(m) && m.shape() == sh && m.left.0 <= m.left.1 <= x@.len()
                && (m.right matches Some((lo, hi)) ==> lo <= hi <= x@.len()),
            None => r is None,
        },
{
    let i0: usize = if x.len() > 0 && x[0] == '~' {
        1
    } else {
        0
    };
    let j = skip_alu(x, i0);
    if j == i0 {
        return None;
    }
    if j == x.len() {
        return Some(
            AluMatch {
                coml: i0 == 1,
                left: (i0, j),
                sora: false,
                comr: false,
                right: None,
                pls1: false,
            },
        );
    }
    if x[j] == '+' || x[j] == '&' {
        if let Some((comr, lo, hi)) = match_right(x, j) {
            return Some(
                AluMatch {
                    coml: i0 == 1,
                    left: (i0, j),
                    sora: x[j] == '&',
                    comr,
                    right: Some((lo, hi)),
                    pls1: hi < x.len(),
                },
            );
        }
    }
    if plus_one(x, j) {
        Some(
            AluMatch {
                coml: i0 == 1,
                left: (i0, j),
                sora: false,
                comr: false,
                right: None,
                pls1: true,
            },
        )
    } else {
        None
    }
}

/// `(x)`, with `x` an ALU expression: the expression inside.
pub open spec fn wrapped_alu(a: Seq<char>) -> bool {
    a.len() >= 2 && a[0] == '(' && a.last() == ')' && alu_shape(a.subrange(1, a.len() - 1)) is Some
}

/// The text of the ALU expression in `a`: inside the brackets of `(x)`
/// where that is one, else `a` itself.
pub open spec fn alu_subject(a: Seq<char>) -> Seq<char> {
    if wrapped_alu(a) {
        a.subrange(1, a.len() - 1)
    } else {
        a
    }
}

/// Suffix of a register operand: none (0), `(0..7)` (1) or `(8..15)` (2).
pub open spec fn reg_suffix(s: Seq<char>) -> Option<nat> {
    if s.len() == 0 {
        Some(0)
    } else if s == "(0..7)"@ {
        Some(1)
    } else if s == "(8..15)"@ {
        Some(2)
    } else {
        None
    }
}

/// A register operand: a name of capitals and `0` with an optional byte
/// selector; the end of its name and the kind of its selector.
pub open spec fn reg_operand(s: Seq<char>) -> Option<(int, nat)> {
    let k = reg_run(s, 0);
    if k == 0 {
        None
    } else {
        match reg_suffix(s.subrange(k, s.len() as int)) {
            Some(kind) => Some((k, kind)),
            None => None,
        }
    }
}

/// The register operand `s`, if it is one.
pub fn match_reg(s: &[char]) -> (r: Option<(usize, u8)>)
    ensures
        match reg_operand(s@) {
            Some((k, kind)) => r matches Some((rk, rkind)) && rk == k && rkind == kind && 0 < k
                <= s@.len() && kind <= 2,
            None => r is None,
        },
{
    let k = skip_reg(s, 0);
    if k == 0 {
        return None;
    }
    let suf = &s[k..s.len()];
    assert(suf@ =~= s@.subrange(k as int, s@.len() as int));
    if suf.len() == 0 {
        Some((k, 0))
    } else if eq_str(suf, "(0..7)") {
        Some((k, 1))
    } else if eq_str(suf, "(8..15)") {
        Some((k, 2))
    } else {
        None
    }
}


/// The commutator function word that `r` begins with, if any, tried in the
/// order LTOL, LTOH, HTOL, HTOH, SWAB, EXTEND SIGN, ROR, ROL, ASR, ASL.
pub open spec fn ops_word(r: Seq<char>) -> Option<Seq<char>> {
    if lit_at(r, 0, "LTOL"@) {
        Some("LTOL"@)
    } else if lit_at(r, 0, "LTOH"@) {
        Some("LTOH"@)
    } else if lit_at(r, 0, "HTOL"@) {
        Some("HTOL"@)
    } else if lit_at(r, 0, "HTOH"@) {
        Some("HTOH"@)
    } else if lit_at(r, 0, "SWAB"@) {
        Some("SWAB"@)
    } else if lit_at(r, 0, "EXTEND SIGN"@) {
        Some("EXTEND SIGN"@)
    } else if lit_at(r, 0, "ROR"@) {
        Some("ROR"@)
    } else if lit_at(r, 0, "ROL"@) {
        Some("ROL"@)
    } else if lit_at(r, 0, "ASR"@) {
        Some("ASR"@)
    } else if lit_at(r, 0, "ASL"@) {
        Some("ASL"@)
    } else {
        None
    }
}

/// The commutator function word that `r` begins with, if any.
pub fn match_ops_word(r: &[char]) -> (w: Option<Vec<char>>)
    ensures
        match ops_word(r@) {
            Some(x) => w matches Some(v) && v@ == x,
            None => w is None,
        },
{
    if has_lit_at(r, 0, "LTOL") {
        Some(crate::text::chars_of("LTOL"))
    } else if has_lit_at(r, 0, "LTOH") {
        Some(crate::text::chars_of("LTOH"))
    } else if has_lit_at(r, 0, "HTOL") {
        Some(crate::text::chars_of("HTOL"))
    } else if has_lit_at(r, 0, "HTOH") {
        Some(crate::text::chars_of("HTOH"))
    } else if has_lit_at(r, 0, "SWAB") {
        Some(crate::text::chars_of("SWAB"))
    } else if has_lit_at(r, 0, "EXTEND SIGN") {
        Some(crate::text::chars_of("EXTEND SIGN"))
    } else if has_lit_at(r, 0, "ROR") {
        Some(crate::text::chars_of("ROR"))
    } else if has_lit_at(r, 0, "ROL") {
        Some(crate::text::chars_of("ROL"))
    } else if has_lit_at(r, 0, "ASR") {
        Some(crate::text::chars_of("ASR"))
    } else if has_lit_at(r, 0, "ASL") {
        Some(crate::text::chars_of("ASL"))
    } else {
        None
    }
}

/// The largest position `q` in `1..=i` holding `(`, or -1.
pub open spec fn last_open(r: Seq<char>, i: int) -> int
    decreases i,
{
    if i < 1 {
        -1
    } else if i < r.len() && r[i] == '(' {
        i
    } else {
        last_open(r, i - 1)
    }
}

/// A commutator application in `r`: `WORD rest` for a function word, or
/// `f(op)` with the last opening bracket that leaves `f` non-empty. The
/// function and the bounds of its operand.
pub open spec fn comm_split(r: Seq<char>) -> Option<(Seq<char>, int, int)> {
    if !no_newline(r) {
        None
    } else {
        match ops_word(r) {
            Some(w) => Some((w, w.len() as int, r.len() as int)),
            None => if r.len() >= 3 && r.last() == ')' && last_open(r, r.len() - 2) >= 1 {
                let q = last_open(r, r.len() - 2);
                Some((r.take(q), q + 1, r.len() - 1))
            } else {
                None
            },
        }
    }
}

/// The commutator application in `r`, if it is one.
pub fn match_comm(r: &[char]) -> (c: Option<(Vec<char>, usize, usize)>)
    ensures
        match comm_split(r@) {
            Some((f, lo, hi)) => c matches Some((v, l, h)) && v@ == f && l == lo && h == hi && 0
                <= lo <= hi <= r@.len(),
            None => c is None,
        },
{
    if !has_no_newline(r) {
        return None;
    }
    match match_ops_word(r) {
        Some(w) => {
            proof {
                let x = ops_word(r@).unwrap();
                assert(lit_at(r@, 0, x));
            }
            let n = w.len();
            Some((w, n, r.len()))
        },
        None => {
            let n = r.len();
            if n < 3 || r[n - 1] != ')' {
                return None;
            }
            let mut q: usize = n - 2;
            while q >= 1 && r[q] != '('
                invariant
                    q <= n - 2,
                    n == r@.len(),
                    last_open(r@, q as int) == last_open(r@, n - 2),
                decreases q,
            {
                q = q - 1;
            }
            if q < 1 {
                return None;
            }
            let mut f: Vec<char> = Vec::new();
            crate::text::push_slice(&mut f, &r[0..q]);
            assert(f@ =~= r@.take(q as int));
            Some((f, q + 1, n - 1))
        },
    }
}

/// The largest position `p` in `1..=i` holding an arrow that leaves text
/// after it, or -1.
pub open spec fn last_arrow(t: Seq<char>, i: int) -> int
    decreases i,
{
    if i < 1 {
        -1
    } else if arrow_len(t, i) > 0 && i + arrow_len(t, i) < t.len() {
        i
    } else {
        last_arrow(t, i - 1)
    }
}

/// A transfer `read → write`: the position of its last arrow with text on
/// both sides.
pub open spec fn transfer_split(t: Seq<char>) -> Option<int> {
    if no_newline(t) && t.len() >= 1 && last_arrow(t, t.len() - 1) >= 1 {
        Some(last_arrow(t, t.len() - 1))
    } else {
        None
    }
}

/// The position of the arrow of the transfer `t`, if it is one.
pub fn match_transfer(t: &[char]) -> (p: Option<usize>)
    ensures
        match transfer_split(t@) {
            Some(i) => p matches Some(pi) && pi == i && 1 <= i && i + arrow_len(t@, i) < t@.len(),
            None => p is None,
        },
{
    if !has_no_newline(t) || t.len() < 1 {
        return None;
    }
    let n = t.len();
    let mut i: usize = n - 1;
    while i >= 1
        invariant
            i <= n - 1,
            n == t@.len(),
            last_arrow(t@, i as int) == last_arrow(t@, n - 1),
            no_newline(t@),
        decreases i,
    {
        let a = arrow_at(t, i);
        if a > 0 && a < n - i {
            assert(last_arrow(t@, i as int) == i as int);
            return Some(i);
        }
        i = i - 1;
    }
    None
}

/// Hexadecimal digit characters.
pub open spec fn is_hex(c: char) -> bool {
    ('0' <= c <= '9') || ('a' <= c <= 'f') || ('A' <= c <= 'F')
}

/// The value of a hexadecimal digit character.
pub open spec fn hex_val(c: char) -> nat {
    if '0' <= c <= '9' {
        (c as nat - '0' as nat) as nat
    } else if 'a' <= c <= 'f' {
        (c as nat - 'a' as nat + 10) as nat
    } else {
        (c as nat - 'A' as nat + 10) as nat
    }
}

/// After position `a`, `t` holds at least one space, then one or two
/// hexadecimal digits, and ends.
pub open spec fn spaced_hex(t: Seq<char>, a: int) -> bool {
    let k = space_run(t, a + 1);
    k >= a + 2 && (t.len() - k == 1 || t.len() - k == 2) && forall|i: int|
        k <= i < t.len() ==> is_hex(#[trigger] t[i])
}

/// The largest position `a` in `5..=i` holding `@` followed by the
/// address, or -1.
pub open spec fn last_at(t: Seq<char>, i: int) -> int
    decreases i,
{
    if i < 5 {
        -1
    } else if i < t.len() && t[i] == '@' && spaced_hex(t, i) {
        i
    } else {
        last_at(t, i - 1)
    }
}

/// The value of the one or two hexadecimal digits that end `t` from `k` on.
pub open spec fn hex_tail(t: Seq<char>, k: int) -> nat {
    if t.len() - k == 1 {
        hex_val(t[k])
    } else {
        16 * hex_val(t[k]) + hex_val(t[k + 1])
    }
}

/// The address of a jump `GOTO label @ XX`, if `t` is one.
pub open spec fn goto_addr(t: Seq<char>) -> Option<u8> {
    if t.len() >= 8 && lit_at(t, 0, "GOTO"@) && no_newline(t) && last_at(t, t.len() - 1) >= 5 {
        let a = last_at(t, t.len() - 1);
        Some(hex_tail(t, space_run(t, a + 1)) as u8)
    } else {
        None
    }
}

/// The value of a hexadecimal digit character.
pub fn hex_value(c: char) -> (v: u8)
    requires
        is_hex(c),
    ensures
        v as nat == hex_val(c),
        v < 16,
{
    if '0' <= c && c <= '9' {
        ((c as u32) - 48) as u8
    } else if 'a' <= c && c <= 'f' {
        ((c as u32) - 87) as u8
    } else {
        ((c as u32) - 55) as u8
    }
}

/// Whether after position `a` there are spaces and the address.
pub fn has_spaced_hex(t: &[char], a: usize) -> (r: bool)
    requires
        a < t@.len(),
    ensures
        r == spaced_hex(t@, a as int),
{
    let n = t.len();
    let k = skip_spaces(t, a + 1);
    if k - a < 2 || !(n - k == 1 || n - k == 2) {
        return false;
    }
    let mut i = k;
    while i < n
        invariant
            k <= i <= n == t@.len(),
            a < n,
            k == space_run(t@, a + 1),
            k >= a + 2,
            n - k == 1 || n - k == 2,
            forall|m: int| k <= m < i ==> is_hex(#[trigger] t@[m]),
        decreases n - i,
    {
        let c = t[i];
        if !(('0' <= c && c <= '9') || ('a' <= c && c <= 'f') || ('A' <= c && c <= 'F')) {
            assert(!is_hex(t@[i as int]));
            return false;
        }
        i = i + 1;
    }
    true
}

/// The address of the jump `t`, if it is one.
pub fn match_goto(t: &[char]) -> (r: Option<u8>)
    ensures
        r == goto_addr(t@),
{
    proof {
        reveal_strlit("GOTO");
    }
    let n = t.len();
    if n < 8 || !has_lit_at(t, 0, "GOTO") || !has_no_newline(t) {
        return None;
    }
    let mut a: usize = n - 1;
    while a >= 5 && !(t[a] == '@' && has_spaced_hex(t, a))
        invariant
            a <= n - 1,
            n == t@.len(),
            last_at(t@, a as int) == last_at(t@, n - 1),
        decreases a,
    {
        a = a - 1;
    }
    if a < 5 {
        return None;
    }
    let k = skip_spaces(t, a + 1);
    let v: u8 = if n - k == 1 {
        hex_value(t[k])
    } else {
        16 * hex_value(t[k]) + hex_value(t[k + 1])
    };
    Some(v)
}

/// The register that a condition tests: DR, CR, IP, SP, AC, BR, PS or IR.
pub open spec fn cond_reg(c: Seq<char>) -> Option<BaseCs> {
    let r = c.take(2);
    if r == "DR"@ {
        Some(BaseCs::RDDR)
    } else if r == "CR"@ {
        Some(BaseCs::RDCR)
    } else if r == "IP"@ {
        Some(BaseCs::RDIP)
    } else if r == "SP"@ {
        Some(BaseCs::RDSP)
    } else if r == "AC"@ {
        Some(BaseCs::RDAC)
    } else if r == "BR"@ {
        Some(BaseCs::RDBR)
    } else if r == "PS"@ {
        Some(BaseCs::RDPS)
    } else if r == "IR"@ {
        Some(BaseCs::RDIR)
    } else {
        None
    }
}

/// The largest position `j` in `4..=i` holding the `)` that closes the
/// tested bits (followed by spaces, `=` and spaces up to the last
/// character), or -1.
pub open spec fn last_close(c: Seq<char>, i: int) -> int
    decreases i,
{
    if i < 4 {
        -1
    } else if i < c.len() && c[i] == ')' && is_eq_sep(c.subrange(i + 1, c.len() - 1)) {
        i
    } else {
        last_close(c, i - 1)
    }
}

/// A condition `REG(bits) = 0|1`: the register, the compared value and the
/// position of the `)` that ends the bits.
pub open spec fn cond_parts(c: Seq<char>) -> Option<(BaseCs, bool, int)> {
    let n = c.len();
    if n >= 7 && no_newline(c) && cond_reg(c) is Some && c[2] == '(' && (c[n - 1] == '0' || c[n
        - 1] == '1') && last_close(c, n - 2) >= 4 {
        Some((cond_reg(c).unwrap(), c[n - 1] == '1', last_close(c, n - 2)))
    } else {
        None
    }
}

/// The register that the condition `c` tests.
pub fn match_cond_reg(c: &[char]) -> (r: Option<BaseCs>)
    requires
        c@.len() >= 2,
    ensures
        r == cond_reg(c@),
{
    let r = &c[0..2];
    assert(r@ =~= c@.take(2));
    if eq_str(r, "DR") {
        Some(BaseCs::RDDR)
    } else if eq_str(r, "CR") {
        Some(BaseCs::RDCR)
    } else if eq_str(r, "IP") {
        Some(BaseCs::RDIP)
    } else if eq_str(r, "SP") {
        Some(BaseCs::RDSP)
    } else if eq_str(r, "AC") {
        Some(BaseCs::RDAC)
    } else if eq_str(r, "BR") {
        Some(BaseCs::RDBR)
    } else if eq_str(r, "PS") {
        Some(BaseCs::RDPS)
    } else if eq_str(r, "IR") {
        Some(BaseCs::RDIR)
    } else {
        None
    }
}

/// The parts of the condition `c`, if it is one.
pub fn match_cond(c: &[char]) -> (r: Option<(BaseCs, bool, usize)>)
    ensures
        match cond_parts(c@) {
            Some((b, v, j)) => r matches Some((rb, rv, rj)) && rb == b && rv == v && rj == j && 4 <= j
                < c@.len() - 1,
            None => r is None,
        },
{
    let n = c.len();
    if n < 7 || !has_no_newline(c) {
        return None;
    }
    let reg = match match_cond_reg(c) {
        Some(b) => b,
        None => {
            return None;
        },
    };
    if c[2] != '(' || !(c[n - 1] == '0' || c[n - 1] == '1') {
        return None;
    }
    let mut j: usize = n - 2;
    while j >= 4 && !(c[j] == ')' && eq_sep(&c[j + 1..n - 1]))
        invariant
            j <= n - 2,
            n == c@.len(),
            last_close(c@, j as int) == last_close(c@, n - 2),
        decreases j,
    {
        j = j - 1;
    }
    if j < 4 {
        return None;
    }
    Some((reg, c[n - 1] == '1', j))
}

/// The largest position `i` in `1..=k` where `THEN` starts with text after
/// it, or -1.
pub open spec fn last_then(r: Seq<char>, k: int) -> int
    decreases k,
{
    if k < 1 {
        -1
    } else if lit_at(r, k, "THEN"@) && k + 4 < r.len() {
        k
    } else {
        last_then(r, k - 1)
    }
}

/// The position of the `THEN` that splits `r`, if there is one.
pub fn match_then(r: &[char]) -> (p: Option<usize>)
    ensures
        match last_then(r@, r@.len() - 1) {
            i => if i >= 1 {
                p matches Some(pi) && pi == i && i + 4 < r@.len()
            } else {
                p is None
            },
        },
{
    proof {
        reveal_strlit("THEN");
    }
    let n = r.len();
    if n < 1 {
        return None;
    }
    let mut i: usize = n - 1;
    while i >= 1 && !(has_lit_at(r, i, "THEN") && 4 < n - i)
        invariant
            i <= n - 1,
            n == r@.len(),
            last_then(r@, i as int) == last_then(r@, n - 1),
        decreases i,
    {
        i = i - 1;
    }
    if i < 1 {
        None
    } else {
        Some(i)
    }
}

} // verus!
