//! Character-level helpers: trimming, splitting, joining, literal matching
//! and number formatting, all over `Seq<char>` models.
use vstd::prelude::*;

verus! {

/// The characters that `str::trim` removes: the Unicode `White_Space` set.
pub open spec fn is_ws(c: char) -> bool {
    let v = c as u32;
    ||| 0x09 <= v <= 0x0D
    ||| v == 0x20
    ||| v == 0x85
    ||| v == 0xA0
    ||| v == 0x1680
    ||| 0x2000 <= v <= 0x200A
    ||| v == 0x2028
    ||| v == 0x2029
    ||| v == 0x202F
    ||| v == 0x205F
    ||| v == 0x3000
}

/// `c` upper-cased as ASCII does it: `a`..`z` become `A`..`Z`.
pub open spec fn up(c: char) -> char {
    if 'a' <= c && c <= 'z' {
        ((c as int) - 32) as char
    } else {
        c
    }
}

/// `s` with its ASCII letters upper-cased.
pub open spec fn upper(s: Seq<char>) -> Seq<char> {
    Seq::new(s.len(), |i: int| up(s[i]))
}

/// All characters of `s` are ASCII.
pub open spec fn all_ascii(s: Seq<char>) -> bool {
    forall|i: int| 0 <= i < s.len() ==> (#[trigger] s[i] as u32) < 0x80
}

/// The number of bytes of `c` in UTF-8.
pub open spec fn char_width(c: char) -> nat {
    if (c as u32) < 0x80 {
        1
    } else if (c as u32) < 0x800 {
        2
    } else if (c as u32) < 0x10000 {
        3
    } else {
        4
    }
}

/// The number of bytes of `s` in UTF-8.
pub open spec fn utf8_len(s: Seq<char>) -> nat
    decreases s.len(),
{
    if s.len() == 0 {
        0
    } else {
        char_width(s[0]) + utf8_len(s.drop_first())
    }
}

/// The UTF-8 lengths of two texts add up.
pub proof fn lemma_utf8_add(a: Seq<char>, b: Seq<char>)
    ensures
        utf8_len(a + b) == utf8_len(a) + utf8_len(b),
    decreases a.len(),
{
    if a.len() > 0 {
        assert((a + b).drop_first() =~= a.drop_first() + b);
        lemma_utf8_add(a.drop_first(), b);
    } else {
        assert(a + b =~= b);
    }
}

/// A piece of a text is no longer in UTF-8 than the text, and the part
/// before it and the piece together are as long as the text up to the
/// piece's end.
pub proof fn lemma_utf8_piece(s: Seq<char>, i: int, j: int)
    requires
        0 <= i <= j <= s.len(),
    ensures
        utf8_len(s.subrange(i, j)) <= utf8_len(s),
        utf8_len(s.take(i)) + utf8_len(s.subrange(i, j)) == utf8_len(s.take(j)),
        utf8_len(s.take(j)) <= utf8_len(s),
{
    lemma_utf8_add(s.take(i), s.subrange(i, j));
    assert(s.take(i) + s.subrange(i, j) =~= s.take(j));
    lemma_utf8_add(s.take(j), s.subrange(j, s.len() as int));
    assert(s.take(j) + s.subrange(j, s.len() as int) =~= s);
}

/// The UTF-8 encoding of `s` has `utf8_len(s)` bytes.
pub proof fn lemma_encode_len(s: Seq<char>)
    ensures
        vstd::utf8::encode_utf8(s).len() == utf8_len(s),
    decreases s.len(),
{
    if s.len() > 0 {
        vstd::utf8::char_is_scalar(s[0]);
        lemma_encode_len(s.drop_first());
    }
}

/// The number of bytes of `s` in UTF-8.
pub fn byte_len(s: &[char]) -> (r: usize)
    requires
        utf8_len(s@) <= usize::MAX,
    ensures
        r == utf8_len(s@),
{
    let mut acc: usize = 0;
    let mut k: usize = 0;
    while k < s.len()
        invariant
            k <= s@.len(),
            acc == utf8_len(s@.take(k as int)),
            utf8_len(s@) <= usize::MAX,
        decreases s@.len() - k,
    {
        proof {
            lemma_utf8_add(s@.take(k as int), seq![s@[k as int]]);
            assert(s@.take(k as int) + seq![s@[k as int]] =~= s@.take(k + 1));
            lemma_utf8_piece(s@, 0, k + 1);
            let one = seq![s@[k as int]];
            assert(one.drop_first() =~= Seq::<char>::empty());
            assert(utf8_len(Seq::<char>::empty()) == 0);
            assert(one[0] == s@[k as int]);
            assert(utf8_len(one) == char_width(s@[k as int]));
        }
        let v = s[k] as u32;
        let w: usize = if v < 0x80 {
            1
        } else if v < 0x800 {
            2
        } else if v < 0x10000 {
            3
        } else {
            4
        };
        assert(w == char_width(s@[k as int]));
        acc = acc + w;
        k = k + 1;
    }
    assert(s@.take(k as int) =~= s@);
    acc
}

/// Number of leading white-space characters of `s`.
pub open spec fn lead_ws(s: Seq<char>) -> nat
    decreases s.len(),
{
    if s.len() > 0 && is_ws(s[0]) {
        1 + lead_ws(s.drop_first())
    } else {
        0
    }
}

/// Number of trailing white-space characters of `s`.
pub open spec fn trail_ws(s: Seq<char>) -> nat
    decreases s.len(),
{
    if s.len() > 0 && is_ws(s.last()) {
        1 + trail_ws(s.drop_last())
    } else {
        0
    }
}

/// `s` with leading white space removed.
pub open spec fn trim_start(s: Seq<char>) -> Seq<char> {
    s.subrange(lead_ws(s) as int, s.len() as int)
}

/// `s` with trailing white space removed.
pub open spec fn trim_end(s: Seq<char>) -> Seq<char> {
    s.subrange(0, s.len() - trail_ws(s))
}

/// `s` with white space removed at both ends, as `str::trim` does.
pub open spec fn trim(s: Seq<char>) -> Seq<char> {
    trim_end(trim_start(s))
}

pub proof fn lemma_lead_ws(s: Seq<char>)
    ensures
        lead_ws(s) <= s.len(),
        forall|k: int| 0 <= k < lead_ws(s) ==> is_ws(#[trigger] s[k]),
        lead_ws(s) < s.len() ==> !is_ws(s[lead_ws(s) as int]),
    decreases s.len(),
{
    if s.len() > 0 && is_ws(s[0]) {
        lemma_lead_ws(s.drop_first());
        assert forall|k: int| 0 <= k < lead_ws(s) implies is_ws(#[trigger] s[k]) by {
            if k > 0 {
                assert(s[k] == s.drop_first()[k - 1]);
            }
        }
    }
}

pub proof fn lemma_trail_ws(s: Seq<char>)
    ensures
        trail_ws(s) <= s.len(),
        forall|k: int| s.len() - trail_ws(s) <= k < s.len() ==> is_ws(#[trigger] s[k]),
        trail_ws(s) < s.len() ==> !is_ws(s[s.len() - trail_ws(s) - 1]),
    decreases s.len(),
{
    if s.len() > 0 && is_ws(s.last()) {
        lemma_trail_ws(s.drop_last());
        assert forall|k: int| s.len() - trail_ws(s) <= k < s.len() implies is_ws(#[trigger] s[k]) by {
            if k < s.len() - 1 {
                assert(s[k] == s.drop_last()[k]);
            }
        }
    }
}

/// A leading white-space count is determined by its two defining facts.
pub proof fn lemma_lead_ws_unique(s: Seq<char>, n: int)
    requires
        0 <= n <= s.len(),
        forall|k: int| 0 <= k < n ==> is_ws(#[trigger] s[k]),
        n < s.len() ==> !is_ws(s[n]),
    ensures
        lead_ws(s) == n,
    decreases s.len(),
{
    if n > 0 {
        assert(is_ws(s[0]));
        let t = s.drop_first();
        assert forall|k: int| 0 <= k < n - 1 implies is_ws(#[trigger] t[k]) by {
            assert(t[k] == s[k + 1]);
        }
        if n - 1 < t.len() {
            assert(t[n - 1] == s[n]);
        }
        lemma_lead_ws_unique(t, n - 1);
    }
}

/// A trailing white-space count is determined by its two defining facts.
pub proof fn lemma_trail_ws_unique(s: Seq<char>, n: int)
    requires
        0 <= n <= s.len(),
        forall|k: int| s.len() - n <= k < s.len() ==> is_ws(#[trigger] s[k]),
        n < s.len() ==> !is_ws(s[s.len() - n - 1]),
    ensures
        trail_ws(s) == n,
    decreases s.len(),
{
    if n > 0 {
        assert(is_ws(s.last()));
        let t = s.drop_last();
        assert forall|k: int| t.len() - (n - 1) <= k < t.len() implies is_ws(#[trigger] t[k]) by {
            assert(t[k] == s[k]);
        }
        if n - 1 < t.len() {
            assert(t[t.len() - (n - 1) - 1] == s[s.len() - n - 1]);
        }
        lemma_trail_ws_unique(t, n - 1);
    }
}

/// `c` belongs to the Unicode `White_Space` set.
pub fn is_whitespace(c: char) -> (r: bool)
    ensures
        r == is_ws(c),
{
    let v = c as u32;
    (0x09 <= v && v <= 0x0D) || v == 0x20 || v == 0x85 || v == 0xA0 || v == 0x1680 || (0x2000 <= v
        && v <= 0x200A) || v == 0x2028 || v == 0x2029 || v == 0x202F || v == 0x205F || v == 0x3000
}

/// Bounds `(lo, hi)` of `s` without surrounding white space.
pub fn trim_bounds(s: &[char]) -> (r: (usize, usize))
    ensures
        r.0 <= r.1 <= s@.len(),
        s@.subrange(r.0 as int, r.1 as int) == trim(s@),
{
    let n = s.len();
    let mut lo: usize = 0;
    while lo < n && is_whitespace(s[lo])
        invariant
            lo <= n == s@.len(),
            forall|k: int| 0 <= k < lo ==> is_ws(#[trigger] s@[k]),
        decreases n - lo,
    {
        lo = lo + 1;
    }
    proof {
        lemma_lead_ws_unique(s@, lo as int);
    }
    let mut hi: usize = n;
    while hi > lo && is_whitespace(s[hi - 1])
        invariant
            lo <= hi <= n == s@.len(),
            forall|k: int| hi <= k < n ==> is_ws(#[trigger] s@[k]),
        decreases hi,
    {
        hi = hi - 1;
    }
    proof {
        let t = trim_start(s@);
        assert(t == s@.subrange(lo as int, n as int));
        assert forall|k: int| t.len() - (n - hi) <= k < t.len() implies is_ws(#[trigger] t[k]) by {
            assert(t[k] == s@[k + lo]);
        }
        if n - hi < t.len() {
            assert(t[t.len() - (n - hi) - 1] == s@[hi - 1]);
        }
        lemma_trail_ws_unique(t, (n - hi) as int);
        assert(s@.subrange(lo as int, hi as int) =~= trim(s@));
    }
    (lo, hi)
}

/// `s` with surrounding white space removed.
pub fn trim_chars(s: &[char]) -> (r: &[char])
    ensures
        r@ == trim(s@),
{
    let (lo, hi) = trim_bounds(s);
    let r = &s[lo..hi];
    assert(r@ =~= s@.subrange(lo as int, hi as int));
    r
}

/// The characters of `s`, in order.
pub fn chars_of(s: &str) -> (r: Vec<char>)
    ensures
        r@ == s@,
{
    let mut r: Vec<char> = Vec::new();
    for c in it: s.chars()
        invariant
            r@ == it.seq().take(it.index()),
            it.seq() == s@,
    {
        r.push(c);
    }
    assert(r@ =~= s@);
    r
}


/// The pieces of `s` between occurrences of `c`, as `str::split` yields them.
pub open spec fn split(s: Seq<char>, c: char) -> Seq<Seq<char>>
    decreases s.len(),
{
    if s.len() == 0 {
        seq![Seq::<char>::empty()]
    } else {
        let rest = split(s.drop_first(), c);
        if s[0] == c {
            seq![Seq::<char>::empty()] + rest
        } else {
            rest.update(0, seq![s[0]] + rest[0])
        }
    }
}

pub proof fn lemma_split_len(s: Seq<char>, c: char)
    ensures
        split(s, c).len() >= 1,
    decreases s.len(),
{
    if s.len() > 0 {
        lemma_split_len(s.drop_first(), c);
    }
}

/// The pieces of `s` between occurrences of `c`.
pub fn split_chars(s: &[char], c: char) -> (r: Vec<Vec<char>>)
    ensures
        r@.len() == split(s@, c).len(),
        forall|k: int| 0 <= k < r@.len() ==> (#[trigger] r@[k])@ == split(s@, c)[k],
{
    let n = s.len();
    let mut r: Vec<Vec<char>> = Vec::new();
    r.push(Vec::new());
    let mut i: usize = n;
    assert(s@.subrange(n as int, n as int) =~= Seq::<char>::empty());
    while i > 0
        invariant
            i <= n == s@.len(),
            r@.len() == split(s@.subrange(i as int, n as int), c).len(),
            forall|k: int|
                0 <= k < r@.len() ==> (#[trigger] r@[k])@ == split(
                    s@.subrange(i as int, n as int),
                    c,
                )[k],
        decreases i,
    {
        let ghost old_r = r@;
        let ghost tail = s@.subrange(i as int, n as int);
        proof {
            lemma_split_len(tail, c);
        }
        let d = s[i - 1];
        i = i - 1;
        let ghost cur = s@.subrange(i as int, n as int);
        assert(cur.drop_first() =~= tail);
        assert(cur[0] == d);
        if d == c {
            r.insert(0, Vec::new());
            assert forall|k: int| 0 <= k < r@.len() implies (#[trigger] r@[k])@ == split(cur, c)[k] by {
                if k > 0 {
                    assert(r@[k] == old_r[k - 1]);
                }
            }
        } else {
            let mut first = Vec::new();
            first.push(d);
            let mut j: usize = 0;
            let ghost prev = r@[0]@;
            while j < r[0].len()
                invariant
                    r@ == old_r,
                    r@.len() >= 1,
                    j <= r@[0]@.len(),
                    prev == r@[0]@,
                    first@ == seq![d] + prev.take(j as int),
                decreases r@[0]@.len() - j,
            {
                first.push(r[0][j]);
                j = j + 1;
                assert(first@ =~= seq![d] + prev.take(j as int));
            }
            assert(prev.take(j as int) =~= prev);
            r.set(0, first);
            assert forall|k: int| 0 <= k < r@.len() implies (#[trigger] r@[k])@ == split(cur, c)[k] by {
                if k > 0 {
                    assert(r@[k] == old_r[k]);
                }
            }
        }
    }
    assert(s@.subrange(0, n as int) =~= s@);
    r
}

/// `items` joined with `sep` between neighbours.
pub open spec fn join(items: Seq<Seq<char>>, sep: Seq<char>) -> Seq<char>
    decreases items.len(),
{
    if items.len() == 0 {
        Seq::empty()
    } else if items.len() == 1 {
        items[0]
    } else {
        join(items.drop_last(), sep) + sep + items.last()
    }
}

/// `items` without its empty members.
pub open spec fn drop_empty(items: Seq<Seq<char>>) -> Seq<Seq<char>>
    decreases items.len(),
{
    if items.len() == 0 {
        items
    } else if items.last().len() == 0 {
        drop_empty(items.drop_last())
    } else {
        drop_empty(items.drop_last()).push(items.last())
    }
}

/// The character sequences held by `v`.
pub open spec fn views(v: Seq<Vec<char>>) -> Seq<Seq<char>> {
    v.map_values(|x: Vec<char>| x@)
}

/// Appends `items` joined with `sep` to `out`.
pub fn push_join(out: &mut Vec<char>, items: &Vec<Vec<char>>, sep: &str)
    ensures
        final(out)@ == old(out)@ + join(views(items@), sep@),
{
    let n = items.len();
    let ghost start = out@;
    let mut i: usize = 0;
    while i < n
        invariant
            i <= n == items@.len(),
            views(items@).len() == n,
            out@ == start + join(views(items@).take(i as int), sep@),
        decreases n - i,
    {
        let ghost before = out@;
        if i > 0 {
            push_str(out, sep);
        }
        push_slice(out, items[i].as_slice());
        i = i + 1;
        proof {
            let dv = views(items@);
            let t = dv.take(i as int);
            assert(t.drop_last() =~= dv.take(i - 1));
            assert(t.last() == items@[i - 1]@);
            if i == 1 {
                assert(join(t, sep@) == t[0]);
                assert(out@ =~= start + join(t, sep@));
            } else {
                assert(out@ =~= start + join(t, sep@));
            }
        }
    }
    assert(views(items@).take(n as int) =~= views(items@));
}

/// Appends the members of `items` that are not empty, joined with `sep`.
pub fn push_join_nonempty(out: &mut Vec<char>, items: &Vec<Vec<char>>, sep: &str)
    ensures
        final(out)@ == old(out)@ + join(drop_empty(views(items@)), sep@),
{
    let n = items.len();
    let mut kept: Vec<Vec<char>> = Vec::new();
    let mut i: usize = 0;
    while i < n
        invariant
            i <= n == items@.len(),
            views(items@).len() == n,
            views(kept@) == drop_empty(views(items@).take(i as int)),
        decreases n - i,
    {
        let ghost before = views(kept@);
        if items[i].len() > 0 {
            let piece = copy_chars(items[i].as_slice());
            kept.push(piece);
        }
        i = i + 1;
        proof {
            let t = views(items@).take(i as int);
            assert(t.drop_last() =~= views(items@).take(i - 1));
            assert(views(kept@) =~= drop_empty(t));
        }
    }
    assert(views(items@).take(n as int) =~= views(items@));
    push_join(out, &kept, sep);
}

/// A fresh vector holding the characters of `s`.
pub fn copy_chars(s: &[char]) -> (r: Vec<char>)
    ensures
        r@ == s@,
{
    let mut r: Vec<char> = Vec::new();
    push_slice(&mut r, s);
    r
}

/// Appends the characters of `s` to `out`.
pub fn push_slice(out: &mut Vec<char>, s: &[char])
    ensures
        final(out)@ == old(out)@ + s@,
{
    let ghost start = out@;
    let mut i: usize = 0;
    while i < s.len()
        invariant
            i <= s@.len(),
            out@ == start + s@.take(i as int),
        decreases s@.len() - i,
    {
        out.push(s[i]);
        i = i + 1;
        assert(out@ =~= start + s@.take(i as int));
    }
    assert(s@.take(i as int) =~= s@);
}

/// Appends the characters of `s` to `out`.
pub fn push_str(out: &mut Vec<char>, s: &str)
    ensures
        final(out)@ == old(out)@ + s@,
{
    let v = chars_of(s);
    push_slice(out, v.as_slice());
}

/// Whether `s` consists of exactly the characters of `lit`.
pub fn eq_str(s: &[char], lit: &str) -> (r: bool)
    ensures
        r == (s@ == lit@),
{
    let v = chars_of(lit);
    if s.len() != v.len() {
        return false;
    }
    let mut i: usize = 0;
    while i < s.len()
        invariant
            i <= s@.len() == v@.len(),
            v@ == lit@,
            s@.take(i as int) == v@.take(i as int),
        decreases s@.len() - i,
    {
        if s[i] != v[i] {
            assert(s@[i as int] != lit@[i as int]);
            return false;
        }
        i = i + 1;
        assert(s@.take(i as int) =~= v@.take(i as int));
    }
    assert(s@ =~= s@.take(i as int));
    assert(v@ =~= v@.take(i as int));
    true
}

/// Whether `s` begins with the characters of `lit`.
pub fn starts_with_str(s: &[char], lit: &str) -> (r: bool)
    ensures
        r == (lit@.len() <= s@.len() && s@.subrange(0, lit@.len() as int) == lit@),
{
    let v = chars_of(lit);
    if s.len() < v.len() {
        return false;
    }
    let r = eq_str(&s[0..v.len()], lit);
    assert(s@.subrange(0, v@.len() as int) =~= s@.subrange(0, lit@.len() as int));
    r
}


/// The digit character for `d` in bases up to sixteen, upper case.
pub open spec fn digit(d: nat) -> char {
    if d < 10 {
        (48 + d) as char
    } else {
        (55 + d) as char
    }
}

/// Two upper-case hexadecimal digits of `x`, as `{:02X}` prints it.
pub open spec fn hex2(x: u8) -> Seq<char> {
    seq![digit((x / 16) as nat), digit((x % 16) as nat)]
}

/// Eight binary digits of `x`, most significant first, as `{:08b}` prints it.
pub open spec fn bin8(x: u8) -> Seq<char> {
    Seq::new(8, |i: int| if (x >> ((7 - i) as u8)) & 1 == 1 { '1' } else { '0' })
}

/// Decimal digits of `n` without leading zeros, as `{}` prints it.
pub open spec fn dec(n: nat) -> Seq<char>
    decreases n,
{
    if n < 10 {
        seq![digit(n)]
    } else {
        dec(n / 10).push(digit(n % 10))
    }
}

/// The character of the digit `d`.
pub fn digit_char(d: u8) -> (c: char)
    requires
        d < 16,
    ensures
        c == digit(d as nat),
{
    if d < 10 {
        (48u8 + d) as char
    } else {
        (55u8 + d) as char
    }
}

/// Appends two upper-case hexadecimal digits of `x`.
pub fn push_hex2(out: &mut Vec<char>, x: u8)
    ensures
        final(out)@ == old(out)@ + hex2(x),
{
    out.push(digit_char(x / 16));
    out.push(digit_char(x % 16));
    assert(out@ =~= old(out)@ + hex2(x));
}

/// Appends eight binary digits of `x`.
pub fn push_bin8(out: &mut Vec<char>, x: u8)
    ensures
        final(out)@ == old(out)@ + bin8(x),
{
    let ghost start = out@;
    let mut i: u8 = 0;
    while i < 8
        invariant
            i <= 8,
            out@ == start + bin8(x).take(i as int),
        decreases 8 - i,
    {
        let b = if (x >> (7 - i)) & 1 == 1 {
            '1'
        } else {
            '0'
        };
        out.push(b);
        i = i + 1;
        assert(out@ =~= start + bin8(x).take(i as int));
    }
    assert(bin8(x).take(8) =~= bin8(x));
}

/// Appends the decimal digits of `n`.
pub fn push_dec(out: &mut Vec<char>, n: u32)
    ensures
        final(out)@ == old(out)@ + dec(n as nat),
    decreases n,
{
    if n >= 10 {
        push_dec(out, n / 10);
    }
    out.push(digit_char((n % 10) as u8));
    assert(out@ =~= old(out)@ + dec(n as nat));
}

/// A `String` holding the characters of `v`.
///
/// Calls `FromIterator<&char>` of `String`; the contract claims that the
/// string's characters are those of `v`, in order.
#[verifier::external_body]
pub(crate) fn string_of(v: &[char]) -> (s: String)
    ensures
        s@ == v@,
{
    v.iter().collect()
}

} // verus!
