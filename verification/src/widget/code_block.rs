//! Code blocks: the text of a code block is shown without its surrounding
//! blank lines and without the indentation its lines have in common.
use crate::text::{chars_of, string_of};
use vstd::prelude::*;

verus! {

/// `char::is_whitespace`: the characters with the Unicode White_Space
/// property.
pub open spec fn is_whitespace(c: char) -> bool {
    let u = c as u32;
    (0x9 <= u && u <= 0xd) || u == 0x20 || u == 0x85 || u == 0xa0 || u == 0x1680 || (0x2000 <= u
        && u <= 0x200a) || u == 0x2028 || u == 0x2029 || u == 0x202f || u == 0x205f || u == 0x3000
}

/// The number of bytes of `c` in UTF-8.
pub open spec fn utf8_width(c: char) -> int {
    let u = c as u32;
    if u < 0x80 {
        1
    } else if u < 0x800 {
        2
    } else if u < 0x10000 {
        3
    } else {
        4
    }
}

/// The number of bytes of `s` in UTF-8.
pub open spec fn byte_len(s: Seq<char>) -> int
    decreases s.len(),
{
    if s.len() == 0 {
        0
    } else {
        byte_len(s.drop_last()) + utf8_width(s.last())
    }
}

pub open spec fn trim_lf_start(s: Seq<char>) -> Seq<char>
    decreases s.len(),
{
    if s.len() > 0 && s[0] == '\n' {
        trim_lf_start(s.drop_first())
    } else {
        s
    }
}

pub open spec fn trim_lf_end(s: Seq<char>) -> Seq<char>
    decreases s.len(),
{
    if s.len() > 0 && s.last() == '\n' {
        trim_lf_end(s.drop_last())
    } else {
        s
    }
}

/// `s` without the line feeds at its start and end (`trim_matches('\n')`).
pub open spec fn trim_lf(s: Seq<char>) -> Seq<char> {
    trim_lf_end(trim_lf_start(s))
}

/// The pieces of `t` between its line feeds (`split('\n')`).
pub open spec fn lf_pieces(t: Seq<char>) -> Seq<Seq<char>>
    decreases t.len(),
{
    if t.len() == 0 {
        seq![Seq::<char>::empty()]
    } else {
        let p = lf_pieces(t.drop_last());
        if t.last() == '\n' {
            p.push(Seq::<char>::empty())
        } else {
            p.update(p.len() - 1, p.last().push(t.last()))
        }
    }
}

/// A line ended by `\r\n` loses its `\r`.
pub open spec fn strip_cr(p: Seq<char>) -> Seq<char> {
    if p.len() > 0 && p.last() == '\r' {
        p.drop_last()
    } else {
        p
    }
}

/// The lines of `t` as `str::lines` gives them: split at `\n` or `\r\n`,
/// with no empty line after a final line feed.
pub open spec fn text_lines(t: Seq<char>) -> Seq<Seq<char>> {
    if t.len() == 0 {
        seq![]
    } else {
        let p = lf_pieces(t);
        let body = Seq::new((p.len() - 1) as nat, |j: int| strip_cr(p[j]));
        if t.last() == '\n' {
            body
        } else {
            body.push(p.last())
        }
    }
}

/// The number of whitespace characters `l` starts with.
pub open spec fn lead_ws(l: Seq<char>) -> int
    decreases l.len(),
{
    if l.len() > 0 && is_whitespace(l[0]) {
        1 + lead_ws(l.drop_first())
    } else {
        0
    }
}

/// A line holding nothing but whitespace (`trim().is_empty()`).
pub open spec fn blank(l: Seq<char>) -> bool {
    forall|i: int| 0 <= i < l.len() ==> is_whitespace(#[trigger] l[i])
}

/// The bytes of a line's indentation (`len() - trim_start().len()`).
pub open spec fn indent_bytes(l: Seq<char>) -> int {
    byte_len(l.take(lead_ws(l)))
}

/// The least indentation among the lines that are not blank.
pub open spec fn min_indent(ls: Seq<Seq<char>>) -> Option<int>
    decreases ls.len(),
{
    if ls.len() == 0 {
        None
    } else {
        let rest = min_indent(ls.drop_last());
        let l = ls.last();
        if blank(l) {
            rest
        } else {
            match rest {
                None => Some(indent_bytes(l)),
                Some(m) => Some(
                    if m <= indent_bytes(l) {
                        m
                    } else {
                        indent_bytes(l)
                    },
                ),
            }
        }
    }
}

/// The indentation removed from every line: the least one, 0 when every
/// line is blank.
pub open spec fn common_indent(ls: Seq<Seq<char>>) -> int {
    match min_indent(ls) {
        Some(m) => m,
        None => 0,
    }
}

/// Byte `m` of `l` falls between two characters.
pub open spec fn cuttable(l: Seq<char>, m: int) -> bool {
    exists|k: int| 0 <= k <= l.len() && byte_len(l.take(k)) == m
}

/// `l` without its first `m` bytes, when it has that many (`l[m..]`).
pub open spec fn dedent(l: Seq<char>, m: int) -> Seq<char> {
    if byte_len(l) >= m {
        l.skip(choose|k: int| 0 <= k <= l.len() && byte_len(l.take(k)) == m)
    } else {
        l
    }
}

pub open spec fn code_lines(code: Seq<char>) -> Seq<Seq<char>> {
    text_lines(trim_lf(code))
}

/// Every line long enough to lose the common indentation can lose it
/// without splitting a character (otherwise the byte slicing would fail).
pub open spec fn strippable(code: Seq<char>) -> bool {
    let ls = code_lines(code);
    let m = common_indent(ls);
    forall|j: int| 0 <= j < ls.len() ==> byte_len(#[trigger] ls[j]) >= m ==> cuttable(ls[j], m)
}

/// The lines of a code block as shown: surrounding line feeds trimmed, then
/// the common indentation removed from each line.
pub open spec fn stripped(code: Seq<char>) -> Seq<Seq<char>> {
    let ls = code_lines(code);
    let m = common_indent(ls);
    Seq::new(ls.len(), |j: int| dedent(ls[j], m))
}

pub open spec fn range_views(cs: Seq<char>, rs: Seq<(usize, usize)>) -> Seq<Seq<char>> {
    Seq::new(rs.len(), |j: int| cs.subrange(rs[j].0 as int, rs[j].1 as int))
}

proof fn lemma_pieces_nonempty(t: Seq<char>)
    ensures
        lf_pieces(t).len() >= 1,
    decreases t.len(),
{
    if t.len() > 0 {
        lemma_pieces_nonempty(t.drop_last());
    }
}

proof fn lemma_byte_len_step(s: Seq<char>, k: int)
    requires
        0 <= k < s.len(),
    ensures
        byte_len(s.take(k + 1)) == byte_len(s.take(k)) + utf8_width(s[k]),
{
    assert(s.take(k + 1).drop_last() =~= s.take(k));
}

proof fn lemma_byte_len_increasing(s: Seq<char>, k1: int, k2: int)
    requires
        0 <= k1 < k2 <= s.len(),
    ensures
        byte_len(s.take(k1)) < byte_len(s.take(k2)),
    decreases k2 - k1,
{
    lemma_byte_len_step(s, k2 - 1);
    if k1 < k2 - 1 {
        lemma_byte_len_increasing(s, k1, k2 - 1);
    }
}

proof fn lemma_byte_len_whole(s: Seq<char>)
    ensures
        byte_len(s.take(s.len() as int)) == byte_len(s),
{
    assert(s.take(s.len() as int) =~= s);
}

/// The bounds of `cs` without its leading and trailing line feeds.
fn trim_bounds(cs: &Vec<char>) -> (r: (usize, usize))
    ensures
        r.0 <= r.1 <= cs@.len(),
        cs@.subrange(r.0 as int, r.1 as int) == trim_lf(cs@),
{
    let n = cs.len();
    let mut s: usize = 0;
    assert(cs@.skip(0) =~= cs@);
    while s < n && cs[s] == '\n'
        invariant
            s <= n == cs@.len(),
            trim_lf_start(cs@) == trim_lf_start(cs@.skip(s as int)),
        decreases n - s,
    {
        assert(cs@.skip(s as int).drop_first() =~= cs@.skip(s + 1));
        s += 1;
    }
    let ghost u = cs@.skip(s as int);
    assert(trim_lf_start(u) == u);
    let mut e: usize = n;
    assert(u.take(e - s) =~= u);
    while e > s && cs[e - 1] == '\n'
        invariant
            s <= e <= n == cs@.len(),
            u == cs@.skip(s as int),
            trim_lf(cs@) == trim_lf_end(u.take(e - s)),
        decreases e - s,
    {
        assert(u.take(e - s).drop_last() =~= u.take(e - s - 1));
        e -= 1;
    }
    assert(cs@.subrange(s as int, e as int) =~= u.take(e - s));
    (s, e)
}

/// The lines of `cs[s..e]`, as ranges of `cs`.
fn line_ranges(cs: &Vec<char>, s: usize, e: usize) -> (r: Vec<(usize, usize)>)
    requires
        s <= e <= cs@.len(),
    ensures
        forall|j: int| 0 <= j < r@.len() ==> s <= (#[trigger] r@[j]).0 <= r@[j].1 <= e,
        range_views(cs@, r@) == text_lines(cs@.subrange(s as int, e as int)),
{
    let ghost t = cs@.subrange(s as int, e as int);
    let mut done: Vec<(usize, usize)> = Vec::new();
    let mut start: usize = s;
    let mut i: usize = s;
    proof {
        assert(t.take(0) =~= Seq::<char>::empty());
        assert(cs@.subrange(s as int, s as int) =~= Seq::<char>::empty());
    }
    while i < e
        invariant
            s <= start <= i <= e <= cs@.len(),
            t == cs@.subrange(s as int, e as int),
            forall|j: int| 0 <= j < done@.len() ==> s <= (#[trigger] done@[j]).0 <= done@[j].1 <= i,
            lf_pieces(t.take(i - s)).len() == done@.len() + 1,
            forall|j: int|
                0 <= j < done@.len() ==> cs@.subrange((#[trigger] done@[j]).0 as int, done@[j].1 as int)
                    == strip_cr(lf_pieces(t.take(i - s))[j]),
            cs@.subrange(start as int, i as int) == lf_pieces(t.take(i - s)).last(),
        decreases e - i,
    {
        let ghost p = lf_pieces(t.take(i - s));
        proof {
            assert(t.take(i + 1 - s).drop_last() =~= t.take(i - s));
            assert(t.take(i + 1 - s).last() == cs@[i as int]);
            lemma_pieces_nonempty(t.take(i - s));
        }
        if cs[i] == '\n' {
            let end = if i > start && cs[i - 1] == '\r' {
                i - 1
            } else {
                i
            };
            proof {
                let piece = cs@.subrange(start as int, i as int);
                if i > start && cs@[i - 1] == '\r' {
                    assert(piece.last() == '\r');
                    assert(piece.drop_last() =~= cs@.subrange(start as int, end as int));
                } else {
                    assert(piece =~= cs@.subrange(start as int, end as int));
                }
            }
            done.push((start, end));
            start = i + 1;
            proof {
                assert(cs@.subrange(start as int, i + 1) =~= Seq::<char>::empty());
            }
        } else {
            proof {
                assert(cs@.subrange(start as int, i + 1) =~= cs@.subrange(start as int, i as int).push(
                    cs@[i as int],
                ));
            }
        }
        i += 1;
    }
    proof {
        assert(t.take(e - s) =~= t);
    }
    let ghost p = lf_pieces(t);
    if e > s && cs[e - 1] != '\n' {
        done.push((start, e));
    }
    proof {
        if t.len() == 0 {
            assert(range_views(cs@, done@) =~= text_lines(t));
        } else {
            assert(t.last() == cs@[e - 1]);
            let body = Seq::new((p.len() - 1) as nat, |j: int| strip_cr(p[j]));
            if t.last() == '\n' {
                assert(range_views(cs@, done@) =~= body);
            } else {
                assert(range_views(cs@, done@) =~= body.push(p.last()));
            }
        }
    }
    done
}

fn is_whitespace_char(c: char) -> (r: bool)
    ensures
        r == is_whitespace(c),
{
    let u: u32 = c as u32;
    (0x9 <= u && u <= 0xd) || u == 0x20 || u == 0x85 || u == 0xa0 || u == 0x1680 || (0x2000 <= u
        && u <= 0x200a) || u == 0x2028 || u == 0x2029 || u == 0x202f || u == 0x205f || u == 0x3000
}

fn width_of(c: char) -> (r: u128)
    ensures
        r == utf8_width(c),
{
    let u: u32 = c as u32;
    if u < 0x80 {
        1
    } else if u < 0x800 {
        2
    } else if u < 0x10000 {
        3
    } else {
        4
    }
}

/// How many whitespace characters `cs[a..b]` starts with.
fn lead_count(cs: &Vec<char>, a: usize, b: usize) -> (r: usize)
    requires
        a <= b <= cs@.len(),
    ensures
        r <= b - a,
        r == lead_ws(cs@.subrange(a as int, b as int)),
        forall|j: int| 0 <= j < r ==> is_whitespace(#[trigger] cs@.subrange(a as int, b as int)[j]),
        r < b - a ==> !is_whitespace(cs@.subrange(a as int, b as int)[r as int]),
{
    let ghost l = cs@.subrange(a as int, b as int);
    let mut i: usize = 0;
    assert(l.skip(0) =~= l);
    while a + i < b && is_whitespace_char(cs[a + i])
        invariant
            a + i <= b <= cs@.len(),
            l == cs@.subrange(a as int, b as int),
            forall|j: int| 0 <= j < i ==> is_whitespace(#[trigger] l[j]),
            lead_ws(l) == i + lead_ws(l.skip(i as int)),
        decreases b - a - i,
    {
        proof {
            assert(l.skip(i as int)[0] == l[i as int]);
            assert(l.skip(i as int).drop_first() =~= l.skip(i + 1));
        }
        i += 1;
    }
    proof {
        if a + i < b {
            assert(l.skip(i as int)[0] == l[i as int]);
        } else {
            assert(l.skip(i as int).len() == 0);
        }
    }
    i
}

/// The UTF-8 byte count of `cs[a..b]`.
fn byte_count(cs: &Vec<char>, a: usize, b: usize) -> (r: u128)
    requires
        a <= b <= cs@.len(),
    ensures
        r == byte_len(cs@.subrange(a as int, b as int)),
{
    let ghost l = cs@.subrange(a as int, b as int);
    let mut acc: u128 = 0;
    let mut i: usize = a;
    proof {
        assert(l.take(0) =~= Seq::<char>::empty());
    }
    while i < b
        invariant
            a <= i <= b <= cs@.len(),
            l == cs@.subrange(a as int, b as int),
            acc == byte_len(l.take(i - a)),
            acc <= 4 * (i - a),
        decreases b - i,
    {
        proof {
            lemma_byte_len_step(l, i - a);
        }
        acc = acc + width_of(cs[i]);
        i += 1;
    }
    proof {
        lemma_byte_len_whole(l);
    }
    acc
}

/// Where byte `m` of `cs[a..b]` falls between characters, as a character
/// count; `None` when it falls inside one.
fn cut_index(cs: &Vec<char>, a: usize, b: usize, m: u128) -> (r: Option<usize>)
    requires
        a <= b <= cs@.len(),
        byte_len(cs@.subrange(a as int, b as int)) >= m,
    ensures
        match r {
            Some(k) => k <= b - a && byte_len(cs@.subrange(a as int, b as int).take(k as int)) == m,
            None => !cuttable(cs@.subrange(a as int, b as int), m as int),
        },
{
    let ghost l = cs@.subrange(a as int, b as int);
    let mut acc: u128 = 0;
    let mut i: usize = a;
    proof {
        assert(l.take(0) =~= Seq::<char>::empty());
        lemma_byte_len_whole(l);
    }
    while acc < m && i < b
        invariant
            a <= i <= b <= cs@.len(),
            l == cs@.subrange(a as int, b as int),
            acc == byte_len(l.take(i - a)),
            acc <= 4 * (i - a),
            byte_len(l) >= m,
            byte_len(l.take(l.len() as int)) == byte_len(l),
            forall|k: int| 0 <= k < i - a ==> byte_len(#[trigger] l.take(k)) < m,
        decreases b - i,
    {
        proof {
            lemma_byte_len_step(l, i - a);
        }
        acc = acc + width_of(cs[i]);
        i += 1;
    }
    if acc == m {
        Some(i - a)
    } else {
        proof {
            if i == b {
                assert(acc == byte_len(l));
            }
            assert(acc > m);
            assert forall|k: int| 0 <= k <= l.len() implies byte_len(#[trigger] l.take(k)) != m by {
                if k > i - a {
                    lemma_byte_len_increasing(l, i - a, k);
                }
            }
        }
        None
    }
}

/// The common indentation of the lines `rs` of `cs`.
fn indent_of_lines(cs: &Vec<char>, rs: &Vec<(usize, usize)>) -> (r: u128)
    requires
        forall|j: int| 0 <= j < rs@.len() ==> (#[trigger] rs@[j]).0 <= rs@[j].1 <= cs@.len(),
    ensures
        r == common_indent(range_views(cs@, rs@)),
{
    let ghost ls = range_views(cs@, rs@);
    let mut best: Option<u128> = None;
    let mut j: usize = 0;
    proof {
        assert(ls.take(0) =~= Seq::<Seq<char>>::empty());
    }
    while j < rs.len()
        invariant
            j <= rs@.len(),
            ls == range_views(cs@, rs@),
            forall|k: int| 0 <= k < rs@.len() ==> (#[trigger] rs@[k]).0 <= rs@[k].1 <= cs@.len(),
            match best {
                Some(m) => min_indent(ls.take(j as int)) == Some(m as int),
                None => min_indent(ls.take(j as int)) is None,
            },
        decreases rs@.len() - j,
    {
        let (a, b) = rs[j];
        let ghost l = cs@.subrange(a as int, b as int);
        proof {
            assert(ls.take(j + 1).drop_last() =~= ls.take(j as int));
            assert(ls.take(j + 1).last() == l);
        }
        let lead = lead_count(cs, a, b);
        if lead < b - a {
            proof {
                assert(!blank(l));
                assert(l.take(lead as int) =~= cs@.subrange(a as int, a + lead));
            }
            let ind = byte_count(cs, a, a + lead);
            best = match best {
                None => Some(ind),
                Some(m) => Some(if m <= ind { m } else { ind }),
            };
        } else {
            proof {
                assert(blank(l));
            }
        }
        j += 1;
    }
    proof {
        assert(ls.take(rs@.len() as int) =~= ls);
    }
    match best {
        Some(m) => m,
        None => 0,
    }
}

/// The lines of a code block and the indentation they share.
fn plan(code: &str) -> (r: (Vec<char>, Vec<(usize, usize)>, u128))
    ensures
        r.0@ == code@,
        forall|j: int| 0 <= j < r.1@.len() ==> (#[trigger] r.1@[j]).0 <= r.1@[j].1 <= r.0@.len(),
        range_views(r.0@, r.1@) == code_lines(code@),
        r.2 == common_indent(code_lines(code@)),
{
    let cs = chars_of(code);
    let (s, e) = trim_bounds(&cs);
    let rs = line_ranges(&cs, s, e);
    let m = indent_of_lines(&cs, &rs);
    (cs, rs, m)
}

/// Whether the common indentation can be cut from every line of `code`
/// without splitting a character.
pub fn lines_strippable(code: &str) -> (r: bool)
    ensures
        r == strippable(code@),
{
    let (cs, rs, m) = plan(code);
    let ghost ls = code_lines(code@);
    let mut j: usize = 0;
    while j < rs.len()
        invariant
            j <= rs@.len(),
            cs@ == code@,
            forall|k: int| 0 <= k < rs@.len() ==> (#[trigger] rs@[k]).0 <= rs@[k].1 <= cs@.len(),
            range_views(cs@, rs@) == ls,
            ls == code_lines(code@),
            m == common_indent(ls),
            forall|k: int| 0 <= k < j ==> byte_len(#[trigger] ls[k]) >= m ==> cuttable(ls[k], m as int),
        decreases rs@.len() - j,
    {
        let (a, b) = rs[j];
        proof {
            assert(ls[j as int] == cs@.subrange(a as int, b as int));
        }
        if byte_count(&cs, a, b) >= m {
            if cut_index(&cs, a, b, m).is_none() {
                return false;
            }
        }
        j += 1;
    }
    true
}

/// The lines of a code block as it shows them: the line feeds around the
/// code trimmed, and the indentation shared by the lines that are not blank
/// removed from each line.
pub fn stripped_lines(code: &str) -> (r: Vec<String>)
    requires
        strippable(code@),
    ensures
        r@.len() == stripped(code@).len(),
        forall|j: int| 0 <= j < r@.len() ==> (#[trigger] r@[j])@ == stripped(code@)[j],
{
    let (cs, rs, m) = plan(code);
    let ghost ls = code_lines(code@);
    let mut out: Vec<String> = Vec::new();
    let mut j: usize = 0;
    while j < rs.len()
        invariant
            j <= rs@.len(),
            out@.len() == j,
            cs@ == code@,
            forall|k: int| 0 <= k < rs@.len() ==> (#[trigger] rs@[k]).0 <= rs@[k].1 <= cs@.len(),
            range_views(cs@, rs@) == ls,
            ls == code_lines(code@),
            m == common_indent(ls),
            strippable(code@),
            forall|k: int| 0 <= k < j ==> (#[trigger] out@[k])@ == dedent(ls[k], m as int),
        decreases rs@.len() - j,
    {
        let (a, b) = rs[j];
        let ghost l = cs@.subrange(a as int, b as int);
        proof {
            assert(ls[j as int] == l);
        }
        let from = if byte_count(&cs, a, b) >= m {
            match cut_index(&cs, a, b, m) {
                Some(k) => {
                    proof {
                        let c = choose|c: int| 0 <= c <= l.len() && byte_len(l.take(c)) == m;
                        if c < k {
                            lemma_byte_len_increasing(l, c, k as int);
                        }
                        if c > k {
                            lemma_byte_len_increasing(l, k as int, c);
                        }
                        assert(c == k);
                    }
                    a + k
                },
                None => {
                    proof {
                        assert(byte_len(ls[j as int]) >= m ==> cuttable(ls[j as int], m as int));
                    }
                    a
                },
            }
        } else {
            a
        };
        let mut piece: Vec<char> = Vec::new();
        let mut i: usize = from;
        while i < b
            invariant
                a <= from <= i <= b <= cs@.len(),
                piece@ == cs@.subrange(from as int, i as int),
            decreases b - i,
        {
            proof {
                assert(cs@.subrange(from as int, i + 1) =~= cs@.subrange(from as int, i as int).push(
                    cs@[i as int],
                ));
            }
            piece.push(cs[i]);
            i += 1;
        }
        proof {
            assert(l.skip(from - a) =~= cs@.subrange(from as int, b as int));
        }
        out.push(string_of(&piece));
        j += 1;
    }
    out
}

} // verus!
