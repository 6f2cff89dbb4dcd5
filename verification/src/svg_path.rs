//! SVG path data (the `d` attribute of the icons): its words, and the
//! drawing steps they spell out.
//!
//! The grammar is the small one the icon set needs: the commands `M`, `L`,
//! `C` and `Z` in upper case (absolute) or lower case (relative), each
//! followed by its coordinates as separate words. Any other word is skipped.
//! A coordinate word that is missing at the end of the data is `None`; a
//! backend reads a coordinate that is missing or not a number as zero.
use crate::text::{chars_of, string_of};
use crate::widget::code_block::is_whitespace;
use vstd::prelude::*;

verus! {

/// The words of `s` as `str::split_whitespace` gives them: the maximal runs
/// of characters that are not whitespace.
pub open spec fn words(s: Seq<char>) -> Seq<Seq<char>>
    decreases s.len(),
{
    if s.len() == 0 {
        seq![]
    } else {
        let w = words(s.drop_last());
        let c = s.last();
        if is_whitespace(c) {
            w
        } else if s.len() >= 2 && !is_whitespace(s[s.len() - 2]) {
            w.update(w.len() - 1, w.last().push(c))
        } else {
            w.push(seq![c])
        }
    }
}

/// The character sequences held by a vector of character vectors.
pub open spec fn char_views(v: Seq<Vec<char>>) -> Seq<Seq<char>> {
    Seq::new(v.len(), |k: int| v[k]@)
}

/// The words of `cs`.
fn split_words(cs: &Vec<char>) -> (r: Vec<Vec<char>>)
    ensures
        char_views(r@) == words(cs@),
{
    let mut done: Vec<Vec<char>> = Vec::new();
    let mut cur: Vec<char> = Vec::new();
    let mut i: usize = 0;
    while i < cs.len()
        invariant
            i <= cs@.len(),
            cur@.len() > 0 <==> (i > 0 && !is_whitespace(cs@[i - 1])),
            words(cs@.take(i as int)) == char_views(done@) + (if cur@.len() > 0 {
                seq![cur@]
            } else {
                Seq::<Seq<char>>::empty()
            }),
        decreases cs@.len() - i,
    {
        let c = cs[i];
        let ghost before = cs@.take(i as int);
        proof {
            assert(cs@.take(i + 1).drop_last() =~= before);
            assert(cs@.take(i + 1).last() == c);
        }
        if is_ws(c) {
            if cur.len() > 0 {
                let ghost old_done = done@;
                done.push(cur);
                proof {
                    assert(char_views(done@) =~= char_views(old_done) + seq![cur@]);
                }
                cur = Vec::new();
            }
        } else {
            let ghost old_cur = cur@;
            cur.push(c);
            proof {
                if old_cur.len() > 0 {
                    let w = words(before);
                    assert(w.update(w.len() - 1, w.last().push(c)) =~= char_views(done@) + seq![
                        cur@,
                    ]);
                } else {
                    assert(cs@.take(i + 1).len() >= 2 ==> cs@.take(i + 1)[i - 1] == cs@[i - 1]);
                    assert(char_views(done@) + Seq::<Seq<char>>::empty() =~= char_views(done@));
                    assert(cur@ =~= seq![c]);
                    assert(words(before).push(seq![c]) =~= char_views(done@) + seq![cur@]);
                }
            }
        }
        i += 1;
    }
    proof {
        assert(cs@.take(cs@.len() as int) =~= cs@);
    }
    if cur.len() > 0 {
        let ghost old_done = done@;
        done.push(cur);
        proof {
            assert(char_views(done@) =~= char_views(old_done) + seq![cur@]);
        }
    } else {
        proof {
            assert(char_views(done@) + Seq::<Seq<char>>::empty() =~= char_views(done@));
        }
    }
    done
}

/// `char::is_whitespace`.
fn is_ws(c: char) -> (r: bool)
    ensures
        r == is_whitespace(c),
{
    let u = c as u32;
    (0x9 <= u && u <= 0xd) || u == 0x20 || u == 0x85 || u == 0xa0 || u == 0x1680 || (0x2000 <= u
        && u <= 0x200a) || u == 0x2028 || u == 0x2029 || u == 0x202f || u == 0x205f || u == 0x3000
}

/// The drawing commands of path data.
#[derive(Clone, Copy, Debug, PartialEq, Eq, Structural)]
pub enum PathCommand {
    /// Start a new subpath at a point (`M`, `m`).
    MoveTo,
    /// A straight line to a point (`L`, `l`).
    LineTo,
    /// A cubic Bézier curve through two control points to a point (`C`, `c`).
    CurveTo,
    /// Close the subpath back to its start (`Z`, `z`).
    ClosePath,
}

/// One drawing step: a command, whether its letter was lower case, and the
/// words that followed it as its coordinates (`None` where the data ended).
///
/// A relative step moves its end point by the coordinates from the current
/// point; the control points of a curve are taken as they are. A line or a
/// curve that comes before any move is preceded by a relative move with no
/// coordinates: a move to the current point.
#[derive(Clone, Debug)]
pub struct PathStep {
    pub command: PathCommand,
    pub relative: bool,
    pub operands: Vec<Option<String>>,
}

/// A step as a value: command, case and coordinate words.
pub type StepView = (PathCommand, bool, Seq<Option<Seq<char>>>);

impl PathStep {
    pub open spec fn view_step(&self) -> StepView {
        (
            self.command,
            self.relative,
            Seq::new(
                self.operands@.len(),
                |k: int|
                    match self.operands@[k] {
                        Some(s) => Some(s@),
                        None => None,
                    },
            ),
        )
    }
}

pub open spec fn step_views(v: Seq<PathStep>) -> Seq<StepView> {
    Seq::new(v.len(), |k: int| v[k].view_step())
}

/// The command a word names, with whether it is lower case.
pub open spec fn command_of(w: Seq<char>) -> Option<(PathCommand, bool)> {
    if w.len() != 1 {
        None
    } else if w[0] == 'M' || w[0] == 'm' {
        Some((PathCommand::MoveTo, w[0] == 'm'))
    } else if w[0] == 'L' || w[0] == 'l' {
        Some((PathCommand::LineTo, w[0] == 'l'))
    } else if w[0] == 'C' || w[0] == 'c' {
        Some((PathCommand::CurveTo, w[0] == 'c'))
    } else if w[0] == 'Z' || w[0] == 'z' {
        Some((PathCommand::ClosePath, w[0] == 'z'))
    } else {
        None
    }
}

/// How many coordinate words a command takes.
pub open spec fn arity(c: PathCommand) -> nat {
    match c {
        PathCommand::MoveTo => 2,
        PathCommand::LineTo => 2,
        PathCommand::CurveTo => 6,
        PathCommand::ClosePath => 0,
    }
}

/// The `n` words at the front of `t`, `None` past its end.
pub open spec fn operands(t: Seq<Seq<char>>, n: nat) -> Seq<Option<Seq<char>>> {
    Seq::new(
        n,
        |k: int|
            if k < t.len() {
                Some(t[k])
            } else {
                None
            },
    )
}

/// `t` without its first `n` words.
pub open spec fn after(t: Seq<Seq<char>>, n: nat) -> Seq<Seq<char>> {
    if n >= t.len() {
        seq![]
    } else {
        t.skip(n as int)
    }
}

/// The steps spelled out by the words `t`; `moved` tells whether a step
/// before them already placed the pen.
pub open spec fn steps(t: Seq<Seq<char>>, moved: bool) -> Seq<StepView>
    decreases t.len(),
{
    if t.len() == 0 {
        seq![]
    } else {
        let rest = t.drop_first();
        match command_of(t[0]) {
            None => steps(rest, moved),
            Some((c, rel)) => {
                let n = arity(c);
                let lead: Seq<StepView> = if !moved && (c == PathCommand::LineTo || c
                    == PathCommand::CurveTo) {
                    seq![(PathCommand::MoveTo, true, Seq::<Option<Seq<char>>>::empty())]
                } else {
                    seq![]
                };
                lead + seq![(c, rel, operands(rest, n))] + steps(
                    after(rest, n),
                    moved || c != PathCommand::ClosePath,
                )
            },
        }
    }
}

/// Law: exactly the one-letter words M, L, C, Z (in either case) name a
/// command: M a move, L a line, C a curve, Z a close; and a step is
/// relative exactly when its letter is lower case.
pub proof fn lemma_command_letters(w: Seq<char>)
    ensures
        command_of(w) is Some <==> w.len() == 1 && (w[0] == 'M' || w[0] == 'm' || w[0] == 'L' || w[0] == 'l'
            || w[0] == 'C' || w[0] == 'c' || w[0] == 'Z' || w[0] == 'z'),
        command_of(w) matches Some((c, rel)) ==> {
            &&& rel <==> ('a' <= w[0] && w[0] <= 'z')
            &&& (c == PathCommand::MoveTo <==> (w[0] == 'M' || w[0] == 'm'))
            &&& (c == PathCommand::LineTo <==> (w[0] == 'L' || w[0] == 'l'))
            &&& (c == PathCommand::CurveTo <==> (w[0] == 'C' || w[0] == 'c'))
            &&& (c == PathCommand::ClosePath <==> (w[0] == 'Z' || w[0] == 'z'))
        },
{
}

/// The command a word names.
fn command_word(w: &Vec<char>) -> (r: Option<(PathCommand, bool)>)
    ensures
        r == command_of(w@),
{
    if w.len() != 1 {
        return None;
    }
    let c = w[0];
    if c == 'M' || c == 'm' {
        Some((PathCommand::MoveTo, c == 'm'))
    } else if c == 'L' || c == 'l' {
        Some((PathCommand::LineTo, c == 'l'))
    } else if c == 'C' || c == 'c' {
        Some((PathCommand::CurveTo, c == 'c'))
    } else if c == 'Z' || c == 'z' {
        Some((PathCommand::ClosePath, c == 'z'))
    } else {
        None
    }
}

fn arity_of(c: PathCommand) -> (r: usize)
    ensures
        r == arity(c),
{
    match c {
        PathCommand::MoveTo => 2,
        PathCommand::LineTo => 2,
        PathCommand::CurveTo => 6,
        PathCommand::ClosePath => 0,
    }
}

/// The drawing steps of the path data `d`.
pub fn parse_svg_path(d: &str) -> (r: Vec<PathStep>)
    ensures
        step_views(r@) == steps(words(d@), false),
{
    let cs = chars_of(d);
    let toks = split_words(&cs);
    let ghost t = char_views(toks@);
    let len = toks.len();
    let mut out: Vec<PathStep> = Vec::new();
    let mut moved = false;
    let mut i: usize = 0;
    proof {
        assert(t.skip(0) =~= t);
        assert(step_views(out@) + steps(t, false) =~= steps(t, false));
    }
    while i < len
        invariant
            len == toks@.len(),
            t == char_views(toks@),
            t == words(d@),
            i <= len,
            step_views(out@) + steps(t.skip(i as int), moved) == steps(t, false),
        decreases len - i,
    {
        let ghost here = t.skip(i as int);
        proof {
            assert(here[0] == t[i as int]);
            assert(here.drop_first() =~= t.skip(i + 1));
        }
        match command_word(&toks[i]) {
            None => {
                i += 1;
            },
            Some((c, rel)) => {
                let n = arity_of(c);
                let ghost rest = t.skip(i + 1);
                if !moved && (c == PathCommand::LineTo || c == PathCommand::CurveTo) {
                    let ghost before = step_views(out@);
                    let lead = PathStep {
                        command: PathCommand::MoveTo,
                        relative: true,
                        operands: Vec::new(),
                    };
                    proof {
                        assert(lead.view_step().2 =~= Seq::<Option<Seq<char>>>::empty());
                    }
                    out.push(lead);
                    proof {
                        assert(step_views(out@) =~= before + seq![
                            (PathCommand::MoveTo, true, Seq::<Option<Seq<char>>>::empty()),
                        ]);
                    }
                }
                let avail = len - i - 1;
                let mut ops: Vec<Option<String>> = Vec::new();
                let mut k: usize = 0;
                while k < n
                    invariant
                        len == toks@.len(),
                        t == char_views(toks@),
                        i < len,
                        avail == len - i - 1,
                        n <= 6,
                        k <= n,
                        rest == t.skip(i + 1),
                        ops@.len() == k,
                        forall|j: int|
                            0 <= j < k ==> (match #[trigger] ops@[j] {
                                Some(s) => Some(s@),
                                None => None,
                            }) == operands(rest, n as nat)[j],
                    decreases n - k,
                {
                    if k < avail {
                        let s = string_of(&toks[i + 1 + k]);
                        ops.push(Some(s));
                    } else {
                        ops.push(None);
                    }
                    k += 1;
                }
                let ghost before = step_views(out@);
                let step = PathStep { command: c, relative: rel, operands: ops };
                proof {
                    assert(step.view_step().2 =~= operands(rest, n as nat));
                }
                out.push(step);
                proof {
                    assert(step_views(out@) =~= before + seq![step.view_step()]);
                    if n >= avail {
                        assert(after(rest, n as nat) =~= t.skip(len as int));
                    } else {
                        assert(after(rest, n as nat) =~= t.skip(i + 1 + n));
                    }
                }
                moved = moved || c != PathCommand::ClosePath;
                i = if n < avail {
                    i + 1 + n
                } else {
                    len
                };
            },
        }
    }
    proof {
        assert(t.skip(len as int) =~= Seq::<Seq<char>>::empty());
        assert(step_views(out@) + Seq::<StepView>::empty() =~= step_views(out@));
    }
    out
}

} // verus!
