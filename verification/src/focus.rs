//! Keyboard focus traversal: Tab / Shift+Tab cycle through the focusable
//! widgets in order, wrapping around; an open focus trap (such as a modal
//! dialog) pulls the focus inside it.
use crate::text::same_text;
use vstd::prelude::*;

verus! {

/// The index Tab (or Shift+Tab, `backwards`) moves to among `n` focusable
/// widgets, from the focused one at `cur` (or from none).
pub open spec fn tab_target(n: int, cur: Option<int>, backwards: bool) -> int {
    if backwards {
        match cur {
            Some(i) => (i + n - 1) % n,
            None => n - 1,
        }
    } else {
        match cur {
            Some(i) => (i + 1) % n,
            None => 0,
        }
    }
}

/// First position of `id` in `ids`.
pub open spec fn first_position(ids: Seq<String>, id: Seq<char>) -> Option<int> {
    if exists|i: int| 0 <= i < ids.len() && ids[i]@ == id {
        Some(choose|i: int| 0 <= i < ids.len() && ids[i]@ == id && forall|j: int| 0 <= j < i ==> ids[j]@ != id)
    } else {
        None
    }
}

/// Where `id` stands in `ids` (its first occurrence), if anywhere.
pub fn position_of_id(ids: &Vec<String>, id: &str) -> (r: Option<usize>)
    ensures
        r matches Some(i) ==> i < ids@.len(),
        match r {
            Some(i) => first_position(ids@, id@) == Some(i as int),
            None => first_position(ids@, id@) is None,
        },
{
    let mut i: usize = 0;
    while i < ids.len()
        invariant
            i <= ids@.len(),
            forall|j: int| 0 <= j < i ==> ids@[j]@ != id@,
        decreases ids@.len() - i,
    {
        if same_text(ids[i].as_str(), id) {
            proof {
                assert(0 <= i < ids@.len() && ids@[i as int]@ == id@ && forall|j: int| 0 <= j < i ==> ids@[j]@ != id@);
                let w = choose|k: int| 0 <= k < ids@.len() && ids@[k]@ == id@ && forall|j: int| 0 <= j < k ==> ids@[j]@ != id@;
                if w < i {
                }
                if w > i {
                }
                assert(w == i);
            }
            return Some(i);
        }
        i += 1;
    }
    None
}

/// The index Tab / Shift+Tab moves to among `count` focusable widgets.
pub fn next_focus_index(count: usize, current: Option<usize>, backwards: bool) -> (r: usize)
    requires
        count > 0,
        current matches Some(i) ==> i < count,
    ensures
        r == tab_target(
            count as int,
            match current {
                Some(i) => Some(i as int),
                None => None,
            },
            backwards,
        ),
        r < count,
{
    match current {
        Some(i) => {
            if backwards {
                let r = if i == 0 { count - 1 } else { i - 1 };
                proof {
                    if i == 0 {
                        assert((i + count - 1) % (count as int) == count - 1) by (nonlinear_arith)
                            requires i == 0, count > 0;
                    } else {
                        assert((i + count - 1) % (count as int) == i - 1) by (nonlinear_arith)
                            requires 0 < i < count;
                    }
                }
                r
            } else {
                let r = if i + 1 == count { 0 } else { i + 1 };
                proof {
                    if i + 1 == count {
                        assert((i + 1) % (count as int) == 0) by (nonlinear_arith)
                            requires i + 1 == count, count > 0;
                    } else {
                        assert((i + 1) % (count as int) == i + 1) by (nonlinear_arith)
                            requires i + 1 < count;
                    }
                }
                r
            }
        },
        None => if backwards {
            count - 1
        } else {
            0
        },
    }
}

/// Where Tab (or Shift+Tab) moves the focus among the focusable widgets
/// `ids`, from the focused widget `current`; `None` when nothing is focusable.
pub fn cycle_focus(ids: &Vec<String>, current: Option<&str>, backwards: bool) -> (r: Option<usize>)
    ensures
        ids@.len() == 0 ==> r is None,
        ids@.len() > 0 ==> r == Some(
            tab_target(
                ids@.len() as int,
                match current {
                    Some(c) => first_position(ids@, c@),
                    None => None,
                },
                backwards,
            ) as usize,
        ),
{
    if ids.len() == 0 {
        return None;
    }
    let cur = match current {
        Some(c) => position_of_id(ids, c),
        None => None,
    };
    proof {
        if let Some(c) = current {
            if let Some(i) = cur {
                let w = choose|k: int| 0 <= k < ids@.len() && ids@[k]@ == c@ && forall|j: int| 0 <= j < k ==> ids@[j]@ != c@;
                assert(w == i);
            }
        }
    }
    Some(next_focus_index(ids.len(), cur, backwards))
}

/// With an open focus trap holding the focusable widgets `trap_ids`, the
/// index inside it the focus must move to: its first widget, when the
/// focused widget is elsewhere; `None` when focus may stay.
pub fn trap_focus(trap_ids: &Vec<String>, current: Option<&str>) -> (r: Option<usize>)
    ensures
        r is Some <==> (trap_ids@.len() > 0 && match current {
            Some(c) => first_position(trap_ids@, c@) is None,
            None => true,
        }),
        r is Some ==> r == Some(0usize),
{
    if trap_ids.len() == 0 {
        return None;
    }
    let inside = match current {
        Some(c) => position_of_id(trap_ids, c).is_some(),
        None => false,
    };
    if inside {
        None
    } else {
        Some(0)
    }
}

pub open spec fn opt_text(o: Option<&str>) -> Option<Seq<char>> {
    match o {
        Some(s) => Some(s@),
        None => None,
    }
}

/// Moving the focus from `current` to `next`: `None` when they are the same
/// widget (nothing happens); otherwise the widget that loses the focus and
/// the one that gains it, either possibly absent.
pub fn focus_transition<'a>(current: Option<&'a str>, next: Option<&'a str>) -> (r: Option<(Option<&'a str>, Option<&'a str>)>)
    ensures
        r is None <==> opt_text(current) == opt_text(next),
        r is Some ==> r == Some((current, next)),
{
    let same = match (current, next) {
        (Some(a), Some(b)) => same_text(a, b),
        (None, None) => true,
        _ => false,
    };
    if same {
        None
    } else {
        Some((current, next))
    }
}

/// Law: Shift+Tab undoes Tab, and Tab undoes Shift+Tab.
pub proof fn lemma_tab_shift_tab_inverse(n: int, i: int)
    requires
        0 <= i < n,
    ensures
        tab_target(n, Some(tab_target(n, Some(i), false)), true) == i,
        tab_target(n, Some(tab_target(n, Some(i), true)), false) == i,
{
    assert(tab_target(n, Some(tab_target(n, Some(i), false)), true) == i) by (nonlinear_arith)
        requires 0 <= i < n,
    {
        if i + 1 == n {
            assert((i + 1) % n == 0);
            assert((0 + n - 1) % n == n - 1);
        } else {
            assert((i + 1) % n == i + 1);
            assert((i + 1 + n - 1) % n == i);
        }
    }
    assert(tab_target(n, Some(tab_target(n, Some(i), true)), false) == i) by (nonlinear_arith)
        requires 0 <= i < n,
    {
        if i == 0 {
            assert((0 + n - 1) % n == n - 1);
            assert((n - 1 + 1) % n == 0);
        } else {
            assert((i + n - 1) % n == i - 1);
            assert((i - 1 + 1) % n == i);
        }
    }
}

/// After `k` presses of Tab from `i` the focus is `k` places on, around the ring.
pub proof fn lemma_tab_iterate(n: int, i: int, k: nat)
    requires
        0 <= i < n,
    ensures
        tab_iterate(n, i, k) == (i + k) % n,
    decreases k,
{
    if k == 0 {
        assert(i % n == i) by (nonlinear_arith)
            requires 0 <= i < n;
    } else {
        lemma_tab_iterate(n, i, (k - 1) as nat);
        let p = (i + k - 1) % n;
        assert(0 <= p < n) by (nonlinear_arith)
            requires n > 0, p == (i + k - 1) % n;
        assert((p + 1) % n == (i + k) % n) by (nonlinear_arith)
            requires n > 0, p == (i + k - 1) % n, i + k - 1 >= 0;
    }
}

/// Law: `n` presses of Tab among `n` focusable widgets come back to the start.
pub proof fn lemma_tab_cycle_returns(n: int, i: int)
    requires
        0 <= i < n,
    ensures
        tab_iterate(n, i, n as nat) == i,
{
    lemma_tab_iterate(n, i, n as nat);
    assert((i + n) % n == i) by (nonlinear_arith)
        requires 0 <= i < n;
}

/// The focused index after `k` presses of Tab from `i`.
pub open spec fn tab_iterate(n: int, i: int, k: nat) -> int
    decreases k,
{
    if k == 0 {
        i
    } else {
        tab_target(n, Some(tab_iterate(n, i, (k - 1) as nat)), false)
    }
}

} // verus!
