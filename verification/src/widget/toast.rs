//! Toast / Sonner: a queue of stacked notifications.
//!
//! A `ToastStore` holds the live toasts in the order they were pushed. Each
//! toast may expire after its duration; expiry reads the clock, so the
//! functions that drop expired toasts come in two forms: one that takes the
//! elapsed time of every toast as an argument (exact contract), and one that
//! reads the clock itself (which states what holds whatever the clock says).
use crate::clock::{clock_now, millis_since};
use crate::event::EventStatus;
use crate::style::CursorStyle;
use std::time::Instant;
use vstd::prelude::*;

verus! {

/// Auto-dismiss delay of a new toast, in milliseconds.
pub const DEFAULT_DURATION_MS: u64 = 4000;

/// Visual style for a toast notification.
#[derive(Debug, Clone, Copy, PartialEq, Eq, Structural)]
pub enum ToastVariant {
    Default,
    Success,
    Error,
    Warning,
}

impl Default for ToastVariant {
    fn default() -> (r: Self)
        ensures
            r == ToastVariant::Default,
    {
        ToastVariant::Default
    }
}

/// Corner placement for the toast stack.
#[derive(Debug, Clone, Copy, PartialEq, Eq, Structural)]
pub enum ToastPosition {
    BottomRight,
    BottomLeft,
    TopRight,
    TopLeft,
}

impl Default for ToastPosition {
    fn default() -> (r: Self)
        ensures
            r == ToastPosition::BottomRight,
    {
        ToastPosition::BottomRight
    }
}

/// A single toast message.
#[derive(Debug, Clone)]
pub struct ToastItem {
    pub id: u64,
    pub title: String,
    pub description: Option<String>,
    pub variant: ToastVariant,
    /// Auto-dismiss after this many milliseconds. `0` = persist until closed.
    pub duration_ms: u64,
    pub created: Instant,
}

/// `t` is a toast made by the store's shorthands: the given id, title,
/// description and variant, with the default duration.
pub open spec fn is_fresh_toast(
    t: ToastItem,
    id: u64,
    title: String,
    description: Option<String>,
    variant: ToastVariant,
) -> bool {
    &&& t.id == id
    &&& t.title == title
    &&& t.description == description
    &&& t.variant == variant
    &&& t.duration_ms == DEFAULT_DURATION_MS
}

impl ToastItem {
    /// A new toast with the given id and title, no description, the default
    /// variant and the default duration, created now.
    pub fn new(id: u64, title: String) -> (r: Self)
        requires
            1 <= id,
        ensures
            is_fresh_toast(r, id, title, None, ToastVariant::Default),
    {
        ToastItem {
            id,
            title,
            description: None,
            variant: ToastVariant::Default,
            duration_ms: DEFAULT_DURATION_MS,
            created: clock_now(),
        }
    }

    pub fn description(self, text: String) -> (r: Self)
        ensures
            r.description == Some(text),
            r.id == self.id,
            r.title == self.title,
            r.variant == self.variant,
            r.duration_ms == self.duration_ms,
            r.created == self.created,
    {
        ToastItem { description: Some(text), ..self }
    }

    pub fn variant(self, variant: ToastVariant) -> (r: Self)
        ensures
            r.variant == variant,
            r.id == self.id,
            r.title == self.title,
            r.description == self.description,
            r.duration_ms == self.duration_ms,
            r.created == self.created,
    {
        ToastItem { variant, ..self }
    }

    pub fn duration_ms(self, ms: u64) -> (r: Self)
        ensures
            r.duration_ms == ms,
            r.id == self.id,
            r.title == self.title,
            r.description == self.description,
            r.variant == self.variant,
            r.created == self.created,
    {
        ToastItem { duration_ms: ms, ..self }
    }

    /// The toast is expired once `elapsed_ms` milliseconds have passed since it
    /// was created: it has a duration, and at least that much time passed.
    pub open spec fn spec_expired_after(self, elapsed_ms: int) -> bool {
        self.duration_ms > 0 && elapsed_ms >= self.duration_ms
    }

    /// Whether the toast is expired when `elapsed_ms` whole milliseconds have
    /// passed since it was created.
    pub fn expired_after(&self, elapsed_ms: u128) -> (r: bool)
        ensures
            r == self.spec_expired_after(elapsed_ms as int),
    {
        self.duration_ms > 0 && elapsed_ms >= self.duration_ms as u128
    }

    /// Milliseconds since the toast was created, read from the clock.
    fn age_millis(&self) -> u128 {
        millis_since(&self.created)
    }

    /// Whether the toast is expired now: `expired_after` at its age as read
    /// from the clock (so a toast without a duration never is).
    fn is_expired(&self) -> (r: bool)
        ensures
            exists|e: u128| #[trigger] self.spec_expired_after(e as int) == r,
            r ==> self.duration_ms > 0,
    {
        let age = self.age_millis();
        self.expired_after(age)
    }
}

/// Some toast has a duration and is not yet expired, when `elapsed[i]` is
/// the age of the i-th toast.
pub open spec fn waiting(toasts: Seq<ToastItem>, elapsed: Seq<u128>) -> bool {
    exists|i: int|
        0 <= i < toasts.len() && toasts[i].duration_ms > 0 && !#[trigger] toasts[i].spec_expired_after(
            elapsed[i] as int,
        )
}

/// Some toast in `toasts` carries `id`.
pub open spec fn holds_id(toasts: Seq<ToastItem>, id: u64) -> bool {
    exists|i: int| 0 <= i < toasts.len() && #[trigger] toasts[i].id == id
}

/// Every toast in `toasts` has an id below `next`.
pub open spec fn ids_below(toasts: Seq<ToastItem>, next: u64) -> bool {
    forall|i: int| 0 <= i < toasts.len() ==> #[trigger] toasts[i].id < next
}

/// The toasts of `toasts` whose id is not `id`, in order.
pub open spec fn without_id(toasts: Seq<ToastItem>, id: u64) -> Seq<ToastItem>
    decreases toasts.len(),
{
    if toasts.len() == 0 {
        toasts
    } else {
        let rest = without_id(toasts.drop_last(), id);
        if toasts.last().id == id {
            rest
        } else {
            rest.push(toasts.last())
        }
    }
}

/// The toasts of `toasts` that are not expired, in order, where `elapsed[i]`
/// is the age in milliseconds of `toasts[i]`.
pub open spec fn unexpired(toasts: Seq<ToastItem>, elapsed: Seq<u128>) -> Seq<ToastItem>
    decreases toasts.len(),
{
    if toasts.len() == 0 {
        toasts
    } else {
        let n = toasts.len() - 1;
        let rest = unexpired(toasts.drop_last(), elapsed.take(n));
        if toasts.last().spec_expired_after(elapsed[n] as int) {
            rest
        } else {
            rest.push(toasts.last())
        }
    }
}

/// Shared toast queue. Ids for new toasts come from a counter that starts
/// at 1 and only grows, so no id is handed out twice and every toast in the
/// store has an id below the counter.
pub struct ToastStore {
    toasts: Vec<ToastItem>,
    next_id: u64,
}

impl ToastStore {
    #[verifier::type_invariant]
    spec fn ids_in_range(self) -> bool {
        self.next_id >= 1 && (self.next_id == u64::MAX || ids_below(self.toasts@, self.next_id))
    }

    /// The id the next new toast will get.
    pub closed spec fn next_id(&self) -> u64 {
        self.next_id
    }
}

impl View for ToastStore {
    type V = Seq<ToastItem>;

    closed spec fn view(&self) -> Seq<ToastItem> {
        self.toasts@
    }
}

impl Default for ToastStore {
    fn default() -> (r: Self)
        ensures
            r@ == Seq::<ToastItem>::empty(),
            r.next_id() == 1,
    {
        ToastStore { toasts: Vec::new(), next_id: 1 }
    }
}

impl ToastStore {
    /// The id the next new toast will get: above every id in the store.
    pub fn next_toast_id(&self) -> (r: u64)
        ensures
            r == self.next_id(),
            r >= 1,
            r < u64::MAX ==> ids_below(self@, r),
    {
        proof {
            use_type_invariant(self);
        }
        self.next_id
    }

    /// Append a toast; returns its id. The counter moves past that id, so
    /// later toasts get ids above it.
    pub fn push(&mut self, item: ToastItem) -> (id: u64)
        ensures
            final(self)@ == old(self)@.push(item),
            id == item.id,
            final(self).next_id() == (if item.id < old(self).next_id() {
                old(self).next_id()
            } else if item.id < u64::MAX {
                (item.id + 1) as u64
            } else {
                u64::MAX
            }),
    {
        proof {
            use_type_invariant(&*self);
        }
        let id = item.id;
        if id >= self.next_id {
            self.next_id = if id < u64::MAX {
                id + 1
            } else {
                u64::MAX
            };
        }
        let mut ts = Vec::new();
        std::mem::swap(&mut ts, &mut self.toasts);
        ts.push(item);
        proof {
            if self.next_id < u64::MAX {
                assert(ids_below(ts@, self.next_id));
            }
        }
        self.toasts = ts;
        id
    }

    /// A new toast with the next id and the given title, no description,
    /// the default variant and the default duration, created now; the
    /// counter moves on.
    pub fn new_item(&mut self, title: String) -> (r: ToastItem)
        requires
            old(self).next_id() < u64::MAX,
        ensures
            is_fresh_toast(r, old(self).next_id(), title, None, ToastVariant::Default),
            r.id >= 1,
            final(self)@ == old(self)@,
            final(self).next_id() == old(self).next_id() + 1,
            !holds_id(old(self)@, r.id),
    {
        proof {
            use_type_invariant(&*self);
        }
        let id = self.next_id;
        self.next_id = id + 1;
        ToastItem::new(id, title)
    }

    /// Whether some toast carries `id`.
    pub fn contains_id(&self, id: u64) -> (r: bool)
        ensures
            r == holds_id(self@, id),
    {
        let mut i: usize = 0;
        while i < self.toasts.len()
            invariant
                i <= self.toasts@.len(),
                forall|k: int| 0 <= k < i ==> self.toasts@[k].id != id,
            decreases self.toasts@.len() - i,
        {
            if self.toasts[i].id == id {
                return true;
            }
            i += 1;
        }
        false
    }

    fn push_fresh(&mut self, title: String, description: Option<String>, variant: ToastVariant) -> (id: u64)
        requires
            old(self).next_id() < u64::MAX,
        ensures
            id == old(self).next_id(),
            !holds_id(old(self)@, id),
            final(self).next_id() == id + 1,
            final(self)@.len() == old(self)@.len() + 1,
            final(self)@.drop_last() == old(self)@,
            is_fresh_toast(final(self)@.last(), id, title, description, variant),
    {
        let item = self.new_item(title);
        let id = item.id;
        let item = ToastItem { description, variant, ..item };
        self.push(item);
        proof {
            assert(self@.drop_last() =~= old(self)@);
        }
        id
    }

    /// Show a toast with a title; returns its id, the counter's next id.
    pub fn show(&mut self, title: String) -> (id: u64)
        requires
            old(self).next_id() < u64::MAX,
        ensures
            id == old(self).next_id(),
            !holds_id(old(self)@, id),
            final(self).next_id() == id + 1,
            final(self)@.len() == old(self)@.len() + 1,
            final(self)@.drop_last() == old(self)@,
            is_fresh_toast(final(self)@.last(), id, title, None, ToastVariant::Default),
    {
        self.push_fresh(title, None, ToastVariant::Default)
    }

    /// Show a toast with a title and a description.
    pub fn message(&mut self, title: String, description: String) -> (id: u64)
        requires
            old(self).next_id() < u64::MAX,
        ensures
            id == old(self).next_id(),
            !holds_id(old(self)@, id),
            final(self).next_id() == id + 1,
            final(self)@.len() == old(self)@.len() + 1,
            final(self)@.drop_last() == old(self)@,
            is_fresh_toast(final(self)@.last(), id, title, Some(description), ToastVariant::Default),
    {
        self.push_fresh(title, Some(description), ToastVariant::Default)
    }

    /// Show a success toast.
    pub fn success(&mut self, title: String) -> (id: u64)
        requires
            old(self).next_id() < u64::MAX,
        ensures
            id == old(self).next_id(),
            !holds_id(old(self)@, id),
            final(self).next_id() == id + 1,
            final(self)@.len() == old(self)@.len() + 1,
            final(self)@.drop_last() == old(self)@,
            is_fresh_toast(final(self)@.last(), id, title, None, ToastVariant::Success),
    {
        self.push_fresh(title, None, ToastVariant::Success)
    }

    /// Show an error toast.
    pub fn error(&mut self, title: String) -> (id: u64)
        requires
            old(self).next_id() < u64::MAX,
        ensures
            id == old(self).next_id(),
            !holds_id(old(self)@, id),
            final(self).next_id() == id + 1,
            final(self)@.len() == old(self)@.len() + 1,
            final(self)@.drop_last() == old(self)@,
            is_fresh_toast(final(self)@.last(), id, title, None, ToastVariant::Error),
    {
        self.push_fresh(title, None, ToastVariant::Error)
    }

    /// Show a warning toast.
    pub fn warning(&mut self, title: String) -> (id: u64)
        requires
            old(self).next_id() < u64::MAX,
        ensures
            id == old(self).next_id(),
            !holds_id(old(self)@, id),
            final(self).next_id() == id + 1,
            final(self)@.len() == old(self)@.len() + 1,
            final(self)@.drop_last() == old(self)@,
            is_fresh_toast(final(self)@.last(), id, title, None, ToastVariant::Warning),
    {
        self.push_fresh(title, None, ToastVariant::Warning)
    }

    /// Remove every toast that carries `id`, keeping the others in order.
    pub fn dismiss(&mut self, id: u64)
        ensures
            final(self)@ == without_id(old(self)@, id),
            final(self).next_id() == old(self).next_id(),
    {
        proof {
            use_type_invariant(&*self);
        }
        let mut ts = Vec::new();
        std::mem::swap(&mut ts, &mut self.toasts);
        let ghost old_s = ts@;
        let mut i: usize = 0;
        let ghost mut j: int = 0;
        while i < ts.len()
            invariant
                0 <= i <= j <= old_s.len(),
                i <= ts@.len(),
                ts@.take(i as int) == without_id(old_s.take(j), id),
                ts@.skip(i as int) == old_s.skip(j),
            decreases ts@.len() - i,
        {
            let ghost before = ts@;
            let ghost bi = i;
            proof {
                assert(before.skip(i as int).len() == before.len() - i);
                assert(old_s.skip(j).len() > 0);
                assert(j < old_s.len());
                assert(before.skip(i as int)[0] == before[i as int]);
                assert(old_s.skip(j)[0] == old_s[j]);
                assert(old_s.take(j + 1).drop_last() =~= old_s.take(j));
                assert(old_s.take(j + 1).last() == old_s[j]);
            }
            if ts[i].id == id {
                ts.remove(i);
                proof {
                    assert(ts@.take(i as int) =~= before.take(i as int));
                    assert forall|k: int| 0 <= k < old_s.len() - (j + 1) implies
                        #[trigger] ts@.skip(i as int)[k] == old_s.skip(j + 1)[k] by {
                        assert(before.skip(bi as int)[k + 1] == old_s.skip(j as int)[k + 1]);
                    }
                    assert(ts@.skip(i as int) =~= old_s.skip(j + 1));
                }
            } else {
                i += 1;
                proof {
                    assert(ts@.take(i as int) =~= before.take(i - 1).push(before[i - 1]));
                    assert forall|k: int| 0 <= k < old_s.len() - (j + 1) implies
                        #[trigger] ts@.skip(i as int)[k] == old_s.skip(j + 1)[k] by {
                        assert(before.skip(bi as int)[k + 1] == old_s.skip(j as int)[k + 1]);
                    }
                    assert(ts@.skip(i as int) =~= old_s.skip(j + 1));
                }
            }
            proof {
                j = j + 1;
            }
        }
        proof {
            assert(old_s.skip(j).len() == 0);
            assert(old_s.take(j) =~= old_s);
            assert(ts@.take(i as int) =~= ts@);
        }
        proof {
            if self.next_id < u64::MAX {
                lemma_without_id_below(old(self)@, id, self.next_id);
            }
        }
        self.toasts = ts;
    }

    /// Remove every toast.
    pub fn dismiss_all(&mut self)
        ensures
            final(self)@ == Seq::<ToastItem>::empty(),
            final(self).next_id() == old(self).next_id(),
    {
        proof {
            use_type_invariant(&*self);
        }
        self.toasts = Vec::new();
    }

    /// Keep only the toasts that are not expired, where `elapsed[i]` is the
    /// age in milliseconds of the i-th toast.
    pub fn retain_unexpired(&mut self, elapsed: &Vec<u128>)
        requires
            elapsed@.len() == old(self)@.len(),
        ensures
            final(self)@ == unexpired(old(self)@, elapsed@),
            final(self).next_id() == old(self).next_id(),
    {
        proof {
            use_type_invariant(&*self);
        }
        let mut ts = Vec::new();
        std::mem::swap(&mut ts, &mut self.toasts);
        let ghost old_s = ts@;
        let n = elapsed.len();
        let mut i: usize = 0;
        let mut j: usize = 0;
        while i < ts.len()
            invariant
                0 <= i <= j <= old_s.len(),
                elapsed@.len() == old_s.len(),
                n == elapsed@.len(),
                i <= ts@.len(),
                ts@.take(i as int) == unexpired(old_s.take(j as int), elapsed@.take(j as int)),
                ts@.skip(i as int) == old_s.skip(j as int),
            decreases ts@.len() - i,
        {
            let ghost before = ts@;
            let ghost bi = i;
            proof {
                assert(before.skip(i as int).len() == before.len() - i);
                assert(old_s.skip(j as int).len() > 0);
                assert(j < old_s.len());
                assert(before.skip(i as int)[0] == before[i as int]);
                assert(old_s.skip(j as int)[0] == old_s[j as int]);
                assert(old_s.take(j + 1).drop_last() =~= old_s.take(j as int));
                assert(old_s.take(j + 1).last() == old_s[j as int]);
                assert(elapsed@.take(j + 1).take(j as int) =~= elapsed@.take(j as int));
                assert(elapsed@.take(j + 1)[j as int] == elapsed@[j as int]);
            }
            if ts[i].expired_after(elapsed[j]) {
                ts.remove(i);
                proof {
                    assert(ts@.take(i as int) =~= before.take(i as int));
                    assert forall|k: int| 0 <= k < old_s.len() - (j + 1) implies
                        #[trigger] ts@.skip(i as int)[k] == old_s.skip(j + 1)[k] by {
                        assert(before.skip(bi as int)[k + 1] == old_s.skip(j as int)[k + 1]);
                    }
                    assert(ts@.skip(i as int) =~= old_s.skip(j + 1));
                }
            } else {
                i += 1;
                proof {
                    assert(ts@.take(i as int) =~= before.take(i - 1).push(before[i - 1]));
                    assert forall|k: int| 0 <= k < old_s.len() - (j + 1) implies
                        #[trigger] ts@.skip(i as int)[k] == old_s.skip(j + 1)[k] by {
                        assert(before.skip(bi as int)[k + 1] == old_s.skip(j as int)[k + 1]);
                    }
                    assert(ts@.skip(i as int) =~= old_s.skip(j + 1));
                }
            }
            j += 1;
        }
        proof {
            assert(old_s.skip(j as int).len() == 0);
            assert(old_s.take(j as int) =~= old_s);
            assert(elapsed@.take(j as int) =~= elapsed@);
            assert(ts@.take(i as int) =~= ts@);
        }
        proof {
            if self.next_id < u64::MAX {
                lemma_unexpired_below(old(self)@, elapsed@, self.next_id);
            }
        }
        self.toasts = ts;
    }

    /// Read every toast's age from the clock, in order.
    fn ages(&self) -> (r: Vec<u128>)
        ensures
            r@.len() == self@.len(),
    {
        let mut out: Vec<u128> = Vec::new();
        let mut i: usize = 0;
        while i < self.toasts.len()
            invariant
                i <= self.toasts@.len(),
                out@.len() == i,
            decreases self.toasts@.len() - i,
        {
            out.push(self.toasts[i].age_millis());
            i += 1;
        }
        out
    }

    /// Drop the toasts that are expired now. What counts as expired depends
    /// on the clock; whatever it reads, the result is the unexpired toasts
    /// for some ages of the current toasts.
    pub fn purge_expired(&mut self)
        ensures
            exists|elapsed: Seq<u128>|
                elapsed.len() == old(self)@.len() && final(self)@ == #[trigger] unexpired(old(self)@, elapsed),
            final(self).next_id() == old(self).next_id(),
    {
        let ages = self.ages();
        self.retain_unexpired(&ages);
    }

    /// The toasts shown, oldest first.
    pub fn toasts(&self) -> (r: &Vec<ToastItem>)
        ensures
            r@ == self@,
    {
        &self.toasts
    }

    /// A primary press on the toast stack. `region`: the toast under the
    /// pointer and whether the press is on its close button. A press on a
    /// close button dismisses that toast; any press on a toast is consumed.
    pub fn press(&mut self, region: Option<(u64, bool)>) -> (r: EventStatus)
        ensures
            match region {
                Some((id, true)) => final(self)@ == without_id(old(self)@, id),
                _ => final(self)@ == old(self)@,
            },
            r == (if region is Some { EventStatus::Consumed } else { EventStatus::Ignored }),
            final(self).next_id() == old(self).next_id(),
    {
        match region {
            Some((id, on_close)) => {
                if on_close {
                    self.dismiss(id);
                }
                EventStatus::Consumed
            },
            None => EventStatus::Ignored,
        }
    }

    /// The pointer shape over the toast stack: a hand over a close button.
    pub fn cursor_style(region: Option<(u64, bool)>) -> (r: CursorStyle)
        ensures
            r == (if region matches Some((_, true)) { CursorStyle::Pointer } else { CursorStyle::Default }),
    {
        match region {
            Some((_, true)) => CursorStyle::Pointer,
            _ => CursorStyle::Default,
        }
    }

    pub fn is_empty(&self) -> (r: bool)
        ensures
            r == (self@.len() == 0),
    {
        self.toasts.len() == 0
    }

    /// Whether some toast still waits to expire, when `elapsed[i]` is the age
    /// of the i-th toast: it has a duration and is not yet expired.
    pub fn needs_timer_after(&self, elapsed: &Vec<u128>) -> (r: bool)
        requires
            elapsed@.len() == self@.len(),
        ensures
            r == waiting(self@, elapsed@),
    {
        let mut i: usize = 0;
        while i < self.toasts.len()
            invariant
                i <= self.toasts@.len(),
                elapsed@.len() == self@.len(),
                forall|k: int|
                    0 <= k < i ==> !(self@[k].duration_ms > 0
                        && !#[trigger] self@[k].spec_expired_after(elapsed@[k] as int)),
            decreases self.toasts@.len() - i,
        {
            let t = &self.toasts[i];
            if t.duration_ms > 0 && !t.expired_after(elapsed[i]) {
                return true;
            }
            i += 1;
        }
        false
    }

    /// Whether some toast still waits to expire now: `needs_timer_after` for
    /// the toasts' ages as read from the clock.
    pub fn needs_timer(&self) -> (r: bool)
        ensures
            exists|elapsed: Seq<u128>| elapsed.len() == self@.len() && r == #[trigger] waiting(self@, elapsed),
    {
        let ages = self.ages();
        self.needs_timer_after(&ages)
    }
}

/// Dropping toasts keeps every remaining id below the counter.
proof fn lemma_without_id_below(toasts: Seq<ToastItem>, id: u64, next: u64)
    requires
        ids_below(toasts, next),
    ensures
        ids_below(without_id(toasts, id), next),
    decreases toasts.len(),
{
    if toasts.len() > 0 {
        let p = toasts.drop_last();
        assert(ids_below(p, next)) by {
            assert forall|i: int| 0 <= i < p.len() implies #[trigger] p[i].id < next by {
                assert(p[i] == toasts[i]);
            }
        }
        lemma_without_id_below(p, id, next);
        assert(toasts[toasts.len() - 1].id < next);
    }
}

/// Dropping expired toasts keeps every remaining id below the counter.
proof fn lemma_unexpired_below(toasts: Seq<ToastItem>, elapsed: Seq<u128>, next: u64)
    requires
        ids_below(toasts, next),
        elapsed.len() == toasts.len(),
    ensures
        ids_below(unexpired(toasts, elapsed), next),
{
    lemma_purge_keeps_persistent(toasts, elapsed);
    let u = unexpired(toasts, elapsed);
    assert forall|k: int| 0 <= k < u.len() implies #[trigger] u[k].id < next by {
        let i = choose|i: int| 0 <= i < toasts.len() && toasts[i] == #[trigger] u[k]
            && !toasts[i].spec_expired_after(elapsed[i] as int);
    }
}

/// Removing an id that no toast carries changes nothing.
pub proof fn lemma_without_absent_id(toasts: Seq<ToastItem>, id: u64)
    requires
        !holds_id(toasts, id),
    ensures
        without_id(toasts, id) == toasts,
    decreases toasts.len(),
{
    if toasts.len() > 0 {
        let p = toasts.drop_last();
        assert(!holds_id(p, id)) by {
            if holds_id(p, id) {
                let i = choose|i: int| 0 <= i < p.len() && #[trigger] p[i].id == id;
                assert(toasts[i].id == id);
            }
        }
        lemma_without_absent_id(p, id);
        assert(toasts.last().id != id) by {
            assert(toasts[toasts.len() - 1].id == toasts.last().id);
        }
        assert(p.push(toasts.last()) =~= toasts);
    }
}

/// Law: dismissing the id that `show` (or any of its siblings) returned,
/// or that of a toast pushed with an id no toast carried, gives back
/// exactly the toasts there were before it.
pub proof fn lemma_dismiss_undoes_show(before: Seq<ToastItem>, after: Seq<ToastItem>, id: u64)
    requires
        !holds_id(before, id),
        after.len() == before.len() + 1,
        after.drop_last() == before,
        after.last().id == id,
    ensures
        without_id(after, id) == before,
{
    lemma_without_absent_id(before, id);
}

/// Law: after `dismiss(id)` no toast carries `id`, and every toast with
/// another id is still there.
pub proof fn lemma_dismiss_removes_exactly(toasts: Seq<ToastItem>, id: u64)
    ensures
        !holds_id(without_id(toasts, id), id),
        forall|t: ToastItem| toasts.contains(t) && t.id != id ==> without_id(toasts, id).contains(t),
    decreases toasts.len(),
{
    if toasts.len() > 0 {
        let p = toasts.drop_last();
        lemma_dismiss_removes_exactly(p, id);
        let r = without_id(p, id);
        assert forall|t: ToastItem| toasts.contains(t) && t.id != id implies without_id(toasts, id).contains(t) by {
            let i = choose|i: int| 0 <= i < toasts.len() && toasts[i] == t;
            if i < toasts.len() - 1 {
                assert(p[i] == t);
                assert(p.contains(t));
                let k = choose|k: int| 0 <= k < r.len() && r[k] == t;
                if toasts.last().id != id {
                    assert(r.push(toasts.last())[k] == t);
                }
            } else {
                assert(r.push(toasts.last())[r.len() as int] == t);
            }
        }
        if holds_id(without_id(toasts, id), id) {
            let w = without_id(toasts, id);
            let k = choose|k: int| 0 <= k < w.len() && #[trigger] w[k].id == id;
            if toasts.last().id != id {
                if k < r.len() {
                    assert(r[k].id == id);
                }
            }
        }
    }
}

/// Law: a purge never removes a toast without a duration, and no toast it
/// keeps is expired.
pub proof fn lemma_purge_keeps_persistent(toasts: Seq<ToastItem>, elapsed: Seq<u128>)
    requires
        elapsed.len() == toasts.len(),
    ensures
        forall|t: ToastItem| toasts.contains(t) && t.duration_ms == 0 ==> unexpired(toasts, elapsed).contains(t),
        forall|k: int| 0 <= k < unexpired(toasts, elapsed).len() ==>
            exists|i: int| 0 <= i < toasts.len() && toasts[i] == #[trigger] unexpired(toasts, elapsed)[k]
                && !toasts[i].spec_expired_after(elapsed[i] as int),
    decreases toasts.len(),
{
    if toasts.len() > 0 {
        let n = toasts.len() - 1;
        let p = toasts.drop_last();
        let pe = elapsed.take(n);
        lemma_purge_keeps_persistent(p, pe);
        let r = unexpired(p, pe);
        let u = unexpired(toasts, elapsed);
        assert forall|t: ToastItem| toasts.contains(t) && t.duration_ms == 0 implies u.contains(t) by {
            let i = choose|i: int| 0 <= i < toasts.len() && toasts[i] == t;
            if i < n {
                assert(p[i] == t);
                assert(p.contains(t));
                let k = choose|k: int| 0 <= k < r.len() && r[k] == t;
                if !toasts.last().spec_expired_after(elapsed[n] as int) {
                    assert(r.push(toasts.last())[k] == t);
                }
            } else {
                assert(r.push(toasts.last())[r.len() as int] == t);
            }
        }
        assert forall|k: int| 0 <= k < u.len() implies
            exists|i: int| 0 <= i < toasts.len() && toasts[i] == #[trigger] u[k]
                && !toasts[i].spec_expired_after(elapsed[i] as int) by {
            if k < r.len() {
                let i = choose|i: int| 0 <= i < p.len() && p[i] == #[trigger] r[k]
                    && !p[i].spec_expired_after(pe[i] as int);
                assert(toasts[i] == p[i]);
                assert(elapsed[i] == pe[i]);
                assert(u[k] == r[k]);
            } else {
                assert(toasts[n] == u[k]);
            }
        }
    }
}

} // verus!
