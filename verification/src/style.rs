//! Style vocabulary: font weight, text alignment and cursor shapes.
use vstd::prelude::*;

verus! {

/// Font weight.
#[derive(Debug, Clone, Copy, PartialEq, Eq, Structural)]
pub enum FontWeight {
    Thin,
    Light,
    Regular,
    Medium,
    SemiBold,
    Bold,
    ExtraBold,
}

impl Default for FontWeight {
    fn default() -> (r: Self)
        ensures
            r == FontWeight::Regular,
    {
        FontWeight::Regular
    }
}

/// Text alignment.
#[derive(Debug, Clone, Copy, PartialEq, Eq, Structural)]
pub enum TextAlign {
    Start,
    Center,
    End,
}

impl Default for TextAlign {
    fn default() -> (r: Self)
        ensures
            r == TextAlign::Start,
    {
        TextAlign::Start
    }
}

/// Mouse cursor style.
#[derive(Debug, Clone, Copy, PartialEq, Eq, Structural)]
pub enum CursorStyle {
    Default,
    Pointer,
    Text,
    NotAllowed,
    Grab,
    Crosshair,
}

impl Default for CursorStyle {
    fn default() -> (r: Self)
        ensures
            r == CursorStyle::Default,
    {
        CursorStyle::Default
    }
}

/// A composable style value, generic over the backend's color (`C`),
/// number (`N`), edge spacing (`E`), border (`B`) and size (`S`) types.
///
/// All fields are `Option` so styles can be merged: a `None` field means
/// "inherit from parent or use default".
pub struct Style<C, N, E, B, S> {
    pub background: Option<C>,
    pub text_color: Option<C>,
    pub font_size: Option<N>,
    pub font_weight: Option<FontWeight>,
    pub font_family: Option<String>,
    pub text_align: Option<TextAlign>,
    pub padding: Option<E>,
    pub margin: Option<E>,
    pub border: Option<B>,
    pub width: Option<S>,
    pub height: Option<S>,
    pub opacity: Option<N>,
    pub cursor: Option<CursorStyle>,
}

/// `b` when it is set, `a` otherwise.
pub open spec fn override_with<T>(a: Option<T>, b: Option<T>) -> Option<T> {
    if b is Some {
        b
    } else {
        a
    }
}

/// `b` laid over `a`: every field that `b` sets wins.
pub open spec fn merged<C, N, E, B, S>(a: Style<C, N, E, B, S>, b: Style<C, N, E, B, S>) -> Style<C, N, E, B, S> {
    Style {
        background: override_with(a.background, b.background),
        text_color: override_with(a.text_color, b.text_color),
        font_size: override_with(a.font_size, b.font_size),
        font_weight: override_with(a.font_weight, b.font_weight),
        font_family: override_with(a.font_family, b.font_family),
        text_align: override_with(a.text_align, b.text_align),
        padding: override_with(a.padding, b.padding),
        margin: override_with(a.margin, b.margin),
        border: override_with(a.border, b.border),
        width: override_with(a.width, b.width),
        height: override_with(a.height, b.height),
        opacity: override_with(a.opacity, b.opacity),
        cursor: override_with(a.cursor, b.cursor),
    }
}

/// The style that sets nothing.
pub open spec fn unset_style<C, N, E, B, S>() -> Style<C, N, E, B, S> {
    Style {
        background: None,
        text_color: None,
        font_size: None,
        font_weight: None,
        font_family: None,
        text_align: None,
        padding: None,
        margin: None,
        border: None,
        width: None,
        height: None,
        opacity: None,
        cursor: None,
    }
}

fn copy_opt<T: Copy>(o: &Option<T>) -> (r: Option<T>)
    ensures
        r == *o,
{
    match o {
        Some(v) => Some(*v),
        None => None,
    }
}

fn pick<T: Copy>(a: Option<T>, b: &Option<T>) -> (r: Option<T>)
    ensures
        r == override_with(a, *b),
{
    match b {
        Some(v) => Some(*v),
        None => a,
    }
}

impl<C: Copy, N: Copy, E: Copy, B: Copy, S: Copy> Default for Style<C, N, E, B, S> {
    fn default() -> (r: Self)
        ensures
            r == unset_style::<C, N, E, B, S>(),
    {
        Style {
            background: None,
            text_color: None,
            font_size: None,
            font_weight: None,
            font_family: None,
            text_align: None,
            padding: None,
            margin: None,
            border: None,
            width: None,
            height: None,
            opacity: None,
            cursor: None,
        }
    }
}

impl<C: Copy, N: Copy, E: Copy, B: Copy, S: Copy> Style<C, N, E, B, S> {
    pub fn new() -> (r: Self)
        ensures
            r == unset_style::<C, N, E, B, S>(),
    {
        Style::default()
    }

    pub fn bg(self, color: C) -> (r: Self)
        ensures
            r == (Style { background: Some(color), ..self }),
    {
        Style { background: Some(color), ..self }
    }

    pub fn text_color(self, color: C) -> (r: Self)
        ensures
            r == (Style { text_color: Some(color), ..self }),
    {
        Style { text_color: Some(color), ..self }
    }

    pub fn font_size(self, size: N) -> (r: Self)
        ensures
            r == (Style { font_size: Some(size), ..self }),
    {
        Style { font_size: Some(size), ..self }
    }

    pub fn bold(self) -> (r: Self)
        ensures
            r == (Style { font_weight: Some(FontWeight::Bold), ..self }),
    {
        Style { font_weight: Some(FontWeight::Bold), ..self }
    }

    pub fn font_weight(self, w: FontWeight) -> (r: Self)
        ensures
            r == (Style { font_weight: Some(w), ..self }),
    {
        Style { font_weight: Some(w), ..self }
    }

    pub fn font_family(self, name: String) -> (r: Self)
        ensures
            r == (Style { font_family: Some(name), ..self }),
    {
        Style { font_family: Some(name), ..self }
    }

    pub fn text_align(self, align: TextAlign) -> (r: Self)
        ensures
            r == (Style { text_align: Some(align), ..self }),
    {
        Style { text_align: Some(align), ..self }
    }

    pub fn padding(self, edges: E) -> (r: Self)
        ensures
            r == (Style { padding: Some(edges), ..self }),
    {
        Style { padding: Some(edges), ..self }
    }

    pub fn margin(self, edges: E) -> (r: Self)
        ensures
            r == (Style { margin: Some(edges), ..self }),
    {
        Style { margin: Some(edges), ..self }
    }

    pub fn border(self, border: B) -> (r: Self)
        ensures
            r == (Style { border: Some(border), ..self }),
    {
        Style { border: Some(border), ..self }
    }

    pub fn width(self, w: S) -> (r: Self)
        ensures
            r == (Style { width: Some(w), ..self }),
    {
        Style { width: Some(w), ..self }
    }

    pub fn height(self, h: S) -> (r: Self)
        ensures
            r == (Style { height: Some(h), ..self }),
    {
        Style { height: Some(h), ..self }
    }

    pub fn cursor(self, c: CursorStyle) -> (r: Self)
        ensures
            r == (Style { cursor: Some(c), ..self }),
    {
        Style { cursor: Some(c), ..self }
    }

    /// Merge `other` on top of `self`: values `other` sets win (the CSS
    /// override model).
    pub fn merge(self, other: &Self) -> (r: Self)
        ensures
            r == merged(self, *other),
    {
        let font_family = match &other.font_family {
            Some(f) => Some(f.clone()),
            None => self.font_family,
        };
        Style {
            background: pick(self.background, &other.background),
            text_color: pick(self.text_color, &other.text_color),
            font_size: pick(self.font_size, &other.font_size),
            font_weight: pick(self.font_weight, &other.font_weight),
            font_family,
            text_align: pick(self.text_align, &other.text_align),
            padding: pick(self.padding, &other.padding),
            margin: pick(self.margin, &other.margin),
            border: pick(self.border, &other.border),
            width: pick(self.width, &other.width),
            height: pick(self.height, &other.height),
            opacity: pick(self.opacity, &other.opacity),
            cursor: pick(self.cursor, &other.cursor),
        }
    }

    /// A copy of this style (the font family is cloned).
    pub fn duplicate(&self) -> (r: Self)
        ensures
            r == *self,
    {
        Style {
            background: copy_opt(&self.background),
            text_color: copy_opt(&self.text_color),
            font_size: copy_opt(&self.font_size),
            font_weight: copy_opt(&self.font_weight),
            font_family: match &self.font_family {
                Some(f) => Some(f.clone()),
                None => None,
            },
            text_align: copy_opt(&self.text_align),
            padding: copy_opt(&self.padding),
            margin: copy_opt(&self.margin),
            border: copy_opt(&self.border),
            width: copy_opt(&self.width),
            height: copy_opt(&self.height),
            opacity: copy_opt(&self.opacity),
            cursor: copy_opt(&self.cursor),
        }
    }
}

/// Law: merging is associative, the unset style is its identity on both
/// sides, and merging a style with itself changes nothing.
pub proof fn lemma_merge_laws<C, N, E, B, S>(
    a: Style<C, N, E, B, S>,
    b: Style<C, N, E, B, S>,
    c: Style<C, N, E, B, S>,
)
    ensures
        merged(merged(a, b), c) == merged(a, merged(b, c)),
        merged(unset_style(), a) == a,
        merged(a, unset_style()) == a,
        merged(a, a) == a,
{
}

/// Law: "later values win": for every field, a value the later style sets
/// is taken from it, and a field it leaves unset is kept from the earlier
/// style.
pub proof fn lemma_later_wins<C, N, E, B, S>(a: Style<C, N, E, B, S>, b: Style<C, N, E, B, S>)
    ensures
        b.background is Some ==> merged(a, b).background == b.background,
        b.background is None ==> merged(a, b).background == a.background,
        b.text_color is Some ==> merged(a, b).text_color == b.text_color,
        b.text_color is None ==> merged(a, b).text_color == a.text_color,
        b.font_size is Some ==> merged(a, b).font_size == b.font_size,
        b.font_size is None ==> merged(a, b).font_size == a.font_size,
        b.font_weight is Some ==> merged(a, b).font_weight == b.font_weight,
        b.font_weight is None ==> merged(a, b).font_weight == a.font_weight,
        b.font_family is Some ==> merged(a, b).font_family == b.font_family,
        b.font_family is None ==> merged(a, b).font_family == a.font_family,
        b.text_align is Some ==> merged(a, b).text_align == b.text_align,
        b.text_align is None ==> merged(a, b).text_align == a.text_align,
        b.padding is Some ==> merged(a, b).padding == b.padding,
        b.padding is None ==> merged(a, b).padding == a.padding,
        b.margin is Some ==> merged(a, b).margin == b.margin,
        b.margin is None ==> merged(a, b).margin == a.margin,
        b.border is Some ==> merged(a, b).border == b.border,
        b.border is None ==> merged(a, b).border == a.border,
        b.width is Some ==> merged(a, b).width == b.width,
        b.width is None ==> merged(a, b).width == a.width,
        b.height is Some ==> merged(a, b).height == b.height,
        b.height is None ==> merged(a, b).height == a.height,
        b.opacity is Some ==> merged(a, b).opacity == b.opacity,
        b.opacity is None ==> merged(a, b).opacity == a.opacity,
        b.cursor is Some ==> merged(a, b).cursor == b.cursor,
        b.cursor is None ==> merged(a, b).cursor == a.cursor,
{
}

} // verus!
