//! The styled-text model: each cell of content is a character paired with
//! a style (foreground and background colour plus text modifiers).

use vstd::prelude::*;

verus! {

/// A terminal colour, as produced by the SGR parser and consumed by a
/// rendering backend.
#[derive(Debug, Clone, Copy, PartialEq, Eq)]
pub enum Color {
    Reset,
    Black,
    Red,
    Green,
    Yellow,
    Blue,
    Magenta,
    Cyan,
    White,
    Gray,
    DarkGray,
    LightRed,
    LightGreen,
    LightYellow,
    LightBlue,
    LightMagenta,
    LightCyan,
    Rgb(u8, u8, u8),
}

/// Text attributes that can be switched on independently of colour.
#[derive(Debug, Clone, Copy, PartialEq, Eq)]
pub struct Modifiers {
    pub bold: bool,
    pub dim: bool,
    pub italic: bool,
    pub underlined: bool,
    pub slow_blink: bool,
    pub rapid_blink: bool,
    pub reversed: bool,
    pub crossed_out: bool,
}

impl Modifiers {
    pub open spec fn none_spec() -> Modifiers {
        Modifiers {
            bold: false,
            dim: false,
            italic: false,
            underlined: false,
            slow_blink: false,
            rapid_blink: false,
            reversed: false,
            crossed_out: false,
        }
    }

    pub fn none() -> (r: Modifiers)
        ensures
            r == Modifiers::none_spec(),
    {
        Modifiers {
            bold: false,
            dim: false,
            italic: false,
            underlined: false,
            slow_blink: false,
            rapid_blink: false,
            reversed: false,
            crossed_out: false,
        }
    }
}

/// The style of one character cell.
#[derive(Debug, Clone, Copy, PartialEq, Eq)]
pub struct Style {
    pub fg: Option<Color>,
    pub bg: Option<Color>,
    pub modifiers: Modifiers,
}

impl Style {
    pub open spec fn plain_spec() -> Style {
        Style { fg: None, bg: None, modifiers: Modifiers::none_spec() }
    }

    /// The default style: no colours, no modifiers.
    pub fn plain() -> (r: Style)
        ensures
            r == Style::plain_spec(),
    {
        Style { fg: None, bg: None, modifiers: Modifiers::none() }
    }

    pub open spec fn with_fg_spec(self, c: Color) -> Style {
        Style { fg: Some(c), ..self }
    }

    pub fn with_fg(self, c: Color) -> (r: Style)
        ensures
            r == self.with_fg_spec(c),
    {
        Style { fg: Some(c), ..self }
    }

    pub open spec fn with_bg_spec(self, c: Color) -> Style {
        Style { bg: Some(c), ..self }
    }

    pub fn with_bg(self, c: Color) -> (r: Style)
        ensures
            r == self.with_bg_spec(c),
    {
        Style { bg: Some(c), ..self }
    }
}

/// One character of content together with its style.
#[derive(Debug, Clone, Copy, PartialEq, Eq)]
pub struct StyledChar {
    pub ch: char,
    pub style: Style,
}

impl StyledChar {
    pub fn new(ch: char, style: Style) -> (r: StyledChar)
        ensures
            r.ch == ch,
            r.style == style,
    {
        StyledChar { ch, style }
    }
}

/// The characters of a sequence of styled cells, styles stripped.
pub open spec fn chars_of(l: Seq<StyledChar>) -> Seq<char> {
    l.map_values(|sc: StyledChar| sc.ch)
}

/// Holds when `cells` is exactly the text `s` rendered under the single
/// style `style`: one cell per character, in order.
pub open spec fn is_styled(cells: Seq<StyledChar>, s: Seq<char>, style: Style) -> bool {
    &&& cells.len() == s.len()
    &&& forall|i: int|
        0 <= i < s.len() ==> #[trigger] cells[i].ch == s[i] && cells[i].style == style
}

/// A line of styled content: the atomic unit appended to a scrollback
/// buffer.
#[derive(Debug, Clone, PartialEq)]
pub struct StyledText {
    pub chars: Vec<StyledChar>,
}

impl StyledText {
    pub fn empty() -> (r: StyledText)
        ensures
            r.chars@ =~= Seq::<StyledChar>::empty(),
    {
        StyledText { chars: Vec::new() }
    }

    pub fn len(&self) -> (n: usize)
        ensures
            n == self.chars@.len(),
    {
        self.chars.len()
    }

    #[must_use]
    pub fn is_empty(&self) -> (b: bool)
        ensures
            b == (self.chars@.len() == 0),
    {
        self.len() == 0
    }

    /// Appends every character of `text`, each carrying `style`.
    pub fn append(&mut self, text: &str, style: Style)
        ensures
            final(self).chars@.len() == old(self).chars@.len() + text@.len(),
            final(self).chars@.subrange(0, old(self).chars@.len() as int) =~= old(self).chars@,
            is_styled(
                final(self).chars@.skip(old(self).chars@.len() as int),
                text@,
                style,
            ),
    {
        let cs = crate::text::str_to_chars(text);
        let n0 = self.chars.len();
        let mut i: usize = 0;
        while i < cs.len()
            invariant
                i <= cs.len(),
                cs@ == text@,
                n0 == old(self).chars@.len(),
                self.chars@.len() == n0 + i,
                forall|j: int| 0 <= j < n0 ==> self.chars@[j] == old(self).chars@[j],
                forall|j: int|
                    n0 <= j < n0 + i ==> #[trigger] self.chars@[j].ch == text@[j - n0]
                        && self.chars@[j].style == style,
            decreases cs.len() - i,
        {
            let c = crate::text::char_at(&cs, i);
            self.chars.push(StyledChar { ch: c, style: style });
            i = i + 1;
        }
    }

    /// A line built from a plain string with the default style throughout.
    pub fn unstyled(value: &str) -> (r: StyledText)
        ensures
            is_styled(r.chars@, value@, Style::plain_spec()),
    {
        let mut t = StyledText::empty();
        t.append(value, Style::plain());
        proof {
            assert(t.chars@.skip(0) =~= t.chars@);
        }
        t
    }

    /// A line built from a plain string with one uniform style.
    pub fn from_styled(value: &str, style: Style) -> (r: StyledText)
        ensures
            is_styled(r.chars@, value@, style),
    {
        let mut t = StyledText::empty();
        t.append(value, style);
        proof {
            assert(t.chars@.skip(0) =~= t.chars@);
        }
        t
    }

    pub fn append_default(&mut self, text: &str)
        ensures
            final(self).chars@.len() == old(self).chars@.len() + text@.len(),
            final(self).chars@.subrange(0, old(self).chars@.len() as int) =~= old(self).chars@,
            is_styled(
                final(self).chars@.skip(old(self).chars@.len() as int),
                text@,
                Style::plain_spec(),
            ),
    {
        self.append(text, Style::plain());
    }

    pub fn append_string(&mut self, text: &str)
        ensures
            final(self).chars@.len() == old(self).chars@.len() + text@.len(),
            final(self).chars@.subrange(0, old(self).chars@.len() as int) =~= old(self).chars@,
            is_styled(
                final(self).chars@.skip(old(self).chars@.len() as int),
                text@,
                Style::plain_spec(),
            ),
    {
        self.append(text, Style::plain());
    }

    pub fn append_option(&mut self, text: Option<&str>, style: Style)
        ensures
            match text {
                Some(t) => {
                    &&& final(self).chars@.len() == old(self).chars@.len() + t@.len()
                    &&& final(self).chars@.subrange(0, old(self).chars@.len() as int) =~= old(
                        self,
                    ).chars@
                    &&& is_styled(
                        final(self).chars@.skip(old(self).chars@.len() as int),
                        t@,
                        style,
                    )
                },
                None => final(self).chars@ =~= old(self).chars@,
            },
    {
        if let Some(t) = text {
            self.append(t, style);
        }
    }

    pub fn append_colored(&mut self, text: &str, color: Color)
        ensures
            final(self).chars@.len() == old(self).chars@.len() + text@.len(),
            final(self).chars@.subrange(0, old(self).chars@.len() as int) =~= old(self).chars@,
            is_styled(
                final(self).chars@.skip(old(self).chars@.len() as int),
                text@,
                Style::plain_spec().with_fg_spec(color),
            ),
    {
        self.append(text, Style::plain().with_fg(color));
    }

    pub fn append_char(&mut self, ch: char, style: Style)
        ensures
            final(self).chars@.len() == old(self).chars@.len() + 1,
            final(self).chars@.subrange(0, old(self).chars@.len() as int) =~= old(self).chars@,
            forall|i: int|
                0 <= i < old(self).chars@.len() ==> final(self).chars@[i] == old(self).chars@[i],
            final(self).chars@.last().ch == ch,
            final(self).chars@.last().style == style,
    {
        self.chars.push(StyledChar { ch, style });
        proof {
            assert(self.chars@.subrange(0, old(self).chars@.len() as int) =~= old(self).chars@);
        }
    }

    pub fn append_space(&mut self)
        ensures
            final(self).chars@.len() == old(self).chars@.len() + 1,
            final(self).chars@.subrange(0, old(self).chars@.len() as int) =~= old(self).chars@,
            final(self).chars@.last().ch == ' ',
            final(self).chars@.last().style == Style::plain_spec(),
    {
        self.append_char(' ', Style::plain());
    }

    pub fn append_spaces(&mut self, n: usize)
        ensures
            final(self).chars@.len() == old(self).chars@.len() + n,
            final(self).chars@.subrange(0, old(self).chars@.len() as int) =~= old(self).chars@,
            forall|i: int|
                old(self).chars@.len() <= i < final(self).chars@.len()
                    ==> #[trigger] final(self).chars@[i] == (StyledChar {
                    ch: ' ',
                    style: Style::plain_spec(),
                }),
    {
        let n0 = self.chars.len();
        let mut i: usize = 0;
        while i < n
            invariant
                i <= n,
                n0 == old(self).chars@.len(),
                self.chars@.len() == n0 + i,
                forall|k: int| 0 <= k < n0 ==> self.chars@[k] == old(self).chars@[k],
                forall|k: int|
                    n0 <= k < n0 + i ==> #[trigger] self.chars@[k] == (StyledChar {
                        ch: ' ',
                        style: Style::plain_spec(),
                    }),
            decreases n - i,
        {
            self.append_char(' ', Style::plain());
            i = i + 1;
        }
        proof {
            assert(self.chars@.subrange(0, n0 as int) =~= old(self).chars@);
        }
    }

    pub fn append_text(&mut self, other: &StyledText)
        ensures
            final(self).chars@ =~= old(self).chars@ + other.chars@,
    {
        let n0 = self.chars.len();
        let mut i: usize = 0;
        while i < other.chars.len()
            invariant
                i <= other.chars@.len(),
                n0 == old(self).chars@.len(),
                self.chars@.len() == n0 + i,
                forall|k: int| 0 <= k < n0 ==> self.chars@[k] == old(self).chars@[k],
                forall|k: int| n0 <= k < n0 + i ==> self.chars@[k] == other.chars@[k - n0],
            decreases other.chars@.len() - i,
        {
            let c = other.chars[i];
            self.chars.push(c);
            i = i + 1;
        }
        proof {
            assert(self.chars@ =~= old(self).chars@ + other.chars@);
        }
    }
}

} // verus!
