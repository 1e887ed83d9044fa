//! The colours the scrollback uses for chrome and highlighting.

use vstd::prelude::*;

use crate::style::{Color, Style};

verus! {

pub open spec fn border_default_spec() -> Color {
    Color::Rgb(100, 100, 100)
}

pub fn border_default() -> (c: Color)
    ensures
        c == border_default_spec(),
{
    Color::Rgb(100, 100, 100)
}

pub open spec fn border_focused_spec() -> Color {
    Color::Yellow
}

pub fn border_focused() -> (c: Color)
    ensures
        c == border_focused_spec(),
{
    Color::Yellow
}

pub open spec fn scrollbar_default_spec() -> Color {
    Color::Rgb(200, 200, 200)
}

pub fn scrollbar_default() -> (c: Color)
    ensures
        c == scrollbar_default_spec(),
{
    Color::Rgb(200, 200, 200)
}

/// The style of selected text: selection highlighting overrides the
/// character's own colours.
pub open spec fn selected_style_spec() -> Style {
    Style {
        fg: Some(Color::Black),
        bg: Some(Color::Yellow),
        modifiers: crate::style::Modifiers::none_spec(),
    }
}

pub fn selected_style() -> (s: Style)
    ensures
        s == selected_style_spec(),
{
    Style::plain().with_fg(Color::Black).with_bg(Color::Yellow)
}

/// The style of text inside some search match.
pub open spec fn search_highlight_style_spec() -> Style {
    Style {
        fg: Some(Color::Rgb(240, 180, 0)),
        bg: None,
        modifiers: crate::style::Modifiers::none_spec(),
    }
}

pub fn search_highlight_style() -> (s: Style)
    ensures
        s == search_highlight_style_spec(),
{
    Style::plain().with_fg(Color::Rgb(240, 180, 0))
}

/// The style of text inside the current search match.
pub open spec fn current_match_style_spec() -> Style {
    Style {
        fg: Some(Color::Rgb(255, 100, 0)),
        bg: Some(Color::DarkGray),
        modifiers: crate::style::Modifiers::none_spec(),
    }
}

pub fn current_match_style() -> (s: Style)
    ensures
        s == current_match_style_spec(),
{
    Style::plain().with_fg(Color::Rgb(255, 100, 0)).with_bg(Color::DarkGray)
}

} // verus!
