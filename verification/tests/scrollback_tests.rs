use tokio_tui::forms::SelectFormField;
use tokio_tui::scrollback::{DragDirection, Key, KeyInput, Rect, ScrollbackWidget};
use tokio_tui::status::{CellVisibility, LineCounter, StatusLineId, TimerMode, TimerStatus};
use tokio_tui::style::{Color, Style, StyledText};

fn plain_lines(w: &mut ScrollbackWidget, texts: &[&str]) {
    for t in texts {
        w.add_styled_line(StyledText::unstyled(t));
    }
}

fn framed(width: u16, height: u16) -> Rect {
    Rect::new(0, 0, width + 2, height + 2)
}

#[test]
fn capacity_invariant_holds_over_appends() {
    let mut w = ScrollbackWidget::untitled(3);
    for i in 0..10 {
        w.add_styled_line(StyledText::unstyled(&format!("line {i}")));
        assert!(w.buffer.len() <= 3);
    }
    // the most recent three lines, in order
    let texts: Vec<String> = w
        .buffer
        .iter()
        .map(|l| l.iter().map(|c| c.ch).collect::<String>())
        .collect();
    assert_eq!(texts, vec!["line 7", "line 8", "line 9"]);
}

#[test]
fn batch_append_keeps_trailing_capacity() {
    let mut w = ScrollbackWidget::untitled(2);
    let batch: Vec<StyledText> = (0..5).map(|i| StyledText::unstyled(&format!("b{i}"))).collect();
    w.add_styled_lines(batch);
    let texts: Vec<String> = w
        .buffer
        .iter()
        .map(|l| l.iter().map(|c| c.ch).collect::<String>())
        .collect();
    assert_eq!(texts, vec!["b3", "b4"]);
}

#[test]
fn wrap_round_trip_breaks_on_space() {
    // viewport content width 10, indent 2, line numbers off
    let mut w = ScrollbackWidget::untitled(100).wrap_indent(2);
    w.show_line_numbers = false;
    plain_lines(&mut w, &["abcdefghij klmno"]);
    w.begin_frame(framed(10, 5), 0);
    // no space inside the first window of 10, so a hard break at 10,
    // then the rest fits: exactly two segments that rebuild the line
    assert_eq!(w.wrap_row_count(), 2);
    assert_eq!(w.wrap_segment(0), Some((0, 0, 10)));
    assert_eq!(w.wrap_segment(1), Some((0, 10, 16)));
    let line: String = w.buffer[0].iter().map(|c| c.ch).collect();
    let mut rebuilt = String::new();
    for i in 0..w.wrap_row_count() {
        let (orig, s, e) = w.wrap_segment(i).unwrap();
        assert_eq!(orig, 0);
        rebuilt.push_str(&line[s..e]);
    }
    assert_eq!(rebuilt, line);
}

#[test]
fn wrap_prefers_space_inside_window() {
    let mut w = ScrollbackWidget::untitled(100).wrap_indent(2);
    w.show_line_numbers = false;
    plain_lines(&mut w, &["abcd efghijkl"]);
    w.begin_frame(framed(10, 5), 0);
    // the space at index 4 lies inside the 10-wide window: break after it
    assert_eq!(w.wrap_segment(0), Some((0, 0, 5)));
}

#[test]
fn empty_line_occupies_one_segment() {
    let mut w = ScrollbackWidget::untitled(100);
    w.show_line_numbers = false;
    plain_lines(&mut w, &["", "x"]);
    w.begin_frame(framed(10, 5), 0);
    assert_eq!(w.wrap_segment(0), Some((0, 0, 0)));
    assert_eq!(w.wrap_segment(1), Some((1, 0, 1)));
}

#[test]
fn scroll_clamps_to_bounds() {
    let mut w = ScrollbackWidget::untitled(100);
    w.set_wrap_lines(false);
    plain_lines(&mut w, &["a", "b", "c", "d", "e", "f"]);
    w.begin_frame(framed(10, 2), 0);
    // max scroll is 6 - 2 = 4
    w.scroll_down(1_000_000);
    assert_eq!(w.vertical_offset, 4);
    w.scroll_up(usize::MAX);
    assert_eq!(w.vertical_offset, 0);
    assert!(!w.auto_scroll);
    w.scroll_to_bottom();
    assert_eq!(w.vertical_offset, 4);
    assert!(w.auto_scroll);
    w.scroll_to_top();
    assert_eq!(w.vertical_offset, 0);
    assert!(!w.auto_scroll);
    assert!(w.vertical_offset <= w.max_scroll_position());
}

#[test]
fn selection_boundaries_are_half_open() {
    let mut w = ScrollbackWidget::untitled(10);
    plain_lines(&mut w, &["hello", "world"]);
    w.selection.start_selection(0, 1);
    w.selection.update_end(1, 3);
    assert!(w.selection.contains_position(0, 1));
    assert!(!w.selection.contains_position(0, 0)); // before the start
    assert!(w.selection.contains_position(1, 2));
    assert!(!w.selection.contains_position(1, 3)); // the end itself
    assert!(w.selection.contains_position(0, 4)); // rest of first line
}

#[test]
fn eviction_clears_dangling_selection() {
    let mut w = ScrollbackWidget::untitled(3);
    plain_lines(&mut w, &["a", "b", "c"]);
    w.selection.start_selection(0, 0);
    w.selection.update_end(0, 1);
    assert!(w.selection.is_active());
    // appending evicts line 0, the anchor line
    w.add_styled_line(StyledText::unstyled("d"));
    assert!(!w.selection.is_active());
}

#[test]
fn eviction_shifts_selection_on_surviving_lines() {
    let mut w = ScrollbackWidget::untitled(3);
    plain_lines(&mut w, &["a", "bb", "cc"]);
    w.selection.start_selection(1, 1);
    w.selection.update_end(2, 2);
    w.add_styled_line(StyledText::unstyled("d"));
    assert!(w.selection.is_active());
    assert_eq!(w.selection.start.line, 0);
    assert_eq!(w.selection.end.line, 1);
}

#[test]
fn auto_scroll_reengages_at_bottom() {
    let mut w = ScrollbackWidget::untitled(100);
    w.set_wrap_lines(false);
    plain_lines(&mut w, &["a", "b", "c", "d", "e", "f", "g", "h"]);
    w.begin_frame(framed(10, 3), 0);
    assert!(w.auto_scroll);
    w.scroll_up(2);
    assert!(!w.auto_scroll);
    // scroll down until the bottom, then once more
    while w.vertical_offset < w.max_scroll_position() {
        w.scroll_down(1);
    }
    assert!(!w.auto_scroll);
    w.scroll_down(1);
    assert!(w.auto_scroll);
}

#[test]
fn search_matches_are_line_major_left_to_right() {
    let mut w = ScrollbackWidget::untitled(10);
    plain_lines(&mut w, &["foofoo", "bar", "xfoo"]);
    w.set_search_term("foo");
    assert_eq!(w.search_matches, vec![(0, 0), (0, 3), (2, 1)]);
}

#[test]
fn search_is_case_insensitive_and_updates_on_append() {
    let mut w = ScrollbackWidget::untitled(10);
    plain_lines(&mut w, &["FooBar"]);
    w.set_search_term("foo");
    assert_eq!(w.search_matches, vec![(0, 0)]);
    w.add_styled_line(StyledText::unstyled("fOO"));
    assert_eq!(w.search_matches, vec![(0, 0), (1, 0)]);
    w.set_search_term("");
    assert!(w.search_matches.is_empty());
}

#[test]
fn drag_scroll_self_terminates_at_bottom() {
    let mut w = ScrollbackWidget::untitled(100);
    w.set_wrap_lines(false);
    plain_lines(&mut w, &["a", "b", "c", "d"]);
    w.begin_frame(framed(10, 2), 0);
    w.scroll_to_bottom();
    // simulate a held drag at the bottom edge
    w.mouse_is_down = true;
    w.drag_direction = DragDirection::Down;
    w.drag_scroll_timer_ms = Some(0);
    w.perform_drag_scroll(1_000);
    assert_eq!(w.drag_direction, DragDirection::Idle);
    assert_eq!(w.drag_scroll_timer_ms, None);
}

#[test]
fn end_to_end_append_150_into_100_viewport_20() {
    let mut w = ScrollbackWidget::untitled(100);
    w.set_wrap_lines(false);
    w.begin_frame(framed(30, 20), 0);
    for i in 0..150 {
        w.add_styled_line(StyledText::unstyled(&format!("{i}")));
    }
    assert!(w.auto_scroll);
    assert_eq!(w.buffer.len(), 100);
    assert_eq!(w.vertical_offset, 80);
    let first: String = w.buffer[0].iter().map(|c| c.ch).collect();
    let last: String = w.buffer[99].iter().map(|c| c.ch).collect();
    assert_eq!(first, "50");
    assert_eq!(last, "149");
}

#[test]
fn selected_text_joins_lines_with_newlines() {
    let mut w = ScrollbackWidget::untitled(10);
    w.set_wrap_lines(false);
    plain_lines(&mut w, &["hello", "mid", "world"]);
    w.begin_frame(framed(40, 5), 0);
    w.selection.start_selection(0, 2);
    w.selection.update_end(2, 3);
    let t = w.get_selected_text().unwrap();
    assert_eq!(t, "llo\nmid\nwor");
}

#[test]
fn copy_queues_selected_text() {
    let mut w = ScrollbackWidget::untitled(10);
    w.set_wrap_lines(false);
    plain_lines(&mut w, &["abc"]);
    w.begin_frame(framed(40, 5), 0);
    w.selection.start_selection(0, 0);
    w.selection.update_end(0, 2);
    assert!(w.copy_selection());
    assert_eq!(w.take_copy_request().unwrap(), "ab");
    assert!(w.take_copy_request().is_none());
}

#[test]
fn clear_resets_everything() {
    let mut w = ScrollbackWidget::untitled(10);
    plain_lines(&mut w, &["one", "two"]);
    w.set_search_term("o");
    w.selection.start_selection(0, 0);
    w.clear();
    assert_eq!(w.buffer.len(), 0);
    assert_eq!(w.vertical_offset, 0);
    assert!(w.auto_scroll);
    assert!(w.search_matches.is_empty());
    assert!(!w.selection.is_active());
}

#[test]
fn keyboard_scrolls_and_toggles() {
    let mut w = ScrollbackWidget::untitled(100);
    w.set_wrap_lines(false);
    plain_lines(&mut w, &["a", "b", "c", "d", "e", "f"]);
    w.begin_frame(framed(10, 2), 0);
    let up = KeyInput { code: Key::Up, ctrl: false, shift: false };
    let down = KeyInput { code: Key::Down, ctrl: false, shift: false };
    assert!(w.key_event(down, 0));
    assert!(w.key_event(up, 0));
    assert_eq!(w.vertical_offset, w.max_scroll_position() - 1);
    assert!(!w.auto_scroll);
    let end = KeyInput { code: Key::End, ctrl: false, shift: false };
    assert!(w.key_event(end, 0));
    assert_eq!(w.vertical_offset, w.max_scroll_position());
}

#[test]
fn status_cell_visibility_defaults_and_toggles() {
    let mut cv = CellVisibility::new();
    let mut lc = LineCounter::new();
    let id: StatusLineId = lc.next();
    assert_eq!(id, StatusLineId(9));
    assert_eq!(lc.next(), StatusLineId(10));
    assert!(cv.is_visible(id, 0));
    cv.set_visibility(id, 0, false);
    assert!(!cv.is_visible(id, 0));
    cv.toggle_cell_visibility(id, 0);
    assert!(cv.is_visible(id, 0));
    assert!(cv.is_visible(id, 1));
}

#[test]
fn timer_counts_up_and_down() {
    let mut t = TimerStatus::new_count_up(1_000);
    t.preprocess(3_728_000 + 1_000);
    assert_eq!((t.last_hours, t.last_minutes, t.last_seconds), (1, 2, 8));
    let mut m = TimerMode::CountDown { end_ms: 10_000 };
    assert_eq!(m.duration(4_000), 6_000);
    assert_eq!(m.duration(20_000), 0);
    m.reset(5_000);
    assert_eq!(m, TimerMode::CountDown { end_ms: 5_000 });
}

#[test]
fn select_field_navigates_options() {
    let mut f = SelectFormField::new(vec!["a".into(), "b".into(), "c".into()], 0);
    assert!(f.is_valid());
    assert_eq!(f.get_value(), "a");
    assert_eq!(f.calculate_height(), 3);
    f.enter();
    assert!(f.is_open() && f.is_active());
    assert_eq!(f.calculate_height(), 6);
    let down = KeyInput { code: Key::Down, ctrl: false, shift: false };
    assert!(f.handle_key_event(down));
    assert_eq!(f.get_value(), "b");
    let enter = KeyInput { code: Key::Enter, ctrl: false, shift: false };
    assert!(f.handle_key_event(enter));
    assert!(!f.is_open());
}

#[test]
fn styled_text_builders_accumulate() {
    let mut t = StyledText::empty();
    t.append_default("ab");
    t.append_colored("c", Color::Red);
    t.append_space();
    assert_eq!(t.len(), 4);
    assert!(!t.is_empty());
    assert_eq!(t.chars[2].style.fg, Some(Color::Red));
    assert_eq!(t.chars[3].ch, ' ');
    let u = StyledText::from_styled("xy", Style::plain().with_bg(Color::Blue));
    assert_eq!(u.chars[1].style.bg, Some(Color::Blue));
}

#[test]
fn search_highlight_priority() {
    let mut w = ScrollbackWidget::untitled(10);
    plain_lines(&mut w, &["foo bar foo"]);
    w.set_search_term("foo");
    w.open_search();
    // character inside the current (first) match
    let s = w.style_for(0, 1, Style::plain());
    assert_eq!(s, tokio_tui::theme::current_match_style());
    // character inside another match
    let s2 = w.style_for(0, 9, Style::plain());
    assert_eq!(s2, tokio_tui::theme::search_highlight_style());
    // unmatched character keeps its base style
    let s3 = w.style_for(0, 4, Style::plain());
    assert_eq!(s3, Style::plain());
    // selection wins over search highlighting
    w.selection.start_selection(0, 0);
    w.selection.update_end(0, 11);
    let s4 = w.style_for(0, 1, Style::plain());
    assert_eq!(s4, tokio_tui::theme::selected_style());
}
