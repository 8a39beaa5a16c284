use gitko::bindings::KeyBindings;
use gitko::geometry::{Position, ScreenSize};
use gitko::keys::{
    ascii_to_char, key_code, KeyInput, KEY_DEL, KEY_DELETE, KEY_EOT, KEY_ESC, KEY_LEFT, KEY_LF, KEY_NAK,
    KEY_RIGHT,
};
use gitko::layout::{frame, wrap};
use gitko::num::clamp;
use gitko::renderer::{apply_builtin, resolve, Action, Event, KeyAction, Phase, RenderLoop};
use gitko::screen::Screen;
use gitko::style::{Line, Part, Style};
use gitko::window::Window;

fn text_lines(texts: &[&str]) -> Vec<Line> {
    texts.iter().map(|t| Line::plain(t)).collect()
}

fn window(lines: usize, cols: usize, texts: &[&str]) -> Window {
    let mut w = Window::new(ScreenSize { lines: lines as i32, cols: cols as i32 });
    w.set_lines(text_lines(texts));
    w
}

fn row_text(line: &Line) -> String {
    line.value()
}

#[test]
fn clamp_bounds() {
    assert_eq!(clamp(5, 0, 10), 5);
    assert_eq!(clamp(-3, 0, 10), 0);
    assert_eq!(clamp(42, 0, 10), 10);
    assert_eq!(clamp(0, 0, 0), 0);
}

#[test]
fn move_cursor_clamps_and_reports_overflow() {
    let mut s = Screen::new(ScreenSize { lines: 3, cols: 10 });
    let (delta, pos) = s.move_cursor(Position { x: 4, y: 7 });
    assert_eq!(delta, 5);
    assert_eq!(pos, Position { x: 4, y: 2 });
    let (delta, pos) = s.move_cursor(Position { x: -2, y: -4 });
    assert_eq!(delta, -4);
    assert_eq!(pos, Position { x: 0, y: 0 });
    let (delta, pos) = s.move_cursor(Position { x: 99, y: 1 });
    assert_eq!(delta, 0);
    assert_eq!(pos, Position { x: 9, y: 1 });
}

#[test]
fn cursor_row_stays_in_viewport_for_any_target() {
    for target in [-1000, -1, 0, 1, 2, 3, 50, i32::MAX - 1] {
        let mut w = window(3, 10, &["a", "b", "c", "d", "e", "f", "g"]);
        let end = w.lines().len();
        w.set_cursor(if target < 0 { 0 } else { (target as usize).min(end) });
        let y = w.cursor_position().y;
        assert!(y >= 0 && y <= 2, "row {} for target {}", y, target);
    }
}

#[test]
fn four_moves_down_scroll_to_the_end() {
    let mut w = window(3, 20, &["a", "b", "c", "d", "e"]);
    for _ in 0..4 {
        w.move_cursor_down();
    }
    assert_eq!(w.screen_start(), 2);
    assert_eq!(w.cursor_position().y, 2);
    let rows = w.queue_update();
    let visible: Vec<String> = rows.iter().map(|r| row_text(&r.line)).collect();
    assert_eq!(visible, vec!["c", "d", "e"]);
    assert!(rows[2].highlighted);
    assert!(!rows[0].highlighted && !rows[1].highlighted);
    assert_eq!(w.get_cursor_line(), "e");
}

#[test]
fn moving_down_n_minus_one_reaches_last_line() {
    let texts: Vec<String> = (0..10).map(|i| format!("line {}", i)).collect();
    let refs: Vec<&str> = texts.iter().map(|s| s.as_str()).collect();
    let mut w = window(4, 20, &refs);
    for _ in 0..9 {
        w.move_cursor_down();
    }
    assert_eq!(w.screen_start(), 6);
    assert_eq!(w.cursor_position().y, 3);
    assert_eq!(w.get_cursor_line(), "line 9");
    let rows = w.queue_update();
    assert!(rows[3].highlighted);
    assert_eq!(row_text(&rows[3].line), "line 9");
}

#[test]
fn moving_down_past_the_end_parks_on_the_row_after() {
    let mut w = window(5, 20, &["a", "b"]);
    w.move_cursor_down();
    w.move_cursor_down();
    w.move_cursor_down();
    assert_eq!(w.screen_start(), 0);
    assert_eq!(w.cursor_position().y, 2);
    assert_eq!(w.get_cursor_line(), "");
    let rows = w.queue_update();
    assert!(rows[2].highlighted);
    assert_eq!(rows[2].fill, 20);
}

#[test]
fn moving_up_scrolls_back() {
    let mut w = window(2, 20, &["a", "b", "c", "d"]);
    for _ in 0..3 {
        w.move_cursor_down();
    }
    assert_eq!(w.screen_start(), 2);
    for _ in 0..2 {
        w.move_cursor_up();
    }
    assert_eq!(w.screen_start(), 1);
    assert_eq!(w.cursor_position().y, 0);
    assert_eq!(w.get_cursor_line(), "b");
    w.move_cursor_up();
    w.move_cursor_up();
    assert_eq!(w.screen_start(), 0);
    assert_eq!(w.cursor_position().y, 0);
}

#[test]
fn empty_buffer_gives_empty_cursor_line() {
    let mut w = window(3, 10, &["x", "y"]);
    w.set_lines(vec![]);
    assert_eq!(w.lines().len(), 1);
    assert_eq!(w.get_cursor_line(), "");
    let rows = w.queue_update();
    assert_eq!(rows.len(), 3);
    assert_eq!(row_text(&rows[0].line), "");
}

#[test]
fn set_lines_shorter_than_the_scroll_position() {
    let mut w = window(2, 10, &["a", "b", "c", "d", "e"]);
    w.move_screen_down(4);
    assert_eq!(w.screen_start(), 4);
    w.set_lines(text_lines(&["p", "q"]));
    assert_eq!(w.screen_start(), 1);
    assert_eq!(w.get_cursor_line(), "q");
}

#[test]
fn move_screen_stays_within_the_buffer() {
    let mut w = window(2, 10, &["a", "b", "c"]);
    w.move_screen_down(4);
    assert_eq!(w.screen_start(), 0);
    w.move_screen_down(2);
    assert_eq!(w.screen_start(), 2);
    w.move_screen_down(1);
    assert_eq!(w.screen_start(), 3);
    assert_eq!(w.get_cursor_line(), "");
    w.move_screen_up(4);
    assert_eq!(w.screen_start(), 3);
    w.move_screen_up(1);
    assert_eq!(w.screen_start(), 2);
}

#[test]
fn scrolling_to_the_end_pulls_the_cursor_up() {
    let mut w = window(3, 10, &["a", "b", "c"]);
    w.move_cursor_down();
    w.move_cursor_down();
    assert_eq!(w.cursor_position().y, 2);
    w.move_screen_down(2);
    assert_eq!(w.screen_start(), 2);
    assert_eq!(w.cursor_position().y, 1);
    assert_eq!(w.get_cursor_line(), "");
}

#[test]
fn cursor_stops_on_the_row_after_the_last_line() {
    let mut w = window(3, 10, &["a"]);
    w.move_cursor_down();
    w.move_cursor_down();
    assert_eq!(w.cursor_position().y, 1);
    w.set_cursor(2);
    assert_eq!(w.cursor_position().y, 1);
    let mut one = window(3, 10, &["a"]);
    one.move_screen_down(1);
    assert_eq!(one.screen_start(), 1);
    assert_eq!(one.cursor_position().y, 0);
}

#[test]
fn shrinking_the_buffer_pulls_the_cursor_up() {
    let mut w = window(5, 10, &["a", "b", "c", "d", "e"]);
    for _ in 0..4 {
        w.move_cursor_down();
    }
    assert_eq!(w.cursor_position().y, 4);
    w.set_lines(text_lines(&["x", "y"]));
    assert_eq!(w.screen_start(), 0);
    assert_eq!(w.cursor_position().y, 2);
    assert_eq!(w.get_cursor_line(), "");
}

#[test]
fn search_next_then_prev_returns_to_the_match() {
    let mut w = window(3, 20, &["foo", "bar", "foo bar", "baz", "food"]);
    w.move_next("foo");
    assert_eq!(w.get_cursor_line(), "foo bar");
    w.move_next("foo");
    assert_eq!(w.get_cursor_line(), "food");
    assert_eq!(w.screen_start(), 2);
    w.move_prev("foo");
    assert_eq!(w.get_cursor_line(), "foo bar");
    w.move_prev("foo");
    assert_eq!(w.get_cursor_line(), "foo");
    assert_eq!(w.screen_start(), 0);
    assert_eq!(w.cursor_position().y, 0);
}

#[test]
fn search_prev_with_no_earlier_match_leaves_cursor() {
    let mut w = window(3, 20, &["one", "two", "three"]);
    w.move_next("three");
    assert_eq!(w.get_cursor_line(), "three");
    w.move_prev("three");
    assert_eq!(w.get_cursor_line(), "three");
    assert_eq!(w.cursor_position().y, 2);
}

#[test]
fn search_without_match_or_term_is_a_no_op() {
    let mut w = window(3, 20, &["one", "two", "three"]);
    w.move_next("four");
    assert_eq!(w.cursor_position().y, 0);
    w.move_next("");
    assert_eq!(w.cursor_position().y, 0);
    w.move_prev("one");
    assert_eq!(w.cursor_position().y, 0);
}

#[test]
fn search_matches_across_parts() {
    let mut w = Window::new(ScreenSize { lines: 3, cols: 20 });
    w.set_lines(vec![
        Line::plain("start"),
        Line::new(vec![Part::bold("he"), Part::plain("llo")]),
    ]);
    w.move_next("ell");
    assert_eq!(w.cursor_position().y, 1);
}

#[test]
fn single_part_wraps_into_two_rows_keeping_styles() {
    let lines = vec![Line::new(vec![Part::bold("abcdefgh")])];
    let rows = wrap(&lines, 5);
    assert_eq!(rows.len(), 2);
    assert_eq!(rows[0].parts.len(), 1);
    assert_eq!(rows[0].parts[0].value, "abcde");
    assert_eq!(rows[1].parts[0].value, "fgh");
    assert_eq!(rows[0].parts[0].styles, vec![Style::Bold]);
    assert_eq!(rows[1].parts[0].styles, vec![Style::Bold]);
    assert_eq!(format!("{}{}", rows[0].value(), rows[1].value()), "abcdefgh");
}

#[test]
fn wrapped_suffix_goes_before_the_next_line() {
    let lines = vec![
        Line::new(vec![Part::plain("abc"), Part::underlined("defg"), Part::plain("hi")]),
        Line::plain("xyz"),
    ];
    let rows = wrap(&lines, 5);
    let texts: Vec<String> = rows.iter().map(|r| r.value()).collect();
    assert_eq!(texts, vec!["abcde", "fghixyz"]);
    assert_eq!(rows[1].parts[0].styles, vec![Style::Underlined]);
    assert_eq!(rows[1].parts[0].value, "fg");
    assert_eq!(rows[1].parts[1].value, "hi");
}

#[test]
fn wrap_keeps_short_lines_whole() {
    let lines = text_lines(&["ab", "", "cde"]);
    let rows = wrap(&lines, 3);
    let texts: Vec<String> = rows.iter().map(|r| r.value()).collect();
    assert_eq!(texts, vec!["ab", "", "cde"]);
}

#[test]
fn highlighted_row_is_filled_to_full_width() {
    let lines = text_lines(&["abc", "defgh"]);
    let rows = frame(&lines, 3, 10, 0, true);
    assert_eq!(rows.len(), 3);
    assert!(rows[0].highlighted);
    assert_eq!(rows[0].fill, 7);
    assert!(!rows[1].highlighted);
    assert_eq!(rows[1].fill, 0);
    let hidden = frame(&lines, 3, 10, 0, false);
    assert!(!hidden[0].highlighted);
    assert_eq!(hidden[0].fill, 0);
    let full = frame(&text_lines(&["0123456789"]), 1, 10, 0, true);
    assert_eq!(full[0].fill, 0);
}

#[test]
fn hidden_cursor_has_no_highlight() {
    let mut w = window(3, 8, &["abc"]);
    w.show_cursor(false);
    let rows = w.queue_update();
    assert!(rows.iter().all(|r| !r.highlighted && r.fill == 0));
    w.show_cursor(true);
    let rows = w.queue_update();
    assert!(rows[0].highlighted);
    assert_eq!(rows[0].fill, 5);
}

#[test]
fn resize_clamps_the_cursor() {
    let mut w = window(5, 10, &["a", "b", "c", "d", "e"]);
    for _ in 0..4 {
        w.move_cursor_down();
    }
    w.resize(ScreenSize { lines: 2, cols: 4 });
    assert_eq!(w.height(), 2);
    assert_eq!(w.width(), 4);
    assert_eq!(w.cursor_position().y, 1);
    assert_eq!(w.queue_update().len(), 2);
}

#[test]
fn screen_size_resolution() {
    let avail = ScreenSize { lines: 40, cols: 120 };
    assert_eq!(ScreenSize::max().resolve(avail), avail);
    assert_eq!(ScreenSize { lines: 2, cols: 0 }.resolve(avail), ScreenSize { lines: 2, cols: 120 });
    assert_eq!(ScreenSize { lines: 5, cols: 30 }.resolve(avail), ScreenSize { lines: 5, cols: 30 });
    assert!(ScreenSize::max().is_max());
}

#[test]
fn text_entry_edits_the_cursor_line() {
    let mut w = Window::new(ScreenSize { lines: 1, cols: 20 });
    for c in "hlo".chars() {
        assert!(w.edit(c as i32));
    }
    assert_eq!(w.get_cursor_line(), "hlo");
    assert_eq!(w.cursor_position().x, 3);
    assert!(w.edit(KEY_LEFT));
    assert!(w.edit(KEY_LEFT));
    assert!(w.edit('e' as i32));
    assert_eq!(w.get_cursor_line(), "helo");
    assert!(w.edit('l' as i32));
    assert_eq!(w.get_cursor_line(), "hello");
    assert_eq!(w.cursor_position().x, 3);
    assert!(w.edit(KEY_DEL));
    assert_eq!(w.get_cursor_line(), "helo");
    assert_eq!(w.cursor_position().x, 2);
    assert!(w.edit(KEY_DELETE));
    assert_eq!(w.get_cursor_line(), "heo");
    assert!(w.edit(KEY_RIGHT));
    assert!(w.edit(KEY_RIGHT));
    assert_eq!(w.cursor_position().x, 3);
    assert!(w.edit(KEY_DELETE));
    assert_eq!(w.get_cursor_line(), "heo");
    assert!(!w.edit(KEY_LF));
    assert!(!w.edit(KEY_ESC));
    assert_eq!(w.get_cursor_line(), "heo");
}

#[test]
fn backspace_at_line_start_does_nothing() {
    let mut w = Window::new(ScreenSize { lines: 1, cols: 20 });
    assert!(w.edit(KEY_DEL));
    assert_eq!(w.get_cursor_line(), "");
    assert!(w.edit(KEY_LEFT));
    assert_eq!(w.cursor_position().x, 0);
}

#[test]
fn key_codes_are_normalized() {
    assert_eq!(key_code(KeyInput::Char('d'), true), Some(KEY_EOT));
    assert_eq!(key_code(KeyInput::Char('u'), true), Some(KEY_NAK));
    assert_eq!(key_code(KeyInput::Char('x'), true), Some('x' as i32));
    assert_eq!(key_code(KeyInput::Char('j'), false), Some(106));
    assert_eq!(key_code(KeyInput::Enter, false), Some(KEY_LF));
    assert_eq!(key_code(KeyInput::Esc, false), Some(KEY_ESC));
    assert_eq!(key_code(KeyInput::Backspace, false), Some(KEY_DEL));
    assert_eq!(key_code(KeyInput::Delete, false), Some(KEY_DELETE));
    assert_eq!(key_code(KeyInput::Left, false), Some(KEY_LEFT));
    assert_eq!(key_code(KeyInput::Right, false), Some(KEY_RIGHT));
    assert_eq!(key_code(KeyInput::Enter, true), None);
    assert_eq!(key_code(KeyInput::Other, false), None);
}

#[test]
fn bindings_override_and_remove() {
    let mut b = KeyBindings::new();
    assert_eq!(b.get(106), None);
    b.insert(106, 1);
    b.insert(110, 2);
    b.insert(106, 3);
    assert_eq!(b.get(106), Some(3));
    assert_eq!(b.get(110), Some(2));
    b.remove(106);
    assert_eq!(b.get(106), None);
    assert!(b.contains(110));
    assert!(!b.contains(106));
}

#[test]
fn builtin_keys_resolve_unless_overridden() {
    let mut b = KeyBindings::new();
    assert_eq!(resolve(&b, 'j' as i32), KeyAction::CursorDown);
    assert_eq!(resolve(&b, 'k' as i32), KeyAction::CursorUp);
    assert_eq!(resolve(&b, 'q' as i32), KeyAction::Stop);
    assert_eq!(resolve(&b, KEY_EOT), KeyAction::PageDown);
    assert_eq!(resolve(&b, KEY_NAK), KeyAction::PageUp);
    assert_eq!(resolve(&b, 'z' as i32), KeyAction::Nothing);
    b.insert('j' as i32, 7);
    assert_eq!(resolve(&b, 'j' as i32), KeyAction::Handler(7));
}

#[test]
fn page_keys_move_twenty_lines() {
    let texts: Vec<String> = (0..50).map(|i| i.to_string()).collect();
    let refs: Vec<&str> = texts.iter().map(|s| s.as_str()).collect();
    let mut w = window(10, 20, &refs);
    assert!(apply_builtin(&mut w, KeyAction::PageDown));
    assert_eq!(w.get_cursor_line(), "20");
    assert_eq!(w.screen_start(), 11);
    assert!(apply_builtin(&mut w, KeyAction::PageUp));
    assert_eq!(w.get_cursor_line(), "0");
    assert!(!apply_builtin(&mut w, KeyAction::Stop));
    assert!(apply_builtin(&mut w, KeyAction::Handler(3)));
    assert_eq!(w.get_cursor_line(), "0");
}

fn run_until_read(session: &mut RenderLoop) -> Action {
    let mut a = session.next(Event::Done);
    assert_eq!(a, Action::Start);
    a = session.next(Event::Done);
    assert_eq!(a, Action::Flush);
    a = session.next(Event::Done);
    assert_eq!(a, Action::Render);
    session.next(Event::Proceed(true))
}

#[test]
fn render_loop_order() {
    let mut s = RenderLoop::new();
    assert_eq!(s.pending(), Action::Start);
    assert_eq!(run_until_read(&mut s), Action::ReadKey);
    assert_eq!(s.next(Event::Key('j' as i32)), Action::Dispatch('j' as i32));
    assert_eq!(s.next(Event::Proceed(true)), Action::Flush);
    assert_eq!(s.next(Event::Done), Action::Render);
    assert_eq!(s.next(Event::Proceed(false)), Action::Exit);
    assert_eq!(s.next(Event::Done), Action::Finish);
    assert!(s.is_finished());
    assert_eq!(s.phase, Phase::Exited);
}

#[test]
fn draw_only_session_reads_no_key() {
    let mut s = RenderLoop::draw_only();
    assert_eq!(s.next(Event::Done), Action::Start);
    assert_eq!(s.next(Event::Done), Action::Flush);
    assert_eq!(s.next(Event::Done), Action::Finish);
    assert!(s.is_finished());
}

#[test]
fn mismatched_event_keeps_the_pending_action() {
    let mut s = RenderLoop::new();
    s.next(Event::Done);
    assert_eq!(s.next(Event::Key(3)), Action::Start);
    assert_eq!(s.phase, Phase::Starting);
}

#[test]
fn modal_child_closes_then_parent_redraws_before_reading() {
    let mut parent_window = window(5, 20, &["status"]);
    let mut parent = RenderLoop::new();
    let mut trace: Vec<&str> = vec![];
    assert_eq!(run_until_read(&mut parent), Action::ReadKey);
    let mut bindings = KeyBindings::new();
    bindings.insert('l' as i32, 1);
    let a = parent.next(Event::Key('l' as i32));
    assert_eq!(a, Action::Dispatch('l' as i32));
    assert_eq!(resolve(&bindings, 'l' as i32), KeyAction::Handler(1));

    // The handler opens a child session over a smaller region.
    let mut child_window = window(2, 20, &["log"]);
    let mut child = RenderLoop::new();
    assert_eq!(run_until_read(&mut child), Action::ReadKey);
    let key = child.next(Event::Key('q' as i32));
    assert_eq!(key, Action::Dispatch('q' as i32));
    let action = resolve(&KeyBindings::new(), 'q' as i32);
    let go = apply_builtin(&mut child_window, action);
    assert!(!go);
    assert_eq!(child.next(Event::Proceed(go)), Action::Exit);
    trace.push("child exit");
    assert_eq!(child.next(Event::Done), Action::Finish);

    // The parent's handler reports the return; the session starts the
    // component again, which reloads its lines, before the fresh frame.
    assert_eq!(parent.next(Event::Reload), Action::Restart);
    parent_window.set_lines(text_lines(&["status", "refreshed"]));
    trace.push("parent start");
    let after = parent.next(Event::Done);
    assert_eq!(after, Action::Flush);
    trace.push("flush");
    let rows = parent_window.queue_update();
    assert_eq!(row_text(&rows[1].line), "refreshed");
    assert_eq!(parent.next(Event::Done), Action::Render);
    assert_eq!(parent.next(Event::Proceed(true)), Action::ReadKey);
    trace.push("read");
    assert_eq!(trace, vec!["child exit", "parent start", "flush", "read"]);
}

#[test]
fn line_value_concatenates_parts() {
    let l = Line::new(vec![Part::bold("ab"), Part::painted("cd", (1, 2, 3), (4, 5, 6)), Part::plain("")]);
    assert_eq!(l.value(), "abcd");
    assert_eq!(Line::empty().value(), "");
    let p = Part::new("x", None);
    assert_eq!(p.styles, vec![Style::Plain]);
    let s = Line::from_string("y".to_string(), Some(vec![Style::Bold, Style::Underlined]));
    assert_eq!(s.parts[0].styles, vec![Style::Bold, Style::Underlined]);
}

#[test]
fn position_helpers() {
    let p = Position { x: 3, y: 4 };
    assert_eq!(p.left(1), Position { x: 2, y: 4 });
    assert_eq!(p.right(2), Position { x: 5, y: 4 });
    assert_eq!(p.up(1), Position { x: 3, y: 5 });
    assert_eq!(p.down(1), Position { x: 3, y: 3 });
    let mut q = p;
    q.move_right(1);
    q.move_down(2);
    assert_eq!(q, Position { x: 4, y: 2 });
}

#[test]
fn ascii_codes_by_name_or_character() {
    assert_eq!(ascii_to_char(0), "NUL");
    assert_eq!(ascii_to_char(4), "EOT");
    assert_eq!(ascii_to_char(9), "\t");
    assert_eq!(ascii_to_char(27), "ESC");
    assert_eq!(ascii_to_char(32), " ");
    assert_eq!(ascii_to_char(34), "\"");
    assert_eq!(ascii_to_char(92), "\\");
    assert_eq!(ascii_to_char(106), "j");
    assert_eq!(ascii_to_char(126), "~");
    assert_eq!(ascii_to_char(127), "DEL");
    for code in 32..127 {
        assert_eq!(ascii_to_char(code), (code as u8 as char).to_string());
    }
}
