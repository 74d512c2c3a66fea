use gut::color::Color;
use gut::selector::{clear_frame, render_frame, select_from_keys, Key, SelectError, Selector};
use gut::term::{foreground, reset_foreground, up_one_line};

fn names(items: &[&str]) -> Vec<String> {
    items.iter().map(|s| s.to_string()).collect()
}

#[test]
fn down_down_enter_picks_third() {
    let items = names(&["a", "b", "c"]);
    let keys = vec![Key::Down, Key::Down, Key::Enter];
    assert_eq!(select_from_keys(&items, None, &keys), Ok(Some(2)));
}

#[test]
fn up_from_second_picks_first() {
    let items = names(&["a", "b"]);
    let keys = vec![Key::Up, Key::Enter];
    assert_eq!(select_from_keys(&items, Some(1), &keys), Ok(Some(0)));
}

#[test]
fn single_item_enter_picks_it() {
    let items = names(&["only"]);
    assert_eq!(select_from_keys(&items, None, &vec![Key::Enter]), Ok(Some(0)));
}

#[test]
fn esc_q_and_newline_end_the_selection() {
    let items = names(&["a", "b", "c"]);
    assert_eq!(select_from_keys(&items, None, &vec![Key::Down, Key::Esc, Key::Down]), Ok(Some(1)));
    assert_eq!(select_from_keys(&items, None, &vec![Key::Down, Key::Char('q')]), Ok(Some(1)));
    assert_eq!(select_from_keys(&items, Some(2), &vec![Key::Char('\n')]), Ok(Some(2)));
}

#[test]
fn other_keys_are_ignored() {
    let items = names(&["a", "b", "c"]);
    let keys = vec![Key::Char('x'), Key::Other, Key::Down, Key::Char('j'), Key::Enter];
    assert_eq!(select_from_keys(&items, None, &keys), Ok(Some(1)));
}

#[test]
fn keys_running_out_choose_nothing() {
    let items = names(&["a", "b"]);
    assert_eq!(select_from_keys(&items, None, &vec![Key::Down]), Ok(None));
    assert_eq!(select_from_keys(&items, None, &vec![]), Ok(None));
}

#[test]
fn empty_list_is_refused() {
    let items: Vec<String> = vec![];
    assert_eq!(select_from_keys(&items, None, &vec![Key::Enter]), Err(SelectError::EmptyList));
    assert!(Selector::new(0, Some(0)).is_err());
}

#[test]
fn initial_past_end_goes_to_last() {
    let s = Selector::new(3, Some(7)).ok().unwrap();
    assert_eq!(s.cursor(), 2);
    assert_eq!(s.len(), 3);
}

#[test]
fn cursor_stays_in_range_for_any_moves() {
    let len = 4usize;
    let mut s = Selector::new(len, Some(1)).ok().unwrap();
    let moves = [
        Key::Up, Key::Up, Key::Up, Key::Down, Key::Down, Key::Down, Key::Down, Key::Down,
        Key::Down, Key::Up, Key::Down, Key::Down, Key::Up, Key::Up, Key::Up, Key::Up, Key::Up,
    ];
    for k in moves {
        assert_eq!(s.handle(Some(k)), None);
        assert!(s.cursor() < len);
    }
    assert_eq!(s.cursor(), 0);
}

#[test]
fn ends_do_not_wrap() {
    let mut s = Selector::new(3, None).ok().unwrap();
    s.handle(Some(Key::Up));
    assert_eq!(s.cursor(), 0);
    let mut s = Selector::new(3, Some(2)).ok().unwrap();
    s.handle(Some(Key::Down));
    assert_eq!(s.cursor(), 2);
}

#[test]
fn no_key_changes_nothing() {
    let mut s = Selector::new(3, Some(1)).ok().unwrap();
    assert_eq!(s.handle(None), None);
    assert_eq!(s.cursor(), 1);
}

#[test]
fn frame_highlights_the_cursor_item() {
    let items = names(&["a", "b"]);
    let frame = render_frame(&items, 1, Color::Green);
    assert_eq!(frame, "\x1b[39ma\n\r\x1b[38;5;2mb\n\r\x1b[39m");
}

#[test]
fn clearing_moves_up_once_per_line() {
    assert_eq!(clear_frame(3), "\x1b[1A\x1b[1A\x1b[1A");
    assert_eq!(clear_frame(0), "");
}

#[test]
fn control_sequences() {
    assert_eq!(foreground(Color::Black), "\x1b[38;5;0m");
    assert_eq!(foreground(Color::White), "\x1b[38;5;7m");
    assert_eq!(reset_foreground(), "\x1b[39m");
    assert_eq!(up_one_line(), "\x1b[1A");
}
