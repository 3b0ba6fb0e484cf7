use launcher_ui::dispatch::KeyInput;
use launcher_ui::dispatch::Outcome;
use launcher_ui::session::Session;

fn chars(s: &str) -> Vec<char> {
    s.chars().collect()
}

fn key(ch: char) -> KeyInput {
    KeyInput::Char { ch, ctrl: false }
}

#[test]
fn new_session_defaults() {
    let s = Session::new(chars("> "));
    assert!(s.running);
    assert_eq!(s.query, chars(""));
    assert_eq!(s.prompt, chars("> "));
    assert_eq!(s.cursor_index, 0);
    assert_eq!(s.list_len, 0);
    assert_eq!(s.selection, None);
    assert!(!s.completion_active);
    assert!(s.is_well_formed());
}

#[test]
fn scenario_typing_left_backspace() {
    let mut s = Session::new(chars(""));
    assert_eq!(s.handle_key(key('a')), Outcome::Continue);
    assert_eq!(s.handle_key(key('b')), Outcome::Continue);
    assert_eq!(s.query, chars("ab"));
    assert_eq!(s.cursor_index, 2);
    assert_eq!(s.handle_key(KeyInput::Left), Outcome::Continue);
    assert_eq!(s.cursor_index, 1);
    assert_eq!(s.handle_key(KeyInput::Backspace), Outcome::Continue);
    assert_eq!(s.query, chars("b"));
    assert_eq!(s.cursor_index, 0);
}

#[test]
fn insert_in_the_middle() {
    let mut s = Session::new(chars(""));
    s.insert('a');
    s.insert('c');
    s.move_left();
    s.insert('b');
    assert_eq!(s.query, chars("abc"));
    assert_eq!(s.cursor_index, 2);
}

#[test]
fn delete_at_start_is_noop() {
    let mut s = Session::new(chars(""));
    s.insert('x');
    s.move_left();
    assert_eq!(s.cursor_index, 0);
    s.delete_before_cursor();
    assert_eq!(s.query, chars("x"));
    assert_eq!(s.cursor_index, 0);
}

#[test]
fn delete_treats_delete_like_backspace() {
    let mut s = Session::new(chars(""));
    s.insert('x');
    s.insert('y');
    assert_eq!(s.handle_key(KeyInput::Delete), Outcome::Continue);
    assert_eq!(s.query, chars("x"));
    assert_eq!(s.cursor_index, 1);
}

#[test]
fn move_right_stops_at_end() {
    let mut s = Session::new(chars(""));
    s.insert('x');
    assert_eq!(s.cursor_index, 1);
    s.move_right();
    assert_eq!(s.cursor_index, 1);
    s.move_left();
    s.move_right();
    assert_eq!(s.cursor_index, 1);
}

#[test]
fn move_left_stops_at_start() {
    let mut s = Session::new(chars(""));
    s.move_left();
    assert_eq!(s.cursor_index, 0);
}

#[test]
fn step_on_empty_list_is_noop() {
    let mut s = Session::new(chars(""));
    s.step_selection(1);
    assert_eq!(s.selection, None);
    s.step_selection(-1);
    assert_eq!(s.selection, None);
}

#[test]
fn wraparound_back_from_first() {
    let mut s = Session::new(chars(""));
    s.set_list_len(3);
    assert_eq!(s.selection, Some(0));
    s.step_selection(-1);
    assert_eq!(s.selection, Some(2));
}

#[test]
fn wraparound_forward_from_last() {
    let mut s = Session {
        running: true,
        query: chars(""),
        prompt: chars(""),
        cursor_index: 0,
        list_len: 3,
        selection: Some(2),
        completion_active: false,
    };
    s.step_selection(1);
    assert_eq!(s.selection, Some(0));
}

#[test]
fn scenario_down_twice() {
    let mut s = Session::new(chars(""));
    s.set_list_len(2);
    assert_eq!(s.selection, Some(0));
    assert_eq!(s.handle_key(KeyInput::Down), Outcome::Continue);
    assert_eq!(s.selection, Some(1));
    assert_eq!(s.handle_key(KeyInput::Down), Outcome::Continue);
    assert_eq!(s.selection, Some(0));
}

#[test]
fn up_steps_backwards() {
    let mut s = Session::new(chars(""));
    s.set_list_len(2);
    assert_eq!(s.handle_key(KeyInput::Up), Outcome::Continue);
    assert_eq!(s.selection, Some(1));
}

#[test]
fn scenario_enter_on_empty_list_continues() {
    let mut s = Session::new(chars(""));
    s.set_list_len(0);
    assert_eq!(s.handle_key(KeyInput::Enter), Outcome::Continue);
    assert_eq!(s.selection, None);
}

#[test]
fn enter_confirms_selection() {
    let mut s = Session::new(chars(""));
    s.set_list_len(3);
    s.step_selection(1);
    assert_eq!(s.handle_key(KeyInput::Enter), Outcome::Confirm(1));
    assert_eq!(s.selection, Some(1));
}

#[test]
fn scenario_cancel_exits_from_any_state() {
    let cancel = KeyInput::Char { ch: 'c', ctrl: true };

    let mut fresh = Session::new(chars("> "));
    assert_eq!(fresh.handle_key(cancel), Outcome::Cancel);

    let mut mid = Session {
        running: true,
        query: chars("ab"),
        prompt: chars("> "),
        cursor_index: 1,
        list_len: 3,
        selection: Some(2),
        completion_active: true,
    };
    assert_eq!(mid.handle_key(cancel), Outcome::Cancel);
    assert_eq!(mid.query, chars("ab"));
    assert_eq!(mid.cursor_index, 1);
    assert_eq!(mid.selection, Some(2));
    assert!(mid.completion_active);
}

#[test]
fn plain_c_is_inserted() {
    let mut s = Session::new(chars(""));
    assert_eq!(s.handle_key(key('c')), Outcome::Continue);
    assert_eq!(s.query, chars("c"));
}

#[test]
fn control_with_other_char_is_inserted() {
    let mut s = Session::new(chars(""));
    assert_eq!(s.handle_key(KeyInput::Char { ch: 'x', ctrl: true }), Outcome::Continue);
    assert_eq!(s.query, chars("x"));
}

#[test]
fn unrecognized_key_waits() {
    let mut s = Session::new(chars(""));
    s.insert('a');
    assert_eq!(s.handle_key(KeyInput::Other), Outcome::Wait);
    assert_eq!(s.query, chars("a"));
    assert_eq!(s.cursor_index, 1);
}

#[test]
fn tab_arms_preview_and_advances() {
    let mut s = Session::new(chars(""));
    s.set_list_len(3);
    assert_eq!(s.handle_key(KeyInput::Tab), Outcome::Continue);
    assert_eq!(s.selection, Some(1));
    assert!(s.completion_active);
}

#[test]
fn tab_on_empty_list_changes_nothing() {
    let mut s = Session::new(chars(""));
    assert_eq!(s.handle_key(KeyInput::Tab), Outcome::Continue);
    assert_eq!(s.selection, None);
    assert!(!s.completion_active);
}

#[test]
fn activate_preview_needs_candidates() {
    let mut s = Session::new(chars(""));
    s.activate_preview();
    assert!(!s.completion_active);
    s.set_list_len(1);
    s.activate_preview();
    assert!(s.completion_active);
}

#[test]
fn reset_if_unset_selects_first() {
    let mut s = Session::new(chars(""));
    s.list_len = 2;
    s.reset_if_unset();
    assert_eq!(s.selection, Some(0));
}

#[test]
fn reset_if_unset_clears_on_empty() {
    let mut s = Session::new(chars(""));
    s.list_len = 2;
    s.selection = Some(1);
    s.list_len = 0;
    s.reset_if_unset();
    assert_eq!(s.selection, None);
}

#[test]
fn set_list_len_clamps_shrunk_selection() {
    let mut s = Session::new(chars(""));
    s.set_list_len(3);
    s.step_selection(-1);
    assert_eq!(s.selection, Some(2));
    s.set_list_len(2);
    assert_eq!(s.selection, Some(1));
    s.set_list_len(0);
    assert_eq!(s.selection, None);
}

#[test]
fn set_prompt_and_get_query() {
    let mut s = Session::new(chars("> "));
    s.insert('q');
    s.set_prompt(chars("run: "));
    assert_eq!(s.prompt, chars("run: "));
    assert_eq!(s.get_query(), &chars("q"));
}

#[test]
fn mark_stopped_is_idempotent() {
    let mut s = Session::new(chars(""));
    assert!(s.is_running());
    s.mark_stopped();
    assert!(!s.is_running());
    s.mark_stopped();
    assert!(!s.is_running());
}
