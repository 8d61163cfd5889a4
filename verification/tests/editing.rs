use editor_core::input::{Input, InputDestination};
use editor_core::state::State;

fn apply_all(state: &mut State, inputs: &[Input]) {
    for input in inputs {
        assert_eq!(state.accept_input(*input), None);
    }
}

fn typed(text: &str) -> State {
    let mut state = State::default();
    for c in text.chars() {
        state.accept_input(Input::NormalChar(c));
    }
    state
}

#[test]
fn idle_changes_nothing() {
    let mut state = typed("abc");
    assert_eq!(state.accept_input(Input::Idle), None);
    assert_eq!(state.file_contents(), "abc");
    assert_eq!(state.cursor(), 3);
    assert_eq!(state.input_destination(), InputDestination::Buffer);
    assert_eq!(state.latest_message(), None);
    assert!(!state.exited());
}

#[test]
fn backspace_at_start_is_a_no_op() {
    let mut state = State::default();
    assert_eq!(state.accept_input(Input::Backspace), None);
    assert_eq!(state.file_contents(), "");
    assert_eq!(state.cursor(), 0);

    let mut state = typed("ab");
    apply_all(&mut state, &[Input::MoveLeft, Input::MoveLeft]);
    assert_eq!(state.cursor(), 0);
    assert_eq!(state.accept_input(Input::Backspace), None);
    assert_eq!(state.file_contents(), "ab");
    assert_eq!(state.cursor(), 0);
}

#[test]
fn backspace_removes_the_character_before_the_cursor() {
    let mut state = typed("abc");
    apply_all(&mut state, &[Input::MoveLeft, Input::Backspace]);
    assert_eq!(state.file_contents(), "ac");
    assert_eq!(state.cursor(), 1);
    apply_all(&mut state, &[Input::Backspace]);
    assert_eq!(state.file_contents(), "c");
    assert_eq!(state.cursor(), 0);
}

#[test]
fn characters_go_in_at_the_cursor() {
    let mut state = typed("ad");
    apply_all(&mut state, &[Input::MoveLeft, Input::NormalChar('b'), Input::NormalChar('c')]);
    assert_eq!(state.file_contents(), "abcd");
    assert_eq!(state.cursor(), 3);
    apply_all(
        &mut state,
        &[Input::MoveLeft, Input::MoveLeft, Input::MoveLeft, Input::NormalChar('>')],
    );
    assert_eq!(state.file_contents(), ">abcd");
    assert_eq!(state.cursor(), 1);
}

#[test]
fn enter_breaks_the_line_at_the_cursor() {
    let mut state = typed("ab");
    apply_all(&mut state, &[Input::MoveLeft, Input::Enter]);
    assert_eq!(state.file_contents(), "a\nb");
    assert_eq!(state.cursor(), 2);
    assert_eq!(state.input_destination(), InputDestination::Buffer);
    assert_eq!(state.latest_message(), None);
}

#[test]
fn cursor_stops_at_both_ends() {
    let mut state = typed("xy");
    apply_all(&mut state, &[Input::MoveRight]);
    assert_eq!(state.cursor(), 2);
    apply_all(&mut state, &[Input::MoveLeft]);
    assert_eq!(state.cursor(), 1);
    apply_all(&mut state, &[Input::MoveLeft, Input::MoveLeft, Input::MoveLeft]);
    assert_eq!(state.cursor(), 0);
    apply_all(&mut state, &[Input::MoveRight, Input::MoveRight, Input::MoveRight]);
    assert_eq!(state.cursor(), 2);
    assert_eq!(state.file_contents(), "xy");
}

#[test]
fn cursor_counts_characters_not_bytes() {
    let mut state = typed("héllo");
    assert_eq!(state.cursor(), 5);
    assert_eq!(state.file_contents().len(), 6);
    apply_all(&mut state, &[Input::MoveLeft, Input::MoveLeft, Input::MoveLeft, Input::Backspace]);
    assert_eq!(state.file_contents(), "hllo");
    assert_eq!(state.cursor(), 1);
    apply_all(&mut state, &[Input::NormalChar('ä'), Input::NormalChar('日')]);
    assert_eq!(state.file_contents(), "hä日llo");
    assert_eq!(state.cursor(), 3);
    apply_all(&mut state, &[Input::MoveRight, Input::NormalChar('本')]);
    assert_eq!(state.file_contents(), "hä日l本lo");
    assert_eq!(state.cursor(), 5);
}

#[test]
fn cursor_stays_in_the_document_whatever_is_typed() {
    let mut state = State::default();
    let inputs = [
        Input::Backspace,
        Input::NormalChar('a'),
        Input::NormalChar('b'),
        Input::Backspace,
        Input::Backspace,
        Input::Backspace,
        Input::NormalChar('ß'),
        Input::NormalChar('c'),
        Input::Backspace,
        Input::NormalChar('d'),
        Input::Backspace,
        Input::Backspace,
        Input::Backspace,
        Input::NormalChar('e'),
    ];
    let lengths = [0, 1, 2, 1, 0, 0, 1, 2, 1, 2, 1, 0, 0, 1];
    for (input, length) in inputs.iter().zip(lengths) {
        assert_eq!(state.accept_input(*input), None);
        assert_eq!(state.file_contents().chars().count(), length);
        assert_eq!(state.cursor(), length);
        assert_eq!(state.input_destination(), InputDestination::Buffer);
    }
    assert_eq!(state.file_contents(), "e");
}

#[test]
fn backspace_undoes_a_typed_character() {
    let mut state = typed("one two");
    apply_all(&mut state, &[Input::MoveLeft, Input::MoveLeft, Input::MoveLeft]);
    apply_all(&mut state, &[Input::NormalChar('!'), Input::Backspace]);
    assert_eq!(state.file_contents(), "one two");
    assert_eq!(state.cursor(), 4);
}

#[test]
fn new_file_empties_the_document() {
    let mut state = typed("words");
    state.accept_input(Input::Open);
    for c in "f.txt".chars() {
        state.accept_input(Input::NormalChar(c));
    }
    state.accept_input(Input::Enter);
    state.finish_open("f.txt".to_string(), Ok("from the file".to_string()));
    apply_all(&mut state, &[Input::MoveRight, Input::MoveRight]);
    assert_eq!(state.current_file_name(), Some("f.txt"));
    assert_eq!(state.cursor(), 2);

    assert_eq!(state.accept_input(Input::New), None);
    assert_eq!(state.file_contents(), "");
    assert_eq!(state.cursor(), 0);
    assert_eq!(state.current_file_name(), None);
    assert_eq!(state.input_destination(), InputDestination::Buffer);
}
