use editor_core::error::EditorError;
use editor_core::input::Input;
use editor_core::state::State;

fn with_a_message() -> State {
    let mut state = State::default();
    state.accept_input(Input::Open);
    state.accept_input(Input::Enter);
    state
}

#[test]
fn no_message_to_begin_with() {
    let state = State::default();
    assert_eq!(state.latest_message(), None);
    assert!(state.messages().is_empty());
}

#[test]
fn a_recorded_message_is_on_show() {
    let state = with_a_message();
    assert_eq!(state.latest_message(), Some("No file specified"));
    assert_eq!(state.messages(), &vec!["No file specified".to_string()]);
}

#[test]
fn dismissing_hides_the_message_and_keeps_the_log() {
    let mut state = with_a_message();
    assert_eq!(state.accept_input(Input::ClearMessage), None);
    assert_eq!(state.latest_message(), None);
    assert_eq!(state.messages(), &vec!["No file specified".to_string()]);
}

#[test]
fn dismissing_again_changes_nothing() {
    let mut state = with_a_message();
    state.finish_save(Err("disk full".to_string()));
    for _ in 0..4 {
        assert_eq!(state.accept_input(Input::ClearMessage), None);
        assert_eq!(state.latest_message(), None);
        assert_eq!(
            state.messages(),
            &vec!["No file specified".to_string(), "IO error: disk full".to_string()]
        );
    }
}

#[test]
fn dismissing_with_nothing_to_dismiss() {
    let mut state = State::default();
    assert_eq!(state.accept_input(Input::ClearMessage), None);
    assert_eq!(state.accept_input(Input::ClearMessage), None);
    assert_eq!(state.latest_message(), None);
    assert!(state.messages().is_empty());
}

#[test]
fn the_newest_message_is_the_one_on_show() {
    let mut state = with_a_message();
    state.finish_open("a".to_string(), Err("first".to_string()));
    assert_eq!(state.latest_message(), Some("IO error: first"));
    state.finish_save(Err("second".to_string()));
    assert_eq!(state.latest_message(), Some("IO error: second"));
    assert_eq!(state.messages().len(), 3);
}

#[test]
fn opening_a_prompt_hides_the_message() {
    let mut state = with_a_message();
    state.accept_input(Input::Save);
    assert_eq!(state.latest_message(), None);
    assert_eq!(state.messages().len(), 1);

    let mut state = with_a_message();
    state.accept_input(Input::Open);
    assert_eq!(state.latest_message(), None);
    assert_eq!(state.messages().len(), 1);
}

#[test]
fn confirming_a_prompt_hides_the_message() {
    let mut state = with_a_message();
    state.accept_input(Input::Save);
    state.finish_save(Err("late report".to_string()));
    assert_eq!(state.latest_message(), Some("IO error: late report"));
    state.accept_input(Input::NormalChar('f'));
    assert_eq!(state.latest_message(), Some("IO error: late report"));
    assert!(state.accept_input(Input::Enter).is_some());
    assert_eq!(state.latest_message(), None);
    assert_eq!(state.messages().len(), 2);
}

#[test]
fn typing_leaves_the_message_on_show() {
    let mut state = with_a_message();
    state.accept_input(Input::NormalChar('a'));
    state.accept_input(Input::Backspace);
    state.accept_input(Input::MoveLeft);
    state.accept_input(Input::New);
    state.accept_input(Input::Idle);
    assert_eq!(state.latest_message(), Some("No file specified"));
}

#[test]
fn a_good_report_records_nothing() {
    let mut state = State::default();
    state.finish_save(Ok(()));
    assert_eq!(state.latest_message(), None);
    assert!(state.messages().is_empty());
    state.finish_open("p".to_string(), Ok("text".to_string()));
    assert_eq!(state.latest_message(), None);
    assert!(state.messages().is_empty());
}

#[test]
fn errors_are_worded() {
    assert_eq!(EditorError::NoFileSpecified.message(), "No file specified");
    assert_eq!(
        EditorError::IoError("Is a directory (os error 21)".to_string()).message(),
        "IO error: Is a directory (os error 21)"
    );
    assert_eq!(EditorError::IoError(String::new()).message(), "IO error: ");
}
