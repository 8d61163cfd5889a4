//! What holds of the editor whatever is typed into it.

use crate::error::no_file_specified_text;
use crate::input::{Input, InputDestination};
use crate::model::{FileRequestView, StateView};
use vstd::prelude::*;

verus! {

/// The input that types `c`.
pub open spec fn keystroke(c: char) -> Input {
    Input::NormalChar(c)
}

/// The inputs that type `text`, one character after the other.
pub open spec fn typing(text: Seq<char>) -> Seq<Input> {
    Seq::new(text.len(), |i: int| keystroke(text[i]))
}

/// The editor starts in a well-formed state.
pub proof fn lemma_initial_is_well_formed()
    ensures
        StateView::initial().well_formed(),
{
}

/// No input can take a well-formed state to one that is not.
pub proof fn lemma_input_keeps_well_formed(state: StateView, input: Input)
    requires
        state.well_formed(),
    ensures
        state.accept_input(input).well_formed(),
{
}

/// No run of inputs can take a well-formed state to one that is not.
pub proof fn lemma_inputs_keep_well_formed(state: StateView, inputs: Seq<Input>)
    requires
        state.well_formed(),
    ensures
        state.accept_inputs(inputs).well_formed(),
    decreases inputs.len(),
{
    if inputs.len() > 0 {
        lemma_inputs_keep_well_formed(state, inputs.drop_last());
        lemma_input_keeps_well_formed(state.accept_inputs(inputs.drop_last()), inputs.last());
    }
}

/// No report on a file operation can take a well-formed state to one that
/// is not.
pub proof fn lemma_reports_keep_well_formed(
    state: StateView,
    path: Seq<char>,
    written: Result<(), Seq<char>>,
    read: Result<Seq<char>, Seq<char>>,
)
    requires
        state.well_formed(),
    ensures
        state.finish_save(written).well_formed(),
        state.finish_open(path, read).well_formed(),
{
}

/// While the document is being edited, however many characters are typed
/// and deleted, in whatever order, the cursor stays a position in the
/// document and the editor stays with the document.
pub proof fn lemma_typing_keeps_cursor_in_document(state: StateView, inputs: Seq<Input>)
    requires
        state.well_formed(),
        state.input_destination == InputDestination::Buffer,
        forall|i: int|
            0 <= i < inputs.len() ==> (#[trigger] inputs[i]) is NormalChar || inputs[i]
                == Input::Backspace,
    ensures
        0 <= state.accept_inputs(inputs).cursor <= state.accept_inputs(inputs).file_contents.len(),
        state.accept_inputs(inputs).input_destination == InputDestination::Buffer,
    decreases inputs.len(),
{
    if inputs.len() > 0 {
        lemma_typing_keeps_cursor_in_document(state, inputs.drop_last());
        lemma_inputs_keep_well_formed(state, inputs.drop_last());
        assert(inputs.last() == inputs[inputs.len() - 1]);
    }
}

/// A character typed into the document makes it one longer and moves the
/// cursor by one; a character deleted from it makes it one shorter and the
/// cursor one less.
pub proof fn lemma_typing_moves_cursor(state: StateView, c: char)
    requires
        state.well_formed(),
        state.input_destination == InputDestination::Buffer,
    ensures
        state.accept_input(Input::NormalChar(c)).file_contents.len() == state.file_contents.len()
            + 1,
        state.accept_input(Input::NormalChar(c)).cursor == state.cursor + 1,
        state.accept_input(Input::NormalChar(c)).file_contents[state.cursor as int] == c,
        state.cursor > 0 ==> state.accept_input(Input::Backspace).file_contents.len()
            == state.file_contents.len() - 1,
        state.cursor > 0 ==> state.accept_input(Input::Backspace).cursor == state.cursor - 1,
{
}

/// Typing a text is typing all but its last character, then the last.
proof fn lemma_typing_unfolds(text: Seq<char>)
    requires
        text.len() > 0,
    ensures
        typing(text).len() == text.len(),
        typing(text).drop_last() == typing(text.drop_last()),
        typing(text).last() == Input::NormalChar(text.last()),
{
    assert(typing(text).drop_last() =~= typing(text.drop_last()));
}

/// Text typed into the document goes in at the cursor, in the order typed,
/// between what was before the cursor and what was behind it; the cursor
/// ends up behind the text. Nothing else changes.
pub proof fn lemma_typing_in_document(state: StateView, text: Seq<char>)
    requires
        state.well_formed(),
        state.input_destination == InputDestination::Buffer,
    ensures
        state.accept_inputs(typing(text)) == (StateView {
            file_contents: state.file_contents.subrange(0, state.cursor as int) + text
                + state.file_contents.subrange(
                state.cursor as int,
                state.file_contents.len() as int,
            ),
            cursor: state.cursor + text.len(),
            ..state
        }),
    decreases text.len(),
{
    let head = state.file_contents.subrange(0, state.cursor as int);
    let tail = state.file_contents.subrange(state.cursor as int, state.file_contents.len() as int);
    if text.len() == 0 {
        assert(head + text + tail =~= state.file_contents);
    } else {
        let before = text.drop_last();
        lemma_typing_in_document(state, before);
        lemma_typing_unfolds(text);
        let reached = state.accept_inputs(typing(before));
        assert(reached.file_contents.insert(reached.cursor as int, text.last()) =~= head + text
            + tail);
    }
}

/// Text typed into a prompt is added to the end of the pending file name,
/// in the order typed. The document, the cursor and all else stay as they
/// were.
pub proof fn lemma_typing_in_prompt(state: StateView, text: Seq<char>)
    requires
        state.input_destination != InputDestination::Buffer,
    ensures
        state.accept_inputs(typing(text)).pending_text() == state.pending_text() + text,
        state.accept_inputs(typing(text)) == (StateView {
            pending_file_name: if text.len() > 0 {
                Some(state.pending_text() + text)
            } else {
                state.pending_file_name
            },
            ..state
        }),
    decreases text.len(),
{
    if text.len() == 0 {
        assert(state.pending_text() + text =~= state.pending_text());
    } else {
        let before = text.drop_last();
        lemma_typing_unfolds(text);
        lemma_typing_in_prompt(state, before);
        assert((state.pending_text() + before).push(text.last()) =~= state.pending_text() + text);
    }
}

/// Deleting what was just typed gives back the state before it.
pub proof fn lemma_backspace_undoes_typing(state: StateView, c: char)
    requires
        state.well_formed(),
        state.input_destination == InputDestination::Buffer,
    ensures
        state.accept_input(Input::NormalChar(c)).accept_input(Input::Backspace) == state,
{
    let typed = state.accept_input(Input::NormalChar(c));
    assert(typed.file_contents.remove(state.cursor as int) =~= state.file_contents);
}

/// Hiding the message any number of times, once or more, is the same as
/// hiding it once: no message is on show, and the log is as it was.
pub proof fn lemma_clear_message_idempotent(state: StateView, inputs: Seq<Input>)
    requires
        inputs.len() > 0,
        forall|i: int| 0 <= i < inputs.len() ==> #[trigger] inputs[i] == Input::ClearMessage,
    ensures
        state.accept_inputs(inputs) == state.accept_input(Input::ClearMessage),
        !state.accept_inputs(inputs).message_visible,
        state.accept_inputs(inputs).messages == state.messages,
        state.accept_inputs(inputs).latest_message() is None,
    decreases inputs.len(),
{
    assert(inputs.last() == inputs[inputs.len() - 1]);
    if inputs.len() > 1 {
        lemma_clear_message_idempotent(state, inputs.drop_last());
    } else {
        assert(inputs.drop_last().len() == 0);
        assert(state.accept_inputs(inputs.drop_last()) == state);
    }
}

/// Backspace with the cursor at the start of the document leaves the
/// document and the cursor as they are; while the document is being edited
/// it leaves everything as it is.
pub proof fn lemma_backspace_at_start(state: StateView)
    requires
        state.cursor == 0,
    ensures
        state.accept_input(Input::Backspace).file_contents == state.file_contents,
        state.accept_input(Input::Backspace).cursor == state.cursor,
        state.input_destination == InputDestination::Buffer ==> state.accept_input(
            Input::Backspace,
        ) == state,
{
}

/// Cancel tells the editor to stop, whatever it was doing, and touches
/// nothing else; no later input takes that back.
pub proof fn lemma_cancel_exits(state: StateView, later: Seq<Input>)
    ensures
        state.accept_input(Input::Cancel) == (StateView { exited: true, ..state }),
        state.accept_input(Input::Cancel).accept_inputs(later).exited,
    decreases later.len(),
{
    if later.len() > 0 {
        lemma_cancel_exits(state, later.drop_last());
    }
}

/// Nothing but cancel tells the editor to stop.
pub proof fn lemma_only_cancel_exits(state: StateView, input: Input)
    ensures
        state.accept_input(input).exited == (state.exited || input == Input::Cancel),
{
}

/// Messages are only ever added: the log before an input is the start of
/// the log after it.
pub proof fn lemma_log_only_grows(state: StateView, input: Input)
    ensures
        state.messages.is_prefix_of(state.accept_input(input).messages),
{
    let after = state.accept_input(input);
    assert(after.messages.subrange(0, state.messages.len() as int) =~= state.messages);
}

/// A report on a file operation, too, only ever adds to the log.
pub proof fn lemma_reports_only_add_messages(
    state: StateView,
    path: Seq<char>,
    written: Result<(), Seq<char>>,
    read: Result<Seq<char>, Seq<char>>,
)
    ensures
        state.messages.is_prefix_of(state.finish_save(written).messages),
        state.messages.is_prefix_of(state.finish_open(path, read).messages),
{
    let saved = state.finish_save(written);
    let opened = state.finish_open(path, read);
    assert(saved.messages.subrange(0, state.messages.len() as int) =~= state.messages);
    assert(opened.messages.subrange(0, state.messages.len() as int) =~= state.messages);
}

/// Going into or out of a prompt takes the message off show and starts the
/// pending file name afresh: with the current file name for a save prompt,
/// with nothing otherwise. A message on show afterwards is a new one, about
/// the prompt having named no file.
pub proof fn lemma_prompts_dismiss_messages(state: StateView, input: Input)
    requires
        state.accept_input(input).input_destination != state.input_destination,
    ensures
        state.accept_input(input).latest_message() is None || (state.enter_fails()
            && input == Input::Enter && state.accept_input(input).latest_message() == Some(
            no_file_specified_text(),
        )),
        state.accept_input(input).pending_file_name == if input == Input::Save {
            state.current_file_name
        } else {
            None
        },
{
}

/// Saving and then opening what was saved gives the document back.
///
/// Confirming a save prompt that names a file asks for that file to be
/// written with exactly the document. If a later read of the same file is
/// reported to have given exactly that text, then whatever was done in
/// between, the document is again what it was when it was saved, it belongs
/// to that file, and the cursor is at its start.
pub proof fn lemma_save_then_open_restores(saved: StateView, between: StateView)
    requires
        saved.input_destination == InputDestination::Save,
        saved.has_pending_name(),
    ensures
        saved.file_request(Input::Enter) == Some(
            FileRequestView::Write { path: saved.pending_text(), contents: saved.file_contents },
        ),
        saved.accept_input(Input::Enter).file_contents == saved.file_contents,
        saved.accept_input(Input::Enter).current_file_name == Some(saved.pending_text()),
        between.finish_open(saved.pending_text(), Ok(saved.file_contents)).file_contents
            == saved.file_contents,
        between.finish_open(saved.pending_text(), Ok(saved.file_contents)).current_file_name
            == Some(saved.pending_text()),
        between.finish_open(saved.pending_text(), Ok(saved.file_contents)).cursor == 0,
{
}

} // verus!
