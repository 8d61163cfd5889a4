//! The mathematical model of the editor: what a state holds, and what each
//! input and each finished file operation makes of it.
//!
//! Everything here is a plain function on values. The executable editor in
//! `state` promises, step by step, to do what these functions say.

use crate::error::{io_error_text, no_file_specified_text};
use crate::input::{Input, InputDestination};
use vstd::prelude::*;

verus! {

/// What the editor asks its driver to do with the file system.
pub enum FileRequestView {
    /// Write `contents` to the file at `path`.
    Write { path: Seq<char>, contents: Seq<char> },
    /// Read the file at `path`.
    Read { path: Seq<char> },
}

/// The state of the editor as mathematics sees it.
pub struct StateView {
    /// The path the document was last opened from or saved to.
    pub current_file_name: Option<Seq<char>>,
    /// The file name typed so far into a prompt.
    pub pending_file_name: Option<Seq<char>>,
    /// Where typed characters go.
    pub input_destination: InputDestination,
    /// The document.
    pub file_contents: Seq<char>,
    /// Every status message recorded so far, oldest first.
    pub messages: Seq<Seq<char>>,
    /// Whether the newest message is on show.
    pub message_visible: bool,
    /// Whether the editor has been told to stop.
    pub exited: bool,
    /// The insertion point: the number of characters before it.
    pub cursor: nat,
}

impl StateView {
    /// The state the editor starts in: nothing typed, nothing named,
    /// nothing to say.
    pub open spec fn initial() -> StateView {
        StateView {
            current_file_name: None,
            pending_file_name: None,
            input_destination: InputDestination::Buffer,
            file_contents: Seq::empty(),
            messages: Seq::empty(),
            message_visible: false,
            exited: false,
            cursor: 0,
        }
    }

    /// What holds of every state the editor can be in: the cursor is a place
    /// in the document, a message on show exists, and a file name is pending
    /// only while a prompt is open.
    pub open spec fn well_formed(self) -> bool {
        &&& self.cursor <= self.file_contents.len()
        &&& self.message_visible ==> self.messages.len() > 0
        &&& self.input_destination == InputDestination::Buffer ==> self.pending_file_name is None
    }

    /// The file name typed so far, empty where none is pending.
    pub open spec fn pending_text(self) -> Seq<char> {
        match self.pending_file_name {
            Some(name) => name,
            None => Seq::empty(),
        }
    }

    /// Whether confirming a prompt now would name a file.
    pub open spec fn has_pending_name(self) -> bool {
        self.pending_text().len() > 0
    }

    /// The message to show, if one is to be shown.
    pub open spec fn latest_message(self) -> Option<Seq<char>> {
        if self.message_visible && self.messages.len() > 0 {
            Some(self.messages.last())
        } else {
            None
        }
    }

    /// Records a message and puts it on show.
    pub open spec fn add_message(self, message: Seq<char>) -> StateView {
        StateView { messages: self.messages.push(message), message_visible: true, ..self }
    }

    /// Takes the message off show; the log keeps it.
    pub open spec fn clear_message(self) -> StateView {
        StateView { message_visible: false, ..self }
    }

    /// Moves the cursor one character towards the start, if it is not there.
    pub open spec fn move_cursor_left(self) -> StateView {
        StateView { cursor: if self.cursor > 0 { (self.cursor - 1) as nat } else { 0 }, ..self }
    }

    /// Moves the cursor one character towards the end, if it is not there.
    pub open spec fn move_cursor_right(self) -> StateView {
        StateView {
            cursor: if self.cursor + 1 <= self.file_contents.len() {
                self.cursor + 1
            } else {
                self.file_contents.len()
            },
            ..self
        }
    }

    /// Types a character: into the document at the cursor, which moves past
    /// it, or onto the end of the pending file name.
    pub open spec fn add_char(self, c: char) -> StateView {
        match self.input_destination {
            InputDestination::Buffer => StateView {
                file_contents: self.file_contents.insert(self.cursor as int, c),
                cursor: self.cursor + 1,
                ..self
            },
            _ => StateView { pending_file_name: Some(self.pending_text().push(c)), ..self },
        }
    }

    /// Removes the character before the cursor, or the last character of the
    /// pending file name; does nothing where there is none.
    pub open spec fn backspace(self) -> StateView {
        match self.input_destination {
            InputDestination::Buffer => if self.cursor > 0 {
                StateView {
                    file_contents: self.file_contents.remove(self.cursor - 1),
                    cursor: (self.cursor - 1) as nat,
                    ..self
                }
            } else {
                self
            },
            _ => match self.pending_file_name {
                Some(name) => if name.len() > 0 {
                    StateView { pending_file_name: Some(name.drop_last()), ..self }
                } else {
                    self
                },
                None => self,
            },
        }
    }

    /// Starts over with an empty document that belongs to no file.
    pub open spec fn new_file(self) -> StateView {
        StateView { file_contents: Seq::empty(), cursor: 0, current_file_name: None, ..self }
    }

    /// Opens the save prompt, filled in with the current file name.
    pub open spec fn prompt_save(self) -> StateView {
        StateView {
            input_destination: InputDestination::Save,
            pending_file_name: self.current_file_name,
            message_visible: false,
            ..self
        }
    }

    /// Opens the open prompt, empty.
    pub open spec fn prompt_open(self) -> StateView {
        StateView {
            input_destination: InputDestination::Open,
            pending_file_name: None,
            message_visible: false,
            ..self
        }
    }

    /// Closes the prompt: typing goes to the document again, no file name is
    /// pending and no message is on show.
    pub open spec fn leave_prompt(self) -> StateView {
        StateView {
            input_destination: InputDestination::Buffer,
            pending_file_name: None,
            message_visible: false,
            ..self
        }
    }

    /// Takes the pending file name as the file to save to. The document
    /// belongs to that file from now on, whatever becomes of the write.
    pub open spec fn save_file(self) -> StateView {
        StateView {
            current_file_name: if self.has_pending_name() {
                Some(self.pending_text())
            } else {
                self.current_file_name
            },
            pending_file_name: None,
            ..self
        }
    }

    /// Takes the pending file name as the file to open.
    pub open spec fn open_file(self) -> StateView {
        StateView { pending_file_name: None, ..self }
    }

    /// Whether enter now confirms a prompt that names no file.
    pub open spec fn enter_fails(self) -> bool {
        self.input_destination != InputDestination::Buffer && !self.has_pending_name()
    }

    /// The state after enter, before any failure is put into words: a line
    /// break in the document, or the prompt confirmed and closed.
    pub open spec fn enter(self) -> StateView {
        match self.input_destination {
            InputDestination::Buffer => self.add_char('\n'),
            InputDestination::Save => self.save_file().leave_prompt(),
            InputDestination::Open => self.open_file().leave_prompt(),
        }
    }

    /// The file operation that enter asks for: one for each prompt confirmed
    /// with a file name in it, none otherwise.
    pub open spec fn enter_request(self) -> Option<FileRequestView> {
        if self.has_pending_name() {
            match self.input_destination {
                InputDestination::Buffer => None,
                InputDestination::Save => Some(
                    FileRequestView::Write {
                        path: self.pending_text(),
                        contents: self.file_contents,
                    },
                ),
                InputDestination::Open => Some(FileRequestView::Read { path: self.pending_text() }),
            }
        } else {
            None
        }
    }

    /// The state after one input.
    pub open spec fn accept_input(self, input: Input) -> StateView {
        match input {
            Input::Idle => self,
            Input::Backspace => self.backspace(),
            Input::Enter => if self.enter_fails() {
                self.enter().add_message(no_file_specified_text())
            } else {
                self.enter()
            },
            Input::Cancel => StateView { exited: true, ..self },
            Input::NormalChar(c) => self.add_char(c),
            Input::Save => self.prompt_save(),
            Input::Open => self.prompt_open(),
            Input::New => self.new_file(),
            Input::ClearMessage => self.clear_message(),
            Input::MoveLeft => self.move_cursor_left(),
            Input::MoveRight => self.move_cursor_right(),
        }
    }

    /// The state after a run of inputs, applied in order.
    pub open spec fn accept_inputs(self, inputs: Seq<Input>) -> StateView
        decreases inputs.len(),
    {
        if inputs.len() == 0 {
            self
        } else {
            self.accept_inputs(inputs.drop_last()).accept_input(inputs.last())
        }
    }

    /// The file operation that one input asks for, if it asks for any.
    pub open spec fn file_request(self, input: Input) -> Option<FileRequestView> {
        match input {
            Input::Enter => self.enter_request(),
            _ => None,
        }
    }

    /// The state after the driver reports how a write ended: unchanged where
    /// it went well, with the failure recorded and on show where it did not.
    pub open spec fn finish_save(self, outcome: Result<(), Seq<char>>) -> StateView {
        match outcome {
            Ok(_) => self,
            Err(description) => self.add_message(io_error_text(description)),
        }
    }

    /// The state after the driver reports how reading `path` ended: the
    /// document replaced by what was read, the cursor at its start and the
    /// document belonging to `path`; or, where the read failed, the failure
    /// recorded and on show and nothing else changed.
    pub open spec fn finish_open(
        self,
        path: Seq<char>,
        outcome: Result<Seq<char>, Seq<char>>,
    ) -> StateView {
        match outcome {
            Ok(contents) => StateView {
                file_contents: contents,
                cursor: 0,
                current_file_name: Some(path),
                ..self
            },
            Err(description) => self.add_message(io_error_text(description)),
        }
    }
}

} // verus!
