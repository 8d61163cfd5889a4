//! The editor's state and the one way to change it: an input at a time.

use crate::error::EditorError;
use crate::file::FileRequest;
use crate::input::{Input, InputDestination};
use crate::model::{FileRequestView, StateView};
use crate::text::{insert_char, remove_char};
use vstd::prelude::*;
use vstd::string::*;

verus! {

/// Everything the editor knows: the document and the cursor in it, the file
/// it belongs to, the prompt that may be open, and the status messages.
///
/// A state is always well formed; no call can leave it otherwise.
#[derive(Debug)]
pub struct State {
    current_file_name: Option<String>,
    pending_file_name: Option<String>,
    input_destination: InputDestination,
    file_contents: String,
    messages: Vec<String>,
    message_visible: bool,
    exited: bool,
    cursor: usize,
}

impl View for State {
    type V = StateView;

    closed spec fn view(&self) -> StateView {
        StateView {
            current_file_name: self.current_file_name.deep_view(),
            pending_file_name: self.pending_file_name.deep_view(),
            input_destination: self.input_destination,
            file_contents: self.file_contents@,
            messages: self.messages.deep_view(),
            message_visible: self.message_visible,
            exited: self.exited,
            cursor: self.cursor as nat,
        }
    }
}

impl Default for State {
    /// The state the editor starts in.
    fn default() -> (state: Self)
        ensures
            state@ == StateView::initial(),
    {
        let state = State {
            current_file_name: None,
            pending_file_name: None,
            input_destination: InputDestination::Buffer,
            file_contents: String::new(),
            messages: Vec::new(),
            message_visible: false,
            exited: false,
            cursor: 0,
        };
        assert(state.messages.deep_view() =~= Seq::<Seq<char>>::empty());
        state
    }
}

impl State {
    /// What holds of every state at every moment.
    #[verifier::type_invariant]
    pub open spec fn valid(&self) -> bool {
        self@.well_formed()
    }
}

// input
impl State {
    /// Applies one input. Whatever the input, the editor stays usable.
    ///
    /// A prompt confirmed with a file name in it is closed and answered with
    /// the file operation to carry out, which the driver reports back on
    /// with `finish_save` or `finish_open`. A prompt confirmed without one is
    /// closed with a message. Nothing else asks for a file operation.
    pub fn accept_input(&mut self, input: Input) -> (request: Option<FileRequest>)
        ensures
            final(self)@ == old(self)@.accept_input(input),
            final(self)@.well_formed(),
            request.deep_view() == old(self)@.file_request(input),
    {
        let request = match input {
            Input::Idle => None,
            Input::Backspace => {
                self.backspace();
                None
            },
            Input::Enter => match self.enter() {
                Ok(request) => request,
                Err(err) => {
                    self.add_message(err.message());
                    None
                },
            },
            Input::Cancel => {
                proof {
                    use_type_invariant(&*self);
                }
                self.exited = true;
                None
            },
            Input::NormalChar(c) => {
                self.add_char(c);
                None
            },
            Input::Save => {
                self.prompt_save();
                None
            },
            Input::Open => {
                self.prompt_open();
                None
            },
            Input::New => {
                self.new_file();
                None
            },
            Input::ClearMessage => {
                self.clear_message();
                None
            },
            Input::MoveLeft => {
                self.move_cursor_left();
                None
            },
            Input::MoveRight => {
                self.move_cursor_right();
                None
            },
        };
        proof {
            use_type_invariant(&*self);
        }
        request
    }

    fn backspace(&mut self)
        ensures
            final(self)@ == old(self)@.backspace(),
    {
        proof {
            use_type_invariant(&*self);
        }
        match self.input_destination {
            InputDestination::Buffer => {
                if self.cursor > 0 {
                    self.move_cursor_left();
                    self.file_contents = remove_char(self.file_contents.as_str(), self.cursor);
                }
            },
            InputDestination::Open | InputDestination::Save => {
                let mut pending: Option<String> = None;
                std::mem::swap(&mut pending, &mut self.pending_file_name);
                if let Some(mut name) = pending {
                    let _ = name.pop();
                    self.pending_file_name = Some(name);
                }
            },
        }
    }

    fn enter(&mut self) -> (result: Result<Option<FileRequest>, EditorError>)
        ensures
            final(self)@ == old(self)@.enter(),
            match result {
                Ok(request) => !old(self)@.enter_fails() && request.deep_view()
                    == old(self)@.enter_request(),
                Err(error) => old(self)@.enter_fails() && error == EditorError::NoFileSpecified,
            },
    {
        proof {
            use_type_invariant(&*self);
        }
        match self.input_destination {
            InputDestination::Buffer => {
                self.add_char('\n');
                Ok(None)
            },
            InputDestination::Save => {
                let result = self.save_file();
                self.leave_prompt();
                match result {
                    Ok(request) => Ok(Some(request)),
                    Err(error) => Err(error),
                }
            },
            InputDestination::Open => {
                let result = self.open_file();
                self.leave_prompt();
                match result {
                    Ok(request) => Ok(Some(request)),
                    Err(error) => Err(error),
                }
            },
        }
    }

    fn add_char(&mut self, c: char)
        ensures
            final(self)@ == old(self)@.add_char(c),
    {
        proof {
            use_type_invariant(&*self);
        }
        match self.input_destination {
            InputDestination::Buffer => {
                self.file_contents = insert_char(self.file_contents.as_str(), self.cursor, c);
                self.move_cursor_right();
            },
            InputDestination::Open | InputDestination::Save => {
                let mut pending: Option<String> = None;
                std::mem::swap(&mut pending, &mut self.pending_file_name);
                let mut name = match pending {
                    Some(name) => name,
                    None => String::new(),
                };
                name.push(c);
                self.pending_file_name = Some(name);
            },
        }
    }

    fn prompt_save(&mut self)
        ensures
            final(self)@ == old(self)@.prompt_save(),
    {
        proof {
            use_type_invariant(&*self);
        }
        self.input_destination = InputDestination::Save;
        self.pending_file_name = match &self.current_file_name {
            Some(name) => Some(name.clone()),
            None => None,
        };
        self.message_visible = false;
    }

    fn prompt_open(&mut self)
        ensures
            final(self)@ == old(self)@.prompt_open(),
    {
        proof {
            use_type_invariant(&*self);
        }
        self.pending_file_name = None;
        self.input_destination = InputDestination::Open;
        self.message_visible = false;
    }

    fn leave_prompt(&mut self)
        ensures
            final(self)@ == old(self)@.leave_prompt(),
    {
        proof {
            use_type_invariant(&*self);
        }
        self.pending_file_name = None;
        self.input_destination = InputDestination::Buffer;
        self.clear_message();
    }
}

// cursor
impl State {
    fn move_cursor_left(&mut self)
        ensures
            final(self)@ == old(self)@.move_cursor_left(),
    {
        proof {
            use_type_invariant(&*self);
        }
        if self.cursor > 0 {
            self.cursor = self.cursor - 1;
        }
    }

    fn move_cursor_right(&mut self)
        ensures
            final(self)@ == old(self)@.move_cursor_right(),
    {
        proof {
            use_type_invariant(&*self);
        }
        let count = self.file_contents.as_str().unicode_len();
        if self.cursor < count {
            self.cursor = self.cursor + 1;
        }
    }
}

// files
impl State {
    fn take_pending_name(&mut self) -> (name: Option<String>)
        ensures
            final(self)@ == (StateView { pending_file_name: None, ..old(self)@ }),
            match name {
                Some(name) => old(self)@.has_pending_name() && name@ == old(self)@.pending_text(),
                None => !old(self)@.has_pending_name(),
            },
    {
        proof {
            use_type_invariant(&*self);
        }
        let mut pending: Option<String> = None;
        std::mem::swap(&mut pending, &mut self.pending_file_name);
        match pending {
            Some(name) => if name.as_str().unicode_len() > 0 {
                Some(name)
            } else {
                None
            },
            None => None,
        }
    }

    fn save_file(&mut self) -> (result: Result<FileRequest, EditorError>)
        ensures
            final(self)@ == old(self)@.save_file(),
            match result {
                Ok(request) => old(self)@.has_pending_name() && request@
                    == (FileRequestView::Write {
                    path: old(self)@.pending_text(),
                    contents: old(self)@.file_contents,
                }),
                Err(error) => !old(self)@.has_pending_name() && error
                    == EditorError::NoFileSpecified,
            },
    {
        proof {
            use_type_invariant(&*self);
        }
        match self.take_pending_name() {
            Some(path) => {
                self.current_file_name = Some(path.clone());
                Ok(FileRequest::Write { path, contents: self.file_contents.clone() })
            },
            None => Err(EditorError::NoFileSpecified),
        }
    }

    fn open_file(&mut self) -> (result: Result<FileRequest, EditorError>)
        ensures
            final(self)@ == old(self)@.open_file(),
            match result {
                Ok(request) => old(self)@.has_pending_name() && request@
                    == (FileRequestView::Read { path: old(self)@.pending_text() }),
                Err(error) => !old(self)@.has_pending_name() && error
                    == EditorError::NoFileSpecified,
            },
    {
        match self.take_pending_name() {
            Some(path) => Ok(FileRequest::Read { path }),
            None => Err(EditorError::NoFileSpecified),
        }
    }

    fn new_file(&mut self)
        ensures
            final(self)@ == old(self)@.new_file(),
    {
        proof {
            use_type_invariant(&*self);
        }
        self.cursor = 0;
        self.file_contents = String::new();
        self.current_file_name = None;
    }

    /// Takes the driver's report on a write that `accept_input` asked for.
    /// A failure is recorded as a message and put on show; the description
    /// is the file system's own.
    pub fn finish_save(&mut self, outcome: Result<(), String>)
        ensures
            final(self)@ == old(self)@.finish_save(
                match outcome {
                    Ok(_) => Ok(()),
                    Err(description) => Err(description@),
                },
            ),
            final(self)@.well_formed(),
    {
        if let Err(description) = outcome {
            self.add_message(EditorError::IoError(description).message());
        }
        proof {
            use_type_invariant(&*self);
        }
    }

    /// Takes the driver's report on the read of `path` that `accept_input`
    /// asked for. What was read becomes the document; a failure is recorded
    /// as a message and put on show, and the document stays.
    pub fn finish_open(&mut self, path: String, outcome: Result<String, String>)
        ensures
            final(self)@ == old(self)@.finish_open(
                path@,
                match outcome {
                    Ok(contents) => Ok(contents@),
                    Err(description) => Err(description@),
                },
            ),
            final(self)@.well_formed(),
    {
        proof {
            use_type_invariant(&*self);
        }
        match outcome {
            Ok(contents) => {
                self.cursor = 0;
                self.file_contents = contents;
                self.current_file_name = Some(path);
            },
            Err(description) => {
                self.add_message(EditorError::IoError(description).message());
            },
        }
        proof {
            use_type_invariant(&*self);
        }
    }
}

// messages
impl State {
    fn add_message(&mut self, message: String)
        ensures
            final(self)@ == old(self)@.add_message(message@),
    {
        proof {
            use_type_invariant(&*self);
        }
        self.message_visible = false;
        let mut messages: Vec<String> = Vec::new();
        std::mem::swap(&mut messages, &mut self.messages);
        messages.push(message);
        assert(messages.deep_view() =~= old(self).messages.deep_view().push(message@));
        self.messages = messages;
        self.message_visible = true;
    }

    fn clear_message(&mut self)
        ensures
            final(self)@ == old(self)@.clear_message(),
    {
        proof {
            use_type_invariant(&*self);
        }
        self.message_visible = false;
    }

    /// The message to show, if one is to be shown: the newest one, while it
    /// has not been hidden.
    pub fn latest_message(&self) -> (message: Option<&str>)
        ensures
            match message {
                Some(text) => self@.latest_message() == Some(text@),
                None => self@.latest_message() is None,
            },
    {
        proof {
            use_type_invariant(self);
        }
        if self.message_visible {
            let count = self.messages.len();
            Some(self.messages[count - 1].as_str())
        } else {
            None
        }
    }
}

// what a front end may look at
impl State {
    /// The path the document was last opened from or saved to, if any.
    pub fn current_file_name(&self) -> (name: Option<&str>)
        ensures
            match name {
                Some(name) => self@.current_file_name == Some(name@),
                None => self@.current_file_name is None,
            },
    {
        match &self.current_file_name {
            Some(name) => Some(name.as_str()),
            None => None,
        }
    }

    /// The file name typed so far into the prompt that is open, if any.
    pub fn pending_file_name(&self) -> (name: Option<&str>)
        ensures
            match name {
                Some(name) => self@.pending_file_name == Some(name@),
                None => self@.pending_file_name is None,
            },
    {
        match &self.pending_file_name {
            Some(name) => Some(name.as_str()),
            None => None,
        }
    }

    /// Where typed characters go.
    pub fn input_destination(&self) -> (destination: InputDestination)
        ensures
            destination == self@.input_destination,
    {
        self.input_destination
    }

    /// The document.
    pub fn file_contents(&self) -> (contents: &str)
        ensures
            contents@ == self@.file_contents,
    {
        self.file_contents.as_str()
    }

    /// Every status message recorded so far, oldest first, shown or not.
    pub fn messages(&self) -> (messages: &Vec<String>)
        ensures
            messages.deep_view() == self@.messages,
    {
        &self.messages
    }

    /// Whether the editor has been told to stop.
    pub fn exited(&self) -> (exited: bool)
        ensures
            exited == self@.exited,
    {
        self.exited
    }

    /// The insertion point, counted in characters from the start of the
    /// document. It never lies beyond the document's end.
    pub fn cursor(&self) -> (cursor: usize)
        ensures
            cursor == self@.cursor,
            cursor <= self@.file_contents.len(),
    {
        proof {
            use_type_invariant(self);
        }
        self.cursor
    }
}

} // verus!
