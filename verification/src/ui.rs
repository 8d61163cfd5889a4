//! The boundary between the editor and whatever shows it and feeds it.
//!
//! A front end implements `Ui`. The editor decides what is to be seen (the
//! title, the prompt, the message); how it is drawn is the front end's
//! business.

use crate::file::FileRequest;
use crate::input::{Input, InputDestination};
use crate::state::State;
use vstd::prelude::*;

verus! {

/// What a front end has to offer. The driver sets it up once, then in turn
/// renders the state, asks for the next input and applies it, until the
/// state says to stop; then it finishes, whether all went well or not.
pub trait Ui: Sized {
    /// What can go wrong in this front end.
    type Error;

    /// Gives the display back at once. Called while the program is going
    /// down in a panic, so it cannot count on anything having been set up.
    fn on_panic();

    /// Takes hold of the display.
    fn setup() -> Result<Self, Self::Error>;

    /// Shows the state. It cannot change it.
    fn render(&mut self, app: &State) -> Result<(), Self::Error>;

    /// Waits a short while for the user and decodes what they did;
    /// `Input::Idle` if they did nothing.
    fn get_input(&mut self) -> Result<Input, Self::Error>;

    /// Gives the display back.
    fn finish(&mut self) -> Result<(), Self::Error>;
}

/// One turn of the driver: show the state, wait for an input, apply it.
///
/// Whatever the front end does, the state is moved on by exactly one input,
/// and the file operation handed back is the one that input asked for; or
/// the front end failed, and the state is as it was.
pub fn turn<U: Ui>(ui: &mut U, app: &mut State) -> (result: Result<Option<FileRequest>, U::Error>)
    ensures
        final(app)@.well_formed(),
        match result {
            Ok(request) => exists|input: Input|
                {
                    &&& final(app)@ == #[trigger] old(app)@.accept_input(input)
                    &&& request.deep_view() == old(app)@.file_request(input)
                },
            Err(_) => final(app)@ == old(app)@,
        },
{
    proof {
        use_type_invariant(&*app);
    }
    match ui.render(app) {
        Ok(_) => {},
        Err(err) => {
            return Err(err);
        },
    }
    match ui.get_input() {
        Ok(input) => Ok(app.accept_input(input)),
        Err(err) => Err(err),
    }
}

/// The heading of the prompt for a destination; empty for the document,
/// which has no prompt.
pub open spec fn prompt_label(destination: InputDestination) -> Seq<char> {
    match destination {
        InputDestination::Buffer => Seq::empty(),
        InputDestination::Open => "Open file..."@,
        InputDestination::Save => "Save as..."@,
    }
}

/// The heading of the document: the file it belongs to, or a stand-in for
/// a document that belongs to none.
pub open spec fn title_text(name: Option<Seq<char>>) -> Seq<char> {
    match name {
        Some(name) => name,
        None => "New file"@,
    }
}

/// The prompt to show, if one is open: its heading and the file name typed
/// into it so far.
pub fn get_message(app: &State) -> (prompt: Option<(&'static str, &str)>)
    ensures
        match prompt {
            Some((label, input)) => {
                &&& app@.input_destination != InputDestination::Buffer
                &&& label@ == prompt_label(app@.input_destination)
                &&& input@ == app@.pending_text()
            },
            None => app@.input_destination == InputDestination::Buffer,
        },
{
    let input = match app.pending_file_name() {
        Some(name) => name,
        None => "",
    };
    proof {
        reveal_strlit("");
        assert(""@ =~= Seq::<char>::empty());
    }
    match app.input_destination() {
        InputDestination::Buffer => None,
        InputDestination::Open => Some(("Open file...", input)),
        InputDestination::Save => Some(("Save as...", input)),
    }
}

/// The heading to show above the document.
pub fn title(app: &State) -> (title: &str)
    ensures
        title@ == title_text(app@.current_file_name),
{
    match app.current_file_name() {
        Some(name) => name,
        None => "New file",
    }
}

} // verus!
