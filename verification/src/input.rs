//! The intents a front end can hand to the editor, and the place they go to.

use vstd::prelude::*;

verus! {

/// Where typed characters currently go.
#[derive(Debug, Clone, Copy, PartialEq, Eq, Structural)]
pub enum InputDestination {
    /// Into the document, at the cursor.
    Buffer,
    /// Into the file name asked for by an open prompt.
    Open,
    /// Into the file name asked for by a save prompt.
    Save,
}

impl Default for InputDestination {
    fn default() -> (destination: Self)
        ensures
            destination == InputDestination::Buffer,
    {
        InputDestination::Buffer
    }
}

/// One user intent, already decoded from whatever the keyboard sent.
///
/// Every input means something in every state. What is typed and deleted
/// depends on where typing goes; the rest does the same wherever it goes.
#[derive(Debug, Clone, Copy, PartialEq, Eq, Structural)]
pub enum Input {
    /// Nothing happened before the front end stopped waiting.
    Idle,
    /// Remove the character before the cursor in the document, or the last
    /// character of the file name in a prompt.
    Backspace,
    /// Break the line in the document, or confirm the prompt.
    Enter,
    /// Leave the editor.
    Cancel,
    /// Type one character: into the document at the cursor, or onto the end
    /// of the file name in a prompt.
    NormalChar(char),
    /// Ask for a file name to save to, starting from the current one.
    Save,
    /// Ask for a file name to open, starting from nothing.
    Open,
    /// Start over with an empty, unnamed document.
    New,
    /// Hide the status message. The log keeps it.
    ClearMessage,
    /// Move the cursor one character towards the start.
    MoveLeft,
    /// Move the cursor one character towards the end.
    MoveRight,
}

} // verus!
