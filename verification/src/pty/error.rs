//! Errors of the serial link.

use vstd::prelude::*;
use vstd::string::StringExecFns;

verus! {

/// Errors the pty can encounter.
#[derive(Debug)]
pub enum PtyError {
    /// The pty could not be created.
    CreatePtyFailed,
    /// The pty could not be opened.
    OpenPtyFailed,
    /// The pty io pipe could not be created.
    CreatePipeFailed,
    /// The pty io pipe could not be opened.
    OpenPipeFailed,
    /// The pty io pipe could not be written to.
    WritePipeFailed,
    /// The pty io pipe could not be read from.
    ReadPipeFailed,
    /// The pty io pipe could not be closed.
    ClosePipeFailed,
    /// Other error, as text.
    Other(String),
}

impl PtyError {
    /// The description of the error.
    pub open spec fn spec_message(self) -> Seq<char> {
        match self {
            PtyError::CreatePtyFailed => "Failed to create pty"@,
            PtyError::OpenPtyFailed => "Failed to open pty"@,
            PtyError::CreatePipeFailed => "Failed to create pipe"@,
            PtyError::OpenPipeFailed => "Failed to open pipe"@,
            PtyError::WritePipeFailed => "Failed to write to pipe"@,
            PtyError::ReadPipeFailed => "Failed to read from pipe"@,
            PtyError::ClosePipeFailed => "Failed to close pipe"@,
            PtyError::Other(text) => "Other error: "@ + text@,
        }
    }

    /// An error of the operating system, by the text that describes it.
    pub fn other(message: String) -> (err: Self)
        ensures
            err == PtyError::Other(message),
    {
        PtyError::Other(message)
    }

    /// The description of the error as the user sees it.
    pub fn message(&self) -> (text: String)
        ensures
            text@ == self.spec_message(),
    {
        match self {
            PtyError::CreatePtyFailed => "Failed to create pty".to_owned(),
            PtyError::OpenPtyFailed => "Failed to open pty".to_owned(),
            PtyError::CreatePipeFailed => "Failed to create pipe".to_owned(),
            PtyError::OpenPipeFailed => "Failed to open pipe".to_owned(),
            PtyError::WritePipeFailed => "Failed to write to pipe".to_owned(),
            PtyError::ReadPipeFailed => "Failed to read from pipe".to_owned(),
            PtyError::ClosePipeFailed => "Failed to close pipe".to_owned(),
            PtyError::Other(text) => "Other error: ".to_owned().concat(text.as_str()),
        }
    }
}

} // verus!
