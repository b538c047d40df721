use vstd::prelude::*;
use vstd::string::*;

verus! {

/// Why no session with a slave could be opened.
#[derive(Clone, Copy, Debug, PartialEq, Eq, Structural)]
pub enum ContextError {
    /// The serial device could not be opened.
    Io,
    /// The device was opened, but the Modbus handshake with the slave failed.
    Protocol,
}

impl ContextError {
    /// The error as text.
    pub open spec fn spec_message(self) -> Seq<char> {
        match self {
            ContextError::Io => "Schnittstelle konnte nicht geöffnet werden"@,
            ContextError::Protocol => "Modbus Verbindung konnte nicht aufgebaut werden"@,
        }
    }

    /// The error as text.
    pub fn message(&self) -> (text: String)
        ensures
            text@ == self.spec_message(),
    {
        match self {
            ContextError::Io => String::from_str("Schnittstelle konnte nicht geöffnet werden"),
            ContextError::Protocol => String::from_str(
                "Modbus Verbindung konnte nicht aufgebaut werden",
            ),
        }
    }
}

} // verus!
