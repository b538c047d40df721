use crate::modbus_master::context_error::ContextError;
use crate::text::{decimal, decimal_digits};
use vstd::prelude::*;
use vstd::string::*;

verus! {

/// What can go wrong between the Modbus master and a slave, or on the way of
/// a command to the control loop.
#[derive(Clone, Copy, Debug, PartialEq, Eq, Structural)]
pub enum ModbusMasterError {
    /// No session with the slave could be opened.
    ConnectionError(ContextError),
    /// A transaction took longer than the fixed timeout.
    ProtocolTimeout,
    /// A register could not be read.
    RegisterReadFailure {
        /// Address of the register.
        address: u16,
    },
    /// A register could not be written.
    RegisterWriteFailure {
        /// Address of the register.
        address: u16,
    },
    /// An instruction could not be delivered: the mailbox it was meant for
    /// still holds an earlier one.
    MailboxUnreachable,
}

impl ModbusMasterError {
    /// The error as text.
    pub open spec fn spec_message(self) -> Seq<char> {
        match self {
            ModbusMasterError::ConnectionError(error) => "Verbindungsfehler: "@
                + error.spec_message(),
            ModbusMasterError::ProtocolTimeout =>
                "Zeitüberschreitung bei der Modbus Kommunikation"@,
            ModbusMasterError::RegisterReadFailure { address } =>
                "Modbus Fehler beim Lesen des Registers: "@ + decimal_digits(address as nat),
            ModbusMasterError::RegisterWriteFailure { address } =>
                "Modbus Fehler beim Schreiben des Registers: "@ + decimal_digits(address as nat),
            ModbusMasterError::MailboxUnreachable => "Postfach ist belegt"@,
        }
    }

    /// The error as text, for a status line.
    pub fn message(&self) -> (text: String)
        ensures
            text@ == self.spec_message(),
    {
        match self {
            ModbusMasterError::ConnectionError(error) => {
                let detail = error.message();
                String::from_str("Verbindungsfehler: ").concat(detail.as_str())
            },
            ModbusMasterError::ProtocolTimeout => String::from_str(
                "Zeitüberschreitung bei der Modbus Kommunikation",
            ),
            ModbusMasterError::RegisterReadFailure { address } => {
                let number = decimal(*address);
                String::from_str("Modbus Fehler beim Lesen des Registers: ").concat(
                    number.as_str(),
                )
            },
            ModbusMasterError::RegisterWriteFailure { address } => {
                let number = decimal(*address);
                String::from_str("Modbus Fehler beim Schreiben des Registers: ").concat(
                    number.as_str(),
                )
            },
            ModbusMasterError::MailboxUnreachable => String::from_str("Postfach ist belegt"),
        }
    }
}

} // verus!
