//! What the Modbus master and the serial interface tell the user interface.

use crate::modbus_master::error::ModbusMasterError;
use vstd::prelude::*;
use vstd::string::*;

verus! {

/// A message to the user interface.
#[derive(Debug, PartialEq, Eq)]
pub enum GuiMessage {
    /// Disable the controls.
    DisableUiElements,
    /// Enable the controls.
    EnableUiElements,
    /// Show an information.
    ShowInfo(String),
    /// Show a warning.
    ShowWarning(String),
    /// Show an error.
    ShowError(String),
    /// Show a question.
    ShowQuestion(String),
    /// The user has edited the value of a read/write register.
    ModbusMasterUpdateRegister {
        /// Number of the register, if it could be told.
        reg_nr: Result<u16, ()>,
        /// The new value, as the user typed it.
        new_value: String,
    },
    /// The sensor values of a poll: the read-only registers with their values.
    UpdateSensorValues(Vec<(u16, u16)>),
    /// The serial interfaces that are available.
    UpdateSerialPorts(Vec<String>),
    /// The read-only registers with their values.
    UpdateRregs(Vec<(u16, u16)>),
    /// The read/write registers with their values.
    UpdateRwregs(Vec<(u16, u16)>),
}

/// A status line: the time in bold, a colon, and the message.
pub open spec fn status_line(timestamp: Seq<char>, msg: Seq<char>) -> Seq<char> {
    "<b>"@ + timestamp + ":</b> "@ + msg
}

/// Reads the clock of the machine with `chrono::Local::now` and returns
/// the local time as its `format` writes it with `%Y-%m-%d %H:%M:%S`.
/// Nothing is claimed of the text: it depends on the clock and on the time
/// zone of the machine.
#[verifier::external_body]
fn local_time() -> (timestamp: String) {
    chrono::Local::now().format("%Y-%m-%d %H:%M:%S").to_string()
}

/// Puts the status line of the message `msg` at the time `timestamp`
/// together.
pub fn format_status_line(timestamp: &str, msg: &str) -> (line: String)
    ensures
        line@ == status_line(timestamp@, msg@),
{
    String::from_str("<b>").concat(timestamp).concat(":</b> ").concat(msg)
}

/// The information `msg`, given at the time `timestamp`.
pub fn show_info_at(timestamp: &str, msg: &str) -> (message: GuiMessage)
    ensures
        message@ == GuiMessageView::ShowInfo(status_line(timestamp@, msg@)),
{
    GuiMessage::ShowInfo(format_status_line(timestamp, msg))
}

/// The warning `msg`, given at the time `timestamp`.
pub fn show_warning_at(timestamp: &str, msg: &str) -> (message: GuiMessage)
    ensures
        message@ == GuiMessageView::ShowWarning(status_line(timestamp@, msg@)),
{
    GuiMessage::ShowWarning(format_status_line(timestamp, msg))
}

/// The error `msg`, given at the time `timestamp`.
pub fn show_error_at(timestamp: &str, msg: &str) -> (message: GuiMessage)
    ensures
        message@ == GuiMessageView::ShowError(status_line(timestamp@, msg@)),
{
    GuiMessage::ShowError(format_status_line(timestamp, msg))
}

/// The information `msg`, given now: its status line carries the local
/// time of the call.
pub fn show_info(msg: &str) -> (message: GuiMessage)
    ensures
        exists|timestamp: Seq<char>|
            message@ == GuiMessageView::ShowInfo(#[trigger] status_line(timestamp, msg@)),
{
    let now = local_time();
    show_info_at(now.as_str(), msg)
}

/// The warning `msg`, given now: its status line carries the local time
/// of the call.
pub fn show_warning(msg: &str) -> (message: GuiMessage)
    ensures
        exists|timestamp: Seq<char>|
            message@ == GuiMessageView::ShowWarning(#[trigger] status_line(timestamp, msg@)),
{
    let now = local_time();
    show_warning_at(now.as_str(), msg)
}

/// The error `msg`, given now: its status line carries the local time of
/// the call.
pub fn show_error(msg: &str) -> (message: GuiMessage)
    ensures
        exists|timestamp: Seq<char>|
            message@ == GuiMessageView::ShowError(#[trigger] status_line(timestamp, msg@)),
{
    let now = local_time();
    show_error_at(now.as_str(), msg)
}

/// An outcome that the Modbus master reports. The time of a status line is
/// added when the report is sent.
#[derive(Debug, PartialEq, Eq)]
pub enum Report {
    /// Something went as asked.
    Info(String),
    /// Something failed; the master goes on.
    Warning(String),
    /// A calibration failed.
    Error(String),
    /// A poll read the read-only registers.
    Rregs(Vec<(u16, u16)>),
    /// The sensor values of a poll: the read-only registers once more.
    SensorValues(Vec<(u16, u16)>),
    /// A poll read the read/write registers.
    Rwregs(Vec<(u16, u16)>),
}

/// A report as the contracts see it.
pub enum ReportView {
    /// Something went as asked.
    Info(Seq<char>),
    /// Something failed; the master goes on.
    Warning(Seq<char>),
    /// A calibration failed.
    Error(Seq<char>),
    /// A poll read the read-only registers.
    Rregs(Seq<(u16, u16)>),
    /// The sensor values of a poll.
    SensorValues(Seq<(u16, u16)>),
    /// A poll read the read/write registers.
    Rwregs(Seq<(u16, u16)>),
}

impl View for Report {
    type V = ReportView;

    open spec fn view(&self) -> ReportView {
        match self {
            Report::Info(text) => ReportView::Info(text@),
            Report::Warning(text) => ReportView::Warning(text@),
            Report::Error(text) => ReportView::Error(text@),
            Report::Rregs(values) => ReportView::Rregs(values@),
            Report::SensorValues(values) => ReportView::SensorValues(values@),
            Report::Rwregs(values) => ReportView::Rwregs(values@),
        }
    }
}

/// A message to the user interface as the contracts see it, as far as the
/// Modbus master sends it.
pub enum GuiMessageView {
    /// An information.
    ShowInfo(Seq<char>),
    /// A warning.
    ShowWarning(Seq<char>),
    /// An error.
    ShowError(Seq<char>),
    /// Sensor values.
    UpdateSensorValues(Seq<(u16, u16)>),
    /// Read-only registers with their values.
    UpdateRregs(Seq<(u16, u16)>),
    /// Read/write registers with their values.
    UpdateRwregs(Seq<(u16, u16)>),
    /// Any other message.
    Other,
}

impl View for GuiMessage {
    type V = GuiMessageView;

    open spec fn view(&self) -> GuiMessageView {
        match self {
            GuiMessage::ShowInfo(line) => GuiMessageView::ShowInfo(line@),
            GuiMessage::ShowWarning(line) => GuiMessageView::ShowWarning(line@),
            GuiMessage::ShowError(line) => GuiMessageView::ShowError(line@),
            GuiMessage::UpdateSensorValues(values) => GuiMessageView::UpdateSensorValues(values@),
            GuiMessage::UpdateRregs(values) => GuiMessageView::UpdateRregs(values@),
            GuiMessage::UpdateRwregs(values) => GuiMessageView::UpdateRwregs(values@),
            _ => GuiMessageView::Other,
        }
    }
}

impl ReportView {
    /// The message that carries the report to the user interface when it is
    /// sent at the time `timestamp`.
    pub open spec fn message(self, timestamp: Seq<char>) -> GuiMessageView {
        match self {
            ReportView::Info(text) => GuiMessageView::ShowInfo(status_line(timestamp, text)),
            ReportView::Warning(text) => GuiMessageView::ShowWarning(status_line(timestamp, text)),
            ReportView::Error(text) => GuiMessageView::ShowError(status_line(timestamp, text)),
            ReportView::Rregs(values) => GuiMessageView::UpdateRregs(values),
            ReportView::SensorValues(values) => GuiMessageView::UpdateSensorValues(values),
            ReportView::Rwregs(values) => GuiMessageView::UpdateRwregs(values),
        }
    }
}

impl Report {
    /// Turns the report into the message for the user interface. A status
    /// line gets `timestamp` as its time.
    pub fn into_message_at(self, timestamp: &str) -> (message: GuiMessage)
        ensures
            message@ == self@.message(timestamp@),
    {
        match self {
            Report::Info(text) => show_info_at(timestamp, text.as_str()),
            Report::Warning(text) => show_warning_at(timestamp, text.as_str()),
            Report::Error(text) => show_error_at(timestamp, text.as_str()),
            Report::Rregs(values) => GuiMessage::UpdateRregs(values),
            Report::SensorValues(values) => GuiMessage::UpdateSensorValues(values),
            Report::Rwregs(values) => GuiMessage::UpdateRwregs(values),
        }
    }

    /// Turns the report into the message for the user interface. A status
    /// line gets the local time of the call as its time.
    pub fn into_message(self) -> (message: GuiMessage)
        ensures
            exists|timestamp: Seq<char>| message@ == #[trigger] self@.message(timestamp),
    {
        let now = local_time();
        self.into_message_at(now.as_str())
    }
}

/// The text `prefix` followed by the text of `error`.
pub open spec fn with_error(prefix: Seq<char>, error: ModbusMasterError) -> Seq<char> {
    prefix + error.spec_message()
}

/// Appends the text of `error` to `prefix`.
pub fn append_error(prefix: &str, error: &ModbusMasterError) -> (text: String)
    ensures
        text@ == with_error(prefix@, *error),
{
    let detail = error.message();
    String::from_str(prefix).concat(detail.as_str())
}

} // verus!
