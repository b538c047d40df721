//! The Modbus master: a dispatcher that takes commands, a control loop that
//! polls the registers of a board, and the bus transactions of both.
//!
//! The master decides and its caller acts: the caller owns the threads, the
//! serial line and the clock, carries out what the master asks for, and
//! hands back what came of it.

pub mod bus;
pub mod context;
pub mod context_error;
pub mod control_loop;
pub mod error;
pub mod job_laws;
pub mod loop_laws;
pub mod mailbox;
pub mod master_laws;

pub use bus::{Failure, Job, Reply, Request};
pub use context::{ModbusRtuContext, SerialConfig};
pub use context_error::ContextError;
pub use control_loop::{ControlLoop, LoopAction, LoopEvent, MsgControlLoop, PollConfig};
pub use error::ModbusMasterError;
pub use mailbox::Mailbox;

use crate::gui::{append_error, with_error, Report, ReportView};
use crate::registers::{Rreg, Rwreg};
use crate::text::{decimal, decimal_digits};
use bus::{
    messgas_register, nullgas_register, set_messgas, set_new_mcs_bus_id, set_new_modbus_id,
    set_nullgas, set_working_mode, update_register, write_script, JobView, CALIBRATION_VALUE,
    MCS_BUS_ID_REGISTER, MODBUS_ID_REGISTER, WORKING_MODE_REGISTER,
};
use vstd::prelude::*;
use vstd::string::*;

verus! {

/// A command to the Modbus master.
#[derive(Debug, PartialEq, Eq)]
pub enum ModbusMasterMessage {
    /// Start the control loop: poll the read-only and the read/write
    /// registers of the slave behind the serial device. The fields are the
    /// path of the device, the address of the slave, the two register lists
    /// and the protection register of the board.
    Connect(String, u8, Vec<Rreg>, Vec<Rwreg>, u16),
    /// Stop the control loop.
    Disconnect,
    /// Calibrate the zero point of a measuring cell.
    Nullgas {
        /// Path of the serial device.
        tty_path: String,
        /// Address of the slave.
        slave: u8,
        /// Protection register of the board.
        reg_protection: u16,
        /// Number of the measuring cell.
        sensor_num: u16,
    },
    /// Calibrate the span of a measuring cell.
    Messgas {
        /// Path of the serial device.
        tty_path: String,
        /// Address of the slave.
        slave: u8,
        /// Protection register of the board.
        reg_protection: u16,
        /// Number of the measuring cell.
        sensor_num: u16,
    },
    /// Give the board a new MCS bus address.
    SetNewMcsBusId {
        /// Path of the serial device.
        tty_path: String,
        /// Address of the slave.
        slave: u8,
        /// The new address.
        new_slave_id: u16,
        /// Protection register of the board.
        reg_protection: u16,
    },
    /// Give the board a new Modbus address.
    SetNewModbusId {
        /// Path of the serial device.
        tty_path: String,
        /// Address of the slave.
        slave: u8,
        /// The new address.
        new_slave_id: u16,
        /// Protection register of the board.
        reg_protection: u16,
    },
    /// Set the working mode of the board.
    SetNewWorkingMode {
        /// Path of the serial device.
        tty_path: String,
        /// Address of the slave.
        slave: u8,
        /// The new working mode.
        working_mode: u16,
        /// Protection register of the board.
        reg_protection: u16,
    },
    /// Set one register.
    UpdateRegister {
        /// Path of the serial device.
        tty_path: String,
        /// Address of the slave.
        slave: u8,
        /// Number of the register.
        reg_nr: u16,
        /// Protection register of the board.
        reg_protection: u16,
        /// The new value.
        new_value: u16,
    },
}

/// The command that a protected write serves.
#[derive(Clone, Copy, Debug, PartialEq, Eq, Structural)]
pub enum WriteCommand {
    /// Calibration of a zero point.
    Nullgas,
    /// Calibration of a span.
    Messgas,
    /// A new MCS bus address.
    SetNewMcsBusId {
        /// The new address.
        new_slave_id: u16,
    },
    /// A new Modbus address.
    SetNewModbusId {
        /// The new address.
        new_slave_id: u16,
    },
    /// A new working mode.
    SetNewWorkingMode,
    /// A new value of one register.
    UpdateRegister,
}

/// What the dispatcher has to do for the command it took.
pub enum Dispatch {
    /// There was no command.
    Idle,
    /// The command is done with.
    Done,
    /// The command is done with, and this is to be reported.
    Report(Report),
    /// The job is to be carried out on the bus, and its result reported as
    /// the outcome of the command.
    Write(WriteCommand, Job),
}

/// What the dispatcher has to do, as the contracts see it.
pub enum DispatchView {
    /// There was no command.
    Idle,
    /// The command is done with.
    Done,
    /// The command is done with, and this is to be reported.
    Report(ReportView),
    /// The job is to be carried out on the bus, and its result reported as
    /// the outcome of the command.
    Write(WriteCommand, JobView),
}

impl View for Dispatch {
    type V = DispatchView;

    open spec fn view(&self) -> DispatchView {
        match self {
            Dispatch::Idle => DispatchView::Idle,
            Dispatch::Done => DispatchView::Done,
            Dispatch::Report(report) => DispatchView::Report(report@),
            Dispatch::Write(command, job) => DispatchView::Write(*command, job@),
        }
    }
}

/// The warning after the control loop's mailbox turned an instruction away.
pub open spec fn unreachable_warning() -> Seq<char> {
    with_error(
        "Control Loop konnte nicht erreicht werden: "@,
        ModbusMasterError::MailboxUnreachable,
    )
}

/// The report on a protected write that served `command`: an information
/// when it went through, else an error for a calibration and a warning for
/// any other command, each with the text of the error.
pub open spec fn write_report_of(
    command: WriteCommand,
    failure: Option<ModbusMasterError>,
) -> ReportView {
    match failure {
        None => ReportView::Info(
            match command {
                WriteCommand::Nullgas => "Nullpunkt erfolgreich gesetzt"@,
                WriteCommand::Messgas => "Endwert Messgas erfolgreich gesetzt"@,
                WriteCommand::SetNewMcsBusId { new_slave_id } => "MCS Adresse erfolgreich gesetzt"@,
                WriteCommand::SetNewModbusId { new_slave_id } =>
                    "Modbus Adresse erfolgreich gesetzt"@,
                WriteCommand::SetNewWorkingMode => "Arbeitsweise erfolgreich gesetzt"@,
                WriteCommand::UpdateRegister => "Register erfolgreich aktualisiert"@,
            },
        ),
        Some(error) => match command {
            WriteCommand::Nullgas => ReportView::Error(
                with_error("Nullgas konnte nicht gesetzt werden: "@, error),
            ),
            WriteCommand::Messgas => ReportView::Error(
                with_error("Messgas konnte nicht gesetzt werden: "@, error),
            ),
            WriteCommand::SetNewMcsBusId { new_slave_id } => ReportView::Warning(
                with_error(
                    "Konnte MCS Adresse '"@ + decimal_digits(new_slave_id as nat)
                        + "' nicht speichern:\r\n"@,
                    error,
                ),
            ),
            WriteCommand::SetNewModbusId { new_slave_id } => ReportView::Warning(
                with_error(
                    "Konnte Modbus Adresse '"@ + decimal_digits(new_slave_id as nat)
                        + "' nicht speichern:\r\n"@,
                    error,
                ),
            ),
            WriteCommand::SetNewWorkingMode => ReportView::Warning(
                with_error("Konnte Arbeitsweise nicht festlegen:\r\n"@, error),
            ),
            WriteCommand::UpdateRegister => ReportView::Warning(
                with_error("Konnte Arbeitsweise nicht festlegen:\r\n"@, error),
            ),
        },
    }
}

/// The error of a result, if it is one.
pub open spec fn failure_of(result: Result<Vec<(u16, u16)>, ModbusMasterError>) -> Option<
    ModbusMasterError,
> {
    match result {
        Ok(_) => None,
        Err(error) => Some(error),
    }
}

/// Reports the outcome of the protected write that served `command`.
pub fn write_report(
    command: WriteCommand,
    result: Result<Vec<(u16, u16)>, ModbusMasterError>,
) -> (report: Report)
    ensures
        report@ == write_report_of(command, failure_of(result)),
{
    match result {
        Ok(_) => Report::Info(
            match command {
                WriteCommand::Nullgas => String::from_str("Nullpunkt erfolgreich gesetzt"),
                WriteCommand::Messgas => String::from_str("Endwert Messgas erfolgreich gesetzt"),
                WriteCommand::SetNewMcsBusId { new_slave_id } => String::from_str(
                    "MCS Adresse erfolgreich gesetzt",
                ),
                WriteCommand::SetNewModbusId { new_slave_id } => String::from_str(
                    "Modbus Adresse erfolgreich gesetzt",
                ),
                WriteCommand::SetNewWorkingMode => String::from_str(
                    "Arbeitsweise erfolgreich gesetzt",
                ),
                WriteCommand::UpdateRegister => String::from_str(
                    "Register erfolgreich aktualisiert",
                ),
            },
        ),
        Err(error) => match command {
            WriteCommand::Nullgas => Report::Error(
                append_error("Nullgas konnte nicht gesetzt werden: ", &error),
            ),
            WriteCommand::Messgas => Report::Error(
                append_error("Messgas konnte nicht gesetzt werden: ", &error),
            ),
            WriteCommand::SetNewMcsBusId { new_slave_id } => {
                let number = decimal(new_slave_id);
                let prefix = String::from_str("Konnte MCS Adresse '").concat(
                    number.as_str(),
                ).concat("' nicht speichern:\r\n");
                Report::Warning(append_error(prefix.as_str(), &error))
            },
            WriteCommand::SetNewModbusId { new_slave_id } => {
                let number = decimal(new_slave_id);
                let prefix = String::from_str("Konnte Modbus Adresse '").concat(
                    number.as_str(),
                ).concat("' nicht speichern:\r\n");
                Report::Warning(append_error(prefix.as_str(), &error))
            },
            WriteCommand::SetNewWorkingMode => Report::Warning(
                append_error("Konnte Arbeitsweise nicht festlegen:\r\n", &error),
            ),
            WriteCommand::UpdateRegister => Report::Warning(
                append_error("Konnte Arbeitsweise nicht festlegen:\r\n", &error),
            ),
        },
    }
}

/// The Modbus master as the contracts see it.
pub struct MasterView {
    /// The command that waits for the dispatcher, if one does.
    pub tx: Option<ModbusMasterMessage>,
    /// The online flag: whether the control loop shall go on polling.
    pub is_online: bool,
    /// The instruction that waits for the control loop, if one does.
    pub control_loop: Option<MsgControlLoop>,
}

impl MasterView {
    /// The master after `message` was sent to it, and whether it took the
    /// message. A master that still holds a command takes no other.
    pub open spec fn send(self, message: ModbusMasterMessage) -> (
        MasterView,
        Result<(), ModbusMasterError>,
    ) {
        match self.tx {
            None => (MasterView { tx: Some(message), ..self }, Ok(())),
            Some(_) => (self, Err(ModbusMasterError::MailboxUnreachable)),
        }
    }

    /// The master after it has routed `message`, and what the dispatcher has
    /// to do for it.
    ///
    /// `Connect` sets the online flag and puts the instruction to start into
    /// the control loop's mailbox; where that mailbox is occupied the
    /// instruction is dropped and a warning reported. `Disconnect` clears the
    /// online flag. `SetNewWorkingMode` clears the online flag and asks for
    /// its protected write. Every other command asks for its protected write
    /// and leaves the master as it is.
    pub open spec fn route(self, message: ModbusMasterMessage) -> (MasterView, DispatchView) {
        match message {
            ModbusMasterMessage::Connect(tty_path, slave, rregs, rwregs, reg_protection) => {
                let start = MsgControlLoop::Start(
                    PollConfig {
                        tty_path,
                        slave_id: slave,
                        rregs,
                        rwregs,
                        protection_register: reg_protection,
                    },
                );
                match self.control_loop {
                    None => (
                        MasterView { is_online: true, control_loop: Some(start), ..self },
                        DispatchView::Done,
                    ),
                    Some(_) => (
                        MasterView { is_online: true, ..self },
                        DispatchView::Report(ReportView::Warning(unreachable_warning())),
                    ),
                }
            },
            ModbusMasterMessage::Disconnect => (
                MasterView { is_online: false, ..self },
                DispatchView::Done,
            ),
            ModbusMasterMessage::Nullgas { tty_path, slave, reg_protection, sensor_num } => (
                self,
                DispatchView::Write(
                    WriteCommand::Nullgas,
                    JobView::fresh(
                        tty_path@,
                        slave,
                        write_script(
                            reg_protection,
                            nullgas_register(sensor_num),
                            CALIBRATION_VALUE,
                        ),
                    ),
                ),
            ),
            ModbusMasterMessage::Messgas { tty_path, slave, reg_protection, sensor_num } => (
                self,
                DispatchView::Write(
                    WriteCommand::Messgas,
                    JobView::fresh(
                        tty_path@,
                        slave,
                        write_script(
                            reg_protection,
                            messgas_register(sensor_num),
                            CALIBRATION_VALUE,
                        ),
                    ),
                ),
            ),
            ModbusMasterMessage::SetNewMcsBusId {
                tty_path,
                slave,
                new_slave_id,
                reg_protection,
            } => (
                self,
                DispatchView::Write(
                    WriteCommand::SetNewMcsBusId { new_slave_id },
                    JobView::fresh(
                        tty_path@,
                        slave,
                        write_script(reg_protection, MCS_BUS_ID_REGISTER, new_slave_id),
                    ),
                ),
            ),
            ModbusMasterMessage::SetNewModbusId {
                tty_path,
                slave,
                new_slave_id,
                reg_protection,
            } => (
                self,
                DispatchView::Write(
                    WriteCommand::SetNewModbusId { new_slave_id },
                    JobView::fresh(
                        tty_path@,
                        slave,
                        write_script(reg_protection, MODBUS_ID_REGISTER, new_slave_id),
                    ),
                ),
            ),
            ModbusMasterMessage::SetNewWorkingMode {
                tty_path,
                slave,
                working_mode,
                reg_protection,
            } => (
                MasterView { is_online: false, ..self },
                DispatchView::Write(
                    WriteCommand::SetNewWorkingMode,
                    JobView::fresh(
                        tty_path@,
                        slave,
                        write_script(reg_protection, WORKING_MODE_REGISTER, working_mode),
                    ),
                ),
            ),
            ModbusMasterMessage::UpdateRegister {
                tty_path,
                slave,
                reg_nr,
                reg_protection,
                new_value,
            } => (
                self,
                DispatchView::Write(
                    WriteCommand::UpdateRegister,
                    JobView::fresh(
                        tty_path@,
                        slave,
                        write_script(reg_protection, reg_nr, new_value),
                    ),
                ),
            ),
        }
    }

    /// The master after the dispatcher has taken the command that waited,
    /// and what the dispatcher has to do for it.
    pub open spec fn dispatch(self) -> (MasterView, DispatchView) {
        match self.tx {
            None => (self, DispatchView::Idle),
            Some(message) => (MasterView { tx: None, ..self }).route(message),
        }
    }

    /// The master after the control loop has taken the instruction that
    /// waited for it, and that instruction.
    pub open spec fn recv_start(self) -> (MasterView, Option<MsgControlLoop>) {
        (MasterView { control_loop: None, ..self }, self.control_loop)
    }
}

/// The Modbus master: what the caller's threads share.
///
/// A command is sent to the master with `try_send`. The dispatcher takes it
/// with `dispatch` and does what it is told. The control loop takes its
/// instruction with `recv_start` and reads the online flag with
/// `is_online`. None of them waits.
pub struct ModbusMaster {
    /// The mailbox of the dispatcher.
    tx: Mailbox<ModbusMasterMessage>,
    is_online: bool,
    control_loop_tx: Mailbox<MsgControlLoop>,
}

impl View for ModbusMaster {
    type V = MasterView;

    closed spec fn view(&self) -> MasterView {
        MasterView { tx: self.tx@, is_online: self.is_online, control_loop: self.control_loop_tx@ }
    }
}

impl ModbusMaster {
    /// A Modbus master that holds no command, is offline, and whose control
    /// loop has no instruction.
    pub fn new() -> (master: ModbusMaster)
        ensures
            master@ == (MasterView { tx: None, is_online: false, control_loop: None }),
    {
        ModbusMaster { tx: Mailbox::new(), is_online: false, control_loop_tx: Mailbox::new() }
    }

    /// Sends a command to the master. The master takes it unless it still
    /// holds an earlier one; then the command is turned away with
    /// `MailboxUnreachable`, and nothing changes.
    pub fn try_send(&mut self, message: ModbusMasterMessage) -> (sent: Result<
        (),
        ModbusMasterError,
    >)
        ensures
            (final(self)@, sent) == old(self)@.send(message),
    {
        match self.tx.try_send(message) {
            Ok(()) => Ok(()),
            Err(_) => Err(ModbusMasterError::MailboxUnreachable),
        }
    }

    /// Whether the control loop shall go on polling.
    pub fn is_online(&self) -> (online: bool)
        ensures
            online == self@.is_online,
    {
        self.is_online
    }

    /// Takes the instruction that waits for the control loop, if one does.
    pub fn recv_start(&mut self) -> (start: Option<MsgControlLoop>)
        ensures
            (final(self)@, start) == old(self)@.recv_start(),
    {
        self.control_loop_tx.try_recv()
    }

    /// Takes the command that waits for the dispatcher, routes it, and
    /// tells what the dispatcher has to do for it.
    pub fn dispatch(&mut self) -> (todo: Dispatch)
        ensures
            (final(self)@, todo@) == old(self)@.dispatch(),
    {
        let message = match self.tx.try_recv() {
            None => {
                return Dispatch::Idle;
            },
            Some(message) => message,
        };
        match message {
            ModbusMasterMessage::Connect(tty_path, slave, rregs, rwregs, reg_protection) => {
                self.is_online = true;
                let start = MsgControlLoop::Start(
                    PollConfig {
                        tty_path,
                        slave_id: slave,
                        rregs,
                        rwregs,
                        protection_register: reg_protection,
                    },
                );
                match self.control_loop_tx.try_send(start) {
                    Ok(()) => Dispatch::Done,
                    Err(_) => Dispatch::Report(
                        Report::Warning(
                            append_error(
                                "Control Loop konnte nicht erreicht werden: ",
                                &ModbusMasterError::MailboxUnreachable,
                            ),
                        ),
                    ),
                }
            },
            ModbusMasterMessage::Disconnect => {
                self.is_online = false;
                Dispatch::Done
            },
            ModbusMasterMessage::Nullgas { tty_path, slave, reg_protection, sensor_num } => {
                Dispatch::Write(
                    WriteCommand::Nullgas,
                    set_nullgas(tty_path, slave, reg_protection, sensor_num),
                )
            },
            ModbusMasterMessage::Messgas { tty_path, slave, reg_protection, sensor_num } => {
                Dispatch::Write(
                    WriteCommand::Messgas,
                    set_messgas(tty_path, slave, reg_protection, sensor_num),
                )
            },
            ModbusMasterMessage::SetNewMcsBusId {
                tty_path,
                slave,
                new_slave_id,
                reg_protection,
            } => {
                Dispatch::Write(
                    WriteCommand::SetNewMcsBusId { new_slave_id },
                    set_new_mcs_bus_id(tty_path, slave, new_slave_id, reg_protection),
                )
            },
            ModbusMasterMessage::SetNewModbusId {
                tty_path,
                slave,
                new_slave_id,
                reg_protection,
            } => {
                Dispatch::Write(
                    WriteCommand::SetNewModbusId { new_slave_id },
                    set_new_modbus_id(tty_path, slave, new_slave_id, reg_protection),
                )
            },
            ModbusMasterMessage::SetNewWorkingMode {
                tty_path,
                slave,
                working_mode,
                reg_protection,
            } => {
                self.is_online = false;
                Dispatch::Write(
                    WriteCommand::SetNewWorkingMode,
                    set_working_mode(tty_path, slave, working_mode, reg_protection),
                )
            },
            ModbusMasterMessage::UpdateRegister {
                tty_path,
                slave,
                reg_nr,
                reg_protection,
                new_value,
            } => {
                Dispatch::Write(
                    WriteCommand::UpdateRegister,
                    update_register(tty_path, slave, reg_nr, reg_protection, new_value),
                )
            },
        }
    }
}

} // verus!
