use vstd::prelude::*;

verus! {

/// Baud rate of every session.
pub const BAUD_RATE: u32 = 9600;

/// Data bits of every session.
pub const DATA_BITS: u8 = 8;

/// Stop bits of every session.
pub const STOP_BITS: u8 = 1;

/// The longest a single transaction (connect, read or write) may take, in
/// milliseconds.
pub const TRANSACTION_TIMEOUT: u64 = 100;

/// Parity of a serial line.
#[derive(Clone, Copy, Debug, PartialEq, Eq, Structural)]
pub enum Parity {
    /// No parity bit.
    NoParity,
    /// Even parity.
    Even,
    /// Odd parity.
    Odd,
}

/// How a serial line is driven.
#[derive(Clone, Copy, Debug, PartialEq, Eq, Structural)]
pub struct SerialPortSettings {
    /// Baud rate.
    pub baud_rate: u32,
    /// Data bits per character.
    pub data_bits: u8,
    /// Parity.
    pub parity: Parity,
    /// Stop bits per character.
    pub stop_bits: u8,
    /// Longest time a transaction may take, in milliseconds.
    pub timeout: u64,
}

/// The settings of every session: 9600 baud, 8 data bits, no parity, 1 stop
/// bit, and the fixed transaction timeout.
pub open spec fn fixed_settings() -> SerialPortSettings {
    SerialPortSettings {
        baud_rate: BAUD_RATE,
        data_bits: DATA_BITS,
        parity: Parity::NoParity,
        stop_bits: STOP_BITS,
        timeout: TRANSACTION_TIMEOUT,
    }
}

/// Everything needed to open one session: the serial device, how to drive
/// it, and the slave to talk to.
#[derive(Debug, PartialEq, Eq)]
pub struct SerialConfig {
    /// Path of the serial device.
    pub path: String,
    /// Settings of the serial line.
    pub settings: SerialPortSettings,
    /// Address of the slave.
    pub slave: u8,
}

/// Source of the sessions of the Modbus master. A session serves one
/// transaction sequence and is released afterwards; none is kept.
#[derive(Clone, Copy, Debug)]
pub struct ModbusRtuContext {}

impl ModbusRtuContext {
    /// Creates the context.
    pub fn new() -> (context: Self) {
        ModbusRtuContext {  }
    }

    /// Describes the session to open for `slave` behind the serial device
    /// `tty_path`. The settings of the line are fixed.
    pub fn context(&self, tty_path: String, slave: u8) -> (config: SerialConfig)
        ensures
            config.path == tty_path,
            config.settings == fixed_settings(),
            config.slave == slave,
    {
        SerialConfig {
            path: tty_path,
            settings: SerialPortSettings {
                baud_rate: BAUD_RATE,
                data_bits: DATA_BITS,
                parity: Parity::NoParity,
                stop_bits: STOP_BITS,
                timeout: TRANSACTION_TIMEOUT,
            },
            slave,
        }
    }
}

} // verus!
