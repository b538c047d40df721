//! Configuration of RA-GAS sensor boards over Modbus RTU.
//!
//! The crate holds what the configuration tool decides, and proves it:
//!
//! * [`registers`]: the descriptors of the read-only and of the read/write
//!   registers of a board;
//! * [`platine`]: the supported boards with their register lists;
//! * [`modbus_master`]: the Modbus master, which polls the registers of a
//!   board and carries out the protected writes that calibrate and configure
//!   it;
//! * [`serial_interface`]: which serial interfaces are offered;
//! * [`gui`]: what is reported to the user interface.
//!
//! Nothing in here touches a serial line, a thread or a file; of the machine
//! only the clock is read, for the time of a status line. The Modbus
//! master is a set of state machines: it tells its caller what to do next on
//! the bus or towards the user interface, and the caller tells it what came
//! of that.

pub mod gui;
pub mod modbus_master;
pub mod platine;
pub mod registers;
pub mod serial_interface;
pub mod text;
