//! Sensor-MB-NAP5xx_REV1_0: combined sensor for NAP5xx measuring cells.

use crate::platine::{copy_rregs, copy_rwregs, Platine};
use crate::registers::{non_empty, retain_registers, Rreg, Rwreg};
use vstd::prelude::*;

verus! {

/// Where the table of the board's read-only registers is kept.
pub const CSV_RREG: &'static str = "resources/sensor_mb_nap5xx-rregs.csv";

/// Where the table of the board's read/write registers is kept.
pub const CSV_RWREG: &'static str = "resources/sensor_mb_nap5xx-rwregs.csv";

/// The register that unlocks the board's protected registers.
pub const REG_PROTECTION: u16 = 79;

/// Id of the board's hardware version.
pub const HW_VERSION: i32 = 2;

/// Sensor-MB-NAP5xx_REV1_0
#[derive(Debug)]
pub struct SensorMbNap5xx {
    /// The read-only registers.
    pub rregs: Vec<Rreg>,
    /// The read/write registers.
    pub rwregs: Vec<Rwreg>,
}

impl SensorMbNap5xx {
    /// A board without registers.
    pub fn new() -> (platine: Self)
        ensures
            platine.rregs@.len() == 0,
            platine.rwregs@.len() == 0,
    {
        SensorMbNap5xx { rregs: Vec::new(), rwregs: Vec::new() }
    }

    /// Builds the board from the records of its two register tables, as
    /// they were read from `CSV_RREG` and `CSV_RWREG`. Records without a
    /// register number are skipped; the others keep their order.
    pub fn new_from_csv(rregs: Vec<Rreg>, rwregs: Vec<Rwreg>) -> (platine: Self)
        ensures
            platine.rregs@ == non_empty(rregs@),
            platine.rwregs@ == non_empty(rwregs@),
    {
        SensorMbNap5xx { rregs: retain_registers(rregs), rwregs: retain_registers(rwregs) }
    }
}

impl Platine for SensorMbNap5xx {
    open spec fn hw_version_id(&self) -> int {
        HW_VERSION as int
    }

    open spec fn spec_rregs(&self) -> Seq<Rreg> {
        self.rregs@
    }

    open spec fn spec_rwregs(&self) -> Seq<Rwreg> {
        self.rwregs@
    }

    open spec fn spec_reg_protection(&self) -> u16 {
        REG_PROTECTION
    }

    fn name(&self) -> (name: &str) {
        "Sensor-MB-NAP5xx_REV1_0"
    }

    fn description(&self) -> (description: &str) {
        "Kombisensor für NAP5xx Messzellen"
    }

    fn rregs(&self) -> (rregs: &[Rreg]) {
        self.rregs.as_slice()
    }

    fn rwregs(&self) -> (rwregs: &[Rwreg]) {
        self.rwregs.as_slice()
    }

    fn reg_protection(&self) -> (reg_protection: u16) {
        REG_PROTECTION
    }
}

impl Default for SensorMbNap5xx {
    /// A board without registers.
    fn default() -> (platine: Self)
        ensures
            platine.rregs@.len() == 0,
            platine.rwregs@.len() == 0,
    {
        SensorMbNap5xx::new()
    }
}

impl Clone for SensorMbNap5xx {
    fn clone(&self) -> (copy: Self)
        ensures
            copy.rregs@ == self.rregs@,
            copy.rwregs@ == self.rwregs@,
    {
        SensorMbNap5xx {
            rregs: copy_rregs(self.rregs.as_slice()),
            rwregs: copy_rwregs(self.rwregs.as_slice()),
        }
    }
}

} // verus!
