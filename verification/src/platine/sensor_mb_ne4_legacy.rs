//! Sensor-MB-NE4-V1.0: first sensor board for NE4 measuring cells, up to software 25050.

use crate::platine::{copy_rregs, copy_rwregs, Platine};
use crate::registers::{non_empty, retain_registers, Rreg, Rwreg};
use vstd::prelude::*;

verus! {

/// Where the table of the board's read-only registers is kept.
pub const CSV_RREG: &'static str = "resources/sensor_mb_ne4_legacy-rregs.csv";

/// Where the table of the board's read/write registers is kept.
pub const CSV_RWREG: &'static str = "resources/sensor_mb_ne4_legacy-rwregs.csv";

/// The register that unlocks the board's protected registers.
pub const REG_PROTECTION: u16 = 49;

/// Id of the board's hardware version.
pub const HW_VERSION: i32 = 0;

/// Sensor-MB-NE4-V1.0
#[derive(Debug)]
pub struct SensorMbNe4Legacy {
    /// The read-only registers.
    pub rregs: Vec<Rreg>,
    /// The read/write registers.
    pub rwregs: Vec<Rwreg>,
}

impl SensorMbNe4Legacy {
    /// A board without registers.
    pub fn new() -> (platine: Self)
        ensures
            platine.rregs@.len() == 0,
            platine.rwregs@.len() == 0,
    {
        SensorMbNe4Legacy { rregs: Vec::new(), rwregs: Vec::new() }
    }

    /// Builds the board from the records of its two register tables, as
    /// they were read from `CSV_RREG` and `CSV_RWREG`. Records without a
    /// register number are skipped; the others keep their order.
    pub fn new_from_csv(rregs: Vec<Rreg>, rwregs: Vec<Rwreg>) -> (platine: Self)
        ensures
            platine.rregs@ == non_empty(rregs@),
            platine.rwregs@ == non_empty(rwregs@),
    {
        SensorMbNe4Legacy { rregs: retain_registers(rregs), rwregs: retain_registers(rwregs) }
    }
}

impl Platine for SensorMbNe4Legacy {
    open spec fn hw_version_id(&self) -> int {
        HW_VERSION as int
    }

    open spec fn spec_rregs(&self) -> Seq<Rreg> {
        self.rregs@
    }

    open spec fn spec_rwregs(&self) -> Seq<Rwreg> {
        self.rwregs@
    }

    open spec fn spec_reg_protection(&self) -> u16 {
        REG_PROTECTION
    }

    fn name(&self) -> (name: &str) {
        "Sensor-MB-NE4-V1.0"
    }

    fn description(&self) -> (description: &str) {
        "Erste Sensorplatine für Messzellen vom Typ NE4, bis Softwarestand: 25050"
    }

    fn rregs(&self) -> (rregs: &[Rreg]) {
        self.rregs.as_slice()
    }

    fn rwregs(&self) -> (rwregs: &[Rwreg]) {
        self.rwregs.as_slice()
    }

    fn reg_protection(&self) -> (reg_protection: u16) {
        REG_PROTECTION
    }
}

impl Default for SensorMbNe4Legacy {
    /// A board without registers.
    fn default() -> (platine: Self)
        ensures
            platine.rregs@.len() == 0,
            platine.rwregs@.len() == 0,
    {
        SensorMbNe4Legacy::new()
    }
}

impl Clone for SensorMbNe4Legacy {
    fn clone(&self) -> (copy: Self)
        ensures
            copy.rregs@ == self.rregs@,
            copy.rwregs@ == self.rwregs@,
    {
        SensorMbNe4Legacy {
            rregs: copy_rregs(self.rregs.as_slice()),
            rwregs: copy_rwregs(self.rwregs.as_slice()),
        }
    }
}

} // verus!
