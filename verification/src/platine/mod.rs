//! The sensor boards that can be configured.
//!
//! | Board                   | Description                                    |
//! | ----------------------- | ---------------------------------------------- |
//! | Sensor-MB-NE4-V1.0      | first sensor board for NE4 measuring cells     |
//! | Sensor-MB-NE4_REV1_0    | board for NE4 measuring cells                  |
//! | Sensor-MB-NAP5xx_REV1_0 | combined sensor for NAP5xx measuring cells     |
//! | Sensor-MB-NAP5x_REV1_0  | board for NAP5x measuring cells                |
//! | Sensor-MB-CO2_O2_REV1_0 | combined board for CO2 and O2 measuring cells  |
//! | Sensor-MB-SP42A_REV1_0  | board for SP42 measuring cells                 |

use crate::registers::{Rreg, Rwreg};
use vstd::prelude::*;

pub mod sensor_mb_co2_o2;
pub mod sensor_mb_nap5x;
pub mod sensor_mb_nap5xx;
pub mod sensor_mb_ne4;
pub mod sensor_mb_ne4_legacy;
pub mod sensor_mb_sp42a;

pub use sensor_mb_co2_o2::SensorMbCo2O2;
pub use sensor_mb_nap5x::SensorMbNap5x;
pub use sensor_mb_nap5xx::SensorMbNap5xx;
pub use sensor_mb_ne4::SensorMbNe4;
pub use sensor_mb_ne4_legacy::SensorMbNe4Legacy;
pub use sensor_mb_sp42a::SensorMbSp42a;

verus! {

/// The protection register of a board that names none.
pub const DEFAULT_REG_PROTECTION: u16 = 79;

/// How many hardware versions there are. Their ids run from 0.
pub const HW_VERSION_COUNT: i32 = 6;

/// Name of the hardware version `id`.
pub open spec fn hw_version_name(id: int) -> Seq<char> {
    if id == 0 {
        "Sensor-MB-NE4-V1.0"@
    } else if id == 1 {
        "Sensor-MB-NE4_REV1_0"@
    } else if id == 2 {
        "Sensor-MB-NAP5xx_REV1_0"@
    } else if id == 3 {
        "Sensor-MB-NAP5x_REV1_0"@
    } else if id == 4 {
        "Sensor-MB-CO2_O2_REV1_0"@
    } else {
        "Sensor-MB-SP42A_REV1_0"@
    }
}

/// Description of the hardware version `id`.
pub open spec fn hw_version_description(id: int) -> Seq<char> {
    if id == 0 {
        "Erste Sensorplatine für Messzellen vom Typ NE4, bis Softwarestand: 25050"@
    } else if id == 1 {
        "Platine für NE4 Messzellen"@
    } else if id == 2 {
        "Kombisensor für NAP5xx Messzellen"@
    } else if id == 3 {
        "Platine für NAP5x Messzellen"@
    } else if id == 4 {
        "Kombisensor Platine für CO2 und O2 Messzellen"@
    } else {
        "Platine für SP42 Messzellen"@
    }
}

/// Name and description of the hardware version `id`, `None` where there
/// is no such version.
pub fn hw_version(id: i32) -> (version: Option<(&'static str, &'static str)>)
    ensures
        0 <= id < HW_VERSION_COUNT ==> (version matches Some(found) && found.0@
            == hw_version_name(id as int) && found.1@ == hw_version_description(id as int)),
        !(0 <= id < HW_VERSION_COUNT) ==> version is None,
{
    match id {
        0 => Some(
            (
                "Sensor-MB-NE4-V1.0",
                "Erste Sensorplatine für Messzellen vom Typ NE4, bis Softwarestand: 25050",
            ),
        ),
        1 => Some(("Sensor-MB-NE4_REV1_0", "Platine für NE4 Messzellen")),
        2 => Some(("Sensor-MB-NAP5xx_REV1_0", "Kombisensor für NAP5xx Messzellen")),
        3 => Some(("Sensor-MB-NAP5x_REV1_0", "Platine für NAP5x Messzellen")),
        4 => Some(("Sensor-MB-CO2_O2_REV1_0", "Kombisensor Platine für CO2 und O2 Messzellen")),
        5 => Some(("Sensor-MB-SP42A_REV1_0", "Platine für SP42 Messzellen")),
        _ => None,
    }
}

/// A sensor board of the RA-GAS Modbus system.
pub trait Platine {
    /// Id of the board's hardware version.
    spec fn hw_version_id(&self) -> int;

    /// The board's read-only registers.
    spec fn spec_rregs(&self) -> Seq<Rreg>;

    /// The board's read/write registers.
    spec fn spec_rwregs(&self) -> Seq<Rwreg>;

    /// The register that unlocks the board's protected registers.
    spec fn spec_reg_protection(&self) -> u16;

    /// Name of the board.
    fn name(&self) -> (name: &str)
        ensures
            name@ == hw_version_name(self.hw_version_id()),
    ;

    /// Description of the board.
    fn description(&self) -> (description: &str)
        ensures
            description@ == hw_version_description(self.hw_version_id()),
    ;

    /// The read-only registers.
    fn rregs(&self) -> (rregs: &[Rreg])
        ensures
            rregs@ == self.spec_rregs(),
    ;

    /// The read/write registers.
    fn rwregs(&self) -> (rwregs: &[Rwreg])
        ensures
            rwregs@ == self.spec_rwregs(),
    ;

    /// The read-only registers, as a list of their own.
    fn vec_rregs(&self) -> (rregs: Vec<Rreg>)
        ensures
            rregs@ == self.spec_rregs(),
    {
        copy_rregs(self.rregs())
    }

    /// The read/write registers, as a list of their own.
    fn vec_rwregs(&self) -> (rwregs: Vec<Rwreg>)
        ensures
            rwregs@ == self.spec_rwregs(),
    {
        copy_rwregs(self.rwregs())
    }

    /// Number of the register that unlocks the board's protected registers.
    fn reg_protection(&self) -> (reg_protection: u16)
        ensures
            reg_protection == self.spec_reg_protection(),
    ;
}

/// Copies a list of read-only registers.
pub fn copy_rregs(rregs: &[Rreg]) -> (copy: Vec<Rreg>)
    ensures
        copy@ == rregs@,
{
    let mut copy: Vec<Rreg> = Vec::new();
    let mut i: usize = 0;
    while i < rregs.len()
        invariant
            i <= rregs.len(),
            copy@ == rregs@.take(i as int),
        decreases rregs.len() - i,
    {
        copy.push(rregs[i].clone());
        i += 1;
    }
    copy
}

/// Copies a list of read/write registers.
pub fn copy_rwregs(rwregs: &[Rwreg]) -> (copy: Vec<Rwreg>)
    ensures
        copy@ == rwregs@,
{
    let mut copy: Vec<Rwreg> = Vec::new();
    let mut i: usize = 0;
    while i < rwregs.len()
        invariant
            i <= rwregs.len(),
            copy@ == rwregs@.take(i as int),
        decreases rwregs.len() - i,
    {
        copy.push(rwregs[i].clone());
        i += 1;
    }
    copy
}

/// The values of the measuring cells of a board.
#[derive(Clone, Copy, Debug, PartialEq, Eq, Structural)]
pub enum SensorValues {
    /// The value of the one cell of a board with one cell.
    Single(Option<u16>),
    /// The values of the first and of the second cell of a board with two
    /// cells.
    Duo(Option<u16>, Option<u16>),
}

/// What a poll of the read-only registers tells of a board.
#[derive(Clone, Copy, Debug, PartialEq, Eq, Structural)]
pub struct SensorReading {
    /// The values of the measuring cells.
    pub cells: SensorValues,
    /// The working mode of the board.
    pub working_mode: Option<u16>,
}

/// Whether the board of the hardware version `hw_version` has two measuring
/// cells: the boards for NAP5xx cells and for CO2 and O2 cells have.
pub open spec fn has_two_cells(hw_version: int) -> bool {
    hw_version == 2 || hw_version == 4
}

/// The value at position `i` of a poll, `None` where the poll is shorter.
pub open spec fn value_at(results: Seq<(u16, u16)>, i: int) -> Option<u16> {
    if 0 <= i < results.len() {
        Some(results[i].1)
    } else {
        None
    }
}

/// What the poll `results` of the read-only registers tells of the board of
/// the hardware version `hw_version`: the working mode is the second value
/// of the poll, the value of the first cell the third, and the value of a
/// second cell the seventh. `None` where there is no such board.
pub open spec fn sensor_reading(hw_version: int, results: Seq<(u16, u16)>) -> Option<
    SensorReading,
> {
    if !(0 <= hw_version < HW_VERSION_COUNT) {
        None
    } else if has_two_cells(hw_version) {
        Some(
            SensorReading {
                cells: SensorValues::Duo(value_at(results, 2), value_at(results, 6)),
                working_mode: value_at(results, 1),
            },
        )
    } else {
        Some(
            SensorReading {
                cells: SensorValues::Single(value_at(results, 2)),
                working_mode: value_at(results, 1),
            },
        )
    }
}

fn get_value(results: &Vec<(u16, u16)>, i: usize) -> (value: Option<u16>)
    ensures
        value == value_at(results@, i as int),
{
    if i < results.len() {
        Some(results[i].1)
    } else {
        None
    }
}

/// Picks the sensor values and the working mode of the board of the
/// hardware version `hw_version` out of a poll of its read-only registers.
pub fn sensor_values(hw_version: i32, results: &Vec<(u16, u16)>) -> (reading: Option<SensorReading>)
    ensures
        reading == sensor_reading(hw_version as int, results@),
{
    if hw_version < 0 || hw_version >= HW_VERSION_COUNT {
        None
    } else if hw_version == 2 || hw_version == 4 {
        Some(
            SensorReading {
                cells: SensorValues::Duo(get_value(results, 2), get_value(results, 6)),
                working_mode: get_value(results, 1),
            },
        )
    } else {
        Some(
            SensorReading {
                cells: SensorValues::Single(get_value(results, 2)),
                working_mode: get_value(results, 1),
            },
        )
    }
}

} // verus!
