use crate::registers::Register;
use vstd::prelude::*;

verus! {

/// A read-only register: one record of a board's table of input registers.
#[derive(Debug, PartialEq, Eq)]
pub struct Rreg {
    /// Register number; `None` in a record that describes no register.
    pub reg_nr: Option<u32>,
    /// Range of the values the register takes.
    pub range: String,
    /// Quantity and unit that the register holds.
    pub value: Option<String>,
    /// What the register means.
    pub description: String,
}

impl Rreg {
    /// The register number, 0 where the record carries none.
    pub open spec fn spec_reg_nr(&self) -> u32 {
        match self.reg_nr {
            Some(num) => num,
            None => 0,
        }
    }

    /// The address under which the register is read on the bus: the low 16
    /// bits of the register number.
    pub open spec fn spec_address(&self) -> u16 {
        (self.spec_reg_nr() % 0x1_0000) as u16
    }

    /// Register number, 0 where the record carries none.
    pub fn reg_nr(&self) -> (num: u32)
        ensures
            num == self.spec_reg_nr(),
    {
        match self.reg_nr {
            Some(num) => num,
            None => 0,
        }
    }

    /// Address of the register on the bus.
    pub fn address(&self) -> (address: u16)
        ensures
            address == self.spec_address(),
    {
        (self.reg_nr() % 0x1_0000) as u16
    }

    /// Range of the register's values, as text.
    pub fn range(&self) -> (range: String)
        ensures
            range@ == self.range@,
    {
        self.range.clone()
    }

    /// The register's value as text. A descriptor holds no value that was
    /// read, so the text is empty.
    pub fn value(&self) -> (value: String)
        ensures
            value@ == Seq::<char>::empty(),
    {
        String::new()
    }

    /// Description of the register.
    pub fn description(&self) -> (description: String)
        ensures
            description@ == self.description@,
    {
        self.description.clone()
    }
}

impl Register for Rreg {
    open spec fn spec_is_empty(&self) -> bool {
        self.reg_nr is None
    }

    fn is_empty(&self) -> (empty: bool) {
        self.reg_nr.is_none()
    }
}

impl Default for Rreg {
    /// The empty record: no register number, empty texts.
    fn default() -> (rreg: Self)
        ensures
            rreg.reg_nr is None,
            rreg.range@ == Seq::<char>::empty(),
            rreg.value is None,
            rreg.description@ == Seq::<char>::empty(),
    {
        Rreg { reg_nr: None, range: String::new(), value: None, description: String::new() }
    }
}

impl Clone for Rreg {
    fn clone(&self) -> (copy: Self)
        ensures
            copy == *self,
    {
        let value = match &self.value {
            Some(text) => Some(text.clone()),
            None => None,
        };
        Rreg {
            reg_nr: self.reg_nr,
            range: self.range.clone(),
            value,
            description: self.description.clone(),
        }
    }
}

} // verus!
