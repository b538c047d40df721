use crate::registers::Register;
use vstd::prelude::*;

verus! {

/// A read/write register: one record of a board's table of holding registers.
#[derive(Debug, PartialEq, Eq)]
pub struct Rwreg {
    /// Register number; `None` in a record that describes no register.
    pub reg_nr: Option<u32>,
    /// Range of the values the register takes.
    pub range: String,
    /// Quantity and unit that the register holds.
    pub value: Option<String>,
    /// What the register means. A `*` in it marks the register as protected.
    pub description: String,
}

/// A text to which a character was added holds what it held before, and
/// that character.
proof fn lemma_contains_after_push(text: Seq<char>, last: char, sought: char)
    ensures
        text.push(last).contains(sought) <==> text.contains(sought) || last == sought,
{
    let longer = text.push(last);
    if text.contains(sought) {
        let i = text.lemma_contains_to_index(sought);
        assert(longer[i] == sought);
    }
    if last == sought {
        assert(longer[text.len() as int] == sought);
    }
    if longer.contains(sought) {
        let i = longer.lemma_contains_to_index(sought);
        if i < text.len() {
            assert(text[i] == sought);
        }
    }
}

impl Rwreg {
    /// The register number, 0 where the record carries none.
    pub open spec fn spec_reg_nr(&self) -> u32 {
        match self.reg_nr {
            Some(num) => num,
            None => 0,
        }
    }

    /// The address under which the register is read and written on the bus:
    /// the low 16 bits of the register number.
    pub open spec fn spec_address(&self) -> u16 {
        (self.spec_reg_nr() % 0x1_0000) as u16
    }

    /// A register is protected where its description holds a `*`.
    pub open spec fn spec_is_protected(&self) -> bool {
        self.description@.contains('*')
    }

    /// Register number, 0 where the record carries none.
    pub fn reg_nr(&self) -> (num: u32)
        ensures
            num == self.spec_reg_nr(),
    {
        match self.reg_nr {
            Some(num) => num,
            None => 0,
        }
    }

    /// Address of the register on the bus.
    pub fn address(&self) -> (address: u16)
        ensures
            address == self.spec_address(),
    {
        (self.reg_nr() % 0x1_0000) as u16
    }

    /// Range of the register's values, as text.
    pub fn range(&self) -> (range: String)
        ensures
            range@ == self.range@,
    {
        self.range.clone()
    }

    /// The register's value as text. A descriptor holds no value that was
    /// read, so the text is empty.
    pub fn value(&self) -> (value: String)
        ensures
            value@ == Seq::<char>::empty(),
    {
        String::new()
    }

    /// Description of the register.
    pub fn description(&self) -> (description: String)
        ensures
            description@ == self.description@,
    {
        self.description.clone()
    }

    /// Whether the register is protected: it can be read and written only
    /// after the board has been unlocked.
    pub fn is_protected(&self) -> (protected: bool)
        ensures
            protected == self.spec_is_protected(),
    {
        let text = self.description.as_str();
        let mut found = false;
        for c in it: text.chars()
            invariant
                it.seq() == text@,
                found == text@.subrange(0, it.index() as int).contains('*'),
        {
            proof {
                let i = it.index() as int;
                assert(text@.subrange(0, i + 1) == text@.subrange(0, i).push(c));
                lemma_contains_after_push(text@.subrange(0, i), c, '*');
            }
            if c == '*' {
                found = true;
            }
        }
        proof {
            assert(text@.subrange(0, text@.len() as int) == text@);
        }
        found
    }
}

impl Register for Rwreg {
    open spec fn spec_is_empty(&self) -> bool {
        self.reg_nr is None
    }

    fn is_empty(&self) -> (empty: bool) {
        self.reg_nr.is_none()
    }
}

impl Default for Rwreg {
    /// The empty record: no register number, empty texts.
    fn default() -> (rwreg: Self)
        ensures
            rwreg.reg_nr is None,
            rwreg.range@ == Seq::<char>::empty(),
            rwreg.value is None,
            rwreg.description@ == Seq::<char>::empty(),
    {
        Rwreg { reg_nr: None, range: String::new(), value: None, description: String::new() }
    }
}

impl Clone for Rwreg {
    fn clone(&self) -> (copy: Self)
        ensures
            copy == *self,
    {
        let value = match &self.value {
            Some(text) => Some(text.clone()),
            None => None,
        };
        Rwreg {
            reg_nr: self.reg_nr,
            range: self.range.clone(),
            value,
            description: self.description.clone(),
        }
    }
}

} // verus!
