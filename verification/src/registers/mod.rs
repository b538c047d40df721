//! The two register classes of a sensor board.
//!
//! * `Rreg`: read-only registers (input registers, function code 0x04)
//! * `Rwreg`: read/write registers (holding registers, function codes 0x03 and 0x06)

use vstd::prelude::*;

mod rreg;
mod rwreg;

pub use rreg::Rreg;
pub use rwreg::Rwreg;

verus! {

/// A record of a register table.
pub trait Register {
    /// Whether the record carries no register number.
    spec fn spec_is_empty(&self) -> bool;

    /// Tells whether the record is empty. A register table may hold records
    /// without a register number; they describe no register and are skipped
    /// when a board is built.
    fn is_empty(&self) -> (empty: bool)
        ensures
            empty == self.spec_is_empty(),
    ;
}

/// The test that a record describes a register.
pub open spec fn describes_register<T: Register>() -> spec_fn(T) -> bool {
    |r: T| !r.spec_is_empty()
}

/// The records of `records` that are not empty, in their order.
pub open spec fn non_empty<T: Register>(records: Seq<T>) -> Seq<T> {
    records.filter(describes_register::<T>())
}

/// Drops the empty records of a register table and keeps the others in
/// their order.
pub fn retain_registers<T: Register>(records: Vec<T>) -> (registers: Vec<T>)
    ensures
        registers@ == non_empty(records@),
{
    let ghost all = records@;
    let mut kept: Vec<T> = Vec::new();
    for record in it: records
        invariant
            it.seq() == all,
            kept@ == non_empty(all.subrange(0, it.index() as int)),
    {
        proof {
            let i = it.index() as int;
            let before = all.subrange(0, i);
            assert(all.subrange(0, i + 1) == before.push(record));
            before.lemma_filter_push(record, describes_register::<T>());
        }
        if !record.is_empty() {
            kept.push(record);
        }
    }
    proof {
        assert(all.subrange(0, all.len() as int) == all);
    }
    kept
}

} // verus!
