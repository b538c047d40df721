//! The serial interfaces of the machine, as the user interface offers them.
//!
//! Looking for the interfaces is the caller's part. What is offered of what
//! was found, and when the user interface is told, is decided here.

use crate::gui::GuiMessage;
use vstd::prelude::*;
use vstd::string::*;

verus! {

/// Time between two looks for the serial interfaces, in milliseconds.
pub const SCAN_INTERVAL: u64 = 100;

/// Whether `a` comes before `b`, or is `b`, in the order of strings:
/// character by character, a character with the lower code first, and a
/// text before every text that it begins.
pub open spec fn text_le(a: Seq<char>, b: Seq<char>) -> bool
    decreases a.len(),
{
    if a.len() == 0 {
        true
    } else if b.len() == 0 {
        false
    } else if a.first() != b.first() {
        (a.first() as u32) < (b.first() as u32)
    } else {
        text_le(a.drop_first(), b.drop_first())
    }
}

/// Whether the names are in ascending order.
pub open spec fn ascending(names: Seq<String>) -> bool {
    forall|i: int, j: int|
        0 <= i < j < names.len() ==> text_le(#[trigger] names[i]@, #[trigger] names[j]@)
}

/// The test that a serial interface can be used: every interface but
/// `/dev/ttyS0`.
pub open spec fn usable() -> spec_fn(String) -> bool {
    |name: String| name@ != "/dev/ttyS0"@
}

/// Sorts the names with `sort` of std's slices. The contract states what
/// std documents of it and of the order of strings: the names stay the same
/// and end in ascending order, where strings are ordered by their
/// characters' codes.
#[verifier::external_body]
fn sort_names(names: &mut Vec<String>)
    ensures
        final(names)@.to_multiset() == old(names)@.to_multiset(),
        ascending(final(names)@),
{
    names.sort();
}

/// The serial interfaces to offer, of those that were found: all but the
/// unusable `/dev/ttyS0`, in ascending order.
pub fn get_ports(available_ports: Vec<String>) -> (ports: Vec<String>)
    ensures
        ports@.to_multiset() == available_ports@.filter(usable()).to_multiset(),
        ascending(ports@),
{
    let ghost all = available_ports@;
    let unwanted = String::from_str("/dev/ttyS0");
    let mut ports: Vec<String> = Vec::new();
    for name in it: available_ports
        invariant
            it.seq() == all,
            unwanted@ == "/dev/ttyS0"@,
            ports@ == all.take(it.index() as int).filter(usable()),
    {
        proof {
            let i = it.index() as int;
            assert(all.take(i + 1) == all.take(i).push(name));
            all.take(i).lemma_filter_push(name, usable());
        }
        if name != unwanted {
            ports.push(name);
        }
    }
    proof {
        assert(all.take(all.len() as int) == all);
    }
    sort_names(&mut ports);
    ports
}

/// Watches the serial interfaces for the user interface.
pub struct SerialInterface {
    ports: Vec<String>,
}

impl View for SerialInterface {
    type V = Seq<String>;

    /// The interfaces that the last look found.
    closed spec fn view(&self) -> Seq<String> {
        self.ports@
    }
}

/// The views of a list of names.
pub open spec fn names(ports: Seq<String>) -> Seq<Seq<char>> {
    ports.map_values(|name: String| name@)
}

fn copy_names(ports: &Vec<String>) -> (copy: Vec<String>)
    ensures
        copy@ == ports@,
{
    let mut copy: Vec<String> = Vec::new();
    let mut i: usize = 0;
    while i < ports.len()
        invariant
            i <= ports.len(),
            copy@ == ports@.take(i as int),
        decreases ports.len() - i,
    {
        copy.push(ports[i].clone());
        i += 1;
    }
    copy
}

impl SerialInterface {
    /// Starts the watch with the interfaces of a first look. They are
    /// announced to the user interface, but not remembered.
    pub fn new(available_ports: Vec<String>) -> (started: (SerialInterface, GuiMessage))
        ensures
            started.0@.len() == 0,
            started.1 == GuiMessage::UpdateSerialPorts(available_ports),
    {
        (SerialInterface { ports: Vec::new() }, GuiMessage::UpdateSerialPorts(available_ports))
    }

    /// Takes the interfaces of a look and remembers them. Where their number
    /// differs from that of the look before, they are announced to the user
    /// interface.
    pub fn scan(&mut self, available_ports: Vec<String>) -> (message: Option<GuiMessage>)
        ensures
            final(self)@ == available_ports@,
            available_ports@.len() == old(self)@.len() ==> message is None,
            available_ports@.len() != old(self)@.len() ==> (message matches Some(
                GuiMessage::UpdateSerialPorts(ports),
            ) && ports@ == available_ports@),
    {
        let message = if available_ports.len() != self.ports.len() {
            Some(GuiMessage::UpdateSerialPorts(copy_names(&available_ports)))
        } else {
            None
        };
        self.ports = available_ports;
        message
    }
}

} // verus!
