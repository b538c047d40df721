use rgms_konfig::gui::GuiMessage;
use rgms_konfig::serial_interface::{get_ports, SerialInterface, SCAN_INTERVAL};

fn names(ports: &[&str]) -> Vec<String> {
    ports.iter().map(|port| port.to_string()).collect()
}

#[test]
fn get_ports_sorts_the_interfaces_and_drops_tty_s0() {
    let found = names(&["/dev/ttyUSB1", "/dev/ttyS0", "/dev/ttyACM0", "/dev/ttyUSB0"]);
    assert_eq!(get_ports(found), names(&["/dev/ttyACM0", "/dev/ttyUSB0", "/dev/ttyUSB1"]));
}

#[test]
fn get_ports_keeps_interfaces_that_only_begin_like_tty_s0() {
    let found = names(&["/dev/ttyS01", "/dev/ttyS1", "/dev/ttyS0", "/dev/ttyS", "/dev/ttyS0"]);
    assert_eq!(get_ports(found), names(&["/dev/ttyS", "/dev/ttyS01", "/dev/ttyS1"]));
}

#[test]
fn get_ports_orders_by_the_codes_of_the_characters() {
    let found = names(&["b", "B", "a", "", "ä", "aa", "a"]);
    assert_eq!(get_ports(found), names(&["", "B", "a", "a", "aa", "b", "ä"]));
}

#[test]
fn get_ports_of_nothing_is_nothing() {
    assert_eq!(get_ports(Vec::new()), Vec::<String>::new());
    assert_eq!(get_ports(names(&["/dev/ttyS0"])), Vec::<String>::new());
}

#[test]
fn the_first_look_is_announced_and_not_remembered() {
    let (mut watch, message) = SerialInterface::new(names(&["/dev/ttyUSB0"]));
    assert_eq!(message, GuiMessage::UpdateSerialPorts(names(&["/dev/ttyUSB0"])));
    // the look before counts as one that found nothing
    assert_eq!(
        watch.scan(names(&["/dev/ttyUSB0"])),
        Some(GuiMessage::UpdateSerialPorts(names(&["/dev/ttyUSB0"])))
    );
    assert_eq!(watch.scan(names(&["/dev/ttyUSB0"])), None);
}

#[test]
fn a_look_is_announced_when_the_number_of_interfaces_has_changed() {
    let (mut watch, _) = SerialInterface::new(Vec::new());
    assert_eq!(watch.scan(Vec::new()), None);
    assert_eq!(
        watch.scan(names(&["/dev/ttyUSB0", "/dev/ttyUSB1"])),
        Some(GuiMessage::UpdateSerialPorts(names(&["/dev/ttyUSB0", "/dev/ttyUSB1"])))
    );
    // other interfaces, but as many: nothing is announced
    assert_eq!(watch.scan(names(&["/dev/ttyACM0", "/dev/ttyACM1"])), None);
    assert_eq!(
        watch.scan(names(&["/dev/ttyACM0"])),
        Some(GuiMessage::UpdateSerialPorts(names(&["/dev/ttyACM0"])))
    );
    assert_eq!(watch.scan(Vec::new()), Some(GuiMessage::UpdateSerialPorts(Vec::new())));
    assert_eq!(SCAN_INTERVAL, 100);
}
