use rgms_konfig::gui::{
    append_error, format_status_line, show_error, show_error_at, show_info, show_info_at,
    show_warning, show_warning_at, GuiMessage, Report,
};
use rgms_konfig::modbus_master::ModbusMasterError;
use rgms_konfig::text::decimal;

#[test]
fn status_lines_carry_the_time_in_bold() {
    assert_eq!(
        show_info_at("2020-09-15 20:10:18", "Nullpunkt erfolgreich gesetzt"),
        GuiMessage::ShowInfo("<b>2020-09-15 20:10:18:</b> Nullpunkt erfolgreich gesetzt".to_string())
    );
    assert_eq!(
        show_warning_at("2020-09-15 20:10:18", "Vorsicht"),
        GuiMessage::ShowWarning("<b>2020-09-15 20:10:18:</b> Vorsicht".to_string())
    );
    assert_eq!(
        show_error_at("2020-09-15 20:10:18", "Keine Schnittstelle gefunden!"),
        GuiMessage::ShowError("<b>2020-09-15 20:10:18:</b> Keine Schnittstelle gefunden!".to_string())
    );
    assert_eq!(show_info_at("", ""), GuiMessage::ShowInfo("<b>:</b> ".to_string()));
}

#[test]
fn reports_become_messages_for_the_user_interface() {
    let at = "2021-01-02 03:04:05";
    assert_eq!(
        Report::Info("gut".to_string()).into_message_at(at),
        GuiMessage::ShowInfo("<b>2021-01-02 03:04:05:</b> gut".to_string())
    );
    assert_eq!(
        Report::Warning("hm".to_string()).into_message_at(at),
        GuiMessage::ShowWarning("<b>2021-01-02 03:04:05:</b> hm".to_string())
    );
    assert_eq!(
        Report::Error("schlecht".to_string()).into_message_at(at),
        GuiMessage::ShowError("<b>2021-01-02 03:04:05:</b> schlecht".to_string())
    );
    assert_eq!(
        Report::Rregs(vec![(0, 1), (2, 3)]).into_message_at(at),
        GuiMessage::UpdateRregs(vec![(0, 1), (2, 3)])
    );
    assert_eq!(
        Report::SensorValues(vec![(0, 1)]).into_message_at(at),
        GuiMessage::UpdateSensorValues(vec![(0, 1)])
    );
    assert_eq!(Report::Rwregs(vec![]).into_message_at(at), GuiMessage::UpdateRwregs(vec![]));
}

#[test]
fn append_error_appends_the_text_of_the_error() {
    assert_eq!(
        append_error("Fehler: ", &ModbusMasterError::RegisterWriteFailure { address: 10 }),
        "Fehler: Modbus Fehler beim Schreiben des Registers: 10"
    );
    assert_eq!(append_error("", &ModbusMasterError::MailboxUnreachable), "Postfach ist belegt");
}

#[test]
fn decimal_renders_numbers_without_leading_zeros() {
    assert_eq!(decimal(0), "0");
    assert_eq!(decimal(7), "7");
    assert_eq!(decimal(9), "9");
    assert_eq!(decimal(10), "10");
    assert_eq!(decimal(99), "99");
    assert_eq!(decimal(100), "100");
    assert_eq!(decimal(9876), "9876");
    assert_eq!(decimal(11111), "11111");
    assert_eq!(decimal(60000), "60000");
    assert_eq!(decimal(65535), "65535");
    for n in [0u16, 1, 12, 123, 1234, 12345, 40404, 65535] {
        assert_eq!(decimal(n), n.to_string());
    }
}

// Whether `line` is a status line of `msg` whose time reads like
// 2020-09-15 20:10:18.
fn is_status_line_of_now(line: &str, msg: &str) -> bool {
    let end = format!(":</b> {}", msg);
    if !line.starts_with("<b>") || !line.ends_with(&end) || line.len() < 3 + end.len() {
        return false;
    }
    let time: Vec<char> = line[3..line.len() - end.len()].chars().collect();
    time.len() >= 19
        && time.iter().rev().take(15).enumerate().all(|(i, c)| match i {
            2 | 5 => *c == ':',
            8 => *c == ' ',
            11 | 14 => *c == '-',
            _ => c.is_ascii_digit(),
        })
}

#[test]
fn messages_given_now_carry_the_time_of_the_call() {
    match show_info("Arbeitsweise erfolgreich gesetzt") {
        GuiMessage::ShowInfo(line) => {
            assert!(is_status_line_of_now(&line, "Arbeitsweise erfolgreich gesetzt"), "{}", line)
        }
        other => panic!("{:?}", other),
    }
    match show_warning("a:</b> b") {
        GuiMessage::ShowWarning(line) => assert!(is_status_line_of_now(&line, "a:</b> b"), "{}", line),
        other => panic!("{:?}", other),
    }
    match show_error("") {
        GuiMessage::ShowError(line) => assert!(is_status_line_of_now(&line, ""), "{}", line),
        other => panic!("{:?}", other),
    }
    match Report::Warning("Vorsicht".to_string()).into_message() {
        GuiMessage::ShowWarning(line) => assert!(is_status_line_of_now(&line, "Vorsicht"), "{}", line),
        other => panic!("{:?}", other),
    }
    assert_eq!(
        Report::Rregs(vec![(1, 2)]).into_message(),
        GuiMessage::UpdateRregs(vec![(1, 2)])
    );
    assert!(!is_status_line_of_now(&format_status_line("gestern", "x"), "x"));
    assert!(is_status_line_of_now(&format_status_line("2020-09-15 20:10:18", "x"), "x"));
}
