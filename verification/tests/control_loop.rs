use rgms_konfig::gui::Report;
use rgms_konfig::modbus_master::bus::{Failure, Reply, Request};
use rgms_konfig::modbus_master::context::{Parity, SerialPortSettings};
use rgms_konfig::modbus_master::{ControlLoop, LoopAction, LoopEvent, PollConfig};
use rgms_konfig::registers::{Rreg, Rwreg};

fn config() -> PollConfig {
    PollConfig {
        tty_path: "/dev/ttyUSB0".to_string(),
        slave_id: 247,
        rregs: vec![
            Rreg { reg_nr: Some(0), ..Default::default() },
            Rreg { reg_nr: Some(1), ..Default::default() },
        ],
        rwregs: vec![
            Rwreg { reg_nr: Some(80), description: "Adresse *".to_string(), ..Default::default() },
            Rwreg { reg_nr: Some(99), description: "Arbeitsweise".to_string(), ..Default::default() },
        ],
        protection_register: 79,
    }
}

// Steps the loop through `events` and returns the actions it asked for.
fn steps(control_loop: ControlLoop, events: Vec<LoopEvent>) -> (ControlLoop, Vec<LoopAction>) {
    let mut control_loop = control_loop;
    let mut actions = Vec::new();
    for event in events {
        let (next, action) = control_loop.step(event);
        control_loop = next;
        actions.push(action);
    }
    (control_loop, actions)
}

fn bus(request: Request) -> LoopAction {
    LoopAction::Bus(request)
}

fn done() -> LoopEvent {
    LoopEvent::Reply(Reply::Done)
}

fn value(v: u16) -> LoopEvent {
    LoopEvent::Reply(Reply::Value(v))
}

#[test]
fn an_iteration_reads_the_flag_then_the_rregs_then_the_rwregs() {
    let control_loop = ControlLoop::new();
    assert!(!control_loop.is_polling());
    let (control_loop, actions) = steps(
        control_loop,
        vec![
            LoopEvent::Start(config()),
            LoopEvent::Online(true),
            done(),
            value(100),
            done(),
            done(),
            value(101),
            done(),
            LoopEvent::Emitted,
            LoopEvent::Emitted,
            done(),
            done(),
            done(),
            value(5),
            done(),
            done(),
            value(10),
            done(),
            LoopEvent::Emitted,
        ],
    );
    let unlock = Request::Write { reg_nr: 79, value: 9876 };
    assert_eq!(
        actions,
        vec![
            LoopAction::CheckOnline,
            bus(Request::Open),
            bus(Request::ReadInput { reg_nr: 0 }),
            bus(Request::Close),
            bus(Request::Open),
            bus(Request::ReadInput { reg_nr: 1 }),
            bus(Request::Close),
            LoopAction::Emit(Report::Rregs(vec![(0, 100), (1, 101)])),
            LoopAction::Emit(Report::SensorValues(vec![(0, 100), (1, 101)])),
            bus(Request::Open),
            bus(unlock),
            bus(Request::Settle { millis: 20 }),
            bus(Request::ReadHolding { reg_nr: 80 }),
            bus(Request::Close),
            bus(Request::Open),
            bus(Request::ReadHolding { reg_nr: 99 }),
            bus(Request::Close),
            LoopAction::Emit(Report::Rwregs(vec![(80, 5), (99, 10)])),
            LoopAction::CheckOnline,
        ]
    );
    assert!(control_loop.is_polling());
}

#[test]
fn the_loop_ends_without_a_report_when_it_finds_the_flag_cleared() {
    let (control_loop, actions) =
        steps(ControlLoop::new(), vec![LoopEvent::Start(config()), LoopEvent::Online(false)]);
    assert_eq!(actions, vec![LoopAction::CheckOnline, LoopAction::Receive]);
    assert!(!control_loop.is_polling());
    assert_eq!(control_loop.connection(), None);
    // a new session can be started afterwards
    let (control_loop, action) = control_loop.step(LoopEvent::Start(config()));
    assert_eq!(action, LoopAction::CheckOnline);
    assert!(control_loop.is_polling());
}

#[test]
fn a_failed_batch_is_reported_as_a_warning_and_the_loop_goes_on() {
    let (_, actions) = steps(
        ControlLoop::new(),
        vec![
            LoopEvent::Start(config()),
            LoopEvent::Online(true),
            done(),
            value(100),
            done(),
            done(),
            LoopEvent::Reply(Reply::Failed(Failure::Protocol)),
            done(),
            LoopEvent::Emitted,
            LoopEvent::Reply(Reply::Failed(Failure::Io)),
            LoopEvent::Emitted,
        ],
    );
    assert_eq!(
        actions[7],
        LoopAction::Emit(Report::Warning(
            "Konnte Lese-Register nicht lesen:\r\nModbus Fehler beim Lesen des Registers: 1"
                .to_string()
        ))
    );
    // no values of the failed batch are sent: the read/write registers are next
    assert_eq!(actions[8], bus(Request::Open));
    assert_eq!(
        actions[9],
        LoopAction::Emit(Report::Warning(
            "Konnte Schreib.-/ Lese-Register nicht lesen:\r\nVerbindungsfehler: Schnittstelle konnte nicht geöffnet werden"
                .to_string()
        ))
    );
    assert_eq!(actions[10], LoopAction::CheckOnline);
    for action in &actions {
        assert!(!matches!(action, LoopAction::Emit(Report::Rregs(_))));
        assert!(!matches!(action, LoopAction::Emit(Report::SensorValues(_))));
        assert!(!matches!(action, LoopAction::Emit(Report::Rwregs(_))));
    }
}

#[test]
fn a_board_without_registers_is_polled_without_the_bus() {
    let empty = PollConfig {
        tty_path: "/dev/ttyUSB0".to_string(),
        slave_id: 1,
        rregs: Vec::new(),
        rwregs: Vec::new(),
        protection_register: 79,
    };
    let (_, actions) = steps(
        ControlLoop::new(),
        vec![
            LoopEvent::Start(empty),
            LoopEvent::Online(true),
            LoopEvent::Emitted,
            LoopEvent::Emitted,
            LoopEvent::Emitted,
            LoopEvent::Online(true),
        ],
    );
    assert_eq!(
        actions,
        vec![
            LoopAction::CheckOnline,
            LoopAction::Emit(Report::Rregs(Vec::new())),
            LoopAction::Emit(Report::SensorValues(Vec::new())),
            LoopAction::Emit(Report::Rwregs(Vec::new())),
            LoopAction::CheckOnline,
            LoopAction::Emit(Report::Rregs(Vec::new())),
        ]
    );
}

#[test]
fn events_that_answer_nothing_change_nothing() {
    let (control_loop, actions) = steps(
        ControlLoop::new(),
        vec![
            LoopEvent::Online(true),
            done(),
            LoopEvent::Emitted,
            LoopEvent::Start(config()),
            done(),
            LoopEvent::Emitted,
            LoopEvent::Start(config()),
            LoopEvent::Online(true),
            LoopEvent::Online(false),
            LoopEvent::Emitted,
            done(),
        ],
    );
    assert_eq!(
        actions,
        vec![
            LoopAction::Receive,
            LoopAction::Receive,
            LoopAction::Receive,
            LoopAction::CheckOnline,
            LoopAction::CheckOnline,
            LoopAction::CheckOnline,
            LoopAction::CheckOnline,
            bus(Request::Open),
            bus(Request::Open),
            bus(Request::Open),
            bus(Request::ReadInput { reg_nr: 0 }),
        ]
    );
    assert!(control_loop.is_polling());
}

#[test]
fn the_sessions_of_a_poll_go_to_the_slave_of_the_configuration() {
    let (control_loop, _) = ControlLoop::new().step(LoopEvent::Start(config()));
    let connection = control_loop.connection().expect("a polling loop has a connection");
    assert_eq!(connection.path, "/dev/ttyUSB0");
    assert_eq!(connection.slave, 247);
    assert_eq!(
        connection.settings,
        SerialPortSettings {
            baud_rate: 9600,
            data_bits: 8,
            parity: Parity::NoParity,
            stop_bits: 1,
            timeout: 100,
        }
    );
    assert_eq!(ControlLoop::new().connection(), None);
}
