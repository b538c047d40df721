use rgms_konfig::modbus_master::bus::{
    protected_write, read_holding_register, read_input_register, read_rregs, read_rwregs,
    set_messgas, set_new_mcs_bus_id, set_new_modbus_id, set_nullgas, set_working_mode, step,
    update_register, Failure, Job, Reply, Request, Step, CALIBRATION_VALUE, LOCK_TIMEOUT,
    UNLOCK_VALUE,
};
use rgms_konfig::modbus_master::context::{
    Parity, SerialPortSettings, BAUD_RATE, DATA_BITS, STOP_BITS, TRANSACTION_TIMEOUT,
};
use rgms_konfig::modbus_master::{ContextError, ModbusMasterError, ModbusRtuContext, SerialConfig};
use rgms_konfig::registers::{Rreg, Rwreg};

const OPEN: Request = Request::Open;
const CLOSE: Request = Request::Close;
const SETTLE: Request = Request::Settle { millis: 20 };

fn unlock(reg_protection: u16) -> Request {
    Request::Write { reg_nr: reg_protection, value: 9876 }
}

fn rreg(reg_nr: u32) -> Rreg {
    Rreg { reg_nr: Some(reg_nr), ..Default::default() }
}

fn rwreg(reg_nr: u32, protected: bool) -> Rwreg {
    let description = if protected { "Wert *" } else { "Wert" };
    Rwreg { reg_nr: Some(reg_nr), description: description.to_string(), ..Default::default() }
}

// A slave that answers every read with the register's address plus 1000
// and lets everything else go through.
fn willing(request: Request) -> Reply {
    match request {
        Request::ReadInput { reg_nr } | Request::ReadHolding { reg_nr } => {
            Reply::Value(reg_nr + 1000)
        }
        _ => Reply::Done,
    }
}

// Carries a job out against `slave` and returns the requests it made and
// what it came to.
fn run(
    job: Job,
    slave: &mut dyn FnMut(usize, Request) -> Reply,
) -> (Vec<Request>, Result<Vec<(u16, u16)>, ModbusMasterError>) {
    let mut job = job;
    let mut made = Vec::new();
    while let Some(request) = job.request() {
        assert!(!job.is_finished());
        let reply = slave(made.len(), request);
        made.push(request);
        job = job.respond(reply);
        assert!(made.len() < 10_000);
    }
    assert!(job.is_finished());
    let result = job.result().expect("a job that has ended has a result");
    // no session is left behind
    match made.last() {
        None | Some(Request::Close) => {}
        Some(Request::Open) => assert!(result.is_err()),
        Some(other) => panic!("the job ended with {:?}", other),
    }
    (made, result)
}

#[test]
fn read_rregs_returns_the_values_in_the_order_of_the_list() {
    let job = read_rregs("/dev/ttyUSB0".to_string(), 247, &vec![rreg(0), rreg(1)]);
    let (made, result) = run(job, &mut |_, request| match request {
        Request::ReadInput { reg_nr: 0 } => Reply::Value(4711),
        Request::ReadInput { reg_nr: 1 } => Reply::Value(42),
        _ => Reply::Done,
    });
    assert_eq!(result, Ok(vec![(0, 4711), (1, 42)]));
    assert_eq!(
        made,
        vec![
            OPEN,
            Request::ReadInput { reg_nr: 0 },
            CLOSE,
            OPEN,
            Request::ReadInput { reg_nr: 1 },
            CLOSE
        ]
    );
}

#[test]
fn read_rregs_keeps_the_order_of_an_unsorted_list() {
    let regs = vec![rreg(9), rreg(2), rreg(5), rreg(2)];
    let job = read_rregs("/dev/ttyUSB0".to_string(), 1, &regs);
    let (_, result) = run(job, &mut |_, request| willing(request));
    assert_eq!(result, Ok(vec![(9, 1009), (2, 1002), (5, 1005), (2, 1002)]));
}

#[test]
fn a_batch_of_no_registers_ends_at_once() {
    let job = read_rregs("/dev/ttyUSB0".to_string(), 1, &Vec::new());
    assert_eq!(job.request(), None);
    assert!(job.is_finished());
    assert_eq!(job.result(), Some(Ok(Vec::new())));
    let job = read_rwregs("/dev/ttyUSB0".to_string(), 1, &Vec::new(), 79);
    assert_eq!(job.result(), Some(Ok(Vec::new())));
}

#[test]
fn a_job_has_no_result_before_it_has_ended() {
    let job = read_rregs("/dev/ttyUSB0".to_string(), 1, &vec![rreg(0)]);
    assert_eq!(job.request(), Some(OPEN));
    let job = job.respond(Reply::Done);
    let job = job.respond(Reply::Value(5));
    assert_eq!(job.request(), Some(CLOSE));
    assert!(!job.is_finished());
    assert_eq!(job.result(), None);
}

#[test]
fn a_job_that_has_ended_ignores_replies() {
    let mut job = read_rregs("/dev/ttyUSB0".to_string(), 1, &vec![rreg(3)]);
    for reply in [Reply::Done, Reply::Value(8), Reply::Done] {
        job = job.respond(reply);
    }
    assert!(job.is_finished());
    let job = job.respond(Reply::Value(9)).respond(Reply::Failed(Failure::Io));
    assert_eq!(job.request(), None);
    assert_eq!(job.result(), Some(Ok(vec![(3, 8)])));
}

#[test]
fn a_failed_read_fails_the_batch_and_nothing_that_was_read_is_returned() {
    for k in 0..4usize {
        let regs = vec![rreg(10), rreg(11), rreg(12), rreg(13)];
        let job = read_rregs("/dev/ttyUSB0".to_string(), 1, &regs);
        let failing = Request::ReadInput { reg_nr: 10 + k as u16 };
        let (made, result) = run(job, &mut |_, request| {
            if request == failing {
                Reply::Failed(Failure::Protocol)
            } else {
                willing(request)
            }
        });
        assert_eq!(
            result,
            Err(ModbusMasterError::RegisterReadFailure { address: 10 + k as u16 })
        );
        // the sessions of the registers before, the failed read, the release
        assert_eq!(made.len(), 3 * k + 3);
        assert_eq!(made[3 * k + 1], failing);
        assert_eq!(made[3 * k + 2], CLOSE);
    }
}

#[test]
fn a_read_that_times_out_fails_the_batch_with_a_timeout() {
    let regs = vec![rwreg(1, false), rwreg(2, true), rwreg(3, false)];
    let job = read_rwregs("/dev/ttyUSB0".to_string(), 1, &regs, 79);
    let (made, result) = run(job, &mut |_, request| match request {
        Request::ReadHolding { reg_nr: 2 } => Reply::Failed(Failure::Timeout),
        other => willing(other),
    });
    assert_eq!(result, Err(ModbusMasterError::ProtocolTimeout));
    assert_eq!(
        made,
        vec![
            OPEN,
            Request::ReadHolding { reg_nr: 1 },
            CLOSE,
            OPEN,
            unlock(79),
            SETTLE,
            Request::ReadHolding { reg_nr: 2 },
            CLOSE
        ]
    );
}

#[test]
fn a_session_that_cannot_be_opened_ends_the_job_without_a_release() {
    let job = read_rregs("/dev/missing".to_string(), 1, &vec![rreg(0), rreg(1)]);
    let (made, result) = run(job, &mut |_, _| Reply::Failed(Failure::Io));
    assert_eq!(result, Err(ModbusMasterError::ConnectionError(ContextError::Io)));
    assert_eq!(made, vec![OPEN]);

    let job = read_rregs("/dev/ttyUSB0".to_string(), 1, &vec![rreg(0), rreg(1)]);
    let (made, result) = run(job, &mut |n, request| {
        if n == 3 {
            Reply::Failed(Failure::Protocol)
        } else {
            willing(request)
        }
    });
    assert_eq!(result, Err(ModbusMasterError::ConnectionError(ContextError::Protocol)));
    assert_eq!(made, vec![OPEN, Request::ReadInput { reg_nr: 0 }, CLOSE, OPEN]);
}

#[test]
fn a_failed_unlock_write_is_a_write_failure_of_the_protection_register() {
    let job = read_rwregs("/dev/ttyUSB0".to_string(), 1, &vec![rwreg(7, true)], 49);
    let (made, result) = run(job, &mut |_, request| match request {
        Request::Write { .. } => Reply::Failed(Failure::Io),
        other => willing(other),
    });
    assert_eq!(result, Err(ModbusMasterError::RegisterWriteFailure { address: 49 }));
    assert_eq!(made, vec![OPEN, unlock(49), CLOSE]);
}

#[test]
fn every_protected_read_is_preceded_by_one_unlock_write_and_the_settle_delay() {
    let regs = vec![
        rwreg(1, true),
        rwreg(2, false),
        rwreg(3, true),
        rwreg(4, true),
        rwreg(5, false),
    ];
    let job = read_rwregs("/dev/ttyUSB0".to_string(), 1, &regs, 79);
    let (made, result) = run(job, &mut |_, request| willing(request));
    assert_eq!(result, Ok(vec![(1, 1001), (2, 1002), (3, 1003), (4, 1004), (5, 1005)]));
    let read = |reg_nr| Request::ReadHolding { reg_nr };
    assert_eq!(
        made,
        vec![
            OPEN, unlock(79), SETTLE, read(1), CLOSE,
            OPEN, read(2), CLOSE,
            OPEN, unlock(79), SETTLE, read(3), CLOSE,
            OPEN, unlock(79), SETTLE, read(4), CLOSE,
            OPEN, read(5), CLOSE,
        ]
    );
    let unlocks = made.iter().filter(|request| matches!(request, Request::Write { .. })).count();
    assert_eq!(unlocks, 3);
    assert_eq!(UNLOCK_VALUE, 9876);
    assert_eq!(LOCK_TIMEOUT, 20);
}

#[test]
fn read_only_registers_are_never_unlocked() {
    let marked = Rreg { reg_nr: Some(4), description: "Wert *".to_string(), ..Default::default() };
    let job = read_rregs("/dev/ttyUSB0".to_string(), 1, &vec![marked]);
    let (made, _) = run(job, &mut |_, request| willing(request));
    assert_eq!(made, vec![OPEN, Request::ReadInput { reg_nr: 4 }, CLOSE]);
}

#[test]
fn single_registers_are_read_like_a_batch_of_one() {
    let job = read_input_register("/dev/ttyUSB0", 3, rreg(17));
    assert_eq!(job.tty_path(), "/dev/ttyUSB0");
    assert_eq!(job.slave(), 3);
    let (made, result) = run(job, &mut |_, request| willing(request));
    assert_eq!(made, vec![OPEN, Request::ReadInput { reg_nr: 17 }, CLOSE]);
    assert_eq!(result, Ok(vec![(17, 1017)]));

    let job = read_holding_register("/dev/ttyUSB0", 3, rwreg(18, true), 79);
    let (made, result) = run(job, &mut |_, request| willing(request));
    assert_eq!(made, vec![OPEN, unlock(79), SETTLE, Request::ReadHolding { reg_nr: 18 }, CLOSE]);
    assert_eq!(result, Ok(vec![(18, 1018)]));

    let job = read_holding_register("/dev/ttyUSB0", 3, rwreg(19, false), 79);
    let (made, _) = run(job, &mut |_, request| willing(request));
    assert_eq!(made, vec![OPEN, Request::ReadHolding { reg_nr: 19 }, CLOSE]);
}

#[test]
fn a_read_answered_without_a_value_has_failed() {
    let job = read_input_register("/dev/ttyUSB0", 3, rreg(17));
    let (made, result) = run(job, &mut |_, _| Reply::Done);
    assert_eq!(result, Err(ModbusMasterError::RegisterReadFailure { address: 17 }));
    assert_eq!(made, vec![OPEN, Request::ReadInput { reg_nr: 17 }, CLOSE]);
}

fn written(job: Job) -> Vec<Request> {
    let (made, result) = run(job, &mut |_, request| willing(request));
    assert_eq!(result, Ok(Vec::new()));
    made
}

#[test]
fn nullgas_writes_the_calibration_value_to_register_10_or_20() {
    let write = |reg_nr| Request::Write { reg_nr, value: 11111 };
    let path = || "/dev/ttyUSB0".to_string();
    assert_eq!(written(set_nullgas(path(), 1, 79, 1)), vec![OPEN, unlock(79), SETTLE, write(10), CLOSE]);
    assert_eq!(written(set_nullgas(path(), 1, 79, 2)), vec![OPEN, unlock(79), SETTLE, write(20), CLOSE]);
    assert_eq!(written(set_nullgas(path(), 1, 79, 0)), vec![OPEN, unlock(79), SETTLE, write(20), CLOSE]);
    assert_eq!(written(set_nullgas(path(), 1, 79, 3)), vec![OPEN, unlock(79), SETTLE, write(20), CLOSE]);
    assert_eq!(CALIBRATION_VALUE, 11111);
}

#[test]
fn messgas_writes_the_calibration_value_to_register_12_or_22() {
    let write = |reg_nr| Request::Write { reg_nr, value: 11111 };
    let path = || "/dev/ttyUSB0".to_string();
    assert_eq!(written(set_messgas(path(), 1, 49, 1)), vec![OPEN, unlock(49), SETTLE, write(12), CLOSE]);
    assert_eq!(written(set_messgas(path(), 1, 49, 2)), vec![OPEN, unlock(49), SETTLE, write(22), CLOSE]);
    assert_eq!(written(set_messgas(path(), 1, 49, 65535)), vec![OPEN, unlock(49), SETTLE, write(22), CLOSE]);
}

#[test]
fn new_addresses_are_written_to_register_80_and_95() {
    let path = || "/dev/ttyUSB0".to_string();
    assert_eq!(
        written(set_new_modbus_id(path(), 247, 5, 79)),
        vec![OPEN, unlock(79), SETTLE, Request::Write { reg_nr: 80, value: 5 }, CLOSE]
    );
    assert_eq!(
        written(set_new_mcs_bus_id(path(), 247, 5, 79)),
        vec![OPEN, unlock(79), SETTLE, Request::Write { reg_nr: 95, value: 5 }, CLOSE]
    );
}

#[test]
fn the_working_mode_is_written_to_register_99() {
    assert_eq!(
        written(set_working_mode("/dev/ttyUSB0".to_string(), 247, 99, 79)),
        vec![OPEN, unlock(79), SETTLE, Request::Write { reg_nr: 99, value: 99 }, CLOSE]
    );
    assert_eq!(
        written(set_working_mode("/dev/ttyUSB0".to_string(), 247, 12, 49)),
        vec![OPEN, unlock(49), SETTLE, Request::Write { reg_nr: 99, value: 12 }, CLOSE]
    );
}

#[test]
fn update_register_writes_the_value_to_the_register() {
    assert_eq!(
        written(update_register("/dev/ttyUSB0".to_string(), 1, 33, 79, 1234)),
        vec![OPEN, unlock(79), SETTLE, Request::Write { reg_nr: 33, value: 1234 }, CLOSE]
    );
    assert_eq!(
        written(protected_write("/dev/ttyUSB0".to_string(), 1, 79, 0, 65535)),
        vec![OPEN, unlock(79), SETTLE, Request::Write { reg_nr: 0, value: 65535 }, CLOSE]
    );
}

#[test]
fn a_protected_write_fails_with_the_first_failure() {
    let job = set_nullgas("/dev/ttyUSB0".to_string(), 1, 79, 1);
    let (made, result) = run(job, &mut |_, request| match request {
        Request::Write { reg_nr: 10, .. } => Reply::Failed(Failure::Protocol),
        other => willing(other),
    });
    assert_eq!(result, Err(ModbusMasterError::RegisterWriteFailure { address: 10 }));
    assert_eq!(
        made,
        vec![OPEN, unlock(79), SETTLE, Request::Write { reg_nr: 10, value: 11111 }, CLOSE]
    );

    let job = set_nullgas("/dev/ttyUSB0".to_string(), 1, 79, 1);
    let (made, result) = run(job, &mut |_, request| match request {
        Request::Write { reg_nr: 79, .. } => Reply::Failed(Failure::Timeout),
        other => willing(other),
    });
    assert_eq!(result, Err(ModbusMasterError::ProtocolTimeout));
    assert_eq!(made, vec![OPEN, unlock(79), CLOSE]);

    let job = set_nullgas("/dev/ttyUSB0".to_string(), 1, 79, 1);
    let (made, result) = run(job, &mut |_, _| Reply::Failed(Failure::Timeout));
    assert_eq!(result, Err(ModbusMasterError::ProtocolTimeout));
    assert_eq!(made, vec![OPEN]);
}

#[test]
fn waiting_and_releasing_cannot_fail() {
    let job = set_nullgas("/dev/ttyUSB0".to_string(), 1, 79, 1);
    let (made, result) = run(job, &mut |_, request| match request {
        Request::Settle { .. } | Request::Close => Reply::Failed(Failure::Io),
        other => willing(other),
    });
    assert_eq!(result, Ok(Vec::new()));
    assert_eq!(made.len(), 5);
}

#[test]
fn step_tells_what_a_reply_means() {
    let read_input = Request::ReadInput { reg_nr: 4 };
    let read_holding = Request::ReadHolding { reg_nr: 5 };
    let write = Request::Write { reg_nr: 6, value: 1 };
    let fail = |failure| Reply::Failed(failure);
    let connection = |error| Step::Fail(ModbusMasterError::ConnectionError(error));
    let timeout = Step::Fail(ModbusMasterError::ProtocolTimeout);

    assert_eq!(step(OPEN, Reply::Done), Step::Proceed);
    assert_eq!(step(OPEN, Reply::Value(1)), Step::Proceed);
    assert_eq!(step(OPEN, fail(Failure::Io)), connection(ContextError::Io));
    assert_eq!(step(OPEN, fail(Failure::Protocol)), connection(ContextError::Protocol));
    assert_eq!(step(OPEN, fail(Failure::Timeout)), timeout);

    assert_eq!(step(read_input, Reply::Value(9)), Step::Read { reg_nr: 4, value: 9 });
    assert_eq!(step(read_holding, Reply::Value(0)), Step::Read { reg_nr: 5, value: 0 });
    let unread = |address| Step::Fail(ModbusMasterError::RegisterReadFailure { address });
    assert_eq!(step(read_input, Reply::Done), unread(4));
    assert_eq!(step(read_input, fail(Failure::Io)), unread(4));
    assert_eq!(step(read_holding, fail(Failure::Protocol)), unread(5));
    assert_eq!(step(read_holding, fail(Failure::Timeout)), timeout);

    let unwritten = Step::Fail(ModbusMasterError::RegisterWriteFailure { address: 6 });
    assert_eq!(step(write, Reply::Done), Step::Proceed);
    assert_eq!(step(write, Reply::Value(3)), Step::Proceed);
    assert_eq!(step(write, fail(Failure::Io)), unwritten);
    assert_eq!(step(write, fail(Failure::Protocol)), unwritten);
    assert_eq!(step(write, fail(Failure::Timeout)), timeout);

    for reply in [Reply::Done, Reply::Value(2), fail(Failure::Io), fail(Failure::Timeout)] {
        assert_eq!(step(SETTLE, reply), Step::Proceed);
        assert_eq!(step(CLOSE, reply), Step::Proceed);
    }
}

#[test]
fn every_session_is_opened_with_the_fixed_settings() {
    let job = read_rregs("/dev/ttyUSB1".to_string(), 42, &vec![rreg(0)]);
    let config = job.connection();
    assert_eq!(config.path, "/dev/ttyUSB1");
    assert_eq!(config.slave, 42);
    assert_eq!(
        config.settings,
        SerialPortSettings {
            baud_rate: 9600,
            data_bits: 8,
            parity: Parity::NoParity,
            stop_bits: 1,
            timeout: 100,
        }
    );
}

#[test]
fn registers_beyond_16_bits_are_read_under_their_low_half() {
    let job = read_rregs("/dev/ttyUSB0".to_string(), 1, &vec![rreg(65536 + 7)]);
    let (made, result) = run(job, &mut |_, request| willing(request));
    assert_eq!(made[1], Request::ReadInput { reg_nr: 7 });
    assert_eq!(result, Ok(vec![(7, 1007)]));
}

#[test]
fn the_context_describes_sessions_at_9600_8n1() {
    let config = ModbusRtuContext::new().context("/dev/ttyS1".to_string(), 247);
    assert_eq!(
        config,
        SerialConfig {
            path: "/dev/ttyS1".to_string(),
            settings: SerialPortSettings {
                baud_rate: 9600,
                data_bits: 8,
                parity: Parity::NoParity,
                stop_bits: 1,
                timeout: 100,
            },
            slave: 247,
        }
    );
    assert_eq!((BAUD_RATE, DATA_BITS, STOP_BITS, TRANSACTION_TIMEOUT), (9600, 8, 1, 100));
}
