//! What holds of the dispatcher in every state, and of the dispatcher and
//! the control loop together.

use crate::gui::ReportView;
use crate::modbus_master::bus::{write_script, JobView, Request, WORKING_MODE_REGISTER};
use crate::modbus_master::control_loop::{
    LoopActionView, LoopEvent, LoopView, MsgControlLoop, PollConfig,
};
use crate::modbus_master::{
    unreachable_warning, DispatchView, MasterView, ModbusMasterError, ModbusMasterMessage,
    WriteCommand,
};
use vstd::prelude::*;

verus! {

/// A second `Connect` that is dispatched while the control loop has not
/// taken the instruction of the first is answered with a warning at once:
/// the first instruction stays in the control loop's mailbox, the master
/// stays online, and both commands are taken.
pub proof fn law_second_connect_is_turned_away(
    master: MasterView,
    first: ModbusMasterMessage,
    second: ModbusMasterMessage,
)
    requires
        master.tx is None,
        master.control_loop is None,
        first is Connect,
        second is Connect,
    ensures
        ({
            let (sent, taken) = master.send(first);
            let (started, todo) = sent.dispatch();
            let (sent_again, taken_again) = started.send(second);
            let (turned_away, todo_again) = sent_again.dispatch();
            &&& taken is Ok
            &&& todo == DispatchView::Done
            &&& started.control_loop == Some(
                MsgControlLoop::Start(
                    PollConfig {
                        tty_path: first->Connect_0,
                        slave_id: first->Connect_1,
                        rregs: first->Connect_2,
                        rwregs: first->Connect_3,
                        protection_register: first->Connect_4,
                    },
                ),
            )
            &&& taken_again is Ok
            &&& todo_again == DispatchView::Report(ReportView::Warning(unreachable_warning()))
            &&& turned_away.control_loop == started.control_loop
            &&& turned_away.is_online
            &&& turned_away.tx is None
        }),
{
}

/// Whether a `Connect` starts the control loop depends on the control
/// loop's mailbox alone: it does where the mailbox is empty, and is answered
/// with a warning where the mailbox is occupied. Either way the master is
/// online afterwards.
pub proof fn law_connect_needs_an_empty_mailbox(master: MasterView)
    requires
        master.tx matches Some(message) && message is Connect,
    ensures
        ({
            let (next, todo) = master.dispatch();
            &&& next.is_online
            &&& master.control_loop is None <==> todo == DispatchView::Done
            &&& master.control_loop is Some <==> todo == DispatchView::Report(
                ReportView::Warning(unreachable_warning()),
            )
            &&& master.control_loop is Some ==> next.control_loop == master.control_loop
        }),
{
}

/// A command for a master that still holds one is turned away at once,
/// and the master stays as it is.
pub proof fn law_occupied_master_turns_commands_away(
    master: MasterView,
    message: ModbusMasterMessage,
)
    requires
        master.tx is Some,
    ensures
        master.send(message) == (
            master,
            Err::<(), ModbusMasterError>(ModbusMasterError::MailboxUnreachable),
        ),
{
}

/// The dispatcher takes the command that waits, whatever it is: after a
/// dispatch the master is free for the next command.
pub proof fn law_dispatch_frees_the_master(master: MasterView)
    ensures
        master.dispatch().0.tx is None,
        master.tx is Some ==> !(master.dispatch().1 is Idle),
{
}

/// `SetNewWorkingMode` takes the master offline before its write begins:
/// when the dispatcher gets the job of the write, of which no request has
/// been made yet, the online flag is already cleared. The job unlocks the
/// board and writes the working mode to the working mode register.
pub proof fn law_working_mode_goes_offline_first(
    master: MasterView,
    tty_path: String,
    slave: u8,
    working_mode: u16,
    reg_protection: u16,
)
    requires
        master.tx == Some(
            ModbusMasterMessage::SetNewWorkingMode {
                tty_path,
                slave,
                working_mode,
                reg_protection,
            },
        ),
    ensures
        ({
            let (offline, todo) = master.dispatch();
            &&& !offline.is_online
            &&& todo == DispatchView::Write(
                WriteCommand::SetNewWorkingMode,
                JobView::fresh(
                    tty_path@,
                    slave,
                    write_script(reg_protection, WORKING_MODE_REGISTER, working_mode),
                ),
            )
            &&& todo->Write_1.history() == Seq::<Request>::empty()
        }),
{
}

/// The online flag alone decides whether polling goes on, and only
/// `Connect`, `Disconnect` and `SetNewWorkingMode` change it.
pub proof fn law_only_three_commands_touch_the_online_flag(master: MasterView)
    ensures
        ({
            let (next, todo) = master.dispatch();
            next.is_online != master.is_online ==> (master.tx matches Some(message) && (message
                is Connect || message is Disconnect || message is SetNewWorkingMode))
        }),
{
}

/// A polling session does not outlast a `Disconnect` or a
/// `SetNewWorkingMode` beyond the iteration that is under way: the control
/// loop that reads the online flag of the master after the command was
/// dispatched, at the boundary of its next iteration, ends its session
/// there and reports nothing.
pub proof fn law_going_offline_ends_the_session(master: MasterView, config: PollConfig)
    requires
        master.tx matches Some(message) && (message is Disconnect || message
            is SetNewWorkingMode),
    ensures
        ({
            let offline = master.dispatch().0;
            LoopView::Boundary(config).step(LoopEvent::Online(offline.is_online)) == (
                LoopView::Idle,
                LoopActionView::Receive,
            )
        }),
{
}

} // verus!
