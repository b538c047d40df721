//! What holds of the control loop in every state.

use crate::gui::ReportView;
use crate::modbus_master::bus::{JobView, RegisterClass, Reply, Request};
use crate::modbus_master::control_loop::{
    after_batch, go_on, poll_job, poll_script, read_warning, LoopActionView, LoopEvent, LoopView,
    PollConfig,
};
use crate::modbus_master::job_laws::{all_succeed, lemma_successes_advance, readings, succeeds};
use vstd::prelude::*;

verus! {

/// A polling session that finds the online flag cleared at the start of an
/// iteration ends there: the loop is idle, waits for its next instruction,
/// and reports nothing.
pub proof fn law_offline_ends_polling(config: PollConfig)
    ensures
        LoopView::Boundary(config).step(LoopEvent::Online(false)) == (
            LoopView::Idle,
            LoopActionView::Receive,
        ),
{
}

/// The online flag is read between two iterations and at no other time:
/// the loop asks for the flag exactly when it is at the boundary of an
/// iteration.
pub proof fn law_flag_is_read_at_boundaries_only(control_loop: LoopView, event: LoopEvent)
    ensures
        ({
            let (next, action) = control_loop.step(event);
            (action == LoopActionView::CheckOnline) <==> next is Boundary
        }),
{
}

/// A batch that fails is reported as a warning that carries its error, and
/// as nothing else: none of the values read before the failure is sent.
/// The loop goes on, after the read-only registers with the read/write
/// registers and after these with the next iteration.
pub proof fn law_failed_batch_is_reported_as_warning(
    class: RegisterClass,
    config: PollConfig,
    job: JobView,
    reply: Reply,
)
    requires
        job.respond(reply).result() matches Some(Err(error)),
    ensures
        ({
            let error = job.respond(reply).failure->0;
            let (next, action) = LoopView::Reading(class, config, job).step(
                LoopEvent::Reply(reply),
            );
            &&& action == LoopActionView::Emit(ReportView::Warning(read_warning(class, error)))
            &&& class == RegisterClass::Rreg ==> next == LoopView::BeforeRwregs(config)
            &&& class == RegisterClass::Rwreg ==> next == LoopView::AfterRwregs(config)
        }),
{
}

/// A polling session reads with the configuration it was started with, from
/// its first iteration to its last.
pub proof fn law_session_keeps_its_configuration(control_loop: LoopView, event: LoopEvent)
    requires
        !(control_loop is Idle),
    ensures
        ({
            let next = control_loop.step(event).0;
            next is Idle || next.config() == control_loop.config()
        }),
{
}

/// The events that hand `replies` to the loop, one by one.
pub open spec fn reply_events(replies: Seq<Reply>) -> Seq<LoopEvent> {
    replies.map_values(|reply: Reply| LoopEvent::Reply(reply))
}

/// The actions that ask for `requests` on the bus, one by one.
pub open spec fn bus_actions(requests: Seq<Request>) -> Seq<LoopActionView> {
    requests.map_values(|request: Request| LoopActionView::Bus(request))
}

proof fn lemma_run_concat(control_loop: LoopView, first: Seq<LoopEvent>, second: Seq<LoopEvent>)
    ensures
        control_loop.run(first + second) == ({
            let (reached, actions) = control_loop.run(first);
            let (end, more) = reached.run(second);
            (end, actions + more)
        }),
    decreases first.len(),
{
    if first.len() > 0 {
        assert((first + second).drop_first() == first.drop_first() + second);
        lemma_run_concat(control_loop.step(first.first()).0, first.drop_first(), second);
    }
}

proof fn lemma_run_one(control_loop: LoopView, event: LoopEvent)
    ensures
        control_loop.run(seq![event]) == (
            control_loop.step(event).0,
            seq![control_loop.step(event).1],
        ),
{
    reveal_with_fuel(LoopView::run, 2);
}

proof fn lemma_batch_runs(
    class: RegisterClass,
    config: PollConfig,
    job: JobView,
    replies: Seq<Reply>,
)
    requires
        job.wf(),
        job.failure is None,
        job.cursor < job.script.len(),
        replies.len() == job.script.len() - job.cursor,
        all_succeed(job.script.skip(job.cursor as int), replies),
    ensures
        LoopView::Reading(class, config, job).run(reply_events(replies)) == ({
            let done = JobView {
                cursor: job.script.len(),
                values: job.values + readings(job.script.skip(job.cursor as int), replies),
                ..job
            };
            let (next, report) = after_batch(class, config, done);
            (next, bus_actions(job.script.skip(job.cursor as int + 1)) + seq![report])
        }),
    decreases replies.len(),
{
    let c = job.cursor as int;
    let script = job.script;
    let rest = replies.drop_first();
    let next = job.respond(replies.first());
    let stepped = LoopView::Reading(class, config, job).step(LoopEvent::Reply(replies.first())).0;
    lemma_successes_advance(job, replies);
    assert(reply_events(replies).drop_first() == reply_events(rest));
    if c + 1 < script.len() {
        assert forall|i: int| 0 <= i < rest.len() implies succeeds(
            #[trigger] script.skip(c + 1)[i],
            rest[i],
        ) by {
            assert(script.skip(c + 1)[i] == script.skip(c)[i + 1]);
        }
        lemma_batch_runs(class, config, next, rest);
        lemma_successes_advance(next, rest);
    } else {
        assert(stepped.run(reply_events(rest)) == (stepped, Seq::<LoopActionView>::empty()));
    }
}

proof fn lemma_poll_runs(class: RegisterClass, config: PollConfig, replies: Seq<Reply>)
    requires
        replies.len() == poll_script(class, config).len(),
        all_succeed(poll_script(class, config), replies),
    ensures
        ({
            let script = poll_script(class, config);
            let job = poll_job(class, config);
            let (first, action) = go_on(class, config, job);
            let (end, actions) = first.run(reply_events(replies));
            let done = JobView { cursor: script.len(), values: readings(script, replies), ..job };
            let (next, report) = after_batch(class, config, done);
            &&& end == next
            &&& seq![action] + actions == bus_actions(script) + seq![report]
        }),
{
    let script = poll_script(class, config);
    assert(script.skip(0) == script);
    if script.len() > 0 {
        lemma_batch_runs(class, config, poll_job(class, config), replies);
    }
}

/// The events of one iteration in which the slave answers the reads of
/// the read-only registers with `rreg_replies` and those of the read/write
/// registers with `rwreg_replies`: the online flag is found set, and every
/// request and every report is answered in its turn.
pub open spec fn iteration_events(rreg_replies: Seq<Reply>, rwreg_replies: Seq<Reply>) -> Seq<
    LoopEvent,
> {
    seq![LoopEvent::Online(true)] + reply_events(rreg_replies) + seq![
        LoopEvent::Emitted,
        LoopEvent::Emitted,
    ] + reply_events(rwreg_replies) + seq![LoopEvent::Emitted]
}

/// An iteration in which every request goes through does, in this order
/// and nothing else: it reads the read-only registers in the order of their
/// list, reports them with their values, reports them once more as sensor
/// values, reads the read/write registers in the order of their list,
/// reports them with their values, and asks for the online flag again. The
/// loop is then at the boundary of the next iteration, with the same
/// configuration.
pub proof fn law_iteration_reads_rregs_then_rwregs(
    config: PollConfig,
    rreg_replies: Seq<Reply>,
    rwreg_replies: Seq<Reply>,
)
    requires
        rreg_replies.len() == poll_script(RegisterClass::Rreg, config).len(),
        all_succeed(poll_script(RegisterClass::Rreg, config), rreg_replies),
        rwreg_replies.len() == poll_script(RegisterClass::Rwreg, config).len(),
        all_succeed(poll_script(RegisterClass::Rwreg, config), rwreg_replies),
    ensures
        ({
            let rreg_script = poll_script(RegisterClass::Rreg, config);
            let rwreg_script = poll_script(RegisterClass::Rwreg, config);
            let rregs = readings(rreg_script, rreg_replies);
            let rwregs = readings(rwreg_script, rwreg_replies);
            LoopView::Boundary(config).run(iteration_events(rreg_replies, rwreg_replies)) == (
                LoopView::Boundary(config),
                bus_actions(rreg_script) + seq![
                    LoopActionView::Emit(ReportView::Rregs(rregs)),
                    LoopActionView::Emit(ReportView::SensorValues(rregs)),
                ] + bus_actions(rwreg_script) + seq![
                    LoopActionView::Emit(ReportView::Rwregs(rwregs)),
                    LoopActionView::CheckOnline,
                ],
            )
        }),
{
    let start = LoopView::Boundary(config);
    let online = seq![LoopEvent::Online(true)];
    let emitted = seq![LoopEvent::Emitted];
    let e1 = reply_events(rreg_replies);
    let e2 = reply_events(rwreg_replies);

    // the read-only registers
    lemma_poll_runs(RegisterClass::Rreg, config, rreg_replies);
    let (s1, a1) = start.step(LoopEvent::Online(true));
    let (s2, b2) = s1.run(e1);
    lemma_run_one(start, LoopEvent::Online(true));
    lemma_run_concat(start, online, e1);

    // the sensor values
    let (s3, a3) = s2.step(LoopEvent::Emitted);
    lemma_run_one(s2, LoopEvent::Emitted);
    lemma_run_concat(start, online + e1, emitted);

    // the read/write registers
    lemma_poll_runs(RegisterClass::Rwreg, config, rwreg_replies);
    let (s4, a4) = s3.step(LoopEvent::Emitted);
    let (s5, b5) = s4.run(e2);
    lemma_run_one(s3, LoopEvent::Emitted);
    lemma_run_concat(start, online + e1 + emitted, emitted);
    lemma_run_concat(start, online + e1 + emitted + emitted, e2);

    // the next iteration
    lemma_run_one(s5, LoopEvent::Emitted);
    lemma_run_concat(start, online + e1 + emitted + emitted + e2, emitted);

    assert(iteration_events(rreg_replies, rwreg_replies) == online + e1 + emitted + emitted + e2
        + emitted);
    assert(seq![a1] + b2 + seq![a3] + seq![a4] + b5 == seq![a1] + b2 + seq![a3] + (seq![a4]
        + b5));
}

} // verus!
