//! What holds of every job, whatever the slave answers.

use crate::modbus_master::bus::{
    access_script, batch_script, failure_error, read_request, settle_request, step_of,
    unlock_request, write_script, Access, Failure, JobView, RegisterClass, Reply, Request, Step,
};
use crate::modbus_master::error::ModbusMasterError;
use vstd::prelude::*;

verus! {

/// Whether `reply` lets the job go on after `request`.
pub open spec fn succeeds(request: Request, reply: Reply) -> bool {
    !(step_of(request, reply) is Fail)
}

/// Whether `replies` answer the first requests of `script`, one each, and
/// none of them fails.
pub open spec fn all_succeed(script: Seq<Request>, replies: Seq<Reply>) -> bool {
    &&& replies.len() <= script.len()
    &&& forall|i: int| 0 <= i < replies.len() ==> succeeds(#[trigger] script[i], replies[i])
}

/// The registers that `replies` report as read, each with its value, where
/// `replies` answer `requests` one by one.
pub open spec fn readings(requests: Seq<Request>, replies: Seq<Reply>) -> Seq<(u16, u16)>
    decreases requests.len(),
{
    if requests.len() == 0 || replies.len() == 0 {
        Seq::empty()
    } else {
        let rest = readings(requests.drop_first(), replies.drop_first());
        match step_of(requests.first(), replies.first()) {
            Step::Read { reg_nr, value } => seq![(reg_nr, value)] + rest,
            _ => rest,
        }
    }
}

impl JobView {
    /// What holds of a job from its start to its end.
    pub open spec fn wf(self) -> bool {
        &&& self.cursor <= self.script.len()
        &&& self.failure is Some ==> self.cursor < self.script.len()
        &&& self.closing ==> self.failure is Some && self.script[self.cursor as int]
            != Request::Open
    }

    /// The requests that the job has made and that were answered.
    ///
    /// While nothing failed these are the first requests of the script. A
    /// failure ends the script with the request that failed, followed by the
    /// release of the session if there was one.
    pub open spec fn history(self) -> Seq<Request> {
        if self.failure is None {
            self.script.take(self.cursor as int)
        } else if self.closing || self.script[self.cursor as int] == Request::Open {
            self.script.take(self.cursor as int + 1)
        } else {
            self.script.take(self.cursor as int + 1).push(Request::Close)
        }
    }
}

/// A reply keeps a job well-formed, and the request it answers is the next
/// of the job's history.
pub proof fn lemma_respond_extends_history(job: JobView, reply: Reply)
    requires
        job.wf(),
    ensures
        job.respond(reply).wf(),
        job.respond(reply).script == job.script,
        job.finished() ==> job.respond(reply) == job,
        !job.finished() ==> job.respond(reply).history() == job.history().push(
            job.request().unwrap(),
        ),
{
}

/// A job that has ended stays as it is.
pub proof fn lemma_finished_is_final(job: JobView, replies: Seq<Reply>)
    requires
        job.finished(),
    ensures
        job.after(replies) == job,
        job.issued(replies) == Seq::<Request>::empty(),
    decreases replies.len(),
{
    if replies.len() > 0 {
        lemma_finished_is_final(job, replies.drop_first());
    }
}

/// Answering with `first` and then with `second` is answering with both in
/// a row.
pub proof fn lemma_after_concat(job: JobView, first: Seq<Reply>, second: Seq<Reply>)
    ensures
        job.after(first + second) == job.after(first).after(second),
    decreases first.len(),
{
    if first.len() > 0 {
        assert((first + second).drop_first() == first.drop_first() + second);
        lemma_after_concat(job.respond(first.first()), first.drop_first(), second);
    }
}

/// The requests that a job makes are those that its history gains.
pub proof fn lemma_issued_is_history(job: JobView, replies: Seq<Reply>)
    requires
        job.wf(),
    ensures
        job.after(replies).wf(),
        job.after(replies).script == job.script,
        job.after(replies).history() == job.history() + job.issued(replies),
    decreases replies.len(),
{
    if replies.len() == 0 {
    } else if job.finished() {
        lemma_finished_is_final(job, replies);
    } else {
        lemma_respond_extends_history(job, replies.first());
        lemma_issued_is_history(job.respond(replies.first()), replies.drop_first());
    }
}

/// While no request fails, a job walks down its script and collects what
/// the reads report.
pub proof fn lemma_successes_advance(job: JobView, replies: Seq<Reply>)
    requires
        job.wf(),
        job.failure is None,
        all_succeed(job.script.skip(job.cursor as int), replies),
    ensures
        job.after(replies) == (JobView {
            cursor: job.cursor + replies.len(),
            values: job.values + readings(job.script.skip(job.cursor as int), replies),
            ..job
        }),
    decreases replies.len(),
{
    if replies.len() > 0 {
        let c = job.cursor as int;
        let rest = job.script.skip(c);
        assert(rest.drop_first() == job.script.skip(c + 1));
        assert forall|i: int| 0 <= i < replies.drop_first().len() implies succeeds(
            #[trigger] job.script.skip(c + 1)[i],
            replies.drop_first()[i],
        ) by {}
        lemma_successes_advance(job.respond(replies.first()), replies.drop_first());
        let tail = readings(rest.drop_first(), replies.drop_first());
        if let Step::Read { reg_nr, value } = step_of(rest.first(), replies.first()) {
            assert(job.values.push((reg_nr, value)) + tail == job.values + (seq![
                (reg_nr, value),
            ] + tail));
        }
    }
}

/// The requests that a job makes, from its start and whatever the replies,
/// are the first requests of its script, up to the first that fails; a
/// failure inside a session is followed by the release of the session and
/// by nothing else.
pub proof fn law_job_follows_script(
    tty_path: Seq<char>,
    slave: u8,
    script: Seq<Request>,
    replies: Seq<Reply>,
)
    ensures
        ({
            let job = JobView::fresh(tty_path, slave, script);
            job.issued(replies) == job.after(replies).history()
        }),
{
    let job = JobView::fresh(tty_path, slave, script);
    lemma_issued_is_history(job, replies);
}

/// The first failure is the result of the job: if the replies let every
/// request before the one at position `t` go through and fail that one, the
/// job ends with the error of that failure, as soon as the session, if one
/// was open, has been released.
pub proof fn law_first_failure_is_result(
    tty_path: Seq<char>,
    slave: u8,
    script: Seq<Request>,
    replies: Seq<Reply>,
    t: int,
)
    requires
        0 <= t < script.len(),
        t < replies.len(),
        all_succeed(script, replies.take(t)),
        step_of(script[t], replies[t]) is Fail,
        script[t] == Request::Open || t + 1 < replies.len(),
    ensures
        JobView::fresh(tty_path, slave, script).after(replies).result() == Some(
            Err::<Seq<(u16, u16)>, ModbusMasterError>(step_of(script[t], replies[t])->Fail_0),
        ),
{
    let job = JobView::fresh(tty_path, slave, script);
    let before = replies.take(t);
    lemma_successes_advance(job, before);
    let failed = job.after(before).respond(replies[t]);
    if script[t] == Request::Open {
        let rest = replies.skip(t + 1);
        let tail = seq![replies[t]] + rest;
        assert(replies == before + tail);
        lemma_after_concat(job, before, tail);
        assert(tail.drop_first() == rest);
        lemma_finished_is_final(failed, rest);
    } else {
        let released = failed.respond(replies[t + 1]);
        let rest = replies.skip(t + 2);
        let tail = seq![replies[t + 1]] + rest;
        let all = seq![replies[t]] + tail;
        assert(replies == before + all);
        lemma_after_concat(job, before, all);
        assert(all.drop_first() == tail);
        assert(tail.drop_first() == rest);
        assert(failed.after(tail) == released.after(rest));
        lemma_finished_is_final(released, rest);
    }
}

/// How many requests reading `access` takes.
pub open spec fn access_len(access: Access) -> int {
    if access.protected {
        5
    } else {
        3
    }
}

/// Where in the script of `accesses` the session of the register at index
/// `i` begins.
pub open spec fn access_offset(accesses: Seq<Access>, i: int) -> int
    decreases i,
{
    if i <= 0 {
        0
    } else {
        access_offset(accesses, i - 1) + access_len(accesses[i - 1])
    }
}

/// Where in the script of `accesses` the register at index `i` is read.
pub open spec fn read_position(accesses: Seq<Access>, i: int) -> int {
    access_offset(accesses, i) + if accesses[i].protected {
        3int
    } else {
        1int
    }
}

/// Sessions begin where they begin in any longer list.
pub proof fn lemma_offset_of_prefix(accesses: Seq<Access>, n: int, i: int)
    requires
        0 <= i <= n <= accesses.len(),
    ensures
        access_offset(accesses.take(n), i) == access_offset(accesses, i),
        0 <= access_offset(accesses, i),
    decreases i,
{
    if i > 0 {
        lemma_offset_of_prefix(accesses, n, i - 1);
    }
}

/// The script of a list of registers is as long as its sessions together.
pub proof fn lemma_batch_script_len(
    class: RegisterClass,
    accesses: Seq<Access>,
    reg_protection: u16,
)
    ensures
        batch_script(class, accesses, reg_protection).len() == access_offset(
            accesses,
            accesses.len() as int,
        ),
    decreases accesses.len(),
{
    if accesses.len() > 0 {
        let n = accesses.len() as int;
        lemma_batch_script_len(class, accesses.drop_last(), reg_protection);
        lemma_offset_of_prefix(accesses, n - 1, n - 1);
    }
}

/// Every register of a batch is read in a session of its own: the script
/// of the batch holds, from the register's offset on, the script of that
/// one register.
pub proof fn law_access_layout(
    class: RegisterClass,
    accesses: Seq<Access>,
    reg_protection: u16,
    i: int,
)
    requires
        0 <= i < accesses.len(),
    ensures
        ({
            let script = batch_script(class, accesses, reg_protection);
            let offset = access_offset(accesses, i);
            &&& 0 <= offset
            &&& offset + access_len(accesses[i]) <= script.len()
            &&& script.subrange(offset, offset + access_len(accesses[i])) == access_script(
                class,
                accesses[i],
                reg_protection,
            )
        }),
    decreases accesses.len(),
{
    let n = accesses.len() as int;
    let shorter = accesses.drop_last();
    lemma_batch_script_len(class, shorter, reg_protection);
    lemma_batch_script_len(class, accesses, reg_protection);
    lemma_offset_of_prefix(accesses, n - 1, n - 1);
    if i < n - 1 {
        law_access_layout(class, shorter, reg_protection, i);
        lemma_offset_of_prefix(accesses, n - 1, i);
        lemma_offset_of_prefix(accesses, n - 1, i + 1);
    }
}

/// Every read of a protected register is preceded, in its own session, by
/// one unlock write to the protection register and by the settle delay,
/// in this order and with nothing in between; an unprotected register is
/// read right after its session was opened. After the read the session
/// is released.
pub proof fn law_unlock_precedes_protected_read(
    class: RegisterClass,
    accesses: Seq<Access>,
    reg_protection: u16,
    i: int,
)
    requires
        0 <= i < accesses.len(),
    ensures
        ({
            let script = batch_script(class, accesses, reg_protection);
            let read = read_position(accesses, i);
            &&& 0 < read < script.len() - 1
            &&& script[read] == read_request(class, accesses[i].reg_nr)
            &&& script[read + 1] == Request::Close
            &&& accesses[i].protected ==> {
                &&& 3 <= read
                &&& script[read - 3] == Request::Open
                &&& script[read - 2] == unlock_request(reg_protection)
                &&& script[read - 1] == settle_request()
            }
            &&& !accesses[i].protected ==> script[read - 1] == Request::Open
        }),
{
    law_access_layout(class, accesses, reg_protection, i);
}

/// Whether a request writes a register.
pub open spec fn is_write() -> spec_fn(Request) -> bool {
    |request: Request| request is Write
}

/// Whether a register is protected.
pub open spec fn is_protected() -> spec_fn(Access) -> bool {
    |access: Access| access.protected
}

/// A batch of reads unlocks the board once for each protected register of
/// the list, not once for the batch, and writes nothing else.
pub proof fn law_one_unlock_per_protected_register(
    class: RegisterClass,
    accesses: Seq<Access>,
    reg_protection: u16,
)
    ensures
        ({
            let script = batch_script(class, accesses, reg_protection);
            &&& script.filter(is_write()).len() == accesses.filter(is_protected()).len()
            &&& forall|j: int|
                0 <= j < script.len() && #[trigger] script[j] is Write ==> script[j]
                    == unlock_request(reg_protection)
        }),
    decreases accesses.len(),
{
    let script = batch_script(class, accesses, reg_protection);
    if accesses.len() == 0 {
        assert(script.filter(is_write()).len() == 0) by {
            script.lemma_filter_len(is_write());
        }
        assert(accesses.filter(is_protected()).len() == 0) by {
            accesses.lemma_filter_len(is_protected());
        }
    } else {
        let shorter = accesses.drop_last();
        let last = accesses.last();
        let head = batch_script(class, shorter, reg_protection);
        let own = access_script(class, last, reg_protection);
        law_one_unlock_per_protected_register(class, shorter, reg_protection);
        Seq::filter_distributes_over_add(head, own, is_write());
        assert(accesses == shorter.push(last));
        shorter.lemma_filter_push(last, is_protected());
        let none = Seq::<Request>::empty();
        assert(none.filter(is_write()) == none) by {
            none.lemma_filter_len(is_write());
        }
        let read = read_request(class, last.reg_nr);
        if last.protected {
            assert(own == none.push(Request::Open).push(unlock_request(reg_protection)).push(
                settle_request(),
            ).push(read).push(Request::Close));
            none.lemma_filter_push(Request::Open, is_write());
            none.push(Request::Open).lemma_filter_push(unlock_request(reg_protection), is_write());
            none.push(Request::Open).push(unlock_request(reg_protection)).lemma_filter_push(
                settle_request(),
                is_write(),
            );
            none.push(Request::Open).push(unlock_request(reg_protection)).push(
                settle_request(),
            ).lemma_filter_push(read, is_write());
            none.push(Request::Open).push(unlock_request(reg_protection)).push(
                settle_request(),
            ).push(read).lemma_filter_push(Request::Close, is_write());
        } else {
            assert(own == none.push(Request::Open).push(read).push(Request::Close));
            none.lemma_filter_push(Request::Open, is_write());
            none.push(Request::Open).lemma_filter_push(read, is_write());
            none.push(Request::Open).push(read).lemma_filter_push(Request::Close, is_write());
        }
        assert forall|j: int| 0 <= j < script.len() && #[trigger] script[j] is Write implies
            script[j] == unlock_request(reg_protection) by {}
    }
}

/// What one reply reports as read.
pub open spec fn reading(request: Request, reply: Reply) -> Seq<(u16, u16)> {
    match step_of(request, reply) {
        Step::Read { reg_nr, value } => seq![(reg_nr, value)],
        _ => Seq::empty(),
    }
}

proof fn lemma_readings_single(request: Request, reply: Reply)
    ensures
        readings(seq![request], seq![reply]) == reading(request, reply),
{
    let none = Seq::<(u16, u16)>::empty();
    assert(readings(seq![request].drop_first(), seq![reply].drop_first()) == none);
}

proof fn lemma_readings_concat(
    first: Seq<Request>,
    second: Seq<Request>,
    first_replies: Seq<Reply>,
    second_replies: Seq<Reply>,
)
    requires
        first_replies.len() == first.len(),
    ensures
        readings(first + second, first_replies + second_replies) == readings(
            first,
            first_replies,
        ) + readings(second, second_replies),
    decreases first.len(),
{
    if first.len() > 0 {
        assert((first + second).drop_first() == first.drop_first() + second);
        assert((first_replies + second_replies).drop_first() == first_replies.drop_first()
            + second_replies);
        lemma_readings_concat(
            first.drop_first(),
            second,
            first_replies.drop_first(),
            second_replies,
        );
    }
}

proof fn lemma_access_readings(
    class: RegisterClass,
    access: Access,
    reg_protection: u16,
    replies: Seq<Reply>,
)
    requires
        replies.len() == access_len(access),
        all_succeed(access_script(class, access, reg_protection), replies),
    ensures
        ({
            let read: int = if access.protected {
                3
            } else {
                1
            };
            let values = readings(access_script(class, access, reg_protection), replies);
            &&& values.len() == 1
            &&& values[0].0 == access.reg_nr
            &&& replies[read] == Reply::Value(values[0].1)
        }),
{
    let script = access_script(class, access, reg_protection);
    let request = read_request(class, access.reg_nr);
    if access.protected {
        let a = seq![Request::Open];
        let b = seq![unlock_request(reg_protection)];
        let c = seq![settle_request()];
        let d = seq![request];
        let e = seq![Request::Close];
        let ra = seq![replies[0]];
        let rb = seq![replies[1]];
        let rc = seq![replies[2]];
        let rd = seq![replies[3]];
        let re = seq![replies[4]];
        assert(script == a + (b + (c + (d + e))));
        assert(replies == ra + (rb + (rc + (rd + re))));
        lemma_readings_concat(a, b + (c + (d + e)), ra, rb + (rc + (rd + re)));
        lemma_readings_concat(b, c + (d + e), rb, rc + (rd + re));
        lemma_readings_concat(c, d + e, rc, rd + re);
        lemma_readings_concat(d, e, rd, re);
        lemma_readings_single(Request::Open, replies[0]);
        lemma_readings_single(unlock_request(reg_protection), replies[1]);
        lemma_readings_single(settle_request(), replies[2]);
        lemma_readings_single(request, replies[3]);
        lemma_readings_single(Request::Close, replies[4]);
    } else {
        let a = seq![Request::Open];
        let d = seq![request];
        let e = seq![Request::Close];
        let ra = seq![replies[0]];
        let rd = seq![replies[1]];
        let re = seq![replies[2]];
        assert(script == a + (d + e));
        assert(replies == ra + (rd + re));
        lemma_readings_concat(a, d + e, ra, rd + re);
        lemma_readings_concat(d, e, rd, re);
        lemma_readings_single(Request::Open, replies[0]);
        lemma_readings_single(request, replies[1]);
        lemma_readings_single(Request::Close, replies[2]);
    }
}

/// What a batch whose requests all go through reports as read: every
/// register of the list, in the order of the list, each with the value
/// that answered its read.
pub proof fn lemma_batch_readings(
    class: RegisterClass,
    accesses: Seq<Access>,
    reg_protection: u16,
    replies: Seq<Reply>,
)
    requires
        replies.len() == batch_script(class, accesses, reg_protection).len(),
        all_succeed(batch_script(class, accesses, reg_protection), replies),
    ensures
        ({
            let values = readings(batch_script(class, accesses, reg_protection), replies);
            &&& values.len() == accesses.len()
            &&& forall|i: int|
                #![trigger values[i]]
                0 <= i < accesses.len() ==> {
                    &&& values[i].0 == accesses[i].reg_nr
                    &&& 0 <= read_position(accesses, i) < replies.len()
                    &&& replies[read_position(accesses, i)] == Reply::Value(values[i].1)
                }
        }),
    decreases accesses.len(),
{
    let script = batch_script(class, accesses, reg_protection);
    let values = readings(script, replies);
    if accesses.len() > 0 {
        let n = accesses.len() as int;
        let shorter = accesses.drop_last();
        let last = accesses.last();
        let head = batch_script(class, shorter, reg_protection);
        let own = access_script(class, last, reg_protection);
        let head_replies = replies.take(head.len() as int);
        let own_replies = replies.skip(head.len() as int);
        assert(replies == head_replies + own_replies);
        lemma_batch_script_len(class, shorter, reg_protection);
        lemma_offset_of_prefix(accesses, n - 1, n - 1);
        assert forall|i: int| 0 <= i < head_replies.len() implies succeeds(
            #[trigger] head[i],
            head_replies[i],
        ) by {
            assert(head[i] == script[i]);
        }
        assert forall|i: int| 0 <= i < own_replies.len() implies succeeds(
            #[trigger] own[i],
            own_replies[i],
        ) by {
            assert(own[i] == script[head.len() + i]);
        }
        lemma_batch_readings(class, shorter, reg_protection, head_replies);
        lemma_access_readings(class, last, reg_protection, own_replies);
        lemma_readings_concat(head, own, head_replies, own_replies);
        let head_values = readings(head, head_replies);
        let own_values = readings(own, own_replies);
        assert(values == head_values + own_values);
        assert forall|i: int| #![trigger values[i]] 0 <= i < accesses.len() implies {
            &&& values[i].0 == accesses[i].reg_nr
            &&& 0 <= read_position(accesses, i) < replies.len()
            &&& replies[read_position(accesses, i)] == Reply::Value(values[i].1)
        } by {
            if i < n - 1 {
                assert(values[i] == head_values[i]);
                lemma_offset_of_prefix(accesses, n - 1, i);
                assert(read_position(shorter, i) == read_position(accesses, i));
            } else {
                assert(values[i] == own_values[0]);
                assert(read_position(accesses, i) - head.len() == read_position(seq![last], 0));
            }
        }
    }
}

/// A batch in which every request goes through ends with every register
/// of the list, in the order of the list, each with the value that answered
/// its read.
pub proof fn law_batch_reads_in_order(
    tty_path: Seq<char>,
    slave: u8,
    class: RegisterClass,
    accesses: Seq<Access>,
    reg_protection: u16,
    replies: Seq<Reply>,
)
    requires
        replies.len() == batch_script(class, accesses, reg_protection).len(),
        all_succeed(batch_script(class, accesses, reg_protection), replies),
    ensures
        ({
            let script = batch_script(class, accesses, reg_protection);
            let end = JobView::fresh(tty_path, slave, script).after(replies);
            &&& end.result() matches Some(Ok(values))
            &&& values.len() == accesses.len()
            &&& forall|i: int|
                #![trigger values[i]]
                0 <= i < accesses.len() ==> {
                    &&& values[i].0 == accesses[i].reg_nr
                    &&& replies[read_position(accesses, i)] == Reply::Value(values[i].1)
                }
        }),
{
    let script = batch_script(class, accesses, reg_protection);
    let job = JobView::fresh(tty_path, slave, script);
    assert(script.skip(0) == script);
    lemma_successes_advance(job, replies);
    lemma_batch_readings(class, accesses, reg_protection, replies);
}

/// A batch in which the read of the register at index `k` fails, after
/// every request before it went through, ends with the error of that read
/// and with none of the values read before it: a `ProtocolTimeout` after a
/// timeout, else a `RegisterReadFailure` of that register.
pub proof fn law_batch_fails_with_failed_read(
    tty_path: Seq<char>,
    slave: u8,
    class: RegisterClass,
    accesses: Seq<Access>,
    reg_protection: u16,
    replies: Seq<Reply>,
    k: int,
    failure: Failure,
)
    requires
        0 <= k < accesses.len(),
        read_position(accesses, k) + 1 < replies.len(),
        all_succeed(
            batch_script(class, accesses, reg_protection),
            replies.take(read_position(accesses, k)),
        ),
        replies[read_position(accesses, k)] == Reply::Failed(failure),
    ensures
        JobView::fresh(tty_path, slave, batch_script(class, accesses, reg_protection)).after(
            replies,
        ).result() == Some(
            Err::<Seq<(u16, u16)>, ModbusMasterError>(
                failure_error(
                    failure,
                    ModbusMasterError::RegisterReadFailure { address: accesses[k].reg_nr },
                ),
            ),
        ),
{
    law_unlock_precedes_protected_read(class, accesses, reg_protection, k);
    law_first_failure_is_result(
        tty_path,
        slave,
        batch_script(class, accesses, reg_protection),
        replies,
        read_position(accesses, k),
    );
}

/// The position, from `from` on, of the first request that its reply
/// fails; where none fails, the position at which the script or the replies
/// end.
pub open spec fn first_failure(script: Seq<Request>, replies: Seq<Reply>, from: int) -> int
    decreases script.len() - from,
{
    if from < 0 || from >= script.len() || from >= replies.len() || !succeeds(
        script[from],
        replies[from],
    ) {
        from
    } else {
        first_failure(script, replies, from + 1)
    }
}

proof fn lemma_first_failure(script: Seq<Request>, replies: Seq<Reply>, from: int)
    requires
        0 <= from,
    ensures
        ({
            let at = first_failure(script, replies, from);
            &&& from <= at
            &&& forall|i: int| from <= i < at ==> succeeds(#[trigger] script[i], replies[i])
            &&& at < script.len() && at < replies.len() ==> !succeeds(script[at], replies[at])
            &&& from <= script.len() && from <= replies.len() ==> at <= script.len() && at
                <= replies.len()
        }),
    decreases script.len() - from,
{
    if !(from >= script.len() || from >= replies.len() || !succeeds(script[from], replies[from])) {
        lemma_first_failure(script, replies, from + 1);
    }
}

proof fn lemma_failure_persists(job: JobView, replies: Seq<Reply>)
    requires
        job.failure is Some,
    ensures
        job.after(replies).failure is Some,
    decreases replies.len(),
{
    if replies.len() > 0 {
        lemma_failure_persists(job.respond(replies.first()), replies.drop_first());
    }
}

/// A batch never ends with a part of its registers: whatever the replies,
/// its result is missing, an error, or every register of the list with its
/// value.
pub proof fn law_batch_result_is_never_partial(
    tty_path: Seq<char>,
    slave: u8,
    class: RegisterClass,
    accesses: Seq<Access>,
    reg_protection: u16,
    replies: Seq<Reply>,
)
    ensures
        ({
            let script = batch_script(class, accesses, reg_protection);
            let end = JobView::fresh(tty_path, slave, script).after(replies);
            end.result() matches Some(Ok(values)) ==> {
                &&& values.len() == accesses.len()
                &&& forall|i: int|
                    #![trigger values[i]]
                    0 <= i < accesses.len() ==> values[i].0 == accesses[i].reg_nr
            }
        }),
{
    let script = batch_script(class, accesses, reg_protection);
    let job = JobView::fresh(tty_path, slave, script);
    let at = first_failure(script, replies, 0);
    lemma_first_failure(script, replies, 0);
    let before = replies.take(at);
    let rest = replies.skip(at);
    assert(replies == before + rest);
    lemma_successes_advance(job, before);
    lemma_after_concat(job, before, rest);
    let reached = job.after(before);
    if at == script.len() {
        lemma_finished_is_final(reached, rest);
        law_batch_reads_in_order(tty_path, slave, class, accesses, reg_protection, before);
    } else if at < replies.len() {
        lemma_failure_persists(reached.respond(rest.first()), rest.drop_first());
    }
}

/// Every job ends: after one reply more than its script has requests, at
/// the latest, it asks for nothing and has its result.
pub proof fn law_every_job_ends(
    tty_path: Seq<char>,
    slave: u8,
    script: Seq<Request>,
    replies: Seq<Reply>,
)
    requires
        replies.len() > script.len(),
    ensures
        JobView::fresh(tty_path, slave, script).after(replies).finished(),
        JobView::fresh(tty_path, slave, script).after(replies).result() is Some,
{
    let job = JobView::fresh(tty_path, slave, script);
    let at = first_failure(script, replies, 0);
    lemma_first_failure(script, replies, 0);
    if at == script.len() {
        let before = replies.take(at);
        let rest = replies.skip(at);
        assert(replies == before + rest);
        lemma_successes_advance(job, before);
        lemma_after_concat(job, before, rest);
        lemma_finished_is_final(job.after(before), rest);
    } else {
        assert forall|i: int| 0 <= i < at implies succeeds(
            #[trigger] script[i],
            replies.take(at)[i],
        ) by {}
        law_first_failure_is_result(tty_path, slave, script, replies, at);
    }
}

/// A job whose requests all go through makes the requests of its script,
/// all of them and in their order, and ends with what its reads reported.
pub proof fn law_job_that_goes_through_makes_its_script(
    tty_path: Seq<char>,
    slave: u8,
    script: Seq<Request>,
    replies: Seq<Reply>,
)
    requires
        replies.len() == script.len(),
        all_succeed(script, replies),
    ensures
        ({
            let job = JobView::fresh(tty_path, slave, script);
            &&& job.issued(replies) == script
            &&& job.after(replies).result() == Some(
                Ok::<Seq<(u16, u16)>, ModbusMasterError>(readings(script, replies)),
            )
        }),
{
    let job = JobView::fresh(tty_path, slave, script);
    lemma_successes_advance(job, replies);
    law_job_follows_script(tty_path, slave, script, replies);
}

/// A protected write whose requests all go through does, in this order
/// and nothing else: it opens a session, writes the unlock value to the
/// protection register, lets the settle delay pass, writes the value to
/// the register, and releases the session. It ends without an error and
/// has read nothing.
pub proof fn law_protected_write_unlocks_then_writes(
    tty_path: Seq<char>,
    slave: u8,
    reg_protection: u16,
    reg_nr: u16,
    value: u16,
    replies: Seq<Reply>,
)
    requires
        replies.len() == 5,
        all_succeed(write_script(reg_protection, reg_nr, value), replies),
    ensures
        ({
            let job = JobView::fresh(
                tty_path,
                slave,
                write_script(reg_protection, reg_nr, value),
            );
            &&& job.issued(replies) == seq![
                Request::Open,
                unlock_request(reg_protection),
                settle_request(),
                Request::Write { reg_nr, value },
                Request::Close,
            ]
            &&& job.after(replies).result() == Some(
                Ok::<Seq<(u16, u16)>, ModbusMasterError>(Seq::empty()),
            )
        }),
{
    let script = write_script(reg_protection, reg_nr, value);
    law_job_that_goes_through_makes_its_script(tty_path, slave, script, replies);
    let a = seq![Request::Open];
    let b = seq![unlock_request(reg_protection)];
    let c = seq![settle_request()];
    let d = seq![Request::Write { reg_nr, value }];
    let e = seq![Request::Close];
    let ra = seq![replies[0]];
    let rb = seq![replies[1]];
    let rc = seq![replies[2]];
    let rd = seq![replies[3]];
    let re = seq![replies[4]];
    assert(script == a + (b + (c + (d + e))));
    assert(replies == ra + (rb + (rc + (rd + re))));
    lemma_readings_concat(a, b + (c + (d + e)), ra, rb + (rc + (rd + re)));
    lemma_readings_concat(b, c + (d + e), rb, rc + (rd + re));
    lemma_readings_concat(c, d + e, rc, rd + re);
    lemma_readings_concat(d, e, rd, re);
    lemma_readings_single(Request::Open, replies[0]);
    lemma_readings_single(unlock_request(reg_protection), replies[1]);
    lemma_readings_single(settle_request(), replies[2]);
    lemma_readings_single(Request::Write { reg_nr, value }, replies[3]);
    lemma_readings_single(Request::Close, replies[4]);
}

/// Whether the last request of `script` releases a session. It does in
/// every script of a batch and of a protected write.
pub open spec fn ends_with_release(script: Seq<Request>) -> bool {
    script.len() > 0 ==> script.last() == Request::Close
}

/// The script of a batch ends with the release of its last session.
pub proof fn lemma_batch_script_ends_with_release(
    class: RegisterClass,
    accesses: Seq<Access>,
    reg_protection: u16,
)
    ensures
        ends_with_release(batch_script(class, accesses, reg_protection)),
{
    if accesses.len() > 0 {
        let head = batch_script(class, accesses.drop_last(), reg_protection);
        let own = access_script(class, accesses.last(), reg_protection);
        assert((head + own).last() == own.last());
    }
}

/// No job leaves a session behind, however it ends: the last request of a
/// job that has ended was the release of a session, or the opening of a
/// session that failed; or the job had nothing to ask for.
pub proof fn law_ended_job_has_released_its_session(
    tty_path: Seq<char>,
    slave: u8,
    script: Seq<Request>,
    replies: Seq<Reply>,
)
    requires
        ends_with_release(script),
        JobView::fresh(tty_path, slave, script).after(replies).finished(),
    ensures
        ({
            let job = JobView::fresh(tty_path, slave, script);
            let made = job.issued(replies);
            ||| made.len() == 0
            ||| made.last() == Request::Close
            ||| made.last() == Request::Open && job.after(replies).failure is Some
        }),
{
    let job = JobView::fresh(tty_path, slave, script);
    lemma_issued_is_history(job, replies);
    assert(job.history() + job.issued(replies) == job.issued(replies));
    let end = job.after(replies);
    if end.failure is None {
        assert(script.take(script.len() as int) == script);
    }
}

} // verus!
