//! One worker: what it asks of its host, and what it does with each answer.
//!
//! A worker never waits by itself. It tells the host what to do next (a
//! [`Request`]), the host does it and comes back with what happened (an
//! [`Event`]), and [`Worker::step`] decides from there. The host loop is
//! therefore the same few lines for every worker, and every decision of the
//! worker is in this file.

use crate::latency::{elapsed, elapsed_ms, latency_of, measure, Latency};
use crate::package::{ConnectionInfo, FrameWrapper, ResponsePackage};
use crate::signal::{should_stop, stops, StopSignal};
use vstd::prelude::*;

verus! {

/// What a worker keeps of a package once the packet itself has gone into a
/// frame.
#[derive(Clone, Copy, Debug, PartialEq, Eq, Structural)]
pub struct Job {
    /// The connection the package is for.
    pub connection_id: u64,
    /// Whether the packet was a disconnect notice.
    pub disconnect: bool,
    /// When the package entered the system.
    pub receive_ms: u128,
    /// When the package left the worker's queue.
    pub dequeue_ms: u128,
    /// When the frame write ended, if a write was asked for.
    pub written_ms: Option<u128>,
    /// Whether the frame write reported an error.
    pub write_failed: bool,
}

/// How the disconnect cascade went for one package.
#[derive(Clone, Copy, Debug, PartialEq, Eq, Structural)]
pub enum Cascade {
    /// The packet was no disconnect notice, so none was due.
    NotDue,
    /// The session cache did not know the connection: nothing was invoked.
    NoSession,
    /// The disconnect procedure ran and reported success.
    Done,
    /// The disconnect procedure ran and reported an error.
    Failed,
}

/// What there is to record of one handled package.
#[derive(Clone, Copy, Debug, PartialEq, Eq, Structural)]
pub struct HandlingReport {
    /// The connection the package was for.
    pub connection_id: u64,
    /// The delays of the package.
    pub latency: Latency,
    /// Whether the frame write reported an error.
    pub write_failed: bool,
    /// How the disconnect cascade went.
    pub cascade: Cascade,
}

/// What the host reports to a worker.
#[derive(Debug, PartialEq, Eq)]
pub enum Event<B> {
    /// The shutdown subscription yielded.
    Signal(StopSignal),
    /// The worker's queue yielded `package` at time `now_ms`.
    Package { package: ResponsePackage<B>, now_ms: u128 },
    /// The connection registry's answer to [`Request::ResolveProtocol`].
    Protocol(Option<u8>),
    /// The frame write ended at `now_ms`, well or not.
    Written { ok: bool, now_ms: u128 },
    /// The response timing asked for by [`Request::RecordResponse`] is
    /// recorded.
    Recorded,
    /// The session cache's answer to [`Request::LookupSession`].
    Session(Option<ConnectionInfo>),
    /// The disconnect procedure ended, well or not.
    Disconnected { ok: bool },
}

/// What a worker asks of its host.
#[derive(Debug, PartialEq, Eq)]
pub enum Request<B> {
    /// Wait for the shutdown signal or the next package, whichever is first.
    Receive,
    /// Ask the connection registry for the connection's protocol version.
    ResolveProtocol { connection_id: u64 },
    /// Have the registry write `frame` to the connection.
    WriteFrame { connection_id: u64, frame: FrameWrapper<B> },
    /// Record the timing of the write that has just ended: how long the
    /// response took from leaving the queue, and how long the package took
    /// in all.
    RecordResponse { response_ms: u128, total_ms: u128 },
    /// Ask the session cache for the connection.
    LookupSession { connection_id: u64 },
    /// Run the disconnect procedure for this client.
    Disconnect { client_id: String, connect_id: u64, server_initiated: bool },
    /// Record `report`, then wait as for [`Request::Receive`].
    Finish { report: HandlingReport },
    /// Leave the loop.
    Halt,
    /// `event` answers nothing the worker asked; the worker has not moved.
    Rejected { event: Event<B> },
}

/// A worker, by what it is waiting for.
#[derive(Debug, PartialEq, Eq)]
pub enum Worker<B> {
    /// For the signal or a package.
    Idle,
    /// For the protocol version of the package's connection.
    Resolving { package: ResponsePackage<B>, dequeue_ms: u128 },
    /// For the frame write to end.
    Writing { job: Job },
    /// For the response timing to be recorded.
    Recording { job: Job },
    /// For the session cache's answer.
    LookingUp { job: Job },
    /// For the disconnect procedure to end.
    Disconnecting { job: Job },
    /// For nothing: it has left its loop.
    Stopped,
}

/// The job that a package starts when it leaves the queue at `dequeue_ms`.
pub open spec fn job_of<B>(package: ResponsePackage<B>, dequeue_ms: u128) -> Job {
    Job {
        connection_id: package.connection_id,
        disconnect: package.packet.disconnects(),
        receive_ms: package.receive_ms,
        dequeue_ms,
        written_ms: None,
        write_failed: false,
    }
}

/// The report of a job whose cascade went as `cascade` says.
pub open spec fn report_of(job: Job, cascade: Cascade) -> HandlingReport {
    HandlingReport {
        connection_id: job.connection_id,
        latency: latency_of(job.receive_ms, job.dequeue_ms, job.written_ms),
        write_failed: job.write_failed,
        cascade,
    }
}

/// The job of a frame write that was asked for `job` and ended at `now_ms`.
pub open spec fn written(job: Job, ok: bool, now_ms: u128) -> Job {
    Job { written_ms: Some(now_ms), write_failed: !ok, ..job }
}

/// The timing to record for a job whose frame write ended at `now_ms`: the
/// response counts from the moment the package left the queue, the total
/// from the moment it entered the system.
pub open spec fn response_timing<B>(job: Job, now_ms: u128) -> Request<B> {
    Request::RecordResponse {
        response_ms: elapsed(job.dequeue_ms, now_ms),
        total_ms: elapsed(job.receive_ms, now_ms),
    }
}

/// Where a job goes once the write is done with, recorded or skipped: to
/// the session cache for a disconnect notice, to its end for anything else.
pub open spec fn after_write<B>(job: Job) -> (Worker<B>, Request<B>) {
    if job.disconnect {
        (Worker::LookingUp { job }, Request::LookupSession { connection_id: job.connection_id })
    } else {
        (Worker::Idle, Request::Finish { report: report_of(job, Cascade::NotDue) })
    }
}

/// The worker's whole behaviour: from what it waits for and what happened, to
/// what it waits for next and what it asks.
pub open spec fn step_spec<B>(worker: Worker<B>, event: Event<B>) -> (Worker<B>, Request<B>) {
    match (worker, event) {
        (Worker::Stopped, _) => (Worker::Stopped, Request::Halt),
        (Worker::Idle, Event::Signal(signal)) => if stops(signal) {
            (Worker::Stopped, Request::Halt)
        } else {
            (Worker::Idle, Request::Receive)
        },
        (Worker::Idle, Event::Package { package, now_ms }) => (
            Worker::Resolving { package, dequeue_ms: now_ms },
            Request::ResolveProtocol { connection_id: package.connection_id },
        ),
        (Worker::Resolving { package, dequeue_ms }, Event::Protocol(Some(version))) => (
            Worker::Writing { job: job_of(package, dequeue_ms) },
            Request::WriteFrame {
                connection_id: package.connection_id,
                frame: FrameWrapper { protocol_version: version, packet: package.packet },
            },
        ),
        (Worker::Resolving { package, dequeue_ms }, Event::Protocol(None)) => after_write(
            job_of(package, dequeue_ms),
        ),
        (Worker::Writing { job }, Event::Written { ok, now_ms }) => (
            Worker::Recording { job: written(job, ok, now_ms) },
            response_timing(job, now_ms),
        ),
        (Worker::Recording { job }, Event::Recorded) => after_write(job),
        (Worker::LookingUp { job }, Event::Session(Some(info))) => (
            Worker::Disconnecting { job },
            Request::Disconnect {
                client_id: info.client_id,
                connect_id: info.connect_id,
                server_initiated: true,
            },
        ),
        (Worker::LookingUp { job }, Event::Session(None)) => (
            Worker::Idle,
            Request::Finish { report: report_of(job, Cascade::NoSession) },
        ),
        (Worker::Disconnecting { job }, Event::Disconnected { ok }) => (
            Worker::Idle,
            Request::Finish {
                report: report_of(job, if ok { Cascade::Done } else { Cascade::Failed }),
            },
        ),
        (waiting, stray) => (waiting, Request::Rejected { event: stray }),
    }
}

/// Computes [`report_of`].
fn report(job: Job, cascade: Cascade) -> (made: HandlingReport)
    ensures
        made == report_of(job, cascade),
{
    HandlingReport {
        connection_id: job.connection_id,
        latency: measure(job.receive_ms, job.dequeue_ms, job.written_ms),
        write_failed: job.write_failed,
        cascade,
    }
}

/// Computes [`after_write`].
fn proceed<B>(job: Job) -> (next: (Worker<B>, Request<B>))
    ensures
        next == after_write::<B>(job),
{
    if job.disconnect {
        (Worker::LookingUp { job }, Request::LookupSession { connection_id: job.connection_id })
    } else {
        (Worker::Idle, Request::Finish { report: report(job, Cascade::NotDue) })
    }
}

impl<B> Worker<B> {
    /// A worker that has not received anything yet.
    pub fn new() -> (worker: Self)
        ensures
            worker == Worker::<B>::Idle,
    {
        Worker::Idle
    }

    /// Whether the worker is still in its loop.
    pub open spec fn running(self) -> bool {
        !(self is Stopped)
    }

    /// Whether the worker is still in its loop.
    pub fn is_running(&self) -> (yes: bool)
        ensures
            yes == self.running(),
    {
        match self {
            Worker::Stopped => false,
            _ => true,
        }
    }

    /// Takes one event and says what to do next; see [`step_spec`].
    pub fn step(self, event: Event<B>) -> (next: (Worker<B>, Request<B>))
        ensures
            next == step_spec(self, event),
    {
        match (self, event) {
            (Worker::Stopped, _) => (Worker::Stopped, Request::Halt),
            (Worker::Idle, Event::Signal(signal)) => {
                if should_stop(signal) {
                    (Worker::Stopped, Request::Halt)
                } else {
                    (Worker::Idle, Request::Receive)
                }
            },
            (Worker::Idle, Event::Package { package, now_ms }) => {
                let connection_id: u64 = package.connection_id;
                (
                    Worker::Resolving { package, dequeue_ms: now_ms },
                    Request::ResolveProtocol { connection_id },
                )
            },
            (Worker::Resolving { package, dequeue_ms }, Event::Protocol(Some(version))) => {
                let job = Job {
                    connection_id: package.connection_id,
                    disconnect: package.packet.is_disconnect(),
                    receive_ms: package.receive_ms,
                    dequeue_ms,
                    written_ms: None,
                    write_failed: false,
                };
                (
                    Worker::Writing { job },
                    Request::WriteFrame {
                        connection_id: package.connection_id,
                        frame: FrameWrapper { protocol_version: version, packet: package.packet },
                    },
                )
            },
            (Worker::Resolving { package, dequeue_ms }, Event::Protocol(None)) => {
                let job = Job {
                    connection_id: package.connection_id,
                    disconnect: package.packet.is_disconnect(),
                    receive_ms: package.receive_ms,
                    dequeue_ms,
                    written_ms: None,
                    write_failed: false,
                };
                proceed(job)
            },
            (Worker::Writing { job }, Event::Written { ok, now_ms }) => {
                let job = Job {
                    connection_id: job.connection_id,
                    disconnect: job.disconnect,
                    receive_ms: job.receive_ms,
                    dequeue_ms: job.dequeue_ms,
                    written_ms: Some(now_ms),
                    write_failed: !ok,
                };
                (
                    Worker::Recording { job },
                    Request::RecordResponse {
                        response_ms: elapsed_ms(job.dequeue_ms, now_ms),
                        total_ms: elapsed_ms(job.receive_ms, now_ms),
                    },
                )
            },
            (Worker::Recording { job }, Event::Recorded) => proceed(job),
            (Worker::LookingUp { job }, Event::Session(Some(info))) => (
                Worker::Disconnecting { job },
                Request::Disconnect {
                    client_id: info.client_id,
                    connect_id: info.connect_id,
                    server_initiated: true,
                },
            ),
            (Worker::LookingUp { job }, Event::Session(None)) => (
                Worker::Idle,
                Request::Finish { report: report(job, Cascade::NoSession) },
            ),
            (Worker::Disconnecting { job }, Event::Disconnected { ok }) => {
                let cascade = if ok {
                    Cascade::Done
                } else {
                    Cascade::Failed
                };
                (Worker::Idle, Request::Finish { report: report(job, cascade) })
            },
            (waiting, stray) => (waiting, Request::Rejected { event: stray }),
        }
    }
}

/// The requests a worker makes, and where it ends, when it takes `events`
/// one after the other.
pub open spec fn run<B>(worker: Worker<B>, events: Seq<Event<B>>) -> (Worker<B>, Seq<Request<B>>)
    decreases events.len(),
{
    if events.len() == 0 {
        (worker, Seq::empty())
    } else {
        let (before, asked) = run(worker, events.drop_last());
        let (after, request) = step_spec(before, events.last());
        (after, asked.push(request))
    }
}

/// A worker that reads a stopping signal while it waits for input leaves its
/// loop with that very step.
pub proof fn lemma_stop_signal_halts<B>(signal: StopSignal)
    requires
        stops(signal),
    ensures
        step_spec(Worker::<B>::Idle, Event::Signal(signal)) == (
            Worker::<B>::Stopped,
            Request::<B>::Halt,
        ),
{
}

/// A signal that does not stop leaves the worker waiting for input.
pub proof fn lemma_other_signal_is_passed<B>(signal: StopSignal)
    requires
        !stops(signal),
    ensures
        step_spec(Worker::<B>::Idle, Event::Signal(signal)) == (
            Worker::<B>::Idle,
            Request::<B>::Receive,
        ),
{
}

/// A stopped worker stays stopped whatever comes, a package included, and
/// asks for nothing but to halt: what is still in its queue is never handled.
pub proof fn lemma_stopped_is_final<B>(events: Seq<Event<B>>)
    ensures
        run(Worker::Stopped, events).0 == Worker::<B>::Stopped,
        run(Worker::Stopped, events).1.len() == events.len(),
        forall|i: int|
            0 <= i < events.len() ==> (#[trigger] run(Worker::Stopped, events).1[i])
                == Request::<B>::Halt,
    decreases events.len(),
{
    if events.len() > 0 {
        lemma_stopped_is_final(events.drop_last());
    }
}

/// A frame write is asked for only when the registry has just given the
/// protocol version of the package's connection, and the frame then pairs
/// that version with the package's packet.
pub proof fn lemma_write_needs_protocol<B>(worker: Worker<B>, event: Event<B>)
    requires
        step_spec(worker, event).1 is WriteFrame,
    ensures
        worker is Resolving,
        event matches Event::Protocol(Some(version)) && step_spec(worker, event).1 == (
            Request::WriteFrame {
                connection_id: worker->package.connection_id,
                frame: FrameWrapper {
                    protocol_version: version,
                    packet: worker->package.packet,
                },
            }
        ),
{
}

/// The timing of a response is asked to be recorded only when its frame
/// write has just ended, before anything else is done for the package, and
/// it is the response time and the total time that the package's report
/// will show.
pub proof fn lemma_timing_follows_write<B>(worker: Worker<B>, event: Event<B>)
    requires
        step_spec(worker, event).1 is RecordResponse,
    ensures
        worker is Writing,
        event matches Event::Written { ok, now_ms } && step_spec(worker, event) == (
            Worker::<B>::Recording { job: written(worker->Writing_job, ok, now_ms) },
            Request::<B>::RecordResponse {
                response_ms: report_of(
                    written(worker->Writing_job, ok, now_ms),
                    Cascade::NotDue,
                ).latency.response_ms->Some_0,
                total_ms: report_of(
                    written(worker->Writing_job, ok, now_ms),
                    Cascade::NotDue,
                ).latency.total_ms,
            },
        ),
{
}

/// The session cache is asked only for disconnect notices, once the frame
/// write is done with: recorded or skipped.
pub proof fn lemma_lookup_needs_disconnect<B>(worker: Worker<B>, event: Event<B>)
    requires
        step_spec(worker, event).1 is LookupSession,
    ensures
        match worker {
            Worker::Resolving { package, .. } => package.packet.disconnects() && event
                == Event::<B>::Protocol(None),
            Worker::Recording { job } => job.disconnect && event is Recorded,
            _ => false,
        },
{
}

/// The disconnect procedure is asked for only when the session cache has
/// just answered with a session, for that session's client and connect, and
/// always as initiated by the server.
pub proof fn lemma_disconnect_needs_session<B>(worker: Worker<B>, event: Event<B>)
    requires
        step_spec(worker, event).1 is Disconnect,
    ensures
        worker is LookingUp,
        event matches Event::Session(Some(info)) && step_spec(worker, event) == (
            Worker::<B>::Disconnecting { job: worker->LookingUp_job },
            Request::<B>::Disconnect {
                client_id: info.client_id,
                connect_id: info.connect_id,
                server_initiated: true,
            },
        ),
{
}

/// A disconnect notice for a connection that the session cache does not know
/// ends there: no disconnect is asked for, no cascade failure is reported,
/// and the worker waits for input again.
pub proof fn lemma_absent_session_ends_quietly<B>(job: Job)
    ensures
        step_spec(Worker::<B>::LookingUp { job }, Event::Session(None)) == (
            Worker::<B>::Idle,
            Request::<B>::Finish { report: report_of(job, Cascade::NoSession) },
        ),
{
}

/// A package whose connection has no protocol version any more is not
/// written. If it is a disconnect notice and the session cache still knows
/// the connection, the disconnect procedure is asked for once, and the
/// report shows no response time.
pub proof fn lemma_unresolved_disconnect_still_cascades<B>(
    package: ResponsePackage<B>,
    now_ms: u128,
    info: ConnectionInfo,
    ok: bool,
)
    requires
        package.packet.disconnects(),
    ensures
        ({
            let job = job_of(package, now_ms);
            let (first, resolve) = step_spec(Worker::Idle, Event::Package { package, now_ms });
            let (second, lookup) = step_spec(first, Event::Protocol(None));
            let (third, disconnect) = step_spec(second, Event::Session(Some(info)));
            let (last, finish) = step_spec(third, Event::Disconnected { ok });
            &&& resolve == Request::<B>::ResolveProtocol { connection_id: package.connection_id }
            &&& lookup == Request::<B>::LookupSession { connection_id: package.connection_id }
            &&& disconnect == Request::<B>::Disconnect {
                client_id: info.client_id,
                connect_id: info.connect_id,
                server_initiated: true,
            }
            &&& finish == Request::<B>::Finish {
                report: report_of(job, if ok { Cascade::Done } else { Cascade::Failed }),
            }
            &&& report_of(job, Cascade::Done).latency.response_ms is None
            &&& last == Worker::<B>::Idle
        }),
{
}

/// A package that is no disconnect notice, for a connection with a protocol
/// version, is written, timed and then finished, whether the write went well
/// or not, and its report takes its times from the end of the write.
pub proof fn lemma_resolved_package_is_written<B>(
    package: ResponsePackage<B>,
    now_ms: u128,
    version: u8,
    ok: bool,
    end_ms: u128,
)
    requires
        !package.packet.disconnects(),
    ensures
        ({
            let (first, resolve) = step_spec(Worker::Idle, Event::Package { package, now_ms });
            let (second, write) = step_spec(first, Event::Protocol(Some(version)));
            let (third, record) = step_spec(second, Event::Written { ok, now_ms: end_ms });
            let (last, finish) = step_spec(third, Event::Recorded);
            &&& record == Request::<B>::RecordResponse {
                response_ms: elapsed(now_ms, end_ms),
                total_ms: elapsed(package.receive_ms, end_ms),
            }
            &&& resolve == Request::<B>::ResolveProtocol { connection_id: package.connection_id }
            &&& write == Request::<B>::WriteFrame {
                connection_id: package.connection_id,
                frame: FrameWrapper { protocol_version: version, packet: package.packet },
            }
            &&& finish == Request::<B>::Finish {
                report: HandlingReport {
                    connection_id: package.connection_id,
                    latency: latency_of(package.receive_ms, now_ms, Some(end_ms)),
                    write_failed: !ok,
                    cascade: Cascade::NotDue,
                },
            }
            &&& last == Worker::<B>::Idle
        }),
{
}

/// What the collaborators would answer for one package, were they asked.
pub struct Answers {
    /// The registry's answer for the connection's protocol version.
    pub protocol: Option<u8>,
    /// Whether the frame write goes well, and when it ends.
    pub write_ok: bool,
    pub written_ms: u128,
    /// The session cache's answer for the connection.
    pub session: Option<ConnectionInfo>,
    /// Whether the disconnect procedure goes well.
    pub disconnect_ok: bool,
}

/// The event by which a host that has `answers` answers `request`.
pub open spec fn reply<B>(request: Request<B>, answers: Answers) -> Event<B> {
    match request {
        Request::WriteFrame { .. } => Event::Written {
            ok: answers.write_ok,
            now_ms: answers.written_ms,
        },
        Request::RecordResponse { .. } => Event::Recorded,
        Request::LookupSession { .. } => Event::Session(answers.session),
        Request::Disconnect { .. } => Event::Disconnected { ok: answers.disconnect_ok },
        _ => Event::Protocol(answers.protocol),
    }
}

/// Whether `request` asks something of a collaborator.
pub open spec fn asks<B>(request: Request<B>) -> bool {
    request is ResolveProtocol || request is WriteFrame || request is RecordResponse
        || request is LookupSession || request is Disconnect
}

/// Where a worker stands after its host has answered up to `patience`
/// requests in a row, stopping early at the first request that asks nothing
/// of a collaborator.
pub open spec fn drive<B>(worker: Worker<B>, request: Request<B>, answers: Answers, patience: nat) -> (
    Worker<B>,
    Request<B>,
)
    decreases patience,
{
    if patience == 0 || !asks(request) {
        (worker, request)
    } else {
        let (next, asked) = step_spec(worker, reply(request, answers));
        drive(next, asked, answers, (patience - 1) as nat)
    }
}

/// What handling one package comes to, said at once: the write is timed only
/// where a protocol version was found, a write failure counts only where a
/// write was asked for, and the cascade goes by the packet's tag, the session
/// cache and the disconnect procedure, in that order.
pub open spec fn outcome_of<B>(
    package: ResponsePackage<B>,
    dequeue_ms: u128,
    answers: Answers,
) -> HandlingReport {
    HandlingReport {
        connection_id: package.connection_id,
        latency: latency_of(
            package.receive_ms,
            dequeue_ms,
            if answers.protocol is Some {
                Some(answers.written_ms)
            } else {
                None
            },
        ),
        write_failed: answers.protocol is Some && !answers.write_ok,
        cascade: if !package.packet.disconnects() {
            Cascade::NotDue
        } else if answers.session is None {
            Cascade::NoSession
        } else if answers.disconnect_ok {
            Cascade::Done
        } else {
            Cascade::Failed
        },
    }
}

/// Every package is finished, whatever the collaborators answer: a worker
/// that takes a package asks at most five things, then reports what
/// [`outcome_of`] says and waits for input again. No failure of a write or
/// of a disconnect keeps it from getting there.
pub proof fn lemma_every_package_is_finished<B>(
    package: ResponsePackage<B>,
    now_ms: u128,
    answers: Answers,
)
    ensures
        ({
            let (first, asked) = step_spec(Worker::Idle, Event::Package { package, now_ms });
            drive(first, asked, answers, 5) == (
                Worker::<B>::Idle,
                Request::<B>::Finish { report: outcome_of(package, now_ms, answers) },
            )
        }),
{
    reveal_with_fuel(drive, 6);
}

} // verus!
