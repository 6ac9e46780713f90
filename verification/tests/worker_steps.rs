use response_dispatch::latency::Latency;
use response_dispatch::package::{ConnectionInfo, FrameWrapper, Packet, ResponsePackage};
use response_dispatch::signal::StopSignal;
use response_dispatch::worker::{Cascade, Event, HandlingReport, Job, Request, Worker};

fn session(client: &str, connect_id: u64) -> ConnectionInfo {
    ConnectionInfo { client_id: client.to_string(), connect_id }
}

fn job(disconnect: bool) -> Job {
    Job {
        connection_id: 9,
        disconnect,
        receive_ms: 10,
        dequeue_ms: 25,
        written_ms: Some(40),
        write_failed: false,
    }
}

#[test]
fn new_worker_waits_for_input() {
    let worker: Worker<u8> = Worker::new();
    assert_eq!(worker, Worker::Idle);
    assert!(worker.is_running());
}

#[test]
fn publish_is_resolved_written_and_finished() {
    let worker: Worker<&str> = Worker::new();
    let package = ResponsePackage::new(7, Packet::Other("puback"), 1_000);
    let (worker, request) = worker.step(Event::Package { package, now_ms: 1_040 });
    assert_eq!(request, Request::ResolveProtocol { connection_id: 7 });
    let (worker, request) = worker.step(Event::Protocol(Some(5)));
    assert_eq!(
        request,
        Request::WriteFrame {
            connection_id: 7,
            frame: FrameWrapper { protocol_version: 5, packet: Packet::Other("puback") },
        }
    );
    let (worker, request) = worker.step(Event::Written { ok: true, now_ms: 1_055 });
    assert_eq!(request, Request::RecordResponse { response_ms: 15, total_ms: 55 });
    assert_eq!(
        worker,
        Worker::Recording {
            job: Job {
                connection_id: 7,
                disconnect: false,
                receive_ms: 1_000,
                dequeue_ms: 1_040,
                written_ms: Some(1_055),
                write_failed: false,
            },
        }
    );
    let (worker, request) = worker.step(Event::Recorded);
    assert_eq!(
        request,
        Request::Finish {
            report: HandlingReport {
                connection_id: 7,
                latency: Latency { queue_ms: 40, response_ms: Some(15), total_ms: 55 },
                write_failed: false,
                cascade: Cascade::NotDue,
            },
        }
    );
    assert_eq!(worker, Worker::Idle);
}

#[test]
fn write_failure_is_reported_and_handling_goes_on() {
    let worker: Worker<u8> = Worker::new();
    let package = ResponsePackage::new(3, Packet::Disconnect(0), 50);
    let (worker, _) = worker.step(Event::Package { package, now_ms: 60 });
    let (worker, _) = worker.step(Event::Protocol(Some(4)));
    let (worker, request) = worker.step(Event::Written { ok: false, now_ms: 90 });
    assert_eq!(request, Request::RecordResponse { response_ms: 30, total_ms: 40 });
    let (worker, request) = worker.step(Event::Recorded);
    assert_eq!(request, Request::LookupSession { connection_id: 3 });
    let (worker, request) = worker.step(Event::Session(Some(session("c-3", 77))));
    assert_eq!(
        request,
        Request::Disconnect { client_id: "c-3".to_string(), connect_id: 77, server_initiated: true }
    );
    let (worker, request) = worker.step(Event::Disconnected { ok: true });
    assert_eq!(
        request,
        Request::Finish {
            report: HandlingReport {
                connection_id: 3,
                latency: Latency { queue_ms: 10, response_ms: Some(30), total_ms: 40 },
                write_failed: true,
                cascade: Cascade::Done,
            },
        }
    );
    assert_eq!(worker, Worker::Idle);
}

#[test]
fn unknown_connection_skips_the_write() {
    let worker: Worker<u8> = Worker::new();
    let package = ResponsePackage::new(11, Packet::Other(1), 200);
    let (worker, _) = worker.step(Event::Package { package, now_ms: 230 });
    let (worker, request) = worker.step(Event::Protocol(None));
    assert_eq!(
        request,
        Request::Finish {
            report: HandlingReport {
                connection_id: 11,
                latency: Latency { queue_ms: 30, response_ms: None, total_ms: 30 },
                write_failed: false,
                cascade: Cascade::NotDue,
            },
        }
    );
    assert_eq!(worker, Worker::Idle);
}

#[test]
fn disconnect_for_closed_connection_still_cascades_once() {
    let worker: Worker<u8> = Worker::new();
    let package = ResponsePackage::new(21, Packet::Disconnect(9), 500);
    let mut asked: Vec<Request<u8>> = Vec::new();
    let (worker, request) = worker.step(Event::Package { package, now_ms: 520 });
    asked.push(request);
    let (worker, request) = worker.step(Event::Protocol(None));
    asked.push(request);
    let (worker, request) = worker.step(Event::Session(Some(session("client-21", 4))));
    asked.push(request);
    let (worker, request) = worker.step(Event::Disconnected { ok: true });
    asked.push(request);
    assert_eq!(worker, Worker::Idle);
    assert_eq!(
        asked,
        vec![
            Request::ResolveProtocol { connection_id: 21 },
            Request::LookupSession { connection_id: 21 },
            Request::Disconnect {
                client_id: "client-21".to_string(),
                connect_id: 4,
                server_initiated: true,
            },
            Request::Finish {
                report: HandlingReport {
                    connection_id: 21,
                    latency: Latency { queue_ms: 20, response_ms: None, total_ms: 20 },
                    write_failed: false,
                    cascade: Cascade::Done,
                },
            },
        ]
    );
    assert_eq!(asked.iter().filter(|r| matches!(r, Request::WriteFrame { .. })).count(), 0);
    assert_eq!(asked.iter().filter(|r| matches!(r, Request::Disconnect { .. })).count(), 1);
}

#[test]
fn disconnect_without_session_invokes_nothing() {
    let worker: Worker<u8> = Worker::new();
    let package = ResponsePackage::new(30, Packet::Disconnect(0), 0);
    let (worker, _) = worker.step(Event::Package { package, now_ms: 5 });
    let (worker, _) = worker.step(Event::Protocol(Some(3)));
    let (worker, request) = worker.step(Event::Written { ok: true, now_ms: 8 });
    assert_eq!(request, Request::RecordResponse { response_ms: 3, total_ms: 8 });
    let (worker, request) = worker.step(Event::Recorded);
    assert_eq!(request, Request::LookupSession { connection_id: 30 });
    let (worker, request) = worker.step(Event::Session(None));
    assert_eq!(
        request,
        Request::Finish {
            report: HandlingReport {
                connection_id: 30,
                latency: Latency { queue_ms: 5, response_ms: Some(3), total_ms: 8 },
                write_failed: false,
                cascade: Cascade::NoSession,
            },
        }
    );
    assert_eq!(worker, Worker::Idle);
}

#[test]
fn repeated_disconnect_without_session_is_harmless() {
    let mut worker: Worker<u8> = Worker::new();
    for round in 0..3u128 {
        let package = ResponsePackage::new(30, Packet::Disconnect(0), round);
        let (next, _) = worker.step(Event::Package { package, now_ms: round });
        let (next, _) = next.step(Event::Protocol(None));
        let (next, request) = next.step(Event::Session(None));
        match request {
            Request::Finish { report } => assert_eq!(report.cascade, Cascade::NoSession),
            other => panic!("unexpected request {:?}", other),
        }
        worker = next;
    }
    assert_eq!(worker, Worker::Idle);
}

#[test]
fn failed_cascade_is_reported_not_raised() {
    let worker: Worker<u8> = Worker::LookingUp { job: job(true) };
    let (worker, request) = worker.step(Event::Session(Some(session("x", 1))));
    assert_eq!(worker, Worker::Disconnecting { job: job(true) });
    assert_eq!(
        request,
        Request::Disconnect { client_id: "x".to_string(), connect_id: 1, server_initiated: true }
    );
    let (worker, request) = worker.step(Event::Disconnected { ok: false });
    assert_eq!(
        request,
        Request::Finish {
            report: HandlingReport {
                connection_id: 9,
                latency: Latency { queue_ms: 15, response_ms: Some(15), total_ms: 30 },
                write_failed: false,
                cascade: Cascade::Failed,
            },
        }
    );
    assert_eq!(worker, Worker::Idle);
}

#[test]
fn true_signal_stops_an_idle_worker() {
    let worker: Worker<u8> = Worker::new();
    let (worker, request) = worker.step(Event::Signal(StopSignal::Value(true)));
    assert_eq!(request, Request::Halt);
    assert_eq!(worker, Worker::Stopped);
    assert!(!worker.is_running());
}

#[test]
fn failed_subscription_stops_an_idle_worker() {
    let worker: Worker<u8> = Worker::new();
    let (worker, request) = worker.step(Event::Signal(StopSignal::Failed));
    assert_eq!(request, Request::Halt);
    assert_eq!(worker, Worker::Stopped);
}

#[test]
fn false_signal_keeps_the_worker_waiting() {
    let worker: Worker<u8> = Worker::new();
    let (worker, request) = worker.step(Event::Signal(StopSignal::Value(false)));
    assert_eq!(request, Request::Receive);
    assert_eq!(worker, Worker::Idle);
}

#[test]
fn stopped_worker_handles_nothing_more() {
    let events: Vec<Event<u8>> = vec![
        Event::Package { package: ResponsePackage::new(1, Packet::Other(0), 0), now_ms: 1 },
        Event::Signal(StopSignal::Value(false)),
        Event::Signal(StopSignal::Value(true)),
        Event::Protocol(Some(4)),
        Event::Written { ok: true, now_ms: 2 },
        Event::Recorded,
        Event::Session(None),
        Event::Disconnected { ok: true },
    ];
    let mut worker: Worker<u8> = Worker::Stopped;
    for event in events {
        let (next, request) = worker.step(event);
        assert_eq!(request, Request::Halt);
        assert_eq!(next, Worker::Stopped);
        worker = next;
    }
}

#[test]
fn stray_answers_are_handed_back() {
    let worker: Worker<u8> = Worker::new();
    let (worker, request) = worker.step(Event::Protocol(Some(4)));
    assert_eq!(request, Request::Rejected { event: Event::Protocol(Some(4)) });
    assert_eq!(worker, Worker::Idle);

    let package = ResponsePackage::new(2, Packet::Other(6), 0);
    let (worker, _) = worker.step(Event::Package { package: package.clone(), now_ms: 3 });
    let second = ResponsePackage::new(8, Packet::Other(7), 1);
    let (worker, request) = worker.step(Event::Package { package: second.clone(), now_ms: 4 });
    assert_eq!(request, Request::Rejected { event: Event::Package { package: second, now_ms: 4 } });
    assert_eq!(worker, Worker::Resolving { package, dequeue_ms: 3 });

    let (worker, request) = worker.step(Event::Signal(StopSignal::Value(true)));
    assert_eq!(request, Request::Rejected { event: Event::Signal(StopSignal::Value(true)) });
    assert!(worker.is_running());

    let writing: Worker<u8> = Worker::Writing { job: job(false) };
    let (writing, request) = writing.step(Event::Session(None));
    assert_eq!(request, Request::Rejected { event: Event::Session(None) });
    assert_eq!(writing, Worker::Writing { job: job(false) });

    let recording: Worker<u8> = Worker::Recording { job: job(true) };
    let (recording, request) = recording.step(Event::Written { ok: true, now_ms: 41 });
    assert_eq!(request, Request::Rejected { event: Event::Written { ok: true, now_ms: 41 } });
    assert_eq!(recording, Worker::Recording { job: job(true) });

    let looking: Worker<u8> = Worker::LookingUp { job: job(true) };
    let (looking, request) = looking.step(Event::Disconnected { ok: true });
    assert_eq!(request, Request::Rejected { event: Event::Disconnected { ok: true } });
    assert_eq!(looking, Worker::LookingUp { job: job(true) });

    let disconnecting: Worker<u8> = Worker::Disconnecting { job: job(true) };
    let (disconnecting, request) = disconnecting.step(Event::Written { ok: true, now_ms: 0 });
    assert_eq!(request, Request::Rejected { event: Event::Written { ok: true, now_ms: 0 } });
    assert_eq!(disconnecting, Worker::Disconnecting { job: job(true) });
}

#[test]
fn packet_tag_is_read() {
    assert!(Packet::Disconnect(1u8).is_disconnect());
    assert!(!Packet::Other(1u8).is_disconnect());
}

#[test]
fn package_keeps_what_it_was_made_with() {
    let package = ResponsePackage::new(5, Packet::Other("x"), 77);
    assert_eq!(package.connection_id, 5);
    assert_eq!(package.packet, Packet::Other("x"));
    assert_eq!(package.receive_ms, 77);
}

#[test]
fn response_is_timed_before_the_cascade() {
    let worker: Worker<u8> = Worker::new();
    let package = ResponsePackage::new(12, Packet::Disconnect(0), 100);
    let mut asked: Vec<Request<u8>> = Vec::new();
    let (worker, request) = worker.step(Event::Package { package, now_ms: 110 });
    asked.push(request);
    let (worker, request) = worker.step(Event::Protocol(Some(5)));
    asked.push(request);
    let (worker, request) = worker.step(Event::Written { ok: true, now_ms: 125 });
    asked.push(request);
    let (worker, request) = worker.step(Event::Recorded);
    asked.push(request);
    let (worker, request) = worker.step(Event::Session(Some(session("c-12", 2))));
    asked.push(request);
    let (worker, request) = worker.step(Event::Disconnected { ok: true });
    asked.push(request);
    assert_eq!(worker, Worker::Idle);
    assert_eq!(
        asked,
        vec![
            Request::ResolveProtocol { connection_id: 12 },
            Request::WriteFrame {
                connection_id: 12,
                frame: FrameWrapper { protocol_version: 5, packet: Packet::Disconnect(0) },
            },
            Request::RecordResponse { response_ms: 15, total_ms: 25 },
            Request::LookupSession { connection_id: 12 },
            Request::Disconnect {
                client_id: "c-12".to_string(),
                connect_id: 2,
                server_initiated: true,
            },
            Request::Finish {
                report: HandlingReport {
                    connection_id: 12,
                    latency: Latency { queue_ms: 10, response_ms: Some(15), total_ms: 25 },
                    write_failed: false,
                    cascade: Cascade::Done,
                },
            },
        ]
    );
}

#[test]
fn unwritten_package_has_no_response_timing() {
    let worker: Worker<u8> = Worker::new();
    let package = ResponsePackage::new(13, Packet::Disconnect(0), 100);
    let (worker, _) = worker.step(Event::Package { package, now_ms: 110 });
    let (worker, request) = worker.step(Event::Protocol(None));
    assert_eq!(request, Request::LookupSession { connection_id: 13 });
    let (worker, request) = worker.step(Event::Recorded);
    assert_eq!(request, Request::Rejected { event: Event::Recorded });
    assert_eq!(
        worker,
        Worker::LookingUp {
            job: Job {
                connection_id: 13,
                disconnect: true,
                receive_ms: 100,
                dequeue_ms: 110,
                written_ms: None,
                write_failed: false,
            },
        }
    );
}
