//! Arbitration of process events and JSON-RPC messages.

use std::collections::VecDeque;

use serde_json::Value;
use srcmv::json::{Json, JsonNumber};
use srcmv::jsonrpc::{FrameSection, IncomingMessage, JsonRpcError};
use srcmv::transport::{
    map_process_error, should_probe_ready_event_overflow, ExitRecord, ProcessError, ProcessEvent,
    ProcessFault, ProcessFaultKind, ProcessWorker, Receive, ReceiveAction, ReceiveInput, Transport,
    TransportError, TransportLimits,
};

/// The library's value of a parsed JSON value.
fn converted(value: &Value) -> Json {
    match value {
        Value::Null => Json::Null,
        Value::Bool(flag) => Json::Bool(*flag),
        Value::Number(number) => Json::Number(match (number.as_u64(), number.as_i64()) {
            (Some(unsigned), _) => JsonNumber::Unsigned(unsigned),
            (None, Some(signed)) => JsonNumber::Negative(signed),
            (None, None) => JsonNumber::Real(number.to_string()),
        }),
        Value::String(text) => Json::String(text.clone()),
        Value::Array(items) => Json::Array(items.iter().map(converted).collect()),
        Value::Object(members) => Json::Object(
            members.iter().map(|(name, member)| (name.clone(), converted(member))).collect(),
        ),
    }
}

/// The library's value of a JSON text.
fn json(text: &str) -> Json {
    let value: Value = serde_json::from_str(text).expect("test JSON should parse");
    converted(&value)
}

/// A process as the transport sees it: events that are ready at once, and
/// events that only a wait brings, one each.
struct Process {
    ready: VecDeque<ProcessEvent>,
    later: VecDeque<ProcessEvent>,
    waits: usize,
}

impl Process {
    fn new(ready: Vec<ProcessEvent>, later: Vec<ProcessEvent>) -> Self {
        Process { ready: ready.into(), later: later.into(), waits: 0 }
    }

    /// Receives one message; a wait that brings nothing reaches the deadline.
    fn receive(&mut self, transport: &mut Transport) -> Result<IncomingMessage, TransportError> {
        let mut receive = Receive::new();
        let mut input = ReceiveInput::Begin;
        let mut expired = false;
        loop {
            match transport.next_incoming(&mut receive, input, expired) {
                ReceiveAction::Deliver(outcome) => return outcome,
                ReceiveAction::Poll => {
                    input = ReceiveInput::Polled(self.ready.pop_front());
                }
                ReceiveAction::Wait => {
                    self.waits += 1;
                    input = match self.later.pop_front() {
                        Some(event) => ReceiveInput::Woken(event),
                        None => {
                            expired = true;
                            ReceiveInput::TimedOut
                        }
                    };
                }
            }
        }
    }
}

fn default_transport() -> Transport {
    Transport::new(TransportLimits::default()).expect("default limits should be accepted")
}

fn body_of(text: &str) -> String {
    let value: Value = serde_json::from_str(text).expect("fixture should parse");
    serde_json::to_string(&value).expect("fixture should serialize")
}

fn frame(text: &str) -> String {
    let body = body_of(text);
    format!("Content-Length: {}\r\n\r\n{body}", body.len())
}

fn output(text: &str) -> ProcessEvent {
    ProcessEvent::Stdout(text.as_bytes().to_vec())
}

fn exited(code: i32) -> ProcessEvent {
    ProcessEvent::Exited(ExitRecord {
        code: Some(code),
        text: format!("exit status: {code}"),
    })
}

fn method(message: &IncomingMessage) -> &str {
    match message {
        IncomingMessage::Notification(notification) => &notification.method,
        IncomingMessage::Request(request) => &request.method,
        IncomingMessage::Response(_) => "",
    }
}

#[test]
fn ready_event_bound_probes_only_after_exact_limit_is_consumed() {
    assert!(!should_probe_ready_event_overflow(2, 3));
    assert!(should_probe_ready_event_overflow(3, 3));
    assert!(!should_probe_ready_event_overflow(4, 3));
}

#[test]
fn default_ready_event_bound_covers_maximum_inbound_body_chunks() {
    const PROCESS_READ_CHUNK_BYTES: usize = 8 * 1024;
    let limits = TransportLimits::default();
    let body_chunks = limits
        .framing
        .max_inbound_body_bytes
        .div_ceil(PROCESS_READ_CHUNK_BYTES);
    let header_chunk = 1;
    assert!(limits.max_ready_events > body_chunks + header_chunk);
}

#[test]
fn outbound_frame_is_consumed_before_successful_inbound_message() {
    let outgoing = r#"{"jsonrpc":"2.0","method":"client/ready","params":{}}"#;
    let incoming = r#"{"jsonrpc":"2.0","method":"server/ready","params":{}}"#;
    let mut transport = default_transport();

    let sent = transport
        .send_value(&json(outgoing))
        .expect("outbound value should be framed");
    assert_eq!(sent, frame(outgoing).into_bytes());
    let mut process = Process::new(Vec::new(), vec![output(&frame(incoming))]);
    let message = process
        .receive(&mut transport)
        .expect("server notification should arrive after request bytes");
    assert!(matches!(
        message,
        IncomingMessage::Notification(notification) if notification.method == "server/ready"
    ));
}

#[test]
fn live_child_closing_stdin_is_a_terminal_transport_condition() {
    let ready = r#"{"jsonrpc":"2.0","method":"server/ready"}"#;
    let payload = "x".repeat(1024 * 1024 + 1);
    let outgoing = format!(
        r#"{{"jsonrpc":"2.0","method":"client/ready","params":{{"payload":"{payload}"}}}}"#
    );
    let mut transport = default_transport();
    let mut process = Process::new(
        Vec::new(),
        vec![output(&frame(ready)), ProcessEvent::StdinClosed],
    );

    process
        .receive(&mut transport)
        .expect("server readiness notification should arrive");
    transport
        .send_value(&json(&outgoing))
        .expect("large outbound value should be framed");
    let event_error = process
        .receive(&mut transport)
        .expect_err("closed stdin should terminate the transport");
    assert_eq!(event_error, TransportError::StdinClosed);

    let synchronous_error = map_process_error(ProcessError::StdinClosed);
    assert_eq!(synchronous_error, TransportError::StdinClosed);
}

#[test]
fn concatenated_valid_messages_preserve_stream_order_across_calls() {
    let first = r#"{"jsonrpc":"2.0","method":"first"}"#;
    let second = r#"{"jsonrpc":"2.0","method":"second"}"#;
    let mut bytes = frame(first);
    bytes.push_str(&frame(second));
    let mut transport = default_transport();
    let mut process = Process::new(vec![output(&bytes)], Vec::new());

    let first_message = process
        .receive(&mut transport)
        .expect("first notification should decode");
    let second_message = process
        .receive(&mut transport)
        .expect("buffered second notification should decode");
    assert_eq!(method(&first_message), "first");
    assert_eq!(method(&second_message), "second");
    assert_eq!(process.waits, 0);
}

#[test]
fn response_for_id_allocated_by_send_request_is_accepted() {
    let response = r#"{"jsonrpc":"2.0","id":1,"result":{"ok":true}}"#;
    let mut transport = default_transport();
    let (request_id, sent) = transport
        .send_request("test/request", Some(json("{}")))
        .expect("request should be registered and framed");
    assert_eq!(
        sent,
        frame(r#"{"jsonrpc":"2.0","id":1,"method":"test/request","params":{}}"#).into_bytes()
    );
    let mut process = Process::new(vec![output(&frame(response))], Vec::new());
    let message = process
        .receive(&mut transport)
        .expect("matching response should be accepted");
    assert!(matches!(
        message,
        IncomingMessage::Response(response) if response.id == request_id
    ));
}

#[test]
fn malformed_header_wins_and_cleanup_reaps_child() {
    let mut transport = default_transport();
    let mut process = Process::new(vec![output("Content-Length nope\r\n\r\n{}")], Vec::new());
    let error = process
        .receive(&mut transport)
        .expect_err("malformed header should fail");
    assert!(matches!(
        error,
        TransportError::Protocol(JsonRpcError::MalformedHeader)
    ));
}

#[test]
fn malformed_json_wins_and_cleanup_reaps_child() {
    let mut transport = default_transport();
    let mut process = Process::new(vec![output("Content-Length: 1\r\n\r\n{")], Vec::new());
    let error = process
        .receive(&mut transport)
        .expect_err("malformed JSON should fail");
    assert!(matches!(
        error,
        TransportError::Protocol(JsonRpcError::MalformedJson { .. })
    ));
}

#[test]
fn oversized_inbound_frame_is_rejected_before_body_arrives() {
    let mut limits = TransportLimits::default();
    limits.framing.max_inbound_body_bytes = 32;
    let mut transport = Transport::new(limits).expect("limits should be accepted");
    let mut process = Process::new(vec![output("Content-Length: 33\r\n\r\n")], Vec::new());
    let error = process
        .receive(&mut transport)
        .expect_err("oversized frame should fail");
    assert!(matches!(
        error,
        TransportError::Protocol(JsonRpcError::InboundBodyTooLarge {
            length: 33,
            limit: 32
        })
    ));
}

#[test]
fn unknown_response_id_is_a_protocol_failure() {
    let response = r#"{"jsonrpc":"2.0","id":1,"result":null}"#;
    let mut transport = default_transport();
    let mut process = Process::new(vec![output(&frame(response))], Vec::new());
    let error = process
        .receive(&mut transport)
        .expect_err("unissued response ID should fail");
    assert!(matches!(
        error,
        TransportError::Protocol(JsonRpcError::UnknownResponseId { .. })
    ));
}

#[test]
fn duplicate_response_in_same_ready_batch_wins_over_first_valid_response() {
    let response = r#"{"jsonrpc":"2.0","id":1,"result":null}"#;
    let mut responses = frame(response);
    responses.push_str(&frame(response));
    let mut transport = default_transport();
    transport
        .send_request("test/request", None)
        .expect("request should be registered and framed");
    let mut process = Process::new(vec![output(&responses)], Vec::new());
    let error = process
        .receive(&mut transport)
        .expect_err("duplicate response should outrank buffered valid response");
    assert!(matches!(
        error,
        TransportError::Protocol(JsonRpcError::DuplicateResponseId { .. })
    ));
}

#[test]
fn clean_early_exit_precedes_stdout_eof() {
    let mut transport = default_transport();
    let mut process = Process::new(vec![ProcessEvent::StdoutClosed, exited(7)], Vec::new());
    let error = process
        .receive(&mut transport)
        .expect_err("early exit should fail");
    assert!(
        matches!(
            &error,
            TransportError::Exited(status) if status.code == Some(7)
        ),
        "unexpected early-exit error: {error:?}"
    );
}

#[test]
fn deadline_is_returned_when_no_process_event_is_ready() {
    let mut transport = default_transport();
    let mut process = Process::new(Vec::new(), Vec::new());
    let error = process
        .receive(&mut transport)
        .expect_err("silent child should time out");
    assert!(matches!(error, TransportError::DeadlineExceeded));
    assert_eq!(process.waits, 1);
}

#[test]
fn malformed_frame_precedes_simultaneously_ready_child_exit() {
    let mut transport = default_transport();
    let mut process = Process::new(
        vec![exited(0), output("Content-Length nope\r\n\r\n{}")],
        Vec::new(),
    );
    let error = process
        .receive(&mut transport)
        .expect_err("framing violation should outrank ready exit");
    assert!(matches!(
        error,
        TransportError::Protocol(JsonRpcError::MalformedHeader)
    ));
}

#[test]
fn inbound_resource_violation_precedes_simultaneously_ready_child_exit() {
    let mut transport = default_transport();
    let mut process = Process::new(
        vec![
            exited(0),
            ProcessEvent::Fault(ProcessFault {
                worker: ProcessWorker::Stdout,
                kind: ProcessFaultKind::ResourceLimit {
                    queue: "inbound",
                    item_bytes: 2,
                    capacity_bytes: 1,
                },
            }),
        ],
        Vec::new(),
    );
    let error = process
        .receive(&mut transport)
        .expect_err("resource violation should outrank ready exit");
    assert!(matches!(
        error,
        TransportError::ProcessFault(ref fault)
            if matches!(
                fault.kind,
                ProcessFaultKind::ResourceLimit {
                    queue: "inbound",
                    item_bytes: 2,
                    capacity_bytes: 1
                }
            )
    ));
}

#[test]
fn continuous_valid_notifications_hit_bounded_message_buffer_promptly() {
    let notification = frame(r#"{"jsonrpc":"2.0","method":"tick"}"#);
    let limits = TransportLimits {
        max_buffered_messages: 4,
        max_ready_events: 16,
        ..TransportLimits::default()
    };
    let mut transport = Transport::new(limits).expect("limits should be accepted");
    let ready = (0..64).map(|_| output(&notification)).collect();
    let error = Process::new(ready, Vec::new())
        .receive(&mut transport)
        .expect_err("continuous producer must hit a bounded integration limit");
    assert!(matches!(
        error,
        TransportError::ResourceLimit {
            resource: "buffered incoming messages",
            limit: 4
        } | TransportError::ResourceLimit {
            resource: "ready process events",
            limit: 16
        }
    ));

    let silent = (0..64).map(|_| output("")).collect();
    let mut transport = Transport::new(limits).expect("limits should be accepted");
    let error = Process::new(silent, Vec::new())
        .receive(&mut transport)
        .expect_err("endless ready events must hit their own bound");
    assert!(matches!(
        error,
        TransportError::ResourceLimit {
            resource: "ready process events",
            limit: 16
        }
    ));
}

#[test]
fn transport_rejects_zero_integration_capacities_before_spawn() {
    let defaults = TransportLimits::default();
    let cases = [
        TransportLimits {
            max_ready_events: 0,
            ..defaults
        },
        TransportLimits {
            max_buffered_messages: 0,
            ..defaults
        },
        TransportLimits {
            max_buffered_message_bytes: 0,
            ..defaults
        },
    ];

    for limits in cases {
        let result = Transport::new(limits);
        assert!(matches!(
            result,
            Err(TransportError::ResourceLimit {
                resource: "configured zero capacity",
                limit: 0
            })
        ));
    }
}

#[test]
fn buffered_message_count_accepts_below_and_at_then_rejects_above() {
    let values = [
        r#"{"jsonrpc":"2.0","method":"one"}"#,
        r#"{"jsonrpc":"2.0","method":"two"}"#,
        r#"{"jsonrpc":"2.0","method":"three"}"#,
    ];
    let two_messages = format!("{}{}", frame(values[0]), frame(values[1]));
    for limit in [3, 2] {
        let limits = TransportLimits {
            max_buffered_messages: limit,
            ..TransportLimits::default()
        };
        let mut transport = Transport::new(limits).expect("bounded transport should start");
        let mut process = Process::new(vec![output(&two_messages)], Vec::new());
        process
            .receive(&mut transport)
            .expect("first notification should fit");
        process
            .receive(&mut transport)
            .expect("second notification should fit");
    }

    let three_messages = format!(
        "{}{}{}",
        frame(values[0]),
        frame(values[1]),
        frame(values[2])
    );
    let limits = TransportLimits {
        max_buffered_messages: 2,
        ..TransportLimits::default()
    };
    let mut transport = Transport::new(limits).expect("bounded transport should start");
    let error = Process::new(vec![output(&three_messages)], Vec::new())
        .receive(&mut transport)
        .expect_err("third ready notification must exceed the two-message limit");
    assert!(matches!(
        error,
        TransportError::ResourceLimit {
            resource: "buffered incoming messages",
            limit: 2
        }
    ));
}

#[test]
fn buffered_message_byte_limit_accepts_at_boundary_and_rejects_above() {
    let first = r#"{"jsonrpc":"2.0","method":"one"}"#;
    let second = r#"{"jsonrpc":"2.0","method":"two"}"#;
    let exact = body_of(first).len() + body_of(second).len();
    let mut bytes = frame(first);
    bytes.push_str(&frame(second));

    let at_limits = TransportLimits {
        max_buffered_message_bytes: exact,
        ..TransportLimits::default()
    };
    let mut at = Transport::new(at_limits).expect("boundary transport should start");
    let mut process = Process::new(vec![output(&bytes)], Vec::new());
    assert!(process.receive(&mut at).is_ok());
    assert!(process.receive(&mut at).is_ok());

    let below_limits = TransportLimits {
        max_buffered_message_bytes: exact - 1,
        ..TransportLimits::default()
    };
    let mut below = Transport::new(below_limits).expect("over-boundary transport should start");
    let error = Process::new(vec![output(&bytes)], Vec::new())
        .receive(&mut below)
        .expect_err("one byte above cumulative bound must fail");
    assert!(matches!(
        error,
        TransportError::ResourceLimit {
            resource: "buffered incoming message bytes",
            limit
        } if limit == exact - 1
    ));
}

fn large_notification() -> String {
    let payload = "x".repeat(20 * 1024);
    format!(r#"{{"jsonrpc":"2.0","method":"server/ready","params":{{"payload":"{payload}"}}}}"#)
}

fn split_frame(text: &str, split: usize) -> (String, String) {
    let framed = frame(text);
    (framed[..split].to_owned(), framed[split..].to_owned())
}

#[test]
fn multi_chunk_frame_is_delivered_within_the_active_deadline() {
    // The tail comes only after further waits, so the decoder holds partial
    // input across wakes.
    let (first_part, second_part) = split_frame(&large_notification(), 4096);
    let mut transport = default_transport();
    let mut process = Process::new(Vec::new(), vec![output(&first_part), output(&second_part)]);

    let message = process
        .receive(&mut transport)
        .expect("the delayed frame remainder should arrive within the deadline");
    assert!(matches!(
        &message,
        IncomingMessage::Notification(notification)
            if notification.method == "server/ready"
                && notification.params.as_ref().is_some_and(|params| {
                    matches!(
                        params.get("payload"),
                        Some(Json::String(payload)) if payload.len() == 20 * 1024
                    )
                })
    ));
    assert_eq!(process.waits, 2);
}

#[test]
fn incomplete_frame_waits_until_the_deadline_before_expiring() {
    let (first_part, _) = split_frame(&large_notification(), 4096);
    let mut transport = default_transport();
    let mut process = Process::new(Vec::new(), vec![output(&first_part)]);

    let result = process.receive(&mut transport);

    assert!(matches!(result, Err(TransportError::DeadlineExceeded)));
    assert_eq!(
        process.waits, 2,
        "a mid-frame wait must not report an early expiry"
    );
}

#[test]
fn deadline_passing_mid_frame_reports_expiry_without_waiting() {
    let (first_part, _) = split_frame(&large_notification(), 4096);
    let mut transport = default_transport();
    let mut process = Process::new(vec![output(&first_part)], Vec::new());

    let result = process.receive(&mut transport);

    assert!(matches!(result, Err(TransportError::DeadlineExceeded)));
    assert_eq!(
        process.waits, 1,
        "an expired deadline must not keep waiting for the frame tail"
    );
}

#[test]
fn failures_are_reported_in_the_frozen_order() {
    let message = frame(r#"{"jsonrpc":"2.0","method":"late"}"#);
    let broken_pipe = || {
        ProcessEvent::Fault(ProcessFault {
            worker: ProcessWorker::Stderr,
            kind: ProcessFaultKind::Io { message: "broken pipe".to_owned() },
        })
    };
    let cases: Vec<(Vec<ProcessEvent>, &str)> = vec![
        (vec![output(&message), broken_pipe()], "fault"),
        (vec![broken_pipe(), ProcessEvent::StdinClosed], "stdin"),
        (vec![broken_pipe(), ProcessEvent::StdoutClosed], "stdout"),
        (vec![ProcessEvent::StdinClosed, exited(1)], "exit"),
        (vec![exited(1), output("Content-Length: 1\r\n\r\n{")], "protocol"),
    ];
    for (events, expected) in cases {
        let error = Process::new(events, Vec::new())
            .receive(&mut default_transport())
            .expect_err("every batch holds a failure");
        let observed = match error {
            TransportError::ProcessFault(_) => "fault",
            TransportError::StdinClosed => "stdin",
            TransportError::StdoutClosed => "stdout",
            TransportError::Exited(_) => "exit",
            TransportError::Protocol(_) => "protocol",
            _ => "other",
        };
        assert_eq!(observed, expected);
    }
}

#[test]
fn a_message_of_the_final_drain_wins_over_the_deadline() {
    let mut transport = default_transport();
    let mut receive = Receive::new();
    assert_eq!(
        transport.next_incoming(&mut receive, ReceiveInput::Begin, false),
        ReceiveAction::Poll
    );
    assert_eq!(
        transport.next_incoming(&mut receive, ReceiveInput::Polled(None), false),
        ReceiveAction::Wait
    );
    assert_eq!(
        transport.next_incoming(&mut receive, ReceiveInput::TimedOut, true),
        ReceiveAction::Poll
    );
    let late = output(&frame(r#"{"jsonrpc":"2.0","method":"late"}"#));
    let action = transport.next_incoming(&mut receive, ReceiveInput::Polled(Some(late)), true);
    assert!(matches!(
        action,
        ReceiveAction::Deliver(Ok(message)) if method(&message) == "late"
    ));
}

#[test]
fn failed_waits_report_the_process_failure() {
    let mut transport = default_transport();
    let mut receive = Receive::new();
    let failure = ProcessError::Other { message: "supervisor stopped".to_owned() };
    transport.next_incoming(&mut receive, ReceiveInput::Begin, false);
    transport.next_incoming(&mut receive, ReceiveInput::Polled(None), false);
    assert_eq!(
        transport.next_incoming(&mut receive, ReceiveInput::WaitFailed(failure.clone()), false),
        ReceiveAction::Poll
    );
    assert_eq!(
        transport.next_incoming(&mut receive, ReceiveInput::Polled(None), false),
        ReceiveAction::Deliver(Err(TransportError::Process(failure)))
    );

    let failure = ProcessError::Other { message: "poll failed".to_owned() };
    let mut receive = Receive::new();
    transport.next_incoming(&mut receive, ReceiveInput::Begin, false);
    assert_eq!(
        transport.next_incoming(&mut receive, ReceiveInput::PollFailed(failure.clone()), false),
        ReceiveAction::Deliver(Err(TransportError::Process(failure)))
    );
}

#[test]
fn stdout_that_ends_inside_a_frame_is_a_protocol_failure() {
    let mut transport = default_transport();
    let error = Process::new(
        vec![output("Content-Length: 2\r\n\r\n{"), ProcessEvent::StdoutClosed],
        Vec::new(),
    )
    .receive(&mut transport)
    .expect_err("a truncated frame should fail");
    assert_eq!(
        error,
        TransportError::Protocol(JsonRpcError::UnexpectedEof { section: FrameSection::Body })
    );
    assert_eq!(error.message(), TransportError::Protocol(JsonRpcError::UnexpectedEof {
        section: FrameSection::Body
    }).message());
}

#[test]
fn pending_requests_are_bounded() {
    let limits = TransportLimits { max_pending_requests: 1, ..TransportLimits::default() };
    let mut transport = Transport::new(limits).expect("limits should be accepted");
    let (first, _) = transport.send_request("one", None).expect("first request fits");
    assert_eq!(first.get(), 1);
    assert_eq!(
        transport.send_request("two", None).map(|(id, _)| id.get()),
        Err(TransportError::Protocol(JsonRpcError::PendingRequestLimit { limit: 1 }))
    );
}
