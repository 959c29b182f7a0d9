//! What the transport makes of events, messages, and waits.

use vstd::prelude::*;

use crate::framing;
use crate::json;
use crate::json::JsonView;
use crate::jsonrpc;
use crate::jsonrpc::{
    ClientRequestId, FrameSection, IncomingMessageView, JsonRpcError, JsonRpcErrorView,
};
use crate::transport;
use crate::transport::{
    BatchView, IoCondition, ProcessError, ProcessEvent, ProcessFaultKind, ReceiveActionView,
    ReceiveInput, ReceivePhase, ReceiveView, TerminalCondition, TransportError,
    TransportErrorView, TransportView, Waiting,
};
use crate::wire_laws;

verus! {

/// Whether two transports differ in their queues at most.
pub open spec fn is_same_but_for_the_queue(left: TransportView, right: TransportView) -> bool {
    &&& left.limits == right.limits
    &&& left.decoder == right.decoder
    &&& left.pending == right.pending
    &&& left.next_id == right.next_id
}

/// Of the failures that were observed the one to report is chosen in this order:
/// a violation of the protocol, an exceeded bound of the transport, an exceeded
/// bound of a queue, the exit, a closed pipe, and any other. Where nothing failed,
/// the message that waited longest is delivered, and only it leaves the queue.
pub proof fn law_failures_have_an_order(before: TransportView, batch: BatchView)
    ensures
        ({
            let (after, outcome) = transport::chosen(before, batch);
            &&& is_same_but_for_the_queue(after, before)
            &&& if let Some(error) = batch.protocol_error {
                after.queue.len() == 0 && outcome == Err::<IncomingMessageView, TransportErrorView>(
                    TransportErrorView::Protocol(error),
                )
            } else if let Some((resource, limit)) = batch.integration_resource {
                after.queue.len() == 0 && outcome == Err::<IncomingMessageView, TransportErrorView>(
                    TransportErrorView::ResourceLimit { resource, limit },
                )
            } else if let Some(fault) = batch.resource_violation {
                after.queue.len() == 0 && outcome == Err::<IncomingMessageView, TransportErrorView>(
                    TransportErrorView::Plain(TransportError::ProcessFault(fault)),
                )
            } else if let Some(status) = batch.exit {
                after.queue.len() == 0 && outcome == Err::<IncomingMessageView, TransportErrorView>(
                    TransportErrorView::Plain(TransportError::Exited(status)),
                )
            } else if let Some(closed) = batch.terminal_condition {
                after.queue.len() == 0 && outcome == Err::<IncomingMessageView, TransportErrorView>(
                    TransportErrorView::Plain(
                        match closed {
                            TerminalCondition::StdinClosed => TransportError::StdinClosed,
                            TerminalCondition::StdoutClosed => TransportError::StdoutClosed,
                        },
                    ),
                )
            } else if let Some(failed) = batch.io_condition {
                after.queue.len() == 0 && outcome == Err::<IncomingMessageView, TransportErrorView>(
                    TransportErrorView::Plain(
                        match failed {
                            IoCondition::Fault(fault) => TransportError::ProcessFault(fault),
                            IoCondition::Process(ProcessError::Exited(status)) =>
                                TransportError::Exited(status),
                            IoCondition::Process(ProcessError::StdinClosed) =>
                                TransportError::StdinClosed,
                            IoCondition::Process(error) => TransportError::Process(error),
                        },
                    ),
                )
            } else if before.queue.len() > 0 {
                &&& outcome == Ok::<IncomingMessageView, TransportErrorView>(
                    before.queue[0].message,
                )
                &&& before.queue == seq![before.queue[0]] + after.queue
            } else {
                &&& after.queue.len() == 0
                &&& outcome == Err::<IncomingMessageView, TransportErrorView>(
                    TransportErrorView::Plain(TransportError::DeadlineExceeded),
                )
            }
        }),
{
    if before.queue.len() > 0 {
        assert(before.queue =~= seq![before.queue[0]] + before.queue.drop_first());
    }
}

/// An exit, a closed pipe, and a fault are recorded for what they are, the first
/// of each but the exit, and change nothing else; only output can bring messages.
pub proof fn law_events_are_recorded_for_what_they_are(
    before: TransportView,
    batch: BatchView,
    event: ProcessEvent,
)
    ensures
        ({
            let (after, noted) = transport::event_observed(before, batch, event);
            match event {
                ProcessEvent::Exited(status) => {
                    &&& after == before
                    &&& noted == BatchView { exit: Some(status), ..batch }
                },
                ProcessEvent::StdinClosed => {
                    &&& after == before
                    &&& batch.terminal_condition is Some ==> noted == batch
                    &&& batch.terminal_condition is None ==> noted == BatchView {
                        terminal_condition: Some(TerminalCondition::StdinClosed),
                        ..batch
                    }
                },
                ProcessEvent::Fault(fault) => {
                    &&& after == before
                    &&& match fault.kind {
                        ProcessFaultKind::ResourceLimit { .. } => {
                            &&& batch.resource_violation is Some ==> noted == batch
                            &&& batch.resource_violation is None ==> noted == BatchView {
                                resource_violation: Some(fault),
                                ..batch
                            }
                        },
                        ProcessFaultKind::Io { .. } => {
                            &&& batch.io_condition is Some ==> noted == batch
                            &&& batch.io_condition is None ==> noted == BatchView {
                                io_condition: Some(IoCondition::Fault(fault)),
                                ..batch
                            }
                        },
                    }
                },
                ProcessEvent::StdoutClosed => {
                    &&& after.decoder is None
                    &&& after.queue == before.queue
                    &&& after.pending == before.pending
                    &&& after.next_id == before.next_id
                    &&& after.limits == before.limits
                    &&& batch.protocol_error is Some ==> noted == batch
                    &&& batch.protocol_error is None ==> match before.decoder {
                        Some(framing::FrameState::Header(header)) if header.len() > 0 => noted
                            == BatchView {
                            protocol_error: Some(
                                JsonRpcErrorView::Plain(
                                    JsonRpcError::UnexpectedEof { section: FrameSection::Header },
                                ),
                            ),
                            ..batch
                        },
                        Some(framing::FrameState::Body { .. }) => noted == BatchView {
                            protocol_error: Some(
                                JsonRpcErrorView::Plain(
                                    JsonRpcError::UnexpectedEof { section: FrameSection::Body },
                                ),
                            ),
                            ..batch
                        },
                        _ => if batch.terminal_condition is Some {
                            noted == batch
                        } else {
                            noted == BatchView {
                                terminal_condition: Some(TerminalCondition::StdoutClosed),
                                ..batch
                            }
                        },
                    }
                },
                ProcessEvent::Stdout(bytes) => {
                    &&& batch.protocol_error is Some ==> after == before && noted == batch
                    &&& noted.exit == batch.exit
                    &&& noted.terminal_condition == batch.terminal_condition
                    &&& noted.resource_violation == batch.resource_violation
                    &&& noted.io_condition == batch.io_condition
                },
            }
        }),
{
    if let ProcessEvent::Stdout(bytes) = event {
        if batch.protocol_error is None && before.decoder is Some {
            let state = before.decoder->Some_0;
            if let Ok((next, bodies)) = framing::decode_frames(
                before.limits.framing,
                state,
                bytes@,
            ) {
                lemma_bodies_keep_other_failures(
                    TransportView { decoder: Some(next), ..before },
                    batch,
                    bodies,
                );
            }
        }
    }
}

proof fn lemma_bodies_keep_other_failures(
    before: TransportView,
    batch: BatchView,
    bodies: Seq<Seq<u8>>,
)
    ensures
        ({
            let noted = transport::accepted_all(before, batch, bodies).1;
            &&& noted.exit == batch.exit
            &&& noted.terminal_condition == batch.terminal_condition
            &&& noted.resource_violation == batch.resource_violation
            &&& noted.io_condition == batch.io_condition
        }),
    decreases bodies.len(),
{
    if bodies.len() > 0 {
        let decoded = jsonrpc::decoded(
            bodies[0],
            json::parsed_json(bodies[0]),
            before.limits.envelope,
        );
        let (next, noted, goes_on) = transport::accepted(before, batch, decoded, bodies[0].len());
        if goes_on {
            lemma_bodies_keep_other_failures(next, noted, bodies.drop_first());
        }
    }
}

/// Whether a waiting message is the one of a body.
pub open spec fn is_message_of(
    waiting: Waiting,
    body: Seq<u8>,
    limits: jsonrpc::EnvelopeLimits,
) -> bool {
    &&& jsonrpc::decoded(body, json::parsed_json(body), limits) == Ok::<
        IncomingMessageView,
        JsonRpcErrorView,
    >(waiting.message)
    &&& waiting.bytes == body.len()
}

/// Where nothing fails, every body that arrived waits as its message, behind what
/// waited before and in the order of arrival.
pub proof fn law_bodies_wait_in_order(
    before: TransportView,
    batch: BatchView,
    bodies: Seq<Seq<u8>>,
)
    requires
        batch.protocol_error is None,
        batch.integration_resource is None,
        transport::accepted_all(before, batch, bodies).1.protocol_error is None,
        transport::accepted_all(before, batch, bodies).1.integration_resource is None,
    ensures
        ({
            let after = transport::accepted_all(before, batch, bodies).0;
            &&& after.queue.len() == before.queue.len() + bodies.len()
            &&& forall|i: int|
                0 <= i < before.queue.len() ==> #[trigger] after.queue[i] == before.queue[i]
            &&& forall|i: int|
                0 <= i < bodies.len() ==> is_message_of(
                    after.queue[before.queue.len() + i],
                    #[trigger] bodies[i],
                    before.limits.envelope,
                )
        }),
    decreases bodies.len(),
{
    if bodies.len() > 0 {
        let decoded = jsonrpc::decoded(
            bodies[0],
            json::parsed_json(bodies[0]),
            before.limits.envelope,
        );
        let (next, noted, goes_on) = transport::accepted(before, batch, decoded, bodies[0].len());
        let rest = bodies.drop_first();
        if goes_on {
            law_bodies_wait_in_order(next, noted, rest);
            let after = transport::accepted_all(before, batch, bodies).0;
            let start = before.queue.len() as int;
            assert(after.queue[start] == next.queue[start]);
            assert(is_message_of(next.queue[start], bodies[0], before.limits.envelope));
            assert forall|i: int| 0 <= i < bodies.len() implies is_message_of(
                after.queue[start + i],
                #[trigger] bodies[i],
                before.limits.envelope,
            ) by {
                if i > 0 {
                    assert(rest[i - 1] == bodies[i]);
                    assert(start + 1 + (i - 1) == start + i);
                }
            }
            assert forall|i: int| 0 <= i < start implies #[trigger] after.queue[i]
                == before.queue[i] by {
                assert(next.queue[i] == before.queue[i]);
            }
        } else {
            assert(noted.protocol_error is Some || noted.integration_resource is Some);
        }
    }
}

/// A message is taken in exactly where it was decoded, answers a pending request
/// if it is a response, and fits the buffer; a response settles its request and
/// no other, and any other message settles none.
pub proof fn law_responses_settle_their_requests(
    before: TransportView,
    batch: BatchView,
    decoded: Result<IncomingMessageView, JsonRpcErrorView>,
    bytes: nat,
)
    ensures
        ({
            let (after, noted, goes_on) = transport::accepted(before, batch, decoded, bytes);
            let fits = transport::waiting_bytes(before.queue) + bytes
                <= before.limits.max_buffered_message_bytes && before.queue.len()
                < before.limits.max_buffered_messages;
            &&& after.limits == before.limits && after.decoder == before.decoder && after.next_id
                == before.next_id
            &&& match decoded {
                Ok(IncomingMessageView::Response { id, payload }) => {
                    &&& goes_on <==> before.pending.contains(id@) && fits
                    &&& after.pending == before.pending.remove(id@)
                    &&& !before.pending.contains(id@) ==> noted.protocol_error is Some
                },
                Ok(_) => (goes_on <==> fits) && after.pending == before.pending,
                Err(error) => !goes_on && after == before && noted.protocol_error == Some(error),
            }
            &&& goes_on ==> noted == batch && after.queue == before.queue.push(
                Waiting { message: decoded->Ok_0, bytes },
            )
            &&& !goes_on && noted.protocol_error is None ==> after.queue.len() == 0
                && noted.integration_resource is Some
        }),
{
}

/// Whether something failed, or a message waits.
pub open spec fn is_settled(state: TransportView, batch: BatchView) -> bool {
    ||| batch.protocol_error is Some
    ||| batch.integration_resource is Some
    ||| batch.resource_violation is Some
    ||| batch.exit is Some
    ||| batch.terminal_condition is Some
    ||| batch.io_condition is Some
    ||| state.queue.len() > 0
}

/// Whether a frame has begun and not ended.
pub open spec fn is_amid_a_frame(state: TransportView) -> bool {
    match state.decoder {
        Some(framing::FrameState::Header(header)) => header.len() > 0,
        Some(framing::FrameState::Body { .. }) => true,
        None => false,
    }
}

/// At the end of a drain what was observed is delivered, by the order of failures;
/// with nothing to deliver a first drain waits, one after a wake waits for the
/// rest of a frame until the deadline and then looks once more, and a last one
/// delivers that the deadline has passed, or why waiting failed.
pub proof fn law_drains_end_with_what_they_observed(
    before: TransportView,
    receive: ReceiveView,
    expired: bool,
)
    ensures
        ({
            let (after, next, action) = transport::drain_ended(before, receive, expired);
            let batch = if receive.phase == ReceivePhase::Failed && receive.failure is Some
                && receive.batch.io_condition is None {
                BatchView {
                    io_condition: Some(IoCondition::Process(receive.failure->Some_0)),
                    ..receive.batch
                }
            } else {
                receive.batch
            };
            let last = receive.phase == ReceivePhase::Last || receive.phase
                == ReceivePhase::Failed;
            if is_settled(before, batch) || last {
                &&& action == ReceiveActionView::Deliver(transport::chosen(before, batch).1)
                &&& after == transport::chosen(before, batch).0
            } else {
                &&& after == before
                &&& if receive.phase == ReceivePhase::First || is_amid_a_frame(before)
                    && !expired {
                    action is Wait && next.phase == receive.phase
                } else {
                    action is Poll && next.phase == ReceivePhase::Last
                }
            }
        }),
{
    if let Some(framing::FrameState::Header(header)) = before.decoder {
        if header.len() == 0 {
            assert(header =~= Seq::<u8>::empty());
        }
    }
}

/// Every event that is polled is observed, up to the bound on ready events; one
/// more is the failure that the bound was exceeded. A wake begins a drain with its
/// event, a timeout begins the next drain, and a failure to poll ends the drain.
pub proof fn law_inputs_are_taken(
    before: TransportView,
    receive: ReceiveView,
    input: ReceiveInput,
)
    ensures
        ({
            let (after, taken, ended) = transport::input_taken(before, receive, input);
            match input {
                ReceiveInput::Begin => after == before && taken == receive && !ended,
                ReceiveInput::Polled(None) => after == before && taken == receive && ended,
                ReceiveInput::Polled(Some(event)) => if receive.probing {
                    &&& after == before && ended
                    &&& taken.batch.integration_resource is Some
                    &&& receive.batch.integration_resource is None
                        ==> taken.batch.integration_resource == Some(
                        ("ready process events"@, before.limits.max_ready_events),
                    )
                } else {
                    &&& !ended
                    &&& (after, taken.batch) == transport::event_observed(
                        before,
                        receive.batch,
                        event,
                    )
                    &&& taken.observed == receive.observed + 1
                    &&& taken.phase == receive.phase
                },
                ReceiveInput::PollFailed(error) => {
                    &&& after == before && ended
                    &&& receive.batch.io_condition is None ==> taken.batch.io_condition == Some(
                        IoCondition::Process(error),
                    )
                    &&& receive.batch.io_condition is Some ==> taken.batch == receive.batch
                },
                ReceiveInput::Woken(event) => {
                    &&& !ended
                    &&& taken.phase == ReceivePhase::Woken
                    &&& taken.observed == 1
                    &&& exists|fresh: BatchView|
                        !is_settled(TransportView { queue: Seq::empty(), ..before }, fresh) && (
                        after,
                        taken.batch,
                    ) == #[trigger] transport::event_observed(before, fresh, event)
                },
                ReceiveInput::TimedOut => {
                    &&& after == before && !ended
                    &&& taken.observed == 0
                    &&& taken.phase == if receive.phase == ReceivePhase::First {
                        ReceivePhase::Woken
                    } else {
                        ReceivePhase::Last
                    }
                },
                ReceiveInput::WaitFailed(error) => {
                    &&& after == before && !ended
                    &&& taken.phase == ReceivePhase::Failed
                    &&& taken.failure == Some(error)
                },
            }
        }),
{
    if let ReceiveInput::Woken(event) = input {
        let (after, taken, ended) = transport::input_taken(before, receive, input);
        assert((after, taken.batch) == transport::event_observed(
            before,
            transport::no_failures(),
            event,
        ));
    }
}

/// A drain goes on until nothing is left to poll; once the deadline has passed it
/// also ends with the first failure or message, unless it has polled as much as
/// it may.
pub proof fn law_drains_go_on(
    before: TransportView,
    receive: ReceiveView,
    input: ReceiveInput,
    expired: bool,
)
    ensures
        ({
            let (taken, noted, ended) = transport::input_taken(before, receive, input);
            let over = ended || (expired && is_settled(taken, noted.batch) && noted.observed
                != taken.limits.max_ready_events);
            let (after, next, action) = transport::received(before, receive, input, expired);
            if over {
                (after, next, action) == transport::drain_ended(taken, noted, expired)
            } else {
                &&& action is Poll
                &&& after == taken
                &&& next.batch == noted.batch
                &&& next.observed == noted.observed
                &&& next.phase == noted.phase
                &&& next.probing <==> noted.observed == taken.limits.max_ready_events
            }
        }),
{
}

/// A request says its version, its number, and its method, and its parameters
/// where it has any, and nothing else.
pub proof fn law_requests_say_what_they_ask(
    id: ClientRequestId,
    method: Seq<char>,
    params: Option<JsonView>,
)
    ensures
        ({
            let value = transport::request_json(id, method, params);
            &&& wire_laws::has(value, "jsonrpc"@, JsonView::String("2.0"@))
            &&& wire_laws::has(value, "id"@, wire_laws::count(id@))
            &&& wire_laws::has(value, "method"@, JsonView::String(method))
            &&& match params {
                Some(params) => wire_laws::has(value, "params"@, params)
                    && value->Object_0.len() == 4,
                None => value->Object_0.len() == 3,
            }
        }),
{
    let members = transport::request_json(id, method, params)->Object_0;
    assert(members.contains(members[0]));
    assert(members.contains(members[1]));
    assert(members.contains(members[2]));
    if params is Some {
        assert(members.contains(members[3]));
    }
}

} // verus!
