//! Decisions of a bounded, deadline-aware JSON-RPC transport.
//!
//! A caller supervises one child process. It hands every process event to a
//! [`Transport`], and performs the action that the transport answers with:
//! poll for an event that is already ready, wait for one until the deadline,
//! or deliver an outcome.

use std::collections::VecDeque;

use vstd::prelude::*;
use vstd::string::StringExecFns;

use crate::framing;
use crate::framing::{FrameDecoder, FrameState};
use crate::json;
use crate::json::{json_object, json_text, named, Json, JsonView};
use crate::jsonrpc;
use crate::jsonrpc::{
    decode_body, encode_message, ClientRequestId, EnvelopeLimits, FramingLimits, IncomingMessage,
    IncomingMessageView, JsonRpcError, JsonRpcErrorView, ResponseCorrelator,
    DEFAULT_MAX_PENDING_REQUESTS,
};
use crate::text;
use crate::text::{push_decimal, text_around_number};

verus! {

/// Frozen default maximum process events drained at one orchestration boundary.
///
/// This exceeds the 2,049 8-KiB chunks needed for a maximum-size default
/// inbound body plus its header, leaving room for adjacent lifecycle events.
pub const DEFAULT_MAX_READY_EVENTS: usize = 4096;

/// Frozen default maximum validated messages buffered between caller reads.
pub const DEFAULT_MAX_BUFFERED_MESSAGES: usize = 1024;

/// Frozen default cumulative framed-body bytes retained after validation.
pub const DEFAULT_MAX_BUFFERED_MESSAGE_BYTES: usize = 32 * 1024 * 1024;

/// Limits enforced by an integrated language-server transport.
#[derive(Clone, Copy, Debug, PartialEq, Eq, Structural)]
pub struct TransportLimits {
    /// JSON-RPC framing bounds.
    pub framing: FramingLimits,
    /// JSON-RPC envelope bounds.
    pub envelope: EnvelopeLimits,
    /// Maximum number of requests awaiting a response.
    pub max_pending_requests: usize,
    /// Maximum already-ready process events consumed at one wake boundary.
    pub max_ready_events: usize,
    /// Maximum validated messages buffered between caller reads.
    pub max_buffered_messages: usize,
    /// Maximum cumulative framed-body bytes retained after validation.
    pub max_buffered_message_bytes: usize,
}

/// The bounds that a transport has by default.
pub open spec fn default_limits() -> TransportLimits {
    TransportLimits {
        framing: FramingLimits {
            max_header_bytes: jsonrpc::DEFAULT_MAX_HEADER_BYTES,
            max_inbound_body_bytes: jsonrpc::DEFAULT_MAX_INBOUND_BODY_BYTES,
            max_outbound_body_bytes: jsonrpc::DEFAULT_MAX_OUTBOUND_BODY_BYTES,
        },
        envelope: EnvelopeLimits {
            max_json_depth: jsonrpc::DEFAULT_MAX_JSON_DEPTH,
            max_id_bytes: jsonrpc::DEFAULT_MAX_ID_BYTES,
            max_method_bytes: jsonrpc::DEFAULT_MAX_METHOD_BYTES,
            max_params_bytes: jsonrpc::DEFAULT_MAX_PARAMS_BYTES,
        },
        max_pending_requests: DEFAULT_MAX_PENDING_REQUESTS,
        max_ready_events: DEFAULT_MAX_READY_EVENTS,
        max_buffered_messages: DEFAULT_MAX_BUFFERED_MESSAGES,
        max_buffered_message_bytes: DEFAULT_MAX_BUFFERED_MESSAGE_BYTES,
    }
}

impl Default for TransportLimits {
    fn default() -> (limits: Self)
        ensures
            limits == default_limits(),
    {
        TransportLimits {
            framing: FramingLimits::default(),
            envelope: EnvelopeLimits::default(),
            max_pending_requests: DEFAULT_MAX_PENDING_REQUESTS,
            max_ready_events: DEFAULT_MAX_READY_EVENTS,
            max_buffered_messages: DEFAULT_MAX_BUFFERED_MESSAGES,
            max_buffered_message_bytes: DEFAULT_MAX_BUFFERED_MESSAGE_BYTES,
        }
    }
}

/// How a child process ended.
#[derive(Clone, Debug, PartialEq, Eq)]
pub struct ExitRecord {
    /// The exit code, where the process was not killed by a signal.
    pub code: Option<i32>,
    /// The text of the status.
    pub text: String,
}

/// A worker that moves bytes of one child pipe.
#[derive(Clone, Copy, Debug, PartialEq, Eq, Structural)]
pub enum ProcessWorker {
    /// The writer of child stdin.
    Stdin,
    /// The reader of child stdout.
    Stdout,
    /// The reader of child stderr.
    Stderr,
}

/// Why a worker failed.
#[derive(Clone, Debug, PartialEq, Eq)]
pub enum ProcessFaultKind {
    /// An item did not fit the byte capacity of a queue.
    ResourceLimit {
        /// The queue.
        queue: &'static str,
        /// Bytes of the item.
        item_bytes: usize,
        /// Capacity of the queue.
        capacity_bytes: usize,
    },
    /// A pipe operation failed.
    Io {
        /// The text of the I/O error.
        message: String,
    },
}

/// A failure that a worker reported.
#[derive(Clone, Debug, PartialEq, Eq)]
pub struct ProcessFault {
    /// The worker.
    pub worker: ProcessWorker,
    /// Why it failed.
    pub kind: ProcessFaultKind,
}

/// A process setup, queueing, or cleanup failure.
#[derive(Clone, Debug, PartialEq, Eq)]
pub enum ProcessError {
    /// The executable could not be started.
    Spawn {
        /// The text of the failure.
        message: String,
    },
    /// A worker could not be started.
    SpawnWorker {
        /// The text of the failure.
        message: String,
    },
    /// The process has exited.
    Exited(ExitRecord),
    /// The process no longer reads its stdin.
    StdinClosed,
    /// An operation did not finish by its deadline.
    DeadlineExceeded,
    /// An item did not fit a queue's byte capacity.
    ByteCapacityExceeded {
        /// Bytes of the item.
        item_bytes: usize,
        /// Capacity of the queue.
        capacity_bytes: usize,
    },
    /// Any other failure.
    Other {
        /// The text of the failure.
        message: String,
    },
}

/// An event of a supervised process.
#[derive(Debug, PartialEq, Eq)]
pub enum ProcessEvent {
    /// The process exited.
    Exited(ExitRecord),
    /// A worker failed.
    Fault(ProcessFault),
    /// The process wrote to its stdout.
    Stdout(Vec<u8>),
    /// The process closed its stdout.
    StdoutClosed,
    /// The process closed its stdin.
    StdinClosed,
}

/// A terminal transport, protocol, process, or deadline failure.
#[derive(Clone, Debug, PartialEq, Eq)]
pub enum TransportError {
    /// JSON-RPC framing, decoding, validation, or correlation failed.
    Protocol(JsonRpcError),
    /// The language-server process exited while a message was expected.
    Exited(ExitRecord),
    /// A process worker reported an I/O failure.
    ProcessFault(ProcessFault),
    /// Child stdout closed cleanly between frames while a message was expected.
    StdoutClosed,
    /// Child stdin closed or rejected further writes while a message was expected.
    StdinClosed,
    /// Process setup, queueing, or cleanup failed.
    Process(ProcessError),
    /// No message or higher-precedence event was ready by the deadline.
    DeadlineExceeded,
    /// An integration-level event or message buffer bound was exceeded.
    ResourceLimit {
        /// Resource whose bound was exceeded.
        resource: &'static str,
        /// Configured maximum.
        limit: usize,
    },
}

/// What a [`TransportError`] says, with texts as character sequences where the
/// transport itself wrote them.
pub enum TransportErrorView {
    /// A protocol failure.
    Protocol(JsonRpcErrorView),
    /// An exceeded integration bound.
    ResourceLimit { resource: Seq<char>, limit: usize },
    /// Any other failure.
    Plain(TransportError),
}

impl View for TransportError {
    type V = TransportErrorView;

    open spec fn view(&self) -> TransportErrorView {
        match *self {
            TransportError::Protocol(error) => TransportErrorView::Protocol(error@),
            TransportError::ResourceLimit { resource, limit } => TransportErrorView::ResourceLimit {
                resource: resource@,
                limit,
            },
            other => TransportErrorView::Plain(other),
        }
    }
}

/// The name of a worker.
pub open spec fn worker_text(worker: ProcessWorker) -> Seq<char> {
    match worker {
        ProcessWorker::Stdin => "Stdin"@,
        ProcessWorker::Stdout => "Stdout"@,
        ProcessWorker::Stderr => "Stderr"@,
    }
}

/// The words for an item that does not fit a queue.
pub open spec fn capacity_text(item_bytes: usize, capacity_bytes: usize) -> Seq<char> {
    "item of "@ + text::decimal(item_bytes as nat) + " bytes exceeds the capacity of "@
        + text::decimal(capacity_bytes as nat) + " bytes"@
}

/// Returns the words for an item that does not fit a queue.
fn capacity_words(item_bytes: usize, capacity_bytes: usize) -> (words: String)
    ensures
        words@ == capacity_text(item_bytes, capacity_bytes),
{
    let mut words = text_around_number(
        "item of ",
        item_bytes as u64,
        " bytes exceeds the capacity of ",
    );
    push_decimal(&mut words, capacity_bytes as u64);
    words.append(" bytes");
    words
}

/// The text of a worker's failure.
pub open spec fn fault_text(kind: ProcessFaultKind) -> Seq<char> {
    match kind {
        ProcessFaultKind::ResourceLimit { queue, item_bytes, capacity_bytes } => queue@
            + " queue "@ + capacity_text(item_bytes, capacity_bytes),
        ProcessFaultKind::Io { message } => message@,
    }
}

impl ProcessFaultKind {
    /// Returns the text of this failure.
    pub fn message(&self) -> (text: String)
        ensures
            text@ == fault_text(*self),
    {
        match self {
            ProcessFaultKind::ResourceLimit { queue, item_bytes, capacity_bytes } => {
                let mut text = (*queue).to_owned();
                text.append(" queue ");
                text.append(capacity_words(*item_bytes, *capacity_bytes).as_str());
                text
            },
            ProcessFaultKind::Io { message } => message.clone(),
        }
    }
}

/// The text of a process error.
pub open spec fn process_error_text(error: ProcessError) -> Seq<char> {
    match error {
        ProcessError::Spawn { message } => message@,
        ProcessError::SpawnWorker { message } => message@,
        ProcessError::Exited(status) => status.text@,
        ProcessError::StdinClosed => "stdin closed"@,
        ProcessError::DeadlineExceeded => "deadline exceeded"@,
        ProcessError::ByteCapacityExceeded { item_bytes, capacity_bytes } => capacity_text(
            item_bytes,
            capacity_bytes,
        ),
        ProcessError::Other { message } => message@,
    }
}

impl ProcessError {
    /// Returns the text of this error.
    pub fn message(&self) -> (text: String)
        ensures
            text@ == process_error_text(*self),
    {
        match self {
            ProcessError::Spawn { message } => message.clone(),
            ProcessError::SpawnWorker { message } => message.clone(),
            ProcessError::Exited(status) => status.text.clone(),
            ProcessError::StdinClosed => "stdin closed".to_owned(),
            ProcessError::DeadlineExceeded => "deadline exceeded".to_owned(),
            ProcessError::ByteCapacityExceeded { item_bytes, capacity_bytes } => capacity_words(
                *item_bytes,
                *capacity_bytes,
            ),
            ProcessError::Other { message } => message.clone(),
        }
    }
}

/// The stable text of a transport error.
pub open spec fn transport_error_text(error: TransportError) -> Seq<char> {
    match error {
        TransportError::Protocol(error) => "language-server protocol error: "@
            + jsonrpc::error_text(error@),
        TransportError::Exited(status) => "language server exited unexpectedly: "@ + status.text@,
        TransportError::ProcessFault(fault) => "language-server "@ + worker_text(fault.worker)
            + " worker failed: "@ + fault_text(fault.kind),
        TransportError::StdoutClosed => "language-server stdout closed unexpectedly"@,
        TransportError::StdinClosed => "language-server stdin closed unexpectedly"@,
        TransportError::Process(error) => "language-server process error: "@
            + process_error_text(error),
        TransportError::DeadlineExceeded => "deadline exceeded while waiting for language server"@,
        TransportError::ResourceLimit { resource, limit } => "language-server "@ + resource@
            + " limit of "@ + text::decimal(limit as nat) + " exceeded"@,
    }
}

impl TransportError {
    /// Returns the stable text of this error.
    pub fn message(&self) -> (text: String)
        ensures
            text@ == transport_error_text(*self),
    {
        match self {
            TransportError::Protocol(error) => {
                let mut text = "language-server protocol error: ".to_owned();
                text.append(error.message().as_str());
                text
            },
            TransportError::Exited(status) => {
                let mut text = "language server exited unexpectedly: ".to_owned();
                text.append(status.text.as_str());
                text
            },
            TransportError::ProcessFault(fault) => {
                let mut text = "language-server ".to_owned();
                text.append(
                    match fault.worker {
                        ProcessWorker::Stdin => "Stdin",
                        ProcessWorker::Stdout => "Stdout",
                        ProcessWorker::Stderr => "Stderr",
                    },
                );
                text.append(" worker failed: ");
                text.append(fault.kind.message().as_str());
                text
            },
            TransportError::StdoutClosed =>
                "language-server stdout closed unexpectedly".to_owned(),
            TransportError::StdinClosed => "language-server stdin closed unexpectedly".to_owned(),
            TransportError::Process(error) => {
                let mut text = "language-server process error: ".to_owned();
                text.append(error.message().as_str());
                text
            },
            TransportError::DeadlineExceeded =>
                "deadline exceeded while waiting for language server".to_owned(),
            TransportError::ResourceLimit { resource, limit } => {
                let mut text = "language-server ".to_owned();
                text.append(resource);
                text.append(" limit of ");
                push_decimal(&mut text, *limit as u64);
                text.append(" exceeded");
                text
            },
        }
    }
}

/// The transport failure that a process failure amounts to.
pub open spec fn process_failure(error: ProcessError) -> TransportError {
    match error {
        ProcessError::Exited(status) => TransportError::Exited(status),
        ProcessError::StdinClosed => TransportError::StdinClosed,
        other => TransportError::Process(other),
    }
}

/// Returns the transport failure that a process failure amounts to.
pub fn map_process_error(error: ProcessError) -> (failure: TransportError)
    ensures
        failure == process_failure(error),
{
    match error {
        ProcessError::Exited(status) => TransportError::Exited(status),
        ProcessError::StdinClosed => TransportError::StdinClosed,
        other => TransportError::Process(other),
    }
}

/// Returns whether the ready-event bound is exactly used up.
pub fn should_probe_ready_event_overflow(observed: usize, limit: usize) -> (probe: bool)
    ensures
        probe == (observed == limit),
{
    observed == limit
}

/// A failed pipe or process operation.
#[derive(Debug, PartialEq, Eq)]
pub enum IoCondition {
    /// A worker's fault.
    Fault(ProcessFault),
    /// A process error.
    Process(ProcessError),
}

/// A closed pipe.
#[derive(Clone, Copy, Debug, PartialEq, Eq, Structural)]
pub enum TerminalCondition {
    /// The child closed its stdin.
    StdinClosed,
    /// The child closed its stdout.
    StdoutClosed,
}

/// The failures observed at one orchestration boundary.
#[derive(Debug, PartialEq, Eq)]
pub struct ReadyBatch {
    /// A protocol violation.
    pub protocol_error: Option<JsonRpcError>,
    /// An exceeded integration bound.
    pub integration_resource: Option<(&'static str, usize)>,
    /// An exceeded queue bound.
    pub resource_violation: Option<ProcessFault>,
    /// The process exit.
    pub exit: Option<ExitRecord>,
    /// A closed pipe.
    pub terminal_condition: Option<TerminalCondition>,
    /// A failed pipe or process operation.
    pub io_condition: Option<IoCondition>,
}

/// The mathematical value of a [`ReadyBatch`].
pub struct BatchView {
    pub protocol_error: Option<JsonRpcErrorView>,
    pub integration_resource: Option<(Seq<char>, usize)>,
    pub resource_violation: Option<ProcessFault>,
    pub exit: Option<ExitRecord>,
    pub terminal_condition: Option<TerminalCondition>,
    pub io_condition: Option<IoCondition>,
}

impl View for ReadyBatch {
    type V = BatchView;

    open spec fn view(&self) -> BatchView {
        BatchView {
            protocol_error: match self.protocol_error {
                Some(error) => Some(error@),
                None => None,
            },
            integration_resource: match self.integration_resource {
                Some((resource, limit)) => Some((resource@, limit)),
                None => None,
            },
            resource_violation: self.resource_violation,
            exit: self.exit,
            terminal_condition: self.terminal_condition,
            io_condition: self.io_condition,
        }
    }
}

/// A batch without failures.
pub open spec fn no_failures() -> BatchView {
    BatchView {
        protocol_error: None,
        integration_resource: None,
        resource_violation: None,
        exit: None,
        terminal_condition: None,
        io_condition: None,
    }
}

/// Whether a batch has no failure.
pub open spec fn is_clear(batch: BatchView) -> bool {
    &&& batch.protocol_error is None
    &&& batch.integration_resource is None
    &&& batch.resource_violation is None
    &&& batch.exit is None
    &&& batch.terminal_condition is None
    &&& batch.io_condition is None
}

impl ReadyBatch {
    /// Returns a batch without failures.
    pub fn new() -> (batch: Self)
        ensures
            batch@ == no_failures(),
    {
        ReadyBatch {
            protocol_error: None,
            integration_resource: None,
            resource_violation: None,
            exit: None,
            terminal_condition: None,
            io_condition: None,
        }
    }

    /// Returns whether this batch has no failure.
    pub fn is_empty(&self) -> (empty: bool)
        ensures
            empty == is_clear(self@),
    {
        self.protocol_error.is_none() && self.integration_resource.is_none()
            && self.resource_violation.is_none() && self.exit.is_none()
            && self.terminal_condition.is_none() && self.io_condition.is_none()
    }

    /// Records a failed process operation, unless one is recorded already.
    fn note_process_error(&mut self, error: ProcessError)
        ensures
            final(self)@ == with_process_error(old(self)@, error),
    {
        if self.io_condition.is_none() {
            self.io_condition = Some(IoCondition::Process(error));
        }
    }
}

/// A batch with a failed process operation, unless it has one already.
pub open spec fn with_process_error(batch: BatchView, error: ProcessError) -> BatchView {
    if batch.io_condition is None {
        BatchView { io_condition: Some(IoCondition::Process(error)), ..batch }
    } else {
        batch
    }
}

/// A validated message that waits for its reader.
struct BufferedIncoming {
    message: IncomingMessage,
    body_bytes: usize,
}

/// A waiting message with the bytes of its body.
pub struct Waiting {
    /// The message.
    pub message: IncomingMessageView,
    /// The bytes of its body.
    pub bytes: nat,
}

/// The bytes of all waiting messages.
pub open spec fn waiting_bytes(queue: Seq<Waiting>) -> nat
    decreases queue.len(),
{
    if queue.len() == 0 {
        0
    } else {
        waiting_bytes(queue.drop_last()) + queue.last().bytes
    }
}

/// The mathematical value of a [`Transport`].
#[verifier::ext_equal]
pub struct TransportView {
    /// The limits.
    pub limits: TransportLimits,
    /// The state of the frame decoder, while stdout is read.
    pub decoder: Option<FrameState>,
    /// The request IDs that await a response.
    pub pending: Set<u64>,
    /// The next request ID.
    pub next_id: u64,
    /// The waiting messages, in stream order.
    pub queue: Seq<Waiting>,
}

/// A transport without waiting messages.
pub open spec fn emptied(transport: TransportView) -> TransportView {
    TransportView { queue: Seq::empty(), ..transport }
}

/// A batch with a protocol violation.
pub open spec fn with_protocol_error(batch: BatchView, error: JsonRpcErrorView) -> BatchView {
    BatchView { protocol_error: Some(error), ..batch }
}

/// A batch with an exceeded integration bound.
pub open spec fn with_resource(batch: BatchView, resource: Seq<char>, limit: usize) -> BatchView {
    BatchView { integration_resource: Some((resource, limit)), ..batch }
}

/// Whether taking in a body stopped the batch it came in.
pub open spec fn accepted(
    transport: TransportView,
    batch: BatchView,
    decoded: Result<IncomingMessageView, JsonRpcErrorView>,
    bytes: nat,
) -> (TransportView, BatchView, bool) {
    match decoded {
        Err(error) => (transport, with_protocol_error(batch, error), false),
        Ok(message) => {
            let completed = match message {
                IncomingMessageView::Response { id, .. } => jsonrpc::completion(
                    transport.pending,
                    transport.next_id,
                    id,
                ),
                _ => Ok(()),
            };
            let after = match message {
                IncomingMessageView::Response { id, .. } => TransportView {
                    pending: transport.pending.remove(id@),
                    ..transport
                },
                _ => transport,
            };
            let queue = transport.queue.push(Waiting { message, bytes });
            match completed {
                Err(error) => (
                    after,
                    with_protocol_error(batch, JsonRpcErrorView::Plain(error)),
                    false,
                ),
                Ok(()) => if waiting_bytes(transport.queue) + bytes
                    > transport.limits.max_buffered_message_bytes {
                    (
                        emptied(after),
                        with_resource(
                            batch,
                            "buffered incoming message bytes"@,
                            transport.limits.max_buffered_message_bytes,
                        ),
                        false,
                    )
                } else if queue.len() > transport.limits.max_buffered_messages {
                    (
                        emptied(after),
                        with_resource(
                            batch,
                            "buffered incoming messages"@,
                            transport.limits.max_buffered_messages,
                        ),
                        false,
                    )
                } else {
                    (TransportView { queue, ..after }, batch, true)
                },
            }
        },
    }
}

/// What taking in bodies in order gives; the first that fails ends it.
pub open spec fn accepted_all(
    transport: TransportView,
    batch: BatchView,
    bodies: Seq<Seq<u8>>,
) -> (TransportView, BatchView)
    decreases bodies.len(),
{
    if bodies.len() == 0 {
        (transport, batch)
    } else {
        let decoded = jsonrpc::decoded(
            bodies[0],
            json::parsed_json(bodies[0]),
            transport.limits.envelope,
        );
        match accepted(transport, batch, decoded, bodies[0].len()) {
            (next, next_batch, true) => accepted_all(next, next_batch, bodies.drop_first()),
            (next, next_batch, false) => (next, next_batch),
        }
    }
}

/// What a chunk of stdout does.
pub open spec fn chunk_observed(transport: TransportView, batch: BatchView, chunk: Seq<u8>) -> (
    TransportView,
    BatchView,
) {
    if batch.protocol_error is Some {
        (transport, batch)
    } else {
        match transport.decoder {
            None => (transport, batch),
            Some(state) => match framing::decode_frames(transport.limits.framing, state, chunk) {
                Err(error) => (
                    TransportView {
                        decoder: Some(framing::state_after(transport.limits.framing, state, chunk)),
                        ..transport
                    },
                    with_protocol_error(batch, error@),
                ),
                Ok((next, bodies)) => accepted_all(
                    TransportView { decoder: Some(next), ..transport },
                    batch,
                    bodies,
                ),
            },
        }
    }
}

/// A batch with a closed pipe, unless it has one already.
pub open spec fn with_terminal(batch: BatchView, condition: TerminalCondition) -> BatchView {
    if batch.terminal_condition is None {
        BatchView { terminal_condition: Some(condition), ..batch }
    } else {
        batch
    }
}

/// What the end of stdout does.
pub open spec fn stdout_closed(transport: TransportView, batch: BatchView) -> (
    TransportView,
    BatchView,
) {
    let after = TransportView { decoder: None, ..transport };
    if batch.protocol_error is Some {
        (after, batch)
    } else {
        match transport.decoder {
            Some(state) => match framing::eof_outcome(state) {
                Err(error) => (after, with_protocol_error(batch, error@)),
                Ok(()) => (after, with_terminal(batch, TerminalCondition::StdoutClosed)),
            },
            None => (after, with_terminal(batch, TerminalCondition::StdoutClosed)),
        }
    }
}

/// What a process event does to the transport and to the batch it is in.
pub open spec fn event_observed(transport: TransportView, batch: BatchView, event: ProcessEvent) -> (
    TransportView,
    BatchView,
) {
    match event {
        ProcessEvent::Exited(status) => (transport, BatchView { exit: Some(status), ..batch }),
        ProcessEvent::Fault(fault) => (
            transport,
            if fault.kind is ResourceLimit {
                if batch.resource_violation is None {
                    BatchView { resource_violation: Some(fault), ..batch }
                } else {
                    batch
                }
            } else if batch.io_condition is None {
                BatchView { io_condition: Some(IoCondition::Fault(fault)), ..batch }
            } else {
                batch
            },
        ),
        ProcessEvent::Stdout(bytes) => chunk_observed(transport, batch, bytes@),
        ProcessEvent::StdoutClosed => stdout_closed(transport, batch),
        ProcessEvent::StdinClosed => (
            transport,
            with_terminal(batch, TerminalCondition::StdinClosed),
        ),
    }
}

/// The failure that a batch amounts to, by the frozen precedence.
pub open spec fn batch_failure(batch: BatchView) -> Option<TransportErrorView> {
    if batch.protocol_error is Some {
        Some(TransportErrorView::Protocol(batch.protocol_error->Some_0))
    } else if batch.integration_resource is Some {
        let (resource, limit) = batch.integration_resource->Some_0;
        Some(TransportErrorView::ResourceLimit { resource, limit })
    } else if batch.resource_violation is Some {
        Some(
            TransportErrorView::Plain(
                TransportError::ProcessFault(batch.resource_violation->Some_0),
            ),
        )
    } else if batch.exit is Some {
        Some(TransportErrorView::Plain(TransportError::Exited(batch.exit->Some_0)))
    } else if batch.terminal_condition is Some {
        Some(
            TransportErrorView::Plain(
                match batch.terminal_condition->Some_0 {
                    TerminalCondition::StdinClosed => TransportError::StdinClosed,
                    TerminalCondition::StdoutClosed => TransportError::StdoutClosed,
                },
            ),
        )
    } else if batch.io_condition is Some {
        Some(
            TransportErrorView::Plain(
                match batch.io_condition->Some_0 {
                    IoCondition::Fault(fault) => TransportError::ProcessFault(fault),
                    IoCondition::Process(error) => process_failure(error),
                },
            ),
        )
    } else {
        None
    }
}

/// What a reader gets at the end of a drained batch, and the transport after
/// it: the batch's failure, else the oldest message, else an expired deadline.
pub open spec fn chosen(transport: TransportView, batch: BatchView) -> (
    TransportView,
    Result<IncomingMessageView, TransportErrorView>,
) {
    match batch_failure(batch) {
        Some(failure) => (emptied(transport), Err(failure)),
        None => if transport.queue.len() > 0 {
            (
                TransportView { queue: transport.queue.drop_first(), ..transport },
                Ok(transport.queue[0].message),
            )
        } else {
            (
                transport,
                Err(TransportErrorView::Plain(TransportError::DeadlineExceeded)),
            )
        },
    }
}

/// Whether an outcome has the given value.
pub open spec fn delivers_as(
    outcome: Result<IncomingMessage, TransportError>,
    expected: Result<IncomingMessageView, TransportErrorView>,
) -> bool {
    match outcome {
        Ok(message) => expected == Ok::<IncomingMessageView, TransportErrorView>(message@),
        Err(error) => expected == Err::<IncomingMessageView, TransportErrorView>(error@),
    }
}

/// A bounded synchronous JSON-RPC transport for one supervised process.
///
/// This type deliberately stops below LSP initialization and shutdown
/// semantics. A higher-level client builds the corresponding JSON values and
/// uses this transport for deadline-aware delivery and receipt.
pub struct Transport {
    limits: TransportLimits,
    decoder: Option<FrameDecoder>,
    correlator: ResponseCorrelator,
    incoming: VecDeque<BufferedIncoming>,
    buffered_message_bytes: usize,
}

/// The values of waiting messages.
closed spec fn queue_view(incoming: Seq<BufferedIncoming>) -> Seq<Waiting> {
    Seq::new(
        incoming.len(),
        |i: int| Waiting { message: incoming[i].message@, bytes: incoming[i].body_bytes as nat },
    )
}

impl View for Transport {
    type V = TransportView;

    closed spec fn view(&self) -> TransportView {
        TransportView {
            limits: self.limits,
            decoder: match self.decoder {
                Some(decoder) => Some(decoder@),
                None => None,
            },
            pending: self.correlator.pending_ids(),
            next_id: self.correlator.next(),
            queue: queue_view(self.incoming@),
        }
    }
}

/// The bytes of one more waiting message add up, and so do those of one fewer.
proof fn lemma_waiting_bytes(queue: Seq<Waiting>)
    requires
        queue.len() > 0,
    ensures
        waiting_bytes(queue) == queue[0].bytes + waiting_bytes(queue.drop_first()),
    decreases queue.len(),
{
    let rest = queue.drop_first();
    if queue.len() > 1 {
        lemma_waiting_bytes(queue.drop_last());
        assert(queue.drop_last().drop_first() =~= rest.drop_last());
        assert(rest.last() == queue.last());
    } else {
        assert(rest =~= Seq::<Waiting>::empty());
        assert(queue.drop_last() =~= Seq::<Waiting>::empty());
    }
}

impl Transport {
    /// Whether the decoder and the correlator are sound and the waiting
    /// messages are counted and within their bounds.
    pub closed spec fn wf(&self) -> bool {
        &&& match self.decoder {
            Some(decoder) => decoder.wf() && decoder.framing_limits() == self.limits.framing,
            None => true,
        }
        &&& self.correlator.wf()
        &&& self.correlator.limit() == self.limits.max_pending_requests
        &&& self.buffered_message_bytes == waiting_bytes(self@.queue)
        &&& waiting_bytes(self@.queue) <= self.limits.max_buffered_message_bytes
        &&& self@.queue.len() <= self.limits.max_buffered_messages
        &&& self.limits.max_ready_events > 0
    }

    /// The waiting messages of a well-formed transport are within their
    /// bounds.
    pub proof fn lemma_buffer_is_bounded(&self)
        requires
            self.wf(),
        ensures
            waiting_bytes(self@.queue) <= self@.limits.max_buffered_message_bytes,
            self@.queue.len() <= self@.limits.max_buffered_messages,
            self@.limits.max_ready_events > 0,
            self@.pending.len() <= self@.limits.max_pending_requests,
    {
    }

    /// Creates the transport of a freshly started process.
    ///
    /// # Errors
    ///
    /// Returns a resource error when an integration capacity is zero.
    pub fn new(limits: TransportLimits) -> (transport: Result<Self, TransportError>)
        ensures
            match transport {
                Ok(transport) => {
                    &&& limits.max_ready_events > 0
                    &&& limits.max_buffered_messages > 0
                    &&& limits.max_buffered_message_bytes > 0
                    &&& transport.wf()
                    &&& transport@ == (TransportView {
                        limits,
                        decoder: Some(framing::between_frames()),
                        pending: Set::empty(),
                        next_id: 1,
                        queue: Seq::empty(),
                    })
                },
                Err(error) => {
                    &&& limits.max_ready_events == 0 || limits.max_buffered_messages == 0
                        || limits.max_buffered_message_bytes == 0
                    &&& error@ == (TransportErrorView::ResourceLimit {
                        resource: "configured zero capacity"@,
                        limit: 0,
                    })
                },
            },
    {
        if limits.max_ready_events == 0 || limits.max_buffered_messages == 0
            || limits.max_buffered_message_bytes == 0 {
            return Err(
                TransportError::ResourceLimit { resource: "configured zero capacity", limit: 0 },
            );
        }
        let transport = Transport {
            limits,
            decoder: Some(FrameDecoder::new(limits.framing)),
            correlator: ResponseCorrelator::new(limits.max_pending_requests),
            incoming: VecDeque::new(),
            buffered_message_bytes: 0,
        };
        assert(transport@.queue =~= Seq::<Waiting>::empty());
        Ok(transport)
    }

    /// Serializes and frames one complete JSON-RPC value.
    ///
    /// This low-level method does not register client request IDs. Use
    /// [`Self::send_request`] for requests that expect correlated responses.
    ///
    /// # Errors
    ///
    /// Returns an error for exact outbound-body overflow.
    pub fn send_value(&self, value: &Json) -> (frame: Result<Vec<u8>, TransportError>)
        ensures
            match json::serialized_json(value@) {
                Err(message) => frame matches Err(error) && error@ == TransportErrorView::Protocol(
                    JsonRpcErrorView::MalformedJson { message },
                ),
                Ok(body) => match framing::framed(body, self@.limits.framing) {
                    Ok(bytes) => frame matches Ok(frame) && frame@ == bytes,
                    Err(error) => frame matches Err(refusal) && refusal@
                        == TransportErrorView::Protocol(error@),
                },
            },
    {
        match encode_message(value, self.limits.framing) {
            Ok(frame) => Ok(frame),
            Err(error) => Err(TransportError::Protocol(error)),
        }
    }

    /// Allocates an ID, and constructs the JSON of one client request.
    ///
    /// # Errors
    ///
    /// Returns an error when the pending-request limit or request-ID space is
    /// exhausted.
    pub fn begin_request(&mut self, method: &str, params: Option<Json>) -> (request: Result<
        (ClientRequestId, Json),
        TransportError,
    >)
        requires
            old(self).wf(),
        ensures
            final(self).wf(),
            match jsonrpc::allocation(
                old(self)@.pending,
                old(self)@.next_id,
                old(self)@.limits.max_pending_requests,
            ) {
                Ok(id) => {
                    &&& request matches Ok(request)
                    &&& request.0 == id
                    &&& request.1@ == request_json(id, method@, jsonrpc::optional_json(params))
                    &&& final(self)@ == (TransportView {
                        pending: old(self)@.pending.insert(id@),
                        next_id: (old(self)@.next_id + 1) as u64,
                        ..old(self)@
                    })
                },
                Err(error) => {
                    &&& request matches Err(refusal)
                    &&& refusal@ == TransportErrorView::Protocol(error@)
                    &&& final(self)@ == old(self)@
                },
            },
    {
        let id = match self.correlator.begin_request() {
            Ok(id) => id,
            Err(error) => return Err(TransportError::Protocol(error)),
        };
        let mut members: Vec<(String, Json)> = vec![
            named("jsonrpc", json_text("2.0")),
            named("id", id.to_json()),
            named("method", json_text(method)),
        ];
        let ghost given = jsonrpc::optional_json(params);
        let ghost base = seq![
            ("jsonrpc"@, JsonView::String("2.0"@)),
            ("id"@, json::number_json(id@)),
            ("method"@, JsonView::String(method@)),
        ];
        assert(json::members_view(members@) =~= base);
        if let Some(params) = params {
            members.push(named("params", params));
        }
        assert(json::members_view(members@) =~= match given {
            Some(params) => base.push(("params"@, params)),
            None => base,
        });
        Ok((id, json_object(members)))
    }

    /// Allocates an ID, constructs, and frames one client request.
    ///
    /// A failure after the ID was allocated leaves the ID pending because the
    /// transport outcome is indeterminate; callers must enter cleanup rather
    /// than reuse the session.
    ///
    /// # Errors
    ///
    /// Returns an error when the pending-request limit or request-ID space is
    /// exhausted or serialization exceeds a bound.
    pub fn send_request(&mut self, method: &str, params: Option<Json>) -> (request: Result<
        (ClientRequestId, Vec<u8>),
        TransportError,
    >)
        requires
            old(self).wf(),
        ensures
            final(self).wf(),
            match jsonrpc::allocation(
                old(self)@.pending,
                old(self)@.next_id,
                old(self)@.limits.max_pending_requests,
            ) {
                Ok(id) => {
                    &&& final(self)@ == (TransportView {
                        pending: old(self)@.pending.insert(id@),
                        next_id: (old(self)@.next_id + 1) as u64,
                        ..old(self)@
                    })
                    &&& match json::serialized_json(
                        request_json(id, method@, jsonrpc::optional_json(params)),
                    ) {
                        Err(message) => request matches Err(error) && error@
                            == TransportErrorView::Protocol(
                            JsonRpcErrorView::MalformedJson { message },
                        ),
                        Ok(body) => match framing::framed(body, old(self)@.limits.framing) {
                            Ok(bytes) => request matches Ok(request) && request.0 == id
                                && request.1@ == bytes,
                            Err(error) => request matches Err(refusal) && refusal@
                                == TransportErrorView::Protocol(error@),
                        },
                    }
                },
                Err(error) => {
                    &&& request matches Err(refusal)
                    &&& refusal@ == TransportErrorView::Protocol(error@)
                    &&& final(self)@ == old(self)@
                },
            },
    {
        let (id, value) = match self.begin_request(method, params) {
            Ok(request) => request,
            Err(error) => return Err(error),
        };
        match self.send_value(&value) {
            Ok(frame) => Ok((id, frame)),
            Err(error) => Err(error),
        }
    }

    /// Discards every waiting message.
    fn clear_incoming(&mut self)
        requires
            old(self).wf(),
        ensures
            final(self).wf(),
            final(self)@ == emptied(old(self)@),
    {
        self.incoming.clear();
        self.buffered_message_bytes = 0;
        assert(self@.queue =~= Seq::<Waiting>::empty());
    }

    /// Takes the oldest waiting message.
    fn pop_incoming(&mut self) -> (message: Option<IncomingMessage>)
        requires
            old(self).wf(),
        ensures
            final(self).wf(),
            match message {
                Some(message) => {
                    &&& old(self)@.queue.len() > 0
                    &&& message@ == old(self)@.queue[0].message
                    &&& final(self)@ == (TransportView {
                        queue: old(self)@.queue.drop_first(),
                        ..old(self)@
                    })
                },
                None => old(self)@.queue.len() == 0 && final(self)@ == old(self)@,
            },
    {
        let ghost before = self@.queue;
        match self.incoming.pop_front() {
            Some(buffered) => {
                proof {
                    lemma_waiting_bytes(before);
                    assert(before[0].bytes == buffered.body_bytes);
                    assert(self@.queue =~= before.drop_first());
                }
                self.buffered_message_bytes = self.buffered_message_bytes - buffered.body_bytes;
                Some(buffered.message)
            },
            None => None,
        }
    }

    /// Takes in one decoded body, given the message or the error that it
    /// decoded to. Returns whether the bodies after it are still wanted.
    pub fn accept_message(
        &mut self,
        decoded: Result<IncomingMessage, JsonRpcError>,
        body_bytes: usize,
        ready: &mut ReadyBatch,
    ) -> (goes_on: bool)
        requires
            old(self).wf(),
        ensures
            final(self).wf(),
            (final(self)@, final(ready)@, goes_on) == accepted(
                old(self)@,
                old(ready)@,
                match decoded {
                    Ok(message) => Ok(message@),
                    Err(error) => Err(error@),
                },
                body_bytes as nat,
            ),
    {
        let message = match decoded {
            Ok(message) => message,
            Err(error) => {
                ready.protocol_error = Some(error);
                return false;
            },
        };
        let ghost before = self@;
        if let IncomingMessage::Response(response) = &message {
            match self.correlator.complete(response.id) {
                Ok(()) => {},
                Err(error) => {
                    ready.protocol_error = Some(error);
                    return false;
                },
            }
        }
        let ghost value = message@;
        let within = match self.buffered_message_bytes.checked_add(body_bytes) {
            Some(next_bytes) => next_bytes <= self.limits.max_buffered_message_bytes,
            None => false,
        };
        if !within {
            self.clear_incoming();
            ready.integration_resource =
            Some(("buffered incoming message bytes", self.limits.max_buffered_message_bytes));
            return false;
        }
        if self.incoming.len() >= self.limits.max_buffered_messages {
            self.clear_incoming();
            ready.integration_resource =
            Some(("buffered incoming messages", self.limits.max_buffered_messages));
            return false;
        }
        self.buffered_message_bytes = self.buffered_message_bytes + body_bytes;
        self.incoming.push_back(BufferedIncoming { message, body_bytes });
        proof {
            let queue = before.queue.push(Waiting { message: value, bytes: body_bytes as nat });
            assert(self@.queue =~= queue);
            assert(queue.drop_last() =~= before.queue);
        }
        true
    }

    /// Decodes a chunk of stdout.
    fn decode_chunk(&mut self, bytes: &[u8], ready: &mut ReadyBatch)
        requires
            old(self).wf(),
        ensures
            final(self).wf(),
            (final(self)@, final(ready)@) == chunk_observed(old(self)@, old(ready)@, bytes@),
    {
        if ready.protocol_error.is_some() {
            return;
        }
        let mut decoder = match self.decoder.take() {
            Some(decoder) => decoder,
            None => {
                assert(self@ =~= old(self)@);
                return;
            },
        };
        let pushed = decoder.push(bytes);
        self.decoder = Some(decoder);
        let bodies = match pushed {
            Ok(bodies) => bodies,
            Err(error) => {
                ready.protocol_error = Some(error);
                return;
            },
        };
        let ghost all = framing::bodies_view(bodies@);
        let ghost start = self@;
        let ghost batch = ready@;
        let mut index: usize = 0;
        assert(all.skip(0) =~= all);
        while index < bodies.len()
            invariant
                index <= bodies@.len(),
                all == framing::bodies_view(bodies@),
                self.wf(),
                self@.limits == start.limits,
                chunk_observed(old(self)@, old(ready)@, bytes@) == accepted_all(start, batch, all),
                accepted_all(start, batch, all) == accepted_all(
                    self@,
                    ready@,
                    all.skip(index as int),
                ),
            decreases bodies@.len() - index,
        {
            let body: &Vec<u8> = &bodies[index];
            proof {
                assert(all.skip(index as int)[0] == body@);
                assert(all.skip(index as int).drop_first() =~= all.skip(index + 1));
            }
            let decoded = decode_body(body.as_slice(), self.limits.envelope);
            if !self.accept_message(decoded, body.len(), ready) {
                return;
            }
            index = index + 1;
        }
        assert(all.skip(index as int).len() == 0);
    }

    /// Takes note of the end of stdout.
    fn observe_stdout_closed(&mut self, ready: &mut ReadyBatch)
        requires
            old(self).wf(),
        ensures
            final(self).wf(),
            (final(self)@, final(ready)@) == stdout_closed(old(self)@, old(ready)@),
    {
        let decoder = self.decoder.take();
        if ready.protocol_error.is_some() {
            return;
        }
        if let Some(decoder) = decoder {
            match decoder.finish() {
                Ok(()) => {},
                Err(error) => {
                    ready.protocol_error = Some(error);
                    return;
                },
            }
        }
        if ready.terminal_condition.is_none() {
            ready.terminal_condition = Some(TerminalCondition::StdoutClosed);
        }
    }

    /// Takes note of one process event.
    pub fn observe(&mut self, event: ProcessEvent, ready: &mut ReadyBatch)
        requires
            old(self).wf(),
        ensures
            final(self).wf(),
            (final(self)@, final(ready)@) == event_observed(old(self)@, old(ready)@, event),
    {
        match event {
            ProcessEvent::Exited(status) => {
                ready.exit = Some(status);
            },
            ProcessEvent::Fault(fault) => {
                let over_limit = match &fault.kind {
                    ProcessFaultKind::ResourceLimit { .. } => true,
                    ProcessFaultKind::Io { .. } => false,
                };
                if over_limit {
                    if ready.resource_violation.is_none() {
                        ready.resource_violation = Some(fault);
                    }
                } else if ready.io_condition.is_none() {
                    ready.io_condition = Some(IoCondition::Fault(fault));
                }
            },
            ProcessEvent::Stdout(bytes) => {
                self.decode_chunk(bytes.as_slice(), ready);
            },
            ProcessEvent::StdoutClosed => {
                self.observe_stdout_closed(ready);
            },
            ProcessEvent::StdinClosed => {
                if ready.terminal_condition.is_none() {
                    ready.terminal_condition = Some(TerminalCondition::StdinClosed);
                }
            },
        }
    }

    /// Decides what a reader gets at the end of a drained batch.
    pub fn choose_outcome(&mut self, ready: ReadyBatch) -> (outcome: Result<
        IncomingMessage,
        TransportError,
    >)
        requires
            old(self).wf(),
        ensures
            final(self).wf(),
            final(self)@ == chosen(old(self)@, ready@).0,
            delivers_as(outcome, chosen(old(self)@, ready@).1),
    {
        if let Some(error) = ready.protocol_error {
            self.clear_incoming();
            return Err(TransportError::Protocol(error));
        }
        if let Some((resource, limit)) = ready.integration_resource {
            self.clear_incoming();
            return Err(TransportError::ResourceLimit { resource, limit });
        }
        if let Some(fault) = ready.resource_violation {
            self.clear_incoming();
            return Err(TransportError::ProcessFault(fault));
        }
        if let Some(status) = ready.exit {
            self.clear_incoming();
            return Err(TransportError::Exited(status));
        }
        if let Some(condition) = ready.terminal_condition {
            self.clear_incoming();
            return Err(
                match condition {
                    TerminalCondition::StdinClosed => TransportError::StdinClosed,
                    TerminalCondition::StdoutClosed => TransportError::StdoutClosed,
                },
            );
        }
        if let Some(condition) = ready.io_condition {
            self.clear_incoming();
            return Err(
                match condition {
                    IoCondition::Fault(fault) => TransportError::ProcessFault(fault),
                    IoCondition::Process(error) => map_process_error(error),
                },
            );
        }
        match self.pop_incoming() {
            Some(message) => Ok(message),
            None => Err(TransportError::DeadlineExceeded),
        }
    }

    /// Returns whether a frame is partly decoded.
    fn is_mid_frame(&self) -> (mid_frame: bool)
        ensures
            mid_frame == mid_frame_of(self@),
    {
        match &self.decoder {
            Some(decoder) => decoder.is_mid_frame(),
            None => false,
        }
    }
}

/// Whether a frame is partly decoded.
pub open spec fn mid_frame_of(transport: TransportView) -> bool {
    transport.decoder matches Some(state) && state != framing::between_frames()
}

/// The JSON of a client request.
pub open spec fn request_json(
    id: ClientRequestId,
    method: Seq<char>,
    params: Option<JsonView>,
) -> JsonView {
    let base = seq![
        ("jsonrpc"@, JsonView::String("2.0"@)),
        ("id"@, json::number_json(id@)),
        ("method"@, JsonView::String(method)),
    ];
    JsonView::Object(
        match params {
            Some(params) => base.push(("params"@, params)),
            None => base,
        },
    )
}

/// Which part of receiving one message is under way.
#[derive(Clone, Copy, Debug, PartialEq, Eq, Structural)]
pub enum ReceivePhase {
    /// The drain before any wait.
    First,
    /// The drain after a wait.
    Woken,
    /// The drain after the deadline.
    Last,
    /// The drain after a failed wait.
    Failed,
}

/// The progress of receiving one message.
#[derive(Debug, PartialEq, Eq)]
pub struct Receive {
    /// The part under way.
    phase: ReceivePhase,
    /// The failures observed in this drain.
    batch: ReadyBatch,
    /// The events observed in this drain.
    observed: usize,
    /// Whether the next event would exceed the ready-event bound.
    probing: bool,
    /// Why the wait failed.
    failure: Option<ProcessError>,
}

/// The mathematical value of a [`Receive`].
pub struct ReceiveView {
    pub phase: ReceivePhase,
    pub batch: BatchView,
    pub observed: nat,
    pub probing: bool,
    pub failure: Option<ProcessError>,
}

impl View for Receive {
    type V = ReceiveView;

    closed spec fn view(&self) -> ReceiveView {
        ReceiveView {
            phase: self.phase,
            batch: self.batch@,
            observed: self.observed as nat,
            probing: self.probing,
            failure: self.failure,
        }
    }
}

/// Whether a drain has not passed the ready-event bound, and probes it exactly
/// when it is used up.
pub open spec fn is_receiving(receive: ReceiveView, limits: TransportLimits) -> bool {
    &&& receive.observed <= limits.max_ready_events
    &&& receive.probing == (receive.observed == limits.max_ready_events)
}

/// The start of a drain.
pub open spec fn drain_start(phase: ReceivePhase, failure: Option<ProcessError>) -> ReceiveView {
    ReceiveView { phase, batch: no_failures(), observed: 0, probing: false, failure }
}

impl Receive {
    /// Begins receiving a message.
    pub fn new() -> (receive: Self)
        ensures
            receive@ == drain_start(ReceivePhase::First, None),
    {
        Receive::drain(ReceivePhase::First, None)
    }

    /// Begins a drain.
    fn drain(phase: ReceivePhase, failure: Option<ProcessError>) -> (receive: Self)
        ensures
            receive@ == drain_start(phase, failure),
    {
        Receive { phase, batch: ReadyBatch::new(), observed: 0, probing: false, failure }
    }
}

/// What the caller found out.
#[derive(Debug, PartialEq, Eq)]
pub enum ReceiveInput {
    /// Nothing yet: receiving begins.
    Begin,
    /// A poll found an event, or none.
    Polled(Option<ProcessEvent>),
    /// A poll failed.
    PollFailed(ProcessError),
    /// A wait found an event.
    Woken(ProcessEvent),
    /// A wait reached the deadline.
    TimedOut,
    /// A wait failed.
    WaitFailed(ProcessError),
}

/// What the caller is to do next.
#[derive(Debug, PartialEq)]
pub enum ReceiveAction {
    /// Take an event that is ready now, without waiting.
    Poll,
    /// Wait for an event until the deadline.
    Wait,
    /// Stop, and return this outcome.
    Deliver(Result<IncomingMessage, TransportError>),
}

/// The mathematical value of a [`ReceiveAction`].
pub enum ReceiveActionView {
    Poll,
    Wait,
    Deliver(Result<IncomingMessageView, TransportErrorView>),
}

/// Whether an action has the given value.
pub open spec fn acts_as(action: ReceiveAction, expected: ReceiveActionView) -> bool {
    match action {
        ReceiveAction::Poll => expected is Poll,
        ReceiveAction::Wait => expected is Wait,
        ReceiveAction::Deliver(outcome) => expected is Deliver && delivers_as(
            outcome,
            expected->Deliver_0,
        ),
    }
}

/// What an input does to the transport and to the drain it is in, and whether
/// the drain ends with it.
pub open spec fn input_taken(transport: TransportView, receive: ReceiveView, input: ReceiveInput) -> (
    TransportView,
    ReceiveView,
    bool,
) {
    match input {
        ReceiveInput::Begin => (transport, receive, false),
        ReceiveInput::Polled(None) => (transport, receive, true),
        ReceiveInput::Polled(Some(event)) => if receive.probing {
            (
                transport,
                ReceiveView {
                    batch: if receive.batch.integration_resource is None {
                        with_resource(
                            receive.batch,
                            "ready process events"@,
                            transport.limits.max_ready_events,
                        )
                    } else {
                        receive.batch
                    },
                    ..receive
                },
                true,
            )
        } else {
            let (next, batch) = event_observed(transport, receive.batch, event);
            (next, ReceiveView { batch, observed: receive.observed + 1, ..receive }, false)
        },
        ReceiveInput::PollFailed(error) => (
            transport,
            ReceiveView { batch: with_process_error(receive.batch, error), ..receive },
            true,
        ),
        ReceiveInput::Woken(event) => {
            let (next, batch) = event_observed(transport, no_failures(), event);
            (
                next,
                ReceiveView { batch, observed: 1, ..drain_start(ReceivePhase::Woken, None) },
                false,
            )
        },
        ReceiveInput::TimedOut => (
            transport,
            drain_start(
                if receive.phase == ReceivePhase::First {
                    ReceivePhase::Woken
                } else {
                    ReceivePhase::Last
                },
                None,
            ),
            false,
        ),
        ReceiveInput::WaitFailed(error) => (
            transport,
            drain_start(ReceivePhase::Failed, Some(error)),
            false,
        ),
    }
}

/// Whether a drain ends because the deadline passed with something to report.
pub open spec fn drain_is_over(transport: TransportView, receive: ReceiveView, expired: bool) -> bool {
    &&& receive.observed != transport.limits.max_ready_events
    &&& expired
    &&& !is_clear(receive.batch) || transport.queue.len() > 0
}

/// A drain that polls once more: past the ready-event bound, to probe it.
pub open spec fn polling(transport: TransportView, receive: ReceiveView) -> ReceiveView {
    ReceiveView { probing: receive.observed == transport.limits.max_ready_events, ..receive }
}

/// What the caller is to do at the end of a drain.
pub open spec fn drain_ended(transport: TransportView, receive: ReceiveView, expired: bool) -> (
    TransportView,
    ReceiveView,
    ReceiveActionView,
) {
    let batch = match (receive.phase, receive.failure) {
        (ReceivePhase::Failed, Some(error)) => with_process_error(receive.batch, error),
        _ => receive.batch,
    };
    let settled = !is_clear(batch) || transport.queue.len() > 0;
    let (after, outcome) = chosen(transport, batch);
    let reset = drain_start(receive.phase, None);
    match receive.phase {
        ReceivePhase::First => if settled {
            (after, reset, ReceiveActionView::Deliver(outcome))
        } else {
            (transport, reset, ReceiveActionView::Wait)
        },
        ReceivePhase::Woken => if settled {
            (after, reset, ReceiveActionView::Deliver(outcome))
        } else if mid_frame_of(transport) && !expired {
            (transport, reset, ReceiveActionView::Wait)
        } else {
            (transport, drain_start(ReceivePhase::Last, None), ReceiveActionView::Poll)
        },
        ReceivePhase::Last | ReceivePhase::Failed => (
            after,
            reset,
            ReceiveActionView::Deliver(outcome),
        ),
    }
}

/// The next state and action after an input, where `expired` says whether the
/// deadline has passed.
pub open spec fn received(
    transport: TransportView,
    receive: ReceiveView,
    input: ReceiveInput,
    expired: bool,
) -> (TransportView, ReceiveView, ReceiveActionView) {
    let (next, drained, ended) = input_taken(transport, receive, input);
    if ended || drain_is_over(next, drained, expired) {
        drain_ended(next, drained, expired)
    } else {
        (next, polling(next, drained), ReceiveActionView::Poll)
    }
}

impl Transport {
    /// Decides what to do at the end of a drain.
    fn end_drain(&mut self, receive: &mut Receive, expired: bool) -> (action: ReceiveAction)
        requires
            old(self).wf(),
        ensures
            final(self).wf(),
            final(self)@ == drain_ended(old(self)@, old(receive)@, expired).0,
            final(receive)@ == drain_ended(old(self)@, old(receive)@, expired).1,
            acts_as(action, drain_ended(old(self)@, old(receive)@, expired).2),
    {
        let phase = receive.phase;
        let mut fresh = Receive::drain(phase, None);
        std::mem::swap(receive, &mut fresh);
        let Receive { phase: _, batch, observed: _, probing: _, failure } = fresh;
        let mut ready = batch;
        if phase == ReceivePhase::Failed {
            if let Some(error) = failure {
                ready.note_process_error(error);
            }
        }
        let settled = !ready.is_empty() || self.incoming.len() > 0;
        match phase {
            ReceivePhase::First => if settled {
                ReceiveAction::Deliver(self.choose_outcome(ready))
            } else {
                ReceiveAction::Wait
            },
            ReceivePhase::Woken => if settled {
                ReceiveAction::Deliver(self.choose_outcome(ready))
            } else if self.is_mid_frame() && !expired {
                // The observed chunk can be one fragment of a larger inbound
                // frame whose remainder is still in flight.
                ReceiveAction::Wait
            } else {
                *receive = Receive::drain(ReceivePhase::Last, None);
                ReceiveAction::Poll
            },
            ReceivePhase::Last => ReceiveAction::Deliver(self.choose_outcome(ready)),
            ReceivePhase::Failed => ReceiveAction::Deliver(self.choose_outcome(ready)),
        }
    }

    /// Receives the next validated incoming message, one decision at a time.
    ///
    /// At every wake boundary all events that are already ready are drained,
    /// then the frozen precedence applies: protocol/resource violation,
    /// unexpected exit, terminal pipe closure, other I/O fault, validated
    /// message, deadline. Thus an event observed in the final deadline drain
    /// wins over the deadline. Multiple valid messages retain byte-stream order
    /// across calls.
    ///
    /// A partially decoded inbound frame keeps waiting for its remaining
    /// chunks within the active deadline; only a genuinely expired deadline
    /// reports [`TransportError::DeadlineExceeded`].
    pub fn next_incoming(&mut self, receive: &mut Receive, input: ReceiveInput, expired: bool) -> (
        action: ReceiveAction)
        requires
            old(self).wf(),
            is_receiving(old(receive)@, old(self)@.limits),
        ensures
            final(self).wf(),
            final(self)@.limits == old(self)@.limits,
            is_receiving(final(receive)@, final(self)@.limits),
            final(self)@ == received(old(self)@, old(receive)@, input, expired).0,
            final(receive)@ == received(old(self)@, old(receive)@, input, expired).1,
            acts_as(action, received(old(self)@, old(receive)@, input, expired).2),
    {
        proof {
            self.lemma_buffer_is_bounded();
            lemma_observed_limits(self@, receive.batch@, input);
            lemma_observed_limits(self@, no_failures(), input);
        }
        let mut ended = false;
        match input {
            ReceiveInput::Begin => {},
            ReceiveInput::Polled(None) => {
                ended = true;
            },
            ReceiveInput::Polled(Some(event)) => {
                if receive.probing {
                    if receive.batch.integration_resource.is_none() {
                        receive.batch.integration_resource =
                        Some(("ready process events", self.limits.max_ready_events));
                    }
                    ended = true;
                } else {
                    self.observe(event, &mut receive.batch);
                    receive.observed = receive.observed + 1;
                }
            },
            ReceiveInput::PollFailed(error) => {
                receive.batch.note_process_error(error);
                ended = true;
            },
            ReceiveInput::Woken(event) => {
                *receive = Receive::drain(ReceivePhase::Woken, None);
                self.observe(event, &mut receive.batch);
                receive.observed = 1;
            },
            ReceiveInput::TimedOut => {
                let phase = if receive.phase == ReceivePhase::First {
                    ReceivePhase::Woken
                } else {
                    ReceivePhase::Last
                };
                *receive = Receive::drain(phase, None);
            },
            ReceiveInput::WaitFailed(error) => {
                *receive = Receive::drain(ReceivePhase::Failed, Some(error));
            },
        }
        let probing = should_probe_ready_event_overflow(
            receive.observed,
            self.limits.max_ready_events,
        );
        if !ended && !probing && expired && (!receive.batch.is_empty() || self.incoming.len() > 0) {
            ended = true;
        }
        if ended {
            return self.end_drain(receive, expired);
        }
        receive.probing = probing;
        ReceiveAction::Poll
    }
}

/// Events do not change the limits.
proof fn lemma_observed_limits(transport: TransportView, batch: BatchView, input: ReceiveInput)
    ensures
        match input {
            ReceiveInput::Polled(Some(event)) => event_observed(transport, batch, event).0.limits
                == transport.limits,
            ReceiveInput::Woken(event) => event_observed(transport, batch, event).0.limits
                == transport.limits,
            _ => true,
        },
{
    match input {
        ReceiveInput::Polled(Some(event)) => {
            lemma_event_limits(transport, batch, event);
        },
        ReceiveInput::Woken(event) => {
            lemma_event_limits(transport, batch, event);
        },
        _ => {},
    }
}

proof fn lemma_event_limits(transport: TransportView, batch: BatchView, event: ProcessEvent)
    ensures
        event_observed(transport, batch, event).0.limits == transport.limits,
{
    if let ProcessEvent::Stdout(bytes) = event {
        if let Some(state) = transport.decoder {
            match framing::decode_frames(transport.limits.framing, state, bytes@) {
                Ok((next, bodies)) => {
                    lemma_bodies_keep_limits(
                        TransportView { decoder: Some(next), ..transport },
                        batch,
                        bodies,
                    );
                },
                Err(_) => {},
            }
        }
    }
}

proof fn lemma_bodies_keep_limits(
    transport: TransportView,
    batch: BatchView,
    bodies: Seq<Seq<u8>>,
)
    ensures
        accepted_all(transport, batch, bodies).0.limits == transport.limits,
    decreases bodies.len(),
{
    if bodies.len() > 0 {
        let decoded = jsonrpc::decoded(
            bodies[0],
            json::parsed_json(bodies[0]),
            transport.limits.envelope,
        );
        let (next, next_batch, goes_on) = accepted(transport, batch, decoded, bodies[0].len());
        if goes_on {
            lemma_bodies_keep_limits(next, next_batch, bodies.drop_first());
        }
    }
}

/// The frozen precedence: a reader gets a failure whenever one was observed,
/// a protocol violation before every other failure, then an exceeded bound,
/// then the exit, then a closed pipe, then another failed operation; a message
/// only when nothing failed; and an expired deadline only when there is
/// neither.
pub proof fn law_precedence_is_frozen(transport: TransportView, batch: BatchView)
    ensures
        is_clear(batch) <==> batch_failure(batch) is None,
        !is_clear(batch) ==> chosen(transport, batch).1 is Err && chosen(
            transport,
            batch,
        ).0.queue.len() == 0,
        batch.protocol_error is Some ==> chosen(transport, batch).1 == Err::<
            IncomingMessageView,
            TransportErrorView,
        >(TransportErrorView::Protocol(batch.protocol_error->Some_0)),
        batch.protocol_error is None && batch.integration_resource is None
            && batch.resource_violation is None && batch.exit is Some ==> chosen(transport, batch).1
            == Err::<IncomingMessageView, TransportErrorView>(
            TransportErrorView::Plain(TransportError::Exited(batch.exit->Some_0)),
        ),
        is_clear(batch) && transport.queue.len() > 0 ==> chosen(transport, batch).1 == Ok::<
            IncomingMessageView,
            TransportErrorView,
        >(transport.queue[0].message),
        is_clear(batch) && transport.queue.len() == 0 <==> chosen(transport, batch).1 == Err::<
            IncomingMessageView,
            TransportErrorView,
        >(TransportErrorView::Plain(TransportError::DeadlineExceeded)),
{
}

/// A partly decoded frame is waited for: at the end of a drain after a wake,
/// with nothing failed and no message waiting, an unexpired deadline never
/// ends the wait.
pub proof fn law_partial_frames_are_awaited(transport: TransportView, receive: ReceiveView)
    requires
        receive.phase == ReceivePhase::Woken,
        is_clear(receive.batch),
        transport.queue.len() == 0,
        mid_frame_of(transport),
    ensures
        drain_ended(transport, receive, false) == (
            transport,
            drain_start(ReceivePhase::Woken, None),
            ReceiveActionView::Wait,
        ),
{
}

/// Taking in one body keeps the message buffer within its bounds: either the
/// message joins the end of the queue, or the queue is emptied or unchanged
/// and a failure is recorded.
pub proof fn law_buffer_stays_bounded(
    transport: TransportView,
    batch: BatchView,
    decoded: Result<IncomingMessageView, JsonRpcErrorView>,
    bytes: nat,
)
    requires
        waiting_bytes(transport.queue) <= transport.limits.max_buffered_message_bytes,
        transport.queue.len() <= transport.limits.max_buffered_messages,
    ensures
        ({
            let (next, next_batch, goes_on) = accepted(transport, batch, decoded, bytes);
            &&& waiting_bytes(next.queue) <= transport.limits.max_buffered_message_bytes
            &&& next.queue.len() <= transport.limits.max_buffered_messages
            &&& goes_on ==> next_batch == batch && decoded is Ok && next.queue
                == transport.queue.push(Waiting { message: decoded->Ok_0, bytes })
            &&& !goes_on ==> !is_clear(next_batch) && (next.queue == transport.queue
                || next.queue.len() == 0)
        }),
{
    if let Ok(message) = decoded {
        let queue = transport.queue.push(Waiting { message, bytes });
        assert(queue.drop_last() =~= transport.queue);
    }
}

} // verus!
