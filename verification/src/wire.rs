//! Bounded single-line JSON output, and the pieces that wire records share.

use vstd::prelude::*;
use vstd::string::StringExecFns;

use crate::json;
use crate::json::{json_array, json_number, json_object, json_text, named, Json, JsonView};
use crate::order;
use crate::order::Rank;
use crate::text_map;
use crate::text_map::TextMap;

verus! {

/// The largest serialized response, its line feed included.
pub const MAX_RESPONSE_BYTES: u64 = 16_777_216;

/// An array of texts.
pub open spec fn texts_json(texts: Seq<Seq<char>>) -> JsonView {
    JsonView::Array(Seq::new(texts.len(), |i: int| JsonView::String(texts[i])))
}

/// A text, or `null`.
pub open spec fn optional_text_json(text: Option<Seq<char>>) -> JsonView {
    match text {
        Some(text) => JsonView::String(text),
        None => JsonView::Null,
    }
}

/// A nonnegative integer, or `null`.
pub open spec fn optional_number_json(number: Option<u64>) -> JsonView {
    match number {
        Some(number) => json::number_json(number),
        None => JsonView::Null,
    }
}

/// Returns an array of texts.
pub fn json_texts(texts: &Vec<String>) -> (array: Json)
    ensures
        array@ == texts_json(order::path_view(texts@)),
{
    let mut items: Vec<Json> = Vec::new();
    let mut index: usize = 0;
    while index < texts.len()
        invariant
            index <= texts@.len(),
            items@.len() == index,
            forall|i: int| 0 <= i < index ==> (#[trigger] items@[i])@ == JsonView::String(texts@[i]@),
        decreases texts@.len() - index,
    {
        items.push(json_text(texts[index].as_str()));
        index = index + 1;
    }
    let array = json_array(items);
    assert(array@->Array_0 =~= texts_json(order::path_view(texts@))->Array_0);
    array
}

/// Returns a text, or `null`.
pub fn json_optional_text(text: &Option<String>) -> (value: Json)
    ensures
        value@ == optional_text_json(order::optional_text(*text)),
{
    match text {
        Some(text) => json_text(text.as_str()),
        None => Json::Null,
    }
}

/// Returns a nonnegative integer, or `null`.
pub fn json_optional_number(number: Option<u64>) -> (value: Json)
    ensures
        value@ == optional_number_json(number),
{
    match number {
        Some(number) => json_number(number),
        None => Json::Null,
    }
}

/// Texts in a row, with a separator between them.
pub open spec fn joined(texts: Seq<Seq<char>>, separator: Seq<char>) -> Seq<char>
    decreases texts.len(),
{
    if texts.len() == 0 {
        Seq::empty()
    } else if texts.len() == 1 {
        texts[0]
    } else {
        joined(texts.drop_last(), separator) + separator + texts.last()
    }
}

/// Appends texts in a row, with a separator between them.
pub fn push_joined(out: &mut String, texts: &Vec<String>, separator: &str)
    ensures
        final(out)@ == old(out)@ + joined(order::path_view(texts@), separator@),
{
    let ghost before = out@;
    let ghost views = order::path_view(texts@);
    let mut index: usize = 0;
    assert(views.take(0) =~= Seq::<Seq<char>>::empty());
    assert(out@ =~= before + joined(views.take(0), separator@));
    while index < texts.len()
        invariant
            index <= texts@.len(),
            views == order::path_view(texts@),
            out@ == before + joined(views.take(index as int), separator@),
        decreases texts@.len() - index,
    {
        let ghost taken = views.take(index + 1);
        assert(taken.drop_last() =~= views.take(index as int));
        assert(taken.last() == texts@[index as int]@);
        if index > 0 {
            out.append(separator);
        }
        out.append(texts[index].as_str());
        assert(out@ =~= before + joined(taken, separator@));
        index = index + 1;
    }
    assert(views.take(index as int) =~= views);
}

/// Returns a copy of an object's members.
pub fn copy_members(members: &Vec<(String, Json)>) -> (copies: Vec<(String, Json)>)
    ensures
        json::members_view(copies@) == json::members_view(members@),
{
    let mut copies: Vec<(String, Json)> = Vec::new();
    let mut index: usize = 0;
    while index < members.len()
        invariant
            index <= members@.len(),
            copies@.len() == index,
            forall|i: int|
                0 <= i < index ==> (#[trigger] copies@[i]).0@ == members@[i].0@ && copies@[i].1@
                    == members@[i].1@,
        decreases members@.len() - index,
    {
        copies.push((members[index].0.clone(), members[index].1.clone()));
        index = index + 1;
    }
    assert(json::members_view(copies@) =~= json::members_view(members@));
    copies
}

/// The registered warnings.
#[derive(Clone, Copy, Debug, PartialEq, Eq, Structural)]
pub enum WarningCode {
    /// No lock coordinated a read-only observation.
    ObservationMayBeStale,
    /// Metadata other than permission bits is not carried over.
    MetadataNotPreserved,
    /// A diff was cut at its limit.
    DiffTruncated,
}

/// The stable wire spelling of a warning.
pub open spec fn warning_text(code: WarningCode) -> Seq<char> {
    match code {
        WarningCode::ObservationMayBeStale => "OBSERVATION_MAY_BE_STALE"@,
        WarningCode::MetadataNotPreserved => "METADATA_NOT_PRESERVED"@,
        WarningCode::DiffTruncated => "DIFF_TRUNCATED"@,
    }
}

impl WarningCode {
    /// Returns the stable wire spelling.
    pub fn as_str(self) -> (text: &'static str)
        ensures
            text@ == warning_text(self),
    {
        match self {
            WarningCode::ObservationMayBeStale => "OBSERVATION_MAY_BE_STALE",
            WarningCode::MetadataNotPreserved => "METADATA_NOT_PRESERVED",
            WarningCode::DiffTruncated => "DIFF_TRUNCATED",
        }
    }
}

/// A structured warning.
#[derive(Clone, Debug, PartialEq)]
pub struct WarningDto {
    /// The warning's code.
    pub code: WarningCode,
    /// The human-readable message.
    pub message: String,
    /// Structured context, by key.
    pub context: TextMap<Json>,
}

/// The wire form of a warning.
pub open spec fn warning_json(
    code: WarningCode,
    message: Seq<char>,
    context: Seq<(Seq<char>, JsonView)>,
) -> JsonView {
    JsonView::Object(
        seq![
            ("code"@, JsonView::String(warning_text(code))),
            ("message"@, JsonView::String(message)),
            ("context"@, JsonView::Object(context)),
        ],
    )
}

impl View for WarningDto {
    type V = JsonView;

    open spec fn view(&self) -> JsonView {
        warning_json(self.code, self.message@, self.context@)
    }
}

impl WarningDto {
    /// Creates a warning. The context is kept as a map: in key order, with the
    /// last value given for each key.
    pub fn new(code: WarningCode, message: &str, context: Vec<(String, Json)>) -> (warning: Self)
        ensures
            warning.code == code,
            warning.message@ == message@,
            warning.context@ == text_map::ordered(json::members_view(context@)),
            text_map::is_ordered(warning.context@),
            text_map::is_ordered(json::members_view(context@)) ==> warning.context@
                == json::members_view(context@),
    {
        WarningDto { code, message: message.to_owned(), context: TextMap::from_entries(context) }
    }

    /// Returns the wire form.
    pub fn to_json(&self) -> (value: Json)
        ensures
            value@ == self@,
    {
        let members = vec![
            named("code", json_text(self.code.as_str())),
            named("message", json_text(self.message.as_str())),
            named("context", json_object(copy_members(self.context.entries()))),
        ];
        assert(json::members_view(members@) =~= self@->Object_0);
        json_object(members)
    }
}

/// The wire forms of a list of warnings.
pub open spec fn warnings_view(warnings: Seq<WarningDto>) -> Seq<JsonView> {
    Seq::new(warnings.len(), |i: int| warnings[i]@)
}

/// Returns the wire forms of a list of warnings.
pub fn json_warnings(warnings: &Vec<WarningDto>) -> (array: Json)
    ensures
        array@ == JsonView::Array(warnings_view(warnings@)),
{
    let mut items: Vec<Json> = Vec::new();
    let mut index: usize = 0;
    while index < warnings.len()
        invariant
            index <= warnings@.len(),
            items@.len() == index,
            forall|i: int| 0 <= i < index ==> (#[trigger] items@[i])@ == warnings@[i]@,
        decreases warnings@.len() - index,
    {
        items.push(warnings[index].to_json());
        index = index + 1;
    }
    assert(json::items_view(items@) =~= warnings_view(warnings@));
    json_array(items)
}

/// The keys of a context are written down in their order.
pub proof fn lemma_context_keys_ascend()
    ensures
        order::rank_texts("actual"@, "limit"@) == Rank::Less,
        order::rank_texts("limit"@, "resource"@) == Rank::Less,
        order::rank_texts("actual"@, "resource"@) == Rank::Less,
        order::rank_texts("lock_state"@, "recovery_required"@) == Rank::Less,
        order::rank_texts("recovery_required"@, "safe_next_action"@) == Rank::Less,
        order::rank_texts("lock_state"@, "safe_next_action"@) == Rank::Less,
        order::rank_texts("operation_index"@, "reason"@) == Rank::Less,
        order::rank_texts("link_count"@, "path"@) == Rank::Less,
        order::rank_texts("path"@, "reason"@) == Rank::Less,
        order::rank_texts("actual"@, "expected"@) == Rank::Less,
        order::rank_texts("expected"@, "path"@) == Rank::Less,
        order::rank_texts("actual"@, "path"@) == Rank::Less,
        order::rank_texts("first_path"@, "second_path"@) == Rank::Less,
        order::rank_texts("attempts"@, "path"@) == Rank::Less,
        order::rank_texts("reason"@, "transaction_id"@) == Rank::Less,
        order::rank_texts("io_kind"@, "operation"@) == Rank::Less,
        order::rank_texts("operation"@, "path"@) == Rank::Less,
        order::rank_texts("io_kind"@, "path"@) == Rank::Less,
        order::rank_texts("io_kind"@, "source"@) == Rank::Less,
        order::rank_texts("actual_plan_sha256"@, "expected_plan_sha256"@) == Rank::Less,
        order::rank_texts("locked_plan_sha256"@, "prelock_plan_sha256"@) == Rank::Less,
        order::rank_texts("candidate_count"@, "candidates"@) == Rank::Less,
{
    reveal_strlit("actual");
    reveal_strlit("actual_plan_sha256");
    reveal_strlit("attempts");
    reveal_strlit("candidate_count");
    reveal_strlit("candidates");
    reveal_strlit("expected");
    reveal_strlit("expected_plan_sha256");
    reveal_strlit("first_path");
    reveal_strlit("io_kind");
    reveal_strlit("limit");
    reveal_strlit("link_count");
    reveal_strlit("lock_state");
    reveal_strlit("locked_plan_sha256");
    reveal_strlit("operation");
    reveal_strlit("operation_index");
    reveal_strlit("path");
    reveal_strlit("prelock_plan_sha256");
    reveal_strlit("reason");
    reveal_strlit("recovery_required");
    reveal_strlit("resource");
    reveal_strlit("safe_next_action");
    reveal_strlit("second_path");
    reveal_strlit("source");
    reveal_strlit("transaction_id");
    order::lemma_rank_ascii_at("actual"@, "limit"@, 0);
    order::lemma_rank_ascii_at("limit"@, "resource"@, 0);
    order::lemma_rank_ascii_at("actual"@, "resource"@, 0);
    order::lemma_rank_ascii_at("lock_state"@, "recovery_required"@, 0);
    order::lemma_rank_ascii_at("recovery_required"@, "safe_next_action"@, 0);
    order::lemma_rank_ascii_at("lock_state"@, "safe_next_action"@, 0);
    order::lemma_rank_ascii_at("operation_index"@, "reason"@, 0);
    order::lemma_rank_ascii_at("link_count"@, "path"@, 0);
    order::lemma_rank_ascii_at("path"@, "reason"@, 0);
    order::lemma_rank_ascii_at("actual"@, "expected"@, 0);
    order::lemma_rank_ascii_at("expected"@, "path"@, 0);
    order::lemma_rank_ascii_at("actual"@, "path"@, 0);
    order::lemma_rank_ascii_at("first_path"@, "second_path"@, 0);
    order::lemma_rank_ascii_at("attempts"@, "path"@, 0);
    order::lemma_rank_ascii_at("reason"@, "transaction_id"@, 0);
    order::lemma_rank_ascii_at("io_kind"@, "operation"@, 0);
    order::lemma_rank_ascii_at("operation"@, "path"@, 0);
    order::lemma_rank_ascii_at("io_kind"@, "path"@, 0);
    order::lemma_rank_ascii_at("io_kind"@, "source"@, 0);
    order::lemma_rank_ascii_at("actual_plan_sha256"@, "expected_plan_sha256"@, 0);
    order::lemma_rank_ascii_at("locked_plan_sha256"@, "prelock_plan_sha256"@, 0);
    order::lemma_rank_ascii_at("candidate_count"@, "candidates"@, 9);
}

/// Why a bounded single-line JSON serialization stopped early.
#[derive(Clone, Copy, Debug, PartialEq, Eq, Structural)]
pub enum BoundedJsonLineFailure {
    /// The value could not be serialized.
    Serialization,
    /// The line would exceed the response limit; the attempted byte count.
    ResponseLimit(u64),
}

/// The byte count reported for a payload and its line feed.
pub open spec fn attempted(payload: nat) -> u64 {
    if payload > usize::MAX {
        u64::MAX
    } else if payload + 1 > u64::MAX {
        u64::MAX
    } else {
        (payload + 1) as u64
    }
}

/// A byte sink that refuses to grow past a bound.
#[derive(Debug, PartialEq, Eq)]
pub struct BoundedJsonWriter {
    /// What was written.
    pub bytes: Vec<u8>,
    /// The most bytes that may be written.
    pub maximum_payload_bytes: usize,
    /// The byte count reported for the refused write, its line feed included.
    pub attempted_bytes: u64,
    /// Whether a write was refused.
    pub exceeded: bool,
}

impl BoundedJsonWriter {
    /// Creates an empty sink.
    pub fn new(maximum_payload_bytes: usize) -> (writer: Self)
        ensures
            writer.bytes@ == Seq::<u8>::empty(),
            writer.maximum_payload_bytes == maximum_payload_bytes,
            writer.attempted_bytes == 0,
            !writer.exceeded,
    {
        BoundedJsonWriter {
            bytes: Vec::new(),
            maximum_payload_bytes,
            attempted_bytes: 0,
            exceeded: false,
        }
    }
}

/// Declares `std::io::Error`, which a refused write returns.
#[verifier::external_type_specification]
#[verifier::external_body]
pub struct ExIoError(std::io::Error);

/// Makes the error of a refused write with `std::io::Error::other`. Nothing is
/// claimed of it.
#[verifier::external_body]
fn refused_write() -> (error: std::io::Error) {
    std::io::Error::other("response limit exceeded")
}

impl std::io::Write for BoundedJsonWriter {
    /// Appends a buffer whole, or refuses it whole and records the refusal.
    fn write(&mut self, buffer: &[u8]) -> (written: std::io::Result<usize>)
        ensures
            final(self).maximum_payload_bytes == old(self).maximum_payload_bytes,
            match written {
                Ok(count) => {
                    &&& count == buffer@.len()
                    &&& old(self).bytes@.len() + buffer@.len() <= old(self).maximum_payload_bytes
                    &&& final(self).bytes@ == old(self).bytes@ + buffer@
                    &&& final(self).exceeded == old(self).exceeded
                    &&& final(self).attempted_bytes == old(self).attempted_bytes
                },
                Err(_) => {
                    &&& old(self).bytes@.len() + buffer@.len() > old(self).maximum_payload_bytes
                    &&& final(self).bytes@ == old(self).bytes@
                    &&& final(self).exceeded
                    &&& final(self).attempted_bytes == attempted(
                        old(self).bytes@.len() + buffer@.len(),
                    )
                },
            },
    {
        match self.bytes.len().checked_add(buffer.len()) {
            None => {
                self.exceeded = true;
                self.attempted_bytes = u64::MAX;
                Err(refused_write())
            },
            Some(total) => {
                if total > self.maximum_payload_bytes {
                    self.exceeded = true;
                    self.attempted_bytes = (total as u64).saturating_add(1);
                    Err(refused_write())
                } else {
                    self.bytes.extend_from_slice(buffer);
                    assert(self.bytes@ =~= old(self).bytes@ + buffer@);
                    Ok(buffer.len())
                }
            },
        }
    }

    /// Does nothing: every accepted buffer is already there.
    fn flush(&mut self) -> (flushed: std::io::Result<()>)
        ensures
            flushed is Ok,
            *final(self) == *old(self),
    {
        Ok(())
    }
}

/// The size at which a write of `serde_json::to_writer` first goes over
/// `maximum` bytes: what was written before it, and the refused piece.
pub uninterp spec fn overrun(value: JsonView, maximum: nat) -> nat;

/// Writes one JSON document compactly with `serde_json::to_writer`.
///
/// It hands the sink the bytes that `serde_json::to_vec` gives, piece by piece,
/// and stops at the first piece that the sink refuses. Where the pieces end
/// depends on the value alone; the size that the refused one would have led to
/// is named [`overrun`], and the size reported for it is at most that of the
/// whole line: what was written and the refused piece are byte strings in
/// memory, whose lengths add up without overflow. Nothing else fails, because
/// every member name is a string.
#[verifier::external_body]
fn write_json(value: &Json, output: &mut BoundedJsonWriter) -> (written: bool)
    requires
        old(output).bytes@.len() == 0,
        !old(output).exceeded,
    ensures
        final(output).maximum_payload_bytes == old(output).maximum_payload_bytes,
        final(output).exceeded == !written,
        written ==> {
            &&& json::serialized_json(value@) == Ok::<Seq<u8>, Seq<char>>(final(output).bytes@)
            &&& final(output).bytes@.len() <= old(output).maximum_payload_bytes
            &&& json::is_compact(final(output).bytes@)
        },
        !written ==> ({
            let size = overrun(value@, old(output).maximum_payload_bytes as nat);
            &&& json::serialized_json(value@) matches Ok(payload)
            &&& old(output).maximum_payload_bytes < size <= payload.len()
            &&& final(output).attempted_bytes == attempted(size)
            &&& final(output).attempted_bytes <= payload.len() + 1
        }),
{
    serde_json::to_writer(&mut *output, &json::value_from_json(value)).is_ok()
}

/// The most payload bytes under a response limit.
pub open spec fn payload_limit(maximum_response_bytes: u64) -> int {
    if maximum_response_bytes == 0 {
        0
    } else {
        maximum_response_bytes - 1
    }
}

/// The line for a serializer's outcome: its bytes and one line feed, if both
/// fit the response limit, where `refused` is the size at which the writer
/// stops otherwise.
pub open spec fn bounded_line(
    serialized: Result<Seq<u8>, Seq<char>>,
    refused: nat,
    maximum_response_bytes: u64,
) -> Result<Seq<u8>, BoundedJsonLineFailure> {
    if payload_limit(maximum_response_bytes) > usize::MAX {
        Err(BoundedJsonLineFailure::Serialization)
    } else {
        match serialized {
            Ok(payload) => if payload.len() > payload_limit(maximum_response_bytes) {
                Err(BoundedJsonLineFailure::ResponseLimit(attempted(refused)))
            } else {
                Ok(payload.push(10u8))
            },
            Err(_) => Err(BoundedJsonLineFailure::Serialization),
        }
    }
}

/// The line of a JSON value.
pub open spec fn json_line(value: JsonView, maximum_response_bytes: u64) -> Result<
    Seq<u8>,
    BoundedJsonLineFailure,
> {
    bounded_line(
        json::serialized_json(value),
        overrun(value, payload_limit(maximum_response_bytes) as nat),
        maximum_response_bytes,
    )
}

/// Whether a produced line is the expected one.
pub open spec fn is_line(
    line: Result<Vec<u8>, BoundedJsonLineFailure>,
    expected: Result<Seq<u8>, BoundedJsonLineFailure>,
) -> bool {
    match line {
        Ok(bytes) => expected == Ok::<Seq<u8>, BoundedJsonLineFailure>(bytes@),
        Err(failure) => expected == Err::<Seq<u8>, BoundedJsonLineFailure>(failure),
    }
}

/// Ends what a serializer wrote with a line feed, or says why it stopped.
pub fn finished_line(output: BoundedJsonWriter, written: bool) -> (line: Result<
    Vec<u8>,
    BoundedJsonLineFailure,
>)
    ensures
        is_line(
            line,
            if written {
                Ok(output.bytes@.push(10u8))
            } else if output.exceeded {
                Err(BoundedJsonLineFailure::ResponseLimit(output.attempted_bytes))
            } else {
                Err(BoundedJsonLineFailure::Serialization)
            },
        ),
{
    if !written {
        return Err(
            if output.exceeded {
                BoundedJsonLineFailure::ResponseLimit(output.attempted_bytes)
            } else {
                BoundedJsonLineFailure::Serialization
            },
        );
    }
    let mut bytes = output.bytes;
    bytes.push(10);
    Ok(bytes)
}

/// Serializes one JSON value plus exactly one trailing line feed within a
/// total-byte bound.
pub fn write_bounded_json_line(value: &Json, maximum_response_bytes: u64) -> (line: Result<
    Vec<u8>,
    BoundedJsonLineFailure,
>)
    ensures
        is_line(line, json_line(value@, maximum_response_bytes)),
        line matches Ok(bytes) ==> is_one_line(bytes@) && 1 < bytes@.len()
            <= maximum_response_bytes,
        line matches Err(failure) ==> failure is ResponseLimit || maximum_response_bytes
            > usize::MAX,
        line matches Err(BoundedJsonLineFailure::ResponseLimit(actual)) ==> {
            &&& json::serialized_json(value@) matches Ok(payload)
            &&& actual <= payload.len() + 1
            &&& actual > maximum_response_bytes || maximum_response_bytes == u64::MAX
        },
{
    let payload_bound: u64 = maximum_response_bytes.saturating_sub(1);
    if payload_bound > usize::MAX as u64 {
        return Err(BoundedJsonLineFailure::Serialization);
    }
    let mut output = BoundedJsonWriter::new(payload_bound as usize);
    let written = write_json(value, &mut output);
    proof {
        if written {
            lemma_compact_lines(output.bytes@);
        }
    }
    finished_line(output, written)
}

/// Whether bytes are one line of UTF-8 text, which its only line feed ends.
pub open spec fn is_one_line(bytes: Seq<u8>) -> bool {
    &&& vstd::utf8::valid_utf8(bytes)
    &&& bytes.len() > 0
    &&& bytes.last() == 10
    &&& forall|i: int| 0 <= i < bytes.len() - 1 ==> #[trigger] bytes[i] != 10
}

/// Compact bytes and a line feed are one line.
proof fn lemma_compact_lines(payload: Seq<u8>)
    requires
        json::is_compact(payload),
    ensures
        is_one_line(payload.push(10u8)),
{
    let feed = seq!['\n'];
    vstd::utf8::is_ascii_chars_encode_utf8(feed);
    vstd::utf8::encode_utf8_valid_utf8(feed);
    vstd::utf8::valid_utf8_concat(payload, vstd::utf8::encode_utf8(feed));
    assert(vstd::utf8::encode_utf8(feed) =~= seq![10u8]);
    assert(payload + seq![10u8] =~= payload.push(10u8));
}

/// Reads bytes as text with `String::from_utf8`: the text whose UTF-8 bytes
/// they are, or nothing where they are not valid UTF-8.
#[verifier::external_body]
pub(crate) fn text_from_utf8(bytes: Vec<u8>) -> (text: Option<String>)
    ensures
        match text {
            Some(text) => vstd::utf8::valid_utf8(bytes@) && text@ == vstd::utf8::decode_utf8(bytes@),
            None => !vstd::utf8::valid_utf8(bytes@),
        },
{
    String::from_utf8(bytes).ok()
}

/// A line never exceeds its limit and always ends its payload with one line
/// feed.
pub proof fn law_lines_are_bounded(value: JsonView, maximum_response_bytes: u64)
    requires
        maximum_response_bytes > 0,
    ensures
        json_line(value, maximum_response_bytes) matches Ok(line) ==> {
            &&& line.len() <= maximum_response_bytes
            &&& line.len() > 0
            &&& line.last() == 10
            &&& json::serialized_json(value) == Ok::<Seq<u8>, Seq<char>>(line.drop_last())
        },
{
    if let Ok(payload) = json::serialized_json(value) {
        assert(payload.push(10u8).drop_last() =~= payload);
    }
}

} // verus!
