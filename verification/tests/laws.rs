//! What holds of the library as a whole, on concrete values.

use serde_json::Value;
use srcmv::fake_wire::{needed_input, write_message, MAX_FAKE_HEADER_BYTES};
use srcmv::framing::{read_body, FrameDecoder};
use srcmv::json::{Json, JsonNumber};
use srcmv::jsonrpc::{
    encode_message, FrameSection, FramingLimits, JsonRpcError, ResponseCorrelator,
};
use srcmv::kinds::{known_kind_number, normalize_kind, KnownSymbolKind, NormalizedSymbolKind};
use srcmv::line_index::LineIndex;
use srcmv::position::{
    ByteRange, Position, PositionConverter, PositionError, PositionLimits,
    SupportedPositionEncoding,
};
use srcmv::resolve::apply_extent;
use srcmv::select_command::{capture_source, protocol_known_kind, protocol_symbol_kind};
use srcmv::symbols::{SelectionExtent, SymbolError};
use srcmv::transport::{
    ProcessError, ProcessFault, ProcessFaultKind, ProcessWorker, TransportError,
};

/// The library's value of a parsed JSON value.
fn converted(value: &Value) -> Json {
    match value {
        Value::Null => Json::Null,
        Value::Bool(flag) => Json::Bool(*flag),
        Value::Number(number) => Json::Number(match (number.as_u64(), number.as_i64()) {
            (Some(unsigned), _) => JsonNumber::Unsigned(unsigned),
            (None, Some(signed)) => JsonNumber::Negative(signed),
            (None, None) => JsonNumber::Real(number.to_string()),
        }),
        Value::String(text) => Json::String(text.clone()),
        Value::Array(items) => Json::Array(items.iter().map(converted).collect()),
        Value::Object(members) => Json::Object(
            members.iter().map(|(name, member)| (name.clone(), converted(member))).collect(),
        ),
    }
}

/// The library's value of a JSON text.
fn json(text: &str) -> Json {
    let value: Value = serde_json::from_str(text).expect("test JSON should parse");
    converted(&value)
}

#[test]
fn encoded_messages_are_read_back() {
    for text in [
        r#"{"jsonrpc":"2.0","id":-7,"method":"m","params":{"b":[1,null,true],"a":"line\nfeed é"}}"#,
        r#"{"jsonrpc":"2.0","method":"n"}"#,
    ] {
        let value = json(text);
        let frame = encode_message(&value, FramingLimits::default()).expect("a small frame");
        let (body, count) = read_body(&frame, FramingLimits::default())
            .expect("the frame is whole")
            .expect("a frame is there");
        assert_eq!(count, frame.len());
        let reparsed = String::from_utf8(body).expect("bodies are UTF-8");
        assert!(!reparsed.contains('\n'));
        assert_eq!(json(&reparsed), value);
    }
}

#[test]
fn reading_a_body_agrees_with_decoding_prefixes() {
    let limits = FramingLimits { max_header_bytes: 40, ..FramingLimits::default() };
    for stream in [
        &b""[..],
        b"Content-Length: 2\r\n\r\n{}Content-Length: 3\r\n\r\n123",
        b"Content-Length: 0\r\n\r\nrest",
        b"Content-Length: 9\r\n\r\n{}",
        b"Content-Len",
        b"Content-Length: x\r\n\r\n{}",
        b"Content-Length: 2\r\n\r\n{}\xff",
    ] {
        let first = (0..=stream.len()).find_map(|count| {
            let bodies = FrameDecoder::new(limits).push(&stream[..count]).ok()?;
            if bodies.len() == 1 {
                Some((bodies[0].clone(), count))
            } else {
                None
            }
        });
        let mut decoder = FrameDecoder::new(limits);
        let expected = match (first, decoder.push(stream)) {
            (Some(found), _) => Ok(Some(found)),
            (None, Err(error)) => Err(error),
            (None, Ok(_)) => decoder.finish().map(|()| None),
        };
        assert_eq!(read_body(stream, limits), expected);
    }
}

#[test]
fn positions_round_trip_within_their_work() {
    let text = "a\u{1f600}b\u{e9}\r\nc\n";
    let index = LineIndex::from_bytes(text.as_bytes());
    for encoding in [
        SupportedPositionEncoding::Utf8,
        SupportedPositionEncoding::Utf16,
        SupportedPositionEncoding::Utf32,
    ] {
        let limits = PositionLimits { maximum_code_points_scanned: 12 };
        let mut converter =
            PositionConverter::new(text, &index, encoding, limits).expect("the index fits");
        let position = converter.byte_to_lsp_position(6).expect("a boundary of the content");
        assert_eq!(converter.lsp_position_to_byte(position), Ok(6));
        let greatest = Position { line: position.line, character: u32::MAX };
        assert_eq!(converter.lsp_position_to_byte(greatest), Ok(8));
    }
    let limits = PositionLimits { maximum_code_points_scanned: 6 };
    let mut converter =
        PositionConverter::new(text, &index, SupportedPositionEncoding::Utf16, limits)
            .expect("the index fits");
    let (line, column) = converter.byte_to_user_line_scalar(6).expect("a boundary");
    assert_eq!((line, column), (1, Some(4)));
    assert_eq!(converter.user_line_scalar_to_byte(1, 4), Ok(6));
    assert_eq!(
        converter.user_line_scalar_to_byte(1, 4),
        Err(PositionError::WorkLimitExceeded)
    );
}

#[test]
fn refused_headers_stay_refused() {
    let limits = FramingLimits { max_header_bytes: 8, ..FramingLimits::default() };
    let too_large = Err(JsonRpcError::HeaderTooLarge { limit: 8 });
    let mut decoder = FrameDecoder::new(limits);
    assert_eq!(decoder.push(b"Content"), Ok(Vec::new()));
    assert_eq!(decoder.push(&[200]), Err(JsonRpcError::NonAsciiHeader));
    assert_eq!(decoder.push(b"-Length"), too_large);
    assert_eq!(decoder.push(b"\n"), too_large);
    assert!(decoder.is_mid_frame());
    assert_eq!(
        decoder.finish(),
        Err(JsonRpcError::UnexpectedEof { section: FrameSection::Header })
    );
}

#[test]
fn identifiers_increase_and_complete_once() {
    let mut correlator = ResponseCorrelator::new(3);
    let first = correlator.begin_request().expect("the first request fits");
    let second = correlator.begin_request().expect("the second request fits");
    assert!(first.get() < second.get());
    assert_eq!(correlator.complete(second), Ok(()));
    assert_eq!(
        correlator.complete(second),
        Err(JsonRpcError::DuplicateResponseId { id: second })
    );
    assert_eq!(correlator.complete(first), Ok(()));
}

#[test]
fn kinds_keep_their_number_and_their_wire_spelling() {
    for number in 0..40 {
        let kind = normalize_kind(number);
        assert_eq!(kind.numeric(), number);
        assert_eq!(protocol_symbol_kind(kind).as_str(), kind.as_str());
        if let NormalizedSymbolKind::Known(known) = kind {
            assert_eq!(known_kind_number(known), number);
            assert_eq!(KnownSymbolKind::parse(known.as_str()), Ok(known));
            assert_eq!(protocol_known_kind(known).as_str(), known.as_str());
        }
    }
    assert_eq!(normalize_kind(0).unknown_numeric(), Some(0));
    assert_eq!(normalize_kind(27).unknown_numeric(), Some(27));
    assert_eq!(normalize_kind(1), NormalizedSymbolKind::Known(KnownSymbolKind::File));
}

#[test]
fn extents_are_stable() {
    let text = "  abc \nnext\n";
    let once = apply_extent(
        text,
        ByteRange { start: 2, end: 5 },
        SelectionExtent::DeclarationLines,
    )
    .expect("the extent expands");
    assert_eq!(once, ByteRange { start: 0, end: 7 });
    assert_eq!(apply_extent(text, once, SelectionExtent::DeclarationLines), Ok(once));
    assert_eq!(
        apply_extent(text, ByteRange { start: 5, end: 2 }, SelectionExtent::Symbol),
        Err(SymbolError::InvalidExtent)
    );
    assert_eq!(
        apply_extent(text, ByteRange { start: 0, end: 99 }, SelectionExtent::Symbol),
        Err(SymbolError::InvalidExtent)
    );
}

#[test]
fn digest_texts_tell_sources_apart() {
    let digest = |bytes: &[u8]| {
        capture_source("file", bytes.to_vec()).expect("ASCII is UTF-8").digest.to_prefixed_hex()
    };
    assert_eq!(
        digest(b""),
        "sha256:e3b0c44298fc1c149afbf4c8996fb92427ae41e4649b934ca495991b7852b855"
    );
    assert_ne!(digest(b"a"), digest(b"b"));
}

#[test]
fn whole_frames_need_no_input() {
    let frame = write_message(&json(r#"{"jsonrpc":"2.0"}"#)).expect("a small frame");
    let header = frame.len() - 17;
    for length in 0..header {
        assert_eq!(needed_input(&frame[..length]), 1);
    }
    for length in header..=frame.len() {
        assert_eq!(needed_input(&frame[..length]), frame.len() - length);
    }
    assert_eq!(needed_input(b"Content-Length: x\r\n\r\n"), 0);
    assert_eq!(needed_input(&vec![b'x'; MAX_FAKE_HEADER_BYTES]), 1);
    assert_eq!(needed_input(&vec![b'x'; MAX_FAKE_HEADER_BYTES + 1]), 0);
}

#[test]
fn user_positions_have_lsp_positions() {
    let text = "\u{e9}\u{1f642}z\nw";
    let index = LineIndex::from_bytes(text.as_bytes());
    let mut converter = PositionConverter::new(
        text,
        &index,
        SupportedPositionEncoding::Utf16,
        PositionLimits::default(),
    )
    .expect("the index describes the text");
    assert_eq!(converter.encoding(), SupportedPositionEncoding::Utf16);
    assert_eq!(
        converter.user_byte_to_lsp_position(6),
        Ok(Position { line: 0, character: 3 })
    );
    assert_eq!(
        converter.user_byte_to_lsp_position(1),
        Err(PositionError::InvalidUserPosition)
    );
    assert_eq!(
        converter.user_line_scalar_to_lsp_position(2, 2),
        Ok(Position { line: 1, character: 1 })
    );
    assert_eq!(
        converter.user_line_scalar_to_lsp_position(9, 1),
        Err(PositionError::InvalidUserPosition)
    );
    assert_eq!(index.line_count(), 2);
    assert_eq!((index.line_start(2), index.line_end(2)), (Some(8), Some(9)));
    assert_eq!(index.line_start(3), None);
}

#[test]
fn failures_have_stable_texts() {
    assert_eq!(
        JsonRpcError::JsonNestingTooDeep { depth: 65, limit: 64 }.message(),
        "JSON nesting depth is 65; limit is 64"
    );
    assert_eq!(SymbolError::NotFound.message(), "no document symbol matched the query");
    assert_eq!(
        SymbolError::ResourceLimitExceeded { resource: "symbol_name_bytes", maximum: 3 }.message(),
        "symbol_name_bytes exceeds configured maximum 3"
    );
    assert_eq!(
        SymbolError::Position(PositionError::NonexistentLine).message(),
        format!(
            "invalid language-server range: {}",
            PositionError::NonexistentLine.message()
        )
    );
    assert_eq!(
        TransportError::ProcessFault(ProcessFault {
            worker: ProcessWorker::Stderr,
            kind: ProcessFaultKind::Io { message: "pipe failed".to_owned() },
        })
        .message(),
        "language-server Stderr worker failed: pipe failed"
    );
    assert_eq!(
        TransportError::ProcessFault(ProcessFault {
            worker: ProcessWorker::Stdout,
            kind: ProcessFaultKind::ResourceLimit {
                queue: "stdout",
                item_bytes: 9,
                capacity_bytes: 8,
            },
        })
        .message(),
        "language-server Stdout worker failed: stdout queue item of 9 bytes exceeds the capacity of 8 bytes"
    );
    assert_eq!(
        TransportError::Process(ProcessError::Other { message: "gone".to_owned() }).message(),
        "language-server process error: gone"
    );
    assert_eq!(
        KnownSymbolKind::parse("bogus").map_err(|error| error.message().to_owned()),
        Err("unknown standardized symbol kind".to_owned())
    );
}
