use lenso_otel_module::hex::{decode_hex, encode_hex, hex_digit};
use lenso_otel_module::text::{byte_len, push_decimal, same_bytes, same_text};
use lenso_otel_module::trace::{is_all_zero, validate_tracestate};
use lenso_otel_module::{TraceContext, TraceContextParseError};

const TRACEPARENT: &str = "00-4bf92f3577b34da6a3ce929d0e0e4736-00f067aa0ba902b7-01";

fn parse(traceparent: &str) -> Result<TraceContext, TraceContextParseError> {
    TraceContext::from_traceparent(traceparent, None)
}

#[test]
fn fields_of_a_parsed_traceparent_are_exact() {
    let trace = parse("00-4bf92f3577b34da6a3ce929d0e0e4736-00f067aa0ba902b7-a5").unwrap();
    assert_eq!(
        trace.trace_id(),
        [
            0x4b, 0xf9, 0x2f, 0x35, 0x77, 0xb3, 0x4d, 0xa6, 0xa3, 0xce, 0x92, 0x9d, 0x0e, 0x0e,
            0x47, 0x36
        ]
    );
    assert_eq!(
        trace.span_id(),
        [0x00, 0xf0, 0x67, 0xaa, 0x0b, 0xa9, 0x02, 0xb7]
    );
    assert_eq!(trace.trace_flags(), 0xa5);
    assert_eq!(trace.tracestate(), None);
}

#[test]
fn every_parse_error_has_an_input() {
    assert_eq!(parse(""), Err(TraceContextParseError::InvalidTraceparent));
    assert_eq!(
        parse("00-4bf92f3577b34da6a3ce929d0e0e4736-00f067aa0ba902b7"),
        Err(TraceContextParseError::InvalidTraceparent)
    );
    assert_eq!(
        parse(&format!("{TRACEPARENT}-00")),
        Err(TraceContextParseError::InvalidTraceparent)
    );
    assert_eq!(
        parse("01-4bf92f3577b34da6a3ce929d0e0e4736-00f067aa0ba902b7-01"),
        Err(TraceContextParseError::UnsupportedVersion)
    );
    assert_eq!(
        parse("00-4BF92F3577B34DA6A3CE929D0E0E4736-00f067aa0ba902b7-01"),
        Err(TraceContextParseError::InvalidHex)
    );
    assert_eq!(
        parse("00-4bf92f3577b34da6a3ce929d0e0e473-00f067aa0ba902b7-01"),
        Err(TraceContextParseError::InvalidHex)
    );
    assert_eq!(
        parse("00-4bf92f3577b34da6a3ce929d0e0e4736-00f067aa0ba902b7-é"),
        Err(TraceContextParseError::InvalidHex)
    );
    assert_eq!(
        parse("00-00000000000000000000000000000000-00f067aa0ba902b7-01"),
        Err(TraceContextParseError::ZeroTraceId)
    );
    assert_eq!(
        parse("00-4bf92f3577b34da6a3ce929d0e0e4736-0000000000000000-01"),
        Err(TraceContextParseError::ZeroSpanId)
    );
    assert_eq!(
        TraceContext::from_traceparent(TRACEPARENT, Some("")),
        Err(TraceContextParseError::InvalidTracestate)
    );
    assert_eq!(
        TraceContext::from_bytes(&[0xff, 0xfe]),
        Err(TraceContextParseError::InvalidWireEncoding)
    );
}

#[test]
fn errors_are_reported_in_the_order_of_the_checks() {
    // The version is read before the fields, and all hexadecimal before the zero checks.
    assert_eq!(
        parse("ff-zz-zz-zz"),
        Err(TraceContextParseError::UnsupportedVersion)
    );
    assert_eq!(
        parse("00-00000000000000000000000000000000-0000000000000000-zz"),
        Err(TraceContextParseError::InvalidHex)
    );
    assert_eq!(
        parse("00-00000000000000000000000000000000-0000000000000000-01"),
        Err(TraceContextParseError::ZeroTraceId)
    );
}

#[test]
fn tracestate_has_exact_bounds() {
    assert_eq!(validate_tracestate(&"s".repeat(512)), Ok(()));
    assert_eq!(
        validate_tracestate(&"s".repeat(513)),
        Err(TraceContextParseError::InvalidTracestate)
    );
    assert_eq!(validate_tracestate(&"é".repeat(256)), Ok(()));
    assert_eq!(
        validate_tracestate(&"é".repeat(257)),
        Err(TraceContextParseError::InvalidTracestate)
    );
    for control in ["a\nb", "a\rb", "a\tb", "a\u{0}b", "a\u{7f}b"] {
        assert_eq!(
            validate_tracestate(control),
            Err(TraceContextParseError::InvalidTracestate)
        );
    }
    // Control characters beyond ASCII are ordinary text.
    assert_eq!(validate_tracestate("a\u{85}b"), Ok(()));
}

#[test]
fn wire_bytes_are_one_or_two_lines() {
    let plain = parse(TRACEPARENT).unwrap();
    assert_eq!(plain.to_bytes(), TRACEPARENT.as_bytes());
    let stateful = TraceContext::from_traceparent(TRACEPARENT, Some("rojo=1")).unwrap();
    assert_eq!(
        stateful.to_bytes(),
        format!("{TRACEPARENT}\nrojo=1").as_bytes()
    );
    assert_eq!(TraceContext::from_bytes(&plain.to_bytes()), Ok(plain));
    assert_eq!(TraceContext::from_bytes(&stateful.to_bytes()), Ok(stateful));
    // Only the first line break separates, so a second one is part of the tracestate.
    assert_eq!(
        TraceContext::from_bytes(format!("{TRACEPARENT}\na\nb").as_bytes()),
        Err(TraceContextParseError::InvalidTracestate)
    );
    assert_eq!(
        TraceContext::from_bytes(format!("{TRACEPARENT}\n").as_bytes()),
        Err(TraceContextParseError::InvalidTracestate)
    );
}

#[test]
fn a_child_span_keeps_the_trace_and_a_zero_span_does_not_round_trip() {
    let parent = TraceContext::from_traceparent(TRACEPARENT, Some("rojo=1")).unwrap();
    let child = parent.clone().with_span_id([0, 0, 0, 0, 0, 0, 0, 9]);
    assert_eq!(child.trace_id(), parent.trace_id());
    assert_eq!(child.trace_flags(), parent.trace_flags());
    assert_eq!(child.tracestate(), Some("rojo=1"));
    assert_eq!(
        child.traceparent(),
        "00-4bf92f3577b34da6a3ce929d0e0e4736-0000000000000009-01"
    );
    assert_eq!(TraceContext::from_bytes(&child.to_bytes()), Ok(child));
    let zero = parent.with_span_id([0; 8]);
    assert_eq!(
        TraceContext::from_bytes(&zero.to_bytes()),
        Err(TraceContextParseError::ZeroSpanId)
    );
}

#[test]
fn hexadecimal_is_lower_case_and_inverse() {
    assert_eq!(hex_digit('0'), Some(0));
    assert_eq!(hex_digit('f'), Some(15));
    assert_eq!(hex_digit('F'), None);
    assert_eq!(hex_digit('g'), None);
    assert_eq!(encode_hex(&[0x00, 0x9a, 0xff]), "009aff");
    let digits: Vec<char> = "009aff".chars().collect();
    assert_eq!(decode_hex::<3>(&digits), Some([0x00, 0x9a, 0xff]));
    assert_eq!(decode_hex::<2>(&digits), None);
    assert!(is_all_zero(&[0, 0]));
    assert!(!is_all_zero(&[0, 1]));
}

#[test]
fn text_helpers_count_bytes_and_digits() {
    assert_eq!(byte_len("aé€"), 6);
    assert!(same_text("é", "é"));
    assert!(!same_text("e", "é"));
    assert!(same_bytes(b"ab", b"ab"));
    assert!(!same_bytes(b"ab", b"abc"));
    let mut written = "n=".to_owned();
    push_decimal(&mut written, 0);
    push_decimal(&mut written, u128::MAX);
    assert_eq!(written, format!("n=0{}", u128::MAX));
}

#[test]
fn parse_errors_have_stable_messages() {
    let messages = [
        (
            TraceContextParseError::InvalidTraceparent,
            "invalid W3C traceparent",
        ),
        (
            TraceContextParseError::UnsupportedVersion,
            "unsupported W3C traceparent version",
        ),
        (
            TraceContextParseError::InvalidHex,
            "invalid W3C hexadecimal field",
        ),
        (
            TraceContextParseError::ZeroTraceId,
            "W3C trace id is all zeroes",
        ),
        (
            TraceContextParseError::ZeroSpanId,
            "W3C span id is all zeroes",
        ),
        (
            TraceContextParseError::InvalidTracestate,
            "invalid W3C tracestate",
        ),
        (
            TraceContextParseError::InvalidWireEncoding,
            "trace context extension is not UTF-8",
        ),
    ];
    for (error, message) in messages {
        assert_eq!(error.message(), message);
    }
}
