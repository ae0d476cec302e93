//! W3C Trace Context: parsing, printing and the wire form of the portable extension.

use vstd::prelude::*;

use crate::hex;
use crate::text;

verus! {

/// Largest UTF-8 size of a `tracestate` value.
pub const MAX_TRACE_STATE_BYTES: usize = 512;

/// Failure while parsing or validating a W3C Trace Context value.
#[derive(Clone, Copy, Debug, Eq, PartialEq)]
pub enum TraceContextParseError {
    /// The value does not have the four required version-zero fields.
    InvalidTraceparent,
    /// Only the W3C version-zero wire form is accepted by this Module.
    UnsupportedVersion,
    /// One field contains the wrong number or shape of hexadecimal digits.
    InvalidHex,
    /// Trace identity cannot be all zeroes.
    ZeroTraceId,
    /// Span identity cannot be all zeroes.
    ZeroSpanId,
    /// The optional `tracestate` value contains invalid control or separator data.
    InvalidTracestate,
    /// Extension bytes are not UTF-8.
    InvalidWireEncoding,
}

impl TraceContextParseError {
    /// The message that reports the failure.
    pub open spec fn message_text(self) -> Seq<char> {
        match self {
            TraceContextParseError::InvalidTraceparent => "invalid W3C traceparent"@,
            TraceContextParseError::UnsupportedVersion => "unsupported W3C traceparent version"@,
            TraceContextParseError::InvalidHex => "invalid W3C hexadecimal field"@,
            TraceContextParseError::ZeroTraceId => "W3C trace id is all zeroes"@,
            TraceContextParseError::ZeroSpanId => "W3C span id is all zeroes"@,
            TraceContextParseError::InvalidTracestate => "invalid W3C tracestate"@,
            TraceContextParseError::InvalidWireEncoding =>
                "trace context extension is not UTF-8"@,
        }
    }

    /// The message that reports the failure.
    pub fn message(&self) -> (message: String)
        ensures
            message@ == self.message_text(),
    {
        match self {
            TraceContextParseError::InvalidTraceparent => "invalid W3C traceparent".to_owned(),
            TraceContextParseError::UnsupportedVersion =>
                "unsupported W3C traceparent version".to_owned(),
            TraceContextParseError::InvalidHex => "invalid W3C hexadecimal field".to_owned(),
            TraceContextParseError::ZeroTraceId => "W3C trace id is all zeroes".to_owned(),
            TraceContextParseError::ZeroSpanId => "W3C span id is all zeroes".to_owned(),
            TraceContextParseError::InvalidTracestate => "invalid W3C tracestate".to_owned(),
            TraceContextParseError::InvalidWireEncoding =>
                "trace context extension is not UTF-8".to_owned(),
        }
    }
}

/// What a [`TraceContext`] stands for.
pub struct TraceContextView {
    pub trace_id: Seq<u8>,
    pub span_id: Seq<u8>,
    pub trace_flags: u8,
    pub tracestate: Option<Seq<char>>,
}

/// Whether every byte is zero.
pub open spec fn all_zero(bytes: Seq<u8>) -> bool {
    forall|i: int| 0 <= i < bytes.len() ==> bytes[i] == 0
}

/// Whether a character is an ASCII control character.
pub open spec fn is_control(c: char) -> bool {
    c < ' ' || c == '\u{7f}'
}

/// Whether a text may stand as a `tracestate`: not empty, at most
/// [`MAX_TRACE_STATE_BYTES`] long, and without ASCII control characters.
pub open spec fn valid_tracestate(tracestate: Seq<char>) -> bool {
    &&& tracestate.len() > 0
    &&& text::utf8_len(tracestate) <= MAX_TRACE_STATE_BYTES
    &&& forall|i: int| 0 <= i < tracestate.len() ==> !is_control(#[trigger] tracestate[i])
}

impl TraceContextView {
    /// What holds of every trace context: identities of the W3C sizes, a trace identity
    /// that is not zero, and a valid `tracestate` where there is one.
    pub open spec fn wf(self) -> bool {
        &&& self.trace_id.len() == 16
        &&& self.span_id.len() == 8
        &&& !all_zero(self.trace_id)
        &&& self.tracestate matches Some(tracestate) ==> valid_tracestate(tracestate)
    }

    /// The canonical `traceparent`: version, trace identity, span identity and flags.
    pub open spec fn traceparent(self) -> Seq<char> {
        seq!['0', '0', '-'] + hex::notation(self.trace_id) + seq!['-'] + hex::notation(self.span_id)
            + seq!['-'] + hex::notation(seq![self.trace_flags])
    }

    /// The wire text: the `traceparent` line and, where there is one, the `tracestate`
    /// line.
    pub open spec fn wire_text(self) -> Seq<char> {
        match self.tracestate {
            Some(tracestate) => self.traceparent() + seq!['\n'] + tracestate,
            None => self.traceparent(),
        }
    }

    /// The wire bytes: the wire text in UTF-8.
    pub open spec fn wire_bytes(self) -> Seq<u8> {
        vstd::utf8::encode_utf8(self.wire_text())
    }
}

/// The fields of a text: what stands before, between and after the separators.
pub open spec fn split_fields(source: Seq<char>, separator: char) -> Seq<Seq<char>>
    decreases source.len(),
{
    if source.len() == 0 {
        seq![Seq::empty()]
    } else {
        let before = split_fields(source.drop_last(), separator);
        if source.last() == separator {
            before.push(Seq::empty())
        } else {
            before.drop_last().push(before.last().push(source.last()))
        }
    }
}

/// What a `traceparent` and an optional `tracestate` stand for, or the first rule that
/// they break.
pub open spec fn parse_traceparent(
    traceparent: Seq<char>,
    tracestate: Option<Seq<char>>,
) -> Result<TraceContextView, TraceContextParseError> {
    let fields = split_fields(traceparent, '-');
    if fields.len() != 4 {
        Err(TraceContextParseError::InvalidTraceparent)
    } else if fields[0] != seq!['0', '0'] {
        Err(TraceContextParseError::UnsupportedVersion)
    } else if !hex::denotes(fields[1], 16) || !hex::denotes(fields[2], 8) || !hex::denotes(
        fields[3],
        1,
    ) {
        Err(TraceContextParseError::InvalidHex)
    } else if all_zero(hex::value(fields[1])) {
        Err(TraceContextParseError::ZeroTraceId)
    } else if all_zero(hex::value(fields[2])) {
        Err(TraceContextParseError::ZeroSpanId)
    } else if tracestate is Some && !valid_tracestate(tracestate->0) {
        Err(TraceContextParseError::InvalidTracestate)
    } else {
        Ok(
            TraceContextView {
                trace_id: hex::value(fields[1]),
                span_id: hex::value(fields[2]),
                trace_flags: hex::value(fields[3])[0],
                tracestate,
            },
        )
    }
}

/// What a wire text stands for: its first line is the `traceparent`, and all that follows
/// the first line break, where there is one, is the `tracestate`.
pub open spec fn parse_wire_text(wire: Seq<char>) -> Result<
    TraceContextView,
    TraceContextParseError,
> {
    match wire.index_of_first('\n') {
        Some(line_end) => parse_traceparent(
            wire.take(line_end),
            Some(wire.skip(line_end + 1)),
        ),
        None => parse_traceparent(wire, None),
    }
}

/// What wire bytes stand for.
pub open spec fn parse_wire(bytes: Seq<u8>) -> Result<TraceContextView, TraceContextParseError> {
    if vstd::utf8::valid_utf8(bytes) {
        parse_wire_text(vstd::utf8::decode_utf8(bytes))
    } else {
        Err(TraceContextParseError::InvalidWireEncoding)
    }
}


/// The contents of a list of fields.
pub open spec fn contents(fields: Seq<Vec<char>>) -> Seq<Seq<char>> {
    fields.map_values(|field: Vec<char>| field@)
}

/// Splits a text at every separator.
fn split(source: &[char], separator: char) -> (fields: Vec<Vec<char>>)
    ensures
        contents(fields@) == split_fields(source@, separator),
{
    let mut fields: Vec<Vec<char>> = Vec::new();
    let mut field: Vec<char> = Vec::new();
    let mut index: usize = 0;
    while index < source.len()
        invariant
            index <= source@.len(),
            contents(fields@).push(field@) == split_fields(source@.take(index as int), separator),
        decreases source@.len() - index,
    {
        let c = source[index];
        let ghost before = contents(fields@).push(field@);
        proof {
            let next = source@.take(index + 1);
            assert(next.drop_last() =~= source@.take(index as int));
            assert(next.last() == c);
            assert(before.drop_last() =~= contents(fields@));
        }
        if c == separator {
            fields.push(field);
            field = Vec::new();
            assert(contents(fields@) =~= before);
        } else {
            field.push(c);
        }
        index += 1;
    }
    assert(source@.take(index as int) =~= source@);
    let ghost before = contents(fields@).push(field@);
    fields.push(field);
    assert(contents(fields@) =~= before);
    fields
}

/// Whether every byte is zero.
pub fn is_all_zero(bytes: &[u8]) -> (zero: bool)
    ensures
        zero == all_zero(bytes@),
{
    let mut index: usize = 0;
    while index < bytes.len()
        invariant
            index <= bytes@.len(),
            forall|i: int| 0 <= i < index ==> bytes@[i] == 0,
        decreases bytes@.len() - index,
    {
        if bytes[index] != 0 {
            return false;
        }
        index += 1;
    }
    true
}

/// Checks that a text may stand as a `tracestate`.
pub fn validate_tracestate(value: &str) -> (result: Result<(), TraceContextParseError>)
    ensures
        result == (if valid_tracestate(value@) {
            Ok::<(), TraceContextParseError>(())
        } else {
            Err(TraceContextParseError::InvalidTracestate)
        }),
{
    let chars = text::chars_of(value);
    if chars.len() == 0 || text::byte_len(value) > MAX_TRACE_STATE_BYTES {
        return Err(TraceContextParseError::InvalidTracestate);
    }
    let mut index: usize = 0;
    while index < chars.len()
        invariant
            index <= chars@.len(),
            chars@ == value@,
            forall|i: int| 0 <= i < index ==> !is_control(#[trigger] value@[i]),
        decreases chars@.len() - index,
    {
        let c = chars[index];
        if c < ' ' || c == '\u{7f}' {
            assert(is_control(value@[index as int]));
            return Err(TraceContextParseError::InvalidTracestate);
        }
        index += 1;
    }
    Ok(())
}

/// W3C Trace Context carried by a Lenso Invocation Context.
#[derive(Debug, Eq, PartialEq)]
pub struct TraceContext {
    trace_id: [u8; 16],
    span_id: [u8; 8],
    trace_flags: u8,
    tracestate: Option<String>,
}

impl View for TraceContext {
    type V = TraceContextView;

    closed spec fn view(&self) -> TraceContextView {
        TraceContextView {
            trace_id: self.trace_id@,
            span_id: self.span_id@,
            trace_flags: self.trace_flags,
            tracestate: match self.tracestate {
                Some(tracestate) => Some(tracestate@),
                None => None,
            },
        }
    }
}

impl Clone for TraceContext {
    fn clone(&self) -> (copy: Self)
        ensures
            copy@ == self@,
    {
        proof {
            use_type_invariant(self);
        }
        TraceContext {
            trace_id: self.trace_id,
            span_id: self.span_id,
            trace_flags: self.trace_flags,
            tracestate: match &self.tracestate {
                Some(tracestate) => Some(tracestate.clone()),
                None => None,
            },
        }
    }
}

impl TraceContext {
    #[verifier::type_invariant]
    spec fn well_formed(self) -> bool {
        self@.wf()
    }

    /// Parses a W3C version-zero `traceparent` and optional `tracestate`.
    pub fn from_traceparent(traceparent: &str, tracestate: Option<&str>) -> (result: Result<
        Self,
        TraceContextParseError,
    >)
        ensures
            parsed(
                result,
                parse_traceparent(
                    traceparent@,
                    match tracestate {
                        Some(tracestate) => Some(tracestate@),
                        None => None,
                    },
                ),
            ),
    {
        let chars = text::chars_of(traceparent);
        let fields = split(chars.as_slice(), '-');
        let ghost expected = split_fields(traceparent@, '-');
        assert(fields@.len() == contents(fields@).len());
        if fields.len() != 4 {
            return Err(TraceContextParseError::InvalidTraceparent);
        }
        assert forall|i: int| 0 <= i < 4 implies #[trigger] fields@[i]@ == expected[i] by {
            assert(contents(fields@)[i] == fields@[i]@);
        }
        let version = &fields[0];
        if version.len() != 2 || version[0] != '0' || version[1] != '0' {
            return Err(TraceContextParseError::UnsupportedVersion);
        }
        assert(expected[0] =~= seq!['0', '0']);
        let trace_id: [u8; 16] = match hex::decode_hex::<16>(fields[1].as_slice()) {
            Some(trace_id) => trace_id,
            None => return Err(TraceContextParseError::InvalidHex),
        };
        let span_id: [u8; 8] = match hex::decode_hex::<8>(fields[2].as_slice()) {
            Some(span_id) => span_id,
            None => return Err(TraceContextParseError::InvalidHex),
        };
        let trace_flags: u8 = match hex::decode_hex::<1>(fields[3].as_slice()) {
            Some(flags) => flags[0],
            None => return Err(TraceContextParseError::InvalidHex),
        };
        if is_all_zero(trace_id.as_slice()) {
            return Err(TraceContextParseError::ZeroTraceId);
        }
        if is_all_zero(span_id.as_slice()) {
            return Err(TraceContextParseError::ZeroSpanId);
        }
        let tracestate: Option<String> = match tracestate {
            Some(tracestate) => {
                match validate_tracestate(tracestate) {
                    Ok(()) => Some(tracestate.to_owned()),
                    Err(error) => return Err(error),
                }
            },
            None => None,
        };
        Ok(TraceContext { trace_id, span_id, trace_flags, tracestate })
    }

    /// Parses the portable extension bytes emitted by [`Self::to_bytes`].
    pub fn from_bytes(bytes: &[u8]) -> (result: Result<Self, TraceContextParseError>)
        ensures
            parsed(result, parse_wire(bytes@)),
    {
        let wire = match text::decode_text(bytes) {
            Some(wire) => wire,
            None => return Err(TraceContextParseError::InvalidWireEncoding),
        };
        proof {
            vstd::utf8::encode_utf8_decode_utf8(wire@);
        }
        let chars = text::chars_of(wire);
        let mut index: usize = 0;
        while index < chars.len()
            invariant
                index <= chars@.len(),
                chars@ == wire@,
                parse_wire(bytes@) == parse_wire_text(wire@),
                forall|i: int| 0 <= i < index ==> wire@[i] != '\n',
            decreases chars@.len() - index,
        {
            if chars[index] == '\n' {
                proof {
                    wire@.index_of_first_ensures('\n');
                    assert(wire@.index_of_first('\n') == Some(index as int));
                }
                let traceparent = wire.substring_char(0, index);
                let tracestate = wire.substring_char(index + 1, chars.len());
                proof {
                    assert(traceparent@ =~= wire@.take(index as int));
                    assert(tracestate@ =~= wire@.skip(index + 1));
                }
                return Self::from_traceparent(traceparent, Some(tracestate));
            }
            index += 1;
        }
        proof {
            wire@.index_of_first_ensures('\n');
        }
        Self::from_traceparent(wire, None)
    }

    /// Serializes the trace context as a standard `traceparent` line followed
    /// by an optional `tracestate` line.
    pub fn to_bytes(&self) -> (bytes: Vec<u8>)
        ensures
            self@.wf(),
            bytes@ == self@.wire_bytes(),
    {
        proof {
            use_type_invariant(self);
        }
        let mut wire = self.traceparent();
        if let Some(tracestate) = &self.tracestate {
            wire.push('\n');
            wire.append(tracestate.as_str());
            assert(wire@ =~= self@.wire_text());
        }
        wire.as_str().as_bytes_vec()
    }

    /// Returns the canonical W3C `traceparent` value.
    pub fn traceparent(&self) -> (traceparent: String)
        ensures
            self@.wf(),
            traceparent@ == self@.traceparent(),
    {
        proof {
            use_type_invariant(self);
        }
        let mut traceparent = String::new();
        traceparent.push('0');
        traceparent.push('0');
        traceparent.push('-');
        traceparent.append(hex::encode_hex::<16>(&self.trace_id).as_str());
        traceparent.push('-');
        traceparent.append(hex::encode_hex::<8>(&self.span_id).as_str());
        traceparent.push('-');
        let flags: [u8; 1] = [self.trace_flags];
        traceparent.append(hex::encode_hex::<1>(&flags).as_str());
        assert(flags@ =~= seq![self.trace_flags]);
        assert(traceparent@ =~= self@.traceparent());
        traceparent
    }

    /// Returns the optional W3C `tracestate` value.
    pub fn tracestate(&self) -> (tracestate: Option<&str>)
        ensures
            self@.wf(),
            match tracestate {
                Some(tracestate) => self@.tracestate == Some(tracestate@),
                None => self@.tracestate is None,
            },
    {
        proof {
            use_type_invariant(self);
        }
        match &self.tracestate {
            Some(tracestate) => Some(tracestate.as_str()),
            None => None,
        }
    }

    /// Returns the 16-byte trace identity.
    pub fn trace_id(&self) -> (trace_id: [u8; 16])
        ensures
            trace_id@ == self@.trace_id,
            !all_zero(trace_id@),
    {
        proof {
            use_type_invariant(self);
        }
        self.trace_id
    }

    /// Returns the 8-byte span identity.
    pub fn span_id(&self) -> (span_id: [u8; 8])
        ensures
            span_id@ == self@.span_id,
    {
        self.span_id
    }

    /// Returns the W3C trace flags.
    pub fn trace_flags(&self) -> (trace_flags: u8)
        ensures
            trace_flags == self@.trace_flags,
    {
        self.trace_flags
    }

    /// Returns a copy with a new span identity for an explicitly created child span.
    #[must_use]
    pub fn with_span_id(self, span_id: [u8; 8]) -> (child: Self)
        ensures
            child@ == (TraceContextView { span_id: span_id@, ..self@ }),
    {
        proof {
            use_type_invariant(&self);
        }
        TraceContext {
            trace_id: self.trace_id,
            span_id,
            trace_flags: self.trace_flags,
            tracestate: self.tracestate,
        }
    }
}

/// Whether the outcome of a parse is the one expected, and what came out is well formed.
pub open spec fn parsed(
    result: Result<TraceContext, TraceContextParseError>,
    expected: Result<TraceContextView, TraceContextParseError>,
) -> bool {
    match result {
        Ok(trace) => expected == Ok::<TraceContextView, TraceContextParseError>(trace@)
            && trace@.wf(),
        Err(error) => expected == Err::<TraceContextView, TraceContextParseError>(error),
    }
}

} // verus!
