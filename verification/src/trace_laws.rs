//! Laws of the Trace Context formats.

use vstd::prelude::*;

use crate::hex;
use crate::trace;

verus! {

/// A text without separators is its own only field.
proof fn lemma_single_field(field: Seq<char>, separator: char)
    requires
        !field.contains(separator),
    ensures
        trace::split_fields(field, separator) == seq![field],
    decreases field.len(),
{
    if field.len() > 0 {
        let rest = field.drop_last();
        assert(field.contains(field.last()));
        assert forall|i: int| 0 <= i < rest.len() implies rest[i] != separator by {
            assert(field.contains(field[i]));
        }
        lemma_single_field(rest, separator);
        assert(rest.push(field.last()) =~= field);
        assert(trace::split_fields(field, separator) =~= seq![field]);
    } else {
        assert(field =~= Seq::empty());
    }
}

/// What follows the last separator is the last field.
proof fn lemma_last_field(before: Seq<char>, field: Seq<char>, separator: char)
    requires
        !field.contains(separator),
    ensures
        trace::split_fields(before + seq![separator] + field, separator) == trace::split_fields(
            before,
            separator,
        ).push(field),
    decreases field.len(),
{
    let whole = before + seq![separator] + field;
    let earlier = trace::split_fields(before, separator);
    if field.len() > 0 {
        let rest = field.drop_last();
        assert(field.contains(field.last()));
        assert forall|i: int| 0 <= i < rest.len() implies rest[i] != separator by {
            assert(field.contains(field[i]));
        }
        lemma_last_field(before, rest, separator);
        assert(whole.drop_last() =~= before + seq![separator] + rest);
        assert(earlier.push(rest).drop_last() =~= earlier);
        assert(rest.push(field.last()) =~= field);
    } else {
        assert(whole.drop_last() =~= before);
        assert(field =~= Seq::empty());
    }
}

/// Fields joined by separators.
pub open spec fn join_fields(fields: Seq<Seq<char>>, separator: char) -> Seq<char>
    decreases fields.len(),
{
    if fields.len() == 0 {
        Seq::empty()
    } else if fields.len() == 1 {
        fields[0]
    } else {
        join_fields(fields.drop_last(), separator) + seq![separator] + fields.last()
    }
}

/// Joining the fields of a text gives the text back.
pub proof fn law_split_then_join(source: Seq<char>, separator: char)
    ensures
        trace::split_fields(source, separator).len() >= 1,
        join_fields(trace::split_fields(source, separator), separator) == source,
    decreases source.len(),
{
    let fields = trace::split_fields(source, separator);
    if source.len() == 0 {
        assert(source =~= Seq::empty());
    } else {
        let rest = source.drop_last();
        let before = trace::split_fields(rest, separator);
        law_split_then_join(rest, separator);
        assert(rest.push(source.last()) =~= source);
        if source.last() == separator {
            assert(fields.drop_last() =~= before);
            assert(join_fields(fields, separator) =~= source);
        } else {
            assert(fields.drop_last() =~= before.drop_last());
            assert(join_fields(fields, separator) =~= source);
        }
    }
}

/// A hexadecimal notation holds neither a field separator nor a line break.
proof fn lemma_notation_has_no_separator(bytes: Seq<u8>)
    ensures
        !hex::notation(bytes).contains('-'),
        !hex::notation(bytes).contains('\n'),
{
    hex::lemma_value_of_notation(bytes);
    let notation = hex::notation(bytes);
    assert forall|i: int| 0 <= i < notation.len() implies notation[i] != '-' && notation[i]
        != '\n' by {
        assert(hex::is_digit(notation[i]));
    }
}

/// The fields of a canonical `traceparent`.
proof fn lemma_fields_of_traceparent(trace_context: trace::TraceContextView)
    ensures
        trace::split_fields(trace_context.traceparent(), '-') == seq![
            seq!['0', '0'],
            hex::notation(trace_context.trace_id),
            hex::notation(trace_context.span_id),
            hex::notation(seq![trace_context.trace_flags]),
        ],
        !trace_context.traceparent().contains('\n'),
{
    let version = seq!['0', '0'];
    let trace_id = hex::notation(trace_context.trace_id);
    let span_id = hex::notation(trace_context.span_id);
    let flags = hex::notation(seq![trace_context.trace_flags]);
    let with_trace = version + seq!['-'] + trace_id;
    let with_span = with_trace + seq!['-'] + span_id;
    let whole = with_span + seq!['-'] + flags;
    assert(whole =~= trace_context.traceparent());
    lemma_notation_has_no_separator(trace_context.trace_id);
    lemma_notation_has_no_separator(trace_context.span_id);
    lemma_notation_has_no_separator(seq![trace_context.trace_flags]);
    lemma_single_field(version, '-');
    lemma_last_field(version, trace_id, '-');
    lemma_last_field(with_trace, span_id, '-');
    lemma_last_field(with_span, flags, '-');
    assert(trace::split_fields(whole, '-') =~= seq![version, trace_id, span_id, flags]);
    assert forall|i: int| 0 <= i < whole.len() implies whole[i] != '\n' by {
        if whole[i] == '\n' {
            if i < version.len() {
            } else if version.len() < i < with_trace.len() {
                assert(trace_id[i - version.len() - 1] == '\n');
            } else if with_trace.len() < i < with_span.len() {
                assert(span_id[i - with_trace.len() - 1] == '\n');
            } else if with_span.len() < i {
                assert(flags[i - with_span.len() - 1] == '\n');
            }
        }
    }
}

/// Printing a trace context and parsing the text gives the trace context back, as long as
/// its span identity is not zero; a zero span identity is what the parser reports.
pub proof fn law_traceparent_round_trip(trace_context: trace::TraceContextView)
    requires
        trace_context.wf(),
    ensures
        !trace::all_zero(trace_context.span_id) ==> trace::parse_traceparent(
            trace_context.traceparent(),
            trace_context.tracestate,
        ) == Ok::<trace::TraceContextView, trace::TraceContextParseError>(trace_context),
        trace::all_zero(trace_context.span_id) ==> trace::parse_traceparent(
            trace_context.traceparent(),
            trace_context.tracestate,
        ) == Err::<trace::TraceContextView, trace::TraceContextParseError>(
            trace::TraceContextParseError::ZeroSpanId,
        ),
{
    lemma_fields_of_traceparent(trace_context);
    hex::lemma_value_of_notation(trace_context.trace_id);
    hex::lemma_value_of_notation(trace_context.span_id);
    hex::lemma_value_of_notation(seq![trace_context.trace_flags]);
}

/// A `traceparent` is accepted only in its canonical form: what it parses to prints as the
/// very same text, carries the very same `tracestate`, and has no zero identity.
pub proof fn law_accepted_traceparent_is_canonical(
    traceparent: Seq<char>,
    tracestate: Option<Seq<char>>,
)
    requires
        trace::parse_traceparent(traceparent, tracestate) is Ok,
    ensures
        ({
            let trace_context = trace::parse_traceparent(traceparent, tracestate)->Ok_0;
            &&& trace_context.wf()
            &&& !trace::all_zero(trace_context.span_id)
            &&& trace_context.traceparent() == traceparent
            &&& trace_context.tracestate == tracestate
        }),
{
    let trace_context = trace::parse_traceparent(traceparent, tracestate)->Ok_0;
    let fields = trace::split_fields(traceparent, '-');
    law_split_then_join(traceparent, '-');
    hex::lemma_notation_of_value(fields[1], 16);
    hex::lemma_notation_of_value(fields[2], 8);
    hex::lemma_notation_of_value(fields[3], 1);
    assert(hex::value(fields[3]) =~= seq![trace_context.trace_flags]);
    let three = fields.drop_last();
    let two = three.drop_last();
    let one = two.drop_last();
    assert(join_fields(one, '-') == fields[0]);
    assert(join_fields(two, '-') == fields[0] + seq!['-'] + fields[1]);
    assert(join_fields(three, '-') == join_fields(two, '-') + seq!['-'] + fields[2]);
    assert(trace_context.traceparent() =~= traceparent);
}

/// Reading back the wire bytes of a trace context gives the trace context, as long as its
/// span identity is not zero; a zero span identity is what the reader reports.
pub proof fn law_wire_round_trip(trace_context: trace::TraceContextView)
    requires
        trace_context.wf(),
    ensures
        !trace::all_zero(trace_context.span_id) ==> trace::parse_wire(trace_context.wire_bytes())
            == Ok::<trace::TraceContextView, trace::TraceContextParseError>(trace_context),
        trace::all_zero(trace_context.span_id) ==> trace::parse_wire(trace_context.wire_bytes())
            == Err::<trace::TraceContextView, trace::TraceContextParseError>(
            trace::TraceContextParseError::ZeroSpanId,
        ),
{
    let wire = trace_context.wire_text();
    let traceparent = trace_context.traceparent();
    vstd::utf8::encode_utf8_valid_utf8(wire);
    vstd::utf8::encode_utf8_decode_utf8(wire);
    lemma_fields_of_traceparent(trace_context);
    law_traceparent_round_trip(trace_context);
    wire.index_of_first_ensures('\n');
    match trace_context.tracestate {
        Some(tracestate) => {
            let line_end = traceparent.len() as int;
            assert(wire[line_end] == '\n');
            assert(wire.contains('\n'));
            let found = wire.index_of_first('\n')->0;
            assert(found == line_end) by {
                if found < line_end {
                    assert(traceparent[found] == '\n');
                }
            }
            assert(wire.take(line_end) =~= traceparent);
            assert(wire.skip(line_end + 1) =~= tracestate);
        },
        None => {},
    }
}

/// Wire bytes are accepted only in their canonical form: what they stand for serializes to
/// the very same bytes. Two different byte strings never stand for one trace context.
pub proof fn law_accepted_wire_is_canonical(bytes: Seq<u8>)
    requires
        trace::parse_wire(bytes) is Ok,
    ensures
        trace::parse_wire(bytes)->Ok_0.wf(),
        trace::parse_wire(bytes)->Ok_0.wire_bytes() == bytes,
{
    let wire = vstd::utf8::decode_utf8(bytes);
    vstd::utf8::decode_utf8_encode_utf8(bytes);
    wire.index_of_first_ensures('\n');
    match wire.index_of_first('\n') {
        Some(line_end) => {
            let tracestate = wire.skip(line_end + 1);
            law_accepted_traceparent_is_canonical(wire.take(line_end), Some(tracestate));
            assert(wire.take(line_end) + seq!['\n'] + tracestate =~= wire);
        },
        None => {
            law_accepted_traceparent_is_canonical(wire, None);
        },
    }
}

/// The value of a lower-case hexadecimal digit, by its character code.
pub open spec fn digit_code(c: char) -> int {
    if c as int <= 57 {
        c as int - 48
    } else {
        c as int - 87
    }
}

/// Whether a text has the layout of a version-zero `traceparent`: 55 characters, `00`, three
/// dashes at their places, and digits `0` to `9` or `a` to `f` at all others.
pub open spec fn laid_out(traceparent: Seq<char>) -> bool {
    &&& traceparent.len() == 55
    &&& traceparent[0] == '0' && traceparent[1] == '0'
    &&& traceparent[2] == '-' && traceparent[35] == '-' && traceparent[52] == '-'
    &&& forall|i: int|
        #![trigger traceparent[i]]
        3 <= i < 55 && i != 35 && i != 52 ==> 48 <= traceparent[i] as int <= 57 || 97
            <= traceparent[i] as int <= 102
}

/// Whether a text may stand as a `tracestate`: not empty, at most 512 bytes in UTF-8, and
/// every character at or above U+0020 and not U+007F.
pub open spec fn printable(tracestate: Seq<char>) -> bool {
    &&& tracestate.len() > 0
    &&& vstd::utf8::encode_utf8(tracestate).len() <= 512
    &&& forall|i: int|
        #![trigger tracestate[i]]
        0 <= i < tracestate.len() ==> tracestate[i] as int >= 0x20 && tracestate[i] as int != 0x7f
}

/// How many dashes a text has.
pub open spec fn dashes(content: Seq<char>) -> nat
    decreases content.len(),
{
    if content.len() == 0 {
        0
    } else if content.last() == '-' {
        dashes(content.drop_last()) + 1
    } else {
        dashes(content.drop_last())
    }
}

/// A `tracestate` is accepted exactly if it is not empty, takes at most 512 bytes, and has no
/// character below U+0020 and none that is U+007F.
pub proof fn law_tracestate_verdict(tracestate: Seq<char>)
    ensures
        trace::valid_tracestate(tracestate) <==> printable(tracestate),
{
    if trace::valid_tracestate(tracestate) {
        assert forall|i: int|
            #![trigger tracestate[i]]
            0 <= i < tracestate.len() implies tracestate[i] as int >= 0x20 && tracestate[i] as int
            != 0x7f by {
            assert(!trace::is_control(tracestate[i]));
        }
    }
    if printable(tracestate) {
        assert forall|i: int| 0 <= i < tracestate.len() implies !trace::is_control(
            #[trigger] tracestate[i],
        ) by {
            assert(tracestate[i] as int >= 0x20);
        }
    }
}

/// A text with so many dashes has one field more, and no field holds a dash.
proof fn lemma_count_fields(content: Seq<char>)
    ensures
        trace::split_fields(content, '-').len() == dashes(content) + 1,
        forall|i: int, j: int|
            0 <= i < trace::split_fields(content, '-').len() && 0 <= j < trace::split_fields(
                content,
                '-',
            )[i].len() ==> #[trigger] trace::split_fields(content, '-')[i][j] != '-',
    decreases content.len(),
{
    let fields = trace::split_fields(content, '-');
    if content.len() > 0 {
        let before = trace::split_fields(content.drop_last(), '-');
        lemma_count_fields(content.drop_last());
        assert forall|i: int, j: int|
            0 <= i < fields.len() && 0 <= j < fields[i].len() implies #[trigger] fields[i][j]
            != '-' by {
            if i < before.len() - 1 || content.last() == '-' {
                if i < before.len() {
                    assert(fields[i] == before[i]);
                    assert(before[i][j] != '-');
                }
            } else {
                assert(fields[i] == before.last().push(content.last()));
                if j < before.last().len() {
                    assert(before[before.len() - 1][j] != '-');
                }
            }
        }
    }
}

/// The four fields of a text, joined again.
proof fn lemma_join_four(content: Seq<char>)
    requires
        trace::split_fields(content, '-').len() == 4,
    ensures
        ({
            let fields = trace::split_fields(content, '-');
            content == fields[0] + seq!['-'] + fields[1] + seq!['-'] + fields[2] + seq!['-']
                + fields[3]
        }),
{
    let fields = trace::split_fields(content, '-');
    law_split_then_join(content, '-');
    let three = fields.drop_last();
    let two = three.drop_last();
    let one = two.drop_last();
    assert(join_fields(one, '-') == fields[0]);
    assert(join_fields(two, '-') == fields[0] + seq!['-'] + fields[1]);
    assert(join_fields(three, '-') == join_fields(two, '-') + seq!['-'] + fields[2]);
}

/// The fields of a text that has the layout.
proof fn lemma_fields_of_layout(content: Seq<char>)
    requires
        laid_out(content),
    ensures
        trace::split_fields(content, '-') == seq![
            content.subrange(0, 2),
            content.subrange(3, 35),
            content.subrange(36, 52),
            content.subrange(53, 55),
        ],
        dashes(content) == 3,
{
    let version = content.subrange(0, 2);
    let trace_id = content.subrange(3, 35);
    let span_id = content.subrange(36, 52);
    let flags = content.subrange(53, 55);
    let with_trace = version + seq!['-'] + trace_id;
    let with_span = with_trace + seq!['-'] + span_id;
    let whole = with_span + seq!['-'] + flags;
    assert(whole =~= content);
    assert forall|i: int| 0 <= i < trace_id.len() implies trace_id[i] != '-' by {
        assert(trace_id[i] == content[i + 3]);
    }
    assert forall|i: int| 0 <= i < span_id.len() implies span_id[i] != '-' by {
        assert(span_id[i] == content[i + 36]);
    }
    assert forall|i: int| 0 <= i < flags.len() implies flags[i] != '-' by {
        assert(flags[i] == content[i + 53]);
    }
    lemma_single_field(version, '-');
    lemma_last_field(version, trace_id, '-');
    lemma_last_field(with_trace, span_id, '-');
    lemma_last_field(with_span, flags, '-');
    assert(trace::split_fields(whole, '-') =~= seq![version, trace_id, span_id, flags]);
    lemma_count_fields(content);
}

/// The version field and the places of the dashes say the same thing.
proof fn lemma_version_field(content: Seq<char>)
    requires
        trace::split_fields(content, '-').len() == 4,
    ensures
        trace::split_fields(content, '-')[0] == seq!['0', '0'] <==> content.len() >= 3
            && content[0] == '0' && content[1] == '0' && content[2] == '-',
{
    let fields = trace::split_fields(content, '-');
    lemma_join_four(content);
    lemma_count_fields(content);
    let first = fields[0];
    assert(content[first.len() as int] == '-');
    assert forall|j: int| 0 <= j < first.len() implies content[j] == first[j] && first[j]
        != '-' by {
        assert(fields[0][j] != '-');
    }
    if content.len() >= 3 && content[0] == '0' && content[1] == '0' && content[2] == '-' {
        assert(first.len() == 2) by {
            if first.len() > 2 {
                assert(content[2] == first[2]);
            }
        }
        assert(first =~= seq!['0', '0']);
    }
}

/// The field lengths and digits of a version-zero text say the same as the layout.
proof fn lemma_digits_of_layout(content: Seq<char>)
    requires
        trace::split_fields(content, '-').len() == 4,
        trace::split_fields(content, '-')[0] == seq!['0', '0'],
    ensures
        ({
            let fields = trace::split_fields(content, '-');
            (hex::denotes(fields[1], 16) && hex::denotes(fields[2], 8) && hex::denotes(
                fields[3],
                1,
            )) <==> laid_out(content)
        }),
{
    let fields = trace::split_fields(content, '-');
    lemma_join_four(content);
    if hex::denotes(fields[1], 16) && hex::denotes(fields[2], 8) && hex::denotes(fields[3], 1) {
        assert forall|i: int|
            #![trigger content[i]]
            3 <= i < 55 && i != 35 && i != 52 implies 48 <= content[i] as int <= 57 || 97
            <= content[i] as int <= 102 by {
            if i < 35 {
                assert(content[i] == fields[1][i - 3]);
                assert(hex::is_digit(fields[1][i - 3]));
            } else if i < 52 {
                assert(content[i] == fields[2][i - 36]);
                assert(hex::is_digit(fields[2][i - 36]));
            } else {
                assert(content[i] == fields[3][i - 53]);
                assert(hex::is_digit(fields[3][i - 53]));
            }
        }
        assert(laid_out(content));
    }
    if laid_out(content) {
        lemma_fields_of_layout(content);
        assert forall|i: int| 0 <= i < 32 implies hex::is_digit(#[trigger] fields[1][i]) by {
            assert(fields[1][i] == content[i + 3]);
        }
        assert forall|i: int| 0 <= i < 16 implies hex::is_digit(#[trigger] fields[2][i]) by {
            assert(fields[2][i] == content[i + 36]);
        }
        assert forall|i: int| 0 <= i < 2 implies hex::is_digit(#[trigger] fields[3][i]) by {
            assert(fields[3][i] == content[i + 53]);
        }
    }
}

/// The bytes that a row of digits of a layout stands for.
proof fn lemma_value_of_digits(content: Seq<char>, start: int, count: nat)
    requires
        laid_out(content),
        3 <= start,
        start + 2 * count <= 55,
        start + 2 * count <= 35 || 35 < start,
        start + 2 * count <= 52 || 52 < start,
    ensures
        ({
            let bytes = hex::value(content.subrange(start, start + 2 * count));
            &&& bytes.len() == count
            &&& forall|i: int|
                #![trigger bytes[i]]
                0 <= i < count ==> bytes[i] as int == 16 * digit_code(content[start + 2 * i])
                    + digit_code(content[start + 2 * i + 1])
            &&& trace::all_zero(bytes) <==> (forall|i: int|
                #![trigger content[i]]
                start <= i < start + 2 * count ==> content[i] == '0')
        }),
{
    reveal(hex::value);
    let digits = content.subrange(start, start + 2 * count);
    let bytes = hex::value(digits);
    assert forall|i: int| #![trigger bytes[i]] 0 <= i < count implies bytes[i] as int == 16
        * digit_code(content[start + 2 * i]) + digit_code(content[start + 2 * i + 1]) by {
        assert(digits[2 * i] == content[start + 2 * i]);
        assert(digits[2 * i + 1] == content[start + 2 * i + 1]);
    }
    if trace::all_zero(bytes) {
        assert forall|i: int|
            #![trigger content[i]]
            start <= i < start + 2 * count implies content[i] == '0' by {
            let k = (i - start) / 2;
            assert(bytes[k] == 0);
            assert(i == start + 2 * k || i == start + 2 * k + 1);
            assert(content[start + 2 * k] as int >= 48 && content[start + 2 * k + 1] as int >= 48);
        }
    }
    if forall|i: int|
        #![trigger content[i]]
        start <= i < start + 2 * count ==> content[i] == '0' {
        assert forall|i: int| 0 <= i < bytes.len() implies bytes[i] == 0 by {
            assert(content[start + 2 * i] == '0' && content[start + 2 * i + 1] == '0');
        }
    }
}

/// What parsing a `traceparent` and an optional `tracestate` comes to, character by
/// character. Not three dashes, not version `00`, not the layout, an all-zero identity and an
/// unprintable `tracestate` are reported, in this order; every other input is accepted, and
/// the digits at their places are the bytes of the identities and the flags.
pub proof fn law_traceparent_verdict(
    traceparent: Seq<char>,
    tracestate: Option<Seq<char>>,
    result: Result<trace::TraceContext, trace::TraceContextParseError>,
)
    requires
        trace::parsed(result, trace::parse_traceparent(traceparent, tracestate)),
    ensures
        dashes(traceparent) != 3 ==> result == Err::<trace::TraceContext, _>(
            trace::TraceContextParseError::InvalidTraceparent,
        ),
        dashes(traceparent) == 3 && !(traceparent.len() >= 3 && traceparent[0] == '0'
            && traceparent[1] == '0' && traceparent[2] == '-') ==> result == Err::<
            trace::TraceContext,
            _,
        >(trace::TraceContextParseError::UnsupportedVersion),
        dashes(traceparent) == 3 && traceparent.len() >= 3 && traceparent[0] == '0'
            && traceparent[1] == '0' && traceparent[2] == '-' && !laid_out(traceparent) ==> result
            == Err::<trace::TraceContext, _>(trace::TraceContextParseError::InvalidHex),
        laid_out(traceparent) && (forall|i: int|
            #![trigger traceparent[i]]
            3 <= i < 35 ==> traceparent[i] == '0') ==> result == Err::<trace::TraceContext, _>(
            trace::TraceContextParseError::ZeroTraceId,
        ),
        laid_out(traceparent) && !(forall|i: int|
            #![trigger traceparent[i]]
            3 <= i < 35 ==> traceparent[i] == '0') && (forall|i: int|
            #![trigger traceparent[i]]
            36 <= i < 52 ==> traceparent[i] == '0') ==> result == Err::<trace::TraceContext, _>(
            trace::TraceContextParseError::ZeroSpanId,
        ),
        laid_out(traceparent) && !(forall|i: int|
            #![trigger traceparent[i]]
            3 <= i < 35 ==> traceparent[i] == '0') && !(forall|i: int|
            #![trigger traceparent[i]]
            36 <= i < 52 ==> traceparent[i] == '0') ==> {
            if tracestate matches Some(state) && !printable(state) {
                result == Err::<trace::TraceContext, _>(
                    trace::TraceContextParseError::InvalidTracestate,
                )
            } else {
                &&& result is Ok
                &&& result->Ok_0@.tracestate == tracestate
                &&& result->Ok_0@.trace_id.len() == 16
                &&& result->Ok_0@.span_id.len() == 8
                &&& forall|i: int|
                    #![trigger result->Ok_0@.trace_id[i]]
                    0 <= i < 16 ==> result->Ok_0@.trace_id[i] as int == 16 * digit_code(
                        traceparent[3 + 2 * i],
                    ) + digit_code(traceparent[4 + 2 * i])
                &&& forall|i: int|
                    #![trigger result->Ok_0@.span_id[i]]
                    0 <= i < 8 ==> result->Ok_0@.span_id[i] as int == 16 * digit_code(
                        traceparent[36 + 2 * i],
                    ) + digit_code(traceparent[37 + 2 * i])
                &&& result->Ok_0@.trace_flags as int == 16 * digit_code(traceparent[53])
                    + digit_code(traceparent[54])
            }
        },
{
    lemma_count_fields(traceparent);
    let fields = trace::split_fields(traceparent, '-');
    if fields.len() == 4 {
        lemma_version_field(traceparent);
        if fields[0] == seq!['0', '0'] {
            lemma_digits_of_layout(traceparent);
        }
    }
    if laid_out(traceparent) {
        lemma_fields_of_layout(traceparent);
        lemma_version_field(traceparent);
        lemma_digits_of_layout(traceparent);
        lemma_value_of_digits(traceparent, 3, 16);
        lemma_value_of_digits(traceparent, 36, 8);
        lemma_value_of_digits(traceparent, 53, 1);
        if let Some(state) = tracestate {
            law_tracestate_verdict(state);
        }
        if result is Ok {
            assert(result->Ok_0@.trace_flags == hex::value(fields[3])[0]);
        }
    }
}

/// What reading wire bytes comes to: bytes that are not UTF-8 are refused; otherwise the text
/// up to the first line break is the `traceparent`, and what follows the line break, if there
/// is one, is the `tracestate`.
pub proof fn law_wire_verdict(
    line: Seq<char>,
    rest: Seq<char>,
    bytes: Seq<u8>,
    result: Result<trace::TraceContext, trace::TraceContextParseError>,
)
    requires
        trace::parsed(result, trace::parse_wire(bytes)),
        forall|i: int| #![trigger line[i]] 0 <= i < line.len() ==> line[i] as int != 10,
    ensures
        !vstd::utf8::valid_utf8(bytes) ==> result == Err::<trace::TraceContext, _>(
            trace::TraceContextParseError::InvalidWireEncoding,
        ),
        bytes == vstd::utf8::encode_utf8(line) ==> trace::parsed(
            result,
            trace::parse_traceparent(line, None),
        ),
        bytes == vstd::utf8::encode_utf8(line + seq!['\n'] + rest) ==> trace::parsed(
            result,
            trace::parse_traceparent(line, Some(rest)),
        ),
{
    let whole = line + seq!['\n'] + rest;
    vstd::utf8::encode_utf8_valid_utf8(line);
    vstd::utf8::encode_utf8_decode_utf8(line);
    vstd::utf8::encode_utf8_valid_utf8(whole);
    vstd::utf8::encode_utf8_decode_utf8(whole);
    line.index_of_first_ensures('\n');
    whole.index_of_first_ensures('\n');
    assert(!line.contains('\n'));
    let line_end = line.len() as int;
    assert(whole[line_end] == '\n');
    let found = whole.index_of_first('\n')->0;
    assert(found == line_end) by {
        if found < line_end {
            assert(line[found] == '\n');
        }
    }
    assert(whole.take(line_end) =~= line);
    assert(whole.skip(line_end + 1) =~= rest);
}

/// What printing a trace context comes to, character by character: the layout of a version-zero
/// `traceparent`, whose digits are those of the identities and the flags.
pub proof fn law_printed_traceparent(trace_context: trace::TraceContextView)
    requires
        trace_context.trace_id.len() == 16,
        trace_context.span_id.len() == 8,
    ensures
        laid_out(trace_context.traceparent()),
        forall|i: int|
            #![trigger trace_context.trace_id[i]]
            0 <= i < 16 ==> 16 * digit_code(trace_context.traceparent()[3 + 2 * i]) + digit_code(
                trace_context.traceparent()[4 + 2 * i],
            ) == trace_context.trace_id[i],
        forall|i: int|
            #![trigger trace_context.span_id[i]]
            0 <= i < 8 ==> 16 * digit_code(trace_context.traceparent()[36 + 2 * i]) + digit_code(
                trace_context.traceparent()[37 + 2 * i],
            ) == trace_context.span_id[i],
        16 * digit_code(trace_context.traceparent()[53]) + digit_code(
            trace_context.traceparent()[54],
        ) == trace_context.trace_flags,
        trace_context.tracestate is None ==> trace_context.wire_bytes() == vstd::utf8::encode_utf8(
            trace_context.traceparent(),
        ),
        trace_context.tracestate matches Some(state) ==> trace_context.wire_bytes()
            == vstd::utf8::encode_utf8(trace_context.traceparent() + seq!['\n'] + state),
{
    let content = trace_context.traceparent();
    lemma_fields_of_traceparent(trace_context);
    hex::lemma_value_of_notation(trace_context.trace_id);
    hex::lemma_value_of_notation(trace_context.span_id);
    hex::lemma_value_of_notation(seq![trace_context.trace_flags]);
    lemma_digits_of_layout(content);
    lemma_fields_of_layout(content);
    lemma_value_of_digits(content, 3, 16);
    lemma_value_of_digits(content, 36, 8);
    lemma_value_of_digits(content, 53, 1);
    let fields = trace::split_fields(content, '-');
    assert(hex::value(fields[3])[0] == seq![trace_context.trace_flags][0]);
}

/// What holds of every trace context: identities of 16 and 8 bytes, a trace identity with a
/// byte that is not zero, and a printable `tracestate` where there is one.
pub proof fn law_trace_context_is_well_formed(trace_context: trace::TraceContextView)
    ensures
        trace_context.wf() <==> {
            &&& trace_context.trace_id.len() == 16
            &&& trace_context.span_id.len() == 8
            &&& exists|i: int|
                #![trigger trace_context.trace_id[i]]
                0 <= i < 16 && trace_context.trace_id[i] != 0
            &&& trace_context.tracestate matches Some(state) ==> printable(state)
        },
{
    if let Some(state) = trace_context.tracestate {
        law_tracestate_verdict(state);
    }
}

} // verus!
