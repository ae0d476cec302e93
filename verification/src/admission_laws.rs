//! Laws of signal admission.

use vstd::prelude::*;
use vstd::std_specs::cmp::PartialEqSpec;

use crate::admission;
use crate::signal::{MetricValue, OtelLog, OtelMetric, OtelSignal, OtelSpan};
use crate::trace;

verus! {

/// The bounds themselves.
pub proof fn law_bounds()
    ensures
        admission::MAX_OTEL_SIGNAL_ENCODED_BYTES == 65536,
        admission::MAX_OTEL_SIGNAL_NAME_BYTES == 256,
        admission::MAX_OTEL_LOG_BODY_BYTES == 16384,
        admission::MAX_OTEL_METRIC_UNIT_BYTES == 128,
        admission::MAX_OTEL_ATTRIBUTES == 64,
        admission::MAX_OTEL_ATTRIBUTE_KEY_BYTES == 256,
        admission::MAX_OTEL_ATTRIBUTE_VALUE_BYTES == 4096,
        admission::ENCODED_SIGNAL_FIXED_BYTES == 64,
        admission::ENCODED_STRING_OVERHEAD_BYTES == 8,
        trace::MAX_TRACE_STATE_BYTES == 512,
{
}

/// The number of bytes of a text in UTF-8.
pub open spec fn bytes(content: Seq<char>) -> nat {
    vstd::utf8::encode_utf8(content).len()
}

/// Whether a map has at most 64 entries, with keys of 1 to 256 bytes and values of at most
/// 4096 bytes.
pub open spec fn tidy(entries: Map<Seq<char>, Seq<char>>) -> bool {
    &&& entries.dom().len() <= 64
    &&& forall|key: Seq<char>| #[trigger]
        entries.contains_key(key) ==> key.len() > 0 && bytes(key) <= 256 && bytes(entries[key])
            <= 4096
}

/// A map takes 16 bytes for each entry besides the bytes of its key and its value, and an
/// empty map takes none.
pub proof fn law_attributes_size(
    entries: Map<Seq<char>, Seq<char>>,
    key: Seq<char>,
    value: Seq<char>,
)
    requires
        entries.dom().finite(),
        !entries.contains_key(key),
    ensures
        admission::attributes_bytes(Map::<Seq<char>, Seq<char>>::empty()) == 0,
        admission::attributes_bytes(entries.insert(key, value)) == admission::attributes_bytes(
            entries,
        ) + 16 + bytes(key) + bytes(value),
{
    admission::lemma_attributes_bytes_insert(entries, key, value);
}

/// Which spans are admitted, and their size. A byte of the span identity is not zero, nor is
/// the whole parent identity; the span does not end before it starts; its name takes 1 to 256
/// bytes, and its `tracestate`, where there is one, 1 to 512; its attributes are tidy; and all
/// of it takes at most 65536 bytes.
pub proof fn law_span_admission(span: OtelSpan)
    ensures
        ({
            let size = 64 + 8 + bytes(span.name@) + (match span.trace_context@.tracestate {
                Some(state) => 8 + bytes(state),
                None => 0,
            }) + admission::attributes_bytes(span.attributes@);
            &&& admission::encoded_size(OtelSignal::Span(span)) == size
            &&& admission::valid_signal(OtelSignal::Span(span)) <==> {
                &&& exists|i: int|
                    #![trigger span.trace_context@.span_id[i]]
                    0 <= i < span.trace_context@.span_id.len() && span.trace_context@.span_id[i]
                        != 0
                &&& span.parent_span_id matches Some(parent) ==> exists|i: int|
                    #![trigger parent@[i]]
                    0 <= i < parent@.len() && parent@[i] != 0
                &&& span.ended_at matches Some(end) ==> end >= span.started_at
                &&& span.name@.len() > 0 && bytes(span.name@) <= 256
                &&& span.trace_context@.tracestate matches Some(state) ==> state.len() > 0
                    && bytes(state) <= 512
                &&& tidy(span.attributes@)
                &&& size <= 65536
            }
        }),
{
    lemma_tidy(span.attributes@);
}

/// Which metrics are admitted, and their size. The value is a finite number, that is, its
/// exponent bits are not all ones; the name takes 1 to 256 bytes, and the unit, where there is
/// one, 1 to 128; the attributes are tidy; and all of it takes at most 65536 bytes.
pub proof fn law_metric_admission(metric: OtelMetric)
    ensures
        ({
            let size = 64 + 8 + bytes(metric.name@) + (match metric.unit {
                Some(unit) => 8 + bytes(unit@),
                None => 0,
            }) + admission::attributes_bytes(metric.attributes@);
            &&& admission::encoded_size(OtelSignal::Metric(metric)) == size
            &&& admission::valid_signal(OtelSignal::Metric(metric)) <==> {
                &&& magnitude(metric.value) < 0x7ff0_0000_0000_0000
                &&& metric.name@.len() > 0 && bytes(metric.name@) <= 256
                &&& metric.unit matches Some(unit) ==> unit@.len() > 0 && bytes(unit@) <= 128
                &&& tidy(metric.attributes@)
                &&& size <= 65536
            }
        }),
{
    lemma_tidy(metric.attributes@);
    law_metric_value(metric.value, metric.value);
}

/// Which logs are admitted, and their size. The body takes 1 to 16384 bytes, the attributes
/// are tidy, and all of it takes at most 65536 bytes.
pub proof fn law_log_admission(log: OtelLog)
    ensures
        ({
            let size = 64 + 8 + bytes(log.body@) + admission::attributes_bytes(log.attributes@);
            &&& admission::encoded_size(OtelSignal::Log(log)) == size
            &&& admission::valid_signal(OtelSignal::Log(log)) <==> {
                &&& log.body@.len() > 0 && bytes(log.body@) <= 16384
                &&& tidy(log.attributes@)
                &&& size <= 65536
            }
        }),
{
    lemma_tidy(log.attributes@);
}

/// A span stays admissible, and keeps its size, when its end moves later or is left open.
pub proof fn law_later_end_keeps_admission(span: OtelSpan, later: u128)
    requires
        admission::valid_signal(OtelSignal::Span(span)),
        later >= span.started_at,
    ensures
        admission::valid_signal(OtelSignal::Span(OtelSpan { ended_at: Some(later), ..span })),
        admission::valid_signal(OtelSignal::Span(OtelSpan { ended_at: None, ..span })),
        admission::encoded_size(OtelSignal::Span(OtelSpan { ended_at: Some(later), ..span }))
            == admission::encoded_size(OtelSignal::Span(span)),
{
    law_span_admission(span);
    law_span_admission(OtelSpan { ended_at: Some(later), ..span });
    law_span_admission(OtelSpan { ended_at: None, ..span });
}

/// A span with no more than a name is admitted for every end at or after its start.
pub proof fn law_plain_span_is_admitted(span: OtelSpan, i: int)
    requires
        0 <= i < span.trace_context@.span_id.len(),
        span.trace_context@.span_id[i] != 0,
        span.trace_context@.tracestate is None,
        span.parent_span_id is None,
        0 < span.name@.len() && bytes(span.name@) <= 256,
        span.attributes@ == Map::<Seq<char>, Seq<char>>::empty(),
        span.ended_at matches Some(end) ==> span.started_at <= end,
    ensures
        admission::valid_signal(OtelSignal::Span(span)),
        admission::encoded_size(OtelSignal::Span(span)) == 72 + bytes(span.name@),
{
    law_span_admission(span);
}

/// The two ways to say that attributes are within their bounds agree.
proof fn lemma_tidy(entries: Map<Seq<char>, Seq<char>>)
    ensures
        admission::attributes_fit(entries) <==> tidy(entries),
{
    if admission::attributes_fit(entries) {
        assert forall|key: Seq<char>| #[trigger] entries.contains_key(key) implies key.len() > 0
            && bytes(key) <= 256 && bytes(entries[key]) <= 4096 by {
            assert(admission::fits(key, 256, true));
        }
    }
}

/// The bits of a measurement without its sign bit.
pub open spec fn magnitude(value: MetricValue) -> int {
    value.bits as int % 0x8000_0000_0000_0000
}

/// A measurement is finite exactly if, without its sign bit, its bits are below those of
/// infinity, and no number exactly if they are above. Two measurements are equal exactly if
/// both are numbers, and their bits agree or are zero but for the sign.
pub proof fn law_metric_value(left: MetricValue, right: MetricValue)
    ensures
        left.finite() <==> magnitude(left) < 0x7ff0_0000_0000_0000,
        left.nan() <==> magnitude(left) > 0x7ff0_0000_0000_0000,
        left.eq_spec(&right) <==> {
            &&& magnitude(left) <= 0x7ff0_0000_0000_0000
            &&& magnitude(right) <= 0x7ff0_0000_0000_0000
            &&& left.bits == right.bits || magnitude(left) == 0 && magnitude(right) == 0
        },
{
    lemma_exponent(left.bits);
    lemma_exponent(right.bits);
}

/// The exponent and the fraction of a binary64 number, by magnitude.
proof fn lemma_exponent(bits: u64)
    ensures
        bits as nat / 0x10_0000_0000_0000 % 0x800 != 0x7ff <==> bits as int
            % 0x8000_0000_0000_0000 < 0x7ff0_0000_0000_0000,
        bits as nat / 0x10_0000_0000_0000 % 0x800 == 0x7ff && bits as nat % 0x10_0000_0000_0000
            != 0 <==> bits as int % 0x8000_0000_0000_0000 > 0x7ff0_0000_0000_0000,
{
    assert(bits / 0x10_0000_0000_0000 % 0x800 != 0x7ff <==> bits % 0x8000_0000_0000_0000
        < 0x7ff0_0000_0000_0000) by (bit_vector);
    assert(bits / 0x10_0000_0000_0000 % 0x800 == 0x7ff && bits % 0x10_0000_0000_0000 != 0
        <==> bits % 0x8000_0000_0000_0000 > 0x7ff0_0000_0000_0000) by (bit_vector);
}

/// The text at a place of the row that a list of entries makes: first key, first value, second
/// key, and so on.
pub open spec fn text_at(entries: Seq<(Seq<char>, Seq<char>)>, place: nat) -> Seq<char> {
    if place % 2 == 0 {
        entries[place as int / 2].0
    } else {
        entries[place as int / 2].1
    }
}

/// The size of the first texts of that row.
pub open spec fn row_bytes(entries: Seq<(Seq<char>, Seq<char>)>, places: nat) -> nat
    decreases places,
{
    if places == 0 {
        0
    } else {
        row_bytes(entries, (places - 1) as nat) + 8 + bytes(text_at(entries, (places - 1) as nat))
    }
}

/// Whether the text at a place is refused: an empty key, a key of more than 256 bytes, a value
/// of more than 4096, or any text that brings the count above 65536.
pub open spec fn refused_at(
    counter: nat,
    entries: Seq<(Seq<char>, Seq<char>)>,
    place: nat,
) -> bool {
    let content = text_at(entries, place);
    ||| place % 2 == 0 && content.len() == 0
    ||| bytes(content) > (if place % 2 == 0 {
        256nat
    } else {
        4096nat
    })
    ||| counter + row_bytes(entries, place) + 8 + bytes(content) > 65536
}

/// Counting stops at the first text that is refused, and what was counted up to there stays
/// counted. The result is how many texts were counted.
pub proof fn law_counting_stops_at_first_refusal(
    counter: nat,
    entries: Seq<(Seq<char>, Seq<char>)>,
) -> (places: nat)
    ensures
        places <= 2 * entries.len(),
        admission::counted(counter, entries) == counter + row_bytes(entries, places),
        forall|place: nat| place < places ==> !#[trigger] refused_at(counter, entries, place),
        places < 2 * entries.len() ==> refused_at(counter, entries, places),
    decreases entries.len(),
{
    if entries.len() == 0 {
        0
    } else {
        let (key, value) = entries[0];
        reveal_with_fuel(row_bytes, 3);
        assert(text_at(entries, 0) == key);
        assert(text_at(entries, 1) == value);
        assert(row_bytes(entries, 1) == 8 + bytes(key));
        assert(row_bytes(entries, 2) == 16 + bytes(key) + bytes(value));
        if refused_at(counter, entries, 0) {
            0
        } else if refused_at(counter, entries, 1) {
            1
        } else {
            let rest = entries.drop_first();
            let with_entry = counter + 16 + bytes(key) + bytes(value);
            let more = law_counting_stops_at_first_refusal(with_entry, rest);
            lemma_row_shift(entries, more);
            assert forall|place: nat| place < more + 2 implies !#[trigger] refused_at(
                counter,
                entries,
                place,
            ) by {
                if place >= 2 {
                    let earlier = (place - 2) as nat;
                    lemma_row_shift(entries, earlier);
                    assert(!refused_at(with_entry, rest, earlier));
                    assert(text_at(entries, place) == text_at(rest, earlier));
                }
            }
            if more < 2 * rest.len() {
                assert(text_at(entries, more + 2) == text_at(rest, more));
                assert(refused_at(with_entry, rest, more));
                assert(refused_at(counter, entries, more + 2));
            }
            more + 2
        }
    }
}

/// The row of a list is that of its first entry, followed by that of the others.
proof fn lemma_row_shift(entries: Seq<(Seq<char>, Seq<char>)>, places: nat)
    requires
        entries.len() > 0,
        places <= 2 * (entries.len() - 1),
    ensures
        row_bytes(entries, places + 2) == 16 + bytes(entries[0].0) + bytes(entries[0].1)
            + row_bytes(entries.drop_first(), places),
        places < 2 * (entries.len() - 1) ==> text_at(entries, places + 2) == text_at(
            entries.drop_first(),
            places,
        ),
    decreases places,
{
    reveal_with_fuel(row_bytes, 3);
    if places > 0 {
        lemma_row_shift(entries, (places - 1) as nat);
        let last = (places - 1) as nat;
        assert(text_at(entries, last + 2) == text_at(entries.drop_first(), last));
    }
    assert((places + 2) / 2 == places / 2 + 1);
}

/// When a single text may be counted: it is there if it has to be, it takes no more than its
/// bound, and with its eight bytes of prefix it brings the count to 65536 at most.
pub proof fn law_text_is_counted(
    counter: nat,
    content: Seq<char>,
    maximum_bytes: nat,
    required: bool,
)
    ensures
        admission::countable(counter, content, maximum_bytes, required) <==> !(required
            && content.len() == 0) && bytes(content) <= maximum_bytes && counter + 8 + bytes(
            content,
        ) <= 65536,
        admission::field_bytes(content) == 8 + bytes(content),
{
}

} // verus!
