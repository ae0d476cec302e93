//! Bounds that a signal has to keep before it may enter a queue.

use vstd::prelude::*;

use crate::attributes;
use crate::attributes::Attributes;
use crate::signal::OtelSignal;
use crate::text;
use crate::trace;

verus! {

/// Maximum conservative encoded size of one queued `OTel` signal.
pub const MAX_OTEL_SIGNAL_ENCODED_BYTES: usize = 64 * 1024;

/// Maximum UTF-8 size of a span or metric name.
pub const MAX_OTEL_SIGNAL_NAME_BYTES: usize = 256;

/// Maximum UTF-8 size of a log body.
pub const MAX_OTEL_LOG_BODY_BYTES: usize = 16 * 1024;

/// Maximum UTF-8 size of a metric unit.
pub const MAX_OTEL_METRIC_UNIT_BYTES: usize = 128;

/// Maximum attribute cardinality on one signal.
pub const MAX_OTEL_ATTRIBUTES: usize = 64;

/// Maximum UTF-8 size of one attribute key.
pub const MAX_OTEL_ATTRIBUTE_KEY_BYTES: usize = 256;

/// Maximum UTF-8 size of one attribute value.
pub const MAX_OTEL_ATTRIBUTE_VALUE_BYTES: usize = 4 * 1024;

/// Conservative size of the structural envelope of a signal. Exporter protocol framing is
/// not retained in the queue and remains exporter-owned.
pub const ENCODED_SIGNAL_FIXED_BYTES: usize = 64;

/// Size of the length prefix of one UTF-8 field.
pub const ENCODED_STRING_OVERHEAD_BYTES: usize = 8;

/// Invalid explicit application signal.
#[derive(Clone, Copy, Debug, Eq, PartialEq)]
pub enum TelemetryError {
    /// A required field was invalid or the signal exceeded an admission bound.
    InvalidSignal,
}

/// The encoded size of one text field: its length prefix and its UTF-8 bytes.
pub open spec fn field_bytes(field: Seq<char>) -> nat {
    ENCODED_STRING_OVERHEAD_BYTES as nat + text::utf8_len(field)
}

/// Whether a text field is within its bound, and not empty where it is required.
pub open spec fn fits(field: Seq<char>, maximum_bytes: nat, required: bool) -> bool {
    &&& required ==> field.len() > 0
    &&& text::utf8_len(field) <= maximum_bytes
}

/// The encoded size of an attribute map: that of every key and every value.
pub open spec fn attributes_bytes(entries: Map<Seq<char>, Seq<char>>) -> nat
    decreases entries.dom().len(),
    when entries.dom().finite()
{
    if entries.dom().len() == 0 {
        0
    } else {
        let key = entries.dom().choose();
        field_bytes(key) + field_bytes(entries[key]) + attributes_bytes(entries.remove(key))
    }
}

/// Whether there are not too many attributes, and each is within its bounds.
pub open spec fn attributes_fit(entries: Map<Seq<char>, Seq<char>>) -> bool {
    &&& entries.dom().len() <= MAX_OTEL_ATTRIBUTES
    &&& forall|key: Seq<char>| #[trigger]
        entries.contains_key(key) ==> {
            &&& fits(key, MAX_OTEL_ATTRIBUTE_KEY_BYTES as nat, true)
            &&& fits(entries[key], MAX_OTEL_ATTRIBUTE_VALUE_BYTES as nat, false)
        }
}

/// Whether a text field may be counted: it is within its bound, and so is the sum.
pub open spec fn countable(
    counter: nat,
    field: Seq<char>,
    maximum_bytes: nat,
    required: bool,
) -> bool {
    &&& fits(field, maximum_bytes, required)
    &&& counter + field_bytes(field) <= MAX_OTEL_SIGNAL_ENCODED_BYTES
}

/// The counter after the keys and values of a list were counted one by one, up to the first
/// that may not be counted.
pub open spec fn counted(counter: nat, entries: Seq<(Seq<char>, Seq<char>)>) -> nat
    decreases entries.len(),
{
    if entries.len() == 0 {
        counter
    } else {
        let (key, value) = entries[0];
        let with_key = counter + field_bytes(key);
        if !countable(counter, key, MAX_OTEL_ATTRIBUTE_KEY_BYTES as nat, true) {
            counter
        } else if !countable(with_key, value, MAX_OTEL_ATTRIBUTE_VALUE_BYTES as nat, false) {
            with_key
        } else {
            counted(with_key + field_bytes(value), entries.drop_first())
        }
    }
}

/// The attributes of a signal.
pub open spec fn signal_attributes(signal: OtelSignal) -> Map<Seq<char>, Seq<char>> {
    match signal {
        OtelSignal::Span(span) => span.attributes@,
        OtelSignal::Metric(metric) => metric.attributes@,
        OtelSignal::Log(log) => log.attributes@,
    }
}

/// The encoded size of the fields of a signal besides its attributes.
pub open spec fn fields_bytes(signal: OtelSignal) -> nat {
    match signal {
        OtelSignal::Span(span) => field_bytes(span.name@) + (match span.trace_context@.tracestate {
            Some(tracestate) => field_bytes(tracestate),
            None => 0,
        }),
        OtelSignal::Metric(metric) => field_bytes(metric.name@) + (match metric.unit {
            Some(unit) => field_bytes(unit@),
            None => 0,
        }),
        OtelSignal::Log(log) => field_bytes(log.body@),
    }
}

/// Whether the fields of a signal besides its attributes are sound. A span has no zero span
/// identity and does not end before it starts; a metric has a finite value; every text is
/// there and within its bound.
pub open spec fn fields_fit(signal: OtelSignal) -> bool {
    match signal {
        OtelSignal::Span(span) => {
            &&& !trace::all_zero(span.trace_context@.span_id)
            &&& span.parent_span_id matches Some(parent) ==> !trace::all_zero(parent@)
            &&& span.ended_at matches Some(end) ==> span.started_at <= end
            &&& fits(span.name@, MAX_OTEL_SIGNAL_NAME_BYTES as nat, true)
            &&& span.trace_context@.tracestate matches Some(tracestate) ==> fits(
                tracestate,
                trace::MAX_TRACE_STATE_BYTES as nat,
                true,
            )
        },
        OtelSignal::Metric(metric) => {
            &&& metric.value.finite()
            &&& fits(metric.name@, MAX_OTEL_SIGNAL_NAME_BYTES as nat, true)
            &&& metric.unit matches Some(unit) ==> fits(
                unit@,
                MAX_OTEL_METRIC_UNIT_BYTES as nat,
                true,
            )
        },
        OtelSignal::Log(log) => fits(log.body@, MAX_OTEL_LOG_BODY_BYTES as nat, true),
    }
}

/// The conservative encoded size of a signal.
pub open spec fn encoded_size(signal: OtelSignal) -> nat {
    ENCODED_SIGNAL_FIXED_BYTES as nat + fields_bytes(signal) + attributes_bytes(
        signal_attributes(signal),
    )
}

/// Whether a signal may enter a queue.
pub open spec fn valid_signal(signal: OtelSignal) -> bool {
    &&& fields_fit(signal)
    &&& attributes_fit(signal_attributes(signal))
    &&& encoded_size(signal) <= MAX_OTEL_SIGNAL_ENCODED_BYTES
}

/// Any entry may be counted first.
pub proof fn lemma_attributes_bytes_remove(entries: Map<Seq<char>, Seq<char>>, key: Seq<char>)
    requires
        entries.dom().finite(),
        entries.contains_key(key),
    ensures
        attributes_bytes(entries) == field_bytes(key) + field_bytes(entries[key])
            + attributes_bytes(entries.remove(key)),
    decreases entries.dom().len(),
{
    let first = entries.dom().choose();
    assert(entries.dom().contains(key));
    assert(entries.dom().len() != 0);
    if first != key {
        assert(entries.dom().contains(first));
        let without_first = entries.remove(first);
        let without_key = entries.remove(key);
        assert(without_first.contains_key(key));
        assert(without_key.contains_key(first));
        lemma_attributes_bytes_remove(without_first, key);
        lemma_attributes_bytes_remove(without_key, first);
        assert(without_first.remove(key) =~= without_key.remove(first));
    }
}

/// A new entry adds the encoded size of its key and its value.
pub proof fn lemma_attributes_bytes_insert(
    entries: Map<Seq<char>, Seq<char>>,
    key: Seq<char>,
    value: Seq<char>,
)
    requires
        entries.dom().finite(),
        !entries.contains_key(key),
    ensures
        attributes_bytes(entries.insert(key, value)) == field_bytes(key) + field_bytes(value)
            + attributes_bytes(entries),
{
    let extended = entries.insert(key, value);
    lemma_attributes_bytes_remove(extended, key);
    assert(extended.remove(key) =~= entries);
}

/// The map of the first entries of an ordered list, and of one entry more.
proof fn lemma_prefix(entries: Seq<(Seq<char>, Seq<char>)>, count: int)
    requires
        attributes::in_key_order(entries),
        0 <= count < entries.len(),
    ensures
        attributes_bytes(attributes::entries_map(entries.take(count + 1))) == field_bytes(
            entries[count].0,
        ) + field_bytes(entries[count].1) + attributes_bytes(
            attributes::entries_map(entries.take(count)),
        ),
{
    let shorter = entries.take(count);
    let longer = entries.take(count + 1);
    assert(longer.drop_last() =~= shorter);
    assert(attributes::in_key_order(shorter)) by {
        assert forall|i: int, j: int| 0 <= i < j < shorter.len() implies attributes::text_precedes(
            (#[trigger] shorter[i]).0,
            (#[trigger] shorter[j]).0,
        ) by {
            assert(shorter[i] == entries[i] && shorter[j] == entries[j]);
        }
    }
    attributes::lemma_entries_map(shorter);
    assert(!attributes::entries_map(shorter).contains_key(entries[count].0)) by {
        if attributes::entries_map(shorter).contains_key(entries[count].0) {
            let i = choose|i: int|
                0 <= i < shorter.len() && (#[trigger] shorter[i]).0 == entries[count].0;
            assert(attributes::text_precedes(entries[i].0, entries[count].0));
            attributes::lemma_text_precedes_irreflexive(entries[count].0);
        }
    }
    lemma_attributes_bytes_insert(
        attributes::entries_map(shorter),
        entries[count].0,
        entries[count].1,
    );
}

/// The first entries of an ordered list take no more space than all of them.
proof fn lemma_prefix_is_no_larger(entries: Seq<(Seq<char>, Seq<char>)>, count: int)
    requires
        attributes::in_key_order(entries),
        0 <= count <= entries.len(),
    ensures
        attributes_bytes(attributes::entries_map(entries.take(count))) <= attributes_bytes(
            attributes::entries_map(entries),
        ),
    decreases entries.len() - count,
{
    if count < entries.len() {
        lemma_prefix(entries, count);
        lemma_prefix_is_no_larger(entries, count + 1);
    } else {
        assert(entries.take(count) =~= entries);
    }
}

/// Counts a text field: checks it against its bound, and the sum against the largest encoded
/// size. A refused field is not counted.
pub fn add_text(encoded_bytes: &mut usize, value: &str, maximum_bytes: usize, required: bool) -> (
result: Result<(), TelemetryError>)
    ensures
        result is Ok <==> countable(
            *old(encoded_bytes) as nat,
            value@,
            maximum_bytes as nat,
            required,
        ),
        *final(encoded_bytes) == *old(encoded_bytes) + (if result is Ok {
            field_bytes(value@)
        } else {
            0
        }),
{
    let len = text::byte_len(value);
    if (required && value.is_empty()) || len > maximum_bytes {
        return Err(TelemetryError::InvalidSignal);
    }
    let size = match (*encoded_bytes).checked_add(ENCODED_STRING_OVERHEAD_BYTES) {
        Some(size) => size,
        None => return Err(TelemetryError::InvalidSignal),
    };
    let size = match size.checked_add(len) {
        Some(size) => size,
        None => return Err(TelemetryError::InvalidSignal),
    };
    if size > MAX_OTEL_SIGNAL_ENCODED_BYTES {
        return Err(TelemetryError::InvalidSignal);
    }
    *encoded_bytes = size;
    Ok(())
}

/// Counts the attributes of a signal, in key order: checks each against its bounds, and the
/// sum against the largest encoded size. What was counted before a refusal stays counted; of
/// too many attributes none is counted.
pub fn validate_attributes(encoded_bytes: &mut usize, entries: &Attributes) -> (result: Result<
    (),
    TelemetryError,
>)
    ensures
        result is Ok <==> attributes_fit(entries@) && (entries@.dom().len() == 0 || *old(
            encoded_bytes,
        ) + attributes_bytes(entries@) <= MAX_OTEL_SIGNAL_ENCODED_BYTES),
        result is Ok ==> *final(encoded_bytes) == *old(encoded_bytes) + attributes_bytes(entries@),
        *final(encoded_bytes) == (if entries@.dom().len() > MAX_OTEL_ATTRIBUTES {
            *old(encoded_bytes) as nat
        } else {
            counted(*old(encoded_bytes) as nat, entries.entries())
        }),
        attributes::in_key_order(entries.entries()),
        attributes::entries_map(entries.entries()) == entries@,
{
    let count = entries.len();
    if count > MAX_OTEL_ATTRIBUTES {
        return Err(TelemetryError::InvalidSignal);
    }
    let ghost start = *encoded_bytes;
    let ghost listed = entries.entries();
    let mut index: usize = 0;
    proof {
        assert(listed.take(0) =~= Seq::empty());
        assert(listed.skip(0) =~= listed);
        assert(attributes_bytes(attributes::entries_map(listed.take(0))) == 0);
    }
    while index < count
        invariant
            index <= count,
            count == listed.len() == entries@.dom().len(),
            count <= MAX_OTEL_ATTRIBUTES,
            listed == entries.entries(),
            *encoded_bytes == start + attributes_bytes(
                attributes::entries_map(listed.take(index as int)),
            ),
            counted(start as nat, listed) == counted(
                *encoded_bytes as nat,
                listed.skip(index as int),
            ),
            forall|i: int|
                0 <= i < index ==> fits(
                    (#[trigger] listed[i]).0,
                    MAX_OTEL_ATTRIBUTE_KEY_BYTES as nat,
                    true,
                ) && fits(listed[i].1, MAX_OTEL_ATTRIBUTE_VALUE_BYTES as nat, false),
            index > 0 ==> *encoded_bytes <= MAX_OTEL_SIGNAL_ENCODED_BYTES,
            attributes::in_key_order(listed),
            attributes::entries_map(listed) == entries@,
            *old(encoded_bytes) == start,
        decreases count - index,
    {
        let (key, value) = entries.entry(index);
        proof {
            attributes::lemma_entries_map(listed);
            lemma_prefix(listed, index as int);
            lemma_prefix_is_no_larger(listed, index + 1);
            assert(entries@.contains_key(listed[index as int].0));
            assert(entries@[listed[index as int].0] == listed[index as int].1);
            assert(listed.skip(index as int)[0] == listed[index as int]);
            assert(listed.skip(index as int).drop_first() =~= listed.skip(index + 1));
        }
        match add_text(encoded_bytes, key, MAX_OTEL_ATTRIBUTE_KEY_BYTES, true) {
            Ok(()) => {},
            Err(error) => return Err(error),
        }
        match add_text(encoded_bytes, value, MAX_OTEL_ATTRIBUTE_VALUE_BYTES, false) {
            Ok(()) => {},
            Err(error) => return Err(error),
        }
        index += 1;
    }
    proof {
        assert(listed.take(index as int) =~= listed);
        attributes::lemma_entries_map(listed);
        assert forall|key: Seq<char>| #[trigger] entries@.contains_key(key) implies fits(
            key,
            MAX_OTEL_ATTRIBUTE_KEY_BYTES as nat,
            true,
        ) && fits(entries@[key], MAX_OTEL_ATTRIBUTE_VALUE_BYTES as nat, false) by {
            let i = choose|i: int| 0 <= i < listed.len() && (#[trigger] listed[i]).0 == key;
            assert(listed[i].0 == key);
        }
    }
    Ok(())
}

/// Checks every bound of a signal and returns its encoded size.
pub fn validated_signal_encoded_size(signal: &OtelSignal) -> (result: Result<
    usize,
    TelemetryError,
>)
    ensures
        match result {
            Ok(size) => valid_signal(*signal) && size == encoded_size(*signal),
            Err(TelemetryError::InvalidSignal) => !valid_signal(*signal),
        },
{
    let mut encoded_bytes: usize = ENCODED_SIGNAL_FIXED_BYTES;
    let entries: &Attributes = match signal {
        OtelSignal::Span(span) => {
            if trace::is_all_zero(span.trace_context.span_id().as_slice()) {
                return Err(TelemetryError::InvalidSignal);
            }
            if let Some(parent) = &span.parent_span_id {
                if trace::is_all_zero(parent.as_slice()) {
                    return Err(TelemetryError::InvalidSignal);
                }
            }
            if let Some(end) = span.ended_at {
                if end < span.started_at {
                    return Err(TelemetryError::InvalidSignal);
                }
            }
            match add_text(
                &mut encoded_bytes,
                span.name.as_str(),
                MAX_OTEL_SIGNAL_NAME_BYTES,
                true,
            ) {
                Ok(()) => {},
                Err(error) => return Err(error),
            }
            if let Some(tracestate) = span.trace_context.tracestate() {
                match add_text(
                    &mut encoded_bytes,
                    tracestate,
                    trace::MAX_TRACE_STATE_BYTES,
                    true,
                ) {
                    Ok(()) => {},
                    Err(error) => return Err(error),
                }
            }
            &span.attributes
        },
        OtelSignal::Metric(metric) => {
            if !metric.value.is_finite() {
                return Err(TelemetryError::InvalidSignal);
            }
            match add_text(
                &mut encoded_bytes,
                metric.name.as_str(),
                MAX_OTEL_SIGNAL_NAME_BYTES,
                true,
            ) {
                Ok(()) => {},
                Err(error) => return Err(error),
            }
            if let Some(unit) = &metric.unit {
                match add_text(
                    &mut encoded_bytes,
                    unit.as_str(),
                    MAX_OTEL_METRIC_UNIT_BYTES,
                    true,
                ) {
                    Ok(()) => {},
                    Err(error) => return Err(error),
                }
            }
            &metric.attributes
        },
        OtelSignal::Log(log) => {
            match add_text(&mut encoded_bytes, log.body.as_str(), MAX_OTEL_LOG_BODY_BYTES, true) {
                Ok(()) => {},
                Err(error) => return Err(error),
            }
            &log.attributes
        },
    };
    match validate_attributes(&mut encoded_bytes, entries) {
        Ok(()) => {
            proof {
                attributes::lemma_entries_map(entries.entries());
            }
            Ok(encoded_bytes)
        },
        Err(error) => Err(error),
    }
}

/// Checks every bound of a signal.
pub fn validate_signal(signal: &OtelSignal) -> (result: Result<(), TelemetryError>)
    ensures
        match result {
            Ok(()) => valid_signal(*signal),
            Err(TelemetryError::InvalidSignal) => !valid_signal(*signal),
        },
{
    match validated_signal_encoded_size(signal) {
        Ok(_) => Ok(()),
        Err(error) => Err(error),
    }
}

} // verus!
