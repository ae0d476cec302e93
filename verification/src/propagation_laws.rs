//! Laws of Trace Context propagation.

use lenso_kernel::InvocationContext;
use vstd::prelude::*;

use crate::invocation;
use crate::invocation::{
    InvocationContextError, InvocationContextErrorView, SealedExtension, SealedExtensionView,
};
use crate::propagation;
use crate::propagation::{PropagatorView, TraceContextError, TraceContextErrorView};
use crate::signature;
use crate::trace;
use crate::trace::TraceContextView;
use crate::trace_laws;

verus! {

/// What was injected is extracted by the same issuer, for every target that the audience
/// names, as long as the span identity is not zero; a zero span identity is what the
/// extraction reports.
pub proof fn law_injected_trace_is_extracted(
    propagator: PropagatorView,
    trace_context: TraceContextView,
    audience: Seq<Seq<char>>,
    context: InvocationContext,
    next: InvocationContext,
    capability_id: Seq<char>,
    operation: Seq<char>,
)
    requires
        trace_context.wf(),
        propagation::attached(
            context,
            propagator.sealed(trace_context, audience),
            Ok::<InvocationContext, TraceContextError>(next),
        ),
        audience.contains(invocation::target(capability_id, operation)),
    ensures
        propagator.extracted_for_target(
            invocation::sealed_extensions(next),
            capability_id,
            operation,
        ) == (if trace::all_zero(trace_context.span_id) {
            Err(
                TraceContextErrorView::InvalidTraceContext(
                    trace::TraceContextParseError::ZeroSpanId,
                ),
            )
        } else {
            Ok(Some(trace_context))
        }),
        propagator.extracted(invocation::sealed_extensions(next))
            == propagator.extracted_for_target(
            invocation::sealed_extensions(next),
            capability_id,
            operation,
        ),
{
    trace_laws::law_wire_round_trip(trace_context);
}

/// A target that the audience does not name is shown nothing, whoever sealed the extension.
pub proof fn law_uncovered_target_sees_nothing(
    propagator: PropagatorView,
    extensions: Map<Seq<char>, SealedExtensionView>,
    capability_id: Seq<char>,
    operation: Seq<char>,
)
    requires
        extensions.contains_key(propagation::TRACE_CONTEXT_EXTENSION_KEY@) ==> !extensions[
            propagation::TRACE_CONTEXT_EXTENSION_KEY@
        ].audience.contains(invocation::target(capability_id, operation)),
    ensures
        propagator.extracted_for_target(extensions, capability_id, operation) == Ok::<
            Option<TraceContextView>,
            TraceContextErrorView,
        >(None),
{
}

/// Injection never replaces an extension: a second injection into the same context, by any
/// issuer and for any trace context, is refused, and every other extension stays as it was.
pub proof fn law_injection_never_overwrites(
    context: InvocationContext,
    first: SealedExtensionView,
    next: InvocationContext,
    second: SealedExtensionView,
    result: Result<InvocationContext, TraceContextError>,
    key: Seq<char>,
)
    requires
        propagation::attached(context, first, Ok::<InvocationContext, TraceContextError>(next)),
        propagation::attached(next, second, result),
        key != propagation::TRACE_CONTEXT_EXTENSION_KEY@,
    ensures
        result is Err,
        second.complete() ==> result->Err_0@ == TraceContextErrorView::Context(
            InvocationContextErrorView::SealedExtensionAlreadySet {
                key: propagation::TRACE_CONTEXT_EXTENSION_KEY@,
            },
        ),
        invocation::sealed_extensions(next)[propagation::TRACE_CONTEXT_EXTENSION_KEY@] == first,
        invocation::sealed_extensions(next).contains_key(key)
            == invocation::sealed_extensions(context).contains_key(key),
        invocation::sealed_extensions(context).contains_key(key)
            ==> invocation::sealed_extensions(next)[key] == invocation::sealed_extensions(
            context,
        )[key],
        invocation::alike(next, context),
{
}

/// An extension of another issuer is refused, whatever its proof and its value.
pub proof fn law_foreign_issuer_is_refused(
    propagator: PropagatorView,
    extension: SealedExtensionView,
)
    requires
        extension.issuer != propagator.issuer,
    ensures
        propagator.verified(extension) == Err::<Option<TraceContextView>, TraceContextErrorView>(
            TraceContextErrorView::IssuerMismatch {
                expected: propagator.issuer,
                actual: extension.issuer,
            },
        ),
{
}

/// An extension of this issuer with any other proof than this issuer's proof over its
/// audience and value is refused.
pub proof fn law_forged_proof_is_refused(
    propagator: PropagatorView,
    extension: SealedExtensionView,
)
    requires
        extension.issuer == propagator.issuer,
        extension.signature != propagator.signature(extension.audience, extension.value),
    ensures
        propagator.verified(extension) == Err::<Option<TraceContextView>, TraceContextErrorView>(
            TraceContextErrorView::InvalidProof,
        ),
{
}

/// An extension is accepted only if it is, part by part, the one that this issuer seals for
/// the trace context read from it and for its audience.
pub proof fn law_accepted_extension_is_the_sealed_one(
    propagator: PropagatorView,
    extension: SealedExtensionView,
)
    requires
        propagator.verified(extension) is Ok,
    ensures
        propagator.verified(extension)->Ok_0 is Some,
        ({
            let trace_context = propagator.verified(extension)->Ok_0->0;
            &&& trace_context.wf()
            &&& extension == propagator.sealed(trace_context, extension.audience)
        }),
{
    trace_laws::law_accepted_wire_is_canonical(extension.value);
}

/// What injecting a trace context comes to, for an audience of any length. An audience without
/// entries or with an empty entry is refused. Where the key `lenso.otel.trace-context` is
/// taken, by a sealed or an ordinary extension, the injection is refused. In all other cases
/// it succeeds: under that key stands the issuer, the whole audience, the wire bytes and the
/// unpadded Base64 text of the HMAC-SHA256 tag over them, and all else is kept.
pub proof fn law_injection_verdict(
    propagator: PropagatorView,
    trace_context: TraceContextView,
    audience: Seq<Seq<char>>,
    context: InvocationContext,
    result: Result<InvocationContext, TraceContextError>,
)
    requires
        propagator.issuer.len() > 0,
        propagator.signature(audience, trace_context.wire_bytes()).len() > 0,
        propagation::attached(context, propagator.sealed(trace_context, audience), result),
    ensures
        audience.len() == 0 || (exists|i: int|
            #![trigger audience[i]]
            0 <= i < audience.len() && audience[i].len() == 0) ==> result is Err
            && result->Err_0@ == TraceContextErrorView::InvalidAudience,
        audience.len() > 0 && (forall|i: int|
            #![trigger audience[i]]
            0 <= i < audience.len() ==> audience[i].len() > 0) && (
        invocation::sealed_extensions(context).contains_key("lenso.otel.trace-context"@)
            || invocation::ordinary_extensions(context).contains_key(
            "lenso.otel.trace-context"@,
        )) ==> result is Err && result->Err_0@ == TraceContextErrorView::Context(
            InvocationContextErrorView::SealedExtensionAlreadySet {
                key: "lenso.otel.trace-context"@,
            },
        ),
        audience.len() > 0 && (forall|i: int|
            #![trigger audience[i]]
            0 <= i < audience.len() ==> audience[i].len() > 0)
            && !invocation::sealed_extensions(context).contains_key("lenso.otel.trace-context"@)
            && !invocation::ordinary_extensions(context).contains_key(
            "lenso.otel.trace-context"@,
        ) ==> {
            &&& result is Ok
            &&& invocation::sealed_extensions(result->Ok_0) == invocation::sealed_extensions(
                context,
            ).insert(
                "lenso.otel.trace-context"@,
                SealedExtensionView {
                    issuer: propagator.issuer,
                    audience,
                    value: trace_context.wire_bytes(),
                    signature: signature::base64_text(
                        signature::hmac_sha256_tag(
                            propagator.signing_key,
                            signature::payload(
                                propagator.issuer,
                                audience,
                                trace_context.wire_bytes(),
                            ),
                        ),
                    ),
                },
            )
            &&& invocation::ordinary_extensions(result->Ok_0) == invocation::ordinary_extensions(
                context,
            )
            &&& invocation::request_id(result->Ok_0) == invocation::request_id(context)
            &&& invocation::caller_instance(result->Ok_0) == invocation::caller_instance(context)
            &&& invocation::deadline(result->Ok_0) == invocation::deadline(context)
        },
{
}

/// What extracting for one target comes to. Without an extension under
/// `lenso.otel.trace-context`, or with one whose audience has no entry that is the Capability,
/// a colon and the Operation, nothing is extracted. Otherwise the issuer has to be the
/// registered one, the proof has to be the HMAC-SHA256 tag over issuer, audience and value,
/// and the value has to parse, in this order; then what the value parses to is extracted.
pub proof fn law_extraction_verdict(
    propagator: PropagatorView,
    extensions: Map<Seq<char>, SealedExtensionView>,
    capability_id: Seq<char>,
    operation: Seq<char>,
    targeted: Result<Option<trace::TraceContext>, TraceContextError>,
    untargeted: Result<Option<trace::TraceContext>, TraceContextError>,
    parsed: Result<trace::TraceContext, trace::TraceContextParseError>,
)
    requires
        propagation::extraction(
            targeted,
            propagator.extracted_for_target(extensions, capability_id, operation),
        ),
        propagation::extraction(untargeted, propagator.extracted(extensions)),
        trace::parsed(
            parsed,
            trace::parse_wire(extensions["lenso.otel.trace-context"@].value),
        ),
    ensures
        !extensions.contains_key("lenso.otel.trace-context"@) ==> targeted is Ok
            && targeted->Ok_0 is None && untargeted is Ok && untargeted->Ok_0 is None,
        extensions.contains_key("lenso.otel.trace-context"@) ==> {
            let extension = extensions["lenso.otel.trace-context"@];
            let target = capability_id + seq![':'] + operation;
            let expected = signature::base64_text(
                signature::hmac_sha256_tag(
                    propagator.signing_key,
                    signature::payload(propagator.issuer, extension.audience, extension.value),
                ),
            );
            &&& (forall|i: int|
                #![trigger extension.audience[i]]
                0 <= i < extension.audience.len() ==> extension.audience[i] != target) ==> targeted
                is Ok && targeted->Ok_0 is None
            &&& (exists|i: int|
                #![trigger extension.audience[i]]
                0 <= i < extension.audience.len() && extension.audience[i] == target) ==> verdict(
                propagator,
                extension,
                expected,
                parsed,
                targeted,
            )
            &&& verdict(propagator, extension, expected, parsed, untargeted)
        },
{
    if extensions.contains_key("lenso.otel.trace-context"@) {
        let extension = extensions["lenso.otel.trace-context"@];
        let target = capability_id + seq![':'] + operation;
        if exists|i: int|
            #![trigger extension.audience[i]]
            0 <= i < extension.audience.len() && extension.audience[i] == target {
            assert(extension.audience.contains(target));
        }
    }
}

/// What verifying an extension comes to, given the proof that is expected on it and what its
/// value parses to.
pub open spec fn verdict(
    propagator: PropagatorView,
    extension: SealedExtensionView,
    expected: Seq<char>,
    parsed: Result<trace::TraceContext, trace::TraceContextParseError>,
    result: Result<Option<trace::TraceContext>, TraceContextError>,
) -> bool {
    if extension.issuer != propagator.issuer {
        &&& result is Err
        &&& result->Err_0@ == TraceContextErrorView::IssuerMismatch {
            expected: propagator.issuer,
            actual: extension.issuer,
        }
    } else if extension.signature != expected {
        &&& result is Err
        &&& result->Err_0@ == TraceContextErrorView::InvalidProof
    } else {
        match parsed {
            Ok(trace_context) => {
                &&& result is Ok
                &&& result->Ok_0 is Some
                &&& result->Ok_0->0@ == trace_context@
            },
            Err(error) => {
                &&& result is Err
                &&& result->Err_0@ == TraceContextErrorView::InvalidTraceContext(error)
            },
        }
    }
}

/// The registered names.
pub proof fn law_registered_names()
    ensures
        propagation::TRACE_CONTEXT_EXTENSION_KEY@ == "lenso.otel.trace-context"@,
        propagation::DEFAULT_TRACE_CONTEXT_ISSUER@ == "lenso.otel"@,
{
}

/// Which audiences are valid, and which targets an audience covers: an audience needs an entry
/// and no empty one, and covers a target exactly if one of its entries is the Capability, a
/// colon and the Operation.
pub proof fn law_audience_verdict(
    extension: SealedExtensionView,
    capability_id: Seq<char>,
    operation: Seq<char>,
)
    ensures
        invocation::valid_audience(extension.audience) <==> extension.audience.len() > 0 && (
        forall|i: int|
            #![trigger extension.audience[i]]
            0 <= i < extension.audience.len() ==> extension.audience[i].len() > 0),
        extension.covers(capability_id, operation) <==> exists|i: int|
            #![trigger extension.audience[i]]
            0 <= i < extension.audience.len() && extension.audience[i] == capability_id + seq![
                ':',
            ] + operation,
        extension.complete() <==> extension.issuer.len() > 0 && extension.signature.len() > 0
            && extension.audience.len() > 0 && (forall|i: int|
            #![trigger extension.audience[i]]
            0 <= i < extension.audience.len() ==> extension.audience[i].len() > 0),
{
    let target = capability_id + seq![':'] + operation;
    if exists|i: int|
        #![trigger extension.audience[i]]
        0 <= i < extension.audience.len() && extension.audience[i] == target {
        assert(extension.audience.contains(target));
    }
}

/// What the parts of a sealed extension stand for: each entry of the audience for its text, in
/// order, and every other part for itself.
pub proof fn law_extension_parts(extension: SealedExtension, strings: Seq<String>)
    ensures
        signature::texts(strings).len() == strings.len(),
        forall|i: int|
            #![trigger signature::texts(strings)[i]]
            0 <= i < strings.len() ==> signature::texts(strings)[i] == strings[i]@,
        extension@.issuer == extension.issuer@,
        extension@.audience == signature::texts(extension.audience@),
        extension@.value == extension.value@,
        extension@.signature == extension.signature@,
{
}

/// Each failure says what it is.
pub proof fn law_failures_are_told_apart(error: TraceContextError, inner: InvocationContextError)
    ensures
        match error {
            TraceContextError::Context(cause) => error@ == TraceContextErrorView::Context(cause@),
            TraceContextError::InvalidAudience => error@ is InvalidAudience,
            TraceContextError::IssuerMismatch { expected, actual } => error@
                == (TraceContextErrorView::IssuerMismatch { expected: expected@, actual: actual@ }),
            TraceContextError::InvalidProof => error@ is InvalidProof,
            TraceContextError::InvalidTraceContext(cause) => error@
                == TraceContextErrorView::InvalidTraceContext(cause),
        },
        match inner {
            InvocationContextError::EmptyExtensionKey => inner@ is EmptyExtensionKey,
            InvocationContextError::ExtensionAlreadySet { key } => inner@
                == (InvocationContextErrorView::ExtensionAlreadySet { key: key@ }),
            InvocationContextError::SealedExtensionAlreadySet { key } => inner@
                == (InvocationContextErrorView::SealedExtensionAlreadySet { key: key@ }),
            InvocationContextError::InvalidSealedExtension { key } => inner@
                == (InvocationContextErrorView::InvalidSealedExtension { key: key@ }),
        },
{
}

/// The messages that report failures, for every key and every pair of issuers.
pub proof fn law_failure_messages(
    key: Seq<char>,
    expected: Seq<char>,
    actual: Seq<char>,
    cause: trace::TraceContextParseError,
)
    ensures
        (TraceContextErrorView::IssuerMismatch { expected, actual }).message()
            == "trace-context issuer `"@ + actual + "` is not `"@ + expected + "`"@,
        TraceContextErrorView::InvalidAudience.message() == "trace-context audience is empty"@,
        TraceContextErrorView::InvalidProof.message() == "trace-context proof is invalid"@,
        TraceContextErrorView::InvalidTraceContext(cause).message() == cause.message_text(),
        TraceContextErrorView::Context(InvocationContextErrorView::EmptyExtensionKey).message()
            == "Invocation Context extension key is empty"@,
        TraceContextErrorView::Context(
            (InvocationContextErrorView::ExtensionAlreadySet { key }),
        ).message() == "Invocation Context extension `"@ + key + "` is already set"@,
        TraceContextErrorView::Context(
            (InvocationContextErrorView::SealedExtensionAlreadySet { key }),
        ).message() == "sealed Invocation Context extension `"@ + key + "` is already set"@,
        TraceContextErrorView::Context(
            (InvocationContextErrorView::InvalidSealedExtension { key }),
        ).message() == "sealed Invocation Context extension `"@ + key
            + "` has invalid provenance"@,
{
}

} // verus!
