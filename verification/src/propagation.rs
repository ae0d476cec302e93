//! Issuing and verifying the sealed Trace Context extension.

use lenso_kernel::InvocationContext;
use vstd::prelude::*;

use crate::invocation;
use crate::invocation::{
    InvocationContextError, InvocationContextErrorView, SealedExtension, SealedExtensionView,
};
use crate::signature;
use crate::text;
use crate::trace;
use crate::trace::{TraceContext, TraceContextParseError, TraceContextView};

verus! {

/// Registered sealed extension key for W3C Trace Context propagation.
pub const TRACE_CONTEXT_EXTENSION_KEY: &'static str = "lenso.otel.trace-context";

/// Default provenance name used by an explicitly configured `OTel` Module.
pub const DEFAULT_TRACE_CONTEXT_ISSUER: &'static str = "lenso.otel";

/// Configuration failure for a registered trace-context issuer.
#[derive(Clone, Copy, Debug, Eq, PartialEq)]
pub enum TraceContextConfigError {
    /// An issuer provenance name is required.
    EmptyIssuer,
    /// A signing key is required for provenance verification.
    EmptySigningKey,
}

impl TraceContextConfigError {
    /// The message that reports the failure.
    pub open spec fn message_text(self) -> Seq<char> {
        match self {
            TraceContextConfigError::EmptyIssuer => "trace-context issuer is empty"@,
            TraceContextConfigError::EmptySigningKey => "trace-context signing key is empty"@,
        }
    }

    /// The message that reports the failure.
    pub fn message(&self) -> (message: String)
        ensures
            message@ == self.message_text(),
    {
        match self {
            TraceContextConfigError::EmptyIssuer => "trace-context issuer is empty".to_owned(),
            TraceContextConfigError::EmptySigningKey =>
                "trace-context signing key is empty".to_owned(),
        }
    }
}

/// Failure while attaching or extracting the registered sealed extension.
#[derive(Debug, Eq, PartialEq)]
pub enum TraceContextError {
    /// The underlying Kernel context rejected the extension.
    Context(InvocationContextError),
    /// The selected target audience is empty or contains an empty identity.
    InvalidAudience,
    /// The extension was established by another issuer.
    IssuerMismatch { expected: String, actual: String },
    /// The extension proof does not match the registered issuer and payload.
    InvalidProof,
    /// The extension payload is not valid Trace Context.
    InvalidTraceContext(TraceContextParseError),
}

/// What a [`TraceContextError`] says.
pub enum TraceContextErrorView {
    Context(InvocationContextErrorView),
    InvalidAudience,
    IssuerMismatch { expected: Seq<char>, actual: Seq<char> },
    InvalidProof,
    InvalidTraceContext(TraceContextParseError),
}

impl View for TraceContextError {
    type V = TraceContextErrorView;

    open spec fn view(&self) -> TraceContextErrorView {
        match self {
            TraceContextError::Context(error) => TraceContextErrorView::Context(error@),
            TraceContextError::InvalidAudience => TraceContextErrorView::InvalidAudience,
            TraceContextError::IssuerMismatch { expected, actual } =>
                TraceContextErrorView::IssuerMismatch { expected: expected@, actual: actual@ },
            TraceContextError::InvalidProof => TraceContextErrorView::InvalidProof,
            TraceContextError::InvalidTraceContext(error) =>
                TraceContextErrorView::InvalidTraceContext(*error),
        }
    }
}

impl TraceContextErrorView {
    /// The message that reports the failure.
    pub open spec fn message(self) -> Seq<char> {
        match self {
            TraceContextErrorView::Context(error) => error.message(),
            TraceContextErrorView::InvalidAudience => "trace-context audience is empty"@,
            TraceContextErrorView::IssuerMismatch { expected, actual } =>
                "trace-context issuer `"@ + actual + "` is not `"@ + expected + "`"@,
            TraceContextErrorView::InvalidProof => "trace-context proof is invalid"@,
            TraceContextErrorView::InvalidTraceContext(error) => error.message_text(),
        }
    }
}

impl Clone for TraceContextError {
    fn clone(&self) -> (copy: Self)
        ensures
            copy == *self,
    {
        match self {
            TraceContextError::Context(error) => TraceContextError::Context(error.clone()),
            TraceContextError::InvalidAudience => TraceContextError::InvalidAudience,
            TraceContextError::IssuerMismatch { expected, actual } =>
                TraceContextError::IssuerMismatch {
                expected: expected.clone(),
                actual: actual.clone(),
            },
            TraceContextError::InvalidProof => TraceContextError::InvalidProof,
            TraceContextError::InvalidTraceContext(error) =>
                TraceContextError::InvalidTraceContext(*error),
        }
    }
}

impl TraceContextError {
    /// The message that reports the failure.
    pub fn message(&self) -> (message: String)
        ensures
            message@ == self@.message(),
    {
        match self {
            TraceContextError::Context(error) => error.message(),
            TraceContextError::InvalidAudience => "trace-context audience is empty".to_owned(),
            TraceContextError::IssuerMismatch { expected, actual } =>
                "trace-context issuer `".to_owned().concat(actual.as_str()).concat(
                "` is not `",
            ).concat(expected.as_str()).concat("`"),
            TraceContextError::InvalidProof => "trace-context proof is invalid".to_owned(),
            TraceContextError::InvalidTraceContext(error) => error.message(),
        }
    }
}

impl From<InvocationContextError> for TraceContextError {
    fn from(error: InvocationContextError) -> (converted: Self) {
        TraceContextError::Context(error)
    }
}

impl vstd::std_specs::convert::FromSpecImpl<InvocationContextError> for TraceContextError {
    open spec fn obeys_from_spec() -> bool {
        true
    }

    open spec fn from_spec(error: InvocationContextError) -> Self {
        TraceContextError::Context(error)
    }
}

/// An issuer and its key.
pub struct PropagatorView {
    pub issuer: Seq<char>,
    pub signing_key: Seq<u8>,
}

impl PropagatorView {
    /// The signature that this issuer puts on an audience and a value.
    pub open spec fn signature(self, audience: Seq<Seq<char>>, value: Seq<u8>) -> Seq<char> {
        signature::proof_text(self.issuer, self.signing_key, audience, value)
    }

    /// The extension that this issuer attaches for a trace context and an audience.
    pub open spec fn sealed(
        self,
        trace_context: TraceContextView,
        audience: Seq<Seq<char>>,
    ) -> SealedExtensionView {
        SealedExtensionView {
            issuer: self.issuer,
            audience,
            value: trace_context.wire_bytes(),
            signature: self.signature(audience, trace_context.wire_bytes()),
        }
    }

    /// What this issuer makes of an extension, given the proof that it expects on it.
    pub open spec fn checked(self, extension: SealedExtensionView, expected: Seq<char>) -> Result<
        Option<TraceContextView>,
        TraceContextErrorView,
    > {
        if extension.issuer != self.issuer {
            Err(
                TraceContextErrorView::IssuerMismatch {
                    expected: self.issuer,
                    actual: extension.issuer,
                },
            )
        } else if extension.signature != expected {
            Err(TraceContextErrorView::InvalidProof)
        } else {
            match trace::parse_wire(extension.value) {
                Ok(trace_context) => Ok(Some(trace_context)),
                Err(error) => Err(TraceContextErrorView::InvalidTraceContext(error)),
            }
        }
    }

    /// What this issuer makes of an extension.
    pub open spec fn verified(self, extension: SealedExtensionView) -> Result<
        Option<TraceContextView>,
        TraceContextErrorView,
    > {
        self.checked(extension, self.signature(extension.audience, extension.value))
    }

    /// What this issuer reads from a set of sealed extensions.
    pub open spec fn extracted(self, extensions: Map<Seq<char>, SealedExtensionView>) -> Result<
        Option<TraceContextView>,
        TraceContextErrorView,
    > {
        if extensions.contains_key(TRACE_CONTEXT_EXTENSION_KEY@) {
            self.verified(extensions[TRACE_CONTEXT_EXTENSION_KEY@])
        } else {
            Ok(None)
        }
    }

    /// What this issuer reads from a set of sealed extensions on behalf of one target.
    pub open spec fn extracted_for_target(
        self,
        extensions: Map<Seq<char>, SealedExtensionView>,
        capability_id: Seq<char>,
        operation: Seq<char>,
    ) -> Result<Option<TraceContextView>, TraceContextErrorView> {
        if extensions.contains_key(TRACE_CONTEXT_EXTENSION_KEY@)
            && extensions[TRACE_CONTEXT_EXTENSION_KEY@].covers(capability_id, operation) {
            self.verified(extensions[TRACE_CONTEXT_EXTENSION_KEY@])
        } else {
            Ok(None)
        }
    }
}

/// Whether the outcome of an extraction is the one expected.
pub open spec fn extraction(
    result: Result<Option<TraceContext>, TraceContextError>,
    expected: Result<Option<TraceContextView>, TraceContextErrorView>,
) -> bool {
    match result {
        Ok(Some(trace_context)) => expected == Ok::<_, TraceContextErrorView>(
            Some(trace_context@),
        ),
        Ok(None) => expected == Ok::<_, TraceContextErrorView>(None::<TraceContextView>),
        Err(error) => expected == Err::<Option<TraceContextView>, _>(error@),
    }
}

/// Whether attaching `extension` to a context ends as it should. A bad audience is reported
/// first, an incomplete extension next, an occupied key last; otherwise the extension is
/// added under the registered key, and what else the context holds stays as it was.
pub open spec fn attached(
    context: InvocationContext,
    extension: SealedExtensionView,
    result: Result<InvocationContext, TraceContextError>,
) -> bool {
    let key = TRACE_CONTEXT_EXTENSION_KEY@;
    if !invocation::valid_audience(extension.audience) {
        result matches Err(error) && error@ == TraceContextErrorView::InvalidAudience
    } else if !extension.complete() {
        result matches Err(error) && error@ == TraceContextErrorView::Context(
            InvocationContextErrorView::InvalidSealedExtension { key },
        )
    } else if invocation::occupied(context, key) {
        result matches Err(error) && error@ == TraceContextErrorView::Context(
            InvocationContextErrorView::SealedExtensionAlreadySet { key },
        )
    } else {
        result matches Ok(next) && {
            &&& invocation::sealed_extensions(next) == invocation::sealed_extensions(
                context,
            ).insert(key, extension)
            &&& invocation::alike(next, context)
        }
    }
}

/// Registered issuer and verifier for one `OTel` trace-context extension.
pub struct TraceContextPropagator {
    issuer: String,
    signing_key: Vec<u8>,
}

impl View for TraceContextPropagator {
    type V = PropagatorView;

    closed spec fn view(&self) -> PropagatorView {
        PropagatorView { issuer: self.issuer@, signing_key: self.signing_key@ }
    }
}

impl Clone for TraceContextPropagator {
    fn clone(&self) -> (copy: Self)
        ensures
            copy@ == self@,
    {
        proof {
            use_type_invariant(self);
        }
        let mut signing_key: Vec<u8> = Vec::new();
        signing_key.extend_from_slice(self.signing_key.as_slice());
        assert(signing_key@ =~= self.signing_key@);
        TraceContextPropagator { issuer: self.issuer.clone(), signing_key }
    }
}

impl TraceContextPropagator {
    #[verifier::type_invariant]
    spec fn well_formed(self) -> bool {
        &&& self.issuer@.len() > 0
        &&& self.signing_key@.len() > 0
    }

    /// Registers one issuer provenance and its private proof key.
    pub fn new(issuer: &str, signing_key: &[u8]) -> (result: Result<Self, TraceContextConfigError>)
        ensures
            match result {
                Ok(propagator) => {
                    &&& issuer@.len() > 0
                    &&& signing_key@.len() > 0
                    &&& propagator@ == (PropagatorView {
                        issuer: issuer@,
                        signing_key: signing_key@,
                    })
                },
                Err(TraceContextConfigError::EmptyIssuer) => issuer@.len() == 0,
                Err(TraceContextConfigError::EmptySigningKey) => issuer@.len() > 0
                    && signing_key@.len() == 0,
            },
    {
        if issuer.is_empty() {
            return Err(TraceContextConfigError::EmptyIssuer);
        }
        if signing_key.len() == 0 {
            return Err(TraceContextConfigError::EmptySigningKey);
        }
        let mut key: Vec<u8> = Vec::new();
        key.extend_from_slice(signing_key);
        assert(key@ =~= signing_key@);
        Ok(TraceContextPropagator { issuer: issuer.to_owned(), signing_key: key })
    }

    /// Returns the registered issuer provenance name.
    pub fn issuer(&self) -> (issuer: &str)
        ensures
            issuer@ == self@.issuer,
            issuer@.len() > 0,
    {
        proof {
            use_type_invariant(self);
        }
        self.issuer.as_str()
    }

    /// Attaches a target-scoped, sealed Trace Context without replacing an
    /// existing ordinary or sealed extension under the registered key.
    pub fn inject(
        &self,
        context: InvocationContext,
        trace_context: &TraceContext,
        audience: Vec<String>,
    ) -> (result: Result<InvocationContext, TraceContextError>)
        ensures
            attached(
                context,
                self@.sealed(trace_context@, signature::texts(audience@)),
                result,
            ),
            invocation::valid_audience(signature::texts(audience@)) ==> self@.sealed(
                trace_context@,
                signature::texts(audience@),
            ).complete(),
            self@.issuer.len() > 0,
            self@.signature(signature::texts(audience@), trace_context@.wire_bytes()).len() == 43,
            audience@.len() > 0 && (forall|i: int|
                #![trigger audience@[i]]
                0 <= i < audience@.len() ==> audience@[i]@.len() > 0) && !invocation::occupied(
                context,
                "lenso.otel.trace-context"@,
            ) ==> result is Ok,
    {
        proof {
            use_type_invariant(self);
        }
        let value = trace_context.to_bytes();
        let signed = self.sign(audience.as_slice(), value.as_slice());
        proof {
            let entries = signature::texts(audience@);
            assert forall|i: int| 0 <= i < entries.len() implies entries[i] == audience@[i]@ by {}
        }
        self.attach(context, audience, value, signed)
    }

    /// Attaches a value under the registered key, with a proof that was made for it.
    pub fn attach(
        &self,
        context: InvocationContext,
        audience: Vec<String>,
        value: Vec<u8>,
        signed: String,
    ) -> (result: Result<InvocationContext, TraceContextError>)
        ensures
            attached(
                context,
                SealedExtensionView {
                    issuer: self@.issuer,
                    audience: signature::texts(audience@),
                    value: value@,
                    signature: signed@,
                },
                result,
            ),
    {
        proof {
            reveal_strlit("lenso.otel.trace-context");
        }
        if !invocation::is_valid_audience(audience.as_slice()) {
            return Err(TraceContextError::InvalidAudience);
        }
        let extension = SealedExtension {
            issuer: self.issuer.clone(),
            audience,
            value,
            signature: signed,
        };
        match invocation::with_sealed_extension(context, TRACE_CONTEXT_EXTENSION_KEY, extension) {
            Ok(next) => Ok(next),
            Err(error) => Err(TraceContextError::Context(error)),
        }
    }

    /// Extracts the context only when the sealed audience covers one target.
    pub fn extract_for_target(
        &self,
        context: &InvocationContext,
        capability_id: &str,
        operation: &str,
    ) -> (result: Result<Option<TraceContext>, TraceContextError>)
        ensures
            extraction(
                result,
                self@.extracted_for_target(
                    invocation::sealed_extensions(*context),
                    capability_id@,
                    operation@,
                ),
            ),
    {
        match invocation::sealed_extension(context, TRACE_CONTEXT_EXTENSION_KEY) {
            Some(extension) => {
                if extension.covers(capability_id, operation) {
                    self.verify_extension(&extension)
                } else {
                    Ok(None)
                }
            },
            None => Ok(None),
        }
    }

    /// Extracts the context whatever target the sealed audience covers.
    pub fn extract(&self, context: &InvocationContext) -> (result: Result<
        Option<TraceContext>,
        TraceContextError,
    >)
        ensures
            extraction(result, self@.extracted(invocation::sealed_extensions(*context))),
    {
        match invocation::sealed_extension(context, TRACE_CONTEXT_EXTENSION_KEY) {
            Some(extension) => self.verify_extension(&extension),
            None => Ok(None),
        }
    }

    /// Accepts an extension of this issuer, with this issuer's proof on it, and a valid Trace
    /// Context in it.
    pub fn verify_extension(&self, extension: &SealedExtension) -> (result: Result<
        Option<TraceContext>,
        TraceContextError,
    >)
        ensures
            extraction(result, self@.verified(extension@)),
    {
        let expected = self.sign(extension.audience.as_slice(), extension.value.as_slice());
        self.check_extension(extension, expected.as_str())
    }

    /// Accepts an extension of this issuer, with the expected proof on it, and a valid Trace
    /// Context in it.
    pub fn check_extension(&self, extension: &SealedExtension, expected: &str) -> (result: Result<
        Option<TraceContext>,
        TraceContextError,
    >)
        ensures
            extraction(result, self@.checked(extension@, expected@)),
    {
        if !text::same_text(extension.issuer.as_str(), self.issuer.as_str()) {
            return Err(
                TraceContextError::IssuerMismatch {
                    expected: self.issuer.clone(),
                    actual: extension.issuer.clone(),
                },
            );
        }
        let same = signature::constant_time_eq(
            expected.as_bytes(),
            extension.signature.as_str().as_bytes(),
        );
        if !same {
            return Err(TraceContextError::InvalidProof);
        }
        proof {
            text::lemma_encoding_is_injective(expected@, extension.signature@);
        }
        match TraceContext::from_bytes(extension.value.as_slice()) {
            Ok(trace_context) => Ok(Some(trace_context)),
            Err(error) => Err(TraceContextError::InvalidTraceContext(error)),
        }
    }

    /// This issuer's proof over an audience and a value.
    fn sign(&self, audience: &[String], value: &[u8]) -> (signed: String)
        ensures
            signed@ == self@.signature(signature::texts(audience@), value@),
            signed@.len() == 43,
    {
        signature::sign(self.issuer.as_str(), self.signing_key.as_slice(), audience, value)
    }
}

} // verus!
