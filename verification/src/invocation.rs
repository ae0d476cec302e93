//! Sealed extensions of a Kernel Invocation Context.

use lenso_kernel::InvocationContext;
use vstd::prelude::*;

use crate::signature;
use crate::text;

verus! {

/// A Kernel Invocation Context, carried through as it is.
#[verifier::external_type_specification]
#[verifier::external_body]
pub struct ExInvocationContext(lenso_kernel::InvocationContext);

/// What a sealed extension carries.
pub struct SealedExtensionView {
    pub issuer: Seq<char>,
    pub audience: Seq<Seq<char>>,
    pub value: Seq<u8>,
    pub signature: Seq<char>,
}

/// The sealed extensions that an Invocation Context holds, by key.
pub uninterp spec fn sealed_extensions(context: InvocationContext) -> Map<
    Seq<char>,
    SealedExtensionView,
>;

/// The ordinary extensions that an Invocation Context holds, by key.
pub uninterp spec fn ordinary_extensions(context: InvocationContext) -> Map<Seq<char>, Seq<u8>>;

/// The Kernel Request ID that an Invocation Context carries.
pub uninterp spec fn request_id(context: InvocationContext) -> u64;

/// The Caller Module Instance that an Invocation Context carries, if any.
pub uninterp spec fn caller_instance(context: InvocationContext) -> Option<Seq<char>>;

/// The deadline that an Invocation Context carries, if any, in nanoseconds.
pub uninterp spec fn deadline(context: InvocationContext) -> Option<nat>;

/// Whether a key already names an extension, sealed or ordinary.
pub open spec fn occupied(context: InvocationContext, key: Seq<char>) -> bool {
    sealed_extensions(context).contains_key(key) || ordinary_extensions(context).contains_key(key)
}

/// Whether two contexts differ in their sealed extensions at most.
pub open spec fn alike(left: InvocationContext, right: InvocationContext) -> bool {
    &&& ordinary_extensions(left) == ordinary_extensions(right)
    &&& request_id(left) == request_id(right)
    &&& caller_instance(left) == caller_instance(right)
    &&& deadline(left) == deadline(right)
}

/// The target that an audience entry has to name: `capability:operation`.
pub open spec fn target(capability_id: Seq<char>, operation: Seq<char>) -> Seq<char> {
    capability_id + seq![':'] + operation
}

/// Whether an audience has an entry, and no entry is empty.
pub open spec fn valid_audience(audience: Seq<Seq<char>>) -> bool {
    &&& audience.len() > 0
    &&& forall|i: int| 0 <= i < audience.len() ==> (#[trigger] audience[i]).len() > 0
}

impl SealedExtensionView {
    /// Whether the extension names an issuer, an audience and a proof.
    pub open spec fn complete(self) -> bool {
        &&& self.issuer.len() > 0
        &&& valid_audience(self.audience)
        &&& self.signature.len() > 0
    }

    /// Whether the audience covers one exact target.
    pub open spec fn covers(self, capability_id: Seq<char>, operation: Seq<char>) -> bool {
        self.audience.contains(target(capability_id, operation))
    }
}

/// Failure returned when an Invocation Context extension cannot be attached.
#[derive(Debug, Eq, PartialEq)]
pub enum InvocationContextError {
    /// An extension key cannot be empty.
    EmptyExtensionKey,
    /// An ordinary extension already occupies the requested key.
    ExtensionAlreadySet { key: String },
    /// A sealed extension cannot be replaced by another extension value.
    SealedExtensionAlreadySet { key: String },
    /// Sealed provenance must name an issuer and at least one audience entry.
    InvalidSealedExtension { key: String },
}

/// What an [`InvocationContextError`] says.
pub enum InvocationContextErrorView {
    EmptyExtensionKey,
    ExtensionAlreadySet { key: Seq<char> },
    SealedExtensionAlreadySet { key: Seq<char> },
    InvalidSealedExtension { key: Seq<char> },
}

impl View for InvocationContextError {
    type V = InvocationContextErrorView;

    open spec fn view(&self) -> InvocationContextErrorView {
        match self {
            InvocationContextError::EmptyExtensionKey =>
                InvocationContextErrorView::EmptyExtensionKey,
            InvocationContextError::ExtensionAlreadySet { key } =>
                InvocationContextErrorView::ExtensionAlreadySet { key: key@ },
            InvocationContextError::SealedExtensionAlreadySet { key } =>
                InvocationContextErrorView::SealedExtensionAlreadySet { key: key@ },
            InvocationContextError::InvalidSealedExtension { key } =>
                InvocationContextErrorView::InvalidSealedExtension { key: key@ },
        }
    }
}

impl Clone for InvocationContextError {
    fn clone(&self) -> (copy: Self)
        ensures
            copy == *self,
    {
        match self {
            InvocationContextError::EmptyExtensionKey => InvocationContextError::EmptyExtensionKey,
            InvocationContextError::ExtensionAlreadySet {
                key,
            } => InvocationContextError::ExtensionAlreadySet { key: key.clone() },
            InvocationContextError::SealedExtensionAlreadySet {
                key,
            } => InvocationContextError::SealedExtensionAlreadySet { key: key.clone() },
            InvocationContextError::InvalidSealedExtension {
                key,
            } => InvocationContextError::InvalidSealedExtension { key: key.clone() },
        }
    }
}

impl InvocationContextErrorView {
    /// The message that reports the failure.
    pub open spec fn message(self) -> Seq<char> {
        match self {
            InvocationContextErrorView::EmptyExtensionKey =>
                "Invocation Context extension key is empty"@,
            InvocationContextErrorView::ExtensionAlreadySet { key } =>
                "Invocation Context extension `"@ + key + "` is already set"@,
            InvocationContextErrorView::SealedExtensionAlreadySet { key } =>
                "sealed Invocation Context extension `"@ + key + "` is already set"@,
            InvocationContextErrorView::InvalidSealedExtension { key } =>
                "sealed Invocation Context extension `"@ + key + "` has invalid provenance"@,
        }
    }
}

impl InvocationContextError {
    /// The message that reports the failure.
    pub fn message(&self) -> (message: String)
        ensures
            message@ == self@.message(),
    {
        match self {
            InvocationContextError::EmptyExtensionKey =>
                "Invocation Context extension key is empty".to_owned(),
            InvocationContextError::ExtensionAlreadySet { key } =>
                "Invocation Context extension `".to_owned().concat(key.as_str()).concat(
                "` is already set",
            ),
            InvocationContextError::SealedExtensionAlreadySet { key } =>
                "sealed Invocation Context extension `".to_owned().concat(key.as_str()).concat(
                "` is already set",
            ),
            InvocationContextError::InvalidSealedExtension { key } =>
                "sealed Invocation Context extension `".to_owned().concat(key.as_str()).concat(
                "` has invalid provenance",
            ),
        }
    }
}

/// An opaque extension with its issuer, its audience and the proof that covers them. It has no
/// debug text, which would show the bytes and the proof.
#[derive(Eq, PartialEq)]
pub struct SealedExtension {
    /// The issuer provenance.
    pub issuer: String,
    /// The intended Capability/Operation audience.
    pub audience: Vec<String>,
    /// The opaque extension bytes.
    pub value: Vec<u8>,
    /// The domain proof covering issuer, audience and value.
    pub signature: String,
}

impl View for SealedExtension {
    type V = SealedExtensionView;

    open spec fn view(&self) -> SealedExtensionView {
        SealedExtensionView {
            issuer: self.issuer@,
            audience: signature::texts(self.audience@),
            value: self.value@,
            signature: self.signature@,
        }
    }
}

impl SealedExtension {
    /// Returns whether the signed audience covers one exact target Operation.
    pub fn covers(&self, capability_id: &str, operation: &str) -> (covered: bool)
        ensures
            covered == self@.covers(capability_id@, operation@),
    {
        let mut wanted = capability_id.to_owned();
        wanted.push(':');
        wanted.append(operation);
        let ghost wanted_target = target(capability_id@, operation@);
        assert(wanted@ =~= wanted_target);
        let mut index: usize = 0;
        while index < self.audience.len()
            invariant
                index <= self.audience@.len(),
                wanted@ == wanted_target,
                wanted_target == target(capability_id@, operation@),
                forall|i: int| 0 <= i < index ==> self@.audience[i] != wanted_target,
            decreases self.audience@.len() - index,
        {
            if text::same_text(self.audience[index].as_str(), wanted.as_str()) {
                assert(self@.audience[index as int] == wanted_target);
                return true;
            }
            index += 1;
        }
        false
    }
}

/// Checks that an audience has an entry, and that no entry is empty.
pub fn is_valid_audience(audience: &[String]) -> (valid: bool)
    ensures
        valid == valid_audience(signature::texts(audience@)),
{
    let ghost entries = signature::texts(audience@);
    if audience.len() == 0 {
        return false;
    }
    let mut index: usize = 0;
    while index < audience.len()
        invariant
            index <= audience@.len(),
            entries == signature::texts(audience@),
            forall|i: int| 0 <= i < index ==> (#[trigger] entries[i]).len() > 0,
        decreases audience@.len() - index,
    {
        if audience[index].as_str().is_empty() {
            assert(entries[index as int].len() == 0);
            return false;
        }
        index += 1;
    }
    true
}

/// `InvocationContext::sealed_extension`, with the parts that `SealedInvocationExtension`
/// gives out by `issuer`, `audience`, `value` and `proof`: the extension under a key, if the
/// context holds one.
#[verifier::external_body]
pub(crate) fn sealed_extension(context: &InvocationContext, key: &str) -> (found: Option<
    SealedExtension,
>)
    ensures
        found is Some <==> sealed_extensions(*context).contains_key(key@),
        found matches Some(extension) ==> extension@ == sealed_extensions(*context)[key@],
{
    match context.sealed_extension(key) {
        Some(extension) => Some(
            SealedExtension {
                issuer: extension.issuer().to_owned(),
                audience: extension.audience().to_vec(),
                value: extension.value().to_vec(),
                signature: extension.proof().to_owned(),
            },
        ),
        None => None,
    }
}

/// `InvocationContext::with_sealed_extension`, handed a `SealedInvocationExtension::signed`
/// of the given parts. It refuses an empty key, an incomplete extension and an occupied key,
/// in this order, and otherwise adds the extension and keeps every other extension, the
/// request identity, the caller and the deadline.
///
/// The cancellation token is kept too. It is known by its address and not by a value, so
/// nothing is said of it.
#[verifier::external_body]
pub(crate) fn with_sealed_extension(
    context: InvocationContext,
    key: &str,
    extension: SealedExtension,
) -> (result: Result<InvocationContext, InvocationContextError>)
    ensures
        match result {
            Ok(next) => {
                &&& key@.len() > 0
                &&& extension@.complete()
                &&& !occupied(context, key@)
                &&& sealed_extensions(next) == sealed_extensions(context).insert(
                    key@,
                    extension@,
                )
                &&& ordinary_extensions(next) == ordinary_extensions(context)
                &&& request_id(next) == request_id(context)
                &&& caller_instance(next) == caller_instance(context)
                &&& deadline(next) == deadline(context)
            },
            Err(error) => error@ == (if key@.len() == 0 {
                InvocationContextErrorView::EmptyExtensionKey
            } else if !extension@.complete() {
                InvocationContextErrorView::InvalidSealedExtension { key: key@ }
            } else {
                InvocationContextErrorView::SealedExtensionAlreadySet { key: key@ }
            }) && (key@.len() == 0 || !extension@.complete() || occupied(context, key@)),
        },
{
    let SealedExtension { issuer, audience, value, signature } = extension;
    match context.with_sealed_extension(
        lenso_kernel::SealedInvocationExtension::signed(key, issuer, audience, value, signature),
    ) {
        Ok(next) => Ok(next),
        Err(lenso_kernel::InvocationContextError::EmptyExtensionKey) =>
            Err(InvocationContextError::EmptyExtensionKey),
        Err(lenso_kernel::InvocationContextError::ExtensionAlreadySet { key }) =>
            Err(InvocationContextError::ExtensionAlreadySet { key }),
        Err(lenso_kernel::InvocationContextError::SealedExtensionAlreadySet { key }) =>
            Err(InvocationContextError::SealedExtensionAlreadySet { key }),
        Err(lenso_kernel::InvocationContextError::InvalidSealedExtension { key }) =>
            Err(InvocationContextError::InvalidSealedExtension { key }),
    }
}

} // verus!
