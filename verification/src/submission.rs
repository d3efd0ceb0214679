//! Submission of a valid expression: what is sent to the ledger, and how each
//! outcome of the attempt reads in the status line.

use crate::hash::context_of;
use crate::hash::header_hash_debug;
use crate::hash::is_raw_hash;
use crate::hash::reply_hash;
use crate::hash::signing_identity_raw;
use crate::hash::AgentKey;
use crate::hash::BundleHash;
use crate::hash::RecordHash;
use crate::hash::ContextId;
use crate::hash::ContextIdView;
use crate::hash::HashKind;
use crate::text::join;
use crate::text::join3;
use vstd::prelude::*;
use vstd::string::StringExecFns;

verus! {

/// Where the ledger node listens.
pub open spec fn ledger_address_text() -> Seq<char> {
    "ws://127.0.0.1:9999"@
}

/// Where the application bundle is read from.
pub open spec fn bundle_path_text() -> Seq<char> {
    "./happs/rep_interchange/rep_interchange.dna"@
}

/// The remote module that every invocation names.
pub open spec fn zome_name_text() -> Seq<char> {
    "interpreter"@
}

/// The remote function that every invocation names.
pub open spec fn fn_name_text() -> Seq<char> {
    "create_interchange_entry"@
}

/// Detail of the failure on a bundle hash that is not a 39-byte bundle
/// identifier.
pub open spec fn malformed_bundle_hash_text() -> Seq<char> {
    "the bundle's hash is not a 39-byte bundle identifier"@
}

/// Detail of the failure on a reply that carries no record identifier.
pub open spec fn malformed_reply_text() -> Seq<char> {
    "the reply is not a 39-byte record identifier"@
}

/// The address of the ledger node, to which the caller connects once before
/// the loop starts.
pub fn ledger_address() -> (address: String)
    ensures
        address@ == ledger_address_text(),
{
    String::from_str("ws://127.0.0.1:9999")
}

/// Mathematical value of a [`SubmitError`].
pub enum SubmitErrorView {
    BundleRead(Seq<char>),
    BundleConversion(Seq<char>),
    PayloadEncoding(Seq<char>),
    RpcTransport(Seq<char>),
    RpcRejection(Seq<char>),
    ReplyDecoding(Seq<char>),
}

/// Why a submission attempt ended without a created record. Each variant
/// carries the detail that the failing step reported.
#[derive(Debug, PartialEq, Eq)]
pub enum SubmitError {
    /// The bundle file is missing or malformed.
    BundleRead(String),
    /// The bundle could not be brought into its executable form.
    BundleConversion(String),
    /// The expression and its arguments could not be serialized.
    PayloadEncoding(String),
    /// The request did not reach the ledger node, or no reply came back.
    RpcTransport(String),
    /// The ledger node refused the request.
    RpcRejection(String),
    /// The reply is not the identifier of a created record.
    ReplyDecoding(String),
}

impl View for SubmitError {
    type V = SubmitErrorView;

    open spec fn view(&self) -> SubmitErrorView {
        match self {
            SubmitError::BundleRead(detail) => SubmitErrorView::BundleRead(detail@),
            SubmitError::BundleConversion(detail) => SubmitErrorView::BundleConversion(detail@),
            SubmitError::PayloadEncoding(detail) => SubmitErrorView::PayloadEncoding(detail@),
            SubmitError::RpcTransport(detail) => SubmitErrorView::RpcTransport(detail@),
            SubmitError::RpcRejection(detail) => SubmitErrorView::RpcRejection(detail@),
            SubmitError::ReplyDecoding(detail) => SubmitErrorView::ReplyDecoding(detail@),
        }
    }
}

impl SubmitErrorView {
    /// The name of the failure's kind.
    pub open spec fn kind_name(self) -> Seq<char> {
        match self {
            SubmitErrorView::BundleRead(_) => "BundleReadError"@,
            SubmitErrorView::BundleConversion(_) => "BundleConversionError"@,
            SubmitErrorView::PayloadEncoding(_) => "PayloadEncodingError"@,
            SubmitErrorView::RpcTransport(_) => "RpcTransportError"@,
            SubmitErrorView::RpcRejection(_) => "RpcRejectionError"@,
            SubmitErrorView::ReplyDecoding(_) => "ReplyDecodingError"@,
        }
    }

    /// What the failing step reported.
    pub open spec fn detail(self) -> Seq<char> {
        match self {
            SubmitErrorView::BundleRead(detail) => detail,
            SubmitErrorView::BundleConversion(detail) => detail,
            SubmitErrorView::PayloadEncoding(detail) => detail,
            SubmitErrorView::RpcTransport(detail) => detail,
            SubmitErrorView::RpcRejection(detail) => detail,
            SubmitErrorView::ReplyDecoding(detail) => detail,
        }
    }

    /// The status line of the failure: `error: <kind>: <detail>`.
    pub open spec fn status(self) -> Seq<char> {
        "error: "@ + self.kind_name() + ": "@ + self.detail()
    }
}

impl SubmitError {
    /// The name of the failure's kind.
    pub fn kind_name(&self) -> (name: &'static str)
        ensures
            name@ == self@.kind_name(),
    {
        match self {
            SubmitError::BundleRead(_) => "BundleReadError",
            SubmitError::BundleConversion(_) => "BundleConversionError",
            SubmitError::PayloadEncoding(_) => "PayloadEncodingError",
            SubmitError::RpcTransport(_) => "RpcTransportError",
            SubmitError::RpcRejection(_) => "RpcRejectionError",
            SubmitError::ReplyDecoding(_) => "ReplyDecodingError",
        }
    }

    /// What the failing step reported.
    pub fn detail(&self) -> (detail: &String)
        ensures
            detail@ == self@.detail(),
    {
        match self {
            SubmitError::BundleRead(detail) => detail,
            SubmitError::BundleConversion(detail) => detail,
            SubmitError::PayloadEncoding(detail) => detail,
            SubmitError::RpcTransport(detail) => detail,
            SubmitError::RpcRejection(detail) => detail,
            SubmitError::ReplyDecoding(detail) => detail,
        }
    }

    /// The status line of the failure.
    pub fn status(&self) -> (line: String)
        ensures
            line@ == self@.status(),
    {
        let mut line = join3("error: ", self.kind_name(), ": ");
        line.append(self.detail().as_str());
        line
    }
}

/// Mathematical value of an [`RpcError`].
pub enum RpcErrorView {
    Transport(Seq<char>),
    Rejection(Seq<char>),
}

/// How a remote call failed.
#[derive(Debug, PartialEq, Eq)]
pub enum RpcError {
    /// The request did not reach the ledger node, or no reply came back.
    Transport(String),
    /// The ledger node refused the request.
    Rejection(String),
}

impl View for RpcError {
    type V = RpcErrorView;

    open spec fn view(&self) -> RpcErrorView {
        match self {
            RpcError::Transport(detail) => RpcErrorView::Transport(detail@),
            RpcError::Rejection(detail) => RpcErrorView::Rejection(detail@),
        }
    }
}

/// What the remote call answered, over mathematical values.
pub open spec fn reply_outcome_view(outcome: Result<Vec<u8>, RpcError>) -> Result<
    Seq<u8>,
    RpcErrorView,
> {
    match outcome {
        Ok(reply) => Ok(reply@),
        Err(failure) => Err(failure@),
    }
}

/// What a step that hands back bytes answered, over mathematical values.
pub open spec fn bytes_outcome_view(outcome: Result<Vec<u8>, String>) -> Result<
    Seq<u8>,
    Seq<char>,
> {
    match outcome {
        Ok(bytes) => Ok(bytes@),
        Err(detail) => Err(detail@),
    }
}

/// The status line of a created record: `create: ie_hash: <hash>`.
pub open spec fn created_status(record: Seq<u8>) -> Seq<char> {
    "create: ie_hash: "@ + header_hash_debug(record)
}

/// The status line that the answer of the remote call leads to.
pub open spec fn reply_status(outcome: Result<Seq<u8>, RpcErrorView>) -> Seq<char> {
    match outcome {
        Err(RpcErrorView::Transport(detail)) => SubmitErrorView::RpcTransport(detail).status(),
        Err(RpcErrorView::Rejection(detail)) => SubmitErrorView::RpcRejection(detail).status(),
        Ok(reply) => match reply_hash(reply) {
            Some(record) => created_status(record),
            None => SubmitErrorView::ReplyDecoding(malformed_reply_text()).status(),
        },
    }
}

/// Folds the answer of the remote call into the status line.
pub fn fold_reply(outcome: Result<Vec<u8>, RpcError>) -> (line: String)
    ensures
        line@ == reply_status(reply_outcome_view(outcome)),
{
    match outcome {
        Err(RpcError::Transport(detail)) => SubmitError::RpcTransport(detail).status(),
        Err(RpcError::Rejection(detail)) => SubmitError::RpcRejection(detail).status(),
        Ok(reply) => match RecordHash::from_reply(reply) {
            Some(record) => join("create: ie_hash: ", record.text().as_str()),
            None => SubmitError::ReplyDecoding(
                String::from_str("the reply is not a 39-byte record identifier"),
            ).status(),
        },
    }
}

/// The execution context of a bundle: its content hash combined with the
/// placeholder signing identity. There is one exactly when `bundle` is a
/// 39-byte bundle identifier.
pub open spec fn context_for(bundle: Seq<u8>) -> Option<ContextIdView> {
    if is_raw_hash(HashKind::Dna, bundle) {
        Some(context_of(bundle, signing_identity_raw()))
    } else {
        None
    }
}

/// Derives the execution context from the content hash of the bundle, with a
/// freshly built signing identity.
pub fn derive_context(bundle: Vec<u8>) -> (context: Result<ContextId, SubmitError>)
    ensures
        context is Ok <==> is_raw_hash(HashKind::Dna, bundle@),
        context matches Ok(id) ==> context_for(bundle@) == Some(id@),
        context matches Err(error) ==> context_for(bundle@) is None && error@
            == SubmitErrorView::BundleConversion(malformed_bundle_hash_text()),
{
    match BundleHash::from_raw_39(bundle) {
        Some(hash) => Ok(ContextId::derive(hash, AgentKey::signing_identity())),
        None => Err(
            SubmitError::BundleConversion(
                String::from_str("the bundle's hash is not a 39-byte bundle identifier"),
            ),
        ),
    }
}

/// Mathematical value of an [`Invocation`].
pub struct InvocationView {
    pub context: ContextIdView,
    pub zome_name: Seq<char>,
    pub fn_name: Seq<char>,
    pub payload: Seq<u8>,
    pub cap: Option<Seq<u8>>,
    pub provenance: Seq<u8>,
}

/// One remote invocation.
#[derive(Debug, PartialEq, Eq)]
pub struct Invocation {
    /// The execution context that is to run the call.
    pub context: ContextId,
    /// The remote module.
    pub zome_name: String,
    /// The remote function.
    pub fn_name: String,
    /// The serialized argument of the call.
    pub payload: Vec<u8>,
    /// The capability token, if the call presents one.
    pub cap: Option<Vec<u8>>,
    /// The identity that signs the call.
    pub provenance: AgentKey,
}

impl View for Invocation {
    type V = InvocationView;

    open spec fn view(&self) -> InvocationView {
        InvocationView {
            context: self.context@,
            zome_name: self.zome_name@,
            fn_name: self.fn_name@,
            payload: self.payload@,
            cap: match self.cap {
                Some(token) => Some(token@),
                None => None,
            },
            provenance: self.provenance@,
        }
    }
}

/// The invocation that submits `payload` in `context`: the fixed module and
/// function, no capability token, and the context's signing identity as
/// provenance.
pub open spec fn invocation_for(context: ContextIdView, payload: Seq<u8>) -> InvocationView {
    InvocationView {
        context,
        zome_name: zome_name_text(),
        fn_name: fn_name_text(),
        payload,
        cap: None,
        provenance: context.agent,
    }
}

/// Builds the invocation that submits `payload` in `context`.
pub fn build_invocation(context: ContextId, payload: Vec<u8>) -> (call: Invocation)
    ensures
        call@ == invocation_for(context@, payload@),
{
    let provenance = context.agent.clone();
    Invocation {
        context,
        zome_name: String::from_str("interpreter"),
        fn_name: String::from_str("create_interchange_entry"),
        payload,
        cap: None,
        provenance,
    }
}

} // verus!
