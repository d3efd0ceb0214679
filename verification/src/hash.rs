//! Content-addressed identifiers.
//!
//! Every identifier is 39 raw bytes: a 3-byte prefix that says what the
//! identifier names, a 32-byte digest and 4 location bytes. The library keeps
//! the raw bytes, one type for each kind; the `holo_hash` crate builds,
//! decodes and prints them.

use holo_hash::AgentPubKey;
use holo_hash::HeaderHash;
use holochain_zome_types::zome_io::ExternIO;
use vstd::prelude::*;

verus! {

/// Length of the kind prefix.
pub const PREFIX_LEN: usize = 3;

/// Length of an identifier without its prefix: digest and location bytes.
pub const UNTYPED_LEN: usize = 36;

/// Length of a full identifier.
pub const FULL_LEN: usize = 39;

/// Length of a reply that carries one full identifier as a binary string.
pub const REPLY_LEN: usize = 41;

/// Marker byte that opens a binary string of fewer than 256 bytes.
pub const BIN8_MARKER: u8 = 0xc4;

/// Every byte of the placeholder signing identity.
pub const IDENTITY_FILL: u8 = 1;

/// What an identifier names.
#[derive(Clone, Copy, Debug, PartialEq, Eq, Structural)]
pub enum HashKind {
    /// A signing identity.
    Agent,
    /// An application bundle in its executable form.
    Dna,
    /// A record created on the ledger.
    Header,
}

/// The three bytes that open every identifier of the given kind.
pub open spec fn prefix_of(kind: HashKind) -> Seq<u8> {
    match kind {
        HashKind::Agent => seq![0x84u8, 0x20u8, 0x24u8],
        HashKind::Dna => seq![0x84u8, 0x2du8, 0x24u8],
        HashKind::Header => seq![0x84u8, 0x29u8, 0x24u8],
    }
}

/// `raw` is a full identifier of the given kind.
pub open spec fn is_raw_hash(kind: HashKind, raw: Seq<u8>) -> bool {
    &&& raw.len() == FULL_LEN
    &&& raw.subrange(0, PREFIX_LEN as int) == prefix_of(kind)
}

/// The raw bytes of the signing identity with the given digest and location
/// bytes.
pub open spec fn agent_raw(untyped: Seq<u8>) -> Seq<u8> {
    prefix_of(HashKind::Agent) + untyped
}

/// The 36 bytes of the placeholder signing identity, before the prefix.
pub open spec fn identity_fill() -> Seq<u8> {
    Seq::new(UNTYPED_LEN as nat, |i: int| IDENTITY_FILL)
}

/// The raw bytes of the placeholder signing identity.
pub open spec fn signing_identity_raw() -> Seq<u8> {
    agent_raw(identity_fill())
}

/// `reply` is one binary string of exactly 39 bytes and nothing else.
pub open spec fn is_framed_hash(reply: Seq<u8>) -> bool {
    &&& reply.len() == REPLY_LEN
    &&& reply[0] == BIN8_MARKER
    &&& reply[1] == FULL_LEN
}

/// The record identifier that a reply carries, if it carries one: the reply
/// is a single 39-byte binary string whose content opens with the record
/// prefix.
pub open spec fn reply_hash(reply: Seq<u8>) -> Option<Seq<u8>> {
    if is_framed_hash(reply) && is_raw_hash(HashKind::Header, reply.subrange(2, REPLY_LEN as int)) {
        Some(reply.subrange(2, REPLY_LEN as int))
    } else {
        None
    }
}

/// How `holo_hash` prints a record identifier with `{:?}`, as a function of
/// its 39 raw bytes.
pub uninterp spec fn header_hash_debug(raw: Seq<u8>) -> Seq<char>;

/// Calls `holo_hash::HoloHash::<Agent>::from_raw_36` and hands back the raw
/// bytes of the key it built. The constructor puts the three agent prefix
/// bytes in front of the 36 bytes it is given; it asserts that there are
/// exactly 36 of them, so other lengths are excluded.
#[verifier::external_body]
fn agent_key_from_raw_36(bytes: Vec<u8>) -> (raw: Vec<u8>)
    requires
        bytes@.len() == UNTYPED_LEN,
    ensures
        raw@ == agent_raw(bytes@),
{
    AgentPubKey::from_raw_36(bytes).into_inner()
}

/// Formats a record identifier with the `Debug` impl of `holo_hash::HoloHash`
/// (the kind's name, then the URL-safe base64 text of the 39 bytes in round
/// brackets). The identifier is rebuilt with `from_raw_39_panicky`, which
/// needs 39 bytes that open with the record prefix.
#[verifier::external_body]
fn format_header_hash(raw: Vec<u8>) -> (text: String)
    requires
        is_raw_hash(HashKind::Header, raw@),
    ensures
        text@ == header_hash_debug(raw@),
{
    format!("{:?}", HeaderHash::from_raw_39_panicky(raw))
}

/// Calls `holochain_zome_types::zome_io::ExternIO::decode` for a record
/// identifier and hands back its raw bytes. On a reply that is one binary
/// string of 39 bytes the decoder reads those bytes and accepts them exactly
/// when they open with the record prefix. Other shapes are excluded: on some
/// of them the decoder's length assertion fails.
#[verifier::external_body]
fn decode_header_hash(reply: Vec<u8>) -> (decoded: Option<Vec<u8>>)
    requires
        is_framed_hash(reply@),
    ensures
        decoded is Some <==> reply_hash(reply@) is Some,
        decoded matches Some(raw) ==> reply_hash(reply@) == Some(raw@),
{
    match ExternIO::from(reply).decode::<HeaderHash>() {
        Ok(hash) => Some(hash.into_inner()),
        Err(_) => None,
    }
}

/// A copy of `bytes`.
pub fn clone_bytes(bytes: &Vec<u8>) -> (copy: Vec<u8>)
    ensures
        copy@ == bytes@,
{
    let copy = bytes.clone();
    assert(copy@ =~= bytes@);
    copy
}

/// One byte of the prefix of `kind`.
fn prefix_byte(kind: HashKind, i: usize) -> (b: u8)
    requires
        i < PREFIX_LEN,
    ensures
        b == prefix_of(kind)[i as int],
{
    if i == 0 {
        0x84
    } else if i == 2 {
        0x24
    } else {
        match kind {
            HashKind::Agent => 0x20,
            HashKind::Dna => 0x2d,
            HashKind::Header => 0x29,
        }
    }
}

/// Whether `raw` is a full identifier of the given kind.
pub fn has_kind(kind: HashKind, raw: &Vec<u8>) -> (ok: bool)
    ensures
        ok == is_raw_hash(kind, raw@),
{
    if raw.len() != FULL_LEN {
        return false;
    }
    let ok = raw[0] == prefix_byte(kind, 0) && raw[1] == prefix_byte(kind, 1) && raw[2]
        == prefix_byte(kind, 2);
    proof {
        let head = raw@.subrange(0, PREFIX_LEN as int);
        assert(head.len() == 3);
        assert(head[0] == raw@[0] && head[1] == raw@[1] && head[2] == raw@[2]);
        if ok {
            assert(head =~= prefix_of(kind));
        }
    }
    ok
}

/// A signing identity: 39 raw bytes that open with the agent prefix.
#[derive(Debug, PartialEq, Eq)]
pub struct AgentKey {
    raw: Vec<u8>,
}

impl View for AgentKey {
    type V = Seq<u8>;

    closed spec fn view(&self) -> Seq<u8> {
        self.raw@
    }
}

impl AgentKey {
    #[verifier::type_invariant]
    spec fn inv(self) -> bool {
        is_raw_hash(HashKind::Agent, self.raw@)
    }

    /// The signing identity with the given 36 digest and location bytes;
    /// `None` unless there are 36 of them.
    pub fn from_raw_36(untyped: Vec<u8>) -> (key: Option<AgentKey>)
        ensures
            key is Some <==> untyped@.len() == UNTYPED_LEN,
            key matches Some(k) ==> k@ == agent_raw(untyped@),
    {
        if untyped.len() != UNTYPED_LEN {
            return None;
        }
        let raw = agent_key_from_raw_36(untyped);
        assert(raw@.subrange(0, PREFIX_LEN as int) =~= prefix_of(HashKind::Agent));
        Some(AgentKey { raw })
    }

    /// The placeholder signing identity: the agent prefix before 36 bytes of
    /// value 1.
    pub fn signing_identity() -> (key: AgentKey)
        ensures
            key@ == signing_identity_raw(),
    {
        let mut fill: Vec<u8> = Vec::new();
        while fill.len() < UNTYPED_LEN
            invariant
                fill@.len() <= UNTYPED_LEN,
                forall|i: int| 0 <= i < fill@.len() ==> fill@[i] == IDENTITY_FILL,
            decreases UNTYPED_LEN - fill@.len(),
        {
            fill.push(IDENTITY_FILL);
        }
        assert(fill@ =~= identity_fill());
        let raw = agent_key_from_raw_36(fill);
        assert(raw@.subrange(0, PREFIX_LEN as int) =~= prefix_of(HashKind::Agent));
        AgentKey { raw }
    }

    /// The 39 raw bytes.
    pub fn raw_39(&self) -> (raw: &Vec<u8>)
        ensures
            raw@ == self@,
            is_raw_hash(HashKind::Agent, raw@),
    {
        proof {
            use_type_invariant(self);
        }
        &self.raw
    }
}

impl Clone for AgentKey {
    fn clone(&self) -> (copy: AgentKey)
        ensures
            copy@ == self@,
    {
        proof {
            use_type_invariant(self);
        }
        AgentKey { raw: clone_bytes(&self.raw) }
    }
}

/// The content hash of a bundle in its executable form: 39 raw bytes that
/// open with the bundle prefix.
#[derive(Debug, PartialEq, Eq)]
pub struct BundleHash {
    raw: Vec<u8>,
}

impl View for BundleHash {
    type V = Seq<u8>;

    closed spec fn view(&self) -> Seq<u8> {
        self.raw@
    }
}

impl BundleHash {
    #[verifier::type_invariant]
    spec fn inv(self) -> bool {
        is_raw_hash(HashKind::Dna, self.raw@)
    }

    /// Takes 39 raw bytes as the content hash of a bundle; `None` unless
    /// they are 39 and open with the bundle prefix.
    pub fn from_raw_39(raw: Vec<u8>) -> (hash: Option<BundleHash>)
        ensures
            hash is Some <==> is_raw_hash(HashKind::Dna, raw@),
            hash matches Some(h) ==> h@ == raw@,
    {
        if has_kind(HashKind::Dna, &raw) {
            Some(BundleHash { raw })
        } else {
            None
        }
    }

    /// The 39 raw bytes.
    pub fn raw_39(&self) -> (raw: &Vec<u8>)
        ensures
            raw@ == self@,
            is_raw_hash(HashKind::Dna, raw@),
    {
        proof {
            use_type_invariant(self);
        }
        &self.raw
    }
}

impl Clone for BundleHash {
    fn clone(&self) -> (copy: BundleHash)
        ensures
            copy@ == self@,
    {
        proof {
            use_type_invariant(self);
        }
        BundleHash { raw: clone_bytes(&self.raw) }
    }
}

/// The identifier of a record on the ledger: 39 raw bytes that open with the
/// record prefix.
#[derive(Debug, PartialEq, Eq)]
pub struct RecordHash {
    raw: Vec<u8>,
}

impl View for RecordHash {
    type V = Seq<u8>;

    closed spec fn view(&self) -> Seq<u8> {
        self.raw@
    }
}

impl RecordHash {
    #[verifier::type_invariant]
    spec fn inv(self) -> bool {
        is_raw_hash(HashKind::Header, self.raw@)
    }

    /// Takes 39 raw bytes as the identifier of a record; `None` unless they
    /// are 39 and open with the record prefix.
    pub fn from_raw_39(raw: Vec<u8>) -> (hash: Option<RecordHash>)
        ensures
            hash is Some <==> is_raw_hash(HashKind::Header, raw@),
            hash matches Some(h) ==> h@ == raw@,
    {
        if has_kind(HashKind::Header, &raw) {
            Some(RecordHash { raw })
        } else {
            None
        }
    }

    /// Decodes the reply of the ledger node into the identifier of the
    /// record it created; `None` unless the reply is one 39-byte binary
    /// string that opens with the record prefix.
    pub fn from_reply(reply: Vec<u8>) -> (hash: Option<RecordHash>)
        ensures
            hash is Some <==> reply_hash(reply@) is Some,
            hash matches Some(h) ==> Some(h@) == reply_hash(reply@),
    {
        if reply.len() != REPLY_LEN || reply[0] != BIN8_MARKER || reply[1] != 39 {
            return None;
        }
        match decode_header_hash(reply) {
            Some(raw) => Some(RecordHash { raw }),
            None => None,
        }
    }

    /// The 39 raw bytes.
    pub fn raw_39(&self) -> (raw: &Vec<u8>)
        ensures
            raw@ == self@,
            is_raw_hash(HashKind::Header, raw@),
    {
        proof {
            use_type_invariant(self);
        }
        &self.raw
    }

    /// The text by which the identifier is shown.
    pub fn text(&self) -> (text: String)
        ensures
            text@ == header_hash_debug(self@),
    {
        proof {
            use_type_invariant(self);
        }
        format_header_hash(clone_bytes(&self.raw))
    }
}

impl Clone for RecordHash {
    fn clone(&self) -> (copy: RecordHash)
        ensures
            copy@ == self@,
    {
        proof {
            use_type_invariant(self);
        }
        RecordHash { raw: clone_bytes(&self.raw) }
    }
}

/// Mathematical value of a [`ContextId`].
pub struct ContextIdView {
    pub bundle: Seq<u8>,
    pub agent: Seq<u8>,
}

/// The identifier of an execution context, as a function of the bundle's
/// content hash and the signing identity.
pub open spec fn context_of(bundle: Seq<u8>, agent: Seq<u8>) -> ContextIdView {
    ContextIdView { bundle, agent }
}

/// Execution-context identifier: the content hash of a bundle together with
/// the signing identity that runs it.
#[derive(Debug, PartialEq, Eq)]
pub struct ContextId {
    /// The content hash of the bundle.
    pub bundle: BundleHash,
    /// The signing identity.
    pub agent: AgentKey,
}

impl View for ContextId {
    type V = ContextIdView;

    open spec fn view(&self) -> ContextIdView {
        ContextIdView { bundle: self.bundle@, agent: self.agent@ }
    }
}

impl ContextId {
    /// Combines the content hash of a bundle with a signing identity.
    pub fn derive(bundle: BundleHash, agent: AgentKey) -> (id: ContextId)
        ensures
            id@ == context_of(bundle@, agent@),
    {
        ContextId { bundle, agent }
    }
}

impl Clone for ContextId {
    fn clone(&self) -> (copy: ContextId)
        ensures
            copy@ == self@,
    {
        ContextId { bundle: self.bundle.clone(), agent: self.agent.clone() }
    }
}

/// Two derivations from the same bundle hash and the same signing identity
/// give the same execution-context identifier, and the identifier keeps its
/// inputs apart: different inputs give different identifiers. The same holds
/// of a signing identity and the bytes it is built from.
pub proof fn law_context_deterministic(
    bundle_a: Seq<u8>,
    untyped_a: Seq<u8>,
    bundle_b: Seq<u8>,
    untyped_b: Seq<u8>,
)
    ensures
        (bundle_a == bundle_b && untyped_a == untyped_b) <==> context_of(
            bundle_a,
            agent_raw(untyped_a),
        ) == context_of(bundle_b, agent_raw(untyped_b)),
{
    if agent_raw(untyped_a) == agent_raw(untyped_b) {
        assert(untyped_a =~= agent_raw(untyped_a).subrange(
            PREFIX_LEN as int,
            agent_raw(untyped_a).len() as int,
        ));
        assert(untyped_b =~= agent_raw(untyped_b).subrange(
            PREFIX_LEN as int,
            agent_raw(untyped_b).len() as int,
        ));
    }
}

} // verus!
