//! Requests, replies and the documents and events they carry.
//!
//! New variants are only ever appended to [`Request`], [`Reply`] and
//! [`Rejection`], so that older encodings stay readable.
use vstd::prelude::*;

use crate::ids::{
    ContentHash, DocumentKey, DocumentKind, FixtureScope, IdentifierBlock, Snapshot,
    SubscriptionIdentifier, Version,
};
use crate::payload::DocumentPayload;
use crate::roots::RootViolation;

verus! {

/// A stored document: its key, version, content hash and payload.
#[derive(Clone, Debug, PartialEq, Eq)]
pub struct StoredDocument {
    pub key: DocumentKey,
    pub version: Version,
    pub hash: ContentHash,
    pub payload: DocumentPayload,
}

/// The summary of a slot: its key, version and content hash.
#[derive(Clone, Copy, Debug, PartialEq, Eq)]
pub struct SlotSummary {
    pub key: DocumentKey,
    pub version: Version,
    pub hash: ContentHash,
}

/// A change pushed to a subscription.
#[derive(Clone, Copy, Debug, PartialEq, Eq)]
pub struct ChangeEvent {
    pub subscription: SubscriptionIdentifier,
    pub snapshot: Snapshot,
    pub document: SlotSummary,
}

/// An opaque, author-supplied handle of a schema whole.
#[derive(Clone, Debug, PartialEq, Eq)]
pub struct SchemaWholeHandle(pub Vec<u8>);

/// The key of "the same declared thing": the declared name spelling within
/// its whole.
#[derive(Clone, Debug, PartialEq, Eq)]
pub struct DeclaredKey(pub Vec<u8>);

/// The fingerprint of a declared thing's shape.
#[derive(Clone, Copy, Debug, PartialEq, Eq, Hash)]
pub struct DeclaredShape(pub [u8; 32]);

/// An identity that the authority minted for a declared thing.
#[derive(Clone, Copy, Debug, PartialEq, Eq, Structural, PartialOrd, Ord, Hash)]
pub struct TypeIdentity(pub u64);

/// The universe that the authority minted or bound for a schema whole.
#[derive(Clone, Copy, Debug, PartialEq, Eq, Structural, PartialOrd, Ord, Hash)]
pub struct MintedUniverse(pub u64);

/// What a declaration asks of the authority.
#[derive(Clone, Copy, Debug, PartialEq, Eq, Structural)]
pub enum IdentityIntent {
    /// Mint a fresh identity for a new key, or return the one bound to it.
    MintOrBind,
    /// Assert an existing identity under this key (a rename or move).
    Continue(TypeIdentity),
}

/// One declared thing of a schema whole.
#[derive(Clone, Debug, PartialEq, Eq)]
pub struct DeclaredIdentity {
    pub key: DeclaredKey,
    pub shape: DeclaredShape,
    pub intent: IdentityIntent,
}

/// Whether an assignment minted a new identity or bound an existing one.
#[derive(Clone, Copy, Debug, PartialEq, Eq, Structural)]
pub enum BindOutcome {
    Minted,
    Bound,
}

/// The identity assigned to one declaration.
#[derive(Clone, Debug, PartialEq, Eq)]
pub struct IdentityAssignment {
    pub key: DeclaredKey,
    pub identity: TypeIdentity,
    pub outcome: BindOutcome,
}

/// The whole's universe and one assignment per declaration.
#[derive(Clone, Debug, PartialEq, Eq)]
pub struct BoundIdentities {
    pub universe: MintedUniverse,
    pub assignments: Vec<IdentityAssignment>,
}

/// A request to the daemon.
#[derive(Clone, Debug, PartialEq, Eq)]
pub enum Request {
    Store { key: DocumentKey, payload: DocumentPayload },
    Fetch { key: DocumentKey, version: Option<Version> },
    List { scope: FixtureScope, kind: Option<DocumentKind> },
    HashFetch { hash: ContentHash },
    Snapshot { scope: FixtureScope },
    Subscribe { scope: FixtureScope, kind: Option<DocumentKind> },
    AllocateIdentifiers { scope: FixtureScope, count: u32 },
    BindIdentities { whole: SchemaWholeHandle, declarations: Vec<DeclaredIdentity> },
}

/// A reply of the daemon.
#[derive(Clone, Debug, PartialEq, Eq)]
pub enum Reply {
    Stored(SlotSummary),
    Document(Option<StoredDocument>),
    Listed(Vec<SlotSummary>),
    Snapshotted(Snapshot),
    Subscribed { identifier: SubscriptionIdentifier, initial: Vec<SlotSummary> },
    IdentifiersAllocated(IdentifierBlock),
    Rejected(Rejection),
    Event(ChangeEvent),
    IdentitiesBound(BoundIdentities),
}

/// Why the daemon refused a request.
#[derive(Clone, Debug, PartialEq, Eq)]
pub enum Rejection {
    InvalidKind,
    InvalidDocument(RootViolation),
    NotFound,
    CountZero,
    IncompatibleWireVersion,
    Internal,
    /// An existing identity was asserted for a different shape.
    IdentityRebindRejected {
        identity: TypeIdentity,
        bound_shape: DeclaredShape,
        attempted_shape: DeclaredShape,
    },
    EmptyDeclarationSet,
    IdentityNeverMinted,
}

/// Why a value could not be encoded or decoded.
#[derive(Clone, Debug, PartialEq, Eq)]
pub enum CodecError {
    Encode(String),
    Decode(String),
    FrameTooLarge,
}

/// The wire codec of this contract.
#[derive(Clone, Copy, Debug, PartialEq, Eq)]
pub struct Wire;

} // verus!
