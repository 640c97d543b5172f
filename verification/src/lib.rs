//! Typed binary contract for the central, standalone Sema daemon: storage,
//! lookup, version, snapshot, push-subscription, fixture-scoped identifier
//! allocation and identity-authority messages, with the structural rules that
//! every accepted document root obeys.
//!
//! The crate owns no actors, sockets or durable state. It defines the message
//! vocabulary, checks document roots against their laws, projects a payload
//! onto the part that makes up its content identity, and digests an encoding
//! of that projection into a content hash.
pub mod ids;
pub mod laws;
pub mod messages;
pub mod outcomes;
pub mod payload;
pub mod roots;

pub use ids::{
    ContentHash, DocumentKey, DocumentKind, FixtureScope, Identifier, IdentifierBlock,
    NameTableBytes, SlotIdentifier, Snapshot, SubscriptionIdentifier, Version, WIRE_VERSION,
};
pub use messages::{
    BindOutcome, BoundIdentities, ChangeEvent, CodecError, DeclaredIdentity, DeclaredKey,
    DeclaredShape, IdentityAssignment, IdentityIntent, MintedUniverse, Rejection, Reply, Request,
    SchemaWholeHandle, SlotSummary, StoredDocument, TypeIdentity, Wire,
};
pub use payload::{DocumentPayload, EncodedItem, EncodedSchema, NomosPackage, PayloadModel};
pub use roots::{
    BelongsRelation, FamilyDeclaration, NexusActorDeclaration, NexusRoute, NexusRuntimeModel,
    NexusRuntimeRoot, OpensRelation, RootViolation, SemaStorageModel, SemaStorageRoot,
    SignalContractModel, SignalContractRoot, StreamDeclaration,
};
