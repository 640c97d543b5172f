//! Document payloads: their kind, their validation, the projection onto
//! their content identity, and the digest that names that identity.
use vstd::prelude::*;

use crate::ids::{ContentHash, DocumentKind, NameTableBytes};
use crate::roots::{
    NexusRuntimeModel, NexusRuntimeRoot, RootViolation, SemaStorageModel, SemaStorageRoot,
    SignalContractModel, SignalContractRoot,
};

verus! {

/// The one fixture-scoped macro package of the prototype; this typed identity
/// reconstructs the wire fixture package in the Nomos daemon.
#[derive(Clone, Copy, Debug, PartialEq, Eq, Structural)]
pub enum NomosPackage {
    WireFixture,
}

/// A type schema in the canonical encoding of the core schema crate.
#[derive(Clone, Debug, PartialEq, Eq)]
pub struct EncodedSchema(pub Vec<u8>);

/// A logos item in the canonical encoding of the core logos crate.
#[derive(Clone, Debug, PartialEq, Eq)]
pub struct EncodedItem(pub Vec<u8>);

impl View for EncodedSchema {
    type V = Seq<u8>;

    open spec fn view(&self) -> Seq<u8> {
        self.0@
    }
}

impl View for EncodedItem {
    type V = Seq<u8>;

    open spec fn view(&self) -> Seq<u8> {
        self.0@
    }
}

/// The accepted document roots, one closed variant per document kind.
#[derive(Clone, Debug, PartialEq, Eq)]
pub enum DocumentPayload {
    TypeSchema { schema: EncodedSchema, names: NameTableBytes },
    SignalContract(SignalContractRoot),
    NexusRuntime(NexusRuntimeRoot),
    SemaStorage(SemaStorageRoot),
    Nomos(NomosPackage),
    Logos { items: Vec<EncodedItem>, names: NameTableBytes },
}

/// The mathematical value of a [`DocumentPayload`].
pub enum PayloadModel {
    TypeSchema { schema: Seq<u8>, names: Seq<u8> },
    SignalContract(SignalContractModel),
    NexusRuntime(NexusRuntimeModel),
    SemaStorage(SemaStorageModel),
    Nomos(NomosPackage),
    Logos { items: Seq<Seq<u8>>, names: Seq<u8> },
}

impl View for DocumentPayload {
    type V = PayloadModel;

    open spec fn view(&self) -> PayloadModel {
        match self {
            DocumentPayload::TypeSchema { schema, names } => PayloadModel::TypeSchema {
                schema: schema@,
                names: names@,
            },
            DocumentPayload::SignalContract(root) => PayloadModel::SignalContract(root@),
            DocumentPayload::NexusRuntime(root) => PayloadModel::NexusRuntime(root@),
            DocumentPayload::SemaStorage(root) => PayloadModel::SemaStorage(root@),
            DocumentPayload::Nomos(package) => PayloadModel::Nomos(*package),
            DocumentPayload::Logos { items, names } => PayloadModel::Logos {
                items: items@.map_values(|item: EncodedItem| item@),
                names: names@,
            },
        }
    }
}

impl PayloadModel {
    /// The kind of document that the payload is.
    pub open spec fn kind(self) -> DocumentKind {
        match self {
            PayloadModel::TypeSchema { .. } => DocumentKind::TypeSchema,
            PayloadModel::SignalContract(_) => DocumentKind::SignalContract,
            PayloadModel::NexusRuntime(_) => DocumentKind::NexusRuntime,
            PayloadModel::SemaStorage(_) => DocumentKind::SemaStorage,
            PayloadModel::Nomos(_) => DocumentKind::Nomos,
            PayloadModel::Logos { .. } => DocumentKind::Logos,
        }
    }

    /// The outcome of validation: that of the root for the three kinds
    /// with root laws, `Ok(())` for the others.
    pub open spec fn validation(self) -> Result<(), RootViolation> {
        match self {
            PayloadModel::SignalContract(root) => root.validation(),
            PayloadModel::NexusRuntime(root) => root.validation(),
            PayloadModel::SemaStorage(root) => root.validation(),
            _ => Ok(()),
        }
    }

    /// The name table of the payload; a Nomos package carries none.
    pub open spec fn names(self) -> Seq<u8> {
        match self {
            PayloadModel::TypeSchema { names, .. } => names,
            PayloadModel::SignalContract(root) => root.names,
            PayloadModel::NexusRuntime(root) => root.names,
            PayloadModel::SemaStorage(root) => root.names,
            PayloadModel::Nomos(_) => Seq::empty(),
            PayloadModel::Logos { names, .. } => names,
        }
    }

    /// The same payload with its name table replaced by `names`; a Nomos
    /// package, which carries no name table, is unchanged.
    pub open spec fn with_names(self, names: Seq<u8>) -> PayloadModel {
        match self {
            PayloadModel::TypeSchema { schema, .. } => PayloadModel::TypeSchema { schema, names },
            PayloadModel::SignalContract(root) => PayloadModel::SignalContract(
                root.with_names(names),
            ),
            PayloadModel::NexusRuntime(root) => PayloadModel::NexusRuntime(root.with_names(names)),
            PayloadModel::SemaStorage(root) => PayloadModel::SemaStorage(root.with_names(names)),
            PayloadModel::Nomos(package) => PayloadModel::Nomos(package),
            PayloadModel::Logos { items, .. } => PayloadModel::Logos { items, names },
        }
    }

    /// The content identity of the payload: the payload with an empty name
    /// table. Names are projection data and no part of the identity.
    pub open spec fn identity(self) -> PayloadModel {
        self.with_names(Seq::empty())
    }
}

/// What `blake3::hash` returns for the given input bytes.
pub uninterp spec fn blake3_digest(input: Seq<u8>) -> Seq<u8>;

/// Calls `blake3::hash` on `input` and returns the 32 bytes of the digest.
/// Trusted: the digest is whatever BLAKE3 computes for exactly these bytes,
/// named by [`blake3_digest`]; nothing more of its value is stated.
#[verifier::external_body]
fn blake3_hash(input: &[u8]) -> (digest: [u8; 32])
    ensures
        digest@ == blake3_digest(input@),
{
    *blake3::hash(input).as_bytes()
}

impl ContentHash {
    /// The content hash of a payload identity from its encoding: the
    /// BLAKE3 digest of the encoded bytes.
    pub fn of_encoding(encoded: &[u8]) -> (hash: ContentHash)
        ensures
            hash.0@ == blake3_digest(encoded@),
    {
        ContentHash(blake3_hash(encoded))
    }
}

impl DocumentPayload {
    /// The kind of document that the payload is.
    pub fn kind(&self) -> (kind: DocumentKind)
        ensures
            kind == self@.kind(),
    {
        match self {
            DocumentPayload::TypeSchema { .. } => DocumentKind::TypeSchema,
            DocumentPayload::SignalContract(_) => DocumentKind::SignalContract,
            DocumentPayload::NexusRuntime(_) => DocumentKind::NexusRuntime,
            DocumentPayload::SemaStorage(_) => DocumentKind::SemaStorage,
            DocumentPayload::Nomos(_) => DocumentKind::Nomos,
            DocumentPayload::Logos { .. } => DocumentKind::Logos,
        }
    }

    /// Validates the payload's root against the laws of its kind; type
    /// schemas, Nomos packages and logos documents have no root laws here.
    pub fn validate(&self) -> (outcome: Result<(), RootViolation>)
        ensures
            outcome == self@.validation(),
    {
        match self {
            DocumentPayload::SignalContract(root) => root.validate(),
            DocumentPayload::NexusRuntime(root) => root.validate(),
            DocumentPayload::SemaStorage(root) => root.validate(),
            DocumentPayload::TypeSchema { .. } | DocumentPayload::Nomos(_)
            | DocumentPayload::Logos { .. } => Ok(()),
        }
    }

    /// The content identity of the payload: the payload itself with every
    /// name table emptied. Its encoding is what a content hash digests.
    pub fn into_identity(self) -> (identity: DocumentPayload)
        ensures
            identity@ == self@.identity(),
    {
        match self {
            DocumentPayload::TypeSchema { schema, .. } => DocumentPayload::TypeSchema {
                schema,
                names: NameTableBytes(Vec::new()),
            },
            DocumentPayload::SignalContract(root) => DocumentPayload::SignalContract(
                SignalContractRoot { names: NameTableBytes(Vec::new()), ..root },
            ),
            DocumentPayload::NexusRuntime(root) => DocumentPayload::NexusRuntime(
                NexusRuntimeRoot { names: NameTableBytes(Vec::new()), ..root },
            ),
            DocumentPayload::SemaStorage(root) => DocumentPayload::SemaStorage(
                SemaStorageRoot { names: NameTableBytes(Vec::new()), ..root },
            ),
            DocumentPayload::Nomos(package) => DocumentPayload::Nomos(package),
            DocumentPayload::Logos { items, .. } => DocumentPayload::Logos {
                items,
                names: NameTableBytes(Vec::new()),
            },
        }
    }
}

} // verus!
