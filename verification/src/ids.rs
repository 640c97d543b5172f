//! Scalar identifiers, keys and small value types shared by every message.
use vstd::prelude::*;

verus! {

/// Version of the wire encoding that this contract speaks.
pub const WIRE_VERSION: u16 = 2;

/// A name-table identifier: the index under which a name is interned.
/// Equality and order are those of the index.
#[derive(Clone, Copy, Debug, PartialEq, Eq, Structural, PartialOrd, Ord, Hash)]
pub struct Identifier(pub u64);

impl Identifier {
    /// The identifier with the given index.
    pub fn new(index: u64) -> (id: Identifier)
        ensures
            id.0 == index,
    {
        Identifier(index)
    }
}

/// The fixture scope that every key and allocation request names explicitly.
#[derive(Clone, Copy, Debug, PartialEq, Eq, Structural, PartialOrd, Ord, Hash)]
pub struct FixtureScope(pub u64);

/// A slot within a scope and document kind.
#[derive(Clone, Copy, Debug, PartialEq, Eq, Structural, PartialOrd, Ord, Hash)]
pub struct SlotIdentifier(pub u64);

/// The version of a stored document.
#[derive(Clone, Copy, Debug, PartialEq, Eq, Structural, PartialOrd, Ord, Hash)]
pub struct Version(pub u64);

/// A snapshot number of a scope.
#[derive(Clone, Copy, Debug, PartialEq, Eq, Structural, PartialOrd, Ord, Hash)]
pub struct Snapshot(pub u64);

/// The 32-byte content hash of a document payload's identity.
#[derive(Clone, Copy, Debug, PartialEq, Eq, PartialOrd, Ord, Hash)]
pub struct ContentHash(pub [u8; 32]);

/// The identifier of a push subscription.
#[derive(Clone, Copy, Debug, PartialEq, Eq, Structural, PartialOrd, Ord, Hash)]
pub struct SubscriptionIdentifier(pub u64);

/// A block of `length` consecutive identifiers starting at `first`.
#[derive(Clone, Copy, Debug, PartialEq, Eq, Structural)]
pub struct IdentifierBlock {
    pub first: u32,
    pub length: u32,
}

/// The kinds of document that the daemon stores.
#[derive(Clone, Copy, Debug, PartialEq, Eq, Structural, PartialOrd, Ord, Hash)]
pub enum DocumentKind {
    TypeSchema,
    SignalContract,
    NexusRuntime,
    SemaStorage,
    Nomos,
    Logos,
}

/// The key of a document slot: scope, kind and slot.
#[derive(Clone, Copy, Debug, PartialEq, Eq, Structural)]
pub struct DocumentKey {
    pub scope: FixtureScope,
    pub kind: DocumentKind,
    pub slot: SlotIdentifier,
}

/// The encoded name table of a document: projection data that renders
/// identifiers as names, and no part of the document's identity.
#[derive(Clone, Debug, PartialEq, Eq)]
pub struct NameTableBytes(pub Vec<u8>);

impl View for NameTableBytes {
    type V = Seq<u8>;

    open spec fn view(&self) -> Seq<u8> {
        self.0@
    }
}

} // verus!
