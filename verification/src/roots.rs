//! Document roots and their structural laws.
//!
//! Each root is checked by `validate`, whose outcome is the first violated
//! law in a fixed order, or `Ok(())` when the root obeys all of them.
use std::collections::BTreeSet;
use vstd::prelude::*;

use crate::ids::{Identifier, NameTableBytes};

verus! {

/// A stream that a signal contract declares.
#[derive(Clone, Copy, Debug, PartialEq, Eq, Structural)]
pub struct StreamDeclaration {
    pub stream: Identifier,
}

/// An operation that opens a declared stream.
#[derive(Clone, Copy, Debug, PartialEq, Eq, Structural)]
pub struct OpensRelation {
    pub operation: Identifier,
    pub stream: Identifier,
}

/// A declared stream that belongs to the contract.
#[derive(Clone, Copy, Debug, PartialEq, Eq, Structural)]
pub struct BelongsRelation {
    pub stream: Identifier,
    pub contract: Identifier,
}

/// The root of a signal-contract document.
#[derive(Clone, Debug, PartialEq, Eq)]
pub struct SignalContractRoot {
    pub contract: Identifier,
    pub streams: Vec<StreamDeclaration>,
    pub opens: Vec<OpensRelation>,
    pub belongs: Vec<BelongsRelation>,
    pub names: NameTableBytes,
}

/// An actor that a nexus runtime declares.
#[derive(Clone, Copy, Debug, PartialEq, Eq, Structural)]
pub struct NexusActorDeclaration {
    pub actor: Identifier,
}

/// A route from one actor to another.
#[derive(Clone, Copy, Debug, PartialEq, Eq, Structural)]
pub struct NexusRoute {
    pub sender: Identifier,
    pub receiver: Identifier,
}

/// The root of a nexus-runtime document.
#[derive(Clone, Debug, PartialEq, Eq)]
pub struct NexusRuntimeRoot {
    pub actors: Vec<NexusActorDeclaration>,
    pub routes: Vec<NexusRoute>,
    pub names: NameTableBytes,
}

/// A storage family with the version of its layout.
#[derive(Clone, Copy, Debug, PartialEq, Eq, Structural)]
pub struct FamilyDeclaration {
    pub family: Identifier,
    pub layout_version: u32,
}

/// The root of a sema-storage document.
#[derive(Clone, Debug, PartialEq, Eq)]
pub struct SemaStorageRoot {
    pub families: Vec<FamilyDeclaration>,
    pub names: NameTableBytes,
}

/// The law of a document root that a root breaks.
#[derive(Clone, Copy, Debug, PartialEq, Eq, Structural)]
pub enum RootViolation {
    DuplicateStream,
    UnknownOpenedStream,
    InvalidBelongsRelation,
    DuplicateActor,
    UnknownRouteActor,
    DuplicateFamily,
    ZeroLayoutVersion,
}

/// The mathematical value of a [`SignalContractRoot`].
pub struct SignalContractModel {
    pub contract: Identifier,
    pub streams: Seq<StreamDeclaration>,
    pub opens: Seq<OpensRelation>,
    pub belongs: Seq<BelongsRelation>,
    pub names: Seq<u8>,
}

/// The mathematical value of a [`NexusRuntimeRoot`].
pub struct NexusRuntimeModel {
    pub actors: Seq<NexusActorDeclaration>,
    pub routes: Seq<NexusRoute>,
    pub names: Seq<u8>,
}

/// The mathematical value of a [`SemaStorageRoot`].
pub struct SemaStorageModel {
    pub families: Seq<FamilyDeclaration>,
    pub names: Seq<u8>,
}

impl View for SignalContractRoot {
    type V = SignalContractModel;

    open spec fn view(&self) -> SignalContractModel {
        SignalContractModel {
            contract: self.contract,
            streams: self.streams@,
            opens: self.opens@,
            belongs: self.belongs@,
            names: self.names@,
        }
    }
}

impl View for NexusRuntimeRoot {
    type V = NexusRuntimeModel;

    open spec fn view(&self) -> NexusRuntimeModel {
        NexusRuntimeModel { actors: self.actors@, routes: self.routes@, names: self.names@ }
    }
}

impl View for SemaStorageRoot {
    type V = SemaStorageModel;

    open spec fn view(&self) -> SemaStorageModel {
        SemaStorageModel { families: self.families@, names: self.names@ }
    }
}

impl SignalContractModel {
    /// The declared streams, in declaration order.
    pub open spec fn stream_ids(self) -> Seq<Identifier> {
        self.streams.map_values(|d: StreamDeclaration| d.stream)
    }

    /// Whether `stream` is among the declared streams.
    pub open spec fn declares(self, stream: Identifier) -> bool {
        self.stream_ids().contains(stream)
    }

    /// Every opened stream is declared.
    pub open spec fn opens_resolve(self) -> bool {
        forall|i: int| 0 <= i < self.opens.len() ==> self.declares(#[trigger] self.opens[i].stream)
    }

    /// Every belongs relation names a declared stream and this contract.
    pub open spec fn belongs_resolve(self) -> bool {
        forall|i: int|
            0 <= i < self.belongs.len() ==> self.declares(#[trigger] self.belongs[i].stream)
                && self.belongs[i].contract == self.contract
    }

    /// The root obeys every law of a signal contract.
    pub open spec fn well_formed(self) -> bool {
        &&& self.stream_ids().no_duplicates()
        &&& self.opens_resolve()
        &&& self.belongs_resolve()
    }

    /// The outcome of validation: the first law broken, in the order
    /// duplicate streams, unknown opened streams, invalid belongs relations.
    pub open spec fn validation(self) -> Result<(), RootViolation> {
        if !self.stream_ids().no_duplicates() {
            Err(RootViolation::DuplicateStream)
        } else if !self.opens_resolve() {
            Err(RootViolation::UnknownOpenedStream)
        } else if !self.belongs_resolve() {
            Err(RootViolation::InvalidBelongsRelation)
        } else {
            Ok(())
        }
    }

    /// The same root with its name table replaced by `names`.
    pub open spec fn with_names(self, names: Seq<u8>) -> SignalContractModel {
        SignalContractModel { names, ..self }
    }
}

impl NexusRuntimeModel {
    /// The declared actors, in declaration order.
    pub open spec fn actor_ids(self) -> Seq<Identifier> {
        self.actors.map_values(|d: NexusActorDeclaration| d.actor)
    }

    /// Whether `actor` is among the declared actors.
    pub open spec fn declares(self, actor: Identifier) -> bool {
        self.actor_ids().contains(actor)
    }

    /// Every route runs between declared actors.
    pub open spec fn routes_resolve(self) -> bool {
        forall|i: int|
            0 <= i < self.routes.len() ==> self.declares(#[trigger] self.routes[i].sender)
                && self.declares(self.routes[i].receiver)
    }

    /// The root obeys every law of a nexus runtime.
    pub open spec fn well_formed(self) -> bool {
        &&& self.actor_ids().no_duplicates()
        &&& self.routes_resolve()
    }

    /// The outcome of validation: the first law broken, in the order
    /// duplicate actors, routes to unknown actors.
    pub open spec fn validation(self) -> Result<(), RootViolation> {
        if !self.actor_ids().no_duplicates() {
            Err(RootViolation::DuplicateActor)
        } else if !self.routes_resolve() {
            Err(RootViolation::UnknownRouteActor)
        } else {
            Ok(())
        }
    }

    /// The same root with its name table replaced by `names`.
    pub open spec fn with_names(self, names: Seq<u8>) -> NexusRuntimeModel {
        NexusRuntimeModel { names, ..self }
    }
}

impl SemaStorageModel {
    /// The declared families, in declaration order.
    pub open spec fn family_ids(self) -> Seq<Identifier> {
        self.families.map_values(|d: FamilyDeclaration| d.family)
    }

    /// Every family has a layout version above zero.
    pub open spec fn layouts_versioned(self) -> bool {
        forall|i: int| 0 <= i < self.families.len() ==> #[trigger] self.families[i].layout_version != 0
    }

    /// The root obeys every law of a sema storage root.
    pub open spec fn well_formed(self) -> bool {
        &&& self.family_ids().no_duplicates()
        &&& self.layouts_versioned()
    }

    /// The outcome of validation: the first law broken, in the order
    /// duplicate families, zero layout versions.
    pub open spec fn validation(self) -> Result<(), RootViolation> {
        if !self.family_ids().no_duplicates() {
            Err(RootViolation::DuplicateFamily)
        } else if !self.layouts_versioned() {
            Err(RootViolation::ZeroLayoutVersion)
        } else {
            Ok(())
        }
    }

    /// The same root with its name table replaced by `names`.
    pub open spec fn with_names(self, names: Seq<u8>) -> SemaStorageModel {
        SemaStorageModel { names, ..self }
    }
}

/// A set of raw identifier indices that holds exactly the indices of `ids`
/// has as many members as `ids` has entries iff no identifier repeats.
proof fn lemma_index_set_len(ids: Seq<Identifier>, set: Set<u64>)
    requires
        forall|k: u64|
            set.contains(k) <==> exists|j: int| 0 <= j < ids.len() && #[trigger] ids[j].0 == k,
    ensures
        set.finite(),
        set.len() == ids.len() <==> ids.no_duplicates(),
{
    let raw = ids.map_values(|x: Identifier| x.0);
    assert(set =~= raw.to_set()) by {
        assert forall|k: u64| set.contains(k) implies raw.to_set().contains(k) by {
            let j = choose|j: int| 0 <= j < ids.len() && #[trigger] ids[j].0 == k;
            assert(raw[j] == k);
        }
        assert forall|k: u64| raw.to_set().contains(k) implies set.contains(k) by {
            assert(raw.contains(k));
            let j = choose|j: int| 0 <= j < raw.len() && raw[j] == k;
            assert(ids[j].0 == k);
        }
    }
    assert(raw.no_duplicates() <==> ids.no_duplicates()) by {
        if raw.no_duplicates() {
            assert forall|i: int, j: int|
                0 <= i < ids.len() && 0 <= j < ids.len() && i != j implies ids[i] != ids[j] by {
                assert(raw[i] != raw[j]);
            }
        }
        if ids.no_duplicates() {
            assert forall|i: int, j: int|
                0 <= i < raw.len() && 0 <= j < raw.len() && i != j implies raw[i] != raw[j] by {
                assert(ids[i] != ids[j]);
            }
        }
    }
    raw.lemma_cardinality_of_set();
    if raw.no_duplicates() {
        raw.unique_seq_to_set();
    }
    if set.len() == raw.len() {
        raw.lemma_no_dup_set_cardinality();
    }
}

impl SignalContractRoot {
    /// Checks the laws of a signal contract: streams are declared once,
    /// every opened stream is declared, and every belongs relation names a
    /// declared stream and this contract.
    pub fn validate(&self) -> (outcome: Result<(), RootViolation>)
        ensures
            outcome == self@.validation(),
            outcome is Ok <==> self@.well_formed(),
    {
        let ghost ids = self@.stream_ids();
        let mut streams: BTreeSet<u64> = BTreeSet::new();
        let mut i: usize = 0;
        while i < self.streams.len()
            invariant
                i <= self.streams.len(),
                ids == self@.stream_ids(),
                forall|k: u64|
                    streams@.contains(k) <==> exists|j: int| 0 <= j < i && #[trigger] ids[j].0 == k,
            decreases self.streams.len() - i,
        {
            streams.insert(self.streams[i].stream.0);
            assert(ids[i as int] == self.streams@[i as int].stream);
            i += 1;
        }
        proof {
            lemma_index_set_len(ids, streams@);
        }
        if streams.len() != self.streams.len() {
            return Err(RootViolation::DuplicateStream);
        }
        let mut i: usize = 0;
        while i < self.opens.len()
            invariant
                i <= self.opens.len(),
                ids == self@.stream_ids(),
                forall|k: u64|
                    streams@.contains(k) <==> exists|j: int| 0 <= j < ids.len() && #[trigger] ids[j].0 == k,
                ids.no_duplicates(),
                forall|j: int| 0 <= j < i ==> self@.declares(#[trigger] self.opens@[j].stream),
            decreases self.opens.len() - i,
        {
            let stream = self.opens[i].stream;
            if !streams.contains(&stream.0) {
                assert(!self@.declares(self@.opens[i as int].stream));
                return Err(RootViolation::UnknownOpenedStream);
            }
            i += 1;
        }
        let mut i: usize = 0;
        while i < self.belongs.len()
            invariant
                i <= self.belongs.len(),
                ids == self@.stream_ids(),
                forall|k: u64|
                    streams@.contains(k) <==> exists|j: int| 0 <= j < ids.len() && #[trigger] ids[j].0 == k,
                ids.no_duplicates(),
                self@.opens_resolve(),
                forall|j: int|
                    0 <= j < i ==> self@.declares(#[trigger] self.belongs@[j].stream)
                        && self.belongs@[j].contract == self.contract,
            decreases self.belongs.len() - i,
        {
            let relation = self.belongs[i];
            if !streams.contains(&relation.stream.0) || relation.contract != self.contract {
                assert(!(self@.declares(self@.belongs[i as int].stream)
                    && self@.belongs[i as int].contract == self@.contract));
                return Err(RootViolation::InvalidBelongsRelation);
            }
            proof {
                let j = choose|j: int| 0 <= j < ids.len() && #[trigger] ids[j].0 == relation.stream.0;
                assert(ids[j] == relation.stream);
            }
            i += 1;
        }
        Ok(())
    }
}

impl NexusRuntimeRoot {
    /// Checks the laws of a nexus runtime: actors are declared once, and
    /// every route runs between declared actors.
    pub fn validate(&self) -> (outcome: Result<(), RootViolation>)
        ensures
            outcome == self@.validation(),
            outcome is Ok <==> self@.well_formed(),
    {
        let ghost ids = self@.actor_ids();
        let mut actors: BTreeSet<u64> = BTreeSet::new();
        let mut i: usize = 0;
        while i < self.actors.len()
            invariant
                i <= self.actors.len(),
                ids == self@.actor_ids(),
                forall|k: u64|
                    actors@.contains(k) <==> exists|j: int| 0 <= j < i && #[trigger] ids[j].0 == k,
            decreases self.actors.len() - i,
        {
            actors.insert(self.actors[i].actor.0);
            assert(ids[i as int] == self.actors@[i as int].actor);
            i += 1;
        }
        proof {
            lemma_index_set_len(ids, actors@);
        }
        if actors.len() != self.actors.len() {
            return Err(RootViolation::DuplicateActor);
        }
        let mut i: usize = 0;
        while i < self.routes.len()
            invariant
                i <= self.routes.len(),
                ids == self@.actor_ids(),
                forall|k: u64|
                    actors@.contains(k) <==> exists|j: int| 0 <= j < ids.len() && #[trigger] ids[j].0 == k,
                ids.no_duplicates(),
                forall|j: int|
                    0 <= j < i ==> self@.declares(#[trigger] self.routes@[j].sender)
                        && self@.declares(self.routes@[j].receiver),
            decreases self.routes.len() - i,
        {
            let route = self.routes[i];
            if !actors.contains(&route.sender.0) || !actors.contains(&route.receiver.0) {
                assert(!(self@.declares(self@.routes[i as int].sender)
                    && self@.declares(self@.routes[i as int].receiver)));
                return Err(RootViolation::UnknownRouteActor);
            }
            proof {
                let j = choose|j: int| 0 <= j < ids.len() && #[trigger] ids[j].0 == route.sender.0;
                assert(ids[j] == route.sender);
                let l = choose|l: int| 0 <= l < ids.len() && #[trigger] ids[l].0 == route.receiver.0;
                assert(ids[l] == route.receiver);
                assert forall|j: int| 0 <= j < i + 1 implies self@.declares(
                    #[trigger] self.routes@[j].sender,
                ) && self@.declares(self.routes@[j].receiver) by {
                    if j == i {
                    }
                }
            }
            i += 1;
        }
        Ok(())
    }
}

impl SemaStorageRoot {
    /// Checks the laws of a sema storage root: families are declared once,
    /// and every family has a layout version above zero.
    pub fn validate(&self) -> (outcome: Result<(), RootViolation>)
        ensures
            outcome == self@.validation(),
            outcome is Ok <==> self@.well_formed(),
    {
        let ghost ids = self@.family_ids();
        let mut families: BTreeSet<u64> = BTreeSet::new();
        let mut i: usize = 0;
        while i < self.families.len()
            invariant
                i <= self.families.len(),
                ids == self@.family_ids(),
                forall|k: u64|
                    families@.contains(k) <==> exists|j: int| 0 <= j < i && #[trigger] ids[j].0 == k,
            decreases self.families.len() - i,
        {
            families.insert(self.families[i].family.0);
            assert(ids[i as int] == self.families@[i as int].family);
            i += 1;
        }
        proof {
            lemma_index_set_len(ids, families@);
        }
        if families.len() != self.families.len() {
            return Err(RootViolation::DuplicateFamily);
        }
        let mut i: usize = 0;
        while i < self.families.len()
            invariant
                i <= self.families.len(),
                self@.family_ids().no_duplicates(),
                forall|j: int| 0 <= j < i ==> #[trigger] self.families@[j].layout_version != 0,
            decreases self.families.len() - i,
        {
            if self.families[i].layout_version == 0 {
                assert(self@.families[i as int].layout_version == 0);
                return Err(RootViolation::ZeroLayoutVersion);
            }
            i += 1;
        }
        Ok(())
    }
}

} // verus!
