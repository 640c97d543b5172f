//! What validation, kind and name tables are, stated over the concrete
//! fields of the roots and payloads: which violation a root reports for each
//! shape of input, which kind each variant of payload has, and which bytes
//! form a payload's name table.
use vstd::prelude::*;

use crate::ids::{DocumentKind, Identifier};
use crate::payload::{DocumentPayload, PayloadModel};
use crate::roots::{
    NexusActorDeclaration, NexusRuntimeModel, NexusRuntimeRoot, RootViolation, SemaStorageModel,
    SemaStorageRoot, SignalContractModel, SignalContractRoot, StreamDeclaration,
};

verus! {

/// The outcome of validating a signal contract, by the shape of the root:
/// - a stream declared twice is reported as `DuplicateStream`;
/// - otherwise an opens relation naming an undeclared stream is reported as
///   `UnknownOpenedStream`;
/// - otherwise a belongs relation naming an undeclared stream or another
///   contract is reported as `InvalidBelongsRelation`;
/// - the root validates `Ok` exactly when none of these occurs.
pub proof fn lemma_signal_contract_outcomes(root: SignalContractRoot)
    ensures
        (exists|i: int, j: int|
            0 <= i < j < root.streams@.len() && root.streams@[i].stream
                == root.streams@[j].stream) ==> root@.validation()
            == Err::<(), RootViolation>(RootViolation::DuplicateStream),
        (forall|i: int, j: int|
            0 <= i < j < root.streams@.len() ==> root.streams@[i].stream
                != root.streams@[j].stream) && (exists|i: int|
            0 <= i < root.opens@.len() && !root.streams@.contains(
                StreamDeclaration { stream: #[trigger] root.opens@[i].stream },
            )) ==> root@.validation() == Err::<(), RootViolation>(
            RootViolation::UnknownOpenedStream,
        ),
        (forall|i: int, j: int|
            0 <= i < j < root.streams@.len() ==> root.streams@[i].stream
                != root.streams@[j].stream) && (forall|i: int|
            0 <= i < root.opens@.len() ==> root.streams@.contains(
                StreamDeclaration { stream: #[trigger] root.opens@[i].stream },
            )) && (exists|i: int|
            #![trigger root.belongs@[i]]
            0 <= i < root.belongs@.len() && (root.belongs@[i].contract != root.contract
                || !root.streams@.contains(
                StreamDeclaration { stream: root.belongs@[i].stream },
            ))) ==> root@.validation() == Err::<(), RootViolation>(
            RootViolation::InvalidBelongsRelation,
        ),
        root@.validation() is Ok <==> {
            &&& forall|i: int, j: int|
                0 <= i < j < root.streams@.len() ==> root.streams@[i].stream
                    != root.streams@[j].stream
            &&& forall|i: int|
                0 <= i < root.opens@.len() ==> root.streams@.contains(
                    StreamDeclaration { stream: #[trigger] root.opens@[i].stream },
                )
            &&& forall|i: int|
                #![trigger root.belongs@[i]]
                0 <= i < root.belongs@.len() ==> root.belongs@[i].contract == root.contract
                    && root.streams@.contains(
                    StreamDeclaration { stream: root.belongs@[i].stream },
                )
        },
{
    let model = root@;
    let ids = model.stream_ids();
    assert forall|i: int| 0 <= i < ids.len() implies ids[i] == #[trigger] root.streams@[i].stream by {
    }
    assert(ids.no_duplicates() <==> forall|i: int, j: int|
        0 <= i < j < root.streams@.len() ==> root.streams@[i].stream != root.streams@[j].stream)
        by {
        if !ids.no_duplicates() {
            let (i, j) = choose|i: int, j: int|
                0 <= i < ids.len() && 0 <= j < ids.len() && i != j && ids[i] == ids[j];
            if i < j {
                assert(root.streams@[i].stream == root.streams@[j].stream);
            } else {
                assert(root.streams@[j].stream == root.streams@[i].stream);
            }
        }
    }
    assert forall|s: Identifier|
        model.declares(s) <==> #[trigger] root.streams@.contains(StreamDeclaration { stream: s })
        by {
        if model.declares(s) {
            let j = choose|j: int| 0 <= j < ids.len() && ids[j] == s;
            assert(root.streams@[j] == StreamDeclaration { stream: s });
        }
        if root.streams@.contains(StreamDeclaration { stream: s }) {
            let j = choose|j: int|
                0 <= j < root.streams@.len() && root.streams@[j] == StreamDeclaration { stream: s };
            assert(ids[j] == s);
        }
    }
    assert(model.opens_resolve() <==> forall|i: int|
        0 <= i < root.opens@.len() ==> root.streams@.contains(
            StreamDeclaration { stream: #[trigger] root.opens@[i].stream },
        )) by {
        if model.opens_resolve() {
            assert forall|i: int| 0 <= i < root.opens@.len() implies root.streams@.contains(
                StreamDeclaration { stream: #[trigger] root.opens@[i].stream },
            ) by {
                assert(model.declares(model.opens[i].stream));
            }
        }
        if !model.opens_resolve() {
            let i = choose|i: int|
                0 <= i < model.opens.len() && !model.declares(#[trigger] model.opens[i].stream);
            assert(!root.streams@.contains(StreamDeclaration { stream: root.opens@[i].stream }));
        }
    }
    assert(model.belongs_resolve() <==> forall|i: int|
        #![trigger root.belongs@[i]]
        0 <= i < root.belongs@.len() ==> root.belongs@[i].contract == root.contract
            && root.streams@.contains(
            StreamDeclaration { stream: root.belongs@[i].stream },
        )) by {
        if model.belongs_resolve() {
            assert forall|i: int| #![trigger root.belongs@[i]] 0 <= i < root.belongs@.len() implies (root.belongs@[i].contract
                == root.contract && root.streams@.contains(
                StreamDeclaration { stream: root.belongs@[i].stream },
            )) by {
                assert(model.declares(model.belongs[i].stream));
            }
        }
        if !model.belongs_resolve() {
            assert(exists|i: int|
                0 <= i < model.belongs.len() && !(model.declares(
                    #[trigger] model.belongs[i].stream,
                ) && model.belongs[i].contract == model.contract));
            let i = choose|i: int|
                0 <= i < model.belongs.len() && !(model.declares(
                    #[trigger] model.belongs[i].stream,
                ) && model.belongs[i].contract == model.contract);
            assert(model.declares(root.belongs@[i].stream) <==> root.streams@.contains(
                StreamDeclaration { stream: root.belongs@[i].stream },
            ));
            assert(!(root.belongs@[i].contract == root.contract && root.streams@.contains(
                StreamDeclaration { stream: root.belongs@[i].stream },
            )));
        }
    }
}

/// The outcome of validating a nexus runtime, by the shape of the root:
/// - an actor declared twice is reported as `DuplicateActor`;
/// - otherwise a route whose sender or receiver is not declared is reported
///   as `UnknownRouteActor`;
/// - the root validates `Ok` exactly when neither occurs.
pub proof fn lemma_nexus_runtime_outcomes(root: NexusRuntimeRoot)
    ensures
        (exists|i: int, j: int|
            0 <= i < j < root.actors@.len() && root.actors@[i].actor == root.actors@[j].actor)
            ==> root@.validation() == Err::<(), RootViolation>(RootViolation::DuplicateActor),
        (forall|i: int, j: int|
            0 <= i < j < root.actors@.len() ==> root.actors@[i].actor != root.actors@[j].actor)
            && (exists|i: int|
            #![trigger root.routes@[i]]
            0 <= i < root.routes@.len() && (!root.actors@.contains(
                NexusActorDeclaration { actor: root.routes@[i].sender },
            ) || !root.actors@.contains(
                NexusActorDeclaration { actor: root.routes@[i].receiver },
            ))) ==> root@.validation() == Err::<(), RootViolation>(
            RootViolation::UnknownRouteActor,
        ),
        root@.validation() is Ok <==> {
            &&& forall|i: int, j: int|
                0 <= i < j < root.actors@.len() ==> root.actors@[i].actor
                    != root.actors@[j].actor
            &&& forall|i: int|
                #![trigger root.routes@[i]]
                0 <= i < root.routes@.len() ==> root.actors@.contains(
                    NexusActorDeclaration { actor: root.routes@[i].sender },
                ) && root.actors@.contains(
                    NexusActorDeclaration { actor: root.routes@[i].receiver },
                )
        },
{
    let model = root@;
    let ids = model.actor_ids();
    assert forall|i: int| 0 <= i < ids.len() implies ids[i] == #[trigger] root.actors@[i].actor by {
    }
    assert(ids.no_duplicates() <==> forall|i: int, j: int|
        0 <= i < j < root.actors@.len() ==> root.actors@[i].actor != root.actors@[j].actor) by {
        if !ids.no_duplicates() {
            let (i, j) = choose|i: int, j: int|
                0 <= i < ids.len() && 0 <= j < ids.len() && i != j && ids[i] == ids[j];
            if i < j {
                assert(root.actors@[i].actor == root.actors@[j].actor);
            } else {
                assert(root.actors@[j].actor == root.actors@[i].actor);
            }
        }
    }
    assert forall|a: Identifier|
        model.declares(a) <==> #[trigger] root.actors@.contains(NexusActorDeclaration { actor: a })
        by {
        if model.declares(a) {
            let j = choose|j: int| 0 <= j < ids.len() && ids[j] == a;
            assert(root.actors@[j] == NexusActorDeclaration { actor: a });
        }
        if root.actors@.contains(NexusActorDeclaration { actor: a }) {
            let j = choose|j: int|
                0 <= j < root.actors@.len() && root.actors@[j] == NexusActorDeclaration { actor: a };
            assert(ids[j] == a);
        }
    }
    assert(model.routes_resolve() <==> forall|i: int|
        #![trigger root.routes@[i]]
        0 <= i < root.routes@.len() ==> root.actors@.contains(
            NexusActorDeclaration { actor: root.routes@[i].sender },
        ) && root.actors@.contains(NexusActorDeclaration { actor: root.routes@[i].receiver }))
        by {
        if model.routes_resolve() {
            assert forall|i: int|
                #![trigger root.routes@[i]]
                0 <= i < root.routes@.len() implies (root.actors@.contains(
                    NexusActorDeclaration { actor: root.routes@[i].sender },
                ) && root.actors@.contains(
                    NexusActorDeclaration { actor: root.routes@[i].receiver },
                )) by {
                assert(model.declares(model.routes[i].sender));
                assert(model.declares(model.routes[i].receiver));
            }
        }
        if !model.routes_resolve() {
            let i = choose|i: int|
                0 <= i < model.routes.len() && !(model.declares(
                    #[trigger] model.routes[i].sender,
                ) && model.declares(model.routes[i].receiver));
            assert(model.declares(root.routes@[i].sender) <==> root.actors@.contains(
                NexusActorDeclaration { actor: root.routes@[i].sender },
            ));
            assert(model.declares(root.routes@[i].receiver) <==> root.actors@.contains(
                NexusActorDeclaration { actor: root.routes@[i].receiver },
            ));
        }
    }
}

/// The outcome of validating a sema storage root, by the shape of the root:
/// - a family declared twice is reported as `DuplicateFamily`;
/// - otherwise a family with layout version zero is reported as
///   `ZeroLayoutVersion`;
/// - the root validates `Ok` exactly when neither occurs.
pub proof fn lemma_sema_storage_outcomes(root: SemaStorageRoot)
    ensures
        (exists|i: int, j: int|
            0 <= i < j < root.families@.len() && root.families@[i].family
                == root.families@[j].family) ==> root@.validation() == Err::<(), RootViolation>(
            RootViolation::DuplicateFamily,
        ),
        (forall|i: int, j: int|
            0 <= i < j < root.families@.len() ==> root.families@[i].family
                != root.families@[j].family) && (exists|i: int|
            0 <= i < root.families@.len() && #[trigger] root.families@[i].layout_version == 0)
            ==> root@.validation() == Err::<(), RootViolation>(RootViolation::ZeroLayoutVersion),
        root@.validation() is Ok <==> {
            &&& forall|i: int, j: int|
                0 <= i < j < root.families@.len() ==> root.families@[i].family
                    != root.families@[j].family
            &&& forall|i: int|
                0 <= i < root.families@.len() ==> #[trigger] root.families@[i].layout_version != 0
        },
{
    let model = root@;
    let ids = model.family_ids();
    assert forall|i: int| 0 <= i < ids.len() implies ids[i] == #[trigger] root.families@[i].family by {
    }
    assert(ids.no_duplicates() <==> forall|i: int, j: int|
        0 <= i < j < root.families@.len() ==> root.families@[i].family != root.families@[j].family)
        by {
        if !ids.no_duplicates() {
            let (i, j) = choose|i: int, j: int|
                0 <= i < ids.len() && 0 <= j < ids.len() && i != j && ids[i] == ids[j];
            if i < j {
                assert(root.families@[i].family == root.families@[j].family);
            } else {
                assert(root.families@[j].family == root.families@[i].family);
            }
        }
    }
}

/// Validating a payload validates its root: a signal-contract, nexus-runtime
/// or sema-storage payload validates exactly as its root does, and a type
/// schema, Nomos package or logos document always validates `Ok`.
pub proof fn lemma_payload_validation_is_root_validation(payload: DocumentPayload)
    ensures
        payload matches DocumentPayload::SignalContract(root) ==> payload@.validation()
            == root@.validation(),
        payload matches DocumentPayload::NexusRuntime(root) ==> payload@.validation()
            == root@.validation(),
        payload matches DocumentPayload::SemaStorage(root) ==> payload@.validation()
            == root@.validation(),
        payload is TypeSchema ==> payload@.validation() is Ok,
        payload is Nomos ==> payload@.validation() is Ok,
        payload is Logos ==> payload@.validation() is Ok,
{
}

/// The kind of a payload is fixed by its variant alone, whatever it holds.
pub proof fn lemma_payload_kind_is_its_variant(payload: DocumentPayload)
    ensures
        payload is TypeSchema ==> payload@.kind() == DocumentKind::TypeSchema,
        payload is SignalContract ==> payload@.kind() == DocumentKind::SignalContract,
        payload is NexusRuntime ==> payload@.kind() == DocumentKind::NexusRuntime,
        payload is SemaStorage ==> payload@.kind() == DocumentKind::SemaStorage,
        payload is Nomos ==> payload@.kind() == DocumentKind::Nomos,
        payload is Logos ==> payload@.kind() == DocumentKind::Logos,
{
}

/// The name table of a payload is the bytes of its `names` field; a Nomos
/// package has an empty one. Its identity holds every other field unchanged
/// and an empty name table.
pub proof fn lemma_payload_names_and_identity(payload: DocumentPayload)
    ensures
        payload matches DocumentPayload::TypeSchema { schema, names } ==> {
            &&& payload@.names() == names.0@
            &&& payload@.identity() == PayloadModel::TypeSchema {
                schema: schema.0@,
                names: Seq::empty(),
            }
        },
        payload matches DocumentPayload::SignalContract(root) ==> {
            &&& payload@.names() == root.names.0@
            &&& payload@.identity() == PayloadModel::SignalContract(
                SignalContractModel {
                    contract: root.contract,
                    streams: root.streams@,
                    opens: root.opens@,
                    belongs: root.belongs@,
                    names: Seq::empty(),
                },
            )
        },
        payload matches DocumentPayload::NexusRuntime(root) ==> {
            &&& payload@.names() == root.names.0@
            &&& payload@.identity() == PayloadModel::NexusRuntime(
                NexusRuntimeModel {
                    actors: root.actors@,
                    routes: root.routes@,
                    names: Seq::empty(),
                },
            )
        },
        payload matches DocumentPayload::SemaStorage(root) ==> {
            &&& payload@.names() == root.names.0@
            &&& payload@.identity() == PayloadModel::SemaStorage(
                SemaStorageModel { families: root.families@, names: Seq::empty() },
            )
        },
        payload matches DocumentPayload::Nomos(package) ==> {
            &&& payload@.names() == Seq::<u8>::empty()
            &&& payload@.identity() == PayloadModel::Nomos(package)
        },
        payload matches DocumentPayload::Logos { items, names } ==> {
            &&& payload@.names() == names.0@
            &&& payload@.identity() matches PayloadModel::Logos { items: kept, names: emptied }
            &&& emptied == Seq::<u8>::empty()
            &&& kept.len() == items@.len()
            &&& forall|k: int| 0 <= k < kept.len() ==> kept[k] == (#[trigger] items@[k]).0@
        },
{
}

} // verus!
