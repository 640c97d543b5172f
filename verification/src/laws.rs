//! Laws that relate a payload's name table, its content identity, its kind
//! and its validation.
use vstd::prelude::*;

use crate::payload::PayloadModel;
use crate::ids::Identifier;
use crate::roots::{NexusRuntimeModel, SemaStorageModel, SignalContractModel};

verus! {

/// Names are excluded from a payload's identity: replacing the name table
/// of a payload by any other leaves its identity unchanged.
pub proof fn lemma_names_excluded_from_identity(payload: PayloadModel, names: Seq<u8>)
    ensures
        payload.with_names(names).identity() == payload.identity(),
{
}

/// A payload is its identity together with its name table: restoring the
/// names onto the identity gives the payload back. So two payloads with the
/// same name table and the same identity are equal, and every structural
/// edit moves the identity.
pub proof fn lemma_identity_and_names_determine_payload(payload: PayloadModel, other: PayloadModel)
    ensures
        payload.identity().with_names(payload.names()) == payload,
        payload.identity() == other.identity() && payload.names() == other.names() ==> payload
            == other,
{
}

/// The identity of a payload has an empty name table and is its own
/// identity.
pub proof fn lemma_identity_idempotent(payload: PayloadModel)
    ensures
        payload.identity().names() == Seq::<u8>::empty(),
        payload.identity().identity() == payload.identity(),
{
}

/// A payload and its identity have the same kind and validate alike.
pub proof fn lemma_identity_keeps_kind_and_validation(payload: PayloadModel)
    ensures
        payload.identity().kind() == payload.kind(),
        payload.identity().validation() == payload.validation(),
{
    lemma_names_do_not_affect_kind_or_validation(payload, Seq::empty());
}

/// Names play no part in a payload's kind or in its validation.
pub proof fn lemma_names_do_not_affect_kind_or_validation(payload: PayloadModel, names: Seq<u8>)
    ensures
        payload.with_names(names).kind() == payload.kind(),
        payload.with_names(names).validation() == payload.validation(),
{
    match &payload {
        PayloadModel::SignalContract(root) => {
            lemma_signal_contract_validation_ignores_names(*root, names);
            assert(payload.with_names(names) == PayloadModel::SignalContract(
                root.with_names(names),
            ));
        },
        PayloadModel::NexusRuntime(root) => {
            lemma_nexus_runtime_validation_ignores_names(*root, names);
            assert(payload.with_names(names) == PayloadModel::NexusRuntime(
                root.with_names(names),
            ));
        },
        PayloadModel::SemaStorage(root) => {
            let renamed = root.with_names(names);
            assert(renamed.family_ids() == root.family_ids());
            assert(renamed.layouts_versioned() == root.layouts_versioned());
        },
        _ => {},
    }
}

/// A signal contract validates alike whatever its name table.
proof fn lemma_signal_contract_validation_ignores_names(root: SignalContractModel, names: Seq<u8>)
    ensures
        root.with_names(names).validation() == root.validation(),
{
    let renamed = root.with_names(names);
    assert(renamed.stream_ids() == root.stream_ids());
    assert forall|stream| renamed.declares(stream) == root.declares(stream) by {}
    assert(renamed.opens_resolve() == root.opens_resolve()) by {
        if root.opens_resolve() {
            assert forall|i: int| 0 <= i < renamed.opens.len() implies renamed.declares(
                #[trigger] renamed.opens[i].stream,
            ) by {
                assert(root.declares(root.opens[i].stream));
            }
        }
        if renamed.opens_resolve() {
            assert forall|i: int| 0 <= i < root.opens.len() implies root.declares(
                #[trigger] root.opens[i].stream,
            ) by {
                assert(renamed.declares(renamed.opens[i].stream));
            }
        }
    }
    assert(renamed.belongs_resolve() == root.belongs_resolve()) by {
        if root.belongs_resolve() {
            assert forall|i: int| 0 <= i < renamed.belongs.len() implies renamed.declares(
                #[trigger] renamed.belongs[i].stream,
            ) && renamed.belongs[i].contract == renamed.contract by {
                assert(root.declares(root.belongs[i].stream));
            }
        }
        if renamed.belongs_resolve() {
            assert forall|i: int| 0 <= i < root.belongs.len() implies root.declares(
                #[trigger] root.belongs[i].stream,
            ) && root.belongs[i].contract == root.contract by {
                assert(renamed.declares(renamed.belongs[i].stream));
            }
        }
    }
}

/// A nexus runtime validates alike whatever its name table.
proof fn lemma_nexus_runtime_validation_ignores_names(root: NexusRuntimeModel, names: Seq<u8>)
    ensures
        root.with_names(names).validation() == root.validation(),
{
    let renamed = root.with_names(names);
    assert(renamed.actor_ids() == root.actor_ids());
    assert forall|actor| renamed.declares(actor) == root.declares(actor) by {}
    assert(renamed.routes_resolve() == root.routes_resolve()) by {
        if root.routes_resolve() {
            assert forall|i: int| 0 <= i < renamed.routes.len() implies renamed.declares(
                #[trigger] renamed.routes[i].sender,
            ) && renamed.declares(renamed.routes[i].receiver) by {
                assert(root.declares(root.routes[i].sender));
            }
        }
        if renamed.routes_resolve() {
            assert forall|i: int| 0 <= i < root.routes.len() implies root.declares(
                #[trigger] root.routes[i].sender,
            ) && root.declares(root.routes[i].receiver) by {
                assert(renamed.declares(renamed.routes[i].sender));
            }
        }
    }
}

/// Two sequences that are permutations of each other have the same length
/// and the same elements.
proof fn lemma_permutation_same_elements<A>(a: Seq<A>, b: Seq<A>)
    requires
        a.to_multiset() == b.to_multiset(),
    ensures
        a.len() == b.len(),
        forall|x: A| a.contains(x) <==> b.contains(x),
{
    broadcast use vstd::seq_lib::group_to_multiset_ensures;

    assert(a.len() == a.to_multiset().len() && b.len() == b.to_multiset().len());
    assert forall|x: A| a.contains(x) <==> b.contains(x) by {
        assert(a.contains(x) <==> a.to_multiset().count(x) > 0);
        assert(b.contains(x) <==> b.to_multiset().count(x) > 0);
    }
}

/// Two sequences of identifiers of the same length and with the same
/// elements are both free of repeats or both not.
proof fn lemma_same_elements_same_distinctness(a: Seq<Identifier>, b: Seq<Identifier>)
    requires
        a.len() == b.len(),
        forall|x: Identifier| a.contains(x) <==> b.contains(x),
    ensures
        a.no_duplicates() <==> b.no_duplicates(),
{
    assert(a.to_set() =~= b.to_set());
    if a.no_duplicates() {
        a.unique_seq_to_set();
        b.lemma_no_dup_set_cardinality();
    }
    if b.no_duplicates() {
        b.unique_seq_to_set();
        a.lemma_no_dup_set_cardinality();
    }
}

/// A signal contract validates alike whatever the order of its streams,
/// opens relations and belongs relations, and whatever its name table.
pub proof fn lemma_signal_contract_validation_ignores_order(
    root: SignalContractModel,
    reordered: SignalContractModel,
)
    requires
        reordered.contract == root.contract,
        reordered.streams.to_multiset() == root.streams.to_multiset(),
        reordered.opens.to_multiset() == root.opens.to_multiset(),
        reordered.belongs.to_multiset() == root.belongs.to_multiset(),
    ensures
        reordered.validation() == root.validation(),
{
    lemma_permutation_same_elements(root.streams, reordered.streams);
    lemma_permutation_same_elements(root.opens, reordered.opens);
    lemma_permutation_same_elements(root.belongs, reordered.belongs);
    let ids = root.stream_ids();
    let reordered_ids = reordered.stream_ids();
    assert forall|id: Identifier| ids.contains(id) <==> reordered_ids.contains(id) by {
        if ids.contains(id) {
            let i = choose|i: int| 0 <= i < ids.len() && ids[i] == id;
            assert(root.streams.contains(root.streams[i]));
            let j = choose|j: int|
                0 <= j < reordered.streams.len() && reordered.streams[j] == root.streams[i];
            assert(reordered_ids[j] == id);
        }
        if reordered_ids.contains(id) {
            let i = choose|i: int| 0 <= i < reordered_ids.len() && reordered_ids[i] == id;
            assert(reordered.streams.contains(reordered.streams[i]));
            let j = choose|j: int| 0 <= j < root.streams.len() && root.streams[j] == reordered.streams[i];
            assert(ids[j] == id);
        }
    }
    lemma_same_elements_same_distinctness(ids, reordered_ids);
    assert(root.opens_resolve() <==> reordered.opens_resolve()) by {
        if root.opens_resolve() {
            assert forall|i: int| 0 <= i < reordered.opens.len() implies reordered.declares(
                #[trigger] reordered.opens[i].stream,
            ) by {
                assert(reordered.opens.contains(reordered.opens[i]));
                let j = choose|j: int| 0 <= j < root.opens.len() && root.opens[j] == reordered.opens[i];
                assert(root.declares(root.opens[j].stream));
            }
        }
        if reordered.opens_resolve() {
            assert forall|i: int| 0 <= i < root.opens.len() implies root.declares(
                #[trigger] root.opens[i].stream,
            ) by {
                assert(root.opens.contains(root.opens[i]));
                let j = choose|j: int|
                    0 <= j < reordered.opens.len() && reordered.opens[j] == root.opens[i];
                assert(reordered.declares(reordered.opens[j].stream));
            }
        }
    }
    assert(root.belongs_resolve() <==> reordered.belongs_resolve()) by {
        if root.belongs_resolve() {
            assert forall|i: int| 0 <= i < reordered.belongs.len() implies reordered.declares(
                #[trigger] reordered.belongs[i].stream,
            ) && reordered.belongs[i].contract == reordered.contract by {
                assert(reordered.belongs.contains(reordered.belongs[i]));
                let j = choose|j: int|
                    0 <= j < root.belongs.len() && root.belongs[j] == reordered.belongs[i];
                assert(root.declares(root.belongs[j].stream));
            }
        }
        if reordered.belongs_resolve() {
            assert forall|i: int| 0 <= i < root.belongs.len() implies root.declares(
                #[trigger] root.belongs[i].stream,
            ) && root.belongs[i].contract == root.contract by {
                assert(root.belongs.contains(root.belongs[i]));
                let j = choose|j: int|
                    0 <= j < reordered.belongs.len() && reordered.belongs[j] == root.belongs[i];
                assert(reordered.declares(reordered.belongs[j].stream));
            }
        }
    }
}

/// A nexus runtime validates alike whatever the order of its actors and
/// routes, and whatever its name table.
pub proof fn lemma_nexus_runtime_validation_ignores_order(
    root: NexusRuntimeModel,
    reordered: NexusRuntimeModel,
)
    requires
        reordered.actors.to_multiset() == root.actors.to_multiset(),
        reordered.routes.to_multiset() == root.routes.to_multiset(),
    ensures
        reordered.validation() == root.validation(),
{
    lemma_permutation_same_elements(root.actors, reordered.actors);
    lemma_permutation_same_elements(root.routes, reordered.routes);
    let ids = root.actor_ids();
    let reordered_ids = reordered.actor_ids();
    assert forall|id: Identifier| ids.contains(id) <==> reordered_ids.contains(id) by {
        if ids.contains(id) {
            let i = choose|i: int| 0 <= i < ids.len() && ids[i] == id;
            assert(root.actors.contains(root.actors[i]));
            let j = choose|j: int|
                0 <= j < reordered.actors.len() && reordered.actors[j] == root.actors[i];
            assert(reordered_ids[j] == id);
        }
        if reordered_ids.contains(id) {
            let i = choose|i: int| 0 <= i < reordered_ids.len() && reordered_ids[i] == id;
            assert(reordered.actors.contains(reordered.actors[i]));
            let j = choose|j: int| 0 <= j < root.actors.len() && root.actors[j] == reordered.actors[i];
            assert(ids[j] == id);
        }
    }
    lemma_same_elements_same_distinctness(ids, reordered_ids);
    assert(root.routes_resolve() <==> reordered.routes_resolve()) by {
        if root.routes_resolve() {
            assert forall|i: int| 0 <= i < reordered.routes.len() implies reordered.declares(
                #[trigger] reordered.routes[i].sender,
            ) && reordered.declares(reordered.routes[i].receiver) by {
                assert(reordered.routes.contains(reordered.routes[i]));
                let j = choose|j: int|
                    0 <= j < root.routes.len() && root.routes[j] == reordered.routes[i];
                assert(root.declares(root.routes[j].sender));
            }
        }
        if reordered.routes_resolve() {
            assert forall|i: int| 0 <= i < root.routes.len() implies root.declares(
                #[trigger] root.routes[i].sender,
            ) && root.declares(root.routes[i].receiver) by {
                assert(root.routes.contains(root.routes[i]));
                let j = choose|j: int|
                    0 <= j < reordered.routes.len() && reordered.routes[j] == root.routes[i];
                assert(reordered.declares(reordered.routes[j].sender));
            }
        }
    }
}

/// A sema storage root validates alike whatever the order of its families,
/// and whatever its name table.
pub proof fn lemma_sema_storage_validation_ignores_order(
    root: SemaStorageModel,
    reordered: SemaStorageModel,
)
    requires
        reordered.families.to_multiset() == root.families.to_multiset(),
    ensures
        reordered.validation() == root.validation(),
{
    lemma_permutation_same_elements(root.families, reordered.families);
    let ids = root.family_ids();
    let reordered_ids = reordered.family_ids();
    assert forall|id: Identifier| ids.contains(id) <==> reordered_ids.contains(id) by {
        if ids.contains(id) {
            let i = choose|i: int| 0 <= i < ids.len() && ids[i] == id;
            assert(root.families.contains(root.families[i]));
            let j = choose|j: int|
                0 <= j < reordered.families.len() && reordered.families[j] == root.families[i];
            assert(reordered_ids[j] == id);
        }
        if reordered_ids.contains(id) {
            let i = choose|i: int| 0 <= i < reordered_ids.len() && reordered_ids[i] == id;
            assert(reordered.families.contains(reordered.families[i]));
            let j = choose|j: int|
                0 <= j < root.families.len() && root.families[j] == reordered.families[i];
            assert(ids[j] == id);
        }
    }
    lemma_same_elements_same_distinctness(ids, reordered_ids);
    assert(root.layouts_versioned() <==> reordered.layouts_versioned()) by {
        if root.layouts_versioned() {
            assert forall|i: int| 0 <= i < reordered.families.len() implies
                #[trigger] reordered.families[i].layout_version != 0 by {
                assert(reordered.families.contains(reordered.families[i]));
                let j = choose|j: int|
                    0 <= j < root.families.len() && root.families[j] == reordered.families[i];
                assert(root.families[j].layout_version != 0);
            }
        }
        if reordered.layouts_versioned() {
            assert forall|i: int| 0 <= i < root.families.len() implies
                #[trigger] root.families[i].layout_version != 0 by {
                assert(root.families.contains(root.families[i]));
                let j = choose|j: int|
                    0 <= j < reordered.families.len() && reordered.families[j] == root.families[i];
                assert(reordered.families[j].layout_version != 0);
            }
        }
    }
}

/// Dropping opens or belongs relations from a valid signal contract keeps
/// it valid: any contract with the same identity and streams whose opens and
/// belongs relations all occur in the valid one (a subsequence of them, or
/// any other selection) validates too, whatever its name table.
pub proof fn lemma_signal_contract_dropping_relations_keeps_valid(
    root: SignalContractModel,
    kept: SignalContractModel,
)
    requires
        root.validation() is Ok,
        kept.contract == root.contract,
        kept.streams == root.streams,
        forall|i: int| 0 <= i < kept.opens.len() ==> root.opens.contains(#[trigger] kept.opens[i]),
        forall|i: int|
            0 <= i < kept.belongs.len() ==> root.belongs.contains(#[trigger] kept.belongs[i]),
    ensures
        kept.validation() is Ok,
{
    assert(kept.stream_ids() == root.stream_ids());
    assert forall|i: int| 0 <= i < kept.opens.len() implies kept.declares(
        #[trigger] kept.opens[i].stream,
    ) by {
        let j = choose|j: int| 0 <= j < root.opens.len() && root.opens[j] == kept.opens[i];
        assert(root.declares(root.opens[j].stream));
    }
    assert forall|i: int| 0 <= i < kept.belongs.len() implies kept.declares(
        #[trigger] kept.belongs[i].stream,
    ) && kept.belongs[i].contract == kept.contract by {
        let j = choose|j: int| 0 <= j < root.belongs.len() && root.belongs[j] == kept.belongs[i];
        assert(root.declares(root.belongs[j].stream));
    }
}

/// Dropping routes from a valid nexus runtime keeps it valid: any runtime
/// with the same actors whose routes all occur in the valid one validates
/// too, whatever its name table.
pub proof fn lemma_nexus_runtime_dropping_routes_keeps_valid(
    root: NexusRuntimeModel,
    kept: NexusRuntimeModel,
)
    requires
        root.validation() is Ok,
        kept.actors == root.actors,
        forall|i: int| 0 <= i < kept.routes.len() ==> root.routes.contains(#[trigger] kept.routes[i]),
    ensures
        kept.validation() is Ok,
{
    assert(kept.actor_ids() == root.actor_ids());
    assert forall|i: int| 0 <= i < kept.routes.len() implies kept.declares(
        #[trigger] kept.routes[i].sender,
    ) && kept.declares(kept.routes[i].receiver) by {
        let j = choose|j: int| 0 <= j < root.routes.len() && root.routes[j] == kept.routes[i];
        assert(root.declares(root.routes[j].sender));
    }
}

} // verus!
