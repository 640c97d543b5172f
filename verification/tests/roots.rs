use signal_sema_storage::{
    BelongsRelation, DocumentPayload, FamilyDeclaration, Identifier, NameTableBytes,
    NexusActorDeclaration, NexusRoute, NexusRuntimeRoot, OpensRelation, RootViolation,
    SemaStorageRoot, SignalContractRoot, StreamDeclaration,
};

#[test]
fn signal_contract_owns_stream_opens_and_belongs_laws() {
    let contract = Identifier::new(0);
    let stream = Identifier::new(1);
    let operation = Identifier::new(2);
    let root = SignalContractRoot {
        contract,
        streams: vec![StreamDeclaration { stream }],
        opens: vec![OpensRelation { operation, stream }],
        belongs: vec![BelongsRelation { stream, contract }],
        names: NameTableBytes(Vec::new()),
    };
    assert_eq!(root.validate(), Ok(()));
}

#[test]
fn nexus_routes_only_between_declared_actors() {
    let actor = Identifier::new(1);
    let missing = Identifier::new(2);
    let root = NexusRuntimeRoot {
        actors: vec![NexusActorDeclaration { actor }],
        routes: vec![NexusRoute {
            sender: actor,
            receiver: missing,
        }],
        names: NameTableBytes(Vec::new()),
    };
    assert_eq!(root.validate(), Err(RootViolation::UnknownRouteActor));
}

#[test]
fn sema_alone_owns_versioned_families() {
    let root = SemaStorageRoot {
        families: vec![FamilyDeclaration {
            family: Identifier::new(1),
            layout_version: 0,
        }],
        names: NameTableBytes(Vec::new()),
    };
    assert_eq!(root.validate(), Err(RootViolation::ZeroLayoutVersion));
}

fn contract_root(
    contract: u64,
    streams: &[u64],
    opens: &[u64],
    belongs: &[(u64, u64)],
) -> SignalContractRoot {
    SignalContractRoot {
        contract: Identifier::new(contract),
        streams: streams
            .iter()
            .map(|s| StreamDeclaration { stream: Identifier::new(*s) })
            .collect(),
        opens: opens
            .iter()
            .map(|s| OpensRelation {
                operation: Identifier::new(100),
                stream: Identifier::new(*s),
            })
            .collect(),
        belongs: belongs
            .iter()
            .map(|(s, c)| BelongsRelation {
                stream: Identifier::new(*s),
                contract: Identifier::new(*c),
            })
            .collect(),
        names: NameTableBytes(vec![1, 2, 3]),
    }
}

#[test]
fn empty_signal_contract_is_valid() {
    assert_eq!(contract_root(0, &[], &[], &[]).validate(), Ok(()));
}

#[test]
fn duplicate_stream_is_rejected() {
    assert_eq!(
        contract_root(0, &[1, 2, 1], &[], &[]).validate(),
        Err(RootViolation::DuplicateStream)
    );
}

#[test]
fn duplicate_stream_is_reported_before_unknown_opened_stream() {
    assert_eq!(
        contract_root(0, &[1, 1], &[9], &[(9, 5)]).validate(),
        Err(RootViolation::DuplicateStream)
    );
}

#[test]
fn unknown_opened_stream_is_rejected() {
    assert_eq!(
        contract_root(0, &[1, 2], &[2, 3], &[]).validate(),
        Err(RootViolation::UnknownOpenedStream)
    );
}

#[test]
fn unknown_opened_stream_is_reported_before_invalid_belongs() {
    assert_eq!(
        contract_root(0, &[1], &[3], &[(1, 7)]).validate(),
        Err(RootViolation::UnknownOpenedStream)
    );
}

#[test]
fn belongs_to_another_contract_is_rejected() {
    assert_eq!(
        contract_root(0, &[1, 2], &[1], &[(1, 0), (2, 4)]).validate(),
        Err(RootViolation::InvalidBelongsRelation)
    );
}

#[test]
fn belongs_of_undeclared_stream_is_rejected() {
    assert_eq!(
        contract_root(0, &[1, 2], &[1], &[(3, 0)]).validate(),
        Err(RootViolation::InvalidBelongsRelation)
    );
}

#[test]
fn well_formed_contract_with_several_streams_is_valid() {
    assert_eq!(
        contract_root(7, &[1, 2, 3], &[3, 1, 1], &[(2, 7), (3, 7)]).validate(),
        Ok(())
    );
}

#[test]
fn duplicate_actor_is_rejected_before_unknown_route() {
    let root = NexusRuntimeRoot {
        actors: vec![
            NexusActorDeclaration { actor: Identifier::new(1) },
            NexusActorDeclaration { actor: Identifier::new(1) },
        ],
        routes: vec![NexusRoute {
            sender: Identifier::new(5),
            receiver: Identifier::new(6),
        }],
        names: NameTableBytes(Vec::new()),
    };
    assert_eq!(root.validate(), Err(RootViolation::DuplicateActor));
}

#[test]
fn route_from_unknown_sender_is_rejected() {
    let root = NexusRuntimeRoot {
        actors: vec![NexusActorDeclaration { actor: Identifier::new(2) }],
        routes: vec![NexusRoute {
            sender: Identifier::new(3),
            receiver: Identifier::new(2),
        }],
        names: NameTableBytes(Vec::new()),
    };
    assert_eq!(root.validate(), Err(RootViolation::UnknownRouteActor));
}

#[test]
fn routes_between_declared_actors_are_valid() {
    let root = NexusRuntimeRoot {
        actors: vec![
            NexusActorDeclaration { actor: Identifier::new(1) },
            NexusActorDeclaration { actor: Identifier::new(2) },
        ],
        routes: vec![
            NexusRoute {
                sender: Identifier::new(1),
                receiver: Identifier::new(2),
            },
            NexusRoute {
                sender: Identifier::new(2),
                receiver: Identifier::new(2),
            },
        ],
        names: NameTableBytes(Vec::new()),
    };
    assert_eq!(root.validate(), Ok(()));
}

#[test]
fn duplicate_family_is_rejected_before_zero_layout() {
    let root = SemaStorageRoot {
        families: vec![
            FamilyDeclaration { family: Identifier::new(4), layout_version: 0 },
            FamilyDeclaration { family: Identifier::new(4), layout_version: 1 },
        ],
        names: NameTableBytes(Vec::new()),
    };
    assert_eq!(root.validate(), Err(RootViolation::DuplicateFamily));
}

#[test]
fn versioned_distinct_families_are_valid() {
    let root = SemaStorageRoot {
        families: vec![
            FamilyDeclaration { family: Identifier::new(4), layout_version: 3 },
            FamilyDeclaration { family: Identifier::new(5), layout_version: 1 },
        ],
        names: NameTableBytes(Vec::new()),
    };
    assert_eq!(root.validate(), Ok(()));
}

#[test]
fn payload_validation_follows_its_root() {
    let invalid = DocumentPayload::SemaStorage(SemaStorageRoot {
        families: vec![FamilyDeclaration { family: Identifier::new(1), layout_version: 0 }],
        names: NameTableBytes(Vec::new()),
    });
    assert_eq!(invalid.validate(), Err(RootViolation::ZeroLayoutVersion));
    let contract = DocumentPayload::SignalContract(contract_root(0, &[1, 1], &[], &[]));
    assert_eq!(contract.validate(), Err(RootViolation::DuplicateStream));
    let nexus = DocumentPayload::NexusRuntime(NexusRuntimeRoot {
        actors: Vec::new(),
        routes: vec![NexusRoute { sender: Identifier::new(1), receiver: Identifier::new(1) }],
        names: NameTableBytes(Vec::new()),
    });
    assert_eq!(nexus.validate(), Err(RootViolation::UnknownRouteActor));
}

#[test]
fn signal_contract_validation_ignores_order_and_names() {
    let roots = [
        (contract_root(0, &[1, 2, 3], &[3, 1], &[(2, 0), (1, 0)]), contract_root(0, &[3, 1, 2], &[1, 3], &[(1, 0), (2, 0)])),
        (contract_root(0, &[1, 2, 1], &[5], &[]), contract_root(0, &[1, 1, 2], &[5], &[])),
        (contract_root(0, &[1, 2], &[2, 4], &[(1, 0)]), contract_root(0, &[2, 1], &[4, 2], &[(1, 0)])),
        (contract_root(0, &[1, 2], &[2], &[(1, 0), (2, 9)]), contract_root(0, &[2, 1], &[2], &[(2, 9), (1, 0)])),
    ];
    for (root, mut reordered) in roots {
        reordered.names = NameTableBytes(vec![42]);
        assert_eq!(reordered.validate(), root.validate());
    }
}

#[test]
fn dropping_relations_keeps_a_valid_contract_valid() {
    let root = contract_root(7, &[1, 2, 3], &[3, 1, 2], &[(2, 7), (3, 7), (1, 7)]);
    assert_eq!(root.validate(), Ok(()));
    let kept = contract_root(7, &[1, 2, 3], &[2], &[(3, 7)]);
    assert_eq!(kept.validate(), Ok(()));
    let none = contract_root(7, &[1, 2, 3], &[], &[]);
    assert_eq!(none.validate(), Ok(()));
}

#[test]
fn nexus_and_sema_validation_ignore_order() {
    let actors = |ids: &[u64]| -> Vec<NexusActorDeclaration> {
        ids.iter().map(|a| NexusActorDeclaration { actor: Identifier::new(*a) }).collect()
    };
    let route = |s: u64, r: u64| NexusRoute { sender: Identifier::new(s), receiver: Identifier::new(r) };
    let root = NexusRuntimeRoot {
        actors: actors(&[1, 2]),
        routes: vec![route(1, 2), route(2, 3)],
        names: NameTableBytes(Vec::new()),
    };
    let reordered = NexusRuntimeRoot {
        actors: actors(&[2, 1]),
        routes: vec![route(2, 3), route(1, 2)],
        names: NameTableBytes(vec![1]),
    };
    assert_eq!(root.validate(), Err(RootViolation::UnknownRouteActor));
    assert_eq!(reordered.validate(), root.validate());
    let family = |f: u64, v: u32| FamilyDeclaration { family: Identifier::new(f), layout_version: v };
    let sema = SemaStorageRoot { families: vec![family(1, 1), family(2, 0)], names: NameTableBytes(Vec::new()) };
    let sema_reordered =
        SemaStorageRoot { families: vec![family(2, 0), family(1, 1)], names: NameTableBytes(vec![3]) };
    assert_eq!(sema.validate(), Err(RootViolation::ZeroLayoutVersion));
    assert_eq!(sema_reordered.validate(), sema.validate());
}

#[test]
fn dropping_routes_keeps_a_valid_runtime_valid() {
    let actors = vec![
        NexusActorDeclaration { actor: Identifier::new(1) },
        NexusActorDeclaration { actor: Identifier::new(2) },
    ];
    let route = |s: u64, r: u64| NexusRoute { sender: Identifier::new(s), receiver: Identifier::new(r) };
    let root = NexusRuntimeRoot {
        actors: actors.clone(),
        routes: vec![route(1, 2), route(2, 1)],
        names: NameTableBytes(Vec::new()),
    };
    assert_eq!(root.validate(), Ok(()));
    let kept = NexusRuntimeRoot { actors, routes: vec![route(2, 1)], names: NameTableBytes(Vec::new()) };
    assert_eq!(kept.validate(), Ok(()));
}
