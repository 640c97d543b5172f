use signal_sema_storage::{
    ContentHash, DocumentKind, DocumentPayload, EncodedItem, EncodedSchema, FamilyDeclaration,
    Identifier, NameTableBytes, NexusRuntimeRoot, NomosPackage, SemaStorageRoot,
    SignalContractRoot, StreamDeclaration,
};

fn hex(bytes: &[u8]) -> String {
    bytes.iter().map(|b| format!("{:02x}", b)).collect()
}

#[test]
fn names_are_excluded_from_root_identity() {
    let payload = DocumentPayload::SignalContract(SignalContractRoot {
        contract: Identifier::new(0),
        streams: vec![StreamDeclaration {
            stream: Identifier::new(1),
        }],
        opens: Vec::new(),
        belongs: Vec::new(),
        names: NameTableBytes(vec![1, 2, 3]),
    });
    let mut renamed = payload.clone();
    let DocumentPayload::SignalContract(root) = &mut renamed else {
        unreachable!()
    };
    root.names = NameTableBytes(vec![9, 8, 7, 6]);
    assert_eq!(
        payload.into_identity(),
        renamed.into_identity(),
        "NameTable bytes are projection data, not Core identity"
    );
}

#[test]
fn structural_edits_move_root_identity() {
    let payload = DocumentPayload::SemaStorage(SemaStorageRoot {
        families: vec![FamilyDeclaration {
            family: Identifier::new(1),
            layout_version: 1,
        }],
        names: NameTableBytes(Vec::new()),
    });
    let mut changed = payload.clone();
    let DocumentPayload::SemaStorage(root) = &mut changed else {
        unreachable!()
    };
    root.families[0].layout_version = 2;
    assert_ne!(payload.into_identity(), changed.into_identity());
}

#[test]
fn identity_empties_every_name_table_and_keeps_the_rest() {
    let schema = DocumentPayload::TypeSchema {
        schema: EncodedSchema(vec![4, 5]),
        names: NameTableBytes(vec![1]),
    };
    assert_eq!(
        schema.into_identity(),
        DocumentPayload::TypeSchema {
            schema: EncodedSchema(vec![4, 5]),
            names: NameTableBytes(Vec::new()),
        }
    );
    let logos = DocumentPayload::Logos {
        items: vec![EncodedItem(vec![1, 2]), EncodedItem(vec![3])],
        names: NameTableBytes(vec![7, 7]),
    };
    assert_eq!(
        logos.into_identity(),
        DocumentPayload::Logos {
            items: vec![EncodedItem(vec![1, 2]), EncodedItem(vec![3])],
            names: NameTableBytes(Vec::new()),
        }
    );
    let nexus = DocumentPayload::NexusRuntime(NexusRuntimeRoot {
        actors: Vec::new(),
        routes: Vec::new(),
        names: NameTableBytes(vec![3]),
    });
    assert_eq!(
        nexus.into_identity(),
        DocumentPayload::NexusRuntime(NexusRuntimeRoot {
            actors: Vec::new(),
            routes: Vec::new(),
            names: NameTableBytes(Vec::new()),
        })
    );
    let nomos = DocumentPayload::Nomos(NomosPackage::WireFixture);
    assert_eq!(nomos.clone().into_identity(), nomos);
}

#[test]
fn identity_is_idempotent() {
    let payload = DocumentPayload::SemaStorage(SemaStorageRoot {
        families: vec![FamilyDeclaration { family: Identifier::new(3), layout_version: 9 }],
        names: NameTableBytes(vec![5, 5, 5]),
    });
    let once = payload.into_identity();
    assert_eq!(once.clone().into_identity(), once);
}

#[test]
fn identity_keeps_kind_and_validation() {
    let payload = DocumentPayload::SemaStorage(SemaStorageRoot {
        families: vec![FamilyDeclaration { family: Identifier::new(3), layout_version: 0 }],
        names: NameTableBytes(vec![5]),
    });
    let identity = payload.clone().into_identity();
    assert_eq!(identity.kind(), payload.kind());
    assert_eq!(identity.validate(), payload.validate());
}

#[test]
fn kind_names_each_variant() {
    let names = || NameTableBytes(Vec::new());
    let cases = [
        (
            DocumentPayload::TypeSchema { schema: EncodedSchema(Vec::new()), names: names() },
            DocumentKind::TypeSchema,
        ),
        (
            DocumentPayload::SignalContract(SignalContractRoot {
                contract: Identifier::new(0),
                streams: Vec::new(),
                opens: Vec::new(),
                belongs: Vec::new(),
                names: names(),
            }),
            DocumentKind::SignalContract,
        ),
        (
            DocumentPayload::NexusRuntime(NexusRuntimeRoot {
                actors: Vec::new(),
                routes: Vec::new(),
                names: names(),
            }),
            DocumentKind::NexusRuntime,
        ),
        (
            DocumentPayload::SemaStorage(SemaStorageRoot { families: Vec::new(), names: names() }),
            DocumentKind::SemaStorage,
        ),
        (DocumentPayload::Nomos(NomosPackage::WireFixture), DocumentKind::Nomos),
        (DocumentPayload::Logos { items: Vec::new(), names: names() }, DocumentKind::Logos),
    ];
    for (payload, kind) in cases {
        assert_eq!(payload.kind(), kind);
        assert_eq!(payload.validate(), Ok(()));
    }
}

#[test]
fn content_hash_is_the_blake3_digest_of_the_encoding() {
    assert_eq!(
        hex(&ContentHash::of_encoding(b"").0),
        "af1349b9f5f9a1a6a0404dea36dcc9499bcb25c9adc112b7cc9a93cae41f3262"
    );
    assert_eq!(
        hex(&ContentHash::of_encoding(b"abc").0),
        "6437b3ac38465133ffb63b75273a8db548c558465d79db03fd359c6cd5bd9d85"
    );
}

#[test]
fn content_hash_depends_on_the_encoding() {
    assert_eq!(ContentHash::of_encoding(&[1, 2, 3]), ContentHash::of_encoding(&[1, 2, 3]));
    assert_ne!(ContentHash::of_encoding(&[1, 2, 3]), ContentHash::of_encoding(&[1, 2, 4]));
}
