use api_client::error::{
    BlockError, DispatchError, Error, ModuleErrorData, RuntimeError, TransactionError,
};
use api_client::metadata::{
    CallMetadata, ErrorMetadata, Metadata, MetadataError, PalletMetadata, TypeEntry, TypeShape,
};

fn registry() -> Metadata {
    let balances = PalletMetadata {
        index: 2,
        name: "Balances".to_string(),
        calls: vec![CallMetadata { index: 0, name: "transfer".to_string() }],
        errors: vec![
            ErrorMetadata {
                index: 0,
                name: "VestingBalance".to_string(),
                description: vec!["Vesting balance too high to send value".to_string()],
            },
            ErrorMetadata {
                index: 3,
                name: "InsufficientBalance".to_string(),
                description: vec![
                    "Balance too low to send value.".to_string(),
                    "Second line.".to_string(),
                ],
            },
        ],
    };
    let system = PalletMetadata {
        index: 0,
        name: "System".to_string(),
        calls: vec![],
        errors: vec![ErrorMetadata {
            index: 1,
            name: "InvalidSpecName".to_string(),
            description: vec![],
        }],
    };
    let types = vec![
        TypeEntry { id: 7, shape: TypeShape::Composite(vec![1, 2]) },
        TypeEntry { id: 9, shape: TypeShape::Primitive("u32".to_string()) },
    ];
    Metadata::new(vec![system, balances], types)
}

fn module(pallet_index: u8, error_index: u8) -> DispatchError {
    DispatchError::Module(ModuleErrorData { pallet_index, error: [error_index, 0, 0, 0] })
}

#[test]
fn resolves_balances_insufficient_balance() {
    let r = RuntimeError::from_dispatch(&registry(), module(2, 3)).unwrap();
    match r {
        RuntimeError::Module(m) => {
            assert_eq!(m.pallet, "Balances");
            assert_eq!(m.error, "InsufficientBalance");
            assert_eq!(m.description, vec!["Balance too low to send value.", "Second line."]);
            assert_eq!(m.error_data.pallet_index, 2);
            assert_eq!(m.error_data.error_index(), 3);
        }
        other => panic!("unexpected {:?}", other),
    }
}

#[test]
fn resolves_every_registered_pair() {
    let md = registry();
    for (p, e, pallet, error) in [
        (2u8, 0u8, "Balances", "VestingBalance"),
        (2, 3, "Balances", "InsufficientBalance"),
        (0, 1, "System", "InvalidSpecName"),
    ] {
        match RuntimeError::from_dispatch(&md, module(p, e)).unwrap() {
            RuntimeError::Module(m) => {
                assert_eq!(m.pallet, pallet);
                assert_eq!(m.error, error);
            }
            other => panic!("unexpected {:?}", other),
        }
    }
}

#[test]
fn error_index_is_taken_from_first_raw_byte() {
    let d = ModuleErrorData { pallet_index: 2, error: [3, 9, 9, 9] };
    match RuntimeError::from_dispatch(&registry(), DispatchError::Module(d)).unwrap() {
        RuntimeError::Module(m) => assert_eq!(m.error, "InsufficientBalance"),
        other => panic!("unexpected {:?}", other),
    }
}

#[test]
fn absent_pallet_index_is_a_metadata_error() {
    for p in [1u8, 3, 255] {
        let r = RuntimeError::from_dispatch(&registry(), module(p, 0));
        assert!(matches!(
            r,
            Err(Error::Metadata(MetadataError::PalletIndexNotFound(i))) if i == p
        ));
    }
}

#[test]
fn absent_error_index_names_the_pallet() {
    let r = RuntimeError::from_dispatch(&registry(), module(2, 4));
    match r {
        Err(Error::Metadata(MetadataError::ErrorIndexNotFound(pallet, e))) => {
            assert_eq!(pallet, "Balances");
            assert_eq!(e, 4);
        }
        other => panic!("unexpected {:?}", other),
    }
}

#[test]
fn empty_registry_has_no_pallets() {
    let md = Metadata::new(vec![], vec![]);
    let r = RuntimeError::from_dispatch(&md, module(0, 0));
    assert!(matches!(r, Err(Error::Metadata(MetadataError::PalletIndexNotFound(0)))));
}

#[test]
fn well_known_failures_map_without_lookup() {
    let md = Metadata::new(vec![], vec![]);
    assert!(matches!(
        RuntimeError::from_dispatch(&md, DispatchError::BadOrigin),
        Ok(RuntimeError::BadOrigin)
    ));
    assert!(matches!(
        RuntimeError::from_dispatch(&md, DispatchError::CannotLookup),
        Ok(RuntimeError::CannotLookup)
    ));
    assert!(matches!(
        RuntimeError::from_dispatch(&md, DispatchError::ConsumerRemaining),
        Ok(RuntimeError::ConsumerRemaining)
    ));
    assert!(matches!(
        RuntimeError::from_dispatch(&md, DispatchError::TooManyConsumers),
        Ok(RuntimeError::TooManyConsumers)
    ));
    assert!(matches!(
        RuntimeError::from_dispatch(&md, DispatchError::NoProviders),
        Ok(RuntimeError::NoProviders)
    ));
}

fn other_text(e: DispatchError) -> String {
    match RuntimeError::from_dispatch(&Metadata::new(vec![], vec![]), e) {
        Ok(RuntimeError::Other(s)) => s,
        other => panic!("unexpected {:?}", other),
    }
}

#[test]
fn other_message_is_kept() {
    assert_eq!(other_text(DispatchError::Other("lookup failed".to_string())), "lookup failed");
}

#[test]
fn unhandled_kinds_fall_back_to_fixed_labels() {
    assert_eq!(other_text(DispatchError::Arithmetic), "math_error");
    assert_eq!(other_text(DispatchError::Token), "token error");
    assert_eq!(other_text(DispatchError::Transactional), "transactional error");
    assert_eq!(other_text(DispatchError::Exhausted), "exhausted");
    assert_eq!(other_text(DispatchError::Corruption), "corruption");
    assert_eq!(other_text(DispatchError::Unavailable), "unavailable");
    assert_eq!(other_text(DispatchError::RootNotAllowed), "root not allowed");
}

#[test]
fn module_error_data_error_index() {
    let d = ModuleErrorData { pallet_index: 4, error: [7, 0, 0, 0] };
    assert_eq!(d.error_index(), 7);
}

#[test]
fn block_hash_not_found_renders_hex() {
    assert_eq!(
        BlockError::block_hash_not_found(&[0xab, 0xcd]),
        BlockError::BlockHashNotFound("0xabcd".to_string())
    );
    assert_eq!(
        BlockError::block_hash_not_found(&[0x00, 0x0f, 0xf0]),
        BlockError::BlockHashNotFound("0x000ff0".to_string())
    );
    assert_eq!(BlockError::block_hash_not_found(&[]), BlockError::BlockHashNotFound("0x".to_string()));
}

#[test]
fn lookups_by_index_name_and_id() {
    let md = registry();
    assert_eq!(md.pallet_by_index(2).unwrap().name, "Balances");
    assert_eq!(md.pallet_by_index(5).unwrap_err(), MetadataError::PalletIndexNotFound(5));
    let (p, e) = md.error(0, 1).unwrap();
    assert_eq!(p.name, "System");
    assert_eq!(e.name, "InvalidSpecName");
    assert_eq!(md.call_index_by_name("Balances", "transfer").unwrap(), [2, 0]);
    assert_eq!(
        md.call_index_by_name("Balances", "burn").unwrap_err(),
        MetadataError::CallNotFound("Balances".to_string(), "burn".to_string())
    );
    assert_eq!(
        md.call_index_by_name("Utility", "batch").unwrap_err(),
        MetadataError::CallNotFound("Utility".to_string(), "batch".to_string())
    );
    assert!(matches!(md.type_by_id(7), Ok(TypeShape::Composite(f)) if f == &vec![1, 2]));
    assert_eq!(md.type_by_id(8).unwrap_err(), MetadataError::TypeNotFound(8));
}

#[test]
fn first_matching_pallet_wins() {
    let a = PalletMetadata { index: 1, name: "A".to_string(), calls: vec![], errors: vec![] };
    let b = PalletMetadata { index: 1, name: "B".to_string(), calls: vec![], errors: vec![] };
    let md = Metadata::new(vec![a, b], vec![]);
    assert_eq!(md.pallet_by_index(1).unwrap().name, "A");
}

#[test]
fn conversions_into_the_error_union() {
    assert!(matches!(
        Error::from(MetadataError::TypeNotFound(3)),
        Error::Metadata(MetadataError::TypeNotFound(3))
    ));
    assert!(matches!(
        Error::from(TransactionError::BlockHashNotFound),
        Error::Transaction(TransactionError::BlockHashNotFound)
    ));
    assert!(matches!(Error::from("boom".to_string()), Error::Other(s) if s == "boom"));
    assert!(matches!(
        Error::from(RuntimeError::BadOrigin),
        Error::Runtime(RuntimeError::BadOrigin)
    ));
}
