use api_client::extrinsic::{Api, Call, PayoutStakers};
use api_client::metadata::{CallMetadata, Metadata, MetadataError, PalletMetadata};

fn utility_registry() -> Metadata {
    let utility = PalletMetadata {
        index: 40,
        name: "Utility".to_string(),
        calls: vec![
            CallMetadata { index: 0, name: "batch".to_string() },
            CallMetadata { index: 2, name: "batch_all".to_string() },
            CallMetadata { index: 4, name: "force_batch".to_string() },
        ],
        errors: vec![],
    };
    let staking = PalletMetadata {
        index: 7,
        name: "Staking".to_string(),
        calls: vec![CallMetadata { index: 18, name: "payout_stakers".to_string() }],
        errors: vec![],
    };
    Metadata::new(vec![staking, utility], vec![])
}

fn calls() -> Vec<Call> {
    vec![
        Call { pallet_index: 5, call_index: 0, encoded_args: vec![1, 2] },
        Call { pallet_index: 6, call_index: 3, encoded_args: vec![] },
        Call { pallet_index: 5, call_index: 1, encoded_args: vec![9] },
    ]
}

#[test]
fn batch_resolves_selector_and_keeps_calls() {
    let api = Api::new(utility_registry());
    let b = api.batch(calls()).unwrap();
    assert_eq!(b.call_index, [40, 0]);
    assert_eq!(b.batch.calls.len(), 3);
    assert_eq!(b.batch.calls[1].pallet_index, 6);
    assert_eq!(b.encode(), vec![40, 0, 12, 5, 0, 1, 2, 6, 3, 5, 1, 9]);
}

#[test]
fn batch_and_force_batch_differ_only_in_selector() {
    let api = Api::new(utility_registry());
    let a = api.batch(calls()).unwrap().encode();
    let f = api.force_batch(calls()).unwrap().encode();
    assert_eq!(f, vec![40, 4, 12, 5, 0, 1, 2, 6, 3, 5, 1, 9]);
    assert_eq!(a.len(), f.len());
    assert_eq!(a[0], f[0]);
    assert_ne!(a[1], f[1]);
    assert_eq!(a[2..], f[2..]);
}

#[test]
fn empty_batch_encodes_zero_length() {
    let api = Api::new(utility_registry());
    assert_eq!(api.batch(vec![]).unwrap().encode(), vec![40, 0, 0]);
}

#[test]
fn batch_length_prefix_uses_two_byte_mode() {
    let api = Api::new(utility_registry());
    let many: Vec<Call> =
        (0..64).map(|_| Call { pallet_index: 1, call_index: 2, encoded_args: vec![] }).collect();
    let bytes = api.batch(many).unwrap().encode();
    assert_eq!(bytes[..4], [40, 0, 0x01, 0x01]);
    assert_eq!(bytes.len(), 4 + 64 * 2);
}

#[test]
fn missing_utility_pallet_is_reported() {
    let api = Api::new(Metadata::new(vec![], vec![]));
    assert_eq!(
        api.batch(calls()).unwrap_err(),
        MetadataError::CallNotFound("Utility".to_string(), "batch".to_string())
    );
    assert_eq!(
        api.force_batch(calls()).unwrap_err(),
        MetadataError::CallNotFound("Utility".to_string(), "force_batch".to_string())
    );
}

#[test]
fn batch_payout_stakers_keeps_entries_in_order() {
    let api = Api::new(utility_registry());
    let first = PayoutStakers { validator_stash: [1u8; 32], era: 0x0102_0304 };
    let second = PayoutStakers { validator_stash: [2u8; 32], era: 5 };
    let x = api.batch_payout_stakers(vec![([7, 18], first), ([7, 19], second)]).unwrap();
    assert_eq!(x.call_index, [40, 0]);
    assert_eq!(x.batch.calls[0].0, [7, 18]);
    assert_eq!(x.batch.calls[1].0, [7, 19]);
    assert_eq!(x.batch.calls[1].1.era, 5);

    let bytes = x.encode();
    let mut expected = vec![40, 0, 8, 7, 18];
    expected.extend_from_slice(&[1u8; 32]);
    expected.extend_from_slice(&[4, 3, 2, 1]);
    expected.extend_from_slice(&[7, 19]);
    expected.extend_from_slice(&[2u8; 32]);
    expected.extend_from_slice(&[5, 0, 0, 0]);
    assert_eq!(bytes, expected);
}

#[test]
fn batch_payout_stakers_needs_only_the_outer_call() {
    // Inner selectors name a pallet that the registry does not have.
    let utility = PalletMetadata {
        index: 3,
        name: "Utility".to_string(),
        calls: vec![CallMetadata { index: 0, name: "batch".to_string() }],
        errors: vec![],
    };
    let api = Api::new(Metadata::new(vec![utility], vec![]));
    let entry = PayoutStakers { validator_stash: [0u8; 32], era: 1 };
    let x = api.batch_payout_stakers(vec![([99, 99], entry), ([98, 1], entry)]).unwrap();
    assert_eq!(x.call_index, [3, 0]);
    assert_eq!(x.batch.calls[0].0, [99, 99]);
    assert_eq!(x.batch.calls[1].0, [98, 1]);
}

#[test]
fn api_exposes_its_metadata() {
    let api = Api::new(utility_registry());
    assert_eq!(api.metadata().pallet_by_index(40).unwrap().name, "Utility");
}

#[test]
fn batch_length_prefix_uses_four_byte_mode() {
    let api = Api::new(utility_registry());
    let many: Vec<Call> =
        (0..16384).map(|_| Call { pallet_index: 1, call_index: 2, encoded_args: vec![] }).collect();
    let bytes = api.batch(many).unwrap().encode();
    // 16384 * 4 + 2 = 0x0001_0002, little-endian.
    assert_eq!(bytes[..6], [40, 0, 0x02, 0x00, 0x01, 0x00]);
    assert_eq!(bytes.len(), 6 + 16384 * 2);
}
