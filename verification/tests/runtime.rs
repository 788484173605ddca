use parity_scale_codec::Encode;
use subsocial_runtime::arith::Weight;
use subsocial_runtime::config::{EXISTENTIAL_DEPOSIT, SS58_PREFIX, DOWNVOTE_POST_ACTION_WEIGHT, MAX_HANDLE_LEN, MIN_HANDLE_LEN};
use subsocial_runtime::limits::{
    assemble_block_weights, average_on_initialize_ratio, maximum_block_weight, normal_dispatch_ratio,
    runtime_block_length, runtime_block_weights, runtime_block_weights_config, DerivedWeights, MAX_BLOCK_LENGTH,
};
use subsocial_runtime::message::{MessageDecodeError, XCMPMessage, ENCODED_LEN};
use subsocial_runtime::permissions::{default_space_permissions, SpacePermission};
use subsocial_runtime::time::{DAYS, EPOCH_DURATION_IN_BLOCKS, HOURS, MINIMUM_PERIOD, MINUTES, PRIMARY_PROBABILITY, SLOT_DURATION};
use subsocial_runtime::version::{native_version, version};

const W75_MAX: u64 = 13_835_058_055_282_163_711;
const W10_MAX: u64 = 1_844_674_407_370_955_161;

#[test]
fn time_units_are_counted_in_blocks() {
    assert_eq!(MINUTES, 10);
    assert_eq!(HOURS, 600);
    assert_eq!(DAYS, 14_400);
    assert_eq!(EPOCH_DURATION_IN_BLOCKS, 100);
    assert_eq!(SLOT_DURATION, 6000);
    assert_eq!(MINIMUM_PERIOD, 3000);
    assert_eq!(PRIMARY_PROBABILITY, (1, 4));
}

#[test]
fn ratios_are_parts_per_billion() {
    assert_eq!(normal_dispatch_ratio().parts, 750_000_000);
    assert_eq!(average_on_initialize_ratio().parts, 100_000_000);
}

#[test]
fn maximum_block_weight_is_two_seconds() {
    assert_eq!(maximum_block_weight(), Weight { ref_time: 2_000_000_000_000, proof_size: u64::MAX });
}

#[test]
fn block_weights_config_splits_block_between_classes() {
    let c = runtime_block_weights_config();
    assert_eq!(c.normal_max_total, Weight { ref_time: 1_500_000_000_000, proof_size: W75_MAX });
    assert_eq!(c.operational_max_total, Weight { ref_time: 2_000_000_000_000, proof_size: u64::MAX });
    assert_eq!(c.operational_reserved, Weight { ref_time: 500_000_000_000, proof_size: u64::MAX - W75_MAX });
    assert_eq!(c.avg_block_initialization.parts, 100_000_000);
    assert_eq!(c.normal_max_total.ref_time + c.operational_reserved.ref_time, c.operational_max_total.ref_time);
    assert_eq!(c.normal_max_total.proof_size + c.operational_reserved.proof_size, c.operational_max_total.proof_size);
}

#[test]
fn block_weights_are_accepted_and_derived() {
    let w = runtime_block_weights();
    assert_eq!(w.base_block, Weight { ref_time: 431_614_000, proof_size: 0 });
    assert_eq!(w.max_block, Weight { ref_time: 2_000_000_000_000, proof_size: u64::MAX });
    assert_eq!(
        w.normal.max_extrinsic,
        Some(Weight { ref_time: 1_500_000_000_000 - 200_000_000_000 - 108_157_000, proof_size: W75_MAX - W10_MAX })
    );
    assert_eq!(
        w.operational.max_extrinsic,
        Some(Weight { ref_time: 2_000_000_000_000 - 200_000_000_000 - 108_157_000, proof_size: u64::MAX - W10_MAX })
    );
    assert_eq!(w.mandatory.max_extrinsic, None);
    assert_eq!(w.mandatory.max_total, None);
    assert_eq!(w.mandatory.reserved, None);
    assert_eq!(w.normal.reserved, Some(Weight { ref_time: 0, proof_size: 0 }));
    assert_eq!(w.operational.reserved, Some(Weight { ref_time: 500_000_000_000, proof_size: u64::MAX - W75_MAX }));
    assert_eq!(w.normal.base_extrinsic, Weight { ref_time: 108_157_000, proof_size: 0 });
}

#[test]
fn assemble_puts_config_and_derived_values_together() {
    let c = runtime_block_weights_config();
    let one = Weight { ref_time: 1, proof_size: 2 };
    let d = DerivedWeights { max_block: one, normal_max_extrinsic: None, operational_max_extrinsic: Some(one), mandatory_max_extrinsic: None };
    let base = Weight { ref_time: 7, proof_size: 8 };
    let w = assemble_block_weights(base, one, c, d);
    assert_eq!(w.base_block, base);
    assert_eq!(w.mandatory.base_extrinsic, one);
    assert_eq!(w.max_block, one);
    assert_eq!(w.operational.max_extrinsic, Some(one));
    assert_eq!(w.normal.max_extrinsic, None);
    assert_eq!(w.operational.max_total, Some(c.operational_max_total));
    assert_eq!(w.normal.max_total, Some(c.normal_max_total));
}

#[test]
fn block_length_gives_normal_three_quarters() {
    let l = runtime_block_length();
    assert_eq!(MAX_BLOCK_LENGTH, 5 * 1024 * 1024);
    assert_eq!(l.normal, 3_932_160);
    assert_eq!(l.operational, 5_242_880);
    assert_eq!(l.mandatory, 5_242_880);
    assert_eq!(l.max_header_size, None);
}

fn sample_message() -> XCMPMessage<[u8; 32], u128> {
    let mut account = [0u8; 32];
    for (i, b) in account.iter_mut().enumerate() {
        *b = i as u8;
    }
    XCMPMessage::TransferToken(account, 0x0102_0304_0506_0708_090a_0b0c_0d0e_0f10)
}

#[test]
fn message_encoding_is_variant_then_fields() {
    let m = sample_message();
    let bytes = m.encode();
    assert_eq!(bytes.len(), ENCODED_LEN);
    assert_eq!(bytes[0], 0);
    assert_eq!(&bytes[1..33], &(0u8..32).collect::<Vec<u8>>()[..]);
    assert_eq!(&bytes[33..49], &[0x10, 0x0f, 0x0e, 0x0d, 0x0c, 0x0b, 0x0a, 0x09, 8, 7, 6, 5, 4, 3, 2, 1]);
}

#[test]
fn message_encoding_matches_scale_of_its_parts() {
    let XCMPMessage::TransferToken(account, balance) = sample_message();
    let expected = (0u8, account, balance).encode();
    assert_eq!(sample_message().encode(), expected);
}

#[test]
fn message_decodes_what_was_encoded() {
    let m = sample_message();
    let mut bytes = m.encode();
    bytes.extend_from_slice(&[9, 9, 9]);
    assert_eq!(XCMPMessage::decode(&bytes), Ok((m, ENCODED_LEN)));
}

#[test]
fn message_decode_errors() {
    assert_eq!(XCMPMessage::decode(&[]), Err(MessageDecodeError::InputTooShort));
    assert_eq!(XCMPMessage::decode(&[7, 0, 0]), Err(MessageDecodeError::UnknownVariant(7)));
    assert_eq!(XCMPMessage::decode(&[0u8; 48]), Err(MessageDecodeError::InputTooShort));
    assert_eq!(XCMPMessage::decode(&[0u8; 20]), Err(MessageDecodeError::InputTooShort));
    assert_eq!(XCMPMessage::decode(&[0u8; 49]), Ok((XCMPMessage::TransferToken([0u8; 32], 0), 49)));
}

#[test]
fn default_permissions_split_between_everyone_and_owner() {
    let p = default_space_permissions();
    assert!(p.none.is_none());
    assert!(p.follower.is_none());
    let everyone = p.everyone.unwrap().permissions;
    let owner = p.space_owner.unwrap().permissions;
    assert_eq!(everyone.len(), 13);
    assert_eq!(owner.len(), 18);
    assert!(everyone.contains(&SpacePermission::Upvote));
    assert!(everyone.contains(&SpacePermission::CreateComments));
    assert!(!everyone.contains(&SpacePermission::ManageRoles));
    assert!(owner.contains(&SpacePermission::ManageRoles));
    assert!(owner.contains(&SpacePermission::UpdateSpaceSettings));
    assert!(!owner.contains(&SpacePermission::Share));
    for q in &everyone {
        assert!(!owner.contains(q));
    }
    assert_eq!(owner[0], SpacePermission::ManageRoles);
    assert_eq!(owner[3], SpacePermission::UpdateSpace);
    assert_eq!(owner[4], SpacePermission::CreateSubspaces);
    assert_eq!(owner[8], SpacePermission::CreatePosts);
    assert_eq!(owner[12], SpacePermission::HideAnyComment);
    assert_eq!(owner[13], SpacePermission::OverrideSubspacePermissions);
    assert_eq!(owner[17], SpacePermission::UpdateSpaceSettings);
    assert_eq!(everyone[0], SpacePermission::UpdateOwnSubspaces);
    assert_eq!(everyone[12], SpacePermission::Share);
    for (i, q) in owner.iter().enumerate() {
        assert!(!owner[i + 1..].contains(q));
    }
}

#[test]
fn native_version_carries_runtime_version() {
    let apis = vec![([1u8; 8], 3u32), ([2u8; 8], 1u32)];
    let v = version(apis.clone());
    assert_eq!(v.spec_name, "cumulus-subsocial-parachain");
    assert_eq!(v.impl_name, "cumulus-subsocial-parachain");
    assert_eq!((v.authoring_version, v.spec_version, v.impl_version, v.transaction_version), (1, 1, 1, 1));
    assert_eq!(v.apis, apis);
    let n = native_version(apis.clone());
    assert_eq!(n.runtime_version, v);
    assert!(n.can_author_with.is_empty());
}

#[test]
fn pallet_parameters() {
    assert_eq!(SS58_PREFIX, 28);
    assert_eq!(EXISTENTIAL_DEPOSIT, 500);
    assert_eq!(DOWNVOTE_POST_ACTION_WEIGHT, -3);
    assert!(MIN_HANDLE_LEN <= MAX_HANDLE_LEN);
}
