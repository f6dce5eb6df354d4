use near_primitives_core::types::ProtocolVersion;
use near_primitives_core::version::{
    ProtocolFeature, NIGHTLY_PROTOCOL_VERSION, PEER_MIN_ALLOWED_PROTOCOL_VERSION,
    STABLE_PROTOCOL_VERSION, STATELESSNET_PROTOCOL_VERSION, TESTONLY_PROTOCOL_VERSION,
};

/// Every feature with the version that introduces it.
fn table() -> Vec<(ProtocolFeature, ProtocolVersion)> {
    vec![
        (ProtocolFeature::ImplicitAccountCreation, 35),
        (ProtocolFeature::LowerStorageCost, 42),
        (ProtocolFeature::DeleteActionRestriction, 43),
        (ProtocolFeature::FixApplyChunks, 44),
        (ProtocolFeature::RectifyInflation, 45),
        (ProtocolFeature::AccessKeyNonceRange, 45),
        (ProtocolFeature::AccountVersions, 46),
        (ProtocolFeature::TransactionSizeLimit, 46),
        (ProtocolFeature::FixStorageUsage, 46),
        (ProtocolFeature::CapMaxGasPrice, 46),
        (ProtocolFeature::CountRefundReceiptsInGasLimit, 46),
        (ProtocolFeature::MathExtension, 46),
        (ProtocolFeature::RestoreReceiptsAfterFixApplyChunks, 47),
        (ProtocolFeature::Wasmer2, 48),
        (ProtocolFeature::LowerDataReceiptAndEcrecoverBaseCost, 48),
        (ProtocolFeature::LowerRegularOpCost, 48),
        (ProtocolFeature::SimpleNightshade, 48),
        (ProtocolFeature::LowerRegularOpCost2, 49),
        (ProtocolFeature::LimitContractFunctionsNumber, 49),
        (ProtocolFeature::BlockHeaderV3, 49),
        (ProtocolFeature::AliasValidatorSelectionAlgorithm, 49),
        (ProtocolFeature::SynchronizeBlockChunkProduction, 50),
        (ProtocolFeature::CorrectStackLimit, 50),
        (ProtocolFeature::AccessKeyNonceForImplicitAccounts, 51),
        (ProtocolFeature::IncreaseDeploymentCost, 53),
        (ProtocolFeature::FunctionCallWeight, 53),
        (ProtocolFeature::LimitContractLocals, 53),
        (ProtocolFeature::ChunkNodesCache, 53),
        (ProtocolFeature::LowerStorageKeyLimit, 53),
        (ProtocolFeature::AltBn128, 55),
        (ProtocolFeature::ChunkOnlyProducers, 56),
        (ProtocolFeature::MaxKickoutStake, 56),
        (ProtocolFeature::AccountIdInFunctionCallPermission, 57),
        (ProtocolFeature::Ed25519Verify, 59),
        (ProtocolFeature::ZeroBalanceAccount, 59),
        (ProtocolFeature::DelegateAction, 59),
        (ProtocolFeature::ComputeCosts, 61),
        (ProtocolFeature::FlatStorageReads, 61),
        (ProtocolFeature::PreparationV2, 62),
        (ProtocolFeature::NearVmRuntime, 62),
        (ProtocolFeature::BlockHeaderV4, 63),
        (ProtocolFeature::RestrictTla, 64),
        (ProtocolFeature::TestnetFewerBlockProducers, 64),
        (ProtocolFeature::SimpleNightshadeV2, 64),
        (ProtocolFeature::SimpleNightshadeV3, 65),
        (ProtocolFeature::DecreaseFunctionCallBaseCost, 66),
        (ProtocolFeature::YieldExecution, 67),
        (ProtocolFeature::CongestionControl, 68),
        (ProtocolFeature::RemoveAccountWithLongStorageKey, 68),
        (ProtocolFeature::StatelessValidationV0, 69),
        (ProtocolFeature::LowerValidatorKickoutPercentForDebugging, 69),
        (ProtocolFeature::SingleShardTracking, 69),
        (ProtocolFeature::StateWitnessSizeLimit, 69),
        (ProtocolFeature::PerReceiptHardStorageProofLimit, 69),
        (ProtocolFeature::PartialEncodedStateWitness, 69),
        (ProtocolFeature::WitnessTransactionLimits, 69),
        (ProtocolFeature::OutgoingReceiptsSizeLimit, 69),
        (ProtocolFeature::NoChunkOnlyProducers, 69),
        (ProtocolFeature::ChangePartialWitnessDataPartsRequired, 69),
        (ProtocolFeature::BiggerCombinedTransactionLimit, 69),
        (ProtocolFeature::HigherSendingCost, 69),
        (ProtocolFeature::EthImplicitAccounts, 70),
        (ProtocolFeature::SimpleNightshadeTestonly, 100),
        (ProtocolFeature::FixStakingThreshold, 126),
        (ProtocolFeature::FixContractLoadingCost, 129),
        (ProtocolFeature::RejectBlocksWithOutdatedProtocolVersions, 132),
        (ProtocolFeature::NonrefundableStorage, 140),
        (ProtocolFeature::BLS12381, 141),
        (ProtocolFeature::ShuffleShardAssignments, 143),
    ]
}

#[test]
fn table_lists_every_feature_once() {
    let table = table();
    assert_eq!(table.len(), 69);
    for (i, (feature, _)) in table.iter().enumerate() {
        for (other, _) in table.iter().skip(i + 1) {
            assert_ne!(feature, other);
        }
    }
}

#[test]
fn protocol_version_follows_the_table() {
    for (feature, version) in table() {
        assert_eq!(feature.protocol_version(), version, "{:?}", feature);
    }
}

#[test]
fn protocol_version_is_stable_across_calls() {
    for (feature, _) in table() {
        let first = feature.protocol_version();
        let second = feature.protocol_version();
        assert_eq!(first, second);
        assert_eq!(feature.clone().protocol_version(), first);
    }
}

#[test]
fn protocol_version_is_positive() {
    for (feature, _) in table() {
        assert!(feature.protocol_version() >= 1);
    }
}

#[test]
fn constants_have_their_values() {
    assert_eq!(STABLE_PROTOCOL_VERSION, 70);
    assert_eq!(STATELESSNET_PROTOCOL_VERSION, 82);
    assert_eq!(NIGHTLY_PROTOCOL_VERSION, 143);
    assert_eq!(TESTONLY_PROTOCOL_VERSION, 100);
    assert_eq!(PEER_MIN_ALLOWED_PROTOCOL_VERSION, 67);
    assert_eq!(PEER_MIN_ALLOWED_PROTOCOL_VERSION, STABLE_PROTOCOL_VERSION - 3);
}

#[test]
fn enabled_compares_with_the_version() {
    let versions: Vec<ProtocolVersion> =
        vec![0, 1, 34, 35, 36, 44, 45, 46, 69, 70, 71, 99, 100, 101, 125, 126, 142, 143, 144];
    for (feature, version) in table() {
        for negotiated in versions.iter() {
            assert_eq!(feature.enabled(*negotiated), *negotiated >= version);
        }
        assert!(feature.enabled(ProtocolVersion::MAX));
        assert!(!feature.enabled(0));
    }
}

#[test]
fn enabled_turns_on_at_the_version() {
    for (feature, _) in table() {
        let version = feature.protocol_version();
        assert!(!feature.enabled(version - 1), "{:?}", feature);
        assert!(feature.enabled(version), "{:?}", feature);
        assert!(feature.enabled(version + 1), "{:?}", feature);
    }
}

#[test]
fn enabled_stays_on_at_later_versions() {
    for (feature, version) in table() {
        let mut negotiated = version;
        while negotiated <= 150 {
            assert!(feature.enabled(negotiated));
            negotiated += 1;
        }
    }
}

#[test]
fn features_of_one_version_turn_on_together() {
    let first = ProtocolFeature::Ed25519Verify;
    let second = ProtocolFeature::ZeroBalanceAccount;
    let later = ProtocolFeature::ComputeCosts;
    assert_eq!(first.protocol_version(), second.protocol_version());
    assert_eq!(later.protocol_version(), first.protocol_version() + 2);
    let negotiated = first.protocol_version() + 1;
    assert_eq!(first.enabled(negotiated), true);
    assert_eq!(second.enabled(negotiated), true);
    assert_eq!(later.enabled(negotiated), false);
}

#[test]
fn whole_bundle_turns_on_at_once() {
    let bundle = [
        ProtocolFeature::AccountVersions,
        ProtocolFeature::TransactionSizeLimit,
        ProtocolFeature::FixStorageUsage,
        ProtocolFeature::CapMaxGasPrice,
        ProtocolFeature::CountRefundReceiptsInGasLimit,
        ProtocolFeature::MathExtension,
    ];
    for feature in bundle {
        assert!(!feature.enabled(45));
        assert!(feature.enabled(46));
    }
}

#[test]
fn release_order_is_version_order() {
    let table = table();
    for pair in table.windows(2) {
        assert!(pair[0].0.protocol_version() <= pair[1].0.protocol_version());
    }
}

#[test]
fn testonly_version_belongs_to_one_feature() {
    for (feature, _) in table() {
        assert_eq!(
            feature.protocol_version() == TESTONLY_PROTOCOL_VERSION,
            feature == ProtocolFeature::SimpleNightshadeTestonly
        );
    }
    assert_eq!(ProtocolFeature::SimpleNightshadeTestonly.protocol_version(), 100);
}

#[test]
fn versions_fall_into_three_ranges() {
    for (feature, _) in table() {
        let version = feature.protocol_version();
        let stable = version <= STABLE_PROTOCOL_VERSION;
        let testonly = version == TESTONLY_PROTOCOL_VERSION;
        let experimental =
            version > TESTONLY_PROTOCOL_VERSION && version <= NIGHTLY_PROTOCOL_VERSION;
        assert_eq!(
            [stable, testonly, experimental].iter().filter(|hit| **hit).count(),
            1,
            "{:?}",
            feature
        );
    }
}

#[test]
fn nightly_version_is_the_largest_of_the_table() {
    let largest = table().iter().map(|(feature, _)| feature.protocol_version()).max();
    assert_eq!(largest, Some(NIGHTLY_PROTOCOL_VERSION));
    for (feature, _) in table() {
        assert!(feature.enabled(NIGHTLY_PROTOCOL_VERSION));
    }
}

#[test]
fn stable_version_is_the_largest_stable_one() {
    assert_eq!(ProtocolFeature::EthImplicitAccounts.protocol_version(), STABLE_PROTOCOL_VERSION);
    let below_testonly = table()
        .iter()
        .map(|(feature, _)| feature.protocol_version())
        .filter(|version| *version < TESTONLY_PROTOCOL_VERSION)
        .max();
    assert_eq!(below_testonly, Some(STABLE_PROTOCOL_VERSION));
}
