use crate::version::{ProtocolFeature, STABLE_PROTOCOL_VERSION, TESTONLY_PROTOCOL_VERSION};
use vstd::prelude::*;

verus! {

/// A release of the stable channel.
pub struct Release {
    /// The protocol version that the release brought.
    pub version: nat,
    /// The features that the release activates, all of them together.
    pub features: Set<ProtocolFeature>,
}

/// The releases of the stable channel, oldest first.
pub open spec fn stable_releases() -> Seq<Release> {
    seq![
        Release { version: 35, features: set![ProtocolFeature::ImplicitAccountCreation] },
        Release { version: 42, features: set![ProtocolFeature::LowerStorageCost] },
        Release { version: 43, features: set![ProtocolFeature::DeleteActionRestriction] },
        Release { version: 44, features: set![ProtocolFeature::FixApplyChunks] },
        Release {
            version: 45,
            features: set![
                ProtocolFeature::RectifyInflation,
                ProtocolFeature::AccessKeyNonceRange
            ],
        },
        Release {
            version: 46,
            features: set![
                ProtocolFeature::AccountVersions,
                ProtocolFeature::TransactionSizeLimit,
                ProtocolFeature::FixStorageUsage,
                ProtocolFeature::CapMaxGasPrice,
                ProtocolFeature::CountRefundReceiptsInGasLimit,
                ProtocolFeature::MathExtension
            ],
        },
        Release {
            version: 47,
            features: set![ProtocolFeature::RestoreReceiptsAfterFixApplyChunks],
        },
        Release {
            version: 48,
            features: set![
                ProtocolFeature::Wasmer2,
                ProtocolFeature::LowerDataReceiptAndEcrecoverBaseCost,
                ProtocolFeature::LowerRegularOpCost,
                ProtocolFeature::SimpleNightshade
            ],
        },
        Release {
            version: 49,
            features: set![
                ProtocolFeature::LowerRegularOpCost2,
                ProtocolFeature::LimitContractFunctionsNumber,
                ProtocolFeature::BlockHeaderV3,
                ProtocolFeature::AliasValidatorSelectionAlgorithm
            ],
        },
        Release {
            version: 50,
            features: set![
                ProtocolFeature::SynchronizeBlockChunkProduction,
                ProtocolFeature::CorrectStackLimit
            ],
        },
        Release { version: 51, features: set![ProtocolFeature::AccessKeyNonceForImplicitAccounts] },
        Release {
            version: 53,
            features: set![
                ProtocolFeature::IncreaseDeploymentCost,
                ProtocolFeature::FunctionCallWeight,
                ProtocolFeature::LimitContractLocals,
                ProtocolFeature::ChunkNodesCache,
                ProtocolFeature::LowerStorageKeyLimit
            ],
        },
        Release { version: 55, features: set![ProtocolFeature::AltBn128] },
        Release {
            version: 56,
            features: set![ProtocolFeature::ChunkOnlyProducers, ProtocolFeature::MaxKickoutStake],
        },
        Release { version: 57, features: set![ProtocolFeature::AccountIdInFunctionCallPermission] },
        Release {
            version: 59,
            features: set![
                ProtocolFeature::Ed25519Verify,
                ProtocolFeature::ZeroBalanceAccount,
                ProtocolFeature::DelegateAction
            ],
        },
        Release {
            version: 61,
            features: set![ProtocolFeature::ComputeCosts, ProtocolFeature::FlatStorageReads],
        },
        Release {
            version: 62,
            features: set![ProtocolFeature::PreparationV2, ProtocolFeature::NearVmRuntime],
        },
        Release { version: 63, features: set![ProtocolFeature::BlockHeaderV4] },
        Release {
            version: 64,
            features: set![
                ProtocolFeature::RestrictTla,
                ProtocolFeature::TestnetFewerBlockProducers,
                ProtocolFeature::SimpleNightshadeV2
            ],
        },
        Release { version: 65, features: set![ProtocolFeature::SimpleNightshadeV3] },
        Release { version: 66, features: set![ProtocolFeature::DecreaseFunctionCallBaseCost] },
        Release { version: 67, features: set![ProtocolFeature::YieldExecution] },
        Release {
            version: 68,
            features: set![
                ProtocolFeature::CongestionControl,
                ProtocolFeature::RemoveAccountWithLongStorageKey
            ],
        },
        Release {
            version: 69,
            features: set![
                ProtocolFeature::StatelessValidationV0,
                ProtocolFeature::LowerValidatorKickoutPercentForDebugging,
                ProtocolFeature::SingleShardTracking,
                ProtocolFeature::StateWitnessSizeLimit,
                ProtocolFeature::PerReceiptHardStorageProofLimit,
                ProtocolFeature::PartialEncodedStateWitness,
                ProtocolFeature::WitnessTransactionLimits,
                ProtocolFeature::OutgoingReceiptsSizeLimit,
                ProtocolFeature::NoChunkOnlyProducers,
                ProtocolFeature::ChangePartialWitnessDataPartsRequired,
                ProtocolFeature::BiggerCombinedTransactionLimit,
                ProtocolFeature::HigherSendingCost
            ],
        },
        Release { version: 70, features: set![ProtocolFeature::EthImplicitAccounts] },
    ]
}

/// Whether `index` is the position of a release in the log.
pub open spec fn is_release(index: int) -> bool {
    0 <= index < stable_releases().len()
}

/// A later release carries a higher version: no version is given out twice,
/// and none falls back behind an earlier one.
pub proof fn lemma_releases_ascend(earlier: int, later: int)
    requires
        is_release(earlier),
        is_release(later),
        earlier < later,
    ensures
        stable_releases()[earlier].version < stable_releases()[later].version,
{
}

/// The log and the version table agree: a release activates exactly the
/// features that the table puts at the version of that release.
pub proof fn lemma_release_is_bundle(index: int, feature: ProtocolFeature)
    requires
        is_release(index),
    ensures
        stable_releases()[index].features.contains(feature) <==> feature.version()
            == stable_releases()[index].version,
{
}

/// Features released in historical order have versions in that order: of two
/// features, the one of the later release has no lower version.
pub proof fn lemma_release_order(
    earlier: int,
    later: int,
    first: ProtocolFeature,
    second: ProtocolFeature,
)
    requires
        is_release(earlier),
        is_release(later),
        earlier <= later,
        stable_releases()[earlier].features.contains(first),
        stable_releases()[later].features.contains(second),
    ensures
        first.version() <= second.version(),
{
    lemma_release_is_bundle(earlier, first);
    lemma_release_is_bundle(later, second);
    if earlier < later {
        lemma_releases_ascend(earlier, later);
    }
}

/// The features of one release become active together: at every protocol
/// version either all of them are in force or none is.
pub proof fn lemma_release_is_atomic(
    index: int,
    first: ProtocolFeature,
    second: ProtocolFeature,
    protocol_version: nat,
)
    requires
        is_release(index),
        stable_releases()[index].features.contains(first),
        stable_releases()[index].features.contains(second),
    ensures
        first.enabled_at(protocol_version) == second.enabled_at(protocol_version),
{
    lemma_release_is_bundle(index, first);
    lemma_release_is_bundle(index, second);
}

/// The position in the log of the release that activates a stable feature,
/// searched downwards from `from`.
proof fn release_of(feature: ProtocolFeature, from: int) -> (index: int)
    requires
        is_release(from),
        feature.version() <= stable_releases()[from].version,
    ensures
        is_release(index),
        stable_releases()[index].features.contains(feature),
    decreases from,
{
    lemma_release_is_bundle(from, feature);
    if stable_releases()[from].version == feature.version() {
        from
    } else {
        release_of(feature, from - 1)
    }
}

/// The log leaves out no stable feature, and holds nothing else: a feature
/// is part of some release exactly if its version is at most the stable one.
pub proof fn lemma_releases_complete(feature: ProtocolFeature)
    ensures
        feature.is_stable() <==> exists|index: int|
            is_release(index) && #[trigger] stable_releases()[index].features.contains(feature),
{
    if feature.is_stable() {
        let index = release_of(feature, stable_releases().len() - 1);
        assert(is_release(index) && stable_releases()[index].features.contains(feature));
    }
    assert forall|index: int|
        is_release(index) && #[trigger] stable_releases()[index].features.contains(
            feature,
        ) implies feature.is_stable() by {
        lemma_release_is_bundle(index, feature);
    }
}

/// The last release of the log is the current stable one.
pub proof fn lemma_last_release_is_stable()
    ensures
        stable_releases().len() > 0,
        stable_releases().last().version == STABLE_PROTOCOL_VERSION,
{
}

/// The version reserved for tests marks no release, and no release activates
/// the feature that carries it.
pub proof fn lemma_testonly_is_no_release(index: int)
    requires
        is_release(index),
    ensures
        stable_releases()[index].version != TESTONLY_PROTOCOL_VERSION,
        !stable_releases()[index].features.contains(ProtocolFeature::SimpleNightshadeTestonly),
{
}

} // verus!
