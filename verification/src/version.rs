use crate::channel::Channel;
use crate::types::ProtocolVersion;
use vstd::prelude::*;

verus! {

/// Current protocol version used on the mainnet.
/// Some features (e. g. FixStorageUsage) require that there is at least one
/// epoch with exactly the corresponding version.
pub const STABLE_PROTOCOL_VERSION: ProtocolVersion = 70;

/// Version pinned by builds for the stateless-validation test network. It
/// stays where it is when features of that network are stabilized.
pub const STATELESSNET_PROTOCOL_VERSION: ProtocolVersion = 82;

/// Version advertised by nightly builds: big enough to support all features.
pub const NIGHTLY_PROTOCOL_VERSION: ProtocolVersion = 143;

/// Version reserved for resharding tests. It marks no release: no real
/// negotiation produces it, and only `SimpleNightshadeTestonly` carries it.
pub const TESTONLY_PROTOCOL_VERSION: ProtocolVersion = 100;

/// Both, outgoing and incoming tcp connections to peers, will be rejected if
/// `peer's` protocol version is lower than this.
pub const PEER_MIN_ALLOWED_PROTOCOL_VERSION: ProtocolVersion = STABLE_PROTOCOL_VERSION - 3;

/// A backward-incompatible change of protocol behaviour.
#[derive(Hash, PartialEq, Eq, Clone, Copy, Debug, Structural)]
pub enum ProtocolFeature {
    ImplicitAccountCreation,
    RectifyInflation,
    /// Add `AccessKey` nonce range by setting nonce to `(block_height - 1) * 1e6`.
    AccessKeyNonceRange,
    /// Don't process any receipts for shard when chunk is not present.
    /// Always use gas price computed in the previous block.
    FixApplyChunks,
    LowerStorageCost,
    DeleteActionRestriction,
    /// Add versions to `Account` data structure
    AccountVersions,
    TransactionSizeLimit,
    /// Fix a bug in `storage_usage` for account
    FixStorageUsage,
    /// Cap maximum gas price to 2,000,000,000 yoctoNEAR
    CapMaxGasPrice,
    CountRefundReceiptsInGasLimit,
    /// Add `ripemd60` and `ecrecover` host function
    MathExtension,
    /// Restore receipts that were previously stuck because of `FixApplyChunks`.
    RestoreReceiptsAfterFixApplyChunks,
    /// Switches the WASM engine from wasmer 0.* to wasmer 2.*.
    Wasmer2,
    SimpleNightshade,
    LowerDataReceiptAndEcrecoverBaseCost,
    /// Lowers the cost of wasm instruction due to switch to wasmer2.
    LowerRegularOpCost,
    /// Lowers the cost of wasm instruction due to switch to faster,
    /// compiler-intrinsics based gas counter.
    LowerRegularOpCost2,
    /// Limit number of wasm functions in one contract.
    LimitContractFunctionsNumber,
    BlockHeaderV3,
    /// Changes how we select validators for epoch and how we select validators
    /// within epoch.
    AliasValidatorSelectionAlgorithm,
    /// Make block producers produce chunks for the same block they would later
    /// produce to avoid network delays
    SynchronizeBlockChunkProduction,
    /// Change the algorithm to count WASM stack usage to avoid undercounting in
    /// some cases.
    CorrectStackLimit,
    /// Add `AccessKey` nonce range for implicit accounts, as in `AccessKeyNonceRange`.
    AccessKeyNonceForImplicitAccounts,
    /// Increase cost per deployed code byte to cover for the compilation steps
    /// that a deployment triggers. Only affects the action execution cost.
    IncreaseDeploymentCost,
    FunctionCallWeight,
    /// Enforces a global limit on the function local declarations in a
    /// WebAssembly contract.
    LimitContractLocals,
    /// Ensure caching all nodes in the chunk for which touching trie node cost
    /// was charged. Charge for each such node only once per chunk at the first
    /// access time.
    ChunkNodesCache,
    /// Lower `max_length_storage_key` limit, which itself limits trie node sizes.
    LowerStorageKeyLimit,
    /// `alt_bn128_g1_multiexp`, `alt_bn128_g1_sum`, `alt_bn128_pairing_check`
    /// host functions
    AltBn128,
    ChunkOnlyProducers,
    /// Ensure the total stake of validators that are kicked out does not exceed
    /// a percentage of total stakes
    MaxKickoutStake,
    /// Validate account id for function call access keys.
    AccountIdInFunctionCallPermission,
    /// Zero Balance Account (NEP 448)
    ZeroBalanceAccount,
    /// Execute a set of actions on behalf of another account (NEP 366).
    DelegateAction,
    Ed25519Verify,
    /// Decouple compute and gas costs of operations to safely limit the compute
    /// time it takes to process the chunk (NEP 455).
    ComputeCosts,
    /// Decrease the cost of function call action. Only affects the execution cost.
    DecreaseFunctionCallBaseCost,
    /// Enable flat storage for reads, reducing number of DB accesses from
    /// `2 * key.len()` in the worst case to 2 (NEP 399).
    FlatStorageReads,
    /// Enables preparation V2. Not supported in production without
    /// `NearVmRuntime` enabled alongside it.
    PreparationV2,
    /// Enables Near-Vm. Not supported without `PreparationV2`.
    NearVmRuntime,
    BlockHeaderV4,
    /// Resharding V2. A new implementation for resharding and a new shard
    /// layout for the production networks.
    SimpleNightshadeV2,
    /// Built on top of Resharding V2. Changes shard layout to V3 to split shard
    /// 2 into two parts.
    SimpleNightshadeV3,
    /// In case not all validator seats are occupied, the minimal seat price is
    /// reported as `alpha * sum_stake` instead of
    /// `alpha * sum_stake / (1 - alpha)`, where `alpha` is the min stake ratio.
    FixStakingThreshold,
    /// Charge for contract loading before it happens.
    FixContractLoadingCost,
    RejectBlocksWithOutdatedProtocolVersions,
    /// Allows creating an account with a non refundable balance to cover
    /// storage costs (NEP 491).
    NonrefundableStorage,
    /// BLS12-381 host functions (NEP 488).
    BLS12381,
    RestrictTla,
    /// Increases the number of chunk producers.
    TestnetFewerBlockProducers,
    /// Enables stateless validation (NEP 509).
    StatelessValidationV0,
    EthImplicitAccounts,
    /// Enables yield execution (NEP 519).
    YieldExecution,
    /// Protocol version reserved for use in resharding tests.
    SimpleNightshadeTestonly,
    /// Stateless validation: lower block and chunk validator kickout percent
    /// from 90 to 50.
    LowerValidatorKickoutPercentForDebugging,
    /// Stateless validation: single shard tracking.
    SingleShardTracking,
    /// Stateless validation: state witness size limits.
    StateWitnessSizeLimit,
    /// Shuffle shard assignments for chunk producers at every epoch.
    ShuffleShardAssignments,
    /// Stateless validation: limit the size of storage proof generated by a
    /// single receipt. Receipts which generate storage proofs larger than this
    /// limit will be rejected.
    PerReceiptHardStorageProofLimit,
    /// Cross-shard congestion control (NEP 539).
    CongestionControl,
    /// Remove account with long storage key.
    RemoveAccountWithLongStorageKey,
    /// Stateless validation: distribute state witness as reed solomon encoded
    /// parts
    PartialEncodedStateWitness,
    /// Size limits for transactions included in a ChunkStateWitness.
    WitnessTransactionLimits,
    /// Size limit on outgoing receipts.
    OutgoingReceiptsSizeLimit,
    /// No chunk-only producers in stateless validation
    NoChunkOnlyProducers,
    /// Decrease the ratio of data parts in the Reed Solomon encoding for
    /// partial witness distribution.
    ChangePartialWitnessDataPartsRequired,
    /// Increase the `combined_transactions_size_limit` to 4MiB to allow higher
    /// throughput.
    BiggerCombinedTransactionLimit,
    /// Increase gas cost of sending receipt to another account to 50 TGas / MiB
    HigherSendingCost,
}

impl ProtocolFeature {
    /// The version table: for each feature, in the order of their
    /// declaration, the protocol version that introduces it. Features with
    /// one version are introduced together.
    pub open spec fn version(self) -> nat {
        match self {
            ProtocolFeature::ImplicitAccountCreation => 35,
            ProtocolFeature::RectifyInflation => 45,
            ProtocolFeature::AccessKeyNonceRange => 45,
            ProtocolFeature::FixApplyChunks => 44,
            ProtocolFeature::LowerStorageCost => 42,
            ProtocolFeature::DeleteActionRestriction => 43,
            ProtocolFeature::AccountVersions => 46,
            ProtocolFeature::TransactionSizeLimit => 46,
            ProtocolFeature::FixStorageUsage => 46,
            ProtocolFeature::CapMaxGasPrice => 46,
            ProtocolFeature::CountRefundReceiptsInGasLimit => 46,
            ProtocolFeature::MathExtension => 46,
            ProtocolFeature::RestoreReceiptsAfterFixApplyChunks => 47,
            ProtocolFeature::Wasmer2 => 48,
            ProtocolFeature::SimpleNightshade => 48,
            ProtocolFeature::LowerDataReceiptAndEcrecoverBaseCost => 48,
            ProtocolFeature::LowerRegularOpCost => 48,
            ProtocolFeature::LowerRegularOpCost2 => 49,
            ProtocolFeature::LimitContractFunctionsNumber => 49,
            ProtocolFeature::BlockHeaderV3 => 49,
            ProtocolFeature::AliasValidatorSelectionAlgorithm => 49,
            ProtocolFeature::SynchronizeBlockChunkProduction => 50,
            ProtocolFeature::CorrectStackLimit => 50,
            ProtocolFeature::AccessKeyNonceForImplicitAccounts => 51,
            ProtocolFeature::IncreaseDeploymentCost => 53,
            ProtocolFeature::FunctionCallWeight => 53,
            ProtocolFeature::LimitContractLocals => 53,
            ProtocolFeature::ChunkNodesCache => 53,
            ProtocolFeature::LowerStorageKeyLimit => 53,
            ProtocolFeature::AltBn128 => 55,
            ProtocolFeature::ChunkOnlyProducers => 56,
            ProtocolFeature::MaxKickoutStake => 56,
            ProtocolFeature::AccountIdInFunctionCallPermission => 57,
            ProtocolFeature::ZeroBalanceAccount => 59,
            ProtocolFeature::DelegateAction => 59,
            ProtocolFeature::Ed25519Verify => 59,
            ProtocolFeature::ComputeCosts => 61,
            ProtocolFeature::DecreaseFunctionCallBaseCost => 66,
            ProtocolFeature::FlatStorageReads => 61,
            ProtocolFeature::PreparationV2 => 62,
            ProtocolFeature::NearVmRuntime => 62,
            ProtocolFeature::BlockHeaderV4 => 63,
            ProtocolFeature::SimpleNightshadeV2 => 64,
            ProtocolFeature::SimpleNightshadeV3 => 65,
            ProtocolFeature::FixStakingThreshold => 126,
            ProtocolFeature::FixContractLoadingCost => 129,
            ProtocolFeature::RejectBlocksWithOutdatedProtocolVersions => 132,
            ProtocolFeature::NonrefundableStorage => 140,
            ProtocolFeature::BLS12381 => 141,
            ProtocolFeature::RestrictTla => 64,
            ProtocolFeature::TestnetFewerBlockProducers => 64,
            ProtocolFeature::StatelessValidationV0 => 69,
            ProtocolFeature::EthImplicitAccounts => 70,
            ProtocolFeature::YieldExecution => 67,
            ProtocolFeature::SimpleNightshadeTestonly => 100,
            ProtocolFeature::LowerValidatorKickoutPercentForDebugging => 69,
            ProtocolFeature::SingleShardTracking => 69,
            ProtocolFeature::StateWitnessSizeLimit => 69,
            ProtocolFeature::ShuffleShardAssignments => 143,
            ProtocolFeature::PerReceiptHardStorageProofLimit => 69,
            ProtocolFeature::CongestionControl => 68,
            ProtocolFeature::RemoveAccountWithLongStorageKey => 68,
            ProtocolFeature::PartialEncodedStateWitness => 69,
            ProtocolFeature::WitnessTransactionLimits => 69,
            ProtocolFeature::OutgoingReceiptsSizeLimit => 69,
            ProtocolFeature::NoChunkOnlyProducers => 69,
            ProtocolFeature::ChangePartialWitnessDataPartsRequired => 69,
            ProtocolFeature::BiggerCombinedTransactionLimit => 69,
            ProtocolFeature::HigherSendingCost => 69,
        }
    }

    /// Whether the feature is in force once the network has agreed on
    /// `protocol_version`.
    pub open spec fn enabled_at(self, protocol_version: nat) -> bool {
        protocol_version >= self.version()
    }

    /// The channel that the feature is gated behind: a build of another
    /// channel does not hold it. `None` for a feature that every build holds.
    pub open spec fn gate(self) -> Option<Channel> {
        match self {
            ProtocolFeature::FixStakingThreshold
            | ProtocolFeature::FixContractLoadingCost
            | ProtocolFeature::RejectBlocksWithOutdatedProtocolVersions
            | ProtocolFeature::NonrefundableStorage
            | ProtocolFeature::BLS12381 => Some(Channel::Nightly),
            _ => None,
        }
    }

    /// Released on the stable channel.
    pub open spec fn is_stable(self) -> bool {
        self.version() <= STABLE_PROTOCOL_VERSION
    }

    /// Experimental: its version lies in the range above the test-only
    /// marker, which only nightly builds reach.
    pub open spec fn is_experimental(self) -> bool {
        self.version() > TESTONLY_PROTOCOL_VERSION
    }

    /// The protocol version that introduces this feature. It depends on the
    /// feature alone: every call gives what the version table holds.
    pub fn protocol_version(self) -> (version: ProtocolVersion)
        ensures
            version == self.version(),
    {
        match self {
            // Stable features
            ProtocolFeature::ImplicitAccountCreation => 35,
            ProtocolFeature::LowerStorageCost => 42,
            ProtocolFeature::DeleteActionRestriction => 43,
            ProtocolFeature::FixApplyChunks => 44,
            ProtocolFeature::RectifyInflation | ProtocolFeature::AccessKeyNonceRange => 45,
            ProtocolFeature::AccountVersions
            | ProtocolFeature::TransactionSizeLimit
            | ProtocolFeature::FixStorageUsage
            | ProtocolFeature::CapMaxGasPrice
            | ProtocolFeature::CountRefundReceiptsInGasLimit
            | ProtocolFeature::MathExtension => 46,
            ProtocolFeature::RestoreReceiptsAfterFixApplyChunks => 47,
            ProtocolFeature::Wasmer2
            | ProtocolFeature::LowerDataReceiptAndEcrecoverBaseCost
            | ProtocolFeature::LowerRegularOpCost
            | ProtocolFeature::SimpleNightshade => 48,
            ProtocolFeature::LowerRegularOpCost2
            | ProtocolFeature::LimitContractFunctionsNumber
            | ProtocolFeature::BlockHeaderV3
            | ProtocolFeature::AliasValidatorSelectionAlgorithm => 49,
            ProtocolFeature::SynchronizeBlockChunkProduction
            | ProtocolFeature::CorrectStackLimit => 50,
            ProtocolFeature::AccessKeyNonceForImplicitAccounts => 51,
            ProtocolFeature::IncreaseDeploymentCost
            | ProtocolFeature::FunctionCallWeight
            | ProtocolFeature::LimitContractLocals
            | ProtocolFeature::ChunkNodesCache
            | ProtocolFeature::LowerStorageKeyLimit => 53,
            ProtocolFeature::AltBn128 => 55,
            ProtocolFeature::ChunkOnlyProducers | ProtocolFeature::MaxKickoutStake => 56,
            ProtocolFeature::AccountIdInFunctionCallPermission => 57,
            ProtocolFeature::Ed25519Verify
            | ProtocolFeature::ZeroBalanceAccount
            | ProtocolFeature::DelegateAction => 59,
            ProtocolFeature::ComputeCosts | ProtocolFeature::FlatStorageReads => 61,
            ProtocolFeature::PreparationV2 | ProtocolFeature::NearVmRuntime => 62,
            ProtocolFeature::BlockHeaderV4 => 63,
            ProtocolFeature::RestrictTla
            | ProtocolFeature::TestnetFewerBlockProducers
            | ProtocolFeature::SimpleNightshadeV2 => 64,
            ProtocolFeature::SimpleNightshadeV3 => 65,
            ProtocolFeature::DecreaseFunctionCallBaseCost => 66,
            ProtocolFeature::YieldExecution => 67,
            ProtocolFeature::CongestionControl
            | ProtocolFeature::RemoveAccountWithLongStorageKey => 68,
            // Stateless validation features.
            ProtocolFeature::StatelessValidationV0
            | ProtocolFeature::LowerValidatorKickoutPercentForDebugging
            | ProtocolFeature::SingleShardTracking
            | ProtocolFeature::StateWitnessSizeLimit
            | ProtocolFeature::PerReceiptHardStorageProofLimit
            | ProtocolFeature::PartialEncodedStateWitness
            | ProtocolFeature::WitnessTransactionLimits
            | ProtocolFeature::OutgoingReceiptsSizeLimit
            | ProtocolFeature::NoChunkOnlyProducers
            | ProtocolFeature::ChangePartialWitnessDataPartsRequired
            | ProtocolFeature::BiggerCombinedTransactionLimit
            | ProtocolFeature::HigherSendingCost => 69,
            ProtocolFeature::EthImplicitAccounts => 70,

            // Reserved for resharding tests: an extra resharding is simulated
            // on top of the latest shard layout in production. Later protocol
            // versions still have the production layout.
            ProtocolFeature::SimpleNightshadeTestonly => 100,

            // Nightly features
            ProtocolFeature::FixStakingThreshold => 126,
            ProtocolFeature::FixContractLoadingCost => 129,
            ProtocolFeature::RejectBlocksWithOutdatedProtocolVersions => 132,
            ProtocolFeature::NonrefundableStorage => 140,
            ProtocolFeature::BLS12381 => 141,
            ProtocolFeature::ShuffleShardAssignments => 143,
        }
    }

    /// The channel that the feature is gated behind, if any.
    pub fn required_channel(self) -> (channel: Option<Channel>)
        ensures
            channel == self.gate(),
    {
        match self {
            ProtocolFeature::FixStakingThreshold
            | ProtocolFeature::FixContractLoadingCost
            | ProtocolFeature::RejectBlocksWithOutdatedProtocolVersions
            | ProtocolFeature::NonrefundableStorage
            | ProtocolFeature::BLS12381 => Some(Channel::Nightly),
            _ => None,
        }
    }

    /// Whether builds of `channel` may hold the feature.
    pub fn available_in(self, channel: Channel) -> (available: bool)
        ensures
            available == (self.gate() is None || self.gate() == Some(channel)),
    {
        match self.required_channel() {
            None => true,
            Some(required) => required == channel,
        }
    }

    /// Whether the feature is in force at `protocol_version`: whether that
    /// version has reached the version of the feature.
    pub fn enabled(&self, protocol_version: ProtocolVersion) -> (enabled: bool)
        ensures
            enabled == self.enabled_at(protocol_version as nat),
    {
        protocol_version >= self.protocol_version()
    }
}

/// A feature turns on exactly at its version: one version below it the
/// feature is off, at it the feature is on.
pub proof fn lemma_gate_boundary(feature: ProtocolFeature)
    ensures
        feature.version() >= 1,
        !feature.enabled_at((feature.version() - 1) as nat),
        feature.enabled_at(feature.version()),
{
}

/// A feature that is in force stays in force at every later version.
pub proof fn lemma_gate_is_monotonic(feature: ProtocolFeature, lower: nat, higher: nat)
    requires
        lower <= higher,
        feature.enabled_at(lower),
    ensures
        feature.enabled_at(higher),
{
}

/// Versions fall into three separate ranges: those of the stable releases,
/// the one reserved for tests, and above it the experimental ones, which
/// end at the version of nightly builds. Every feature is in exactly one.
pub proof fn lemma_version_ranges(feature: ProtocolFeature)
    ensures
        1 <= feature.version() <= NIGHTLY_PROTOCOL_VERSION,
        feature.is_stable() || feature.version() == TESTONLY_PROTOCOL_VERSION
            || feature.is_experimental(),
        STABLE_PROTOCOL_VERSION < TESTONLY_PROTOCOL_VERSION < NIGHTLY_PROTOCOL_VERSION,
{
}

/// The version reserved for tests belongs to `SimpleNightshadeTestonly`
/// alone: no other feature of the table has it.
pub proof fn lemma_testonly_version_is_isolated(feature: ProtocolFeature)
    ensures
        feature.version() == TESTONLY_PROTOCOL_VERSION <==> feature
            == ProtocolFeature::SimpleNightshadeTestonly,
{
}

/// Only experimental features are gated, and all of them behind the nightly
/// channel.
pub proof fn lemma_gated_is_experimental(feature: ProtocolFeature)
    requires
        feature.gate() is Some,
    ensures
        feature.gate() == Some(Channel::Nightly),
        feature.is_experimental(),
{
}

} // verus!
