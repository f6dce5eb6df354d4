use crate::channel::Channel;
use crate::types::ProtocolVersion;
use crate::version::ProtocolFeature;
use vstd::prelude::*;

verus! {

/// Why a set of build switches describes no build.
#[derive(PartialEq, Eq, Clone, Copy, Debug, Structural)]
pub enum BuildConfigError {
    /// More than one channel switch is set.
    MultipleChannels,
    /// The switch of this feature is set in a build of a channel other than
    /// the one that the feature is gated behind.
    SwitchOutsideChannel(ProtocolFeature),
}

/// The switches of the gated features, one each: a gated feature is part of
/// a build only when its switch is set.
#[derive(PartialEq, Eq, Clone, Copy, Debug, Structural)]
pub struct FeatureSwitches {
    pub fix_staking_threshold: bool,
    pub fix_contract_loading_cost: bool,
    pub reject_blocks_with_outdated_protocol_version: bool,
    pub nonrefundable_transfer_nep491: bool,
    pub bls12381: bool,
}

impl FeatureSwitches {
    /// Whether the switch of `feature` is set. A feature that every build
    /// holds has no switch.
    pub open spec fn is_on(self, feature: ProtocolFeature) -> bool {
        match feature {
            ProtocolFeature::FixStakingThreshold => self.fix_staking_threshold,
            ProtocolFeature::FixContractLoadingCost => self.fix_contract_loading_cost,
            ProtocolFeature::RejectBlocksWithOutdatedProtocolVersions => {
                self.reject_blocks_with_outdated_protocol_version
            },
            ProtocolFeature::NonrefundableStorage => self.nonrefundable_transfer_nep491,
            ProtocolFeature::BLS12381 => self.bls12381,
            _ => false,
        }
    }

    /// Every switch that is set belongs to a feature gated behind `channel`.
    pub open spec fn fits(self, channel: Channel) -> bool {
        forall|feature: ProtocolFeature| #[trigger]
            self.is_on(feature) ==> feature.gate() == Some(channel)
    }

    /// `feature` is a switch that is set although the build is of another
    /// channel than the one `feature` is gated behind.
    pub open spec fn misplaced(self, channel: Channel, feature: ProtocolFeature) -> bool {
        self.is_on(feature) && feature.gate() != Some(channel)
    }

    /// No switch set.
    pub fn none() -> (switches: FeatureSwitches)
        ensures
            switches == (FeatureSwitches {
                fix_staking_threshold: false,
                fix_contract_loading_cost: false,
                reject_blocks_with_outdated_protocol_version: false,
                nonrefundable_transfer_nep491: false,
                bls12381: false,
            }),
            forall|feature: ProtocolFeature| !#[trigger] switches.is_on(feature),
    {
        FeatureSwitches {
            fix_staking_threshold: false,
            fix_contract_loading_cost: false,
            reject_blocks_with_outdated_protocol_version: false,
            nonrefundable_transfer_nep491: false,
            bls12381: false,
        }
    }

    /// The switch of every gated feature set.
    pub fn all() -> (switches: FeatureSwitches)
        ensures
            switches == (FeatureSwitches {
                fix_staking_threshold: true,
                fix_contract_loading_cost: true,
                reject_blocks_with_outdated_protocol_version: true,
                nonrefundable_transfer_nep491: true,
                bls12381: true,
            }),
            forall|feature: ProtocolFeature| #[trigger]
                switches.is_on(feature) <==> feature.gate() is Some,
    {
        FeatureSwitches {
            fix_staking_threshold: true,
            fix_contract_loading_cost: true,
            reject_blocks_with_outdated_protocol_version: true,
            nonrefundable_transfer_nep491: true,
            bls12381: true,
        }
    }

    /// Whether the switch of `feature` is set.
    pub fn switch(&self, feature: ProtocolFeature) -> (on: bool)
        ensures
            on == self.is_on(feature),
    {
        match feature {
            ProtocolFeature::FixStakingThreshold => self.fix_staking_threshold,
            ProtocolFeature::FixContractLoadingCost => self.fix_contract_loading_cost,
            ProtocolFeature::RejectBlocksWithOutdatedProtocolVersions => {
                self.reject_blocks_with_outdated_protocol_version
            },
            ProtocolFeature::NonrefundableStorage => self.nonrefundable_transfer_nep491,
            ProtocolFeature::BLS12381 => self.bls12381,
            _ => false,
        }
    }

    /// The misplaced switch of the lowest version, if any switch is misplaced
    /// in a build of `channel`.
    pub fn first_misplaced(&self, channel: Channel) -> (found: Option<ProtocolFeature>)
        ensures
            found is None <==> self.fits(channel),
            found matches Some(feature) ==> {
                &&& self.misplaced(channel, feature)
                &&& forall|other: ProtocolFeature| #[trigger]
                    self.misplaced(channel, other) ==> feature.version() <= other.version()
            },
    {
        let gated = [
            ProtocolFeature::FixStakingThreshold,
            ProtocolFeature::FixContractLoadingCost,
            ProtocolFeature::RejectBlocksWithOutdatedProtocolVersions,
            ProtocolFeature::NonrefundableStorage,
            ProtocolFeature::BLS12381,
        ];
        let mut i: usize = 0;
        while i < 5
            invariant
                i <= 5,
                gated@ == seq![
                    ProtocolFeature::FixStakingThreshold,
                    ProtocolFeature::FixContractLoadingCost,
                    ProtocolFeature::RejectBlocksWithOutdatedProtocolVersions,
                    ProtocolFeature::NonrefundableStorage,
                    ProtocolFeature::BLS12381,
                ],
                forall|k: int| 0 <= k < i ==> !self.misplaced(channel, #[trigger] gated@[k]),
            decreases 5 - i,
        {
            let feature = gated[i];
            if self.switch(feature) && !feature.available_in(channel) {
                return Some(feature);
            }
            i += 1;
        }
        None
    }
}

/// What a build was made with: its channel and the switches of the gated
/// features. It is fixed when the build is made and never changes.
#[derive(PartialEq, Eq, Clone, Copy, Debug, Structural)]
pub struct BuildConfig {
    channel: Channel,
    switches: FeatureSwitches,
}

impl BuildConfig {
    /// The channel of the build.
    pub closed spec fn spec_channel(&self) -> Channel {
        self.channel
    }

    /// The switches of the build.
    pub closed spec fn spec_switches(&self) -> FeatureSwitches {
        self.switches
    }

    /// No switch is set outside the channel that its feature is gated behind.
    #[verifier::type_invariant]
    pub open spec fn wf(self) -> bool {
        self.switches().fits(self.channel())
    }

    /// Whether the build holds `feature`: every build holds a feature that is
    /// not gated, and a gated one is held when its switch is set.
    pub open spec fn holds(self, feature: ProtocolFeature) -> bool {
        feature.gate() is None || self.switches().is_on(feature)
    }

    /// Whether `feature` is active in this build at `protocol_version`: the
    /// build holds it and the version has reached it.
    pub open spec fn active(self, feature: ProtocolFeature, protocol_version: nat) -> bool {
        self.holds(feature) && feature.enabled_at(protocol_version)
    }

    /// The build of `channel` with `switches`, unless a switch is set for a
    /// feature that is gated behind another channel: the error then names the
    /// misplaced switch of the lowest version.
    pub fn new(channel: Channel, switches: FeatureSwitches) -> (made: Result<
        BuildConfig,
        BuildConfigError,
    >)
        ensures
            made is Ok <==> switches.fits(channel),
            made matches Ok(config) ==> {
                &&& config.wf()
                &&& config.channel() == channel
                &&& config.switches() == switches
            },
            made matches Err(error) ==> {
                &&& error matches BuildConfigError::SwitchOutsideChannel(feature)
                &&& switches.misplaced(channel, feature)
                &&& forall|other: ProtocolFeature| #[trigger]
                    switches.misplaced(channel, other) ==> feature.version() <= other.version()
            },
    {
        match switches.first_misplaced(channel) {
            Some(feature) => Err(BuildConfigError::SwitchOutsideChannel(feature)),
            None => Ok(BuildConfig { channel, switches }),
        }
    }

    /// The channel of the build.
    #[verifier::when_used_as_spec(spec_channel)]
    pub fn channel(&self) -> (channel: Channel)
        ensures
            channel == self.spec_channel(),
    {
        self.channel
    }

    /// The switches of the build.
    #[verifier::when_used_as_spec(spec_switches)]
    pub fn switches(&self) -> (switches: FeatureSwitches)
        ensures
            switches == self.spec_switches(),
    {
        self.switches
    }

    /// Largest protocol version supported by the build: that of its channel.
    pub fn protocol_version(&self) -> (version: ProtocolVersion)
        ensures
            version == self.channel().max_version(),
    {
        self.channel.max_protocol_version()
    }

    /// Whether the build holds `feature`.
    pub fn is_available(&self, feature: ProtocolFeature) -> (available: bool)
        ensures
            available == self.holds(feature),
    {
        match feature.required_channel() {
            None => true,
            Some(_) => self.switches.switch(feature),
        }
    }

    /// The unconditional check, for a feature that the build is known to
    /// hold: whether it is in force at `protocol_version`. To ask for a
    /// feature that the build does not hold is a mistake in the caller, which
    /// verification of the caller finds.
    pub fn enabled(
        &self,
        feature: ProtocolFeature,
        protocol_version: ProtocolVersion,
    ) -> (enabled: bool)
        requires
            self.holds(feature),
        ensures
            enabled == feature.enabled_at(protocol_version as nat),
            enabled == self.active(feature, protocol_version as nat),
    {
        feature.enabled(protocol_version)
    }

    /// Whether `feature` is active at `protocol_version`. For a feature that
    /// the build does not hold the answer is `false` at every version.
    pub fn checked_feature(
        &self,
        feature: ProtocolFeature,
        protocol_version: ProtocolVersion,
    ) -> (active: bool)
        ensures
            active == self.active(feature, protocol_version as nat),
    {
        self.is_available(feature) && feature.enabled(protocol_version)
    }

    /// Runs `feature_block` if `feature` is active at `protocol_version`, and
    /// hands back what it returned; does nothing otherwise.
    pub fn checked_feature_then<R, F: FnOnce() -> R>(
        &self,
        feature: ProtocolFeature,
        protocol_version: ProtocolVersion,
        feature_block: F,
    ) -> (outcome: Option<R>)
        requires
            self.active(feature, protocol_version as nat) ==> feature_block.requires(()),
        ensures
            outcome is Some <==> self.active(feature, protocol_version as nat),
            outcome matches Some(value) ==> feature_block.ensures((), value),
    {
        if self.checked_feature(feature, protocol_version) {
            Some(feature_block())
        } else {
            None
        }
    }

    /// Runs `feature_block` if `feature` is active at `protocol_version` and
    /// `non_feature_block` otherwise, and hands back what the one that ran
    /// returned.
    pub fn checked_feature_or_else<R, F: FnOnce() -> R, G: FnOnce() -> R>(
        &self,
        feature: ProtocolFeature,
        protocol_version: ProtocolVersion,
        feature_block: F,
        non_feature_block: G,
    ) -> (outcome: R)
        requires
            self.active(feature, protocol_version as nat) ==> feature_block.requires(()),
            !self.active(feature, protocol_version as nat) ==> non_feature_block.requires(()),
        ensures
            self.active(feature, protocol_version as nat) ==> feature_block.ensures((), outcome),
            !self.active(feature, protocol_version as nat) ==> non_feature_block.ensures(
                (),
                outcome,
            ),
    {
        if self.checked_feature(feature, protocol_version) {
            feature_block()
        } else {
            non_feature_block()
        }
    }
}

/// A build holds no feature that is gated behind another channel than its
/// own: such a feature is active in it at no version.
pub proof fn lemma_gated_feature_needs_its_channel(
    config: BuildConfig,
    feature: ProtocolFeature,
    protocol_version: nat,
)
    requires
        config.wf(),
        feature.gate() is Some,
        feature.gate() != Some(config.channel()),
    ensures
        !config.holds(feature),
        !config.active(feature, protocol_version),
{
}

/// For a feature that is not gated the build does not matter: in every
/// build it is active exactly at the versions at which it is in force.
pub proof fn lemma_ungated_feature_goes_by_version(
    config: BuildConfig,
    feature: ProtocolFeature,
    protocol_version: nat,
)
    requires
        feature.gate() is None,
    ensures
        config.holds(feature),
        config.active(feature, protocol_version) == feature.enabled_at(protocol_version),
{
}

} // verus!
