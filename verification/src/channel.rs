use crate::config::BuildConfigError;
use crate::types::ProtocolVersion;
use crate::version::{
    ProtocolFeature, NIGHTLY_PROTOCOL_VERSION, PEER_MIN_ALLOWED_PROTOCOL_VERSION,
    STABLE_PROTOCOL_VERSION, STATELESSNET_PROTOCOL_VERSION, TESTONLY_PROTOCOL_VERSION,
};
use vstd::prelude::*;

verus! {

/// The release channel of a build. A build belongs to exactly one.
#[derive(Hash, PartialEq, Eq, Clone, Copy, Debug, Structural)]
pub enum Channel {
    /// The released protocol, as run on the main network.
    Stable,
    /// Every feature of the table, experimental ones included.
    Nightly,
    /// The stateless-validation test network, pinned to a version of its own.
    StatelessNet,
}

impl Channel {
    /// Largest protocol version that a build of this channel supports.
    pub open spec fn max_version(self) -> nat {
        match self {
            Channel::Stable => STABLE_PROTOCOL_VERSION as nat,
            Channel::Nightly => NIGHTLY_PROTOCOL_VERSION as nat,
            Channel::StatelessNet => STATELESSNET_PROTOCOL_VERSION as nat,
        }
    }

    /// Oldest protocol version that a peer may advertise and still be
    /// admitted: three versions below the stable release, whatever the
    /// channel of the build that asks.
    pub open spec fn peer_floor() -> nat {
        (STABLE_PROTOCOL_VERSION - 3) as nat
    }

    /// The channel that the two channel switches select. With neither set the
    /// build is a stable one; with both set it is no build at all.
    pub fn select(nightly_protocol: bool, statelessnet_protocol: bool) -> (selected: Result<
        Channel,
        BuildConfigError,
    >)
        ensures
            selected == match (nightly_protocol, statelessnet_protocol) {
                (false, false) => Ok::<Channel, BuildConfigError>(Channel::Stable),
                (true, false) => Ok(Channel::Nightly),
                (false, true) => Ok(Channel::StatelessNet),
                (true, true) => Err(BuildConfigError::MultipleChannels),
            },
    {
        if statelessnet_protocol {
            if nightly_protocol {
                Err(BuildConfigError::MultipleChannels)
            } else {
                Ok(Channel::StatelessNet)
            }
        } else if nightly_protocol {
            Ok(Channel::Nightly)
        } else {
            Ok(Channel::Stable)
        }
    }

    /// Largest protocol version supported by a build of this channel.
    pub fn max_protocol_version(self) -> (version: ProtocolVersion)
        ensures
            version == self.max_version(),
    {
        match self {
            Channel::StatelessNet => STATELESSNET_PROTOCOL_VERSION,
            Channel::Nightly => NIGHTLY_PROTOCOL_VERSION,
            Channel::Stable => STABLE_PROTOCOL_VERSION,
        }
    }

    /// Lowest protocol version accepted from a peer. It is derived from the
    /// stable release alone, so every channel answers the same.
    pub fn peer_min_allowed_version(self) -> (floor: ProtocolVersion)
        ensures
            floor == STABLE_PROTOCOL_VERSION - 3,
            floor == Self::peer_floor(),
            floor == PEER_MIN_ALLOWED_PROTOCOL_VERSION,
    {
        PEER_MIN_ALLOWED_PROTOCOL_VERSION
    }

    /// Whether a connection to a peer that advertises `peer_version` may
    /// proceed: it is refused exactly when the peer is below the floor.
    pub fn admits_peer(self, peer_version: ProtocolVersion) -> (admitted: bool)
        ensures
            admitted == (peer_version >= Self::peer_floor()),
    {
        peer_version >= PEER_MIN_ALLOWED_PROTOCOL_VERSION
    }
}

/// The version of nightly builds is the largest of the version table: every
/// feature is in force at it, so a nightly build supports each feature that
/// it holds, and one feature has exactly that version.
pub proof fn lemma_nightly_supports_every_feature(feature: ProtocolFeature)
    ensures
        feature.enabled_at(Channel::Nightly.max_version()),
        ProtocolFeature::ShuffleShardAssignments.version() == Channel::Nightly.max_version(),
{
}

/// Neither a stable build nor one for the stateless-validation network
/// reaches an experimental feature: a feature that is gated behind the
/// nightly channel, or whose version lies in the experimental range, is off
/// at the largest version that such a build supports.
pub proof fn lemma_only_nightly_reaches_experimental(feature: ProtocolFeature)
    requires
        feature.gate() == Some(Channel::Nightly) || feature.is_experimental(),
    ensures
        !feature.enabled_at(Channel::Stable.max_version()),
        !feature.enabled_at(Channel::StatelessNet.max_version()),
{
}

/// Every stable feature is in force at the stable version, and so at the
/// largest version of every channel.
pub proof fn lemma_every_channel_supports_stable(channel: Channel, feature: ProtocolFeature)
    requires
        feature.is_stable(),
    ensures
        feature.enabled_at(channel.max_version()),
{
}

/// The channels are pinned to versions of their own: no two share one.
pub proof fn lemma_channel_versions_differ(one: Channel, other: Channel)
    requires
        one != other,
    ensures
        one.max_version() != other.max_version(),
{
}

/// The version reserved for tests takes no part in what a build tells its
/// peers: no channel advertises it, and it is not the peer floor.
pub proof fn lemma_testonly_is_no_channel_version(channel: Channel)
    ensures
        channel.max_version() != TESTONLY_PROTOCOL_VERSION,
        Channel::peer_floor() != TESTONLY_PROTOCOL_VERSION,
{
}

} // verus!
