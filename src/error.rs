use vstd::prelude::*;

verus! {

/// Why a configuration cannot be used. Each of these is fatal: a node that
/// meets one must not join the network.
#[derive(Clone, Copy, Debug, PartialEq, Eq, Structural)]
pub enum ConfigError {
    /// The members setting is not on chain.
    MissingMembers,
    /// The members setting is not a JSON array of strings.
    MembersNotJson,
    /// A member of the list is not hexadecimal text.
    InvalidMember,
    /// The block publishing delay is not shorter than the idle timeout; both
    /// are given in milliseconds.
    PublishingDelayNotBelowIdle { block_publishing_delay_ms: u128, idle_timeout_ms: u128 },
}

} // verus!
