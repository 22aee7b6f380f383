use vstd::prelude::*;

use crate::error::ConfigError;
use crate::interval::Interval;
use crate::members::{get_members_from_settings, members_setting, peer_bytes, PeerId};
use crate::number::{parse_decimal_u64, parse_u64};
use crate::settings::Settings;

verus! {

/// Key of the pause between attempts to publish a block, in milliseconds.
pub const BLOCK_PUBLISHING_DELAY_KEY: &'static str =
    "sawtooth.consensus.pbft.block_publishing_delay";

/// Key of the idle timeout, in seconds.
pub const IDLE_TIMEOUT_KEY: &'static str = "sawtooth.consensus.pbft.idle_timeout";

/// Key of the commit timeout, in seconds.
pub const COMMIT_TIMEOUT_KEY: &'static str = "sawtooth.consensus.pbft.commit_timeout";

/// Key of the view change duration, in seconds.
pub const VIEW_CHANGE_DURATION_KEY: &'static str = "sawtooth.consensus.pbft.view_change_duration";

/// Key of the number of committed blocks after which a view change is forced.
pub const FORCED_VIEW_CHANGE_PERIOD_KEY: &'static str =
    "sawtooth.consensus.pbft.forced_view_change_period";

/// The keys of the settings that a load reads, members first.
pub fn requested_setting_keys() -> (r: Vec<String>)
    ensures
        r@.map_values(|k: String| k@) == seq![
            crate::members::MEMBERS_KEY@,
            BLOCK_PUBLISHING_DELAY_KEY@,
            IDLE_TIMEOUT_KEY@,
            COMMIT_TIMEOUT_KEY@,
            VIEW_CHANGE_DURATION_KEY@,
            FORCED_VIEW_CHANGE_PERIOD_KEY@,
        ],
{
    let r = vec![
        String::from_str(crate::members::MEMBERS_KEY),
        String::from_str(BLOCK_PUBLISHING_DELAY_KEY),
        String::from_str(IDLE_TIMEOUT_KEY),
        String::from_str(COMMIT_TIMEOUT_KEY),
        String::from_str(VIEW_CHANGE_DURATION_KEY),
        String::from_str(FORCED_VIEW_CHANGE_PERIOD_KEY),
    ];
    assert(r@.map_values(|k: String| k@) =~= seq![
        crate::members::MEMBERS_KEY@,
        BLOCK_PUBLISHING_DELAY_KEY@,
        IDLE_TIMEOUT_KEY@,
        COMMIT_TIMEOUT_KEY@,
        VIEW_CHANGE_DURATION_KEY@,
        FORCED_VIEW_CHANGE_PERIOD_KEY@,
    ]);
    r
}

/// The number that settings give under `key`: none where the key is absent
/// or its value does not read as a `u64`.
pub open spec fn setting_number(s: Map<Seq<char>, Seq<char>>, key: Seq<char>) -> Option<u64> {
    if s.contains_key(key) {
        parse_u64(s[key])
    } else {
        None
    }
}

/// A count after merging the setting `key` over `current`.
pub open spec fn merged_count(s: Map<Seq<char>, Seq<char>>, key: Seq<char>, current: u64) -> u64 {
    match setting_number(s, key) {
        Some(v) => v,
        None => current,
    }
}

/// A span in milliseconds after merging the setting `key`, a count of
/// milliseconds, over `current`.
pub open spec fn merged_millis(s: Map<Seq<char>, Seq<char>>, key: Seq<char>, current: nat) -> nat {
    match setting_number(s, key) {
        Some(v) => v as nat,
        None => current,
    }
}

/// A span in milliseconds after merging the setting `key`, a count of
/// seconds, over `current`.
pub open spec fn merged_secs(s: Map<Seq<char>, Seq<char>>, key: Seq<char>, current: nat) -> nat {
    match setting_number(s, key) {
        Some(v) => v as nat * 1000,
        None => current,
    }
}

/// Sets `*setting_field` to `map` of the number under `setting_key`, where
/// the key is set and its value reads as a `u64`; else leaves it as it was.
pub fn merge_setting_if_set_and_map<U, F: Fn(u64) -> U>(
    settings_map: &Settings,
    setting_field: &mut U,
    setting_key: &str,
    map: F,
)
    requires
        forall|v: u64| call_requires(map, (v,)),
    ensures
        match setting_number(settings_map@, setting_key@) {
            Some(v) => call_ensures(map, (v,), *final(setting_field)),
            None => *final(setting_field) == *old(setting_field),
        },
{
    if let Some(setting) = settings_map.get(setting_key) {
        if let Some(setting_value) = parse_decimal_u64(setting.as_str()) {
            *setting_field = map(setting_value);
        }
    }
}

/// A count read from settings, taken as it stands.
fn count_as_is(setting: u64) -> (r: u64)
    ensures
        r == setting,
{
    setting
}

/// Sets `*setting_field` to the number under `setting_key`, where the key is
/// set and its value reads as a `u64`; else leaves it as it was.
pub fn merge_setting_if_set(settings_map: &Settings, setting_field: &mut u64, setting_key: &str)
    ensures
        *final(setting_field) == merged_count(settings_map@, setting_key@, *old(setting_field)),
{
    merge_setting_if_set_and_map(
        settings_map,
        setting_field,
        setting_key,
        count_as_is,
    )
}

/// Sets `*setting_field` to the number of seconds under `setting_key`, where
/// the key is set and its value reads as a `u64`; else leaves it as it was.
pub fn merge_secs_setting_if_set(
    settings_map: &Settings,
    setting_field: &mut Interval,
    setting_key: &str,
)
    ensures
        final(setting_field)@ == merged_secs(settings_map@, setting_key@, old(setting_field)@),
{
    merge_setting_if_set_and_map(settings_map, setting_field, setting_key, Interval::from_secs)
}

/// Sets `*setting_field` to the number of milliseconds under `setting_key`,
/// where the key is set and its value reads as a `u64`; else leaves it as it
/// was.
pub fn merge_millis_setting_if_set(
    settings_map: &Settings,
    setting_field: &mut Interval,
    setting_key: &str,
)
    ensures
        final(setting_field)@ == merged_millis(settings_map@, setting_key@, old(setting_field)@),
{
    merge_setting_if_set_and_map(settings_map, setting_field, setting_key, Interval::from_millis)
}

/// The initial configuration of a PBFT node: defaults, overridden by what the
/// on-chain settings give.
#[derive(Debug)]
pub struct PbftConfig {
    /// Members of the PBFT network.
    pub members: Vec<PeerId>,
    /// How long to wait in between trying to publish blocks.
    pub block_publishing_delay: Interval,
    /// How long to wait for an update to arrive from the validator.
    pub update_recv_timeout: Interval,
    /// The base time to use for retrying with exponential backoff.
    pub exponential_retry_base: Interval,
    /// The maximum time for retrying with exponential backoff.
    pub exponential_retry_max: Interval,
    /// How long to wait for the next block and pre-prepare before deciding
    /// that the primary is faulty; longer than `block_publishing_delay`.
    pub idle_timeout: Interval,
    /// How long to wait, after pre-preparing, for the block to commit before
    /// starting a view change.
    pub commit_timeout: Interval,
    /// When view changing, how long to wait for a valid new view before
    /// starting another view change.
    pub view_change_duration: Interval,
    /// How many blocks to commit before forcing a view change, for fairness.
    pub forced_view_change_period: u64,
    /// How large the protocol log may grow before it is pruned.
    pub max_log_size: u64,
    /// Where to store the protocol state.
    pub storage: String,
}

/// A configuration as mathematical values; spans are in milliseconds.
pub struct PbftConfigView {
    pub members: Seq<Seq<u8>>,
    pub block_publishing_delay: nat,
    pub update_recv_timeout: nat,
    pub exponential_retry_base: nat,
    pub exponential_retry_max: nat,
    pub idle_timeout: nat,
    pub commit_timeout: nat,
    pub view_change_duration: nat,
    pub forced_view_change_period: u64,
    pub max_log_size: u64,
    pub storage: Seq<char>,
}

impl View for PbftConfig {
    type V = PbftConfigView;

    open spec fn view(&self) -> PbftConfigView {
        PbftConfigView {
            members: peer_bytes(self.members@),
            block_publishing_delay: self.block_publishing_delay@,
            update_recv_timeout: self.update_recv_timeout@,
            exponential_retry_base: self.exponential_retry_base@,
            exponential_retry_max: self.exponential_retry_max@,
            idle_timeout: self.idle_timeout@,
            commit_timeout: self.commit_timeout@,
            view_change_duration: self.view_change_duration@,
            forced_view_change_period: self.forced_view_change_period,
            max_log_size: self.max_log_size,
            storage: self.storage@,
        }
    }
}

/// The compiled-in defaults.
pub open spec fn default_config() -> PbftConfigView {
    PbftConfigView {
        members: Seq::empty(),
        block_publishing_delay: 200,
        update_recv_timeout: 10,
        exponential_retry_base: 100,
        exponential_retry_max: 60_000,
        idle_timeout: 30_000,
        commit_timeout: 30_000,
        view_change_duration: 5_000,
        forced_view_change_period: 30,
        max_log_size: 1000,
        storage: "memory"@,
    }
}

/// What loading settings `s` over configuration `c` gives: the members that
/// `s` names, each optional setting that is set and reads as a number merged
/// over the value in `c`, and the rest of `c`; or the first fatal error, in
/// the order members, then publishing delay against idle timeout.
pub open spec fn loaded(c: PbftConfigView, s: Map<Seq<char>, Seq<char>>) -> Result<
    PbftConfigView,
    ConfigError,
> {
    match members_setting(s) {
        Err(e) => Err(e),
        Ok(m) => {
            let delay = merged_millis(s, BLOCK_PUBLISHING_DELAY_KEY@, c.block_publishing_delay);
            let idle = merged_secs(s, IDLE_TIMEOUT_KEY@, c.idle_timeout);
            if delay >= idle {
                Err(
                    ConfigError::PublishingDelayNotBelowIdle {
                        block_publishing_delay_ms: delay as u128,
                        idle_timeout_ms: idle as u128,
                    },
                )
            } else {
                Ok(
                    PbftConfigView {
                        members: m,
                        block_publishing_delay: delay,
                        update_recv_timeout: c.update_recv_timeout,
                        exponential_retry_base: c.exponential_retry_base,
                        exponential_retry_max: c.exponential_retry_max,
                        idle_timeout: idle,
                        commit_timeout: merged_secs(s, COMMIT_TIMEOUT_KEY@, c.commit_timeout),
                        view_change_duration: merged_secs(
                            s,
                            VIEW_CHANGE_DURATION_KEY@,
                            c.view_change_duration,
                        ),
                        forced_view_change_period: merged_count(
                            s,
                            FORCED_VIEW_CHANGE_PERIOD_KEY@,
                            c.forced_view_change_period,
                        ),
                        max_log_size: c.max_log_size,
                        storage: c.storage,
                    },
                )
            }
        },
    }
}

impl PbftConfig {
    /// The compiled-in defaults: no members, and a publishing delay shorter
    /// than the idle timeout.
    pub fn default() -> (r: PbftConfig)
        ensures
            r@ == default_config(),
            r.block_publishing_delay@ < r.idle_timeout@,
    {
        let r = PbftConfig {
            members: Vec::new(),
            block_publishing_delay: Interval::from_millis(200),
            update_recv_timeout: Interval::from_millis(10),
            exponential_retry_base: Interval::from_millis(100),
            exponential_retry_max: Interval::from_secs(60),
            idle_timeout: Interval::from_secs(30),
            commit_timeout: Interval::from_secs(30),
            view_change_duration: Interval::from_secs(5),
            forced_view_change_period: 30,
            max_log_size: 1000,
            storage: String::from_str("memory"),
        };
        assert(r@.members =~= Seq::<Seq<u8>>::empty());
        r
    }

    /// Merges the on-chain settings `settings` into this configuration and
    /// checks the result.
    ///
    /// The members are required; the publishing delay, idle timeout, commit
    /// timeout, view change duration and forced view change period are taken
    /// where they are set and read as numbers, and kept otherwise. On an error
    /// the configuration is left as it was, and the node must not start.
    pub fn load_settings(&mut self, settings: &Settings) -> (r: Result<(), ConfigError>)
        ensures
            match loaded(old(self)@, settings@) {
                Ok(c) => r is Ok && final(self)@ == c,
                Err(e) => r == Err::<(), ConfigError>(e) && *final(self) == *old(self),
            },
    {
        let members = match get_members_from_settings(settings) {
            Ok(m) => m,
            Err(e) => return Err(e),
        };
        let mut delay = self.block_publishing_delay;
        merge_millis_setting_if_set(settings, &mut delay, BLOCK_PUBLISHING_DELAY_KEY);
        let mut idle = self.idle_timeout;
        merge_secs_setting_if_set(settings, &mut idle, IDLE_TIMEOUT_KEY);
        let mut commit = self.commit_timeout;
        merge_secs_setting_if_set(settings, &mut commit, COMMIT_TIMEOUT_KEY);
        let mut view_change = self.view_change_duration;
        merge_secs_setting_if_set(settings, &mut view_change, VIEW_CHANGE_DURATION_KEY);
        if delay.as_millis() >= idle.as_millis() {
            return Err(
                ConfigError::PublishingDelayNotBelowIdle {
                    block_publishing_delay_ms: delay.as_millis(),
                    idle_timeout_ms: idle.as_millis(),
                },
            );
        }
        let mut period = self.forced_view_change_period;
        merge_setting_if_set(settings, &mut period, FORCED_VIEW_CHANGE_PERIOD_KEY);
        self.members = members;
        self.block_publishing_delay = delay;
        self.idle_timeout = idle;
        self.commit_timeout = commit;
        self.view_change_duration = view_change;
        self.forced_view_change_period = period;
        Ok(())
    }
}

} // verus!
