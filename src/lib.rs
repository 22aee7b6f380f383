//! Start-up configuration of a PBFT consensus node: compiled-in defaults,
//! overridden by on-chain settings read at a block, with the merged result
//! checked before the node joins the network.

pub mod backoff;
pub mod config;
pub mod error;
pub mod interval;
pub mod laws;
pub mod members;
pub mod number;
pub mod settings;

pub use backoff::{RetryAction, RetryBackoff};
pub use config::{
    merge_millis_setting_if_set, merge_secs_setting_if_set, merge_setting_if_set,
    merge_setting_if_set_and_map, PbftConfig, PbftConfigView, BLOCK_PUBLISHING_DELAY_KEY,
    requested_setting_keys, COMMIT_TIMEOUT_KEY,
    FORCED_VIEW_CHANGE_PERIOD_KEY, IDLE_TIMEOUT_KEY, VIEW_CHANGE_DURATION_KEY,
};
pub use error::ConfigError;
pub use interval::Interval;
pub use members::{decode_members, get_members_from_settings, PeerId, MEMBERS_KEY};
pub use number::parse_decimal_u64;
pub use settings::Settings;
