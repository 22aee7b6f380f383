use vstd::prelude::*;

use crate::config::{
    loaded, merged_secs, setting_number, PbftConfigView, BLOCK_PUBLISHING_DELAY_KEY,
    COMMIT_TIMEOUT_KEY, FORCED_VIEW_CHANGE_PERIOD_KEY, IDLE_TIMEOUT_KEY, VIEW_CHANGE_DURATION_KEY,
};
use crate::error::ConfigError;
use crate::members::{hex_decoded, json_string_list, members_setting, MEMBERS_KEY};

verus! {

/// Without the members setting, loading fails with `MissingMembers`,
/// whatever else the settings hold.
pub proof fn lemma_missing_members_is_fatal(c: PbftConfigView, s: Map<Seq<char>, Seq<char>>)
    requires
        !s.contains_key(MEMBERS_KEY@),
    ensures
        loaded(c, s) == Err::<PbftConfigView, ConfigError>(ConfigError::MissingMembers),
{
}

/// Where the members setting is a JSON list of hexadecimal strings, the
/// members are those strings decoded, in their order and with any repeats;
/// a load that succeeds keeps exactly them.
pub proof fn lemma_members_are_decoded_list(
    c: PbftConfigView,
    s: Map<Seq<char>, Seq<char>>,
    list: Seq<Seq<char>>,
)
    requires
        s.contains_key(MEMBERS_KEY@),
        json_string_list(s[MEMBERS_KEY@]) == Some(list),
        forall|i: int| 0 <= i < list.len() ==> (#[trigger] hex_decoded(list[i])) is Some,
    ensures
        members_setting(s) is Ok,
        loaded(c, s) is Ok ==> {
            let m = loaded(c, s)->Ok_0.members;
            &&& m.len() == list.len()
            &&& forall|i: int| 0 <= i < list.len() ==> #[trigger] m[i] == hex_decoded(list[i])->0
        },
{
}

/// Where one string of the members list is not hexadecimal, loading fails
/// with `InvalidMember`.
pub proof fn lemma_non_hex_member_is_fatal(
    c: PbftConfigView,
    s: Map<Seq<char>, Seq<char>>,
    list: Seq<Seq<char>>,
    i: int,
)
    requires
        s.contains_key(MEMBERS_KEY@),
        json_string_list(s[MEMBERS_KEY@]) == Some(list),
        0 <= i < list.len(),
        hex_decoded(list[i]) is None,
    ensures
        loaded(c, s) == Err::<PbftConfigView, ConfigError>(ConfigError::InvalidMember),
{
}

/// Where the members are in order and the publishing delay that settings
/// give is at least the idle timeout that results, loading fails with both
/// values, though each of them was read.
pub proof fn lemma_delay_not_below_idle_is_fatal(
    c: PbftConfigView,
    s: Map<Seq<char>, Seq<char>>,
    delay: u64,
)
    requires
        members_setting(s) is Ok,
        setting_number(s, BLOCK_PUBLISHING_DELAY_KEY@) == Some(delay),
        delay >= merged_secs(s, IDLE_TIMEOUT_KEY@, c.idle_timeout),
    ensures
        loaded(c, s) == Err::<PbftConfigView, ConfigError>(
            ConfigError::PublishingDelayNotBelowIdle {
                block_publishing_delay_ms: delay as u128,
                idle_timeout_ms: merged_secs(s, IDLE_TIMEOUT_KEY@, c.idle_timeout) as u128,
            },
        ),
{
}

/// Whether `k` is the key of an optional setting.
pub open spec fn is_optional_key(k: Seq<char>) -> bool {
    ||| k == BLOCK_PUBLISHING_DELAY_KEY@
    ||| k == IDLE_TIMEOUT_KEY@
    ||| k == COMMIT_TIMEOUT_KEY@
    ||| k == VIEW_CHANGE_DURATION_KEY@
    ||| k == FORCED_VIEW_CHANGE_PERIOD_KEY@
}

/// An optional setting whose value does not read as a number counts as not
/// set: loading gives what it gives without that key, so the field keeps its
/// value and the load fails no more often.
pub proof fn lemma_unreadable_optional_setting_ignored(
    c: PbftConfigView,
    s: Map<Seq<char>, Seq<char>>,
    k: Seq<char>,
)
    requires
        is_optional_key(k),
        s.contains_key(k),
        setting_number(s, k) is None,
    ensures
        loaded(c, s) == loaded(c, s.remove(k)),
{
    reveal_strlit("sawtooth.consensus.pbft.members");
    reveal_strlit("sawtooth.consensus.pbft.block_publishing_delay");
    reveal_strlit("sawtooth.consensus.pbft.idle_timeout");
    reveal_strlit("sawtooth.consensus.pbft.commit_timeout");
    reveal_strlit("sawtooth.consensus.pbft.view_change_duration");
    reveal_strlit("sawtooth.consensus.pbft.forced_view_change_period");
    assert(k != MEMBERS_KEY@) by {
        assert(MEMBERS_KEY@.len() != k.len());
    }
    let t = s.remove(k);
    assert(members_setting(s) == members_setting(t));
    assert forall|j: Seq<char>| setting_number(s, j) == setting_number(t, j) by {
        if j != k {
            assert(s.contains_key(j) == t.contains_key(j));
        }
    }
}

/// Loading the same settings again over a loaded configuration changes
/// nothing: loading is idempotent.
pub proof fn lemma_load_idempotent(
    c: PbftConfigView,
    s: Map<Seq<char>, Seq<char>>,
    once: PbftConfigView,
)
    requires
        loaded(c, s) == Ok::<PbftConfigView, ConfigError>(once),
    ensures
        loaded(once, s) == Ok::<PbftConfigView, ConfigError>(once),
{
}

} // verus!
