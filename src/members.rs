use vstd::prelude::*;

use crate::error::ConfigError;
use crate::settings::Settings;

verus! {

/// The identifier of a peer of the network: raw bytes.
pub type PeerId = Vec<u8>;

/// The key of the on-chain list of members.
pub const MEMBERS_KEY: &'static str = "sawtooth.consensus.pbft.members";

/// Whether `c` is a hexadecimal digit, in either case.
pub open spec fn is_hex_digit(c: char) -> bool {
    ('0' <= c && c <= '9') || ('a' <= c && c <= 'f') || ('A' <= c && c <= 'F')
}

/// The value of a hexadecimal digit.
pub open spec fn hex_digit_value(c: char) -> int {
    if '0' <= c && c <= '9' {
        c as int - '0' as int
    } else if 'a' <= c && c <= 'f' {
        c as int - 'a' as int + 10
    } else {
        c as int - 'A' as int + 10
    }
}

/// The bytes that hexadecimal text stands for: each pair of digits, the high
/// half first, makes one byte. Text of odd length, or with a character that
/// is no hexadecimal digit, stands for none.
pub open spec fn hex_decoded(t: Seq<char>) -> Option<Seq<u8>> {
    if t.len() % 2 == 0 && forall|i: int| 0 <= i < t.len() ==> is_hex_digit(#[trigger] t[i]) {
        Some(
            Seq::new(
                (t.len() / 2) as nat,
                |i: int| (hex_digit_value(t[2 * i]) * 16 + hex_digit_value(t[2 * i + 1])) as u8,
            ),
        )
    } else {
        None
    }
}

/// What `serde_json` reads from text as an array of strings, if it reads one.
pub uninterp spec fn json_string_list(text: Seq<char>) -> Option<Seq<Seq<char>>>;

#[verifier::external_type_specification]
#[verifier::external_body]
pub struct ExJsonError(serde_json::Error);

#[verifier::external_type_specification]
#[verifier::external_body]
pub struct ExFromHexError(hex::FromHexError);

/// Relies on `serde_json::from_str::<Vec<String>>`: it reads text as a JSON
/// array of strings, and whether and what it reads depends on the text alone.
#[verifier::external_body]
fn parse_string_list(text: &str) -> (r: Result<Vec<String>, serde_json::Error>)
    ensures
        match r {
            Ok(v) => json_string_list(text@) == Some(v@.map_values(|x: String| x@)),
            Err(_) => json_string_list(text@) is None,
        },
{
    serde_json::from_str::<Vec<String>>(text)
}

/// Relies on `hex::decode`: each pair of hexadecimal digits, of either case,
/// becomes one byte; text of odd length or with another character is refused.
#[verifier::external_body]
fn decode_hex(text: &str) -> (r: Result<Vec<u8>, hex::FromHexError>)
    ensures
        match r {
            Ok(b) => hex_decoded(text@) == Some(b@),
            Err(_) => hex_decoded(text@) is None,
        },
{
    hex::decode(text)
}

/// The members that a list of hexadecimal strings names, in its order and
/// with any repeats; an error if one of them is not hexadecimal.
pub open spec fn decoded_members(list: Seq<Seq<char>>) -> Result<Seq<Seq<u8>>, ConfigError> {
    if forall|i: int| 0 <= i < list.len() ==> (#[trigger] hex_decoded(list[i])) is Some {
        Ok(list.map_values(|t: Seq<char>| hex_decoded(t)->0))
    } else {
        Err(ConfigError::InvalidMember)
    }
}

/// The members that settings name, or why they name none.
pub open spec fn members_setting(s: Map<Seq<char>, Seq<char>>) -> Result<
    Seq<Seq<u8>>,
    ConfigError,
> {
    if !s.contains_key(MEMBERS_KEY@) {
        Err(ConfigError::MissingMembers)
    } else {
        match json_string_list(s[MEMBERS_KEY@]) {
            None => Err(ConfigError::MembersNotJson),
            Some(list) => decoded_members(list),
        }
    }
}

/// The bytes of each peer identifier.
pub open spec fn peer_bytes(m: Seq<PeerId>) -> Seq<Seq<u8>> {
    m.map_values(|p: PeerId| p@)
}

/// Decodes each hexadecimal string of `list` into a peer identifier, keeping
/// the order and any repeats.
pub fn decode_members(list: &Vec<String>) -> (r: Result<Vec<PeerId>, ConfigError>)
    ensures
        match r {
            Ok(m) => decoded_members(list@.map_values(|x: String| x@)) == Ok::<
                Seq<Seq<u8>>,
                ConfigError,
            >(peer_bytes(m@)),
            Err(e) => decoded_members(list@.map_values(|x: String| x@)) == Err::<
                Seq<Seq<u8>>,
                ConfigError,
            >(e),
        },
{
    let ghost texts = list@.map_values(|x: String| x@);
    let mut members: Vec<PeerId> = Vec::new();
    let mut i: usize = 0;
    while i < list.len()
        invariant
            i <= list.len(),
            texts == list@.map_values(|x: String| x@),
            members@.len() == i,
            forall|j: int| 0 <= j < i ==> (#[trigger] hex_decoded(texts[j])) is Some,
            forall|j: int|
                0 <= j < i ==> #[trigger] members@[j]@ == hex_decoded(texts[j])->0,
        decreases list.len() - i,
    {
        match decode_hex(list[i].as_str()) {
            Ok(bytes) => {
                members.push(bytes);
            },
            Err(_) => {
                assert(hex_decoded(texts[i as int]) is None);
                return Err(ConfigError::InvalidMember);
            },
        }
        i = i + 1;
    }
    assert(peer_bytes(members@) =~= texts.map_values(|t: Seq<char>| hex_decoded(t)->0));
    Ok(members)
}

/// Reads the list of members from settings: a JSON array of hexadecimal
/// strings under the members key, in its order and with any repeats.
pub fn get_members_from_settings(settings: &Settings) -> (r: Result<Vec<PeerId>, ConfigError>)
    ensures
        match r {
            Ok(m) => members_setting(settings@) == Ok::<Seq<Seq<u8>>, ConfigError>(
                peer_bytes(m@),
            ),
            Err(e) => members_setting(settings@) == Err::<Seq<Seq<u8>>, ConfigError>(e),
        },
{
    match settings.get(MEMBERS_KEY) {
        None => Err(ConfigError::MissingMembers),
        Some(text) => match parse_string_list(text.as_str()) {
            Err(_) => Err(ConfigError::MembersNotJson),
            Ok(list) => decode_members(&list),
        },
    }
}

} // verus!
