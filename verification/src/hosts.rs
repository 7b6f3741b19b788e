//! Full node hosts: which of them are community nodes, and which defaults
//! follow from the host that was chosen.

use vstd::prelude::*;
use vstd::string::StrSliceExecFns;
use vstd::string::StringExecFns;
use crate::config::Config;

verus! {

/// The community node that a farmer connects to unless another is named.
pub const COMMUNITY_NODE: &'static str = "chia-proxy.evergreenminer-prod.com";

/// The host of a full node on the same machine.
pub const LOCAL_NODE: &'static str = "localhost";

/// The port of a community node, for farming and for RPC.
pub const COMMUNITY_PORT: u16 = 443;

/// The port on which a local full node serves farmers.
pub const LOCAL_FARMING_PORT: u16 = 8444;

/// The port on which a local full node serves RPC.
pub const LOCAL_RPC_PORT: u16 = 8555;

/// The seconds after which a request to the full node times out.
pub const CLIENT_TIMEOUT: u64 = 600;

/// The certificate of the farmer, below the SSL root.
pub const PRIVATE_CRT: &'static str = "farmer/private_farmer.crt";

/// The key of the farmer, below the SSL root.
pub const PRIVATE_KEY: &'static str = "farmer/private_farmer.key";

/// The certificate authority of the farmer, below the SSL root.
pub const CA_PRIVATE_CRT: &'static str = "ca/private_ca.crt";

/// Whether `char::is_whitespace` holds of a character: whether it has the
/// Unicode property White_Space.
pub uninterp spec fn is_whitespace(c: char) -> bool;

/// Calls `char::is_whitespace`. Claims only that the answer is the one named
/// `is_whitespace`.
#[verifier::external_body]
pub(crate) fn char_is_whitespace(c: char) -> (whitespace: bool)
    ensures
        whitespace == is_whitespace(c),
{
    c.is_whitespace()
}

/// A character with the letters `A` to `Z` mapped to `a` to `z`.
pub open spec fn ascii_lowercase(c: char) -> char {
    if 'A' <= c && c <= 'Z' {
        ((c as u8) + 32) as char
    } else {
        c
    }
}

/// A string with the letters `A` to `Z` mapped to `a` to `z`.
pub open spec fn lowercased(s: Seq<char>) -> Seq<char> {
    Seq::new(s.len(), |i: int| ascii_lowercase(s[i]))
}

/// Whether the characters of `s` from `start` up to, but not including, `end`
/// are `s` without its leading and trailing whitespace.
pub open spec fn is_trimmed_range(s: Seq<char>, start: int, end: int) -> bool {
    &&& 0 <= start <= end <= s.len()
    &&& forall|i: int| 0 <= i < start ==> is_whitespace(#[trigger] s[i])
    &&& forall|i: int| end <= i < s.len() ==> is_whitespace(#[trigger] s[i])
    &&& start < end ==> !is_whitespace(s[start]) && !is_whitespace(s[end - 1])
}

/// Whether `trimmed` is `s` without its leading and trailing whitespace.
pub open spec fn is_trim_of(trimmed: Seq<char>, s: Seq<char>) -> bool {
    exists|start: int, end: int| #[trigger] is_trimmed_range(s, start, end) && trimmed == s.subrange(start, end)
}

/// The names of the community nodes.
pub open spec fn community_hosts() -> Seq<Seq<char>> {
    seq![
        "chia-proxy.evergreenminer-prod.com"@,
        "chia-proxy.galactechs.com"@,
        "chia-proxy-testnet11.evergreenminer-prod.com"@,
        "chia-proxy-testnet11.galactechs.com"@,
    ]
}

/// The texts of a list of strings, in order.
pub open spec fn texts(names: Seq<String>) -> Seq<Seq<char>> {
    Seq::new(names.len(), |i: int| names[i]@)
}

/// Whether `host` names one of `names`: whether it is, letter for letter, one
/// of them once its letters are in lower case and the whitespace around it is
/// removed.
pub open spec fn names_one_of(host: Seq<char>, names: Seq<Seq<char>>) -> bool {
    exists|i: int| 0 <= i < names.len() && is_trim_of(#[trigger] names[i], lowercased(host))
}

/// Whether `host` names a community node.
pub open spec fn names_community_node(host: Seq<char>) -> bool {
    names_one_of(host, community_hosts())
}

/// A string has one trimmed form only.
pub proof fn trimmed_range_is_unique(s: Seq<char>, start: int, end: int, other_start: int, other_end: int)
    requires
        is_trimmed_range(s, start, end),
        is_trimmed_range(s, other_start, other_end),
    ensures
        s.subrange(start, end) == s.subrange(other_start, other_end),
{
}

/// The characters of a string, with the letters `A` to `Z` mapped to `a` to
/// `z`.
fn lowercase_chars(s: &str) -> (chars: Vec<char>)
    ensures
        chars@ == lowercased(s@),
{
    let length = s.unicode_len();
    let mut chars: Vec<char> = Vec::new();
    let mut i: usize = 0;
    while i < length
        invariant
            length == s@.len(),
            i <= length,
            chars@.len() == i,
            forall|k: int| 0 <= k < i ==> chars@[k] == ascii_lowercase(s@[k]),
        decreases length - i,
    {
        let c = s.get_char(i);
        let lowered = if c >= 'A' && c <= 'Z' {
            let byte: u8 = c as u8;
            (byte + 32) as char
        } else {
            c
        };
        chars.push(lowered);
        i += 1;
    }
    chars
}

/// Whether the characters of `chars` from `start` up to, but not including,
/// `end` spell `name`.
fn range_spells(chars: &Vec<char>, start: usize, end: usize, name: &str) -> (same: bool)
    requires
        start <= end <= chars@.len(),
    ensures
        same == (chars@.subrange(start as int, end as int) == name@),
{
    let length = name.unicode_len();
    if end - start != length {
        return false;
    }
    let ghost range = chars@.subrange(start as int, end as int);
    let mut i: usize = 0;
    while i < length
        invariant
            start <= end <= chars@.len(),
            length == name@.len(),
            end - start == length,
            i <= length,
            range == chars@.subrange(start as int, end as int),
            forall|k: int| 0 <= k < i ==> range[k] == name@[k],
        decreases length - i,
    {
        if chars[start + i] != name.get_char(i) {
            return false;
        }
        i += 1;
    }
    assert(range =~= name@);
    true
}

/// Whether a host names one of the trusted hosts. Case and the whitespace
/// around the name of the host do not count; the trusted names are taken as
/// they are.
pub fn names_trusted_host(host: &str, trusted: &Vec<String>) -> (listed: bool)
    ensures
        listed == names_one_of(host@, texts(trusted@)),
{
    let chars = lowercase_chars(host);
    let length = chars.len();
    let mut start: usize = 0;
    while start < length && char_is_whitespace(chars[start])
        invariant
            length == chars@.len(),
            start <= length,
            forall|i: int| 0 <= i < start ==> is_whitespace(#[trigger] chars@[i]),
        decreases length - start,
    {
        start += 1;
    }
    let mut end: usize = length;
    while end > start && char_is_whitespace(chars[end - 1])
        invariant
            length == chars@.len(),
            start <= end <= length,
            forall|i: int| end <= i < length ==> is_whitespace(#[trigger] chars@[i]),
        decreases end,
    {
        end -= 1;
    }
    let ghost trimmed = chars@.subrange(start as int, end as int);
    let ghost names = texts(trusted@);
    let mut position: usize = 0;
    while position < trusted.len()
        invariant
            position <= trusted@.len(),
            start <= end <= chars@.len(),
            names == texts(trusted@),
            chars@ == lowercased(host@),
            is_trimmed_range(chars@, start as int, end as int),
            trimmed == chars@.subrange(start as int, end as int),
            forall|i: int| 0 <= i < position ==> names[i] != trimmed,
        decreases trusted@.len() - position,
    {
        if range_spells(&chars, start, end, trusted[position].as_str()) {
            assert(is_trim_of(names[position as int], lowercased(host@)));
            return true;
        }
        position += 1;
    }
    assert forall|i: int| 0 <= i < names.len() implies !is_trim_of(#[trigger] names[i], lowercased(host@)) by {
        if is_trim_of(names[i], lowercased(host@)) {
            let (other_start, other_end) = choose|other_start: int, other_end: int|
                #[trigger] is_trimmed_range(chars@, other_start, other_end) && names[i] == chars@.subrange(other_start, other_end);
            trimmed_range_is_unique(chars@, start as int, end as int, other_start, other_end);
        }
    }
    false
}

/// The names of the community nodes: hosts that are trusted to serve farmers
/// without certificates of the farmer's own.
pub fn community_nodes() -> (names: Vec<String>)
    ensures
        texts(names@) == community_hosts(),
{
    let mut names: Vec<String> = Vec::new();
    names.push(String::from_str("chia-proxy.evergreenminer-prod.com"));
    names.push(String::from_str("chia-proxy.galactechs.com"));
    names.push(String::from_str("chia-proxy-testnet11.evergreenminer-prod.com"));
    names.push(String::from_str("chia-proxy-testnet11.galactechs.com"));
    names
}

/// Whether a host names a community node. Case and the whitespace around the
/// name do not count.
pub fn names_community_host(host: &str) -> (community: bool)
    ensures
        community == names_community_node(host@),
{
    let trusted = community_nodes();
    names_trusted_host(host, &trusted)
}

/// Whether the RPC host of a configuration is a community node.
pub fn is_community_node(config: &Config) -> (community: bool)
    ensures
        community == names_community_node(config.fullnode_rpc_host@),
{
    names_community_host(config.fullnode_rpc_host.as_str())
}

/// Whether two strings hold the same text.
fn same_text(a: &str, b: &str) -> (same: bool)
    ensures
        same == (a@ == b@),
{
    let length = a.unicode_len();
    if b.unicode_len() != length {
        return false;
    }
    let mut i: usize = 0;
    while i < length
        invariant
            length == a@.len(),
            length == b@.len(),
            i <= length,
            forall|k: int| 0 <= k < i ==> a@[k] == b@[k],
        decreases length - i,
    {
        if a.get_char(i) != b.get_char(i) {
            return false;
        }
        i += 1;
    }
    assert(a@ =~= b@);
    true
}

/// The RPC host that follows from the farming host: the community node
/// serves both.
pub open spec fn default_rpc_host(ws_host: Seq<char>) -> Option<Seq<char>> {
    if ws_host == COMMUNITY_NODE@ {
        Some(COMMUNITY_NODE@)
    } else {
        None
    }
}

/// The port that follows from a host: the community port for the community
/// node, `local_port` for a node on the same machine, none for another host.
pub open spec fn default_port(host: Seq<char>, local_port: u16) -> Option<u16> {
    if host == COMMUNITY_NODE@ {
        Some(COMMUNITY_PORT)
    } else if host == LOCAL_NODE@ {
        Some(local_port)
    } else {
        None
    }
}

/// The text of an optional string.
pub open spec fn text_of(s: Option<String>) -> Option<Seq<char>> {
    match s {
        Some(s) => Some(s@),
        None => None,
    }
}

/// The RPC host of a run: the one that was given or, for the community node,
/// the farming host itself. `None` where the user has to be asked.
pub fn rpc_host(given: Option<String>, ws_host: &str) -> (host: Option<String>)
    ensures
        text_of(host) == match given {
            Some(given) => Some(given@),
            None => default_rpc_host(ws_host@),
        },
{
    match given {
        Some(given) => Some(given),
        None => {
            if same_text(COMMUNITY_NODE, ws_host) {
                Some(String::from_str(COMMUNITY_NODE))
            } else {
                None
            }
        },
    }
}

/// The farming port of a run: the one that was given or the one that follows
/// from the farming host. `None` where the user has to be asked.
pub fn farming_port(given: Option<u16>, ws_host: &str) -> (port: Option<u16>)
    ensures
        port == match given {
            Some(given) => Some(given),
            None => default_port(ws_host@, LOCAL_FARMING_PORT),
        },
{
    match given {
        Some(given) => Some(given),
        None => {
            if same_text(COMMUNITY_NODE, ws_host) {
                Some(COMMUNITY_PORT)
            } else if same_text(LOCAL_NODE, ws_host) {
                Some(LOCAL_FARMING_PORT)
            } else {
                None
            }
        },
    }
}

/// The RPC port of a run: the one that was given or the one that follows from
/// the RPC host. `None` where the user has to be asked.
pub fn rpc_port(given: Option<u16>, rpc_host: &str) -> (port: Option<u16>)
    ensures
        port == match given {
            Some(given) => Some(given),
            None => default_port(rpc_host@, LOCAL_RPC_PORT),
        },
{
    match given {
        Some(given) => Some(given),
        None => {
            if same_text(COMMUNITY_NODE, rpc_host) {
                Some(COMMUNITY_PORT)
            } else if same_text(LOCAL_NODE, rpc_host) {
                Some(LOCAL_RPC_PORT)
            } else {
                None
            }
        },
    }
}

/// Whether a run needs an SSL root of the user's: the community node takes
/// certificates that the run makes itself, any other host the user's own.
pub fn asks_for_ssl_path(ws_host: &str) -> (asks: bool)
    ensures
        asks == (ws_host@ != COMMUNITY_NODE@),
{
    !same_text(COMMUNITY_NODE, ws_host)
}

/// The SSL root that a client of the RPC host presents certificates from:
/// none for a community node, else the SSL root of the configuration.
pub fn client_ssl_root(config: &Config) -> (root: Option<String>)
    ensures
        text_of(root) == if names_community_node(config.fullnode_rpc_host@) {
            None
        } else {
            text_of(config.ssl_root_path)
        },
{
    if is_community_node(config) {
        None
    } else {
        match &config.ssl_root_path {
            Some(path) => Some(path.clone()),
            None => None,
        }
    }
}

} // verus!
