use vstd::prelude::*;
use vstd::string::StringExecFns;
use crate::numtext::{dec_rep, u16_dec_string};
use crate::rawjson::{config_values_of, probe_config_values};
use crate::state::{ConfigView, ConnectionConfig, default_config_view};

verus! {

/// Loading and writing back the persisted configuration. The embedding
/// program reads the file and performs whatever file action is decided
/// here; everything between — parsing the content, deciding how to recover
/// from a bad file, and the exact text of a replacement file — is this
/// module.

/// What reading the configuration file yielded.
pub enum ConfigRead {
    /// No configuration directory is available on this machine.
    Missing,
    /// The file could not be read.
    Unreadable,
    /// The file's content.
    Content(String),
}

/// What must happen to the configuration file afterwards.
#[derive(Debug)]
pub enum ConfigFileAction {
    /// Leave the file alone.
    Nothing,
    /// The content was corrupt: delete the file and write this document in
    /// its place.
    ReplaceCorrupt(String),
}

/// Build a configuration from probed values; this is where a configuration
/// document's values are actually judged. It succeeds exactly when the wide
/// port value lies in port range, and the built configuration carries the
/// three values unchanged.
pub fn config_of_values(address: String, port_wide: i64, auto_update: bool) -> (r: Option<
    ConnectionConfig,
>)
    ensures
        r is Some <==> 0 <= port_wide <= 65535,
        r matches Some(c) ==> c@.address == address@ && c@.port == port_wide as u16
            && c@.auto_update == auto_update,
{
    if port_wide < 0 || port_wide > 65535 {
        None
    } else {
        Some(ConnectionConfig { address, port: port_wide as u16, auto_update })
    }
}

/// What parsing a configuration document must yield, over the named probe
/// of the text: the probed values when all three members are present and
/// the port is in range, nothing otherwise.
pub open spec fn spec_parse_config(s: Seq<char>) -> Option<ConfigView> {
    match config_values_of(s) {
        Option::None => Option::None,
        Option::Some(t) => if 0 <= t.1 <= 65535 {
            Option::Some(ConfigView { address: t.0, port: t.1 as u16, auto_update: t.2 })
        } else {
            Option::None
        },
    }
}

/// A parse result, seen mathematically.
pub open spec fn parsed_config_view(r: Option<ConnectionConfig>) -> Option<ConfigView> {
    match r {
        Option::Some(c) => Option::Some(c@),
        Option::None => Option::None,
    }
}

/// Parse a configuration document: a JSON object with a string
/// `ip_address`, an integer `web_socket_port` in port range, and a boolean
/// `auto_update`. The result is exactly [`spec_parse_config`] of the text.
pub fn parse_config(text: &str) -> (r: Option<ConnectionConfig>)
    ensures
        parsed_config_view(r) == spec_parse_config(text@),
{
    match probe_config_values(text) {
        Some((address, port_wide, auto_update)) => config_of_values(
            address,
            port_wide,
            auto_update,
        ),
        None => None,
    }
}

/// No character of `s` needs escaping inside a JSON string literal.
pub open spec fn json_string_safe(s: Seq<char>) -> bool {
    forall|i: int| 0 <= i < s.len() ==> s[i] != '"' && s[i] != '\\' && ' ' <= s[i]
}

/// The configuration document for `c`, as this crate writes it.
pub open spec fn config_doc_text(c: ConfigView) -> Seq<char>
    recommends
        json_string_safe(c.address),
{
    "{\"ip_address\":\""@ + c.address + "\",\"web_socket_port\":"@ + dec_rep(c.port as int)
        + ",\"auto_update\":"@ + (if c.auto_update {
        "true"@
    } else {
        "false"@
    }) + "}"@
}

/// Encode a configuration as its document, declining exactly when the
/// address would need escaping inside the JSON string literal.
pub fn encode_config(c: &ConnectionConfig) -> (r: Option<String>)
    ensures
        r is Some <==> json_string_safe(c@.address),
        r matches Some(t) ==> t@ == config_doc_text(c@),
{
    let a = c.address.as_str();
    let n = a.unicode_len();
    let mut i: usize = 0;
    while i < n
        invariant
            i <= n,
            n == a@.len(),
            a@ == c@.address,
            forall|j: int| 0 <= j < i ==> a@[j] != '"' && a@[j] != '\\' && ' ' <= a@[j],
        decreases n - i,
    {
        let ch = a.get_char(i);
        if ch == '"' || ch == '\\' || !(' ' <= ch) {
            proof {
                assert(!json_string_safe(a@)) by {
                    if json_string_safe(a@) {
                        let ghost k: int = i as int;
                        assert(a@[k] != '"' && a@[k] != '\\' && ' ' <= a@[k]);
                    }
                }
            }
            return None;
        }
        i = i + 1;
    }
    let mut r = String::from_str("{\"ip_address\":\"");
    r.append(a);
    r.append("\",\"web_socket_port\":");
    let digits = u16_dec_string(c.port);
    r.append(digits.as_str());
    r.append(",\"auto_update\":");
    r.append(if c.auto_update {
        "true"
    } else {
        "false"
    });
    r.append("}");
    proof {
        assert(r@ =~= config_doc_text(c@));
    }
    Some(r)
}

/// Decide what configuration to run with, given the parse outcome of a
/// file that was present and readable: a parsed configuration is used as
/// is; a corrupt file yields the default configuration and the order to
/// replace the file with exactly the default's document.
pub fn config_from_parse(parsed: Option<ConnectionConfig>) -> (r: (
    ConnectionConfig,
    ConfigFileAction,
))
    ensures
        parsed matches Some(c) ==> r.0@ == c@ && r.1 is Nothing,
        parsed is None ==> r.0@ == default_config_view() && (r.1
            matches ConfigFileAction::ReplaceCorrupt(doc) && doc@ == config_doc_text(
            default_config_view(),
        )),
{
    match parsed {
        Some(c) => (c, ConfigFileAction::Nothing),
        None => {
            let fallback = ConnectionConfig::default();
            proof {
                assert(json_string_safe(default_config_view().address)) by {
                    reveal_strlit("127.0.0.1");
                }
            }
            let doc = match encode_config(&fallback) {
                Some(t) => t,
                None => vstd::pervasive::unreached(),
            };
            (fallback, ConfigFileAction::ReplaceCorrupt(doc))
        },
    }
}

/// The whole load: a missing directory or an unreadable file falls back to
/// the default configuration and leaves the file alone; readable content
/// parses as [`spec_parse_config`] says, a good document is used as is,
/// and a corrupt one yields the default plus the replacement document.
/// Never fails.
pub fn load_config(read: &ConfigRead) -> (r: (ConnectionConfig, ConfigFileAction))
    ensures
        !(read matches ConfigRead::Content(_)) ==> r.0@ == default_config_view() && r.1
            is Nothing,
        read matches ConfigRead::Content(s) ==> {
            &&& (spec_parse_config(s@) matches Some(c) ==> r.0@ == c && r.1 is Nothing)
            &&& (spec_parse_config(s@) is None ==> r.0@ == default_config_view() && (r.1
                matches ConfigFileAction::ReplaceCorrupt(doc) && doc@ == config_doc_text(
                default_config_view(),
            )))
        },
{
    match read {
        ConfigRead::Content(text) => config_from_parse(parse_config(text.as_str())),
        _ => (ConnectionConfig::default(), ConfigFileAction::Nothing),
    }
}

} // verus!
