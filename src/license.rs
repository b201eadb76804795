use vstd::prelude::*;
use crate::conf_text::{has_prefix, starts_with, trim_bounds, trimmed};

verus! {

/// Where license keys are validated.
pub const LICENSE_URL: &'static str = "https://manager.cloudydesk.us/api/public/license";

/// Line prefix that names the key in a license file.
pub const LICENSE_KEY_PREFIX: &'static str = "LicenseKey=";

/// Connection type an agent is configured with.
pub const AGENT_CONN_TYPE: &'static str = "incoming";

/// The company a license belongs to.
pub struct Company {
    pub id: String,
    pub name: String,
    pub license_key: String,
}

/// What a license allows.
pub struct Limits {
    pub max_agents: i32,
    pub max_clients: i32,
    pub max_sessions: i32,
}

/// The subscription behind a license.
pub struct Subscription {
    pub status: String,
    pub start: String,
    pub end: String,
}

/// A relay server a license gives access to.
pub struct RelayServer {
    pub id: String,
    pub name: String,
    pub host: String,
    pub port: i32,
    pub endpoint: String,
}

/// The license server's answer.
pub struct LicenseResponse {
    pub valid: bool,
    pub company: Option<Company>,
    pub limits: Option<Limits>,
    pub subscription: Option<Subscription>,
    pub relay_servers: Option<Vec<RelayServer>>,
}

/// Server options derived from a relay server and the license key.
pub struct ServerSettings {
    /// `<host>:21116`.
    pub rendezvous_server: String,
    /// `<host>:21117`.
    pub relay_server: String,
    /// `http://<host>:21114`.
    pub api_server: String,
    /// The encryption key: the license key.
    pub key: String,
    /// Always `incoming`.
    pub conn_type: String,
    /// The license key, kept for later runs.
    pub license_key: String,
}

/// What came back from asking the license server.
pub enum LicenseReply {
    /// The request failed, with the transport's message.
    RequestFailed(String),
    /// The answer was not a license response, with the parser's message.
    Unparsable(String),
    /// The parsed answer.
    Parsed(LicenseResponse),
}

/// Why a license was not accepted.
pub enum LicenseError {
    RequestFailed(String),
    ParseFailed(String),
    Invalid,
}

/// An accepted license, and the server options it gives when it names a
/// relay server.
pub struct LicenseOutcome {
    pub response: LicenseResponse,
    pub servers: Option<ServerSettings>,
}

/// Whether `s` holds the server options for relay host `host` and key `key`.
pub open spec fn settings_for(s: ServerSettings, host: Seq<char>, key: Seq<char>) -> bool {
    &&& s.rendezvous_server@ == host + ":21116"@
    &&& s.relay_server@ == host + ":21117"@
    &&& s.api_server@ == "http://"@ + host + ":21114"@
    &&& s.key@ == key
    &&& s.conn_type@ == AGENT_CONN_TYPE@
    &&& s.license_key@ == key
}

/// The server options for `relay_server` under `license_key`.
pub fn configure_servers_from_license(relay_server: &RelayServer, license_key: &str) -> (r:
    ServerSettings)
    ensures
        settings_for(r, relay_server.host@, license_key@),
{
    let host = relay_server.host.as_str();
    ServerSettings {
        rendezvous_server: String::from_str(host).concat(":21116"),
        relay_server: String::from_str(host).concat(":21117"),
        api_server: String::from_str("http://").concat(host).concat(":21114"),
        key: String::from_str(license_key),
        conn_type: String::from_str(AGENT_CONN_TYPE),
        license_key: String::from_str(license_key),
    }
}

/// The relay server a response configures: the first one it lists.
pub open spec fn first_relay(resp: LicenseResponse) -> Option<RelayServer> {
    match resp.relay_servers {
        Some(v) => if v@.len() > 0 {
            Some(v@[0])
        } else {
            None
        },
        None => None,
    }
}

/// Decides on a license from the server's reply: a failed request or an
/// unparsable answer is an error carrying its message; a response that is
/// not valid is `Invalid`; a valid one is accepted, with the server options
/// of its first relay server when it lists one.
pub fn validate_and_configure_license(license_key: &str, reply: LicenseReply) -> (r: Result<
    LicenseOutcome,
    LicenseError,
>)
    ensures
        (match reply {
            LicenseReply::RequestFailed(e) => r matches Err(LicenseError::RequestFailed(m)) && m@
                == e@,
            LicenseReply::Unparsable(e) => r matches Err(LicenseError::ParseFailed(m)) && m@ == e@,
            LicenseReply::Parsed(resp) => if resp.valid {
                r is Ok && r->Ok_0.response == resp && match first_relay(resp) {
                    Some(relay) => r->Ok_0.servers is Some && settings_for(
                        r->Ok_0.servers->Some_0,
                        relay.host@,
                        license_key@,
                    ),
                    None => r->Ok_0.servers is None,
                }
            } else {
                r matches Err(LicenseError::Invalid)
            },
        }),
{
    match reply {
        LicenseReply::RequestFailed(e) => Err(LicenseError::RequestFailed(e)),
        LicenseReply::Unparsable(e) => Err(LicenseError::ParseFailed(e)),
        LicenseReply::Parsed(resp) => {
            if !resp.valid {
                return Err(LicenseError::Invalid);
            }
            let servers = match &resp.relay_servers {
                Some(v) => {
                    if v.len() > 0 {
                        Some(configure_servers_from_license(&v[0], license_key))
                    } else {
                        None
                    }
                },
                None => None,
            };
            Ok(LicenseOutcome { response: resp, servers })
        },
    }
}

impl LicenseError {
    /// The message shown for this error.
    pub fn message(&self) -> (r: String)
        ensures
            (match self {
                LicenseError::RequestFailed(e) => r@ == "License validation request failed: "@
                    + e@,
                LicenseError::ParseFailed(e) => r@ == "Failed to parse license response: "@ + e@,
                LicenseError::Invalid => r@ == "License is invalid or expired"@,
            }),
    {
        match self {
            LicenseError::RequestFailed(e) => String::from_str(
                "License validation request failed: ",
            ).concat(e.as_str()),
            LicenseError::ParseFailed(e) => String::from_str(
                "Failed to parse license response: ",
            ).concat(e.as_str()),
            LicenseError::Invalid => String::from_str("License is invalid or expired"),
        }
    }
}

/// Start-up license check: `true` exactly when a key was found and the
/// server's reply accepts it.
pub fn init_license_validation(license_key: Option<String>, reply: Option<LicenseReply>) -> (r:
    bool)
    ensures
        r == (license_key is Some && (match reply {
            Some(LicenseReply::Parsed(resp)) => resp.valid,
            _ => false,
        })),
{
    match license_key {
        None => false,
        Some(key) => match reply {
            None => false,
            Some(rep) => validate_and_configure_license(key.as_str(), rep).is_ok(),
        },
    }
}

/// The key a trimmed line of a license file gives: what follows
/// `LicenseKey=`, trimmed, if anything; else the whole line unless it is
/// empty or a `#` comment.
pub open spec fn line_license_key(line: Seq<char>) -> Option<Seq<char>> {
    if starts_with(line, LICENSE_KEY_PREFIX@) {
        let k = trimmed(line.subrange(LICENSE_KEY_PREFIX@.len() as int, line.len() as int));
        if k.len() > 0 {
            Some(k)
        } else {
            None
        }
    } else if line.len() > 0 && line[0] != '#' {
        Some(line)
    } else {
        None
    }
}

/// The first key given by a line of `s`, scanning from position `i` within
/// the line that starts at `start`; lines end at `\n`.
pub open spec fn conf_key_scan(s: Seq<char>, start: int, i: int) -> Option<Seq<char>>
    decreases s.len() - i,
{
    if i >= s.len() {
        line_license_key(trimmed(s.subrange(start, s.len() as int)))
    } else if s[i] == '\n' {
        match line_license_key(trimmed(s.subrange(start, i))) {
            Some(k) => Some(k),
            None => conf_key_scan(s, i + 1, i + 1),
        }
    } else {
        conf_key_scan(s, start, i + 1)
    }
}

/// The key a license file with content `s` gives: that of its first line
/// that gives one.
pub open spec fn conf_license_key(s: Seq<char>) -> Option<Seq<char>> {
    conf_key_scan(s, 0, 0)
}

/// The key the line `s[from..to]` gives (see `line_license_key`).
fn line_key(s: &str, from: usize, to: usize) -> (r: Option<String>)
    requires
        from <= to <= s@.len(),
    ensures
        match r {
            Some(k) => line_license_key(trimmed(s@.subrange(from as int, to as int))) == Some(k@),
            None => line_license_key(trimmed(s@.subrange(from as int, to as int))) is None,
        },
{
    let (a, b) = trim_bounds(s, from, to);
    let ghost line = s@.subrange(a as int, b as int);
    if has_prefix(s, a, b, LICENSE_KEY_PREFIX) {
        let n = LICENSE_KEY_PREFIX.unicode_len();
        let (ka, kb) = trim_bounds(s, a + n, b);
        assert(s@.subrange(a + n, b as int) =~= line.subrange(n as int, line.len() as int));
        if ka < kb {
            let k = s.substring_char(ka, kb);
            return Some(String::from_str(k));
        }
        return None;
    }
    if a < b && s.get_char(a) != '#' {
        let k = s.substring_char(a, b);
        Some(String::from_str(k))
    } else {
        None
    }
}

/// The key a license file with content `content` gives (see `conf_license_key`).
pub fn license_key_from_conf(content: &str) -> (r: Option<String>)
    ensures
        match r {
            Some(k) => conf_license_key(content@) == Some(k@),
            None => conf_license_key(content@) is None,
        },
{
    let n = content.unicode_len();
    let mut start: usize = 0;
    let mut i: usize = 0;
    while i < n
        invariant
            n == content@.len(),
            0 <= start <= i <= n,
            conf_license_key(content@) == conf_key_scan(content@, start as int, i as int),
        decreases n - i,
    {
        if content.get_char(i) == '\n' {
            match line_key(content, start, i) {
                Some(k) => return Some(k),
                None => {},
            }
            start = i + 1;
        }
        i = i + 1;
    }
    line_key(content, start, n)
}

/// The license key: the one built in when it is not empty, else the one the
/// license file beside the executable gives (`None`: no such file).
pub fn get_license_key(built_in: Option<&str>, conf_content: Option<&str>) -> (r: Option<String>)
    ensures
        match built_in {
            Some(k) if k@.len() > 0 => r is Some && r->Some_0@ == k@,
            _ => match conf_content {
                Some(c) => match r {
                    Some(k) => conf_license_key(c@) == Some(k@),
                    None => conf_license_key(c@) is None,
                },
                None => r is None,
            },
        },
{
    match built_in {
        Some(k) => {
            if k.unicode_len() > 0 {
                return Some(String::from_str(k));
            }
        },
        None => {},
    }
    match conf_content {
        Some(c) => license_key_from_conf(c),
        None => None,
    }
}

} // verus!
