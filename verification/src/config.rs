//! Settings of the agent: where the remote service lives, the token it
//! accepts, and the devices and limits chosen by the user.

use vstd::prelude::*;
use vstd::string::*;
use crate::text::{chars_of, decimal, digits_number, is_digit, parse_digits, push_decimal};

verus! {

/// Port of the remote service unless configured otherwise.
pub const DEFAULT_API_PORT: u16 = 14443;

/// Port of the local control plane unless configured otherwise.
pub const DEFAULT_LOCAL_PORT: u16 = 12345;

#[derive(Debug, Clone)]
pub struct Config {
    pub api_port: u16,
    pub api_host: String,
    pub api_token: String,
    pub local_port: u16,
    pub input_device_name: Option<String>,
    pub output_device_name: Option<String>,
    pub last_version: Option<String>,
    /// Shortest meeting worth keeping, in minutes; absent or 0 keeps all.
    pub min_meeting_length: Option<u32>,
}

/// Changes to the settings; an absent field leaves the setting as it is.
#[derive(Debug, Clone)]
pub struct ConfigUpdate {
    pub api_port: Option<u16>,
    pub api_token: Option<String>,
    pub input_device_name: Option<String>,
    pub output_device_name: Option<String>,
}

/// Settings as earlier releases stored them.
#[derive(Debug, Clone)]
pub struct LegacyConfig {
    pub api_url: Option<String>,
    pub api_token: Option<String>,
    pub web_app_url: Option<String>,
    pub input_device_name: Option<String>,
    pub output_device_name: Option<String>,
}

#[derive(Debug, PartialEq, Eq, Clone, Copy)]
pub enum ConfigError {
    /// An authorization came without a token.
    EmptyToken,
}

pub fn default_api_port() -> (port: u16)
    ensures
        port == DEFAULT_API_PORT,
{
    DEFAULT_API_PORT
}

pub fn default_api_host() -> (host: String)
    ensures
        host@ == "localhost"@,
{
    String::from_str("localhost")
}

pub fn default_local_port() -> (port: u16)
    ensures
        port == DEFAULT_LOCAL_PORT,
{
    DEFAULT_LOCAL_PORT
}

/// `https://host:port`, the address of the remote service's web front.
pub open spec fn web_url_of(host: Seq<char>, port: u16) -> Seq<char> {
    "https://"@ + host + ":"@ + decimal(port as nat)
}

/// The address under which the remote service takes calls.
pub open spec fn api_url_of(host: Seq<char>, port: u16) -> Seq<char> {
    web_url_of(host, port) + "/api/v1"@
}

impl Config {
    pub fn get_api_url(&self) -> (url: String)
        ensures
            url@ == api_url_of(self.api_host@, self.api_port),
    {
        let mut url = self.get_web_url();
        url.append("/api/v1");
        url
    }

    pub fn get_web_url(&self) -> (url: String)
        ensures
            url@ == web_url_of(self.api_host@, self.api_port),
    {
        let mut url = String::from_str("https://");
        url.append(self.api_host.as_str());
        url.append(":");
        push_decimal(&mut url, self.api_port as u64);
        url
    }

    /// Whether a token for the remote service is configured.
    pub fn has_token(&self) -> (yes: bool)
        ensures
            yes == (self.api_token@.len() > 0),
    {
        !self.api_token.as_str().is_empty()
    }

    /// Takes over the token and connection details of a pairing request.
    /// A request without a token is refused and changes nothing.
    pub fn authorize(&mut self, token: String, api_host: Option<String>, api_port: Option<u16>) -> (outcome:
        Result<(), ConfigError>)
        ensures
            token@.len() == 0 ==> outcome == Err::<(), ConfigError>(ConfigError::EmptyToken) && *final(self) == *old(
                self,
            ),
            token@.len() > 0 ==> outcome is Ok && *final(self) == (Config {
                api_token: token,
                api_host: if let Some(host) = api_host {
                    host
                } else {
                    old(self).api_host
                },
                api_port: if let Some(port) = api_port {
                    port
                } else {
                    old(self).api_port
                },
                ..*old(self)
            }),
    {
        if token.as_str().is_empty() {
            return Err(ConfigError::EmptyToken);
        }
        self.api_token = token;
        if let Some(host) = api_host {
            self.api_host = host;
        }
        if let Some(port) = api_port {
            self.api_port = port;
        }
        Ok(())
    }

    /// Applies the fields that `update` carries.
    pub fn apply(&mut self, update: ConfigUpdate)
        ensures
            *final(self) == (Config {
                api_port: if let Some(port) = update.api_port {
                    port
                } else {
                    old(self).api_port
                },
                api_token: if let Some(token) = update.api_token {
                    token
                } else {
                    old(self).api_token
                },
                input_device_name: if update.input_device_name is Some {
                    update.input_device_name
                } else {
                    old(self).input_device_name
                },
                output_device_name: if update.output_device_name is Some {
                    update.output_device_name
                } else {
                    old(self).output_device_name
                },
                ..*old(self)
            }),
    {
        if let Some(port) = update.api_port {
            self.api_port = port;
        }
        if let Some(token) = update.api_token {
            self.api_token = token;
        }
        if update.input_device_name.is_some() {
            self.input_device_name = update.input_device_name;
        }
        if update.output_device_name.is_some() {
            self.output_device_name = update.output_device_name;
        }
    }
}

impl Default for Config {
    fn default() -> (config: Self)
        ensures
            config.api_port == DEFAULT_API_PORT,
            config.api_host@ == "localhost"@,
            config.api_token@.len() == 0,
            config.local_port == DEFAULT_LOCAL_PORT,
            config.input_device_name is None,
            config.output_device_name is None,
            config.last_version is None,
            config.min_meeting_length is None,
    {
        Config {
            api_port: DEFAULT_API_PORT,
            api_host: default_api_host(),
            api_token: String::new(),
            local_port: DEFAULT_LOCAL_PORT,
            input_device_name: None,
            output_device_name: None,
            last_version: None,
            min_meeting_length: None,
        }
    }
}

/// Whether `pattern` stands in `s` at position `at`.
pub open spec fn stands_at(s: Seq<char>, pattern: Seq<char>, at: int) -> bool {
    0 <= at && at + pattern.len() <= s.len() && s.subrange(at, at + pattern.len()) == pattern
}

/// Position of the first occurrence of `pattern` in `s` at or after `from`;
/// the length of `s` if there is none.
pub open spec fn find_text(s: Seq<char>, pattern: Seq<char>, from: int) -> int
    decreases s.len() - from,
{
    if from < 0 || from >= s.len() || from + pattern.len() > s.len() {
        s.len() as int
    } else if stands_at(s, pattern, from) {
        from
    } else {
        find_text(s, pattern, from + 1)
    }
}

/// End of the run of decimal digits that starts at `from`.
pub open spec fn digit_run_end(s: Seq<char>, from: int) -> int
    decreases s.len() - from,
{
    if 0 <= from < s.len() && is_digit(s[from]) {
        digit_run_end(s, from + 1)
    } else {
        from
    }
}

/// The port that a stored address names: the digits that follow the first
/// `localhost:`, read as a 16-bit number. Without `localhost:`, without
/// digits after it, or with a number out of range, the default port.
pub open spec fn legacy_port_of(api_url: Seq<char>) -> u16 {
    let host = "localhost:"@;
    let at = find_text(api_url, host, 0);
    if at >= api_url.len() {
        DEFAULT_API_PORT
    } else {
        let from = at + host.len();
        match digits_number(api_url.subrange(from, digit_run_end(api_url, from)), u16::MAX as nat) {
            Some(port) => port as u16,
            None => DEFAULT_API_PORT,
        }
    }
}

/// Whether `pattern` stands in `s` at `at`.
fn matches_at(s: &Vec<char>, pattern: &Vec<char>, at: usize) -> (yes: bool)
    requires
        at + pattern@.len() <= s@.len(),
    ensures
        yes == stands_at(s@, pattern@, at as int),
{
    let len: usize = s.len();
    let mut k: usize = 0;
    while k < pattern.len()
        invariant
            k <= pattern@.len(),
            at + pattern@.len() <= s@.len(),
            s@.len() == len,
            s@.subrange(at as int, at + k) == pattern@.take(k as int),
        decreases pattern@.len() - k,
    {
        if s[at + k] != pattern[k] {
            assert(s@.subrange(at as int, at + pattern@.len())[k as int] != pattern@[k as int]);
            return false;
        }
        assert(s@.subrange(at as int, at + k + 1) =~= pattern@.take(k + 1));
        k = k + 1;
    }
    assert(pattern@.take(pattern@.len() as int) =~= pattern@);
    true
}

/// Reads the port out of an address stored by an earlier release.
pub fn legacy_api_port(api_url: &str) -> (port: u16)
    ensures
        port == legacy_port_of(api_url@),
{
    let url = chars_of(api_url);
    let host = chars_of("localhost:");
    proof {
        reveal_strlit("localhost:");
    }
    if host.len() > url.len() {
        return DEFAULT_API_PORT;
    }
    let last: usize = url.len() - host.len();
    let mut at: usize = 0;
    let mut found = false;
    while at <= last && !found
        invariant
            last == url@.len() - host@.len(),
            host@.len() == 10,
            last <= usize::MAX - 10,
            at <= last + 1,
            find_text(url@, host@, 0) == find_text(url@, host@, at as int),
            found ==> at <= last && stands_at(url@, host@, at as int),
        decreases last + 1 - at + (if found { 0int } else { 1int }),
    {
        if matches_at(&url, &host, at) {
            found = true;
        } else {
            at = at + 1;
        }
    }
    if !found {
        return DEFAULT_API_PORT;
    }
    let from: usize = at + host.len();
    let mut end: usize = from;
    while end < url.len() && url[end] >= '0' && url[end] <= '9'
        invariant
            from <= end <= url@.len(),
            digit_run_end(url@, from as int) == digit_run_end(url@, end as int),
        decreases url@.len() - end,
    {
        end = end + 1;
    }
    match parse_digits(&url, from, end, 0xffff) {
        Some(port) => port as u16,
        None => DEFAULT_API_PORT,
    }
}

impl Config {
    /// The settings that follow from those of an earlier release: the port
    /// out of its address, its token and device names, the rest as by
    /// default.
    pub fn migrate_from_legacy(legacy: LegacyConfig) -> (config: Config)
        ensures
            config.api_port == (match legacy.api_url {
                Some(url) => legacy_port_of(url@),
                None => DEFAULT_API_PORT,
            }),
            config.api_host@ == "localhost"@,
            match legacy.api_token {
                Some(token) => config.api_token == token,
                None => config.api_token@.len() == 0,
            },
            config.local_port == DEFAULT_LOCAL_PORT,
            config.input_device_name == legacy.input_device_name,
            config.output_device_name == legacy.output_device_name,
            config.last_version is None,
            config.min_meeting_length is None,
    {
        let api_port = match &legacy.api_url {
            Some(url) => legacy_api_port(url.as_str()),
            None => DEFAULT_API_PORT,
        };
        let api_token = match legacy.api_token {
            Some(token) => token,
            None => String::new(),
        };
        Config {
            api_port,
            api_host: default_api_host(),
            api_token,
            local_port: DEFAULT_LOCAL_PORT,
            input_device_name: legacy.input_device_name,
            output_device_name: legacy.output_device_name,
            last_version: None,
            min_meeting_length: None,
        }
    }
}

} // verus!
