//! The sync server's shared records and its configuration.
use vstd::prelude::*;
use crate::text::{chars_of, concat, decimal, u64_to_decimal};

verus! {

/// A device pairing offered by a logged-in device and waiting to be claimed.
pub struct PendingPairing {
    pub code: String,
    pub token: String,
    pub user_id: String,
    pub username: String,
    pub device_id: String,
    pub expires_at: i64,
    pub claimed: bool,
    pub claimed_device_name: Option<String>,
}

/// A short-lived ticket that lets a device open the WebSocket channel.
pub struct WsTicket {
    pub user_id: String,
    pub device_id: String,
    pub expires_at: i64,
}

/// Where the server listens, where it keeps its data, and the URL under
/// which it is reached.
pub struct ServerConfig {
    pub host: String,
    pub port: u16,
    pub data_dir: String,
    pub server_url: String,
}

/// The configuration variables as the environment holds them: each setting
/// under its current name and under its former name (`None` when unset or
/// not valid Unicode).
pub struct ConfigVars {
    pub host: Option<String>,
    pub legacy_host: Option<String>,
    pub port: Option<String>,
    pub legacy_port: Option<String>,
    pub data_dir: Option<String>,
    pub legacy_data_dir: Option<String>,
    pub server_url: Option<String>,
    pub legacy_server_url: Option<String>,
}

/// The value under the current name, else under the former one.
pub open spec fn either(current: Option<String>, legacy: Option<String>) -> Option<String> {
    match current {
        Some(v) => Some(v),
        None => legacy,
    }
}

/// The value of a string of ASCII digits.
pub open spec fn digits_value(d: Seq<char>) -> nat
    decreases d.len(),
{
    if d.len() == 0 {
        0
    } else {
        digits_value(d.drop_last()) * 10 + ((d.last() as u32) - ('0' as u32)) as nat
    }
}

/// Every character is an ASCII digit.
pub open spec fn all_digits(d: Seq<char>) -> bool {
    forall|i: int| 0 <= i < d.len() ==> '0' <= #[trigger] d[i] <= '9'
}

/// `u16::from_str`: an optional '+' followed by at least one ASCII digit,
/// whose value fits in 16 bits.
pub open spec fn parse_u16_spec(s: Seq<char>) -> Option<u16> {
    let d = if s.len() > 0 && s[0] == '+' { s.drop_first() } else { s };
    if d.len() > 0 && all_digits(d) && digits_value(d) <= 0xffff {
        Some(digits_value(d) as u16)
    } else {
        None
    }
}

proof fn lemma_digits_value_grows(d: Seq<char>, k: int)
    requires
        0 <= k <= d.len(),
        all_digits(d),
    ensures
        digits_value(d.take(k)) <= digits_value(d),
    decreases d.len() - k,
{
    if k < d.len() {
        lemma_digits_value_grows(d, k + 1);
        assert(d.take(k + 1).drop_last() =~= d.take(k));
        assert('0' <= d[k] <= '9');
    } else {
        assert(d.take(k) =~= d);
    }
}

/// Parses a port number the way `str::parse::<u16>` does.
pub fn parse_port(s: &str) -> (r: Option<u16>)
    ensures
        r == parse_u16_spec(s@),
{
    let v = chars_of(s);
    let start: usize = if v.len() > 0 && v[0] == '+' { 1 } else { 0 };
    let ghost d = if s@.len() > 0 && s@[0] == '+' { s@.drop_first() } else { s@ };
    assert(d =~= v@.subrange(start as int, v.len() as int));
    if start >= v.len() {
        return None;
    }
    let mut acc: u32 = 0;
    let mut i: usize = start;
    while i < v.len()
        invariant
            v@ == s@,
            start <= i <= v.len(),
            d == v@.subrange(start as int, v.len() as int),
            d == (if s@.len() > 0 && s@[0] == '+' { s@.drop_first() } else { s@ }),
            all_digits(d.take(i - start)),
            acc == digits_value(d.take(i - start)),
            acc <= 0xffff,
        decreases v.len() - i,
    {
        let c = v[i];
        assert(c == d[i - start]);
        if c < '0' || c > '9' {
            assert(!all_digits(d));
            return None;
        }
        let digit = (c as u32) - ('0' as u32);
        assert(d.take(i - start + 1).drop_last() =~= d.take(i - start));
        let next = acc * 10 + digit;
        if next > 0xffff {
            proof {
                assert(digits_value(d.take(i - start + 1)) == next);
                if all_digits(d) {
                    lemma_digits_value_grows(d, i - start + 1);
                }
            }
            return None;
        }
        acc = next;
        i += 1;
        assert(all_digits(d.take(i - start)));
    }
    assert(d.take(i - start) =~= d);
    Some(acc as u16)
}

impl ServerConfig {
    /// The configuration from the environment's variables: each setting
    /// under its current name, else its former name, else its default —
    /// host "0.0.0.0", port 8787, data directory "./data", and URL
    /// "http://localhost:" followed by the port.  A port variable that is
    /// set but not a valid port gives the default port.
    pub fn from_vars(vars: ConfigVars) -> (c: ServerConfig)
        ensures
            c.host@ == match either(vars.host, vars.legacy_host) {
                Some(h) => h@,
                None => "0.0.0.0"@,
            },
            c.port == match either(vars.port, vars.legacy_port) {
                Some(p) => match parse_u16_spec(p@) {
                    Some(n) => n,
                    None => 8787u16,
                },
                None => 8787u16,
            },
            c.data_dir@ == match either(vars.data_dir, vars.legacy_data_dir) {
                Some(d) => d@,
                None => "./data"@,
            },
            c.server_url@ == match either(vars.server_url, vars.legacy_server_url) {
                Some(u) => u@,
                None => "http://localhost:"@ + decimal(c.port as nat),
            },
    {
        let host = match either_exec(vars.host, vars.legacy_host) {
            Some(h) => h,
            None => "0.0.0.0".to_owned(),
        };
        let port: u16 = match either_exec(vars.port, vars.legacy_port) {
            Some(p) => match parse_port(p.as_str()) {
                Some(n) => n,
                None => 8787,
            },
            None => 8787,
        };
        let data_dir = match either_exec(vars.data_dir, vars.legacy_data_dir) {
            Some(d) => d,
            None => "./data".to_owned(),
        };
        let server_url = match either_exec(vars.server_url, vars.legacy_server_url) {
            Some(u) => u,
            None => {
                let digits = u64_to_decimal(port as u64);
                concat("http://localhost:", digits.as_str())
            },
        };
        ServerConfig { host, port, data_dir, server_url }
    }
}

fn either_exec(current: Option<String>, legacy: Option<String>) -> (r: Option<String>)
    ensures
        r == either(current, legacy),
{
    match current {
        Some(v) => Some(v),
        None => legacy,
    }
}

} // verus!
