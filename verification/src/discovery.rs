//! The rules of endpoint discovery: where the discovery document of an
//! instance is looked for, and which endpoint it announces.

use vstd::prelude::*;

verus! {

/// Seconds the fetch of a discovery document may take.
pub const DISCOVERY_TIMEOUT: u64 = 10;

/// The user agent presented when a discovery document is fetched.
pub open spec fn discovery_user_agent() -> Seq<char> {
    "reqwest-http/1.1"@
}

/// The discovery document of an instance on the primary host.
pub open spec fn primary_url(name: Seq<char>) -> Seq<char> {
    "https://files.hornbill.com/instances/"@ + name + "/zoneinfo"@
}

/// The discovery document of an instance on the backup host.
pub open spec fn backup_url(name: Seq<char>) -> Seq<char> {
    "https://files.hornbill.co/instances/"@ + name + "/zoneinfo"@
}

/// What a reachability probe of the primary host found.
pub enum Probe {
    /// The host answered with this status.
    Status(u16),
    /// No answer came: the connection failed or timed out.
    Unreachable,
}

/// The record of a discovery document.
pub struct Zoneinfo {
    pub cluster_fqn: String,
    pub release_stream: String,
    pub endpoint: String,
    pub api_endpoint: Option<String>,
    pub message: String,
}

/// Whether a probe lets the primary host be used: only an answer with
/// status 200 does. Any other status, and a host that did not answer at
/// all, send the lookup to the backup host.
pub open spec fn primary_usable(probe: Probe) -> bool {
    probe == Probe::Status(200)
}

/// The endpoint that a discovery record announces. A record whose message is
/// not `Success` announces none. Otherwise it is the API endpoint where the
/// record has one, else the general endpoint followed by `xmlmc/`.
pub open spec fn announced_endpoint(
    message: Seq<char>,
    endpoint: Seq<char>,
    api_endpoint: Option<Seq<char>>,
) -> Option<Seq<char>> {
    if message != "Success"@ {
        None
    } else if api_endpoint is Some {
        api_endpoint
    } else {
        Some(endpoint + "xmlmc/"@)
    }
}

/// The user agent presented when a discovery document is fetched.
pub fn user_agent() -> (agent: &'static str)
    ensures
        agent@ == discovery_user_agent(),
{
    "reqwest-http/1.1"
}

/// The address of an instance's discovery document on the primary host.
pub fn primary_discovery_url(key: &str) -> (url: String)
    ensures
        url@ == primary_url(key@),
{
    let mut url = "https://files.hornbill.com/instances/".to_owned();
    url.append(key);
    url.append("/zoneinfo");
    url
}

/// The address of an instance's discovery document on the backup host.
pub fn backup_discovery_url(key: &str) -> (url: String)
    ensures
        url@ == backup_url(key@),
{
    let mut url = "https://files.hornbill.co/instances/".to_owned();
    url.append(key);
    url.append("/zoneinfo");
    url
}

/// Picks the address to fetch the discovery document from: the primary one
/// where the probe found the primary host usable, else the backup.
pub fn select_discovery_url(primary: String, backup: String, probe: &Probe) -> (url: String)
    ensures
        url == (if primary_usable(*probe) {
            primary
        } else {
            backup
        }),
{
    match probe {
        Probe::Status(code) => {
            if *code == 200 {
                primary
            } else {
                backup
            }
        },
        Probe::Unreachable => backup,
    }
}

/// The text of a string that may be absent.
pub open spec fn optional_text(s: Option<String>) -> Option<Seq<char>> {
    match s {
        Some(text) => Some(text@),
        None => None,
    }
}

/// The endpoint that a discovery record announces, if it announces one.
pub fn resolve_endpoint(info: Zoneinfo) -> (url: Option<String>)
    ensures
        optional_text(url) == announced_endpoint(
            info.message@,
            info.endpoint@,
            optional_text(info.api_endpoint),
        ),
{
    let success = "Success".to_owned();
    if info.message != success {
        return None;
    }
    match info.api_endpoint {
        Some(api) => Some(api),
        None => {
            let mut url = info.endpoint;
            url.append("xmlmc/");
            Some(url)
        },
    }
}

} // verus!
