//! Where a feed connects: the target host and port of a WebSocket URL, and
//! the HTTP proxy (if any) to tunnel through.

use vstd::prelude::*;

verus! {

/// The host and port of a parsed URL.
#[derive(Clone, Debug)]
pub struct UrlParts {
    pub host: Option<String>,
    pub port: Option<u16>,
}

/// What `url::Url::parse` gives for the text, as its host (`host_str`) and
/// explicit port (`port`); `None` where parsing fails.
pub uninterp spec fn url_parts(s: Seq<char>) -> Option<(Option<Seq<char>>, Option<u16>)>;

/// The plain view of parsed URL parts.
pub open spec fn parts_view(p: Option<UrlParts>) -> Option<(Option<Seq<char>>, Option<u16>)> {
    match p {
        None => None,
        Some(u) => Some(
            (
                match u.host {
                    Some(h) => Some(h@),
                    None => None,
                },
                u.port,
            ),
        ),
    }
}

/// Parses a URL into its host and explicit port.
///
/// Trusted: calls `url::Url::parse`, then `Url::host_str` and `Url::port`
/// on the result; claims that the result is the named parse of the text.
#[verifier::external_body]
fn parse_url(s: &str) -> (r: Option<UrlParts>)
    ensures
        parts_view(r) == url_parts(s@),
{
    match url::Url::parse(s) {
        Ok(u) => Some(UrlParts {
            host: match u.host_str() {
                Some(h) => Some(h.to_string()),
                None => None,
            },
            port: u.port(),
        }),
        Err(_) => None,
    }
}

/// Why a connection could not be planned.
#[derive(Clone, Copy, Debug, PartialEq, Eq, Structural)]
pub enum ConnectError {
    /// The WebSocket URL does not parse.
    BadUrl,
    /// The WebSocket URL has no host.
    NoHost,
}

/// How to connect.
#[derive(Clone, Debug)]
pub enum ConnectPlan {
    /// Connect straight to the URL.
    Direct,
    /// Tunnel through an HTTP proxy to the target host and port.
    ViaProxy { proxy_host: String, proxy_port: u16, host: String, port: u16 },
}

/// The proxy of a proxy setting: its host (default `127.0.0.1`) and port
/// (default 7890); none where unset or not a URL.
pub open spec fn proxy_spec(setting: Option<Seq<char>>) -> Option<(Seq<char>, u16)> {
    match setting {
        None => None,
        Some(v) => match url_parts(v) {
            None => None,
            Some((host, port)) => Some(
                (
                    match host {
                        Some(h) => h,
                        None => "127.0.0.1"@,
                    },
                    match port {
                        Some(p) => p,
                        None => 7890,
                    },
                ),
            ),
        },
    }
}

/// The proxy named by the `https_proxy` (else `HTTPS_PROXY`) setting.
pub fn get_proxy(setting: Option<String>) -> (r: Option<(String, u16)>)
    ensures
        match r {
            None => proxy_spec(match setting {
                Some(s) => Some(s@),
                None => None,
            }) is None,
            Some((h, p)) => proxy_spec(match setting {
                Some(s) => Some(s@),
                None => None,
            }) == Some((h@, p)),
        },
{
    let v = match &setting {
        Some(v) => v,
        None => {
            return None;
        },
    };
    let parts = match parse_url(v.as_str()) {
        Some(p) => p,
        None => {
            return None;
        },
    };
    let host = match parts.host {
        Some(h) => h,
        None => "127.0.0.1".to_owned(),
    };
    let port = match parts.port {
        Some(p) => p,
        None => 7890,
    };
    Some((host, port))
}

/// The connection plan for a WebSocket URL: an error where the URL does not
/// parse or has no host; through the proxy where one is set (target port
/// 443 unless the URL names one), else direct.
pub fn plan_connection(ws_url: &str, proxy_setting: Option<String>) -> (r: Result<ConnectPlan, ConnectError>)
    ensures
        match url_parts(ws_url@) {
            None => r == Err::<ConnectPlan, ConnectError>(ConnectError::BadUrl),
            Some((None, _)) => r == Err::<ConnectPlan, ConnectError>(ConnectError::NoHost),
            Some((Some(host), port)) => match proxy_spec(match proxy_setting {
                Some(s) => Some(s@),
                None => None,
            }) {
                None => r matches Ok(ConnectPlan::Direct),
                Some((ph, pp)) => r matches Ok(ConnectPlan::ViaProxy { proxy_host, proxy_port, host: h, port: p })
                    && proxy_host@ == ph && proxy_port == pp && h@ == host && p == (match port {
                    Some(x) => x,
                    None => 443,
                }),
            },
        },
{
    let parts = match parse_url(ws_url) {
        Some(p) => p,
        None => {
            return Err(ConnectError::BadUrl);
        },
    };
    let host = match parts.host {
        Some(h) => h,
        None => {
            return Err(ConnectError::NoHost);
        },
    };
    let port = match parts.port {
        Some(p) => p,
        None => 443,
    };
    match get_proxy(proxy_setting) {
        Some((proxy_host, proxy_port)) => Ok(ConnectPlan::ViaProxy { proxy_host, proxy_port, host, port }),
        None => Ok(ConnectPlan::Direct),
    }
}

} // verus!
