//! From the URL that the user gives to the address that is connected to.
use vstd::prelude::*;

use crate::text::{decimal, decimal_is_injective, decimal_text, digits_only, same_text};

verus! {

/// The port that is used where the URL names none.
pub const QUIC_DEFAULT_PORT: u16 = 4433;

/// `url::ParseError`: why a text is no URL. It is only passed on.
#[verifier::external_type_specification]
#[verifier::external_body]
pub struct ExUrlParseError(url::ParseError);

/// What is read off a URL.
#[derive(Debug)]
pub struct UrlParts {
    pub scheme: String,
    pub host: Option<String>,
    pub port: Option<u16>,
}

/// The content of `UrlParts`.
pub struct UrlView {
    pub scheme: Seq<char>,
    pub host: Option<Seq<char>>,
    pub port: Option<u16>,
}

impl View for UrlParts {
    type V = UrlView;

    open spec fn view(&self) -> UrlView {
        UrlView {
            scheme: self.scheme@,
            host: match self.host {
                Some(h) => Some(h@),
                None => None,
            },
            port: self.port,
        }
    }
}

/// The scheme, host and port of the URL that a text denotes, or `None` where it
/// denotes none.
pub uninterp spec fn url_of(text: Seq<char>) -> Option<UrlView>;

/// `url::Url::parse`, and what `scheme`, `host_str` and `port` read off its
/// result. All of it depends on the text alone. A port that is the default one
/// of the scheme counts as absent, so an `https` URL never shows port 443.
#[verifier::external_body]
fn parse_url(text: &str) -> (r: Result<UrlParts, url::ParseError>)
    ensures
        match r {
            Ok(parts) => url_of(text@) == Some(parts@) && (parts@.scheme == "https"@ ==> parts@.port
                != Some(443u16)),
            Err(_) => url_of(text@) is None,
        },
{
    let url = url::Url::parse(text)?;
    Ok(UrlParts {
        scheme: url.scheme().to_string(),
        host: url.host_str().map(|h| h.to_string()),
        port: url.port(),
    })
}

/// Why a URL does not lead to an address.
#[derive(Debug, Clone, Copy, PartialEq, Eq, Structural)]
pub enum ResolveError {
    /// The text is no URL.
    CannotParse,
    /// The scheme is not `https`.
    WrongScheme,
    /// The URL has no host.
    NoHost,
    /// The host has no address.
    NoAddress,
}

impl ResolveError {
    /// The text of the error.
    pub open spec fn text(self) -> Seq<char> {
        match self {
            ResolveError::CannotParse => "cannot parse URL."@,
            ResolveError::WrongScheme => "URL Scheme can only be \"https\"."@,
            ResolveError::NoHost => "invalid URL"@,
            ResolveError::NoAddress => "couldn't resolve to an address"@,
        }
    }

    /// The text of the error, for the user.
    pub fn message(self) -> (r: &'static str)
        ensures
            r@ == self.text(),
    {
        match self {
            ResolveError::CannotParse => "cannot parse URL.",
            ResolveError::WrongScheme => "URL Scheme can only be \"https\".",
            ResolveError::NoHost => "invalid URL",
            ResolveError::NoAddress => "couldn't resolve to an address",
        }
    }
}

/// The host and port that a URL stands for.
#[derive(Debug, PartialEq, Eq)]
pub struct Target {
    pub host: String,
    pub port: u16,
}

/// The content of a `Target`.
pub struct TargetView {
    pub host: Seq<char>,
    pub port: u16,
}

impl View for Target {
    type V = TargetView;

    open spec fn view(&self) -> TargetView {
        TargetView { host: self.host@, port: self.port }
    }
}

/// The target that a URL stands for. The scheme is looked at before the host.
pub open spec fn target_of(url: Option<UrlView>) -> Result<TargetView, ResolveError> {
    match url {
        None => Err(ResolveError::CannotParse),
        Some(parts) => if parts.scheme != "https"@ {
            Err(ResolveError::WrongScheme)
        } else {
            match parts.host {
                None => Err(ResolveError::NoHost),
                Some(host) => Ok(
                    TargetView {
                        host,
                        port: match parts.port {
                            Some(port) => port,
                            None => QUIC_DEFAULT_PORT,
                        },
                    },
                ),
            }
        },
    }
}

/// The view of a target that may have been refused.
pub open spec fn target_result(r: Result<Target, ResolveError>) -> Result<TargetView, ResolveError> {
    match r {
        Ok(t) => Ok(t@),
        Err(e) => Err(e),
    }
}

/// The view of the parts of a URL, if there are any.
pub open spec fn parts_view(parts: Option<UrlParts>) -> Option<UrlView> {
    match parts {
        Some(p) => Some(p@),
        None => None,
    }
}

/// The target that the parts of a URL stand for.
pub fn check_url(parts: Option<UrlParts>) -> (r: Result<Target, ResolveError>)
    ensures
        target_result(r) == target_of(parts_view(parts)),
        (parts matches Some(p) && p.scheme@ == "https"@ && p.host is Some) ==> (r matches Ok(t) && t.host@
            == parts->0.host->0@ && (parts->0.port matches Some(port) ==> t.port == port) && (parts->0.port is None
            ==> t.port == 4433)),
{
    let parts = match parts {
        Some(p) => p,
        None => return Err(ResolveError::CannotParse),
    };
    if !same_text(parts.scheme.as_str(), "https") {
        return Err(ResolveError::WrongScheme);
    }
    let host = match parts.host {
        Some(h) => h,
        None => return Err(ResolveError::NoHost),
    };
    let port: u16 = match parts.port {
        Some(p) => p,
        None => QUIC_DEFAULT_PORT,
    };
    Ok(Target { host, port })
}

/// The target that the URL `url` stands for. As the default port of `https`
/// counts as absent, a URL that names port 443 leads to `QUIC_DEFAULT_PORT`.
pub fn resolve_url(url: String) -> (r: Result<Target, ResolveError>)
    ensures
        target_result(r) == target_of(url_of(url@)),
        r matches Ok(t) ==> t.port != 443,
{
    let parts = match parse_url(url.as_str()) {
        Ok(parts) => Some(parts),
        Err(_) => None,
    };
    check_url(parts)
}

/// A host and port, as the resolver takes them.
pub open spec fn authority(host: Seq<char>, port: u16) -> Seq<char> {
    host + ":"@ + decimal(port as nat)
}

/// A host and port, as the resolver takes them.
pub fn authority_text(host: &str, port: u16) -> (r: String)
    ensures
        r@ == authority(host@, port),
{
    let mut r = host.to_owned();
    r.append(":");
    r.append(decimal_text(port as u64).as_str());
    r
}

/// The address that is used of those to which a name resolves: the first.
pub fn first_address<A>(addresses: Vec<A>) -> (r: Option<A>)
    ensures
        r == (if addresses@.len() == 0 { None } else { Some(addresses@[0]) }),
{
    let mut addresses = addresses;
    if addresses.len() == 0 {
        None
    } else {
        Some(addresses.remove(0))
    }
}

/// The host and the address to connect to, once the host has been looked up.
pub fn remote<A>(host: String, addresses: Vec<A>) -> (r: Result<(String, A), ResolveError>)
    ensures
        r == (if addresses@.len() == 0 {
            Err(ResolveError::NoAddress)
        } else {
            Ok((host, addresses@[0]))
        }),
{
    match first_address(addresses) {
        Some(address) => Ok((host, address)),
        None => Err(ResolveError::NoAddress),
    }
}

/// Why there is no connection to a server.
#[derive(Debug, PartialEq, Eq)]
pub enum ConnectError {
    /// The host has no address.
    NoAddress,
    /// The server could not be connected to, for this reason.
    Failed(String),
}

/// The content of a `ConnectError`.
pub enum ConnectErrorView {
    NoAddress,
    Failed(Seq<char>),
}

impl View for ConnectError {
    type V = ConnectErrorView;

    open spec fn view(&self) -> ConnectErrorView {
        match *self {
            ConnectError::NoAddress => ConnectErrorView::NoAddress,
            ConnectError::Failed(reason) => ConnectErrorView::Failed(reason@),
        }
    }
}

impl ConnectErrorView {
    /// The text of the error.
    pub open spec fn text(self) -> Seq<char> {
        match self {
            ConnectErrorView::NoAddress => "invalid hostname or port"@,
            ConnectErrorView::Failed(reason) => "failed to connect: "@ + reason,
        }
    }
}

impl ConnectError {
    /// The text of the error, for the user.
    pub fn message(&self) -> (r: String)
        ensures
            r@ == self@.text(),
    {
        match self {
            ConnectError::NoAddress => "invalid hostname or port".to_owned(),
            ConnectError::Failed(reason) => {
                let mut r = "failed to connect: ".to_owned();
                r.append(reason.as_str());
                r
            },
        }
    }
}

/// The address to dial, once the host has been looked up.
pub fn dialled<A>(addresses: Vec<A>) -> (r: Result<A, ConnectError>)
    ensures
        r == (if addresses@.len() == 0 {
            Err(ConnectError::NoAddress)
        } else {
            Ok(addresses@[0])
        }),
{
    match first_address(addresses) {
        Some(address) => Ok(address),
        None => Err(ConnectError::NoAddress),
    }
}

/// The connection, once it has been made or has failed.
pub fn connected<C>(outcome: Result<C, String>) -> (r: Result<C, ConnectError>)
    ensures
        r == (match outcome {
            Ok(connection) => Ok(connection),
            Err(reason) => Err(ConnectError::Failed(reason)),
        }),
{
    match outcome {
        Ok(connection) => Ok(connection),
        Err(reason) => Err(ConnectError::Failed(reason)),
    }
}

/// The name under which the server is to be known: the one that the user gives
/// in place of the host of the URL, where there is one.
pub fn server_name(given: Option<String>, host: String) -> (r: String)
    ensures
        r == (match given {
            Some(name) => name,
            None => host,
        }),
{
    match given {
        Some(name) => name,
        None => host,
    }
}

/// Only `https` URLs lead anywhere, and the one that a URL leads to is its own
/// host.
pub proof fn only_https_resolves(url: Option<UrlView>)
    ensures
        target_of(url) matches Ok(target) ==> url is Some && url->0.scheme == "https"@ && url->0.host == Some(
            target.host,
        ),
        (url matches Some(parts) && parts.scheme == "https"@ && parts.host is Some) ==> target_of(url) is Ok,
{
}

/// Different ports of a host are looked up under different texts, and so are
/// different hosts under the same port.
pub proof fn authority_tells_targets_apart(host: Seq<char>, port: u16, other_host: Seq<char>, other_port: u16)
    requires
        authority(host, port) == authority(other_host, other_port),
    ensures
        host == other_host,
        port == other_port,
{
    reveal_strlit(":");
    let a = authority(host, port);
    let b = authority(other_host, other_port);
    let (h, k) = (host.len() as int, other_host.len() as int);
    digits_only(port as nat);
    digits_only(other_port as nat);
    // Behind either host stands a colon, and behind the colon only digits: so
    // the two colons stand at the same place.
    assert(a[h] == ':' && b[k] == ':');
    assert(forall|i: int| h < i < a.len() ==> #[trigger] a[i] == decimal(port as nat)[i - h - 1]);
    assert(forall|i: int| k < i < b.len() ==> #[trigger] b[i] == decimal(other_port as nat)[i - k - 1]);
    assert(h == k);
    assert(host =~= a.take(h) && other_host =~= b.take(h));
    assert(decimal(port as nat) =~= a.skip(h + 1) && decimal(other_port as nat) =~= b.skip(h + 1));
    decimal_is_injective(port as nat, other_port as nat);
}

} // verus!
