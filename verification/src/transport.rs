//! The configurations by which the two kinds of endpoint are opened.
use vstd::prelude::*;

use crate::endpoint::{ClientSetup, ServerSetup};

verus! {

/// `quinn::TransportConfig`: the limits of a connection.
#[verifier::external_type_specification]
#[verifier::external_body]
pub struct ExTransportConfig(quinn::TransportConfig);

/// `quinn::ServerConfig`: how an endpoint takes in connections.
#[verifier::external_type_specification]
#[verifier::external_body]
pub struct ExQuinnServerConfig(quinn::ServerConfig);

/// `quinn::ClientConfig`: how an endpoint makes connections.
#[verifier::external_type_specification]
#[verifier::external_body]
pub struct ExQuinnClientConfig(quinn::ClientConfig);

/// The limits of a connection, as far as they are ever set.
pub struct Limits {
    /// How many one-way streams the peer may have open at a time.
    pub one_way: u64,
    /// The limit of silence that this end sets, in milliseconds, if it sets one.
    pub idle: Option<u64>,
    /// Whether the size of packets is probed for.
    pub probes: bool,
}

/// The limits that hold where none is set: a hundred one-way streams, ten seconds
/// of silence, and probing for the size of packets.
pub open spec fn default_limits() -> Limits {
    Limits { one_way: 100, idle: Some(10_000), probes: true }
}

/// The limits in a transport configuration.
pub uninterp spec fn limits(transport: quinn::TransportConfig) -> Limits;

/// The limits of the connections that a server with this configuration takes in.
pub uninterp spec fn server_limits(config: quinn::ServerConfig) -> Limits;

/// Whether a server with this configuration speaks by the given TLS
/// configuration.
pub uninterp spec fn server_speaks(config: quinn::ServerConfig, tls: rustls::ServerConfig) -> bool;

/// Whether a client has to prove its address to a server with this configuration
/// before it is served.
pub uninterp spec fn retries(config: quinn::ServerConfig) -> bool;

/// The limits of the connections that a client with this configuration makes.
pub uninterp spec fn client_limits(config: quinn::ClientConfig) -> Limits;

/// Whether a client with this configuration speaks by the given TLS
/// configuration.
pub uninterp spec fn client_speaks(config: quinn::ClientConfig, tls: rustls::ClientConfig) -> bool;

/// `quinn::TransportConfig::default`: the default limits. Its other settings are
/// left unsaid, as nothing here depends on them.
#[verifier::external_body]
fn default_transport() -> (r: quinn::TransportConfig)
    ensures
        limits(r) == default_limits(),
{
    quinn::TransportConfig::default()
}

/// `quinn::TransportConfig::max_concurrent_uni_streams`: sets the limit of one-way
/// streams, and no other.
#[verifier::external_body]
fn limit_one_way_streams(transport: &mut quinn::TransportConfig, streams: u8)
    ensures
        limits(*final(transport)) == (Limits { one_way: streams as u64, ..limits(*old(transport)) }),
{
    transport.max_concurrent_uni_streams(streams.into());
}

/// `quinn::TransportConfig::max_idle_timeout`: sets the limit of silence, and no
/// other.
#[verifier::external_body]
fn limit_silence(transport: &mut quinn::TransportConfig, milliseconds: Option<u32>)
    ensures
        limits(*final(transport)) == (Limits { idle: widened(milliseconds), ..limits(*old(transport)) }),
{
    transport.max_idle_timeout(milliseconds.map(|n| quinn::VarInt::from_u32(n).into()));
}

/// `quinn::TransportConfig::mtu_discovery_config`: switches probing for the size
/// of packets on, with its default settings, or off, and sets no other limit.
#[verifier::external_body]
fn probe_size(transport: &mut quinn::TransportConfig, on: bool)
    ensures
        limits(*final(transport)) == (Limits { probes: on, ..limits(*old(transport)) }),
{
    transport.mtu_discovery_config(on.then_some(quinn::MtuDiscoveryConfig::default()));
}

/// `quinn::ServerConfig::with_crypto`: a configuration with the default limits
/// and without retries. It also draws a key for address tokens, of which nothing
/// is said, as it is random.
#[verifier::external_body]
fn with_server_tls(tls: rustls::ServerConfig) -> (r: quinn::ServerConfig)
    ensures
        server_speaks(r, tls),
        server_limits(r) == default_limits(),
        !retries(r),
{
    quinn::ServerConfig::with_crypto(std::sync::Arc::new(tls))
}

/// `quinn::ServerConfig::transport_config`: sets the limits, and nothing else.
#[verifier::external_body]
fn set_server_transport(config: &mut quinn::ServerConfig, transport: quinn::TransportConfig)
    ensures
        server_limits(*final(config)) == limits(transport),
        retries(*final(config)) == retries(*old(config)),
        forall|tls: rustls::ServerConfig|
            #[trigger] server_speaks(*final(config), tls) == server_speaks(*old(config), tls),
{
    config.transport_config(std::sync::Arc::new(transport));
}

/// `quinn::ServerConfig::use_retry`: says whether clients have to prove their
/// address, and sets nothing else.
#[verifier::external_body]
fn set_retry(config: &mut quinn::ServerConfig, on: bool)
    ensures
        retries(*final(config)) == on,
        server_limits(*final(config)) == server_limits(*old(config)),
        forall|tls: rustls::ServerConfig|
            #[trigger] server_speaks(*final(config), tls) == server_speaks(*old(config), tls),
{
    config.use_retry(on);
}

/// `quinn::ClientConfig::new`: a configuration with the default limits.
#[verifier::external_body]
fn with_client_tls(tls: rustls::ClientConfig) -> (r: quinn::ClientConfig)
    ensures
        client_speaks(r, tls),
        client_limits(r) == default_limits(),
{
    quinn::ClientConfig::new(std::sync::Arc::new(tls))
}

/// `quinn::ClientConfig::transport_config`: sets the limits, and nothing else.
#[verifier::external_body]
fn set_client_transport(config: &mut quinn::ClientConfig, transport: quinn::TransportConfig)
    ensures
        client_limits(*final(config)) == limits(transport),
        forall|tls: rustls::ClientConfig|
            #[trigger] client_speaks(*final(config), tls) == client_speaks(*old(config), tls),
{
    config.transport_config(std::sync::Arc::new(transport));
}

/// A number that may be missing, as a wider one.
pub open spec fn widened(n: Option<u32>) -> Option<u64> {
    match n {
        Some(n) => Some(n as u64),
        None => None,
    }
}

/// The configuration of a server's endpoint: the TLS configuration, under the
/// limits of the setup.
pub fn server_config(tls: rustls::ServerConfig, setup: &ServerSetup) -> (r: quinn::ServerConfig)
    ensures
        server_speaks(r, tls),
        server_limits(r) == (Limits { one_way: setup.one_way_streams as u64, ..default_limits() }),
        retries(r) == setup.stateless_retry,
{
    let mut transport = default_transport();
    limit_one_way_streams(&mut transport, setup.one_way_streams);
    let mut config = with_server_tls(tls);
    set_server_transport(&mut config, transport);
    if setup.stateless_retry {
        set_retry(&mut config, true);
    }
    config
}

/// The configuration of a client's endpoint: the TLS configuration, under the
/// limits of the setup.
pub fn client_config(tls: rustls::ClientConfig, setup: &ClientSetup) -> (r: quinn::ClientConfig)
    ensures
        client_speaks(r, tls),
        client_limits(r) == (Limits {
            idle: widened(setup.idle_timeout),
            probes: setup.mtu_discovery,
            ..default_limits()
        }),
{
    let mut transport = default_transport();
    probe_size(&mut transport, setup.mtu_discovery);
    limit_silence(&mut transport, setup.idle_timeout);
    let mut config = with_client_tls(tls);
    set_client_transport(&mut config, transport);
    config
}

} // verus!
