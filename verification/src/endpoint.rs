//! How the two kinds of endpoint are set up.
use vstd::prelude::*;
use vstd::utf8::encode_utf8;

use crate::credentials::{byte_strings, Credentials, FileRead};
use crate::trust::{trust_anchors, trusted, trusted_roots, TrustError, TrustErrorView};

verus! {

/// `rustls::ServerConfig`: the TLS side of a server. It holds the certificates
/// that the server shows and the private key that it signs with.
#[verifier::external_type_specification]
#[verifier::external_body]
pub struct ExServerConfig(rustls::ServerConfig);

/// `rustls::ClientConfig`: the TLS side of a client. It holds the trust anchors
/// of the client.
#[verifier::external_type_specification]
#[verifier::external_body]
pub struct ExClientConfig(rustls::ClientConfig);

/// Whether the bytes are a private key in DER form, of a kind that `rustls` can
/// sign with.
pub uninterp spec fn is_private_key(der: Seq<u8>) -> bool;

/// Whether the bytes are an RSA or Ed25519 private key in DER form that `rustls`
/// can sign with.
pub uninterp spec fn is_rsa_or_ed25519_key(der: Seq<u8>) -> bool;

/// The certificates that a server with this configuration shows, in their order.
pub uninterp spec fn shown_chain(config: rustls::ServerConfig) -> Seq<Seq<u8>>;

/// Whether a server with this configuration signs with the private key that these
/// bytes hold in DER form.
pub uninterp spec fn signs_with(config: rustls::ServerConfig, key: Seq<u8>) -> bool;

/// Whether a server with this configuration asks clients for a certificate.
pub uninterp spec fn asks_for_certificate(config: rustls::ServerConfig) -> bool;

/// The application protocols that a server with this configuration offers, in
/// their order.
pub uninterp spec fn server_protocols(config: rustls::ServerConfig) -> Seq<Seq<u8>>;

/// The application protocols that a client with this configuration offers, in
/// their order.
pub uninterp spec fn client_protocols(config: rustls::ClientConfig) -> Seq<Seq<u8>>;

/// The trust anchors that a client with this configuration trusts.
pub uninterp spec fn client_anchors(config: rustls::ClientConfig) -> Seq<
    (Seq<u8>, Seq<u8>, Option<Seq<u8>>),
>;

/// `rustls`'s `with_single_cert`, behind its safe defaults and without client
/// authentication: a configuration that shows the chain to every client, signs
/// with the key and asks for no certificate. The chain is not looked at. It
/// succeeds only with a valid key, and always with a valid RSA or Ed25519 key,
/// which is loaded from its bytes alone. Whether it does with an ECDSA key is left
/// open: such a key is also refused where the system has no random bytes to give.
#[verifier::external_body]
fn single_certificate_config(chain: Vec<Vec<u8>>, key: Vec<u8>) -> (r: Result<
    rustls::ServerConfig,
    rustls::Error,
>)
    ensures
        is_rsa_or_ed25519_key(key@) ==> r is Ok,
        r matches Ok(config) ==> is_private_key(key@) && shown_chain(config) == byte_strings(chain@) && signs_with(
            config,
            key@,
        ) && !asks_for_certificate(config),
{
    rustls::ServerConfig::builder()
        .with_safe_defaults()
        .with_no_client_auth()
        .with_single_cert(
            chain.into_iter().map(rustls::Certificate).collect(),
            rustls::PrivateKey(key),
        )
}

/// `rustls`'s `with_root_certificates`, behind its safe defaults and without
/// client authentication: a configuration that trusts what is in the store.
#[verifier::external_body]
fn root_certificates_config(roots: rustls::RootCertStore) -> (r: rustls::ClientConfig)
    ensures
        client_anchors(r) == trust_anchors(roots),
{
    rustls::ClientConfig::builder()
        .with_safe_defaults()
        .with_root_certificates(roots)
        .with_no_client_auth()
}

/// Sets the field `alpn_protocols` of a `rustls::ServerConfig`, which holds the
/// application protocols that the server offers, and nothing else.
#[verifier::external_body]
fn offer_to_clients(config: &mut rustls::ServerConfig, protocols: Vec<Vec<u8>>)
    ensures
        server_protocols(*final(config)) == byte_strings(protocols@),
        shown_chain(*final(config)) == shown_chain(*old(config)),
        forall|key: Seq<u8>| #[trigger] signs_with(*final(config), key) == signs_with(*old(config), key),
        asks_for_certificate(*final(config)) == asks_for_certificate(*old(config)),
{
    config.alpn_protocols = protocols;
}

/// Sets the field `alpn_protocols` of a `rustls::ClientConfig`, which holds the
/// application protocols that the client offers, and nothing else.
#[verifier::external_body]
fn offer_to_server(config: &mut rustls::ClientConfig, protocols: Vec<Vec<u8>>)
    ensures
        client_protocols(*final(config)) == byte_strings(protocols@),
        client_anchors(*final(config)) == client_anchors(*old(config)),
{
    config.alpn_protocols = protocols;
}

/// The private key is none that a server can use.
#[derive(Debug, Clone, Copy, PartialEq, Eq, Structural)]
pub struct InvalidKey;

impl InvalidKey {
    /// The text of the error, for the user.
    pub fn message(self) -> (r: &'static str)
        ensures
            r@ == "unexpected error: invalid private key"@,
    {
        "unexpected error: invalid private key"
    }
}

/// The TLS configuration of a server, once it has been made or refused.
pub fn accepted_config(made: Result<rustls::ServerConfig, rustls::Error>) -> (r: Result<
    rustls::ServerConfig,
    InvalidKey,
>)
    ensures
        r == (match made {
            Ok(config) => Ok(config),
            Err(_) => Err(InvalidKey),
        }),
{
    match made {
        Ok(config) => Ok(config),
        Err(_) => Err(InvalidKey),
    }
}

/// The TLS configuration of a server that proves itself by the credentials, and
/// that any client may connect to.
pub fn server_tls(credentials: Credentials) -> (r: Result<rustls::ServerConfig, InvalidKey>)
    ensures
        is_rsa_or_ed25519_key(credentials.key@) ==> r is Ok,
        r matches Ok(config) ==> is_private_key(credentials.key@) && shown_chain(config) == byte_strings(
            credentials.chain@,
        ) && signs_with(config, credentials.key@) && !asks_for_certificate(config) && server_protocols(config)
            == offered_protocols(),
{
    match accepted_config(single_certificate_config(credentials.chain, credentials.key)) {
        Ok(config) => {
            let mut config = config;
            offer_to_clients(&mut config, protocols());
            Ok(config)
        },
        Err(e) => Err(e),
    }
}

/// The TLS configuration of a client, given whether the user has named the
/// certificate to trust and what came of reading it.
pub fn client_tls(named: bool, read: FileRead) -> (r: Result<rustls::ClientConfig, TrustError>)
    ensures
        match r {
            Ok(config) => trusted(named, read@) == Ok::<
                Seq<(Seq<u8>, Seq<u8>, Option<Seq<u8>>)>,
                TrustErrorView,
            >(client_anchors(config)) && client_protocols(config) == offered_protocols(),
            Err(e) => trusted(named, read@) == Err::<
                Seq<(Seq<u8>, Seq<u8>, Option<Seq<u8>>)>,
                TrustErrorView,
            >(e@),
        },
{
    match trusted_roots(named, read) {
        Ok(roots) => {
            let mut config = root_certificates_config(roots);
            offer_to_server(&mut config, protocols());
            Ok(config)
        },
        Err(e) => Err(e),
    }
}

/// The application protocols that both ends offer.
pub open spec fn offered_protocols() -> Seq<Seq<u8>> {
    seq![encode_utf8("hq-29"@)]
}

/// The application protocols that both ends offer.
pub fn protocols() -> (r: Vec<Vec<u8>>)
    ensures
        byte_strings(r@) == offered_protocols(),
{
    let mut r: Vec<Vec<u8>> = Vec::new();
    r.push("hq-29".as_bytes_vec());
    assert(byte_strings(r@) =~= offered_protocols());
    r
}

/// How a server's endpoint is set up.
#[derive(Debug, PartialEq, Eq)]
pub struct ServerSetup {
    /// Whether the keys of the connections are logged.
    pub key_log: bool,
    /// How many one-way streams a client may have open.
    pub one_way_streams: u8,
    /// Whether a client has to prove its address first.
    pub stateless_retry: bool,
}

/// How a server's endpoint is set up. The peers talk over two-way streams only.
pub fn server_setup(key_log: bool, stateless_retry: bool) -> (r: ServerSetup)
    ensures
        r.key_log == key_log,
        r.one_way_streams == 0,
        r.stateless_retry == stateless_retry,
{
    ServerSetup { key_log, one_way_streams: 0, stateless_retry }
}

/// How a client's endpoint is set up.
#[derive(Debug, PartialEq, Eq)]
pub struct ClientSetup {
    /// Whether the keys of the connections are logged.
    pub key_log: bool,
    /// The limit of silence on a connection, in milliseconds, if there is one.
    pub idle_timeout: Option<u32>,
    /// Whether the size of packets is probed for.
    pub mtu_discovery: bool,
    /// Whether the endpoint moves to another local port once it is connected.
    pub rebind: bool,
}

/// How a client's endpoint is set up. It sets no limit of silence.
pub fn client_setup(key_log: bool, rebind: bool) -> (r: ClientSetup)
    ensures
        r.key_log == key_log,
        r.idle_timeout is None,
        r.mtu_discovery,
        r.rebind == rebind,
{
    ClientSetup { key_log, idle_timeout: None, mtu_discovery: true, rebind }
}

} // verus!
