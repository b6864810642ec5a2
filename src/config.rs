use vstd::prelude::*;

verus! {

/// The protocol identifier of DNS over QUIC, offered during the handshake.
pub open spec fn doq_alpn_spec() -> Seq<u8> {
    seq![100u8, 111u8, 113u8]
}

/// The protocol identifiers that a connection offers: those of the caller, or the
/// identifier of DNS over QUIC alone when the caller gave none.
pub open spec fn resolved_alpn(protocols: Seq<Seq<u8>>) -> Seq<Seq<u8>> {
    if protocols.len() == 0 {
        seq![doq_alpn_spec()]
    } else {
        protocols
    }
}

/// The identifiers held in a list of byte vectors.
pub open spec fn views_of(v: Seq<Vec<u8>>) -> Seq<Seq<u8>> {
    v.map_values(|x: Vec<u8>| x@)
}

/// The protocol identifier of DNS over QUIC.
pub fn doq_alpn() -> (r: Vec<u8>)
    ensures
        r@ == doq_alpn_spec(),
{
    let r: Vec<u8> = vec![100u8, 111u8, 113u8];
    assert(r@ =~= doq_alpn_spec());
    r
}

/// Makes sure that a connection offers a protocol identifier: an empty list gets the
/// identifier of DNS over QUIC, and a list that the caller filled is kept as it is.
pub fn resolve_alpn_protocols(protocols: Vec<Vec<u8>>) -> (r: Vec<Vec<u8>>)
    ensures
        views_of(r@) == resolved_alpn(views_of(protocols@)),
        protocols@.len() > 0 ==> r@ == protocols@,
{
    if protocols.len() == 0 {
        let r: Vec<Vec<u8>> = vec![doq_alpn()];
        assert(views_of(r@) =~= seq![doq_alpn_spec()]);
        r
    } else {
        protocols
    }
}

/// The limits on streams that the peer may open, as the transport parameters state them.
#[derive(Clone, Copy, Debug, PartialEq, Eq, Structural)]
pub struct TransportLimits {
    /// How many bidirectional streams the peer may have open at once.
    pub max_concurrent_bidi_streams: u32,
}

impl TransportLimits {
    /// The limits of a client: the peer may open no bidirectional stream, since a
    /// client of DNS never serves one.
    pub open spec fn client_default_spec() -> TransportLimits {
        TransportLimits { max_concurrent_bidi_streams: 0 }
    }

    pub fn client_default() -> (r: TransportLimits)
        ensures
            r == Self::client_default_spec(),
            r.max_concurrent_bidi_streams == 0,
    {
        TransportLimits { max_concurrent_bidi_streams: 0 }
    }
}

#[verifier::external_type_specification]
#[verifier::external_body]
pub struct ExTransportConfig(quinn::TransportConfig);

/// quinn's transport parameters, with the limit on the bidirectional streams that
/// the peer may open as its model.
pub struct ClientTransport {
    config: quinn::TransportConfig,
    bidi_limit: Ghost<u32>,
}

impl ClientTransport {
    /// How many bidirectional streams the peer may have open at once.
    pub closed spec fn max_concurrent_bidi_streams(&self) -> u32 {
        self.bidi_limit@
    }

    /// The quinn parameters, to be installed on a client configuration.
    pub fn into_config(self) -> quinn::TransportConfig {
        self.config
    }
}

/// Relies on quinn::TransportConfig::default: the parameters that quinn recommends,
/// among them a limit of 100 bidirectional streams opened by the peer.
#[verifier::external_body]
fn default_transport_config() -> (r: ClientTransport)
    ensures
        r.max_concurrent_bidi_streams() == 100,
{
    ClientTransport { config: quinn::TransportConfig::default(), bidi_limit: Ghost(100) }
}

/// Relies on quinn::TransportConfig::max_concurrent_bidi_streams, which stores the
/// limit, and on quinn::VarInt::from_u32, which carries it over unchanged.
#[verifier::external_body]
fn set_max_concurrent_bidi_streams(t: &mut ClientTransport, limit: u32)
    ensures
        final(t).max_concurrent_bidi_streams() == limit,
{
    t.config.max_concurrent_bidi_streams(quinn::VarInt::from_u32(limit));
    t.bidi_limit = Ghost(limit);
}

/// The transport parameters of a client: quinn's defaults, with the limits of
/// `TransportLimits::client_default` applied, so the peer may open no
/// bidirectional stream.
pub fn client_transport_config() -> (r: ClientTransport)
    ensures
        r.max_concurrent_bidi_streams() == TransportLimits::client_default_spec().max_concurrent_bidi_streams,
        r.max_concurrent_bidi_streams() == 0,
{
    let limits = TransportLimits::client_default();
    let mut t = default_transport_config();
    set_max_concurrent_bidi_streams(&mut t, limits.max_concurrent_bidi_streams);
    t
}

/// What a connection attempt waits for before the connection is handed out.
#[derive(Clone, Copy, Debug, PartialEq, Eq, Structural)]
pub enum HandshakeWait {
    /// Nothing: the peer accepted early data, and the connection is usable at once.
    EarlyData,
    /// The completion of the full handshake.
    FullHandshake,
}

/// Decides what a connection attempt waits for. Early data is tried only when the
/// crypto configuration enables it; a peer that refuses it leads back to the full
/// handshake, which is no error.
pub fn handshake_wait(early_data_enabled: bool, early_data_accepted: bool) -> (r: HandshakeWait)
    ensures
        r == HandshakeWait::EarlyData <==> early_data_enabled && early_data_accepted,
        r == HandshakeWait::FullHandshake <==> !(early_data_enabled && early_data_accepted),
{
    if early_data_enabled && early_data_accepted {
        HandshakeWait::EarlyData
    } else {
        HandshakeWait::FullHandshake
    }
}

/// Why the default crypto configuration could not be made.
#[derive(Clone, Copy, Debug, PartialEq, Eq, Structural)]
pub enum ConfigError {
    /// None of the platform's root certificates could be used.
    NoNativeRoots,
}

/// Judges the root store built from the platform's certificates by how many of them
/// it took.
pub fn check_native_roots(added: usize) -> (r: Result<(), ConfigError>)
    ensures
        added == 0 <==> r == Err::<(), ConfigError>(ConfigError::NoNativeRoots),
        added > 0 <==> r is Ok,
{
    if added == 0 {
        Err(ConfigError::NoNativeRoots)
    } else {
        Ok(())
    }
}

#[verifier::external_type_specification]
#[verifier::external_body]
pub struct ExRootCertStore(rustls::RootCertStore);

/// How many of the given DER certificates rustls can parse into trust anchors.
pub uninterp spec fn parsable_count(certs: Seq<Seq<u8>>) -> nat;

/// A rustls root store, with the number of trust anchors it holds as its model.
pub struct RootStore {
    store: rustls::RootCertStore,
    anchors: Ghost<nat>,
}

impl RootStore {
    /// How many trust anchors the store holds.
    pub closed spec fn anchor_count(&self) -> nat {
        self.anchors@
    }

    /// The rustls store, to be installed on a crypto configuration.
    pub fn into_store(self) -> rustls::RootCertStore {
        self.store
    }
}

/// Relies on rustls::RootCertStore::empty: a store without trust anchors.
#[verifier::external_body]
fn empty_root_store() -> (r: RootStore)
    ensures
        r.anchor_count() == 0,
{
    RootStore { store: rustls::RootCertStore::empty(), anchors: Ghost(0) }
}

/// Relies on rustls::RootCertStore::add_parsable_certificates: each certificate is
/// either parsed and added as one trust anchor or ignored, and the two counts are
/// returned in that order. Which ones parse depends on their bytes alone.
#[verifier::external_body]
fn add_parsable_certificates(store: &mut RootStore, certs: &[Vec<u8>]) -> (r: (usize, usize))
    ensures
        r.0 == parsable_count(views_of(certs@)),
        r.0 + r.1 == certs@.len(),
        final(store).anchor_count() == old(store).anchor_count() + r.0,
{
    let r = store.store.add_parsable_certificates(certs);
    store.anchors = Ghost((store.anchors@ + r.0) as nat);
    r
}

/// Builds a root store from the platform's certificates (DER encoded). Those that
/// cannot be parsed are left out; a store that took none is an error. Also returns
/// how many were left out.
pub fn native_root_store(certs: &[Vec<u8>]) -> (r: Result<(RootStore, usize), ConfigError>)
    ensures
        r is Ok <==> parsable_count(views_of(certs@)) > 0,
        r is Ok ==> r->Ok_0.0.anchor_count() == parsable_count(views_of(certs@))
            && r->Ok_0.1 == certs@.len() - parsable_count(views_of(certs@)),
        r is Err ==> r->Err_0 == ConfigError::NoNativeRoots,
        certs@.len() == 0 ==> r is Err,
{
    let mut store = empty_root_store();
    let (added, ignored) = add_parsable_certificates(&mut store, certs);
    match check_native_roots(added) {
        Ok(()) => Ok((store, ignored)),
        Err(e) => Err(e),
    }
}

} // verus!
