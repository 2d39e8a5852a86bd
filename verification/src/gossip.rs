//! Gossipsub: the parameters the node sets, the content-addressed message
//! ids, and the building of libp2p's gossipsub configuration from them.

use vstd::prelude::*;
use vstd::string::*;

use libp2p::gossipsub::Config as GossipsubConfig;

use crate::key::{secp256k1_keypair, secp256k1_peer_id, NetworkKey};
use crate::node::CHAT_TOPIC;

verus! {

/// The SHA-256 digest of a byte string.
pub uninterp spec fn sha256_digest(data: Seq<u8>) -> Seq<u8>;

/// `sha2::Sha256::digest`: the SHA-256 digest of `data`, 32 bytes.
#[verifier::external_body]
fn sha256(data: &[u8]) -> (digest: Vec<u8>)
    ensures
        digest@ == sha256_digest(data@),
        digest@.len() == 32,
{
    <sha2::Sha256 as sha2::Digest>::digest(data).to_vec()
}

/// The id of a gossipsub message: the SHA-256 digest of its data, so that
/// messages with the same content get the same id.
pub fn message_id(data: &[u8]) -> (id: Vec<u8>)
    ensures
        id@ == sha256_digest(data@),
        id@.len() == 32,
{
    sha256(data)
}

/// How gossipsub checks the author, sequence number and signature of
/// incoming messages (libp2p's `ValidationMode`).
#[derive(Clone, Copy, PartialEq, Eq, Debug)]
pub enum ValidationMode {
    Strict,
    Permissive,
    Anonymous,
    NoValidation,
}

/// The gossipsub parameters the node sets on top of libp2p's defaults. A
/// `None` or `false` leaves libp2p's default in place.
#[derive(Clone, Debug)]
pub struct GossipsubSettings {
    /// Prefix of the protocol ids (libp2p appends `/1.1.0` and `/1.0.0`).
    pub protocol_id_prefix: Option<String>,
    /// Message ids (and fast message ids) are the SHA-256 digest of the data.
    pub content_addressed_ids: bool,
    /// Messages are held until the application validates them.
    pub validate_messages: bool,
    pub mesh_n: Option<usize>,
    pub mesh_n_low: Option<usize>,
    pub mesh_n_high: Option<usize>,
    pub heartbeat_interval_secs: Option<u64>,
    /// Floodsub peers are accepted too.
    pub support_floodsub: bool,
    pub validation_mode: Option<ValidationMode>,
}

/// The parameters of `default_gossipsub_config`: prefix `/meshsub/1.0.0`,
/// content-addressed message ids, messages held for validation, and a mesh of
/// 6 peers kept between 4 and 12.
pub open spec fn is_default_gossipsub_config(s: GossipsubSettings) -> bool {
    &&& s.protocol_id_prefix matches Some(p) && p@ == GOSSIP_PROTOCOL_ID_PREFIX@
    &&& s.content_addressed_ids
    &&& s.validate_messages
    &&& s.mesh_n == Some(6usize)
    &&& s.mesh_n_low == Some(4usize)
    &&& s.mesh_n_high == Some(12usize)
    &&& s.heartbeat_interval_secs is None
    &&& !s.support_floodsub
    &&& s.validation_mode is None
}

/// No parameter set: libp2p's default gossipsub configuration.
pub open spec fn is_libp2p_default(s: GossipsubSettings) -> bool {
    &&& s.protocol_id_prefix is None
    &&& !s.content_addressed_ids
    &&& !s.validate_messages
    &&& s.mesh_n is None
    &&& s.mesh_n_low is None
    &&& s.mesh_n_high is None
    &&& s.heartbeat_interval_secs is None
    &&& !s.support_floodsub
    &&& s.validation_mode is None
}

/// The settings of the node's behaviour: a heartbeat every 10 seconds,
/// floodsub peers accepted, strict validation, and libp2p's defaults besides.
pub open spec fn is_behaviour_gossipsub_settings(s: GossipsubSettings) -> bool {
    &&& s.protocol_id_prefix is None
    &&& !s.content_addressed_ids
    &&& !s.validate_messages
    &&& s.mesh_n is None
    &&& s.mesh_n_low is None
    &&& s.mesh_n_high is None
    &&& s.heartbeat_interval_secs == Some(10u64)
    &&& s.support_floodsub
    &&& s.validation_mode == Some(ValidationMode::Strict)
}

/// The protocol id prefix the node uses.
pub const GOSSIP_PROTOCOL_ID_PREFIX: &'static str = "/meshsub/1.0.0";

/// Target number of peers in the gossipsub mesh, and its bounds.
pub const GOSSIP_MESH_N: usize = 6;
pub const GOSSIP_MESH_N_LOW: usize = 4;
pub const GOSSIP_MESH_N_HIGH: usize = 12;

/// Seconds between two gossipsub heartbeats of the node's behaviour.
pub const GOSSIP_HEARTBEAT_SECS: u64 = 10;

impl GossipsubSettings {
    /// No parameter set: libp2p's default configuration.
    pub fn libp2p_defaults() -> (s: GossipsubSettings)
        ensures
            is_libp2p_default(s),
    {
        GossipsubSettings {
            protocol_id_prefix: None,
            content_addressed_ids: false,
            validate_messages: false,
            mesh_n: None,
            mesh_n_low: None,
            mesh_n_high: None,
            heartbeat_interval_secs: None,
            support_floodsub: false,
            validation_mode: None,
        }
    }
}

/// The gossipsub parameters shared by the node's configurations: protocol
/// prefix `/meshsub/1.0.0`, content-addressed message ids, and messages held
/// for validation.
pub fn default_gossipsub_builder() -> (s: GossipsubSettings)
    ensures
        s.protocol_id_prefix matches Some(p) && p@ == GOSSIP_PROTOCOL_ID_PREFIX@,
        s.content_addressed_ids,
        s.validate_messages,
        s.mesh_n is None,
        s.mesh_n_low is None,
        s.mesh_n_high is None,
        s.heartbeat_interval_secs is None,
        !s.support_floodsub,
        s.validation_mode is None,
{
    let mut s = GossipsubSettings::libp2p_defaults();
    s.protocol_id_prefix = Some(String::from_str(GOSSIP_PROTOCOL_ID_PREFIX));
    s.content_addressed_ids = true;
    s.validate_messages = true;
    s
}

/// `default_gossipsub_builder` with a mesh of 6 peers, kept between 4 and 12.
pub fn default_gossipsub_config() -> (s: GossipsubSettings)
    ensures
        is_default_gossipsub_config(s),
{
    let mut s = default_gossipsub_builder();
    s.mesh_n = Some(GOSSIP_MESH_N);
    s.mesh_n_low = Some(GOSSIP_MESH_N_LOW);
    s.mesh_n_high = Some(GOSSIP_MESH_N_HIGH);
    s
}

/// The gossipsub parameters of the node's behaviour: a heartbeat every 10
/// seconds, floodsub peers accepted, and strict validation of message
/// authors and signatures.
pub fn behaviour_gossipsub_settings() -> (s: GossipsubSettings)
    ensures
        is_behaviour_gossipsub_settings(s),
{
    let mut s = GossipsubSettings::libp2p_defaults();
    s.heartbeat_interval_secs = Some(GOSSIP_HEARTBEAT_SECS);
    s.support_floodsub = true;
    s.validation_mode = Some(ValidationMode::Strict);
    s
}

/// libp2p's reason for refusing a gossipsub configuration or behaviour.
pub type Refusal = &'static str;

/// The parameters of libp2p's gossipsub configuration, all but
/// `gossip_factor` (a float, which no setter here changes). Durations are in
/// milliseconds; the message-id functions are told apart by whether they are
/// `message_id` of the data.
pub struct GossipParameters {
    /// The gossipsub protocol ids, in order (each of kind gossipsub).
    pub protocol_ids: Seq<Seq<char>>,
    /// The floodsub protocol id (`/floodsub/1.0.0`, of kind floodsub) follows.
    pub floodsub_supported: bool,
    pub max_transmit_size: int,
    pub history_length: int,
    pub history_gossip: int,
    pub mesh_n: int,
    pub mesh_n_low: int,
    pub mesh_n_high: int,
    pub mesh_outbound_min: int,
    pub heartbeat_interval_millis: int,
    pub unsubscribe_backoff_millis: int,
    pub heartbeat_initial_delay_millis: int,
    pub fanout_ttl_millis: int,
    pub idle_timeout_millis: int,
    pub duplicate_cache_time_millis: int,
    pub prune_backoff_millis: int,
    pub backoff_slack: int,
    pub gossip_lazy: int,
    pub flood_publish: bool,
    pub retain_scores: int,
    pub check_explicit_peers_ticks: int,
    pub allow_self_origin: bool,
    pub do_px: bool,
    pub prune_peers: int,
    pub graft_flood_threshold_millis: int,
    pub opportunistic_graft_ticks: int,
    pub opportunistic_graft_peers: int,
    pub gossip_retransimission: int,
    pub max_messages_per_rpc: Option<int>,
    pub max_ihave_length: int,
    pub max_ihave_messages: int,
    pub iwant_followup_time_millis: int,
    pub published_message_ids_cache_time_millis: int,
    pub validate_messages: bool,
    pub validation_mode: ValidationMode,
    /// The id of every message is `message_id` of its data.
    pub message_ids_from_data: bool,
    /// There is a fast message id, and for every raw message it is
    /// `message_id` of its data.
    pub fast_message_ids_from_data: bool,
}

/// `/meshsub`, the prefix of libp2p's default protocol ids.
pub open spec fn meshsub_prefix() -> Seq<char> {
    seq!['/', 'm', 'e', 's', 'h', 's', 'u', 'b']
}

/// `/1.1.0`.
pub open spec fn version_1_1_0() -> Seq<char> {
    seq!['/', '1', '.', '1', '.', '0']
}

/// `/1.0.0`.
pub open spec fn version_1_0_0() -> Seq<char> {
    seq!['/', '1', '.', '0', '.', '0']
}

/// The protocol ids for a prefix: `<prefix>/1.1.0`, then `<prefix>/1.0.0`.
pub open spec fn prefixed_protocol_ids(prefix: Seq<char>) -> Seq<Seq<char>> {
    seq![prefix + version_1_1_0(), prefix + version_1_0_0()]
}

/// libp2p accepts a protocol name that starts with `/`.
pub open spec fn is_stream_protocol(p: Seq<char>) -> bool {
    p.len() > 0 && p[0] == '/'
}

/// A prefix both of whose protocol ids libp2p accepts.
pub open spec fn prefix_accepted(prefix: Seq<char>) -> bool {
    is_stream_protocol(prefix + version_1_1_0()) && is_stream_protocol(prefix + version_1_0_0())
}

/// The parameters of `ConfigBuilder::default` (gossipsub's `config.rs` and
/// `ProtocolConfig::default`).
pub open spec fn libp2p_default_parameters() -> GossipParameters {
    GossipParameters {
        protocol_ids: prefixed_protocol_ids(meshsub_prefix()),
        floodsub_supported: false,
        max_transmit_size: 65536,
        history_length: 5,
        history_gossip: 3,
        mesh_n: 6,
        mesh_n_low: 5,
        mesh_n_high: 12,
        mesh_outbound_min: 2,
        heartbeat_interval_millis: 1000,
        unsubscribe_backoff_millis: 10000,
        heartbeat_initial_delay_millis: 5000,
        fanout_ttl_millis: 60000,
        idle_timeout_millis: 120000,
        duplicate_cache_time_millis: 60000,
        prune_backoff_millis: 60000,
        backoff_slack: 1,
        gossip_lazy: 6,
        flood_publish: true,
        retain_scores: 4,
        check_explicit_peers_ticks: 300,
        allow_self_origin: false,
        do_px: false,
        prune_peers: 0,
        graft_flood_threshold_millis: 10000,
        opportunistic_graft_ticks: 60,
        opportunistic_graft_peers: 2,
        gossip_retransimission: 3,
        max_messages_per_rpc: None,
        max_ihave_length: 5000,
        max_ihave_messages: 10,
        iwant_followup_time_millis: 3000,
        published_message_ids_cache_time_millis: 10000,
        validate_messages: false,
        validation_mode: ValidationMode::Strict,
        message_ids_from_data: false,
        fast_message_ids_from_data: false,
    }
}

/// The checks of `ConfigBuilder::build` on the parameters.
pub open spec fn parameters_accepted(p: GossipParameters) -> bool {
    &&& p.max_transmit_size >= 100
    &&& p.history_length >= p.history_gossip
    &&& p.mesh_outbound_min <= p.mesh_n_low
    &&& p.mesh_n_low <= p.mesh_n
    &&& p.mesh_n <= p.mesh_n_high
    &&& p.mesh_outbound_min * 2 <= p.mesh_n
    &&& p.unsubscribe_backoff_millis > 0
}

/// The parameters a builder holds.
pub uninterp spec fn builder_parameters(builder: libp2p::gossipsub::ConfigBuilder) -> GossipParameters;

/// The builder was given a protocol prefix it refused.
pub uninterp spec fn builder_protocol_refused(builder: libp2p::gossipsub::ConfigBuilder) -> bool;

/// The parameters of a gossipsub configuration.
pub uninterp spec fn config_parameters(config: GossipsubConfig) -> GossipParameters;

/// libp2p's gossipsub configuration builder.
#[verifier::external_type_specification]
#[verifier::external_body]
pub struct ExGossipsubConfigBuilder(libp2p::gossipsub::ConfigBuilder);

/// libp2p's gossipsub configuration.
#[verifier::external_type_specification]
#[verifier::external_body]
pub struct ExGossipsubConfig(GossipsubConfig);

/// `ConfigBuilder::default`: libp2p's default parameters.
#[verifier::external_body]
fn new_builder() -> (builder: libp2p::gossipsub::ConfigBuilder)
    ensures
        builder_parameters(builder) == libp2p_default_parameters(),
        !builder_protocol_refused(builder),
{
    libp2p::gossipsub::ConfigBuilder::default()
}

/// `ConfigBuilder::protocol_id_prefix`: the protocol ids become
/// `<prefix>/1.1.0` and `<prefix>/1.0.0` (floodsub no longer among them), or,
/// when libp2p refuses those names, the builder is marked as refused.
#[verifier::external_body]
fn set_protocol_id_prefix(builder: &mut libp2p::gossipsub::ConfigBuilder, prefix: String)
    ensures
        prefix_accepted(prefix@) ==> builder_parameters(*final(builder)) == (GossipParameters {
            protocol_ids: prefixed_protocol_ids(prefix@),
            floodsub_supported: false,
            ..builder_parameters(*old(builder))
        }),
        prefix_accepted(prefix@) ==> builder_protocol_refused(*final(builder))
            == builder_protocol_refused(*old(builder)),
        !prefix_accepted(prefix@) ==> builder_parameters(*final(builder)) == builder_parameters(
            *old(builder),
        ),
        !prefix_accepted(prefix@) ==> builder_protocol_refused(*final(builder)),
{
    builder.protocol_id_prefix(prefix);
}

/// `ConfigBuilder::message_id_fn`, with `message_id` of the message's data.
#[verifier::external_body]
fn set_content_message_id(builder: &mut libp2p::gossipsub::ConfigBuilder)
    ensures
        builder_parameters(*final(builder)) == (GossipParameters {
            message_ids_from_data: true,
            ..builder_parameters(*old(builder))
        }),
        builder_protocol_refused(*final(builder)) == builder_protocol_refused(*old(builder)),
{
    builder.message_id_fn(
        |m: &libp2p::gossipsub::Message| libp2p::gossipsub::MessageId::from(message_id(&m.data)),
    );
}

/// `ConfigBuilder::fast_message_id_fn`, with `message_id` of the raw
/// message's data.
#[verifier::external_body]
fn set_content_fast_message_id(builder: &mut libp2p::gossipsub::ConfigBuilder)
    ensures
        builder_parameters(*final(builder)) == (GossipParameters {
            fast_message_ids_from_data: true,
            ..builder_parameters(*old(builder))
        }),
        builder_protocol_refused(*final(builder)) == builder_protocol_refused(*old(builder)),
{
    builder.fast_message_id_fn(
        |m: &libp2p::gossipsub::RawMessage|
            libp2p::gossipsub::FastMessageId::from(message_id(&m.data)),
    );
}

/// `ConfigBuilder::validate_messages`.
#[verifier::external_body]
fn set_validate_messages(builder: &mut libp2p::gossipsub::ConfigBuilder)
    ensures
        builder_parameters(*final(builder)) == (GossipParameters {
            validate_messages: true,
            ..builder_parameters(*old(builder))
        }),
        builder_protocol_refused(*final(builder)) == builder_protocol_refused(*old(builder)),
{
    builder.validate_messages();
}

/// `ConfigBuilder::mesh_n`.
#[verifier::external_body]
fn set_mesh_n(builder: &mut libp2p::gossipsub::ConfigBuilder, n: usize)
    ensures
        builder_parameters(*final(builder)) == (GossipParameters {
            mesh_n: n as int,
            ..builder_parameters(*old(builder))
        }),
        builder_protocol_refused(*final(builder)) == builder_protocol_refused(*old(builder)),
{
    builder.mesh_n(n);
}

/// `ConfigBuilder::mesh_n_low`.
#[verifier::external_body]
fn set_mesh_n_low(builder: &mut libp2p::gossipsub::ConfigBuilder, n: usize)
    ensures
        builder_parameters(*final(builder)) == (GossipParameters {
            mesh_n_low: n as int,
            ..builder_parameters(*old(builder))
        }),
        builder_protocol_refused(*final(builder)) == builder_protocol_refused(*old(builder)),
{
    builder.mesh_n_low(n);
}

/// `ConfigBuilder::mesh_n_high`.
#[verifier::external_body]
fn set_mesh_n_high(builder: &mut libp2p::gossipsub::ConfigBuilder, n: usize)
    ensures
        builder_parameters(*final(builder)) == (GossipParameters {
            mesh_n_high: n as int,
            ..builder_parameters(*old(builder))
        }),
        builder_protocol_refused(*final(builder)) == builder_protocol_refused(*old(builder)),
{
    builder.mesh_n_high(n);
}

/// `ConfigBuilder::heartbeat_interval`, in whole seconds.
#[verifier::external_body]
fn set_heartbeat_interval(builder: &mut libp2p::gossipsub::ConfigBuilder, secs: u64)
    ensures
        builder_parameters(*final(builder)) == (GossipParameters {
            heartbeat_interval_millis: secs * 1000,
            ..builder_parameters(*old(builder))
        }),
        builder_protocol_refused(*final(builder)) == builder_protocol_refused(*old(builder)),
{
    builder.heartbeat_interval(std::time::Duration::from_secs(secs));
}

/// `ConfigBuilder::support_floodsub`: the floodsub protocol id is added if it
/// is not there yet.
#[verifier::external_body]
fn set_support_floodsub(builder: &mut libp2p::gossipsub::ConfigBuilder)
    ensures
        builder_parameters(*final(builder)) == (GossipParameters {
            floodsub_supported: true,
            ..builder_parameters(*old(builder))
        }),
        builder_protocol_refused(*final(builder)) == builder_protocol_refused(*old(builder)),
{
    builder.support_floodsub();
}

/// `ConfigBuilder::validation_mode`, with libp2p's variant of the same name.
#[verifier::external_body]
fn set_validation_mode(builder: &mut libp2p::gossipsub::ConfigBuilder, mode: ValidationMode)
    ensures
        builder_parameters(*final(builder)) == (GossipParameters {
            validation_mode: mode,
            ..builder_parameters(*old(builder))
        }),
        builder_protocol_refused(*final(builder)) == builder_protocol_refused(*old(builder)),
{
    builder.validation_mode(
        match mode {
            ValidationMode::Strict => libp2p::gossipsub::ValidationMode::Strict,
            ValidationMode::Permissive => libp2p::gossipsub::ValidationMode::Permissive,
            ValidationMode::Anonymous => libp2p::gossipsub::ValidationMode::Anonymous,
            ValidationMode::NoValidation => libp2p::gossipsub::ValidationMode::None,
        },
    );
}

/// `ConfigBuilder::build`: a configuration with the builder's parameters,
/// when they pass libp2p's checks and no protocol prefix was refused;
/// otherwise libp2p's reason. The check doubles `mesh_outbound_min` in a
/// `usize`, so that doubling must fit.
#[verifier::external_body]
fn build_config(builder: &libp2p::gossipsub::ConfigBuilder) -> (r: Result<GossipsubConfig, Refusal>)
    requires
        builder_parameters(*builder).mesh_outbound_min * 2 <= usize::MAX,
    ensures
        r is Ok <==> (parameters_accepted(builder_parameters(*builder))
            && !builder_protocol_refused(*builder)),
        r matches Ok(config) ==> config_parameters(config) == builder_parameters(*builder),
{
    builder.build()
}

/// The parameters after a protocol prefix, when one is set.
pub open spec fn with_prefix(p: GossipParameters, prefix: Option<String>) -> GossipParameters {
    match prefix {
        Some(pre) => if prefix_accepted(pre@) {
            GossipParameters { protocol_ids: prefixed_protocol_ids(pre@), floodsub_supported: false, ..p }
        } else {
            p
        },
        None => p,
    }
}

/// The parameters after the message ids, and the switch to validating
/// messages, as the settings ask.
pub open spec fn with_ids_and_validation(p: GossipParameters, s: GossipsubSettings) -> GossipParameters {
    let p1 = if s.content_addressed_ids {
        GossipParameters { message_ids_from_data: true, fast_message_ids_from_data: true, ..p }
    } else {
        p
    };
    if s.validate_messages {
        GossipParameters { validate_messages: true, ..p1 }
    } else {
        p1
    }
}

/// The parameters after the mesh sizes the settings give.
pub open spec fn with_mesh(p: GossipParameters, s: GossipsubSettings) -> GossipParameters {
    let p1 = match s.mesh_n {
        Some(n) => GossipParameters { mesh_n: n as int, ..p },
        None => p,
    };
    let p2 = match s.mesh_n_low {
        Some(n) => GossipParameters { mesh_n_low: n as int, ..p1 },
        None => p1,
    };
    match s.mesh_n_high {
        Some(n) => GossipParameters { mesh_n_high: n as int, ..p2 },
        None => p2,
    }
}

/// The parameters after the heartbeat, floodsub and validation mode the
/// settings give.
pub open spec fn with_heartbeat_floodsub_mode(p: GossipParameters, s: GossipsubSettings) -> GossipParameters {
    let p1 = match s.heartbeat_interval_secs {
        Some(secs) => GossipParameters { heartbeat_interval_millis: secs * 1000, ..p },
        None => p,
    };
    let p2 = if s.support_floodsub {
        GossipParameters { floodsub_supported: true, ..p1 }
    } else {
        p1
    };
    match s.validation_mode {
        Some(mode) => GossipParameters { validation_mode: mode, ..p2 },
        None => p2,
    }
}

/// The parameters of the configuration built from the settings: libp2p's
/// defaults with what the settings set.
pub open spec fn settings_parameters(s: GossipsubSettings) -> GossipParameters {
    with_heartbeat_floodsub_mode(
        with_mesh(with_ids_and_validation(with_prefix(libp2p_default_parameters(), s.protocol_id_prefix), s), s),
        s,
    )
}

/// libp2p accepts the settings: their parameters pass its checks, and their
/// protocol prefix, if any, is one it accepts.
pub open spec fn settings_accepted(s: GossipsubSettings) -> bool {
    &&& parameters_accepted(settings_parameters(s))
    &&& s.protocol_id_prefix matches Some(p) ==> prefix_accepted(p@)
}

/// libp2p accepts a protocol prefix exactly when it is empty or starts with
/// `/`.
pub proof fn prefix_accepted_when_rooted(prefix: Seq<char>)
    ensures
        prefix_accepted(prefix) <==> (prefix.len() == 0 || prefix[0] == '/'),
{
    if prefix.len() > 0 {
        assert((prefix + version_1_1_0())[0] == prefix[0]);
        assert((prefix + version_1_0_0())[0] == prefix[0]);
    } else {
        assert(prefix + version_1_1_0() =~= version_1_1_0());
        assert(prefix + version_1_0_0() =~= version_1_0_0());
    }
}

/// Each setting decides its own parameter and nothing else: a configuration
/// built from settings validates messages exactly when they ask for it, takes
/// message ids (and fast ones) from the data exactly when they ask for
/// content-addressed ids, accepts floodsub peers exactly when they ask for
/// it, and has the mesh sizes, heartbeat, validation mode and protocol ids
/// they give (libp2p's where they give none, or a prefix libp2p refuses);
/// every other parameter is libp2p's default. libp2p accepts the settings
/// exactly when their prefix is empty or starts with `/`, and the mesh sizes
/// satisfy `2 <= low <= n <= high` and `4 <= n`.
pub proof fn each_setting_sets_its_parameter(s: GossipsubSettings)
    ensures
        settings_parameters(s) == (GossipParameters {
            protocol_ids: match s.protocol_id_prefix {
                Some(p) => if p@.len() == 0 || p@[0] == '/' {
                    prefixed_protocol_ids(p@)
                } else {
                    prefixed_protocol_ids(meshsub_prefix())
                },
                None => prefixed_protocol_ids(meshsub_prefix()),
            },
            floodsub_supported: s.support_floodsub,
            validate_messages: s.validate_messages,
            message_ids_from_data: s.content_addressed_ids,
            fast_message_ids_from_data: s.content_addressed_ids,
            mesh_n: match s.mesh_n {
                Some(n) => n as int,
                None => 6,
            },
            mesh_n_low: match s.mesh_n_low {
                Some(n) => n as int,
                None => 5,
            },
            mesh_n_high: match s.mesh_n_high {
                Some(n) => n as int,
                None => 12,
            },
            heartbeat_interval_millis: match s.heartbeat_interval_secs {
                Some(secs) => secs * 1000,
                None => 1000,
            },
            validation_mode: match s.validation_mode {
                Some(mode) => mode,
                None => ValidationMode::Strict,
            },
            ..libp2p_default_parameters()
        }),
        settings_accepted(s) <==> ({
            let n = match s.mesh_n {
                Some(n) => n as int,
                None => 6,
            };
            let low = match s.mesh_n_low {
                Some(n) => n as int,
                None => 5,
            };
            let high = match s.mesh_n_high {
                Some(n) => n as int,
                None => 12,
            };
            &&& 2 <= low <= n <= high
            &&& 4 <= n
            &&& s.protocol_id_prefix matches Some(p) ==> (p@.len() == 0 || p@[0] == '/')
        }),
{
    if let Some(p) = s.protocol_id_prefix {
        prefix_accepted_when_rooted(p@);
    }
}

/// libp2p's gossipsub configuration with these parameters set, or libp2p's
/// reason for refusing them.
pub fn build_gossipsub_config(settings: &GossipsubSettings) -> (r: Result<GossipsubConfig, Refusal>)
    ensures
        r is Ok <==> settings_accepted(*settings),
        r matches Ok(config) ==> config_parameters(config) == settings_parameters(*settings),
        r matches Ok(config) ==> config_parameters(config).validate_messages
            == settings.validate_messages,
        r matches Ok(config) ==> config_parameters(config).message_ids_from_data
            == settings.content_addressed_ids,
        r matches Ok(config) ==> config_parameters(config).fast_message_ids_from_data
            == settings.content_addressed_ids,
        r matches Ok(config) ==> config_parameters(config).floodsub_supported
            == settings.support_floodsub,
{
    proof {
        each_setting_sets_its_parameter(*settings);
    }
    let mut builder = new_builder();
    if let Some(prefix) = &settings.protocol_id_prefix {
        set_protocol_id_prefix(&mut builder, prefix.clone());
    }
    assert(builder_parameters(builder) == with_prefix(
        libp2p_default_parameters(),
        settings.protocol_id_prefix,
    ));
    assert(builder_protocol_refused(builder) == (settings.protocol_id_prefix matches Some(p)
        && !prefix_accepted(p@)));
    if settings.content_addressed_ids {
        set_content_message_id(&mut builder);
        set_content_fast_message_id(&mut builder);
    }
    if settings.validate_messages {
        set_validate_messages(&mut builder);
    }
    assert(builder_parameters(builder) == with_ids_and_validation(
        with_prefix(libp2p_default_parameters(), settings.protocol_id_prefix),
        *settings,
    ));
    if let Some(n) = settings.mesh_n {
        set_mesh_n(&mut builder, n);
    }
    if let Some(n) = settings.mesh_n_low {
        set_mesh_n_low(&mut builder, n);
    }
    if let Some(n) = settings.mesh_n_high {
        set_mesh_n_high(&mut builder, n);
    }
    if let Some(secs) = settings.heartbeat_interval_secs {
        set_heartbeat_interval(&mut builder, secs);
    }
    if settings.support_floodsub {
        set_support_floodsub(&mut builder);
    }
    if let Some(mode) = settings.validation_mode {
        set_validation_mode(&mut builder, mode);
    }
    build_config(&builder)
}

/// libp2p's gossipsub behaviour.
#[verifier::external_type_specification]
#[verifier::external_body]
#[verifier::reject_recursive_types(D)]
#[verifier::reject_recursive_types(F)]
pub struct ExGossipsubBehaviour<D, F>(libp2p::gossipsub::Behaviour<D, F>);

/// The data transform of a gossipsub behaviour that leaves data as it is.
#[verifier::external_type_specification]
#[verifier::external_body]
pub struct ExIdentityTransform(libp2p::gossipsub::IdentityTransform);

/// The subscription filter of a gossipsub behaviour that allows every topic.
#[verifier::external_type_specification]
#[verifier::external_body]
pub struct ExAllowAllSubscriptionFilter(libp2p::gossipsub::AllowAllSubscriptionFilter);

/// The error of a gossipsub subscription.
#[verifier::external_type_specification]
#[verifier::external_body]
pub struct ExSubscriptionError(libp2p::gossipsub::SubscriptionError);

/// The parameters of the configuration a gossipsub behaviour runs with.
pub uninterp spec fn gossipsub_parameters(behaviour: libp2p::gossipsub::Behaviour) -> GossipParameters;

/// The key pair a gossipsub behaviour signs its messages with, if it signs.
pub uninterp spec fn gossipsub_signing_keypair(
    behaviour: libp2p::gossipsub::Behaviour,
) -> Option<libp2p::identity::Keypair>;

/// The peer id a gossipsub behaviour publishes as, if it publishes with an
/// author.
pub uninterp spec fn gossipsub_author(behaviour: libp2p::gossipsub::Behaviour) -> Option<libp2p::PeerId>;

/// The hashes of the topics a gossipsub behaviour is subscribed to (for an
/// `IdentTopic`, its name).
pub uninterp spec fn gossipsub_topics(behaviour: libp2p::gossipsub::Behaviour) -> Set<Seq<char>>;

/// The number of peers whose subscriptions a gossipsub behaviour knows.
pub uninterp spec fn gossipsub_peer_count(behaviour: libp2p::gossipsub::Behaviour) -> nat;

/// Parameters a gossipsub behaviour can be created with without libp2p
/// panicking or running out of memory: a heartbeat of at least a second (the
/// backoff storage divides by it and allocates one slot per heartbeat of the
/// prune backoff, plus the slack), a prune backoff of at most a day, a slack
/// of at most a thousand heartbeats, a message history of at most a million
/// heartbeats (the message cache allocates one slot per heartbeat), and a
/// first heartbeat within a day (its instant is computed from now).
pub open spec fn behaviour_creatable(p: GossipParameters) -> bool {
    &&& p.heartbeat_interval_millis >= 1000
    &&& 0 <= p.heartbeat_initial_delay_millis <= 86_400_000
    &&& p.prune_backoff_millis <= 86_400_000
    &&& 0 <= p.backoff_slack <= 1000
    &&& 0 <= p.history_length <= 1_000_000
}

/// `gossipsub::Behaviour::new(MessageAuthenticity::Signed(keypair), config)`.
/// libp2p refuses only an anonymous validation mode with a signing behaviour
/// (`validate_config`). The new behaviour runs with the configuration, signs
/// with the key pair, publishes as the key pair's peer id, is subscribed to
/// nothing and knows no peer.
#[verifier::external_body]
fn new_signed_gossipsub(
    keypair: libp2p::identity::Keypair,
    config: GossipsubConfig,
) -> (r: Result<libp2p::gossipsub::Behaviour, Refusal>)
    requires
        behaviour_creatable(config_parameters(config)),
    ensures
        r is Ok <==> config_parameters(config).validation_mode != ValidationMode::Anonymous,
        r matches Ok(b) ==> gossipsub_parameters(b) == config_parameters(config),
        r matches Ok(b) ==> gossipsub_signing_keypair(b) == Some(keypair),
        r matches Ok(b) ==> forall|secret: Seq<u8>|
            #[trigger] secp256k1_keypair(secret) == keypair ==> gossipsub_author(b) == Some(
                secp256k1_peer_id(secret),
            ),
        r matches Ok(b) ==> gossipsub_topics(b) == Set::<Seq<char>>::empty(),
        r matches Ok(b) ==> gossipsub_peer_count(b) == 0,
{
    libp2p::gossipsub::Behaviour::new(libp2p::gossipsub::MessageAuthenticity::Signed(keypair), config)
}

/// `gossipsub::Behaviour::subscribe` to `IdentTopic::new(topic)`, whose hash is
/// the topic's name. With every topic allowed, it fails only when announcing
/// the subscription to a known peer fails, so never when no peer is known; it
/// gives whether the behaviour was not subscribed yet. Only the subscribed
/// topics change: the topic joins them when the mesh size is not zero (with a
/// mesh size of zero and no fanout, libp2p leaves the mesh without it).
#[verifier::external_body]
fn subscribe_ident_topic(
    behaviour: &mut libp2p::gossipsub::Behaviour,
    topic: &str,
) -> (r: Result<bool, libp2p::gossipsub::SubscriptionError>)
    ensures
        gossipsub_peer_count(*old(behaviour)) == 0 ==> r is Ok,
        r matches Ok(added) ==> added == !gossipsub_topics(*old(behaviour)).contains(topic@),
        r is Ok && gossipsub_parameters(*old(behaviour)).mesh_n > 0 ==> gossipsub_topics(
            *final(behaviour),
        ) == gossipsub_topics(*old(behaviour)).insert(topic@),
        r is Ok ==> gossipsub_topics(*final(behaviour)) == gossipsub_topics(*old(behaviour))
            || gossipsub_topics(*final(behaviour)) == gossipsub_topics(*old(behaviour)).insert(
            topic@,
        ),
        r is Err ==> gossipsub_topics(*final(behaviour)) == gossipsub_topics(*old(behaviour)),
        gossipsub_parameters(*final(behaviour)) == gossipsub_parameters(*old(behaviour)),
        gossipsub_signing_keypair(*final(behaviour)) == gossipsub_signing_keypair(*old(behaviour)),
        gossipsub_author(*final(behaviour)) == gossipsub_author(*old(behaviour)),
        gossipsub_peer_count(*final(behaviour)) == gossipsub_peer_count(*old(behaviour)),
{
    behaviour.subscribe(&libp2p::gossipsub::IdentTopic::new(topic))
}

/// What can go wrong when the node's gossipsub behaviour is set up.
pub enum GossipsubSetupError {
    /// libp2p refused the configuration.
    Config(Refusal),
    /// libp2p refused to create the behaviour.
    Behaviour(Refusal),
    /// libp2p refused the subscription to the chat topic.
    Subscription(libp2p::gossipsub::SubscriptionError),
}

/// The parameters of the node's behaviour: libp2p's defaults with a
/// heartbeat every 10 seconds, floodsub peers accepted and strict validation.
pub open spec fn behaviour_gossipsub_parameters() -> GossipParameters {
    GossipParameters {
        heartbeat_interval_millis: 10000,
        floodsub_supported: true,
        validation_mode: ValidationMode::Strict,
        ..libp2p_default_parameters()
    }
}

/// The node's gossipsub behaviour: it runs with the parameters of
/// `behaviour_gossipsub_settings`, signs its messages with the node's key and
/// publishes as the node's peer id, and is subscribed to the chat topic
/// alone. libp2p accepts all of it, so it never fails.
pub fn behaviour_gossipsub(local_key: &NetworkKey) -> (r: Result<
    libp2p::gossipsub::Behaviour,
    GossipsubSetupError,
>)
    ensures
        r is Ok,
        r matches Ok(b) ==> gossipsub_parameters(b) == behaviour_gossipsub_parameters(),
        r matches Ok(b) ==> gossipsub_signing_keypair(b) == Some(secp256k1_keypair(local_key@)),
        r matches Ok(b) ==> gossipsub_author(b) == Some(secp256k1_peer_id(local_key@)),
        r matches Ok(b) ==> gossipsub_topics(b) == set![CHAT_TOPIC@],
{
    let settings = behaviour_gossipsub_settings();
    proof {
        behaviour_settings_parameters(settings);
    }
    let config = match build_gossipsub_config(&settings) {
        Ok(config) => config,
        Err(reason) => {
            return Err(GossipsubSetupError::Config(reason));
        },
    };
    let keypair = local_key.to_keypair();
    let mut gossipsub = match new_signed_gossipsub(keypair, config) {
        Ok(gossipsub) => gossipsub,
        Err(reason) => {
            return Err(GossipsubSetupError::Behaviour(reason));
        },
    };
    match subscribe_ident_topic(&mut gossipsub, CHAT_TOPIC) {
        Ok(_) => {
            assert(gossipsub_topics(gossipsub) =~= set![CHAT_TOPIC@]);
            Ok(gossipsub)
        },
        Err(e) => Err(GossipsubSetupError::Subscription(e)),
    }
}

/// The settings of the node's behaviour are accepted by libp2p and give its
/// parameters.
proof fn behaviour_settings_parameters(s: GossipsubSettings)
    requires
        is_behaviour_gossipsub_settings(s),
    ensures
        settings_accepted(s),
        settings_parameters(s) == behaviour_gossipsub_parameters(),
{
    assert(settings_parameters(s) == behaviour_gossipsub_parameters());
}

/// libp2p accepts its own defaults: a configuration built from no settings
/// has libp2p's default parameters.
pub proof fn libp2p_defaults_are_accepted(s: GossipsubSettings)
    requires
        is_libp2p_default(s),
    ensures
        settings_accepted(s),
        settings_parameters(s) == libp2p_default_parameters(),
{
    assert(settings_parameters(s) == libp2p_default_parameters());
}

/// libp2p accepts `default_gossipsub_config`: its configuration has the
/// protocol ids `/meshsub/1.0.0/1.1.0` and `/meshsub/1.0.0/1.0.0`, message ids
/// and fast message ids that are `message_id` of the data, messages held for
/// validation, and a mesh of 6 peers between 4 and 12; the rest is libp2p's
/// default.
pub proof fn default_gossipsub_config_is_accepted(s: GossipsubSettings)
    requires
        is_default_gossipsub_config(s),
    ensures
        settings_accepted(s),
        settings_parameters(s) == (GossipParameters {
            protocol_ids: prefixed_protocol_ids(GOSSIP_PROTOCOL_ID_PREFIX@),
            message_ids_from_data: true,
            fast_message_ids_from_data: true,
            validate_messages: true,
            mesh_n: 6,
            mesh_n_low: 4,
            mesh_n_high: 12,
            ..libp2p_default_parameters()
        }),
{
    reveal_strlit("/meshsub/1.0.0");
    assert(prefix_accepted(GOSSIP_PROTOCOL_ID_PREFIX@));
}

} // verus!
