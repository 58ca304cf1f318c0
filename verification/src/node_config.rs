//! The node configuration model: the composed module configurations a
//! single node runs with, the validation passes over them, and root-path
//! handling. Reading and writing the configuration file, and querying the
//! process environment, belong to the surrounding harness, which hands the
//! values in; paths appear here as plain strings.

use vstd::prelude::*;
use vstd::string::StrSliceExecFns;
use vstd::string::StringExecFns;

verus! {

/// A configuration error.
#[derive(Debug, Clone)]
pub enum Error {
    IO(String),
    Yaml(String),
    InvariantViolation(String),
    Unexpected(String),
}

#[derive(Debug, Copy, Clone, PartialEq, Eq, Structural)]
pub enum RoleType {
    Validator,
    FullNode,
}

impl RoleType {
    pub fn is_validator(&self) -> (r: bool)
        ensures
            r == (*self == RoleType::Validator),
    {
        matches!(self, RoleType::Validator)
    }
}

#[derive(Debug, Copy, Clone, PartialEq, Eq, Structural)]
pub enum NetworkId {
    Validator,
    Vfn,
    Public,
}

/// One network endpoint the node participates in. The peer id and the
/// network identity key appear reduced to their identities.
#[derive(Debug, Copy, Clone, PartialEq, Eq, Structural)]
pub struct NetworkConfig {
    pub network_id: NetworkId,
    pub listen_port: u16,
    pub mutual_authentication: bool,
    pub peer_id: u64,
    pub identity_key: u64,
}

#[derive(Debug)]
pub struct BaseConfig {
    pub role: RoleType,
    pub data_dir: String,
    pub working_dir: Option<String>,
}

#[derive(Debug, Copy, Clone, PartialEq, Eq, Structural)]
pub struct ApiConfig {
    pub port: u16,
}

#[derive(Debug, Copy, Clone, PartialEq, Eq, Structural)]
pub struct InspectionServiceConfig {
    pub port: u16,
}

#[derive(Debug)]
pub struct StorageConfig {
    pub backup_service_port: u16,
    pub data_dir: String,
}

#[derive(Debug)]
pub struct ConsensusConfig {
    pub data_dir: String,
}

#[derive(Debug, Copy, Clone, PartialEq, Eq, Structural)]
pub struct LoggerConfig {
    pub enable_console: bool,
}

#[derive(Debug)]
pub struct IndexerConfig {
    pub enabled: bool,
    pub postgres_uri: Option<String>,
    pub processor: Option<String>,
    pub starting_version: Option<u64>,
    pub skip_migrations: Option<bool>,
    pub check_chain_id: Option<bool>,
    pub batch_size: Option<u16>,
    pub fetch_tasks: Option<u8>,
    pub processor_tasks: Option<u8>,
    pub emit_every: Option<u64>,
    pub gap_lookback_versions: Option<u64>,
}

#[derive(Debug)]
pub struct IndexerGrpcConfig {
    pub enabled: bool,
    pub address: Option<String>,
    pub processor_task_count: Option<u16>,
    pub processor_batch_size: Option<u16>,
    pub output_batch_size: Option<u16>,
}

pub const DEFAULT_BATCH_SIZE: u16 = 500;

pub const DEFAULT_FETCH_TASKS: u8 = 5;

pub const DEFAULT_PROCESSOR_TASKS: u8 = 5;

/// The environment values the indexer validation consults; the surrounding
/// harness reads them from the process environment.
#[derive(Debug)]
pub struct IndexerEnv {
    pub database_url: Option<String>,
    pub processor_name: Option<String>,
    pub starting_version: Option<String>,
    pub gap_lookback_versions: Option<String>,
}

/// The node configuration: the configuration for a single node, composed
/// of module configurations for each of the modules the node uses.
#[derive(Debug)]
pub struct NodeConfig {
    pub api: ApiConfig,
    pub base: BaseConfig,
    pub consensus: ConsensusConfig,
    pub full_node_networks: Vec<NetworkConfig>,
    pub indexer: IndexerConfig,
    pub indexer_grpc: IndexerGrpcConfig,
    pub inspection_service: InspectionServiceConfig,
    pub logger: LoggerConfig,
    pub storage: StorageConfig,
    pub validator_network: Option<NetworkConfig>,
}

/// The first network with the public network id, the one a full node
/// identifies itself on.
pub open spec fn first_public_network(networks: Seq<NetworkConfig>) -> Option<NetworkConfig>
    decreases networks.len(),
{
    if networks.len() == 0 {
        Option::None
    } else if networks.first().network_id == NetworkId::Public {
        Option::Some(networks.first())
    } else {
        first_public_network(networks.drop_first())
    }
}

/// The network invariants the validation pass enforces: a validator node
/// has a validator network and a full node has none, and no full-node
/// network claims the validator network id.
pub open spec fn networks_valid(c: &NodeConfig) -> bool {
    &&& (c.base.role == RoleType::Validator) == (c.validator_network is Some)
    &&& forall|i: int|
        0 <= i < c.full_node_networks@.len() ==> (#[trigger] c.full_node_networks@[i]).network_id
            != NetworkId::Validator
}

/// The value of a digit string; grows digit by digit.
pub open spec fn digits_val(s: Seq<char>) -> int
    decreases s.len(),
{
    if s.len() == 0 {
        0
    } else {
        digits_val(s.drop_last()) * 10 + (s.last() as int - '0' as int)
    }
}

pub open spec fn all_digits(s: Seq<char>) -> bool {
    forall|i: int| 0 <= i < s.len() ==> '0' <= #[trigger] s[i] <= '9'
}

/// What a decimal string parses to: its value, when it is a non-empty
/// all-digit string whose value is representable; nothing otherwise.
pub open spec fn parse_u64_spec(s: Seq<char>) -> Option<u64> {
    if s.len() > 0 && all_digits(s) && digits_val(s) <= u64::MAX {
        Option::Some(digits_val(s) as u64)
    } else {
        Option::None
    }
}

proof fn lemma_digits_val_step(s: Seq<char>, i: int)
    requires
        0 <= i < s.len(),
    ensures
        digits_val(s.take(i + 1)) == digits_val(s.take(i)) * 10 + (s[i] as int - '0' as int),
{
    assert(s.take(i + 1).drop_last() =~= s.take(i));
    assert(s.take(i + 1).last() == s[i]);
}

proof fn lemma_digits_val_nonneg(s: Seq<char>)
    requires
        all_digits(s),
    ensures
        digits_val(s) >= 0,
    decreases s.len(),
{
    if s.len() > 0 {
        assert(all_digits(s.drop_last()));
        lemma_digits_val_nonneg(s.drop_last());
    }
}

proof fn lemma_digits_val_grows(s: Seq<char>, i: int)
    requires
        all_digits(s),
        0 <= i <= s.len(),
    ensures
        digits_val(s) >= digits_val(s.take(i)),
    decreases s.len() - i,
{
    if i < s.len() {
        lemma_digits_val_step(s, i);
        assert(all_digits(s.take(i)));
        lemma_digits_val_nonneg(s.take(i));
        lemma_digits_val_grows(s, i + 1);
    } else {
        assert(s.take(i) =~= s);
    }
}

/// Parses a decimal string: the number it denotes, when it is non-empty,
/// all digits, and fits; nothing otherwise.
pub fn parse_u64(s: &str) -> (r: Option<u64>)
    ensures
        r == parse_u64_spec(s@),
{
    let n = s.unicode_len();
    if n == 0 {
        return None;
    }
    let mut acc: u64 = 0;
    let mut i: usize = 0;
    proof {
        assert(s@.take(0) =~= Seq::<char>::empty());
    }
    while i < n
        invariant
            0 <= i <= n,
            n == s@.len(),
            n > 0,
            all_digits(s@.take(i as int)),
            acc == digits_val(s@.take(i as int)),
        decreases n - i,
    {
        let c = s.get_char(i);
        if !('0' <= c && c <= '9') {
            return None;
        }
        let d = (c as u32 - '0' as u32) as u64;
        proof {
            lemma_digits_val_step(s@, i as int);
            assert(all_digits(s@.take(i + 1)));
        }
        // Appending digit d overflows exactly when acc exceeds
        // u64::MAX / 10 = 1844674407370955161, or equals it with
        // d above u64::MAX % 10 = 5.
        if acc > 1844674407370955161u64 || (acc == 1844674407370955161u64 && d > 5) {
            proof {
                assert(acc * 10 + d > u64::MAX);
                if all_digits(s@) {
                    lemma_digits_val_grows(s@, i + 1);
                    assert(digits_val(s@) > u64::MAX);
                }
            }
            return None;
        }
        proof {
            assert(acc * 10 + d <= u64::MAX);
        }
        acc = acc * 10 + d;
        i = i + 1;
    }
    proof {
        assert(s@.take(n as int) =~= s@);
    }
    Some(acc)
}

/// An environment value wins over a configured one; a configured one over
/// the fallback.
pub fn env_or_default(env_value: Option<String>, value: Option<String>, fallback: Option<String>) -> (
    r: Option<String>)
    ensures
        env_value is Some ==> r == env_value,
        env_value is None && value is Some ==> r == value,
        env_value is None && value is None ==> r == fallback,
{
    match env_value {
        Some(v) => Some(v),
        None => match value {
            Some(v) => Some(v),
            None => fallback,
        },
    }
}

/// Zero and absent both mean the default.
pub fn default_if_zero(value: Option<u64>, default: u64) -> (r: Option<u64>)
    ensures
        r == (match value {
            Option::Some(v) => if v == 0 {
                Option::Some(default)
            } else {
                Option::Some(v)
            },
            Option::None => Option::Some(default),
        }),
{
    match value {
        Some(v) => if v == 0 {
            Some(default)
        } else {
            Some(v)
        },
        None => Some(default),
    }
}

fn default_if_zero_u8(value: Option<u8>, default: u8) -> (r: Option<u8>)
    ensures
        r == (match value {
            Option::Some(v) => if v == 0 {
                Option::Some(default)
            } else {
                Option::Some(v)
            },
            Option::None => Option::Some(default),
        }),
{
    match value {
        Some(v) => if v == 0 {
            Some(default)
        } else {
            Some(v)
        },
        None => Some(default),
    }
}

impl NodeConfig {
    pub fn data_dir(&self) -> (r: &String)
        ensures
            r@ == self.base.data_dir@,
    {
        &self.base.data_dir
    }

    /// The working directory, falling back to the data directory when none
    /// is set.
    pub fn working_dir(&self) -> (r: &String)
        ensures
            r@ == (match self.base.working_dir {
                Option::Some(w) => w@,
                Option::None => self.base.data_dir@,
            }),
    {
        match &self.base.working_dir {
            Some(working_dir) => working_dir,
            None => &self.base.data_dir,
        }
    }

    /// The node's own peer id: the validator network's for a validator,
    /// the public network's for a full node.
    pub fn peer_id(&self) -> (r: Option<u64>)
        ensures
            self.base.role == RoleType::Validator ==> r == (match self.validator_network {
                Option::Some(n) => Option::Some(n.peer_id),
                Option::None => Option::<u64>::None,
            }),
            self.base.role == RoleType::FullNode ==> r == (match first_public_network(
                self.full_node_networks@,
            ) {
                Option::Some(n) => Option::Some(n.peer_id),
                Option::None => Option::<u64>::None,
            }),
    {
        match self.base.role {
            RoleType::Validator => match &self.validator_network {
                Some(n) => Some(n.peer_id),
                None => None,
            },
            RoleType::FullNode => match self.find_public_network() {
                Some(n) => Some(n.peer_id),
                None => None,
            },
        }
    }

    /// The node's own network identity key, selected like the peer id.
    pub fn identity_key(&self) -> (r: Option<u64>)
        ensures
            self.base.role == RoleType::Validator ==> r == (match self.validator_network {
                Option::Some(n) => Option::Some(n.identity_key),
                Option::None => Option::<u64>::None,
            }),
            self.base.role == RoleType::FullNode ==> r == (match first_public_network(
                self.full_node_networks@,
            ) {
                Option::Some(n) => Option::Some(n.identity_key),
                Option::None => Option::<u64>::None,
            }),
    {
        match self.base.role {
            RoleType::Validator => match &self.validator_network {
                Some(n) => Some(n.identity_key),
                None => None,
            },
            RoleType::FullNode => match self.find_public_network() {
                Some(n) => Some(n.identity_key),
                None => None,
            },
        }
    }

    fn find_public_network(&self) -> (r: Option<NetworkConfig>)
        ensures
            r == first_public_network(self.full_node_networks@),
    {
        let n = self.full_node_networks.len();
        let mut i: usize = 0;
        proof {
            assert(self.full_node_networks@.skip(0) =~= self.full_node_networks@);
        }
        while i < n
            invariant
                0 <= i <= n,
                n == self.full_node_networks@.len(),
                first_public_network(self.full_node_networks@) == first_public_network(
                    self.full_node_networks@.skip(i as int),
                ),
            decreases n - i,
        {
            proof {
                assert(self.full_node_networks@.skip(i as int).first()
                    == self.full_node_networks@[i as int]);
                assert(self.full_node_networks@.skip(i as int).drop_first()
                    =~= self.full_node_networks@.skip(i + 1));
            }
            let network = self.full_node_networks[i];
            if matches!(network.network_id, NetworkId::Public) {
                return Some(network);
            }
            i = i + 1;
        }
        None
    }

    /// Points the base, consensus and storage configurations at one data
    /// directory.
    pub fn set_data_dir(&mut self, data_dir: String)
        ensures
            final(self).base.data_dir@ == data_dir@,
            final(self).consensus.data_dir@ == data_dir@,
            final(self).storage.data_dir@ == data_dir@,
            final(self).base.role == old(self).base.role,
            final(self).base.working_dir == old(self).base.working_dir,
            final(self).api == old(self).api,
            final(self).full_node_networks == old(self).full_node_networks,
            final(self).indexer == old(self).indexer,
            final(self).indexer_grpc == old(self).indexer_grpc,
            final(self).inspection_service == old(self).inspection_service,
            final(self).logger == old(self).logger,
            final(self).storage.backup_service_port == old(self).storage.backup_service_port,
            final(self).validator_network == old(self).validator_network,
    {
        self.consensus.data_dir = String::from_str(data_dir.as_str());
        self.storage.data_dir = String::from_str(data_dir.as_str());
        self.base.data_dir = data_dir;
    }

    /// Checks the network setups against the node's role: a validator node
    /// must have a validator network, a full node must not, and a full-node
    /// network must not claim the validator network id. On success the
    /// validator network, if any, is normalized: its id set to the
    /// validator network id, and mutual authentication on — the default for
    /// validators.
    pub fn validate_network_configs(self) -> (r: Result<NodeConfig, Error>)
        ensures
            r matches Ok(v) ==> {
                &&& networks_valid(&self)
                &&& v.api == self.api
                &&& v.base == self.base
                &&& v.consensus == self.consensus
                &&& v.full_node_networks == self.full_node_networks
                &&& v.indexer == self.indexer
                &&& v.indexer_grpc == self.indexer_grpc
                &&& v.inspection_service == self.inspection_service
                &&& v.logger == self.logger
                &&& v.storage == self.storage
                &&& v.validator_network == (match self.validator_network {
                    Option::Some(n) => Option::Some(NetworkConfig {
                        network_id: NetworkId::Validator,
                        listen_port: n.listen_port,
                        mutual_authentication: true,
                        peer_id: n.peer_id,
                        identity_key: n.identity_key,
                    }),
                    Option::None => Option::None,
                })
            },
            r matches Err(e) ==> !networks_valid(&self) && e matches Error::InvariantViolation(_),
    {
        let mut config = self;
        if config.base.role.is_validator() {
            if config.validator_network.is_none() {
                return Err(
                    Error::InvariantViolation(
                        String::from_str("Missing a validator network config for a validator node"),
                    ),
                );
            }
        } else {
            if config.validator_network.is_some() {
                return Err(
                    Error::InvariantViolation(
                        String::from_str("Provided a validator network config for a full_node node"),
                    ),
                );
            }
        }
        let n = config.full_node_networks.len();
        let mut i: usize = 0;
        while i < n
            invariant
                0 <= i <= n,
                n == config.full_node_networks@.len(),
                config.api == self.api,
                config.base == self.base,
                config.consensus == self.consensus,
                config.full_node_networks@ == self.full_node_networks@,
                config.indexer == self.indexer,
                config.indexer_grpc == self.indexer_grpc,
                config.inspection_service == self.inspection_service,
                config.logger == self.logger,
                config.storage == self.storage,
                config.validator_network == self.validator_network,
                (self.base.role == RoleType::Validator) == (self.validator_network is Some),
                forall|j: int|
                    0 <= j < i ==> (#[trigger] config.full_node_networks@[j]).network_id
                        != NetworkId::Validator,
            decreases n - i,
        {
            let network = config.full_node_networks[i];
            if matches!(network.network_id, NetworkId::Validator) {
                return Err(
                    Error::InvariantViolation(
                        String::from_str("A full_node network can not use the validator network id"),
                    ),
                );
            }
            i = i + 1;
        }
        config.validator_network = match config.validator_network {
            Some(network) => Some(
                NetworkConfig {
                    network_id: NetworkId::Validator,
                    listen_port: network.listen_port,
                    mutual_authentication: true,
                    peer_id: network.peer_id,
                    identity_key: network.identity_key,
                },
            ),
            None => None,
        };
        Ok(config)
    }

    /// Fills the missing indexer-stream fields with their defaults when the
    /// stream is enabled.
    pub fn validate_indexer_grpc_configs(self) -> (r: Result<NodeConfig, Error>)
        ensures
            !self.indexer_grpc.enabled ==> (r matches Ok(v) && v.indexer_grpc == self.indexer_grpc
                && v.base == self.base && v.api == self.api && v.consensus == self.consensus
                && v.full_node_networks == self.full_node_networks && v.indexer == self.indexer
                && v.inspection_service == self.inspection_service && v.logger == self.logger
                && v.storage == self.storage && v.validator_network == self.validator_network),
            self.indexer_grpc.enabled ==> (r matches Ok(v) && {
                &&& v.indexer_grpc.enabled
                &&& (self.indexer_grpc.address is Some ==> v.indexer_grpc.address
                    == self.indexer_grpc.address)
                &&& (self.indexer_grpc.address is None ==> (v.indexer_grpc.address
                    matches Option::Some(a) && a@ == "0.0.0.0:50051"@))
                &&& v.indexer_grpc.processor_task_count == (match self
                    .indexer_grpc
                    .processor_task_count {
                    Option::Some(c) => Option::Some(c),
                    Option::None => Option::Some(20u16),
                })
                &&& v.indexer_grpc.processor_batch_size == (match self
                    .indexer_grpc
                    .processor_batch_size {
                    Option::Some(c) => Option::Some(c),
                    Option::None => Option::Some(1000u16),
                })
                &&& v.indexer_grpc.output_batch_size == (match self.indexer_grpc.output_batch_size {
                    Option::Some(c) => Option::Some(c),
                    Option::None => Option::Some(100u16),
                })
                &&& v.base == self.base
                &&& v.api == self.api
                &&& v.consensus == self.consensus
                &&& v.full_node_networks == self.full_node_networks
                &&& v.indexer == self.indexer
                &&& v.inspection_service == self.inspection_service
                &&& v.logger == self.logger
                &&& v.storage == self.storage
                &&& v.validator_network == self.validator_network
            }),
    {
        let mut config = self;
        if !config.indexer_grpc.enabled {
            return Ok(config);
        }
        config.indexer_grpc.address = match config.indexer_grpc.address {
            Some(a) => Some(a),
            None => Some(String::from_str("0.0.0.0:50051")),
        };
        config.indexer_grpc.processor_task_count = match config.indexer_grpc.processor_task_count {
            Some(c) => Some(c),
            None => Some(20),
        };
        config.indexer_grpc.processor_batch_size = match config.indexer_grpc.processor_batch_size {
            Some(c) => Some(c),
            None => Some(1000),
        };
        config.indexer_grpc.output_batch_size = match config.indexer_grpc.output_batch_size {
            Some(c) => Some(c),
            None => Some(100),
        };
        Ok(config)
    }

    /// Fills the missing indexer fields with their defaults when the
    /// indexer is enabled, letting the given environment snapshot override
    /// the configured values. The database connection must come from one of
    /// the two sources; an unparseable numeric environment value is
    /// ignored.
    pub fn validate_indexer_configs(self, env: IndexerEnv) -> (r: Result<NodeConfig, Error>)
        requires
            self.indexer.enabled ==> env.database_url is Some || self.indexer.postgres_uri
                is Some,
        ensures
            !self.indexer.enabled ==> (r matches Ok(v) && v.indexer == self.indexer && v.base
                == self.base && v.validator_network == self.validator_network
                && v.full_node_networks == self.full_node_networks),
            self.indexer.enabled ==> (r matches Ok(v) && {
                &&& v.indexer.enabled
                &&& v.indexer.postgres_uri == (if env.database_url is Some {
                    env.database_url
                } else {
                    self.indexer.postgres_uri
                })
                &&& (env.processor_name is Some ==> v.indexer.processor == env.processor_name)
                &&& (env.processor_name is None && self.indexer.processor is Some
                    ==> v.indexer.processor == self.indexer.processor)
                &&& (env.processor_name is None && self.indexer.processor is None
                    ==> (v.indexer.processor matches Option::Some(p) && p@ == "default_processor"@))
                &&& v.indexer.starting_version == (match env.starting_version {
                    Option::Some(s) => (match parse_u64_spec(s@) {
                        Option::Some(ver) => Option::Some(ver),
                        Option::None => self.indexer.starting_version,
                    }),
                    Option::None => self.indexer.starting_version,
                })
                &&& v.indexer.skip_migrations == Option::Some(
                    self.indexer.skip_migrations == Option::Some(true),
                )
                &&& v.indexer.check_chain_id == Option::Some(
                    self.indexer.check_chain_id != Option::Some(false),
                )
                &&& v.indexer.batch_size == (match self.indexer.batch_size {
                    Option::Some(b) => if b == 0 {
                        Option::Some(DEFAULT_BATCH_SIZE)
                    } else {
                        Option::Some(b)
                    },
                    Option::None => Option::Some(DEFAULT_BATCH_SIZE),
                })
                &&& v.indexer.fetch_tasks == (match self.indexer.fetch_tasks {
                    Option::Some(t) => if t == 0 {
                        Option::Some(DEFAULT_FETCH_TASKS)
                    } else {
                        Option::Some(t)
                    },
                    Option::None => Option::Some(DEFAULT_FETCH_TASKS),
                })
                &&& v.indexer.processor_tasks == (match self.indexer.processor_tasks {
                    Option::Some(t) => if t == 0 {
                        Option::Some(DEFAULT_PROCESSOR_TASKS)
                    } else {
                        Option::Some(t)
                    },
                    Option::None => Option::Some(DEFAULT_PROCESSOR_TASKS),
                })
                &&& v.indexer.emit_every == (match self.indexer.emit_every {
                    Option::Some(e) => Option::Some(e),
                    Option::None => Option::Some(0u64),
                })
                &&& v.indexer.gap_lookback_versions == (match env.gap_lookback_versions {
                    Option::Some(s) => (match parse_u64_spec(s@) {
                        Option::Some(ver) => Option::Some(ver),
                        Option::None => (match self.indexer.gap_lookback_versions {
                            Option::Some(g) => Option::Some(g),
                            Option::None => Option::Some(1_500_000u64),
                        }),
                    }),
                    Option::None => (match self.indexer.gap_lookback_versions {
                        Option::Some(g) => Option::Some(g),
                        Option::None => Option::Some(1_500_000u64),
                    }),
                })
                &&& v.base == self.base
                &&& v.validator_network == self.validator_network
                &&& v.full_node_networks == self.full_node_networks
            }),
    {
        let mut config = self;
        if !config.indexer.enabled {
            return Ok(config);
        }
        config.indexer.postgres_uri = env_or_default(
            env.database_url,
            config.indexer.postgres_uri,
            None,
        );
        config.indexer.processor = env_or_default(
            env.processor_name,
            config.indexer.processor,
            Some(String::from_str("default_processor")),
        );
        config.indexer.starting_version = match env.starting_version {
            None => config.indexer.starting_version,
            Some(s) => match parse_u64(s.as_str()) {
                Some(version) => Some(version),
                None => config.indexer.starting_version,
            },
        };
        config.indexer.skip_migrations = Some(
            match config.indexer.skip_migrations {
                Some(true) => true,
                _ => false,
            },
        );
        config.indexer.check_chain_id = Some(
            match config.indexer.check_chain_id {
                Some(false) => false,
                _ => true,
            },
        );
        config.indexer.batch_size = match config.indexer.batch_size {
            Some(b) => if b == 0 {
                Some(DEFAULT_BATCH_SIZE)
            } else {
                Some(b)
            },
            None => Some(DEFAULT_BATCH_SIZE),
        };
        config.indexer.fetch_tasks = match config.indexer.fetch_tasks {
            Some(t) => if t == 0 {
                Some(DEFAULT_FETCH_TASKS)
            } else {
                Some(t)
            },
            None => Some(DEFAULT_FETCH_TASKS),
        };
        config.indexer.processor_tasks = default_if_zero_u8(
            config.indexer.processor_tasks,
            DEFAULT_PROCESSOR_TASKS,
        );
        config.indexer.emit_every = match config.indexer.emit_every {
            Some(e) => Some(e),
            None => Some(0),
        };
        config.indexer.gap_lookback_versions = match env.gap_lookback_versions {
            Some(s) => match parse_u64(s.as_str()) {
                Some(version) => Some(version),
                None => match config.indexer.gap_lookback_versions {
                    Some(g) => Some(g),
                    None => Some(1_500_000),
                },
            },
            None => match config.indexer.gap_lookback_versions {
                Some(g) => Some(g),
                None => Some(1_500_000),
            },
        };
        Ok(config)
    }

    /// Applies freshly picked free ports and silences the console logger,
    /// as a test node does: one port per module service, one per network.
    pub fn randomize_ports(
        &mut self,
        api_port: u16,
        inspection_port: u16,
        backup_port: u16,
        validator_port: u16,
        fullnode_ports: &Vec<u16>,
    )
        requires
            fullnode_ports@.len() == old(self).full_node_networks@.len(),
        ensures
            final(self).api.port == api_port,
            final(self).inspection_service.port == inspection_port,
            final(self).storage.backup_service_port == backup_port,
            final(self).storage.data_dir == old(self).storage.data_dir,
            !final(self).logger.enable_console,
            final(self).validator_network == (match old(self).validator_network {
                Option::Some(n) => Option::Some(NetworkConfig {
                    network_id: n.network_id,
                    listen_port: validator_port,
                    mutual_authentication: n.mutual_authentication,
                    peer_id: n.peer_id,
                    identity_key: n.identity_key,
                }),
                Option::None => Option::None,
            }),
            final(self).full_node_networks@.len() == old(self).full_node_networks@.len(),
            forall|i: int|
                0 <= i < old(self).full_node_networks@.len()
                    ==> (#[trigger] final(self).full_node_networks@[i]) == (NetworkConfig {
                    network_id: old(self).full_node_networks@[i].network_id,
                    listen_port: fullnode_ports@[i],
                    mutual_authentication: old(self).full_node_networks@[i].mutual_authentication,
                    peer_id: old(self).full_node_networks@[i].peer_id,
                    identity_key: old(self).full_node_networks@[i].identity_key,
                }),
            final(self).base == old(self).base,
            final(self).consensus == old(self).consensus,
            final(self).indexer == old(self).indexer,
            final(self).indexer_grpc == old(self).indexer_grpc,
    {
        self.api.port = api_port;
        self.inspection_service.port = inspection_port;
        self.storage.backup_service_port = backup_port;
        self.logger.enable_console = false;
        self.validator_network = match self.validator_network {
            Some(n) => Some(
                NetworkConfig {
                    network_id: n.network_id,
                    listen_port: validator_port,
                    mutual_authentication: n.mutual_authentication,
                    peer_id: n.peer_id,
                    identity_key: n.identity_key,
                },
            ),
            None => None,
        };
        let n = self.full_node_networks.len();
        let ghost nets0 = self.full_node_networks@;
        let mut i: usize = 0;
        while i < n
            invariant
                0 <= i <= n,
                n == self.full_node_networks@.len(),
                nets0.len() == n,
                fullnode_ports@.len() == n,
                self.api.port == api_port,
                self.inspection_service.port == inspection_port,
                self.storage.backup_service_port == backup_port,
                self.storage.data_dir == old(self).storage.data_dir,
                !self.logger.enable_console,
                self.validator_network == (match old(self).validator_network {
                    Option::Some(vn) => Option::Some(NetworkConfig {
                        network_id: vn.network_id,
                        listen_port: validator_port,
                        mutual_authentication: vn.mutual_authentication,
                        peer_id: vn.peer_id,
                        identity_key: vn.identity_key,
                    }),
                    Option::None => Option::None,
                }),
                self.base == old(self).base,
                self.consensus == old(self).consensus,
                self.indexer == old(self).indexer,
                self.indexer_grpc == old(self).indexer_grpc,
                forall|j: int| i <= j < n ==> self.full_node_networks@[j] == nets0[j],
                forall|j: int|
                    0 <= j < i ==> (#[trigger] self.full_node_networks@[j]) == (NetworkConfig {
                        network_id: nets0[j].network_id,
                        listen_port: fullnode_ports@[j],
                        mutual_authentication: nets0[j].mutual_authentication,
                        peer_id: nets0[j].peer_id,
                        identity_key: nets0[j].identity_key,
                    }),
            decreases n - i,
        {
            let updated = NetworkConfig {
                network_id: self.full_node_networks[i].network_id,
                listen_port: fullnode_ports[i],
                mutual_authentication: self.full_node_networks[i].mutual_authentication,
                peer_id: self.full_node_networks[i].peer_id,
                identity_key: self.full_node_networks[i].identity_key,
            };
            let slot = vstd::std_specs::vec::vec_index_mut(&mut self.full_node_networks, i);
            *slot = updated;
            i = i + 1;
        }
    }

    /// The stock configuration of a public full node: full-node role, one
    /// public network.
    pub fn default_for_public_full_node() -> (c: NodeConfig)
        ensures
            c.base.role == RoleType::FullNode,
            c.validator_network is None,
            c.full_node_networks@.len() == 1,
            c.full_node_networks@[0].network_id == NetworkId::Public,
            networks_valid(&c),
    {
        let mut networks: Vec<NetworkConfig> = Vec::new();
        networks.push(
            NetworkConfig {
                network_id: NetworkId::Public,
                listen_port: 6180,
                mutual_authentication: false,
                peer_id: 0,
                identity_key: 0,
            },
        );
        NodeConfig {
            api: ApiConfig { port: 8080 },
            base: BaseConfig {
                role: RoleType::FullNode,
                data_dir: String::from_str("/opt/data"),
                working_dir: None,
            },
            consensus: ConsensusConfig { data_dir: String::from_str("/opt/data") },
            full_node_networks: networks,
            indexer: IndexerConfig {
                enabled: false,
                postgres_uri: None,
                processor: None,
                starting_version: None,
                skip_migrations: None,
                check_chain_id: None,
                batch_size: None,
                fetch_tasks: None,
                processor_tasks: None,
                emit_every: None,
                gap_lookback_versions: None,
            },
            indexer_grpc: IndexerGrpcConfig {
                enabled: false,
                address: None,
                processor_task_count: None,
                processor_batch_size: None,
                output_batch_size: None,
            },
            inspection_service: InspectionServiceConfig { port: 9101 },
            logger: LoggerConfig { enable_console: true },
            storage: StorageConfig {
                backup_service_port: 6186,
                data_dir: String::from_str("/opt/data"),
            },
            validator_network: None,
        }
    }

    /// The stock configuration of a validator: validator role, a validator
    /// network and no full-node network.
    pub fn default_for_validator() -> (c: NodeConfig)
        ensures
            c.base.role == RoleType::Validator,
            c.validator_network matches Some(n) && n.network_id == NetworkId::Validator
                && n.mutual_authentication,
            c.full_node_networks@.len() == 0,
            networks_valid(&c),
    {
        let mut base = Self::default_for_public_full_node();
        base.base.role = RoleType::Validator;
        base.full_node_networks = Vec::new();
        base.validator_network = Some(
            NetworkConfig {
                network_id: NetworkId::Validator,
                listen_port: 6180,
                mutual_authentication: true,
                peer_id: 0,
                identity_key: 0,
            },
        );
        base
    }

    /// The stock configuration of a validator's full node: full-node role,
    /// one network towards the validator and one public network.
    pub fn default_for_validator_full_node() -> (c: NodeConfig)
        ensures
            c.base.role == RoleType::FullNode,
            c.validator_network is None,
            c.full_node_networks@.len() == 2,
            c.full_node_networks@[0].network_id == NetworkId::Vfn,
            c.full_node_networks@[1].network_id == NetworkId::Public,
            networks_valid(&c),
    {
        let mut base = Self::default_for_public_full_node();
        let mut networks: Vec<NetworkConfig> = Vec::new();
        networks.push(
            NetworkConfig {
                network_id: NetworkId::Vfn,
                listen_port: 6181,
                mutual_authentication: false,
                peer_id: 0,
                identity_key: 0,
            },
        );
        networks.push(
            NetworkConfig {
                network_id: NetworkId::Public,
                listen_port: 6182,
                mutual_authentication: false,
                peer_id: 0,
                identity_key: 0,
            },
        );
        base.full_node_networks = networks;
        base
    }
}

/// Where the last path separator stands, or a negative value when there is
/// none.
pub open spec fn last_separator(s: Seq<char>) -> int
    decreases s.len(),
{
    if s.len() == 0 {
        -1
    } else if s.last() == '/' {
        s.len() - 1
    } else {
        last_separator(s.drop_last())
    }
}

/// A path with its trailing separators removed.
pub open spec fn strip_trailing_separators(s: Seq<char>) -> Seq<char>
    decreases s.len(),
{
    if s.len() > 0 && s.last() == '/' {
        strip_trailing_separators(s.drop_last())
    } else {
        s
    }
}

/// A path's parent, resolved as the platform does: trailing separators are
/// ignored, the last component is dropped together with the separators
/// before it, the parent of a path directly under the root is the root
/// itself, and a path without a parent gives the empty string.
pub open spec fn parent_of(s: Seq<char>) -> Seq<char> {
    let t = strip_trailing_separators(s);
    if last_separator(t) >= 0 {
        let p = strip_trailing_separators(t.take(last_separator(t)));
        if p.len() == 0 && t[0] == '/' {
            seq!['/']
        } else {
            p
        }
    } else {
        Seq::empty()
    }
}

proof fn lemma_strip_empty_all_separators(s: Seq<char>)
    requires
        strip_trailing_separators(s).len() == 0,
        s.len() > 0,
    ensures
        s[0] == '/',
    decreases s.len(),
{
    if s.last() == '/' {
        if s.len() > 1 {
            lemma_strip_empty_all_separators(s.drop_last());
            assert(s.drop_last()[0] == s[0]);
        }
    }
}

/// The directory configuration files are resolved against.
#[derive(Debug)]
pub struct RootPath {
    root_path: String,
}

impl RootPath {
    pub closed spec fn root(&self) -> Seq<char> {
        self.root_path@
    }

    /// Roots at the parent directory of the given file path.
    pub fn new(path: &str) -> (r: Self)
        ensures
            r.root() == parent_of(path@),
    {
        let n = path.unicode_len();
        let mut e: usize = n;
        proof {
            assert(path@.take(n as int) =~= path@);
        }
        while e > 0 && path.get_char(e - 1) == '/'
            invariant
                0 <= e <= n,
                n == path@.len(),
                strip_trailing_separators(path@) == strip_trailing_separators(
                    path@.take(e as int),
                ),
            decreases e,
        {
            proof {
                assert(path@.take(e as int).last() == path@[e - 1]);
                assert(path@.take(e as int).drop_last() =~= path@.take(e - 1));
            }
            e = e - 1;
        }
        let ghost t = strip_trailing_separators(path@);
        proof {
            if e > 0 {
                assert(path@.take(e as int).last() == path@[e - 1]);
            } else {
                assert(path@.take(0) =~= Seq::<char>::empty());
            }
            assert(t =~= path@.take(e as int));
        }
        let mut k: usize = e;
        while k > 0
            invariant
                0 <= k <= e <= n,
                n == path@.len(),
                t == strip_trailing_separators(path@),
                t == path@.take(e as int),
                last_separator(t) == last_separator(path@.take(k as int)),
            decreases k,
        {
            proof {
                assert(path@.take(k as int).last() == path@[k - 1]);
                assert(path@.take(k as int).drop_last() =~= path@.take(k - 1));
            }
            if path.get_char(k - 1) == '/' {
                proof {
                    assert(last_separator(t) == k - 1);
                }
                let mut q: usize = k - 1;
                while q > 0 && path.get_char(q - 1) == '/'
                    invariant
                        0 <= q <= n,
                        q < k <= n,
                        n == path@.len(),
                        strip_trailing_separators(path@.take(k - 1))
                            == strip_trailing_separators(path@.take(q as int)),
                    decreases q,
                {
                    proof {
                        assert(path@.take(q as int).last() == path@[q - 1]);
                        assert(path@.take(q as int).drop_last() =~= path@.take(q - 1));
                    }
                    q = q - 1;
                }
                let ghost p = strip_trailing_separators(t.take(last_separator(t)));
                proof {
                    assert(t.take(last_separator(t)) =~= path@.take(k - 1));
                    if q > 0 {
                        assert(path@.take(q as int).last() == path@[q - 1]);
                    } else {
                        assert(path@.take(0) =~= Seq::<char>::empty());
                    }
                    assert(p =~= path@.take(q as int));
                }
                if q == 0 {
                    proof {
                        if k - 1 > 0 {
                            lemma_strip_empty_all_separators(path@.take(k - 1));
                        }
                        assert(t[0] == path@[0]);
                        assert(t[0] == '/');
                        reveal_strlit("/");
                        assert("/"@ =~= seq!['/']);
                        assert(parent_of(path@) =~= seq!['/']);
                    }
                    return RootPath { root_path: String::from_str("/") };
                }
                let root = path.substring_char(0, q);
                proof {
                    assert(parent_of(path@) =~= path@.subrange(0, q as int));
                }
                return RootPath { root_path: String::from_str(root) };
            }
            k = k - 1;
        }
        proof {
            assert(path@.take(0) =~= Seq::<char>::empty());
            assert(last_separator(t) == -1);
            assert(parent_of(path@) =~= Seq::<char>::empty());
            reveal_strlit("");
            assert(""@ =~= Seq::<char>::empty());
        }
        RootPath { root_path: String::from_str("") }
    }

    /// Roots at the given path, which is taken to already be a directory.
    pub fn new_path(path: &str) -> (r: Self)
        ensures
            r.root() == path@,
    {
        RootPath { root_path: String::from_str(path) }
    }

    /// Resolves a file path against the root: an absolute file path — one
    /// that starts with a separator — is kept as it is; a relative one is
    /// joined under the root, with a separator added only where the root is
    /// neither empty nor already ending in one.
    pub fn full_path(&self, file_path: &str) -> (r: String)
        ensures
            r@ == if file_path@.len() > 0 && file_path@[0] == '/' {
                file_path@
            } else if self.root().len() == 0 {
                file_path@
            } else if self.root().last() == '/' {
                self.root() + file_path@
            } else {
                self.root() + seq!['/'] + file_path@
            },
    {
        let n = file_path.unicode_len();
        if n > 0 && file_path.get_char(0) == '/' {
            return String::from_str(file_path);
        }
        let rl = self.root_path.as_str().unicode_len();
        if rl == 0 {
            return String::from_str(file_path);
        }
        if self.root_path.as_str().get_char(rl - 1) == '/' {
            let joined = String::from_str(self.root_path.as_str()).concat(file_path);
            proof {
                assert(joined@ =~= self.root() + file_path@);
            }
            joined
        } else {
            let joined = String::from_str(self.root_path.as_str()).concat("/").concat(file_path);
            proof {
                reveal_strlit("/");
                assert("/"@ =~= seq!['/']);
                assert(joined@ =~= self.root() + seq!['/'] + file_path@);
            }
            joined
        }
    }
}

} // verus!
