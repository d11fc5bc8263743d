//! The configuration of each role, as the checkers read it.

use crate::error::Error;
use crate::text::{opt_text, same_text, text, text_or, texts};
use vstd::prelude::*;

verus! {

/// Configuration for Metasrv component
#[derive(Debug, Clone)]
pub struct MetasrvConfig {
    /// Data home directory
    pub data_home: Option<String>,
    /// Store addresses
    pub store_addrs: Vec<String>,
    /// Store key prefix
    pub store_key_prefix: Option<String>,
    /// Backend type
    pub backend: String,
    /// Meta table name (for RDS backends)
    pub meta_table_name: Option<String>,
    /// Meta schema name (for PostgreSQL)
    pub meta_schema_name: Option<String>,
    /// Advisory lock id for PostgreSQL
    pub meta_election_lock_id: Option<i32>,
    /// Datanode selector type
    pub selector: Option<String>,
    /// Use memory store
    pub use_memory_store: Option<bool>,
    /// Enable region failover
    pub enable_region_failover: Option<bool>,
    /// gRPC server configuration
    pub grpc: Option<GrpcConfig>,
    /// HTTP server configuration
    pub http: Option<HttpConfig>,
    /// Backend TLS configuration
    pub backend_tls: Option<TlsConfig>,
}

/// Configuration for Frontend component
#[derive(Debug, Clone)]
pub struct FrontendConfig {
    /// Data home directory
    pub data_home: Option<String>,
    /// Default timezone
    pub default_timezone: Option<String>,
    /// HTTP server configuration
    pub http: Option<HttpConfig>,
    /// gRPC server configuration
    pub grpc: Option<GrpcConfig>,
    /// Metasrv client configuration
    pub meta_client: Option<MetaClientConfig>,
    /// Heartbeat configuration
    pub heartbeat: Option<HeartbeatConfig>,
    /// Prometheus configuration
    pub prometheus: Option<PrometheusConfig>,
    /// Logging configuration
    pub logging: Option<LoggingConfig>,
}

/// Configuration for Datanode component
#[derive(Debug, Clone)]
pub struct DatanodeConfig {
    /// Datanode identifier
    pub node_id: Option<u64>,
    /// Start services after regions have obtained leases
    pub require_lease_before_startup: Option<bool>,
    /// Initialize all regions in the background during startup
    pub init_regions_in_background: Option<bool>,
    /// Parallelism of initializing regions
    pub init_regions_parallelism: Option<u32>,
    /// Maximum concurrent queries allowed
    pub max_concurrent_queries: Option<u32>,
    /// Enable telemetry
    pub enable_telemetry: Option<bool>,
    /// HTTP server configuration
    pub http: Option<HttpConfig>,
    /// gRPC server configuration
    pub grpc: Option<GrpcConfig>,
    /// Heartbeat configuration
    pub heartbeat: Option<HeartbeatConfig>,
    /// Metasrv client configuration
    pub meta_client: Option<MetaClientConfig>,
    /// WAL configuration
    pub wal: Option<WalConfig>,
    /// Storage configuration
    pub storage: Option<DatanodeStorageConfig>,
    /// Query configuration
    pub query: Option<QueryConfig>,
    /// Logging configuration
    pub logging: Option<LoggingConfig>,
}

/// Store configuration for Metasrv
#[derive(Debug, Clone)]
pub struct StoreConfig {
    /// Store type: "etcd_store", "postgres_store", "mysql_store", "memory_store"
    pub store_type: String,
    /// Store addresses
    pub store_addrs: Vec<String>,
    /// Store key prefix
    pub store_key_prefix: Option<String>,
    /// Maximum transaction operations
    pub max_txn_ops: Option<usize>,
    /// Metadata table name (for SQL stores)
    pub meta_table_name: Option<String>,
    /// TLS configuration
    pub tls: Option<TlsConfig>,
}

/// Server configuration
#[derive(Debug, Clone)]
pub struct ServerConfig {
    /// Server address
    pub addr: Option<String>,
    /// HTTP address
    pub http_addr: Option<String>,
    /// gRPC address
    pub grpc_addr: Option<String>,
}

/// gRPC server configuration
#[derive(Debug, Clone)]
pub struct GrpcConfig {
    /// Bind address
    pub addr: Option<String>,
    /// Server address
    pub server_addr: Option<String>,
    /// Runtime size
    pub runtime_size: Option<u32>,
    /// Max receive message size
    pub max_recv_message_size: Option<String>,
    /// Max send message size
    pub max_send_message_size: Option<String>,
}

/// HTTP server configuration
#[derive(Debug, Clone)]
pub struct HttpConfig {
    /// HTTP address
    pub addr: Option<String>,
    /// Request timeout
    pub timeout: Option<String>,
    /// Body limit
    pub body_limit: Option<String>,
    /// Max connections
    pub max_connections: Option<u32>,
}

/// Metasrv client configuration
#[derive(Debug, Clone)]
pub struct MetaClientConfig {
    /// Metasrv addresses
    pub metasrv_addrs: Vec<String>,
    /// Operation timeout
    pub timeout: Option<String>,
    /// Heartbeat timeout
    pub heartbeat_timeout: Option<String>,
    /// DDL timeout
    pub ddl_timeout: Option<String>,
    /// Connect timeout
    pub connect_timeout: Option<String>,
    /// TCP nodelay
    pub tcp_nodelay: Option<bool>,
}

/// Heartbeat configuration
#[derive(Debug, Clone)]
pub struct HeartbeatConfig {
    /// Heartbeat interval
    pub interval: Option<String>,
    /// Retry interval
    pub retry_interval: Option<String>,
}

/// Prometheus configuration
#[derive(Debug, Clone)]
pub struct PrometheusConfig {
    /// Enable prometheus
    pub enable: Option<bool>,
    /// With metric engine
    pub with_metric_engine: Option<bool>,
}

/// Logging configuration
#[derive(Debug, Clone)]
pub struct LoggingConfig {
    /// Log level
    pub level: Option<String>,
    /// Log directory
    pub dir: Option<String>,
}

/// WAL configuration
#[derive(Debug, Clone)]
pub struct WalConfig {
    /// WAL provider
    pub provider: Option<String>,
    /// WAL directory
    pub dir: Option<String>,
    /// File size
    pub file_size: Option<String>,
    /// Purge threshold
    pub purge_threshold: Option<String>,
    /// Purge interval
    pub purge_interval: Option<String>,
    /// Read batch size
    pub read_batch_size: Option<u32>,
    /// Sync write
    pub sync_write: Option<bool>,
}

/// Datanode storage configuration
#[derive(Debug, Clone)]
pub struct DatanodeStorageConfig {
    /// Data home directory
    pub data_home: Option<String>,
    /// Storage type
    pub storage_type: Option<String>,
    /// Cache capacity
    pub cache_capacity: Option<String>,
    /// Cache path
    pub cache_path: Option<String>,
    /// S3 bucket
    pub bucket: Option<String>,
    /// S3 root
    pub root: Option<String>,
    /// Access key ID
    pub access_key_id: Option<String>,
    /// Secret access key
    pub secret_access_key: Option<String>,
    /// Endpoint
    pub endpoint: Option<String>,
    /// Region
    pub region: Option<String>,
}

/// Query configuration
#[derive(Debug, Clone)]
pub struct QueryConfig {
    /// Query parallelism
    pub parallelism: Option<u32>,
    /// Allow query fallback
    pub allow_query_fallback: Option<bool>,
}

/// One value of a storage configuration table.
#[derive(Debug, Clone, PartialEq, Eq)]
pub enum ConfigValue {
    /// A text value.
    String(String),
    /// An integer value.
    Integer(i64),
    /// A truth value.
    Boolean(bool),
    /// A value of any other kind (a date, a list, a table), which no
    /// storage setting is read from.
    Other,
}

/// Storage configuration for Datanode: a storage type and a table of named
/// settings in which no name occurs twice.
#[derive(Debug, Clone)]
pub struct StorageConfig {
    /// Storage type: "S3", "Oss", "Azblob", "Gcs", "File"
    pub storage_type: String,
    /// Storage configuration data
    pub config: Vec<(String, ConfigValue)>,
}

/// TLS configuration
#[derive(Debug, Clone)]
pub struct TlsConfig {
    /// Certificate file path
    pub cert: Option<String>,
    /// Private key file path
    pub key: Option<String>,
    /// CA certificate file path
    pub ca: Option<String>,
    /// Server name for verification
    pub server_name: Option<String>,
}

/// S3-compatible storage configuration
#[derive(Debug, Clone)]
pub struct S3Config {
    /// S3 bucket name
    pub bucket: String,
    /// Root path in the bucket
    pub root: Option<String>,
    /// Access key ID
    pub access_key_id: String,
    /// Secret access key
    pub secret_access_key: String,
    /// S3 endpoint URL
    pub endpoint: Option<String>,
    /// AWS region
    pub region: Option<String>,
}

/// OSS storage configuration
#[derive(Debug, Clone)]
pub struct OssConfig {
    /// OSS bucket name
    pub bucket: String,
    /// Root path in the bucket
    pub root: Option<String>,
    /// Access key ID
    pub access_key_id: String,
    /// Access key secret
    pub access_key_secret: String,
    /// OSS endpoint
    pub endpoint: String,
}

/// Azure Blob storage configuration
#[derive(Debug, Clone)]
pub struct AzblobConfig {
    /// Container name
    pub container: String,
    /// Root path in the container
    pub root: Option<String>,
    /// Account name
    pub account_name: String,
    /// Account key
    pub account_key: String,
    /// Endpoint URL
    pub endpoint: Option<String>,
}

/// Google Cloud Storage configuration
#[derive(Debug, Clone)]
pub struct GcsConfig {
    /// GCS bucket name
    pub bucket: String,
    /// Root path in the bucket
    pub root: Option<String>,
    /// Service account key (JSON)
    pub service_account: Option<String>,
    /// Service account key file path
    pub service_account_path: Option<String>,
}

/// Configuration parser utility
pub struct ConfigParser;

/// The index of the first setting named `key`, or the number of settings if
/// none has that name.
pub open spec fn setting_index(settings: Seq<(String, ConfigValue)>, key: Seq<char>) -> int
    decreases settings.len(),
{
    if settings.len() == 0 {
        0
    } else if settings.first().0@ == key {
        0
    } else {
        1 + setting_index(settings.drop_first(), key)
    }
}

/// The text of the setting named `key`: absent if there is no such setting,
/// or if its value is no text.
pub open spec fn setting_text(settings: Seq<(String, ConfigValue)>, key: Seq<char>) -> Option<
    Seq<char>,
> {
    let i = setting_index(settings, key);
    if i < settings.len() {
        match settings[i].1 {
            ConfigValue::String(s) => Some(s@),
            _ => None,
        }
    } else {
        None
    }
}

/// No name occurs twice among the settings.
pub open spec fn distinct_names(settings: Seq<(String, ConfigValue)>) -> bool {
    forall|i: int, j: int|
        0 <= i < j < settings.len() ==> (#[trigger] settings[i]).0@ != (#[trigger] settings[j]).0@
}

/// The first setting named `key` is named `key`, and none before it is.
pub proof fn lemma_setting_index(settings: Seq<(String, ConfigValue)>, key: Seq<char>)
    ensures
        0 <= setting_index(settings, key) <= settings.len(),
        setting_index(settings, key) < settings.len() ==> settings[setting_index(
            settings,
            key,
        )].0@ == key,
        forall|j: int| 0 <= j < setting_index(settings, key) ==> settings[j].0@ != key,
    decreases settings.len(),
{
    if settings.len() > 0 && settings.first().0@ != key {
        lemma_setting_index(settings.drop_first(), key);
        assert forall|j: int| 0 <= j < setting_index(settings, key) implies settings[j].0@
            != key by {
            if j > 0 {
                assert(settings[j] == settings.drop_first()[j - 1]);
            }
        }
    }
}

/// An index that is named `key`, and before which no setting is, is the first.
proof fn lemma_setting_index_is(settings: Seq<(String, ConfigValue)>, key: Seq<char>, at: int)
    requires
        0 <= at <= settings.len(),
        at < settings.len() ==> settings[at].0@ == key,
        forall|j: int| 0 <= j < at ==> settings[j].0@ != key,
    ensures
        setting_index(settings, key) == at,
{
    lemma_setting_index(settings, key);
}

/// Finds the first setting named `key`.
fn find_setting(settings: &Vec<(String, ConfigValue)>, key: &str) -> (i: usize)
    ensures
        i == setting_index(settings@, key@),
        i <= settings.len(),
{
    let mut i: usize = 0;
    while i < settings.len()
        invariant
            i <= settings.len(),
            forall|j: int| 0 <= j < i ==> settings@[j].0@ != key@,
        decreases settings.len() - i,
    {
        if same_text(settings[i].0.as_str(), key) {
            proof {
                lemma_setting_index_is(settings@, key@, i as int);
            }
            return i;
        }
        i += 1;
    }
    proof {
        lemma_setting_index_is(settings@, key@, i as int);
    }
    i
}

/// `Some` of a fresh string with the characters of `s`.
fn some_text(s: &str) -> (r: Option<String>)
    ensures
        opt_text(r) == Some(s@),
{
    Some(text(s))
}

/// A list holding one string with the characters of `s`.
fn one_text(s: &str) -> (r: Vec<String>)
    ensures
        texts(r@) == seq![s@],
{
    let mut v: Vec<String> = Vec::new();
    v.push(text(s));
    v
}

impl MetaClientConfig {
    /// The client settings that the default configurations carry: one
    /// metasrv address on the local host.
    pub open spec fn is_default(self) -> bool {
        &&& texts(self.metasrv_addrs@) == seq!["127.0.0.1:3002"@]
        &&& opt_text(self.timeout) == Some("3s"@)
        &&& opt_text(self.heartbeat_timeout) == Some("500ms"@)
        &&& opt_text(self.ddl_timeout) == Some("10s"@)
        &&& opt_text(self.connect_timeout) == Some("1s"@)
        &&& self.tcp_nodelay == Some(true)
    }

    fn default_client() -> (r: Self)
        ensures
            r.is_default(),
    {
        MetaClientConfig {
            metasrv_addrs: one_text("127.0.0.1:3002"),
            timeout: some_text("3s"),
            heartbeat_timeout: some_text("500ms"),
            ddl_timeout: some_text("10s"),
            connect_timeout: some_text("1s"),
            tcp_nodelay: Some(true),
        }
    }
}

impl MetasrvConfig {
    /// The default: an in-memory store, with nothing else decided.
    pub open spec fn is_default(self) -> bool {
        &&& opt_text(self.data_home) == Some("./greptimedb_data"@)
        &&& texts(self.store_addrs@) == seq!["127.0.0.1:2379"@]
        &&& opt_text(self.store_key_prefix) == Some("/greptime"@)
        &&& self.backend@ == "memory_store"@
        &&& opt_text(self.meta_table_name) == Some("greptime_metasrv"@)
        &&& self.meta_schema_name is None
        &&& self.meta_election_lock_id is None
        &&& self.selector is None
        &&& self.use_memory_store == Some(true)
        &&& self.enable_region_failover is None
        &&& self.grpc is None
        &&& self.http is None
        &&& self.backend_tls is None
    }
}

impl FrontendConfig {
    /// The default: the default client settings, and no server section.
    pub open spec fn is_default(self) -> bool {
        &&& opt_text(self.data_home) == Some("./greptimedb_data"@)
        &&& opt_text(self.default_timezone) == Some("UTC"@)
        &&& self.http is None
        &&& self.grpc is None
        &&& self.meta_client matches Some(client) && client.is_default()
        &&& self.heartbeat is None
        &&& self.prometheus is None
        &&& self.logging is None
    }
}

impl DatanodeStorageConfig {
    /// The default: file storage under `./greptimedb_data`.
    pub open spec fn is_default(self) -> bool {
        &&& opt_text(self.data_home) == Some("./greptimedb_data"@)
        &&& opt_text(self.storage_type) == Some("File"@)
        &&& self.cache_capacity is None
        &&& self.cache_path is None
        &&& self.bucket is None
        &&& self.root is None
        &&& self.access_key_id is None
        &&& self.secret_access_key is None
        &&& self.endpoint is None
        &&& self.region is None
    }
}

impl DatanodeConfig {
    /// The default: node 1 with local servers, the default client settings
    /// and file storage.
    pub open spec fn is_default(self) -> bool {
        &&& self.node_id == Some(1u64)
        &&& self.require_lease_before_startup == Some(false)
        &&& self.init_regions_in_background == Some(false)
        &&& self.init_regions_parallelism == Some(16u32)
        &&& self.max_concurrent_queries == Some(0u32)
        &&& self.enable_telemetry == Some(true)
        &&& self.http matches Some(http) && {
            &&& opt_text(http.addr) == Some("127.0.0.1:4000"@)
            &&& opt_text(http.timeout) == Some("30s"@)
            &&& http.body_limit is None
            &&& http.max_connections is None
        }
        &&& self.grpc matches Some(grpc) && {
            &&& opt_text(grpc.addr) == Some("127.0.0.1:4001"@)
            &&& grpc.server_addr is None
            &&& grpc.runtime_size == Some(8u32)
            &&& grpc.max_recv_message_size is None
            &&& grpc.max_send_message_size is None
        }
        &&& self.heartbeat matches Some(heartbeat) && {
            &&& opt_text(heartbeat.interval) == Some("18s"@)
            &&& opt_text(heartbeat.retry_interval) == Some("3s"@)
        }
        &&& self.meta_client matches Some(client) && client.is_default()
        &&& self.wal is None
        &&& self.storage matches Some(storage) && storage.is_default()
        &&& self.query is None
        &&& self.logging is None
    }
}

impl ConfigParser {
    /// Create a default metasrv config for testing
    pub fn default_metasrv_config() -> (c: MetasrvConfig)
        ensures
            c.is_default(),
    {
        MetasrvConfig {
            data_home: some_text("./greptimedb_data"),
            store_addrs: one_text("127.0.0.1:2379"),
            store_key_prefix: some_text("/greptime"),
            backend: text("memory_store"),
            meta_table_name: some_text("greptime_metasrv"),
            meta_schema_name: None,
            meta_election_lock_id: None,
            selector: None,
            use_memory_store: Some(true),
            enable_region_failover: None,
            grpc: None,
            http: None,
            backend_tls: None,
        }
    }

    /// Create a default frontend config for testing
    pub fn default_frontend_config() -> (c: FrontendConfig)
        ensures
            c.is_default(),
    {
        FrontendConfig {
            data_home: some_text("./greptimedb_data"),
            default_timezone: some_text("UTC"),
            http: None,
            grpc: None,
            meta_client: Some(MetaClientConfig::default_client()),
            heartbeat: None,
            prometheus: None,
            logging: None,
        }
    }

    /// Create a default datanode config for testing
    pub fn default_datanode_config() -> (c: DatanodeConfig)
        ensures
            c.is_default(),
    {
        DatanodeConfig {
            node_id: Some(1),
            require_lease_before_startup: Some(false),
            init_regions_in_background: Some(false),
            init_regions_parallelism: Some(16),
            max_concurrent_queries: Some(0),
            enable_telemetry: Some(true),
            http: Some(
                HttpConfig {
                    addr: some_text("127.0.0.1:4000"),
                    timeout: some_text("30s"),
                    body_limit: None,
                    max_connections: None,
                },
            ),
            grpc: Some(
                GrpcConfig {
                    addr: some_text("127.0.0.1:4001"),
                    server_addr: None,
                    runtime_size: Some(8),
                    max_recv_message_size: None,
                    max_send_message_size: None,
                },
            ),
            heartbeat: Some(
                HeartbeatConfig { interval: some_text("18s"), retry_interval: some_text("3s") },
            ),
            meta_client: Some(MetaClientConfig::default_client()),
            wal: None,
            storage: Some(
                DatanodeStorageConfig {
                    data_home: some_text("./greptimedb_data"),
                    storage_type: some_text("File"),
                    cache_capacity: None,
                    cache_path: None,
                    bucket: None,
                    root: None,
                    access_key_id: None,
                    secret_access_key: None,
                    endpoint: None,
                    region: None,
                },
            ),
            query: None,
            logging: None,
        }
    }

    /// The error for a configuration text that is no valid TOML, where
    /// `reason` is the parser's complaint.
    pub fn parse_failure(reason: &str) -> (e: Error)
        ensures
            e matches Error::ConfigLoad { message } && message@
                == "Failed to parse config as TOML: "@ + reason@,
    {
        let mut message = text("Failed to parse config as TOML: ");
        vstd::string::StringExecFns::append(&mut message, reason);
        Error::ConfigLoad { message }
    }
}

impl StorageConfig {
    /// No name occurs twice among the settings.
    pub open spec fn well_formed(&self) -> bool {
        distinct_names(self.config@)
    }

    /// The text of the setting named `key`, if it is there and is a text.
    pub open spec fn text_of(&self, key: Seq<char>) -> Option<Seq<char>> {
        setting_text(self.config@, key)
    }

    /// A storage configuration of the given type, without settings.
    pub fn new(storage_type: String) -> (r: Self)
        ensures
            r.storage_type == storage_type,
            r.config@.len() == 0,
            r.well_formed(),
    {
        StorageConfig { storage_type, config: Vec::new() }
    }

    /// Sets the setting named `key` to `value`: in place of the setting of
    /// that name if there is one, as a new last setting otherwise.
    pub fn insert(&mut self, key: String, value: ConfigValue)
        ensures
            old(self).well_formed() ==> final(self).well_formed(),
            final(self).storage_type == old(self).storage_type,
            final(self).config@ == ({
                let at = setting_index(old(self).config@, key@);
                if at < old(self).config@.len() {
                    old(self).config@.update(at, (key, value))
                } else {
                    old(self).config@.push((key, value))
                }
            }),
    {
        let at = find_setting(&self.config, key.as_str());
        proof {
            lemma_setting_index(self.config@, key@);
        }
        if at < self.config.len() {
            self.config.set(at, (key, value));
        } else {
            self.config.push((key, value));
        }
    }

    /// Reads the setting named `key` as a text.
    pub fn get_text(&self, key: &str) -> (r: Option<String>)
        ensures
            opt_text(r) == self.text_of(key@),
    {
        let at = find_setting(&self.config, key);
        if at < self.config.len() {
            match &self.config[at].1 {
                ConfigValue::String(s) => Some(s.clone()),
                _ => None,
            }
        } else {
            None
        }
    }

    /// Reads the setting named `key` as a text, or takes `fallback`.
    fn text_or_else(&self, key: &str, fallback: &str) -> (r: String)
        ensures
            r@ == text_or(self.text_of(key@), fallback@),
    {
        match self.get_text(key) {
            Some(s) => s,
            None => text(fallback),
        }
    }

    /// Convert to S3 configuration
    pub fn as_s3_config(&self) -> (r: Result<S3Config, Error>)
        ensures
            r matches Ok(c) && {
                &&& c.bucket@ == text_or(self.text_of("bucket"@), "default-bucket"@)
                &&& opt_text(c.root) == self.text_of("root"@)
                &&& c.access_key_id@ == text_or(self.text_of("access_key_id"@), ""@)
                &&& c.secret_access_key@ == text_or(self.text_of("secret_access_key"@), ""@)
                &&& opt_text(c.endpoint) == self.text_of("endpoint"@)
                &&& opt_text(c.region) == self.text_of("region"@)
            },
    {
        Ok(
            S3Config {
                bucket: self.text_or_else("bucket", "default-bucket"),
                root: self.get_text("root"),
                access_key_id: self.text_or_else("access_key_id", ""),
                secret_access_key: self.text_or_else("secret_access_key", ""),
                endpoint: self.get_text("endpoint"),
                region: self.get_text("region"),
            },
        )
    }

    /// Convert to OSS configuration
    pub fn as_oss_config(&self) -> (r: Result<OssConfig, Error>)
        ensures
            r matches Ok(c) && {
                &&& c.bucket@ == text_or(self.text_of("bucket"@), ""@)
                &&& opt_text(c.root) == self.text_of("root"@)
                &&& c.access_key_id@ == text_or(self.text_of("access_key_id"@), ""@)
                &&& c.access_key_secret@ == text_or(self.text_of("access_key_secret"@), ""@)
                &&& c.endpoint@ == text_or(self.text_of("endpoint"@), ""@)
            },
    {
        Ok(
            OssConfig {
                bucket: self.text_or_else("bucket", ""),
                root: self.get_text("root"),
                access_key_id: self.text_or_else("access_key_id", ""),
                access_key_secret: self.text_or_else("access_key_secret", ""),
                endpoint: self.text_or_else("endpoint", ""),
            },
        )
    }

    /// Convert to Azure Blob configuration
    pub fn as_azblob_config(&self) -> (r: Result<AzblobConfig, Error>)
        ensures
            r matches Ok(c) && {
                &&& c.container@ == text_or(self.text_of("container"@), ""@)
                &&& opt_text(c.root) == self.text_of("root"@)
                &&& c.account_name@ == text_or(self.text_of("account_name"@), ""@)
                &&& c.account_key@ == text_or(self.text_of("account_key"@), ""@)
                &&& opt_text(c.endpoint) == self.text_of("endpoint"@)
            },
    {
        Ok(
            AzblobConfig {
                container: self.text_or_else("container", ""),
                root: self.get_text("root"),
                account_name: self.text_or_else("account_name", ""),
                account_key: self.text_or_else("account_key", ""),
                endpoint: self.get_text("endpoint"),
            },
        )
    }

    /// Convert to GCS configuration
    pub fn as_gcs_config(&self) -> (r: Result<GcsConfig, Error>)
        ensures
            r matches Ok(c) && {
                &&& c.bucket@ == text_or(self.text_of("bucket"@), ""@)
                &&& opt_text(c.root) == self.text_of("root"@)
                &&& opt_text(c.service_account) == self.text_of("service_account"@)
                &&& opt_text(c.service_account_path) == self.text_of("service_account_path"@)
            },
    {
        Ok(
            GcsConfig {
                bucket: self.text_or_else("bucket", ""),
                root: self.get_text("root"),
                service_account: self.get_text("service_account"),
                service_account_path: self.get_text("service_account_path"),
            },
        )
    }
}

} // verus!
