use stepstone::config::{ConfigParser, ConfigValue, StorageConfig};
use stepstone::error::Error;

#[test]
fn test_default_configs() {
    let metasrv_config = ConfigParser::default_metasrv_config();
    assert_eq!(metasrv_config.backend, "memory_store");

    let frontend_config = ConfigParser::default_frontend_config();
    assert!(frontend_config.meta_client.is_some());
    assert_eq!(frontend_config.meta_client.unwrap().metasrv_addrs, vec!["127.0.0.1:3002"]);

    let datanode_config = ConfigParser::default_datanode_config();
    assert!(datanode_config.meta_client.is_some());
    assert_eq!(datanode_config.meta_client.unwrap().metasrv_addrs, vec!["127.0.0.1:3002"]);
    assert!(datanode_config.storage.is_some());
    assert_eq!(datanode_config.storage.unwrap().storage_type, Some("File".to_string()));
}

#[test]
fn test_s3_config_parsing() {
    let mut storage = StorageConfig::new("S3".to_string());
    storage.insert("bucket".to_string(), ConfigValue::String("test-bucket".to_string()));
    storage.insert("access_key_id".to_string(), ConfigValue::String("test-key".to_string()));
    storage.insert("secret_access_key".to_string(), ConfigValue::String("test-secret".to_string()));
    storage.insert("region".to_string(), ConfigValue::String("us-east-1".to_string()));

    let s3_config = storage.as_s3_config().unwrap();
    assert_eq!(s3_config.bucket, "test-bucket");
    assert_eq!(s3_config.access_key_id, "test-key");
    assert_eq!(s3_config.secret_access_key, "test-secret");
    assert_eq!(s3_config.region, Some("us-east-1".to_string()));
}

#[test]
fn the_default_metasrv_config_in_full() {
    let c = ConfigParser::default_metasrv_config();
    assert_eq!(c.data_home, Some("./greptimedb_data".to_string()));
    assert_eq!(c.store_addrs, vec!["127.0.0.1:2379"]);
    assert_eq!(c.store_key_prefix, Some("/greptime".to_string()));
    assert_eq!(c.meta_table_name, Some("greptime_metasrv".to_string()));
    assert_eq!(c.meta_schema_name, None);
    assert_eq!(c.meta_election_lock_id, None);
    assert_eq!(c.selector, None);
    assert_eq!(c.use_memory_store, Some(true));
    assert_eq!(c.enable_region_failover, None);
    assert!(c.grpc.is_none() && c.http.is_none() && c.backend_tls.is_none());
}

#[test]
fn the_default_frontend_config_in_full() {
    let c = ConfigParser::default_frontend_config();
    assert_eq!(c.data_home, Some("./greptimedb_data".to_string()));
    assert_eq!(c.default_timezone, Some("UTC".to_string()));
    assert!(c.http.is_none() && c.grpc.is_none() && c.heartbeat.is_none());
    assert!(c.prometheus.is_none() && c.logging.is_none());
    let client = c.meta_client.unwrap();
    assert_eq!(client.timeout, Some("3s".to_string()));
    assert_eq!(client.heartbeat_timeout, Some("500ms".to_string()));
    assert_eq!(client.ddl_timeout, Some("10s".to_string()));
    assert_eq!(client.connect_timeout, Some("1s".to_string()));
    assert_eq!(client.tcp_nodelay, Some(true));
}

#[test]
fn the_default_datanode_config_in_full() {
    let c = ConfigParser::default_datanode_config();
    assert_eq!(c.node_id, Some(1));
    assert_eq!(c.require_lease_before_startup, Some(false));
    assert_eq!(c.init_regions_in_background, Some(false));
    assert_eq!(c.init_regions_parallelism, Some(16));
    assert_eq!(c.max_concurrent_queries, Some(0));
    assert_eq!(c.enable_telemetry, Some(true));
    let http = c.http.unwrap();
    assert_eq!(http.addr, Some("127.0.0.1:4000".to_string()));
    assert_eq!(http.timeout, Some("30s".to_string()));
    assert_eq!(http.body_limit, None);
    assert_eq!(http.max_connections, None);
    let grpc = c.grpc.unwrap();
    assert_eq!(grpc.addr, Some("127.0.0.1:4001".to_string()));
    assert_eq!(grpc.server_addr, None);
    assert_eq!(grpc.runtime_size, Some(8));
    let heartbeat = c.heartbeat.unwrap();
    assert_eq!(heartbeat.interval, Some("18s".to_string()));
    assert_eq!(heartbeat.retry_interval, Some("3s".to_string()));
    assert!(c.wal.is_none() && c.query.is_none() && c.logging.is_none());
    let storage = c.storage.unwrap();
    assert_eq!(storage.data_home, Some("./greptimedb_data".to_string()));
    assert_eq!(storage.bucket, None);
    assert_eq!(storage.endpoint, None);
}

#[test]
fn missing_settings_fall_back() {
    let storage = StorageConfig::new("S3".to_string());
    let s3 = storage.as_s3_config().unwrap();
    assert_eq!(s3.bucket, "default-bucket");
    assert_eq!(s3.access_key_id, "");
    assert_eq!(s3.secret_access_key, "");
    assert_eq!(s3.root, None);
    assert_eq!(s3.endpoint, None);
    assert_eq!(s3.region, None);

    let oss = storage.as_oss_config().unwrap();
    assert_eq!(oss.bucket, "");
    assert_eq!(oss.endpoint, "");
    assert_eq!(oss.root, None);

    let azblob = storage.as_azblob_config().unwrap();
    assert_eq!(azblob.container, "");
    assert_eq!(azblob.endpoint, None);

    let gcs = storage.as_gcs_config().unwrap();
    assert_eq!(gcs.bucket, "");
    assert_eq!(gcs.service_account, None);
    assert_eq!(gcs.service_account_path, None);
}

#[test]
fn a_setting_that_is_no_text_counts_as_missing() {
    let mut storage = StorageConfig::new("S3".to_string());
    storage.insert("bucket".to_string(), ConfigValue::Integer(7));
    storage.insert("root".to_string(), ConfigValue::Boolean(true));
    storage.insert("region".to_string(), ConfigValue::Other);
    let s3 = storage.as_s3_config().unwrap();
    assert_eq!(s3.bucket, "default-bucket");
    assert_eq!(s3.root, None);
    assert_eq!(s3.region, None);
    assert_eq!(storage.get_text("bucket"), None);
}

#[test]
fn a_name_is_set_once() {
    let mut storage = StorageConfig::new("Oss".to_string());
    storage.insert("bucket".to_string(), ConfigValue::String("first".to_string()));
    storage.insert("endpoint".to_string(), ConfigValue::String("e".to_string()));
    storage.insert("bucket".to_string(), ConfigValue::String("second".to_string()));
    assert_eq!(storage.config.len(), 2);
    assert_eq!(storage.get_text("bucket"), Some("second".to_string()));
    assert_eq!(storage.config[0].0, "bucket");
    assert_eq!(storage.config[1].0, "endpoint");

    let oss = storage.as_oss_config().unwrap();
    assert_eq!(oss.bucket, "second");
    assert_eq!(oss.endpoint, "e");
    assert_eq!(oss.access_key_secret, "");
}

#[test]
fn the_other_storage_families_read_their_settings() {
    let mut storage = StorageConfig::new("Azblob".to_string());
    for (key, value) in [
        ("container", "c"),
        ("root", "/r"),
        ("account_name", "n"),
        ("account_key", "k"),
        ("endpoint", "https://e"),
        ("bucket", "b"),
        ("service_account", "{}"),
        ("service_account_path", "/p"),
    ] {
        storage.insert(key.to_string(), ConfigValue::String(value.to_string()));
    }
    let azblob = storage.as_azblob_config().unwrap();
    assert_eq!(azblob.container, "c");
    assert_eq!(azblob.root, Some("/r".to_string()));
    assert_eq!(azblob.account_name, "n");
    assert_eq!(azblob.account_key, "k");
    assert_eq!(azblob.endpoint, Some("https://e".to_string()));

    let gcs = storage.as_gcs_config().unwrap();
    assert_eq!(gcs.bucket, "b");
    assert_eq!(gcs.root, Some("/r".to_string()));
    assert_eq!(gcs.service_account, Some("{}".to_string()));
    assert_eq!(gcs.service_account_path, Some("/p".to_string()));
}

#[test]
fn a_text_that_is_no_toml_gives_a_load_error() {
    let error = ConfigParser::parse_failure("expected `=`");
    assert_eq!(
        error,
        Error::ConfigLoad { message: "Failed to parse config as TOML: expected `=`".to_string() }
    );
    assert_eq!(
        error.to_string(),
        "Failed to load configuration: Failed to parse config as TOML: expected `=`"
    );
}
