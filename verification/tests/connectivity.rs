use std::time::Duration;
use stepstone::common::{CheckResult, CheckStatus};
use stepstone::config::{ConfigParser, FrontendConfig, GrpcConfig, HttpConfig, MetaClientConfig};
use stepstone::connectivity::{dialed_detail, Connectivity, CONNECT_TIMEOUT_SECS};
use stepstone::frontend::{FrontendChecker, FrontendRun};
use stepstone::probe::{Action, FailureKind, Outcome, Reply};

fn outcome(reply: Reply, millis: u64) -> Outcome {
    Outcome { reply, elapsed: Duration::from_millis(millis) }
}

fn refused(text: &str) -> Reply {
    Reply::Failed { kind: FailureKind::Unclassified, text: text.to_string() }
}

fn client(addrs: &[&str]) -> Option<MetaClientConfig> {
    Some(MetaClientConfig {
        metasrv_addrs: addrs.iter().map(|a| a.to_string()).collect(),
        timeout: Some("3s".to_string()),
        heartbeat_timeout: Some("500ms".to_string()),
        ddl_timeout: Some("10s".to_string()),
        connect_timeout: Some("1s".to_string()),
        tcp_nodelay: Some(true),
    })
}

fn frontend(addrs: &[&str]) -> FrontendConfig {
    FrontendConfig {
        data_home: Some("./test_data".to_string()),
        default_timezone: Some("UTC".to_string()),
        http: None,
        grpc: None,
        meta_client: client(addrs),
        heartbeat: None,
        prometheus: None,
        logging: None,
    }
}

fn drive(mut run: FrontendRun, mut answer: impl FnMut(&Action) -> Outcome) -> (CheckResult, Vec<Action>) {
    let mut asked = Vec::new();
    loop {
        let action = run.pending();
        if action == Action::Finish {
            break;
        }
        let outcome = answer(&action);
        asked.push(action);
        run = run.record(&outcome);
        assert!(asked.len() < 100);
    }
    assert!(run.is_finished());
    assert!(run.can_finish());
    (run.finish(), asked)
}

#[test]
fn test_frontend_invalid_address_format() {
    let frontend_config = frontend(&["invalid-address", "localhost:abc", "nonexistent-host:3002"]);

    let checker = FrontendChecker::new(frontend_config);
    let (result, asked) = drive(checker.begin(), |_| {
        outcome(refused("failed to lookup address information"), 3)
    });

    assert!(!result.success);

    let address_failures: Vec<_> =
        result.details.iter().filter(|detail| detail.status == CheckStatus::Fail).collect();

    assert!(!address_failures.is_empty());

    let has_address_error = address_failures.iter().any(|detail| {
        let msg = detail.message.to_lowercase();
        msg.contains("address")
            || msg.contains("port")
            || msg.contains("parsing")
            || msg.contains("format")
            || msg.contains("invalid")
    });
    assert!(has_address_error);
    assert!(address_failures.iter().any(|detail| detail.suggestion.is_some()));
    assert!(address_failures
        .iter()
        .filter_map(|detail| detail.suggestion.as_ref())
        .any(|suggestion| suggestion.to_lowercase().contains("host:port")));

    // Only the address that resolves is dialled.
    assert_eq!(
        asked,
        vec![Action::Connect {
            host: "nonexistent-host".to_string(),
            port: 3002,
            timeout_secs: 10
        }]
    );
    assert_eq!(result.details.len(), 4);
    assert_eq!(result.details[0].item, "Metasrv Address 1 Parsing");
    assert_eq!(
        result.details[0].message,
        "Failed to parse address 'invalid-address': Address must contain port number: invalid-address"
    );
    assert_eq!(result.details[0].duration, None);
    assert_eq!(
        result.details[0].suggestion,
        Some("Check address format (should be host:port)".to_string())
    );
    assert_eq!(result.details[1].item, "Metasrv Address 2 Parsing");
    assert_eq!(
        result.details[1].message,
        "Failed to parse address 'localhost:abc': Invalid port number in address localhost:abc: abc"
    );
    assert_eq!(result.details[2].item, "Metasrv Connectivity 3");
    assert_eq!(result.details[2].status, CheckStatus::Fail);
    assert_eq!(
        result.details[2].message,
        "Failed to connect to metasrv at nonexistent-host:3002: failed to lookup address information"
    );
    assert_eq!(result.details[2].duration, Some(Duration::from_millis(3)));
    assert_eq!(result.details[3].item, "Server Configuration");
    assert_eq!(result.details[3].status, CheckStatus::Warning);
    assert_eq!(result.message, "Some checks failed (0 passed, 1 warnings, 3 failed)");
    assert_eq!(result.total_duration, Some(Duration::from_millis(3)));
}

#[test]
fn every_endpoint_gets_exactly_one_detail() {
    let addrs = ["a:1", "bad", "http://b:2/x", "c:d", "https://e:3", "f"];
    let mut probe = Connectivity::begin(&client(&addrs));
    let mut dialled = Vec::new();
    while !probe.is_finished() {
        match probe.pending() {
            Action::Connect { host, port, timeout_secs } => {
                assert_eq!(timeout_secs, CONNECT_TIMEOUT_SECS);
                dialled.push((host, port));
            }
            other => panic!("unexpected action {:?}", other),
        }
        let before = probe.details.len();
        probe = probe.record(&outcome(Reply::Done, 1));
        assert!(probe.details.len() > before);
    }
    assert_eq!(probe.pending(), Action::Finish);
    assert_eq!(
        dialled,
        vec![("a".to_string(), 1), ("b".to_string(), 2), ("e".to_string(), 3)]
    );
    assert_eq!(probe.details.len(), addrs.len());
    let items: Vec<&str> = probe.details.iter().map(|d| d.item.as_str()).collect();
    assert_eq!(
        items,
        vec![
            "Metasrv Connectivity 1",
            "Metasrv Address 2 Parsing",
            "Metasrv Connectivity 3",
            "Metasrv Address 4 Parsing",
            "Metasrv Connectivity 5",
            "Metasrv Address 6 Parsing",
        ]
    );
    // A finished probe stays as it is.
    let probe = probe.record(&outcome(Reply::TimedOut, 1));
    assert_eq!(probe.details.len(), addrs.len());
}

#[test]
fn a_refusal_is_told_from_a_timeout() {
    let connected = dialed_detail(0, "h:1", &outcome(Reply::Done, 12));
    assert_eq!(connected.status, CheckStatus::Pass);
    assert_eq!(connected.item, "Metasrv Connectivity 1");
    assert_eq!(connected.message, "Successfully connected to metasrv at h:1");
    assert_eq!(connected.duration, Some(Duration::from_millis(12)));
    assert_eq!(connected.suggestion, None);

    let failed = dialed_detail(9, "h:1", &outcome(refused("Connection refused (os error 111)"), 1));
    assert_eq!(failed.status, CheckStatus::Fail);
    assert_eq!(failed.item, "Metasrv Connectivity 10");
    assert_eq!(
        failed.message,
        "Failed to connect to metasrv at h:1: Connection refused (os error 111)"
    );
    assert_eq!(failed.suggestion, Some("Check if metasrv is running and accessible".to_string()));

    let timed_out = dialed_detail(1, "h:1", &outcome(Reply::TimedOut, 10_000));
    assert_eq!(timed_out.status, CheckStatus::Fail);
    assert_eq!(timed_out.message, "Connection to metasrv at h:1 timed out");
    assert_eq!(timed_out.duration, Some(Duration::from_secs(10)));
    assert_eq!(
        timed_out.suggestion,
        Some("Check network connectivity and metasrv availability".to_string())
    );
}

#[test]
fn no_endpoints_fail_without_a_connection() {
    let mut config = frontend(&[]);
    let (result, asked) = drive(FrontendChecker::new(frontend(&[])).begin(), |_| {
        panic!("nothing is to be asked")
    });
    assert!(asked.is_empty());
    assert!(!result.success);
    assert_eq!(result.details[0].item, "Metasrv Configuration");
    assert_eq!(result.details[0].status, CheckStatus::Fail);
    assert_eq!(result.details[0].message, "No metasrv addresses configured");
    assert_eq!(
        result.details[0].suggestion,
        Some("Configure metasrv_addrs in the meta_client section".to_string())
    );

    config.meta_client = None;
    let (result, asked) =
        drive(FrontendChecker::new(config).begin(), |_| panic!("nothing is to be asked"));
    assert!(asked.is_empty());
    assert!(!result.success);
    assert_eq!(result.details.len(), 2);
    assert_eq!(result.details[0].message, "No meta_client configuration found");
    assert_eq!(
        result.details[0].suggestion,
        Some("Configure meta_client section in the configuration file".to_string())
    );
}

#[test]
fn server_addresses_are_judged_after_the_endpoints() {
    let mut config = frontend(&["127.0.0.1:3002"]);
    config.http = Some(HttpConfig {
        addr: Some("0.0.0.0:4000".to_string()),
        timeout: None,
        body_limit: None,
        max_connections: None,
    });
    config.grpc = Some(GrpcConfig {
        addr: Some("0.0.0.0".to_string()),
        server_addr: None,
        runtime_size: None,
        max_recv_message_size: None,
        max_send_message_size: None,
    });
    let checker = FrontendChecker::new(config);
    let server = checker.check_server_config();
    assert_eq!(server.len(), 2);

    let (result, asked) = drive(checker.begin(), |_| outcome(Reply::Done, 5));
    assert_eq!(asked.len(), 1);
    assert!(!result.success);
    let items: Vec<&str> = result.details.iter().map(|d| d.item.as_str()).collect();
    assert_eq!(
        items,
        vec![
            "Metasrv Connectivity 1",
            "HTTP Server Address Configuration",
            "gRPC Server Address Configuration"
        ]
    );
    assert_eq!(result.details[1].status, CheckStatus::Pass);
    assert_eq!(result.details[1].message, "HTTP server address '0.0.0.0:4000' is valid");
    assert_eq!(result.details[2].status, CheckStatus::Fail);
    assert_eq!(
        result.details[2].message,
        "Invalid gRPC server address '0.0.0.0': Address must contain port number: 0.0.0.0"
    );
    assert_eq!(
        result.details[2].suggestion,
        Some("Check gRPC server address format (host:port)".to_string())
    );
    assert_eq!(result.message, "Some checks failed (2 passed, 0 warnings, 1 failed)");
}

#[test]
fn a_server_section_without_address_counts_as_none() {
    let mut config = ConfigParser::default_frontend_config();
    config.http =
        Some(HttpConfig { addr: None, timeout: None, body_limit: None, max_connections: None });
    let server = FrontendChecker::new(config).check_server_config();
    assert_eq!(server.len(), 1);
    assert_eq!(server[0].status, CheckStatus::Warning);
    assert_eq!(server[0].message, "No HTTP or gRPC server configuration found");
    assert_eq!(
        server[0].suggestion,
        Some("Consider configuring http and grpc sections for server endpoints".to_string())
    );
}

#[test]
fn the_default_frontend_passes_with_a_warning_when_metasrv_answers() {
    let checker = FrontendChecker::new(ConfigParser::default_frontend_config());
    let (result, asked) = drive(checker.begin(), |_| outcome(Reply::Done, 7));
    assert_eq!(
        asked,
        vec![Action::Connect { host: "127.0.0.1".to_string(), port: 3002, timeout_secs: 10 }]
    );
    assert!(result.success);
    assert_eq!(result.message, "Checks completed with warnings (1 passed, 1 warnings)");
    assert_eq!(result.total_duration, Some(Duration::from_millis(7)));
}
