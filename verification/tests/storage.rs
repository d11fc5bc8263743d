use std::time::Duration;
use stepstone::common::{CheckDetail, CheckResult, CheckStatus};
use stepstone::config::{DatanodeConfig, DatanodeStorageConfig, MetaClientConfig};
use stepstone::datanode::{DatanodeChecker, DatanodeRun};
use stepstone::probe::{Action, FailureKind, Outcome, Payload, Reply, Store};
use stepstone::s3_probe::{S3Phase, S3Probe};
use stepstone::s3_report::{
    absent_read_detail, batch_detail, classify_absent_read, classify_listing, list_detail, millis,
    perf_read_detail, perf_write_detail, probe_data, read_back_detail, throughput, write_detail,
};
use stepstone::storage::{directory_detail, file_write_detail};

fn outcome(reply: Reply, millis: u64) -> Outcome {
    Outcome { reply, elapsed: Duration::from_millis(millis) }
}

fn failed(text: &str) -> Reply {
    Reply::Failed { kind: FailureKind::Unclassified, text: text.to_string() }
}

fn failed_as(kind: FailureKind, text: &str) -> Reply {
    Reply::Failed { kind, text: text.to_string() }
}

fn storage(storage_type: Option<&str>, data_home: Option<&str>) -> DatanodeStorageConfig {
    DatanodeStorageConfig {
        data_home: data_home.map(|s| s.to_string()),
        storage_type: storage_type.map(|s| s.to_string()),
        cache_capacity: None,
        cache_path: None,
        bucket: None,
        root: None,
        access_key_id: None,
        secret_access_key: None,
        endpoint: None,
        region: None,
    }
}

fn datanode(storage: Option<DatanodeStorageConfig>) -> DatanodeConfig {
    DatanodeConfig {
        node_id: Some(1),
        require_lease_before_startup: Some(false),
        init_regions_in_background: Some(false),
        init_regions_parallelism: Some(16),
        max_concurrent_queries: Some(0),
        enable_telemetry: Some(true),
        http: None,
        grpc: None,
        heartbeat: None,
        meta_client: Some(MetaClientConfig {
            metasrv_addrs: vec!["127.0.0.1:3002".to_string()],
            timeout: Some("3s".to_string()),
            heartbeat_timeout: Some("500ms".to_string()),
            ddl_timeout: Some("10s".to_string()),
            connect_timeout: Some("1s".to_string()),
            tcp_nodelay: Some(true),
        }),
        wal: None,
        storage,
        query: None,
        logging: None,
    }
}

fn s3_storage() -> DatanodeStorageConfig {
    let mut s = storage(Some("S3"), Some("./test_data"));
    s.bucket = Some("test-bucket".to_string());
    s.access_key_id = Some("invalid-key".to_string());
    s.secret_access_key = Some("invalid-secret".to_string());
    s.endpoint = Some("https://s3.amazonaws.com".to_string());
    s.region = Some("us-east-1".to_string());
    s
}

fn drive(mut run: DatanodeRun, mut answer: impl FnMut(&Action) -> Outcome) -> (CheckResult, Vec<Action>) {
    let mut asked = Vec::new();
    loop {
        let action = run.pending();
        if action == Action::Finish {
            break;
        }
        let outcome = answer(&action);
        asked.push(action);
        run = run.record(&outcome);
        assert!(asked.len() < 100);
    }
    assert!(run.is_finished());
    assert!(run.can_finish());
    (run.finish(), asked)
}

/// An object store that keeps what is written, for as long as the test runs.
fn honest_store(objects: &mut Vec<(String, Vec<u8>)>, action: &Action) -> Reply {
    match action {
        Action::Connect { .. } | Action::OpenObjectStore { .. } | Action::List { .. } => Reply::Done,
        Action::Write { key, payload, .. } => {
            let bytes = match payload {
                Payload::Bytes(b) => b.clone(),
                Payload::Zeros(n) => vec![0u8; *n],
            };
            objects.retain(|(k, _)| k != key);
            objects.push((key.clone(), bytes));
            Reply::Done
        }
        Action::Read { key, .. } => match objects.iter().find(|(k, _)| k == key) {
            Some((_, bytes)) => Reply::Data(bytes.clone()),
            None => failed_as(FailureKind::NotFound, "NotFound (permanent) at read"),
        },
        Action::Delete { key, .. } => {
            objects.retain(|(k, _)| k != key);
            Reply::Done
        }
        Action::WriteBatch { keys, payload, .. } => {
            for key in keys {
                let bytes = match payload {
                    Payload::Bytes(b) => b.clone(),
                    Payload::Zeros(n) => vec![0u8; *n],
                };
                objects.push((key.clone(), bytes));
            }
            Reply::Batch(vec![true; keys.len()])
        }
        Action::DeleteBatch { keys, .. } => {
            objects.retain(|(k, _)| !keys.contains(k));
            Reply::Done
        }
        other => panic!("unexpected action {:?}", other),
    }
}

#[test]
fn test_s3_invalid_credentials() {
    let checker = DatanodeChecker::new(datanode(Some(s3_storage())), false);
    let (result, asked) = drive(checker.begin(), |action| match action {
        Action::Connect { .. } | Action::OpenObjectStore { .. } => outcome(Reply::Done, 1),
        _ => outcome(
            failed("InvalidAccessKeyId: The AWS Access Key Id you provided does not exist"),
            20,
        ),
    });

    assert!(!result.success);

    let s3_failures: Vec<_> =
        result.details.iter().filter(|detail| detail.status == CheckStatus::Fail).collect();

    assert!(!s3_failures.is_empty());
    assert!(s3_failures.iter().any(|detail| detail.message.to_lowercase().contains("s3")
        || detail.message.to_lowercase().contains("storage")
        || detail.message.to_lowercase().contains("credential")
        || detail.message.to_lowercase().contains("access key")));
    assert!(s3_failures.iter().any(|detail| detail.suggestion.is_some()));

    let items: Vec<&str> = result.details.iter().map(|d| d.item.as_str()).collect();
    assert_eq!(
        items,
        vec![
            "Metasrv Connectivity 1",
            "S3 Client Creation",
            "S3 Access Key Validation",
            "S3 Read Permission (Error Handling)",
            "S3 PUT Operation",
        ]
    );
    // A probe object that cannot be written is neither read nor deleted.
    assert_eq!(asked.len(), 5);
    assert!(matches!(asked[4], Action::Write { .. }));
    assert_eq!(
        asked[1],
        Action::OpenObjectStore {
            bucket: "test-bucket".to_string(),
            root: String::new(),
            access_key_id: "invalid-key".to_string(),
            secret_access_key: "invalid-secret".to_string(),
            endpoint: "https://s3.amazonaws.com".to_string(),
            region: "us-east-1".to_string(),
        }
    );
}

#[test]
fn a_healthy_object_store_passes_every_step() {
    let mut objects = Vec::new();
    let run = DatanodeChecker::new(datanode(Some(s3_storage())), false).begin_as("run-1".to_string());
    let (result, asked) = drive(run, |action| outcome(honest_store(&mut objects, action), 2));
    assert!(result.success);
    assert!(objects.is_empty());
    assert_eq!(result.message, "All checks passed (7 passed)");
    let items: Vec<&str> = result.details.iter().map(|d| d.item.as_str()).collect();
    assert_eq!(
        items,
        vec![
            "Metasrv Connectivity 1",
            "S3 Client Creation",
            "S3 Bucket List Permission",
            "S3 Read Permission (Error Handling)",
            "S3 PUT Operation",
            "S3 GET Operation",
            "S3 DELETE Operation",
        ]
    );
    assert_eq!(
        asked[2..],
        [
            Action::List { path: String::new(), timeout_secs: 30 },
            Action::Read {
                store: Store::Object,
                key: "stepstone-nonexistent-run-1".to_string(),
                timeout_secs: 10
            },
            Action::Write {
                store: Store::Object,
                key: "stepstone-test/run-1".to_string(),
                payload: Payload::Bytes(b"stepstone-test-data".to_vec()),
                timeout_secs: 30
            },
            Action::Read {
                store: Store::Object,
                key: "stepstone-test/run-1".to_string(),
                timeout_secs: 30
            },
            Action::Delete {
                store: Store::Object,
                key: "stepstone-test/run-1".to_string(),
                timeout_secs: 30
            },
        ]
    );
    // Durations: the connection, the client and the listing record theirs.
    assert_eq!(result.total_duration, Some(Duration::from_millis(6)));
}

#[test]
fn wrong_bytes_fail_the_read_and_not_the_write() {
    let run = DatanodeChecker::new(datanode(Some(s3_storage())), false).begin_as("r".to_string());
    let (result, asked) = drive(run, |action| {
        outcome(
            match action {
                Action::Read { key, .. } if key == "stepstone-test/r" => {
                    Reply::Data(b"stepstone-test-dat4".to_vec())
                }
                Action::Read { .. } => Reply::Absent,
                _ => Reply::Done,
            },
            1,
        )
    });
    assert!(!result.success);
    let put = result.details.iter().find(|d| d.item == "S3 PUT Operation").unwrap();
    assert_eq!(put.status, CheckStatus::Pass);
    assert_eq!(put.message, "PUT operation successful");
    let get = result.details.iter().find(|d| d.item == "S3 GET Operation").unwrap();
    assert_eq!(get.status, CheckStatus::Fail);
    assert_eq!(get.message, "GET operation returned incorrect data");
    assert_eq!(get.suggestion, Some("Check S3 data consistency".to_string()));
    let failures = result.details.iter().filter(|d| d.status == CheckStatus::Fail).count();
    assert_eq!(failures, 1);
    // The probe object is deleted all the same.
    assert!(matches!(asked.last(), Some(Action::Delete { .. })));
    assert_eq!(result.details.last().unwrap().item, "S3 DELETE Operation");
}

#[test]
fn the_read_back_tells_wrong_data_from_a_failed_read() {
    assert_eq!(probe_data(), b"stepstone-test-data".to_vec());
    let good = read_back_detail(&Reply::Data(probe_data()));
    assert_eq!(good.status, CheckStatus::Pass);
    assert_eq!(good.message, "GET operation successful and data matches");

    for wrong in [Vec::new(), b"stepstone-test-dat".to_vec(), b"stepstone-test-data!".to_vec()] {
        let d = read_back_detail(&Reply::Data(wrong));
        assert_eq!(d.status, CheckStatus::Fail);
        assert_eq!(d.message, "GET operation returned incorrect data");
    }
    let absent = read_back_detail(&Reply::Absent);
    assert_eq!(absent.message, "GET operation returned incorrect data");

    let error = read_back_detail(&failed("connection reset"));
    assert_eq!(error.status, CheckStatus::Fail);
    assert_eq!(error.message, "GET operation failed: connection reset");
    assert_eq!(error.suggestion, Some("Check S3 read permissions".to_string()));

    let timed_out = read_back_detail(&Reply::TimedOut);
    assert_eq!(timed_out.message, "GET operation failed: operation timed out");

    let put = write_detail(&failed("boom"));
    assert_eq!(put.status, CheckStatus::Fail);
    assert_eq!(put.message, "PUT operation failed: boom");
}

#[test]
fn a_client_that_cannot_be_built_ends_the_verification() {
    let run = DatanodeChecker::new(datanode(Some(s3_storage())), true).begin_as("r".to_string());
    let (result, asked) = drive(run, |action| match action {
        Action::OpenObjectStore { .. } => outcome(failed("ConfigInvalid: region is missing"), 4),
        _ => outcome(Reply::Done, 1),
    });
    assert_eq!(asked.len(), 2);
    assert!(!result.success);
    let last = result.details.last().unwrap();
    assert_eq!(last.item, "S3 Client Creation");
    assert_eq!(last.status, CheckStatus::Fail);
    assert_eq!(last.message, "Failed to create S3 client: ConfigInvalid: region is missing");
    assert_eq!(last.duration, Some(Duration::from_millis(4)));
    assert_eq!(last.suggestion, Some("Check S3 configuration and credentials".to_string()));
}

#[test]
fn a_storage_section_without_bucket_fails_at_once() {
    let run = DatanodeChecker::new(datanode(Some(storage(Some("S3"), None))), false).begin();
    let (result, asked) = drive(run, |_| outcome(Reply::Done, 1));
    assert_eq!(asked.len(), 1);
    let last = result.details.last().unwrap();
    assert_eq!(last.item, "S3 Configuration");
    assert_eq!(last.status, CheckStatus::Fail);
    assert_eq!(last.message, "S3 bucket name is required");
    assert_eq!(last.suggestion, Some("Set bucket name in storage configuration".to_string()));
}

#[test]
fn missing_settings_of_the_object_store_fall_back() {
    let mut s = storage(Some("S3"), None);
    s.bucket = Some("b".to_string());
    s.root = Some("/data".to_string());
    let probe = S3Probe::begin(&s, false, "id".to_string());
    assert_eq!(probe.phase, S3Phase::Opening);
    assert_eq!(
        probe.pending(),
        Action::OpenObjectStore {
            bucket: "b".to_string(),
            root: "/data".to_string(),
            access_key_id: String::new(),
            secret_access_key: String::new(),
            endpoint: "https://s3.amazonaws.com".to_string(),
            region: "us-east-1".to_string(),
        }
    );
}

#[test]
fn listing_failures_are_diagnosed_by_category() {
    let cases = [
        (FailureKind::AccessDenied, "x", FailureKind::AccessDenied),
        (FailureKind::NoSuchBucket, "x", FailureKind::NoSuchBucket),
        (FailureKind::NotFound, "x", FailureKind::NoSuchBucket),
        (FailureKind::InvalidAccessKey, "AccessDenied", FailureKind::InvalidAccessKey),
        (FailureKind::SignatureMismatch, "x", FailureKind::SignatureMismatch),
        (FailureKind::Unclassified, "x", FailureKind::Unclassified),
        (FailureKind::Unclassified, "403 Forbidden", FailureKind::AccessDenied),
        (FailureKind::Unclassified, "code: AccessDenied", FailureKind::AccessDenied),
        (FailureKind::Unclassified, "NoSuchBucket: gone", FailureKind::NoSuchBucket),
        (FailureKind::Unclassified, "InvalidAccessKeyId", FailureKind::InvalidAccessKey),
        (FailureKind::Unclassified, "SignatureDoesNotMatch", FailureKind::SignatureMismatch),
        (FailureKind::Unclassified, "NoSuchBucket and AccessDenied", FailureKind::AccessDenied),
        (FailureKind::Unclassified, "accessdenied", FailureKind::Unclassified),
        (FailureKind::Unclassified, "", FailureKind::Unclassified),
    ];
    for (kind, text, expected) in cases {
        assert_eq!(classify_listing(kind, text), expected, "{:?} {:?}", kind, text);
    }
}

#[test]
fn the_listing_reports_each_diagnosis() {
    let d = list_detail(&outcome(Reply::Done, 8));
    assert_eq!(d.status, CheckStatus::Pass);
    assert_eq!(d.item, "S3 Bucket List Permission");
    assert_eq!(d.message, "Successfully listed bucket contents (ListBucket permission verified)");
    assert_eq!(d.duration, Some(Duration::from_millis(8)));

    let d = list_detail(&outcome(failed_as(FailureKind::AccessDenied, "denied"), 8));
    assert_eq!((d.status, d.item.as_str()), (CheckStatus::Fail, "S3 Bucket List Permission"));
    assert_eq!(d.message, "Access denied for bucket listing: denied");
    assert_eq!(
        d.suggestion,
        Some("Check if the AKSK has ListBucket permission for this bucket".to_string())
    );

    let d = list_detail(&outcome(failed("NoSuchBucket"), 8));
    assert_eq!((d.status, d.item.as_str()), (CheckStatus::Fail, "S3 Bucket Existence"));
    assert_eq!(d.message, "Bucket does not exist: NoSuchBucket");
    assert_eq!(
        d.suggestion,
        Some("Create the bucket or check the bucket name in configuration".to_string())
    );

    let d = list_detail(&outcome(failed("InvalidAccessKeyId"), 8));
    assert_eq!((d.status, d.item.as_str()), (CheckStatus::Fail, "S3 Access Key Validation"));
    assert_eq!(d.message, "Invalid access key: InvalidAccessKeyId");
    assert_eq!(d.suggestion, Some("Check the access_key_id in configuration".to_string()));

    let d = list_detail(&outcome(failed("SignatureDoesNotMatch"), 8));
    assert_eq!((d.status, d.item.as_str()), (CheckStatus::Fail, "S3 Secret Key Validation"));
    assert_eq!(d.message, "Invalid secret key: SignatureDoesNotMatch");
    assert_eq!(d.suggestion, Some("Check the secret_access_key in configuration".to_string()));

    let d = list_detail(&outcome(failed("dns error"), 8));
    assert_eq!((d.status, d.item.as_str()), (CheckStatus::Warning, "S3 Bucket List Permission"));
    assert_eq!(d.message, "Bucket listing failed: dns error");
    assert_eq!(
        d.suggestion,
        Some("This may indicate network issues or other S3 service problems".to_string())
    );

    let d = list_detail(&outcome(Reply::TimedOut, 30_000));
    assert_eq!(d.status, CheckStatus::Warning);
    assert_eq!(d.message, "Bucket listing timed out (>30s)");
    assert_eq!(d.suggestion, Some("Check network connectivity to S3 endpoint".to_string()));
}

#[test]
fn the_read_of_an_absent_object_expects_not_found() {
    assert_eq!(classify_absent_read(FailureKind::NotFound, "x"), FailureKind::NotFound);
    assert_eq!(classify_absent_read(FailureKind::AccessDenied, "NotFound"), FailureKind::AccessDenied);
    assert_eq!(classify_absent_read(FailureKind::NoSuchBucket, "NotFound"), FailureKind::Unclassified);
    assert_eq!(classify_absent_read(FailureKind::Unclassified, "NoSuchKey"), FailureKind::NotFound);
    assert_eq!(
        classify_absent_read(FailureKind::Unclassified, "NotFound and AccessDenied"),
        FailureKind::NotFound
    );
    assert_eq!(classify_absent_read(FailureKind::Unclassified, "Forbidden"), FailureKind::AccessDenied);
    assert_eq!(classify_absent_read(FailureKind::Unclassified, "weird"), FailureKind::Unclassified);

    for reply in [failed("NoSuchKey"), failed_as(FailureKind::NotFound, "404"), Reply::Absent] {
        let d = absent_read_detail(&reply);
        assert_eq!(d.status, CheckStatus::Pass);
        assert_eq!(d.item, "S3 Read Permission (Error Handling)");
        assert_eq!(d.message, "Correctly returned 'not found' for non-existent object");
    }
    let d = absent_read_detail(&failed("AccessDenied"));
    assert_eq!((d.status, d.item.as_str()), (CheckStatus::Fail, "S3 Read Permission"));
    assert_eq!(d.message, "Access denied for reading objects: AccessDenied");
    assert_eq!(
        d.suggestion,
        Some("Check if the AKSK has GetObject permission for this bucket".to_string())
    );
    let d = absent_read_detail(&failed("weird"));
    assert_eq!(d.status, CheckStatus::Warning);
    assert_eq!(d.message, "Unexpected error for non-existent object: weird");
    let d = absent_read_detail(&Reply::Data(vec![1]));
    assert_eq!(d.status, CheckStatus::Warning);
    assert_eq!(d.message, "Unexpectedly found data for non-existent object");
    assert_eq!(
        d.suggestion,
        Some("This may indicate caching issues or incorrect object naming".to_string())
    );
    let d = absent_read_detail(&Reply::TimedOut);
    assert_eq!(d.status, CheckStatus::Warning);
    assert_eq!(d.message, "Read test for non-existent object timed out");
}

#[test]
fn a_failed_deletion_is_a_warning_only() {
    let run = DatanodeChecker::new(datanode(Some(s3_storage())), false).begin_as("r".to_string());
    let mut objects = Vec::new();
    let (result, _) = drive(run, |action| match action {
        Action::Delete { .. } => outcome(failed("AccessDenied"), 1),
        _ => outcome(honest_store(&mut objects, action), 1),
    });
    assert!(result.success);
    let last = result.details.last().unwrap();
    assert_eq!(last.item, "S3 DELETE Operation");
    assert_eq!(last.status, CheckStatus::Warning);
    assert_eq!(last.message, "DELETE operation failed: AccessDenied");
    assert_eq!(
        last.suggestion,
        Some("Test object may remain in S3, but this doesn't affect functionality".to_string())
    );
    assert_eq!(result.message, "Checks completed with warnings (6 passed, 1 warnings)");
}

#[test]
fn the_performance_lane_runs_only_when_asked_for() {
    let mut objects = Vec::new();
    let run = DatanodeChecker::new(datanode(Some(s3_storage())), true).begin_as("p".to_string());
    let (result, asked) = drive(run, |action| outcome(honest_store(&mut objects, action), 1000));
    assert!(result.success);
    assert!(objects.is_empty());
    let items: Vec<&str> = result.details.iter().skip(7).map(|d| d.item.as_str()).collect();
    assert_eq!(
        items,
        vec![
            "S3 Write Latency (1KB)",
            "S3 Read Latency (1KB)",
            "S3 Write Latency (1MB)",
            "S3 Read Latency (1MB)",
            "S3 Write Latency (10MB)",
            "S3 Read Latency (10MB)",
            "S3 Concurrent Write",
        ]
    );
    assert_eq!(result.details[7].message, "Write latency: 1000ms (0.00 MB/s)");
    assert_eq!(result.details[10].message, "Read latency: 1000ms (1.00 MB/s)");
    assert_eq!(result.details[11].message, "Write latency: 1000ms (10.00 MB/s)");
    assert_eq!(
        result.details[13].message,
        "Successfully wrote 10 objects concurrently in 1000ms (0.00 MB/s)"
    );
    assert_eq!(result.details[13].duration, Some(Duration::from_secs(1)));

    let perf: Vec<&Action> = asked.iter().skip(7).collect();
    assert_eq!(perf.len(), 11);
    assert_eq!(
        *perf[0],
        Action::Write {
            store: Store::Object,
            key: "stepstone-perf-test/1KB/p".to_string(),
            payload: Payload::Zeros(1024),
            timeout_secs: 120
        }
    );
    assert_eq!(
        *perf[1],
        Action::Read {
            store: Store::Object,
            key: "stepstone-perf-test/1KB/p".to_string(),
            timeout_secs: 120
        }
    );
    assert_eq!(
        *perf[2],
        Action::Delete {
            store: Store::Object,
            key: "stepstone-perf-test/1KB/p".to_string(),
            timeout_secs: 30
        }
    );
    assert_eq!(
        *perf[6],
        Action::Write {
            store: Store::Object,
            key: "stepstone-perf-test/10MB/p".to_string(),
            payload: Payload::Zeros(10 * 1024 * 1024),
            timeout_secs: 120
        }
    );
    let keys: Vec<String> = (0..10).map(|i| format!("stepstone-concurrent-test/p/{}", i)).collect();
    assert_eq!(
        *perf[9],
        Action::WriteBatch { keys: keys.clone(), payload: Payload::Zeros(1024), timeout_secs: 10 }
    );
    assert_eq!(*perf[10], Action::DeleteBatch { keys, timeout_secs: 30 });

    let mut objects = Vec::new();
    let run = DatanodeChecker::new(datanode(Some(s3_storage())), false).begin_as("p".to_string());
    let (result, asked) = drive(run, |action| outcome(honest_store(&mut objects, action), 1));
    assert_eq!(result.details.len(), 7);
    assert_eq!(asked.len(), 7);
}

#[test]
fn a_slow_or_failing_benchmark_is_a_warning() {
    let run = DatanodeChecker::new(datanode(Some(s3_storage())), true).begin_as("p".to_string());
    let mut objects = Vec::new();
    let (result, asked) = drive(run, |action| match action {
        Action::Write { key, .. } if key.starts_with("stepstone-perf-test/1KB") => {
            outcome(Reply::TimedOut, 120_000)
        }
        Action::Write { key, .. } if key.starts_with("stepstone-perf-test/1MB") => {
            outcome(failed("SlowDown"), 5)
        }
        Action::Read { key, .. } if key.starts_with("stepstone-perf-test/10MB") => {
            outcome(Reply::TimedOut, 120_000)
        }
        Action::WriteBatch { keys, .. } => {
            let mut flags = vec![true; keys.len()];
            flags[3] = false;
            flags[7] = false;
            outcome(Reply::Batch(flags), 40)
        }
        _ => outcome(honest_store(&mut objects, action), 1),
    });
    assert!(result.success);
    let tail: Vec<(&str, CheckStatus, &str)> = result
        .details
        .iter()
        .skip(7)
        .map(|d| (d.item.as_str(), d.status, d.message.as_str()))
        .collect();
    assert_eq!(
        tail,
        vec![
            ("S3 Write Test (1KB)", CheckStatus::Warning, "Write timed out (>120s)"),
            ("S3 Write Test (1MB)", CheckStatus::Warning, "Write failed: SlowDown"),
            ("S3 Write Latency (10MB)", CheckStatus::Pass, "Write latency: 1ms (10000.00 MB/s)"),
            ("S3 Read Test (10MB)", CheckStatus::Warning, "Read timed out (>120s)"),
            ("S3 Concurrent Write", CheckStatus::Warning, "Only 8/10 concurrent writes succeeded"),
        ]
    );
    // A payload that was not written is neither read nor deleted; what the
    // batch wrote is deleted, and only that.
    let perf: Vec<&Action> = asked.iter().skip(7).collect();
    assert_eq!(perf.len(), 7);
    match perf.last().unwrap() {
        Action::DeleteBatch { keys, .. } => {
            let expected: Vec<String> = [0, 1, 2, 4, 5, 6, 8, 9]
                .iter()
                .map(|i| format!("stepstone-concurrent-test/p/{}", i))
                .collect();
            assert_eq!(*keys, expected);
        }
        other => panic!("unexpected action {:?}", other),
    }
}

#[test]
fn a_batch_without_answer_is_cleaned_up_in_full() {
    let s = s3_storage();
    let mut probe = S3Probe::begin(&s, true, "z".to_string());
    probe.phase = S3Phase::BatchWriting;
    let probe = probe.record(&outcome(Reply::TimedOut, 10_000));
    assert_eq!(probe.phase, S3Phase::BatchCleaning);
    assert_eq!(probe.leftovers.len(), 10);
    assert_eq!(probe.details[0].message, "Only 0/10 concurrent writes succeeded");
    let probe = probe.record(&outcome(failed("x"), 1));
    assert_eq!(probe.phase, S3Phase::Done);
    assert_eq!(probe.details.len(), 1);

    let mut probe = S3Probe::begin(&s, true, "z".to_string());
    probe.phase = S3Phase::BatchWriting;
    let probe = probe.record(&outcome(Reply::Batch(vec![false; 10]), 1));
    assert_eq!(probe.phase, S3Phase::Done);
    assert!(probe.leftovers.is_empty());

    let mut probe = S3Probe::begin(&s, true, "z".to_string());
    probe.phase = S3Phase::BatchWriting;
    let probe = probe.record(&outcome(Reply::Batch(vec![true, true]), 1));
    assert_eq!(probe.leftovers, vec!["stepstone-concurrent-test/z/0", "stepstone-concurrent-test/z/1"]);
    assert_eq!(probe.details[0].message, "Only 2/10 concurrent writes succeeded");
}

#[test]
fn benchmark_figures_are_exact() {
    assert_eq!(millis(&Duration::from_nanos(999_999)), "0");
    assert_eq!(millis(&Duration::from_micros(1_500)), "1");
    assert_eq!(millis(&Duration::from_secs(90)), "90000");
    assert_eq!(throughput(1024 * 1024, &Duration::from_secs(1)), "1.00");
    assert_eq!(throughput(1024 * 1024, &Duration::from_millis(500)), "2.00");
    assert_eq!(throughput(10 * 1024 * 1024, &Duration::from_secs(3)), "3.33");
    assert_eq!(throughput(1024, &Duration::from_millis(1)), "0.97");
    assert_eq!(throughput(0, &Duration::from_millis(1)), "0.00");
    assert_eq!(throughput(1, &Duration::ZERO), "inf");
    assert_eq!(throughput(usize::MAX, &Duration::from_nanos(1)), {
        let h = (usize::MAX as u128 * 100_000_000_000) / 1_048_576;
        format!("{}.{:02}", h / 100, h % 100)
    });
    assert_eq!(throughput(1024 * 1024, &Duration::MAX), "0.00");

    let d = perf_write_detail(1, &outcome(Reply::Done, 250));
    assert_eq!(d.item, "S3 Write Latency (1MB)");
    assert_eq!(d.message, "Write latency: 250ms (4.00 MB/s)");
    assert_eq!(d.duration, Some(Duration::from_millis(250)));

    let d = perf_read_detail(0, &outcome(Reply::Data(vec![0u8; 1024]), 1));
    assert_eq!(d.status, CheckStatus::Pass);
    assert_eq!(d.message, "Read latency: 1ms (0.97 MB/s)");
    let d = perf_read_detail(0, &outcome(Reply::Data(vec![0u8; 1000]), 1));
    assert_eq!(d.status, CheckStatus::Fail);
    assert_eq!(d.item, "S3 Read Verification (1KB)");
    assert_eq!(d.message, "Data size mismatch: expected 1024, got 1000");
    assert_eq!(d.suggestion, Some("Check S3 data integrity".to_string()));
    let d = perf_read_detail(2, &outcome(failed("reset"), 1));
    assert_eq!((d.status, d.item.as_str()), (CheckStatus::Warning, "S3 Read Test (10MB)"));
    assert_eq!(d.message, "Read failed: reset");
    assert_eq!(d.duration, None);

    let d = batch_detail(10, &Duration::from_millis(10));
    assert_eq!(d.status, CheckStatus::Pass);
    assert_eq!(d.message, "Successfully wrote 10 objects concurrently in 10ms (0.97 MB/s)");
    let d = batch_detail(9, &Duration::from_millis(10));
    assert_eq!(d.status, CheckStatus::Warning);
    assert_eq!(d.message, "Only 9/10 concurrent writes succeeded");
    assert_eq!(
        d.suggestion,
        Some("Check S3 rate limits and connection pool settings".to_string())
    );
}

#[test]
fn test_file_storage_success_messages() {
    let config = datanode(Some(storage(Some("File"), Some("/tmp/greptime_success_test"))));
    let checker = DatanodeChecker::new(config, false);
    let (result, asked) = drive(checker.begin_as("u".to_string()), |action| match action {
        Action::InspectDirectory { .. } => outcome(Reply::Flag(true), 1),
        _ => outcome(Reply::Done, 1),
    });

    let success_details: Vec<_> =
        result.details.iter().filter(|detail| detail.status == CheckStatus::Pass).collect();
    assert!(!success_details.is_empty());
    for detail in &success_details {
        assert!(!detail.message.is_empty());
        if let Some(suggestion) = &detail.suggestion {
            let suggestion_lower = suggestion.to_lowercase();
            let error_keywords = ["error", "failed", "fix", "repair"];
            assert!(!error_keywords.iter().any(|keyword| suggestion_lower.contains(keyword)));
        }
    }

    assert!(result.success);
    assert_eq!(result.details.len(), 3);
    assert_eq!(result.details[1].item, "File Storage Directory");
    assert_eq!(
        result.details[1].message,
        "Storage directory '/tmp/greptime_success_test' exists"
    );
    assert_eq!(result.details[2].item, "File Storage Write Permission");
    assert_eq!(result.details[2].message, "Write permission verified");
    assert_eq!(
        asked[1..],
        [
            Action::InspectDirectory { path: "/tmp/greptime_success_test".to_string() },
            Action::Write {
                store: Store::Files,
                key: "/tmp/greptime_success_test/stepstone_test_u".to_string(),
                payload: Payload::Bytes(b"test".to_vec()),
                timeout_secs: 30
            },
            Action::Delete {
                store: Store::Files,
                key: "/tmp/greptime_success_test/stepstone_test_u".to_string(),
                timeout_secs: 30
            },
        ]
    );
}

#[test]
fn test_file_storage_performance_check() {
    let config = datanode(Some(storage(Some("File"), Some("/tmp/greptime_perf_test"))));
    let checker = DatanodeChecker::new(config, true);
    let (result, _) = drive(checker.begin(), |action| match action {
        Action::InspectDirectory { .. } => outcome(Reply::Flag(true), 1),
        _ => outcome(Reply::Done, 1),
    });
    // File-backed storage has no performance lane: the basic checks run.
    assert!(!result.details.is_empty());
    assert_eq!(result.details.len(), 3);
    assert!(result.details.iter().any(|d| d.duration.is_some()));
}

#[test]
fn a_missing_directory_fails_and_is_named() {
    let config = datanode(Some(storage(Some("File"), Some("/no/such/dir"))));
    let (result, asked) = drive(DatanodeChecker::new(config, false).begin(), |action| match action {
        Action::InspectDirectory { .. } => outcome(
            failed_as(FailureKind::NotFound, "No such file or directory (os error 2)"),
            1,
        ),
        _ => outcome(Reply::Done, 1),
    });
    assert!(!result.success);
    assert_eq!(asked.len(), 2);
    let last = result.details.last().unwrap();
    assert_eq!(last.status, CheckStatus::Fail);
    assert_eq!(last.item, "File Storage Directory");
    assert!(last.message.contains("/no/such/dir"));
    assert_eq!(
        last.message,
        "Storage directory '/no/such/dir' does not exist or is not accessible: No such file or directory (os error 2)"
    );
    assert_eq!(
        last.suggestion,
        Some("Create the storage directory or check permissions".to_string())
    );
}

#[test]
fn the_file_probe_tells_its_failures_apart() {
    let d = directory_detail("/data", &Reply::Flag(false));
    assert_eq!(d.status, CheckStatus::Fail);
    assert_eq!(d.message, "Storage path '/data' exists but is not a directory");
    assert_eq!(d.suggestion, Some("Ensure storage path points to a directory".to_string()));
    let d = directory_detail("/data", &Reply::Flag(true));
    assert_eq!(d.status, CheckStatus::Pass);
    let d = file_write_detail(&failed("Permission denied (os error 13)"));
    assert_eq!(d.status, CheckStatus::Fail);
    assert_eq!(d.message, "Write permission test failed: Permission denied (os error 13)");
    assert_eq!(d.suggestion, Some("Check directory permissions".to_string()));

    let config = datanode(Some(storage(None, None)));
    let (result, asked) = drive(DatanodeChecker::new(config, false).begin(), |action| match action {
        Action::InspectDirectory { path } => {
            assert_eq!(path, "./greptimedb_data");
            outcome(Reply::Flag(true), 1)
        }
        Action::Write { store: Store::Files, .. } => outcome(failed("read-only file system"), 1),
        _ => outcome(Reply::Done, 1),
    });
    assert!(!result.success);
    // A probe file that was not written is not removed.
    assert_eq!(asked.len(), 3);
    assert_eq!(result.details.last().unwrap().item, "File Storage Write Permission");
}

#[test]
fn storage_families_without_verifier_warn() {
    for (name, item, message, suggestion) in [
        (
            "Oss",
            "OSS Storage",
            "OSS storage check not fully implemented yet",
            "OSS support is planned for future versions",
        ),
        (
            "Azblob",
            "Azure Blob Storage",
            "Azure Blob storage check not fully implemented yet",
            "Azure Blob support is planned for future versions",
        ),
        (
            "Gcs",
            "Google Cloud Storage",
            "GCS storage check not fully implemented yet",
            "GCS support is planned for future versions",
        ),
    ] {
        let config = datanode(Some(storage(Some(name), None)));
        let (result, asked) =
            drive(DatanodeChecker::new(config, true).begin(), |_| outcome(Reply::Done, 1));
        assert_eq!(asked.len(), 1);
        assert!(result.success);
        let last: &CheckDetail = result.details.last().unwrap();
        assert_eq!(last.status, CheckStatus::Warning);
        assert_eq!(last.item, item);
        assert_eq!(last.message, message);
        assert_eq!(last.suggestion, Some(suggestion.to_string()));
    }
}

#[test]
fn an_unknown_or_missing_storage_fails() {
    let config = datanode(Some(storage(Some("Tape"), None)));
    let (result, _) = drive(DatanodeChecker::new(config, false).begin(), |_| outcome(Reply::Done, 1));
    assert!(!result.success);
    let last = result.details.last().unwrap();
    assert_eq!(last.item, "Storage Type");
    assert_eq!(last.message, "Unsupported storage type: Tape");
    assert_eq!(last.suggestion, Some("Use one of: S3, Oss, Azblob, Gcs, File".to_string()));

    let (result, _) =
        drive(DatanodeChecker::new(datanode(None), false).begin(), |_| outcome(Reply::Done, 1));
    assert!(!result.success);
    let last = result.details.last().unwrap();
    assert_eq!(last.item, "Storage Configuration");
    assert_eq!(last.message, "Storage configuration is missing");
    assert_eq!(last.suggestion, Some("Add storage configuration section".to_string()));
}

#[test]
fn connectivity_comes_before_storage() {
    let mut config = datanode(Some(storage(Some("File"), Some("/d"))));
    config.meta_client.as_mut().unwrap().metasrv_addrs =
        vec!["a:1".to_string(), "nonsense".to_string(), "b:2".to_string()];
    let (result, asked) = drive(DatanodeChecker::new(config, false).begin(), |action| match action {
        Action::Connect { host, .. } if host == "a" => outcome(Reply::TimedOut, 10_000),
        Action::InspectDirectory { .. } => outcome(Reply::Flag(true), 1),
        _ => outcome(Reply::Done, 1),
    });
    let kinds: Vec<&str> = asked
        .iter()
        .map(|a| match a {
            Action::Connect { .. } => "connect",
            Action::InspectDirectory { .. } => "inspect",
            Action::Write { .. } => "write",
            Action::Delete { .. } => "delete",
            _ => "other",
        })
        .collect();
    assert_eq!(kinds, vec!["connect", "connect", "inspect", "write", "delete"]);
    let items: Vec<&str> = result.details.iter().map(|d| d.item.as_str()).collect();
    assert_eq!(
        items,
        vec![
            "Metasrv Connectivity 1",
            "Metasrv Address 2 Parsing",
            "Metasrv Connectivity 3",
            "File Storage Directory",
            "File Storage Write Permission",
        ]
    );
    assert!(!result.success);
    assert_eq!(result.message, "Some checks failed (3 passed, 0 warnings, 2 failed)");
}

#[test]
fn every_run_names_its_probe_artifacts_anew() {
    let checker = DatanodeChecker::new(datanode(Some(s3_storage())), false);
    let key_of = |run: DatanodeRun| match run.storage.pending() {
        Action::OpenObjectStore { .. } => {
            let run = run.record(&outcome(Reply::Done, 1));
            let run = run.record(&outcome(Reply::Done, 1));
            let run = run.record(&outcome(Reply::Done, 1));
            match run.pending() {
                Action::Read { key, .. } => key,
                other => panic!("unexpected action {:?}", other),
            }
        }
        other => panic!("unexpected action {:?}", other),
    };
    let first = key_of(checker.begin());
    let second = key_of(checker.begin());
    assert!(first.starts_with("stepstone-nonexistent-"));
    assert!(first.len() > "stepstone-nonexistent-".len());
    assert_ne!(first, second);
}

#[test]
fn a_run_with_durations_beyond_measure_is_handed_back() {
    let config = datanode(Some(storage(Some("File"), Some("/d"))));
    let mut run = DatanodeChecker::new(config, false).begin();
    let forever = Outcome { reply: Reply::Done, elapsed: Duration::MAX };
    run = run.record(&forever);
    assert!(run.can_finish());
    let config = datanode(Some(s3_storage()));
    let mut run = DatanodeChecker::new(config, false).begin();
    run = run.record(&Outcome { reply: Reply::Done, elapsed: Duration::MAX });
    run = run.record(&Outcome { reply: Reply::Done, elapsed: Duration::from_nanos(1) });
    assert!(!run.can_finish());
    let run = run.try_finish().unwrap_err();
    assert_eq!(run.connectivity.details.len(), 1);
    assert_eq!(run.storage.details_ref().len(), 1);
}

#[test]
fn a_success_without_payload_reads_as_nothing() {
    // A read that succeeds without bytes has read no bytes.
    let d = read_back_detail(&Reply::Done);
    assert_eq!(d.status, CheckStatus::Fail);
    assert_eq!(d.message, "GET operation returned incorrect data");
    let d = perf_read_detail(0, &outcome(Reply::Done, 1));
    assert_eq!(d.message, "Data size mismatch: expected 1024, got 0");
    // A question that is answered without flag is answered with no.
    let d = directory_detail("/data", &Reply::Done);
    assert_eq!(d.message, "Storage path '/data' exists but is not a directory");
    // A batch that is answered without flags counts no write, and all keys
    // are deleted.
    let mut probe = S3Probe::begin(&s3_storage(), true, "z".to_string());
    probe.phase = S3Phase::BatchWriting;
    let probe = probe.record(&outcome(Reply::Done, 1));
    assert_eq!(probe.details[0].message, "Only 0/10 concurrent writes succeeded");
    assert_eq!(probe.leftovers.len(), 10);
}
