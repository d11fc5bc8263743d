//! What the object-storage verifier reports for each of its steps.
//!
//! A failure is diagnosed by the category that the client names. Where the
//! client names none, the text of the error is searched for the names that
//! S3-compatible services give their errors.

use crate::common::{CheckDetail, DetailView};
use crate::probe::{FailureKind, Outcome, Reply};
use crate::report::{
    fail_view, failing, fault, fault_text, pass_view, passing, warning, warning_view,
};
use crate::text::{
    contains, contains_text, decimal, decimal_text, headed, text, two_digit_text, two_digits,
};
use crate::time::duration_nanos;
use std::time::Duration;
use vstd::prelude::*;
use vstd::string::StringExecFns;

verus! {

/// How many payload sizes the performance lane probes.
pub const PERF_SIZES: usize = 3;

/// How many writes the concurrent batch holds.
pub const BATCH_WRITES: usize = 10;

/// The size in bytes of each write of the concurrent batch.
pub const BATCH_WRITE_SIZE: usize = 1024;

/// The bytes of the round-trip probe object.
pub open spec fn probe_bytes() -> Seq<u8> {
    seq![
        115u8, 116u8, 101u8, 112u8, 115u8, 116u8, 111u8, 110u8, 101u8, 45u8, 116u8, 101u8, 115u8,
        116u8, 45u8, 100u8, 97u8, 116u8, 97u8,
    ]
}

/// The payload size, in bytes, of the performance probe at `index`.
pub open spec fn perf_size(index: int) -> nat {
    if index == 0 {
        1024
    } else if index == 1 {
        1024 * 1024
    } else {
        10 * 1024 * 1024
    }
}

/// The name of the payload size of the performance probe at `index`.
pub open spec fn perf_size_name(index: int) -> Seq<char> {
    if index == 0 {
        "1KB"@
    } else if index == 1 {
        "1MB"@
    } else {
        "10MB"@
    }
}

/// The category of a failed listing. The client's category decides; a
/// missing object under the bucket's root means a missing bucket. Without a
/// category the error's text decides.
pub open spec fn listing_fault(kind: FailureKind, text: Seq<char>) -> FailureKind {
    match kind {
        FailureKind::AccessDenied => FailureKind::AccessDenied,
        FailureKind::NoSuchBucket => FailureKind::NoSuchBucket,
        FailureKind::NotFound => FailureKind::NoSuchBucket,
        FailureKind::InvalidAccessKey => FailureKind::InvalidAccessKey,
        FailureKind::SignatureMismatch => FailureKind::SignatureMismatch,
        FailureKind::Unclassified => if contains_text(text, "AccessDenied"@) || contains_text(
            text,
            "Forbidden"@,
        ) {
            FailureKind::AccessDenied
        } else if contains_text(text, "NoSuchBucket"@) {
            FailureKind::NoSuchBucket
        } else if contains_text(text, "InvalidAccessKeyId"@) {
            FailureKind::InvalidAccessKey
        } else if contains_text(text, "SignatureDoesNotMatch"@) {
            FailureKind::SignatureMismatch
        } else {
            FailureKind::Unclassified
        },
    }
}

/// The category of a failed read of an object that does not exist: not
/// found, access denied, or neither.
pub open spec fn absent_read_fault(kind: FailureKind, text: Seq<char>) -> FailureKind {
    match kind {
        FailureKind::NotFound => FailureKind::NotFound,
        FailureKind::AccessDenied => FailureKind::AccessDenied,
        FailureKind::Unclassified => if contains_text(text, "NoSuchKey"@) || contains_text(
            text,
            "NotFound"@,
        ) {
            FailureKind::NotFound
        } else if contains_text(text, "AccessDenied"@) || contains_text(text, "Forbidden"@) {
            FailureKind::AccessDenied
        } else {
            FailureKind::Unclassified
        },
        _ => FailureKind::Unclassified,
    }
}

/// A duration in whole milliseconds, as text.
pub open spec fn millis_text(nanos: nat) -> Seq<char> {
    decimal_text(nanos / 1_000_000)
}

/// The hundredths of a mebibyte per second at which `bytes` bytes moved in
/// `nanos` nanoseconds, rounded down.
pub open spec fn throughput_hundredths(bytes: nat, nanos: nat) -> nat {
    (bytes * 100_000_000_000) / (nanos * 1_048_576)
}

/// The throughput in mebibytes per second with two decimals, as text; `inf`
/// where no time passed.
pub open spec fn throughput_text(bytes: nat, nanos: nat) -> Seq<char> {
    if nanos == 0 {
        "inf"@
    } else {
        let h = throughput_hundredths(bytes, nanos);
        decimal_text(h / 100) + "."@ + two_digit_text(h % 100)
    }
}

/// The detail for a storage section without bucket name.
pub open spec fn no_bucket_view() -> DetailView {
    fail_view(
        "S3 Configuration"@,
        "S3 bucket name is required"@,
        None,
        "Set bucket name in storage configuration"@,
    )
}

/// The detail for the construction of the client.
pub open spec fn open_view(outcome: Outcome) -> DetailView {
    let elapsed = Some(duration_nanos(outcome.elapsed));
    if outcome.reply.succeeded() {
        pass_view("S3 Client Creation"@, "S3 client created successfully"@, elapsed)
    } else {
        fail_view(
            "S3 Client Creation"@,
            "Failed to create S3 client: "@ + fault_text(outcome.reply),
            elapsed,
            "Check S3 configuration and credentials"@,
        )
    }
}

/// The detail for the listing of the bucket's root.
pub open spec fn list_view(outcome: Outcome) -> DetailView {
    let elapsed = Some(duration_nanos(outcome.elapsed));
    match outcome.reply {
        Reply::Failed { kind, text } => match listing_fault(kind, text@) {
            FailureKind::AccessDenied => fail_view(
                "S3 Bucket List Permission"@,
                "Access denied for bucket listing: "@ + text@,
                elapsed,
                "Check if the AKSK has ListBucket permission for this bucket"@,
            ),
            FailureKind::NoSuchBucket => fail_view(
                "S3 Bucket Existence"@,
                "Bucket does not exist: "@ + text@,
                elapsed,
                "Create the bucket or check the bucket name in configuration"@,
            ),
            FailureKind::InvalidAccessKey => fail_view(
                "S3 Access Key Validation"@,
                "Invalid access key: "@ + text@,
                elapsed,
                "Check the access_key_id in configuration"@,
            ),
            FailureKind::SignatureMismatch => fail_view(
                "S3 Secret Key Validation"@,
                "Invalid secret key: "@ + text@,
                elapsed,
                "Check the secret_access_key in configuration"@,
            ),
            _ => warning_view(
                "S3 Bucket List Permission"@,
                "Bucket listing failed: "@ + text@,
                elapsed,
                "This may indicate network issues or other S3 service problems"@,
            ),
        },
        Reply::TimedOut => warning_view(
            "S3 Bucket List Permission"@,
            "Bucket listing timed out (>30s)"@,
            elapsed,
            "Check network connectivity to S3 endpoint"@,
        ),
        _ => pass_view(
            "S3 Bucket List Permission"@,
            "Successfully listed bucket contents (ListBucket permission verified)"@,
            elapsed,
        ),
    }
}

/// The detail for the not-found answer to the read of an absent object.
pub open spec fn absent_confirmed_view() -> DetailView {
    pass_view(
        "S3 Read Permission (Error Handling)"@,
        "Correctly returned 'not found' for non-existent object"@,
        None,
    )
}

/// The detail for the read of an object that does not exist.
pub open spec fn absent_read_view(reply: Reply) -> DetailView {
    match reply {
        Reply::Failed { kind, text } => match absent_read_fault(kind, text@) {
            FailureKind::NotFound => absent_confirmed_view(),
            FailureKind::AccessDenied => fail_view(
                "S3 Read Permission"@,
                "Access denied for reading objects: "@ + text@,
                None,
                "Check if the AKSK has GetObject permission for this bucket"@,
            ),
            _ => warning_view(
                "S3 Read Permission (Error Handling)"@,
                "Unexpected error for non-existent object: "@ + text@,
                None,
                "This may indicate permission or configuration issues"@,
            ),
        },
        Reply::Absent => absent_confirmed_view(),
        Reply::TimedOut => warning_view(
            "S3 Read Permission (Error Handling)"@,
            "Read test for non-existent object timed out"@,
            None,
            "Check network connectivity to S3 endpoint"@,
        ),
        _ => warning_view(
            "S3 Read Permission (Error Handling)"@,
            "Unexpectedly found data for non-existent object"@,
            None,
            "This may indicate caching issues or incorrect object naming"@,
        ),
    }
}

/// The detail for the write of the probe object.
pub open spec fn write_view(reply: Reply) -> DetailView {
    if reply.succeeded() {
        pass_view("S3 PUT Operation"@, "PUT operation successful"@, None)
    } else {
        fail_view(
            "S3 PUT Operation"@,
            "PUT operation failed: "@ + fault_text(reply),
            None,
            "Check S3 credentials, bucket permissions, and network connectivity"@,
        )
    }
}

/// The detail for the read of the probe object: a pass only if the bytes
/// read are the bytes written. Other bytes are a failure of their own,
/// apart from a failed read.
pub open spec fn read_back_view(reply: Reply) -> DetailView {
    if !reply.succeeded() {
        fail_view(
            "S3 GET Operation"@,
            "GET operation failed: "@ + fault_text(reply),
            None,
            "Check S3 read permissions"@,
        )
    } else if reply.bytes() == probe_bytes() {
        pass_view("S3 GET Operation"@, "GET operation successful and data matches"@, None)
    } else {
        fail_view(
            "S3 GET Operation"@,
            "GET operation returned incorrect data"@,
            None,
            "Check S3 data consistency"@,
        )
    }
}

/// The detail for the deletion of the probe object. A failure to clean up
/// is a warning only.
pub open spec fn delete_view(reply: Reply) -> DetailView {
    if reply.succeeded() {
        pass_view("S3 DELETE Operation"@, "DELETE operation successful"@, None)
    } else {
        warning_view(
            "S3 DELETE Operation"@,
            "DELETE operation failed: "@ + fault_text(reply),
            None,
            "Test object may remain in S3, but this doesn't affect functionality"@,
        )
    }
}

/// The detail for the timed write of the payload at `index`.
pub open spec fn perf_write_view(index: int, outcome: Outcome) -> DetailView {
    let name = perf_size_name(index);
    let nanos = duration_nanos(outcome.elapsed);
    match outcome.reply {
        Reply::Failed { text, .. } => warning_view(
            "S3 Write Test ("@ + name + ")"@,
            "Write failed: "@ + text@,
            None,
            "Check S3 write permissions and connectivity"@,
        ),
        Reply::TimedOut => warning_view(
            "S3 Write Test ("@ + name + ")"@,
            "Write timed out (>120s)"@,
            None,
            "S3 write performance may be slow"@,
        ),
        _ => pass_view(
            "S3 Write Latency ("@ + name + ")"@,
            "Write latency: "@ + millis_text(nanos) + "ms ("@ + throughput_text(
                perf_size(index),
                nanos,
            ) + " MB/s)"@,
            Some(nanos),
        ),
    }
}

/// The detail for the timed read of the payload at `index`. Bytes of
/// another number than were written are a failure.
pub open spec fn perf_read_view(index: int, outcome: Outcome) -> DetailView {
    let name = perf_size_name(index);
    let nanos = duration_nanos(outcome.elapsed);
    let got = outcome.reply.bytes().len();
    match outcome.reply {
        Reply::Failed { text, .. } => warning_view(
            "S3 Read Test ("@ + name + ")"@,
            "Read failed: "@ + text@,
            None,
            "Check S3 read permissions and connectivity"@,
        ),
        Reply::TimedOut => warning_view(
            "S3 Read Test ("@ + name + ")"@,
            "Read timed out (>120s)"@,
            None,
            "S3 read performance may be slow"@,
        ),
        _ => if got == perf_size(index) {
            pass_view(
                "S3 Read Latency ("@ + name + ")"@,
                "Read latency: "@ + millis_text(nanos) + "ms ("@ + throughput_text(got, nanos)
                    + " MB/s)"@,
                Some(nanos),
            )
        } else {
            fail_view(
                "S3 Read Verification ("@ + name + ")"@,
                "Data size mismatch: expected "@ + decimal_text(perf_size(index)) + ", got "@
                    + decimal_text(got),
                Some(nanos),
                "Check S3 data integrity"@,
            )
        },
    }
}

/// The detail for the concurrent batch, of whose writes `succeeded`
/// succeeded: a pass if all did, a warning that names the ratio otherwise.
pub open spec fn batch_view(succeeded: nat, elapsed: Duration) -> DetailView {
    let nanos = duration_nanos(elapsed);
    if succeeded == BATCH_WRITES {
        pass_view(
            "S3 Concurrent Write"@,
            "Successfully wrote "@ + decimal_text(BATCH_WRITES as nat) + " objects concurrently in "@
                + millis_text(nanos) + "ms ("@ + throughput_text(
                (BATCH_WRITES * BATCH_WRITE_SIZE) as nat,
                nanos,
            ) + " MB/s)"@,
            Some(nanos),
        )
    } else {
        warning_view(
            "S3 Concurrent Write"@,
            "Only "@ + decimal_text(succeeded) + "/"@ + decimal_text(BATCH_WRITES as nat)
                + " concurrent writes succeeded"@,
            Some(nanos),
            "Check S3 rate limits and connection pool settings"@,
        )
    }
}

/// The bytes of the round-trip probe object.
pub fn probe_data() -> (data: Vec<u8>)
    ensures
        data@ == probe_bytes(),
{
    let data: Vec<u8> = vec![
        115u8, 116u8, 101u8, 112u8, 115u8, 116u8, 111u8, 110u8, 101u8, 45u8, 116u8, 101u8, 115u8,
        116u8, 45u8, 100u8, 97u8, 116u8, 97u8,
    ];
    data
}

/// The payload size of the performance probe at `index`.
pub fn perf_size_of(index: usize) -> (size: usize)
    ensures
        size == perf_size(index as int),
{
    if index == 0 {
        1024
    } else if index == 1 {
        1024 * 1024
    } else {
        10 * 1024 * 1024
    }
}

/// The name of the payload size of the performance probe at `index`.
pub fn perf_size_label(index: usize) -> (name: &'static str)
    ensures
        name@ == perf_size_name(index as int),
{
    if index == 0 {
        "1KB"
    } else if index == 1 {
        "1MB"
    } else {
        "10MB"
    }
}

/// Diagnoses a failed listing.
pub fn classify_listing(kind: FailureKind, error: &str) -> (r: FailureKind)
    ensures
        r == listing_fault(kind, error@),
{
    match kind {
        FailureKind::AccessDenied => FailureKind::AccessDenied,
        FailureKind::NoSuchBucket => FailureKind::NoSuchBucket,
        FailureKind::NotFound => FailureKind::NoSuchBucket,
        FailureKind::InvalidAccessKey => FailureKind::InvalidAccessKey,
        FailureKind::SignatureMismatch => FailureKind::SignatureMismatch,
        FailureKind::Unclassified => {
            if contains(error, "AccessDenied") || contains(error, "Forbidden") {
                FailureKind::AccessDenied
            } else if contains(error, "NoSuchBucket") {
                FailureKind::NoSuchBucket
            } else if contains(error, "InvalidAccessKeyId") {
                FailureKind::InvalidAccessKey
            } else if contains(error, "SignatureDoesNotMatch") {
                FailureKind::SignatureMismatch
            } else {
                FailureKind::Unclassified
            }
        },
    }
}

/// Diagnoses a failed read of an object that does not exist.
pub fn classify_absent_read(kind: FailureKind, error: &str) -> (r: FailureKind)
    ensures
        r == absent_read_fault(kind, error@),
{
    match kind {
        FailureKind::NotFound => FailureKind::NotFound,
        FailureKind::AccessDenied => FailureKind::AccessDenied,
        FailureKind::Unclassified => {
            if contains(error, "NoSuchKey") || contains(error, "NotFound") {
                FailureKind::NotFound
            } else if contains(error, "AccessDenied") || contains(error, "Forbidden") {
                FailureKind::AccessDenied
            } else {
                FailureKind::Unclassified
            }
        },
        _ => FailureKind::Unclassified,
    }
}

/// Writes a duration in whole milliseconds.
pub fn millis(elapsed: &Duration) -> (r: String)
    ensures
        r@ == millis_text(duration_nanos(*elapsed)),
{
    decimal(elapsed.as_nanos() / 1_000_000)
}

/// Writes the throughput of `bytes` bytes moved in `elapsed`.
pub fn throughput(bytes: usize, elapsed: &Duration) -> (r: String)
    ensures
        r@ == throughput_text(bytes as nat, duration_nanos(*elapsed)),
{
    let nanos = elapsed.as_nanos();
    if nanos == 0 {
        return text("inf");
    }
    let h: u128 = (bytes as u128 * 100_000_000_000) / (nanos * 1_048_576);
    let mut r = decimal(h / 100);
    r.append(".");
    r.append(two_digits((h % 100) as u8).as_str());
    r
}

/// The detail for a storage section without bucket name.
pub fn no_bucket_detail() -> (d: CheckDetail)
    ensures
        d@ == no_bucket_view(),
{
    failing(
        text("S3 Configuration"),
        text("S3 bucket name is required"),
        None,
        "Set bucket name in storage configuration",
    )
}

/// The detail for the construction of the client.
pub fn open_detail(outcome: &Outcome) -> (d: CheckDetail)
    ensures
        d@ == open_view(*outcome),
{
    if outcome.reply.is_success() {
        passing(
            text("S3 Client Creation"),
            text("S3 client created successfully"),
            Some(outcome.elapsed),
        )
    } else {
        failing(
            text("S3 Client Creation"),
            headed("Failed to create S3 client: ", fault(&outcome.reply).as_str()),
            Some(outcome.elapsed),
            "Check S3 configuration and credentials",
        )
    }
}

/// The detail for the listing of the bucket's root.
pub fn list_detail(outcome: &Outcome) -> (d: CheckDetail)
    ensures
        d@ == list_view(*outcome),
{
    let elapsed = Some(outcome.elapsed);
    match &outcome.reply {
        Reply::Failed { kind, text: error } => match classify_listing(*kind, error.as_str()) {
            FailureKind::AccessDenied => failing(
                text("S3 Bucket List Permission"),
                headed("Access denied for bucket listing: ", error.as_str()),
                elapsed,
                "Check if the AKSK has ListBucket permission for this bucket",
            ),
            FailureKind::NoSuchBucket => failing(
                text("S3 Bucket Existence"),
                headed("Bucket does not exist: ", error.as_str()),
                elapsed,
                "Create the bucket or check the bucket name in configuration",
            ),
            FailureKind::InvalidAccessKey => failing(
                text("S3 Access Key Validation"),
                headed("Invalid access key: ", error.as_str()),
                elapsed,
                "Check the access_key_id in configuration",
            ),
            FailureKind::SignatureMismatch => failing(
                text("S3 Secret Key Validation"),
                headed("Invalid secret key: ", error.as_str()),
                elapsed,
                "Check the secret_access_key in configuration",
            ),
            _ => warning(
                text("S3 Bucket List Permission"),
                headed("Bucket listing failed: ", error.as_str()),
                elapsed,
                "This may indicate network issues or other S3 service problems",
            ),
        },
        Reply::TimedOut => warning(
            text("S3 Bucket List Permission"),
            text("Bucket listing timed out (>30s)"),
            elapsed,
            "Check network connectivity to S3 endpoint",
        ),
        _ => passing(
            text("S3 Bucket List Permission"),
            text("Successfully listed bucket contents (ListBucket permission verified)"),
            elapsed,
        ),
    }
}

/// The detail for the not-found answer to the read of an absent object.
fn absent_confirmed_detail() -> (d: CheckDetail)
    ensures
        d@ == absent_confirmed_view(),
{
    passing(
        text("S3 Read Permission (Error Handling)"),
        text("Correctly returned 'not found' for non-existent object"),
        None,
    )
}

/// The detail for the read of an object that does not exist.
pub fn absent_read_detail(reply: &Reply) -> (d: CheckDetail)
    ensures
        d@ == absent_read_view(*reply),
{
    match reply {
        Reply::Failed { kind, text: error } => match classify_absent_read(*kind, error.as_str()) {
            FailureKind::NotFound => absent_confirmed_detail(),
            FailureKind::AccessDenied => failing(
                text("S3 Read Permission"),
                headed("Access denied for reading objects: ", error.as_str()),
                None,
                "Check if the AKSK has GetObject permission for this bucket",
            ),
            _ => warning(
                text("S3 Read Permission (Error Handling)"),
                headed("Unexpected error for non-existent object: ", error.as_str()),
                None,
                "This may indicate permission or configuration issues",
            ),
        },
        Reply::Absent => absent_confirmed_detail(),
        Reply::TimedOut => warning(
            text("S3 Read Permission (Error Handling)"),
            text("Read test for non-existent object timed out"),
            None,
            "Check network connectivity to S3 endpoint",
        ),
        _ => warning(
            text("S3 Read Permission (Error Handling)"),
            text("Unexpectedly found data for non-existent object"),
            None,
            "This may indicate caching issues or incorrect object naming",
        ),
    }
}

/// The detail for the write of the probe object.
pub fn write_detail(reply: &Reply) -> (d: CheckDetail)
    ensures
        d@ == write_view(*reply),
{
    if reply.is_success() {
        passing(text("S3 PUT Operation"), text("PUT operation successful"), None)
    } else {
        failing(
            text("S3 PUT Operation"),
            headed("PUT operation failed: ", fault(reply).as_str()),
            None,
            "Check S3 credentials, bucket permissions, and network connectivity",
        )
    }
}

/// The detail for the read of the probe object.
pub fn read_back_detail(reply: &Reply) -> (d: CheckDetail)
    ensures
        d@ == read_back_view(*reply),
{
    let matches = match reply {
        Reply::Data(bytes) => crate::text::same_bytes(bytes, &probe_data()),
        _ => false,
    };
    if !reply.is_success() {
        failing(
            text("S3 GET Operation"),
            headed("GET operation failed: ", fault(reply).as_str()),
            None,
            "Check S3 read permissions",
        )
    } else if matches {
        passing(text("S3 GET Operation"), text("GET operation successful and data matches"), None)
    } else {
        proof {
            assert(probe_bytes().len() == 19);
        }
        failing(
            text("S3 GET Operation"),
            text("GET operation returned incorrect data"),
            None,
            "Check S3 data consistency",
        )
    }
}

/// The detail for the deletion of the probe object.
pub fn delete_detail(reply: &Reply) -> (d: CheckDetail)
    ensures
        d@ == delete_view(*reply),
{
    if reply.is_success() {
        passing(text("S3 DELETE Operation"), text("DELETE operation successful"), None)
    } else {
        warning(
            text("S3 DELETE Operation"),
            headed("DELETE operation failed: ", fault(reply).as_str()),
            None,
            "Test object may remain in S3, but this doesn't affect functionality",
        )
    }
}

/// Writes `head`, the name of the payload size at `index`, and `)`.
fn sized_item(head: &str, index: usize) -> (r: String)
    ensures
        r@ == head@ + perf_size_name(index as int) + ")"@,
{
    let mut r = text(head);
    r.append(perf_size_label(index));
    r.append(")");
    r
}

/// Writes `head`, the latency, and the throughput for `bytes` bytes.
fn latency_message(head: &str, bytes: usize, elapsed: &Duration) -> (r: String)
    ensures
        r@ == head@ + millis_text(duration_nanos(*elapsed)) + "ms ("@ + throughput_text(
            bytes as nat,
            duration_nanos(*elapsed),
        ) + " MB/s)"@,
{
    let mut r = text(head);
    r.append(millis(elapsed).as_str());
    r.append("ms (");
    r.append(throughput(bytes, elapsed).as_str());
    r.append(" MB/s)");
    r
}

/// The detail for the timed write of the payload at `index`.
pub fn perf_write_detail(index: usize, outcome: &Outcome) -> (d: CheckDetail)
    ensures
        d@ == perf_write_view(index as int, *outcome),
{
    match &outcome.reply {
        Reply::Failed { text: error, .. } => warning(
            sized_item("S3 Write Test (", index),
            headed("Write failed: ", error.as_str()),
            None,
            "Check S3 write permissions and connectivity",
        ),
        Reply::TimedOut => warning(
            sized_item("S3 Write Test (", index),
            text("Write timed out (>120s)"),
            None,
            "S3 write performance may be slow",
        ),
        _ => passing(
            sized_item("S3 Write Latency (", index),
            latency_message("Write latency: ", perf_size_of(index), &outcome.elapsed),
            Some(outcome.elapsed),
        ),
    }
}

/// The detail for the timed read of the payload at `index`.
pub fn perf_read_detail(index: usize, outcome: &Outcome) -> (d: CheckDetail)
    ensures
        d@ == perf_read_view(index as int, *outcome),
{
    match &outcome.reply {
        Reply::Failed { text: error, .. } => warning(
            sized_item("S3 Read Test (", index),
            headed("Read failed: ", error.as_str()),
            None,
            "Check S3 read permissions and connectivity",
        ),
        Reply::TimedOut => warning(
            sized_item("S3 Read Test (", index),
            text("Read timed out (>120s)"),
            None,
            "S3 read performance may be slow",
        ),
        other => {
            let got: usize = match other {
                Reply::Data(bytes) => bytes.len(),
                _ => 0,
            };
            let expected = perf_size_of(index);
            if got == expected {
                passing(
                    sized_item("S3 Read Latency (", index),
                    latency_message("Read latency: ", got, &outcome.elapsed),
                    Some(outcome.elapsed),
                )
            } else {
                let mut message = text("Data size mismatch: expected ");
                message.append(decimal(expected as u128).as_str());
                message.append(", got ");
                message.append(decimal(got as u128).as_str());
                failing(
                    sized_item("S3 Read Verification (", index),
                    message,
                    Some(outcome.elapsed),
                    "Check S3 data integrity",
                )
            }
        },
    }
}

/// The detail for the concurrent batch.
pub fn batch_detail(succeeded: usize, elapsed: &Duration) -> (d: CheckDetail)
    ensures
        d@ == batch_view(succeeded as nat, *elapsed),
{
    if succeeded == BATCH_WRITES {
        let mut message = text("Successfully wrote ");
        message.append(decimal(BATCH_WRITES as u128).as_str());
        message.append(" objects concurrently in ");
        message.append(millis(elapsed).as_str());
        message.append("ms (");
        message.append(throughput(BATCH_WRITES * BATCH_WRITE_SIZE, elapsed).as_str());
        message.append(" MB/s)");
        passing(text("S3 Concurrent Write"), message, Some(*elapsed))
    } else {
        let mut message = text("Only ");
        message.append(decimal(succeeded as u128).as_str());
        message.append("/");
        message.append(decimal(BATCH_WRITES as u128).as_str());
        message.append(" concurrent writes succeeded");
        warning(
            text("S3 Concurrent Write"),
            message,
            Some(*elapsed),
            "Check S3 rate limits and connection pool settings",
        )
    }
}

} // verus!
