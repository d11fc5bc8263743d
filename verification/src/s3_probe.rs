//! The object-storage verifier, as a sequence of requests.
//!
//! The client is built, the permissions are discovered, a probe object makes
//! its round trip, and the performance lane runs if it was asked for. Each
//! step reports on its own; only a client that cannot be built and a probe
//! object that cannot be written cut the sequence short.

use crate::common::{detail_views, CheckDetail, CheckStatus, DetailView};
use crate::config::DatanodeStorageConfig;
use crate::probe::{Action, ActionView, Outcome, Payload, PayloadView, Reply, Store};
use crate::report::{fail_view, lemma_views_push};
use crate::s3_report::{
    absent_read_detail, absent_read_view, batch_detail, batch_view, delete_detail, delete_view,
    list_detail, list_view, no_bucket_detail, no_bucket_view, open_detail, open_view,
    perf_read_detail, perf_read_view, perf_size, perf_size_label, perf_size_name, perf_size_of,
    perf_write_detail, perf_write_view, probe_bytes, probe_data, read_back_detail, read_back_view,
    write_detail, write_view, BATCH_WRITES, BATCH_WRITE_SIZE, PERF_SIZES,
};
use crate::text::{decimal, decimal_text, opt_text, setting_or, text, text_or, texts};
use vstd::prelude::*;
use vstd::string::StringExecFns;

verus! {

/// The timeout of the listing, in seconds.
pub const LIST_TIMEOUT_SECS: u64 = 30;

/// The timeout of the read of an absent object, in seconds.
pub const ABSENT_READ_TIMEOUT_SECS: u64 = 10;

/// The timeout of each step of the round trip and of each deletion.
pub const ROUND_TRIP_TIMEOUT_SECS: u64 = 30;

/// The timeout of each timed write and read of the performance lane.
pub const PERF_TIMEOUT_SECS: u64 = 120;

/// The timeout of each write of the concurrent batch.
pub const BATCH_TIMEOUT_SECS: u64 = 10;

/// The key of the round-trip probe object of the run `run_id`.
pub open spec fn probe_key(run_id: Seq<char>) -> Seq<char> {
    "stepstone-test/"@ + run_id
}

/// A key under which the run `run_id` writes nothing.
pub open spec fn absent_key(run_id: Seq<char>) -> Seq<char> {
    "stepstone-nonexistent-"@ + run_id
}

/// The key of the performance probe at `index`.
pub open spec fn perf_key(index: int, run_id: Seq<char>) -> Seq<char> {
    "stepstone-perf-test/"@ + perf_size_name(index) + "/"@ + run_id
}

/// The key of the write at `slot` of the concurrent batch.
pub open spec fn batch_key(run_id: Seq<char>, slot: int) -> Seq<char> {
    "stepstone-concurrent-test/"@ + run_id + "/"@ + decimal_text(slot as nat)
}

/// The keys of the concurrent batch.
pub open spec fn batch_keys(run_id: Seq<char>) -> Seq<Seq<char>> {
    Seq::new(BATCH_WRITES as nat, |slot: int| batch_key(run_id, slot))
}

/// Of the first `n` keys of the batch, those whose write succeeded according
/// to `flags`, in order. A key without flag counts as not written.
pub open spec fn written_keys(run_id: Seq<char>, flags: Seq<bool>, n: int) -> Seq<Seq<char>>
    decreases n,
{
    if n <= 0 {
        Seq::empty()
    } else {
        let before = written_keys(run_id, flags, n - 1);
        if n - 1 < flags.len() && flags[n - 1] {
            before.push(batch_key(run_id, n - 1))
        } else {
            before
        }
    }
}

/// Where the object store is and how to sign in.
#[derive(Debug)]
pub struct S3Target {
    pub bucket: String,
    pub root: String,
    pub access_key_id: String,
    pub secret_access_key: String,
    pub endpoint: String,
    pub region: String,
}

/// The step whose outcome the verifier waits for.
#[derive(Debug, Clone, Copy, PartialEq, Eq, Structural)]
pub enum S3Phase {
    /// The construction of the client.
    Opening,
    /// The listing of the bucket's root.
    Listing,
    /// The read of an object that does not exist.
    ProbingAbsent,
    /// The write of the probe object.
    Writing,
    /// The read of the probe object.
    ReadingBack,
    /// The deletion of the probe object.
    Deleting,
    /// The timed write of the payload with this index.
    PerfWriting(usize),
    /// The timed read of the payload with this index.
    PerfReading(usize),
    /// The deletion of the payload with this index.
    PerfCleaning(usize),
    /// The concurrent batch of writes.
    BatchWriting,
    /// The deletion of what the batch wrote.
    BatchCleaning,
    /// Nothing: the verifier is finished.
    Done,
}

/// An object-storage verification under way.
#[derive(Debug)]
pub struct S3Probe {
    /// The object store under test.
    pub target: S3Target,
    /// What makes the keys of this run its own.
    pub run_id: String,
    /// Whether the performance lane was asked for.
    pub with_performance: bool,
    /// The step whose outcome is awaited.
    pub phase: S3Phase,
    /// The details found so far.
    pub details: Vec<CheckDetail>,
    /// The keys of the batch that may exist and are to be deleted.
    pub leftovers: Vec<String>,
}

/// The phase that follows the performance probe at `index`: the next
/// payload size, or the concurrent batch after the last.
pub open spec fn after_size(index: usize) -> S3Phase {
    if index < PERF_SIZES - 1 {
        S3Phase::PerfWriting((index + 1) as usize)
    } else {
        S3Phase::BatchWriting
    }
}

/// How many writes of the batch succeeded according to `reply`.
pub open spec fn batch_successes(run_id: Seq<char>, reply: Reply) -> nat {
    match reply {
        Reply::Batch(flags) => written_keys(run_id, flags@, BATCH_WRITES as int).len(),
        _ => 0,
    }
}

/// The keys to delete after the batch: those that were written, where the
/// reply says which; all of them where it does not.
pub open spec fn batch_leftovers(run_id: Seq<char>, reply: Reply) -> Seq<Seq<char>> {
    match reply {
        Reply::Batch(flags) => written_keys(run_id, flags@, BATCH_WRITES as int),
        _ => batch_keys(run_id),
    }
}

impl S3Target {
    /// The settings that `storage` names, with the public S3 endpoint, the
    /// region `us-east-1`, an empty root and empty credentials where it
    /// names none. The bucket is empty where it names none.
    pub open spec fn reads(&self, storage: DatanodeStorageConfig) -> bool {
        &&& self.bucket@ == text_or(opt_text(storage.bucket), ""@)
        &&& self.root@ == text_or(opt_text(storage.root), ""@)
        &&& self.access_key_id@ == text_or(opt_text(storage.access_key_id), ""@)
        &&& self.secret_access_key@ == text_or(opt_text(storage.secret_access_key), ""@)
        &&& self.endpoint@ == text_or(opt_text(storage.endpoint), "https://s3.amazonaws.com"@)
        &&& self.region@ == text_or(opt_text(storage.region), "us-east-1"@)
    }
}

/// Writes the key of the round-trip probe object.
fn make_probe_key(run_id: &str) -> (r: String)
    ensures
        r@ == probe_key(run_id@),
{
    let mut r = text("stepstone-test/");
    r.append(run_id);
    r
}

/// Writes a key under which nothing is written.
fn make_absent_key(run_id: &str) -> (r: String)
    ensures
        r@ == absent_key(run_id@),
{
    let mut r = text("stepstone-nonexistent-");
    r.append(run_id);
    r
}

/// Writes the key of the performance probe at `index`.
fn make_perf_key(index: usize, run_id: &str) -> (r: String)
    ensures
        r@ == perf_key(index as int, run_id@),
{
    let mut r = text("stepstone-perf-test/");
    r.append(perf_size_label(index));
    r.append("/");
    r.append(run_id);
    r
}

/// Writes the key of the write at `slot` of the batch.
fn make_batch_key(run_id: &str, slot: usize) -> (r: String)
    ensures
        r@ == batch_key(run_id@, slot as int),
{
    let mut r = text("stepstone-concurrent-test/");
    r.append(run_id);
    r.append("/");
    r.append(decimal(slot as u128).as_str());
    r
}

/// Writes the keys of the batch.
fn make_batch_keys(run_id: &str) -> (keys: Vec<String>)
    ensures
        texts(keys@) == batch_keys(run_id@),
{
    let mut keys: Vec<String> = Vec::new();
    let mut slot: usize = 0;
    while slot < BATCH_WRITES
        invariant
            slot <= BATCH_WRITES,
            keys@.len() == slot,
            forall|k: int| 0 <= k < slot ==> (#[trigger] keys@[k])@ == batch_key(run_id@, k),
        decreases BATCH_WRITES - slot,
    {
        keys.push(make_batch_key(run_id, slot));
        slot += 1;
    }
    keys
}

/// Writes the keys of the batch whose write succeeded.
fn make_written_keys(run_id: &str, flags: &Vec<bool>) -> (keys: Vec<String>)
    ensures
        texts(keys@) == written_keys(run_id@, flags@, BATCH_WRITES as int),
{
    let mut keys: Vec<String> = Vec::new();
    let mut slot: usize = 0;
    while slot < BATCH_WRITES
        invariant
            slot <= BATCH_WRITES,
            texts(keys@) == written_keys(run_id@, flags@, slot as int),
        decreases BATCH_WRITES - slot,
    {
        if slot < flags.len() && flags[slot] {
            let key = make_batch_key(run_id, slot);
            keys.push(key);
        }
        slot += 1;
    }
    keys
}

impl S3Probe {
    /// The phase after the awaited step ended with `reply`.
    pub open spec fn next_phase(&self, reply: Reply) -> S3Phase {
        match self.phase {
            S3Phase::Opening => if reply.succeeded() {
                S3Phase::Listing
            } else {
                S3Phase::Done
            },
            S3Phase::Listing => S3Phase::ProbingAbsent,
            S3Phase::ProbingAbsent => S3Phase::Writing,
            S3Phase::Writing => if reply.succeeded() {
                S3Phase::ReadingBack
            } else {
                S3Phase::Done
            },
            S3Phase::ReadingBack => S3Phase::Deleting,
            S3Phase::Deleting => if self.with_performance {
                S3Phase::PerfWriting(0)
            } else {
                S3Phase::Done
            },
            S3Phase::PerfWriting(index) => if reply.succeeded() {
                S3Phase::PerfReading(index)
            } else {
                after_size(index)
            },
            S3Phase::PerfReading(index) => S3Phase::PerfCleaning(index),
            S3Phase::PerfCleaning(index) => after_size(index),
            S3Phase::BatchWriting => if batch_leftovers(self.run_id@, reply).len() > 0 {
                S3Phase::BatchCleaning
            } else {
                S3Phase::Done
            },
            S3Phase::BatchCleaning => S3Phase::Done,
            S3Phase::Done => S3Phase::Done,
        }
    }

    /// What the awaited step reports when it ends with `outcome`.
    pub open spec fn reported(&self, outcome: Outcome) -> Seq<DetailView> {
        match self.phase {
            S3Phase::Opening => seq![open_view(outcome)],
            S3Phase::Listing => seq![list_view(outcome)],
            S3Phase::ProbingAbsent => seq![absent_read_view(outcome.reply)],
            S3Phase::Writing => seq![write_view(outcome.reply)],
            S3Phase::ReadingBack => seq![read_back_view(outcome.reply)],
            S3Phase::Deleting => seq![delete_view(outcome.reply)],
            S3Phase::PerfWriting(index) => seq![perf_write_view(index as int, outcome)],
            S3Phase::PerfReading(index) => seq![perf_read_view(index as int, outcome)],
            S3Phase::BatchWriting => seq![
                batch_view(batch_successes(self.run_id@, outcome.reply), outcome.elapsed),
            ],
            _ => Seq::empty(),
        }
    }

    /// The keys that are to be deleted once the awaited step ended with
    /// `reply`.
    pub open spec fn next_leftovers(&self, reply: Reply) -> Seq<Seq<char>> {
        match self.phase {
            S3Phase::BatchWriting => batch_leftovers(self.run_id@, reply),
            _ => texts(self.leftovers@),
        }
    }

    /// What the verifier asks for in its phase.
    pub open spec fn pending_view(&self) -> ActionView {
        let id = self.run_id@;
        match self.phase {
            S3Phase::Opening => ActionView::OpenObjectStore {
                bucket: self.target.bucket@,
                root: self.target.root@,
                access_key_id: self.target.access_key_id@,
                secret_access_key: self.target.secret_access_key@,
                endpoint: self.target.endpoint@,
                region: self.target.region@,
            },
            S3Phase::Listing => ActionView::List { path: ""@, timeout_secs: LIST_TIMEOUT_SECS },
            S3Phase::ProbingAbsent => ActionView::Read {
                store: Store::Object,
                key: absent_key(id),
                timeout_secs: ABSENT_READ_TIMEOUT_SECS,
            },
            S3Phase::Writing => ActionView::Write {
                store: Store::Object,
                key: probe_key(id),
                payload: PayloadView::Bytes(probe_bytes()),
                timeout_secs: ROUND_TRIP_TIMEOUT_SECS,
            },
            S3Phase::ReadingBack => ActionView::Read {
                store: Store::Object,
                key: probe_key(id),
                timeout_secs: ROUND_TRIP_TIMEOUT_SECS,
            },
            S3Phase::Deleting => ActionView::Delete {
                store: Store::Object,
                key: probe_key(id),
                timeout_secs: ROUND_TRIP_TIMEOUT_SECS,
            },
            S3Phase::PerfWriting(index) => ActionView::Write {
                store: Store::Object,
                key: perf_key(index as int, id),
                payload: PayloadView::Zeros(perf_size(index as int)),
                timeout_secs: PERF_TIMEOUT_SECS,
            },
            S3Phase::PerfReading(index) => ActionView::Read {
                store: Store::Object,
                key: perf_key(index as int, id),
                timeout_secs: PERF_TIMEOUT_SECS,
            },
            S3Phase::PerfCleaning(index) => ActionView::Delete {
                store: Store::Object,
                key: perf_key(index as int, id),
                timeout_secs: ROUND_TRIP_TIMEOUT_SECS,
            },
            S3Phase::BatchWriting => ActionView::WriteBatch {
                keys: batch_keys(id),
                payload: PayloadView::Zeros(BATCH_WRITE_SIZE as nat),
                timeout_secs: BATCH_TIMEOUT_SECS,
            },
            S3Phase::BatchCleaning => ActionView::DeleteBatch {
                keys: texts(self.leftovers@),
                timeout_secs: ROUND_TRIP_TIMEOUT_SECS,
            },
            S3Phase::Done => ActionView::Finish,
        }
    }

    /// `next` is this verifier after the awaited step ended with `outcome`:
    /// the step has reported, and the phase and the keys to delete are
    /// those that follow. A finished verifier stays as it is.
    pub open spec fn steps_to(&self, outcome: Outcome, next: S3Probe) -> bool {
        &&& next.target == self.target
        &&& next.run_id == self.run_id
        &&& next.with_performance == self.with_performance
        &&& next.phase == self.next_phase(outcome.reply)
        &&& detail_views(next.details@) == detail_views(self.details@) + self.reported(outcome)
        &&& texts(next.leftovers@) == self.next_leftovers(outcome.reply)
        &&& self.phase == S3Phase::Done ==> next == *self
    }

    /// Sets up the verification of the object store that `storage` names.
    ///
    /// Without a bucket name nothing can be verified: the verifier is
    /// finished at once, with the one failing detail that says so.
    pub fn begin(storage: &DatanodeStorageConfig, with_performance: bool, run_id: String) -> (r:
        Self)
        ensures
            r.target.reads(*storage),
            r.run_id == run_id,
            r.with_performance == with_performance,
            r.leftovers@.len() == 0,
            match storage.bucket {
                Some(_) => r.phase == S3Phase::Opening && r.details@.len() == 0,
                None => r.phase == S3Phase::Done && detail_views(r.details@) == seq![
                    no_bucket_view(),
                ],
            },
    {
        let target = S3Target {
            bucket: setting_or(&storage.bucket, ""),
            root: setting_or(&storage.root, ""),
            access_key_id: setting_or(&storage.access_key_id, ""),
            secret_access_key: setting_or(&storage.secret_access_key, ""),
            endpoint: setting_or(&storage.endpoint, "https://s3.amazonaws.com"),
            region: setting_or(&storage.region, "us-east-1"),
        };
        let mut details: Vec<CheckDetail> = Vec::new();
        let phase = match &storage.bucket {
            Some(_) => S3Phase::Opening,
            None => {
                details.push(no_bucket_detail());
                S3Phase::Done
            },
        };
        S3Probe { target, run_id, with_performance, phase, details, leftovers: Vec::new() }
    }

    /// Whether the verifier is finished.
    pub fn is_finished(&self) -> (r: bool)
        ensures
            r == (self.phase == S3Phase::Done),
    {
        match self.phase {
            S3Phase::Done => true,
            _ => false,
        }
    }

    /// The next request, or `Finish`.
    pub fn pending(&self) -> (a: Action)
        ensures
            a@ == self.pending_view(),
    {
        let id = self.run_id.as_str();
        match self.phase {
            S3Phase::Opening => Action::OpenObjectStore {
                bucket: self.target.bucket.clone(),
                root: self.target.root.clone(),
                access_key_id: self.target.access_key_id.clone(),
                secret_access_key: self.target.secret_access_key.clone(),
                endpoint: self.target.endpoint.clone(),
                region: self.target.region.clone(),
            },
            S3Phase::Listing => Action::List { path: text(""), timeout_secs: LIST_TIMEOUT_SECS },
            S3Phase::ProbingAbsent => Action::Read {
                store: Store::Object,
                key: make_absent_key(id),
                timeout_secs: ABSENT_READ_TIMEOUT_SECS,
            },
            S3Phase::Writing => Action::Write {
                store: Store::Object,
                key: make_probe_key(id),
                payload: Payload::Bytes(probe_data()),
                timeout_secs: ROUND_TRIP_TIMEOUT_SECS,
            },
            S3Phase::ReadingBack => Action::Read {
                store: Store::Object,
                key: make_probe_key(id),
                timeout_secs: ROUND_TRIP_TIMEOUT_SECS,
            },
            S3Phase::Deleting => Action::Delete {
                store: Store::Object,
                key: make_probe_key(id),
                timeout_secs: ROUND_TRIP_TIMEOUT_SECS,
            },
            S3Phase::PerfWriting(index) => Action::Write {
                store: Store::Object,
                key: make_perf_key(index, id),
                payload: Payload::Zeros(perf_size_of(index)),
                timeout_secs: PERF_TIMEOUT_SECS,
            },
            S3Phase::PerfReading(index) => Action::Read {
                store: Store::Object,
                key: make_perf_key(index, id),
                timeout_secs: PERF_TIMEOUT_SECS,
            },
            S3Phase::PerfCleaning(index) => Action::Delete {
                store: Store::Object,
                key: make_perf_key(index, id),
                timeout_secs: ROUND_TRIP_TIMEOUT_SECS,
            },
            S3Phase::BatchWriting => Action::WriteBatch {
                keys: make_batch_keys(id),
                payload: Payload::Zeros(BATCH_WRITE_SIZE),
                timeout_secs: BATCH_TIMEOUT_SECS,
            },
            S3Phase::BatchCleaning => Action::DeleteBatch {
                keys: crate::text::copy_texts(&self.leftovers),
                timeout_secs: ROUND_TRIP_TIMEOUT_SECS,
            },
            S3Phase::Done => Action::Finish,
        }
    }

    /// Takes in the outcome of the pending request: the step reports, and
    /// the verifier moves to the phase that follows. A finished verifier
    /// stays as it is.
    pub fn record(self, outcome: &Outcome) -> (r: Self)
        ensures
            self.steps_to(*outcome, r),
    {
        let ghost before = detail_views(self.details@);
        let S3Probe { target, run_id, with_performance, phase, details, leftovers } = self;
        let mut details = details;
        let mut leftovers = leftovers;
        let reply = &outcome.reply;
        let mut report: Option<CheckDetail> = None;
        let next: S3Phase = match phase {
            S3Phase::Opening => {
                report = Some(open_detail(outcome));
                if reply.is_success() {
                    S3Phase::Listing
                } else {
                    S3Phase::Done
                }
            },
            S3Phase::Listing => {
                report = Some(list_detail(outcome));
                S3Phase::ProbingAbsent
            },
            S3Phase::ProbingAbsent => {
                report = Some(absent_read_detail(reply));
                S3Phase::Writing
            },
            S3Phase::Writing => {
                report = Some(write_detail(reply));
                if reply.is_success() {
                    S3Phase::ReadingBack
                } else {
                    S3Phase::Done
                }
            },
            S3Phase::ReadingBack => {
                report = Some(read_back_detail(reply));
                S3Phase::Deleting
            },
            S3Phase::Deleting => {
                report = Some(delete_detail(reply));
                if with_performance {
                    S3Phase::PerfWriting(0)
                } else {
                    S3Phase::Done
                }
            },
            S3Phase::PerfWriting(index) => {
                report = Some(perf_write_detail(index, outcome));
                if reply.is_success() {
                    S3Phase::PerfReading(index)
                } else {
                    next_size(index)
                }
            },
            S3Phase::PerfReading(index) => {
                report = Some(perf_read_detail(index, outcome));
                S3Phase::PerfCleaning(index)
            },
            S3Phase::PerfCleaning(index) => next_size(index),
            S3Phase::BatchWriting => {
                let succeeded: usize = match reply {
                    Reply::Batch(flags) => {
                        leftovers = make_written_keys(run_id.as_str(), flags);
                        leftovers.len()
                    },
                    _ => {
                        leftovers = make_batch_keys(run_id.as_str());
                        0
                    },
                };
                report = Some(batch_detail(succeeded, &outcome.elapsed));
                if leftovers.len() > 0 {
                    S3Phase::BatchCleaning
                } else {
                    S3Phase::Done
                }
            },
            S3Phase::BatchCleaning => S3Phase::Done,
            S3Phase::Done => S3Phase::Done,
        };
        if let Some(d) = report {
            proof {
                lemma_views_push(details@, d);
                assert(before.push(d@) =~= before + seq![d@]);
            }
            details.push(d);
        }
        S3Probe { target, run_id, with_performance, phase: next, details, leftovers }
    }
}

/// How many requests a verifier in `phase` may still make, at most.
pub open spec fn steps_left(phase: S3Phase) -> nat {
    match phase {
        S3Phase::Opening => 17,
        S3Phase::Listing => 16,
        S3Phase::ProbingAbsent => 15,
        S3Phase::Writing => 14,
        S3Phase::ReadingBack => 13,
        S3Phase::Deleting => 12,
        S3Phase::PerfWriting(index) => if index < PERF_SIZES {
            (2 + 3 * (PERF_SIZES - index)) as nat
        } else {
            5
        },
        S3Phase::PerfReading(index) => if index < PERF_SIZES {
            (1 + 3 * (PERF_SIZES - index)) as nat
        } else {
            4
        },
        S3Phase::PerfCleaning(index) => if index < PERF_SIZES {
            (3 * (PERF_SIZES - index)) as nat
        } else {
            3
        },
        S3Phase::BatchWriting => 2,
        S3Phase::BatchCleaning => 1,
        S3Phase::Done => 0,
    }
}

/// Every outcome brings a verifier that is not finished nearer to its end:
/// the verification takes seventeen requests at most.
pub proof fn lemma_s3_progress(probe: S3Probe, reply: Reply)
    requires
        probe.phase != S3Phase::Done,
    ensures
        steps_left(probe.next_phase(reply)) < steps_left(probe.phase),
{
}

/// A store that takes the write of the probe object and then returns other
/// bytes fails at the read, with the detail for wrong data, and not at the
/// write. The probe object is deleted all the same.
pub proof fn lemma_wrong_bytes_fail_the_read(
    writing: S3Probe,
    write: Outcome,
    reading: S3Probe,
    read: Outcome,
)
    requires
        writing.phase == S3Phase::Writing,
        writing.steps_to(write, reading),
        write.reply.succeeded(),
        read.reply.succeeded(),
        read.reply.bytes() != probe_bytes(),
    ensures
        writing.reported(write) == seq![write_view(write.reply)],
        write_view(write.reply).status == CheckStatus::Pass,
        reading.phase == S3Phase::ReadingBack,
        reading.reported(read) == seq![read_back_view(read.reply)],
        read_back_view(read.reply) == fail_view(
            "S3 GET Operation"@,
            "GET operation returned incorrect data"@,
            None,
            "Check S3 data consistency"@,
        ),
        reading.next_phase(read.reply) == S3Phase::Deleting,
{
}

/// A probe object that cannot be written is neither read nor deleted.
pub proof fn lemma_failed_write_ends(writing: S3Probe, reply: Reply)
    requires
        writing.phase == S3Phase::Writing,
        !reply.succeeded(),
    ensures
        writing.next_phase(reply) == S3Phase::Done,
        write_view(reply).status == CheckStatus::Fail,
{
}

/// The phase that follows the performance probe at `index`.
fn next_size(index: usize) -> (r: S3Phase)
    ensures
        r == after_size(index),
{
    if index < PERF_SIZES - 1 {
        S3Phase::PerfWriting(index + 1)
    } else {
        S3Phase::BatchWriting
    }
}

} // verus!
