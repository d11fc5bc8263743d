//! The storage check of the storage-node role: which verifier the configured
//! storage type calls for, and the verifier of file-backed storage.

use crate::common::{detail_views, CheckDetail, CheckStatus, DetailView};
use crate::config::DatanodeStorageConfig;
use crate::probe::{Action, ActionView, Outcome, Payload, PayloadView, Reply, Store};
use crate::report::{
    fail_view, failing, fault, fault_text, lemma_views_push, pass_view, passing, warning,
    warning_view,
};
use crate::s3_probe::{S3Phase, S3Probe, ROUND_TRIP_TIMEOUT_SECS};
use crate::text::{
    contains_text, lemma_contains_infix, opt_text, same_text, setting_or, text, text_or,
};
use vstd::prelude::*;
use vstd::string::StringExecFns;

verus! {

/// The bytes of the probe file: `test`.
pub open spec fn probe_file_bytes() -> Seq<u8> {
    seq![116u8, 101u8, 115u8, 116u8]
}

/// The path of the probe file of the run `run_id` under `root`.
pub open spec fn probe_file_path(root: Seq<char>, run_id: Seq<char>) -> Seq<char> {
    root + "/stepstone_test_"@ + run_id
}

/// The detail for the look at the storage directory `root`: a pass if it is
/// a directory, a failure if it is something else, and another failure if
/// it cannot be looked at.
pub open spec fn directory_view(root: Seq<char>, reply: Reply) -> DetailView {
    if !reply.succeeded() {
        fail_view(
            "File Storage Directory"@,
            "Storage directory '"@ + root + "' does not exist or is not accessible: "@
                + fault_text(reply),
            None,
            "Create the storage directory or check permissions"@,
        )
    } else if reply.answer() {
        pass_view(
            "File Storage Directory"@,
            "Storage directory '"@ + root + "' exists"@,
            None,
        )
    } else {
        fail_view(
            "File Storage Directory"@,
            "Storage path '"@ + root + "' exists but is not a directory"@,
            None,
            "Ensure storage path points to a directory"@,
        )
    }
}

/// The detail for the write of the probe file.
pub open spec fn file_write_view(reply: Reply) -> DetailView {
    if reply.succeeded() {
        pass_view("File Storage Write Permission"@, "Write permission verified"@, None)
    } else {
        fail_view(
            "File Storage Write Permission"@,
            "Write permission test failed: "@ + fault_text(reply),
            None,
            "Check directory permissions"@,
        )
    }
}

/// The detail for a role without storage section.
pub open spec fn no_storage_view() -> DetailView {
    fail_view(
        "Storage Configuration"@,
        "Storage configuration is missing"@,
        None,
        "Add storage configuration section"@,
    )
}

/// The detail for a storage type that is not known.
pub open spec fn unknown_storage_view(storage_type: Seq<char>) -> DetailView {
    fail_view(
        "Storage Type"@,
        "Unsupported storage type: "@ + storage_type,
        None,
        "Use one of: S3, Oss, Azblob, Gcs, File"@,
    )
}

/// The detail for a storage type that is known but has no verifier: a
/// warning, so that the check does not fail on this account alone.
pub open spec fn unverified_storage_view(storage_type: Seq<char>) -> DetailView {
    if storage_type == "Oss"@ {
        warning_view(
            "OSS Storage"@,
            "OSS storage check not fully implemented yet"@,
            None,
            "OSS support is planned for future versions"@,
        )
    } else if storage_type == "Azblob"@ {
        warning_view(
            "Azure Blob Storage"@,
            "Azure Blob storage check not fully implemented yet"@,
            None,
            "Azure Blob support is planned for future versions"@,
        )
    } else {
        warning_view(
            "Google Cloud Storage"@,
            "GCS storage check not fully implemented yet"@,
            None,
            "GCS support is planned for future versions"@,
        )
    }
}

/// The detail for the directory of file-backed storage.
pub fn directory_detail(root: &str, reply: &Reply) -> (d: CheckDetail)
    ensures
        d@ == directory_view(root@, *reply),
{
    if !reply.is_success() {
        let mut message = text("Storage directory '");
        message.append(root);
        message.append("' does not exist or is not accessible: ");
        message.append(fault(reply).as_str());
        failing(
            text("File Storage Directory"),
            message,
            None,
            "Create the storage directory or check permissions",
        )
    } else if reply.is_yes() {
        let mut message = text("Storage directory '");
        message.append(root);
        message.append("' exists");
        passing(text("File Storage Directory"), message, None)
    } else {
        let mut message = text("Storage path '");
        message.append(root);
        message.append("' exists but is not a directory");
        failing(
            text("File Storage Directory"),
            message,
            None,
            "Ensure storage path points to a directory",
        )
    }
}

/// The detail for the write of the probe file.
pub fn file_write_detail(reply: &Reply) -> (d: CheckDetail)
    ensures
        d@ == file_write_view(*reply),
{
    if reply.is_success() {
        passing(text("File Storage Write Permission"), text("Write permission verified"), None)
    } else {
        let mut message = text("Write permission test failed: ");
        message.append(fault(reply).as_str());
        failing(text("File Storage Write Permission"), message, None, "Check directory permissions")
    }
}

/// A storage directory that cannot be looked at fails, with a message that
/// names the directory.
pub proof fn lemma_missing_directory_is_named(root: Seq<char>, reply: Reply)
    requires
        !reply.succeeded(),
    ensures
        directory_view(root, reply).status == CheckStatus::Fail,
        contains_text(directory_view(root, reply).message, root),
{
    lemma_contains_infix(
        "Storage directory '"@,
        root,
        "' does not exist or is not accessible: "@ + fault_text(reply),
    );
    assert("Storage directory '"@ + root + ("' does not exist or is not accessible: "@
        + fault_text(reply)) =~= directory_view(root, reply).message);
}

/// The step whose outcome the file verifier waits for.
#[derive(Debug, Clone, Copy, PartialEq, Eq, Structural)]
pub enum FilePhase {
    /// The look at the storage directory.
    Inspecting,
    /// The write of the probe file.
    Writing,
    /// The removal of the probe file.
    Cleaning,
    /// Nothing: the verifier is finished.
    Done,
}

/// A verification of file-backed storage under way.
#[derive(Debug)]
pub struct FileProbe {
    /// The storage directory.
    pub root: String,
    /// What makes the probe file of this run its own.
    pub run_id: String,
    /// The step whose outcome is awaited.
    pub phase: FilePhase,
    /// The details found so far.
    pub details: Vec<CheckDetail>,
}

impl FileProbe {
    /// The phase after the awaited step ended with `reply`. The probe file
    /// is written only into a directory, and removed only if it was written.
    pub open spec fn next_phase(&self, reply: Reply) -> FilePhase {
        match self.phase {
            FilePhase::Inspecting => if reply.succeeded() && reply.answer() {
                FilePhase::Writing
            } else {
                FilePhase::Done
            },
            FilePhase::Writing => if reply.succeeded() {
                FilePhase::Cleaning
            } else {
                FilePhase::Done
            },
            FilePhase::Cleaning => FilePhase::Done,
            FilePhase::Done => FilePhase::Done,
        }
    }

    /// What the awaited step reports when it ends with `reply`.
    pub open spec fn reported(&self, reply: Reply) -> Seq<DetailView> {
        match self.phase {
            FilePhase::Inspecting => seq![directory_view(self.root@, reply)],
            FilePhase::Writing => seq![file_write_view(reply)],
            _ => Seq::empty(),
        }
    }

    /// What the verifier asks for in its phase.
    pub open spec fn pending_view(&self) -> ActionView {
        match self.phase {
            FilePhase::Inspecting => ActionView::InspectDirectory { path: self.root@ },
            FilePhase::Writing => ActionView::Write {
                store: Store::Files,
                key: probe_file_path(self.root@, self.run_id@),
                payload: PayloadView::Bytes(probe_file_bytes()),
                timeout_secs: ROUND_TRIP_TIMEOUT_SECS,
            },
            FilePhase::Cleaning => ActionView::Delete {
                store: Store::Files,
                key: probe_file_path(self.root@, self.run_id@),
                timeout_secs: ROUND_TRIP_TIMEOUT_SECS,
            },
            FilePhase::Done => ActionView::Finish,
        }
    }

    /// `next` is this verifier after the awaited step ended with `outcome`.
    pub open spec fn steps_to(&self, outcome: Outcome, next: FileProbe) -> bool {
        &&& next.root == self.root
        &&& next.run_id == self.run_id
        &&& next.phase == self.next_phase(outcome.reply)
        &&& detail_views(next.details@) == detail_views(self.details@) + self.reported(
            outcome.reply,
        )
        &&& self.phase == FilePhase::Done ==> next == *self
    }

    /// Sets up the verification of the directory that `storage` names, or
    /// of `./greptimedb_data` where it names none.
    pub fn begin(storage: &DatanodeStorageConfig, run_id: String) -> (r: Self)
        ensures
            r.root@ == text_or(opt_text(storage.data_home), "./greptimedb_data"@),
            r.run_id == run_id,
            r.phase == FilePhase::Inspecting,
            r.details@.len() == 0,
    {
        FileProbe {
            root: setting_or(&storage.data_home, "./greptimedb_data"),
            run_id,
            phase: FilePhase::Inspecting,
            details: Vec::new(),
        }
    }

    /// Writes the path of the probe file.
    fn probe_path(&self) -> (r: String)
        ensures
            r@ == probe_file_path(self.root@, self.run_id@),
    {
        let mut r = self.root.clone();
        r.append("/stepstone_test_");
        r.append(self.run_id.as_str());
        r
    }

    /// The next request, or `Finish`.
    pub fn pending(&self) -> (a: Action)
        ensures
            a@ == self.pending_view(),
    {
        match self.phase {
            FilePhase::Inspecting => Action::InspectDirectory { path: self.root.clone() },
            FilePhase::Writing => {
                let data: Vec<u8> = vec![116u8, 101u8, 115u8, 116u8];
                Action::Write {
                    store: Store::Files,
                    key: self.probe_path(),
                    payload: Payload::Bytes(data),
                    timeout_secs: ROUND_TRIP_TIMEOUT_SECS,
                }
            },
            FilePhase::Cleaning => Action::Delete {
                store: Store::Files,
                key: self.probe_path(),
                timeout_secs: ROUND_TRIP_TIMEOUT_SECS,
            },
            FilePhase::Done => Action::Finish,
        }
    }

    /// Takes in the outcome of the pending request.
    pub fn record(self, outcome: &Outcome) -> (r: Self)
        ensures
            self.steps_to(*outcome, r),
    {
        let ghost before = detail_views(self.details@);
        let FileProbe { root, run_id, phase, details } = self;
        let mut details = details;
        let reply = &outcome.reply;
        let next = match phase {
            FilePhase::Inspecting => {
                let d = directory_detail(root.as_str(), reply);
                proof {
                    lemma_views_push(details@, d);
                    assert(before.push(d@) =~= before + seq![d@]);
                }
                details.push(d);
                if reply.is_success() && reply.is_yes() {
                    FilePhase::Writing
                } else {
                    FilePhase::Done
                }
            },
            FilePhase::Writing => {
                let d = file_write_detail(reply);
                proof {
                    lemma_views_push(details@, d);
                    assert(before.push(d@) =~= before + seq![d@]);
                }
                details.push(d);
                if reply.is_success() {
                    FilePhase::Cleaning
                } else {
                    FilePhase::Done
                }
            },
            FilePhase::Cleaning => FilePhase::Done,
            FilePhase::Done => FilePhase::Done,
        };
        FileProbe { root, run_id, phase: next, details }
    }
}

/// What the storage section calls for.
pub enum StorageKind {
    /// There is no storage section.
    Missing,
    /// The S3 verifier.
    S3,
    /// The verifier of file-backed storage.
    File,
    /// A warning: the type is known, but has no verifier.
    Unverified,
    /// A failure: the type is not known.
    Unknown,
}

/// The storage type that `storage` names; `File` where it names none.
pub open spec fn storage_type_of(storage: DatanodeStorageConfig) -> Seq<char> {
    text_or(opt_text(storage.storage_type), "File"@)
}

/// What the storage section calls for.
pub open spec fn storage_kind(storage: Option<DatanodeStorageConfig>) -> StorageKind {
    match storage {
        None => StorageKind::Missing,
        Some(s) => {
            let name = storage_type_of(s);
            if name == "S3"@ {
                StorageKind::S3
            } else if name == "Oss"@ || name == "Azblob"@ || name == "Gcs"@ {
                StorageKind::Unverified
            } else if name == "File"@ {
                StorageKind::File
            } else {
                StorageKind::Unknown
            }
        },
    }
}

/// A storage check under way.
#[derive(Debug)]
pub enum StorageProbe {
    /// Nothing is asked of the outside world; the details are known.
    Settled(Vec<CheckDetail>),
    /// The S3 verifier runs.
    S3(S3Probe),
    /// The verifier of file-backed storage runs.
    File(FileProbe),
}

impl StorageProbe {
    /// The details found so far.
    pub open spec fn details(&self) -> Seq<CheckDetail> {
        match self {
            StorageProbe::Settled(details) => details@,
            StorageProbe::S3(probe) => probe.details@,
            StorageProbe::File(probe) => probe.details@,
        }
    }

    /// Nothing is left to do.
    pub open spec fn finished(&self) -> bool {
        match self {
            StorageProbe::Settled(_) => true,
            StorageProbe::S3(probe) => probe.phase == S3Phase::Done,
            StorageProbe::File(probe) => probe.phase == FilePhase::Done,
        }
    }

    /// What the check asks for next.
    pub open spec fn pending_view(&self) -> ActionView {
        match self {
            StorageProbe::Settled(_) => ActionView::Finish,
            StorageProbe::S3(probe) => probe.pending_view(),
            StorageProbe::File(probe) => probe.pending_view(),
        }
    }

    /// `next` is this check after the pending request ended with `outcome`.
    pub open spec fn steps_to(&self, outcome: Outcome, next: StorageProbe) -> bool {
        match *self {
            StorageProbe::Settled(_) => next == *self,
            StorageProbe::S3(probe) => next matches StorageProbe::S3(after) && probe.steps_to(
                outcome,
                after,
            ),
            StorageProbe::File(probe) => next matches StorageProbe::File(after) && probe.steps_to(
                outcome,
                after,
            ),
        }
    }

    /// This check is the one that `storage` calls for, at its beginning.
    pub open spec fn begins(
        &self,
        storage: Option<DatanodeStorageConfig>,
        with_performance: bool,
        run_id: String,
    ) -> bool {
        match storage_kind(storage) {
            StorageKind::Missing => *self matches StorageProbe::Settled(details) && detail_views(
                details@,
            ) == seq![no_storage_view()],
            StorageKind::Unknown => *self matches StorageProbe::Settled(details) && detail_views(
                details@,
            ) == seq![unknown_storage_view(storage_type_of(storage->0))],
            StorageKind::Unverified => *self matches StorageProbe::Settled(details)
                && detail_views(details@) == seq![
                unverified_storage_view(storage_type_of(storage->0)),
            ],
            StorageKind::S3 => *self matches StorageProbe::S3(probe) && {
                &&& probe.target.reads(storage->0)
                &&& probe.run_id == run_id
                &&& probe.with_performance == with_performance
                &&& probe.leftovers@.len() == 0
                &&& if (storage->0).bucket is Some {
                    probe.phase == S3Phase::Opening && probe.details@.len() == 0
                } else {
                    probe.phase == S3Phase::Done && detail_views(probe.details@) == seq![
                        crate::s3_report::no_bucket_view(),
                    ]
                }
            },
            StorageKind::File => *self matches StorageProbe::File(probe) && {
                &&& probe.root@ == text_or(opt_text((storage->0).data_home), "./greptimedb_data"@)
                &&& probe.run_id == run_id
                &&& probe.phase == FilePhase::Inspecting
                &&& probe.details@.len() == 0
            },
        }
    }

    /// The one detail of a check that asks nothing of the outside world.
    fn settled(d: CheckDetail) -> (r: Self)
        ensures
            r matches StorageProbe::Settled(details) && detail_views(details@) == seq![d@],
    {
        let mut details: Vec<CheckDetail> = Vec::new();
        details.push(d);
        StorageProbe::Settled(details)
    }

    /// Sets up the check that the storage section calls for.
    ///
    /// A missing section and an unknown storage type fail. A storage type
    /// without verifier is a warning.
    pub fn begin(
        storage: &Option<DatanodeStorageConfig>,
        with_performance: bool,
        run_id: String,
    ) -> (r: Self)
        ensures
            r.begins(*storage, with_performance, run_id),
    {
        match storage {
            None => Self::settled(
                failing(
                    text("Storage Configuration"),
                    text("Storage configuration is missing"),
                    None,
                    "Add storage configuration section",
                ),
            ),
            Some(s) => {
                let name = setting_or(&s.storage_type, "File");
                let name = name.as_str();
                if same_text(name, "S3") {
                    StorageProbe::S3(S3Probe::begin(s, with_performance, run_id))
                } else if same_text(name, "Oss") {
                    Self::settled(
                        warning(
                            text("OSS Storage"),
                            text("OSS storage check not fully implemented yet"),
                            None,
                            "OSS support is planned for future versions",
                        ),
                    )
                } else if same_text(name, "Azblob") {
                    proof {
                        reveal_strlit("Azblob");
                        reveal_strlit("Oss");
                    }
                    Self::settled(
                        warning(
                            text("Azure Blob Storage"),
                            text("Azure Blob storage check not fully implemented yet"),
                            None,
                            "Azure Blob support is planned for future versions",
                        ),
                    )
                } else if same_text(name, "Gcs") {
                    proof {
                        reveal_strlit("Azblob");
                        reveal_strlit("Oss");
                        reveal_strlit("Gcs");
                    }
                    Self::settled(
                        warning(
                            text("Google Cloud Storage"),
                            text("GCS storage check not fully implemented yet"),
                            None,
                            "GCS support is planned for future versions",
                        ),
                    )
                } else if same_text(name, "File") {
                    StorageProbe::File(FileProbe::begin(s, run_id))
                } else {
                    let mut message = text("Unsupported storage type: ");
                    message.append(name);
                    Self::settled(
                        failing(
                            text("Storage Type"),
                            message,
                            None,
                            "Use one of: S3, Oss, Azblob, Gcs, File",
                        ),
                    )
                }
            },
        }
    }

    /// Whether nothing is left to do.
    pub fn is_finished(&self) -> (r: bool)
        ensures
            r == self.finished(),
    {
        match self {
            StorageProbe::Settled(_) => true,
            StorageProbe::S3(probe) => probe.is_finished(),
            StorageProbe::File(probe) => match probe.phase {
                FilePhase::Done => true,
                _ => false,
            },
        }
    }

    /// The next request, or `Finish`.
    pub fn pending(&self) -> (a: Action)
        ensures
            a@ == self.pending_view(),
    {
        match self {
            StorageProbe::Settled(_) => Action::Finish,
            StorageProbe::S3(probe) => probe.pending(),
            StorageProbe::File(probe) => probe.pending(),
        }
    }

    /// Takes in the outcome of the pending request.
    pub fn record(self, outcome: &Outcome) -> (r: Self)
        ensures
            self.steps_to(*outcome, r),
    {
        match self {
            StorageProbe::Settled(details) => StorageProbe::Settled(details),
            StorageProbe::S3(probe) => StorageProbe::S3(probe.record(outcome)),
            StorageProbe::File(probe) => StorageProbe::File(probe.record(outcome)),
        }
    }

    /// Hands out the details.
    pub fn into_details(self) -> (details: Vec<CheckDetail>)
        ensures
            details@ == self.details(),
    {
        match self {
            StorageProbe::Settled(details) => details,
            StorageProbe::S3(probe) => probe.details,
            StorageProbe::File(probe) => probe.details,
        }
    }

    /// The details found so far.
    pub fn details_ref(&self) -> (details: &Vec<CheckDetail>)
        ensures
            details@ == self.details(),
    {
        match self {
            StorageProbe::Settled(details) => details,
            StorageProbe::S3(probe) => &probe.details,
            StorageProbe::File(probe) => &probe.details,
        }
    }
}

} // verus!
