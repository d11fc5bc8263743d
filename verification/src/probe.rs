//! The requests a check makes of the outside world, and what comes back.
//!
//! A check never touches the network or the disk itself. It names the next
//! [`Action`]; whoever drives it performs that action, measures how long it
//! took and hands the [`Outcome`] back.

use crate::text::texts;
use std::time::Duration;
use vstd::prelude::*;

verus! {

/// The store that a read, write or delete addresses.
#[derive(Debug, Clone, Copy, PartialEq, Eq, Structural)]
pub enum Store {
    /// The object store opened last.
    Object,
    /// The coordination store opened last.
    Coordination,
    /// The local file system; keys are paths.
    Files,
}

/// A family of relational stores.
#[derive(Debug, Clone, Copy, PartialEq, Eq, Structural)]
pub enum SqlFamily {
    Postgres,
    MySql,
}

/// The bytes to write.
#[derive(Debug, Clone, PartialEq, Eq)]
pub enum Payload {
    /// These bytes.
    Bytes(Vec<u8>),
    /// This many zero bytes.
    Zeros(usize),
}

/// What a payload holds.
pub enum PayloadView {
    Bytes(Seq<u8>),
    Zeros(nat),
}

impl View for Payload {
    type V = PayloadView;

    open spec fn view(&self) -> PayloadView {
        match self {
            Payload::Bytes(b) => PayloadView::Bytes(b@),
            Payload::Zeros(n) => PayloadView::Zeros(*n as nat),
        }
    }
}

/// One request to the outside world.
#[derive(Debug, Clone, PartialEq, Eq)]
pub enum Action {
    /// Open a TCP connection to `host:port`, giving up after the timeout.
    Connect { host: String, port: u16, timeout_secs: u64 },
    /// Build a client for the bucket of an S3-compatible object store.
    OpenObjectStore {
        bucket: String,
        root: String,
        access_key_id: String,
        secret_access_key: String,
        endpoint: String,
        region: String,
    },
    /// Connect to the coordination store at these endpoints.
    OpenCoordinationStore { endpoints: Vec<String>, timeout_secs: u64 },
    /// Connect to the relational store at this address.
    OpenSql { family: SqlFamily, url: String, timeout_secs: u64 },
    /// Ask whether `path` is a directory. The answer is a flag.
    InspectDirectory { path: String },
    /// List what the object store holds under `path`.
    List { path: String, timeout_secs: u64 },
    /// Read the value of `key`. The answer is its bytes, or that it is absent.
    Read { store: Store, key: String, timeout_secs: u64 },
    /// Write `payload` as the value of `key`.
    Write { store: Store, key: String, payload: Payload, timeout_secs: u64 },
    /// Delete `key`.
    Delete { store: Store, key: String, timeout_secs: u64 },
    /// Write `payload` to every key of `keys` in the object store, all at
    /// once, giving each write the timeout. The answer is one flag per key:
    /// whether its write succeeded.
    WriteBatch { keys: Vec<String>, payload: Payload, timeout_secs: u64 },
    /// Delete every key of `keys` from the object store.
    DeleteBatch { keys: Vec<String>, timeout_secs: u64 },
    /// Run a query that answers yes or no. The answer is a flag.
    SqlAsk { sql: String, timeout_secs: u64 },
    /// Run a query that counts rows.
    SqlCount { sql: String, timeout_secs: u64 },
    /// Run a statement with these texts bound to its parameters.
    SqlExecute { sql: String, params: Vec<String>, timeout_secs: u64 },
    /// Wait this long.
    Pause { millis: u64 },
    /// Nothing is left to do.
    Finish,
}

/// What an action asks for.
pub enum ActionView {
    Connect { host: Seq<char>, port: u16, timeout_secs: u64 },
    OpenObjectStore {
        bucket: Seq<char>,
        root: Seq<char>,
        access_key_id: Seq<char>,
        secret_access_key: Seq<char>,
        endpoint: Seq<char>,
        region: Seq<char>,
    },
    OpenCoordinationStore { endpoints: Seq<Seq<char>>, timeout_secs: u64 },
    OpenSql { family: SqlFamily, url: Seq<char>, timeout_secs: u64 },
    InspectDirectory { path: Seq<char> },
    List { path: Seq<char>, timeout_secs: u64 },
    Read { store: Store, key: Seq<char>, timeout_secs: u64 },
    Write { store: Store, key: Seq<char>, payload: PayloadView, timeout_secs: u64 },
    Delete { store: Store, key: Seq<char>, timeout_secs: u64 },
    WriteBatch { keys: Seq<Seq<char>>, payload: PayloadView, timeout_secs: u64 },
    DeleteBatch { keys: Seq<Seq<char>>, timeout_secs: u64 },
    SqlAsk { sql: Seq<char>, timeout_secs: u64 },
    SqlCount { sql: Seq<char>, timeout_secs: u64 },
    SqlExecute { sql: Seq<char>, params: Seq<Seq<char>>, timeout_secs: u64 },
    Pause { millis: u64 },
    Finish,
}

impl View for Action {
    type V = ActionView;

    open spec fn view(&self) -> ActionView {
        match self {
            Action::Connect { host, port, timeout_secs } => ActionView::Connect {
                host: host@,
                port: *port,
                timeout_secs: *timeout_secs,
            },
            Action::OpenObjectStore {
                bucket,
                root,
                access_key_id,
                secret_access_key,
                endpoint,
                region,
            } => ActionView::OpenObjectStore {
                bucket: bucket@,
                root: root@,
                access_key_id: access_key_id@,
                secret_access_key: secret_access_key@,
                endpoint: endpoint@,
                region: region@,
            },
            Action::OpenCoordinationStore {
                endpoints,
                timeout_secs,
            } => ActionView::OpenCoordinationStore {
                endpoints: texts(endpoints@),
                timeout_secs: *timeout_secs,
            },
            Action::OpenSql { family, url, timeout_secs } => ActionView::OpenSql {
                family: *family,
                url: url@,
                timeout_secs: *timeout_secs,
            },
            Action::InspectDirectory { path } => ActionView::InspectDirectory { path: path@ },
            Action::List { path, timeout_secs } => ActionView::List {
                path: path@,
                timeout_secs: *timeout_secs,
            },
            Action::Read { store, key, timeout_secs } => ActionView::Read {
                store: *store,
                key: key@,
                timeout_secs: *timeout_secs,
            },
            Action::Write { store, key, payload, timeout_secs } => ActionView::Write {
                store: *store,
                key: key@,
                payload: payload@,
                timeout_secs: *timeout_secs,
            },
            Action::Delete { store, key, timeout_secs } => ActionView::Delete {
                store: *store,
                key: key@,
                timeout_secs: *timeout_secs,
            },
            Action::WriteBatch { keys, payload, timeout_secs } => ActionView::WriteBatch {
                keys: texts(keys@),
                payload: payload@,
                timeout_secs: *timeout_secs,
            },
            Action::DeleteBatch { keys, timeout_secs } => ActionView::DeleteBatch {
                keys: texts(keys@),
                timeout_secs: *timeout_secs,
            },
            Action::SqlAsk { sql, timeout_secs } => ActionView::SqlAsk {
                sql: sql@,
                timeout_secs: *timeout_secs,
            },
            Action::SqlCount { sql, timeout_secs } => ActionView::SqlCount {
                sql: sql@,
                timeout_secs: *timeout_secs,
            },
            Action::SqlExecute { sql, params, timeout_secs } => ActionView::SqlExecute {
                sql: sql@,
                params: texts(params@),
                timeout_secs: *timeout_secs,
            },
            Action::Pause { millis } => ActionView::Pause { millis: *millis },
            Action::Finish => ActionView::Finish,
        }
    }
}

/// The category of a failure, where the client that failed names one.
#[derive(Debug, Clone, Copy, PartialEq, Eq, Structural)]
pub enum FailureKind {
    /// The credentials are valid but may not do this.
    AccessDenied,
    /// The bucket does not exist.
    NoSuchBucket,
    /// The access key id is not known.
    InvalidAccessKey,
    /// The secret does not belong to the access key id.
    SignatureMismatch,
    /// What was asked for does not exist.
    NotFound,
    /// The client named no category; only the text is known.
    Unclassified,
}

/// What came back from an action.
#[derive(Debug, Clone, PartialEq, Eq)]
pub enum Reply {
    /// It succeeded, and there is nothing more to say.
    Done,
    /// A read succeeded and returned these bytes.
    Data(Vec<u8>),
    /// A read succeeded and found no value.
    Absent,
    /// A question was answered.
    Flag(bool),
    /// A batch was run; one flag per request says whether it succeeded.
    Batch(Vec<bool>),
    /// It failed with the error `text`.
    Failed { kind: FailureKind, text: String },
    /// It did not end within its timeout.
    TimedOut,
}

/// A reply and the time the action took.
#[derive(Debug)]
pub struct Outcome {
    pub reply: Reply,
    pub elapsed: Duration,
}

/// A fresh identifier for the probe artifacts of one run.
///
/// Calls `uuid::Uuid::new_v4` and writes the random UUID it returns as text.
/// Nothing is claimed of the result: it is random, and another at each call.
#[verifier::external_body]
pub(crate) fn fresh_run_id() -> (id: String) {
    uuid::Uuid::new_v4().to_string()
}

impl Reply {
    /// The action neither failed nor timed out.
    pub open spec fn succeeded(self) -> bool {
        !(self is Failed) && !(self is TimedOut)
    }

    /// The bytes that a read returned. A success that carries none reads as
    /// no bytes at all.
    pub open spec fn bytes(self) -> Seq<u8> {
        match self {
            Reply::Data(b) => b@,
            _ => Seq::empty(),
        }
    }

    /// The answer to a question. A success that carries none answers no.
    pub open spec fn answer(self) -> bool {
        match self {
            Reply::Flag(b) => b,
            _ => false,
        }
    }

    /// Whether the action neither failed nor timed out.
    pub fn is_success(&self) -> (r: bool)
        ensures
            r == self.succeeded(),
    {
        match self {
            Reply::Failed { .. } => false,
            Reply::TimedOut => false,
            _ => true,
        }
    }

    /// Whether the question was answered with yes.
    pub fn is_yes(&self) -> (r: bool)
        ensures
            r == self.answer(),
    {
        match self {
            Reply::Flag(b) => *b,
            _ => false,
        }
    }
}

} // verus!
