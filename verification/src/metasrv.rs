//! The check of the metadata-service role: the verifier of the configured
//! metadata store.

use crate::common::{
    detail_views, durations_fit, total_nanos, CheckDetail, CheckResult, CheckStatus, DetailView,
};
use crate::config::MetasrvConfig;
use crate::error::Error;
use crate::kv_probe::{KvPhase, KvProbe, KV_TIMEOUT_SECS};
use crate::probe::{
    fresh_run_id, Action, ActionView, Outcome, Payload, PayloadView, Reply, SqlFamily, Store,
};
use crate::report::{fail_view, failing, fault, fault_text, pass_view, passing};
use crate::sql_probe::{SqlPhase, SqlProbe};
use crate::text::{copy_texts, decimal, decimal_text, headed, same_bytes, same_text, text, texts};
use crate::time::max_duration_nanos;
use itertools::Itertools;
use vstd::prelude::*;
use vstd::string::StringExecFns;

verus! {

/// The family of metadata stores that a backend name stands for.
pub enum BackendKind {
    /// The coordination store.
    Etcd,
    /// A relational store of this family.
    Sql(SqlFamily),
    /// The store in memory, which is always there.
    Memory,
    /// None: the name is not known.
    Unknown,
}

/// The family that the backend name `backend` stands for.
pub open spec fn backend_kind(backend: Seq<char>) -> BackendKind {
    if backend == "etcd_store"@ {
        BackendKind::Etcd
    } else if backend == "postgres_store"@ {
        BackendKind::Sql(SqlFamily::Postgres)
    } else if backend == "mysql_store"@ {
        BackendKind::Sql(SqlFamily::MySql)
    } else if backend == "memory_store"@ {
        BackendKind::Memory
    } else {
        BackendKind::Unknown
    }
}

/// The detail for the store in memory.
pub open spec fn memory_view() -> DetailView {
    pass_view("Memory Store"@, "Memory store is always available"@, None)
}

/// The detail for a backend name that is not known.
pub open spec fn unknown_backend_view(backend: Seq<char>) -> DetailView {
    fail_view(
        "Store Type"@,
        "Unsupported store type: "@ + backend,
        None,
        "Use one of: etcd_store, postgres_store, mysql_store, memory_store"@,
    )
}

/// Metasrv component checker
#[derive(Debug)]
pub struct MetasrvChecker {
    config: MetasrvConfig,
}

/// A check of the metadata-service role under way.
#[derive(Debug)]
pub enum MetasrvRun {
    /// Nothing is asked of the outside world; the verdict is known.
    Settled { success: bool, message: String, details: Vec<CheckDetail> },
    /// The verifier of the coordination store runs.
    Kv(KvProbe),
    /// The verifier of a relational store runs.
    Sql(SqlProbe),
}

impl MetasrvChecker {
    /// The configuration that the checker was made with.
    pub closed spec fn config(&self) -> MetasrvConfig {
        self.config
    }

    /// Create a new MetasrvChecker with the given configuration
    pub fn new(config: MetasrvConfig) -> (r: Self)
        ensures
            r.config() == config,
    {
        Self { config }
    }

    /// The name of the role.
    pub fn component_name(&self) -> (r: &'static str)
        ensures
            r@ == "Metasrv"@,
    {
        "Metasrv"
    }

    /// Starts a check whose probe artifacts carry the name `run_id`.
    ///
    /// The store in memory passes at once. A backend name that is not known
    /// fails at once.
    pub fn begin_as(&self, run_id: String) -> (run: MetasrvRun)
        ensures
            run.begins(self.config(), run_id),
    {
        let backend = self.config.backend.as_str();
        if same_text(backend, "etcd_store") {
            MetasrvRun::Kv(KvProbe::begin(&self.config, run_id.as_str()))
        } else if same_text(backend, "postgres_store") {
            MetasrvRun::Sql(SqlProbe::begin(SqlFamily::Postgres, &self.config, run_id))
        } else if same_text(backend, "mysql_store") {
            MetasrvRun::Sql(SqlProbe::begin(SqlFamily::MySql, &self.config, run_id))
        } else if same_text(backend, "memory_store") {
            let mut details: Vec<CheckDetail> = Vec::new();
            details.push(
                passing(text("Memory Store"), text("Memory store is always available"), None),
            );
            proof {
                assert(detail_views(details@) =~= seq![memory_view()]);
            }
            MetasrvRun::Settled {
                success: true,
                message: text("Memory store requires no external dependencies"),
                details,
            }
        } else {
            let mut details: Vec<CheckDetail> = Vec::new();
            details.push(
                failing(
                    text("Store Type"),
                    headed("Unsupported store type: ", backend),
                    None,
                    "Use one of: etcd_store, postgres_store, mysql_store, memory_store",
                ),
            );
            proof {
                assert(detail_views(details@) =~= seq![unknown_backend_view(backend@)]);
            }
            MetasrvRun::Settled {
                success: false,
                message: headed("Unknown store type: ", backend),
                details,
            }
        }
    }

    /// Starts a check under a fresh name for its probe artifacts.
    pub fn begin(&self) -> (run: MetasrvRun)
        ensures
            exists|run_id: String| run.begins(self.config(), run_id),
    {
        let run_id = fresh_run_id();
        let run = self.begin_as(run_id);
        run
    }
}

impl MetasrvRun {
    /// The details found so far.
    pub open spec fn details(&self) -> Seq<CheckDetail> {
        match self {
            MetasrvRun::Settled { details, .. } => details@,
            MetasrvRun::Kv(probe) => probe.details@,
            MetasrvRun::Sql(probe) => probe.details@,
        }
    }

    /// Nothing is left to do.
    pub open spec fn finished(&self) -> bool {
        match self {
            MetasrvRun::Settled { .. } => true,
            MetasrvRun::Kv(probe) => probe.phase == KvPhase::Done,
            MetasrvRun::Sql(probe) => probe.phase == SqlPhase::Done,
        }
    }

    /// What the check asks for next.
    pub open spec fn pending_view(&self) -> ActionView {
        match self {
            MetasrvRun::Settled { .. } => ActionView::Finish,
            MetasrvRun::Kv(probe) => probe.pending_view(),
            MetasrvRun::Sql(probe) => probe.pending_view(),
        }
    }

    /// This run is the beginning of a check of `config`.
    pub open spec fn begins(&self, config: MetasrvConfig, run_id: String) -> bool {
        match backend_kind(config.backend@) {
            BackendKind::Etcd => *self matches MetasrvRun::Kv(probe) && probe.begins(
                config,
                run_id@,
            ),
            BackendKind::Sql(family) => *self matches MetasrvRun::Sql(probe) && probe.begins(
                family,
                config,
                run_id,
            ),
            BackendKind::Memory => *self matches MetasrvRun::Settled { success, message, details }
                && success && message@ == "Memory store requires no external dependencies"@
                && detail_views(details@) == seq![memory_view()],
            BackendKind::Unknown => *self matches MetasrvRun::Settled { success, message, details }
                && !success && message@ == "Unknown store type: "@ + config.backend@
                && detail_views(details@) == seq![unknown_backend_view(config.backend@)],
        }
    }

    /// `next` is this run after the pending request ended with `outcome`.
    pub open spec fn steps_to(&self, outcome: Outcome, next: MetasrvRun) -> bool {
        match *self {
            MetasrvRun::Settled { .. } => next == *self,
            MetasrvRun::Kv(probe) => next matches MetasrvRun::Kv(after) && probe.steps_to(
                outcome,
                after,
            ),
            MetasrvRun::Sql(probe) => next matches MetasrvRun::Sql(after) && probe.steps_to(
                outcome,
                after,
            ),
        }
    }

    /// `result` is the result of this run: the verdict that was known from
    /// the start, or else the reduction of the details.
    pub open spec fn results_in(&self, result: CheckResult) -> bool {
        match *self {
            MetasrvRun::Settled { success, message, details } => {
                &&& result.success == success
                &&& result.message == message
                &&& result.details == details
                &&& result.well_formed()
            },
            _ => result.reduces(self.details()),
        }
    }

    /// The next request, or `Finish`.
    pub fn pending(&self) -> (a: Action)
        ensures
            a@ == self.pending_view(),
    {
        match self {
            MetasrvRun::Settled { .. } => Action::Finish,
            MetasrvRun::Kv(probe) => probe.pending(),
            MetasrvRun::Sql(probe) => probe.pending(),
        }
    }

    /// Whether nothing is left to do.
    pub fn is_finished(&self) -> (r: bool)
        ensures
            r == self.finished(),
    {
        match self {
            MetasrvRun::Settled { .. } => true,
            MetasrvRun::Kv(probe) => probe.is_finished(),
            MetasrvRun::Sql(probe) => probe.is_finished(),
        }
    }

    /// Takes in the outcome of the pending request.
    pub fn record(self, outcome: &Outcome) -> (r: Self)
        ensures
            self.steps_to(*outcome, r),
    {
        match self {
            MetasrvRun::Settled { success, message, details } => MetasrvRun::Settled {
                success,
                message,
                details,
            },
            MetasrvRun::Kv(probe) => MetasrvRun::Kv(probe.record(outcome)),
            MetasrvRun::Sql(probe) => MetasrvRun::Sql(probe.record(outcome)),
        }
    }

    /// Whether the durations of the details can be added up.
    pub fn can_finish(&self) -> (r: bool)
        ensures
            r == (total_nanos(self.details()) <= max_duration_nanos()),
    {
        match self {
            MetasrvRun::Settled { details, .. } => durations_fit(details),
            MetasrvRun::Kv(probe) => durations_fit(&probe.details),
            MetasrvRun::Sql(probe) => durations_fit(&probe.details),
        }
    }

    /// The result of the check, or the run as it is where the durations of
    /// its details cannot be added up.
    pub fn try_finish(self) -> (r: Result<CheckResult, Self>)
        ensures
            match r {
                Ok(result) => total_nanos(self.details()) <= max_duration_nanos()
                    && self.results_in(result),
                Err(run) => total_nanos(self.details()) > max_duration_nanos() && run == self,
            },
    {
        if self.can_finish() {
            Ok(self.finish())
        } else {
            Err(self)
        }
    }

    /// The result of the check.
    pub fn finish(self) -> (r: CheckResult)
        requires
            total_nanos(self.details()) <= max_duration_nanos(),
        ensures
            self.results_in(r),
    {
        match self {
            MetasrvRun::Settled { success, message, details } => {
                if success {
                    CheckResult::success(message, details)
                } else {
                    CheckResult::failure(message, details)
                }
            },
            MetasrvRun::Kv(probe) => CheckResult::from_details(probe.details),
            MetasrvRun::Sql(probe) => CheckResult::from_details(probe.details),
        }
    }
}

/// With the store in memory nothing is asked of the outside world, and the
/// check succeeds with the one passing detail of that store.
pub proof fn lemma_memory_store_passes(
    run: MetasrvRun,
    config: MetasrvConfig,
    run_id: String,
    result: CheckResult,
)
    requires
        config.backend@ == "memory_store"@,
        run.begins(config, run_id),
        run.results_in(result),
    ensures
        run.finished(),
        run.pending_view() == ActionView::Finish,
        result.success,
        detail_views(result.details@) == seq![memory_view()],
        memory_view().status == CheckStatus::Pass,
{
    reveal_strlit("memory_store");
    reveal_strlit("etcd_store");
    reveal_strlit("postgres_store");
    reveal_strlit("mysql_store");
}

/// The strings of `parts`, with `sep` between each two of them.
pub open spec fn joined(parts: Seq<Seq<char>>, sep: Seq<char>) -> Seq<char>
    decreases parts.len(),
{
    if parts.len() == 0 {
        Seq::empty()
    } else if parts.len() == 1 {
        parts[0]
    } else {
        joined(parts.drop_last(), sep) + sep + parts.last()
    }
}

/// Joins the strings of `list` with `sep` between them.
///
/// Calls `itertools::Itertools::join` on the strings in order. That function
/// writes the first item and then, for each further item, the separator and
/// the item; of no items it makes the empty string.
#[verifier::external_body]
fn join_texts(list: &Vec<String>, sep: &str) -> (r: String)
    ensures
        r@ == joined(texts(list@), sep@),
{
    list.iter().join(sep)
}

/// The key and the value of the probe of the plain round trip:
/// `/__stepstone_test`.
pub open spec fn plain_probe_text() -> Seq<char> {
    "/__stepstone_test"@
}

/// The bytes of the value of the probe of the plain round trip.
pub open spec fn plain_probe_bytes() -> Seq<u8> {
    seq![
        47u8, 95u8, 95u8, 115u8, 116u8, 101u8, 112u8, 115u8, 116u8, 111u8, 110u8, 101u8, 95u8,
        116u8, 101u8, 115u8, 116u8,
    ]
}

/// The numbers of `bytes` in decimal.
pub open spec fn byte_texts(bytes: Seq<u8>) -> Seq<Seq<char>> {
    bytes.map_values(|b: u8| decimal_text(b as nat))
}

/// A byte string as it is shown for debugging: its numbers in decimal, with
/// commas between, in square brackets.
pub open spec fn bytes_debug_text(bytes: Seq<u8>) -> Seq<char> {
    "["@ + joined(byte_texts(bytes), ", "@) + "]"@
}

/// Shows a byte string for debugging.
pub fn bytes_debug(bytes: &Vec<u8>) -> (r: String)
    ensures
        r@ == bytes_debug_text(bytes@),
{
    let mut parts: Vec<String> = Vec::new();
    let mut i: usize = 0;
    while i < bytes.len()
        invariant
            i <= bytes.len(),
            parts@.len() == i,
            forall|k: int| 0 <= k < i ==> (#[trigger] parts@[k])@ == decimal_text(bytes@[k] as nat),
        decreases bytes.len() - i,
    {
        parts.push(decimal(bytes[i] as u128));
        i += 1;
    }
    proof {
        assert(texts(parts@) =~= byte_texts(bytes@));
    }
    let mut r = text("[");
    r.append(join_texts(&parts, ", ").as_str());
    r.append("]");
    r
}

/// The step whose outcome the plain round trip waits for.
#[derive(Debug, Clone, Copy, PartialEq, Eq, Structural)]
pub enum EtcdPhase {
    /// The connection to the store.
    Connecting,
    /// The write of the probe key.
    Putting,
    /// The read of the probe key.
    Getting,
    /// The deletion of the probe key.
    Deleting,
    /// Nothing: the checker is finished.
    Done,
}

/// A plain round trip against the coordination store.
///
/// It makes one round trip under a fixed key and stops at the first step
/// that goes wrong, with the error of that step.
#[derive(Debug)]
pub struct EtcdChecker {
    /// The endpoints of the store.
    pub addrs: Vec<String>,
    /// The endpoints in one line, with commas between.
    pub endpoints: String,
    /// The step whose outcome is awaited.
    pub phase: EtcdPhase,
    /// The error of the step that went wrong, if one did.
    pub failure: Option<Error>,
}

/// `e` says that the store at `endpoints` cannot be operated, because of the
/// error `source`.
pub open spec fn is_operation_error(e: Error, endpoints: Seq<char>, source: Seq<char>) -> bool {
    e matches Error::EtcdOperation { endpoints: at, source: cause } && at@ == endpoints && cause@
        == source
}

/// `e` says that the store at `endpoints` returned `actual` in place of the
/// probe value.
pub open spec fn is_mismatch_error(e: Error, endpoints: Seq<char>, actual: Seq<char>) -> bool {
    e matches Error::EtcdValueMismatch { endpoints: at, expect, actual: got } && at@ == endpoints
        && expect@ == plain_probe_text() && got@ == actual
}

impl EtcdChecker {
    /// The awaited step goes wrong when it ends with `reply`.
    pub open spec fn goes_wrong(&self, reply: Reply) -> bool {
        match self.phase {
            EtcdPhase::Done => false,
            EtcdPhase::Getting => !(reply matches Reply::Data(bytes) && bytes@
                == plain_probe_bytes()),
            _ => !reply.succeeded(),
        }
    }

    /// `e` is the error of the awaited step that went wrong with `reply`.
    pub open spec fn is_failure(&self, reply: Reply, e: Error) -> bool {
        match self.phase {
            EtcdPhase::Connecting => e matches Error::CommonMeta { source } && source@
                == fault_text(reply),
            EtcdPhase::Getting => match reply {
                Reply::Data(bytes) => is_mismatch_error(
                    e,
                    self.endpoints@,
                    bytes_debug_text(bytes@),
                ),
                Reply::Failed { .. } | Reply::TimedOut => is_operation_error(
                    e,
                    self.endpoints@,
                    fault_text(reply),
                ),
                _ => is_mismatch_error(e, self.endpoints@, "None"@),
            },
            _ => is_operation_error(e, self.endpoints@, fault_text(reply)),
        }
    }

    /// The phase after the awaited step ended with `reply`.
    pub open spec fn next_phase(&self, reply: Reply) -> EtcdPhase {
        if self.goes_wrong(reply) {
            EtcdPhase::Done
        } else {
            match self.phase {
                EtcdPhase::Connecting => EtcdPhase::Putting,
                EtcdPhase::Putting => EtcdPhase::Getting,
                EtcdPhase::Getting => EtcdPhase::Deleting,
                _ => EtcdPhase::Done,
            }
        }
    }

    /// What the checker asks for in its phase.
    pub open spec fn pending_view(&self) -> ActionView {
        match self.phase {
            EtcdPhase::Connecting => ActionView::OpenCoordinationStore {
                endpoints: texts(self.addrs@),
                timeout_secs: KV_TIMEOUT_SECS,
            },
            EtcdPhase::Putting => ActionView::Write {
                store: Store::Coordination,
                key: plain_probe_text(),
                payload: PayloadView::Bytes(plain_probe_bytes()),
                timeout_secs: KV_TIMEOUT_SECS,
            },
            EtcdPhase::Getting => ActionView::Read {
                store: Store::Coordination,
                key: plain_probe_text(),
                timeout_secs: KV_TIMEOUT_SECS,
            },
            EtcdPhase::Deleting => ActionView::Delete {
                store: Store::Coordination,
                key: plain_probe_text(),
                timeout_secs: KV_TIMEOUT_SECS,
            },
            EtcdPhase::Done => ActionView::Finish,
        }
    }

    /// `next` is this checker after the awaited step ended with `outcome`.
    pub open spec fn steps_to(&self, reply: Reply, next: EtcdChecker) -> bool {
        &&& next.addrs == self.addrs
        &&& next.endpoints == self.endpoints
        &&& next.phase == self.next_phase(reply)
        &&& if self.goes_wrong(reply) {
            next.failure matches Some(e) && self.is_failure(reply, e)
        } else {
            next.failure == self.failure
        }
    }

    /// Sets up a check of the store at `endpoints`.
    pub fn try_new(endpoints: &Vec<String>) -> (r: Self)
        ensures
            texts(r.addrs@) == texts(endpoints@),
            r.endpoints@ == joined(texts(endpoints@), ","@),
            r.phase == EtcdPhase::Connecting,
            r.failure is None,
    {
        EtcdChecker {
            addrs: copy_texts(endpoints),
            endpoints: join_texts(endpoints, ","),
            phase: EtcdPhase::Connecting,
            failure: None,
        }
    }

    /// The bytes of the probe value.
    fn probe_bytes() -> (data: Vec<u8>)
        ensures
            data@ == plain_probe_bytes(),
    {
        let data: Vec<u8> = vec![
            47u8, 95u8, 95u8, 115u8, 116u8, 101u8, 112u8, 115u8, 116u8, 111u8, 110u8, 101u8, 95u8,
            116u8, 101u8, 115u8, 116u8,
        ];
        data
    }

    /// The next request, or `Finish`.
    pub fn pending(&self) -> (a: Action)
        ensures
            a@ == self.pending_view(),
    {
        match self.phase {
            EtcdPhase::Connecting => Action::OpenCoordinationStore {
                endpoints: copy_texts(&self.addrs),
                timeout_secs: KV_TIMEOUT_SECS,
            },
            EtcdPhase::Putting => Action::Write {
                store: Store::Coordination,
                key: text("/__stepstone_test"),
                payload: Payload::Bytes(Self::probe_bytes()),
                timeout_secs: KV_TIMEOUT_SECS,
            },
            EtcdPhase::Getting => Action::Read {
                store: Store::Coordination,
                key: text("/__stepstone_test"),
                timeout_secs: KV_TIMEOUT_SECS,
            },
            EtcdPhase::Deleting => Action::Delete {
                store: Store::Coordination,
                key: text("/__stepstone_test"),
                timeout_secs: KV_TIMEOUT_SECS,
            },
            EtcdPhase::Done => Action::Finish,
        }
    }

    /// The error for an operation that failed.
    fn operation_error(&self, reply: &Reply) -> (e: Error)
        ensures
            is_operation_error(e, self.endpoints@, fault_text(*reply)),
    {
        Error::EtcdOperation { endpoints: self.endpoints.clone(), source: fault(reply) }
    }

    /// The error for a read that returned `actual`.
    fn mismatch_error(&self, actual: String) -> (e: Error)
        ensures
            is_mismatch_error(e, self.endpoints@, actual@),
    {
        Error::EtcdValueMismatch {
            endpoints: self.endpoints.clone(),
            expect: text("/__stepstone_test"),
            actual,
        }
    }

    /// Takes in the outcome of the pending request.
    pub fn record(self, reply: &Reply) -> (r: Self)
        ensures
            self.steps_to(*reply, r),
    {
        let ok = reply.is_success();
        let failure: Option<Error> = match self.phase {
            EtcdPhase::Done => None,
            EtcdPhase::Connecting => if ok {
                None
            } else {
                Some(Error::CommonMeta { source: fault(reply) })
            },
            EtcdPhase::Getting => match reply {
                Reply::Data(bytes) => if same_bytes(bytes, &Self::probe_bytes()) {
                    None
                } else {
                    Some(self.mismatch_error(bytes_debug(bytes)))
                },
                Reply::Failed { .. } | Reply::TimedOut => Some(self.operation_error(reply)),
                _ => Some(self.mismatch_error(text("None"))),
            },
            _ => if ok {
                None
            } else {
                Some(self.operation_error(reply))
            },
        };
        let EtcdChecker { addrs, endpoints, phase, failure: earlier } = self;
        match failure {
            Some(e) => EtcdChecker { addrs, endpoints, phase: EtcdPhase::Done, failure: Some(e) },
            None => {
                let next = match phase {
                    EtcdPhase::Connecting => EtcdPhase::Putting,
                    EtcdPhase::Putting => EtcdPhase::Getting,
                    EtcdPhase::Getting => EtcdPhase::Deleting,
                    _ => EtcdPhase::Done,
                };
                EtcdChecker { addrs, endpoints, phase: next, failure: earlier }
            },
        }
    }

    /// The result of the round trip: `None` while it is under way, the error
    /// of the step that went wrong if one did, and `Ok` otherwise.
    pub open spec fn verdict(&self) -> Option<Result<(), Error>> {
        if self.phase == EtcdPhase::Done {
            match self.failure {
                Some(e) => Some(Err(e)),
                None => Some(Ok(())),
            }
        } else {
            None
        }
    }

    /// Whether the round trip is over.
    pub fn is_finished(&self) -> (r: bool)
        ensures
            r == (self.phase == EtcdPhase::Done),
    {
        match self.phase {
            EtcdPhase::Done => true,
            _ => false,
        }
    }

    /// The result of the round trip: `None` while it is under way, the error
    /// of the step that went wrong if one did, and `Ok` otherwise.
    pub fn check_put_get(self) -> (r: Option<Result<(), Error>>)
        ensures
            r == self.verdict(),
    {
        match self.phase {
            EtcdPhase::Done => match self.failure {
                Some(e) => Some(Err(e)),
                None => Some(Ok(())),
            },
            _ => None,
        }
    }
}

} // verus!
