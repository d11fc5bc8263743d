//! The check of the storage-node role: connectivity to the metadata service,
//! then the configured storage.

use crate::address;
use crate::common::{durations_fit_both, total_nanos, CheckDetail, CheckResult};
use crate::config::DatanodeConfig;
use crate::connectivity::Connectivity;
use crate::error::Error;
use crate::probe::{fresh_run_id, Action, ActionView, Outcome};
use crate::storage::StorageProbe;
use crate::time::max_duration_nanos;
use vstd::prelude::*;

verus! {

/// Datanode component checker
#[derive(Debug)]
pub struct DatanodeChecker {
    config: DatanodeConfig,
    include_performance: bool,
}

/// A check of the storage-node role under way: first the probe of the
/// metasrv endpoints, then the storage check.
#[derive(Debug)]
pub struct DatanodeRun {
    /// The probe of the metasrv endpoints.
    pub connectivity: Connectivity,
    /// The storage check.
    pub storage: StorageProbe,
}

impl DatanodeChecker {
    /// The configuration that the checker was made with.
    pub closed spec fn config(&self) -> DatanodeConfig {
        self.config
    }

    /// Whether the performance lane was asked for.
    pub closed spec fn include_performance(&self) -> bool {
        self.include_performance
    }

    /// Create a new DatanodeChecker with the given configuration
    pub fn new(config: DatanodeConfig, include_performance: bool) -> (r: Self)
        ensures
            r.config() == config,
            r.include_performance() == include_performance,
    {
        Self { config, include_performance }
    }

    /// The name of the role.
    pub fn component_name(&self) -> (r: &'static str)
        ensures
            r@ == "Datanode"@,
    {
        "Datanode"
    }

    /// Parse address string into host and port
    pub fn parse_address(&self, addr: &str) -> (r: Result<(String, u16), Error>)
        ensures
            address::reports(r, address::resolve(addr@), addr@),
    {
        address::parse_address(addr)
    }

    /// Parse host:port format
    pub fn parse_host_port(&self, addr: &str) -> (r: Result<(String, u16), Error>)
        ensures
            address::reports(r, address::resolve_host_port(addr@), addr@),
    {
        address::parse_host_port(addr)
    }

    /// Starts a check whose probe artifacts carry the name `run_id`.
    pub fn begin_as(&self, run_id: String) -> (run: DatanodeRun)
        ensures
            run.starts(self.config(), self.include_performance(), run_id),
    {
        let connectivity = Connectivity::begin(&self.config.meta_client);
        let storage = StorageProbe::begin(&self.config.storage, self.include_performance, run_id);
        DatanodeRun { connectivity, storage }
    }

    /// Starts a check under a fresh name for its probe artifacts.
    pub fn begin(&self) -> (run: DatanodeRun)
        ensures
            exists|run_id: String| run.starts(self.config(), self.include_performance(), run_id),
    {
        let run_id = fresh_run_id();
        let run = self.begin_as(run_id);
        run
    }
}

impl DatanodeRun {
    /// The probe of the endpoints is well formed.
    pub open spec fn well_formed(&self) -> bool {
        self.connectivity.well_formed()
    }

    /// This run is the beginning of a check of `config`: the probe of the
    /// endpoints that its client section names, and the storage check that
    /// its storage section calls for.
    pub open spec fn starts(
        &self,
        config: DatanodeConfig,
        with_performance: bool,
        run_id: String,
    ) -> bool {
        &&& self.well_formed()
        &&& self.connectivity.begins(config.meta_client)
        &&& self.storage.begins(config.storage, with_performance, run_id)
    }

    /// Nothing is left to do.
    pub open spec fn finished(&self) -> bool {
        self.connectivity.finished() && self.storage.finished()
    }

    /// The details of the check: those of the endpoints, then those of the
    /// storage.
    pub open spec fn details(&self) -> Seq<CheckDetail> {
        self.connectivity.details@ + self.storage.details()
    }

    /// What the check asks for next: the endpoints come first.
    pub open spec fn pending_view(&self) -> ActionView {
        if !self.connectivity.finished() {
            self.connectivity.pending_view()
        } else {
            self.storage.pending_view()
        }
    }

    /// `next` is this run after the pending request ended with `outcome`:
    /// the probe of the endpoints has taken it in while it was under way,
    /// the storage check after that.
    pub open spec fn steps_to(&self, outcome: Outcome, next: DatanodeRun) -> bool {
        if !self.connectivity.finished() {
            &&& self.connectivity.steps_to(outcome, next.connectivity)
            &&& next.storage == self.storage
        } else {
            &&& next.connectivity == self.connectivity
            &&& self.storage.steps_to(outcome, next.storage)
        }
    }

    /// The next request, or `Finish`.
    pub fn pending(&self) -> (a: Action)
        ensures
            a@ == self.pending_view(),
    {
        if !self.connectivity.is_finished() {
            self.connectivity.pending()
        } else {
            self.storage.pending()
        }
    }

    /// Whether nothing is left to do.
    pub fn is_finished(&self) -> (r: bool)
        ensures
            r == self.finished(),
    {
        self.connectivity.is_finished() && self.storage.is_finished()
    }

    /// Takes in the outcome of the pending request.
    pub fn record(self, outcome: &Outcome) -> (r: Self)
        ensures
            self.steps_to(*outcome, r),
            self.well_formed() ==> r.well_formed(),
    {
        let DatanodeRun { connectivity, storage } = self;
        if !connectivity.is_finished() {
            DatanodeRun { connectivity: connectivity.record(outcome), storage }
        } else {
            DatanodeRun { connectivity, storage: storage.record(outcome) }
        }
    }

    /// Whether the durations of the details can be added up.
    pub fn can_finish(&self) -> (r: bool)
        ensures
            r == (total_nanos(self.details()) <= max_duration_nanos()),
    {
        durations_fit_both(&self.connectivity.details, self.storage.details_ref())
    }

    /// The result of the check, or the run as it is where the durations of
    /// its details cannot be added up.
    pub fn try_finish(self) -> (r: Result<CheckResult, Self>)
        ensures
            match r {
                Ok(result) => total_nanos(self.details()) <= max_duration_nanos()
                    && result.reduces(self.details()),
                Err(run) => total_nanos(self.details()) > max_duration_nanos() && run == self,
            },
    {
        if self.can_finish() {
            Ok(self.finish())
        } else {
            Err(self)
        }
    }

    /// Reduces the details of the check to its result.
    pub fn finish(self) -> (r: CheckResult)
        requires
            total_nanos(self.details()) <= max_duration_nanos(),
        ensures
            r.reduces(self.details()),
    {
        let mut details = self.connectivity.details;
        let mut storage = self.storage.into_details();
        details.append(&mut storage);
        CheckResult::from_details(details)
    }
}

} // verus!
