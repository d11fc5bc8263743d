//! The check of the coordinator role: connectivity to the metadata service,
//! then the server addresses of the configuration.

use crate::address;
use crate::address::resolve;
use crate::common::{
    detail_views, durations_fit_both, total_nanos, CheckDetail, CheckResult, CheckStatus,
    DetailView,
};
use crate::config::FrontendConfig;
use crate::connectivity::{failure_line, Connectivity};
use crate::error::Error;
use crate::probe::{Action, ActionView, Outcome};
use crate::text::{opt_text, text};
use crate::time::max_duration_nanos;
use vstd::prelude::*;
use vstd::string::StringExecFns;

verus! {

/// The detail for the address `addr` of the server of the given kind
/// (`HTTP` or `gRPC`): a pass if it resolves, a failure otherwise.
pub open spec fn server_address_view(kind: Seq<char>, addr: Seq<char>) -> DetailView {
    let item = kind + " Server Address Configuration"@;
    if resolve(addr) is Resolved {
        DetailView {
            item,
            status: CheckStatus::Pass,
            message: kind + " server address '"@ + addr + "' is valid"@,
            duration: None,
            suggestion: None,
        }
    } else {
        DetailView {
            item,
            status: CheckStatus::Fail,
            message: "Invalid "@ + kind + " server address '"@ + addr + "': "@ + failure_line(
                addr,
            ),
            duration: None,
            suggestion: Some("Check "@ + kind + " server address format (host:port)"@),
        }
    }
}

/// The detail for a configuration that names no server address.
pub open spec fn no_server_view() -> DetailView {
    DetailView {
        item: "Server Configuration"@,
        status: CheckStatus::Warning,
        message: "No HTTP or gRPC server configuration found"@,
        duration: None,
        suggestion: Some("Consider configuring http and grpc sections for server endpoints"@),
    }
}

/// The details for one optional server address.
pub open spec fn optional_address_views(kind: Seq<char>, addr: Option<Seq<char>>) -> Seq<
    DetailView,
> {
    match addr {
        Some(a) => seq![server_address_view(kind, a)],
        None => Seq::empty(),
    }
}

/// The details for the server addresses: one for the HTTP address and one
/// for the gRPC address, as far as they are configured; a single warning if
/// neither is.
pub open spec fn server_views(http: Option<Seq<char>>, grpc: Option<Seq<char>>) -> Seq<
    DetailView,
> {
    if http is None && grpc is None {
        seq![no_server_view()]
    } else {
        optional_address_views("HTTP"@, http) + optional_address_views("gRPC"@, grpc)
    }
}

impl FrontendConfig {
    /// The address of the HTTP server, if one is configured.
    pub open spec fn http_addr(self) -> Option<Seq<char>> {
        match self.http {
            Some(http) => opt_text(http.addr),
            None => None,
        }
    }

    /// The address of the gRPC server, if one is configured.
    pub open spec fn grpc_addr(self) -> Option<Seq<char>> {
        match self.grpc {
            Some(grpc) => opt_text(grpc.addr),
            None => None,
        }
    }
}

/// The detail for one server address.
fn server_address_detail(kind: &str, addr: &str) -> (d: CheckDetail)
    ensures
        d@ == server_address_view(kind@, addr@),
{
    let mut item = text(kind);
    item.append(" Server Address Configuration");
    match address::parse_address(addr) {
        Ok(_) => {
            let mut message = text(kind);
            message.append(" server address '");
            message.append(addr);
            message.append("' is valid");
            CheckDetail::pass(item, message, None)
        },
        Err(e) => {
            let line = e.to_string();
            proof {
                assert(line@ =~= failure_line(addr@));
            }
            let mut message = text("Invalid ");
            message.append(kind);
            message.append(" server address '");
            message.append(addr);
            message.append("': ");
            message.append(line.as_str());
            let mut suggestion = text("Check ");
            suggestion.append(kind);
            suggestion.append(" server address format (host:port)");
            CheckDetail::fail(item, message, None, Some(suggestion))
        },
    }
}

/// Frontend component checker
#[derive(Debug)]
pub struct FrontendChecker {
    config: FrontendConfig,
}

/// A check of the coordinator role under way.
#[derive(Debug)]
pub struct FrontendRun {
    /// The probe of the metasrv endpoints.
    pub connectivity: Connectivity,
    /// The details for the server addresses.
    pub server: Vec<CheckDetail>,
}

impl FrontendChecker {
    /// The configuration that the checker was made with.
    pub closed spec fn config(&self) -> FrontendConfig {
        self.config
    }

    /// Create a new FrontendChecker with the given configuration
    pub fn new(config: FrontendConfig) -> (r: Self)
        ensures
            r.config() == config,
    {
        Self { config }
    }

    /// The name of the role.
    pub fn component_name(&self) -> (r: &'static str)
        ensures
            r@ == "Frontend"@,
    {
        "Frontend"
    }

    /// Parse address string into host and port
    pub fn parse_address(&self, addr: &str) -> (r: Result<(String, u16), Error>)
        ensures
            address::reports(r, address::resolve(addr@), addr@),
    {
        address::parse_address(addr)
    }

    /// Parse host:port format
    pub fn parse_host_port(&self, addr: &str) -> (r: Result<(String, u16), Error>)
        ensures
            address::reports(r, address::resolve_host_port(addr@), addr@),
    {
        address::parse_host_port(addr)
    }

    /// Check server configuration if present
    pub fn check_server_config(&self) -> (details: Vec<CheckDetail>)
        ensures
            detail_views(details@) == server_views(
                self.config().http_addr(),
                self.config().grpc_addr(),
            ),
    {
        let mut details: Vec<CheckDetail> = Vec::new();
        if let Some(http_config) = &self.config.http {
            if let Some(addr) = &http_config.addr {
                details.push(server_address_detail("HTTP", addr.as_str()));
            }
        }
        if let Some(grpc_config) = &self.config.grpc {
            if let Some(addr) = &grpc_config.addr {
                details.push(server_address_detail("gRPC", addr.as_str()));
            }
        }
        if details.len() == 0 {
            details.push(
                CheckDetail::warning(
                    text("Server Configuration"),
                    text("No HTTP or gRPC server configuration found"),
                    None,
                    Some(text("Consider configuring http and grpc sections for server endpoints")),
                ),
            );
        }
        details
    }

    /// Starts a check: the server addresses are judged at once, and the
    /// probe of the metasrv endpoints is set up.
    pub fn begin(&self) -> (run: FrontendRun)
        ensures
            run.well_formed(),
            run.connectivity.begins(self.config().meta_client),
            detail_views(run.server@) == server_views(
                self.config().http_addr(),
                self.config().grpc_addr(),
            ),
    {
        let connectivity = Connectivity::begin(&self.config.meta_client);
        let server = self.check_server_config();
        FrontendRun { connectivity, server }
    }
}

impl FrontendRun {
    /// The probe of the endpoints is well formed.
    pub open spec fn well_formed(&self) -> bool {
        self.connectivity.well_formed()
    }

    /// Nothing is left to do.
    pub open spec fn finished(&self) -> bool {
        self.connectivity.finished()
    }

    /// The details of the check: those of the endpoints, then those of the
    /// server addresses.
    pub open spec fn details(&self) -> Seq<CheckDetail> {
        self.connectivity.details@ + self.server@
    }

    /// What the check asks for next.
    pub open spec fn pending_view(&self) -> ActionView {
        self.connectivity.pending_view()
    }

    /// The next action, or `Finish`.
    pub fn pending(&self) -> (a: Action)
        ensures
            a@ == self.pending_view(),
    {
        self.connectivity.pending()
    }

    /// Whether nothing is left to do.
    pub fn is_finished(&self) -> (r: bool)
        ensures
            r == self.finished(),
    {
        self.connectivity.is_finished()
    }

    /// Takes in the outcome of the pending action.
    pub fn record(self, outcome: &Outcome) -> (r: Self)
        ensures
            r.server == self.server,
            self.connectivity.steps_to(*outcome, r.connectivity),
            self.well_formed() ==> r.well_formed(),
    {
        let FrontendRun { connectivity, server } = self;
        let connectivity = connectivity.record(outcome);
        FrontendRun { connectivity, server }
    }

    /// Whether the durations of the details can be added up.
    pub fn can_finish(&self) -> (r: bool)
        ensures
            r == (total_nanos(self.details()) <= max_duration_nanos()),
    {
        durations_fit_both(&self.connectivity.details, &self.server)
    }

    /// The result of the check, or the run as it is where the durations of
    /// its details cannot be added up.
    pub fn try_finish(self) -> (r: Result<CheckResult, Self>)
        ensures
            match r {
                Ok(result) => total_nanos(self.details()) <= max_duration_nanos()
                    && result.reduces(self.details()),
                Err(run) => total_nanos(self.details()) > max_duration_nanos() && run == self,
            },
    {
        if self.can_finish() {
            Ok(self.finish())
        } else {
            Err(self)
        }
    }

    /// Reduces the details of the check to its result.
    pub fn finish(self) -> (r: CheckResult)
        requires
            total_nanos(self.details()) <= max_duration_nanos(),
        ensures
            r.reduces(self.details()),
    {
        let mut details = self.connectivity.details;
        let mut server = self.server;
        details.append(&mut server);
        CheckResult::from_details(details)
    }
}

} // verus!
