//! The connectivity probe: one bounded-time TCP connection per endpoint.
//!
//! Every endpoint yields exactly one detail. An address that does not resolve
//! fails on its own and does not keep the probe from the endpoints after it.

use crate::address::{parse_address, resolve, Resolution};
use crate::common::{detail_views, CheckDetail, CheckStatus, DetailView};
use crate::config::MetaClientConfig;
use crate::probe::{Action, ActionView, Outcome, Reply};
use crate::report::lemma_views_push;
use crate::text::{copy_texts, decimal, decimal_text, text, texts};
use crate::time::duration_nanos;
use vstd::prelude::*;
use vstd::string::StringExecFns;

verus! {

/// How long a connection attempt may take, in seconds.
pub const CONNECT_TIMEOUT_SECS: u64 = 10;

/// The line of text of the error with which `addr` fails to resolve; empty
/// for an address that resolves.
pub open spec fn failure_line(addr: Seq<char>) -> Seq<char> {
    match resolve(addr) {
        Resolution::Resolved { .. } => Seq::empty(),
        Resolution::MissingPort => "Address must contain port number: "@ + addr,
        Resolution::InvalidPort { port_text, .. } => "Invalid port number in address "@ + addr
            + ": "@ + port_text,
    }
}

/// The detail for a role without a metasrv client section.
pub open spec fn no_client_view() -> DetailView {
    DetailView {
        item: "Metasrv Configuration"@,
        status: CheckStatus::Fail,
        message: "No meta_client configuration found"@,
        duration: None,
        suggestion: Some("Configure meta_client section in the configuration file"@),
    }
}

/// The detail for a client section that names no endpoint.
pub open spec fn no_endpoint_view() -> DetailView {
    DetailView {
        item: "Metasrv Configuration"@,
        status: CheckStatus::Fail,
        message: "No metasrv addresses configured"@,
        duration: None,
        suggestion: Some("Configure metasrv_addrs in the meta_client section"@),
    }
}

/// The detail for the endpoint at `index` (counted from zero), whose address
/// `addr` does not resolve.
pub open spec fn unresolved_view(index: int, addr: Seq<char>) -> DetailView {
    DetailView {
        item: "Metasrv Address "@ + decimal_text((index + 1) as nat) + " Parsing"@,
        status: CheckStatus::Fail,
        message: "Failed to parse address '"@ + addr + "': "@ + failure_line(addr),
        duration: None,
        suggestion: Some("Check address format (should be host:port)"@),
    }
}

/// The detail for the endpoint at `index` (counted from zero), to which a
/// connection was tried with the given outcome.
pub open spec fn dialed_view(index: int, addr: Seq<char>, outcome: Outcome) -> DetailView {
    let item = "Metasrv Connectivity "@ + decimal_text((index + 1) as nat);
    let duration = Some(duration_nanos(outcome.elapsed));
    match outcome.reply {
        Reply::Failed { text, .. } => DetailView {
            item,
            status: CheckStatus::Fail,
            message: "Failed to connect to metasrv at "@ + addr + ": "@ + text@,
            duration,
            suggestion: Some("Check if metasrv is running and accessible"@),
        },
        Reply::TimedOut => DetailView {
            item,
            status: CheckStatus::Fail,
            message: "Connection to metasrv at "@ + addr + " timed out"@,
            duration,
            suggestion: Some("Check network connectivity and metasrv availability"@),
        },
        _ => DetailView {
            item,
            status: CheckStatus::Pass,
            message: "Successfully connected to metasrv at "@ + addr,
            duration,
            suggestion: None,
        },
    }
}

/// The item under which the endpoint at `index` (counted from zero) is
/// reported: its connectivity if its address `addr` resolves, the parsing of
/// its address if not.
pub open spec fn endpoint_item(index: int, addr: Seq<char>) -> Seq<char> {
    if resolve(addr) is Resolved {
        "Metasrv Connectivity "@ + decimal_text((index + 1) as nat)
    } else {
        "Metasrv Address "@ + decimal_text((index + 1) as nat) + " Parsing"@
    }
}

/// The first endpoint at or after `from` whose address resolves, or the
/// number of endpoints if there is none.
pub open spec fn next_resolvable(addrs: Seq<Seq<char>>, from: int) -> int
    decreases addrs.len() - from,
{
    if from < 0 || from >= addrs.len() {
        addrs.len() as int
    } else if resolve(addrs[from]) is Resolved {
        from
    } else {
        next_resolvable(addrs, from + 1)
    }
}

/// The details for the endpoints from `from` up to `to`, none of which
/// resolves.
pub open spec fn unresolved_views(addrs: Seq<Seq<char>>, from: int, to: int) -> Seq<DetailView> {
    Seq::new((to - from) as nat, |k: int| unresolved_view(from + k, addrs[from + k]))
}

/// The detail for a role without a metasrv client section.
pub fn no_client_detail() -> (d: CheckDetail)
    ensures
        d@ == no_client_view(),
{
    CheckDetail::fail(
        text("Metasrv Configuration"),
        text("No meta_client configuration found"),
        None,
        Some(text("Configure meta_client section in the configuration file")),
    )
}

/// The detail for a client section that names no endpoint.
pub fn no_endpoint_detail() -> (d: CheckDetail)
    ensures
        d@ == no_endpoint_view(),
{
    CheckDetail::fail(
        text("Metasrv Configuration"),
        text("No metasrv addresses configured"),
        None,
        Some(text("Configure metasrv_addrs in the meta_client section")),
    )
}

/// The detail for an endpoint whose address failed to resolve with the error
/// shown as `error`.
fn unresolved_detail(index: usize, addr: &str, error: &str) -> (d: CheckDetail)
    requires
        error@ == failure_line(addr@),
    ensures
        d@ == unresolved_view(index as int, addr@),
{
    let mut item = text("Metasrv Address ");
    item.append(decimal(index as u128 + 1).as_str());
    item.append(" Parsing");
    let mut message = text("Failed to parse address '");
    message.append(addr);
    message.append("': ");
    message.append(error);
    CheckDetail::fail(
        item,
        message,
        None,
        Some(text("Check address format (should be host:port)")),
    )
}

/// The detail for an endpoint to which a connection was tried.
pub fn dialed_detail(index: usize, addr: &str, outcome: &Outcome) -> (d: CheckDetail)
    ensures
        d@ == dialed_view(index as int, addr@, *outcome),
{
    let mut item = text("Metasrv Connectivity ");
    item.append(decimal(index as u128 + 1).as_str());
    match &outcome.reply {
        Reply::Failed { text: error, .. } => {
            let mut message = text("Failed to connect to metasrv at ");
            message.append(addr);
            message.append(": ");
            message.append(error.as_str());
            CheckDetail::fail(
                item,
                message,
                Some(outcome.elapsed),
                Some(text("Check if metasrv is running and accessible")),
            )
        },
        Reply::TimedOut => {
            let mut message = text("Connection to metasrv at ");
            message.append(addr);
            message.append(" timed out");
            CheckDetail::fail(
                item,
                message,
                Some(outcome.elapsed),
                Some(text("Check network connectivity and metasrv availability")),
            )
        },
        _ => {
            let mut message = text("Successfully connected to metasrv at ");
            message.append(addr);
            CheckDetail::pass(item, message, Some(outcome.elapsed))
        },
    }
}

/// A connectivity probe under way.
///
/// `cursor` counts the endpoints that are dealt with. While it is below the
/// number of endpoints, the probe waits for the outcome of a connection to
/// the endpoint at `cursor`.
#[derive(Debug)]
pub struct Connectivity {
    /// The addresses of the endpoints, in the order of the configuration.
    pub addrs: Vec<String>,
    /// How many endpoints are dealt with.
    pub cursor: usize,
    /// The details found so far.
    pub details: Vec<CheckDetail>,
}

impl Connectivity {
    /// The addresses of the endpoints.
    pub open spec fn endpoints(&self) -> Seq<Seq<char>> {
        texts(self.addrs@)
    }

    /// The probe waits for a connection to an endpoint that resolves, or is
    /// finished. It holds one detail for each endpoint dealt with, in the
    /// order of the endpoints and each under the item of its endpoint; or it
    /// holds the one detail that says that there is no endpoint.
    pub open spec fn well_formed(&self) -> bool {
        &&& self.cursor <= self.addrs@.len()
        &&& self.cursor < self.addrs@.len() ==> resolve(self.endpoints()[self.cursor as int])
            is Resolved
        &&& if self.addrs@.len() == 0 {
            self.details@.len() == 1
        } else {
            &&& self.details@.len() == self.cursor
            &&& forall|i: int|
                0 <= i < self.cursor ==> (#[trigger] detail_views(self.details@)[i]).item
                    == endpoint_item(i, self.endpoints()[i])
        }
    }

    /// Every endpoint is dealt with.
    pub open spec fn finished(&self) -> bool {
        self.cursor >= self.addrs@.len()
    }

    /// What the probe asks for next.
    pub open spec fn pending_view(&self) -> ActionView {
        if self.finished() {
            ActionView::Finish
        } else {
            match resolve(self.endpoints()[self.cursor as int]) {
                Resolution::Resolved { host, port } => ActionView::Connect {
                    host,
                    port,
                    timeout_secs: CONNECT_TIMEOUT_SECS,
                },
                _ => ActionView::Finish,
            }
        }
    }

    /// `next` is this probe after the pending connection ended with
    /// `outcome`: the endpoint at the cursor has its detail, the endpoints
    /// passed over have theirs, and the cursor is at the next endpoint that
    /// resolves. A finished probe stays as it is.
    pub open spec fn steps_to(&self, outcome: Outcome, next: Connectivity) -> bool {
        &&& next.addrs == self.addrs
        &&& self.finished() ==> next == *self
        &&& !self.finished() ==> {
            &&& next.cursor > self.cursor
            &&& next.cursor == next_resolvable(self.endpoints(), self.cursor + 1)
            &&& detail_views(next.details@) == detail_views(self.details@).push(
                dialed_view(self.cursor as int, self.endpoints()[self.cursor as int], outcome),
            ) + unresolved_views(self.endpoints(), self.cursor + 1, next.cursor as int)
        }
    }

    /// This probe is the beginning of a probe of the endpoints that `client`
    /// names: the endpoints before the first one that resolves have failed.
    /// Without a client section, or without an endpoint in it, the probe
    /// holds the one failing detail that says so.
    pub open spec fn begins(&self, client: Option<MetaClientConfig>) -> bool {
        match client {
            None => self.endpoints().len() == 0 && detail_views(self.details@) == seq![
                no_client_view(),
            ],
            Some(c) => {
                &&& self.endpoints() == texts(c.metasrv_addrs@)
                &&& self.cursor == next_resolvable(self.endpoints(), 0)
                &&& detail_views(self.details@) == if c.metasrv_addrs@.len() == 0 {
                    seq![no_endpoint_view()]
                } else {
                    unresolved_views(self.endpoints(), 0, self.cursor as int)
                }
            },
        }
    }

    /// Moves the cursor to the next endpoint that resolves, with a failing
    /// detail for each endpoint passed over.
    fn settle(self) -> (r: Self)
        requires
            self.cursor <= self.addrs@.len(),
        ensures
            r.addrs == self.addrs,
            r.cursor == next_resolvable(self.endpoints(), self.cursor as int),
            self.cursor <= r.cursor <= self.addrs@.len(),
            r.cursor < r.addrs@.len() ==> resolve(r.endpoints()[r.cursor as int]) is Resolved,
            detail_views(r.details@) == detail_views(self.details@) + unresolved_views(
                self.endpoints(),
                self.cursor as int,
                r.cursor as int,
            ),
    {
        let addrs = self.addrs;
        let mut details = self.details;
        let mut cursor = self.cursor;
        let ghost start = self.cursor as int;
        let ghost before = detail_views(self.details@);
        let ghost names = texts(addrs@);
        while cursor < addrs.len()
            invariant
                start <= cursor <= addrs@.len(),
                start == self.cursor,
                addrs == self.addrs,
                before == detail_views(self.details@),
                names == texts(addrs@),
                next_resolvable(names, start) == next_resolvable(names, cursor as int),
                detail_views(details@) == before + unresolved_views(names, start, cursor as int),
            decreases addrs@.len() - cursor,
        {
            let addr = addrs[cursor].as_str();
            match parse_address(addr) {
                Ok(_) => {
                    return Connectivity { addrs, cursor, details };
                },
                Err(e) => {
                    let line = e.to_string();
                    proof {
                        assert(line@ =~= failure_line(addr@));
                    }
                    let d = unresolved_detail(cursor, addr, line.as_str());
                    proof {
                        lemma_views_push(details@, d);
                    }
                    details.push(d);
                    cursor += 1;
                },
            }
        }
        Connectivity { addrs, cursor, details }
    }

    /// Starts the probe of the endpoints that `client` names.
    ///
    /// Without a client section, or without an endpoint in it, the probe is
    /// finished at once, with the one failing detail that says so.
    pub fn begin(client: &Option<MetaClientConfig>) -> (r: Self)
        ensures
            r.well_formed(),
            r.begins(*client),
    {
        let mut details: Vec<CheckDetail> = Vec::new();
        match client {
            None => {
                let d = no_client_detail();
                details.push(d);
                proof {
                    assert(detail_views(details@) =~= seq![no_client_view()]);
                }
                Connectivity { addrs: Vec::new(), cursor: 0, details }
            },
            Some(c) => {
                if c.metasrv_addrs.len() == 0 {
                    let d = no_endpoint_detail();
                    details.push(d);
                    let addrs: Vec<String> = Vec::new();
                    proof {
                        assert(detail_views(details@) =~= seq![no_endpoint_view()]);
                        assert(texts(addrs@) =~= texts(c.metasrv_addrs@));
                    }
                    Connectivity { addrs, cursor: 0, details }
                } else {
                    let addrs = copy_texts(&c.metasrv_addrs);
                    let r = Connectivity { addrs, cursor: 0, details }.settle();
                    proof {
                        let names = r.endpoints();
                        let views = detail_views(r.details@);
                        lemma_passed_over(names, 0);
                        assert(views =~= unresolved_views(names, 0, r.cursor as int));
                        assert forall|i: int| 0 <= i < r.cursor implies (#[trigger] views[i]).item
                            == endpoint_item(i, names[i]) by {
                            assert(views[i] == unresolved_view(i, names[i]));
                        }
                    }
                    r
                }
            },
        }
    }

    /// Whether every endpoint is dealt with.
    pub fn is_finished(&self) -> (r: bool)
        ensures
            r == self.finished(),
    {
        self.cursor >= self.addrs.len()
    }

    /// The next connection to try, or `Finish`.
    pub fn pending(&self) -> (a: Action)
        ensures
            a@ == self.pending_view(),
    {
        if self.cursor >= self.addrs.len() {
            return Action::Finish;
        }
        let addr = self.addrs[self.cursor].as_str();
        match parse_address(addr) {
            Ok((host, port)) => Action::Connect { host, port, timeout_secs: CONNECT_TIMEOUT_SECS },
            Err(_) => Action::Finish,
        }
    }

    /// Takes in the outcome of the connection that was pending.
    ///
    /// The endpoint at the cursor gets its detail: a pass if the connection
    /// was made, a failure that tells a refusal from a timeout otherwise.
    /// The cursor then moves to the next endpoint that resolves. A finished
    /// probe stays as it is.
    pub fn record(self, outcome: &Outcome) -> (r: Self)
        ensures
            self.steps_to(*outcome, r),
            self.well_formed() ==> r.well_formed(),
    {
        if self.cursor >= self.addrs.len() {
            return self;
        }
        let addrs = self.addrs;
        let mut details = self.details;
        let cursor = self.cursor;
        let d = dialed_detail(cursor, addrs[cursor].as_str(), outcome);
        proof {
            lemma_views_push(details@, d);
        }
        details.push(d);
        let r = Connectivity { addrs, cursor: cursor + 1, details }.settle();
        proof {
            let names = self.endpoints();
            let before = detail_views(self.details@);
            let views = detail_views(r.details@);
            assert(r.details@.len() == views.len());
            if self.well_formed() {
                lemma_passed_over(names, cursor + 1);
                assert forall|i: int| 0 <= i < r.cursor implies (#[trigger] views[i]).item
                    == endpoint_item(i, names[i]) by {
                    if i < cursor {
                        assert(views[i] == before[i]);
                    } else if i == cursor {
                        assert(views[i] == d@);
                    } else {
                        assert(views[i] == unresolved_view(i, names[i]));
                    }
                }
            }
        }
        r
    }
}

/// No endpoint from `from` up to the next one that resolves does resolve.
proof fn lemma_passed_over(addrs: Seq<Seq<char>>, from: int)
    requires
        0 <= from,
    ensures
        from <= next_resolvable(addrs, from) || from > addrs.len(),
        forall|k: int|
            from <= k < next_resolvable(addrs, from) ==> !(resolve(#[trigger] addrs[k])
                is Resolved),
    decreases addrs.len() - from,
{
    if from < addrs.len() && !(resolve(addrs[from]) is Resolved) {
        lemma_passed_over(addrs, from + 1);
    }
}

/// A finished probe of at least one endpoint holds exactly one detail for
/// each endpoint: the detail at each index is the one of the endpoint at
/// that index.
pub proof fn lemma_one_detail_per_endpoint(probe: Connectivity)
    requires
        probe.well_formed(),
        probe.finished(),
        probe.endpoints().len() > 0,
    ensures
        probe.details@.len() == probe.endpoints().len(),
        forall|i: int|
            0 <= i < probe.endpoints().len() ==> (#[trigger] detail_views(probe.details@)[i]).item
                == endpoint_item(i, probe.endpoints()[i]),
{
}

} // verus!
