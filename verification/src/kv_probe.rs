//! The verifier of a coordination store: connect, write a probe key, read it
//! back, delete it.
//!
//! The store may take a moment to show what was written. The read is
//! therefore tried up to three times, with a short pause between tries, and
//! fails only when the last try does not return the bytes written.

use crate::common::{detail_views, CheckDetail, CheckStatus, DetailView};
use crate::config::MetasrvConfig;
use crate::probe::{Action, ActionView, Outcome, Payload, PayloadView, Reply, Store};
use crate::report::{
    fail_view, failing, fault, fault_text, lemma_views_push, pass_view, passing, warning,
    warning_view,
};
use crate::text::{
    contains_text, copy_texts, decimal, decimal_text, headed, lemma_contains_infix, opt_text,
    same_bytes, setting_or, text, text_or, texts,
};
use crate::time::duration_nanos;
use vstd::prelude::*;
use vstd::string::StringExecFns;

verus! {

/// How often the read of the probe key is tried.
pub const GET_ATTEMPTS: u8 = 3;

/// The pause between two tries of the read, in milliseconds.
pub const RETRY_PAUSE_MILLIS: u64 = 100;

/// The timeout of each request to the coordination store, in seconds.
pub const KV_TIMEOUT_SECS: u64 = 10;

/// The bytes written under the probe key: `stepstone_test_value`.
pub open spec fn probe_value() -> Seq<u8> {
    seq![
        115u8, 116u8, 101u8, 112u8, 115u8, 116u8, 111u8, 110u8, 101u8, 95u8, 116u8, 101u8, 115u8,
        116u8, 95u8, 118u8, 97u8, 108u8, 117u8, 101u8,
    ]
}

/// The probe key of the run `run_id` under the key prefix `prefix`.
pub open spec fn probe_key(prefix: Seq<char>, run_id: Seq<char>) -> Seq<char> {
    prefix + "__stepstone_test_"@ + run_id
}

/// A list of texts as the list is shown for debugging: what formatting a
/// `Vec<String>` with `{:?}` gives.
pub uninterp spec fn list_debug_text(list: Seq<Seq<char>>) -> Seq<char>;

/// Shows a list of strings as `format!("{:?}", list)` does: in square
/// brackets, each string quoted and escaped, with commas between.
#[verifier::external_body]
fn list_debug(list: &Vec<String>) -> (r: String)
    ensures
        r@ == list_debug_text(texts(list@)),
{
    format!("{:?}", list)
}

/// The detail for the connection to the store.
pub open spec fn connect_view(endpoints: Seq<Seq<char>>, outcome: Outcome) -> DetailView {
    let elapsed = Some(duration_nanos(outcome.elapsed));
    if outcome.reply.succeeded() {
        pass_view(
            "Etcd Connection"@,
            "Successfully connected to etcd endpoints: "@ + list_debug_text(endpoints),
            elapsed,
        )
    } else {
        fail_view(
            "Etcd Connection"@,
            "Failed to connect to etcd: "@ + fault_text(outcome.reply),
            elapsed,
            "Check etcd service status and network connectivity"@,
        )
    }
}

/// The detail for the write of the probe key.
pub open spec fn put_view(reply: Reply) -> DetailView {
    if reply.succeeded() {
        pass_view("Etcd PUT Operation"@, "PUT operation successful"@, None)
    } else {
        fail_view(
            "Etcd PUT Operation"@,
            "PUT operation failed: "@ + fault_text(reply),
            None,
            "Check etcd connectivity and permissions"@,
        )
    }
}

/// The read returned the bytes that were written.
pub open spec fn read_matches(reply: Reply) -> bool {
    reply matches Reply::Data(bytes) && bytes@ == probe_value()
}

/// The detail for a read that returned the bytes written.
pub open spec fn get_passed_view() -> DetailView {
    pass_view("Etcd GET Operation"@, "GET operation successful and data matches"@, None)
}

/// The detail for a read that did not return the bytes written at any of
/// its tries, the last of which ended with `reply`. It names the number of
/// tries.
pub open spec fn get_exhausted_view(reply: Reply) -> DetailView {
    let tries = " after "@ + decimal_text(GET_ATTEMPTS as nat) + " attempts"@;
    match reply {
        Reply::Data(_) => fail_view(
            "Etcd GET Operation"@,
            "GET operation returned incorrect data"@ + tries,
            None,
            "Check etcd data consistency"@,
        ),
        Reply::Failed { .. } | Reply::TimedOut => fail_view(
            "Etcd GET Operation"@,
            "GET operation failed"@ + tries + ": "@ + fault_text(reply),
            None,
            "Check etcd connectivity and permissions"@,
        ),
        _ => fail_view(
            "Etcd GET Operation"@,
            "GET operation returned no data"@ + tries,
            None,
            "Check etcd connectivity and data persistence"@,
        ),
    }
}

/// The detail for the deletion of the probe key. A failure to clean up is a
/// warning only.
pub open spec fn delete_view(reply: Reply) -> DetailView {
    if reply.succeeded() {
        pass_view("Etcd DELETE Operation"@, "DELETE operation successful"@, None)
    } else {
        warning_view(
            "Etcd DELETE Operation"@,
            "DELETE operation failed: "@ + fault_text(reply),
            None,
            "Check etcd permissions"@,
        )
    }
}

/// The bytes written under the probe key.
pub fn probe_value_bytes() -> (data: Vec<u8>)
    ensures
        data@ == probe_value(),
{
    let data: Vec<u8> = vec![
        115u8, 116u8, 101u8, 112u8, 115u8, 116u8, 111u8, 110u8, 101u8, 95u8, 116u8, 101u8, 115u8,
        116u8, 95u8, 118u8, 97u8, 108u8, 117u8, 101u8,
    ];
    data
}

/// Whether the read returned the bytes that were written.
pub fn is_match(reply: &Reply) -> (r: bool)
    ensures
        r == read_matches(*reply),
{
    match reply {
        Reply::Data(bytes) => same_bytes(bytes, &probe_value_bytes()),
        _ => false,
    }
}

/// The detail for the connection to the store.
pub fn connect_detail(endpoints: &Vec<String>, outcome: &Outcome) -> (d: CheckDetail)
    ensures
        d@ == connect_view(texts(endpoints@), *outcome),
{
    if outcome.reply.is_success() {
        passing(
            text("Etcd Connection"),
            headed("Successfully connected to etcd endpoints: ", list_debug(endpoints).as_str()),
            Some(outcome.elapsed),
        )
    } else {
        failing(
            text("Etcd Connection"),
            headed("Failed to connect to etcd: ", fault(&outcome.reply).as_str()),
            Some(outcome.elapsed),
            "Check etcd service status and network connectivity",
        )
    }
}

/// The detail for the write of the probe key.
pub fn put_detail(reply: &Reply) -> (d: CheckDetail)
    ensures
        d@ == put_view(*reply),
{
    if reply.is_success() {
        passing(text("Etcd PUT Operation"), text("PUT operation successful"), None)
    } else {
        failing(
            text("Etcd PUT Operation"),
            headed("PUT operation failed: ", fault(reply).as_str()),
            None,
            "Check etcd connectivity and permissions",
        )
    }
}

/// Writes `head`, then ` after 3 attempts`.
fn after_tries(head: &str) -> (r: String)
    ensures
        r@ == head@ + (" after "@ + decimal_text(GET_ATTEMPTS as nat) + " attempts"@),
{
    let mut tries = text(" after ");
    tries.append(decimal(GET_ATTEMPTS as u128).as_str());
    tries.append(" attempts");
    headed(head, tries.as_str())
}

/// The detail for a read that did not return the bytes written at any of
/// its tries.
pub fn get_exhausted_detail(reply: &Reply) -> (d: CheckDetail)
    ensures
        d@ == get_exhausted_view(*reply),
{
    match reply {
        Reply::Data(_) => failing(
            text("Etcd GET Operation"),
            after_tries("GET operation returned incorrect data"),
            None,
            "Check etcd data consistency",
        ),
        Reply::Failed { .. } | Reply::TimedOut => {
            let mut message = after_tries("GET operation failed");
            message.append(": ");
            message.append(fault(reply).as_str());
            failing(
                text("Etcd GET Operation"),
                message,
                None,
                "Check etcd connectivity and permissions",
            )
        },
        _ => failing(
            text("Etcd GET Operation"),
            after_tries("GET operation returned no data"),
            None,
            "Check etcd connectivity and data persistence",
        ),
    }
}

/// The detail for the deletion of the probe key.
pub fn delete_detail(reply: &Reply) -> (d: CheckDetail)
    ensures
        d@ == delete_view(*reply),
{
    if reply.is_success() {
        passing(text("Etcd DELETE Operation"), text("DELETE operation successful"), None)
    } else {
        warning(
            text("Etcd DELETE Operation"),
            headed("DELETE operation failed: ", fault(reply).as_str()),
            None,
            "Check etcd permissions",
        )
    }
}

/// The step whose outcome the verifier waits for.
#[derive(Debug, Clone, Copy, PartialEq, Eq, Structural)]
pub enum KvPhase {
    /// The connection to the store.
    Connecting,
    /// The write of the probe key.
    Putting,
    /// The try of this number (counted from one) to read the probe key.
    Getting(u8),
    /// The pause after the try of this number.
    Pausing(u8),
    /// The deletion of the probe key.
    Deleting,
    /// Nothing: the verifier is finished.
    Done,
}

/// A verification of a coordination store under way.
#[derive(Debug)]
pub struct KvProbe {
    /// The endpoints of the store.
    pub endpoints: Vec<String>,
    /// The probe key.
    pub key: String,
    /// The step whose outcome is awaited.
    pub phase: KvPhase,
    /// The details found so far.
    pub details: Vec<CheckDetail>,
}

impl KvProbe {
    /// The phase after the awaited step ended with `reply`.
    ///
    /// A read that returns the bytes written ends the tries. Any other try
    /// but the last is followed by a pause and the next try. After the last
    /// try, as after a good read, the probe key is deleted.
    pub open spec fn next_phase(&self, reply: Reply) -> KvPhase {
        match self.phase {
            KvPhase::Connecting => if reply.succeeded() {
                KvPhase::Putting
            } else {
                KvPhase::Done
            },
            KvPhase::Putting => if reply.succeeded() {
                KvPhase::Getting(1)
            } else {
                KvPhase::Done
            },
            KvPhase::Getting(attempt) => if read_matches(reply) || attempt >= GET_ATTEMPTS {
                KvPhase::Deleting
            } else {
                KvPhase::Pausing(attempt)
            },
            KvPhase::Pausing(attempt) => if attempt < GET_ATTEMPTS {
                KvPhase::Getting((attempt + 1) as u8)
            } else {
                KvPhase::Deleting
            },
            KvPhase::Deleting => KvPhase::Done,
            KvPhase::Done => KvPhase::Done,
        }
    }

    /// What the awaited step reports when it ends with `outcome`. A try to
    /// read that is followed by another reports nothing.
    pub open spec fn reported(&self, outcome: Outcome) -> Seq<DetailView> {
        match self.phase {
            KvPhase::Connecting => seq![connect_view(texts(self.endpoints@), outcome)],
            KvPhase::Putting => seq![put_view(outcome.reply)],
            KvPhase::Getting(attempt) => if read_matches(outcome.reply) {
                seq![get_passed_view()]
            } else if attempt >= GET_ATTEMPTS {
                seq![get_exhausted_view(outcome.reply)]
            } else {
                Seq::empty()
            },
            KvPhase::Deleting => seq![delete_view(outcome.reply)],
            _ => Seq::empty(),
        }
    }

    /// What the verifier asks for in its phase.
    pub open spec fn pending_view(&self) -> ActionView {
        match self.phase {
            KvPhase::Connecting => ActionView::OpenCoordinationStore {
                endpoints: texts(self.endpoints@),
                timeout_secs: KV_TIMEOUT_SECS,
            },
            KvPhase::Putting => ActionView::Write {
                store: Store::Coordination,
                key: self.key@,
                payload: PayloadView::Bytes(probe_value()),
                timeout_secs: KV_TIMEOUT_SECS,
            },
            KvPhase::Getting(_) => ActionView::Read {
                store: Store::Coordination,
                key: self.key@,
                timeout_secs: KV_TIMEOUT_SECS,
            },
            KvPhase::Pausing(_) => ActionView::Pause { millis: RETRY_PAUSE_MILLIS },
            KvPhase::Deleting => ActionView::Delete {
                store: Store::Coordination,
                key: self.key@,
                timeout_secs: KV_TIMEOUT_SECS,
            },
            KvPhase::Done => ActionView::Finish,
        }
    }

    /// `next` is this verifier after the awaited step ended with `outcome`.
    pub open spec fn steps_to(&self, outcome: Outcome, next: KvProbe) -> bool {
        &&& next.endpoints == self.endpoints
        &&& next.key == self.key
        &&& next.phase == self.next_phase(outcome.reply)
        &&& detail_views(next.details@) == detail_views(self.details@) + self.reported(outcome)
        &&& self.phase == KvPhase::Done ==> next == *self
    }

    /// This verifier is the beginning of a verification of the store that
    /// `config` names, with a probe key of its own under the key prefix.
    pub open spec fn begins(&self, config: MetasrvConfig, run_id: Seq<char>) -> bool {
        &&& texts(self.endpoints@) == texts(config.store_addrs@)
        &&& self.key@ == probe_key(text_or(opt_text(config.store_key_prefix), ""@), run_id)
        &&& self.phase == KvPhase::Connecting
        &&& self.details@.len() == 0
    }

    /// Sets up the verification of the store that `config` names.
    pub fn begin(config: &MetasrvConfig, run_id: &str) -> (r: Self)
        ensures
            r.begins(*config, run_id@),
    {
        let mut key = setting_or(&config.store_key_prefix, "");
        key.append("__stepstone_test_");
        key.append(run_id);
        KvProbe {
            endpoints: copy_texts(&config.store_addrs),
            key,
            phase: KvPhase::Connecting,
            details: Vec::new(),
        }
    }

    /// Whether the verifier is finished.
    pub fn is_finished(&self) -> (r: bool)
        ensures
            r == (self.phase == KvPhase::Done),
    {
        match self.phase {
            KvPhase::Done => true,
            _ => false,
        }
    }

    /// The next request, or `Finish`.
    pub fn pending(&self) -> (a: Action)
        ensures
            a@ == self.pending_view(),
    {
        match self.phase {
            KvPhase::Connecting => Action::OpenCoordinationStore {
                endpoints: copy_texts(&self.endpoints),
                timeout_secs: KV_TIMEOUT_SECS,
            },
            KvPhase::Putting => Action::Write {
                store: Store::Coordination,
                key: self.key.clone(),
                payload: Payload::Bytes(probe_value_bytes()),
                timeout_secs: KV_TIMEOUT_SECS,
            },
            KvPhase::Getting(_) => Action::Read {
                store: Store::Coordination,
                key: self.key.clone(),
                timeout_secs: KV_TIMEOUT_SECS,
            },
            KvPhase::Pausing(_) => Action::Pause { millis: RETRY_PAUSE_MILLIS },
            KvPhase::Deleting => Action::Delete {
                store: Store::Coordination,
                key: self.key.clone(),
                timeout_secs: KV_TIMEOUT_SECS,
            },
            KvPhase::Done => Action::Finish,
        }
    }

    /// Takes in the outcome of the pending request.
    pub fn record(self, outcome: &Outcome) -> (r: Self)
        ensures
            self.steps_to(*outcome, r),
    {
        let ghost before = detail_views(self.details@);
        let KvProbe { endpoints, key, phase, details } = self;
        let mut details = details;
        let reply = &outcome.reply;
        let mut report: Option<CheckDetail> = None;
        let next = match phase {
            KvPhase::Connecting => {
                report = Some(connect_detail(&endpoints, outcome));
                if reply.is_success() {
                    KvPhase::Putting
                } else {
                    KvPhase::Done
                }
            },
            KvPhase::Putting => {
                report = Some(put_detail(reply));
                if reply.is_success() {
                    KvPhase::Getting(1)
                } else {
                    KvPhase::Done
                }
            },
            KvPhase::Getting(attempt) => {
                if is_match(reply) {
                    report = Some(
                        passing(
                            text("Etcd GET Operation"),
                            text("GET operation successful and data matches"),
                            None,
                        ),
                    );
                    KvPhase::Deleting
                } else if attempt >= GET_ATTEMPTS {
                    report = Some(get_exhausted_detail(reply));
                    KvPhase::Deleting
                } else {
                    KvPhase::Pausing(attempt)
                }
            },
            KvPhase::Pausing(attempt) => {
                if attempt < GET_ATTEMPTS {
                    KvPhase::Getting(attempt + 1)
                } else {
                    KvPhase::Deleting
                }
            },
            KvPhase::Deleting => {
                report = Some(delete_detail(reply));
                KvPhase::Done
            },
            KvPhase::Done => KvPhase::Done,
        };
        if let Some(d) = report {
            proof {
                lemma_views_push(details@, d);
                assert(before.push(d@) =~= before + seq![d@]);
            }
            details.push(d);
        }
        KvProbe { endpoints, key, phase: next, details }
    }
}

/// How many requests a verifier in `phase` may still make, at most.
pub open spec fn steps_left(phase: KvPhase) -> nat {
    match phase {
        KvPhase::Connecting => 9,
        KvPhase::Putting => 8,
        KvPhase::Getting(attempt) => if attempt <= GET_ATTEMPTS {
            (2 + 2 * (GET_ATTEMPTS - attempt)) as nat
        } else {
            2
        },
        KvPhase::Pausing(attempt) => if attempt < GET_ATTEMPTS {
            (1 + 2 * (GET_ATTEMPTS - attempt)) as nat
        } else {
            2
        },
        KvPhase::Deleting => 1,
        KvPhase::Done => 0,
    }
}

/// Every outcome brings a verifier that is not finished nearer to its end:
/// the read is tried three times at most.
pub proof fn lemma_kv_progress(probe: KvProbe, reply: Reply)
    requires
        probe.phase != KvPhase::Done,
    ensures
        steps_left(probe.next_phase(reply)) < steps_left(probe.phase),
{
}

/// The detail for a read that failed at all its tries is a failure whose
/// message holds the number of tries, `3`.
pub proof fn lemma_exhausted_names_tries(reply: Reply)
    ensures
        get_exhausted_view(reply).status == CheckStatus::Fail,
        contains_text(get_exhausted_view(reply).message, "3"@),
{
    reveal_strlit("3");
    let tail = " attempts"@;
    let message = get_exhausted_view(reply).message;
    match reply {
        Reply::Data(_) => {
            let head = "GET operation returned incorrect data"@ + " after "@;
            lemma_contains_infix(head, "3"@, tail);
            assert(head + "3"@ + tail =~= message);
        },
        Reply::Failed { .. } | Reply::TimedOut => {
            let head = "GET operation failed"@ + " after "@;
            let rest = tail + ": "@ + fault_text(reply);
            lemma_contains_infix(head, "3"@, rest);
            assert(head + "3"@ + rest =~= message);
        },
        _ => {
            let head = "GET operation returned no data"@ + " after "@;
            lemma_contains_infix(head, "3"@, tail);
            assert(head + "3"@ + tail =~= message);
        },
    }
}

/// A read that returns the bytes written passes at any try and is followed
/// by the deletion; a read that does not fails at the last try only, and is
/// then followed by the deletion as well.
pub proof fn lemma_read_retries(probe: KvProbe, outcome: Outcome, attempt: u8)
    requires
        probe.phase == KvPhase::Getting(attempt),
        1 <= attempt <= GET_ATTEMPTS,
    ensures
        read_matches(outcome.reply) ==> probe.reported(outcome) == seq![get_passed_view()]
            && probe.next_phase(outcome.reply) == KvPhase::Deleting,
        !read_matches(outcome.reply) && attempt < GET_ATTEMPTS ==> probe.reported(outcome).len()
            == 0 && probe.next_phase(outcome.reply) == KvPhase::Pausing(attempt),
        !read_matches(outcome.reply) && attempt == GET_ATTEMPTS ==> probe.reported(outcome)
            == seq![get_exhausted_view(outcome.reply)] && get_exhausted_view(
            outcome.reply,
        ).status == CheckStatus::Fail && probe.next_phase(outcome.reply)
            == KvPhase::Deleting,
{
}

/// Two tries that do not return the bytes written report nothing and lead,
/// each after a pause, to the third try. There a read that returns the
/// bytes passes, and one that does not fails with the detail that names the
/// number of tries. Either way the probe key is deleted next.
pub proof fn lemma_third_try_decides(
    first: KvProbe,
    second: KvProbe,
    third: KvProbe,
    tries: Seq<Outcome>,
    pauses: Seq<Outcome>,
)
    requires
        tries.len() == 3,
        pauses.len() == 2,
        first.phase == KvPhase::Getting(1),
        !read_matches(tries[0].reply),
        !read_matches(tries[1].reply),
        exists|paused: KvProbe|
            first.steps_to(tries[0], paused) && paused.steps_to(pauses[0], second),
        exists|paused: KvProbe|
            second.steps_to(tries[1], paused) && paused.steps_to(pauses[1], third),
    ensures
        second.phase == KvPhase::Getting(2),
        third.phase == KvPhase::Getting(3),
        detail_views(third.details@) == detail_views(first.details@),
        third.next_phase(tries[2].reply) == KvPhase::Deleting,
        third.reported(tries[2]) == if read_matches(tries[2].reply) {
            seq![get_passed_view()]
        } else {
            seq![get_exhausted_view(tries[2].reply)]
        },
{
    let paused_once = choose|paused: KvProbe|
        first.steps_to(tries[0], paused) && paused.steps_to(pauses[0], second);
    let paused_twice = choose|paused: KvProbe|
        second.steps_to(tries[1], paused) && paused.steps_to(pauses[1], third);
    assert(paused_once.phase == KvPhase::Pausing(1));
    assert(paused_twice.phase == KvPhase::Pausing(2));
    assert(detail_views(third.details@) =~= detail_views(first.details@));
}

} // verus!
