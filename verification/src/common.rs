//! The result model: item-level outcomes and their reduction to one verdict.

use crate::report::warning;
use crate::text::{decimal, decimal_text, opt_text, text};
use crate::time::{duration_nanos, max_duration_nanos, opt_nanos};
use std::time::Duration;
use vstd::prelude::*;
use vstd::string::StringExecFns;

verus! {

/// Status of a check item.
#[derive(Debug, Clone, Copy, PartialEq, Eq, Structural)]
pub enum CheckStatus {
    /// Check passed successfully
    Pass,
    /// Check failed
    Fail,
    /// Check passed with warnings
    Warning,
}

/// Detailed result for a specific check item.
#[derive(Debug, Clone)]
pub struct CheckDetail {
    /// Name of the check item
    pub item: String,
    /// Status of the check
    pub status: CheckStatus,
    /// Descriptive message about the result
    pub message: String,
    /// Duration of this specific check
    pub duration: Option<Duration>,
    /// Optional suggestion for fixing issues
    pub suggestion: Option<String>,
}

/// What a [`CheckDetail`] says: its texts as character sequences and its
/// duration in nanoseconds.
pub struct DetailView {
    pub item: Seq<char>,
    pub status: CheckStatus,
    pub message: Seq<char>,
    pub duration: Option<nat>,
    pub suggestion: Option<Seq<char>>,
}

impl View for CheckDetail {
    type V = DetailView;

    open spec fn view(&self) -> DetailView {
        DetailView {
            item: self.item@,
            status: self.status,
            message: self.message@,
            duration: opt_nanos(self.duration),
            suggestion: opt_text(self.suggestion),
        }
    }
}

/// Result of a component check.
#[derive(Debug, Clone)]
pub struct CheckResult {
    /// Whether the overall check was successful
    pub success: bool,
    /// Overall message describing the result
    pub message: String,
    /// Detailed results for individual check items
    pub details: Vec<CheckDetail>,
    /// Total duration of all checks
    pub total_duration: Option<Duration>,
}

/// The views of a list of details, item by item.
pub open spec fn detail_views(details: Seq<CheckDetail>) -> Seq<DetailView> {
    details.map_values(|d: CheckDetail| d@)
}

/// The predicate "has status `status`".
pub open spec fn has_status(status: CheckStatus) -> spec_fn(CheckDetail) -> bool {
    |d: CheckDetail| d.status == status
}

/// How many of `details` have status `status`.
pub open spec fn count_status(details: Seq<CheckDetail>, status: CheckStatus) -> nat {
    details.filter(has_status(status)).len()
}

/// No item of `details` failed.
pub open spec fn no_failures(details: Seq<CheckDetail>) -> bool {
    forall|i: int| 0 <= i < details.len() ==> (#[trigger] details[i]).status != CheckStatus::Fail
}

/// Some item of `details` recorded a duration.
pub open spec fn has_duration(details: Seq<CheckDetail>) -> bool {
    exists|i: int| 0 <= i < details.len() && (#[trigger] details[i]).duration is Some
}

/// What one item adds to the total: its duration in nanoseconds if it
/// recorded one, nothing otherwise.
pub open spec fn own_nanos(d: CheckDetail) -> nat {
    match d.duration {
        Some(t) => duration_nanos(t),
        None => 0,
    }
}

/// The sum, in nanoseconds, of the durations that `details` recorded.
pub open spec fn total_nanos(details: Seq<CheckDetail>) -> nat
    decreases details.len(),
{
    if details.len() == 0 {
        0
    } else {
        total_nanos(details.drop_last()) + own_nanos(details.last())
    }
}

/// The total duration of `details`: absent if no item recorded one, else the
/// sum of those recorded.
pub open spec fn total_of(details: Seq<CheckDetail>) -> Option<nat> {
    if has_duration(details) {
        Some(total_nanos(details))
    } else {
        None
    }
}

/// The summary line for the given counts of passed, warning and failed items.
pub open spec fn summary_text(passed: nat, warnings: nat, failed: nat) -> Seq<char> {
    if failed > 0 {
        "Some checks failed ("@ + decimal_text(passed) + " passed, "@ + decimal_text(warnings)
            + " warnings, "@ + decimal_text(failed) + " failed)"@
    } else if warnings > 0 {
        "Checks completed with warnings ("@ + decimal_text(passed) + " passed, "@ + decimal_text(
            warnings,
        ) + " warnings)"@
    } else {
        "All checks passed ("@ + decimal_text(passed) + " passed)"@
    }
}

/// The summary line that `details` reduce to.
pub open spec fn summary_of(details: Seq<CheckDetail>) -> Seq<char> {
    summary_text(
        count_status(details, CheckStatus::Pass),
        count_status(details, CheckStatus::Warning),
        count_status(details, CheckStatus::Fail),
    )
}

/// A prefix of a list never sums to more than the list.
proof fn lemma_total_nanos_prefix(details: Seq<CheckDetail>, n: int)
    requires
        0 <= n <= details.len(),
    ensures
        total_nanos(details.take(n)) <= total_nanos(details),
    decreases details.len() - n,
{
    if n == details.len() {
        assert(details.take(n) =~= details);
    } else {
        lemma_total_nanos_prefix(details, n + 1);
        assert(details.take(n + 1).drop_last() =~= details.take(n));
    }
}

/// The sum over a concatenation is the sum of the sums.
pub proof fn lemma_total_nanos_concat(a: Seq<CheckDetail>, b: Seq<CheckDetail>)
    ensures
        total_nanos(a + b) == total_nanos(a) + total_nanos(b),
    decreases b.len(),
{
    if b.len() > 0 {
        lemma_total_nanos_concat(a, b.drop_last());
        assert((a + b).drop_last() =~= a + b.drop_last());
    }
}

/// No item failed exactly when the count of failed items is zero.
pub proof fn lemma_no_failures_count(details: Seq<CheckDetail>)
    ensures
        no_failures(details) <==> count_status(details, CheckStatus::Fail) == 0,
    decreases details.len(),
{
    let p = has_status(CheckStatus::Fail);
    if details.len() == 0 {
        assert(details.filter(p).len() <= details.len()) by {
            details.lemma_filter_len(p);
        }
    } else {
        let front = details.drop_last();
        lemma_no_failures_count(front);
        assert(front.push(details.last()) =~= details);
        front.lemma_filter_len_push(p, details.last());
    }
}

impl CheckStatus {
    /// Whether an item with this status counts toward overall success.
    pub open spec fn counts_as_success(self) -> bool {
        self != CheckStatus::Fail
    }

    /// The name of the status in reports.
    pub open spec fn label_text(self) -> Seq<char> {
        match self {
            CheckStatus::Pass => "PASS"@,
            CheckStatus::Fail => "FAIL"@,
            CheckStatus::Warning => "WARNING"@,
        }
    }

    /// Pass and Warning count toward overall success; Fail does not.
    pub fn is_success(&self) -> (r: bool)
        ensures
            r == self.counts_as_success(),
    {
        match self {
            CheckStatus::Fail => false,
            _ => true,
        }
    }

    /// `PASS`, `FAIL` or `WARNING`.
    pub fn label(&self) -> (r: &'static str)
        ensures
            r@ == self.label_text(),
    {
        match self {
            CheckStatus::Pass => "PASS",
            CheckStatus::Fail => "FAIL",
            CheckStatus::Warning => "WARNING",
        }
    }
}

impl CheckDetail {
    /// Create a new passing check detail
    pub fn pass(item: String, message: String, duration: Option<Duration>) -> (d: Self)
        ensures
            d == (CheckDetail {
                item,
                status: CheckStatus::Pass,
                message,
                duration,
                suggestion: None,
            }),
    {
        Self { item, status: CheckStatus::Pass, message, duration, suggestion: None }
    }

    /// Create a new failing check detail
    pub fn fail(
        item: String,
        message: String,
        duration: Option<Duration>,
        suggestion: Option<String>,
    ) -> (d: Self)
        ensures
            d == (CheckDetail { item, status: CheckStatus::Fail, message, duration, suggestion }),
    {
        Self { item, status: CheckStatus::Fail, message, duration, suggestion }
    }

    /// Create a new warning check detail
    pub fn warning(
        item: String,
        message: String,
        duration: Option<Duration>,
        suggestion: Option<String>,
    ) -> (d: Self)
        ensures
            d == (CheckDetail {
                item,
                status: CheckStatus::Warning,
                message,
                duration,
                suggestion,
            }),
    {
        Self { item, status: CheckStatus::Warning, message, duration, suggestion }
    }
}

/// The length of the longest `Duration`, in nanoseconds.
pub const MAX_DURATION_NANOS: u128 = 18_446_744_073_709_551_615_999_999_999;

/// The sum, in nanoseconds, of the durations that `details` recorded; `None`
/// where that sum is beyond `u128`.
pub fn nanos_sum(details: &Vec<CheckDetail>) -> (r: Option<u128>)
    ensures
        match r {
            Some(n) => n == total_nanos(details@),
            None => total_nanos(details@) > u128::MAX,
        },
{
    let mut sum: u128 = 0;
    let mut i: usize = 0;
    while i < details.len()
        invariant
            i <= details.len(),
            sum == total_nanos(details@.take(i as int)),
        decreases details.len() - i,
    {
        proof {
            assert(details@.take(i + 1).drop_last() =~= details@.take(i as int));
            lemma_total_nanos_prefix(details@, i + 1);
        }
        if let Some(d) = details[i].duration {
            match sum.checked_add(d.as_nanos()) {
                Some(next) => {
                    sum = next;
                },
                None => {
                    return None;
                },
            }
        }
        i += 1;
    }
    proof {
        assert(details@.take(details@.len() as int) =~= details@);
    }
    Some(sum)
}

/// Whether the durations of `details` can be added up: their sum is no
/// longer than the longest `Duration`.
pub fn durations_fit(details: &Vec<CheckDetail>) -> (r: bool)
    ensures
        r == (total_nanos(details@) <= max_duration_nanos()),
{
    match nanos_sum(details) {
        Some(n) => n <= MAX_DURATION_NANOS,
        None => false,
    }
}

/// Whether the durations of `first` and `second` together can be added up.
pub fn durations_fit_both(first: &Vec<CheckDetail>, second: &Vec<CheckDetail>) -> (r: bool)
    ensures
        r == (total_nanos(first@ + second@) <= max_duration_nanos()),
{
    proof {
        lemma_total_nanos_concat(first@, second@);
    }
    match (nanos_sum(first), nanos_sum(second)) {
        (Some(a), Some(b)) => match a.checked_add(b) {
            Some(n) => n <= MAX_DURATION_NANOS,
            None => false,
        },
        _ => false,
    }
}

/// Adds up the durations that `details` recorded.
fn sum_durations(details: &Vec<CheckDetail>) -> (total: Option<Duration>)
    requires
        total_nanos(details@) <= max_duration_nanos(),
    ensures
        opt_nanos(total) == total_of(details@),
{
    let mut total: Option<Duration> = None;
    let mut i: usize = 0;
    while i < details.len()
        invariant
            i <= details.len(),
            total_nanos(details@) <= max_duration_nanos(),
            opt_nanos(total) == total_of(details@.take(i as int)),
        decreases details.len() - i,
    {
        let ghost before = details@.take(i as int);
        let ghost after = details@.take(i + 1);
        proof {
            assert(after.drop_last() =~= before);
            lemma_total_nanos_prefix(details@, i + 1);
            if has_duration(before) {
                let j = choose|j: int|
                    0 <= j < before.len() && (#[trigger] before[j]).duration is Some;
                assert(after[j] == before[j]);
            }
            if has_duration(after) && details@[i as int].duration is None {
                let j = choose|j: int|
                    0 <= j < after.len() && (#[trigger] after[j]).duration is Some;
                assert(before[j] == after[j]);
            }
        }
        if let Some(d) = details[i].duration {
            total = match total {
                Some(t) => t.checked_add(d),
                None => {
                    proof {
                        lemma_zero_without_duration(before);
                    }
                    Some(d)
                },
            };
        }
        i += 1;
    }
    proof {
        assert(details@.take(details@.len() as int) =~= details@);
    }
    total
}

/// A list in which no item recorded a duration sums to nothing.
proof fn lemma_zero_without_duration(details: Seq<CheckDetail>)
    requires
        !has_duration(details),
    ensures
        total_nanos(details) == 0,
    decreases details.len(),
{
    if details.len() > 0 {
        let front = details.drop_last();
        lemma_zero_without_duration(front);
    }
}

/// Counts the items of `details` that have status `status`.
pub fn count_with_status(details: &Vec<CheckDetail>, status: CheckStatus) -> (n: usize)
    ensures
        n == count_status(details@, status),
{
    let mut n: usize = 0;
    let mut i: usize = 0;
    while i < details.len()
        invariant
            i <= details.len(),
            n <= i,
            n == count_status(details@.take(i as int), status),
        decreases details.len() - i,
    {
        proof {
            assert(details@.take(i + 1) =~= details@.take(i as int).push(details@[i as int]));
            details@.take(i as int).lemma_filter_len_push(has_status(status), details@[i as int]);
        }
        if details[i].status == status {
            n += 1;
        }
        i += 1;
    }
    proof {
        assert(details@.take(details@.len() as int) =~= details@);
    }
    n
}

/// Writes the summary line for the given counts.
fn summary_line(passed: usize, warnings: usize, failed: usize) -> (s: String)
    ensures
        s@ == summary_text(passed as nat, warnings as nat, failed as nat),
{
    if failed > 0 {
        let mut s = text("Some checks failed (");
        s.append(decimal(passed as u128).as_str());
        s.append(" passed, ");
        s.append(decimal(warnings as u128).as_str());
        s.append(" warnings, ");
        s.append(decimal(failed as u128).as_str());
        s.append(" failed)");
        s
    } else if warnings > 0 {
        let mut s = text("Checks completed with warnings (");
        s.append(decimal(passed as u128).as_str());
        s.append(" passed, ");
        s.append(decimal(warnings as u128).as_str());
        s.append(" warnings)");
        s
    } else {
        let mut s = text("All checks passed (");
        s.append(decimal(passed as u128).as_str());
        s.append(" passed)");
        s
    }
}

impl CheckResult {
    /// The total duration is absent if no item recorded a duration, and else
    /// the sum of the durations recorded.
    pub open spec fn well_formed(&self) -> bool {
        opt_nanos(self.total_duration) == total_of(self.details@)
    }

    /// This result is the reduction of `details`: it holds them, it succeeds
    /// exactly when none of them failed, its message names their counts by
    /// status, and its total duration is theirs.
    pub open spec fn reduces(&self, details: Seq<CheckDetail>) -> bool {
        &&& self.details@ == details
        &&& self.success == no_failures(details)
        &&& self.message@ == summary_of(details)
        &&& self.well_formed()
    }

    /// Create a new successful check result
    pub fn success(message: String, details: Vec<CheckDetail>) -> (r: Self)
        requires
            total_nanos(details@) <= max_duration_nanos(),
        ensures
            r.success,
            r.message == message,
            r.details == details,
            r.well_formed(),
    {
        let total_duration = sum_durations(&details);
        Self { success: true, message, details, total_duration }
    }

    /// Create a new failed check result
    pub fn failure(message: String, details: Vec<CheckDetail>) -> (r: Self)
        requires
            total_nanos(details@) <= max_duration_nanos(),
        ensures
            !r.success,
            r.message == message,
            r.details == details,
            r.well_formed(),
    {
        let total_duration = sum_durations(&details);
        Self { success: false, message, details, total_duration }
    }

    /// Create a mixed result based on the details: it succeeds exactly when
    /// no item failed, and its message names the counts by status.
    pub fn from_details(details: Vec<CheckDetail>) -> (r: Self)
        requires
            total_nanos(details@) <= max_duration_nanos(),
        ensures
            r.reduces(details@),
            r.details == details,
    {
        let passed = count_with_status(&details, CheckStatus::Pass);
        let warnings = count_with_status(&details, CheckStatus::Warning);
        let failed = count_with_status(&details, CheckStatus::Fail);
        proof {
            lemma_no_failures_count(details@);
        }
        let message = summary_line(passed, warnings, failed);
        let total_duration = sum_durations(&details);
        Self { success: failed == 0, message, details, total_duration }
    }

    /// The reduction of `details`, or `details` as they are where their
    /// durations cannot be added up.
    pub fn try_from_details(details: Vec<CheckDetail>) -> (r: Result<Self, Vec<CheckDetail>>)
        ensures
            match r {
                Ok(result) => total_nanos(details@) <= max_duration_nanos() && result.reduces(
                    details@,
                ) && result.details == details,
                Err(rest) => total_nanos(details@) > max_duration_nanos() && rest == details,
            },
    {
        if durations_fit(&details) {
            Ok(Self::from_details(details))
        } else {
            Err(details)
        }
    }

    /// `PASS` for a successful result, `FAIL` otherwise.
    pub fn overall_label(&self) -> (r: &'static str)
        ensures
            r@ == if self.success {
                "PASS"@
            } else {
                "FAIL"@
            },
    {
        if self.success {
            "PASS"
        } else {
            "FAIL"
        }
    }

    /// How many items have status `status`.
    pub fn count(&self, status: CheckStatus) -> (n: usize)
        ensures
            n == count_status(self.details@, status),
    {
        count_with_status(&self.details, status)
    }
}

} // verus!
