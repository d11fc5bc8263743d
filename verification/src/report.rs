//! Building the details that the verifiers report.

use crate::common::{detail_views, CheckDetail, CheckStatus, DetailView};
use crate::probe::Reply;
use crate::text::text;
use crate::time::opt_nanos;
use std::time::Duration;
use vstd::prelude::*;

verus! {

/// What went wrong, in words: the error's text, or that time ran out.
pub open spec fn fault_text(reply: Reply) -> Seq<char> {
    match reply {
        Reply::Failed { text, .. } => text@,
        _ => "operation timed out"@,
    }
}

/// A passing detail.
pub open spec fn pass_view(
    item: Seq<char>,
    message: Seq<char>,
    duration: Option<nat>,
) -> DetailView {
    DetailView { item, status: CheckStatus::Pass, message, duration, suggestion: None }
}

/// A failing detail with a suggestion.
pub open spec fn fail_view(
    item: Seq<char>,
    message: Seq<char>,
    duration: Option<nat>,
    suggestion: Seq<char>,
) -> DetailView {
    DetailView { item, status: CheckStatus::Fail, message, duration, suggestion: Some(suggestion) }
}

/// A warning detail with a suggestion.
pub open spec fn warning_view(
    item: Seq<char>,
    message: Seq<char>,
    duration: Option<nat>,
    suggestion: Seq<char>,
) -> DetailView {
    DetailView {
        item,
        status: CheckStatus::Warning,
        message,
        duration,
        suggestion: Some(suggestion),
    }
}

/// What went wrong, in words.
pub fn fault(reply: &Reply) -> (r: String)
    ensures
        r@ == fault_text(*reply),
{
    match reply {
        Reply::Failed { text: error, .. } => error.clone(),
        _ => text("operation timed out"),
    }
}

/// A passing detail.
pub fn passing(item: String, message: String, duration: Option<Duration>) -> (d: CheckDetail)
    ensures
        d@ == pass_view(item@, message@, opt_nanos(duration)),
{
    CheckDetail::pass(item, message, duration)
}

/// A failing detail with a suggestion.
pub fn failing(item: String, message: String, duration: Option<Duration>, suggestion: &str) -> (d:
    CheckDetail)
    ensures
        d@ == fail_view(item@, message@, opt_nanos(duration), suggestion@),
{
    CheckDetail::fail(item, message, duration, Some(text(suggestion)))
}

/// A warning detail with a suggestion.
pub fn warning(item: String, message: String, duration: Option<Duration>, suggestion: &str) -> (d:
    CheckDetail)
    ensures
        d@ == warning_view(item@, message@, opt_nanos(duration), suggestion@),
{
    CheckDetail::warning(item, message, duration, Some(text(suggestion)))
}

/// Appending one item appends its view.
pub proof fn lemma_views_push(details: Seq<CheckDetail>, d: CheckDetail)
    ensures
        detail_views(details.push(d)) == detail_views(details).push(d@),
{
}

} // verus!
