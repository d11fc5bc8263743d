use std::time::Duration;
use stepstone::common::{
    count_with_status, durations_fit, nanos_sum, CheckDetail, CheckResult, CheckStatus,
};

#[test]
fn test_check_result_success() {
    let details = vec![
        CheckDetail::pass("Test 1".to_string(), "Passed".to_string(), None),
        CheckDetail::pass("Test 2".to_string(), "Passed".to_string(), None),
    ];

    let result = CheckResult::from_details(details);
    assert!(result.success);
    assert_eq!(result.details.len(), 2);
}

#[test]
fn test_check_result_failure() {
    let details = vec![
        CheckDetail::pass("Test 1".to_string(), "Passed".to_string(), None),
        CheckDetail::fail("Test 2".to_string(), "Failed".to_string(), None, None),
    ];

    let result = CheckResult::from_details(details);
    assert!(!result.success);
    assert_eq!(result.details.len(), 2);
}

#[test]
fn test_check_result_with_warnings() {
    let details = vec![
        CheckDetail::pass("Test 1".to_string(), "Passed".to_string(), None),
        CheckDetail::warning("Test 2".to_string(), "Warning".to_string(), None, None),
    ];

    let result = CheckResult::from_details(details);
    assert!(result.success); // Warnings don't fail the overall result
    assert_eq!(result.details.len(), 2);
}

#[test]
fn test_check_detail_creation() {
    let detail = CheckDetail::pass("Test".to_string(), "Message".to_string(), None);
    assert_eq!(detail.status, CheckStatus::Pass);
    assert_eq!(detail.item, "Test");
    assert_eq!(detail.message, "Message");
    assert!(detail.suggestion.is_none());

    let detail = CheckDetail::fail(
        "Test".to_string(),
        "Message".to_string(),
        None,
        Some("Fix it".to_string()),
    );
    assert_eq!(detail.status, CheckStatus::Fail);
    assert_eq!(detail.suggestion, Some("Fix it".to_string()));
}

#[test]
fn test_check_result_creation() {
    let success_detail = CheckDetail::pass(
        "Test Check".to_string(),
        "Check passed successfully".to_string(),
        Some(Duration::from_millis(100)),
    );

    assert_eq!(success_detail.status, CheckStatus::Pass);
    assert_eq!(success_detail.item, "Test Check");
    assert!(success_detail.message.contains("successfully"));
    assert!(success_detail.duration.is_some());
    assert!(success_detail.suggestion.is_none());

    let failure_detail = CheckDetail::fail(
        "Test Check".to_string(),
        "Check failed with error".to_string(),
        Some(Duration::from_millis(50)),
        Some("Please check the configuration".to_string()),
    );

    assert_eq!(failure_detail.status, CheckStatus::Fail);
    assert_eq!(failure_detail.item, "Test Check");
    assert!(failure_detail.message.contains("failed"));
    assert!(failure_detail.suggestion.is_some());
    assert!(failure_detail.suggestion.as_ref().unwrap().contains("configuration"));

    let check_result = CheckResult::from_details(vec![success_detail, failure_detail]);

    assert!(!check_result.success);
    assert_eq!(check_result.details.len(), 2);
    assert!(check_result.message.contains("1 passed") || check_result.message.contains("1 failed"));
}

fn pass(duration: Option<Duration>) -> CheckDetail {
    CheckDetail::pass("item".to_string(), "fine".to_string(), duration)
}

fn fail(duration: Option<Duration>) -> CheckDetail {
    CheckDetail::fail("item".to_string(), "broken".to_string(), duration, None)
}

fn warn(duration: Option<Duration>) -> CheckDetail {
    CheckDetail::warning("item".to_string(), "odd".to_string(), duration, None)
}

#[test]
fn success_is_exactly_the_absence_of_failures() {
    let statuses = [CheckStatus::Pass, CheckStatus::Fail, CheckStatus::Warning];
    for a in statuses {
        for b in statuses {
            for c in statuses {
                let details: Vec<CheckDetail> = [a, b, c]
                    .iter()
                    .map(|s| match s {
                        CheckStatus::Pass => pass(None),
                        CheckStatus::Fail => fail(None),
                        CheckStatus::Warning => warn(None),
                    })
                    .collect();
                let expected = details.iter().all(|d| d.status != CheckStatus::Fail);
                assert_eq!(CheckResult::from_details(details).success, expected);
            }
        }
    }
}

#[test]
fn an_empty_list_succeeds_with_nothing_passed() {
    let result = CheckResult::from_details(Vec::new());
    assert!(result.success);
    assert_eq!(result.message, "All checks passed (0 passed)");
    assert_eq!(result.total_duration, None);
    assert!(result.details.is_empty());
}

#[test]
fn the_three_summary_lines_name_the_counts() {
    let all_pass = CheckResult::from_details(vec![pass(None), pass(None), pass(None)]);
    assert_eq!(all_pass.message, "All checks passed (3 passed)");

    let with_warnings = CheckResult::from_details(vec![pass(None), warn(None), warn(None)]);
    assert_eq!(with_warnings.message, "Checks completed with warnings (1 passed, 2 warnings)");

    let with_failures =
        CheckResult::from_details(vec![pass(None), warn(None), fail(None), fail(None)]);
    assert_eq!(with_failures.message, "Some checks failed (1 passed, 1 warnings, 2 failed)");

    let many: Vec<CheckDetail> = (0..12).map(|_| pass(None)).collect();
    assert_eq!(CheckResult::from_details(many).message, "All checks passed (12 passed)");
}

#[test]
fn total_duration_sums_present_durations_only() {
    let details = vec![
        pass(Some(Duration::from_millis(100))),
        pass(None),
        fail(Some(Duration::from_millis(50))),
        warn(Some(Duration::new(2, 7))),
    ];
    let result = CheckResult::from_details(details);
    assert_eq!(result.total_duration, Some(Duration::new(2, 150_000_007)));
}

#[test]
fn total_duration_is_absent_without_any_duration() {
    let result = CheckResult::from_details(vec![pass(None), fail(None)]);
    assert_eq!(result.total_duration, None);
}

#[test]
fn a_zero_duration_is_present() {
    let result = CheckResult::from_details(vec![pass(None), pass(Some(Duration::ZERO))]);
    assert_eq!(result.total_duration, Some(Duration::ZERO));
}

#[test]
fn explicit_verdicts_bypass_the_derivation() {
    let failed = vec![fail(Some(Duration::from_secs(1)))];
    let result = CheckResult::success("known to be fine".to_string(), failed);
    assert!(result.success);
    assert_eq!(result.message, "known to be fine");
    assert_eq!(result.total_duration, Some(Duration::from_secs(1)));

    let passed = vec![pass(None)];
    let result = CheckResult::failure("known to be broken".to_string(), passed);
    assert!(!result.success);
    assert_eq!(result.message, "known to be broken");
    assert_eq!(result.total_duration, None);
    assert_eq!(result.details.len(), 1);
}

#[test]
fn counts_and_labels() {
    let details = vec![pass(None), warn(None), fail(None), pass(None)];
    assert_eq!(count_with_status(&details, CheckStatus::Pass), 2);
    assert_eq!(count_with_status(&details, CheckStatus::Warning), 1);
    assert_eq!(count_with_status(&details, CheckStatus::Fail), 1);
    let result = CheckResult::from_details(details);
    assert_eq!(result.count(CheckStatus::Pass), 2);
    assert_eq!(result.overall_label(), "FAIL");
    assert_eq!(CheckResult::from_details(vec![warn(None)]).overall_label(), "PASS");
    assert_eq!(CheckStatus::Pass.label(), "PASS");
    assert_eq!(CheckStatus::Fail.label(), "FAIL");
    assert_eq!(CheckStatus::Warning.label(), "WARNING");
    assert!(CheckStatus::Pass.is_success());
    assert!(CheckStatus::Warning.is_success());
    assert!(!CheckStatus::Fail.is_success());
}

#[test]
fn durations_that_cannot_be_added_up_are_told_apart() {
    let fits = vec![pass(Some(Duration::MAX))];
    assert!(durations_fit(&fits));
    assert_eq!(nanos_sum(&fits), Some(Duration::MAX.as_nanos()));

    let too_long = vec![pass(Some(Duration::MAX)), pass(None), pass(Some(Duration::from_nanos(1)))];
    assert!(!durations_fit(&too_long));
    assert_eq!(nanos_sum(&too_long), Some(Duration::MAX.as_nanos() + 1));

    assert_eq!(nanos_sum(&vec![pass(Some(Duration::from_micros(3)))]), Some(3_000));
}

#[test]
fn a_reduction_is_tried_only_where_the_durations_fit() {
    let fits = vec![pass(Some(Duration::from_secs(1))), fail(None)];
    let result = CheckResult::try_from_details(fits).unwrap();
    assert!(!result.success);
    assert_eq!(result.total_duration, Some(Duration::from_secs(1)));

    let too_long = vec![pass(Some(Duration::MAX)), warn(Some(Duration::MAX))];
    let rest = CheckResult::try_from_details(too_long).unwrap_err();
    assert_eq!(rest.len(), 2);
    assert_eq!(rest[1].status, CheckStatus::Warning);
}
