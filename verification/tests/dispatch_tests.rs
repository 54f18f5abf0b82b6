use ctd_core::capture::CrashData;
use ctd_core::dispatch::{build_report, InventoryCache, SubmissionGuard, GAME_ID};
use ctd_core::inventory::{LoadOrder, LoadOrderEntry};

#[test]
fn test_game_id_constant() {
    assert_eq!(GAME_ID, "cyberpunk-2077");
}

#[test]
fn test_build_report() {
    let crash_data = CrashData {
        exception_code: 0xC0000005,
        exception_address: 0x7FF712345678,
        stack_trace: "test stack trace".to_string(),
        faulting_module: Some("test.dll".to_string()),
    };

    let load_order = LoadOrder::new();
    let result = build_report(&crash_data, load_order, "unknown", None, None);

    assert!(result.is_ok());
    let report = result.unwrap();
    assert_eq!(report.game_id, GAME_ID);
    assert_eq!(report.exception_code, Some("0xC0000005".to_string()));
    assert_eq!(report.exception_address, Some("0x00007FF712345678".to_string()));
}

#[test]
fn build_report_rejects_empty_game_version() {
    let crash_data = CrashData {
        exception_code: 0xC0000005,
        exception_address: 0x1000,
        stack_trace: "trace".to_string(),
        faulting_module: None,
    };
    let result = build_report(&crash_data, LoadOrder::new(), "", None, None);
    assert_eq!(
        result.unwrap_err().message(),
        "Failed to build crash report: Validation error: game_version is required"
    );
}

#[test]
fn at_most_one_submission() {
    let mut guard = SubmissionGuard::new();
    let mut transport_attempts = 0u32;

    // Two overlapping submission requests: only the one that wins the
    // guard reaches the transport.
    if guard.begin_submission() {
        transport_attempts += 1;
    }
    if guard.begin_submission() {
        transport_attempts += 1;
    }
    assert_eq!(transport_attempts, 1);

    // After the first submission finishes, a new crash may submit again.
    guard.finish_submission();
    assert!(guard.begin_submission());
}

#[test]
fn test_get_cached_or_empty() {
    let cache = InventoryCache::new();
    let result = cache.get_cached_or_empty();
    assert_eq!(result.len(), 0);
}

#[test]
fn first_scan_wins_the_cache() {
    let mut cache = InventoryCache::new();
    let mut first = LoadOrder::new();
    first.push(LoadOrderEntry::new("one.esp"));
    assert_eq!(cache.scan_and_cache(first), 1);

    let mut second = LoadOrder::new();
    second.push(LoadOrderEntry::new("two.esp"));
    second.push(LoadOrderEntry::new("three.esp"));
    // The cache is already written: the second scan is ignored.
    assert_eq!(cache.scan_and_cache(second), 1);
    assert_eq!(cache.get_cached().len(), 1);
    assert_eq!(cache.get_cached_or_empty().len(), 1);
}
