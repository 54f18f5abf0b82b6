use ctd_core::capture::CrashHandlerError;
use ctd_core::dispatch::ReportError;
use ctd_core::fingerprint::HashError;
use ctd_core::inventory::LoadOrder;
use ctd_core::report::CreateCrashReport;
use ctd_core::scanner::ModScannerError;
use ctd_core::version::VersionError;
use ctd_core::CtdError;

fn builder_with_required() -> ctd_core::report::CrashReportBuilder {
    CreateCrashReport::builder()
        .game_id("skyrim-se")
        .game_version("1.0")
        .stack_trace("trace")
        .load_order(LoadOrder::new())
        .crashed_at(1000)
}

#[test]
fn stack_trace_length_bound() {
    let long_trace = "t".repeat(100_001);
    let result = CreateCrashReport::builder()
        .game_id("skyrim-se")
        .game_version("1.0")
        .stack_trace(&long_trace)
        .load_order(LoadOrder::new())
        .crashed_at(1000)
        .build();
    assert_eq!(
        result.unwrap_err().message(),
        "Validation error: stack_trace exceeds 100000 characters"
    );
}

#[test]
fn exception_code_length_bound() {
    let result = builder_with_required().exception_code(&"c".repeat(51)).build();
    assert_eq!(
        result.unwrap_err().message(),
        "Validation error: exception_code exceeds 50 characters"
    );
}

#[test]
fn exception_address_length_bound() {
    let result = builder_with_required().exception_address(&"a".repeat(51)).build();
    assert_eq!(
        result.unwrap_err().message(),
        "Validation error: exception_address exceeds 50 characters"
    );
}

#[test]
fn faulting_module_length_bound() {
    let result = builder_with_required().faulting_module(&"m".repeat(256)).build();
    assert_eq!(
        result.unwrap_err().message(),
        "Validation error: faulting_module exceeds 255 characters"
    );
}

#[test]
fn script_extender_version_length_bound() {
    let result = builder_with_required().script_extender_version(&"v".repeat(51)).build();
    assert_eq!(
        result.unwrap_err().message(),
        "Validation error: script_extender_version exceeds 50 characters"
    );
}

#[test]
fn os_version_length_bound() {
    let result = builder_with_required().os_version(&"o".repeat(101)).build();
    assert_eq!(
        result.unwrap_err().message(),
        "Validation error: os_version exceeds 100 characters"
    );
}

#[test]
fn plugin_count_bound() {
    let mut lo = LoadOrder::new();
    for i in 0..10_001u32 {
        lo.push(ctd_core::inventory::LoadOrderEntry::full("m.esp", true, i));
    }
    let result = CreateCrashReport::builder()
        .game_id("skyrim-se")
        .game_version("1.0")
        .stack_trace("trace")
        .load_order(lo)
        .crashed_at(1000)
        .build();
    assert_eq!(result.unwrap_err().message(), "Validation error: plugin_count exceeds 10000");
}

#[test]
fn error_messages_name_their_cause() {
    assert_eq!(
        CtdError::Config("bad".to_string()).message(),
        "Configuration error: bad"
    );
    assert_eq!(
        CtdError::LoadOrderParse("invalid format".to_string()).message(),
        "Failed to parse load order: invalid format"
    );
    assert_eq!(
        CtdError::ApiRequest("connection timeout".to_string()).message(),
        "API request failed: connection timeout"
    );
    assert_eq!(
        CrashHandlerError::AlreadyRegistered.message(),
        "Crash handler already registered"
    );
    assert_eq!(
        CrashHandlerError::RegistrationFailed("null".to_string()).message(),
        "Failed to register VEH handler: null"
    );
    assert_eq!(
        ReportError::AlreadySubmitting.message(),
        "Crash report submission already in progress"
    );
    assert_eq!(
        ReportError::Submission("timeout".to_string()).message(),
        "Failed to submit crash report: timeout"
    );
    assert_eq!(
        HashError::IoError("denied".to_string()).message(),
        "Failed to open file: denied"
    );
    assert_eq!(VersionError::NoVersionInfo.message(), "No version info found");
    assert_eq!(VersionError::ParseError.message(), "Failed to parse version info");
    assert_eq!(
        ModScannerError::GameDirectoryNotFound.message(),
        "Could not determine game directory"
    );
}
