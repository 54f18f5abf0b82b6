use ctd_core::inventory::{LoadOrder, LoadOrderEntry, ModEntry, ModList};
use ctd_core::report::CreateCrashReport;

fn sample_load_order() -> LoadOrder {
    let entries = vec![
        LoadOrderEntry::full("Skyrim.esm", true, 0),
        LoadOrderEntry::full("Update.esm", true, 1),
    ];
    LoadOrder::from_entries(entries)
}

fn sample_mod_list() -> ModList {
    let mut list = ModList::new();
    list.push(ModEntry::new("Skyrim.esm", "a1b2c3d4e5f67890", 1000).with_index(0));
    list.push(
        ModEntry::new("SkyUI_SE.esp", "b2c3d4e5f6789012", 2000)
            .with_version("5.2.1")
            .with_index(1),
    );
    list
}

#[test]
fn builder_creates_valid_report() {
    let report = CreateCrashReport::builder()
        .game_id("skyrim-se")
        .game_version("1.6.1170")
        .stack_trace("SkyrimSE.exe+0x12345")
        .load_order(sample_load_order())
        .crashed_at(1700000000000)
        .build()
        .unwrap();

    assert_eq!(report.game_id, "skyrim-se");
    assert_eq!(report.game_version, "1.6.1170");
    assert_eq!(report.plugin_count, 2);
    assert_eq!(report.schema_version, 1);
}

#[test]
fn builder_creates_valid_report_v1() {
    let report = CreateCrashReport::builder()
        .game_id("skyrim-se")
        .game_version("1.6.1170")
        .stack_trace("SkyrimSE.exe+0x12345")
        .load_order(sample_load_order())
        .crashed_at(1700000000000)
        .build()
        .unwrap();

    assert_eq!(report.game_id, "skyrim-se");
    assert_eq!(report.game_version, "1.6.1170");
    assert_eq!(report.plugin_count, 2);
    assert_eq!(report.schema_version, 1);
}

#[test]
fn builder_creates_valid_report_v2() {
    let report = CreateCrashReport::builder()
        .game_id("skyrim-se")
        .game_version("1.6.1170")
        .stack_trace("SkyrimSE.exe+0x12345")
        .load_order_v2(sample_mod_list())
        .crashed_at(1700000000000)
        .build()
        .unwrap();

    assert_eq!(report.game_id, "skyrim-se");
    assert_eq!(report.plugin_count, 2);
    assert_eq!(report.schema_version, 2);
    assert!(report.load_order_json.contains("fileHash"));
    assert!(report.load_order_json.contains("a1b2c3d4e5f67890"));
}

#[test]
fn crash_report_builder_requires_game_id() {
    let result = CreateCrashReport::builder()
        .game_version("1.0")
        .stack_trace("trace")
        .load_order(LoadOrder::new())
        .crashed_at(1000)
        .build();

    assert!(result.is_err());
    assert!(result.unwrap_err().message().contains("game_id"));
}

#[test]
fn crash_report_builder_requires_stack_trace() {
    let result = CreateCrashReport::builder()
        .game_id("skyrim-se")
        .game_version("1.0")
        .load_order(LoadOrder::new())
        .crashed_at(1000)
        .build();

    assert!(result.is_err());
    assert!(result.unwrap_err().message().contains("stack_trace"));
}

#[test]
fn crash_report_builder_validates_field_lengths() {
    let long_string = "x".repeat(51);
    let result = CreateCrashReport::builder()
        .game_id("skyrim-se")
        .game_version(&long_string)
        .stack_trace("trace")
        .load_order(LoadOrder::new())
        .crashed_at(1000)
        .build();

    assert!(result.is_err());
    assert!(result.unwrap_err().message().contains("game_version"));
}

#[test]
fn crash_report_json_uses_camel_case() {
    let report = CreateCrashReport::builder()
        .game_id("skyrim-se")
        .game_version("1.0")
        .stack_trace("trace")
        .load_order(LoadOrder::new())
        .crashed_at(1000)
        .build()
        .unwrap();

    let json = report.to_json();

    assert!(json.contains("gameId"));
    assert!(json.contains("gameVersion"));
    assert!(json.contains("stackTrace"));
    assert!(json.contains("loadOrderJson"));
    assert!(json.contains("pluginCount"));
    assert!(json.contains("crashedAt"));
    assert!(json.contains("schemaVersion"));
}

#[test]
fn first_violated_constraint_is_reported() {
    // Every required field is missing; the first check in validation
    // order is the one reported.
    let result = CreateCrashReport::builder().build();
    assert_eq!(result.unwrap_err().message(), "Validation error: game_id is required");
}

#[test]
fn game_version_boundary_is_exact() {
    let fifty = "v".repeat(50);
    let ok = CreateCrashReport::builder()
        .game_id("skyrim-se")
        .game_version(&fifty)
        .stack_trace("trace")
        .load_order(LoadOrder::new())
        .crashed_at(1000)
        .build();
    assert!(ok.is_ok());

    let fifty_one = "v".repeat(51);
    let err = CreateCrashReport::builder()
        .game_id("skyrim-se")
        .game_version(&fifty_one)
        .stack_trace("trace")
        .load_order(LoadOrder::new())
        .crashed_at(1000)
        .build();
    assert_eq!(
        err.unwrap_err().message(),
        "Validation error: game_version exceeds 50 characters"
    );
}

#[test]
fn missing_inventory_is_reported() {
    let result = CreateCrashReport::builder()
        .game_id("skyrim-se")
        .game_version("1.0")
        .stack_trace("trace")
        .crashed_at(1000)
        .build();
    assert_eq!(result.unwrap_err().message(), "Validation error: load_order is required");
}

#[test]
fn missing_timestamp_is_reported() {
    let result = CreateCrashReport::builder()
        .game_id("skyrim-se")
        .game_version("1.0")
        .stack_trace("trace")
        .load_order(LoadOrder::new())
        .build();
    assert_eq!(result.unwrap_err().message(), "Validation error: crashed_at is required");
}

#[test]
fn crash_hash_bounds_are_checked() {
    let result = CreateCrashReport::builder()
        .game_id("skyrim-se")
        .game_version("1.0")
        .stack_trace("trace")
        .load_order(LoadOrder::new())
        .crashed_at(1000)
        .crash_hash("")
        .build();
    assert_eq!(
        result.unwrap_err().message(),
        "Validation error: crash_hash must be 1-64 characters"
    );

    let long_hash = "a".repeat(65);
    let result = CreateCrashReport::builder()
        .game_id("skyrim-se")
        .game_version("1.0")
        .stack_trace("trace")
        .load_order(LoadOrder::new())
        .crashed_at(1000)
        .crash_hash(&long_hash)
        .build();
    assert!(result.is_err());
}

#[test]
fn notes_bound_is_checked() {
    let long_notes = "n".repeat(5001);
    let result = CreateCrashReport::builder()
        .game_id("skyrim-se")
        .game_version("1.0")
        .stack_trace("trace")
        .load_order(LoadOrder::new())
        .crashed_at(1000)
        .notes(&long_notes)
        .build();
    assert_eq!(result.unwrap_err().message(), "Validation error: notes exceeds 5000 characters");
}

#[test]
fn report_json_escapes_strings() {
    let report = CreateCrashReport::builder()
        .game_id("skyrim-se")
        .game_version("1.0")
        .stack_trace("line one\nline \"two\"\\end")
        .load_order(LoadOrder::new())
        .crashed_at(1000)
        .build()
        .unwrap();
    let json = report.to_json();
    assert!(json.contains("line one\\nline \\\"two\\\"\\\\end"));
}

#[test]
fn report_json_exact_minimal() {
    let report = CreateCrashReport::builder()
        .game_id("g")
        .game_version("1")
        .stack_trace("t")
        .load_order(LoadOrder::new())
        .crashed_at(7)
        .build()
        .unwrap();
    assert_eq!(
        report.to_json(),
        "{\"schemaVersion\":1,\"gameId\":\"g\",\"stackTrace\":\"t\",\"gameVersion\":\"1\",\
         \"loadOrderJson\":\"[]\",\"pluginCount\":0,\"crashedAt\":7}"
    );
}

#[test]
fn crashed_now_stamps_a_timestamp() {
    let report = CreateCrashReport::builder()
        .game_id("skyrim-se")
        .game_version("1.0")
        .stack_trace("trace")
        .load_order(LoadOrder::new())
        .crashed_now()
        .build()
        .unwrap();
    // A wall-clock timestamp in milliseconds is well past the epoch.
    assert!(report.crashed_at > 0);
}
