use ctd_core::inventory::{LoadOrder, LoadOrderEntry, ModEntry, ModList};

#[test]
fn entry_minimal() {
    let entry = LoadOrderEntry::new("Test.esp");
    assert_eq!(entry.name, "Test.esp");
    assert!(entry.enabled.is_none());
    assert!(entry.index.is_none());
}

#[test]
fn entry_with_enabled() {
    let entry = LoadOrderEntry::with_enabled("Test.esp", true);
    assert_eq!(entry.enabled, Some(true));
}

#[test]
fn entry_full() {
    let entry = LoadOrderEntry::full("Test.esp", true, 5);
    assert_eq!(entry.enabled, Some(true));
    assert_eq!(entry.index, Some(5));
}

#[test]
fn new_load_order_is_empty() {
    let lo = LoadOrder::new();
    assert!(lo.is_empty());
    assert_eq!(lo.len(), 0);
}

#[test]
fn push_entry() {
    let mut lo = LoadOrder::new();
    lo.push(LoadOrderEntry::with_enabled("test_mod", true));
    assert_eq!(lo.len(), 1);
    assert!(!lo.is_empty());
}

#[test]
fn entry_with_index() {
    let entry = LoadOrderEntry::full("test_mod", true, 5);
    assert_eq!(entry.index, Some(5));
}

#[test]
fn parse_returns_empty() {
    let lo = LoadOrder::parse("").unwrap();
    assert!(lo.is_empty());
}

#[test]
fn collect_from_iter() {
    let entries = vec![LoadOrderEntry::new("A.esp"), LoadOrderEntry::new("B.esp")];
    let lo = LoadOrder::from_entries(entries);
    assert_eq!(lo.len(), 2);
}

#[test]
fn json_skips_none_fields() {
    let entry = LoadOrderEntry::new("Test.esp");
    let json = entry.to_json();

    assert!(!json.contains("enabled"));
    assert!(!json.contains("index"));
}

#[test]
fn entry_json_exact() {
    let entry = LoadOrderEntry::full("Skyrim.esm", true, 0);
    assert_eq!(entry.to_json(), "{\"name\":\"Skyrim.esm\",\"enabled\":true,\"index\":0}");
}

#[test]
fn load_order_json_exact() {
    let mut lo = LoadOrder::new();
    lo.push(LoadOrderEntry::full("A.esp", true, 0));
    lo.push(LoadOrderEntry::with_enabled("B.esp", false));
    assert_eq!(
        lo.to_json(),
        "[{\"name\":\"A.esp\",\"enabled\":true,\"index\":0},{\"name\":\"B.esp\",\"enabled\":false}]"
    );
}

#[test]
fn empty_load_order_json_is_empty_array() {
    assert_eq!(LoadOrder::new().to_json(), "[]");
}

#[test]
fn mod_entry_json_camel_case() {
    let entry = ModEntry::new("SkyUI_SE.esp", "b2c3d4e5f6789012", 2000)
        .with_version("5.2.1")
        .with_index(1)
        .with_enabled(true);
    assert_eq!(
        entry.to_json(),
        "{\"name\":\"SkyUI_SE.esp\",\"fileHash\":\"b2c3d4e5f6789012\",\"fileSize\":2000,\
         \"version\":\"5.2.1\",\"index\":1,\"enabled\":true}"
    );
}

#[test]
fn mod_entry_json_skips_absent_fields() {
    let entry = ModEntry::new("Core.esm", "0000000000000000", 0);
    let json = entry.to_json();
    assert!(!json.contains("version"));
    assert!(!json.contains("index"));
    assert!(!json.contains("enabled"));
}

#[test]
fn mod_list_json_exact() {
    let mut list = ModList::new();
    list.push(ModEntry::new("A", "aa", 1));
    list.push(ModEntry::new("B", "bb", 2));
    assert_eq!(
        list.to_json(),
        "[{\"name\":\"A\",\"fileHash\":\"aa\",\"fileSize\":1},\
         {\"name\":\"B\",\"fileHash\":\"bb\",\"fileSize\":2}]"
    );
}

#[test]
fn entry_json_escapes_name() {
    let entry = LoadOrderEntry::new("we\"ird\\mod");
    assert_eq!(entry.to_json(), "{\"name\":\"we\\\"ird\\\\mod\"}");
}

#[test]
fn load_order_clone_preserves_entries() {
    let mut lo = LoadOrder::new();
    lo.push(LoadOrderEntry::full("A.esp", true, 0));
    let copy = lo.clone();
    assert_eq!(lo, copy);
}
