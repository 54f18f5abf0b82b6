use ctd_core::scanner::{collect_entries, dedup_names, display_name, mod_scan_paths, ModType};

#[test]
fn test_mod_scanner_types() {
    let _archive = ModType::Archive;
    let _redmod = ModType::RedMod;
}

#[test]
fn test_mod_type_prefix() {
    assert_eq!(ModType::Archive.prefix(), "");
    assert_eq!(ModType::RedMod.prefix(), "[REDmod]");
    assert_eq!(ModType::Red4ext.prefix(), "[RED4ext]");
    assert_eq!(ModType::Cet.prefix(), "[CET]");
    assert_eq!(ModType::Redscript.prefix(), "[Redscript]");
    assert_eq!(ModType::TweakXL.prefix(), "[TweakXL]");
}

#[test]
fn test_mod_paths_coverage() {
    let paths = mod_scan_paths();
    assert_eq!(paths.len(), 6);

    let types: Vec<ModType> = paths.iter().map(|(_, t)| *t).collect();
    assert!(types.contains(&ModType::Archive));
    assert!(types.contains(&ModType::RedMod));
    assert!(types.contains(&ModType::Red4ext));
    assert!(types.contains(&ModType::Cet));
    assert!(types.contains(&ModType::Redscript));
    assert!(types.contains(&ModType::TweakXL));
}

#[test]
fn display_name_prefixes_all_but_archives() {
    assert_eq!(display_name(ModType::Archive, "city.archive"), "city.archive");
    assert_eq!(display_name(ModType::Cet, "braindance"), "[CET] braindance");
    assert_eq!(display_name(ModType::RedMod, "metro"), "[REDmod] metro");
}

#[test]
fn dedup_names_keeps_first_occurrences() {
    let names = vec![
        "alpha".to_string(),
        "beta".to_string(),
        "alpha".to_string(),
        "gamma".to_string(),
        "beta".to_string(),
    ];
    let unique = dedup_names(&names);
    assert_eq!(unique, vec!["alpha".to_string(), "beta".to_string(), "gamma".to_string()]);
}

#[test]
fn collect_entries_numbers_in_order() {
    let names = vec!["one.reds".to_string(), "two.reds".to_string()];
    let entries = collect_entries(ModType::Redscript, &names, 3);
    assert_eq!(entries.len(), 2);
    assert_eq!(entries[0].name, "[Redscript] one.reds");
    assert_eq!(entries[0].enabled, Some(true));
    assert_eq!(entries[0].index, Some(3));
    assert_eq!(entries[1].index, Some(4));
}
