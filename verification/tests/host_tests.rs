use ctd_core::host::{build_load_order, build_mod_list, GameInfo, PluginInfo};
use ctd_core::version::format_file_version;

#[test]
fn test_game_info_struct() {
    let info = GameInfo {
        game_name: "oblivion-remastered".to_string(),
        game_version: "1.0.0".to_string(),
        ue_version: "5.3".to_string(),
    };
    assert_eq!(info.game_name, "oblivion-remastered");
    assert_eq!(info.game_version, "1.0.0");
    assert_eq!(info.ue_version, "5.3");
}

#[test]
fn test_ffi_plugin_info() {
    let plugin = PluginInfo { name: "TestMod.esp".to_string(), index: 1, is_light: false };
    assert_eq!(plugin.name, "TestMod.esp");
    assert_eq!(plugin.index, 1);
    assert!(!plugin.is_light);
}

#[test]
fn build_load_order_numbers_in_reported_order() {
    let plugins = vec![
        PluginInfo { name: "Fallout3.esm".to_string(), index: 0, is_light: false },
        PluginInfo { name: "Anchorage.esm".to_string(), index: 1, is_light: false },
    ];
    let lo = build_load_order(plugins);
    assert_eq!(lo.len(), 2);
    assert_eq!(lo.0[0].name, "Fallout3.esm");
    assert_eq!(lo.0[0].enabled, Some(true));
    assert_eq!(lo.0[0].index, Some(0));
    assert_eq!(lo.0[1].index, Some(1));
}

#[test]
fn build_mod_list_carries_hashes() {
    let files = vec![
        ("SkyUI.esp".to_string(), "b2c3d4e5f6789012".to_string(), 2000u64),
        ("Core.esm".to_string(), "0000000000000000".to_string(), 0u64),
    ];
    let list = build_mod_list(files);
    assert_eq!(list.len(), 2);
    assert_eq!(list.0[0].file_hash, "b2c3d4e5f6789012");
    assert_eq!(list.0[0].index, Some(0));
    assert_eq!(list.0[0].enabled, Some(true));
    assert_eq!(list.0[1].file_size, 0);
}

#[test]
fn file_version_renders_four_components() {
    // 10.0 and 19041.1: the two halves of a version resource.
    let ms = (10u32 << 16) | 0;
    let ls = (19041u32 << 16) | 1;
    assert_eq!(format_file_version(ms, ls), "10.0.19041.1");
    assert_eq!(format_file_version(0, 0), "0.0.0.0");
}
