//! Conversion of host-reported plugin lists into inventories, and the
//! game information a host integration registers at startup.

use crate::inventory::{LoadOrder, LoadOrderEntry, LoadOrderEntryV, ModEntry, ModEntryV, ModList};
use vstd::prelude::*;

verus! {

/// Runtime game information supplied by the host integration.
#[derive(Debug, Clone)]
pub struct GameInfo {
    /// The host game's name or identifier.
    pub game_name: String,
    /// The host game's version string.
    pub game_version: String,
    /// The engine version the host runs on.
    pub ue_version: String,
}

/// One plugin as the host reports it.
#[derive(Debug, Clone)]
pub struct PluginInfo {
    /// Plugin file name.
    pub name: String,
    /// Load-order index.
    pub index: u32,
    /// Whether this is a light plugin.
    pub is_light: bool,
}

/// Converts host-reported plugin information into a legacy load order:
/// every plugin enabled, numbered in the host's reported order.
pub fn build_load_order(plugins: Vec<PluginInfo>) -> (r: LoadOrder)
    requires
        plugins@.len() <= u32::MAX,
    ensures
        r@.len() == plugins@.len(),
        forall|k: int|
            0 <= k < plugins@.len() ==> r@[k] == (LoadOrderEntryV {
                name: plugins@[k].name@,
                enabled: Some(true),
                index: Some(k as u32),
            }),
{
    let mut lo = LoadOrder::new();
    let n = plugins.len();
    let mut i: usize = 0;
    while i < n
        invariant
            i <= n,
            n == plugins@.len(),
            n <= u32::MAX,
            lo@.len() == i,
            forall|k: int|
                0 <= k < i ==> lo@[k] == (LoadOrderEntryV {
                    name: plugins@[k].name@,
                    enabled: Some(true),
                    index: Some(k as u32),
                }),
        decreases n - i,
    {
        let entry = LoadOrderEntry::full(plugins[i].name.as_str(), true, i as u32);
        lo.push(entry);
        i = i + 1;
    }
    lo
}

/// Builds a fingerprinted inventory from (name, content hash, file size)
/// triples, one per installed add-on in load order: every entry enabled
/// and numbered in the given order.
pub fn build_mod_list(files: Vec<(String, String, u64)>) -> (r: ModList)
    requires
        files@.len() <= u32::MAX,
    ensures
        r@.len() == files@.len(),
        forall|k: int|
            0 <= k < files@.len() ==> r@[k] == (ModEntryV {
                name: files@[k].0@,
                file_hash: files@[k].1@,
                file_size: files@[k].2,
                version: None,
                index: Some(k as u32),
                enabled: Some(true),
            }),
{
    let mut list = ModList::new();
    let n = files.len();
    let mut i: usize = 0;
    while i < n
        invariant
            i <= n,
            n == files@.len(),
            n <= u32::MAX,
            list@.len() == i,
            forall|k: int|
                0 <= k < i ==> list@[k] == (ModEntryV {
                    name: files@[k].0@,
                    file_hash: files@[k].1@,
                    file_size: files@[k].2,
                    version: None,
                    index: Some(k as u32),
                    enabled: Some(true),
                }),
        decreases n - i,
    {
        let entry = ModEntry::new(files[i].0.as_str(), files[i].1.as_str(), files[i].2).with_index(
            i as u32,
        ).with_enabled(true);
        list.push(entry);
        i = i + 1;
    }
    list
}

} // verus!
