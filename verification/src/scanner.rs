//! Classification and naming of installed add-ons found by the
//! per-integration filesystem scan.

use crate::inventory::{LoadOrderEntry, LoadOrderEntryV};
use crate::strfmt::push_char;
use vstd::prelude::*;

verus! {

/// Errors that can occur during an add-on scan.
#[derive(Debug, Clone)]
pub enum ModScannerError {
    /// The game directory could not be determined.
    GameDirectoryNotFound,
    /// A mod directory could not be read.
    DirectoryRead(String),
}

/// The descriptive text of a scanner error.
pub open spec fn scanner_error_text(e: ModScannerError) -> Seq<char> {
    match e {
        ModScannerError::GameDirectoryNotFound => "Could not determine game directory"@,
        ModScannerError::DirectoryRead(m) => "Failed to read mod directory: "@ + m@,
    }
}

impl ModScannerError {
    /// Renders the error for logs and operators.
    pub fn message(&self) -> (r: String)
        ensures
            r@ == scanner_error_text(*self),
    {
        let mut out = String::new();
        match self {
            ModScannerError::GameDirectoryNotFound => {
                out.append("Could not determine game directory");
            },
            ModScannerError::DirectoryRead(m) => {
                out.append("Failed to read mod directory: ");
                out.append(m.as_str());
            },
        }
        out
    }
}

/// The kinds of add-on a scan can find.
#[derive(Debug, Clone, Copy, PartialEq, Eq, Structural)]
pub enum ModType {
    /// Archive files with game assets.
    Archive,
    /// The host's official modding format.
    RedMod,
    /// Native plugin libraries.
    Red4ext,
    /// Script-engine Lua mods.
    Cet,
    /// Script source mods.
    Redscript,
    /// Tweak definition files.
    TweakXL,
}

/// The tag an add-on kind carries in inventory entry names.
pub open spec fn spec_prefix(t: ModType) -> Seq<char> {
    match t {
        ModType::Archive => ""@,
        ModType::RedMod => "[REDmod]"@,
        ModType::Red4ext => "[RED4ext]"@,
        ModType::Cet => "[CET]"@,
        ModType::Redscript => "[Redscript]"@,
        ModType::TweakXL => "[TweakXL]"@,
    }
}

impl ModType {
    /// Returns the prefix used in inventory entry names for this kind.
    pub fn prefix(self) -> (r: &'static str)
        ensures
            r@ == spec_prefix(self),
    {
        match self {
            ModType::Archive => "",
            ModType::RedMod => "[REDmod]",
            ModType::Red4ext => "[RED4ext]",
            ModType::Cet => "[CET]",
            ModType::Redscript => "[Redscript]",
            ModType::TweakXL => "[TweakXL]",
        }
    }
}

/// The inventory entry name of an add-on: the raw name for archives, the
/// kind's tag, a space and the raw name for everything else.
pub open spec fn spec_display_name(t: ModType, raw: Seq<char>) -> Seq<char> {
    match t {
        ModType::Archive => raw,
        _ => spec_prefix(t) + seq![' '] + raw,
    }
}

/// Renders the inventory entry name of one add-on.
pub fn display_name(t: ModType, raw: &str) -> (r: String)
    ensures
        r@ == spec_display_name(t, raw@),
{
    match t {
        ModType::Archive => raw.to_owned(),
        _ => {
            let mut out = String::new();
            out.append(t.prefix());
            push_char(&mut out, ' ');
            out.append(raw);
            assert(out@ =~= spec_display_name(t, raw@));
            out
        },
    }
}

/// Keeps the first occurrence of every name, in order.
pub open spec fn spec_dedup(s: Seq<Seq<char>>) -> Seq<Seq<char>>
    decreases s.len(),
{
    if s.len() == 0 {
        Seq::empty()
    } else {
        let prefix = spec_dedup(s.drop_last());
        if prefix.contains(s.last()) {
            prefix
        } else {
            prefix.push(s.last())
        }
    }
}

/// Drops every repeated name, keeping first occurrences in order; used
/// where several files belong to one add-on.
pub fn dedup_names(names: &Vec<String>) -> (r: Vec<String>)
    ensures
        r.deep_view() == spec_dedup(names.deep_view()),
{
    let n = names.len();
    let mut out: Vec<String> = Vec::new();
    let mut i: usize = 0;
    while i < n
        invariant
            i <= n,
            n == names@.len(),
            names.deep_view().len() == n,
            forall|k: int| 0 <= k < n ==> names.deep_view()[k] == names@[k]@,
            out.deep_view() == spec_dedup(names.deep_view().take(i as int)),
        decreases n - i,
    {
        let mut seen = false;
        let m = out.len();
        let mut j: usize = 0;
        while j < m
            invariant
                j <= m,
                i < n,
                n == names@.len(),
                m == out@.len(),
                out.deep_view().len() == m,
                forall|k: int| 0 <= k < m ==> out.deep_view()[k] == out@[k]@,
                seen == exists|k: int| 0 <= k < j && out.deep_view()[k] == names@[i as int]@,
            decreases m - j,
        {
            let eq = out[j] == names[i];
            proof {
                assert(out.deep_view()[j as int] == out@[j as int]@);
            }
            if eq {
                seen = true;
            }
            j = j + 1;
        }
        proof {
            let dv = names.deep_view();
            assert(dv.take(i + 1).drop_last() =~= dv.take(i as int));
            assert(dv.take(i + 1).last() == dv[i as int]);
            if seen {
                let k = choose|k: int|
                    0 <= k < out.deep_view().len() && out.deep_view()[k] == names@[i as int]@;
                assert(spec_dedup(dv.take(i as int)).contains(out.deep_view()[k]));
            }
        }
        if !seen {
            out.push(names[i].clone());
            proof {
                let dv = names.deep_view();
                assert(!spec_dedup(dv.take(i as int)).contains(dv[i as int])) by {
                    if spec_dedup(dv.take(i as int)).contains(dv[i as int]) {
                        let k = choose|k: int|
                            0 <= k < spec_dedup(dv.take(i as int)).len() && spec_dedup(
                                dv.take(i as int),
                            )[k] == dv[i as int];
                    }
                }
                assert(out.deep_view() =~= spec_dedup(dv.take(i + 1)));
            }
        }
        i = i + 1;
    }
    proof {
        assert(names.deep_view().take(n as int) =~= names.deep_view());
    }
    out
}

/// Builds inventory entries for the add-ons of one kind: each entry named
/// with the kind's tag, enabled, and numbered from `start_index` in the
/// order the scan reported them.
pub fn collect_entries(t: ModType, names: &Vec<String>, start_index: u32) -> (r: Vec<
    LoadOrderEntry,
>)
    requires
        start_index + names@.len() <= u32::MAX,
    ensures
        r@.len() == names@.len(),
        forall|k: int|
            0 <= k < names@.len() ==> (#[trigger] r@[k])@ == (LoadOrderEntryV {
                name: spec_display_name(t, names@[k]@),
                enabled: Some(true),
                index: Some((start_index + k) as u32),
            }),
{
    let n = names.len();
    let mut out: Vec<LoadOrderEntry> = Vec::new();
    let mut i: usize = 0;
    while i < n
        invariant
            i <= n,
            n == names@.len(),
            start_index + n <= u32::MAX,
            out@.len() == i,
            forall|k: int|
                0 <= k < i ==> (#[trigger] out@[k])@ == (LoadOrderEntryV {
                    name: spec_display_name(t, names@[k]@),
                    enabled: Some(true),
                    index: Some((start_index + k) as u32),
                }),
        decreases n - i,
    {
        let name = display_name(t, names[i].as_str());
        let entry = LoadOrderEntry::full(name.as_str(), true, start_index + (i as u32));
        out.push(entry);
        i = i + 1;
    }
    out
}

/// The scanned locations relative to the game directory, with the add-on
/// kind found at each; the scan visits them in this order.
pub fn mod_scan_paths() -> (r: Vec<(String, ModType)>)
    ensures
        r@.len() == 6,
        r@[0].0@ == "archive/pc/mod"@ && r@[0].1 == ModType::Archive,
        r@[1].0@ == "mods"@ && r@[1].1 == ModType::RedMod,
        r@[2].0@ == "red4ext/plugins"@ && r@[2].1 == ModType::Red4ext,
        r@[3].0@ == "bin/x64/plugins/cyber_engine_tweaks/mods"@ && r@[3].1 == ModType::Cet,
        r@[4].0@ == "r6/scripts"@ && r@[4].1 == ModType::Redscript,
        r@[5].0@ == "r6/tweaks"@ && r@[5].1 == ModType::TweakXL,
{
    let mut out: Vec<(String, ModType)> = Vec::new();
    out.push((String::from_str("archive/pc/mod"), ModType::Archive));
    out.push((String::from_str("mods"), ModType::RedMod));
    out.push((String::from_str("red4ext/plugins"), ModType::Red4ext));
    out.push((String::from_str("bin/x64/plugins/cyber_engine_tweaks/mods"), ModType::Cet));
    out.push((String::from_str("r6/scripts"), ModType::Redscript));
    out.push((String::from_str("r6/tweaks"), ModType::TweakXL));
    out
}

} // verus!
