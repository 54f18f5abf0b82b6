//! The installed add-on inventory: the legacy entry kind that records only
//! name, enabled state and position, the fingerprinted entry kind that adds
//! a content hash, size and version, and the JSON payloads both kinds are
//! embedded as inside a crash report.

use crate::jsontext::{append_json_string, json_string};
use crate::strfmt::{append_bool, append_dec_u64, push_char, spec_bool, spec_dec};
use crate::CtdError;
use vstd::prelude::*;

verus! {

/// A single legacy load-order entry.
#[derive(Debug, PartialEq, Eq)]
pub struct LoadOrderEntry {
    /// The name of the add-on file.
    pub name: String,
    /// Whether this entry is enabled; absent when the format does not track it.
    pub enabled: Option<bool>,
    /// Position in the load order; absent when ordering is implicit.
    pub index: Option<u32>,
}

/// Mathematical model of a legacy entry.
pub ghost struct LoadOrderEntryV {
    /// The entry's name.
    pub name: Seq<char>,
    /// The enabled flag, if tracked.
    pub enabled: Option<bool>,
    /// The position, if tracked.
    pub index: Option<u32>,
}

impl View for LoadOrderEntry {
    type V = LoadOrderEntryV;

    open spec fn view(&self) -> LoadOrderEntryV {
        LoadOrderEntryV { name: self.name@, enabled: self.enabled, index: self.index }
    }
}

/// JSON object for a legacy entry; absent fields are omitted entirely.
pub open spec fn entry_json(e: LoadOrderEntryV) -> Seq<char> {
    "{\"name\":"@ + json_string(e.name) + (match e.enabled {
        Option::Some(b) => ",\"enabled\":"@ + spec_bool(b),
        Option::None => Seq::empty(),
    }) + (match e.index {
        Option::Some(i) => ",\"index\":"@ + spec_dec(i as int),
        Option::None => Seq::empty(),
    }) + "}"@
}

impl LoadOrderEntry {
    /// Creates an entry with just a name.
    pub fn new(name: &str) -> (r: Self)
        ensures
            r@ == (LoadOrderEntryV { name: name@, enabled: None, index: None }),
    {
        Self { name: name.to_owned(), enabled: None, index: None }
    }

    /// Creates an entry with a name and an enabled flag.
    pub fn with_enabled(name: &str, enabled: bool) -> (r: Self)
        ensures
            r@ == (LoadOrderEntryV { name: name@, enabled: Some(enabled), index: None }),
    {
        Self { name: name.to_owned(), enabled: Some(enabled), index: None }
    }

    /// Creates a fully specified entry.
    pub fn full(name: &str, enabled: bool, index: u32) -> (r: Self)
        ensures
            r@ == (LoadOrderEntryV { name: name@, enabled: Some(enabled), index: Some(index) }),
    {
        Self { name: name.to_owned(), enabled: Some(enabled), index: Some(index) }
    }

    /// Serializes this entry to its JSON object.
    pub fn to_json(&self) -> (r: String)
        ensures
            r@ == entry_json(self@),
    {
        let mut out = String::new();
        append_entry_json(&mut out, self);
        out
    }
}

/// Appends the JSON object of one legacy entry.
pub fn append_entry_json(out: &mut String, e: &LoadOrderEntry)
    ensures
        final(out)@ == old(out)@ + entry_json(e@),
{
    out.append("{\"name\":");
    append_json_string(out, e.name.as_str());
    match &e.enabled {
        Option::Some(b) => {
            out.append(",\"enabled\":");
            append_bool(out, *b);
        },
        Option::None => {},
    }
    match &e.index {
        Option::Some(i) => {
            out.append(",\"index\":");
            append_dec_u64(out, *i as u64);
        },
        Option::None => {},
    }
    out.append("}");
    assert(final(out)@ =~= old(out)@ + entry_json(e@));
}

/// JSON array body for a sequence of legacy entries, comma separated.
pub open spec fn entries_json_body(s: Seq<LoadOrderEntryV>) -> Seq<char>
    decreases s.len(),
{
    if s.len() == 0 {
        Seq::empty()
    } else if s.len() == 1 {
        entry_json(s[0])
    } else {
        entries_json_body(s.drop_last()) + seq![','] + entry_json(s.last())
    }
}

/// The complete JSON array for a legacy load order.
pub open spec fn load_order_json(s: Seq<LoadOrderEntryV>) -> Seq<char> {
    seq!['['] + entries_json_body(s) + seq![']']
}

/// A complete legacy load order, in the host's reported order.
#[derive(Debug, PartialEq, Eq)]
pub struct LoadOrder(pub Vec<LoadOrderEntry>);

impl Clone for LoadOrderEntry {
    /// Clones the entry, preserving its model.
    fn clone(&self) -> (r: Self)
        ensures
            r@ == self@,
    {
        LoadOrderEntry { name: self.name.clone(), enabled: self.enabled, index: self.index }
    }
}

impl Clone for LoadOrder {
    /// Clones the load order, preserving its model.
    fn clone(&self) -> (r: Self)
        ensures
            r@ =~= self@,
    {
        let mut entries: Vec<LoadOrderEntry> = Vec::new();
        let n = self.0.len();
        let mut i: usize = 0;
        while i < n
            invariant
                i <= n,
                n == self.0@.len(),
                entries@.len() == i,
                forall|k: int| 0 <= k < i ==> (#[trigger] entries@[k])@ == self.0@[k]@,
            decreases n - i,
        {
            entries.push(self.0[i].clone());
            i = i + 1;
        }
        LoadOrder(entries)
    }
}

impl View for LoadOrder {
    type V = Seq<LoadOrderEntryV>;

    open spec fn view(&self) -> Seq<LoadOrderEntryV> {
        Seq::new(self.0@.len(), |i: int| self.0@[i]@)
    }
}

impl LoadOrder {
    /// Creates an empty load order.
    pub fn new() -> (r: Self)
        ensures
            r@ =~= Seq::<LoadOrderEntryV>::empty(),
    {
        LoadOrder(Vec::new())
    }

    /// Creates a load order from a vector of entries.
    pub fn from_entries(entries: Vec<LoadOrderEntry>) -> (r: Self)
        ensures
            r@.len() == entries@.len(),
            forall|i: int| 0 <= i < entries@.len() ==> r@[i] == entries@[i]@,
    {
        LoadOrder(entries)
    }

    /// Returns the number of entries.
    pub fn len(&self) -> (r: usize)
        ensures
            r == self@.len(),
    {
        self.0.len()
    }

    /// Returns true if there are no entries.
    pub fn is_empty(&self) -> (r: bool)
        ensures
            r == (self@.len() == 0),
    {
        self.0.len() == 0
    }

    /// Appends an entry.
    pub fn push(&mut self, entry: LoadOrderEntry)
        ensures
            final(self)@ =~= old(self)@.push(entry@),
    {
        self.0.push(entry);
    }

    /// Parses a load order from a string representation. No textual format
    /// is defined yet, so every input yields an empty load order.
    pub fn parse(_input: &str) -> (r: Result<Self, CtdError>)
        ensures
            r matches Ok(lo) && lo@ =~= Seq::<LoadOrderEntryV>::empty(),
    {
        Ok(Self::new())
    }

    /// Serializes the load order to the JSON array embedded in a report.
    pub fn to_json(&self) -> (r: String)
        ensures
            r@ == load_order_json(self@),
    {
        let mut out = String::new();
        push_char(&mut out, '[');
        let n = self.0.len();
        let mut i: usize = 0;
        while i < n
            invariant
                n == self.0@.len(),
                i <= n,
                self@.len() == n,
                forall|k: int| 0 <= k < n ==> self@[k] == self.0@[k]@,
                out@ == seq!['['] + entries_json_body(self@.take(i as int)),
            decreases n - i,
        {
            if i > 0 {
                push_char(&mut out, ',');
            }
            append_entry_json(&mut out, &self.0[i]);
            proof {
                assert(self@.take(i + 1).drop_last() =~= self@.take(i as int));
                assert(self@.take(i + 1).last() == self@[i as int]);
                assert(out@ =~= seq!['['] + entries_json_body(self@.take(i + 1)));
            }
            i = i + 1;
        }
        push_char(&mut out, ']');
        proof {
            assert(self@.take(n as int) =~= self@);
            assert(out@ =~= load_order_json(self@));
        }
        out
    }
}

/// A single fingerprinted add-on entry.
#[derive(Debug, Clone, PartialEq, Eq)]
pub struct ModEntry {
    /// The name of the add-on.
    pub name: String,
    /// Content fingerprint: 16 lowercase hex characters.
    pub file_hash: String,
    /// Size of the fingerprinted file in bytes.
    pub file_size: u64,
    /// Version string, if known.
    pub version: Option<String>,
    /// Position in the load order, if tracked.
    pub index: Option<u32>,
    /// Whether the add-on is enabled, if tracked.
    pub enabled: Option<bool>,
}

/// Mathematical model of a fingerprinted entry.
pub ghost struct ModEntryV {
    /// The entry's name.
    pub name: Seq<char>,
    /// The content fingerprint.
    pub file_hash: Seq<char>,
    /// The fingerprinted file's size.
    pub file_size: u64,
    /// The version, if known.
    pub version: Option<Seq<char>>,
    /// The position, if tracked.
    pub index: Option<u32>,
    /// The enabled flag, if tracked.
    pub enabled: Option<bool>,
}

impl View for ModEntry {
    type V = ModEntryV;

    open spec fn view(&self) -> ModEntryV {
        ModEntryV {
            name: self.name@,
            file_hash: self.file_hash@,
            file_size: self.file_size,
            version: match self.version {
                Option::Some(ref v) => Some(v@),
                Option::None => None,
            },
            index: self.index,
            enabled: self.enabled,
        }
    }
}

/// JSON object for a fingerprinted entry, lower-camel-case field names,
/// absent fields omitted entirely.
pub open spec fn mod_entry_json(e: ModEntryV) -> Seq<char> {
    "{\"name\":"@ + json_string(e.name) + ",\"fileHash\":"@ + json_string(e.file_hash)
        + ",\"fileSize\":"@ + spec_dec(e.file_size as int) + (match e.version {
        Option::Some(v) => ",\"version\":"@ + json_string(v),
        Option::None => Seq::empty(),
    }) + (match e.index {
        Option::Some(i) => ",\"index\":"@ + spec_dec(i as int),
        Option::None => Seq::empty(),
    }) + (match e.enabled {
        Option::Some(b) => ",\"enabled\":"@ + spec_bool(b),
        Option::None => Seq::empty(),
    }) + "}"@
}

impl ModEntry {
    /// Creates a fingerprinted entry from a name, content hash and size.
    pub fn new(name: &str, file_hash: &str, file_size: u64) -> (r: Self)
        ensures
            r@ == (ModEntryV {
                name: name@,
                file_hash: file_hash@,
                file_size,
                version: None,
                index: None,
                enabled: None,
            }),
    {
        Self {
            name: name.to_owned(),
            file_hash: file_hash.to_owned(),
            file_size,
            version: None,
            index: None,
            enabled: None,
        }
    }

    /// Sets the version string.
    pub fn with_version(self, version: &str) -> (r: Self)
        ensures
            r@ == (ModEntryV { version: Some(version@), ..self@ }),
    {
        Self { version: Some(version.to_owned()), ..self }
    }

    /// Sets the load-order position.
    pub fn with_index(self, index: u32) -> (r: Self)
        ensures
            r@ == (ModEntryV { index: Some(index), ..self@ }),
    {
        Self { index: Some(index), ..self }
    }

    /// Sets the enabled flag.
    pub fn with_enabled(self, enabled: bool) -> (r: Self)
        ensures
            r@ == (ModEntryV { enabled: Some(enabled), ..self@ }),
    {
        Self { enabled: Some(enabled), ..self }
    }

    /// Serializes this entry to its JSON object.
    pub fn to_json(&self) -> (r: String)
        ensures
            r@ == mod_entry_json(self@),
    {
        let mut out = String::new();
        append_mod_entry_json(&mut out, self);
        out
    }
}

/// Appends the JSON object of one fingerprinted entry.
#[verifier::rlimit(60)]
pub fn append_mod_entry_json(out: &mut String, e: &ModEntry)
    ensures
        final(out)@ == old(out)@ + mod_entry_json(e@),
{
    out.append("{\"name\":");
    append_json_string(out, e.name.as_str());
    out.append(",\"fileHash\":");
    append_json_string(out, e.file_hash.as_str());
    out.append(",\"fileSize\":");
    append_dec_u64(out, e.file_size);
    match &e.version {
        Option::Some(v) => {
            out.append(",\"version\":");
            append_json_string(out, v.as_str());
        },
        Option::None => {},
    }
    match &e.index {
        Option::Some(i) => {
            out.append(",\"index\":");
            append_dec_u64(out, *i as u64);
        },
        Option::None => {},
    }
    match &e.enabled {
        Option::Some(b) => {
            out.append(",\"enabled\":");
            append_bool(out, *b);
        },
        Option::None => {},
    }
    out.append("}");
    assert(final(out)@ =~= old(out)@ + mod_entry_json(e@));
}

/// JSON array body for a sequence of fingerprinted entries.
pub open spec fn mod_entries_json_body(s: Seq<ModEntryV>) -> Seq<char>
    decreases s.len(),
{
    if s.len() == 0 {
        Seq::empty()
    } else if s.len() == 1 {
        mod_entry_json(s[0])
    } else {
        mod_entries_json_body(s.drop_last()) + seq![','] + mod_entry_json(s.last())
    }
}

/// The complete JSON array for a fingerprinted inventory.
pub open spec fn mod_list_json(s: Seq<ModEntryV>) -> Seq<char> {
    seq!['['] + mod_entries_json_body(s) + seq![']']
}

/// True when `needle` occurs as a contiguous run inside `hay`.
pub open spec fn contains_seq(hay: Seq<char>, needle: Seq<char>) -> bool {
    exists|i: int|
        0 <= i && i + needle.len() <= hay.len() && #[trigger] hay.subrange(i, i + needle.len())
            == needle
}

/// A run found in `hay` is still found after text is appended on either
/// side.
pub proof fn lemma_contains_seq_extend(
    before: Seq<char>,
    hay: Seq<char>,
    after: Seq<char>,
    needle: Seq<char>,
)
    requires
        contains_seq(hay, needle),
    ensures
        contains_seq(before + hay + after, needle),
{
    let i = choose|i: int|
        0 <= i && i + needle.len() <= hay.len() && #[trigger] hay.subrange(i, i + needle.len())
            == needle;
    let j = before.len() + i;
    assert((before + hay + after).subrange(j, j + needle.len()) =~= hay.subrange(
        i,
        i + needle.len(),
    ));
}

/// The fingerprint field's quoted name.
pub open spec fn fingerprint_field_name() -> Seq<char> {
    "\"fileHash\""@
}

/// Every fingerprinted entry's JSON object names the fingerprint field.
pub proof fn lemma_mod_entry_json_names_fingerprint(e: ModEntryV)
    ensures
        contains_seq(mod_entry_json(e), fingerprint_field_name()),
{
    reveal_strlit("\"fileHash\"");
    reveal_strlit(",\"fileHash\":");
    let head = "{\"name\":"@ + json_string(e.name);
    let marker = ",\"fileHash\":"@;
    let tail = json_string(e.file_hash) + ",\"fileSize\":"@ + spec_dec(e.file_size as int) + (
    match e.version {
        Option::Some(v) => ",\"version\":"@ + json_string(v),
        Option::None => Seq::empty(),
    }) + (match e.index {
        Option::Some(i) => ",\"index\":"@ + spec_dec(i as int),
        Option::None => Seq::empty(),
    }) + (match e.enabled {
        Option::Some(b) => ",\"enabled\":"@ + spec_bool(b),
        Option::None => Seq::empty(),
    }) + "}"@;
    assert(mod_entry_json(e) =~= head + marker + tail);
    assert(fingerprint_field_name().len() == 10);
    assert(marker.subrange(1, 1 + fingerprint_field_name().len() as int)
        =~= fingerprint_field_name());
    assert(contains_seq(marker, fingerprint_field_name()));
    lemma_contains_seq_extend(head, marker, tail, fingerprint_field_name());
    assert(head + marker + tail =~= mod_entry_json(e));
}

/// Schema tagging, payload half: the serialized payload of any non-empty
/// fingerprinted inventory names the fingerprint field.
pub proof fn lemma_v2_payload_names_fingerprint(s: Seq<ModEntryV>)
    requires
        s.len() > 0,
    ensures
        contains_seq(mod_list_json(s), fingerprint_field_name()),
    decreases s.len(),
{
    if s.len() == 1 {
        lemma_mod_entry_json_names_fingerprint(s[0]);
        lemma_contains_seq_extend(
            seq!['['],
            mod_entry_json(s[0]),
            seq![']'],
            fingerprint_field_name(),
        );
        assert(seq!['['] + mod_entry_json(s[0]) + seq![']'] =~= mod_list_json(s));
    } else {
        lemma_mod_entry_json_names_fingerprint(s.last());
        lemma_contains_seq_extend(
            seq!['['] + mod_entries_json_body(s.drop_last()) + seq![','],
            mod_entry_json(s.last()),
            seq![']'],
            fingerprint_field_name(),
        );
        assert((seq!['['] + mod_entries_json_body(s.drop_last()) + seq![',']) + mod_entry_json(
            s.last(),
        ) + seq![']'] =~= mod_list_json(s));
    }
}

/// A complete fingerprinted inventory, in the host's reported order.
#[derive(Debug, Clone, PartialEq, Eq)]
pub struct ModList(pub Vec<ModEntry>);

impl View for ModList {
    type V = Seq<ModEntryV>;

    open spec fn view(&self) -> Seq<ModEntryV> {
        Seq::new(self.0@.len(), |i: int| self.0@[i]@)
    }
}

impl ModList {
    /// Creates an empty inventory.
    pub fn new() -> (r: Self)
        ensures
            r@ =~= Seq::<ModEntryV>::empty(),
    {
        ModList(Vec::new())
    }

    /// Returns the number of entries.
    pub fn len(&self) -> (r: usize)
        ensures
            r == self@.len(),
    {
        self.0.len()
    }

    /// Returns true if there are no entries.
    pub fn is_empty(&self) -> (r: bool)
        ensures
            r == (self@.len() == 0),
    {
        self.0.len() == 0
    }

    /// Appends an entry.
    pub fn push(&mut self, entry: ModEntry)
        ensures
            final(self)@ =~= old(self)@.push(entry@),
    {
        self.0.push(entry);
    }

    /// Serializes the inventory to the JSON array embedded in a report.
    pub fn to_json(&self) -> (r: String)
        ensures
            r@ == mod_list_json(self@),
    {
        let mut out = String::new();
        push_char(&mut out, '[');
        let n = self.0.len();
        let mut i: usize = 0;
        while i < n
            invariant
                n == self.0@.len(),
                i <= n,
                self@.len() == n,
                forall|k: int| 0 <= k < n ==> self@[k] == self.0@[k]@,
                out@ == seq!['['] + mod_entries_json_body(self@.take(i as int)),
            decreases n - i,
        {
            if i > 0 {
                push_char(&mut out, ',');
            }
            append_mod_entry_json(&mut out, &self.0[i]);
            proof {
                assert(self@.take(i + 1).drop_last() =~= self@.take(i as int));
                assert(self@.take(i + 1).last() == self@[i as int]);
                assert(out@ =~= seq!['['] + mod_entries_json_body(self@.take(i + 1)));
            }
            i = i + 1;
        }
        push_char(&mut out, ']');
        proof {
            assert(self@.take(n as int) =~= self@);
            assert(out@ =~= mod_list_json(self@));
        }
        out
    }
}

} // verus!
