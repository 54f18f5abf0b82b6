//! The versioned crash-report record and its validating builder.

use crate::inventory::{load_order_json, mod_list_json, LoadOrder, LoadOrderEntryV, ModEntryV,
    ModList};
use crate::jsontext::{append_json_string, json_string};
use crate::strfmt::{append_dec_u64, push_char, spec_dec};
use crate::CtdError;
use vstd::prelude::*;

verus! {

/// The schema version written when a fingerprinted inventory is supplied.
pub const CURRENT_SCHEMA_VERSION: u32 = 2;

/// View of an optional owned string.
pub open spec fn opt_view(o: Option<String>) -> Option<Seq<char>> {
    match o {
        Option::Some(s) => Some(s@),
        Option::None => None,
    }
}

/// A crash report ready for submission. Once built, every required field is
/// present and every field obeys its bound, so it can always be serialized.
#[derive(Debug, Clone)]
pub struct CreateCrashReport {
    /// Schema version tag; derived from the supplied inventory kind.
    pub schema_version: u32,
    /// Integration identifier, e.g. the host game. Required, non-empty.
    pub game_id: String,
    /// Full stack trace from the crash. Required, 1 to 100000 characters.
    pub stack_trace: String,
    /// Pre-computed crash hash for deduplication, 1 to 64 characters.
    pub crash_hash: Option<String>,
    /// Exception code rendering, at most 50 characters.
    pub exception_code: Option<String>,
    /// Exception address rendering, at most 50 characters.
    pub exception_address: Option<String>,
    /// Module that faulted, at most 255 characters.
    pub faulting_module: Option<String>,
    /// Host version string. Required, 1 to 50 characters.
    pub game_version: String,
    /// Script-host (extender) version, at most 50 characters.
    pub script_extender_version: Option<String>,
    /// Operating-system version, at most 100 characters.
    pub os_version: Option<String>,
    /// The inventory serialized as its own embedded JSON payload.
    pub load_order_json: String,
    /// Number of inventory entries, at most 10000.
    pub plugin_count: u32,
    /// Milliseconds since the epoch at which the crash occurred.
    pub crashed_at: u64,
    /// Operator notes, at most 5000 characters.
    pub notes: Option<String>,
}

/// Mathematical model of a crash report.
pub ghost struct ReportV {
    /// Schema version tag.
    pub schema_version: u32,
    /// Integration identifier.
    pub game_id: Seq<char>,
    /// Stack trace text.
    pub stack_trace: Seq<char>,
    /// Crash hash, if present.
    pub crash_hash: Option<Seq<char>>,
    /// Exception code, if present.
    pub exception_code: Option<Seq<char>>,
    /// Exception address, if present.
    pub exception_address: Option<Seq<char>>,
    /// Faulting module, if present.
    pub faulting_module: Option<Seq<char>>,
    /// Host version.
    pub game_version: Seq<char>,
    /// Script-host version, if present.
    pub script_extender_version: Option<Seq<char>>,
    /// Operating-system version, if present.
    pub os_version: Option<Seq<char>>,
    /// Serialized inventory payload.
    pub load_order_json: Seq<char>,
    /// Number of inventory entries.
    pub plugin_count: u32,
    /// Crash timestamp in milliseconds.
    pub crashed_at: u64,
    /// Notes, if present.
    pub notes: Option<Seq<char>>,
}

impl View for CreateCrashReport {
    type V = ReportV;

    open spec fn view(&self) -> ReportV {
        ReportV {
            schema_version: self.schema_version,
            game_id: self.game_id@,
            stack_trace: self.stack_trace@,
            crash_hash: opt_view(self.crash_hash),
            exception_code: opt_view(self.exception_code),
            exception_address: opt_view(self.exception_address),
            faulting_module: opt_view(self.faulting_module),
            game_version: self.game_version@,
            script_extender_version: opt_view(self.script_extender_version),
            os_version: opt_view(self.os_version),
            load_order_json: self.load_order_json@,
            plugin_count: self.plugin_count,
            crashed_at: self.crashed_at,
            notes: opt_view(self.notes),
        }
    }
}

/// An optional report field: nothing when absent, a comma, the quoted key
/// and the quoted value when present.
pub open spec fn opt_field(key: Seq<char>, v: Option<Seq<char>>) -> Seq<char> {
    match v {
        Option::Some(s) => seq![','] + json_string(key) + seq![':'] + json_string(s),
        Option::None => Seq::empty(),
    }
}

/// The JSON serialization of a report: lower-camel-case field names,
/// absent optional fields omitted entirely.
pub open spec fn report_json(r: ReportV) -> Seq<char> {
    "{\"schemaVersion\":"@ + spec_dec(r.schema_version as int) + ",\"gameId\":"@ + json_string(
        r.game_id,
    ) + ",\"stackTrace\":"@ + json_string(r.stack_trace) + opt_field("crashHash"@, r.crash_hash)
        + opt_field("exceptionCode"@, r.exception_code) + opt_field(
        "exceptionAddress"@,
        r.exception_address,
    ) + opt_field("faultingModule"@, r.faulting_module) + ",\"gameVersion\":"@ + json_string(
        r.game_version,
    ) + opt_field("scriptExtenderVersion"@, r.script_extender_version) + opt_field(
        "osVersion"@,
        r.os_version,
    ) + ",\"loadOrderJson\":"@ + json_string(r.load_order_json) + ",\"pluginCount\":"@ + spec_dec(
        r.plugin_count as int,
    ) + ",\"crashedAt\":"@ + spec_dec(r.crashed_at as int) + opt_field("notes"@, r.notes) + "}"@
}

/// Appends one optional string field.
pub fn append_opt_field(out: &mut String, key: &str, v: &Option<String>)
    ensures
        final(out)@ == old(out)@ + opt_field(key@, opt_view(*v)),
{
    match v {
        Option::Some(s) => {
            push_char(out, ',');
            append_json_string(out, key);
            push_char(out, ':');
            append_json_string(out, s.as_str());
            assert(final(out)@ =~= old(out)@ + opt_field(key@, opt_view(*v)));
        },
        Option::None => {},
    }
}

/// Response returned by the collector after a report is accepted.
#[derive(Debug, Clone, PartialEq, Eq)]
pub struct CrashReportResponse {
    /// The assigned report identifier.
    pub id: String,
    /// Share token for accessing the report.
    pub share_token: String,
}

/// The inventory supplied to a builder: either the legacy kind or the
/// fingerprinted kind, never mixed.
#[derive(Debug, Clone)]
pub enum LoadOrderData {
    /// Legacy entries: name, enabled flag and position only.
    V1(LoadOrder),
    /// Fingerprinted entries with content hash, size and version.
    V2(ModList),
}

/// Mathematical model of the supplied inventory.
pub ghost enum LoadOrderDataV {
    /// Legacy entries.
    V1(Seq<LoadOrderEntryV>),
    /// Fingerprinted entries.
    V2(Seq<ModEntryV>),
}

impl View for LoadOrderData {
    type V = LoadOrderDataV;

    open spec fn view(&self) -> LoadOrderDataV {
        match self {
            LoadOrderData::V1(lo) => LoadOrderDataV::V1(lo@),
            LoadOrderData::V2(ml) => LoadOrderDataV::V2(ml@),
        }
    }
}

/// The number of entries in a supplied inventory.
pub open spec fn data_len(d: LoadOrderDataV) -> int {
    match d {
        LoadOrderDataV::V1(s) => s.len() as int,
        LoadOrderDataV::V2(s) => s.len() as int,
    }
}

/// The schema version an inventory kind is tagged with.
pub open spec fn data_schema(d: LoadOrderDataV) -> u32 {
    match d {
        LoadOrderDataV::V1(_) => 1,
        LoadOrderDataV::V2(_) => 2,
    }
}

/// The embedded JSON payload of a supplied inventory.
pub open spec fn data_json(d: LoadOrderDataV) -> Seq<char> {
    match d {
        LoadOrderDataV::V1(s) => load_order_json(s),
        LoadOrderDataV::V2(s) => mod_list_json(s),
    }
}

/// Builder for crash reports; `build` validates everything at once.
#[derive(Debug, Clone)]
pub struct CrashReportBuilder {
    /// Integration identifier.
    pub game_id: Option<String>,
    /// Stack trace text.
    pub stack_trace: Option<String>,
    /// Crash hash.
    pub crash_hash: Option<String>,
    /// Exception code rendering.
    pub exception_code: Option<String>,
    /// Exception address rendering.
    pub exception_address: Option<String>,
    /// Faulting module name.
    pub faulting_module: Option<String>,
    /// Host version.
    pub game_version: Option<String>,
    /// Script-host version.
    pub script_extender_version: Option<String>,
    /// Operating-system version.
    pub os_version: Option<String>,
    /// The supplied inventory, if any.
    pub load_order_data: Option<LoadOrderData>,
    /// Crash timestamp in milliseconds.
    pub crashed_at: Option<u64>,
    /// Operator notes.
    pub notes: Option<String>,
}

/// Mathematical model of a builder's accumulated state.
pub ghost struct BuilderV {
    /// Integration identifier.
    pub game_id: Option<Seq<char>>,
    /// Stack trace text.
    pub stack_trace: Option<Seq<char>>,
    /// Crash hash.
    pub crash_hash: Option<Seq<char>>,
    /// Exception code rendering.
    pub exception_code: Option<Seq<char>>,
    /// Exception address rendering.
    pub exception_address: Option<Seq<char>>,
    /// Faulting module name.
    pub faulting_module: Option<Seq<char>>,
    /// Host version.
    pub game_version: Option<Seq<char>>,
    /// Script-host version.
    pub script_extender_version: Option<Seq<char>>,
    /// Operating-system version.
    pub os_version: Option<Seq<char>>,
    /// The supplied inventory, if any.
    pub load_order_data: Option<LoadOrderDataV>,
    /// Crash timestamp in milliseconds.
    pub crashed_at: Option<u64>,
    /// Operator notes.
    pub notes: Option<Seq<char>>,
}

impl View for CrashReportBuilder {
    type V = BuilderV;

    open spec fn view(&self) -> BuilderV {
        BuilderV {
            game_id: opt_view(self.game_id),
            stack_trace: opt_view(self.stack_trace),
            crash_hash: opt_view(self.crash_hash),
            exception_code: opt_view(self.exception_code),
            exception_address: opt_view(self.exception_address),
            faulting_module: opt_view(self.faulting_module),
            game_version: opt_view(self.game_version),
            script_extender_version: opt_view(self.script_extender_version),
            os_version: opt_view(self.os_version),
            load_order_data: match self.load_order_data {
                Option::Some(ref d) => Some(d@),
                Option::None => None,
            },
            crashed_at: self.crashed_at,
            notes: opt_view(self.notes),
        }
    }
}

/// True when a required text field is absent or empty.
pub open spec fn field_missing(s: Option<Seq<char>>) -> bool {
    match s {
        Option::None => true,
        Option::Some(t) => t.len() == 0,
    }
}

/// True when an optional text field is present and longer than `max`.
pub open spec fn field_too_long(s: Option<Seq<char>>, max: int) -> bool {
    match s {
        Option::None => false,
        Option::Some(t) => t.len() > max,
    }
}

/// The first violated constraint of a builder, in validation order, or
/// nothing when the builder passes validation.
pub open spec fn first_error(b: BuilderV) -> Option<Seq<char>> {
    if field_missing(b.game_id) {
        Some("game_id is required"@)
    } else if field_missing(b.stack_trace) {
        Some("stack_trace is required"@)
    } else if b.stack_trace->0.len() > 100000 {
        Some("stack_trace exceeds 100000 characters"@)
    } else if field_missing(b.game_version) {
        Some("game_version is required"@)
    } else if b.game_version->0.len() > 50 {
        Some("game_version exceeds 50 characters"@)
    } else if b.load_order_data is None {
        Some("load_order is required"@)
    } else if data_len(b.load_order_data->0) > 10000 {
        Some("plugin_count exceeds 10000"@)
    } else if b.crash_hash is Some && (b.crash_hash->0.len() == 0 || b.crash_hash->0.len() > 64) {
        Some("crash_hash must be 1-64 characters"@)
    } else if field_too_long(b.exception_code, 50) {
        Some("exception_code exceeds 50 characters"@)
    } else if field_too_long(b.exception_address, 50) {
        Some("exception_address exceeds 50 characters"@)
    } else if field_too_long(b.faulting_module, 255) {
        Some("faulting_module exceeds 255 characters"@)
    } else if field_too_long(b.script_extender_version, 50) {
        Some("script_extender_version exceeds 50 characters"@)
    } else if field_too_long(b.os_version, 100) {
        Some("os_version exceeds 100 characters"@)
    } else if field_too_long(b.notes, 5000) {
        Some("notes exceeds 5000 characters"@)
    } else if b.crashed_at is None {
        Some("crashed_at is required"@)
    } else {
        None
    }
}

/// The report a valid builder produces.
pub open spec fn built_report(b: BuilderV) -> ReportV {
    ReportV {
        schema_version: data_schema(b.load_order_data->0),
        game_id: b.game_id->0,
        stack_trace: b.stack_trace->0,
        crash_hash: b.crash_hash,
        exception_code: b.exception_code,
        exception_address: b.exception_address,
        faulting_module: b.faulting_module,
        game_version: b.game_version->0,
        script_extender_version: b.script_extender_version,
        os_version: b.os_version,
        load_order_json: data_json(b.load_order_data->0),
        plugin_count: data_len(b.load_order_data->0) as u32,
        crashed_at: b.crashed_at->0,
        notes: b.notes,
    }
}

/// Schema tagging: a report built from a legacy inventory is tagged
/// schema version 1, one built from a fingerprinted inventory is tagged
/// schema version 2, and a non-empty fingerprinted payload names the
/// fingerprint field.
pub proof fn lemma_schema_tagging(b: BuilderV)
    requires
        first_error(b) is None,
    ensures
        b.load_order_data->0 is V1 ==> built_report(b).schema_version == 1,
        b.load_order_data->0 is V2 ==> built_report(b).schema_version == 2,
        b.load_order_data->0 matches LoadOrderDataV::V2(entries) && entries.len() > 0
            ==> crate::inventory::contains_seq(
            built_report(b).load_order_json,
            crate::inventory::fingerprint_field_name(),
        ),
{
    match b.load_order_data->0 {
        LoadOrderDataV::V2(entries) => {
            if entries.len() > 0 {
                crate::inventory::lemma_v2_payload_names_fingerprint(entries);
            }
        },
        LoadOrderDataV::V1(_) => {},
    }
}

/// The empty builder state.
pub open spec fn empty_builder() -> BuilderV {
    BuilderV {
        game_id: None,
        stack_trace: None,
        crash_hash: None,
        exception_code: None,
        exception_address: None,
        faulting_module: None,
        game_version: None,
        script_extender_version: None,
        os_version: None,
        load_order_data: None,
        crashed_at: None,
        notes: None,
    }
}

impl CrashReportBuilder {
    /// Creates a builder with no fields set.
    pub fn new() -> (r: Self)
        ensures
            r@ == empty_builder(),
    {
        CrashReportBuilder {
            game_id: None,
            stack_trace: None,
            crash_hash: None,
            exception_code: None,
            exception_address: None,
            faulting_module: None,
            game_version: None,
            script_extender_version: None,
            os_version: None,
            load_order_data: None,
            crashed_at: None,
            notes: None,
        }
    }

    /// Sets the integration identifier (required).
    pub fn game_id(self, id: &str) -> (r: Self)
        ensures
            r@ == (BuilderV { game_id: Some(id@), ..self@ }),
    {
        Self { game_id: Some(id.to_owned()), ..self }
    }

    /// Sets the stack trace (required).
    pub fn stack_trace(self, trace: &str) -> (r: Self)
        ensures
            r@ == (BuilderV { stack_trace: Some(trace@), ..self@ }),
    {
        Self { stack_trace: Some(trace.to_owned()), ..self }
    }

    /// Sets the crash hash (optional).
    pub fn crash_hash(self, hash: &str) -> (r: Self)
        ensures
            r@ == (BuilderV { crash_hash: Some(hash@), ..self@ }),
    {
        Self { crash_hash: Some(hash.to_owned()), ..self }
    }

    /// Sets the exception code (optional).
    pub fn exception_code(self, code: &str) -> (r: Self)
        ensures
            r@ == (BuilderV { exception_code: Some(code@), ..self@ }),
    {
        Self { exception_code: Some(code.to_owned()), ..self }
    }

    /// Sets the exception address (optional).
    pub fn exception_address(self, addr: &str) -> (r: Self)
        ensures
            r@ == (BuilderV { exception_address: Some(addr@), ..self@ }),
    {
        Self { exception_address: Some(addr.to_owned()), ..self }
    }

    /// Sets the faulting module (optional).
    pub fn faulting_module(self, module: &str) -> (r: Self)
        ensures
            r@ == (BuilderV { faulting_module: Some(module@), ..self@ }),
    {
        Self { faulting_module: Some(module.to_owned()), ..self }
    }

    /// Sets the host version (required).
    pub fn game_version(self, version: &str) -> (r: Self)
        ensures
            r@ == (BuilderV { game_version: Some(version@), ..self@ }),
    {
        Self { game_version: Some(version.to_owned()), ..self }
    }

    /// Sets the script-host version (optional).
    pub fn script_extender_version(self, version: &str) -> (r: Self)
        ensures
            r@ == (BuilderV { script_extender_version: Some(version@), ..self@ }),
    {
        Self { script_extender_version: Some(version.to_owned()), ..self }
    }

    /// Sets the operating-system version (optional).
    pub fn os_version(self, version: &str) -> (r: Self)
        ensures
            r@ == (BuilderV { os_version: Some(version@), ..self@ }),
    {
        Self { os_version: Some(version.to_owned()), ..self }
    }

    /// Supplies a legacy inventory; the report is tagged schema version 1.
    pub fn load_order(self, lo: LoadOrder) -> (r: Self)
        ensures
            r@ == (BuilderV { load_order_data: Some(LoadOrderDataV::V1(lo@)), ..self@ }),
    {
        Self { load_order_data: Some(LoadOrderData::V1(lo)), ..self }
    }

    /// Supplies a fingerprinted inventory; the report is tagged schema
    /// version 2.
    pub fn load_order_v2(self, list: ModList) -> (r: Self)
        ensures
            r@ == (BuilderV { load_order_data: Some(LoadOrderDataV::V2(list@)), ..self@ }),
    {
        Self { load_order_data: Some(LoadOrderData::V2(list)), ..self }
    }

    /// Sets the crash timestamp in milliseconds (required).
    pub fn crashed_at(self, timestamp: u64) -> (r: Self)
        ensures
            r@ == (BuilderV { crashed_at: Some(timestamp), ..self@ }),
    {
        Self { crashed_at: Some(timestamp), ..self }
    }

    /// Stamps the crash timestamp with the current wall-clock time.
    pub fn crashed_now(self) -> (r: Self)
        ensures
            r@.crashed_at is Some,
            r@ == (BuilderV { crashed_at: r@.crashed_at, ..self@ }),
    {
        let now = current_millis();
        self.crashed_at(now)
    }

    /// Sets operator notes (optional).
    pub fn notes(self, notes: &str) -> (r: Self)
        ensures
            r@ == (BuilderV { notes: Some(notes@), ..self@ }),
    {
        Self { notes: Some(notes.to_owned()), ..self }
    }

    /// Validates the accumulated fields and produces the report, or the
    /// first violated constraint in validation order.
    pub fn build(self) -> (r: Result<CreateCrashReport, CtdError>)
        ensures
            match first_error(self@) {
                Some(m) => r matches Err(CtdError::Validation(t)) && t@ == m,
                None => r matches Ok(rep) && rep@ == built_report(self@),
            },
    {
        let game_id = match self.game_id {
            Option::None => {
                return Err(CtdError::Validation("game_id is required".to_owned()));
            },
            Option::Some(s) => {
                if s.as_str().unicode_len() == 0 {
                    return Err(CtdError::Validation("game_id is required".to_owned()));
                }
                s
            },
        };
        let stack_trace = match self.stack_trace {
            Option::None => {
                return Err(CtdError::Validation("stack_trace is required".to_owned()));
            },
            Option::Some(s) => {
                let l = s.as_str().unicode_len();
                if l == 0 {
                    return Err(CtdError::Validation("stack_trace is required".to_owned()));
                }
                if l > 100000 {
                    return Err(
                        CtdError::Validation("stack_trace exceeds 100000 characters".to_owned()),
                    );
                }
                s
            },
        };
        let game_version = match self.game_version {
            Option::None => {
                return Err(CtdError::Validation("game_version is required".to_owned()));
            },
            Option::Some(s) => {
                let l = s.as_str().unicode_len();
                if l == 0 {
                    return Err(CtdError::Validation("game_version is required".to_owned()));
                }
                if l > 50 {
                    return Err(
                        CtdError::Validation("game_version exceeds 50 characters".to_owned()),
                    );
                }
                s
            },
        };
        let (plugin_count, load_order_json, schema_version): (u32, String, u32) =
            match self.load_order_data {
            Option::None => {
                return Err(CtdError::Validation("load_order is required".to_owned()));
            },
            Option::Some(LoadOrderData::V1(lo)) => {
                let count = lo.len();
                if count > 10000 {
                    return Err(CtdError::Validation("plugin_count exceeds 10000".to_owned()));
                }
                let json = lo.to_json();
                (count as u32, json, 1u32)
            },
            Option::Some(LoadOrderData::V2(ml)) => {
                let count = ml.len();
                if count > 10000 {
                    return Err(CtdError::Validation("plugin_count exceeds 10000".to_owned()));
                }
                let json = ml.to_json();
                (count as u32, json, 2u32)
            },
        };
        match &self.crash_hash {
            Option::Some(h) => {
                let l = h.as_str().unicode_len();
                if l == 0 || l > 64 {
                    return Err(
                        CtdError::Validation("crash_hash must be 1-64 characters".to_owned()),
                    );
                }
            },
            Option::None => {},
        }
        match &self.exception_code {
            Option::Some(c) => {
                if c.as_str().unicode_len() > 50 {
                    return Err(
                        CtdError::Validation("exception_code exceeds 50 characters".to_owned()),
                    );
                }
            },
            Option::None => {},
        }
        match &self.exception_address {
            Option::Some(a) => {
                if a.as_str().unicode_len() > 50 {
                    return Err(
                        CtdError::Validation("exception_address exceeds 50 characters".to_owned()),
                    );
                }
            },
            Option::None => {},
        }
        match &self.faulting_module {
            Option::Some(m) => {
                if m.as_str().unicode_len() > 255 {
                    return Err(
                        CtdError::Validation("faulting_module exceeds 255 characters".to_owned()),
                    );
                }
            },
            Option::None => {},
        }
        match &self.script_extender_version {
            Option::Some(v) => {
                if v.as_str().unicode_len() > 50 {
                    return Err(
                        CtdError::Validation(
                            "script_extender_version exceeds 50 characters".to_owned(),
                        ),
                    );
                }
            },
            Option::None => {},
        }
        match &self.os_version {
            Option::Some(v) => {
                if v.as_str().unicode_len() > 100 {
                    return Err(
                        CtdError::Validation("os_version exceeds 100 characters".to_owned()),
                    );
                }
            },
            Option::None => {},
        }
        match &self.notes {
            Option::Some(n) => {
                if n.as_str().unicode_len() > 5000 {
                    return Err(CtdError::Validation("notes exceeds 5000 characters".to_owned()));
                }
            },
            Option::None => {},
        }
        let crashed_at = match self.crashed_at {
            Option::None => {
                return Err(CtdError::Validation("crashed_at is required".to_owned()));
            },
            Option::Some(t) => t,
        };
        Ok(
            CreateCrashReport {
                schema_version,
                game_id,
                stack_trace,
                crash_hash: self.crash_hash,
                exception_code: self.exception_code,
                exception_address: self.exception_address,
                faulting_module: self.faulting_module,
                game_version,
                script_extender_version: self.script_extender_version,
                os_version: self.os_version,
                load_order_json,
                plugin_count,
                crashed_at,
                notes: self.notes,
            },
        )
    }
}

/// Relies on std::time::SystemTime: milliseconds since the Unix epoch at
/// the moment of the call; nothing is promised of the clock's value.
#[verifier::external_body]
fn current_millis() -> u64 {
    std::time::SystemTime::now()
        .duration_since(std::time::UNIX_EPOCH)
        .map(|d| d.as_millis() as u64)
        .unwrap_or(0)
}

impl CreateCrashReport {
    /// Creates a builder for constructing a crash report.
    pub fn builder() -> (r: CrashReportBuilder)
        ensures
            r@ == empty_builder(),
    {
        CrashReportBuilder::new()
    }

    /// Serializes the report to the JSON the collector accepts.
    #[verifier::rlimit(100)]
    pub fn to_json(&self) -> (r: String)
        ensures
            r@ == report_json(self@),
    {
        let mut out = String::new();
        out.append("{\"schemaVersion\":");
        append_dec_u64(&mut out, self.schema_version as u64);
        out.append(",\"gameId\":");
        append_json_string(&mut out, self.game_id.as_str());
        out.append(",\"stackTrace\":");
        append_json_string(&mut out, self.stack_trace.as_str());
        append_opt_field(&mut out, "crashHash", &self.crash_hash);
        append_opt_field(&mut out, "exceptionCode", &self.exception_code);
        append_opt_field(&mut out, "exceptionAddress", &self.exception_address);
        append_opt_field(&mut out, "faultingModule", &self.faulting_module);
        out.append(",\"gameVersion\":");
        append_json_string(&mut out, self.game_version.as_str());
        append_opt_field(&mut out, "scriptExtenderVersion", &self.script_extender_version);
        append_opt_field(&mut out, "osVersion", &self.os_version);
        out.append(",\"loadOrderJson\":");
        append_json_string(&mut out, self.load_order_json.as_str());
        out.append(",\"pluginCount\":");
        append_dec_u64(&mut out, self.plugin_count as u64);
        out.append(",\"crashedAt\":");
        append_dec_u64(&mut out, self.crashed_at);
        append_opt_field(&mut out, "notes", &self.notes);
        out.append("}");
        proof {
            assert(out@ =~= report_json(self@));
        }
        out
    }
}

} // verus!
