//! Offline symbol resolution: per-module symbol tables, the floor search
//! that maps a code offset to the function containing it, and stack-trace
//! formatting.

use crate::strfmt::{append_dec_u64, append_hex_u64, push_char, spec_dec, spec_hex};
use vstd::prelude::*;

verus! {

/// A resolved stack frame with optional symbol information.
#[derive(Debug, Clone)]
pub struct ResolvedFrame {
    /// Module name, e.g. a DLL or executable file name.
    pub module: String,
    /// Raw offset within the module.
    pub offset: u64,
    /// Resolved function name, if available.
    pub function: Option<String>,
    /// Source file path, if available.
    pub file: Option<String>,
    /// Line number in the source file, if available.
    pub line: Option<u32>,
}

/// Mathematical model of a resolved frame.
pub ghost struct ResolvedFrameV {
    /// Module name.
    pub module: Seq<char>,
    /// Raw offset within the module.
    pub offset: u64,
    /// Function name, if available.
    pub function: Option<Seq<char>>,
    /// Source file, if available.
    pub file: Option<Seq<char>>,
    /// Line number, if available.
    pub line: Option<u32>,
}

impl View for ResolvedFrame {
    type V = ResolvedFrameV;

    open spec fn view(&self) -> ResolvedFrameV {
        ResolvedFrameV {
            module: self.module@,
            offset: self.offset,
            function: match self.function {
                Option::Some(ref f) => Some(f@),
                Option::None => None,
            },
            file: match self.file {
                Option::Some(ref f) => Some(f@),
                Option::None => None,
            },
            line: self.line,
        }
    }
}

/// The `module+0xOFFSET` prefix every frame rendering starts with.
pub open spec fn frame_base(f: ResolvedFrameV) -> Seq<char> {
    f.module + "+0x"@ + spec_hex(f.offset as int)
}

/// The full display rendering of a frame.
pub open spec fn frame_format(f: ResolvedFrameV) -> Seq<char> {
    match f.function {
        Option::None => frame_base(f),
        Option::Some(func) => match f.file {
            Option::None => frame_base(f) + " ("@ + func + ")"@,
            Option::Some(file) => match f.line {
                Option::None => frame_base(f) + " ("@ + func + " at "@ + file + ")"@,
                Option::Some(line) => frame_base(f) + " ("@ + func + " at "@ + file + seq![':']
                    + spec_dec(line as int) + ")"@,
            },
        },
    }
}

impl ResolvedFrame {
    /// Creates an unresolved frame with just a module and an offset.
    pub fn unresolved(module: &str, offset: u64) -> (r: Self)
        ensures
            r@ == (ResolvedFrameV {
                module: module@,
                offset,
                function: None,
                file: None,
                line: None,
            }),
    {
        Self { module: module.to_owned(), offset, function: None, file: None, line: None }
    }

    /// Creates a resolved frame with function information.
    pub fn resolved(
        module: &str,
        offset: u64,
        function: &str,
        file: Option<String>,
        line: Option<u32>,
    ) -> (r: Self)
        ensures
            r@.module == module@,
            r@.offset == offset,
            r@.function == Some(function@),
            r@.file == (match file {
                Option::Some(f) => Some(f@),
                Option::None => None::<Seq<char>>,
            }),
            r@.line == line,
    {
        Self { module: module.to_owned(), offset, function: Some(function.to_owned()), file, line }
    }

    /// Returns true if this frame has symbol information.
    pub fn is_resolved(&self) -> (r: bool)
        ensures
            r == (self@.function is Some),
    {
        match &self.function {
            Option::Some(_) => true,
            Option::None => false,
        }
    }

    /// Formats the frame for display in a stack trace.
    pub fn format(&self) -> (r: String)
        ensures
            r@ == frame_format(self@),
    {
        let mut out = String::new();
        out.append(self.module.as_str());
        out.append("+0x");
        append_hex_u64(&mut out, self.offset);
        match &self.function {
            Option::None => {
                assert(out@ =~= frame_format(self@));
            },
            Option::Some(func) => {
                out.append(" (");
                out.append(func.as_str());
                match &self.file {
                    Option::None => {
                        out.append(")");
                        assert(out@ =~= frame_format(self@));
                    },
                    Option::Some(file) => {
                        out.append(" at ");
                        out.append(file.as_str());
                        match self.line {
                            Option::None => {
                                out.append(")");
                                assert(out@ =~= frame_format(self@));
                            },
                            Option::Some(line) => {
                                push_char(&mut out, ':');
                                append_dec_u64(&mut out, line as u64);
                                out.append(")");
                                assert(out@ =~= frame_format(self@));
                            },
                        }
                    },
                }
            },
        }
        out
    }
}

/// One numbered line of a formatted stack trace.
pub open spec fn trace_line(i: int, f: ResolvedFrameV) -> Seq<char> {
    seq!['['] + spec_dec(i) + "] "@ + frame_format(f)
}

/// A whole formatted stack trace: numbered lines joined by newlines,
/// innermost frame first, no trailing newline.
pub open spec fn spec_stack_trace(s: Seq<ResolvedFrameV>) -> Seq<char>
    decreases s.len(),
{
    if s.len() == 0 {
        Seq::empty()
    } else if s.len() == 1 {
        trace_line(0, s[0])
    } else {
        spec_stack_trace(s.drop_last()) + seq!['\n'] + trace_line(s.len() - 1, s.last())
    }
}

/// Formats a stack trace with one numbered line per frame.
pub fn format_stack_trace(frames: &[ResolvedFrame]) -> (r: String)
    ensures
        r@ == spec_stack_trace(frames.deep_view()),
{
    let mut out = String::new();
    let n = frames.len();
    let mut i: usize = 0;
    while i < n
        invariant
            n == frames@.len(),
            i <= n,
            frames.deep_view().len() == n,
            forall|k: int| 0 <= k < n ==> frames.deep_view()[k] == frames@[k]@,
            out@ == spec_stack_trace(frames.deep_view().take(i as int)),
        decreases n - i,
    {
        if i > 0 {
            push_char(&mut out, '\n');
        }
        push_char(&mut out, '[');
        append_dec_u64(&mut out, i as u64);
        out.append("] ");
        let line = frames[i].format();
        out.append(line.as_str());
        proof {
            let dv = frames.deep_view();
            assert(dv.take(i + 1).drop_last() =~= dv.take(i as int));
            assert(dv.take(i + 1).last() == dv[i as int]);
            assert(out@ =~= spec_stack_trace(dv.take(i + 1)));
        }
        i = i + 1;
    }
    proof {
        assert(frames.deep_view().take(n as int) =~= frames.deep_view());
    }
    out
}

impl DeepView for ResolvedFrame {
    type V = ResolvedFrameV;

    open spec fn deep_view(&self) -> ResolvedFrameV {
        self@
    }
}

/// True for the path separators recognized in module paths.
pub open spec fn is_sep(c: char) -> bool {
    c == '/' || c == '\\'
}

/// The file-name portion of a path: everything after the last separator.
pub open spec fn spec_file_name(s: Seq<char>) -> Seq<char>
    decreases s.len(),
{
    if s.len() == 0 {
        s
    } else if is_sep(s.last()) {
        Seq::empty()
    } else {
        spec_file_name(s.drop_last()).push(s.last())
    }
}

/// Extracts the file name of a path-like string.
pub fn file_name_of(path: &str) -> (r: String)
    ensures
        r@ == spec_file_name(path@),
{
    let n = path.unicode_len();
    let mut out = String::new();
    let mut i: usize = 0;
    while i < n
        invariant
            n == path@.len(),
            i <= n,
            out@ == spec_file_name(path@.take(i as int)),
        decreases n - i,
    {
        let c = path.get_char(i);
        if c == '/' || c == '\\' {
            out = String::new();
        } else {
            push_char(&mut out, c);
        }
        proof {
            assert(path@.take(i + 1).drop_last() =~= path@.take(i as int));
            assert(path@.take(i + 1).last() == path@[i as int]);
        }
        i = i + 1;
    }
    proof {
        assert(path@.take(n as int) =~= path@);
    }
    out
}

/// The index of the last `.` at position one or later, or -1 when there is
/// none; a leading dot alone does not start an extension.
pub open spec fn spec_last_dot(s: Seq<char>) -> int
    decreases s.len(),
{
    if s.len() <= 1 {
        -1
    } else if s.last() == '.' {
        s.len() - 1
    } else {
        spec_last_dot(s.drop_last())
    }
}

/// The stem of a file name: the part before its extension.
pub open spec fn spec_stem(s: Seq<char>) -> Seq<char> {
    if spec_last_dot(s) >= 0 {
        s.take(spec_last_dot(s))
    } else {
        s
    }
}

/// Extracts the stem of a file name.
pub fn stem_of(name: &str) -> (r: String)
    ensures
        r@ == spec_stem(name@),
{
    let n = name.unicode_len();
    let mut j: usize = n;
    proof {
        assert(name@.take(n as int) =~= name@);
    }
    while j > 1
        invariant
            j <= n,
            n == name@.len(),
            spec_last_dot(name@) == spec_last_dot(name@.take(j as int)),
        decreases j,
    {
        proof {
            assert(name@.take(j as int).drop_last() =~= name@.take(j - 1));
            assert(name@.take(j as int).last() == name@[j - 1]);
        }
        if name.get_char(j - 1) == '.' {
            proof {
                assert(spec_last_dot(name@.take(j as int)) == j - 1);
            }
            let stem = name.substring_char(0, j - 1);
            proof {
                assert(stem@ =~= spec_stem(name@));
            }
            return stem.to_owned();
        }
        j = j - 1;
    }
    proof {
        assert(spec_last_dot(name@.take(j as int)) == -1);
        assert(spec_stem(name@) =~= name@);
    }
    name.to_owned()
}

/// Lowercases one ASCII letter; other characters pass through.
pub open spec fn lower_char(c: char) -> char {
    if c == 'A' {
        'a'
    } else if c == 'B' {
        'b'
    } else if c == 'C' {
        'c'
    } else if c == 'D' {
        'd'
    } else if c == 'E' {
        'e'
    } else if c == 'F' {
        'f'
    } else if c == 'G' {
        'g'
    } else if c == 'H' {
        'h'
    } else if c == 'I' {
        'i'
    } else if c == 'J' {
        'j'
    } else if c == 'K' {
        'k'
    } else if c == 'L' {
        'l'
    } else if c == 'M' {
        'm'
    } else if c == 'N' {
        'n'
    } else if c == 'O' {
        'o'
    } else if c == 'P' {
        'p'
    } else if c == 'Q' {
        'q'
    } else if c == 'R' {
        'r'
    } else if c == 'S' {
        's'
    } else if c == 'T' {
        't'
    } else if c == 'U' {
        'u'
    } else if c == 'V' {
        'v'
    } else if c == 'W' {
        'w'
    } else if c == 'X' {
        'x'
    } else if c == 'Y' {
        'y'
    } else if c == 'Z' {
        'z'
    } else {
        c
    }
}

/// ASCII-lowercasing of a whole string.
pub open spec fn lower_seq(s: Seq<char>) -> Seq<char> {
    Seq::new(s.len(), |i: int| lower_char(s[i]))
}

/// Lowercases the ASCII letters of one character.
pub fn lower_char_of(c: char) -> (r: char)
    ensures
        r == lower_char(c),
{
    if c == 'A' {
        'a'
    } else if c == 'B' {
        'b'
    } else if c == 'C' {
        'c'
    } else if c == 'D' {
        'd'
    } else if c == 'E' {
        'e'
    } else if c == 'F' {
        'f'
    } else if c == 'G' {
        'g'
    } else if c == 'H' {
        'h'
    } else if c == 'I' {
        'i'
    } else if c == 'J' {
        'j'
    } else if c == 'K' {
        'k'
    } else if c == 'L' {
        'l'
    } else if c == 'M' {
        'm'
    } else if c == 'N' {
        'n'
    } else if c == 'O' {
        'o'
    } else if c == 'P' {
        'p'
    } else if c == 'Q' {
        'q'
    } else if c == 'R' {
        'r'
    } else if c == 'S' {
        's'
    } else if c == 'T' {
        't'
    } else if c == 'U' {
        'u'
    } else if c == 'V' {
        'v'
    } else if c == 'W' {
        'w'
    } else if c == 'X' {
        'x'
    } else if c == 'Y' {
        'y'
    } else if c == 'Z' {
        'z'
    } else {
        c
    }
}

/// ASCII-lowercases a string.
pub fn ascii_lower(s: &str) -> (r: String)
    ensures
        r@ == lower_seq(s@),
{
    let n = s.unicode_len();
    let mut out = String::new();
    let mut i: usize = 0;
    while i < n
        invariant
            n == s@.len(),
            i <= n,
            out@ =~= lower_seq(s@).take(i as int),
        decreases n - i,
    {
        let c = s.get_char(i);
        push_char(&mut out, lower_char_of(c));
        proof {
            assert(out@ =~= lower_seq(s@).take(i + 1));
        }
        i = i + 1;
    }
    proof {
        assert(lower_seq(s@).take(n as int) =~= lower_seq(s@));
    }
    out
}

/// A symbol table is well formed when its entries are strictly sorted by
/// address: sorted ascending and deduplicated at once.
pub open spec fn table_wf(t: Seq<(u32, String)>) -> bool {
    forall|i: int, j: int| 0 <= i < j < t.len() ==> t[i].0 < t[j].0
}

/// True when the table has an entry at exactly this address.
pub open spec fn table_has_addr(t: Seq<(u32, String)>, a: u32) -> bool {
    exists|i: int| 0 <= i < t.len() && t[i].0 == a
}

/// True when the table maps this address to this name.
pub open spec fn table_has_pair(t: Seq<(u32, String)>, a: u32, n: Seq<char>) -> bool {
    exists|i: int| 0 <= i < t.len() && t[i].0 == a && t[i].1@ == n
}

/// True when `name` is the floor-search answer for `rva` in `t`: some entry
/// is at or below `rva`, no later entry is, and `name` is that entry's.
pub open spec fn floor_answer(t: Seq<(u32, String)>, rva: u32, name: Seq<char>) -> bool {
    exists|i: int|
        0 <= i < t.len() && t[i].0 <= rva && name == t[i].1@ && (forall|j: int|
            i < j < t.len() ==> t[j].0 > rva)
}

/// True when every table entry is at an address above `rva`, so the floor
/// search has no answer.
pub open spec fn floor_empty(t: Seq<(u32, String)>, rva: u32) -> bool {
    forall|i: int| 0 <= i < t.len() ==> t[i].0 > rva
}

/// Cached symbol information for a single module: function entry points,
/// strictly sorted by relative virtual address.
#[derive(Debug)]
pub struct ModuleSymbols {
    /// Function entry points as (relative virtual address, name) pairs.
    pub functions: Vec<(u32, String)>,
}

impl ModuleSymbols {
    /// True when the table is strictly sorted by address.
    pub open spec fn wf(&self) -> bool {
        table_wf(self.functions@)
    }

    /// Floor search: the name tabulated at the greatest address at or below
    /// `rva`, or nothing when `rva` precedes every tabulated address.
    pub fn lookup(&self, rva: u32) -> (r: Option<String>)
        requires
            self.wf(),
        ensures
            match r {
                Some(name) => floor_answer(self.functions@, rva, name@),
                None => floor_empty(self.functions@, rva),
            },
    {
        let n = self.functions.len();
        if n == 0 {
            return None;
        }
        if self.functions[0].0 > rva {
            return None;
        }
        let mut lo: usize = 0;
        let mut hi: usize = n - 1;
        while lo < hi
            invariant
                lo <= hi < n,
                n == self.functions@.len(),
                table_wf(self.functions@),
                self.functions@[lo as int].0 <= rva,
                hi == n - 1 || self.functions@[hi + 1].0 > rva,
            decreases hi - lo,
        {
            let mid = lo + (hi - lo + 1) / 2;
            if self.functions[mid].0 <= rva {
                lo = mid;
            } else {
                hi = mid - 1;
            }
        }
        Some(self.functions[lo].1.clone())
    }
}

/// True when `n` is the name of the first pair with address `a` in `ps`.
pub open spec fn first_occurrence(ps: Seq<(u32, String)>, a: u32, n: Seq<char>) -> bool {
    exists|k: int|
        0 <= k < ps.len() && ps[k].0 == a && ps[k].1@ == n && (forall|k2: int|
            0 <= k2 < k ==> ps[k2].0 != a)
}

/// The table built from raw symbol pairs: strictly sorted, every input
/// address present, and every kept name the first one reported for its
/// address.
pub open spec fn table_from(ps: Seq<(u32, String)>, t: Seq<(u32, String)>) -> bool {
    &&& table_wf(t)
    &&& forall|a: u32, n: Seq<char>| table_has_pair(t, a, n) ==> first_occurrence(ps, a, n)
    &&& forall|k: int| 0 <= k < ps.len() ==> table_has_addr(t, #[trigger] ps[k].0)
}

/// Inserts one pair into a strictly sorted table, keeping the existing
/// entry when the address is already present.
fn insert_pair(tbl: &mut Vec<(u32, String)>, addr: u32, name: String)
    requires
        table_wf(old(tbl)@),
    ensures
        table_wf(final(tbl)@),
        table_has_addr(old(tbl)@, addr) ==> final(tbl)@ == old(tbl)@,
        !table_has_addr(old(tbl)@, addr) ==> {
            &&& final(tbl)@.len() == old(tbl)@.len() + 1
            &&& forall|a: u32, n: Seq<char>|
                table_has_pair(final(tbl)@, a, n) <==> (table_has_pair(old(tbl)@, a, n) || (a
                    == addr && n == name@))
            &&& forall|a: u32|
                #[trigger] table_has_addr(final(tbl)@, a) <==> (table_has_addr(old(tbl)@, a) || a
                    == addr)
        },
{
    let n = tbl.len();
    let mut p: usize = 0;
    while p < n && tbl[p].0 < addr
        invariant
            p <= n,
            n == tbl@.len(),
            table_wf(tbl@),
            tbl@ == old(tbl)@,
            forall|i: int| 0 <= i < p ==> tbl@[i].0 < addr,
        decreases n - p,
    {
        p = p + 1;
    }
    if p < n && tbl[p].0 == addr {
        proof {
            assert(table_has_addr(tbl@, addr));
        }
        return ;
    }
    proof {
        assert forall|i: int| 0 <= i < tbl@.len() implies tbl@[i].0 != addr by {
            if i < p {
            } else if i == p {
            } else {
                assert(tbl@[p as int].0 < tbl@[i].0);
            }
        }
        assert(!table_has_addr(tbl@, addr));
    }
    tbl.insert(p, (addr, name));
    proof {
        let new = tbl@;
        let prev = old(tbl)@;
        assert(new == prev.insert(p as int, (addr, name)));
        assert forall|i: int, j: int| 0 <= i < j < new.len() implies new[i].0 < new[j].0 by {
            if j < p {
            } else if i < p && j == p {
            } else if i < p && j > p {
                assert(new[j] == prev[j - 1]);
            } else if i == p {
                assert(new[j] == prev[j - 1]);
                assert(prev[j - 1].0 >= prev[p as int].0);
            } else {
                assert(new[i] == prev[i - 1]);
                assert(new[j] == prev[j - 1]);
            }
        }
        assert forall|a: u32, n2: Seq<char>| #[trigger]
            table_has_pair(new, a, n2) implies (table_has_pair(prev, a, n2) || (a == addr && n2
            == name@)) by {
            let i = choose|i: int| 0 <= i < new.len() && new[i].0 == a && new[i].1@ == n2;
            if i < p {
                assert(prev[i] == new[i]);
            } else if i > p {
                assert(prev[i - 1] == new[i]);
            }
        }
        assert forall|a: u32, n2: Seq<char>|
            table_has_pair(prev, a, n2) implies #[trigger] table_has_pair(new, a, n2) by {
            let i = choose|i: int| 0 <= i < prev.len() && prev[i].0 == a && prev[i].1@ == n2;
            if i < p {
                assert(new[i] == prev[i]);
            } else {
                assert(new[i + 1] == prev[i]);
            }
        }
        assert(new[p as int].0 == addr && new[p as int].1@ == name@);
        assert(table_has_pair(new, addr, name@));
        assert forall|a: u32| #[trigger]
            table_has_addr(new, a) implies (table_has_addr(prev, a) || a == addr) by {
            let i = choose|i: int| 0 <= i < new.len() && new[i].0 == a;
            if i < p {
                assert(prev[i] == new[i]);
            } else if i > p {
                assert(prev[i - 1] == new[i]);
            }
        }
        assert forall|a: u32|
            table_has_addr(prev, a) implies #[trigger] table_has_addr(new, a) by {
            let i = choose|i: int| 0 <= i < prev.len() && prev[i].0 == a;
            if i < p {
                assert(new[i] == prev[i]);
            } else {
                assert(new[i + 1] == prev[i]);
            }
        }
        assert(table_has_addr(new, addr));
    }
}

/// Builds a strictly sorted, deduplicated symbol table from raw pairs;
/// the first name reported for an address wins.
pub fn build_symbol_table(pairs: Vec<(u32, String)>) -> (r: ModuleSymbols)
    ensures
        r.wf(),
        table_from(pairs@, r.functions@),
{
    let n = pairs.len();
    let mut tbl: Vec<(u32, String)> = Vec::new();
    let mut k: usize = 0;
    while k < n
        invariant
            k <= n,
            n == pairs@.len(),
            table_wf(tbl@),
            forall|a: u32, n2: Seq<char>|
                table_has_pair(tbl@, a, n2) ==> first_occurrence(pairs@.take(k as int), a, n2),
            forall|k2: int| 0 <= k2 < k ==> table_has_addr(tbl@, #[trigger] pairs@[k2].0),
        decreases n - k,
    {
        let ghost prev_tbl = tbl@;
        let addr = pairs[k].0;
        let name = pairs[k].1.clone();
        insert_pair(&mut tbl, addr, name);
        proof {
            let take_k = pairs@.take(k as int);
            let take_k1 = pairs@.take(k + 1);
            assert(take_k1.drop_last() =~= take_k);
            assert(take_k1.last() == pairs@[k as int]);
            assert forall|a: u32, n2: Seq<char>| #[trigger]
                table_has_pair(tbl@, a, n2) implies first_occurrence(take_k1, a, n2) by {
                if table_has_addr(prev_tbl, addr) {
                    assert(tbl@ == prev_tbl);
                    assert(first_occurrence(take_k, a, n2));
                    let w = choose|w: int|
                        0 <= w < take_k.len() && take_k[w].0 == a && take_k[w].1@ == n2 && (
                        forall|k2: int| 0 <= k2 < w ==> take_k[k2].0 != a);
                    assert(take_k1[w].0 == a && take_k1[w].1@ == n2);
                    assert(forall|k2: int| 0 <= k2 < w ==> take_k1[k2].0 != a);
                } else {
                    if table_has_pair(prev_tbl, a, n2) {
                        assert(first_occurrence(take_k, a, n2));
                        let w = choose|w: int|
                            0 <= w < take_k.len() && take_k[w].0 == a && take_k[w].1@ == n2 && (
                            forall|k2: int| 0 <= k2 < w ==> take_k[k2].0 != a);
                        assert(take_k1[w].0 == a && take_k1[w].1@ == n2);
                        assert(forall|k2: int| 0 <= k2 < w ==> take_k1[k2].0 != a);
                    } else {
                        assert(a == addr && n2 == pairs@[k as int].1@);
                        assert forall|k2: int| 0 <= k2 < k implies take_k1[k2].0 != a by {
                            assert(table_has_addr(tbl@, pairs@[k2].0));
                        }
                        assert(take_k1[k as int].0 == a && take_k1[k as int].1@ == n2);
                    }
                }
            }
        }
        k = k + 1;
    }
    proof {
        assert(pairs@.take(n as int) =~= pairs@);
    }
    ModuleSymbols { functions: tbl }
}

/// In a module list with pairwise-distinct keys, the cached table under
/// the key at position `w` is exactly the table stored there.
pub proof fn lemma_table_at(ms: Seq<(String, ModuleSymbols)>, w: int)
    requires
        0 <= w < ms.len(),
        forall|i: int, j: int| 0 <= i < j < ms.len() ==> ms[i].0@ != ms[j].0@,
    ensures
        has_module(ms, ms[w].0@),
        module_table(ms, ms[w].0@) == ms[w].1.functions@,
{
    let name = ms[w].0@;
    assert(has_module(ms, name));
    let c = choose|i: int| 0 <= i < ms.len() && ms[i].0@ == name;
    if c < w {
        assert(ms[c].0@ != ms[w].0@);
    } else if w < c {
        assert(ms[w].0@ != ms[c].0@);
    }
}

/// True when a table is cached under this (lowercased) module key.
pub open spec fn has_module(ms: Seq<(String, ModuleSymbols)>, name: Seq<char>) -> bool {
    exists|i: int| 0 <= i < ms.len() && ms[i].0@ == name
}

/// The cached table under this key; meaningful only when `has_module`.
pub open spec fn module_table(ms: Seq<(String, ModuleSymbols)>, name: Seq<char>) -> Seq<
    (u32, String),
> {
    let i = choose|i: int| 0 <= i < ms.len() && ms[i].0@ == name;
    ms[i].1.functions@
}

/// The relative virtual address a raw in-module offset is looked up at:
/// symbol tables address at most 32 bits.
pub open spec fn rva_of(offset: u64) -> u32 {
    (offset % 0x1_0000_0000) as u32
}

/// The module key a path is cached under: the lowercased stem of its file
/// name, or `unknown` when the path has no file name.
pub open spec fn module_key_of(path: Seq<char>) -> Seq<char> {
    if spec_stem(spec_file_name(path)).len() == 0 {
        "unknown"@
    } else {
        lower_seq(spec_stem(spec_file_name(path)))
    }
}

/// The display name of a module path: its file name, or `unknown`.
pub open spec fn module_display_of(path: Seq<char>) -> Seq<char> {
    if spec_file_name(path).len() == 0 {
        "unknown"@
    } else {
        spec_file_name(path)
    }
}

/// How a frame must come out of `resolve`: module name and offset always
/// carried over, the function name filled in exactly when the cached table
/// of the module answers the floor search.
pub open spec fn resolution_ok(
    ms: Seq<(String, ModuleSymbols)>,
    path: Seq<char>,
    offset: u64,
    f: ResolvedFrameV,
) -> bool {
    &&& f.module == module_display_of(path)
    &&& f.offset == offset
    &&& f.file is None
    &&& f.line is None
    &&& match f.function {
        Option::Some(name) => has_module(ms, module_key_of(path)) && floor_answer(
            module_table(ms, module_key_of(path)),
            rva_of(offset),
            name,
        ),
        Option::None => !has_module(ms, module_key_of(path)) || floor_empty(
            module_table(ms, module_key_of(path)),
            rva_of(offset),
        ),
    }
}

/// Symbol resolver: per-module symbol tables keyed by lowercased module
/// name, with the directories the symbol files are searched in.
#[derive(Debug)]
pub struct SymbolResolver {
    /// Cache directory for downloaded or converted symbol files.
    pub cache_dir: String,
    /// Directories searched for symbol files.
    pub search_dirs: Vec<String>,
    /// Loaded symbol tables, keyed by lowercased module name.
    pub modules: Vec<(String, ModuleSymbols)>,
}

impl SymbolResolver {
    /// Well-formed: every cached table strictly sorted, and module keys
    /// pairwise distinct.
    pub open spec fn wf(&self) -> bool {
        &&& forall|i: int| 0 <= i < self.modules@.len() ==> (#[trigger] self.modules@[i].1).wf()
        &&& forall|i: int, j: int|
            0 <= i < j < self.modules@.len() ==> self.modules@[i].0@ != self.modules@[j].0@
    }

    /// Creates a resolver with the given cache directory and no loaded
    /// modules.
    pub fn new(cache_dir: &str) -> (r: Self)
        ensures
            r.wf(),
            r.cache_dir@ == cache_dir@,
            r.search_dirs@.len() == 0,
            r.modules@.len() == 0,
    {
        SymbolResolver {
            cache_dir: cache_dir.to_owned(),
            search_dirs: Vec::new(),
            modules: Vec::new(),
        }
    }

    /// Adds a directory to search for symbol files.
    pub fn add_search_dir(&mut self, dir: &str)
        ensures
            final(self).cache_dir == old(self).cache_dir,
            final(self).modules == old(self).modules,
            final(self).search_dirs@.len() == old(self).search_dirs@.len() + 1,
            final(self).search_dirs@.last()@ == dir@,
            forall|i: int|
                0 <= i < old(self).search_dirs@.len() ==> final(self).search_dirs@[i] == old(
                    self,
                ).search_dirs@[i],
            old(self).wf() ==> final(self).wf(),
    {
        self.search_dirs.push(dir.to_owned());
    }

    /// Caches the symbol table built from raw pairs under the lowercased
    /// stem of the module name, replacing any table already there; other
    /// modules are untouched.
    pub fn load_module_symbols(&mut self, module_name: &str, pairs: Vec<(u32, String)>)
        requires
            old(self).wf(),
        ensures
            final(self).wf(),
            final(self).cache_dir == old(self).cache_dir,
            final(self).search_dirs == old(self).search_dirs,
            has_module(final(self).modules@, module_key_of(module_name@)),
            table_from(pairs@, module_table(final(self).modules@, module_key_of(module_name@))),
            forall|other: Seq<char>|
                other != module_key_of(module_name@) ==> (#[trigger] has_module(
                    final(self).modules@,
                    other,
                ) == has_module(old(self).modules@, other) && (has_module(
                    old(self).modules@,
                    other,
                ) ==> module_table(final(self).modules@, other) == module_table(
                    old(self).modules@,
                    other,
                ))),
    {
        let stem = stem_of(file_name_of(module_name).as_str());
        let key = if stem.as_str().unicode_len() == 0 {
            proof {
                reveal_strlit("unknown");
            }
            String::from_str("unknown")
        } else {
            ascii_lower(stem.as_str())
        };
        proof {
            assert(key@ == module_key_of(module_name@));
        }
        let table = build_symbol_table(pairs);
        let n = self.modules.len();
        let mut i: usize = 0;
        while i < n
            invariant
                i <= n,
                n == self.modules@.len(),
                self == old(self),
                old(self).wf(),
                key@ == module_key_of(module_name@),
                table.wf(),
                table_from(pairs@, table.functions@),
                forall|k: int| 0 <= k < i ==> self.modules@[k].0@ != key@,
            decreases n - i,
        {
            if self.modules[i].0 == key {
                proof {
                    assert(old(self).modules@[i as int].0@ == key@);
                }
                self.modules[i] = (key, table);
                proof {
                    let new = self.modules@;
                    let prev = old(self).modules@;
                    assert(new == prev.update(i as int, new[i as int]));
                    assert(new[i as int].0@ == key@ && new[i as int].1 == table);
                    assert forall|k: int| 0 <= k < new.len() && k != i implies new[k]
                        == prev[k] by {}
                    assert forall|i2: int, j2: int|
                        0 <= i2 < j2 < new.len() implies new[i2].0@ != new[j2].0@ by {
                        assert(new[i2].0@ == prev[i2].0@ && new[j2].0@ == prev[j2].0@);
                    }
                    assert forall|k: int|
                        0 <= k < new.len() implies (#[trigger] new[k].1).wf() by {
                        if k != i {
                            assert(new[k].1 == prev[k].1);
                            assert(prev[k].1.wf());
                        }
                    }
                    lemma_table_at(new, i as int);
                    assert(module_table(new, key@) == table.functions@);
                    assert forall|other: Seq<char>|
                        other != module_key_of(module_name@) implies #[trigger] has_module(
                        new,
                        other,
                    ) == has_module(prev, other) by {
                        if has_module(new, other) {
                            let w = choose|w: int| 0 <= w < new.len() && new[w].0@ == other;
                            assert(new[w].0@ == other);
                            assert(w != i);
                            assert(prev[w].0@ == other);
                        }
                        if has_module(prev, other) {
                            let w = choose|w: int| 0 <= w < prev.len() && prev[w].0@ == other;
                            assert(prev[w].0@ == other);
                            assert(w != i);
                            assert(new[w].0@ == other);
                        }
                    }
                    assert forall|other: Seq<char>|
                        other != module_key_of(module_name@) && has_module(
                            prev,
                            other,
                        ) implies #[trigger] module_table(new, other) == module_table(
                        prev,
                        other,
                    ) by {
                        let w = choose|w: int| 0 <= w < prev.len() && prev[w].0@ == other;
                        assert(prev[w].0@ == other);
                        assert(w != i);
                        assert(new[w] == prev[w]);
                        lemma_table_at(new, w);
                        lemma_table_at(prev, w);
                    }
                }
                return ;
            }
            i = i + 1;
        }
        self.modules.push((key, table));
        proof {
            let new = self.modules@;
            let prev = old(self).modules@;
            let last = new.len() - 1;
            assert(new[last].0@ == key@ && new[last].1 == table);
            assert(forall|k: int| 0 <= k < last ==> new[k] == prev[k]);
            assert forall|i2: int, j2: int|
                0 <= i2 < j2 < new.len() implies new[i2].0@ != new[j2].0@ by {
                if j2 < last {
                    assert(new[i2].0@ == prev[i2].0@ && new[j2].0@ == prev[j2].0@);
                } else {
                    assert(new[i2].0@ == prev[i2].0@);
                    assert(prev[i2].0@ != key@);
                }
            }
            assert forall|k: int| 0 <= k < new.len() implies (#[trigger] new[k].1).wf() by {
                if k != last {
                    assert(new[k].1 == prev[k].1);
                    assert(prev[k].1.wf());
                }
            }
            lemma_table_at(new, last);
            assert(module_table(new, key@) == table.functions@);
            assert(has_module(new, module_key_of(module_name@)));
            assert forall|other: Seq<char>|
                other != module_key_of(module_name@) implies #[trigger] has_module(new, other)
                == has_module(prev, other) by {
                if has_module(new, other) {
                    let w = choose|w: int| 0 <= w < new.len() && new[w].0@ == other;
                    assert(new[w].0@ == other);
                    assert(w != last);
                    assert(prev[w].0@ == other);
                }
                if has_module(prev, other) {
                    let w = choose|w: int| 0 <= w < prev.len() && prev[w].0@ == other;
                    assert(prev[w].0@ == other);
                    assert(new[w].0@ == other);
                }
            }
            assert forall|other: Seq<char>|
                other != module_key_of(module_name@) && has_module(prev, other) implies #[trigger]
                module_table(new, other) == module_table(prev, other) by {
                let w = choose|w: int| 0 <= w < prev.len() && prev[w].0@ == other;
                assert(prev[w].0@ == other);
                assert(new[w] == prev[w]);
                lemma_table_at(new, w);
                lemma_table_at(prev, w);
            }
        }
    }

    /// Resolves one frame against the cached tables; a module without a
    /// cached table, or an offset before its first tabulated function,
    /// degrades to an unresolved frame.
    pub fn resolve(&self, path: &str, offset: u64) -> (r: ResolvedFrame)
        requires
            self.wf(),
        ensures
            resolution_ok(self.modules@, path@, offset, r@),
    {
        let file_name = file_name_of(path);
        let display = if file_name.as_str().unicode_len() == 0 {
            proof {
                reveal_strlit("unknown");
            }
            String::from_str("unknown")
        } else {
            file_name.clone()
        };
        let stem = stem_of(file_name.as_str());
        let key = if stem.as_str().unicode_len() == 0 {
            proof {
                reveal_strlit("unknown");
            }
            String::from_str("unknown")
        } else {
            ascii_lower(stem.as_str())
        };
        proof {
            assert(display@ == module_display_of(path@));
            assert(key@ == module_key_of(path@));
        }
        let rva = #[verifier::truncate] (offset as u32);
        proof {
            assert(offset as u32 == (offset % 0x1_0000_0000) as u32) by (bit_vector);
            assert(rva == rva_of(offset));
        }
        let n = self.modules.len();
        let mut i: usize = 0;
        while i < n
            invariant
                i <= n,
                n == self.modules@.len(),
                self.wf(),
                display@ == module_display_of(path@),
                key@ == module_key_of(path@),
                rva == rva_of(offset),
                forall|k: int| 0 <= k < i ==> self.modules@[k].0@ != key@,
            decreases n - i,
        {
            if self.modules[i].0 == key {
                proof {
                    assert(self.modules@[i as int].0@ == key@);
                    lemma_table_at(self.modules@, i as int);
                    assert(has_module(self.modules@, key@));
                    assert(module_table(self.modules@, key@) == self.modules@[
                        i as int].1.functions@);
                }
                let looked = self.modules[i].1.lookup(rva);
                match looked {
                    Option::Some(name) => {
                        return ResolvedFrame {
                            module: display,
                            offset,
                            function: Some(name),
                            file: None,
                            line: None,
                        };
                    },
                    Option::None => {
                        return ResolvedFrame {
                            module: display,
                            offset,
                            function: None,
                            file: None,
                            line: None,
                        };
                    },
                }
            }
            i = i + 1;
        }
        proof {
            assert(!has_module(self.modules@, key@));
        }
        ResolvedFrame { module: display, offset, function: None, file: None, line: None }
    }

    /// Resolves a whole list of raw (module path, offset) frames.
    pub fn resolve_all(&self, frames: &Vec<(String, u64)>) -> (r: Vec<ResolvedFrame>)
        requires
            self.wf(),
        ensures
            r@.len() == frames@.len(),
            forall|k: int|
                0 <= k < frames@.len() ==> resolution_ok(
                    self.modules@,
                    frames@[k].0@,
                    frames@[k].1,
                    (#[trigger] r@[k])@,
                ),
    {
        let n = frames.len();
        let mut out: Vec<ResolvedFrame> = Vec::new();
        let mut i: usize = 0;
        while i < n
            invariant
                i <= n,
                n == frames@.len(),
                self.wf(),
                out@.len() == i,
                forall|k: int|
                    0 <= k < i ==> resolution_ok(
                        self.modules@,
                        frames@[k].0@,
                        frames@[k].1,
                        (#[trigger] out@[k])@,
                    ),
            decreases n - i,
        {
            let f = self.resolve(frames[i].0.as_str(), frames[i].1);
            out.push(f);
            i = i + 1;
        }
        out
    }

    /// Returns the number of modules with a cached table.
    pub fn loaded_module_count(&self) -> (r: usize)
        ensures
            r == self.modules@.len(),
    {
        self.modules.len()
    }

    /// Returns the cache directory path.
    pub fn cache_dir(&self) -> (r: &str)
        ensures
            r@ == self.cache_dir@,
    {
        self.cache_dir.as_str()
    }
}

} // verus!

