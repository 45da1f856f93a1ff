//! The processor orchestrator: extract what matters from the dump's
//! streams, identify the crashing/requesting thread, walk every thread's
//! stack, attribute frames to unloaded modules, and assemble the report.
//!
//! The dump itself arrives pre-extracted as plain values (`DumpData`): the
//! container parser that produces typed streams from the raw buffer is an
//! external collaborator, and whatever it hands over is processed here.

use vstd::prelude::*;
use vstd::string::StrSliceExecFns;
use crate::context::CpuContext;
use crate::memory::{region_index_at, spec_region_index_at, StackMemory};
use crate::modules::{
    clone_module_list, clone_unloaded_module_list, spec_module_list_like, spec_unloaded_contains,
    spec_unloaded_list_like, ModuleList, UnloadedModule, UnloadedModuleList,
};
use crate::process_state::{
    CallStack, CallStackInfo, FrameTrust, LinuxStandardBase, ProcessState, StackFrame, SystemInfo,
};
use crate::stackwalker::{
    spec_frame_module_resolved, spec_frames_chained, walk_stack,
};
use crate::symbols::SymbolProvider;
use crate::text::{clone_string, string_eq_str};

verus! {

// ------------------------------------------------------------------
// Input model
// ------------------------------------------------------------------

/// One thread of the dump's thread list.
pub struct ThreadData {
    pub thread_id: u32,
    /// The thread's own CPU context, if the dump carried one.
    pub context: Option<CpuContext>,
    /// Start of the thread's stack memory range, used to find its stack
    /// among the dump's memory regions.
    pub stack_base: u64,
    /// The thread's last error value, already rendered.
    pub last_error: Option<String>,
}

/// The system-info stream.
pub struct SystemInfoData {
    pub os: String,
    pub os_version: String,
    pub os_build: Option<String>,
    pub cpu: String,
    pub cpu_info: Option<String>,
    pub number_of_processors: u32,
}

/// The MISC-info stream's fields of interest.
pub struct MiscInfoData {
    pub process_id: Option<u32>,
    pub process_create_time: Option<u64>,
}

/// The Breakpad-info stream: which thread wrote the dump, and which
/// requested it.
pub struct BreakpadInfoData {
    pub dump_thread_id: Option<u32>,
    pub requesting_thread_id: Option<u32>,
}

/// The exception stream.
pub struct ExceptionData {
    pub crash_reason: String,
    pub crash_address: u64,
    pub crashing_thread_id: u32,
    /// The CPU context at the point of the crash, if decodable.
    pub context: Option<CpuContext>,
}

/// Everything the orchestrator reads from a dump, as plain values. A `None`
/// stream was absent from the dump.
pub struct DumpData {
    /// Seconds since the epoch at which the dump was written.
    pub time_date_stamp: u64,
    pub thread_list: Option<Vec<ThreadData>>,
    /// The thread-names stream: thread id to name.
    pub thread_names: Vec<(u32, String)>,
    pub system_info: Option<SystemInfoData>,
    /// Linux Standard Base release key/value pairs.
    pub linux_standard_base: Option<Vec<(String, String)>>,
    /// Linux CPU info key/value pairs.
    pub linux_cpu_info: Vec<(String, String)>,
    pub misc_info: Option<MiscInfoData>,
    /// Mac crash-info records, already rendered to strings.
    pub mac_crash_info: Option<Vec<String>>,
    pub breakpad_info: Option<BreakpadInfoData>,
    pub exception: Option<ExceptionData>,
    pub modules: ModuleList,
    pub unloaded_modules: UnloadedModuleList,
    /// Saved memory regions; threads' stacks are found here.
    pub memory_regions: Vec<StackMemory>,
    pub unknown_streams: Vec<u32>,
    pub unimplemented_streams: Vec<u32>,
}

/// Side-channel enrichment: thread names and code-signing metadata that may
/// arrive out of band, consulted only when the primary streams lack the
/// data.
pub struct Evil {
    pub thread_names: Vec<(u32, String)>,
    pub certs: Vec<(String, String)>,
}

/// Advanced options for the processor.
pub struct ProcessorOptions {
    /// Pre-parsed side-channel enrichment, if any.
    pub evil: Option<Evil>,
}

impl Default for ProcessorOptions {
    /// No options: no side-channel enrichment.
    fn default() -> (r: ProcessorOptions)
        ensures
            r.evil is None,
    {
        ProcessorOptions { evil: None }
    }
}

/// An error encountered during minidump processing. Anything short of these
/// degrades gracefully instead.
#[derive(Clone, Copy, Debug, PartialEq, Eq, Structural)]
pub enum ProcessError {
    /// The dump could not be read at all.
    MinidumpReadError,
    /// An unknown error occurred.
    UnknownError,
    /// The system information stream was not found.
    MissingSystemInfo,
    /// The thread list stream was not found.
    MissingThreadList,
}

// ------------------------------------------------------------------
// CPU microcode version: hex parsing
// ------------------------------------------------------------------

/// The value of a hexadecimal digit, either case.
pub open spec fn spec_hex_digit_val(c: char) -> Option<int> {
    if 48 <= c as u32 && c as u32 <= 57 {
        Some(c as u32 - 48)
    } else if 97 <= c as u32 && c as u32 <= 102 {
        Some(c as u32 - 97 + 10)
    } else if 65 <= c as u32 && c as u32 <= 70 {
        Some(c as u32 - 65 + 10)
    } else {
        None
    }
}

pub open spec fn spec_all_hex(s: Seq<char>) -> bool {
    forall|i: int| 0 <= i < s.len() ==> spec_hex_digit_val(#[trigger] s[i]) is Some
}

/// The number the digit string denotes, reading bad digits as zero.
pub open spec fn spec_hex_num(s: Seq<char>) -> int
    decreases s.len(),
{
    if s.len() == 0 {
        0
    } else {
        spec_hex_num(s.drop_last()) * 16 + match spec_hex_digit_val(s.last()) {
            Option::Some(d) => d,
            Option::None => 0,
        }
    }
}

pub proof fn lemma_hex_num_nonneg(s: Seq<char>)
    ensures
        spec_hex_num(s) >= 0,
    decreases s.len(),
{
    if s.len() > 0 {
        lemma_hex_num_nonneg(s.drop_last());
    }
}

/// Extending a digit string never shrinks its value.
pub proof fn lemma_hex_num_mono(s: Seq<char>, k: int)
    requires
        0 <= k <= s.len(),
    ensures
        spec_hex_num(s.subrange(0, k)) <= spec_hex_num(s),
    decreases s.len() - k,
{
    if k < s.len() {
        lemma_hex_num_mono(s, k + 1);
        lemma_hex_num_nonneg(s.subrange(0, k));
        assert(s.subrange(0, k + 1).drop_last() =~= s.subrange(0, k));
        assert(spec_hex_num(s.subrange(0, k)) <= spec_hex_num(s.subrange(0, k + 1)));
    } else {
        assert(s.subrange(0, k) =~= s);
    }
}

/// A non-empty all-hex string denotes its value; anything else, or a value
/// over `u64::MAX`, fails.
pub open spec fn spec_parse_hex_u64(s: Seq<char>) -> Option<u64> {
    if s.len() >= 1 && spec_all_hex(s) && spec_hex_num(s) <= u64::MAX {
        Some(spec_hex_num(s) as u64)
    } else {
        None
    }
}

/// The microcode revision a cpu-info value denotes: a `0x` prefix followed
/// by a valid hex number, or nothing.
pub open spec fn spec_parse_microcode_value(v: Seq<char>) -> Option<u64> {
    if v.len() >= 2 && v[0] == '0' && v[1] == 'x' {
        spec_parse_hex_u64(v.subrange(2, v.len() as int))
    } else {
        None
    }
}

fn hex_digit_val(c: char) -> (r: Option<u8>)
    ensures
        match r {
            Some(d) => spec_hex_digit_val(c) == Some(d as int),
            None => spec_hex_digit_val(c) is None,
        },
{
    let u = c as u32;
    if 48 <= u && u <= 57 {
        Some((u - 48) as u8)
    } else if 97 <= u && u <= 102 {
        Some((u - 97 + 10) as u8)
    } else if 65 <= u && u <= 70 {
        Some((u - 65 + 10) as u8)
    } else {
        None
    }
}

/// Parse a cpu-info `microcode` value: strip the `0x` prefix and read the
/// rest as a hex integer.
pub fn parse_microcode_value(val: &str) -> (r: Option<u64>)
    ensures
        r == spec_parse_microcode_value(val@),
{
    let n = val.unicode_len();
    if n < 2 {
        return None;
    }
    if val.get_char(0) != '0' || val.get_char(1) != 'x' {
        return None;
    }
    let ghost rest = val@.subrange(2, n as int);
    if n == 2 {
        return None;
    }
    let mut v: u64 = 0;
    let mut i: usize = 2;
    while i < n
        invariant
            2 <= i <= n,
            n == val@.len(),
            rest == val@.subrange(2, n as int),
            spec_all_hex(val@.subrange(2, i as int)),
            v == spec_hex_num(val@.subrange(2, i as int)),
        decreases n - i,
    {
        let c = val.get_char(i);
        let ghost pre = val@.subrange(2, i as int);
        match hex_digit_val(c) {
            Option::None => {
                proof {
                    assert(rest[i - 2] == val@[i as int]);
                    assert(!spec_all_hex(rest));
                }
                return None;
            },
            Option::Some(d) => {
                if v >= 0x1000000000000000 {
                    proof {
                        assert(val@.subrange(2, i as int + 1).drop_last() =~= pre);
                        assert(val@.subrange(2, i as int + 1).last() == val@[i as int]);
                        assert(spec_hex_num(val@.subrange(2, i as int + 1)) > u64::MAX);
                        lemma_hex_num_mono(rest, i - 1);
                        assert(rest.subrange(0, i - 1) =~= val@.subrange(2, i as int + 1));
                        assert(spec_hex_num(rest) > u64::MAX);
                    }
                    return None;
                }
                proof {
                    assert(val@.subrange(2, i as int + 1).drop_last() =~= pre);
                    assert(val@.subrange(2, i as int + 1).last() == val@[i as int]);
                }
                v = v * 16 + d as u64;
                i = i + 1;
            },
        }
    }
    proof {
        assert(val@.subrange(2, i as int) =~= rest);
        lemma_hex_num_nonneg(rest);
    }
    Some(v)
}

/// Index of the first cpu-info pair whose key is `microcode`.
pub open spec fn spec_microcode_of_pairs(pairs: Seq<(String, String)>) -> Option<u64>
    decreases pairs.len(),
{
    if pairs.len() == 0 {
        None
    } else if pairs[0].0@ == "microcode"@ {
        spec_parse_microcode_value(pairs[0].1@)
    } else {
        spec_microcode_of_pairs(pairs.drop_first())
    }
}

pub proof fn lemma_microcode_found(pairs: Seq<(String, String)>, i: int)
    requires
        0 <= i < pairs.len(),
        forall|j: int| 0 <= j < i ==> (#[trigger] pairs[j]).0@ != "microcode"@,
        pairs[i].0@ == "microcode"@,
    ensures
        spec_microcode_of_pairs(pairs) == spec_parse_microcode_value(pairs[i].1@),
    decreases i,
{
    if i > 0 {
        lemma_microcode_found(pairs.drop_first(), i - 1);
    }
}

pub proof fn lemma_microcode_none(pairs: Seq<(String, String)>)
    requires
        forall|j: int| 0 <= j < pairs.len() ==> (#[trigger] pairs[j]).0@ != "microcode"@,
    ensures
        spec_microcode_of_pairs(pairs) is None,
    decreases pairs.len(),
{
    if pairs.len() > 0 {
        lemma_microcode_none(pairs.drop_first());
    }
}

/// Extract the CPU microcode version from the Linux cpu-info stream: the
/// first `microcode` key decides, parsed as a `0x`-prefixed hex integer.
pub fn extract_microcode(pairs: &Vec<(String, String)>) -> (r: Option<u64>)
    ensures
        r == spec_microcode_of_pairs(pairs@),
{
    let n = pairs.len();
    let mut i: usize = 0;
    while i < n
        invariant
            i <= n,
            n == pairs@.len(),
            forall|j: int| 0 <= j < i ==> (#[trigger] pairs@[j]).0@ != "microcode"@,
        decreases n - i,
    {
        if string_eq_str(&pairs[i].0, "microcode") {
            proof {
                lemma_microcode_found(pairs@, i as int);
            }
            return parse_microcode_value(pairs[i].1.as_str());
        }
        i = i + 1;
    }
    proof {
        lemma_microcode_none(pairs@);
    }
    None
}

// ------------------------------------------------------------------
// Linux Standard Base
// ------------------------------------------------------------------

/// The abstract LSB fields.
pub struct LsbView {
    pub id: Seq<char>,
    pub release: Seq<char>,
    pub codename: Seq<char>,
    pub description: Seq<char>,
}

pub open spec fn spec_lsb_empty() -> LsbView {
    LsbView {
        id: Seq::<char>::empty(),
        release: Seq::<char>::empty(),
        codename: Seq::<char>::empty(),
        description: Seq::<char>::empty(),
    }
}

/// Apply one key/value pair, accepting either the `DISTRIB_*` or the
/// `/etc/os-release` spelling of each field; unknown keys change nothing.
pub open spec fn spec_lsb_apply(acc: LsbView, key: Seq<char>, val: Seq<char>) -> LsbView {
    if key == "DISTRIB_ID"@ || key == "ID"@ {
        LsbView { id: val, ..acc }
    } else if key == "DISTRIB_RELEASE"@ || key == "VERSION_ID"@ {
        LsbView { release: val, ..acc }
    } else if key == "DISTRIB_CODENAME"@ || key == "VERSION_CODENAME"@ {
        LsbView { codename: val, ..acc }
    } else if key == "DISTRIB_DESCRIPTION"@ || key == "PRETTY_NAME"@ {
        LsbView { description: val, ..acc }
    } else {
        acc
    }
}

/// Fold the stream's pairs in order; a later key overrides an earlier one.
pub open spec fn spec_lsb_fold(pairs: Seq<(String, String)>) -> LsbView
    decreases pairs.len(),
{
    if pairs.len() == 0 {
        spec_lsb_empty()
    } else {
        spec_lsb_apply(spec_lsb_fold(pairs.drop_last()), pairs.last().0@, pairs.last().1@)
    }
}

pub open spec fn spec_lsb_matches(lsb: LinuxStandardBase, v: LsbView) -> bool {
    lsb.id@ == v.id && lsb.release@ == v.release && lsb.codename@ == v.codename
        && lsb.description@ == v.description
}

/// Consume the LSB stream into its four fields.
pub fn parse_linux_standard_base(pairs: &Vec<(String, String)>) -> (r: LinuxStandardBase)
    ensures
        spec_lsb_matches(r, spec_lsb_fold(pairs@)),
{
    let mut lsb = LinuxStandardBase {
        id: String::new(),
        release: String::new(),
        codename: String::new(),
        description: String::new(),
    };
    let n = pairs.len();
    let mut i: usize = 0;
    while i < n
        invariant
            i <= n,
            n == pairs@.len(),
            spec_lsb_matches(lsb, spec_lsb_fold(pairs@.subrange(0, i as int))),
        decreases n - i,
    {
        let key = &pairs[i].0;
        let val = &pairs[i].1;
        if string_eq_str(key, "DISTRIB_ID") || string_eq_str(key, "ID") {
            lsb.id = clone_string(val);
        } else if string_eq_str(key, "DISTRIB_RELEASE") || string_eq_str(key, "VERSION_ID") {
            lsb.release = clone_string(val);
        } else if string_eq_str(key, "DISTRIB_CODENAME") || string_eq_str(
            key,
            "VERSION_CODENAME",
        ) {
            lsb.codename = clone_string(val);
        } else if string_eq_str(key, "DISTRIB_DESCRIPTION") || string_eq_str(
            key,
            "PRETTY_NAME",
        ) {
            lsb.description = clone_string(val);
        }
        proof {
            assert(pairs@.subrange(0, i as int + 1).drop_last() =~= pairs@.subrange(0, i as int));
            assert(pairs@.subrange(0, i as int + 1).last() == pairs@[i as int]);
        }
        i = i + 1;
    }
    proof {
        assert(pairs@.subrange(0, n as int) =~= pairs@);
    }
    lsb
}

/// Law: either spelling of an LSB key sets the same field. Appending
/// `DISTRIB_ID=v` or `ID=v` to any stream makes the id `v`, and likewise
/// for the release, codename and description pairs; a key outside the eight
/// changes nothing.
pub proof fn lemma_lsb_key_aliases(pairs: Seq<(String, String)>, k: String, v: String)
    ensures
        (k@ == "DISTRIB_ID"@ || k@ == "ID"@) ==> spec_lsb_fold(pairs.push((k, v))).id == v@,
        (k@ == "DISTRIB_RELEASE"@ || k@ == "VERSION_ID"@) ==> spec_lsb_fold(
            pairs.push((k, v)),
        ).release == v@,
        (k@ == "DISTRIB_CODENAME"@ || k@ == "VERSION_CODENAME"@) ==> spec_lsb_fold(
            pairs.push((k, v)),
        ).codename == v@,
        (k@ == "DISTRIB_DESCRIPTION"@ || k@ == "PRETTY_NAME"@) ==> spec_lsb_fold(
            pairs.push((k, v)),
        ).description == v@,
{
    reveal_strlit("DISTRIB_ID");
    reveal_strlit("ID");
    reveal_strlit("DISTRIB_RELEASE");
    reveal_strlit("VERSION_ID");
    reveal_strlit("DISTRIB_CODENAME");
    reveal_strlit("VERSION_CODENAME");
    reveal_strlit("DISTRIB_DESCRIPTION");
    reveal_strlit("PRETTY_NAME");
    assert("DISTRIB_ID"@.len() == 10);
    assert("ID"@.len() == 2);
    assert("DISTRIB_RELEASE"@.len() == 15);
    assert("VERSION_ID"@.len() == 10);
    assert("DISTRIB_CODENAME"@.len() == 16);
    assert("VERSION_CODENAME"@.len() == 16);
    assert("DISTRIB_DESCRIPTION"@.len() == 19);
    assert("PRETTY_NAME"@.len() == 11);
    assert("VERSION_ID"@[0] == 'V');
    assert("DISTRIB_ID"@[0] == 'D');
    assert("VERSION_ID"@ != "DISTRIB_ID"@);
    assert(pairs.push((k, v)).drop_last() =~= pairs);
    assert(pairs.push((k, v)).last() == (k, v));
}

// ------------------------------------------------------------------
// Derived stream facts
// ------------------------------------------------------------------

/// The id of the thread that wrote the dump, if the Breakpad info reports
/// one.
pub open spec fn spec_dump_thread_id(dump: DumpData) -> Option<u32> {
    match dump.breakpad_info {
        Option::Some(b) => b.dump_thread_id,
        Option::None => None,
    }
}

/// The id of the requesting thread: the exception stream's crashing thread
/// wins over the Breakpad info's requesting thread.
pub open spec fn spec_requesting_thread_id(dump: DumpData) -> Option<u32> {
    match dump.exception {
        Option::Some(e) => Some(e.crashing_thread_id),
        Option::None => match dump.breakpad_info {
            Option::Some(b) => b.requesting_thread_id,
            Option::None => None,
        },
    }
}

pub open spec fn spec_exception_context(dump: DumpData) -> Option<CpuContext> {
    match dump.exception {
        Option::Some(e) => e.context,
        Option::None => None,
    }
}

/// The context a thread's walk starts from: the requesting thread prefers
/// the exception's context over its own.
pub open spec fn spec_chosen_context(dump: DumpData, t: ThreadData) -> Option<CpuContext> {
    if spec_requesting_thread_id(dump) == Some(t.thread_id) {
        match spec_exception_context(dump) {
            Option::Some(c) => Some(c),
            Option::None => t.context,
        }
    } else {
        t.context
    }
}

/// The thread is the requesting thread and is not skipped as the dump
/// writer.
pub open spec fn spec_is_requesting(dump: DumpData, t: ThreadData) -> bool {
    spec_requesting_thread_id(dump) == Some(t.thread_id) && spec_dump_thread_id(dump) != Some(
        t.thread_id,
    )
}

/// Index of the last requesting thread in the list prefix.
pub open spec fn spec_requesting_index(dump: DumpData, tl: Seq<ThreadData>) -> Option<int>
    decreases tl.len(),
{
    if tl.len() == 0 {
        None
    } else if spec_is_requesting(dump, tl.last()) {
        Some(tl.len() - 1)
    } else {
        spec_requesting_index(dump, tl.drop_last())
    }
}

pub open spec fn spec_req_index_matches(dump: DumpData, tl: Seq<ThreadData>, r: Option<usize>)
    -> bool {
    match spec_requesting_index(dump, tl) {
        Option::None => r is None,
        Option::Some(i) => r matches Some(u) && u as int == i,
    }
}

// ------------------------------------------------------------------
// Thread names
// ------------------------------------------------------------------

/// The name the first matching pair assigns to the thread id.
pub open spec fn spec_name_in(pairs: Seq<(u32, String)>, id: u32) -> Option<Seq<char>>
    decreases pairs.len(),
{
    if pairs.len() == 0 {
        None
    } else if pairs[0].0 == id {
        Some(pairs[0].1@)
    } else {
        spec_name_in(pairs.drop_first(), id)
    }
}

pub proof fn lemma_name_in_found(pairs: Seq<(u32, String)>, id: u32, i: int)
    requires
        0 <= i < pairs.len(),
        forall|j: int| 0 <= j < i ==> (#[trigger] pairs[j]).0 != id,
        pairs[i].0 == id,
    ensures
        spec_name_in(pairs, id) == Some(pairs[i].1@),
    decreases i,
{
    if i > 0 {
        lemma_name_in_found(pairs.drop_first(), id, i - 1);
    }
}

pub proof fn lemma_name_in_none(pairs: Seq<(u32, String)>, id: u32)
    requires
        forall|j: int| 0 <= j < pairs.len() ==> (#[trigger] pairs[j]).0 != id,
    ensures
        spec_name_in(pairs, id) is None,
    decreases pairs.len(),
{
    if pairs.len() > 0 {
        lemma_name_in_none(pairs.drop_first(), id);
    }
}

/// Find the name the stream assigns to a thread id, if any.
pub fn lookup_thread_name(pairs: &Vec<(u32, String)>, id: u32) -> (r: Option<String>)
    ensures
        match spec_name_in(pairs@, id) {
            Option::Some(s) => r matches Some(x) && x@ == s,
            Option::None => r is None,
        },
{
    let n = pairs.len();
    let mut i: usize = 0;
    while i < n
        invariant
            i <= n,
            n == pairs@.len(),
            forall|j: int| 0 <= j < i ==> (#[trigger] pairs@[j]).0 != id,
        decreases n - i,
    {
        if pairs[i].0 == id {
            proof {
                lemma_name_in_found(pairs@, id, i as int);
            }
            return Some(clone_string(&pairs[i].1));
        }
        i = i + 1;
    }
    proof {
        lemma_name_in_none(pairs@, id);
    }
    None
}

/// The thread name the report resolves: the thread-names stream first, the
/// side-channel enrichment second.
pub open spec fn spec_resolved_name(dump: DumpData, evil: Option<Evil>, id: u32) -> Option<
    Seq<char>,
> {
    match spec_name_in(dump.thread_names@, id) {
        Option::Some(s) => Some(s),
        Option::None => match evil {
            Option::Some(e) => spec_name_in(e.thread_names@, id),
            Option::None => None,
        },
    }
}

// ------------------------------------------------------------------
// Unloaded-module attribution
// ------------------------------------------------------------------

/// The (name, offset) record of every unloaded module whose interval
/// contains `pc`, in stream order; each offset is `pc` minus that module's
/// base of image.
pub open spec fn spec_unloaded_entries(unl: Seq<UnloadedModule>, pc: u64) -> Seq<(Seq<char>, u64)>
    decreases unl.len(),
{
    if unl.len() == 0 {
        Seq::empty()
    } else {
        let init = spec_unloaded_entries(unl.drop_last(), pc);
        if spec_unloaded_contains(unl.last(), pc) {
            init.push((unl.last().name@, (pc - unl.last().base_of_image) as u64))
        } else {
            init
        }
    }
}

pub open spec fn spec_unloaded_table_matches(
    table: Seq<(String, Vec<u64>)>,
    entries: Seq<(Seq<char>, u64)>,
) -> bool {
    &&& table.len() == entries.len()
    &&& forall|k: int|
        0 <= k < table.len() ==> (#[trigger] table[k]).0@ == entries[k].0 && table[k].1@ == seq![
            entries[k].1,
        ]
}

/// Record, for an instruction outside every loaded module, each unloaded
/// module that contains it, with the instruction's offset from that
/// module's base.
fn attribute_unloaded(unloaded: &UnloadedModuleList, pc: u64) -> (r: Vec<(String, Vec<u64>)>)
    ensures
        spec_unloaded_table_matches(r@, spec_unloaded_entries(unloaded.modules@, pc)),
{
    let mut table: Vec<(String, Vec<u64>)> = Vec::new();
    let n = unloaded.modules.len();
    let mut j: usize = 0;
    while j < n
        invariant
            j <= n,
            n == unloaded.modules@.len(),
            spec_unloaded_table_matches(
                table@,
                spec_unloaded_entries(unloaded.modules@.subrange(0, j as int), pc),
            ),
        decreases n - j,
    {
        proof {
            assert(unloaded.modules@.subrange(0, j as int + 1).drop_last()
                =~= unloaded.modules@.subrange(0, j as int));
            assert(unloaded.modules@.subrange(0, j as int + 1).last()
                == unloaded.modules@[j as int]);
        }
        let m = &unloaded.modules[j];
        if m.base_of_image <= pc && pc - m.base_of_image < m.size_of_image {
            let off = pc - m.base_of_image;
            let mut offs: Vec<u64> = Vec::new();
            offs.push(off);
            proof {
                assert(offs@ =~= seq![off]);
            }
            table.push((clone_string(&m.name), offs));
        }
        j = j + 1;
    }
    proof {
        assert(unloaded.modules@.subrange(0, n as int) =~= unloaded.modules@);
    }
    table
}

/// The pair (name, offset) is what some unloaded module containing `pc`
/// contributes: its name, and `pc` minus its base of image.
pub open spec fn spec_offset_of_unloaded(
    unl: Seq<UnloadedModule>,
    pc: u64,
    name: Seq<char>,
    off: u64,
) -> bool {
    exists|j: int|
        0 <= j < unl.len() && spec_unloaded_contains(#[trigger] unl[j], pc) && name
            == unl[j].name@ && off == (pc - unl[j].base_of_image) as u64
}

/// Each entry of the record comes from an unloaded module containing `pc`,
/// and every such module contributes an entry.
pub proof fn lemma_unloaded_entries_exact(unl: Seq<UnloadedModule>, pc: u64)
    ensures
        forall|e: int| #![trigger spec_unloaded_entries(unl, pc)[e]]
            0 <= e < spec_unloaded_entries(unl, pc).len() ==> spec_offset_of_unloaded(
                unl,
                pc,
                spec_unloaded_entries(unl, pc)[e].0,
                spec_unloaded_entries(unl, pc)[e].1,
            ),
        forall|j: int|
            0 <= j < unl.len() && spec_unloaded_contains(#[trigger] unl[j], pc) ==> exists|e: int|
                0 <= e < spec_unloaded_entries(unl, pc).len() && spec_unloaded_entries(unl, pc)[e]
                    == ((unl[j].name@, (pc - unl[j].base_of_image) as u64)),
    decreases unl.len(),
{
    let whole = spec_unloaded_entries(unl, pc);
    if unl.len() > 0 {
        let m = unl.len() - 1;
        let dropped = unl.drop_last();
        let init = spec_unloaded_entries(dropped, pc);
        lemma_unloaded_entries_exact(dropped, pc);
        assert(forall|j: int| 0 <= j < m ==> dropped[j] == unl[j]);
        assert(unl.last() == unl[m]);
        assert forall|e: int| #![trigger whole[e]] 0 <= e < whole.len() implies
            spec_offset_of_unloaded(unl, pc, whole[e].0, whole[e].1) by {
            if spec_unloaded_contains(unl[m], pc) && e == whole.len() - 1 {
                assert(whole[e] == (unl[m].name@, (pc - unl[m].base_of_image) as u64));
            } else {
                assert(0 <= e < init.len() && whole[e] == init[e]);
                assert(spec_offset_of_unloaded(dropped, pc, init[e].0, init[e].1));
                let j = choose|j: int|
                    0 <= j < dropped.len() && spec_unloaded_contains(#[trigger] dropped[j], pc)
                        && init[e].0 == dropped[j].name@
                        && init[e].1 == (pc - dropped[j].base_of_image) as u64;
                assert(unl[j] == dropped[j]);
                assert(spec_unloaded_contains(unl[j], pc));
            }
        }
        assert forall|j: int|
            0 <= j < unl.len() && spec_unloaded_contains(#[trigger] unl[j], pc) implies exists|
            e: int,
        |
            0 <= e < whole.len() && whole[e] == ((
            unl[j].name@,
            (pc - unl[j].base_of_image) as u64,
            )) by {
            if j == m {
                assert(whole[whole.len() - 1] == (
                    unl[m].name@,
                    (pc - unl[m].base_of_image) as u64,
                ));
            } else {
                assert(dropped[j] == unl[j]);
                assert(spec_unloaded_contains(dropped[j], pc));
                let e = choose|e: int|
                    0 <= e < init.len() && init[e] == ((
                    dropped[j].name@,
                    (pc - dropped[j].base_of_image) as u64,
                    ));
                assert(whole[e] == init[e]);
            }
        }
    }
}

/// Law: the unloaded-module record attached to a frame is sound and
/// complete. Every recorded offset equals the frame's instruction minus
/// the base of image of an unloaded module that contains the instruction,
/// under that module's name; every unloaded module containing the
/// instruction is recorded that way; and the record is non-empty exactly
/// when some unloaded module contains the instruction.
#[verifier::rlimit(50)]
pub proof fn lemma_unloaded_record_exact(
    unl: Seq<UnloadedModule>,
    pc: u64,
    table: Seq<(String, Vec<u64>)>,
)
    requires
        spec_unloaded_table_matches(table, spec_unloaded_entries(unl, pc)),
    ensures
        forall|k: int, o: int| #![trigger table[k].1@[o]]
            0 <= k < table.len() && 0 <= o < table[k].1@.len() ==> spec_offset_of_unloaded(
                unl,
                pc,
                table[k].0@,
                table[k].1@[o],
            ),
        forall|j: int|
            0 <= j < unl.len() && spec_unloaded_contains(#[trigger] unl[j], pc) ==> exists|k: int|
                0 <= k < table.len() && table[k].0@ == unl[j].name@ && table[k].1@ == seq![
                    (pc - unl[j].base_of_image) as u64,
                ],
        (table.len() > 0) == exists|j: int|
            0 <= j < unl.len() && spec_unloaded_contains(#[trigger] unl[j], pc),
{
    lemma_unloaded_entries_exact(unl, pc);
    let entries = spec_unloaded_entries(unl, pc);
    assert forall|k: int, o: int| #![trigger table[k].1@[o]]
        0 <= k < table.len() && 0 <= o < table[k].1@.len() implies spec_offset_of_unloaded(
        unl,
        pc,
        table[k].0@,
        table[k].1@[o],
    ) by {
        assert(table[k].1@ == seq![entries[k].1]);
        assert(table[k].1@[o] == entries[k].1);
        assert(table[k].0@ == entries[k].0);
        assert(spec_offset_of_unloaded(unl, pc, entries[k].0, entries[k].1));
    }
    assert forall|j: int|
        0 <= j < unl.len() && spec_unloaded_contains(#[trigger] unl[j], pc) implies exists|k: int|
        0 <= k < table.len() && table[k].0@ == unl[j].name@ && table[k].1@ == seq![
            (pc - unl[j].base_of_image) as u64,
        ] by {
        let e = choose|e: int|
            0 <= e < entries.len() && entries[e] == ((
            unl[j].name@,
            (pc - unl[j].base_of_image) as u64,
            ));
        assert(table[e].0@ == entries[e].0);
        assert(table[e].1@ == seq![entries[e].1]);
    }
    if table.len() > 0 {
        assert(spec_offset_of_unloaded(unl, pc, entries[0].0, entries[0].1));
    }
}

/// Attribution changed nothing of a frame but its unloaded-modules record,
/// and that only when no loaded module matched.
pub open spec fn spec_attr_step(
    unl: Seq<UnloadedModule>,
    pre: StackFrame,
    post: StackFrame,
) -> bool {
    &&& post.instruction == pre.instruction
    &&& post.trust == pre.trust
    &&& post.context == pre.context
    &&& post.module == pre.module
    &&& post.function_name == pre.function_name
    &&& post.function_base == pre.function_base
    &&& post.parameter_size == pre.parameter_size
    &&& post.source_file_name == pre.source_file_name
    &&& post.source_line == pre.source_line
    &&& post.source_line_base == pre.source_line_base
    &&& match pre.module {
        Option::None => spec_unloaded_table_matches(
            post.unloaded_modules@,
            spec_unloaded_entries(unl, pre.instruction),
        ),
        Option::Some(_) => post.unloaded_modules == pre.unloaded_modules,
    }
}

// ------------------------------------------------------------------
// The per-thread and whole-report contracts
// ------------------------------------------------------------------

/// Every CPU context the dump carries is well-formed.
pub open spec fn spec_dump_wf(dump: DumpData) -> bool {
    &&& match dump.thread_list {
        Option::Some(tl) => forall|i: int|
            0 <= i < tl@.len() ==> match (#[trigger] tl@[i]).context {
                Option::Some(c) => c.wf(),
                Option::None => true,
            },
        Option::None => true,
    }
    &&& match spec_exception_context(dump) {
        Option::Some(c) => c.wf(),
        Option::None => true,
    }
}

pub open spec fn spec_opt_string_like(a: Option<String>, b: Option<String>) -> bool {
    match b {
        Option::Some(s) => a matches Some(x) && x@ == s@,
        Option::None => a is None,
    }
}

/// What holds of one walked (non-skipped) thread's call stack.
pub open spec fn spec_walked_thread<P: SymbolProvider>(
    provider: &P,
    dump: DumpData,
    evil: Option<Evil>,
    t: ThreadData,
    stack: CallStack,
) -> bool {
    &&& stack.thread_id == t.thread_id
    &&& match spec_resolved_name(dump, evil, t.thread_id) {
        Option::Some(s) => stack.thread_name matches Some(x) && x@ == s,
        Option::None => stack.thread_name is None,
    }
    &&& match t.last_error {
        Option::Some(s) => stack.last_error_value matches Some(x) && x@ == s@,
        Option::None => stack.last_error_value is None,
    }
    &&& match spec_chosen_context(dump, t) {
        Option::None => stack.info == CallStackInfo::MissingContext && stack.frames@.len() == 0,
        Option::Some(c) => {
            &&& stack.info == CallStackInfo::StackOk
            &&& stack.frames@.len() >= 1
            &&& stack.frames@[0].trust == FrameTrust::Context
            &&& stack.frames@[0].context.equal_to(c)
            &&& stack.frames@[0].instruction == c.spec_pc_raw()
            &&& (spec_region_index_at(dump.memory_regions@, t.stack_base) is None
                ==> stack.frames@.len() == 1)
            &&& spec_frames_chained(provider, dump.modules.modules@, stack.frames@)
            &&& (forall|k: int|
                0 <= k < stack.frames@.len() ==> (#[trigger] stack.frames@[k]).context.wf())
            &&& (forall|k: int|
                0 <= k < stack.frames@.len() ==> spec_frame_module_resolved(
                    provider,
                    dump.modules.modules@,
                    #[trigger] stack.frames@[k],
                ))
            &&& (forall|k: int|
                0 <= k < stack.frames@.len() ==> match (#[trigger] stack.frames@[k]).module {
                    Option::None => spec_unloaded_table_matches(
                        stack.frames@[k].unloaded_modules@,
                        spec_unloaded_entries(
                            dump.unloaded_modules.modules@,
                            stack.frames@[k].instruction,
                        ),
                    ),
                    Option::Some(_) => true,
                })
        },
    }
}

/// What holds of each entry of the report's thread list.
pub open spec fn spec_processed_thread<P: SymbolProvider>(
    provider: &P,
    dump: DumpData,
    evil: Option<Evil>,
    t: ThreadData,
    stack: CallStack,
) -> bool {
    if spec_dump_thread_id(dump) == Some(t.thread_id) {
        stack.thread_id == t.thread_id && stack.info == CallStackInfo::DumpThreadSkipped
            && stack.frames@.len() == 0
    } else {
        spec_walked_thread(provider, dump, evil, t, stack)
    }
}

/// What a successful report states about its input.
pub open spec fn spec_state_matches<P: SymbolProvider>(
    provider: &P,
    dump: DumpData,
    evil: Option<Evil>,
    state: ProcessState,
) -> bool {
    &&& dump.thread_list matches Some(tl) && {
        &&& state.threads@.len() == tl@.len()
        &&& (forall|i: int|
            0 <= i < tl@.len() ==> spec_processed_thread(
                provider,
                dump,
                evil,
                #[trigger] tl@[i],
                state.threads@[i],
            ))
        &&& spec_req_index_matches(dump, tl@, state.requesting_thread)
    }
    &&& dump.system_info matches Some(si) && {
        &&& state.system_info.os@ == si.os@
        &&& (state.system_info.os_version matches Some(v) && v@ == si.os_version@)
        &&& spec_opt_string_like(state.system_info.os_build, si.os_build)
        &&& state.system_info.cpu@ == si.cpu@
        &&& spec_opt_string_like(state.system_info.cpu_info, si.cpu_info)
        &&& state.system_info.cpu_count == si.number_of_processors as usize
    }
    &&& state.system_info.cpu_microcode_version == spec_microcode_of_pairs(dump.linux_cpu_info@)
    &&& match dump.linux_standard_base {
        Option::Some(p) => state.linux_standard_base matches Some(l) && spec_lsb_matches(
            l,
            spec_lsb_fold(p@),
        ),
        Option::None => state.linux_standard_base is None,
    }
    &&& state.time == dump.time_date_stamp
    &&& match dump.mac_crash_info {
        Option::Some(v) => state.mac_crash_info matches Some(w) && w@.len() == v@.len() && (
        forall|i: int| 0 <= i < v@.len() ==> (#[trigger] w@[i])@ == v@[i]@),
        Option::None => state.mac_crash_info is None,
    }
    &&& match dump.misc_info {
        Option::Some(mi) => state.process_id == mi.process_id && state.process_create_time
            == mi.process_create_time,
        Option::None => state.process_id is None && state.process_create_time is None,
    }
    &&& match dump.exception {
        Option::Some(e) => (state.crash_reason matches Some(cr) && cr@ == e.crash_reason@)
            && state.crash_address == Some(e.crash_address),
        Option::None => state.crash_reason is None && state.crash_address is None,
    }
    &&& state.assertion is None
    &&& spec_module_list_like(state.modules.modules@, dump.modules.modules@)
    &&& spec_unloaded_list_like(state.unloaded_modules.modules@, dump.unloaded_modules.modules@)
    &&& state.unknown_streams@ == dump.unknown_streams@
    &&& state.unimplemented_streams@ == dump.unimplemented_streams@
    &&& match evil {
        Option::Some(e) => state.cert_info == e.certs,
        Option::None => state.cert_info@.len() == 0,
    }
}

/// An element-wise copy of a string vector, views preserved.
fn clone_string_vec(v: &Vec<String>) -> (r: Vec<String>)
    ensures
        r@.len() == v@.len(),
        forall|i: int| 0 <= i < v@.len() ==> (#[trigger] r@[i])@ == v@[i]@,
{
    let n = v.len();
    let mut r: Vec<String> = Vec::new();
    let mut i: usize = 0;
    while i < n
        invariant
            i <= n,
            n == v@.len(),
            r@.len() == i,
            forall|j: int| 0 <= j < i ==> (#[trigger] r@[j])@ == v@[j]@,
        decreases n - i,
    {
        r.push(clone_string(&v[i]));
        i = i + 1;
    }
    r
}

/// An element-wise copy of a stream-id vector.
fn copy_u32_vec(v: &Vec<u32>) -> (r: Vec<u32>)
    ensures
        r@ == v@,
{
    let n = v.len();
    let mut r: Vec<u32> = Vec::new();
    let mut i: usize = 0;
    while i < n
        invariant
            i <= n,
            n == v@.len(),
            r@ == v@.subrange(0, i as int),
        decreases n - i,
    {
        r.push(v[i]);
        proof {
            assert(r@ =~= v@.subrange(0, i + 1));
        }
        i = i + 1;
    }
    proof {
        assert(v@.subrange(0, n as int) =~= v@);
    }
    r
}

// ------------------------------------------------------------------
// The orchestrator
// ------------------------------------------------------------------

/// Unwind all threads of the dump and assemble the report.
///
/// The thread list and the system info are required; every other stream
/// degrades gracefully. Per thread: the dump-writer thread is skipped; the
/// requesting thread is seeded from the exception's context when one
/// exists; the walk runs over the thread's stack memory; frames that no
/// loaded module covers are attributed to overlapping unloaded modules.
pub fn process_minidump_with_options<P: SymbolProvider>(
    dump: &DumpData,
    provider: &P,
    options: ProcessorOptions,
) -> (r: Result<ProcessState, ProcessError>)
    requires
        spec_dump_wf(*dump),
    ensures
        match r {
            Result::Err(e) => (dump.thread_list is None && e == ProcessError::MissingThreadList)
                || (dump.thread_list is Some && dump.system_info is None && e
                == ProcessError::MissingSystemInfo),
            Result::Ok(state) => spec_state_matches(provider, *dump, options.evil, state),
        },
{
    let thread_list = match &dump.thread_list {
        Option::None => {
            return Err(ProcessError::MissingThreadList);
        },
        Option::Some(tl) => tl,
    };
    let dump_system_info = match &dump.system_info {
        Option::None => {
            return Err(ProcessError::MissingSystemInfo);
        },
        Option::Some(si) => si,
    };
    let cpu_microcode_version = extract_microcode(&dump.linux_cpu_info);
    let linux_standard_base = match &dump.linux_standard_base {
        Option::Some(p) => Some(parse_linux_standard_base(p)),
        Option::None => None,
    };
    let system_info = SystemInfo {
        os: clone_string(&dump_system_info.os),
        os_version: Some(clone_string(&dump_system_info.os_version)),
        os_build: match &dump_system_info.os_build {
            Option::Some(s) => Some(clone_string(s)),
            Option::None => None,
        },
        cpu: clone_string(&dump_system_info.cpu),
        cpu_info: match &dump_system_info.cpu_info {
            Option::Some(s) => Some(clone_string(s)),
            Option::None => None,
        },
        cpu_microcode_version,
        cpu_count: dump_system_info.number_of_processors as usize,
    };
    let mac_crash_info: Option<Vec<String>> = match &dump.mac_crash_info {
        Option::Some(v) => Some(clone_string_vec(v)),
        Option::None => None,
    };
    let (process_id, process_create_time) = match &dump.misc_info {
        Option::Some(mi) => (mi.process_id, mi.process_create_time),
        Option::None => (None, None),
    };
    let dump_thread_id: Option<u32> = match &dump.breakpad_info {
        Option::Some(b) => b.dump_thread_id,
        Option::None => None,
    };
    let breakpad_requesting_id: Option<u32> = match &dump.breakpad_info {
        Option::Some(b) => b.requesting_thread_id,
        Option::None => None,
    };
    let (crash_reason, crash_address) = match &dump.exception {
        Option::Some(e) => (Some(clone_string(&e.crash_reason)), Some(e.crash_address)),
        Option::None => (None, None),
    };
    let req_tid: Option<u32> = match &dump.exception {
        Option::Some(e) => Some(e.crashing_thread_id),
        Option::None => breakpad_requesting_id,
    };
    let exception_context: Option<&CpuContext> = match &dump.exception {
        Option::Some(e) => match &e.context {
            Option::Some(c) => Some(c),
            Option::None => None,
        },
        Option::None => None,
    };
    let evil = options.evil;
    let mut threads: Vec<CallStack> = Vec::new();
    let mut requesting_thread: Option<usize> = None;
    let n = thread_list.len();
    let mut i: usize = 0;
    while i < n
        invariant
            spec_dump_wf(*dump),
            dump.thread_list matches Some(tlv) && tlv == *thread_list,
            n == thread_list@.len(),
            i <= n,
            threads@.len() == i,
            forall|j: int|
                0 <= j < i ==> spec_processed_thread(
                    provider,
                    *dump,
                    evil,
                    thread_list@[j],
                    #[trigger] threads@[j],
                ),
            spec_req_index_matches(
                *dump,
                thread_list@.subrange(0, i as int),
                requesting_thread,
            ),
            dump_thread_id == spec_dump_thread_id(*dump),
            req_tid == spec_requesting_thread_id(*dump),
            match spec_exception_context(*dump) {
                Option::Some(c) => exception_context matches Some(x) && *x == c,
                Option::None => exception_context is None,
            },
        decreases n - i,
    {
        proof {
            assert(thread_list@.subrange(0, i as int + 1).drop_last() =~= thread_list@.subrange(
                0,
                i as int,
            ));
            assert(thread_list@.subrange(0, i as int + 1).last() == thread_list@[i as int]);
        }
        let t = &thread_list[i];
        let id = t.thread_id;
        let skip = match dump_thread_id {
            Option::Some(d) => d == id,
            Option::None => false,
        };
        if skip {
            threads.push(CallStack::with_info(id, CallStackInfo::DumpThreadSkipped));
            i = i + 1;
            continue;
        }
        let is_req = match req_tid {
            Option::Some(rr) => rr == id,
            Option::None => false,
        };
        let context: Option<&CpuContext> = if is_req {
            requesting_thread = Some(i);
            match exception_context {
                Option::Some(c) => Some(c),
                Option::None => match &t.context {
                    Option::Some(c) => Some(c),
                    Option::None => None,
                },
            }
        } else {
            match &t.context {
                Option::Some(c) => Some(c),
                Option::None => None,
            }
        };
        let stack_mem: Option<&StackMemory> = match region_index_at(
            &dump.memory_regions,
            t.stack_base,
        ) {
            Option::Some(ri) => Some(&dump.memory_regions[ri]),
            Option::None => None,
        };
        proof {
            let tt = thread_list@[i as int];
            assert(match spec_chosen_context(*dump, tt) {
                Option::None => context is None,
                Option::Some(c) => context matches Some(x) && *x == c,
            });
        }
        let walked = walk_stack(context, stack_mem, &dump.modules, provider);
        let info = walked.info;
        let mut frames_in = walked.frames;
        let ghost orig_frames = frames_in@;
        // Attribute frames without a loaded module to unloaded modules.
        let flen = frames_in.len();
        let mut new_frames: Vec<StackFrame> = Vec::new();
        let mut k: usize = 0;
        while k < flen
            invariant
                flen == orig_frames.len(),
                k <= flen,
                frames_in@ =~= orig_frames.subrange(k as int, flen as int),
                new_frames@.len() == k,
                forall|j: int|
                    0 <= j < k ==> spec_attr_step(
                        dump.unloaded_modules.modules@,
                        orig_frames[j],
                        #[trigger] new_frames@[j],
                    ),
            decreases flen - k,
        {
            let f = frames_in.remove(0);
            let f2 = if f.module.is_none() {
                let table = attribute_unloaded(&dump.unloaded_modules, f.instruction);
                StackFrame { unloaded_modules: table, ..f }
            } else {
                f
            };
            new_frames.push(f2);
            k = k + 1;
        }
        proof {
            lemma_attr_preserved(
                provider,
                dump.modules.modules@,
                dump.unloaded_modules.modules@,
                orig_frames,
                new_frames@,
            );
        }
        let name: Option<String> = match lookup_thread_name(&dump.thread_names, id) {
            Option::Some(s) => Some(s),
            Option::None => match &evil {
                Option::Some(e) => lookup_thread_name(&e.thread_names, id),
                Option::None => None,
            },
        };
        let last_error_value = match &t.last_error {
            Option::Some(s) => Some(clone_string(s)),
            Option::None => None,
        };
        let stack = CallStack {
            frames: new_frames,
            info,
            thread_id: id,
            thread_name: name,
            last_error_value,
        };
        proof {
            let tt = thread_list@[i as int];
            assert(spec_dump_thread_id(*dump) != Some(tt.thread_id));
            assert(stack.thread_id == tt.thread_id);
            assert(match spec_resolved_name(*dump, evil, tt.thread_id) {
                Option::Some(s) => stack.thread_name matches Some(x) && x@ == s,
                Option::None => stack.thread_name is None,
            });
            assert(match tt.last_error {
                Option::Some(s) => stack.last_error_value matches Some(x) && x@ == s@,
                Option::None => stack.last_error_value is None,
            });
            assert(spec_walked_thread(provider, *dump, evil, tt, stack));
        }
        threads.push(stack);
        i = i + 1;
    }
    proof {
        assert(thread_list@.subrange(0, n as int) =~= thread_list@);
    }
    let cert_info: Vec<(String, String)> = match evil {
        Option::Some(e) => e.certs,
        Option::None => Vec::new(),
    };
    let state = ProcessState {
        process_id,
        time: dump.time_date_stamp,
        process_create_time,
        cert_info,
        crash_reason,
        crash_address,
        assertion: None,
        requesting_thread,
        system_info,
        linux_standard_base,
        mac_crash_info,
        threads,
        modules: clone_module_list(&dump.modules),
        unloaded_modules: clone_unloaded_module_list(&dump.unloaded_modules),
        unknown_streams: copy_u32_vec(&dump.unknown_streams),
        unimplemented_streams: copy_u32_vec(&dump.unimplemented_streams),
        symbol_stats: provider.stats(),
    };
    Ok(state)
}

/// Attribution preserves the walked stack's invariants: the frame chain,
/// context well-formedness and module resolution read only fields that
/// attribution leaves alone.
proof fn lemma_attr_preserved<P: SymbolProvider>(
    provider: &P,
    modules: Seq<crate::modules::Module>,
    unl: Seq<UnloadedModule>,
    pre: Seq<StackFrame>,
    post: Seq<StackFrame>,
)
    requires
        pre.len() == post.len(),
        forall|j: int| 0 <= j < pre.len() ==> spec_attr_step(unl, pre[j], #[trigger] post[j]),
        spec_frames_chained(provider, modules, pre),
        forall|k: int| 0 <= k < pre.len() ==> (#[trigger] pre[k]).context.wf(),
        forall|k: int|
            0 <= k < pre.len() ==> spec_frame_module_resolved(provider, modules, #[trigger] pre[k]),
    ensures
        spec_frames_chained(provider, modules, post),
        forall|k: int| 0 <= k < post.len() ==> (#[trigger] post[k]).context.wf(),
        forall|k: int|
            0 <= k < post.len() ==> spec_frame_module_resolved(
                provider,
                modules,
                #[trigger] post[k],
            ),
        forall|k: int|
            0 <= k < post.len() ==> match (#[trigger] post[k]).module {
                Option::None => spec_unloaded_table_matches(
                    post[k].unloaded_modules@,
                    spec_unloaded_entries(unl, post[k].instruction),
                ),
                Option::Some(_) => true,
            },
        post.len() >= 1 ==> post[0].trust == pre[0].trust && post[0].context == pre[0].context
            && post[0].instruction == pre[0].instruction,
{
    assert forall|k: int| 1 <= k < post.len() implies crate::stackwalker::spec_good_caller(
        provider,
        modules,
        post[k - 1],
        #[trigger] post[k],
    ) by {
        assert(spec_attr_step(unl, pre[k - 1], post[k - 1]));
        assert(spec_attr_step(unl, pre[k], post[k]));
        assert(crate::stackwalker::spec_good_caller(provider, modules, pre[k - 1], pre[k]));
    }
}

/// Law: in every call stack the report marks as walked to completion, the
/// stack pointers of the frames are strictly monotonically increasing:
/// each unwind step moved strictly outward.
pub proof fn lemma_thread_stack_sp_monotone<P: SymbolProvider>(
    provider: &P,
    dump: DumpData,
    evil: Option<Evil>,
    t: ThreadData,
    stack: CallStack,
    i: int,
    j: int,
)
    requires
        spec_walked_thread(provider, dump, evil, t, stack),
        stack.info == CallStackInfo::StackOk,
        0 <= i < j < stack.frames@.len(),
    ensures
        stack.frames@[i].context.spec_sp_raw() < stack.frames@[j].context.spec_sp_raw(),
{
    match spec_chosen_context(dump, t) {
        Option::None => {
            assert(false);
        },
        Option::Some(c) => {
            crate::stackwalker::lemma_walked_sp_monotone(
                provider,
                dump.modules.modules@,
                stack.frames@,
                i,
                j,
            );
        },
    }
}

/// Unwind all threads of the dump with no side-channel enrichment.
pub fn process_minidump<P: SymbolProvider>(dump: &DumpData, provider: &P) -> (r: Result<
    ProcessState,
    ProcessError,
>)
    requires
        spec_dump_wf(*dump),
    ensures
        match r {
            Result::Err(e) => (dump.thread_list is None && e == ProcessError::MissingThreadList)
                || (dump.thread_list is Some && dump.system_info is None && e
                == ProcessError::MissingSystemInfo),
            Result::Ok(state) => spec_state_matches(provider, *dump, None, state),
        },
{
    process_minidump_with_options(dump, provider, ProcessorOptions::default())
}

} // verus!
