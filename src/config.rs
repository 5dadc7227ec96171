//! The embedded interpreter configuration and its encoding as Rust source.

use vstd::prelude::*;
use crate::interpreter::{
    Allocator, BytecodeOptimizationLevel, BytesWarning, CheckHashPYCsMode, CoerceCLocale,
    MemoryAllocatorBackend, PythonInterpreterConfig, PythonInterpreterProfile, PythonRunMode,
    TerminfoResolution,
};

verus! {

/// How one character stands inside a string literal.
pub open spec fn escape_char(c: char) -> Seq<char> {
    if c == '\\' {
        seq!['\\', '\\']
    } else if c == '"' {
        seq!['\\', '"']
    } else if c == '\r' {
        seq!['\\', 'r']
    } else if c == '\n' {
        seq!['\\', 'n']
    } else {
        seq![c]
    }
}

/// The body of a string literal that denotes `s`.
pub open spec fn escaped(s: Seq<char>) -> Seq<char>
    decreases s.len(),
{
    if s.len() == 0 {
        Seq::empty()
    } else {
        escaped(s.drop_last()) + escape_char(s.last())
    }
}

/// A string literal that denotes `s`.
pub open spec fn quoted(s: Seq<char>) -> Seq<char> {
    seq!['"'] + escaped(s) + seq!['"']
}

/// Decimal digit for a value below ten.
pub open spec fn digit_char(d: nat) -> char {
    if d == 0 { '0' }
    else if d == 1 { '1' }
    else if d == 2 { '2' }
    else if d == 3 { '3' }
    else if d == 4 { '4' }
    else if d == 5 { '5' }
    else if d == 6 { '6' }
    else if d == 7 { '7' }
    else if d == 8 { '8' }
    else { '9' }
}

/// Decimal notation of `n`, without leading zeros.
pub open spec fn decimal(n: nat) -> Seq<char>
    decreases n,
{
    if n < 10 {
        seq![digit_char(n)]
    } else {
        decimal(n / 10) + seq![digit_char(n % 10)]
    }
}

pub open spec fn bool_code(b: bool) -> Seq<char> {
    if b { "true"@ } else { "false"@ }
}

pub open spec fn optional_bool_code(v: Option<bool>) -> Seq<char> {
    match v {
        Some(b) => "Some("@ + bool_code(b) + ")"@,
        None => "None"@,
    }
}

pub open spec fn optional_string_code(v: Option<Seq<char>>) -> Seq<char> {
    match v {
        Some(s) => "Some("@ + quoted(s) + ")"@,
        None => "None"@,
    }
}

pub open spec fn optional_path_code(v: Option<Seq<char>>) -> Seq<char> {
    match v {
        Some(s) => "Some(PathBuf::from("@ + quoted(s) + "))"@,
        None => "None"@,
    }
}

/// Quoted items separated by a comma and a space.
pub open spec fn quoted_list(items: Seq<Seq<char>>) -> Seq<char>
    decreases items.len(),
{
    if items.len() == 0 {
        Seq::empty()
    } else if items.len() == 1 {
        quoted(items[0])
    } else {
        quoted_list(items.drop_last()) + ", "@ + quoted(items.last())
    }
}

pub open spec fn optional_list_code(v: Option<Seq<Seq<char>>>) -> Seq<char> {
    match v {
        Some(items) => "Some(vec!["@ + quoted_list(items) + "])"@,
        None => "None"@,
    }
}

pub open spec fn opt_view(v: Option<String>) -> Option<Seq<char>> {
    match v {
        Some(s) => Some(s@),
        None => None,
    }
}

pub open spec fn opt_list_view(v: Option<Vec<String>>) -> Option<Seq<Seq<char>>> {
    match v {
        Some(items) => Some(items@.map_values(|s: String| s@)),
        None => None,
    }
}

/// Appends the literal body of `s` to `out`.
fn push_escaped(out: &mut String, s: &str)
    ensures
        final(out)@ == old(out)@ + escaped(s@),
{
    let n = s.unicode_len();
    let mut i: usize = 0;
    while i < n
        invariant
            n == s@.len(),
            i <= n,
            out@ == old(out)@ + escaped(s@.subrange(0, i as int)),
        decreases n - i,
    {
        let c = s.get_char(i);
        proof {
            let next = s@.subrange(0, i + 1);
            assert(next.drop_last() =~= s@.subrange(0, i as int));
            assert(next.last() == c);
        }
        if c == '\\' {
            out.append("\\\\");
            proof { reveal_strlit("\\\\"); }
        } else if c == '"' {
            out.append("\\\"");
            proof { reveal_strlit("\\\""); }
        } else if c == '\r' {
            out.append("\\r");
            proof { reveal_strlit("\\r"); }
        } else if c == '\n' {
            out.append("\\n");
            proof { reveal_strlit("\\n"); }
        } else {
            let one = s.substring_char(i, i + 1);
            out.append(one);
            assert(one@ =~= seq![c]);
        }
        assert(out@ =~= old(out)@ + escaped(s@.subrange(0, i + 1)));
        i = i + 1;
    }
    assert(s@.subrange(0, n as int) =~= s@);
}

/// Appends a string literal denoting `s` to `out`.
fn push_quoted(out: &mut String, s: &str)
    ensures
        final(out)@ == old(out)@ + quoted(s@),
{
    out.append("\"");
    proof { reveal_strlit("\""); }
    push_escaped(out, s);
    out.append("\"");
    assert(out@ =~= old(out)@ + quoted(s@));
}

fn digit_str(d: u64) -> (r: &'static str)
    requires
        d < 10,
    ensures
        r@ == seq![digit_char(d as nat)],
{
    let r = if d == 0 { "0" }
        else if d == 1 { "1" }
        else if d == 2 { "2" }
        else if d == 3 { "3" }
        else if d == 4 { "4" }
        else if d == 5 { "5" }
        else if d == 6 { "6" }
        else if d == 7 { "7" }
        else if d == 8 { "8" }
        else { "9" };
    proof {
        reveal_strlit("0");
        reveal_strlit("1");
        reveal_strlit("2");
        reveal_strlit("3");
        reveal_strlit("4");
        reveal_strlit("5");
        reveal_strlit("6");
        reveal_strlit("7");
        reveal_strlit("8");
        reveal_strlit("9");
    }
    assert(r@ =~= seq![digit_char(d as nat)]);
    r
}

/// Appends the decimal notation of `n` to `out`.
fn push_decimal(out: &mut String, n: u64)
    ensures
        final(out)@ == old(out)@ + decimal(n as nat),
    decreases n,
{
    if n >= 10 {
        push_decimal(out, n / 10);
    }
    out.append(digit_str(n % 10));
    assert(out@ =~= old(out)@ + decimal(n as nat));
}

/// Rust source for an optional boolean.
pub fn optional_bool_to_string(value: &Option<bool>) -> (r: String)
    ensures
        r@ == optional_bool_code(*value),
{
    match value {
        Some(b) => {
            let mut out = String::from_str("Some(");
            if *b {
                out.append("true");
            } else {
                out.append("false");
            }
            out.append(")");
            out
        },
        None => String::from_str("None"),
    }
}

/// Rust source for an optional string.
pub fn optional_string_to_string(value: &Option<String>) -> (r: String)
    ensures
        r@ == optional_string_code(opt_view(*value)),
{
    match value {
        Some(s) => {
            let mut out = String::from_str("Some(");
            push_quoted(&mut out, s.as_str());
            out.append(")");
            out
        },
        None => String::from_str("None"),
    }
}

/// Rust source for an optional filesystem path.
pub fn optional_pathbuf_to_string(value: &Option<String>) -> (r: String)
    ensures
        r@ == optional_path_code(opt_view(*value)),
{
    match value {
        Some(s) => {
            let mut out = String::from_str("Some(PathBuf::from(");
            push_quoted(&mut out, s.as_str());
            out.append("))");
            out
        },
        None => String::from_str("None"),
    }
}

/// Appends quoted items separated by a comma and a space.
fn push_quoted_list(out: &mut String, items: &Vec<String>)
    ensures
        final(out)@ == old(out)@ + quoted_list(items@.map_values(|s: String| s@)),
{
    let ghost views = items@.map_values(|s: String| s@);
    let mut i: usize = 0;
    while i < items.len()
        invariant
            i <= items.len(),
            views == items@.map_values(|s: String| s@),
            out@ == old(out)@ + quoted_list(views.subrange(0, i as int)),
        decreases items.len() - i,
    {
        proof {
            let next = views.subrange(0, i + 1);
            assert(next.drop_last() =~= views.subrange(0, i as int));
            assert(next.last() == items@[i as int]@);
        }
        if i > 0 {
            out.append(", ");
        }
        push_quoted(out, items[i].as_str());
        assert(out@ =~= old(out)@ + quoted_list(views.subrange(0, i + 1)));
        i = i + 1;
    }
    assert(views.subrange(0, items.len() as int) =~= views);
}

/// Rust source for an optional list of strings.
pub fn optional_vec_string_to_string(value: &Option<Vec<String>>) -> (r: String)
    ensures
        r@ == optional_list_code(opt_list_view(*value)),
{
    match value {
        Some(items) => {
            let mut out = String::from_str("Some(vec![");
            push_quoted_list(&mut out, items);
            out.append("])");
            out
        },
        None => String::from_str("None"),
    }
}

/// Source for the interpreter profile.
pub open spec fn profile_code(v: PythonInterpreterProfile) -> Seq<char> {
    match v {
        PythonInterpreterProfile::Isolated => "pyembed::PythonInterpreterProfile::Isolated"@,
        PythonInterpreterProfile::Python => "pyembed::PythonInterpreterProfile::Python"@,
    }
}

fn profile_source(v: PythonInterpreterProfile) -> (r: &'static str)
    ensures
        r@ == profile_code(v),
{
    match v {
        PythonInterpreterProfile::Isolated => "pyembed::PythonInterpreterProfile::Isolated",
        PythonInterpreterProfile::Python => "pyembed::PythonInterpreterProfile::Python",
    }
}

/// Source for the Python allocator.
pub open spec fn allocator_code(v: Option<Allocator>) -> Seq<char> {
    match v {
        Some(Allocator::Debug) => "Some(pyembed::Allocator::Debug)"@,
        Some(Allocator::Default) => "Some(pyembed::Allocator::Default)"@,
        Some(Allocator::Malloc) => "Some(pyembed::Allocator::Malloc)"@,
        Some(Allocator::MallocDebug) => "Some(pyembed::Allocator::MallocDebug)"@,
        Some(Allocator::NotSet) => "Some(pyembed::Allocator::NotSet)"@,
        Some(Allocator::PyMalloc) => "Some(pyembed::Allocator::PyMalloc)"@,
        Some(Allocator::PyMallocDebug) => "Some(pyembed::Allocator::PyMallocDebug)"@,
        None => "None"@,
    }
}

fn allocator_source(v: Option<Allocator>) -> (r: &'static str)
    ensures
        r@ == allocator_code(v),
{
    match v {
        Some(Allocator::Debug) => "Some(pyembed::Allocator::Debug)",
        Some(Allocator::Default) => "Some(pyembed::Allocator::Default)",
        Some(Allocator::Malloc) => "Some(pyembed::Allocator::Malloc)",
        Some(Allocator::MallocDebug) => "Some(pyembed::Allocator::MallocDebug)",
        Some(Allocator::NotSet) => "Some(pyembed::Allocator::NotSet)",
        Some(Allocator::PyMalloc) => "Some(pyembed::Allocator::PyMalloc)",
        Some(Allocator::PyMallocDebug) => "Some(pyembed::Allocator::PyMallocDebug)",
        None => "None",
    }
}

/// Source for the C locale coercion.
pub open spec fn coerce_c_locale_code(v: Option<CoerceCLocale>) -> Seq<char> {
    match v {
        Some(CoerceCLocale::C) => "Some(pyembed::CoerceCLocale::C)"@,
        Some(CoerceCLocale::LCCtype) => "Some(pyembed::CoerceCLocale::LCCtype)"@,
        None => "None"@,
    }
}

fn coerce_c_locale_source(v: Option<CoerceCLocale>) -> (r: &'static str)
    ensures
        r@ == coerce_c_locale_code(v),
{
    match v {
        Some(CoerceCLocale::C) => "Some(pyembed::CoerceCLocale::C)",
        Some(CoerceCLocale::LCCtype) => "Some(pyembed::CoerceCLocale::LCCtype)",
        None => "None",
    }
}

/// Source for the bytes warning mode.
pub open spec fn bytes_warning_code(v: Option<BytesWarning>) -> Seq<char> {
    match v {
        Some(BytesWarning::Ignore) => "Some(pyembed::BytesWarning::None)"@,
        Some(BytesWarning::Warn) => "Some(pyembed::BytesWarning::Warn)"@,
        Some(BytesWarning::Raise) => "Some(pyembed::BytesWarning::Raise)"@,
        None => "None"@,
    }
}

fn bytes_warning_source(v: Option<BytesWarning>) -> (r: &'static str)
    ensures
        r@ == bytes_warning_code(v),
{
    match v {
        Some(BytesWarning::Ignore) => "Some(pyembed::BytesWarning::None)",
        Some(BytesWarning::Warn) => "Some(pyembed::BytesWarning::Warn)",
        Some(BytesWarning::Raise) => "Some(pyembed::BytesWarning::Raise)",
        None => "None",
    }
}

/// Source for the hash-based pyc check.
pub open spec fn check_hash_pycs_code(v: Option<CheckHashPYCsMode>) -> Seq<char> {
    match v {
        Some(CheckHashPYCsMode::Always) => "Some(pyembed::CheckHashPYCsMode::Always)"@,
        Some(CheckHashPYCsMode::Default) => "Some(pyembed::CheckHashPYCsMode::Default)"@,
        Some(CheckHashPYCsMode::Never) => "Some(pyembed::CheckHashPYCsMode::Never)"@,
        None => "None"@,
    }
}

fn check_hash_pycs_source(v: Option<CheckHashPYCsMode>) -> (r: &'static str)
    ensures
        r@ == check_hash_pycs_code(v),
{
    match v {
        Some(CheckHashPYCsMode::Always) => "Some(pyembed::CheckHashPYCsMode::Always)",
        Some(CheckHashPYCsMode::Default) => "Some(pyembed::CheckHashPYCsMode::Default)",
        Some(CheckHashPYCsMode::Never) => "Some(pyembed::CheckHashPYCsMode::Never)",
        None => "None",
    }
}

/// Source for the optimization level.
pub open spec fn optimization_level_code(v: Option<BytecodeOptimizationLevel>) -> Seq<char> {
    match v {
        Some(BytecodeOptimizationLevel::Zero) => "Some(pyembed::BytecodeOptimizationLevel::Zero)"@,
        Some(BytecodeOptimizationLevel::One) => "Some(pyembed::BytecodeOptimizationLevel::One)"@,
        Some(BytecodeOptimizationLevel::Two) => "Some(pyembed::BytecodeOptimizationLevel::Two)"@,
        None => "None"@,
    }
}

fn optimization_level_source(v: Option<BytecodeOptimizationLevel>) -> (r: &'static str)
    ensures
        r@ == optimization_level_code(v),
{
    match v {
        Some(BytecodeOptimizationLevel::Zero) => "Some(pyembed::BytecodeOptimizationLevel::Zero)",
        Some(BytecodeOptimizationLevel::One) => "Some(pyembed::BytecodeOptimizationLevel::One)",
        Some(BytecodeOptimizationLevel::Two) => "Some(pyembed::BytecodeOptimizationLevel::Two)",
        None => "None",
    }
}

/// Source for the raw allocator.
pub open spec fn raw_allocator_code(v: MemoryAllocatorBackend) -> Seq<char> {
    match v {
        MemoryAllocatorBackend::Jemalloc => "pyembed::PythonRawAllocator::jemalloc()"@,
        MemoryAllocatorBackend::Rust => "pyembed::PythonRawAllocator::rust()"@,
        MemoryAllocatorBackend::System => "pyembed::PythonRawAllocator::system()"@,
    }
}

fn raw_allocator_source(v: MemoryAllocatorBackend) -> (r: &'static str)
    ensures
        r@ == raw_allocator_code(v),
{
    match v {
        MemoryAllocatorBackend::Jemalloc => "pyembed::PythonRawAllocator::jemalloc()",
        MemoryAllocatorBackend::Rust => "pyembed::PythonRawAllocator::rust()",
        MemoryAllocatorBackend::System => "pyembed::PythonRawAllocator::system()",
    }
}

pub open spec fn optional_u64_code(v: Option<u64>) -> Seq<char> {
    match v {
        Some(n) => "Some("@ + decimal(n as nat) + ")"@,
        None => "None"@,
    }
}

fn optional_u64_to_string(v: Option<u64>) -> (r: String)
    ensures
        r@ == optional_u64_code(v),
{
    match v {
        Some(n) => {
            let mut out = String::from_str("Some(");
            push_decimal(&mut out, n);
            out.append(")");
            out
        },
        None => String::from_str("None"),
    }
}

/// A member of the nested interpreter configuration, on a line of its own.
pub open spec fn field_line(name: Seq<char>, value: Seq<char>) -> Seq<char> {
    "        "@ + name + ": "@ + value + ",\n"@
}

/// A member of the outer configuration, on a line of its own.
pub open spec fn outer_line(name: Seq<char>, value: Seq<char>) -> Seq<char> {
    "    "@ + name + ": "@ + value + ",\n"@
}

fn push_field(out: &mut String, name: &str, value: &str)
    ensures
        final(out)@ == old(out)@ + field_line(name@, value@),
{
    out.append("        ");
    out.append(name);
    out.append(": ");
    out.append(value);
    out.append(",\n");
}

fn push_field_string(out: &mut String, name: &str, value: String)
    ensures
        final(out)@ == old(out)@ + field_line(name@, value@),
{
    push_field(out, name, value.as_str());
}

fn push_outer(out: &mut String, name: &str, value: &str)
    ensures
        final(out)@ == old(out)@ + outer_line(name@, value@),
{
    out.append("    ");
    out.append(name);
    out.append(": ");
    out.append(value);
    out.append(",\n");
}


pub open spec fn options_first_code(c: PythonInterpreterConfig) -> Seq<char> {
    field_line("profile"@, profile_code(c.profile))
        + field_line("allocator"@, allocator_code(c.allocator))
        + field_line("configure_locale"@, optional_bool_code(c.configure_locale))
        + field_line("coerce_c_locale"@, coerce_c_locale_code(c.coerce_c_locale))
        + field_line("coerce_c_locale_warn"@, optional_bool_code(c.coerce_c_locale_warn))
        + field_line("development_mode"@, optional_bool_code(c.development_mode))
        + field_line("isolated"@, optional_bool_code(c.isolated))
        + field_line("legacy_windows_fs_encoding"@, optional_bool_code(c.legacy_windows_fs_encoding))
        + field_line("parse_argv"@, optional_bool_code(c.parse_argv))
        + field_line("use_environment"@, optional_bool_code(c.use_environment))
}

fn push_options_first(out: &mut String, c: &PythonInterpreterConfig)
    ensures
        final(out)@ == old(out)@ + options_first_code(*c),
{
    push_field(out, "profile", profile_source(c.profile));
    push_field(out, "allocator", allocator_source(c.allocator));
    push_field_string(out, "configure_locale", optional_bool_to_string(&c.configure_locale));
    push_field(out, "coerce_c_locale", coerce_c_locale_source(c.coerce_c_locale));
    push_field_string(out, "coerce_c_locale_warn", optional_bool_to_string(&c.coerce_c_locale_warn));
    push_field_string(out, "development_mode", optional_bool_to_string(&c.development_mode));
    push_field_string(out, "isolated", optional_bool_to_string(&c.isolated));
    push_field_string(out, "legacy_windows_fs_encoding", optional_bool_to_string(&c.legacy_windows_fs_encoding));
    push_field_string(out, "parse_argv", optional_bool_to_string(&c.parse_argv));
    push_field_string(out, "use_environment", optional_bool_to_string(&c.use_environment));
    assert(out@ =~= old(out)@ + options_first_code(*c));
}

pub open spec fn options_second_code(c: PythonInterpreterConfig) -> Seq<char> {
    field_line("utf8_mode"@, optional_bool_code(c.utf8_mode))
        + field_line("argv"@, "None"@)
        + field_line("base_exec_prefix"@, optional_path_code(opt_view(c.base_exec_prefix)))
        + field_line("base_executable"@, optional_path_code(opt_view(c.base_executable)))
        + field_line("base_prefix"@, optional_path_code(opt_view(c.base_prefix)))
        + field_line("buffered_stdio"@, optional_bool_code(c.buffered_stdio))
        + field_line("bytes_warning"@, bytes_warning_code(c.bytes_warning))
        + field_line("check_hash_pycs_mode"@, check_hash_pycs_code(c.check_hash_pycs_mode))
        + field_line("configure_c_stdio"@, optional_bool_code(c.configure_c_stdio))
        + field_line("dump_refs"@, optional_bool_code(c.dump_refs))
}

fn push_options_second(out: &mut String, c: &PythonInterpreterConfig)
    ensures
        final(out)@ == old(out)@ + options_second_code(*c),
{
    push_field_string(out, "utf8_mode", optional_bool_to_string(&c.utf8_mode));
    push_field(out, "argv", "None");
    push_field_string(out, "base_exec_prefix", optional_pathbuf_to_string(&c.base_exec_prefix));
    push_field_string(out, "base_executable", optional_pathbuf_to_string(&c.base_executable));
    push_field_string(out, "base_prefix", optional_pathbuf_to_string(&c.base_prefix));
    push_field_string(out, "buffered_stdio", optional_bool_to_string(&c.buffered_stdio));
    push_field(out, "bytes_warning", bytes_warning_source(c.bytes_warning));
    push_field(out, "check_hash_pycs_mode", check_hash_pycs_source(c.check_hash_pycs_mode));
    push_field_string(out, "configure_c_stdio", optional_bool_to_string(&c.configure_c_stdio));
    push_field_string(out, "dump_refs", optional_bool_to_string(&c.dump_refs));
    assert(out@ =~= old(out)@ + options_second_code(*c));
}

pub open spec fn options_third_code(c: PythonInterpreterConfig) -> Seq<char> {
    field_line("exec_prefix"@, optional_path_code(opt_view(c.exec_prefix)))
        + field_line("executable"@, optional_path_code(opt_view(c.executable)))
        + field_line("fault_handler"@, optional_bool_code(c.fault_handler))
        + field_line("filesystem_encoding"@, optional_string_code(opt_view(c.filesystem_encoding)))
        + field_line("filesystem_errors"@, optional_string_code(opt_view(c.filesystem_errors)))
        + field_line("hash_seed"@, optional_u64_code(c.hash_seed))
        + field_line("home"@, optional_path_code(opt_view(c.home)))
        + field_line("import_time"@, optional_bool_code(c.import_time))
        + field_line("inspect"@, optional_bool_code(c.inspect))
        + field_line("install_signal_handlers"@, optional_bool_code(c.install_signal_handlers))
}

fn push_options_third(out: &mut String, c: &PythonInterpreterConfig)
    ensures
        final(out)@ == old(out)@ + options_third_code(*c),
{
    push_field_string(out, "exec_prefix", optional_pathbuf_to_string(&c.exec_prefix));
    push_field_string(out, "executable", optional_pathbuf_to_string(&c.executable));
    push_field_string(out, "fault_handler", optional_bool_to_string(&c.fault_handler));
    push_field_string(out, "filesystem_encoding", optional_string_to_string(&c.filesystem_encoding));
    push_field_string(out, "filesystem_errors", optional_string_to_string(&c.filesystem_errors));
    push_field_string(out, "hash_seed", optional_u64_to_string(c.hash_seed));
    push_field_string(out, "home", optional_pathbuf_to_string(&c.home));
    push_field_string(out, "import_time", optional_bool_to_string(&c.import_time));
    push_field_string(out, "inspect", optional_bool_to_string(&c.inspect));
    push_field_string(out, "install_signal_handlers", optional_bool_to_string(&c.install_signal_handlers));
    assert(out@ =~= old(out)@ + options_third_code(*c));
}

pub open spec fn options_fourth_code(c: PythonInterpreterConfig) -> Seq<char> {
    field_line("interactive"@, optional_bool_code(c.interactive))
        + field_line("legacy_windows_stdio"@, optional_bool_code(c.legacy_windows_stdio))
        + field_line("malloc_stats"@, optional_bool_code(c.malloc_stats))
        + field_line("module_search_paths"@, optional_list_code(opt_list_view(c.module_search_paths)))
        + field_line("optimization_level"@, optimization_level_code(c.optimization_level))
        + field_line("parser_debug"@, optional_bool_code(c.parser_debug))
        + field_line("pathconfig_warnings"@, optional_bool_code(c.pathconfig_warnings))
        + field_line("prefix"@, optional_path_code(opt_view(c.prefix)))
        + field_line("program_name"@, optional_path_code(opt_view(c.program_name)))
        + field_line("pycache_prefix"@, optional_path_code(opt_view(c.pycache_prefix)))
}

fn push_options_fourth(out: &mut String, c: &PythonInterpreterConfig)
    ensures
        final(out)@ == old(out)@ + options_fourth_code(*c),
{
    push_field_string(out, "interactive", optional_bool_to_string(&c.interactive));
    push_field_string(out, "legacy_windows_stdio", optional_bool_to_string(&c.legacy_windows_stdio));
    push_field_string(out, "malloc_stats", optional_bool_to_string(&c.malloc_stats));
    push_field_string(out, "module_search_paths", optional_vec_string_to_string(&c.module_search_paths));
    push_field(out, "optimization_level", optimization_level_source(c.optimization_level));
    push_field_string(out, "parser_debug", optional_bool_to_string(&c.parser_debug));
    push_field_string(out, "pathconfig_warnings", optional_bool_to_string(&c.pathconfig_warnings));
    push_field_string(out, "prefix", optional_pathbuf_to_string(&c.prefix));
    push_field_string(out, "program_name", optional_pathbuf_to_string(&c.program_name));
    push_field_string(out, "pycache_prefix", optional_pathbuf_to_string(&c.pycache_prefix));
    assert(out@ =~= old(out)@ + options_fourth_code(*c));
}

pub open spec fn options_fifth_code(c: PythonInterpreterConfig) -> Seq<char> {
    field_line("python_path_env"@, optional_string_code(opt_view(c.python_path_env)))
        + field_line("quiet"@, optional_bool_code(c.quiet))
        + field_line("run_command"@, optional_string_code(opt_view(c.run_command)))
        + field_line("run_filename"@, optional_path_code(opt_view(c.run_filename)))
        + field_line("run_module"@, optional_string_code(opt_view(c.run_module)))
        + field_line("show_alloc_count"@, optional_bool_code(c.show_alloc_count))
        + field_line("show_ref_count"@, optional_bool_code(c.show_ref_count))
        + field_line("site_import"@, optional_bool_code(c.site_import))
        + field_line("skip_first_source_line"@, optional_bool_code(c.skip_first_source_line))
        + field_line("stdio_encoding"@, optional_string_code(opt_view(c.stdio_encoding)))
}

fn push_options_fifth(out: &mut String, c: &PythonInterpreterConfig)
    ensures
        final(out)@ == old(out)@ + options_fifth_code(*c),
{
    push_field_string(out, "python_path_env", optional_string_to_string(&c.python_path_env));
    push_field_string(out, "quiet", optional_bool_to_string(&c.quiet));
    push_field_string(out, "run_command", optional_string_to_string(&c.run_command));
    push_field_string(out, "run_filename", optional_pathbuf_to_string(&c.run_filename));
    push_field_string(out, "run_module", optional_string_to_string(&c.run_module));
    push_field_string(out, "show_alloc_count", optional_bool_to_string(&c.show_alloc_count));
    push_field_string(out, "show_ref_count", optional_bool_to_string(&c.show_ref_count));
    push_field_string(out, "site_import", optional_bool_to_string(&c.site_import));
    push_field_string(out, "skip_first_source_line", optional_bool_to_string(&c.skip_first_source_line));
    push_field_string(out, "stdio_encoding", optional_string_to_string(&c.stdio_encoding));
    assert(out@ =~= old(out)@ + options_fifth_code(*c));
}

pub open spec fn options_sixth_code(c: PythonInterpreterConfig) -> Seq<char> {
    field_line("stdio_errors"@, optional_string_code(opt_view(c.stdio_errors)))
        + field_line("tracemalloc"@, optional_bool_code(c.tracemalloc))
        + field_line("user_site_directory"@, optional_bool_code(c.user_site_directory))
        + field_line("verbose"@, optional_bool_code(c.verbose))
        + field_line("warn_options"@, optional_list_code(opt_list_view(c.warn_options)))
        + field_line("write_bytecode"@, optional_bool_code(c.write_bytecode))
        + field_line("x_options"@, optional_list_code(opt_list_view(c.x_options)))
}

fn push_options_sixth(out: &mut String, c: &PythonInterpreterConfig)
    ensures
        final(out)@ == old(out)@ + options_sixth_code(*c),
{
    push_field_string(out, "stdio_errors", optional_string_to_string(&c.stdio_errors));
    push_field_string(out, "tracemalloc", optional_bool_to_string(&c.tracemalloc));
    push_field_string(out, "user_site_directory", optional_bool_to_string(&c.user_site_directory));
    push_field_string(out, "verbose", optional_bool_to_string(&c.verbose));
    push_field_string(out, "warn_options", optional_vec_string_to_string(&c.warn_options));
    push_field_string(out, "write_bytecode", optional_bool_to_string(&c.write_bytecode));
    push_field_string(out, "x_options", optional_vec_string_to_string(&c.x_options));
    assert(out@ =~= old(out)@ + options_sixth_code(*c));
}

/// Source of the `interpreter_config` member for `c`.
pub open spec fn interpreter_config_code(c: PythonInterpreterConfig) -> Seq<char> {
    "    interpreter_config: pyembed::PythonInterpreterConfig {\n"@
        + options_first_code(c)
        + options_second_code(c)
        + options_third_code(c)
        + options_fourth_code(c)
        + options_fifth_code(c)
        + options_sixth_code(c)
        + "    },\n"@
}

/// Appends the `interpreter_config` member for `c`.
fn push_interpreter_config(out: &mut String, c: &PythonInterpreterConfig)
    ensures
        final(out)@ == old(out)@ + interpreter_config_code(*c),
{
    out.append("    interpreter_config: pyembed::PythonInterpreterConfig {\n");
    push_options_first(out, c);
    push_options_second(out, c);
    push_options_third(out, c);
    push_options_fourth(out, c);
    push_options_fifth(out, c);
    push_options_sixth(out, c);
    out.append("    },\n");
}

/// Determine the default raw allocator for a target triple: jemalloc does
/// not work on Windows.
pub fn default_raw_allocator(target_triple: &str) -> (r: MemoryAllocatorBackend)
    ensures
        r == (if target_triple@ == "x86_64-pc-windows-msvc"@ {
            MemoryAllocatorBackend::System
        } else {
            MemoryAllocatorBackend::Jemalloc
        }),
{
    let t = String::from_str(target_triple);
    let windows = String::from_str("x86_64-pc-windows-msvc");
    if t == windows {
        MemoryAllocatorBackend::System
    } else {
        MemoryAllocatorBackend::Jemalloc
    }
}

/// Why a configuration cannot be encoded.
#[derive(Clone, Copy, Debug, PartialEq, Eq, Structural)]
pub enum ConfigError {
    /// More than one way of choosing what the interpreter runs was given.
    ConflictingRunModes,
}

impl ConfigError {
    /// Human-readable description of the error.
    pub fn message(&self) -> (r: String)
        ensures
            r@ == "more than one run mode was specified"@,
    {
        String::from_str("more than one run mode was specified")
    }
}

pub open spec fn count_set(flags: Seq<bool>) -> nat
    decreases flags.len(),
{
    if flags.len() == 0 {
        0
    } else {
        count_set(flags.drop_last()) + if flags.last() { 1nat } else { 0nat }
    }
}

/// Whether `m` is the run mode that the options ask for: the module, the
/// inline code or the file that is given, and a REPL where none of them is.
pub open spec fn run_mode_matches(
    m: PythonRunMode,
    module: Option<Seq<char>>,
    code: Option<Seq<char>>,
    file: Option<Seq<char>>,
) -> bool {
    match m {
        PythonRunMode::Nothing => false,
        PythonRunMode::Repl => module is None && code is None && file is None,
        PythonRunMode::Module { module: x } => module == Some(x@),
        PythonRunMode::Eval { code: x } => code == Some(x@),
        PythonRunMode::File { path: x } => file == Some(x@),
    }
}

/// Chooses the run mode from the options that ask for a REPL, a module,
/// inline code or a file. At most one of them may be given; with none of
/// them the interpreter starts a REPL.
pub fn run_mode_from_options(
    repl: bool,
    module: Option<String>,
    code: Option<String>,
    file: Option<String>,
) -> (r: Result<PythonRunMode, ConfigError>)
    ensures
        r is Err <==> count_set(seq![repl, module is Some, code is Some, file is Some]) > 1,
        r is Err ==> r->Err_0 == ConfigError::ConflictingRunModes,
        r is Ok ==> run_mode_matches(r->Ok_0, opt_view(module), opt_view(code), opt_view(file)),
{
    let ghost flags = seq![repl, module is Some, code is Some, file is Some];
    assert(flags.drop_last().drop_last().drop_last().drop_last() =~= Seq::<bool>::empty());
    let n: usize = (if repl { 1usize } else { 0 }) + (if module.is_some() { 1usize } else { 0 })
        + (if code.is_some() { 1usize } else { 0 }) + (if file.is_some() { 1usize } else { 0 });
    assert(count_set(flags) == n) by {
        assert(flags.drop_last() =~= seq![repl, module is Some, code is Some]);
        assert(flags.drop_last().drop_last() =~= seq![repl, module is Some]);
        assert(flags.drop_last().drop_last().drop_last() =~= seq![repl]);
        reveal_with_fuel(count_set, 5);
    }
    if n > 1 {
        return Err(ConfigError::ConflictingRunModes);
    }
    match module {
        Some(m) => Ok(PythonRunMode::Module { module: m }),
        None => match code {
            Some(c) => Ok(PythonRunMode::Eval { code: c }),
            None => match file {
                Some(f) => Ok(PythonRunMode::File { path: f }),
                None => Ok(PythonRunMode::Repl),
            },
        },
    }
}

/// Source for the run mode.
pub open spec fn run_mode_code(m: PythonRunMode) -> Seq<char> {
    match m {
        PythonRunMode::Nothing => "pyembed::PythonRunMode::None"@,
        PythonRunMode::Repl => "pyembed::PythonRunMode::Repl"@,
        PythonRunMode::Module { module } => "pyembed::PythonRunMode::Module { module: "@ + quoted(
            module@,
        ) + ".to_string() }"@,
        PythonRunMode::Eval { code } => "pyembed::PythonRunMode::Eval { code: "@ + quoted(code@)
            + ".to_string() }"@,
        PythonRunMode::File { path } => "pyembed::PythonRunMode::File { path: std::path::PathBuf::from("@
            + quoted(path@) + ") }"@,
    }
}

fn run_mode_source(m: &PythonRunMode) -> (r: String)
    ensures
        r@ == run_mode_code(*m),
{
    match m {
        PythonRunMode::Nothing => String::from_str("pyembed::PythonRunMode::None"),
        PythonRunMode::Repl => String::from_str("pyembed::PythonRunMode::Repl"),
        PythonRunMode::Module { module } => {
            let mut out = String::from_str("pyembed::PythonRunMode::Module { module: ");
            push_quoted(&mut out, module.as_str());
            out.append(".to_string() }");
            out
        },
        PythonRunMode::Eval { code } => {
            let mut out = String::from_str("pyembed::PythonRunMode::Eval { code: ");
            push_quoted(&mut out, code.as_str());
            out.append(".to_string() }");
            out
        },
        PythonRunMode::File { path } => {
            let mut out = String::from_str(
                "pyembed::PythonRunMode::File { path: std::path::PathBuf::from(",
            );
            push_quoted(&mut out, path.as_str());
            out.append(") }");
            out
        },
    }
}

/// Source for the terminfo resolution.
pub open spec fn terminfo_code(t: TerminfoResolution) -> Seq<char> {
    match t {
        TerminfoResolution::Dynamic => "pyembed::TerminfoResolution::Dynamic"@,
        TerminfoResolution::Off => "pyembed::TerminfoResolution::None"@,
        TerminfoResolution::Static(v) => "pyembed::TerminfoResolution::Static("@ + quoted(v@)
            + ".to_string())"@,
    }
}

fn terminfo_source(t: &TerminfoResolution) -> (r: String)
    ensures
        r@ == terminfo_code(*t),
{
    match t {
        TerminfoResolution::Dynamic => String::from_str("pyembed::TerminfoResolution::Dynamic"),
        TerminfoResolution::Off => String::from_str("pyembed::TerminfoResolution::None"),
        TerminfoResolution::Static(v) => {
            let mut out = String::from_str("pyembed::TerminfoResolution::Static(");
            push_quoted(&mut out, v.as_str());
            out.append(".to_string())");
            out
        },
    }
}

/// Source for the reference to the packed resources file.
pub open spec fn packed_resources_code(p: Option<Seq<char>>) -> Seq<char> {
    match p {
        Some(path) => "Some(include_bytes!("@ + quoted(path) + "))"@,
        None => "None"@,
    }
}

fn packed_resources_source(p: &Option<String>) -> (r: String)
    ensures
        r@ == packed_resources_code(opt_view(*p)),
{
    match p {
        Some(path) => {
            let mut out = String::from_str("Some(include_bytes!(");
            push_quoted(&mut out, path.as_str());
            out.append("))");
            out
        },
        None => String::from_str("None"),
    }
}


/// The run-time configuration of an embedded Python interpreter.
#[derive(Clone, Debug, PartialEq, Eq)]
pub struct EmbeddedPythonConfig {
    pub config: PythonInterpreterConfig,
    pub raw_allocator: MemoryAllocatorBackend,
    pub oxidized_importer: bool,
    pub filesystem_importer: bool,
    pub argvb: bool,
    pub sys_frozen: bool,
    pub sys_meipass: bool,
    pub terminfo_resolution: TerminfoResolution,
    pub write_modules_directory_env: Option<String>,
    pub run_mode: PythonRunMode,
}

impl Default for EmbeddedPythonConfig {
    fn default() -> (r: Self)
        ensures
            r.config.profile == PythonInterpreterProfile::Isolated,
            r.config.all_unset(),
            r.raw_allocator == MemoryAllocatorBackend::System,
            r.oxidized_importer,
            !r.filesystem_importer,
            !r.argvb,
            !r.sys_frozen,
            !r.sys_meipass,
            r.terminfo_resolution == TerminfoResolution::Off,
            r.write_modules_directory_env is None,
            r.run_mode == PythonRunMode::Repl,
    {
        EmbeddedPythonConfig {
            config: PythonInterpreterConfig::with_profile(PythonInterpreterProfile::Isolated),
            raw_allocator: MemoryAllocatorBackend::System,
            oxidized_importer: true,
            filesystem_importer: false,
            argvb: false,
            sys_frozen: false,
            sys_meipass: false,
            terminfo_resolution: TerminfoResolution::Off,
            write_modules_directory_env: None,
            run_mode: PythonRunMode::Repl,
        }
    }
}

/// Whether more than one way of choosing what runs is set: the run mode
/// (a REPL, a module, code or a file) and the `run_command`, `run_filename`
/// and `run_module` options.
pub open spec fn run_options_conflict(e: EmbeddedPythonConfig) -> bool {
    count_set(
        seq![
            !(e.run_mode is Nothing),
            e.config.run_command is Some,
            e.config.run_filename is Some,
            e.config.run_module is Some,
        ],
    ) > 1
}

/// Source of an expression constructing the configuration `e`, with the
/// packed resources read from the file `packed` where one is given.
pub open spec fn embedded_config_code(e: EmbeddedPythonConfig, packed: Option<Seq<char>>) -> Seq<
    char,
> {
    "pyembed::OxidizedPythonInterpreterConfig {\n"@
        + outer_line("origin"@, "None"@)
        + interpreter_config_code(e.config)
        + outer_line("raw_allocator"@, "Some("@ + raw_allocator_code(e.raw_allocator) + ")"@)
        + outer_line("oxidized_importer"@, bool_code(e.oxidized_importer))
        + outer_line("filesystem_importer"@, bool_code(e.filesystem_importer))
        + outer_line("packed_resources"@, packed_resources_code(packed))
        + outer_line("extra_extension_modules"@, "None"@)
        + outer_line("argvb"@, bool_code(e.argvb))
        + outer_line("sys_frozen"@, bool_code(e.sys_frozen))
        + outer_line("sys_meipass"@, bool_code(e.sys_meipass))
        + outer_line("terminfo_resolution"@, terminfo_code(e.terminfo_resolution))
        + outer_line(
            "write_modules_directory_env"@,
            optional_string_code(opt_view(e.write_modules_directory_env)),
        )
        + outer_line("run"@, run_mode_code(e.run_mode))
        + "}\n"@
}

fn bool_source(b: bool) -> (r: &'static str)
    ensures
        r@ == bool_code(b),
{
    if b {
        "true"
    } else {
        "false"
    }
}

impl EmbeddedPythonConfig {
    /// Converts the configuration to Rust source that constructs a
    /// `pyembed::OxidizedPythonInterpreterConfig`. Fails when more than one
    /// way of choosing what the interpreter runs is set.
    pub fn to_oxidized_python_interpreter_config_rs(&self, packed_resources_path: Option<String>) -> (r:
        Result<String, ConfigError>)
        ensures
            r is Err <==> run_options_conflict(*self),
            r is Err ==> r->Err_0 == ConfigError::ConflictingRunModes,
            r is Ok ==> r->Ok_0@ == embedded_config_code(*self, opt_view(packed_resources_path)),
    {
        let mode_set = match &self.run_mode {
            PythonRunMode::Nothing => false,
            _ => true,
        };
        let c = &self.config;
        let ghost flags = seq![
            mode_set,
            c.run_command is Some,
            c.run_filename is Some,
            c.run_module is Some,
        ];
        let n: usize = (if mode_set { 1usize } else { 0 }) + (if c.run_command.is_some() {
            1usize
        } else {
            0
        }) + (if c.run_filename.is_some() { 1usize } else { 0 }) + (if c.run_module.is_some() {
            1usize
        } else {
            0
        });
        assert(count_set(flags) == n) by {
            assert(flags.drop_last() =~= seq![flags[0], flags[1], flags[2]]);
            assert(flags.drop_last().drop_last() =~= seq![flags[0], flags[1]]);
            assert(flags.drop_last().drop_last().drop_last() =~= seq![flags[0]]);
            assert(flags.drop_last().drop_last().drop_last().drop_last() =~= Seq::<bool>::empty());
            reveal_with_fuel(count_set, 5);
        }
        if n > 1 {
            return Err(ConfigError::ConflictingRunModes);
        }
        let mut out = String::from_str("pyembed::OxidizedPythonInterpreterConfig {\n");
        push_outer(&mut out, "origin", "None");
        push_interpreter_config(&mut out, c);
        let mut raw = String::from_str("Some(");
        raw.append(raw_allocator_source(self.raw_allocator));
        raw.append(")");
        push_outer(&mut out, "raw_allocator", raw.as_str());
        push_outer(&mut out, "oxidized_importer", bool_source(self.oxidized_importer));
        push_outer(&mut out, "filesystem_importer", bool_source(self.filesystem_importer));
        let packed = packed_resources_source(&packed_resources_path);
        push_outer(&mut out, "packed_resources", packed.as_str());
        push_outer(&mut out, "extra_extension_modules", "None");
        push_outer(&mut out, "argvb", bool_source(self.argvb));
        push_outer(&mut out, "sys_frozen", bool_source(self.sys_frozen));
        push_outer(&mut out, "sys_meipass", bool_source(self.sys_meipass));
        let terminfo = terminfo_source(&self.terminfo_resolution);
        push_outer(&mut out, "terminfo_resolution", terminfo.as_str());
        let modules_env = optional_string_to_string(&self.write_modules_directory_env);
        push_outer(&mut out, "write_modules_directory_env", modules_env.as_str());
        let run = run_mode_source(&self.run_mode);
        push_outer(&mut out, "run", run.as_str());
        out.append("}\n");
        Ok(out)
    }

    /// Rust source of a module holding a function that returns this
    /// configuration, the body indented by four spaces.
    pub fn default_python_config_rs(&self, packed_resources_path: Option<String>) -> (r: Result<
        String,
        ConfigError,
    >)
        ensures
            r is Err <==> run_options_conflict(*self),
            r is Err ==> r->Err_0 == ConfigError::ConflictingRunModes,
            r is Ok ==> r->Ok_0@ == config_module_code(
                embedded_config_code(*self, opt_view(packed_resources_path)),
            ),
    {
        let code = self.to_oxidized_python_interpreter_config_rs(packed_resources_path)?;
        let mut out = String::from_str(CONFIG_FN_HEADER);
        push_indented(&mut out, code.as_str());
        out.append("\n}\n");
        Ok(out)
    }
}

/// Doc comment and signature of the generated configuration function.
pub const CONFIG_FN_HEADER: &'static str = "/// Obtain the default Python configuration\n///\n/// The crate is compiled with a default Python configuration embedded\n/// in the crate. This function will return an instance of that\n/// configuration.\npub fn default_python_config<'a>() -> pyembed::OxidizedPythonInterpreterConfig<'a> {\n";

/// `s` with every line after the first prefixed by four spaces.
pub open spec fn indent_rest(s: Seq<char>) -> Seq<char>
    decreases s.len(),
{
    if s.len() == 0 {
        Seq::empty()
    } else {
        indent_rest(s.drop_last()) + if s.last() == '\n' {
            "\n    "@
        } else {
            seq![s.last()]
        }
    }
}

/// `s` with every line, the first included, prefixed by four spaces.
pub open spec fn indented(s: Seq<char>) -> Seq<char> {
    "    "@ + indent_rest(s)
}

/// The generated module around the configuration expression `code`.
pub open spec fn config_module_code(code: Seq<char>) -> Seq<char> {
    CONFIG_FN_HEADER@ + indented(code) + "\n}\n"@
}

fn push_indented(out: &mut String, s: &str)
    ensures
        final(out)@ == old(out)@ + indented(s@),
{
    out.append("    ");
    let ghost start = out@;
    let n = s.unicode_len();
    let mut i: usize = 0;
    while i < n
        invariant
            n == s@.len(),
            i <= n,
            start == old(out)@ + "    "@,
            out@ == start + indent_rest(s@.subrange(0, i as int)),
        decreases n - i,
    {
        let c = s.get_char(i);
        proof {
            let next = s@.subrange(0, i + 1);
            assert(next.drop_last() =~= s@.subrange(0, i as int));
            assert(next.last() == c);
        }
        if c == '\n' {
            out.append("\n    ");
        } else {
            let one = s.substring_char(i, i + 1);
            out.append(one);
            assert(one@ =~= seq![c]);
        }
        assert(out@ =~= start + indent_rest(s@.subrange(0, i + 1)));
        i = i + 1;
    }
    assert(s@.subrange(0, n as int) =~= s@);
    assert(out@ =~= old(out)@ + indented(s@));
}

} // verus!
