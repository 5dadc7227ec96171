//! Run-time options of an embedded Python interpreter, held as plain values.

use vstd::prelude::*;

verus! {

/// Defaults profile of the interpreter configuration.
#[derive(Clone, Copy, Debug, PartialEq, Eq, Structural)]
pub enum PythonInterpreterProfile {
    Isolated,
    Python,
}

/// Python memory allocator selected through `PYTHONMALLOC`.
#[derive(Clone, Copy, Debug, PartialEq, Eq, Structural)]
pub enum Allocator {
    Debug,
    Default,
    Malloc,
    MallocDebug,
    NotSet,
    PyMalloc,
    PyMallocDebug,
}

/// Target locale of the C locale coercion.
#[derive(Clone, Copy, Debug, PartialEq, Eq, Structural)]
pub enum CoerceCLocale {
    LCCtype,
    C,
}

/// Behaviour of comparisons between `bytes` and `str`.
#[derive(Clone, Copy, Debug, PartialEq, Eq, Structural)]
pub enum BytesWarning {
    Ignore,
    Warn,
    Raise,
}

/// Validation of hash-based `.pyc` files.
#[derive(Clone, Copy, Debug, PartialEq, Eq, Structural)]
pub enum CheckHashPYCsMode {
    Always,
    Never,
    Default,
}

/// Optimization level of compiled bytecode.
#[derive(Clone, Copy, Debug, PartialEq, Eq, Structural)]
pub enum BytecodeOptimizationLevel {
    Zero,
    One,
    Two,
}

/// Backend of the raw memory allocator.
#[derive(Clone, Copy, Debug, PartialEq, Eq, Structural)]
pub enum MemoryAllocatorBackend {
    Jemalloc,
    Rust,
    System,
}

/// How the terminfo database is located at run time.
#[derive(Clone, Debug, PartialEq, Eq)]
pub enum TerminfoResolution {
    Dynamic,
    Off,
    Static(String),
}

/// What the interpreter does once it has started.
#[derive(Clone, Debug, PartialEq, Eq)]
pub enum PythonRunMode {
    Nothing,
    Repl,
    Module { module: String },
    Eval { code: String },
    File { path: String },
}

/// Options of `PyConfig`; each is either set or left to the profile's default.
#[derive(Clone, Debug, PartialEq, Eq)]
pub struct PythonInterpreterConfig {
    pub profile: PythonInterpreterProfile,
    pub allocator: Option<Allocator>,
    pub configure_locale: Option<bool>,
    pub coerce_c_locale: Option<CoerceCLocale>,
    pub coerce_c_locale_warn: Option<bool>,
    pub development_mode: Option<bool>,
    pub isolated: Option<bool>,
    pub legacy_windows_fs_encoding: Option<bool>,
    pub parse_argv: Option<bool>,
    pub use_environment: Option<bool>,
    pub utf8_mode: Option<bool>,
    pub base_exec_prefix: Option<String>,
    pub base_executable: Option<String>,
    pub base_prefix: Option<String>,
    pub buffered_stdio: Option<bool>,
    pub bytes_warning: Option<BytesWarning>,
    pub check_hash_pycs_mode: Option<CheckHashPYCsMode>,
    pub configure_c_stdio: Option<bool>,
    pub dump_refs: Option<bool>,
    pub exec_prefix: Option<String>,
    pub executable: Option<String>,
    pub fault_handler: Option<bool>,
    pub filesystem_encoding: Option<String>,
    pub filesystem_errors: Option<String>,
    pub hash_seed: Option<u64>,
    pub home: Option<String>,
    pub import_time: Option<bool>,
    pub inspect: Option<bool>,
    pub install_signal_handlers: Option<bool>,
    pub interactive: Option<bool>,
    pub legacy_windows_stdio: Option<bool>,
    pub malloc_stats: Option<bool>,
    pub module_search_paths: Option<Vec<String>>,
    pub optimization_level: Option<BytecodeOptimizationLevel>,
    pub parser_debug: Option<bool>,
    pub pathconfig_warnings: Option<bool>,
    pub prefix: Option<String>,
    pub program_name: Option<String>,
    pub pycache_prefix: Option<String>,
    pub python_path_env: Option<String>,
    pub quiet: Option<bool>,
    pub run_command: Option<String>,
    pub run_filename: Option<String>,
    pub run_module: Option<String>,
    pub show_alloc_count: Option<bool>,
    pub show_ref_count: Option<bool>,
    pub site_import: Option<bool>,
    pub skip_first_source_line: Option<bool>,
    pub stdio_encoding: Option<String>,
    pub stdio_errors: Option<String>,
    pub tracemalloc: Option<bool>,
    pub user_site_directory: Option<bool>,
    pub verbose: Option<bool>,
    pub warn_options: Option<Vec<String>>,
    pub write_bytecode: Option<bool>,
    pub x_options: Option<Vec<String>>,
}

impl PythonInterpreterConfig {
    /// Whether every option is unset.
    pub open spec fn all_unset(&self) -> bool {
        &&& self.allocator is None
        &&& self.configure_locale is None
        &&& self.coerce_c_locale is None
        &&& self.coerce_c_locale_warn is None
        &&& self.development_mode is None
        &&& self.isolated is None
        &&& self.legacy_windows_fs_encoding is None
        &&& self.parse_argv is None
        &&& self.use_environment is None
        &&& self.utf8_mode is None
        &&& self.base_exec_prefix is None
        &&& self.base_executable is None
        &&& self.base_prefix is None
        &&& self.buffered_stdio is None
        &&& self.bytes_warning is None
        &&& self.check_hash_pycs_mode is None
        &&& self.configure_c_stdio is None
        &&& self.dump_refs is None
        &&& self.exec_prefix is None
        &&& self.executable is None
        &&& self.fault_handler is None
        &&& self.filesystem_encoding is None
        &&& self.filesystem_errors is None
        &&& self.hash_seed is None
        &&& self.home is None
        &&& self.import_time is None
        &&& self.inspect is None
        &&& self.install_signal_handlers is None
        &&& self.interactive is None
        &&& self.legacy_windows_stdio is None
        &&& self.malloc_stats is None
        &&& self.module_search_paths is None
        &&& self.optimization_level is None
        &&& self.parser_debug is None
        &&& self.pathconfig_warnings is None
        &&& self.prefix is None
        &&& self.program_name is None
        &&& self.pycache_prefix is None
        &&& self.python_path_env is None
        &&& self.quiet is None
        &&& self.run_command is None
        &&& self.run_filename is None
        &&& self.run_module is None
        &&& self.show_alloc_count is None
        &&& self.show_ref_count is None
        &&& self.site_import is None
        &&& self.skip_first_source_line is None
        &&& self.stdio_encoding is None
        &&& self.stdio_errors is None
        &&& self.tracemalloc is None
        &&& self.user_site_directory is None
        &&& self.verbose is None
        &&& self.warn_options is None
        &&& self.write_bytecode is None
        &&& self.x_options is None
    }

    /// A configuration with the given profile and every option unset.
    pub fn with_profile(profile: PythonInterpreterProfile) -> (r: Self)
        ensures
            r.profile == profile,
            r.all_unset(),
    {
        PythonInterpreterConfig {
            profile,
            allocator: None,
            configure_locale: None,
            coerce_c_locale: None,
            coerce_c_locale_warn: None,
            development_mode: None,
            isolated: None,
            legacy_windows_fs_encoding: None,
            parse_argv: None,
            use_environment: None,
            utf8_mode: None,
            base_exec_prefix: None,
            base_executable: None,
            base_prefix: None,
            buffered_stdio: None,
            bytes_warning: None,
            check_hash_pycs_mode: None,
            configure_c_stdio: None,
            dump_refs: None,
            exec_prefix: None,
            executable: None,
            fault_handler: None,
            filesystem_encoding: None,
            filesystem_errors: None,
            hash_seed: None,
            home: None,
            import_time: None,
            inspect: None,
            install_signal_handlers: None,
            interactive: None,
            legacy_windows_stdio: None,
            malloc_stats: None,
            module_search_paths: None,
            optimization_level: None,
            parser_debug: None,
            pathconfig_warnings: None,
            prefix: None,
            program_name: None,
            pycache_prefix: None,
            python_path_env: None,
            quiet: None,
            run_command: None,
            run_filename: None,
            run_module: None,
            show_alloc_count: None,
            show_ref_count: None,
            site_import: None,
            skip_first_source_line: None,
            stdio_encoding: None,
            stdio_errors: None,
            tracemalloc: None,
            user_site_directory: None,
            verbose: None,
            warn_options: None,
            write_bytecode: None,
            x_options: None,
        }
    }
}

} // verus!
