use pyoxidizer::config::{
    default_raw_allocator, optional_bool_to_string, optional_pathbuf_to_string,
    optional_string_to_string, optional_vec_string_to_string, run_mode_from_options, ConfigError,
    EmbeddedPythonConfig,
};
use pyoxidizer::interpreter::{
    Allocator, BytecodeOptimizationLevel, BytesWarning, CheckHashPYCsMode, CoerceCLocale,
    MemoryAllocatorBackend, PythonInterpreterConfig, PythonInterpreterProfile, PythonRunMode,
    TerminfoResolution,
};

fn default_code() -> String {
    [
        "pyembed::OxidizedPythonInterpreterConfig {\n",
        "    origin: None,\n",
        "    interpreter_config: pyembed::PythonInterpreterConfig {\n",
        "        profile: pyembed::PythonInterpreterProfile::Isolated,\n",
        "        allocator: None,\n",
        "        configure_locale: None,\n",
        "        coerce_c_locale: None,\n",
        "        coerce_c_locale_warn: None,\n",
        "        development_mode: None,\n",
        "        isolated: None,\n",
        "        legacy_windows_fs_encoding: None,\n",
        "        parse_argv: None,\n",
        "        use_environment: None,\n",
        "        utf8_mode: None,\n",
        "        argv: None,\n",
        "        base_exec_prefix: None,\n",
        "        base_executable: None,\n",
        "        base_prefix: None,\n",
        "        buffered_stdio: None,\n",
        "        bytes_warning: None,\n",
        "        check_hash_pycs_mode: None,\n",
        "        configure_c_stdio: None,\n",
        "        dump_refs: None,\n",
        "        exec_prefix: None,\n",
        "        executable: None,\n",
        "        fault_handler: None,\n",
        "        filesystem_encoding: None,\n",
        "        filesystem_errors: None,\n",
        "        hash_seed: None,\n",
        "        home: None,\n",
        "        import_time: None,\n",
        "        inspect: None,\n",
        "        install_signal_handlers: None,\n",
        "        interactive: None,\n",
        "        legacy_windows_stdio: None,\n",
        "        malloc_stats: None,\n",
        "        module_search_paths: None,\n",
        "        optimization_level: None,\n",
        "        parser_debug: None,\n",
        "        pathconfig_warnings: None,\n",
        "        prefix: None,\n",
        "        program_name: None,\n",
        "        pycache_prefix: None,\n",
        "        python_path_env: None,\n",
        "        quiet: None,\n",
        "        run_command: None,\n",
        "        run_filename: None,\n",
        "        run_module: None,\n",
        "        show_alloc_count: None,\n",
        "        show_ref_count: None,\n",
        "        site_import: None,\n",
        "        skip_first_source_line: None,\n",
        "        stdio_encoding: None,\n",
        "        stdio_errors: None,\n",
        "        tracemalloc: None,\n",
        "        user_site_directory: None,\n",
        "        verbose: None,\n",
        "        warn_options: None,\n",
        "        write_bytecode: None,\n",
        "        x_options: None,\n",
        "    },\n",
        "    raw_allocator: Some(pyembed::PythonRawAllocator::system()),\n",
        "    oxidized_importer: true,\n",
        "    filesystem_importer: false,\n",
        "    packed_resources: None,\n",
        "    extra_extension_modules: None,\n",
        "    argvb: false,\n",
        "    sys_frozen: false,\n",
        "    sys_meipass: false,\n",
        "    terminfo_resolution: pyembed::TerminfoResolution::None,\n",
        "    write_modules_directory_env: None,\n",
        "    run: pyembed::PythonRunMode::Repl,\n",
        "}\n",
    ]
    .concat()
}

fn all_set() -> EmbeddedPythonConfig {
    let s = |v: &str| Some(v.to_string());
    let mut config = PythonInterpreterConfig::with_profile(PythonInterpreterProfile::Python);
    config.allocator = Some(Allocator::PyMallocDebug);
    config.configure_locale = Some(true);
    config.coerce_c_locale = Some(CoerceCLocale::LCCtype);
    config.coerce_c_locale_warn = Some(false);
    config.development_mode = Some(true);
    config.isolated = Some(false);
    config.legacy_windows_fs_encoding = Some(true);
    config.parse_argv = Some(false);
    config.use_environment = Some(true);
    config.utf8_mode = Some(false);
    config.base_exec_prefix = s("/base/exec");
    config.base_executable = s("/base/python");
    config.base_prefix = s("/base");
    config.buffered_stdio = Some(true);
    config.bytes_warning = Some(BytesWarning::Raise);
    config.check_hash_pycs_mode = Some(CheckHashPYCsMode::Never);
    config.configure_c_stdio = Some(false);
    config.dump_refs = Some(true);
    config.exec_prefix = s("/exec");
    config.executable = s("/bin/python");
    config.fault_handler = Some(true);
    config.filesystem_encoding = s("utf-8");
    config.filesystem_errors = s("surrogateescape");
    config.hash_seed = Some(18446744073709551615);
    config.home = s("C:\\Python");
    config.import_time = Some(false);
    config.inspect = Some(true);
    config.install_signal_handlers = Some(false);
    config.interactive = Some(true);
    config.legacy_windows_stdio = Some(false);
    config.malloc_stats = Some(true);
    config.module_search_paths = Some(vec!["$ORIGIN/lib".to_string(), "/usr/lib".to_string()]);
    config.optimization_level = Some(BytecodeOptimizationLevel::Two);
    config.parser_debug = Some(false);
    config.pathconfig_warnings = Some(true);
    config.prefix = s("/prefix");
    config.program_name = s("app");
    config.pycache_prefix = s("/cache");
    config.python_path_env = s("PYTHONPATH");
    config.quiet = Some(true);
    config.run_command = None;
    config.run_filename = None;
    config.run_module = None;
    config.show_alloc_count = Some(false);
    config.show_ref_count = Some(true);
    config.site_import = Some(false);
    config.skip_first_source_line = Some(true);
    config.stdio_encoding = s("ascii");
    config.stdio_errors = s("strict");
    config.tracemalloc = Some(false);
    config.user_site_directory = Some(true);
    config.verbose = Some(false);
    config.warn_options = Some(vec!["error".to_string()]);
    config.write_bytecode = Some(true);
    config.x_options = Some(vec![]);
    EmbeddedPythonConfig {
        config,
        raw_allocator: MemoryAllocatorBackend::Rust,
        oxidized_importer: false,
        filesystem_importer: true,
        argvb: true,
        sys_frozen: true,
        sys_meipass: true,
        terminfo_resolution: TerminfoResolution::Static("/usr/share/terminfo".to_string()),
        write_modules_directory_env: s("MODULES_DIR"),
        run_mode: PythonRunMode::Eval { code: "print(\"hi\")\nx = '\\\\'".to_string() },
    }
}

#[test]
fn default_config_source_is_exact() {
    let code = EmbeddedPythonConfig::default()
        .to_oxidized_python_interpreter_config_rs(None)
        .unwrap();
    assert_eq!(code, default_code());
}

#[test]
fn config_module_source_is_indented() {
    let code = EmbeddedPythonConfig::default().default_python_config_rs(None).unwrap();
    let body: Vec<String> = default_code().split('\n').map(|l| format!("    {}", l)).collect();
    let expected = format!(
        "/// Obtain the default Python configuration\n///\n/// The crate is compiled with a default Python configuration embedded\n/// in the crate. This function will return an instance of that\n/// configuration.\npub fn default_python_config<'a>() -> pyembed::OxidizedPythonInterpreterConfig<'a> {{\n{}\n}}\n",
        body.join("\n")
    );
    assert_eq!(code, expected);
}

#[test]
fn all_set_config_source_lines() {
    let code = all_set()
        .to_oxidized_python_interpreter_config_rs(Some("/out/packed-resources".to_string()))
        .unwrap();
    for line in [
        "        profile: pyembed::PythonInterpreterProfile::Python,\n",
        "        allocator: Some(pyembed::Allocator::PyMallocDebug),\n",
        "        coerce_c_locale: Some(pyembed::CoerceCLocale::LCCtype),\n",
        "        base_exec_prefix: Some(PathBuf::from(\"/base/exec\")),\n",
        "        bytes_warning: Some(pyembed::BytesWarning::Raise),\n",
        "        check_hash_pycs_mode: Some(pyembed::CheckHashPYCsMode::Never),\n",
        "        filesystem_encoding: Some(\"utf-8\"),\n",
        "        hash_seed: Some(18446744073709551615),\n",
        "        home: Some(PathBuf::from(\"C:\\\\Python\")),\n",
        "        module_search_paths: Some(vec![\"$ORIGIN/lib\", \"/usr/lib\"]),\n",
        "        optimization_level: Some(pyembed::BytecodeOptimizationLevel::Two),\n",
        "        warn_options: Some(vec![\"error\"]),\n",
        "        x_options: Some(vec![]),\n",
        "    raw_allocator: Some(pyembed::PythonRawAllocator::rust()),\n",
        "    oxidized_importer: false,\n",
        "    packed_resources: Some(include_bytes!(\"/out/packed-resources\")),\n",
        "    terminfo_resolution: pyembed::TerminfoResolution::Static(\"/usr/share/terminfo\".to_string()),\n",
        "    write_modules_directory_env: Some(\"MODULES_DIR\"),\n",
        "    run: pyembed::PythonRunMode::Eval { code: \"print(\\\"hi\\\")\\nx = '\\\\\\\\'\".to_string() },\n",
    ] {
        assert!(code.contains(line), "missing {:?}", line);
    }
}

#[test]
fn all_set_and_all_unset_differ() {
    let a = all_set().to_oxidized_python_interpreter_config_rs(None).unwrap();
    let b = EmbeddedPythonConfig::default().to_oxidized_python_interpreter_config_rs(None).unwrap();
    assert_ne!(a, b);
    assert_eq!(a.lines().count(), b.lines().count());
}

#[test]
fn run_modes_encode() {
    let mut c = EmbeddedPythonConfig::default();
    c.run_mode = PythonRunMode::Module { module: "app.main".to_string() };
    let code = c.to_oxidized_python_interpreter_config_rs(None).unwrap();
    assert!(code.contains("    run: pyembed::PythonRunMode::Module { module: \"app.main\".to_string() },\n"));
    c.run_mode = PythonRunMode::File { path: "/srv/app.py".to_string() };
    let code = c.to_oxidized_python_interpreter_config_rs(None).unwrap();
    assert!(code.contains(
        "    run: pyembed::PythonRunMode::File { path: std::path::PathBuf::from(\"/srv/app.py\") },\n"
    ));
    c.run_mode = PythonRunMode::Nothing;
    let code = c.to_oxidized_python_interpreter_config_rs(None).unwrap();
    assert!(code.contains("    run: pyembed::PythonRunMode::None,\n"));
}

#[test]
fn conflicting_run_options_rejected() {
    let mut c = EmbeddedPythonConfig::default();
    c.run_mode = PythonRunMode::Module { module: "app".to_string() };
    c.config.run_command = Some("print(1)".to_string());
    assert_eq!(
        c.to_oxidized_python_interpreter_config_rs(None),
        Err(ConfigError::ConflictingRunModes)
    );
    assert_eq!(c.default_python_config_rs(None), Err(ConfigError::ConflictingRunModes));
    c.run_mode = PythonRunMode::Repl;
    assert_eq!(
        c.to_oxidized_python_interpreter_config_rs(None),
        Err(ConfigError::ConflictingRunModes)
    );
    c.run_mode = PythonRunMode::Nothing;
    assert!(c.to_oxidized_python_interpreter_config_rs(None).is_ok());
    c.config.run_module = Some("app".to_string());
    assert!(c.to_oxidized_python_interpreter_config_rs(None).is_err());
}

#[test]
fn repl_with_run_option_rejected() {
    let mut c = EmbeddedPythonConfig::default();
    c.config.run_module = Some("app".to_string());
    assert_eq!(
        c.to_oxidized_python_interpreter_config_rs(None),
        Err(ConfigError::ConflictingRunModes)
    );
    let mut c = EmbeddedPythonConfig::default();
    c.config.run_command = Some("print(1)".to_string());
    assert_eq!(c.default_python_config_rs(None), Err(ConfigError::ConflictingRunModes));
    let mut c = EmbeddedPythonConfig::default();
    c.run_mode = PythonRunMode::Nothing;
    c.config.run_filename = Some("/srv/app.py".to_string());
    assert!(c.to_oxidized_python_interpreter_config_rs(None).is_ok());
}

#[test]
fn multi_line_code_survives_indentation() {
    let mut c = EmbeddedPythonConfig::default();
    c.run_mode = PythonRunMode::Eval { code: "import a\nimport b".to_string() };
    let code = c.default_python_config_rs(None).unwrap();
    assert!(code.contains(
        "        run: pyembed::PythonRunMode::Eval { code: \"import a\\nimport b\".to_string() },\n"
    ));
}

#[test]
fn run_mode_from_options_exclusive() {
    let s = |v: &str| Some(v.to_string());
    assert_eq!(
        run_mode_from_options(false, s("m"), s("c"), None),
        Err(ConfigError::ConflictingRunModes)
    );
    assert_eq!(
        run_mode_from_options(true, None, None, s("f.py")),
        Err(ConfigError::ConflictingRunModes)
    );
    assert_eq!(run_mode_from_options(false, None, None, None), Ok(PythonRunMode::Repl));
    assert_eq!(run_mode_from_options(true, None, None, None), Ok(PythonRunMode::Repl));
    assert_eq!(
        run_mode_from_options(false, s("m"), None, None),
        Ok(PythonRunMode::Module { module: "m".to_string() })
    );
    assert_eq!(
        run_mode_from_options(false, None, s("1+1"), None),
        Ok(PythonRunMode::Eval { code: "1+1".to_string() })
    );
    assert_eq!(
        run_mode_from_options(false, None, None, s("f.py")),
        Ok(PythonRunMode::File { path: "f.py".to_string() })
    );
    assert_eq!(
        ConfigError::ConflictingRunModes.message(),
        "more than one run mode was specified"
    );
}

#[test]
fn optional_values_encode() {
    assert_eq!(optional_bool_to_string(&Some(true)), "Some(true)");
    assert_eq!(optional_bool_to_string(&Some(false)), "Some(false)");
    assert_eq!(optional_bool_to_string(&None), "None");
    assert_eq!(optional_string_to_string(&Some("a\"b\\c\rd\ne".to_string())), "Some(\"a\\\"b\\\\c\\rd\\ne\")");
    assert_eq!(optional_string_to_string(&None), "None");
    assert_eq!(optional_pathbuf_to_string(&Some("/x y".to_string())), "Some(PathBuf::from(\"/x y\"))");
    assert_eq!(optional_pathbuf_to_string(&None), "None");
    assert_eq!(
        optional_vec_string_to_string(&Some(vec!["a".to_string(), "b\"".to_string()])),
        "Some(vec![\"a\", \"b\\\"\"])"
    );
    assert_eq!(optional_vec_string_to_string(&Some(vec![])), "Some(vec![])");
    assert_eq!(optional_vec_string_to_string(&None), "None");
}

#[test]
fn raw_allocator_by_target() {
    assert_eq!(default_raw_allocator("x86_64-pc-windows-msvc"), MemoryAllocatorBackend::System);
    assert_eq!(default_raw_allocator("x86_64-unknown-linux-gnu"), MemoryAllocatorBackend::Jemalloc);
}

#[test]
fn zero_hash_seed_encodes() {
    let mut c = EmbeddedPythonConfig::default();
    c.config.hash_seed = Some(0);
    let code = c.to_oxidized_python_interpreter_config_rs(None).unwrap();
    assert!(code.contains("        hash_seed: Some(0),\n"));
    c.config.hash_seed = Some(1070);
    let code = c.to_oxidized_python_interpreter_config_rs(None).unwrap();
    assert!(code.contains("        hash_seed: Some(1070),\n"));
}

#[test]
fn equal_sources_come_from_equal_configs() {
    let a = all_set();
    let mut b = all_set();
    assert_eq!(
        a.to_oxidized_python_interpreter_config_rs(Some("p".to_string())),
        b.to_oxidized_python_interpreter_config_rs(Some("p".to_string()))
    );
    b.config.stdio_errors = Some("strict\", stdio_encoding: Some(\"x".to_string());
    assert_ne!(
        a.to_oxidized_python_interpreter_config_rs(None),
        b.to_oxidized_python_interpreter_config_rs(None)
    );
    assert_ne!(
        a.to_oxidized_python_interpreter_config_rs(None),
        a.to_oxidized_python_interpreter_config_rs(Some(String::new()))
    );
}

#[test]
fn empty_string_and_list_encode() {
    assert_eq!(optional_string_to_string(&Some(String::new())), "Some(\"\")");
    assert_eq!(
        optional_vec_string_to_string(&Some(vec![String::new(), String::new()])),
        "Some(vec![\"\", \"\"])"
    );
}
