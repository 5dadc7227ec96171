use pyoxidizer::collection::{CollectionErrorKind, TargetCapabilities};
use pyoxidizer::distribution::{
    DistributionError, DistributionFlavor, DistributionRecord, DistributionRegistry,
    HostDistribution, PythonDistribution, PythonDistributionLocation, ResolvedDistribution,
};
use pyoxidizer::executable::PythonExecutable;
use pyoxidizer::resource::{
    ContextOverride, ContextSetting, DataLocation, OverrideScope, PythonResource, ResourceKind,
    ResourceLocation,
};

const HOST: &str = "x86_64-unknown-linux-gnu";

fn stdlib(kind: ResourceKind, name: &str, is_test: bool) -> PythonResource {
    PythonResource {
        kind,
        name: name.to_string(),
        is_package: false,
        is_stdlib: true,
        is_test,
        cache_tag: "cpython-38".to_string(),
        data: DataLocation::Path(format!("/dist/lib/{}", name)),
    }
}

fn sample_distribution() -> ResolvedDistribution {
    ResolvedDistribution {
        target_triple: HOST.to_string(),
        python_major_minor_version: "3.8".to_string(),
        cache_tag: "cpython-38".to_string(),
        compatible_host_triples: vec![HOST.to_string()],
        capabilities: TargetCapabilities {
            in_memory_extension_modules: false,
            filesystem_resources: true,
        },
        source_modules: vec![
            stdlib(ResourceKind::ModuleSource, "os", false),
            stdlib(ResourceKind::ModuleSource, "json", false),
            stdlib(ResourceKind::ModuleSource, "test.support", true),
        ],
        package_resources: vec![
            stdlib(ResourceKind::PackageResource, "lib2to3:Grammar.txt", false),
        ],
        extension_modules: vec![stdlib(ResourceKind::ExtensionModule, "_ssl", false)],
    }
}

fn host_location() -> PythonDistributionLocation {
    PythonDistributionLocation::Url {
        url: "https://example.com/darwin-38.tar.zst".to_string(),
        sha256: "darwin-38-sha256".to_string(),
    }
}

fn registry() -> DistributionRegistry {
    DistributionRegistry {
        records: vec![
            DistributionRecord {
                target_triple: "aarch64-apple-darwin".to_string(),
                flavor: DistributionFlavor::Standalone,
                python_major_minor_version: "3.9".to_string(),
                location: PythonDistributionLocation::Url {
                    url: "https://example.com/darwin-39.tar.zst".to_string(),
                    sha256: "darwin-39-sha256".to_string(),
                },
            },
            DistributionRecord {
                target_triple: "aarch64-apple-darwin".to_string(),
                flavor: DistributionFlavor::Standalone,
                python_major_minor_version: "3.8".to_string(),
                location: host_location(),
            },
        ],
    }
}

fn dist() -> PythonDistribution {
    let mut d = PythonDistribution::from_args(
        "sha256",
        None,
        Some("https://example.com/python.tar.zst".to_string()),
        "standalone",
        "/tmp/dists",
    )
    .unwrap();
    d.ensure_distribution_resolved(Ok(sample_distribution())).unwrap();
    d
}

fn exe() -> PythonExecutable {
    dist().to_python_executable(&registry(), "testapp", None, None, HOST).unwrap()
}

#[test]
fn test_default_values() {
    let exe = exe();
    let entries = exe.resources.entries();
    assert!(entries.iter().any(|e| e.context.add_source));
    assert!(entries
        .iter()
        .all(|e| e.resource.kind != ResourceKind::PackageResource));
    assert_eq!(exe.host_distribution, HostDistribution::SameAsTarget);
    assert_eq!(exe.name, "testapp");
}

#[test]
fn default_executable_skips_tests_and_places_extensions_on_disk() {
    let exe = exe();
    let names: Vec<&str> = exe
        .resources
        .entries()
        .iter()
        .map(|e| e.resource.name.as_str())
        .collect();
    assert_eq!(names, vec!["os", "json", "_ssl"]);
    let ssl = &exe.resources.entries()[2];
    assert_eq!(ssl.location, ResourceLocation::FilesystemRelative);
    assert_eq!(exe.resources.entries()[0].location, ResourceLocation::InMemory);
}

#[test]
fn test_no_sources() {
    let d = dist();
    let mut policy = d.make_python_packaging_policy().unwrap();
    policy.include_distribution_sources = false;
    let exe = d.to_python_executable(&registry(), "testapp", Some(policy), None, HOST).unwrap();
    assert!(exe
        .resources
        .entries()
        .iter()
        .all(|e| e.resource.kind != ResourceKind::ModuleSource));
}

#[test]
fn to_python_executable_unresolved() {
    let d = PythonDistribution::from_args(
        "sha256",
        None,
        Some("u".to_string()),
        "standalone",
        "/tmp/dists",
    )
    .unwrap();
    assert!(d.to_python_executable(&registry(), "testapp", None, None, HOST).is_err());
}

#[test]
fn cross_build_needs_host_distribution() {
    let exe = dist()
        .to_python_executable(&registry(), "testapp", None, None, "aarch64-apple-darwin")
        .unwrap();
    assert_eq!(
        exe.host_distribution,
        HostDistribution::Standalone {
            python_major_minor_version: "3.8".to_string(),
            location: host_location(),
        }
    );
    let host = exe.host_distribution.handle("/tmp/dists").unwrap();
    assert_eq!(host.source, host_location());
    assert_eq!(host.flavor, DistributionFlavor::Standalone);
    assert!(host.needs_resolution());
}

#[test]
fn cross_build_without_host_distribution_fails() {
    let err = dist()
        .to_python_executable(&registry(), "testapp", None, None, "x86_64-pc-windows-msvc")
        .err()
        .unwrap();
    assert_eq!(err, DistributionError::NoDistribution);
    assert!(HostDistribution::SameAsTarget.handle("/tmp/dists").is_none());
}

#[test]
fn test_make_python_module_source() {
    let exe = exe();
    let (m, context) =
        exe.make_python_module_source("foo".to_string(), "import bar".to_string(), false);
    assert_eq!(m.name, "foo");
    assert_eq!(m.data, DataLocation::Memory(b"import bar".to_vec()));
    assert!(!m.is_package);
    assert_eq!(m.cache_tag, "cpython-38");
    assert!(context.included);
    assert!(context.add_source);
    assert!(!context.add_bytecode_optimization_level_two);
}

#[test]
fn test_make_python_module_source_callback() {
    let d = dist();
    let mut policy = d.make_python_packaging_policy().unwrap();
    policy.register_override(ContextOverride {
        scope: OverrideScope::Global,
        setting: ContextSetting::AddSource(true),
    });
    policy.register_override(ContextOverride {
        scope: OverrideScope::Global,
        setting: ContextSetting::BytecodeLevelTwo(true),
    });
    let exe = d.to_python_executable(&registry(), "testapp", Some(policy), None, HOST).unwrap();
    let (m, context) =
        exe.make_python_module_source("foo".to_string(), "import bar".to_string(), false);
    assert_eq!(m.name, "foo");
    assert_eq!(m.data, DataLocation::Memory(b"import bar".to_vec()));
    assert!(!m.is_package);
    assert!(context.add_source);
    assert!(context.add_bytecode_optimization_level_two);
}

#[test]
fn overrides_apply_in_order_and_by_package() {
    let d = dist();
    let mut policy = d.make_python_packaging_policy().unwrap();
    policy.register_override(ContextOverride {
        scope: OverrideScope::Package("foo".to_string()),
        setting: ContextSetting::Included(false),
    });
    policy.register_override(ContextOverride {
        scope: OverrideScope::Resource("foo.keep".to_string()),
        setting: ContextSetting::Included(true),
    });
    let exe = d.to_python_executable(&registry(), "testapp", Some(policy), None, HOST).unwrap();
    let (_, c1) = exe.make_python_module_source("foo.sub".to_string(), String::new(), false);
    let (_, c2) = exe.make_python_module_source("foo.keep".to_string(), String::new(), false);
    let (_, c3) = exe.make_python_module_source("foobar".to_string(), String::new(), false);
    let (_, c4) = exe.make_python_module_source("foo".to_string(), String::new(), true);
    assert!(!c1.included);
    assert!(c2.included);
    assert!(c3.included);
    assert!(!c4.included);
}

#[test]
fn policy_decision_same_through_collection() {
    let mut exe = exe();
    let (m, context) = exe.make_python_module_source("app".to_string(), "x = 1".to_string(), false);
    let again = exe.policy.apply_to_resource(&m);
    assert_eq!(again, context);
    exe.add_python_resource(m, context).unwrap();
    let stored = exe.resources.entries().last().unwrap();
    assert_eq!(stored.context, context);
    assert_eq!(exe.policy.apply_to_resource(&stored.resource), stored.context);
}

#[test]
fn adding_twice_conflicts() {
    let mut exe = exe();
    let (m, context) = exe.make_python_module_source("app".to_string(), "x = 1".to_string(), false);
    let (m2, context2) =
        exe.make_python_module_source("app".to_string(), "x = 2".to_string(), false);
    exe.add_python_resource(m, context).unwrap();
    let before = exe.resources.len();
    let err = exe.add_python_resource(m2, context2).err().unwrap();
    assert_eq!(err.kind, CollectionErrorKind::Conflict);
    assert_eq!(err.name, "app");
    assert_eq!(exe.resources.len(), before);
    assert_eq!(
        exe.resources.entries().last().unwrap().resource.data,
        DataLocation::Memory(b"x = 1".to_vec())
    );
}

#[test]
fn finalize_single_module_defaults_to_repl() {
    let mut resolved = sample_distribution();
    resolved.source_modules = vec![];
    let mut d = PythonDistribution::from_args(
        "sha256",
        None,
        Some("https://example.com/python.tar.zst".to_string()),
        "standalone",
        "/tmp/dists",
    )
    .unwrap();
    d.ensure_distribution_resolved(Ok(resolved)).unwrap();
    let mut exe = d.to_python_executable(&registry(), "testapp", None, None, HOST).unwrap();
    assert!(exe.policy.overrides.is_empty());
    let (m, context) = exe.make_python_module_source("app".to_string(), "print(1)".to_string(), false);
    assert!(context.add_source);
    exe.add_python_resource(m, context).unwrap();
    let modules: Vec<_> = exe
        .resources
        .entries()
        .iter()
        .filter(|e| e.resource.kind == ResourceKind::ModuleSource)
        .collect();
    assert_eq!(modules.len(), 1);
    assert_eq!(modules[0].resource.name, "app");
    assert_eq!(modules[0].resource.data, DataLocation::Memory(b"print(1)".to_vec()));
    let code = exe.finalize(None).unwrap();
    assert!(code.contains("    run: pyembed::PythonRunMode::Repl,\n"));
}

#[test]
fn extension_refused_in_memory_is_unsupported() {
    let mut exe = exe();
    let (mut m, mut context) = exe.make_python_module_source("_ext".to_string(), String::new(), false);
    m.kind = ResourceKind::ExtensionModule;
    context.location = ResourceLocation::InMemory;
    context.location_fallback = None;
    let before = exe.resources.len();
    let err = exe.add_python_resource(m, context).err().unwrap();
    assert_eq!(err.kind, CollectionErrorKind::Unsupported);
    assert_eq!(exe.resources.len(), before);
}

#[test]
fn discovered_resources_get_policy_decisions() {
    let exe = exe();
    let discovered = vec![
        PythonResource {
            kind: ResourceKind::ModuleSource,
            name: "pyflakes".to_string(),
            is_package: true,
            is_stdlib: false,
            is_test: false,
            cache_tag: "cpython-38".to_string(),
            data: DataLocation::Path("/venv/pyflakes/__init__.py".to_string()),
        },
        PythonResource {
            kind: ResourceKind::ModuleSource,
            name: "pyflakes.test".to_string(),
            is_package: true,
            is_stdlib: false,
            is_test: true,
            cache_tag: "cpython-38".to_string(),
            data: DataLocation::Path("/venv/pyflakes/test/__init__.py".to_string()),
        },
    ];
    let decided = exe.apply_policy_to_resources(&discovered);
    assert_eq!(decided.len(), 2);
    assert_eq!(decided[0].0, discovered[0]);
    assert!(decided[0].1.included);
    assert!(!decided[1].1.included);
}

#[test]
fn add_python_resources_keeps_given_decisions() {
    let mut exe = exe();
    let before = exe.resources.len();
    let (a, mut ca) = exe.make_python_module_source("a".to_string(), String::new(), false);
    ca.add_bytecode_optimization_level_two = true;
    let (b, cb) = exe.make_python_module_source("b".to_string(), String::new(), false);
    let (a2, ca2) = exe.make_python_module_source("a".to_string(), "x".to_string(), false);
    let (c, cc) = exe.make_python_module_source("c".to_string(), String::new(), false);
    let err = exe.add_python_resources(&vec![(a, ca), (b, cb), (a2, ca2), (c, cc)]);
    assert_eq!(err.err().unwrap().kind, CollectionErrorKind::Conflict);
    assert_eq!(exe.resources.len(), before + 2);
    let added = &exe.resources.entries()[before];
    assert_eq!(added.resource.name, "a");
    assert!(added.context.add_bytecode_optimization_level_two);
}

#[test]
fn new_executable_is_empty() {
    let d = sample_distribution();
    let policy = d.create_packaging_policy();
    let exe = PythonExecutable::new(
        "app".to_string(),
        "cpython-38".to_string(),
        policy.clone(),
        d.create_python_interpreter_config(),
        HostDistribution::SameAsTarget,
        d.capabilities,
    );
    assert_eq!(exe.resources.len(), 0);
    assert_eq!(*exe.python_packaging_policy(), policy);
    assert_eq!(exe.resources.capabilities(), d.capabilities);
}
