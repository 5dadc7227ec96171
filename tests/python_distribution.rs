use pyoxidizer::collection::TargetCapabilities;
use pyoxidizer::distribution::{
    CompileStep, CompilerState, DistributionError, DistributionFlavor, DistributionRecord,
    DistributionRegistry, HostDistribution, PythonDistribution, PythonDistributionLocation,
    Resolution, ResolvedDistribution,
};
use pyoxidizer::interpreter::{MemoryAllocatorBackend, PythonInterpreterProfile, PythonRunMode};
use pyoxidizer::resource::{DataLocation, PythonResource, ResourceKind, ResourceLocation};

const HOST: &str = "x86_64-unknown-linux-gnu";

fn stdlib(kind: ResourceKind, name: &str, is_test: bool) -> PythonResource {
    PythonResource {
        kind,
        name: name.to_string(),
        is_package: false,
        is_stdlib: true,
        is_test,
        cache_tag: "cpython-38".to_string(),
        data: DataLocation::Path(format!("/dist/lib/{}", name)),
    }
}

fn sample_distribution(target: &str) -> ResolvedDistribution {
    ResolvedDistribution {
        target_triple: target.to_string(),
        python_major_minor_version: "3.8".to_string(),
        cache_tag: "cpython-38".to_string(),
        compatible_host_triples: vec![target.to_string()],
        capabilities: TargetCapabilities {
            in_memory_extension_modules: false,
            filesystem_resources: true,
        },
        source_modules: vec![
            stdlib(ResourceKind::ModuleSource, "os", false),
            stdlib(ResourceKind::ModuleSource, "json", false),
            stdlib(ResourceKind::ModuleSource, "test.support", true),
        ],
        package_resources: vec![
            stdlib(ResourceKind::PackageResource, "lib2to3:Grammar.txt", false),
            stdlib(ResourceKind::PackageResource, "test:cfgparser.1", true),
        ],
        extension_modules: vec![stdlib(ResourceKind::ExtensionModule, "_ssl", false)],
    }
}

fn location(name: &str) -> PythonDistributionLocation {
    PythonDistributionLocation::Url {
        url: format!("https://example.com/{}.tar.zst", name),
        sha256: format!("{}-sha256", name),
    }
}

fn registry() -> DistributionRegistry {
    DistributionRegistry {
        records: vec![
            DistributionRecord {
                target_triple: HOST.to_string(),
                flavor: DistributionFlavor::Standalone,
                python_major_minor_version: "3.8".to_string(),
                location: location("linux-38"),
            },
            DistributionRecord {
                target_triple: HOST.to_string(),
                flavor: DistributionFlavor::Standalone,
                python_major_minor_version: "3.9".to_string(),
                location: location("linux-39"),
            },
            DistributionRecord {
                target_triple: "x86_64-pc-windows-msvc".to_string(),
                flavor: DistributionFlavor::StandaloneDynamic,
                python_major_minor_version: "3.8".to_string(),
                location: location("windows-dynamic-38"),
            },
        ],
    }
}

fn resolved_distribution() -> PythonDistribution {
    let mut dist = PythonDistribution::default_python_distribution(
        &registry(),
        "standalone",
        None,
        HOST,
        &None,
        "/tmp/dists",
    )
    .unwrap();
    dist.ensure_distribution_resolved(Ok(sample_distribution(HOST))).unwrap();
    dist
}

#[test]
fn test_default_python_distribution() {
    let dist = PythonDistribution::default_python_distribution(
        &registry(),
        "standalone",
        None,
        HOST,
        &None,
        "/tmp/dists",
    )
    .unwrap();
    assert_eq!(dist.source, location("linux-38"));
    assert_eq!(dist.flavor, DistributionFlavor::Standalone);
    assert!(dist.needs_resolution());
}

#[test]
fn test_default_python_distribution_python_38() {
    let dist = PythonDistribution::default_python_distribution(
        &registry(),
        "standalone",
        None,
        HOST,
        &Some("3.8".to_string()),
        "/tmp/dists",
    )
    .unwrap();
    assert_eq!(dist.source, location("linux-38"));
}

#[test]
fn test_default_python_distribution_python_39() {
    let dist = PythonDistribution::default_python_distribution(
        &registry(),
        "standalone",
        None,
        HOST,
        &Some("3.9".to_string()),
        "/tmp/dists",
    )
    .unwrap();
    assert_eq!(dist.source, location("linux-39"));
}

#[test]
fn test_default_python_distribution_dynamic_windows() {
    let dist = PythonDistribution::default_python_distribution(
        &registry(),
        "standalone_dynamic",
        Some("x86_64-pc-windows-msvc".to_string()),
        HOST,
        &None,
        "/tmp/dists",
    )
    .unwrap();
    assert_eq!(dist.source, location("windows-dynamic-38"));
    assert_eq!(dist.flavor, DistributionFlavor::StandaloneDynamic);
}

#[test]
fn default_python_distribution_unknown_flavor() {
    let err = PythonDistribution::default_python_distribution(
        &registry(),
        "bogus",
        None,
        HOST,
        &None,
        "/tmp/dists",
    )
    .err()
    .unwrap();
    assert_eq!(err, DistributionError::UnknownFlavor("bogus".to_string()));
}

#[test]
fn default_python_distribution_unknown_version() {
    let err = PythonDistribution::default_python_distribution(
        &registry(),
        "standalone",
        None,
        HOST,
        &Some("2.7".to_string()),
        "/tmp/dists",
    )
    .err()
    .unwrap();
    assert_eq!(err, DistributionError::NoDistribution);
}

#[test]
fn test_python_distribution_multiple_args() {
    let err = PythonDistribution::from_args(
        "sha256",
        Some("local_path_value".to_string()),
        Some("url_value".to_string()),
        "standalone",
        "/tmp/dists",
    )
    .err()
    .unwrap();
    assert_eq!(err.message(), "cannot define both local_path and url");
}

#[test]
fn python_distribution_no_location() {
    let err = PythonDistribution::from_args("sha256", None, None, "standalone", "/tmp/dists")
        .err()
        .unwrap();
    assert_eq!(err, DistributionError::NoLocation);
}

#[test]
fn python_distribution_invalid_flavor() {
    let err = PythonDistribution::from_args(
        "sha256",
        None,
        Some("some_url".to_string()),
        "standalone_static",
        "/tmp/dists",
    )
    .err()
    .unwrap();
    assert_eq!(err.message(), "invalid distribution flavor standalone_static");
}

#[test]
fn test_python_distribution_url() {
    let dist = PythonDistribution::from_args(
        "sha256",
        None,
        Some("some_url".to_string()),
        "standalone",
        "/tmp/dists",
    )
    .unwrap();
    let wanted = PythonDistributionLocation::Url {
        url: "some_url".to_string(),
        sha256: "sha256".to_string(),
    };
    assert_eq!(dist.source, wanted);
    assert_eq!(dist.flavor, DistributionFlavor::Standalone);
}

#[test]
fn test_python_distribution_local_path() {
    let dist = PythonDistribution::from_args(
        "sha256",
        Some("some_path".to_string()),
        None,
        "standalone",
        "/tmp/dists",
    )
    .unwrap();
    let wanted = PythonDistributionLocation::Local {
        local_path: "some_path".to_string(),
        sha256: "sha256".to_string(),
    };
    assert_eq!(dist.source, wanted);
    assert_eq!(dist.flavor, DistributionFlavor::Standalone);
}

#[test]
fn test_make_python_packaging_policy() {
    let policy = resolved_distribution().make_python_packaging_policy().unwrap();
    assert!(policy.include_distribution_sources);
    assert!(!policy.include_test);
    assert_eq!(policy.resources_location, ResourceLocation::InMemory);
    assert_eq!(
        policy.resources_location_fallback,
        Some(ResourceLocation::FilesystemRelative)
    );
    assert!(policy.overrides.is_empty());
}

#[test]
fn make_python_packaging_policy_unresolved() {
    let dist = PythonDistribution::from_args(
        "sha256",
        None,
        Some("some_url".to_string()),
        "standalone",
        "/tmp/dists",
    )
    .unwrap();
    assert_eq!(
        dist.make_python_packaging_policy().err(),
        Some(DistributionError::NotResolved)
    );
}

#[test]
fn test_make_python_interpreter_config() {
    let config = resolved_distribution().make_python_interpreter_config().unwrap();
    assert_eq!(config.config.profile, PythonInterpreterProfile::Isolated);
    assert_eq!(config.raw_allocator, MemoryAllocatorBackend::Jemalloc);
    assert_eq!(config.run_mode, PythonRunMode::Repl);
}

#[test]
fn test_source_modules() {
    let mods = resolved_distribution().source_modules().unwrap();
    assert_eq!(mods.len(), 3);
    for m in &mods {
        assert_eq!(m.kind, ResourceKind::ModuleSource);
        assert!(m.is_stdlib);
    }
}

#[test]
fn test_package_resources() {
    let dist = resolved_distribution();
    let data_default = dist.package_resources(false).unwrap();
    let data_tests = dist.package_resources(true).unwrap();
    assert!(data_default.len() < data_tests.len());
    for r in &data_tests {
        assert_eq!(r.kind, ResourceKind::PackageResource);
        assert!(r.is_stdlib);
    }
    assert_eq!(data_default.len(), 1);
    assert_eq!(data_default[0].name, "lib2to3:Grammar.txt");
}

#[test]
fn test_extension_modules() {
    let mods = resolved_distribution().extension_modules().unwrap();
    assert_eq!(mods.len(), 1);
    for m in &mods {
        assert_eq!(m.kind, ResourceKind::ExtensionModule);
        assert!(m.is_stdlib);
    }
}

#[test]
fn resolve_twice_keeps_first_distribution() {
    let mut dist = resolved_distribution();
    let first = dist.resolution.clone();
    let mut other = sample_distribution(HOST);
    other.python_major_minor_version = "3.9".to_string();
    assert!(dist.ensure_distribution_resolved(Ok(other)).is_ok());
    assert_eq!(dist.resolution, first);
    assert!(!dist.needs_resolution());
}

#[test]
fn failed_resolution_is_terminal() {
    let mut dist = PythonDistribution::from_args(
        "sha256",
        None,
        Some("some_url".to_string()),
        "standalone",
        "/tmp/dists",
    )
    .unwrap();
    let err = dist.ensure_distribution_resolved(Err("digest mismatch".to_string()));
    assert_eq!(err, Err(DistributionError::Acquisition("digest mismatch".to_string())));
    let again = dist.ensure_distribution_resolved(Ok(sample_distribution(HOST)));
    assert_eq!(again, Err(DistributionError::Acquisition("digest mismatch".to_string())));
    assert_eq!(dist.resolution, Resolution::Failed("digest mismatch".to_string()));
}

#[test]
fn compiler_is_created_once() {
    let mut dist = PythonDistribution::from_args(
        "sha256",
        None,
        Some("some_url".to_string()),
        "standalone",
        "/tmp/dists",
    )
    .unwrap();
    assert_eq!(dist.compile_bytecode_step(), CompileStep::ResolveDistribution);
    dist.ensure_distribution_resolved(Ok(sample_distribution(HOST))).unwrap();
    assert_eq!(dist.compile_bytecode_step(), CompileStep::CreateCompiler);
    dist.record_bytecode_compiler(Ok(()));
    assert_eq!(dist.compile_bytecode_step(), CompileStep::Compile);
    dist.record_bytecode_compiler(Err("should be ignored".to_string()));
    assert_eq!(dist.compiler, CompilerState::Ready);
}

#[test]
fn compiler_failure_keeps_resolution() {
    let mut dist = resolved_distribution();
    dist.record_bytecode_compiler(Err("no python".to_string()));
    assert_eq!(
        dist.compile_bytecode_step(),
        CompileStep::Fail(DistributionError::Compilation("no python".to_string()))
    );
    assert!(dist.resolved().is_some());
}

#[test]
fn host_distribution_for_cross_build() {
    let target = sample_distribution("aarch64-unknown-linux-gnu");
    assert_eq!(
        target.host_distribution(HOST, &registry()),
        Ok(HostDistribution::Standalone {
            python_major_minor_version: "3.8".to_string(),
            location: location("linux-38"),
        })
    );
    assert_eq!(
        target.host_distribution("aarch64-unknown-linux-gnu", &registry()),
        Ok(HostDistribution::SameAsTarget)
    );
    assert_eq!(
        target.host_distribution("aarch64-apple-darwin", &registry()),
        Err(DistributionError::NoDistribution)
    );
}

#[test]
fn host_distribution_matches_version() {
    let mut target = sample_distribution("aarch64-unknown-linux-gnu");
    target.python_major_minor_version = "3.9".to_string();
    assert_eq!(
        target.host_distribution(HOST, &registry()),
        Ok(HostDistribution::Standalone {
            python_major_minor_version: "3.9".to_string(),
            location: location("linux-39"),
        })
    );
}

#[test]
fn error_messages() {
    assert_eq!(DistributionError::NoLocation.message(), "one of local_path and url must be defined");
    assert_eq!(DistributionError::NoDistribution.message(), "no known Python distribution matches");
    assert_eq!(DistributionError::NotResolved.message(), "the Python distribution is not resolved");
    assert_eq!(DistributionError::Acquisition("x".to_string()).message(), "x");
    assert_eq!(DistributionError::Compilation("y".to_string()).message(), "y");
}

#[test]
fn windows_default_allocator_is_system() {
    let mut dist = PythonDistribution::from_args(
        "sha256",
        None,
        Some("some_url".to_string()),
        "standalone",
        "/tmp/dists",
    )
    .unwrap();
    dist.ensure_distribution_resolved(Ok(sample_distribution("x86_64-pc-windows-msvc")))
        .unwrap();
    let config = dist.make_python_interpreter_config().unwrap();
    assert_eq!(config.raw_allocator, MemoryAllocatorBackend::System);
}

#[test]
fn flavor_names() {
    assert_eq!(DistributionFlavor::try_from_str("standalone"), Ok(DistributionFlavor::Standalone));
    assert_eq!(
        DistributionFlavor::try_from_str("standalone_static"),
        Ok(DistributionFlavor::StandaloneStatic)
    );
    assert_eq!(
        DistributionFlavor::try_from_str("standalone_dynamic"),
        Ok(DistributionFlavor::StandaloneDynamic)
    );
    assert_eq!(
        DistributionFlavor::try_from_str("Standalone"),
        Err(DistributionError::UnknownFlavor("Standalone".to_string()))
    );
}
