use pyoxidizer::glob::glob_matches;
use pyoxidizer::collection::{CollectionErrorKind, PythonResourceCollection, TargetCapabilities};
use pyoxidizer::resource::{
    AddCollectionContext, DataLocation, PythonResource, ResourceKind, ResourceLocation,
};

fn caps() -> TargetCapabilities {
    TargetCapabilities { in_memory_extension_modules: false, filesystem_resources: true }
}

fn context() -> AddCollectionContext {
    AddCollectionContext {
        included: true,
        location: ResourceLocation::InMemory,
        location_fallback: None,
        add_source: true,
        add_bytecode_optimization_level_zero: true,
        add_bytecode_optimization_level_one: false,
        add_bytecode_optimization_level_two: false,
    }
}

fn resource(kind: ResourceKind, name: &str, data: DataLocation) -> PythonResource {
    PythonResource {
        kind,
        name: name.to_string(),
        is_package: false,
        is_stdlib: false,
        is_test: false,
        cache_tag: "cpython-38".to_string(),
        data,
    }
}

#[test]
fn filter_by_path_keeps_other_scanned_resource() {
    let mut c = PythonResourceCollection::new(caps());
    c.add(
        resource(ResourceKind::PackageResource, "pkg:a.dat", DataLocation::Path("/pkg/a.dat".to_string())),
        context(),
        false,
    )
    .unwrap();
    c.add(
        resource(ResourceKind::PackageResource, "pkg:b.dat", DataLocation::Path("/pkg/b.dat".to_string())),
        context(),
        false,
    )
    .unwrap();
    c.filter_resources_from_files(&vec!["/pkg/a.dat".to_string()], &vec![]);
    assert_eq!(c.len(), 1);
    assert_eq!(c.entries()[0].resource.name, "pkg:b.dat");
}

#[test]
fn filter_leaves_in_memory_resources() {
    let mut c = PythonResourceCollection::new(caps());
    c.add(
        resource(ResourceKind::ModuleSource, "a", DataLocation::Memory(b"/pkg/a.dat".to_vec())),
        context(),
        false,
    )
    .unwrap();
    c.filter_resources_from_files(&vec!["/pkg/a.dat".to_string()], &vec![]);
    assert_eq!(c.len(), 1);
}

#[test]
fn add_after_filter_is_kept() {
    let mut c = PythonResourceCollection::new(caps());
    let a = || resource(ResourceKind::PackageResource, "pkg:a.dat", DataLocation::Path("/pkg/a.dat".to_string()));
    c.add(a(), context(), false).unwrap();
    c.filter_resources_from_files(&vec!["/pkg/a.dat".to_string()], &vec![]);
    assert_eq!(c.len(), 0);
    c.add(a(), context(), false).unwrap();
    assert_eq!(c.len(), 1);
}

#[test]
fn duplicate_without_override_conflicts() {
    let mut c = PythonResourceCollection::new(caps());
    c.add(resource(ResourceKind::ModuleSource, "app", DataLocation::Memory(vec![1])), context(), false)
        .unwrap();
    let err = c
        .add(resource(ResourceKind::ModuleSource, "app", DataLocation::Memory(vec![2])), context(), false)
        .err()
        .unwrap();
    assert_eq!(err.kind, CollectionErrorKind::Conflict);
    assert_eq!(err.resource_kind, ResourceKind::ModuleSource);
    assert_eq!(c.len(), 1);
    assert_eq!(c.entries()[0].resource.data, DataLocation::Memory(vec![1]));
}

#[test]
fn duplicate_with_override_replaces_in_place() {
    let mut c = PythonResourceCollection::new(caps());
    c.add(resource(ResourceKind::ModuleSource, "app", DataLocation::Memory(vec![1])), context(), false)
        .unwrap();
    c.add(resource(ResourceKind::ModuleSource, "other", DataLocation::Memory(vec![3])), context(), false)
        .unwrap();
    c.add(resource(ResourceKind::ModuleSource, "app", DataLocation::Memory(vec![2])), context(), true)
        .unwrap();
    assert_eq!(c.len(), 2);
    assert_eq!(c.entries()[0].resource.data, DataLocation::Memory(vec![2]));
}

#[test]
fn same_name_other_kind_is_no_conflict() {
    let mut c = PythonResourceCollection::new(caps());
    c.add(resource(ResourceKind::ModuleSource, "app", DataLocation::Memory(vec![1])), context(), false)
        .unwrap();
    c.add(resource(ResourceKind::ExtensionModule, "app", DataLocation::Memory(vec![1])), AddCollectionContext { location: ResourceLocation::FilesystemRelative, ..context() }, false)
        .unwrap();
    assert_eq!(c.len(), 2);
}

#[test]
fn extension_in_memory_unsupported() {
    let mut c = PythonResourceCollection::new(caps());
    let err = c
        .add(resource(ResourceKind::ExtensionModule, "_ssl", DataLocation::Memory(vec![0])), context(), false)
        .err()
        .unwrap();
    assert_eq!(err.kind, CollectionErrorKind::Unsupported);
    assert_eq!(c.len(), 0);
}

#[test]
fn extension_uses_fallback_location() {
    let mut c = PythonResourceCollection::new(caps());
    let ctx = AddCollectionContext {
        location_fallback: Some(ResourceLocation::FilesystemRelative),
        ..context()
    };
    c.add(resource(ResourceKind::ExtensionModule, "_ssl", DataLocation::Memory(vec![0])), ctx, false)
        .unwrap();
    assert_eq!(c.entries()[0].location, ResourceLocation::FilesystemRelative);
}

#[test]
fn excluded_resource_is_not_added() {
    let mut c = PythonResourceCollection::new(caps());
    let ctx = AddCollectionContext { included: false, ..context() };
    c.add(resource(ResourceKind::ModuleSource, "app", DataLocation::Memory(vec![1])), ctx, false)
        .unwrap();
    assert_eq!(c.len(), 0);
}

#[test]
fn filter_by_glob() {
    let mut c = PythonResourceCollection::new(caps());
    for (name, path) in [("pkg:a.dat", "/pkg/a.dat"), ("pkg:b.txt", "/pkg/b.txt"), ("other:c.dat", "/other/c.dat")] {
        c.add(
            resource(ResourceKind::PackageResource, name, DataLocation::Path(path.to_string())),
            context(),
            false,
        )
        .unwrap();
    }
    c.filter_resources_from_files(&vec![], &vec!["/pkg/*.dat".to_string()]);
    let names: Vec<&str> = c.entries().iter().map(|e| e.resource.name.as_str()).collect();
    assert_eq!(names, vec!["pkg:b.txt", "other:c.dat"]);
    c.filter_resources_from_files(&vec![], &vec!["/?????/c.dat".to_string()]);
    assert_eq!(c.len(), 1);
}

#[test]
fn glob_patterns_match() {
    assert!(glob_matches("*", ""));
    assert!(glob_matches("*", "/a/b"));
    assert!(glob_matches("/pkg/*.dat", "/pkg/sub/a.dat"));
    assert!(!glob_matches("/pkg/*.dat", "/pkg/a.dat.bak"));
    assert!(glob_matches("a?c", "abc"));
    assert!(!glob_matches("a?c", "ac"));
    assert!(glob_matches("", ""));
    assert!(!glob_matches("", "a"));
    assert!(glob_matches("**a*", "xxa"));
    assert!(!glob_matches("abc", "abd"));
}
