//! Python resources, the decisions taken on each of them, and the packaging
//! policy that takes those decisions.

use vstd::prelude::*;

verus! {

/// The closed set of resource kinds.
#[derive(Clone, Copy, Debug, PartialEq, Eq, Structural)]
pub enum ResourceKind {
    ModuleSource,
    PackageResource,
    PackageDistributionResource,
    ExtensionModule,
}

impl ResourceKind {
    /// Whether resources of this kind can be compiled to bytecode.
    pub open spec fn spec_needs_compilation(self) -> bool {
        self is ModuleSource
    }

    /// Whether resources of this kind can be compiled to bytecode.
    pub fn needs_compilation(&self) -> (r: bool)
        ensures
            r == self.spec_needs_compilation(),
    {
        match self {
            ResourceKind::ModuleSource => true,
            _ => false,
        }
    }
}

/// Where the bytes of a resource come from.
#[derive(Clone, Debug, PartialEq, Eq)]
pub enum DataLocation {
    Memory(Vec<u8>),
    Path(String),
}

pub enum DataView {
    Memory(Seq<u8>),
    Path(Seq<char>),
}

impl View for DataLocation {
    type V = DataView;

    open spec fn view(&self) -> DataView {
        match self {
            DataLocation::Memory(b) => DataView::Memory(b@),
            DataLocation::Path(p) => DataView::Path(p@),
        }
    }
}

impl DataLocation {
    /// A copy of the location.
    pub fn duplicate(&self) -> (r: Self)
        ensures
            r@ == self@,
    {
        match self {
            DataLocation::Memory(b) => {
                let mut out: Vec<u8> = Vec::new();
                let mut i: usize = 0;
                while i < b.len()
                    invariant
                        i <= b.len(),
                        out@ == b@.subrange(0, i as int),
                    decreases b.len() - i,
                {
                    out.push(b[i]);
                    assert(out@ =~= b@.subrange(0, i + 1));
                    i = i + 1;
                }
                assert(out@ =~= b@);
                DataLocation::Memory(out)
            },
            DataLocation::Path(p) => DataLocation::Path(p.clone()),
        }
    }
}

/// A resource that may be embedded into, or shipped beside, an executable.
#[derive(Clone, Debug, PartialEq, Eq)]
pub struct PythonResource {
    pub kind: ResourceKind,
    /// Dotted module name, or `package:relative name` for package data.
    pub name: String,
    pub is_package: bool,
    pub is_stdlib: bool,
    pub is_test: bool,
    /// Tag of the bytecode ABI, such as `cpython-38`.
    pub cache_tag: String,
    pub data: DataLocation,
}

pub struct ResourceView {
    pub kind: ResourceKind,
    pub name: Seq<char>,
    pub is_package: bool,
    pub is_stdlib: bool,
    pub is_test: bool,
    pub cache_tag: Seq<char>,
    pub data: DataView,
}

impl View for PythonResource {
    type V = ResourceView;

    open spec fn view(&self) -> ResourceView {
        ResourceView {
            kind: self.kind,
            name: self.name@,
            is_package: self.is_package,
            is_stdlib: self.is_stdlib,
            is_test: self.is_test,
            cache_tag: self.cache_tag@,
            data: self.data@,
        }
    }
}

impl PythonResource {
    /// A copy of the resource.
    pub fn duplicate(&self) -> (r: Self)
        ensures
            r@ == self@,
    {
        PythonResource {
            kind: self.kind,
            name: self.name.clone(),
            is_package: self.is_package,
            is_stdlib: self.is_stdlib,
            is_test: self.is_test,
            cache_tag: self.cache_tag.clone(),
            data: self.data.duplicate(),
        }
    }
}

/// Where an added resource is placed at run time.
#[derive(Clone, Copy, Debug, PartialEq, Eq, Structural)]
pub enum ResourceLocation {
    InMemory,
    FilesystemRelative,
}

/// What is done with one resource when it is added to a collection.
#[derive(Clone, Copy, Debug, PartialEq, Eq, Structural)]
pub struct AddCollectionContext {
    pub included: bool,
    pub location: ResourceLocation,
    pub location_fallback: Option<ResourceLocation>,
    pub add_source: bool,
    pub add_bytecode_optimization_level_zero: bool,
    pub add_bytecode_optimization_level_one: bool,
    pub add_bytecode_optimization_level_two: bool,
}

/// The resources that an override applies to.
#[derive(Clone, Debug, PartialEq, Eq)]
pub enum OverrideScope {
    /// Every resource.
    Global,
    /// The resource of exactly this name.
    Resource(String),
    /// This package and everything below it.
    Package(String),
}

/// One decision that an override sets.
#[derive(Clone, Copy, Debug, PartialEq, Eq, Structural)]
pub enum ContextSetting {
    Included(bool),
    Location(ResourceLocation),
    LocationFallback(Option<ResourceLocation>),
    AddSource(bool),
    BytecodeLevelZero(bool),
    BytecodeLevelOne(bool),
    BytecodeLevelTwo(bool),
}

/// A transformation of the add context of the resources in its scope.
#[derive(Clone, Debug, PartialEq, Eq)]
pub struct ContextOverride {
    pub scope: OverrideScope,
    pub setting: ContextSetting,
}

/// Whether `name` is `package` or a name below it.
pub open spec fn in_package(name: Seq<char>, package: Seq<char>) -> bool {
    name == package || (package.len() < name.len() && name.subrange(0, package.len() as int)
        == package && name[package.len() as int] == '.')
}

pub open spec fn scope_applies(scope: OverrideScope, name: Seq<char>) -> bool {
    match scope {
        OverrideScope::Global => true,
        OverrideScope::Resource(n) => n@ == name,
        OverrideScope::Package(p) => in_package(name, p@),
    }
}

pub open spec fn apply_setting(c: AddCollectionContext, s: ContextSetting) -> AddCollectionContext {
    match s {
        ContextSetting::Included(b) => AddCollectionContext { included: b, ..c },
        ContextSetting::Location(l) => AddCollectionContext { location: l, ..c },
        ContextSetting::LocationFallback(l) => AddCollectionContext { location_fallback: l, ..c },
        ContextSetting::AddSource(b) => AddCollectionContext { add_source: b, ..c },
        ContextSetting::BytecodeLevelZero(b) => AddCollectionContext {
            add_bytecode_optimization_level_zero: b,
            ..c
        },
        ContextSetting::BytecodeLevelOne(b) => AddCollectionContext {
            add_bytecode_optimization_level_one: b,
            ..c
        },
        ContextSetting::BytecodeLevelTwo(b) => AddCollectionContext {
            add_bytecode_optimization_level_two: b,
            ..c
        },
    }
}

/// The context after the overrides, in order, that apply to `name`.
pub open spec fn apply_overrides(
    overrides: Seq<ContextOverride>,
    name: Seq<char>,
    c: AddCollectionContext,
) -> AddCollectionContext
    decreases overrides.len(),
{
    if overrides.len() == 0 {
        c
    } else {
        let before = apply_overrides(overrides.drop_last(), name, c);
        let o = overrides.last();
        if scope_applies(o.scope, name) {
            apply_setting(before, o.setting)
        } else {
            before
        }
    }
}

fn has_prefix_dot(name: &str, package: &str) -> (r: bool)
    ensures
        r == in_package(name@, package@),
{
    let n = name.unicode_len();
    let p = package.unicode_len();
    if n < p {
        proof {
            if name@ == package@ {
                assert(false);
            }
        }
        return false;
    }
    let mut i: usize = 0;
    while i < p
        invariant
            n == name@.len(),
            p == package@.len(),
            p <= n,
            i <= p,
            forall|j: int| 0 <= j < i ==> name@[j] == package@[j],
        decreases p - i,
    {
        if name.get_char(i) != package.get_char(i) {
            proof {
                assert(name@.subrange(0, p as int)[i as int] != package@[i as int]);
                assert(name@ != package@);
            }
            return false;
        }
        i = i + 1;
    }
    assert(name@.subrange(0, p as int) =~= package@);
    if n == p {
        assert(name@ =~= package@);
        true
    } else {
        name.get_char(p) == '.'
    }
}

fn scope_matches(scope: &OverrideScope, name: &String) -> (r: bool)
    ensures
        r == scope_applies(*scope, name@),
{
    match scope {
        OverrideScope::Global => true,
        OverrideScope::Resource(n) => *n == *name,
        OverrideScope::Package(p) => has_prefix_dot(name.as_str(), p.as_str()),
    }
}

fn apply_setting_exec(c: AddCollectionContext, s: ContextSetting) -> (r: AddCollectionContext)
    ensures
        r == apply_setting(c, s),
{
    match s {
        ContextSetting::Included(b) => AddCollectionContext { included: b, ..c },
        ContextSetting::Location(l) => AddCollectionContext { location: l, ..c },
        ContextSetting::LocationFallback(l) => AddCollectionContext { location_fallback: l, ..c },
        ContextSetting::AddSource(b) => AddCollectionContext { add_source: b, ..c },
        ContextSetting::BytecodeLevelZero(b) => AddCollectionContext {
            add_bytecode_optimization_level_zero: b,
            ..c
        },
        ContextSetting::BytecodeLevelOne(b) => AddCollectionContext {
            add_bytecode_optimization_level_one: b,
            ..c
        },
        ContextSetting::BytecodeLevelTwo(b) => AddCollectionContext {
            add_bytecode_optimization_level_two: b,
            ..c
        },
    }
}

/// Default inclusion rules and an ordered list of overrides, applied to
/// every resource before it is added to a collection.
#[derive(Clone, Debug, PartialEq, Eq)]
pub struct PythonPackagingPolicy {
    /// Whether source modules of the distribution are added.
    pub include_distribution_sources: bool,
    /// Whether package resources of the distribution are added.
    pub include_distribution_resources: bool,
    /// Whether source modules from outside the distribution are added.
    pub include_non_distribution_sources: bool,
    /// Whether resources belonging to test packages are added.
    pub include_test: bool,
    pub resources_location: ResourceLocation,
    pub resources_location_fallback: Option<ResourceLocation>,
    pub bytecode_optimize_level_zero: bool,
    pub bytecode_optimize_level_one: bool,
    pub bytecode_optimize_level_two: bool,
    /// Whether adding a resource whose identity is already collected
    /// replaces it, rather than failing.
    pub allow_override: bool,
    /// Overrides, in the order in which they were registered.
    pub overrides: Vec<ContextOverride>,
}

/// The decision that the policy's defaults take on `r`.
pub open spec fn default_context(p: PythonPackagingPolicy, r: ResourceView) -> AddCollectionContext {
    let wanted = match r.kind {
        ResourceKind::ModuleSource => if r.is_stdlib {
            p.include_distribution_sources
        } else {
            p.include_non_distribution_sources
        },
        ResourceKind::PackageResource | ResourceKind::PackageDistributionResource => !r.is_stdlib
            || p.include_distribution_resources,
        ResourceKind::ExtensionModule => true,
    };
    let compiled = r.kind.spec_needs_compilation();
    AddCollectionContext {
        included: wanted && (!r.is_test || p.include_test),
        location: p.resources_location,
        location_fallback: p.resources_location_fallback,
        add_source: compiled,
        add_bytecode_optimization_level_zero: compiled && p.bytecode_optimize_level_zero,
        add_bytecode_optimization_level_one: compiled && p.bytecode_optimize_level_one,
        add_bytecode_optimization_level_two: compiled && p.bytecode_optimize_level_two,
    }
}

/// The decision that the policy takes on `r`: its defaults, then each of its
/// overrides in registration order.
pub open spec fn policy_context(p: PythonPackagingPolicy, r: ResourceView) -> AddCollectionContext {
    apply_overrides(p.overrides@, r.name, default_context(p, r))
}

impl PythonPackagingPolicy {
    /// Whether this is the policy that `new` returns for the placement.
    pub open spec fn is_new(
        &self,
        resources_location: ResourceLocation,
        resources_location_fallback: Option<ResourceLocation>,
    ) -> bool {
        &&& self.include_distribution_sources
        &&& !self.include_distribution_resources
        &&& self.include_non_distribution_sources
        &&& !self.include_test
        &&& self.resources_location == resources_location
        &&& self.resources_location_fallback == resources_location_fallback
        &&& self.bytecode_optimize_level_zero
        &&& !self.bytecode_optimize_level_one
        &&& !self.bytecode_optimize_level_two
        &&& !self.allow_override
        &&& self.overrides@.len() == 0
    }

    /// A policy with the given placement, which adds the distribution's
    /// source modules but not its package resources nor anything of a test
    /// package, compiles bytecode at level zero, refuses duplicate
    /// resources, and has no override.
    pub fn new(
        resources_location: ResourceLocation,
        resources_location_fallback: Option<ResourceLocation>,
    ) -> (r: Self)
        ensures
            r.is_new(resources_location, resources_location_fallback),
    {
        PythonPackagingPolicy {
            include_distribution_sources: true,
            include_distribution_resources: false,
            include_non_distribution_sources: true,
            include_test: false,
            resources_location,
            resources_location_fallback,
            bytecode_optimize_level_zero: true,
            bytecode_optimize_level_one: false,
            bytecode_optimize_level_two: false,
            allow_override: false,
            overrides: Vec::new(),
        }
    }

    /// Registers an override after those already registered.
    pub fn register_override(&mut self, o: ContextOverride)
        ensures
            final(self).overrides@ == old(self).overrides@.push(o),
            final(self).include_distribution_sources == old(self).include_distribution_sources,
            final(self).include_distribution_resources == old(self).include_distribution_resources,
            final(self).include_non_distribution_sources
                == old(self).include_non_distribution_sources,
            final(self).include_test == old(self).include_test,
            final(self).resources_location == old(self).resources_location,
            final(self).resources_location_fallback == old(self).resources_location_fallback,
            final(self).bytecode_optimize_level_zero == old(self).bytecode_optimize_level_zero,
            final(self).bytecode_optimize_level_one == old(self).bytecode_optimize_level_one,
            final(self).bytecode_optimize_level_two == old(self).bytecode_optimize_level_two,
            final(self).allow_override == old(self).allow_override,
    {
        self.overrides.push(o);
    }

    fn default_context_exec(&self, r: &PythonResource) -> (c: AddCollectionContext)
        ensures
            c == default_context(*self, r@),
    {
        let wanted = match r.kind {
            ResourceKind::ModuleSource => if r.is_stdlib {
                self.include_distribution_sources
            } else {
                self.include_non_distribution_sources
            },
            ResourceKind::PackageResource | ResourceKind::PackageDistributionResource => !r.is_stdlib
                || self.include_distribution_resources,
            ResourceKind::ExtensionModule => true,
        };
        let compiled = r.kind.needs_compilation();
        AddCollectionContext {
            included: wanted && (!r.is_test || self.include_test),
            location: self.resources_location,
            location_fallback: self.resources_location_fallback,
            add_source: compiled,
            add_bytecode_optimization_level_zero: compiled && self.bytecode_optimize_level_zero,
            add_bytecode_optimization_level_one: compiled && self.bytecode_optimize_level_one,
            add_bytecode_optimization_level_two: compiled && self.bytecode_optimize_level_two,
        }
    }

    /// The decision on `r`: the defaults, then every override in order.
    pub fn apply_to_resource(&self, r: &PythonResource) -> (c: AddCollectionContext)
        ensures
            c == policy_context(*self, r@),
    {
        let mut c = self.default_context_exec(r);
        let mut i: usize = 0;
        while i < self.overrides.len()
            invariant
                i <= self.overrides@.len(),
                c == apply_overrides(
                    self.overrides@.subrange(0, i as int),
                    r.name@,
                    default_context(*self, r@),
                ),
            decreases self.overrides@.len() - i,
        {
            let o = &self.overrides[i];
            proof {
                let next = self.overrides@.subrange(0, i + 1);
                assert(next.drop_last() =~= self.overrides@.subrange(0, i as int));
                assert(next.last() == self.overrides@[i as int]);
            }
            if scope_matches(&o.scope, &r.name) {
                c = apply_setting_exec(c, o.setting);
            }
            i = i + 1;
        }
        assert(self.overrides@.subrange(0, i as int) =~= self.overrides@);
        c
    }
}

} // verus!
