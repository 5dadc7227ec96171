//! Python distributions: where one comes from, resolving it once, and the
//! bytecode compiler bound to it.

use vstd::prelude::*;
use crate::collection::TargetCapabilities;
use crate::config::{default_raw_allocator, EmbeddedPythonConfig};
use crate::interpreter::{MemoryAllocatorBackend, PythonInterpreterProfile};
use crate::resource::{PythonPackagingPolicy, PythonResource, ResourceLocation};

verus! {

/// The build of the runtime a distribution is.
#[derive(Clone, Copy, Debug, PartialEq, Eq, Structural)]
pub enum DistributionFlavor {
    Standalone,
    StandaloneStatic,
    StandaloneDynamic,
}

/// Where a distribution's archive is found; the digest is checked once it
/// has been fetched.
#[derive(Clone, Debug, PartialEq, Eq)]
pub enum PythonDistributionLocation {
    Local { local_path: String, sha256: String },
    Url { url: String, sha256: String },
}

pub enum LocationView {
    Local { local_path: Seq<char>, sha256: Seq<char> },
    Url { url: Seq<char>, sha256: Seq<char> },
}

impl View for PythonDistributionLocation {
    type V = LocationView;

    open spec fn view(&self) -> LocationView {
        match self {
            PythonDistributionLocation::Local { local_path, sha256 } => LocationView::Local {
                local_path: local_path@,
                sha256: sha256@,
            },
            PythonDistributionLocation::Url { url, sha256 } => LocationView::Url {
                url: url@,
                sha256: sha256@,
            },
        }
    }
}

impl PythonDistributionLocation {
    /// A copy of the location.
    pub fn duplicate(&self) -> (r: Self)
        ensures
            r == *self,
    {
        match self {
            PythonDistributionLocation::Local { local_path, sha256 } => {
                PythonDistributionLocation::Local {
                    local_path: local_path.clone(),
                    sha256: sha256.clone(),
                }
            },
            PythonDistributionLocation::Url { url, sha256 } => PythonDistributionLocation::Url {
                url: url.clone(),
                sha256: sha256.clone(),
            },
        }
    }
}

/// Failures of the operations on a distribution.
#[derive(Clone, Debug, PartialEq, Eq)]
pub enum DistributionError {
    /// The flavor is not one of the known ones.
    UnknownFlavor(String),
    /// Both a local path and a URL were given.
    BothLocations,
    /// Neither a local path nor a URL was given.
    NoLocation,
    /// No known distribution matches the target, flavor and version.
    NoDistribution,
    /// The distribution has not been resolved.
    NotResolved,
    /// Fetching or checking the distribution failed.
    Acquisition(String),
    /// The bytecode compiler could not be started.
    Compilation(String),
    /// A resource of the distribution could not be collected.
    Collection(crate::collection::CollectionError),
}

impl DistributionError {
    /// Human-readable description of the error.
    pub fn message(&self) -> (r: String)
        ensures
            r@ == match *self {
                DistributionError::UnknownFlavor(v) => "invalid distribution flavor "@ + v@,
                DistributionError::BothLocations => "cannot define both local_path and url"@,
                DistributionError::NoLocation => "one of local_path and url must be defined"@,
                DistributionError::NoDistribution => "no known Python distribution matches"@,
                DistributionError::NotResolved => "the Python distribution is not resolved"@,
                DistributionError::Acquisition(m) => m@,
                DistributionError::Compilation(m) => m@,
                DistributionError::Collection(e) => "cannot add resource "@ + e.name@,
            },
    {
        match self {
            DistributionError::UnknownFlavor(v) => {
                let mut s = String::from_str("invalid distribution flavor ");
                s.append(v.as_str());
                s
            },
            DistributionError::BothLocations => String::from_str(
                "cannot define both local_path and url",
            ),
            DistributionError::NoLocation => String::from_str(
                "one of local_path and url must be defined",
            ),
            DistributionError::NoDistribution => String::from_str(
                "no known Python distribution matches",
            ),
            DistributionError::NotResolved => String::from_str(
                "the Python distribution is not resolved",
            ),
            DistributionError::Acquisition(m) => m.clone(),
            DistributionError::Compilation(m) => m.clone(),
            DistributionError::Collection(e) => {
                let mut s = String::from_str("cannot add resource ");
                s.append(e.name.as_str());
                s
            },
        }
    }
}

pub open spec fn flavor_named(s: Seq<char>) -> Option<DistributionFlavor> {
    if s == "standalone"@ {
        Some(DistributionFlavor::Standalone)
    } else if s == "standalone_static"@ {
        Some(DistributionFlavor::StandaloneStatic)
    } else if s == "standalone_dynamic"@ {
        Some(DistributionFlavor::StandaloneDynamic)
    } else {
        None
    }
}

impl DistributionFlavor {
    /// The flavor of the given name.
    pub fn try_from_str(s: &str) -> (r: Result<DistributionFlavor, DistributionError>)
        ensures
            flavor_named(s@) is Some ==> r == Ok::<DistributionFlavor, DistributionError>(
                flavor_named(s@)->0,
            ),
            flavor_named(s@) is None ==> r is Err && r->Err_0 is UnknownFlavor
                && r->Err_0->UnknownFlavor_0@ == s@,
    {
        let v = String::from_str(s);
        if v == String::from_str("standalone") {
            Ok(DistributionFlavor::Standalone)
        } else if v == String::from_str("standalone_static") {
            Ok(DistributionFlavor::StandaloneStatic)
        } else if v == String::from_str("standalone_dynamic") {
            Ok(DistributionFlavor::StandaloneDynamic)
        } else {
            Err(DistributionError::UnknownFlavor(v))
        }
    }
}

/// One distribution known for a target triple.
#[derive(Clone, Debug, PartialEq, Eq)]
pub struct DistributionRecord {
    pub target_triple: String,
    pub flavor: DistributionFlavor,
    pub python_major_minor_version: String,
    pub location: PythonDistributionLocation,
}

/// The known distributions, the preferred one first for each target.
#[derive(Clone, Debug, PartialEq, Eq)]
pub struct DistributionRegistry {
    pub records: Vec<DistributionRecord>,
}

pub open spec fn record_matches(
    d: DistributionRecord,
    target: Seq<char>,
    flavor: DistributionFlavor,
    version: Option<Seq<char>>,
) -> bool {
    &&& d.target_triple@ == target
    &&& d.flavor == flavor
    &&& match version {
        Some(v) => d.python_major_minor_version@ == v,
        None => true,
    }
}

impl DistributionRegistry {
    /// The position of the first record for `target` and `flavor`, of the
    /// given version where one is given.
    pub fn find_distribution(
        &self,
        target: &str,
        flavor: DistributionFlavor,
        version: &Option<String>,
    ) -> (r: Option<usize>)
        ensures
            r is Some ==> r->0 < self.records@.len() && record_matches(
                self.records@[r->0 as int],
                target@,
                flavor,
                crate::config::opt_view(*version),
            ) && forall|j: int|
                0 <= j < r->0 ==> !record_matches(
                    #[trigger] self.records@[j],
                    target@,
                    flavor,
                    crate::config::opt_view(*version),
                ),
            r is None ==> forall|j: int|
                0 <= j < self.records@.len() ==> !record_matches(
                    #[trigger] self.records@[j],
                    target@,
                    flavor,
                    crate::config::opt_view(*version),
                ),
    {
        let t = String::from_str(target);
        let mut i: usize = 0;
        while i < self.records.len()
            invariant
                i <= self.records@.len(),
                t@ == target@,
                forall|j: int|
                    0 <= j < i ==> !record_matches(
                        #[trigger] self.records@[j],
                        target@,
                        flavor,
                        crate::config::opt_view(*version),
                    ),
            decreases self.records@.len() - i,
        {
            let d = &self.records[i];
            let version_ok = match version {
                Some(v) => d.python_major_minor_version == *v,
                None => true,
            };
            if d.target_triple == t && d.flavor == flavor && version_ok {
                return Some(i);
            }
            i = i + 1;
        }
        None
    }
}

/// What resolving a distribution found: its version and abilities, and the
/// resources it ships.
#[derive(Clone, Debug, PartialEq, Eq)]
pub struct ResolvedDistribution {
    pub target_triple: String,
    pub python_major_minor_version: String,
    /// Tag of the bytecode ABI, such as `cpython-38`.
    pub cache_tag: String,
    /// Host triples that can run this distribution's interpreter.
    pub compatible_host_triples: Vec<String>,
    pub capabilities: TargetCapabilities,
    pub source_modules: Vec<PythonResource>,
    pub package_resources: Vec<PythonResource>,
    pub extension_modules: Vec<PythonResource>,
}

/// Where resolving a distribution stands.
#[derive(Clone, Debug, PartialEq, Eq)]
pub enum Resolution {
    Unresolved,
    Resolved(ResolvedDistribution),
    /// Resolving failed, for good, for this handle.
    Failed(String),
}

/// Where creating the bytecode compiler stands.
#[derive(Clone, Debug, PartialEq, Eq)]
pub enum CompilerState {
    NotCreated,
    Ready,
    /// Creating the compiler failed; later compilations fail too.
    Failed(String),
}

/// The state after a resolution attempt with `outcome`: only an unresolved
/// handle takes the outcome in.
pub open spec fn resolve_step(
    r: Resolution,
    outcome: Result<ResolvedDistribution, String>,
) -> Resolution {
    match r {
        Resolution::Unresolved => match outcome {
            Ok(d) => Resolution::Resolved(d),
            Err(m) => Resolution::Failed(m),
        },
        _ => r,
    }
}

/// The compiler state after an attempt to create it with `outcome`: only a
/// resolved handle without a compiler takes the outcome in.
pub open spec fn compiler_step(
    r: Resolution,
    c: CompilerState,
    outcome: Result<(), String>,
) -> CompilerState {
    if r is Resolved && c is NotCreated {
        match outcome {
            Ok(_) => CompilerState::Ready,
            Err(m) => CompilerState::Failed(m),
        }
    } else {
        c
    }
}

/// What has to happen next for bytecode to be compiled.
#[derive(Clone, Debug, PartialEq, Eq)]
pub enum CompileStep {
    /// The distribution is to be resolved first.
    ResolveDistribution,
    /// The compiler is to be created first.
    CreateCompiler,
    /// The compiler is ready.
    Compile,
    /// Compiling cannot succeed.
    Fail(DistributionError),
}

pub open spec fn compile_step(r: Resolution, c: CompilerState) -> CompileStep {
    match r {
        Resolution::Unresolved => CompileStep::ResolveDistribution,
        Resolution::Failed(m) => CompileStep::Fail(DistributionError::Acquisition(m)),
        Resolution::Resolved(_) => match c {
            CompilerState::NotCreated => CompileStep::CreateCompiler,
            CompilerState::Ready => CompileStep::Compile,
            CompilerState::Failed(m) => CompileStep::Fail(DistributionError::Compilation(m)),
        },
    }
}

/// Which distribution runs on the build host.
#[derive(Clone, Debug, PartialEq, Eq)]
pub enum HostDistribution {
    /// The target distribution runs on the host.
    SameAsTarget,
    /// The standalone distribution for the host, of the target's version,
    /// found at `location`, is to be resolved for the host.
    Standalone { python_major_minor_version: String, location: PythonDistributionLocation },
}

impl HostDistribution {
    /// An unresolved handle on the host distribution, where one other than
    /// the target's is needed.
    pub fn handle(&self, dest_dir: &str) -> (r: Option<PythonDistribution>)
        ensures
            *self is SameAsTarget ==> r is None,
            *self is Standalone ==> r is Some && ({
                let h = r->0;
                &&& h.wf()
                &&& h.flavor == DistributionFlavor::Standalone
                &&& h.source == self->location
                &&& h.dest_dir@ == dest_dir@
                &&& h.resolution is Unresolved
                &&& h.compiler is NotCreated
            }),
    {
        match self {
            HostDistribution::SameAsTarget => None,
            HostDistribution::Standalone { location, .. } => Some(
                PythonDistribution::from_location(
                    DistributionFlavor::Standalone,
                    location.duplicate(),
                    dest_dir,
                ),
            ),
        }
    }
}

/// A handle on one distribution, resolved at most once.
pub struct PythonDistribution {
    pub flavor: DistributionFlavor,
    pub source: PythonDistributionLocation,
    /// Directory the distribution is extracted into.
    pub dest_dir: String,
    pub resolution: Resolution,
    pub compiler: CompilerState,
}

impl PythonDistribution {
    /// A compiler exists only for a resolved distribution.
    pub open spec fn wf(&self) -> bool {
        !(self.compiler is NotCreated) ==> self.resolution is Resolved
    }

    /// Whether the handle is well formed.
    pub fn is_well_formed(&self) -> (r: bool)
        ensures
            r == self.wf(),
    {
        match (&self.compiler, &self.resolution) {
            (CompilerState::NotCreated, _) => true,
            (_, Resolution::Resolved(_)) => true,
            _ => false,
        }
    }

    /// An unresolved handle on the distribution at `location`.
    pub fn from_location(
        flavor: DistributionFlavor,
        location: PythonDistributionLocation,
        dest_dir: &str,
    ) -> (r: Self)
        ensures
            r.wf(),
            r.flavor == flavor,
            r.source == location,
            r.dest_dir@ == dest_dir@,
            r.resolution is Unresolved,
            r.compiler is NotCreated,
    {
        PythonDistribution {
            flavor,
            source: location,
            dest_dir: String::from_str(dest_dir),
            resolution: Resolution::Unresolved,
            compiler: CompilerState::NotCreated,
        }
    }

    /// A handle on a distribution given by its digest and either a local
    /// path or a URL. The only flavor accepted is `standalone`.
    pub fn from_args(
        sha256: &str,
        local_path: Option<String>,
        url: Option<String>,
        flavor: &str,
        dest_dir: &str,
    ) -> (r: Result<Self, DistributionError>)
        ensures
            local_path is Some && url is Some ==> r == Err::<Self, DistributionError>(
                DistributionError::BothLocations,
            ),
            local_path is None && url is None ==> r == Err::<Self, DistributionError>(
                DistributionError::NoLocation,
            ),
            (local_path is Some) != (url is Some) && flavor@ != "standalone"@ ==> r is Err
                && r->Err_0 is UnknownFlavor && r->Err_0->UnknownFlavor_0@ == flavor@,
            (local_path is Some) != (url is Some) && flavor@ == "standalone"@ ==> r is Ok && ({
                let d = r->Ok_0;
                &&& d.wf()
                &&& d.flavor == DistributionFlavor::Standalone
                &&& d.resolution is Unresolved
                &&& d.compiler is NotCreated
                &&& d.dest_dir@ == dest_dir@
                &&& match local_path {
                    Some(p) => d.source@ == LocationView::Local {
                        local_path: p@,
                        sha256: sha256@,
                    },
                    None => d.source@ == LocationView::Url { url: url->0@, sha256: sha256@ },
                }
            }),
    {
        let location = match (local_path, url) {
            (Some(_), Some(_)) => {
                return Err(DistributionError::BothLocations);
            },
            (None, None) => {
                return Err(DistributionError::NoLocation);
            },
            (Some(p), None) => PythonDistributionLocation::Local {
                local_path: p,
                sha256: String::from_str(sha256),
            },
            (None, Some(u)) => PythonDistributionLocation::Url {
                url: u,
                sha256: String::from_str(sha256),
            },
        };
        let f = String::from_str(flavor);
        if f != String::from_str("standalone") {
            return Err(DistributionError::UnknownFlavor(f));
        }
        Ok(PythonDistribution::from_location(DistributionFlavor::Standalone, location, dest_dir))
    }

    /// A handle on the registry's preferred distribution for the flavor
    /// named `flavor`, for `build_target` (else `default_target`), of
    /// `python_version` where one is given.
    pub fn default_python_distribution(
        registry: &DistributionRegistry,
        flavor: &str,
        build_target: Option<String>,
        default_target: &str,
        python_version: &Option<String>,
        dest_dir: &str,
    ) -> (r: Result<Self, DistributionError>)
        ensures
            flavor_named(flavor@) is None ==> r is Err && r->Err_0 is UnknownFlavor,
            flavor_named(flavor@) is Some ==> ({
                let fl = flavor_named(flavor@)->0;
                let target = match build_target {
                    Some(t) => t@,
                    None => default_target@,
                };
                let v = crate::config::opt_view(*python_version);
                &&& r is Err <==> forall|j: int|
                    0 <= j < registry.records@.len() ==> !record_matches(
                        #[trigger] registry.records@[j],
                        target,
                        fl,
                        v,
                    )
                &&& r is Err ==> r->Err_0 is NoDistribution
                &&& r is Ok ==> exists|i: int|
                    0 <= i < registry.records@.len() && record_matches(
                        registry.records@[i],
                        target,
                        fl,
                        v,
                    ) && (forall|j: int|
                        0 <= j < i ==> !record_matches(
                            #[trigger] registry.records@[j],
                            target,
                            fl,
                            v,
                        )) && r->Ok_0.source == registry.records@[i].location
                        && r->Ok_0.flavor == fl && r->Ok_0.resolution is Unresolved
                        && r->Ok_0.compiler is NotCreated && r->Ok_0.dest_dir@ == dest_dir@
            }),
    {
        let fl = DistributionFlavor::try_from_str(flavor)?;
        let target = match build_target {
            Some(t) => t,
            None => String::from_str(default_target),
        };
        match registry.find_distribution(target.as_str(), fl, python_version) {
            Some(i) => {
                let location = registry.records[i].location.duplicate();
                Ok(PythonDistribution::from_location(fl, location, dest_dir))
            },
            None => Err(DistributionError::NoDistribution),
        }
    }

    /// Whether the distribution still has to be fetched and extracted.
    pub fn needs_resolution(&self) -> (r: bool)
        ensures
            r == (self.resolution is Unresolved),
    {
        match self.resolution {
            Resolution::Unresolved => true,
            _ => false,
        }
    }

    /// Takes in the outcome of fetching and extracting the distribution.
    /// Only an unresolved handle changes: a resolved one stays as it is
    /// and a failed one stays failed.
    pub fn ensure_distribution_resolved(
        &mut self,
        outcome: Result<ResolvedDistribution, String>,
    ) -> (r: Result<(), DistributionError>)
        requires
            old(self).wf(),
        ensures
            final(self).wf(),
            final(self).resolution == resolve_step(old(self).resolution, outcome),
            final(self).compiler == old(self).compiler,
            final(self).flavor == old(self).flavor,
            final(self).source == old(self).source,
            final(self).dest_dir == old(self).dest_dir,
            r is Ok <==> final(self).resolution is Resolved,
            final(self).resolution is Failed ==> r == Err::<(), DistributionError>(
                DistributionError::Acquisition(final(self).resolution->Failed_0),
            ),
    {
        match &self.resolution {
            Resolution::Resolved(_) => {
                return Ok(());
            },
            Resolution::Failed(m) => {
                return Err(DistributionError::Acquisition(m.clone()));
            },
            Resolution::Unresolved => {},
        }
        match outcome {
            Ok(d) => {
                self.resolution = Resolution::Resolved(d);
                Ok(())
            },
            Err(m) => {
                let e = m.clone();
                self.resolution = Resolution::Failed(m);
                Err(DistributionError::Acquisition(e))
            },
        }
    }

    /// What has to happen next to compile bytecode with this distribution.
    pub fn compile_bytecode_step(&self) -> (r: CompileStep)
        ensures
            r == compile_step(self.resolution, self.compiler),
    {
        match &self.resolution {
            Resolution::Unresolved => CompileStep::ResolveDistribution,
            Resolution::Failed(m) => CompileStep::Fail(DistributionError::Acquisition(m.clone())),
            Resolution::Resolved(_) => match &self.compiler {
                CompilerState::NotCreated => CompileStep::CreateCompiler,
                CompilerState::Ready => CompileStep::Compile,
                CompilerState::Failed(m) => CompileStep::Fail(
                    DistributionError::Compilation(m.clone()),
                ),
            },
        }
    }

    /// Takes in the outcome of creating the bytecode compiler. Only a
    /// resolved handle without a compiler changes.
    pub fn record_bytecode_compiler(&mut self, outcome: Result<(), String>)
        requires
            old(self).wf(),
        ensures
            final(self).wf(),
            final(self).compiler == compiler_step(old(self).resolution, old(self).compiler, outcome),
            final(self).resolution == old(self).resolution,
            final(self).flavor == old(self).flavor,
            final(self).source == old(self).source,
            final(self).dest_dir == old(self).dest_dir,
    {
        let ready = match (&self.resolution, &self.compiler) {
            (Resolution::Resolved(_), CompilerState::NotCreated) => true,
            _ => false,
        };
        if ready {
            self.compiler = match outcome {
                Ok(_) => CompilerState::Ready,
                Err(m) => CompilerState::Failed(m),
            };
        }
    }

    /// The resolved distribution, if any.
    pub fn resolved(&self) -> (r: Option<&ResolvedDistribution>)
        ensures
            r is Some <==> self.resolution is Resolved,
            r is Some ==> *r->0 == self.resolution->Resolved_0,
    {
        match &self.resolution {
            Resolution::Resolved(d) => Some(d),
            _ => None,
        }
    }
}

pub open spec fn resource_views(s: Seq<PythonResource>) -> Seq<crate::resource::ResourceView> {
    s.map_values(|r: PythonResource| r@)
}

/// The resources of `s`, in order, leaving out those of test packages
/// unless `include_test`.
pub open spec fn without_tests(s: Seq<crate::resource::ResourceView>, include_test: bool) -> Seq<
    crate::resource::ResourceView,
>
    decreases s.len(),
{
    if s.len() == 0 {
        s
    } else {
        let rest = without_tests(s.drop_last(), include_test);
        if s.last().is_test && !include_test {
            rest
        } else {
            rest.push(s.last())
        }
    }
}

/// Copies of the resources of `v` that are not of test packages, unless
/// `include_test`.
fn copy_resources(v: &Vec<PythonResource>, include_test: bool) -> (r: Vec<PythonResource>)
    ensures
        resource_views(r@) == without_tests(resource_views(v@), include_test),
{
    let ghost s = resource_views(v@);
    let mut out: Vec<PythonResource> = Vec::new();
    let mut i: usize = 0;
    while i < v.len()
        invariant
            i <= v@.len(),
            s == resource_views(v@),
            resource_views(out@) == without_tests(s.subrange(0, i as int), include_test),
        decreases v@.len() - i,
    {
        proof {
            let next = s.subrange(0, i + 1);
            assert(next.drop_last() =~= s.subrange(0, i as int));
            assert(next.last() == v@[i as int]@);
        }
        let r = &v[i];
        if !r.is_test || include_test {
            let ghost before = out@;
            out.push(r.duplicate());
            assert(resource_views(out@) =~= resource_views(before).push(v@[i as int]@));
        }
        i = i + 1;
    }
    assert(s.subrange(0, v@.len() as int) =~= s);
    out
}

/// Whether `s` holds `x`.
pub open spec fn holds_string(s: Seq<String>, x: Seq<char>) -> bool {
    exists|i: int| 0 <= i < s.len() && (#[trigger] s[i])@ == x
}

/// Whether `c` is the default configuration for the target `target_triple`.
pub open spec fn is_default_config(c: EmbeddedPythonConfig, target_triple: Seq<char>) -> bool {
    &&& c.config.profile == PythonInterpreterProfile::Isolated
    &&& c.config.all_unset()
    &&& c.raw_allocator == (if target_triple == "x86_64-pc-windows-msvc"@ {
        MemoryAllocatorBackend::System
    } else {
        MemoryAllocatorBackend::Jemalloc
    })
    &&& c.oxidized_importer
    &&& !c.filesystem_importer
    &&& !c.argvb
    &&& !c.sys_frozen
    &&& !c.sys_meipass
    &&& c.terminfo_resolution == crate::interpreter::TerminfoResolution::Off
    &&& c.write_modules_directory_env is None
    &&& c.run_mode == crate::interpreter::PythonRunMode::Repl
}

impl ResolvedDistribution {
    /// The placement that this distribution's default policy gives: in
    /// memory, with the filesystem as fallback where extension modules
    /// cannot be loaded from memory but files can be installed.
    pub open spec fn default_fallback(&self) -> Option<ResourceLocation> {
        if self.capabilities.filesystem_resources
            && !self.capabilities.in_memory_extension_modules {
            Some(ResourceLocation::FilesystemRelative)
        } else {
            None
        }
    }

    /// The distribution's default packaging policy.
    pub fn create_packaging_policy(&self) -> (r: PythonPackagingPolicy)
        ensures
            r.is_new(ResourceLocation::InMemory, self.default_fallback()),
    {
        let fallback = if self.capabilities.filesystem_resources
            && !self.capabilities.in_memory_extension_modules {
            Some(ResourceLocation::FilesystemRelative)
        } else {
            None
        };
        PythonPackagingPolicy::new(ResourceLocation::InMemory, fallback)
    }

    /// The distribution's default interpreter configuration: the defaults,
    /// with the raw allocator that suits the target.
    pub fn create_python_interpreter_config(&self) -> (r: EmbeddedPythonConfig)
        ensures
            is_default_config(r, self.target_triple@),
    {
        let mut c = EmbeddedPythonConfig::default();
        c.raw_allocator = default_raw_allocator(self.target_triple.as_str());
        c
    }

    /// Which distribution provides the interpreter that runs on
    /// `host_triple`: this one where it is compatible with the host, else the
    /// registry's first standalone distribution for the host of this
    /// distribution's version. Fails where the registry has none.
    pub fn host_distribution(&self, host_triple: &str, registry: &DistributionRegistry) -> (r:
        Result<HostDistribution, DistributionError>)
        ensures
            host_distribution_is(*self, host_triple@, *registry, r),
    {
        let h = String::from_str(host_triple);
        let mut i: usize = 0;
        while i < self.compatible_host_triples.len()
            invariant
                i <= self.compatible_host_triples@.len(),
                h@ == host_triple@,
                forall|j: int|
                    0 <= j < i ==> (#[trigger] self.compatible_host_triples@[j])@ != host_triple@,
            decreases self.compatible_host_triples@.len() - i,
        {
            if self.compatible_host_triples[i] == h {
                return Ok(HostDistribution::SameAsTarget);
            }
            i = i + 1;
        }
        let version = Some(self.python_major_minor_version.clone());
        match registry.find_distribution(host_triple, DistributionFlavor::Standalone, &version) {
            Some(k) => Ok(
                HostDistribution::Standalone {
                    python_major_minor_version: self.python_major_minor_version.clone(),
                    location: registry.records[k].location.duplicate(),
                },
            ),
            None => Err(DistributionError::NoDistribution),
        }
    }
}

/// Whether `r` is the host distribution for `d` on `host`: the target
/// itself where it runs on the host; else the registry's first standalone
/// record for the host of the target's version; else `NoDistribution`.
pub open spec fn host_distribution_is(
    d: ResolvedDistribution,
    host: Seq<char>,
    registry: DistributionRegistry,
    r: Result<HostDistribution, DistributionError>,
) -> bool {
    let version = Some(d.python_major_minor_version@);
    if holds_string(d.compatible_host_triples@, host) {
        r == Ok::<HostDistribution, DistributionError>(HostDistribution::SameAsTarget)
    } else if forall|j: int|
        0 <= j < registry.records@.len() ==> !record_matches(
            #[trigger] registry.records@[j],
            host,
            DistributionFlavor::Standalone,
            version,
        ) {
        r == Err::<HostDistribution, DistributionError>(DistributionError::NoDistribution)
    } else {
        exists|k: int|
            0 <= k < registry.records@.len() && record_matches(
                registry.records@[k],
                host,
                DistributionFlavor::Standalone,
                version,
            ) && (forall|j: int|
                0 <= j < k ==> !record_matches(
                    #[trigger] registry.records@[j],
                    host,
                    DistributionFlavor::Standalone,
                    version,
                )) && r == Ok::<HostDistribution, DistributionError>(
                HostDistribution::Standalone {
                    python_major_minor_version: d.python_major_minor_version,
                    location: registry.records@[k].location,
                },
            )
    }
}

impl PythonDistribution {
    /// The default packaging policy of the resolved distribution.
    pub fn make_python_packaging_policy(&self) -> (r: Result<
        PythonPackagingPolicy,
        DistributionError,
    >)
        ensures
            !(self.resolution is Resolved) ==> r == Err::<PythonPackagingPolicy, DistributionError>(
                DistributionError::NotResolved,
            ),
            self.resolution is Resolved ==> r is Ok && r->Ok_0.is_new(
                ResourceLocation::InMemory,
                self.resolution->Resolved_0.default_fallback(),
            ),
    {
        match &self.resolution {
            Resolution::Resolved(d) => Ok(d.create_packaging_policy()),
            _ => Err(DistributionError::NotResolved),
        }
    }

    /// The default interpreter configuration of the resolved distribution.
    pub fn make_python_interpreter_config(&self) -> (r: Result<
        EmbeddedPythonConfig,
        DistributionError,
    >)
        ensures
            !(self.resolution is Resolved) ==> r == Err::<EmbeddedPythonConfig, DistributionError>(
                DistributionError::NotResolved,
            ),
            self.resolution is Resolved ==> r is Ok && is_default_config(
                r->Ok_0,
                self.resolution->Resolved_0.target_triple@,
            ),
    {
        match &self.resolution {
            Resolution::Resolved(d) => Ok(d.create_python_interpreter_config()),
            _ => Err(DistributionError::NotResolved),
        }
    }

    /// The source modules of the resolved distribution.
    pub fn source_modules(&self) -> (r: Result<Vec<PythonResource>, DistributionError>)
        ensures
            !(self.resolution is Resolved) ==> r is Err && r->Err_0 is NotResolved,
            self.resolution is Resolved ==> r is Ok && resource_views(r->Ok_0@)
                == without_tests(resource_views(self.resolution->Resolved_0.source_modules@), true),
    {
        match &self.resolution {
            Resolution::Resolved(d) => Ok(copy_resources(&d.source_modules, true)),
            _ => Err(DistributionError::NotResolved),
        }
    }

    /// The package resources of the resolved distribution, those of test
    /// packages only when `include_test`.
    pub fn package_resources(&self, include_test: bool) -> (r: Result<
        Vec<PythonResource>,
        DistributionError,
    >)
        ensures
            !(self.resolution is Resolved) ==> r is Err && r->Err_0 is NotResolved,
            self.resolution is Resolved ==> r is Ok && resource_views(r->Ok_0@) == without_tests(
                resource_views(self.resolution->Resolved_0.package_resources@),
                include_test,
            ),
    {
        match &self.resolution {
            Resolution::Resolved(d) => Ok(copy_resources(&d.package_resources, include_test)),
            _ => Err(DistributionError::NotResolved),
        }
    }

    /// The extension modules of the resolved distribution.
    pub fn extension_modules(&self) -> (r: Result<Vec<PythonResource>, DistributionError>)
        ensures
            !(self.resolution is Resolved) ==> r is Err && r->Err_0 is NotResolved,
            self.resolution is Resolved ==> r is Ok && resource_views(r->Ok_0@) == without_tests(
                resource_views(self.resolution->Resolved_0.extension_modules@),
                true,
            ),
    {
        match &self.resolution {
            Resolution::Resolved(d) => Ok(copy_resources(&d.extension_modules, true)),
            _ => Err(DistributionError::NotResolved),
        }
    }
}

/// Resolving is idempotent: once an attempt has resolved a handle, any
/// later attempt, whatever its outcome, leaves the handle holding the same
/// resolved distribution.
pub proof fn lemma_resolution_idempotent(
    r: Resolution,
    first: Result<ResolvedDistribution, String>,
    second: Result<ResolvedDistribution, String>,
)
    requires
        resolve_step(r, first) is Resolved,
    ensures
        resolve_step(resolve_step(r, first), second) == resolve_step(r, first),
{
}

/// The bytecode compiler is created at most once: on a well-formed handle,
/// once an attempt has created it, later attempts leave it in place and
/// compiling goes ahead.
pub proof fn lemma_compiler_created_once(
    r: Resolution,
    c: CompilerState,
    first: Result<(), String>,
    second: Result<(), String>,
)
    requires
        !(c is NotCreated) ==> r is Resolved,
        compiler_step(r, c, first) is Ready,
    ensures
        compiler_step(r, compiler_step(r, c, first), second) is Ready,
        compile_step(r, compiler_step(r, compiler_step(r, c, first), second))
            == CompileStep::Compile,
{
}

} // verus!
