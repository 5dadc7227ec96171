//! An executable being assembled: its policy, its interpreter configuration
//! and the resources collected for it.

use vstd::prelude::*;
use crate::collection::{
    add_outcome, has_identity, CollectedView, CollectionError, CollectionErrorKind, PythonResourceCollection,
    TargetCapabilities,
};
use crate::config::{embedded_config_code, opt_view, run_options_conflict, ConfigError, EmbeddedPythonConfig};
use crate::distribution::{
    host_distribution_is, is_default_config, resource_views, DistributionError,
    DistributionRegistry, HostDistribution,
    PythonDistribution, Resolution,
};
use crate::resource::{
    policy_context, AddCollectionContext, DataLocation, DataView, PythonPackagingPolicy,
    PythonResource, ResourceKind, ResourceLocation, ResourceView,
};

verus! {

/// The collection after adding each of `rs` in order, each under the
/// policy's decision, stopping at the first refusal, and that refusal.
pub open spec fn add_all(
    s: Seq<CollectedView>,
    caps: TargetCapabilities,
    p: PythonPackagingPolicy,
    rs: Seq<ResourceView>,
) -> (Seq<CollectedView>, Option<CollectionErrorKind>)
    decreases rs.len(),
{
    if rs.len() == 0 {
        (s, None)
    } else {
        let before = add_all(s, caps, p, rs.drop_last());
        if before.1 is Some {
            before
        } else {
            add_outcome(before.0, caps, rs.last(), policy_context(p, rs.last()), p.allow_override)
        }
    }
}

/// The collection after adding, from an empty one, the resources of `a`,
/// then of `b`, then of `c`, stopping at the first refusal.
pub open spec fn add_lists(
    caps: TargetCapabilities,
    p: PythonPackagingPolicy,
    a: Seq<ResourceView>,
    b: Seq<ResourceView>,
    c: Seq<ResourceView>,
) -> (Seq<CollectedView>, Option<CollectionErrorKind>) {
    let first = add_all(Seq::empty(), caps, p, a);
    if first.1 is Some {
        first
    } else {
        let second = add_all(first.0, caps, p, b);
        if second.1 is Some {
            second
        } else {
            add_all(second.0, caps, p, c)
        }
    }
}

/// A Python executable being assembled.
pub struct PythonExecutable {
    pub name: String,
    /// Tag of the bytecode ABI of the target distribution.
    pub cache_tag: String,
    pub policy: PythonPackagingPolicy,
    pub config: EmbeddedPythonConfig,
    /// The distribution whose interpreter runs on the build host.
    pub host_distribution: HostDistribution,
    pub resources: PythonResourceCollection,
}

/// The collection after adding each resource in order under the decision
/// beside it, stopping at the first refusal, and that refusal.
pub open spec fn add_each(
    s: Seq<CollectedView>,
    caps: TargetCapabilities,
    allow_override: bool,
    rs: Seq<(ResourceView, AddCollectionContext)>,
) -> (Seq<CollectedView>, Option<CollectionErrorKind>)
    decreases rs.len(),
{
    if rs.len() == 0 {
        (s, None)
    } else {
        let before = add_each(s, caps, allow_override, rs.drop_last());
        if before.1 is Some {
            before
        } else {
            add_outcome(before.0, caps, rs.last().0, rs.last().1, allow_override)
        }
    }
}

pub open spec fn decided_views(rs: Seq<(PythonResource, AddCollectionContext)>) -> Seq<
    (ResourceView, AddCollectionContext),
> {
    rs.map_values(|p: (PythonResource, AddCollectionContext)| (p.0@, p.1))
}

impl PythonExecutable {
    pub open spec fn wf(&self) -> bool {
        self.resources.wf()
    }

    /// An executable with no resource yet, for a target of the given
    /// capabilities.
    pub fn new(
        name: String,
        cache_tag: String,
        policy: PythonPackagingPolicy,
        config: EmbeddedPythonConfig,
        host_distribution: HostDistribution,
        capabilities: TargetCapabilities,
    ) -> (r: Self)
        ensures
            r.wf(),
            r.name == name,
            r.cache_tag == cache_tag,
            r.policy == policy,
            r.config == config,
            r.host_distribution == host_distribution,
            r.resources@.len() == 0,
            r.resources.spec_capabilities() == capabilities,
    {
        PythonExecutable {
            name,
            cache_tag,
            policy,
            config,
            host_distribution,
            resources: PythonResourceCollection::new(capabilities),
        }
    }

    /// The executable's packaging policy.
    pub fn python_packaging_policy(&self) -> (r: &PythonPackagingPolicy)
        ensures
            *r == self.policy,
    {
        &self.policy
    }

    /// Each of `discovered`, in order, with the decision the policy takes on
    /// it: the resources that an installer or a scan of a directory found.
    pub fn apply_policy_to_resources(&self, discovered: &Vec<PythonResource>) -> (r: Vec<
        (PythonResource, AddCollectionContext),
    >)
        ensures
            r@.len() == discovered@.len(),
            forall|i: int|
                0 <= i < r@.len() ==> (#[trigger] r@[i]).0@ == discovered@[i]@ && r@[i].1
                    == policy_context(self.policy, discovered@[i]@),
    {
        let mut out: Vec<(PythonResource, AddCollectionContext)> = Vec::new();
        let mut i: usize = 0;
        while i < discovered.len()
            invariant
                i <= discovered@.len(),
                out@.len() == i,
                forall|j: int|
                    0 <= j < i ==> (#[trigger] out@[j]).0@ == discovered@[j]@ && out@[j].1
                        == policy_context(self.policy, discovered@[j]@),
            decreases discovered@.len() - i,
        {
            let resource = discovered[i].duplicate();
            let context = self.policy.apply_to_resource(&resource);
            out.push((resource, context));
            i = i + 1;
        }
        out
    }

    /// Adds each resource in order under the decision beside it, stopping
    /// at the first that is refused.
    pub fn add_python_resources(
        &mut self,
        resources: &Vec<(PythonResource, AddCollectionContext)>,
    ) -> (r: Result<(), CollectionError>)
        requires
            old(self).wf(),
        ensures
            final(self).wf(),
            final(self).policy == old(self).policy,
            final(self).name == old(self).name,
            final(self).cache_tag == old(self).cache_tag,
            final(self).config == old(self).config,
            final(self).host_distribution == old(self).host_distribution,
            final(self).resources.spec_capabilities() == old(self).resources.spec_capabilities(),
            final(self).resources@ == add_each(
                old(self).resources@,
                old(self).resources.spec_capabilities(),
                old(self).policy.allow_override,
                decided_views(resources@),
            ).0,
            r is Ok <==> add_each(
                old(self).resources@,
                old(self).resources.spec_capabilities(),
                old(self).policy.allow_override,
                decided_views(resources@),
            ).1 is None,
            r is Err ==> Some(r->Err_0.kind) == add_each(
                old(self).resources@,
                old(self).resources.spec_capabilities(),
                old(self).policy.allow_override,
                decided_views(resources@),
            ).1,
    {
        let ghost rs = decided_views(resources@);
        let ghost s0 = self.resources@;
        let ghost caps = self.resources.spec_capabilities();
        let allow = self.policy.allow_override;
        let mut i: usize = 0;
        while i < resources.len()
            invariant
                i <= resources@.len(),
                rs == decided_views(resources@),
                self.wf(),
                self.policy == old(self).policy,
                self.name == old(self).name,
                self.cache_tag == old(self).cache_tag,
                self.config == old(self).config,
                self.host_distribution == old(self).host_distribution,
                allow == self.policy.allow_override,
                self.resources.spec_capabilities() == caps,
                caps == old(self).resources.spec_capabilities(),
                s0 == old(self).resources@,
                add_each(s0, caps, allow, rs.subrange(0, i as int)).1 is None,
                self.resources@ == add_each(s0, caps, allow, rs.subrange(0, i as int)).0,
            decreases resources@.len() - i,
        {
            proof {
                let next = rs.subrange(0, i + 1);
                assert(next.drop_last() =~= rs.subrange(0, i as int));
                assert(next.last() == (resources@[i as int].0@, resources@[i as int].1));
            }
            let resource = resources[i].0.duplicate();
            let context = resources[i].1;
            let ghost before = self.resources@;
            let added = self.resources.add(resource, context, allow);
            assert(add_each(s0, caps, allow, rs.subrange(0, i + 1)) == add_outcome(
                before,
                caps,
                rs[i as int].0,
                context,
                allow,
            ));
            if added.is_err() {
                proof {
                    lemma_add_each_stops(s0, caps, allow, rs, i as int + 1);
                }
                return added;
            }
            i = i + 1;
        }
        assert(rs.subrange(0, i as int) =~= rs);
        Ok(())
    }

    /// A module of the given source, held in memory, with the decision the
    /// executable's policy takes on it.
    pub fn make_python_module_source(&self, name: String, source: String, is_package: bool) -> (r: (
        PythonResource,
        AddCollectionContext,
    ))
        ensures
            r.0@ == (ResourceView {
                kind: ResourceKind::ModuleSource,
                name: name@,
                is_package,
                is_stdlib: false,
                is_test: false,
                cache_tag: self.cache_tag@,
                data: DataView::Memory(vstd::utf8::encode_utf8(source@)),
            }),
            r.1 == policy_context(self.policy, r.0@),
    {
        let bytes = source.as_str().as_bytes_vec();
        let module = PythonResource {
            kind: ResourceKind::ModuleSource,
            name,
            is_package,
            is_stdlib: false,
            is_test: false,
            cache_tag: self.cache_tag.clone(),
            data: DataLocation::Memory(bytes),
        };
        let context = self.policy.apply_to_resource(&module);
        (module, context)
    }

    /// Adds `resource` under `context`, replacing a resource of the same
    /// kind and name only where the policy allows overrides.
    pub fn add_python_resource(&mut self, resource: PythonResource, context: AddCollectionContext) -> (r:
        Result<(), CollectionError>)
        requires
            old(self).wf(),
        ensures
            final(self).wf(),
            final(self).policy == old(self).policy,
            final(self).name == old(self).name,
            final(self).cache_tag == old(self).cache_tag,
            final(self).config == old(self).config,
            final(self).host_distribution == old(self).host_distribution,
            final(self).resources.spec_capabilities() == old(self).resources.spec_capabilities(),
            final(self).resources@ == add_outcome(
                old(self).resources@,
                old(self).resources.spec_capabilities(),
                resource@,
                context,
                old(self).policy.allow_override,
            ).0,
            r is Ok <==> add_outcome(
                old(self).resources@,
                old(self).resources.spec_capabilities(),
                resource@,
                context,
                old(self).policy.allow_override,
            ).1 is None,
            r is Err ==> Some(r->Err_0.kind) == add_outcome(
                old(self).resources@,
                old(self).resources.spec_capabilities(),
                resource@,
                context,
                old(self).policy.allow_override,
            ).1,
            r is Err ==> r->Err_0.resource_kind == resource.kind && r->Err_0.name@ == resource.name@,
    {
        let allow = self.policy.allow_override;
        self.resources.add(resource, context, allow)
    }

    /// Adds each of `resources` in order under the policy's decision on it,
    /// stopping at the first that is refused.
    pub fn add_resources_with_policy(&mut self, resources: &Vec<PythonResource>) -> (r: Result<
        (),
        CollectionError,
    >)
        requires
            old(self).wf(),
        ensures
            final(self).wf(),
            final(self).policy == old(self).policy,
            final(self).name == old(self).name,
            final(self).cache_tag == old(self).cache_tag,
            final(self).config == old(self).config,
            final(self).host_distribution == old(self).host_distribution,
            final(self).resources.spec_capabilities() == old(self).resources.spec_capabilities(),
            final(self).resources@ == add_all(
                old(self).resources@,
                old(self).resources.spec_capabilities(),
                old(self).policy,
                crate::distribution::resource_views(resources@),
            ).0,
            r is Ok <==> add_all(
                old(self).resources@,
                old(self).resources.spec_capabilities(),
                old(self).policy,
                crate::distribution::resource_views(resources@),
            ).1 is None,
            r is Err ==> Some(r->Err_0.kind) == add_all(
                old(self).resources@,
                old(self).resources.spec_capabilities(),
                old(self).policy,
                crate::distribution::resource_views(resources@),
            ).1,
    {
        let ghost rs = crate::distribution::resource_views(resources@);
        let ghost s0 = self.resources@;
        let ghost caps = self.resources.spec_capabilities();
        let mut i: usize = 0;
        while i < resources.len()
            invariant
                i <= resources@.len(),
                rs == crate::distribution::resource_views(resources@),
                self.wf(),
                self.policy == old(self).policy,
                self.name == old(self).name,
                self.cache_tag == old(self).cache_tag,
                self.config == old(self).config,
                self.host_distribution == old(self).host_distribution,
                self.resources.spec_capabilities() == caps,
                caps == old(self).resources.spec_capabilities(),
                s0 == old(self).resources@,
                add_all(s0, caps, self.policy, rs.subrange(0, i as int)).1 is None,
                self.resources@ == add_all(s0, caps, self.policy, rs.subrange(0, i as int)).0,
            decreases resources@.len() - i,
        {
            proof {
                let next = rs.subrange(0, i + 1);
                assert(next.drop_last() =~= rs.subrange(0, i as int));
                assert(next.last() == resources@[i as int]@);
            }
            let resource = resources[i].duplicate();
            let context = self.policy.apply_to_resource(&resource);
            let allow = self.policy.allow_override;
            let ghost before = self.resources@;
            assert(resource@ == rs[i as int]);
            let added = self.resources.add(resource, context, allow);
            assert(add_all(s0, caps, self.policy, rs.subrange(0, i + 1)) == add_outcome(
                before,
                caps,
                rs[i as int],
                context,
                allow,
            ));
            if added.is_err() {
                proof {
                    lemma_add_all_stops(s0, caps, self.policy, rs, i as int + 1);
                }
                return added;
            }
            i = i + 1;
        }
        assert(rs.subrange(0, i as int) =~= rs);
        Ok(())
    }

    /// Removes the resources whose data was read from one of `files` or from
    /// a path matching one of `glob_files`.
    pub fn filter_resources_from_files(&mut self, files: &Vec<String>, glob_files: &Vec<String>)
        requires
            old(self).wf(),
        ensures
            final(self).wf(),
            final(self).policy == old(self).policy,
            final(self).name == old(self).name,
            final(self).cache_tag == old(self).cache_tag,
            final(self).config == old(self).config,
            final(self).host_distribution == old(self).host_distribution,
            final(self).resources@ == crate::collection::without_files(
                old(self).resources@,
                crate::collection::file_views(files@),
                crate::collection::file_views(glob_files@),
            ),
    {
        self.resources.filter_resources_from_files(files, glob_files);
    }

    /// Rust source for the executable's interpreter configuration, with the
    /// packed resources read from `packed_resources_path` where one is given.
    pub fn finalize(&self, packed_resources_path: Option<String>) -> (r: Result<
        String,
        ConfigError,
    >)
        ensures
            r is Err <==> run_options_conflict(self.config),
            r is Ok ==> r->Ok_0@ == embedded_config_code(self.config, opt_view(packed_resources_path)),
    {
        self.config.to_oxidized_python_interpreter_config_rs(packed_resources_path)
    }
}

impl PythonDistribution {
    /// An executable named `name` for the resolved distribution, with the
    /// given packaging policy and configuration or else the distribution's
    /// defaults, the host distribution that `host_triple` needs (looked up
    /// in `registry` for a cross build, failing where there is none), and
    /// every resource of the distribution offered to the policy: its source
    /// modules, then its package resources, then its extension modules.
    pub fn to_python_executable(
        &self,
        registry: &DistributionRegistry,
        name: &str,
        packaging_policy: Option<PythonPackagingPolicy>,
        config: Option<EmbeddedPythonConfig>,
        host_triple: &str,
    ) -> (r: Result<PythonExecutable, DistributionError>)
        ensures
            !(self.resolution is Resolved) ==> r == Err::<PythonExecutable, DistributionError>(
                DistributionError::NotResolved,
            ),
            self.resolution is Resolved ==> ({
                let d = self.resolution->Resolved_0;
                let lists = |p: PythonPackagingPolicy|
                    add_lists(
                        d.capabilities,
                        p,
                        resource_views(d.source_modules@),
                        resource_views(d.package_resources@),
                        resource_views(d.extension_modules@),
                    );
                let no_host = host_distribution_is(
                    d,
                    host_triple@,
                    *registry,
                    Err::<HostDistribution, DistributionError>(DistributionError::NoDistribution),
                );
                &&& no_host ==> r == Err::<PythonExecutable, DistributionError>(
                    DistributionError::NoDistribution,
                )
                &&& r is Err ==> (r->Err_0 is Collection || (r->Err_0 is NoDistribution && no_host))
                &&& r is Ok ==> {
                    let e = r->Ok_0;
                    &&& e.wf()
                    &&& e.name@ == name@
                    &&& e.cache_tag == d.cache_tag
                    &&& match packaging_policy {
                        Some(p) => e.policy == p,
                        None => e.policy.is_new(ResourceLocation::InMemory, d.default_fallback()),
                    }
                    &&& match config {
                        Some(c) => e.config == c,
                        None => is_default_config(e.config, d.target_triple@),
                    }
                    &&& host_distribution_is(
                        d,
                        host_triple@,
                        *registry,
                        Ok::<HostDistribution, DistributionError>(e.host_distribution),
                    )
                    &&& e.resources.spec_capabilities() == d.capabilities
                    &&& e.resources@ == lists(e.policy).0
                    &&& lists(e.policy).1 is None
                }
                &&& (r is Err && r->Err_0 is Collection && packaging_policy is Some ==> lists(
                    packaging_policy->0,
                ).1 is Some)
                &&& (r is Err && r->Err_0 is Collection && packaging_policy is None ==> exists|p: PythonPackagingPolicy|
                    p.is_new(ResourceLocation::InMemory, d.default_fallback()) && (#[trigger] add_lists(
                        d.capabilities,
                        p,
                        resource_views(d.source_modules@),
                        resource_views(d.package_resources@),
                        resource_views(d.extension_modules@),
                    )).1 is Some)
            }),
    {
        let d = match &self.resolution {
            Resolution::Resolved(d) => d,
            _ => {
                return Err(DistributionError::NotResolved);
            },
        };
        let policy = match packaging_policy {
            Some(p) => p,
            None => d.create_packaging_policy(),
        };
        let config = match config {
            Some(c) => c,
            None => d.create_python_interpreter_config(),
        };
        let host = d.host_distribution(host_triple, registry);
        let host = match host {
            Ok(h) => h,
            Err(e) => {
                return Err(e);
            },
        };
        let ghost chosen = policy;
        let mut exe = PythonExecutable::new(
            String::from_str(name),
            d.cache_tag.clone(),
            policy,
            config,
            host,
            d.capabilities,
        );
        assert(exe.resources@ =~= Seq::<CollectedView>::empty());
        let ghost a = resource_views(d.source_modules@);
        let ghost b = resource_views(d.package_resources@);
        let ghost c = resource_views(d.extension_modules@);
        match exe.add_resources_with_policy(&d.source_modules) {
            Ok(()) => {},
            Err(e) => {
                assert(add_lists(d.capabilities, chosen, a, b, c).1 is Some);
                return Err(DistributionError::Collection(e));
            },
        }
        match exe.add_resources_with_policy(&d.package_resources) {
            Ok(()) => {},
            Err(e) => {
                assert(add_lists(d.capabilities, chosen, a, b, c).1 is Some);
                return Err(DistributionError::Collection(e));
            },
        }
        match exe.add_resources_with_policy(&d.extension_modules) {
            Ok(()) => {},
            Err(e) => {
                assert(add_lists(d.capabilities, chosen, a, b, c).1 is Some);
                return Err(DistributionError::Collection(e));
            },
        }
        Ok(exe)
    }
}

/// Adding stops at the first refusal: once one of the first `n` resources
/// is refused, the outcome over all of them is the same.
proof fn lemma_add_each_stops(
    s: Seq<CollectedView>,
    caps: TargetCapabilities,
    allow_override: bool,
    rs: Seq<(ResourceView, AddCollectionContext)>,
    n: int,
)
    requires
        0 <= n <= rs.len(),
    ensures
        add_each(s, caps, allow_override, rs.subrange(0, n)).1 is Some ==> add_each(
            s,
            caps,
            allow_override,
            rs,
        ) == add_each(s, caps, allow_override, rs.subrange(0, n)),
    decreases rs.len() - n,
{
    if n < rs.len() {
        lemma_add_each_stops(s, caps, allow_override, rs, n + 1);
        assert(rs.subrange(0, n + 1).drop_last() =~= rs.subrange(0, n));
    } else {
        assert(rs.subrange(0, n) =~= rs);
    }
}

/// Adding stops at the first refusal: once the first `n` resources are
/// refused, the outcome over all of them is that refusal.
proof fn lemma_add_all_stops(
    s: Seq<CollectedView>,
    caps: TargetCapabilities,
    p: PythonPackagingPolicy,
    rs: Seq<ResourceView>,
    n: int,
)
    requires
        0 <= n <= rs.len(),
    ensures
        add_all(s, caps, p, rs.subrange(0, n)).1 is Some ==> add_all(s, caps, p, rs) == add_all(
            s,
            caps,
            p,
            rs.subrange(0, n),
        ),
    decreases rs.len() - n,
{
    if n < rs.len() {
        lemma_add_all_stops(s, caps, p, rs, n + 1);
        assert(rs.subrange(0, n + 1).drop_last() =~= rs.subrange(0, n));
    } else {
        assert(rs.subrange(0, n) =~= rs);
    }
}

/// The policy's decision depends on the resource alone: once a resource
/// has been added under the decision the policy takes on it, applying the
/// policy again to the resource as it stands in the collection gives the
/// decision recorded beside it.
pub proof fn lemma_policy_decision_deterministic(
    s: Seq<CollectedView>,
    caps: TargetCapabilities,
    p: PythonPackagingPolicy,
    r: ResourceView,
)
    requires
        policy_context(p, r).included,
        add_outcome(s, caps, r, policy_context(p, r), p.allow_override).1 is None,
    ensures
        ({
            let after = add_outcome(s, caps, r, policy_context(p, r), p.allow_override).0;
            exists|i: int|
                0 <= i < after.len() && after[i].resource == r && #[trigger] after[i].context
                    == policy_context(p, r) && policy_context(p, after[i].resource)
                    == after[i].context
        }),
{
    let after = add_outcome(s, caps, r, policy_context(p, r), p.allow_override).0;
    if has_identity(s, r) {
        let i = choose|i: int| 0 <= i < s.len() && crate::collection::same_identity(s[i].resource, r);
        assert(after[i].context == policy_context(p, r));
    } else {
        assert(after[s.len() as int].context == policy_context(p, r));
    }
}

} // verus!
