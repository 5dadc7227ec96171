//! The conflict-checked set of resources that an executable build collects.

use vstd::prelude::*;
use crate::glob::{glob_match, glob_matches};
use crate::resource::{
    AddCollectionContext, DataView, PythonResource, ResourceKind, ResourceLocation, ResourceView,
};

verus! {

/// What the target can load, and from where.
#[derive(Clone, Copy, Debug, PartialEq, Eq, Structural)]
pub struct TargetCapabilities {
    /// Whether extension modules can be loaded from memory.
    pub in_memory_extension_modules: bool,
    /// Whether resources can be installed next to the executable.
    pub filesystem_resources: bool,
}

pub open spec fn location_supported(
    kind: ResourceKind,
    l: ResourceLocation,
    caps: TargetCapabilities,
) -> bool {
    match l {
        ResourceLocation::InMemory => !(kind is ExtensionModule) || caps.in_memory_extension_modules,
        ResourceLocation::FilesystemRelative => caps.filesystem_resources,
    }
}

/// Where a resource goes: the context's location where the target supports
/// it, else its fallback where the target supports that.
pub open spec fn placement(
    kind: ResourceKind,
    c: AddCollectionContext,
    caps: TargetCapabilities,
) -> Option<ResourceLocation> {
    if location_supported(kind, c.location, caps) {
        Some(c.location)
    } else {
        match c.location_fallback {
            Some(f) => if location_supported(kind, f, caps) {
                Some(f)
            } else {
                None
            },
            None => None,
        }
    }
}

fn location_supported_exec(
    kind: ResourceKind,
    l: ResourceLocation,
    caps: TargetCapabilities,
) -> (r: bool)
    ensures
        r == location_supported(kind, l, caps),
{
    match l {
        ResourceLocation::InMemory => !kind.is_extension_module()
            || caps.in_memory_extension_modules,
        ResourceLocation::FilesystemRelative => caps.filesystem_resources,
    }
}

fn placement_exec(
    kind: ResourceKind,
    c: AddCollectionContext,
    caps: TargetCapabilities,
) -> (r: Option<ResourceLocation>)
    ensures
        r == placement(kind, c, caps),
{
    if location_supported_exec(kind, c.location, caps) {
        Some(c.location)
    } else {
        match c.location_fallback {
            Some(f) => if location_supported_exec(kind, f, caps) {
                Some(f)
            } else {
                None
            },
            None => None,
        }
    }
}

impl ResourceKind {
    fn is_extension_module(&self) -> (r: bool)
        ensures
            r == (*self is ExtensionModule),
    {
        match self {
            ResourceKind::ExtensionModule => true,
            _ => false,
        }
    }
}

/// A resource in a collection, with the decision it was added under and the
/// location it was given.
#[derive(Clone, Debug, PartialEq, Eq)]
pub struct CollectedResource {
    pub resource: PythonResource,
    pub context: AddCollectionContext,
    pub location: ResourceLocation,
}

pub struct CollectedView {
    pub resource: ResourceView,
    pub context: AddCollectionContext,
    pub location: ResourceLocation,
}

impl View for CollectedResource {
    type V = CollectedView;

    open spec fn view(&self) -> CollectedView {
        CollectedView { resource: self.resource@, context: self.context, location: self.location }
    }
}

/// Why a resource was not added.
#[derive(Clone, Copy, Debug, PartialEq, Eq, Structural)]
pub enum CollectionErrorKind {
    /// A resource of the same kind and name is collected and the policy does
    /// not allow replacing it.
    Conflict,
    /// The target supports neither the location nor the fallback location.
    Unsupported,
}

/// A refused addition, naming the resource.
#[derive(Clone, Debug, PartialEq, Eq)]
pub struct CollectionError {
    pub kind: CollectionErrorKind,
    pub resource_kind: ResourceKind,
    pub name: String,
}

pub open spec fn same_identity(a: ResourceView, b: ResourceView) -> bool {
    a.kind == b.kind && a.name == b.name
}

pub open spec fn has_identity(s: Seq<CollectedView>, r: ResourceView) -> bool {
    exists|i: int| 0 <= i < s.len() && same_identity(#[trigger] s[i].resource, r)
}

pub open spec fn identities_unique(s: Seq<CollectedView>) -> bool {
    forall|i: int, j: int|
        0 <= i < s.len() && 0 <= j < s.len() && i != j ==> !same_identity(
            #[trigger] s[i].resource,
            #[trigger] s[j].resource,
        )
}

/// The entries after an attempt to add `r` under `c`, and the kind of error
/// where the attempt is refused. A resource that is not to be included is
/// left out without error.
pub open spec fn add_outcome(
    s: Seq<CollectedView>,
    caps: TargetCapabilities,
    r: ResourceView,
    c: AddCollectionContext,
    allow_override: bool,
) -> (Seq<CollectedView>, Option<CollectionErrorKind>) {
    if !c.included {
        (s, None)
    } else {
        match placement(r.kind, c, caps) {
            None => (s, Some(CollectionErrorKind::Unsupported)),
            Some(l) => {
                let entry = CollectedView { resource: r, context: c, location: l };
                if has_identity(s, r) {
                    if allow_override {
                        let i = choose|i: int| 0 <= i < s.len() && same_identity(s[i].resource, r);
                        (s.update(i, entry), None)
                    } else {
                        (s, Some(CollectionErrorKind::Conflict))
                    }
                } else {
                    (s.push(entry), None)
                }
            },
        }
    }
}

pub open spec fn file_views(files: Seq<String>) -> Seq<Seq<char>> {
    files.map_values(|f: String| f@)
}

/// Whether `d` is read from a file among `files`, or from a file whose path
/// matches one of `globs`.
pub open spec fn from_listed_file(d: DataView, files: Seq<Seq<char>>, globs: Seq<Seq<char>>) -> bool {
    match d {
        DataView::Path(p) => files.contains(p) || exists|g: int|
            0 <= g < globs.len() && glob_match(#[trigger] globs[g], p),
        DataView::Memory(_) => false,
    }
}

/// The entries, in order, whose data does not come from one of `files` nor
/// from a path matching one of `globs`.
pub open spec fn without_files(
    s: Seq<CollectedView>,
    files: Seq<Seq<char>>,
    globs: Seq<Seq<char>>,
) -> Seq<CollectedView>
    decreases s.len(),
{
    if s.len() == 0 {
        s
    } else {
        let rest = without_files(s.drop_last(), files, globs);
        if from_listed_file(s.last().resource.data, files, globs) {
            rest
        } else {
            rest.push(s.last())
        }
    }
}

/// Every element of `without_files(s, files, globs)` is an element of `s`.
proof fn lemma_without_files_subset(s: Seq<CollectedView>, files: Seq<Seq<char>>, globs: Seq<Seq<char>>)
    ensures
        forall|k: int|
            0 <= k < without_files(s, files, globs).len() ==> exists|i: int|
                0 <= i < s.len() && s[i] == #[trigger] without_files(s, files, globs)[k],
    decreases s.len(),
{
    if s.len() > 0 {
        lemma_without_files_subset(s.drop_last(), files, globs);
        let rest = without_files(s.drop_last(), files, globs);
        assert forall|k: int| 0 <= k < without_files(s, files, globs).len() implies exists|i: int|
            0 <= i < s.len() && s[i] == #[trigger] without_files(s, files, globs)[k] by {
            if k < rest.len() {
                let i = choose|i: int| 0 <= i < s.drop_last().len() && s.drop_last()[i] == rest[k];
                assert(s[i] == without_files(s, files, globs)[k]);
            } else {
                assert(s[s.len() - 1] == without_files(s, files, globs)[k]);
            }
        }
    }
}

/// Leaving out entries keeps identities unique.
proof fn lemma_without_files_unique(s: Seq<CollectedView>, files: Seq<Seq<char>>, globs: Seq<Seq<char>>)
    requires
        identities_unique(s),
    ensures
        identities_unique(without_files(s, files, globs)),
    decreases s.len(),
{
    if s.len() > 0 {
        let p = s.drop_last();
        assert(identities_unique(p));
        lemma_without_files_unique(p, files, globs);
        lemma_without_files_subset(p, files, globs);
        let rest = without_files(p, files, globs);
        if !from_listed_file(s.last().resource.data, files, globs) {
            let t = rest.push(s.last());
            assert forall|i: int, j: int|
                0 <= i < t.len() && 0 <= j < t.len() && i != j implies !same_identity(
                #[trigger] t[i].resource,
                #[trigger] t[j].resource,
            ) by {
                if i == rest.len() as int {
                    let a = choose|a: int| 0 <= a < p.len() && p[a] == rest[j];
                    assert(s[a] == t[j]);
                    assert(s[s.len() - 1] == t[i]);
                } else if j == rest.len() as int {
                    let a = choose|a: int| 0 <= a < p.len() && p[a] == rest[i];
                    assert(s[a] == t[i]);
                    assert(s[s.len() - 1] == t[j]);
                } else {
                    assert(t[i] == rest[i] && t[j] == rest[j]);
                }
            }
        }
    }
}

/// Resources collected for an executable, at most one per kind and name, in
/// the order in which they were first added.
pub struct PythonResourceCollection {
    capabilities: TargetCapabilities,
    entries: Vec<CollectedResource>,
}

impl View for PythonResourceCollection {
    type V = Seq<CollectedView>;

    closed spec fn view(&self) -> Seq<CollectedView> {
        self.entries@.map_values(|e: CollectedResource| e@)
    }
}

impl PythonResourceCollection {
    pub closed spec fn spec_capabilities(&self) -> TargetCapabilities {
        self.capabilities
    }

    /// No two entries share a kind and a name.
    pub open spec fn wf(&self) -> bool {
        identities_unique(self@)
    }

    /// An empty collection for a target with the given capabilities.
    pub fn new(capabilities: TargetCapabilities) -> (r: Self)
        ensures
            r.wf(),
            r@.len() == 0,
            r.spec_capabilities() == capabilities,
    {
        let r = PythonResourceCollection { capabilities, entries: Vec::new() };
        assert(r@ =~= Seq::<CollectedView>::empty());
        r
    }

    /// The capabilities of the target.
    pub fn capabilities(&self) -> (r: TargetCapabilities)
        ensures
            r == self.spec_capabilities(),
    {
        self.capabilities
    }

    /// The number of collected resources.
    pub fn len(&self) -> (r: usize)
        ensures
            r == self@.len(),
    {
        self.entries.len()
    }

    /// The collected resources, in order.
    pub fn entries(&self) -> (r: &Vec<CollectedResource>)
        ensures
            r@.map_values(|e: CollectedResource| e@) == self@,
    {
        &self.entries
    }

    /// The position of the resource of `r`'s kind and name, if collected.
    pub fn position(&self, r: &PythonResource) -> (p: Option<usize>)
        requires
            self.wf(),
        ensures
            p is None <==> !has_identity(self@, r@),
            p is Some ==> p->0 < self@.len() && same_identity(self@[p->0 as int].resource, r@),
    {
        let mut i: usize = 0;
        while i < self.entries.len()
            invariant
                i <= self.entries@.len(),
                forall|k: int| 0 <= k < i ==> !same_identity(#[trigger] self@[k].resource, r@),
            decreases self.entries@.len() - i,
        {
            let e = &self.entries[i];
            assert(self@[i as int] == e@);
            if e.resource.kind == r.kind && e.resource.name == r.name {
                return Some(i);
            }
            i = i + 1;
        }
        None
    }

    /// Adds `resource` under the decision `context`. A resource that is not
    /// to be included is left out. Fails, leaving the collection as it was,
    /// where the target supports neither placement, or where a resource of
    /// the same kind and name is collected and `allow_override` is false;
    /// with `allow_override` that resource is replaced in place.
    pub fn add(
        &mut self,
        resource: PythonResource,
        context: AddCollectionContext,
        allow_override: bool,
    ) -> (r: Result<(), CollectionError>)
        requires
            old(self).wf(),
        ensures
            final(self).wf(),
            final(self).spec_capabilities() == old(self).spec_capabilities(),
            final(self)@ == add_outcome(
                old(self)@,
                old(self).spec_capabilities(),
                resource@,
                context,
                allow_override,
            ).0,
            r is Ok <==> add_outcome(
                old(self)@,
                old(self).spec_capabilities(),
                resource@,
                context,
                allow_override,
            ).1 is None,
            r is Err ==> Some(r->Err_0.kind) == add_outcome(
                old(self)@,
                old(self).spec_capabilities(),
                resource@,
                context,
                allow_override,
            ).1,
            r is Err ==> r->Err_0.resource_kind == resource.kind && r->Err_0.name@ == resource.name@,
    {
        if !context.included {
            return Ok(());
        }
        let location = match placement_exec(resource.kind, context, self.capabilities) {
            Some(l) => l,
            None => {
                return Err(
                    CollectionError {
                        kind: CollectionErrorKind::Unsupported,
                        resource_kind: resource.kind,
                        name: resource.name,
                    },
                );
            },
        };
        match self.position(&resource) {
            Some(i) => {
                if !allow_override {
                    return Err(
                        CollectionError {
                            kind: CollectionErrorKind::Conflict,
                            resource_kind: resource.kind,
                            name: resource.name,
                        },
                    );
                }
                let ghost s = self@;
                let ghost chosen = choose|k: int|
                    0 <= k < s.len() && same_identity(s[k].resource, resource@);
                assert(chosen == i as int) by {
                    if chosen != i as int {
                        assert(!same_identity(s[chosen].resource, s[i as int].resource));
                    }
                }
                let entry = CollectedResource { resource, context, location };
                self.entries.set(i, entry);
                assert(self@ =~= s.update(i as int, entry@));
                assert(identities_unique(self@)) by {
                    assert forall|a: int, b: int|
                        0 <= a < self@.len() && 0 <= b < self@.len() && a != b implies !same_identity(
                        #[trigger] self@[a].resource,
                        #[trigger] self@[b].resource,
                    ) by {
                        if a != i as int && b != i as int {
                            assert(self@[a] == s[a] && self@[b] == s[b]);
                        } else if a == i as int {
                            assert(self@[b] == s[b]);
                        } else {
                            assert(self@[a] == s[a]);
                        }
                    }
                }
                Ok(())
            },
            None => {
                let ghost s = self@;
                let entry = CollectedResource { resource, context, location };
                self.entries.push(entry);
                assert(self@ =~= s.push(entry@));
                assert(identities_unique(self@)) by {
                    assert forall|a: int, b: int|
                        0 <= a < self@.len() && 0 <= b < self@.len() && a != b implies !same_identity(
                        #[trigger] self@[a].resource,
                        #[trigger] self@[b].resource,
                    ) by {
                        if a < s.len() && b < s.len() {
                            assert(self@[a] == s[a] && self@[b] == s[b]);
                        } else if a < s.len() {
                            assert(self@[a] == s[a]);
                        } else {
                            assert(self@[b] == s[b]);
                        }
                    }
                }
                Ok(())
            },
        }
    }

    /// Removes the resources whose data was read from one of `files` or from
    /// a path matching one of `glob_files`; resources held in memory and all
    /// others stay, in order.
    pub fn filter_resources_from_files(&mut self, files: &Vec<String>, glob_files: &Vec<String>)
        requires
            old(self).wf(),
        ensures
            final(self).wf(),
            final(self).spec_capabilities() == old(self).spec_capabilities(),
            final(self)@ == without_files(old(self)@, file_views(files@), file_views(glob_files@)),
    {
        let ghost fv = file_views(files@);
        let ghost gv = file_views(glob_files@);
        let ghost s = self@;
        let mut i: usize = 0;
        let mut j: usize = 0;
        let n = self.entries.len();
        while j < n
            invariant
                fv == file_views(files@),
                gv == file_views(glob_files@),
                n == s.len(),
                j <= s.len(),
                i <= j,
                self.capabilities == old(self).capabilities,
                without_files(s.subrange(0, j as int), fv, gv).len() == i,
                self.entries@.len() == i + (n - j),
                self@ == without_files(s.subrange(0, j as int), fv, gv) + s.subrange(j as int, s.len() as int),
            decreases s.len() - j,
        {
            proof {
                let next = s.subrange(0, j + 1);
                assert(next.drop_last() =~= s.subrange(0, j as int));
                assert(next.last() == s[j as int]);
                assert(self@[i as int] == s[j as int]);
            }
            let listed = from_files(&self.entries[i].resource, files, glob_files);
            assert(self.entries@[i as int]@ == self@[i as int]);
            assert(listed == from_listed_file(s[j as int].resource.data, fv, gv));
            if listed {
                let ghost before = self@;
                self.entries.remove(i);
                assert(self@ =~= before.remove(i as int));
                assert(self@ =~= without_files(s.subrange(0, j + 1), fv, gv) + s.subrange(j + 1, s.len() as int));
            } else {
                assert(self@ =~= without_files(s.subrange(0, j + 1), fv, gv) + s.subrange(j + 1, s.len() as int));
                i = i + 1;
            }
            j = j + 1;
        }
        assert(s.subrange(0, s.len() as int) =~= s);
        assert(self@ =~= without_files(s, fv, gv));
        proof {
            lemma_without_files_unique(s, fv, gv);
        }
    }
}

fn from_files(r: &PythonResource, files: &Vec<String>, glob_files: &Vec<String>) -> (b: bool)
    ensures
        b == from_listed_file(r@.data, file_views(files@), file_views(glob_files@)),
{
    match &r.data {
        crate::resource::DataLocation::Memory(_) => false,
        crate::resource::DataLocation::Path(p) => {
            assert(r@.data == DataView::Path(p@));
            let ghost fv = file_views(files@);
            let ghost gv = file_views(glob_files@);
            let mut k: usize = 0;
            while k < files.len()
                invariant
                    k <= files@.len(),
                    fv == file_views(files@),
                    forall|m: int| 0 <= m < k ==> fv[m] != p@,
                    r@.data == DataView::Path(p@),
                decreases files@.len() - k,
            {
                if files[k] == *p {
                    assert(fv[k as int] == p@);
                    assert(fv.contains(p@));
                    return true;
                }
                k = k + 1;
            }
            assert(!fv.contains(p@));
            let mut g: usize = 0;
            while g < glob_files.len()
                invariant
                    g <= glob_files@.len(),
                    gv == file_views(glob_files@),
                    !fv.contains(p@),
                    r@.data == DataView::Path(p@),
                    forall|m: int| 0 <= m < g ==> !glob_match(#[trigger] gv[m], p@),
                decreases glob_files@.len() - g,
            {
                if glob_matches(glob_files[g].as_str(), p.as_str()) {
                    assert(glob_match(gv[g as int], p@));
                    return true;
                }
                g = g + 1;
            }
            false
        },
    }
}

/// Adding a second resource of the same kind and name, without permission
/// to override, fails with a conflict and leaves the collection, the first
/// resource included, as it was after the first was added.
pub proof fn lemma_duplicate_add_conflicts(
    s: Seq<CollectedView>,
    caps: TargetCapabilities,
    first: ResourceView,
    first_context: AddCollectionContext,
    second: ResourceView,
    second_context: AddCollectionContext,
)
    requires
        same_identity(first, second),
        add_outcome(s, caps, first, first_context, false).1 is None,
        first_context.included,
        second_context.included,
        placement(second.kind, second_context, caps) is Some,
    ensures
        ({
            let after = add_outcome(s, caps, first, first_context, false).0;
            &&& add_outcome(after, caps, second, second_context, false) == (
                after,
                Some(CollectionErrorKind::Conflict),
            )
            &&& after.len() > 0
            &&& after.last() == (CollectedView {
                resource: first,
                context: first_context,
                location: placement(first.kind, first_context, caps)->0,
            })
        }),
{
    let after = add_outcome(s, caps, first, first_context, false).0;
    assert(after.last().resource == first);
    assert(same_identity(after[after.len() - 1].resource, second));
}

/// Filtering by files leaves every resource without file provenance: each
/// resource held in memory is still there afterwards.
pub proof fn lemma_filter_keeps_memory_resources(
    s: Seq<CollectedView>,
    files: Seq<Seq<char>>,
    globs: Seq<Seq<char>>,
    i: int,
)
    requires
        0 <= i < s.len(),
        s[i].resource.data is Memory,
    ensures
        exists|k: int|
            0 <= k < without_files(s, files, globs).len() && #[trigger] without_files(
                s,
                files,
                globs,
            )[k] == s[i],
    decreases s.len(),
{
    let rest = without_files(s.drop_last(), files, globs);
    if i == s.len() - 1 {
        assert(without_files(s, files, globs) == rest.push(s.last()));
        assert(without_files(s, files, globs)[rest.len() as int] == s[i]);
    } else {
        lemma_filter_keeps_memory_resources(s.drop_last(), files, globs, i);
        let k = choose|k: int| 0 <= k < rest.len() && rest[k] == s.drop_last()[i];
        assert(without_files(s, files, globs)[k] == s[i]);
    }
}

} // verus!
