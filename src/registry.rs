//! The registry of launchable versions: a launch target and a description
//! per version id, kept as two maps that share their keys.
use vstd::prelude::*;
use crate::names::NameMap;

verus! {

/// Where a launch goes when its version id is not registered.
pub open spec fn fallback_target() -> Seq<char> {
    "index.html"@
}

/// The description reported for a version id that has none.
pub open spec fn unknown_description() -> Seq<char> {
    "unknown version"@
}

/// The launch target of `id`, or the fallback target when `id` is unknown.
pub open spec fn resolve(targets: Map<Seq<char>, Seq<char>>, id: Seq<char>) -> Seq<char> {
    if targets.contains_key(id) {
        targets[id]
    } else {
        fallback_target()
    }
}

/// The description of `id`, or the "unknown version" sentinel.
pub open spec fn describe(infos: Map<Seq<char>, Seq<char>>, id: Seq<char>) -> Seq<char> {
    if infos.contains_key(id) {
        infos[id]
    } else {
        unknown_description()
    }
}

/// The mathematical content of a registry.
pub ghost struct RegistryView {
    pub targets: Map<Seq<char>, Seq<char>>,
    pub infos: Map<Seq<char>, Seq<char>>,
}

/// Version id -> launch target, and version id -> description.
pub struct VersionRegistry {
    targets: NameMap<String>,
    infos: NameMap<String>,
}

impl View for VersionRegistry {
    type V = RegistryView;

    closed spec fn view(&self) -> RegistryView {
        RegistryView {
            targets: self.targets@.map_values(|s: String| s@),
            infos: self.infos@.map_values(|s: String| s@),
        }
    }
}

impl VersionRegistry {
    pub closed spec fn wf(&self) -> bool {
        &&& self.targets.wf()
        &&& self.infos.wf()
        &&& self@.infos.dom().subset_of(self@.targets.dom())
    }

    /// A registry with no versions.
    pub fn new() -> (r: Self)
        ensures
            r.wf(),
            r@.targets == Map::<Seq<char>, Seq<char>>::empty(),
            r@.infos == Map::<Seq<char>, Seq<char>>::empty(),
    {
        let r = VersionRegistry { targets: NameMap::new(), infos: NameMap::new() };
        assert(r@.targets =~= Map::<Seq<char>, Seq<char>>::empty());
        assert(r@.infos =~= Map::<Seq<char>, Seq<char>>::empty());
        r
    }

    /// What [`VersionRegistry::with_defaults`] holds.
    pub open spec fn with_defaults_view() -> RegistryView {
        RegistryView {
            targets: map![
                "1.8"@ => "minecraft_1.8.html"@,
                "1.12"@ => "minecraft_1.12.html"@,
            ],
            infos: map![
                "1.8"@ => "Minecraft 1.8 engine (stub)"@,
                "1.12"@ => "Minecraft 1.12 engine (stub)"@,
            ],
        }
    }

    /// The registry that a launcher starts with: versions "1.8" and "1.12",
    /// each with its page and description.
    pub fn with_defaults() -> (r: Self)
        ensures
            r.wf(),
            r@ == Self::with_defaults_view(),
    {
        let mut r = VersionRegistry::new();
        r.add_version("1.8", "minecraft_1.8.html", Some("Minecraft 1.8 engine (stub)".to_owned()));
        r.add_version("1.12", "minecraft_1.12.html", Some("Minecraft 1.12 engine (stub)".to_owned()));
        assert(r@.targets =~= map!["1.8"@ => "minecraft_1.8.html"@, "1.12"@ => "minecraft_1.12.html"@]);
        assert(r@.infos =~= map!["1.8"@ => "Minecraft 1.8 engine (stub)"@, "1.12"@ => "Minecraft 1.12 engine (stub)"@]);
        r
    }

    /// Adds `version` with launch target `url`, replacing any earlier target.
    /// The description is replaced only when `info` is given. Always `true`.
    pub fn add_version(&mut self, version: &str, url: &str, info: Option<String>) -> (r: bool)
        requires
            old(self).wf(),
        ensures
            final(self).wf(),
            r,
            final(self)@.targets == old(self)@.targets.insert(version@, url@),
            final(self)@.infos == match info {
                Some(i) => old(self)@.infos.insert(version@, i@),
                None => old(self)@.infos,
            },
    {
        let ghost before = self@;
        self.targets.insert(version.to_owned(), url.to_owned());
        assert(self@.targets =~= before.targets.insert(version@, url@));
        match info {
            Some(i) => {
                let ghost iv = i@;
                self.infos.insert(version.to_owned(), i);
                assert(self@.infos =~= before.infos.insert(version@, iv));
            },
            None => {},
        }
        true
    }

    /// Forgets `version`, its target and its description. Returns whether it
    /// had a target.
    pub fn remove_version(&mut self, version: &str) -> (r: bool)
        requires
            old(self).wf(),
        ensures
            final(self).wf(),
            r == old(self)@.targets.contains_key(version@),
            final(self)@.targets == old(self)@.targets.remove(version@),
            final(self)@.infos == old(self)@.infos.remove(version@),
    {
        let ghost before = self@;
        let removed = self.targets.remove(version);
        self.infos.remove(version);
        assert(self@.targets =~= before.targets.remove(version@));
        assert(self@.infos =~= before.infos.remove(version@));
        removed
    }

    /// The description of `version`, or "unknown version".
    pub fn version_info(&self, version: &str) -> (r: String)
        requires
            self.wf(),
        ensures
            r@ == describe(self@.infos, version@),
    {
        match self.infos.get(version) {
            Some(i) => i.clone(),
            None => "unknown version".to_owned(),
        }
    }

    /// The launch target of `version`, or "index.html".
    pub fn get_launch_url(&self, version: &str) -> (r: String)
        requires
            self.wf(),
        ensures
            r@ == resolve(self@.targets, version@),
    {
        match self.targets.get(version) {
            Some(u) => u.clone(),
            None => "index.html".to_owned(),
        }
    }

    /// The registered version ids, each once, in no particular order.
    pub fn list_versions(&self) -> (r: Vec<String>)
        requires
            self.wf(),
        ensures
            r@.len() == self@.targets.dom().len(),
            forall|i: int, j: int| 0 <= i < j < r@.len() ==> r@[i]@ != r@[j]@,
            forall|k: Seq<char>|
                self@.targets.contains_key(k) <==> exists|i: int| 0 <= i < r@.len() && r@[i]@ == k,
    {
        let r = self.targets.names();
        assert(self@.targets.dom() =~= self.targets@.dom());
        r
    }
}

/// An id that the registry does not hold resolves to the fallback target
/// and is described as "unknown version".
pub proof fn lemma_unregistered_id(reg: &VersionRegistry, id: Seq<char>)
    requires
        reg.wf(),
        !reg@.targets.contains_key(id),
    ensures
        resolve(reg@.targets, id) == fallback_target(),
        describe(reg@.infos, id) == unknown_description(),
{
}

/// After a version is added, its id resolves to the target given; adding it
/// again with another target overwrites the first.
pub proof fn lemma_last_add_wins(reg: RegistryView, id: Seq<char>, first: Seq<char>, second: Seq<char>)
    ensures
        resolve(reg.targets.insert(id, first), id) == first,
        resolve(reg.targets.insert(id, first).insert(id, second), id) == second,
{
}

/// A removal reports `true` right after an add of the id, and `false` once
/// the id is gone, whether it was removed already or never added.
pub proof fn lemma_remove_once(reg: RegistryView, id: Seq<char>, target: Seq<char>)
    ensures
        reg.targets.insert(id, target).contains_key(id),
        !reg.targets.insert(id, target).remove(id).contains_key(id),
        !reg.targets.contains_key(id) ==> reg.targets.remove(id) == reg.targets,
{
    assert(!reg.targets.contains_key(id) ==> reg.targets.remove(id) =~= reg.targets);
}

} // verus!
