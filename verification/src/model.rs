//! The values that a configuration names: package names, version
//! requirements, registry packages and dependencies.

use vstd::prelude::*;
use vstd::string::*;
use crate::names::{
    package_name_accepted, package_name_valid, version_req_accepted, version_req_valid,
};
use crate::paths::{is_absolute, join_path, joined_path, joining_again_changes_nothing};
use crate::text::{distinct_texts, keys_of, opt_text, same_text};

verus! {

/// A namespaced package name, such as `wasi:http`.
#[derive(Debug)]
pub struct PackageName {
    text: String,
}

impl View for PackageName {
    type V = Seq<char>;

    closed spec fn view(&self) -> Seq<char> {
        self.text@
    }
}

impl Clone for PackageName {
    fn clone(&self) -> (r: Self)
        ensures
            r@ == self@,
    {
        proof {
            use_type_invariant(self);
        }
        PackageName { text: self.text.clone() }
    }
}

impl PackageName {
    #[verifier::type_invariant]
    spec fn well_formed(self) -> bool {
        package_name_valid(self.text@)
    }

    /// Takes a text as a package name, if it is one.
    pub fn new(s: &str) -> (r: Option<PackageName>)
        ensures
            r.is_some() == package_name_valid(s@),
            r.is_some() ==> r.unwrap()@ == s@,
    {
        if package_name_accepted(s) {
            Some(PackageName { text: String::from_str(s) })
        } else {
            None
        }
    }

    /// The name as text, which is one that counts as a package name.
    pub fn as_str(&self) -> (r: &str)
        ensures
            r@ == self@,
            package_name_valid(self@),
    {
        proof {
            use_type_invariant(self);
        }
        self.text.as_str()
    }


}

/// A version requirement, such as `^1.2` or `>=0.3, <0.5`, held as the text it
/// was written as.
#[derive(Debug)]
pub struct VersionRequirement {
    text: String,
}

impl View for VersionRequirement {
    type V = Seq<char>;

    closed spec fn view(&self) -> Seq<char> {
        self.text@
    }
}

impl Clone for VersionRequirement {
    fn clone(&self) -> (r: Self)
        ensures
            r@ == self@,
    {
        proof {
            use_type_invariant(self);
        }
        VersionRequirement { text: self.text.clone() }
    }
}

impl VersionRequirement {
    #[verifier::type_invariant]
    spec fn well_formed(self) -> bool {
        version_req_valid(self.text@)
    }

    /// Takes a text as a version requirement, if it is one.
    pub fn parse(s: &str) -> (r: Option<VersionRequirement>)
        ensures
            r.is_some() == version_req_valid(s@),
            r.is_some() ==> r.unwrap()@ == s@,
    {
        if version_req_accepted(s) {
            Some(VersionRequirement { text: String::from_str(s) })
        } else {
            None
        }
    }

    /// The requirement as text, which is one that counts as a version requirement.
    pub fn as_str(&self) -> (r: &str)
        ensures
            r@ == self@,
            version_req_valid(self@),
    {
        proof {
            use_type_invariant(self);
        }
        self.text.as_str()
    }


}

/// A copy of an optional string.
pub fn duplicate_text(o: &Option<String>) -> (r: Option<String>)
    ensures
        opt_text(r) == opt_text(*o),
{
    match o {
        Some(s) => Some(s.clone()),
        None => None,
    }
}

/// The view of an optional package name.
pub open spec fn opt_name(o: Option<PackageName>) -> Option<Seq<char>> {
    match o {
        Some(n) => Some(n@),
        None => None,
    }
}

/// A package of a registry: a name where it differs from the key it stands
/// under, the versions asked for, and the registry's alias where it is not the
/// default registry.
#[derive(Debug)]
pub struct RegistryPackage {
    /// The name of the package, where it is given.
    pub name: Option<PackageName>,
    /// The versions of the package that are asked for.
    pub version: VersionRequirement,
    /// The alias of the registry that holds the package.
    pub registry: Option<String>,
}

/// What a registry package holds, as text.
pub struct RegistryPackageView {
    pub name: Option<Seq<char>>,
    pub version: Seq<char>,
    pub registry: Option<Seq<char>>,
}

impl View for RegistryPackage {
    type V = RegistryPackageView;

    open spec fn view(&self) -> RegistryPackageView {
        RegistryPackageView {
            name: opt_name(self.name),
            version: self.version@,
            registry: opt_text(self.registry),
        }
    }
}

impl Clone for RegistryPackage {
    fn clone(&self) -> (r: Self)
        ensures
            r@ == self@,
    {
        let name = match &self.name {
            Some(n) => Some(n.clone()),
            None => None,
        };
        RegistryPackage {
            name,
            version: self.version.clone(),
            registry: duplicate_text(&self.registry),
        }
    }
}

/// A dependency: a package of a registry, or a path on disk.
#[derive(Debug)]
pub enum Dependency {
    /// The dependency is a package of a registry.
    Package(RegistryPackage),
    /// The dependency is a file or directory at a path.
    Local(String),
}

/// What a dependency holds, as text.
pub enum DependencyView {
    Package(RegistryPackageView),
    Local(Seq<char>),
}

impl View for Dependency {
    type V = DependencyView;

    open spec fn view(&self) -> DependencyView {
        match self {
            Dependency::Package(p) => DependencyView::Package(p@),
            Dependency::Local(p) => DependencyView::Local(p@),
        }
    }
}

impl Clone for Dependency {
    fn clone(&self) -> (r: Self)
        ensures
            r@ == self@,
    {
        match self {
            Dependency::Package(p) => Dependency::Package(p.clone()),
            Dependency::Local(p) => Dependency::Local(p.clone()),
        }
    }
}

/// A list of dependencies by package name, as text.
pub type DependenciesView = Seq<(Seq<char>, DependencyView)>;

/// The view of a list of dependencies by package name.
pub open spec fn dependencies_view(v: Seq<(PackageName, Dependency)>) -> DependenciesView {
    Seq::new(v.len(), |i: int| (v[i].0@, v[i].1@))
}

/// A path as it stands once it is anchored at a directory.
pub open spec fn anchored_path(dir: Seq<char>, path: Option<Seq<char>>) -> Option<Seq<char>> {
    match path {
        Some(p) => Some(joined_path(dir, p)),
        None => None,
    }
}

/// A dependency as it stands once it is anchored at a directory: a path is
/// joined to the directory, a registry package is left as it is.
pub open spec fn anchored_dependency(dir: Seq<char>, d: DependencyView) -> DependencyView {
    match d {
        DependencyView::Local(p) => DependencyView::Local(joined_path(dir, p)),
        DependencyView::Package(_) => d,
    }
}

/// A list of dependencies with each one anchored at a directory, under the
/// same names and in the same order.
pub open spec fn anchored_dependencies(dir: Seq<char>, ds: DependenciesView) -> DependenciesView {
    Seq::new(ds.len(), |i: int| (ds[i].0, anchored_dependency(dir, ds[i].1)))
}

/// No name stands twice in a list of dependencies: the list stands for a
/// mapping from names to dependencies.
pub open spec fn distinct_names(ds: DependenciesView) -> bool {
    distinct_texts(keys_of(ds))
}

/// Anchoring a list of dependencies keeps its length, its names and their
/// order, so a list in which no name stands twice stays one.
pub proof fn anchoring_keeps_names(dir: Seq<char>, ds: DependenciesView)
    ensures
        anchored_dependencies(dir, ds).len() == ds.len(),
        keys_of(anchored_dependencies(dir, ds)) == keys_of(ds),
        distinct_names(ds) == distinct_names(anchored_dependencies(dir, ds)),
{
    assert(keys_of(anchored_dependencies(dir, ds)) =~= keys_of(ds));
}

/// Anchoring a list of dependencies a second time at a directory that starts
/// at the root changes nothing.
pub proof fn anchoring_dependencies_again(dir: Seq<char>, ds: DependenciesView)
    requires
        is_absolute(dir),
    ensures
        anchored_dependencies(dir, anchored_dependencies(dir, ds)) == anchored_dependencies(
            dir,
            ds,
        ),
{
    let once = anchored_dependencies(dir, ds);
    let twice = anchored_dependencies(dir, once);
    assert forall|i: int| 0 <= i < once.len() implies twice[i] == once[i] by {
        match ds[i].1 {
            DependencyView::Local(p) => {
                joining_again_changes_nothing(dir, p);
            },
            DependencyView::Package(_) => {},
        }
    }
    assert(twice =~= once);
}

/// Tells whether no name stands twice in a list of dependencies.
pub fn names_are_distinct(v: &Vec<(PackageName, Dependency)>) -> (r: bool)
    ensures
        r == distinct_names(dependencies_view(v@)),
{
    let ghost ks = keys_of(dependencies_view(v@));
    let mut j: usize = 0;
    while j < v.len()
        invariant
            j <= v.len(),
            ks == keys_of(dependencies_view(v@)),
            forall|a: int, b: int| 0 <= a < b < j ==> ks[a] != ks[b],
        decreases v.len() - j,
    {
        let mut i: usize = 0;
        while i < j
            invariant
                i <= j < v.len(),
                ks == keys_of(dependencies_view(v@)),
                forall|a: int| 0 <= a < i ==> ks[a] != ks[j as int],
            decreases j - i,
        {
            if same_text(v[i].0.as_str(), v[j].0.as_str()) {
                assert(ks[i as int] == ks[j as int]);
                return false;
            }
            i += 1;
        }
        j += 1;
    }
    true
}

/// Anchors an optional path at a directory.
pub fn anchor_path(dir: &str, path: Option<String>) -> (r: Option<String>)
    ensures
        opt_text(r) == anchored_path(dir@, opt_text(path)),
{
    match path {
        Some(p) => Some(join_path(dir, p.as_str())),
        None => None,
    }
}

impl Dependency {
    /// Anchors the dependency at a directory.
    pub fn anchor(self, dir: &str) -> (r: Dependency)
        ensures
            r@ == anchored_dependency(dir@, self@),
    {
        match self {
            Dependency::Local(p) => Dependency::Local(join_path(dir, p.as_str())),
            Dependency::Package(p) => Dependency::Package(p),
        }
    }
}

/// Anchors each dependency of a list at a directory.
pub fn anchor_dependencies(dir: &str, v: Vec<(PackageName, Dependency)>) -> (r: Vec<
    (PackageName, Dependency),
>)
    ensures
        dependencies_view(r@) == anchored_dependencies(dir@, dependencies_view(v@)),
        distinct_names(dependencies_view(r@)) == distinct_names(dependencies_view(v@)),
{
    proof {
        anchoring_keeps_names(dir@, dependencies_view(v@));
    }
    let mut out: Vec<(PackageName, Dependency)> = Vec::new();
    let mut i: usize = 0;
    while i < v.len()
        invariant
            i <= v.len(),
            out@.len() == i,
            forall|j: int|
                0 <= j < i ==> out@[j].0@ == v@[j].0@ && out@[j].1@ == anchored_dependency(
                    dir@,
                    v@[j].1@,
                ),
        decreases v.len() - i,
    {
        let e = &v[i];
        out.push((e.0.clone(), e.1.clone().anchor(dir)));
        i += 1;
    }
    assert(dependencies_view(out@) =~= anchored_dependencies(dir@, dependencies_view(v@)));
    out
}

/// A copy of a list of dependencies by package name.
pub fn duplicate_dependencies(v: &Vec<(PackageName, Dependency)>) -> (r: Vec<
    (PackageName, Dependency),
>)
    ensures
        dependencies_view(r@) == dependencies_view(v@),
{
    let mut out: Vec<(PackageName, Dependency)> = Vec::new();
    let mut i: usize = 0;
    while i < v.len()
        invariant
            i <= v.len(),
            out@.len() == i,
            forall|j: int| 0 <= j < i ==> out@[j].0@ == v@[j].0@ && out@[j].1@ == v@[j].1@,
        decreases v.len() - i,
    {
        let e = &v[i];
        out.push((e.0.clone(), e.1.clone()));
        i += 1;
    }
    assert(dependencies_view(out@) =~= dependencies_view(v@));
    out
}

} // verus!
