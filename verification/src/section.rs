//! The component section of a manifest: what a package says of the component
//! it builds.

use vstd::prelude::*;
use vstd::string::*;
use url::Url;
use crate::bindings::{bindings_of_entry, Bindings, BindingsEntry, BindingsEntryView, BindingsView};
use crate::error::ErrorKind;
use crate::model::{
    anchor_dependencies, anchor_path, anchored_dependencies, anchored_path,
    anchoring_dependencies_again, dependencies_view, distinct_names, names_are_distinct,
    opt_name, DependenciesView, Dependency, PackageName,
};
use crate::paths::{is_absolute, joining_again_changes_nothing};
use crate::names::package_name_valid;
use crate::target::{
    anchored_target, target_of_source, Target, TargetError, TargetSource, TargetSourceView,
    TargetView,
};
use crate::text::{
    all_known, distinct_texts, first_texts, first_unknown, first_unknown_is, is_first_unknown,
    keys_are_distinct, keys_of, opt_text, same_text, texts,
};

verus! {

/// Why a component section was refused.
#[derive(Debug, Clone, Copy, PartialEq, Eq, Structural)]
pub enum SectionError {
    /// The key at this place in the section is none that a section has.
    UnknownField(usize),
    /// The package name of the component is not a namespaced name.
    InvalidPackageName,
    /// The target was refused.
    Target(TargetError),
}

impl SectionError {
    /// The kind of the error.
    pub open spec fn kind_of(self) -> ErrorKind {
        match self {
            SectionError::UnknownField(_) => ErrorKind::MalformedDocument,
            SectionError::InvalidPackageName => ErrorKind::InvalidIdentifier,
            SectionError::Target(e) => e.kind_of(),
        }
    }

    /// The kind of the error.
    pub fn kind(&self) -> (r: ErrorKind)
        ensures
            r == self.kind_of(),
    {
        match self {
            SectionError::UnknownField(_) => ErrorKind::MalformedDocument,
            SectionError::InvalidPackageName => ErrorKind::InvalidIdentifier,
            SectionError::Target(e) => e.kind(),
        }
    }
}

/// The component section of a manifest.
#[derive(Debug, Clone)]
pub struct ComponentSection {
    /// The package name of the component, for publishing.
    pub package: Option<PackageName>,
    /// The world that the component targets.
    pub target: Target,
    /// The path of the adapter to use.
    pub adapter: Option<String>,
    /// The dependencies of the component.
    pub dependencies: Vec<(PackageName, Dependency)>,
    /// The registries of the component, by alias.
    pub registries: Vec<(String, Url)>,
    /// The settings of bindings generation.
    pub bindings: Bindings,
    /// Whether the built-in proxy adapter is used; meant to be set only where
    /// no adapter is given.
    pub proxy: bool,
}

/// A list of registries by alias, the aliases as text.
pub type RegistriesView = Seq<(Seq<char>, Url)>;

/// The view of a list of registries by alias.
pub open spec fn registries_view(v: Seq<(String, Url)>) -> RegistriesView {
    Seq::new(v.len(), |i: int| (v[i].0@, v[i].1))
}

/// What a component section holds, as text.
pub struct SectionView {
    pub package: Option<Seq<char>>,
    pub target: TargetView,
    pub adapter: Option<Seq<char>>,
    pub dependencies: DependenciesView,
    pub registries: RegistriesView,
    pub bindings: BindingsView,
    pub proxy: bool,
}

impl View for ComponentSection {
    type V = SectionView;

    open spec fn view(&self) -> SectionView {
        SectionView {
            package: opt_name(self.package),
            target: self.target@,
            adapter: opt_text(self.adapter),
            dependencies: dependencies_view(self.dependencies@),
            registries: registries_view(self.registries@),
            bindings: self.bindings@,
            proxy: self.proxy,
        }
    }
}

impl SectionView {
    /// Each list of the section stands for a mapping: no name stands twice
    /// among the dependencies of the section or of its target, no alias among
    /// the registries, no interface name among the module names.
    pub open spec fn well_formed(self) -> bool {
        &&& self.target.well_formed()
        &&& distinct_names(self.dependencies)
        &&& distinct_texts(keys_of(self.registries))
        &&& self.bindings.well_formed()
    }

    /// The section of a manifest that has none: no package name, no target
    /// set, no adapter, no dependencies, no registries, default bindings
    /// settings, no proxy.
    pub open spec fn unset() -> SectionView {
        SectionView {
            package: None,
            target: TargetView::unset(),
            adapter: None,
            dependencies: Seq::empty(),
            registries: Seq::empty(),
            bindings: BindingsView::defaults(),
            proxy: false,
        }
    }
}

/// A component section as a document gives it.
#[derive(Debug)]
pub struct SectionEntry {
    /// The package name of the component.
    pub package: Option<String>,
    /// The target, as a text or a table.
    pub target: Option<TargetSource>,
    /// The path of the adapter.
    pub adapter: Option<String>,
    /// The dependencies of the component.
    pub dependencies: Vec<(PackageName, Dependency)>,
    /// The registries of the component, by alias.
    pub registries: Vec<(String, Url)>,
    /// The settings of bindings generation.
    pub bindings: Option<BindingsEntry>,
    /// Whether the built-in proxy adapter is used.
    pub proxy: Option<bool>,
}

/// What a component section of a document holds, as text.
pub struct SectionEntryView {
    pub package: Option<Seq<char>>,
    pub target: Option<TargetSourceView>,
    pub adapter: Option<Seq<char>>,
    pub dependencies: DependenciesView,
    pub registries: RegistriesView,
    pub bindings: Option<BindingsEntryView>,
    pub proxy: Option<bool>,
}

impl View for SectionEntry {
    type V = SectionEntryView;

    open spec fn view(&self) -> SectionEntryView {
        SectionEntryView {
            package: opt_text(self.package),
            target: match self.target {
                Some(t) => Some(t@),
                None => None,
            },
            adapter: opt_text(self.adapter),
            dependencies: dependencies_view(self.dependencies@),
            registries: registries_view(self.registries@),
            bindings: match self.bindings {
                Some(b) => Some(b@),
                None => None,
            },
            proxy: self.proxy,
        }
    }
}

impl SectionEntryView {
    /// Each list of the document stands for a mapping: no key stands twice
    /// in it.
    pub open spec fn well_formed(self) -> bool {
        &&& self.target matches Some(t) ==> t.well_formed()
        &&& distinct_names(self.dependencies)
        &&& distinct_texts(keys_of(self.registries))
        &&& self.bindings matches Some(b) ==> b.well_formed()
    }

    /// The section that sets nothing.
    pub open spec fn empty() -> SectionEntryView {
        SectionEntryView {
            package: None,
            target: None,
            adapter: None,
            dependencies: Seq::empty(),
            registries: Seq::empty(),
            bindings: None,
            proxy: None,
        }
    }
}

/// Whether a key is one that a component section has.
pub open spec fn is_section_key(key: Seq<char>) -> bool {
    ||| key == "package"@
    ||| key == "target"@
    ||| key == "adapter"@
    ||| key == "dependencies"@
    ||| key == "registries"@
    ||| key == "bindings"@
    ||| key == "proxy"@
}

/// The section that a document's fields stand for. The package name is
/// looked at first, then the target; what the document leaves out is at its
/// default.
pub open spec fn section_of_entry(e: SectionEntryView) -> Result<SectionView, SectionError> {
    let target = match e.target {
        Some(s) => target_of_source(s),
        None => Ok(TargetView::unset()),
    };
    if e.package.is_some() && !package_name_valid(e.package.unwrap()) {
        Err(SectionError::InvalidPackageName)
    } else if target is Err {
        Err(SectionError::Target(target->Err_0))
    } else {
        Ok(
            SectionView {
                package: e.package,
                target: target->Ok_0,
                adapter: e.adapter,
                dependencies: e.dependencies,
                registries: e.registries,
                bindings: match e.bindings {
                    Some(b) => bindings_of_entry(b),
                    None => BindingsView::defaults(),
                },
                proxy: match e.proxy {
                    Some(p) => p,
                    None => false,
                },
            },
        )
    }
}

/// The section that a document with these keys and fields stands for: the
/// first key that a section does not have is refused, whatever the fields
/// hold.
pub open spec fn section_of_table(keys: Seq<Seq<char>>, e: SectionEntryView) -> Result<
    SectionView,
    SectionError,
> {
    if all_known(keys, |k: Seq<char>| is_section_key(k)) {
        section_of_entry(e)
    } else {
        Err(SectionError::UnknownField(first_unknown(keys, |k: Seq<char>| is_section_key(k))))
    }
}

/// The result that a function on a section owes: the section or the error
/// that the rules give, the section taken by its view.
pub open spec fn section_result_is(
    r: Result<ComponentSection, SectionError>,
    expected: Result<SectionView, SectionError>,
) -> bool {
    match r {
        Ok(s) => expected == Ok::<SectionView, SectionError>(s@),
        Err(e) => expected == Err::<SectionView, SectionError>(e),
    }
}

/// A section that was built names nothing twice, where what it was built from
/// names nothing twice.
pub open spec fn section_keeps_form(
    well_formed: bool,
    r: Result<ComponentSection, SectionError>,
) -> bool {
    well_formed ==> (r matches Ok(s) ==> s@.well_formed())
}

/// A section as it stands once it is anchored at a directory: the target, the
/// paths among the dependencies and the adapter's path are joined to the
/// directory; nothing else changes.
pub open spec fn anchored_section(dir: Seq<char>, s: SectionView) -> SectionView {
    SectionView {
        target: anchored_target(dir, s.target),
        adapter: anchored_path(dir, s.adapter),
        dependencies: anchored_dependencies(dir, s.dependencies),
        ..s
    }
}

/// Anchoring a section a second time at a directory that starts at the root
/// changes nothing: every path is rewritten once and stays as it is.
pub proof fn anchoring_twice_is_anchoring_once(dir: Seq<char>, s: SectionView)
    requires
        is_absolute(dir),
    ensures
        anchored_section(dir, anchored_section(dir, s)) == anchored_section(dir, s),
{
    anchoring_dependencies_again(dir, s.dependencies);
    match s.adapter {
        Some(p) => {
            joining_again_changes_nothing(dir, p);
        },
        None => {},
    }
    match s.target {
        TargetView::Local { path, world, dependencies } => {
            anchoring_dependencies_again(dir, dependencies);
            match path {
                Some(p) => {
                    joining_again_changes_nothing(dir, p);
                },
                None => {},
            }
        },
        TargetView::Package { .. } => {},
    }
}

impl Default for SectionEntry {
    fn default() -> (r: Self)
        ensures
            r@ == SectionEntryView::empty(),
    {
        let r = SectionEntry {
            package: None,
            target: None,
            adapter: None,
            dependencies: Vec::new(),
            registries: Vec::new(),
            bindings: None,
            proxy: None,
        };
        assert(r@.dependencies =~= Seq::empty());
        assert(r@.registries =~= Seq::empty());
        r
    }
}

impl Default for ComponentSection {
    fn default() -> (r: Self)
        ensures
            r@ == SectionView::unset(),
            r@.well_formed(),
    {
        let r = ComponentSection {
            package: None,
            target: Target::default(),
            adapter: None,
            dependencies: Vec::new(),
            registries: Vec::new(),
            bindings: Bindings::default(),
            proxy: false,
        };
        assert(r@.dependencies =~= Seq::empty());
        assert(r@.registries =~= Seq::empty());
        r
    }
}

/// Tells whether a key is one that a component section has.
pub fn section_has_key(key: &str) -> (r: bool)
    ensures
        r == is_section_key(key@),
{
    same_text(key, "package") || same_text(key, "target") || same_text(key, "adapter")
        || same_text(key, "dependencies") || same_text(key, "registries") || same_text(
        key,
        "bindings",
    ) || same_text(key, "proxy")
}

/// The place of the first key that a component section does not have;
/// nothing where it has every key.
pub fn unknown_section_key(keys: &Vec<String>) -> (r: Option<usize>)
    ensures
        r.is_none() == all_known(texts(keys@), |k: Seq<char>| is_section_key(k)),
        r matches Some(i) ==> is_first_unknown(
            texts(keys@),
            |k: Seq<char>| is_section_key(k),
            i as int,
        ) && i == first_unknown(texts(keys@), |k: Seq<char>| is_section_key(k)),
{
    let ghost known = |k: Seq<char>| is_section_key(k);
    let mut i: usize = 0;
    while i < keys.len()
        invariant
            i <= keys.len(),
            known == (|k: Seq<char>| is_section_key(k)),
            forall|j: int| 0 <= j < i ==> known(#[trigger] texts(keys@)[j]),
        decreases keys.len() - i,
    {
        if !section_has_key(keys[i].as_str()) {
            proof {
                assert(texts(keys@)[i as int] == keys[i as int]@);
                assert(!known(texts(keys@)[i as int]));
                first_unknown_is(texts(keys@), known, i);
            }
            return Some(i);
        }
        assert(known(texts(keys@)[i as int]));
        i += 1;
    }
    assert(all_known(texts(keys@), known));
    None
}

impl ComponentSection {
    /// Tells whether each list of the section stands for a mapping: whether
    /// no name, alias or interface name stands twice in its list.
    pub fn is_well_formed(&self) -> (r: bool)
        ensures
            r == self@.well_formed(),
    {
        assert(first_texts(self.registries@) =~= keys_of(registries_view(self.registries@)));
        self.target.is_well_formed() && names_are_distinct(&self.dependencies)
            && keys_are_distinct(&self.registries) && self.bindings.is_well_formed()
    }

    /// Builds a section from the fields of a document.
    pub fn from_entry(entry: SectionEntry) -> (r: Result<ComponentSection, SectionError>)
        ensures
            section_result_is(r, section_of_entry(entry@)),
            section_keeps_form(entry@.well_formed(), r),
    {
        let SectionEntry { package, target, adapter, dependencies, registries, bindings, proxy } =
            entry;
        let package = match package {
            Some(p) => match PackageName::new(p.as_str()) {
                Some(name) => Some(name),
                None => {
                    return Err(SectionError::InvalidPackageName);
                },
            },
            None => None,
        };
        let target = match target {
            Some(source) => match Target::deserialize(source) {
                Ok(t) => t,
                Err(e) => {
                    return Err(SectionError::Target(e));
                },
            },
            None => Target::default(),
        };
        let bindings = match bindings {
            Some(b) => Bindings::from_entry(b),
            None => Bindings::default(),
        };
        let proxy = match proxy {
            Some(p) => p,
            None => false,
        };
        Ok(ComponentSection { package, target, adapter, dependencies, registries, bindings, proxy })
    }

    /// Builds a section from a document given by its keys and its fields. A
    /// key that a section does not have is refused before anything else is
    /// looked at, the first such key being reported.
    pub fn from_table(keys: &Vec<String>, entry: SectionEntry) -> (r: Result<
        ComponentSection,
        SectionError,
    >)
        ensures
            section_result_is(r, section_of_table(texts(keys@), entry@)),
            section_keeps_form(entry@.well_formed(), r),
    {
        match unknown_section_key(keys) {
            Some(i) => Err(SectionError::UnknownField(i)),
            None => ComponentSection::from_entry(entry),
        }
    }

    /// Anchors every path of the section at a directory: the target's, those
    /// among the dependencies, and the adapter's.
    pub fn anchor(self, dir: &str) -> (r: ComponentSection)
        ensures
            r@ == anchored_section(dir@, self@),
            r@.well_formed() == self@.well_formed(),
    {
        let ComponentSection { package, target, adapter, dependencies, registries, bindings, proxy } =
            self;
        ComponentSection {
            package,
            target: target.anchor(dir),
            adapter: anchor_path(dir, adapter),
            dependencies: anchor_dependencies(dir, dependencies),
            registries,
            bindings,
            proxy,
        }
    }
}

} // verus!
