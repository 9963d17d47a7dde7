//! The target of a component: the world it is built against, taken from a
//! registry package or from a document on disk, and the two ways of writing
//! one in a configuration.

use vstd::prelude::*;
use vstd::string::*;
use crate::error::ErrorKind;
use crate::model::{
    anchor_dependencies, anchor_path, anchored_dependencies, anchored_path, dependencies_view,
    distinct_names, names_are_distinct, DependenciesView, Dependency, DependencyView, PackageName,
    RegistryPackage, RegistryPackageView, VersionRequirement,
};
use crate::names::{package_name_valid, version_req_valid, world_name_accepted, world_name_valid};
use crate::text::{
    all_known, find_first, find_last, first_index, first_index_of_joined, first_unknown,
    first_unknown_is, is_first, is_first_unknown, is_last, last_index, last_index_of_joined,
    opt_text, same_text, texts,
};

verus! {

/// A field of the table form of a target.
#[derive(Debug, Clone, Copy, PartialEq, Eq, Structural)]
pub enum TargetField {
    Package,
    Version,
    World,
    Registry,
    Path,
    Dependencies,
}

/// Why a target was refused.
#[derive(Debug, Clone, Copy, PartialEq, Eq, Structural)]
pub enum TargetError {
    /// The text is not of the form `<package-name>[/<world>]@<version>`.
    InvalidTarget,
    /// The world is not an identifier.
    InvalidWorldName,
    /// The package name is not a namespaced name.
    InvalidPackageName,
    /// A field that the other fields make mandatory is absent.
    MissingField(TargetField),
    /// Two fields are present of which one excludes the other.
    ConflictingFields(TargetField, TargetField),
    /// The key at this place in the table is none of the fields of a target.
    UnknownField(usize),
}

impl TargetError {
    /// The kind of the error.
    pub open spec fn kind_of(self) -> ErrorKind {
        match self {
            TargetError::InvalidTarget => ErrorKind::InvalidTarget,
            TargetError::InvalidWorldName => ErrorKind::InvalidIdentifier,
            TargetError::InvalidPackageName => ErrorKind::InvalidIdentifier,
            TargetError::MissingField(_) => ErrorKind::MalformedDocument,
            TargetError::ConflictingFields(_, _) => ErrorKind::ConflictingFields,
            TargetError::UnknownField(_) => ErrorKind::MalformedDocument,
        }
    }

    /// The kind of the error.
    pub fn kind(&self) -> (r: ErrorKind)
        ensures
            r == self.kind_of(),
    {
        match self {
            TargetError::InvalidTarget => ErrorKind::InvalidTarget,
            TargetError::InvalidWorldName => ErrorKind::InvalidIdentifier,
            TargetError::InvalidPackageName => ErrorKind::InvalidIdentifier,
            TargetError::MissingField(_) => ErrorKind::MalformedDocument,
            TargetError::ConflictingFields(_, _) => ErrorKind::ConflictingFields,
            TargetError::UnknownField(_) => ErrorKind::MalformedDocument,
        }
    }
}

/// The target of a component.
#[derive(Debug)]
pub enum Target {
    /// The target is a world of a registry package.
    Package {
        /// The name of the target package, such as `wasi:http`.
        name: PackageName,
        /// The registry package that is targeted.
        package: RegistryPackage,
        /// The name of the world that is targeted.
        world: Option<String>,
    },
    /// The target is a world of a document on disk.
    Local {
        /// The path of the document that defines the world.
        path: Option<String>,
        /// The name of the world that is targeted.
        world: Option<String>,
        /// The dependencies of the document.
        dependencies: Vec<(PackageName, Dependency)>,
    },
}

/// What a target holds, as text.
pub enum TargetView {
    Package { name: Seq<char>, package: RegistryPackageView, world: Option<Seq<char>> },
    Local { path: Option<Seq<char>>, world: Option<Seq<char>>, dependencies: DependenciesView },
}

impl View for Target {
    type V = TargetView;

    open spec fn view(&self) -> TargetView {
        match self {
            Target::Package { name, package, world } => TargetView::Package {
                name: name@,
                package: package@,
                world: opt_text(*world),
            },
            Target::Local { path, world, dependencies } => TargetView::Local {
                path: opt_text(*path),
                world: opt_text(*world),
                dependencies: dependencies_view(dependencies@),
            },
        }
    }
}

impl TargetView {
    /// The dependencies of the target stand for a mapping: no name stands
    /// twice among them.
    pub open spec fn well_formed(self) -> bool {
        distinct_names(self.dependencies())
    }

    /// The world that the target names, whichever kind it is of.
    pub open spec fn world(self) -> Option<Seq<char>> {
        match self {
            TargetView::Package { world, .. } => world,
            TargetView::Local { world, .. } => world,
        }
    }

    /// The dependencies of the target: for a registry package the package
    /// itself under its own name, for a document those it declares.
    pub open spec fn dependencies(self) -> DependenciesView {
        match self {
            TargetView::Package { name, package, .. } => seq![
                (name, DependencyView::Package(package)),
            ],
            TargetView::Local { dependencies, .. } => dependencies,
        }
    }

    /// The target that a configuration has where it names none.
    pub open spec fn unset() -> TargetView {
        TargetView::Local { path: None, world: None, dependencies: Seq::empty() }
    }
}

/// The registry package of a target in its short form: no name of its own, the
/// default registry.
pub open spec fn plain_package(version: Seq<char>) -> RegistryPackageView {
    RegistryPackageView { name: None, version, registry: None }
}

/// Where the short form of a target is cut: at the last `@`, and at the first
/// `/` before it where there is one. A text without `@` is cut nowhere.
pub open spec fn short_form_cut(s: Seq<char>) -> Option<(int, Option<int>)> {
    if !s.contains('@') {
        None
    } else {
        let at = last_index(s, '@');
        let name = s.subrange(0, at);
        if name.contains('/') {
            Some((at, Some(first_index(name, '/'))))
        } else {
            Some((at, None))
        }
    }
}

/// The target that a text of the form `<package-name>[/<world>]@<version>`
/// stands for. The version is what follows the last `@`; the world is what
/// follows the first `/` before it.
pub open spec fn target_of_text(s: Seq<char>) -> Result<TargetView, TargetError> {
    if !s.contains('@') {
        Err(TargetError::InvalidTarget)
    } else {
        let at = last_index(s, '@');
        let name = s.subrange(0, at);
        let version = s.subrange(at + 1, s.len() as int);
        if !version_req_valid(version) {
            Err(TargetError::InvalidTarget)
        } else if name.contains('/') {
            let slash = first_index(name, '/');
            let package = name.subrange(0, slash);
            let world = name.subrange(slash + 1, name.len() as int);
            if !world_name_valid(world) {
                Err(TargetError::InvalidWorldName)
            } else if !package_name_valid(package) {
                Err(TargetError::InvalidPackageName)
            } else {
                Ok(
                    TargetView::Package {
                        name: package,
                        package: plain_package(version),
                        world: Some(world),
                    },
                )
            }
        } else if !package_name_valid(name) {
            Err(TargetError::InvalidPackageName)
        } else {
            Ok(TargetView::Package { name, package: plain_package(version), world: None })
        }
    }
}

/// The table form of a target, each field as the document gave it.
#[derive(Debug)]
pub struct TargetEntry {
    /// The name of the target package.
    pub package: Option<String>,
    /// The versions of the target package that are asked for.
    pub version: Option<VersionRequirement>,
    /// The name of the world that is targeted.
    pub world: Option<String>,
    /// The alias of the registry that holds the target package.
    pub registry: Option<String>,
    /// The path of the document that defines the world.
    pub path: Option<String>,
    /// The dependencies of that document.
    pub dependencies: Vec<(PackageName, Dependency)>,
}

/// What the table form of a target holds, as text.
pub struct TargetEntryView {
    pub package: Option<Seq<char>>,
    pub version: Option<Seq<char>>,
    pub world: Option<Seq<char>>,
    pub registry: Option<Seq<char>>,
    pub path: Option<Seq<char>>,
    pub dependencies: DependenciesView,
}

impl View for TargetEntry {
    type V = TargetEntryView;

    open spec fn view(&self) -> TargetEntryView {
        TargetEntryView {
            package: opt_text(self.package),
            version: match self.version {
                Some(v) => Some(v@),
                None => None,
            },
            world: opt_text(self.world),
            registry: opt_text(self.registry),
            path: opt_text(self.path),
            dependencies: dependencies_view(self.dependencies@),
        }
    }
}

impl TargetEntryView {
    /// The dependencies of the table stand for a mapping: no name stands
    /// twice among them.
    pub open spec fn well_formed(self) -> bool {
        distinct_names(self.dependencies)
    }

    /// The table with no field set.
    pub open spec fn empty() -> TargetEntryView {
        TargetEntryView {
            package: None,
            version: None,
            world: None,
            registry: None,
            path: None,
            dependencies: Seq::empty(),
        }
    }
}

impl Default for TargetEntry {
    fn default() -> (r: Self)
        ensures
            r@ == TargetEntryView::empty(),
    {
        let r = TargetEntry {
            package: None,
            version: None,
            world: None,
            registry: None,
            path: None,
            dependencies: Vec::new(),
        };
        assert(r@.dependencies =~= Seq::empty());
        r
    }
}

/// The target that a table stands for. A package and a path exclude each
/// other; a package excludes dependencies and needs a version, which is asked
/// for before the package's name is looked at; without a package, a version
/// or a registry is refused.
pub open spec fn target_of_entry(e: TargetEntryView) -> Result<TargetView, TargetError> {
    if e.package.is_some() && e.path.is_some() {
        Err(TargetError::ConflictingFields(TargetField::Path, TargetField::Package))
    } else if e.package.is_some() {
        if e.dependencies.len() > 0 {
            Err(TargetError::ConflictingFields(TargetField::Dependencies, TargetField::Package))
        } else if e.version.is_none() {
            Err(TargetError::MissingField(TargetField::Version))
        } else if !package_name_valid(e.package.unwrap()) {
            Err(TargetError::InvalidPackageName)
        } else {
            Ok(
                TargetView::Package {
                    name: e.package.unwrap(),
                    package: RegistryPackageView {
                        name: None,
                        version: e.version.unwrap(),
                        registry: e.registry,
                    },
                    world: e.world,
                },
            )
        }
    } else if e.version.is_some() {
        Err(TargetError::ConflictingFields(TargetField::Version, TargetField::Path))
    } else if e.registry.is_some() {
        Err(TargetError::ConflictingFields(TargetField::Registry, TargetField::Path))
    } else {
        Ok(TargetView::Local { path: e.path, world: e.world, dependencies: e.dependencies })
    }
}

/// The field of a target that a key of its table names, if it names one.
pub open spec fn target_field_of(key: Seq<char>) -> Option<TargetField> {
    if key == "package"@ {
        Some(TargetField::Package)
    } else if key == "version"@ {
        Some(TargetField::Version)
    } else if key == "world"@ {
        Some(TargetField::World)
    } else if key == "registry"@ {
        Some(TargetField::Registry)
    } else if key == "path"@ {
        Some(TargetField::Path)
    } else if key == "dependencies"@ {
        Some(TargetField::Dependencies)
    } else {
        None
    }
}

/// Whether a key names a field of a target.
pub open spec fn is_target_key(key: Seq<char>) -> bool {
    target_field_of(key).is_some()
}

/// The target that a table with these keys and fields stands for: the first
/// key that names no field is refused, whatever the fields hold.
pub open spec fn target_of_table(keys: Seq<Seq<char>>, e: TargetEntryView) -> Result<
    TargetView,
    TargetError,
> {
    if all_known(keys, |k: Seq<char>| is_target_key(k)) {
        target_of_entry(e)
    } else {
        Err(TargetError::UnknownField(first_unknown(keys, |k: Seq<char>| is_target_key(k))))
    }
}

/// A target as a document gives it: a text in the short form, or a table by
/// its keys and fields.
#[derive(Debug)]
pub enum TargetSource {
    Text(String),
    Table(Vec<String>, TargetEntry),
}

/// What a target of a document holds, as text.
pub enum TargetSourceView {
    Text(Seq<char>),
    Table(Seq<Seq<char>>, TargetEntryView),
}

impl View for TargetSource {
    type V = TargetSourceView;

    open spec fn view(&self) -> TargetSourceView {
        match self {
            TargetSource::Text(s) => TargetSourceView::Text(s@),
            TargetSource::Table(keys, e) => TargetSourceView::Table(texts(keys@), e@),
        }
    }
}

impl TargetSourceView {
    /// The dependencies of a table stand for a mapping; a text has none.
    pub open spec fn well_formed(self) -> bool {
        match self {
            TargetSourceView::Text(_) => true,
            TargetSourceView::Table(_, e) => e.well_formed(),
        }
    }
}

/// A target that was built names no dependency twice, where what it was built
/// from names none twice.
pub open spec fn target_keeps_form(well_formed: bool, r: Result<Target, TargetError>) -> bool {
    well_formed ==> (r matches Ok(t) ==> t@.well_formed())
}

/// The target that a document's value stands for.
pub open spec fn target_of_source(s: TargetSourceView) -> Result<TargetView, TargetError> {
    match s {
        TargetSourceView::Text(t) => target_of_text(t),
        TargetSourceView::Table(keys, e) => target_of_table(keys, e),
    }
}

/// The result that a function on a target owes: the target or the error that
/// the rules give, the target taken by its view.
pub open spec fn target_result_is(
    r: Result<Target, TargetError>,
    expected: Result<TargetView, TargetError>,
) -> bool {
    match r {
        Ok(t) => expected == Ok::<TargetView, TargetError>(t@),
        Err(e) => expected == Err::<TargetView, TargetError>(e),
    }
}

/// The dependencies of a target: a list made for the occasion, or the list
/// that the target holds.
#[derive(Debug)]
pub enum TargetDependencies<'a> {
    /// The single dependency that a registry package stands for.
    Owned(Vec<(PackageName, Dependency)>),
    /// The dependencies that a document on disk declares.
    Borrowed(&'a Vec<(PackageName, Dependency)>),
}

impl<'a> View for TargetDependencies<'a> {
    type V = DependenciesView;

    open spec fn view(&self) -> DependenciesView {
        match self {
            TargetDependencies::Owned(v) => dependencies_view(v@),
            TargetDependencies::Borrowed(v) => dependencies_view(v@),
        }
    }
}

impl<'a> TargetDependencies<'a> {
    /// The list itself.
    pub fn as_list(&self) -> (r: &Vec<(PackageName, Dependency)>)
        ensures
            dependencies_view(r@) == self@,
    {
        match self {
            TargetDependencies::Owned(v) => v,
            TargetDependencies::Borrowed(v) => v,
        }
    }
}

impl TargetField {
    /// The key that names the field in a table.
    pub fn name(&self) -> (r: &'static str)
        ensures
            target_field_of(r@) == Some(*self),
    {
        proof {
            reveal_strlit("package");
            reveal_strlit("version");
            reveal_strlit("world");
            reveal_strlit("registry");
            reveal_strlit("path");
            reveal_strlit("dependencies");
            assert("version"@[0] != "package"@[0]);
        }
        match self {
            TargetField::Package => "package",
            TargetField::Version => "version",
            TargetField::World => {
                assert("world"@.len() == 5);
                "world"
            },
            TargetField::Registry => {
                assert("registry"@.len() == 8);
                "registry"
            },
            TargetField::Path => {
                assert("path"@.len() == 4);
                "path"
            },
            TargetField::Dependencies => {
                assert("dependencies"@.len() == 12);
                "dependencies"
            },
        }
    }

    /// The field that a key names, if it names one.
    pub fn of_key(key: &str) -> (r: Option<TargetField>)
        ensures
            r == target_field_of(key@),
    {
        if same_text(key, "package") {
            Some(TargetField::Package)
        } else if same_text(key, "version") {
            Some(TargetField::Version)
        } else if same_text(key, "world") {
            Some(TargetField::World)
        } else if same_text(key, "registry") {
            Some(TargetField::Registry)
        } else if same_text(key, "path") {
            Some(TargetField::Path)
        } else if same_text(key, "dependencies") {
            Some(TargetField::Dependencies)
        } else {
            None
        }
    }
}

impl Default for Target {
    fn default() -> (r: Self)
        ensures
            r@ == TargetView::unset(),
            r@.well_formed(),
    {
        let r = Target::Local { path: None, world: None, dependencies: Vec::new() };
        assert(r@->Local_dependencies =~= Seq::empty());
        r
    }
}

impl Clone for Target {
    fn clone(&self) -> (r: Self)
        ensures
            r@ == self@,
    {
        match self {
            Target::Package { name, package, world } => Target::Package {
                name: name.clone(),
                package: package.clone(),
                world: crate::model::duplicate_text(world),
            },
            Target::Local { path, world, dependencies } => Target::Local {
                path: crate::model::duplicate_text(path),
                world: crate::model::duplicate_text(world),
                dependencies: crate::model::duplicate_dependencies(dependencies),
            },
        }
    }
}

/// A target as it stands once it is anchored at a directory: the path of a
/// document and the paths among its dependencies are joined to the directory,
/// a registry package is left as it is.
pub open spec fn anchored_target(dir: Seq<char>, t: TargetView) -> TargetView {
    match t {
        TargetView::Local { path, world, dependencies } => TargetView::Local {
            path: anchored_path(dir, path),
            world,
            dependencies: anchored_dependencies(dir, dependencies),
        },
        TargetView::Package { .. } => t,
    }
}

/// The place of the first key that names no field of a target; nothing where
/// every key names one.
pub fn unknown_target_key(keys: &Vec<String>) -> (r: Option<usize>)
    ensures
        r.is_none() == all_known(texts(keys@), |k: Seq<char>| is_target_key(k)),
        r matches Some(i) ==> is_first_unknown(
            texts(keys@),
            |k: Seq<char>| is_target_key(k),
            i as int,
        ) && i == first_unknown(texts(keys@), |k: Seq<char>| is_target_key(k)),
{
    let ghost known = |k: Seq<char>| is_target_key(k);
    let mut i: usize = 0;
    while i < keys.len()
        invariant
            i <= keys.len(),
            known == (|k: Seq<char>| is_target_key(k)),
            forall|j: int| 0 <= j < i ==> known(#[trigger] texts(keys@)[j]),
        decreases keys.len() - i,
    {
        if TargetField::of_key(keys[i].as_str()).is_none() {
            proof {
                assert(texts(keys@)[i as int] == keys[i as int]@);
                assert(!known(texts(keys@)[i as int]));
                first_unknown_is(texts(keys@), known, i);
            }
            return Some(i);
        }
        assert(known(texts(keys@)[i as int]));
        i += 1;
    }
    assert(all_known(texts(keys@), known));
    None
}

/// Cuts the short form of a target: the place of the last `@`, and the place
/// of the first `/` before it where there is one. The package name stands
/// before the `/` (or before the `@` where there is none), the world between
/// the two, the version requirement after the `@`. Nothing where the text
/// holds no `@`.
pub fn short_form_parts(s: &str) -> (r: Option<(usize, Option<usize>)>)
    ensures
        r.is_some() == s@.contains('@'),
        match r {
            Some((at, slash)) => {
                &&& is_last(s@, '@', at as int)
                &&& at == last_index(s@, '@')
                &&& slash.is_some() == s@.subrange(0, at as int).contains('/')
                &&& slash matches Some(i) ==> i < at && is_first(s@.subrange(0, at as int), '/', i as int)
                    && i == first_index(s@.subrange(0, at as int), '/')
                &&& short_form_cut(s@) == Some(
                    (
                        at as int,
                        match slash {
                            Some(i) => Some(i as int),
                            None => None,
                        },
                    ),
                )
            },
            None => short_form_cut(s@).is_none(),
        },
{
    let at: usize = match find_last(s, '@') {
        Some(at) => at,
        None => {
            return None;
        },
    };
    let name = s.substring_char(0, at);
    Some((at, find_first(name, '/')))
}

impl Target {
    /// Anchors the paths of the target at a directory.
    pub fn anchor(self, dir: &str) -> (r: Target)
        ensures
            r@ == anchored_target(dir@, self@),
            r@.well_formed() == self@.well_formed(),
    {
        match self {
            Target::Local { path, world, dependencies } => Target::Local {
                path: anchor_path(dir, path),
                world,
                dependencies: anchor_dependencies(dir, dependencies),
            },
            Target::Package { name, package, world } => Target::Package { name, package, world },
        }
    }

    /// Tells whether the dependencies of the target stand for a mapping:
    /// whether no name stands twice among them.
    pub fn is_well_formed(&self) -> (r: bool)
        ensures
            r == self@.well_formed(),
    {
        match self {
            Target::Package { .. } => true,
            Target::Local { dependencies, .. } => names_are_distinct(dependencies),
        }
    }

    /// The dependencies of the target. A registry package stands for one
    /// dependency, itself under its own name; a document on disk hands out the
    /// list it holds. They name no package twice where the target names none
    /// twice.
    pub fn dependencies(&self) -> (r: TargetDependencies<'_>)
        ensures
            r@ == self@.dependencies(),
            distinct_names(r@) == self@.well_formed(),
            self is Package ==> distinct_names(r@),
            (self is Package) == (r is Owned),
            self matches Target::Local { dependencies, .. } ==> r == TargetDependencies::Borrowed(
                &dependencies,
            ),
    {
        match self {
            Target::Package { name, package, .. } => {
                let mut v: Vec<(PackageName, Dependency)> = Vec::new();
                v.push((name.clone(), Dependency::Package(package.clone())));
                assert(dependencies_view(v@) =~= self@.dependencies());
                TargetDependencies::Owned(v)
            },
            Target::Local { dependencies, .. } => TargetDependencies::Borrowed(dependencies),
        }
    }

    /// The world that the target names, whichever kind it is of.
    pub fn world(&self) -> (r: Option<&str>)
        ensures
            match r {
                Some(w) => self@.world() == Some(w@),
                None => self@.world().is_none(),
            },
    {
        match self {
            Target::Package { world, .. } => match world {
                Some(w) => Some(w.as_str()),
                None => None,
            },
            Target::Local { world, .. } => match world {
                Some(w) => Some(w.as_str()),
                None => None,
            },
        }
    }

    /// Reads a target from its short form, `<package-name>[/<world>]@<version>`.
    pub fn from_str(s: &str) -> (r: Result<Target, TargetError>)
        ensures
            target_result_is(r, target_of_text(s@)),
            r matches Ok(t) ==> t@.well_formed(),
    {
        let n: usize = s.unicode_len();
        let (at, slash) = match short_form_parts(s) {
            Some(parts) => parts,
            None => {
                return Err(TargetError::InvalidTarget);
            },
        };
        let version = match VersionRequirement::parse(s.substring_char(at + 1, n)) {
            Some(v) => v,
            None => {
                return Err(TargetError::InvalidTarget);
            },
        };
        let (name, world) = match slash {
            Some(slash) => {
                let world = s.substring_char(slash + 1, at);
                assert(world@ =~= s@.subrange(0, at as int).subrange(slash + 1, at as int));
                if !world_name_accepted(world) {
                    return Err(TargetError::InvalidWorldName);
                }
                let name = s.substring_char(0, slash);
                assert(name@ =~= s@.subrange(0, at as int).subrange(0, slash as int));
                (name, Some(String::from_str(world)))
            },
            None => (s.substring_char(0, at), None),
        };
        match PackageName::new(name) {
            Some(name) => Ok(
                Target::Package {
                    name,
                    package: RegistryPackage { name: None, version, registry: None },
                    world,
                },
            ),
            None => Err(TargetError::InvalidPackageName),
        }
    }

    /// Builds a target from the table form. The rules are applied in this
    /// order: a package and a path together; then, with a package, any
    /// dependencies, the version, the package's name; without one, a version,
    /// then a registry.
    pub fn from_entry(entry: TargetEntry) -> (r: Result<Target, TargetError>)
        ensures
            target_result_is(r, target_of_entry(entry@)),
            target_keeps_form(entry@.well_formed(), r),
    {
        let TargetEntry { package, version, world, registry, path, dependencies } = entry;
        match package {
            Some(package) => {
                if path.is_some() {
                    return Err(
                        TargetError::ConflictingFields(TargetField::Path, TargetField::Package),
                    );
                }
                if dependencies.len() > 0 {
                    return Err(
                        TargetError::ConflictingFields(
                            TargetField::Dependencies,
                            TargetField::Package,
                        ),
                    );
                }
                let version = match version {
                    Some(version) => version,
                    None => {
                        return Err(TargetError::MissingField(TargetField::Version));
                    },
                };
                match PackageName::new(package.as_str()) {
                    Some(name) => Ok(
                        Target::Package {
                            name,
                            package: RegistryPackage { name: None, version, registry },
                            world,
                        },
                    ),
                    None => Err(TargetError::InvalidPackageName),
                }
            },
            None => {
                if version.is_some() {
                    return Err(
                        TargetError::ConflictingFields(TargetField::Version, TargetField::Path),
                    );
                }
                if registry.is_some() {
                    return Err(
                        TargetError::ConflictingFields(TargetField::Registry, TargetField::Path),
                    );
                }
                Ok(Target::Local { path, world, dependencies })
            },
        }
    }

    /// Builds a target from a table given by its keys and its fields. A key
    /// that names no field of a target is refused before any other rule is
    /// applied, the first such key being reported.
    pub fn from_table(keys: &Vec<String>, entry: TargetEntry) -> (r: Result<Target, TargetError>)
        ensures
            target_result_is(r, target_of_table(texts(keys@), entry@)),
            target_keeps_form(entry@.well_formed(), r),
    {
        match unknown_target_key(keys) {
            Some(i) => Err(TargetError::UnknownField(i)),
            None => Target::from_entry(entry),
        }
    }

    /// Builds a target from what a document gives for it, a text or a table.
    pub fn deserialize(source: TargetSource) -> (r: Result<Target, TargetError>)
        ensures
            target_result_is(r, target_of_source(source@)),
            target_keeps_form(source@.well_formed(), r),
    {
        match source {
            TargetSource::Text(s) => Target::from_str(s.as_str()),
            TargetSource::Table(keys, entry) => Target::from_table(&keys, entry),
        }
    }
}

impl std::str::FromStr for Target {
    type Err = TargetError;

    /// Reads a target from its short form, as the method of the same name on
    /// the type does: the target that the text stands for, or the error that
    /// the rules of the short form give.
    fn from_str(s: &str) -> (r: Result<Self, Self::Err>)
        ensures
            target_result_is(r, target_of_text(s@)),
    {
        Target::from_str(s)
    }
}

/// The short form of a target: the package name, the world after a `/` where
/// there is one, and the version requirement after an `@`.
pub open spec fn short_form(name: Seq<char>, world: Option<Seq<char>>, req: Seq<char>) -> Seq<
    char,
> {
    match world {
        Some(w) => (name + seq!['/'] + w) + seq!['@'] + req,
        None => name + seq!['@'] + req,
    }
}

/// A package name holds no `/` and a version requirement no `@`, so the
/// short form is cut where its parts were put together.
pub proof fn parts_hold_no_separator(name: Seq<char>, req: Seq<char>)
    ensures
        package_name_valid(name) ==> !name.contains('/'),
        version_req_valid(req) ==> !req.contains('@'),
{
}

/// A target written in the short form is read back as it was written: the
/// package name, the world and the version requirement are those that were
/// put together, the package has no name of its own and no registry. This
/// holds wherever each part is what it should be.
pub proof fn short_form_is_read_back(name: Seq<char>, world: Option<Seq<char>>, req: Seq<char>)
    requires
        package_name_valid(name),
        version_req_valid(req),
        world matches Some(w) ==> world_name_valid(w),
    ensures
        target_of_text(short_form(name, world, req)) == Ok::<TargetView, TargetError>(
            TargetView::Package { name, package: plain_package(req), world },
        ),
        (TargetView::Package { name, package: plain_package(req), world }).world() == world,
{
    match world {
        Some(w) => {
            last_index_of_joined(name + seq!['/'] + w, '@', req);
            first_index_of_joined(name, '/', w);
        },
        None => {
            last_index_of_joined(name, '@', req);
        },
    }
}

/// A text that is not in the short form is refused for what is wrong with it:
/// one without `@`, or with something after the last `@` that is no version
/// requirement, as no target; one with something after the first `/` that is
/// no identifier, as a wrong world name; one whose name is no package name,
/// as a wrong package name.
pub proof fn short_form_refusals(left: Seq<char>, name: Seq<char>, world: Seq<char>, req: Seq<char>)
    ensures
        !left.contains('@') ==> target_of_text(left) == Err::<TargetView, TargetError>(
            TargetError::InvalidTarget,
        ),
        !req.contains('@') && !version_req_valid(req) ==> target_of_text(left + seq!['@'] + req)
            == Err::<TargetView, TargetError>(TargetError::InvalidTarget),
        version_req_valid(req) && package_name_valid(name) && !world_name_valid(world)
            ==> target_of_text(short_form(name, Some(world), req)) == Err::<
            TargetView,
            TargetError,
        >(TargetError::InvalidWorldName),
        version_req_valid(req) && !name.contains('/') && !world_name_valid(world)
            ==> target_of_text(short_form(name, Some(world), req)) == Err::<
            TargetView,
            TargetError,
        >(TargetError::InvalidWorldName),
        version_req_valid(req) && !name.contains('/') && world_name_valid(world)
            && !package_name_valid(name) ==> target_of_text(short_form(name, Some(world), req))
            == Err::<TargetView, TargetError>(TargetError::InvalidPackageName),
        version_req_valid(req) && !name.contains('/') && !package_name_valid(name)
            ==> target_of_text(short_form(name, None, req)) == Err::<TargetView, TargetError>(
            TargetError::InvalidPackageName,
        ),
{
    if !req.contains('@') {
        last_index_of_joined(left, '@', req);
        last_index_of_joined(name + seq!['/'] + world, '@', req);
        last_index_of_joined(name, '@', req);
    }
    if !name.contains('/') {
        first_index_of_joined(name, '/', world);
    }
}

/// A table that holds both a package and a path is refused for that, whatever
/// its other fields hold.
pub proof fn package_and_path_conflict(e: TargetEntryView)
    requires
        e.package is Some,
        e.path is Some,
    ensures
        target_of_entry(e) == Err::<TargetView, TargetError>(
            TargetError::ConflictingFields(TargetField::Path, TargetField::Package),
        ),
        (target_of_entry(e)->Err_0).kind_of() == ErrorKind::ConflictingFields,
{
}

/// A table that holds a package and no version stands for no target. Where
/// it holds no path and no dependencies either, it is refused for the missing
/// version, whatever the package's name is.
pub proof fn package_needs_version(e: TargetEntryView)
    requires
        e.package is Some,
        e.version is None,
    ensures
        target_of_entry(e) is Err,
        e.path is None && e.dependencies.len() == 0 ==> target_of_entry(e) == Err::<
            TargetView,
            TargetError,
        >(TargetError::MissingField(TargetField::Version)) && (target_of_entry(e)->Err_0).kind_of()
            == ErrorKind::MalformedDocument,
{
}

/// The rules of the table form leave no doubt about the kind of target: a
/// table stands for a registry package only where it holds a package, and for
/// a document on disk only where it holds none.
pub proof fn table_decides_the_kind(e: TargetEntryView)
    ensures
        target_of_entry(e) matches Ok(t) ==> (t is Package) == (e.package is Some),
        target_of_entry(e) matches Ok(t) ==> t is Package ==> e.path is None
            && e.dependencies.len() == 0 && e.version is Some,
        target_of_entry(e) matches Ok(t) ==> t is Local ==> e.version is None
            && e.registry is None,
{
}

/// The dependencies of a target that is a registry package are one entry: the
/// target's own name, and under it that same registry package.
pub proof fn package_target_is_its_own_dependency(t: TargetView)
    requires
        t is Package,
    ensures
        t.dependencies().len() == 1,
        t.dependencies()[0].0 == t->Package_name,
        t.dependencies()[0].1 == DependencyView::Package(t->Package_package),
{
}

} // verus!
