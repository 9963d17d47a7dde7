//! The metadata of a component package: the package's identity, its component
//! section with every path anchored at the manifest's directory, and what can
//! be asked of the two together.

use vstd::prelude::*;
use vstd::string::*;
use semver::Version;
use std::time::SystemTime;
use crate::error::ErrorKind;
use crate::model::{anchored_dependencies, anchored_path, PackageName};
use crate::names::{parent_of, parent_path};
use crate::paths::{is_absolute, join_path, joined_path};
use crate::section::{
    anchored_section, is_section_key, section_of_table, ComponentSection, SectionEntry,
    SectionEntryView, SectionError, SectionView,
};
use crate::target::{anchored_target, Target, TargetView};
use crate::text::{first_unknown_exists, opt_text, texts};

verus! {

/// The directory in which a target document is looked for where none is named.
pub const DEFAULT_WIT_DIR: &'static str = "wit";

/// The component section of a manifest as a document gives it: its keys, and
/// what its fields hold.
#[derive(Debug)]
pub struct SectionTable {
    /// The keys of the section, in the document's order.
    pub keys: Vec<String>,
    /// What the fields of the section hold.
    pub fields: SectionEntry,
}

/// A package as the reader of manifests hands it over.
#[derive(Debug)]
pub struct PackageRecord {
    /// The name of the package.
    pub name: String,
    /// The version of the package.
    pub version: Version,
    /// The path of the package's manifest.
    pub manifest_path: String,
    /// The component section of the manifest, where it has one.
    pub component: Option<SectionTable>,
}

/// What a package record holds, as text.
pub struct PackageRecordView {
    pub name: Seq<char>,
    pub version: Version,
    pub manifest_path: Seq<char>,
    pub component: Option<(Seq<Seq<char>>, SectionEntryView)>,
}

impl View for PackageRecord {
    type V = PackageRecordView;

    open spec fn view(&self) -> PackageRecordView {
        PackageRecordView {
            name: self.name@,
            version: self.version,
            manifest_path: self.manifest_path@,
            component: match self.component {
                Some(t) => Some((texts(t.keys@), t.fields@)),
                None => None,
            },
        }
    }
}

/// Why no metadata was built for a package.
#[derive(Debug, Clone, Copy, PartialEq, Eq, Structural)]
pub enum MetadataError {
    /// The component section was refused.
    Section(SectionError),
    /// The manifest's path has no directory above it.
    NoParentDirectory,
}

impl MetadataError {
    /// The kind of the error.
    pub open spec fn kind_of(self) -> ErrorKind {
        match self {
            MetadataError::Section(e) => e.kind_of(),
            MetadataError::NoParentDirectory => ErrorKind::FilesystemError,
        }
    }

    /// The kind of the error.
    pub fn kind(&self) -> (r: ErrorKind)
        ensures
            r == self.kind_of(),
    {
        match self {
            MetadataError::Section(e) => e.kind(),
            MetadataError::NoParentDirectory => ErrorKind::FilesystemError,
        }
    }
}

/// The metadata of a component package.
#[derive(Debug, Clone)]
pub struct ComponentMetadata {
    /// The name of the package.
    pub name: String,
    /// The version of the package.
    pub version: Version,
    /// The path of the package's manifest.
    pub manifest_path: String,
    /// The time at which the manifest was last changed.
    pub modified_at: SystemTime,
    /// The component section of the manifest, its paths anchored at the
    /// manifest's directory.
    pub section: ComponentSection,
    /// Whether the manifest has a component section at all.
    pub section_present: bool,
}

/// What the metadata of a package holds, as text.
pub struct MetadataView {
    pub name: Seq<char>,
    pub version: Version,
    pub manifest_path: Seq<char>,
    pub modified_at: SystemTime,
    pub section: SectionView,
    pub section_present: bool,
}

impl View for ComponentMetadata {
    type V = MetadataView;

    open spec fn view(&self) -> MetadataView {
        MetadataView {
            name: self.name@,
            version: self.version,
            manifest_path: self.manifest_path@,
            modified_at: self.modified_at,
            section: self.section@,
            section_present: self.section_present,
        }
    }
}

impl MetadataView {
    /// The name of the target package, where the target is one.
    pub open spec fn target_package(self) -> Option<Seq<char>> {
        match self.section.target {
            TargetView::Package { name, .. } => Some(name),
            TargetView::Local { .. } => None,
        }
    }

    /// The directory that stands for the target where the target is a
    /// document on disk and names no path: `wit` beside the manifest.
    pub open spec fn default_target_path(self) -> Option<Seq<char>> {
        match self.section.target {
            TargetView::Local { path: None, .. } => match parent_path(self.manifest_path) {
                Some(dir) => Some(joined_path(dir, DEFAULT_WIT_DIR@)),
                None => None,
            },
            _ => None,
        }
    }

    /// The path of the target: the one it names; where it is a document and
    /// names none, the default directory if that exists; none for a registry
    /// package.
    pub open spec fn target_path(self, default_exists: bool) -> Option<Seq<char>> {
        match self.section.target {
            TargetView::Local { path: Some(p), .. } => Some(p),
            TargetView::Local { path: None, .. } => if default_exists {
                self.default_target_path()
            } else {
                None
            },
            TargetView::Package { .. } => None,
        }
    }
}

/// The section that a package record stands for, before any path is anchored:
/// the one its document gives, or the unset one where it has none.
pub open spec fn section_of_record(p: PackageRecordView) -> Result<SectionView, SectionError> {
    match p.component {
        Some((keys, fields)) => section_of_table(keys, fields),
        None => Ok(SectionView::unset()),
    }
}

/// The metadata that a package record and the time of its manifest's last
/// change stand for. A section that is refused comes before a manifest path
/// without a directory. Every path of the section is anchored at the
/// manifest's directory.
pub open spec fn metadata_of(p: PackageRecordView, modified_at: SystemTime) -> Result<
    MetadataView,
    MetadataError,
> {
    let section = section_of_record(p);
    let dir = parent_path(p.manifest_path);
    if section is Err {
        Err(MetadataError::Section(section->Err_0))
    } else if dir is None {
        Err(MetadataError::NoParentDirectory)
    } else {
        Ok(
            MetadataView {
                name: p.name,
                version: p.version,
                manifest_path: p.manifest_path,
                modified_at,
                section: anchored_section(dir->Some_0, section->Ok_0),
                section_present: p.component is Some,
            },
        )
    }
}

/// The result that building metadata owes: the metadata or the error that the
/// rules give, the metadata taken by its view.
pub open spec fn metadata_result_is(
    r: Result<ComponentMetadata, MetadataError>,
    expected: Result<MetadataView, MetadataError>,
) -> bool {
    match r {
        Ok(m) => expected == Ok::<MetadataView, MetadataError>(m@),
        Err(e) => expected == Err::<MetadataView, MetadataError>(e),
    }
}

impl ComponentMetadata {
    /// Builds the metadata of a package from its record and the time at which
    /// its manifest was last changed. Nothing is built where the section is
    /// refused or the manifest's path has no directory above it.
    pub fn from_package(package: PackageRecord, modified_at: SystemTime) -> (r: Result<
        ComponentMetadata,
        MetadataError,
    >)
        ensures
            metadata_result_is(r, metadata_of(package@, modified_at)),
            (package@.component matches Some(table) ==> table.1.well_formed()) ==> (r matches Ok(m)
                ==> m@.section.well_formed()),
    {
        let PackageRecord { name, version, manifest_path, component } = package;
        let section_present = component.is_some();
        let section = match component {
            Some(table) => match ComponentSection::from_table(&table.keys, table.fields) {
                Ok(section) => section,
                Err(e) => {
                    return Err(MetadataError::Section(e));
                },
            },
            None => ComponentSection::default(),
        };
        let manifest_dir = match parent_of(manifest_path.as_str()) {
            Some(dir) => dir,
            None => {
                return Err(MetadataError::NoParentDirectory);
            },
        };
        let section = section.anchor(manifest_dir.as_str());
        Ok(
            ComponentMetadata {
                name,
                version,
                manifest_path,
                modified_at,
                section,
                section_present,
            },
        )
    }

    /// The name of the target package; none where the target is not a
    /// registry package.
    pub fn target_package(&self) -> (r: Option<&PackageName>)
        ensures
            match r {
                Some(name) => self@.target_package() == Some(name@),
                None => self@.target_package().is_none(),
            },
    {
        match &self.section.target {
            Target::Package { name, .. } => Some(name),
            _ => None,
        }
    }

    /// The directory to look in for the target where the target is a document
    /// on disk and names no path: `wit` beside the manifest.
    pub fn default_target_path(&self) -> (r: Option<String>)
        ensures
            opt_text(r) == self@.default_target_path(),
    {
        match &self.section.target {
            Target::Local { path: None, .. } => match parent_of(self.manifest_path.as_str()) {
                Some(dir) => Some(join_path(dir.as_str(), DEFAULT_WIT_DIR)),
                None => None,
            },
            _ => None,
        }
    }

    /// The path of a target on disk, given whether the default directory
    /// exists. None where the target is a registry package, or where it names
    /// no path and the default directory does not exist.
    pub fn target_path(&self, default_exists: bool) -> (r: Option<String>)
        ensures
            opt_text(r) == self@.target_path(default_exists),
    {
        match &self.section.target {
            Target::Local { path: Some(path), .. } => Some(path.clone()),
            Target::Local { path: None, .. } => {
                if default_exists {
                    self.default_target_path()
                } else {
                    None
                }
            },
            Target::Package { .. } => None,
        }
    }

    /// The world that the target names; none where it names none.
    pub fn target_world(&self) -> (r: Option<&str>)
        ensures
            match r {
                Some(w) => self@.section.target.world() == Some(w@),
                None => self@.section.target.world().is_none(),
            },
    {
        self.section.target.world()
    }
}

/// Building metadata twice from the same record and time gives the same
/// outcome: the same error, or metadata that hold the same, path for path.
pub proof fn construction_is_repeatable(
    first: Result<ComponentMetadata, MetadataError>,
    second: Result<ComponentMetadata, MetadataError>,
    package: PackageRecordView,
    modified_at: SystemTime,
)
    requires
        metadata_result_is(first, metadata_of(package, modified_at)),
        metadata_result_is(second, metadata_of(package, modified_at)),
    ensures
        first is Ok == second is Ok,
        first is Ok ==> first->Ok_0@ == second->Ok_0@,
        first is Err ==> first->Err_0 == second->Err_0,
{
}

/// In the metadata of a package, each path of the section is the path that
/// the document gave, joined to the manifest's directory: the adapter's, the
/// target's, and each path among the dependencies of either. A path that does
/// not start at the root comes out as the directory, a `/` and the path.
/// Registry packages stand as the document gave them.
pub proof fn paths_are_anchored(package: PackageRecordView, modified_at: SystemTime)
    requires
        metadata_of(package, modified_at) is Ok,
    ensures
        ({
            let dir = parent_path(package.manifest_path)->Some_0;
            let before = section_of_record(package)->Ok_0;
            let after = (metadata_of(package, modified_at)->Ok_0).section;
            &&& parent_path(package.manifest_path) is Some
            &&& section_of_record(package) is Ok
            &&& after.adapter == anchored_path(dir, before.adapter)
            &&& after.dependencies == anchored_dependencies(dir, before.dependencies)
            &&& after.target == anchored_target(dir, before.target)
            &&& before.adapter matches Some(p) ==> after.adapter == Some(joined_path(dir, p))
            &&& before.adapter matches Some(p) ==> !is_absolute(p) && dir.len() > 0 && dir.last()
                != '/' ==> after.adapter == Some(dir + seq!['/'] + p)
            &&& before.target is Package ==> after.target == before.target
            &&& after.package == before.package
            &&& after.registries == before.registries
            &&& after.bindings == before.bindings
            &&& after.proxy == before.proxy
        }),
{
}

/// A manifest without a component section gives metadata that say so and
/// hold the unset section, wherever the manifest's path has a directory above
/// it.
pub proof fn no_section_gives_unset(package: PackageRecordView, modified_at: SystemTime)
    requires
        package.component is None,
        parent_path(package.manifest_path) is Some,
    ensures
        metadata_of(package, modified_at) is Ok,
        !(metadata_of(package, modified_at)->Ok_0).section_present,
        (metadata_of(package, modified_at)->Ok_0).section == SectionView::unset(),
{
    let dir = parent_path(package.manifest_path)->Some_0;
    let unset = SectionView::unset();
    assert(anchored_dependencies(dir, Seq::empty()) =~= Seq::empty());
    assert(anchored_section(dir, unset).target == unset.target);
    assert(anchored_section(dir, unset) == unset);
}

/// A section with a key that a section does not have is refused as malformed,
/// whatever else it holds, and so is the package. The keys are as many as a
/// vector can hold.
pub proof fn unknown_section_key_is_refused(
    package: PackageRecordView,
    modified_at: SystemTime,
    i: int,
)
    requires
        package.component is Some,
        (package.component->Some_0).0.len() <= usize::MAX,
        0 <= i < (package.component->Some_0).0.len(),
        !is_section_key((package.component->Some_0).0[i]),
    ensures
        section_of_record(package) matches Err(SectionError::UnknownField(k)) && k <= i
            && !is_section_key((package.component->Some_0).0[k as int]),
        metadata_of(package, modified_at) matches Err(
            MetadataError::Section(SectionError::UnknownField(_)),
        ),
        (metadata_of(package, modified_at)->Err_0).kind_of() == ErrorKind::MalformedDocument,
{
    let keys = (package.component->Some_0).0;
    let known = |k: Seq<char>| is_section_key(k);
    assert(!known(keys[i]));
    first_unknown_exists(keys, known, i);
}

} // verus!
