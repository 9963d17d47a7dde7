//! Configuration model of a component package: the tool-specific section of a
//! package manifest, its validating construction from raw document values, and
//! the metadata record that anchors every path of the section at the manifest's
//! directory.

pub mod text;
pub mod names;
pub mod paths;
pub mod error;
pub mod ownership;
pub mod model;
pub mod bindings;
pub mod target;
pub mod section;
pub mod metadata;

pub use error::ErrorKind;
pub use metadata::{
    ComponentMetadata, MetadataError, PackageRecord, SectionTable, DEFAULT_WIT_DIR,
};
pub use model::{Dependency, PackageName, RegistryPackage, VersionRequirement};
pub use bindings::{Bindings, BindingsEntry};
pub use ownership::Ownership;
pub use section::{ComponentSection, SectionEntry, SectionError};
pub use target::{
    Target, TargetDependencies, TargetEntry, TargetError, TargetField, TargetSource,
};
