use component_metadata::{
    BindingsEntry, ErrorKind, ComponentMetadata, ComponentSection, Dependency, MetadataError, PackageName,
    PackageRecord, RegistryPackage, SectionEntry, SectionError, SectionTable, Target,
    TargetEntry, TargetError, TargetField, TargetSource, VersionRequirement, DEFAULT_WIT_DIR,
};
use component_metadata::paths::join_path;
use component_metadata::section::unknown_section_key;
use std::time::{Duration, SystemTime};

fn name(s: &str) -> PackageName {
    PackageName::new(s).unwrap()
}

fn keys(list: &[&str]) -> Vec<String> {
    list.iter().map(|k| k.to_string()).collect()
}

fn record(manifest_path: &str, component: Option<SectionTable>) -> PackageRecord {
    PackageRecord {
        name: "example".to_string(),
        version: semver::Version::new(1, 2, 3),
        manifest_path: manifest_path.to_string(),
        component,
    }
}

fn local_section() -> SectionEntry {
    SectionEntry {
        package: Some("my:component".to_string()),
        target: Some(TargetSource::Table(
            keys(&["path", "dependencies"]),
            TargetEntry {
                path: Some("wit/world.wit".to_string()),
                dependencies: vec![
                    (name("foo:bar"), Dependency::Local("deps/bar".to_string())),
                    (
                        name("foo:baz"),
                        Dependency::Package(RegistryPackage {
                            name: None,
                            version: VersionRequirement::parse("1.0").unwrap(),
                            registry: None,
                        }),
                    ),
                ],
                ..TargetEntry::default()
            },
        )),
        adapter: Some("adapter.wasm".to_string()),
        dependencies: vec![(name("a:b"), Dependency::Local("../b".to_string()))],
        registries: vec![(
            "default".to_string(),
            url::Url::parse("https://registry.example.com").unwrap(),
        )],
        bindings: Some(BindingsEntry { stubs: Some(true), ..BindingsEntry::default() }),
        proxy: Some(true),
    }
}

#[test]
fn error_kinds() {
    assert_eq!(SectionError::UnknownField(0).kind(), ErrorKind::MalformedDocument);
    assert_eq!(SectionError::InvalidPackageName.kind(), ErrorKind::InvalidIdentifier);
    assert_eq!(
        SectionError::Target(TargetError::InvalidTarget).kind(),
        ErrorKind::InvalidTarget
    );
    assert_eq!(MetadataError::NoParentDirectory.kind(), ErrorKind::FilesystemError);
    assert_eq!(
        MetadataError::Section(SectionError::Target(TargetError::ConflictingFields(
            TargetField::Version,
            TargetField::Path
        )))
        .kind(),
        ErrorKind::ConflictingFields
    );
    assert_eq!(
        MetadataError::Section(SectionError::UnknownField(1)).kind(),
        ErrorKind::MalformedDocument
    );
}

#[test]
fn default_wit_dir() {
    assert_eq!(DEFAULT_WIT_DIR, "wit");
}

#[test]
fn section_defaults() {
    let section = ComponentSection::default();
    assert!(section.package.is_none());
    assert!(matches!(section.target, Target::Local { path: None, world: None, ref dependencies } if dependencies.is_empty()));
    assert!(section.adapter.is_none());
    assert!(section.dependencies.is_empty());
    assert!(section.registries.is_empty());
    assert!(section.bindings.format);
    assert!(!section.bindings.stubs);
    assert!(!section.proxy);
    let section = ComponentSection::from_entry(SectionEntry::default()).unwrap();
    assert!(section.package.is_none());
    assert!(matches!(section.target, Target::Local { path: None, world: None, ref dependencies } if dependencies.is_empty()));
    assert!(section.bindings.format);
    assert!(!section.proxy);
}

#[test]
fn section_from_its_fields() {
    let section = ComponentSection::from_entry(local_section()).unwrap();
    assert_eq!(section.package.unwrap().as_str(), "my:component");
    assert!(matches!(section.target, Target::Local { path: Some(ref p), .. } if p == "wit/world.wit"));
    assert_eq!(section.adapter.as_deref(), Some("adapter.wasm"));
    assert_eq!(section.dependencies.len(), 1);
    assert!(matches!(&section.dependencies[0].1, Dependency::Local(p) if p == "../b"));
    assert_eq!(section.registries.len(), 1);
    assert_eq!(section.registries[0].0, "default");
    assert_eq!(section.registries[0].1.as_str(), "https://registry.example.com/");
    assert!(section.bindings.stubs);
    assert!(section.bindings.format);
    assert!(section.proxy);
}

#[test]
fn section_refusals() {
    let entry = SectionEntry { package: Some("component".to_string()), ..SectionEntry::default() };
    assert_eq!(ComponentSection::from_entry(entry).unwrap_err(), SectionError::InvalidPackageName);
    let entry = SectionEntry {
        target: Some(TargetSource::Text("wasi:http".to_string())),
        ..SectionEntry::default()
    };
    assert_eq!(
        ComponentSection::from_entry(entry).unwrap_err(),
        SectionError::Target(TargetError::InvalidTarget)
    );
    let entry = SectionEntry {
        target: Some(TargetSource::Table(
            keys(&["package", "path"]),
            TargetEntry {
                package: Some("wasi:http".to_string()),
                path: Some("wit".to_string()),
                ..TargetEntry::default()
            },
        )),
        ..SectionEntry::default()
    };
    assert_eq!(
        ComponentSection::from_entry(entry).unwrap_err(),
        SectionError::Target(TargetError::ConflictingFields(TargetField::Path, TargetField::Package))
    );
    let entry = SectionEntry {
        package: Some("component".to_string()),
        target: Some(TargetSource::Text("wasi:http".to_string())),
        ..SectionEntry::default()
    };
    assert_eq!(ComponentSection::from_entry(entry).unwrap_err(), SectionError::InvalidPackageName);
}

#[test]
fn section_with_an_unknown_key() {
    let result = ComponentSection::from_table(&keys(&["target", "foo", "bar"]), local_section());
    assert_eq!(result.unwrap_err(), SectionError::UnknownField(1));
    let all = keys(&[
        "package",
        "target",
        "adapter",
        "dependencies",
        "registries",
        "bindings",
        "proxy",
    ]);
    assert!(ComponentSection::from_table(&all, local_section()).is_ok());
}

#[test]
fn metadata_anchors_every_path() {
    let modified_at = SystemTime::UNIX_EPOCH + Duration::from_secs(1_700_000_000);
    let table = SectionTable {
        keys: keys(&["package", "target", "adapter", "dependencies", "registries", "bindings", "proxy"]),
        fields: local_section(),
    };
    let metadata =
        ComponentMetadata::from_package(record("/work/example/Cargo.toml", Some(table)), modified_at)
            .unwrap();
    assert_eq!(metadata.name, "example");
    assert_eq!(metadata.version, semver::Version::new(1, 2, 3));
    assert_eq!(metadata.manifest_path, "/work/example/Cargo.toml");
    assert_eq!(metadata.modified_at, modified_at);
    assert!(metadata.section_present);
    assert_eq!(metadata.section.adapter.as_deref(), Some("/work/example/adapter.wasm"));
    assert!(matches!(&metadata.section.dependencies[0].1, Dependency::Local(p) if p == "/work/example/../b"));
    assert_eq!(metadata.section.dependencies[0].0.as_str(), "a:b");
    match &metadata.section.target {
        Target::Local { path, world, dependencies } => {
            assert_eq!(path.as_deref(), Some("/work/example/wit/world.wit"));
            assert!(world.is_none());
            assert_eq!(dependencies.len(), 2);
            assert_eq!(dependencies[0].0.as_str(), "foo:bar");
            assert!(matches!(&dependencies[0].1, Dependency::Local(p) if p == "/work/example/deps/bar"));
            assert_eq!(dependencies[1].0.as_str(), "foo:baz");
            assert!(matches!(&dependencies[1].1, Dependency::Package(p) if p.version.as_str() == "1.0"));
        }
        Target::Package { .. } => panic!("the target is local"),
    }
    assert_eq!(metadata.section.package.as_ref().unwrap().as_str(), "my:component");
    assert_eq!(metadata.section.registries.len(), 1);
    assert!(metadata.section.bindings.stubs);
    assert!(metadata.section.proxy);
    assert!(metadata.target_package().is_none());
    assert!(metadata.target_world().is_none());
    assert_eq!(metadata.target_path(true).as_deref(), Some("/work/example/wit/world.wit"));
    assert_eq!(metadata.target_path(false).as_deref(), Some("/work/example/wit/world.wit"));
    assert!(metadata.default_target_path().is_none());
}

#[test]
fn metadata_is_the_same_when_built_again() {
    let build = || {
        let table = SectionTable { keys: keys(&["target", "adapter"]), fields: local_section() };
        ComponentMetadata::from_package(
            record("/work/example/Cargo.toml", Some(table)),
            SystemTime::UNIX_EPOCH,
        )
        .unwrap()
    };
    let first = build();
    let second = build();
    assert_eq!(first.section.adapter, second.section.adapter);
    assert_eq!(first.target_path(false), second.target_path(false));
    assert_eq!(
        format!("{:?}", first.section.dependencies),
        format!("{:?}", second.section.dependencies)
    );
    assert_eq!(format!("{:?}", first), format!("{:?}", second));
}

#[test]
fn metadata_clone_holds_the_same() {
    let modified_at = SystemTime::UNIX_EPOCH + Duration::from_secs(42);
    let table = SectionTable { keys: keys(&["target", "adapter"]), fields: local_section() };
    let metadata =
        ComponentMetadata::from_package(record("/work/example/Cargo.toml", Some(table)), modified_at)
            .unwrap();
    let copy = metadata.clone();
    assert_eq!(copy.version, semver::Version::new(1, 2, 3));
    assert_eq!(copy.modified_at, modified_at);
    assert_eq!(format!("{:?}", copy), format!("{:?}", metadata));
}

#[test]
fn metadata_without_a_section() {
    let metadata =
        ComponentMetadata::from_package(record("/work/example/Cargo.toml", None), SystemTime::UNIX_EPOCH)
            .unwrap();
    assert!(!metadata.section_present);
    assert!(metadata.section.package.is_none());
    assert!(matches!(metadata.section.target, Target::Local { path: None, world: None, ref dependencies } if dependencies.is_empty()));
    assert!(metadata.section.adapter.is_none());
    assert!(metadata.section.dependencies.is_empty());
    assert!(metadata.section.registries.is_empty());
    assert!(metadata.section.bindings.format);
    assert!(!metadata.section.bindings.stubs);
    assert!(!metadata.section.proxy);
}

#[test]
fn metadata_with_an_empty_section() {
    let table = SectionTable { keys: Vec::new(), fields: SectionEntry::default() };
    let metadata = ComponentMetadata::from_package(
        record("/work/example/Cargo.toml", Some(table)),
        SystemTime::UNIX_EPOCH,
    )
    .unwrap();
    assert!(metadata.section_present);
    assert!(metadata.section.adapter.is_none());
}

#[test]
fn metadata_refuses_an_unknown_key() {
    let table = SectionTable { keys: keys(&["target", "foo"]), fields: local_section() };
    let result = ComponentMetadata::from_package(
        record("/work/example/Cargo.toml", Some(table)),
        SystemTime::UNIX_EPOCH,
    );
    assert_eq!(
        result.unwrap_err(),
        MetadataError::Section(SectionError::UnknownField(1))
    );
}

#[test]
fn metadata_refuses_a_missing_version() {
    let fields = SectionEntry {
        target: Some(TargetSource::Table(
            keys(&["package"]),
            TargetEntry { package: Some("wasi:http".to_string()), ..TargetEntry::default() },
        )),
        ..SectionEntry::default()
    };
    let table = SectionTable { keys: keys(&["target"]), fields };
    let result = ComponentMetadata::from_package(
        record("/work/example/Cargo.toml", Some(table)),
        SystemTime::UNIX_EPOCH,
    );
    assert_eq!(
        result.unwrap_err(),
        MetadataError::Section(SectionError::Target(TargetError::MissingField(
            TargetField::Version
        )))
    );
}

#[test]
fn metadata_needs_a_manifest_directory() {
    let result = ComponentMetadata::from_package(record("", None), SystemTime::UNIX_EPOCH);
    assert_eq!(result.unwrap_err(), MetadataError::NoParentDirectory);
    let result = ComponentMetadata::from_package(record("/", None), SystemTime::UNIX_EPOCH);
    assert_eq!(result.unwrap_err(), MetadataError::NoParentDirectory);
    let table = SectionTable { keys: keys(&["foo"]), fields: SectionEntry::default() };
    let result = ComponentMetadata::from_package(record("", Some(table)), SystemTime::UNIX_EPOCH);
    assert_eq!(
        result.unwrap_err(),
        MetadataError::Section(SectionError::UnknownField(0))
    );
}

#[test]
fn target_path_falls_back_to_the_default_directory() {
    let metadata =
        ComponentMetadata::from_package(record("/work/example/Cargo.toml", None), SystemTime::UNIX_EPOCH)
            .unwrap();
    assert_eq!(metadata.default_target_path().as_deref(), Some("/work/example/wit"));
    assert_eq!(metadata.target_path(true).as_deref(), Some("/work/example/wit"));
    assert!(metadata.target_path(false).is_none());
}

#[test]
fn target_path_with_a_probe_of_the_disk() {
    let metadata = ComponentMetadata::from_package(
        record("/no/such/directory/anywhere/Cargo.toml", None),
        SystemTime::UNIX_EPOCH,
    )
    .unwrap();
    let candidate = metadata.default_target_path().unwrap();
    assert_eq!(candidate, "/no/such/directory/anywhere/wit");
    let exists = std::path::Path::new(&candidate).exists();
    assert!(!exists);
    assert!(metadata.target_path(exists).is_none());
}

#[test]
fn package_target_has_no_path() {
    let fields = SectionEntry {
        target: Some(TargetSource::Text("wasi:http/proxy@0.2.0".to_string())),
        adapter: Some("/abs/adapter.wasm".to_string()),
        ..SectionEntry::default()
    };
    let table = SectionTable { keys: keys(&["target", "adapter"]), fields };
    let metadata = ComponentMetadata::from_package(
        record("/work/example/Cargo.toml", Some(table)),
        SystemTime::UNIX_EPOCH,
    )
    .unwrap();
    assert_eq!(metadata.target_package().unwrap().as_str(), "wasi:http");
    assert_eq!(metadata.target_world(), Some("proxy"));
    assert!(metadata.target_path(true).is_none());
    assert!(metadata.target_path(false).is_none());
    assert!(metadata.default_target_path().is_none());
    assert_eq!(metadata.section.adapter.as_deref(), Some("/abs/adapter.wasm"));
}

#[test]
fn joining_paths() {
    let cases = [
        ("/work/example", "adapter.wasm", "/work/example/adapter.wasm"),
        ("/work/example/", "adapter.wasm", "/work/example/adapter.wasm"),
        ("/work/example", "/abs/adapter.wasm", "/abs/adapter.wasm"),
        ("/work/example", "", "/work/example/"),
        ("", "adapter.wasm", "adapter.wasm"),
        ("", "", ""),
        ("/", "wit", "/wit"),
        ("rel", "../up/./x", "rel/../up/./x"),
        ("/work", "/", "/"),
    ];
    for (dir, path, joined) in cases {
        assert_eq!(join_path(dir, path), joined);
        assert_eq!(std::path::Path::new(dir).join(path).to_str(), Some(joined));
    }
}

#[test]
fn anchoring_twice_changes_nothing() {
    let once = ComponentSection::from_entry(local_section()).unwrap().anchor("/work/example");
    let twice = once.clone().anchor("/work/example");
    assert_eq!(format!("{:?}", once), format!("{:?}", twice));
    assert_eq!(twice.adapter.as_deref(), Some("/work/example/adapter.wasm"));
}

#[test]
fn first_unknown_key_of_a_section() {
    assert_eq!(unknown_section_key(&keys(&["target", "foo", "bar"])), Some(1));
    assert_eq!(unknown_section_key(&keys(&["proxy", "bindings"])), None);
    assert_eq!(unknown_section_key(&keys(&["version"])), Some(0));
}

#[test]
fn well_formed_sections() {
    assert!(ComponentSection::default().is_well_formed());
    let section = ComponentSection::from_entry(local_section()).unwrap();
    assert!(section.is_well_formed());
    assert!(section.anchor("/work").is_well_formed());
    let mut entry = local_section();
    entry.dependencies.push((name("a:b"), Dependency::Local("again".to_string())));
    assert!(!ComponentSection::from_entry(entry).unwrap().is_well_formed());
    let mut entry = local_section();
    entry.registries.push((
        "default".to_string(),
        url::Url::parse("https://other.example.com").unwrap(),
    ));
    assert!(!ComponentSection::from_entry(entry).unwrap().is_well_formed());
    let again = ("a".to_string(), "b".to_string());
    let mut entry = local_section();
    entry.bindings = Some(BindingsEntry {
        with: Some(vec![again.clone(), again]),
        ..BindingsEntry::default()
    });
    assert!(!ComponentSection::from_entry(entry).unwrap().is_well_formed());
}

#[test]
fn anchoring_a_section() {
    let section = ComponentSection::from_entry(local_section()).unwrap().anchor("base");
    assert_eq!(section.adapter.as_deref(), Some("base/adapter.wasm"));
    assert!(matches!(section.target, Target::Local { path: Some(ref p), .. } if p == "base/wit/world.wit"));
    let dependency = Dependency::Local("x".to_string()).anchor("/d");
    assert!(matches!(dependency, Dependency::Local(p) if p == "/d/x"));
}
