use component_metadata::model::names_are_distinct;
use component_metadata::target::{short_form_parts, unknown_target_key};
use component_metadata::{
    Dependency, ErrorKind, Ownership, PackageName, RegistryPackage, Target, TargetDependencies, TargetEntry,
    TargetError, TargetField, TargetSource, VersionRequirement,
};

fn name(s: &str) -> PackageName {
    PackageName::new(s).unwrap()
}

fn req(s: &str) -> VersionRequirement {
    VersionRequirement::parse(s).unwrap()
}

fn keys(list: &[&str]) -> Vec<String> {
    list.iter().map(|k| k.to_string()).collect()
}

#[test]
fn package_name_accepts_namespaced_names_only() {
    assert_eq!(PackageName::new("wasi:http").unwrap().as_str(), "wasi:http");
    assert!(PackageName::new("http").is_none());
    assert!(PackageName::new("WASI:http").is_none());
    assert!(PackageName::new("").is_none());
    assert!(PackageName::new("wasi:").is_none());
}

#[test]
fn version_requirement_keeps_its_text() {
    assert_eq!(VersionRequirement::parse("^1.2").unwrap().as_str(), "^1.2");
    assert_eq!(VersionRequirement::parse(">=0.3, <0.5").unwrap().as_str(), ">=0.3, <0.5");
    assert!(VersionRequirement::parse("latest").is_none());
    assert!(VersionRequirement::parse("").is_none());
}

#[test]
fn short_form_without_world() {
    match Target::from_str("wasi:http@0.2.0").unwrap() {
        Target::Package { name, package, world } => {
            assert_eq!(name.as_str(), "wasi:http");
            assert!(package.name.is_none());
            assert_eq!(package.version.as_str(), "0.2.0");
            assert!(package.registry.is_none());
            assert!(world.is_none());
        }
        Target::Local { .. } => panic!("the short form gives a registry package"),
    }
}

#[test]
fn short_form_with_world() {
    let target = Target::from_str("wasi:http/proxy@^0.2").unwrap();
    assert_eq!(target.world(), Some("proxy"));
    match target {
        Target::Package { name, package, world } => {
            assert_eq!(name.as_str(), "wasi:http");
            assert_eq!(package.version.as_str(), "^0.2");
            assert_eq!(world.as_deref(), Some("proxy"));
        }
        Target::Local { .. } => panic!("the short form gives a registry package"),
    }
}

#[test]
fn short_form_through_parse() {
    let target: Target = "wasi:http/proxy@0.2.0".parse().unwrap();
    assert_eq!(target.world(), Some("proxy"));
    assert_eq!("wasi:http".parse::<Target>().unwrap_err(), TargetError::InvalidTarget);
    assert_eq!("borrowing".parse::<Ownership>(), Ok(Ownership::Borrowing));
    assert!("lending".parse::<Ownership>().is_err());
}

#[test]
fn short_form_refusals() {
    assert_eq!(Target::from_str("wasi:http").unwrap_err(), TargetError::InvalidTarget);
    assert_eq!(Target::from_str("").unwrap_err(), TargetError::InvalidTarget);
    assert_eq!(Target::from_str("wasi:http@").unwrap_err(), TargetError::InvalidTarget);
    assert_eq!(Target::from_str("wasi:http@not a version").unwrap_err(), TargetError::InvalidTarget);
    assert_eq!(
        Target::from_str("wasi:http/Not_A_World@1.0.0").unwrap_err(),
        TargetError::InvalidWorldName
    );
    assert_eq!(Target::from_str("wasi:http/@1.0.0").unwrap_err(), TargetError::InvalidWorldName);
    assert_eq!(Target::from_str("http@1.0.0").unwrap_err(), TargetError::InvalidPackageName);
    assert_eq!(Target::from_str("@1.0.0").unwrap_err(), TargetError::InvalidPackageName);
    assert_eq!(Target::from_str("http/proxy@1.0.0").unwrap_err(), TargetError::InvalidPackageName);
}

#[test]
fn short_form_splits_at_the_last_at_sign() {
    assert_eq!(Target::from_str("wasi:http@1.0.0@2.0.0").unwrap_err(), TargetError::InvalidPackageName);
    assert_eq!(Target::from_str("wasi:http@bad@").unwrap_err(), TargetError::InvalidTarget);
}

#[test]
fn short_form_splits_the_name_at_the_first_slash() {
    assert_eq!(Target::from_str("wasi:http/a/b@1.0.0").unwrap_err(), TargetError::InvalidWorldName);
}

#[test]
fn table_with_package() {
    let entry = TargetEntry {
        package: Some("wasi:cli".to_string()),
        version: Some(req("0.2.1")),
        world: Some("command".to_string()),
        registry: Some("private".to_string()),
        ..TargetEntry::default()
    };
    match Target::from_entry(entry).unwrap() {
        Target::Package { name, package, world } => {
            assert_eq!(name.as_str(), "wasi:cli");
            assert!(package.name.is_none());
            assert_eq!(package.version.as_str(), "0.2.1");
            assert_eq!(package.registry.as_deref(), Some("private"));
            assert_eq!(world.as_deref(), Some("command"));
        }
        Target::Local { .. } => panic!("a table with a package gives a registry package"),
    }
}

#[test]
fn table_with_path() {
    let entry = TargetEntry {
        path: Some("wit/world.wit".to_string()),
        world: Some("example".to_string()),
        dependencies: vec![(name("foo:bar"), Dependency::Local("deps/bar".to_string()))],
        ..TargetEntry::default()
    };
    match Target::from_entry(entry).unwrap() {
        Target::Local { path, world, dependencies } => {
            assert_eq!(path.as_deref(), Some("wit/world.wit"));
            assert_eq!(world.as_deref(), Some("example"));
            assert_eq!(dependencies.len(), 1);
            assert_eq!(dependencies[0].0.as_str(), "foo:bar");
            assert!(matches!(&dependencies[0].1, Dependency::Local(p) if p == "deps/bar"));
        }
        Target::Package { .. } => panic!("a table with a path gives a local target"),
    }
}

#[test]
fn empty_table_is_the_unset_target() {
    match Target::from_entry(TargetEntry::default()).unwrap() {
        Target::Local { path, world, dependencies } => {
            assert!(path.is_none());
            assert!(world.is_none());
            assert!(dependencies.is_empty());
        }
        Target::Package { .. } => panic!("an empty table gives a local target"),
    }
    match Target::default() {
        Target::Local { path, world, dependencies } => {
            assert!(path.is_none());
            assert!(world.is_none());
            assert!(dependencies.is_empty());
        }
        Target::Package { .. } => panic!("the default target is local"),
    }
}

#[test]
fn table_with_package_and_path_conflicts() {
    let conflict = TargetError::ConflictingFields(TargetField::Path, TargetField::Package);
    let bare = TargetEntry {
        package: Some("wasi:cli".to_string()),
        path: Some("wit".to_string()),
        ..TargetEntry::default()
    };
    assert_eq!(Target::from_entry(bare).unwrap_err(), conflict);
    let full = TargetEntry {
        package: Some("not a name".to_string()),
        version: Some(req("1.0.0")),
        world: Some("w".to_string()),
        registry: Some("r".to_string()),
        path: Some("wit".to_string()),
        dependencies: vec![(name("foo:bar"), Dependency::Local("deps".to_string()))],
    };
    assert_eq!(Target::from_entry(full).unwrap_err(), conflict);
}

#[test]
fn table_with_package_and_dependencies_conflicts() {
    let entry = TargetEntry {
        package: Some("wasi:cli".to_string()),
        version: Some(req("1.0.0")),
        dependencies: vec![(name("foo:bar"), Dependency::Local("deps".to_string()))],
        ..TargetEntry::default()
    };
    assert_eq!(
        Target::from_entry(entry).unwrap_err(),
        TargetError::ConflictingFields(TargetField::Dependencies, TargetField::Package)
    );
}

#[test]
fn table_with_package_needs_a_version() {
    let entry = TargetEntry { package: Some("wasi:cli".to_string()), ..TargetEntry::default() };
    assert_eq!(
        Target::from_entry(entry).unwrap_err(),
        TargetError::MissingField(TargetField::Version)
    );
    let entry = TargetEntry {
        package: Some("wasi:cli".to_string()),
        registry: Some("private".to_string()),
        world: Some("command".to_string()),
        ..TargetEntry::default()
    };
    assert_eq!(
        Target::from_entry(entry).unwrap_err(),
        TargetError::MissingField(TargetField::Version)
    );
}

#[test]
fn table_with_package_needs_a_version_whatever_the_name() {
    let entry = TargetEntry { package: Some("Bad".to_string()), ..TargetEntry::default() };
    assert_eq!(
        Target::from_entry(entry).unwrap_err(),
        TargetError::MissingField(TargetField::Version)
    );
    let entry = TargetEntry {
        package: Some("".to_string()),
        world: Some("w".to_string()),
        registry: Some("r".to_string()),
        ..TargetEntry::default()
    };
    let error = Target::from_entry(entry).unwrap_err();
    assert_eq!(error, TargetError::MissingField(TargetField::Version));
    assert_eq!(error.kind(), ErrorKind::MalformedDocument);
}

#[test]
fn short_form_is_cut_at_the_last_at_sign_and_the_first_slash() {
    assert_eq!(short_form_parts("wasi:http@0.2.0"), Some((9, None)));
    assert_eq!(short_form_parts("wasi:http/proxy@0.2.0"), Some((15, Some(9))));
    assert_eq!(short_form_parts("a/b/c@1@2"), Some((7, Some(1))));
    assert_eq!(short_form_parts("a@b/c"), Some((1, None)));
    assert_eq!(short_form_parts("/@"), Some((1, Some(0))));
    assert_eq!(short_form_parts("@"), Some((0, None)));
    assert_eq!(short_form_parts("wasi:http/proxy"), None);
    assert_eq!(short_form_parts(""), None);
    assert_eq!(short_form_parts("\u{e9}t\u{e9}/x@1"), Some((5, Some(3))));
}

#[test]
fn first_unknown_key_of_a_target() {
    assert_eq!(unknown_target_key(&keys(&["package", "version"])), None);
    assert_eq!(unknown_target_key(&Vec::new()), None);
    assert_eq!(unknown_target_key(&keys(&["path", "Path", "nope"])), Some(1));
    assert_eq!(unknown_target_key(&keys(&["target"])), Some(0));
}

#[test]
fn well_formed_targets() {
    let local = |p: &str| Dependency::Local(p.to_string());
    assert!(Target::default().is_well_formed());
    assert!(Target::from_str("wasi:http@1.0.0").unwrap().is_well_formed());
    let target = Target::Local {
        path: None,
        world: None,
        dependencies: vec![(name("a:b"), local("x")), (name("a:c"), local("x"))],
    };
    assert!(target.is_well_formed());
    assert!(target.anchor("/dir").is_well_formed());
    let target = Target::Local {
        path: None,
        world: None,
        dependencies: vec![(name("a:b"), local("x")), (name("a:b"), local("y"))],
    };
    assert!(!target.is_well_formed());
    assert!(!names_are_distinct(target.dependencies().as_list()));
    assert!(!target.anchor("/dir").is_well_formed());
}

#[test]
fn table_with_a_wrong_package_name() {
    let entry = TargetEntry {
        package: Some("cli".to_string()),
        version: Some(req("1.0.0")),
        ..TargetEntry::default()
    };
    assert_eq!(Target::from_entry(entry).unwrap_err(), TargetError::InvalidPackageName);
}

#[test]
fn table_without_package_refuses_version_and_registry() {
    let entry = TargetEntry {
        path: Some("wit".to_string()),
        version: Some(req("1.0.0")),
        registry: Some("private".to_string()),
        ..TargetEntry::default()
    };
    assert_eq!(
        Target::from_entry(entry).unwrap_err(),
        TargetError::ConflictingFields(TargetField::Version, TargetField::Path)
    );
    let entry = TargetEntry { registry: Some("private".to_string()), ..TargetEntry::default() };
    assert_eq!(
        Target::from_entry(entry).unwrap_err(),
        TargetError::ConflictingFields(TargetField::Registry, TargetField::Path)
    );
}

#[test]
fn table_with_an_unknown_key() {
    let entry = TargetEntry {
        package: Some("wasi:cli".to_string()),
        path: Some("wit".to_string()),
        ..TargetEntry::default()
    };
    let result = Target::from_table(&keys(&["package", "path", "worlds", "extra"]), entry);
    assert_eq!(result.unwrap_err(), TargetError::UnknownField(2));
    let all = keys(&["package", "version", "world", "registry", "path", "dependencies"]);
    assert!(Target::from_table(&all, TargetEntry::default()).is_ok());
}

#[test]
fn target_field_of_key() {
    assert_eq!(TargetField::of_key("package"), Some(TargetField::Package));
    assert_eq!(TargetField::of_key("version"), Some(TargetField::Version));
    assert_eq!(TargetField::of_key("world"), Some(TargetField::World));
    assert_eq!(TargetField::of_key("registry"), Some(TargetField::Registry));
    assert_eq!(TargetField::of_key("path"), Some(TargetField::Path));
    assert_eq!(TargetField::of_key("dependencies"), Some(TargetField::Dependencies));
    assert_eq!(TargetField::of_key("Package"), None);
    assert_eq!(TargetField::of_key(""), None);
}

#[test]
fn target_field_names_read_back() {
    for field in [
        TargetField::Package,
        TargetField::Version,
        TargetField::World,
        TargetField::Registry,
        TargetField::Path,
        TargetField::Dependencies,
    ] {
        assert_eq!(TargetField::of_key(field.name()), Some(field));
    }
    assert_eq!(TargetField::Dependencies.name(), "dependencies");
}

#[test]
fn target_error_kinds() {
    assert_eq!(TargetError::InvalidTarget.kind(), ErrorKind::InvalidTarget);
    assert_eq!(TargetError::InvalidWorldName.kind(), ErrorKind::InvalidIdentifier);
    assert_eq!(TargetError::InvalidPackageName.kind(), ErrorKind::InvalidIdentifier);
    assert_eq!(TargetError::MissingField(TargetField::Version).kind(), ErrorKind::MalformedDocument);
    assert_eq!(
        TargetError::ConflictingFields(TargetField::Path, TargetField::Package).kind(),
        ErrorKind::ConflictingFields
    );
    assert_eq!(TargetError::UnknownField(3).kind(), ErrorKind::MalformedDocument);
}

#[test]
fn deserialize_takes_a_text_or_a_table() {
    let text = TargetSource::Text("wasi:http/proxy@0.2.0".to_string());
    assert_eq!(Target::deserialize(text).unwrap().world(), Some("proxy"));
    let text = TargetSource::Text("wasi:http/proxy".to_string());
    assert_eq!(Target::deserialize(text).unwrap_err(), TargetError::InvalidTarget);
    let table = TargetSource::Table(
        keys(&["path"]),
        TargetEntry { path: Some("wit".to_string()), ..TargetEntry::default() },
    );
    assert!(matches!(Target::deserialize(table).unwrap(), Target::Local { path: Some(p), .. } if p == "wit"));
    let table = TargetSource::Table(keys(&["paths"]), TargetEntry::default());
    assert_eq!(Target::deserialize(table).unwrap_err(), TargetError::UnknownField(0));
}

#[test]
fn package_target_depends_on_itself() {
    let target = Target::Package {
        name: name("wasi:http"),
        package: RegistryPackage {
            name: None,
            version: req("0.2.0"),
            registry: Some("private".to_string()),
        },
        world: None,
    };
    let dependencies = target.dependencies();
    assert!(matches!(dependencies, TargetDependencies::Owned(_)));
    let list = dependencies.as_list();
    assert_eq!(list.len(), 1);
    assert_eq!(list[0].0.as_str(), "wasi:http");
    match &list[0].1 {
        Dependency::Package(package) => {
            assert!(package.name.is_none());
            assert_eq!(package.version.as_str(), "0.2.0");
            assert_eq!(package.registry.as_deref(), Some("private"));
        }
        Dependency::Local(_) => panic!("a registry package depends on a registry package"),
    }
}

#[test]
fn local_target_hands_out_its_dependencies() {
    let target = Target::Local {
        path: None,
        world: Some("example".to_string()),
        dependencies: vec![
            (name("foo:bar"), Dependency::Local("deps/bar".to_string())),
            (
                name("foo:baz"),
                Dependency::Package(RegistryPackage { name: None, version: req("1"), registry: None }),
            ),
        ],
    };
    assert_eq!(target.world(), Some("example"));
    let dependencies = target.dependencies();
    assert!(matches!(dependencies, TargetDependencies::Borrowed(_)));
    let list = dependencies.as_list();
    assert_eq!(list.len(), 2);
    assert_eq!(list[0].0.as_str(), "foo:bar");
    assert_eq!(list[1].0.as_str(), "foo:baz");
}

#[test]
fn distinct_names_in_a_list() {
    let local = |p: &str| Dependency::Local(p.to_string());
    assert!(names_are_distinct(&Vec::new()));
    assert!(names_are_distinct(&vec![(name("a:b"), local("x"))]));
    assert!(names_are_distinct(&vec![
        (name("a:b"), local("x")),
        (name("a:c"), local("x")),
        (name("b:b"), local("y")),
    ]));
    assert!(!names_are_distinct(&vec![
        (name("a:b"), local("x")),
        (name("a:c"), local("y")),
        (name("a:b"), local("z")),
    ]));
}

#[test]
fn clones_hold_the_same() {
    let target = Target::from_str("wasi:http/proxy@0.2.0").unwrap();
    let copy = target.clone();
    assert_eq!(copy.world(), Some("proxy"));
    assert!(matches!(copy, Target::Package { name, .. } if name.as_str() == "wasi:http"));
    let dependency = Dependency::Local("a/b".to_string());
    assert!(matches!(dependency.clone(), Dependency::Local(p) if p == "a/b"));
}
