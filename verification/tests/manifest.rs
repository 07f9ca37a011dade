use stellar::manifest::{TomlDependency, TomlManifest, TomlPackage};

#[test]
fn package_builders() {
    let package = TomlPackage::new("foo".to_owned(), "0.1.0".to_owned())
        .with_description("a package".to_owned())
        .with_license("MIT".to_owned())
        .with_author("someone".to_owned())
        .with_repository("https://example.com/foo".to_owned())
        .with_keywords(vec!["a".to_owned(), "b".to_owned()])
        .with_categories(vec!["c".to_owned()]);
    assert_eq!(package.name, "foo");
    assert_eq!(package.version, "0.1.0");
    assert_eq!(package.description.as_deref(), Some("a package"));
    assert_eq!(package.license.as_deref(), Some("MIT"));
    assert_eq!(package.author.as_deref(), Some("someone"));
    assert_eq!(package.repository.as_deref(), Some("https://example.com/foo"));
    assert_eq!(package.keywords, Some(vec!["a".to_owned(), "b".to_owned()]));
    assert_eq!(package.categories, Some(vec!["c".to_owned()]));
}

#[test]
fn dependency_builders() {
    let dependency = TomlDependency::new()
        .with_version("1.0".to_owned())
        .with_path("../bar".to_owned())
        .with_author("me".to_owned());
    assert_eq!(dependency.version.as_deref(), Some("1.0"));
    assert_eq!(dependency.path.as_deref(), Some("../bar"));
    assert_eq!(dependency.author.as_deref(), Some("me"));
    assert_eq!(TomlDependency::new(), TomlDependency::default());
}

#[test]
fn dependencies_are_ordered_and_last_one_wins() {
    let package = TomlPackage::new("foo".to_owned(), "0.1.0".to_owned());
    let manifest = TomlManifest::new(package.clone()).with_dependencies(vec![
        ("zeta".to_owned(), TomlDependency::new().with_version("1".to_owned())),
        ("alpha".to_owned(), TomlDependency::new().with_version("2".to_owned())),
        ("zeta".to_owned(), TomlDependency::new().with_version("3".to_owned())),
        ("beta".to_owned(), TomlDependency::new()),
    ]);
    assert_eq!(manifest.package, package);
    let dependencies = manifest.dependencies.unwrap();
    let names: Vec<&str> = dependencies.iter().map(|(n, _)| n.as_str()).collect();
    assert_eq!(names, vec!["alpha", "beta", "zeta"]);
    assert_eq!(dependencies[2].1.version.as_deref(), Some("3"));
    assert_eq!(dependencies[0].1.version.as_deref(), Some("2"));
}

#[test]
fn manifest_without_dependencies() {
    let manifest = TomlManifest::new(TomlPackage::new("foo".to_owned(), "1".to_owned()));
    assert_eq!(manifest.dependencies, None);
    let empty = manifest.with_dependencies(vec![]);
    assert_eq!(empty.dependencies, Some(vec![]));
}
