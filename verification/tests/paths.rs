use stellar::log::{log, log_info, right_align};
use stellar::paths::{join, PackageConfigReader, PackagePathResolver, ProjectPathResolver};
use stellar::project_path;

#[test]
fn join_paths() {
    assert_eq!(join("a", "b"), "a/b");
    assert_eq!(join("a/", "b"), "a/b");
    assert_eq!(join("", "b"), "b");
    assert_eq!(join("a", "/b"), "/b");
}

#[test]
fn project_paths() {
    let resolver = ProjectPathResolver::new("root");
    assert_eq!(resolver.root(), "root");
    assert_eq!(resolver.config(), "root/project.toml");
    assert_eq!(resolver.readme(), "root/README.md");
    assert_eq!(resolver.src_directory(), "root/src");
    assert_eq!(resolver.build_directory(), "root/build");
    assert_eq!(resolver.project_build_directory("foo"), "root/build/foo");
}

#[test]
fn package_paths() {
    let resolver = PackagePathResolver::new("/pkg/");
    assert_eq!(resolver.root(), "/pkg/");
    assert_eq!(resolver.readme(), "/pkg/README.md");
    assert_eq!(resolver.manifest(), "/pkg/package.toml");
    assert_eq!(resolver.source_directory(), "/pkg/src");
    assert_eq!(resolver.build_directory(), "/pkg/build");
}

#[test]
fn project_paths_with_xml_configuration() {
    let resolver = project_path::ProjectPathResolver::new("ws".to_owned());
    assert_eq!(resolver.root(), "ws");
    assert_eq!(resolver.root_config(), "ws/config.xml");
    assert_eq!(resolver.readme(), "ws/README.md");
    assert_eq!(resolver.src_directory(), "ws/src");
    assert_eq!(resolver.build_directory(), "ws/build");
    assert_eq!(resolver.build_package_directory("p"), "ws/build/p");
    assert_eq!(resolver.build_package_config("p"), "ws/build/p/config.xml");
}

#[test]
fn config_reader() {
    let reader = PackageConfigReader::new("a/b".to_owned());
    assert_eq!(reader.package_path(), "a/b");
}

#[test]
fn log_prefixes_are_right_aligned() {
    let line = log_info("Compiling", "foo");
    assert_eq!(line.prefix, "   Compiling");
    assert_eq!(line.message, "foo");
    assert_eq!(log("a-very-long-prefix", "m").prefix, "a-very-long-prefix");
    assert_eq!(right_align("ab", 4), "  ab");
    assert_eq!(right_align("тест", 5), " тест");
}
