use clap_cargo_extra::deps::{deps_in_tree, key_of_line, key_of_package};
use clap_cargo_extra::{ClapCargo, DependencyKind, Error, Metadata, Package};

fn package(name: &str, version: &str) -> Package {
    Package {
        name: name.to_string(),
        version: version.to_string(),
        manifest_path: format!("/ws/{}/Cargo.toml", name),
        dependencies: Vec::new(),
    }
}

fn workspace() -> Metadata {
    Metadata {
        packages: vec![
            package("zero-dep", "0.1.0"),
            package("single-dep", "0.1.0"),
            package("double-dep", "0.1.0"),
            package("triple-dep", "0.1.0"),
        ],
        target_directory: "/ws/target".to_string(),
    }
}

fn loaded() -> ClapCargo {
    let mut c = ClapCargo::default();
    c.manifest.manifest_path = Some("./tests/fixtures/Cargo.toml".to_string());
    c.metadata(Ok(workspace())).unwrap();
    c
}

fn listing(name: &str) -> &'static str {
    match name {
        "zero-dep" => "zero-dep v0.1.0 (/ws/zero-dep)\n",
        "single-dep" => "single-dep v0.1.0 (/ws/single-dep)\nzero-dep v0.1.0 (/ws/zero-dep)\n",
        "double-dep" => {
            "double-dep v0.1.0 (/ws/double-dep)\n\
             single-dep v0.1.0 (/ws/single-dep)\n\
             zero-dep v0.1.0 (/ws/zero-dep)\n"
        }
        "triple-dep" => {
            "triple-dep v0.1.0 (/ws/triple-dep)\n\
             double-dep v0.1.0 (/ws/double-dep)\n\
             single-dep v0.1.0 (/ws/single-dep)\n\
             zero-dep v0.1.0 (/ws/zero-dep)\n"
        }
        _ => panic!(),
    }
}

fn names(deps: &[&Package]) -> Vec<String> {
    deps.iter().map(|p| p.name.clone()).collect()
}

#[test]
fn multi_level_deps() {
    let c = loaded();
    let packages = c.packages().unwrap();
    assert_eq!(packages.len(), 4);
    for p in packages {
        let expected = match p.name.as_str() {
            "zero-dep" => 0,
            "single-dep" => 1,
            "double-dep" => 2,
            "triple-dep" => 3,
            _ => panic!(),
        };
        let deps = c.get_deps(p, listing(&p.name).as_bytes().to_vec()).unwrap();
        assert_eq!(deps.len(), expected);
    }
}

#[test]
fn deps_come_in_listing_order() {
    let c = loaded();
    let p = package("triple-dep", "0.1.0");
    let deps = c.get_deps(&p, listing("triple-dep").as_bytes().to_vec()).unwrap();
    assert_eq!(names(&deps), vec!["double-dep", "single-dep", "zero-dep"]);
}

#[test]
fn deps_leave_out_the_package_itself() {
    let c = loaded();
    let p = package("single-dep", "0.1.0");
    let text = "single-dep v0.1.0 (/ws/single-dep)\n\
                zero-dep v0.1.0 (/ws/zero-dep)\n\
                single-dep v0.1.0 (/ws/single-dep) (*)\n";
    let deps = c.get_deps(&p, text.as_bytes().to_vec()).unwrap();
    assert_eq!(names(&deps), vec!["zero-dep"]);
}

#[test]
fn deps_keep_a_package_with_the_same_key_but_other_fields() {
    let packages = workspace().packages;
    let mut p = package("single-dep", "0.1.0");
    p.manifest_path = "/elsewhere/Cargo.toml".to_string();
    let deps = deps_in_tree(&packages, &p, "single-dep v0.1.0\n");
    assert_eq!(names(&deps), vec!["single-dep"]);
}

#[test]
fn deps_skip_unknown_and_short_lines() {
    let packages = workspace().packages;
    let p = package("triple-dep", "0.1.0");
    let text = "serde v1.0.0\n\nzero-dep\nzero-dep v0.2.0\n[dev-dependencies]\nzero-dep v0.1.0";
    let deps = deps_in_tree(&packages, &p, text);
    assert_eq!(names(&deps), vec!["zero-dep"]);
}

#[test]
fn deps_list_a_package_as_often_as_it_is_named() {
    let packages = workspace().packages;
    let p = package("double-dep", "0.1.0");
    let text = "zero-dep v0.1.0\nsingle-dep v0.1.0\nzero-dep v0.1.0 (*)\n";
    let deps = deps_in_tree(&packages, &p, text);
    assert_eq!(names(&deps), vec!["zero-dep", "single-dep", "zero-dep"]);
}

#[test]
fn deps_accept_carriage_returns_tabs_and_runs_of_spaces() {
    let packages = workspace().packages;
    let p = package("double-dep", "0.1.0");
    let text = "zero-dep v0.1.0\r\n  single-dep\tv0.1.0 (/ws)\r\n";
    let deps = deps_in_tree(&packages, &p, text);
    assert_eq!(names(&deps), vec!["zero-dep", "single-dep"]);
}

#[test]
fn deps_of_empty_listing() {
    let packages = workspace().packages;
    let p = package("zero-dep", "0.1.0");
    assert_eq!(deps_in_tree(&packages, &p, "").len(), 0);
    assert_eq!(deps_in_tree(&packages, &p, "\n\n").len(), 0);
}

#[test]
fn deps_find_the_later_of_two_packages_with_one_key() {
    let mut packages = workspace().packages;
    let mut twin = package("zero-dep", "0.1.0");
    twin.manifest_path = "/other/zero-dep/Cargo.toml".to_string();
    packages.push(twin);
    let p = package("single-dep", "0.1.0");
    let deps = deps_in_tree(&packages, &p, "zero-dep v0.1.0\n");
    assert_eq!(deps.len(), 1);
    assert_eq!(deps[0].manifest_path, "/other/zero-dep/Cargo.toml");
}

#[test]
fn get_deps_rejects_invalid_utf8() {
    let c = loaded();
    let p = package("single-dep", "0.1.0");
    let result = c.get_deps(&p, vec![b'z', 0xff, b'\n']);
    assert_eq!(result, Err(Error::MalformedListing { package: "single-dep".to_string() }));
}

#[test]
fn get_deps_decodes_utf8() {
    let mut c = ClapCargo::default();
    let mut m = workspace();
    m.packages.push(package("caf\u{e9}", "1.0.0"));
    c.metadata(Ok(m)).unwrap();
    let p = package("single-dep", "0.1.0");
    let deps = c.get_deps(&p, "caf\u{e9} v1.0.0\n".as_bytes().to_vec()).unwrap();
    assert_eq!(names(&deps), vec!["caf\u{e9}"]);
}

#[test]
fn get_deps_needs_metadata() {
    let c = ClapCargo::default();
    let p = package("single-dep", "0.1.0");
    assert_eq!(c.get_deps(&p, Vec::new()), Err(Error::NoMetadata));
}

#[test]
fn tree_args_name_the_edges() {
    let c = ClapCargo::default();
    let p = package("single-dep", "0.1.0");
    let expect = |edges: &str| -> Vec<String> {
        vec![
            "tree",
            "--prefix",
            "none",
            "--edges",
            edges,
            "--manifest-path",
            "/ws/single-dep/Cargo.toml",
        ]
        .into_iter()
        .map(|s| s.to_string())
        .collect()
    };
    assert_eq!(c.tree_args(&p, DependencyKind::Normal), expect("normal"));
    assert_eq!(c.tree_args(&p, DependencyKind::Development), expect("dev"));
    assert_eq!(c.tree_args(&p, DependencyKind::Build), expect("build"));
    assert_eq!(c.tree_args(&p, DependencyKind::Unknown), expect("all"));
}

#[test]
fn edges_of_each_kind() {
    assert_eq!(DependencyKind::Normal.edges(), "normal");
    assert_eq!(DependencyKind::Development.edges(), "dev");
    assert_eq!(DependencyKind::Build.edges(), "build");
    assert_eq!(DependencyKind::Unknown.edges(), "all");
}

#[test]
fn key_of_a_package() {
    assert_eq!(key_of_package(&package("single-dep", "0.1.0")), "single-depv0.1.0");
    assert_eq!(key_of_package(&package("", "")), "v");
}

#[test]
fn key_of_a_line() {
    let key = |line: &str| -> Option<String> {
        key_of_line(&line.chars().collect()).map(|k| k.into_iter().collect())
    };
    assert_eq!(key("single-dep v0.1.0 (/ws/single-dep)"), Some("single-depv0.1.0".to_string()));
    assert_eq!(key("a b"), Some("ab".to_string()));
    assert_eq!(key(" \ta \t b\t"), Some("ab".to_string()));
    assert_eq!(key("single-dep"), None);
    assert_eq!(key("single-dep "), None);
    assert_eq!(key(""), None);
    assert_eq!(key("   "), None);
}

#[test]
fn same_package() {
    let a = package("a", "1.0.0");
    let mut b = package("a", "1.0.0");
    assert!(a.same(&b));
    b.version = "1.0.1".to_string();
    assert!(!a.same(&b));
    let mut c = package("a", "1.0.0");
    c.dependencies.push(clap_cargo_extra::Dependency {
        name: "x".to_string(),
        kind: DependencyKind::Build,
    });
    assert!(!a.same(&c));
    assert!(c.same(&c.clone()));
    let mut d = c.clone();
    d.dependencies[0].kind = DependencyKind::Normal;
    assert!(!c.same(&d));
}
