use powerpack::cargo::{
    binary_name, binary_names, build, init, metadata, Metadata, MetadataError, Mode, Package,
    Target,
};

fn strings(words: &[&str]) -> Vec<String> {
    words.iter().map(|w| w.to_string()).collect()
}

fn target(name: &str, kinds: &[&str]) -> Target {
    Target { name: name.to_string(), kinds: strings(kinds) }
}

fn package(name: &str, targets: Vec<Target>) -> Package {
    Package {
        name: name.to_string(),
        id: format!("{} 0.1.0 (path+file:///ws/{})", name, name),
        manifest_dir: format!("/ws/{}", name),
        targets,
    }
}

fn workspace() -> Vec<Package> {
    vec![
        package("serde", vec![target("serde", &["lib"])]),
        package(
            "weather",
            vec![
                target("weather", &["lib"]),
                target("weather-cli", &["bin"]),
                target("bench", &["bench"]),
                target("weather-update", &["bin"]),
                target("both", &["lib", "bin"]),
            ],
        ),
        package("weather", vec![target("shadow", &["bin"])]),
        package("tools", vec![target("build-script-build", &["custom-build"])]),
    ]
}

#[test]
fn mode_names_its_directory() {
    assert_eq!(Mode::Debug.dir(), "debug");
    assert_eq!(Mode::Release.dir(), "release");
}

#[test]
fn init_arguments() {
    assert_eq!(init("/tmp/wf", None), strings(&["init", "--bin", "/tmp/wf"]));
    assert_eq!(
        init("/tmp/wf", Some("weather")),
        strings(&["init", "--name", "weather", "--bin", "/tmp/wf"])
    );
    assert_eq!(init(".", Some("")), strings(&["init", "--name", "", "--bin", "."]));
}

#[test]
fn build_arguments() {
    assert_eq!(build(Mode::Debug, None, &vec![], None), strings(&["build"]));
    assert_eq!(build(Mode::Release, None, &vec![], None), strings(&["build", "--release"]));
    assert_eq!(
        build(Mode::Debug, Some("weather"), &vec![], None),
        strings(&["build", "--package", "weather"])
    );
    assert_eq!(
        build(Mode::Debug, None, &strings(&["a", "b"]), None),
        strings(&["build", "--bin", "a", "--bin", "b"])
    );
    assert_eq!(
        build(Mode::Debug, None, &vec![], Some("aarch64-apple-darwin")),
        strings(&["build", "--target", "aarch64-apple-darwin"])
    );
    assert_eq!(
        build(
            Mode::Release,
            Some("weather"),
            &strings(&["weather-cli", "weather-update", "weather-cli"]),
            Some("x86_64-apple-darwin")
        ),
        strings(&[
            "build",
            "--package",
            "weather",
            "--release",
            "--bin",
            "weather-cli",
            "--bin",
            "weather-update",
            "--bin",
            "weather-cli",
            "--target",
            "x86_64-apple-darwin",
        ])
    );
}

#[test]
fn binaries_are_the_targets_of_kind_bin() {
    assert_eq!(
        binary_names(&workspace()[1].targets),
        strings(&["weather-cli", "weather-update", "both"])
    );
    assert_eq!(binary_names(&workspace()[0].targets), Vec::<String>::new());
    assert_eq!(binary_names(&vec![]), Vec::<String>::new());
    assert!(target("x", &["lib", "bin"]).binary());
    assert!(!target("x", &["lib", "binary"]).binary());
    assert!(!target("x", &[]).binary());
}

#[test]
fn metadata_picks_the_package_by_name() {
    let picked = metadata(&workspace(), &None, "/ws", "/ws/target", Some("weather"));
    assert_eq!(
        picked,
        Ok(Metadata {
            workspace_dir: "/ws".to_string(),
            manifest_dir: "/ws/weather".to_string(),
            target_dir: "/ws/target".to_string(),
            package_name: "weather".to_string(),
            binary_names: strings(&["weather-cli", "weather-update", "both"]),
        })
    );
    let picked = metadata(&workspace(), &None, "/ws", "/ws/target", Some("tools")).unwrap();
    assert_eq!(picked.package_name, "tools");
    assert_eq!(picked.binary_names, Vec::<String>::new());
}

#[test]
fn metadata_picks_the_root_package() {
    let packages = workspace();
    let root = Some(packages[3].id.clone());
    let picked = metadata(&packages, &root, "/ws", "/ws/target", None).unwrap();
    assert_eq!(picked.package_name, "tools");
    assert_eq!(picked.manifest_dir, "/ws/tools");
    // A name counts before the root.
    let picked = metadata(&packages, &root, "/ws", "/ws/target", Some("serde")).unwrap();
    assert_eq!(picked.package_name, "serde");
}

#[test]
fn metadata_says_which_package_is_missing() {
    let packages = workspace();
    assert_eq!(
        metadata(&packages, &None, "/ws", "/t", Some("nope")),
        Err(MetadataError::PackageNotFound)
    );
    assert_eq!(metadata(&packages, &None, "/ws", "/t", None), Err(MetadataError::NoRootPackage));
    assert_eq!(
        metadata(&packages, &Some("unknown id".to_string()), "/ws", "/t", None),
        Err(MetadataError::NoRootPackage)
    );
    assert_eq!(
        metadata(&vec![], &Some("id".to_string()), "/ws", "/t", Some("weather")),
        Err(MetadataError::PackageNotFound)
    );
}

#[test]
fn binary_name_is_the_first_binary_of_the_root() {
    let packages = workspace();
    assert_eq!(
        binary_name(&packages, &Some(packages[1].id.clone())),
        Ok("weather-cli".to_string())
    );
    assert_eq!(
        binary_name(&packages, &Some(packages[0].id.clone())),
        Err(MetadataError::NoBinary)
    );
    assert_eq!(binary_name(&packages, &None), Err(MetadataError::NoRootPackage));
    assert_eq!(
        binary_name(&packages, &Some("elsewhere".to_string())),
        Err(MetadataError::NoRootPackage)
    );
}
