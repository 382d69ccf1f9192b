use clap_cargo_extra::{
    Args, CargoBin, CargoBuild, ClapCargo, Features, Manifest, Merge, Workspace,
};

fn custom() -> Option<String> {
    Some("custom".to_string())
}

fn strings(items: &[&str]) -> Vec<String> {
    items.iter().map(|s| s.to_string()).collect()
}

const WASM32_UNKNOWN_UNKNOWN: &str = "wasm32-unknown-unknown";

/// What `--release` sets.
fn release_args() -> ClapCargo {
    let mut args = ClapCargo::default();
    args.cargo_build.release = true;
    args
}

/// What `--profile custom` sets.
fn profile_args() -> ClapCargo {
    let mut args = ClapCargo::default();
    args.cargo_build.profile = custom();
    args
}

#[test]
fn build_release() {
    let args = release_args();
    assert_eq!(args.cargo_build.release, true);
    assert_eq!(args.cargo_build.to_args(), strings(&["--release"]));
    assert_eq!(args.cargo_build.profile(), "release");
}

#[test]
fn build_profile() {
    let args = profile_args();
    let custom = custom();
    assert_eq!(args.cargo_build.profile, custom);
    let mut build = CargoBuild::default();
    build.profile = custom;
    assert_eq!(args.cargo_build, build);
    assert_eq!(build.to_args(), strings(&["--profile", "custom"]));
    assert_eq!(build.profile(), "custom");
}

#[test]
fn build_profile_and_release() {
    let mut args = profile_args();
    args.cargo_build.release = true;
    let custom = custom();
    assert_eq!(args.cargo_build.release, true);
    assert_eq!(args.cargo_build.profile, custom);
    let mut build = CargoBuild::default();
    build.profile = custom;
    build.release = true;
    assert_eq!(args.cargo_build, build);
    assert_eq!(build.to_args(), strings(&["--release", "--profile", "custom"]));
    assert_eq!(build.profile(), "custom");
}

#[test]
fn build_profile_and_release_merge() {
    let mut args = profile_args();
    let args2 = release_args();
    args.merge(args2);
    let custom = custom();
    assert_eq!(args.cargo_build.release, true);
    assert_eq!(args.cargo_build.profile, custom);
    let mut build = CargoBuild::default();
    build.profile = custom;
    build.release = true;
    assert_eq!(args.cargo_build, build);
}

#[test]
fn build_release_and_profile_merge() {
    let mut args = release_args();
    args.merge(profile_args());
    assert_eq!(args.cargo_build.release, true);
    assert_eq!(args.cargo_build.profile, custom());
    assert_eq!(args.to_args(), strings(&["--release", "--profile", "custom"]));
}

#[test]
fn build_target() {
    let mut args = ClapCargo::default();
    args.cargo_build.target = Some(WASM32_UNKNOWN_UNKNOWN.to_string());
    let target = Some(WASM32_UNKNOWN_UNKNOWN.to_string());
    assert_eq!(args.cargo_build.target, target);
    let mut build = CargoBuild::default();
    build.target = target;
    assert_eq!(args.cargo_build, build);
    assert_eq!(build.to_args(), strings(&["--target", "wasm32-unknown-unknown"]));
}

#[test]
fn slop() {
    let slop = vec!["--flag", "--extra_arg", "test"];
    let mut args = ClapCargo::default();
    args.slop = strings(&slop);
    assert_eq!(args.slop, slop);
    let mut clap_cargo = ClapCargo::default();
    clap_cargo.slop = slop.iter().map(|s| s.to_string()).collect();
    assert_eq!(args, clap_cargo);
    assert_eq!(args.to_args(), Vec::<String>::new());
}

#[test]
fn build_defaults() {
    let build = CargoBuild::default();
    assert_eq!(build.optimize, false);
    assert_eq!(build.target, None);
    assert_eq!(build.all_targets, false);
    assert_eq!(build.link_args, false);
    assert_eq!(build.release, false);
    assert_eq!(build.profile, None);
    assert_eq!(build.to_args(), Vec::<String>::new());
    assert_eq!(build.profile(), "debug");
    assert_eq!(build.release_or_debug(), "debug");
}

#[test]
fn build_all_flags_in_order() {
    let mut build = CargoBuild::default();
    build.optimize = true;
    build.target = Some("x86_64-unknown-linux-gnu".to_string());
    build.all_targets = true;
    build.link_args = true;
    build.release = true;
    build.profile = Some("small".to_string());
    assert_eq!(
        build.to_args(),
        strings(&[
            "-Z=build-std=std,panic_abort",
            "-Z=build-std-features=panic_immediate_abort",
            "--target",
            "x86_64-unknown-linux-gnu",
            "--all-targets",
            "--release",
            "--profile",
            "small",
        ])
    );
    assert_eq!(build.release_or_debug(), "release");
}

#[test]
fn build_link_args_has_no_token() {
    let mut build = CargoBuild::default();
    build.link_args = true;
    assert_eq!(build.to_args(), Vec::<String>::new());
}

#[test]
fn build_merge_keeps_own_values() {
    let mut a = CargoBuild::default();
    a.target = Some("a-target".to_string());
    a.all_targets = true;
    let mut b = CargoBuild::default();
    b.target = Some("b-target".to_string());
    b.profile = Some("b-profile".to_string());
    b.optimize = true;
    b.link_args = true;
    a.merge(b);
    assert_eq!(a.target, Some("a-target".to_string()));
    assert_eq!(a.profile, Some("b-profile".to_string()));
    assert_eq!(a.optimize, true);
    assert_eq!(a.all_targets, true);
    assert_eq!(a.link_args, true);
    assert_eq!(a.release, false);
}

#[test]
fn features_to_args() {
    let features = Features::default();
    assert_eq!(features.to_args(), Vec::<String>::new());

    let mut features = Features::default();
    features.all_features = true;
    features.features = strings(&["serde", "std"]);
    assert_eq!(features.to_args(), strings(&["--all-features", "--features", "serde std"]));

    let mut features = Features::default();
    features.no_default_features = true;
    features.features = strings(&["alloc"]);
    assert_eq!(features.to_args(), strings(&["--no-default-features", "--features", "alloc"]));

    let mut features = Features::default();
    features.all_features = true;
    features.no_default_features = true;
    assert_eq!(features.to_args(), strings(&["--all-features", "--no-default-features"]));
}

#[test]
fn features_merge_concatenates() {
    let mut a = Features::default();
    a.features = strings(&["one", "two"]);
    a.no_default_features = true;
    let mut b = Features::default();
    b.features = strings(&["two", "three"]);
    b.all_features = true;
    a.merge(b);
    assert_eq!(a.features, strings(&["one", "two", "two", "three"]));
    assert_eq!(a.all_features, true);
    assert_eq!(a.no_default_features, true);
    assert_eq!(
        a.to_args(),
        strings(&["--all-features", "--no-default-features", "--features", "one two two three"])
    );
}

#[test]
fn manifest_to_args_and_merge() {
    let mut a = Manifest::default();
    assert_eq!(a.to_args(), Vec::<String>::new());
    let mut b = Manifest::default();
    b.manifest_path = Some("b/Cargo.toml".to_string());
    a.merge(b.clone());
    assert_eq!(a.manifest_path, Some("b/Cargo.toml".to_string()));
    assert_eq!(a.to_args(), strings(&["--manifest-path", "b/Cargo.toml"]));

    let mut c = Manifest::default();
    c.manifest_path = Some("c/Cargo.toml".to_string());
    c.merge(b);
    assert_eq!(c.manifest_path, Some("c/Cargo.toml".to_string()));
}

#[test]
fn workspace_to_args() {
    let workspace = Workspace::default();
    assert_eq!(workspace.to_args(), Vec::<String>::new());

    let mut workspace = Workspace::default();
    workspace.all = true;
    assert_eq!(workspace.to_args(), strings(&["--workspace"]));

    let mut workspace = Workspace::default();
    workspace.workspace = true;
    workspace.all = true;
    workspace.package = strings(&["first", "second"]);
    workspace.exclude = strings(&["third"]);
    assert_eq!(
        workspace.to_args(),
        strings(&[
            "--workspace",
            "--package",
            "first",
            "--package",
            "second",
            "--exclude",
            "third",
        ])
    );
}

#[test]
fn workspace_merge_concatenates() {
    let mut a = Workspace::default();
    a.package = strings(&["left"]);
    a.exclude = strings(&["old"]);
    let mut b = Workspace::default();
    b.package = strings(&["left", "right"]);
    b.exclude = strings(&["new"]);
    b.workspace = true;
    a.merge(b);
    assert_eq!(a.package, strings(&["left", "left", "right"]));
    assert_eq!(a.exclude, strings(&["old", "new"]));
    assert_eq!(a.workspace, true);
    assert_eq!(a.all, false);
}

#[test]
fn cargo_bin_channel() {
    let bin = CargoBin::default();
    assert_eq!(bin.channel(), "stable");
    assert_eq!(bin.to_args(), Vec::<String>::new());

    assert_eq!(bin.explicit_channel(), None);

    let bin = CargoBin::new(Some("beta".to_string()));
    assert_eq!(bin.channel(), "beta");
    assert_eq!(bin.explicit_channel(), Some("beta"));
    assert_eq!(bin.to_args(), strings(&["--channel", "beta"]));
    assert_eq!(CargoBin::new(None), CargoBin::default());
}

#[test]
fn cargo_bin_merge() {
    let mut a = CargoBin::default();
    a.merge(CargoBin::new(Some("nightly".to_string())));
    assert_eq!(a.channel(), "nightly");
    a.merge(CargoBin::new(Some("beta".to_string())));
    assert_eq!(a.channel(), "nightly");
    a.merge(CargoBin::default());
    assert_eq!(a.channel(), "nightly");
}

#[test]
fn cargo_bin_bin() {
    let bin = CargoBin::default();
    assert_eq!(bin.bin(None), "cargo");
    assert_eq!(bin.bin(Some("/opt/bin/cargo-next".to_string())), "/opt/bin/cargo-next");
}

#[test]
fn aggregate_to_args_order() {
    let mut args = ClapCargo::default();
    args.manifest.manifest_path = Some("/ws/Cargo.toml".to_string());
    args.cargo_build.release = true;
    args.features.features = strings(&["a", "b"]);
    args.workspace.package = strings(&["member"]);
    args.cargo_bin = CargoBin::new(Some("nightly".to_string()));
    args.slop = strings(&["--nocapture"]);
    assert_eq!(
        args.to_args(),
        strings(&[
            "--package",
            "member",
            "--features",
            "a b",
            "--release",
            "--manifest-path",
            "/ws/Cargo.toml",
        ])
    );
}

#[test]
fn aggregate_to_args_is_repeatable() {
    let mut a = ClapCargo::default();
    a.cargo_build.target = Some(WASM32_UNKNOWN_UNKNOWN.to_string());
    a.workspace.workspace = true;
    let b = a.clone();
    assert_eq!(a.to_args(), a.to_args());
    assert_eq!(a.to_args(), b.to_args());
}

#[test]
fn aggregate_merge() {
    let mut a = ClapCargo::default();
    a.slop = strings(&["--one"]);
    a.features.features = strings(&["first"]);
    a.manifest.manifest_path = Some("a.toml".to_string());
    let mut b = ClapCargo::default();
    b.slop = strings(&["--one", "--two"]);
    b.features.features = strings(&["second"]);
    b.manifest.manifest_path = Some("b.toml".to_string());
    b.cargo_bin = CargoBin::new(Some("beta".to_string()));
    b.cargo_build.target = Some("t".to_string());
    b.workspace.exclude = strings(&["x"]);
    b.workspace.all = true;
    a.merge(b);
    assert_eq!(a.slop, strings(&["--one", "--one", "--two"]));
    assert_eq!(a.features.features, strings(&["first", "second"]));
    assert_eq!(a.manifest.manifest_path, Some("a.toml".to_string()));
    assert_eq!(a.cargo_bin.channel(), "beta");
    assert_eq!(a.cargo_build.target, Some("t".to_string()));
    assert_eq!(a.workspace.exclude, strings(&["x"]));
    assert_eq!(a.workspace.all, true);
}

#[test]
fn merge_with_default_changes_nothing() {
    let mut a = ClapCargo::default();
    a.cargo_build.profile = custom();
    a.workspace.package = strings(&["p"]);
    a.slop = strings(&["x"]);
    let before = a.clone();
    a.merge(ClapCargo::default());
    assert_eq!(a, before);
}
