use clap_cargo_extra::{CargoBin, ClapCargo, CommandLine, Features, ToCmd};

fn strings(items: &[&str]) -> Vec<String> {
    items.iter().map(|s| s.to_string()).collect()
}

#[test]
fn cargo_cmd_default() {
    let c = ClapCargo::default();
    let cmd = c.cargo_cmd(None);
    assert_eq!(cmd.program, "cargo");
    assert_eq!(cmd.args, strings(&["+stable"]));
    assert!(cmd.envs.is_empty());
}

#[test]
fn cargo_cmd_channel() {
    let mut c = ClapCargo::default();
    c.cargo_bin = CargoBin::new(Some("beta".to_string()));
    assert_eq!(c.channel(), "beta");
    assert_eq!(c.cargo_cmd(None).args, strings(&["+beta"]));
}

#[test]
fn cargo_cmd_optimize() {
    let mut c = ClapCargo::default();
    c.cargo_bin = CargoBin::new(Some("beta".to_string()));
    c.cargo_build.optimize = true;
    assert_eq!(c.channel(), "nightly");
    let cmd = c.cargo_cmd(None);
    assert_eq!(cmd.args, strings(&["+nightly"]));
    assert_eq!(cmd.envs, vec![("RUSTFLAGS".to_string(), "-C link-args=-s".to_string())]);
}

#[test]
fn cargo_cmd_link_args() {
    let mut c = ClapCargo::default();
    c.cargo_build.link_args = true;
    let cmd = c.cargo_cmd(None);
    assert_eq!(cmd.args, strings(&["+stable"]));
    assert_eq!(cmd.envs, vec![("RUSTFLAGS".to_string(), "-C link-args=-s".to_string())]);
}

#[test]
fn cargo_cmd_other_binary() {
    let c = ClapCargo::default();
    let cmd = c.cargo_cmd(Some("/usr/local/bin/cargo".to_string()));
    assert_eq!(cmd.program, "/usr/local/bin/cargo");
    assert_eq!(cmd.args, Vec::<String>::new());
}

#[test]
fn cargo_cmd_binary_in_another_case() {
    let c = ClapCargo::default();
    let cmd = c.cargo_cmd(Some("CaRGO".to_string()));
    assert_eq!(cmd.program, "CaRGO");
    assert_eq!(cmd.args, strings(&["+stable"]));
    assert_eq!(c.cargo_cmd(Some("cargot".to_string())).args, Vec::<String>::new());
    assert_eq!(c.cargo_cmd(Some("carg".to_string())).args, Vec::<String>::new());
    assert_eq!(c.cargo_cmd(Some("c\u{e1}rgo".to_string())).args, Vec::<String>::new());
}

#[test]
fn build_cmd_appends_tokens_and_slop() {
    let mut c = ClapCargo::default();
    c.cargo_build.release = true;
    c.workspace.workspace = true;
    c.slop = strings(&["--flag", "--extra_arg", "test"]);
    let cmd = c.build_cmd(None);
    assert_eq!(cmd.program, "cargo");
    assert_eq!(
        cmd.args,
        strings(&[
            "+stable",
            "build",
            "--workspace",
            "--release",
            "--",
            "--flag",
            "--extra_arg",
            "test",
        ])
    );
}

#[test]
fn build_cmd_without_slop() {
    let mut c = ClapCargo::default();
    c.manifest.manifest_path = Some("Cargo.toml".to_string());
    let cmd = c.build_cmd(Some("xargo".to_string()));
    assert_eq!(cmd.program, "xargo");
    assert_eq!(cmd.args, strings(&["build", "--manifest-path", "Cargo.toml"]));
}

#[test]
fn add_args_to_cmd_keeps_what_is_there() {
    let mut c = ClapCargo::default();
    c.cargo_build.all_targets = true;
    let mut cmd = CommandLine::new("cargo".to_string());
    cmd.arg("check".to_string());
    c.add_args_to_cmd(&mut cmd);
    assert_eq!(cmd.args, strings(&["check", "--all-targets"]));
    c.add_cargo_args(&mut cmd);
    assert_eq!(cmd.args, strings(&["check", "--all-targets", "--all-targets"]));
}

#[test]
fn to_cmd_adds_the_tokens_of_a_group() {
    let mut features = Features::default();
    features.all_features = true;
    let mut cmd = CommandLine::new("cargo".to_string());
    cmd.env("A".to_string(), "1".to_string());
    cmd.args(strings(&["test"]));
    features.add_args(&mut cmd);
    assert_eq!(cmd.program, "cargo");
    assert_eq!(cmd.args, strings(&["test", "--all-features"]));
    assert_eq!(cmd.envs, vec![("A".to_string(), "1".to_string())]);
}
