use clap_vergen::VergenInfo;
use clap_vergen::Version;

fn sample() -> VergenInfo {
    VergenInfo {
        build_timestamp: "2021-02-23T20:14:46.558472672+00:00".to_string(),
        build_semver: "0.1.0-9-g46f83e1".to_string(),
        rustc_channel: "nightly".to_string(),
        rustc_commit_date: "2021-02-24".to_string(),
        rustc_commit_hash: "3f5aee2d5241139d808f4fdece0026603489afd1".to_string(),
        rustc_host_triple: "x86_64-unknown-linux-gnu".to_string(),
        rustc_llvm_version: "11.0".to_string(),
        rustc_semver: "1.52.0-nightly".to_string(),
        cargo_features: "git,build".to_string(),
        cargo_profile: "release".to_string(),
        cargo_target_triple: "x86_64-unknown-linux-musl".to_string(),
        sysinfo_name: "Manjaro Linux".to_string(),
        sysinfo_os_version: "Linux Manjaro Linux".to_string(),
        sysinfo_user: "Yoda".to_string(),
        sysinfo_total_memory: "33 GB".to_string(),
        sysinfo_cpu_vendor: "Authentic AMD".to_string(),
        sysinfo_cpu_core_count: "8".to_string(),
        sysinfo_cpu_name: "cpu0,cpu1,cpu2,cpu3,cpu4,cpu5,cpu6,cpu7".to_string(),
        sysinfo_cpu_brand: "AMD Ryzen Threadripper 1900X 8-Core Processor".to_string(),
        sysinfo_cpu_frequency: "3792".to_string(),
        git_branch: "master".to_string(),
        git_commit_timestamp: "2021-02-23T08:08:02-05:00".to_string(),
        git_semver: "5.0.0-2-gf49246c".to_string(),
        git_sha: "46f83e112520533338245862d366f6a02cef07d4".to_string(),
    }
}

/// The command line of a program with the one subcommand `version`.
fn command() -> clap::Command<'static> {
    clap::Command::new("cli")
        .subcommand_required(true)
        .subcommand(
            clap::Command::new("version").arg(
                clap::Arg::new("json")
                    .long("json")
                    .action(clap::ArgAction::SetTrue),
            ),
        )
}

fn parse(arguments: &[&str]) -> Result<Version, clap::Error> {
    let matches = command().try_get_matches_from(arguments)?;
    let (name, given) = matches.subcommand().unwrap();
    assert_eq!(name, "version");
    Ok(Version {
        json: given.get_flag("json"),
    })
}

#[test]
fn verify_app() {
    command().debug_assert()
}

#[test]
fn without_the_flag_the_table_is_chosen() {
    let info = sample();
    let text = Version { json: false }.render(&info).unwrap();
    assert_eq!(text, info.to_string());
    assert!(text.starts_with("Build Timestamp:     "));
    assert!(!text.contains('{'));
    assert_eq!(text.lines().count(), 11);
}

#[test]
fn with_the_flag_the_structured_form_is_chosen() {
    let info = sample();
    let text = Version { json: true }.render(&info).unwrap();
    assert_eq!(text, info.to_json().unwrap());
    assert!(text.starts_with("{\n  \"build_timestamp\": "));
    assert!(text.ends_with("\n}"));
    assert!(!text.contains("Build Timestamp:"));
}

#[test]
fn the_two_renderings_differ() {
    let info = sample();
    let table = Version { json: false }.render(&info).unwrap();
    let structured = Version { json: true }.render(&info).unwrap();
    assert_ne!(table, structured);
}

#[test]
fn version_is_copied_with_its_flag() {
    let version = Version { json: true };
    let copy = version;
    assert!(copy.json);
    assert!(version.clone().json);
}

#[test]
fn flag_absent_is_accepted() {
    let version = parse(&["cli", "version"]).unwrap();
    assert!(!version.json);
    assert_eq!(version.render(&sample()).unwrap(), sample().to_string());
}

#[test]
fn flag_present_is_accepted() {
    let version = parse(&["cli", "version", "--json"]).unwrap();
    assert!(version.json);
    assert_eq!(
        version.render(&sample()).unwrap(),
        sample().to_json().unwrap()
    );
}

#[test]
fn unknown_flag_is_rejected_with_usage() {
    let refusal = parse(&["cli", "version", "--yaml"]).unwrap_err();
    assert_eq!(refusal.kind(), clap::ErrorKind::UnknownArgument);
    assert!(refusal.use_stderr());
    assert!(refusal.to_string().contains("USAGE"));
}

#[test]
fn by_default_the_table_is_chosen() {
    let version = Version::default();
    assert!(!version.json);
    assert_eq!(version.render(&sample()).unwrap(), sample().to_string());
}
