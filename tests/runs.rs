use brew_ops::commands::{
    cleanup_homebrew, info_args, install_package, list_args, pin_package, search_args,
    uninstall_package, update_homebrew, upgrade_all, upgrade_package,
};
use brew_ops::model::{
    CaskInfo, CommandOutput, FormulaInfo, InfoReport, OutdatedCask, OutdatedFormula,
    OutdatedReport,
};
use brew_ops::process::{
    cache_path, check_homebrew, execute_brew_command, get_directory_size, get_homebrew_info,
    parse_u64, select_brew_path, RawOutput,
};
use brew_ops::progress::{spawn_failed, ExitState, ProgressRelay, StreamKind};
use brew_ops::reports::{get_outdated, get_package_info};

fn raw(success: bool, stdout: &[u8]) -> RawOutput {
    RawOutput { success, code: Some(if success { 0 } else { 1 }), stdout: stdout.to_vec(), stderr: vec![] }
}

fn ok() -> Result<CommandOutput, String> {
    Ok(CommandOutput { success: true, stdout: "{}".to_string(), stderr: String::new(), exit_code: 0 })
}

fn failed(stderr: &str) -> Result<CommandOutput, String> {
    Ok(CommandOutput { success: false, stdout: String::new(), stderr: stderr.to_string(), exit_code: 1 })
}

fn report() -> OutdatedReport {
    OutdatedReport {
        formulae: vec![
            OutdatedFormula {
                name: "git".into(),
                installed_versions: vec!["2.43.0".into(), "2.42.0".into()],
                current_version: "2.44.0".into(),
            },
            OutdatedFormula { name: "bare".into(), installed_versions: vec![], current_version: "3".into() },
        ],
        casks: vec![OutdatedCask {
            name: "firefox".into(),
            installed_versions: "123.0".into(),
            current_version: "124.0".into(),
        }],
    }
}

fn formula() -> FormulaInfo {
    FormulaInfo {
        name: "wget".into(),
        full_name: "homebrew/core/wget".into(),
        desc: Some("Internet file retriever".into()),
        homepage: None,
        stable_version: Some("1.24.5".into()),
        installed_versions: vec!["1.24.5".into()],
        outdated: false,
        dependencies: Some(vec!["openssl@3".into()]),
    }
}

fn cask() -> CaskInfo {
    CaskInfo {
        token: "firefox".into(),
        full_token: "homebrew/cask/firefox".into(),
        desc: None,
        homepage: Some("https://www.mozilla.org/firefox/".into()),
        version: "124.0".into(),
        installed: None,
        outdated: true,
    }
}

#[test]
fn outdated_report_converted() {
    let r = get_outdated(ok(), Ok(report())).unwrap();
    assert_eq!(r.len(), 3);
    assert_eq!((r[0].name.as_str(), r[0].current_version.as_str()), ("git", "2.43.0"));
    assert_eq!(r[0].latest_version, "2.44.0");
    assert_eq!(r[0].pkg_type, "formula");
    assert_eq!(r[1].current_version, "");
    assert_eq!((r[2].name.as_str(), r[2].current_version.as_str()), ("firefox", "123.0"));
    assert_eq!(r[2].pkg_type, "cask");
}

#[test]
fn outdated_failures() {
    assert!(get_outdated(failed("x"), Err("unused".into())).unwrap().is_empty());
    let e = get_outdated(ok(), Err("EOF while parsing".into())).unwrap_err();
    assert_eq!(e, "Failed to parse outdated JSON: EOF while parsing");
    assert_eq!(get_outdated(Err("spawn".into()), Ok(report())).unwrap_err(), "spawn");
}

#[test]
fn package_info_of_formula_and_cask() {
    let rep = InfoReport { formulae: vec![formula()], casks: vec![cask()] };
    let f = get_package_info(false, ok(), Ok(rep)).unwrap();
    assert_eq!(f.name, "wget");
    assert_eq!(f.version, "1.24.5");
    assert_eq!(f.pkg_type, "formula");
    assert_eq!(f.description, "Internet file retriever");
    assert_eq!(f.homepage, "");
    assert!(f.installed);
    assert_eq!(f.installed_version.as_deref(), Some("1.24.5"));
    assert_eq!(f.dependencies, vec!["openssl@3"]);
    assert!(f.install_path.is_none());
    let rep = InfoReport { formulae: vec![formula()], casks: vec![cask()] };
    let c = get_package_info(true, ok(), Ok(rep)).unwrap();
    assert_eq!(c.name, "firefox");
    assert_eq!(c.full_name, "homebrew/cask/firefox");
    assert_eq!(c.pkg_type, "cask");
    assert!(!c.installed && c.installed_version.is_none() && c.outdated);
    assert!(c.dependencies.is_empty());
}

#[test]
fn package_info_failures() {
    let e = get_package_info(false, failed("Error: No available formula"), Err("x".into())).unwrap_err();
    assert_eq!(e, "Failed to get package info: Error: No available formula");
    let e = get_package_info(true, ok(), Err("bad json".into())).unwrap_err();
    assert_eq!(e, "Failed to parse info JSON: bad json");
    let only_formula = InfoReport { formulae: vec![formula()], casks: vec![] };
    assert_eq!(get_package_info(true, ok(), Ok(only_formula)).unwrap_err(), "Package not found");
    assert_eq!(get_package_info(false, Err("spawn".into()), Err("x".into())).unwrap_err(), "spawn");
}

#[test]
fn relay_one_event_per_line_in_order() {
    let mut relay = ProgressRelay::new("wget".to_string());
    let mut events = Vec::new();
    for l in ["==> Fetching wget", "==> Pouring"] {
        events.push(relay.on_line(StreamKind::Stdout, l.to_string()));
    }
    events.push(relay.on_line(StreamKind::Stderr, "Warning: x".to_string()));
    assert_eq!(events.len(), 3);
    assert_eq!(events[0].line, "==> Fetching wget");
    assert_eq!(events[1].line, "==> Pouring");
    assert_eq!(events[2].stream, StreamKind::Stderr);
    assert!(events.iter().all(|e| e.package == "wget"));
    assert_eq!(events[0].stream.name(), "stdout");
    let out = relay.finish(Ok(ExitState { success: true, code: Some(0) })).unwrap();
    assert_eq!(out.stdout, "==> Fetching wget\n==> Pouring\n");
    assert_eq!(out.stderr, "Warning: x\n");
    assert!(out.success);
    assert_eq!(out.exit_code, 0);
}

#[test]
fn relay_finish_errors_and_signals() {
    let relay = ProgressRelay::new("p".to_string());
    let e = relay.finish(Err("interrupted".into())).unwrap_err();
    assert_eq!(e, "Failed to wait for command: interrupted");
    let relay = ProgressRelay::new("p".to_string());
    let out = relay.finish(Ok(ExitState { success: false, code: None })).unwrap();
    assert_eq!(out.exit_code, -1);
    assert_eq!(spawn_failed("nope".into()), "Failed to spawn brew command: nope");
}

#[test]
fn blocking_run_record() {
    let r = execute_brew_command(Ok(RawOutput {
        success: false,
        code: Some(2),
        stdout: b"caf\xc3\xa9 \xff".to_vec(),
        stderr: b"err".to_vec(),
    }))
    .unwrap();
    assert!(!r.success);
    assert_eq!(r.exit_code, 2);
    assert_eq!(r.stdout, "caf\u{e9} \u{fffd}");
    assert_eq!(r.stderr, "err");
    let e = execute_brew_command(Err("No such file".into())).unwrap_err();
    assert_eq!(e, "Failed to execute brew command: No such file");
}

#[test]
fn homebrew_check() {
    assert!(check_homebrew(Ok(raw(true, b"Homebrew 4.2.0\n"))).unwrap());
    assert!(!check_homebrew(Ok(raw(false, b""))).unwrap());
    assert!(!check_homebrew(Err("missing".into())).unwrap());
}

#[test]
fn brew_path_choice() {
    assert_eq!(select_brew_path(&vec![true, true, true]), "/opt/homebrew/bin/brew");
    assert_eq!(select_brew_path(&vec![false, true]), "/usr/local/bin/brew");
    assert_eq!(select_brew_path(&vec![false, false, false]), "brew");
    assert_eq!(select_brew_path(&vec![]), "brew");
}

#[test]
fn number_parsing() {
    let p = |s: &str| parse_u64(&s.chars().collect::<Vec<_>>());
    assert_eq!(p("1234"), Some(1234));
    assert_eq!(p("+7"), Some(7));
    assert_eq!(p("18446744073709551615"), Some(u64::MAX));
    assert_eq!(p("18446744073709551616"), None);
    assert_eq!(p(""), None);
    assert_eq!(p("+"), None);
    assert_eq!(p("-1"), None);
    assert_eq!(p("12a"), None);
}

#[test]
fn directory_size_from_du() {
    assert_eq!(get_directory_size(Ok(raw(true, b"1234\t/cache\n"))).unwrap(), 1234 * 1024);
    assert_eq!(get_directory_size(Ok(raw(true, b"junk /cache\n"))).unwrap(), 0);
    assert_eq!(get_directory_size(Ok(raw(false, b"5 /cache\n"))).unwrap(), 0);
    assert_eq!(get_directory_size(Ok(raw(true, b"18014398509481984 /x"))).unwrap(), u64::MAX);
    let e = get_directory_size(Err("no du".into())).unwrap_err();
    assert_eq!(e, "Failed to get directory size: no du");
}

#[test]
fn homebrew_info_from_runs() {
    let cache = raw(true, b"  /Users/me/Library/Caches/Homebrew\n");
    assert_eq!(cache_path(&cache), "/Users/me/Library/Caches/Homebrew");
    let info = get_homebrew_info(
        Ok(raw(true, b"Homebrew 4.2.0\nHomebrew/homebrew-core (git revision 1)\n")),
        Ok(cache),
        Some(Ok(raw(true, b"10\t/Users/me/Library/Caches/Homebrew\n"))),
    )
    .unwrap();
    assert_eq!(info.version, "Homebrew 4.2.0");
    assert_eq!(info.cache_path, "/Users/me/Library/Caches/Homebrew");
    assert_eq!(info.cache_size, 10240);
    let info = get_homebrew_info(Ok(raw(true, b"")), Ok(raw(true, b"\n")), Some(Ok(raw(true, b"9 x")))).unwrap();
    assert_eq!(info.version, "Unknown");
    assert_eq!(info.cache_path, "");
    assert_eq!(info.cache_size, 0);
    let e = get_homebrew_info(Err("v".into()), Err("c".into()), None).unwrap_err();
    assert_eq!(e, "Failed to get version: v");
    let e = get_homebrew_info(Ok(raw(true, b"")), Err("c".into()), None).unwrap_err();
    assert_eq!(e, "Failed to get cache path: c");
}

#[test]
fn argument_lists() {
    assert_eq!(list_args(true), vec!["list", "--cask", "--versions"]);
    assert_eq!(info_args("wget", false), vec!["info", "--json=v2", "wget"]);
    assert_eq!(info_args("firefox", true), vec!["info", "--cask", "--json=v2", "firefox"]);
    assert_eq!(search_args(&" ".to_string()), None);
    assert_eq!(search_args(&"jq".to_string()), Some(vec!["search".to_string(), "jq".to_string()]));
    assert_eq!(pin_package("node"), vec!["pin", "node"]);
    let c = install_package(&"firefox".to_string(), true);
    assert_eq!(c.args, vec!["install", "--cask", "firefox"]);
    assert_eq!(c.package, "firefox");
    assert_eq!(uninstall_package(&"jq".to_string(), false).args, vec!["uninstall", "jq"]);
    assert_eq!(upgrade_package(&"jq".to_string(), false).args, vec!["upgrade", "jq"]);
    assert_eq!(update_homebrew().package, "homebrew");
    assert_eq!(cleanup_homebrew().args, vec!["cleanup", "--prune=all"]);
    let all = upgrade_all();
    assert_eq!((all.args, all.package), (vec!["upgrade".to_string()], "all".to_string()));
}
