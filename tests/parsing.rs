use brew_ops::listing::{get_dependencies, get_pinned, list_installed, parse_listing};
use brew_ops::model::{CommandOutput, OutdatedPackage, Package};
use brew_ops::search::{parse_search, search_packages};
use brew_ops::text::{lines, trimmed, words};

fn ok(stdout: &str) -> Result<CommandOutput, String> {
    Ok(CommandOutput {
        success: true,
        stdout: stdout.to_string(),
        stderr: String::new(),
        exit_code: 0,
    })
}

fn failed(stderr: &str) -> Result<CommandOutput, String> {
    Ok(CommandOutput {
        success: false,
        stdout: String::new(),
        stderr: stderr.to_string(),
        exit_code: 1,
    })
}

fn outdated(name: &str) -> OutdatedPackage {
    OutdatedPackage {
        name: name.to_string(),
        current_version: "1".to_string(),
        latest_version: "2".to_string(),
        pkg_type: "formula".to_string(),
    }
}

fn chars(s: &str) -> Vec<char> {
    s.chars().collect()
}

fn strings(v: Vec<Vec<char>>) -> Vec<String> {
    v.into_iter().map(|l| l.into_iter().collect()).collect()
}

fn names(v: &[Package]) -> Vec<&str> {
    v.iter().map(|p| p.name.as_str()).collect()
}

#[test]
fn lines_split_like_str_lines() {
    assert_eq!(strings(lines(&chars("a\r\nb\n\nc"))), vec!["a", "b", "", "c"]);
    assert_eq!(strings(lines(&chars("x\n"))), vec!["x"]);
    assert!(lines(&chars("")).is_empty());
    assert_eq!(strings(lines(&chars("\n"))), vec![""]);
    assert_eq!(strings(lines(&chars("end\r"))), vec!["end\r"]);
}

#[test]
fn words_and_trim() {
    assert_eq!(strings(words(&chars("  git\t2.44.0  x "))), vec!["git", "2.44.0", "x"]);
    assert!(words(&chars(" \t ")).is_empty());
    let t: String = trimmed(&chars("\u{a0} ==> Casks \t")).into_iter().collect();
    assert_eq!(t, "==> Casks");
    assert!(trimmed(&chars("   ")).is_empty());
}

#[test]
fn listing_reads_name_and_version() {
    let p = parse_listing(&"git 2.44.0\nwget 1.21 1.20\n\nlonely\n".to_string(), false);
    assert_eq!(names(&p), vec!["git", "wget", "lonely"]);
    assert_eq!(p[0].version, "2.44.0");
    assert_eq!(p[1].version, "1.21");
    assert_eq!(p[2].version, "");
    assert!(p.iter().all(|x| x.pkg_type == "formula" && x.description.is_none()));
}

#[test]
fn listed_packages_are_installed() {
    let r = list_installed(ok("git 2.44.0\n"), ok("firefox 124.0\n"), Ok(vec![])).unwrap();
    assert_eq!(names(&r), vec!["git", "firefox"]);
    assert!(r.iter().all(|p| p.installed));
    assert_eq!(r[1].pkg_type, "cask");
}

#[test]
fn outdated_flag_follows_outdated_list() {
    let r = list_installed(
        ok("git 2.44.0\nwget 1.21\n"),
        ok("firefox 124.0\n"),
        Ok(vec![outdated("wget"), outdated("firefox"), outdated("absent")]),
    )
    .unwrap();
    assert_eq!(names(&r), vec!["git", "wget", "firefox"]);
    assert!(!r[0].outdated);
    assert!(r[1].outdated);
    assert!(r[2].outdated);
}

#[test]
fn outdated_marks_every_package_of_a_name() {
    let r = list_installed(ok("docker 27.0\n"), ok("docker 4.30\n"), Ok(vec![outdated("docker")]))
        .unwrap();
    assert_eq!(r[0].pkg_type, "formula");
    assert_eq!(r[1].pkg_type, "cask");
    assert!(r[0].outdated);
    assert!(r[1].outdated);
}

#[test]
fn outdated_list_error_marks_nothing() {
    let r = list_installed(ok("git 1\n"), ok(""), Err("bad".to_string())).unwrap();
    assert_eq!(r.len(), 1);
    assert!(!r[0].outdated);
}

#[test]
fn listing_errors_and_failures() {
    let e = list_installed(Err("no brew".to_string()), ok(""), Ok(vec![])).unwrap_err();
    assert_eq!(e, "no brew");
    let e = list_installed(ok("git 1\n"), Err("gone".to_string()), Ok(vec![])).unwrap_err();
    assert_eq!(e, "gone");
    let r = list_installed(failed("x"), ok("firefox 1\n"), Ok(vec![])).unwrap();
    assert_eq!(names(&r), vec!["firefox"]);
}

#[test]
fn search_partitions_by_section() {
    let out = "==> Formulae\nfoo\nbar 1.0\n\n\n==> Casks\nqux\n  \nzed\n";
    let r = parse_search(&out.to_string());
    assert_eq!(names(&r), vec!["foo", "bar", "qux", "zed"]);
    let kinds: Vec<&str> = r.iter().map(|p| p.pkg_type.as_str()).collect();
    assert_eq!(kinds, vec!["formula", "formula", "cask", "cask"]);
    assert!(r.iter().all(|p| !p.installed && !p.outdated && p.version.is_empty()));
}

#[test]
fn search_blank_lines_change_nothing() {
    let tight = parse_search(&"==> Formulae\na\n==> Casks\nb\n".to_string());
    let loose = parse_search(&"\n==> Formulae\n\na\n \n\n==> Casks\n\nb\n\n".to_string());
    assert_eq!(names(&tight), names(&loose));
    let kinds = |v: &[Package]| v.iter().map(|p| p.pkg_type.clone()).collect::<Vec<_>>();
    assert_eq!(kinds(&tight), kinds(&loose));
}

#[test]
fn search_skips_other_headings_and_defaults_to_formulae() {
    let r = parse_search(&"plain\n==> Other\nmore\n==> Casks\nc\n==> Formulae\nf\n".to_string());
    assert_eq!(names(&r), vec!["plain", "more", "c", "f"]);
    let kinds: Vec<&str> = r.iter().map(|p| p.pkg_type.as_str()).collect();
    assert_eq!(kinds, vec!["formula", "formula", "cask", "formula"]);
}

#[test]
fn search_blank_query_is_empty() {
    let r = search_packages(&"  \t".to_string(), Err("not run".to_string())).unwrap();
    assert!(r.is_empty());
}

#[test]
fn search_failure_is_error() {
    let e = search_packages(&"foo".to_string(), failed("No formulae or casks found")).unwrap_err();
    assert_eq!(e, "Search failed: No formulae or casks found");
    let e = search_packages(&"foo".to_string(), Err("spawn".to_string())).unwrap_err();
    assert_eq!(e, "spawn");
    let r = search_packages(&" foo ".to_string(), ok("==> Casks\nfoo-app\n")).unwrap();
    assert_eq!(r[0].name, "foo-app");
    assert_eq!(r[0].pkg_type, "cask");
}

#[test]
fn pinned_lines_trimmed() {
    let r = get_pinned(ok("  node \n\n python@3.12\n")).unwrap();
    assert_eq!(r, vec!["node", "python@3.12"]);
    assert!(get_pinned(failed("x")).unwrap().is_empty());
    assert_eq!(get_pinned(Err("e".to_string())).unwrap_err(), "e");
}

#[test]
fn dependencies_of_formula_and_cask() {
    let d = get_dependencies("wget".to_string(), false, ok("openssl@3\n libidn2\n"), ok("\n"))
        .unwrap();
    assert_eq!(d.name, "wget");
    assert_eq!(d.dependencies, vec!["openssl@3", "libidn2"]);
    assert!(d.reverse_dependencies.is_empty());
    let d = get_dependencies("x".to_string(), false, failed(""), ok("a\n")).unwrap();
    assert!(d.dependencies.is_empty());
    assert_eq!(d.reverse_dependencies, vec!["a"]);
    let d = get_dependencies("firefox".to_string(), true, Err("e".into()), Err("e".into())).unwrap();
    assert!(d.dependencies.is_empty() && d.reverse_dependencies.is_empty());
    let e = get_dependencies("x".to_string(), false, Err("d".into()), ok("")).unwrap_err();
    assert_eq!(e, "d");
    let e = get_dependencies("x".to_string(), false, ok(""), Err("u".into())).unwrap_err();
    assert_eq!(e, "u");
}
