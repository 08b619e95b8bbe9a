use vstd::prelude::*;
use crate::search::{blank, is_blank};

verus! {

/// A long-running `brew` invocation whose lines are relayed as progress of `package`.
#[derive(Debug)]
pub struct StreamedCommand {
    pub args: Vec<String>,
    pub package: String,
}

fn one(a: &str) -> (r: Vec<String>)
    ensures
        r.deep_view() == seq![a@],
{
    let mut r: Vec<String> = Vec::new();
    r.push(a.to_owned());
    assert(r.deep_view() =~= seq![a@]);
    r
}

fn two(a: &str, b: &str) -> (r: Vec<String>)
    ensures
        r.deep_view() == seq![a@, b@],
{
    let mut r: Vec<String> = Vec::new();
    r.push(a.to_owned());
    r.push(b.to_owned());
    assert(r.deep_view() =~= seq![a@, b@]);
    r
}

fn three(a: &str, b: &str, c: &str) -> (r: Vec<String>)
    ensures
        r.deep_view() == seq![a@, b@, c@],
{
    let mut r: Vec<String> = Vec::new();
    r.push(a.to_owned());
    r.push(b.to_owned());
    r.push(c.to_owned());
    assert(r.deep_view() =~= seq![a@, b@, c@]);
    r
}

fn four(a: &str, b: &str, c: &str, d: &str) -> (r: Vec<String>)
    ensures
        r.deep_view() == seq![a@, b@, c@, d@],
{
    let mut r: Vec<String> = Vec::new();
    r.push(a.to_owned());
    r.push(b.to_owned());
    r.push(c.to_owned());
    r.push(d.to_owned());
    assert(r.deep_view() =~= seq![a@, b@, c@, d@]);
    r
}

/// Arguments of `test` that ask whether `path` is an executable.
pub fn probe_args(path: &str) -> (r: Vec<String>)
    ensures
        r.deep_view() == seq!["-x"@, path@],
{
    two("-x", path)
}

/// `brew --version`
pub fn version_args() -> (r: Vec<String>)
    ensures
        r.deep_view() == seq!["--version"@],
{
    one("--version")
}

/// `brew --cache`
pub fn cache_args() -> (r: Vec<String>)
    ensures
        r.deep_view() == seq!["--cache"@],
{
    one("--cache")
}

/// Arguments of `du` that measure `path` in kilobytes.
pub fn du_args(path: &str) -> (r: Vec<String>)
    ensures
        r.deep_view() == seq!["-sk"@, path@],
{
    two("-sk", path)
}

/// `brew list --formula --versions`, or `--cask` in place of `--formula`.
pub fn list_args(is_cask: bool) -> (r: Vec<String>)
    ensures
        r.deep_view() == seq![
            "list"@,
            if is_cask {
                "--cask"@
            } else {
                "--formula"@
            },
            "--versions"@,
        ],
{
    if is_cask {
        three("list", "--cask", "--versions")
    } else {
        three("list", "--formula", "--versions")
    }
}

/// `brew outdated --json`
pub fn outdated_args() -> (r: Vec<String>)
    ensures
        r.deep_view() == seq!["outdated"@, "--json"@],
{
    two("outdated", "--json")
}

/// `brew search <query>`, or nothing to run for a blank query.
pub fn search_args(query: &String) -> (r: Option<Vec<String>>)
    ensures
        blank(query@) ==> r is None,
        !blank(query@) ==> r is Some && r.unwrap().deep_view() == seq!["search"@, query@],
{
    if is_blank(query) {
        None
    } else {
        Some(two("search", query.as_str()))
    }
}

/// `brew info --json=v2 <name>`, with `--cask` after `info` for a cask.
pub fn info_args(name: &str, is_cask: bool) -> (r: Vec<String>)
    ensures
        is_cask ==> r.deep_view() == seq!["info"@, "--cask"@, "--json=v2"@, name@],
        !is_cask ==> r.deep_view() == seq!["info"@, "--json=v2"@, name@],
{
    if is_cask {
        four("info", "--cask", "--json=v2", name)
    } else {
        three("info", "--json=v2", name)
    }
}

/// `brew <verb> <name>`, with `--cask` after the verb for a cask.
fn package_args(verb: &str, name: &str, is_cask: bool) -> (r: Vec<String>)
    ensures
        is_cask ==> r.deep_view() == seq![verb@, "--cask"@, name@],
        !is_cask ==> r.deep_view() == seq![verb@, name@],
{
    if is_cask {
        three(verb, "--cask", name)
    } else {
        two(verb, name)
    }
}

/// Installs a package, relayed as its progress.
pub fn install_package(name: &String, is_cask: bool) -> (r: StreamedCommand)
    ensures
        r.package@ == name@,
        is_cask ==> r.args.deep_view() == seq!["install"@, "--cask"@, name@],
        !is_cask ==> r.args.deep_view() == seq!["install"@, name@],
{
    StreamedCommand { args: package_args("install", name.as_str(), is_cask), package: name.clone() }
}

/// Removes a package, relayed as its progress.
pub fn uninstall_package(name: &String, is_cask: bool) -> (r: StreamedCommand)
    ensures
        r.package@ == name@,
        is_cask ==> r.args.deep_view() == seq!["uninstall"@, "--cask"@, name@],
        !is_cask ==> r.args.deep_view() == seq!["uninstall"@, name@],
{
    StreamedCommand {
        args: package_args("uninstall", name.as_str(), is_cask),
        package: name.clone(),
    }
}

/// Upgrades a package, relayed as its progress.
pub fn upgrade_package(name: &String, is_cask: bool) -> (r: StreamedCommand)
    ensures
        r.package@ == name@,
        is_cask ==> r.args.deep_view() == seq!["upgrade"@, "--cask"@, name@],
        !is_cask ==> r.args.deep_view() == seq!["upgrade"@, name@],
{
    StreamedCommand { args: package_args("upgrade", name.as_str(), is_cask), package: name.clone() }
}

/// `brew update`, relayed as the progress of `homebrew`.
pub fn update_homebrew() -> (r: StreamedCommand)
    ensures
        r.package@ == "homebrew"@,
        r.args.deep_view() == seq!["update"@],
{
    StreamedCommand { args: one("update"), package: "homebrew".to_owned() }
}

/// `brew cleanup --prune=all`, relayed as the progress of `cleanup`.
pub fn cleanup_homebrew() -> (r: StreamedCommand)
    ensures
        r.package@ == "cleanup"@,
        r.args.deep_view() == seq!["cleanup"@, "--prune=all"@],
{
    StreamedCommand { args: two("cleanup", "--prune=all"), package: "cleanup".to_owned() }
}

/// `brew upgrade` of every outdated package, relayed as the progress of `all`.
pub fn upgrade_all() -> (r: StreamedCommand)
    ensures
        r.package@ == "all"@,
        r.args.deep_view() == seq!["upgrade"@],
{
    StreamedCommand { args: one("upgrade"), package: "all".to_owned() }
}

/// `brew pin <name>`
pub fn pin_package(name: &str) -> (r: Vec<String>)
    ensures
        r.deep_view() == seq!["pin"@, name@],
{
    two("pin", name)
}

/// `brew unpin <name>`
pub fn unpin_package(name: &str) -> (r: Vec<String>)
    ensures
        r.deep_view() == seq!["unpin"@, name@],
{
    two("unpin", name)
}

/// `brew list --pinned`
pub fn pinned_args() -> (r: Vec<String>)
    ensures
        r.deep_view() == seq!["list"@, "--pinned"@],
{
    two("list", "--pinned")
}

/// `brew deps --installed <name>`
pub fn deps_args(name: &str) -> (r: Vec<String>)
    ensures
        r.deep_view() == seq!["deps"@, "--installed"@, name@],
{
    three("deps", "--installed", name)
}

/// `brew uses --installed <name>`
pub fn uses_args(name: &str) -> (r: Vec<String>)
    ensures
        r.deep_view() == seq!["uses"@, "--installed"@, name@],
{
    three("uses", "--installed", name)
}

} // verus!
