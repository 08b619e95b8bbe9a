use vstd::prelude::*;

verus! {

/// The type tag of a command-line package.
pub open spec fn formula_tag() -> Seq<char> {
    "formula"@
}

/// The type tag of an application package.
pub open spec fn cask_tag() -> Seq<char> {
    "cask"@
}

pub open spec fn kind_tag(is_cask: bool) -> Seq<char> {
    if is_cask {
        cask_tag()
    } else {
        formula_tag()
    }
}

/// The tag `"cask"` or `"formula"`.
pub fn kind_name(is_cask: bool) -> (r: String)
    ensures
        r@ == kind_tag(is_cask),
{
    if is_cask {
        "cask".to_owned()
    } else {
        "formula".to_owned()
    }
}

/// A package as listed or found by a search.
#[derive(Debug, Clone)]
pub struct Package {
    pub name: String,
    pub version: String,
    pub pkg_type: String,
    pub installed: bool,
    pub outdated: bool,
    pub description: Option<String>,
}

pub struct PackageView {
    pub name: Seq<char>,
    pub version: Seq<char>,
    pub pkg_type: Seq<char>,
    pub installed: bool,
    pub outdated: bool,
    pub description: Option<Seq<char>>,
}

impl View for Package {
    type V = PackageView;

    open spec fn view(&self) -> PackageView {
        PackageView {
            name: self.name@,
            version: self.version@,
            pkg_type: self.pkg_type@,
            installed: self.installed,
            outdated: self.outdated,
            description: match self.description {
                Some(d) => Some(d@),
                None => None,
            },
        }
    }
}

pub open spec fn packages_view(v: Seq<Package>) -> Seq<PackageView> {
    v.map_values(|p: Package| p@)
}

/// The detail record of one package.
#[derive(Debug)]
pub struct PackageInfo {
    pub name: String,
    pub full_name: String,
    pub version: String,
    pub pkg_type: String,
    pub description: String,
    pub homepage: String,
    pub installed: bool,
    pub installed_version: Option<String>,
    pub outdated: bool,
    pub dependencies: Vec<String>,
    pub install_path: Option<String>,
}

pub struct PackageInfoView {
    pub name: Seq<char>,
    pub full_name: Seq<char>,
    pub version: Seq<char>,
    pub pkg_type: Seq<char>,
    pub description: Seq<char>,
    pub homepage: Seq<char>,
    pub installed: bool,
    pub installed_version: Option<Seq<char>>,
    pub outdated: bool,
    pub dependencies: Seq<Seq<char>>,
    pub install_path: Option<Seq<char>>,
}

impl View for PackageInfo {
    type V = PackageInfoView;

    open spec fn view(&self) -> PackageInfoView {
        PackageInfoView {
            name: self.name@,
            full_name: self.full_name@,
            version: self.version@,
            pkg_type: self.pkg_type@,
            description: self.description@,
            homepage: self.homepage@,
            installed: self.installed,
            installed_version: opt_view(self.installed_version),
            outdated: self.outdated,
            dependencies: self.dependencies.deep_view(),
            install_path: opt_view(self.install_path),
        }
    }
}

/// A package whose installed version lags behind the latest one.
#[derive(Debug)]
pub struct OutdatedPackage {
    pub name: String,
    pub current_version: String,
    pub latest_version: String,
    pub pkg_type: String,
}

pub struct OutdatedView {
    pub name: Seq<char>,
    pub current_version: Seq<char>,
    pub latest_version: Seq<char>,
    pub pkg_type: Seq<char>,
}

impl View for OutdatedPackage {
    type V = OutdatedView;

    open spec fn view(&self) -> OutdatedView {
        OutdatedView {
            name: self.name@,
            current_version: self.current_version@,
            latest_version: self.latest_version@,
            pkg_type: self.pkg_type@,
        }
    }
}

/// What one run of `brew` gave: its status, both output streams and its exit code.
#[derive(Debug)]
pub struct CommandOutput {
    pub success: bool,
    pub stdout: String,
    pub stderr: String,
    pub exit_code: i32,
}

/// Version, download cache location and cache size of the Homebrew installation.
#[derive(Debug)]
pub struct HomebrewInfo {
    pub version: String,
    pub cache_path: String,
    pub cache_size: u64,
}

/// The installed dependencies of a package and the installed packages that need it.
#[derive(Debug)]
pub struct DependencyInfo {
    pub name: String,
    pub dependencies: Vec<String>,
    pub reverse_dependencies: Vec<String>,
}

/// A formula entry of `brew outdated --json`.
#[derive(Debug)]
pub struct OutdatedFormula {
    pub name: String,
    pub installed_versions: Vec<String>,
    pub current_version: String,
}

/// A cask entry of `brew outdated --json`.
#[derive(Debug)]
pub struct OutdatedCask {
    pub name: String,
    pub installed_versions: String,
    pub current_version: String,
}

/// The document printed by `brew outdated --json`.
#[derive(Debug)]
pub struct OutdatedReport {
    pub formulae: Vec<OutdatedFormula>,
    pub casks: Vec<OutdatedCask>,
}

/// A formula entry of `brew info --json=v2`.
#[derive(Debug)]
pub struct FormulaInfo {
    pub name: String,
    pub full_name: String,
    pub desc: Option<String>,
    pub homepage: Option<String>,
    /// `versions.stable`
    pub stable_version: Option<String>,
    /// `installed[].version`, in order
    pub installed_versions: Vec<String>,
    pub outdated: bool,
    pub dependencies: Option<Vec<String>>,
}

/// A cask entry of `brew info --json=v2`.
#[derive(Debug)]
pub struct CaskInfo {
    pub token: String,
    pub full_token: String,
    pub desc: Option<String>,
    pub homepage: Option<String>,
    pub version: String,
    pub installed: Option<String>,
    pub outdated: bool,
}

/// The document printed by `brew info --json=v2`.
#[derive(Debug)]
pub struct InfoReport {
    pub formulae: Vec<FormulaInfo>,
    pub casks: Vec<CaskInfo>,
}

pub open spec fn opt_view(o: Option<String>) -> Option<Seq<char>> {
    match o {
        Some(s) => Some(s@),
        None => None,
    }
}

/// The text of `o`, or the empty text.
pub open spec fn or_empty(o: Option<String>) -> Seq<char> {
    match o {
        Some(s) => s@,
        None => seq![],
    }
}

/// A copy of a list of strings.
pub(crate) fn copy_strings(v: &Vec<String>) -> (r: Vec<String>)
    ensures
        r.deep_view() == v.deep_view(),
{
    let mut r: Vec<String> = Vec::new();
    let mut i: usize = 0;
    while i < v.len()
        invariant
            i <= v@.len(),
            r@.len() == i,
            forall|k: int| 0 <= k < i ==> r@[k]@ == v@[k]@,
        decreases v.len() - i,
    {
        r.push(v[i].clone());
        i = i + 1;
    }
    assert(r.deep_view() =~= v.deep_view());
    r
}

/// A copy of an optional string.
pub(crate) fn copy_opt(o: &Option<String>) -> (r: Option<String>)
    ensures
        opt_view(r) == opt_view(*o),
{
    match o {
        Some(s) => Some(s.clone()),
        None => None,
    }
}

/// The text of `o`, or an empty string.
pub(crate) fn text_or_empty(o: &Option<String>) -> (r: String)
    ensures
        r@ == or_empty(*o),
{
    match o {
        Some(s) => s.clone(),
        None => String::new(),
    }
}

} // verus!
