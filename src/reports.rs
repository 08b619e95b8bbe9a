use vstd::prelude::*;
use crate::model::{
    cask_tag, copy_opt, copy_strings, formula_tag, kind_name, opt_view, or_empty, text_or_empty,
    CaskInfo, CommandOutput, FormulaInfo, InfoReport, OutdatedCask, OutdatedFormula,
    OutdatedPackage, OutdatedReport, OutdatedView, PackageInfo, PackageInfoView,
};

verus! {

pub open spec fn formula_outdated(f: OutdatedFormula) -> OutdatedView {
    OutdatedView {
        name: f.name@,
        current_version: if f.installed_versions@.len() > 0 {
            f.installed_versions@[0]@
        } else {
            seq![]
        },
        latest_version: f.current_version@,
        pkg_type: formula_tag(),
    }
}

pub open spec fn cask_outdated(c: OutdatedCask) -> OutdatedView {
    OutdatedView {
        name: c.name@,
        current_version: c.installed_versions@,
        latest_version: c.current_version@,
        pkg_type: cask_tag(),
    }
}

/// The outdated packages of a report: its formulae, then its casks, in order.
pub open spec fn outdated_of(rep: OutdatedReport) -> Seq<OutdatedView> {
    rep.formulae@.map_values(|f: OutdatedFormula| formula_outdated(f)) + rep.casks@.map_values(
        |c: OutdatedCask| cask_outdated(c),
    )
}

pub open spec fn outdated_view(v: Seq<OutdatedPackage>) -> Seq<OutdatedView> {
    v.map_values(|o: OutdatedPackage| o@)
}

/// The outdated packages that a report lists.
pub fn outdated_packages(rep: &OutdatedReport) -> (r: Vec<OutdatedPackage>)
    ensures
        outdated_view(r@) == outdated_of(*rep),
{
    let mut r: Vec<OutdatedPackage> = Vec::new();
    let mut i: usize = 0;
    while i < rep.formulae.len()
        invariant
            i <= rep.formulae@.len(),
            outdated_view(r@) == rep.formulae@.take(i as int).map_values(
                |f: OutdatedFormula| formula_outdated(f),
            ),
        decreases rep.formulae.len() - i,
    {
        let f = &rep.formulae[i];
        let current = if f.installed_versions.len() > 0 {
            f.installed_versions[0].clone()
        } else {
            String::new()
        };
        let o = OutdatedPackage {
            name: f.name.clone(),
            current_version: current,
            latest_version: f.current_version.clone(),
            pkg_type: kind_name(false),
        };
        let ghost before = r@;
        r.push(o);
        proof {
            assert(outdated_view(r@) =~= outdated_view(before).push(o@));
            assert(rep.formulae@.take(i + 1).map_values(|f: OutdatedFormula| formula_outdated(f))
                =~= rep.formulae@.take(i as int).map_values(
                |f: OutdatedFormula| formula_outdated(f),
            ).push(formula_outdated(*f)));
        }
        i = i + 1;
    }
    assert(rep.formulae@.take(i as int) =~= rep.formulae@);
    let ghost head = outdated_view(r@);
    let mut j: usize = 0;
    while j < rep.casks.len()
        invariant
            j <= rep.casks@.len(),
            head == rep.formulae@.map_values(|f: OutdatedFormula| formula_outdated(f)),
            outdated_view(r@) == head + rep.casks@.take(j as int).map_values(
                |c: OutdatedCask| cask_outdated(c),
            ),
        decreases rep.casks.len() - j,
    {
        let c = &rep.casks[j];
        let o = OutdatedPackage {
            name: c.name.clone(),
            current_version: c.installed_versions.clone(),
            latest_version: c.current_version.clone(),
            pkg_type: kind_name(true),
        };
        let ghost before = r@;
        r.push(o);
        proof {
            assert(outdated_view(r@) =~= outdated_view(before).push(o@));
            assert(rep.casks@.take(j + 1).map_values(|c: OutdatedCask| cask_outdated(c))
                =~= rep.casks@.take(j as int).map_values(|c: OutdatedCask| cask_outdated(c)).push(
                cask_outdated(*c),
            ));
        }
        j = j + 1;
    }
    assert(rep.casks@.take(j as int) =~= rep.casks@);
    r
}

/// The outdated packages, from the run of `brew outdated --json` and the decoding of
/// what it printed: the run's error when it could not be started; none when it failed;
/// an error holding the decoder's message when its output could not be decoded.
pub fn get_outdated(
    executed: Result<CommandOutput, String>,
    decoded: Result<OutdatedReport, String>,
) -> (r: Result<Vec<OutdatedPackage>, String>)
    ensures
        executed is Err ==> r is Err && r.unwrap_err() == executed.unwrap_err(),
        executed is Ok && !executed.unwrap().success ==> r is Ok && r.unwrap()@.len() == 0,
        executed is Ok && executed.unwrap().success && decoded is Err ==> r is Err
            && r.unwrap_err()@ == "Failed to parse outdated JSON: "@ + decoded.unwrap_err()@,
        executed is Ok && executed.unwrap().success && decoded is Ok ==> r is Ok && outdated_view(
            r.unwrap()@,
        ) == outdated_of(decoded.unwrap()),
{
    match executed {
        Err(e) => Err(e),
        Ok(o) => {
            if !o.success {
                return Ok(Vec::new());
            }
            match decoded {
                Err(e) => Err("Failed to parse outdated JSON: ".to_owned().concat(e.as_str())),
                Ok(rep) => Ok(outdated_packages(&rep)),
            }
        },
    }
}

/// The detail record of a cask entry.
pub open spec fn cask_detail(c: CaskInfo) -> PackageInfoView {
    PackageInfoView {
        name: c.token@,
        full_name: c.full_token@,
        version: c.version@,
        pkg_type: cask_tag(),
        description: or_empty(c.desc),
        homepage: or_empty(c.homepage),
        installed: c.installed is Some,
        installed_version: opt_view(c.installed),
        outdated: c.outdated,
        dependencies: seq![],
        install_path: None,
    }
}

/// The detail record of a formula entry.
pub open spec fn formula_detail(f: FormulaInfo) -> PackageInfoView {
    PackageInfoView {
        name: f.name@,
        full_name: f.full_name@,
        version: or_empty(f.stable_version),
        pkg_type: formula_tag(),
        description: or_empty(f.desc),
        homepage: or_empty(f.homepage),
        installed: f.installed_versions@.len() > 0,
        installed_version: if f.installed_versions@.len() > 0 {
            Some(f.installed_versions@[0]@)
        } else {
            None
        },
        outdated: f.outdated,
        dependencies: match f.dependencies {
            Some(d) => d.deep_view(),
            None => seq![],
        },
        install_path: None,
    }
}

fn cask_info(c: &CaskInfo) -> (r: PackageInfo)
    ensures
        r@ == cask_detail(*c),
{
    let r = PackageInfo {
        name: c.token.clone(),
        full_name: c.full_token.clone(),
        version: c.version.clone(),
        pkg_type: kind_name(true),
        description: text_or_empty(&c.desc),
        homepage: text_or_empty(&c.homepage),
        installed: c.installed.is_some(),
        installed_version: copy_opt(&c.installed),
        outdated: c.outdated,
        dependencies: Vec::new(),
        install_path: None,
    };
    assert(r.dependencies.deep_view() =~= seq![]);
    r
}

fn formula_info(f: &FormulaInfo) -> (r: PackageInfo)
    ensures
        r@ == formula_detail(*f),
{
    let installed_version = if f.installed_versions.len() > 0 {
        Some(f.installed_versions[0].clone())
    } else {
        None
    };
    let dependencies = match &f.dependencies {
        Some(d) => copy_strings(d),
        None => Vec::new(),
    };
    let r = PackageInfo {
        name: f.name.clone(),
        full_name: f.full_name.clone(),
        version: text_or_empty(&f.stable_version),
        pkg_type: kind_name(false),
        description: text_or_empty(&f.desc),
        homepage: text_or_empty(&f.homepage),
        installed: f.installed_versions.len() > 0,
        installed_version,
        outdated: f.outdated,
        dependencies,
        install_path: None,
    };
    assert(f.dependencies is None ==> r.dependencies.deep_view() =~= seq![]);
    r
}

/// The detail of a package, from the run of `brew info --json=v2` and the decoding of
/// what it printed: the first cask entry when `is_cask`, else the first formula entry.
pub fn get_package_info(
    is_cask: bool,
    executed: Result<CommandOutput, String>,
    decoded: Result<InfoReport, String>,
) -> (r: Result<PackageInfo, String>)
    ensures
        executed is Err ==> r is Err && r.unwrap_err() == executed.unwrap_err(),
        executed is Ok && !executed.unwrap().success ==> r is Err && r.unwrap_err()@
            == "Failed to get package info: "@ + executed.unwrap().stderr@,
        executed is Ok && executed.unwrap().success && decoded is Err ==> r is Err
            && r.unwrap_err()@ == "Failed to parse info JSON: "@ + decoded.unwrap_err()@,
        executed is Ok && executed.unwrap().success && decoded is Ok ==> ({
            let rep = decoded.unwrap();
            if is_cask {
                if rep.casks@.len() > 0 {
                    r is Ok && r.unwrap()@ == cask_detail(rep.casks@[0])
                } else {
                    r is Err && r.unwrap_err()@ == "Package not found"@
                }
            } else {
                if rep.formulae@.len() > 0 {
                    r is Ok && r.unwrap()@ == formula_detail(rep.formulae@[0])
                } else {
                    r is Err && r.unwrap_err()@ == "Package not found"@
                }
            }
        }),
{
    let o = match executed {
        Err(e) => {
            return Err(e);
        },
        Ok(o) => o,
    };
    if !o.success {
        return Err("Failed to get package info: ".to_owned().concat(o.stderr.as_str()));
    }
    let rep = match decoded {
        Err(e) => {
            return Err("Failed to parse info JSON: ".to_owned().concat(e.as_str()));
        },
        Ok(rep) => rep,
    };
    if is_cask {
        if rep.casks.len() > 0 {
            return Ok(cask_info(&rep.casks[0]));
        }
    } else {
        if rep.formulae.len() > 0 {
            return Ok(formula_info(&rep.formulae[0]));
        }
    }
    Err("Package not found".to_owned())
}

} // verus!
