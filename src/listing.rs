use vstd::prelude::*;
use crate::model::{
    kind_name, kind_tag, packages_view, CommandOutput, DependencyInfo, OutdatedPackage, Package,
    PackageView,
};
use crate::text::{chars_of, lemma_take_push, lines, lines_of, string_of, trim, trimmed, words, words_of};

verus! {

/// The package that one line of `brew list --versions` names, if the line holds a word.
pub open spec fn listed_line(line: Seq<char>, is_cask: bool) -> Option<PackageView> {
    let w = words_of(line);
    if w.len() == 0 {
        None
    } else {
        Some(
            PackageView {
                name: w[0],
                version: if w.len() > 1 {
                    w[1]
                } else {
                    seq![]
                },
                pkg_type: kind_tag(is_cask),
                installed: true,
                outdated: false,
                description: None,
            },
        )
    }
}

/// The packages of the lines of `brew list --versions`, in order.
pub open spec fn listed_packages(ls: Seq<Seq<char>>, is_cask: bool) -> Seq<PackageView>
    decreases ls.len(),
{
    if ls.len() == 0 {
        seq![]
    } else {
        let rest = listed_packages(ls.drop_last(), is_cask);
        match listed_line(ls.last(), is_cask) {
            Some(p) => rest.push(p),
            None => rest,
        }
    }
}

/// Every listed package is installed and not yet marked outdated.
pub proof fn lemma_listed_installed(ls: Seq<Seq<char>>, is_cask: bool)
    ensures
        forall|i: int|
            0 <= i < listed_packages(ls, is_cask).len() ==> (#[trigger] listed_packages(
                ls,
                is_cask,
            )[i]).installed && !listed_packages(ls, is_cask)[i].outdated,
    decreases ls.len(),
{
    if ls.len() > 0 {
        lemma_listed_installed(ls.drop_last(), is_cask);
    }
}

/// `s` with every package whose name `names` holds marked outdated.
pub open spec fn flag_outdated(s: Seq<PackageView>, names: Seq<Seq<char>>) -> Seq<PackageView> {
    Seq::new(
        s.len(),
        |i: int|
            PackageView {
                outdated: s[i].outdated || names.contains(s[i].name),
                ..s[i]
            },
    )
}

pub open spec fn outdated_names(v: Seq<OutdatedPackage>) -> Seq<Seq<char>> {
    v.map_values(|o: OutdatedPackage| o.name@)
}

/// The packages of both listings, formulae first, then marked by the outdated list when
/// that list could be had.
pub open spec fn installed_listing(
    formula: CommandOutput,
    cask: CommandOutput,
    outdated: Result<Vec<OutdatedPackage>, String>,
) -> Seq<PackageView> {
    let f = if formula.success {
        listed_packages(lines_of(formula.stdout@), false)
    } else {
        seq![]
    };
    let c = if cask.success {
        listed_packages(lines_of(cask.stdout@), true)
    } else {
        seq![]
    };
    match outdated {
        Ok(v) => flag_outdated(f + c, outdated_names(v@)),
        Err(_) => f + c,
    }
}

/// A package that a listing holds is reported installed.
pub proof fn lemma_listing_installed(
    formula: CommandOutput,
    cask: CommandOutput,
    outdated: Result<Vec<OutdatedPackage>, String>,
    i: int,
)
    requires
        0 <= i < installed_listing(formula, cask, outdated).len(),
    ensures
        installed_listing(formula, cask, outdated)[i].installed,
{
    lemma_listed_installed(lines_of(formula.stdout@), false);
    lemma_listed_installed(lines_of(cask.stdout@), true);
    let f = if formula.success {
        listed_packages(lines_of(formula.stdout@), false)
    } else {
        seq![]
    };
    let c = if cask.success {
        listed_packages(lines_of(cask.stdout@), true)
    } else {
        seq![]
    };
    assert((f + c)[i].installed);
}

/// A package of a listing is reported outdated exactly when the outdated list names it.
pub proof fn lemma_listing_outdated(
    formula: CommandOutput,
    cask: CommandOutput,
    outdated: Vec<OutdatedPackage>,
    i: int,
)
    requires
        0 <= i < installed_listing(formula, cask, Ok(outdated)).len(),
    ensures
        installed_listing(formula, cask, Ok(outdated))[i].outdated == outdated_names(
            outdated@,
        ).contains(installed_listing(formula, cask, Ok(outdated))[i].name),
{
    lemma_listed_installed(lines_of(formula.stdout@), false);
    lemma_listed_installed(lines_of(cask.stdout@), true);
    let f = if formula.success {
        listed_packages(lines_of(formula.stdout@), false)
    } else {
        seq![]
    };
    let c = if cask.success {
        listed_packages(lines_of(cask.stdout@), true)
    } else {
        seq![]
    };
    assert(!(f + c)[i].outdated);
}

/// The packages that the output of `brew list --versions` names; `is_cask` gives their type.
pub fn parse_listing(stdout: &String, is_cask: bool) -> (r: Vec<Package>)
    ensures
        packages_view(r@) == listed_packages(lines_of(stdout@), is_cask),
{
    let cs = chars_of(stdout.as_str());
    let ls = lines(&cs);
    let ghost lv = ls@.map_values(|l: Vec<char>| l@);
    let mut r: Vec<Package> = Vec::new();
    let mut i: usize = 0;
    while i < ls.len()
        invariant
            i <= ls@.len(),
            lv == ls@.map_values(|l: Vec<char>| l@),
            packages_view(r@) == listed_packages(lv.take(i as int), is_cask),
        decreases ls.len() - i,
    {
        proof {
            lemma_take_push(lv, i as int);
        }
        let w = words(ls[i].as_slice());
        assert(w@.map_values(|x: Vec<char>| x@).len() == w@.len());
        if w.len() > 0 {
            let version = if w.len() > 1 {
                string_of(w[1].as_slice())
            } else {
                String::new()
            };
            let p = Package {
                name: string_of(w[0].as_slice()),
                version,
                pkg_type: kind_name(is_cask),
                installed: true,
                outdated: false,
                description: None,
            };
            let ghost before = r@;
            r.push(p);
            proof {
                assert(packages_view(r@) =~= packages_view(before).push(p@));
                assert(w@.map_values(|x: Vec<char>| x@)[0] == w@[0]@);
                if w@.len() > 1 {
                    assert(w@.map_values(|x: Vec<char>| x@)[1] == w@[1]@);
                }
                assert(p@ == listed_line(lv[i as int], is_cask).unwrap());
            }
        }
        i = i + 1;
    }
    assert(lv.take(ls@.len() as int) =~= lv);
    r
}

/// Whether `v` holds a package named `name`.
fn names_contain(v: &Vec<OutdatedPackage>, name: &String) -> (r: bool)
    ensures
        r == outdated_names(v@).contains(name@),
{
    let mut i: usize = 0;
    while i < v.len()
        invariant
            i <= v@.len(),
            forall|k: int| 0 <= k < i ==> v@[k].name@ != name@,
        decreases v.len() - i,
    {
        if v[i].name == *name {
            assert(outdated_names(v@)[i as int] == name@);
            return true;
        }
        i = i + 1;
    }
    proof {
        if outdated_names(v@).contains(name@) {
            let k = choose|k: int| 0 <= k < outdated_names(v@).len() && outdated_names(v@)[k] == name@;
            assert(v@[k].name@ == name@);
        }
    }
    false
}

/// `pkgs` with every package whose name `outdated` holds marked outdated.
pub fn mark_outdated(pkgs: &Vec<Package>, outdated: &Vec<OutdatedPackage>) -> (r: Vec<Package>)
    ensures
        packages_view(r@) == flag_outdated(packages_view(pkgs@), outdated_names(outdated@)),
{
    let ghost s = packages_view(pkgs@);
    let ghost names = outdated_names(outdated@);
    let mut r: Vec<Package> = Vec::new();
    let mut i: usize = 0;
    while i < pkgs.len()
        invariant
            i <= pkgs@.len(),
            s == packages_view(pkgs@),
            names == outdated_names(outdated@),
            packages_view(r@) == flag_outdated(s, names).take(i as int),
        decreases pkgs.len() - i,
    {
        let p = &pkgs[i];
        let hit = names_contain(outdated, &p.name);
        let q = Package {
            name: p.name.clone(),
            version: p.version.clone(),
            pkg_type: p.pkg_type.clone(),
            installed: p.installed,
            outdated: p.outdated || hit,
            description: crate::model::copy_opt(&p.description),
        };
        let ghost before = r@;
        r.push(q);
        proof {
            assert(s[i as int] == p@);
            assert(packages_view(r@) =~= packages_view(before).push(q@));
            assert(flag_outdated(s, names).take(i + 1) =~= flag_outdated(s, names).take(
                i as int,
            ).push(flag_outdated(s, names)[i as int]));
        }
        i = i + 1;
    }
    assert(flag_outdated(s, names).take(pkgs@.len() as int) =~= flag_outdated(s, names));
    r
}

/// The installed packages, from the runs of `brew list --formula --versions` and
/// `brew list --cask --versions` and from the outdated list: a run that could not be
/// started gives its error; a run that failed lists nothing; an outdated list that
/// could not be had marks nothing.
pub fn list_installed(
    formula: Result<CommandOutput, String>,
    cask: Result<CommandOutput, String>,
    outdated: Result<Vec<OutdatedPackage>, String>,
) -> (r: Result<Vec<Package>, String>)
    ensures
        formula is Err ==> r is Err && r.unwrap_err() == formula.unwrap_err(),
        formula is Ok && cask is Err ==> r is Err && r.unwrap_err() == cask.unwrap_err(),
        formula is Ok && cask is Ok ==> r is Ok && packages_view(r.unwrap()@) == installed_listing(
            formula.unwrap(),
            cask.unwrap(),
            outdated,
        ),
        r is Ok ==> forall|i: int|
            0 <= i < r.unwrap()@.len() ==> (#[trigger] r.unwrap()@[i]).installed,
{
    let f = match formula {
        Ok(o) => o,
        Err(e) => {
            return Err(e);
        },
    };
    let c = match cask {
        Ok(o) => o,
        Err(e) => {
            return Err(e);
        },
    };
    let mut pkgs: Vec<Package> = if f.success {
        parse_listing(&f.stdout, false)
    } else {
        Vec::new()
    };
    let mut more: Vec<Package> = if c.success {
        parse_listing(&c.stdout, true)
    } else {
        Vec::new()
    };
    let ghost fv = packages_view(pkgs@);
    let ghost cv = packages_view(more@);
    pkgs.append(&mut more);
    assert(packages_view(pkgs@) =~= fv + cv);
    let r = match outdated {
        Ok(v) => mark_outdated(&pkgs, &v),
        Err(_) => pkgs,
    };
    assert(packages_view(r@) == installed_listing(f, c, outdated));
    proof {
        assert forall|i: int| 0 <= i < r@.len() implies (#[trigger] r@[i]).installed by {
            lemma_listing_installed(f, c, outdated, i);
            assert(packages_view(r@)[i].installed);
        }
    }
    Ok(r)
}

/// The lines of a text, trimmed, without the blank ones.
pub open spec fn filled_lines(ls: Seq<Seq<char>>) -> Seq<Seq<char>>
    decreases ls.len(),
{
    if ls.len() == 0 {
        seq![]
    } else {
        let rest = filled_lines(ls.drop_last());
        if trim(ls.last()).len() == 0 {
            rest
        } else {
            rest.push(trim(ls.last()))
        }
    }
}

/// The trimmed non-blank lines of `s`.
pub fn trimmed_lines(s: &String) -> (r: Vec<String>)
    ensures
        r.deep_view() == filled_lines(lines_of(s@)),
{
    let cs = chars_of(s.as_str());
    let ls = lines(&cs);
    let ghost lv = ls@.map_values(|l: Vec<char>| l@);
    let mut r: Vec<String> = Vec::new();
    let mut i: usize = 0;
    while i < ls.len()
        invariant
            i <= ls@.len(),
            lv == ls@.map_values(|l: Vec<char>| l@),
            r.deep_view() == filled_lines(lv.take(i as int)),
        decreases ls.len() - i,
    {
        proof {
            lemma_take_push(lv, i as int);
        }
        let t = trimmed(ls[i].as_slice());
        if t.len() > 0 {
            let ghost before = r.deep_view();
            r.push(string_of(t.as_slice()));
            assert(r.deep_view() =~= before.push(t@));
        }
        i = i + 1;
    }
    assert(lv.take(ls@.len() as int) =~= lv);
    r
}

/// The pinned packages, from a run of `brew list --pinned`: none when the run failed.
pub fn get_pinned(executed: Result<CommandOutput, String>) -> (r: Result<Vec<String>, String>)
    ensures
        executed is Err ==> r is Err && r.unwrap_err() == executed.unwrap_err(),
        executed is Ok ==> r is Ok && r.unwrap().deep_view() == (if executed.unwrap().success {
            filled_lines(lines_of(executed.unwrap().stdout@))
        } else {
            seq![]
        }),
{
    match executed {
        Err(e) => Err(e),
        Ok(o) => {
            if o.success {
                Ok(trimmed_lines(&o.stdout))
            } else {
                let v: Vec<String> = Vec::new();
                assert(v.deep_view() =~= seq![]);
                Ok(v)
            }
        },
    }
}

/// The names that a run of `brew deps` or `brew uses` printed: none when it failed.
pub open spec fn named_by(o: CommandOutput) -> Seq<Seq<char>> {
    if o.success {
        filled_lines(lines_of(o.stdout@))
    } else {
        seq![]
    }
}

fn names_printed(o: &CommandOutput) -> (r: Vec<String>)
    ensures
        r.deep_view() == named_by(*o),
{
    if o.success {
        trimmed_lines(&o.stdout)
    } else {
        let v: Vec<String> = Vec::new();
        assert(v.deep_view() =~= seq![]);
        v
    }
}

/// The dependencies of a package, from the runs of `brew deps --installed` and
/// `brew uses --installed`. A cask has none, and those runs are not read for it.
pub fn get_dependencies(
    name: String,
    is_cask: bool,
    deps: Result<CommandOutput, String>,
    uses: Result<CommandOutput, String>,
) -> (r: Result<DependencyInfo, String>)
    ensures
        is_cask ==> r is Ok && r.unwrap().name@ == name@ && r.unwrap().dependencies@.len() == 0
            && r.unwrap().reverse_dependencies@.len() == 0,
        !is_cask && deps is Err ==> r is Err && r.unwrap_err() == deps.unwrap_err(),
        !is_cask && deps is Ok && uses is Err ==> r is Err && r.unwrap_err() == uses.unwrap_err(),
        !is_cask && deps is Ok && uses is Ok ==> r is Ok && r.unwrap().name@ == name@
            && r.unwrap().dependencies.deep_view() == named_by(deps.unwrap())
            && r.unwrap().reverse_dependencies.deep_view() == named_by(uses.unwrap()),
{
    if is_cask {
        return Ok(DependencyInfo { name, dependencies: Vec::new(), reverse_dependencies: Vec::new() });
    }
    let d = match deps {
        Ok(o) => o,
        Err(e) => {
            return Err(e);
        },
    };
    let u = match uses {
        Ok(o) => o,
        Err(e) => {
            return Err(e);
        },
    };
    Ok(
        DependencyInfo {
            name,
            dependencies: names_printed(&d),
            reverse_dependencies: names_printed(&u),
        },
    )
}

} // verus!
