use vstd::prelude::*;
use crate::model::{kind_name, kind_tag, packages_view, CommandOutput, Package, PackageView};
use crate::text::{chars_of, has_prefix, lemma_take_push, lines, lines_of, starts_with, string_of, trim, trimmed, words, words_of};

verus! {

/// Which section a trimmed heading line opens: `Some(true)` for casks, `Some(false)` for
/// formulae, `None` when it opens neither.
pub open spec fn section_of(t: Seq<char>) -> Option<bool> {
    if starts_with(t, "==> Formulae"@) {
        Some(false)
    } else if starts_with(t, "==> Casks"@) {
        Some(true)
    } else {
        None
    }
}

/// The hit that a trimmed, non-heading line of search output names.
pub open spec fn search_hit(t: Seq<char>, in_casks: bool) -> PackageView {
    let w = words_of(t);
    PackageView {
        name: if w.len() > 0 {
            w[0]
        } else {
            t
        },
        version: seq![],
        pkg_type: kind_tag(in_casks),
        installed: false,
        outdated: false,
        description: None,
    }
}

/// Left-to-right reading of `brew search` output: the hits so far and whether the
/// current section is the casks one.
pub open spec fn scan_search(ls: Seq<Seq<char>>) -> (Seq<PackageView>, bool)
    decreases ls.len(),
{
    if ls.len() == 0 {
        (seq![], false)
    } else {
        let (hits, in_casks) = scan_search(ls.drop_last());
        let t = trim(ls.last());
        if t.len() == 0 {
            (hits, in_casks)
        } else if section_of(t) is Some {
            (hits, section_of(t).unwrap())
        } else if starts_with(t, "==>"@) {
            (hits, in_casks)
        } else {
            (hits.push(search_hit(t, in_casks)), in_casks)
        }
    }
}

/// The hits of the lines of `brew search` output.
pub open spec fn search_results(ls: Seq<Seq<char>>) -> Seq<PackageView> {
    scan_search(ls).0
}

/// The hits that the lines of one section give, all of one type.
pub open spec fn section_hits(ls: Seq<Seq<char>>, in_casks: bool) -> Seq<PackageView>
    decreases ls.len(),
{
    if ls.len() == 0 {
        seq![]
    } else {
        let rest = section_hits(ls.drop_last(), in_casks);
        let t = trim(ls.last());
        if t.len() == 0 {
            rest
        } else {
            rest.push(search_hit(t, in_casks))
        }
    }
}

proof fn lemma_append_split<A>(a: Seq<A>, b: Seq<A>)
    requires
        b.len() > 0,
    ensures
        (a + b).drop_last() == a + b.drop_last(),
        (a + b).last() == b.last(),
{
    assert((a + b).drop_last() =~= a + b.drop_last());
}

/// A blank line changes nothing in what a search reports, wherever it stands.
pub proof fn lemma_blank_line_ignored(a: Seq<Seq<char>>, blank: Seq<char>, b: Seq<Seq<char>>)
    requires
        trim(blank).len() == 0,
    ensures
        search_results(a.push(blank) + b) == search_results(a + b),
        scan_search(a.push(blank) + b) == scan_search(a + b),
    decreases b.len(),
{
    if b.len() == 0 {
        assert(a.push(blank) + b =~= a.push(blank));
        assert(a + b =~= a);
        assert(a.push(blank).drop_last() =~= a);
    } else {
        lemma_append_split(a.push(blank), b);
        lemma_append_split(a, b);
        lemma_blank_line_ignored(a, blank, b.drop_last());
    }
}

/// After a section heading, and up to the next heading, each non-blank line is one hit
/// of that section's type: formulae after `==> Formulae`, casks after `==> Casks`.
pub proof fn lemma_section_partition(a: Seq<Seq<char>>, h: Seq<char>, b: Seq<Seq<char>>)
    requires
        section_of(trim(h)) is Some,
        forall|k: int| 0 <= k < b.len() ==> !starts_with(#[trigger] trim(b[k]), "==>"@),
    ensures
        search_results(a.push(h) + b) == search_results(a) + section_hits(
            b,
            section_of(trim(h)).unwrap(),
        ),
        scan_search(a.push(h) + b).1 == section_of(trim(h)).unwrap(),
    decreases b.len(),
{
    let k = section_of(trim(h)).unwrap();
    if b.len() == 0 {
        assert(a.push(h) + b =~= a.push(h));
        assert(a.push(h).drop_last() =~= a);
        assert(trim(h).len() > 0) by {
            reveal_strlit("==> Formulae");
            reveal_strlit("==> Casks");
        }
        assert(search_results(a) + section_hits(b, k) =~= search_results(a));
    } else {
        lemma_append_split(a.push(h), b);
        lemma_section_partition(a, h, b.drop_last());
        let t = trim(b.last());
        assert(!starts_with(t, "==>"@));
        if t.len() > 0 {
            assert(section_of(t) is None) by {
                reveal_strlit("==> Formulae");
                reveal_strlit("==> Casks");
                reveal_strlit("==>");
                if starts_with(t, "==> Formulae"@) {
                    assert(t.subrange(0, 12).subrange(0, 3) =~= t.subrange(0, 3));
                    assert(t.subrange(0, 3) =~= "==>"@);
                }
                if starts_with(t, "==> Casks"@) {
                    assert(t.subrange(0, 9).subrange(0, 3) =~= t.subrange(0, 3));
                    assert(t.subrange(0, 3) =~= "==>"@);
                }
            }
            assert(search_results(a) + section_hits(b, k) =~= (search_results(a) + section_hits(
                b.drop_last(),
                k,
            )).push(search_hit(t, k)));
        }
    }
}

/// The hits that `brew search` printed, each typed by the section it stands in.
pub fn parse_search(stdout: &String) -> (r: Vec<Package>)
    ensures
        packages_view(r@) == search_results(lines_of(stdout@)),
{
    let cs = chars_of(stdout.as_str());
    let ls = lines(&cs);
    let formulae = chars_of("==> Formulae");
    let casks = chars_of("==> Casks");
    let heading = chars_of("==>");
    let ghost lv = ls@.map_values(|l: Vec<char>| l@);
    let mut r: Vec<Package> = Vec::new();
    let mut in_casks = false;
    let mut i: usize = 0;
    while i < ls.len()
        invariant
            i <= ls@.len(),
            lv == ls@.map_values(|l: Vec<char>| l@),
            formulae@ == "==> Formulae"@,
            casks@ == "==> Casks"@,
            heading@ == "==>"@,
            (packages_view(r@), in_casks) == scan_search(lv.take(i as int)),
        decreases ls.len() - i,
    {
        proof {
            lemma_take_push(lv, i as int);
        }
        let t = trimmed(ls[i].as_slice());
        if t.len() == 0 {
        } else if has_prefix(t.as_slice(), formulae.as_slice()) {
            in_casks = false;
        } else if has_prefix(t.as_slice(), casks.as_slice()) {
            in_casks = true;
        } else if has_prefix(t.as_slice(), heading.as_slice()) {
        } else {
            let w = words(t.as_slice());
            let name = if w.len() > 0 {
                string_of(w[0].as_slice())
            } else {
                string_of(t.as_slice())
            };
            let p = Package {
                name,
                version: String::new(),
                pkg_type: kind_name(in_casks),
                installed: false,
                outdated: false,
                description: None,
            };
            let ghost before = r@;
            r.push(p);
            proof {
                assert(w@.map_values(|x: Vec<char>| x@).len() == w@.len());
                if w@.len() > 0 {
                    assert(w@.map_values(|x: Vec<char>| x@)[0] == w@[0]@);
                }
                assert(p@ == search_hit(t@, in_casks));
                assert(packages_view(r@) =~= packages_view(before).push(p@));
            }
        }
        i = i + 1;
    }
    assert(lv.take(ls@.len() as int) =~= lv);
    r
}

/// Whether `q` holds nothing but white space.
pub open spec fn blank(q: Seq<char>) -> bool {
    trim(q).len() == 0
}

/// Whether a query is blank, in which case no search is run.
pub fn is_blank(query: &String) -> (r: bool)
    ensures
        r == blank(query@),
{
    let cs = chars_of(query.as_str());
    trimmed(cs.as_slice()).len() == 0
}

/// The packages that a search for `query` finds, from the run of `brew search`: none
/// for a blank query (the run is not read then); the run's error when it could not be
/// started; an error holding its stderr when it failed; else its hits.
pub fn search_packages(query: &String, executed: Result<CommandOutput, String>) -> (r: Result<
    Vec<Package>,
    String,
>)
    ensures
        blank(query@) ==> r is Ok && r.unwrap()@.len() == 0,
        !blank(query@) && executed is Err ==> r is Err && r.unwrap_err() == executed.unwrap_err(),
        !blank(query@) && executed is Ok && !executed.unwrap().success ==> r is Err
            && r.unwrap_err()@ == "Search failed: "@ + executed.unwrap().stderr@,
        !blank(query@) && executed is Ok && executed.unwrap().success ==> r is Ok
            && packages_view(r.unwrap()@) == search_results(lines_of(executed.unwrap().stdout@)),
{
    if is_blank(query) {
        return Ok(Vec::new());
    }
    match executed {
        Err(e) => Err(e),
        Ok(o) => {
            if !o.success {
                Err("Search failed: ".to_owned().concat(o.stderr.as_str()))
            } else {
                Ok(parse_search(&o.stdout))
            }
        },
    }
}

} // verus!
