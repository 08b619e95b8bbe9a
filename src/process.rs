use vstd::prelude::*;
use crate::model::{CommandOutput, HomebrewInfo};
use crate::progress::exit_code_of;
use crate::text::{chars_of, lines, lines_of, string_of, trim, trimmed, words, words_of};

verus! {

/// What a finished process handed back, before its output is read as text.
#[derive(Debug)]
pub struct RawOutput {
    /// Whether the process exited with code 0.
    pub success: bool,
    /// The exit code, or `None` when a signal ended the process.
    pub code: Option<i32>,
    pub stdout: Vec<u8>,
    pub stderr: Vec<u8>,
}

/// The text that `String::from_utf8_lossy` makes of some bytes.
pub uninterp spec fn utf8_lossy(b: Seq<u8>) -> Seq<char>;

/// Relies on `String::from_utf8_lossy`: the bytes read as UTF-8, with each invalid
/// sequence replaced; no bytes give the empty text.
#[verifier::external_body]
fn lossy_text(b: &[u8]) -> (r: String)
    ensures
        r@ == utf8_lossy(b@),
        b@.len() == 0 ==> r@.len() == 0,
{
    String::from_utf8_lossy(b).to_string()
}

/// The record of a blocking run of `brew`, or the error when it could not be started.
pub fn execute_brew_command(spawned: Result<RawOutput, String>) -> (r: Result<CommandOutput, String>)
    ensures
        spawned is Err ==> r is Err && r.unwrap_err()@ == "Failed to execute brew command: "@
            + spawned.unwrap_err()@,
        spawned is Ok ==> r is Ok && r.unwrap().success == spawned.unwrap().success
            && r.unwrap().stdout@ == utf8_lossy(spawned.unwrap().stdout@) && r.unwrap().stderr@
            == utf8_lossy(spawned.unwrap().stderr@) && r.unwrap().exit_code == exit_code_of(
            spawned.unwrap().code,
        ),
{
    match spawned {
        Err(e) => Err("Failed to execute brew command: ".to_owned().concat(e.as_str())),
        Ok(raw) => Ok(
            CommandOutput {
                success: raw.success,
                stdout: lossy_text(raw.stdout.as_slice()),
                stderr: lossy_text(raw.stderr.as_slice()),
                exit_code: match raw.code {
                    Some(c) => c,
                    None => -1,
                },
            },
        ),
    }
}

/// Whether Homebrew is usable, from a run of `brew --version`: it is when that run
/// could be started and succeeded.
pub fn check_homebrew(ran: Result<RawOutput, String>) -> (r: Result<bool, String>)
    ensures
        r is Ok,
        r.unwrap() == (ran is Ok && ran.unwrap().success),
{
    match ran {
        Ok(o) => Ok(o.success),
        Err(_) => Ok(false),
    }
}

/// The places where `brew` is looked for, in order.
pub open spec fn brew_places() -> Seq<Seq<char>> {
    seq!["/opt/homebrew/bin/brew"@, "/usr/local/bin/brew"@, "brew"@]
}

/// The first place whose probe found an executable, else plain `brew`.
pub open spec fn chosen_brew(found: Seq<bool>) -> Seq<char> {
    chosen_from(found, 0)
}

/// The first place from index `i` on whose probe found an executable, else plain `brew`.
pub open spec fn chosen_from(found: Seq<bool>, i: int) -> Seq<char>
    decreases 3 - i,
{
    if 0 <= i < 3 && i < found.len() {
        if found[i] {
            brew_places()[i]
        } else {
            chosen_from(found, i + 1)
        }
    } else {
        "brew"@
    }
}

/// The places where `brew` is looked for, in order.
pub fn brew_candidates() -> (r: Vec<String>)
    ensures
        r.deep_view() == brew_places(),
{
    let mut r: Vec<String> = Vec::new();
    r.push("/opt/homebrew/bin/brew".to_owned());
    r.push("/usr/local/bin/brew".to_owned());
    r.push("brew".to_owned());
    assert(r.deep_view() =~= brew_places());
    r
}

/// The path of `brew`, given for each candidate place, in order, whether it holds an
/// executable; places not probed count as not found.
pub fn select_brew_path(found: &Vec<bool>) -> (r: String)
    ensures
        r@ == chosen_brew(found@),
{
    let places = brew_candidates();
    assert(places@.len() == places.deep_view().len());
    let mut i: usize = 0;
    while i < 3 && i < found.len()
        invariant
            i <= 3,
            places.deep_view() == brew_places(),
            places@.len() == 3,
            chosen_from(found@, i as int) == chosen_from(found@, 0),
        decreases 3 - i,
    {
        if found[i] {
            assert(places.deep_view()[i as int] == places@[i as int]@);
            return places[i].clone();
        }
        i = i + 1;
    }
    "brew".to_owned()
}

/// The value of a run of decimal digits.
pub open spec fn digits_value(d: Seq<char>) -> nat
    decreases d.len(),
{
    if d.len() == 0 {
        0
    } else {
        digits_value(d.drop_last()) * 10 + ((d.last() as u32) - ('0' as u32)) as nat
    }
}

pub open spec fn all_digits(d: Seq<char>) -> bool {
    forall|i: int| 0 <= i < d.len() ==> '0' <= #[trigger] d[i] <= '9'
}

/// The digits of an unsigned number: a leading `+` is allowed.
pub open spec fn unsigned_digits(w: Seq<char>) -> Seq<char> {
    if w.len() > 0 && w[0] == '+' {
        w.drop_first()
    } else {
        w
    }
}

/// The value of `w` read as a `u64` the way `str::parse` reads one, if it is one.
pub open spec fn parsed_u64(w: Seq<char>) -> Option<nat> {
    let d = unsigned_digits(w);
    if d.len() > 0 && all_digits(d) && digits_value(d) <= u64::MAX {
        Some(digits_value(d))
    } else {
        None
    }
}

proof fn lemma_digits_grow(d: Seq<char>, i: int)
    requires
        0 <= i <= d.len(),
        all_digits(d),
    ensures
        digits_value(d.take(i)) <= digits_value(d),
    decreases d.len() - i,
{
    if i < d.len() {
        lemma_digits_grow(d, i + 1);
        assert(d.take(i + 1).drop_last() =~= d.take(i));
        assert(d.take(i + 1).last() == d[i]);
        assert(digits_value(d.take(i)) <= digits_value(d.take(i)) * 10) by (nonlinear_arith);
    } else {
        assert(d.take(i) =~= d);
    }
}

/// `w` read as a `u64`.
pub fn parse_u64(w: &[char]) -> (r: Option<u64>)
    ensures
        r is Some <==> parsed_u64(w@) is Some,
        r is Some ==> r.unwrap() == parsed_u64(w@).unwrap(),
{
    let ghost d = unsigned_digits(w@);
    let start: usize = if w.len() > 0 && w[0] == '+' {
        1
    } else {
        0
    };
    assert(d =~= w@.subrange(start as int, w@.len() as int));
    if start >= w.len() {
        return None;
    }
    let mut v: u64 = 0;
    let mut i: usize = start;
    while i < w.len()
        invariant
            start <= i <= w@.len(),
            d == w@.subrange(start as int, w@.len() as int),
            d == unsigned_digits(w@),
            forall|k: int| 0 <= k < i - start ==> '0' <= #[trigger] d[k] <= '9',
            v as nat == digits_value(d.take(i - start)),
        decreases w.len() - i,
    {
        let c = w[i];
        let ghost j = i - start;
        if c < '0' || c > '9' {
            assert(!('0' <= d[j] <= '9'));
            assert(!all_digits(d));
            return None;
        }
        let dv = (c as u32 - '0' as u32) as u64;
        assert(d.take(j + 1).drop_last() =~= d.take(j));
        assert(d.take(j + 1).last() == c);
        assert(digits_value(d.take(j + 1)) == digits_value(d.take(j)) * 10 + dv);
        if v > (u64::MAX - dv) / 10 {
            proof {
                assert(v * 10 + dv > u64::MAX) by (nonlinear_arith)
                    requires
                        v > (u64::MAX - dv) / 10,
                        dv <= 9,
                ;
                if all_digits(d) {
                    lemma_digits_grow(d, j + 1);
                    assert(digits_value(d) > u64::MAX);
                }
            }
            return None;
        }
        assert(v * 10 + dv <= u64::MAX) by (nonlinear_arith)
            requires
                v <= (u64::MAX - dv) / 10,
                dv <= 9,
        ;
        v = v * 10 + dv;
        i = i + 1;
    }
    assert(d.take(d.len() as int) =~= d);
    Some(v)
}

/// The bytes that `du -sk` reported: the kilobytes of its first word times 1024, up to
/// the largest `u64`; 0 when the first word is no number.
pub open spec fn du_bytes(text: Seq<char>) -> u64 {
    let w = words_of(text);
    if w.len() > 0 && parsed_u64(w[0]) is Some {
        let kb = parsed_u64(w[0]).unwrap();
        if kb * 1024 <= u64::MAX {
            (kb * 1024) as u64
        } else {
            u64::MAX
        }
    } else {
        0
    }
}

/// The size in bytes of a directory, from a run of `du -sk` on it: 0 when the run failed.
pub fn get_directory_size(du: Result<RawOutput, String>) -> (r: Result<u64, String>)
    ensures
        du is Err ==> r is Err && r.unwrap_err()@ == "Failed to get directory size: "@
            + du.unwrap_err()@,
        du is Ok && !du.unwrap().success ==> r == Ok::<u64, String>(0),
        du is Ok && du.unwrap().success ==> r == Ok::<u64, String>(
            du_bytes(utf8_lossy(du.unwrap().stdout@)),
        ),
{
    let o = match du {
        Err(e) => {
            return Err("Failed to get directory size: ".to_owned().concat(e.as_str()));
        },
        Ok(o) => o,
    };
    if !o.success {
        return Ok(0);
    }
    let text = lossy_text(o.stdout.as_slice());
    let cs = chars_of(text.as_str());
    let w = words(cs.as_slice());
    assert(w@.map_values(|x: Vec<char>| x@).len() == w@.len());
    if w.len() == 0 {
        return Ok(0);
    }
    assert(w@.map_values(|x: Vec<char>| x@)[0] == w@[0]@);
    match parse_u64(w[0].as_slice()) {
        None => Ok(0),
        Some(kb) => {
            if kb > u64::MAX / 1024 {
                Ok(u64::MAX)
            } else {
                Ok(kb * 1024)
            }
        },
    }
}

/// The first line of the output of `brew --version`, or `Unknown` when it printed none.
pub open spec fn version_line(text: Seq<char>) -> Seq<char> {
    if lines_of(text).len() > 0 {
        lines_of(text)[0]
    } else {
        "Unknown"@
    }
}

/// The cache directory that `brew --cache` printed.
pub fn cache_path(cache: &RawOutput) -> (r: String)
    ensures
        r@ == trim(utf8_lossy(cache.stdout@)),
{
    let text = lossy_text(cache.stdout.as_slice());
    let cs = chars_of(text.as_str());
    let t = trimmed(cs.as_slice());
    string_of(t.as_slice())
}

/// Version, cache directory and cache size, from the runs of `brew --version`,
/// `brew --cache` and, when the cache directory is known, `du -sk` on it.
pub fn get_homebrew_info(
    version: Result<RawOutput, String>,
    cache: Result<RawOutput, String>,
    du: Option<Result<RawOutput, String>>,
) -> (r: Result<HomebrewInfo, String>)
    ensures
        version is Err ==> r is Err && r.unwrap_err()@ == "Failed to get version: "@
            + version.unwrap_err()@,
        version is Ok && cache is Err ==> r is Err && r.unwrap_err()@
            == "Failed to get cache path: "@ + cache.unwrap_err()@,
        version is Ok && cache is Ok ==> r is Ok && ({
            let info = r.unwrap();
            let path = trim(utf8_lossy(cache.unwrap().stdout@));
            &&& info.version@ == version_line(utf8_lossy(version.unwrap().stdout@))
            &&& info.cache_path@ == path
            &&& info.cache_size == if path.len() == 0 {
                0
            } else {
                match du {
                    Some(Ok(d)) => if d.success {
                        du_bytes(utf8_lossy(d.stdout@))
                    } else {
                        0
                    },
                    _ => 0,
                }
            }
        }),
{
    let v = match version {
        Err(e) => {
            return Err("Failed to get version: ".to_owned().concat(e.as_str()));
        },
        Ok(v) => v,
    };
    let c = match cache {
        Err(e) => {
            return Err("Failed to get cache path: ".to_owned().concat(e.as_str()));
        },
        Ok(c) => c,
    };
    let text = lossy_text(v.stdout.as_slice());
    let cs = chars_of(text.as_str());
    let ls = lines(&cs);
    assert(ls@.map_values(|l: Vec<char>| l@).len() == ls@.len());
    let version_text = if ls.len() > 0 {
        assert(ls@.map_values(|l: Vec<char>| l@)[0] == ls@[0]@);
        string_of(ls[0].as_slice())
    } else {
        "Unknown".to_owned()
    };
    let path = cache_path(&c);
    let size: u64 = if path.as_str().is_empty() {
        0
    } else {
        match du {
            Some(d) => match get_directory_size(d) {
                Ok(n) => n,
                Err(_) => 0,
            },
            None => 0,
        }
    };
    Ok(HomebrewInfo { version: version_text, cache_path: path, cache_size: size })
}

} // verus!
