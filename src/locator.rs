//! Ordered probing of interpreter locations.
//!
//! The candidates are built here; whether each one exists on disk is learned
//! by the caller and handed back to [`select_interpreter`].
use vstd::prelude::*;
use vstd::string::*;

verus! {

/// Joins a relative path onto a base directory. The separator written is
/// always `/`, on every platform (Windows accepts it as well); a base that
/// already ends in `/` or `\` gets no second one.
/// An empty base yields the relative path itself.
pub open spec fn join_spec(base: Seq<char>, rel: Seq<char>) -> Seq<char> {
    if base.len() == 0 {
        rel
    } else if base.last() == '/' || base.last() == '\\' {
        base + rel
    } else {
        base + seq!['/'] + rel
    }
}

/// The interpreter shipped in a virtual environment, in probing order:
/// hidden Unix, plain Unix, hidden Windows, plain Windows.
pub open spec fn venv_rel(i: int) -> Seq<char> {
    if i == 0 {
        ".venv/bin/python3"@
    } else if i == 1 {
        "venv/bin/python3"@
    } else if i == 2 {
        ".venv/Scripts/python.exe"@
    } else {
        "venv/Scripts/python.exe"@
    }
}

/// The name used when no virtual environment is found.
pub open spec fn fallback_interpreter() -> Seq<char> {
    "python3"@
}

/// The four candidates under one base directory, in probing order.
pub open spec fn base_candidates(base: Seq<char>) -> Seq<Seq<char>> {
    seq![
        join_spec(base, venv_rel(0)),
        join_spec(base, venv_rel(1)),
        join_spec(base, venv_rel(2)),
        join_spec(base, venv_rel(3)),
    ]
}

/// All candidates: those under the executable's directory (when it is known)
/// come before those under the working directory.
pub open spec fn candidates_spec(exe_dir: Option<Seq<char>>, cwd: Seq<char>) -> Seq<Seq<char>> {
    match exe_dir {
        Some(d) => base_candidates(d) + base_candidates(cwd),
        None => base_candidates(cwd),
    }
}

/// The texts of a sequence of strings.
pub open spec fn string_views(v: Seq<String>) -> Seq<Seq<char>> {
    v.map_values(|s: String| s@)
}

/// The text of an optional string.
pub open spec fn option_view(o: Option<String>) -> Option<Seq<char>> {
    match o {
        Some(s) => Some(s@),
        None => None,
    }
}

/// The first candidate from index `k` on that exists, or the fallback name.
pub open spec fn first_existing_from(c: Seq<Seq<char>>, e: Seq<bool>, k: int) -> Seq<char>
    decreases c.len() - k,
{
    if 0 <= k < c.len() {
        if e[k] {
            c[k]
        } else {
            first_existing_from(c, e, k + 1)
        }
    } else {
        fallback_interpreter()
    }
}

/// The first candidate that exists, or the fallback name.
pub open spec fn first_existing(c: Seq<Seq<char>>, e: Seq<bool>) -> Seq<char> {
    first_existing_from(c, e, 0)
}

/// Joins a relative path onto a base directory, as [`join_spec`] says.
pub fn join_path(base: &str, rel: &str) -> (r: String)
    ensures
        r@ == join_spec(base@, rel@),
{
    let n = base.unicode_len();
    if n == 0 {
        return String::from_str(rel);
    }
    let last = base.get_char(n - 1);
    let mut r = String::from_str(base);
    if last != '/' && last != '\\' {
        proof {
            reveal_strlit("/");
        }
        r.append("/");
    }
    r.append(rel);
    r
}

fn venv_candidate(i: usize) -> (r: &'static str)
    requires
        i < 4,
    ensures
        r@ == venv_rel(i as int),
{
    if i == 0 {
        ".venv/bin/python3"
    } else if i == 1 {
        "venv/bin/python3"
    } else if i == 2 {
        ".venv/Scripts/python.exe"
    } else {
        "venv/Scripts/python.exe"
    }
}

fn push_base_candidates(out: &mut Vec<String>, base: &str)
    ensures
        string_views(final(out)@) == string_views(old(out)@) + base_candidates(base@),
{
    let ghost start = string_views(out@);
    let mut i: usize = 0;
    while i < 4
        invariant
            0 <= i <= 4,
            string_views(out@) == start + base_candidates(base@).take(i as int),
        decreases 4 - i,
    {
        let p = join_path(base, venv_candidate(i));
        let ghost before = out@;
        out.push(p);
        proof {
            assert(string_views(out@) =~= string_views(before).push(p@));
            assert(base_candidates(base@).take(i + 1) =~= base_candidates(base@).take(i as int)
                .push(base_candidates(base@)[i as int]));
            assert(string_views(out@) =~= start + base_candidates(base@).take(i + 1));
        }
        i += 1;
    }
    proof {
        assert(base_candidates(base@).take(4) =~= base_candidates(base@));
    }
}

/// The paths to probe, in order.
pub fn interpreter_candidates(exe_dir: &Option<String>, cwd: &str) -> (r: Vec<String>)
    ensures
        string_views(r@) == candidates_spec(option_view(*exe_dir), cwd@),
{
    let mut out: Vec<String> = Vec::new();
    proof {
        assert(string_views(out@) =~= Seq::<Seq<char>>::empty());
    }
    match exe_dir {
        Some(d) => {
            push_base_candidates(&mut out, d.as_str());
        },
        None => {},
    }
    push_base_candidates(&mut out, cwd);
    out
}

/// Picks the first candidate that was found on disk, else the fallback name.
/// `exists[i]` tells whether `candidates[i]` exists.
pub fn select_interpreter(candidates: &Vec<String>, exists: &Vec<bool>) -> (r: String)
    requires
        candidates.len() == exists.len(),
    ensures
        r@ == first_existing(string_views(candidates@), exists@),
{
    let ghost c = string_views(candidates@);
    let mut i: usize = 0;
    while i < candidates.len()
        invariant
            0 <= i <= candidates.len(),
            candidates.len() == exists.len(),
            c == string_views(candidates@),
            first_existing(c, exists@) == first_existing_from(c, exists@, i as int),
        decreases candidates.len() - i,
    {
        if exists[i] {
            return candidates[i].clone();
        }
        i += 1;
    }
    proof {
        reveal_strlit("python3");
    }
    String::from_str("python3")
}

proof fn lemma_first_existing_from_reaches(c: Seq<Seq<char>>, e: Seq<bool>, i: int, k: int)
    requires
        c.len() == e.len(),
        0 <= k <= i < c.len(),
        e[i],
        forall|j: int| 0 <= j < i ==> !e[j],
    ensures
        first_existing_from(c, e, k) == c[i],
    decreases i - k,
{
    if k < i {
        lemma_first_existing_from_reaches(c, e, i, k + 1);
    }
}

proof fn lemma_first_existing_from_none(c: Seq<Seq<char>>, e: Seq<bool>, k: int)
    requires
        c.len() == e.len(),
        0 <= k <= c.len(),
        forall|j: int| 0 <= j < e.len() ==> !e[j],
    ensures
        first_existing_from(c, e, k) == fallback_interpreter(),
    decreases c.len() - k,
{
    if k < c.len() {
        lemma_first_existing_from_none(c, e, k + 1);
    }
}

/// Priority order of the locator: when the candidate at position `i` exists
/// and none before it does, that candidate is chosen. Positions 0 to 3 lie
/// under the executable's directory when it is known, the rest under the
/// working directory; within each base the order is hidden Unix, plain Unix,
/// hidden Windows, plain Windows.
pub proof fn lemma_locator_priority(exe_dir: Option<Seq<char>>, cwd: Seq<char>, e: Seq<bool>, i: int)
    requires
        e.len() == candidates_spec(exe_dir, cwd).len(),
        0 <= i < e.len(),
        e[i],
        forall|j: int| 0 <= j < i ==> !e[j],
    ensures
        first_existing(candidates_spec(exe_dir, cwd), e) == candidates_spec(exe_dir, cwd)[i],
        exe_dir is Some && i < 4 ==> candidates_spec(exe_dir, cwd)[i] == join_spec(
            exe_dir->Some_0,
            venv_rel(i),
        ),
        exe_dir is Some && 4 <= i ==> candidates_spec(exe_dir, cwd)[i] == join_spec(
            cwd,
            venv_rel(i - 4),
        ),
        exe_dir is None ==> candidates_spec(exe_dir, cwd)[i] == join_spec(cwd, venv_rel(i)),
{
    lemma_first_existing_from_reaches(candidates_spec(exe_dir, cwd), e, i, 0);
}

/// When no candidate exists in either base, the fallback name is returned.
pub proof fn lemma_locator_fallback(exe_dir: Option<Seq<char>>, cwd: Seq<char>, e: Seq<bool>)
    requires
        e.len() == candidates_spec(exe_dir, cwd).len(),
        forall|j: int| 0 <= j < e.len() ==> !e[j],
    ensures
        first_existing(candidates_spec(exe_dir, cwd), e) == "python3"@,
{
    lemma_first_existing_from_none(candidates_spec(exe_dir, cwd), e, 0);
}

} // verus!
