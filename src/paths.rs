use vstd::prelude::*;

use crate::device_config::UtilError;

verus! {

/// Fallback directory of the effect scripts.
pub const DEFAULT_SCRIPT_DIR: &'static str = "/usr/share/eruption/scripts";

/// Fallback directory of the profiles.
pub const DEFAULT_PROFILE_DIR: &'static str = "/var/lib/eruption/profiles";

/// Position of the last `c` in `s`, or -1.
pub open spec fn last_index_of(s: Seq<char>, c: char) -> int
    decreases s.len(),
{
    if s.len() == 0 {
        -1
    } else if s.last() == c {
        s.len() - 1
    } else {
        last_index_of(s.drop_last(), c)
    }
}

proof fn lemma_last_index_bounds(s: Seq<char>, c: char)
    ensures
        -1 <= last_index_of(s, c) < s.len(),
        last_index_of(s, c) >= 0 ==> s[last_index_of(s, c)] == c,
    decreases s.len(),
{
    if s.len() > 0 && s.last() != c {
        lemma_last_index_bounds(s.drop_last(), c);
    }
}

/// Where the last component of path `p` starts.
pub open spec fn file_name_start(p: Seq<char>) -> int {
    last_index_of(p, '/') + 1
}

/// The last component of path `p`.
pub open spec fn file_name(p: Seq<char>) -> Seq<char> {
    p.subrange(file_name_start(p), p.len() as int)
}

/// Position in `p` of the dot that starts the extension: the last dot of
/// the file name, unless it is the name's first character or the name is `..`.
pub open spec fn extension_dot(p: Seq<char>) -> Option<int> {
    let name = file_name(p);
    let d = last_index_of(name, '.');
    if name == seq!['.', '.'] || d <= 0 {
        None
    } else {
        Some(file_name_start(p) + d)
    }
}

/// The extension of path `p`, without its dot.
pub open spec fn extension(p: Seq<char>) -> Option<Seq<char>> {
    match extension_dot(p) {
        Some(d) => Some(p.subrange(d + 1, p.len() as int)),
        None => None,
    }
}

/// Path `p` with its extension replaced by `lua.manifest`, or added where it
/// has none; a path whose last component is empty, `.` or `..` is kept.
pub open spec fn manifest_path(p: Seq<char>) -> Seq<char> {
    let name = file_name(p);
    if name.len() == 0 || name == seq!['.'] || name == seq!['.', '.'] {
        p
    } else {
        match extension_dot(p) {
            Some(d) => p.subrange(0, d) + ".lua.manifest"@,
            None => p + ".lua.manifest"@,
        }
    }
}

fn find_last(s: &str, c: char) -> (r: Option<usize>)
    ensures
        r is None <==> last_index_of(s@, c) == -1,
        r is Some ==> r->Some_0 == last_index_of(s@, c),
{
    proof {
        lemma_last_index_bounds(s@, c);
    }
    let n = s.unicode_len();
    let mut found: Option<usize> = None;
    let mut i: usize = 0;
    while i < n
        invariant
            i <= n,
            n == s@.len(),
            found is None <==> last_index_of(s@.take(i as int), c) == -1,
            found is Some ==> found->Some_0 == last_index_of(s@.take(i as int), c),
        decreases n - i,
    {
        proof {
            assert(s@.take(i + 1).drop_last() =~= s@.take(i as int));
            lemma_last_index_bounds(s@.take(i as int), c);
        }
        if s.get_char(i) == c {
            found = Some(i);
        }
        i = i + 1;
    }
    assert(s@.take(n as int) =~= s@);
    found
}

fn is_dots(name: &str, count: usize) -> (r: bool)
    requires
        count == 1 || count == 2,
    ensures
        r == (name@ == (if count == 1 {
            seq!['.']
        } else {
            seq!['.', '.']
        })),
{
    let n = name.unicode_len();
    if n != count {
        return false;
    }
    if name.get_char(0) != '.' {
        assert(name@ != seq!['.'] && name@ != seq!['.', '.']);
        return false;
    }
    if count == 2 && name.get_char(1) != '.' {
        assert(name@ != seq!['.', '.']);
        return false;
    }
    assert(name@ =~= (if count == 1 {
        seq!['.']
    } else {
        seq!['.', '.']
    }));
    true
}

/// The start of the file name of `p` and the position of its extension dot.
fn split_path(p: &str) -> (r: (usize, Option<usize>))
    ensures
        r.0 == file_name_start(p@),
        r.1 is None <==> extension_dot(p@) is None,
        r.1 is Some ==> r.1->Some_0 == extension_dot(p@)->Some_0,
        r.0 <= p@.len(),
        r.1 is Some ==> r.0 < r.1->Some_0 < p@.len(),
{
    proof {
        lemma_last_index_bounds(p@, '/');
    }
    let n = p.unicode_len();
    let start: usize = match find_last(p, '/') {
        Some(i) => i + 1,
        None => 0,
    };
    let name = p.substring_char(start, n);
    proof {
        lemma_last_index_bounds(name@, '.');
    }
    let dot = if is_dots(name, 2) {
        None
    } else {
        match find_last(name, '.') {
            Some(d) => if d == 0 {
                None
            } else {
                Some(start + d)
            },
            None => None,
        }
    };
    (start, dot)
}

/// The path of the manifest that describes the script at `script_file`.
pub fn get_manifest_for(script_file: &str) -> (r: String)
    ensures
        r@ == manifest_path(script_file@),
{
    let n = script_file.unicode_len();
    let (start, dot) = split_path(script_file);
    let name = script_file.substring_char(start, n);
    if n == start || is_dots(name, 1) || is_dots(name, 2) {
        return String::from_str(script_file);
    }
    match dot {
        Some(d) => {
            let mut out = String::from_str(script_file.substring_char(0, d));
            out.append(".lua.manifest");
            out
        },
        None => {
            let mut out = String::from_str(script_file);
            out.append(".lua.manifest");
            out
        },
    }
}

/// Whether path `p` has the extension `profile`.
pub open spec fn is_profile_file(p: String) -> bool {
    extension(p@) == Some("profile"@)
}

/// Keeps the directory entries that are profile files, in order.
pub fn get_profile_files(entries: &[String]) -> (r: Vec<String>)
    ensures
        r@ == entries@.filter(|p: String| is_profile_file(p)),
{
    let wanted = String::from_str("profile");
    let mut out: Vec<String> = Vec::new();
    let mut k: usize = 0;
    while k < entries.len()
        invariant
            k <= entries@.len(),
            wanted@ == "profile"@,
            out@ == entries@.take(k as int).filter(|p: String| is_profile_file(p)),
        decreases entries@.len() - k,
    {
        let p = entries[k].as_str();
        let n = p.unicode_len();
        let (_, dot) = split_path(p);
        let keep = match dot {
            Some(d) => String::from_str(p.substring_char(d + 1, n)) == wanted,
            None => false,
        };
        proof {
            assert(entries@.take(k + 1).drop_last() =~= entries@.take(k as int));
            reveal(Seq::filter);
        }
        if keep {
            out.push(entries[k].clone());
        }
        k = k + 1;
    }
    assert(entries@.take(entries@.len() as int) =~= entries@);
    out
}

/// The first of `scripts` whose file name is `script`.
pub fn match_script_file(script: &str, scripts: &[String]) -> (r: Result<String, UtilError>)
    ensures
        r is Err <==> !(exists|k: int| 0 <= k < scripts@.len() && file_name(scripts@[k]@) == script@),
        r is Err ==> r->Err_0 == UtilError::ScriptEnumerationError,
        r is Ok ==> exists|k: int|
            0 <= k < scripts@.len() && file_name(scripts@[k]@) == script@ && r->Ok_0 == scripts@[k]
                && forall|j: int| 0 <= j < k ==> file_name(scripts@[j]@) != script@,
{
    let wanted = String::from_str(script);
    let mut k: usize = 0;
    while k < scripts.len()
        invariant
            k <= scripts@.len(),
            wanted@ == script@,
            forall|j: int| 0 <= j < k ==> file_name(scripts@[j]@) != script@,
        decreases scripts@.len() - k,
    {
        let p = scripts[k].as_str();
        let n = p.unicode_len();
        let (start, _) = split_path(p);
        if String::from_str(p.substring_char(start, n)) == wanted {
            return Ok(scripts[k].clone());
        }
        k = k + 1;
    }
    Err(UtilError::ScriptEnumerationError)
}

fn copy_or_fallback(configured: &[String], fallback: &str) -> (r: Vec<String>)
    ensures
        configured@.len() > 0 ==> r@ == configured@,
        configured@.len() == 0 ==> r@.len() == 1 && r@[0]@ == fallback@,
{
    if configured.len() == 0 {
        let mut out: Vec<String> = Vec::new();
        out.push(String::from_str(fallback));
        return out;
    }
    let mut out: Vec<String> = Vec::new();
    let mut k: usize = 0;
    while k < configured.len()
        invariant
            k <= configured@.len(),
            out@ == configured@.take(k as int),
        decreases configured@.len() - k,
    {
        out.push(configured[k].clone());
        assert(out@ =~= configured@.take(k + 1));
        k = k + 1;
    }
    assert(configured@.take(configured@.len() as int) =~= configured@);
    out
}

/// The script directories: those configured, or the default one where
/// none is.
pub fn get_script_dirs(configured: &[String]) -> (r: Vec<String>)
    ensures
        configured@.len() > 0 ==> r@ == configured@,
        configured@.len() == 0 ==> r@.len() == 1 && r@[0]@ == DEFAULT_SCRIPT_DIR@,
{
    copy_or_fallback(configured, DEFAULT_SCRIPT_DIR)
}

/// The profile directories: those configured, or the default one where
/// none is.
pub fn get_profile_dirs(configured: &[String]) -> (r: Vec<String>)
    ensures
        configured@.len() > 0 ==> r@ == configured@,
        configured@.len() == 0 ==> r@.len() == 1 && r@[0]@ == DEFAULT_PROFILE_DIR@,
{
    copy_or_fallback(configured, DEFAULT_PROFILE_DIR)
}

} // verus!
