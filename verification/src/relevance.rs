//! Change-path relevance: whether a changed path should trigger a rebuild,
//! given normalized include/exclude extension lists. Paths are modeled as
//! character sequences whose component separator is `/`; on the platform
//! family whose separator is the backslash, the caller normalizes paths to
//! `/` before handing them in (a backslash is an ordinary file-name
//! character elsewhere).

use vstd::prelude::*;
use vstd::string::StrSliceExecFns;
use crate::text::{lower_chars, lower_char_exec};

verus! {

/// Index of the last occurrence of `c` in `s`, or `-1` if there is none.
pub open spec fn last_index_of(s: Seq<char>, c: char) -> int
    decreases s.len(),
{
    if s.len() == 0 {
        -1
    } else if s.last() == c {
        s.len() - 1
    } else {
        last_index_of(s.drop_last(), c)
    }
}

proof fn lemma_last_index_from_witness(s: Seq<char>, c: char, idx: int)
    requires
        0 <= idx < s.len(),
        s[idx] == c,
        forall|j: int| idx < j < s.len() ==> s[j] != c,
    ensures
        last_index_of(s, c) == idx,
    decreases s.len(),
{
    if idx == s.len() - 1 {
    } else {
        lemma_last_index_from_witness(s.drop_last(), c, idx);
    }
}

proof fn lemma_last_index_absent(s: Seq<char>, c: char)
    requires
        forall|j: int| 0 <= j < s.len() ==> s[j] != c,
    ensures
        last_index_of(s, c) == -1,
    decreases s.len(),
{
    if s.len() > 0 {
        lemma_last_index_absent(s.drop_last(), c);
    }
}

/// The file-name component of a path: everything after the last `/`, or the
/// whole path when it has none.
pub open spec fn file_name_of(path: Seq<char>) -> Seq<char> {
    path.subrange(last_index_of(path, '/') + 1, path.len() as int)
}

/// The extension of a file name: everything after the last dot, except that
/// a name without a dot, or with its only dot at the front (a hidden file),
/// has none.
pub open spec fn extension_of(name: Seq<char>) -> Option<Seq<char>> {
    let d = last_index_of(name, '.');
    if d <= 0 {
        None
    } else {
        Some(name.subrange(d + 1, name.len() as int))
    }
}

/// The relevance rule: the project descriptor and lock files always trigger;
/// a path without an extension never does; an excluded extension never does;
/// otherwise the (lower-cased) extension must be in the include list.
pub open spec fn is_relevant_spec(path: Seq<char>, include_ext: Seq<Seq<char>>, exclude_ext: Seq<
    Seq<char>,
>) -> bool {
    let name = file_name_of(path);
    if name == "Cargo.toml"@ || name == "Cargo.lock"@ {
        true
    } else {
        match extension_of(name) {
            None => false,
            Some(e) => {
                let el = lower_chars(e);
                el.len() > 0 && !exclude_ext.contains(el) && include_ext.contains(el)
            },
        }
    }
}

/// True when the characters of `s` between `lo` and `hi` are exactly `w`.
fn range_eq_str(v: &Vec<char>, lo: usize, hi: usize, w: &str) -> (r: bool)
    requires
        lo <= hi <= v@.len(),
    ensures
        r == (v@.subrange(lo as int, hi as int) == w@),
{
    let n = w.unicode_len();
    if hi - lo != n {
        proof {
            assert(v@.subrange(lo as int, hi as int).len() != w@.len());
        }
        return false;
    }
    let mut k: usize = 0;
    while k < n
        invariant
            lo <= hi <= v@.len(),
            hi - lo == n == w@.len(),
            k <= n,
            forall|j: int| 0 <= j < k ==> v@[lo + j] == w@[j],
        decreases n - k,
    {
        if v[lo + k] != w.get_char(k) {
            proof {
                assert(v@.subrange(lo as int, hi as int)[k as int] != w@[k as int]);
            }
            return false;
        }
        k = k + 1;
    }
    proof {
        assert(v@.subrange(lo as int, hi as int) =~= w@);
    }
    true
}

/// True when `s` spells exactly the characters of `w`.
fn string_eq_chars(s: &String, w: &Vec<char>) -> (r: bool)
    ensures
        r == (s@ == w@),
{
    let n = s.as_str().unicode_len();
    if n != w.len() {
        return false;
    }
    let mut k: usize = 0;
    while k < n
        invariant
            n == s@.len() == w@.len(),
            k <= n,
            forall|j: int| 0 <= j < k ==> s@[j] == w@[j],
        decreases n - k,
    {
        if s.as_str().get_char(k) != w[k] {
            return false;
        }
        k = k + 1;
    }
    proof {
        assert(s@ =~= w@);
    }
    true
}

/// True when some string of `list` spells exactly the characters `w`.
fn list_contains_chars(list: &Vec<String>, w: &Vec<char>) -> (r: bool)
    ensures
        r == list.deep_view().contains(w@),
{
    let mut i: usize = 0;
    while i < list.len()
        invariant
            i <= list.len(),
            forall|j: int| 0 <= j < i ==> list.deep_view()[j] != w@,
        decreases list.len() - i,
    {
        if string_eq_chars(&list[i], w) {
            proof {
                assert(list.deep_view()[i as int] == w@);
            }
            return true;
        }
        i = i + 1;
    }
    false
}

/// Scans for the last occurrence of `c` in `v`, returning one past its index,
/// or `0` when `c` does not occur.
fn after_last(v: &Vec<char>, c: char) -> (r: usize)
    ensures
        r == last_index_of(v@, c) + 1,
        r <= v@.len(),
{
    let mut k: usize = v.len();
    while k > 0
        invariant
            k <= v@.len(),
            forall|j: int| k <= j < v@.len() ==> v@[j] != c,
        decreases k,
    {
        if v[k - 1] == c {
            proof {
                lemma_last_index_from_witness(v@, c, k - 1);
            }
            return k;
        }
        k = k - 1;
    }
    proof {
        lemma_last_index_absent(v@, c);
    }
    0
}

/// True when the path's file-name component is exactly `want`.
pub fn file_name_is(path: &str, want: &str) -> (r: bool)
    ensures
        r == (file_name_of(path@) == want@),
{
    let cs = crate::text::str_chars(path);
    let n = cs.len();
    let name_start = after_last(&cs, '/');
    proof {
        assert(file_name_of(path@) =~= cs@.subrange(name_start as int, n as int));
    }
    range_eq_str(&cs, name_start, n, want)
}

/// The extension characters of a path's file name, if it has an extension.
pub fn path_extension_chars(path: &str) -> (r: Option<Vec<char>>)
    ensures
        match r {
            Some(v) => extension_of(file_name_of(path@)) == Some(v@),
            None => extension_of(file_name_of(path@)) is None,
        },
{
    let cs = crate::text::str_chars(path);
    let n = cs.len();
    let name_start = after_last(&cs, '/');
    let ghost name = file_name_of(path@);
    proof {
        assert(name =~= cs@.subrange(name_start as int, n as int));
    }
    // Last dot within the file name; a dot at or before the name's first
    // character yields no extension.
    let mut d: usize = n;
    let mut found = false;
    while d > name_start && !found
        invariant
            name_start <= d <= n == cs@.len(),
            !found ==> forall|j: int| d <= j < n ==> cs@[j] != '.',
            found ==> name_start <= d < n && cs@[d as int] == '.' && (forall|j: int|
                d < j < n ==> cs@[j] != '.'),
        decreases d,
    {
        if cs[d - 1] == '.' {
            d = d - 1;
            found = true;
        } else {
            d = d - 1;
        }
    }
    proof {
        if found {
            lemma_last_index_from_witness(name, '.', d - name_start);
        } else {
            lemma_last_index_absent(name, '.');
        }
    }
    if !found || d == name_start {
        return None;
    }
    let mut ext: Vec<char> = Vec::new();
    let mut t: usize = d + 1;
    while t < n
        invariant
            d + 1 <= t <= n <= cs@.len(),
            ext@ == cs@.subrange(d + 1 as int, t as int),
        decreases n - t,
    {
        ext.push(cs[t]);
        proof {
            assert(cs@.subrange(d + 1 as int, t + 1 as int) =~= cs@.subrange(
                d + 1 as int,
                t as int,
            ).push(cs@[t as int]));
        }
        t = t + 1;
    }
    proof {
        assert(extension_of(name)->Some_0 =~= ext@);
    }
    Some(ext)
}

/// Returns true if this path should trigger a rebuild or restart.
pub fn is_relevant_path(path: &str, include_ext: &Vec<String>, exclude_ext: &Vec<String>) -> (r:
    bool)
    ensures
        r == is_relevant_spec(path@, include_ext.deep_view(), exclude_ext.deep_view()),
{
    if file_name_is(path, "Cargo.toml") || file_name_is(path, "Cargo.lock") {
        return true;
    }
    let raw = match path_extension_chars(path) {
        Some(v) => v,
        None => {
            return false;
        },
    };
    // Lower-cased extension characters.
    let mut ext: Vec<char> = Vec::new();
    let mut t: usize = 0;
    while t < raw.len()
        invariant
            t <= raw@.len(),
            ext@ == lower_chars(raw@.subrange(0, t as int)),
        decreases raw@.len() - t,
    {
        ext.push(lower_char_exec(raw[t]));
        proof {
            let prev = raw@.subrange(0, t as int);
            let next = raw@.subrange(0, t + 1 as int);
            assert(next =~= prev.push(raw@[t as int]));
            assert(lower_chars(next) =~= lower_chars(prev).push(
                crate::text::lower_char(raw@[t as int]),
            ));
        }
        t = t + 1;
    }
    proof {
        assert(raw@.subrange(0, raw@.len() as int) =~= raw@);
    }
    if ext.len() == 0 {
        return false;
    }
    if list_contains_chars(exclude_ext, &ext) {
        return false;
    }
    list_contains_chars(include_ext, &ext)
}

/// Whether a path names a Rust source file: its extension is exactly `rs`.
pub open spec fn is_rust_source(path: Seq<char>) -> bool {
    extension_of(file_name_of(path)) == Some("rs"@)
}

/// True when the path names a Rust source file.
pub fn is_rust_source_path(path: &str) -> (r: bool)
    ensures
        r == is_rust_source(path@),
{
    proof {
        reveal_strlit("rs");
    }
    match path_extension_chars(path) {
        None => false,
        Some(v) => {
            if v.len() == 2 && v[0] == 'r' && v[1] == 's' {
                proof {
                    assert(v@ =~= "rs"@);
                }
                true
            } else {
                proof {
                    assert(v@ != "rs"@);
                }
                false
            }
        },
    }
}

/// The relevance overrides: the descriptor and lock files trigger whatever
/// the extension lists hold; a path without an extension never triggers; an
/// extension in the exclude list never triggers for any other file, even
/// when the include list holds it too.
pub proof fn lemma_relevance_overrides(path: Seq<char>, include_ext: Seq<Seq<char>>, exclude_ext: Seq<
    Seq<char>,
>)
    ensures
        file_name_of(path) == "Cargo.toml"@ ==> is_relevant_spec(path, include_ext, exclude_ext),
        file_name_of(path) == "Cargo.lock"@ ==> is_relevant_spec(path, include_ext, exclude_ext),
        extension_of(file_name_of(path)) is None ==> !is_relevant_spec(
            path,
            include_ext,
            exclude_ext,
        ),
        (file_name_of(path) != "Cargo.toml"@ && file_name_of(path) != "Cargo.lock"@ && (
        extension_of(file_name_of(path)) matches Some(e) && exclude_ext.contains(lower_chars(e))))
            ==> !is_relevant_spec(path, include_ext, exclude_ext),
{
    let name = file_name_of(path);
    if extension_of(name) is None && (name == "Cargo.toml"@ || name == "Cargo.lock"@) {
        // The descriptor and lock names do have extensions, so this case is
        // impossible; exhibit the dot of either literal.
        reveal_strlit("Cargo.toml");
        reveal_strlit("Cargo.lock");
        assert(name[5] == '.');
        assert forall|j: int| 5 < j < name.len() implies name[j] != '.' by {
            if j == 6 {
                assert(name[6] != '.');
            } else if j == 7 {
                assert(name[7] != '.');
            } else if j == 8 {
                assert(name[8] != '.');
            } else {
                assert(name[9] != '.');
            }
        }
        lemma_last_index_from_witness(name, '.', 5);
    }
}

} // verus!
