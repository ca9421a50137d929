//! Character-level utilities: whitespace trimming, ASCII lower-casing and
//! extension-token normalization, all specified over `Seq<char>`.

use vstd::prelude::*;
use vstd::string::StrSliceExecFns;

verus! {

/// The Unicode `White_Space` code points, as `str::trim` sees them.
pub open spec fn is_space_char(c: char) -> bool {
    ||| c == ' '
    ||| ('\u{9}' <= c && c <= '\u{d}')
    ||| c == '\u{85}'
    ||| c == '\u{a0}'
    ||| c == '\u{1680}'
    ||| ('\u{2000}' <= c && c <= '\u{200a}')
    ||| c == '\u{2028}'
    ||| c == '\u{2029}'
    ||| c == '\u{202f}'
    ||| c == '\u{205f}'
    ||| c == '\u{3000}'
}

/// ASCII lower-casing of one character: `A`..`Z` map to `a`..`z`, everything
/// else is unchanged.
pub open spec fn lower_char(c: char) -> char {
    if 'A' <= c && c <= 'Z' {
        ((c as u8) + 32) as char
    } else {
        c
    }
}

/// ASCII lower-casing of a character sequence.
pub open spec fn lower_chars(s: Seq<char>) -> Seq<char> {
    s.map_values(|c: char| lower_char(c))
}

/// Leading whitespace removed.
pub open spec fn trim_front(s: Seq<char>) -> Seq<char>
    decreases s.len(),
{
    if s.len() > 0 && is_space_char(s[0]) {
        trim_front(s.drop_first())
    } else {
        s
    }
}

/// Trailing whitespace removed.
pub open spec fn trim_back(s: Seq<char>) -> Seq<char>
    decreases s.len(),
{
    if s.len() > 0 && is_space_char(s.last()) {
        trim_back(s.drop_last())
    } else {
        s
    }
}

/// Leading and trailing whitespace removed, as `str::trim` does.
pub open spec fn trim_chars(s: Seq<char>) -> Seq<char> {
    trim_back(trim_front(s))
}

/// At most one leading dot removed.
pub open spec fn strip_leading_dot(s: Seq<char>) -> Seq<char> {
    if s.len() > 0 && s[0] == '.' {
        s.subrange(1, s.len() as int)
    } else {
        s
    }
}

/// Extension-token normalization: trim whitespace, strip a single leading
/// dot, lower-case.
pub open spec fn norm_ext_spec(s: Seq<char>) -> Seq<char> {
    lower_chars(strip_leading_dot(trim_chars(s)))
}

/// Relies on `String: FromIterator<char>`: collecting characters yields the
/// string of exactly those characters, in order.
#[verifier::external_body]
pub(crate) fn chars_to_string(v: &Vec<char>) -> (r: String)
    ensures
        r@ == v@,
{
    v.iter().collect()
}

/// The characters of `s`, as a vector.
pub fn str_chars(s: &str) -> (r: Vec<char>)
    ensures
        r@ == s@,
{
    let n = s.unicode_len();
    let mut r: Vec<char> = Vec::new();
    let mut i: usize = 0;
    while i < n
        invariant
            n == s@.len(),
            i <= n,
            r@ == s@.subrange(0, i as int),
        decreases n - i,
    {
        r.push(s.get_char(i));
        assert(r@ =~= s@.subrange(0, i + 1 as int));
        i = i + 1;
    }
    assert(r@ =~= s@);
    r
}

/// Executable ASCII lower-casing of one character.
pub fn lower_char_exec(c: char) -> (r: char)
    ensures
        r == lower_char(c),
{
    if 'A' <= c && c <= 'Z' {
        ((c as u8) + 32) as char
    } else {
        c
    }
}

proof fn lemma_trim_front_is_subrange(s: Seq<char>, a: int)
    requires
        0 <= a <= s.len(),
        forall|j: int| 0 <= j < a ==> is_space_char(s[j]),
        a < s.len() ==> !is_space_char(s[a]),
    ensures
        trim_front(s) == s.subrange(a, s.len() as int),
    decreases a,
{
    if a == 0 {
        assert(s.subrange(0, s.len() as int) =~= s);
    } else {
        let t = s.drop_first();
        assert(forall|j: int| 0 <= j < a - 1 ==> is_space_char(#[trigger] t[j]));
        lemma_trim_front_is_subrange(t, a - 1);
        assert(t.subrange(a - 1, t.len() as int) =~= s.subrange(a, s.len() as int));
    }
}

proof fn lemma_trim_back_is_subrange(s: Seq<char>, b: int)
    requires
        0 <= b <= s.len(),
        forall|j: int| b <= j < s.len() ==> is_space_char(s[j]),
        b > 0 ==> !is_space_char(s[b - 1]),
    ensures
        trim_back(s) == s.subrange(0, b),
    decreases s.len() - b,
{
    if b == s.len() {
        if s.len() > 0 && is_space_char(s.last()) {
            assert(false);
        }
        assert(s.subrange(0, s.len() as int) =~= s);
    } else {
        let t = s.drop_last();
        lemma_trim_back_is_subrange(t, b);
        assert(t.subrange(0, b) =~= s.subrange(0, b));
    }
}

/// Normalizes one extension token: whitespace trimmed, a single leading dot
/// stripped, ASCII letters lower-cased.
pub fn norm_ext(s: &str) -> (r: String)
    ensures
        r@ == norm_ext_spec(s@),
{
    let cs = str_chars(s);
    let n = cs.len();
    let mut start: usize = 0;
    while start < n && is_space_exec(cs[start])
        invariant
            n == cs@.len(),
            start <= n,
            forall|j: int| 0 <= j < start ==> is_space_char(cs@[j]),
        decreases n - start,
    {
        start = start + 1;
    }
    proof {
        lemma_trim_front_is_subrange(cs@, start as int);
    }
    let ghost fronted = cs@.subrange(start as int, n as int);
    let mut end: usize = n;
    while end > start && is_space_exec(cs[end - 1])
        invariant
            n == cs@.len(),
            start <= end <= n,
            forall|j: int| end <= j < n ==> is_space_char(cs@[j]),
        decreases end,
    {
        end = end - 1;
    }
    proof {
        assert(forall|j: int| end - start <= j < fronted.len() ==> is_space_char(#[trigger] fronted[j]));
        lemma_trim_back_is_subrange(fronted, end - start);
        assert(trim_chars(cs@) =~= cs@.subrange(start as int, end as int));
    }
    let ghost trimmed = cs@.subrange(start as int, end as int);
    if start < end && cs[start] == '.' {
        start = start + 1;
        proof {
            assert(strip_leading_dot(trimmed) =~= cs@.subrange(start as int, end as int));
        }
    }
    let ghost stripped = cs@.subrange(start as int, end as int);
    assert(stripped == strip_leading_dot(trim_chars(cs@)));
    let mut out: Vec<char> = Vec::new();
    let mut i: usize = start;
    while i < end
        invariant
            end <= cs@.len(),
            start <= i <= end,
            stripped == cs@.subrange(start as int, end as int),
            out@ == lower_chars(cs@.subrange(start as int, i as int)),
        decreases end - i,
    {
        out.push(lower_char_exec(cs[i]));
        proof {
            let prev = cs@.subrange(start as int, i as int);
            let next = cs@.subrange(start as int, i + 1 as int);
            assert(next =~= prev.push(cs@[i as int]));
            assert(lower_chars(next) =~= lower_chars(prev).push(lower_char(cs@[i as int])));
        }
        i = i + 1;
    }
    assert(out@ =~= lower_chars(stripped));
    chars_to_string(&out)
}

proof fn lemma_lower_char_keeps_space_class(c: char)
    ensures
        is_space_char(lower_char(c)) == is_space_char(c),
        lower_char(lower_char(c)) == lower_char(c),
{
}

proof fn lemma_trim_back_last_not_space(s: Seq<char>)
    ensures
        trim_back(s).len() > 0 ==> !is_space_char(trim_back(s).last()),
    decreases s.len(),
{
    if s.len() > 0 && is_space_char(s.last()) {
        lemma_trim_back_last_not_space(s.drop_last());
    }
}

/// Normalization is idempotent, except on the tokens whose normal form still
/// begins with a dot or with whitespace (as `"..x"` or `". x"` leave behind).
pub proof fn lemma_norm_ext_idempotent(s: Seq<char>)
    requires
        norm_ext_spec(s).len() > 0 ==> !is_space_char(norm_ext_spec(s)[0]) && norm_ext_spec(
            s,
        )[0] != '.',
    ensures
        norm_ext_spec(norm_ext_spec(s)) == norm_ext_spec(s),
{
    let u = strip_leading_dot(trim_chars(s));
    let t = norm_ext_spec(s);
    assert(t == lower_chars(u));
    assert(t.len() == u.len());
    if t.len() > 0 {
        // No trailing whitespace: the last character survives trimming and
        // lower-casing keeps its whitespace class.
        lemma_trim_back_last_not_space(trim_front(s));
        let tc = trim_chars(s);
        assert(u.last() == tc.last());
        assert(t.last() == lower_char(u.last()));
        lemma_lower_char_keeps_space_class(u.last());
        assert(!is_space_char(t.last()));
    }
    assert(trim_front(t) == t);
    assert(trim_back(t) == t);
    assert(trim_chars(t) == t);
    assert(strip_leading_dot(t) == t);
    assert(lower_chars(t) =~= t) by {
        assert forall|i: int| 0 <= i < t.len() implies lower_chars(t)[i] == t[i] by {
            assert(t[i] == lower_char(u[i]));
            lemma_lower_char_keeps_space_class(u[i]);
        }
    }
}

/// Executable test for the whitespace characters of `is_space_char`.
fn is_space_exec(c: char) -> (r: bool)
    ensures
        r == is_space_char(c),
{
    c == ' ' || ('\u{9}' <= c && c <= '\u{d}') || c == '\u{85}' || c == '\u{a0}'
        || c == '\u{1680}' || ('\u{2000}' <= c && c <= '\u{200a}') || c == '\u{2028}'
        || c == '\u{2029}' || c == '\u{202f}' || c == '\u{205f}' || c == '\u{3000}'
}

} // verus!
