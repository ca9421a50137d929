//! Ignore-pattern matching. Pattern compilation and matching are done by the
//! `globset` crate; its types and calls are specified here, and the set is
//! assembled by verified code.

use vstd::prelude::*;
use crate::errors::ConfigError;

verus! {

#[verifier::external_type_specification]
#[verifier::external_body]
pub struct ExGlob(globset::Glob);

#[verifier::external_type_specification]
#[verifier::external_body]
pub struct ExGlobSetBuilder(globset::GlobSetBuilder);

#[verifier::external_type_specification]
#[verifier::external_body]
pub struct ExGlobSet(globset::GlobSet);

#[verifier::external_type_specification]
#[verifier::external_body]
pub struct ExGlobError(globset::Error);

/// The pattern string a compiled glob was built from.
pub uninterp spec fn glob_pattern(g: globset::Glob) -> Seq<char>;

/// Whether the pattern compiler accepts a pattern string.
pub uninterp spec fn glob_pattern_ok(pat: Seq<char>) -> bool;

/// The patterns collected in a builder, in insertion order.
pub uninterp spec fn builder_patterns(b: globset::GlobSetBuilder) -> Seq<Seq<char>>;

/// The patterns a compiled set was built from, in insertion order.
pub uninterp spec fn globset_patterns(s: globset::GlobSet) -> Seq<Seq<char>>;

/// Whether one glob pattern matches one path.
pub uninterp spec fn glob_matches(pat: Seq<char>, path: Seq<char>) -> bool;

/// Whether the set compiler turns this pattern list into a matcher. Building
/// is a deterministic function of the patterns alone.
pub uninterp spec fn globset_build_ok(pats: Seq<Seq<char>>) -> bool;

/// Whether any pattern of a set matches a path.
pub open spec fn globset_match(pats: Seq<Seq<char>>, path: Seq<char>) -> bool {
    exists|i: int| 0 <= i < pats.len() && glob_matches(pats[i], path)
}

/// Relies on `globset::Glob::new`: parses the pattern string alone, and
/// returns the compiled glob for it, or an error for a malformed pattern.
#[verifier::external_body]
fn glob_new(pat: &str) -> (r: Result<globset::Glob, globset::Error>)
    ensures
        r is Ok <==> glob_pattern_ok(pat@),
        r matches Ok(g) ==> glob_pattern(g) == pat@,
{
    globset::Glob::new(pat)
}

/// Relies on `globset::GlobSetBuilder::new`: starts from no patterns.
#[verifier::external_body]
fn globset_builder_new() -> (r: globset::GlobSetBuilder)
    ensures
        builder_patterns(r) == Seq::<Seq<char>>::empty(),
{
    globset::GlobSetBuilder::new()
}

/// Relies on `globset::GlobSetBuilder::add`: appends one pattern.
#[verifier::external_body]
fn globset_builder_add(b: &mut globset::GlobSetBuilder, g: globset::Glob)
    ensures
        builder_patterns(*final(b)) == builder_patterns(*old(b)).push(glob_pattern(g)),
{
    b.add(g);
}

/// Relies on `globset::GlobSetBuilder::build`: whether the set builds is a
/// function of the patterns added so far, and a successfully built set
/// matches for exactly those patterns.
#[verifier::external_body]
fn globset_builder_build(b: &globset::GlobSetBuilder) -> (r: Result<
    globset::GlobSet,
    globset::Error,
>)
    ensures
        r is Ok <==> globset_build_ok(builder_patterns(*b)),
        r matches Ok(s) ==> globset_patterns(s) == builder_patterns(*b),
{
    b.build()
}

/// Relies on `globset::GlobSet::is_match`: true exactly when some glob in the
/// set matches the path.
#[verifier::external_body]
pub(crate) fn globset_is_match(s: &globset::GlobSet, path: &str) -> (r: bool)
    ensures
        r == (exists|i: int|
            0 <= i < globset_patterns(*s).len() && glob_matches(
                #[trigger] globset_patterns(*s)[i],
                path@,
            )),
{
    s.is_match(path)
}

/// What compiling a pattern list returns: the matcher set exactly when every
/// pattern is well-formed and the set builds; the first malformed pattern
/// otherwise, or a set-build failure with every pattern well-formed.
pub open spec fn build_globset_result_spec(pats: Seq<Seq<char>>, r: Result<
    globset::GlobSet,
    ConfigError,
>) -> bool {
    &&& (r is Ok <==> (forall|i: int| 0 <= i < pats.len() ==> glob_pattern_ok(#[trigger] pats[i]))
        && globset_build_ok(pats))
    &&& match r {
        Ok(s) => globset_patterns(s) == pats,
        Err(e) => match e {
            ConfigError::InvalidGlob(p) => exists|i: int|
                0 <= i < pats.len() && !glob_pattern_ok(#[trigger] pats[i]) && p@ == pats[i] && (
                forall|j: int| 0 <= j < i ==> glob_pattern_ok(#[trigger] pats[j])),
            ConfigError::GlobSetBuild => !globset_build_ok(pats) && (forall|i: int|
                0 <= i < pats.len() ==> glob_pattern_ok(#[trigger] pats[i])),
            _ => false,
        },
    }
}

/// Compiles a list of glob patterns into one matcher set: the set exactly
/// when every pattern is well-formed and the set builds, else the first
/// malformed pattern, reported.
pub fn build_globset(globs: &Vec<String>) -> (r: Result<globset::GlobSet, ConfigError>)
    ensures
        build_globset_result_spec(globs.deep_view(), r),
{
    let ghost pats = globs.deep_view();
    let mut b = globset_builder_new();
    let mut i: usize = 0;
    while i < globs.len()
        invariant
            pats == globs.deep_view(),
            i <= globs.len(),
            builder_patterns(b) == pats.subrange(0, i as int),
            forall|j: int| 0 <= j < i ==> glob_pattern_ok(#[trigger] pats[j]),
        decreases globs.len() - i,
    {
        match glob_new(globs[i].as_str()) {
            Ok(g) => {
                globset_builder_add(&mut b, g);
                proof {
                    assert(pats.subrange(0, i as int).push(pats[i as int]) =~= pats.subrange(
                        0,
                        i + 1 as int,
                    ));
                }
            },
            Err(_) => {
                proof {
                    assert(pats[i as int] == globs@[i as int]@);
                }
                return Err(ConfigError::InvalidGlob(globs[i].clone()));
            },
        }
        i = i + 1;
    }
    proof {
        assert(pats.subrange(0, globs.len() as int) =~= pats);
    }
    match globset_builder_build(&b) {
        Ok(s) => Ok(s),
        Err(_) => Err(ConfigError::GlobSetBuild),
    }
}

} // verus!
