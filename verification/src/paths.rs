//! Resolved run paths: the conventional build-output location of a binary,
//! `<target-dir>/<release|debug>/<platform binary name>`, and the fallback
//! chain that picks the binary name.

use vstd::prelude::*;
use vstd::string::StringExecFns;
use crate::errors::ResolutionError;
use crate::config::EffectiveConfig;

verus! {

/// The platform binary name: the configured name, with the executable suffix
/// appended on the platform family that requires one.
pub open spec fn exe_name_spec(bin: Seq<char>, exe_suffix: bool) -> Seq<char> {
    if exe_suffix {
        bin + ".exe"@
    } else {
        bin
    }
}

/// The profile segment of the output path.
pub open spec fn profile_spec(release: bool) -> Seq<char> {
    if release {
        "release"@
    } else {
        "debug"@
    }
}

/// The conventional output path of a built binary.
pub open spec fn exe_path_spec(target_dir: Seq<char>, release: bool, bin: Seq<char>, exe_suffix:
    bool) -> Seq<char> {
    target_dir + "/"@ + profile_spec(release) + "/"@ + exe_name_spec(bin, exe_suffix)
}

/// The binary-name fallback chain: the configured binary name, else the
/// configured package name, else the working directory's base name.
pub open spec fn bin_name_choice(bin: Option<Seq<char>>, package: Option<Seq<char>>, cwd_name:
    Option<Seq<char>>) -> Option<Seq<char>> {
    if bin is Some {
        bin
    } else if package is Some {
        package
    } else {
        cwd_name
    }
}

/// The platform name of a binary.
pub fn exe_name(bin: &str, exe_suffix: bool) -> (r: String)
    ensures
        r@ == exe_name_spec(bin@, exe_suffix),
{
    let name = bin.to_owned();
    if exe_suffix {
        name.concat(".exe")
    } else {
        name
    }
}

/// The conventional output path of a built binary.
pub fn exe_path(target_dir: &str, release: bool, bin: &str, exe_suffix: bool) -> (r: String)
    ensures
        r@ == exe_path_spec(target_dir@, release, bin@, exe_suffix),
{
    let mut p = target_dir.to_owned();
    p.append("/");
    if release {
        p.append("release");
    } else {
        p.append("debug");
    }
    p.append("/");
    let name = exe_name(bin, exe_suffix);
    p.append(name.as_str());
    proof {
        assert(p@ =~= exe_path_spec(target_dir@, release, bin@, exe_suffix));
    }
    p
}

/// Picks the binary name to run: configured binary, else package, else the
/// working directory's base name; fails when none is available.
pub fn resolve_bin_name(eff: &EffectiveConfig, cwd_name: &Option<String>) -> (r: Result<
    String,
    ResolutionError,
>)
    ensures
        r matches Ok(n) ==> Some(n@) == bin_name_choice(
            eff.bin.deep_view(),
            eff.package.deep_view(),
            cwd_name.deep_view(),
        ),
        r is Err <==> bin_name_choice(
            eff.bin.deep_view(),
            eff.package.deep_view(),
            cwd_name.deep_view(),
        ) is None,
{
    if let Some(b) = &eff.bin {
        return Ok(b.clone());
    }
    if let Some(p) = &eff.package {
        return Ok(p.clone());
    }
    match cwd_name {
        Some(n) => Ok(n.clone()),
        None => Err(ResolutionError {}),
    }
}

/// The run argv used when none is configured: the single resolved output
/// path of the chosen binary.
pub fn default_run_argv(eff: &EffectiveConfig, target_dir: &str, cwd_name: &Option<String>,
    exe_suffix: bool) -> (r: Result<Vec<String>, ResolutionError>)
    ensures
        r matches Ok(v) ==> v.deep_view() == seq![
            exe_path_spec(
                target_dir@,
                eff.release,
                bin_name_choice(
                    eff.bin.deep_view(),
                    eff.package.deep_view(),
                    cwd_name.deep_view(),
                )->Some_0,
                exe_suffix,
            ),
        ],
        r is Err <==> bin_name_choice(
            eff.bin.deep_view(),
            eff.package.deep_view(),
            cwd_name.deep_view(),
        ) is None,
{
    let bin = match resolve_bin_name(eff, cwd_name) {
        Ok(b) => b,
        Err(e) => {
            return Err(e);
        },
    };
    let exe = exe_path(target_dir, eff.release, bin.as_str(), exe_suffix);
    let mut v: Vec<String> = Vec::new();
    v.push(exe);
    proof {
        assert(v.deep_view() =~= seq![
            exe_path_spec(
                target_dir@,
                eff.release,
                bin_name_choice(
                    eff.bin.deep_view(),
                    eff.package.deep_view(),
                    cwd_name.deep_view(),
                )->Some_0,
                exe_suffix,
            ),
        ]);
    }
    Ok(v)
}

/// Whether `sub` occurs contiguously inside `s`.
pub open spec fn has_segment(s: Seq<char>, sub: Seq<char>) -> bool {
    exists|i: int| 0 <= i && i + sub.len() <= s.len() && #[trigger] s.subrange(i, i + sub.len()) == sub
}

/// Resolved run paths carry their profile: without `release` the path holds
/// the debug segment, with it the release segment; and distinct binary names
/// resolve to distinct paths.
pub proof fn lemma_exe_path_profile_and_distinct(target_dir: Seq<char>, b1: Seq<char>, b2: Seq<
    char,
>, release: bool, exe_suffix: bool)
    ensures
        has_segment(exe_path_spec(target_dir, false, b1, exe_suffix), "/debug/"@),
        has_segment(exe_path_spec(target_dir, true, b1, exe_suffix), "/release/"@),
        b1 != b2 ==> exe_path_spec(target_dir, release, b1, exe_suffix) != exe_path_spec(
            target_dir,
            release,
            b2,
            exe_suffix,
        ),
{
    reveal_strlit("/");
    reveal_strlit("debug");
    reveal_strlit("release");
    reveal_strlit("/debug/");
    reveal_strlit("/release/");
    reveal_strlit(".exe");
    let pd = exe_path_spec(target_dir, false, b1, exe_suffix);
    let i = target_dir.len() as int;
    assert(pd.subrange(i, i + 7) =~= "/debug/"@);
    let pr = exe_path_spec(target_dir, true, b1, exe_suffix);
    assert(pr.subrange(i, i + 9) =~= "/release/"@);
    if b1 != b2 {
        let p1 = exe_path_spec(target_dir, release, b1, exe_suffix);
        let p2 = exe_path_spec(target_dir, release, b2, exe_suffix);
        let head = target_dir + "/"@ + profile_spec(release) + "/"@;
        if p1 == p2 {
            let n1 = exe_name_spec(b1, exe_suffix);
            let n2 = exe_name_spec(b2, exe_suffix);
            assert(p1 == head + n1);
            assert(p2 == head + n2);
            assert(p1.len() == head.len() + n1.len());
            assert(p2.len() == head.len() + n2.len());
            assert(n1.len() == n2.len());
            assert(b1.len() == b2.len());
            assert(n1 =~= p1.subrange(head.len() as int, p1.len() as int));
            assert(n2 =~= p2.subrange(head.len() as int, p2.len() as int));
            assert(b1 =~= n1.subrange(0, b1.len() as int));
            assert(b2 =~= n2.subrange(0, b2.len() as int));
            assert(b1 == b2);
        }
    }
}

} // verus!
