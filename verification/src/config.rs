//! Layered configuration: one optional layer from a file, one from the
//! command line, merged field by field (overlay wins outright) and then
//! defaulted into the effective, fully-resolved policy.

use vstd::prelude::*;
use vstd::string::StringExecFns;
use crate::errors::ConfigError;
use crate::globs::{build_globset, globset_build_ok, globset_patterns, glob_pattern_ok};
use crate::text::{norm_ext, norm_ext_spec};

verus! {

/// One configuration layer: every field optional.
pub struct Config {
    pub watch: Option<Vec<String>>,
    pub ignore: Option<Vec<String>>,
    pub include_ext: Option<Vec<String>>,
    pub exclude_ext: Option<Vec<String>>,
    pub debounce_ms: Option<u64>,
    pub clear: Option<bool>,
    /// Explicit build argv; if omitted, derived from the cargo flags below.
    pub build: Option<Vec<String>>,
    /// Explicit run argv; if omitted, the built binary is located at run time.
    pub run: Option<Vec<String>>,
    pub manifest_path: Option<String>,
    pub package: Option<String>,
    pub bin: Option<String>,
    pub features: Option<Vec<String>>,
    pub all_features: Option<bool>,
    pub no_default_features: Option<bool>,
    pub workspace: Option<bool>,
    pub release: Option<bool>,
    pub pre_build: Option<Vec<Vec<String>>>,
    pub post_build: Option<Vec<Vec<String>>>,
    pub pre_run: Option<Vec<Vec<String>>>,
    pub post_run: Option<Vec<Vec<String>>>,
    pub on_build_fail: Option<Vec<Vec<String>>>,
}

/// The fully resolved policy: no optional field except the run argv, which
/// may defer to run-time binary discovery.
pub struct EffectiveConfig {
    pub watch: Vec<String>,
    pub ignore_globs: Vec<String>,
    pub ignore_set: globset::GlobSet,
    pub include_ext: Vec<String>,
    pub exclude_ext: Vec<String>,
    pub debounce_ms: u64,
    pub clear: bool,
    /// Build argv (always present).
    pub build: Vec<String>,
    /// Explicit run argv; `None` defers to run-time binary discovery.
    pub run: Option<Vec<String>>,
    pub manifest_path: Option<String>,
    pub package: Option<String>,
    pub bin: Option<String>,
    pub features: Vec<String>,
    pub all_features: bool,
    pub no_default_features: bool,
    pub workspace: bool,
    pub release: bool,
    pub pre_build: Vec<Vec<String>>,
    pub post_build: Vec<Vec<String>>,
    pub pre_run: Vec<Vec<String>>,
    pub post_run: Vec<Vec<String>>,
    pub on_build_fail: Vec<Vec<String>>,
}

/// The layer with nothing set.
pub open spec fn spec_default_config() -> Config {
    Config {
        watch: None,
        ignore: None,
        include_ext: None,
        exclude_ext: None,
        debounce_ms: None,
        clear: None,
        build: None,
        run: None,
        manifest_path: None,
        package: None,
        bin: None,
        features: None,
        all_features: None,
        no_default_features: None,
        workspace: None,
        release: None,
        pre_build: None,
        post_build: None,
        pre_run: None,
        post_run: None,
        on_build_fail: None,
    }
}

impl Default for Config {
    /// The layer with nothing set.
    fn default() -> (r: Config)
        ensures
            r == spec_default_config(),
    {
        Config {
            watch: None,
            ignore: None,
            include_ext: None,
            exclude_ext: None,
            debounce_ms: None,
            clear: None,
            build: None,
            run: None,
            manifest_path: None,
            package: None,
            bin: None,
            features: None,
            all_features: None,
            no_default_features: None,
            workspace: None,
            release: None,
            pre_build: None,
            post_build: None,
            pre_run: None,
            post_run: None,
            on_build_fail: None,
        }
    }
}

/// Per-field merge rule: a field set in the overlay wins outright; otherwise
/// the base layer's value is used.
pub open spec fn merge_opt<T>(base: Option<T>, overlay: Option<T>) -> Option<T> {
    if overlay is Some {
        overlay
    } else {
        base
    }
}

/// The merge of two layers, field by field.
pub open spec fn spec_merge(base: Config, overlay: Config) -> Config {
    Config {
        watch: merge_opt(base.watch, overlay.watch),
        ignore: merge_opt(base.ignore, overlay.ignore),
        include_ext: merge_opt(base.include_ext, overlay.include_ext),
        exclude_ext: merge_opt(base.exclude_ext, overlay.exclude_ext),
        debounce_ms: merge_opt(base.debounce_ms, overlay.debounce_ms),
        clear: merge_opt(base.clear, overlay.clear),
        build: merge_opt(base.build, overlay.build),
        run: merge_opt(base.run, overlay.run),
        manifest_path: merge_opt(base.manifest_path, overlay.manifest_path),
        package: merge_opt(base.package, overlay.package),
        bin: merge_opt(base.bin, overlay.bin),
        features: merge_opt(base.features, overlay.features),
        all_features: merge_opt(base.all_features, overlay.all_features),
        no_default_features: merge_opt(base.no_default_features, overlay.no_default_features),
        workspace: merge_opt(base.workspace, overlay.workspace),
        release: merge_opt(base.release, overlay.release),
        pre_build: merge_opt(base.pre_build, overlay.pre_build),
        post_build: merge_opt(base.post_build, overlay.post_build),
        pre_run: merge_opt(base.pre_run, overlay.pre_run),
        post_run: merge_opt(base.post_run, overlay.post_run),
        on_build_fail: merge_opt(base.on_build_fail, overlay.on_build_fail),
    }
}

/// Merges two configuration layers: every field the overlay sets wins
/// outright, every other field falls back to the base.
pub fn merge_config(base: Config, overlay: Config) -> (r: Config)
    ensures
        r == spec_merge(base, overlay),
{
    Config {
        watch: if overlay.watch.is_some() {
            overlay.watch
        } else {
            base.watch
        },
        ignore: if overlay.ignore.is_some() {
            overlay.ignore
        } else {
            base.ignore
        },
        include_ext: if overlay.include_ext.is_some() {
            overlay.include_ext
        } else {
            base.include_ext
        },
        exclude_ext: if overlay.exclude_ext.is_some() {
            overlay.exclude_ext
        } else {
            base.exclude_ext
        },
        debounce_ms: if overlay.debounce_ms.is_some() {
            overlay.debounce_ms
        } else {
            base.debounce_ms
        },
        clear: if overlay.clear.is_some() {
            overlay.clear
        } else {
            base.clear
        },
        build: if overlay.build.is_some() {
            overlay.build
        } else {
            base.build
        },
        run: if overlay.run.is_some() {
            overlay.run
        } else {
            base.run
        },
        manifest_path: if overlay.manifest_path.is_some() {
            overlay.manifest_path
        } else {
            base.manifest_path
        },
        package: if overlay.package.is_some() {
            overlay.package
        } else {
            base.package
        },
        bin: if overlay.bin.is_some() {
            overlay.bin
        } else {
            base.bin
        },
        features: if overlay.features.is_some() {
            overlay.features
        } else {
            base.features
        },
        all_features: if overlay.all_features.is_some() {
            overlay.all_features
        } else {
            base.all_features
        },
        no_default_features: if overlay.no_default_features.is_some() {
            overlay.no_default_features
        } else {
            base.no_default_features
        },
        workspace: if overlay.workspace.is_some() {
            overlay.workspace
        } else {
            base.workspace
        },
        release: if overlay.release.is_some() {
            overlay.release
        } else {
            base.release
        },
        pre_build: if overlay.pre_build.is_some() {
            overlay.pre_build
        } else {
            base.pre_build
        },
        post_build: if overlay.post_build.is_some() {
            overlay.post_build
        } else {
            base.post_build
        },
        pre_run: if overlay.pre_run.is_some() {
            overlay.pre_run
        } else {
            base.pre_run
        },
        post_run: if overlay.post_run.is_some() {
            overlay.post_run
        } else {
            base.post_run
        },
        on_build_fail: if overlay.on_build_fail.is_some() {
            overlay.on_build_fail
        } else {
            base.on_build_fail
        },
    }
}

/// A field set in the overlay always wins over the same field set in the
/// base, whatever the two layers hold.
pub proof fn lemma_overlay_wins(base: Config, overlay: Config)
    ensures
        overlay.watch is Some ==> spec_merge(base, overlay).watch == overlay.watch,
        overlay.ignore is Some ==> spec_merge(base, overlay).ignore == overlay.ignore,
        overlay.include_ext is Some ==> spec_merge(base, overlay).include_ext
            == overlay.include_ext,
        overlay.exclude_ext is Some ==> spec_merge(base, overlay).exclude_ext
            == overlay.exclude_ext,
        overlay.debounce_ms is Some ==> spec_merge(base, overlay).debounce_ms
            == overlay.debounce_ms,
        overlay.clear is Some ==> spec_merge(base, overlay).clear == overlay.clear,
        overlay.build is Some ==> spec_merge(base, overlay).build == overlay.build,
        overlay.run is Some ==> spec_merge(base, overlay).run == overlay.run,
        overlay.manifest_path is Some ==> spec_merge(base, overlay).manifest_path
            == overlay.manifest_path,
        overlay.package is Some ==> spec_merge(base, overlay).package == overlay.package,
        overlay.bin is Some ==> spec_merge(base, overlay).bin == overlay.bin,
        overlay.features is Some ==> spec_merge(base, overlay).features == overlay.features,
        overlay.all_features is Some ==> spec_merge(base, overlay).all_features
            == overlay.all_features,
        overlay.no_default_features is Some ==> spec_merge(base, overlay).no_default_features
            == overlay.no_default_features,
        overlay.workspace is Some ==> spec_merge(base, overlay).workspace == overlay.workspace,
        overlay.release is Some ==> spec_merge(base, overlay).release == overlay.release,
        overlay.pre_build is Some ==> spec_merge(base, overlay).pre_build == overlay.pre_build,
        overlay.post_build is Some ==> spec_merge(base, overlay).post_build == overlay.post_build,
        overlay.pre_run is Some ==> spec_merge(base, overlay).pre_run == overlay.pre_run,
        overlay.post_run is Some ==> spec_merge(base, overlay).post_run == overlay.post_run,
        overlay.on_build_fail is Some ==> spec_merge(base, overlay).on_build_fail
            == overlay.on_build_fail,
{
}

/// A field the overlay leaves unset falls back to the base layer's value.
pub proof fn lemma_base_fallback(base: Config, overlay: Config)
    ensures
        overlay.debounce_ms is None ==> spec_merge(base, overlay).debounce_ms
            == base.debounce_ms,
        overlay.clear is None ==> spec_merge(base, overlay).clear == base.clear,
        overlay.bin is None ==> spec_merge(base, overlay).bin == base.bin,
{
}

/// Default watch roots: the conventional project layout when a descriptor
/// file is present in the working directory, else the directory itself.
pub open spec fn default_watch_spec(descriptor_present: bool) -> Seq<Seq<char>> {
    if descriptor_present {
        seq!["src"@, "Cargo.toml"@, "Cargo.lock"@]
    } else {
        seq!["."@]
    }
}

/// Default ignore patterns: build output and version-control metadata.
pub open spec fn default_ignore_spec() -> Seq<Seq<char>> {
    seq!["**/target/**"@, "**/.git/**"@]
}

/// Default include extensions: sources and the descriptor format.
pub open spec fn default_include_ext_spec() -> Seq<Seq<char>> {
    seq!["rs"@, "toml"@]
}

fn default_watch(descriptor_present: bool) -> (r: Vec<String>)
    ensures
        r.deep_view() == default_watch_spec(descriptor_present),
{
    let mut v: Vec<String> = Vec::new();
    if descriptor_present {
        v.push("src".to_owned());
        v.push("Cargo.toml".to_owned());
        v.push("Cargo.lock".to_owned());
        proof {
            assert(v.deep_view() =~= default_watch_spec(true));
        }
    } else {
        v.push(".".to_owned());
        proof {
            assert(v.deep_view() =~= default_watch_spec(false));
        }
    }
    v
}

fn default_ignore() -> (r: Vec<String>)
    ensures
        r.deep_view() == default_ignore_spec(),
{
    let mut v: Vec<String> = Vec::new();
    v.push("**/target/**".to_owned());
    v.push("**/.git/**".to_owned());
    proof {
        assert(v.deep_view() =~= default_ignore_spec());
    }
    v
}

fn default_include_ext() -> (r: Vec<String>)
    ensures
        r.deep_view() == default_include_ext_spec(),
{
    let mut v: Vec<String> = Vec::new();
    v.push("rs".to_owned());
    v.push("toml".to_owned());
    proof {
        assert(v.deep_view() =~= default_include_ext_spec());
    }
    v
}

/// Every extension token of the list, normalized.
pub open spec fn norm_ext_list_spec(items: Seq<Seq<char>>) -> Seq<Seq<char>> {
    items.map_values(|s: Seq<char>| norm_ext_spec(s))
}

fn norm_ext_list(items: &Vec<String>) -> (r: Vec<String>)
    ensures
        r.deep_view() == norm_ext_list_spec(items.deep_view()),
{
    let ghost all = items.deep_view();
    let mut r: Vec<String> = Vec::new();
    let mut i: usize = 0;
    while i < items.len()
        invariant
            all == items.deep_view(),
            i <= items.len(),
            r.deep_view() == norm_ext_list_spec(all.subrange(0, i as int)),
        decreases items.len() - i,
    {
        let n = norm_ext(items[i].as_str());
        r.push(n);
        proof {
            assert(all.subrange(0, i + 1 as int) =~= all.subrange(0, i as int).push(
                all[i as int],
            ));
            assert(norm_ext_list_spec(all.subrange(0, i + 1 as int)) =~= norm_ext_list_spec(
                all.subrange(0, i as int),
            ).push(norm_ext_spec(all[i as int])));
            assert(r.deep_view() =~= norm_ext_list_spec(all.subrange(0, i + 1 as int)));
        }
        i = i + 1;
    }
    proof {
        assert(all.subrange(0, items.len() as int) =~= all);
    }
    r
}

/// The comma-joined feature list.
pub open spec fn join_commas(items: Seq<Seq<char>>) -> Seq<char>
    decreases items.len(),
{
    if items.len() == 0 {
        Seq::empty()
    } else if items.len() == 1 {
        items[0]
    } else {
        join_commas(items.drop_last()) + ","@ + items.last()
    }
}

fn join_commas_exec(items: &Vec<String>) -> (r: String)
    ensures
        r@ == join_commas(items.deep_view()),
{
    let ghost all = items.deep_view();
    let mut out = String::new();
    let mut i: usize = 0;
    while i < items.len()
        invariant
            all == items.deep_view(),
            i <= items.len(),
            out@ == join_commas(all.subrange(0, i as int)),
        decreases items.len() - i,
    {
        if i > 0 {
            out.append(",");
        }
        out.append(items[i].as_str());
        proof {
            let upto = all.subrange(0, i + 1 as int);
            assert(upto.drop_last() =~= all.subrange(0, i as int));
            assert(upto.last() == all[i as int]);
            if i == 0 {
                assert(out@ =~= join_commas(upto));
            } else {
                assert(out@ =~= join_commas(upto));
            }
        }
        i = i + 1;
    }
    proof {
        assert(all.subrange(0, items.len() as int) =~= all);
    }
    out
}

/// A conditional lone flag of the synthesized build argv.
pub open spec fn opt_flag(cond: bool, flag: Seq<char>) -> Seq<Seq<char>> {
    if cond {
        seq![flag]
    } else {
        Seq::empty()
    }
}

/// A conditional flag-with-value pair of the synthesized build argv.
pub open spec fn opt_pair(value: Option<Seq<char>>, flag: Seq<char>) -> Seq<Seq<char>> {
    match value {
        Some(v) => seq![flag, v],
        None => Seq::empty(),
    }
}

/// The synthesized build argv, in its fixed flag order.
pub open spec fn cargo_build_argv_spec(release: bool, manifest_path: Option<Seq<char>>, workspace:
    bool, package: Option<Seq<char>>, bin: Option<Seq<char>>, all_features: bool,
    no_default_features: bool, features: Seq<Seq<char>>) -> Seq<Seq<char>> {
    seq!["cargo"@, "build"@] + opt_flag(release, "--release"@) + opt_pair(
        manifest_path,
        "--manifest-path"@,
    ) + opt_flag(workspace, "--workspace"@) + opt_pair(package, "-p"@) + opt_pair(bin, "--bin"@)
        + opt_flag(all_features, "--all-features"@) + opt_flag(
        no_default_features,
        "--no-default-features"@,
    ) + (if features.len() > 0 {
        seq!["--features"@, join_commas(features)]
    } else {
        Seq::<Seq<char>>::empty()
    })
}

#[verifier::rlimit(100)]
fn cargo_build_argv(release: bool, manifest_path: &Option<String>, workspace: bool, package:
    &Option<String>, bin: &Option<String>, all_features: bool, no_default_features: bool, features:
    &Vec<String>) -> (r: Vec<String>)
    ensures
        r.deep_view() == cargo_build_argv_spec(
            release,
            manifest_path.deep_view(),
            workspace,
            package.deep_view(),
            bin.deep_view(),
            all_features,
            no_default_features,
            features.deep_view(),
        ),
{
    let mut v: Vec<String> = Vec::new();
    v.push("cargo".to_owned());
    v.push("build".to_owned());
    let ghost s0 = seq!["cargo"@, "build"@];
    proof {
        assert(v.deep_view() =~= s0);
    }
    if release {
        v.push("--release".to_owned());
    }
    let ghost s1 = s0 + opt_flag(release, "--release"@);
    proof {
        assert(v.deep_view() =~= s1);
    }
    if let Some(mp) = manifest_path {
        v.push("--manifest-path".to_owned());
        v.push(mp.clone());
    }
    let ghost s2 = s1 + opt_pair(manifest_path.deep_view(), "--manifest-path"@);
    proof {
        assert(v.deep_view() =~= s2);
    }
    if workspace {
        v.push("--workspace".to_owned());
    }
    let ghost s3 = s2 + opt_flag(workspace, "--workspace"@);
    proof {
        assert(v.deep_view() =~= s3);
    }
    if let Some(p) = package {
        v.push("-p".to_owned());
        v.push(p.clone());
    }
    let ghost s4 = s3 + opt_pair(package.deep_view(), "-p"@);
    proof {
        assert(v.deep_view() =~= s4);
    }
    if let Some(b) = bin {
        v.push("--bin".to_owned());
        v.push(b.clone());
    }
    let ghost s5 = s4 + opt_pair(bin.deep_view(), "--bin"@);
    proof {
        assert(v.deep_view() =~= s5);
    }
    if all_features {
        v.push("--all-features".to_owned());
    }
    let ghost s6 = s5 + opt_flag(all_features, "--all-features"@);
    proof {
        assert(v.deep_view() =~= s6);
    }
    if no_default_features {
        v.push("--no-default-features".to_owned());
    }
    let ghost s7 = s6 + opt_flag(no_default_features, "--no-default-features"@);
    proof {
        assert(v.deep_view() =~= s7);
    }
    if features.len() > 0 {
        v.push("--features".to_owned());
        let joined = join_commas_exec(features);
        v.push(joined);
    }
    proof {
        assert(v.deep_view() =~= cargo_build_argv_spec(
            release,
            manifest_path.deep_view(),
            workspace,
            package.deep_view(),
            bin.deep_view(),
            all_features,
            no_default_features,
            features.deep_view(),
        ));
    }
    v
}

/// The base layer an optional file layer resolves to.
pub open spec fn spec_base_config(file: Option<Config>) -> Config {
    match file {
        Some(f) => f,
        None => spec_default_config(),
    }
}

/// An optional bool resolved against its default.
pub open spec fn or_bool(v: Option<bool>, default: bool) -> bool {
    match v {
        Some(b) => b,
        None => default,
    }
}

/// The build argv the merged layer resolves to: the explicit argv if set,
/// else the synthesized cargo invocation.
pub open spec fn effective_build_spec(merged: Config) -> Seq<Seq<char>> {
    match merged.build {
        Some(b) => b.deep_view(),
        None => cargo_build_argv_spec(
            or_bool(merged.release, false),
            merged.manifest_path.deep_view(),
            or_bool(merged.workspace, false),
            merged.package.deep_view(),
            merged.bin.deep_view(),
            or_bool(merged.all_features, false),
            or_bool(merged.no_default_features, false),
            match merged.features {
                Some(f) => f.deep_view(),
                None => Seq::empty(),
            },
        ),
    }
}

/// The ignore-pattern list the merged layer resolves to.
pub open spec fn resolved_ignore_spec(merged: Config) -> Seq<Seq<char>> {
    match merged.ignore {
        Some(g) => g.deep_view(),
        None => default_ignore_spec(),
    }
}

/// What a successfully resolved policy holds, field by field, given the
/// merged layer.
pub open spec fn effective_ok_spec(merged: Config, descriptor_present: bool, eff: EffectiveConfig) -> bool {
    &&& eff.watch.deep_view() == (match merged.watch {
        Some(w) => w.deep_view(),
        None => default_watch_spec(descriptor_present),
    })
    &&& eff.ignore_globs.deep_view() == resolved_ignore_spec(merged)
    &&& globset_patterns(eff.ignore_set) == resolved_ignore_spec(merged)
    &&& forall|i: int| 0 <= i < resolved_ignore_spec(merged).len() ==> glob_pattern_ok(
        #[trigger] resolved_ignore_spec(merged)[i],
    )
    &&& eff.include_ext.deep_view() == norm_ext_list_spec(
        match merged.include_ext {
            Some(v) => v.deep_view(),
            None => default_include_ext_spec(),
        },
    )
    &&& eff.exclude_ext.deep_view() == norm_ext_list_spec(
        match merged.exclude_ext {
            Some(v) => v.deep_view(),
            None => Seq::empty(),
        },
    )
    &&& eff.debounce_ms == (match merged.debounce_ms {
        Some(d) => d,
        None => 250u64,
    })
    &&& eff.clear == or_bool(merged.clear, true)
    &&& eff.build.deep_view() == effective_build_spec(merged)
    &&& eff.run == merged.run
    &&& eff.manifest_path == merged.manifest_path
    &&& eff.package == merged.package
    &&& eff.bin == merged.bin
    &&& eff.features.deep_view() == (match merged.features {
        Some(f) => f.deep_view(),
        None => Seq::<Seq<char>>::empty(),
    })
    &&& eff.all_features == or_bool(merged.all_features, false)
    &&& eff.no_default_features == or_bool(merged.no_default_features, false)
    &&& eff.workspace == or_bool(merged.workspace, false)
    &&& eff.release == or_bool(merged.release, false)
    &&& eff.pre_build.deep_view() == (match merged.pre_build {
        Some(h) => h.deep_view(),
        None => Seq::<Seq<Seq<char>>>::empty(),
    })
    &&& eff.post_build.deep_view() == (match merged.post_build {
        Some(h) => h.deep_view(),
        None => Seq::<Seq<Seq<char>>>::empty(),
    })
    &&& eff.pre_run.deep_view() == (match merged.pre_run {
        Some(h) => h.deep_view(),
        None => Seq::<Seq<Seq<char>>>::empty(),
    })
    &&& eff.post_run.deep_view() == (match merged.post_run {
        Some(h) => h.deep_view(),
        None => Seq::<Seq<Seq<char>>>::empty(),
    })
    &&& eff.on_build_fail.deep_view() == (match merged.on_build_fail {
        Some(h) => h.deep_view(),
        None => Seq::<Seq<Seq<char>>>::empty(),
    })
}

/// What a resolution error means: the first malformed ignore pattern, or a
/// set-compilation failure with every pattern well-formed.
pub open spec fn effective_err_spec(ignore: Seq<Seq<char>>, e: ConfigError) -> bool {
    match e {
        ConfigError::InvalidGlob(p) => exists|i: int|
            0 <= i < ignore.len() && !glob_pattern_ok(#[trigger] ignore[i]) && p@ == ignore[i] && (
            forall|j: int| 0 <= j < i ==> glob_pattern_ok(#[trigger] ignore[j])),
        ConfigError::GlobSetBuild => !globset_build_ok(ignore) && (forall|i: int|
            0 <= i < ignore.len() ==> glob_pattern_ok(#[trigger] ignore[i])),
        _ => false,
    }
}

/// Resolution succeeds exactly when the effective ignore patterns are all
/// well-formed and their matcher set builds.
pub open spec fn effective_ok_owed(ignore: Seq<Seq<char>>) -> bool {
    (forall|i: int| 0 <= i < ignore.len() ==> glob_pattern_ok(#[trigger] ignore[i]))
        && globset_build_ok(ignore)
}

/// Resolves the two configuration layers into the effective policy: the
/// command-line overlay wins field by field over the file base, and every
/// unset field takes its hard default.
#[verifier::rlimit(100)]
pub fn effective_config(cli: Config, file: Option<Config>, descriptor_present: bool) -> (r: Result<
    EffectiveConfig,
    ConfigError,
>)
    ensures
        r is Ok <==> effective_ok_owed(
            resolved_ignore_spec(spec_merge(spec_base_config(file), cli)),
        ),
        r matches Ok(eff) ==> effective_ok_spec(
            spec_merge(spec_base_config(file), cli),
            descriptor_present,
            eff,
        ),
        r matches Err(e) ==> effective_err_spec(
            resolved_ignore_spec(spec_merge(spec_base_config(file), cli)),
            e,
        ),
{
    let base = match file {
        Some(f) => f,
        None => Config::default(),
    };
    let merged = merge_config(base, cli);
    let ghost merged_g = merged;
    let watch = match merged.watch {
        Some(w) => w,
        None => default_watch(descriptor_present),
    };
    let ignore_globs = match merged.ignore {
        Some(g) => g,
        None => default_ignore(),
    };
    let ignore_set = match build_globset(&ignore_globs) {
        Ok(s) => s,
        Err(e) => {
            proof {
                let merged_s = spec_merge(spec_base_config(file), cli);
                let ignore_s = match merged_s.ignore {
                    Some(g) => g.deep_view(),
                    None => default_ignore_spec(),
                };
                assert(ignore_globs.deep_view() == ignore_s);
                assert(effective_err_spec(ignore_s, e));
                assert(!effective_ok_owed(ignore_s));
            }
            return Err(e);
        },
    };
    let include_src = match merged.include_ext {
        Some(v) => v,
        None => default_include_ext(),
    };
    let include_ext = norm_ext_list(&include_src);
    let exclude_src = match merged.exclude_ext {
        Some(v) => v,
        None => Vec::new(),
    };
    let exclude_ext = norm_ext_list(&exclude_src);
    let debounce_ms = match merged.debounce_ms {
        Some(d) => d,
        None => 250,
    };
    let clear = match merged.clear {
        Some(c) => c,
        None => true,
    };
    let manifest_path = merged.manifest_path;
    let package = merged.package;
    let bin = merged.bin;
    let features = match merged.features {
        Some(f) => f,
        None => Vec::new(),
    };
    let all_features = match merged.all_features {
        Some(b) => b,
        None => false,
    };
    let no_default_features = match merged.no_default_features {
        Some(b) => b,
        None => false,
    };
    let workspace = match merged.workspace {
        Some(b) => b,
        None => false,
    };
    let release = match merged.release {
        Some(b) => b,
        None => false,
    };
    let build = match merged.build {
        Some(b) => b,
        None => cargo_build_argv(
            release,
            &manifest_path,
            workspace,
            &package,
            &bin,
            all_features,
            no_default_features,
            &features,
        ),
    };
    let pre_build = match merged.pre_build {
        Some(h) => h,
        None => Vec::new(),
    };
    let post_build = match merged.post_build {
        Some(h) => h,
        None => Vec::new(),
    };
    let pre_run = match merged.pre_run {
        Some(h) => h,
        None => Vec::new(),
    };
    let post_run = match merged.post_run {
        Some(h) => h,
        None => Vec::new(),
    };
    let on_build_fail = match merged.on_build_fail {
        Some(h) => h,
        None => Vec::new(),
    };
    let eff = EffectiveConfig {
        watch,
        ignore_globs,
        ignore_set,
        include_ext,
        exclude_ext,
        debounce_ms,
        clear,
        build,
        run: merged.run,
        manifest_path,
        package,
        bin,
        features,
        all_features,
        no_default_features,
        workspace,
        release,
        pre_build,
        post_build,
        pre_run,
        post_run,
        on_build_fail,
    };
    proof {
        assert(merged_g == spec_merge(spec_base_config(file), cli));
        assert(eff.exclude_ext.deep_view() =~= norm_ext_list_spec(
            match merged_g.exclude_ext {
                Some(v) => v.deep_view(),
                None => Seq::empty(),
            },
        )) by {
            if merged_g.exclude_ext is None {
                assert(exclude_src.deep_view() =~= Seq::<Seq<char>>::empty());
            }
        }
        assert(eff.features.deep_view() =~= (match merged_g.features {
            Some(f) => f.deep_view(),
            None => Seq::<Seq<char>>::empty(),
        }));
        assert(eff.pre_build.deep_view() =~= (match merged_g.pre_build {
            Some(h) => h.deep_view(),
            None => Seq::<Seq<Seq<char>>>::empty(),
        }));
        assert(eff.post_build.deep_view() =~= (match merged_g.post_build {
            Some(h) => h.deep_view(),
            None => Seq::<Seq<Seq<char>>>::empty(),
        }));
        assert(eff.pre_run.deep_view() =~= (match merged_g.pre_run {
            Some(h) => h.deep_view(),
            None => Seq::<Seq<Seq<char>>>::empty(),
        }));
        assert(eff.post_run.deep_view() =~= (match merged_g.post_run {
            Some(h) => h.deep_view(),
            None => Seq::<Seq<Seq<char>>>::empty(),
        }));
        assert(eff.on_build_fail.deep_view() =~= (match merged_g.on_build_fail {
            Some(h) => h.deep_view(),
            None => Seq::<Seq<Seq<char>>>::empty(),
        }));
        assert(effective_ok_spec(merged_g, descriptor_present, eff));
    }
    Ok(eff)
}

} // verus!

verus! {

/// The command-line arguments, as plain values: positional files for file
/// mode, and one optional flag per configuration field.
pub struct CliArgs {
    pub files: Vec<String>,
    pub watch: Vec<String>,
    pub ignore: Vec<String>,
    pub include_ext: Vec<String>,
    pub exclude_ext: Vec<String>,
    pub debounce_ms: Option<u64>,
    pub clear: Option<bool>,
    pub build: Vec<String>,
    pub run: Vec<String>,
    pub manifest_path: Option<String>,
    pub package: Option<String>,
    pub bin: Option<String>,
    pub features: Vec<String>,
    pub all_features: bool,
    pub no_default_features: bool,
    pub workspace: bool,
    pub release: bool,
}

/// What the file-mode configuration holds: watch the working directory for
/// Rust sources, compile the given files with `rustc` to one scratch binary,
/// and run that binary.
pub open spec fn files_mode_ok_spec(files: Seq<Seq<char>>, c: Config) -> bool {
    &&& c.watch matches Some(w) && w.deep_view() == seq!["."@]
    &&& c.ignore matches Some(g) && g.deep_view() == default_ignore_spec()
    &&& c.include_ext matches Some(v) && v.deep_view() == seq!["rs"@]
    &&& c.exclude_ext is None
    &&& c.debounce_ms is None
    &&& c.clear == Some(true)
    &&& c.build matches Some(b) && b.deep_view() == seq!["rustc"@] + files + seq![
        "-o"@,
        "/tmp/rair-out"@,
    ]
    &&& c.run matches Some(rv) && rv.deep_view() == seq!["/tmp/rair-out"@]
    &&& c.manifest_path is None
    &&& c.package is None
    &&& c.bin is None
    &&& c.features is None
    &&& c.all_features is None
    &&& c.no_default_features is None
    &&& c.workspace is None
    &&& c.release is None
    &&& c.pre_build is None
    &&& c.post_build is None
    &&& c.pre_run is None
    &&& c.post_run is None
    &&& c.on_build_fail is None
}

/// The file-mode result: the configuration above for a non-empty list of
/// Rust source files, or the error naming what was wrong.
pub open spec fn files_mode_result_spec(files: Seq<Seq<char>>, r: Result<
    Config,
    ConfigError,
>) -> bool {
    match r {
        Ok(c) => {
            &&& files.len() > 0
            &&& forall|i: int|
                0 <= i < files.len() ==> crate::relevance::is_rust_source(#[trigger] files[i])
            &&& files_mode_ok_spec(files, c)
        },
        Err(e) => match e {
            ConfigError::NoFiles => files.len() == 0,
            ConfigError::NotRustFile(p) => exists|i: int|
                0 <= i < files.len() && !crate::relevance::is_rust_source(#[trigger] files[i])
                    && p@ == files[i] && (forall|j: int|
                    0 <= j < i ==> crate::relevance::is_rust_source(#[trigger] files[j])),
            _ => false,
        },
    }
}

/// The file-mode configuration: watches the working directory, compiles the
/// given Rust source files with `rustc` into one scratch binary, and runs it.
/// Fails on an empty list, or on the first file that is not a Rust source.
pub fn files_mode_config(files: &Vec<String>) -> (r: Result<Config, ConfigError>)
    ensures
        files_mode_result_spec(files.deep_view(), r),
{
    let ghost fs = files.deep_view();
    if files.len() == 0 {
        return Err(ConfigError::NoFiles);
    }
    let mut i: usize = 0;
    while i < files.len()
        invariant
            fs == files.deep_view(),
            i <= files@.len(),
            forall|j: int| 0 <= j < i ==> crate::relevance::is_rust_source(#[trigger] fs[j]),
        decreases files@.len() - i,
    {
        if !crate::relevance::is_rust_source_path(files[i].as_str()) {
            proof {
                assert(fs[i as int] == files@[i as int]@);
            }
            return Err(ConfigError::NotRustFile(files[i].clone()));
        }
        proof {
            assert(fs[i as int] == files@[i as int]@);
        }
        i = i + 1;
    }
    let mut build: Vec<String> = Vec::new();
    build.push("rustc".to_owned());
    proof {
        assert(build.deep_view() =~= seq!["rustc"@]);
    }
    let mut k: usize = 0;
    while k < files.len()
        invariant
            fs == files.deep_view(),
            k <= files@.len(),
            build.deep_view() == seq!["rustc"@] + fs.subrange(0, k as int),
        decreases files@.len() - k,
    {
        let ghost pre = build.deep_view();
        build.push(files[k].clone());
        proof {
            assert(fs[k as int] == files@[k as int]@);
            assert(build.deep_view() =~= pre.push(fs[k as int]));
            assert(pre.push(fs[k as int]) =~= seq!["rustc"@] + fs.subrange(0, k + 1 as int));
        }
        k = k + 1;
    }
    build.push("-o".to_owned());
    build.push("/tmp/rair-out".to_owned());
    proof {
        assert(fs.subrange(0, files@.len() as int) =~= fs);
        assert(build.deep_view() =~= seq!["rustc"@] + fs + seq!["-o"@, "/tmp/rair-out"@]);
    }
    let mut watch: Vec<String> = Vec::new();
    watch.push(".".to_owned());
    let mut include_ext: Vec<String> = Vec::new();
    include_ext.push("rs".to_owned());
    let mut run: Vec<String> = Vec::new();
    run.push("/tmp/rair-out".to_owned());
    proof {
        assert(watch.deep_view() =~= seq!["."@]);
        assert(include_ext.deep_view() =~= seq!["rs"@]);
        assert(run.deep_view() =~= seq!["/tmp/rair-out"@]);
    }
    Ok(
        Config {
            watch: Some(watch),
            ignore: Some(default_ignore()),
            include_ext: Some(include_ext),
            exclude_ext: None,
            debounce_ms: None,
            clear: Some(true),
            build: Some(build),
            run: Some(run),
            manifest_path: None,
            package: None,
            bin: None,
            features: None,
            all_features: None,
            no_default_features: None,
            workspace: None,
            release: None,
            pre_build: None,
            post_build: None,
            pre_run: None,
            post_run: None,
            on_build_fail: None,
        },
    )
}

/// What the flag-mode configuration holds: every repeatable flag left empty
/// maps to an unset field, scalar flags map through unchanged, and a boolean
/// switch is specified only by being given, so an absent switch maps to an
/// unset field and cannot override a file-set value.
pub open spec fn flags_config_spec(args: CliArgs, c: Config) -> bool {
    &&& c.watch == (if args.watch@.len() == 0 {
        None::<Vec<String>>
    } else {
        Some(args.watch)
    })
    &&& c.ignore == (if args.ignore@.len() == 0 {
        None::<Vec<String>>
    } else {
        Some(args.ignore)
    })
    &&& c.include_ext == (if args.include_ext@.len() == 0 {
        None::<Vec<String>>
    } else {
        Some(args.include_ext)
    })
    &&& c.exclude_ext == (if args.exclude_ext@.len() == 0 {
        None::<Vec<String>>
    } else {
        Some(args.exclude_ext)
    })
    &&& c.debounce_ms == args.debounce_ms
    &&& c.clear == args.clear
    &&& c.build == (if args.build@.len() == 0 {
        None::<Vec<String>>
    } else {
        Some(args.build)
    })
    &&& c.run == (if args.run@.len() == 0 {
        None::<Vec<String>>
    } else {
        Some(args.run)
    })
    &&& c.manifest_path == args.manifest_path
    &&& c.package == args.package
    &&& c.bin == args.bin
    &&& c.features == (if args.features@.len() == 0 {
        None::<Vec<String>>
    } else {
        Some(args.features)
    })
    &&& c.all_features == (if args.all_features {
        Some(true)
    } else {
        None::<bool>
    })
    &&& c.no_default_features == (if args.no_default_features {
        Some(true)
    } else {
        None::<bool>
    })
    &&& c.workspace == (if args.workspace {
        Some(true)
    } else {
        None::<bool>
    })
    &&& c.release == (if args.release {
        Some(true)
    } else {
        None::<bool>
    })
    &&& c.pre_build is None
    &&& c.post_build is None
    &&& c.pre_run is None
    &&& c.post_run is None
    &&& c.on_build_fail is None
}

/// Turns parsed command-line arguments into one configuration layer: file
/// mode when positional files are given (the other flags are then ignored),
/// else one flag-sourced layer.
pub fn cli_to_config(args: CliArgs) -> (r: Result<Config, ConfigError>)
    ensures
        args.files@.len() > 0 ==> files_mode_result_spec(args.files.deep_view(), r),
        args.files@.len() == 0 ==> (r matches Ok(c) && flags_config_spec(args, c)),
{
    if args.files.len() > 0 {
        return files_mode_config(&args.files);
    }
    Ok(
        Config {
            watch: if args.watch.is_empty() {
                None
            } else {
                Some(args.watch)
            },
            ignore: if args.ignore.is_empty() {
                None
            } else {
                Some(args.ignore)
            },
            include_ext: if args.include_ext.is_empty() {
                None
            } else {
                Some(args.include_ext)
            },
            exclude_ext: if args.exclude_ext.is_empty() {
                None
            } else {
                Some(args.exclude_ext)
            },
            debounce_ms: args.debounce_ms,
            clear: args.clear,
            build: if args.build.is_empty() {
                None
            } else {
                Some(args.build)
            },
            run: if args.run.is_empty() {
                None
            } else {
                Some(args.run)
            },
            manifest_path: args.manifest_path,
            package: args.package,
            bin: args.bin,
            features: if args.features.is_empty() {
                None
            } else {
                Some(args.features)
            },
            all_features: if args.all_features {
                Some(true)
            } else {
                None
            },
            no_default_features: if args.no_default_features {
                Some(true)
            } else {
                None
            },
            workspace: if args.workspace {
                Some(true)
            } else {
                None
            },
            release: if args.release {
                Some(true)
            } else {
                None
            },
            pre_build: None,
            post_build: None,
            pre_run: None,
            post_run: None,
            on_build_fail: None,
        },
    )
}

} // verus!
