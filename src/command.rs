//! The documentation-build invocation for one target: cargo arguments,
//! rustdoc flags and environment, and where its output ends up.
use vstd::prelude::*;
use crate::reconcile::contains_target;
use crate::reconcile::contains_view;

verus! {

pub open spec fn views(ts: Seq<String>) -> Seq<Seq<char>> {
    ts.map_values(|t: String| t@)
}

pub open spec fn digit_char(d: nat) -> char {
    if d == 0 { '0' } else if d == 1 { '1' } else if d == 2 { '2' } else if d == 3 { '3' }
    else if d == 4 { '4' } else if d == 5 { '5' } else if d == 6 { '6' } else if d == 7 { '7' }
    else if d == 8 { '8' } else { '9' }
}

/// The decimal notation of `n`.
pub open spec fn decimal(n: nat) -> Seq<char>
    decreases n,
{
    if n < 10 {
        seq![digit_char(n)]
    } else {
        decimal(n / 10).push(digit_char(n % 10))
    }
}

fn digit_str(d: u32) -> (r: &'static str)
    requires
        d < 10,
    ensures
        r@ == seq![digit_char(d as nat)],
{
    proof {
        reveal_strlit("0");
        reveal_strlit("1");
        reveal_strlit("2");
        reveal_strlit("3");
        reveal_strlit("4");
        reveal_strlit("5");
        reveal_strlit("6");
        reveal_strlit("7");
        reveal_strlit("8");
        reveal_strlit("9");
    }
    if d == 0 { "0" } else if d == 1 { "1" } else if d == 2 { "2" } else if d == 3 { "3" }
    else if d == 4 { "4" } else if d == 5 { "5" } else if d == 6 { "6" } else if d == 7 { "7" }
    else if d == 8 { "8" } else { "9" }
}

/// Appends the decimal notation of `n` to `out`.
pub fn push_decimal(out: &mut String, n: u32)
    ensures
        final(out)@ == old(out)@ + decimal(n as nat),
    decreases n,
{
    if n >= 10 {
        push_decimal(out, n / 10);
    }
    out.append(digit_str(n % 10));
    assert(final(out)@ =~= old(out)@ + decimal(n as nat));
}

/// A package name as a crate identifier: every `-` becomes `_`.
pub open spec fn underscored(name: Seq<char>) -> Seq<char> {
    name.map_values(|c: char| if c == '-' { '_' } else { c })
}

pub fn to_underscored(name: &str) -> (r: String)
    ensures
        r@ == underscored(name@),
{
    let n = name.unicode_len();
    let mut out = String::new();
    let mut i: usize = 0;
    while i < n
        invariant
            n == name@.len(),
            i <= n,
            out@ == underscored(name@.take(i as int)),
        decreases n - i,
    {
        proof {
            reveal_strlit("_");
        }
        if name.get_char(i) == '-' {
            out.append("_");
        } else {
            out.append(name.substring_char(i, i + 1));
        }
        assert(out@ =~= underscored(name@.take(i + 1)));
        i = i + 1;
    }
    assert(name@.take(n as int) == name@);
    out
}

/// The rustdoc flags that link one dependency to its hosted documentation.
pub open spec fn dependency_flags(name: Seq<char>, version: Seq<char>) -> Seq<Seq<char>> {
    seq![
        "--extern-html-root-url"@,
        underscored(name) + "=https://docs.rs/"@ + name + "/"@ + version,
    ]
}

pub open spec fn all_dependency_flags(deps: Seq<(String, String)>) -> Seq<Seq<char>>
    decreases deps.len(),
{
    if deps.len() == 0 {
        Seq::empty()
    } else {
        all_dependency_flags(deps.drop_last()) + dependency_flags(deps.last().0@, deps.last().1@)
    }
}

/// The extra rustdoc flags of a build: a link root for each dependency
/// `(name, version)`, then the resource suffix made of the toolchain's
/// version token.
pub open spec fn extra_flags(deps: Seq<(String, String)>, version_token: Seq<char>) -> Seq<
    Seq<char>,
> {
    all_dependency_flags(deps) + seq!["--resource-suffix"@, "-"@ + version_token]
}

pub fn rustdoc_extra_flags(deps: &Vec<(String, String)>, version_token: &String) -> (r: Vec<String>)
    ensures
        views(r@) == extra_flags(deps@, version_token@),
{
    let mut r: Vec<String> = Vec::new();
    let mut i: usize = 0;
    while i < deps.len()
        invariant
            i <= deps@.len(),
            views(r@) == all_dependency_flags(deps@.take(i as int)),
        decreases deps@.len() - i,
    {
        assert(deps@.take(i + 1).drop_last() == deps@.take(i as int));
        let name = &deps[i].0;
        let version = &deps[i].1;
        let mut link = to_underscored(name.as_str());
        link.append("=https://docs.rs/");
        link.append(name.as_str());
        link.append("/");
        link.append(version.as_str());
        let ghost before = r@;
        r.push(String::from_str("--extern-html-root-url"));
        r.push(link);
        assert(views(r@) =~= views(before) + dependency_flags(name@, version@));
        i = i + 1;
    }
    assert(deps@.take(deps@.len() as int) == deps@);
    let ghost before = r@;
    r.push(String::from_str("--resource-suffix"));
    let mut suffix = String::from_str("-");
    suffix.append(version_token.as_str());
    r.push(suffix);
    assert(views(r@) =~= views(before) + seq!["--resource-suffix"@, "-"@ + version_token@]);
    r
}

/// The words of `xs` separated by single spaces.
pub open spec fn join_spaced(xs: Seq<Seq<char>>) -> Seq<char>
    decreases xs.len(),
{
    if xs.len() == 0 {
        Seq::empty()
    } else if xs.len() == 1 {
        xs[0]
    } else {
        join_spaced(xs.drop_last()) + " "@ + xs.last()
    }
}

/// The flags every documentation build passes to rustdoc.
pub open spec fn fixed_rustdoc_flags() -> Seq<char> {
    " -Z unstable-options --static-root-path / --cap-lints warn "@
}

/// The value of the rustdoc-flags variable: what the package set, the fixed
/// flags, then the extra flags separated by spaces.
pub fn rustdoc_flags(existing: &String, extras: &Vec<String>) -> (r: String)
    ensures
        r@ == existing@ + fixed_rustdoc_flags() + join_spaced(views(extras@)),
{
    let mut out = existing.clone();
    out.append(" -Z unstable-options --static-root-path / --cap-lints warn ");
    let ghost head = out@;
    let mut i: usize = 0;
    while i < extras.len()
        invariant
            i <= extras@.len(),
            out@ == head + join_spaced(views(extras@.take(i as int))),
        decreases extras@.len() - i,
    {
        assert(views(extras@.take(i + 1)).drop_last() =~= views(extras@.take(i as int)));
        if i > 0 {
            out.append(" ");
        }
        out.append(extras[i].as_str());
        assert(out@ =~= head + join_spaced(views(extras@.take(i + 1))));
        i = i + 1;
    }
    assert(extras@.take(extras@.len() as int) == extras@);
    out
}

/// The cargo arguments of a build: the package's own, a parallelism flag when
/// a CPU limit is configured, and an explicit target unless it is the host's.
pub open spec fn cargo_args_for(
    args: Seq<Seq<char>>,
    cpu_limit: Option<u32>,
    target: Seq<char>,
    host: Seq<char>,
) -> Seq<Seq<char>> {
    args + match cpu_limit {
        Some(n) => seq!["-j"@ + decimal(n as nat)],
        None => Seq::empty(),
    } + if target != host {
        seq!["--target"@, target]
    } else {
        Seq::empty()
    }
}

pub fn cargo_args(args: &Vec<String>, cpu_limit: Option<u32>, target: &String, host: &String) -> (r:
    Vec<String>)
    ensures
        views(r@) == cargo_args_for(views(args@), cpu_limit, target@, host@),
{
    let mut r: Vec<String> = Vec::new();
    let mut i: usize = 0;
    while i < args.len()
        invariant
            i <= args@.len(),
            r@ == args@.take(i as int),
        decreases args@.len() - i,
    {
        r.push(args[i].clone());
        assert(r@ =~= args@.take(i + 1));
        i = i + 1;
    }
    assert(args@.take(args@.len() as int) == args@);
    let ghost after_args = views(r@);
    match cpu_limit {
        Some(n) => {
            let mut j = String::from_str("-j");
            push_decimal(&mut j, n);
            r.push(j);
        },
        None => {},
    }
    let ghost after_cpu = views(r@);
    assert(after_cpu =~= after_args + match cpu_limit {
        Some(n) => seq!["-j"@ + decimal(n as nat)],
        None => Seq::<Seq<char>>::empty(),
    });
    if !(*target == *host) {
        r.push(String::from_str("--target"));
        r.push(target.clone());
    }
    assert(views(r@) =~= cargo_args_for(views(args@), cpu_limit, target@, host@));
    r
}

/// The name of the environment variable that carries rustdoc's flags.
pub open spec fn flags_variable() -> Seq<char> {
    "RUSTDOCFLAGS"@
}

/// The value set for `key` in `env`: the last pair with that key, or empty.
pub open spec fn env_value(env: Seq<(String, String)>, key: Seq<char>) -> Seq<char>
    decreases env.len(),
{
    if env.len() == 0 {
        Seq::empty()
    } else if env.last().0@ == key {
        env.last().1@
    } else {
        env_value(env.drop_last(), key)
    }
}

/// The pairs of `env`, in order, whose key is not `key`.
pub open spec fn env_without(env: Seq<(String, String)>, key: Seq<char>) -> Seq<(String, String)>
    decreases env.len(),
{
    if env.len() == 0 {
        Seq::empty()
    } else if env.last().0@ == key {
        env_without(env.drop_last(), key)
    } else {
        env_without(env.drop_last(), key).push(env.last())
    }
}

/// The environment of a build: the package's variables verbatim, but for the
/// rustdoc-flags variable, which comes last and holds the package's value
/// followed by the fixed and the extra flags.
pub fn build_environment(env: &Vec<(String, String)>, extras: &Vec<String>) -> (r: Vec<
    (String, String),
>)
    ensures
        r@.len() > 0,
        r@.drop_last() == env_without(env@, flags_variable()),
        r@.last().0@ == flags_variable(),
        r@.last().1@ == env_value(env@, flags_variable()) + fixed_rustdoc_flags() + join_spaced(
            views(extras@),
        ),
{
    let key = String::from_str("RUSTDOCFLAGS");
    let mut kept: Vec<(String, String)> = Vec::new();
    let mut existing = String::new();
    let mut i: usize = 0;
    while i < env.len()
        invariant
            i <= env@.len(),
            key@ == flags_variable(),
            kept@ == env_without(env@.take(i as int), flags_variable()),
            existing@ == env_value(env@.take(i as int), flags_variable()),
        decreases env@.len() - i,
    {
        assert(env@.take(i + 1).drop_last() == env@.take(i as int));
        if env[i].0 == key {
            existing = env[i].1.clone();
        } else {
            kept.push((env[i].0.clone(), env[i].1.clone()));
        }
        i = i + 1;
    }
    assert(env@.take(env@.len() as int) == env@);
    let flags = rustdoc_flags(&existing, extras);
    kept.push((key, flags));
    assert(kept@.drop_last() =~= env_without(env@, flags_variable()));
    kept
}

/// A documentation-build invocation for one target.
pub struct BuildCommand {
    /// Whether the target must be installed first (targets outside the
    /// default set are installed on demand).
    pub install_target: bool,
    pub cargo_args: Vec<String>,
    pub env: Vec<(String, String)>,
    /// The wall-clock limit.
    pub timeout_secs: u64,
    /// The limit on a stretch without output: never set.
    pub no_output_timeout_secs: Option<u64>,
}

/// Builds the invocation that documents `target`.
pub fn prepare_command(
    target: &String,
    host: &String,
    default_targets: &Vec<String>,
    cpu_limit: Option<u32>,
    package_args: &Vec<String>,
    package_env: &Vec<(String, String)>,
    extras: &Vec<String>,
    timeout_secs: u64,
) -> (r: BuildCommand)
    ensures
        r.install_target == !contains_view(default_targets@, target@),
        views(r.cargo_args@) == cargo_args_for(views(package_args@), cpu_limit, target@, host@),
        r.env@.len() > 0,
        r.env@.drop_last() == env_without(package_env@, flags_variable()),
        r.env@.last().0@ == flags_variable(),
        r.env@.last().1@ == env_value(package_env@, flags_variable()) + fixed_rustdoc_flags()
            + join_spaced(views(extras@)),
        r.timeout_secs == timeout_secs,
        r.no_output_timeout_secs is None,
{
    BuildCommand {
        install_target: !contains_target(default_targets, target),
        cargo_args: cargo_args(package_args, cpu_limit, target, host),
        env: build_environment(package_env, extras),
        timeout_secs,
        no_output_timeout_secs: None,
    }
}

/// Where the documentation of a build of `target` is, relative to the target
/// directory, once the build is over: a cross-compiled default target is
/// moved to the top level, other non-host targets stay nested.
pub open spec fn final_doc_dir(target: Seq<char>, host: Seq<char>, is_default: bool) -> Seq<
    Seq<char>,
> {
    if target == host || is_default {
        seq!["doc"@]
    } else {
        seq![target, "doc"@]
    }
}

/// The move of a cross-compiled default target's documentation from its
/// nested directory to the top-level one, when it is needed.
pub fn relocation(target: &String, host: &String, is_default: bool) -> (r: Option<
    (Vec<String>, Vec<String>),
>)
    ensures
        r is Some <==> (is_default && target@ != host@),
        r is Some ==> views(r->Some_0.0@) == seq![target@, "doc"@] && views(r->Some_0.1@)
            == final_doc_dir(target@, host@, is_default),
{
    if is_default && !(*target == *host) {
        let from = vec![target.clone(), String::from_str("doc")];
        let to = vec![String::from_str("doc")];
        assert(views(from@) =~= seq![target@, "doc"@]);
        assert(views(to@) =~= seq!["doc"@]);
        Some((from, to))
    } else {
        None
    }
}

/// Cross-compiled default relocation: when the default target is not the
/// host's, its documentation ends up at the top level, not nested under the
/// target's name.
pub proof fn lemma_cross_default_at_top(target: Seq<char>, host: Seq<char>)
    requires
        target != host,
    ensures
        final_doc_dir(target, host, true) == seq!["doc"@],
        final_doc_dir(target, host, true) != seq![target, "doc"@],
{
    assert(seq![target, "doc"@].len() == 2);
}

/// Where the staged documentation of a target goes, relative to the staging
/// directory: the default target at its root, others under their name.
pub fn staging_dir(target: &String, is_default: bool) -> (r: Vec<String>)
    ensures
        is_default ==> r@.len() == 0,
        !is_default ==> views(r@) == seq![target@],
{
    if is_default {
        Vec::new()
    } else {
        let r = vec![target.clone()];
        assert(views(r@) =~= seq![target@]);
        r
    }
}

} // verus!
