//! The targets a package is documented for.
use vstd::prelude::*;
use crate::reconcile::contains_target;
use crate::reconcile::contains_view;
use crate::reconcile::new_in;

verus! {

/// The target the builder runs on.
pub open spec fn host_triple() -> Seq<char> {
    "x86_64-unknown-linux-gnu"@
}

/// The targets kept installed, and documented when a package declares none.
pub open spec fn tier_one_triples() -> Seq<Seq<char>> {
    seq![
        "i686-pc-windows-msvc"@,
        "i686-unknown-linux-gnu"@,
        "x86_64-apple-darwin"@,
        "x86_64-pc-windows-msvc"@,
        "x86_64-unknown-linux-gnu"@,
    ]
}

pub fn host_target() -> (r: String)
    ensures
        r@ == host_triple(),
{
    String::from_str("x86_64-unknown-linux-gnu")
}

pub fn tier_one_targets() -> (r: Vec<String>)
    ensures
        r@.map_values(|t: String| t@) == tier_one_triples(),
{
    let r = vec![
        String::from_str("i686-pc-windows-msvc"),
        String::from_str("i686-unknown-linux-gnu"),
        String::from_str("x86_64-apple-darwin"),
        String::from_str("x86_64-pc-windows-msvc"),
        String::from_str("x86_64-unknown-linux-gnu"),
    ];
    assert(r@.map_values(|t: String| t@) =~= tier_one_triples());
    r
}

/// The default target and the additional ones of a package.
pub struct BuildTargets {
    pub default_target: String,
    pub other_targets: Vec<String>,
}

/// The default target: the declared one, else the first declared target,
/// else the host.
pub open spec fn default_target_of(
    declared_default: Option<String>,
    declared: Option<Seq<String>>,
    host: String,
) -> String {
    match declared_default {
        Some(d) => d,
        None => match declared {
            Some(ts) => if ts.len() > 0 { ts[0] } else { host },
            None => host,
        },
    }
}

/// Resolves the targets of a package from what it declares. The additional
/// targets are the declared ones (the default set when none are declared),
/// in order, without repetitions and without the default target.
pub fn resolve_targets(
    declared_default: Option<String>,
    declared: Option<Vec<String>>,
    host: String,
    defaults: &Vec<String>,
) -> (r: BuildTargets)
    ensures
        r.default_target == default_target_of(
            declared_default,
            match declared {
                Some(v) => Some(v@),
                None => None,
            },
            host,
        ),
        r.other_targets@ == new_in(
            match declared {
                Some(v) => v@,
                None => defaults@,
            },
            seq![r.default_target],
        ),
{
    let default_target = match declared_default {
        Some(d) => d,
        None => match &declared {
            Some(ts) => if ts.len() > 0 {
                ts[0].clone()
            } else {
                host
            },
            None => host,
        },
    };
    let list = match &declared {
        Some(v) => v,
        None => defaults,
    };
    let exclude = vec![default_target.clone()];
    let mut others: Vec<String> = Vec::new();
    let mut j: usize = 0;
    while j < list.len()
        invariant
            j <= list@.len(),
            exclude@ == seq![default_target],
            others@ == new_in(list@.take(j as int), exclude@),
        decreases list@.len() - j,
    {
        assert(list@.take(j + 1).drop_last() == list@.take(j as int));
        if !contains_target(&exclude, &list[j]) && !contains_target(&others, &list[j]) {
            others.push(list[j].clone());
        }
        j = j + 1;
    }
    assert(list@.take(list@.len() as int) == list@);
    BuildTargets { default_target, other_targets: others }
}

/// The default target is never among the additional ones.
pub proof fn lemma_other_targets_exclude_default(list: Seq<String>, default_target: String)
    ensures
        !contains_view(new_in(list, seq![default_target]), default_target@),
    decreases list.len(),
{
    if list.len() > 0 {
        lemma_other_targets_exclude_default(list.drop_last(), default_target);
        let p = new_in(list.drop_last(), seq![default_target]);
        if !contains_view(seq![default_target], list.last()@) && !contains_view(p, list.last()@) {
            assert(seq![default_target][0]@ == default_target@);
            if contains_view(p.push(list.last()), default_target@) {
                let i = choose|i: int| 0 <= i < p.len() + 1 && #[trigger] p.push(list.last())[i]@ == default_target@;
                if i < p.len() {
                    assert(p[i]@ == default_target@);
                }
            }
        }
    }
}

} // verus!
