//! The plan that brings the installed target triples of a toolchain to a
//! desired set: removals first, then the toolchain update, then additions.
use vstd::prelude::*;

verus! {

/// One step of a toolchain update, in the order it must be performed.
#[derive(Clone, Debug)]
pub enum ToolchainStep {
    RemoveTarget(String),
    InstallToolchain,
    AddTarget(String),
    /// Adding a component; a failure of this step is tolerated.
    AddComponent(String),
}

/// The component whose installation is attempted on every update.
pub open spec fn formatter_component() -> Seq<char> {
    "rustfmt"@
}

pub open spec fn contains_view(list: Seq<String>, t: Seq<char>) -> bool {
    exists|i: int| 0 <= i < list.len() && #[trigger] list[i]@ == t
}

/// The targets of `xs`, in order, whose view is not in `ys`.
pub open spec fn absent_from(xs: Seq<String>, ys: Seq<String>) -> Seq<String>
    decreases xs.len(),
{
    if xs.len() == 0 {
        Seq::empty()
    } else {
        let p = absent_from(xs.drop_last(), ys);
        if contains_view(ys, xs.last()@) {
            p
        } else {
            p.push(xs.last())
        }
    }
}

/// The targets of `xs`, in order, that are neither in `ys` nor earlier in `xs`.
pub open spec fn new_in(xs: Seq<String>, ys: Seq<String>) -> Seq<String>
    decreases xs.len(),
{
    if xs.len() == 0 {
        Seq::empty()
    } else {
        let p = new_in(xs.drop_last(), ys);
        if contains_view(ys, xs.last()@) || contains_view(p, xs.last()@) {
            p
        } else {
            p.push(xs.last())
        }
    }
}

pub open spec fn removals(ts: Seq<String>) -> Seq<ToolchainStep> {
    ts.map_values(|t: String| ToolchainStep::RemoveTarget(t))
}

pub open spec fn additions(ts: Seq<String>) -> Seq<ToolchainStep> {
    ts.map_values(|t: String| ToolchainStep::AddTarget(t))
}

/// The whole update plan for `installed` and `desired`.
pub open spec fn update_plan(installed: Seq<String>, desired: Seq<String>) -> Seq<ToolchainStep> {
    removals(absent_from(installed, desired)) + seq![ToolchainStep::InstallToolchain]
        + additions(new_in(desired, installed))
}

pub open spec fn view_set(ts: Seq<String>) -> Set<Seq<char>> {
    Set::new(|t: Seq<char>| contains_view(ts, t))
}

/// The installed set after one step.
pub open spec fn apply_step(s: Set<Seq<char>>, step: ToolchainStep) -> Set<Seq<char>> {
    match step {
        ToolchainStep::RemoveTarget(t) => s.remove(t@),
        ToolchainStep::AddTarget(t) => s.insert(t@),
        _ => s,
    }
}

/// The installed set after performing `steps` in order.
pub open spec fn apply_steps(s: Set<Seq<char>>, steps: Seq<ToolchainStep>) -> Set<Seq<char>>
    decreases steps.len(),
{
    if steps.len() == 0 {
        s
    } else {
        apply_step(apply_steps(s, steps.drop_last()), steps.last())
    }
}

/// Whether some element of `list` has the view of `t`.
pub fn contains_target(list: &Vec<String>, t: &String) -> (r: bool)
    ensures
        r == contains_view(list@, t@),
{
    let mut i: usize = 0;
    while i < list.len()
        invariant
            i <= list@.len(),
            forall|j: int| 0 <= j < i ==> list@[j]@ != t@,
        decreases list@.len() - i,
    {
        if list[i] == *t {
            return true;
        }
        i = i + 1;
    }
    false
}

/// Plans a toolchain update from the targets that are `installed` to the
/// `desired` ones: every installed target that is not desired is removed, then
/// the toolchain is installed or updated, then every desired target that is
/// missing is added, and at last the formatter component is attempted.
pub fn plan_toolchain_update(installed: &Vec<String>, desired: &Vec<String>) -> (r: Vec<
    ToolchainStep,
>)
    ensures
        r@.len() > 0,
        r@.drop_last() == update_plan(installed@, desired@),
        r@.last() matches ToolchainStep::AddComponent(c) && c@ == formatter_component(),
{
    let mut steps: Vec<ToolchainStep> = Vec::new();
    let ghost mut kept: Seq<String> = Seq::empty();
    let mut i: usize = 0;
    while i < installed.len()
        invariant
            i <= installed@.len(),
            kept == absent_from(installed@.take(i as int), desired@),
            steps@ == removals(kept),
        decreases installed@.len() - i,
    {
        assert(installed@.take(i + 1).drop_last() == installed@.take(i as int));
        if !contains_target(desired, &installed[i]) {
            steps.push(ToolchainStep::RemoveTarget(installed[i].clone()));
            proof {
                kept = kept.push(installed@[i as int]);
            }
            assert(removals(kept) =~= removals(kept.drop_last()).push(
                ToolchainStep::RemoveTarget(installed@[i as int]),
            ));
        }
        i = i + 1;
    }
    assert(installed@.take(installed@.len() as int) == installed@);
    steps.push(ToolchainStep::InstallToolchain);
    let ghost prefix = steps@;
    let mut added: Vec<String> = Vec::new();
    let mut j: usize = 0;
    while j < desired.len()
        invariant
            j <= desired@.len(),
            added@ == new_in(desired@.take(j as int), installed@),
            steps@ == prefix + additions(added@),
            prefix == removals(absent_from(installed@, desired@)) + seq![
                ToolchainStep::InstallToolchain,
            ],
        decreases desired@.len() - j,
    {
        assert(desired@.take(j + 1).drop_last() == desired@.take(j as int));
        if !contains_target(installed, &desired[j]) && !contains_target(&added, &desired[j]) {
            steps.push(ToolchainStep::AddTarget(desired[j].clone()));
            added.push(desired[j].clone());
            assert(additions(added@) =~= additions(added@.drop_last()).push(
                ToolchainStep::AddTarget(desired@[j as int]),
            ));
        }
        j = j + 1;
    }
    assert(desired@.take(desired@.len() as int) == desired@);
    assert(steps@ =~= update_plan(installed@, desired@));
    steps.push(ToolchainStep::AddComponent(String::from_str("rustfmt")));
    assert(steps@.drop_last() =~= update_plan(installed@, desired@));
    steps
}

proof fn lemma_view_set_last(ts: Seq<String>)
    requires
        ts.len() > 0,
    ensures
        view_set(ts) == view_set(ts.drop_last()).insert(ts.last()@),
{
    let p = ts.drop_last();
    assert forall|t: Seq<char>| view_set(ts).contains(t) <==> #[trigger] view_set(p).insert(
        ts.last()@,
    ).contains(t) by {
        if contains_view(ts, t) {
            let i = choose|i: int| 0 <= i < ts.len() && #[trigger] ts[i]@ == t;
            if i < p.len() {
                assert(p[i]@ == t);
            }
        }
        if contains_view(p, t) {
            let i = choose|i: int| 0 <= i < p.len() && #[trigger] p[i]@ == t;
            assert(ts[i]@ == t);
        }
        if t == ts.last()@ {
            assert(ts[ts.len() - 1]@ == t);
        }
    }
    assert(view_set(ts) =~= view_set(p).insert(ts.last()@));
}

proof fn lemma_view_set_push(ts: Seq<String>, x: String)
    ensures
        view_set(ts.push(x)) == view_set(ts).insert(x@),
{
    lemma_view_set_last(ts.push(x));
    assert(ts.push(x).drop_last() == ts);
}

proof fn lemma_apply_concat(s: Set<Seq<char>>, a: Seq<ToolchainStep>, b: Seq<ToolchainStep>)
    ensures
        apply_steps(s, a + b) == apply_steps(apply_steps(s, a), b),
    decreases b.len(),
{
    if b.len() == 0 {
        assert(a + b == a);
    } else {
        lemma_apply_concat(s, a, b.drop_last());
        assert((a + b).drop_last() == a + b.drop_last());
        assert((a + b).last() == b.last());
    }
}

proof fn lemma_apply_removals(s: Set<Seq<char>>, ts: Seq<String>)
    ensures
        apply_steps(s, removals(ts)) == s.difference(view_set(ts)),
    decreases ts.len(),
{
    if ts.len() == 0 {
        assert(view_set(ts) =~= Set::empty());
        assert(s.difference(view_set(ts)) =~= s);
    } else {
        let p = ts.drop_last();
        lemma_apply_removals(s, p);
        assert(removals(ts).drop_last() =~= removals(p));
        lemma_view_set_last(ts);
        assert(s.difference(view_set(p)).remove(ts.last()@) =~= s.difference(view_set(ts)));
    }
}

proof fn lemma_apply_additions(s: Set<Seq<char>>, ts: Seq<String>)
    ensures
        apply_steps(s, additions(ts)) == s.union(view_set(ts)),
    decreases ts.len(),
{
    if ts.len() == 0 {
        assert(view_set(ts) =~= Set::empty());
        assert(s.union(view_set(ts)) =~= s);
    } else {
        let p = ts.drop_last();
        lemma_apply_additions(s, p);
        assert(additions(ts).drop_last() =~= additions(p));
        lemma_view_set_last(ts);
        assert(s.union(view_set(p)).insert(ts.last()@) =~= s.union(view_set(ts)));
    }
}

proof fn lemma_absent_from(xs: Seq<String>, ys: Seq<String>)
    ensures
        view_set(absent_from(xs, ys)) == view_set(xs).difference(view_set(ys)),
    decreases xs.len(),
{
    if xs.len() == 0 {
        assert(view_set(absent_from(xs, ys)) =~= Set::empty());
        assert(view_set(xs) =~= Set::empty());
        assert(view_set(xs).difference(view_set(ys)) =~= Set::empty());
    } else {
        let p = xs.drop_last();
        lemma_absent_from(p, ys);
        lemma_view_set_last(xs);
        lemma_view_set_push(absent_from(p, ys), xs.last());
        assert(view_set(ys).contains(xs.last()@) == contains_view(ys, xs.last()@));
        assert(view_set(absent_from(xs, ys)) =~= view_set(xs).difference(view_set(ys)));
    }
}

proof fn lemma_new_in(xs: Seq<String>, ys: Seq<String>)
    ensures
        view_set(new_in(xs, ys)) == view_set(xs).difference(view_set(ys)),
    decreases xs.len(),
{
    if xs.len() == 0 {
        assert(view_set(new_in(xs, ys)) =~= Set::empty());
        assert(view_set(xs) =~= Set::empty());
        assert(view_set(xs).difference(view_set(ys)) =~= Set::empty());
    } else {
        let p = xs.drop_last();
        lemma_new_in(p, ys);
        lemma_view_set_last(xs);
        lemma_view_set_push(new_in(p, ys), xs.last());
        assert(view_set(ys).contains(xs.last()@) == contains_view(ys, xs.last()@));
        assert(view_set(new_in(p, ys)).contains(xs.last()@) == contains_view(
            new_in(p, ys),
            xs.last()@,
        ));
        assert(view_set(new_in(xs, ys)) =~= view_set(xs).difference(view_set(ys)));
    }
}

/// Reconciliation converges: performing the update plan on the installed
/// targets leaves installed exactly the desired targets, whatever was
/// installed before.
pub proof fn lemma_update_reaches_desired(installed: Seq<String>, desired: Seq<String>)
    ensures
        apply_steps(view_set(installed), update_plan(installed, desired)) == view_set(desired),
{
    let i = view_set(installed);
    let d = view_set(desired);
    let rm = removals(absent_from(installed, desired));
    let mid = seq![ToolchainStep::InstallToolchain];
    let add = additions(new_in(desired, installed));
    lemma_apply_concat(i, rm + mid, add);
    lemma_apply_concat(i, rm, mid);
    lemma_apply_removals(i, absent_from(installed, desired));
    lemma_absent_from(installed, desired);
    let after_rm = i.difference(i.difference(d));
    assert(apply_steps(after_rm, mid) == after_rm) by {
        assert(mid.drop_last() =~= Seq::<ToolchainStep>::empty());
        assert(mid.last() == ToolchainStep::InstallToolchain);
        assert(apply_steps(after_rm, mid.drop_last()) == after_rm);
    }
    lemma_apply_additions(after_rm, new_in(desired, installed));
    lemma_new_in(desired, installed);
    assert(after_rm.union(d.difference(i)) =~= d);
}

/// Removals come strictly before additions: in the update plan, every
/// removal of a target stands before every addition of one.
pub proof fn lemma_removals_before_additions(
    installed: Seq<String>,
    desired: Seq<String>,
    i: int,
    j: int,
)
    requires
        0 <= i < update_plan(installed, desired).len(),
        0 <= j < update_plan(installed, desired).len(),
        update_plan(installed, desired)[i] is RemoveTarget,
        update_plan(installed, desired)[j] is AddTarget,
    ensures
        i < j,
{
    let rm = removals(absent_from(installed, desired));
    let add = additions(new_in(desired, installed));
    let plan = update_plan(installed, desired);
    if i > rm.len() {
        assert(plan[i] == add[i - rm.len() - 1]);
    }
    if i == rm.len() {
        assert(plan[i] == ToolchainStep::InstallToolchain);
    }
    if j < rm.len() {
        assert(plan[j] == rm[j]);
    }
    if j == rm.len() {
        assert(plan[j] == ToolchainStep::InstallToolchain);
    }
}

} // verus!
