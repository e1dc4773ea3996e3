//! The planner: which installs and removals turn the recorded dependencies
//! into the declared ones.

use crate::deps::{as_map, distinct_names, has_name, lemma_as_map_at, DependencyView, Deps, EntryView};
use vstd::prelude::*;

verus! {

/// What is done with one dependency directory.
#[derive(Debug, Clone, Copy, PartialEq, Eq, Structural)]
pub enum Action {
    Install,
    Remove,
}

/// An action and the local name that it applies to.
pub type ActionView = (Action, Seq<char>);

/// The views of a sequence of actions.
pub open spec fn action_views(v: Seq<(Action, String)>) -> Seq<ActionView> {
    Seq::new(v.len(), |i: int| (v[i].0, v[i].1@))
}

/// A declared dependency has to be installed when it is not recorded, or is
/// recorded with another tool, source or version.
pub open spec fn needs_install(cur: Seq<EntryView>, e: EntryView) -> bool {
    !has_name(cur, e.0) || as_map(cur)[e.0] != e.1
}

/// One `Install` for each entry of `new` that has to be installed, in the
/// order of `new`.
pub open spec fn installs(cur: Seq<EntryView>, new: Seq<EntryView>) -> Seq<ActionView>
    decreases new.len(),
{
    if new.len() == 0 {
        Seq::empty()
    } else if needs_install(cur, new.last()) {
        installs(cur, new.drop_last()).push((Action::Install, new.last().0))
    } else {
        installs(cur, new.drop_last())
    }
}

/// One `Remove` for each of the first `n` entries of `cur` whose name `new`
/// does not declare, in the order of `cur`.
pub open spec fn removes(cur: Seq<EntryView>, new: Seq<EntryView>, n: int) -> Seq<ActionView>
    decreases n,
{
    if n <= 0 {
        Seq::empty()
    } else if !has_name(new, cur[n - 1].0) {
        removes(cur, new, n - 1).push((Action::Remove, cur[n - 1].0))
    } else {
        removes(cur, new, n - 1)
    }
}

/// The plan: the installs, then the removals.
pub open spec fn plan(cur: Seq<EntryView>, new: Seq<EntryView>) -> Seq<ActionView> {
    installs(cur, new) + removes(cur, new, cur.len() as int)
}

/// Whether `actions` holds an action for `name`.
pub open spec fn mentions(actions: Seq<ActionView>, name: Seq<char>) -> bool {
    exists|k: int| 0 <= k < actions.len() && (#[trigger] actions[k]).1 == name
}

/// The effect of one action on the recorded dependencies: an install records
/// what `new` declares under the name, a removal drops the name.
pub open spec fn apply_one(
    cur: Map<Seq<char>, DependencyView>,
    new: Map<Seq<char>, DependencyView>,
    a: ActionView,
) -> Map<Seq<char>, DependencyView> {
    match a.0 {
        Action::Install => cur.insert(a.1, new[a.1]),
        Action::Remove => cur.remove(a.1),
    }
}

/// The effect of all of `actions`, taken from the last to the first.
pub open spec fn apply_all(
    cur: Map<Seq<char>, DependencyView>,
    new: Map<Seq<char>, DependencyView>,
    actions: Seq<ActionView>,
) -> Map<Seq<char>, DependencyView>
    decreases actions.len(),
{
    if actions.len() == 0 {
        cur
    } else {
        apply_all(apply_one(cur, new, actions.last()), new, actions.drop_last())
    }
}

/// The actions that turn `cur_deps` into `new_deps`.
pub fn actions(cur_deps: &Deps, new_deps: &Deps) -> (r: Vec<(Action, String)>)
    ensures
        action_views(r@) == plan(cur_deps@, new_deps@),
{
    let mut out: Vec<(Action, String)> = Vec::new();
    let mut i: usize = 0;
    assert(action_views(out@) == Seq::<ActionView>::empty());
    while i < new_deps.len()
        invariant
            i <= new_deps@.len(),
            action_views(out@) == installs(cur_deps@, new_deps@.take(i as int)),
        decreases new_deps@.len() - i,
    {
        let name = new_deps.name_at(i);
        let dep = new_deps.dep_at(i);
        let changed = match cur_deps.get(name) {
            Some(cur_dep) => !cur_dep.same_as(dep),
            None => true,
        };
        proof {
            let next = new_deps@.take(i + 1);
            assert(next.drop_last() == new_deps@.take(i as int));
            assert(next.last() == new_deps@[i as int]);
            assert(changed == needs_install(cur_deps@, next.last()));
        }
        if changed {
            let ghost before = out@;
            out.push((Action::Install, name.clone()));
            assert(action_views(out@) == action_views(before).push((Action::Install, name@)));
        }
        i += 1;
    }
    assert(new_deps@.take(i as int) == new_deps@);
    let ghost installed = action_views(out@);
    let mut j: usize = 0;
    assert(installed + Seq::<ActionView>::empty() == installed);
    while j < cur_deps.len()
        invariant
            j <= cur_deps@.len(),
            action_views(out@) == installed + removes(cur_deps@, new_deps@, j as int),
        decreases cur_deps@.len() - j,
    {
        let name = cur_deps.name_at(j);
        if !new_deps.contains_key(name) {
            let ghost before = out@;
            out.push((Action::Remove, name.clone()));
            assert(action_views(out@) == action_views(before).push((Action::Remove, name@)));
            assert(action_views(out@) == installed + removes(cur_deps@, new_deps@, j + 1));
        }
        j += 1;
    }
    out
}

/// Every install is for a name that `new` declares.
pub proof fn lemma_installs(cur: Seq<EntryView>, new: Seq<EntryView>)
    requires
        distinct_names(new),
    ensures
        forall|k: int|
            0 <= k < installs(cur, new).len() ==> {
                let a = #[trigger] installs(cur, new)[k];
                &&& a.0 == Action::Install
                &&& has_name(new, a.1)
                &&& needs_install(cur, (a.1, as_map(new)[a.1]))
            },
        forall|i: int|
            0 <= i < new.len() ==> (needs_install(cur, #[trigger] new[i]) <==> mentions(
                installs(cur, new),
                new[i].0,
            )),
        forall|k: int, l: int|
            0 <= k < l < installs(cur, new).len() ==> (#[trigger] installs(cur, new)[k]).1 != (
            #[trigger] installs(cur, new)[l]).1,
        forall|name: Seq<char>| mentions(installs(cur, new), name) ==> has_name(new, name),
    decreases new.len(),
{
    let all = installs(cur, new);
    if new.len() > 0 {
        let init = new.drop_last();
        let last = new.last();
        let n = new.len() - 1;
        lemma_installs(cur, init);
        let prev = installs(cur, init);
        assert forall|i: int| 0 <= i < n implies (#[trigger] init[i]) == new[i] by {}
        assert forall|name: Seq<char>| has_name(init, name) implies has_name(new, name) by {
            let i = choose|i: int| 0 <= i < init.len() && (#[trigger] init[i]).0 == name;
            assert(new[i].0 == name);
        }
        assert forall|name: Seq<char>| has_name(init, name) implies as_map(init)[name] == as_map(
            new,
        )[name] by {
            let i = choose|i: int| 0 <= i < init.len() && (#[trigger] init[i]).0 == name;
            assert(new[i] == init[i]);
            lemma_as_map_at(init, i);
            lemma_as_map_at(new, i);
        }
        assert(!has_name(init, last.0)) by {
            if has_name(init, last.0) {
                let i = choose|i: int| 0 <= i < init.len() && (#[trigger] init[i]).0 == last.0;
                assert(new[i].0 == new[n].0);
            }
        }
        lemma_as_map_at(new, n);
        assert forall|k: int| 0 <= k < all.len() implies {
            let a = #[trigger] all[k];
            &&& a.0 == Action::Install
            &&& has_name(new, a.1)
            &&& needs_install(cur, (a.1, as_map(new)[a.1]))
        } by {
            if k < prev.len() {
                assert(all[k] == prev[k]);
            }
        }
        assert forall|name: Seq<char>| mentions(all, name) implies has_name(new, name) by {
            let k = choose|k: int| 0 <= k < all.len() && (#[trigger] all[k]).1 == name;
        }
        assert forall|name: Seq<char>| mentions(prev, name) implies mentions(all, name) by {
            let k = choose|k: int| 0 <= k < prev.len() && (#[trigger] prev[k]).1 == name;
            assert(all[k] == prev[k]);
        }
        assert forall|i: int| 0 <= i < new.len() implies (needs_install(cur, #[trigger] new[i])
            <==> mentions(all, new[i].0)) by {
            if i < n {
                assert(new[i] == init[i]);
                if mentions(all, new[i].0) {
                    let k = choose|k: int| 0 <= k < all.len() && (#[trigger] all[k]).1 == new[i].0;
                    if k < prev.len() {
                        assert(all[k] == prev[k]);
                    } else {
                        assert(new[i].0 == new[n].0);
                    }
                }
            } else {
                if needs_install(cur, last) {
                    assert(all[all.len() - 1].1 == last.0);
                } else if mentions(all, last.0) {
                    let k = choose|k: int| 0 <= k < all.len() && (#[trigger] all[k]).1 == last.0;
                    assert(all[k] == prev[k]);
                }
            }
        }
        assert forall|k: int, l: int| 0 <= k < l < all.len() implies (#[trigger] all[k]).1 != (
        #[trigger] all[l]).1 by {
            assert(all[k] == prev[k]);
            if l < prev.len() {
                assert(all[l] == prev[l]);
            } else {
                assert(mentions(prev, prev[k].1));
            }
        }
    }
}

/// Every removal is for a name that `cur` records and `new` does not
/// declare, and each such name among the first `n` is removed once.
pub proof fn lemma_removes(cur: Seq<EntryView>, new: Seq<EntryView>, n: int)
    requires
        distinct_names(cur),
        0 <= n <= cur.len(),
    ensures
        forall|k: int|
            0 <= k < removes(cur, new, n).len() ==> {
                let a = #[trigger] removes(cur, new, n)[k];
                &&& a.0 == Action::Remove
                &&& has_name(cur, a.1)
                &&& !has_name(new, a.1)
            },
        forall|i: int|
            0 <= i < n ==> (!has_name(new, (#[trigger] cur[i]).0) <==> mentions(
                removes(cur, new, n),
                cur[i].0,
            )),
        forall|i: int|
            n <= i < cur.len() ==> !mentions(removes(cur, new, n), (#[trigger] cur[i]).0),
        forall|k: int, l: int|
            0 <= k < l < removes(cur, new, n).len() ==> (#[trigger] removes(cur, new, n)[k]).1 != (
            #[trigger] removes(cur, new, n)[l]).1,
    decreases n,
{
    let all = removes(cur, new, n);
    if n > 0 {
        lemma_removes(cur, new, n - 1);
        let prev = removes(cur, new, n - 1);
        let last = cur[n - 1];
        assert forall|k: int| 0 <= k < all.len() implies {
            let a = #[trigger] all[k];
            &&& a.0 == Action::Remove
            &&& has_name(cur, a.1)
            &&& !has_name(new, a.1)
        } by {
            if k < prev.len() {
                assert(all[k] == prev[k]);
            }
        }
        assert forall|name: Seq<char>| mentions(prev, name) implies mentions(all, name) by {
            let k = choose|k: int| 0 <= k < prev.len() && (#[trigger] prev[k]).1 == name;
            assert(all[k] == prev[k]);
        }
        assert forall|name: Seq<char>| mentions(all, name) && name != last.0 implies mentions(
            prev,
            name,
        ) by {
            let k = choose|k: int| 0 <= k < all.len() && (#[trigger] all[k]).1 == name;
            assert(all[k] == prev[k]);
        }
        assert forall|i: int| 0 <= i < n implies (!has_name(new, (#[trigger] cur[i]).0)
            <==> mentions(all, cur[i].0)) by {
            if i == n - 1 {
                if !has_name(new, last.0) {
                    assert(all[all.len() - 1].1 == last.0);
                } else if mentions(all, last.0) {
                    let k = choose|k: int| 0 <= k < all.len() && (#[trigger] all[k]).1 == last.0;
                    assert(all[k] == prev[k]);
                }
            }
        }
        assert forall|i: int| n <= i < cur.len() implies !mentions(all, (#[trigger] cur[i]).0) by {
            assert(cur[i].0 != last.0);
        }
        assert forall|k: int, l: int| 0 <= k < l < all.len() implies (#[trigger] all[k]).1 != (
        #[trigger] all[l]).1 by {
            assert(all[k] == prev[k]);
            if l < prev.len() {
                assert(all[l] == prev[l]);
            } else {
                assert(mentions(prev, prev[k].1));
            }
        }
    }
}

/// An action fits `new` when it installs a name that `new` declares or
/// removes one that it does not.
pub open spec fn fits(new: Map<Seq<char>, DependencyView>, a: ActionView) -> bool {
    match a.0 {
        Action::Install => new.contains_key(a.1),
        Action::Remove => !new.contains_key(a.1),
    }
}

/// Applying actions that fit `new` makes every name that they mention as
/// `new` has it, and leaves every other name as it was.
pub proof fn lemma_apply_all(
    cur: Map<Seq<char>, DependencyView>,
    new: Map<Seq<char>, DependencyView>,
    actions: Seq<ActionView>,
)
    requires
        forall|k: int| 0 <= k < actions.len() ==> fits(new, #[trigger] actions[k]),
    ensures
        forall|name: Seq<char>|
            mentions(actions, name) ==> {
                &&& #[trigger] apply_all(cur, new, actions).contains_key(name)
                    == new.contains_key(name)
                &&& new.contains_key(name) ==> apply_all(cur, new, actions)[name] == new[name]
            },
        forall|name: Seq<char>|
            !mentions(actions, name) ==> {
                &&& #[trigger] apply_all(cur, new, actions).contains_key(name)
                    == cur.contains_key(name)
                &&& cur.contains_key(name) ==> apply_all(cur, new, actions)[name] == cur[name]
            },
    decreases actions.len(),
{
    if actions.len() > 0 {
        let last = actions.last();
        let init = actions.drop_last();
        let mid = apply_one(cur, new, last);
        assert(fits(new, last));
        assert forall|k: int| 0 <= k < init.len() implies fits(new, #[trigger] init[k]) by {
            assert(init[k] == actions[k]);
        }
        lemma_apply_all(mid, new, init);
        let end = apply_all(cur, new, actions);
        assert(end == apply_all(mid, new, init));
        assert forall|name: Seq<char>| mentions(init, name) implies mentions(actions, name) by {
            let k = choose|k: int| 0 <= k < init.len() && (#[trigger] init[k]).1 == name;
            assert(actions[k] == init[k]);
        }
        assert(mentions(actions, last.1)) by {
            assert(actions[actions.len() - 1].1 == last.1);
        }
        assert forall|name: Seq<char>| mentions(actions, name) && !mentions(init, name) implies name
            == last.1 by {
            let k = choose|k: int| 0 <= k < actions.len() && (#[trigger] actions[k]).1 == name;
            if k < init.len() {
                assert(init[k] == actions[k]);
            }
        }
        assert forall|name: Seq<char>| mentions(actions, name) implies {
            &&& #[trigger] end.contains_key(name) == new.contains_key(name)
            &&& new.contains_key(name) ==> end[name] == new[name]
        } by {
            if !mentions(init, name) {
                assert(name == last.1);
            }
        }
        assert forall|name: Seq<char>| !mentions(actions, name) implies {
            &&& #[trigger] end.contains_key(name) == cur.contains_key(name)
            &&& cur.contains_key(name) ==> end[name] == cur[name]
        } by {
            assert(!mentions(init, name));
            assert(name != last.1);
        }
    }
}

/// The plan is the difference between what is recorded and what is declared.
///
/// Each action of `plan(cur, new)` is an install of a name that `new`
/// declares and `cur` does not record with the same tool, source and version,
/// or a removal of a name that `cur` records and `new` does not declare. Each
/// such name has exactly one action, and no other name has any. Applied to
/// `cur`, the plan gives `new`: the same names with the same dependencies.
pub proof fn lemma_plan_is_the_difference(cur: Seq<EntryView>, new: Seq<EntryView>)
    requires
        distinct_names(cur),
        distinct_names(new),
    ensures
        forall|k: int|
            0 <= k < plan(cur, new).len() ==> match (#[trigger] plan(cur, new)[k]).0 {
                Action::Install => has_name(new, plan(cur, new)[k].1) && needs_install(
                    cur,
                    (plan(cur, new)[k].1, as_map(new)[plan(cur, new)[k].1]),
                ),
                Action::Remove => has_name(cur, plan(cur, new)[k].1) && !has_name(
                    new,
                    plan(cur, new)[k].1,
                ),
            },
        forall|name: Seq<char>|
            #[trigger] mentions(plan(cur, new), name) <==> (has_name(new, name) && needs_install(
                cur,
                (name, as_map(new)[name]),
            )) || (has_name(cur, name) && !has_name(new, name)),
        forall|k: int, l: int|
            0 <= k < l < plan(cur, new).len() ==> (#[trigger] plan(cur, new)[k]).1 != (
            #[trigger] plan(cur, new)[l]).1,
        apply_all(as_map(cur), as_map(new), plan(cur, new)) == as_map(new),
{
    let ins = installs(cur, new);
    let rem = removes(cur, new, cur.len() as int);
    let all = plan(cur, new);
    lemma_installs(cur, new);
    lemma_removes(cur, new, cur.len() as int);
    assert forall|k: int| 0 <= k < all.len() implies match (#[trigger] all[k]).0 {
        Action::Install => has_name(new, all[k].1) && needs_install(
            cur,
            (all[k].1, as_map(new)[all[k].1]),
        ),
        Action::Remove => has_name(cur, all[k].1) && !has_name(new, all[k].1),
    } by {
        if k < ins.len() {
            assert(all[k] == ins[k]);
        } else {
            assert(all[k] == rem[k - ins.len()]);
        }
    }
    assert forall|name: Seq<char>| mentions(ins, name) implies mentions(all, name) by {
        let k = choose|k: int| 0 <= k < ins.len() && (#[trigger] ins[k]).1 == name;
        assert(all[k] == ins[k]);
    }
    assert forall|name: Seq<char>| mentions(rem, name) implies mentions(all, name) by {
        let k = choose|k: int| 0 <= k < rem.len() && (#[trigger] rem[k]).1 == name;
        assert(all[k + ins.len()] == rem[k]);
    }
    assert forall|name: Seq<char>| mentions(all, name) implies mentions(ins, name) || mentions(
        rem,
        name,
    ) by {
        let k = choose|k: int| 0 <= k < all.len() && (#[trigger] all[k]).1 == name;
        if k < ins.len() {
            assert(all[k] == ins[k]);
        } else {
            assert(all[k] == rem[k - ins.len()]);
        }
    }
    assert forall|name: Seq<char>| mentions(rem, name) implies has_name(cur, name) && !has_name(
        new,
        name,
    ) by {
        let k = choose|k: int| 0 <= k < rem.len() && (#[trigger] rem[k]).1 == name;
    }
    assert forall|name: Seq<char>| #[trigger]
        mentions(all, name) <==> (has_name(new, name) && needs_install(
            cur,
            (name, as_map(new)[name]),
        )) || (has_name(cur, name) && !has_name(new, name)) by {
        if has_name(new, name) {
            let i = choose|i: int| 0 <= i < new.len() && (#[trigger] new[i]).0 == name;
            lemma_as_map_at(new, i);
            assert(new[i] == (name, as_map(new)[name]));
        }
        if has_name(cur, name) {
            let i = choose|i: int| 0 <= i < cur.len() && (#[trigger] cur[i]).0 == name;
            assert(cur[i].0 == name);
        }
    }
    assert forall|k: int, l: int| 0 <= k < l < all.len() implies (#[trigger] all[k]).1 != (
    #[trigger] all[l]).1 by {
        if l < ins.len() {
            assert(all[k] == ins[k] && all[l] == ins[l]);
        } else if k >= ins.len() {
            assert(all[k] == rem[k - ins.len()] && all[l] == rem[l - ins.len()]);
        } else {
            assert(all[k] == ins[k] && all[l] == rem[l - ins.len()]);
            assert(mentions(ins, ins[k].1));
            assert(mentions(rem, rem[l - ins.len()].1));
        }
    }
    assert forall|k: int| 0 <= k < all.len() implies fits(as_map(new), #[trigger] all[k]) by {}
    lemma_apply_all(as_map(cur), as_map(new), all);
    let end = apply_all(as_map(cur), as_map(new), all);
    assert forall|name: Seq<char>| #[trigger]
        end.contains_key(name) == as_map(new).contains_key(name) && (end.contains_key(name)
            ==> end[name] == as_map(new)[name]) by {
        if !mentions(all, name) {
            assert(as_map(cur).contains_key(name) == has_name(cur, name));
        }
    }
    assert(end =~= as_map(new));
}

/// Nothing is planned where what is recorded is what is declared.
pub proof fn lemma_plan_of_the_same_is_empty(cur: Seq<EntryView>, new: Seq<EntryView>)
    requires
        distinct_names(cur),
        distinct_names(new),
        as_map(cur) == as_map(new),
    ensures
        plan(cur, new) == Seq::<ActionView>::empty(),
{
    lemma_plan_is_the_difference(cur, new);
    let all = plan(cur, new);
    if all.len() > 0 {
        let name = all[0].1;
        assert(mentions(all, name));
        assert(as_map(cur).contains_key(name) == has_name(cur, name));
        assert(as_map(new).contains_key(name) == has_name(new, name));
    }
    assert(all =~= Seq::<ActionView>::empty());
}

} // verus!
