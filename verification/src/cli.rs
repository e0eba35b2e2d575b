//! What the command-line client decides when it moves variables of a
//! dotenv file into the store.
use vstd::prelude::*;
use crate::key_value::KeyValue;

verus! {

/// Name-value pairs taken by their views.
pub open spec fn pair_views(pairs: Seq<(String, String)>) -> Seq<(Seq<char>, Seq<char>)> {
    pairs.map_values(|p: (String, String)| (p.0@, p.1@))
}

/// The value of the last pair named `name`, as a map built from `pairs` in
/// order holds it; `None` where no pair has that name.
pub open spec fn lookup(pairs: Seq<(Seq<char>, Seq<char>)>, name: Seq<char>) -> Option<Seq<char>>
    decreases pairs.len(),
{
    if pairs.len() == 0 {
        None
    } else if pairs.last().0 == name {
        Some(pairs.last().1)
    } else {
        lookup(pairs.drop_last(), name)
    }
}

/// Whether a variable as it stands after loading the file is one that the
/// file set: it was absent before, or held another value.
pub open spec fn set_by_file(before: Seq<(Seq<char>, Seq<char>)>, var: (Seq<char>, Seq<char>)) -> bool {
    lookup(before, var.0) != Some(var.1)
}

/// The variables of `after` that loading the file set, in the order of `after`.
pub open spec fn file_settings(before: Seq<(Seq<char>, Seq<char>)>, after: Seq<(Seq<char>, Seq<char>)>) -> Seq<(Seq<char>, Seq<char>)> {
    after.filter(|var: (Seq<char>, Seq<char>)| set_by_file(before, var))
}

/// A variable of `after` is listed exactly when loading the file set it: it
/// is listed where its name was absent before or held another value, the two
/// values compared as whole texts (so a longer value that extends the old one
/// counts as changed), and it is not listed where it holds the same value as
/// before.
pub proof fn law_set_variables_are_listed(
    before: Seq<(Seq<char>, Seq<char>)>,
    after: Seq<(Seq<char>, Seq<char>)>,
    i: int,
)
    requires
        0 <= i < after.len(),
    ensures
        lookup(before, after[i].0) is None ==> file_settings(before, after).contains(after[i]),
        (lookup(before, after[i].0) matches Some(old) && (old.len() != after[i].1.len()
            || exists|k: int| 0 <= k < old.len() && old[k] != after[i].1[k]))
            ==> file_settings(before, after).contains(after[i]),
        lookup(before, after[i].0) == Some(after[i].1) ==> !file_settings(before, after).contains(after[i]),
{
    let pred = |var: (Seq<char>, Seq<char>)| set_by_file(before, var);
    let listed = after.filter(pred);
    if pred(after[i]) {
        after.lemma_filter_contains(pred, i);
    } else {
        if listed.contains(after[i]) {
            let k = choose|k: int| 0 <= k < listed.len() && listed[k] == after[i];
            after.lemma_filter_pred(pred, k);
        }
    }
}

/// The value of the last pair of `pairs` named `name`.
fn lookup_last(pairs: &Vec<(String, String)>, name: &String) -> (r: Option<String>)
    ensures
        match r {
            Some(v) => lookup(pair_views(pairs@), name@) == Some(v@),
            None => lookup(pair_views(pairs@), name@) is None,
        },
{
    let ghost views = pair_views(pairs@);
    let mut found: Option<String> = None;
    for j in 0..pairs.len()
        invariant
            views == pair_views(pairs@),
            match found {
                Some(v) => lookup(views.take(j as int), name@) == Some(v@),
                None => lookup(views.take(j as int), name@) is None,
            },
    {
        assert(views.take(j + 1).drop_last() =~= views.take(j as int));
        if pairs[j].0 == *name {
            found = Some(pairs[j].1.clone());
        }
    }
    assert(views.take(pairs@.len() as int) =~= views);
    found
}

/// The variables that loading a dotenv file set: those of `after` that were
/// absent from `before` or held another value there, in the order of `after`.
pub fn env_changes(before: &Vec<(String, String)>, after: &Vec<(String, String)>) -> (r: Vec<(String, String)>)
    ensures
        pair_views(r@) == file_settings(pair_views(before@), pair_views(after@)),
{
    let ghost pre = pair_views(before@);
    let ghost post = pair_views(after@);
    let ghost pred = |var: (Seq<char>, Seq<char>)| set_by_file(pre, var);
    let mut changes: Vec<(String, String)> = Vec::new();
    for i in 0..after.len()
        invariant
            pre == pair_views(before@),
            post == pair_views(after@),
            pred == (|var: (Seq<char>, Seq<char>)| set_by_file(pre, var)),
            pair_views(changes@) == post.take(i as int).filter(pred),
    {
        reveal_with_fuel(Seq::filter, 1);
        assert(post.take(i + 1).drop_last() =~= post.take(i as int));
        let previous = lookup_last(before, &after[i].0);
        let changed = match previous {
            Some(v) => v != after[i].1,
            None => true,
        };
        if changed {
            let ghost old_changes = changes@;
            changes.push((after[i].0.clone(), after[i].1.clone()));
            assert(pair_views(changes@) =~= pair_views(old_changes).push(post[i as int]));
        }
    }
    assert(post.take(after@.len() as int) =~= post);
    changes
}

/// No two pairs of `pairs` share a name.
pub open spec fn distinct_names(pairs: Seq<(Seq<char>, Seq<char>)>) -> bool {
    forall|i: int, j: int| 0 <= i < j < pairs.len() ==> pairs[i].0 != pairs[j].0
}

proof fn lemma_lookup_finds(pairs: Seq<(Seq<char>, Seq<char>)>, i: int)
    requires
        distinct_names(pairs),
        0 <= i < pairs.len(),
    ensures
        lookup(pairs, pairs[i].0) == Some(pairs[i].1),
    decreases pairs.len(),
{
    if i < pairs.len() - 1 {
        assert(pairs.last() == pairs[pairs.len() - 1]);
        assert(pairs.drop_last()[i] == pairs[i]);
        lemma_lookup_finds(pairs.drop_last(), i);
    }
}

/// Loading a file that sets nothing migrates nothing: where the variables
/// before and after are the same and no name occurs twice, `env_changes`
/// lists no variable.
pub proof fn law_unchanged_environment_has_no_changes(vars: Seq<(Seq<char>, Seq<char>)>)
    requires
        distinct_names(vars),
    ensures
        vars.filter(|var: (Seq<char>, Seq<char>)| set_by_file(vars, var)) == Seq::<(Seq<char>, Seq<char>)>::empty(),
{
    let pred = |var: (Seq<char>, Seq<char>)| set_by_file(vars, var);
    assert forall|i: int| 0 <= i < vars.len() implies !pred(#[trigger] vars[i]) by {
        lemma_lookup_finds(vars, i);
    }
    lemma_filter_none(vars, pred);
}

proof fn lemma_filter_none<A>(s: Seq<A>, pred: spec_fn(A) -> bool)
    requires
        forall|i: int| 0 <= i < s.len() ==> !pred(#[trigger] s[i]),
    ensures
        s.filter(pred) == Seq::<A>::empty(),
    decreases s.len(),
{
    reveal_with_fuel(Seq::filter, 1);
    if s.len() > 0 {
        assert forall|i: int| 0 <= i < s.drop_last().len() implies !pred(#[trigger] s.drop_last()[i]) by {
            assert(s.drop_last()[i] == s[i]);
        }
        lemma_filter_none(s.drop_last(), pred);
    }
}

/// What the migration does with a variable, given what the store holds
/// under its name.
#[derive(Debug, Clone)]
pub enum MigrateAction {
    /// The store holds this value already; the variable is not moved.
    Keep(String),
    /// The store holds nothing under the name; the variable is written.
    Write,
}

/// What the migration does with a variable, given the store's answer for its
/// name.
pub fn migrate_action(current: &KeyValue) -> (a: MigrateAction)
    ensures
        match a {
            MigrateAction::Keep(v) => current.spec_value() == Some(v@),
            MigrateAction::Write => current.spec_value() is None,
        },
{
    match current.get_value() {
        Some(v) => MigrateAction::Keep(v.to_string()),
        None => MigrateAction::Write,
    }
}

} // verus!
