//! The branches that may be offered for deletion.

use vstd::prelude::*;

verus! {

/// A branch name as the contracts see it: the characters of the string.
pub type Name = Seq<char>;

/// The predicate that holds of every name but `current`.
pub open spec fn is_other_than(current: Name) -> spec_fn(Name) -> bool {
    |name: Name| name != current
}

/// The deletable set: the local branches without the current one, in the
/// order in which they were listed.
pub open spec fn deletable(all: Seq<Name>, current: Name) -> Seq<Name> {
    all.filter(is_other_than(current))
}

/// Nothing listed, nothing deletable.
pub proof fn lemma_deletable_of_none(current: Name)
    ensures
        deletable(Seq::empty(), current) == Seq::<Name>::empty(),
{
    reveal(Seq::filter);
}

/// One branch more in the listing is one more deletable branch, at the end,
/// unless it is the current branch.
pub proof fn lemma_deletable_of_one_more(all: Seq<Name>, name: Name, current: Name)
    ensures
        deletable(all.push(name), current) == if name == current {
            deletable(all, current)
        } else {
            deletable(all, current).push(name)
        },
{
    reveal(Seq::filter);
    assert(all.push(name).drop_last() =~= all);
}

/// What is offered for deletion. `head` is the name of the current branch.
/// Where there is none, because `HEAD` points at no branch or its name cannot
/// be read, no listed branch is the current one, whatever it is called, and
/// every listed branch is offered.
pub open spec fn offered(all: Seq<Name>, head: Option<Name>) -> Seq<Name> {
    match head {
        Some(current) => deletable(all, current),
        None => all,
    }
}

/// Returns the branches of `all` that are not `current`, keeping their order.
/// The result depends on the two arguments alone, and neither is changed.
pub fn filter_candidates(all: &Vec<String>, current: &str) -> (out: Vec<String>)
    ensures
        out.deep_view() == deletable(all.deep_view(), current@),
{
    let current_name = current.to_owned();
    let mut out: Vec<String> = Vec::new();
    let mut i: usize = 0;
    proof {
        lemma_deletable_of_none(current@);
        assert(all.deep_view().take(0) =~= Seq::<Name>::empty());
        assert(out.deep_view() =~= Seq::<Name>::empty());
    }
    while i < all.len()
        invariant
            i <= all.len(),
            current_name@ == current@,
            out.deep_view() == deletable(all.deep_view().take(i as int), current@),
        decreases all.len() - i,
    {
        let ghost before = out.deep_view();
        let keep = all[i] != current_name;
        if keep {
            out.push(all[i].clone());
        }
        proof {
            let seen = all.deep_view().take(i as int);
            lemma_deletable_of_one_more(seen, all[i as int]@, current@);
            assert(seen.push(all[i as int]@) =~= all.deep_view().take(i as int + 1));
            if keep {
                assert(out.deep_view() =~= before.push(all[i as int]@));
            } else {
                assert(out.deep_view() =~= before);
            }
        }
        i += 1;
    }
    proof {
        assert(all.deep_view().take(i as int) =~= all.deep_view());
    }
    out
}

/// Returns the branches of `all` that are offered for deletion: all but the
/// current one, in their order, or all of them where there is no current
/// branch.
pub fn offered_candidates(all: Vec<String>, head: &Option<String>) -> (out: Vec<String>)
    ensures
        out.deep_view() == offered(all.deep_view(), head.deep_view()),
{
    match head {
        Some(current) => filter_candidates(&all, current.as_str()),
        None => all,
    }
}

/// The current branch is never offered for deletion.
pub proof fn lemma_current_is_never_deletable(all: Seq<Name>, current: Name)
    ensures
        !deletable(all, current).contains(current),
{
    let kept = deletable(all, current);
    if kept.contains(current) {
        let k = choose|k: int| 0 <= k < kept.len() && kept[k] == current;
        all.lemma_filter_pred(is_other_than(current), k);
    }
}

/// Every deletable branch is one of the listed branches.
pub proof fn lemma_deletable_was_listed(all: Seq<Name>, current: Name, name: Name)
    requires
        deletable(all, current).contains(name),
    ensures
        all.contains(name),
        name != current,
{
    all.lemma_filter_contains_rev(is_other_than(current), name);
    lemma_current_is_never_deletable(all, current);
}

/// Where the current branch is not among the listed ones, every listed
/// branch is deletable.
pub proof fn lemma_absent_current_holds_nothing_back(all: Seq<Name>, current: Name)
    requires
        !all.contains(current),
    ensures
        deletable(all, current) == all,
    decreases all.len(),
{
    reveal(Seq::filter);
    if all.len() > 0 {
        let rest = all.drop_last();
        assert forall|name: Name| rest.contains(name) implies all.contains(name) by {
            let k = choose|k: int| 0 <= k < rest.len() && rest[k] == name;
            assert(all[k] == name);
        }
        lemma_absent_current_holds_nothing_back(rest, current);
        assert(all.contains(all.last())) by {
            assert(all[all.len() - 1] == all.last());
        }
        assert(rest.push(all.last()) =~= all);
    }
}

/// Among `n` local branches, each listed once, of which the current branch is
/// one, exactly `n - 1` are deletable, and the current branch is none of them.
pub proof fn lemma_deletable_is_all_but_current(all: Seq<Name>, current: Name)
    requires
        all.no_duplicates(),
        all.contains(current),
    ensures
        deletable(all, current).len() == all.len() - 1,
        !deletable(all, current).contains(current),
    decreases all.len(),
{
    lemma_current_is_never_deletable(all, current);
    reveal(Seq::filter);
    let rest = all.drop_last();
    let at = choose|k: int| 0 <= k < all.len() && all[k] == current;
    if all.last() == current {
        assert(!rest.contains(current)) by {
            if rest.contains(current) {
                let k = choose|k: int| 0 <= k < rest.len() && rest[k] == current;
                assert(all[k] == all[all.len() - 1]);
            }
        }
        lemma_absent_current_holds_nothing_back(rest, current);
    } else {
        assert(rest[at] == current);
        lemma_deletable_is_all_but_current(rest, current);
    }
}

/// Without a current branch nothing is held back, not even a branch whose
/// name reads like that of `HEAD` itself: what is offered is the listing as
/// it came.
pub proof fn lemma_without_current_everything_is_offered(all: Seq<Name>)
    ensures
        offered(all, None) == all,
{
}

/// With a current branch, what is offered never holds it, and holds nothing
/// that was not listed.
pub proof fn lemma_offered_was_listed_and_is_not_current(
    all: Seq<Name>,
    head: Option<Name>,
    name: Name,
)
    requires
        offered(all, head).contains(name),
    ensures
        all.contains(name),
        head != Some(name),
{
    if let Some(current) = head {
        lemma_deletable_was_listed(all, current, name);
    }
}

/// Filtering again changes nothing: the deletable set of a deletable set,
/// for the same current branch, is that set.
pub proof fn lemma_filter_is_idempotent(all: Seq<Name>, current: Name)
    ensures
        deletable(deletable(all, current), current) == deletable(all, current),
{
    lemma_current_is_never_deletable(all, current);
    lemma_absent_current_holds_nothing_back(deletable(all, current), current);
}

} // verus!
