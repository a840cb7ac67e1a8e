//! The names of the local branches, from what the backend enumerates.
//!
//! The backend yields one entry for each local branch. An entry may fail to
//! be read, and a branch may bear a name that is no valid text. The first
//! failure ends the listing; a branch without a readable name is passed over.

use vstd::prelude::*;
use crate::candidates::Name;

verus! {

/// What the enumeration yields for one local branch.
#[derive(Debug, PartialEq, Eq)]
pub enum Entry {
    /// A branch and its name.
    Named(String),
    /// A branch whose name is no valid text.
    Unreadable,
    /// The backend could not read the entry; the text says why.
    Failed(String),
}

/// An [`Entry`] as the contracts see it.
pub enum EntryView {
    Named(Name),
    Unreadable,
    Failed(Seq<char>),
}

impl View for Entry {
    type V = EntryView;

    open spec fn view(&self) -> EntryView {
        match self {
            Entry::Named(name) => EntryView::Named(name@),
            Entry::Unreadable => EntryView::Unreadable,
            Entry::Failed(reason) => EntryView::Failed(reason@),
        }
    }
}

impl DeepView for Entry {
    type V = EntryView;

    open spec fn deep_view(&self) -> EntryView {
        self@
    }
}

/// The name that an entry contributes to the listing, if any.
pub open spec fn name_of(entry: EntryView) -> Option<Name> {
    match entry {
        EntryView::Named(name) => Some(name),
        _ => None,
    }
}

/// The names of the entries that have one, in the order of the enumeration.
pub open spec fn readable_names(entries: Seq<EntryView>) -> Seq<Name> {
    entries.filter_map(|entry: EntryView| name_of(entry))
}

/// Entry `i` is the first that failed.
pub open spec fn fails_first_at(entries: Seq<EntryView>, i: int) -> bool {
    &&& 0 <= i < entries.len()
    &&& entries[i] is Failed
    &&& forall|j: int| 0 <= j < i ==> !(#[trigger] entries[j] is Failed)
}

/// No entry failed.
pub open spec fn none_failed(entries: Seq<EntryView>) -> bool {
    forall|j: int| 0 <= j < entries.len() ==> !(#[trigger] entries[j] is Failed)
}

/// Collects the names of the local branches. Where no entry failed, the
/// result is the names of the entries that have one, in order; otherwise it
/// is the reason of the first failure.
pub fn collect_branch_names(entries: &Vec<Entry>) -> (listed: Result<Vec<String>, String>)
    ensures
        match listed {
            Ok(names) => none_failed(entries.deep_view()) && names.deep_view() == readable_names(
                entries.deep_view(),
            ),
            Err(reason) => exists|i: int| #[trigger]
                fails_first_at(entries.deep_view(), i) && entries.deep_view()[i]
                    == EntryView::Failed(reason@),
        },
{
    let mut names: Vec<String> = Vec::new();
    let mut i: usize = 0;
    proof {
        assert(entries.deep_view().take(0) =~= Seq::<EntryView>::empty());
        assert(names.deep_view() =~= Seq::<Name>::empty());
    }
    while i < entries.len()
        invariant
            i <= entries.len(),
            none_failed(entries.deep_view().take(i as int)),
            names.deep_view() == readable_names(entries.deep_view().take(i as int)),
        decreases entries.len() - i,
    {
        let ghost before = names.deep_view();
        let ghost seen = entries.deep_view().take(i as int + 1);
        proof {
            assert(seen.drop_last() =~= entries.deep_view().take(i as int));
            assert(seen.last() == entries[i as int]@);
        }
        match &entries[i] {
            Entry::Named(name) => {
                names.push(name.clone());
                assert(names.deep_view() =~= before + seq![name@]);
            },
            Entry::Unreadable => {},
            Entry::Failed(reason) => {
                proof {
                    let all = entries.deep_view();
                    assert forall|j: int| 0 <= j < i implies !(#[trigger] all[j] is Failed) by {
                        assert(all.take(i as int)[j] == all[j]);
                    }
                    assert(fails_first_at(all, i as int));
                }
                return Err(reason.clone());
            },
        }
        proof {
            assert forall|j: int| 0 <= j < seen.len() implies !(#[trigger] seen[j] is Failed) by {
                if j < i {
                    assert(entries.deep_view().take(i as int)[j] == seen[j]);
                }
            }
        }
        i += 1;
    }
    proof {
        assert(entries.deep_view().take(i as int) =~= entries.deep_view());
    }
    Ok(names)
}

} // verus!
