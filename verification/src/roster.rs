//! Membership lists: ordered sequences of identities in which no identity
//! occurs twice, and the operations that commits and welcomes perform on them.

use vstd::prelude::*;

verus! {

/// The test that every identity but `id` passes.
pub open spec fn is_not(id: Seq<char>) -> spec_fn(Seq<char>) -> bool {
    |m: Seq<char>| m != id
}

/// The test that every identity passes which `removed` does not list.
pub open spec fn is_not_in(removed: Seq<Seq<char>>) -> spec_fn(Seq<char>) -> bool {
    |m: Seq<char>| !removed.contains(m)
}

/// `members` without `id`, the others in their order.
pub open spec fn without(members: Seq<Seq<char>>, id: Seq<char>) -> Seq<Seq<char>> {
    members.filter(is_not(id))
}

/// `members` without any identity that `removed` lists.
pub open spec fn without_all(members: Seq<Seq<char>>, removed: Seq<Seq<char>>) -> Seq<Seq<char>> {
    members.filter(is_not_in(removed))
}

/// `members` with `id` appended, unless it is there already.
pub open spec fn with_one(members: Seq<Seq<char>>, id: Seq<char>) -> Seq<Seq<char>> {
    if members.contains(id) {
        members
    } else {
        members.push(id)
    }
}

/// `members` after each identity of `added`, taken in order, has been
/// appended unless it was there already.
pub open spec fn with_all(members: Seq<Seq<char>>, added: Seq<Seq<char>>) -> Seq<Seq<char>>
    decreases added.len(),
{
    if added.len() == 0 {
        members
    } else {
        with_one(with_all(members, added.drop_last()), added.last())
    }
}

/// What a commit makes of `members`: first everyone in `removed` leaves,
/// then everyone in `added` who is not there joins at the end.
pub open spec fn apply_changes(
    members: Seq<Seq<char>>,
    removed: Seq<Seq<char>>,
    added: Seq<Seq<char>>,
) -> Seq<Seq<char>> {
    with_all(without_all(members, removed), added)
}

/// Filtering keeps exactly the elements that satisfy the predicate.
pub proof fn lemma_filter_membership(
    s: Seq<Seq<char>>,
    pred: spec_fn(Seq<char>) -> bool,
    x: Seq<char>,
)
    ensures
        s.filter(pred).contains(x) <==> s.contains(x) && pred(x),
{
    if s.filter(pred).contains(x) {
        s.lemma_filter_contains_rev(pred, x);
        let i = choose|i: int| 0 <= i < s.filter(pred).len() && s.filter(pred)[i] == x;
        s.lemma_filter_pred(pred, i);
    }
    if s.contains(x) && pred(x) {
        let i = choose|i: int| 0 <= i < s.len() && s[i] == x;
        s.lemma_filter_contains(pred, i);
    }
}

/// Filtering a list without duplicates leaves a list without duplicates.
pub proof fn lemma_filter_no_duplicates(s: Seq<Seq<char>>, pred: spec_fn(Seq<char>) -> bool)
    requires
        s.no_duplicates(),
    ensures
        s.filter(pred).no_duplicates(),
    decreases s.len(),
{
    if s.len() > 0 {
        let front = s.drop_last();
        lemma_filter_no_duplicates(front, pred);
        assert(s == front.push(s.last()));
        front.lemma_filter_push(s.last(), pred);
        if pred(s.last()) {
            lemma_filter_membership(front, pred, s.last());
            assert(!front.contains(s.last())) by {
                if front.contains(s.last()) {
                    let i = choose|i: int| 0 <= i < front.len() && front[i] == s.last();
                    assert(s[i] == s[s.len() - 1]);
                }
            }
        }
    } else {
        reveal(Seq::filter);
    }
}

/// In a list without duplicates, dropping the one position that holds `id` is
/// the same as dropping `id`.
pub proof fn lemma_remove_is_without(members: Seq<Seq<char>>, pos: int)
    requires
        members.no_duplicates(),
        0 <= pos < members.len(),
    ensures
        members.remove(pos) == without(members, members[pos]),
    decreases members.len(),
{
    let id = members[pos];
    let last = members.last();
    let front = members.drop_last();
    assert(members == front.push(last));
    front.lemma_filter_push(last, is_not(id));
    if pos == members.len() - 1 {
        assert forall|i: int| 0 <= i < front.len() implies is_not(id)(#[trigger] front[i]) by {
            assert(members[i] != members[pos]);
        }
        lemma_filter_keeps_all(front, is_not(id));
        assert(members.remove(pos) =~= front);
    } else {
        assert(front.no_duplicates()) by {
            assert forall|i: int, j: int|
                0 <= i < front.len() && 0 <= j < front.len() && i != j implies front[i]
                != front[j] by {
                assert(members[i] != members[j]);
            }
        }
        assert(front[pos] == id);
        lemma_remove_is_without(front, pos);
        assert(last != id) by {
            assert(members[members.len() - 1] != members[pos]);
        }
        assert(members.remove(pos) =~= front.remove(pos).push(last));
    }
}

/// A filter that every element passes changes nothing.
proof fn lemma_filter_keeps_all(s: Seq<Seq<char>>, pred: spec_fn(Seq<char>) -> bool)
    requires
        forall|i: int| 0 <= i < s.len() ==> pred(#[trigger] s[i]),
    ensures
        s.filter(pred) == s,
    decreases s.len(),
{
    if s.len() > 0 {
        let front = s.drop_last();
        lemma_filter_keeps_all(front, pred);
        assert(s == front.push(s.last()));
        front.lemma_filter_push(s.last(), pred);
    } else {
        reveal(Seq::filter);
    }
}

/// Appending an identity that is new keeps the list free of duplicates.
pub proof fn lemma_with_one_no_duplicates(members: Seq<Seq<char>>, id: Seq<char>)
    requires
        members.no_duplicates(),
    ensures
        with_one(members, id).no_duplicates(),
        forall|x: Seq<char>| with_one(members, id).contains(x) <==> members.contains(x) || x == id,
{
    vstd::seq_lib::lemma_seq_contains_after_push(members, id, id);
    assert forall|x: Seq<char>| with_one(members, id).contains(x) <==> members.contains(x) || x
        == id by {
        vstd::seq_lib::lemma_seq_contains_after_push(members, id, x);
    }
}

/// Who is in the list after a commit's changes: those who were there and did
/// not leave, and those who were added. No identity occurs twice.
pub proof fn lemma_apply_changes(
    members: Seq<Seq<char>>,
    removed: Seq<Seq<char>>,
    added: Seq<Seq<char>>,
)
    requires
        members.no_duplicates(),
    ensures
        apply_changes(members, removed, added).no_duplicates(),
        forall|x: Seq<char>|
            apply_changes(members, removed, added).contains(x) <==> (members.contains(x)
                && !removed.contains(x)) || added.contains(x),
    decreases added.len(),
{
    let gone = is_not_in(removed);
    if added.len() == 0 {
        lemma_filter_no_duplicates(members, gone);
        assert forall|x: Seq<char>|
            apply_changes(members, removed, added).contains(x) <==> (members.contains(x)
                && !removed.contains(x)) || added.contains(x) by {
            lemma_filter_membership(members, gone, x);
        }
    } else {
        let front = added.drop_last();
        lemma_apply_changes(members, removed, front);
        let before = apply_changes(members, removed, front);
        lemma_with_one_no_duplicates(before, added.last());
        assert forall|x: Seq<char>|
            apply_changes(members, removed, added).contains(x) <==> (members.contains(x)
                && !removed.contains(x)) || added.contains(x) by {
            assert(added == front.push(added.last()));
            vstd::seq_lib::lemma_seq_contains_after_push(front, added.last(), x);
        }
    }
}

/// Whether `id` is one of `members`.
pub fn contains_identity(members: &Vec<String>, id: &str) -> (found: bool)
    ensures
        found == members.deep_view().contains(id@),
{
    position_of_identity(members, id).is_some()
}

/// The first position at which `members` holds `id`, if any.
pub fn position_of_identity(members: &Vec<String>, id: &str) -> (pos: Option<usize>)
    ensures
        match pos {
            Some(i) => {
                &&& i < members.len()
                &&& members.deep_view()[i as int] == id@
                &&& forall|j: int| 0 <= j < i ==> members.deep_view()[j] != id@
            },
            None => !members.deep_view().contains(id@),
        },
{
    let needle: String = id.to_owned();
    let mut i: usize = 0;
    while i < members.len()
        invariant
            i <= members.len(),
            needle@ == id@,
            forall|j: int| 0 <= j < i ==> members.deep_view()[j] != id@,
        decreases members.len() - i,
    {
        if members[i] == needle {
            return Some(i);
        }
        i += 1;
    }
    None
}

/// Whether no identity occurs twice in `members`.
pub fn all_distinct(members: &Vec<String>) -> (distinct: bool)
    ensures
        distinct == members.deep_view().no_duplicates(),
{
    let mut i: usize = 0;
    while i < members.len()
        invariant
            i <= members.len(),
            forall|a: int, b: int|
                0 <= a < i && 0 <= b < members.len() && a != b ==> members.deep_view()[a]
                    != members.deep_view()[b],
        decreases members.len() - i,
    {
        let mut j: usize = i + 1;
        while j < members.len()
            invariant
                i < j <= members.len(),
                forall|b: int| i < b < j ==> members.deep_view()[i as int] != members.deep_view()[b],
            decreases members.len() - j,
        {
            if members[i] == members[j] {
                assert(members.deep_view()[i as int] == members.deep_view()[j as int]);
                return false;
            }
            j += 1;
        }
        i += 1;
    }
    true
}

/// A copy of `members`.
pub fn clone_identities(members: &Vec<String>) -> (copy: Vec<String>)
    ensures
        copy.deep_view() == members.deep_view(),
{
    let copy = members.clone();
    assert(copy.deep_view() =~= members.deep_view());
    copy
}

/// The members that `removed` does not list, in their order.
pub fn remove_each(members: &Vec<String>, removed: &Vec<String>) -> (kept: Vec<String>)
    ensures
        kept.deep_view() == without_all(members.deep_view(), removed.deep_view()),
{
    let ghost leaves = is_not_in(removed.deep_view());
    let mut kept: Vec<String> = Vec::new();
    let mut i: usize = 0;
    proof {
        reveal(Seq::filter);
        assert(members.deep_view().subrange(0, 0).filter(leaves) =~= kept.deep_view());
    }
    while i < members.len()
        invariant
            i <= members.len(),
            leaves == is_not_in(removed.deep_view()),
            kept.deep_view() == members.deep_view().subrange(0, i as int).filter(leaves),
        decreases members.len() - i,
    {
        let ghost before = kept.deep_view();
        let ghost prefix = members.deep_view().subrange(0, i as int);
        proof {
            assert(members.deep_view().subrange(0, i + 1) =~= prefix.push(
                members.deep_view()[i as int],
            ));
            prefix.lemma_filter_push(members.deep_view()[i as int], leaves);
        }
        if !contains_identity(removed, members[i].as_str()) {
            kept.push(members[i].clone());
            assert(kept.deep_view() =~= before.push(members.deep_view()[i as int]));
        }
        i += 1;
    }
    assert(members.deep_view().subrange(0, members.len() as int) =~= members.deep_view());
    kept
}

/// Appends to `members`, in order, each identity of `added` that is not
/// there yet.
pub fn add_each(members: &mut Vec<String>, added: &Vec<String>)
    ensures
        final(members).deep_view() == with_all(old(members).deep_view(), added.deep_view()),
{
    let mut i: usize = 0;
    assert(added.deep_view().subrange(0, 0) =~= Seq::<Seq<char>>::empty());
    while i < added.len()
        invariant
            i <= added.len(),
            members.deep_view() == with_all(
                old(members).deep_view(),
                added.deep_view().subrange(0, i as int),
            ),
        decreases added.len() - i,
    {
        let ghost before = members.deep_view();
        proof {
            let upto = added.deep_view().subrange(0, i + 1);
            assert(upto.drop_last() =~= added.deep_view().subrange(0, i as int));
            assert(upto.last() == added.deep_view()[i as int]);
        }
        if !contains_identity(members, added[i].as_str()) {
            members.push(added[i].clone());
            assert(members.deep_view() =~= before.push(added.deep_view()[i as int]));
        }
        i += 1;
    }
    assert(added.deep_view().subrange(0, added.len() as int) =~= added.deep_view());
}

} // verus!
