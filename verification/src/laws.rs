//! Relations between the table operations, stated and proved once over the
//! mathematical model that their contracts share.

use vstd::prelude::*;
use crate::store::MemoView;

verus! {

broadcast use {
    vstd::seq_lib::group_to_multiset_ensures,
    vstd::seq_lib::group_filter_ensures,
    vstd::multiset::group_multiset_axioms,
};

/// Everything a filter keeps was already in the sequence.
pub proof fn lemma_filter_subset<A>(s: Seq<A>, pred: spec_fn(A) -> bool, x: A)
    requires
        s.filter(pred).contains(x),
    ensures
        s.contains(x),
    decreases s.len(),
{
    reveal(Seq::filter);
    if s.len() > 0 {
        if pred(s.last()) && x == s.last() {
            assert(s[s.len() - 1] == x);
        } else {
            assert(s.drop_last().filter(pred).contains(x)) by {
                if pred(s.last()) {
                    let f = s.drop_last().filter(pred);
                    let i = choose|i: int|
                        0 <= i < f.push(s.last()).len() && f.push(s.last())[i] == x;
                    assert(f[i] == x);
                }
            }
            lemma_filter_subset(s.drop_last(), pred, x);
            let i = choose|i: int| 0 <= i < s.drop_last().len() && s.drop_last()[i] == x;
            assert(s[i] == x);
        }
    }
}

/// Filtering by owner commutes with appending a row: the new row is kept
/// exactly when it has that owner.
pub proof fn lemma_filter_push_owner(s: Seq<MemoView>, m: MemoView, user: Seq<char>)
    ensures
        m.user_id == user ==> s.push(m).filter(|mv: MemoView| mv.user_id == user)
            == s.filter(|mv: MemoView| mv.user_id == user).push(m),
        m.user_id != user ==> s.push(m).filter(|mv: MemoView| mv.user_id == user)
            == s.filter(|mv: MemoView| mv.user_id == user),
{
    reveal(Seq::filter);
    assert(s.push(m).drop_last() =~= s);
    assert(s.push(m).last() == m);
}

/// Round trip: a memo just created for a user appears, with the same id,
/// title, content and timestamp, in any listing the service then returns
/// to that user.
///
/// `table` is the table before the creation, `m` the created row, and
/// `listed` any listing whose contents are the rows of the new table owned
/// by `m`'s owner, as the list operation guarantees.
pub proof fn lemma_create_then_list(table: Seq<MemoView>, m: MemoView, listed: Seq<MemoView>)
    requires
        listed.to_multiset()
            == table.push(m).filter(|mv: MemoView| mv.user_id == m.user_id).to_multiset(),
    ensures
        listed.contains(m),
{
    let pred = |mv: MemoView| mv.user_id == m.user_id;
    lemma_filter_push_owner(table, m, m.user_id);
    let fs = table.push(m).filter(pred);
    assert(fs == table.filter(pred).push(m));
    assert(fs.contains(m)) by {
        assert(fs[fs.len() - 1] == m);
    }
    assert(listed.to_multiset().count(m) > 0);
}

/// A listing for one user never shows another user's freshly created memo:
/// if the new row's id was fresh, a listing for any other user contains no
/// row with that id.
pub proof fn lemma_other_user_excluded(
    table: Seq<MemoView>,
    m: MemoView,
    other: Seq<char>,
    listed: Seq<MemoView>,
)
    requires
        m.user_id != other,
        forall|i: int| 0 <= i < table.len() ==> (#[trigger] table[i]).id != m.id,
        listed.to_multiset()
            == table.push(m).filter(|mv: MemoView| mv.user_id == other).to_multiset(),
    ensures
        forall|i: int| 0 <= i < listed.len() ==> (#[trigger] listed[i]).id != m.id,
{
    let pred = |mv: MemoView| mv.user_id == other;
    lemma_filter_push_owner(table, m, other);
    let fs = table.push(m).filter(pred);
    assert(fs == table.filter(pred));
    assert forall|i: int| 0 <= i < listed.len()
        implies (#[trigger] listed[i]).id != m.id by {
        assert(listed.contains(listed[i]));
        assert(fs.to_multiset().count(listed[i]) > 0);
        assert(fs.contains(listed[i]));
        lemma_filter_subset(table, pred, listed[i]);
        let j = choose|j: int| 0 <= j < table.len() && table[j] == listed[i];
        assert(table[j].id != m.id);
    }
}

} // verus!
