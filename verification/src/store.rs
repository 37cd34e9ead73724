//! The memo table and the four operations the service performs on it.
//!
//! Every memo belongs to exactly one user, fixed at creation; list, update
//! and delete are scoped to the caller's identity, and an id that does not
//! exist for that identity is reported as absent, never touched.

use vstd::prelude::*;
use crate::strutil::str_eq_str;

verus! {

broadcast use {
    vstd::seq_lib::group_to_multiset_ensures,
    vstd::seq_lib::group_filter_ensures,
    vstd::multiset::group_multiset_axioms,
};

/// The request body of the create and update operations: the caller never
/// supplies an id, an owner or a timestamp.
pub struct MemoForm {
    pub title: String,
    pub content: String,
}

/// One row of the memo table.
#[derive(Debug)]
pub struct Memo {
    pub id: i64,
    pub user_id: String,
    pub title: String,
    pub content: String,
    pub created_at: i64,
}

/// The mathematical value of a memo row.
pub struct MemoView {
    pub id: int,
    pub user_id: Seq<char>,
    pub title: Seq<char>,
    pub content: Seq<char>,
    pub created_at: int,
}

impl View for Memo {
    type V = MemoView;

    open spec fn view(&self) -> MemoView {
        MemoView {
            id: self.id as int,
            user_id: self.user_id@,
            title: self.title@,
            content: self.content@,
            created_at: self.created_at as int,
        }
    }
}

impl Clone for Memo {
    fn clone(&self) -> (r: Self)
        ensures
            r@ == self@,
    {
        Memo {
            id: self.id,
            user_id: self.user_id.clone(),
            title: self.title.clone(),
            content: self.content.clone(),
            created_at: self.created_at,
        }
    }
}

/// The values of a sequence of rows.
pub open spec fn views_of(s: Seq<Memo>) -> Seq<MemoView> {
    s.map_values(|m: Memo| m@)
}

/// Some row of `s` has this id and this owner.
pub open spec fn contains_memo(s: Seq<MemoView>, id: int, user: Seq<char>) -> bool {
    exists|i: int| 0 <= i < s.len() && (#[trigger] s[i]).id == id && s[i].user_id == user
}

/// Timestamps never increase along the sequence.
pub open spec fn sorted_by_created_desc(s: Seq<MemoView>) -> bool {
    forall|i: int, j: int| 0 <= i < j < s.len()
        ==> (#[trigger] s[i]).created_at >= (#[trigger] s[j]).created_at
}

/// Why a table operation failed.
#[derive(Debug, PartialEq, Eq, Structural, Clone, Copy)]
pub enum StoreError {
    /// No row with the requested id belongs to the caller.
    NotFound,
    /// The id space is used up: no fresh id can be assigned.
    IdsExhausted,
}

/// The memo table: rows in insertion order, plus the next fresh id.
pub struct MemoStore {
    memos: Vec<Memo>,
    next_id: i64,
}

impl View for MemoStore {
    type V = Seq<MemoView>;

    closed spec fn view(&self) -> Seq<MemoView> {
        views_of(self.memos@)
    }
}

impl MemoStore {
    /// Every row's id is positive, below the next fresh id, and unique.
    pub closed spec fn wf(&self) -> bool {
        &&& 1 <= self.next_id
        &&& forall|i: int| 0 <= i < self@.len()
            ==> 0 < (#[trigger] self@[i]).id < self.next_id as int
        &&& forall|i: int, j: int| 0 <= i < j < self@.len()
            ==> (#[trigger] self@[i]).id != (#[trigger] self@[j]).id
    }

    /// The id the next created memo will get.
    pub closed spec fn spec_next_id(&self) -> int {
        self.next_id as int
    }

    /// An empty table; ids start at 1.
    pub fn new() -> (s: MemoStore)
        ensures
            s.wf(),
            s@ == Seq::<MemoView>::empty(),
            s.spec_next_id() == 1,
    {
        let s = MemoStore { memos: Vec::new(), next_id: 1 };
        proof {
            assert(s@ =~= Seq::<MemoView>::empty());
        }
        s
    }

    /// The index of the row with this id and this owner, if there is one.
    fn find_index(&self, memo_id: i64, user_id: &str) -> (r: Option<usize>)
        ensures
            match r {
                Some(i) => i < self@.len() && self@[i as int].id == memo_id as int
                    && self@[i as int].user_id == user_id@,
                None => !contains_memo(self@, memo_id as int, user_id@),
            },
    {
        let n = self.memos.len();
        let mut i: usize = 0;
        while i < n
            invariant
                n == self@.len(),
                i <= n,
                forall|k: int| 0 <= k < i
                    ==> !((#[trigger] self@[k]).id == memo_id as int
                        && self@[k].user_id == user_id@),
            decreases n - i,
        {
            let m = &self.memos[i];
            if m.id == memo_id && str_eq_str(m.user_id.as_str(), user_id) {
                return Some(i);
            }
            i += 1;
        }
        None
    }

    /// Looks up one memo by id, scoped to its owner: an id that exists but
    /// belongs to someone else is reported as absent.
    pub fn get_memo_by_id_and_user(&self, memo_id: i64, user_id: &str) -> (r: Option<Memo>)
        ensures
            match r {
                Some(m) => m@.id == memo_id as int && m@.user_id == user_id@
                    && exists|i: int| 0 <= i < self@.len() && #[trigger] self@[i] == m@,
                None => !contains_memo(self@, memo_id as int, user_id@),
            },
            r is Some <==> contains_memo(self@, memo_id as int, user_id@),
    {
        match self.find_index(memo_id, user_id) {
            Some(i) => Some(self.memos[i].clone()),
            None => None,
        }
    }

    /// Inserts a new row owned by `user_id`, with a fresh server-assigned id
    /// and the given creation time; the form carries only title and content,
    /// so no client-supplied owner can reach the table.
    pub fn create_memo(&mut self, user_id: &str, form: &MemoForm, created_at: i64)
        -> (r: Result<Memo, StoreError>)
        requires
            old(self).wf(),
        ensures
            final(self).wf(),
            r is Ok <==> old(self).spec_next_id() < i64::MAX as int,
            match r {
                Ok(m) => {
                    &&& m@.user_id == user_id@
                    &&& m@.title == form.title@
                    &&& m@.content == form.content@
                    &&& m@.created_at == created_at as int
                    &&& m@.id == old(self).spec_next_id()
                    &&& forall|i: int| 0 <= i < old(self)@.len()
                        ==> (#[trigger] old(self)@[i]).id != m@.id
                    &&& final(self)@ == old(self)@.push(m@)
                    &&& final(self).spec_next_id() == old(self).spec_next_id() + 1
                },
                Err(e) => e == StoreError::IdsExhausted && final(self)@ == old(self)@
                    && final(self).spec_next_id() == old(self).spec_next_id(),
            },
    {
        if self.next_id == i64::MAX {
            return Err(StoreError::IdsExhausted);
        }
        let m = Memo {
            id: self.next_id,
            user_id: user_id.to_owned(),
            title: form.title.clone(),
            content: form.content.clone(),
            created_at,
        };
        let ret = m.clone();
        self.memos.push(m);
        self.next_id = self.next_id + 1;
        proof {
            assert(self@ =~= old(self)@.push(ret@));
        }
        Ok(ret)
    }

    /// Inserts a new row stamped with the clock's current time.  The clock
    /// decides the timestamp, so every other field is pinned and the
    /// timestamp is whatever the clock returned.
    pub fn create_memo_now(&mut self, user_id: &str, form: &MemoForm)
        -> (r: Result<Memo, StoreError>)
        requires
            old(self).wf(),
        ensures
            final(self).wf(),
            r is Ok <==> old(self).spec_next_id() < i64::MAX as int,
            match r {
                Ok(m) => {
                    &&& m@.user_id == user_id@
                    &&& m@.title == form.title@
                    &&& m@.content == form.content@
                    &&& m@.id == old(self).spec_next_id()
                    &&& forall|i: int| 0 <= i < old(self)@.len()
                        ==> (#[trigger] old(self)@[i]).id != m@.id
                    &&& final(self)@ == old(self)@.push(m@)
                    &&& final(self).spec_next_id() == old(self).spec_next_id() + 1
                },
                Err(e) => e == StoreError::IdsExhausted && final(self)@ == old(self)@
                    && final(self).spec_next_id() == old(self).spec_next_id(),
            },
    {
        let now = crate::clock::now_timestamp_millis();
        self.create_memo(user_id, form, now)
    }

    /// Returns the caller's memos and nobody else's, newest first.
    ///
    /// The result is exactly the rows owned by `user_id` (as a multiset),
    /// ordered by creation time descending; rows with equal timestamps may
    /// come out in either order.
    pub fn list_memos(&self, user_id: &str) -> (r: Vec<Memo>)
        ensures
            views_of(r@).to_multiset()
                == self@.filter(|mv: MemoView| mv.user_id == user_id@).to_multiset(),
            sorted_by_created_desc(views_of(r@)),
            forall|i: int| 0 <= i < r@.len()
                ==> (#[trigger] views_of(r@)[i]).user_id == user_id@,
    {
        let ghost pred = |mv: MemoView| mv.user_id == user_id@;
        let n = self.memos.len();
        let mut picked: Vec<Memo> = Vec::new();
        proof {
            assert(views_of(picked@) =~= Seq::<MemoView>::empty());
            assert(self@.subrange(0, 0) =~= Seq::<MemoView>::empty());
            reveal(Seq::filter);
        }
        let mut i: usize = 0;
        while i < n
            invariant
                n == self@.len(),
                i <= n,
                views_of(picked@) == self@.subrange(0, i as int).filter(pred),
                pred == (|mv: MemoView| mv.user_id == user_id@),
            decreases n - i,
        {
            let ghost sub_i = self@.subrange(0, i as int);
            let ghost sub_i1 = self@.subrange(0, i as int + 1);
            proof {
                assert(sub_i1.drop_last() =~= sub_i);
                assert(sub_i1.last() == self@[i as int]);
                reveal(Seq::filter);
            }
            let m = &self.memos[i];
            if str_eq_str(m.user_id.as_str(), user_id) {
                let ghost before = picked@;
                picked.push(m.clone());
                proof {
                    assert(views_of(picked@) =~= views_of(before).push(self@[i as int]));
                }
            }
            i += 1;
        }
        proof {
            assert(self@.subrange(0, n as int) =~= self@);
        }
        let r = sort_memos_desc(picked);
        proof {
            let rs = views_of(r@);
            let fs = self@.filter(pred);
            assert forall|i: int| 0 <= i < rs.len()
                implies (#[trigger] rs[i]).user_id == user_id@ by {
                assert(rs.contains(rs[i]));
                assert(fs.to_multiset().count(rs[i]) > 0);
                assert(fs.contains(rs[i]));
                let j = choose|j: int| 0 <= j < fs.len() && fs[j] == rs[i];
                assert(pred(fs[j]));
            }
        }
        r
    }

    /// Overwrites title and content of the caller's memo with this id; an id
    /// that is absent, or owned by another user, changes nothing and is
    /// reported as not found.
    pub fn update_memo(&mut self, user_id: &str, memo_id: i64, form: &MemoForm)
        -> (r: Result<Memo, StoreError>)
        requires
            old(self).wf(),
        ensures
            final(self).wf(),
            final(self).spec_next_id() == old(self).spec_next_id(),
            r is Err <==> !contains_memo(old(self)@, memo_id as int, user_id@),
            match r {
                Ok(m) => {
                    &&& m@.id == memo_id as int
                    &&& m@.user_id == user_id@
                    &&& m@.title == form.title@
                    &&& m@.content == form.content@
                    &&& exists|i: int| 0 <= i < old(self)@.len()
                        && (#[trigger] old(self)@[i]).id == memo_id as int
                        && old(self)@[i].user_id == user_id@
                        && m@.created_at == old(self)@[i].created_at
                        && final(self)@ == old(self)@.update(i, m@)
                },
                Err(e) => e == StoreError::NotFound && final(self)@ == old(self)@,
            },
    {
        match self.find_index(memo_id, user_id) {
            None => Err(StoreError::NotFound),
            Some(i) => {
                let created_at = self.memos[i].created_at;
                let updated = Memo {
                    id: memo_id,
                    user_id: user_id.to_owned(),
                    title: form.title.clone(),
                    content: form.content.clone(),
                    created_at,
                };
                let ret = updated.clone();
                let _ = self.memos.remove(i);
                self.memos.insert(i, updated);
                proof {
                    assert(self@ =~= old(self)@.update(i as int, ret@));
                    assert forall|a: int, b: int|
                        0 <= a < b < self@.len()
                        implies (#[trigger] self@[a]).id != (#[trigger] self@[b]).id by {
                        assert(old(self)@[a].id != old(self)@[b].id);
                    }
                }
                Ok(ret)
            },
        }
    }

    /// Removes the caller's memo with this id; an id that is absent, or
    /// owned by another user, changes nothing and is reported as not found.
    pub fn delete_memo(&mut self, user_id: &str, memo_id: i64) -> (r: Result<(), StoreError>)
        requires
            old(self).wf(),
        ensures
            final(self).wf(),
            final(self).spec_next_id() == old(self).spec_next_id(),
            r is Err <==> !contains_memo(old(self)@, memo_id as int, user_id@),
            match r {
                Ok(_) => exists|i: int| 0 <= i < old(self)@.len()
                    && (#[trigger] old(self)@[i]).id == memo_id as int
                    && old(self)@[i].user_id == user_id@
                    && final(self)@ == old(self)@.remove(i),
                Err(e) => e == StoreError::NotFound && final(self)@ == old(self)@,
            },
    {
        match self.find_index(memo_id, user_id) {
            None => Err(StoreError::NotFound),
            Some(i) => {
                let _ = self.memos.remove(i);
                proof {
                    assert(self@ =~= old(self)@.remove(i as int));
                    assert forall|a: int, b: int|
                        0 <= a < b < self@.len()
                        implies (#[trigger] self@[a]).id != (#[trigger] self@[b]).id by {
                        let oa = if a < i as int { a } else { a + 1 };
                        let ob = if b < i as int { b } else { b + 1 };
                        assert(old(self)@[oa].id != old(self)@[ob].id);
                    }
                }
                Ok(())
            },
        }
    }
}

/// The HTTP status the memo handlers report for a failed table operation:
/// an id that is absent or foreign is 404, any other failure 500.
pub fn error_status(e: StoreError) -> (s: u16)
    ensures
        e == StoreError::NotFound ==> s == 404,
        e != StoreError::NotFound ==> s == 500,
{
    match e {
        StoreError::NotFound => 404,
        StoreError::IdsExhausted => 500,
    }
}

/// Orders rows newest first by repeatedly moving a newest remaining row to
/// the output; the rows themselves are kept exactly as given.
fn sort_memos_desc(input: Vec<Memo>) -> (r: Vec<Memo>)
    ensures
        views_of(r@).to_multiset() == views_of(input@).to_multiset(),
        sorted_by_created_desc(views_of(r@)),
{
    let ghost orig = views_of(input@);
    let mut rem = input;
    let mut out: Vec<Memo> = Vec::new();
    proof {
        assert(views_of(out@) =~= Seq::<MemoView>::empty());
        assert(views_of(out@).to_multiset().add(views_of(rem@).to_multiset())
            =~= orig.to_multiset());
    }
    while rem.len() > 0
        invariant
            views_of(out@).to_multiset().add(views_of(rem@).to_multiset())
                == orig.to_multiset(),
            sorted_by_created_desc(views_of(out@)),
            forall|a: int, b: int| 0 <= a < out@.len() && 0 <= b < rem@.len()
                ==> (#[trigger] views_of(out@)[a]).created_at
                    >= (#[trigger] views_of(rem@)[b]).created_at,
        decreases rem.len(),
    {
        let mut best: usize = 0;
        let mut j: usize = 1;
        while j < rem.len()
            invariant
                0 < rem@.len(),
                best < rem@.len(),
                j <= rem@.len(),
                forall|k: int| 0 <= k < j
                    ==> views_of(rem@)[best as int].created_at
                        >= (#[trigger] views_of(rem@)[k]).created_at,
            decreases rem@.len() - j,
        {
            if rem[j].created_at > rem[best].created_at {
                best = j;
            }
            j += 1;
        }
        let ghost rem0 = views_of(rem@);
        let ghost out0 = views_of(out@);
        let m = rem.remove(best);
        proof {
            assert(m@ == rem0[best as int]);
            assert(views_of(rem@) =~= rem0.remove(best as int));
            assert(rem0.to_multiset().count(m@) > 0) by {
                assert(rem0.contains(rem0[best as int]));
            }
        }
        out.push(m);
        proof {
            assert(views_of(out@) =~= out0.push(rem0[best as int]));
            assert(views_of(out@).to_multiset()
                =~= out0.to_multiset().insert(rem0[best as int]));
            assert(views_of(rem@).to_multiset()
                =~= rem0.to_multiset().remove(rem0[best as int]));
            assert(views_of(out@).to_multiset().add(views_of(rem@).to_multiset())
                =~= orig.to_multiset());
            assert forall|a: int, b: int|
                0 <= a < out@.len() && 0 <= b < rem@.len()
                implies (#[trigger] views_of(out@)[a]).created_at
                    >= (#[trigger] views_of(rem@)[b]).created_at by {
                let ob = if b < best as int { b } else { b + 1 };
                assert(views_of(rem@)[b] == rem0[ob]);
                if a < out0.len() {
                    assert(views_of(out@)[a] == out0[a]);
                } else {
                    assert(views_of(out@)[a] == rem0[best as int]);
                }
            }
        }
    }
    out
}

} // verus!
