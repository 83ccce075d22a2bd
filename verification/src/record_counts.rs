//! A queue of values with how often each was seen, kept ordered from the most frequent to the
//! least frequent; the points daemon uses it to pick the course filter with the most new
//! records.

use std::collections::VecDeque;

use vstd::laws_eq::obeys_concrete_eq;
use vstd::prelude::*;

verus! {

/// Values with how often each was pushed, most frequent first.
pub struct Counts<T> {
    entries: VecDeque<(T, u64)>,
}

/// The index of the first entry whose value is `v`.
pub open spec fn key_index<T>(s: Seq<(T, u64)>, v: T) -> Option<int>
    decreases s.len(),
{
    if s.len() == 0 {
        None
    } else if s[0].0 == v {
        Some(0)
    } else {
        match key_index(s.drop_first(), v) {
            Some(i) => Some(i + 1),
            None => None,
        }
    }
}

/// The index of the first entry whose count is `c`.
pub open spec fn count_index<T>(s: Seq<(T, u64)>, c: u64) -> Option<int>
    decreases s.len(),
{
    if s.len() == 0 {
        None
    } else if s[0].1 == c {
        Some(0)
    } else {
        match count_index(s.drop_first(), c) {
            Some(i) => Some(i + 1),
            None => None,
        }
    }
}

/// The entries are well formed: no value occurs twice, every count is positive, and the
/// counts do not increase from front to back.
pub open spec fn counts_wf<T>(s: Seq<(T, u64)>) -> bool {
    &&& forall|i: int, j: int| 0 <= i < j < s.len() ==> s[i].0 != s[j].0
    &&& forall|i: int| 0 <= i < s.len() ==> s[i].1 >= 1
    &&& forall|i: int, j: int| 0 <= i <= j < s.len() ==> s[i].1 >= s[j].1
}

/// How often `v` was counted: its entry's count, or 0 without an entry.
pub open spec fn count_of<T>(s: Seq<(T, u64)>, v: T) -> nat {
    match key_index(s, v) {
        Some(i) => s[i].1 as nat,
        None => 0,
    }
}

/// The entries after pushing `v`: a new entry with count 1 at the back, or `v`'s entry with
/// its count increased and swapped with the first entry that had the entry's old count.
pub open spec fn push_model<T>(s: Seq<(T, u64)>, v: T) -> Seq<(T, u64)> {
    match key_index(s, v) {
        None => s.push((v, 1)),
        Some(i) => {
            let c = s[i].1;
            let j = count_index(s, c)->0;
            s.update(i, s[j]).update(j, (s[i].0, (c + 1) as u64))
        },
    }
}

/// The entries after removing `v`'s entry.
pub open spec fn remove_model<T>(s: Seq<(T, u64)>, v: T) -> Seq<(T, u64)> {
    match key_index(s, v) {
        Some(i) => s.remove(i),
        None => s,
    }
}

pub proof fn lemma_key_index<T>(s: Seq<(T, u64)>, v: T)
    ensures
        key_index(s, v) matches Some(i) ==> 0 <= i < s.len() && s[i].0 == v && forall|k: int|
            0 <= k < i ==> s[k].0 != v,
        key_index(s, v) is None ==> forall|k: int| 0 <= k < s.len() ==> s[k].0 != v,
    decreases s.len(),
{
    if s.len() > 0 {
        lemma_key_index(s.drop_first(), v);
        if s[0].0 != v {
            assert forall|k: int| 1 <= k < s.len() implies s[k] == s.drop_first()[k - 1] by {}
        }
    }
}

pub proof fn lemma_count_index<T>(s: Seq<(T, u64)>, c: u64)
    ensures
        count_index(s, c) matches Some(i) ==> 0 <= i < s.len() && s[i].1 == c && forall|k: int|
            0 <= k < i ==> s[k].1 != c,
        count_index(s, c) is None ==> forall|k: int| 0 <= k < s.len() ==> s[k].1 != c,
    decreases s.len(),
{
    if s.len() > 0 {
        lemma_count_index(s.drop_first(), c);
        if s[0].1 != c {
            assert forall|k: int| 1 <= k < s.len() implies s[k] == s.drop_first()[k - 1] by {}
        }
    }
}

/// In a sequence whose values are distinct, the entry of `v` is the one holding `v`.
pub proof fn lemma_key_index_unique<T>(s: Seq<(T, u64)>, v: T, i: int)
    requires
        counts_wf(s),
        0 <= i < s.len(),
        s[i].0 == v,
    ensures
        key_index(s, v) == Some(i),
{
    lemma_key_index(s, v);
    if key_index(s, v) is Some {
        let k = key_index(s, v)->0;
        if k != i {
            assert(s[k].0 == s[i].0);
        }
    }
}

/// Pushing keeps the entries well formed, and when `v` has an entry it sits at the first
/// index with `v`'s old count.
pub proof fn lemma_push_wf<T>(s: Seq<(T, u64)>, v: T)
    requires
        counts_wf(s),
        count_of(s, v) < u64::MAX,
    ensures
        counts_wf(push_model(s, v)),
        push_model(s, v).len() == s.len() + (if key_index(s, v) is Some { 0int } else { 1int }),
{
    lemma_key_index(s, v);
    match key_index(s, v) {
        None => {
            let t = s.push((v, 1));
            assert forall|a: int, b: int| 0 <= a < b < t.len() implies t[a].0 != t[b].0 by {
                if b == s.len() {
                    assert(s[a].0 != v);
                }
            }
            assert forall|a: int, b: int| 0 <= a <= b < t.len() implies t[a].1 >= t[b].1 by {
                if b == s.len() && a < b {
                    assert(s[a].1 >= 1);
                }
            }
        },
        Some(i) => {
            let c = s[i].1;
            lemma_count_index(s, c);
            let j = count_index(s, c)->0;
            assert(j <= i);
            let t = s.update(i, s[j]).update(j, (s[i].0, (c + 1) as u64));
            assert(t == push_model(s, v));
            assert forall|k: int| 0 <= k < j implies s[k].1 > c by {
                assert(s[k].1 >= s[i].1);
            }
            assert forall|k: int| j <= k <= i implies #[trigger] s[k].1 == c by {
                assert(s[j].1 >= s[k].1);
                assert(s[k].1 >= s[i].1);
            }
            assert forall|a: int, b: int| 0 <= a < b < t.len() implies t[a].0 != t[b].0 by {
                let sa = if a == j { i } else if a == i { j } else { a };
                let sb = if b == j { i } else if b == i { j } else { b };
                assert(t[a].0 == s[sa].0);
                assert(t[b].0 == s[sb].0);
                assert(sa != sb);
                if sa < sb {
                    assert(s[sa].0 != s[sb].0);
                } else {
                    assert(s[sb].0 != s[sa].0);
                }
            }
            assert forall|a: int, b: int| 0 <= a <= b < t.len() implies t[a].1 >= t[b].1 by {
                if a < j {
                    if b == j {
                        assert(s[a].1 > c);
                    } else if b == i {
                        assert(s[a].1 > c);
                    } else {
                        assert(s[a].1 >= s[b].1);
                    }
                } else if a == j {
                    if b == j {
                    } else if b <= i {
                        assert(t[b].1 == c);
                    } else {
                        assert(s[i].1 >= s[b].1);
                    }
                } else if a <= i {
                    assert(t[a].1 == c);
                    if b <= i {
                        assert(t[b].1 == c);
                    } else {
                        assert(s[i].1 >= s[b].1);
                    }
                } else {
                    assert(s[a].1 >= s[b].1);
                }
            }
        },
    }
}

/// Pushing `v` counts `v` once more and leaves every other count unchanged; the entries stay
/// well formed (values distinct, counts positive and ordered from most to least frequent).
pub proof fn law_push_counts<T>(s: Seq<(T, u64)>, v: T, w: T)
    requires
        counts_wf(s),
        count_of(s, v) < u64::MAX,
    ensures
        counts_wf(push_model(s, v)),
        count_of(push_model(s, v), v) == count_of(s, v) + 1,
        w != v ==> count_of(push_model(s, v), w) == count_of(s, w),
{
    lemma_push_wf(s, v);
    let t = push_model(s, v);
    lemma_key_index(s, v);
    lemma_key_index(s, w);
    lemma_key_index(t, v);
    lemma_key_index(t, w);
    match key_index(s, v) {
        None => {
            lemma_key_index_unique(t, v, s.len() as int);
            if w != v {
                match key_index(s, w) {
                    Some(k) => {
                        lemma_key_index_unique(t, w, k);
                    },
                    None => {},
                }
            }
        },
        Some(i) => {
            let c = s[i].1;
            lemma_count_index(s, c);
            let j = count_index(s, c)->0;
            lemma_key_index_unique(t, v, j);
            if w != v {
                match key_index(s, w) {
                    Some(k) => {
                        assert(k != i);
                        if k == j {
                            lemma_key_index_unique(t, w, i);
                        } else {
                            lemma_key_index_unique(t, w, k);
                        }
                    },
                    None => {
                        if key_index(t, w) is Some {
                            let k = key_index(t, w)->0;
                            if k == j {
                                assert(t[k].0 == v);
                            } else if k == i {
                                assert(s[j].0 == w);
                            } else {
                                assert(s[k].0 == w);
                            }
                        }
                    },
                }
            }
        },
    }
}

/// Pushing a value that is not counted yet appends it with count 1; pushing a counted value
/// leaves the same entries with that value's count raised by one, only reordered; either way
/// the values stay distinct and the counts non-increasing from front to back.
pub proof fn law_push_permutation<T>(s: Seq<(T, u64)>, v: T)
    requires
        counts_wf(s),
        count_of(s, v) < u64::MAX,
    ensures
        key_index(s, v) is None ==> push_model(s, v) == s.push((v, 1u64)),
        key_index(s, v) matches Some(i) ==> push_model(s, v).to_multiset() == s.update(
            i,
            (v, (s[i].1 + 1) as u64),
        ).to_multiset(),
        counts_wf(push_model(s, v)),
{
    broadcast use vstd::seq_lib::to_multiset_update, vstd::multiset::group_multiset_axioms;

    law_push_counts(s, v, v);
    lemma_key_index(s, v);
    if key_index(s, v) is Some {
        let i = key_index(s, v)->0;
        let c = s[i].1;
        lemma_count_index(s, c);
        let j = count_index(s, c)->0;
        let x = (s[i].0, (c + 1) as u64);
        let m = s.update(i, s[j]);
        let t = m.update(j, x);
        let u = s.update(i, x);
        assert(m[j] == s[j]);
        assert(m.to_multiset() == s.to_multiset().insert(s[j]).remove(s[i]));
        assert(t.to_multiset() == m.to_multiset().insert(x).remove(s[j]));
        assert(u.to_multiset() == s.to_multiset().insert(x).remove(s[i]));
        assert(s.to_multiset().count(s[i]) > 0) by {
            vstd::seq_lib::to_multiset_contains(s, s[i]);
            assert(s.contains(s[i]));
        }
        assert(s.to_multiset().count(s[j]) > 0) by {
            vstd::seq_lib::to_multiset_contains(s, s[j]);
            assert(s.contains(s[j]));
        }
        assert(t.to_multiset() =~= u.to_multiset());
    }
}

/// Removing `v` takes away its entry and leaves the other counts as they were; the entries
/// stay well formed.
pub proof fn law_remove_counts<T>(s: Seq<(T, u64)>, v: T, w: T)
    requires
        counts_wf(s),
    ensures
        counts_wf(remove_model(s, v)),
        count_of(remove_model(s, v), v) == 0,
        w != v ==> count_of(remove_model(s, v), w) == count_of(s, w),
{
    lemma_key_index(s, v);
    lemma_key_index(s, w);
    let t = remove_model(s, v);
    lemma_key_index(t, v);
    lemma_key_index(t, w);
    match key_index(s, v) {
        None => {},
        Some(i) => {
            assert forall|a: int, b: int| 0 <= a < b < t.len() implies t[a].0 != t[b].0 by {
                let sa = if a < i { a } else { a + 1 };
                let sb = if b < i { b } else { b + 1 };
                assert(s[sa].0 != s[sb].0);
            }
            assert forall|a: int, b: int| 0 <= a <= b < t.len() implies t[a].1 >= t[b].1 by {
                let sa = if a < i { a } else { a + 1 };
                let sb = if b < i { b } else { b + 1 };
                assert(s[sa].1 >= s[sb].1);
            }
            if key_index(t, v) is Some {
                let k = key_index(t, v)->0;
                let sk = if k < i { k } else { k + 1 };
                assert(s[sk].0 == s[i].0);
            }
            if w != v {
                match key_index(s, w) {
                    Some(k) => {
                        let tk = if k < i { k } else { k - 1 };
                        assert(t[tk] == s[k]);
                        lemma_key_index_unique(t, w, tk);
                    },
                    None => {
                        if key_index(t, w) is Some {
                            let k = key_index(t, w)->0;
                            let sk = if k < i { k } else { k + 1 };
                            assert(s[sk].0 == w);
                        }
                    },
                }
            }
        },
    }
}

impl<T> View for Counts<T> {
    type V = Seq<(T, u64)>;

    closed spec fn view(&self) -> Seq<(T, u64)> {
        self.entries@
    }
}

impl<T> Counts<T> {
    #[verifier::type_invariant]
    spec fn inv(self) -> bool {
        counts_wf(self.entries@)
    }

    /// No values counted yet.
    pub fn new() -> (r: Counts<T>)
        ensures
            r@ == Seq::<(T, u64)>::empty(),
    {
        Counts { entries: VecDeque::new() }
    }

    /// The entries, most frequent first.
    pub fn entries(&self) -> (r: &VecDeque<(T, u64)>)
        ensures
            r@ == self@,
            counts_wf(self@),
    {
        proof {
            use_type_invariant(self);
        }
        &self.entries
    }

    /// Counts `value` once more: a new value gets an entry with count 1 at the back; a known
    /// value's count goes up by one and its entry moves in front of the entries that had its
    /// old count.
    pub fn push(&mut self, value: T) where T: Eq
        requires
            obeys_concrete_eq::<T>(),
            count_of(old(self)@, value) < u64::MAX,
        ensures
            final(self)@ == push_model(old(self)@, value),
            counts_wf(final(self)@),
    {
        proof {
            use_type_invariant(&*self);
            reveal(obeys_concrete_eq);
        }
        let mut entries: VecDeque<(T, u64)> = VecDeque::new();
        std::mem::swap(&mut entries, &mut self.entries);
        let ghost s = entries@;
        proof {
            lemma_key_index(s, value);
            lemma_push_wf(s, value);
        }
        let n = entries.len();
        let mut idx: usize = 0;
        while idx < n && !(entries[idx].0 == value)
            invariant
                n == s.len(),
                entries@ == s,
                idx <= n,
                obeys_concrete_eq::<T>(),
                forall|k: int| 0 <= k < idx ==> s[k].0 != value,
            decreases n - idx,
        {
            proof {
                reveal(obeys_concrete_eq);
            }
            idx = idx + 1;
        }
        if idx == n {
            entries.push_back((value, 1));
            std::mem::swap(&mut entries, &mut self.entries);
            return;
        }
        proof {
            reveal(obeys_concrete_eq);
            lemma_key_index(s, value);
            assert(key_index(s, value) == Some(idx as int));
        }
        let (key, count) = entries.remove(idx).unwrap();
        entries.insert(idx, (key, count + 1));
        let ghost c = count;
        let ghost upd = entries@;
        assert(upd == s.update(idx as int, (key, (c + 1) as u64)));
        let mut j: usize = 0;
        while j < idx && entries[j].1 != count
            invariant
                j <= idx < n,
                n == s.len(),
                entries@ == upd,
                upd == s.update(idx as int, (key, (c + 1) as u64)),
                count == c,
                forall|k: int| 0 <= k < j ==> s[k].1 != c,
            decreases idx - j,
        {
            j = j + 1;
        }
        proof {
            lemma_count_index(s, c);
            if j < idx {
                assert(count_index(s, c) == Some(j as int));
            } else {
                assert(count_index(s, c) == Some(idx as int));
            }
        }
        if j < idx {
            let moved = entries.remove(idx).unwrap();
            let other = entries.remove(j).unwrap();
            entries.insert(j, moved);
            entries.insert(idx, other);
            assert(entries@ =~= s.update(idx as int, s[j as int]).update(j as int, (key, (c + 1) as u64)));
        } else {
            assert(entries@ =~= s.update(idx as int, s[idx as int]).update(idx as int, (key, (c + 1) as u64)));
        }
        std::mem::swap(&mut entries, &mut self.entries);
    }

    /// How often `value` was counted.
    pub fn count(&self, value: &T) -> (r: u64) where T: Eq
        requires
            obeys_concrete_eq::<T>(),
        ensures
            r == count_of(self@, *value),
    {
        proof {
            use_type_invariant(self);
            reveal(obeys_concrete_eq);
            lemma_key_index(self@, *value);
        }
        let n = self.entries.len();
        let mut idx: usize = 0;
        while idx < n
            invariant
                n == self@.len(),
                self@ == self.entries@,
                counts_wf(self@),
                idx <= n,
                obeys_concrete_eq::<T>(),
                forall|k: int| 0 <= k < idx ==> self@[k].0 != *value,
            decreases n - idx,
        {
            proof {
                reveal(obeys_concrete_eq);
            }
            if self.entries[idx].0 == *value {
                proof {
                    lemma_key_index_unique(self@, *value, idx as int);
                }
                return self.entries[idx].1;
            }
            idx = idx + 1;
        }
        proof {
            lemma_key_index(self@, *value);
        }
        0
    }

    /// Takes the most frequent value with its count.
    pub fn pop(&mut self) -> (r: Option<(T, u64)>)
        ensures
            match r {
                Some(e) => old(self)@.len() > 0 && e == old(self)@[0] && final(self)@
                    == old(self)@.drop_first(),
                None => old(self)@.len() == 0 && final(self)@ == old(self)@,
            },
            counts_wf(final(self)@),
            r matches Some(e) ==> forall|k: int| 0 <= k < old(self)@.len() ==> e.1 >= old(self)@[k].1,
    {
        proof {
            use_type_invariant(&*self);
        }
        let mut entries: VecDeque<(T, u64)> = VecDeque::new();
        std::mem::swap(&mut entries, &mut self.entries);
        let ghost s = entries@;
        let r = entries.pop_front();
        proof {
            if r is Some {
                assert(entries@ =~= s.drop_first());
                assert forall|a: int, b: int| 0 <= a < b < entries@.len() implies entries@[a].0
                    != entries@[b].0 by {
                    assert(s[a + 1].0 != s[b + 1].0);
                }
                assert forall|a: int, b: int| 0 <= a <= b < entries@.len() implies entries@[a].1
                    >= entries@[b].1 by {
                    assert(s[a + 1].1 >= s[b + 1].1);
                }
            }
        }
        std::mem::swap(&mut entries, &mut self.entries);
        r
    }

    /// Removes `value`'s entry and gives its count.
    pub fn remove(&mut self, value: T) -> (r: Option<u64>) where T: Eq
        requires
            obeys_concrete_eq::<T>(),
        ensures
            final(self)@ == remove_model(old(self)@, value),
            r == (match key_index(old(self)@, value) {
                Some(i) => Some(old(self)@[i].1),
                None => None::<u64>,
            }),
            counts_wf(final(self)@),
    {
        proof {
            use_type_invariant(&*self);
            reveal(obeys_concrete_eq);
        }
        let mut entries: VecDeque<(T, u64)> = VecDeque::new();
        std::mem::swap(&mut entries, &mut self.entries);
        let ghost s = entries@;
        proof {
            lemma_key_index(s, value);
            law_remove_counts(s, value, value);
        }
        let n = entries.len();
        let mut idx: usize = 0;
        while idx < n && !(entries[idx].0 == value)
            invariant
                n == s.len(),
                entries@ == s,
                idx <= n,
                obeys_concrete_eq::<T>(),
                forall|k: int| 0 <= k < idx ==> s[k].0 != value,
            decreases n - idx,
        {
            proof {
                reveal(obeys_concrete_eq);
            }
            idx = idx + 1;
        }
        if idx == n {
            std::mem::swap(&mut entries, &mut self.entries);
            return None;
        }
        proof {
            reveal(obeys_concrete_eq);
            assert(key_index(s, value) == Some(idx as int));
        }
        let r = match entries.remove(idx) {
            Some((_, count)) => Some(count),
            None => None,
        };
        std::mem::swap(&mut entries, &mut self.entries);
        r
    }
}

/// The loop that feeds course filters to the points calculator, as a state machine: filter IDs
/// arrive and are counted, and whenever the calculator has room for one more filter (a permit
/// is held), the most frequent filter is taken out and handed over.
pub struct RecordCountsTracker {
    counts: Counts<u64>,
    has_permit: bool,
}

/// Whether a filter's record count changed since it was saved: it has no current count, or a
/// different one.
pub open spec fn count_changed_model(current: Option<u64>, saved: u64) -> bool {
    match current {
        None => true,
        Some(c) => c != saved,
    }
}

/// Whether a filter whose saved record count is `saved` must be recalculated, given its current
/// count.
pub fn record_count_changed(current: Option<u64>, saved: u64) -> (r: bool)
    ensures
        r == count_changed_model(current, saved),
{
    match current {
        None => true,
        Some(c) => c != saved,
    }
}

impl RecordCountsTracker {
    /// The counted filters, most frequent first.
    pub closed spec fn counts_view(&self) -> Seq<(u64, u64)> {
        self.counts@
    }

    /// Whether the calculator has room for a filter.
    pub closed spec fn permit_view(&self) -> bool {
        self.has_permit
    }

    /// No filters counted and no room at the calculator.
    pub fn new() -> (r: RecordCountsTracker)
        ensures
            r.counts_view() == Seq::<(u64, u64)>::empty(),
            !r.permit_view(),
    {
        RecordCountsTracker { counts: Counts::new(), has_permit: false }
    }

    /// Whether the loop waits for room at the calculator: only while it holds no permit.
    pub fn wants_permit(&self) -> (r: bool)
        ensures
            r == !self.permit_view(),
    {
        !self.has_permit
    }

    /// The calculator has room for one filter.
    pub fn permit_ready(&mut self)
        ensures
            final(self).permit_view(),
            final(self).counts_view() == old(self).counts_view(),
    {
        self.has_permit = true;
    }

    /// How often the filter `filter_id` was counted.
    pub fn count(&self, filter_id: u64) -> (r: u64)
        ensures
            r == count_of(self.counts_view(), filter_id),
    {
        proof {
            broadcast use vstd::laws_eq::group_laws_eq;
        }
        self.counts.count(&filter_id)
    }

    /// A filter has a new record: it is counted, and if the calculator has room, the most
    /// frequent filter is taken out and returned with its count, and the permit is used up.
    pub fn filter_seen(&mut self, filter_id: u64) -> (r: Option<(u64, u64)>)
        requires
            count_of(old(self).counts_view(), filter_id) < u64::MAX,
        ensures
            old(self).permit_view() ==> r == Some(push_model(old(self).counts_view(), filter_id)[0])
                && final(self).counts_view() == push_model(old(self).counts_view(), filter_id).drop_first()
                && !final(self).permit_view(),
            !old(self).permit_view() ==> r is None && final(self).counts_view() == push_model(
                old(self).counts_view(),
                filter_id,
            ) && !final(self).permit_view(),
            counts_wf(final(self).counts_view()),
    {
        proof {
            broadcast use vstd::laws_eq::group_laws_eq;
            use_type_invariant(&self.counts);
            law_tracker_hand_over(self.counts@, filter_id);
        }
        self.counts.push(filter_id);
        if self.has_permit {
            let taken = self.counts.pop();
            self.has_permit = false;
            taken
        } else {
            None
        }
    }

    /// The filters of a changed map leave the count.
    pub fn map_changed(&mut self, vanilla_filter_id: u64, classic_filter_id: u64)
        ensures
            final(self).counts_view() == remove_model(
                remove_model(old(self).counts_view(), vanilla_filter_id),
                classic_filter_id,
            ),
            final(self).permit_view() == old(self).permit_view(),
    {
        proof {
            broadcast use vstd::laws_eq::group_laws_eq;
        }
        self.counts.remove(vanilla_filter_id);
        self.counts.remove(classic_filter_id);
    }
}

/// When the calculator has room, a filter that arrives is handed over at once if it is (or has
/// become) the most frequent one; nothing is lost: the handed-over entry and the remaining
/// entries together are the counts after counting the filter.
pub proof fn law_tracker_hand_over(s: Seq<(u64, u64)>, filter_id: u64)
    requires
        counts_wf(s),
        count_of(s, filter_id) < u64::MAX,
    ensures
        push_model(s, filter_id).len() > 0,
        seq![push_model(s, filter_id)[0]] + push_model(s, filter_id).drop_first() == push_model(
            s,
            filter_id,
        ),
        forall|k: int|
            0 <= k < push_model(s, filter_id).len() ==> push_model(s, filter_id)[0].1 >= #[trigger] push_model(
                s,
                filter_id,
            )[k].1,
        count_of(push_model(s, filter_id), filter_id) == count_of(s, filter_id) + 1,
{
    law_push_counts(s, filter_id, filter_id);
    let t = push_model(s, filter_id);
    lemma_key_index(t, filter_id);
    assert(t.len() > 0);
    assert(seq![t[0]] + t.drop_first() =~= t);
}

/// A filter counts as changed exactly when its current record count differs from the saved
/// one, up or down, or when it has no current count at all.
pub proof fn law_count_changed(current: Option<u64>, saved: u64)
    ensures
        !count_changed_model(current, saved) <==> current == Some(saved),
        current matches Some(c) ==> (count_changed_model(current, saved) <==> (c < saved || c > saved)),
{
}

} // verus!
