//! The table of desire records, modelled as a sequence kept ordered by
//! creation time with unique identifiers, together with the four operations
//! the service performs on it: list, create, update, delete.

use vstd::prelude::*;
use crate::models::Desire;

verus! {

/// Some record in `s` carries the identifier `id`.
pub open spec fn contains_id(s: Seq<Desire>, id: u128) -> bool {
    exists|i: int| 0 <= i < s.len() && s[i].id == id
}

/// No two records in `s` share an identifier.
pub open spec fn ids_unique(s: Seq<Desire>) -> bool {
    forall|i: int, j: int| 0 <= i < j < s.len() ==> s[i].id != s[j].id
}

/// `s` is ordered by creation time, ascending.
pub open spec fn sorted_by_created(s: Seq<Desire>) -> bool {
    forall|i: int, j: int| 0 <= i < j < s.len() ==> s[i].created_at <= s[j].created_at
}

/// Every record in `s` carries a non-empty name.
pub open spec fn names_nonempty(s: Seq<Desire>) -> bool {
    forall|i: int| 0 <= i < s.len() ==> #[trigger] s[i].name@.len() != 0
}

/// The index of the record carrying `id`; meaningful when `contains_id`
/// holds, and unique when `ids_unique` holds.
pub open spec fn index_of_id(s: Seq<Desire>, id: u128) -> int {
    choose|i: int| 0 <= i < s.len() && s[i].id == id
}

/// Where a record created at time `t` lands in the ordered listing: after
/// every record created at or before `t`, before all the rest.
pub open spec fn insert_position(s: Seq<Desire>, t: i64) -> int
    decreases s.len(),
{
    if s.len() == 0 {
        0
    } else if s[0].created_at <= t {
        1 + insert_position(s.drop_first(), t)
    } else {
        0
    }
}

/// The listing with a new record inserted at its creation-time position.
pub open spec fn insert_sorted(s: Seq<Desire>, d: Desire) -> Seq<Desire> {
    s.insert(insert_position(s, d.created_at), d)
}

pub proof fn lemma_insert_position_in_range(s: Seq<Desire>, t: i64)
    ensures
        0 <= insert_position(s, t) <= s.len(),
    decreases s.len(),
{
    if s.len() > 0 && s[0].created_at <= t {
        lemma_insert_position_in_range(s.drop_first(), t);
    }
}

/// In an ordered listing, the insert position splits the records into those
/// created at or before `t` and those created strictly after.
pub proof fn lemma_insert_position_splits(s: Seq<Desire>, t: i64)
    requires
        sorted_by_created(s),
    ensures
        0 <= insert_position(s, t) <= s.len(),
        forall|i: int| 0 <= i < insert_position(s, t) ==> s[i].created_at <= t,
        forall|i: int| insert_position(s, t) <= i < s.len() ==> s[i].created_at > t,
    decreases s.len(),
{
    lemma_insert_position_in_range(s, t);
    if s.len() > 0 {
        let rest = s.drop_first();
        assert(forall|i: int| 0 <= i < rest.len() ==> rest[i] == s[i + 1]);
        if s[0].created_at <= t {
            assert(sorted_by_created(rest));
            lemma_insert_position_splits(rest, t);
            let p = insert_position(s, t);
            assert(p == 1 + insert_position(rest, t));
            assert forall|i: int| 0 <= i < p implies s[i].created_at <= t by {
                if i > 0 {
                    assert(rest[i - 1].created_at <= t);
                }
            }
            assert forall|i: int| p <= i < s.len() implies s[i].created_at > t by {
                assert(rest[i - 1].created_at > t);
            }
        } else {
            assert forall|i: int| 0 <= i < s.len() implies s[i].created_at > t by {
                if i > 0 {
                    assert(s[0].created_at <= s[i].created_at);
                }
            }
        }
    }
}

/// The insert position is the one index with that split, so a scan that
/// finds the split has found the insert position.
pub proof fn lemma_insert_position_unique(s: Seq<Desire>, t: i64, p: int)
    requires
        sorted_by_created(s),
        0 <= p <= s.len(),
        forall|j: int| 0 <= j < p ==> s[j].created_at <= t,
        p < s.len() ==> s[p].created_at > t,
    ensures
        insert_position(s, t) == p,
    decreases s.len(),
{
    if s.len() > 0 {
        let rest = s.drop_first();
        assert(forall|i: int| 0 <= i < rest.len() ==> rest[i] == s[i + 1]);
        if s[0].created_at <= t {
            assert(p >= 1);
            assert(sorted_by_created(rest));
            lemma_insert_position_unique(rest, t, p - 1);
        } else {
            assert(p == 0);
        }
    }
}

/// What sorted insertion does to the listing: the new record stands at its
/// position, every other record is kept, order by creation time is kept,
/// identifiers stay unique when the new one is fresh, and names stay
/// non-empty when the new one's is.
#[verifier::rlimit(50)]
pub proof fn lemma_insert_sorted_props(s: Seq<Desire>, d: Desire)
    requires
        sorted_by_created(s),
    ensures
        insert_sorted(s, d).len() == s.len() + 1,
        insert_sorted(s, d)[insert_position(s, d.created_at)] == d,
        sorted_by_created(insert_sorted(s, d)),
        forall|i: int| 0 <= i < insert_position(s, d.created_at) ==> insert_sorted(s, d)[i] == s[i],
        forall|i: int|
            insert_position(s, d.created_at) <= i < s.len() ==> insert_sorted(s, d)[i + 1] == s[i],
        forall|id: u128| contains_id(insert_sorted(s, d), id) <==> contains_id(s, id) || id == d.id,
        ids_unique(s) && !contains_id(s, d.id) ==> ids_unique(insert_sorted(s, d)),
        names_nonempty(s) && d.name@.len() != 0 ==> names_nonempty(insert_sorted(s, d)),
{
    let t = d.created_at;
    let k = insert_position(s, t);
    let r = insert_sorted(s, d);
    lemma_insert_position_splits(s, t);
    s.insert_ensures(k, d);
    assert forall|i: int, j: int| 0 <= i < j < r.len() implies r[i].created_at <= r[j].created_at by {
        if i < k && j < k {
            assert(r[i] == s[i] && r[j] == s[j]);
        } else if i < k && j == k {
            assert(r[i] == s[i] && r[j] == d);
            assert(s[i].created_at <= t);
        } else if i == k && j > k {
            assert(r[i] == d && r[j] == s[j - 1]);
            assert(s[j - 1].created_at > t);
        } else if i < k && j > k {
            assert(r[i] == s[i] && r[j] == s[j - 1]);
            assert(s[i].created_at <= t && s[j - 1].created_at > t);
        } else {
            assert(r[i] == s[i - 1] && r[j] == s[j - 1]);
        }
    }
    assert forall|id: u128|
        contains_id(r, id) <==> contains_id(s, id) || id == d.id by {
        if contains_id(r, id) {
            let i = choose|i: int| 0 <= i < r.len() && r[i].id == id;
            if i < k {
                assert(s[i].id == id);
            } else if i == k {
            } else {
                assert(r[i] == s[i - 1]);
                assert(s[i - 1].id == id);
            }
        }
        if contains_id(s, id) {
            let i = choose|i: int| 0 <= i < s.len() && s[i].id == id;
            if i < k {
                assert(r[i].id == id);
            } else {
                assert(r[i + 1] == s[i]);
                assert(r[i + 1].id == id);
            }
        }
        if id == d.id {
            assert(r[k].id == id);
        }
    }
    if ids_unique(s) && !contains_id(s, d.id) {
        assert forall|i: int, j: int| 0 <= i < j < r.len() implies r[i].id != r[j].id by {
            if i < k && j < k {
            } else if i < k && j == k {
                assert(s[i].id != d.id);
            } else if i == k && j > k {
                assert(r[j] == s[j - 1]);
                assert(s[j - 1].id != d.id);
            } else if i < k && j > k {
                assert(r[j] == s[j - 1]);
            } else if i > k {
                assert(r[i] == s[i - 1]);
                assert(r[j] == s[j - 1]);
            }
        }
    }
    if names_nonempty(s) && d.name@.len() != 0 {
        assert forall|i: int| 0 <= i < r.len() implies r[i].name@.len() != 0 by {
            if i < k {
                assert(r[i] == s[i]);
            } else if i == k {
                assert(r[i] == d);
            } else {
                assert(r[i] == s[i - 1]);
            }
        }
    }
}

/// With unique identifiers, the index of an identifier is the index where
/// it was seen.
pub proof fn lemma_index_of_id(s: Seq<Desire>, i: int, id: u128)
    requires
        ids_unique(s),
        0 <= i < s.len(),
        s[i].id == id,
    ensures
        contains_id(s, id),
        index_of_id(s, id) == i,
{
    assert(contains_id(s, id));
    let k = index_of_id(s, id);
    assert(0 <= k < s.len() && s[k].id == id);
    if k < i {
        assert(s[k].id != s[i].id);
    } else if k > i {
        assert(s[i].id != s[k].id);
    }
}

/// What removing a record does to the listing: the identifier is gone for
/// good, every other record is kept, and order, uniqueness and non-empty
/// names are kept.
pub proof fn lemma_remove_props(s: Seq<Desire>, i: int)
    requires
        ids_unique(s),
        sorted_by_created(s),
        0 <= i < s.len(),
    ensures
        s.remove(i).len() == s.len() - 1,
        !contains_id(s.remove(i), s[i].id),
        ids_unique(s.remove(i)),
        sorted_by_created(s.remove(i)),
        names_nonempty(s) ==> names_nonempty(s.remove(i)),
        forall|id: u128|
            id != s[i].id ==> (contains_id(s.remove(i), id) <==> contains_id(s, id)),
{
    let r = s.remove(i);
    s.remove_ensures(i);
    assert forall|j: int| 0 <= j < r.len() implies r[j].id != s[i].id by {
        if j < i {
            assert(r[j] == s[j]);
        } else {
            assert(r[j] == s[j + 1]);
        }
    }
    if names_nonempty(s) {
        assert forall|j: int| 0 <= j < r.len() implies r[j].name@.len() != 0 by {
            if j < i {
                assert(r[j] == s[j]);
            } else {
                assert(r[j] == s[j + 1]);
            }
        }
    }
    assert forall|j: int, l: int| 0 <= j < l < r.len() implies r[j].id != r[l].id
        && r[j].created_at <= r[l].created_at by {
        if l < i {
            assert(r[j] == s[j] && r[l] == s[l]);
        } else if j < i {
            assert(r[j] == s[j] && r[l] == s[l + 1]);
        } else {
            assert(r[j] == s[j + 1] && r[l] == s[l + 1]);
        }
    }
    assert forall|id: u128| id != s[i].id && contains_id(s, id) implies contains_id(r, id) by {
        let j = choose|j: int| 0 <= j < s.len() && s[j].id == id;
        if j < i {
            assert(r[j].id == id);
        } else {
            assert(r[j - 1] == s[j]);
            assert(r[j - 1].id == id);
        }
    }
    assert forall|id: u128| id != s[i].id && contains_id(r, id) implies contains_id(s, id) by {
        let j = choose|j: int| 0 <= j < r.len() && r[j].id == id;
        if j < i {
            assert(s[j].id == id);
        } else {
            assert(r[j] == s[j + 1]);
            assert(s[j + 1].id == id);
        }
    }
}

/// The table of desire records.
pub struct DesireStore {
    rows: Vec<Desire>,
}

impl View for DesireStore {
    type V = Seq<Desire>;

    closed spec fn view(&self) -> Seq<Desire> {
        self.rows@
    }
}

impl DesireStore {
    /// Well-formed: identifiers unique, records ordered by creation time,
    /// and no record with an empty name.
    pub open spec fn wf(&self) -> bool {
        ids_unique(self@) && sorted_by_created(self@) && names_nonempty(self@)
    }

    /// An empty table.
    pub fn new() -> (r: DesireStore)
        ensures
            r@ == Seq::<Desire>::empty(),
            r.wf(),
    {
        DesireStore { rows: Vec::new() }
    }

    /// How many records the table holds.
    pub fn len(&self) -> (n: usize)
        ensures
            n == self@.len(),
    {
        self.rows.len()
    }

    /// The record at index `i`.
    pub fn get(&self, i: usize) -> (r: &Desire)
        requires
            i < self@.len(),
        ensures
            *r == self@[i as int],
    {
        &self.rows[i]
    }

    /// The index of the record carrying `id`, if the table holds one.
    pub(crate) fn find_index(&self, id: u128) -> (r: Option<usize>)
        ensures
            match r {
                Some(i) => i < self@.len() && self@[i as int].id == id,
                None => !contains_id(self@, id),
            },
    {
        let n = self.rows.len();
        let mut i: usize = 0;
        while i < n
            invariant
                n == self@.len(),
                i <= n,
                forall|j: int| 0 <= j < i ==> self@[j].id != id,
            decreases n - i,
        {
            if self.rows[i].id == id {
                return Some(i);
            }
            i += 1;
        }
        None
    }

    /// All records, in creation-time order.
    pub fn list_all(&self) -> (r: Vec<Desire>)
        ensures
            r@ == self@,
    {
        let n = self.rows.len();
        let mut out: Vec<Desire> = Vec::new();
        let mut i: usize = 0;
        while i < n
            invariant
                n == self@.len(),
                i <= n,
                out@.len() == i,
                forall|j: int| 0 <= j < i ==> out@[j] == self@[j],
            decreases n - i,
        {
            out.push(self.rows[i].clone());
            i += 1;
        }
        proof {
            assert(out@ =~= self@);
        }
        out
    }

    /// Inserts `d` at its creation-time position.
    pub(crate) fn insert_row(&mut self, d: Desire)
        requires
            old(self).wf(),
            !contains_id(old(self)@, d.id),
            d.name@.len() != 0,
        ensures
            final(self)@ == insert_sorted(old(self)@, d),
            final(self).wf(),
            contains_id(final(self)@, d.id),
    {
        let n = self.rows.len();
        let mut i: usize = 0;
        while i < n && self.rows[i].created_at <= d.created_at
            invariant
                n == self@.len(),
                i <= n,
                forall|j: int| 0 <= j < i ==> self@[j].created_at <= d.created_at,
            decreases n - i,
        {
            i += 1;
        }
        proof {
            lemma_insert_position_unique(self@, d.created_at, i as int);
            lemma_insert_sorted_props(self@, d);
        }
        self.rows.insert(i, d);
    }

    /// Replaces the record at `i` with one carrying the same identifier and
    /// creation time; order and uniqueness are untouched.
    pub(crate) fn replace_row(&mut self, i: usize, d: Desire)
        requires
            old(self).wf(),
            i < old(self)@.len(),
            d.id == old(self)@[i as int].id,
            d.created_at == old(self)@[i as int].created_at,
            d.name@.len() != 0,
        ensures
            final(self)@ == old(self)@.update(i as int, d),
            final(self).wf(),
    {
        let ghost s = self@;
        let ghost ii = i as int;
        self.rows[i] = d;
        proof {
            let r = s.update(ii, d);
            assert forall|a: int, b: int| 0 <= a < b < r.len() implies r[a].id != r[b].id
                && r[a].created_at <= r[b].created_at by {
                if a == ii {
                    assert(r[a] == d);
                } else {
                    assert(r[a] == s[a]);
                }
                if b == ii {
                    assert(r[b] == d);
                } else {
                    assert(r[b] == s[b]);
                }
                assert(s[a].id != s[b].id);
                assert(s[a].created_at <= s[b].created_at);
            }
            assert forall|a: int| 0 <= a < r.len() implies r[a].name@.len() != 0 by {
                if a == ii {
                    assert(r[a] == d);
                } else {
                    assert(r[a] == s[a]);
                }
            }
        }
    }

    /// Removes the record at `i`.
    pub(crate) fn remove_row(&mut self, i: usize) -> (d: Desire)
        requires
            old(self).wf(),
            i < old(self)@.len(),
        ensures
            d == old(self)@[i as int],
            final(self)@ == old(self)@.remove(i as int),
            final(self).wf(),
            !contains_id(final(self)@, d.id),
    {
        proof {
            lemma_remove_props(self@, i as int);
        }
        self.rows.remove(i)
    }
}

} // verus!
