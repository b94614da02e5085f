//! The four operations of the service, each against the table of records:
//! list, create (with its one validation), update (per-field coalescing) and
//! delete. Each function states exactly when it succeeds, what it returns,
//! and how it changes the table.

use vstd::prelude::*;
use crate::models::{
    created_desire, merged, apply_patch, patch_name_ok, CreateDesire, Desire, UpdateDesire,
};
use crate::store::{
    contains_id, ids_unique, index_of_id, insert_position, insert_sorted, lemma_index_of_id,
    lemma_insert_position_in_range, lemma_insert_sorted_props, sorted_by_created, DesireStore,
};

verus! {

/// Why a creation request was refused.
#[derive(Clone, Copy, Debug, PartialEq, Eq, Structural)]
pub enum CreateError {
    /// The required name was empty.
    EmptyName,
    /// The assigned identifier already names a record.
    IdTaken,
}

impl CreateError {
    /// The HTTP status a refused creation is answered with: the one
    /// validation failure is the caller's fault, a colliding identifier is
    /// the server's.
    pub fn status_code(self) -> (r: u16)
        ensures
            self == CreateError::EmptyName ==> r == 400,
            self == CreateError::IdTaken ==> r == 500,
    {
        match self {
            CreateError::EmptyName => 400,
            CreateError::IdTaken => 500,
        }
    }
}

/// Why an update was refused.
#[derive(Clone, Copy, Debug, PartialEq, Eq, Structural)]
pub enum UpdateError {
    /// The patch carried a name, and it was empty: a record's name is
    /// never empty.
    EmptyName,
    /// No record carries the identifier.
    NotFound,
}

impl UpdateError {
    /// The HTTP status a refused update is answered with: the validation
    /// failure is the caller's fault, an unknown identifier is answered as
    /// not found.
    pub fn status_code(self) -> (r: u16)
        ensures
            self == UpdateError::EmptyName ==> r == 400,
            self == UpdateError::NotFound ==> r == 404,
    {
        match self {
            UpdateError::EmptyName => 400,
            UpdateError::NotFound => 404,
        }
    }
}

/// Why a delete was refused: no record carries the identifier.
#[derive(Clone, Copy, Debug, PartialEq, Eq, Structural)]
pub struct NotFound;

impl NotFound {
    /// The HTTP status an unknown identifier is answered with.
    pub fn status_code(self) -> (r: u16)
        ensures
            r == 404,
    {
        404
    }
}

/// Lists every record, ordered by creation time ascending.
pub fn get_desires(store: &DesireStore) -> (r: Vec<Desire>)
    ensures
        r@ == store@,
        store.wf() ==> sorted_by_created(r@),
{
    store.list_all()
}

/// Whether a name passes the creation validation: it must not be empty.
pub fn create_allowed(name: &str) -> (r: bool)
    ensures
        r == (name@.len() != 0),
{
    !name.is_empty()
}

/// Whether the name a patch carries, if any, passes the update validation:
/// a present name must not be empty, since a record's name never is.
pub fn update_allowed(name: Option<&str>) -> (r: bool)
    ensures
        r == (match name {
            Some(n) => n@.len() != 0,
            None => true,
        }),
{
    match name {
        Some(n) => !n.is_empty(),
        None => true,
    }
}

/// Creates a record from the request body. An empty name is refused and
/// creates nothing; otherwise the record is made of the given fields with
/// the assigned identifier and creation time (an absent occurred date
/// defaulting to the creation time), inserted at its creation-time position,
/// and returned.
pub fn create_desire(store: &mut DesireStore, body: CreateDesire, id: u128, now: i64) -> (r: Result<
    Desire,
    CreateError,
>)
    requires
        old(store).wf(),
    ensures
        final(store).wf(),
        body.name@.len() == 0 ==> r == Err::<Desire, CreateError>(CreateError::EmptyName)
            && final(store)@ == old(store)@,
        body.name@.len() != 0 && contains_id(old(store)@, id) ==> r == Err::<Desire, CreateError>(
            CreateError::IdTaken,
        ) && final(store)@ == old(store)@,
        body.name@.len() != 0 && !contains_id(old(store)@, id) ==> r == Ok::<Desire, CreateError>(
            created_desire(body, id, now),
        ) && final(store)@ == insert_sorted(old(store)@, created_desire(body, id, now)),
{
    if !create_allowed(body.name.as_str()) {
        return Err(CreateError::EmptyName);
    }
    match store.find_index(id) {
        Some(_) => Err(CreateError::IdTaken),
        None => {
            let d = Desire {
                id,
                name: body.name,
                importance: body.importance,
                urgency: body.urgency,
                image_url: body.image_url,
                web_url: body.web_url,
                note: body.note,
                x: body.x,
                y: body.y,
                created_at: now,
                fulfilled_date: body.fulfilled_date,
                occurred_date: match body.occurred_date {
                    Some(t) => Some(t),
                    None => Some(now),
                },
            };
            let ret = d.clone();
            store.insert_row(d);
            Ok(ret)
        },
    }
}

/// Updates the record carrying `id` by per-field coalescing: each field the
/// patch carries replaces the stored one, each absent field keeps its prior
/// value. A patch carrying an empty name is refused and changes nothing, as
/// a record's name is never empty; an unknown identifier is refused and
/// changes nothing; otherwise the updated record is returned.
pub fn update_desire(store: &mut DesireStore, id: u128, body: UpdateDesire) -> (r: Result<
    Desire,
    UpdateError,
>)
    requires
        old(store).wf(),
    ensures
        final(store).wf(),
        !patch_name_ok(body) ==> r == Err::<Desire, UpdateError>(UpdateError::EmptyName)
            && final(store)@ == old(store)@,
        patch_name_ok(body) && !contains_id(old(store)@, id) ==> r == Err::<Desire, UpdateError>(
            UpdateError::NotFound,
        ) && final(store)@ == old(store)@,
        patch_name_ok(body) && contains_id(old(store)@, id) ==> r == Ok::<Desire, UpdateError>(
            merged(old(store)@[index_of_id(old(store)@, id)], body),
        ) && final(store)@ == old(store)@.update(
            index_of_id(old(store)@, id),
            merged(old(store)@[index_of_id(old(store)@, id)], body),
        ),
{
    let name_ok = update_allowed(match &body.name {
        Some(n) => Some(n.as_str()),
        None => None,
    });
    if !name_ok {
        return Err(UpdateError::EmptyName);
    }
    match store.find_index(id) {
        None => Err(UpdateError::NotFound),
        Some(i) => {
            proof {
                lemma_index_of_id(store@, i as int, id);
            }
            let cur = store.get(i).clone();
            let updated = apply_patch(cur, body);
            let ret = updated.clone();
            store.replace_row(i, updated);
            Ok(ret)
        },
    }
}

/// Deletes the record carrying `id`. An unknown identifier is refused and
/// changes nothing; otherwise exactly that record is removed, and no record
/// under that identifier remains.
pub fn delete_desire(store: &mut DesireStore, id: u128) -> (r: Result<(), NotFound>)
    requires
        old(store).wf(),
    ensures
        final(store).wf(),
        !contains_id(old(store)@, id) ==> r == Err::<(), NotFound>(NotFound) && final(store)@
            == old(store)@,
        contains_id(old(store)@, id) ==> r == Ok::<(), NotFound>(()) && final(store)@ == old(
            store,
        )@.remove(index_of_id(old(store)@, id)) && !contains_id(final(store)@, id),
{
    match store.find_index(id) {
        None => Err(NotFound),
        Some(i) => {
            proof {
                lemma_index_of_id(store@, i as int, id);
            }
            let _ = store.remove_row(i);
            Ok(())
        },
    }
}

/// Every created entity appears in the listing, and the listing stays
/// ordered by creation time ascending.
pub proof fn lemma_created_entity_listed(s: Seq<Desire>, body: CreateDesire, id: u128, now: i64)
    requires
        sorted_by_created(s),
    ensures
        sorted_by_created(insert_sorted(s, created_desire(body, id, now))),
        insert_sorted(s, created_desire(body, id, now)).contains(created_desire(body, id, now)),
{
    let d = created_desire(body, id, now);
    lemma_insert_position_in_range(s, d.created_at);
    lemma_insert_sorted_props(s, d);
    let k = insert_position(s, d.created_at);
    assert(0 <= k < insert_sorted(s, d).len());
    assert(insert_sorted(s, d)[k] == d);
}

/// Round trip: after a successful create, the record the listing holds under
/// the new identifier is, field for field, the record create returned.
pub proof fn lemma_create_round_trip(s: Seq<Desire>, body: CreateDesire, id: u128, now: i64)
    requires
        sorted_by_created(s),
        ids_unique(s),
        !contains_id(s, id),
    ensures
        contains_id(insert_sorted(s, created_desire(body, id, now)), id),
        insert_sorted(s, created_desire(body, id, now))[index_of_id(
            insert_sorted(s, created_desire(body, id, now)),
            id,
        )] == created_desire(body, id, now),
{
    let d = created_desire(body, id, now);
    let t = insert_sorted(s, d);
    lemma_insert_position_in_range(s, d.created_at);
    lemma_insert_sorted_props(s, d);
    let k = insert_position(s, d.created_at);
    assert(0 <= k < t.len());
    assert(t[k] == d);
    lemma_index_of_id(t, k, id);
}

} // verus!
