//! Laws relating successive gateway operations, stated over the
//! abstract table that the [`crate::gateway::Repository`] contracts
//! speak of.

use vstd::prelude::*;
use crate::model::{extracted_todo, stored_of, updated_of, ToDoResponseV, ToDoV};

verus! {

/// Law: reading back the image a create stores yields the created todo,
/// field for field.
pub proof fn lemma_store_round_trip(t: ToDoV)
    ensures
        extracted_todo(stored_of(t)) == t,
{
}

/// Law: a create followed by a read of the same id finds the item, and
/// what the read extracts is the created todo field for field — so by
/// the read contract its body is exactly the created item's JSON echo.
pub proof fn lemma_create_then_read(m: Map<Seq<char>, ToDoResponseV>, t: ToDoV)
    ensures
        m.insert(t.id, stored_of(t)).contains_key(t.id),
        extracted_todo(m.insert(t.id, stored_of(t)).index(t.id)) == t,
{
}

/// Law: after a delete of an id, no item is stored under it — so by
/// the read contract a read of that id returns 404.
pub proof fn lemma_delete_then_read(m: Map<Seq<char>, ToDoResponseV>, id: Seq<char>)
    ensures
        !m.remove(id).contains_key(id),
{
}

/// Law: an update rewrites `title` and `completed` and leaves the
/// stored `id` attribute untouched, and the image it reports back
/// reflects exactly the new values over the unchanged id.
pub proof fn lemma_update_changes_fields_only(prev: ToDoResponseV, t: ToDoV)
    ensures
        updated_of(prev, t).id == prev.id,
        extracted_todo(updated_of(prev, t)).title == t.title,
        extracted_todo(updated_of(prev, t)).completed == t.completed,
        extracted_todo(updated_of(prev, t)).id == extracted_todo(prev).id,
{
}

} // verus!
