//! The storage gateway: the four item operations and their uniform
//! response envelopes.
//!
//! [`Repository`] states the contract of each operation over an abstract
//! table; [`crate::store::MemoryTable`] implements it. The free functions
//! map a store's raw outcome (the fetched attributes, or the fact that a
//! previous image existed) to the response envelope; they carry the whole
//! defaulting and encoding policy and are shared by every backing store.

use vstd::prelude::*;
use crate::json::{encode_message_body, encode_todo_body, message_body, todo_body};
use crate::model::{
    attrs_of_todo, clone_opt_attr, extracted_todo, stored_of, todo_from_attrs, updated_of,
    AttrValue, Response, ToDo, ToDoResponse, ToDoResponseV, ToDoV,
};
use crate::store::MemoryTable;

verus! {

/// The JSON echo of a todo: its fields in the fixed object shape.
pub open spec fn todo_json_of(t: ToDoV) -> Seq<char> {
    todo_body(t.id, t.title, t.completed)
}

/// The response for a fetched item: 200 with the item's JSON echo,
/// defaulting absent or wrongly-typed attributes; 404 with the plain
/// text `Todo not found` where the store reported no item.
pub fn found_item_response(item: Option<&ToDoResponse>) -> (r: Response)
    ensures
        (item matches Some(it) ==> r.status_code == 200 && r.body@ == todo_json_of(
            extracted_todo(it@),
        )),
        item is None ==> r.status_code == 404 && r.body@ == "Todo not found"@,
{
    match item {
        Some(it) => {
            let t = todo_from_attrs(it);
            let body = encode_todo_body(t.id.as_str(), t.title.as_str(), t.completed);
            Response { status_code: 200, body }
        },
        None => Response { status_code: 404, body: String::from_str("Todo not found") },
    }
}

/// The response for a delete: 200 with a deleted message where a
/// previous image existed, 404 with a not-found message where none did;
/// both bodies are JSON message objects.
pub fn delete_outcome(existed: bool) -> (r: Response)
    ensures
        existed ==> r.status_code == 200 && r.body@ == message_body("Todo deleted!"@),
        !existed ==> r.status_code == 404 && r.body@ == message_body("Todo not found"@),
{
    if existed {
        Response { status_code: 200, body: encode_message_body("Todo deleted!") }
    } else {
        Response { status_code: 404, body: encode_message_body("Todo not found") }
    }
}

/// The response echoing a freshly created todo: always 200.
pub fn create_success_response(todo: &ToDo) -> (r: Response)
    ensures
        r.status_code == 200,
        r.body@ == todo_json_of(todo@),
{
    let body = encode_todo_body(todo.id.as_str(), todo.title.as_str(), todo.completed);
    Response { status_code: 200, body }
}

/// The create/read/update/delete contract against a key-value table of
/// stored items, stated over the table's abstract contents.
pub trait Repository: Sized {
    /// The implementation's internal well-formedness.
    spec fn inv(&self) -> bool;

    /// The table's contents: one stored image per id.
    spec fn table(&self) -> Map<Seq<char>, ToDoResponseV>;

    /// Writes the item under its id, overwriting any previous item with
    /// the same id, and echoes it back with status 200.
    fn create_todo(&mut self, todo: ToDo) -> (r: Response)
        requires
            old(self).inv(),
        ensures
            final(self).inv(),
            final(self).table() == old(self).table().insert(todo.id@, stored_of(todo@)),
            r.status_code == 200,
            r.body@ == todo_json_of(todo@),
    ;

    /// Sets `title` and `completed` of the item under `todo.id` and
    /// returns the post-update image as JSON; where no such item exists
    /// the table is untouched and the result is a plain-text 404.
    fn update_todo(&mut self, todo: ToDo) -> (r: Response)
        requires
            old(self).inv(),
        ensures
            final(self).inv(),
            old(self).table().contains_key(todo.id@) ==> {
                &&& final(self).table() == old(self).table().insert(
                    todo.id@,
                    updated_of(old(self).table().index(todo.id@), todo@),
                )
                &&& r.status_code == 200
                &&& r.body@ == todo_json_of(
                    extracted_todo(updated_of(old(self).table().index(todo.id@), todo@)),
                )
            },
            !old(self).table().contains_key(todo.id@) ==> {
                &&& final(self).table() == old(self).table()
                &&& r.status_code == 404
                &&& r.body@ == "Todo not found"@
            },
    ;

    /// Fetches the item under `id`: 200 with its JSON echo where it
    /// exists, a plain-text 404 where it does not.
    fn read_todo(&self, id: &str) -> (r: Response)
        requires
            self.inv(),
        ensures
            self.table().contains_key(id@) ==> r.status_code == 200 && r.body@ == todo_json_of(
                extracted_todo(self.table().index(id@)),
            ),
            !self.table().contains_key(id@) ==> r.status_code == 404 && r.body@
                == "Todo not found"@,
    ;

    /// Removes the item under `id`: 200 with a deleted message where a
    /// previous image existed, 404 with a not-found message where none
    /// did.
    fn delete_todo(&mut self, id: &str) -> (r: Response)
        requires
            old(self).inv(),
        ensures
            final(self).inv(),
            final(self).table() == old(self).table().remove(id@),
            old(self).table().contains_key(id@) ==> r.status_code == 200 && r.body@
                == message_body("Todo deleted!"@),
            !old(self).table().contains_key(id@) ==> r.status_code == 404 && r.body@
                == message_body("Todo not found"@),
    ;
}

impl Repository for MemoryTable {
    open spec fn inv(&self) -> bool {
        self.wf()
    }

    open spec fn table(&self) -> Map<Seq<char>, ToDoResponseV> {
        self.contents()
    }

    fn create_todo(&mut self, todo: ToDo) -> (r: Response)
    {
        let item = attrs_of_todo(&todo);
        self.insert_item(todo.id.as_str(), item);
        create_success_response(&todo)
    }

    fn update_todo(&mut self, todo: ToDo) -> (r: Response)
    {
        let prev_id_attr = match self.get_item(todo.id.as_str()) {
            Some(p) => clone_opt_attr(&p.id),
            None => {
                return Response { status_code: 404, body: String::from_str("Todo not found") };
            },
        };
        let new_item = ToDoResponse {
            id: prev_id_attr,
            title: Some(AttrValue::S(todo.title.clone())),
            completed: Some(AttrValue::Bool(todo.completed)),
        };
        let shown = todo_from_attrs(&new_item);
        self.insert_item(todo.id.as_str(), new_item);
        let body = encode_todo_body(shown.id.as_str(), shown.title.as_str(), shown.completed);
        Response { status_code: 200, body }
    }

    fn read_todo(&self, id: &str) -> (r: Response)
    {
        found_item_response(self.get_item(id))
    }

    fn delete_todo(&mut self, id: &str) -> (r: Response)
    {
        let existed = self.delete_item(id);
        delete_outcome(existed)
    }
}

} // verus!
