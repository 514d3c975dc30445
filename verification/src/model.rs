//! The item model: a todo record, the stored attribute shapes, and the
//! uniform response envelope returned by every gateway operation.

use vstd::prelude::*;

verus! {

/// One todo record as carried over the wire: the client-supplied unique
/// identifier, a free-text title, and the completion flag.
pub struct ToDo {
    pub id: String,
    pub title: String,
    pub completed: bool,
}

/// Mathematical image of a [`ToDo`].
pub struct ToDoV {
    pub id: Seq<char>,
    pub title: Seq<char>,
    pub completed: bool,
}

impl View for ToDo {
    type V = ToDoV;

    open spec fn view(&self) -> ToDoV {
        ToDoV { id: self.id@, title: self.title@, completed: self.completed }
    }
}

/// One typed attribute value of a stored item: the table holds strings
/// and booleans.
pub enum AttrValue {
    S(String),
    Bool(bool),
}

/// Mathematical image of an [`AttrValue`].
pub enum AttrValueV {
    S(Seq<char>),
    Bool(bool),
}

impl View for AttrValue {
    type V = AttrValueV;

    open spec fn view(&self) -> AttrValueV {
        match self {
            AttrValue::S(s) => AttrValueV::S(s@),
            AttrValue::Bool(b) => AttrValueV::Bool(*b),
        }
    }
}

/// Mathematical image of an optional attribute value.
pub open spec fn opt_attr_view(a: Option<AttrValue>) -> Option<AttrValueV> {
    match a {
        Some(v) => Some(v@),
        None => None,
    }
}

/// Copies one optional attribute value.
pub fn clone_opt_attr(a: &Option<AttrValue>) -> (r: Option<AttrValue>)
    ensures
        opt_attr_view(r) == opt_attr_view(*a),
{
    match a {
        Some(AttrValue::S(s)) => Some(AttrValue::S(s.clone())),
        Some(AttrValue::Bool(b)) => Some(AttrValue::Bool(*b)),
        None => None,
    }
}

/// The three attributes a stored item may carry, each possibly absent or
/// of an unexpected type: exactly what one fetch of an item reports back.
pub struct ToDoResponse {
    pub id: Option<AttrValue>,
    pub title: Option<AttrValue>,
    pub completed: Option<AttrValue>,
}

/// Mathematical image of a [`ToDoResponse`].
pub struct ToDoResponseV {
    pub id: Option<AttrValueV>,
    pub title: Option<AttrValueV>,
    pub completed: Option<AttrValueV>,
}

impl View for ToDoResponse {
    type V = ToDoResponseV;

    open spec fn view(&self) -> ToDoResponseV {
        ToDoResponseV {
            id: opt_attr_view(self.id),
            title: opt_attr_view(self.title),
            completed: opt_attr_view(self.completed),
        }
    }
}

/// The uniform response envelope: an HTTP status code and a body string.
pub struct Response {
    pub status_code: u32,
    pub body: String,
}

/// A string attribute's text, or the empty string where the attribute is
/// absent or not a string.
pub open spec fn attr_string_or_default(a: Option<AttrValueV>) -> Seq<char> {
    match a {
        Some(AttrValueV::S(s)) => s,
        _ => Seq::<char>::empty(),
    }
}

/// A boolean attribute's value, or `false` where the attribute is absent
/// or not a boolean.
pub open spec fn attr_bool_or_default(a: Option<AttrValueV>) -> bool {
    match a {
        Some(AttrValueV::Bool(b)) => b,
        _ => false,
    }
}

/// The todo read out of a stored item, defaulting each absent or
/// wrongly-typed attribute rather than failing.
pub open spec fn extracted_todo(item: ToDoResponseV) -> ToDoV {
    ToDoV {
        id: attr_string_or_default(item.id),
        title: attr_string_or_default(item.title),
        completed: attr_bool_or_default(item.completed),
    }
}

/// The stored image a create writes for a todo: all three attributes
/// present, with their expected types.
pub open spec fn stored_of(t: ToDoV) -> ToDoResponseV {
    ToDoResponseV {
        id: Some(AttrValueV::S(t.id)),
        title: Some(AttrValueV::S(t.title)),
        completed: Some(AttrValueV::Bool(t.completed)),
    }
}

/// The stored image after an update: `title` and `completed` are set to
/// the new values; the key attribute `id` is not touched.
pub open spec fn updated_of(prev: ToDoResponseV, t: ToDoV) -> ToDoResponseV {
    ToDoResponseV {
        id: prev.id,
        title: Some(AttrValueV::S(t.title)),
        completed: Some(AttrValueV::Bool(t.completed)),
    }
}

/// Reads a fetched item into a todo, applying the defaulting policy.
pub fn todo_from_attrs(item: &ToDoResponse) -> (t: ToDo)
    ensures
        t@ == extracted_todo(item@),
{
    let id = match &item.id {
        Some(AttrValue::S(s)) => s.clone(),
        _ => String::new(),
    };
    let title = match &item.title {
        Some(AttrValue::S(s)) => s.clone(),
        _ => String::new(),
    };
    let completed = match &item.completed {
        Some(AttrValue::Bool(b)) => *b,
        _ => false,
    };
    ToDo { id, title, completed }
}

/// Builds the stored image of a todo: the attribute triple a create
/// writes into the table.
pub fn attrs_of_todo(t: &ToDo) -> (r: ToDoResponse)
    ensures
        r@ == stored_of(t@),
{
    ToDoResponse {
        id: Some(AttrValue::S(t.id.clone())),
        title: Some(AttrValue::S(t.title.clone())),
        completed: Some(AttrValue::Bool(t.completed)),
    }
}

} // verus!
