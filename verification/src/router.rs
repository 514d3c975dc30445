//! Request routing: the path parsing each handler performs and the
//! mapping from gateway outcome to the handler's HTTP response.

use vstd::prelude::*;
use crate::gateway::{todo_json_of, Repository};
use crate::json::{
    encode_error_body, encode_wrapped_body, error_body, message_body, push_char, wrapped_body,
};
use crate::model::{extracted_todo, stored_of, Response, ToDo};

verus! {

/// Whether a path has the exact shape `/todo/{id}`: the fixed prefix
/// followed by an id segment free of further slashes.
pub open spec fn is_delete_path(p: Seq<char>) -> bool {
    &&& p.len() >= 6
    &&& p.take(6) == "/todo/"@
    &&& !p.skip(6).contains('/')
}

/// The id segment of a path of shape `/todo/{id}`.
pub open spec fn delete_path_id(p: Seq<char>) -> Seq<char> {
    p.skip(6)
}

/// Extracts the id from a path of the exact shape `/todo/{id}`; any
/// other path shape is rejected.
pub fn parse_delete_path(path: &str) -> (r: Option<String>)
    ensures
        is_delete_path(path@) ==> (r matches Some(id) && id@ == delete_path_id(path@)),
        !is_delete_path(path@) ==> r is None,
{
    proof {
        reveal_strlit("/todo/");
    }
    let n = path.unicode_len();
    if n < 6 {
        return None;
    }
    let prefix_ok = path.get_char(0) == '/' && path.get_char(1) == 't' && path.get_char(2) == 'o'
        && path.get_char(3) == 'd' && path.get_char(4) == 'o' && path.get_char(5) == '/';
    if !prefix_ok {
        proof {
            if is_delete_path(path@) {
                assert(path@.take(6)[0] == path@[0]);
                assert(path@.take(6)[1] == path@[1]);
                assert(path@.take(6)[2] == path@[2]);
                assert(path@.take(6)[3] == path@[3]);
                assert(path@.take(6)[4] == path@[4]);
                assert(path@.take(6)[5] == path@[5]);
                assert(false);
            }
        }
        return None;
    }
    let mut out = String::new();
    let mut i: usize = 6;
    while i < n
        invariant
            6 <= i <= n,
            n == path@.len(),
            out@ == path@.subrange(6, i as int),
            forall|j: int| 6 <= j < i ==> path@[j] != '/',
        decreases n - i,
    {
        let c = path.get_char(i);
        if c == '/' {
            proof {
                assert(path@.skip(6)[i - 6] == '/');
            }
            return None;
        }
        push_char(&mut out, c);
        proof {
            assert(out@ =~= path@.subrange(6, i + 1));
        }
        i += 1;
    }
    proof {
        assert(path@.take(6) =~= "/todo/"@);
        assert forall|k: int| 0 <= k < path@.skip(6).len() implies path@.skip(6)[k] != '/' by {
            assert(path@.skip(6)[k] == path@[k + 6]);
        }
        assert(out@ =~= path@.skip(6));
    }
    Some(out)
}

/// The trailing segment of a path: everything after the last slash, or
/// the whole path where it has no slash.
pub open spec fn last_segment(p: Seq<char>) -> Seq<char>
    decreases p.len(),
{
    if p.len() == 0 {
        Seq::<char>::empty()
    } else if p.last() == '/' {
        Seq::<char>::empty()
    } else {
        last_segment(p.drop_last()).push(p.last())
    }
}

proof fn lemma_last_segment(p: Seq<char>, start: int)
    requires
        0 <= start <= p.len(),
        start > 0 ==> p[start - 1] == '/',
        forall|j: int| start <= j < p.len() ==> p[j] != '/',
    ensures
        last_segment(p) == p.skip(start),
    decreases p.len(),
{
    if p.len() == 0 {
        assert(p.skip(start) =~= Seq::<char>::empty());
    } else if start == p.len() {
        assert(p.last() == '/');
        assert(p.skip(start) =~= Seq::<char>::empty());
    } else {
        assert(p.last() != '/');
        lemma_last_segment(p.drop_last(), start);
        assert(p.skip(start) =~= p.drop_last().skip(start).push(p.last()));
    }
}

/// Returns the trailing path segment: the read handler's id.
pub fn trailing_segment(path: &str) -> (r: String)
    ensures
        r@ == last_segment(path@),
{
    let n = path.unicode_len();
    let mut start: usize = n;
    while start > 0 && path.get_char(start - 1) != '/'
        invariant
            start <= n,
            n == path@.len(),
            forall|j: int| start <= j < n ==> path@[j] != '/',
        decreases start,
    {
        start -= 1;
    }
    proof {
        lemma_last_segment(path@, start as int);
    }
    let mut out = String::new();
    let mut i: usize = start;
    while i < n
        invariant
            start <= i <= n,
            n == path@.len(),
            out@ == path@.subrange(start as int, i as int),
        decreases n - i,
    {
        let c = path.get_char(i);
        push_char(&mut out, c);
        proof {
            assert(out@ =~= path@.subrange(start as int, i + 1));
        }
        i += 1;
    }
    proof {
        assert(out@ =~= path@.skip(start as int));
    }
    out
}

/// The 400 response for a request body that is missing or failed to
/// parse into a todo.
pub fn missing_body_response() -> (r: Response)
    ensures
        r.status_code == 400,
        r.body@ == error_body("Missing request body"@),
{
    Response { status_code: 400, body: encode_error_body("Missing request body") }
}

/// The 400 response for a delete path not of the shape `/todo/{id}`.
pub fn invalid_path_response() -> (r: Response)
    ensures
        r.status_code == 400,
        r.body@ == error_body("Invalid path format. Expected '/todo/{id}'."@),
{
    Response {
        status_code: 400,
        body: encode_error_body("Invalid path format. Expected '/todo/{id}'."),
    }
}

/// The 500 response reporting a storage failure.
pub fn storage_error_response(msg: &str) -> (r: Response)
    ensures
        r.status_code == 500,
        r.body@ == error_body(msg@),
{
    Response { status_code: 500, body: encode_error_body(msg) }
}

/// Wraps a gateway response the way the delete handler returns it: the
/// same status, with a fresh JSON object nesting the status code and
/// the already-encoded body as a plain string.
pub fn wrap_delete_response(gw: &Response) -> (r: Response)
    ensures
        r.status_code == gw.status_code,
        r.body@ == wrapped_body(gw.status_code as int, gw.body@),
{
    let body = encode_wrapped_body(gw.status_code, gw.body.as_str());
    Response { status_code: gw.status_code, body }
}

/// The create handler: a parsed body is stored and echoed verbatim; a
/// missing or unparsable body is rejected with 400 before any storage
/// call.
pub fn handle_create<R: Repository>(repo: &mut R, body: Option<ToDo>) -> (r: Response)
    requires
        old(repo).inv(),
    ensures
        final(repo).inv(),
        (body matches Some(t) ==> {
            &&& final(repo).table() == old(repo).table().insert(t.id@, stored_of(t@))
            &&& r.status_code == 200
            &&& r.body@ == todo_json_of(t@)
        }),
        body is None ==> {
            &&& final(repo).table() == old(repo).table()
            &&& r.status_code == 400
            &&& r.body@ == error_body("Missing request body"@)
        },
{
    match body {
        Some(t) => repo.create_todo(t),
        None => missing_body_response(),
    }
}

/// The update handler: a parsed body updates the item under its id; a
/// missing or unparsable body is rejected with 400 before any storage
/// call.
pub fn handle_update<R: Repository>(repo: &mut R, body: Option<ToDo>) -> (r: Response)
    requires
        old(repo).inv(),
    ensures
        final(repo).inv(),
        (body matches Some(t) ==> {
            &&& (old(repo).table().contains_key(t.id@) ==> {
                &&& final(repo).table() == old(repo).table().insert(
                    t.id@,
                    crate::model::updated_of(old(repo).table().index(t.id@), t@),
                )
                &&& r.status_code == 200
                &&& r.body@ == todo_json_of(
                    extracted_todo(crate::model::updated_of(old(repo).table().index(t.id@), t@)),
                )
            })
            &&& (!old(repo).table().contains_key(t.id@) ==> {
                &&& final(repo).table() == old(repo).table()
                &&& r.status_code == 404
                &&& r.body@ == "Todo not found"@
            })
        }),
        body is None ==> {
            &&& final(repo).table() == old(repo).table()
            &&& r.status_code == 400
            &&& r.body@ == error_body("Missing request body"@)
        },
{
    match body {
        Some(t) => repo.update_todo(t),
        None => missing_body_response(),
    }
}

/// The read handler: the id is the trailing path segment; the gateway's
/// response passes through verbatim.
pub fn handle_read<R: Repository>(repo: &R, path: &str) -> (r: Response)
    requires
        repo.inv(),
    ensures
        ({
            let id = last_segment(path@);
            &&& (repo.table().contains_key(id) ==> r.status_code == 200 && r.body@ == todo_json_of(
                extracted_todo(repo.table().index(id)),
            ))
            &&& (!repo.table().contains_key(id) ==> r.status_code == 404 && r.body@
                == "Todo not found"@)
        }),
{
    let id = trailing_segment(path);
    repo.read_todo(id.as_str())
}

/// The delete handler: a path of the exact shape `/todo/{id}` deletes
/// the item under that id and wraps the gateway response in a fresh
/// JSON object; any other path shape is rejected with 400 and the table
/// is untouched.
pub fn handle_delete<R: Repository>(repo: &mut R, path: &str) -> (r: Response)
    requires
        old(repo).inv(),
    ensures
        final(repo).inv(),
        is_delete_path(path@) ==> ({
            let id = delete_path_id(path@);
            &&& final(repo).table() == old(repo).table().remove(id)
            &&& (old(repo).table().contains_key(id) ==> r.status_code == 200 && r.body@
                == wrapped_body(200, message_body("Todo deleted!"@)))
            &&& (!old(repo).table().contains_key(id) ==> r.status_code == 404 && r.body@
                == wrapped_body(404, message_body("Todo not found"@)))
        }),
        !is_delete_path(path@) ==> {
            &&& final(repo).table() == old(repo).table()
            &&& r.status_code == 400
            &&& r.body@ == error_body("Invalid path format. Expected '/todo/{id}'."@)
        },
{
    match parse_delete_path(path) {
        Some(id) => {
            let gw = repo.delete_todo(id.as_str());
            wrap_delete_response(&gw)
        },
        None => invalid_path_response(),
    }
}

} // verus!
