use serverless_todos::gateway::{
    create_success_response, delete_outcome, found_item_response, Repository,
};
use serverless_todos::json::{
    encode_error_body, encode_json_string, encode_message_body, encode_todo_body,
    encode_wrapped_body, u32_decimal,
};
use serverless_todos::model::{todo_from_attrs, AttrValue, ToDo, ToDoResponse};
use serverless_todos::router::{
    handle_create, handle_delete, handle_read, handle_update, invalid_path_response,
    missing_body_response, parse_delete_path, storage_error_response, trailing_segment,
};
use serverless_todos::store::MemoryTable;

fn todo(id: &str, title: &str, completed: bool) -> ToDo {
    ToDo { id: id.to_string(), title: title.to_string(), completed }
}

#[test]
fn create_then_read_echoes_item() {
    let mut table = MemoryTable::new();
    let created = table.create_todo(todo("a7", "Water plants", true));
    assert_eq!(created.status_code, 200);
    let read = table.read_todo("a7");
    assert_eq!(read.status_code, 200);
    assert_eq!(read.body, "{\"id\":\"a7\",\"title\":\"Water plants\",\"completed\":true}");
    assert_eq!(read.body, created.body);
}

#[test]
fn read_missing_id_is_404() {
    let table = MemoryTable::new();
    let read = table.read_todo("nope");
    assert_eq!(read.status_code, 404);
    assert_eq!(read.body, "Todo not found");
}

#[test]
fn delete_missing_id_is_404_json() {
    let mut table = MemoryTable::new();
    let deleted = table.delete_todo("nope");
    assert_eq!(deleted.status_code, 404);
    assert_eq!(deleted.body, "{\"message\":\"Todo not found\"}");
}

#[test]
fn delete_then_read_is_404() {
    let mut table = MemoryTable::new();
    table.create_todo(todo("k1", "Pack bags", false));
    let deleted = table.delete_todo("k1");
    assert_eq!(deleted.status_code, 200);
    assert_eq!(deleted.body, "{\"message\":\"Todo deleted!\"}");
    let read = table.read_todo("k1");
    assert_eq!(read.status_code, 404);
    assert_eq!(read.body, "Todo not found");
}

#[test]
fn update_missing_id_is_plain_404() {
    let mut table = MemoryTable::new();
    let updated = table.update_todo(todo("ghost", "Anything", true));
    assert_eq!(updated.status_code, 404);
    assert_eq!(updated.body, "Todo not found");
}

#[test]
fn update_changes_fields_but_keeps_id() {
    let mut table = MemoryTable::new();
    table.create_todo(todo("u1", "Old title", false));
    let updated = table.update_todo(todo("u1", "New title", true));
    assert_eq!(updated.status_code, 200);
    assert_eq!(updated.body, "{\"id\":\"u1\",\"title\":\"New title\",\"completed\":true}");
    let read = table.read_todo("u1");
    assert_eq!(read.body, "{\"id\":\"u1\",\"title\":\"New title\",\"completed\":true}");
}

#[test]
fn items_are_kept_apart_by_id() {
    let mut table = MemoryTable::new();
    table.create_todo(todo("left", "First item", false));
    table.create_todo(todo("right", "Second item", true));
    let left = table.read_todo("left");
    assert_eq!(left.body, "{\"id\":\"left\",\"title\":\"First item\",\"completed\":false}");
    let right = table.read_todo("right");
    assert_eq!(right.body, "{\"id\":\"right\",\"title\":\"Second item\",\"completed\":true}");
    table.delete_todo("left");
    assert_eq!(table.read_todo("right").status_code, 200);
    assert_eq!(table.read_todo("left").status_code, 404);
}

#[test]
fn create_overwrites_existing_item() {
    let mut table = MemoryTable::new();
    table.create_todo(todo("dup", "First", false));
    table.create_todo(todo("dup", "Second", true));
    let read = table.read_todo("dup");
    assert_eq!(read.body, "{\"id\":\"dup\",\"title\":\"Second\",\"completed\":true}");
}

#[test]
fn delete_path_routes_to_id() {
    assert_eq!(parse_delete_path("/todo/abc123"), Some("abc123".to_string()));
}

#[test]
fn bad_delete_paths_are_rejected() {
    assert_eq!(parse_delete_path("/foo/abc123"), None);
    assert_eq!(parse_delete_path("/todo"), None);
    assert_eq!(parse_delete_path("/a/b/c/d"), None);
    assert_eq!(parse_delete_path("todo/abc123"), None);
}

#[test]
fn delete_handler_rejects_bad_path_without_touching_storage() {
    let mut table = MemoryTable::new();
    table.create_todo(todo("kept", "Stay put", false));
    for path in ["/foo/kept", "/todo", "/a/b/c/d"] {
        let res = handle_delete(&mut table, path);
        assert_eq!(res.status_code, 400);
        assert_eq!(res.body, "{\"error\":\"Invalid path format. Expected '/todo/{id}'.\"}");
    }
    let read = table.read_todo("kept");
    assert_eq!(read.status_code, 200);
}

#[test]
fn delete_handler_wraps_gateway_response() {
    let mut table = MemoryTable::new();
    table.create_todo(todo("w1", "Wrap me", false));
    let res = handle_delete(&mut table, "/todo/w1");
    assert_eq!(res.status_code, 200);
    assert_eq!(
        res.body,
        "{\"status_code\":200,\"body\":\"{\\\"message\\\":\\\"Todo deleted!\\\"}\"}"
    );
    let missing = handle_delete(&mut table, "/todo/w1");
    assert_eq!(missing.status_code, 404);
    assert_eq!(
        missing.body,
        "{\"status_code\":404,\"body\":\"{\\\"message\\\":\\\"Todo not found\\\"}\"}"
    );
}

#[test]
fn read_handler_takes_trailing_segment() {
    let mut table = MemoryTable::new();
    table.create_todo(todo("r9", "Read me", true));
    let res = handle_read(&table, "/some/stage/r9");
    assert_eq!(res.status_code, 200);
    assert_eq!(res.body, "{\"id\":\"r9\",\"title\":\"Read me\",\"completed\":true}");
    assert_eq!(trailing_segment("/a/b/c"), "c");
    assert_eq!(trailing_segment("plain"), "plain");
    assert_eq!(trailing_segment("/ends/with/"), "");
}

#[test]
fn create_and_update_handlers_reject_missing_body() {
    let mut table = MemoryTable::new();
    let res = handle_create(&mut table, None);
    assert_eq!(res.status_code, 400);
    assert_eq!(res.body, "{\"error\":\"Missing request body\"}");
    let res = handle_update(&mut table, None);
    assert_eq!(res.status_code, 400);
    assert_eq!(res.body, "{\"error\":\"Missing request body\"}");
    let read = table.read_todo("anything");
    assert_eq!(read.status_code, 404);
}

#[test]
fn full_scenario_create_update_delete_read() {
    let mut table = MemoryTable::new();
    let created = handle_create(&mut table, Some(todo("1", "Buy milk", false)));
    assert_eq!(created.status_code, 200);
    assert_eq!(created.body, "{\"id\":\"1\",\"title\":\"Buy milk\",\"completed\":false}");
    let updated = handle_update(&mut table, Some(todo("1", "Buy milk", true)));
    assert_eq!(updated.status_code, 200);
    assert_eq!(updated.body, "{\"id\":\"1\",\"title\":\"Buy milk\",\"completed\":true}");
    let deleted = handle_delete(&mut table, "/todo/1");
    assert_eq!(deleted.status_code, 200);
    let read = handle_read(&table, "/todo/1");
    assert_eq!(read.status_code, 404);
    assert_eq!(read.body, "Todo not found");
}

#[test]
fn json_string_escaping() {
    assert_eq!(encode_json_string("plain"), "\"plain\"");
    assert_eq!(encode_json_string(""), "\"\"");
    assert_eq!(encode_json_string("say \"hi\""), "\"say \\\"hi\\\"\"");
    assert_eq!(encode_json_string("a\\b"), "\"a\\\\b\"");
    assert_eq!(encode_json_string("tab\there"), "\"tab\\there\"");
    assert_eq!(encode_json_string("line\nbreak"), "\"line\\nbreak\"");
    assert_eq!(encode_json_string("cr\rlf"), "\"cr\\rlf\"");
    assert_eq!(encode_json_string("\u{8}\u{c}"), "\"\\b\\f\"");
    assert_eq!(encode_json_string("\u{0}\u{1f}"), "\"\\u0000\\u001f\"");
    assert_eq!(encode_json_string("unicode déjà ✓"), "\"unicode déjà ✓\"");
}

#[test]
fn body_encoders_produce_exact_json() {
    assert_eq!(
        encode_todo_body("i", "t", false),
        "{\"id\":\"i\",\"title\":\"t\",\"completed\":false}"
    );
    assert_eq!(encode_message_body("Todo deleted!"), "{\"message\":\"Todo deleted!\"}");
    assert_eq!(encode_error_body("boom"), "{\"error\":\"boom\"}");
    assert_eq!(encode_wrapped_body(404, "Todo not found"), "{\"status_code\":404,\"body\":\"Todo not found\"}");
    assert_eq!(u32_decimal(0), "0");
    assert_eq!(u32_decimal(200), "200");
    assert_eq!(u32_decimal(4294967295), "4294967295");
}

#[test]
fn outcome_mappers_match_store_signals() {
    let full = ToDoResponse {
        id: Some(AttrValue::S("x".to_string())),
        title: Some(AttrValue::S("y".to_string())),
        completed: Some(AttrValue::Bool(true)),
    };
    let res = found_item_response(Some(&full));
    assert_eq!(res.status_code, 200);
    assert_eq!(res.body, "{\"id\":\"x\",\"title\":\"y\",\"completed\":true}");

    let res = found_item_response(None);
    assert_eq!(res.status_code, 404);
    assert_eq!(res.body, "Todo not found");

    let res = delete_outcome(true);
    assert_eq!(res.status_code, 200);
    assert_eq!(res.body, "{\"message\":\"Todo deleted!\"}");

    let res = delete_outcome(false);
    assert_eq!(res.status_code, 404);
    assert_eq!(res.body, "{\"message\":\"Todo not found\"}");

    let res = create_success_response(&todo("c", "d", false));
    assert_eq!(res.status_code, 200);
    assert_eq!(res.body, "{\"id\":\"c\",\"title\":\"d\",\"completed\":false}");
}

#[test]
fn defaulting_covers_absent_and_wrongly_typed_attributes() {
    let odd = ToDoResponse {
        id: None,
        title: Some(AttrValue::Bool(true)),
        completed: Some(AttrValue::S("yes".to_string())),
    };
    let t = todo_from_attrs(&odd);
    assert_eq!(t.id, "");
    assert_eq!(t.title, "");
    assert!(!t.completed);
    let res = found_item_response(Some(&odd));
    assert_eq!(res.status_code, 200);
    assert_eq!(res.body, "{\"id\":\"\",\"title\":\"\",\"completed\":false}");
}

#[test]
fn fixed_error_responses() {
    let res = invalid_path_response();
    assert_eq!(res.status_code, 400);
    assert_eq!(res.body, "{\"error\":\"Invalid path format. Expected '/todo/{id}'.\"}");
    let res = missing_body_response();
    assert_eq!(res.status_code, 400);
    assert_eq!(res.body, "{\"error\":\"Missing request body\"}");
    let res = storage_error_response("throttled by the store");
    assert_eq!(res.status_code, 500);
    assert_eq!(res.body, "{\"error\":\"throttled by the store\"}");
}

#[test]
fn bodies_are_valid_json_per_serde() {
    let mut table = MemoryTable::new();
    let created = table.create_todo(todo("j1", "quote \" and \\ slash", false));
    let v: serde_json::Value = serde_json::from_str(&created.body).unwrap();
    assert_eq!(v["id"], "j1");
    assert_eq!(v["title"], "quote \" and \\ slash");
    assert_eq!(v["completed"], false);
    let wrapped = handle_delete(&mut table, "/todo/j1");
    let w: serde_json::Value = serde_json::from_str(&wrapped.body).unwrap();
    assert_eq!(w["status_code"], 200);
    assert_eq!(w["body"], "{\"message\":\"Todo deleted!\"}");
}
