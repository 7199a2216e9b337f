use rust_control_panel_template::admin_api::{
    found_or_not_found, to_response, to_response_list, ApiError, HttpReply, ListQuery, ReplyBody,
};

#[test]
fn listing_window() {
    let w = ListQuery { start: 0, end: 10 }.window();
    assert_eq!((w.limit, w.offset), (10, 0));
    let w = ListQuery { start: 20, end: 30 }.window();
    assert_eq!((w.limit, w.offset), (10, 20));
    assert_eq!(w.offset + w.limit, 30);
    let w = ListQuery { start: 5, end: 3 }.window();
    assert_eq!((w.limit, w.offset), (-2, 5));
}

#[test]
fn missing_row_is_not_found() {
    assert_eq!(found_or_not_found(Some(3)), Ok(3));
    assert_eq!(found_or_not_found::<u8>(None), Err(ApiError::NotFound));
    assert_eq!(ApiError::NotFound.message(), "not found");
    assert_eq!(ApiError::Database("boom".to_string()).message(), "boom");
}

#[test]
fn success_reply_is_json() {
    let reply = to_response(Ok(b"{\"a\":1}".to_vec()));
    assert_eq!(
        reply,
        HttpReply {
            status: 200,
            content_type: "application/json; charset=utf-8".to_string(),
            total_count: None,
            body: ReplyBody::Json(b"{\"a\":1}".to_vec()),
        }
    );
}

#[test]
fn failure_reply_is_plain_text_400() {
    let reply = to_response(Err(ApiError::NotFound));
    assert_eq!(
        reply,
        HttpReply {
            status: 400,
            content_type: "plain-text".to_string(),
            total_count: None,
            body: ReplyBody::Text("not found".to_string()),
        }
    );
    let reply = to_response(Err(ApiError::Database("no such table".to_string())));
    assert_eq!(reply.status, 400);
    assert_eq!(reply.body, ReplyBody::Text("no such table".to_string()));
}

#[test]
fn listing_reply_carries_total() {
    let reply = to_response_list(Ok((b"[]".to_vec(), 42)));
    assert_eq!(
        reply,
        HttpReply {
            status: 200,
            content_type: "application/json; charset=utf-8".to_string(),
            total_count: Some(42),
            body: ReplyBody::Json(b"[]".to_vec()),
        }
    );
    let reply = to_response_list(Err(ApiError::Database("x".to_string())));
    assert_eq!(reply.status, 400);
    assert_eq!(reply.total_count, None);
    assert_eq!(reply.content_type, "plain-text");
}
