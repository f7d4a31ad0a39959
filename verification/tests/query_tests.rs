use blandango::{
    Arango, BoundCursorRequest, Call, Config, CursorRequest, CursorResponse, CursorState,
    Envelope, Index, Method, NewIdx, Query,
};

fn test_config() -> Config {
    Config {
        host: "http://localhost:8529".to_owned(),
        database: "_system".to_owned(),
        user: "blandango".to_owned(),
        password: "blandango".to_owned(),
    }
}

fn assert_call(call: &Call, method: Method, endpoint: &str, envelope: Envelope) {
    assert_eq!(call.method, method);
    assert_eq!(call.endpoint, endpoint);
    assert_eq!(call.envelope, envelope);
}

fn batch(id: Option<&str>, has_more: bool) -> CursorResponse<Vec<u32>> {
    CursorResponse {
        id: id.map(|id| id.to_owned()),
        error: false,
        code: 201,
        result: vec![1, 2],
        has_more,
        count: Some(6),
        extra: None,
        cached: false,
    }
}

#[test]
fn default_cursor_request() {
    let request = CursorRequest::default();
    assert!(request.id.is_none());
    assert_eq!(request.query, "");
    assert!(request.count);
    assert!(request.batch_size.is_none());
    assert!(request.ttl.is_none());
    assert!(!request.cache);
    assert!(request.memory_limit.is_none());
    assert!(request.bind.is_none());
    assert!(request.options.is_none());
}

#[test]
fn new_bound_cursor_request() {
    let request = BoundCursorRequest::new(("@collection", "sample_data"));
    assert!(request.id.is_none());
    assert_eq!(request.query, "");
    assert!(request.count);
    assert!(request.batch_size.is_none());
    assert!(request.ttl.is_none());
    assert!(!request.cache);
    assert!(request.memory_limit.is_none());
    assert!(request.options.is_none());
    assert_eq!(request.bind, ("@collection", "sample_data"));
}

#[test]
fn a_cursor_is_exhausted_after_its_last_batch() {
    let mut state = CursorState::new();
    assert!(state.next().is_none());
    assert!(!state.is_exhausted());

    state = state.advance(&batch(Some("42"), true));
    assert_eq!(state.next(), Some("42".to_owned()));
    assert!(!state.is_exhausted());

    state = state.advance(&batch(Some("42"), true));
    assert_eq!(state.next(), Some("42".to_owned()));
    assert!(!state.is_exhausted());

    state = state.advance(&batch(None, false));
    assert!(state.is_exhausted());
    assert!(state.next().is_none());
}

#[test]
fn an_identifier_in_the_last_batch_is_of_no_use() {
    let state = CursorState::new().advance(&batch(Some("42"), true));
    let state = state.advance(&batch(Some("42"), false));
    assert!(state.is_exhausted());
    assert!(state.next().is_none());
}

#[test]
fn an_exhausted_cursor_stays_exhausted() {
    let state = CursorState::new().advance(&batch(None, false));
    assert!(state.is_exhausted());
    let state = state.advance(&batch(Some("43"), true));
    assert!(state.is_exhausted());
    assert!(state.next().is_none());
    let state = state.delete();
    assert!(state.is_exhausted());
}

#[test]
fn a_batch_that_names_no_cursor_ends_the_walk() {
    let state = CursorState::new().advance(&batch(None, true));
    assert!(state.is_exhausted());
    assert!(state.next().is_none());
}

#[test]
fn the_identifier_follows_the_latest_batch() {
    let state = CursorState::new().advance(&batch(Some("42"), true));
    let state = state.advance(&batch(Some("43"), true));
    assert_eq!(state.next(), Some("43".to_owned()));
}

#[test]
fn an_open_cursor_can_be_deleted() {
    let state = CursorState::new().advance(&batch(Some("42"), true)).delete();
    assert!(matches!(state, CursorState::Deleted));
    assert!(state.next().is_none());
    assert!(!state.is_exhausted());
    let state = state.advance(&batch(Some("42"), true));
    assert!(matches!(state, CursorState::Deleted));
}

#[test]
fn a_cursor_that_is_not_open_cannot_be_deleted() {
    assert!(matches!(CursorState::new().delete(), CursorState::Submitted));
}

#[test]
fn advancing_asks_under_the_identifier() {
    let query: Query = Arango::new(&test_config());
    let mut request = CursorRequest::default();
    request.query = "FOR r IN sample_data RETURN r".to_owned();
    assert_call(&query.cursor(&request), Method::Post, "_api/cursor", Envelope::Bare);

    let state = CursorState::new().advance(&batch(Some("42"), true));
    request.id = state.next();
    assert_call(&query.cursor(&request), Method::Post, "_api/cursor/42", Envelope::Bare);

    let state = state.advance(&batch(None, false));
    request.id = state.next();
    assert_call(&query.cursor(&request), Method::Post, "_api/cursor", Envelope::Bare);
}

#[test]
fn query_calls() {
    let query: Query = Arango::new(&test_config());
    let mut bound = BoundCursorRequest::new(7u8);
    assert_call(&query.bound_cursor(&bound), Method::Post, "_api/cursor", Envelope::Bare);
    bound.id = Some("9".to_owned());
    assert_call(&query.bound_cursor(&bound), Method::Post, "_api/cursor/9", Envelope::Bare);
    assert_call(
        &query.delete_cursor("9".to_owned()),
        Method::Delete,
        "_api/cursor/9",
        Envelope::Bare,
    );
    assert_call(&query.clear_cache(), Method::Delete, "_api/query-cache", Envelope::Bare);
    assert_call(&query.cache_entries(), Method::Get, "_api/query-cache/entries", Envelope::Bare);
    assert_call(
        &query.cache_properties(),
        Method::Get,
        "_api/query-cache/properties",
        Envelope::Bare,
    );
    assert_call(
        &query.set_cache_properties(),
        Method::Put,
        "_api/query-cache/properties",
        Envelope::Bare,
    );
    assert_call(&query.bound_explain(), Method::Post, "_api/explain", Envelope::Nested);
    assert_call(&query.explain(), Method::Post, "_api/explain", Envelope::Nested);
    assert_call(&query.parse(), Method::Post, "_api/query", Envelope::Bare);
    assert_call(&query.running(), Method::Get, "_api/query/current", Envelope::Bare);
    assert_call(&query.clear_slow(), Method::Delete, "_api/query/slow", Envelope::Bare);
    assert_call(&query.slow(), Method::Get, "_api/query/slow", Envelope::Bare);
    assert_call(&query.kill("77"), Method::Delete, "_api/query/77", Envelope::Bare);
}

#[test]
fn default_index() {
    let index = NewIdx::default();
    assert_eq!(index.collection, "");
    assert_eq!(index.name, "");
    assert_eq!(index.kind, "persistent");
    assert!(index.fields.is_empty());
    assert!(!index.in_background);
    assert!(index.unique.is_none());
    assert!(index.min_length.is_none());
    assert!(index.geo_json.is_none());
    assert!(index.stored_values.is_none());
    assert!(index.sparse.is_none());
    assert!(index.deduplicate.is_none());
    assert!(index.estimates.is_none());
    assert!(index.cache_enabled.is_none());
    assert!(index.expires_after.is_none());
    assert!(index.field_value_types.is_none());
}

#[test]
fn index_calls() {
    let index: Index = Arango::new(&test_config());
    assert_call(
        &index.read("sample_data"),
        Method::Get,
        "_api/index?collection=sample_data",
        Envelope::Bare,
    );
    assert_call(
        &index.get("sample_data/0"),
        Method::Get,
        "_api/index/sample_data/0",
        Envelope::Bare,
    );
    let mut new_index = NewIdx::default();
    new_index.collection = "sample_data".to_owned();
    new_index.name = "unique_body".to_owned();
    new_index.fields = vec!["body".to_owned()];
    assert_call(
        &index.create(&new_index),
        Method::Post,
        "_api/index?collection=sample_data",
        Envelope::Bare,
    );
    assert_call(
        &index.delete("sample_data/12"),
        Method::Delete,
        "_api/index/sample_data/12",
        Envelope::Bare,
    );
}
