use blandango::{
    expiration_after, get_current_timestamp, get_default_expiration, timestamp_from, Arango,
    ArangoEdgeKeys,
    ArangoKeys, Call, ClientError, Config, Doc, Document, DocumentQueryParams, DocumentResponse,
    Edge, EdgeQueryParams, Envelope, Method, Record, Validator,
};

#[derive(Debug, PartialEq)]
struct SampleData {
    body: String,
}

impl Record for SampleData {
    fn full_name() -> String {
        "document_tests::SampleData".to_owned()
    }
}

fn test_config() -> Config {
    Config {
        host: "http://localhost:8529".to_owned(),
        database: "_system".to_owned(),
        user: "blandango".to_owned(),
        password: "blandango".to_owned(),
    }
}

fn sample(key: &str) -> Doc<SampleData> {
    Doc {
        keys: ArangoKeys {
            id: format!("sample_data/{}", key),
            key: key.to_owned(),
            rev: "_gyOmZey---".to_owned(),
        },
        record: SampleData { body: "the inner data".to_owned() },
        modified_on: 1697655582221,
        created_on: 1697655582221,
    }
}

fn assert_call(call: &Call, method: Method, endpoint: &str, envelope: Envelope) {
    assert_eq!(call.method, method);
    assert_eq!(call.endpoint, endpoint);
    assert_eq!(call.envelope, envelope);
}

#[test]
fn default_document_params() {
    let params = DocumentQueryParams::default();
    assert!(params.wait_for_sync);
    assert_eq!(params.return_new, Some(true));
    assert!(params.return_old.is_none());
    assert!(params.silent.is_none());
    assert!(params.overwrite.is_none());
    assert!(params.overwrite_method.is_none());
    assert!(params.keep_null.is_none());
    assert!(params.merge_objects.is_none());
    assert!(params.refill_index_cache.is_none());
    assert!(params.ignore_revs.is_none());
}

#[test]
fn default_edge_params() {
    let params = EdgeQueryParams::default();
    assert_eq!(params.vertex, "");
    assert!(params.direction.is_none());
}

#[test]
fn a_reply_without_the_new_document_is_an_insertion_error() {
    let reply: DocumentResponse<Doc<SampleData>> = DocumentResponse { new: None, old: None };
    match reply.into_new() {
        Err(ClientError::Insertion(message)) => {
            assert_eq!(message, "the reply holds no new document")
        }
        _ => panic!("a missing document was not reported"),
    }
    let reply = DocumentResponse { new: None, old: Some(sample("1")) };
    assert!(matches!(reply.into_new(), Err(ClientError::Insertion(_))));
}

#[test]
fn a_reply_without_the_old_document_is_an_insertion_error() {
    let reply: DocumentResponse<Doc<SampleData>> = DocumentResponse { new: None, old: None };
    match reply.into_old() {
        Err(ClientError::Insertion(message)) => {
            assert_eq!(message, "the reply holds no old document")
        }
        _ => panic!("a missing document was not reported"),
    }
    let reply = DocumentResponse { new: Some(sample("1")), old: None };
    assert!(matches!(reply.into_old(), Err(ClientError::Insertion(_))));
}

#[test]
fn the_snapshot_asked_for_is_handed_out() {
    let reply = DocumentResponse { new: Some(sample("1")), old: Some(sample("2")) };
    let new = reply.into_new().unwrap();
    assert_eq!(new.keys.key, "1");
    assert_eq!(new.record, SampleData { body: "the inner data".to_owned() });
    assert_eq!(new.created_on, 1697655582221);

    let reply = DocumentResponse { new: Some(sample("1")), old: Some(sample("2")) };
    let old = reply.into_old().unwrap();
    assert_eq!(old.keys.key, "2");
    assert_eq!(old.keys.rev, "_gyOmZey---");
}

#[test]
fn new_edge() {
    let edge = Edge::new(
        "collection_b/3".to_owned(),
        "collection_a/2".to_owned(),
        SampleData { body: "SOME_DATA".to_owned() },
    );
    assert_eq!(edge.link.to, "collection_a/2");
    assert_eq!(edge.link.from, "collection_b/3");
    assert_eq!(edge.record.body, "SOME_DATA");
}

#[test]
fn keys_belong_to_their_collection() {
    let doc = sample("8963380");
    assert!(doc.keys.belongs_to("sample_data"));
    assert!(doc.keys.belongs_to(&doc.name()));
    assert!(!doc.keys.belongs_to("sample"));
    assert!(!doc.keys.belongs_to("sample_data/"));
    let stray = ArangoKeys { id: "edge/1".to_owned(), key: "2".to_owned(), rev: String::new() };
    assert!(!stray.belongs_to("edge"));
}

#[test]
fn keys_are_cloned_field_by_field() {
    let keys = sample("1").keys.clone();
    assert_eq!(keys.id, "sample_data/1");
    assert_eq!(keys.key, "1");
    assert_eq!(keys.rev, "_gyOmZey---");
    let link = ArangoEdgeKeys { to: "a/1".to_owned(), from: "b/2".to_owned() }.clone();
    assert_eq!(link.to, "a/1");
    assert_eq!(link.from, "b/2");
}

#[test]
fn document_calls() {
    let document: Document = Arango::new(&test_config());
    assert_eq!(document.client.to_base(), "http://localhost:8529/_db/_system/");
    assert_call(
        &document.insert::<SampleData>().unwrap(),
        Method::Post,
        "_api/document/sample_data?waitForSync=true&returnNew=true",
        Envelope::New,
    );
    assert_call(
        &document.insert_many::<SampleData>(),
        Method::Post,
        "_api/document/sample_data#multiple",
        Envelope::Bare,
    );
    assert_call(
        &document.read::<SampleData>("12"),
        Method::Get,
        "_api/document/sample_data/12",
        Envelope::Bare,
    );
    assert_call(
        &document.read_many::<SampleData>(),
        Method::Put,
        "_api/document/sample_data",
        Envelope::Bare,
    );
    assert_call(
        &document.read_header::<SampleData>("12"),
        Method::Head,
        "_api/document/sample_data/12",
        Envelope::Bare,
    );
    assert_call(
        &document.delete::<SampleData>("12").unwrap(),
        Method::Delete,
        "_api/document/sample_data/12?waitForSync=true&returnOld=true",
        Envelope::Old,
    );
    assert_call(
        &document.update(&sample("12")).unwrap(),
        Method::Patch,
        "_api/document/sample_data/12?waitForSync=true&silent=true",
        Envelope::Bare,
    );
    assert_call(
        &document.replace(&sample("12")).unwrap(),
        Method::Put,
        "_api/document/sample_data/12?waitForSync=true&silent=true",
        Envelope::Bare,
    );
    assert_call(
        &document.destroy(&sample("12")).unwrap(),
        Method::Delete,
        "_api/document/sample_data/12?waitForSync=true&returnNew=true",
        Envelope::Bare,
    );
    assert_call(
        &document.delete_many::<SampleData>().unwrap(),
        Method::Delete,
        "_api/document/sample_data?waitForSync=true",
        Envelope::Bare,
    );
    assert_call(
        &document.update_many::<SampleData>().unwrap(),
        Method::Patch,
        "_api/document/sample_data?waitForSync=true&silent=true",
        Envelope::Bare,
    );
    assert_call(
        &document.replace_many::<SampleData>().unwrap(),
        Method::Put,
        "_api/document/sample_data?waitForSync=true&silent=true",
        Envelope::Bare,
    );
}

#[test]
fn documents_of_wrapped_records_live_with_the_record() {
    let document: Document = Arango::new(&test_config());
    assert_call(
        &document.read::<Doc<SampleData>>("12"),
        Method::Get,
        "_api/document/sample_data/12",
        Envelope::Bare,
    );
    assert_call(
        &document.insert::<Edge<SampleData>>().unwrap(),
        Method::Post,
        "_api/document/sample_data?waitForSync=true&returnNew=true",
        Envelope::New,
    );
}

#[test]
fn reading_twice_asks_the_same() {
    let document: Document = Arango::new(&test_config());
    let first = document.client.dispatch(document.read::<SampleData>("12"), None).unwrap();
    let second = document.client.dispatch(document.read::<SampleData>("12"), None).unwrap();
    assert_eq!(first.method, Method::Get);
    assert_eq!(first.method, second.method);
    assert_eq!(first.url, second.url);
    assert_eq!(first.authorization, second.authorization);
    assert_eq!(first.body, "");
    assert_eq!(second.body, "");
}

#[test]
fn expiration_is_six_months_away() {
    assert_eq!(expiration_after(0), 15552000);
    assert_eq!(expiration_after(1697655582), 1697655582 + 15552000);
    assert_eq!(expiration_after(u64::MAX - 15552000), u64::MAX);
    assert_eq!(expiration_after(u64::MAX - 15551999), u64::MAX);
    assert_eq!(expiration_after(u64::MAX), u64::MAX);
}

#[test]
fn a_clock_before_the_epoch_gives_zero() {
    assert_eq!(timestamp_from(None), 0);
    assert_eq!(timestamp_from(Some(0)), 0);
    assert_eq!(timestamp_from(Some(1697655582)), 1697655582);
    assert_eq!(timestamp_from(Some(u64::MAX)), u64::MAX);
}

#[test]
fn the_default_expiration_lies_after_now() {
    let before = get_current_timestamp();
    let expiry = get_default_expiration();
    let after = get_current_timestamp();
    assert!(before > 1600000000);
    assert!(before + 15552000 <= expiry);
    assert!(expiry <= after + 15552000);
}

struct MyTestData {
    pub data: String,
}

impl Record for MyTestData {
    fn full_name() -> String {
        "document_tests::MyTestData".to_owned()
    }
}

#[test]
fn an_edge_is_built_from_its_parts() {
    assert_eq!(blandango::name::<MyTestData>(), "my_test_data");

    let data: &str = r#"
        {
            "_id": "collection/1",
            "_key": "1",
            "_rev": "1234",
            "_to": "collection_a/2",
            "_from": "collection_b/3",
            "data": "SOME_DATA"
        }
        "#;

    let value: serde_json::Value = serde_json::from_str(data).unwrap();
    let test_data: Edge<MyTestData> = Edge::new(
        value["_from"].as_str().unwrap().to_owned(),
        value["_to"].as_str().unwrap().to_owned(),
        MyTestData { data: value["data"].as_str().unwrap().to_owned() },
    );

    assert_eq!(test_data.link.to, "collection_a/2");
    assert_eq!(test_data.link.from, "collection_b/3");
    assert_eq!(test_data.record.data, "SOME_DATA");
}

struct Checked {
    name: String,
}

impl Validator for Checked {
    fn validate(&self) -> Result<(), ClientError> {
        if self.name.is_empty() {
            Err(ClientError::validation_error("name is empty".to_owned()))
        } else {
            Ok(())
        }
    }
}

#[test]
fn a_validator_reports_a_validation_error() {
    assert!(Checked { name: "widgets".to_owned() }.validate().is_ok());
    assert!(matches!(
        Checked { name: String::new() }.validate(),
        Err(ClientError::Validation(message)) if message == "name is empty"
    ));
}
