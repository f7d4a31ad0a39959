use blandango::api;
use blandango::api::API;
use blandango::{
    ClientError, CollectionQueryParams, CollectionRouter, DatabaseRouter, DocumentQueryParams,
    DocumentRouter, EdgeQueryParams, IndexRouter, Parameters, QueryRouter, Router,
};

fn all_collection_operations() -> Vec<(api::Collection, &'static str)> {
    vec![
        (api::Collection::Base, "_api/collection"),
        (api::Collection::Properties, "properties"),
        (api::Collection::Count, "count"),
        (api::Collection::Figures, "figures"),
        (api::Collection::ResponsibleShard, "responsibleShard"),
        (api::Collection::Shards, "shards"),
        (api::Collection::Revision, "revision"),
        (api::Collection::Checksum, "checksum"),
        (api::Collection::Truncate, "truncate"),
        (api::Collection::LoadIndexIntoMemory, "loadIndexesIntoMemory"),
        (api::Collection::Rename, "rename"),
        (api::Collection::RecalculateCount, "recalculateCount"),
        (api::Collection::Compact, "compact"),
    ]
}

#[test]
fn vocabulary_of_collections() {
    for (operation, text) in all_collection_operations() {
        assert_eq!(String::from(API::Collection(operation)), text);
    }
}

#[test]
fn vocabulary_of_the_other_interfaces() {
    assert_eq!(String::from(API::Index(api::Index::Base)), "_api/index");
    assert_eq!(String::from(API::Document(api::Document::Base)), "_api/document");
    assert_eq!(String::from(API::Database(api::Database::Base)), "_api/database");
    assert_eq!(String::from(API::Database(api::Database::Current)), "current");
    assert_eq!(String::from(API::Database(api::Database::User)), "user");
    assert_eq!(String::from(API::Graph(api::Graph::Base)), "_api/gharial");
    assert_eq!(String::from(API::Graph(api::Graph::Edge)), "edge");
    assert_eq!(String::from(API::Query(api::Query::Function)), "_api/aqlfunction");
    assert_eq!(String::from(API::Query(api::Query::Cursor)), "_api/cursor");
    assert_eq!(String::from(API::Query(api::Query::Explain)), "_api/explain");
    assert_eq!(String::from(API::Query(api::Query::Query)), "_api/query");
    assert_eq!(String::from(API::Query(api::Query::Cache)), "_api/query-cache");
    assert_eq!(String::from(API::Query(api::Query::Entries)), "entries");
    assert_eq!(String::from(API::Query(api::Query::Properties)), "properties");
    assert_eq!(String::from(API::Query(api::Query::Current)), "current");
    assert_eq!(String::from(API::Query(api::Query::Rules)), "rules");
    assert_eq!(String::from(API::Query(api::Query::Slow)), "slow");
}

#[test]
fn collection_extension() {
    assert_eq!(
        Router::extension("widgets", API::Collection(api::Collection::Properties)),
        "_api/collection/widgets/properties"
    );
    for (operation, text) in all_collection_operations() {
        assert_eq!(
            Router::extension("widgets", API::Collection(operation)),
            format!("_api/collection/widgets/{}", text)
        );
    }
}

#[test]
fn collection_roots() {
    assert_eq!(<Router as CollectionRouter>::base(), "_api/collection");
    assert_eq!(Router::base_collection("widgets"), "_api/collection/widgets");
    assert_eq!(Router::base_collection(""), "_api/collection/");
    assert_eq!(Router::index("widgets"), "_api/index?collection=widgets");
}

#[test]
fn collection_with_params() {
    assert_eq!(
        <Router as CollectionRouter>::base_with_params(CollectionQueryParams::default()).unwrap(),
        "_api/collection?waitForSyncReplication=true&enforceReplicationFactor=false"
    );
    assert_eq!(
        <Router as CollectionRouter>::base_with_params(CollectionQueryParams {
            wait_for_sync_replication: None,
            enforce_replication_factor: None,
        })
        .unwrap(),
        "_api/collection?"
    );
    assert_eq!(
        Router::extension_with_params(
            "widgets",
            API::Collection(api::Collection::Truncate),
            CollectionQueryParams {
                wait_for_sync_replication: None,
                enforce_replication_factor: Some(true),
            }
        )
        .unwrap(),
        "_api/collection/widgets/truncate?enforceReplicationFactor=true"
    );
}

#[test]
fn cursor_endpoints() {
    assert_eq!(Router::cursor(&None), "_api/cursor");
    assert_eq!(Router::cursor(&Some("42".to_owned())), "_api/cursor/42");
}

#[test]
fn query_endpoints() {
    assert_eq!(Router::cache(), "_api/query-cache");
    assert_eq!(Router::cache_entries(), "_api/query-cache/entries");
    assert_eq!(Router::cache_properties(), "_api/query-cache/properties");
    assert_eq!(Router::explain(), "_api/explain");
    assert_eq!(Router::query(), "_api/query");
    assert_eq!(Router::running(), "_api/query/current");
    assert_eq!(Router::kill("77"), "_api/query/77");
    assert_eq!(Router::slow(), "_api/query/slow");
}

#[test]
fn database_endpoints() {
    assert_eq!(<Router as DatabaseRouter>::base(), "_api/database");
    assert_eq!(Router::current(), "_api/database/current");
    assert_eq!(Router::user(), "_api/database/user");
}

#[test]
fn index_endpoints() {
    assert_eq!(Router::base_as_query("widgets"), "_api/index?collection=widgets");
    assert_eq!(Router::base_as_path("widgets/12"), "_api/index/widgets/12");
}

#[test]
fn document_endpoints() {
    assert_eq!(<Router as DocumentRouter>::base("widgets"), "_api/document/widgets");
    assert_eq!(Router::key("widgets", "12"), "_api/document/widgets/12");
}

#[test]
fn document_default_params() {
    assert_eq!(
        <Router as DocumentRouter>::base_with_params("widgets", DocumentQueryParams::default())
            .unwrap(),
        "_api/document/widgets?waitForSync=true&returnNew=true"
    );
    assert_eq!(
        Router::key_with_params("widgets", "12", DocumentQueryParams::default()).unwrap(),
        "_api/document/widgets/12?waitForSync=true&returnNew=true"
    );
}

fn every_param() -> DocumentQueryParams {
    DocumentQueryParams {
        wait_for_sync: false,
        return_new: Some(false),
        return_old: Some(true),
        silent: Some(false),
        overwrite: Some(true),
        overwrite_method: Some("replace".to_owned()),
        keep_null: Some(true),
        merge_objects: Some(false),
        refill_index_cache: Some(true),
        ignore_revs: Some(false),
    }
}

#[test]
fn params_keep_the_order_of_their_declaration() {
    assert_eq!(
        Router::key_with_params("c", "k", every_param()).unwrap(),
        "_api/document/c/k?waitForSync=false&returnNew=false&returnOld=true&silent=false\
         &overwrite=true&overwriteMode=replace&keepNull=true&mergeObjects=false\
         &refillIndexCaches=true&ignoreRevs=false"
    );
}

#[test]
fn params_that_are_unset_are_left_out() {
    let mut params = every_param();
    params.return_new = None;
    params.overwrite = None;
    params.overwrite_method = None;
    params.ignore_revs = None;
    assert_eq!(
        blandango::params::to_string(&params).unwrap(),
        "waitForSync=false&returnOld=true&silent=false&keepNull=true&mergeObjects=false\
         &refillIndexCaches=true"
    );
}

#[test]
fn param_values_are_percent_encoded() {
    let mut params = DocumentQueryParams::default();
    params.return_new = None;
    params.overwrite_method = Some("a b&c=d/é".to_owned());
    assert_eq!(
        blandango::params::to_string(&params).unwrap(),
        "waitForSync=true&overwriteMode=a+b%26c%3Dd%2F%C3%A9"
    );
}

#[test]
fn every_overwrite_mode_is_written_as_it_is() {
    for mode in ["ignore", "replace", "update", "conflict"] {
        let mut params = DocumentQueryParams::default();
        params.overwrite_method = Some(mode.to_owned());
        assert_eq!(
            blandango::params::to_string(&params).unwrap(),
            format!("waitForSync=true&returnNew=true&overwriteMode={}", mode)
        );
    }
}

#[test]
fn edge_params() {
    assert_eq!(blandango::params::to_string(&EdgeQueryParams::default()).unwrap(), "vertex=");
    let params =
        EdgeQueryParams { vertex: "people/1".to_owned(), direction: Some("in".to_owned()) };
    assert_eq!(blandango::params::to_string(&params).unwrap(), "vertex=people%2F1&direction=in");
    let pairs = params.to_pairs();
    assert_eq!(
        pairs,
        vec![
            ("vertex".to_owned(), "people/1".to_owned()),
            ("direction".to_owned(), "in".to_owned())
        ]
    );
}

#[test]
fn pairs_of_document_params() {
    let pairs = DocumentQueryParams::default().to_pairs();
    assert_eq!(
        pairs,
        vec![
            ("waitForSync".to_owned(), "true".to_owned()),
            ("returnNew".to_owned(), "true".to_owned())
        ]
    );
}

#[test]
fn routes_are_repeatable() {
    for _ in 0..3 {
        assert_eq!(
            Router::extension("widgets", API::Collection(api::Collection::Properties)),
            "_api/collection/widgets/properties"
        );
        assert_eq!(Router::cursor(&None), "_api/cursor");
        assert_eq!(Router::cursor(&Some("42".to_owned())), "_api/cursor/42");
    }
}

#[test]
fn a_params_error_becomes_a_client_error() {
    let failure = serde_url_params::to_string(&5).unwrap_err();
    assert!(matches!(ClientError::from(failure), ClientError::Params(_)));
}

#[test]
fn written_parameters_are_joined_by_ampersands() {
    assert_eq!(blandango::params::join(&vec![]), "");
    assert_eq!(blandango::params::join(&vec!["a=1".to_owned()]), "a=1");
    assert_eq!(blandango::params::join(&vec!["a=1".to_owned(), "b=2".to_owned()]), "a=1&b=2");
    assert_eq!(
        blandango::params::join(&vec!["b=2".to_owned(), "a=1".to_owned(), "c=".to_owned()]),
        "b=2&a=1&c="
    );
    assert_eq!(blandango::params::join(&vec![String::new(), String::new()]), "&");
}
