//! The endpoint router: from an operation and the names it concerns to the
//! path, and query string, of the URL that serves it.
//!
//! Every function here is a function of its arguments alone and performs no
//! I/O. Only writing parameters as a query string can fail.

use crate::api;
use crate::api::API;
use crate::error::{ClientError, Result};
use crate::params::{query_string, to_string, DocumentQueryParams, Pairs, Parameters};
use vstd::prelude::*;

verus! {

/// `head`, a slash, `tail`.
pub open spec fn below(head: Seq<char>, tail: Seq<char>) -> Seq<char> {
    head + "/"@ + tail
}

/// Whether `endpoint` is `path` followed by the query string of `pairs`, or
/// the failure to write them.
pub open spec fn is_path_with_params(endpoint: Result<String>, path: Seq<char>, pairs: Pairs) -> bool {
    match query_string(pairs) {
        Some(query) => endpoint is Ok && endpoint->Ok_0@ == path + "?"@ + query,
        None => endpoint is Err && endpoint->Err_0 is Params,
    }
}

/// The root of the collection interface.
pub open spec fn collection_root() -> Seq<char> {
    API::Collection(api::Collection::Base).segment()
}

/// The root of the database interface.
pub open spec fn database_root() -> Seq<char> {
    API::Database(api::Database::Base).segment()
}

/// The root of the document interface.
pub open spec fn document_root() -> Seq<char> {
    API::Document(api::Document::Base).segment()
}

/// The root of the index interface.
pub open spec fn index_root() -> Seq<char> {
    API::Index(api::Index::Base).segment()
}

/// The endpoint of the cursor `id`, or the one that creates a cursor.
pub open spec fn cursor_endpoint(id: Option<String>) -> Seq<char> {
    match id {
        Some(batch_id) => below(API::Query(api::Query::Cursor).segment(), batch_id@),
        None => API::Query(api::Query::Cursor).segment(),
    }
}

fn with_params<P: Parameters>(path: String, params: &P) -> (endpoint: Result<String>)
    ensures
        is_path_with_params(endpoint, path@, params.pairs()),
{
    match to_string(params) {
        Ok(encoded_params) => Ok(path.concat("?").concat(encoded_params.as_str())),
        Err(error) => Err(ClientError::from(error)),
    }
}

/// Endpoints of the collection interface.
pub trait CollectionRouter {
    fn base() -> (endpoint: String)
        ensures
            endpoint@ == collection_root(),
    ;

    fn base_collection(collection_name: &str) -> (endpoint: String)
        ensures
            endpoint@ == below(collection_root(), collection_name@),
    ;

    fn base_with_params<P: Parameters>(params: P) -> (endpoint: Result<String>)
        ensures
            is_path_with_params(endpoint, collection_root(), params.pairs()),
    ;

    fn extension(collection_name: &str, extension: API) -> (endpoint: String)
        ensures
            endpoint@ == below(below(collection_root(), collection_name@), extension.segment()),
    ;

    fn extension_with_params<P: Parameters>(collection_name: &str, endpoint: API, params: P) -> (path:
        Result<String>)
        ensures
            is_path_with_params(
                path,
                below(below(collection_root(), collection_name@), endpoint.segment()),
                params.pairs(),
            ),
    ;

    fn index(collection_name: &str) -> (endpoint: String)
        ensures
            endpoint@ == index_root() + "?collection="@ + collection_name@,
    ;
}

/// Endpoints of the database interface.
pub trait DatabaseRouter {
    fn base() -> (endpoint: String)
        ensures
            endpoint@ == database_root(),
    ;

    fn current() -> (endpoint: String)
        ensures
            endpoint@ == below(database_root(), api::Database::Current.segment()),
    ;

    fn user() -> (endpoint: String)
        ensures
            endpoint@ == below(database_root(), api::Database::User.segment()),
    ;
}

/// Endpoints of the document interface.
pub trait DocumentRouter {
    fn base(collection_name: &str) -> (endpoint: String)
        ensures
            endpoint@ == below(document_root(), collection_name@),
    ;

    fn base_with_params(collection_name: &str, params: DocumentQueryParams) -> (endpoint: Result<
        String,
    >)
        ensures
            is_path_with_params(
                endpoint,
                below(document_root(), collection_name@),
                params.pairs(),
            ),
    ;

    fn key(collection_name: &str, key: &str) -> (endpoint: String)
        ensures
            endpoint@ == below(below(document_root(), collection_name@), key@),
    ;

    fn key_with_params(collection_name: &str, key: &str, params: DocumentQueryParams) -> (endpoint:
        Result<String>)
        ensures
            is_path_with_params(
                endpoint,
                below(below(document_root(), collection_name@), key@),
                params.pairs(),
            ),
    ;
}

/// Endpoints of the query interface.
pub trait QueryRouter {
    fn cursor(id: &Option<String>) -> (endpoint: String)
        ensures
            endpoint@ == cursor_endpoint(*id),
    ;

    fn cache() -> (endpoint: String)
        ensures
            endpoint@ == api::Query::Cache.segment(),
    ;

    fn cache_entries() -> (endpoint: String)
        ensures
            endpoint@ == below(api::Query::Cache.segment(), api::Query::Entries.segment()),
    ;

    fn cache_properties() -> (endpoint: String)
        ensures
            endpoint@ == below(api::Query::Cache.segment(), api::Query::Properties.segment()),
    ;

    fn explain() -> (endpoint: String)
        ensures
            endpoint@ == api::Query::Explain.segment(),
    ;

    fn query() -> (endpoint: String)
        ensures
            endpoint@ == api::Query::Query.segment(),
    ;

    fn running() -> (endpoint: String)
        ensures
            endpoint@ == below(api::Query::Query.segment(), api::Query::Current.segment()),
    ;

    fn kill(query_id: &str) -> (endpoint: String)
        ensures
            endpoint@ == below(api::Query::Query.segment(), query_id@),
    ;

    fn slow() -> (endpoint: String)
        ensures
            endpoint@ == below(api::Query::Query.segment(), api::Query::Slow.segment()),
    ;
}

/// Endpoints of the index interface.
pub trait IndexRouter {
    /// The indexes of a collection.
    fn base_as_query(collection_name: &str) -> (endpoint: String)
        ensures
            endpoint@ == index_root() + "?collection="@ + collection_name@,
    ;

    /// One index, by its identifier.
    fn base_as_path(collection_name: &str) -> (endpoint: String)
        ensures
            endpoint@ == below(index_root(), collection_name@),
    ;
}

/// The router: it holds no state, and every endpoint is one of its functions.
#[derive(Clone, Copy, Debug)]
pub struct Router {}

impl CollectionRouter for Router {
    fn base() -> (endpoint: String)
    {
        String::from(API::Collection(api::Collection::Base))
    }

    fn base_collection(collection_name: &str) -> (endpoint: String)
    {
        String::from(API::Collection(api::Collection::Base)).concat("/").concat(collection_name)
    }

    fn base_with_params<P: Parameters>(params: P) -> (endpoint: Result<String>)
    {
        with_params(String::from(API::Collection(api::Collection::Base)), &params)
    }

    fn extension(collection_name: &str, extension: API) -> (endpoint: String)
    {
        String::from(API::Collection(api::Collection::Base)).concat("/").concat(
            collection_name,
        ).concat("/").concat(String::from(extension).as_str())
    }

    fn extension_with_params<P: Parameters>(collection_name: &str, endpoint: API, params: P) -> (path:
        Result<String>)
    {
        with_params(
            String::from(API::Collection(api::Collection::Base)).concat("/").concat(
                collection_name,
            ).concat("/").concat(String::from(endpoint).as_str()),
            &params,
        )
    }

    fn index(collection_name: &str) -> (endpoint: String)
    {
        String::from(API::Index(api::Index::Base)).concat("?collection=").concat(collection_name)
    }
}

impl DatabaseRouter for Router {
    fn base() -> (endpoint: String)
    {
        String::from(API::Database(api::Database::Base))
    }

    fn current() -> (endpoint: String)
    {
        String::from(API::Database(api::Database::Base)).concat("/").concat(
            String::from(API::Database(api::Database::Current)).as_str(),
        )
    }

    fn user() -> (endpoint: String)
    {
        String::from(API::Database(api::Database::Base)).concat("/").concat(
            String::from(API::Database(api::Database::User)).as_str(),
        )
    }
}

impl DocumentRouter for Router {
    fn base(collection_name: &str) -> (endpoint: String)
    {
        String::from(API::Document(api::Document::Base)).concat("/").concat(collection_name)
    }

    fn base_with_params(collection_name: &str, params: DocumentQueryParams) -> (endpoint: Result<
        String,
    >)
    {
        with_params(
            String::from(API::Document(api::Document::Base)).concat("/").concat(collection_name),
            &params,
        )
    }

    fn key(collection_name: &str, key: &str) -> (endpoint: String)
    {
        String::from(API::Document(api::Document::Base)).concat("/").concat(
            collection_name,
        ).concat("/").concat(key)
    }

    fn key_with_params(collection_name: &str, key: &str, params: DocumentQueryParams) -> (endpoint:
        Result<String>)
    {
        with_params(
            String::from(API::Document(api::Document::Base)).concat("/").concat(
                collection_name,
            ).concat("/").concat(key),
            &params,
        )
    }
}

impl QueryRouter for Router {
    fn cursor(id: &Option<String>) -> (endpoint: String)
    {
        match id {
            Some(batch_id) => {
                String::from(API::Query(api::Query::Cursor)).concat("/").concat(batch_id.as_str())
            },
            None => { String::from(API::Query(api::Query::Cursor)) },
        }
    }

    fn cache() -> (endpoint: String)
    {
        String::from(API::Query(api::Query::Cache))
    }

    fn cache_entries() -> (endpoint: String)
    {
        String::from(API::Query(api::Query::Cache)).concat("/").concat(
            String::from(API::Query(api::Query::Entries)).as_str(),
        )
    }

    fn cache_properties() -> (endpoint: String)
    {
        String::from(API::Query(api::Query::Cache)).concat("/").concat(
            String::from(API::Query(api::Query::Properties)).as_str(),
        )
    }

    fn explain() -> (endpoint: String)
    {
        String::from(API::Query(api::Query::Explain))
    }

    fn query() -> (endpoint: String)
    {
        String::from(API::Query(api::Query::Query))
    }

    fn running() -> (endpoint: String)
    {
        String::from(API::Query(api::Query::Query)).concat("/").concat(
            String::from(API::Query(api::Query::Current)).as_str(),
        )
    }

    fn kill(query_id: &str) -> (endpoint: String)
    {
        String::from(API::Query(api::Query::Query)).concat("/").concat(query_id)
    }

    fn slow() -> (endpoint: String)
    {
        String::from(API::Query(api::Query::Query)).concat("/").concat(
            String::from(API::Query(api::Query::Slow)).as_str(),
        )
    }
}

impl IndexRouter for Router {
    fn base_as_query(collection_name: &str) -> (endpoint: String)
    {
        String::from(API::Index(api::Index::Base)).concat("?collection=").concat(collection_name)
    }

    fn base_as_path(collection_name: &str) -> (endpoint: String)
    {
        String::from(API::Index(api::Index::Base)).concat("/").concat(collection_name)
    }
}

} // verus!
