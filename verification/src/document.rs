//! Documents and edges: a record of the caller's together with what the
//! database adds to it, and the calls that store, fetch and remove them.

use crate::client::{Call, CallView, Client, Config, Envelope, Method};
use crate::error::{ClientError, Result};
use crate::model::{ArangoEdgeKeys, ArangoKeys};
use crate::naming::{
    collection_of, is_type_name, is_wrapper, last_segment_start, lemma_before,
    lemma_last_segment_reads_on, lemma_wrapper_is_transparent, name, Record,
};
use crate::params::{query_string, DocumentQueryParams, Pairs, Parameters};
use crate::router::{below, document_root, DocumentRouter, Router};
use crate::Arango;
use vstd::prelude::*;

verus! {

/// The snapshots of a document that a write hands back: the document after
/// the write and the one before it, each only where it was asked for.
#[derive(Debug)]
pub struct DocumentResponse<D> {
    pub new: Option<D>,
    pub old: Option<D>,
}

/// What the error says when a reply lacks the document after the write.
pub const NO_NEW_SNAPSHOT: &'static str = "the reply holds no new document";

/// What the error says when a reply lacks the document before the write.
pub const NO_OLD_SNAPSHOT: &'static str = "the reply holds no old document";

impl<D> DocumentResponse<D> {
    /// The document after the write. Its absence is an insertion error: no
    /// document is made up in its place.
    pub fn into_new(self) -> (document: Result<D>)
        ensures
            match self.new {
                Some(new) => document == Ok::<D, ClientError>(new),
                None => document matches Err(ClientError::Insertion(message)) && message@
                    == NO_NEW_SNAPSHOT@,
            },
    {
        match self.new {
            Some(new) => Ok(new),
            None => Err(ClientError::insertion_error(NO_NEW_SNAPSHOT.to_owned())),
        }
    }

    /// The document before the write. Its absence is an insertion error.
    pub fn into_old(self) -> (document: Result<D>)
        ensures
            match self.old {
                Some(old) => document == Ok::<D, ClientError>(old),
                None => document matches Err(ClientError::Insertion(message)) && message@
                    == NO_OLD_SNAPSHOT@,
            },
    {
        match self.old {
            Some(old) => Ok(old),
            None => Err(ClientError::insertion_error(NO_OLD_SNAPSHOT.to_owned())),
        }
    }
}

/// A record as the database holds it: its identity, the record itself, and
/// the times, in milliseconds since the epoch, of its creation and of its
/// last change.
#[derive(Debug)]
pub struct Doc<R> where R: Sized + Sync + Send {
    pub keys: ArangoKeys,
    pub record: R,
    pub modified_on: u64,
    pub created_on: u64,
}

impl<R> Doc<R> where R: Record + Sync + Send {
    /// The collection of the record.
    pub fn name(&self) -> (collection: String)
        ensures
            collection@ == collection_of(R::declared()),
            is_type_name(R::declared()),
    {
        name::<R>()
    }
}

/// The name of the type of the documents of a record called `record`.
pub open spec fn doc_of(record: Seq<char>) -> Seq<char> {
    "blandango::document::Doc"@ + "<"@ + record + ">"@
}

/// The name of the type of the edges of a record called `record`.
pub open spec fn edge_of(record: Seq<char>) -> Seq<char> {
    "blandango::document::Edge"@ + "<"@ + record + ">"@
}

impl<R> Record for Doc<R> where R: Record + Sync + Send {
    open spec fn declared() -> Seq<char> {
        doc_of(R::declared())
    }

    fn full_name() -> (full_name: String) {
        let record = R::full_name();
        proof {
            lemma_wrapped_name_is_a_type_name(record@);
        }
        String::from_str("blandango::document::Doc").concat("<").concat(record.as_str()).concat(">")
    }
}

/// A record that links two documents.
#[derive(Debug)]
pub struct Edge<R> where R: Sized + Sync + Send {
    pub link: ArangoEdgeKeys,
    pub record: R,
}

impl<R> Edge<R> where R: Sized + Sync + Send {
    pub fn new(from: String, to: String, record: R) -> (edge: Self)
        ensures
            edge.link.from == from,
            edge.link.to == to,
            edge.record == record,
    {
        Self { link: ArangoEdgeKeys { to, from }, record }
    }
}

impl<R> Record for Edge<R> where R: Record + Sync + Send {
    open spec fn declared() -> Seq<char> {
        edge_of(R::declared())
    }

    fn full_name() -> (full_name: String) {
        let record = R::full_name();
        proof {
            lemma_wrapped_name_is_a_type_name(record@);
        }
        String::from_str("blandango::document::Edge").concat("<").concat(record.as_str()).concat(
            ">",
        )
    }
}

/// The names of the two wrappers are names of wrappers, whatever their
/// path, and hold neither `<` nor a line feed.
proof fn lemma_wrapper_names()
    ensures
        is_wrapper("blandango::document::Doc"@),
        is_wrapper("blandango::document::Edge"@),
        forall|k: int|
            0 <= k < "blandango::document::Doc"@.len() ==> "blandango::document::Doc"@[k] != '<'
                && "blandango::document::Doc"@[k] != '\n',
        forall|k: int|
            0 <= k < "blandango::document::Edge"@.len() ==> "blandango::document::Edge"@[k]
                != '<' && "blandango::document::Edge"@[k] != '\n',
{
    reveal_strlit("blandango::document::Doc");
    reveal_strlit("blandango::document::Edge");
    reveal_strlit("Doc");
    reveal_strlit("Edge");
    let doc = "blandango::document::Doc"@;
    let edge = "blandango::document::Edge"@;
    lemma_before(doc, '<', 24);
    assert(doc.take(24) =~= doc);
    lemma_last_segment_reads_on(doc, 0, 0, 9);
    assert(last_segment_start(doc, 0, 9) == last_segment_start(doc, 11, 11));
    lemma_last_segment_reads_on(doc, 11, 11, 19);
    assert(last_segment_start(doc, 11, 19) == last_segment_start(doc, 21, 21));
    lemma_last_segment_reads_on(doc, 21, 21, 24);
    assert(last_segment_start(doc, 21, 24) == 21);
    assert(doc.skip(21) =~= "Doc"@);
    lemma_before(edge, '<', 25);
    assert(edge.take(25) =~= edge);
    lemma_last_segment_reads_on(edge, 0, 0, 9);
    assert(last_segment_start(edge, 0, 9) == last_segment_start(edge, 11, 11));
    lemma_last_segment_reads_on(edge, 11, 11, 19);
    assert(last_segment_start(edge, 11, 19) == last_segment_start(edge, 21, 21));
    lemma_last_segment_reads_on(edge, 21, 21, 25);
    assert(last_segment_start(edge, 21, 25) == 21);
    assert(edge.skip(21) =~= "Edge"@);
}

/// The name of the documents of a record, and that of its edges, is the name
/// of a type where the record's is.
proof fn lemma_wrapped_name_is_a_type_name(record: Seq<char>)
    requires
        is_type_name(record),
    ensures
        is_type_name(doc_of(record)),
        is_type_name(edge_of(record)),
{
    lemma_wrapper_names();
    reveal_strlit("<");
    reveal_strlit(">");
}

/// A document of a record, an edge of it and the record itself all belong
/// to one collection: that of the record's name.
pub proof fn lemma_wrappers_share_the_collection(record: Seq<char>)
    requires
        is_type_name(record),
    ensures
        collection_of(doc_of(record)) == collection_of(record),
        collection_of(edge_of(record)) == collection_of(record),
{
    lemma_wrapper_names();
    lemma_wrapper_is_transparent("blandango::document::Doc"@, record);
    lemma_wrapper_is_transparent("blandango::document::Edge"@, record);
}

/// The documents of `R`, the edges of `R` and `R` itself all belong to the
/// collection of `R`, and so do the documents and edges of those.
pub proof fn lemma_wrapped_records_share_the_collection<R: Record + Sync + Send>()
    requires
        is_type_name(R::declared()),
    ensures
        collection_of(Doc::<R>::declared()) == collection_of(R::declared()),
        collection_of(Edge::<R>::declared()) == collection_of(R::declared()),
        is_type_name(Doc::<R>::declared()),
        is_type_name(Edge::<R>::declared()),
{
    lemma_wrappers_share_the_collection(R::declared());
    lemma_wrapped_name_is_a_type_name(R::declared());
}

/// Whether `call` is the call of `method` on `path` with the query string of
/// `pairs`, or the failure to write them.
pub open spec fn is_call_with_params(
    call: Result<Call>,
    method: Method,
    path: Seq<char>,
    pairs: Pairs,
    envelope: Envelope,
) -> bool {
    match query_string(pairs) {
        Some(query) => call is Ok && call->Ok_0@ == (CallView {
            method,
            endpoint: path + "?"@ + query,
            envelope,
        }),
        None => call is Err && call->Err_0 is Params,
    }
}

/// The parameters of a write that waits for the disk and hands nothing
/// back.
pub open spec fn silent_params() -> DocumentQueryParams {
    DocumentQueryParams {
        wait_for_sync: true,
        return_new: None,
        return_old: None,
        silent: Some(true),
        overwrite: None,
        overwrite_method: None,
        keep_null: None,
        merge_objects: None,
        refill_index_cache: None,
        ignore_revs: None,
    }
}

/// The parameters of a write that waits for the disk and hands back the
/// document as `new` and `old` say.
pub open spec fn returning_params(new: Option<bool>, old: Option<bool>) -> DocumentQueryParams {
    DocumentQueryParams {
        wait_for_sync: true,
        return_new: new,
        return_old: old,
        silent: None,
        overwrite: None,
        overwrite_method: None,
        keep_null: None,
        merge_objects: None,
        refill_index_cache: None,
        ignore_revs: None,
    }
}

/// The path of the documents of the collection of `R`.
pub open spec fn documents_of<R: Record>() -> Seq<char> {
    below(document_root(), collection_of(R::declared()))
}

/// The operations on the documents of a database.
pub struct Document {
    pub client: Client,
}

impl Arango for Document {
    open spec fn transport(&self) -> Client {
        self.client
    }

    fn new(config: &Config) -> (facade: Self) {
        Self { client: Client::new(config) }
    }
}

impl Document {
    /// Stores the record in the body. The reply holds the new document.
    pub fn insert<R: Record>(&self) -> (call: Result<Call>)
        ensures
            is_call_with_params(
                call,
                Method::Post,
                documents_of::<R>(),
                returning_params(Some(true), None).pairs(),
                Envelope::New,
            ),
    {
        let collection = name::<R>();
        let endpoint = Router::base_with_params(collection.as_str(), DocumentQueryParams::default());
        Call::to(Method::Post, endpoint, Envelope::New)
    }

    /// Stores the records in the body. The reply holds their identities.
    pub fn insert_many<R: Record>(&self) -> (call: Call)
        ensures
            call@ == (CallView {
                method: Method::Post,
                endpoint: documents_of::<R>() + "#multiple"@,
                envelope: Envelope::Bare,
            }),
    {
        let collection = name::<R>();
        Call { method: Method::Post, endpoint: <Router as DocumentRouter>::base(collection.as_str()).concat("#multiple"), envelope: Envelope::Bare }
    }

    /// Reads a document by key.
    pub fn read<R: Record>(&self, key: &str) -> (call: Call)
        ensures
            call@ == (CallView {
                method: Method::Get,
                endpoint: below(documents_of::<R>(), key@),
                envelope: Envelope::Bare,
            }),
    {
        let collection = name::<R>();
        Call { method: Method::Get, endpoint: Router::key(collection.as_str(), key), envelope: Envelope::Bare }
    }

    /// Reads the documents whose keys the body lists.
    pub fn read_many<R: Record>(&self) -> (call: Call)
        ensures
            call@ == (CallView {
                method: Method::Put,
                endpoint: documents_of::<R>(),
                envelope: Envelope::Bare,
            }),
    {
        let collection = name::<R>();
        Call { method: Method::Put, endpoint: <Router as DocumentRouter>::base(collection.as_str()), envelope: Envelope::Bare }
    }

    /// Asks whether a document exists, without reading it.
    pub fn read_header<R: Record>(&self, key: &str) -> (call: Call)
        ensures
            call@ == (CallView {
                method: Method::Head,
                endpoint: below(documents_of::<R>(), key@),
                envelope: Envelope::Bare,
            }),
    {
        let collection = name::<R>();
        Call { method: Method::Head, endpoint: Router::key(collection.as_str(), key), envelope: Envelope::Bare }
    }

    /// Deletes a document by key. The reply holds the document as it was.
    pub fn delete<R: Record>(&self, key: &str) -> (call: Result<Call>)
        ensures
            is_call_with_params(
                call,
                Method::Delete,
                below(documents_of::<R>(), key@),
                returning_params(None, Some(true)).pairs(),
                Envelope::Old,
            ),
    {
        let collection = name::<R>();
        let mut params: DocumentQueryParams = DocumentQueryParams::default();
        params.return_old = Some(true);
        params.return_new = None;
        let endpoint = Router::key_with_params(collection.as_str(), key, params);
        Call::to(Method::Delete, endpoint, Envelope::Old)
    }

    /// Changes the fields of a document that the body names.
    pub fn update<R: Record + Sync + Send>(&self, doc: &Doc<R>) -> (call: Result<Call>)
        ensures
            is_call_with_params(
                call,
                Method::Patch,
                below(documents_of::<R>(), doc.keys.key@),
                silent_params().pairs(),
                Envelope::Bare,
            ),
    {
        let collection = name::<R>();
        let mut params: DocumentQueryParams = DocumentQueryParams::default();
        params.silent = Some(true);
        params.return_new = None;
        let endpoint = Router::key_with_params(collection.as_str(), doc.keys.key.as_str(), params);
        Call::to(Method::Patch, endpoint, Envelope::Bare)
    }

    /// Puts the body in the place of a document.
    pub fn replace<R: Record + Sync + Send>(&self, doc: &Doc<R>) -> (call: Result<Call>)
        ensures
            is_call_with_params(
                call,
                Method::Put,
                below(documents_of::<R>(), doc.keys.key@),
                silent_params().pairs(),
                Envelope::Bare,
            ),
    {
        let collection = name::<R>();
        let mut params: DocumentQueryParams = DocumentQueryParams::default();
        params.silent = Some(true);
        params.return_new = None;
        let endpoint = Router::key_with_params(collection.as_str(), doc.keys.key.as_str(), params);
        Call::to(Method::Put, endpoint, Envelope::Bare)
    }

    /// Deletes a document that is at hand. The reply is not read.
    pub fn destroy<R: Record + Sync + Send>(&self, doc: &Doc<R>) -> (call: Result<Call>)
        ensures
            is_call_with_params(
                call,
                Method::Delete,
                below(documents_of::<R>(), doc.keys.key@),
                returning_params(Some(true), None).pairs(),
                Envelope::Bare,
            ),
    {
        let collection = name::<R>();
        let endpoint = Router::key_with_params(
            collection.as_str(),
            doc.keys.key.as_str(),
            DocumentQueryParams::default(),
        );
        Call::to(Method::Delete, endpoint, Envelope::Bare)
    }

    /// Deletes the documents whose keys the body lists. The reply mixes
    /// identities and failures, one per key, and is not read.
    pub fn delete_many<R: Record>(&self) -> (call: Result<Call>)
        ensures
            is_call_with_params(
                call,
                Method::Delete,
                documents_of::<R>(),
                returning_params(None, None).pairs(),
                Envelope::Bare,
            ),
    {
        let collection = name::<R>();
        let mut params: DocumentQueryParams = DocumentQueryParams::default();
        params.return_old = None;
        params.return_new = None;
        let endpoint = Router::base_with_params(collection.as_str(), params);
        Call::to(Method::Delete, endpoint, Envelope::Bare)
    }

    /// Changes the documents that the body lists.
    pub fn update_many<R: Record>(&self) -> (call: Result<Call>)
        ensures
            is_call_with_params(
                call,
                Method::Patch,
                documents_of::<R>(),
                silent_params().pairs(),
                Envelope::Bare,
            ),
    {
        let collection = name::<R>();
        let mut params: DocumentQueryParams = DocumentQueryParams::default();
        params.silent = Some(true);
        params.return_new = None;
        let endpoint = Router::base_with_params(collection.as_str(), params);
        Call::to(Method::Patch, endpoint, Envelope::Bare)
    }

    /// Replaces the documents that the body lists.
    pub fn replace_many<R: Record>(&self) -> (call: Result<Call>)
        ensures
            is_call_with_params(
                call,
                Method::Put,
                documents_of::<R>(),
                silent_params().pairs(),
                Envelope::Bare,
            ),
    {
        let collection = name::<R>();
        let mut params: DocumentQueryParams = DocumentQueryParams::default();
        params.silent = Some(true);
        params.return_new = None;
        let endpoint = Router::base_with_params(collection.as_str(), params);
        Call::to(Method::Put, endpoint, Envelope::Bare)
    }
}

} // verus!
