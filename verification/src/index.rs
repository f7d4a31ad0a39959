//! Secondary indexes of a collection.

use crate::client::{Call, CallView, Client, Config, Envelope, Method};
use crate::router::{below, index_root, IndexRouter, Router};
use crate::Arango;
use vstd::prelude::*;

verus! {

/// The description of an index that is about to be created.
#[derive(Debug)]
pub struct NewIdx {
    pub collection: String,
    pub name: String,
    /// One of `fulltext`, `geo`, `persistent`, `ttl`, `zkd`.
    pub kind: String,
    pub fields: Vec<String>,
    pub in_background: bool,
    pub unique: Option<bool>,
    pub min_length: Option<u8>,
    pub geo_json: Option<bool>,
    pub stored_values: Option<Vec<String>>,
    pub sparse: Option<bool>,
    pub deduplicate: Option<bool>,
    pub estimates: Option<bool>,
    pub cache_enabled: Option<bool>,
    pub expires_after: Option<u64>,
    /// `double` is the only value the server knows.
    pub field_value_types: Option<String>,
}

impl Default for NewIdx {
    /// A persistent index over no field of no collection, built in the
    /// foreground, with every option left to the server.
    fn default() -> (index: Self)
        ensures
            index.collection@ == Seq::<char>::empty(),
            index.name@ == Seq::<char>::empty(),
            index.kind@ == "persistent"@,
            index.fields@ == Seq::<String>::empty(),
            !index.in_background,
            index.unique is None,
            index.min_length is None,
            index.geo_json is None,
            index.stored_values is None,
            index.sparse is None,
            index.deduplicate is None,
            index.estimates is None,
            index.cache_enabled is None,
            index.expires_after is None,
            index.field_value_types is None,
    {
        Self {
            collection: String::new(),
            name: String::new(),
            kind: "persistent".to_owned(),
            fields: Vec::new(),
            unique: None,
            sparse: None,
            deduplicate: None,
            estimates: None,
            cache_enabled: None,
            geo_json: None,
            min_length: None,
            stored_values: None,
            expires_after: None,
            field_value_types: None,
            in_background: false,
        }
    }
}

#[derive(Debug)]
pub struct Idx {
    pub fields: Vec<String>,
    pub id: String,
    pub name: String,
    pub kind: String,
    pub selectivity_estimate: Option<u32>,
    pub unique: Option<bool>,
    pub min_length: Option<u8>,
    pub geo_json: Option<bool>,
    pub stored_values: Option<String>,
    pub sparse: Option<bool>,
    pub deduplicate: Option<bool>,
    pub estimates: Option<bool>,
    pub cache_enabled: Option<bool>,
    pub expires_after: Option<u64>,
    pub field_value_types: Option<String>,
}

#[derive(Debug)]
pub struct IndexesResponse {
    pub error: bool,
    pub code: u32,
    pub indexes: Vec<Idx>,
}

#[derive(Debug)]
pub struct IndexResponse {
    pub error: bool,
    pub code: u32,
    pub fields: Vec<String>,
    pub id: String,
    pub name: String,
    pub kind: String,
    pub selectivity_estimate: Option<u32>,
    pub unique: Option<bool>,
    pub min_length: Option<u8>,
    pub geo_json: Option<bool>,
    pub stored_values: Option<String>,
    pub sparse: Option<bool>,
    pub deduplicate: Option<bool>,
    pub estimates: Option<bool>,
    pub cache_enabled: Option<bool>,
    pub expires_after: Option<u64>,
    pub field_value_types: Option<String>,
    pub is_newly_created: Option<bool>,
}

/// The operations on the indexes of a database.
pub struct Index {
    pub client: Client,
}

impl Arango for Index {
    open spec fn transport(&self) -> Client {
        self.client
    }

    fn new(config: &Config) -> (facade: Self) {
        Self { client: Client::new(config) }
    }
}

impl Index {
    /// Reads all indexes of a collection. The reply is an
    /// `IndexesResponse`.
    pub fn read(&self, collection_name: &str) -> (call: Call)
        ensures
            call@ == (CallView {
                method: Method::Get,
                endpoint: index_root() + "?collection="@ + collection_name@,
                envelope: Envelope::Bare,
            }),
    {
        Call {
            method: Method::Get,
            endpoint: Router::base_as_query(collection_name),
            envelope: Envelope::Bare,
        }
    }

    /// Reads one index.
    pub fn get(&self, id: &str) -> (call: Call)
        ensures
            call@ == (CallView {
                method: Method::Get,
                endpoint: below(index_root(), id@),
                envelope: Envelope::Bare,
            }),
    {
        Call { method: Method::Get, endpoint: Router::base_as_path(id), envelope: Envelope::Bare }
    }

    /// Creates the index that the body describes, on the collection it
    /// names.
    pub fn create(&self, new_index: &NewIdx) -> (call: Call)
        ensures
            call@ == (CallView {
                method: Method::Post,
                endpoint: index_root() + "?collection="@ + new_index.collection@,
                envelope: Envelope::Bare,
            }),
    {
        Call {
            method: Method::Post,
            endpoint: Router::base_as_query(new_index.collection.as_str()),
            envelope: Envelope::Bare,
        }
    }

    /// Deletes an index.
    pub fn delete(&self, id: &str) -> (call: Call)
        ensures
            call@ == (CallView {
                method: Method::Delete,
                endpoint: below(index_root(), id@),
                envelope: Envelope::Bare,
            }),
    {
        Call {
            method: Method::Delete,
            endpoint: Router::base_as_path(id),
            envelope: Envelope::Bare,
        }
    }
}

} // verus!
