//! Collections: the records that describe them, the defaults a new one is
//! created with, and the calls that administer one.

use crate::api;
use crate::api::API;
use crate::client::{Call, CallView, Client, Envelope, Method};
use crate::router::{below, collection_root, CollectionRouter, Router};
use vstd::prelude::*;

verus! {

/// Query parameters that accompany the creation of a collection.
pub struct CollectionQueryParams {
    pub wait_for_sync_replication: Option<bool>,
    pub enforce_replication_factor: Option<bool>,
}

impl Default for CollectionQueryParams {
    fn default() -> (params: Self)
        ensures
            params.wait_for_sync_replication == Some(true),
            params.enforce_replication_factor == Some(false),
    {
        Self { wait_for_sync_replication: Some(true), enforce_replication_factor: Some(false) }
    }
}

/// An attribute the server computes on every write of a document.
#[derive(Debug)]
pub struct ComputedValue {
    pub name: String,
    pub expression: String,
    pub overwrite: bool,
    pub compute_on: Vec<String>,
    pub keep_null: bool,
    pub fail_on_warning: bool,
}

/// What a `ComputedValue` holds, as mathematical values.
pub struct ComputedValueView {
    pub name: Seq<char>,
    pub expression: Seq<char>,
    pub overwrite: bool,
    pub compute_on: Seq<Seq<char>>,
    pub keep_null: bool,
    pub fail_on_warning: bool,
}

impl View for ComputedValue {
    type V = ComputedValueView;

    open spec fn view(&self) -> ComputedValueView {
        ComputedValueView {
            name: self.name@,
            expression: self.expression@,
            overwrite: self.overwrite,
            compute_on: self.compute_on.deep_view(),
            keep_null: self.keep_null,
            fail_on_warning: self.fail_on_warning,
        }
    }
}

#[derive(Debug)]
pub struct KeyOptions {
    pub allow_user_keys: bool,
    pub kind: String,
    pub increment: Option<u32>,
    pub offset: Option<u32>,
    pub last_value: u32,
}

#[derive(Debug)]
pub struct Information {
    pub id: String,
    pub name: String,
    pub status: u8,
    pub kind: u8,
    pub is_system: bool,
    pub globally_unique_id: String,
}

/// The description of a collection that is about to be created.
#[derive(Debug)]
pub struct NewCollection {
    pub name: String,
    pub cache_enabled: bool,
    /// 2 for a document collection, 3 for an edge collection.
    pub kind: u8,
    pub is_system: bool,
    pub write_concern: u8,
    pub wait_for_sync: bool,
    pub replication_factor: u8,
    pub computed_values: Option<Vec<ComputedValue>>,
    pub key_options: Option<KeyOptions>,
    pub smart_join_attribute: Option<String>,
    pub is_disjoint: Option<bool>,
    pub is_smart: Option<bool>,
    pub number_of_shards: Option<u8>,
    pub shard_keys: Option<Vec<String>>,
    pub sharding_strategy: Option<String>,
    pub distrube_shard_like: Option<String>,
}

/// The `kind` of a collection that holds documents.
pub const DOCUMENT_COLLECTION: u8 = 2;

/// The `kind` of a collection that holds edges.
pub const EDGE_COLLECTION: u8 = 3;

/// The computed value that stamps a document when it is created.
pub open spec fn created_on_value() -> ComputedValueView {
    ComputedValueView {
        name: "created_on"@,
        expression: "RETURN DATE_NOW()"@,
        overwrite: true,
        compute_on: seq!["insert"@, "replace"@],
        keep_null: false,
        fail_on_warning: true,
    }
}

/// The computed value that stamps a document on every write.
pub open spec fn modified_on_value() -> ComputedValueView {
    ComputedValueView {
        name: "modified_on"@,
        expression: "RETURN DATE_NOW()"@,
        overwrite: true,
        compute_on: seq!["insert"@, "update"@, "replace"@],
        keep_null: false,
        fail_on_warning: true,
    }
}

/// Whether `values` are exactly the two timestamps every collection gets by
/// default, creation first.
pub open spec fn are_default_computed_values(values: Seq<ComputedValue>) -> bool {
    &&& values.len() == 2
    &&& values[0]@ == created_on_value()
    &&& values[1]@ == modified_on_value()
}

impl NewCollection {
    /// Whether every setting but the name, the cache flag, the kind and the
    /// computed values has the value a fresh description starts with.
    pub open spec fn has_plain_settings(&self) -> bool {
        &&& self.wait_for_sync
        &&& !self.is_system
        &&& self.write_concern == 1
        &&& self.replication_factor == 1
        &&& self.key_options is None
        &&& self.smart_join_attribute is None
        &&& self.is_disjoint is None
        &&& self.is_smart is None
        &&& self.number_of_shards is None
        &&& self.shard_keys is None
        &&& self.sharding_strategy is None
        &&& self.distrube_shard_like is None
    }

    pub fn default_computed_values() -> (values: Vec<ComputedValue>)
        ensures
            are_default_computed_values(values@),
    {
        let values = vec![
            ComputedValue {
                name: "created_on".to_owned(),
                expression: "RETURN DATE_NOW()".to_owned(),
                compute_on: vec!["insert".to_owned(), "replace".to_owned()],
                overwrite: true,
                keep_null: false,
                fail_on_warning: true,
            },
            ComputedValue {
                name: "modified_on".to_owned(),
                expression: "RETURN DATE_NOW()".to_owned(),
                compute_on: vec!["insert".to_owned(), "update".to_owned(), "replace".to_owned()],
                overwrite: true,
                keep_null: false,
                fail_on_warning: true,
            },
        ];
        proof {
            assert(values@[0].compute_on.deep_view() =~= seq!["insert"@, "replace"@]);
            assert(values@[1].compute_on.deep_view() =~= seq![
                "insert"@,
                "update"@,
                "replace"@,
            ]);
        }
        values
    }

    pub fn default_document_collection(name: String) -> (collection: Self)
        ensures
            collection.name == name,
            !collection.cache_enabled,
            collection.kind == DOCUMENT_COLLECTION,
            collection.computed_values is Some,
            are_default_computed_values(collection.computed_values->Some_0@),
            collection.has_plain_settings(),
    {
        Self::new(name, false, Some(Self::default_computed_values()))
    }

    pub fn default_edge_collection(name: String) -> (collection: Self)
        ensures
            collection.name == name,
            !collection.cache_enabled,
            collection.kind == EDGE_COLLECTION,
            collection.computed_values is Some,
            are_default_computed_values(collection.computed_values->Some_0@),
            collection.has_plain_settings(),
    {
        let mut col: Self = Self::new(name, false, Some(Self::default_computed_values()));
        col.kind = EDGE_COLLECTION;
        col
    }

    pub fn new(name: String, cache_enabled: bool, computed_values: Option<Vec<ComputedValue>>) -> (collection: Self)
        ensures
            collection.name == name,
            collection.cache_enabled == cache_enabled,
            collection.kind == DOCUMENT_COLLECTION,
            collection.computed_values == computed_values,
            collection.has_plain_settings(),
    {
        Self {
            name,
            wait_for_sync: true,
            is_system: false,
            kind: DOCUMENT_COLLECTION,
            cache_enabled,
            computed_values,
            write_concern: 1,
            replication_factor: 1,
            key_options: None,
            smart_join_attribute: None,
            is_disjoint: None,
            is_smart: None,
            number_of_shards: None,
            shard_keys: None,
            sharding_strategy: None,
            distrube_shard_like: None,
        }
    }
}

#[derive(Debug)]
pub struct Checksum {
    pub id: String,
    pub name: String,
    pub status: u8,
    pub kind: u8,
    pub is_system: bool,
    pub globally_unique_id: String,
    pub revision: String,
    pub checksum: String,
}

#[derive(Debug)]
pub struct Indexes {
    pub count: u32,
    pub size: u32,
}

#[derive(Debug)]
pub struct Figures {
    pub indexes: Indexes,
    pub documents_size: u32,
    pub cache_in_use: bool,
    pub cache_size: u32,
    pub cache_usage: u32,
}

#[derive(Debug)]
pub struct Count {
    pub id: String,
    pub name: String,
    pub status: u8,
    pub kind: u8,
    pub is_system: bool,
    pub globally_unique_id: String,
    pub write_concern: u8,
    pub wait_for_sync: bool,
    pub uses_revisions_as_document_ids: bool,
    pub sync_by_revision: bool,
    pub status_string: String,
    pub internal_validator_type: u8,
    pub cache_enabled: bool,
    pub is_smart_child: bool,
    pub key_options: KeyOptions,
    pub computed_values: Option<Vec<ComputedValue>>,
    pub object_id: String,
    pub count: u32,
}

#[derive(Debug)]
pub struct Summary {
    pub id: String,
    pub name: String,
    pub status: u8,
    pub kind: u8,
    pub is_system: bool,
    pub globally_unique_id: String,
    pub write_concern: u8,
    pub wait_for_sync: bool,
    pub uses_revisions_as_document_ids: bool,
    pub sync_by_revision: bool,
    pub status_string: String,
    pub internal_validator_type: u8,
    pub cache_enabled: bool,
    pub is_smart_child: bool,
    pub key_options: KeyOptions,
    pub computed_values: Option<Vec<ComputedValue>>,
    pub object_id: String,
    pub count: u32,
    pub figures: Figures,
}

#[derive(Debug)]
pub struct Properties {
    pub id: String,
    pub name: String,
    pub status: u8,
    pub kind: u8,
    pub is_system: bool,
    pub globally_unique_id: String,
    pub write_concern: u8,
    pub wait_for_sync: bool,
    pub uses_revisions_as_document_ids: bool,
    pub sync_by_revision: bool,
    pub status_string: String,
    pub internal_validator_type: u8,
    pub cache_enabled: bool,
    pub is_smart_child: bool,
    pub key_options: KeyOptions,
    pub computed_values: Option<Vec<ComputedValue>>,
    pub object_id: String,
}

#[derive(Debug)]
pub struct PropertiesUpdate {
    pub wait_for_sync: bool,
    pub cache_enabled: bool,
    pub computed_values: Option<Vec<ComputedValue>>,
    pub replication_factor: u8,
    pub write_concern: u8,
}

#[derive(Debug)]
pub struct Revision {
    pub id: String,
    pub name: String,
    pub status: u8,
    pub kind: u8,
    pub is_system: bool,
    pub globally_unique_id: String,
    pub write_concern: u8,
    pub wait_for_sync: bool,
    pub uses_revisions_as_document_ids: bool,
    pub sync_by_revision: bool,
    pub status_string: String,
    pub internal_validator_type: u8,
    pub cache_enabled: bool,
    pub is_smart_child: bool,
    pub key_options: KeyOptions,
    pub computed_values: Option<Vec<ComputedValue>>,
    pub object_id: String,
    pub revision: String,
}

/// The body of a request that renames a collection.
#[derive(Debug)]
pub struct Rename {
    pub name: String,
}

/// The operations on one collection.
pub struct Collection {
    pub client: Client,
    pub name: String,
}

impl Collection {
    /// The call of `method` on the operation `extension` of the collection
    /// called `name`.
    pub open spec fn operation(
        name: Seq<char>,
        method: Method,
        extension: api::Collection,
        envelope: Envelope,
    ) -> CallView {
        CallView {
            method,
            endpoint: below(below(collection_root(), name), extension.segment()),
            envelope,
        }
    }

    fn plan(&self, method: Method, extension: api::Collection, envelope: Envelope) -> (call: Call)
        ensures
            call@ == Self::operation(self.name@, method, extension, envelope),
    {
        Call {
            method,
            endpoint: Router::extension(self.name.as_str(), API::Collection(extension)),
            envelope,
        }
    }

    pub fn new(client: Client, name: String) -> (collection: Self)
        ensures
            collection.client == client,
            collection.name == name,
    {
        Self { client, name }
    }

    /// Reads the descriptions of all collections.
    pub fn read(&self) -> (call: Call)
        ensures
            call@ == (CallView {
                method: Method::Get,
                endpoint: collection_root(),
                envelope: Envelope::Nested,
            }),
    {
        Call {
            method: Method::Get,
            endpoint: <Router as CollectionRouter>::base(),
            envelope: Envelope::Nested,
        }
    }

    /// Drops the collection.
    pub fn drop(&self) -> (call: Call)
        ensures
            call@ == (CallView {
                method: Method::Delete,
                endpoint: below(collection_root(), self.name@),
                envelope: Envelope::Bare,
            }),
    {
        Call {
            method: Method::Delete,
            endpoint: Router::base_collection(self.name.as_str()),
            envelope: Envelope::Bare,
        }
    }

    /// Reads the description of the collection.
    pub fn information(&self) -> (call: Call)
        ensures
            call@ == (CallView {
                method: Method::Get,
                endpoint: below(collection_root(), self.name@),
                envelope: Envelope::Bare,
            }),
    {
        Call {
            method: Method::Get,
            endpoint: Router::base_collection(self.name.as_str()),
            envelope: Envelope::Bare,
        }
    }

    pub fn checksum(&self) -> (call: Call)
        ensures
            call@ == Self::operation(
                self.name@,
                Method::Get,
                api::Collection::Checksum,
                Envelope::Flat,
            ),
    {
        self.plan(Method::Get, api::Collection::Checksum, Envelope::Flat)
    }

    pub fn compact(&self) -> (call: Call)
        ensures
            call@ == Self::operation(
                self.name@,
                Method::Put,
                api::Collection::Compact,
                Envelope::Flat,
            ),
    {
        self.plan(Method::Put, api::Collection::Compact, Envelope::Flat)
    }

    pub fn count(&self) -> (call: Call)
        ensures
            call@ == Self::operation(
                self.name@,
                Method::Get,
                api::Collection::Count,
                Envelope::Flat,
            ),
    {
        self.plan(Method::Get, api::Collection::Count, Envelope::Flat)
    }

    pub fn figures(&self) -> (call: Call)
        ensures
            call@ == Self::operation(
                self.name@,
                Method::Get,
                api::Collection::Figures,
                Envelope::Flat,
            ),
    {
        self.plan(Method::Get, api::Collection::Figures, Envelope::Flat)
    }

    /// Reads the properties of the collection.
    pub fn properties(&self) -> (call: Call)
        ensures
            call@ == Self::operation(
                self.name@,
                Method::Get,
                api::Collection::Properties,
                Envelope::Flat,
            ),
    {
        self.plan(Method::Get, api::Collection::Properties, Envelope::Flat)
    }

    /// Changes the properties of the collection to those in the body.
    pub fn update_properties(&self) -> (call: Call)
        ensures
            call@ == Self::operation(
                self.name@,
                Method::Put,
                api::Collection::Properties,
                Envelope::Flat,
            ),
    {
        self.plan(Method::Put, api::Collection::Properties, Envelope::Flat)
    }

    /// Loads the indexes of the collection into memory.
    pub fn load_indexes(&self) -> (call: Call)
        ensures
            call@ == Self::operation(
                self.name@,
                Method::Put,
                api::Collection::LoadIndexIntoMemory,
                Envelope::Nested,
            ),
    {
        self.plan(Method::Put, api::Collection::LoadIndexIntoMemory, Envelope::Nested)
    }

    pub fn recalculate_count(&self) -> (call: Call)
        ensures
            call@ == Self::operation(
                self.name@,
                Method::Put,
                api::Collection::RecalculateCount,
                Envelope::Nested,
            ),
    {
        self.plan(Method::Put, api::Collection::RecalculateCount, Envelope::Nested)
    }

    /// Renames the collection on the server. The body of the call is the
    /// second component; `renamed` follows once the server has agreed.
    pub fn rename(&self, new_collection_name: &str) -> (planned: (Call, Rename))
        ensures
            planned.0@ == Self::operation(
                self.name@,
                Method::Put,
                api::Collection::Rename,
                Envelope::Flat,
            ),
            planned.1.name@ == new_collection_name@,
    {
        (
            self.plan(Method::Put, api::Collection::Rename, Envelope::Flat),
            Rename { name: new_collection_name.to_owned() },
        )
    }

    /// Takes note that the server has renamed the collection.
    pub fn renamed(&mut self, new_collection_name: &str)
        ensures
            final(self).name@ == new_collection_name@,
            final(self).client == old(self).client,
    {
        self.name = new_collection_name.to_owned();
    }

    pub fn revision(&self) -> (call: Call)
        ensures
            call@ == Self::operation(
                self.name@,
                Method::Get,
                api::Collection::Revision,
                Envelope::Flat,
            ),
    {
        self.plan(Method::Get, api::Collection::Revision, Envelope::Flat)
    }

    pub fn truncate(&self) -> (call: Call)
        ensures
            call@ == Self::operation(
                self.name@,
                Method::Put,
                api::Collection::Truncate,
                Envelope::Flat,
            ),
    {
        self.plan(Method::Put, api::Collection::Truncate, Envelope::Flat)
    }
}

} // verus!
