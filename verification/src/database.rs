//! Databases: the records that describe them and the calls that administer
//! them.

use crate::api;
use crate::client::{Call, CallView, Client, Config, Envelope, Method};
use crate::collection::{Collection, CollectionQueryParams};
use crate::document::is_call_with_params;
use crate::error::Result;
use crate::params::Parameters;
use crate::router::{below, collection_root, database_root, CollectionRouter, DatabaseRouter, Router};
use crate::Arango;
use vstd::prelude::*;

verus! {

/// A reply of the database interface.
pub struct DatabaseResponse<T> {
    pub error: bool,
    pub code: u16,
    pub result: T,
}

/// A database as the server describes it.
#[derive(Debug)]
pub struct Db {
    pub name: String,
    pub id: String,
    /// Where the database lives in the file system.
    pub path: String,
    /// Whether this is the `_system` database.
    pub is_system: bool,
    /// How new collections are sharded.
    pub sharding: Option<String>,
    /// How often new collections are replicated.
    pub replication_factor: Option<String>,
    /// How many copies of a shard must be in sync for a write.
    pub write_concern: Option<u8>,
}

#[derive(Debug)]
pub struct User {
    pub username: String,
    pub password: String,
    pub active: bool,
}

/// Settings of a new database; they matter in a cluster only.
#[derive(Debug)]
pub struct DbOptions {
    /// The empty text, `flexible` or `single`.
    pub sharding: Option<String>,
    /// A number, or `satellite`.
    pub replication_factor: Option<String>,
    pub write_concern: Option<u8>,
}

/// The description of a database that is about to be created.
#[derive(Debug)]
pub struct NewDatabase {
    pub name: String,
    pub options: Option<DbOptions>,
    /// Who may administer the database; the `root` user where none is
    /// named.
    pub users: Option<Vec<User>>,
}

impl NewDatabase {
    pub fn new(name: String) -> (database: Self)
        ensures
            database.name == name,
            database.options is None,
            database.users is None,
    {
        Self { name, options: None, users: None }
    }
}

/// The operations on the databases of a server.
pub struct Database {
    pub client: Client,
}

impl Arango for Database {
    open spec fn transport(&self) -> Client {
        self.client
    }

    fn new(config: &Config) -> (facade: Self) {
        Self { client: Client::new(config) }
    }
}

impl Database {
    /// Lists the databases.
    pub fn list(&self) -> (call: Call)
        ensures
            call@ == (CallView {
                method: Method::Get,
                endpoint: database_root(),
                envelope: Envelope::Nested,
            }),
    {
        Call {
            method: Method::Get,
            endpoint: <Router as DatabaseRouter>::base(),
            envelope: Envelope::Nested,
        }
    }

    /// Creates the database that the body describes.
    pub fn create(&self) -> (call: Call)
        ensures
            call@ == (CallView {
                method: Method::Post,
                endpoint: database_root(),
                envelope: Envelope::Nested,
            }),
    {
        Call {
            method: Method::Post,
            endpoint: <Router as DatabaseRouter>::base(),
            envelope: Envelope::Nested,
        }
    }

    /// Describes the database the client is connected to.
    pub fn current(&self) -> (call: Call)
        ensures
            call@ == (CallView {
                method: Method::Get,
                endpoint: below(database_root(), api::Database::Current.segment()),
                envelope: Envelope::Nested,
            }),
    {
        Call { method: Method::Get, endpoint: Router::current(), envelope: Envelope::Nested }
    }

    /// Lists the databases the user may reach.
    pub fn user(&self) -> (call: Call)
        ensures
            call@ == (CallView {
                method: Method::Get,
                endpoint: below(database_root(), api::Database::User.segment()),
                envelope: Envelope::Nested,
            }),
    {
        Call { method: Method::Get, endpoint: Router::user(), envelope: Envelope::Nested }
    }

    /// Drops a database.
    pub fn drop(&self, database: &str) -> (call: Call)
        ensures
            call@ == (CallView {
                method: Method::Delete,
                endpoint: below(database_root(), database@),
                envelope: Envelope::Nested,
            }),
    {
        let endpoint: String = <Router as DatabaseRouter>::base().concat("/").concat(database);
        Call { method: Method::Delete, endpoint, envelope: Envelope::Nested }
    }

    /// Creates the collection that the body describes, once it is
    /// replicated as often as asked for.
    pub fn new_collection(&self) -> (call: Result<Call>)
        ensures
            is_call_with_params(
                call,
                Method::Post,
                collection_root(),
                (CollectionQueryParams {
                    wait_for_sync_replication: Some(true),
                    enforce_replication_factor: Some(false),
                }).pairs(),
                Envelope::Bare,
            ),
    {
        let endpoint = <Router as CollectionRouter>::base_with_params(
            CollectionQueryParams::default(),
        );
        Call::to(Method::Post, endpoint, Envelope::Bare)
    }

    /// The operations on one collection of this database.
    pub fn collection(&self, name: &str) -> (collection: Collection)
        ensures
            collection.client@ == self.client@,
            collection.name@ == name@,
    {
        Collection::new(self.client.clone(), name.to_owned())
    }
}

} // verus!
