//! A typed client driver for a document and graph database's HTTP interface.
//!
//! The library computes everything a call needs before it is sent and
//! everything that is decided once the reply is in: endpoints, query strings,
//! credentials, collection names, cursor paging and the error taxonomy.
//! Sending bytes over the network is left to the program around it.

pub mod api;
pub mod client;
pub mod collection;
pub mod database;
pub mod document;
pub mod error;
pub mod index;
pub mod model;
pub mod naming;
pub mod params;
pub mod query;
pub mod responses;
pub mod router;
pub mod text;

pub use crate::api::ApiError;
pub use crate::client::{
    Call, Client, ClientView, Config, Decoding, Envelope, Method, Reply, Dispatch,
};
pub use crate::collection::{
    Checksum, Collection, CollectionQueryParams, ComputedValue, Count, Figures, Indexes,
    Information, KeyOptions, NewCollection, Properties, PropertiesUpdate, Rename, Revision,
    Summary,
};
pub use crate::database::{Database, DatabaseResponse, Db, DbOptions, NewDatabase, User};
pub use crate::document::{Doc, Document, DocumentResponse, Edge};
pub use crate::error::{ClientError, Result};
pub use crate::index::{Idx, Index, IndexResponse, IndexesResponse, NewIdx};
pub use crate::model::{ArangoEdgeKeys, ArangoKeys, Empty, Validator};
pub use crate::naming::{collection_name, extract_name, name, Record};
pub use crate::params::{DocumentQueryParams, EdgeQueryParams, Parameters};
pub use crate::query::{
    BoundCursorRequest, BoundExplain, CacheProperties, CursorRequest, CursorResponse,
    CursorState, Entry, Explain, ExplainOptions, ExplainResponse, Extra, Node, Optimizer,
    Options, ParseQuery, ParseResponse, Plan, PlanCollection, Query, RunningQuery, Stats,
    Warning,
};
pub use crate::responses::{FlatResponse, IdResponse, NameResponse, Response};
pub use crate::router::{
    CollectionRouter, DatabaseRouter, DocumentRouter, IndexRouter, QueryRouter, Router,
};
use vstd::prelude::*;

verus! {

/// A point in time, as the system's clock counts it.
#[verifier::external_type_specification]
#[verifier::external_body]
pub struct ExSystemTime(std::time::SystemTime);

/// Calls `SystemTime::now`. Nothing is claimed of the time that comes back.
#[verifier::external_body]
fn now() -> (time: std::time::SystemTime) {
    std::time::SystemTime::now()
}

/// Calls `SystemTime::duration_since` with `UNIX_EPOCH`: the time between
/// the epoch and `time`, or nothing where `time` lies before the epoch.
#[verifier::external_body]
fn since_epoch(time: &std::time::SystemTime) -> (elapsed: Option<std::time::Duration>) {
    time.duration_since(std::time::UNIX_EPOCH).ok()
}

/// Calls `Duration::as_secs`: the whole seconds of `elapsed`.
#[verifier::external_body]
fn whole_seconds(elapsed: &std::time::Duration) -> (seconds: u64) {
    elapsed.as_secs()
}

/// The seconds between the epoch and now; zero where the clock stands
/// before the epoch.
pub fn get_current_timestamp() -> (seconds: u64) {
    let elapsed = match since_epoch(&now()) {
        Some(elapsed) => Some(whole_seconds(&elapsed)),
        None => None,
    };
    timestamp_from(elapsed)
}

/// The timestamp of a clock that counts `elapsed` seconds since the epoch,
/// or that stands before the epoch where there is no count: the count, or
/// zero.
pub open spec fn timestamp(elapsed: Option<u64>) -> u64 {
    match elapsed {
        Some(seconds) => seconds,
        None => 0,
    }
}

/// The timestamp of a clock that counts `elapsed` seconds since the epoch.
pub fn timestamp_from(elapsed: Option<u64>) -> (seconds: u64)
    ensures
        seconds == timestamp(elapsed),
{
    match elapsed {
        Some(seconds) => seconds,
        None => 0,
    }
}

/// Six months of thirty days, in seconds.
pub const SIX_MONTHS: u64 = 86400 * 30 * 6;

/// The time six months after `now`, or the end of time where that lies
/// beyond it.
pub open spec fn expiration(now: u64) -> u64 {
    if now + SIX_MONTHS <= u64::MAX {
        (now + SIX_MONTHS) as u64
    } else {
        u64::MAX
    }
}

/// The time, in seconds since the epoch, six months after `now`.
pub fn expiration_after(now: u64) -> (expiry: u64)
    ensures
        expiry == expiration(now),
{
    if now <= u64::MAX - SIX_MONTHS {
        now + SIX_MONTHS
    } else {
        u64::MAX
    }
}

/// The time, in seconds since the epoch, six months from now.
pub fn get_default_expiration() -> (expiry: u64)
    ensures
        exists|now: u64| expiry == expiration(now),
{
    expiration_after(get_current_timestamp())
}

/// A facade of the database: a set of operations that share one transport
/// client.
pub trait Arango: Sized {
    /// The client that the facade sends through.
    spec fn transport(&self) -> Client;

    /// The facade of the database that `config` describes.
    fn new(config: &Config) -> (facade: Self)
        ensures
            facade.transport()@ == ClientView::of(config),
    ;
}

} // verus!
