//! What every record in the database carries besides its own fields.

use crate::error::ClientError;
use crate::router::below;
use vstd::prelude::*;

verus! {

/// A value that can be checked before it is sent.
pub trait Validator: Send {
    fn validate(&self) -> std::result::Result<(), ClientError>;
}

/// A value without content: the body of a request that needs none, or of a
/// reply that is not read.
#[derive(Clone, Copy, Debug)]
pub struct Empty {}

/// The identity of a document: `_id`, `_key` and `_rev` on the wire.
#[derive(Debug)]
pub struct ArangoKeys {
    pub id: String,
    pub key: String,
    pub rev: String,
}

impl Clone for ArangoKeys {
    fn clone(&self) -> (copy: Self)
        ensures
            copy.id@ == self.id@,
            copy.key@ == self.key@,
            copy.rev@ == self.rev@,
    {
        Self { id: self.id.clone(), key: self.key.clone(), rev: self.rev.clone() }
    }
}

impl ArangoKeys {
    /// Whether the identifier is the collection, a slash and the key.
    pub open spec fn is_in(&self, collection: Seq<char>) -> bool {
        self.id@ == below(collection, self.key@)
    }

    /// Whether this is the identity of a document of `collection`.
    pub fn belongs_to(&self, collection: &str) -> (held: bool)
        ensures
            held == self.is_in(collection@),
    {
        let expected = String::from_str(collection).concat("/").concat(self.key.as_str());
        self.id == expected
    }
}

/// The two ends of an edge: `_to` and `_from` on the wire, each the
/// identifier of a document.
#[derive(Debug)]
pub struct ArangoEdgeKeys {
    pub to: String,
    pub from: String,
}

impl Clone for ArangoEdgeKeys {
    fn clone(&self) -> (copy: Self)
        ensures
            copy.to@ == self.to@,
            copy.from@ == self.from@,
    {
        Self { to: self.to.clone(), from: self.from.clone() }
    }
}

} // verus!
