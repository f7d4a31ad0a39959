//! The vocabulary of endpoints the server understands, and the error it
//! reports when it rejects a request.

use crate::text::{decimal, decimal_text, truth, truth_text};
use vstd::prelude::*;

verus! {

/// Operations on collections. `Base` is the collection root; every other
/// variant is a suffix that follows a collection's name.
#[derive(Clone, Copy, Debug, PartialEq, Eq, Structural)]
pub enum Collection {
    Base,
    Properties,
    Count,
    Figures,
    ResponsibleShard,
    Shards,
    Revision,
    Checksum,
    Truncate,
    LoadIndexIntoMemory,
    Rename,
    RecalculateCount,
    Compact,
}

#[derive(Clone, Copy, Debug, PartialEq, Eq, Structural)]
pub enum Document {
    Base,
}

#[derive(Clone, Copy, Debug, PartialEq, Eq, Structural)]
pub enum Database {
    Base,
    Current,
    User,
}

#[derive(Clone, Copy, Debug, PartialEq, Eq, Structural)]
pub enum Query {
    Cursor,
    Function,
    Explain,
    Query,
    Cache,
    Current,
    Properties,
    Rules,
    Entries,
    Slow,
}

#[derive(Clone, Copy, Debug, PartialEq, Eq, Structural)]
pub enum Graph {
    Base,
    Edge,
}

#[derive(Clone, Copy, Debug, PartialEq, Eq, Structural)]
pub enum Index {
    Base,
}

/// One word of the endpoint vocabulary: either the root of an interface or a
/// suffix below it.
#[derive(Clone, Copy, Debug, PartialEq, Eq, Structural)]
pub enum API {
    Collection(Collection),
    Document(Document),
    Graph(Graph),
    Index(Index),
    Query(Query),
    Database(Database),
}

impl Collection {
    /// The path segment this operation stands for.
    pub open spec fn segment(self) -> Seq<char> {
        match self {
            Collection::Base => "_api/collection"@,
            Collection::Properties => "properties"@,
            Collection::Count => "count"@,
            Collection::Figures => "figures"@,
            Collection::ResponsibleShard => "responsibleShard"@,
            Collection::Shards => "shards"@,
            Collection::Revision => "revision"@,
            Collection::Checksum => "checksum"@,
            Collection::Truncate => "truncate"@,
            Collection::LoadIndexIntoMemory => "loadIndexesIntoMemory"@,
            Collection::Rename => "rename"@,
            Collection::RecalculateCount => "recalculateCount"@,
            Collection::Compact => "compact"@,
        }
    }
}

impl Database {
    pub open spec fn segment(self) -> Seq<char> {
        match self {
            Database::Base => "_api/database"@,
            Database::Current => "current"@,
            Database::User => "user"@,
        }
    }
}

impl Query {
    pub open spec fn segment(self) -> Seq<char> {
        match self {
            Query::Function => "_api/aqlfunction"@,
            Query::Cursor => "_api/cursor"@,
            Query::Explain => "_api/explain"@,
            Query::Query => "_api/query"@,
            Query::Cache => "_api/query-cache"@,
            Query::Entries => "entries"@,
            Query::Properties => "properties"@,
            Query::Current => "current"@,
            Query::Rules => "rules"@,
            Query::Slow => "slow"@,
        }
    }
}

impl Graph {
    pub open spec fn segment(self) -> Seq<char> {
        match self {
            Graph::Base => "_api/gharial"@,
            Graph::Edge => "edge"@,
        }
    }
}

impl API {
    /// The text of this word as it appears in a URL path.
    pub open spec fn segment(self) -> Seq<char> {
        match self {
            API::Index(Index::Base) => "_api/index"@,
            API::Collection(route) => route.segment(),
            API::Database(route) => route.segment(),
            API::Document(Document::Base) => "_api/document"@,
            API::Query(route) => route.segment(),
            API::Graph(route) => route.segment(),
        }
    }
}

impl From<API> for String {
    fn from(item: API) -> (text: String)
        ensures
            text@ == item.segment(),
    {
        String::from_str(
            match item {
                API::Index(route) => {
                    match route {
                        Index::Base => "_api/index",
                    }
                },
                API::Collection(route) => {
                    match route {
                        Collection::Base => "_api/collection",
                        Collection::Properties => "properties",
                        Collection::Count => "count",
                        Collection::Figures => "figures",
                        Collection::ResponsibleShard => "responsibleShard",
                        Collection::Shards => "shards",
                        Collection::Revision => "revision",
                        Collection::Checksum => "checksum",
                        Collection::Truncate => "truncate",
                        Collection::LoadIndexIntoMemory => "loadIndexesIntoMemory",
                        Collection::Rename => "rename",
                        Collection::RecalculateCount => "recalculateCount",
                        Collection::Compact => "compact",
                    }
                },
                API::Database(route) => {
                    match route {
                        Database::Base => "_api/database",
                        Database::Current => "current",
                        Database::User => "user",
                    }
                },
                API::Document(route) => {
                    match route {
                        Document::Base => "_api/document",
                    }
                },
                API::Query(route) => {
                    match route {
                        Query::Function => "_api/aqlfunction",
                        Query::Cursor => "_api/cursor",
                        Query::Explain => "_api/explain",
                        Query::Query => "_api/query",
                        Query::Cache => "_api/query-cache",
                        Query::Entries => "entries",
                        Query::Properties => "properties",
                        Query::Current => "current",
                        Query::Rules => "rules",
                        Query::Slow => "slow",
                    }
                },
                API::Graph(route) => {
                    match route {
                        Graph::Base => "_api/gharial",
                        Graph::Edge => "edge",
                    }
                },
            },
        )
    }
}

/// `String::from` on a word of the vocabulary is specified by the view of its
/// result, `API::segment`; no claim is made about the `String` value itself.
impl vstd::std_specs::convert::FromSpecImpl<API> for String {
    open spec fn obeys_from_spec() -> bool {
        false
    }

    open spec fn from_spec(item: API) -> String {
        arbitrary()
    }
}

/// A failure the server reports in the body of a response that is not a
/// success.
#[derive(Debug)]
pub struct ApiError {
    pub code: i32,
    pub error: bool,
    pub error_message: String,
    pub error_num: i32,
}

impl ApiError {
    /// The one-line rendering of this error: its four fields in order, between
    /// brackets.
    pub open spec fn text(&self) -> Seq<char> {
        "ApiError("@ + decimal(self.code as int) + ", "@ + truth(self.error) + ", "@
            + self.error_message@ + ", "@ + decimal(self.error_num as int) + ")"@
    }

    pub fn to_string(&self) -> (text: String)
        ensures
            text@ == self.text(),
    {
        String::from_str("ApiError(").concat(decimal_text(self.code).as_str()).concat(", ").concat(
            truth_text(self.error),
        ).concat(", ").concat(self.error_message.as_str()).concat(", ").concat(
            decimal_text(self.error_num).as_str(),
        ).concat(")")
    }
}

} // verus!
