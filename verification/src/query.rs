//! Queries: the requests that open a cursor, the replies that carry its
//! batches, the walk from one batch to the next, and the calls that inspect
//! and control the server's query engine.

use crate::api;
use crate::client::{Call, CallView, Client, Config, Envelope, Method};
use crate::router::{below, cursor_endpoint, QueryRouter, Router};
use crate::Arango;
use vstd::prelude::*;

verus! {

/// A JSON object, as `serde_json` holds it.
#[verifier::external_type_specification]
#[verifier::external_body]
#[verifier::reject_recursive_types(K)]
#[verifier::reject_recursive_types(V)]
pub struct ExJsonMap<K, V>(serde_json::Map<K, V>);

/// A JSON value, as `serde_json` holds it.
#[verifier::external_type_specification]
#[verifier::external_body]
pub struct ExJsonValue(serde_json::Value);

/// What the server makes of a query it was asked to parse.
#[derive(Debug)]
pub struct ParseResponse {
    pub error: bool,
    pub code: u32,
    pub parsed: bool,
    pub collections: Vec<String>,
    /// The names of the bind parameters.
    pub bind: Vec<String>,
    pub ast: Vec<serde_json::Map<String, serde_json::Value>>,
}

#[derive(Debug)]
pub struct ParseQuery {
    pub query: String,
}

#[derive(Debug)]
pub struct ExplainResponse {
    pub plans: Vec<Plan>,
    pub warnings: Vec<Warning>,
    pub stats: Stats,
}

#[derive(Debug)]
pub struct ExplainOptions {
    pub all_plans: bool,
    pub max_num_of_plans: u32,
    pub optimizer: Optimizer,
}

/// A query to explain, with its bind parameters as a value of the
/// caller's.
#[derive(Debug)]
pub struct BoundExplain<T> {
    pub query: String,
    pub bind: T,
    pub options: Option<ExplainOptions>,
}

#[derive(Debug)]
pub struct Explain {
    pub query: String,
    pub bind: Option<serde_json::Map<String, serde_json::Value>>,
    pub options: Option<ExplainOptions>,
}

/// The settings of the server's cache of query results. They hold for the
/// whole server, not for one cursor.
#[derive(Debug)]
pub struct CacheProperties {
    /// `off`, `on` or `demand`.
    pub mode: String,
    pub max_results: u64,
    pub max_results_size: u64,
    pub max_entry_size: u64,
    pub include_system: bool,
}

/// One result in the server's cache.
#[derive(Debug)]
pub struct Entry {
    pub hash: String,
    pub query: String,
    pub bind: Option<serde_json::Map<String, serde_json::Value>>,
    pub size: u64,
    pub results: u64,
    pub started: String,
    pub hits: u32,
    /// Seconds, as the bits of a 64-bit float.
    pub run_time: u64,
    pub data_sources: Vec<String>,
}

#[derive(Debug)]
pub struct Optimizer {
    pub rules: String,
}

/// Hints for the execution of a query. None of them is sent unless it is
/// set.
#[derive(Debug)]
pub struct Options {
    pub full_count: Option<bool>,
    pub fill_block_cache: Option<bool>,
    pub max_number_of_plans: Option<u32>,
    pub max_nodes_per_callstack: Option<u32>,
    pub max_warning_count: Option<u8>,
    pub fail_on_warning: Option<bool>,
    pub stream: Option<bool>,
    pub spill_over_threshold_memory_usage: Option<u64>,
    pub spill_over_threshold_num_rows: Option<u64>,
    pub optimizer: Option<Optimizer>,
    pub profile: Option<u8>,
    /// Seconds, as the bits of a 32-bit float.
    pub satelite_sync_wait: Option<u32>,
    pub max_runtime: Option<u64>,
    pub max_transaction_size: Option<u64>,
    pub intermediate_commit_size: Option<u64>,
    pub intermediate_commit_count: Option<u64>,
    pub skip_inaccessible_collections: Option<bool>,
    pub allow_dirty_reads: Option<bool>,
}

/// A request for a cursor whose bind parameters are a value of the
/// caller's.
#[derive(Debug)]
pub struct BoundCursorRequest<T> {
    /// The cursor to advance; none to open one.
    pub id: Option<String>,
    pub query: String,
    /// Whether the server counts the results.
    pub count: bool,
    pub batch_size: Option<u32>,
    /// Seconds the cursor lives without being used.
    pub ttl: Option<u32>,
    /// Whether this query may be answered from the cache.
    pub cache: bool,
    pub memory_limit: Option<u64>,
    pub bind: T,
    pub options: Option<Options>,
}

impl<T> BoundCursorRequest<T> {
    /// A request that opens a cursor over the empty query: results counted,
    /// no cache, every hint left to the server.
    pub fn new(bind: T) -> (request: Self)
        ensures
            request.id is None,
            request.query@ == Seq::<char>::empty(),
            request.count,
            request.batch_size is None,
            request.ttl is None,
            !request.cache,
            request.memory_limit is None,
            request.options is None,
            request.bind == bind,
    {
        Self {
            id: None,
            query: String::new(),
            count: true,
            batch_size: None,
            ttl: None,
            cache: false,
            memory_limit: None,
            options: None,
            bind,
        }
    }
}

/// A request for a cursor whose bind parameters, if any, are a JSON
/// object.
#[derive(Debug)]
pub struct CursorRequest {
    /// The cursor to advance; none to open one.
    pub id: Option<String>,
    pub query: String,
    /// Whether the server counts the results.
    pub count: bool,
    pub batch_size: Option<u32>,
    /// Seconds the cursor lives without being used.
    pub ttl: Option<u32>,
    /// Whether this query may be answered from the cache.
    pub cache: bool,
    pub memory_limit: Option<u64>,
    pub bind: Option<serde_json::Map<String, serde_json::Value>>,
    pub options: Option<Options>,
}

impl Default for CursorRequest {
    /// A request that opens a cursor over the empty query: results counted,
    /// no cache, no bind parameters, every hint left to the server.
    fn default() -> (request: Self)
        ensures
            request.id is None,
            request.query@ == Seq::<char>::empty(),
            request.count,
            request.batch_size is None,
            request.ttl is None,
            !request.cache,
            request.memory_limit is None,
            request.bind is None,
            request.options is None,
    {
        Self {
            id: None,
            query: String::new(),
            count: true,
            batch_size: None,
            ttl: None,
            cache: false,
            memory_limit: None,
            bind: None,
            options: None,
        }
    }
}

#[derive(Debug)]
pub struct Warning {
    pub code: u64,
    pub message: String,
}

#[derive(Debug)]
pub struct Node {
    pub id: String,
    pub calls: u32,
    pub items: u64,
    pub runtime: u64,
}

#[derive(Debug)]
pub struct Stats {
    pub writes_executed: u32,
    pub writes_ignored: u32,
    pub scanned_full: u32,
    pub scanned_index: u32,
    pub cursors_created: u32,
    pub cursors_rearmed: u32,
    pub cache_hits: u32,
    pub cache_misses: u32,
    pub filtered: u32,
    pub http_requests: u32,
    /// Seconds, as the bits of a 64-bit float.
    pub execution_time: u64,
    /// Bytes, as the bits of a 64-bit float.
    pub peak_memory_usage: u64,
    pub full_count: Option<u64>,
    pub nodes: Option<Node>,
}

#[derive(Debug)]
pub struct PlanCollection {
    pub name: String,
    pub kind: String,
}

#[derive(Debug)]
pub struct Plan {
    pub nodes: Option<serde_json::Map<String, serde_json::Value>>,
    pub rules: String,
    pub collections: Vec<PlanCollection>,
    pub variables: Option<serde_json::Map<String, serde_json::Value>>,
    pub estimated_cost: u64,
    pub estimated_nr_items: u64,
    pub is_modification_query: bool,
}

#[derive(Debug)]
pub struct Extra {
    pub warnings: Vec<Warning>,
    pub stats: Option<Stats>,
    pub profile: Option<String>,
    pub plan: Option<Plan>,
}

/// One batch of the results of a query.
#[derive(Debug)]
pub struct CursorResponse<T> {
    /// The cursor that holds the rest; present only while there is more.
    pub id: Option<String>,
    pub error: bool,
    pub code: u8,
    pub result: T,
    pub has_more: bool,
    pub count: Option<u32>,
    pub extra: Option<Extra>,
    pub cached: bool,
}

/// A query that runs, or ran slowly, on the server.
pub struct RunningQuery {
    pub id: String,
    pub database: String,
    pub user: String,
    pub query: String,
    pub bind: Vec<String>,
    pub started: String,
    /// Seconds, as the bits of a 64-bit float.
    pub run_time: u64,
    /// From `initializing` to `finished`, `killed` or `invalid`.
    pub state: String,
    pub stream: bool,
}

/// Where a cursor stands.
#[derive(Debug)]
pub enum CursorState {
    /// The query is on its way; no batch has come back.
    Submitted,
    /// The server holds more results under this identifier.
    Open(String),
    /// The last batch has come back. No identifier is left to ask with.
    Exhausted,
    /// The cursor was deleted while it was open.
    Deleted,
}

/// Where a cursor stands, as mathematical values.
pub enum CursorPhase {
    Submitted,
    Open(Seq<char>),
    Exhausted,
    Deleted,
}

impl View for CursorState {
    type V = CursorPhase;

    open spec fn view(&self) -> CursorPhase {
        match self {
            CursorState::Submitted => CursorPhase::Submitted,
            CursorState::Open(id) => CursorPhase::Open(id@),
            CursorState::Exhausted => CursorPhase::Exhausted,
            CursorState::Deleted => CursorPhase::Deleted,
        }
    }
}

/// What a batch says of the rest: whether there is more, and under which
/// identifier.
pub type Batch = (bool, Option<Seq<char>>);

impl CursorPhase {
    /// Where the cursor stands once a batch has come back. A cursor that is
    /// exhausted or deleted stays so; any other is open while the batch says
    /// there is more and names the cursor, and exhausted else.
    pub open spec fn advanced(self, batch: Batch) -> CursorPhase {
        match self {
            CursorPhase::Exhausted => CursorPhase::Exhausted,
            CursorPhase::Deleted => CursorPhase::Deleted,
            _ => match batch.1 {
                Some(id) if batch.0 => CursorPhase::Open(id),
                _ => CursorPhase::Exhausted,
            },
        }
    }

    /// Where the cursor stands once it has been deleted: only an open
    /// cursor can be.
    pub open spec fn deleted(self) -> CursorPhase {
        match self {
            CursorPhase::Open(_) => CursorPhase::Deleted,
            _ => self,
        }
    }

    /// The identifier to ask the next batch with, while the cursor is
    /// open.
    pub open spec fn next(self) -> Option<Seq<char>> {
        match self {
            CursorPhase::Open(id) => Some(id),
            _ => None,
        }
    }

    /// Where a cursor stands after the batches of `batches`, in order.
    pub open spec fn walked(batches: Seq<Batch>) -> CursorPhase
        decreases batches.len(),
    {
        if batches.len() == 0 {
            CursorPhase::Submitted
        } else {
            Self::walked(batches.drop_last()).advanced(batches.last())
        }
    }
}

/// Whether every batch but the last says there is more and names the
/// cursor, and the last says there is none.
pub open spec fn ends_with_the_last(batches: Seq<Batch>) -> bool {
    &&& batches.len() > 0
    &&& !batches.last().0
    &&& forall|k: int| 0 <= k < batches.len() - 1 ==> batches[k].0 && batches[k].1 is Some
}

/// A cursor is open after each batch but the last, under the identifier
/// that batch named, and exhausted after the last: not earlier, and with no
/// identifier left to ask with, whatever the last batch named.
pub proof fn lemma_cursor_terminates(batches: Seq<Batch>)
    requires
        ends_with_the_last(batches),
    ensures
        CursorPhase::walked(batches) == CursorPhase::Exhausted,
        CursorPhase::walked(batches).next() is None,
        forall|n: int|
            0 < n < batches.len() ==> CursorPhase::walked(#[trigger] batches.take(n))
                == CursorPhase::Open(batches[n - 1].1->0),
{
    assert forall|n: int| 0 < n < batches.len() implies CursorPhase::walked(
        #[trigger] batches.take(n),
    ) == CursorPhase::Open(batches[n - 1].1->0) by {
        lemma_cursor_stays_open(batches, n);
    }
    if batches.len() > 1 {
        lemma_cursor_stays_open(batches, batches.len() - 1);
    }
    assert(batches.drop_last() =~= batches.take(batches.len() - 1));
}

/// After `n` batches that each say there is more, the cursor is open under
/// the identifier the last of them named.
proof fn lemma_cursor_stays_open(batches: Seq<Batch>, n: int)
    requires
        0 < n <= batches.len(),
        forall|k: int| 0 <= k < n ==> batches[k].0 && batches[k].1 is Some,
    ensures
        CursorPhase::walked(batches.take(n)) == CursorPhase::Open(batches[n - 1].1->0),
    decreases n,
{
    let front = batches.take(n);
    assert(front.drop_last() =~= batches.take(n - 1));
    assert(front.last() == batches[n - 1]);
    if n > 1 {
        lemma_cursor_stays_open(batches, n - 1);
    }
}

/// What `response` says of the rest of its results.
pub open spec fn batch_of<T>(response: &CursorResponse<T>) -> Batch {
    (
        response.has_more,
        match response.id {
            Some(id) => Some(id@),
            None => None,
        },
    )
}

impl CursorState {
    /// A cursor whose query has just been sent.
    pub fn new() -> (state: Self)
        ensures
            state@ == CursorPhase::Submitted,
    {
        CursorState::Submitted
    }

    /// Where the cursor stands once `response` has come back.
    pub fn advance<T>(self, response: &CursorResponse<T>) -> (state: Self)
        ensures
            state@ == self@.advanced(batch_of(response)),
    {
        match self {
            CursorState::Exhausted => CursorState::Exhausted,
            CursorState::Deleted => CursorState::Deleted,
            _ => match &response.id {
                Some(id) => {
                    if response.has_more {
                        CursorState::Open(id.clone())
                    } else {
                        CursorState::Exhausted
                    }
                },
                None => CursorState::Exhausted,
            },
        }
    }

    /// Where the cursor stands once the server has deleted it.
    pub fn delete(self) -> (state: Self)
        ensures
            state@ == self@.deleted(),
    {
        match self {
            CursorState::Open(_) => CursorState::Deleted,
            CursorState::Submitted => CursorState::Submitted,
            CursorState::Exhausted => CursorState::Exhausted,
            CursorState::Deleted => CursorState::Deleted,
        }
    }

    /// The identifier to ask the next batch with; none unless the cursor is
    /// open.
    pub fn next(&self) -> (id: Option<String>)
        ensures
            match self@.next() {
                Some(next) => id is Some && id->0@ == next,
                None => id is None,
            },
    {
        match self {
            CursorState::Open(id) => Some(id.clone()),
            _ => None,
        }
    }

    /// Whether the cursor has handed out its last batch.
    pub fn is_exhausted(&self) -> (done: bool)
        ensures
            done == (self@ == CursorPhase::Exhausted),
    {
        match self {
            CursorState::Exhausted => true,
            _ => false,
        }
    }
}

/// The operations on queries and their cursors.
pub struct Query {
    pub client: Client,
}

impl Arango for Query {
    open spec fn transport(&self) -> Client {
        self.client
    }

    fn new(config: &Config) -> (facade: Self) {
        Self { client: Client::new(config) }
    }
}

impl Query {
    /// The call of `method` on `endpoint` whose reply is read as it stands.
    pub open spec fn plain(method: Method, endpoint: Seq<char>) -> CallView {
        CallView { method, endpoint, envelope: Envelope::Bare }
    }

    /// Opens the cursor that `request` describes, or fetches the next batch
    /// of the one it names.
    pub fn bound_cursor<B>(&self, request: &BoundCursorRequest<B>) -> (call: Call)
        ensures
            call@ == Self::plain(Method::Post, cursor_endpoint(request.id)),
    {
        Call {
            method: Method::Post,
            endpoint: Router::cursor(&request.id),
            envelope: Envelope::Bare,
        }
    }

    /// Opens the cursor that `request` describes, or fetches the next batch
    /// of the one it names.
    pub fn cursor(&self, request: &CursorRequest) -> (call: Call)
        ensures
            call@ == Self::plain(Method::Post, cursor_endpoint(request.id)),
    {
        Call {
            method: Method::Post,
            endpoint: Router::cursor(&request.id),
            envelope: Envelope::Bare,
        }
    }

    /// Deletes a cursor before it is exhausted.
    pub fn delete_cursor(&self, cursor_id: String) -> (call: Call)
        ensures
            call@ == Self::plain(Method::Delete, cursor_endpoint(Some(cursor_id))),
    {
        Call {
            method: Method::Delete,
            endpoint: Router::cursor(&Some(cursor_id)),
            envelope: Envelope::Bare,
        }
    }

    /// Empties the cache of query results.
    pub fn clear_cache(&self) -> (call: Call)
        ensures
            call@ == Self::plain(Method::Delete, api::Query::Cache.segment()),
    {
        Call { method: Method::Delete, endpoint: Router::cache(), envelope: Envelope::Bare }
    }

    /// Lists the results in the cache.
    pub fn cache_entries(&self) -> (call: Call)
        ensures
            call@ == Self::plain(
                Method::Get,
                below(api::Query::Cache.segment(), api::Query::Entries.segment()),
            ),
    {
        Call { method: Method::Get, endpoint: Router::cache_entries(), envelope: Envelope::Bare }
    }

    /// Reads the settings of the cache.
    pub fn cache_properties(&self) -> (call: Call)
        ensures
            call@ == Self::plain(
                Method::Get,
                below(api::Query::Cache.segment(), api::Query::Properties.segment()),
            ),
    {
        Call { method: Method::Get, endpoint: Router::cache_properties(), envelope: Envelope::Bare }
    }

    /// Changes the settings of the cache to those in the body.
    pub fn set_cache_properties(&self) -> (call: Call)
        ensures
            call@ == Self::plain(
                Method::Put,
                below(api::Query::Cache.segment(), api::Query::Properties.segment()),
            ),
    {
        Call { method: Method::Put, endpoint: Router::cache_properties(), envelope: Envelope::Bare }
    }

    /// Asks how the query in the body would be run, without running it.
    pub fn bound_explain(&self) -> (call: Call)
        ensures
            call@ == (CallView {
                method: Method::Post,
                endpoint: api::Query::Explain.segment(),
                envelope: Envelope::Nested,
            }),
    {
        Call { method: Method::Post, endpoint: Router::explain(), envelope: Envelope::Nested }
    }

    /// Asks how the query in the body would be run, without running it.
    pub fn explain(&self) -> (call: Call)
        ensures
            call@ == (CallView {
                method: Method::Post,
                endpoint: api::Query::Explain.segment(),
                envelope: Envelope::Nested,
            }),
    {
        Call { method: Method::Post, endpoint: Router::explain(), envelope: Envelope::Nested }
    }

    /// Checks the syntax of the query in the body.
    pub fn parse(&self) -> (call: Call)
        ensures
            call@ == Self::plain(Method::Post, api::Query::Query.segment()),
    {
        Call { method: Method::Post, endpoint: Router::query(), envelope: Envelope::Bare }
    }

    /// Lists the queries that run.
    pub fn running(&self) -> (call: Call)
        ensures
            call@ == Self::plain(
                Method::Get,
                below(api::Query::Query.segment(), api::Query::Current.segment()),
            ),
    {
        Call { method: Method::Get, endpoint: Router::running(), envelope: Envelope::Bare }
    }

    /// Empties the list of slow queries.
    pub fn clear_slow(&self) -> (call: Call)
        ensures
            call@ == Self::plain(
                Method::Delete,
                below(api::Query::Query.segment(), api::Query::Slow.segment()),
            ),
    {
        Call { method: Method::Delete, endpoint: Router::slow(), envelope: Envelope::Bare }
    }

    /// Lists the queries that ran slowly.
    pub fn slow(&self) -> (call: Call)
        ensures
            call@ == Self::plain(
                Method::Get,
                below(api::Query::Query.segment(), api::Query::Slow.segment()),
            ),
    {
        Call { method: Method::Get, endpoint: Router::slow(), envelope: Envelope::Bare }
    }

    /// Kills a query that runs.
    pub fn kill(&self, query_id: &str) -> (call: Call)
        ensures
            call@ == Self::plain(Method::Delete, below(api::Query::Query.segment(), query_id@)),
    {
        Call { method: Method::Delete, endpoint: Router::kill(query_id), envelope: Envelope::Bare }
    }
}

} // verus!
