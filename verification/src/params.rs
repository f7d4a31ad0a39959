//! Parameters that travel in the query string of a URL.

use crate::collection::CollectionQueryParams;
use crate::text::{truth, truth_text};
use vstd::prelude::*;

verus! {

/// A list of named values, in the order they are written.
pub type Pairs = Seq<(Seq<char>, Seq<char>)>;

/// A set of parameters that can be written as a query string.
pub trait Parameters {
    /// The parameters that are set, by their names on the wire, in the order
    /// of their declaration.
    spec fn pairs(&self) -> Pairs;

    fn to_pairs(&self) -> (pairs: Vec<(String, String)>)
        ensures
            pairs.deep_view() == self.pairs(),
    ;
}

/// A truth value under `name`, if it is set.
pub open spec fn flag(name: Seq<char>, value: Option<bool>) -> Pairs {
    match value {
        Some(b) => seq![(name, truth(b))],
        None => seq![],
    }
}

/// A text under `name`, if it is set.
pub open spec fn word(name: Seq<char>, value: Option<String>) -> Pairs {
    match value {
        Some(text) => seq![(name, text@)],
        None => seq![],
    }
}

fn push_pair(pairs: &mut Vec<(String, String)>, name: &str, value: &str)
    ensures
        final(pairs).deep_view() == old(pairs).deep_view().push((name@, value@)),
{
    pairs.push((name.to_owned(), value.to_owned()));
    assert(pairs.deep_view() =~= old(pairs).deep_view().push((name@, value@)));
}

fn push_flag(pairs: &mut Vec<(String, String)>, name: &str, value: Option<bool>)
    ensures
        final(pairs).deep_view() == old(pairs).deep_view() + flag(name@, value),
{
    match value {
        Some(b) => {
            push_pair(pairs, name, truth_text(b));
            assert(pairs.deep_view() =~= old(pairs).deep_view() + flag(name@, value));
        },
        None => {
            assert(pairs.deep_view() =~= old(pairs).deep_view() + flag(name@, value));
        },
    }
}

fn push_word(pairs: &mut Vec<(String, String)>, name: &str, value: &Option<String>)
    ensures
        final(pairs).deep_view() == old(pairs).deep_view() + word(name@, *value),
{
    match value {
        Some(text) => {
            push_pair(pairs, name, text.as_str());
            assert(pairs.deep_view() =~= old(pairs).deep_view() + word(name@, *value));
        },
        None => {
            assert(pairs.deep_view() =~= old(pairs).deep_view() + word(name@, *value));
        },
    }
}

/// Parameters of the operations on documents.
pub struct DocumentQueryParams {
    pub wait_for_sync: bool,
    pub return_new: Option<bool>,
    pub return_old: Option<bool>,
    pub silent: Option<bool>,
    pub overwrite: Option<bool>,
    /// One of `ignore`, `replace`, `update`, `conflict`.
    pub overwrite_method: Option<String>,
    pub keep_null: Option<bool>,
    pub merge_objects: Option<bool>,
    pub refill_index_cache: Option<bool>,
    pub ignore_revs: Option<bool>,
}

impl Default for DocumentQueryParams {
    /// Waits for the write to reach the disk and asks for the new document
    /// back; everything else is left to the server.
    fn default() -> (params: Self)
        ensures
            params.wait_for_sync,
            params.return_new == Some(true),
            params.return_old is None,
            params.silent is None,
            params.overwrite is None,
            params.overwrite_method is None,
            params.keep_null is None,
            params.merge_objects is None,
            params.refill_index_cache is None,
            params.ignore_revs is None,
    {
        Self {
            return_new: Some(true),
            return_old: None,
            silent: None,
            wait_for_sync: true,
            overwrite: None,
            overwrite_method: None,
            keep_null: None,
            merge_objects: None,
            refill_index_cache: None,
            ignore_revs: None,
        }
    }
}

impl Parameters for DocumentQueryParams {
    open spec fn pairs(&self) -> Pairs {
        seq![("waitForSync"@, truth(self.wait_for_sync))] + flag("returnNew"@, self.return_new)
            + flag("returnOld"@, self.return_old) + flag("silent"@, self.silent) + flag(
            "overwrite"@,
            self.overwrite,
        ) + word("overwriteMode"@, self.overwrite_method) + flag("keepNull"@, self.keep_null)
            + flag("mergeObjects"@, self.merge_objects) + flag(
            "refillIndexCaches"@,
            self.refill_index_cache,
        ) + flag("ignoreRevs"@, self.ignore_revs)
    }

    fn to_pairs(&self) -> (pairs: Vec<(String, String)>) {
        let mut pairs: Vec<(String, String)> = Vec::new();
        assert(pairs.deep_view() =~= Seq::empty());
        push_pair(&mut pairs, "waitForSync", truth_text(self.wait_for_sync));
        assert(pairs.deep_view() =~= seq![("waitForSync"@, truth(self.wait_for_sync))]);
        push_flag(&mut pairs, "returnNew", self.return_new);
        push_flag(&mut pairs, "returnOld", self.return_old);
        push_flag(&mut pairs, "silent", self.silent);
        push_flag(&mut pairs, "overwrite", self.overwrite);
        push_word(&mut pairs, "overwriteMode", &self.overwrite_method);
        push_flag(&mut pairs, "keepNull", self.keep_null);
        push_flag(&mut pairs, "mergeObjects", self.merge_objects);
        push_flag(&mut pairs, "refillIndexCaches", self.refill_index_cache);
        push_flag(&mut pairs, "ignoreRevs", self.ignore_revs);
        pairs
    }
}

/// Parameters of the operations that walk the edges of a vertex.
pub struct EdgeQueryParams {
    pub vertex: String,
    pub direction: Option<String>,
}

impl Default for EdgeQueryParams {
    fn default() -> (params: Self)
        ensures
            params.vertex@ == Seq::<char>::empty(),
            params.direction is None,
    {
        Self { vertex: String::new(), direction: None }
    }
}

impl Parameters for EdgeQueryParams {
    open spec fn pairs(&self) -> Pairs {
        seq![("vertex"@, self.vertex@)] + word("direction"@, self.direction)
    }

    fn to_pairs(&self) -> (pairs: Vec<(String, String)>) {
        let mut pairs: Vec<(String, String)> = Vec::new();
        assert(pairs.deep_view() =~= Seq::empty());
        push_pair(&mut pairs, "vertex", self.vertex.as_str());
        assert(pairs.deep_view() =~= seq![("vertex"@, self.vertex@)]);
        push_word(&mut pairs, "direction", &self.direction);
        pairs
    }
}

impl Parameters for CollectionQueryParams {
    open spec fn pairs(&self) -> Pairs {
        flag("waitForSyncReplication"@, self.wait_for_sync_replication) + flag(
            "enforceReplicationFactor"@,
            self.enforce_replication_factor,
        )
    }

    fn to_pairs(&self) -> (pairs: Vec<(String, String)>) {
        let mut pairs: Vec<(String, String)> = Vec::new();
        assert(pairs.deep_view() =~= Seq::empty());
        push_flag(&mut pairs, "waitForSyncReplication", self.wait_for_sync_replication);
        assert(pairs.deep_view() =~= flag(
            "waitForSyncReplication"@,
            self.wait_for_sync_replication,
        ));
        push_flag(&mut pairs, "enforceReplicationFactor", self.enforce_replication_factor);
        pairs
    }
}

/// One parameter as it stands in a query string: the name, an equals sign and
/// the percent-encoded value; `None` where it cannot be written.
pub uninterp spec fn url_param(name: Seq<char>, value: Seq<char>) -> Option<Seq<char>>;

/// Calls `serde_url_params::to_string` on a map of one entry. The result is
/// named `url_param`; an error comes back exactly where that is `None`.
#[verifier::external_body]
fn encode_param(name: &str, value: &str) -> (encoded: std::result::Result<
    String,
    serde_url_params::Error,
>)
    ensures
        encoded matches Ok(text) ==> url_param(name@, value@) == Some(text@),
        encoded is Err ==> url_param(name@, value@) is None,
{
    serde_url_params::to_string(&std::collections::BTreeMap::from([(name, value)]))
}

/// Every parameter of a list as it stands in a query string, in order;
/// `None` where one of them cannot be written.
pub open spec fn encoded(pairs: Pairs) -> Option<Seq<Seq<char>>>
    decreases pairs.len(),
{
    if pairs.len() == 0 {
        Some(Seq::empty())
    } else {
        match (encoded(pairs.drop_last()), url_param(pairs.last().0, pairs.last().1)) {
            (Some(front), Some(last)) => Some(front.push(last)),
            _ => None,
        }
    }
}

/// The texts of `parts`, in order, with an ampersand between neighbours.
pub open spec fn joined(parts: Seq<Seq<char>>) -> Seq<char>
    decreases parts.len(),
{
    if parts.len() == 0 {
        Seq::empty()
    } else if parts.len() == 1 {
        parts[0]
    } else {
        joined(parts.drop_last()) + "&"@ + parts.last()
    }
}

/// The query string of a list of parameters: each one written by
/// `url_param`, in order, with an ampersand between neighbours. `None` where
/// one of them cannot be written.
pub open spec fn query_string(pairs: Pairs) -> Option<Seq<char>> {
    match encoded(pairs) {
        Some(parts) => Some(joined(parts)),
        None => None,
    }
}

/// Joins parameters that are written already into a query string.
pub fn join(parts: &Vec<String>) -> (text: String)
    ensures
        text@ == joined(parts.deep_view()),
{
    let mut text = String::new();
    let mut i: usize = 0;
    while i < parts.len()
        invariant
            i <= parts.len(),
            text@ == joined(parts.deep_view().take(i as int)),
        decreases parts.len() - i,
    {
        proof {
            let next = parts.deep_view().take(i + 1);
            assert(next.drop_last() =~= parts.deep_view().take(i as int));
            assert(next.last() == parts@[i as int]@);
        }
        if i == 0 {
            text = parts[i].clone();
        } else {
            text = text.concat("&").concat(parts[i].as_str());
        }
        i = i + 1;
    }
    proof {
        assert(parts.deep_view().take(i as int) =~= parts.deep_view());
    }
    text
}

/// Writes parameters as a query string.
pub fn to_string<P: Parameters>(params: &P) -> (encoded: std::result::Result<
    String,
    serde_url_params::Error,
>)
    ensures
        encoded matches Ok(text) ==> query_string(params.pairs()) == Some(text@),
        encoded is Err ==> query_string(params.pairs()) is None,
{
    let pairs = params.to_pairs();
    let mut parts: Vec<String> = Vec::new();
    let mut i: usize = 0;
    while i < pairs.len()
        invariant
            i <= pairs.len(),
            pairs.deep_view() == params.pairs(),
            self::encoded(params.pairs().take(i as int)) == Some(parts.deep_view()),
        decreases pairs.len() - i,
    {
        let ghost front = params.pairs().take(i as int);
        let ghost next = params.pairs().take(i + 1);
        let ghost before = parts.deep_view();
        proof {
            assert(next.drop_last() =~= front);
            assert(next.last() == params.pairs()[i as int]);
            assert(pairs.deep_view()[i as int] == (pairs@[i as int].0@, pairs@[i as int].1@));
        }
        match encode_param(pairs[i].0.as_str(), pairs[i].1.as_str()) {
            Ok(last) => {
                parts.push(last);
                assert(parts.deep_view() =~= before.push(last@));
            },
            Err(error) => {
                proof {
                    lemma_prefix_fails(params.pairs(), i + 1);
                }
                return Err(error);
            },
        }
        i = i + 1;
    }
    proof {
        assert(params.pairs().take(i as int) =~= params.pairs());
    }
    Ok(join(&parts))
}

/// Once a prefix of a list cannot be written, the list cannot either.
proof fn lemma_prefix_fails(pairs: Pairs, n: int)
    requires
        0 <= n <= pairs.len(),
        encoded(pairs.take(n)) is None,
    ensures
        encoded(pairs) is None,
    decreases pairs.len() - n,
{
    if n < pairs.len() {
        assert(pairs.take(n + 1).drop_last() =~= pairs.take(n));
        lemma_prefix_fails(pairs, n + 1);
    } else {
        assert(pairs.take(n) =~= pairs);
    }
}

} // verus!
