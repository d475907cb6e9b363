use vstd::prelude::*;
use vstd::string::StringExecFns;
use vstd::string::StrSliceExecFns;
use crate::json::Json;
use crate::record::{PrRecord, PrRecordV, RunError};

verus! {

/// The search query for the open pull requests a user authored. The user
/// name is embedded verbatim, without any encoding.
pub open spec fn search_query_spec(user: Seq<char>) -> Seq<char> {
    "author:"@ + user + " type:pr is:open"@
}

/// Builds the query `author:<user> type:pr is:open`.
pub fn search_query(user: &str) -> (q: String)
    ensures
        q@ == search_query_spec(user@),
{
    let mut q = "author:".to_owned();
    q.append(user);
    q.append(" type:pr is:open");
    proof {
        assert(q@ =~= search_query_spec(user@));
    }
    q
}

/// The items array of a search response: empty when `items` is absent or
/// not an array.
pub open spec fn items_of(resp: Json) -> Seq<Json> {
    match resp.spec_get("items"@) {
        Some(j) => match j.arr_value() {
            Some(elems) => elems,
            None => Seq::empty(),
        },
        None => Seq::empty(),
    }
}

/// The record one search item yields: `None` when the item lacks a usable
/// repository reference or pull number.
pub open spec fn item_record(item: Json) -> Option<PrRecordV> {
    match item.spec_get("repository_url"@) {
        Some(r) => match r.str_value() {
            Some(repo) => match item.spec_get("number"@) {
                Some(n) => match n.num_value() {
                    Some(num) => if repo.len() > 0 && num > 0 {
                        Some(PrRecordV { repo, number: num })
                    } else {
                        None
                    },
                    None => None,
                },
                None => None,
            },
            None => None,
        },
        None => None,
    }
}

/// Parses a search response into pull-request records, one per item, in
/// the response's order. A single unusable item fails the whole parse
/// with `MalformedRecord` naming the first such item.
pub fn parse_search(resp: &Json) -> (r: Result<Vec<PrRecord>, RunError>)
    ensures
        match r {
            Ok(recs) => {
                &&& recs@.len() == items_of(*resp).len()
                &&& forall|i: int|
                    0 <= i < recs@.len() ==> item_record(items_of(*resp)[i]) == Some(recs@[i]@)
                &&& forall|i: int| 0 <= i < recs@.len() ==> (#[trigger] recs@[i]).wf()
            },
            Err(e) => {
                &&& e matches RunError::MalformedRecord { index }
                &&& match e {
                    RunError::MalformedRecord { index } => {
                        &&& index < items_of(*resp).len()
                        &&& item_record(items_of(*resp)[index as int]) is None
                        &&& forall|j: int|
                            0 <= j < index ==> item_record(items_of(*resp)[j]) is Some
                    },
                    _ => false,
                }
            },
        },
{
    let mut recs: Vec<PrRecord> = Vec::new();
    let items_field = match resp.get("items") {
        Some(j) => j,
        None => {
            return Ok(recs);
        },
    };
    let items = match items_field.as_array() {
        Some(v) => v,
        None => {
            return Ok(recs);
        },
    };
    let ghost gitems = items_of(*resp);
    proof {
        assert(gitems =~= items@);
    }
    let mut i: usize = 0;
    while i < items.len()
        invariant
            i <= items@.len(),
            gitems == items@,
            gitems == items_of(*resp),
            recs@.len() == i,
            forall|j: int| 0 <= j < i ==> item_record(items@[j]) == Some(recs@[j]@),
            forall|j: int| 0 <= j < i ==> (#[trigger] recs@[j]).wf(),
        decreases items@.len() - i,
    {
        let item = &items[i];
        let repo = match item.get("repository_url") {
            Some(v) => match v.as_str() {
                Some(s) => Some(s),
                None => None,
            },
            None => None,
        };
        let number = match item.get("number") {
            Some(v) => v.as_u64(),
            None => None,
        };
        match (repo, number) {
            (Some(repo), Some(number)) => {
                if repo.as_str().unicode_len() > 0 && number > 0 {
                    recs.push(PrRecord { repo: repo.clone(), number });
                } else {
                    return Err(RunError::MalformedRecord { index: i });
                }
            },
            _ => {
                return Err(RunError::MalformedRecord { index: i });
            },
        }
        i += 1;
    }
    Ok(recs)
}

} // verus!
