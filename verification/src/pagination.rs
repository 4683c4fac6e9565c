//! Extraction of pagination bounds from the query parameters of the
//! question-listing route.

use vstd::prelude::*;

use crate::decimal::{parse_i64, spec_parse_i64};
use crate::error::Error;
use crate::strutil::str_eq;

verus! {

/// The page of the question list a client asked for, as handed to the
/// store.
#[derive(Debug)]
pub struct Pagination {
    /// How many questions to return at most, if the client bounded it.
    pub limit: Option<i64>,
    /// How many questions to skip.
    pub offset: i64,
}

impl Default for Pagination {
    fn default() -> (r: Self)
        ensures
            r.limit is None,
            r.offset == 0,
    {
        Pagination { limit: None, offset: 0 }
    }
}

/// The value under the first occurrence of `key` in the parameter
/// list, if any.
pub open spec fn spec_lookup(params: Seq<(String, String)>, key: Seq<char>) -> Option<Seq<char>>
    decreases params.len(),
{
    if params.len() == 0 {
        None
    } else if params[0].0@ == key {
        Some(params[0].1@)
    } else {
        spec_lookup(params.skip(1), key)
    }
}

/// What `extract_pagination` returns: both parameters must be present
/// and must parse as numbers.
pub open spec fn spec_extract_pagination(params: Seq<(String, String)>) -> Result<
    Pagination,
    Error,
> {
    match (spec_lookup(params, "limit"@), spec_lookup(params, "offset"@)) {
        (Some(l), Some(o)) => match (spec_parse_i64(l), spec_parse_i64(o)) {
            (Some(lv), Some(ov)) => Ok(Pagination { limit: Some(lv), offset: ov }),
            _ => Err(Error::ParseError),
        },
        _ => Err(Error::MissingParameters),
    }
}

/// Find the value under the first occurrence of `key`.
fn lookup<'a>(params: &'a Vec<(String, String)>, key: &str) -> (r: Option<&'a String>)
    ensures
        match r {
            Some(v) => spec_lookup(params@, key@) == Some(v@),
            None => spec_lookup(params@, key@) is None,
        },
{
    let n = params.len();
    let mut i: usize = 0;
    proof {
        assert(params@.skip(0) =~= params@);
    }
    while i < n
        invariant
            i <= n,
            n == params@.len(),
            spec_lookup(params@, key@) == spec_lookup(params@.skip(i as int), key@),
        decreases n - i,
    {
        if str_eq(params[i].0.as_str(), key) {
            proof {
                assert(params@.skip(i as int)[0] == params@[i as int]);
            }
            return Some(&params[i].1);
        }
        proof {
            assert(params@.skip(i as int).skip(1) =~= params@.skip(i + 1));
        }
        i = i + 1;
    }
    proof {
        assert(params@.skip(i as int).len() == 0);
    }
    None
}

/// Extract the pagination bounds from the query parameters of the
/// `/questions` route.
///
/// Both a `limit` and an `offset` parameter must be present; each must
/// parse as a number.  A missing parameter is `MissingParameters`, an
/// unparseable one is `ParseError`.
pub fn extract_pagination(params: &Vec<(String, String)>) -> (r: Result<Pagination, Error>)
    ensures
        r == spec_extract_pagination(params@),
{
    let limit_s = lookup(params, "limit");
    let offset_s = lookup(params, "offset");
    match (limit_s, offset_s) {
        (Some(l), Some(o)) => match parse_i64(l.as_str()) {
            Some(lv) => match parse_i64(o.as_str()) {
                Some(ov) => Ok(Pagination { limit: Some(lv), offset: ov }),
                None => Err(Error::ParseError),
            },
            None => Err(Error::ParseError),
        },
        _ => Err(Error::MissingParameters),
    }
}

} // verus!
