//! Requests, responses and their headers as the pipeline sees them.
use vstd::prelude::*;
use vstd::string::*;
use crate::text::{eq_ignore_case, same_ignoring_case};

verus! {

/// One header line.
#[derive(Debug, Clone)]
pub struct Header {
    pub name: String,
    pub value: String,
}

/// An inbound request.
#[derive(Debug, Clone)]
pub struct Request {
    pub method: String,
    pub path: String,
    pub headers: Vec<Header>,
    pub client_addr: String,
}

/// An outbound response.
#[derive(Debug, Clone)]
pub struct Response {
    pub status: u16,
    pub headers: Vec<Header>,
    pub body: String,
}

/// The index of the first header at or after `from` whose name equals `name`
/// up to ASCII case.
pub open spec fn first_match(hs: Seq<Header>, name: Seq<char>, from: int) -> Option<int>
    decreases hs.len() - from,
{
    if from < 0 || from >= hs.len() {
        None
    } else if eq_ignore_case(hs[from].name@, name) {
        Some(from)
    } else {
        first_match(hs, name, from + 1)
    }
}

/// The value of the first header named `name`, if any.
pub open spec fn header_value_of(hs: Seq<Header>, name: Seq<char>) -> Option<Seq<char>> {
    match first_match(hs, name, 0) {
        Some(i) => Some(hs[i].value@),
        None => None,
    }
}

proof fn first_match_in_range(hs: Seq<Header>, name: Seq<char>, from: int)
    ensures
        first_match(hs, name, from) matches Some(i) ==> from <= i < hs.len(),
    decreases hs.len() - from,
{
    if 0 <= from < hs.len() && !eq_ignore_case(hs[from].name@, name) {
        first_match_in_range(hs, name, from + 1);
    }
}

/// The value of the first header named `name` (compared without ASCII case).
pub fn header_value<'a>(headers: &'a Vec<Header>, name: &str) -> (r: Option<&'a str>)
    ensures
        match header_value_of(headers@, name@) {
            Some(v) => r is Some && r->Some_0@ == v,
            None => r is None,
        },
{
    let n = headers.len();
    let mut i: usize = 0;
    while i < n
        invariant
            n == headers@.len(),
            i <= n,
            first_match(headers@, name@, 0) == first_match(headers@, name@, i as int),
        decreases n - i,
    {
        if same_ignoring_case(headers[i].name.as_str(), name) {
            proof {
                first_match_in_range(headers@, name@, 0);
            }
            return Some(headers[i].value.as_str());
        }
        i = i + 1;
    }
    None
}

} // verus!
