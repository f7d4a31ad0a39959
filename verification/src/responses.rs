//! The shapes of replies that several operations share.

use vstd::prelude::*;

verus! {

#[derive(Debug)]
pub struct NameResponse {
    pub name: String,
}

#[derive(Debug)]
pub struct IdResponse {
    pub id: String,
    pub error: bool,
    pub code: u8,
}

/// A reply that holds its value under `result`.
pub struct Response<T> {
    pub error: bool,
    pub code: u8,
    pub result: T,
}

/// A reply that holds the fields of its value beside `error` and `code`.
pub struct FlatResponse<T> {
    pub error: bool,
    pub code: u8,
    pub result: T,
}

} // verus!
