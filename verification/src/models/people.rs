//! Results of the Xbox Live people-search endpoint.
use vstd::prelude::*;

verus! {

/// Response body from the Xbox Live people-search endpoint.
#[derive(Debug, Clone)]
pub struct PeopleSearchResponse {
    pub people: Vec<Person>,
}

/// A single result from the Xbox Live people-search endpoint.
#[derive(Debug, Clone)]
pub struct Person {
    pub xuid: String,
    pub gamertag: String,
}

} // verus!
