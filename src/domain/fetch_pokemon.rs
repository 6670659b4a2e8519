use vstd::prelude::*;

use crate::domain::entities::{
    strings_view, type_labels, valid_number, Pokemon, PokemonNumber, PokemonView,
};
use crate::repositories::{FetchOneError, Repository};

verus! {

/// The number of the record to fetch.
pub struct Request {
    pub number: u16,
}

/// A record, as plain values.
pub struct Response {
    pub number: u16,
    pub name: String,
    pub types: Vec<String>,
}

impl Response {
    /// The plain values of a record.
    pub fn from_pokemon(p: &Pokemon) -> (r: Response)
        ensures
            r.number == p@.0,
            r.name@ == p@.1,
            strings_view(r.types@) == type_labels(p@.2),
    {
        Response { number: p.number.value(), name: p.name.as_string(), types: p.types.to_names() }
    }
}

#[derive(Debug, Clone, Copy, PartialEq, Eq, Structural)]
pub enum Error {
    BadRequest,
    NotFound,
    Unknown,
}

/// A record as plain values: number, name and type names.
pub type Found = (u16, Seq<char>, Seq<Seq<char>>);

/// What fetching `number` from a repository holding `m` gives.
pub open spec fn fetch_outcome(m: Map<u16, PokemonView>, failing: bool, number: u16) -> Result<
    Found,
    Error,
> {
    if !valid_number(number as int) {
        Err(Error::BadRequest)
    } else if failing {
        Err(Error::Unknown)
    } else if !m.contains_key(number) {
        Err(Error::NotFound)
    } else {
        Ok((number, m[number].1, type_labels(m[number].2)))
    }
}

/// The plain values of a response, or the error.
pub open spec fn response_view(r: Result<Response, Error>) -> Result<Found, Error> {
    match r {
        Ok(resp) => Ok((resp.number, resp.name@, strings_view(resp.types@))),
        Err(e) => Err(e),
    }
}

/// Validates the number, then looks the record up.
pub fn execute<R: Repository>(repo: &R, req: Request) -> (r: Result<Response, Error>)
    requires
        repo.wf(),
    ensures
        response_view(r) == fetch_outcome(repo.records(), repo.failing(), req.number),
{
    let number = match PokemonNumber::try_new(req.number) {
        Ok(number) => number,
        Err(_) => {
            return Err(Error::BadRequest);
        },
    };
    match repo.fetch_one(number) {
        Ok(p) => Ok(Response::from_pokemon(&p)),
        Err(FetchOneError::NotFound) => Err(Error::NotFound),
        Err(FetchOneError::Unknown) => Err(Error::Unknown),
    }
}

} // verus!
