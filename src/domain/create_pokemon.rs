use vstd::prelude::*;

use crate::domain::entities::{
    parse_types, strings_view, valid_name, valid_number, valid_type_names, PokemonName,
    PokemonNumber, PokemonTypes, PokemonView,
};
use crate::repositories::{InsertError, Repository};

verus! {

/// What a caller asks to create, as plain values.
pub struct Request {
    pub number: u16,
    pub name: String,
    pub types: Vec<String>,
}

/// The record that was created, as plain values.
pub struct Response {
    pub number: u16,
    pub name: String,
    pub types: Vec<String>,
}

#[derive(Debug, Clone, Copy, PartialEq, Eq, Structural)]
pub enum Error {
    BadRequest,
    Conflict,
    Unknown,
}

/// Whether every field of the request passes validation.
pub open spec fn valid_request(number: u16, name: Seq<char>, types: Seq<Seq<char>>) -> bool {
    valid_number(number as int) && valid_name(name) && valid_type_names(types)
}

/// A created record as plain values: number, name and type names.
pub type Created = (u16, Seq<char>, Seq<Seq<char>>);

/// What creating `(number, name, types)` in a repository holding `m` gives:
/// the result, and the records afterwards. Validation comes first, then the
/// backend's state, then the uniqueness of the number.
pub open spec fn create_outcome(
    m: Map<u16, PokemonView>,
    failing: bool,
    number: u16,
    name: Seq<char>,
    types: Seq<Seq<char>>,
) -> (Result<Created, Error>, Map<u16, PokemonView>) {
    if !valid_request(number, name, types) {
        (Err(Error::BadRequest), m)
    } else if failing {
        (Err(Error::Unknown), m)
    } else if m.contains_key(number) {
        (Err(Error::Conflict), m)
    } else {
        (Ok((number, name, types)), m.insert(number, (number, name, parse_types(types))))
    }
}

/// The plain values of a response, or the error.
pub open spec fn response_view(r: Result<Response, Error>) -> Result<Created, Error> {
    match r {
        Ok(resp) => Ok((resp.number, resp.name@, strings_view(resp.types@))),
        Err(e) => Err(e),
    }
}

/// Validates the request, then inserts it. An invalid request never reaches
/// the repository; a conflict or a backend failure is passed on.
pub fn execute<R: Repository>(repo: &mut R, req: Request) -> (r: Result<Response, Error>)
    requires
        old(repo).wf(),
    ensures
        final(repo).wf(),
        final(repo).failing() == old(repo).failing(),
        (response_view(r), final(repo).records()) == create_outcome(
            old(repo).records(),
            old(repo).failing(),
            req.number,
            req.name@,
            strings_view(req.types@),
        ),
{
    match (
        PokemonNumber::try_new(req.number),
        PokemonName::try_new(req.name),
        PokemonTypes::try_new(req.types),
    ) {
        (Ok(number), Ok(name), Ok(types)) => match repo.insert(number, name, types) {
            Ok(p) => {
                let resp = Response {
                    number: p.number.value(),
                    name: p.name.as_string(),
                    types: p.types.to_names(),
                };
                Ok(resp)
            },
            Err(InsertError::Conflict) => Err(Error::Conflict),
            Err(InsertError::Unknown) => Err(Error::Unknown),
        },
        _ => Err(Error::BadRequest),
    }
}

} // verus!
