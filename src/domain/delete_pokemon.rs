use vstd::prelude::*;

use crate::domain::entities::{valid_number, PokemonNumber, PokemonView};
use crate::repositories::{DeleteError, Repository};

verus! {

/// The number of the record to delete.
pub struct Request {
    pub number: u16,
}

#[derive(Debug, Clone, Copy, PartialEq, Eq, Structural)]
pub enum Error {
    BadRequest,
    NotFound,
    Unknown,
}

/// What deleting `number` from a repository holding `m` gives: the result,
/// and the records afterwards.
pub open spec fn delete_outcome(m: Map<u16, PokemonView>, failing: bool, number: u16) -> (
    Result<(), Error>,
    Map<u16, PokemonView>,
) {
    if !valid_number(number as int) {
        (Err(Error::BadRequest), m)
    } else if failing {
        (Err(Error::Unknown), m)
    } else if !m.contains_key(number) {
        (Err(Error::NotFound), m)
    } else {
        (Ok(()), m.remove(number))
    }
}

/// Validates the number, then removes the record.
pub fn execute<R: Repository>(repo: &mut R, req: Request) -> (r: Result<(), Error>)
    requires
        old(repo).wf(),
    ensures
        final(repo).wf(),
        final(repo).failing() == old(repo).failing(),
        (r, final(repo).records()) == delete_outcome(
            old(repo).records(),
            old(repo).failing(),
            req.number,
        ),
{
    let number = match PokemonNumber::try_new(req.number) {
        Ok(number) => number,
        Err(_) => {
            return Err(Error::BadRequest);
        },
    };
    match repo.delete(number) {
        Ok(()) => Ok(()),
        Err(DeleteError::NotFound) => Err(Error::NotFound),
        Err(DeleteError::Unknown) => Err(Error::Unknown),
    }
}

} // verus!
