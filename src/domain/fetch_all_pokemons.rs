use vstd::prelude::*;

use crate::domain::entities::{strings_view, type_labels, PokemonView};
use crate::domain::fetch_pokemon::Response;
use crate::repositories::{lists_exactly, pokemon_views, FetchAllError, Repository};

verus! {

#[derive(Debug, Clone, Copy, PartialEq, Eq, Structural)]
pub enum Error {
    Unknown,
}

/// A record as plain values: its number, its name and the names of its types.
pub open spec fn plain_record(p: PokemonView) -> (u16, Seq<char>, Seq<Seq<char>>) {
    (p.0, p.1, type_labels(p.2))
}

/// What a response holds, in the same shape.
pub open spec fn plain_response(r: Response) -> (u16, Seq<char>, Seq<Seq<char>>) {
    (r.number, r.name@, strings_view(r.types@))
}

/// Lists every record once, as plain values.
pub fn execute<R: Repository>(repo: &R) -> (r: Result<Vec<Response>, Error>)
    requires
        repo.wf(),
    ensures
        match r {
            Ok(v) => {
                &&& !repo.failing()
                &&& exists|s: Seq<PokemonView>|
                    {
                        &&& lists_exactly(s, repo.records())
                        &&& s.len() == v@.len()
                        &&& forall|i: int|
                            0 <= i < s.len() ==> plain_response(#[trigger] v@[i]) == plain_record(
                                s[i],
                            )
                    }
            },
            Err(Error::Unknown) => repo.failing(),
        },
{
    match repo.fetch_all() {
        Ok(pokemons) => {
            let mut v: Vec<Response> = Vec::new();
            let mut i: usize = 0;
            while i < pokemons.len()
                invariant
                    i <= pokemons@.len(),
                    v@.len() == i,
                    forall|j: int|
                        0 <= j < i ==> plain_response(#[trigger] v@[j]) == plain_record(
                            pokemon_views(pokemons@)[j],
                        ),
                decreases pokemons@.len() - i,
            {
                v.push(Response::from_pokemon(&pokemons[i]));
                i = i + 1;
            }
            assert(lists_exactly(pokemon_views(pokemons@), repo.records()));
            Ok(v)
        },
        Err(FetchAllError::Unknown) => Err(Error::Unknown),
    }
}

} // verus!
