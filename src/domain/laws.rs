use vstd::prelude::*;

use crate::domain::create_pokemon::{self, create_outcome, valid_request, Created};
use crate::domain::delete_pokemon::{self, delete_outcome};
use crate::domain::entities::{lemma_types_round_trip, valid_number, PokemonView};
use crate::domain::fetch_pokemon::{self, fetch_outcome};

verus! {

/// Runs the create requests `reqs` one after another, as a lock around the
/// repository orders them, starting from the records `m`: the result of
/// each, and the records at the end.
pub open spec fn run_creates(m: Map<u16, PokemonView>, failing: bool, reqs: Seq<Created>) -> (
    Seq<Result<Created, create_pokemon::Error>>,
    Map<u16, PokemonView>,
)
    decreases reqs.len(),
{
    if reqs.len() == 0 {
        (Seq::empty(), m)
    } else {
        let (rs, m1) = run_creates(m, failing, reqs.drop_last());
        let last = reqs.last();
        let (o, m2) = create_outcome(m1, failing, last.0, last.1, last.2);
        (rs.push(o), m2)
    }
}

/// Fetching from an empty, working repository finds nothing; after a
/// successful create, fetching that number returns the created record.
pub proof fn lemma_fetch_after_create(
    m: Map<u16, PokemonView>,
    failing: bool,
    number: u16,
    name: Seq<char>,
    types: Seq<Seq<char>>,
)
    ensures
        valid_number(number as int) ==> fetch_outcome(Map::empty(), false, number) == Err::<
            fetch_pokemon::Found,
            fetch_pokemon::Error,
        >(fetch_pokemon::Error::NotFound),
        create_outcome(m, failing, number, name, types).0 is Ok ==> fetch_outcome(
            create_outcome(m, failing, number, name, types).1,
            failing,
            number,
        ) == Ok::<fetch_pokemon::Found, fetch_pokemon::Error>((number, name, types)),
{
    if create_outcome(m, failing, number, name, types).0 is Ok {
        lemma_types_round_trip(types);
    }
}

/// Deleting an absent number from a working repository reports it missing;
/// after a successful create, deleting that number succeeds and a later
/// fetch of it reports it missing.
pub proof fn lemma_delete_after_create(
    m: Map<u16, PokemonView>,
    failing: bool,
    number: u16,
    name: Seq<char>,
    types: Seq<Seq<char>>,
)
    ensures
        valid_number(number as int) && !failing && !m.contains_key(number) ==> delete_outcome(
            m,
            failing,
            number,
        ).0 == Err::<(), delete_pokemon::Error>(delete_pokemon::Error::NotFound),
        create_outcome(m, failing, number, name, types).0 is Ok ==> {
            let created = create_outcome(m, failing, number, name, types).1;
            let (d, after) = delete_outcome(created, failing, number);
            &&& d == Ok::<(), delete_pokemon::Error>(())
            &&& after == m.remove(number)
            &&& fetch_outcome(after, failing, number) == Err::<
                fetch_pokemon::Found,
                fetch_pokemon::Error,
            >(fetch_pokemon::Error::NotFound)
        },
{
    if create_outcome(m, failing, number, name, types).0 is Ok {
        let created = create_outcome(m, failing, number, name, types).1;
        assert(created.remove(number) =~= m.remove(number));
    }
}

/// A failing backend makes every use-case report `Unknown` on a valid
/// request, and leaves the records as they were.
pub proof fn lemma_failing_backend(
    m: Map<u16, PokemonView>,
    number: u16,
    name: Seq<char>,
    types: Seq<Seq<char>>,
)
    ensures
        valid_request(number, name, types) ==> create_outcome(m, true, number, name, types) == (
            Err::<Created, create_pokemon::Error>(create_pokemon::Error::Unknown),
            m,
        ),
        valid_number(number as int) ==> fetch_outcome(m, true, number) == Err::<
            fetch_pokemon::Found,
            fetch_pokemon::Error,
        >(fetch_pokemon::Error::Unknown),
        valid_number(number as int) ==> delete_outcome(m, true, number) == (
            Err::<(), delete_pokemon::Error>(delete_pokemon::Error::Unknown),
            m,
        ),
{
}

/// Of several valid creates of one number that is not yet present, run one
/// at a time on a working repository, exactly the first succeeds and every
/// later one is a conflict; the number then holds the first request's
/// record and no other record changes.
pub proof fn lemma_creates_of_one_number(
    m: Map<u16, PokemonView>,
    number: u16,
    reqs: Seq<Created>,
)
    requires
        reqs.len() > 0,
        !m.contains_key(number),
        forall|i: int|
            0 <= i < reqs.len() ==> (#[trigger] reqs[i]).0 == number && valid_request(
                reqs[i].0,
                reqs[i].1,
                reqs[i].2,
            ),
    ensures
        run_creates(m, false, reqs).0.len() == reqs.len(),
        run_creates(m, false, reqs).0[0] == Ok::<Created, create_pokemon::Error>(reqs[0]),
        forall|i: int|
            0 < i < reqs.len() ==> #[trigger] run_creates(m, false, reqs).0[i] == Err::<
                Created,
                create_pokemon::Error,
            >(create_pokemon::Error::Conflict),
        run_creates(m, false, reqs).1 == create_outcome(
            m,
            false,
            reqs[0].0,
            reqs[0].1,
            reqs[0].2,
        ).1,
    decreases reqs.len(),
{
    let d = reqs.drop_last();
    if reqs.len() == 1 {
        assert(d.len() == 0);
    } else {
        assert forall|i: int| 0 <= i < d.len() implies (#[trigger] d[i]).0 == number
            && valid_request(d[i].0, d[i].1, d[i].2) by {
            assert(d[i] == reqs[i]);
        }
        lemma_creates_of_one_number(m, number, d);
        assert(d[0] == reqs[0]);
        let m1 = run_creates(m, false, d).1;
        assert(m1.contains_key(number));
        assert(reqs.last() == reqs[reqs.len() - 1]);
        let rs = run_creates(m, false, reqs).0;
        assert forall|i: int| 0 < i < reqs.len() implies #[trigger] rs[i] == Err::<
            Created,
            create_pokemon::Error,
        >(create_pokemon::Error::Conflict) by {
            if i < d.len() {
                assert(rs[i] == run_creates(m, false, d).0[i]);
            }
        }
    }
}

} // verus!
