use vstd::prelude::*;

use crate::domain::entities::{Pokemon, PokemonName, PokemonNumber, PokemonTypes, PokemonView};

verus! {

/// Why an insert failed.
#[derive(Debug, Clone, Copy, PartialEq, Eq, Structural)]
pub enum InsertError {
    Conflict,
    Unknown,
}

/// Why listing every record failed.
#[derive(Debug, Clone, Copy, PartialEq, Eq, Structural)]
pub enum FetchAllError {
    Unknown,
}

/// Why fetching one record failed.
#[derive(Debug, Clone, Copy, PartialEq, Eq, Structural)]
pub enum FetchOneError {
    Unknown,
    NotFound,
}

/// Why a delete failed.
#[derive(Debug, Clone, Copy, PartialEq, Eq, Structural)]
pub enum DeleteError {
    NotFound,
    Unknown,
}

/// The records that a list of Pokemon holds, keyed by number; a later entry
/// with the same number shadows an earlier one.
pub open spec fn records_of(s: Seq<PokemonView>) -> Map<u16, PokemonView>
    decreases s.len(),
{
    if s.len() == 0 {
        Map::empty()
    } else {
        records_of(s.drop_last()).insert(s.last().0, s.last())
    }
}

/// No two entries of `s` share a number.
pub open spec fn unique_numbers(s: Seq<PokemonView>) -> bool {
    forall|i: int, j: int| 0 <= i < s.len() && 0 <= j < s.len() && i != j ==> s[i].0 != s[j].0
}

/// `s` lists the records of `m`, each exactly once.
pub open spec fn lists_exactly(s: Seq<PokemonView>, m: Map<u16, PokemonView>) -> bool {
    unique_numbers(s) && records_of(s) == m
}

/// The views of a list of Pokemon.
pub open spec fn pokemon_views(v: Seq<Pokemon>) -> Seq<PokemonView> {
    v.map_values(|p: Pokemon| p@)
}

/// A record is in `records_of(s)` exactly when some entry carries its number,
/// and with unique numbers it is that entry.
pub proof fn lemma_records_of(s: Seq<PokemonView>)
    ensures
        forall|k: u16| #[trigger]
            records_of(s).contains_key(k) <==> exists|i: int| 0 <= i < s.len() && s[i].0 == k,
        unique_numbers(s) ==> forall|i: int|
            0 <= i < s.len() ==> #[trigger] records_of(s)[s[i].0] == s[i],
    decreases s.len(),
{
    if s.len() > 0 {
        let d = s.drop_last();
        lemma_records_of(d);
        assert forall|k: u16| #[trigger]
            records_of(s).contains_key(k) <==> exists|i: int| 0 <= i < s.len() && s[i].0 == k by {
            if records_of(s).contains_key(k) && k == s.last().0 {
                assert(s[s.len() - 1].0 == k);
            }
            if records_of(s).contains_key(k) && k != s.last().0 {
                assert(records_of(d).contains_key(k));
                let i = choose|i: int| 0 <= i < d.len() && d[i].0 == k;
                assert(s[i].0 == k);
            }
            if exists|i: int| 0 <= i < s.len() && s[i].0 == k {
                let i = choose|i: int| 0 <= i < s.len() && s[i].0 == k;
                if i < d.len() {
                    assert(d[i].0 == k);
                    assert(records_of(d).contains_key(k));
                }
            }
        }
        if unique_numbers(s) {
            assert forall|a: int, b: int|
                0 <= a < d.len() && 0 <= b < d.len() && a != b implies d[a].0 != d[b].0 by {
                assert(d[a] == s[a] && d[b] == s[b]);
            }
            assert forall|i: int| 0 <= i < s.len() implies #[trigger] records_of(s)[s[i].0] == s[i] by {
                if i < d.len() {
                    assert(d[i] == s[i]);
                    assert(s[i].0 != s[s.len() - 1].0);
                    assert(records_of(d)[d[i].0] == d[i]);
                }
            }
        }
    }
}

/// Removing the entry at `i` removes its record and nothing else.
pub proof fn lemma_records_of_remove(s: Seq<PokemonView>, i: int)
    requires
        unique_numbers(s),
        0 <= i < s.len(),
    ensures
        records_of(s.remove(i)) == records_of(s).remove(s[i].0),
        unique_numbers(s.remove(i)),
    decreases s.len(),
{
    let d = s.drop_last();
    lemma_records_of(d);
    if i == s.len() - 1 {
        assert(s.remove(i) =~= d);
        assert(!records_of(d).contains_key(s[i].0)) by {
            if records_of(d).contains_key(s[i].0) {
                let j = choose|j: int| 0 <= j < d.len() && d[j].0 == s[i].0;
                assert(s[j].0 == s[i].0);
            }
        }
        assert(records_of(s).remove(s[i].0) =~= records_of(d));
    } else {
        assert(unique_numbers(d)) by {
            assert forall|a: int, b: int|
                0 <= a < d.len() && 0 <= b < d.len() && a != b implies d[a].0 != d[b].0 by {
                assert(d[a] == s[a] && d[b] == s[b]);
            }
        }
        lemma_records_of_remove(d, i);
        assert(s.remove(i).drop_last() =~= d.remove(i));
        assert(s.remove(i).last() == s.last());
        assert(d[i] == s[i]);
        assert(s[i].0 != s.last().0);
        assert(records_of(s.remove(i)) =~= records_of(s).remove(s[i].0));
    }
    assert forall|a: int, b: int|
        0 <= a < s.remove(i).len() && 0 <= b < s.remove(i).len() && a != b implies
        s.remove(i)[a].0 != s.remove(i)[b].0 by {
        let a2 = if a < i { a } else { a + 1 };
        let b2 = if b < i { b } else { b + 1 };
        assert(s.remove(i)[a] == s[a2]);
        assert(s.remove(i)[b] == s[b2]);
    }
}

/// Storage for Pokemon records, keyed by number.
///
/// `records` is what the backend holds; `failing` holds while the backend
/// cannot serve requests, and then every operation reports `Unknown` and
/// changes nothing. `wf` is the backend's own consistency, which every
/// operation keeps.
pub trait Repository {
    spec fn wf(&self) -> bool;

    spec fn records(&self) -> Map<u16, PokemonView>;

    spec fn failing(&self) -> bool;

    /// Stores a new record; a number already present is a conflict.
    fn insert(&mut self, number: PokemonNumber, name: PokemonName, types: PokemonTypes) -> (r:
        Result<Pokemon, InsertError>)
        requires
            old(self).wf(),
        ensures
            final(self).wf(),
            final(self).failing() == old(self).failing(),
            match r {
                Ok(p) => {
                    &&& !old(self).failing()
                    &&& !old(self).records().contains_key(number@)
                    &&& p@ == (number@, name@, types@)
                    &&& final(self).records() == old(self).records().insert(number@, p@)
                },
                Err(InsertError::Conflict) => {
                    &&& !old(self).failing()
                    &&& old(self).records().contains_key(number@)
                    &&& final(self).records() == old(self).records()
                },
                Err(InsertError::Unknown) => {
                    &&& old(self).failing()
                    &&& final(self).records() == old(self).records()
                },
            },
    ;

    /// Lists every record once, in an order of the backend's choosing.
    fn fetch_all(&self) -> (r: Result<Vec<Pokemon>, FetchAllError>)
        requires
            self.wf(),
        ensures
            match r {
                Ok(v) => !self.failing() && lists_exactly(pokemon_views(v@), self.records()),
                Err(FetchAllError::Unknown) => self.failing(),
            },
    ;

    /// The record with the given number.
    fn fetch_one(&self, number: PokemonNumber) -> (r: Result<Pokemon, FetchOneError>)
        requires
            self.wf(),
        ensures
            match r {
                Ok(p) => {
                    &&& !self.failing()
                    &&& self.records().contains_key(number@)
                    &&& p@ == self.records()[number@]
                    &&& p@.0 == number@
                },
                Err(FetchOneError::NotFound) => {
                    !self.failing() && !self.records().contains_key(number@)
                },
                Err(FetchOneError::Unknown) => self.failing(),
            },
    ;

    /// Removes the record with the given number.
    fn delete(&mut self, number: PokemonNumber) -> (r: Result<(), DeleteError>)
        requires
            old(self).wf(),
        ensures
            final(self).wf(),
            final(self).failing() == old(self).failing(),
            match r {
                Ok(()) => {
                    &&& !old(self).failing()
                    &&& old(self).records().contains_key(number@)
                    &&& final(self).records() == old(self).records().remove(number@)
                },
                Err(DeleteError::NotFound) => {
                    &&& !old(self).failing()
                    &&& !old(self).records().contains_key(number@)
                    &&& final(self).records() == old(self).records()
                },
                Err(DeleteError::Unknown) => {
                    &&& old(self).failing()
                    &&& final(self).records() == old(self).records()
                },
            },
    ;
}

/// A repository held in memory: a list of records with distinct numbers, and
/// a switch that makes it behave as a failing backend.
pub struct InMemoryRepository {
    error: bool,
    pokemons: Vec<Pokemon>,
}

impl InMemoryRepository {
    /// The records in the order they were inserted.
    pub closed spec fn entries(&self) -> Seq<PokemonView> {
        pokemon_views(self.pokemons@)
    }

    /// An empty, working repository.
    pub fn new() -> (r: InMemoryRepository)
        ensures
            r.wf(),
            r.records() == Map::<u16, PokemonView>::empty(),
            !r.failing(),
    {
        let r = InMemoryRepository { error: false, pokemons: Vec::new() };
        assert(pokemon_views(r.pokemons@) =~= Seq::<PokemonView>::empty());
        r
    }

    /// The same records, with every later operation failing.
    pub fn with_error(self) -> (r: InMemoryRepository)
        requires
            self.wf(),
        ensures
            r.wf(),
            r.records() == self.records(),
            r.failing(),
    {
        InMemoryRepository { error: true, ..self }
    }

    /// The position of the record with number `n`, if any.
    fn position(&self, n: u16) -> (r: Option<usize>)
        ensures
            match r {
                Some(i) => i < self.entries().len() && self.entries()[i as int].0 == n,
                None => forall|i: int| 0 <= i < self.entries().len() ==> #[trigger] self.entries()[i].0 != n,
            },
    {
        let mut i: usize = 0;
        while i < self.pokemons.len()
            invariant
                i <= self.pokemons@.len(),
                forall|j: int| 0 <= j < i ==> #[trigger] self.entries()[j].0 != n,
            decreases self.pokemons@.len() - i,
        {
            if self.pokemons[i].number.value() == n {
                return Some(i);
            }
            i = i + 1;
        }
        None
    }
}

impl Repository for InMemoryRepository {
    closed spec fn wf(&self) -> bool {
        unique_numbers(pokemon_views(self.pokemons@))
    }

    closed spec fn records(&self) -> Map<u16, PokemonView> {
        records_of(pokemon_views(self.pokemons@))
    }

    closed spec fn failing(&self) -> bool {
        self.error
    }

    fn insert(&mut self, number: PokemonNumber, name: PokemonName, types: PokemonTypes) -> (r:
        Result<Pokemon, InsertError>)
    {
        proof {
            lemma_records_of(self.entries());
        }
        if self.error {
            return Err(InsertError::Unknown);
        }
        let n = number.value();
        match self.position(n) {
            Some(i) => {
                assert(self.records().contains_key(n));
                Err(InsertError::Conflict)
            },
            None => {
                let p = Pokemon::new(number, name, types);
                let out = p.clone();
                let ghost before = self.entries();
                self.pokemons.push(p);
                proof {
                    assert(self.entries() =~= before.push(out@));
                    assert(self.entries().drop_last() =~= before);
                    assert(!records_of(before).contains_key(n));
                }
                Ok(out)
            },
        }
    }

    /// Lists the records in the order they were inserted.
    fn fetch_all(&self) -> (r: Result<Vec<Pokemon>, FetchAllError>)
        ensures
            r matches Ok(v) ==> pokemon_views(v@) == self.entries(),
    {
        if self.error {
            return Err(FetchAllError::Unknown);
        }
        let mut v: Vec<Pokemon> = Vec::new();
        let mut i: usize = 0;
        while i < self.pokemons.len()
            invariant
                i <= self.pokemons@.len(),
                v@.len() == i,
                pokemon_views(v@) == self.entries().subrange(0, i as int),
            decreases self.pokemons@.len() - i,
        {
            let p = self.pokemons[i].clone();
            v.push(p);
            i = i + 1;
            assert(pokemon_views(v@) =~= self.entries().subrange(0, i as int));
        }
        assert(self.entries().subrange(0, i as int) =~= self.entries());
        Ok(v)
    }

    fn fetch_one(&self, number: PokemonNumber) -> (r: Result<Pokemon, FetchOneError>)
    {
        proof {
            lemma_records_of(self.entries());
        }
        if self.error {
            return Err(FetchOneError::Unknown);
        }
        match self.position(number.value()) {
            Some(i) => {
                let p = self.pokemons[i].clone();
                assert(self.entries()[i as int] == self.pokemons@[i as int]@);
                Ok(p)
            },
            None => Err(FetchOneError::NotFound),
        }
    }

    fn delete(&mut self, number: PokemonNumber) -> (r: Result<(), DeleteError>)
    {
        proof {
            lemma_records_of(self.entries());
        }
        if self.error {
            return Err(DeleteError::Unknown);
        }
        match self.position(number.value()) {
            Some(i) => {
                let ghost before = self.entries();
                proof {
                    lemma_records_of_remove(before, i as int);
                }
                self.pokemons.remove(i);
                assert(self.entries() =~= before.remove(i as int));
                Ok(())
            },
            None => Err(DeleteError::NotFound),
        }
    }
}

} // verus!
