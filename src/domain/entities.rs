use vstd::prelude::*;

verus! {

/// Smallest valid Pokedex number.
pub const MIN_NUMBER: u16 = 1;

/// Largest valid Pokedex number.
pub const MAX_NUMBER: u16 = 999;

/// A Pokedex number, always within `MIN_NUMBER..=MAX_NUMBER`.
pub struct PokemonNumber {
    value: u16,
}

/// Whether `n` is an acceptable Pokedex number.
pub open spec fn valid_number(n: int) -> bool {
    MIN_NUMBER <= n <= MAX_NUMBER
}

impl PokemonNumber {
    #[verifier::type_invariant]
    spec fn inv(self) -> bool {
        valid_number(self.value as int)
    }

    pub closed spec fn view(self) -> u16 {
        self.value
    }

    /// Validates `n`; numbers outside the valid range are rejected.
    pub fn try_new(n: u16) -> (r: Result<PokemonNumber, EntityError>)
        ensures
            r is Ok <==> valid_number(n as int),
            r matches Ok(p) ==> p@ == n,
    {
        if MIN_NUMBER <= n && n <= MAX_NUMBER {
            Ok(PokemonNumber { value: n })
        } else {
            Err(EntityError::BadRequest)
        }
    }

    /// The number as a plain integer.
    pub fn value(&self) -> (r: u16)
        ensures
            r == self@,
            valid_number(r as int),
    {
        proof {
            use_type_invariant(self);
        }
        self.value
    }
}

/// Longest accepted name, in characters.
pub const MAX_NAME_LEN: usize = 100;

/// Whether `s` is an acceptable Pokemon name: non-empty and not too long.
pub open spec fn valid_name(s: Seq<char>) -> bool {
    0 < s.len() <= MAX_NAME_LEN
}

/// A Pokemon name, never empty and at most `MAX_NAME_LEN` characters long.
pub struct PokemonName {
    value: String,
}

impl PokemonName {
    #[verifier::type_invariant]
    spec fn inv(self) -> bool {
        valid_name(self.value@)
    }

    pub closed spec fn view(self) -> Seq<char> {
        self.value@
    }

    /// Validates `s`; empty or over-long names are rejected.
    pub fn try_new(s: String) -> (r: Result<PokemonName, EntityError>)
        ensures
            r is Ok <==> valid_name(s@),
            r matches Ok(p) ==> p@ == s@,
    {
        let len = s.as_str().unicode_len();
        if 0 < len && len <= MAX_NAME_LEN {
            Ok(PokemonName { value: s })
        } else {
            Err(EntityError::BadRequest)
        }
    }

    /// A copy of the name.
    pub fn as_string(&self) -> (r: String)
        ensures
            r@ == self@,
            valid_name(r@),
    {
        proof {
            use_type_invariant(self);
        }
        self.value.clone()
    }
}

/// The recognised Pokemon types.
#[derive(Debug, Clone, Copy, PartialEq, Eq, Structural)]
pub enum PokemonType {
    Normal,
    Fire,
    Water,
    Electric,
    Grass,
    Ice,
    Fighting,
    Poison,
    Ground,
    Flying,
    Psychic,
    Bug,
    Rock,
    /// Written `Ghost`.
    GhostType,
    Dragon,
    Dark,
    Steel,
    Fairy,
}

/// The name under which each type is written.
pub open spec fn type_label(t: PokemonType) -> Seq<char> {
    match t {
        PokemonType::Normal => "Normal"@,
        PokemonType::Fire => "Fire"@,
        PokemonType::Water => "Water"@,
        PokemonType::Electric => "Electric"@,
        PokemonType::Grass => "Grass"@,
        PokemonType::Ice => "Ice"@,
        PokemonType::Fighting => "Fighting"@,
        PokemonType::Poison => "Poison"@,
        PokemonType::Ground => "Ground"@,
        PokemonType::Flying => "Flying"@,
        PokemonType::Psychic => "Psychic"@,
        PokemonType::Bug => "Bug"@,
        PokemonType::Rock => "Rock"@,
        PokemonType::GhostType => "Ghost"@,
        PokemonType::Dragon => "Dragon"@,
        PokemonType::Dark => "Dark"@,
        PokemonType::Steel => "Steel"@,
        PokemonType::Fairy => "Fairy"@,
    }
}

/// The type that `s` names, if any.
pub open spec fn parse_type(s: Seq<char>) -> Option<PokemonType> {
    if s == "Normal"@ {
        Some(PokemonType::Normal)
    } else if s == "Fire"@ {
        Some(PokemonType::Fire)
    } else if s == "Water"@ {
        Some(PokemonType::Water)
    } else if s == "Electric"@ {
        Some(PokemonType::Electric)
    } else if s == "Grass"@ {
        Some(PokemonType::Grass)
    } else if s == "Ice"@ {
        Some(PokemonType::Ice)
    } else if s == "Fighting"@ {
        Some(PokemonType::Fighting)
    } else if s == "Poison"@ {
        Some(PokemonType::Poison)
    } else if s == "Ground"@ {
        Some(PokemonType::Ground)
    } else if s == "Flying"@ {
        Some(PokemonType::Flying)
    } else if s == "Psychic"@ {
        Some(PokemonType::Psychic)
    } else if s == "Bug"@ {
        Some(PokemonType::Bug)
    } else if s == "Rock"@ {
        Some(PokemonType::Rock)
    } else if s == "Ghost"@ {
        Some(PokemonType::GhostType)
    } else if s == "Dragon"@ {
        Some(PokemonType::Dragon)
    } else if s == "Dark"@ {
        Some(PokemonType::Dark)
    } else if s == "Steel"@ {
        Some(PokemonType::Steel)
    } else if s == "Fairy"@ {
        Some(PokemonType::Fairy)
    } else {
        None
    }
}

/// Whether `s` is the name of some type.
pub open spec fn is_type_name(s: Seq<char>) -> bool {
    parse_type(s) is Some
}

/// The types that a list of names stands for, where each is a type name.
pub open spec fn parse_types(ss: Seq<Seq<char>>) -> Seq<PokemonType> {
    ss.map_values(|s: Seq<char>| parse_type(s).unwrap())
}

/// Reading a list of valid type names and writing the types back gives the
/// same names, in the same order.
pub proof fn lemma_types_round_trip(ss: Seq<Seq<char>>)
    requires
        valid_type_names(ss),
    ensures
        type_labels(parse_types(ss)) == ss,
{
    assert forall|i: int| 0 <= i < ss.len() implies #[trigger] type_labels(parse_types(ss))[i]
        == ss[i] by {
        assert(is_type_name(ss[i]));
    }
    assert(type_labels(parse_types(ss)) =~= ss);
}

/// Whether every string of `ss` names a type, and there is at least one.
pub open spec fn valid_type_names(ss: Seq<Seq<char>>) -> bool {
    ss.len() > 0 && forall|i: int| 0 <= i < ss.len() ==> is_type_name(#[trigger] ss[i])
}

/// The names of a sequence of types.
pub open spec fn type_labels(ts: Seq<PokemonType>) -> Seq<Seq<char>> {
    ts.map_values(|t: PokemonType| type_label(t))
}

/// The views of a vector of strings.
pub open spec fn strings_view(v: Seq<String>) -> Seq<Seq<char>> {
    v.map_values(|s: String| s@)
}

/// Whether `s` holds exactly the characters of `lit`.
fn same_text(s: &String, lit: &str) -> (r: bool)
    ensures
        r == (s@ == lit@),
{
    let l = lit.to_owned();
    *s == l
}

impl PokemonType {
    /// Reads a type from its name; `None` for an unknown name.
    pub fn from_name(s: &String) -> (r: Option<PokemonType>)
        ensures
            r == parse_type(s@),
            r matches Some(t) ==> type_label(t) == s@,
    {
        if same_text(s, "Normal") {
            Some(PokemonType::Normal)
        } else if same_text(s, "Fire") {
            Some(PokemonType::Fire)
        } else if same_text(s, "Water") {
            Some(PokemonType::Water)
        } else if same_text(s, "Electric") {
            Some(PokemonType::Electric)
        } else if same_text(s, "Grass") {
            Some(PokemonType::Grass)
        } else if same_text(s, "Ice") {
            Some(PokemonType::Ice)
        } else if same_text(s, "Fighting") {
            Some(PokemonType::Fighting)
        } else if same_text(s, "Poison") {
            Some(PokemonType::Poison)
        } else if same_text(s, "Ground") {
            Some(PokemonType::Ground)
        } else if same_text(s, "Flying") {
            Some(PokemonType::Flying)
        } else if same_text(s, "Psychic") {
            Some(PokemonType::Psychic)
        } else if same_text(s, "Bug") {
            Some(PokemonType::Bug)
        } else if same_text(s, "Rock") {
            Some(PokemonType::Rock)
        } else if same_text(s, "Ghost") {
            Some(PokemonType::GhostType)
        } else if same_text(s, "Dragon") {
            Some(PokemonType::Dragon)
        } else if same_text(s, "Dark") {
            Some(PokemonType::Dark)
        } else if same_text(s, "Steel") {
            Some(PokemonType::Steel)
        } else if same_text(s, "Fairy") {
            Some(PokemonType::Fairy)
        } else {
            None
        }
    }

    /// The name of this type.
    pub fn name(&self) -> (r: String)
        ensures
            r@ == type_label(*self),
    {
        match self {
            PokemonType::Normal => "Normal".to_owned(),
            PokemonType::Fire => "Fire".to_owned(),
            PokemonType::Water => "Water".to_owned(),
            PokemonType::Electric => "Electric".to_owned(),
            PokemonType::Grass => "Grass".to_owned(),
            PokemonType::Ice => "Ice".to_owned(),
            PokemonType::Fighting => "Fighting".to_owned(),
            PokemonType::Poison => "Poison".to_owned(),
            PokemonType::Ground => "Ground".to_owned(),
            PokemonType::Flying => "Flying".to_owned(),
            PokemonType::Psychic => "Psychic".to_owned(),
            PokemonType::Bug => "Bug".to_owned(),
            PokemonType::Rock => "Rock".to_owned(),
            PokemonType::GhostType => "Ghost".to_owned(),
            PokemonType::Dragon => "Dragon".to_owned(),
            PokemonType::Dark => "Dark".to_owned(),
            PokemonType::Steel => "Steel".to_owned(),
            PokemonType::Fairy => "Fairy".to_owned(),
        }
    }
}

/// A non-empty list of types, in the order given.
pub struct PokemonTypes {
    values: Vec<PokemonType>,
}

impl PokemonTypes {
    #[verifier::type_invariant]
    spec fn inv(self) -> bool {
        self.values@.len() > 0
    }

    pub closed spec fn view(self) -> Seq<PokemonType> {
        self.values@
    }

    /// Reads each name as a type; an empty list or an unknown name is rejected.
    pub fn try_new(names: Vec<String>) -> (r: Result<PokemonTypes, EntityError>)
        ensures
            r is Ok <==> valid_type_names(strings_view(names@)),
            r matches Ok(ts) ==> ts@ == parse_types(strings_view(names@)),
            r matches Ok(ts) ==> type_labels(ts@) == strings_view(names@),
    {
        if names.len() == 0 {
            return Err(EntityError::BadRequest);
        }
        let mut values: Vec<PokemonType> = Vec::new();
        let mut i: usize = 0;
        while i < names.len()
            invariant
                i <= names@.len(),
                values@.len() == i,
                type_labels(values@) == strings_view(names@).subrange(0, i as int),
                values@ == parse_types(strings_view(names@)).subrange(0, i as int),
                forall|j: int| 0 <= j < i ==> is_type_name(#[trigger] strings_view(names@)[j]),
            decreases names@.len() - i,
        {
            match PokemonType::from_name(&names[i]) {
                Some(t) => {
                    values.push(t);
                },
                None => {
                    assert(!is_type_name(strings_view(names@)[i as int]));
                    return Err(EntityError::BadRequest);
                },
            }
            i = i + 1;
            assert(type_labels(values@) =~= strings_view(names@).subrange(0, i as int));
            assert(values@ =~= parse_types(strings_view(names@)).subrange(0, i as int));
        }
        assert(strings_view(names@).subrange(0, i as int) =~= strings_view(names@));
        assert(parse_types(strings_view(names@)).subrange(0, i as int) =~= parse_types(
            strings_view(names@),
        ));
        Ok(PokemonTypes { values })
    }

    /// The names of the types, in order.
    pub fn to_names(&self) -> (r: Vec<String>)
        ensures
            strings_view(r@) == type_labels(self@),
            r@.len() > 0,
    {
        proof {
            use_type_invariant(self);
        }
        let mut r: Vec<String> = Vec::new();
        let mut i: usize = 0;
        while i < self.values.len()
            invariant
                i <= self.values@.len(),
                r@.len() == i,
                strings_view(r@) == type_labels(self.values@).subrange(0, i as int),
            decreases self.values@.len() - i,
        {
            let n = self.values[i].name();
            r.push(n);
            i = i + 1;
            assert(strings_view(r@) =~= type_labels(self.values@).subrange(0, i as int));
        }
        assert(type_labels(self.values@).subrange(0, i as int) =~= type_labels(self.values@));
        r
    }
}

impl Clone for PokemonName {
    fn clone(&self) -> (r: Self)
        ensures
            r@ == self@,
    {
        proof {
            use_type_invariant(self);
        }
        PokemonName { value: self.value.clone() }
    }
}

impl Clone for PokemonTypes {
    fn clone(&self) -> (r: Self)
        ensures
            r@ == self@,
    {
        proof {
            use_type_invariant(self);
        }
        PokemonTypes { values: self.values.clone() }
    }
}

impl Clone for PokemonNumber {
    fn clone(&self) -> (r: Self)
        ensures
            r@ == self@,
    {
        proof {
            use_type_invariant(self);
        }
        PokemonNumber { value: self.value }
    }
}

/// A Pokemon as plain values: number, name and types.
pub type PokemonView = (u16, Seq<char>, Seq<PokemonType>);

/// A Pokemon record; its number is its key in a repository.
pub struct Pokemon {
    pub number: PokemonNumber,
    pub name: PokemonName,
    pub types: PokemonTypes,
}

impl Pokemon {
    pub open spec fn view(self) -> PokemonView {
        (self.number@, self.name@, self.types@)
    }

    pub fn new(number: PokemonNumber, name: PokemonName, types: PokemonTypes) -> (r: Pokemon)
        ensures
            r@ == (number@, name@, types@),
    {
        Pokemon { number, name, types }
    }
}

impl Clone for Pokemon {
    fn clone(&self) -> (r: Self)
        ensures
            r@ == self@,
    {
        Pokemon { number: self.number.clone(), name: self.name.clone(), types: self.types.clone() }
    }
}

impl TryFrom<u16> for PokemonNumber {
    type Error = EntityError;

    fn try_from(n: u16) -> Result<PokemonNumber, EntityError> {
        let r = PokemonNumber::try_new(n);
        proof {
            if r is Ok {
                assert(r->Ok_0 == PokemonNumber { value: n });
            } else {
                assert(r->Err_0 == EntityError::BadRequest);
            }
        }
        r
    }
}

impl vstd::std_specs::convert::TryFromSpecImpl<u16> for PokemonNumber {
    open spec fn obeys_try_from_spec() -> bool {
        true
    }

    closed spec fn try_from_spec(n: u16) -> Result<PokemonNumber, EntityError> {
        if valid_number(n as int) {
            Ok(PokemonNumber { value: n })
        } else {
            Err(EntityError::BadRequest)
        }
    }
}

impl TryFrom<String> for PokemonName {
    type Error = EntityError;

    fn try_from(s: String) -> Result<PokemonName, EntityError> {
        PokemonName::try_new(s)
    }
}

impl vstd::std_specs::convert::TryFromSpecImpl<String> for PokemonName {
    open spec fn obeys_try_from_spec() -> bool {
        false
    }

    closed spec fn try_from_spec(s: String) -> Result<PokemonName, EntityError> {
        Err(EntityError::BadRequest)
    }
}

impl TryFrom<Vec<String>> for PokemonTypes {
    type Error = EntityError;

    fn try_from(names: Vec<String>) -> Result<PokemonTypes, EntityError> {
        PokemonTypes::try_new(names)
    }
}

impl vstd::std_specs::convert::TryFromSpecImpl<Vec<String>> for PokemonTypes {
    open spec fn obeys_try_from_spec() -> bool {
        false
    }

    closed spec fn try_from_spec(names: Vec<String>) -> Result<PokemonTypes, EntityError> {
        Err(EntityError::BadRequest)
    }
}

/// Why a value object could not be built.
#[derive(Debug, Clone, Copy, PartialEq, Eq, Structural)]
pub enum EntityError {
    BadRequest,
}

} // verus!
