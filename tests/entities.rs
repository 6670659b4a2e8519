use pokedex::domain::entities::{
    EntityError, PokemonName, PokemonNumber, PokemonType, PokemonTypes, MAX_NAME_LEN,
};

#[test]
fn numbers_outside_the_range_are_rejected() {
    for n in [0u16, 1000, 4242, 65535] {
        assert_eq!(PokemonNumber::try_new(n).err(), Some(EntityError::BadRequest));
    }
}

#[test]
fn numbers_inside_the_range_round_trip() {
    for n in [1u16, 25, 151, 999] {
        assert_eq!(PokemonNumber::try_new(n).ok().unwrap().value(), n);
    }
}

#[test]
fn empty_and_long_names_are_rejected() {
    assert!(PokemonName::try_new(String::new()).is_err());
    let long = "a".repeat(MAX_NAME_LEN + 1);
    assert!(PokemonName::try_new(long).is_err());
}

#[test]
fn valid_names_round_trip() {
    let name = PokemonName::try_new(String::from("Pikachu")).ok().unwrap();
    assert_eq!(name.as_string(), String::from("Pikachu"));
    let longest = "é".repeat(MAX_NAME_LEN);
    let name = PokemonName::try_new(longest.clone()).ok().unwrap();
    assert_eq!(name.as_string(), longest);
}

#[test]
fn type_lists_with_unknown_names_are_rejected() {
    assert!(PokemonTypes::try_new(vec![]).is_err());
    assert!(PokemonTypes::try_new(vec![String::from("fire")]).is_err());
    assert!(PokemonTypes::try_new(vec![String::from("Electric"), String::from("Sound")]).is_err());
}

#[test]
fn type_lists_round_trip_in_order() {
    let names = vec![String::from("Water"), String::from("Ghost"), String::from("Fairy")];
    let types = PokemonTypes::try_new(names.clone()).ok().unwrap();
    assert_eq!(types.to_names(), names);
}

#[test]
fn type_names_read_and_write() {
    assert_eq!(PokemonType::from_name(&String::from("Electric")), Some(PokemonType::Electric));
    assert_eq!(PokemonType::from_name(&String::from("Ghost")), Some(PokemonType::GhostType));
    assert_eq!(PokemonType::from_name(&String::from("Light")), None);
    assert_eq!(PokemonType::Dragon.name(), String::from("Dragon"));
}
