use pokedex::domain::create_pokemon::{execute, Error, Request, Response};
use pokedex::domain::entities::{PokemonName, PokemonNumber, PokemonTypes};
use pokedex::repositories::{InMemoryRepository, Repository};

#[test]
fn it_should_return_the_pokemon_number_otherwise() {
    let mut repo = InMemoryRepository::new();
    let req = Request {
        number: 25,
        name: String::from("Pikachu"),
        types: vec![String::from("Electric")],
    };

    let res = execute(&mut repo, req);

    match res {
        Ok(Response {
            number,
            name,
            types,
        }) => {
            assert_eq!(number, 25);
            assert_eq!(name, String::from("Pikachu"));
            assert_eq!(types, vec![String::from("Electric")]);
        }
        _ => unreachable!(),
    };
}

#[test]
fn it_should_return_a_bad_request_error_when_request_is_invalid() {
    let mut repo = InMemoryRepository::new();
    let req = Request {
        number: 25,
        name: String::from(""),
        types: vec![String::from("Electric")],
    };

    let res = execute(&mut repo, req);

    match res {
        Err(Error::BadRequest) => {}
        _ => unreachable!(),
    };
}

#[test]
fn it_should_return_a_conflict_error_when_pokemon_number_already_exists() {
    let number = PokemonNumber::try_from(25).unwrap();
    let name = PokemonName::try_from(String::from("Pikachu")).unwrap();
    let types = PokemonTypes::try_from(vec![String::from("Electric")]).unwrap();
    let mut repo = InMemoryRepository::new();
    let _ = repo.insert(number, name, types);
    let req = Request {
        number: 25,
        name: String::from("Charmander"),
        types: vec![String::from("Fire")],
    };

    let res = execute(&mut repo, req);

    match res {
        Err(Error::Conflict) => {}
        _ => unreachable!(),
    }
}

#[test]
fn it_should_return_an_error_when_an_unexpected_error_happens() {
    let mut repo = InMemoryRepository::new().with_error();
    let number = 25;
    let req = Request {
        number,
        name: String::from("Pikachu"),
        types: vec![String::from("Electric")],
    };

    let res = execute(&mut repo, req);

    match res {
        Err(Error::Unknown) => {}
        _ => unreachable!(),
    }
}

#[test]
fn create_rejects_out_of_range_numbers() {
    let mut repo = InMemoryRepository::new();
    for number in [0u16, 1000, 65535] {
        let req = Request {
            number,
            name: String::from("Pikachu"),
            types: vec![String::from("Electric")],
        };
        assert!(matches!(execute(&mut repo, req), Err(Error::BadRequest)));
    }
    assert_eq!(repo.fetch_all().ok().unwrap().len(), 0);
}

#[test]
fn create_rejects_unknown_or_missing_types() {
    let mut repo = InMemoryRepository::new();
    let req = Request {
        number: 4,
        name: String::from("Charmander"),
        types: vec![],
    };
    assert!(matches!(execute(&mut repo, req), Err(Error::BadRequest)));
    let req = Request {
        number: 4,
        name: String::from("Charmander"),
        types: vec![String::from("Fire"), String::from("Lava")],
    };
    assert!(matches!(execute(&mut repo, req), Err(Error::BadRequest)));
}

#[test]
fn create_with_empty_name_leaves_a_filled_repository_unchanged() {
    let mut repo = InMemoryRepository::new();
    let req = Request {
        number: 25,
        name: String::from("Pikachu"),
        types: vec![String::from("Electric")],
    };
    assert!(execute(&mut repo, req).is_ok());
    let req = Request {
        number: 4,
        name: String::from(""),
        types: vec![String::from("Fire")],
    };
    assert!(matches!(execute(&mut repo, req), Err(Error::BadRequest)));
    let all = repo.fetch_all().ok().unwrap();
    assert_eq!(all.len(), 1);
    assert_eq!(all[0].number.value(), 25);
}

#[test]
fn invalid_request_on_existing_number_is_a_bad_request() {
    let mut repo = InMemoryRepository::new();
    let req = Request {
        number: 25,
        name: String::from("Pikachu"),
        types: vec![String::from("Electric")],
    };
    assert!(execute(&mut repo, req).is_ok());
    let req = Request {
        number: 25,
        name: String::from(""),
        types: vec![String::from("Electric")],
    };
    assert!(matches!(execute(&mut repo, req), Err(Error::BadRequest)));
}

#[test]
fn repeated_creates_of_one_number_have_one_winner() {
    let mut repo = InMemoryRepository::new();
    let names = ["Pikachu", "Raichu", "Pichu", "Plusle"];
    let mut wins = 0;
    let mut conflicts = 0;
    for name in names {
        let req = Request {
            number: 25,
            name: String::from(name),
            types: vec![String::from("Electric")],
        };
        match execute(&mut repo, req) {
            Ok(_) => wins += 1,
            Err(Error::Conflict) => conflicts += 1,
            _ => unreachable!(),
        }
    }
    assert_eq!(wins, 1);
    assert_eq!(conflicts, 3);
    let all = repo.fetch_all().ok().unwrap();
    assert_eq!(all.len(), 1);
    assert_eq!(all[0].name.as_string(), String::from("Pikachu"));
}

#[test]
fn failing_repository_reports_unknown_for_every_create() {
    let mut repo = InMemoryRepository::new().with_error();
    let req = Request {
        number: 4,
        name: String::from("Charmander"),
        types: vec![String::from("Fire")],
    };
    assert!(matches!(execute(&mut repo, req), Err(Error::Unknown)));
}
