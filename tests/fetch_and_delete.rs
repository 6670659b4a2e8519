use pokedex::domain::create_pokemon;
use pokedex::domain::delete_pokemon;
use pokedex::domain::fetch_all_pokemons;
use pokedex::domain::fetch_pokemon;
use pokedex::repositories::InMemoryRepository;

fn create(repo: &mut InMemoryRepository, number: u16, name: &str, types: &[&str]) {
    let req = create_pokemon::Request {
        number,
        name: String::from(name),
        types: types.iter().map(|t| String::from(*t)).collect(),
    };
    assert!(create_pokemon::execute(repo, req).is_ok());
}

#[test]
fn fetch_on_empty_repository_is_not_found() {
    let repo = InMemoryRepository::new();
    let res = fetch_pokemon::execute(&repo, fetch_pokemon::Request { number: 25 });
    assert!(matches!(res, Err(fetch_pokemon::Error::NotFound)));
}

#[test]
fn fetch_after_create_returns_the_record() {
    let mut repo = InMemoryRepository::new();
    create(&mut repo, 6, "Charizard", &["Fire", "Flying"]);
    match fetch_pokemon::execute(&repo, fetch_pokemon::Request { number: 6 }) {
        Ok(resp) => {
            assert_eq!(resp.number, 6);
            assert_eq!(resp.name, String::from("Charizard"));
            assert_eq!(resp.types, vec![String::from("Fire"), String::from("Flying")]);
        }
        _ => unreachable!(),
    }
}

#[test]
fn fetch_of_invalid_number_is_a_bad_request() {
    let repo = InMemoryRepository::new();
    let res = fetch_pokemon::execute(&repo, fetch_pokemon::Request { number: 0 });
    assert!(matches!(res, Err(fetch_pokemon::Error::BadRequest)));
}

#[test]
fn delete_of_absent_number_is_not_found() {
    let mut repo = InMemoryRepository::new();
    create(&mut repo, 1, "Bulbasaur", &["Grass", "Poison"]);
    let res = delete_pokemon::execute(&mut repo, delete_pokemon::Request { number: 25 });
    assert_eq!(res, Err(delete_pokemon::Error::NotFound));
}

#[test]
fn delete_after_create_removes_the_record() {
    let mut repo = InMemoryRepository::new();
    create(&mut repo, 25, "Pikachu", &["Electric"]);
    create(&mut repo, 4, "Charmander", &["Fire"]);
    let res = delete_pokemon::execute(&mut repo, delete_pokemon::Request { number: 25 });
    assert_eq!(res, Ok(()));
    let res = fetch_pokemon::execute(&repo, fetch_pokemon::Request { number: 25 });
    assert!(matches!(res, Err(fetch_pokemon::Error::NotFound)));
    let res = fetch_pokemon::execute(&repo, fetch_pokemon::Request { number: 4 });
    assert!(res.is_ok());
}

#[test]
fn delete_of_invalid_number_is_a_bad_request() {
    let mut repo = InMemoryRepository::new();
    let res = delete_pokemon::execute(&mut repo, delete_pokemon::Request { number: 1000 });
    assert_eq!(res, Err(delete_pokemon::Error::BadRequest));
}

#[test]
fn fetch_all_lists_every_record_once() {
    let mut repo = InMemoryRepository::new();
    create(&mut repo, 25, "Pikachu", &["Electric"]);
    create(&mut repo, 4, "Charmander", &["Fire"]);
    let all = match fetch_all_pokemons::execute(&repo) {
        Ok(all) => all,
        _ => unreachable!(),
    };
    assert_eq!(all.len(), 2);
    assert_eq!(all[0].number, 25);
    assert_eq!(all[0].name, String::from("Pikachu"));
    assert_eq!(all[1].number, 4);
    assert_eq!(all[1].types, vec![String::from("Fire")]);
}

#[test]
fn failing_repository_reports_unknown_everywhere() {
    let mut repo = InMemoryRepository::new().with_error();
    let res = fetch_pokemon::execute(&repo, fetch_pokemon::Request { number: 25 });
    assert!(matches!(res, Err(fetch_pokemon::Error::Unknown)));
    assert!(matches!(
        fetch_all_pokemons::execute(&repo),
        Err(fetch_all_pokemons::Error::Unknown)
    ));
    let res = delete_pokemon::execute(&mut repo, delete_pokemon::Request { number: 25 });
    assert_eq!(res, Err(delete_pokemon::Error::Unknown));
}
