use elus_store::db::{get_elu_by_email, insert_person, Status, Store};
use elus_store::handlers::{
    create_person_create, create_person_new, elus, get_person_by_email, index, PersonData,
};
use elus_store::mandates::blob_from_mandates;

fn insert_test_persons(store: &mut Store) {
    let persons = vec![
        (
            "Jean Dupont",
            "jean.dupont@example.com",
            vec!["Maire".to_string(), "Conseiller régional".to_string()],
        ),
        ("Marie Martin", "marie.martin@example.com", vec!["Députée".to_string()]),
        (
            "Pierre Durand",
            "pierre.durand@example.com",
            vec!["Sénateur".to_string(), "Conseiller municipal".to_string()],
        ),
    ];
    for (name, email, mandates) in persons {
        let blob = blob_from_mandates(&mandates);
        insert_person(name.to_string(), email.to_string(), blob, store)
            .expect("Failed to insert test data");
    }
}

#[test]
fn test_hello_world() {
    assert_eq!(index(), "hello world");
}

#[test]
fn test_elus_endpoint() {
    let mut store = Store::new();
    insert_test_persons(&mut store);

    let returned_persons: Vec<PersonData> = elus(&store);
    assert_eq!(returned_persons.len(), 3);
    assert_eq!(returned_persons[0].name, "Jean Dupont");
    assert_eq!(returned_persons[0].email, "jean.dupont@example.com");
    assert_eq!(returned_persons[0].mandates.len(), 2);
    assert_eq!(returned_persons[1].name, "Marie Martin");
    assert_eq!(returned_persons[2].name, "Pierre Durand");
}

#[test]
fn test_get_person_by_email() {
    let mut store = Store::new();
    insert_test_persons(&mut store);

    let person = get_person_by_email("marie.martin@example.com".to_string(), &store)
        .expect("person should be found");
    assert_eq!(person.name, "Marie Martin");
    assert_eq!(person.email, "marie.martin@example.com");
    assert_eq!(person.mandates.len(), 1);
    assert_eq!(person.mandates[0], "Députée");

    let missing = get_person_by_email("nonexistent@example.com".to_string(), &store);
    assert!(missing.is_none());
}

#[test]
fn test_create_person_new() {
    let mut store = Store::new();

    let new_person = PersonData {
        name: "Alice Wonderland".to_string(),
        email: "alice@example.com".to_string(),
        mandates: vec!["Conseillère".to_string()],
    };

    let created = create_person_new(&new_person, &mut store).expect("creation should succeed");
    assert_eq!(created.name, "Alice Wonderland");
    assert_eq!(created.email, "alice@example.com");
    assert_eq!(created.mandates.len(), 1);
    assert_eq!(created.mandates[0], "Conseillère");
}

#[test]
fn test_create_person_create_alias() {
    let mut store = Store::new();

    let new_person = PersonData {
        name: "Bob Builder".to_string(),
        email: "bob@example.com".to_string(),
        mandates: vec!["Architecte".to_string(), "Ingénieur".to_string()],
    };

    let created = create_person_create(&new_person, &mut store).expect("creation should succeed");
    assert_eq!(created.name, "Bob Builder");
    assert_eq!(created.email, "bob@example.com");
    assert_eq!(created.mandates.len(), 2);
}

#[test]
fn test_create_person_duplicate_email() {
    let mut store = Store::new();
    insert_test_persons(&mut store);

    let duplicate_email_person = PersonData {
        name: "Different Name".to_string(),
        email: "jean.dupont@example.com".to_string(),
        mandates: vec!["Some mandate".to_string()],
    };

    let result = create_person_new(&duplicate_email_person, &mut store);
    assert_eq!(result.unwrap_err(), Status::Conflict);
}

#[test]
fn test_create_person_duplicate_name() {
    let mut store = Store::new();
    insert_test_persons(&mut store);

    let duplicate_name_person = PersonData {
        name: "Jean Dupont".to_string(),
        email: "different.email@example.com".to_string(),
        mandates: vec!["Some mandate".to_string()],
    };

    let result = create_person_new(&duplicate_name_person, &mut store);
    assert_eq!(result.unwrap_err(), Status::Conflict);
}

#[test]
fn get_elu_by_email_on_empty_store_is_not_found() {
    let store = Store::new();
    let result = get_elu_by_email("anyone@example.com", &store);
    assert_eq!(result.unwrap_err(), Status::NotFound);
}

#[test]
fn insert_person_duplicate_email_is_internal_error() {
    let mut store = Store::new();
    insert_person(
        "Jean Dupont".to_string(),
        "jean.dupont@example.com".to_string(),
        "[]".to_string(),
        &mut store,
    )
    .expect("first insert should succeed");
    let result = insert_person(
        "Other Name".to_string(),
        "jean.dupont@example.com".to_string(),
        "[]".to_string(),
        &mut store,
    );
    assert_eq!(result.unwrap_err(), Status::InternalServerError);
}
