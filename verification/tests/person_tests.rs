use rlox::person::{create_people, Address, Id, Person, PersonBuilder};

#[test]
fn create_people_returns_vec_of_person() {
    let people = create_people();

    assert_eq!(people.len(), 3);
    assert_eq!(people[0].name, "Alice");
    assert_eq!(people[1].address.as_ref().unwrap().city, "Wonderland");
    assert!(people[2].address.is_none());
}

#[test]
fn builder_gives_the_person_described() {
    let person = PersonBuilder::new(Id(7), "Dora", 41)
        .address("1 Old Rd", "Nowhere", "Utopia")
        .build();
    let mut expected = Person::new(Id(7), "Dora", 41);
    expected.address = Some(Address::new("1 Old Rd", "Nowhere", "Utopia"));
    assert_eq!(person, expected);
    assert_eq!(person.id.value(), 7);
}
