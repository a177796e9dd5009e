//! People and their addresses, with a builder.
use vstd::prelude::*;
use vstd::string::*;

verus! {

#[derive(Debug, Clone, Copy, PartialEq, Eq, PartialOrd, Ord)]
pub struct Id(pub u32);

impl Id {
    pub fn value(&self) -> (value: u32)
        ensures
            value == self.0,
    {
        self.0
    }
}

#[derive(Debug, Clone, PartialEq, Eq, PartialOrd, Ord)]
pub struct Address {
    pub street: String,
    pub city: String,
    pub country: String,
}

pub ghost struct AddressView {
    pub street: Seq<char>,
    pub city: Seq<char>,
    pub country: Seq<char>,
}

impl View for Address {
    type V = AddressView;

    open spec fn view(&self) -> AddressView {
        AddressView { street: self.street@, city: self.city@, country: self.country@ }
    }
}

impl Address {
    pub fn new(street: &str, city: &str, country: &str) -> (address: Self)
        ensures
            address@ == (AddressView { street: street@, city: city@, country: country@ }),
    {
        Address {
            street: String::from_str(street),
            city: String::from_str(city),
            country: String::from_str(country),
        }
    }
}

#[derive(Debug, Clone, PartialEq, Eq, PartialOrd, Ord)]
pub struct Person {
    pub id: Id,
    pub name: String,
    pub age: u32,
    pub address: Option<Address>,
}

pub ghost struct PersonView {
    pub id: u32,
    pub name: Seq<char>,
    pub age: u32,
    pub address: Option<AddressView>,
}

pub open spec fn address_view(address: Option<Address>) -> Option<AddressView> {
    match address {
        Some(a) => Some(a@),
        None => None,
    }
}

impl View for Person {
    type V = PersonView;

    open spec fn view(&self) -> PersonView {
        PersonView {
            id: self.id.0,
            name: self.name@,
            age: self.age,
            address: address_view(self.address),
        }
    }
}

impl Person {
    /// A person without an address.
    pub fn new(id: Id, name: &str, age: u32) -> (person: Self)
        ensures
            person@ == (PersonView { id: id.0, name: name@, age, address: None }),
    {
        Person { id, name: String::from_str(name), age, address: None }
    }
}

pub struct PersonBuilder {
    id: Id,
    name: String,
    age: u32,
    address: Option<Address>,
}

impl PersonBuilder {
    /// The person that `build` would give now.
    pub closed spec fn draft(&self) -> PersonView {
        PersonView {
            id: self.id.0,
            name: self.name@,
            age: self.age,
            address: address_view(self.address),
        }
    }

    pub fn new(id: Id, name: &str, age: u32) -> (builder: Self)
        ensures
            builder.draft() == (PersonView { id: id.0, name: name@, age, address: None }),
    {
        PersonBuilder { id, name: String::from_str(name), age, address: None }
    }

    /// Sets the address, replacing an earlier one.
    pub fn address(self, street: &str, city: &str, country: &str) -> (builder: Self)
        ensures
            builder.draft() == (PersonView {
                address: Some(AddressView { street: street@, city: city@, country: country@ }),
                ..self.draft()
            }),
    {
        let mut builder = self;
        builder.address = Some(Address::new(street, city, country));
        builder
    }

    pub fn build(self) -> (person: Person)
        ensures
            person@ == self.draft(),
    {
        Person { id: self.id, name: self.name, age: self.age, address: self.address }
    }
}

/// Alice and Bob of Wonderland, and Charlie of no known address.
pub open spec fn people() -> Seq<PersonView> {
    seq![
        PersonView {
            id: 1,
            name: "Alice"@,
            age: 30,
            address: Some(
                AddressView {
                    street: "123 Main St"@,
                    city: "Wonderland"@,
                    country: "Fictionland"@,
                },
            ),
        },
        PersonView {
            id: 2,
            name: "Bob"@,
            age: 35,
            address: Some(
                AddressView {
                    street: "456 Side St"@,
                    city: "Wonderland"@,
                    country: "Fictionland"@,
                },
            ),
        },
        PersonView { id: 3, name: "Charlie"@, age: 28, address: None },
    ]
}

pub fn create_people() -> (list: Vec<Person>)
    ensures
        list@.map_values(|p: Person| p@) == people(),
{
    let mut list: Vec<Person> = Vec::new();
    list.push(
        PersonBuilder::new(Id(1), "Alice", 30).address(
            "123 Main St",
            "Wonderland",
            "Fictionland",
        ).build(),
    );
    list.push(
        PersonBuilder::new(Id(2), "Bob", 35).address(
            "456 Side St",
            "Wonderland",
            "Fictionland",
        ).build(),
    );
    list.push(PersonBuilder::new(Id(3), "Charlie", 28).build());
    assert(list@.map_values(|p: Person| p@) =~= people());
    list
}

} // verus!
