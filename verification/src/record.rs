//! Vehicle records, the fixed set of them, and lookup by identifier.

use vstd::prelude::*;

verus! {

/// A vehicle record.
#[derive(Clone, Debug, PartialEq, Eq)]
pub struct Car {
    pub id: String,
    pub brand: String,
    pub model: String,
    pub year: u16,
}

/// What a [`Car`] holds.
pub ghost struct CarView {
    pub id: Seq<char>,
    pub brand: Seq<char>,
    pub model: Seq<char>,
    pub year: u16,
}

impl View for Car {
    type V = CarView;

    open spec fn view(&self) -> CarView {
        CarView { id: self.id@, brand: self.brand@, model: self.model@, year: self.year }
    }
}

/// What a list of records holds, in its order.
pub open spec fn records(cars: Seq<Car>) -> Seq<CarView> {
    cars.map_values(|car: Car| car@)
}

/// The fixed set of records, in its fixed order.
pub open spec fn car_store() -> Seq<CarView> {
    seq![
        CarView { id: "1"@, brand: "Ford"@, model: "Bronco"@, year: 2022 },
        CarView { id: "2"@, brand: "Hyundai"@, model: "Santa Fe"@, year: 2010 },
        CarView { id: "3"@, brand: "Dodge"@, model: "Challenger"@, year: 2015 },
    ]
}

fn car(id: &str, brand: &str, model: &str, year: u16) -> (car: Car)
    ensures
        car@ == (CarView { id: id@, brand: brand@, model: model@, year }),
{
    Car { id: id.to_owned(), brand: brand.to_owned(), model: model.to_owned(), year }
}

/// Builds the fixed set of records. Every call gives the same records in
/// the same order.
pub fn cars() -> (cars: Vec<Car>)
    ensures
        records(cars@) == car_store(),
{
    let mut cars: Vec<Car> = Vec::new();
    cars.push(car("1", "Ford", "Bronco", 2022));
    cars.push(car("2", "Hyundai", "Santa Fe", 2010));
    cars.push(car("3", "Dodge", "Challenger", 2015));
    cars
}

/// The index of the first record at or after `from` whose identifier is
/// `id`, character for character.
pub open spec fn first_match_from(cars: Seq<CarView>, id: Seq<char>, from: int) -> Option<int>
    decreases cars.len() - from,
{
    if from < 0 || from >= cars.len() {
        None
    } else if cars[from].id == id {
        Some(from)
    } else {
        first_match_from(cars, id, from + 1)
    }
}

/// The index of the first record whose identifier is `id`.
pub open spec fn first_match(cars: Seq<CarView>, id: Seq<char>) -> Option<int> {
    first_match_from(cars, id, 0)
}

/// A search from `from` finds the least index at or after `from` that holds
/// the identifier, and finds nothing only where no such index exists.
pub proof fn lemma_first_match_from(cars: Seq<CarView>, id: Seq<char>, from: int)
    requires
        0 <= from,
    ensures
        match first_match_from(cars, id, from) {
            Some(i) => from <= i < cars.len() && cars[i].id == id && forall|j: int|
                from <= j < i ==> (#[trigger] cars[j]).id != id,
            None => forall|j: int| from <= j < cars.len() ==> (#[trigger] cars[j]).id != id,
        },
    decreases cars.len() - from,
{
    if from < cars.len() && cars[from].id != id {
        lemma_first_match_from(cars, id, from + 1);
    }
}

/// Searches `cars` from the front for a record whose identifier equals
/// `car_id` and returns the index of the first one.
pub fn find_car(cars: &Vec<Car>, car_id: &String) -> (found: Option<usize>)
    ensures
        match found {
            Some(i) => i < cars.len() && first_match(records(cars@), car_id@) == Some(i as int),
            None => first_match(records(cars@), car_id@) is None,
        },
{
    let mut i: usize = 0;
    while i < cars.len()
        invariant
            i <= cars.len(),
            first_match(records(cars@), car_id@) == first_match_from(
                records(cars@),
                car_id@,
                i as int,
            ),
        decreases cars.len() - i,
    {
        if cars[i].id == *car_id {
            return Some(i);
        }
        i += 1;
    }
    None
}

} // verus!
