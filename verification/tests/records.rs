use cars_api::record::{cars, find_car, Car};

fn record(id: &str, brand: &str, model: &str, year: u16) -> Car {
    Car { id: id.to_string(), brand: brand.to_string(), model: model.to_string(), year }
}

#[test]
fn the_fixed_set_holds_three_records_in_order() {
    assert_eq!(
        cars(),
        vec![
            record("1", "Ford", "Bronco", 2022),
            record("2", "Hyundai", "Santa Fe", 2010),
            record("3", "Dodge", "Challenger", 2015),
        ]
    );
}

#[test]
fn the_fixed_set_is_the_same_on_every_call() {
    assert_eq!(cars(), cars());
}

#[test]
fn find_car_finds_each_record_of_the_fixed_set() {
    let all = cars();
    for (i, car) in all.iter().enumerate() {
        assert_eq!(find_car(&all, &car.id), Some(i));
    }
}

#[test]
fn find_car_misses_what_is_not_there() {
    let all = cars();
    assert_eq!(find_car(&all, &"4".to_string()), None);
    assert_eq!(find_car(&all, &"".to_string()), None);
    assert_eq!(find_car(&all, &" 1".to_string()), None);
    assert_eq!(find_car(&all, &"01".to_string()), None);
    assert_eq!(find_car(&all, &"Ford".to_string()), None);
    assert_eq!(find_car(&Vec::new(), &"1".to_string()), None);
}

#[test]
fn find_car_returns_the_first_of_two_with_one_identifier() {
    let all = vec![
        record("a", "Ford", "Bronco", 2022),
        record("b", "Hyundai", "Santa Fe", 2010),
        record("b", "Dodge", "Challenger", 2015),
    ];
    assert_eq!(find_car(&all, &"b".to_string()), Some(1));
}
