//! The JSON text of a record and of a list of records.

use crate::decimal::{decimal, push_decimal};
use crate::json::{json_printed, print_json, text_value, JsonDoc};
use crate::record::{records, Car, CarView};
use crate::response::ApiError;
use vstd::prelude::*;

verus! {

/// The JSON string that writes `text`, quotes and escapes included, or
/// `None` where the printer reports an error.
pub open spec fn quoted(text: Seq<char>) -> Option<Seq<char>> {
    json_printed(JsonDoc::Text(text))
}

/// Whether `result` carries exactly `text`, with a missing text reported as
/// an encoding error.
pub open spec fn carries(result: Result<String, ApiError>, text: Option<Seq<char>>) -> bool {
    match result {
        Ok(json) => text == Some(json@),
        Err(error) => error == ApiError::Encode && text is None,
    }
}

/// Writes `text` as a JSON string.
pub fn quote(text: &str) -> (result: Result<String, ApiError>)
    ensures
        carries(result, quoted(text@)),
{
    let value = text_value(text);
    match print_json(&value) {
        Ok(json) => Ok(json),
        Err(_) => Err(ApiError::Encode),
    }
}

/// The JSON text of a record: an object without white space that holds, in
/// this order, the identifier, the brand and the model as strings and the
/// year as a number. There is none where one of the strings cannot be
/// written.
pub open spec fn car_json(car: CarView) -> Option<Seq<char>> {
    match (quoted(car.id), quoted(car.brand), quoted(car.model)) {
        (Some(id), Some(brand), Some(model)) => Some(
            "{\"id\":"@ + id + ",\"brand\":"@ + brand + ",\"model\":"@ + model + ",\"year\":"@
                + decimal(car.year as nat) + "}"@,
        ),
        _ => None,
    }
}

/// Writes a record as JSON.
pub fn encode_car(car: &Car) -> (result: Result<String, ApiError>)
    ensures
        carries(result, car_json(car@)),
{
    let id = match quote(car.id.as_str()) {
        Ok(json) => json,
        Err(error) => {
            return Err(error);
        },
    };
    let brand = match quote(car.brand.as_str()) {
        Ok(json) => json,
        Err(error) => {
            return Err(error);
        },
    };
    let model = match quote(car.model.as_str()) {
        Ok(json) => json,
        Err(error) => {
            return Err(error);
        },
    };
    let mut out = String::new();
    out.append("{\"id\":");
    out.append(id.as_str());
    out.append(",\"brand\":");
    out.append(brand.as_str());
    out.append(",\"model\":");
    out.append(model.as_str());
    out.append(",\"year\":");
    push_decimal(&mut out, car.year);
    out.append("}");
    Ok(out)
}

/// Whether each of the records has a JSON text.
pub open spec fn all_encodable(cars: Seq<CarView>) -> bool {
    forall|i: int| 0 <= i < cars.len() ==> car_json(#[trigger] cars[i]) is Some
}

/// The JSON texts of the records in their order, with a comma between
/// each two.
pub open spec fn joined(cars: Seq<CarView>) -> Seq<char>
    decreases cars.len(),
{
    if cars.len() == 0 {
        Seq::empty()
    } else if cars.len() == 1 {
        car_json(cars[0])->0
    } else {
        joined(cars.drop_last()) + ","@ + car_json(cars.last())->0
    }
}

/// The JSON text of a list of records: an array without white space that
/// holds the records in their order. There is none where one of the records
/// has none.
pub open spec fn car_list_json(cars: Seq<CarView>) -> Option<Seq<char>> {
    if all_encodable(cars) {
        Some("["@ + joined(cars) + "]"@)
    } else {
        None
    }
}

/// Writes a list of records as JSON.
pub fn encode_cars(cars: &Vec<Car>) -> (result: Result<String, ApiError>)
    ensures
        carries(result, car_list_json(records(cars@))),
{
    let ghost all = records(cars@);
    let mut out = String::new();
    out.append("[");
    let mut i: usize = 0;
    while i < cars.len()
        invariant
            i <= cars.len(),
            all == records(cars@),
            all_encodable(all.take(i as int)),
            out@ == "["@ + joined(all.take(i as int)),
        decreases cars.len() - i,
    {
        let item = match encode_car(&cars[i]) {
            Ok(json) => json,
            Err(error) => {
                assert(car_json(all[i as int]) is None);
                return Err(error);
            },
        };
        if i > 0 {
            out.append(",");
        }
        out.append(item.as_str());
        proof {
            let before = all.take(i as int);
            let after = all.take(i + 1);
            assert(after.drop_last() =~= before);
            assert forall|j: int| 0 <= j < after.len() implies car_json(
                #[trigger] after[j],
            ) is Some by {
                if j < i {
                    assert(after[j] == before[j]);
                }
            }
        }
        i += 1;
    }
    assert(all.take(i as int) =~= all);
    out.append("]");
    Ok(out)
}

} // verus!
