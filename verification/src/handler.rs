//! The operations of the service, and the answer to a request.

use crate::create::{create_json, created, random_id, with_id};
use crate::json::{json_parsed, json_printed, JsonDoc};
use crate::encode::{car_json, car_list_json, encode_car, encode_cars, joined};
use crate::record::{car_store, cars, find_car, first_match, lemma_first_match_from, records,
    CarView};
use crate::response::{encode_response, wire, ApiError, Outcome, Response, ResponseView};
use crate::route::{base_path, lemma_route_create, lemma_route_list, lemma_route_lookup, route,
    route_of, Method, Route, RouteView};
use crate::text::{is_blank, is_white_space};
use vstd::prelude::*;

verus! {

/// What listing gives: the JSON text of the fixed set of records.
pub open spec fn listed() -> Outcome {
    match car_list_json(car_store()) {
        Some(json) => Ok(json),
        None => Err(ApiError::Encode),
    }
}

/// What a lookup gives: the JSON text of the first record of the fixed set
/// whose identifier is `id`, or that none was found.
pub open spec fn looked_up(id: Seq<char>) -> Outcome {
    match first_match(car_store(), id) {
        Some(i) => match car_json(car_store()[i]) {
            Some(json) => Ok(json),
            None => Err(ApiError::Encode),
        },
        None => Err(ApiError::NotFound),
    }
}

/// What an answer holds, where there is one.
pub open spec fn answer_of(response: Option<Response>) -> Option<ResponseView> {
    match response {
        Some(response) => Some(response@),
        None => None,
    }
}

/// The answer to a creation with a given identifier, where creation has an
/// outcome.
pub open spec fn creation_answer(body: Seq<u8>, id: u8) -> Option<ResponseView> {
    match created(body, id) {
        Some(outcome) => Some(wire(outcome)),
        None => None,
    }
}

/// The answer to a request on a route. Only creation reads the body and the
/// identifier.
pub open spec fn answer(route: RouteView, body: Seq<u8>, id: u8) -> Option<ResponseView> {
    match route {
        RouteView::List => Some(wire(listed())),
        RouteView::Lookup(car_id) => Some(wire(looked_up(car_id))),
        RouteView::Create => creation_answer(body, id),
        RouteView::NotFound => Some(wire(Err(ApiError::RouteNotFound))),
    }
}

/// Answers with all records of the fixed set, in their order.
pub fn get_car_list() -> (response: Response)
    ensures
        response@ == wire(listed()),
{
    let cars = cars();
    encode_response(encode_cars(&cars))
}

/// Answers with the first record of the fixed set whose identifier is
/// `car_id`, or with the text that says that there is none.
pub fn get_car_by_id(car_id: &String) -> (response: Response)
    ensures
        response@ == wire(looked_up(car_id@)),
{
    let cars = cars();
    match find_car(&cars, car_id) {
        Some(i) => encode_response(encode_car(&cars[i])),
        None => encode_response(Err(ApiError::NotFound)),
    }
}

/// Answers a creation for which the identifier has been drawn. There is no
/// answer where the body is JSON but neither an object nor null.
pub fn create_car_with_id(body: &[u8], id: u8) -> (response: Option<Response>)
    ensures
        answer_of(response) == creation_answer(body@, id),
{
    match create_json(body, id) {
        Some(result) => Some(encode_response(result)),
        None => None,
    }
}

/// Answers a creation: draws an identifier and gives it to the record in
/// `body`. Whatever identifier is drawn, the answer is the one that
/// [`create_car_with_id`] gives for it.
pub fn create_car(body: &[u8]) -> (response: Option<Response>)
    ensures
        exists|id: u8| answer_of(response) == #[trigger] creation_answer(body@, id),
{
    create_car_with_id(body, random_id())
}

/// Answers a request whose route has been found. The body is read for a
/// creation only.
pub fn dispatch(route: &Route, body: &[u8]) -> (response: Option<Response>)
    ensures
        exists|id: u8| answer_of(response) == #[trigger] answer(route@, body@, id),
{
    let response = match route {
        Route::List => Some(get_car_list()),
        Route::Lookup(car_id) => Some(get_car_by_id(car_id)),
        Route::Create => {
            let response = create_car(body);
            let ghost id = choose|id: u8| answer_of(response) == #[trigger] creation_answer(body@, id);
            assert(answer_of(response) == answer(route@, body@, id));
            response
        },
        Route::NotFound => Some(encode_response(Err(ApiError::RouteNotFound))),
    };
    assert(route@ !is Create ==> answer_of(response) == answer(route@, body@, 0u8));
    response
}

/// Answers a request, given its method, the path of its URL and its body.
pub fn cars_handler(method: Method, path: &str, body: &[u8]) -> (response: Option<Response>)
    ensures
        exists|id: u8| answer_of(response) == #[trigger] answer(route_of(method, path@), body@, id),
{
    let route = route(method, path);
    dispatch(&route, body)
}

/// What a record gives where it is asked for: its JSON text.
pub open spec fn record_outcome(i: int) -> Outcome {
    match car_json(car_store()[i]) {
        Some(json) => Ok(json),
        None => Err(ApiError::Encode),
    }
}

/// No two records of the fixed set have one identifier, so that each is the
/// first with its own: a lookup of the identifier of the record at `i`
/// gives exactly that record.
pub proof fn lemma_lookup_finds_record(i: int)
    requires
        0 <= i < car_store().len(),
    ensures
        first_match(car_store(), car_store()[i].id) == Some(i),
        looked_up(car_store()[i].id) == record_outcome(i),
{
    reveal_strlit("1");
    reveal_strlit("2");
    reveal_strlit("3");
    let store = car_store();
    let id = store[i].id;
    assert(forall|j: int| 0 <= j < i ==> (#[trigger] store[j]).id[0] != id[0]);
    lemma_first_match_from(store, id, 0);
}

/// `GET` on `/cars/` followed by the identifier of a record of the fixed
/// set is answered with exactly that record, whatever the body.
pub proof fn lemma_get_answers_with_record(i: int, body: Seq<u8>, id: u8)
    requires
        0 <= i < car_store().len(),
    ensures
        route_of(Method::Get, "/cars/"@ + car_store()[i].id) == RouteView::Lookup(
            car_store()[i].id,
        ),
        answer(route_of(Method::Get, "/cars/"@ + car_store()[i].id), body, id) == Some(
            wire(record_outcome(i)),
        ),
{
    reveal_strlit("1");
    reveal_strlit("2");
    reveal_strlit("3");
    let car_id = car_store()[i].id;
    assert(!is_white_space(car_id[0]));
    lemma_route_lookup(car_id);
    lemma_lookup_finds_record(i);
}

/// A lookup of an identifier that no record of the fixed set has is
/// answered with status 200 and the text that says so, under no content
/// type.
pub proof fn lemma_lookup_misses(car_id: Seq<char>)
    requires
        forall|i: int| 0 <= i < car_store().len() ==> (#[trigger] car_store()[i]).id != car_id,
    ensures
        looked_up(car_id) == Outcome::Err(ApiError::NotFound),
        wire(looked_up(car_id)) == (ResponseView {
            status: 200,
            content_type: None,
            body: "Car not found"@,
        }),
{
    lemma_first_match_from(car_store(), car_id, 0);
}

/// `GET` on `/cars/` followed by an identifier that no record of the fixed
/// set has is answered with status 200 and the text that says so. The
/// identifier is one that a path can name: it holds no slash and is not
/// blank.
pub proof fn lemma_get_answers_not_found(car_id: Seq<char>, body: Seq<u8>, id: u8)
    requires
        forall|i: int| 0 <= i < car_id.len() ==> car_id[i] != '/',
        !is_blank(car_id),
        forall|i: int| 0 <= i < car_store().len() ==> (#[trigger] car_store()[i]).id != car_id,
    ensures
        answer(route_of(Method::Get, "/cars/"@ + car_id), body, id) == Some(
            ResponseView { status: 200, content_type: None, body: "Car not found"@ },
        ),
{
    lemma_route_lookup(car_id);
    lemma_lookup_misses(car_id);
}

/// `POST` on `/cars` is answered by creation from the body.
pub proof fn lemma_post_answers_with_creation(body: Seq<u8>, id: u8)
    ensures
        answer(route_of(Method::Post, "/cars"@), body, id) == creation_answer(body, id),
{
    lemma_route_create();
}

/// `GET` on `/cars` and `GET` on `/cars/` have one answer, the list,
/// whatever their bodies.
pub proof fn lemma_list_paths_agree(body: Seq<u8>, id: u8, other_body: Seq<u8>, other_id: u8)
    ensures
        answer(route_of(Method::Get, "/cars"@), body, id) == Some(wire(listed())),
        answer(route_of(Method::Get, "/cars/"@), other_body, other_id) == Some(wire(listed())),
{
    lemma_route_list();
}

/// The fixed set holds three records: a Ford Bronco of 2022, a Hyundai
/// Santa Fe of 2010 and a Dodge Challenger of 2015, in this order. Where
/// the list can be written, it is the array of these three in this order,
/// and it is answered with status 200 under the content type
/// `application/json`.
pub proof fn lemma_list_in_order()
    ensures
        car_store().len() == 3,
        car_store()[0] == (CarView { id: "1"@, brand: "Ford"@, model: "Bronco"@, year: 2022 }),
        car_store()[1] == (CarView {
            id: "2"@,
            brand: "Hyundai"@,
            model: "Santa Fe"@,
            year: 2010,
        }),
        car_store()[2] == (CarView {
            id: "3"@,
            brand: "Dodge"@,
            model: "Challenger"@,
            year: 2015,
        }),
        listed() matches Ok(json) ==> {
            &&& json == "["@ + car_json(car_store()[0])->0 + ","@ + car_json(car_store()[1])->0
                + ","@ + car_json(car_store()[2])->0 + "]"@
            &&& wire(listed()) == (ResponseView {
                status: 200,
                content_type: Some("application/json"@),
                body: json,
            })
        },
{
    let store = car_store();
    let two = store.drop_last();
    let one = two.drop_last();
    assert(joined(one) == car_json(store[0])->0);
    assert(joined(two) == joined(one) + ","@ + car_json(store[1])->0);
    assert(joined(store) == joined(two) + ","@ + car_json(store[2])->0);
}

/// A creation from a body that is not JSON is answered with status 500 and
/// a fixed text, whatever the identifier.
pub proof fn lemma_creation_without_json(body: Seq<u8>, id: u8)
    requires
        json_parsed(body) is None,
    ensures
        creation_answer(body, id) == Some(
            ResponseView { status: 500, content_type: None, body: "Internal Server Error"@ },
        ),
{
}

/// `POST` on `/cars` with a body that is not JSON is answered with status
/// 500.
pub proof fn lemma_post_without_json(body: Seq<u8>, id: u8)
    requires
        json_parsed(body) is None,
    ensures
        answer(route_of(Method::Post, "/cars"@), body, id) == Some(
            ResponseView { status: 500, content_type: None, body: "Internal Server Error"@ },
        ),
{
    lemma_route_create();
}

/// A creation from a body that is a JSON object is answered with status
/// 200 and the text of that object with the identifier set, where it can be
/// written, and with status 500 where it cannot.
pub proof fn lemma_creation_from_object(body: Seq<u8>, id: u8, doc: JsonDoc)
    requires
        json_parsed(body) == Some(doc),
        doc is Object,
    ensures
        creation_answer(body, id) == Some(
            match json_printed(with_id(doc, id)) {
                Some(json) => ResponseView {
                    status: 200,
                    content_type: Some("application/json"@),
                    body: json,
                },
                None => ResponseView {
                    status: 500,
                    content_type: None,
                    body: "Internal Server Error"@,
                },
            },
        ),
{
}

/// A request on a path whose base path is not `cars`, or that has none, is
/// answered with status 404 and an empty body, whatever its method and
/// body.
pub proof fn lemma_unregistered_path(method: Method, path: Seq<char>, body: Seq<u8>, id: u8)
    requires
        base_path(path) != Some("cars"@),
    ensures
        answer(route_of(method, path), body, id) == Some(
            ResponseView { status: 404, content_type: None, body: Seq::empty() },
        ),
{
}

/// Only a creation reads the body and the identifier: the answer on any
/// other route is the same for every body and identifier.
pub proof fn lemma_answer_reads_body_for_creation_only(
    route: RouteView,
    body: Seq<u8>,
    id: u8,
    other_body: Seq<u8>,
    other_id: u8,
)
    requires
        route !is Create,
    ensures
        answer(route, body, id) == answer(route, other_body, other_id),
        answer(route, body, id) is Some,
{
}

} // verus!
