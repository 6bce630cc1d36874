use cars_api::route::{route, Method, Route};

fn lookup(id: &str) -> Route {
    Route::Lookup(id.to_string())
}

#[test]
fn get_on_the_base_path_lists() {
    assert_eq!(route(Method::Get, "/cars"), Route::List);
}

#[test]
fn get_with_an_empty_segment_lists() {
    assert_eq!(route(Method::Get, "/cars/"), Route::List);
    assert_eq!(route(Method::Get, "/cars//2"), Route::List);
}

#[test]
fn get_with_a_blank_segment_lists() {
    assert_eq!(route(Method::Get, "/cars/ "), Route::List);
    assert_eq!(route(Method::Get, "/cars/ \t "), Route::List);
    assert_eq!(route(Method::Get, "/cars/\u{A0}/1"), Route::List);
}

#[test]
fn get_with_a_segment_looks_it_up() {
    assert_eq!(route(Method::Get, "/cars/1"), lookup("1"));
    assert_eq!(route(Method::Get, "/cars/3"), lookup("3"));
    assert_eq!(route(Method::Get, "/cars/abc"), lookup("abc"));
    assert_eq!(route(Method::Get, "/cars/%20"), lookup("%20"));
    assert_eq!(route(Method::Get, "/cars/é越"), lookup("é越"));
}

#[test]
fn the_identifier_is_not_trimmed() {
    assert_eq!(route(Method::Get, "/cars/ 1"), lookup(" 1"));
    assert_eq!(route(Method::Get, "/cars/1 "), lookup("1 "));
}

#[test]
fn what_follows_the_identifier_is_not_read() {
    assert_eq!(route(Method::Get, "/cars/1/"), lookup("1"));
    assert_eq!(route(Method::Get, "/cars/1/extra/more"), lookup("1"));
}

#[test]
fn post_on_the_base_path_creates() {
    assert_eq!(route(Method::Post, "/cars"), Route::Create);
    assert_eq!(route(Method::Post, "/cars/"), Route::Create);
    assert_eq!(route(Method::Post, "/cars/7"), Route::Create);
}

#[test]
fn other_methods_lead_nowhere() {
    assert_eq!(route(Method::Other, "/cars"), Route::NotFound);
    assert_eq!(route(Method::Other, "/cars/1"), Route::NotFound);
}

#[test]
fn other_base_paths_lead_nowhere() {
    for method in [Method::Get, Method::Post, Method::Other] {
        assert_eq!(route(method, "/widgets"), Route::NotFound);
        assert_eq!(route(method, "/car"), Route::NotFound);
        assert_eq!(route(method, "/carss"), Route::NotFound);
        assert_eq!(route(method, "/Cars"), Route::NotFound);
        assert_eq!(route(method, "/ cars"), Route::NotFound);
        assert_eq!(route(method, "/widgets/cars"), Route::NotFound);
    }
}

#[test]
fn a_path_without_segments_leads_nowhere() {
    for method in [Method::Get, Method::Post, Method::Other] {
        assert_eq!(route(method, ""), Route::NotFound);
        assert_eq!(route(method, "/"), Route::NotFound);
        assert_eq!(route(method, "///"), Route::NotFound);
    }
}

#[test]
fn the_base_path_is_the_first_segment_that_is_not_empty() {
    assert_eq!(route(Method::Get, "cars"), Route::List);
    assert_eq!(route(Method::Get, "cars/2"), lookup("2"));
    assert_eq!(route(Method::Get, "//cars"), Route::List);
    assert_eq!(route(Method::Get, "///cars/2"), lookup("2"));
    assert_eq!(route(Method::Post, "//cars"), Route::Create);
}

#[test]
fn methods_are_told_apart_by_their_exact_names() {
    assert_eq!(Method::from_name("GET"), Method::Get);
    assert_eq!(Method::from_name("POST"), Method::Post);
    for name in ["PUT", "DELETE", "HEAD", "OPTIONS", "PATCH", "get", "Post", "GET ", "", "GETS", "POS"] {
        assert_eq!(Method::from_name(name), Method::Other, "{:?}", name);
    }
}
