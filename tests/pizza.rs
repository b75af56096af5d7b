use pizza_lookup::catalog::{get_pizza_from_name, Pizza, PizzaList};
use pizza_lookup::handler::{handle_payload, interpret, process_event, ErrorKind, MyPayload};
use pizza_lookup::json::decimal_string;
use pizza_lookup::response::{build_failure_response, build_success_response};

fn payload(name: &str) -> MyPayload {
    MyPayload { pizza: String::from(name) }
}

#[test]
fn new_pizza_list_test() {
    let all_pizzas = PizzaList::new();
    assert_eq!(3, all_pizzas.pizzas.len());
    let veggie = get_pizza_from_name("veggie", &all_pizzas);
    let hawaiian = get_pizza_from_name("hawaiian", &all_pizzas);
    let pepperoni = get_pizza_from_name("pepperoni", &all_pizzas);
    assert_eq!(10, veggie.unwrap().price);
    assert_eq!(12, hawaiian.unwrap().price);
    assert_eq!(11, pepperoni.unwrap().price);
}

#[test]
fn build_success_response_test() {
    let test_pizza = Pizza { name: String::from("test"), price: 10 };
    let result = build_success_response(&test_pizza);
    assert_eq!(200, result.status);
    assert_eq!("application/json", result.content_type);
    assert_eq!("{\"name\":\"test\",\"price\":10}", result.body.to_ascii_lowercase());
}

#[test]
fn build_failure_response_test() {
    let result = build_failure_response("test error message.");
    assert_eq!(400, result.status);
    assert_eq!("application/json", result.content_type);
    assert_eq!("{\"error\":\"test error message.\"}", result.body.to_ascii_lowercase());
}

#[test]
fn process_pizza_event_test() {
    let pizza_list = PizzaList::new();
    let res = process_event(Some("veggie"), &pizza_list);
    assert!(res.is_ok());
}

#[test]
fn process_invalid_pizza_event_test() {
    let pizza_list = PizzaList::new();
    let res = process_event(Some("invalid"), &pizza_list);
    assert!(res.is_err());
}

#[test]
fn process_no_pizza_event_test() {
    let pizza_list = PizzaList::new();
    let res = process_event(None, &pizza_list);
    assert!(res.is_err());
}

#[test]
fn catalog_holds_three_entries_in_order() {
    let list = PizzaList::new();
    let entries: Vec<(&str, u32)> = list.pizzas.iter().map(|p| (p.name.as_str(), p.price)).collect();
    assert_eq!(entries, vec![("veggie", 10), ("hawaiian", 12), ("pepperoni", 11)]);
}

#[test]
fn find_returns_the_matching_entry() {
    let list = PizzaList::new();
    let p = get_pizza_from_name("pepperoni", &list).unwrap();
    assert_eq!(p.name, "pepperoni");
    assert_eq!(p.price, 11);
}

#[test]
fn find_bogus_is_not_found() {
    let list = PizzaList::new();
    assert!(get_pizza_from_name("bogus", &list).is_none());
}

#[test]
fn find_is_case_sensitive() {
    let list = PizzaList::new();
    assert!(get_pizza_from_name("Veggie", &list).is_none());
    assert!(get_pizza_from_name("veggie ", &list).is_none());
    assert!(get_pizza_from_name("", &list).is_none());
}

#[test]
fn find_takes_the_first_of_equal_names() {
    let list = PizzaList {
        pizzas: vec![
            Pizza { name: String::from("a"), price: 1 },
            Pizza { name: String::from("b"), price: 2 },
            Pizza { name: String::from("b"), price: 3 },
        ],
    };
    assert_eq!(get_pizza_from_name("b", &list).unwrap().price, 2);
}

#[test]
fn find_in_empty_list() {
    let list = PizzaList { pizzas: Vec::new() };
    assert!(get_pizza_from_name("veggie", &list).is_none());
}

#[test]
fn process_event_messages() {
    let list = PizzaList::new();
    assert_eq!(process_event(Some("hawaiian"), &list).unwrap().price, 12);
    assert_eq!(process_event(Some("bogus"), &list).err(), Some("Pizza not found"));
    assert_eq!(process_event(None, &list).err(), Some("No pizza name provided"));
}

#[test]
fn interpret_cases() {
    assert_eq!(interpret(None), Err(ErrorKind::NoPayload));
    assert_eq!(interpret(Some(&payload(""))), Err(ErrorKind::NoNameProvided));
    assert_eq!(interpret(Some(&payload(" veggie"))), Ok(" veggie"));
}

#[test]
fn error_kind_messages() {
    assert_eq!(ErrorKind::NoPayload.message(), "No payload provided");
    assert_eq!(ErrorKind::NoNameProvided.message(), "No pizza name provided");
    assert_eq!(ErrorKind::NotFound.message(), "Pizza not found");
}

#[test]
fn unknown_names_get_not_found() {
    for name in ["bogus", "invalid", "Pepperoni", "veggies", "margherita", "\u{e9}"] {
        let r = handle_payload(Some(&payload(name)));
        assert_eq!(r.status, 400);
        assert_eq!(r.body, "{\"error\":\"Pizza not found\"}");
    }
}

#[test]
fn veggie_payload_gets_its_price() {
    let r = handle_payload(Some(&payload("veggie")));
    assert_eq!(r.status, 200);
    assert_eq!(r.content_type, "application/json");
    assert_eq!(r.body, "{\"name\":\"veggie\",\"price\":10}");
}

#[test]
fn every_catalog_name_gets_its_price() {
    assert_eq!(handle_payload(Some(&payload("hawaiian"))).body, "{\"name\":\"hawaiian\",\"price\":12}");
    assert_eq!(handle_payload(Some(&payload("pepperoni"))).body, "{\"name\":\"pepperoni\",\"price\":11}");
}

#[test]
fn invalid_payload_gets_not_found() {
    let r = handle_payload(Some(&payload("invalid")));
    assert_eq!(r.status, 400);
    assert_eq!(r.content_type, "application/json");
    assert_eq!(r.body, "{\"error\":\"Pizza not found\"}");
}

#[test]
fn missing_name_gets_no_name_error() {
    let r = handle_payload(Some(&payload("")));
    assert_eq!(r.status, 400);
    assert_eq!(r.content_type, "application/json");
    assert_eq!(r.body, "{\"error\":\"No pizza name provided\"}");
}

#[test]
fn missing_payload_gets_no_payload_error() {
    let r = handle_payload(None);
    assert_eq!(r.status, 400);
    assert_eq!(r.content_type, "application/json");
    assert_eq!(r.body, "{\"error\":\"No payload provided\"}");
}

#[test]
fn repeated_requests_get_the_same_response() {
    for p in [None, Some(payload("veggie")), Some(payload("bogus")), Some(payload(""))] {
        let a = handle_payload(p.as_ref());
        let b = handle_payload(p.as_ref());
        assert_eq!(a.status, b.status);
        assert_eq!(a.content_type, b.content_type);
        assert_eq!(a.body, b.body);
    }
}

#[test]
fn failure_message_is_escaped() {
    let r = build_failure_response("say \"hi\"\\\n\t\u{1}\u{1f}/\u{e9}");
    assert_eq!(r.body, "{\"error\":\"say \\\"hi\\\"\\\\\\n\\t\\u0001\\u001f/\u{e9}\"}");
}

#[test]
fn success_name_is_escaped_and_price_written_in_full() {
    let p = Pizza { name: String::from("a\"b\u{8}\u{c}\r"), price: 4294967295 };
    let r = build_success_response(&p);
    assert_eq!(r.body, "{\"name\":\"a\\\"b\\b\\f\\r\",\"price\":4294967295}");
}

#[test]
fn decimal_string_values() {
    assert_eq!(decimal_string(0), "0");
    assert_eq!(decimal_string(7), "7");
    assert_eq!(decimal_string(10), "10");
    assert_eq!(decimal_string(1203), "1203");
    assert_eq!(decimal_string(u32::MAX), "4294967295");
}
