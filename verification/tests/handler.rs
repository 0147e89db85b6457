use breed_lookup::handler::{first_breed, get_breed, root_greeting, AppError};
use breed_lookup::the_cat_api::{search_url, Breed, CannedClient, FailingClient, TheCatApi};

fn siberian() -> Breed {
    Breed { id: "sibe".to_string(), name: "Siberian".to_string() }
}

fn canned_sib_client() -> CannedClient {
    CannedClient { expected: "sib".to_string(), breeds: vec![siberian()] }
}

#[test]
fn breed_succeeds() {
    let client = canned_sib_client();
    let out = get_breed(&client, "sib").expect("search for sib must succeed");
    assert_eq!(out.len(), 1);
    assert_eq!(out[0].id, "sibe");
    assert_eq!(out[0].name, "Siberian");
}

#[test]
fn breed_decode_error() {
    let client = FailingClient;
    let out = get_breed(&client, "sib");
    let err = out.expect_err("a failing client must yield an error");
    assert_eq!(err, AppError::InternalError);
    assert_eq!(err.status_code(), 500);
    assert_eq!(err.body(), "{\"error\":\"Internal Server Error\"}");
}

#[test]
fn query_reaches_client_unmodified() {
    // The canned double answers only the exact query it expects, so a
    // successful response witnesses that the handler passed "sib" through
    // without modification.
    let client = canned_sib_client();
    let out = client.search_breeds("sib");
    assert_eq!(out, Ok(vec![siberian()]));
    assert_eq!(get_breed(&client, "sib"), Ok(vec![siberian()]));
}

#[test]
fn mismatched_query_is_rejected_by_canned_double() {
    let client = canned_sib_client();
    assert_eq!(get_breed(&client, "si"), Err(AppError::InternalError));
    assert_eq!(get_breed(&client, "sib "), Err(AppError::InternalError));
    assert_eq!(get_breed(&client, ""), Err(AppError::InternalError));
}

#[test]
fn root_route_greets() {
    assert_eq!(root_greeting(), "Hello, World!");
    assert_eq!(root_greeting(), "Hello, World!");
}

#[test]
fn same_search_twice_is_identical() {
    let client = canned_sib_client();
    let first = get_breed(&client, "sib");
    let second = get_breed(&client, "sib");
    assert_eq!(first, second);
    assert_eq!(first, Ok(vec![siberian()]));
}

#[test]
fn same_failing_search_twice_is_identical() {
    let client = FailingClient;
    let first = get_breed(&client, "sib");
    let second = get_breed(&client, "sib");
    assert_eq!(first, second);
    let (e1, e2) = (first.unwrap_err(), second.unwrap_err());
    assert_eq!(e1.status_code(), e2.status_code());
    assert_eq!(e1.body(), e2.body());
}

#[test]
fn empty_result_yields_no_first_breed() {
    let breeds: Vec<Breed> = vec![];
    assert_eq!(first_breed(&breeds), None);
}

#[test]
fn first_breed_is_the_first_record() {
    let breeds = vec![
        siberian(),
        Breed { id: "beng".to_string(), name: "Bengal".to_string() },
    ];
    assert_eq!(first_breed(&breeds), Some(&breeds[0]));
}

#[test]
fn search_url_keeps_unreserved_queries() {
    assert_eq!(search_url("sib"), "https://api.thecatapi.com/v1/breeds/search?q=sib");
    assert_eq!(search_url(""), "https://api.thecatapi.com/v1/breeds/search?q=");
    assert_eq!(
        search_url("AZaz09-._~"),
        "https://api.thecatapi.com/v1/breeds/search?q=AZaz09-._~"
    );
}

#[test]
fn search_url_percent_encodes_the_query() {
    assert_eq!(search_url("a b"), "https://api.thecatapi.com/v1/breeds/search?q=a%20b");
    assert_eq!(
        search_url("fold+ex&cat"),
        "https://api.thecatapi.com/v1/breeds/search?q=fold%2Bex%26cat"
    );
    assert_eq!(
        search_url("q=x/y?z"),
        "https://api.thecatapi.com/v1/breeds/search?q=q%3Dx%2Fy%3Fz"
    );
    assert_eq!(
        search_url("siam\u{e9}s"),
        "https://api.thecatapi.com/v1/breeds/search?q=siam%C3%A9s"
    );
}

#[test]
fn empty_canned_search_succeeds_with_no_records() {
    let client = CannedClient { expected: "nosuchbreed".to_string(), breeds: vec![] };
    assert_eq!(get_breed(&client, "nosuchbreed"), Ok(vec![]));
}
