//! The breed query handler: the decision logic between an inbound search
//! request and the response, and the service's error mapping.

use vstd::prelude::*;
use vstd::string::StringExecFns;
use crate::the_cat_api::{ApiError, Breed, BreedView, CannedClient, TheCatApi, breeds_view};

verus! {

/// The service's one externally visible failure: callers cannot tell an
/// unreachable upstream from a garbled upstream body or any other internal
/// fault.
#[derive(Debug, PartialEq, Eq)]
pub enum AppError {
    InternalError,
}

/// The model of the handler's decision: a successful search is passed through
/// whole, any client failure collapses into the single generic error.
pub open spec fn route_view(model: Result<Seq<BreedView>, ()>) -> Result<Seq<BreedView>, AppError> {
    match model {
        Ok(s) => Ok(s),
        Err(_) => Err(AppError::InternalError),
    }
}

/// The model of a handler response: the records replaced by their views.
pub open spec fn response_view(out: Result<Vec<Breed>, AppError>) -> Result<
    Seq<BreedView>,
    AppError,
> {
    match out {
        Ok(v) => Ok(breeds_view(v@)),
        Err(e) => Err(e),
    }
}

/// Maps one client result to the handler's response: success is passed
/// through unchanged, and any failure — without looking at it — becomes
/// [`AppError::InternalError`].
pub fn route_search_result(result: Result<Vec<Breed>, ApiError>) -> (out: Result<
    Vec<Breed>,
    AppError,
>)
    ensures
        match result {
            Ok(v) => out == Ok::<Vec<Breed>, AppError>(v),
            Err(_) => out == Err::<Vec<Breed>, AppError>(AppError::InternalError),
        },
{
    match result {
        Ok(resp) => Ok(resp),
        Err(_) => Err(AppError::InternalError),
    }
}

/// The breed query handler: hands the `search` parameter, unmodified, to the
/// injected client and routes the client's result. The response is exactly
/// what the client's own model prescribes for this query, passed through
/// [`route_view`].
pub fn get_breed<C: TheCatApi>(client: &C, search: &str) -> (out: Result<Vec<Breed>, AppError>)
    ensures
        response_view(out) == route_view(client.spec_search(search@)),
{
    let result = client.search_breeds(search);
    route_search_result(result)
}

/// The first record of a response, if any. Reading the first element of an
/// empty response unguarded would be a fatal fault, so the access is guarded
/// here by design: an empty result yields `None` rather than breaking.
pub fn first_breed(breeds: &Vec<Breed>) -> (first: Option<&Breed>)
    ensures
        match first {
            Some(b) => breeds@.len() > 0 && *b == breeds@[0],
            None => breeds@.len() == 0,
        },
{
    if breeds.len() > 0 {
        Some(&breeds[0])
    } else {
        None
    }
}

impl AppError {
    /// The HTTP status code this failure is reported with.
    pub fn status_code(&self) -> (code: u16)
        ensures
            code == 500,
    {
        match self {
            AppError::InternalError => 500,
        }
    }

    /// The response body this failure is reported with; fixed, so that no
    /// internal error text can leak to callers.
    pub fn body(&self) -> (body: String)
        ensures
            body@ == spec_error_body(),
    {
        let message = match self {
            AppError::InternalError => "Internal Server Error",
        };
        let mut body = "{\"error\":\"".to_owned();
        body.append(message);
        body.append("\"}");
        body
    }
}

/// The fixed JSON body of every failure response.
pub open spec fn spec_error_body() -> Seq<char> {
    "{\"error\":\""@ + "Internal Server Error"@ + "\"}"@
}

/// The fixed greeting of the root route.
pub open spec fn spec_greeting() -> Seq<char> {
    "Hello, World!"@
}

/// The root route's response: the fixed literal greeting. It takes no part
/// of the request, so the greeting is the same whatever parameters came in.
pub fn root_greeting() -> (greeting: String)
    ensures
        greeting@ == spec_greeting(),
{
    "Hello, World!".to_owned()
}

/// Idempotence of the handler: for one client and one query, the handler's
/// contract admits only one response model, so issuing the same search twice
/// against the same client yields identical responses.
pub proof fn lemma_get_breed_idempotent<C: TheCatApi>(
    client: &C,
    search: Seq<char>,
    out1: Result<Vec<Breed>, AppError>,
    out2: Result<Vec<Breed>, AppError>,
)
    requires
        response_view(out1) == route_view(client.spec_search(search)),
        response_view(out2) == route_view(client.spec_search(search)),
    ensures
        response_view(out1) == response_view(out2),
{
}

/// Error collapse: whenever the client's model fails, the handler answers
/// with the single generic error — never with a success and never with any
/// finer-grained failure.
pub proof fn lemma_client_error_collapsed<C: TheCatApi>(
    client: &C,
    search: Seq<char>,
    out: Result<Vec<Breed>, AppError>,
)
    requires
        client.spec_search(search) matches Err(_),
        response_view(out) == route_view(client.spec_search(search)),
    ensures
        out == Err::<Vec<Breed>, AppError>(AppError::InternalError),
{
}

/// The query reaches the client unmodified: a [`CannedClient`] succeeds on
/// exactly one query, so a successful response witnesses that the handler
/// passed the inbound `search` string through as it stands.
pub proof fn lemma_query_passed_unmodified(
    client: &CannedClient,
    search: Seq<char>,
    out: Result<Vec<Breed>, AppError>,
)
    requires
        response_view(out) == route_view(client.spec_search(search)),
        out matches Ok(_),
    ensures
        search == client.expected@,
{
}

} // verus!
