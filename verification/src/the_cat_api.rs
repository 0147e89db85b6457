//! The breed data model, the capability interface for the external
//! breed-search API, and verified test doubles for it.

use vstd::prelude::*;
use vstd::string::StringExecFns;
use crate::query_encoding::{append_query_encoded, spec_query_encoded};

verus! {

/// A single breed record as returned by the breed-search API: an identifier
/// and a display name. Any further fields of the upstream payload are ignored.
#[derive(Debug, PartialEq, Eq)]
pub struct Breed {
    pub id: String,
    pub name: String,
}

/// The mathematical model of a [`Breed`]: its two fields as character
/// sequences.
pub struct BreedView {
    pub id: Seq<char>,
    pub name: Seq<char>,
}

impl View for Breed {
    type V = BreedView;

    open spec fn view(&self) -> BreedView {
        BreedView { id: self.id@, name: self.name@ }
    }
}

/// The model of a whole response: each record replaced by its view.
pub open spec fn breeds_view(breeds: Seq<Breed>) -> Seq<BreedView> {
    breeds.map(|i: int, b: Breed| b@)
}

/// The one, deliberately opaque, error category a breed search can signal.
/// Network failures and decode failures are collapsed into it alike; callers
/// are given no finer distinction.
#[derive(Debug, PartialEq, Eq)]
pub struct ApiError;

/// Holds exactly when the concrete search result `r` is what the model
/// `model` prescribes: the same records on success, some [`ApiError`] on
/// failure.
pub open spec fn models_search_result(
    model: Result<Seq<BreedView>, ()>,
    r: Result<Vec<Breed>, ApiError>,
) -> bool {
    match model {
        Ok(s) => r matches Ok(v) && breeds_view(v@) == s,
        Err(_) => r matches Err(_),
    }
}

/// The capability interface over the external breed-search API. The request
/// handler depends only on this trait, so a test double can stand in for the
/// real network client.
///
/// Each implementation describes itself by the spec function [`Self::spec_search`]
/// and promises that [`Self::search_breeds`] returns what that model prescribes.
pub trait TheCatApi {
    /// The model of this capability: the records (or the failure) that a
    /// search for `query` yields.
    spec fn spec_search(&self, query: Seq<char>) -> Result<Seq<BreedView>, ()>;

    /// Searches breed records matching `query`; the full parsed sequence
    /// (possibly empty) on success, the one generic error on failure.
    fn search_breeds(&self, query: &str) -> (r: Result<Vec<Breed>, ApiError>)
        ensures
            models_search_result(self.spec_search(query@), r),
    ;
}

/// The fixed external endpoint, up to the query parameter.
pub open spec fn spec_search_endpoint() -> Seq<char> {
    "https://api.thecatapi.com/v1/breeds/search?q="@
}

/// The URL of an outbound breed search: the fixed endpoint followed by the
/// percent-encoded query string.
pub open spec fn spec_search_url(query: Seq<char>) -> Seq<char> {
    spec_search_endpoint() + spec_query_encoded(query)
}

/// Builds the URL for one outbound breed search, the query URL-encoded into
/// the query parameter.
pub fn search_url(query: &str) -> (url: String)
    ensures
        url@ == spec_search_url(query@),
{
    let mut url = "https://api.thecatapi.com/v1/breeds/search?q=".to_owned();
    append_query_encoded(&mut url, query);
    url
}

/// A test double: answers the one query it expects with a copy of its canned
/// records, and any other query with the generic error. That it succeeds at
/// all thus witnesses that it was handed exactly the expected query string.
pub struct CannedClient {
    pub expected: String,
    pub breeds: Vec<Breed>,
}

impl TheCatApi for CannedClient {
    open spec fn spec_search(&self, query: Seq<char>) -> Result<Seq<BreedView>, ()> {
        if query == self.expected@ {
            Ok(breeds_view(self.breeds@))
        } else {
            Err(())
        }
    }

    fn search_breeds(&self, query: &str) -> (r: Result<Vec<Breed>, ApiError>) {
        let q = query.to_owned();
        if q == self.expected {
            let mut out: Vec<Breed> = Vec::new();
            let mut i: usize = 0;
            while i < self.breeds.len()
                invariant
                    i <= self.breeds.len(),
                    out@ == self.breeds@.take(i as int),
                decreases self.breeds.len() - i,
            {
                let b = &self.breeds[i];
                out.push(Breed { id: b.id.clone(), name: b.name.clone() });
                proof {
                    assert(out@ =~= self.breeds@.take(i as int + 1));
                }
                i = i + 1;
            }
            proof {
                assert(out@ =~= self.breeds@);
            }
            Ok(out)
        } else {
            Err(ApiError)
        }
    }
}

/// A test double for an upstream that cannot be read: every search fails with
/// the generic error, as it does when the outbound call breaks or its body
/// does not decode.
pub struct FailingClient;

impl TheCatApi for FailingClient {
    open spec fn spec_search(&self, query: Seq<char>) -> Result<Seq<BreedView>, ()> {
        Err(())
    }

    fn search_breeds(&self, query: &str) -> (r: Result<Vec<Breed>, ApiError>) {
        Err(ApiError)
    }
}

} // verus!
