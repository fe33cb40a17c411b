//! The root of the query surface and the upstream client it is served with.
use vstd::prelude::*;
use crate::http::{HttpClient, ParamView, header_count, params_view};
use crate::query::MovieQuery;

verus! {

/// The base URL of the upstream movie catalog.
pub const MOVIE_DB_URL: &'static str = "https://api.themoviedb.org/3";

/// The name of the credential parameter sent with every upstream call.
pub const API_KEY_PARAM: &'static str = "api_key";

impl Default for MovieQuery {
    fn default() -> (r: MovieQuery)
        ensures
            r == MovieQuery,
    {
        MovieQuery
    }
}

/// The root query: the movie queries.
pub struct RootQuery(pub MovieQuery);

impl Default for RootQuery {
    fn default() -> (r: RootQuery)
        ensures
            r.0 == MovieQuery,
    {
        RootQuery(MovieQuery)
    }
}

/// The default query of the upstream client: the credential alone.
pub open spec fn credential_query(api_key: Seq<char>) -> Seq<ParamView> {
    seq![(API_KEY_PARAM@, api_key)]
}

/// The upstream client of the movie catalog, authenticated by `api_key`,
/// with no default headers; fails only where the transport cannot be built.
pub fn movie_db_client(api_key: String) -> (r: Result<HttpClient, reqwest::Error>)
    ensures
        r matches Ok(c) ==> c.base_url_view() == MOVIE_DB_URL@ && header_count(c.headers_view())
            == 0 && c.default_query_view() == credential_query(api_key@),
{
    let headers = reqwest::header::HeaderMap::new();
    let ghost key = api_key@;
    let query = vec![(API_KEY_PARAM.to_owned(), api_key)];
    assert(params_view(query@) =~= credential_query(key));
    HttpClient::new(MOVIE_DB_URL, headers, query)
}

} // verus!
