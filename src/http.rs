//! The upstream client: a base URL, default headers and a default query,
//! and the plan of each GET request made through it.
use vstd::prelude::*;
use vstd::string::*;

verus! {

#[verifier::external_type_specification]
#[verifier::external_body]
pub struct ExClient(reqwest::Client);

#[verifier::external_type_specification]
#[verifier::external_body]
pub struct ExError(reqwest::Error);

#[verifier::external_type_specification]
#[verifier::external_body]
#[verifier::reject_recursive_types(T)]
pub struct ExHeaderMap<T>(reqwest::header::HeaderMap<T>);

#[verifier::external_type_specification]
#[verifier::external_body]
pub struct ExHeaderValue(reqwest::header::HeaderValue);

/// A query parameter as a pair of character sequences.
pub type ParamView = (Seq<char>, Seq<char>);

/// The query parameters of `v`, as views.
pub open spec fn params_view(v: Seq<(String, String)>) -> Seq<ParamView> {
    v.map_values(|p: (String, String)| (p.0@, p.1@))
}

proof fn lemma_params_view_push(v: Seq<(String, String)>, p: (String, String))
    ensures
        params_view(v.push(p)) == params_view(v).push((p.0@, p.1@)),
{
    assert(params_view(v.push(p)) =~= params_view(v).push((p.0@, p.1@)));
}

/// Whether some parameter of `q` is named `key`.
pub open spec fn has_key(q: Seq<ParamView>, key: Seq<char>) -> bool {
    exists|i: int| 0 <= i < q.len() && #[trigger] q[i].0 == key
}

/// The parameters of `extras`, in order, whose names `defaults` does not hold.
pub open spec fn kept_extras(defaults: Seq<ParamView>, extras: Seq<ParamView>) -> Seq<ParamView>
    decreases extras.len(),
{
    if extras.len() == 0 {
        Seq::empty()
    } else {
        let rest = kept_extras(defaults, extras.drop_last());
        if has_key(defaults, extras.last().0) {
            rest
        } else {
            rest.push(extras.last())
        }
    }
}

/// The query sent for a call: the defaults, unaltered and first, then the
/// call's own parameters, save those whose name is already a default.
pub open spec fn merged_query(defaults: Seq<ParamView>, extras: Seq<ParamView>) -> Seq<ParamView> {
    defaults + kept_extras(defaults, extras)
}

/// The parameters of an optional extra query.
pub open spec fn extras_view(extra: Option<Vec<(String, String)>>) -> Seq<ParamView> {
    match extra {
        Some(v) => params_view(v@),
        None => Seq::empty(),
    }
}

/// How many entries a header map holds.
pub uninterp spec fn header_count(m: reqwest::header::HeaderMap) -> nat;

/// Relies on `http::HeaderMap::new`, which creates an empty map.
pub assume_specification[ reqwest::header::HeaderMap::<reqwest::header::HeaderValue>::new ]() -> (r: reqwest::header::HeaderMap)
    ensures
        header_count(r) == 0,
;

/// Relies on reqwest's `Client::builder().build()`: it gives a client, or
/// the error that stopped the build.
#[verifier::external_body]
fn build_client() -> (r: Result<reqwest::Client, reqwest::Error>) {
    reqwest::Client::builder().build()
}

/// What a GET sends: the full URL, the headers and the query parameters,
/// in order.
pub struct UpstreamRequest<'a> {
    pub url: String,
    pub headers: &'a reqwest::header::HeaderMap,
    pub query: Vec<(String, String)>,
}

/// A client bound to a base URL, default headers and a default query.
pub struct HttpClient {
    base_url: String,
    headers: reqwest::header::HeaderMap,
    query: Vec<(String, String)>,
    pub client: reqwest::Client,
}

impl HttpClient {
    /// The base URL.
    pub closed spec fn base_url_view(&self) -> Seq<char> {
        self.base_url@
    }

    /// The default headers, sent with every call.
    pub closed spec fn headers_view(&self) -> reqwest::header::HeaderMap {
        self.headers
    }

    /// The default query parameters, sent with every call.
    pub closed spec fn default_query_view(&self) -> Seq<ParamView> {
        params_view(self.query@)
    }

    /// A client for `base_url` with default `headers` and `query`; fails only
    /// where the transport cannot be built.
    pub fn new(
        base_url: &str,
        headers: reqwest::header::HeaderMap,
        query: Vec<(String, String)>,
    ) -> (r: Result<HttpClient, reqwest::Error>)
        ensures
            r matches Ok(c) ==> c.base_url_view() == base_url@ && c.headers_view() == headers
                && c.default_query_view() == params_view(query@),
    {
        let client = match build_client() {
            Ok(client) => client,
            Err(e) => {
                return Err(e);
            },
        };
        Ok(HttpClient { base_url: base_url.to_owned(), headers, query, client })
    }

    /// The default headers.
    pub fn headers(&self) -> (r: &reqwest::header::HeaderMap)
        ensures
            *r == self.headers_view(),
    {
        &self.headers
    }

    /// The URL of `path` under the base URL.
    pub fn url_for(&self, path: &str) -> (r: String)
        ensures
            r@ == self.base_url_view() + path@,
    {
        let mut url = self.base_url.clone();
        url.append(path);
        url
    }

    /// Whether a default parameter is named `key`.
    fn is_default_key(&self, key: &String) -> (r: bool)
        ensures
            r == has_key(self.default_query_view(), key@),
    {
        let ghost q = self.default_query_view();
        let mut j: usize = 0;
        while j < self.query.len()
            invariant
                j <= self.query@.len(),
                q == params_view(self.query@),
                forall|i: int| 0 <= i < j ==> q[i].0 != key@,
            decreases self.query@.len() - j,
        {
            if self.query[j].0 == *key {
                assert(q[j as int].0 == key@);
                return true;
            }
            j = j + 1;
        }
        false
    }

    /// The query of a call with `extra` parameters: see `merged_query`.
    pub fn query_for(&self, extra: Option<Vec<(String, String)>>) -> (r: Vec<(String, String)>)
        ensures
            params_view(r@) == merged_query(self.default_query_view(), extras_view(extra)),
    {
        let ghost defaults = self.default_query_view();
        let mut out: Vec<(String, String)> = Vec::new();
        let mut j: usize = 0;
        while j < self.query.len()
            invariant
                j <= self.query@.len(),
                defaults == params_view(self.query@),
                params_view(out@) == defaults.subrange(0, j as int),
            decreases self.query@.len() - j,
        {
            let pair = (self.query[j].0.clone(), self.query[j].1.clone());
            proof {
                lemma_params_view_push(out@, pair);
            }
            out.push(pair);
            assert(params_view(out@) =~= defaults.subrange(0, j + 1));
            j = j + 1;
        }
        assert(defaults.subrange(0, j as int) =~= defaults);
        let ghost extras = extras_view(extra);
        assert(kept_extras(defaults, extras.subrange(0, 0)) =~= Seq::<ParamView>::empty());
        if let Some(more) = extra {
            let mut k: usize = 0;
            while k < more.len()
                invariant
                    k <= more@.len(),
                    extras == params_view(more@),
                    defaults == self.default_query_view(),
                    params_view(out@) == defaults + kept_extras(defaults, extras.subrange(0, k as int)),
                decreases more@.len() - k,
            {
                assert(extras.subrange(0, k + 1).drop_last() =~= extras.subrange(0, k as int));
                assert(extras.subrange(0, k + 1).last() == (more@[k as int].0@, more@[k as int].1@));
                if !self.is_default_key(&more[k].0) {
                    let pair = (more[k].0.clone(), more[k].1.clone());
                    proof {
                        lemma_params_view_push(out@, pair);
                    }
                    out.push(pair);
                    assert(params_view(out@) =~= defaults + kept_extras(defaults, extras.subrange(0, k + 1)));
                }
                k = k + 1;
            }
            assert(extras.subrange(0, k as int) =~= extras);
        }
        out
    }

    /// The GET of `path` with `extra` parameters: its URL and its query.
    pub fn request<'a>(&'a self, path: &str, extra: Option<Vec<(String, String)>>) -> (r:
        UpstreamRequest<'a>)
        ensures
            r.url@ == self.base_url_view() + path@,
            *r.headers == self.headers_view(),
            params_view(r.query@) == merged_query(self.default_query_view(), extras_view(extra)),
    {
        UpstreamRequest { url: self.url_for(path), headers: &self.headers, query: self.query_for(extra) }
    }
}

} // verus!
