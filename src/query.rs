//! The movie resources: request plans for each resource, translation of
//! their outcomes, and the fail-fast join of the aggregate home view.
use vstd::prelude::*;
use crate::error::{ClientError, as_graphql_error, reason_view};
use crate::gather::{GatherStep, HomeGather};
use crate::http::{
    HttpClient, ParamView, UpstreamRequest, extras_view, has_key, kept_extras, merged_query,
    params_view,
};
use crate::status::{Status, decimal_digits, decimal_string, status_line_of};

verus! {

/// The message of a failed upstream fetch.
pub const FETCH_FAILED: &'static str = "Failed to fetch resources";

/// One upstream resource category.
#[derive(Clone, Copy, PartialEq, Eq, Structural)]
pub enum Resource {
    NowPlaying,
    Popular,
    TopRated,
    Upcoming,
}

impl Resource {
    /// The resource's path under the upstream base URL.
    pub open spec fn spec_path(self) -> Seq<char> {
        match self {
            Resource::NowPlaying => "/movie/now_playing"@,
            Resource::Popular => "/movie/popular"@,
            Resource::TopRated => "/movie/top_rated"@,
            Resource::Upcoming => "/movie/upcoming"@,
        }
    }

    /// The resource's path under the upstream base URL.
    pub fn path(&self) -> (r: &'static str)
        ensures
            r@ == self.spec_path(),
    {
        match self {
            Resource::NowPlaying => "/movie/now_playing",
            Resource::Popular => "/movie/popular",
            Resource::TopRated => "/movie/top_rated",
            Resource::Upcoming => "/movie/upcoming",
        }
    }
}

/// The query parameters that select `page`: one `page` parameter holding its
/// decimal digits, or none at all.
pub open spec fn page_params(page: Option<usize>) -> Seq<ParamView> {
    match page {
        Some(p) => seq![("page"@, decimal_digits(p as nat))],
        None => Seq::empty(),
    }
}

/// The query parameters that select `page`.
pub fn page_query(page: Option<usize>) -> (r: Vec<(String, String)>)
    requires
        page matches Some(p) ==> p >= 1,
    ensures
        params_view(r@) == page_params(page),
{
    let mut query: Vec<(String, String)> = Vec::new();
    if let Some(p) = page {
        let name = "page".to_owned();
        let value = decimal_string(p);
        query.push((name, value));
        assert(params_view(query@) =~= page_params(page));
    } else {
        assert(params_view(query@) =~= page_params(page));
    }
    query
}

/// A resolver given a page sends the default parameters first and
/// unaltered; where no default is named `page`, they are followed by exactly
/// one parameter, `page`, holding the page number's decimal digits.
pub proof fn lemma_page_forwarded(defaults: Seq<ParamView>, page: usize)
    ensures
        merged_query(defaults, page_params(Some(page))).subrange(0, defaults.len() as int)
            == defaults,
        !has_key(defaults, "page"@) ==> merged_query(defaults, page_params(Some(page)))
            == defaults.push(("page"@, decimal_digits(page as nat))),
{
    let extras = page_params(Some(page));
    assert(extras.drop_last() =~= Seq::<ParamView>::empty());
    assert(kept_extras(defaults, Seq::<ParamView>::empty()) =~= Seq::<ParamView>::empty());
    let merged = merged_query(defaults, extras);
    assert(merged.subrange(0, defaults.len() as int) =~= defaults);
    if !has_key(defaults, "page"@) {
        assert(merged =~= defaults.push(("page"@, decimal_digits(page as nat))));
    }
}

/// A resolver given no page sends the default parameters alone.
pub proof fn lemma_no_page_param(defaults: Seq<ParamView>)
    ensures
        merged_query(defaults, page_params(None)) == defaults,
{
    assert(kept_extras(defaults, Seq::<ParamView>::empty()) =~= Seq::<ParamView>::empty());
    assert(merged_query(defaults, page_params(None)) =~= defaults);
}

/// One page of a resource as the upstream returns it.
pub struct Paginated<T> {
    pub page: usize,
    pub results: Vec<T>,
    pub total_results: usize,
    pub total_pages: usize,
}

/// The home view: the first page's items of each of the four resources.
pub struct MoviesHome<T> {
    pub now_playing: Vec<T>,
    pub popular: Vec<T>,
    pub top_rated: Vec<T>,
    pub upcoming: Vec<T>,
}

/// The resolvers of the movie queries.
pub struct MovieQuery;

impl MovieQuery {
    /// The GET that fetches `page` of `resource` (the upstream's default
    /// page where `page` is `None`).
    pub fn resource_request<'a>(&self, client: &'a HttpClient, resource: Resource, page: Option<usize>) -> (r:
        UpstreamRequest<'a>)
        requires
            page matches Some(p) ==> p >= 1,
        ensures
            r.url@ == client.base_url_view() + resource.spec_path(),
            *r.headers == client.headers_view(),
            params_view(r.query@) == merged_query(client.default_query_view(), page_params(page)),
    {
        let extra = page_query(page);
        let ghost extra_view = params_view(extra@);
        let r = client.request(resource.path(), Some(extra));
        assert(extras_view(Some(extra)) == extra_view);
        r
    }

    /// The GET of the now-playing resource.
    pub fn movies_now_playing<'a>(&self, client: &'a HttpClient, page: Option<usize>) -> (r: UpstreamRequest<'a>)
        requires
            page matches Some(p) ==> p >= 1,
        ensures
            r.url@ == client.base_url_view() + Resource::NowPlaying.spec_path(),
            *r.headers == client.headers_view(),
            params_view(r.query@) == merged_query(client.default_query_view(), page_params(page)),
    {
        self.resource_request(client, Resource::NowPlaying, page)
    }

    /// The GET of the popular resource.
    pub fn movies_popular<'a>(&self, client: &'a HttpClient, page: Option<usize>) -> (r: UpstreamRequest<'a>)
        requires
            page matches Some(p) ==> p >= 1,
        ensures
            r.url@ == client.base_url_view() + Resource::Popular.spec_path(),
            *r.headers == client.headers_view(),
            params_view(r.query@) == merged_query(client.default_query_view(), page_params(page)),
    {
        self.resource_request(client, Resource::Popular, page)
    }

    /// The GET of the top-rated resource.
    pub fn movies_top_rated<'a>(&self, client: &'a HttpClient, page: Option<usize>) -> (r: UpstreamRequest<'a>)
        requires
            page matches Some(p) ==> p >= 1,
        ensures
            r.url@ == client.base_url_view() + Resource::TopRated.spec_path(),
            *r.headers == client.headers_view(),
            params_view(r.query@) == merged_query(client.default_query_view(), page_params(page)),
    {
        self.resource_request(client, Resource::TopRated, page)
    }

    /// The GET of the upcoming resource.
    pub fn movies_upcoming<'a>(&self, client: &'a HttpClient, page: Option<usize>) -> (r: UpstreamRequest<'a>)
        requires
            page matches Some(p) ==> p >= 1,
        ensures
            r.url@ == client.base_url_view() + Resource::Upcoming.spec_path(),
            *r.headers == client.headers_view(),
            params_view(r.query@) == merged_query(client.default_query_view(), page_params(page)),
    {
        self.resource_request(client, Resource::Upcoming, page)
    }

    /// The answer of a single-resource query: the page itself, or, where the
    /// fetch failed with description `e`, the fetch error with `e` as reason.
    pub fn resource_result<T>(&self, outcome: Result<Paginated<T>, String>) -> (r: Result<
        Paginated<T>,
        ClientError,
    >)
        ensures
            outcome matches Ok(p) ==> (r matches Ok(q) && q == p),
            outcome matches Err(e) ==> (r matches Err(c) && c.message@ == FETCH_FAILED@ && c.code
                == 500 && c.status@ == status_line_of(500) && (c.reason matches Some(text)
                && text@ == e@)),
    {
        match outcome {
            Ok(p) => Ok(p),
            Err(e) => Err(as_graphql_error(FETCH_FAILED, &Status::internal_server_error(), e)),
        }
    }

    /// The requests of the home view: the first page of each of the four
    /// resources, in field order.
    pub fn home_requests<'a>(&self, client: &'a HttpClient) -> (r: Vec<(Resource, UpstreamRequest<'a>)>)
        ensures
            r@.len() == 4,
            r@[0].0 == Resource::NowPlaying,
            r@[1].0 == Resource::Popular,
            r@[2].0 == Resource::TopRated,
            r@[3].0 == Resource::Upcoming,
            forall|i: int|
                0 <= i < 4 ==> {
                    &&& (#[trigger] r@[i]).1.url@ == client.base_url_view() + r@[i].0.spec_path()
                    &&& *r@[i].1.headers == client.headers_view()
                    &&& params_view(r@[i].1.query@) == client.default_query_view()
                },
    {
        let mut r: Vec<(Resource, UpstreamRequest<'a>)> = Vec::new();
        let resources = [Resource::NowPlaying, Resource::Popular, Resource::TopRated, Resource::Upcoming];
        let mut k: usize = 0;
        while k < 4
            invariant
                k <= 4,
                r@.len() == k,
                resources@ == seq![Resource::NowPlaying, Resource::Popular, Resource::TopRated, Resource::Upcoming],
                forall|i: int|
                    0 <= i < k ==> {
                        &&& (#[trigger] r@[i]).0 == resources@[i]
                        &&& r@[i].1.url@ == client.base_url_view() + r@[i].0.spec_path()
                        &&& *r@[i].1.headers == client.headers_view()
                        &&& params_view(r@[i].1.query@) == client.default_query_view()
                    },
            decreases 4 - k,
        {
            let resource = resources[k];
            let request = self.resource_request(client, resource, None);
            proof {
                lemma_no_page_param(client.default_query_view());
            }
            r.push((resource, request));
            k = k + 1;
        }
        r
    }

    /// The home view from the outcomes of the four resources, recorded in
    /// field order through the fail-fast join: their first pages' items
    /// where all four succeeded; otherwise the message and reason of the
    /// first failure, in field order, under status 500.
    pub fn movies_home<T>(
        &self,
        now_playing: Result<Paginated<T>, ClientError>,
        popular: Result<Paginated<T>, ClientError>,
        top_rated: Result<Paginated<T>, ClientError>,
        upcoming: Result<Paginated<T>, ClientError>,
    ) -> (r: Result<MoviesHome<T>, ClientError>)
        ensures
            r is Ok <==> (now_playing is Ok && popular is Ok && top_rated is Ok && upcoming is Ok),
            r matches Ok(h) ==> h.now_playing@ == now_playing->Ok_0.results@ && h.popular@
                == popular->Ok_0.results@ && h.top_rated@ == top_rated->Ok_0.results@
                && h.upcoming@ == upcoming->Ok_0.results@,
            r matches Err(c) ==> {
                let e = first_failure(now_playing, popular, top_rated, upcoming);
                &&& c.message@ == e.message@
                &&& c.code == 500
                &&& c.status@ == status_line_of(500)
                &&& reason_view(c.reason) == reason_view(e.reason)
            },
    {
        let mut gather = HomeGather::new();
        match gather.record(Resource::NowPlaying, now_playing) {
            GatherStep::Failed(e) => { return Err(e); },
            GatherStep::Complete(h) => { return Ok(h); },
            GatherStep::Waiting => {},
        }
        match gather.record(Resource::Popular, popular) {
            GatherStep::Failed(e) => { return Err(e); },
            GatherStep::Complete(h) => { return Ok(h); },
            GatherStep::Waiting => {},
        }
        match gather.record(Resource::TopRated, top_rated) {
            GatherStep::Failed(e) => { return Err(e); },
            GatherStep::Complete(h) => { return Ok(h); },
            GatherStep::Waiting => {},
        }
        match gather.record(Resource::Upcoming, upcoming) {
            GatherStep::Failed(e) => Err(e),
            GatherStep::Complete(h) => Ok(h),
            GatherStep::Waiting => unreached(),
        }
    }
}

/// The first failure among four outcomes, in field order.
pub open spec fn first_failure<T>(
    a: Result<Paginated<T>, ClientError>,
    b: Result<Paginated<T>, ClientError>,
    c: Result<Paginated<T>, ClientError>,
    d: Result<Paginated<T>, ClientError>,
) -> ClientError
    recommends
        !(a is Ok && b is Ok && c is Ok && d is Ok),
{
    match a {
        Err(e) => e,
        Ok(_) => match b {
            Err(e) => e,
            Ok(_) => match c {
                Err(e) => e,
                Ok(_) => d->Err_0,
            },
        },
    }
}

} // verus!
