use reloop::http::HttpClient;
use reloop::query::{page_query, MovieQuery, Resource};
use reloop::schema::{movie_db_client, RootQuery};

fn pairs(v: &[(&str, &str)]) -> Vec<(String, String)> {
    v.iter().map(|(k, x)| (k.to_string(), x.to_string())).collect()
}

fn client(defaults: &[(&str, &str)]) -> HttpClient {
    HttpClient::new("https://upstream.test/3", reqwest::header::HeaderMap::new(), pairs(defaults))
        .unwrap()
}

#[test]
fn page_query_forwards_the_number() {
    assert_eq!(page_query(Some(3)), pairs(&[("page", "3")]));
    assert_eq!(page_query(Some(120)), pairs(&[("page", "120")]));
    assert_eq!(page_query(Some(usize::MAX)), pairs(&[("page", &usize::MAX.to_string())]));
}

#[test]
fn page_query_without_page_is_empty() {
    assert!(page_query(None).is_empty());
}

#[test]
fn resolver_forwards_page_after_defaults() {
    let c = client(&[("api_key", "key123"), ("language", "en")]);
    let q = MovieQuery;
    let r = q.movies_now_playing(&c, Some(7));
    assert_eq!(r.url, "https://upstream.test/3/movie/now_playing");
    assert_eq!(
        r.query,
        pairs(&[("api_key", "key123"), ("language", "en"), ("page", "7")])
    );
}

#[test]
fn resolver_without_page_sends_defaults_only() {
    let c = client(&[("api_key", "k")]);
    let q = MovieQuery;
    for (r, path) in [
        (q.movies_now_playing(&c, None), "/movie/now_playing"),
        (q.movies_popular(&c, None), "/movie/popular"),
        (q.movies_top_rated(&c, None), "/movie/top_rated"),
        (q.movies_upcoming(&c, None), "/movie/upcoming"),
    ] {
        assert_eq!(r.url, format!("https://upstream.test/3{}", path));
        assert_eq!(r.query, pairs(&[("api_key", "k")]));
    }
}

#[test]
fn each_resource_has_its_path() {
    assert_eq!(Resource::NowPlaying.path(), "/movie/now_playing");
    assert_eq!(Resource::Popular.path(), "/movie/popular");
    assert_eq!(Resource::TopRated.path(), "/movie/top_rated");
    assert_eq!(Resource::Upcoming.path(), "/movie/upcoming");
}

#[test]
fn default_keys_are_not_overridden() {
    let c = client(&[("api_key", "k"), ("page", "1")]);
    let q = MovieQuery;
    let r = q.movies_popular(&c, Some(5));
    assert_eq!(r.query, pairs(&[("api_key", "k"), ("page", "1")]));
    let r = c.request("/x", Some(pairs(&[("api_key", "other"), ("region", "US"), ("page", "9")])));
    assert_eq!(r.url, "https://upstream.test/3/x");
    assert_eq!(r.query, pairs(&[("api_key", "k"), ("page", "1"), ("region", "US")]));
}

#[test]
fn extras_keep_their_order() {
    let c = client(&[]);
    let r = c.query_for(Some(pairs(&[("b", "2"), ("a", "1"), ("b", "3")])));
    assert_eq!(r, pairs(&[("b", "2"), ("a", "1"), ("b", "3")]));
    assert!(c.query_for(None).is_empty());
}

#[test]
fn movie_db_client_carries_the_credential() {
    let c = movie_db_client("abc".to_string()).unwrap();
    let r = MovieQuery.movies_top_rated(&c, Some(2));
    assert_eq!(r.url, "https://api.themoviedb.org/3/movie/top_rated");
    assert_eq!(r.query, pairs(&[("api_key", "abc"), ("page", "2")]));
    assert!(c.headers().is_empty());
    let _root = RootQuery::default();
}

#[test]
fn requests_carry_the_client_headers() {
    let mut headers = reqwest::header::HeaderMap::new();
    headers.insert("accept", reqwest::header::HeaderValue::from_static("application/json"));
    let c = HttpClient::new("https://upstream.test/3", headers.clone(), pairs(&[("api_key", "k")])).unwrap();
    assert_eq!(c.headers(), &headers);
    let r = MovieQuery.movies_upcoming(&c, Some(1));
    assert_eq!(r.headers, &headers);
    assert_eq!(r.query, pairs(&[("api_key", "k"), ("page", "1")]));
}

#[test]
fn home_requests_are_the_four_first_pages() {
    let c = client(&[("api_key", "k")]);
    let rs = MovieQuery.home_requests(&c);
    let expected = [
        (Resource::NowPlaying, "/movie/now_playing"),
        (Resource::Popular, "/movie/popular"),
        (Resource::TopRated, "/movie/top_rated"),
        (Resource::Upcoming, "/movie/upcoming"),
    ];
    assert_eq!(rs.len(), 4);
    for ((resource, request), (want, path)) in rs.iter().zip(expected.iter()) {
        assert!(resource == want);
        assert_eq!(request.url, format!("https://upstream.test/3{}", path));
        assert_eq!(request.query, pairs(&[("api_key", "k")]));
        assert!(request.headers.is_empty());
    }
}
