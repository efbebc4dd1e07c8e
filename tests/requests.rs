use kodik_api::countries::CountryQuery;
use kodik_api::error::ApiError;
use kodik_api::list::{ListPager, ListQuery, ListResponse, PageCursor};
use kodik_api::qualities::QualityQuery;
use kodik_api::response::{decode_envelope, response_outcome, ResponseEvent};
use kodik_api::search::SearchQuery;
use kodik_api::types::ReleaseType;
use kodik_api::{Client, ClientBuilder, PostRequest};

const KEY: &str = "q8p5vnf9crt7xfyzke4iwc6r5rvsurv7";

fn pair(k: &str, v: &str) -> (String, String) {
    (k.to_owned(), v.to_owned())
}

fn page(n: i32, next: Option<&str>) -> ListResponse {
    ListResponse {
        time: format!("{n}ms"),
        total: 3,
        prev_page: None,
        next_page: next.map(|s| s.to_owned()),
        results: vec![],
    }
}

fn received(p: ListResponse) -> ResponseEvent<ListResponse> {
    ResponseEvent::Received { as_success: Some(p), as_error: None }
}

#[test]
fn relative_path_goes_under_base_url_with_token() {
    let client = Client::new(KEY);
    let request = client.init_post_request("/list");
    assert_eq!(
        request,
        PostRequest {
            url: "https://kodikapi.com/list".to_owned(),
            query: vec![pair("token", KEY)],
            body: None,
        }
    );
}

#[test]
fn absolute_url_is_kept_and_still_gets_token() {
    let client = Client::new(KEY);
    let url = "https://kodikapi.com/list?next=abc&limit=100";
    let request = client.init_post_request(url);
    assert_eq!(request.url, url);
    assert_eq!(request.query, vec![pair("token", KEY)]);
    let short = client.init_post_request("htt");
    assert_eq!(short.url, "https://kodikapi.comhtt");
}

#[test]
fn builder_sets_base_url() {
    let client = ClientBuilder::new().api_url("http://localhost:8080").api_key("k").build();
    let request = client.init_post_request("/years");
    assert_eq!(request.url, "http://localhost:8080/years");
    assert_eq!(request.query, vec![pair("token", "k")]);
    let default_client = ClientBuilder::default().api_key("k").build();
    assert_eq!(default_client.init_post_request("/x").url, "https://kodikapi.com/x");
}

#[test]
fn request_query_appends_after_token() {
    let client = Client::new(KEY);
    let request = client
        .init_post_request("/list")
        .query(vec![pair("limit", "5")])
        .body("a=b".to_owned());
    assert_eq!(request.query, vec![pair("token", KEY), pair("limit", "5")]);
    assert_eq!(request.body, Some("a=b".to_owned()));
}

#[test]
fn countries_and_qualities_requests() {
    let client = Client::new(KEY);
    let types = [ReleaseType::Anime];
    let mut countries = CountryQuery::new();
    countries.with_types(&types);
    let request = countries.request(&client);
    assert_eq!(request.url, "https://kodikapi.com/countries");
    assert_eq!(request.query, vec![pair("token", KEY), pair("types", "anime")]);
    assert_eq!(request.body, None);

    let request = QualityQuery::new().request(&client);
    assert_eq!(request.url, "https://kodikapi.com/qualities/v2");
    assert_eq!(request.query, vec![pair("token", KEY)]);
}

#[test]
fn search_request_sends_form_body() {
    let client = Client::new(KEY);
    let mut query = SearchQuery::new();
    query.with_title("Cyberpunk: Edgerunners").with_limit(1);
    let request = query.request(&client).unwrap();
    assert_eq!(request.url, "https://kodikapi.com/search");
    assert_eq!(request.query, vec![pair("token", KEY)]);
    assert_eq!(request.body, Some("title=Cyberpunk%3A+Edgerunners&limit=1".to_owned()));

    let types = [ReleaseType::Anime, ReleaseType::AnimeSerial];
    let mut query = SearchQuery::new();
    query.with_types(&types);
    let request = query.request(&client).unwrap();
    assert_eq!(request.body, Some("types=anime%2Canime-serial".to_owned()));
}

#[test]
fn envelope_error_shape_is_domain_error() {
    let r = decode_envelope::<ListResponse>(None, Some("boom".to_owned()));
    assert!(matches!(r, Err(ApiError::KodikError(m)) if m == "boom"));
}

#[test]
fn envelope_success_shape_wins() {
    let r = decode_envelope(Some(page(1, None)), None);
    assert_eq!(r.unwrap(), page(1, None));
    let r = decode_envelope(Some(7u32), Some("ignored".to_owned()));
    assert_eq!(r.unwrap(), 7);
}

#[test]
fn envelope_of_neither_shape_is_malformed() {
    let r = decode_envelope::<ListResponse>(None, None);
    assert!(matches!(r, Err(ApiError::MalformedResponse)));
    let r = response_outcome::<u32>(ResponseEvent::Received { as_success: None, as_error: None });
    assert!(matches!(r, Err(ApiError::MalformedResponse)));
}

#[test]
fn pagination_follows_next_page_until_it_is_absent() {
    let client = Client::new(KEY);
    let types = [ReleaseType::Anime, ReleaseType::AnimeSerial];
    let mut query = ListQuery::new();
    query.with_limit(100).with_types(&types);
    let mut pager = query.pager();

    let responses = vec![
        page(1, Some("https://kodikapi.com/list?page=2")),
        page(2, Some("https://kodikapi.com/list?page=3")),
        page(3, None),
    ];
    let mut requests: Vec<PostRequest> = Vec::new();
    let mut pages: Vec<ListResponse> = Vec::new();
    let mut responses = responses.into_iter();
    while let Some(request) = pager.next_request(&client) {
        requests.push(request);
        let response = responses.next().expect("a request beyond the mocked responses");
        pages.push(pager.on_response(received(response)).unwrap());
    }

    assert_eq!(requests.len(), 3);
    assert_eq!(pages, vec![
        page(1, Some("https://kodikapi.com/list?page=2")),
        page(2, Some("https://kodikapi.com/list?page=3")),
        page(3, None),
    ]);
    assert_eq!(requests[0].url, "https://kodikapi.com/list");
    assert_eq!(
        requests[0].query,
        vec![pair("token", KEY), pair("limit", "100"), pair("types", "anime,anime-serial")]
    );
    assert_eq!(requests[1].url, "https://kodikapi.com/list?page=2");
    assert_eq!(requests[1].query, vec![pair("token", KEY)]);
    assert_eq!(requests[2].url, "https://kodikapi.com/list?page=3");
    assert_eq!(requests[2].query, vec![pair("token", KEY)]);
    assert!(pager.is_done());
    assert!(pager.next_request(&client).is_none());
}

#[test]
fn pagination_stops_at_error_mid_stream() {
    let client = Client::new(KEY);
    let mut pager = ListQuery::new().pager();

    let mut requests = 0;
    let mut yielded: Vec<Result<ListResponse, ApiError>> = Vec::new();
    let mut events = vec![
        received(page(1, Some("https://kodikapi.com/list?page=2"))),
        ResponseEvent::Received { as_success: None, as_error: Some("boom".to_owned()) },
    ]
    .into_iter();
    while let Some(_request) = pager.next_request(&client) {
        requests += 1;
        let event = events.next().expect("a third request");
        yielded.push(pager.on_response(event));
    }

    assert_eq!(requests, 2);
    assert_eq!(yielded.len(), 2);
    assert!(matches!(&yielded[0], Ok(p) if p.time == "1ms"));
    assert!(matches!(&yielded[1], Err(ApiError::KodikError(m)) if m == "boom"));
    assert_eq!(pager.cursor, PageCursor::Done);
}

#[test]
fn single_execute_takes_first_page_only() {
    let client = Client::new(KEY);
    let mut pager = ListPager::new(vec![]);
    let first = pager.next_request(&client).unwrap();
    assert_eq!(first.url, "https://kodikapi.com/list");
    let result = pager.on_response(received(page(1, Some("https://kodikapi.com/list?page=2"))));
    assert_eq!(result.unwrap().time, "1ms");
    assert_eq!(pager.cursor, PageCursor::Next("https://kodikapi.com/list?page=2".to_owned()));
}

#[test]
fn first_page_error_ends_listing() {
    let client = Client::new(KEY);
    let mut pager = ListQuery::new().pager();
    assert!(pager.next_request(&client).is_some());
    let r = pager.on_response(ResponseEvent::Received { as_success: None, as_error: None });
    assert!(matches!(r, Err(ApiError::MalformedResponse)));
    assert!(pager.next_request(&client).is_none());
}
