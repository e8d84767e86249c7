use json_str::endpoints::{
    DeleteScriptRequest, FieldStatsRequest, FieldStatsUrlParams, IndicesCloseRequest,
    PingHeadRequest, PingRequest, SearchRequest, TermvectorsRequest,
};
use json_str::http::{empty_body, DefaultBody, HttpMethod, HttpRequest, Url};
use json_str::params::{id, index, lang, ty};

#[test]
fn close_request_url_and_post() {
    let req = IndicesCloseRequest::for_index(index("idx"), "b");
    assert_eq!(req.url.as_str(), "/idx/_close");
    assert_eq!(req.body, "b");
    let http: HttpRequest<&str> = req.into();
    assert_eq!(http.url.as_str(), "/idx/_close");
    assert_eq!(http.method, HttpMethod::Post);
    assert_eq!(http.body, Some("b"));
}

#[test]
fn delete_script_has_no_body() {
    let req = DeleteScriptRequest::for_lang_id(lang("painless"), id("s1"));
    assert_eq!(req.url.as_str(), "/_scripts/painless/s1");
    let http: HttpRequest<DefaultBody> = req.into();
    assert_eq!(http.method, HttpMethod::Delete);
    assert_eq!(http.body, None);
}

#[test]
fn urls_with_and_without_parameters() {
    assert_eq!(FieldStatsRequest::new(()).url.as_str(), "/_field_stats");
    assert_eq!(
        FieldStatsRequest::for_index(index("logs"), ()).url.as_str(),
        "/logs/_field_stats"
    );
    assert_eq!(FieldStatsUrlParams::Base.url().as_str(), "/_field_stats");
    assert_eq!(
        FieldStatsUrlParams::Index(index("a")).url().as_str(),
        "/a/_field_stats"
    );
}

#[test]
fn several_segments_in_order() {
    let req = TermvectorsRequest::for_index_ty_id(index("i"), ty("t"), id("1"), ());
    assert_eq!(req.url.as_str(), "/i/t/1/_termvectors");
    let req = TermvectorsRequest::for_index_ty(index("i"), ty("t"), ());
    assert_eq!(req.url.as_str(), "/i/t/_termvectors");
}

#[test]
fn search_urls() {
    assert_eq!(SearchRequest::new(()).url.as_str(), "/_search");
    assert_eq!(
        SearchRequest::for_index(index("x"), ()).url.as_str(),
        "/x/_search"
    );
}

#[test]
fn ping_methods() {
    let get: HttpRequest<DefaultBody> = PingRequest::new().into();
    assert_eq!(get.url.as_str(), "/");
    assert_eq!(get.method, HttpMethod::Get);
    let head: HttpRequest<DefaultBody> = PingHeadRequest::new().into();
    assert_eq!(head.method, HttpMethod::Head);
}

#[test]
fn params_hold_their_text() {
    assert_eq!(index("abc").0, "abc");
    assert_eq!(id("7").0, "7");
}

#[test]
fn empty_body_is_empty() {
    assert!(empty_body().is_empty());
    assert_eq!(Url::from_string("/x".to_string()).as_str(), "/x");
}
