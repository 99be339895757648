use unwarp::filters::{RouteFilter, UnitFilter};
use unwarp::method::{method_filter, HttpMethod};
use unwarp::path::{path_filter, path_segments};
use unwarp::{RouteBuilder, Status, Unwarp};
use warp::http::StatusCode;
use warp::Filter;
use warp::Reply;

fn block_on<F: std::future::Future>(f: F) -> F::Output {
    tokio::runtime::Builder::new_current_thread()
        .build()
        .unwrap()
        .block_on(f)
}

fn matches(filter: &UnitFilter, method: &str, path: &str) -> bool {
    block_on(warp::test::request().method(method).path(path).matches(&filter.inner))
}

fn fixed_route(path: &'static str, body: &'static str) -> RouteFilter {
    RouteFilter {
        inner: warp::path(path)
            .and(warp::path::end())
            .map(move || warp::reply::html(body).into_response())
            .boxed(),
    }
}

fn segs(path: &str) -> Vec<String> {
    path_segments(path)
}

#[test]
fn builders_record_method_and_path() {
    let cases = [
        (RouteBuilder::get("ping"), HttpMethod::Get),
        (RouteBuilder::post("ping"), HttpMethod::Post),
        (RouteBuilder::put("ping"), HttpMethod::Put),
        (RouteBuilder::delete("ping"), HttpMethod::Delete),
        (RouteBuilder::patch("ping"), HttpMethod::Patch),
        (RouteBuilder::head("ping"), HttpMethod::Head),
        (RouteBuilder::options("ping"), HttpMethod::Options),
    ];
    for (builder, method) in cases.iter() {
        assert_eq!(builder.method(), *method);
        assert_eq!(builder.path(), "ping");
    }
}

#[test]
fn json_and_query_keep_the_route() {
    let j = RouteBuilder::post("users").json::<String>();
    assert_eq!(j.base().method(), HttpMethod::Post);
    assert_eq!(j.base().path(), "users");
    let q = RouteBuilder::get("search").query::<u32>();
    assert_eq!(q.base().method(), HttpMethod::Get);
    assert_eq!(q.base().path(), "search");
}

#[test]
fn segments_drop_empty_pieces() {
    assert_eq!(segs(""), Vec::<String>::new());
    assert_eq!(segs("/"), Vec::<String>::new());
    assert_eq!(segs("///"), Vec::<String>::new());
    assert_eq!(segs("ping"), vec!["ping".to_string()]);
    assert_eq!(segs("/a//bc/"), vec!["a".to_string(), "bc".to_string()]);
    assert_eq!(
        segs("users/42/posts"),
        vec!["users".to_string(), "42".to_string(), "posts".to_string()]
    );
    assert_eq!(segs("/é/ß"), vec!["é".to_string(), "ß".to_string()]);
}

#[test]
fn segments_are_a_normal_form() {
    for p in ["", "/", "a", "//a//b//", "/x/y/z", "a/b/"] {
        let once = segs(p);
        let joined = once.join("/");
        assert_eq!(segs(&joined), once);
        for s in &once {
            assert!(!s.is_empty());
            assert!(!s.contains('/'));
        }
    }
}

#[test]
fn slash_splits_segments() {
    let a = "x//y";
    let b = "/z";
    let mut expected = segs(a);
    expected.extend(segs(b));
    assert_eq!(segs(&format!("{}/{}", a, b)), expected);
}

#[test]
fn path_filter_matches_exact_path() {
    let f = path_filter("/a/b/");
    assert!(matches(&f, "GET", "/a/b"));
    assert!(matches(&f, "POST", "/a/b"));
    assert!(!matches(&f, "GET", "/a"));
    assert!(!matches(&f, "GET", "/a/b/c"));
    assert!(!matches(&f, "GET", "/a/bb"));
}

#[test]
fn empty_path_filter_matches_root_only() {
    let f = path_filter("/");
    assert!(matches(&f, "GET", "/"));
    assert!(!matches(&f, "GET", "/a"));
}

#[test]
fn method_filter_checks_method() {
    let pairs = [
        (HttpMethod::Get, "GET"),
        (HttpMethod::Post, "POST"),
        (HttpMethod::Put, "PUT"),
        (HttpMethod::Delete, "DELETE"),
        (HttpMethod::Patch, "PATCH"),
        (HttpMethod::Head, "HEAD"),
        (HttpMethod::Options, "OPTIONS"),
    ];
    for (m, name) in pairs.iter() {
        let f = method_filter(*m);
        for (_, other) in pairs.iter() {
            assert_eq!(matches(&f, other, "/"), name == other);
        }
    }
}

#[test]
fn route_filter_checks_method_and_path() {
    let f = RouteBuilder::delete("items/42").route_filter();
    assert!(matches(&f, "DELETE", "/items/42"));
    assert!(!matches(&f, "GET", "/items/42"));
    assert!(!matches(&f, "DELETE", "/items"));
    assert!(!matches(&f, "DELETE", "/items/42/x"));
}

#[test]
fn status_codes_follow_the_table() {
    let table = [
        (Status::OK, 200u16),
        (Status::Created, 201),
        (Status::Accepted, 202),
        (Status::NoContent, 204),
        (Status::MovedPermanently, 301),
        (Status::Found, 302),
        (Status::NotModified, 304),
        (Status::TemporaryRedirect, 307),
        (Status::PermanentRedirect, 308),
        (Status::BadRequest, 400),
        (Status::Unauthorized, 401),
        (Status::Forbidden, 403),
        (Status::NotFound, 404),
        (Status::MethodNotAllowed, 405),
        (Status::Conflict, 409),
        (Status::Gone, 410),
        (Status::UnprocessableEntity, 422),
        (Status::TooManyRequests, 429),
        (Status::InternalServerError, 500),
        (Status::NotImplemented, 501),
        (Status::BadGateway, 502),
        (Status::ServiceUnavailable, 503),
        (Status::GatewayTimeout, 504),
    ];
    for (s, n) in table.iter() {
        assert_eq!(s.code(), *n);
        let c: StatusCode = (*s).into();
        assert_eq!(c.as_u16(), *n);
        assert_eq!(s.status_code(), StatusCode::from_u16(*n).unwrap());
    }
    for (i, (s, _)) in table.iter().enumerate() {
        for (j, (t, _)) in table.iter().enumerate() {
            assert_eq!(s.code() == t.code(), i == j);
            assert_eq!(s == t, i == j);
        }
    }
}

#[test]
fn status_code_conversion_named_examples() {
    assert_eq!(StatusCode::from(Status::NotFound), StatusCode::NOT_FOUND);
    assert_eq!(StatusCode::from(Status::Created), StatusCode::CREATED);
    assert_eq!(StatusCode::from(Status::GatewayTimeout), StatusCode::GATEWAY_TIMEOUT);
}

#[test]
fn new_server_has_nothing_to_serve() {
    assert!(Unwarp::new().combined().is_none());
    assert!(Unwarp::default().combined().is_none());
}

#[test]
fn routes_are_tried_in_registration_order() {
    let mut server = Unwarp::new();
    server
        .route(fixed_route("one", "first"))
        .route(fixed_route("two", "second"))
        .route(fixed_route("one", "shadowed"));
    let combined = server.combined().expect("routes were registered");
    let reply = block_on(warp::test::request().path("/one").reply(&combined.inner));
    assert_eq!(reply.status(), 200);
    assert_eq!(reply.body().as_ref(), b"first");
    let reply = block_on(warp::test::request().path("/two").reply(&combined.inner));
    assert_eq!(reply.body().as_ref(), b"second");
    let reply = block_on(warp::test::request().path("/three").reply(&combined.inner));
    assert_eq!(reply.status(), 404);
}

#[test]
fn single_route_is_served_as_is() {
    let mut server = Unwarp::new();
    server.route(fixed_route("only", "it"));
    let combined = server.combined().expect("one route");
    let reply = block_on(warp::test::request().path("/only").reply(&combined.inner));
    assert_eq!(reply.body().as_ref(), b"it");
}

fn rejection(filter: &UnitFilter, method: &str, path: &str) -> warp::Rejection {
    block_on(warp::test::request().method(method).path(path).filter(&filter.inner))
        .expect_err("request should be rejected")
}

#[test]
fn route_filter_rejection_kinds() {
    let f = RouteBuilder::get("hello").route_filter();
    let wrong_method = rejection(&f, "POST", "/hello");
    assert!(wrong_method.find::<warp::reject::MethodNotAllowed>().is_some());
    assert!(!wrong_method.is_not_found());
    let wrong_path = rejection(&f, "GET", "/bye");
    assert!(wrong_path.is_not_found());
    let both_wrong = rejection(&f, "POST", "/bye");
    assert!(both_wrong.find::<warp::reject::MethodNotAllowed>().is_some());
}

#[test]
fn path_and_method_filter_rejection_kinds() {
    assert!(rejection(&path_filter("a/b"), "GET", "/a").is_not_found());
    assert!(rejection(&path_filter("a/b"), "GET", "/a/b/c").is_not_found());
    let m = rejection(&method_filter(HttpMethod::Put), "GET", "/");
    assert!(m.find::<warp::reject::MethodNotAllowed>().is_some());
}

#[test]
fn status_codes_rise_in_declaration_order() {
    let order = [
        Status::OK,
        Status::Created,
        Status::Accepted,
        Status::NoContent,
        Status::MovedPermanently,
        Status::Found,
        Status::NotModified,
        Status::TemporaryRedirect,
        Status::PermanentRedirect,
        Status::BadRequest,
        Status::Unauthorized,
        Status::Forbidden,
        Status::NotFound,
        Status::MethodNotAllowed,
        Status::Conflict,
        Status::Gone,
        Status::UnprocessableEntity,
        Status::TooManyRequests,
        Status::InternalServerError,
        Status::NotImplemented,
        Status::BadGateway,
        Status::ServiceUnavailable,
        Status::GatewayTimeout,
    ];
    for w in order.windows(2) {
        assert!(StatusCode::from(w[0]).as_u16() < StatusCode::from(w[1]).as_u16());
    }
}
