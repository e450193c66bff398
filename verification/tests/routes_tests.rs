use token_logos::resolver::Resolution;
use token_logos::routes::{
    cache_control, clear_cache_route, handle_token_route, internal_error_route, main_route,
    not_found_route, route_request, Reply, Route,
};
use token_logos::services::coingecko::FetchError;

fn reference_route(path: &str) -> Route {
    let segments: Vec<&str> = path.trim_start_matches('/').split('/').collect();
    if segments.len() >= 3 && segments[0] == "token" {
        return Route::Token { chain_id: segments[1].to_string(), address: segments[2].to_string() };
    }
    if segments.len() == 1 && segments[0] == "clear-cache" {
        return Route::ClearCache;
    }
    if segments.len() == 1 && segments[0] == "" {
        return Route::Main;
    }
    Route::NotFound
}

fn header(name: &str, value: &str) -> (String, String) {
    (name.to_string(), value.to_string())
}

#[test]
fn token_route() {
    assert_eq!(
        route_request("/token/1/0xabc"),
        Route::Token { chain_id: "1".to_string(), address: "0xabc".to_string() }
    );
    assert_eq!(
        route_request("/token/137/0xABC/extra/segments"),
        Route::Token { chain_id: "137".to_string(), address: "0xABC".to_string() }
    );
    assert_eq!(route_request("token//"), Route::Token { chain_id: String::new(), address: String::new() });
    assert_eq!(
        route_request("///token/1/0xabc"),
        Route::Token { chain_id: "1".to_string(), address: "0xabc".to_string() }
    );
}

#[test]
fn other_routes() {
    assert_eq!(route_request("/clear-cache"), Route::ClearCache);
    assert_eq!(route_request("clear-cache"), Route::ClearCache);
    assert_eq!(route_request("/"), Route::Main);
    assert_eq!(route_request(""), Route::Main);
    assert_eq!(route_request("//"), Route::Main);
}

#[test]
fn paths_that_name_no_route() {
    assert_eq!(route_request("/token"), Route::NotFound);
    assert_eq!(route_request("/token/1"), Route::NotFound);
    assert_eq!(route_request("/tokens/1/0xabc"), Route::NotFound);
    assert_eq!(route_request("/Token/1/0xabc"), Route::NotFound);
    assert_eq!(route_request("/clear-cache/"), Route::NotFound);
    assert_eq!(route_request("/clear-cache/now"), Route::NotFound);
    assert_eq!(route_request("/favicon.ico"), Route::NotFound);
    assert_eq!(route_request("/a/b"), Route::NotFound);
    assert_eq!(route_request("/a/b/c"), Route::NotFound);
}

#[test]
fn routes_agree_with_reference() {
    let paths = [
        "", "/", "//", "/token", "/token/", "/token/1", "/token/1/", "/token/1/0xabc", "/token/1/0xabc/",
        "token/1/2/3/4", "/clear-cache", "/clear-cache/", "clear-cache", "/x", "/token/\u{00e9}/\u{1F600}",
        "/ token/1/2", "/token /1/2", "/a//", "///",
    ];
    for path in paths {
        assert_eq!(route_request(path), reference_route(path), "{:?}", path);
    }
}

#[test]
fn usage_reply() {
    assert_eq!(
        main_route(),
        Reply {
            status: 200,
            headers: vec![header("content-type", "text/plain")],
            body: "Usage: /token/{chain_id}/{address}".to_string(),
        }
    );
}

#[test]
fn no_route_reply() {
    assert_eq!(
        not_found_route(),
        Reply { status: 404, headers: vec![header("content-type", "text/plain")], body: "Not Found".to_string() }
    );
}

#[test]
fn cleared_reply() {
    assert_eq!(
        clear_cache_route(),
        Reply {
            status: 200,
            headers: vec![header("content-type", "text/plain"), header("cache-control", "no-store")],
            body: "Cache cleared".to_string(),
        }
    );
}

#[test]
fn failure_reply() {
    assert_eq!(
        internal_error_route(),
        Reply {
            status: 500,
            headers: vec![header("content-type", "text/plain")],
            body: "Internal Server Error".to_string(),
        }
    );
}

#[test]
fn cache_control_value() {
    assert_eq!(cache_control(3600), "public, max-age=3600");
    assert_eq!(cache_control(0), "public, max-age=0");
    assert_eq!(cache_control(u64::MAX), "public, max-age=18446744073709551615");
}

#[test]
fn redirect_reply() {
    assert_eq!(
        handle_token_route(Resolution::Redirect("https://img/a.png".to_string()), 3600),
        Reply {
            status: 302,
            headers: vec![header("location", "https://img/a.png"), header("cache-control", "public, max-age=3600")],
            body: String::new(),
        }
    );
}

#[test]
fn logo_not_found_reply() {
    let expected = Reply {
        status: 404,
        headers: vec![header("content-type", "text/plain"), header("cache-control", "public, max-age=60")],
        body: "Logo not found".to_string(),
    };
    assert_eq!(handle_token_route(Resolution::NotFound, 60), expected);
    assert_eq!(handle_token_route(Resolution::Redirect(String::new()), 60), expected);
}

#[test]
fn errors_get_the_failure_reply() {
    assert_eq!(handle_token_route(Resolution::UnsupportedChain, 60), internal_error_route());
    assert_eq!(
        handle_token_route(Resolution::UpstreamError(FetchError::RemoteUnavailable), 60),
        internal_error_route()
    );
    assert_eq!(
        handle_token_route(Resolution::UpstreamError(FetchError::MalformedPayload), 60),
        internal_error_route()
    );
}
