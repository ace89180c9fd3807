use chaser_oxide::session::{attach_url, validate_cookie_url, version_endpoint};
use chaser_oxide::{Browser, BrowserConfig, CookieParam, Request, SessionState};

fn cookie(url: Option<&str>) -> CookieParam {
    CookieParam {
        name: "n".to_string(),
        value: "v".to_string(),
        url: url.map(|u| u.to_string()),
        domain: None,
        path: None,
    }
}

#[test]
fn malformed_cookie_url_is_rejected_before_sending() {
    let b = Browser::connected("ws://h/devtools/browser/1".to_string());
    let r = b.set_cookies(vec![cookie(Some("https://example.com")), cookie(Some("data:text/html,x"))]);
    assert_eq!(r.unwrap_err(), "Data URL page can not have cookie");
    let r = b.set_cookies(vec![cookie(Some("about:blank"))]);
    assert_eq!(r.unwrap_err(), "Blank page can not have cookie");
    match b.set_cookies(vec![cookie(None), cookie(Some("https://example.com"))]) {
        Ok(Request::SetCookies(cs)) => assert_eq!(cs.len(), 2),
        other => panic!("unexpected {:?}", other),
    }
    assert!(validate_cookie_url("http://perdu.com").is_ok());
}

#[test]
fn version_endpoint_paths() {
    assert_eq!(version_endpoint("http://localhost:9222"), Some("http://localhost:9222/json/version".to_string()));
    assert_eq!(version_endpoint("http://localhost:9222/"), Some("http://localhost:9222/json/version".to_string()));
    assert_eq!(
        version_endpoint("https://h/json/version/"),
        Some("https://h/json/version/".to_string())
    );
    assert_eq!(version_endpoint("ws://h/devtools/browser/1"), None);
}

#[test]
fn loopback_is_replaced_by_peer_address() {
    assert_eq!(
        attach_url("http://h:9222", "ws://127.0.0.1:9222/devtools/browser/x", "10.0.0.5"),
        "ws://10.0.0.5:9222/devtools/browser/x"
    );
    assert_eq!(attach_url("http://h:9222", "", "10.0.0.5"), "http://h:9222");
}

#[test]
fn incognito_context_lifecycle() {
    let mut b = Browser::connected("ws://h".to_string());
    assert!(!b.is_incognito());
    assert!(matches!(b.start_incognito_context(), Some(Request::CreateBrowserContext)));
    match b.enter_context("ctx-1".to_string()) {
        Request::TrackContext(id) => assert_eq!(id, "ctx-1"),
        other => panic!("unexpected {:?}", other),
    }
    assert!(b.is_incognito());
    assert_eq!(b.browser_context(), Some(&"ctx-1".to_string()));
    match b.new_page("about:blank", None) {
        Request::CreatePage { url, browser_context_id } => {
            assert_eq!(url, "about:blank");
            assert_eq!(browser_context_id, Some("ctx-1".to_string()));
        }
        other => panic!("unexpected {:?}", other),
    }
    let quit = b.quit_incognito_context();
    assert_eq!(quit.len(), 2);
    assert!(matches!(&quit[0], Request::DisposeBrowserContext(id) if id == "ctx-1"));
    assert!(matches!(&quit[1], Request::UntrackContext(id) if id == "ctx-1"));
    assert!(!b.is_incognito());
    assert!(b.quit_incognito_context().is_empty());
}

#[test]
fn configured_incognito_needs_no_context() {
    let c = BrowserConfig::builder().incognito().build(Ok("/bin/c".to_string())).unwrap();
    let b = Browser::launched(c, "ws://h".to_string());
    assert!(b.is_incognito());
    assert!(b.start_incognito_context().is_none());
    assert!(b.config().unwrap().incognito());
    assert_eq!(b.websocket_address(), "ws://h");
}

#[test]
fn close_moves_through_closing_to_closed() {
    let mut b = Browser::connected("ws://h".to_string());
    assert!(matches!(b.close(), Some(Request::CloseBrowser)));
    assert_eq!(b.state(), SessionState::Closing);
    assert!(b.close().is_none());
    b.closed();
    assert_eq!(b.state(), SessionState::Closed);
}

#[test]
fn drop_warns_only_for_a_running_spawned_browser() {
    let c = BrowserConfig::with_executable("/bin/c");
    let spawned = Browser::launched(c, "ws://h".to_string());
    assert!(spawned.warn_on_drop(false));
    assert!(!spawned.warn_on_drop(true));
    let attached = Browser::connected("ws://h".to_string());
    assert!(!attached.warn_on_drop(false));
}

#[test]
fn cookie_error_is_the_first_failing_one() {
    let b = Browser::connected("ws://h".to_string());
    let r = b.set_cookies(vec![
        cookie(None),
        cookie(Some("about:blank")),
        cookie(Some("data:x")),
    ]);
    assert_eq!(r.unwrap_err(), "Blank page can not have cookie");
    assert_eq!(validate_cookie_url("data:,").unwrap_err(), "Data URL page can not have cookie");
}
