use libwebview::attributes::{
    serve_static, webview_attributes_add_custom_protocol, webview_attributes_add_header,
    webview_attributes_add_initial_script, webview_attributes_default, webview_attributes_set_events_handler,
    webview_attributes_set_html, webview_attributes_set_position, webview_attributes_set_size,
    webview_attributes_set_url, Bounds, Position, ProtocolRequest, Size, ViewAttributes,
};
use libwebview::boundary::{webview_take_build_attributes, webview_test};
use libwebview::error::WebViewError;
use libwebview::handle::Registry;

fn request(method: &str, uri: &str) -> ProtocolRequest {
    ProtocolRequest { method: method.to_string(), uri: uri.to_string() }
}

#[test]
fn defaults_are_empty_and_unfocused() {
    let a: ViewAttributes<()> = webview_attributes_default();
    assert!(a.url().is_none());
    assert!(a.html().is_none());
    assert!(a.headers().is_empty());
    assert!(a.custom_protocols().is_empty());
    assert_eq!(a.bounds(), None);
    assert!(a.initialization_scripts().is_empty());
    assert!(a.events_handler().is_none());
    assert!(!a.focused());
    assert!(!a.devtools());
}

#[test]
fn position_alone_gets_default_size() {
    let mut a: ViewAttributes<()> = webview_attributes_default();
    webview_attributes_set_position(&mut a, 10, 10);
    assert_eq!(
        a.bounds(),
        Some(Bounds { position: Position { x: 10, y: 10 }, size: Size { width: 200, height: 200 } })
    );
}

#[test]
fn size_alone_stands_at_origin() {
    let mut a: ViewAttributes<()> = webview_attributes_default();
    webview_attributes_set_size(&mut a, 50, 60);
    assert_eq!(
        a.bounds(),
        Some(Bounds { position: Position { x: 0, y: 0 }, size: Size { width: 50, height: 60 } })
    );
}

#[test]
fn position_and_size_combine_in_either_order() {
    let expected = Some(Bounds { position: Position { x: 10, y: 10 }, size: Size { width: 50, height: 60 } });
    let mut a: ViewAttributes<()> = webview_attributes_default();
    webview_attributes_set_position(&mut a, 10, 10);
    webview_attributes_set_size(&mut a, 50, 60);
    assert_eq!(a.bounds(), expected);
    let mut b: ViewAttributes<()> = webview_attributes_default();
    webview_attributes_set_size(&mut b, 50, 60);
    webview_attributes_set_position(&mut b, 10, 10);
    assert_eq!(b.bounds(), expected);
    webview_attributes_set_position(&mut b, -5, 3);
    assert_eq!(
        b.bounds(),
        Some(Bounds { position: Position { x: -5, y: 3 }, size: Size { width: 50, height: 60 } })
    );
}

#[test]
fn custom_protocol_serves_fixed_content_to_any_request() {
    let mut a: ViewAttributes<()> = webview_attributes_default();
    webview_attributes_add_custom_protocol(&mut a, "app", b"hello");
    for r in [request("GET", "app://index.html"), request("POST", "app://x/y?z=1"), request("PUT", "app://")] {
        let resp = a.custom_protocol_response("app", &r).unwrap();
        assert_eq!(resp.status, 200);
        assert_eq!(resp.body, b"hello".to_vec());
    }
    assert!(a.custom_protocol_response("other", &request("GET", "other://")).is_none());
}

#[test]
fn custom_protocol_registered_twice_keeps_last_content() {
    let mut a: ViewAttributes<()> = webview_attributes_default();
    webview_attributes_add_custom_protocol(&mut a, "app", b"one");
    webview_attributes_add_custom_protocol(&mut a, "app", b"two");
    assert_eq!(a.custom_protocols().len(), 1);
    assert_eq!(a.custom_protocol_response("app", &request("GET", "app://")).unwrap().body, b"two".to_vec());
}

#[test]
fn static_responder_ignores_request() {
    let resp = serve_static(&vec![1, 2, 3], &request("DELETE", "app://anything"));
    assert_eq!(resp.status, 200);
    assert_eq!(resp.body, vec![1, 2, 3]);
}

#[test]
fn empty_url_clears_and_nonempty_sets() {
    let mut a: ViewAttributes<()> = webview_attributes_default();
    webview_attributes_set_url(&mut a, "https://example.org");
    assert_eq!(a.url().map(|s| s.as_str()), Some("https://example.org"));
    webview_attributes_set_url(&mut a, "");
    assert!(a.url().is_none());
}

#[test]
fn html_is_kept_beside_url() {
    let mut a: ViewAttributes<()> = webview_attributes_default();
    webview_attributes_set_url(&mut a, "https://a");
    webview_attributes_set_html(&mut a, "<p>hi</p>");
    assert_eq!(a.html().map(|s| s.as_str()), Some("<p>hi</p>"));
    assert_eq!(a.url().map(|s| s.as_str()), Some("https://a"));
}

#[test]
fn header_name_is_stored_in_lower_case() {
    let mut a: ViewAttributes<()> = webview_attributes_default();
    assert!(webview_attributes_add_header(&mut a, "X-Custom-Token", "abc"));
    assert_eq!(a.headers(), &vec![("x-custom-token".to_string(), "abc".to_string())]);
    assert!(webview_attributes_add_header(&mut a, "x-custom-token", "def"));
    assert_eq!(a.headers(), &vec![("x-custom-token".to_string(), "def".to_string())]);
    assert!(webview_attributes_add_header(&mut a, "Accept", "text/html"));
    assert_eq!(a.headers().len(), 2);
}

#[test]
fn invalid_header_is_refused_and_changes_nothing() {
    let mut a: ViewAttributes<()> = webview_attributes_default();
    assert!(!webview_attributes_add_header(&mut a, "bad name", "v"));
    assert!(!webview_attributes_add_header(&mut a, "", "v"));
    assert!(!webview_attributes_add_header(&mut a, "ok", "line\nbreak"));
    assert!(webview_attributes_add_header(&mut a, "ok", "tab\there"));
    assert_eq!(a.headers(), &vec![("ok".to_string(), "tab\there".to_string())]);
}

#[test]
fn initial_scripts_keep_order_and_run_every_navigation() {
    let mut a: ViewAttributes<()> = webview_attributes_default();
    webview_attributes_add_initial_script(&mut a, "a()");
    webview_attributes_add_initial_script(&mut a, "b()");
    assert_eq!(a.initialization_scripts(), &vec![("a()".to_string(), true), ("b()".to_string(), true)]);
}

#[test]
fn events_handler_is_bound_with_its_id() {
    let mut a: ViewAttributes<&str> = webview_attributes_default();
    webview_attributes_set_events_handler(&mut a, "sink", 12);
    assert_eq!(a.events_handler(), Some(&("sink", 12)));
}

#[test]
fn build_takes_attributes_and_enables_devtools() {
    let mut reg: Registry<ViewAttributes<()>> = Registry::new();
    let mut a: ViewAttributes<()> = webview_attributes_default();
    webview_attributes_set_url(&mut a, "https://a");
    let h = reg.create(a);
    let taken = webview_take_build_attributes(&mut reg, h).unwrap();
    assert!(taken.devtools());
    assert_eq!(taken.url().map(|s| s.as_str()), Some("https://a"));
    assert_eq!(webview_take_build_attributes(&mut reg, h).err(), Some(WebViewError::UseAfterRelease));
}

#[test]
fn library_answers_probe() {
    assert!(webview_test());
}
