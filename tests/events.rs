use libwebview::boundary::{webview_event_into_inner, webview_events_handler_new, webview_events_handler_pop_event, EventParts};
use libwebview::error::WebViewError;
use libwebview::events::{
    webview_event_get_type, webview_navigation_event_get_id, webview_navigation_event_get_url,
    webview_page_load_event_get_id, webview_page_load_event_get_url, webview_page_load_event_is_started,
    webview_request_event_get_content, webview_request_event_get_id, EventsHandler, PageLoadPhase,
    WebViewEvent, WebViewEventType,
};
use libwebview::handle::Registry;
use libwebview::ipc::{webview_ipc_handler_new, webview_ipc_handler_request_get_body, IpcRequest};
use libwebview::queue::{SignalQueue, Wake};
use string_box::StringBox;

#[test]
fn enqueue_returns_wake_for_its_semaphore() {
    let mut q = EventsHandler::new(4);
    let w = q.enqueue_got_focus(1);
    assert_eq!(w, Wake { semaphore_index: 4 });
    assert_eq!(q.len(), 1);
    let w = q.enqueue_request(2, "hi".to_string());
    assert_eq!(w.semaphore_index, 4);
}

#[test]
fn pop_on_empty_returns_none() {
    let mut q = EventsHandler::new(0);
    assert!(q.pop_event().is_none());
}

#[test]
fn events_come_out_in_enqueue_order() {
    let mut q = EventsHandler::new(0);
    q.enqueue_request(1, "a".to_string());
    q.enqueue_navigation(2, "https://x".to_string());
    q.enqueue_page_load(1, PageLoadPhase::Started, "https://y".to_string());
    q.enqueue_lost_focus(3);
    let types: Vec<WebViewEventType> = std::iter::from_fn(|| q.pop_event()).map(|e| e.get_type()).collect();
    assert_eq!(
        types,
        vec![WebViewEventType::Request, WebViewEventType::Navigation, WebViewEventType::PageLoad, WebViewEventType::LostFocus]
    );
    assert!(q.pop_event().is_none());
}

#[test]
fn interleaved_producers_keep_their_own_order() {
    let mut q: SignalQueue<(u8, u32)> = SignalQueue::new(0);
    for i in 0..5u32 {
        q.enqueue((b'a', i));
        q.enqueue((b'b', i));
    }
    let out = q.drain();
    assert_eq!(out.len(), 10);
    let a: Vec<u32> = out.iter().filter(|e| e.0 == b'a').map(|e| e.1).collect();
    let b: Vec<u32> = out.iter().filter(|e| e.0 == b'b').map(|e| e.1).collect();
    assert_eq!(a, vec![0, 1, 2, 3, 4]);
    assert_eq!(b, vec![0, 1, 2, 3, 4]);
    assert_eq!(q.len(), 0);
}

#[test]
fn navigation_hook_always_allows() {
    let mut q = EventsHandler::new(2);
    let (allow, w) = q.handle_navigation(5, "https://example.org".to_string());
    assert!(allow);
    assert_eq!(w.semaphore_index, 2);
    assert_eq!(q.len(), 1);
}

#[test]
fn get_type_of_dead_event_is_unknown() {
    let mut events: Registry<WebViewEvent> = Registry::new();
    let mut q = webview_events_handler_new(0);
    q.enqueue_got_focus(1);
    let h = webview_events_handler_pop_event(&mut q, &mut events).unwrap();
    assert_eq!(webview_event_get_type(events.get(h)), WebViewEventType::GotFocus);
    events.release(h).unwrap();
    assert_eq!(webview_event_get_type(events.get(h)), WebViewEventType::Unknown);
}

#[test]
fn pop_event_from_empty_queue_gives_no_handle() {
    let mut events: Registry<WebViewEvent> = Registry::new();
    let mut q = webview_events_handler_new(0);
    assert_eq!(webview_events_handler_pop_event(&mut q, &mut events), None);
}

#[test]
fn navigation_event_fields_reach_the_host() {
    let mut events: Registry<WebViewEvent> = Registry::new();
    let mut parts = EventParts::new();
    let mut q = webview_events_handler_new(0);
    q.enqueue_navigation(42, "https://example.org/a".to_string());
    let h = webview_events_handler_pop_event(&mut q, &mut events).unwrap();
    let (t, inner) = webview_event_into_inner(&mut events, &mut parts, h).unwrap();
    assert_eq!(t, WebViewEventType::Navigation);
    assert!(events.get(h).is_err());
    assert_eq!(webview_navigation_event_get_id(parts.navigations.get(inner)), 42);
    let mut url = StringBox::new();
    assert!(webview_navigation_event_get_url(parts.navigations.get(inner), &mut url));
    assert_eq!(url.as_str(), "https://example.org/a");
    parts.navigations.release(inner).unwrap();
    assert_eq!(webview_navigation_event_get_id(parts.navigations.get(inner)), 0);
    let mut untouched = StringBox::from_string("keep".to_string());
    assert!(!webview_navigation_event_get_url(parts.navigations.get(inner), &mut untouched));
    assert_eq!(untouched.as_str(), "keep");
}

#[test]
fn request_and_page_load_fields_reach_the_host() {
    let mut events: Registry<WebViewEvent> = Registry::new();
    let mut parts = EventParts::new();
    let mut q = webview_events_handler_new(0);
    q.enqueue_request(7, "{\"k\":1}".to_string());
    q.enqueue_page_load(8, PageLoadPhase::Finished, "https://done".to_string());
    q.enqueue_page_load(8, PageLoadPhase::Started, "https://start".to_string());

    let h = webview_events_handler_pop_event(&mut q, &mut events).unwrap();
    let (t, r) = webview_event_into_inner(&mut events, &mut parts, h).unwrap();
    assert_eq!(t, WebViewEventType::Request);
    assert_eq!(webview_request_event_get_id(parts.requests.get(r)), 7);
    let mut content = StringBox::new();
    assert!(webview_request_event_get_content(parts.requests.get(r), &mut content));
    assert_eq!(content.as_str(), "{\"k\":1}");

    let h = webview_events_handler_pop_event(&mut q, &mut events).unwrap();
    let (t, p) = webview_event_into_inner(&mut events, &mut parts, h).unwrap();
    assert_eq!(t, WebViewEventType::PageLoad);
    assert_eq!(webview_page_load_event_get_id(parts.page_loads.get(p)), 8);
    assert_eq!(webview_page_load_event_is_started(parts.page_loads.get(p)), 2);
    let mut url = StringBox::new();
    assert!(webview_page_load_event_get_url(parts.page_loads.get(p), &mut url));
    assert_eq!(url.as_str(), "https://done");

    let h = webview_events_handler_pop_event(&mut q, &mut events).unwrap();
    let (_, started) = webview_event_into_inner(&mut events, &mut parts, h).unwrap();
    assert_eq!(webview_page_load_event_is_started(parts.page_loads.get(started)), 1);
    parts.page_loads.release(started).unwrap();
    assert_eq!(webview_page_load_event_is_started(parts.page_loads.get(started)), 0);
}

#[test]
fn into_inner_on_dead_event_fails() {
    let mut events: Registry<WebViewEvent> = Registry::new();
    let mut parts = EventParts::new();
    let mut q = webview_events_handler_new(0);
    q.enqueue_lost_focus(1);
    let h = webview_events_handler_pop_event(&mut q, &mut events).unwrap();
    assert!(webview_event_into_inner(&mut events, &mut parts, h).is_ok());
    assert_eq!(webview_event_into_inner(&mut events, &mut parts, h).err(), Some(WebViewError::UseAfterRelease));
}

#[test]
fn ipc_messages_keep_order_and_wake() {
    let mut ipc = webview_ipc_handler_new(3);
    assert_eq!(ipc.enqueue(IpcRequest::new("one".to_string())).semaphore_index, 3);
    ipc.enqueue(IpcRequest::new("two".to_string()));
    let first = ipc.pop().unwrap();
    assert_eq!(first.body(), "one");
    let mut body = StringBox::new();
    assert!(webview_ipc_handler_request_get_body(Ok(&first), &mut body));
    assert_eq!(body.as_str(), "one");
    assert_eq!(ipc.pop().unwrap().body(), "two");
    assert!(ipc.pop().is_none());
    let mut untouched = StringBox::from_string("x".to_string());
    assert!(!webview_ipc_handler_request_get_body(Err(WebViewError::UseAfterRelease), &mut untouched));
    assert_eq!(untouched.as_str(), "x");
}
