use vstd::prelude::*;

use crate::attributes::{AttributesModel, ViewAttributes};
use crate::error::WebViewError;
use crate::events::{
    event_type_of, EventModel, EventsHandler, WebViewEvent, WebViewEventType, WebViewGotFocusEvent,
    WebViewLostFocusEvent, WebViewNavigationEvent, WebViewPageLoadEvent, WebViewRequestEvent,
};
use crate::handle::{Handle, Registry};

verus! {

/// The registries that hold events once the host has asked for their specific kind.
pub struct EventParts {
    pub requests: Registry<WebViewRequestEvent>,
    pub navigations: Registry<WebViewNavigationEvent>,
    pub page_loads: Registry<WebViewPageLoadEvent>,
    pub got_focus: Registry<WebViewGotFocusEvent>,
    pub lost_focus: Registry<WebViewLostFocusEvent>,
}

impl EventParts {
    pub open spec fn wf(&self) -> bool {
        &&& self.requests.wf()
        &&& self.navigations.wf()
        &&& self.page_loads.wf()
        &&& self.got_focus.wf()
        &&& self.lost_focus.wf()
    }

    /// The registry of kind `t` holds, under `h`, an event whose content is `m`.
    pub open spec fn holds(&self, t: WebViewEventType, h: Handle, m: EventModel) -> bool {
        match t {
            WebViewEventType::Request => self.requests@.contains_key(h)
                && WebViewEvent::Request(self.requests@[h])@ == m,
            WebViewEventType::Navigation => self.navigations@.contains_key(h)
                && WebViewEvent::Navigation(self.navigations@[h])@ == m,
            WebViewEventType::PageLoad => self.page_loads@.contains_key(h)
                && WebViewEvent::PageLoad(self.page_loads@[h])@ == m,
            WebViewEventType::GotFocus => self.got_focus@.contains_key(h)
                && WebViewEvent::GotFocus(self.got_focus@[h])@ == m,
            WebViewEventType::LostFocus => self.lost_focus@.contains_key(h)
                && WebViewEvent::LostFocus(self.lost_focus@[h])@ == m,
            WebViewEventType::Unknown => false,
        }
    }

    /// All registries but the one of kind `t` are as in `old`, and that one gained
    /// `h` and nothing else.
    pub open spec fn grew_by(&self, old: &EventParts, t: WebViewEventType, h: Handle) -> bool {
        &&& (t == WebViewEventType::Request ==> !old.requests@.contains_key(h)
                && self.requests@ == old.requests@.insert(h, self.requests@[h]))
        &&& (t != WebViewEventType::Request ==> self.requests@ == old.requests@)
        &&& (t == WebViewEventType::Navigation ==> !old.navigations@.contains_key(h)
                && self.navigations@ == old.navigations@.insert(h, self.navigations@[h]))
        &&& (t != WebViewEventType::Navigation ==> self.navigations@ == old.navigations@)
        &&& (t == WebViewEventType::PageLoad ==> !old.page_loads@.contains_key(h)
                && self.page_loads@ == old.page_loads@.insert(h, self.page_loads@[h]))
        &&& (t != WebViewEventType::PageLoad ==> self.page_loads@ == old.page_loads@)
        &&& (t == WebViewEventType::GotFocus ==> !old.got_focus@.contains_key(h)
                && self.got_focus@ == old.got_focus@.insert(h, self.got_focus@[h]))
        &&& (t != WebViewEventType::GotFocus ==> self.got_focus@ == old.got_focus@)
        &&& (t == WebViewEventType::LostFocus ==> !old.lost_focus@.contains_key(h)
                && self.lost_focus@ == old.lost_focus@.insert(h, self.lost_focus@[h]))
        &&& (t != WebViewEventType::LostFocus ==> self.lost_focus@ == old.lost_focus@)
    }

    pub fn new() -> (r: Self)
        ensures
            r.wf(),
            r.requests@ == Map::<Handle, WebViewRequestEvent>::empty(),
            r.navigations@ == Map::<Handle, WebViewNavigationEvent>::empty(),
            r.page_loads@ == Map::<Handle, WebViewPageLoadEvent>::empty(),
            r.got_focus@ == Map::<Handle, WebViewGotFocusEvent>::empty(),
            r.lost_focus@ == Map::<Handle, WebViewLostFocusEvent>::empty(),
    {
        EventParts {
            requests: Registry::new(),
            navigations: Registry::new(),
            page_loads: Registry::new(),
            got_focus: Registry::new(),
            lost_focus: Registry::new(),
        }
    }
}

/// Answers the host's probe that the library is loaded.
pub fn webview_test() -> (r: bool)
    ensures
        r,
{
    true
}

/// An empty events queue that wakes the host through `semaphore_index`.
pub fn webview_events_handler_new(semaphore_index: usize) -> (r: EventsHandler)
    ensures
        r@ == Seq::<EventModel>::empty(),
        r.semaphore() == semaphore_index,
{
    EventsHandler::new(semaphore_index)
}

/// Pops the oldest event of `handler` and hands the host a handle to it, or `None`
/// when the queue is empty.
pub fn webview_events_handler_pop_event(handler: &mut EventsHandler, events: &mut Registry<WebViewEvent>) -> (r: Option<Handle>)
    requires
        old(events).wf(),
    ensures
        final(events).wf(),
        final(events).retired() == old(events).retired(),
        r is None <==> old(handler)@.len() == 0,
        r is None ==> final(handler)@ == old(handler)@ && final(events)@ == old(events)@,
        r matches Some(h) ==> {
            &&& !old(events)@.contains_key(h)
            &&& final(events)@ == old(events)@.insert(h, final(events)@[h])
            &&& final(events)@[h]@ == old(handler)@[0]
            &&& final(handler)@ == old(handler)@.drop_first()
        },
{
    match handler.pop_event() {
        Some(e) => Some(events.create(e)),
        None => None,
    }
}

/// Consumes a live event handle and hands out a handle to the specific event in the
/// registry of its kind, with that kind. Fails with `UseAfterRelease`, changing
/// nothing, when the event handle is dead.
pub fn webview_event_into_inner(events: &mut Registry<WebViewEvent>, parts: &mut EventParts, event: Handle) -> (r: Result<(WebViewEventType, Handle), WebViewError>)
    requires
        old(events).wf(),
        old(parts).wf(),
    ensures
        final(events).wf(),
        final(parts).wf(),
        r is Ok <==> old(events)@.contains_key(event),
        r matches Ok((t, h)) ==> {
            &&& t == event_type_of(old(events)@[event]@)
            &&& final(events)@ == old(events)@.remove(event)
            &&& final(events).retired() == old(events).retired().insert(event)
            &&& final(parts).holds(t, h, old(events)@[event]@)
            &&& final(parts).grew_by(&*old(parts), t, h)
        },
        r matches Err(e) ==> {
            &&& e == WebViewError::UseAfterRelease
            &&& final(events)@ == old(events)@
            &&& final(events).retired() == old(events).retired()
            &&& *final(parts) == *old(parts)
        },
{
    match events.take(event) {
        Ok(value) => {
            let t = value.get_type();
            let h = match value {
                WebViewEvent::Request(e) => parts.requests.create(e),
                WebViewEvent::Navigation(e) => parts.navigations.create(e),
                WebViewEvent::PageLoad(e) => parts.page_loads.create(e),
                WebViewEvent::GotFocus(e) => parts.got_focus.create(e),
                WebViewEvent::LostFocus(e) => parts.lost_focus.create(e),
            };
            Ok((t, h))
        },
        Err(e) => Err(e),
    }
}

/// Takes the attributes out of their handle to build a view from them, with developer
/// tools switched on; the attributes handle is released by this. Fails with
/// `UseAfterRelease`, changing nothing, when the handle is dead.
pub fn webview_take_build_attributes<S>(attributes: &mut Registry<ViewAttributes<S>>, handle: Handle) -> (r: Result<ViewAttributes<S>, WebViewError>)
    requires
        old(attributes).wf(),
        forall|h: Handle| #[trigger] old(attributes)@.contains_key(h) ==> old(attributes)@[h].wf(),
    ensures
        final(attributes).wf(),
        r is Ok <==> old(attributes)@.contains_key(handle),
        r matches Ok(a) ==> {
            &&& a.wf()
            &&& a@ == (AttributesModel { devtools: true, ..old(attributes)@[handle]@ })
            &&& a.sink() == old(attributes)@[handle].sink()
            &&& final(attributes)@ == old(attributes)@.remove(handle)
            &&& final(attributes).retired() == old(attributes).retired().insert(handle)
        },
        r matches Err(e) ==> {
            &&& e == WebViewError::UseAfterRelease
            &&& final(attributes)@ == old(attributes)@
            &&& final(attributes).retired() == old(attributes).retired()
        },
{
    match attributes.take(handle) {
        Ok(a) => Ok(a.with_devtools()),
        Err(e) => Err(e),
    }
}

} // verus!
