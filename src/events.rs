use string_box::StringBox;
use vstd::prelude::*;

use crate::error::WebViewError;
use crate::queue::{SignalQueue, Wake};
#[allow(unused_imports)]
use crate::text_box::string_box_text;

verus! {

/// Identifies the view that raised an event; one queue may serve several views.
pub type WebViewId = u64;

/// The phase that a page-load notification reports.
#[derive(Clone, Copy, Debug, PartialEq, Eq, Structural)]
pub enum PageLoadPhase {
    Started,
    Finished,
}

/// A message that a page posted to the host.
#[derive(Debug)]
pub struct WebViewRequestEvent {
    webview_id: WebViewId,
    body: String,
}

/// The view is about to navigate to `url`.
#[derive(Debug)]
pub struct WebViewNavigationEvent {
    webview_id: WebViewId,
    url: String,
}

/// A page started or finished loading.
#[derive(Debug)]
pub struct WebViewPageLoadEvent {
    webview_id: WebViewId,
    phase: PageLoadPhase,
    url: String,
}

/// The view received the keyboard focus.
#[derive(Debug)]
pub struct WebViewGotFocusEvent {
    webview_id: WebViewId,
}

/// The view lost the keyboard focus.
#[derive(Debug)]
pub struct WebViewLostFocusEvent {
    webview_id: WebViewId,
}

/// An event raised by the engine for the host. Immutable once built.
#[derive(Debug)]
pub enum WebViewEvent {
    Request(WebViewRequestEvent),
    Navigation(WebViewNavigationEvent),
    PageLoad(WebViewPageLoadEvent),
    GotFocus(WebViewGotFocusEvent),
    LostFocus(WebViewLostFocusEvent),
}

/// The tag of an event, as the host reads it without consuming the event; `Unknown`
/// stands for an event handle that is no longer live.
#[derive(Clone, Copy, Debug, PartialEq, Eq, Structural)]
pub enum WebViewEventType {
    Unknown,
    Request,
    Navigation,
    PageLoad,
    GotFocus,
    LostFocus,
}

/// The plain content of an event.
pub enum EventModel {
    Request { webview_id: WebViewId, body: Seq<char> },
    Navigation { webview_id: WebViewId, url: Seq<char> },
    PageLoad { webview_id: WebViewId, phase: PageLoadPhase, url: Seq<char> },
    GotFocus { webview_id: WebViewId },
    LostFocus { webview_id: WebViewId },
}

pub open spec fn event_type_of(e: EventModel) -> WebViewEventType {
    match e {
        EventModel::Request { .. } => WebViewEventType::Request,
        EventModel::Navigation { .. } => WebViewEventType::Navigation,
        EventModel::PageLoad { .. } => WebViewEventType::PageLoad,
        EventModel::GotFocus { .. } => WebViewEventType::GotFocus,
        EventModel::LostFocus { .. } => WebViewEventType::LostFocus,
    }
}

/// The code by which the host tells the phases apart: 1 started, 2 finished, 0 for a
/// page-load event that is no longer live.
pub open spec fn phase_code(phase: PageLoadPhase) -> u8 {
    match phase {
        PageLoadPhase::Started => 1,
        PageLoadPhase::Finished => 2,
    }
}

impl WebViewRequestEvent {
    pub closed spec fn spec_id(&self) -> WebViewId {
        self.webview_id
    }

    pub closed spec fn spec_body(&self) -> Seq<char> {
        self.body@
    }
}

impl WebViewNavigationEvent {
    pub closed spec fn spec_id(&self) -> WebViewId {
        self.webview_id
    }

    pub closed spec fn spec_url(&self) -> Seq<char> {
        self.url@
    }
}

impl WebViewPageLoadEvent {
    pub closed spec fn spec_id(&self) -> WebViewId {
        self.webview_id
    }

    pub closed spec fn spec_phase(&self) -> PageLoadPhase {
        self.phase
    }

    pub closed spec fn spec_url(&self) -> Seq<char> {
        self.url@
    }
}

impl WebViewGotFocusEvent {
    pub closed spec fn spec_id(&self) -> WebViewId {
        self.webview_id
    }
}

impl WebViewLostFocusEvent {
    pub closed spec fn spec_id(&self) -> WebViewId {
        self.webview_id
    }
}

impl WebViewEvent {
    pub open spec fn view(&self) -> EventModel {
        match self {
            WebViewEvent::Request(e) => EventModel::Request { webview_id: e.spec_id(), body: e.spec_body() },
            WebViewEvent::Navigation(e) => EventModel::Navigation { webview_id: e.spec_id(), url: e.spec_url() },
            WebViewEvent::PageLoad(e) => EventModel::PageLoad {
                webview_id: e.spec_id(),
                phase: e.spec_phase(),
                url: e.spec_url(),
            },
            WebViewEvent::GotFocus(e) => EventModel::GotFocus { webview_id: e.spec_id() },
            WebViewEvent::LostFocus(e) => EventModel::LostFocus { webview_id: e.spec_id() },
        }
    }

    pub fn get_type(&self) -> (r: WebViewEventType)
        ensures
            r == event_type_of(self@),
    {
        match self {
            WebViewEvent::Request(_) => WebViewEventType::Request,
            WebViewEvent::Navigation(_) => WebViewEventType::Navigation,
            WebViewEvent::PageLoad(_) => WebViewEventType::PageLoad,
            WebViewEvent::GotFocus(_) => WebViewEventType::GotFocus,
            WebViewEvent::LostFocus(_) => WebViewEventType::LostFocus,
        }
    }
}

/// The event queue of one or more views, with the semaphore index through which the
/// host is woken.
pub struct EventsHandler {
    queue: SignalQueue<WebViewEvent>,
}

impl EventsHandler {
    /// The waiting events, oldest first.
    pub closed spec fn view(&self) -> Seq<EventModel> {
        self.queue@.map_values(|e: WebViewEvent| e@)
    }

    pub closed spec fn semaphore(&self) -> usize {
        self.queue.semaphore()
    }

    pub fn new(semaphore_index: usize) -> (r: Self)
        ensures
            r@ == Seq::<EventModel>::empty(),
            r.semaphore() == semaphore_index,
    {
        let r = EventsHandler { queue: SignalQueue::new(semaphore_index) };
        assert(r@ =~= Seq::<EventModel>::empty());
        r
    }

    pub fn len(&self) -> (r: usize)
        ensures
            r == self@.len(),
    {
        self.queue.len()
    }

    /// Appends `event` and returns the wake-up owed to the host for it.
    pub fn enqueue_event(&mut self, event: WebViewEvent) -> (w: Wake)
        ensures
            final(self)@ == old(self)@.push(event@),
            final(self).semaphore() == old(self).semaphore(),
            w == (Wake { semaphore_index: old(self).semaphore() }),
    {
        let ghost model = event@;
        let w = self.queue.enqueue(event);
        assert(self@ =~= old(self)@.push(model));
        w
    }

    /// Queues a message that the page posted.
    pub fn enqueue_request(&mut self, webview_id: WebViewId, body: String) -> (w: Wake)
        ensures
            final(self)@ == old(self)@.push(EventModel::Request { webview_id, body: body@ }),
            final(self).semaphore() == old(self).semaphore(),
            w == (Wake { semaphore_index: old(self).semaphore() }),
    {
        self.enqueue_event(WebViewEvent::Request(WebViewRequestEvent { webview_id, body }))
    }

    /// Queues the notice that the view navigates to `url`.
    pub fn enqueue_navigation(&mut self, webview_id: WebViewId, url: String) -> (w: Wake)
        ensures
            final(self)@ == old(self)@.push(EventModel::Navigation { webview_id, url: url@ }),
            final(self).semaphore() == old(self).semaphore(),
            w == (Wake { semaphore_index: old(self).semaphore() }),
    {
        self.enqueue_event(WebViewEvent::Navigation(WebViewNavigationEvent { webview_id, url }))
    }

    /// Queues a page-load notification.
    pub fn enqueue_page_load(&mut self, webview_id: WebViewId, phase: PageLoadPhase, url: String) -> (w: Wake)
        ensures
            final(self)@ == old(self)@.push(EventModel::PageLoad { webview_id, phase, url: url@ }),
            final(self).semaphore() == old(self).semaphore(),
            w == (Wake { semaphore_index: old(self).semaphore() }),
    {
        self.enqueue_event(WebViewEvent::PageLoad(WebViewPageLoadEvent { webview_id, phase, url }))
    }

    pub fn enqueue_got_focus(&mut self, webview_id: WebViewId) -> (w: Wake)
        ensures
            final(self)@ == old(self)@.push(EventModel::GotFocus { webview_id }),
            final(self).semaphore() == old(self).semaphore(),
            w == (Wake { semaphore_index: old(self).semaphore() }),
    {
        self.enqueue_event(WebViewEvent::GotFocus(WebViewGotFocusEvent { webview_id }))
    }

    pub fn enqueue_lost_focus(&mut self, webview_id: WebViewId) -> (w: Wake)
        ensures
            final(self)@ == old(self)@.push(EventModel::LostFocus { webview_id }),
            final(self).semaphore() == old(self).semaphore(),
            w == (Wake { semaphore_index: old(self).semaphore() }),
    {
        self.enqueue_event(WebViewEvent::LostFocus(WebViewLostFocusEvent { webview_id }))
    }

    /// What the navigation hook does: it queues the navigation and always lets it
    /// proceed (the first result is `true`).
    pub fn handle_navigation(&mut self, webview_id: WebViewId, url: String) -> (r: (bool, Wake))
        ensures
            r.0,
            final(self)@ == old(self)@.push(EventModel::Navigation { webview_id, url: url@ }),
            final(self).semaphore() == old(self).semaphore(),
            r.1 == (Wake { semaphore_index: old(self).semaphore() }),
    {
        let w = self.enqueue_navigation(webview_id, url);
        (true, w)
    }

    /// Removes and returns the oldest event, or `None` at once when there is none.
    pub fn pop_event(&mut self) -> (r: Option<WebViewEvent>)
        ensures
            final(self).semaphore() == old(self).semaphore(),
            r matches Some(e) ==> {
                &&& old(self)@.len() > 0
                &&& e@ == old(self)@[0]
                &&& final(self)@ == old(self)@.drop_first()
            },
            r is None ==> {
                &&& old(self)@.len() == 0
                &&& final(self)@ == old(self)@
            },
    {
        let r = self.queue.pop();
        if r.is_some() {
            assert(self@ =~= old(self)@.drop_first());
        }
        r
    }
}

/// The tag of a live event, or `Unknown` when its handle is dead.
pub fn webview_event_get_type(event: Result<&WebViewEvent, WebViewError>) -> (r: WebViewEventType)
    ensures
        r == match event {
            Ok(e) => event_type_of(e@),
            Err(_) => WebViewEventType::Unknown,
        },
{
    match event {
        Ok(e) => e.get_type(),
        Err(_) => WebViewEventType::Unknown,
    }
}

/// Writes the navigation target into `url`; `false`, with `url` untouched, when the
/// event's handle is dead.
pub fn webview_navigation_event_get_url(
    event: Result<&WebViewNavigationEvent, WebViewError>,
    url: &mut StringBox,
) -> (r: bool)
    ensures
        r == event is Ok,
        event matches Ok(e) ==> string_box_text(*final(url)) == e.spec_url(),
        event is Err ==> *final(url) == *old(url),
{
    match event {
        Ok(e) => {
            url.set_string(e.url.clone());
            true
        },
        Err(_) => false,
    }
}

/// The view id of a navigation event, or 0 when its handle is dead.
pub fn webview_navigation_event_get_id(event: Result<&WebViewNavigationEvent, WebViewError>) -> (r: WebViewId)
    ensures
        r == match event {
            Ok(e) => e.spec_id(),
            Err(_) => 0,
        },
{
    match event {
        Ok(e) => e.webview_id,
        Err(_) => 0,
    }
}

/// Writes the posted message into `content`; `false`, with `content` untouched, when
/// the event's handle is dead.
pub fn webview_request_event_get_content(
    event: Result<&WebViewRequestEvent, WebViewError>,
    content: &mut StringBox,
) -> (r: bool)
    ensures
        r == event is Ok,
        event matches Ok(e) ==> string_box_text(*final(content)) == e.spec_body(),
        event is Err ==> *final(content) == *old(content),
{
    match event {
        Ok(e) => {
            content.set_string(e.body.clone());
            true
        },
        Err(_) => false,
    }
}

/// The view id of a request event, or 0 when its handle is dead.
pub fn webview_request_event_get_id(event: Result<&WebViewRequestEvent, WebViewError>) -> (r: WebViewId)
    ensures
        r == match event {
            Ok(e) => e.spec_id(),
            Err(_) => 0,
        },
{
    match event {
        Ok(e) => e.webview_id,
        Err(_) => 0,
    }
}

/// Writes the loaded page's url into `url`; `false`, with `url` untouched, when the
/// event's handle is dead.
pub fn webview_page_load_event_get_url(
    event: Result<&WebViewPageLoadEvent, WebViewError>,
    url: &mut StringBox,
) -> (r: bool)
    ensures
        r == event is Ok,
        event matches Ok(e) ==> string_box_text(*final(url)) == e.spec_url(),
        event is Err ==> *final(url) == *old(url),
{
    match event {
        Ok(e) => {
            url.set_string(e.url.clone());
            true
        },
        Err(_) => false,
    }
}

/// The view id of a page-load event, or 0 when its handle is dead.
pub fn webview_page_load_event_get_id(event: Result<&WebViewPageLoadEvent, WebViewError>) -> (r: WebViewId)
    ensures
        r == match event {
            Ok(e) => e.spec_id(),
            Err(_) => 0,
        },
{
    match event {
        Ok(e) => e.webview_id,
        Err(_) => 0,
    }
}

/// 1 when the page started loading, 2 when it finished, 0 when the handle is dead.
pub fn webview_page_load_event_is_started(event: Result<&WebViewPageLoadEvent, WebViewError>) -> (r: u8)
    ensures
        r == match event {
            Ok(e) => phase_code(e.spec_phase()),
            Err(_) => 0,
        },
{
    match event {
        Ok(e) => match e.phase {
            PageLoadPhase::Started => 1,
            PageLoadPhase::Finished => 2,
        },
        Err(_) => 0,
    }
}

} // verus!
