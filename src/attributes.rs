use vstd::prelude::*;

use crate::entries::NamedEntries;
use crate::events::WebViewId;
use crate::headers::{canonical_header_name, header_value_accepted};
#[allow(unused_imports)]
use crate::headers::{ascii_lowercase, is_header_name, is_header_value};

verus! {

/// The width a view gets when only its position was given.
pub const DEFAULT_WIDTH: u32 = 200;

/// The height counterpart of `DEFAULT_WIDTH`.
pub const DEFAULT_HEIGHT: u32 = 200;

/// A point in logical pixels.
#[derive(Clone, Copy, Debug, PartialEq, Eq, Structural)]
pub struct Position {
    pub x: i32,
    pub y: i32,
}

/// A width and a height in logical pixels.
#[derive(Clone, Copy, Debug, PartialEq, Eq, Structural)]
pub struct Size {
    pub width: u32,
    pub height: u32,
}

/// Where a view stands inside its parent window.
#[derive(Clone, Copy, Debug, PartialEq, Eq, Structural)]
pub struct Bounds {
    pub position: Position,
    pub size: Size,
}

/// A request made to a custom protocol.
#[derive(Debug)]
pub struct ProtocolRequest {
    pub method: String,
    pub uri: String,
}

/// What a custom protocol answers.
#[derive(Debug)]
pub struct ProtocolResponse {
    pub status: u16,
    pub body: Vec<u8>,
}

/// The HTTP status of a successful answer.
pub const STATUS_OK: u16 = 200;

/// The plain content of an attribute set.
pub struct AttributesModel {
    pub url: Option<Seq<char>>,
    pub html: Option<Seq<char>>,
    pub headers: Map<Seq<char>, Seq<char>>,
    pub protocols: Map<Seq<char>, Seq<u8>>,
    pub bounds: Option<Bounds>,
    pub scripts: Seq<(Seq<char>, bool)>,
    pub events_channel: Option<WebViewId>,
    pub focused: bool,
    pub devtools: bool,
}

/// What a view is built from. `S` is the events sink that the view's callbacks feed; it
/// is owned here, so the sink lives at least as long as the attributes.
pub struct ViewAttributes<S> {
    url: Option<String>,
    html: Option<String>,
    headers: NamedEntries<String>,
    custom_protocols: NamedEntries<Vec<u8>>,
    bounds: Option<Bounds>,
    initialization_scripts: Vec<(String, bool)>,
    events: Option<(S, WebViewId)>,
    focused: bool,
    devtools: bool,
}

/// The bounds after `set_position`: the position replaced, or a default size added.
pub open spec fn bounds_with_position(b: Option<Bounds>, p: Position) -> Bounds {
    match b {
        Some(b) => Bounds { position: p, size: b.size },
        None => Bounds { position: p, size: Size { width: DEFAULT_WIDTH, height: DEFAULT_HEIGHT } },
    }
}

/// The bounds after `set_size`: the size replaced, or the origin added.
pub open spec fn bounds_with_size(b: Option<Bounds>, s: Size) -> Bounds {
    match b {
        Some(b) => Bounds { position: b.position, size: s },
        None => Bounds { position: Position { x: 0, y: 0 }, size: s },
    }
}

/// The url that a view is given: an empty string means none.
pub open spec fn url_setting(url: Seq<char>) -> Option<Seq<char>> {
    if url.len() > 0 {
        Some(url)
    } else {
        None
    }
}

/// What a custom protocol registered in `m` answers to any request: 200 with the
/// registered content, whatever the request asked for.
pub open spec fn protocol_answer(m: AttributesModel, protocol: Seq<char>, request: ProtocolRequest) -> Option<(u16, Seq<u8>)> {
    if m.protocols.contains_key(protocol) {
        Some((STATUS_OK, m.protocols[protocol]))
    } else {
        None
    }
}

/// A static responder answers every request on its protocol with 200 and the
/// content it was registered with, whatever the request's method or path.
pub proof fn lemma_protocol_serves_registered_content(
    before: AttributesModel,
    after: AttributesModel,
    protocol: Seq<char>,
    content: Seq<u8>,
    request: ProtocolRequest,
)
    requires
        after.protocols == before.protocols.insert(protocol, content),
    ensures
        protocol_answer(after, protocol, request) == Some((STATUS_OK, content)),
{
}

impl<S> ViewAttributes<S> {
    pub closed spec fn view(&self) -> AttributesModel {
        AttributesModel {
            url: match self.url {
                Some(u) => Some(u@),
                None => None,
            },
            html: match self.html {
                Some(h) => Some(h@),
                None => None,
            },
            headers: self.headers@,
            protocols: self.custom_protocols@,
            bounds: self.bounds,
            scripts: self.initialization_scripts@.map_values(|e: (String, bool)| (e.0@, e.1)),
            events_channel: match self.events {
                Some(e) => Some(e.1),
                None => None,
            },
            focused: self.focused,
            devtools: self.devtools,
        }
    }

    /// The events sink that the callbacks feed, if one was set.
    pub closed spec fn sink(&self) -> Option<S> {
        match self.events {
            Some(e) => Some(e.0),
            None => None,
        }
    }

    pub closed spec fn wf(&self) -> bool {
        self.headers.wf() && self.custom_protocols.wf()
    }

    /// The answer of the custom protocol `protocol` to `request`, or `None` when no
    /// such protocol was registered.
    pub fn custom_protocol_response(&self, protocol: &str, request: &ProtocolRequest) -> (r: Option<ProtocolResponse>)
        requires
            self.wf(),
        ensures
            protocol_answer(self@, protocol@, *request) == match r {
                Some(resp) => Some((resp.status, resp.body@)),
                None => None,
            },
    {
        match self.custom_protocols.get(protocol) {
            Some(content) => Some(serve_static(content, request)),
            None => None,
        }
    }

    /// The same attributes, with developer tools switched on, as views are built.
    pub fn with_devtools(self) -> (r: Self)
        requires
            self.wf(),
        ensures
            r.wf(),
            r@ == (AttributesModel { devtools: true, ..self@ }),
            r.sink() == self.sink(),
    {
        let mut r = self;
        r.devtools = true;
        r
    }

    pub fn url(&self) -> (r: Option<&String>)
        ensures
            match r {
                Some(u) => self@.url == Some(u@),
                None => self@.url is None,
            },
    {
        self.url.as_ref()
    }

    pub fn html(&self) -> (r: Option<&String>)
        ensures
            match r {
                Some(h) => self@.html == Some(h@),
                None => self@.html is None,
            },
    {
        self.html.as_ref()
    }

    /// The headers, each name once, in lower case.
    pub fn headers(&self) -> (r: &Vec<(String, String)>)
        requires
            self.wf(),
        ensures
            forall|i: int|
                0 <= i < r@.len() ==> {
                    &&& self@.headers.contains_key(#[trigger] r@[i].0@)
                    &&& self@.headers[r@[i].0@] == r@[i].1@
                },
            forall|k: Seq<char>|
                #[trigger] self@.headers.contains_key(k) ==> exists|i: int| 0 <= i < r@.len() && #[trigger] r@[i].0@ == k,
    {
        self.headers.entries()
    }

    /// The custom protocols with their contents, each name once.
    pub fn custom_protocols(&self) -> (r: &Vec<(String, Vec<u8>)>)
        requires
            self.wf(),
        ensures
            forall|i: int|
                0 <= i < r@.len() ==> {
                    &&& self@.protocols.contains_key(#[trigger] r@[i].0@)
                    &&& self@.protocols[r@[i].0@] == r@[i].1@
                },
            forall|k: Seq<char>|
                #[trigger] self@.protocols.contains_key(k) ==> exists|i: int| 0 <= i < r@.len() && #[trigger] r@[i].0@ == k,
    {
        self.custom_protocols.entries()
    }

    pub fn bounds(&self) -> (r: Option<Bounds>)
        ensures
            r == self@.bounds,
    {
        self.bounds
    }

    /// The initialization scripts in the order they were added, each with whether it
    /// runs on every navigation.
    pub fn initialization_scripts(&self) -> (r: &Vec<(String, bool)>)
        ensures
            r@.map_values(|e: (String, bool)| (e.0@, e.1)) == self@.scripts,
    {
        &self.initialization_scripts
    }

    /// The events sink and the view id its events are tagged with, if set.
    pub fn events_handler(&self) -> (r: Option<&(S, WebViewId)>)
        ensures
            match r {
                Some(e) => self.sink() == Some(e.0) && self@.events_channel == Some(e.1),
                None => self.sink() is None && self@.events_channel is None,
            },
    {
        self.events.as_ref()
    }

    pub fn focused(&self) -> (r: bool)
        ensures
            r == self@.focused,
    {
        self.focused
    }

    pub fn devtools(&self) -> (r: bool)
        ensures
            r == self@.devtools,
    {
        self.devtools
    }
}

/// The answer of a static responder: status 200 and its content, whatever the request.
pub fn serve_static(content: &Vec<u8>, _request: &ProtocolRequest) -> (r: ProtocolResponse)
    ensures
        r.status == STATUS_OK,
        r.body@ == content@,
{
    ProtocolResponse { status: STATUS_OK, body: content.clone() }
}

/// Fresh attributes: nothing set, the view not focused and without developer tools.
pub fn webview_attributes_default<S>() -> (r: ViewAttributes<S>)
    ensures
        r.wf(),
        r@.url is None,
        r@.html is None,
        r@.headers == Map::<Seq<char>, Seq<char>>::empty(),
        r@.protocols == Map::<Seq<char>, Seq<u8>>::empty(),
        r@.bounds is None,
        r@.scripts == Seq::<(Seq<char>, bool)>::empty(),
        r@.events_channel is None,
        r.sink() is None,
        !r@.focused,
        !r@.devtools,
{
    let r = ViewAttributes {
        url: None,
        html: None,
        headers: NamedEntries::new(),
        custom_protocols: NamedEntries::new(),
        bounds: None,
        initialization_scripts: Vec::new(),
        events: None,
        focused: false,
        devtools: false,
    };
    assert(r@.scripts =~= Seq::<(Seq<char>, bool)>::empty());
    r
}

/// Sets the url the view opens; an empty string clears it.
pub fn webview_attributes_set_url<S>(attributes: &mut ViewAttributes<S>, url: &str)
    requires
        old(attributes).wf(),
    ensures
        final(attributes).wf(),
        final(attributes)@ == (AttributesModel { url: url_setting(url@), ..old(attributes)@ }),
        final(attributes).sink() == old(attributes).sink(),
{
    if url.is_empty() {
        attributes.url = None;
    } else {
        attributes.url = Some(url.to_owned());
    }
}

/// Sets the document the view shows when it has no url.
pub fn webview_attributes_set_html<S>(attributes: &mut ViewAttributes<S>, html: &str)
    requires
        old(attributes).wf(),
    ensures
        final(attributes).wf(),
        final(attributes)@ == (AttributesModel { html: Some(html@), ..old(attributes)@ }),
        final(attributes).sink() == old(attributes).sink(),
{
    attributes.html = Some(html.to_owned());
}

/// Adds a header to the view's requests, replacing one of the same name. Returns
/// `false`, and changes nothing, when the name or the value is not valid.
pub fn webview_attributes_add_header<S>(attributes: &mut ViewAttributes<S>, header_name: &str, header_value: &str) -> (r: bool)
    requires
        old(attributes).wf(),
    ensures
        final(attributes).wf(),
        r == (is_header_name(header_name@) && is_header_value(header_value@)),
        r ==> final(attributes)@ == (AttributesModel {
            headers: old(attributes)@.headers.insert(ascii_lowercase(header_name@), header_value@),
            ..old(attributes)@
        }),
        !r ==> final(attributes)@ == old(attributes)@,
        final(attributes).sink() == old(attributes).sink(),
{
    match canonical_header_name(header_name) {
        Some(name) => {
            if header_value_accepted(header_value) {
                attributes.headers.insert(name, header_value.to_owned());
                true
            } else {
                false
            }
        },
        None => false,
    }
}

/// Registers a static responder: every request on `protocol_name` is answered with
/// status 200 and `content`. A second registration of the name replaces the first.
pub fn webview_attributes_add_custom_protocol<S>(attributes: &mut ViewAttributes<S>, protocol_name: &str, content: &[u8])
    requires
        old(attributes).wf(),
    ensures
        final(attributes).wf(),
        final(attributes)@ == (AttributesModel {
            protocols: old(attributes)@.protocols.insert(protocol_name@, content@),
            ..old(attributes)@
        }),
        final(attributes).sink() == old(attributes).sink(),
{
    attributes.custom_protocols.insert(protocol_name.to_owned(), vstd::slice::slice_to_vec(content));
}

/// Feeds the view's callbacks into `events_handler`, tagged with `webview_id`.
pub fn webview_attributes_set_events_handler<S>(attributes: &mut ViewAttributes<S>, events_handler: S, webview_id: WebViewId)
    requires
        old(attributes).wf(),
    ensures
        final(attributes).wf(),
        final(attributes)@ == (AttributesModel { events_channel: Some(webview_id), ..old(attributes)@ }),
        final(attributes).sink() == Some(events_handler),
{
    attributes.events = Some((events_handler, webview_id));
}

/// Moves the view; when no bounds were set yet, the size is the default one.
pub fn webview_attributes_set_position<S>(attributes: &mut ViewAttributes<S>, x: i32, y: i32)
    requires
        old(attributes).wf(),
    ensures
        final(attributes).wf(),
        final(attributes)@ == (AttributesModel {
            bounds: Some(bounds_with_position(old(attributes)@.bounds, Position { x, y })),
            ..old(attributes)@
        }),
        final(attributes).sink() == old(attributes).sink(),
{
    let position = Position { x, y };
    attributes.bounds = match attributes.bounds {
        Some(b) => Some(Bounds { position, size: b.size }),
        None => Some(Bounds { position, size: Size { width: DEFAULT_WIDTH, height: DEFAULT_HEIGHT } }),
    };
}

/// Resizes the view; when no bounds were set yet, it stands at the origin.
pub fn webview_attributes_set_size<S>(attributes: &mut ViewAttributes<S>, width: u32, height: u32)
    requires
        old(attributes).wf(),
    ensures
        final(attributes).wf(),
        final(attributes)@ == (AttributesModel {
            bounds: Some(bounds_with_size(old(attributes)@.bounds, Size { width, height })),
            ..old(attributes)@
        }),
        final(attributes).sink() == old(attributes).sink(),
{
    let size = Size { width, height };
    attributes.bounds = match attributes.bounds {
        Some(b) => Some(Bounds { position: b.position, size }),
        None => Some(Bounds { position: Position { x: 0, y: 0 }, size }),
    };
}

/// Adds a script that runs on every navigation, after the ones added before.
pub fn webview_attributes_add_initial_script<S>(attributes: &mut ViewAttributes<S>, script: &str)
    requires
        old(attributes).wf(),
    ensures
        final(attributes).wf(),
        final(attributes)@ == (AttributesModel {
            scripts: old(attributes)@.scripts.push((script@, true)),
            ..old(attributes)@
        }),
        final(attributes).sink() == old(attributes).sink(),
{
    attributes.initialization_scripts.push((script.to_owned(), true));
    assert(attributes@.scripts =~= old(attributes)@.scripts.push((script@, true)));
}

} // verus!
