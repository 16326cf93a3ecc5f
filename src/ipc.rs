use string_box::StringBox;
use vstd::prelude::*;

use crate::error::WebViewError;
use crate::queue::{SignalQueue, Wake};
#[allow(unused_imports)]
use crate::text_box::string_box_text;

verus! {

/// A message that a page posted, kept for the host.
#[derive(Debug)]
pub struct IpcRequest {
    body: String,
}

impl IpcRequest {
    pub closed spec fn spec_body(&self) -> Seq<char> {
        self.body@
    }

    pub fn new(body: String) -> (r: Self)
        ensures
            r.spec_body() == body@,
    {
        IpcRequest { body }
    }

    pub fn body(&self) -> (r: &str)
        ensures
            r@ == self.spec_body(),
    {
        self.body.as_str()
    }
}

/// A queue of posted messages that wakes the host on each arrival.
pub struct IpcHandler {
    queue: SignalQueue<IpcRequest>,
}

impl IpcHandler {
    /// The bodies of the waiting messages, oldest first.
    pub closed spec fn view(&self) -> Seq<Seq<char>> {
        self.queue@.map_values(|r: IpcRequest| r.spec_body())
    }

    pub closed spec fn semaphore(&self) -> usize {
        self.queue.semaphore()
    }

    /// Appends `request` and returns the wake-up owed to the host for it.
    pub fn enqueue(&mut self, request: IpcRequest) -> (w: Wake)
        ensures
            final(self)@ == old(self)@.push(request.spec_body()),
            final(self).semaphore() == old(self).semaphore(),
            w == (Wake { semaphore_index: old(self).semaphore() }),
    {
        let ghost body = request.spec_body();
        let w = self.queue.enqueue(request);
        assert(self@ =~= old(self)@.push(body));
        w
    }

    /// Removes and returns the oldest message, or `None` at once when there is none.
    pub fn pop(&mut self) -> (r: Option<IpcRequest>)
        ensures
            final(self).semaphore() == old(self).semaphore(),
            r matches Some(m) ==> {
                &&& old(self)@.len() > 0
                &&& m.spec_body() == old(self)@[0]
                &&& final(self)@ == old(self)@.drop_first()
            },
            r is None ==> {
                &&& old(self)@.len() == 0
                &&& final(self)@ == old(self)@
            },
    {
        let r = self.queue.pop();
        if r.is_some() {
            assert(self@ =~= old(self)@.drop_first());
        }
        r
    }
}

/// An empty message queue that wakes the host through `semaphore_index`.
pub fn webview_ipc_handler_new(semaphore_index: usize) -> (r: IpcHandler)
    ensures
        r@ == Seq::<Seq<char>>::empty(),
        r.semaphore() == semaphore_index,
{
    let r = IpcHandler { queue: SignalQueue::new(semaphore_index) };
    assert(r@ =~= Seq::<Seq<char>>::empty());
    r
}

/// Writes a live message's body into `body`; `false`, with `body` untouched, when the
/// message's handle is dead.
pub fn webview_ipc_handler_request_get_body(request: Result<&IpcRequest, WebViewError>, body: &mut StringBox) -> (r: bool)
    ensures
        r == request is Ok,
        request matches Ok(m) ==> string_box_text(*final(body)) == m.spec_body(),
        request is Err ==> *final(body) == *old(body),
{
    match request {
        Ok(m) => {
            body.set_string(m.body.clone());
            true
        },
        Err(_) => false,
    }
}

} // verus!
