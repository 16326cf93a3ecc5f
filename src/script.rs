use string_box::StringBox;
use vstd::prelude::*;

use crate::error::WebViewError;
use crate::queue::Wake;
#[allow(unused_imports)]
use crate::text_box::string_box_text;

verus! {

/// Where a script evaluation stands. `Released` is never a ticket's own state: it is
/// what a query reports for a ticket handle that no longer exists.
#[derive(Clone, Copy, Debug, PartialEq, Eq, Structural)]
pub enum ScriptEvaluationState {
    Pending,
    Finished,
    Errored,
    Released,
}

/// A one-shot ticket that ties a script to the result of its asynchronous evaluation.
/// The script never changes; the result moves from `Pending` to `Finished` or
/// `Errored` once, and stays there.
#[derive(Debug)]
pub struct ScriptToEvaluate {
    script: String,
    value: String,
    state: ScriptEvaluationState,
    semaphore_index: usize,
}

/// A snapshot of a ticket's result cell.
pub struct TicketModel {
    pub value: Seq<char>,
    pub state: ScriptEvaluationState,
}

/// A write into a ticket's result cell: a value, or an error message.
pub enum TicketWrite {
    Value(Seq<char>),
    Error(Seq<char>),
}

/// The result cell after `w`: the first terminal write is taken, later ones change nothing.
pub open spec fn after_write(t: TicketModel, w: TicketWrite) -> TicketModel {
    if t.state == ScriptEvaluationState::Pending {
        match w {
            TicketWrite::Value(v) => TicketModel { value: v, state: ScriptEvaluationState::Finished },
            TicketWrite::Error(e) => TicketModel { value: e, state: ScriptEvaluationState::Errored },
        }
    } else {
        t
    }
}

/// The result cell after the writes `ws`, in order.
pub open spec fn after_writes(t: TicketModel, ws: Seq<TicketWrite>) -> TicketModel
    decreases ws.len(),
{
    if ws.len() == 0 {
        t
    } else {
        after_writes(after_write(t, ws[0]), ws.drop_first())
    }
}

/// Only the first terminal write counts: once a pending ticket has taken `first`, any
/// further writes leave its result as `first` made it, so repeated reads agree.
pub proof fn lemma_first_write_wins(t: TicketModel, first: TicketWrite, later: Seq<TicketWrite>)
    requires
        t.state == ScriptEvaluationState::Pending,
    ensures
        after_write(t, first).state != ScriptEvaluationState::Pending,
        after_writes(after_write(t, first), later) == after_write(t, first),
    decreases later.len(),
{
    if later.len() > 0 {
        lemma_settled_stays(after_write(t, first), later);
    }
}

proof fn lemma_settled_stays(t: TicketModel, ws: Seq<TicketWrite>)
    requires
        t.state != ScriptEvaluationState::Pending,
    ensures
        after_writes(t, ws) == t,
    decreases ws.len(),
{
    if ws.len() > 0 {
        lemma_settled_stays(after_write(t, ws[0]), ws.drop_first());
    }
}

impl ScriptToEvaluate {
    pub closed spec fn spec_script(&self) -> Seq<char> {
        self.script@
    }

    pub closed spec fn semaphore(&self) -> usize {
        self.semaphore_index
    }

    /// The ticket's result cell.
    pub closed spec fn view(&self) -> TicketModel {
        TicketModel { value: self.value@, state: self.state }
    }

    pub closed spec fn wf(&self) -> bool {
        self.state != ScriptEvaluationState::Released
    }

    /// A pending ticket for `script`, waking the host through `semaphore_index`.
    pub fn new(script: String, semaphore_index: usize) -> (r: Self)
        ensures
            r.wf(),
            r.spec_script() == script@,
            r.semaphore() == semaphore_index,
            r@ == (TicketModel { value: Seq::empty(), state: ScriptEvaluationState::Pending }),
    {
        ScriptToEvaluate {
            script,
            value: String::new(),
            state: ScriptEvaluationState::Pending,
            semaphore_index,
        }
    }

    pub fn script(&self) -> (r: &str)
        ensures
            r@ == self.spec_script(),
    {
        self.script.as_str()
    }

    pub fn semaphore_index(&self) -> (r: usize)
        ensures
            r == self.semaphore(),
    {
        self.semaphore_index
    }

    /// Takes `w` if the ticket is still pending, and then returns the one wake-up owed
    /// to the host; a ticket that already settled ignores it and returns `None`.
    fn write(&mut self, w: Ghost<TicketWrite>, text: String, state: ScriptEvaluationState) -> (r: Option<Wake>)
        requires
            old(self).wf(),
            w@ == (match state {
                ScriptEvaluationState::Finished => TicketWrite::Value(text@),
                _ => TicketWrite::Error(text@),
            }),
            state == ScriptEvaluationState::Finished || state == ScriptEvaluationState::Errored,
        ensures
            final(self).wf(),
            final(self)@ == after_write(old(self)@, w@),
            final(self).spec_script() == old(self).spec_script(),
            final(self).semaphore() == old(self).semaphore(),
            r == if old(self)@.state == ScriptEvaluationState::Pending {
                Some(Wake { semaphore_index: old(self).semaphore() })
            } else {
                None::<Wake>
            },
    {
        if self.state == ScriptEvaluationState::Pending {
            self.value = text;
            self.state = state;
            Some(Wake { semaphore_index: self.semaphore_index })
        } else {
            None
        }
    }

    /// Records the script's value. Only the first terminal write takes effect, and only
    /// it returns the wake-up for the host.
    pub fn set_value(&mut self, value: String) -> (r: Option<Wake>)
        requires
            old(self).wf(),
        ensures
            final(self).wf(),
            final(self)@ == after_write(old(self)@, TicketWrite::Value(value@)),
            final(self).spec_script() == old(self).spec_script(),
            final(self).semaphore() == old(self).semaphore(),
            r == if old(self)@.state == ScriptEvaluationState::Pending {
                Some(Wake { semaphore_index: old(self).semaphore() })
            } else {
                None::<Wake>
            },
    {
        self.write(Ghost(TicketWrite::Value(value@)), value, ScriptEvaluationState::Finished)
    }

    /// Records that the evaluation failed with `error`. Only the first terminal write
    /// takes effect, and only it returns the wake-up for the host.
    pub fn set_error(&mut self, error: String) -> (r: Option<Wake>)
        requires
            old(self).wf(),
        ensures
            final(self).wf(),
            final(self)@ == after_write(old(self)@, TicketWrite::Error(error@)),
            final(self).spec_script() == old(self).spec_script(),
            final(self).semaphore() == old(self).semaphore(),
            r == if old(self)@.state == ScriptEvaluationState::Pending {
                Some(Wake { semaphore_index: old(self).semaphore() })
            } else {
                None::<Wake>
            },
    {
        self.write(Ghost(TicketWrite::Error(error@)), error, ScriptEvaluationState::Errored)
    }

    /// Applies the engine's answer to submitting the script: an accepted submission
    /// leaves the ticket pending until the engine's callback writes the value; a refused
    /// one settles the ticket with the engine's error message, as `set_error` does.
    pub fn record_submission(&mut self, outcome: Result<(), String>) -> (r: Option<Wake>)
        requires
            old(self).wf(),
        ensures
            final(self).wf(),
            final(self).spec_script() == old(self).spec_script(),
            final(self).semaphore() == old(self).semaphore(),
            outcome is Ok ==> final(self)@ == old(self)@ && r is None,
            outcome matches Err(e) ==> {
                &&& final(self)@ == after_write(old(self)@, TicketWrite::Error(e@))
                &&& r == if old(self)@.state == ScriptEvaluationState::Pending {
                    Some(Wake { semaphore_index: old(self).semaphore() })
                } else {
                    None::<Wake>
                }
            },
    {
        match outcome {
            Ok(()) => None,
            Err(e) => self.set_error(e),
        }
    }

    /// A snapshot of the result cell: the text so far and the state. It never waits.
    pub fn get_result(&self) -> (r: (String, ScriptEvaluationState))
        ensures
            r.0@ == self@.value,
            r.1 == self@.state,
    {
        (self.value.clone(), self.state)
    }
}

/// A pending ticket for `script`.
pub fn webview_script_to_evaluate_new(script: &str, semaphore_index: usize) -> (r: ScriptToEvaluate)
    ensures
        r.wf(),
        r.spec_script() == script@,
        r.semaphore() == semaphore_index,
        r@ == (TicketModel { value: Seq::empty(), state: ScriptEvaluationState::Pending }),
{
    ScriptToEvaluate::new(script.to_owned(), semaphore_index)
}

/// Copies a live ticket's result text into `result` and returns its state; for a dead
/// ticket handle returns `Released` and leaves `result` untouched.
pub fn webview_script_to_evaluate_get_result(
    script: Result<&ScriptToEvaluate, WebViewError>,
    result: &mut StringBox,
) -> (r: ScriptEvaluationState)
    ensures
        script matches Ok(t) ==> r == t@.state && string_box_text(*final(result)) == t@.value,
        script is Err ==> r == ScriptEvaluationState::Released && *final(result) == *old(result),
{
    match script {
        Ok(t) => {
            let (value, state) = t.get_result();
            result.set_string(value);
            state
        },
        Err(_) => ScriptEvaluationState::Released,
    }
}

} // verus!
