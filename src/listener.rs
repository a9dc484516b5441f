//! The start/stop state machine of the capture service and the decision,
//! made for each captured notification, whether it is forwarded.
//!
//! The hook subscription is registered at most once per process: stopping
//! only suppresses forwarding, and a later start resumes it on the same
//! subscription.

use vstd::prelude::*;
use crate::event::{EventView, InputEvent};
use crate::native::NativeEvent;
use crate::normalize::{normalize, normalized};

verus! {

/// State of the capture service.
#[derive(Clone, Copy, Debug, PartialEq, Eq, Structural)]
pub struct ListenerState {
    /// Whether captured notifications are forwarded to the event sink.
    pub listening: bool,
    /// Whether the capture loop has been spawned and the hook registered.
    pub subscribed: bool,
}

/// What the host has to do after a start request.
#[derive(Clone, Copy, Debug, PartialEq, Eq, Structural)]
pub enum StartAction {
    /// First start in the process: spawn the capture loop, which registers
    /// the hook.
    Subscribe,
    /// The capture loop already runs; forwarding resumes.
    Resume,
    /// Nothing: the service was listening already.
    AlreadyListening,
}

impl ListenerState {
    /// Listening is only possible on a registered subscription.
    pub open spec fn wf(self) -> bool {
        self.listening ==> self.subscribed
    }

    /// The state and action that a start request leads to.
    pub open spec fn after_start(self) -> (ListenerState, StartAction) {
        if self.listening {
            (self, StartAction::AlreadyListening)
        } else if self.subscribed {
            (ListenerState { listening: true, subscribed: true }, StartAction::Resume)
        } else {
            (ListenerState { listening: true, subscribed: true }, StartAction::Subscribe)
        }
    }

    /// The state that a stop request leads to.
    pub open spec fn after_stop(self) -> ListenerState {
        ListenerState { listening: false, subscribed: self.subscribed }
    }

    /// What becomes of one captured notification in this state.
    pub open spec fn forwarding(self, ev: NativeEvent) -> Option<EventView> {
        if self.listening {
            Some(normalized(ev))
        } else {
            None
        }
    }

    /// The state at process start: stopped, nothing registered.
    pub fn new() -> (r: ListenerState)
        ensures
            !r.listening,
            !r.subscribed,
            r.wf(),
    {
        ListenerState { listening: false, subscribed: false }
    }

    pub fn is_listening(&self) -> (r: bool)
        ensures
            r == self.listening,
    {
        self.listening
    }

    pub fn is_subscribed(&self) -> (r: bool)
        ensures
            r == self.subscribed,
    {
        self.subscribed
    }

    /// Start request: listen, and ask for the capture loop only the first
    /// time. A start while listening changes nothing.
    pub fn start(&mut self) -> (r: StartAction)
        ensures
            (*final(self), r) == old(self).after_start(),
            old(self).wf() ==> final(self).wf(),
    {
        if self.listening {
            StartAction::AlreadyListening
        } else if self.subscribed {
            self.listening = true;
            StartAction::Resume
        } else {
            self.listening = true;
            self.subscribed = true;
            StartAction::Subscribe
        }
    }

    /// Stop request: stop forwarding; the subscription stays.
    pub fn stop(&mut self)
        ensures
            *final(self) == old(self).after_stop(),
            old(self).wf() ==> final(self).wf(),
    {
        self.listening = false;
    }

    /// One captured notification: its event record while listening,
    /// nothing while stopped.
    pub fn forward(&self, ev: NativeEvent) -> (r: Option<InputEvent>)
        ensures
            r is Some <==> self.listening,
            r matches Some(e) ==> Some(e@) == self.forwarding(ev) && e@.well_formed(),
    {
        if self.listening {
            Some(normalize(ev))
        } else {
            None
        }
    }
}

/// The records forwarded, in order, for a run of notifications that all
/// arrive in state `st`.
pub open spec fn forwarded(st: ListenerState, evs: Seq<NativeEvent>) -> Seq<EventView>
    decreases evs.len(),
{
    if evs.len() == 0 {
        Seq::empty()
    } else {
        let earlier = forwarded(st, evs.drop_last());
        match st.forwarding(evs.last()) {
            Some(e) => earlier.push(e),
            None => earlier,
        }
    }
}

/// A host request to the service.
pub ghost enum Control {
    Start,
    Stop,
}

/// The state after a run of requests from `st`, and how many of them asked
/// for the capture loop to be spawned.
pub open spec fn run(st: ListenerState, ops: Seq<Control>) -> (ListenerState, nat)
    decreases ops.len(),
{
    if ops.len() == 0 {
        (st, 0)
    } else {
        let (s, n) = run(st, ops.drop_last());
        match ops.last() {
            Control::Start => {
                let (t, a) = s.after_start();
                (t, if a == StartAction::Subscribe { n + 1 } else { n })
            },
            Control::Stop => (s.after_stop(), n),
        }
    }
}

/// Starting twice in a row has the effect of starting once: the second
/// start leaves the state as it is and asks for nothing.
pub proof fn lemma_start_idempotent(st: ListenerState)
    ensures
        st.after_start().0.after_start().0 == st.after_start().0,
        st.after_start().0.after_start().1 == StartAction::AlreadyListening,
{
}

/// Stopping a stopped service leaves its state unchanged.
pub proof fn lemma_stop_idempotent(st: ListenerState)
    requires
        !st.listening,
    ensures
        st.after_stop() == st,
{
}

/// Start, stop, start: the second start resumes on the existing
/// subscription without registering again, and notifications are forwarded
/// again.
pub proof fn lemma_restart_resumes(st: ListenerState, ev: NativeEvent)
    requires
        st.wf(),
    ensures
        ({
            let s1 = st.after_start().0;
            let s2 = s1.after_stop();
            let s3 = s2.after_start().0;
            &&& s2.forwarding(ev) is None
            &&& s2.after_start().1 == StartAction::Resume
            &&& s3.listening
            &&& s3.subscribed
            &&& s3.forwarding(ev) == Some(normalized(ev))
        }),
{
}

/// Whatever the host requests, the capture loop is asked for at most once,
/// and never again once a subscription exists.
pub proof fn lemma_subscribes_at_most_once(st: ListenerState, ops: Seq<Control>)
    ensures
        run(st, ops).1 <= 1,
        st.subscribed ==> run(st, ops).1 == 0,
        run(st, ops).0.subscribed == (st.subscribed || run(st, ops).1 == 1),
    decreases ops.len(),
{
    if ops.len() > 0 {
        lemma_subscribes_at_most_once(st, ops.drop_last());
    }
}

/// While stopped, no notification reaches the sink.
pub proof fn lemma_stopped_forwards_nothing(st: ListenerState, evs: Seq<NativeEvent>)
    requires
        !st.listening,
    ensures
        forwarded(st, evs).len() == 0,
    decreases evs.len(),
{
    if evs.len() > 0 {
        lemma_stopped_forwards_nothing(st, evs.drop_last());
    }
}

/// While listening, N notifications give exactly N records, each the
/// record of the notification at the same position.
pub proof fn lemma_listening_forwards_each(st: ListenerState, evs: Seq<NativeEvent>)
    requires
        st.listening,
    ensures
        forwarded(st, evs).len() == evs.len(),
        forall|i: int| 0 <= i < evs.len() ==> #[trigger] forwarded(st, evs)[i] == normalized(evs[i]),
    decreases evs.len(),
{
    if evs.len() > 0 {
        let init = evs.drop_last();
        lemma_listening_forwards_each(st, init);
        assert forall|i: int| 0 <= i < evs.len() implies #[trigger] forwarded(st, evs)[i]
            == normalized(evs[i]) by {
            if i < evs.len() - 1 {
                assert(evs[i] == init[i]);
            }
        }
    }
}

} // verus!
