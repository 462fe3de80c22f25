//! The local callback listener's verified core: a single-use handoff from
//! the request handler to the awaiting authorization flow. The listener
//! accepts exactly one completed exchange; delivering it also signals the
//! hosting server to stop, so a stopped listener always has a delivered
//! outcome for the flow to observe.
use vstd::prelude::*;

use crate::errors::XTVError;
use crate::errors::XTVErrorView;
use crate::lifecycle::outcome_view;
use crate::token::Token;
use crate::token::TokenView;

verus! {

/// The listener's state: whether its one request was served, whether it
/// asked the hosting server to stop, and the outcome handed to the
/// awaiting flow.
pub struct CallbackListener {
    served: bool,
    stopped: bool,
    delivered: Option<Result<Token, XTVError>>,
}

/// The mathematical content of a [`CallbackListener`].
pub struct ListenerView {
    pub served: bool,
    pub stopped: bool,
    pub delivered: Option<Result<TokenView, XTVErrorView>>,
}

impl View for CallbackListener {
    type V = ListenerView;

    closed spec fn view(&self) -> ListenerView {
        ListenerView {
            served: self.served,
            stopped: self.stopped,
            delivered: match self.delivered {
                None => None,
                Some(o) => Some(outcome_view(o)),
            },
        }
    }
}

impl ListenerView {
    /// The listener's invariant: it stops only after serving, and it has
    /// served exactly when an outcome was delivered — so the flow never
    /// observes a stopped listener without a delivered outcome.
    pub open spec fn wf(self) -> bool {
        (self.stopped ==> self.served) && (self.served <==> self.delivered is Some)
    }
}

/// What delivering one callback's exchange outcome does: a fresh listener
/// accepts it, records it for the flow, and signals shutdown; a listener
/// that has already served rejects it unchanged.
pub open spec fn spec_deliver(l: ListenerView, outcome: Result<TokenView, XTVErrorView>) -> (
    ListenerView,
    bool,
) {
    if l.served {
        (l, false)
    } else {
        (ListenerView { served: true, stopped: true, delivered: Some(outcome) }, true)
    }
}

impl CallbackListener {
    /// A fresh listener: nothing served, nothing delivered, not stopped.
    pub fn start() -> (l: CallbackListener)
        ensures
            l@ == (ListenerView { served: false, stopped: false, delivered: None }),
            l@.wf(),
    {
        CallbackListener { served: false, stopped: false, delivered: None }
    }

    /// Handles the one callback request: the host's request handler
    /// exchanges the received code for tokens and hands the result —
    /// success or failure — in here. Returns whether the request was
    /// accepted; a second request is rejected and changes nothing.
    pub fn handle_callback(&mut self, exchange: Result<Token, XTVError>) -> (accepted: bool)
        ensures
            (final(self)@, accepted) == spec_deliver(old(self)@, outcome_view(exchange)),
            old(self)@.wf() ==> final(self)@.wf(),
    {
        if self.served {
            false
        } else {
            self.served = true;
            self.stopped = true;
            self.delivered = Some(exchange);
            true
        }
    }

    /// Whether the one request was already served.
    pub fn served(&self) -> (r: bool)
        ensures
            r == self@.served,
    {
        self.served
    }

    /// Whether the listener has signalled the hosting server to stop.
    pub fn stop_requested(&self) -> (r: bool)
        ensures
            r == self@.stopped,
    {
        self.stopped
    }

    /// Tears the listener down and hands the awaiting flow the delivered
    /// outcome, if one arrived.
    pub fn into_outcome(self) -> (r: Option<Result<Token, XTVError>>)
        ensures
            match r {
                None => self@.delivered is None,
                Some(o) => self@.delivered == Some(outcome_view(o)),
            },
    {
        self.delivered
    }
}

/// Listener single-use: a fresh listener accepts its first callback, and
/// every later callback is rejected and leaves the listener — including
/// the delivered outcome — unchanged.
pub proof fn lemma_listener_single_use(
    l: ListenerView,
    first: Result<TokenView, XTVErrorView>,
    second: Result<TokenView, XTVErrorView>,
)
    requires
        !l.served,
    ensures
        spec_deliver(l, first).1,
        !spec_deliver(spec_deliver(l, first).0, second).1,
        spec_deliver(spec_deliver(l, first).0, second).0 == spec_deliver(l, first).0,
        spec_deliver(l, first).0.delivered == Some(first),
{
}

/// Shutdown ordering: delivering preserves the listener invariant, so a
/// stopped listener always carries a delivered outcome — the flow can
/// never observe the stop without the handoff value.
pub proof fn lemma_stop_implies_handoff(l: ListenerView, outcome: Result<TokenView, XTVErrorView>)
    requires
        l.wf(),
    ensures
        spec_deliver(l, outcome).0.wf(),
        spec_deliver(l, outcome).0.stopped ==> spec_deliver(l, outcome).0.delivered is Some,
{
}

} // verus!
