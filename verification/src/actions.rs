//! The lifecycle of one in-flight request.
//!
//! An action owns the originating request and its observers, and applies
//! the dual-condition completion rule: the action is complete exactly when
//! the kernel has reported `idle` for this request and the terminal reply
//! expected for the request's kind has been seen. Completion is monotone —
//! there is no way back — and happens exactly once.

use vstd::prelude::*;

use crate::handlers::Handler;
use crate::handlers::handler_step;
use crate::request::Request;
use crate::response::KernelStatus;
use crate::response::Response;

verus! {

/// The terminal reply a request waits for.
#[derive(PartialEq, Eq, Structural, Clone, Copy, Debug)]
pub enum ExpectedReplyType {
    KernelInfo,
    Execute,
    NoReply,
}

/// The terminal reply for a request kind.
pub open spec fn expected_reply_of(rq: Request) -> ExpectedReplyType {
    match rq {
        Request::KernelInfo(_) => ExpectedReplyType::KernelInfo,
        Request::Execute(_) => ExpectedReplyType::Execute,
    }
}

impl ExpectedReplyType {
    /// The terminal reply for a request.
    pub fn from_request(rq: &Request) -> (r: ExpectedReplyType)
        ensures
            r == expected_reply_of(*rq),
    {
        match rq {
            Request::KernelInfo(_) => ExpectedReplyType::KernelInfo,
            Request::Execute(_) => ExpectedReplyType::Execute,
        }
    }
}

/// Whether a response is the terminal reply for the expected kind. A
/// request expecting no reply is satisfied from the start, so nothing
/// counts as its terminal.
pub open spec fn is_terminal_reply(e: ExpectedReplyType, msg: Response) -> bool {
    match e {
        ExpectedReplyType::KernelInfo => msg is KernelInfo,
        ExpectedReplyType::Execute => msg is Execute,
        ExpectedReplyType::NoReply => false,
    }
}

/// Whether a response is a status message reporting `idle`.
pub open spec fn is_idle_status(msg: Response) -> bool {
    msg matches Response::Status(m) && m.content.execution_state == KernelStatus::Idle
}

/// Whether a sequence of responses holds an idle status.
pub open spec fn has_idle(msgs: Seq<Response>) -> bool {
    exists|i: int| 0 <= i < msgs.len() && is_idle_status(#[trigger] msgs[i])
}

/// Whether a sequence of responses holds the terminal reply.
pub open spec fn has_terminal(e: ExpectedReplyType, msgs: Seq<Response>) -> bool {
    exists|i: int|
        0 <= i < msgs.len() && !(#[trigger] msgs[i] is Status) && is_terminal_reply(e, msgs[i])
}

/// The lifecycle of one request: its observers and the two completion
/// conditions.
pub struct Action {
    pub request: Request,
    pub handlers: Vec<Handler>,
    pub expected_reply: ExpectedReplyType,
    pub kernel_idle: bool,
    pub expected_reply_seen: bool,
    pub completed: bool,
}

impl Action {
    /// The action's invariant: the expected reply belongs to its request,
    /// completion is exactly the conjunction of the two conditions, and
    /// every observer is well formed.
    pub open spec fn wf(&self) -> bool {
        &&& self.expected_reply == expected_reply_of(self.request)
        &&& self.completed == (self.kernel_idle && self.expected_reply_seen)
        &&& forall|i: int| 0 <= i < self.handlers@.len() ==> (#[trigger] self.handlers@[i]).wf()
    }

    /// A fresh action for a request: nothing observed yet; the terminal
    /// condition is pre-satisfied only for a request that expects no
    /// reply.
    pub fn new(request: Request, handlers: Vec<Handler>) -> (r: Action)
        requires
            forall|i: int| 0 <= i < handlers@.len() ==> (#[trigger] handlers@[i]).wf(),
        ensures
            r.wf(),
            r.request == request,
            r.handlers == handlers,
            r.expected_reply == expected_reply_of(request),
            r.kernel_idle == false,
            r.expected_reply_seen == (expected_reply_of(request) is NoReply),
            r.completed == false,
    {
        let expected_reply = ExpectedReplyType::from_request(&request);
        let expected_reply_seen = match expected_reply {
            ExpectedReplyType::NoReply => true,
            _ => false,
        };
        Action {
            request,
            handlers,
            expected_reply,
            kernel_idle: false,
            expected_reply_seen,
            completed: false,
        }
    }

    /// Whether both conditions have been observed.
    pub fn is_complete(&self) -> (r: bool)
        ensures
            r == self.completed,
    {
        self.completed
    }

    /// Apply one response: every observer sees it, in registration order;
    /// then an idle status sets the idle condition, and a terminal reply
    /// sets the reply condition; the action is complete exactly when both
    /// hold. The result reports whether this response completed the
    /// action.
    pub fn handle_response(&mut self, msg: &Response) -> (just_completed: bool)
        requires
            old(self).wf(),
        ensures
            final(self).wf(),
            final(self).request == old(self).request,
            final(self).expected_reply == old(self).expected_reply,
            final(self).kernel_idle == (old(self).kernel_idle || is_idle_status(*msg)),
            final(self).expected_reply_seen == (old(self).expected_reply_seen || (!(msg is Status)
                && is_terminal_reply(old(self).expected_reply, *msg))),
            final(self).completed == (final(self).kernel_idle && final(self).expected_reply_seen),
            just_completed == (!old(self).completed && final(self).completed),
            final(self).handlers@.len() == old(self).handlers@.len(),
            forall|i: int|
                0 <= i < old(self).handlers@.len() ==> handler_step(
                    old(self).handlers@[i],
                    *msg,
                    #[trigger] final(self).handlers@[i],
                ),
    {
        let n = self.handlers.len();
        for i in 0..n
            invariant
                n == self.handlers@.len(),
                n == old(self).handlers@.len(),
                self.request == old(self).request,
                self.expected_reply == old(self).expected_reply,
                self.kernel_idle == old(self).kernel_idle,
                self.expected_reply_seen == old(self).expected_reply_seen,
                self.completed == old(self).completed,
                forall|j: int|
                    0 <= j < i ==> handler_step(
                        old(self).handlers@[j],
                        *msg,
                        #[trigger] self.handlers@[j],
                    ),
                forall|j: int| 0 <= j < i ==> (#[trigger] self.handlers@[j]).wf(),
                forall|j: int|
                    i <= j < n ==> #[trigger] self.handlers@[j] == old(self).handlers@[j],
                forall|j: int| i <= j < n ==> (#[trigger] self.handlers@[j]).wf(),
        {
            let mut h = self.handlers.remove(i);
            h.handle(msg);
            self.handlers.insert(i, h);
        }
        match msg {
            Response::Status(m) => {
                if m.content.execution_state == KernelStatus::Idle {
                    self.kernel_idle = true;
                }
            },
            _ => {
                let terminal = match (&self.expected_reply, msg) {
                    (ExpectedReplyType::KernelInfo, Response::KernelInfo(_)) => true,
                    (ExpectedReplyType::Execute, Response::Execute(_)) => true,
                    _ => false,
                };
                if terminal {
                    self.expected_reply_seen = true;
                }
            },
        }
        let now_complete = self.kernel_idle && self.expected_reply_seen;
        let just_completed = now_complete && !self.completed;
        self.completed = now_complete;
        just_completed
    }

    /// Apply a sequence of responses in delivery order. The result is the
    /// position of the response that completed the action, if one did.
    pub fn process_responses(&mut self, msgs: &Vec<Response>) -> (completed_at: Option<usize>)
        requires
            old(self).wf(),
        ensures
            final(self).wf(),
            final(self).request == old(self).request,
            final(self).expected_reply == old(self).expected_reply,
            final(self).kernel_idle == (old(self).kernel_idle || has_idle(msgs@)),
            final(self).expected_reply_seen == (old(self).expected_reply_seen || has_terminal(
                old(self).expected_reply,
                msgs@,
            )),
            final(self).completed == (final(self).kernel_idle && final(self).expected_reply_seen),
            final(self).handlers@.len() == old(self).handlers@.len(),
            match completed_at {
                Some(i) => {
                    &&& !old(self).completed
                    &&& final(self).completed
                    &&& i < msgs@.len()
                    &&& !completion_would_hold(*old(self), msgs@.take(i as int))
                    &&& completion_would_hold(*old(self), msgs@.take(i as int + 1))
                },
                None => final(self).completed == old(self).completed,
            },
    {
        let mut completed_at: Option<usize> = None;
        let n = msgs.len();
        proof {
            assert(msgs@.take(0) =~= Seq::<Response>::empty());
        }
        for i in 0..n
            invariant
                n == msgs@.len(),
                self.wf(),
                self.request == old(self).request,
                self.expected_reply == old(self).expected_reply,
                self.kernel_idle == (old(self).kernel_idle || has_idle(msgs@.take(i as int))),
                self.expected_reply_seen == (old(self).expected_reply_seen || has_terminal(
                    old(self).expected_reply,
                    msgs@.take(i as int),
                )),
                self.completed == (self.kernel_idle && self.expected_reply_seen),
                self.handlers@.len() == old(self).handlers@.len(),
                match completed_at {
                    Some(j) => {
                        &&& !old(self).completed
                        &&& self.completed
                        &&& j < i
                        &&& !completion_would_hold(*old(self), msgs@.take(j as int))
                        &&& completion_would_hold(*old(self), msgs@.take(j as int + 1))
                    },
                    None => self.completed == old(self).completed,
                },
        {
            let just = self.handle_response(&msgs[i]);
            proof {
                lemma_has_idle_take_step(msgs@, i as int);
                lemma_has_terminal_take_step(old(self).expected_reply, msgs@, i as int);
            }
            if just {
                if completed_at.is_none() {
                    completed_at = Some(i);
                }
            }
        }
        proof {
            assert(msgs@.take(n as int) =~= msgs@);
        }
        completed_at
    }
}

/// Whether an action starting in the given state would be complete after
/// observing the given responses.
pub open spec fn completion_would_hold(a: Action, msgs: Seq<Response>) -> bool {
    (a.kernel_idle || has_idle(msgs)) && (a.expected_reply_seen || has_terminal(
        a.expected_reply,
        msgs,
    ))
}

proof fn lemma_has_idle_take_step(msgs: Seq<Response>, i: int)
    requires
        0 <= i < msgs.len(),
    ensures
        has_idle(msgs.take(i + 1)) == (has_idle(msgs.take(i)) || is_idle_status(msgs[i])),
{
    if has_idle(msgs.take(i)) {
        let j = choose|j: int| 0 <= j < i && is_idle_status(#[trigger] msgs.take(i)[j]);
        assert(is_idle_status(msgs.take(i + 1)[j]));
    }
    if is_idle_status(msgs[i]) {
        assert(is_idle_status(msgs.take(i + 1)[i]));
    }
    if has_idle(msgs.take(i + 1)) {
        let j = choose|j: int| 0 <= j <= i && is_idle_status(#[trigger] msgs.take(i + 1)[j]);
        if j < i {
            assert(is_idle_status(msgs.take(i)[j]));
        } else {
            assert(is_idle_status(msgs[i]));
        }
    }
}

proof fn lemma_has_terminal_take_step(e: ExpectedReplyType, msgs: Seq<Response>, i: int)
    requires
        0 <= i < msgs.len(),
    ensures
        has_terminal(e, msgs.take(i + 1)) == (has_terminal(e, msgs.take(i)) || (!(msgs[i]
            is Status) && is_terminal_reply(e, msgs[i]))),
{
    if has_terminal(e, msgs.take(i)) {
        let j = choose|j: int|
            0 <= j < i && !(#[trigger] msgs.take(i)[j] is Status) && is_terminal_reply(
                e,
                msgs.take(i)[j],
            );
        assert(!(msgs.take(i + 1)[j] is Status) && is_terminal_reply(e, msgs.take(i + 1)[j]));
    }
    if !(msgs[i] is Status) && is_terminal_reply(e, msgs[i]) {
        assert(!(msgs.take(i + 1)[i] is Status) && is_terminal_reply(e, msgs.take(i + 1)[i]));
    }
    if has_terminal(e, msgs.take(i + 1)) {
        let j = choose|j: int|
            0 <= j <= i && !(#[trigger] msgs.take(i + 1)[j] is Status) && is_terminal_reply(
                e,
                msgs.take(i + 1)[j],
            );
        if j < i {
            assert(!(msgs.take(i)[j] is Status) && is_terminal_reply(e, msgs.take(i)[j]));
        } else {
            assert(!(msgs[i] is Status) && is_terminal_reply(e, msgs[i]));
        }
    }
}

/// Dual-condition completion: after any run of responses, an action that
/// started fresh is complete exactly when the run holds an idle status
/// and — where a terminal reply is required — that terminal reply.
pub proof fn lemma_dual_condition_completion(a: Action, msgs: Seq<Response>)
    requires
        a.kernel_idle == false,
        a.expected_reply_seen == (a.expected_reply is NoReply),
    ensures
        completion_would_hold(a, msgs) <==> has_idle(msgs) && (a.expected_reply is NoReply
            || has_terminal(a.expected_reply, msgs)),
{
}

/// Completion is monotone: once the two conditions hold of a prefix of
/// the run, they hold of every longer prefix.
pub proof fn lemma_completion_monotone(a: Action, msgs: Seq<Response>, i: int, j: int)
    requires
        0 <= i <= j <= msgs.len(),
        completion_would_hold(a, msgs.take(i)),
    ensures
        completion_would_hold(a, msgs.take(j)),
{
    if !a.kernel_idle {
        let k = choose|k: int| 0 <= k < i && is_idle_status(#[trigger] msgs.take(i)[k]);
        assert(is_idle_status(msgs.take(j)[k]));
    }
    if !a.expected_reply_seen {
        let k = choose|k: int|
            0 <= k < i && !(#[trigger] msgs.take(i)[k] is Status) && is_terminal_reply(
                a.expected_reply,
                msgs.take(i)[k],
            );
        assert(!(msgs.take(j)[k] is Status) && is_terminal_reply(a.expected_reply, msgs.take(j)[k]));
    }
}

/// Completion happens exactly once: there is at most one position in the
/// run at which the conditions pass from unmet to met.
pub proof fn lemma_completion_exactly_once(a: Action, msgs: Seq<Response>, i: int, j: int)
    requires
        0 <= i <= msgs.len(),
        0 <= j <= msgs.len(),
        !completion_would_hold(a, msgs.take(i)),
        completion_would_hold(a, msgs.take(i + 1)),
        !completion_would_hold(a, msgs.take(j)),
        completion_would_hold(a, msgs.take(j + 1)),
    ensures
        i == j,
{
    if i < j {
        lemma_completion_monotone(a, msgs, i + 1, j);
    }
    if j < i {
        lemma_completion_monotone(a, msgs, j + 1, i);
    }
}

} // verus!
