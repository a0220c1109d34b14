//! Demultiplexing inbound responses to in-flight requests.
//!
//! The router keys a delivery queue by request message id. A decoded
//! response is pushed onto the queue registered under its parent message
//! id; a response whose parent id is unknown, or absent, is dropped. The
//! queues model the per-request channels: what a request's action and
//! observers see is exactly its queue, in delivery order.

use vstd::prelude::*;

use crate::actions::Action;
use crate::actions::completion_would_hold;
use crate::response::Response;
use crate::textfmt::string_eq_str;

verus! {

/// A mapping from request message id to that request's delivery queue.
pub struct Router {
    pub routes: Vec<(String, Vec<Response>)>,
}

/// The index of the first route with the given id, or `-1` when none has
/// it.
pub open spec fn route_index(routes: Seq<(String, Vec<Response>)>, id: Seq<char>) -> int
    decreases routes.len(),
{
    if routes.len() == 0 {
        -1
    } else if routes.first().0@ == id {
        0
    } else {
        let rest = route_index(routes.drop_first(), id);
        if rest < 0 {
            -1
        } else {
            rest + 1
        }
    }
}

proof fn lemma_route_index_found(routes: Seq<(String, Vec<Response>)>, id: Seq<char>, i: int)
    requires
        0 <= i < routes.len(),
        routes[i].0@ == id,
        forall|j: int| 0 <= j < i ==> routes[j].0@ != id,
    ensures
        route_index(routes, id) == i,
    decreases routes.len(),
{
    if i > 0 {
        assert(forall|j: int|
            0 <= j < routes.len() - 1 ==> routes.drop_first()[j] == routes[j + 1]);
        lemma_route_index_found(routes.drop_first(), id, i - 1);
    }
}

proof fn lemma_route_index_absent(routes: Seq<(String, Vec<Response>)>, id: Seq<char>)
    requires
        forall|j: int| 0 <= j < routes.len() ==> routes[j].0@ != id,
    ensures
        route_index(routes, id) == -1,
    decreases routes.len(),
{
    if routes.len() > 0 {
        assert(forall|j: int|
            0 <= j < routes.len() - 1 ==> routes.drop_first()[j] == routes[j + 1]);
        lemma_route_index_absent(routes.drop_first(), id);
    }
}

/// What `route_index` reports: a found index is the first match, and
/// `-1` means no route has the id.
pub proof fn lemma_route_index(routes: Seq<(String, Vec<Response>)>, id: Seq<char>)
    ensures
        route_index(routes, id) >= 0 ==> {
            &&& route_index(routes, id) < routes.len()
            &&& routes[route_index(routes, id)].0@ == id
        },
        route_index(routes, id) == -1 ==> forall|j: int|
            0 <= j < routes.len() ==> routes[j].0@ != id,
        route_index(routes, id) >= 0 || route_index(routes, id) == -1,
    decreases routes.len(),
{
    if routes.len() > 0 && routes.first().0@ != id {
        lemma_route_index(routes.drop_first(), id);
        assert(forall|j: int|
            1 <= j < routes.len() ==> routes[j] == routes.drop_first()[j - 1]);
    }
}

/// The subsequence of a delivery run that belongs to one request id, in
/// delivery order.
pub open spec fn routed_to(msgs: Seq<Response>, id: Seq<char>) -> Seq<Response> {
    msgs.filter(|m: Response| m.spec_parent_msg_id() == Some(id))
}

proof fn lemma_routed_to_push(msgs: Seq<Response>, m: Response, id: Seq<char>)
    ensures
        routed_to(msgs.push(m), id) == if m.spec_parent_msg_id() == Some(id) {
            routed_to(msgs, id).push(m)
        } else {
            routed_to(msgs, id)
        },
{
    reveal(Seq::filter);
    assert(msgs.push(m).drop_last() =~= msgs);
    assert(msgs.push(m).last() == m);
    if m.spec_parent_msg_id() == Some(id) {
        assert(routed_to(msgs.push(m), id) =~= routed_to(msgs, id).push(m));
    }
}

impl Router {
    /// Whether every id keys at most one route.
    pub open spec fn wf(&self) -> bool {
        forall|i: int, j: int|
            0 <= i < j < self.routes@.len() ==> self.routes@[i].0@ != self.routes@[j].0@
    }

    /// A router with no registered requests.
    pub fn new() -> (r: Router)
        ensures
            r.wf(),
            r.routes@ == Seq::<(String, Vec<Response>)>::empty(),
    {
        Router { routes: Vec::new() }
    }

    /// Whether a request id is registered.
    pub fn is_registered(&self, id: &str) -> (r: bool)
        ensures
            r == (route_index(self.routes@, id@) >= 0),
    {
        let n = self.routes.len();
        for i in 0..n
            invariant
                n == self.routes@.len(),
                forall|j: int| 0 <= j < i ==> self.routes@[j].0@ != id@,
        {
            if string_eq_str(&self.routes[i].0, id) {
                proof {
                    lemma_route_index_found(self.routes@, id@, i as int);
                }
                return true;
            }
        }
        proof {
            lemma_route_index_absent(self.routes@, id@);
        }
        false
    }

    /// Register a request id with an empty delivery queue. Registration
    /// happens before the request is transmitted, so no reply can arrive
    /// ahead of its route.
    pub fn register(&mut self, id: String)
        requires
            old(self).wf(),
            route_index(old(self).routes@, id@) == -1,
        ensures
            final(self).wf(),
            final(self).routes@.len() == old(self).routes@.len() + 1,
            final(self).routes@.take(old(self).routes@.len() as int) == old(self).routes@,
            final(self).routes@.last().0@ == id@,
            final(self).routes@.last().1@ == Seq::<Response>::empty(),
    {
        proof {
            lemma_route_index(old(self).routes@, id@);
        }
        let entry = (id, Vec::<Response>::new());
        self.routes.push(entry);
        proof {
            assert(self.routes@.take(old(self).routes@.len() as int) =~= old(self).routes@);
        }
    }

    /// Remove a request id and hand back what was delivered for it, or
    /// `None` for an id that is not registered. An action deregisters
    /// itself upon completion.
    pub fn deregister(&mut self, id: &str) -> (r: Option<Vec<Response>>)
        requires
            old(self).wf(),
        ensures
            final(self).wf(),
            ({
                let idx = route_index(old(self).routes@, id@);
                match r {
                    Some(q) => idx >= 0 && q@ == old(self).routes@[idx].1@ && final(self).routes@
                        == old(self).routes@.remove(idx),
                    None => idx == -1 && final(self).routes@ == old(self).routes@,
                }
            }),
    {
        let n = self.routes.len();
        let ghost orig = self.routes@;
        for i in 0..n
            invariant
                n == self.routes@.len(),
                *self == *old(self),
                self.wf(),
                self.routes@ == orig,
                forall|j: int| 0 <= j < i ==> orig[j].0@ != id@,
        {
            if string_eq_str(&self.routes[i].0, id) {
                proof {
                    lemma_route_index_found(orig, id@, i as int);
                }
                let entry = self.routes.remove(i);
                proof {
                    orig.remove_ensures(i as int);
                    assert forall|a: int, b: int|
                        0 <= a < b < self.routes@.len() implies self.routes@[a].0@
                        != self.routes@[b].0@ by {
                        assert(self.routes@[a] == if a < i as int {
                            orig[a]
                        } else {
                            orig[a + 1]
                        });
                        assert(self.routes@[b] == if b < i as int {
                            orig[b]
                        } else {
                            orig[b + 1]
                        });
                    }
                }
                return Some(entry.1);
            }
        }
        proof {
            lemma_route_index_absent(orig, id@);
        }
        None
    }

    /// Deliver one response: it lands at the end of the queue registered
    /// under its parent message id, and every other queue stands; a
    /// response with no parent id, or an unregistered one, is dropped.
    /// The result reports whether the response was delivered.
    pub fn deliver(&mut self, msg: Response) -> (delivered: bool)
        requires
            old(self).wf(),
        ensures
            final(self).wf(),
            final(self).routes@.len() == old(self).routes@.len(),
            forall|j: int|
                0 <= j < old(self).routes@.len() ==> (#[trigger] final(self).routes@[j]).0
                    == old(self).routes@[j].0,
            ({
                match msg.spec_parent_msg_id() {
                    Option::Some(id) => if route_index(old(self).routes@, id) >= 0 {
                        let idx = route_index(old(self).routes@, id);
                        &&& delivered
                        &&& final(self).routes@[idx].1@ == old(self).routes@[idx].1@.push(msg)
                        &&& forall|j: int|
                            0 <= j < old(self).routes@.len() && j != idx
                                ==> #[trigger] final(self).routes@[j] == old(self).routes@[j]
                    } else {
                        !delivered && final(self).routes@ == old(self).routes@
                    },
                    Option::None => !delivered && final(self).routes@ == old(self).routes@,
                }
            }),
    {
        let pid = match msg.parent_msg_id() {
            Some(pid) => pid,
            None => { return false },
        };
        let n = self.routes.len();
        let ghost orig = self.routes@;
        for i in 0..n
            invariant
                n == self.routes@.len(),
                *self == *old(self),
                self.wf(),
                self.routes@ == orig,
                pid@ == msg.spec_parent_msg_id()->Some_0,
                msg.spec_parent_msg_id() is Some,
                forall|j: int| 0 <= j < i ==> orig[j].0@ != pid@,
        {
            if string_eq_str(&self.routes[i].0, pid.as_str()) {
                proof {
                    lemma_route_index_found(orig, pid@, i as int);
                }
                let (route_id, mut queue) = self.routes.remove(i);
                queue.push(msg);
                self.routes.insert(i, (route_id, queue));
                proof {
                    orig.remove_ensures(i as int);
                    orig.remove(i as int).insert_ensures(i as int, self.routes@[i as int]);
                    assert(forall|j: int|
                        0 <= j < orig.len() && j != i as int ==> self.routes@[j] == orig[j]);
                    assert forall|a: int, b: int|
                        0 <= a < b < self.routes@.len() implies self.routes@[a].0@
                        != self.routes@[b].0@ by {
                        assert(self.routes@[a].0@ == orig[a].0@);
                        assert(self.routes@[b].0@ == orig[b].0@);
                    }
                }
                return true;
            }
        }
        proof {
            lemma_route_index_absent(orig, pid@);
        }
        false
    }

    /// Deliver a run of responses in arrival order. Per-request FIFO:
    /// every registered queue grows by exactly the responses parented to
    /// its id, in the order they arrived.
    pub fn deliver_all(&mut self, msgs: Vec<Response>)
        requires
            old(self).wf(),
        ensures
            final(self).wf(),
            final(self).routes@.len() == old(self).routes@.len(),
            forall|j: int|
                0 <= j < old(self).routes@.len() ==> (#[trigger] final(self).routes@[j]).0
                    == old(self).routes@[j].0,
            forall|j: int|
                0 <= j < old(self).routes@.len() ==> (#[trigger] final(self).routes@[j]).1@
                    == old(self).routes@[j].1@ + routed_to(msgs@, old(self).routes@[j].0@),
    {
        let n = msgs.len();
        let mut msgs = msgs;
        proof {
            assert(msgs@.take(0) =~= Seq::<Response>::empty());
            assert forall|j: int| 0 <= j < old(self).routes@.len() implies (#[trigger] self.routes@[
                j
            ]).1@ == old(self).routes@[j].1@ + routed_to(msgs@.take(0), old(self).routes@[j].0@) by {
                reveal(Seq::filter);
                assert(routed_to(msgs@.take(0), old(self).routes@[j].0@) =~= Seq::<
                    Response,
                >::empty());
                assert(self.routes@[j].1@ =~= old(self).routes@[j].1@ + Seq::<Response>::empty());
            }
        }
        let ghost all = msgs@;
        for i in 0..n
            invariant
                n == all.len(),
                msgs@ == all.skip(i as int),
                self.wf(),
                self.routes@.len() == old(self).routes@.len(),
                forall|j: int|
                    0 <= j < old(self).routes@.len()
                        ==> (#[trigger] self.routes@[j]).0 == old(self).routes@[j].0,
                forall|j: int|
                    0 <= j < old(self).routes@.len()
                        ==> (#[trigger] self.routes@[j]).1@
                        == old(self).routes@[j].1@ + routed_to(all.take(i as int), old(self).routes@[j].0@),
        {
            let ghost before = self.routes@;
            let msg = msgs.remove(0);
            proof {
                assert(msg == all[i as int]);
                assert(msgs@ =~= all.skip(i + 1));
            }
            let _ = self.deliver(msg);
            proof {
                assert(all.take(i as int).push(all[i as int]) =~= all.take(i + 1));
                assert forall|j: int|
                    0 <= j < old(self).routes@.len()
                    implies (#[trigger] self.routes@[j]).1@
                        == old(self).routes@[j].1@ + routed_to(all.take(i + 1), old(self).routes@[j].0@) by {
                    lemma_routed_to_push(all.take(i as int), all[i as int], old(self).routes@[j].0@);
                    lemma_route_index(before, all[i as int].spec_parent_msg_id()->Some_0);
                    if all[i as int].spec_parent_msg_id() == Some(old(self).routes@[j].0@) {
                        assert(before[j].0@ == old(self).routes@[j].0@);
                    }
                }
            }
        }
        proof {
            assert(all.take(n as int) =~= all);
        }
    }
}

/// Two in-flight requests are independent: a response parented to one
/// request neither appears in the other's delivered run nor changes
/// whether the other's action completes.
pub proof fn lemma_concurrent_independence(
    msgs: Seq<Response>,
    m: Response,
    id: Seq<char>,
    a: Action,
)
    requires
        m.spec_parent_msg_id() != Some(id),
    ensures
        routed_to(msgs.push(m), id) == routed_to(msgs, id),
        completion_would_hold(a, routed_to(msgs.push(m), id)) == completion_would_hold(
            a,
            routed_to(msgs, id),
        ),
{
    lemma_routed_to_push(msgs, m, id);
}

} // verus!
