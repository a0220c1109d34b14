//! Observers for the responses of one request.
//!
//! Every response delivered to a request is handed to each of the
//! request's observers in registration order. The observers here are the
//! built-in ones: a no-op debugging observer, a per-type message counter,
//! an output aggregator with the clear-output deferral rule, and an
//! observer that records outputs into a notebook cell.

use vstd::prelude::*;

use crate::notebook::Cell;
use crate::notebook::Notebook;
use crate::notebook::Output;
use crate::notebook::OutputView;
use crate::notebook::first_cell_index;
use crate::notebook::output_from_response;
use crate::notebook::output_of;
use crate::notebook::same_notebook_frame;
use crate::response::Response;
use crate::textfmt::string_eq_str;

verus! {

/// An observer that only watches; it keeps no state.
pub struct DebugHandler {
}

impl DebugHandler {
    /// A fresh debugging observer.
    pub fn new() -> (r: DebugHandler) {
        DebugHandler {  }
    }
}

/// One more observation of a message type: the count grows by one until
/// it would no longer fit.
pub open spec fn bump(c: u64) -> u64 {
    if c < u64::MAX {
        (c + 1) as u64
    } else {
        c
    }
}

/// Whether a counts list holds each message type at most once.
pub open spec fn counts_wf(s: Seq<(String, u64)>) -> bool {
    forall|i: int, j: int| 0 <= i < j < s.len() ==> s[i].0@ != s[j].0@
}

/// The count recorded for a message type: the first entry with that key,
/// or zero.
pub open spec fn counts_value(s: Seq<(String, u64)>, key: Seq<char>) -> u64
    decreases s.len(),
{
    if s.len() == 0 {
        0
    } else if s.first().0@ == key {
        s.first().1
    } else {
        counts_value(s.drop_first(), key)
    }
}

proof fn lemma_counts_value_at(s: Seq<(String, u64)>, i: int)
    requires
        counts_wf(s),
        0 <= i < s.len(),
    ensures
        counts_value(s, s[i].0@) == s[i].1,
    decreases s.len(),
{
    if i > 0 {
        assert(forall|j: int| 0 <= j < s.len() - 1 ==> s.drop_first()[j] == s[j + 1]);
        lemma_counts_value_at(s.drop_first(), i - 1);
    }
}

proof fn lemma_counts_value_update(s: Seq<(String, u64)>, i: int, p: (String, u64), key: Seq<char>)
    requires
        0 <= i < s.len(),
        p.0@ == s[i].0@,
        forall|j: int| 0 <= j < i ==> s[j].0@ != s[i].0@,
    ensures
        counts_value(s.update(i, p), key) == if key == p.0@ {
            p.1
        } else {
            counts_value(s, key)
        },
    decreases s.len(),
{
    if i == 0 {
        assert(s.update(0, p).first() == p);
        assert(s.update(0, p).drop_first() =~= s.drop_first());
    } else {
        assert(s.update(i, p).first() == s.first());
        assert(s.update(i, p).drop_first() =~= s.drop_first().update(i - 1, p));
        assert(forall|j: int| 0 <= j < s.len() - 1 ==> s.drop_first()[j] == s[j + 1]);
        lemma_counts_value_update(s.drop_first(), i - 1, p, key);
    }
}

proof fn lemma_counts_value_push(s: Seq<(String, u64)>, p: (String, u64), key: Seq<char>)
    requires
        forall|j: int| 0 <= j < s.len() ==> s[j].0@ != p.0@,
    ensures
        counts_value(s.push(p), key) == if key == p.0@ {
            p.1
        } else {
            counts_value(s, key)
        },
    decreases s.len(),
{
    if s.len() == 0 {
        assert(s.push(p).first() == p);
        assert(s.push(p).drop_first() =~= Seq::<(String, u64)>::empty());
        assert(counts_value(Seq::<(String, u64)>::empty(), key) == 0);
    } else {
        assert(s.push(p).first() == s.first());
        assert(s.push(p).drop_first() =~= s.drop_first().push(p));
        assert(forall|j: int| 0 <= j < s.len() - 1 ==> s.drop_first()[j] == s[j + 1]);
        lemma_counts_value_push(s.drop_first(), p, key);
    }
}

/// An observer that counts the responses it sees, keyed by message type.
pub struct MessageCountHandler {
    pub counts: Vec<(String, u64)>,
}

impl MessageCountHandler {
    /// Whether the counts list holds each message type at most once.
    pub open spec fn wf(&self) -> bool {
        counts_wf(self.counts@)
    }

    /// The count recorded for a message type.
    pub open spec fn spec_count(&self, key: Seq<char>) -> u64 {
        counts_value(self.counts@, key)
    }

    /// A fresh counter with nothing observed yet.
    pub fn new() -> (r: MessageCountHandler)
        ensures
            r.wf(),
            forall|k: Seq<char>| r.spec_count(k) == 0,
    {
        MessageCountHandler { counts: Vec::new() }
    }

    /// The count recorded for a message type.
    pub fn get(&self, key: &str) -> (r: u64)
        requires
            self.wf(),
        ensures
            r == self.spec_count(key@),
    {
        let n = self.counts.len();
        for i in 0..n
            invariant
                self.wf(),
                n == self.counts@.len(),
                forall|j: int| 0 <= j < i ==> self.counts@[j].0@ != key@,
        {
            if string_eq_str(&self.counts[i].0, key) {
                proof {
                    lemma_counts_value_at(self.counts@, i as int);
                }
                return self.counts[i].1;
            }
        }
        proof {
            lemma_counts_value_absent(self.counts@, key@);
        }
        0
    }

    /// Count one more response: the entry for its message type grows by
    /// one, every other entry stands.
    pub fn handle(&mut self, msg: &Response)
        requires
            old(self).wf(),
        ensures
            final(self).wf(),
            forall|k: Seq<char>|
                #[trigger] final(self).spec_count(k) == if k == msg.spec_msg_type() {
                    bump(old(self).spec_count(k))
                } else {
                    old(self).spec_count(k)
                },
    {
        let key = msg.msg_type();
        let n = self.counts.len();
        let ghost orig = self.counts@;
        for i in 0..n
            invariant
                self.wf(),
                self.counts@ == orig,
                orig == old(self).counts@,
                n == orig.len(),
                key@ == msg.spec_msg_type(),
                forall|j: int| 0 <= j < i ==> orig[j].0@ != key@,
        {
            if string_eq_str(&self.counts[i].0, key.as_str()) {
                let c = self.counts[i].1;
                let c1 = if c < u64::MAX {
                    c + 1
                } else {
                    c
                };
                let entry = (self.counts[i].0.clone(), c1);
                proof {
                    lemma_counts_value_at(orig, i as int);
                    lemma_counts_value_update(orig, i as int, entry, key@);
                }
                self.counts.set(i, entry);
                proof {
                    assert forall|k: Seq<char>|
                        #[trigger] self.spec_count(k) == if k == key@ {
                            bump(counts_value(orig, k))
                        } else {
                            counts_value(orig, k)
                        } by {
                        lemma_counts_value_update(orig, i as int, entry, k);
                    }
                }
                return ;
            }
        }
        let entry = (key, 1u64);
        proof {
            lemma_counts_value_absent(orig, entry.0@);
        }
        self.counts.push(entry);
        proof {
            assert forall|k: Seq<char>|
                #[trigger] self.spec_count(k) == if k == entry.0@ {
                    bump(counts_value(orig, k))
                } else {
                    counts_value(orig, k)
                } by {
                lemma_counts_value_push(orig, entry, k);
                lemma_counts_value_absent(orig, entry.0@);
            }
        }
    }
}

proof fn lemma_counts_value_absent(s: Seq<(String, u64)>, key: Seq<char>)
    requires
        forall|j: int| 0 <= j < s.len() ==> s[j].0@ != key,
    ensures
        counts_value(s, key) == 0,
    decreases s.len(),
{
    if s.len() > 0 {
        assert(forall|j: int| 0 <= j < s.len() - 1 ==> s.drop_first()[j] == s[j + 1]);
        lemma_counts_value_absent(s.drop_first(), key);
    }
}

/// The outputs of an aggregator, as mathematical values.
pub open spec fn outputs_view(s: Seq<Output>) -> Seq<OutputView> {
    s.map_values(|o: Output| o@)
}

/// One step of the output aggregator: an output response first honours a
/// pending deferred clear, then appends; `clear_output` clears at once or
/// arms the deferred clear; everything else changes nothing.
pub open spec fn aggregate_step(outputs: Seq<OutputView>, clear_pending: bool, msg: Response) -> (
    Seq<OutputView>,
    bool,
) {
    match output_of(msg) {
        Option::Some(o) => if clear_pending {
            (seq![o], false)
        } else {
            (outputs.push(o), clear_pending)
        },
        Option::None => match msg {
            Response::ClearOutput(m) => if m.content.wait {
                (outputs, true)
            } else {
                (Seq::empty(), clear_pending)
            },
            _ => (outputs, clear_pending),
        },
    }
}

/// An observer that aggregates the outputs of one request, honouring the
/// clear-output rule.
pub struct SimpleOutputHandler {
    pub clear_on_next_output: bool,
    pub output: Vec<Output>,
}

impl SimpleOutputHandler {
    /// The recorded outputs, as mathematical values.
    pub open spec fn spec_outputs(&self) -> Seq<OutputView> {
        outputs_view(self.output@)
    }

    /// A fresh aggregator with no outputs and no pending clear.
    pub fn new() -> (r: SimpleOutputHandler)
        ensures
            r.spec_outputs() == Seq::<OutputView>::empty(),
            r.clear_on_next_output == false,
    {
        let r = SimpleOutputHandler { clear_on_next_output: false, output: Vec::new() };
        proof {
            assert(r.spec_outputs() =~= Seq::<OutputView>::empty());
        }
        r
    }

    /// Apply one response to the aggregate.
    pub fn handle(&mut self, msg: &Response)
        ensures
            (final(self).spec_outputs(), final(self).clear_on_next_output) == aggregate_step(
                old(self).spec_outputs(),
                old(self).clear_on_next_output,
                *msg,
            ),
    {
        match output_from_response(msg) {
            Some(o) => {
                if self.clear_on_next_output {
                    self.output = Vec::new();
                    self.clear_on_next_output = false;
                }
                let ghost before = self.output@;
                self.output.push(o);
                proof {
                    assert(outputs_view(before.push(o)) =~= outputs_view(before).push(o@));
                    if old(self).clear_on_next_output {
                        assert(outputs_view(before) =~= Seq::<OutputView>::empty());
                        assert(self.spec_outputs() =~= seq![o@]);
                    }
                }
            },
            None => {
                match msg {
                    Response::ClearOutput(m) => {
                        if m.content.wait {
                            self.clear_on_next_output = true;
                        } else {
                            self.output = Vec::new();
                            proof {
                                assert(self.spec_outputs() =~= Seq::<OutputView>::empty());
                            }
                        }
                    },
                    _ => {},
                }
            },
        }
    }
}

/// Clearing at once is idempotent: a second immediate `clear_output`
/// right after a first changes nothing.
pub proof fn lemma_clear_now_idempotent(
    outputs: Seq<OutputView>,
    clear_pending: bool,
    msg: Response,
)
    requires
        msg matches Response::ClearOutput(m) && m.content.wait == false,
    ensures
        ({
            let once = aggregate_step(outputs, clear_pending, msg);
            aggregate_step(once.0, once.1, msg) == once
        }),
{
}

/// A deferred clear waits for an output: arming it and then observing a
/// response that carries no output (and is no `clear_output`) leaves the
/// recorded outputs unchanged.
pub proof fn lemma_clear_wait_defers(
    outputs: Seq<OutputView>,
    clear_pending: bool,
    msg: Response,
    next: Response,
)
    requires
        msg matches Response::ClearOutput(m) && m.content.wait == true,
        output_of(next) is None,
        !(next is ClearOutput),
    ensures
        ({
            let armed = aggregate_step(outputs, clear_pending, msg);
            aggregate_step(armed.0, armed.1, next).0 == outputs
        }),
{
}

/// An observer that records the outputs of one request into a notebook
/// cell.
pub struct OutputHandler {
    pub notebook: Notebook,
    pub cell_id: String,
}

/// One step of the notebook-recording observer on the notebook value: an
/// output response is appended to the cell's outputs, `clear_output`
/// empties them at once, and everything else changes nothing. A notebook
/// whose first cell with the id is not a code cell stands unchanged.
pub open spec fn notebook_output_step(
    nb0: Notebook,
    cell_id: Seq<char>,
    msg: Response,
    nb1: Notebook,
) -> bool {
    let idx = first_cell_index(nb0.cells@, cell_id);
    let active = idx >= 0 && nb0.cells@[idx] is Code;
    &&& same_notebook_frame(nb1, nb0)
    &&& match output_of(msg) {
        Option::Some(o) => if active {
            &&& nb1.cells@.len() == nb0.cells@.len()
            &&& forall|j: int|
                0 <= j < nb0.cells@.len() && j != idx ==> nb1.cells@[j] == nb0.cells@[j]
            &&& nb1.cells@[idx] matches Cell::Code(c1) && nb0.cells@[idx] matches Cell::Code(c0)
                && c1.id == c0.id && c1.source == c0.source && c1.metadata == c0.metadata
                && c1.execution_count == c0.execution_count && c1.outputs@.len() == c0.outputs@.len()
                + 1 && c1.outputs@.take(c0.outputs@.len() as int) == c0.outputs@
                && c1.outputs@.last()@ == o
        } else {
            nb1.cells@ == nb0.cells@
        },
        Option::None => match msg {
            Response::ClearOutput(_) => if active {
                &&& nb1.cells@.len() == nb0.cells@.len()
                &&& forall|j: int|
                    0 <= j < nb0.cells@.len() && j != idx ==> nb1.cells@[j] == nb0.cells@[j]
                &&& nb1.cells@[idx] matches Cell::Code(c1) && nb0.cells@[idx] matches Cell::Code(
                    c0,
                ) && c1.id == c0.id && c1.source == c0.source && c1.metadata == c0.metadata
                    && c1.execution_count == c0.execution_count && c1.outputs@ == Seq::<
                    Output,
                >::empty()
            } else {
                nb1.cells@ == nb0.cells@
            },
            _ => nb1.cells@ == nb0.cells@,
        },
    }
}

impl OutputHandler {
    /// A fresh notebook-recording observer for one cell.
    pub fn new(notebook: Notebook, cell_id: String) -> (r: OutputHandler)
        ensures
            r.notebook == notebook,
            r.cell_id@ == cell_id@,
    {
        OutputHandler { notebook, cell_id }
    }

    /// Apply one response to the recorded cell.
    pub fn handle(&mut self, msg: &Response)
        ensures
            final(self).cell_id == old(self).cell_id,
            notebook_output_step(old(self).notebook, old(self).cell_id@, *msg, final(self).notebook),
    {
        match output_from_response(msg) {
            Some(o) => {
                let id = self.cell_id.clone();
                self.notebook.add_cell_output(id.as_str(), o);
                proof {
                    let nb0 = old(self).notebook;
                    let idx = first_cell_index(nb0.cells@, old(self).cell_id@);
                    if idx >= 0 && nb0.cells@[idx] is Code {
                        let c0 = nb0.cells@[idx]->Code_0;
                        let c1 = self.notebook.cells@[idx]->Code_0;
                        assert(c1.outputs@.take(c0.outputs@.len() as int) =~= c0.outputs@);
                    }
                }
            },
            None => {
                match msg {
                    Response::ClearOutput(_) => {
                        let id = self.cell_id.clone();
                        self.notebook.clear_cell_output(id.as_str());
                    },
                    _ => {},
                }
            },
        }
    }
}

/// One registered observer of a request.
pub enum Handler {
    Debug(DebugHandler),
    MessageCount(MessageCountHandler),
    SimpleOutput(SimpleOutputHandler),
    NotebookOutput(OutputHandler),
}

impl Handler {
    /// Whether the observer's own invariant holds.
    pub open spec fn wf(&self) -> bool {
        match self {
            Handler::MessageCount(h) => h.wf(),
            _ => true,
        }
    }
}

/// What one observer invocation does, by observer kind.
pub open spec fn handler_step(h0: Handler, msg: Response, h1: Handler) -> bool {
    match (h0, h1) {
        (Handler::Debug(_), Handler::Debug(_)) => h1 == h0,
        (Handler::MessageCount(c0), Handler::MessageCount(c1)) => {
            &&& c1.wf()
            &&& forall|k: Seq<char>|
                #[trigger] c1.spec_count(k) == if k == msg.spec_msg_type() {
                    bump(c0.spec_count(k))
                } else {
                    c0.spec_count(k)
                }
        },
        (Handler::SimpleOutput(a0), Handler::SimpleOutput(a1)) => (
            a1.spec_outputs(),
            a1.clear_on_next_output,
        ) == aggregate_step(a0.spec_outputs(), a0.clear_on_next_output, msg),
        (Handler::NotebookOutput(n0), Handler::NotebookOutput(n1)) => n1.cell_id == n0.cell_id
            && notebook_output_step(n0.notebook, n0.cell_id@, msg, n1.notebook),
        _ => false,
    }
}

impl Handler {
    /// Hand one response to this observer.
    pub fn handle(&mut self, msg: &Response)
        requires
            old(self).wf(),
        ensures
            final(self).wf(),
            handler_step(*old(self), *msg, *final(self)),
    {
        match self {
            Handler::Debug(_) => {},
            Handler::MessageCount(h) => h.handle(msg),
            Handler::SimpleOutput(h) => h.handle(msg),
            Handler::NotebookOutput(h) => h.handle(msg),
        }
    }
}

} // verus!
