//! An in-memory notebook document.
//!
//! A notebook is an ordered sequence of cells; a code cell records the
//! outputs that arrived for it. Reading and writing the document on disk
//! is outside the library; the model here carries everything those
//! round-trips need as plain values.

use vstd::prelude::*;

use crate::response::DisplayData;
use crate::response::DisplayDataView;
use crate::response::Error;
use crate::response::ErrorView;
use crate::response::ExecuteResult;
use crate::response::ExecuteResultView;
use crate::response::Response;
use crate::response::Stream;
use crate::response::StreamView;
use crate::header::new_uuid_string;

verus! {

/// One recorded output of a code cell.
pub enum Output {
    DisplayData(DisplayData),
    Stream(Stream),
    ExecuteResult(ExecuteResult),
    Error(Error),
}

/// The mathematical content of an output.
#[verifier::ext_equal]
pub ghost enum OutputView {
    DisplayData(DisplayDataView),
    Stream(StreamView),
    ExecuteResult(ExecuteResultView),
    Error(ErrorView),
}

impl View for Output {
    type V = OutputView;

    open spec fn view(&self) -> OutputView {
        match self {
            Output::DisplayData(d) => OutputView::DisplayData(d@),
            Output::Stream(s) => OutputView::Stream(s@),
            Output::ExecuteResult(e) => OutputView::ExecuteResult(e@),
            Output::Error(e) => OutputView::Error(e@),
        }
    }
}

/// The output a response contributes to a cell, if any: stream text, an
/// execute result, display data, or an error.
pub open spec fn output_of(r: Response) -> Option<OutputView> {
    match r {
        Response::Stream(m) => Some(OutputView::Stream(m.content@)),
        Response::ExecuteResult(m) => Some(OutputView::ExecuteResult(m.content@)),
        Response::DisplayData(m) => Some(OutputView::DisplayData(m.content@)),
        Response::Error(m) => Some(OutputView::Error(m.content@)),
        _ => None,
    }
}

/// The output held in a response, copied out of it.
pub fn output_from_response(msg: &Response) -> (r: Option<Output>)
    ensures
        match r {
            Some(o) => output_of(*msg) == Some(o@),
            None => output_of(*msg) is None,
        },
{
    match msg {
        Response::Stream(m) => Some(Output::Stream(m.content.clone())),
        Response::ExecuteResult(m) => Some(Output::ExecuteResult(m.content.clone())),
        Response::DisplayData(m) => Some(Output::DisplayData(m.content.clone())),
        Response::Error(m) => Some(Output::Error(m.content.clone())),
        _ => None,
    }
}

/// A code cell: source to execute and the outputs recorded for it.
pub struct CodeCell {
    pub id: String,
    pub source: String,
    pub metadata: Option<Vec<u8>>,
    pub execution_count: Option<u32>,
    pub outputs: Vec<Output>,
}

impl CodeCell {
    /// Forget the recorded outputs.
    pub fn clear_output(&mut self)
        ensures
            final(self).outputs@ == Seq::<Output>::empty(),
            final(self).id == old(self).id,
            final(self).source == old(self).source,
            final(self).metadata == old(self).metadata,
            final(self).execution_count == old(self).execution_count,
    {
        self.outputs = Vec::new();
    }
}

/// A markdown cell.
pub struct MarkdownCell {
    pub id: String,
    pub source: String,
    pub metadata: Option<Vec<u8>>,
}

/// A raw cell.
pub struct RawCell {
    pub id: String,
    pub source: String,
    pub metadata: Option<Vec<u8>>,
}

/// A notebook cell, tagged by kind.
pub enum Cell {
    Code(CodeCell),
    Markdown(MarkdownCell),
    Raw(RawCell),
}

impl Cell {
    /// The id of this cell.
    pub open spec fn spec_id(&self) -> Seq<char> {
        match self {
            Cell::Code(c) => c.id@,
            Cell::Markdown(c) => c.id@,
            Cell::Raw(c) => c.id@,
        }
    }

    /// The source text of this cell.
    pub open spec fn spec_source(&self) -> Seq<char> {
        match self {
            Cell::Code(c) => c.source@,
            Cell::Markdown(c) => c.source@,
            Cell::Raw(c) => c.source@,
        }
    }

    /// The id of this cell.
    pub fn id(&self) -> (r: &str)
        ensures
            r@ == self.spec_id(),
    {
        match self {
            Cell::Code(c) => c.id.as_str(),
            Cell::Markdown(c) => c.id.as_str(),
            Cell::Raw(c) => c.id.as_str(),
        }
    }

    /// The source text of this cell.
    pub fn source(&self) -> (r: String)
        ensures
            r@ == self.spec_source(),
    {
        match self {
            Cell::Code(c) => c.source.clone(),
            Cell::Markdown(c) => c.source.clone(),
            Cell::Raw(c) => c.source.clone(),
        }
    }

    /// The metadata bytes of this cell, if any.
    pub fn metadata(&self) -> (r: &Option<Vec<u8>>)
        ensures
            match self {
                Cell::Code(c) => r == &c.metadata,
                Cell::Markdown(c) => r == &c.metadata,
                Cell::Raw(c) => r == &c.metadata,
            },
    {
        match self {
            Cell::Code(c) => &c.metadata,
            Cell::Markdown(c) => &c.metadata,
            Cell::Raw(c) => &c.metadata,
        }
    }
}

/// The index of the first cell with the given id, or `-1` when no cell
/// has it.
pub open spec fn first_cell_index(cells: Seq<Cell>, id: Seq<char>) -> int
    decreases cells.len(),
{
    if cells.len() == 0 {
        -1
    } else if cells.first().spec_id() == id {
        0
    } else {
        let rest = first_cell_index(cells.drop_first(), id);
        if rest < 0 {
            -1
        } else {
            rest + 1
        }
    }
}

/// The converse direction: an index that is the first match is what
/// `first_cell_index` reports.
pub proof fn lemma_first_cell_index_found(cells: Seq<Cell>, id: Seq<char>, i: int)
    requires
        0 <= i < cells.len(),
        cells[i].spec_id() == id,
        forall|j: int| 0 <= j < i ==> cells[j].spec_id() != id,
    ensures
        first_cell_index(cells, id) == i,
    decreases cells.len(),
{
    if i > 0 {
        assert(forall|j: int|
            0 <= j < i - 1 ==> cells.drop_first()[j] == cells[j + 1]);
        lemma_first_cell_index_found(cells.drop_first(), id, i - 1);
    }
}

/// No match anywhere means `first_cell_index` reports `-1`.
pub proof fn lemma_first_cell_index_absent(cells: Seq<Cell>, id: Seq<char>)
    requires
        forall|j: int| 0 <= j < cells.len() ==> cells[j].spec_id() != id,
    ensures
        first_cell_index(cells, id) == -1,
    decreases cells.len(),
{
    if cells.len() > 0 {
        assert(forall|j: int|
            0 <= j < cells.len() - 1 ==> cells.drop_first()[j] == cells[j + 1]);
        lemma_first_cell_index_absent(cells.drop_first(), id);
    }
}

/// An in-memory notebook document.
pub struct Notebook {
    pub cells: Vec<Cell>,
    pub signature: Option<String>,
    pub metadata: Option<Vec<u8>>,
    pub nbformat: u32,
    pub nbformat_minor: u32,
}

/// Whether two notebooks differ only in their cell list.
pub open spec fn same_notebook_frame(a: Notebook, b: Notebook) -> bool {
    &&& a.signature == b.signature
    &&& a.metadata == b.metadata
    &&& a.nbformat == b.nbformat
    &&& a.nbformat_minor == b.nbformat_minor
}

impl Notebook {
    /// An empty notebook in format 4.5.
    pub fn new() -> (r: Notebook)
        ensures
            r.cells@ == Seq::<Cell>::empty(),
            r.signature is None,
            r.metadata is None,
            r.nbformat == 4,
            r.nbformat_minor == 5,
    {
        Notebook {
            cells: Vec::new(),
            signature: None,
            metadata: None,
            nbformat: 4,
            nbformat_minor: 5,
        }
    }

    /// The first cell with the given id, if any.
    pub fn get_cell(&self, id: &str) -> (r: Option<&Cell>)
        ensures
            match r {
                Some(c) => first_cell_index(self.cells@, id@) >= 0 && *c == self.cells@[
                    first_cell_index(self.cells@, id@)
                ],
                None => first_cell_index(self.cells@, id@) == -1,
            },
    {
        let n = self.cells.len();
        for i in 0..n
            invariant
                n == self.cells@.len(),
                forall|j: int| 0 <= j < i ==> self.cells@[j].spec_id() != id@,
        {
            if string_eq_id(self.cells[i].id(), id) {
                proof {
                    lemma_first_cell_index_found(self.cells@, id@, i as int);
                }
                return Some(&self.cells[i]);
            }
        }
        proof {
            lemma_first_cell_index_absent(self.cells@, id@);
        }
        None
    }

    /// Replace the first cell that has the same id as `cell`; a notebook
    /// without such a cell is left unchanged.
    pub fn replace_cell(&mut self, cell: Cell)
        ensures
            same_notebook_frame(*final(self), *old(self)),
            ({
                let idx = first_cell_index(old(self).cells@, cell.spec_id());
                if idx >= 0 {
                    final(self).cells@ == old(self).cells@.update(idx, cell)
                } else {
                    final(self).cells@ == old(self).cells@
                }
            }),
    {
        let n = self.cells.len();
        let ghost orig = self.cells@;
        for i in 0..n
            invariant
                n == self.cells@.len(),
                *self == *old(self),
                self.cells@ == orig,
                forall|j: int| 0 <= j < i ==> orig[j].spec_id() != cell.spec_id(),
        {
            if string_eq_id(self.cells[i].id(), cell.id()) {
                proof {
                    lemma_first_cell_index_found(orig, cell.spec_id(), i as int);
                }
                self.cells.set(i, cell);
                return ;
            }
        }
        proof {
            lemma_first_cell_index_absent(orig, cell.spec_id());
        }
    }

    /// Append a cell to the notebook.
    pub fn add_cell(&mut self, cell: Cell)
        ensures
            same_notebook_frame(*final(self), *old(self)),
            final(self).cells@ == old(self).cells@.push(cell),
    {
        self.cells.push(cell);
    }

    /// Append a fresh code cell with the given source and a new random
    /// id; the id is returned.
    pub fn add_code_cell(&mut self, source: &str) -> (r: String)
        ensures
            same_notebook_frame(*final(self), *old(self)),
            r@.len() == 36,
            final(self).cells@.len() == old(self).cells@.len() + 1,
            final(self).cells@.take(old(self).cells@.len() as int) == old(self).cells@,
            final(self).cells@.last() matches Cell::Code(c) && c.id@ == r@ && c.source@ == source@
                && c.metadata is None && c.execution_count is None && c.outputs@ == Seq::<
                Output,
            >::empty(),
    {
        let id = new_uuid_string();
        let cell = Cell::Code(
            CodeCell {
                id: id.clone(),
                source: source.to_owned(),
                metadata: None,
                execution_count: None,
                outputs: Vec::new(),
            },
        );
        self.cells.push(cell);
        proof {
            assert(self.cells@.take(old(self).cells@.len() as int) =~= old(self).cells@);
        }
        id
    }

    /// Append a fresh markdown cell with the given source and a new
    /// random id; the id is returned.
    pub fn add_markdown_cell(&mut self, source: &str) -> (r: String)
        ensures
            same_notebook_frame(*final(self), *old(self)),
            r@.len() == 36,
            final(self).cells@.len() == old(self).cells@.len() + 1,
            final(self).cells@.take(old(self).cells@.len() as int) == old(self).cells@,
            final(self).cells@.last() matches Cell::Markdown(c) && c.id@ == r@ && c.source@
                == source@ && c.metadata is None,
    {
        let id = new_uuid_string();
        let cell = Cell::Markdown(
            MarkdownCell { id: id.clone(), source: source.to_owned(), metadata: None },
        );
        self.cells.push(cell);
        proof {
            assert(self.cells@.take(old(self).cells@.len() as int) =~= old(self).cells@);
        }
        id
    }

    /// Clear the outputs of the first cell with the given id, when that
    /// cell is a code cell; any other notebook is left unchanged.
    pub fn clear_cell_output(&mut self, id: &str)
        ensures
            same_notebook_frame(*final(self), *old(self)),
            ({
                let idx = first_cell_index(old(self).cells@, id@);
                if idx >= 0 && old(self).cells@[idx] is Code {
                    &&& final(self).cells@.len() == old(self).cells@.len()
                    &&& forall|j: int|
                        0 <= j < old(self).cells@.len() && j != idx ==> final(self).cells@[j]
                            == old(self).cells@[j]
                    &&& final(self).cells@[idx] matches Cell::Code(c1)
                        && old(self).cells@[idx] matches Cell::Code(c0) && c1.id == c0.id
                        && c1.source == c0.source && c1.metadata == c0.metadata
                        && c1.execution_count == c0.execution_count && c1.outputs@ == Seq::<
                        Output,
                    >::empty()
                } else {
                    final(self).cells@ == old(self).cells@
                }
            }),
    {
        let n = self.cells.len();
        let ghost orig = self.cells@;
        for i in 0..n
            invariant
                n == self.cells@.len(),
                *self == *old(self),
                self.cells@ == orig,
                forall|j: int| 0 <= j < i ==> orig[j].spec_id() != id@,
        {
            if string_eq_id(self.cells[i].id(), id) {
                proof {
                    lemma_first_cell_index_found(orig, id@, i as int);
                }
                let cell = self.cells.remove(i);
                match cell {
                    Cell::Code(mut c) => {
                        c.clear_output();
                        self.cells.insert(i, Cell::Code(c));
                        proof {
                            assert(forall|j: int|
                                0 <= j < orig.len() && j != i as int ==> self.cells@[j] == orig[j]);
                        }
                    },
                    other => {
                        self.cells.insert(i, other);
                        proof {
                            assert(self.cells@ =~= orig);
                        }
                    },
                }
                return ;
            }
        }
        proof {
            lemma_first_cell_index_absent(orig, id@);
        }
    }

    /// Record an output on the first cell with the given id, when that
    /// cell is a code cell; any other notebook is left unchanged.
    pub fn add_cell_output(&mut self, id: &str, output: Output)
        ensures
            same_notebook_frame(*final(self), *old(self)),
            ({
                let idx = first_cell_index(old(self).cells@, id@);
                if idx >= 0 && old(self).cells@[idx] is Code {
                    &&& final(self).cells@.len() == old(self).cells@.len()
                    &&& forall|j: int|
                        0 <= j < old(self).cells@.len() && j != idx ==> final(self).cells@[j]
                            == old(self).cells@[j]
                    &&& final(self).cells@[idx] matches Cell::Code(c1)
                        && old(self).cells@[idx] matches Cell::Code(c0) && c1.id == c0.id
                        && c1.source == c0.source && c1.metadata == c0.metadata
                        && c1.execution_count == c0.execution_count && c1.outputs@
                        == c0.outputs@.push(output)
                } else {
                    final(self).cells@ == old(self).cells@
                }
            }),
    {
        let n = self.cells.len();
        let ghost orig = self.cells@;
        for i in 0..n
            invariant
                n == self.cells@.len(),
                *self == *old(self),
                self.cells@ == orig,
                forall|j: int| 0 <= j < i ==> orig[j].spec_id() != id@,
        {
            if string_eq_id(self.cells[i].id(), id) {
                proof {
                    lemma_first_cell_index_found(orig, id@, i as int);
                }
                let cell = self.cells.remove(i);
                match cell {
                    Cell::Code(mut c) => {
                        c.outputs.push(output);
                        self.cells.insert(i, Cell::Code(c));
                        proof {
                            assert(forall|j: int|
                                0 <= j < orig.len() && j != i as int ==> self.cells@[j] == orig[j]);
                        }
                    },
                    other => {
                        self.cells.insert(i, other);
                        proof {
                            assert(self.cells@ =~= orig);
                        }
                    },
                }
                return ;
            }
        }
        proof {
            lemma_first_cell_index_absent(orig, id@);
        }
    }
}

/// Whether two id strings hold the same characters.
fn string_eq_id(a: &str, b: &str) -> (r: bool)
    ensures
        r == (a@ == b@),
{
    let a_owned: String = a.to_owned();
    let b_owned: String = b.to_owned();
    a_owned == b_owned
}

/// The lines of a source field joined by newlines: a single cell source
/// may arrive as a list of lines.
pub open spec fn joined_lines(parts: Seq<Seq<char>>) -> Seq<char>
    decreases parts.len(),
{
    if parts.len() == 0 {
        Seq::empty()
    } else if parts.len() == 1 {
        parts.first()
    } else {
        parts.first() + seq!['\n'] + joined_lines(parts.drop_first())
    }
}

proof fn lemma_joined_lines_push(parts: Seq<Seq<char>>, p: Seq<char>)
    ensures
        joined_lines(parts.push(p)) == if parts.len() == 0 {
            p
        } else {
            joined_lines(parts) + seq!['\n'] + p
        },
    decreases parts.len(),
{
    if parts.len() == 0 {
        assert(parts.push(p).len() == 1);
        assert(parts.push(p).first() == p);
    } else {
        assert(parts.push(p).drop_first() =~= parts.drop_first().push(p));
        lemma_joined_lines_push(parts.drop_first(), p);
        assert(joined_lines(parts.push(p)) =~= joined_lines(parts) + seq!['\n'] + p);
    }
}

/// Join a list of source lines into one string separated by newlines.
pub fn join_source_lines(parts: &Vec<String>) -> (r: String)
    ensures
        r@ == joined_lines(parts.deep_view()),
{
    let mut out = String::new();
    let n = parts.len();
    proof {
        assert(parts.deep_view().take(0) =~= Seq::<Seq<char>>::empty());
    }
    for i in 0..n
        invariant
            n == parts@.len(),
            parts.deep_view().len() == n,
            out@ == joined_lines(parts.deep_view().take(i as int)),
    {
        if i > 0 {
            out.append("\n");
        }
        out.append(parts[i].as_str());
        proof {
            reveal_strlit("\n");
            assert(parts.deep_view()[i as int] == parts@[i as int]@);
            lemma_joined_lines_push(parts.deep_view().take(i as int), parts.deep_view()[i as int]);
            assert(parts.deep_view().take(i as int).push(parts.deep_view()[i as int])
                =~= parts.deep_view().take(i + 1));
            assert(out@ =~= joined_lines(parts.deep_view().take(i + 1)));
        }
    }
    proof {
        assert(parts.deep_view().take(n as int) =~= parts.deep_view());
    }
    out
}

} // verus!
