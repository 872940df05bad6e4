//! Cells and tables: content, the cell builder, span generation, header and
//! splitter synthesis, and table-wide settings.

use table_formatter::table::Cell as NativeCell;
use table_formatter::table::Content as NativeContent;
use table_formatter::table::FormatterFunc;
use table_formatter::table::Table as NativeTable;
use vstd::prelude::*;

use crate::engine;
use crate::errors::{FormatterError, TablerError};
use crate::settings::{Align, Border, Formatter, Overflow, Padding, Renderer};
use crate::text::{decimal, option_text, push_decimal, push_option};

verus! {

/// What a cell displays: text, a horizontal rule, or nothing.
pub enum Content {
    Text(String),
    Splitter,
    Empty,
}

/// The mathematical value of a `Content`.
pub enum ContentView {
    Text(Seq<char>),
    Splitter,
    Empty,
}

impl ContentView {
    /// The width the content asks for by itself: the number of characters of
    /// a text, none for a rule or for nothing.
    pub open spec fn width(self) -> Option<usize> {
        match self {
            ContentView::Text(s) => Some(s.len() as usize),
            _ => None,
        }
    }
}

impl View for Content {
    type V = ContentView;

    open spec fn view(&self) -> ContentView {
        match self {
            Content::Text(s) => ContentView::Text(s@),
            Content::Splitter => ContentView::Splitter,
            Content::Empty => ContentView::Empty,
        }
    }
}

impl ContentView {
    pub open spec fn repr_spec(self) -> Seq<char> {
        "<table.Content("@ + match self {
            ContentView::Text(t) => "\""@ + t + "\""@,
            ContentView::Splitter => "<Splitter>"@,
            ContentView::Empty => "<None>"@,
        } + ")>"@
    }
}

impl Content {
    pub fn repr(&self) -> (r: String)
        ensures
            r@ == self@.repr_spec(),
    {
        let mut r = String::from_str("<table.Content(");
        match self {
            Content::Text(t) => {
                r.append("\"");
                r.append(t.as_str());
                r.append("\"");
            },
            Content::Splitter => r.append("<Splitter>"),
            Content::Empty => r.append("<None>"),
        }
        r.append(")>");
        assert(r@ =~= self@.repr_spec());
        r
    }

    /// Text content.
    pub fn new(c: String) -> (r: Content)
        ensures
            r@ == ContentView::Text(c@),
    {
        Content::Text(c)
    }

    /// The width the content asks for by itself.
    pub fn get_width(&self) -> (r: Option<usize>)
        ensures
            r == self@.width(),
    {
        match self {
            Content::Text(s) => Some(s.as_str().unicode_len()),
            _ => None,
        }
    }

    /// The rendering engine's form of this content.
    pub fn into_native(self) -> (r: NativeContent)
        ensures
            match self@ {
                ContentView::Text(s) => r matches NativeContent::Text(t) && t@ == s,
                ContentView::Splitter => r is Splitter,
                ContentView::Empty => r is None,
            },
    {
        match self {
            Content::Text(s) => NativeContent::Text(s),
            Content::Splitter => NativeContent::Splitter,
            Content::Empty => NativeContent::None,
        }
    }
}

impl Clone for Content {
    fn clone(&self) -> (r: Content)
        ensures
            r@ == self@,
    {
        match self {
            Content::Text(s) => Content::Text(s.clone()),
            Content::Splitter => Content::Splitter,
            Content::Empty => Content::Empty,
        }
    }
}

impl Default for Content {
    fn default() -> (r: Content)
        ensures
            r@ == ContentView::Empty,
    {
        Content::Empty
    }
}

/// Copies a formatter chain element by element.
fn copy_formatters(v: &Vec<Formatter>) -> (r: Vec<Formatter>)
    ensures
        r@ == v@,
{
    let mut r: Vec<Formatter> = Vec::new();
    let mut i: usize = 0;
    while i < v.len()
        invariant
            i <= v@.len(),
            r@ == v@.subrange(0, i as int),
        decreases v@.len() - i,
    {
        r.push(v[i]);
        i = i + 1;
    }
    assert(r@ =~= v@);
    r
}

/// One slot of a table: content, layout settings and a formatter chain.
pub struct Cell {
    pub content: Content,
    pub overflow: Overflow,
    /// The width of the cell; unset lets the column layout decide.
    pub width: Option<usize>,
    pub align: Align,
    pub padding: Padding,
    /// How many further columns to the right this cell covers.
    pub merge: Option<usize>,
    /// Transforms applied in order, each to what the earlier ones produced.
    pub formatter: Vec<Formatter>,
}

/// The mathematical value of a `Cell`.
pub struct CellView {
    pub content: ContentView,
    pub overflow: Overflow,
    pub width: Option<usize>,
    pub align: Align,
    pub padding: Padding,
    pub merge: Option<usize>,
    pub formatter: Seq<Formatter>,
}

impl View for Cell {
    type V = CellView;

    open spec fn view(&self) -> CellView {
        CellView {
            content: self.content@,
            overflow: self.overflow,
            width: self.width,
            align: self.align,
            padding: self.padding,
            merge: self.merge,
            formatter: self.formatter@,
        }
    }
}

/// A cell as freshly made: empty, left-aligned, no padding, no width, no
/// merge, no formatter, overflowing with an ellipsis.
pub open spec fn default_cell() -> CellView {
    CellView {
        content: ContentView::Empty,
        overflow: Overflow::Ellipsis,
        width: None,
        align: Align::Left,
        padding: Padding { left: 0, right: 0 },
        merge: None,
        formatter: Seq::empty(),
    }
}

/// The cell `c` with new content, its width reset to what that content asks for.
pub open spec fn with_content_spec(c: CellView, content: ContentView) -> CellView {
    CellView { content: content, width: content.width(), ..c }
}

/// The display forms of a formatter chain, separated by commas.
pub open spec fn formatters_repr(fs: Seq<Formatter>) -> Seq<char>
    decreases fs.len(),
{
    if fs.len() == 0 {
        Seq::empty()
    } else if fs.len() == 1 {
        fs[0].repr_spec()
    } else {
        formatters_repr(fs.drop_last()) + ","@ + fs.last().repr_spec()
    }
}

impl CellView {
    pub open spec fn repr_spec(self) -> Seq<char> {
        "<table.Cell(content="@ + self.content.repr_spec() + ", overflow="@ + self.overflow.repr_spec()
            + ", width="@ + option_text(self.width) + ", align="@ + self.align.repr_spec()
            + ", padding="@ + self.padding.repr_spec() + ", merge="@ + option_text(self.merge)
            + ", formatter=["@ + formatters_repr(self.formatter) + "])>"@
    }
}

impl Cell {
    pub fn repr(&self) -> (r: String)
        ensures
            r@ == self@.repr_spec(),
    {
        let mut r = String::from_str("<table.Cell(content=");
        r.append(self.content.repr().as_str());
        r.append(", overflow=");
        r.append(self.overflow.repr().as_str());
        r.append(", width=");
        push_option(&mut r, self.width);
        r.append(", align=");
        r.append(self.align.repr().as_str());
        r.append(", padding=");
        r.append(self.padding.repr().as_str());
        r.append(", merge=");
        push_option(&mut r, self.merge);
        r.append(", formatter=[");
        let ghost start = r@;
        let n = self.formatter.len();
        let mut i: usize = 0;
        while i < n
            invariant
                n == self.formatter@.len(),
                i <= n,
                r@ == start + formatters_repr(self.formatter@.subrange(0, i as int)),
            decreases n - i,
        {
            let ghost sub = self.formatter@.subrange(0, i + 1);
            assert(sub.drop_last() =~= self.formatter@.subrange(0, i as int));
            if i > 0 {
                r.append(",");
            } else {
                assert(self.formatter@.subrange(0, 0) =~= Seq::<Formatter>::empty());
            }
            r.append(self.formatter[i].repr().as_str());
            assert(r@ =~= start + formatters_repr(sub));
            i = i + 1;
        }
        assert(self.formatter@.subrange(0, n as int) =~= self.formatter@);
        r.append("])>");
        assert(r@ =~= self@.repr_spec());
        r
    }

    /// A default cell holding `c`.
    pub fn new(c: Content) -> (r: Cell)
        ensures
            r@ == with_content_spec(default_cell(), c@),
    {
        Cell::default().with_content(c)
    }

    /// Sets the content; the width becomes what the content asks for,
    /// whatever it was before.
    pub fn with_content(self, content: Content) -> (r: Cell)
        ensures
            r@ == with_content_spec(self@, content@),
    {
        let mut c = self;
        c.width = content.get_width();
        c.content = content;
        c
    }

    pub fn with_overflow(self, overflow: Overflow) -> (r: Cell)
        ensures
            r@ == (CellView { overflow: overflow, ..self@ }),
    {
        let mut c = self;
        c.overflow = overflow;
        c
    }

    pub fn with_width(self, width: Option<usize>) -> (r: Cell)
        ensures
            r@ == (CellView { width: width, ..self@ }),
    {
        let mut c = self;
        c.width = width;
        c
    }

    pub fn with_align(self, align: Align) -> (r: Cell)
        ensures
            r@ == (CellView { align: align, ..self@ }),
    {
        let mut c = self;
        c.align = align;
        c
    }

    pub fn with_padding(self, padding: Padding) -> (r: Cell)
        ensures
            r@ == (CellView { padding: padding, ..self@ }),
    {
        let mut c = self;
        c.padding = padding;
        c
    }

    pub fn with_merge(self, merge: Option<usize>) -> (r: Cell)
        ensures
            r@ == (CellView { merge: merge, ..self@ }),
    {
        let mut c = self;
        c.merge = merge;
        c
    }

    /// Replaces the formatter chain.
    pub fn with_formatter(self, formatter: Vec<Formatter>) -> (r: Cell)
        ensures
            r@ == (CellView { formatter: formatter@, ..self@ }),
    {
        let mut c = self;
        c.formatter = formatter;
        c
    }

    /// Extends the formatter chain at its end.
    pub fn append_formatter(&mut self, formatter: Vec<Formatter>)
        ensures
            final(self)@ == (CellView { formatter: old(self)@.formatter + formatter@, ..old(self)@ }),
    {
        let mut more = formatter;
        self.formatter.append(&mut more);
    }

    /// Extends the formatter chain at its end.
    pub fn with_appended_formatter(self, formatter: Vec<Formatter>) -> (r: Cell)
        ensures
            r@ == (CellView { formatter: self@.formatter + formatter@, ..self@ }),
    {
        let mut c = self;
        c.append_formatter(formatter);
        c
    }

    /// The rendering engine's form of this cell: the same content and
    /// settings, each formatter boxed as a transform.
    pub fn to_native(&self) -> (r: NativeCell)
        ensures
            engine::native_cell_view(r) == self@,
    {
        let mut fs: Vec<FormatterFunc> = Vec::new();
        let mut i: usize = 0;
        while i < self.formatter.len()
            invariant
                i <= self.formatter@.len(),
                fs@.len() == i,
                forall|k: int| 0 <= k < i ==> #[trigger] engine::boxed_transform(fs@[k]) == self.formatter@[k],
            decreases self.formatter@.len() - i,
        {
            fs.push(engine::boxed_formatter(self.formatter[i]));
            i = i + 1;
        }
        let r = engine::native_cell(
            self.content.clone().into_native(),
            self.align.to_native(),
            self.overflow.to_native(),
            self.width,
            self.padding.to_native(),
            self.merge,
            fs,
        );
        assert(engine::native_cell_formatters(r).map_values(|f: FormatterFunc| engine::boxed_transform(f)) =~= self.formatter@);
        r
    }

    pub fn native_set_overflow(&mut self, overflow: Overflow)
        ensures
            final(self)@ == (CellView { overflow: overflow, ..old(self)@ }),
    {
        self.overflow = overflow;
    }

    /// The cell spread over `span + 1` columns: a copy of this cell that
    /// merges the next `span` columns, with its width unset so the layout
    /// computes it over the whole span, followed by `span` default cells.
    pub fn with_span(&self, span: usize) -> (r: Vec<Cell>)
        requires
            span < usize::MAX,
        ensures
            r@.len() == span + 1,
            r@[0]@ == (CellView { merge: Some(span), width: None, ..self@ }),
            forall|i: int| 1 <= i <= span ==> #[trigger] r@[i]@ == default_cell(),
    {
        let first = self.clone().with_merge(Some(span)).with_width(None);
        let mut v: Vec<Cell> = Vec::new();
        v.push(first);
        let mut i: usize = 0;
        while i < span
            invariant
                i <= span,
                v@.len() == i + 1,
                v@[0]@ == (CellView { merge: Some(span), width: None, ..self@ }),
                forall|k: int| 1 <= k <= i ==> #[trigger] v@[k]@ == default_cell(),
            decreases span - i,
        {
            v.push(Cell::default());
            i = i + 1;
        }
        v
    }
}

impl Clone for Cell {
    fn clone(&self) -> (r: Cell)
        ensures
            r@ == self@,
    {
        Cell {
            content: self.content.clone(),
            overflow: self.overflow,
            width: self.width,
            align: self.align,
            padding: self.padding,
            merge: self.merge,
            formatter: copy_formatters(&self.formatter),
        }
    }
}

impl Default for Cell {
    fn default() -> (r: Cell)
        ensures
            r@ == default_cell(),
    {
        Cell {
            content: Content::Empty,
            overflow: Overflow::Ellipsis,
            width: None,
            align: Align::Left,
            padding: Padding { left: 0, right: 0 },
            merge: None,
            formatter: Vec::new(),
        }
    }
}

/// The views of a row of cells.
pub open spec fn row_view(row: Seq<Cell>) -> Seq<CellView> {
    row.map_values(|c: Cell| c@)
}

/// The views of rows of cells.
pub open spec fn rows_view(rows: Seq<Vec<Cell>>) -> Seq<Seq<CellView>> {
    rows.map_values(|r: Vec<Cell>| row_view(r@))
}

/// A header cell as the header-and-body constructor makes it: bold added at
/// the end of its chain.
pub open spec fn bold_cell(c: CellView) -> CellView {
    CellView { formatter: c.formatter.push(Formatter::Bold), ..c }
}

/// A cell of the synthetic rule row under a header.
pub open spec fn splitter_cell() -> CellView {
    CellView {
        content: ContentView::Splitter,
        formatter: seq![Formatter::Bold],
        ..default_cell()
    }
}

/// The rows a table is made of by its header-and-body constructor.
pub open spec fn created_rows(
    header: Seq<CellView>,
    body: Seq<Seq<CellView>>,
    splitter: bool,
) -> Seq<Seq<CellView>> {
    if splitter {
        seq![
            header.map_values(|c: CellView| bold_cell(c)),
            Seq::new(header.len(), |i: int| splitter_cell()),
        ] + body
    } else {
        seq![header.map_values(|c: CellView| bold_cell(c))] + body
    }
}

/// What the header-and-body constructor builds: the header's cells each with
/// bold added at the end of its chain; with a rule row, a row of bold rule
/// cells as wide as the header after it; then the body as given.
pub proof fn lemma_created_shape(header: Seq<CellView>, body: Seq<Seq<CellView>>, splitter: bool)
    ensures
        splitter ==> {
            let rows = created_rows(header, body, splitter);
            &&& rows.len() == 2 + body.len()
            &&& rows[0].len() == header.len()
            &&& rows[1].len() == header.len()
            &&& forall|j: int| 0 <= j < header.len() ==> {
                &&& #[trigger] rows[0][j].formatter == header[j].formatter.push(Formatter::Bold)
                &&& rows[0][j].formatter.last() == Formatter::Bold
                &&& rows[0][j].content == header[j].content
                }
            &&& forall|j: int| 0 <= j < header.len() ==> {
                &&& (#[trigger] rows[1][j]).content == ContentView::Splitter
                &&& rows[1][j].formatter == seq![Formatter::Bold]
                }
            &&& forall|k: int| 0 <= k < body.len() ==> #[trigger] rows[k + 2] == body[k]
        },
        !splitter ==> {
            let rows = created_rows(header, body, splitter);
            &&& rows.len() == 1 + body.len()
            &&& rows[0].len() == header.len()
            &&& forall|j: int| 0 <= j < header.len() ==> {
                &&& #[trigger] rows[0][j].formatter == header[j].formatter.push(Formatter::Bold)
                &&& rows[0][j].content == header[j].content
                }
            &&& forall|k: int| 0 <= k < body.len() ==> #[trigger] rows[k + 1] == body[k]
        },
{
}

/// The contents of rows of cells.
pub open spec fn contents_of(rows: Seq<Seq<CellView>>) -> Seq<Seq<ContentView>> {
    rows.map_values(|row: Seq<CellView>| row.map_values(|c: CellView| c.content))
}

/// The alignments of rows of cells.
pub open spec fn aligns_of(rows: Seq<Seq<CellView>>) -> Seq<Seq<Align>> {
    rows.map_values(|row: Seq<CellView>| row.map_values(|c: CellView| c.align))
}

/// The widest line the engine is asked to lay out, in columns. It keeps every
/// sum the engine makes of column widths, and the buffers it fills with rule
/// characters, within the machine's integers.
pub const MAX_LINE_WIDTH: usize = usize::MAX / 8;

/// The width a cell asks for, or 0.
pub open spec fn asked_width(row: Seq<CellView>, x: int) -> nat {
    if 0 <= x < row.len() {
        match row[x].width {
            Some(v) => v as nat,
            None => 0,
        }
    } else {
        0
    }
}

/// The width of column `x` over the first `n` rows: the widest width asked for.
pub open spec fn col_width(rows: Seq<Seq<CellView>>, x: int, n: int) -> nat
    decreases n,
{
    if n <= 0 {
        0
    } else {
        let w = col_width(rows, x, n - 1);
        let c = asked_width(rows[n - 1], x);
        if c > w {
            c
        } else {
            w
        }
    }
}

/// The width of column `x` over all rows.
pub open spec fn column(rows: Seq<Seq<CellView>>, x: int) -> nat {
    col_width(rows, x, rows.len() as int)
}

/// The columns before `w`, each with its two separator columns.
pub open spec fn line_width(rows: Seq<Seq<CellView>>, w: int) -> nat
    decreases w,
{
    if w <= 0 {
        0
    } else {
        line_width(rows, w - 1) + column(rows, w - 1) + 2
    }
}

/// The width a cell at column `x` that merges `m` more columns is laid out in.
pub open spec fn span_width(rows: Seq<Seq<CellView>>, x: int, m: int) -> nat
    decreases m,
{
    if m <= 0 {
        column(rows, x)
    } else {
        span_width(rows, x, m - 1) + column(rows, x + m) + 2
    }
}

/// A text cell laid out in `rw` columns has room for its padding, and for one
/// character when it overflows with an ellipsis.
pub open spec fn text_fits(c: CellView, rw: nat) -> bool {
    c.content is Text ==> rw >= c.padding.left + c.padding.right + (if c.overflow is Ellipsis { 1nat } else { 0nat })
}

/// Cell `x` of row `r` can be laid out: its merge stays in range of the
/// integers, and a text cell fits the width it is laid out in.
pub open spec fn cell_fits(rows: Seq<Seq<CellView>>, r: int, x: int) -> bool {
    let c = rows[r][x];
    match c.merge {
        Some(m) => x + m <= usize::MAX && (x + m < rows[0].len() ==> text_fits(c, span_width(rows, x, m as int))),
        None => text_fits(c, column(rows, x)),
    }
}

/// All rows as long as the first.
pub open spec fn even_rows(rows: Seq<Seq<CellView>>) -> bool {
    forall|r: int| 0 <= r < rows.len() ==> #[trigger] rows[r].len() == rows[0].len()
}

/// The engine can lay these rows out in its normal and raw modes without
/// failing inside: uneven rows it refuses by itself; even rows must stay
/// within the widest line and every cell must fit.
pub open spec fn layout_fits(rows: Seq<Seq<CellView>>) -> bool {
    rows.len() == 0 || !even_rows(rows) || (
        line_width(rows, rows[0].len() as int) + 2 <= MAX_LINE_WIDTH
        && forall|r: int, x: int| 0 <= r < rows.len() && 0 <= x < rows[r].len() ==> #[trigger] cell_fits(rows, r, x))
}

proof fn lemma_line_width_monotone(rows: Seq<Seq<CellView>>, a: int, b: int)
    requires
        0 <= a <= b,
    ensures
        line_width(rows, a) <= line_width(rows, b),
    decreases b - a,
{
    if a < b {
        lemma_line_width_monotone(rows, a, b - 1);
    }
}

proof fn lemma_span_within_line(rows: Seq<Seq<CellView>>, x: int, m: int)
    requires
        0 <= x,
        0 <= m,
    ensures
        span_width(rows, x, m) + line_width(rows, x) + 2 <= line_width(rows, x + m + 1),
    decreases m,
{
    if m > 0 {
        lemma_span_within_line(rows, x, m - 1);
    }
}

fn text_fits_in(c: &Cell, rw: usize) -> (b: bool)
    ensures
        b == text_fits(c@, rw as nat),
{
    match c.content {
        Content::Text(_) => {
            let e: usize = match c.overflow {
                Overflow::Ellipsis => 1,
                Overflow::Hidden => 0,
            };
            c.padding.left <= rw && c.padding.right <= rw - c.padding.left && e <= rw - c.padding.left - c.padding.right
        },
        _ => true,
    }
}

/// What a render returns, as values.
pub enum RenderView {
    Text(Seq<char>),
    Formatting(Seq<char>),
    Encoding,
    InvalidColorName(Seq<char>),
}

pub open spec fn render_view(r: Result<String, TablerError>) -> RenderView {
    match r {
        Ok(s) => RenderView::Text(s@),
        Err(TablerError::Formatting(e)) => RenderView::Formatting(e.message@),
        Err(TablerError::Encoding) => RenderView::Encoding,
        Err(TablerError::InvalidColorName(s)) => RenderView::InvalidColorName(s@),
    }
}

/// What a render returns for what the engine returned.
pub open spec fn finished(out: Result<Seq<u8>, Seq<char>>) -> RenderView {
    match out {
        Ok(b) => match engine::utf8_decoded(b) {
            Some(t) => RenderView::Text(t),
            None => RenderView::Encoding,
        },
        Err(m) => RenderView::Formatting(m),
    }
}

/// The message of the failure reported for a layout the engine cannot handle.
pub open spec fn layout_message() -> Seq<char> {
    "the table's layout does not fit: a cell's padding is wider than its column, or a line is too wide"@
}

/// Rendering a table in markdown mode gives the same result each time: the
/// result is fixed by the cells' contents and alignments.
pub proof fn lemma_markdown_render_deterministic(
    t: TableView,
    r1: Result<String, TablerError>,
    r2: Result<String, TablerError>,
)
    requires
        render_view(r1) == finished(engine::markdown_of(contents_of(t.rows), aligns_of(t.rows))),
        render_view(r2) == finished(engine::markdown_of(contents_of(t.rows), aligns_of(t.rows))),
    ensures
        render_view(r1) == render_view(r2),
{
}

/// A matrix of cells with a border.
pub struct Table {
    table: Vec<Vec<Cell>>,
    border: Border,
}

/// The mathematical value of a `Table`.
pub struct TableView {
    pub rows: Seq<Seq<CellView>>,
    pub border: Border,
}

impl View for Table {
    type V = TableView;

    closed spec fn view(&self) -> TableView {
        TableView { rows: rows_view(self.table@), border: self.border }
    }
}

impl Table {
    /// A table of the given rows, as they are, with no border.
    pub fn new(table: Vec<Vec<Cell>>) -> (r: Table)
        ensures
            r@.rows == rows_view(table@),
            r@.border == Border::none_spec(),
    {
        Table { table, border: Border::none() }
    }

    /// A table of a header row and body rows, with no border. The header's
    /// cells always get bold added to their chains; with `splitter`, a row of bold
    /// rule cells, one per header cell, follows the header. The body rows
    /// follow unchanged.
    pub fn create(header: Vec<Cell>, cell: Vec<Vec<Cell>>, splitter: bool) -> (r: Table)
        ensures
            r@.rows == created_rows(row_view(header@), rows_view(cell@), splitter),
            r@.border == Border::none_spec(),
    {
        let ghost hv = row_view(header@);
        let n = header.len();
        let mut head: Vec<Cell> = Vec::new();
        let mut rule: Vec<Cell> = Vec::new();
        let mut header = header;
        let mut i: usize = 0;
        while i < n
            invariant
                n == hv.len(),
                i <= n,
                head@.len() == i,
                splitter ==> rule@.len() == i,
                forall|k: int| 0 <= k < i ==> #[trigger] head@[k]@ == bold_cell(hv[k]),
                splitter ==> forall|k: int| 0 <= k < i ==> #[trigger] rule@[k]@ == splitter_cell(),
                header@.len() == n - i,
                forall|k: int| 0 <= k < n - i ==> #[trigger] header@[k]@ == hv[k + i],
            decreases n - i,
        {
            let ghost rest = header@;
            let c = header.remove(0);
            let mut b: Vec<Formatter> = Vec::new();
            b.push(Formatter::Bold);
            assert(c@ == hv[i as int]);
            assert(c@.formatter + b@ =~= c@.formatter.push(Formatter::Bold));
            head.push(c.with_appended_formatter(b));
            if splitter {
                let mut f: Vec<Formatter> = Vec::new();
                f.push(Formatter::Bold);
                rule.push(Cell::default().with_content(Content::Splitter).with_formatter(f));
            }
            proof {
                assert forall|k: int| 0 <= k < n - (i + 1) implies #[trigger] header@[k]@ == hv[k + i + 1] by {
                    assert(header@[k] == rest[k + 1]);
                }
            }
            i = i + 1;
        }
        assert(row_view(head@) =~= hv.map_values(|c: CellView| bold_cell(c)));
        let mut v: Vec<Vec<Cell>> = Vec::new();
        v.push(head);
        if splitter {
            assert(row_view(rule@) =~= Seq::new(hv.len(), |i: int| splitter_cell()));
            v.push(rule);
        }
        let mut body = cell;
        v.append(&mut body);
        let r = Table { table: v, border: Border::none() };
        assert(r@.rows =~= created_rows(hv, rows_view(cell@), splitter));
        r
    }

    pub open spec fn size_spec(v: TableView) -> Seq<char> {
        if v.rows.len() == 0 {
            "0x0"@
        } else {
            decimal(v.rows[0].len()) + "x"@ + decimal(v.rows.len())
        }
    }

    pub open spec fn repr_spec(v: TableView) -> Seq<char> {
        "<table.Table(border="@ + v.border.repr_spec() + ", size=("@ + Table::size_spec(v) + "))>"@
    }

    /// The border and the size, as columns of the first row by rows.
    pub fn repr(&self) -> (r: String)
        ensures
            r@ == Table::repr_spec(self@),
    {
        let mut r = String::from_str("<table.Table(border=");
        r.append(self.border.repr().as_str());
        r.append(", size=(");
        if self.table.len() == 0 {
            r.append("0x0");
        } else {
            push_decimal(&mut r, self.table[0].len());
            r.append("x");
            push_decimal(&mut r, self.table.len());
        }
        r.append("))>");
        assert(r@ =~= Table::repr_spec(self@));
        r
    }

    pub fn table(&self) -> (r: &Vec<Vec<Cell>>)
        ensures
            rows_view(r@) == self@.rows,
    {
        &self.table
    }

    pub fn border(&self) -> (r: Border)
        ensures
            r == self@.border,
    {
        self.border
    }

    /// Replaces the border.
    pub fn with_border(self, border: Border) -> (r: Table)
        ensures
            r@ == (TableView { border: border, ..self@ }),
    {
        let mut t = self;
        t.border = border;
        t
    }

    /// The rendering engine's form of this table: every row converted cell by
    /// cell, with the same border.
    pub fn to_native(&self) -> (r: NativeTable)
        ensures
            engine::native_rows_view(r) == self@.rows,
            engine::native_table_border(r) == self@.border.to_native_spec(),
    {
        let mut rows: Vec<Vec<NativeCell>> = Vec::new();
        let mut i: usize = 0;
        while i < self.table.len()
            invariant
                i <= self.table@.len(),
                rows@.len() == i,
                forall|k: int| 0 <= k < i ==> #[trigger] engine::native_row_view(rows@[k]@) == self@.rows[k],
            decreases self.table@.len() - i,
        {
            let mut row: Vec<NativeCell> = Vec::new();
            let mut j: usize = 0;
            while j < self.table[i].len()
                invariant
                    i < self.table@.len(),
                    j <= self.table@[i as int]@.len(),
                    row@.len() == j,
                    forall|l: int| 0 <= l < j ==> #[trigger] engine::native_cell_view(row@[l]) == self.table@[i as int]@[l]@,
                decreases self.table@[i as int]@.len() - j,
            {
                row.push(self.table[i][j].to_native());
                j = j + 1;
            }
            assert(engine::native_row_view(row@) =~= self@.rows[i as int]);
            rows.push(row);
            i = i + 1;
        }
        let r = engine::native_table(rows, self.border.to_native());
        assert(engine::native_rows_view(r) =~= self@.rows);
        r
    }

    /// Whether the engine can lay this table out in its normal and raw modes.
    pub fn fits_engine(&self) -> (r: bool)
        ensures
            r == layout_fits(self@.rows),
    {
        let ghost rows = self@.rows;
        let n = self.table.len();
        if n == 0 {
            return true;
        }
        let w = self.table[0].len();
        let mut r: usize = 0;
        while r < n
            invariant
                rows == self@.rows,
                n == rows.len(),
                0 < n,
                r <= n,
                w == rows[0].len(),
                forall|k: int| 0 <= k < r ==> #[trigger] rows[k].len() == w,
            decreases n - r,
        {
            if self.table[r].len() != w {
                assert(rows[r as int].len() != rows[0].len());
                return true;
            }
            r = r + 1;
        }
        assert(even_rows(rows));
        let mut widths: Vec<usize> = Vec::new();
        let mut x: usize = 0;
        while x < w
            invariant
                rows == self@.rows,
                n == rows.len(),
                0 < n,
                w == rows[0].len(),
                even_rows(rows),
                x <= w,
                widths@.len() == x,
                forall|k: int| 0 <= k < x ==> #[trigger] widths@[k] as nat == column(rows, k),
            decreases w - x,
        {
            let mut cw: usize = 0;
            let mut r: usize = 0;
            while r < n
                invariant
                    rows == self@.rows,
                rows == self@.rows,
                    n == rows.len(),
                    0 < n,
                    w == rows[0].len(),
                    even_rows(rows),
                    x < w,
                    r <= n,
                    cw as nat == col_width(rows, x as int, r as int),
                decreases n - r,
            {
                assert(rows[r as int].len() == w);
                match self.table[r][x].width {
                    Some(v) => {
                        if v > cw {
                            cw = v;
                        }
                    },
                    None => {},
                }
                r = r + 1;
            }
            widths.push(cw);
            x = x + 1;
        }
        let mut total: usize = 0;
        let mut x: usize = 0;
        while x < w
            invariant
                rows == self@.rows,
                n == rows.len(),
                0 < n,
                even_rows(rows),
                w == rows[0].len(),
                x <= w,
                widths@.len() == w,
                forall|k: int| 0 <= k < w ==> #[trigger] widths@[k] as nat == column(rows, k),
                total as nat == line_width(rows, x as int),
                total <= MAX_LINE_WIDTH,
            decreases w - x,
        {
            if widths[x] > MAX_LINE_WIDTH - total || MAX_LINE_WIDTH - total - widths[x] < 2 {
                proof {
                    lemma_line_width_monotone(rows, x + 1, w as int);
                }
                return false;
            }
            total = total + widths[x] + 2;
            x = x + 1;
        }
        if MAX_LINE_WIDTH - total < 2 {
            return false;
        }
        let mut r: usize = 0;
        while r < n
            invariant
                rows == self@.rows,
                n == rows.len(),
                0 < n,
                w == rows[0].len(),
                even_rows(rows),
                r <= n,
                widths@.len() == w,
                forall|k: int| 0 <= k < w ==> #[trigger] widths@[k] as nat == column(rows, k),
                total as nat == line_width(rows, w as int),
                total + 2 <= MAX_LINE_WIDTH,
                forall|k: int, y: int| 0 <= k < r && 0 <= y < rows[k].len() ==> #[trigger] cell_fits(rows, k, y),
            decreases n - r,
        {
            assert(rows[r as int].len() == w);
            let mut x: usize = 0;
            while x < w
                invariant
                    rows == self@.rows,
                rows == self@.rows,
                    n == rows.len(),
                    0 < n,
                    w == rows[0].len(),
                    even_rows(rows),
                    r < n,
                    x <= w,
                    rows[r as int].len() == w,
                    widths@.len() == w,
                    forall|k: int| 0 <= k < w ==> #[trigger] widths@[k] as nat == column(rows, k),
                    total as nat == line_width(rows, w as int),
                    total + 2 <= MAX_LINE_WIDTH,
                    forall|k: int, y: int| 0 <= k < r && 0 <= y < rows[k].len() ==> #[trigger] cell_fits(rows, k, y),
                    forall|y: int| 0 <= y < x ==> #[trigger] cell_fits(rows, r as int, y),
                decreases w - x,
            {
                let c = &self.table[r][x];
                assert(c@ == rows[r as int][x as int]);
                let mut laid: Option<usize> = None;
                match c.merge {
                    Some(m) => {
                        if m > usize::MAX - x {
                            assert(!cell_fits(rows, r as int, x as int));
                            return false;
                        }
                        if x + m < w {
                            let mut sw: usize = widths[x];
                            let mut k: usize = 1;
                            while k <= m
                                invariant
                                    rows == self@.rows,
                    rows == self@.rows,
                rows == self@.rows,
                                    x + m < w,
                                    1 <= k <= m + 1,
                                    widths@.len() == w,
                                    forall|j: int| 0 <= j < w ==> #[trigger] widths@[j] as nat == column(rows, j),
                                    total as nat == line_width(rows, w as int),
                                    total + 2 <= MAX_LINE_WIDTH,
                                    sw as nat == span_width(rows, x as int, k - 1),
                                decreases m + 1 - k,
                            {
                                proof {
                                    lemma_span_within_line(rows, x as int, k as int);
                                    lemma_line_width_monotone(rows, x + k + 1, w as int);
                                }
                                sw = sw + widths[x + k] + 2;
                                k = k + 1;
                            }
                            assert(sw as nat == span_width(rows, x as int, m as int));
                            laid = Some(sw);
                        }
                    },
                    None => {
                        laid = Some(widths[x]);
                    },
                }
                match laid {
                    Some(rw) => {
                        if !text_fits_in(c, rw) {
                            assert(!cell_fits(rows, r as int, x as int));
                            return false;
                        }
                    },
                    None => {},
                }
                x = x + 1;
            }
            r = r + 1;
        }
        true
    }

    /// Renders the table in the given mode: the engine's output as text, a
    /// formatting failure with the engine's message, or an encoding failure
    /// when the output is not valid UTF-8. In the normal and raw modes a
    /// layout the engine cannot handle is refused first, as a formatting
    /// failure. In markdown mode the result is fixed by the cells' contents
    /// and alignments. The table is left as it is.
    pub fn render(&self, setting: Renderer) -> (r: Result<String, TablerError>)
        ensures
            r is Ok || r matches Err(TablerError::Formatting(_)) || r matches Err(TablerError::Encoding),
            setting is Markdown ==> render_view(r) == finished(
                engine::markdown_of(contents_of(self@.rows), aligns_of(self@.rows)),
            ),
            !(setting is Markdown) && !layout_fits(self@.rows) ==> render_view(r) == RenderView::Formatting(
                layout_message(),
            ),
    {
        if !(matches!(setting, Renderer::Markdown)) && !self.fits_engine() {
            let m = String::from_str(
                "the table's layout does not fit: a cell's padding is wider than its column, or a line is too wide",
            );
            return Err(TablerError::Formatting(FormatterError::new(m)));
        }
        let native = self.to_native();
        Table::finish_render(engine::engine_render(&native, setting.to_native()))
    }

    /// What a render returns, given what the rendering engine returned: its
    /// bytes as text when they are valid UTF-8, an encoding failure when they
    /// are not, and a formatting failure with the engine's message when the
    /// engine failed.
    pub fn finish_render(out: Result<Vec<u8>, String>) -> (r: Result<String, TablerError>)
        ensures
            match out {
                Ok(b) => match engine::utf8_decoded(b@) {
                    Some(t) => r matches Ok(s) && s@ == t,
                    None => r matches Err(TablerError::Encoding),
                },
                Err(m) => r matches Err(TablerError::Formatting(e)) && e.message@ == m@,
            },
    {
        match out {
            Ok(bytes) => match engine::decode_utf8(bytes) {
                Some(s) => Ok(s),
                None => Err(TablerError::Encoding),
            },
            Err(m) => Err(TablerError::Formatting(FormatterError::new(m))),
        }
    }

    /// Sets the overflow of every cell in every row, leaving all else as it was.
    pub fn overwrite_overflow(&mut self, overflow: Overflow)
        ensures
            final(self)@.border == old(self)@.border,
            final(self)@.rows.len() == old(self)@.rows.len(),
            forall|i: int| 0 <= i < old(self)@.rows.len() ==> #[trigger] final(self)@.rows[i].len() == old(self)@.rows[i].len(),
            forall|i: int, j: int| 0 <= i < old(self)@.rows.len() && 0 <= j < old(self)@.rows[i].len()
                ==> #[trigger] final(self)@.rows[i][j] == (CellView { overflow: overflow, ..old(self)@.rows[i][j] }),
    {
        let ghost before = self@;
        let n = self.table.len();
        let mut i: usize = 0;
        while i < n
            invariant
                n == before.rows.len(),
                i <= n,
                self@.border == before.border,
                self@.rows.len() == n,
                forall|k: int| 0 <= k < n ==> #[trigger] self@.rows[k].len() == before.rows[k].len(),
                forall|k: int, j: int| 0 <= k < i && 0 <= j < before.rows[k].len()
                    ==> #[trigger] self@.rows[k][j] == (CellView { overflow: overflow, ..before.rows[k][j] }),
                forall|k: int, j: int| i <= k < n && 0 <= j < before.rows[k].len()
                    ==> #[trigger] self@.rows[k][j] == before.rows[k][j],
            decreases n - i,
        {
            let ghost mid = self.table@;
            let mut row: Vec<Cell> = Vec::new();
            std::mem::swap(&mut row, &mut self.table[i]);
            assert(row@ == mid[i as int]@);
            assert(rows_view(mid)[i as int] == row_view(row@));
            assert forall|l: int| 0 <= l < row@.len() implies #[trigger] row@[l]@ == before.rows[i as int][l] by {
                assert(row_view(row@)[l] == row@[l]@);
                assert(self@.rows == rows_view(self.table@));
            }
            let ghost emptied = self.table@;
            let m = row.len();
            let mut j: usize = 0;
            while j < m
                invariant
                    i < n,
                    n == before.rows.len(),
                    self.table@ == emptied,
                    m == row@.len(),
                    m == before.rows[i as int].len(),
                    j <= m,
                    forall|l: int| 0 <= l < j ==> #[trigger] row@[l]@ == (CellView { overflow: overflow, ..before.rows[i as int][l] }),
                    forall|l: int| j <= l < m ==> #[trigger] row@[l]@ == before.rows[i as int][l],
                decreases m - j,
            {
                row[j].native_set_overflow(overflow);
                j = j + 1;
            }
            std::mem::swap(&mut row, &mut self.table[i]);
            assert(self.table@ == mid.update(i as int, self.table@[i as int]));
            assert forall|k: int| 0 <= k < n && k != i implies #[trigger] self@.rows[k] == rows_view(mid)[k] by {
                assert(self.table@[k] == mid[k]);
            }
            i = i + 1;
        }
    }
}

} // verus!
