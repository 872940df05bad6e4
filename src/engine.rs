//! The outside crates this library relies on: the rendering engine and the
//! terminal-coloring crate. The declarations, names and wrappers here are
//! trusted, not proved; the open spec functions only define views over them.

use colored::Color as TermColor;
use table_formatter::table::Align as NativeAlign;
use table_formatter::table::Border as NativeBorder;
use table_formatter::table::Content as NativeContent;
use table_formatter::table::Overflow as NativeOverflow;
use table_formatter::table::Padding as NativePadding;
use table_formatter::table::Renderer as NativeRenderer;
use table_formatter::table::Cell as NativeCell;
use table_formatter::table::FormatterFunc;
use table_formatter::table::Table as NativeTable;
use vstd::prelude::*;

use crate::settings::{Align, Formatter, Overflow, Padding};
use crate::table::{aligns_of, contents_of, layout_fits, CellView, ContentView};

verus! {

// Plain enums and structs of the two crates, with public fields: Verus reads
// their definitions, so verified code builds and compares them directly.
#[verifier::external_type_specification]
pub struct ExColoredColor(TermColor);

#[verifier::external_type_specification]
pub struct ExNativeAlign(NativeAlign);

#[verifier::external_type_specification]
pub struct ExNativeOverflow(NativeOverflow);

#[verifier::external_type_specification]
pub struct ExNativePadding(NativePadding);

#[verifier::external_type_specification]
pub struct ExNativeBorder(NativeBorder);

#[verifier::external_type_specification]
pub struct ExNativeRenderer(NativeRenderer);

#[verifier::external_type_specification]
pub struct ExNativeContent(NativeContent);

// A styled string of colored: its text and colors are public fields; the
// style set is opaque here.
#[verifier::external_type_specification]
pub struct ExColoredString(colored::ColoredString);

#[verifier::external_type_specification]
#[verifier::external_body]
pub struct ExColoredStyle(colored::Style);

/// Relies on colored's `Colorize::color`: sets the foreground color.
#[verifier::external_body]
pub(crate) fn paint_fg(s: colored::ColoredString, c: TermColor) -> (r: colored::ColoredString)
    ensures
        r.input@ == s.input@,
        r.fgcolor == Some(c),
        r.bgcolor == s.bgcolor,
        r.style == s.style,
{
    colored::Colorize::color(s, c)
}

/// Relies on colored's `Colorize::on_color`: sets the background color.
#[verifier::external_body]
pub(crate) fn paint_bg(s: colored::ColoredString, c: TermColor) -> (r: colored::ColoredString)
    ensures
        r.input@ == s.input@,
        r.fgcolor == s.fgcolor,
        r.bgcolor == Some(c),
        r.style == s.style,
{
    colored::Colorize::on_color(s, c)
}

/// Relies on colored's `Colorize::clear`: drops colors and styles.
#[verifier::external_body]
pub(crate) fn style_clear(s: colored::ColoredString) -> (r: colored::ColoredString)
    ensures
        r.input@ == s.input@,
        r.fgcolor is None,
        r.bgcolor is None,
{
    colored::Colorize::clear(s)
}

/// Relies on colored's `Colorize::normal`, which is `clear`: drops colors and styles.
#[verifier::external_body]
pub(crate) fn style_normal(s: colored::ColoredString) -> (r: colored::ColoredString)
    ensures
        r.input@ == s.input@,
        r.fgcolor is None,
        r.bgcolor is None,
{
    colored::Colorize::normal(s)
}

/// Relies on colored's `Colorize::bold`: adds that style, keeping text and colors.
#[verifier::external_body]
pub(crate) fn style_bold(s: colored::ColoredString) -> (r: colored::ColoredString)
    ensures
        r.input@ == s.input@,
        r.fgcolor == s.fgcolor,
        r.bgcolor == s.bgcolor,
{
    colored::Colorize::bold(s)
}

/// Relies on colored's `Colorize::dimmed`: adds that style, keeping text and colors.
#[verifier::external_body]
pub(crate) fn style_dimmed(s: colored::ColoredString) -> (r: colored::ColoredString)
    ensures
        r.input@ == s.input@,
        r.fgcolor == s.fgcolor,
        r.bgcolor == s.bgcolor,
{
    colored::Colorize::dimmed(s)
}

/// Relies on colored's `Colorize::italic`: adds that style, keeping text and colors.
#[verifier::external_body]
pub(crate) fn style_italic(s: colored::ColoredString) -> (r: colored::ColoredString)
    ensures
        r.input@ == s.input@,
        r.fgcolor == s.fgcolor,
        r.bgcolor == s.bgcolor,
{
    colored::Colorize::italic(s)
}

/// Relies on colored's `Colorize::underline`: adds that style, keeping text and colors.
#[verifier::external_body]
pub(crate) fn style_underline(s: colored::ColoredString) -> (r: colored::ColoredString)
    ensures
        r.input@ == s.input@,
        r.fgcolor == s.fgcolor,
        r.bgcolor == s.bgcolor,
{
    colored::Colorize::underline(s)
}

/// Relies on colored's `Colorize::blink`: adds that style, keeping text and colors.
#[verifier::external_body]
pub(crate) fn style_blink(s: colored::ColoredString) -> (r: colored::ColoredString)
    ensures
        r.input@ == s.input@,
        r.fgcolor == s.fgcolor,
        r.bgcolor == s.bgcolor,
{
    colored::Colorize::blink(s)
}

/// Relies on colored's `Colorize::reversed`: adds that style, keeping text and colors.
#[verifier::external_body]
pub(crate) fn style_reversed(s: colored::ColoredString) -> (r: colored::ColoredString)
    ensures
        r.input@ == s.input@,
        r.fgcolor == s.fgcolor,
        r.bgcolor == s.bgcolor,
{
    colored::Colorize::reversed(s)
}

/// Relies on colored's `Colorize::hidden`: adds that style, keeping text and colors.
#[verifier::external_body]
pub(crate) fn style_hidden(s: colored::ColoredString) -> (r: colored::ColoredString)
    ensures
        r.input@ == s.input@,
        r.fgcolor == s.fgcolor,
        r.bgcolor == s.bgcolor,
{
    colored::Colorize::hidden(s)
}

/// Relies on colored's `Colorize::strikethrough`: adds that style, keeping text and colors.
#[verifier::external_body]
pub(crate) fn style_strikethrough(s: colored::ColoredString) -> (r: colored::ColoredString)
    ensures
        r.input@ == s.input@,
        r.fgcolor == s.fgcolor,
        r.bgcolor == s.bgcolor,
{
    colored::Colorize::strikethrough(s)
}

// A cell and a table of the rendering engine; opaque here.
#[verifier::external_type_specification]
#[verifier::external_body]
pub struct ExNativeCell(NativeCell);

#[verifier::external_type_specification]
#[verifier::external_body]
pub struct ExNativeTable(NativeTable);

// A transform slot of the engine's cells; opaque here.
#[verifier::external_type_specification]
#[verifier::external_body]
pub struct ExFormatterFunc(FormatterFunc);

/// The transform that a boxed slot applies: the formatter it was made from.
pub uninterp spec fn boxed_transform(f: FormatterFunc) -> Formatter;

/// What the fields of an engine cell hold, as set by its `with_*` setters.
pub uninterp spec fn native_cell_content(c: NativeCell) -> NativeContent;

pub uninterp spec fn native_cell_align(c: NativeCell) -> NativeAlign;

pub uninterp spec fn native_cell_overflow(c: NativeCell) -> NativeOverflow;

pub uninterp spec fn native_cell_width(c: NativeCell) -> Option<usize>;

pub uninterp spec fn native_cell_padding(c: NativeCell) -> NativePadding;

pub uninterp spec fn native_cell_merge(c: NativeCell) -> Option<usize>;

pub uninterp spec fn native_cell_formatters(c: NativeCell) -> Seq<FormatterFunc>;

/// What the fields of an engine table hold: its rows and its border.
pub uninterp spec fn native_table_rows(t: NativeTable) -> Seq<Seq<NativeCell>>;

pub uninterp spec fn native_table_border(t: NativeTable) -> NativeBorder;

/// The markdown rendering of a table whose cells hold the given contents and
/// alignments: the output bytes, or the engine's error message.
pub uninterp spec fn markdown_of(
    contents: Seq<Seq<ContentView>>,
    aligns: Seq<Seq<Align>>,
) -> Result<Seq<u8>, Seq<char>>;

/// The library's view of an engine content.
pub open spec fn native_content_view(c: NativeContent) -> ContentView {
    match c {
        NativeContent::Text(s) => ContentView::Text(s@),
        NativeContent::Splitter => ContentView::Splitter,
        NativeContent::None => ContentView::Empty,
    }
}

/// The library's view of an engine cell.
pub open spec fn native_cell_view(c: NativeCell) -> CellView {
    CellView {
        content: native_content_view(native_cell_content(c)),
        overflow: match native_cell_overflow(c) {
            NativeOverflow::Hidden => Overflow::Hidden,
            NativeOverflow::Ellipsis => Overflow::Ellipsis,
        },
        width: native_cell_width(c),
        align: match native_cell_align(c) {
            NativeAlign::Left => Align::Left,
            NativeAlign::Right => Align::Right,
            NativeAlign::Center => Align::Center,
        },
        padding: Padding { left: native_cell_padding(c).left, right: native_cell_padding(c).right },
        merge: native_cell_merge(c),
        formatter: native_cell_formatters(c).map_values(|f: FormatterFunc| boxed_transform(f)),
    }
}

/// The library's view of a row of engine cells.
pub open spec fn native_row_view(row: Seq<NativeCell>) -> Seq<CellView> {
    row.map_values(|c: NativeCell| native_cell_view(c))
}

/// The library's view of an engine table's rows.
pub open spec fn native_rows_view(t: NativeTable) -> Seq<Seq<CellView>> {
    native_table_rows(t).map_values(|row: Seq<NativeCell>| native_row_view(row))
}

/// Relies on table_formatter's `FormatterFunc::Boxed`: the engine applies the
/// boxed transform, here `Formatter::run`, to the text of a rendered cell.
#[verifier::external_body]
pub(crate) fn boxed_formatter(f: Formatter) -> (r: FormatterFunc)
    ensures
        boxed_transform(r) == f,
{
    let b: Box<dyn Fn(colored::ColoredString) -> colored::ColoredString> = Box::new(move |s| f.run(s));
    let r: std::rc::Rc<Box<dyn Fn(colored::ColoredString) -> colored::ColoredString>> = b.into();
    FormatterFunc::Boxed(r)
}

/// Relies on table_formatter's `Cell::default` and its `with_*` setters, which
/// store each argument in the cell (`with_content` also sets the width, which
/// `with_width` then overwrites).
#[verifier::external_body]
pub(crate) fn native_cell(
    content: NativeContent,
    align: NativeAlign,
    overflow: NativeOverflow,
    width: Option<usize>,
    padding: NativePadding,
    merge: Option<usize>,
    formatter: Vec<FormatterFunc>,
) -> (r: NativeCell)
    ensures
        native_cell_content(r) == content,
        native_cell_align(r) == align,
        native_cell_overflow(r) == overflow,
        native_cell_width(r) == width,
        native_cell_padding(r) == padding,
        native_cell_merge(r) == merge,
        native_cell_formatters(r) == formatter@,
{
    NativeCell::default().with_content(content).with_align(align).with_overflow(overflow)
        .with_width(width).with_padding(padding).with_merge(merge).with_formatter(formatter)
}

/// Relies on table_formatter's `Table::new` and `Table::with_border`.
#[verifier::external_body]
pub(crate) fn native_table(rows: Vec<Vec<NativeCell>>, border: NativeBorder) -> (r: NativeTable)
    ensures
        native_table_rows(r) == rows@.map_values(|row: Vec<NativeCell>| row@),
        native_table_border(r) == border,
{
    NativeTable::new(rows).with_border(border)
}

/// Relies on table_formatter's `Table::rendered_by`, writing into a byte
/// buffer; a failure comes back as the engine's message. In markdown mode
/// the engine reads only the cells' contents and alignments and writes no
/// color codes; in the other modes the output depends on the environment
/// (colored reads it to decide on color codes), so nothing is stated of it.
/// The normal and raw modes panic on some layouts (a text cell whose padding
/// does not fit its column); `Table::render` checks for them first.
#[verifier::external_body]
pub(crate) fn engine_render(t: &NativeTable, mode: NativeRenderer) -> (r: Result<Vec<u8>, String>)
    requires
        mode is Markdown || layout_fits(native_rows_view(*t)),
    ensures
        mode is Markdown ==> match markdown_of(contents_of(native_rows_view(*t)), aligns_of(native_rows_view(*t))) {
            Ok(b) => r matches Ok(v) && v@ == b,
            Err(m) => r matches Err(e) && e@ == m,
        },
{
    let mut out = Vec::new();
    match t.rendered_by(mode, &mut out) {
        Ok(()) => Ok(out),
        Err(e) => Err(e.to_string()),
    }
}

/// The text that a byte sequence decodes to as UTF-8, if it is valid UTF-8.
pub uninterp spec fn utf8_decoded(b: Seq<u8>) -> Option<Seq<char>>;

/// Relies on `String::from_utf8`: succeeds exactly on valid UTF-8, with the
/// decoded text.
#[verifier::external_body]
pub(crate) fn decode_utf8(bytes: Vec<u8>) -> (r: Option<String>)
    ensures
        match utf8_decoded(bytes@) {
            Some(t) => r matches Some(s) && s@ == t,
            None => r is None,
        },
{
    match String::from_utf8(bytes) {
        Ok(s) => Some(s),
        Err(_) => None,
    }
}

} // verus!
