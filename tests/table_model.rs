use tabler::errors::TablerError;
use tabler::settings::{Align, Border, Color, Formatter, Overflow, Padding, Paint, Renderer};
use tabler::table::{Cell, Content, Table};

fn text_of(c: &Content) -> Option<String> {
    match c {
        Content::Text(s) => Some(s.clone()),
        _ => None,
    }
}

fn is_default_cell(c: &Cell) -> bool {
    matches!(c.content, Content::Empty)
        && c.overflow == Overflow::Ellipsis
        && c.width.is_none()
        && c.align == Align::Left
        && c.padding == Padding::new(0, 0)
        && c.merge.is_none()
        && c.formatter.is_empty()
}

#[test]
fn color_lookup_ignores_case_and_spaces() {
    assert_eq!(Color::from_color_name("Bright Red".to_string()).ok(), Some(Color::BrightRed));
    assert_eq!(Color::from_color_name("  RED ".to_string()).ok(), Some(Color::Red));
    assert_eq!(Color::from_color_name("brightred".to_string()).ok(), Some(Color::BrightRed));
    assert_eq!(Color::from_color_name("b r i g h t W h i t e".to_string()).ok(), Some(Color::BrightWhite));
    assert_eq!(Color::from_color_name("purple".to_string()).ok(), Some(Color::Purple));
    assert_eq!(Color::from_color_name("Bright Purple".to_string()).ok(), Some(Color::BrightPurple));
}

#[test]
fn color_lookup_all_names() {
    let all = [
        ("black", Color::Black),
        ("red", Color::Red),
        ("green", Color::Green),
        ("yellow", Color::Yellow),
        ("blue", Color::Blue),
        ("magenta", Color::Magenta),
        ("purple", Color::Purple),
        ("cyan", Color::Cyan),
        ("white", Color::White),
        ("bright black", Color::BrightBlack),
        ("bright red", Color::BrightRed),
        ("bright green", Color::BrightGreen),
        ("bright yellow", Color::BrightYellow),
        ("bright blue", Color::BrightBlue),
        ("bright magenta", Color::BrightMagenta),
        ("bright purple", Color::BrightPurple),
        ("bright cyan", Color::BrightCyan),
        ("bright white", Color::BrightWhite),
    ];
    for (name, color) in all {
        assert_eq!(Color::from_color_name(name.to_uppercase()).ok(), Some(color));
    }
}

#[test]
fn color_lookup_rejects_unknown_with_given_input() {
    match Color::from_color_name("Dark Orange".to_string()) {
        Err(TablerError::InvalidColorName(s)) => assert_eq!(s, "Dark Orange"),
        _ => panic!("expected an invalid color name"),
    }
    match Color::from_color_name(String::new()) {
        Err(TablerError::InvalidColorName(s)) => assert_eq!(s, ""),
        _ => panic!("expected an invalid color name"),
    }
    assert!(Color::from_color_name("bright".to_string()).is_err());
    assert!(Color::from_color_name("réd".to_string()).is_err());
}

#[test]
fn purple_is_drawn_as_magenta() {
    assert_eq!(Color::Purple.to_colored(), colored::Color::Magenta);
    assert_eq!(Color::BrightPurple.to_colored(), colored::Color::BrightMagenta);
    assert_eq!(Color::Cyan.to_colored(), colored::Color::Cyan);
    assert_eq!(
        Paint::TrueColor { r: 1, g: 2, b: 3 }.to_colored(),
        colored::Color::TrueColor { r: 1, g: 2, b: 3 }
    );
}

#[test]
fn formatter_constructors() {
    assert_eq!(Formatter::color(Color::Red), Formatter::Color(Paint::Named(Color::Red)));
    assert_eq!(Formatter::on_color(Color::Blue), Formatter::OnColor(Paint::Named(Color::Blue)));
    assert_eq!(Formatter::rbg_color(10, 20, 30), Formatter::Color(Paint::TrueColor { r: 10, g: 20, b: 30 }));
    assert_eq!(Formatter::on_rbg_color(1, 2, 3), Formatter::OnColor(Paint::TrueColor { r: 1, g: 2, b: 3 }));
}

#[test]
fn formatters_apply_in_order() {
    let s = colored::ColoredString::from("hi");
    let s = Formatter::color(Color::Purple).run(s);
    let s = Formatter::on_rbg_color(1, 2, 3).run(s);
    let s = Formatter::Bold.run(s);
    assert_eq!(s.fgcolor, Some(colored::Color::Magenta));
    assert_eq!(s.bgcolor, Some(colored::Color::TrueColor { r: 1, g: 2, b: 3 }));
    assert_eq!(s.input, "hi");
    let cleared = Formatter::Clear.run(s);
    assert_eq!(cleared.fgcolor, None);
    assert_eq!(cleared.bgcolor, None);
    assert_eq!(cleared.input, "hi");
}

#[test]
fn content_width() {
    assert_eq!(Content::new("hello".to_string()).get_width(), Some(5));
    assert_eq!(Content::new("héllo".to_string()).get_width(), Some(5));
    assert_eq!(Content::new(String::new()).get_width(), Some(0));
    assert_eq!(Content::Splitter.get_width(), None);
    assert_eq!(Content::Empty.get_width(), None);
}

#[test]
fn content_to_engine_form() {
    match Content::new("abc".to_string()).into_native() {
        table_formatter::table::Content::Text(s) => assert_eq!(s, "abc"),
        _ => panic!("expected text"),
    }
    assert!(matches!(Content::Splitter.into_native(), table_formatter::table::Content::Splitter));
    assert!(matches!(Content::Empty.into_native(), table_formatter::table::Content::None));
}

#[test]
fn assigning_content_resets_width() {
    let c = Cell::default().with_width(Some(42)).with_content(Content::new("hello".to_string()));
    assert_eq!(c.width, Some(5));
    assert_eq!(text_of(&c.content), Some("hello".to_string()));
    let c = c.with_width(Some(9)).with_content(Content::Splitter);
    assert_eq!(c.width, None);
    let c = c.with_width(Some(9)).with_content(Content::Empty);
    assert_eq!(c.width, None);
    let c = Cell::new(Content::new("abc".to_string()));
    assert_eq!(c.width, Some(3));
}

#[test]
fn builder_sets_each_field() {
    let c = Cell::default()
        .with_overflow(Overflow::Hidden)
        .with_align(Align::Center)
        .with_padding(Padding::new(1, 2))
        .with_merge(Some(3))
        .with_width(Some(7))
        .with_formatter(vec![Formatter::Italic]);
    assert_eq!(c.overflow, Overflow::Hidden);
    assert_eq!(c.align, Align::Center);
    assert_eq!(c.padding, Padding { left: 1, right: 2 });
    assert_eq!(c.merge, Some(3));
    assert_eq!(c.width, Some(7));
    assert_eq!(c.formatter, vec![Formatter::Italic]);
    let mut c = c.with_appended_formatter(vec![Formatter::Bold, Formatter::Underline]);
    assert_eq!(c.formatter, vec![Formatter::Italic, Formatter::Bold, Formatter::Underline]);
    c.append_formatter(vec![Formatter::Blink]);
    assert_eq!(c.formatter, vec![Formatter::Italic, Formatter::Bold, Formatter::Underline, Formatter::Blink]);
    c.append_formatter(vec![]);
    assert_eq!(c.formatter.len(), 4);
    let c = c.with_formatter(vec![]);
    assert!(c.formatter.is_empty());
}

#[test]
fn span_makes_placeholder_cells() {
    let c = Cell::new(Content::new("wide".to_string()))
        .with_align(Align::Right)
        .with_formatter(vec![Formatter::Bold]);
    let v = c.with_span(3);
    assert_eq!(v.len(), 4);
    assert_eq!(v[0].merge, Some(3));
    assert_eq!(v[0].width, None);
    assert_eq!(v[0].align, Align::Right);
    assert_eq!(v[0].formatter, vec![Formatter::Bold]);
    assert_eq!(text_of(&v[0].content), Some("wide".to_string()));
    for cell in &v[1..] {
        assert!(is_default_cell(cell));
    }
    // the spread cell itself is left as it was
    assert_eq!(c.width, Some(4));
    assert_eq!(c.merge, None);
}

#[test]
fn span_of_zero() {
    let v = Cell::default().with_width(Some(3)).with_span(0);
    assert_eq!(v.len(), 1);
    assert_eq!(v[0].merge, Some(0));
    assert_eq!(v[0].width, None);
}

fn header() -> Vec<Cell> {
    vec![
        Cell::new(Content::new("name".to_string())).with_formatter(vec![Formatter::Italic]),
        Cell::new(Content::new("value".to_string())),
    ]
}

fn body() -> Vec<Vec<Cell>> {
    vec![
        vec![Cell::new(Content::new("a".to_string())), Cell::new(Content::new("1".to_string()))],
        vec![Cell::new(Content::new("b".to_string())), Cell::new(Content::new("2".to_string()))],
        vec![Cell::new(Content::new("c".to_string())), Cell::new(Content::new("3".to_string()))],
    ]
}

#[test]
fn create_with_splitter() {
    let t = Table::create(header(), body(), true);
    let rows = t.table();
    assert_eq!(rows.len(), 5);
    assert_eq!(rows[0].len(), 2);
    assert_eq!(rows[0][0].formatter, vec![Formatter::Italic, Formatter::Bold]);
    assert_eq!(rows[0][1].formatter, vec![Formatter::Bold]);
    assert_eq!(text_of(&rows[0][1].content), Some("value".to_string()));
    assert_eq!(rows[1].len(), 2);
    for c in &rows[1] {
        assert!(matches!(c.content, Content::Splitter));
        assert_eq!(c.formatter, vec![Formatter::Bold]);
        assert_eq!(c.width, None);
    }
    assert_eq!(text_of(&rows[2][0].content), Some("a".to_string()));
    assert_eq!(text_of(&rows[4][1].content), Some("3".to_string()));
    assert!(rows[2][0].formatter.is_empty());
    assert_eq!(t.border(), Border::none());
}

#[test]
fn create_without_splitter() {
    let t = Table::create(header(), body(), false);
    let rows = t.table();
    assert_eq!(rows.len(), 4);
    assert_eq!(rows[0][0].formatter, vec![Formatter::Italic, Formatter::Bold]);
    assert_eq!(rows[0][1].formatter, vec![Formatter::Bold]);
    assert_eq!(text_of(&rows[0][0].content), Some("name".to_string()));
    assert_eq!(text_of(&rows[1][0].content), Some("a".to_string()));
    assert_eq!(t.border(), Border::none());
}

#[test]
fn create_with_empty_header_and_body() {
    let t = Table::create(vec![], vec![], true);
    assert_eq!(t.table().len(), 2);
    assert!(t.table()[0].is_empty());
    assert!(t.table()[1].is_empty());
    let t = Table::create(vec![], vec![], false);
    assert_eq!(t.table().len(), 1);
}

#[test]
fn new_table_keeps_rows() {
    let t = Table::new(body()).with_border(Border::all());
    assert_eq!(t.table().len(), 3);
    assert_eq!(text_of(&t.table()[1][1].content), Some("2".to_string()));
    assert_eq!(t.border(), Border::new(true, true, true, true));
    let t = Table::new(vec![]);
    assert!(t.table().is_empty());
    assert_eq!(t.border(), Border::default());
}

#[test]
fn overwrite_overflow_reaches_every_cell() {
    let mut rows = body();
    rows[0][0] = rows[0][0].clone().with_overflow(Overflow::Ellipsis).with_align(Align::Center);
    rows[1][1] = rows[1][1].clone().with_overflow(Overflow::Hidden);
    rows.push(vec![Cell::default()]);
    let mut t = Table::new(rows).with_border(Border::vertical());
    t.overwrite_overflow(Overflow::Hidden);
    for row in t.table() {
        for c in row {
            assert_eq!(c.overflow, Overflow::Hidden);
        }
    }
    assert_eq!(t.table()[0][0].align, Align::Center);
    assert_eq!(t.table()[3].len(), 1);
    assert_eq!(t.border(), Border::vertical());
    t.overwrite_overflow(Overflow::Ellipsis);
    assert!(t.table().iter().all(|r| r.iter().all(|c| c.overflow == Overflow::Ellipsis)));
}

#[test]
fn border_presets() {
    assert_eq!(Border::none(), Border { left: false, right: false, top: false, bottom: false });
    assert_eq!(Border::default(), Border::none());
    assert_eq!(Border::horizontal(), Border { left: false, right: false, top: true, bottom: true });
    assert_eq!(Border::vertical(), Border { left: true, right: true, top: false, bottom: false });
    assert_eq!(Border::all(), Border { left: true, right: true, top: true, bottom: true });
}

#[test]
fn settings_to_engine_form() {
    assert_eq!(Align::Center.to_native(), table_formatter::table::Align::Center);
    assert_eq!(Overflow::Hidden.to_native(), table_formatter::table::Overflow::Hidden);
    assert_eq!(Padding::new(2, 3).to_native(), table_formatter::table::Padding::new(2, 3));
    assert_eq!(Border::horizontal().to_native(), table_formatter::table::Border::HORIZONTAL);
    assert!(matches!(Renderer::Markdown.to_native(), table_formatter::table::Renderer::Markdown));
    assert!(matches!(Renderer::Raw.to_native(), table_formatter::table::Renderer::Raw));
}

#[test]
fn finish_render_maps_engine_outcomes() {
    match Table::finish_render(Ok("┃a┃\n".as_bytes().to_vec())) {
        Ok(s) => assert_eq!(s, "┃a┃\n"),
        _ => panic!("expected text"),
    }
    assert!(matches!(Table::finish_render(Ok(vec![0xff, 0xfe])), Err(TablerError::Encoding)));
    match Table::finish_render(Err("bad size".to_string())) {
        Err(TablerError::Formatting(e)) => assert_eq!(e.message, "bad size"),
        _ => panic!("expected a formatting failure"),
    }
}

#[test]
fn markdown_render_is_deterministic() {
    let t = Table::create(header(), body(), true);
    let a = t.render(Renderer::Markdown).ok().unwrap();
    let b = t.render(Renderer::Markdown).ok().unwrap();
    assert_eq!(a, b);
    assert!(a.starts_with("┃name┃value┃\n┃:--┃:--┃\n"));
}

#[test]
fn uneven_rows_fail_to_render() {
    let mut rows = body();
    rows[1].pop();
    let t = Table::new(rows);
    assert!(matches!(t.render(Renderer::Raw), Err(TablerError::Formatting(_))));
}

#[test]
fn setting_reprs() {
    assert_eq!(Color::BrightBlack.repr(), "<settings.Color(bright black)>");
    assert_eq!(Color::Red.repr(), "<settings.Color(red)>");
    assert_eq!(Formatter::Bold.repr(), "<settings.Formatter(Bold)>");
    assert_eq!(
        Formatter::color(Color::Cyan).repr(),
        "<settings.Formatter(Color(<settings.Color(cyan)>))>"
    );
    assert_eq!(
        Formatter::on_rbg_color(0, 128, 255).repr(),
        "<settings.Formatter(OnColor(<TrueColor(r: 0, g: 128, b: 255)>))>"
    );
    assert_eq!(Padding::new(3, 10).repr(), "<settings.Padding(left: 3, right: 10)>");
    assert_eq!(Align::Center.repr(), "<settings.Align(Center)>");
    assert_eq!(Overflow::Ellipsis.repr(), "<settings.Overflow(Ellipsis)>");
    assert_eq!(Renderer::Markdown.repr(), "<settings.Renderer(Markdown)>");
    assert_eq!(Border::horizontal().repr(), "<settings.Border(l:false, r:false, t:true, b:true)>");
}

#[test]
fn table_reprs() {
    assert_eq!(Content::new("hi".to_string()).repr(), "<table.Content(\"hi\")>");
    assert_eq!(Content::Splitter.repr(), "<table.Content(<Splitter>)>");
    assert_eq!(Content::Empty.repr(), "<table.Content(<None>)>");
    let c = Cell::new(Content::new("hello".to_string()))
        .with_merge(Some(12))
        .with_formatter(vec![Formatter::Bold, Formatter::Italic]);
    assert_eq!(
        c.repr(),
        "<table.Cell(content=<table.Content(\"hello\")>, overflow=<settings.Overflow(Ellipsis)>, \
         width=Some(5), align=<settings.Align(Left)>, padding=<settings.Padding(left: 0, right: 0)>, \
         merge=Some(12), formatter=[<settings.Formatter(Bold)>,<settings.Formatter(Italic)>])>"
    );
    assert_eq!(
        Cell::default().repr(),
        "<table.Cell(content=<table.Content(<None>)>, overflow=<settings.Overflow(Ellipsis)>, \
         width=None, align=<settings.Align(Left)>, padding=<settings.Padding(left: 0, right: 0)>, \
         merge=None, formatter=[])>"
    );
    let t = Table::create(header(), body(), true).with_border(Border::all());
    assert_eq!(t.repr(), "<table.Table(border=<settings.Border(l:true, r:true, t:true, b:true)>, size=(2x5))>");
    assert_eq!(
        Table::new(vec![]).repr(),
        "<table.Table(border=<settings.Border(l:false, r:false, t:false, b:false)>, size=(0x0))>"
    );
}

#[test]
fn styles_keep_text_and_colors() {
    let s = colored::ColoredString::from("x");
    let s = Formatter::on_color(Color::Green).run(s);
    let s = Formatter::rbg_color(7, 8, 9).run(s);
    for f in [
        Formatter::Bold,
        Formatter::Dimmed,
        Formatter::Italic,
        Formatter::Underline,
        Formatter::Blink,
        Formatter::Reversed,
        Formatter::Hidden,
        Formatter::Strikethrough,
    ] {
        let r = f.run(s.clone());
        assert_eq!(r.input, "x");
        assert_eq!(r.fgcolor, Some(colored::Color::TrueColor { r: 7, g: 8, b: 9 }));
        assert_eq!(r.bgcolor, Some(colored::Color::Green));
        assert_ne!(r.style, s.style);
    }
    let r = Formatter::Normal.run(s);
    assert_eq!(r.fgcolor, None);
    assert_eq!(r.bgcolor, None);
    assert_eq!(r.input, "x");
}

#[test]
fn raw_render_of_a_small_table() {
    let t = Table::create(header(), body(), false);
    let a = t.render(Renderer::Raw).ok().unwrap();
    assert!(a.contains("name"));
    assert!(a.contains("value"));
    assert_eq!(a.lines().count(), 4);
}

#[test]
fn padding_wider_than_column_is_refused() {
    let t = Table::new(vec![vec![Cell::new(Content::new("a".to_string())).with_padding(Padding::new(2, 0))]]);
    assert!(!t.fits_engine());
    match t.render(Renderer::Raw) {
        Err(TablerError::Formatting(e)) => assert!(e.message.contains("does not fit")),
        _ => panic!("expected a formatting failure"),
    }
    assert!(matches!(t.render(Renderer::Normal), Err(TablerError::Formatting(_))));
    // markdown ignores padding
    assert!(t.render(Renderer::Markdown).is_ok());
}

#[test]
fn layout_check_cases() {
    // an ellipsis cell needs one column, a hidden one none
    let empty_text = |o: Overflow| Table::new(vec![vec![Cell::new(Content::new(String::new())).with_overflow(o)]]);
    assert!(!empty_text(Overflow::Ellipsis).fits_engine());
    assert!(empty_text(Overflow::Hidden).fits_engine());
    assert!(empty_text(Overflow::Hidden).render(Renderer::Raw).is_ok());
    // padding that fits
    let t = Table::new(vec![vec![Cell::new(Content::new("abcd".to_string())).with_padding(Padding::new(1, 1))]]);
    assert!(t.fits_engine());
    assert!(t.render(Renderer::Raw).is_ok());
    // a merge whose offset would overflow
    let t = Table::new(vec![vec![Cell::default(), Cell::default().with_merge(Some(usize::MAX))]]);
    assert!(!t.fits_engine());
    // a spanned cell takes the width of the columns it covers
    let row = Cell::new(Content::new("x".to_string())).with_padding(Padding::new(2, 2)).with_span(2);
    let t = Table::new(vec![
        vec![
            Cell::new(Content::new("a".to_string())),
            Cell::new(Content::new("b".to_string())),
            Cell::new(Content::new("c".to_string())),
        ],
        row,
    ]);
    assert!(t.fits_engine());
    assert!(t.render(Renderer::Raw).is_ok());
    // uneven rows are left to the engine, which refuses them
    let t = Table::new(vec![vec![Cell::default()], vec![]]);
    assert!(t.fits_engine());
    assert!(matches!(t.render(Renderer::Raw), Err(TablerError::Formatting(_))));
    // an empty table
    assert!(Table::new(vec![]).fits_engine());
}
