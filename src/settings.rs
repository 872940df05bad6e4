//! Cell and table settings: colors, formatters, alignment, overflow, padding,
//! borders and render modes.

use vstd::prelude::*;

use crate::errors::TablerError;
use crate::engine;
use crate::text::{bool_text, decimal, push_bool, push_decimal};

verus! {

/// The named colors.
#[derive(Clone, Copy, Debug, PartialEq, Eq, Structural)]
pub enum Color {
    Black,
    Red,
    Green,
    Yellow,
    Blue,
    Magenta,
    Purple,
    Cyan,
    White,
    BrightBlack,
    BrightRed,
    BrightGreen,
    BrightYellow,
    BrightBlue,
    BrightMagenta,
    BrightPurple,
    BrightCyan,
    BrightWhite,
}

/// ASCII lower-casing of one character.
pub open spec fn lower(c: char) -> char {
    if 'A' <= c && c <= 'Z' {
        ((c as u8) + 32) as char
    } else {
        c
    }
}

/// A color name with its spaces removed and ASCII letters lower-cased.
pub open spec fn normalize(s: Seq<char>) -> Seq<char>
    decreases s.len(),
{
    if s.len() == 0 {
        Seq::empty()
    } else if s.last() == ' ' {
        normalize(s.drop_last())
    } else {
        normalize(s.drop_last()).push(lower(s.last()))
    }
}

/// The color whose canonical name is `n`, if any.
pub open spec fn color_named(n: Seq<char>) -> Option<Color> {
    if n == "black"@ {
        Some(Color::Black)
    } else if n == "red"@ {
        Some(Color::Red)
    } else if n == "green"@ {
        Some(Color::Green)
    } else if n == "yellow"@ {
        Some(Color::Yellow)
    } else if n == "blue"@ {
        Some(Color::Blue)
    } else if n == "magenta"@ {
        Some(Color::Magenta)
    } else if n == "purple"@ {
        Some(Color::Purple)
    } else if n == "cyan"@ {
        Some(Color::Cyan)
    } else if n == "white"@ {
        Some(Color::White)
    } else if n == "brightblack"@ {
        Some(Color::BrightBlack)
    } else if n == "brightred"@ {
        Some(Color::BrightRed)
    } else if n == "brightgreen"@ {
        Some(Color::BrightGreen)
    } else if n == "brightyellow"@ {
        Some(Color::BrightYellow)
    } else if n == "brightblue"@ {
        Some(Color::BrightBlue)
    } else if n == "brightmagenta"@ {
        Some(Color::BrightMagenta)
    } else if n == "brightpurple"@ {
        Some(Color::BrightPurple)
    } else if n == "brightcyan"@ {
        Some(Color::BrightCyan)
    } else if n == "brightwhite"@ {
        Some(Color::BrightWhite)
    } else {
        None
    }
}

/// Lower-casing twice is lower-casing once, and it never makes a space.
proof fn lemma_lower(c: char)
    ensures
        lower(lower(c)) == lower(c),
        c != ' ' ==> lower(c) != ' ',
{
}

/// A name already normalized is left as it is.
proof fn lemma_normalize_idempotent(s: Seq<char>)
    ensures
        normalize(normalize(s)) == normalize(s),
    decreases s.len(),
{
    if s.len() > 0 {
        lemma_normalize_idempotent(s.drop_last());
        let n = normalize(s.drop_last());
        if s.last() != ' ' {
            lemma_lower(s.last());
            let m = n.push(lower(s.last()));
            assert(m.drop_last() =~= n);
        }
    }
}

/// Each color's canonical name looks up that color.
pub proof fn lemma_color_name_resolves(c: Color)
    ensures
        color_named(c.name()) == Some(c),
{
    reveal_strlit("black");
    reveal_strlit("red");
    reveal_strlit("green");
    reveal_strlit("yellow");
    reveal_strlit("blue");
    reveal_strlit("magenta");
    reveal_strlit("purple");
    reveal_strlit("cyan");
    reveal_strlit("white");
    reveal_strlit("brightblack");
    reveal_strlit("brightred");
    reveal_strlit("brightgreen");
    reveal_strlit("brightyellow");
    reveal_strlit("brightblue");
    reveal_strlit("brightmagenta");
    reveal_strlit("brightpurple");
    reveal_strlit("brightcyan");
    reveal_strlit("brightwhite");
    assert("black"@.len() == 5 && "black"@[0] == 'b');
    assert("red"@.len() == 3 && "red"@[0] == 'r');
    assert("green"@.len() == 5 && "green"@[0] == 'g');
    assert("yellow"@.len() == 6 && "yellow"@[0] == 'y');
    assert("blue"@.len() == 4 && "blue"@[0] == 'b');
    assert("magenta"@.len() == 7 && "magenta"@[0] == 'm' && "magenta"@[6] == 'a');
    assert("purple"@.len() == 6 && "purple"@[0] == 'p');
    assert("cyan"@.len() == 4 && "cyan"@[0] == 'c');
    assert("white"@.len() == 5 && "white"@[0] == 'w');
    assert("brightblack"@.len() == 11 && "brightblack"@[0] == 'b' && "brightblack"@[6] == 'b');
    assert("brightred"@.len() == 9 && "brightred"@[0] == 'b' && "brightred"@[6] == 'r');
    assert("brightgreen"@.len() == 11 && "brightgreen"@[0] == 'b' && "brightgreen"@[6] == 'g');
    assert("brightyellow"@.len() == 12 && "brightyellow"@[0] == 'b' && "brightyellow"@[6] == 'y');
    assert("brightblue"@.len() == 10 && "brightblue"@[0] == 'b' && "brightblue"@[6] == 'b');
    assert("brightmagenta"@.len() == 13 && "brightmagenta"@[0] == 'b' && "brightmagenta"@[6] == 'm');
    assert("brightpurple"@.len() == 12 && "brightpurple"@[0] == 'b' && "brightpurple"@[6] == 'p');
    assert("brightcyan"@.len() == 10 && "brightcyan"@[0] == 'b' && "brightcyan"@[6] == 'c');
    assert("brightwhite"@.len() == 11 && "brightwhite"@[0] == 'b' && "brightwhite"@[6] == 'w');
}

/// Color lookup ignores ASCII case and spaces: a name finds the same color
/// as its lower-case, space-free form, and a name whose form is a color's
/// canonical name finds that color.
pub proof fn lemma_color_lookup_normalizes(s: Seq<char>, c: Color)
    ensures
        color_named(normalize(normalize(s))) == color_named(normalize(s)),
        normalize(s) == c.name() ==> color_named(normalize(s)) == Some(c),
{
    lemma_normalize_idempotent(s);
    lemma_color_name_resolves(c);
}

fn lower_char(c: char) -> (r: char)
    ensures
        r == lower(c),
{
    if 'A' <= c && c <= 'Z' {
        ((c as u8) + 32) as char
    } else {
        c
    }
}

fn same_text(v: &Vec<char>, name: &str) -> (r: bool)
    ensures
        r == (v@ == name@),
{
    let n = name.unicode_len();
    if v.len() != n {
        return false;
    }
    let mut i: usize = 0;
    while i < n
        invariant
            n == name@.len(),
            v@.len() == n,
            i <= n,
            forall|j: int| 0 <= j < i ==> v@[j] == name@[j],
        decreases n - i,
    {
        if v[i] != name.get_char(i) {
            return false;
        }
        i = i + 1;
    }
    assert(v@ =~= name@);
    true
}

impl Color {
    /// The canonical name: lower case, without spaces.
    pub open spec fn name(self) -> Seq<char> {
        match self {
            Color::Black => "black"@,
            Color::Red => "red"@,
            Color::Green => "green"@,
            Color::Yellow => "yellow"@,
            Color::Blue => "blue"@,
            Color::Magenta => "magenta"@,
            Color::Purple => "purple"@,
            Color::Cyan => "cyan"@,
            Color::White => "white"@,
            Color::BrightBlack => "brightblack"@,
            Color::BrightRed => "brightred"@,
            Color::BrightGreen => "brightgreen"@,
            Color::BrightYellow => "brightyellow"@,
            Color::BrightBlue => "brightblue"@,
            Color::BrightMagenta => "brightmagenta"@,
            Color::BrightPurple => "brightpurple"@,
            Color::BrightCyan => "brightcyan"@,
            Color::BrightWhite => "brightwhite"@,
        }
    }

    /// Looks a color up by name, ignoring ASCII case and spaces.
    pub fn from_color_name(s: String) -> (r: Result<Color, TablerError>)
        ensures
            match color_named(normalize(s@)) {
                Some(c) => r == Ok::<Color, TablerError>(c),
                None => r matches Err(TablerError::InvalidColorName(e)) && e@ == s@,
            },
    {
        let n = s.as_str().unicode_len();
        let mut v: Vec<char> = Vec::new();
        let mut i: usize = 0;
        while i < n
            invariant
                n == s@.len(),
                i <= n,
                v@ == normalize(s@.subrange(0, i as int)),
            decreases n - i,
        {
            let c = s.as_str().get_char(i);
            assert(s@.subrange(0, i + 1).drop_last() =~= s@.subrange(0, i as int));
            if c != ' ' {
                v.push(lower_char(c));
            }
            i = i + 1;
        }
        assert(s@.subrange(0, n as int) =~= s@);
        if same_text(&v, "black") {
            Ok(Color::Black)
        } else if same_text(&v, "red") {
            Ok(Color::Red)
        } else if same_text(&v, "green") {
            Ok(Color::Green)
        } else if same_text(&v, "yellow") {
            Ok(Color::Yellow)
        } else if same_text(&v, "blue") {
            Ok(Color::Blue)
        } else if same_text(&v, "magenta") {
            Ok(Color::Magenta)
        } else if same_text(&v, "purple") {
            Ok(Color::Purple)
        } else if same_text(&v, "cyan") {
            Ok(Color::Cyan)
        } else if same_text(&v, "white") {
            Ok(Color::White)
        } else if same_text(&v, "brightblack") {
            Ok(Color::BrightBlack)
        } else if same_text(&v, "brightred") {
            Ok(Color::BrightRed)
        } else if same_text(&v, "brightgreen") {
            Ok(Color::BrightGreen)
        } else if same_text(&v, "brightyellow") {
            Ok(Color::BrightYellow)
        } else if same_text(&v, "brightblue") {
            Ok(Color::BrightBlue)
        } else if same_text(&v, "brightmagenta") {
            Ok(Color::BrightMagenta)
        } else if same_text(&v, "brightpurple") {
            Ok(Color::BrightPurple)
        } else if same_text(&v, "brightcyan") {
            Ok(Color::BrightCyan)
        } else if same_text(&v, "brightwhite") {
            Ok(Color::BrightWhite)
        } else {
            Err(TablerError::InvalidColorName(s))
        }
    }
}

impl Color {
    /// The color of the terminal-coloring crate that draws this one; purple is
    /// drawn as magenta there.
    pub open spec fn colored_spec(self) -> colored::Color {
        match self {
            Color::Black => colored::Color::Black,
            Color::Red => colored::Color::Red,
            Color::Green => colored::Color::Green,
            Color::Yellow => colored::Color::Yellow,
            Color::Blue => colored::Color::Blue,
            Color::Magenta => colored::Color::Magenta,
            Color::Purple => colored::Color::Magenta,
            Color::Cyan => colored::Color::Cyan,
            Color::White => colored::Color::White,
            Color::BrightBlack => colored::Color::BrightBlack,
            Color::BrightRed => colored::Color::BrightRed,
            Color::BrightGreen => colored::Color::BrightGreen,
            Color::BrightYellow => colored::Color::BrightYellow,
            Color::BrightBlue => colored::Color::BrightBlue,
            Color::BrightMagenta => colored::Color::BrightMagenta,
            Color::BrightPurple => colored::Color::BrightMagenta,
            Color::BrightCyan => colored::Color::BrightCyan,
            Color::BrightWhite => colored::Color::BrightWhite,
        }
    }

    pub fn to_colored(self) -> (r: colored::Color)
        ensures
            r == self.colored_spec(),
    {
        match self {
            Color::Black => colored::Color::Black,
            Color::Red => colored::Color::Red,
            Color::Green => colored::Color::Green,
            Color::Yellow => colored::Color::Yellow,
            Color::Blue => colored::Color::Blue,
            Color::Magenta => colored::Color::Magenta,
            Color::Purple => colored::Color::Magenta,
            Color::Cyan => colored::Color::Cyan,
            Color::White => colored::Color::White,
            Color::BrightBlack => colored::Color::BrightBlack,
            Color::BrightRed => colored::Color::BrightRed,
            Color::BrightGreen => colored::Color::BrightGreen,
            Color::BrightYellow => colored::Color::BrightYellow,
            Color::BrightBlue => colored::Color::BrightBlue,
            Color::BrightMagenta => colored::Color::BrightMagenta,
            Color::BrightPurple => colored::Color::BrightMagenta,
            Color::BrightCyan => colored::Color::BrightCyan,
            Color::BrightWhite => colored::Color::BrightWhite,
        }
    }
}

impl Color {
    /// The display name, with a space after "bright".
    pub open spec fn label(self) -> Seq<char> {
        match self {
            Color::Black => "black"@,
            Color::Red => "red"@,
            Color::Green => "green"@,
            Color::Yellow => "yellow"@,
            Color::Blue => "blue"@,
            Color::Magenta => "magenta"@,
            Color::Purple => "purple"@,
            Color::Cyan => "cyan"@,
            Color::White => "white"@,
            Color::BrightBlack => "bright black"@,
            Color::BrightRed => "bright red"@,
            Color::BrightGreen => "bright green"@,
            Color::BrightYellow => "bright yellow"@,
            Color::BrightBlue => "bright blue"@,
            Color::BrightMagenta => "bright magenta"@,
            Color::BrightPurple => "bright purple"@,
            Color::BrightCyan => "bright cyan"@,
            Color::BrightWhite => "bright white"@,
        }
    }

    fn label_str(&self) -> (r: &'static str)
        ensures
            r@ == self.label(),
    {
        match self {
            Color::Black => "black",
            Color::Red => "red",
            Color::Green => "green",
            Color::Yellow => "yellow",
            Color::Blue => "blue",
            Color::Magenta => "magenta",
            Color::Purple => "purple",
            Color::Cyan => "cyan",
            Color::White => "white",
            Color::BrightBlack => "bright black",
            Color::BrightRed => "bright red",
            Color::BrightGreen => "bright green",
            Color::BrightYellow => "bright yellow",
            Color::BrightBlue => "bright blue",
            Color::BrightMagenta => "bright magenta",
            Color::BrightPurple => "bright purple",
            Color::BrightCyan => "bright cyan",
            Color::BrightWhite => "bright white",
        }
    }

    pub open spec fn repr_spec(self) -> Seq<char> {
        "<settings.Color("@ + self.label() + ")>"@
    }

    pub fn repr(&self) -> (r: String)
        ensures
            r@ == self.repr_spec(),
    {
        let mut r = String::from_str("<settings.Color(");
        r.append(self.label_str());
        r.append(")>");
        r
    }
}

/// A color a formatter paints with: a named one or a 24-bit one.
#[derive(Clone, Copy, Debug, PartialEq, Eq, Structural)]
pub enum Paint {
    Named(Color),
    TrueColor { r: u8, g: u8, b: u8 },
}

impl Paint {
    pub open spec fn colored_spec(self) -> colored::Color {
        match self {
            Paint::Named(c) => c.colored_spec(),
            Paint::TrueColor { r, g, b } => colored::Color::TrueColor { r, g, b },
        }
    }


    pub open spec fn repr_spec(self) -> Seq<char> {
        match self {
            Paint::Named(c) => c.repr_spec(),
            Paint::TrueColor { r, g, b } => "<TrueColor(r: "@ + decimal(r as nat) + ", g: "@
                + decimal(g as nat) + ", b: "@ + decimal(b as nat) + ")>"@,
        }
    }

    pub fn repr(&self) -> (s: String)
        ensures
            s@ == self.repr_spec(),
    {
        match *self {
            Paint::Named(c) => c.repr(),
            Paint::TrueColor { r, g, b } => {
                let mut s = String::from_str("<TrueColor(r: ");
                push_decimal(&mut s, r as usize);
                s.append(", g: ");
                push_decimal(&mut s, g as usize);
                s.append(", b: ");
                push_decimal(&mut s, b as usize);
                s.append(")>");
                s
            },
        }
    }

    pub fn to_colored(self) -> (r: colored::Color)
        ensures
            r == self.colored_spec(),
    {
        match self {
            Paint::Named(c) => c.to_colored(),
            Paint::TrueColor { r, g, b } => colored::Color::TrueColor { r, g, b },
        }
    }
}

/// A text transform: a named style, or a foreground or background color.
#[derive(Clone, Copy, Debug, PartialEq, Eq, Structural)]
pub enum Formatter {
    Color(Paint),
    OnColor(Paint),
    Clear,
    Normal,
    Bold,
    Dimmed,
    Italic,
    Underline,
    Blink,
    Reversed,
    Hidden,
    Strikethrough,
}

impl Formatter {
    /// Foreground in a named color.
    pub fn color(color: Color) -> (r: Formatter)
        ensures
            r == Formatter::Color(Paint::Named(color)),
    {
        Formatter::Color(Paint::Named(color))
    }

    /// Foreground in a 24-bit color.
    pub fn rbg_color(r: u8, g: u8, b: u8) -> (f: Formatter)
        ensures
            f == Formatter::Color(Paint::TrueColor { r, g, b }),
    {
        Formatter::Color(Paint::TrueColor { r, g, b })
    }

    /// Background in a named color.
    pub fn on_color(color: Color) -> (r: Formatter)
        ensures
            r == Formatter::OnColor(Paint::Named(color)),
    {
        Formatter::OnColor(Paint::Named(color))
    }

    /// Background in a 24-bit color.
    pub fn on_rbg_color(r: u8, g: u8, b: u8) -> (f: Formatter)
        ensures
            f == Formatter::OnColor(Paint::TrueColor { r, g, b }),
    {
        Formatter::OnColor(Paint::TrueColor { r, g, b })
    }

    /// The name of the transform, with its color where it has one.
    pub open spec fn inner_repr(self) -> Seq<char> {
        match self {
            Formatter::Color(p) => "Color("@ + p.repr_spec() + ")"@,
            Formatter::OnColor(p) => "OnColor("@ + p.repr_spec() + ")"@,
            Formatter::Clear => "Clear"@,
            Formatter::Normal => "Normal"@,
            Formatter::Bold => "Bold"@,
            Formatter::Dimmed => "Dimmed"@,
            Formatter::Italic => "Italic"@,
            Formatter::Underline => "Underline"@,
            Formatter::Blink => "Blink"@,
            Formatter::Reversed => "Reversed"@,
            Formatter::Hidden => "Hidden"@,
            Formatter::Strikethrough => "Strikethrough"@,
        }
    }

    pub open spec fn repr_spec(self) -> Seq<char> {
        "<settings.Formatter("@ + self.inner_repr() + ")>"@
    }

    pub fn repr(&self) -> (r: String)
        ensures
            r@ == self.repr_spec(),
    {
        let mut r = String::from_str("<settings.Formatter(");
        match *self {
            Formatter::Color(p) => {
                r.append("Color(");
                r.append(p.repr().as_str());
                r.append(")");
            },
            Formatter::OnColor(p) => {
                r.append("OnColor(");
                r.append(p.repr().as_str());
                r.append(")");
            },
            Formatter::Clear => r.append("Clear"),
            Formatter::Normal => r.append("Normal"),
            Formatter::Bold => r.append("Bold"),
            Formatter::Dimmed => r.append("Dimmed"),
            Formatter::Italic => r.append("Italic"),
            Formatter::Underline => r.append("Underline"),
            Formatter::Blink => r.append("Blink"),
            Formatter::Reversed => r.append("Reversed"),
            Formatter::Hidden => r.append("Hidden"),
            Formatter::Strikethrough => r.append("Strikethrough"),
        }
        r.append(")>");
        assert(r@ =~= self.repr_spec());
        r
    }

    /// Applies this transform to a styled string, wrapping what earlier
    /// transforms produced: a color sets the foreground or background and
    /// keeps the rest, a reset drops both colors, a style keeps text and colors.
    pub fn run(&self, s: colored::ColoredString) -> (r: colored::ColoredString)
        ensures
            r.input@ == s.input@,
            match *self {
                Formatter::Color(p) => r.fgcolor == Some(p.colored_spec()) && r.bgcolor == s.bgcolor
                    && r.style == s.style,
                Formatter::OnColor(p) => r.fgcolor == s.fgcolor && r.bgcolor == Some(p.colored_spec())
                    && r.style == s.style,
                Formatter::Clear | Formatter::Normal => r.fgcolor is None && r.bgcolor is None,
                _ => r.fgcolor == s.fgcolor && r.bgcolor == s.bgcolor,
            },
    {
        match *self {
            Formatter::Color(p) => engine::paint_fg(s, p.to_colored()),
            Formatter::OnColor(p) => engine::paint_bg(s, p.to_colored()),
            Formatter::Clear => engine::style_clear(s),
            Formatter::Normal => engine::style_normal(s),
            Formatter::Bold => engine::style_bold(s),
            Formatter::Dimmed => engine::style_dimmed(s),
            Formatter::Italic => engine::style_italic(s),
            Formatter::Underline => engine::style_underline(s),
            Formatter::Blink => engine::style_blink(s),
            Formatter::Reversed => engine::style_reversed(s),
            Formatter::Hidden => engine::style_hidden(s),
            Formatter::Strikethrough => engine::style_strikethrough(s),
        }
    }
}

/// Blank columns inside a cell, taken from its width.
#[derive(Clone, Copy, Debug, PartialEq, Eq, Structural)]
pub struct Padding {
    pub left: usize,
    pub right: usize,
}

impl Padding {
    pub fn new(left: usize, right: usize) -> (r: Padding)
        ensures
            r == (Padding { left, right }),
    {
        Padding { left, right }
    }

    pub open spec fn repr_spec(self) -> Seq<char> {
        "<settings.Padding(left: "@ + decimal(self.left as nat) + ", right: "@
            + decimal(self.right as nat) + ")>"@
    }

    pub fn repr(&self) -> (r: String)
        ensures
            r@ == self.repr_spec(),
    {
        let mut r = String::from_str("<settings.Padding(left: ");
        push_decimal(&mut r, self.left);
        r.append(", right: ");
        push_decimal(&mut r, self.right);
        r.append(")>");
        r
    }

    pub fn to_native(self) -> (r: table_formatter::table::Padding)
        ensures
            r == (table_formatter::table::Padding { left: self.left, right: self.right }),
    {
        table_formatter::table::Padding { left: self.left, right: self.right }
    }
}

impl Default for Padding {
    fn default() -> (r: Padding)
        ensures
            r == (Padding { left: 0, right: 0 }),
    {
        Padding { left: 0, right: 0 }
    }
}

/// Horizontal alignment of a cell's content.
#[derive(Clone, Copy, Debug, PartialEq, Eq, Structural)]
pub enum Align {
    Left,
    Right,
    Center,
}

impl Align {
    pub open spec fn repr_spec(self) -> Seq<char> {
        match self {
            Align::Left => "<settings.Align(Left)>"@,
            Align::Right => "<settings.Align(Right)>"@,
            Align::Center => "<settings.Align(Center)>"@,
        }
    }

    pub fn repr(&self) -> (r: String)
        ensures
            r@ == self.repr_spec(),
    {
        match self {
            Align::Left => String::from_str("<settings.Align(Left)>"),
            Align::Right => String::from_str("<settings.Align(Right)>"),
            Align::Center => String::from_str("<settings.Align(Center)>"),
        }
    }

    pub open spec fn native_spec(self) -> table_formatter::table::Align {
        match self {
            Align::Left => table_formatter::table::Align::Left,
            Align::Right => table_formatter::table::Align::Right,
            Align::Center => table_formatter::table::Align::Center,
        }
    }

    pub fn to_native(self) -> (r: table_formatter::table::Align)
        ensures
            r == self.native_spec(),
    {
        match self {
            Align::Left => table_formatter::table::Align::Left,
            Align::Right => table_formatter::table::Align::Right,
            Align::Center => table_formatter::table::Align::Center,
        }
    }
}

impl Default for Align {
    fn default() -> (r: Align)
        ensures
            r == Align::Left,
    {
        Align::Left
    }
}

/// What happens to content wider than its cell: clipped, or clipped with a
/// truncation marker.
#[derive(Clone, Copy, Debug, PartialEq, Eq, Structural)]
pub enum Overflow {
    Hidden,
    Ellipsis,
}

impl Overflow {
    pub open spec fn repr_spec(self) -> Seq<char> {
        match self {
            Overflow::Hidden => "<settings.Overflow(Hidden)>"@,
            Overflow::Ellipsis => "<settings.Overflow(Ellipsis)>"@,
        }
    }

    pub fn repr(&self) -> (r: String)
        ensures
            r@ == self.repr_spec(),
    {
        match self {
            Overflow::Hidden => String::from_str("<settings.Overflow(Hidden)>"),
            Overflow::Ellipsis => String::from_str("<settings.Overflow(Ellipsis)>"),
        }
    }

    pub open spec fn native_spec(self) -> table_formatter::table::Overflow {
        match self {
            Overflow::Hidden => table_formatter::table::Overflow::Hidden,
            Overflow::Ellipsis => table_formatter::table::Overflow::Ellipsis,
        }
    }

    pub fn to_native(self) -> (r: table_formatter::table::Overflow)
        ensures
            r == self.native_spec(),
    {
        match self {
            Overflow::Hidden => table_formatter::table::Overflow::Hidden,
            Overflow::Ellipsis => table_formatter::table::Overflow::Ellipsis,
        }
    }
}

impl Default for Overflow {
    fn default() -> (r: Overflow)
        ensures
            r == Overflow::Ellipsis,
    {
        Overflow::Ellipsis
    }
}

/// Which outer edges of a table get a border line.
#[derive(Clone, Copy, Debug, PartialEq, Eq, Structural)]
pub struct Border {
    pub left: bool,
    pub right: bool,
    pub top: bool,
    pub bottom: bool,
}

impl Border {
    pub fn new(left: bool, right: bool, top: bool, bottom: bool) -> (r: Border)
        ensures
            r == (Border { left, right, top, bottom }),
    {
        Border { left, right, top, bottom }
    }

    pub open spec fn none_spec() -> Border {
        Border { left: false, right: false, top: false, bottom: false }
    }

    /// No border at all.
    pub fn none() -> (r: Border)
        ensures
            r == Border::none_spec(),
            !r.left && !r.right && !r.top && !r.bottom,
    {
        Border::new(false, false, false, false)
    }

    /// Top and bottom lines only.
    pub fn horizontal() -> (r: Border)
        ensures
            !r.left && !r.right && r.top && r.bottom,
    {
        Border::new(false, false, true, true)
    }

    /// Left and right lines only.
    pub fn vertical() -> (r: Border)
        ensures
            r.left && r.right && !r.top && !r.bottom,
    {
        Border::new(true, true, false, false)
    }

    /// All four lines.
    pub fn all() -> (r: Border)
        ensures
            r.left && r.right && r.top && r.bottom,
    {
        Border::new(true, true, true, true)
    }

    pub open spec fn repr_spec(self) -> Seq<char> {
        "<settings.Border(l:"@ + bool_text(self.left) + ", r:"@ + bool_text(self.right) + ", t:"@
            + bool_text(self.top) + ", b:"@ + bool_text(self.bottom) + ")>"@
    }

    pub fn repr(&self) -> (r: String)
        ensures
            r@ == self.repr_spec(),
    {
        let mut r = String::from_str("<settings.Border(l:");
        push_bool(&mut r, self.left);
        r.append(", r:");
        push_bool(&mut r, self.right);
        r.append(", t:");
        push_bool(&mut r, self.top);
        r.append(", b:");
        push_bool(&mut r, self.bottom);
        r.append(")>");
        r
    }

    pub open spec fn to_native_spec(self) -> table_formatter::table::Border {
        table_formatter::table::Border {
            left: self.left,
            right: self.right,
            top: self.top,
            bottom: self.bottom,
        }
    }

    pub fn to_native(self) -> (r: table_formatter::table::Border)
        ensures
            r == self.to_native_spec(),
    {
        table_formatter::table::Border {
            left: self.left,
            right: self.right,
            top: self.top,
            bottom: self.bottom,
        }
    }
}

impl Default for Border {
    fn default() -> (r: Border)
        ensures
            !r.left && !r.right && !r.top && !r.bottom,
    {
        Border::none()
    }
}

/// Output mode: styled terminal text, plain text, or a markdown table.
#[derive(Clone, Copy, Debug, PartialEq, Eq, Structural)]
pub enum Renderer {
    Normal,
    Raw,
    Markdown,
}

impl Renderer {
    pub open spec fn repr_spec(self) -> Seq<char> {
        match self {
            Renderer::Normal => "<settings.Renderer(Normal)>"@,
            Renderer::Raw => "<settings.Renderer(Raw)>"@,
            Renderer::Markdown => "<settings.Renderer(Markdown)>"@,
        }
    }

    pub fn repr(&self) -> (r: String)
        ensures
            r@ == self.repr_spec(),
    {
        match self {
            Renderer::Normal => String::from_str("<settings.Renderer(Normal)>"),
            Renderer::Raw => String::from_str("<settings.Renderer(Raw)>"),
            Renderer::Markdown => String::from_str("<settings.Renderer(Markdown)>"),
        }
    }

    pub open spec fn native_spec(self) -> table_formatter::table::Renderer {
        match self {
            Renderer::Normal => table_formatter::table::Renderer::Normal,
            Renderer::Raw => table_formatter::table::Renderer::Raw,
            Renderer::Markdown => table_formatter::table::Renderer::Markdown,
        }
    }

    pub fn to_native(self) -> (r: table_formatter::table::Renderer)
        ensures
            r == self.native_spec(),
    {
        match self {
            Renderer::Normal => table_formatter::table::Renderer::Normal,
            Renderer::Raw => table_formatter::table::Renderer::Raw,
            Renderer::Markdown => table_formatter::table::Renderer::Markdown,
        }
    }
}

} // verus!
