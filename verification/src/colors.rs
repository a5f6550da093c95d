//! The resolved color scheme that renders the interface, and the value model
//! it is made of: colors, modifier sets, styles that layer with `patch`,
//! border line styles, per-side borders and glyph overrides, dialog placement
//! and the status-bar layout.

use vstd::prelude::*;
use crate::style::or_else;
use crate::strmap::Duplicate;
use crate::text::{eq_lit, parse_in, spec_parse_in, chars_of};

verus! {

// ── Color ────────────────────────────────────────────────────────────────────

/// A terminal color: one of the named ANSI colors, the terminal's own default
/// (`Reset`), a 24-bit RGB value or an index into the 256-color palette.
#[derive(Debug, Clone, Copy, PartialEq, Eq, Structural)]
pub enum Color {
    Reset,
    Black,
    Red,
    Green,
    Yellow,
    Blue,
    Magenta,
    Cyan,
    Gray,
    White,
    DarkGray,
    LightRed,
    LightGreen,
    LightYellow,
    LightBlue,
    LightMagenta,
    LightCyan,
    Rgb(u8, u8, u8),
    Indexed(u8),
}

/// The color a name stands for (`dark-gray`, `light-red`, …, `reset`).
pub open spec fn named_color(s: Seq<char>) -> Option<Color> {
    if s == "reset"@ {
        Some(Color::Reset)
    } else if s == "black"@ {
        Some(Color::Black)
    } else if s == "red"@ {
        Some(Color::Red)
    } else if s == "green"@ {
        Some(Color::Green)
    } else if s == "yellow"@ {
        Some(Color::Yellow)
    } else if s == "blue"@ {
        Some(Color::Blue)
    } else if s == "magenta"@ {
        Some(Color::Magenta)
    } else if s == "cyan"@ {
        Some(Color::Cyan)
    } else if s == "gray"@ {
        Some(Color::Gray)
    } else if s == "white"@ {
        Some(Color::White)
    } else if s == "dark-gray"@ {
        Some(Color::DarkGray)
    } else if s == "light-red"@ {
        Some(Color::LightRed)
    } else if s == "light-green"@ {
        Some(Color::LightGreen)
    } else if s == "light-yellow"@ {
        Some(Color::LightYellow)
    } else if s == "light-blue"@ {
        Some(Color::LightBlue)
    } else if s == "light-magenta"@ {
        Some(Color::LightMagenta)
    } else if s == "light-cyan"@ {
        Some(Color::LightCyan)
    } else {
        None
    }
}

fn named_color_of(s: &[char]) -> (r: Option<Color>)
    ensures
        r == named_color(s@),
{
    if eq_lit(s, "reset") {
        Some(Color::Reset)
    } else if eq_lit(s, "black") {
        Some(Color::Black)
    } else if eq_lit(s, "red") {
        Some(Color::Red)
    } else if eq_lit(s, "green") {
        Some(Color::Green)
    } else if eq_lit(s, "yellow") {
        Some(Color::Yellow)
    } else if eq_lit(s, "blue") {
        Some(Color::Blue)
    } else if eq_lit(s, "magenta") {
        Some(Color::Magenta)
    } else if eq_lit(s, "cyan") {
        Some(Color::Cyan)
    } else if eq_lit(s, "gray") {
        Some(Color::Gray)
    } else if eq_lit(s, "white") {
        Some(Color::White)
    } else if eq_lit(s, "dark-gray") {
        Some(Color::DarkGray)
    } else if eq_lit(s, "light-red") {
        Some(Color::LightRed)
    } else if eq_lit(s, "light-green") {
        Some(Color::LightGreen)
    } else if eq_lit(s, "light-yellow") {
        Some(Color::LightYellow)
    } else if eq_lit(s, "light-blue") {
        Some(Color::LightBlue)
    } else if eq_lit(s, "light-magenta") {
        Some(Color::LightMagenta)
    } else if eq_lit(s, "light-cyan") {
        Some(Color::LightCyan)
    } else {
        None
    }
}

/// The slot of a named ANSI color in a 16-color palette.
pub open spec fn ansi_slot(c: Color) -> Option<int> {
    match c {
        Color::Black => Some(0),
        Color::Red => Some(1),
        Color::Green => Some(2),
        Color::Yellow => Some(3),
        Color::Blue => Some(4),
        Color::Magenta => Some(5),
        Color::Cyan => Some(6),
        Color::Gray => Some(7),
        Color::DarkGray => Some(8),
        Color::LightRed => Some(9),
        Color::LightGreen => Some(10),
        Color::LightYellow => Some(11),
        Color::LightBlue => Some(12),
        Color::LightMagenta => Some(13),
        Color::LightCyan => Some(14),
        Color::White => Some(15),
        _ => None,
    }
}

fn ansi_slot_of(c: Color) -> (r: Option<usize>)
    ensures
        r matches Some(i) ==> ansi_slot(c) == Some(i as int),
        r is None <==> ansi_slot(c) is None,
{
    match c {
        Color::Black => Some(0),
        Color::Red => Some(1),
        Color::Green => Some(2),
        Color::Yellow => Some(3),
        Color::Blue => Some(4),
        Color::Magenta => Some(5),
        Color::Cyan => Some(6),
        Color::Gray => Some(7),
        Color::DarkGray => Some(8),
        Color::LightRed => Some(9),
        Color::LightGreen => Some(10),
        Color::LightYellow => Some(11),
        Color::LightBlue => Some(12),
        Color::LightMagenta => Some(13),
        Color::LightCyan => Some(14),
        Color::White => Some(15),
        _ => None,
    }
}

/// The value of a hexadecimal digit.
pub open spec fn hex_val(c: char) -> int {
    if '0' <= c && c <= '9' {
        c as int - '0' as int
    } else if 'a' <= c && c <= 'f' {
        c as int - 'a' as int + 10
    } else if 'A' <= c && c <= 'F' {
        c as int - 'A' as int + 10
    } else {
        -1
    }
}

/// `#rrggbb` with six hexadecimal digits.
pub open spec fn is_hex_color(s: Seq<char>) -> bool {
    s.len() == 7 && s[0] == '#' && forall|i: int| 1 <= i < 7 ==> hex_val(#[trigger] s[i]) >= 0
}

/// The byte written by the two hexadecimal digits at `i` and `i + 1`.
pub open spec fn hex_byte(s: Seq<char>, i: int) -> int {
    16 * hex_val(s[i]) + hex_val(s[i + 1])
}

fn hex_val_of(c: char) -> (r: u8)
    requires
        hex_val(c) >= 0,
    ensures
        r == hex_val(c),
{
    if '0' <= c && c <= '9' {
        (c as u32 - '0' as u32) as u8
    } else if 'a' <= c && c <= 'f' {
        (c as u32 - 'a' as u32 + 10) as u8
    } else {
        (c as u32 - 'A' as u32 + 10) as u8
    }
}

fn is_hex_digit(c: char) -> (r: bool)
    ensures
        r == (hex_val(c) >= 0),
{
    ('0' <= c && c <= '9') || ('a' <= c && c <= 'f') || ('A' <= c && c <= 'F')
}

/// A color theme's palette: entry `i` replaces ANSI color `i` (0 black … 15 white)
/// when the theme defines it.
#[derive(Debug, Clone, PartialEq)]
pub struct GhosttyScheme {
    pub palette: Vec<(u8, u8, u8)>,
}

impl Default for GhosttyScheme {
    /// The terminal's own colors: no palette.
    fn default() -> (r: GhosttyScheme)
        ensures
            r.palette@.len() == 0,
    {
        GhosttyScheme { palette: Vec::new() }
    }
}

/// A named color as the theme renders it.
pub open spec fn themed(c: Color, gs: GhosttyScheme) -> Color {
    match ansi_slot(c) {
        Some(i) => if i < gs.palette@.len() {
            Color::Rgb(gs.palette@[i].0, gs.palette@[i].1, gs.palette@[i].2)
        } else {
            c
        },
        None => c,
    }
}

/// What a color value in a style file means: `none` is no color; a color name
/// (through the theme's palette); `#rrggbb`; or a palette index 0–255.
pub open spec fn spec_parse_color_value(s: Seq<char>, gs: GhosttyScheme) -> Option<Color> {
    if s == "none"@ {
        None
    } else {
        match named_color(s) {
            Some(c) => Some(themed(c, gs)),
            None => if is_hex_color(s) {
                Some(Color::Rgb(hex_byte(s, 1) as u8, hex_byte(s, 3) as u8, hex_byte(s, 5) as u8))
            } else {
                match spec_parse_in(s, false, 0, 255) {
                    Some(n) => Some(Color::Indexed(n as u8)),
                    None => None,
                }
            },
        }
    }
}

/// Reads a color value from a style file.
pub fn parse_color_value(s: &str, gs: &GhosttyScheme) -> (r: Option<Color>)
    ensures
        r == spec_parse_color_value(s@, *gs),
{
    let v = chars_of(s);
    if eq_lit(&v, "none") {
        return None;
    }
    match named_color_of(&v) {
        Some(c) => {
            match ansi_slot_of(c) {
                Some(i) => {
                    if i < gs.palette.len() {
                        let (r, g, b) = gs.palette[i];
                        Some(Color::Rgb(r, g, b))
                    } else {
                        Some(c)
                    }
                },
                None => Some(c),
            }
        },
        None => {
            if v.len() == 7 && v[0] == '#' && is_hex_digit(v[1]) && is_hex_digit(v[2])
                && is_hex_digit(v[3]) && is_hex_digit(v[4]) && is_hex_digit(v[5]) && is_hex_digit(v[6]) {
                assert(is_hex_color(v@));
                let r = hex_val_of(v[1]) * 16 + hex_val_of(v[2]);
                let g = hex_val_of(v[3]) * 16 + hex_val_of(v[4]);
                let b = hex_val_of(v[5]) * 16 + hex_val_of(v[6]);
                Some(Color::Rgb(r, g, b))
            } else {
                proof {
                    if is_hex_color(v@) {
                        assert(hex_val(v@[1]) >= 0 && hex_val(v@[2]) >= 0 && hex_val(v@[3]) >= 0);
                        assert(hex_val(v@[4]) >= 0 && hex_val(v@[5]) >= 0 && hex_val(v@[6]) >= 0);
                    }
                }
                match parse_in(&v, false, 0, 255) {
                    Some(n) => Some(Color::Indexed(n as u8)),
                    None => None,
                }
            }
        },
    }
}

// ── Modifier, Style ──────────────────────────────────────────────────────────

/// A set of text modifiers.
#[derive(Debug, Clone, Copy, PartialEq, Eq, Structural)]
pub struct Modifier {
    pub bold: bool,
    pub dim: bool,
    pub italic: bool,
    pub underlined: bool,
    pub reversed: bool,
}

/// The empty modifier set.
pub open spec fn no_mods() -> Modifier {
    Modifier { bold: false, dim: false, italic: false, underlined: false, reversed: false }
}

/// `a` with every modifier of `b` added.
pub open spec fn mods_union(a: Modifier, b: Modifier) -> Modifier {
    Modifier { bold: a.bold || b.bold, dim: a.dim || b.dim, italic: a.italic || b.italic, underlined: a.underlined || b.underlined, reversed: a.reversed || b.reversed }
}

/// `a` without the modifiers of `b`.
pub open spec fn mods_minus(a: Modifier, b: Modifier) -> Modifier {
    Modifier { bold: a.bold && !b.bold, dim: a.dim && !b.dim, italic: a.italic && !b.italic, underlined: a.underlined && !b.underlined, reversed: a.reversed && !b.reversed }
}

/// Every modifier of `b` is in `a`.
pub open spec fn mods_contain(a: Modifier, b: Modifier) -> bool {
    (b.bold ==> a.bold) && (b.dim ==> a.dim) && (b.italic ==> a.italic) && (b.underlined ==> a.underlined) && (b.reversed ==> a.reversed)
}

impl Modifier {
    /// The empty set.
    pub fn empty() -> (r: Modifier)
        ensures
            r == no_mods(),
    {
        Modifier { bold: false, dim: false, italic: false, underlined: false, reversed: false }
    }

    /// The set holding only `bold`.
    pub fn bold_only() -> (r: Modifier)
        ensures
            r == (Modifier { bold: true, ..no_mods() }),
    {
        Modifier { bold: true, ..Modifier::empty() }
    }

    /// The set holding only `dim`.
    pub fn dim_only() -> (r: Modifier)
        ensures
            r == (Modifier { dim: true, ..no_mods() }),
    {
        Modifier { dim: true, ..Modifier::empty() }
    }

    /// The set holding only `italic`.
    pub fn italic_only() -> (r: Modifier)
        ensures
            r == (Modifier { italic: true, ..no_mods() }),
    {
        Modifier { italic: true, ..Modifier::empty() }
    }

    /// The set holding only `underlined`.
    pub fn underlined_only() -> (r: Modifier)
        ensures
            r == (Modifier { underlined: true, ..no_mods() }),
    {
        Modifier { underlined: true, ..Modifier::empty() }
    }

    /// The set holding only `reversed`.
    pub fn reversed_only() -> (r: Modifier)
        ensures
            r == (Modifier { reversed: true, ..no_mods() }),
    {
        Modifier { reversed: true, ..Modifier::empty() }
    }

    /// Whether every modifier of `other` is in this set.
    pub fn contains(&self, other: Modifier) -> (r: bool)
        ensures
            r == mods_contain(*self, other),
    {
        (!other.bold || self.bold) && (!other.dim || self.dim) && (!other.italic || self.italic) && (!other.underlined || self.underlined) && (!other.reversed || self.reversed)
    }

    fn union(self, other: Modifier) -> (r: Modifier)
        ensures
            r == mods_union(self, other),
    {
        Modifier { bold: self.bold || other.bold, dim: self.dim || other.dim, italic: self.italic || other.italic, underlined: self.underlined || other.underlined, reversed: self.reversed || other.reversed }
    }

    fn minus(self, other: Modifier) -> (r: Modifier)
        ensures
            r == mods_minus(self, other),
    {
        Modifier { bold: self.bold && !other.bold, dim: self.dim && !other.dim, italic: self.italic && !other.italic, underlined: self.underlined && !other.underlined, reversed: self.reversed && !other.reversed }
    }
}

/// Foreground and background colors (unset where `None`) with the modifiers a
/// style adds and those it removes.
#[derive(Debug, Clone, Copy, PartialEq, Eq, Structural)]
pub struct Style {
    pub fg: Option<Color>,
    pub bg: Option<Color>,
    pub add_modifier: Modifier,
    pub sub_modifier: Modifier,
}

/// The style that sets nothing.
pub open spec fn plain_style() -> Style {
    Style { fg: None, bg: None, add_modifier: no_mods(), sub_modifier: no_mods() }
}

/// `a` with `b` layered on top: `b`'s colors win where set; `b`'s added
/// modifiers are added and its removed ones removed.
pub open spec fn spec_patch(a: Style, b: Style) -> Style {
    Style {
        fg: or_else(b.fg, a.fg),
        bg: or_else(b.bg, a.bg),
        add_modifier: mods_union(mods_minus(a.add_modifier, b.sub_modifier), b.add_modifier),
        sub_modifier: mods_union(mods_minus(a.sub_modifier, b.add_modifier), b.sub_modifier),
    }
}

impl Style {
    /// The style that sets nothing.
    pub fn new() -> (r: Style)
        ensures
            r == plain_style(),
    {
        Style { fg: None, bg: None, add_modifier: Modifier::empty(), sub_modifier: Modifier::empty() }
    }

    /// This style with foreground `c`.
    pub fn fg(self, c: Color) -> (r: Style)
        ensures
            r == (Style { fg: Some(c), ..self }),
    {
        Style { fg: Some(c), ..self }
    }

    /// This style with background `c`.
    pub fn bg(self, c: Color) -> (r: Style)
        ensures
            r == (Style { bg: Some(c), ..self }),
    {
        Style { bg: Some(c), ..self }
    }

    /// This style with the modifiers `m` added (and no longer removed).
    pub fn add_modifier(self, m: Modifier) -> (r: Style)
        ensures
            r == (Style {
                add_modifier: mods_union(self.add_modifier, m),
                sub_modifier: mods_minus(self.sub_modifier, m),
                ..self
            }),
    {
        Style { add_modifier: self.add_modifier.union(m), sub_modifier: self.sub_modifier.minus(m), ..self }
    }

    /// `other` layered on top of this style.
    pub fn patch(self, other: Style) -> (r: Style)
        ensures
            r == spec_patch(self, other),
    {
        Style {
            fg: if other.fg.is_some() { other.fg } else { self.fg },
            bg: if other.bg.is_some() { other.bg } else { self.bg },
            add_modifier: self.add_modifier.minus(other.sub_modifier).union(other.add_modifier),
            sub_modifier: self.sub_modifier.minus(other.add_modifier).union(other.sub_modifier),
        }
    }
}

impl Default for Style {
    fn default() -> (r: Style)
        ensures
            r == plain_style(),
    {
        Style::new()
    }
}

// ── Borders ──────────────────────────────────────────────────────────────────

/// The line style of a pane border (or of one of its sides).
#[derive(Debug, Clone, Copy, PartialEq, Eq, Structural)]
pub enum BorderStyle {
    NoBorder,
    Single,
    Double,
    Thick,
    Rounded,
}

/// The line style a name stands for; anything unrecognized is no border.
pub open spec fn spec_parse_border_style(s: Seq<char>) -> BorderStyle {
    if s == "single"@ {
        BorderStyle::Single
    } else if s == "double"@ {
        BorderStyle::Double
    } else if s == "thick"@ {
        BorderStyle::Thick
    } else if s == "rounded"@ {
        BorderStyle::Rounded
    } else {
        BorderStyle::NoBorder
    }
}

/// Reads a border line style (`none` / `single` / `double` / `thick` / `rounded`).
pub fn parse_border_style(s: &str) -> (r: BorderStyle)
    ensures
        r == spec_parse_border_style(s@),
{
    let v = chars_of(s);
    if eq_lit(&v, "single") {
        BorderStyle::Single
    } else if eq_lit(&v, "double") {
        BorderStyle::Double
    } else if eq_lit(&v, "thick") {
        BorderStyle::Thick
    } else if eq_lit(&v, "rounded") {
        BorderStyle::Rounded
    } else {
        BorderStyle::NoBorder
    }
}

/// The name of a border line style.
pub open spec fn spec_border_style_name(b: BorderStyle) -> &'static str {
    match b {
        BorderStyle::NoBorder => "none",
        BorderStyle::Single => "single",
        BorderStyle::Double => "double",
        BorderStyle::Thick => "thick",
        BorderStyle::Rounded => "rounded",
    }
}

pub fn border_style_name(b: BorderStyle) -> (r: &'static str)
    ensures
        r == spec_border_style_name(b),
{
    match b {
        BorderStyle::NoBorder => "none",
        BorderStyle::Single => "single",
        BorderStyle::Double => "double",
        BorderStyle::Thick => "thick",
        BorderStyle::Rounded => "rounded",
    }
}

/// The line style of each side of a pane border.
#[derive(Debug, Clone, Copy, PartialEq, Eq, Structural)]
pub struct PaneSides {
    pub top: BorderStyle,
    pub bottom: BorderStyle,
    pub left: BorderStyle,
    pub right: BorderStyle,
}

impl PaneSides {
    /// Every side in style `b`.
    pub fn all(b: BorderStyle) -> (r: PaneSides)
        ensures
            r == (PaneSides { top: b, bottom: b, left: b, right: b }),
    {
        PaneSides { top: b, bottom: b, left: b, right: b }
    }
}

/// Glyph overrides for the sides and corners of a pane border.
#[derive(Debug, Clone, PartialEq)]
pub struct PaneGlyphs {
    pub top: Option<String>,
    pub bottom: Option<String>,
    pub left: Option<String>,
    pub right: Option<String>,
    pub tl: Option<String>,
    pub tr: Option<String>,
    pub bl: Option<String>,
    pub br: Option<String>,
}

/// No glyph overrides.
pub open spec fn no_glyphs() -> PaneGlyphs {
    PaneGlyphs { top: None, bottom: None, left: None, right: None, tl: None, tr: None, bl: None, br: None }
}

impl Default for PaneGlyphs {
    fn default() -> (r: PaneGlyphs)
        ensures
            r == no_glyphs(),
    {
        PaneGlyphs { top: None, bottom: None, left: None, right: None, tl: None, tr: None, bl: None, br: None }
    }
}

// ── Dialog placement, status bar ─────────────────────────────────────────────

/// Where dialogs are drawn on screen.
#[derive(Debug, Clone, Copy, PartialEq, Eq, Structural)]
pub enum DialogPlacement {
    Center,
    Top,
    Bottom,
    Left,
    Right,
    TopLeft,
    TopRight,
    BottomLeft,
    BottomRight,
}

pub open spec fn spec_placement_token(p: DialogPlacement) -> &'static str {
    match p {
        DialogPlacement::Center => "center",
        DialogPlacement::Top => "top",
        DialogPlacement::Bottom => "bottom",
        DialogPlacement::Left => "left",
        DialogPlacement::Right => "right",
        DialogPlacement::TopLeft => "top-left",
        DialogPlacement::TopRight => "top-right",
        DialogPlacement::BottomLeft => "bottom-left",
        DialogPlacement::BottomRight => "bottom-right",
    }
}

/// The placement a token names; an unknown token is `Center`.
pub open spec fn spec_placement_from_token(s: Seq<char>) -> DialogPlacement {
    if s == "top"@ {
        DialogPlacement::Top
    } else if s == "bottom"@ {
        DialogPlacement::Bottom
    } else if s == "left"@ {
        DialogPlacement::Left
    } else if s == "right"@ {
        DialogPlacement::Right
    } else if s == "top-left"@ {
        DialogPlacement::TopLeft
    } else if s == "top-right"@ {
        DialogPlacement::TopRight
    } else if s == "bottom-left"@ {
        DialogPlacement::BottomLeft
    } else if s == "bottom-right"@ {
        DialogPlacement::BottomRight
    } else {
        DialogPlacement::Center
    }
}

impl DialogPlacement {
    /// Reads a placement token.
    pub fn from_token(s: &str) -> (r: DialogPlacement)
        ensures
            r == spec_placement_from_token(s@),
    {
        let v = chars_of(s);
        if eq_lit(&v, "top") {
            DialogPlacement::Top
        } else if eq_lit(&v, "bottom") {
            DialogPlacement::Bottom
        } else if eq_lit(&v, "left") {
            DialogPlacement::Left
        } else if eq_lit(&v, "right") {
            DialogPlacement::Right
        } else if eq_lit(&v, "top-left") {
            DialogPlacement::TopLeft
        } else if eq_lit(&v, "top-right") {
            DialogPlacement::TopRight
        } else if eq_lit(&v, "bottom-left") {
            DialogPlacement::BottomLeft
        } else if eq_lit(&v, "bottom-right") {
            DialogPlacement::BottomRight
        } else {
            DialogPlacement::Center
        }
    }

    /// The token of this placement.
    pub fn as_token(self) -> (r: &'static str)
        ensures
            r == spec_placement_token(self),
    {
        match self {
            DialogPlacement::Center => "center",
            DialogPlacement::Top => "top",
            DialogPlacement::Bottom => "bottom",
            DialogPlacement::Left => "left",
            DialogPlacement::Right => "right",
            DialogPlacement::TopLeft => "top-left",
            DialogPlacement::TopRight => "top-right",
            DialogPlacement::BottomLeft => "bottom-left",
            DialogPlacement::BottomRight => "bottom-right",
        }
    }
}

/// The cluster a status-bar segment is drawn in.
#[derive(Debug, Clone, Copy, PartialEq, Eq, Structural)]
pub enum Align {
    Left,
    Center,
    Right,
}

pub open spec fn spec_align_str(a: Align) -> &'static str {
    match a {
        Align::Left => "left",
        Align::Center => "center",
        Align::Right => "right",
    }
}

impl Align {
    /// The name of this cluster.
    pub fn as_str(self) -> (r: &'static str)
        ensures
            r == spec_align_str(self),
    {
        match self {
            Align::Left => "left",
            Align::Center => "center",
            Align::Right => "right",
        }
    }
}

/// A compiled status-bar segment.
#[derive(Debug, Clone, PartialEq)]
pub struct StatusSegment {
    pub text: String,
    pub align: Align,
    pub style: Style,
}

/// The status-bar layout; with no segments the built-in bar is drawn.
#[derive(Debug, Clone, PartialEq)]
pub struct StatusBarLayout {
    pub segments: Vec<StatusSegment>,
}

impl Default for StatusBarLayout {
    fn default() -> (r: StatusBarLayout)
        ensures
            r.segments@.len() == 0,
    {
        StatusBarLayout { segments: Vec::new() }
    }
}

// ── Transcript rules ─────────────────────────────────────────────────────────

#[verifier::external_type_specification]
#[verifier::external_body]
pub struct ExRegex(regex::Regex);

/// A user transcript rule with its regular expression compiled.
#[derive(Debug)]
pub struct CompiledRule {
    pub pattern: String,
    pub regex: regex::Regex,
    pub style: Style,
}

impl PartialEq for CompiledRule {
    /// Rules are equal when their patterns and styles are.
    fn eq(&self, other: &Self) -> (r: bool) {
        self.pattern == other.pattern && self.style == other.style
    }
}

impl vstd::std_specs::cmp::PartialEqSpecImpl for CompiledRule {
    open spec fn obeys_eq_spec() -> bool {
        true
    }

    open spec fn eq_spec(&self, other: &Self) -> bool {
        self.pattern@ == other.pattern@ && self.style == other.style
    }
}

// ── ColorScheme ──────────────────────────────────────────────────────────────

/// Every style, border and layout setting that the interface is drawn with.
#[derive(Debug, PartialEq)]
pub struct ColorScheme {
    pub room_normal: Style,
    pub room_current: Style,
    pub room_selected: Style,
    pub connector: Style,
    pub connector_distorted: Style,
    pub portal_connector: Style,
    pub shared_path: Style,
    pub focused_border: Style,
    pub status_bar: Style,
    pub transcript: Style,
    pub transcript_input: Style,
    pub transcript_meta: Style,
    pub transcript_warning: Style,
    pub transcript_crash: Style,
    pub transcript_location: Style,
    pub transcript_system: Style,
    pub warning_marker: Style,
    pub suggestion: Style,
    pub input_text: Style,
    pub input_prompt: Style,
    pub scrollbar: Style,
    pub tidy_progress: Style,
    pub meta_marker: Style,
    pub hyperlink: Style,
    pub help_bar: Style,
    pub story_title: Style,
    pub inventory_dock: Style,
    pub story_info: Style,
    pub story_info_title: Style,
    pub story_info_label: Style,
    pub story_info_value: Style,
    pub story_info_blurb: Style,
    pub story_info_link: Style,
    pub story_info_cover: Style,
    pub story_badge: Style,
    pub story_header: Style,
    pub story_header_active: Style,
    pub story_author: Style,
    pub story_year: Style,
    pub story_no_metadata: Style,
    pub story_tile: Style,
    pub story_tile_selected: Style,
    pub graphics: Style,
    pub inline_image: Style,
    pub map_layer_tab: Style,
    pub map_layer_tab_active: Style,
    pub dialog_title: Style,
    pub hotkey_key: Style,
    pub dialog_button: Style,
    pub dialog_button_active: Style,
    pub dialog_shadow: Style,
    pub room_panel: Style,
    pub upper_window: Style,
    pub sound_beep_high: Style,
    pub sound_beep_low: Style,
    pub loc_indicator: Style,
    pub tile_wall: Style,
    pub tile_floor: Style,
    pub tile_corridor: Style,
    pub tile_door: Style,
    pub tile_bridge: Style,
    pub tile_stairs: Style,
    pub tile_chamber: Style,
    pub tile_shadow: Style,
    pub tile_player: Style,
    pub tile_room_number: Style,
    pub map_border: Style,
    pub story_border: Style,
    pub status_header: Style,
    pub input_line: Style,
    pub upper_window_border: Style,
    pub dialog: Style,
    pub suggestion_line_style: BorderStyle,
    pub suggestion_line_sides: PaneSides,
    pub suggestion_line_glyphs: PaneGlyphs,
    pub map_border_style: BorderStyle,
    pub map_border_sides: PaneSides,
    pub map_border_glyphs: PaneGlyphs,
    pub map_header_on: bool,
    pub story_border_style: BorderStyle,
    pub story_border_sides: PaneSides,
    pub story_border_glyphs: PaneGlyphs,
    pub story_header_on: bool,
    pub status_header_style: BorderStyle,
    pub status_header_sides: PaneSides,
    pub status_header_glyphs: PaneGlyphs,
    pub input_line_style: BorderStyle,
    pub input_line_sides: PaneSides,
    pub input_line_glyphs: PaneGlyphs,
    pub virtual_window_border: BorderStyle,
    pub upper_window_border_sides: PaneSides,
    pub upper_window_border_glyphs: PaneGlyphs,
    pub dialog_box_style: BorderStyle,
    pub dialog_shadow_on: bool,
    pub dialog_placement: DialogPlacement,
    pub dialog_margin: u16,
    pub dialog_glyphs: PaneGlyphs,
    /// User transcript rules, in file order.
    pub transcript_rules: Vec<CompiledRule>,
    pub statusbar_layout: StatusBarLayout,
}

/// A style from its colors and added modifiers.
pub open spec fn styled(fg: Option<Color>, bg: Option<Color>, m: Modifier) -> Style {
    Style { fg, bg, add_modifier: m, sub_modifier: no_mods() }
}

fn styled_of(fg: Option<Color>, bg: Option<Color>, m: Modifier) -> (r: Style)
    ensures
        r == styled(fg, bg, m),
{
    Style { fg, bg, add_modifier: m, sub_modifier: Modifier::empty() }
}

/// The scheme drawn on a terminal with its own colors, before any style file.
pub open spec fn is_terminal_default(cs: ColorScheme) -> bool {
    &&& cs.room_normal == styled(Some(Color::White), Some(Color::Reset), Modifier { bold: false, dim: false, italic: false, underlined: false, reversed: false })
    &&& cs.room_current == styled(None, None, Modifier { bold: false, dim: false, italic: false, underlined: false, reversed: true })
    &&& cs.room_selected == styled(Some(Color::Yellow), None, Modifier { bold: true, dim: false, italic: false, underlined: false, reversed: false })
    &&& cs.connector == styled(Some(Color::Cyan), None, Modifier { bold: false, dim: false, italic: false, underlined: false, reversed: false })
    &&& cs.connector_distorted == styled(Some(Color::Magenta), None, Modifier { bold: false, dim: false, italic: false, underlined: false, reversed: false })
    &&& cs.portal_connector == styled(Some(Color::Blue), None, Modifier { bold: false, dim: false, italic: false, underlined: false, reversed: false })
    &&& cs.shared_path == styled(Some(Color::Cyan), None, Modifier { bold: false, dim: true, italic: false, underlined: false, reversed: false })
    &&& cs.focused_border == styled(Some(Color::Cyan), None, Modifier { bold: true, dim: false, italic: false, underlined: false, reversed: false })
    &&& cs.status_bar == styled(None, None, Modifier { bold: false, dim: false, italic: false, underlined: false, reversed: true })
    &&& cs.transcript == styled(None, None, Modifier { bold: false, dim: false, italic: false, underlined: false, reversed: false })
    &&& cs.transcript_input == styled(Some(Color::Green), None, Modifier { bold: false, dim: false, italic: false, underlined: false, reversed: false })
    &&& cs.transcript_meta == styled(Some(Color::DarkGray), None, Modifier { bold: false, dim: false, italic: false, underlined: false, reversed: false })
    &&& cs.transcript_warning == styled(Some(Color::Yellow), None, Modifier { bold: false, dim: false, italic: false, underlined: false, reversed: false })
    &&& cs.transcript_crash == styled(Some(Color::Red), None, Modifier { bold: true, dim: false, italic: false, underlined: false, reversed: false })
    &&& cs.transcript_location == styled(None, None, Modifier { bold: true, dim: false, italic: false, underlined: false, reversed: false })
    &&& cs.transcript_system == styled(Some(Color::Cyan), None, Modifier { bold: false, dim: false, italic: false, underlined: false, reversed: false })
    &&& cs.warning_marker == styled(Some(Color::Yellow), None, Modifier { bold: false, dim: false, italic: false, underlined: false, reversed: false })
    &&& cs.suggestion == styled(Some(Color::DarkGray), None, Modifier { bold: false, dim: false, italic: false, underlined: false, reversed: false })
    &&& cs.input_text == styled(None, None, Modifier { bold: false, dim: false, italic: false, underlined: false, reversed: false })
    &&& cs.input_prompt == styled(None, None, Modifier { bold: false, dim: false, italic: false, underlined: false, reversed: false })
    &&& cs.scrollbar == styled(Some(Color::DarkGray), None, Modifier { bold: false, dim: false, italic: false, underlined: false, reversed: false })
    &&& cs.tidy_progress == styled(Some(Color::Yellow), None, Modifier { bold: false, dim: false, italic: false, underlined: false, reversed: false })
    &&& cs.meta_marker == styled(Some(Color::DarkGray), None, Modifier { bold: false, dim: false, italic: false, underlined: false, reversed: false })
    &&& cs.hyperlink == styled(Some(Color::Blue), None, Modifier { bold: false, dim: false, italic: false, underlined: true, reversed: false })
    &&& cs.help_bar == styled(Some(Color::DarkGray), None, Modifier { bold: false, dim: false, italic: false, underlined: false, reversed: false })
    &&& cs.story_title == styled(None, None, Modifier { bold: true, dim: false, italic: false, underlined: false, reversed: false })
    &&& cs.inventory_dock == styled(Some(Color::DarkGray), None, Modifier { bold: false, dim: false, italic: false, underlined: false, reversed: false })
    &&& cs.story_info == styled(None, None, Modifier { bold: false, dim: false, italic: false, underlined: false, reversed: false })
    &&& cs.story_info_title == styled(None, None, Modifier { bold: true, dim: false, italic: false, underlined: false, reversed: false })
    &&& cs.story_info_label == styled(Some(Color::DarkGray), None, Modifier { bold: false, dim: false, italic: false, underlined: false, reversed: false })
    &&& cs.story_info_value == styled(None, None, Modifier { bold: false, dim: false, italic: false, underlined: false, reversed: false })
    &&& cs.story_info_blurb == styled(None, None, Modifier { bold: false, dim: false, italic: true, underlined: false, reversed: false })
    &&& cs.story_info_link == styled(Some(Color::Blue), None, Modifier { bold: false, dim: false, italic: false, underlined: true, reversed: false })
    &&& cs.story_info_cover == styled(None, None, Modifier { bold: false, dim: false, italic: false, underlined: false, reversed: false })
    &&& cs.story_badge == styled(None, None, Modifier { bold: false, dim: false, italic: false, underlined: false, reversed: true })
    &&& cs.story_header == styled(None, None, Modifier { bold: true, dim: false, italic: false, underlined: false, reversed: false })
    &&& cs.story_header_active == styled(None, None, Modifier { bold: true, dim: false, italic: false, underlined: false, reversed: true })
    &&& cs.story_author == styled(None, None, Modifier { bold: false, dim: false, italic: false, underlined: false, reversed: false })
    &&& cs.story_year == styled(Some(Color::DarkGray), None, Modifier { bold: false, dim: false, italic: false, underlined: false, reversed: false })
    &&& cs.story_no_metadata == styled(Some(Color::DarkGray), None, Modifier { bold: false, dim: false, italic: true, underlined: false, reversed: false })
    &&& cs.story_tile == styled(None, None, Modifier { bold: false, dim: false, italic: false, underlined: false, reversed: false })
    &&& cs.story_tile_selected == styled(None, None, Modifier { bold: false, dim: false, italic: false, underlined: false, reversed: true })
    &&& cs.graphics == styled(None, None, Modifier { bold: false, dim: false, italic: false, underlined: false, reversed: false })
    &&& cs.inline_image == styled(None, None, Modifier { bold: false, dim: false, italic: false, underlined: false, reversed: false })
    &&& cs.map_layer_tab == styled(Some(Color::DarkGray), None, Modifier { bold: false, dim: false, italic: false, underlined: false, reversed: false })
    &&& cs.map_layer_tab_active == styled(None, None, Modifier { bold: true, dim: false, italic: false, underlined: false, reversed: false })
    &&& cs.dialog_title == styled(None, None, Modifier { bold: true, dim: false, italic: false, underlined: false, reversed: false })
    &&& cs.hotkey_key == styled(Some(Color::Yellow), None, Modifier { bold: true, dim: false, italic: false, underlined: false, reversed: false })
    &&& cs.dialog_button == styled(None, None, Modifier { bold: false, dim: false, italic: false, underlined: false, reversed: false })
    &&& cs.dialog_button_active == styled(None, None, Modifier { bold: false, dim: false, italic: false, underlined: false, reversed: true })
    &&& cs.dialog_shadow == styled(None, None, Modifier { bold: false, dim: false, italic: false, underlined: false, reversed: false })
    &&& cs.room_panel == styled(None, None, Modifier { bold: false, dim: false, italic: false, underlined: false, reversed: false })
    &&& cs.upper_window == styled(None, None, Modifier { bold: false, dim: false, italic: false, underlined: false, reversed: false })
    &&& cs.sound_beep_high == styled(Some(Color::Yellow), None, Modifier { bold: false, dim: false, italic: false, underlined: false, reversed: false })
    &&& cs.sound_beep_low == styled(Some(Color::Blue), None, Modifier { bold: false, dim: false, italic: false, underlined: false, reversed: false })
    &&& cs.loc_indicator == styled(Some(Color::DarkGray), None, Modifier { bold: false, dim: false, italic: false, underlined: false, reversed: false })
    &&& cs.tile_wall == styled(Some(Color::White), None, Modifier { bold: false, dim: false, italic: false, underlined: false, reversed: false })
    &&& cs.tile_floor == styled(Some(Color::DarkGray), None, Modifier { bold: false, dim: false, italic: false, underlined: false, reversed: false })
    &&& cs.tile_corridor == styled(Some(Color::Gray), None, Modifier { bold: false, dim: false, italic: false, underlined: false, reversed: false })
    &&& cs.tile_door == styled(Some(Color::Yellow), None, Modifier { bold: false, dim: false, italic: false, underlined: false, reversed: false })
    &&& cs.tile_bridge == styled(Some(Color::Yellow), None, Modifier { bold: false, dim: false, italic: false, underlined: false, reversed: false })
    &&& cs.tile_stairs == styled(Some(Color::White), None, Modifier { bold: false, dim: false, italic: false, underlined: false, reversed: false })
    &&& cs.tile_chamber == styled(Some(Color::DarkGray), None, Modifier { bold: false, dim: false, italic: false, underlined: false, reversed: false })
    &&& cs.tile_shadow == styled(Some(Color::DarkGray), None, Modifier { bold: false, dim: false, italic: false, underlined: false, reversed: false })
    &&& cs.tile_player == styled(Some(Color::Cyan), None, Modifier { bold: true, dim: false, italic: false, underlined: false, reversed: false })
    &&& cs.tile_room_number == styled(Some(Color::Gray), None, Modifier { bold: false, dim: false, italic: false, underlined: false, reversed: false })
    &&& cs.map_border == styled(None, None, Modifier { bold: false, dim: false, italic: false, underlined: false, reversed: false })
    &&& cs.story_border == styled(None, None, Modifier { bold: false, dim: false, italic: false, underlined: false, reversed: false })
    &&& cs.status_header == styled(None, None, Modifier { bold: false, dim: false, italic: false, underlined: false, reversed: false })
    &&& cs.input_line == styled(None, None, Modifier { bold: false, dim: false, italic: false, underlined: false, reversed: false })
    &&& cs.upper_window_border == styled(None, None, Modifier { bold: false, dim: false, italic: false, underlined: false, reversed: false })
    &&& cs.dialog == styled(None, None, Modifier { bold: false, dim: false, italic: false, underlined: false, reversed: false })
    &&& cs.suggestion_line_style == BorderStyle::Single
    &&& cs.suggestion_line_sides == (PaneSides { top: BorderStyle::Single, bottom: BorderStyle::Single, left: BorderStyle::Single, right: BorderStyle::Single })
    &&& cs.suggestion_line_glyphs == no_glyphs()
    &&& cs.map_border_style == BorderStyle::NoBorder
    &&& cs.map_border_sides == (PaneSides { top: BorderStyle::NoBorder, bottom: BorderStyle::NoBorder, left: BorderStyle::NoBorder, right: BorderStyle::NoBorder })
    &&& cs.map_border_glyphs == no_glyphs()
    &&& cs.map_header_on
    &&& cs.story_border_style == BorderStyle::NoBorder
    &&& cs.story_border_sides == (PaneSides { top: BorderStyle::NoBorder, bottom: BorderStyle::NoBorder, left: BorderStyle::NoBorder, right: BorderStyle::NoBorder })
    &&& cs.story_border_glyphs == no_glyphs()
    &&& cs.story_header_on
    &&& cs.status_header_style == BorderStyle::NoBorder
    &&& cs.status_header_sides == (PaneSides { top: BorderStyle::NoBorder, bottom: BorderStyle::NoBorder, left: BorderStyle::NoBorder, right: BorderStyle::NoBorder })
    &&& cs.status_header_glyphs == no_glyphs()
    &&& cs.input_line_style == BorderStyle::NoBorder
    &&& cs.input_line_sides == (PaneSides { top: BorderStyle::NoBorder, bottom: BorderStyle::NoBorder, left: BorderStyle::NoBorder, right: BorderStyle::NoBorder })
    &&& cs.input_line_glyphs == no_glyphs()
    &&& cs.virtual_window_border == BorderStyle::Single
    &&& cs.upper_window_border_sides == (PaneSides { top: BorderStyle::Single, bottom: BorderStyle::Single, left: BorderStyle::Single, right: BorderStyle::Single })
    &&& cs.upper_window_border_glyphs == no_glyphs()
    &&& cs.dialog_box_style == BorderStyle::Single
    &&& !cs.dialog_shadow_on
    &&& cs.dialog_placement == DialogPlacement::Center
    &&& cs.dialog_margin == 0
    &&& cs.dialog_glyphs == no_glyphs()
    &&& cs.transcript_rules@.len() == 0
    &&& cs.statusbar_layout.segments@.len() == 0
}

impl ColorScheme {
    /// The scheme for a terminal's own colors: no theme, single-line dialogs and
    /// upper-window border, unboxed panes.
    pub fn terminal_default() -> (r: ColorScheme)
        ensures
            is_terminal_default(r),
    {
        ColorScheme {
            room_normal: styled_of(Some(Color::White), Some(Color::Reset), Modifier { bold: false, dim: false, italic: false, underlined: false, reversed: false }),
            room_current: styled_of(None, None, Modifier { bold: false, dim: false, italic: false, underlined: false, reversed: true }),
            room_selected: styled_of(Some(Color::Yellow), None, Modifier { bold: true, dim: false, italic: false, underlined: false, reversed: false }),
            connector: styled_of(Some(Color::Cyan), None, Modifier { bold: false, dim: false, italic: false, underlined: false, reversed: false }),
            connector_distorted: styled_of(Some(Color::Magenta), None, Modifier { bold: false, dim: false, italic: false, underlined: false, reversed: false }),
            portal_connector: styled_of(Some(Color::Blue), None, Modifier { bold: false, dim: false, italic: false, underlined: false, reversed: false }),
            shared_path: styled_of(Some(Color::Cyan), None, Modifier { bold: false, dim: true, italic: false, underlined: false, reversed: false }),
            focused_border: styled_of(Some(Color::Cyan), None, Modifier { bold: true, dim: false, italic: false, underlined: false, reversed: false }),
            status_bar: styled_of(None, None, Modifier { bold: false, dim: false, italic: false, underlined: false, reversed: true }),
            transcript: styled_of(None, None, Modifier { bold: false, dim: false, italic: false, underlined: false, reversed: false }),
            transcript_input: styled_of(Some(Color::Green), None, Modifier { bold: false, dim: false, italic: false, underlined: false, reversed: false }),
            transcript_meta: styled_of(Some(Color::DarkGray), None, Modifier { bold: false, dim: false, italic: false, underlined: false, reversed: false }),
            transcript_warning: styled_of(Some(Color::Yellow), None, Modifier { bold: false, dim: false, italic: false, underlined: false, reversed: false }),
            transcript_crash: styled_of(Some(Color::Red), None, Modifier { bold: true, dim: false, italic: false, underlined: false, reversed: false }),
            transcript_location: styled_of(None, None, Modifier { bold: true, dim: false, italic: false, underlined: false, reversed: false }),
            transcript_system: styled_of(Some(Color::Cyan), None, Modifier { bold: false, dim: false, italic: false, underlined: false, reversed: false }),
            warning_marker: styled_of(Some(Color::Yellow), None, Modifier { bold: false, dim: false, italic: false, underlined: false, reversed: false }),
            suggestion: styled_of(Some(Color::DarkGray), None, Modifier { bold: false, dim: false, italic: false, underlined: false, reversed: false }),
            input_text: styled_of(None, None, Modifier { bold: false, dim: false, italic: false, underlined: false, reversed: false }),
            input_prompt: styled_of(None, None, Modifier { bold: false, dim: false, italic: false, underlined: false, reversed: false }),
            scrollbar: styled_of(Some(Color::DarkGray), None, Modifier { bold: false, dim: false, italic: false, underlined: false, reversed: false }),
            tidy_progress: styled_of(Some(Color::Yellow), None, Modifier { bold: false, dim: false, italic: false, underlined: false, reversed: false }),
            meta_marker: styled_of(Some(Color::DarkGray), None, Modifier { bold: false, dim: false, italic: false, underlined: false, reversed: false }),
            hyperlink: styled_of(Some(Color::Blue), None, Modifier { bold: false, dim: false, italic: false, underlined: true, reversed: false }),
            help_bar: styled_of(Some(Color::DarkGray), None, Modifier { bold: false, dim: false, italic: false, underlined: false, reversed: false }),
            story_title: styled_of(None, None, Modifier { bold: true, dim: false, italic: false, underlined: false, reversed: false }),
            inventory_dock: styled_of(Some(Color::DarkGray), None, Modifier { bold: false, dim: false, italic: false, underlined: false, reversed: false }),
            story_info: styled_of(None, None, Modifier { bold: false, dim: false, italic: false, underlined: false, reversed: false }),
            story_info_title: styled_of(None, None, Modifier { bold: true, dim: false, italic: false, underlined: false, reversed: false }),
            story_info_label: styled_of(Some(Color::DarkGray), None, Modifier { bold: false, dim: false, italic: false, underlined: false, reversed: false }),
            story_info_value: styled_of(None, None, Modifier { bold: false, dim: false, italic: false, underlined: false, reversed: false }),
            story_info_blurb: styled_of(None, None, Modifier { bold: false, dim: false, italic: true, underlined: false, reversed: false }),
            story_info_link: styled_of(Some(Color::Blue), None, Modifier { bold: false, dim: false, italic: false, underlined: true, reversed: false }),
            story_info_cover: styled_of(None, None, Modifier { bold: false, dim: false, italic: false, underlined: false, reversed: false }),
            story_badge: styled_of(None, None, Modifier { bold: false, dim: false, italic: false, underlined: false, reversed: true }),
            story_header: styled_of(None, None, Modifier { bold: true, dim: false, italic: false, underlined: false, reversed: false }),
            story_header_active: styled_of(None, None, Modifier { bold: true, dim: false, italic: false, underlined: false, reversed: true }),
            story_author: styled_of(None, None, Modifier { bold: false, dim: false, italic: false, underlined: false, reversed: false }),
            story_year: styled_of(Some(Color::DarkGray), None, Modifier { bold: false, dim: false, italic: false, underlined: false, reversed: false }),
            story_no_metadata: styled_of(Some(Color::DarkGray), None, Modifier { bold: false, dim: false, italic: true, underlined: false, reversed: false }),
            story_tile: styled_of(None, None, Modifier { bold: false, dim: false, italic: false, underlined: false, reversed: false }),
            story_tile_selected: styled_of(None, None, Modifier { bold: false, dim: false, italic: false, underlined: false, reversed: true }),
            graphics: styled_of(None, None, Modifier { bold: false, dim: false, italic: false, underlined: false, reversed: false }),
            inline_image: styled_of(None, None, Modifier { bold: false, dim: false, italic: false, underlined: false, reversed: false }),
            map_layer_tab: styled_of(Some(Color::DarkGray), None, Modifier { bold: false, dim: false, italic: false, underlined: false, reversed: false }),
            map_layer_tab_active: styled_of(None, None, Modifier { bold: true, dim: false, italic: false, underlined: false, reversed: false }),
            dialog_title: styled_of(None, None, Modifier { bold: true, dim: false, italic: false, underlined: false, reversed: false }),
            hotkey_key: styled_of(Some(Color::Yellow), None, Modifier { bold: true, dim: false, italic: false, underlined: false, reversed: false }),
            dialog_button: styled_of(None, None, Modifier { bold: false, dim: false, italic: false, underlined: false, reversed: false }),
            dialog_button_active: styled_of(None, None, Modifier { bold: false, dim: false, italic: false, underlined: false, reversed: true }),
            dialog_shadow: styled_of(None, None, Modifier { bold: false, dim: false, italic: false, underlined: false, reversed: false }),
            room_panel: styled_of(None, None, Modifier { bold: false, dim: false, italic: false, underlined: false, reversed: false }),
            upper_window: styled_of(None, None, Modifier { bold: false, dim: false, italic: false, underlined: false, reversed: false }),
            sound_beep_high: styled_of(Some(Color::Yellow), None, Modifier { bold: false, dim: false, italic: false, underlined: false, reversed: false }),
            sound_beep_low: styled_of(Some(Color::Blue), None, Modifier { bold: false, dim: false, italic: false, underlined: false, reversed: false }),
            loc_indicator: styled_of(Some(Color::DarkGray), None, Modifier { bold: false, dim: false, italic: false, underlined: false, reversed: false }),
            tile_wall: styled_of(Some(Color::White), None, Modifier { bold: false, dim: false, italic: false, underlined: false, reversed: false }),
            tile_floor: styled_of(Some(Color::DarkGray), None, Modifier { bold: false, dim: false, italic: false, underlined: false, reversed: false }),
            tile_corridor: styled_of(Some(Color::Gray), None, Modifier { bold: false, dim: false, italic: false, underlined: false, reversed: false }),
            tile_door: styled_of(Some(Color::Yellow), None, Modifier { bold: false, dim: false, italic: false, underlined: false, reversed: false }),
            tile_bridge: styled_of(Some(Color::Yellow), None, Modifier { bold: false, dim: false, italic: false, underlined: false, reversed: false }),
            tile_stairs: styled_of(Some(Color::White), None, Modifier { bold: false, dim: false, italic: false, underlined: false, reversed: false }),
            tile_chamber: styled_of(Some(Color::DarkGray), None, Modifier { bold: false, dim: false, italic: false, underlined: false, reversed: false }),
            tile_shadow: styled_of(Some(Color::DarkGray), None, Modifier { bold: false, dim: false, italic: false, underlined: false, reversed: false }),
            tile_player: styled_of(Some(Color::Cyan), None, Modifier { bold: true, dim: false, italic: false, underlined: false, reversed: false }),
            tile_room_number: styled_of(Some(Color::Gray), None, Modifier { bold: false, dim: false, italic: false, underlined: false, reversed: false }),
            map_border: styled_of(None, None, Modifier { bold: false, dim: false, italic: false, underlined: false, reversed: false }),
            story_border: styled_of(None, None, Modifier { bold: false, dim: false, italic: false, underlined: false, reversed: false }),
            status_header: styled_of(None, None, Modifier { bold: false, dim: false, italic: false, underlined: false, reversed: false }),
            input_line: styled_of(None, None, Modifier { bold: false, dim: false, italic: false, underlined: false, reversed: false }),
            upper_window_border: styled_of(None, None, Modifier { bold: false, dim: false, italic: false, underlined: false, reversed: false }),
            dialog: styled_of(None, None, Modifier { bold: false, dim: false, italic: false, underlined: false, reversed: false }),
            suggestion_line_style: BorderStyle::Single,
            suggestion_line_sides: PaneSides::all(BorderStyle::Single),
            suggestion_line_glyphs: PaneGlyphs::default(),
            map_border_style: BorderStyle::NoBorder,
            map_border_sides: PaneSides::all(BorderStyle::NoBorder),
            map_border_glyphs: PaneGlyphs::default(),
            map_header_on: true,
            story_border_style: BorderStyle::NoBorder,
            story_border_sides: PaneSides::all(BorderStyle::NoBorder),
            story_border_glyphs: PaneGlyphs::default(),
            story_header_on: true,
            status_header_style: BorderStyle::NoBorder,
            status_header_sides: PaneSides::all(BorderStyle::NoBorder),
            status_header_glyphs: PaneGlyphs::default(),
            input_line_style: BorderStyle::NoBorder,
            input_line_sides: PaneSides::all(BorderStyle::NoBorder),
            input_line_glyphs: PaneGlyphs::default(),
            virtual_window_border: BorderStyle::Single,
            upper_window_border_sides: PaneSides::all(BorderStyle::Single),
            upper_window_border_glyphs: PaneGlyphs::default(),
            dialog_box_style: BorderStyle::Single,
            dialog_shadow_on: false,
            dialog_placement: DialogPlacement::Center,
            dialog_margin: 0,
            dialog_glyphs: PaneGlyphs::default(),
            transcript_rules: Vec::new(),
            statusbar_layout: StatusBarLayout::default(),
        }
    }
}

impl Default for ColorScheme {
    /// The terminal-default scheme.
    fn default() -> (r: ColorScheme)
        ensures
            is_terminal_default(r),
    {
        ColorScheme::terminal_default()
    }
}

} // verus!
