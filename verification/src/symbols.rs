//! Configurable map symbols for the renderer: every glyph the map and the tile
//! map draw, the named presets they are chosen from, and the resolution of a
//! [`SymbolConfig`] (presets, then per-slot overrides) into a concrete [`SymbolSet`].

use vstd::prelude::*;
use crate::config::{
    SymbolConfig, default_badge_blorb, default_badge_glulx, default_badge_hint, default_badge_save,
    default_badge_zcode, default_diagonal_corners,
};
use crate::strmap::StrMap;
use crate::text::{chars_of, eq_lit, owned};

verus! {
/// Six glyphs that form one room-outline style (box-drawing corners + lines).
/// Tuple field order: (tl, tr, bl, br, h, v).
#[derive(Debug, Clone, Copy, PartialEq, Eq, Structural)]
pub struct BoxStyle {
    pub tl: char,
    pub tr: char,
    pub bl: char,
    pub br: char,
    pub h: char,
    pub v: char,
}

/// Cardinal + diagonal arrow glyphs for connector arrowheads.
#[derive(Debug, Clone, Copy, PartialEq, Eq, Structural)]
pub struct Arrows {
    pub north: char,
    pub south: char,
    pub east: char,
    pub west: char,
    pub ne: char,
    pub nw: char,
    pub se: char,
    pub sw: char,
}

/// Box-drawing glyphs for the path line-art table (what glyph_for returns per mask).
/// Field names match the direction-bit combinations: ew=east-west straight, ns=north-south,
/// se=southeast corner (coming from south, going east), etc.
#[derive(Debug, Clone, Copy, PartialEq, Eq, Structural)]
pub struct PathGlyphs {
    pub ew: char,
    pub ns: char,
    pub se: char,
    pub sw: char,
    pub ne: char,
    pub nw: char,
    pub nse: char,
    pub nsw: char,
    pub ews: char,
    pub ewn: char,
    pub nesw: char,
    // Half-diagonals from the Legacy Computing block, named for their two
    // endpoints (matching their Unicode names). Unlike ╱/╲ (U+2571/2572), which
    // run corner-to-corner, EVERY endpoint here is an edge MIDPOINT — the same
    // points ─ attaches at (middle left/right) and │ attaches at (upper/lower
    // centre). That is what lets a diagonal stub hand off to an orthogonal path
    // cleanly. Used only when `diagonal_corners` is on.
    /// Upper-centre ↔ middle-left (U+1FBA0 🮠).
    pub diag_ul: char,
    /// Upper-centre ↔ middle-right (U+1FBA1 🮡).
    pub diag_ur: char,
    /// Middle-left ↔ lower-centre (U+1FBA2 🮢).
    pub diag_ll: char,
    /// Middle-right ↔ lower-centre (U+1FBA3 🮣).
    pub diag_lr: char,
}

/// Portal icon glyphs: directional markers + connector path char.
#[derive(Debug, Clone, Copy, PartialEq, Eq, Structural)]
pub struct PortalGlyphs {
    /// Marker drawn in the notes/icon column for a room with notes (●).
    pub marker: char,
    /// Dotted vertical connector for Up/Down portal links (┊).
    pub path: char,
    /// Dotted horizontal connector for Up/Down portal links (┄).
    pub path_h: char,
    /// Up portal icon (↑).
    pub up: char,
    /// Down portal icon (↓).
    pub down: char,
    /// In portal icon (⊙).
    pub in_: char,
    /// Out portal icon (⊗).
    pub out: char,
    /// Unknown portal icon (?).
    pub unknown: char,
}

/// The 11-glyph wall set for the tile-map renderer: the rasterizer picks one per
/// Wall tile from its 4-neighbor mask of wall-run tiles (walls, doors, in-wall
/// portals), mirroring how `PathGlyphs` + `glyph_for` resolve path junctions.
/// Tee names are by the branch direction: `tee_e` (╠) branches east off a
/// vertical run, `tee_s` (╦) branches south off a horizontal run, etc.
#[derive(Debug, Clone, Copy, PartialEq, Eq, Structural)]
pub struct WallGlyphs {
    pub h: char,
    pub v: char,
    pub tl: char,
    pub tr: char,
    pub bl: char,
    pub br: char,
    pub tee_n: char,
    pub tee_s: char,
    pub tee_e: char,
    pub tee_w: char,
    pub cross: char,
}

/// Glyphs for the tile-map renderer (`map_renderer = "tiles"`): one glyph per
/// semantic tile kind (see `mapper::tiles::Tile`). Corridor line-art has no
/// slots here — it reuses `SymbolSet::path` (the classic connector set), so the
/// `path_style` preset and `path.*` overrides theme it.
#[derive(Debug, Clone, Copy, PartialEq, Eq, Structural)]
pub struct TileGlyphs {
    /// Junction-resolved double-line room walls.
    pub walls: WallGlyphs,
    pub floor: char,
    /// Two-way door in a horizontal wall run (wall neighbors left+right).
    pub door_h: char,
    /// Two-way door in a vertical wall run (wall neighbors above+below).
    pub door_v: char,
    /// One-way door by exit direction (a diagonal renders as its N/S cardinal).
    pub door_n: char,
    pub door_e: char,
    pub door_s: char,
    pub door_w: char,
    /// Dead-end stub door (route-failure edge).
    pub door_stub: char,
    /// Dashed passage-floor trail for a distorted connection, horizontal run.
    pub dash_h: char,
    /// Dashed passage-floor trail for a distorted connection, vertical run.
    pub dash_v: char,
    /// 45° diagonal corridor, ascending left-to-right (`Tile::CorridorDiag` Up).
    pub diag_up: char,
    /// 45° diagonal corridor, descending left-to-right (`Tile::CorridorDiag` Down).
    pub diag_down: char,
    /// Perpendicular corridor crossing, over-corridor horizontal.
    pub bridge: char,
    /// Perpendicular corridor crossing, over-corridor vertical.
    pub bridge_v: char,
    pub stairs_up: char,
    pub stairs_down: char,
    pub portal_in: char,
    pub portal_out: char,
    /// The current-room marker on the floor centre.
    pub player: char,
}

/// All map glyphs used by the renderer, resolved from config at startup.
///
/// `Default` returns the exact set of glyphs that were hardcoded before this
/// abstraction was introduced — back-compat is guaranteed by that contract.
#[derive(Debug, Clone, Copy, PartialEq, Eq, Structural)]
pub struct SymbolSet {
    pub room_normal: BoxStyle,
    pub room_current: BoxStyle,
    pub room_portal: BoxStyle,
    /// Selected room outline. Defaults to normal (selection is color-only today).
    pub room_selected: BoxStyle,
    pub arrows: Arrows,
    pub path: PathGlyphs,
    pub portal: PortalGlyphs,
    /// Gutter marker glyph for META transcript lines.
    pub meta_gutter: char,
    /// Gutter marker glyph for WARNING transcript lines.
    pub warning_gutter: char,
    /// Draw ne/nw/se/sw connectors as a chain of half-diagonals out of the room corner, using the
    /// `path.diag_*` glyphs. On by default.
    ///
    /// Turn it off for a terminal/font without Unicode 13 Legacy Computing coverage: the connector
    /// still leaves and arrives on the same CORNERS — that part is the router's doing, not this
    /// setting's — but walks between them orthogonally instead.
    pub diagonal_corners: bool,
    /// Tile-map renderer glyphs (`map_renderer = "tiles"`).
    pub tiles: TileGlyphs,
}


/// The glyphs that were hardcoded before the set became configurable.
pub open spec fn default_symbol_set() -> SymbolSet {
    let room_normal = BoxStyle { tl: '╭', tr: '╮', bl: '╰', br: '╯', h: '─', v: '│' };
        SymbolSet {
            room_normal,
            room_current: BoxStyle { tl: '┏', tr: '┓', bl: '┗', br: '┛', h: '━', v: '┃' },
            room_portal: BoxStyle { tl: '╔', tr: '╗', bl: '╚', br: '╝', h: '═', v: '║' },
            room_selected: room_normal,
            arrows: Arrows {
                north: '▲',
                south: '▼',
                east: '▶',
                west: '◀',
                ne: '↗',
                nw: '↖',
                se: '↘',
                sw: '↙',
            },
            path: PathGlyphs {
                ew: '─',
                ns: '│',
                se: '┌',
                sw: '┐',
                ne: '└',
                nw: '┘',
                nse: '├',
                nsw: '┤',
                ews: '┬',
                ewn: '┴',
                nesw: '┼',
                diag_ul: '🮠',
                diag_ur: '🮡',
                diag_ll: '🮢',
                diag_lr: '🮣',
            },
            portal: PortalGlyphs {
                marker: '●',
                path: '┊',
                path_h: '┄',
                up: '↑',
                down: '↓',
                in_: '⊙',
                out: '⊗',
                unknown: '?',
            },
            meta_gutter: '▏',
            warning_gutter: '!',
            diagonal_corners: true,
            tiles: TileGlyphs {
                walls: WallGlyphs {
                    h: '═',
                    v: '║',
                    tl: '╔',
                    tr: '╗',
                    bl: '╚',
                    br: '╝',
                    tee_n: '╩',
                    tee_s: '╦',
                    tee_e: '╠',
                    tee_w: '╣',
                    cross: '╬',
                },
                floor: '·',
                door_h: '─',
                door_v: '│',
                door_n: '▴',
                door_e: '▸',
                door_s: '▾',
                door_w: '◂',
                door_stub: '?',
                dash_h: '╌',
                dash_v: '╎',
                diag_up: '╱',
                diag_down: '╲',
                bridge: '╪',
                bridge_v: '╫',
                stairs_up: '<',
                stairs_down: '>',
                portal_in: '⊙',
                portal_out: '⊗',
                player: '@',
            },
        }
}

impl Default for SymbolSet {
    /// The exact set of glyphs the renderer drew before symbols were configurable.
    fn default() -> (r: Self)
        ensures
            r == default_symbol_set(),
    {
        let room_normal = BoxStyle { tl: '╭', tr: '╮', bl: '╰', br: '╯', h: '─', v: '│' };
        Self {
            room_normal,
            room_current: BoxStyle { tl: '┏', tr: '┓', bl: '┗', br: '┛', h: '━', v: '┃' },
            room_portal: BoxStyle { tl: '╔', tr: '╗', bl: '╚', br: '╝', h: '═', v: '║' },
            room_selected: room_normal,
            arrows: Arrows {
                north: '▲',
                south: '▼',
                east: '▶',
                west: '◀',
                ne: '↗',
                nw: '↖',
                se: '↘',
                sw: '↙',
            },
            path: PathGlyphs {
                ew: '─',
                ns: '│',
                se: '┌',
                sw: '┐',
                ne: '└',
                nw: '┘',
                nse: '├',
                nsw: '┤',
                ews: '┬',
                ewn: '┴',
                nesw: '┼',
                diag_ul: '🮠',
                diag_ur: '🮡',
                diag_ll: '🮢',
                diag_lr: '🮣',
            },
            portal: PortalGlyphs {
                marker: '●',
                path: '┊',
                path_h: '┄',
                up: '↑',
                down: '↓',
                in_: '⊙',
                out: '⊗',
                unknown: '?',
            },
            meta_gutter: '▏',
            warning_gutter: '!',
            diagonal_corners: true,
            tiles: TileGlyphs {
                walls: WallGlyphs {
                    h: '═',
                    v: '║',
                    tl: '╔',
                    tr: '╗',
                    bl: '╚',
                    br: '╝',
                    tee_n: '╩',
                    tee_s: '╦',
                    tee_e: '╠',
                    tee_w: '╣',
                    cross: '╬',
                },
                floor: '·',
                door_h: '─',
                door_v: '│',
                door_n: '▴',
                door_e: '▸',
                door_s: '▾',
                door_w: '◂',
                door_stub: '?',
                dash_h: '╌',
                dash_v: '╎',
                diag_up: '╱',
                diag_down: '╲',
                bridge: '╪',
                bridge_v: '╫',
                stairs_up: '<',
                stairs_down: '>',
                portal_in: '⊙',
                portal_out: '⊗',
                player: '@',
            },
        }
    }
}

/// The named BoxStyle preset, if the name is one of them.
pub open spec fn spec_boxstyle_preset(name: Seq<char>) -> Option<BoxStyle> {
    if name == "rounded"@ {
        Some(BoxStyle { tl: '╭', tr: '╮', bl: '╰', br: '╯', h: '─', v: '│' })
    } else     if name == "thick"@ {
        Some(BoxStyle { tl: '┏', tr: '┓', bl: '┗', br: '┛', h: '━', v: '┃' })
    } else     if name == "double"@ {
        Some(BoxStyle { tl: '╔', tr: '╗', bl: '╚', br: '╝', h: '═', v: '║' })
    } else     if name == "solid"@ {
        Some(BoxStyle { tl: '█', tr: '█', bl: '█', br: '█', h: '█', v: '█' })
    } else     if name == "super-thick"@ {
        Some(BoxStyle { tl: '▛', tr: '▜', bl: '▙', br: '▟', h: '█', v: '█' })
    } else     if name == "ascii"@ {
        Some(BoxStyle { tl: '+', tr: '+', bl: '+', br: '+', h: '-', v: '|' })
    } else     if name == "borderless"@ {
        Some(BoxStyle { tl: ' ', tr: ' ', bl: ' ', br: ' ', h: ' ', v: ' ' })
    } else {
        None
    }
}

/// The BoxStyle preset names, in display order.
pub open spec fn spec_boxstyle_preset_names() -> Seq<&'static str> {
    seq!["rounded", "thick", "double", "solid", "super-thick", "ascii", "borderless"]
}

impl BoxStyle {
    /// All known preset names, in display order.
    pub fn preset_names() -> (r: Vec<&'static str>)
        ensures
            r@ == spec_boxstyle_preset_names(),
    {
        vec!["rounded", "thick", "double", "solid", "super-thick", "ascii", "borderless"]
    }

    /// Return a named preset, or `None` for an unknown name.
    ///
    /// Presets:
    /// - "rounded"    — rounded corners (default, matches `SymbolSet::default().room_normal`)
    /// - "thick"      — heavy box-drawing (matches `room_current`)
    /// - "double"     — double-line box-drawing (matches `room_portal`)
    /// - "solid"      — full-block walls: every edge/corner is `█` (single-width)
    /// - "super-thick" — full-block edges `█` with quadrant-block corners `▛▜▙▟`
    ///   (heavy block frame with beveled inner corners)
    /// - "ascii"      — ASCII-only: corners `+`, horizontal `-`, vertical `|`
    /// - "borderless" — all spaces (invisible walls)
    pub fn preset(name: &str) -> (r: Option<BoxStyle>)
        ensures
            r == spec_boxstyle_preset(name@),
    {
        let n = chars_of(name);
        if eq_lit(&n, "rounded") {
            Some(BoxStyle { tl: '╭', tr: '╮', bl: '╰', br: '╯', h: '─', v: '│' })
        } else         if eq_lit(&n, "thick") {
            Some(BoxStyle { tl: '┏', tr: '┓', bl: '┗', br: '┛', h: '━', v: '┃' })
        } else         if eq_lit(&n, "double") {
            Some(BoxStyle { tl: '╔', tr: '╗', bl: '╚', br: '╝', h: '═', v: '║' })
        } else         if eq_lit(&n, "solid") {
            Some(BoxStyle { tl: '█', tr: '█', bl: '█', br: '█', h: '█', v: '█' })
        } else         if eq_lit(&n, "super-thick") {
            Some(BoxStyle { tl: '▛', tr: '▜', bl: '▙', br: '▟', h: '█', v: '█' })
        } else         if eq_lit(&n, "ascii") {
            Some(BoxStyle { tl: '+', tr: '+', bl: '+', br: '+', h: '-', v: '|' })
        } else         if eq_lit(&n, "borderless") {
            Some(BoxStyle { tl: ' ', tr: ' ', bl: ' ', br: ' ', h: ' ', v: ' ' })
        } else {
            None
        }
    }
}

/// The named Arrows preset, if the name is one of them.
pub open spec fn spec_arrows_preset(name: Seq<char>) -> Option<Arrows> {
    if name == "filled"@ {
        Some(Arrows { north: '▲', south: '▼', east: '▶', west: '◀', ne: '↗', nw: '↖', se: '↘', sw: '↙' })
    } else     if name == "line"@ {
        Some(Arrows { north: '↑', south: '↓', east: '→', west: '←', ne: '↗', nw: '↖', se: '↘', sw: '↙' })
    } else     if name == "nerdfont"@ {
        Some(Arrows { north: '\u{F0143}', south: '\u{F0140}', east: '\u{F0142}', west: '\u{F0141}', ne: '↗', nw: '↖', se: '↘', sw: '↙' })
    } else     if name == "nf-bold"@ {
        Some(Arrows { north: '\u{F0737}', south: '\u{F072E}', east: '\u{F0734}', west: '\u{F0731}', ne: '↗', nw: '↖', se: '↘', sw: '↙' })
    } else     if name == "nf-box"@ {
        Some(Arrows { north: '\u{F0738}', south: '\u{F072F}', east: '\u{F0735}', west: '\u{F0732}', nw: '\u{F1968}', ne: '\u{F196A}', sw: '\u{F1964}', se: '\u{F1966}' })
    } else     if name == "nf-circle"@ {
        Some(Arrows { north: '\u{F005F}', south: '\u{F0047}', east: '\u{F0056}', west: '\u{F004F}', ne: '↗', nw: '↖', se: '↘', sw: '↙' })
    } else     if name == "nf-outline"@ {
        Some(Arrows { north: '\u{F09C7}', south: '\u{F09BF}', east: '\u{F09C2}', west: '\u{F09C0}', nw: '\u{F09C3}', ne: '\u{F09C5}', sw: '\u{F09B7}', se: '\u{F09B9}' })
    } else {
        None
    }
}

/// The Arrows preset names, in display order.
pub open spec fn spec_arrows_preset_names() -> Seq<&'static str> {
    seq!["filled", "line", "nerdfont", "nf-bold", "nf-box", "nf-circle", "nf-outline"]
}

impl Arrows {
    /// All known preset names, in display order.
    pub fn preset_names() -> (r: Vec<&'static str>)
        ensures
            r@ == spec_arrows_preset_names(),
    {
        vec!["filled", "line", "nerdfont", "nf-bold", "nf-box", "nf-circle", "nf-outline"]
    }

    /// Return a named preset, or `None` for an unknown name.
    ///
    /// Presets:
    /// - "filled"     — filled triangle glyphs ▲▼▶◀ + diagonal arrows ↗↖↘↙ (default)
    /// - "line"       — thin Unicode arrows ↑↓→← + diagonal ↗↖↘↙
    /// - "nerdfont"   — Nerd Font single-width chevron codepoints (requires patched font)
    ///   Cardinal: chevron-up (U+F0143) chevron-down (U+F0140)
    ///   chevron-right (U+F0142) chevron-left (U+F0141)
    ///   Diagonal: same as "line" (↗↖↘↙)
    /// - "nf-bold"    — MDI arrow-{up,down,left,right}-bold (F0737/F072E/F0731/F0734)
    ///   Diagonal: Unicode fallback ↖↗↙↘ (no native MDI bold diagonals)
    /// - "nf-box"     — MDI arrow-{up,down,left,right}-bold-box (F0738/F072F/F0732/F0735)
    ///   Diagonal: native MDI bold-box diagonals (F1968/F196A/F1964/F1966)
    /// - "nf-circle"  — MDI arrow-{up,down,left,right}-bold-circle (F005F/F0047/F004F/F0056)
    ///   Diagonal: Unicode fallback ↖↗↙↘ (no native MDI circle diagonals)
    /// - "nf-outline" — MDI arrow-{up,down,left,right}-bold-outline (F09C7/F09BF/F09C0/F09C2)
    ///   Diagonal: native MDI bold-outline diagonals (F09C3/F09C5/F09B7/F09B9)
    pub fn preset(name: &str) -> (r: Option<Arrows>)
        ensures
            r == spec_arrows_preset(name@),
    {
        let n = chars_of(name);
        if eq_lit(&n, "filled") {
            Some(Arrows { north: '▲', south: '▼', east: '▶', west: '◀', ne: '↗', nw: '↖', se: '↘', sw: '↙' })
        } else         if eq_lit(&n, "line") {
            Some(Arrows { north: '↑', south: '↓', east: '→', west: '←', ne: '↗', nw: '↖', se: '↘', sw: '↙' })
        } else         if eq_lit(&n, "nerdfont") {
            Some(Arrows { north: '\u{F0143}', south: '\u{F0140}', east: '\u{F0142}', west: '\u{F0141}', ne: '↗', nw: '↖', se: '↘', sw: '↙' })
        } else         if eq_lit(&n, "nf-bold") {
            Some(Arrows { north: '\u{F0737}', south: '\u{F072E}', east: '\u{F0734}', west: '\u{F0731}', ne: '↗', nw: '↖', se: '↘', sw: '↙' })
        } else         if eq_lit(&n, "nf-box") {
            Some(Arrows { north: '\u{F0738}', south: '\u{F072F}', east: '\u{F0735}', west: '\u{F0732}', nw: '\u{F1968}', ne: '\u{F196A}', sw: '\u{F1964}', se: '\u{F1966}' })
        } else         if eq_lit(&n, "nf-circle") {
            Some(Arrows { north: '\u{F005F}', south: '\u{F0047}', east: '\u{F0056}', west: '\u{F004F}', ne: '↗', nw: '↖', se: '↘', sw: '↙' })
        } else         if eq_lit(&n, "nf-outline") {
            Some(Arrows { north: '\u{F09C7}', south: '\u{F09BF}', east: '\u{F09C2}', west: '\u{F09C0}', nw: '\u{F09C3}', ne: '\u{F09C5}', sw: '\u{F09B7}', se: '\u{F09B9}' })
        } else {
            None
        }
    }
}

/// The named PathGlyphs preset, if the name is one of them.
pub open spec fn spec_pathglyphs_preset(name: Seq<char>) -> Option<PathGlyphs> {
    if name == "light"@ {
        Some(PathGlyphs { ew: '─', ns: '│', se: '┌', sw: '┐', ne: '└', nw: '┘', nse: '├', nsw: '┤', ews: '┬', ewn: '┴', nesw: '┼', diag_ul: '🮠', diag_ur: '🮡', diag_ll: '🮢', diag_lr: '🮣' })
    } else     if name == "heavy"@ {
        Some(PathGlyphs { ew: '━', ns: '┃', se: '┏', sw: '┓', ne: '┗', nw: '┛', nse: '┣', nsw: '┫', ews: '┳', ewn: '┻', nesw: '╋', diag_ul: '🮠', diag_ur: '🮡', diag_ll: '🮢', diag_lr: '🮣' })
    } else     if name == "dotted"@ {
        Some(PathGlyphs { ew: '┄', ns: '┆', se: '┌', sw: '┐', ne: '└', nw: '┘', nse: '├', nsw: '┤', ews: '┬', ewn: '┴', nesw: '┼', diag_ul: '🮠', diag_ur: '🮡', diag_ll: '🮢', diag_lr: '🮣' })
    } else {
        None
    }
}

/// The PathGlyphs preset names, in display order.
pub open spec fn spec_pathglyphs_preset_names() -> Seq<&'static str> {
    seq!["light", "heavy", "dotted"]
}

impl PathGlyphs {
    /// All known preset names, in display order.
    pub fn preset_names() -> (r: Vec<&'static str>)
        ensures
            r@ == spec_pathglyphs_preset_names(),
    {
        vec!["light", "heavy", "dotted"]
    }

    /// Return a named preset, or `None` for an unknown name.
    ///
    /// Presets:
    /// - "light"  — light box-drawing lines ─│┌┐└┘├┤┬┴┼ (default)
    /// - "heavy"  — heavy box-drawing lines ━┃┏┓┗┛┣┫┳┻╋
    /// - "dotted" — dotted/dashed box-drawing lines ╌╎┄┆ with fallbacks
    pub fn preset(name: &str) -> (r: Option<PathGlyphs>)
        ensures
            r == spec_pathglyphs_preset(name@),
    {
        let n = chars_of(name);
        if eq_lit(&n, "light") {
            Some(PathGlyphs { ew: '─', ns: '│', se: '┌', sw: '┐', ne: '└', nw: '┘', nse: '├', nsw: '┤', ews: '┬', ewn: '┴', nesw: '┼', diag_ul: '🮠', diag_ur: '🮡', diag_ll: '🮢', diag_lr: '🮣' })
        } else         if eq_lit(&n, "heavy") {
            Some(PathGlyphs { ew: '━', ns: '┃', se: '┏', sw: '┓', ne: '┗', nw: '┛', nse: '┣', nsw: '┫', ews: '┳', ewn: '┻', nesw: '╋', diag_ul: '🮠', diag_ur: '🮡', diag_ll: '🮢', diag_lr: '🮣' })
        } else         if eq_lit(&n, "dotted") {
            Some(PathGlyphs { ew: '┄', ns: '┆', se: '┌', sw: '┐', ne: '└', nw: '┘', nse: '├', nsw: '┤', ews: '┬', ewn: '┴', nesw: '┼', diag_ul: '🮠', diag_ur: '🮡', diag_ll: '🮢', diag_lr: '🮣' })
        } else {
            None
        }
    }
}

/// The named PortalGlyphs preset, if the name is one of them.
pub open spec fn spec_portalglyphs_preset(name: Seq<char>) -> Option<PortalGlyphs> {
    if name == "ascii"@ {
        Some(PortalGlyphs { marker: '●', path: '┊', path_h: '┄', up: '↑', down: '↓', in_: '⊙', out: '⊗', unknown: '?' })
    } else     if name == "nerdfont"@ {
        Some(PortalGlyphs { marker: '\u{F111}', path: '┊', path_h: '┄', up: '\u{F0B71}', down: '\u{F0B72}', in_: '\u{F090}', out: '\u{F08B}', unknown: '\u{F059}' })
    } else     if name == "nerdfont-stairs"@ {
        Some(PortalGlyphs { marker: '\u{F111}', path: '┊', path_h: '┄', up: '\u{F12BD}', down: '\u{F12BE}', in_: '\u{F0FC4}', out: '\u{F0A48}', unknown: '\u{F059}' })
    } else {
        None
    }
}

/// The PortalGlyphs preset names, in display order.
pub open spec fn spec_portalglyphs_preset_names() -> Seq<&'static str> {
    seq!["ascii", "nerdfont", "nerdfont-stairs"]
}

impl PortalGlyphs {
    /// All known preset names, in display order.
    pub fn preset_names() -> (r: Vec<&'static str>)
        ensures
            r@ == spec_portalglyphs_preset_names(),
    {
        vec!["ascii", "nerdfont", "nerdfont-stairs"]
    }

    /// Return a named preset, or `None` for an unknown name.
    ///
    /// Presets:
    /// - "ascii"            — ASCII-compatible glyphs (default): ●/↑/↓/⊙/⊗/? with ┊┄ connectors
    /// - "nerdfont"         — Nerd Font single-width icon codepoints (requires patched font)
    ///   nf-fa-circle (U+F111) for marker, nf-md-arrow_up_circle (U+F0B71) for up,
    ///   nf-md-arrow_down_circle (U+F0B72) for down, nf-fa-sign_in (U+F090) for in,
    ///   nf-fa-sign_out (U+F08B) for out, nf-fa-question_circle (U+F059) for unknown
    /// - "nerdfont-stairs"  — Nerd Font 4 distinct direction icons (requires patched font)
    ///   up=mdi-stairs-up (U+F12BD), down=mdi-stairs-down (U+F12BE),
    ///   in=mdi-location-enter (U+F0FC4), out=mdi-exit-run (U+F0A48)
    pub fn preset(name: &str) -> (r: Option<PortalGlyphs>)
        ensures
            r == spec_portalglyphs_preset(name@),
    {
        let n = chars_of(name);
        if eq_lit(&n, "ascii") {
            Some(PortalGlyphs { marker: '●', path: '┊', path_h: '┄', up: '↑', down: '↓', in_: '⊙', out: '⊗', unknown: '?' })
        } else         if eq_lit(&n, "nerdfont") {
            Some(PortalGlyphs { marker: '\u{F111}', path: '┊', path_h: '┄', up: '\u{F0B71}', down: '\u{F0B72}', in_: '\u{F090}', out: '\u{F08B}', unknown: '\u{F059}' })
        } else         if eq_lit(&n, "nerdfont-stairs") {
            Some(PortalGlyphs { marker: '\u{F111}', path: '┊', path_h: '┄', up: '\u{F12BD}', down: '\u{F12BE}', in_: '\u{F0FC4}', out: '\u{F0A48}', unknown: '\u{F059}' })
        } else {
            None
        }
    }
}

/// Conservative "likely double-width" estimate by code point: Hangul Jamo, the
/// CJK radicals, symbols, kana and ideographs, Yi, Hangul syllables, the
/// compatibility and fullwidth forms, the supplementary ideographs, and the
/// emoji-heavy plane block U+1F000..=U+1FFFF except the Legacy Computing
/// half-diagonals U+1FBA0..=U+1FBAF, which are narrow line-art.
pub open spec fn spec_is_wide(c: char) -> bool {
    let cp = c as u32;
    ||| 0x1100 <= cp <= 0x115F
    ||| 0x2E80 <= cp <= 0x2FDF
    ||| 0x2FF0 <= cp <= 0x31BF
    ||| 0x31F0 <= cp <= 0x4DBF
    ||| 0x4E00 <= cp <= 0x9FFF
    ||| 0xA000 <= cp <= 0xA4CF
    ||| 0xAC00 <= cp <= 0xD7AF
    ||| 0xF900 <= cp <= 0xFAFF
    ||| 0xFE10 <= cp <= 0xFE1F
    ||| 0xFE30 <= cp <= 0xFE6F
    ||| 0xFF00 <= cp <= 0xFFEF
    ||| (0x1F000 <= cp <= 0x1FFFF && !(0x1FBA0 <= cp <= 0x1FBAF))
    ||| 0x20000 <= cp <= 0x2A6DF
    ||| 0x2A700 <= cp <= 0x2CEAF
}

/// Conservative "likely wide" estimate without a Unicode width table.
/// Rejects chars in the CJK/fullwidth/emoji-heavy ranges. The box-drawing
/// block (U+2500..=U+257F), arrows (U+2190..=U+21FF), and BMP geometric
/// shapes are always accepted.
pub fn is_wide_estimate(c: char) -> (r: bool)
    ensures
        r == spec_is_wide(c),
{
    let cp = c as u32;
    if 0x1FBA0 <= cp && cp <= 0x1FBAF {
        return false;
    }
    (0x1FBA0 <= cp && cp <= 0x1FBAF) ||
        (0x1100 <= cp && cp <= 0x115F) ||
        (0x2E80 <= cp && cp <= 0x2EFF) ||
        (0x2F00 <= cp && cp <= 0x2FDF) ||
        (0x2FF0 <= cp && cp <= 0x303F) ||
        (0x3040 <= cp && cp <= 0x309F) ||
        (0x30A0 <= cp && cp <= 0x30FF) ||
        (0x3100 <= cp && cp <= 0x312F) ||
        (0x3130 <= cp && cp <= 0x318F) ||
        (0x3190 <= cp && cp <= 0x319F) ||
        (0x31A0 <= cp && cp <= 0x31BF) ||
        (0x31F0 <= cp && cp <= 0x31FF) ||
        (0x3200 <= cp && cp <= 0x32FF) ||
        (0x3300 <= cp && cp <= 0x33FF) ||
        (0x3400 <= cp && cp <= 0x4DBF) ||
        (0x4E00 <= cp && cp <= 0x9FFF) ||
        (0xA000 <= cp && cp <= 0xA48F) ||
        (0xA490 <= cp && cp <= 0xA4CF) ||
        (0xAC00 <= cp && cp <= 0xD7AF) ||
        (0xF900 <= cp && cp <= 0xFAFF) ||
        (0xFE10 <= cp && cp <= 0xFE1F) ||
        (0xFE30 <= cp && cp <= 0xFE4F) ||
        (0xFE50 <= cp && cp <= 0xFE6F) ||
        (0xFF00 <= cp && cp <= 0xFFEF) ||
        (0x1F000 <= cp && cp <= 0x1FFFF) ||
        (0x20000 <= cp && cp <= 0x2A6DF) ||
        (0x2A700 <= cp && cp <= 0x2CEAF) ||
        (0x1F000 <= cp && cp <= 0x1FFFF) ||
        (0x1FBA0 <= cp && cp <= 0x1FBAF)
}

/// The set after assigning `ch` to the slot named `key`; unknown keys change nothing.
pub open spec fn spec_apply_override(s: SymbolSet, key: Seq<char>, ch: char) -> SymbolSet {
    if key == "room.normal.tl"@ {
        SymbolSet { room_normal: BoxStyle { tl: ch, ..s.room_normal }, ..s }
    } else     if key == "room.normal.tr"@ {
        SymbolSet { room_normal: BoxStyle { tr: ch, ..s.room_normal }, ..s }
    } else     if key == "room.normal.bl"@ {
        SymbolSet { room_normal: BoxStyle { bl: ch, ..s.room_normal }, ..s }
    } else     if key == "room.normal.br"@ {
        SymbolSet { room_normal: BoxStyle { br: ch, ..s.room_normal }, ..s }
    } else     if key == "room.normal.h"@ {
        SymbolSet { room_normal: BoxStyle { h: ch, ..s.room_normal }, ..s }
    } else     if key == "room.normal.v"@ {
        SymbolSet { room_normal: BoxStyle { v: ch, ..s.room_normal }, ..s }
    } else     if key == "room.current.tl"@ {
        SymbolSet { room_current: BoxStyle { tl: ch, ..s.room_current }, ..s }
    } else     if key == "room.current.tr"@ {
        SymbolSet { room_current: BoxStyle { tr: ch, ..s.room_current }, ..s }
    } else     if key == "room.current.bl"@ {
        SymbolSet { room_current: BoxStyle { bl: ch, ..s.room_current }, ..s }
    } else     if key == "room.current.br"@ {
        SymbolSet { room_current: BoxStyle { br: ch, ..s.room_current }, ..s }
    } else     if key == "room.current.h"@ {
        SymbolSet { room_current: BoxStyle { h: ch, ..s.room_current }, ..s }
    } else     if key == "room.current.v"@ {
        SymbolSet { room_current: BoxStyle { v: ch, ..s.room_current }, ..s }
    } else     if key == "room.portal.tl"@ {
        SymbolSet { room_portal: BoxStyle { tl: ch, ..s.room_portal }, ..s }
    } else     if key == "room.portal.tr"@ {
        SymbolSet { room_portal: BoxStyle { tr: ch, ..s.room_portal }, ..s }
    } else     if key == "room.portal.bl"@ {
        SymbolSet { room_portal: BoxStyle { bl: ch, ..s.room_portal }, ..s }
    } else     if key == "room.portal.br"@ {
        SymbolSet { room_portal: BoxStyle { br: ch, ..s.room_portal }, ..s }
    } else     if key == "room.portal.h"@ {
        SymbolSet { room_portal: BoxStyle { h: ch, ..s.room_portal }, ..s }
    } else     if key == "room.portal.v"@ {
        SymbolSet { room_portal: BoxStyle { v: ch, ..s.room_portal }, ..s }
    } else     if key == "room.selected.tl"@ {
        SymbolSet { room_selected: BoxStyle { tl: ch, ..s.room_selected }, ..s }
    } else     if key == "room.selected.tr"@ {
        SymbolSet { room_selected: BoxStyle { tr: ch, ..s.room_selected }, ..s }
    } else     if key == "room.selected.bl"@ {
        SymbolSet { room_selected: BoxStyle { bl: ch, ..s.room_selected }, ..s }
    } else     if key == "room.selected.br"@ {
        SymbolSet { room_selected: BoxStyle { br: ch, ..s.room_selected }, ..s }
    } else     if key == "room.selected.h"@ {
        SymbolSet { room_selected: BoxStyle { h: ch, ..s.room_selected }, ..s }
    } else     if key == "room.selected.v"@ {
        SymbolSet { room_selected: BoxStyle { v: ch, ..s.room_selected }, ..s }
    } else     if key == "arrow.north"@ {
        SymbolSet { arrows: Arrows { north: ch, ..s.arrows }, ..s }
    } else     if key == "arrow.south"@ {
        SymbolSet { arrows: Arrows { south: ch, ..s.arrows }, ..s }
    } else     if key == "arrow.east"@ {
        SymbolSet { arrows: Arrows { east: ch, ..s.arrows }, ..s }
    } else     if key == "arrow.west"@ {
        SymbolSet { arrows: Arrows { west: ch, ..s.arrows }, ..s }
    } else     if key == "arrow.ne"@ {
        SymbolSet { arrows: Arrows { ne: ch, ..s.arrows }, ..s }
    } else     if key == "arrow.nw"@ {
        SymbolSet { arrows: Arrows { nw: ch, ..s.arrows }, ..s }
    } else     if key == "arrow.se"@ {
        SymbolSet { arrows: Arrows { se: ch, ..s.arrows }, ..s }
    } else     if key == "arrow.sw"@ {
        SymbolSet { arrows: Arrows { sw: ch, ..s.arrows }, ..s }
    } else     if key == "path.ew"@ {
        SymbolSet { path: PathGlyphs { ew: ch, ..s.path }, ..s }
    } else     if key == "path.ns"@ {
        SymbolSet { path: PathGlyphs { ns: ch, ..s.path }, ..s }
    } else     if key == "path.se"@ {
        SymbolSet { path: PathGlyphs { se: ch, ..s.path }, ..s }
    } else     if key == "path.sw"@ {
        SymbolSet { path: PathGlyphs { sw: ch, ..s.path }, ..s }
    } else     if key == "path.ne"@ {
        SymbolSet { path: PathGlyphs { ne: ch, ..s.path }, ..s }
    } else     if key == "path.nw"@ {
        SymbolSet { path: PathGlyphs { nw: ch, ..s.path }, ..s }
    } else     if key == "path.nse"@ {
        SymbolSet { path: PathGlyphs { nse: ch, ..s.path }, ..s }
    } else     if key == "path.nsw"@ {
        SymbolSet { path: PathGlyphs { nsw: ch, ..s.path }, ..s }
    } else     if key == "path.ews"@ {
        SymbolSet { path: PathGlyphs { ews: ch, ..s.path }, ..s }
    } else     if key == "path.ewn"@ {
        SymbolSet { path: PathGlyphs { ewn: ch, ..s.path }, ..s }
    } else     if key == "path.cross"@ {
        SymbolSet { path: PathGlyphs { nesw: ch, ..s.path }, ..s }
    } else     if key == "path.diag_ul"@ {
        SymbolSet { path: PathGlyphs { diag_ul: ch, ..s.path }, ..s }
    } else     if key == "path.diag_ur"@ {
        SymbolSet { path: PathGlyphs { diag_ur: ch, ..s.path }, ..s }
    } else     if key == "path.diag_ll"@ {
        SymbolSet { path: PathGlyphs { diag_ll: ch, ..s.path }, ..s }
    } else     if key == "path.diag_lr"@ {
        SymbolSet { path: PathGlyphs { diag_lr: ch, ..s.path }, ..s }
    } else     if key == "portal.up"@ {
        SymbolSet { portal: PortalGlyphs { up: ch, ..s.portal }, ..s }
    } else     if key == "portal.down"@ {
        SymbolSet { portal: PortalGlyphs { down: ch, ..s.portal }, ..s }
    } else     if key == "portal.in"@ {
        SymbolSet { portal: PortalGlyphs { in_: ch, ..s.portal }, ..s }
    } else     if key == "portal.out"@ {
        SymbolSet { portal: PortalGlyphs { out: ch, ..s.portal }, ..s }
    } else     if key == "portal.unknown"@ {
        SymbolSet { portal: PortalGlyphs { unknown: ch, ..s.portal }, ..s }
    } else     if key == "portal.path"@ {
        SymbolSet { portal: PortalGlyphs { path: ch, ..s.portal }, ..s }
    } else     if key == "portal.marker"@ {
        SymbolSet { portal: PortalGlyphs { marker: ch, ..s.portal }, ..s }
    } else     if key == "gutter.meta"@ {
        SymbolSet { meta_gutter: ch, ..s }
    } else     if key == "gutter.warning"@ {
        SymbolSet { warning_gutter: ch, ..s }
    } else     if key == "tile.wall_h"@ {
        SymbolSet { tiles: TileGlyphs { walls: WallGlyphs { h: ch, ..s.tiles.walls }, ..s.tiles }, ..s }
    } else     if key == "tile.wall_v"@ {
        SymbolSet { tiles: TileGlyphs { walls: WallGlyphs { v: ch, ..s.tiles.walls }, ..s.tiles }, ..s }
    } else     if key == "tile.wall_tl"@ {
        SymbolSet { tiles: TileGlyphs { walls: WallGlyphs { tl: ch, ..s.tiles.walls }, ..s.tiles }, ..s }
    } else     if key == "tile.wall_tr"@ {
        SymbolSet { tiles: TileGlyphs { walls: WallGlyphs { tr: ch, ..s.tiles.walls }, ..s.tiles }, ..s }
    } else     if key == "tile.wall_bl"@ {
        SymbolSet { tiles: TileGlyphs { walls: WallGlyphs { bl: ch, ..s.tiles.walls }, ..s.tiles }, ..s }
    } else     if key == "tile.wall_br"@ {
        SymbolSet { tiles: TileGlyphs { walls: WallGlyphs { br: ch, ..s.tiles.walls }, ..s.tiles }, ..s }
    } else     if key == "tile.wall_tee_n"@ {
        SymbolSet { tiles: TileGlyphs { walls: WallGlyphs { tee_n: ch, ..s.tiles.walls }, ..s.tiles }, ..s }
    } else     if key == "tile.wall_tee_s"@ {
        SymbolSet { tiles: TileGlyphs { walls: WallGlyphs { tee_s: ch, ..s.tiles.walls }, ..s.tiles }, ..s }
    } else     if key == "tile.wall_tee_e"@ {
        SymbolSet { tiles: TileGlyphs { walls: WallGlyphs { tee_e: ch, ..s.tiles.walls }, ..s.tiles }, ..s }
    } else     if key == "tile.wall_tee_w"@ {
        SymbolSet { tiles: TileGlyphs { walls: WallGlyphs { tee_w: ch, ..s.tiles.walls }, ..s.tiles }, ..s }
    } else     if key == "tile.wall_cross"@ {
        SymbolSet { tiles: TileGlyphs { walls: WallGlyphs { cross: ch, ..s.tiles.walls }, ..s.tiles }, ..s }
    } else     if key == "tile.floor"@ {
        SymbolSet { tiles: TileGlyphs { floor: ch, ..s.tiles }, ..s }
    } else     if key == "tile.door_h"@ {
        SymbolSet { tiles: TileGlyphs { door_h: ch, ..s.tiles }, ..s }
    } else     if key == "tile.door_v"@ {
        SymbolSet { tiles: TileGlyphs { door_v: ch, ..s.tiles }, ..s }
    } else     if key == "tile.door_n"@ {
        SymbolSet { tiles: TileGlyphs { door_n: ch, ..s.tiles }, ..s }
    } else     if key == "tile.door_e"@ {
        SymbolSet { tiles: TileGlyphs { door_e: ch, ..s.tiles }, ..s }
    } else     if key == "tile.door_s"@ {
        SymbolSet { tiles: TileGlyphs { door_s: ch, ..s.tiles }, ..s }
    } else     if key == "tile.door_w"@ {
        SymbolSet { tiles: TileGlyphs { door_w: ch, ..s.tiles }, ..s }
    } else     if key == "tile.door_stub"@ {
        SymbolSet { tiles: TileGlyphs { door_stub: ch, ..s.tiles }, ..s }
    } else     if key == "tile.dash_h"@ {
        SymbolSet { tiles: TileGlyphs { dash_h: ch, ..s.tiles }, ..s }
    } else     if key == "tile.dash_v"@ {
        SymbolSet { tiles: TileGlyphs { dash_v: ch, ..s.tiles }, ..s }
    } else     if key == "tile.diag_up"@ {
        SymbolSet { tiles: TileGlyphs { diag_up: ch, ..s.tiles }, ..s }
    } else     if key == "tile.diag_down"@ {
        SymbolSet { tiles: TileGlyphs { diag_down: ch, ..s.tiles }, ..s }
    } else     if key == "tile.bridge"@ {
        SymbolSet { tiles: TileGlyphs { bridge: ch, ..s.tiles }, ..s }
    } else     if key == "tile.bridge_v"@ {
        SymbolSet { tiles: TileGlyphs { bridge_v: ch, ..s.tiles }, ..s }
    } else     if key == "tile.stairs_up"@ {
        SymbolSet { tiles: TileGlyphs { stairs_up: ch, ..s.tiles }, ..s }
    } else     if key == "tile.stairs_down"@ {
        SymbolSet { tiles: TileGlyphs { stairs_down: ch, ..s.tiles }, ..s }
    } else     if key == "tile.portal_in"@ {
        SymbolSet { tiles: TileGlyphs { portal_in: ch, ..s.tiles }, ..s }
    } else     if key == "tile.portal_out"@ {
        SymbolSet { tiles: TileGlyphs { portal_out: ch, ..s.tiles }, ..s }
    } else     if key == "tile.player"@ {
        SymbolSet { tiles: TileGlyphs { player: ch, ..s.tiles }, ..s }
    } else {
        s
    }
}

/// Apply one validated override char to the matching slot in `s`.
/// Unknown slot keys are ignored.
#[verifier::rlimit(50)]
pub fn apply_override(s: &mut SymbolSet, key: &str, ch: char)
    ensures
        *final(s) == spec_apply_override(*old(s), key@, ch),
{
    let k = chars_of(key);
    if eq_lit(&k, "room.normal.tl") {
        s.room_normal.tl = ch;
    } else     if eq_lit(&k, "room.normal.tr") {
        s.room_normal.tr = ch;
    } else     if eq_lit(&k, "room.normal.bl") {
        s.room_normal.bl = ch;
    } else     if eq_lit(&k, "room.normal.br") {
        s.room_normal.br = ch;
    } else     if eq_lit(&k, "room.normal.h") {
        s.room_normal.h = ch;
    } else     if eq_lit(&k, "room.normal.v") {
        s.room_normal.v = ch;
    } else     if eq_lit(&k, "room.current.tl") {
        s.room_current.tl = ch;
    } else     if eq_lit(&k, "room.current.tr") {
        s.room_current.tr = ch;
    } else     if eq_lit(&k, "room.current.bl") {
        s.room_current.bl = ch;
    } else     if eq_lit(&k, "room.current.br") {
        s.room_current.br = ch;
    } else     if eq_lit(&k, "room.current.h") {
        s.room_current.h = ch;
    } else     if eq_lit(&k, "room.current.v") {
        s.room_current.v = ch;
    } else     if eq_lit(&k, "room.portal.tl") {
        s.room_portal.tl = ch;
    } else     if eq_lit(&k, "room.portal.tr") {
        s.room_portal.tr = ch;
    } else     if eq_lit(&k, "room.portal.bl") {
        s.room_portal.bl = ch;
    } else     if eq_lit(&k, "room.portal.br") {
        s.room_portal.br = ch;
    } else     if eq_lit(&k, "room.portal.h") {
        s.room_portal.h = ch;
    } else     if eq_lit(&k, "room.portal.v") {
        s.room_portal.v = ch;
    } else     if eq_lit(&k, "room.selected.tl") {
        s.room_selected.tl = ch;
    } else     if eq_lit(&k, "room.selected.tr") {
        s.room_selected.tr = ch;
    } else     if eq_lit(&k, "room.selected.bl") {
        s.room_selected.bl = ch;
    } else     if eq_lit(&k, "room.selected.br") {
        s.room_selected.br = ch;
    } else     if eq_lit(&k, "room.selected.h") {
        s.room_selected.h = ch;
    } else     if eq_lit(&k, "room.selected.v") {
        s.room_selected.v = ch;
    } else     if eq_lit(&k, "arrow.north") {
        s.arrows.north = ch;
    } else     if eq_lit(&k, "arrow.south") {
        s.arrows.south = ch;
    } else     if eq_lit(&k, "arrow.east") {
        s.arrows.east = ch;
    } else     if eq_lit(&k, "arrow.west") {
        s.arrows.west = ch;
    } else     if eq_lit(&k, "arrow.ne") {
        s.arrows.ne = ch;
    } else     if eq_lit(&k, "arrow.nw") {
        s.arrows.nw = ch;
    } else     if eq_lit(&k, "arrow.se") {
        s.arrows.se = ch;
    } else     if eq_lit(&k, "arrow.sw") {
        s.arrows.sw = ch;
    } else     if eq_lit(&k, "path.ew") {
        s.path.ew = ch;
    } else     if eq_lit(&k, "path.ns") {
        s.path.ns = ch;
    } else     if eq_lit(&k, "path.se") {
        s.path.se = ch;
    } else     if eq_lit(&k, "path.sw") {
        s.path.sw = ch;
    } else     if eq_lit(&k, "path.ne") {
        s.path.ne = ch;
    } else     if eq_lit(&k, "path.nw") {
        s.path.nw = ch;
    } else     if eq_lit(&k, "path.nse") {
        s.path.nse = ch;
    } else     if eq_lit(&k, "path.nsw") {
        s.path.nsw = ch;
    } else     if eq_lit(&k, "path.ews") {
        s.path.ews = ch;
    } else     if eq_lit(&k, "path.ewn") {
        s.path.ewn = ch;
    } else     if eq_lit(&k, "path.cross") {
        s.path.nesw = ch;
    } else     if eq_lit(&k, "path.diag_ul") {
        s.path.diag_ul = ch;
    } else     if eq_lit(&k, "path.diag_ur") {
        s.path.diag_ur = ch;
    } else     if eq_lit(&k, "path.diag_ll") {
        s.path.diag_ll = ch;
    } else     if eq_lit(&k, "path.diag_lr") {
        s.path.diag_lr = ch;
    } else     if eq_lit(&k, "portal.up") {
        s.portal.up = ch;
    } else     if eq_lit(&k, "portal.down") {
        s.portal.down = ch;
    } else     if eq_lit(&k, "portal.in") {
        s.portal.in_ = ch;
    } else     if eq_lit(&k, "portal.out") {
        s.portal.out = ch;
    } else     if eq_lit(&k, "portal.unknown") {
        s.portal.unknown = ch;
    } else     if eq_lit(&k, "portal.path") {
        s.portal.path = ch;
    } else     if eq_lit(&k, "portal.marker") {
        s.portal.marker = ch;
    } else     if eq_lit(&k, "gutter.meta") {
        s.meta_gutter = ch;
    } else     if eq_lit(&k, "gutter.warning") {
        s.warning_gutter = ch;
    } else     if eq_lit(&k, "tile.wall_h") {
        s.tiles.walls.h = ch;
    } else     if eq_lit(&k, "tile.wall_v") {
        s.tiles.walls.v = ch;
    } else     if eq_lit(&k, "tile.wall_tl") {
        s.tiles.walls.tl = ch;
    } else     if eq_lit(&k, "tile.wall_tr") {
        s.tiles.walls.tr = ch;
    } else     if eq_lit(&k, "tile.wall_bl") {
        s.tiles.walls.bl = ch;
    } else     if eq_lit(&k, "tile.wall_br") {
        s.tiles.walls.br = ch;
    } else     if eq_lit(&k, "tile.wall_tee_n") {
        s.tiles.walls.tee_n = ch;
    } else     if eq_lit(&k, "tile.wall_tee_s") {
        s.tiles.walls.tee_s = ch;
    } else     if eq_lit(&k, "tile.wall_tee_e") {
        s.tiles.walls.tee_e = ch;
    } else     if eq_lit(&k, "tile.wall_tee_w") {
        s.tiles.walls.tee_w = ch;
    } else     if eq_lit(&k, "tile.wall_cross") {
        s.tiles.walls.cross = ch;
    } else     if eq_lit(&k, "tile.floor") {
        s.tiles.floor = ch;
    } else     if eq_lit(&k, "tile.door_h") {
        s.tiles.door_h = ch;
    } else     if eq_lit(&k, "tile.door_v") {
        s.tiles.door_v = ch;
    } else     if eq_lit(&k, "tile.door_n") {
        s.tiles.door_n = ch;
    } else     if eq_lit(&k, "tile.door_e") {
        s.tiles.door_e = ch;
    } else     if eq_lit(&k, "tile.door_s") {
        s.tiles.door_s = ch;
    } else     if eq_lit(&k, "tile.door_w") {
        s.tiles.door_w = ch;
    } else     if eq_lit(&k, "tile.door_stub") {
        s.tiles.door_stub = ch;
    } else     if eq_lit(&k, "tile.dash_h") {
        s.tiles.dash_h = ch;
    } else     if eq_lit(&k, "tile.dash_v") {
        s.tiles.dash_v = ch;
    } else     if eq_lit(&k, "tile.diag_up") {
        s.tiles.diag_up = ch;
    } else     if eq_lit(&k, "tile.diag_down") {
        s.tiles.diag_down = ch;
    } else     if eq_lit(&k, "tile.bridge") {
        s.tiles.bridge = ch;
    } else     if eq_lit(&k, "tile.bridge_v") {
        s.tiles.bridge_v = ch;
    } else     if eq_lit(&k, "tile.stairs_up") {
        s.tiles.stairs_up = ch;
    } else     if eq_lit(&k, "tile.stairs_down") {
        s.tiles.stairs_down = ch;
    } else     if eq_lit(&k, "tile.portal_in") {
        s.tiles.portal_in = ch;
    } else     if eq_lit(&k, "tile.portal_out") {
        s.tiles.portal_out = ch;
    } else     if eq_lit(&k, "tile.player") {
        s.tiles.player = ch;
    } else {
    }
}

/// The set a config starts from before overrides: each category's named preset,
/// an unknown name falling back to that category's default.
pub open spec fn spec_preset_base(cfg: SymbolConfig) -> SymbolSet {
    let d = default_symbol_set();
    SymbolSet {
        room_normal: match spec_boxstyle_preset(cfg.box_style@) { Some(b) => b, None => d.room_normal },
        room_current: d.room_current,
        room_portal: d.room_portal,
        room_selected: match spec_boxstyle_preset(cfg.box_style@) { Some(b) => b, None => d.room_selected },
        arrows: match spec_arrows_preset(cfg.arrow_set@) { Some(a) => a, None => d.arrows },
        path: match spec_pathglyphs_preset(cfg.path_style@) { Some(p) => p, None => d.path },
        portal: match spec_portalglyphs_preset(cfg.portal_icons@) { Some(p) => p, None => d.portal },
        meta_gutter: d.meta_gutter,
        warning_gutter: d.warning_gutter,
        diagonal_corners: cfg.diagonal_corners,
        tiles: d.tiles,
    }
}

/// An override value is usable when it is exactly one character of estimated single width.
pub open spec fn valid_override(v: Seq<char>) -> bool {
    v.len() == 1 && !spec_is_wide(v[0])
}

/// Applies the overrides `ps` in order, skipping unusable values.
pub open spec fn spec_apply_overrides(s: SymbolSet, ps: Seq<(String, String)>) -> SymbolSet
    decreases ps.len(),
{
    if ps.len() == 0 {
        s
    } else {
        let next = if valid_override(ps[0].1@) {
            spec_apply_override(s, ps[0].0@, ps[0].1@[0])
        } else {
            s
        };
        spec_apply_overrides(next, ps.drop_first())
    }
}

/// The set a config resolves to: presets first, then the overrides in key order.
pub open spec fn spec_resolve(cfg: SymbolConfig) -> SymbolSet {
    spec_apply_overrides(spec_preset_base(cfg), cfg.overrides.pairs())
}

impl SymbolSet {
    /// Build a `SymbolSet` from a `SymbolConfig`:
    /// 1. Start from each category's named preset (unknown name → category default).
    /// 2. Apply per-slot overrides from `cfg.overrides`.
    ///
    /// Override validation: the value must be exactly one `char`. We do not use a
    /// Unicode width table; we instead reject any char with a code point in the
    /// known CJK/wide ranges plus any char above U+FFFF that terminals commonly
    /// render as double-wide (emoji etc.). Single-byte ASCII and the entire BMP
    /// box-drawing block are always accepted.
    /// Invalid values (empty, multi-char, wide estimate) → keep the preset glyph.
    pub fn resolve(cfg: &SymbolConfig) -> (r: SymbolSet)
        ensures
            r == spec_resolve(*cfg),
    {
        let d = SymbolSet::default();
        let room_box = BoxStyle::preset(cfg.box_style.as_str());
        let mut s = SymbolSet {
            room_normal: match room_box { Some(b) => b, None => d.room_normal },
            room_current: d.room_current,
            room_portal: d.room_portal,
            room_selected: match room_box { Some(b) => b, None => d.room_selected },
            arrows: match Arrows::preset(cfg.arrow_set.as_str()) { Some(a) => a, None => d.arrows },
            path: match PathGlyphs::preset(cfg.path_style.as_str()) { Some(p) => p, None => d.path },
            portal: match PortalGlyphs::preset(cfg.portal_icons.as_str()) { Some(p) => p, None => d.portal },
            meta_gutter: d.meta_gutter,
            warning_gutter: d.warning_gutter,
            diagonal_corners: cfg.diagonal_corners,
            tiles: d.tiles,
        };
        let n = cfg.overrides.len();
        let ghost ps = cfg.overrides.pairs();
        assert(ps.skip(0) =~= ps);
        let mut i: usize = 0;
        while i < n
            invariant
                n == ps.len(),
                ps == cfg.overrides.pairs(),
                i <= n,
                spec_resolve(*cfg) == spec_apply_overrides(s, ps.skip(i as int)),
            decreases n - i,
        {
            let (key, val) = cfg.overrides.entry(i);
            let chars = chars_of(val.as_str());
            assert(ps.skip(i as int).drop_first() =~= ps.skip(i + 1));
            if chars.len() == 1 && !is_wide_estimate(chars[0]) {
                apply_override(&mut s, key.as_str(), chars[0]);
            }
            i += 1;
        }
        s
    }

    /// Build a `SymbolSet` from four named presets (box, arrow, portal, path).
    /// Unknown preset names fall back to the category default (same as `resolve`).
    pub fn from_preset_names(box_: &str, arrow: &str, portal: &str, path: &str) -> (r: SymbolSet)
        ensures
            forall|cfg: SymbolConfig|
                #![trigger spec_resolve(cfg)]
                cfg.box_style@ == box_@ && cfg.arrow_set@ == arrow@ && cfg.portal_icons@ == portal@
                    && cfg.path_style@ == path@ && cfg.diagonal_corners && cfg.overrides.pairs().len() == 0
                    ==> r == spec_resolve(cfg),
    {
        let cfg = SymbolConfig {
            box_style: owned(box_),
            arrow_set: owned(arrow),
            portal_icons: owned(portal),
            path_style: owned(path),
            badge_zcode: default_badge_zcode(),
            badge_glulx: default_badge_glulx(),
            badge_blorb: default_badge_blorb(),
            badge_save: default_badge_save(),
            badge_hint: default_badge_hint(),
            diagonal_corners: default_diagonal_corners(),
            overrides: StrMap::new(),
        };
        let r = SymbolSet::resolve(&cfg);
        assert(r == spec_preset_base(cfg));
        r
    }
}

/// Resolving the factory symbol configuration gives exactly the default set, so an
/// absent `[symbols]` section changes nothing.
pub proof fn lemma_factory_config_resolves_to_default(cfg: SymbolConfig)
    requires
        cfg.is_factory(),
    ensures
        spec_resolve(cfg) == default_symbol_set(),
{
    assert(cfg.overrides.pairs() =~= Seq::<(String, String)>::empty());
}

/// When no override value is usable (empty, several characters, or wide), the
/// resolved set is the preset set: bad overrides keep the preset glyphs.
pub proof fn lemma_unusable_overrides_keep_presets(cfg: SymbolConfig)
    requires
        forall|i: int| 0 <= i < cfg.overrides.pairs().len() ==> !valid_override(#[trigger] cfg.overrides.pairs()[i].1@),
    ensures
        spec_resolve(cfg) == spec_preset_base(cfg),
{
    lemma_skip_unusable(spec_preset_base(cfg), cfg.overrides.pairs());
}

proof fn lemma_skip_unusable(s: SymbolSet, ps: Seq<(String, String)>)
    requires
        forall|i: int| 0 <= i < ps.len() ==> !valid_override(#[trigger] ps[i].1@),
    ensures
        spec_apply_overrides(s, ps) == s,
    decreases ps.len(),
{
    if ps.len() > 0 {
        assert(!valid_override(ps[0].1@));
        assert forall|i: int| 0 <= i < ps.drop_first().len() implies !valid_override(
            #[trigger] ps.drop_first()[i].1@,
        ) by {
            assert(ps.drop_first()[i] == ps[i + 1]);
        }
        lemma_skip_unusable(s, ps.drop_first());
    }
}

/// Every name that `preset_names` lists selects a preset, and the first name of
/// each category selects that category's default glyphs.
pub proof fn lemma_listed_presets_exist()
    ensures
        forall|i: int| 0 <= i < 7 ==> (#[trigger] spec_boxstyle_preset(
            spec_boxstyle_preset_names()[i]@,
        )) is Some,
        forall|i: int| 0 <= i < 7 ==> (#[trigger] spec_arrows_preset(
            spec_arrows_preset_names()[i]@,
        )) is Some,
        forall|i: int| 0 <= i < 3 ==> (#[trigger] spec_pathglyphs_preset(
            spec_pathglyphs_preset_names()[i]@,
        )) is Some,
        forall|i: int| 0 <= i < 3 ==> (#[trigger] spec_portalglyphs_preset(
            spec_portalglyphs_preset_names()[i]@,
        )) is Some,
        spec_boxstyle_preset("rounded"@) == Some(default_symbol_set().room_normal),
        spec_arrows_preset("filled"@) == Some(default_symbol_set().arrows),
        spec_pathglyphs_preset("light"@) == Some(default_symbol_set().path),
        spec_portalglyphs_preset("ascii"@) == Some(default_symbol_set().portal),
{
}

} // verus!
