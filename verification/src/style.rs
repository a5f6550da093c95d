//! The style-file model: per-selector declarations, symbol settings,
//! transcript rules and the status bar, and how two style documents layer.
//!
//! A [`Decl`] is one CSS-ish declaration block (one selector's worth of
//! properties); every field is optional so that an unset field is told apart
//! from an explicitly set one. [`merge`] layers documents with
//! present-keys-only semantics.

use vstd::prelude::*;
use crate::config::{
    default_arrow_set, default_badge_blorb, default_badge_glulx, default_badge_hint,
    default_badge_save, default_badge_zcode, default_box_style, default_path_style,
    default_portal_icons, spec_default_arrow_set, spec_default_badge_blorb,
    spec_default_badge_glulx, spec_default_badge_hint, spec_default_badge_save,
    spec_default_badge_zcode, spec_default_box_style, spec_default_path_style,
    spec_default_portal_icons, SymbolConfig,
};
use crate::strmap::{
    insert_all, insert_entry, lemma_insert_all_push, lemma_insert_entry, lemma_lex_irreflexive,
    lemma_lex_trans, lemma_lookup_absent, lookup, sorted_keys, Duplicate, StrMap,
};
use crate::colors::{
    border_style_name, hex_val, is_hex_color, mods_contain, named_color, no_mods, parse_border_style,
    parse_color_value, plain_style, spec_align_str, spec_border_style_name, spec_parse_border_style,
    spec_parse_color_value, spec_patch, spec_placement_from_token, spec_placement_token, BorderStyle,
    is_terminal_default, Align, Color, ColorScheme, CompiledRule, DialogPlacement, GhosttyScheme,
    Modifier, PaneGlyphs, PaneSides, StatusBarLayout, StatusSegment, Style,
};
use crate::slash::opt_view;
use crate::symbols::{spec_preset_base, spec_resolve, SymbolSet};
use crate::text::{
    all_digits, chars_of, digits_value, eq_lit, is_digit, join2, owned, path_join, push_char,
    spec_path_join, strings_view,
};

verus! {

/// `a` if it is set, else `b` (`Option::or`).
pub open spec fn or_else<T>(a: Option<T>, b: Option<T>) -> Option<T> {
    match a {
        Some(x) => Some(x),
        None => b,
    }
}

/// A copy of an optional string.
pub fn dup_opt(o: &Option<String>) -> (r: Option<String>)
    ensures
        r == *o,
{
    match o {
        Some(s) => Some(s.clone()),
        None => None,
    }
}

/// `over` if it is set, else `base`, copied.
fn or_string(over: &Option<String>, base: &Option<String>) -> (r: Option<String>)
    ensures
        r == or_else(*over, *base),
{
    match over {
        Some(s) => Some(s.clone()),
        None => dup_opt(base),
    }
}

// ── Decl ─────────────────────────────────────────────────────────────────────

/// A partial style declaration: every field is optional so unset fields are
/// distinguished from explicitly set ones. Border-only fields are read only for
/// border selectors, the placement fields only for `dialog`.
#[derive(Debug, Clone, PartialEq)]
pub struct Decl {
    pub fg: Option<String>,
    pub bg: Option<String>,
    pub bold: Option<bool>,
    pub italic: Option<bool>,
    pub underline: Option<bool>,
    pub dim: Option<bool>,
    pub reversed: Option<bool>,
    /// Border-style name (`single`, `double`, …); border selectors only.
    pub style: Option<String>,
    /// Per-side border overrides (border selectors only); a side falls back to `style`.
    pub style_top: Option<String>,
    pub style_bottom: Option<String>,
    pub style_left: Option<String>,
    pub style_right: Option<String>,
    /// Whether the pane's header strip is shown (`story_border` / `map_border` only).
    pub header: Option<bool>,
    /// Shadow flag; `dialog` only.
    pub shadow: Option<bool>,
    /// Placement token (center/top/bottom/left/right/corners); `dialog` only.
    pub placement: Option<String>,
    /// Placement margin in cells from the anchored edge; `dialog` only.
    pub margin: Option<u16>,
    /// Per-side/corner glyph overrides (border selectors only).
    pub glyph_top: Option<String>,
    pub glyph_bottom: Option<String>,
    pub glyph_left: Option<String>,
    pub glyph_right: Option<String>,
    pub glyph_tl: Option<String>,
    pub glyph_tr: Option<String>,
    pub glyph_bl: Option<String>,
    pub glyph_br: Option<String>,
}

/// The declaration that sets nothing.
pub open spec fn empty_decl() -> Decl {
    Decl {
        fg: None,
        bg: None,
        bold: None,
        italic: None,
        underline: None,
        dim: None,
        reversed: None,
        style: None,
        style_top: None,
        style_bottom: None,
        style_left: None,
        style_right: None,
        header: None,
        shadow: None,
        placement: None,
        margin: None,
        glyph_top: None,
        glyph_bottom: None,
        glyph_left: None,
        glyph_right: None,
        glyph_tl: None,
        glyph_tr: None,
        glyph_bl: None,
        glyph_br: None,
    }
}

impl Default for Decl {
    fn default() -> (r: Decl)
        ensures
            r == empty_decl(),
    {
        Decl {
            fg: None,
            bg: None,
            bold: None,
            italic: None,
            underline: None,
            dim: None,
            reversed: None,
            style: None,
            style_top: None,
            style_bottom: None,
            style_left: None,
            style_right: None,
            header: None,
            shadow: None,
            placement: None,
            margin: None,
            glyph_top: None,
            glyph_bottom: None,
            glyph_left: None,
            glyph_right: None,
            glyph_tl: None,
            glyph_tr: None,
            glyph_bl: None,
            glyph_br: None,
        }
    }
}

impl Duplicate for Decl {
    fn duplicate(&self) -> (r: Decl) {
        Decl {
            fg: dup_opt(&self.fg),
            bg: dup_opt(&self.bg),
            bold: self.bold,
            italic: self.italic,
            underline: self.underline,
            dim: self.dim,
            reversed: self.reversed,
            style: dup_opt(&self.style),
            style_top: dup_opt(&self.style_top),
            style_bottom: dup_opt(&self.style_bottom),
            style_left: dup_opt(&self.style_left),
            style_right: dup_opt(&self.style_right),
            header: self.header,
            shadow: self.shadow,
            placement: dup_opt(&self.placement),
            margin: self.margin,
            glyph_top: dup_opt(&self.glyph_top),
            glyph_bottom: dup_opt(&self.glyph_bottom),
            glyph_left: dup_opt(&self.glyph_left),
            glyph_right: dup_opt(&self.glyph_right),
            glyph_tl: dup_opt(&self.glyph_tl),
            glyph_tr: dup_opt(&self.glyph_tr),
            glyph_bl: dup_opt(&self.glyph_bl),
            glyph_br: dup_opt(&self.glyph_br),
        }
    }
}

/// Field-level merge: each field of `over` wins where it is set.
pub open spec fn spec_merge_decl(base: Decl, over: Decl) -> Decl {
    Decl {
        fg: or_else(over.fg, base.fg),
        bg: or_else(over.bg, base.bg),
        bold: or_else(over.bold, base.bold),
        italic: or_else(over.italic, base.italic),
        underline: or_else(over.underline, base.underline),
        dim: or_else(over.dim, base.dim),
        reversed: or_else(over.reversed, base.reversed),
        style: or_else(over.style, base.style),
        style_top: or_else(over.style_top, base.style_top),
        style_bottom: or_else(over.style_bottom, base.style_bottom),
        style_left: or_else(over.style_left, base.style_left),
        style_right: or_else(over.style_right, base.style_right),
        header: or_else(over.header, base.header),
        shadow: or_else(over.shadow, base.shadow),
        placement: or_else(over.placement, base.placement),
        margin: or_else(over.margin, base.margin),
        glyph_top: or_else(over.glyph_top, base.glyph_top),
        glyph_bottom: or_else(over.glyph_bottom, base.glyph_bottom),
        glyph_left: or_else(over.glyph_left, base.glyph_left),
        glyph_right: or_else(over.glyph_right, base.glyph_right),
        glyph_tl: or_else(over.glyph_tl, base.glyph_tl),
        glyph_tr: or_else(over.glyph_tr, base.glyph_tr),
        glyph_bl: or_else(over.glyph_bl, base.glyph_bl),
        glyph_br: or_else(over.glyph_br, base.glyph_br),
    }
}

/// Field-level merge of two [`Decl`]s: for each field, `over` wins if set.
pub fn merge_decl(base: &Decl, over: &Decl) -> (r: Decl)
    ensures
        r == spec_merge_decl(*base, *over),
{
    Decl {
        fg: or_string(&over.fg, &base.fg),
        bg: or_string(&over.bg, &base.bg),
        bold: if over.bold.is_some() { over.bold } else { base.bold },
        italic: if over.italic.is_some() { over.italic } else { base.italic },
        underline: if over.underline.is_some() { over.underline } else { base.underline },
        dim: if over.dim.is_some() { over.dim } else { base.dim },
        reversed: if over.reversed.is_some() { over.reversed } else { base.reversed },
        style: or_string(&over.style, &base.style),
        style_top: or_string(&over.style_top, &base.style_top),
        style_bottom: or_string(&over.style_bottom, &base.style_bottom),
        style_left: or_string(&over.style_left, &base.style_left),
        style_right: or_string(&over.style_right, &base.style_right),
        header: if over.header.is_some() { over.header } else { base.header },
        shadow: if over.shadow.is_some() { over.shadow } else { base.shadow },
        placement: or_string(&over.placement, &base.placement),
        margin: if over.margin.is_some() { over.margin } else { base.margin },
        glyph_top: or_string(&over.glyph_top, &base.glyph_top),
        glyph_bottom: or_string(&over.glyph_bottom, &base.glyph_bottom),
        glyph_left: or_string(&over.glyph_left, &base.glyph_left),
        glyph_right: or_string(&over.glyph_right, &base.glyph_right),
        glyph_tl: or_string(&over.glyph_tl, &base.glyph_tl),
        glyph_tr: or_string(&over.glyph_tr, &base.glyph_tr),
        glyph_bl: or_string(&over.glyph_bl, &base.glyph_bl),
        glyph_br: or_string(&over.glyph_br, &base.glyph_br),
    }
}

// ── Symbols, colors, rules, status bar, document ─────────────────────────────

/// Partial symbol configuration from a style file: an unset preset falls back to
/// the configuration default in [`finalize_symbols`].
#[derive(Debug, Clone, PartialEq)]
pub struct StyleSymbols {
    pub box_style: Option<String>,
    pub arrow_set: Option<String>,
    pub portal_icons: Option<String>,
    pub path_style: Option<String>,
    pub badge_zcode: Option<String>,
    pub badge_glulx: Option<String>,
    pub badge_blorb: Option<String>,
    pub badge_save: Option<String>,
    pub badge_hint: Option<String>,
    /// Diagonal stubs out of room corners for ne/nw/se/sw exits; unset means the
    /// configuration default (on).
    pub diagonal_corners: Option<bool>,
    pub overrides: StrMap<String>,
}

impl Default for StyleSymbols {
    fn default() -> (r: StyleSymbols)
        ensures
            r.box_style is None,
            r.arrow_set is None,
            r.portal_icons is None,
            r.path_style is None,
            r.badge_zcode is None,
            r.badge_glulx is None,
            r.badge_blorb is None,
            r.badge_save is None,
            r.badge_hint is None,
            r.diagonal_corners is None,
            r.overrides.pairs().len() == 0,
    {
        StyleSymbols {
            box_style: None,
            arrow_set: None,
            portal_icons: None,
            path_style: None,
            badge_zcode: None,
            badge_glulx: None,
            badge_blorb: None,
            badge_save: None,
            badge_hint: None,
            diagonal_corners: None,
            overrides: StrMap::new(),
        }
    }
}

/// Partial color configuration: an optional named scheme and the selector
/// declarations, keyed by selector.
#[derive(Debug, Clone, PartialEq)]
pub struct StyleColors {
    pub scheme: Option<String>,
    pub selectors: StrMap<Decl>,
}

impl Default for StyleColors {
    fn default() -> (r: StyleColors)
        ensures
            r.scheme is None,
            r.selectors.pairs().len() == 0,
    {
        StyleColors { scheme: None, selectors: StrMap::new() }
    }
}

/// A raw (uncompiled) transcript-styling rule from `[[transcript.rule]]`.
#[derive(Debug, Clone, PartialEq)]
pub struct RawRule {
    /// The regex source (the rule's `match` key).
    pub pattern: String,
    /// The style applied on a match.
    pub decl: Decl,
}

impl Default for RawRule {
    fn default() -> (r: RawRule)
        ensures
            r.pattern@.len() == 0,
            r.decl == empty_decl(),
    {
        RawRule { pattern: String::new(), decl: Decl::default() }
    }
}

impl Duplicate for RawRule {
    fn duplicate(&self) -> (r: RawRule) {
        RawRule { pattern: self.pattern.clone(), decl: self.decl.duplicate() }
    }
}

/// A raw (uncompiled) status-bar segment from `[[statusbar.segment]]`.
#[derive(Debug, Clone, PartialEq)]
pub struct RawSegment {
    /// Text template: literal text mixed with `{placeholder}` tokens.
    pub text: String,
    /// Cluster name: `left` | `center` | `right` (anything else is `left`).
    pub align: String,
    /// The style of the segment.
    pub decl: Decl,
}

impl Default for RawSegment {
    fn default() -> (r: RawSegment)
        ensures
            r.text@.len() == 0,
            r.align@.len() == 0,
            r.decl == empty_decl(),
    {
        RawSegment { text: String::new(), align: String::new(), decl: Decl::default() }
    }
}

impl Duplicate for RawSegment {
    fn duplicate(&self) -> (r: RawSegment) {
        RawSegment { text: self.text.clone(), align: self.align.clone(), decl: self.decl.duplicate() }
    }
}

/// A raw `[statusbar]` block: an optional frame and the ordered segments.
#[derive(Debug, Clone, PartialEq)]
pub struct RawStatusBar {
    pub border: Option<String>,
    pub border_fg: Option<String>,
    pub segments: Vec<RawSegment>,
}

impl Default for RawStatusBar {
    fn default() -> (r: RawStatusBar)
        ensures
            r.border is None,
            r.border_fg is None,
            r.segments@.len() == 0,
    {
        RawStatusBar { border: None, border_fg: None, segments: Vec::new() }
    }
}

/// A complete (partial/raw) style document.
#[derive(Debug, Clone, PartialEq)]
pub struct StyleDoc {
    pub colors: StyleColors,
    pub symbols: StyleSymbols,
    /// User story-styling rules from `[[transcript.rule]]`, in file order.
    pub transcript_rules: Vec<RawRule>,
    /// The status-bar block from `[statusbar]` / `[[statusbar.segment]]`.
    pub status_bar: RawStatusBar,
}

/// The document that sets nothing.
pub open spec fn is_empty_doc(d: StyleDoc) -> bool {
    &&& d.colors.scheme is None
    &&& d.colors.selectors.pairs().len() == 0
    &&& d.symbols.box_style is None
    &&& d.symbols.arrow_set is None
    &&& d.symbols.portal_icons is None
    &&& d.symbols.path_style is None
    &&& d.symbols.badge_zcode is None
    &&& d.symbols.badge_glulx is None
    &&& d.symbols.badge_blorb is None
    &&& d.symbols.badge_save is None
    &&& d.symbols.badge_hint is None
    &&& d.symbols.diagonal_corners is None
    &&& d.symbols.overrides.pairs().len() == 0
    &&& d.transcript_rules@.len() == 0
    &&& d.status_bar.border is None
    &&& d.status_bar.border_fg is None
    &&& d.status_bar.segments@.len() == 0
}

impl Default for StyleDoc {
    fn default() -> (r: StyleDoc)
        ensures
            is_empty_doc(r),
    {
        StyleDoc {
            colors: StyleColors::default(),
            symbols: StyleSymbols::default(),
            transcript_rules: Vec::new(),
            status_bar: RawStatusBar::default(),
        }
    }
}

/// A copy of a list, element for element.
pub fn dup_vec<T: Duplicate>(v: &Vec<T>) -> (r: Vec<T>)
    ensures
        r@ == v@,
{
    let mut out: Vec<T> = Vec::new();
    let mut i: usize = 0;
    while i < v.len()
        invariant
            i <= v@.len(),
            out@ == v@.take(i as int),
        decreases v@.len() - i,
    {
        out.push(v[i].duplicate());
        i += 1;
        assert(out@ =~= v@.take(i as int));
    }
    assert(v@.take(i as int) =~= v@);
    out
}

// ── merge ────────────────────────────────────────────────────────────────────

/// What a key holds after merging: the `over` declaration is field-merged onto
/// the `base` one; a key in only one side keeps that side's declaration.
pub open spec fn combine_decl(base: Option<Decl>, over: Option<Decl>) -> Option<Decl> {
    match (base, over) {
        (_, None) => base,
        (None, Some(o)) => Some(o),
        (Some(b), Some(o)) => Some(spec_merge_decl(b, o)),
    }
}

/// The selector entries after folding each entry of `over`, in order, into `ps`.
pub open spec fn merge_entries(ps: Seq<(String, Decl)>, over: Seq<(String, Decl)>) -> Seq<(String, Decl)>
    decreases over.len(),
{
    if over.len() == 0 {
        ps
    } else {
        let v = combine_decl(lookup(ps, over[0].0@), Some(over[0].1));
        merge_entries(insert_entry(ps, over[0].0, v->0), over.drop_first())
    }
}

/// `r` is `over` layered on `base`, field by field.
pub open spec fn is_merge(base: StyleDoc, over: StyleDoc, r: StyleDoc) -> bool {
    &&& r.colors.scheme == or_else(over.colors.scheme, base.colors.scheme)
    &&& r.colors.selectors.pairs() == merge_entries(base.colors.selectors.pairs(), over.colors.selectors.pairs())
    &&& r.symbols.box_style == or_else(over.symbols.box_style, base.symbols.box_style)
    &&& r.symbols.arrow_set == or_else(over.symbols.arrow_set, base.symbols.arrow_set)
    &&& r.symbols.portal_icons == or_else(over.symbols.portal_icons, base.symbols.portal_icons)
    &&& r.symbols.path_style == or_else(over.symbols.path_style, base.symbols.path_style)
    &&& r.symbols.badge_zcode == or_else(over.symbols.badge_zcode, base.symbols.badge_zcode)
    &&& r.symbols.badge_glulx == or_else(over.symbols.badge_glulx, base.symbols.badge_glulx)
    &&& r.symbols.badge_blorb == or_else(over.symbols.badge_blorb, base.symbols.badge_blorb)
    &&& r.symbols.badge_save == or_else(over.symbols.badge_save, base.symbols.badge_save)
    &&& r.symbols.badge_hint == or_else(over.symbols.badge_hint, base.symbols.badge_hint)
    &&& r.symbols.diagonal_corners == or_else(over.symbols.diagonal_corners, base.symbols.diagonal_corners)
    &&& r.symbols.overrides.pairs() == insert_all(base.symbols.overrides.pairs(), over.symbols.overrides.pairs())
    &&& r.transcript_rules@ == (if over.transcript_rules@.len() == 0 {
        base.transcript_rules@
    } else {
        over.transcript_rules@
    })
    &&& r.status_bar.border == or_else(over.status_bar.border, base.status_bar.border)
    &&& r.status_bar.border_fg == or_else(over.status_bar.border_fg, base.status_bar.border_fg)
    &&& r.status_bar.segments@ == (if over.status_bar.segments@.len() == 0 {
        base.status_bar.segments@
    } else {
        over.status_bar.segments@
    })
}

fn merge_selectors(base: &StrMap<Decl>, over: &StrMap<Decl>) -> (r: StrMap<Decl>)
    ensures
        r.pairs() == merge_entries(base.pairs(), over.pairs()),
{
    let mut sel = base.duplicate_map();
    let ghost start = base.pairs();
    let mut i: usize = 0;
    assert(over.pairs().skip(0) =~= over.pairs());
    while i < over.len()
        invariant
            i <= over.pairs().len(),
            merge_entries(start, over.pairs()) == merge_entries(sel.pairs(), over.pairs().skip(i as int)),
        decreases over.pairs().len() - i,
    {
        let (k, od) = over.entry(i);
        let merged = match sel.get(k.as_str()) {
            Some(b) => merge_decl(b, od),
            None => od.duplicate(),
        };
        sel.insert(k.clone(), merged);
        assert(over.pairs().skip(i as int).drop_first() =~= over.pairs().skip(i + 1));
        i += 1;
    }
    assert(over.pairs().skip(i as int) =~= Seq::<(String, Decl)>::empty());
    sel
}

/// Merges two documents with present-keys-only semantics: `over` wins wherever
/// it sets something; selectors present in both are merged field by field;
/// symbol overrides are a union with `over` winning per key; transcript rules
/// and status-bar segments are replaced as a whole when `over` has any.
pub fn merge(base: &StyleDoc, over: &StyleDoc) -> (r: StyleDoc)
    ensures
        is_merge(*base, *over, r),
{
    let scheme = or_string(&over.colors.scheme, &base.colors.scheme);
    let selectors = merge_selectors(&base.colors.selectors, &over.colors.selectors);
    let mut ov = base.symbols.overrides.duplicate_map();
    ov.extend_from(&over.symbols.overrides);
    let symbols = StyleSymbols {
        box_style: or_string(&over.symbols.box_style, &base.symbols.box_style),
        arrow_set: or_string(&over.symbols.arrow_set, &base.symbols.arrow_set),
        portal_icons: or_string(&over.symbols.portal_icons, &base.symbols.portal_icons),
        path_style: or_string(&over.symbols.path_style, &base.symbols.path_style),
        badge_zcode: or_string(&over.symbols.badge_zcode, &base.symbols.badge_zcode),
        badge_glulx: or_string(&over.symbols.badge_glulx, &base.symbols.badge_glulx),
        badge_blorb: or_string(&over.symbols.badge_blorb, &base.symbols.badge_blorb),
        badge_save: or_string(&over.symbols.badge_save, &base.symbols.badge_save),
        badge_hint: or_string(&over.symbols.badge_hint, &base.symbols.badge_hint),
        diagonal_corners: if over.symbols.diagonal_corners.is_some() {
            over.symbols.diagonal_corners
        } else {
            base.symbols.diagonal_corners
        },
        overrides: ov,
    };
    let transcript_rules = if over.transcript_rules.len() == 0 {
        dup_vec(&base.transcript_rules)
    } else {
        dup_vec(&over.transcript_rules)
    };
    let status_bar = RawStatusBar {
        border: or_string(&over.status_bar.border, &base.status_bar.border),
        border_fg: or_string(&over.status_bar.border_fg, &base.status_bar.border_fg),
        segments: if over.status_bar.segments.len() == 0 {
            dup_vec(&base.status_bar.segments)
        } else {
            dup_vec(&over.status_bar.segments)
        },
    };
    StyleDoc { colors: StyleColors { scheme, selectors }, symbols, transcript_rules, status_bar }
}

// ── finalize_symbols, personal_style_path ────────────────────────────────────

/// The configuration value of an optional preset: the set value, else `dflt`.
pub open spec fn preset_or(o: Option<String>, dflt: Seq<char>) -> Seq<char> {
    match o {
        Some(s) => s@,
        None => dflt,
    }
}

fn string_or(o: &Option<String>, dflt: String) -> (r: String)
    ensures
        r@ == preset_or(*o, dflt@),
{
    match o {
        Some(s) => s.clone(),
        None => dflt,
    }
}

/// Resolves partial symbol settings into a concrete configuration: each unset
/// preset takes its configuration default; the overrides are copied as they are.
pub fn finalize_symbols(s: &StyleSymbols) -> (r: SymbolConfig)
    ensures
        r.box_style@ == preset_or(s.box_style, spec_default_box_style()),
        r.arrow_set@ == preset_or(s.arrow_set, spec_default_arrow_set()),
        r.portal_icons@ == preset_or(s.portal_icons, spec_default_portal_icons()),
        r.path_style@ == preset_or(s.path_style, spec_default_path_style()),
        r.badge_zcode@ == preset_or(s.badge_zcode, spec_default_badge_zcode()),
        r.badge_glulx@ == preset_or(s.badge_glulx, spec_default_badge_glulx()),
        r.badge_blorb@ == preset_or(s.badge_blorb, spec_default_badge_blorb()),
        r.badge_save@ == preset_or(s.badge_save, spec_default_badge_save()),
        r.badge_hint@ == preset_or(s.badge_hint, spec_default_badge_hint()),
        r.diagonal_corners == match s.diagonal_corners {
            Some(b) => b,
            None => true,
        },
        r.overrides.pairs() == s.overrides.pairs(),
{
    SymbolConfig {
        box_style: string_or(&s.box_style, default_box_style()),
        arrow_set: string_or(&s.arrow_set, default_arrow_set()),
        portal_icons: string_or(&s.portal_icons, default_portal_icons()),
        path_style: string_or(&s.path_style, default_path_style()),
        badge_zcode: string_or(&s.badge_zcode, default_badge_zcode()),
        badge_glulx: string_or(&s.badge_glulx, default_badge_glulx()),
        badge_blorb: string_or(&s.badge_blorb, default_badge_blorb()),
        badge_save: string_or(&s.badge_save, default_badge_save()),
        badge_hint: string_or(&s.badge_hint, default_badge_hint()),
        diagonal_corners: match s.diagonal_corners {
            Some(b) => b,
            None => true,
        },
        overrides: s.overrides.duplicate_map(),
    }
}

/// The path of the user's personal style file: `user_dir/style.toml`.
pub fn personal_style_path(user_dir: &str) -> (r: String)
    ensures
        r@ == spec_path_join(user_dir@, "style.toml"@),
{
    path_join(user_dir, "style.toml")
}

// ── Laws of merging ──────────────────────────────────────────────────────────

pub(crate) proof fn lemma_sorted_tail<V>(ps: Seq<(String, V)>)
    requires
        sorted_keys(ps),
        ps.len() > 0,
    ensures
        sorted_keys(ps.drop_first()),
        lookup(ps.drop_first(), ps[0].0@) is None,
{
    let t = ps.drop_first();
    assert forall|a: int, b: int| 0 <= a < b < t.len() implies lex_lt_keys(#[trigger] t[a].0@, #[trigger] t[b].0@) by {
        assert(t[a] == ps[a + 1] && t[b] == ps[b + 1]);
    }
    assert forall|i: int| 0 <= i < t.len() implies #[trigger] t[i].0@ != ps[0].0@ by {
        assert(t[i] == ps[i + 1]);
        assert(crate::strmap::lex_lt(ps[0].0@, ps[i + 1].0@));
        lemma_lex_irreflexive(ps[0].0@);
    }
    lemma_lookup_absent(t, ps[0].0@);
}

/// Key order on selector names (the order of `String`s).
pub open spec fn lex_lt_keys(a: Seq<char>, b: Seq<char>) -> bool {
    crate::strmap::lex_lt(a, b)
}

proof fn lemma_merge_entries_lookup(ps: Seq<(String, Decl)>, over: Seq<(String, Decl)>, q: Seq<char>)
    requires
        sorted_keys(ps),
        sorted_keys(over),
    ensures
        sorted_keys(merge_entries(ps, over)),
        lookup(merge_entries(ps, over), q) == combine_decl(lookup(ps, q), lookup(over, q)),
    decreases over.len(),
{
    if over.len() > 0 {
        let k = over[0].0;
        let v = combine_decl(lookup(ps, k@), Some(over[0].1))->0;
        lemma_insert_entry(ps, k, v);
        lemma_sorted_tail(over);
        let ps2 = insert_entry(ps, k, v);
        lemma_merge_entries_lookup(ps2, over.drop_first(), q);
        if q != k@ {
            assert(lookup(ps2, q) == lookup(ps, q));
        }
    }
}

proof fn lemma_insert_all_lookup<V>(ps: Seq<(String, V)>, over: Seq<(String, V)>, q: Seq<char>)
    requires
        sorted_keys(ps),
        sorted_keys(over),
    ensures
        sorted_keys(insert_all(ps, over)),
        lookup(insert_all(ps, over), q) == or_else(lookup(over, q), lookup(ps, q)),
    decreases over.len(),
{
    if over.len() > 0 {
        let k = over[0].0;
        lemma_insert_entry(ps, k, over[0].1);
        lemma_sorted_tail(over);
        let ps2 = insert_entry(ps, k, over[0].1);
        lemma_insert_all_lookup(ps2, over.drop_first(), q);
        if q != k@ {
            assert(lookup(ps2, q) == lookup(ps, q));
        }
    }
}

/// The maps of a document are well formed (their keys strictly increase).
pub open spec fn doc_wf(d: StyleDoc) -> bool {
    d.colors.selectors.wf() && d.symbols.overrides.wf()
}

/// After a merge, a selector holds the field-level merge of both sides' declarations
/// (or the one side that has it), and a symbol override holds `over`'s glyph where
/// `over` has one, else `base`'s: merging only affects the keys that `over` sets.
pub proof fn lemma_merge_per_key(base: StyleDoc, over: StyleDoc, r: StyleDoc, q: Seq<char>)
    requires
        doc_wf(base),
        doc_wf(over),
        is_merge(base, over, r),
    ensures
        r.colors.selectors.get_spec(q) == combine_decl(
            base.colors.selectors.get_spec(q),
            over.colors.selectors.get_spec(q),
        ),
        r.symbols.overrides.get_spec(q) == or_else(
            over.symbols.overrides.get_spec(q),
            base.symbols.overrides.get_spec(q),
        ),
{
    lemma_merge_entries_lookup(base.colors.selectors.pairs(), over.colors.selectors.pairs(), q);
    lemma_insert_all_lookup(base.symbols.overrides.pairs(), over.symbols.overrides.pairs(), q);
}

/// Two documents say the same thing: equal fields, and maps that bind every key alike.
pub open spec fn same_doc(a: StyleDoc, b: StyleDoc) -> bool {
    &&& a.colors.scheme == b.colors.scheme
    &&& forall|q: Seq<char>| #[trigger] a.colors.selectors.get_spec(q) == b.colors.selectors.get_spec(q)
    &&& a.symbols.box_style == b.symbols.box_style
    &&& a.symbols.arrow_set == b.symbols.arrow_set
    &&& a.symbols.portal_icons == b.symbols.portal_icons
    &&& a.symbols.path_style == b.symbols.path_style
    &&& a.symbols.badge_zcode == b.symbols.badge_zcode
    &&& a.symbols.badge_glulx == b.symbols.badge_glulx
    &&& a.symbols.badge_blorb == b.symbols.badge_blorb
    &&& a.symbols.badge_save == b.symbols.badge_save
    &&& a.symbols.badge_hint == b.symbols.badge_hint
    &&& a.symbols.diagonal_corners == b.symbols.diagonal_corners
    &&& forall|q: Seq<char>| #[trigger] a.symbols.overrides.get_spec(q) == b.symbols.overrides.get_spec(q)
    &&& a.transcript_rules@ == b.transcript_rules@
    &&& a.status_bar.border == b.status_bar.border
    &&& a.status_bar.border_fg == b.status_bar.border_fg
    &&& a.status_bar.segments@ == b.status_bar.segments@
}

/// Merging a document that sets nothing, over or under `d`, gives `d` back.
pub proof fn lemma_merge_identity(d: StyleDoc, empty: StyleDoc, over_empty: StyleDoc, under_empty: StyleDoc)
    requires
        doc_wf(d),
        doc_wf(empty),
        is_empty_doc(empty),
        is_merge(d, empty, over_empty),
        is_merge(empty, d, under_empty),
    ensures
        same_doc(over_empty, d),
        same_doc(under_empty, d),
{
    assert forall|q: Seq<char>| #[trigger] over_empty.colors.selectors.get_spec(q) == d.colors.selectors.get_spec(q) by {
        lemma_merge_per_key(d, empty, over_empty, q);
    }
    assert forall|q: Seq<char>| #[trigger] over_empty.symbols.overrides.get_spec(q) == d.symbols.overrides.get_spec(q) by {
        lemma_merge_per_key(d, empty, over_empty, q);
    }
    assert forall|q: Seq<char>| #[trigger] under_empty.colors.selectors.get_spec(q) == d.colors.selectors.get_spec(q) by {
        lemma_merge_per_key(empty, d, under_empty, q);
    }
    assert forall|q: Seq<char>| #[trigger] under_empty.symbols.overrides.get_spec(q) == d.symbols.overrides.get_spec(q) by {
        lemma_merge_per_key(empty, d, under_empty, q);
    }
    assert(under_empty.transcript_rules@ =~= d.transcript_rules@);
    assert(under_empty.status_bar.segments@ =~= d.status_bar.segments@);
}

#[verifier::spinoff_prover]
proof fn lemma_merge_decl_assoc(x: Decl, y: Decl, z: Decl)
    ensures
        spec_merge_decl(spec_merge_decl(x, y), z) == spec_merge_decl(x, spec_merge_decl(y, z)),
{
}

proof fn lemma_combine_assoc(x: Option<Decl>, y: Option<Decl>, z: Option<Decl>)
    ensures
        combine_decl(combine_decl(x, y), z) == combine_decl(x, combine_decl(y, z)),
{
    if x is Some && y is Some && z is Some {
        lemma_merge_decl_assoc(x->0, y->0, z->0);
    }
}

proof fn lemma_merge_assoc_key(
    a: StyleDoc,
    b: StyleDoc,
    c: StyleDoc,
    ab: StyleDoc,
    ab_c: StyleDoc,
    bc: StyleDoc,
    a_bc: StyleDoc,
    q: Seq<char>,
)
    requires
        doc_wf(a),
        doc_wf(b),
        doc_wf(c),
        doc_wf(ab),
        doc_wf(bc),
        is_merge(a, b, ab),
        is_merge(ab, c, ab_c),
        is_merge(b, c, bc),
        is_merge(a, bc, a_bc),
    ensures
        ab_c.colors.selectors.get_spec(q) == a_bc.colors.selectors.get_spec(q),
        ab_c.symbols.overrides.get_spec(q) == a_bc.symbols.overrides.get_spec(q),
{
    lemma_merge_per_key(a, b, ab, q);
    lemma_merge_per_key(ab, c, ab_c, q);
    lemma_merge_per_key(b, c, bc, q);
    lemma_merge_per_key(a, bc, a_bc, q);
    lemma_combine_assoc(
        a.colors.selectors.get_spec(q),
        b.colors.selectors.get_spec(q),
        c.colors.selectors.get_spec(q),
    );
}

/// Layering is associative: merging `c` over `merge(a, b)` says the same as
/// merging `merge(b, c)` over `a`, so a stack of style files can be folded in
/// either grouping.
pub proof fn lemma_merge_associative(
    a: StyleDoc,
    b: StyleDoc,
    c: StyleDoc,
    ab: StyleDoc,
    ab_c: StyleDoc,
    bc: StyleDoc,
    a_bc: StyleDoc,
)
    requires
        doc_wf(a),
        doc_wf(b),
        doc_wf(c),
        doc_wf(ab),
        doc_wf(bc),
        is_merge(a, b, ab),
        is_merge(ab, c, ab_c),
        is_merge(b, c, bc),
        is_merge(a, bc, a_bc),
    ensures
        same_doc(ab_c, a_bc),
{
    assert forall|q: Seq<char>| #[trigger] ab_c.colors.selectors.get_spec(q) == a_bc.colors.selectors.get_spec(q) by {
        lemma_merge_assoc_key(a, b, c, ab, ab_c, bc, a_bc, q);
    }
    assert forall|q: Seq<char>| #[trigger] ab_c.symbols.overrides.get_spec(q) == a_bc.symbols.overrides.get_spec(q) by {
        lemma_merge_assoc_key(a, b, c, ab, ab_c, bc, a_bc, q);
    }
    assert(ab_c.transcript_rules@ =~= a_bc.transcript_rules@);
    assert(ab_c.status_bar.segments@ =~= a_bc.status_bar.segments@);
}


// ── Selectors ────────────────────────────────────────────────────────────────

/// The recognized selectors for color declarations.
pub open spec fn spec_selector_fields() -> Seq<&'static str> {
    seq![
        "room",
        "room:current",
        "room:selected",
        "connector",
        "connector:distorted",
        "connector:portal",
        "shared_path",
        "border",
        "border:focused",
        "statusbar",
        "transcript",
        "transcript:input",
        "transcript:meta",
        "transcript:warning",
        "transcript:crash",
        "transcript:location",
        "transcript:system",
        "warning_marker",
        "suggestion",
        "suggestion_line",
        "input:text",
        "input:prompt",
        "scrollbar",
        "tidy_progress",
        "meta_marker",
        "hyperlink",
        "helpbar",
        "map_border",
        "story_border",
        "story_title",
        "inventory:dock",
        "story_info",
        "story_info:title",
        "story_info:label",
        "story_info:value",
        "story_info:blurb",
        "story_info:link",
        "story_info:cover",
        "story_badge",
        "story_header",
        "story_header:active",
        "story_author",
        "story_year",
        "story_no_metadata",
        "story_tile",
        "story_tile:selected",
        "graphics",
        "inline_image",
        "map_layer_tab",
        "map_layer_tab_active",
        "status_header",
        "input_line",
        "dialog",
        "dialog:title",
        "hotkey:key",
        "dialog:button",
        "dialog:button:active",
        "dialog:shadow",
        "room_panel",
        "upper_window",
        "upper_window_border",
        "sound_beep_high",
        "sound_beep_low",
        "loc_indicator",
        "map.tile.wall",
        "map.tile.floor",
        "map.tile.corridor",
        "map.tile.door",
        "map.tile.bridge",
        "map.tile.stairs",
        "map.tile.chamber",
        "map.tile.shadow",
        "map.tile.player",
        "map.tile.room-number",
    ]
}

/// The recognized selectors for color declarations.
pub fn selector_fields() -> (r: Vec<&'static str>)
    ensures
        r@ == spec_selector_fields(),
{
    vec![
        "room",
        "room:current",
        "room:selected",
        "connector",
        "connector:distorted",
        "connector:portal",
        "shared_path",
        "border",
        "border:focused",
        "statusbar",
        "transcript",
        "transcript:input",
        "transcript:meta",
        "transcript:warning",
        "transcript:crash",
        "transcript:location",
        "transcript:system",
        "warning_marker",
        "suggestion",
        "suggestion_line",
        "input:text",
        "input:prompt",
        "scrollbar",
        "tidy_progress",
        "meta_marker",
        "hyperlink",
        "helpbar",
        "map_border",
        "story_border",
        "story_title",
        "inventory:dock",
        "story_info",
        "story_info:title",
        "story_info:label",
        "story_info:value",
        "story_info:blurb",
        "story_info:link",
        "story_info:cover",
        "story_badge",
        "story_header",
        "story_header:active",
        "story_author",
        "story_year",
        "story_no_metadata",
        "story_tile",
        "story_tile:selected",
        "graphics",
        "inline_image",
        "map_layer_tab",
        "map_layer_tab_active",
        "status_header",
        "input_line",
        "dialog",
        "dialog:title",
        "hotkey:key",
        "dialog:button",
        "dialog:button:active",
        "dialog:shadow",
        "room_panel",
        "upper_window",
        "upper_window_border",
        "sound_beep_high",
        "sound_beep_low",
        "loc_indicator",
        "map.tile.wall",
        "map.tile.floor",
        "map.tile.corridor",
        "map.tile.door",
        "map.tile.bridge",
        "map.tile.stairs",
        "map.tile.chamber",
        "map.tile.shadow",
        "map.tile.player",
        "map.tile.room-number",
    ]
}

/// The selectors grouped into labeled sections for the style-editor board.
pub open spec fn spec_selector_groups() -> Seq<(&'static str, Seq<&'static str>)> {
    seq![
        ("Map", seq!["room", "room:current", "room:selected", "connector", "connector:distorted", "connector:portal", "shared_path", "map_border", "map_layer_tab", "map_layer_tab_active", "loc_indicator", "tidy_progress", "map.tile.wall", "map.tile.floor", "map.tile.corridor", "map.tile.door", "map.tile.bridge", "map.tile.stairs", "map.tile.chamber", "map.tile.shadow", "map.tile.player", "map.tile.room-number"]),
        ("Transcript", seq!["transcript", "transcript:input", "transcript:meta", "transcript:warning", "transcript:crash", "transcript:location", "transcript:system", "suggestion", "suggestion_line", "input:text", "input:prompt", "warning_marker", "meta_marker", "scrollbar", "hyperlink"]),
        ("Chrome", seq!["statusbar", "helpbar", "story_border", "story_title", "status_header", "input_line", "border:focused", "border", "inventory:dock"]),
        ("Story picker", seq!["story_info", "story_info:title", "story_info:label", "story_info:value", "story_info:blurb", "story_info:link", "story_info:cover", "story_badge", "story_header", "story_header:active", "story_author", "story_year", "story_no_metadata", "story_tile", "story_tile:selected"]),
        ("Dialogs", seq!["dialog", "dialog:title", "hotkey:key", "dialog:button", "dialog:button:active", "dialog:shadow"]),
        ("Upper window", seq!["room_panel", "upper_window", "upper_window_border"]),
        ("Sound", seq!["sound_beep_high", "sound_beep_low"]),
        ("Graphics", seq!["graphics", "inline_image"]),
    ]
}

/// The selectors grouped into labeled sections for the style-editor board.
/// `border` is reserved and non-visual; it sits in Chrome.
pub fn selector_groups() -> (r: Vec<(&'static str, Vec<&'static str>)>)
    ensures
        r@.len() == spec_selector_groups().len(),
        forall|i: int| 0 <= i < r@.len() ==> (#[trigger] r@[i]).0 == spec_selector_groups()[i].0
            && r@[i].1@ == spec_selector_groups()[i].1,
{
    let out = vec![
        ("Map", vec!["room", "room:current", "room:selected", "connector", "connector:distorted", "connector:portal", "shared_path", "map_border", "map_layer_tab", "map_layer_tab_active", "loc_indicator", "tidy_progress", "map.tile.wall", "map.tile.floor", "map.tile.corridor", "map.tile.door", "map.tile.bridge", "map.tile.stairs", "map.tile.chamber", "map.tile.shadow", "map.tile.player", "map.tile.room-number"]),
        ("Transcript", vec!["transcript", "transcript:input", "transcript:meta", "transcript:warning", "transcript:crash", "transcript:location", "transcript:system", "suggestion", "suggestion_line", "input:text", "input:prompt", "warning_marker", "meta_marker", "scrollbar", "hyperlink"]),
        ("Chrome", vec!["statusbar", "helpbar", "story_border", "story_title", "status_header", "input_line", "border:focused", "border", "inventory:dock"]),
        ("Story picker", vec!["story_info", "story_info:title", "story_info:label", "story_info:value", "story_info:blurb", "story_info:link", "story_info:cover", "story_badge", "story_header", "story_header:active", "story_author", "story_year", "story_no_metadata", "story_tile", "story_tile:selected"]),
        ("Dialogs", vec!["dialog", "dialog:title", "hotkey:key", "dialog:button", "dialog:button:active", "dialog:shadow"]),
        ("Upper window", vec!["room_panel", "upper_window", "upper_window_border"]),
        ("Sound", vec!["sound_beep_high", "sound_beep_low"]),
        ("Graphics", vec!["graphics", "inline_image"]),
    ];
    assert(out@.len() == spec_selector_groups().len());
    out
}

/// `sel` appears in some group.
pub open spec fn grouped(sel: &'static str) -> bool {
    exists|g: int, j: int| 0 <= g < spec_selector_groups().len()
        && 0 <= j < spec_selector_groups()[g].1.len()
        && #[trigger] spec_selector_groups()[g].1[j] == sel
}

/// Every recognized selector appears in a group of the style-editor board, and
/// every grouped selector is a recognized one.
pub proof fn lemma_selector_groups_cover_fields()
    ensures
        forall|i: int| 0 <= i < spec_selector_fields().len() ==> grouped(#[trigger] spec_selector_fields()[i]),
        forall|g: int, j: int| 0 <= g < spec_selector_groups().len() && 0 <= j < spec_selector_groups()[g].1.len()
            ==> spec_selector_fields().contains(#[trigger] spec_selector_groups()[g].1[j]),
{
    let f = spec_selector_fields();
    let gs = spec_selector_groups();
    assert(gs[0].1[0] == f[0]);
    assert(gs[0].1[1] == f[1]);
    assert(gs[0].1[2] == f[2]);
    assert(gs[0].1[3] == f[3]);
    assert(gs[0].1[4] == f[4]);
    assert(gs[0].1[5] == f[5]);
    assert(gs[0].1[6] == f[6]);
    assert(gs[2].1[7] == f[7]);
    assert(gs[2].1[6] == f[8]);
    assert(gs[2].1[0] == f[9]);
    assert(gs[1].1[0] == f[10]);
    assert(gs[1].1[1] == f[11]);
    assert(gs[1].1[2] == f[12]);
    assert(gs[1].1[3] == f[13]);
    assert(gs[1].1[4] == f[14]);
    assert(gs[1].1[5] == f[15]);
    assert(gs[1].1[6] == f[16]);
    assert(gs[1].1[11] == f[17]);
    assert(gs[1].1[7] == f[18]);
    assert(gs[1].1[8] == f[19]);
    assert(gs[1].1[9] == f[20]);
    assert(gs[1].1[10] == f[21]);
    assert(gs[1].1[13] == f[22]);
    assert(gs[0].1[11] == f[23]);
    assert(gs[1].1[12] == f[24]);
    assert(gs[1].1[14] == f[25]);
    assert(gs[2].1[1] == f[26]);
    assert(gs[0].1[7] == f[27]);
    assert(gs[2].1[2] == f[28]);
    assert(gs[2].1[3] == f[29]);
    assert(gs[2].1[8] == f[30]);
    assert(gs[3].1[0] == f[31]);
    assert(gs[3].1[1] == f[32]);
    assert(gs[3].1[2] == f[33]);
    assert(gs[3].1[3] == f[34]);
    assert(gs[3].1[4] == f[35]);
    assert(gs[3].1[5] == f[36]);
    assert(gs[3].1[6] == f[37]);
    assert(gs[3].1[7] == f[38]);
    assert(gs[3].1[8] == f[39]);
    assert(gs[3].1[9] == f[40]);
    assert(gs[3].1[10] == f[41]);
    assert(gs[3].1[11] == f[42]);
    assert(gs[3].1[12] == f[43]);
    assert(gs[3].1[13] == f[44]);
    assert(gs[3].1[14] == f[45]);
    assert(gs[7].1[0] == f[46]);
    assert(gs[7].1[1] == f[47]);
    assert(gs[0].1[8] == f[48]);
    assert(gs[0].1[9] == f[49]);
    assert(gs[2].1[4] == f[50]);
    assert(gs[2].1[5] == f[51]);
    assert(gs[4].1[0] == f[52]);
    assert(gs[4].1[1] == f[53]);
    assert(gs[4].1[2] == f[54]);
    assert(gs[4].1[3] == f[55]);
    assert(gs[4].1[4] == f[56]);
    assert(gs[4].1[5] == f[57]);
    assert(gs[5].1[0] == f[58]);
    assert(gs[5].1[1] == f[59]);
    assert(gs[5].1[2] == f[60]);
    assert(gs[6].1[0] == f[61]);
    assert(gs[6].1[1] == f[62]);
    assert(gs[0].1[10] == f[63]);
    assert(gs[0].1[12] == f[64]);
    assert(gs[0].1[13] == f[65]);
    assert(gs[0].1[14] == f[66]);
    assert(gs[0].1[15] == f[67]);
    assert(gs[0].1[16] == f[68]);
    assert(gs[0].1[17] == f[69]);
    assert(gs[0].1[18] == f[70]);
    assert(gs[0].1[19] == f[71]);
    assert(gs[0].1[20] == f[72]);
    assert(gs[0].1[21] == f[73]);
    assert forall|i: int| 0 <= i < f.len() implies grouped(#[trigger] f[i]) by {
    }
    assert forall|g: int, j: int| 0 <= g < gs.len() && 0 <= j < gs[g].1.len() implies f.contains(#[trigger] gs[g].1[j]) by {
        if g == 0 {
            if j == 0 { assert(f[0] == gs[0].1[0]); }
            if j == 1 { assert(f[1] == gs[0].1[1]); }
            if j == 2 { assert(f[2] == gs[0].1[2]); }
            if j == 3 { assert(f[3] == gs[0].1[3]); }
            if j == 4 { assert(f[4] == gs[0].1[4]); }
            if j == 5 { assert(f[5] == gs[0].1[5]); }
            if j == 6 { assert(f[6] == gs[0].1[6]); }
            if j == 7 { assert(f[27] == gs[0].1[7]); }
            if j == 8 { assert(f[48] == gs[0].1[8]); }
            if j == 9 { assert(f[49] == gs[0].1[9]); }
            if j == 10 { assert(f[63] == gs[0].1[10]); }
            if j == 11 { assert(f[23] == gs[0].1[11]); }
            if j == 12 { assert(f[64] == gs[0].1[12]); }
            if j == 13 { assert(f[65] == gs[0].1[13]); }
            if j == 14 { assert(f[66] == gs[0].1[14]); }
            if j == 15 { assert(f[67] == gs[0].1[15]); }
            if j == 16 { assert(f[68] == gs[0].1[16]); }
            if j == 17 { assert(f[69] == gs[0].1[17]); }
            if j == 18 { assert(f[70] == gs[0].1[18]); }
            if j == 19 { assert(f[71] == gs[0].1[19]); }
            if j == 20 { assert(f[72] == gs[0].1[20]); }
            if j == 21 { assert(f[73] == gs[0].1[21]); }
        }
        if g == 1 {
            if j == 0 { assert(f[10] == gs[1].1[0]); }
            if j == 1 { assert(f[11] == gs[1].1[1]); }
            if j == 2 { assert(f[12] == gs[1].1[2]); }
            if j == 3 { assert(f[13] == gs[1].1[3]); }
            if j == 4 { assert(f[14] == gs[1].1[4]); }
            if j == 5 { assert(f[15] == gs[1].1[5]); }
            if j == 6 { assert(f[16] == gs[1].1[6]); }
            if j == 7 { assert(f[18] == gs[1].1[7]); }
            if j == 8 { assert(f[19] == gs[1].1[8]); }
            if j == 9 { assert(f[20] == gs[1].1[9]); }
            if j == 10 { assert(f[21] == gs[1].1[10]); }
            if j == 11 { assert(f[17] == gs[1].1[11]); }
            if j == 12 { assert(f[24] == gs[1].1[12]); }
            if j == 13 { assert(f[22] == gs[1].1[13]); }
            if j == 14 { assert(f[25] == gs[1].1[14]); }
        }
        if g == 2 {
            if j == 0 { assert(f[9] == gs[2].1[0]); }
            if j == 1 { assert(f[26] == gs[2].1[1]); }
            if j == 2 { assert(f[28] == gs[2].1[2]); }
            if j == 3 { assert(f[29] == gs[2].1[3]); }
            if j == 4 { assert(f[50] == gs[2].1[4]); }
            if j == 5 { assert(f[51] == gs[2].1[5]); }
            if j == 6 { assert(f[8] == gs[2].1[6]); }
            if j == 7 { assert(f[7] == gs[2].1[7]); }
            if j == 8 { assert(f[30] == gs[2].1[8]); }
        }
        if g == 3 {
            if j == 0 { assert(f[31] == gs[3].1[0]); }
            if j == 1 { assert(f[32] == gs[3].1[1]); }
            if j == 2 { assert(f[33] == gs[3].1[2]); }
            if j == 3 { assert(f[34] == gs[3].1[3]); }
            if j == 4 { assert(f[35] == gs[3].1[4]); }
            if j == 5 { assert(f[36] == gs[3].1[5]); }
            if j == 6 { assert(f[37] == gs[3].1[6]); }
            if j == 7 { assert(f[38] == gs[3].1[7]); }
            if j == 8 { assert(f[39] == gs[3].1[8]); }
            if j == 9 { assert(f[40] == gs[3].1[9]); }
            if j == 10 { assert(f[41] == gs[3].1[10]); }
            if j == 11 { assert(f[42] == gs[3].1[11]); }
            if j == 12 { assert(f[43] == gs[3].1[12]); }
            if j == 13 { assert(f[44] == gs[3].1[13]); }
            if j == 14 { assert(f[45] == gs[3].1[14]); }
        }
        if g == 4 {
            if j == 0 { assert(f[52] == gs[4].1[0]); }
            if j == 1 { assert(f[53] == gs[4].1[1]); }
            if j == 2 { assert(f[54] == gs[4].1[2]); }
            if j == 3 { assert(f[55] == gs[4].1[3]); }
            if j == 4 { assert(f[56] == gs[4].1[4]); }
            if j == 5 { assert(f[57] == gs[4].1[5]); }
        }
        if g == 5 {
            if j == 0 { assert(f[58] == gs[5].1[0]); }
            if j == 1 { assert(f[59] == gs[5].1[1]); }
            if j == 2 { assert(f[60] == gs[5].1[2]); }
        }
        if g == 6 {
            if j == 0 { assert(f[61] == gs[6].1[0]); }
            if j == 1 { assert(f[62] == gs[6].1[1]); }
        }
        if g == 7 {
            if j == 0 { assert(f[46] == gs[7].1[0]); }
            if j == 1 { assert(f[47] == gs[7].1[1]); }
        }
    }
}

// ── Declarations to styles ───────────────────────────────────────────────────

/// What a declaration resolves to: its colors read with [`parse_color_value`]
/// (an unreadable color sets nothing) and each `true` flag as an added modifier.
pub open spec fn spec_decl_to_style(d: Decl, gs: GhosttyScheme) -> Style {
    Style {
        fg: match d.fg {
            Some(s) => spec_parse_color_value(s@, gs),
            None => None,
        },
        bg: match d.bg {
            Some(s) => spec_parse_color_value(s@, gs),
            None => None,
        },
        add_modifier: Modifier {
            bold: d.bold == Some(true),
            dim: d.dim == Some(true),
            italic: d.italic == Some(true),
            underlined: d.underline == Some(true),
            reversed: d.reversed == Some(true),
        },
        sub_modifier: no_mods(),
    }
}

/// Converts a [`Decl`] into a [`Style`].
pub fn decl_to_style(d: &Decl, scheme: &GhosttyScheme) -> (r: Style)
    ensures
        r == spec_decl_to_style(*d, *scheme),
{
    let mut s = Style::new();
    if let Some(fg) = &d.fg {
        if let Some(c) = parse_color_value(fg.as_str(), scheme) {
            s = s.fg(c);
        }
    }
    if let Some(bg) = &d.bg {
        if let Some(c) = parse_color_value(bg.as_str(), scheme) {
            s = s.bg(c);
        }
    }
    if matches!(d.bold, Some(true)) {
        s = s.add_modifier(Modifier::bold_only());
    }
    if matches!(d.italic, Some(true)) {
        s = s.add_modifier(Modifier::italic_only());
    }
    if matches!(d.underline, Some(true)) {
        s = s.add_modifier(Modifier::underlined_only());
    }
    if matches!(d.dim, Some(true)) {
        s = s.add_modifier(Modifier::dim_only());
    }
    if matches!(d.reversed, Some(true)) {
        s = s.add_modifier(Modifier::reversed_only());
    }
    s
}

/// A side's line style: its own override read as a style name, else `base`.
pub open spec fn side_style(o: Option<String>, base: BorderStyle) -> BorderStyle {
    match o {
        None => base,
        Some(s) => spec_parse_border_style(s@),
    }
}

fn side_style_of(o: &Option<String>, base: BorderStyle) -> (r: BorderStyle)
    ensures
        r == side_style(*o, base),
{
    match o {
        None => base,
        Some(s) => parse_border_style(s.as_str()),
    }
}

/// The sides of a border: each side's `style_<side>` override, else `base`.
pub open spec fn spec_resolve_sides(base: BorderStyle, d: Decl) -> PaneSides {
    PaneSides {
        top: side_style(d.style_top, base),
        bottom: side_style(d.style_bottom, base),
        left: side_style(d.style_left, base),
        right: side_style(d.style_right, base),
    }
}

fn resolve_sides(base: BorderStyle, d: &Decl) -> (r: PaneSides)
    ensures
        r == spec_resolve_sides(base, *d),
{
    PaneSides {
        top: side_style_of(&d.style_top, base),
        bottom: side_style_of(&d.style_bottom, base),
        left: side_style_of(&d.style_left, base),
        right: side_style_of(&d.style_right, base),
    }
}

/// The glyph overrides of a declaration.
pub open spec fn spec_decl_glyphs(d: Decl) -> PaneGlyphs {
    PaneGlyphs {
        top: d.glyph_top,
        bottom: d.glyph_bottom,
        left: d.glyph_left,
        right: d.glyph_right,
        tl: d.glyph_tl,
        tr: d.glyph_tr,
        bl: d.glyph_bl,
        br: d.glyph_br,
    }
}

fn decl_glyphs(d: &Decl) -> (r: PaneGlyphs)
    ensures
        r == spec_decl_glyphs(*d),
{
    PaneGlyphs {
        top: dup_opt(&d.glyph_top),
        bottom: dup_opt(&d.glyph_bottom),
        left: dup_opt(&d.glyph_left),
        right: dup_opt(&d.glyph_right),
        tl: dup_opt(&d.glyph_tl),
        tr: dup_opt(&d.glyph_tr),
        bl: dup_opt(&d.glyph_bl),
        br: dup_opt(&d.glyph_br),
    }
}

// ── Applying declarations to a scheme ────────────────────────────────────────

/// The selectors that [`apply_color_decls`] recognizes (`border` is reserved
/// and changes nothing).
pub open spec fn known_selector(s: Seq<char>) -> bool {
    chunk_0_has(s)
        || chunk_1_has(s)
        || chunk_2_has(s)
        || chunk_3_has(s)
        || chunk_4_has(s)
        || chunk_5_has(s)
        || chunk_6_has(s)
        || chunk_7_has(s)
        || chunk_8_has(s)
        || chunk_9_has(s)
        || chunk_10_has(s)
        || chunk_11_has(s)
        || chunk_12_has(s)
        || chunk_13_has(s)
        || chunk_14_has(s)
}

/// Selectors of group 0 of the declaration appliers.
pub open spec fn chunk_0_has(s: Seq<char>) -> bool {
    s == "room"@
        || s == "room:current"@
        || s == "room:selected"@
        || s == "connector"@
        || s == "connector:distorted"@
        || s == "connector:portal"@
        || s == "shared_path"@
        || s == "border:focused"@
        || s == "statusbar"@
}

pub open spec fn apply_chunk_0(cs: ColorScheme, sel: Seq<char>, d: Decl, st: Style) -> ColorScheme {
    if sel == "room"@ {
        ColorScheme { room_normal: spec_patch(cs.room_normal, st), ..cs }
    } else if sel == "room:current"@ {
        ColorScheme { room_current: spec_patch(cs.room_current, st), ..cs }
    } else if sel == "room:selected"@ {
        ColorScheme { room_selected: spec_patch(cs.room_selected, st), ..cs }
    } else if sel == "connector"@ {
        ColorScheme { connector: spec_patch(cs.connector, st), ..cs }
    } else if sel == "connector:distorted"@ {
        ColorScheme { connector_distorted: spec_patch(cs.connector_distorted, st), ..cs }
    } else if sel == "connector:portal"@ {
        ColorScheme { portal_connector: spec_patch(cs.portal_connector, st), ..cs }
    } else if sel == "shared_path"@ {
        ColorScheme { shared_path: spec_patch(cs.shared_path, st), ..cs }
    } else if sel == "border:focused"@ {
        ColorScheme { focused_border: spec_patch(cs.focused_border, st), ..cs }
    } else if sel == "statusbar"@ {
        ColorScheme { status_bar: spec_patch(cs.status_bar, st), ..cs }
    } else {
        cs
    }
}

fn apply_chunk_0_of(cs: &mut ColorScheme, sel: &[char], d: &Decl, st: Style) -> (hit: bool)
    ensures
        hit == chunk_0_has(sel@),
        *final(cs) == apply_chunk_0(*old(cs), sel@, *d, st),
{
    if eq_lit(sel, "room") {
        cs.room_normal = cs.room_normal.patch(st);
        true
    } else if eq_lit(sel, "room:current") {
        cs.room_current = cs.room_current.patch(st);
        true
    } else if eq_lit(sel, "room:selected") {
        cs.room_selected = cs.room_selected.patch(st);
        true
    } else if eq_lit(sel, "connector") {
        cs.connector = cs.connector.patch(st);
        true
    } else if eq_lit(sel, "connector:distorted") {
        cs.connector_distorted = cs.connector_distorted.patch(st);
        true
    } else if eq_lit(sel, "connector:portal") {
        cs.portal_connector = cs.portal_connector.patch(st);
        true
    } else if eq_lit(sel, "shared_path") {
        cs.shared_path = cs.shared_path.patch(st);
        true
    } else if eq_lit(sel, "border:focused") {
        cs.focused_border = cs.focused_border.patch(st);
        true
    } else if eq_lit(sel, "statusbar") {
        cs.status_bar = cs.status_bar.patch(st);
        true
    } else {
        false
    }
}

/// Selectors of group 1 of the declaration appliers.
pub open spec fn chunk_1_has(s: Seq<char>) -> bool {
    s == "transcript"@
        || s == "transcript:input"@
        || s == "transcript:meta"@
        || s == "transcript:warning"@
        || s == "transcript:crash"@
        || s == "transcript:location"@
        || s == "transcript:system"@
        || s == "warning_marker"@
        || s == "suggestion"@
}

pub open spec fn apply_chunk_1(cs: ColorScheme, sel: Seq<char>, d: Decl, st: Style) -> ColorScheme {
    if sel == "transcript"@ {
        ColorScheme { transcript: spec_patch(cs.transcript, st), ..cs }
    } else if sel == "transcript:input"@ {
        ColorScheme { transcript_input: spec_patch(cs.transcript_input, st), ..cs }
    } else if sel == "transcript:meta"@ {
        ColorScheme { transcript_meta: spec_patch(cs.transcript_meta, st), ..cs }
    } else if sel == "transcript:warning"@ {
        ColorScheme { transcript_warning: spec_patch(cs.transcript_warning, st), ..cs }
    } else if sel == "transcript:crash"@ {
        ColorScheme { transcript_crash: spec_patch(cs.transcript_crash, st), ..cs }
    } else if sel == "transcript:location"@ {
        ColorScheme { transcript_location: spec_patch(cs.transcript_location, st), ..cs }
    } else if sel == "transcript:system"@ {
        ColorScheme { transcript_system: spec_patch(cs.transcript_system, st), ..cs }
    } else if sel == "warning_marker"@ {
        ColorScheme { warning_marker: spec_patch(cs.warning_marker, st), ..cs }
    } else if sel == "suggestion"@ {
        ColorScheme { suggestion: spec_patch(cs.suggestion, st), ..cs }
    } else {
        cs
    }
}

fn apply_chunk_1_of(cs: &mut ColorScheme, sel: &[char], d: &Decl, st: Style) -> (hit: bool)
    ensures
        hit == chunk_1_has(sel@),
        *final(cs) == apply_chunk_1(*old(cs), sel@, *d, st),
{
    if eq_lit(sel, "transcript") {
        cs.transcript = cs.transcript.patch(st);
        true
    } else if eq_lit(sel, "transcript:input") {
        cs.transcript_input = cs.transcript_input.patch(st);
        true
    } else if eq_lit(sel, "transcript:meta") {
        cs.transcript_meta = cs.transcript_meta.patch(st);
        true
    } else if eq_lit(sel, "transcript:warning") {
        cs.transcript_warning = cs.transcript_warning.patch(st);
        true
    } else if eq_lit(sel, "transcript:crash") {
        cs.transcript_crash = cs.transcript_crash.patch(st);
        true
    } else if eq_lit(sel, "transcript:location") {
        cs.transcript_location = cs.transcript_location.patch(st);
        true
    } else if eq_lit(sel, "transcript:system") {
        cs.transcript_system = cs.transcript_system.patch(st);
        true
    } else if eq_lit(sel, "warning_marker") {
        cs.warning_marker = cs.warning_marker.patch(st);
        true
    } else if eq_lit(sel, "suggestion") {
        cs.suggestion = cs.suggestion.patch(st);
        true
    } else {
        false
    }
}

/// Selectors of group 2 of the declaration appliers.
pub open spec fn chunk_2_has(s: Seq<char>) -> bool {
    s == "input:text"@
        || s == "input:prompt"@
        || s == "scrollbar"@
        || s == "tidy_progress"@
        || s == "meta_marker"@
        || s == "hyperlink"@
        || s == "helpbar"@
        || s == "story_title"@
        || s == "inventory:dock"@
}

pub open spec fn apply_chunk_2(cs: ColorScheme, sel: Seq<char>, d: Decl, st: Style) -> ColorScheme {
    if sel == "input:text"@ {
        ColorScheme { input_text: spec_patch(cs.input_text, st), ..cs }
    } else if sel == "input:prompt"@ {
        ColorScheme { input_prompt: spec_patch(cs.input_prompt, st), ..cs }
    } else if sel == "scrollbar"@ {
        ColorScheme { scrollbar: spec_patch(cs.scrollbar, st), ..cs }
    } else if sel == "tidy_progress"@ {
        ColorScheme { tidy_progress: spec_patch(cs.tidy_progress, st), ..cs }
    } else if sel == "meta_marker"@ {
        ColorScheme { meta_marker: spec_patch(cs.meta_marker, st), ..cs }
    } else if sel == "hyperlink"@ {
        ColorScheme { hyperlink: spec_patch(cs.hyperlink, st), ..cs }
    } else if sel == "helpbar"@ {
        ColorScheme { help_bar: spec_patch(cs.help_bar, st), ..cs }
    } else if sel == "story_title"@ {
        ColorScheme { story_title: spec_patch(cs.story_title, st), ..cs }
    } else if sel == "inventory:dock"@ {
        ColorScheme { inventory_dock: spec_patch(cs.inventory_dock, st), ..cs }
    } else {
        cs
    }
}

fn apply_chunk_2_of(cs: &mut ColorScheme, sel: &[char], d: &Decl, st: Style) -> (hit: bool)
    ensures
        hit == chunk_2_has(sel@),
        *final(cs) == apply_chunk_2(*old(cs), sel@, *d, st),
{
    if eq_lit(sel, "input:text") {
        cs.input_text = cs.input_text.patch(st);
        true
    } else if eq_lit(sel, "input:prompt") {
        cs.input_prompt = cs.input_prompt.patch(st);
        true
    } else if eq_lit(sel, "scrollbar") {
        cs.scrollbar = cs.scrollbar.patch(st);
        true
    } else if eq_lit(sel, "tidy_progress") {
        cs.tidy_progress = cs.tidy_progress.patch(st);
        true
    } else if eq_lit(sel, "meta_marker") {
        cs.meta_marker = cs.meta_marker.patch(st);
        true
    } else if eq_lit(sel, "hyperlink") {
        cs.hyperlink = cs.hyperlink.patch(st);
        true
    } else if eq_lit(sel, "helpbar") {
        cs.help_bar = cs.help_bar.patch(st);
        true
    } else if eq_lit(sel, "story_title") {
        cs.story_title = cs.story_title.patch(st);
        true
    } else if eq_lit(sel, "inventory:dock") {
        cs.inventory_dock = cs.inventory_dock.patch(st);
        true
    } else {
        false
    }
}

/// Selectors of group 3 of the declaration appliers.
pub open spec fn chunk_3_has(s: Seq<char>) -> bool {
    s == "story_info"@
        || s == "story_info:title"@
        || s == "story_info:label"@
        || s == "story_info:value"@
        || s == "story_info:blurb"@
        || s == "story_info:link"@
        || s == "story_info:cover"@
        || s == "story_badge"@
        || s == "story_header"@
}

pub open spec fn apply_chunk_3(cs: ColorScheme, sel: Seq<char>, d: Decl, st: Style) -> ColorScheme {
    if sel == "story_info"@ {
        ColorScheme { story_info: spec_patch(cs.story_info, st), ..cs }
    } else if sel == "story_info:title"@ {
        ColorScheme { story_info_title: spec_patch(cs.story_info_title, st), ..cs }
    } else if sel == "story_info:label"@ {
        ColorScheme { story_info_label: spec_patch(cs.story_info_label, st), ..cs }
    } else if sel == "story_info:value"@ {
        ColorScheme { story_info_value: spec_patch(cs.story_info_value, st), ..cs }
    } else if sel == "story_info:blurb"@ {
        ColorScheme { story_info_blurb: spec_patch(cs.story_info_blurb, st), ..cs }
    } else if sel == "story_info:link"@ {
        ColorScheme { story_info_link: spec_patch(cs.story_info_link, st), ..cs }
    } else if sel == "story_info:cover"@ {
        ColorScheme { story_info_cover: spec_patch(cs.story_info_cover, st), ..cs }
    } else if sel == "story_badge"@ {
        ColorScheme { story_badge: spec_patch(cs.story_badge, st), ..cs }
    } else if sel == "story_header"@ {
        ColorScheme { story_header: spec_patch(cs.story_header, st), ..cs }
    } else {
        cs
    }
}

fn apply_chunk_3_of(cs: &mut ColorScheme, sel: &[char], d: &Decl, st: Style) -> (hit: bool)
    ensures
        hit == chunk_3_has(sel@),
        *final(cs) == apply_chunk_3(*old(cs), sel@, *d, st),
{
    if eq_lit(sel, "story_info") {
        cs.story_info = cs.story_info.patch(st);
        true
    } else if eq_lit(sel, "story_info:title") {
        cs.story_info_title = cs.story_info_title.patch(st);
        true
    } else if eq_lit(sel, "story_info:label") {
        cs.story_info_label = cs.story_info_label.patch(st);
        true
    } else if eq_lit(sel, "story_info:value") {
        cs.story_info_value = cs.story_info_value.patch(st);
        true
    } else if eq_lit(sel, "story_info:blurb") {
        cs.story_info_blurb = cs.story_info_blurb.patch(st);
        true
    } else if eq_lit(sel, "story_info:link") {
        cs.story_info_link = cs.story_info_link.patch(st);
        true
    } else if eq_lit(sel, "story_info:cover") {
        cs.story_info_cover = cs.story_info_cover.patch(st);
        true
    } else if eq_lit(sel, "story_badge") {
        cs.story_badge = cs.story_badge.patch(st);
        true
    } else if eq_lit(sel, "story_header") {
        cs.story_header = cs.story_header.patch(st);
        true
    } else {
        false
    }
}

/// Selectors of group 4 of the declaration appliers.
pub open spec fn chunk_4_has(s: Seq<char>) -> bool {
    s == "story_header:active"@
        || s == "story_author"@
        || s == "story_year"@
        || s == "story_no_metadata"@
        || s == "story_tile"@
        || s == "story_tile:selected"@
        || s == "graphics"@
        || s == "inline_image"@
        || s == "map_layer_tab"@
}

pub open spec fn apply_chunk_4(cs: ColorScheme, sel: Seq<char>, d: Decl, st: Style) -> ColorScheme {
    if sel == "story_header:active"@ {
        ColorScheme { story_header_active: spec_patch(cs.story_header_active, st), ..cs }
    } else if sel == "story_author"@ {
        ColorScheme { story_author: spec_patch(cs.story_author, st), ..cs }
    } else if sel == "story_year"@ {
        ColorScheme { story_year: spec_patch(cs.story_year, st), ..cs }
    } else if sel == "story_no_metadata"@ {
        ColorScheme { story_no_metadata: spec_patch(cs.story_no_metadata, st), ..cs }
    } else if sel == "story_tile"@ {
        ColorScheme { story_tile: spec_patch(cs.story_tile, st), ..cs }
    } else if sel == "story_tile:selected"@ {
        ColorScheme { story_tile_selected: spec_patch(cs.story_tile_selected, st), ..cs }
    } else if sel == "graphics"@ {
        ColorScheme { graphics: spec_patch(cs.graphics, st), ..cs }
    } else if sel == "inline_image"@ {
        ColorScheme { inline_image: spec_patch(cs.inline_image, st), ..cs }
    } else if sel == "map_layer_tab"@ {
        ColorScheme { map_layer_tab: spec_patch(cs.map_layer_tab, st), ..cs }
    } else {
        cs
    }
}

fn apply_chunk_4_of(cs: &mut ColorScheme, sel: &[char], d: &Decl, st: Style) -> (hit: bool)
    ensures
        hit == chunk_4_has(sel@),
        *final(cs) == apply_chunk_4(*old(cs), sel@, *d, st),
{
    if eq_lit(sel, "story_header:active") {
        cs.story_header_active = cs.story_header_active.patch(st);
        true
    } else if eq_lit(sel, "story_author") {
        cs.story_author = cs.story_author.patch(st);
        true
    } else if eq_lit(sel, "story_year") {
        cs.story_year = cs.story_year.patch(st);
        true
    } else if eq_lit(sel, "story_no_metadata") {
        cs.story_no_metadata = cs.story_no_metadata.patch(st);
        true
    } else if eq_lit(sel, "story_tile") {
        cs.story_tile = cs.story_tile.patch(st);
        true
    } else if eq_lit(sel, "story_tile:selected") {
        cs.story_tile_selected = cs.story_tile_selected.patch(st);
        true
    } else if eq_lit(sel, "graphics") {
        cs.graphics = cs.graphics.patch(st);
        true
    } else if eq_lit(sel, "inline_image") {
        cs.inline_image = cs.inline_image.patch(st);
        true
    } else if eq_lit(sel, "map_layer_tab") {
        cs.map_layer_tab = cs.map_layer_tab.patch(st);
        true
    } else {
        false
    }
}

/// Selectors of group 5 of the declaration appliers.
pub open spec fn chunk_5_has(s: Seq<char>) -> bool {
    s == "map_layer_tab_active"@
        || s == "dialog:title"@
        || s == "hotkey:key"@
        || s == "dialog:button"@
        || s == "dialog:button:active"@
        || s == "dialog:shadow"@
        || s == "room_panel"@
        || s == "upper_window"@
        || s == "sound_beep_high"@
}

pub open spec fn apply_chunk_5(cs: ColorScheme, sel: Seq<char>, d: Decl, st: Style) -> ColorScheme {
    if sel == "map_layer_tab_active"@ {
        ColorScheme { map_layer_tab_active: spec_patch(cs.map_layer_tab_active, st), ..cs }
    } else if sel == "dialog:title"@ {
        ColorScheme { dialog_title: spec_patch(cs.dialog_title, st), ..cs }
    } else if sel == "hotkey:key"@ {
        ColorScheme { hotkey_key: spec_patch(cs.hotkey_key, st), ..cs }
    } else if sel == "dialog:button"@ {
        ColorScheme { dialog_button: spec_patch(cs.dialog_button, st), ..cs }
    } else if sel == "dialog:button:active"@ {
        ColorScheme { dialog_button_active: spec_patch(cs.dialog_button_active, st), ..cs }
    } else if sel == "dialog:shadow"@ {
        ColorScheme { dialog_shadow: spec_patch(cs.dialog_shadow, st), ..cs }
    } else if sel == "room_panel"@ {
        ColorScheme { room_panel: spec_patch(cs.room_panel, st), ..cs }
    } else if sel == "upper_window"@ {
        ColorScheme { upper_window: spec_patch(cs.upper_window, st), ..cs }
    } else if sel == "sound_beep_high"@ {
        ColorScheme { sound_beep_high: spec_patch(cs.sound_beep_high, st), ..cs }
    } else {
        cs
    }
}

fn apply_chunk_5_of(cs: &mut ColorScheme, sel: &[char], d: &Decl, st: Style) -> (hit: bool)
    ensures
        hit == chunk_5_has(sel@),
        *final(cs) == apply_chunk_5(*old(cs), sel@, *d, st),
{
    if eq_lit(sel, "map_layer_tab_active") {
        cs.map_layer_tab_active = cs.map_layer_tab_active.patch(st);
        true
    } else if eq_lit(sel, "dialog:title") {
        cs.dialog_title = cs.dialog_title.patch(st);
        true
    } else if eq_lit(sel, "hotkey:key") {
        cs.hotkey_key = cs.hotkey_key.patch(st);
        true
    } else if eq_lit(sel, "dialog:button") {
        cs.dialog_button = cs.dialog_button.patch(st);
        true
    } else if eq_lit(sel, "dialog:button:active") {
        cs.dialog_button_active = cs.dialog_button_active.patch(st);
        true
    } else if eq_lit(sel, "dialog:shadow") {
        cs.dialog_shadow = cs.dialog_shadow.patch(st);
        true
    } else if eq_lit(sel, "room_panel") {
        cs.room_panel = cs.room_panel.patch(st);
        true
    } else if eq_lit(sel, "upper_window") {
        cs.upper_window = cs.upper_window.patch(st);
        true
    } else if eq_lit(sel, "sound_beep_high") {
        cs.sound_beep_high = cs.sound_beep_high.patch(st);
        true
    } else {
        false
    }
}

/// Selectors of group 6 of the declaration appliers.
pub open spec fn chunk_6_has(s: Seq<char>) -> bool {
    s == "sound_beep_low"@
        || s == "loc_indicator"@
        || s == "map.tile.wall"@
        || s == "map.tile.floor"@
        || s == "map.tile.corridor"@
        || s == "map.tile.door"@
        || s == "map.tile.bridge"@
        || s == "map.tile.stairs"@
        || s == "map.tile.chamber"@
}

pub open spec fn apply_chunk_6(cs: ColorScheme, sel: Seq<char>, d: Decl, st: Style) -> ColorScheme {
    if sel == "sound_beep_low"@ {
        ColorScheme { sound_beep_low: spec_patch(cs.sound_beep_low, st), ..cs }
    } else if sel == "loc_indicator"@ {
        ColorScheme { loc_indicator: spec_patch(cs.loc_indicator, st), ..cs }
    } else if sel == "map.tile.wall"@ {
        ColorScheme { tile_wall: spec_patch(cs.tile_wall, st), ..cs }
    } else if sel == "map.tile.floor"@ {
        ColorScheme { tile_floor: spec_patch(cs.tile_floor, st), ..cs }
    } else if sel == "map.tile.corridor"@ {
        ColorScheme { tile_corridor: spec_patch(cs.tile_corridor, st), ..cs }
    } else if sel == "map.tile.door"@ {
        ColorScheme { tile_door: spec_patch(cs.tile_door, st), ..cs }
    } else if sel == "map.tile.bridge"@ {
        ColorScheme { tile_bridge: spec_patch(cs.tile_bridge, st), ..cs }
    } else if sel == "map.tile.stairs"@ {
        ColorScheme { tile_stairs: spec_patch(cs.tile_stairs, st), ..cs }
    } else if sel == "map.tile.chamber"@ {
        ColorScheme { tile_chamber: spec_patch(cs.tile_chamber, st), ..cs }
    } else {
        cs
    }
}

fn apply_chunk_6_of(cs: &mut ColorScheme, sel: &[char], d: &Decl, st: Style) -> (hit: bool)
    ensures
        hit == chunk_6_has(sel@),
        *final(cs) == apply_chunk_6(*old(cs), sel@, *d, st),
{
    if eq_lit(sel, "sound_beep_low") {
        cs.sound_beep_low = cs.sound_beep_low.patch(st);
        true
    } else if eq_lit(sel, "loc_indicator") {
        cs.loc_indicator = cs.loc_indicator.patch(st);
        true
    } else if eq_lit(sel, "map.tile.wall") {
        cs.tile_wall = cs.tile_wall.patch(st);
        true
    } else if eq_lit(sel, "map.tile.floor") {
        cs.tile_floor = cs.tile_floor.patch(st);
        true
    } else if eq_lit(sel, "map.tile.corridor") {
        cs.tile_corridor = cs.tile_corridor.patch(st);
        true
    } else if eq_lit(sel, "map.tile.door") {
        cs.tile_door = cs.tile_door.patch(st);
        true
    } else if eq_lit(sel, "map.tile.bridge") {
        cs.tile_bridge = cs.tile_bridge.patch(st);
        true
    } else if eq_lit(sel, "map.tile.stairs") {
        cs.tile_stairs = cs.tile_stairs.patch(st);
        true
    } else if eq_lit(sel, "map.tile.chamber") {
        cs.tile_chamber = cs.tile_chamber.patch(st);
        true
    } else {
        false
    }
}

/// Selectors of group 7 of the declaration appliers.
pub open spec fn chunk_7_has(s: Seq<char>) -> bool {
    s == "map.tile.shadow"@
        || s == "map.tile.player"@
        || s == "map.tile.room-number"@
}

pub open spec fn apply_chunk_7(cs: ColorScheme, sel: Seq<char>, d: Decl, st: Style) -> ColorScheme {
    if sel == "map.tile.shadow"@ {
        ColorScheme { tile_shadow: spec_patch(cs.tile_shadow, st), ..cs }
    } else if sel == "map.tile.player"@ {
        ColorScheme { tile_player: spec_patch(cs.tile_player, st), ..cs }
    } else if sel == "map.tile.room-number"@ {
        ColorScheme { tile_room_number: spec_patch(cs.tile_room_number, st), ..cs }
    } else {
        cs
    }
}

fn apply_chunk_7_of(cs: &mut ColorScheme, sel: &[char], d: &Decl, st: Style) -> (hit: bool)
    ensures
        hit == chunk_7_has(sel@),
        *final(cs) == apply_chunk_7(*old(cs), sel@, *d, st),
{
    if eq_lit(sel, "map.tile.shadow") {
        cs.tile_shadow = cs.tile_shadow.patch(st);
        true
    } else if eq_lit(sel, "map.tile.player") {
        cs.tile_player = cs.tile_player.patch(st);
        true
    } else if eq_lit(sel, "map.tile.room-number") {
        cs.tile_room_number = cs.tile_room_number.patch(st);
        true
    } else {
        false
    }
}

/// Selectors of group 8 of the declaration appliers.
pub open spec fn chunk_8_has(s: Seq<char>) -> bool {
    s == "suggestion_line"@
}

pub open spec fn apply_chunk_8(cs: ColorScheme, sel: Seq<char>, d: Decl, st: Style) -> ColorScheme {
    if sel == "suggestion_line"@ {
        let b = side_style(d.style, cs.suggestion_line_style);
        ColorScheme {
            suggestion_line_style: b,
            suggestion_line_sides: spec_resolve_sides(b, d),
            suggestion_line_glyphs: spec_decl_glyphs(d),
            ..cs
        }
    } else {
        cs
    }
}

#[verifier::rlimit(80)]
fn apply_chunk_8_of(cs: &mut ColorScheme, sel: &[char], d: &Decl, st: Style) -> (hit: bool)
    ensures
        hit == chunk_8_has(sel@),
        *final(cs) == apply_chunk_8(*old(cs), sel@, *d, st),
{
    if eq_lit(sel, "suggestion_line") {
        let b = side_style_of(&d.style, cs.suggestion_line_style);
        cs.suggestion_line_style = b;
        cs.suggestion_line_sides = resolve_sides(b, d);
        cs.suggestion_line_glyphs = decl_glyphs(d);
        true
    } else {
        false
    }
}

/// Selectors of group 9 of the declaration appliers.
pub open spec fn chunk_9_has(s: Seq<char>) -> bool {
    s == "map_border"@
}

pub open spec fn apply_chunk_9(cs: ColorScheme, sel: Seq<char>, d: Decl, st: Style) -> ColorScheme {
    if sel == "map_border"@ {
        let b = side_style(d.style, cs.map_border_style);
        ColorScheme {
            map_border: spec_patch(cs.map_border, st),
            map_border_style: b,
            map_border_sides: spec_resolve_sides(b, d),
            map_border_glyphs: spec_decl_glyphs(d),
            map_header_on: match d.header {
                Some(h) => h,
                None => cs.map_header_on,
            },
            ..cs
        }
    } else {
        cs
    }
}

#[verifier::rlimit(80)]
fn apply_chunk_9_of(cs: &mut ColorScheme, sel: &[char], d: &Decl, st: Style) -> (hit: bool)
    ensures
        hit == chunk_9_has(sel@),
        *final(cs) == apply_chunk_9(*old(cs), sel@, *d, st),
{
    if eq_lit(sel, "map_border") {
        cs.map_border = cs.map_border.patch(st);
        let b = side_style_of(&d.style, cs.map_border_style);
        cs.map_border_style = b;
        cs.map_border_sides = resolve_sides(b, d);
        cs.map_border_glyphs = decl_glyphs(d);
        if let Some(h) = d.header {
            cs.map_header_on = h;
        }
        true
    } else {
        false
    }
}

/// Selectors of group 10 of the declaration appliers.
pub open spec fn chunk_10_has(s: Seq<char>) -> bool {
    s == "story_border"@
}

pub open spec fn apply_chunk_10(cs: ColorScheme, sel: Seq<char>, d: Decl, st: Style) -> ColorScheme {
    if sel == "story_border"@ {
        let b = side_style(d.style, cs.story_border_style);
        ColorScheme {
            story_border: spec_patch(cs.story_border, st),
            story_border_style: b,
            story_border_sides: spec_resolve_sides(b, d),
            story_border_glyphs: spec_decl_glyphs(d),
            story_header_on: match d.header {
                Some(h) => h,
                None => cs.story_header_on,
            },
            ..cs
        }
    } else {
        cs
    }
}

#[verifier::rlimit(80)]
fn apply_chunk_10_of(cs: &mut ColorScheme, sel: &[char], d: &Decl, st: Style) -> (hit: bool)
    ensures
        hit == chunk_10_has(sel@),
        *final(cs) == apply_chunk_10(*old(cs), sel@, *d, st),
{
    if eq_lit(sel, "story_border") {
        cs.story_border = cs.story_border.patch(st);
        let b = side_style_of(&d.style, cs.story_border_style);
        cs.story_border_style = b;
        cs.story_border_sides = resolve_sides(b, d);
        cs.story_border_glyphs = decl_glyphs(d);
        if let Some(h) = d.header {
            cs.story_header_on = h;
        }
        true
    } else {
        false
    }
}

/// Selectors of group 11 of the declaration appliers.
pub open spec fn chunk_11_has(s: Seq<char>) -> bool {
    s == "status_header"@
}

pub open spec fn apply_chunk_11(cs: ColorScheme, sel: Seq<char>, d: Decl, st: Style) -> ColorScheme {
    if sel == "status_header"@ {
        let b = side_style(d.style, cs.status_header_style);
        ColorScheme {
            status_header: spec_patch(cs.status_header, st),
            status_header_style: b,
            status_header_sides: spec_resolve_sides(b, d),
            status_header_glyphs: spec_decl_glyphs(d),
            ..cs
        }
    } else {
        cs
    }
}

#[verifier::rlimit(80)]
fn apply_chunk_11_of(cs: &mut ColorScheme, sel: &[char], d: &Decl, st: Style) -> (hit: bool)
    ensures
        hit == chunk_11_has(sel@),
        *final(cs) == apply_chunk_11(*old(cs), sel@, *d, st),
{
    if eq_lit(sel, "status_header") {
        cs.status_header = cs.status_header.patch(st);
        let b = side_style_of(&d.style, cs.status_header_style);
        cs.status_header_style = b;
        cs.status_header_sides = resolve_sides(b, d);
        cs.status_header_glyphs = decl_glyphs(d);
        true
    } else {
        false
    }
}

/// Selectors of group 12 of the declaration appliers.
pub open spec fn chunk_12_has(s: Seq<char>) -> bool {
    s == "input_line"@
}

pub open spec fn apply_chunk_12(cs: ColorScheme, sel: Seq<char>, d: Decl, st: Style) -> ColorScheme {
    if sel == "input_line"@ {
        let b = side_style(d.style, cs.input_line_style);
        ColorScheme {
            input_line: spec_patch(cs.input_line, st),
            input_line_style: b,
            input_line_sides: spec_resolve_sides(b, d),
            input_line_glyphs: spec_decl_glyphs(d),
            ..cs
        }
    } else {
        cs
    }
}

#[verifier::rlimit(80)]
fn apply_chunk_12_of(cs: &mut ColorScheme, sel: &[char], d: &Decl, st: Style) -> (hit: bool)
    ensures
        hit == chunk_12_has(sel@),
        *final(cs) == apply_chunk_12(*old(cs), sel@, *d, st),
{
    if eq_lit(sel, "input_line") {
        cs.input_line = cs.input_line.patch(st);
        let b = side_style_of(&d.style, cs.input_line_style);
        cs.input_line_style = b;
        cs.input_line_sides = resolve_sides(b, d);
        cs.input_line_glyphs = decl_glyphs(d);
        true
    } else {
        false
    }
}

/// Selectors of group 13 of the declaration appliers.
pub open spec fn chunk_13_has(s: Seq<char>) -> bool {
    s == "upper_window_border"@
}

pub open spec fn apply_chunk_13(cs: ColorScheme, sel: Seq<char>, d: Decl, st: Style) -> ColorScheme {
    if sel == "upper_window_border"@ {
        let b = side_style(d.style, cs.virtual_window_border);
        ColorScheme {
            upper_window_border: spec_patch(cs.upper_window_border, st),
            virtual_window_border: b,
            upper_window_border_sides: spec_resolve_sides(b, d),
            upper_window_border_glyphs: spec_decl_glyphs(d),
            ..cs
        }
    } else {
        cs
    }
}

#[verifier::rlimit(80)]
fn apply_chunk_13_of(cs: &mut ColorScheme, sel: &[char], d: &Decl, st: Style) -> (hit: bool)
    ensures
        hit == chunk_13_has(sel@),
        *final(cs) == apply_chunk_13(*old(cs), sel@, *d, st),
{
    if eq_lit(sel, "upper_window_border") {
        cs.upper_window_border = cs.upper_window_border.patch(st);
        let b = side_style_of(&d.style, cs.virtual_window_border);
        cs.virtual_window_border = b;
        cs.upper_window_border_sides = resolve_sides(b, d);
        cs.upper_window_border_glyphs = decl_glyphs(d);
        true
    } else {
        false
    }
}

/// Selectors of group 14 of the declaration appliers.
pub open spec fn chunk_14_has(s: Seq<char>) -> bool {
    s == "border"@
        || s == "dialog"@
}

pub open spec fn apply_chunk_14(cs: ColorScheme, sel: Seq<char>, d: Decl, st: Style) -> ColorScheme {
    if sel == "dialog"@ {
        ColorScheme {
            dialog: spec_patch(cs.dialog, st),
            dialog_box_style: side_style(d.style, cs.dialog_box_style),
            dialog_shadow_on: match d.shadow {
                Some(x) => x,
                None => cs.dialog_shadow_on,
            },
            dialog_placement: match d.placement {
                Some(p) => spec_placement_from_token(p@),
                None => cs.dialog_placement,
            },
            dialog_margin: match d.margin {
                Some(m) => m,
                None => cs.dialog_margin,
            },
            dialog_glyphs: spec_decl_glyphs(d),
            ..cs
        }
    } else {
        cs
    }
}

#[verifier::rlimit(80)]
fn apply_chunk_14_of(cs: &mut ColorScheme, sel: &[char], d: &Decl, st: Style) -> (hit: bool)
    ensures
        hit == chunk_14_has(sel@),
        *final(cs) == apply_chunk_14(*old(cs), sel@, *d, st),
{
    if eq_lit(sel, "dialog") {
        let bs = side_style_of(&d.style, cs.dialog_box_style);
        let sh = match d.shadow {
            Some(x) => x,
            None => cs.dialog_shadow_on,
        };
        let pl = match &d.placement {
            Some(p) => DialogPlacement::from_token(p.as_str()),
            None => cs.dialog_placement,
        };
        let mg = match d.margin {
            Some(m) => m,
            None => cs.dialog_margin,
        };
        let gl = decl_glyphs(d);
        cs.dialog = cs.dialog.patch(st);
        cs.dialog_box_style = bs;
        cs.dialog_shadow_on = sh;
        cs.dialog_placement = pl;
        cs.dialog_margin = mg;
        cs.dialog_glyphs = gl;
        true
    } else if eq_lit(sel, "border") {
        true
    } else {
        false
    }
}

/// The scheme after applying the declaration `d` of selector `sel`: a plain
/// selector patches its style; a border selector also sets its line style (its
/// `style`, else the current one), its sides, its glyphs and (map and story
/// panes) its header flag; `dialog` sets its box style, shadow, placement,
/// margin and glyphs; `border` and anything unknown change nothing.
#[verifier::opaque]
pub open spec fn spec_apply_decl(cs: ColorScheme, sel: Seq<char>, d: Decl, gs: GhosttyScheme) -> ColorScheme {
    let st = spec_decl_to_style(d, gs);
    if chunk_0_has(sel) {
        apply_chunk_0(cs, sel, d, st)
    } else if chunk_1_has(sel) {
        apply_chunk_1(cs, sel, d, st)
    } else if chunk_2_has(sel) {
        apply_chunk_2(cs, sel, d, st)
    } else if chunk_3_has(sel) {
        apply_chunk_3(cs, sel, d, st)
    } else if chunk_4_has(sel) {
        apply_chunk_4(cs, sel, d, st)
    } else if chunk_5_has(sel) {
        apply_chunk_5(cs, sel, d, st)
    } else if chunk_6_has(sel) {
        apply_chunk_6(cs, sel, d, st)
    } else if chunk_7_has(sel) {
        apply_chunk_7(cs, sel, d, st)
    } else if chunk_8_has(sel) {
        apply_chunk_8(cs, sel, d, st)
    } else if chunk_9_has(sel) {
        apply_chunk_9(cs, sel, d, st)
    } else if chunk_10_has(sel) {
        apply_chunk_10(cs, sel, d, st)
    } else if chunk_11_has(sel) {
        apply_chunk_11(cs, sel, d, st)
    } else if chunk_12_has(sel) {
        apply_chunk_12(cs, sel, d, st)
    } else if chunk_13_has(sel) {
        apply_chunk_13(cs, sel, d, st)
    } else if chunk_14_has(sel) {
        apply_chunk_14(cs, sel, d, st)
    } else {
        cs
    }
}

/// Applies one declaration; returns whether the selector is recognized.
fn apply_decl(cs: &mut ColorScheme, sel: &[char], d: &Decl, gs: &GhosttyScheme) -> (known: bool)
    ensures
        *final(cs) == spec_apply_decl(*old(cs), sel@, *d, *gs),
        known == known_selector(sel@),
{
    proof {
        reveal(spec_apply_decl);
    }
    let st = decl_to_style(d, gs);
    if apply_chunk_0_of(cs, sel, d, st) {
        return true;
    }
    if apply_chunk_1_of(cs, sel, d, st) {
        return true;
    }
    if apply_chunk_2_of(cs, sel, d, st) {
        return true;
    }
    if apply_chunk_3_of(cs, sel, d, st) {
        return true;
    }
    if apply_chunk_4_of(cs, sel, d, st) {
        return true;
    }
    if apply_chunk_5_of(cs, sel, d, st) {
        return true;
    }
    if apply_chunk_6_of(cs, sel, d, st) {
        return true;
    }
    if apply_chunk_7_of(cs, sel, d, st) {
        return true;
    }
    if apply_chunk_8_of(cs, sel, d, st) {
        return true;
    }
    if apply_chunk_9_of(cs, sel, d, st) {
        return true;
    }
    if apply_chunk_10_of(cs, sel, d, st) {
        return true;
    }
    if apply_chunk_11_of(cs, sel, d, st) {
        return true;
    }
    if apply_chunk_12_of(cs, sel, d, st) {
        return true;
    }
    if apply_chunk_13_of(cs, sel, d, st) {
        return true;
    }
    if apply_chunk_14_of(cs, sel, d, st) {
        return true;
    }
    false
}


/// The scheme after applying every entry of `ps`, in order.
pub open spec fn spec_apply_decls(cs: ColorScheme, ps: Seq<(String, Decl)>, gs: GhosttyScheme) -> ColorScheme
    decreases ps.len(),
{
    if ps.len() == 0 {
        cs
    } else {
        spec_apply_decls(spec_apply_decl(cs, ps[0].0@, ps[0].1, gs), ps.drop_first(), gs)
    }
}

/// One `unknown selector: <name>` warning per unrecognized selector of `ps`, in order.
pub open spec fn unknown_selector_warnings(ps: Seq<(String, Decl)>) -> Seq<Seq<char>>
    decreases ps.len(),
{
    if ps.len() == 0 {
        seq![]
    } else {
        let w = unknown_selector_warnings(ps.drop_last());
        if known_selector(ps.last().0@) {
            w
        } else {
            w.push("unknown selector: "@ + ps.last().0@)
        }
    }
}

/// Applies selector declarations onto a scheme, in key order, and returns a
/// warning for each unknown selector. `border` is accepted and ignored.
#[verifier::rlimit(50)]
pub fn apply_color_decls(cs: &mut ColorScheme, decls: &StrMap<Decl>, scheme: &GhosttyScheme) -> (warnings: Vec<String>)
    ensures
        *final(cs) == spec_apply_decls(*old(cs), decls.pairs(), *scheme),
        strings_view(warnings@) == unknown_selector_warnings(decls.pairs()),
{
    let mut warnings: Vec<String> = Vec::new();
    let ghost start = *cs;
    let ghost ps = decls.pairs();
    let n = decls.len();
    let mut i: usize = 0;
    assert(ps.skip(0) =~= ps);
    assert(ps.take(0) =~= Seq::<(String, Decl)>::empty());
    while i < n
        invariant
            n == ps.len(),
            ps == decls.pairs(),
            i <= n,
            spec_apply_decls(start, ps, *scheme) == spec_apply_decls(*cs, ps.skip(i as int), *scheme),
            strings_view(warnings@) == unknown_selector_warnings(ps.take(i as int)),
        decreases n - i,
    {
        let (k, d) = decls.entry(i);
        let kc = chars_of(k.as_str());
        let known = apply_decl(cs, &kc, d, scheme);
        let ghost before = strings_view(warnings@);
        if !known {
            warnings.push(join2("unknown selector: ", k.as_str()));
            assert(strings_view(warnings@) =~= before.push("unknown selector: "@ + k@));
        }
        proof {
            assert(ps.skip(i as int).drop_first() =~= ps.skip(i + 1));
            assert(ps.take(i + 1).drop_last() =~= ps.take(i as int));
            assert(ps.take(i + 1).last() == ps[i as int]);
        }
        i += 1;
    }
    assert(ps.take(i as int) =~= ps);
    warnings
}

// ── Reading a selector's style ───────────────────────────────────────────────

/// The style a selector reads from the scheme (the inverse of applying it):
/// `suggestion_line` reads the `suggestion` color it reuses; `border` and
/// unknown selectors read the empty style.
pub open spec fn spec_style_for_selector(cs: ColorScheme, sel: Seq<char>) -> Style {
    if sel == "room"@ {
        cs.room_normal
    } else if sel == "room:current"@ {
        cs.room_current
    } else if sel == "room:selected"@ {
        cs.room_selected
    } else if sel == "connector"@ {
        cs.connector
    } else if sel == "connector:distorted"@ {
        cs.connector_distorted
    } else if sel == "connector:portal"@ {
        cs.portal_connector
    } else if sel == "shared_path"@ {
        cs.shared_path
    } else if sel == "border:focused"@ {
        cs.focused_border
    } else if sel == "statusbar"@ {
        cs.status_bar
    } else if sel == "transcript"@ {
        cs.transcript
    } else if sel == "transcript:input"@ {
        cs.transcript_input
    } else if sel == "transcript:meta"@ {
        cs.transcript_meta
    } else if sel == "transcript:warning"@ {
        cs.transcript_warning
    } else if sel == "transcript:crash"@ {
        cs.transcript_crash
    } else if sel == "transcript:location"@ {
        cs.transcript_location
    } else if sel == "transcript:system"@ {
        cs.transcript_system
    } else if sel == "warning_marker"@ {
        cs.warning_marker
    } else if sel == "suggestion"@ {
        cs.suggestion
    } else if sel == "suggestion_line"@ {
        cs.suggestion
    } else if sel == "input:text"@ {
        cs.input_text
    } else if sel == "input:prompt"@ {
        cs.input_prompt
    } else if sel == "scrollbar"@ {
        cs.scrollbar
    } else if sel == "tidy_progress"@ {
        cs.tidy_progress
    } else if sel == "meta_marker"@ {
        cs.meta_marker
    } else if sel == "hyperlink"@ {
        cs.hyperlink
    } else if sel == "helpbar"@ {
        cs.help_bar
    } else if sel == "map_border"@ {
        cs.map_border
    } else if sel == "story_border"@ {
        cs.story_border
    } else if sel == "story_title"@ {
        cs.story_title
    } else if sel == "inventory:dock"@ {
        cs.inventory_dock
    } else if sel == "story_info"@ {
        cs.story_info
    } else if sel == "story_info:title"@ {
        cs.story_info_title
    } else if sel == "story_info:label"@ {
        cs.story_info_label
    } else if sel == "story_info:value"@ {
        cs.story_info_value
    } else if sel == "story_info:blurb"@ {
        cs.story_info_blurb
    } else if sel == "story_info:link"@ {
        cs.story_info_link
    } else if sel == "story_info:cover"@ {
        cs.story_info_cover
    } else if sel == "story_badge"@ {
        cs.story_badge
    } else if sel == "story_header"@ {
        cs.story_header
    } else if sel == "story_header:active"@ {
        cs.story_header_active
    } else if sel == "story_author"@ {
        cs.story_author
    } else if sel == "story_year"@ {
        cs.story_year
    } else if sel == "story_no_metadata"@ {
        cs.story_no_metadata
    } else if sel == "story_tile"@ {
        cs.story_tile
    } else if sel == "story_tile:selected"@ {
        cs.story_tile_selected
    } else if sel == "graphics"@ {
        cs.graphics
    } else if sel == "inline_image"@ {
        cs.inline_image
    } else if sel == "map_layer_tab"@ {
        cs.map_layer_tab
    } else if sel == "map_layer_tab_active"@ {
        cs.map_layer_tab_active
    } else if sel == "status_header"@ {
        cs.status_header
    } else if sel == "input_line"@ {
        cs.input_line
    } else if sel == "dialog"@ {
        cs.dialog
    } else if sel == "dialog:title"@ {
        cs.dialog_title
    } else if sel == "hotkey:key"@ {
        cs.hotkey_key
    } else if sel == "dialog:button"@ {
        cs.dialog_button
    } else if sel == "dialog:button:active"@ {
        cs.dialog_button_active
    } else if sel == "dialog:shadow"@ {
        cs.dialog_shadow
    } else if sel == "room_panel"@ {
        cs.room_panel
    } else if sel == "upper_window"@ {
        cs.upper_window
    } else if sel == "upper_window_border"@ {
        cs.upper_window_border
    } else if sel == "sound_beep_high"@ {
        cs.sound_beep_high
    } else if sel == "sound_beep_low"@ {
        cs.sound_beep_low
    } else if sel == "loc_indicator"@ {
        cs.loc_indicator
    } else if sel == "map.tile.wall"@ {
        cs.tile_wall
    } else if sel == "map.tile.floor"@ {
        cs.tile_floor
    } else if sel == "map.tile.corridor"@ {
        cs.tile_corridor
    } else if sel == "map.tile.door"@ {
        cs.tile_door
    } else if sel == "map.tile.bridge"@ {
        cs.tile_bridge
    } else if sel == "map.tile.stairs"@ {
        cs.tile_stairs
    } else if sel == "map.tile.chamber"@ {
        cs.tile_chamber
    } else if sel == "map.tile.shadow"@ {
        cs.tile_shadow
    } else if sel == "map.tile.player"@ {
        cs.tile_player
    } else if sel == "map.tile.room-number"@ {
        cs.tile_room_number
    } else {
        plain_style()
    }
}

/// The style of the scheme field that `selector` sets.
#[verifier::rlimit(50)]
pub fn style_for_selector(cs: &ColorScheme, selector: &str) -> (r: Style)
    ensures
        r == spec_style_for_selector(*cs, selector@),
{
    let sel = chars_of(selector);
    if eq_lit(&sel, "room") {
        cs.room_normal
    } else if eq_lit(&sel, "room:current") {
        cs.room_current
    } else if eq_lit(&sel, "room:selected") {
        cs.room_selected
    } else if eq_lit(&sel, "connector") {
        cs.connector
    } else if eq_lit(&sel, "connector:distorted") {
        cs.connector_distorted
    } else if eq_lit(&sel, "connector:portal") {
        cs.portal_connector
    } else if eq_lit(&sel, "shared_path") {
        cs.shared_path
    } else if eq_lit(&sel, "border:focused") {
        cs.focused_border
    } else if eq_lit(&sel, "statusbar") {
        cs.status_bar
    } else if eq_lit(&sel, "transcript") {
        cs.transcript
    } else if eq_lit(&sel, "transcript:input") {
        cs.transcript_input
    } else if eq_lit(&sel, "transcript:meta") {
        cs.transcript_meta
    } else if eq_lit(&sel, "transcript:warning") {
        cs.transcript_warning
    } else if eq_lit(&sel, "transcript:crash") {
        cs.transcript_crash
    } else if eq_lit(&sel, "transcript:location") {
        cs.transcript_location
    } else if eq_lit(&sel, "transcript:system") {
        cs.transcript_system
    } else if eq_lit(&sel, "warning_marker") {
        cs.warning_marker
    } else if eq_lit(&sel, "suggestion") {
        cs.suggestion
    } else if eq_lit(&sel, "suggestion_line") {
        cs.suggestion
    } else if eq_lit(&sel, "input:text") {
        cs.input_text
    } else if eq_lit(&sel, "input:prompt") {
        cs.input_prompt
    } else if eq_lit(&sel, "scrollbar") {
        cs.scrollbar
    } else if eq_lit(&sel, "tidy_progress") {
        cs.tidy_progress
    } else if eq_lit(&sel, "meta_marker") {
        cs.meta_marker
    } else if eq_lit(&sel, "hyperlink") {
        cs.hyperlink
    } else if eq_lit(&sel, "helpbar") {
        cs.help_bar
    } else if eq_lit(&sel, "map_border") {
        cs.map_border
    } else if eq_lit(&sel, "story_border") {
        cs.story_border
    } else if eq_lit(&sel, "story_title") {
        cs.story_title
    } else if eq_lit(&sel, "inventory:dock") {
        cs.inventory_dock
    } else if eq_lit(&sel, "story_info") {
        cs.story_info
    } else if eq_lit(&sel, "story_info:title") {
        cs.story_info_title
    } else if eq_lit(&sel, "story_info:label") {
        cs.story_info_label
    } else if eq_lit(&sel, "story_info:value") {
        cs.story_info_value
    } else if eq_lit(&sel, "story_info:blurb") {
        cs.story_info_blurb
    } else if eq_lit(&sel, "story_info:link") {
        cs.story_info_link
    } else if eq_lit(&sel, "story_info:cover") {
        cs.story_info_cover
    } else if eq_lit(&sel, "story_badge") {
        cs.story_badge
    } else if eq_lit(&sel, "story_header") {
        cs.story_header
    } else if eq_lit(&sel, "story_header:active") {
        cs.story_header_active
    } else if eq_lit(&sel, "story_author") {
        cs.story_author
    } else if eq_lit(&sel, "story_year") {
        cs.story_year
    } else if eq_lit(&sel, "story_no_metadata") {
        cs.story_no_metadata
    } else if eq_lit(&sel, "story_tile") {
        cs.story_tile
    } else if eq_lit(&sel, "story_tile:selected") {
        cs.story_tile_selected
    } else if eq_lit(&sel, "graphics") {
        cs.graphics
    } else if eq_lit(&sel, "inline_image") {
        cs.inline_image
    } else if eq_lit(&sel, "map_layer_tab") {
        cs.map_layer_tab
    } else if eq_lit(&sel, "map_layer_tab_active") {
        cs.map_layer_tab_active
    } else if eq_lit(&sel, "status_header") {
        cs.status_header
    } else if eq_lit(&sel, "input_line") {
        cs.input_line
    } else if eq_lit(&sel, "dialog") {
        cs.dialog
    } else if eq_lit(&sel, "dialog:title") {
        cs.dialog_title
    } else if eq_lit(&sel, "hotkey:key") {
        cs.hotkey_key
    } else if eq_lit(&sel, "dialog:button") {
        cs.dialog_button
    } else if eq_lit(&sel, "dialog:button:active") {
        cs.dialog_button_active
    } else if eq_lit(&sel, "dialog:shadow") {
        cs.dialog_shadow
    } else if eq_lit(&sel, "room_panel") {
        cs.room_panel
    } else if eq_lit(&sel, "upper_window") {
        cs.upper_window
    } else if eq_lit(&sel, "upper_window_border") {
        cs.upper_window_border
    } else if eq_lit(&sel, "sound_beep_high") {
        cs.sound_beep_high
    } else if eq_lit(&sel, "sound_beep_low") {
        cs.sound_beep_low
    } else if eq_lit(&sel, "loc_indicator") {
        cs.loc_indicator
    } else if eq_lit(&sel, "map.tile.wall") {
        cs.tile_wall
    } else if eq_lit(&sel, "map.tile.floor") {
        cs.tile_floor
    } else if eq_lit(&sel, "map.tile.corridor") {
        cs.tile_corridor
    } else if eq_lit(&sel, "map.tile.door") {
        cs.tile_door
    } else if eq_lit(&sel, "map.tile.bridge") {
        cs.tile_bridge
    } else if eq_lit(&sel, "map.tile.stairs") {
        cs.tile_stairs
    } else if eq_lit(&sel, "map.tile.chamber") {
        cs.tile_chamber
    } else if eq_lit(&sel, "map.tile.shadow") {
        cs.tile_shadow
    } else if eq_lit(&sel, "map.tile.player") {
        cs.tile_player
    } else if eq_lit(&sel, "map.tile.room-number") {
        cs.tile_room_number
    } else {
        Style::new()
    }
}

// ── What a selector reads back ───────────────────────────────────────────────

/// The lengths of the selector names, and characters that tell apart names of one length.
pub(crate) proof fn lemma_selector_shapes()
    ensures
        "room"@.len() == 4,
        "room:current"@.len() == 12,
        "room:current"@[6] == 'u',
        "room:selected"@.len() == 13,
        "room:selected"@[4] == ':',
        "room:selected"@[9] == 'c',
        "connector"@.len() == 9,
        "connector"@[1] == 'o',
        "connector:distorted"@.len() == 19,
        "connector:distorted"@[8] == 'r',
        "connector:portal"@.len() == 16,
        "connector:portal"@[11] == 'o',
        "connector:portal"@[0] == 'c',
        "shared_path"@.len() == 11,
        "shared_path"@[6] == '_',
        "border:focused"@.len() == 14,
        "border:focused"@[0] == 'b',
        "statusbar"@.len() == 9,
        "statusbar"@[1] == 't',
        "transcript"@.len() == 10,
        "transcript"@[8] == 'p',
        "transcript"@[0] == 't',
        "transcript:input"@.len() == 16,
        "transcript:input"@[11] == 'i',
        "transcript:input"@[0] == 't',
        "transcript:meta"@.len() == 15,
        "transcript:meta"@[14] == 'a',
        "transcript:meta"@[0] == 't',
        "transcript:warning"@.len() == 18,
        "transcript:crash"@.len() == 16,
        "transcript:crash"@[11] == 'c',
        "transcript:crash"@[0] == 't',
        "transcript:location"@.len() == 19,
        "transcript:location"@[8] == 'p',
        "transcript:system"@.len() == 17,
        "transcript:system"@[0] == 't',
        "warning_marker"@.len() == 14,
        "warning_marker"@[0] == 'w',
        "suggestion"@.len() == 10,
        "suggestion"@[8] == 'o',
        "suggestion"@[0] == 's',
        "input:text"@.len() == 10,
        "input:text"@[8] == 'x',
        "input:text"@[0] == 'i',
        "input:prompt"@.len() == 12,
        "input:prompt"@[6] == 'p',
        "scrollbar"@.len() == 9,
        "scrollbar"@[1] == 'c',
        "tidy_progress"@.len() == 13,
        "tidy_progress"@[4] == '_',
        "tidy_progress"@[9] == 'r',
        "meta_marker"@.len() == 11,
        "meta_marker"@[6] == 'a',
        "hyperlink"@.len() == 9,
        "hyperlink"@[1] == 'y',
        "helpbar"@.len() == 7,
        "story_title"@.len() == 11,
        "story_title"@[6] == 't',
        "inventory:dock"@.len() == 14,
        "inventory:dock"@[0] == 'i',
        "story_info"@.len() == 10,
        "story_info"@[8] == 'f',
        "story_info"@[0] == 's',
        "story_info:title"@.len() == 16,
        "story_info:title"@[11] == 't',
        "story_info:title"@[0] == 's',
        "story_info:label"@.len() == 16,
        "story_info:label"@[11] == 'l',
        "story_info:label"@[0] == 's',
        "story_info:value"@.len() == 16,
        "story_info:value"@[11] == 'v',
        "story_info:value"@[0] == 's',
        "story_info:blurb"@.len() == 16,
        "story_info:blurb"@[11] == 'b',
        "story_info:blurb"@[0] == 's',
        "story_info:link"@.len() == 15,
        "story_info:link"@[14] == 'k',
        "story_info:link"@[0] == 's',
        "story_info:cover"@.len() == 16,
        "story_info:cover"@[11] == 'c',
        "story_info:cover"@[0] == 's',
        "story_badge"@.len() == 11,
        "story_badge"@[6] == 'b',
        "story_header"@.len() == 12,
        "story_header"@[6] == 'h',
        "story_header:active"@.len() == 19,
        "story_header:active"@[8] == 'a',
        "story_author"@.len() == 12,
        "story_author"@[6] == 'a',
        "story_year"@.len() == 10,
        "story_year"@[8] == 'a',
        "story_year"@[0] == 's',
        "story_no_metadata"@.len() == 17,
        "story_no_metadata"@[0] == 's',
        "story_tile"@.len() == 10,
        "story_tile"@[8] == 'l',
        "story_tile"@[0] == 's',
        "story_tile:selected"@.len() == 19,
        "story_tile:selected"@[8] == 'l',
        "graphics"@.len() == 8,
        "inline_image"@.len() == 12,
        "inline_image"@[6] == '_',
        "map_layer_tab"@.len() == 13,
        "map_layer_tab"@[4] == 'l',
        "map_layer_tab"@[9] == '_',
        "map_layer_tab_active"@.len() == 20,
        "map_layer_tab_active"@[3] == '_',
        "dialog:title"@.len() == 12,
        "dialog:title"@[6] == ':',
        "hotkey:key"@.len() == 10,
        "hotkey:key"@[8] == 'e',
        "hotkey:key"@[0] == 'h',
        "dialog:button"@.len() == 13,
        "dialog:button"@[4] == 'o',
        "dialog:button"@[9] == 't',
        "dialog:button:active"@.len() == 20,
        "dialog:button:active"@[3] == 'l',
        "dialog:shadow"@.len() == 13,
        "dialog:shadow"@[4] == 'o',
        "dialog:shadow"@[9] == 'a',
        "room_panel"@.len() == 10,
        "room_panel"@[8] == 'e',
        "room_panel"@[0] == 'r',
        "upper_window"@.len() == 12,
        "upper_window"@[6] == 'w',
        "sound_beep_high"@.len() == 15,
        "sound_beep_high"@[14] == 'h',
        "sound_beep_high"@[0] == 's',
        "sound_beep_low"@.len() == 14,
        "sound_beep_low"@[0] == 's',
        "loc_indicator"@.len() == 13,
        "loc_indicator"@[4] == 'i',
        "loc_indicator"@[9] == 'a',
        "map.tile.wall"@.len() == 13,
        "map.tile.wall"@[4] == 't',
        "map.tile.wall"@[9] == 'w',
        "map.tile.floor"@.len() == 14,
        "map.tile.floor"@[0] == 'm',
        "map.tile.corridor"@.len() == 17,
        "map.tile.corridor"@[0] == 'm',
        "map.tile.door"@.len() == 13,
        "map.tile.door"@[4] == 't',
        "map.tile.door"@[9] == 'd',
        "map.tile.bridge"@.len() == 15,
        "map.tile.bridge"@[14] == 'e',
        "map.tile.bridge"@[0] == 'm',
        "map.tile.stairs"@.len() == 15,
        "map.tile.stairs"@[14] == 's',
        "map.tile.stairs"@[0] == 'm',
        "map.tile.chamber"@.len() == 16,
        "map.tile.chamber"@[11] == 'a',
        "map.tile.chamber"@[0] == 'm',
        "map.tile.shadow"@.len() == 15,
        "map.tile.shadow"@[14] == 'w',
        "map.tile.shadow"@[0] == 'm',
        "map.tile.player"@.len() == 15,
        "map.tile.player"@[14] == 'r',
        "map.tile.player"@[0] == 'm',
        "map.tile.room-number"@.len() == 20,
        "map.tile.room-number"@[3] == '.',
        "suggestion_line"@.len() == 15,
        "suggestion_line"@[14] == 'e',
        "suggestion_line"@[0] == 's',
        "map_border"@.len() == 10,
        "map_border"@[8] == 'e',
        "map_border"@[0] == 'm',
        "story_border"@.len() == 12,
        "story_border"@[6] == 'b',
        "status_header"@.len() == 13,
        "status_header"@[4] == 'u',
        "status_header"@[9] == 'a',
        "input_line"@.len() == 10,
        "input_line"@[8] == 'n',
        "input_line"@[0] == 'i',
        "upper_window_border"@.len() == 19,
        "upper_window_border"@[8] == 'n',
        "border"@.len() == 6,
        "border"@[0] == 'b',
        "dialog"@.len() == 6,
        "dialog"@[0] == 'd',
{
    reveal_strlit("room");
    reveal_strlit("room:current");
    reveal_strlit("room:selected");
    reveal_strlit("connector");
    reveal_strlit("connector:distorted");
    reveal_strlit("connector:portal");
    reveal_strlit("shared_path");
    reveal_strlit("border:focused");
    reveal_strlit("statusbar");
    reveal_strlit("transcript");
    reveal_strlit("transcript:input");
    reveal_strlit("transcript:meta");
    reveal_strlit("transcript:warning");
    reveal_strlit("transcript:crash");
    reveal_strlit("transcript:location");
    reveal_strlit("transcript:system");
    reveal_strlit("warning_marker");
    reveal_strlit("suggestion");
    reveal_strlit("input:text");
    reveal_strlit("input:prompt");
    reveal_strlit("scrollbar");
    reveal_strlit("tidy_progress");
    reveal_strlit("meta_marker");
    reveal_strlit("hyperlink");
    reveal_strlit("helpbar");
    reveal_strlit("story_title");
    reveal_strlit("inventory:dock");
    reveal_strlit("story_info");
    reveal_strlit("story_info:title");
    reveal_strlit("story_info:label");
    reveal_strlit("story_info:value");
    reveal_strlit("story_info:blurb");
    reveal_strlit("story_info:link");
    reveal_strlit("story_info:cover");
    reveal_strlit("story_badge");
    reveal_strlit("story_header");
    reveal_strlit("story_header:active");
    reveal_strlit("story_author");
    reveal_strlit("story_year");
    reveal_strlit("story_no_metadata");
    reveal_strlit("story_tile");
    reveal_strlit("story_tile:selected");
    reveal_strlit("graphics");
    reveal_strlit("inline_image");
    reveal_strlit("map_layer_tab");
    reveal_strlit("map_layer_tab_active");
    reveal_strlit("dialog:title");
    reveal_strlit("hotkey:key");
    reveal_strlit("dialog:button");
    reveal_strlit("dialog:button:active");
    reveal_strlit("dialog:shadow");
    reveal_strlit("room_panel");
    reveal_strlit("upper_window");
    reveal_strlit("sound_beep_high");
    reveal_strlit("sound_beep_low");
    reveal_strlit("loc_indicator");
    reveal_strlit("map.tile.wall");
    reveal_strlit("map.tile.floor");
    reveal_strlit("map.tile.corridor");
    reveal_strlit("map.tile.door");
    reveal_strlit("map.tile.bridge");
    reveal_strlit("map.tile.stairs");
    reveal_strlit("map.tile.chamber");
    reveal_strlit("map.tile.shadow");
    reveal_strlit("map.tile.player");
    reveal_strlit("map.tile.room-number");
    reveal_strlit("suggestion_line");
    reveal_strlit("map_border");
    reveal_strlit("story_border");
    reveal_strlit("status_header");
    reveal_strlit("input_line");
    reveal_strlit("upper_window_border");
    reveal_strlit("border");
    reveal_strlit("dialog");
}

proof fn lemma_read_back_0(cs: ColorScheme, sel: Seq<char>, d: Decl, st: Style)
    requires
        sel == "room"@ || sel == "room:current"@ || sel == "room:selected"@ || sel == "connector"@ || sel == "connector:distorted"@ || sel == "connector:portal"@ || sel == "shared_path"@ || sel == "border:focused"@ || sel == "statusbar"@,
    ensures
        spec_style_for_selector(apply_chunk_0(cs, sel, d, st), sel) == spec_patch(spec_style_for_selector(cs, sel), st),
{
    lemma_selector_shapes();
    if sel == "room"@ {
        assert(spec_style_for_selector(apply_chunk_0(cs, sel, d, st), sel) == spec_patch(spec_style_for_selector(cs, sel), st));
    } else if sel == "room:current"@ {
        assert(spec_style_for_selector(apply_chunk_0(cs, sel, d, st), sel) == spec_patch(spec_style_for_selector(cs, sel), st));
    } else if sel == "room:selected"@ {
        assert(spec_style_for_selector(apply_chunk_0(cs, sel, d, st), sel) == spec_patch(spec_style_for_selector(cs, sel), st));
    } else if sel == "connector"@ {
        assert(spec_style_for_selector(apply_chunk_0(cs, sel, d, st), sel) == spec_patch(spec_style_for_selector(cs, sel), st));
    } else if sel == "connector:distorted"@ {
        assert(spec_style_for_selector(apply_chunk_0(cs, sel, d, st), sel) == spec_patch(spec_style_for_selector(cs, sel), st));
    } else if sel == "connector:portal"@ {
        assert(spec_style_for_selector(apply_chunk_0(cs, sel, d, st), sel) == spec_patch(spec_style_for_selector(cs, sel), st));
    } else if sel == "shared_path"@ {
        assert(spec_style_for_selector(apply_chunk_0(cs, sel, d, st), sel) == spec_patch(spec_style_for_selector(cs, sel), st));
    } else if sel == "border:focused"@ {
        assert(spec_style_for_selector(apply_chunk_0(cs, sel, d, st), sel) == spec_patch(spec_style_for_selector(cs, sel), st));
    } else if sel == "statusbar"@ {
        assert(spec_style_for_selector(apply_chunk_0(cs, sel, d, st), sel) == spec_patch(spec_style_for_selector(cs, sel), st));
    }
}

proof fn lemma_leaves_0(cs: ColorScheme, sel: Seq<char>, other: Seq<char>, d: Decl, st: Style)
    requires
        sel != other,
        !(sel == "suggestion"@ && other == "suggestion_line"@),
    ensures
        spec_style_for_selector(apply_chunk_0(cs, sel, d, st), other) == spec_style_for_selector(cs, other),
{
}

proof fn lemma_read_back_1(cs: ColorScheme, sel: Seq<char>, d: Decl, st: Style)
    requires
        sel == "transcript"@ || sel == "transcript:input"@ || sel == "transcript:meta"@ || sel == "transcript:warning"@ || sel == "transcript:crash"@ || sel == "transcript:location"@ || sel == "transcript:system"@ || sel == "warning_marker"@ || sel == "suggestion"@,
    ensures
        spec_style_for_selector(apply_chunk_1(cs, sel, d, st), sel) == spec_patch(spec_style_for_selector(cs, sel), st),
{
    lemma_selector_shapes();
    if sel == "transcript"@ {
        assert(spec_style_for_selector(apply_chunk_1(cs, sel, d, st), sel) == spec_patch(spec_style_for_selector(cs, sel), st));
    } else if sel == "transcript:input"@ {
        assert(spec_style_for_selector(apply_chunk_1(cs, sel, d, st), sel) == spec_patch(spec_style_for_selector(cs, sel), st));
    } else if sel == "transcript:meta"@ {
        assert(spec_style_for_selector(apply_chunk_1(cs, sel, d, st), sel) == spec_patch(spec_style_for_selector(cs, sel), st));
    } else if sel == "transcript:warning"@ {
        assert(spec_style_for_selector(apply_chunk_1(cs, sel, d, st), sel) == spec_patch(spec_style_for_selector(cs, sel), st));
    } else if sel == "transcript:crash"@ {
        assert(spec_style_for_selector(apply_chunk_1(cs, sel, d, st), sel) == spec_patch(spec_style_for_selector(cs, sel), st));
    } else if sel == "transcript:location"@ {
        assert(spec_style_for_selector(apply_chunk_1(cs, sel, d, st), sel) == spec_patch(spec_style_for_selector(cs, sel), st));
    } else if sel == "transcript:system"@ {
        assert(spec_style_for_selector(apply_chunk_1(cs, sel, d, st), sel) == spec_patch(spec_style_for_selector(cs, sel), st));
    } else if sel == "warning_marker"@ {
        assert(spec_style_for_selector(apply_chunk_1(cs, sel, d, st), sel) == spec_patch(spec_style_for_selector(cs, sel), st));
    } else if sel == "suggestion"@ {
        assert(spec_style_for_selector(apply_chunk_1(cs, sel, d, st), sel) == spec_patch(spec_style_for_selector(cs, sel), st));
    }
}

proof fn lemma_leaves_1(cs: ColorScheme, sel: Seq<char>, other: Seq<char>, d: Decl, st: Style)
    requires
        sel != other,
        !(sel == "suggestion"@ && other == "suggestion_line"@),
    ensures
        spec_style_for_selector(apply_chunk_1(cs, sel, d, st), other) == spec_style_for_selector(cs, other),
{
}

proof fn lemma_read_back_2(cs: ColorScheme, sel: Seq<char>, d: Decl, st: Style)
    requires
        sel == "input:text"@ || sel == "input:prompt"@ || sel == "scrollbar"@ || sel == "tidy_progress"@ || sel == "meta_marker"@ || sel == "hyperlink"@ || sel == "helpbar"@ || sel == "story_title"@ || sel == "inventory:dock"@,
    ensures
        spec_style_for_selector(apply_chunk_2(cs, sel, d, st), sel) == spec_patch(spec_style_for_selector(cs, sel), st),
{
    lemma_selector_shapes();
    if sel == "input:text"@ {
        assert(spec_style_for_selector(apply_chunk_2(cs, sel, d, st), sel) == spec_patch(spec_style_for_selector(cs, sel), st));
    } else if sel == "input:prompt"@ {
        assert(spec_style_for_selector(apply_chunk_2(cs, sel, d, st), sel) == spec_patch(spec_style_for_selector(cs, sel), st));
    } else if sel == "scrollbar"@ {
        assert(spec_style_for_selector(apply_chunk_2(cs, sel, d, st), sel) == spec_patch(spec_style_for_selector(cs, sel), st));
    } else if sel == "tidy_progress"@ {
        assert(spec_style_for_selector(apply_chunk_2(cs, sel, d, st), sel) == spec_patch(spec_style_for_selector(cs, sel), st));
    } else if sel == "meta_marker"@ {
        assert(spec_style_for_selector(apply_chunk_2(cs, sel, d, st), sel) == spec_patch(spec_style_for_selector(cs, sel), st));
    } else if sel == "hyperlink"@ {
        assert(spec_style_for_selector(apply_chunk_2(cs, sel, d, st), sel) == spec_patch(spec_style_for_selector(cs, sel), st));
    } else if sel == "helpbar"@ {
        assert(spec_style_for_selector(apply_chunk_2(cs, sel, d, st), sel) == spec_patch(spec_style_for_selector(cs, sel), st));
    } else if sel == "story_title"@ {
        assert(spec_style_for_selector(apply_chunk_2(cs, sel, d, st), sel) == spec_patch(spec_style_for_selector(cs, sel), st));
    } else if sel == "inventory:dock"@ {
        assert(spec_style_for_selector(apply_chunk_2(cs, sel, d, st), sel) == spec_patch(spec_style_for_selector(cs, sel), st));
    }
}

proof fn lemma_leaves_2(cs: ColorScheme, sel: Seq<char>, other: Seq<char>, d: Decl, st: Style)
    requires
        sel != other,
        !(sel == "suggestion"@ && other == "suggestion_line"@),
    ensures
        spec_style_for_selector(apply_chunk_2(cs, sel, d, st), other) == spec_style_for_selector(cs, other),
{
}

proof fn lemma_read_back_3(cs: ColorScheme, sel: Seq<char>, d: Decl, st: Style)
    requires
        sel == "story_info"@ || sel == "story_info:title"@ || sel == "story_info:label"@ || sel == "story_info:value"@ || sel == "story_info:blurb"@ || sel == "story_info:link"@ || sel == "story_info:cover"@ || sel == "story_badge"@ || sel == "story_header"@,
    ensures
        spec_style_for_selector(apply_chunk_3(cs, sel, d, st), sel) == spec_patch(spec_style_for_selector(cs, sel), st),
{
    lemma_selector_shapes();
    if sel == "story_info"@ {
        assert(spec_style_for_selector(apply_chunk_3(cs, sel, d, st), sel) == spec_patch(spec_style_for_selector(cs, sel), st));
    } else if sel == "story_info:title"@ {
        assert(spec_style_for_selector(apply_chunk_3(cs, sel, d, st), sel) == spec_patch(spec_style_for_selector(cs, sel), st));
    } else if sel == "story_info:label"@ {
        assert(spec_style_for_selector(apply_chunk_3(cs, sel, d, st), sel) == spec_patch(spec_style_for_selector(cs, sel), st));
    } else if sel == "story_info:value"@ {
        assert(spec_style_for_selector(apply_chunk_3(cs, sel, d, st), sel) == spec_patch(spec_style_for_selector(cs, sel), st));
    } else if sel == "story_info:blurb"@ {
        assert(spec_style_for_selector(apply_chunk_3(cs, sel, d, st), sel) == spec_patch(spec_style_for_selector(cs, sel), st));
    } else if sel == "story_info:link"@ {
        assert(spec_style_for_selector(apply_chunk_3(cs, sel, d, st), sel) == spec_patch(spec_style_for_selector(cs, sel), st));
    } else if sel == "story_info:cover"@ {
        assert(spec_style_for_selector(apply_chunk_3(cs, sel, d, st), sel) == spec_patch(spec_style_for_selector(cs, sel), st));
    } else if sel == "story_badge"@ {
        assert(spec_style_for_selector(apply_chunk_3(cs, sel, d, st), sel) == spec_patch(spec_style_for_selector(cs, sel), st));
    } else if sel == "story_header"@ {
        assert(spec_style_for_selector(apply_chunk_3(cs, sel, d, st), sel) == spec_patch(spec_style_for_selector(cs, sel), st));
    }
}

proof fn lemma_leaves_3(cs: ColorScheme, sel: Seq<char>, other: Seq<char>, d: Decl, st: Style)
    requires
        sel != other,
        !(sel == "suggestion"@ && other == "suggestion_line"@),
    ensures
        spec_style_for_selector(apply_chunk_3(cs, sel, d, st), other) == spec_style_for_selector(cs, other),
{
}

proof fn lemma_read_back_4(cs: ColorScheme, sel: Seq<char>, d: Decl, st: Style)
    requires
        sel == "story_header:active"@ || sel == "story_author"@ || sel == "story_year"@ || sel == "story_no_metadata"@ || sel == "story_tile"@ || sel == "story_tile:selected"@ || sel == "graphics"@ || sel == "inline_image"@ || sel == "map_layer_tab"@,
    ensures
        spec_style_for_selector(apply_chunk_4(cs, sel, d, st), sel) == spec_patch(spec_style_for_selector(cs, sel), st),
{
    lemma_selector_shapes();
    if sel == "story_header:active"@ {
        assert(spec_style_for_selector(apply_chunk_4(cs, sel, d, st), sel) == spec_patch(spec_style_for_selector(cs, sel), st));
    } else if sel == "story_author"@ {
        assert(spec_style_for_selector(apply_chunk_4(cs, sel, d, st), sel) == spec_patch(spec_style_for_selector(cs, sel), st));
    } else if sel == "story_year"@ {
        assert(spec_style_for_selector(apply_chunk_4(cs, sel, d, st), sel) == spec_patch(spec_style_for_selector(cs, sel), st));
    } else if sel == "story_no_metadata"@ {
        assert(spec_style_for_selector(apply_chunk_4(cs, sel, d, st), sel) == spec_patch(spec_style_for_selector(cs, sel), st));
    } else if sel == "story_tile"@ {
        assert(spec_style_for_selector(apply_chunk_4(cs, sel, d, st), sel) == spec_patch(spec_style_for_selector(cs, sel), st));
    } else if sel == "story_tile:selected"@ {
        assert(spec_style_for_selector(apply_chunk_4(cs, sel, d, st), sel) == spec_patch(spec_style_for_selector(cs, sel), st));
    } else if sel == "graphics"@ {
        assert(spec_style_for_selector(apply_chunk_4(cs, sel, d, st), sel) == spec_patch(spec_style_for_selector(cs, sel), st));
    } else if sel == "inline_image"@ {
        assert(spec_style_for_selector(apply_chunk_4(cs, sel, d, st), sel) == spec_patch(spec_style_for_selector(cs, sel), st));
    } else if sel == "map_layer_tab"@ {
        assert(spec_style_for_selector(apply_chunk_4(cs, sel, d, st), sel) == spec_patch(spec_style_for_selector(cs, sel), st));
    }
}

proof fn lemma_leaves_4(cs: ColorScheme, sel: Seq<char>, other: Seq<char>, d: Decl, st: Style)
    requires
        sel != other,
        !(sel == "suggestion"@ && other == "suggestion_line"@),
    ensures
        spec_style_for_selector(apply_chunk_4(cs, sel, d, st), other) == spec_style_for_selector(cs, other),
{
}

proof fn lemma_read_back_5(cs: ColorScheme, sel: Seq<char>, d: Decl, st: Style)
    requires
        sel == "map_layer_tab_active"@ || sel == "dialog:title"@ || sel == "hotkey:key"@ || sel == "dialog:button"@ || sel == "dialog:button:active"@ || sel == "dialog:shadow"@ || sel == "room_panel"@ || sel == "upper_window"@ || sel == "sound_beep_high"@,
    ensures
        spec_style_for_selector(apply_chunk_5(cs, sel, d, st), sel) == spec_patch(spec_style_for_selector(cs, sel), st),
{
    lemma_selector_shapes();
    if sel == "map_layer_tab_active"@ {
        assert(spec_style_for_selector(apply_chunk_5(cs, sel, d, st), sel) == spec_patch(spec_style_for_selector(cs, sel), st));
    } else if sel == "dialog:title"@ {
        assert(spec_style_for_selector(apply_chunk_5(cs, sel, d, st), sel) == spec_patch(spec_style_for_selector(cs, sel), st));
    } else if sel == "hotkey:key"@ {
        assert(spec_style_for_selector(apply_chunk_5(cs, sel, d, st), sel) == spec_patch(spec_style_for_selector(cs, sel), st));
    } else if sel == "dialog:button"@ {
        assert(spec_style_for_selector(apply_chunk_5(cs, sel, d, st), sel) == spec_patch(spec_style_for_selector(cs, sel), st));
    } else if sel == "dialog:button:active"@ {
        assert(spec_style_for_selector(apply_chunk_5(cs, sel, d, st), sel) == spec_patch(spec_style_for_selector(cs, sel), st));
    } else if sel == "dialog:shadow"@ {
        assert(spec_style_for_selector(apply_chunk_5(cs, sel, d, st), sel) == spec_patch(spec_style_for_selector(cs, sel), st));
    } else if sel == "room_panel"@ {
        assert(spec_style_for_selector(apply_chunk_5(cs, sel, d, st), sel) == spec_patch(spec_style_for_selector(cs, sel), st));
    } else if sel == "upper_window"@ {
        assert(spec_style_for_selector(apply_chunk_5(cs, sel, d, st), sel) == spec_patch(spec_style_for_selector(cs, sel), st));
    } else if sel == "sound_beep_high"@ {
        assert(spec_style_for_selector(apply_chunk_5(cs, sel, d, st), sel) == spec_patch(spec_style_for_selector(cs, sel), st));
    }
}

proof fn lemma_leaves_5(cs: ColorScheme, sel: Seq<char>, other: Seq<char>, d: Decl, st: Style)
    requires
        sel != other,
        !(sel == "suggestion"@ && other == "suggestion_line"@),
    ensures
        spec_style_for_selector(apply_chunk_5(cs, sel, d, st), other) == spec_style_for_selector(cs, other),
{
}

proof fn lemma_read_back_6(cs: ColorScheme, sel: Seq<char>, d: Decl, st: Style)
    requires
        sel == "sound_beep_low"@ || sel == "loc_indicator"@ || sel == "map.tile.wall"@ || sel == "map.tile.floor"@ || sel == "map.tile.corridor"@ || sel == "map.tile.door"@ || sel == "map.tile.bridge"@ || sel == "map.tile.stairs"@ || sel == "map.tile.chamber"@,
    ensures
        spec_style_for_selector(apply_chunk_6(cs, sel, d, st), sel) == spec_patch(spec_style_for_selector(cs, sel), st),
{
    lemma_selector_shapes();
    if sel == "sound_beep_low"@ {
        assert(spec_style_for_selector(apply_chunk_6(cs, sel, d, st), sel) == spec_patch(spec_style_for_selector(cs, sel), st));
    } else if sel == "loc_indicator"@ {
        assert(spec_style_for_selector(apply_chunk_6(cs, sel, d, st), sel) == spec_patch(spec_style_for_selector(cs, sel), st));
    } else if sel == "map.tile.wall"@ {
        assert(spec_style_for_selector(apply_chunk_6(cs, sel, d, st), sel) == spec_patch(spec_style_for_selector(cs, sel), st));
    } else if sel == "map.tile.floor"@ {
        assert(spec_style_for_selector(apply_chunk_6(cs, sel, d, st), sel) == spec_patch(spec_style_for_selector(cs, sel), st));
    } else if sel == "map.tile.corridor"@ {
        assert(spec_style_for_selector(apply_chunk_6(cs, sel, d, st), sel) == spec_patch(spec_style_for_selector(cs, sel), st));
    } else if sel == "map.tile.door"@ {
        assert(spec_style_for_selector(apply_chunk_6(cs, sel, d, st), sel) == spec_patch(spec_style_for_selector(cs, sel), st));
    } else if sel == "map.tile.bridge"@ {
        assert(spec_style_for_selector(apply_chunk_6(cs, sel, d, st), sel) == spec_patch(spec_style_for_selector(cs, sel), st));
    } else if sel == "map.tile.stairs"@ {
        assert(spec_style_for_selector(apply_chunk_6(cs, sel, d, st), sel) == spec_patch(spec_style_for_selector(cs, sel), st));
    } else if sel == "map.tile.chamber"@ {
        assert(spec_style_for_selector(apply_chunk_6(cs, sel, d, st), sel) == spec_patch(spec_style_for_selector(cs, sel), st));
    }
}

proof fn lemma_leaves_6(cs: ColorScheme, sel: Seq<char>, other: Seq<char>, d: Decl, st: Style)
    requires
        sel != other,
        !(sel == "suggestion"@ && other == "suggestion_line"@),
    ensures
        spec_style_for_selector(apply_chunk_6(cs, sel, d, st), other) == spec_style_for_selector(cs, other),
{
}

proof fn lemma_read_back_7(cs: ColorScheme, sel: Seq<char>, d: Decl, st: Style)
    requires
        sel == "map.tile.shadow"@ || sel == "map.tile.player"@ || sel == "map.tile.room-number"@,
    ensures
        spec_style_for_selector(apply_chunk_7(cs, sel, d, st), sel) == spec_patch(spec_style_for_selector(cs, sel), st),
{
    lemma_selector_shapes();
    if sel == "map.tile.shadow"@ {
        assert(spec_style_for_selector(apply_chunk_7(cs, sel, d, st), sel) == spec_patch(spec_style_for_selector(cs, sel), st));
    } else if sel == "map.tile.player"@ {
        assert(spec_style_for_selector(apply_chunk_7(cs, sel, d, st), sel) == spec_patch(spec_style_for_selector(cs, sel), st));
    } else if sel == "map.tile.room-number"@ {
        assert(spec_style_for_selector(apply_chunk_7(cs, sel, d, st), sel) == spec_patch(spec_style_for_selector(cs, sel), st));
    }
}

proof fn lemma_leaves_7(cs: ColorScheme, sel: Seq<char>, other: Seq<char>, d: Decl, st: Style)
    requires
        sel != other,
        !(sel == "suggestion"@ && other == "suggestion_line"@),
    ensures
        spec_style_for_selector(apply_chunk_7(cs, sel, d, st), other) == spec_style_for_selector(cs, other),
{
}

proof fn lemma_leaves_8(cs: ColorScheme, sel: Seq<char>, other: Seq<char>, d: Decl, st: Style)
    requires
        sel != other,
        !(sel == "suggestion"@ && other == "suggestion_line"@),
    ensures
        spec_style_for_selector(apply_chunk_8(cs, sel, d, st), other) == spec_style_for_selector(cs, other),
{
}

proof fn lemma_read_back_9(cs: ColorScheme, sel: Seq<char>, d: Decl, st: Style)
    requires
        sel == "map_border"@,
    ensures
        spec_style_for_selector(apply_chunk_9(cs, sel, d, st), sel) == spec_patch(spec_style_for_selector(cs, sel), st),
{
    lemma_selector_shapes();
    if sel == "map_border"@ {
        assert(spec_style_for_selector(apply_chunk_9(cs, sel, d, st), sel) == spec_patch(spec_style_for_selector(cs, sel), st));
    }
}

proof fn lemma_leaves_9(cs: ColorScheme, sel: Seq<char>, other: Seq<char>, d: Decl, st: Style)
    requires
        sel != other,
        !(sel == "suggestion"@ && other == "suggestion_line"@),
    ensures
        spec_style_for_selector(apply_chunk_9(cs, sel, d, st), other) == spec_style_for_selector(cs, other),
{
}

proof fn lemma_read_back_10(cs: ColorScheme, sel: Seq<char>, d: Decl, st: Style)
    requires
        sel == "story_border"@,
    ensures
        spec_style_for_selector(apply_chunk_10(cs, sel, d, st), sel) == spec_patch(spec_style_for_selector(cs, sel), st),
{
    lemma_selector_shapes();
    if sel == "story_border"@ {
        assert(spec_style_for_selector(apply_chunk_10(cs, sel, d, st), sel) == spec_patch(spec_style_for_selector(cs, sel), st));
    }
}

proof fn lemma_leaves_10(cs: ColorScheme, sel: Seq<char>, other: Seq<char>, d: Decl, st: Style)
    requires
        sel != other,
        !(sel == "suggestion"@ && other == "suggestion_line"@),
    ensures
        spec_style_for_selector(apply_chunk_10(cs, sel, d, st), other) == spec_style_for_selector(cs, other),
{
}

proof fn lemma_read_back_11(cs: ColorScheme, sel: Seq<char>, d: Decl, st: Style)
    requires
        sel == "status_header"@,
    ensures
        spec_style_for_selector(apply_chunk_11(cs, sel, d, st), sel) == spec_patch(spec_style_for_selector(cs, sel), st),
{
    lemma_selector_shapes();
    if sel == "status_header"@ {
        assert(spec_style_for_selector(apply_chunk_11(cs, sel, d, st), sel) == spec_patch(spec_style_for_selector(cs, sel), st));
    }
}

proof fn lemma_leaves_11(cs: ColorScheme, sel: Seq<char>, other: Seq<char>, d: Decl, st: Style)
    requires
        sel != other,
        !(sel == "suggestion"@ && other == "suggestion_line"@),
    ensures
        spec_style_for_selector(apply_chunk_11(cs, sel, d, st), other) == spec_style_for_selector(cs, other),
{
}

proof fn lemma_read_back_12(cs: ColorScheme, sel: Seq<char>, d: Decl, st: Style)
    requires
        sel == "input_line"@,
    ensures
        spec_style_for_selector(apply_chunk_12(cs, sel, d, st), sel) == spec_patch(spec_style_for_selector(cs, sel), st),
{
    lemma_selector_shapes();
    if sel == "input_line"@ {
        assert(spec_style_for_selector(apply_chunk_12(cs, sel, d, st), sel) == spec_patch(spec_style_for_selector(cs, sel), st));
    }
}

proof fn lemma_leaves_12(cs: ColorScheme, sel: Seq<char>, other: Seq<char>, d: Decl, st: Style)
    requires
        sel != other,
        !(sel == "suggestion"@ && other == "suggestion_line"@),
    ensures
        spec_style_for_selector(apply_chunk_12(cs, sel, d, st), other) == spec_style_for_selector(cs, other),
{
}

proof fn lemma_read_back_13(cs: ColorScheme, sel: Seq<char>, d: Decl, st: Style)
    requires
        sel == "upper_window_border"@,
    ensures
        spec_style_for_selector(apply_chunk_13(cs, sel, d, st), sel) == spec_patch(spec_style_for_selector(cs, sel), st),
{
    lemma_selector_shapes();
    if sel == "upper_window_border"@ {
        assert(spec_style_for_selector(apply_chunk_13(cs, sel, d, st), sel) == spec_patch(spec_style_for_selector(cs, sel), st));
    }
}

proof fn lemma_leaves_13(cs: ColorScheme, sel: Seq<char>, other: Seq<char>, d: Decl, st: Style)
    requires
        sel != other,
        !(sel == "suggestion"@ && other == "suggestion_line"@),
    ensures
        spec_style_for_selector(apply_chunk_13(cs, sel, d, st), other) == spec_style_for_selector(cs, other),
{
}

proof fn lemma_read_back_14(cs: ColorScheme, sel: Seq<char>, d: Decl, st: Style)
    requires
        sel == "dialog"@,
    ensures
        spec_style_for_selector(apply_chunk_14(cs, sel, d, st), sel) == spec_patch(spec_style_for_selector(cs, sel), st),
{
    lemma_selector_shapes();
    if sel == "dialog"@ {
        assert(spec_style_for_selector(apply_chunk_14(cs, sel, d, st), sel) == spec_patch(spec_style_for_selector(cs, sel), st));
    }
}

proof fn lemma_leaves_14(cs: ColorScheme, sel: Seq<char>, other: Seq<char>, d: Decl, st: Style)
    requires
        sel != other,
        !(sel == "suggestion"@ && other == "suggestion_line"@),
    ensures
        spec_style_for_selector(apply_chunk_14(cs, sel, d, st), other) == spec_style_for_selector(cs, other),
{
}

/// Applying a declaration to a selector patches exactly the style that the
/// selector reads: afterwards it reads its old style with the declaration's
/// style layered on top. `border`, which styles nothing, and `suggestion_line`,
/// which sets the suggestion line's frame while reading the suggestion color,
/// are the two selectors this does not hold of.
#[verifier::rlimit(50)]
pub proof fn lemma_apply_then_read(cs: ColorScheme, sel: Seq<char>, d: Decl, gs: GhosttyScheme)
    requires
        known_selector(sel),
        sel != "border"@,
        sel != "suggestion_line"@,
    ensures
        spec_style_for_selector(spec_apply_decl(cs, sel, d, gs), sel) == spec_patch(
            spec_style_for_selector(cs, sel),
            spec_decl_to_style(d, gs),
        ),
{
    reveal(spec_apply_decl);
    if chunk_0_has(sel) {
        lemma_read_back_0(cs, sel, d, spec_decl_to_style(d, gs));
    } else if chunk_1_has(sel) {
        lemma_read_back_1(cs, sel, d, spec_decl_to_style(d, gs));
    } else if chunk_2_has(sel) {
        lemma_read_back_2(cs, sel, d, spec_decl_to_style(d, gs));
    } else if chunk_3_has(sel) {
        lemma_read_back_3(cs, sel, d, spec_decl_to_style(d, gs));
    } else if chunk_4_has(sel) {
        lemma_read_back_4(cs, sel, d, spec_decl_to_style(d, gs));
    } else if chunk_5_has(sel) {
        lemma_read_back_5(cs, sel, d, spec_decl_to_style(d, gs));
    } else if chunk_6_has(sel) {
        lemma_read_back_6(cs, sel, d, spec_decl_to_style(d, gs));
    } else if chunk_7_has(sel) {
        lemma_read_back_7(cs, sel, d, spec_decl_to_style(d, gs));
    } else if chunk_8_has(sel) {
    } else if chunk_9_has(sel) {
        lemma_read_back_9(cs, sel, d, spec_decl_to_style(d, gs));
    } else if chunk_10_has(sel) {
        lemma_read_back_10(cs, sel, d, spec_decl_to_style(d, gs));
    } else if chunk_11_has(sel) {
        lemma_read_back_11(cs, sel, d, spec_decl_to_style(d, gs));
    } else if chunk_12_has(sel) {
        lemma_read_back_12(cs, sel, d, spec_decl_to_style(d, gs));
    } else if chunk_13_has(sel) {
        lemma_read_back_13(cs, sel, d, spec_decl_to_style(d, gs));
    } else if chunk_14_has(sel) {
        lemma_read_back_14(cs, sel, d, spec_decl_to_style(d, gs));
    }
}

/// Applying a declaration to one selector leaves what every other selector
/// reads as it was (`suggestion_line` reads the color that `suggestion` sets).
pub proof fn lemma_apply_leaves_others(cs: ColorScheme, sel: Seq<char>, other: Seq<char>, d: Decl, gs: GhosttyScheme)
    requires
        sel != other,
        !(sel == "suggestion"@ && other == "suggestion_line"@),
    ensures
        spec_style_for_selector(spec_apply_decl(cs, sel, d, gs), other) == spec_style_for_selector(cs, other),
{
    reveal(spec_apply_decl);
    if chunk_0_has(sel) {
        lemma_leaves_0(cs, sel, other, d, spec_decl_to_style(d, gs));
    } else if chunk_1_has(sel) {
        lemma_leaves_1(cs, sel, other, d, spec_decl_to_style(d, gs));
    } else if chunk_2_has(sel) {
        lemma_leaves_2(cs, sel, other, d, spec_decl_to_style(d, gs));
    } else if chunk_3_has(sel) {
        lemma_leaves_3(cs, sel, other, d, spec_decl_to_style(d, gs));
    } else if chunk_4_has(sel) {
        lemma_leaves_4(cs, sel, other, d, spec_decl_to_style(d, gs));
    } else if chunk_5_has(sel) {
        lemma_leaves_5(cs, sel, other, d, spec_decl_to_style(d, gs));
    } else if chunk_6_has(sel) {
        lemma_leaves_6(cs, sel, other, d, spec_decl_to_style(d, gs));
    } else if chunk_7_has(sel) {
        lemma_leaves_7(cs, sel, other, d, spec_decl_to_style(d, gs));
    } else if chunk_8_has(sel) {
        lemma_leaves_8(cs, sel, other, d, spec_decl_to_style(d, gs));
    } else if chunk_9_has(sel) {
        lemma_leaves_9(cs, sel, other, d, spec_decl_to_style(d, gs));
    } else if chunk_10_has(sel) {
        lemma_leaves_10(cs, sel, other, d, spec_decl_to_style(d, gs));
    } else if chunk_11_has(sel) {
        lemma_leaves_11(cs, sel, other, d, spec_decl_to_style(d, gs));
    } else if chunk_12_has(sel) {
        lemma_leaves_12(cs, sel, other, d, spec_decl_to_style(d, gs));
    } else if chunk_13_has(sel) {
        lemma_leaves_13(cs, sel, other, d, spec_decl_to_style(d, gs));
    } else if chunk_14_has(sel) {
        lemma_leaves_14(cs, sel, other, d, spec_decl_to_style(d, gs));
    }
}

/// After applying a list of selector declarations with distinct keys (in key
/// order, as a declaration map holds them), a selector reads its old style with
/// its own declaration's style layered on top, or its old style when the list
/// does not mention it (`border` and `suggestion_line` aside).
pub proof fn lemma_apply_decls_read(cs: ColorScheme, ps: Seq<(String, Decl)>, gs: GhosttyScheme, sel: Seq<char>)
    requires
        sorted_keys(ps),
        known_selector(sel),
        sel != "border"@,
        sel != "suggestion_line"@,
    ensures
        spec_style_for_selector(spec_apply_decls(cs, ps, gs), sel) == match lookup(ps, sel) {
            Some(d) => spec_patch(spec_style_for_selector(cs, sel), spec_decl_to_style(d, gs)),
            None => spec_style_for_selector(cs, sel),
        },
    decreases ps.len(),
{
    if ps.len() > 0 {
        let k = ps[0].0@;
        let cs1 = spec_apply_decl(cs, k, ps[0].1, gs);
        lemma_sorted_tail(ps);
        lemma_apply_decls_read(cs1, ps.drop_first(), gs, sel);
        if k == sel {
            lemma_apply_then_read(cs, sel, ps[0].1, gs);
        } else {
            lemma_apply_leaves_others(cs, k, sel, ps[0].1, gs);
        }
    }
}

// ── Colors as text ───────────────────────────────────────────────────────────

/// The lowercase hexadecimal digit of `n` (0–15).
pub open spec fn hex_digit_char(n: int) -> char {
    if n == 0 {
        '0'
    } else if n == 1 {
        '1'
    } else if n == 2 {
        '2'
    } else if n == 3 {
        '3'
    } else if n == 4 {
        '4'
    } else if n == 5 {
        '5'
    } else if n == 6 {
        '6'
    } else if n == 7 {
        '7'
    } else if n == 8 {
        '8'
    } else if n == 9 {
        '9'
    } else if n == 10 {
        'a'
    } else if n == 11 {
        'b'
    } else if n == 12 {
        'c'
    } else if n == 13 {
        'd'
    } else if n == 14 {
        'e'
    } else {
        'f'
    }
}

/// A byte as two lowercase hexadecimal digits.
pub open spec fn hex2(b: u8) -> Seq<char> {
    seq![hex_digit_char(b as int / 16), hex_digit_char(b as int % 16)]
}

/// `n` in decimal.
pub open spec fn dec_str(n: nat) -> Seq<char>
    decreases n,
{
    if n < 10 {
        seq![hex_digit_char(n as int)]
    } else {
        dec_str(n / 10).push(hex_digit_char((n % 10) as int))
    }
}

/// How a color is written in a style file: its name, `#rrggbb`, or its index.
pub open spec fn spec_color_str(c: Color) -> Seq<char> {
    match c {
        Color::Rgb(r, g, b) => seq!['#'] + hex2(r) + hex2(g) + hex2(b),
        Color::Indexed(n) => dec_str(n as nat),
        Color::Reset => "reset"@,
        Color::Black => "black"@,
        Color::Red => "red"@,
        Color::Green => "green"@,
        Color::Yellow => "yellow"@,
        Color::Blue => "blue"@,
        Color::Magenta => "magenta"@,
        Color::Cyan => "cyan"@,
        Color::Gray => "gray"@,
        Color::White => "white"@,
        Color::DarkGray => "dark-gray"@,
        Color::LightRed => "light-red"@,
        Color::LightGreen => "light-green"@,
        Color::LightYellow => "light-yellow"@,
        Color::LightBlue => "light-blue"@,
        Color::LightMagenta => "light-magenta"@,
        Color::LightCyan => "light-cyan"@,
    }
}

fn hex_char(n: u8) -> (r: char)
    requires
        n < 16,
    ensures
        r == hex_digit_char(n as int),
{
    if n == 0 {
        '0'
    } else if n == 1 {
        '1'
    } else if n == 2 {
        '2'
    } else if n == 3 {
        '3'
    } else if n == 4 {
        '4'
    } else if n == 5 {
        '5'
    } else if n == 6 {
        '6'
    } else if n == 7 {
        '7'
    } else if n == 8 {
        '8'
    } else if n == 9 {
        '9'
    } else if n == 10 {
        'a'
    } else if n == 11 {
        'b'
    } else if n == 12 {
        'c'
    } else if n == 13 {
        'd'
    } else if n == 14 {
        'e'
    } else {
        'f'
    }
}

fn dec_string(n: u8) -> (r: String)
    ensures
        r@ == dec_str(n as nat),
{
    let mut s = String::new();
    if n >= 100 {
        push_char(&mut s, hex_char(n / 100));
        push_char(&mut s, hex_char((n / 10) % 10));
        push_char(&mut s, hex_char(n % 10));
        proof {
            reveal_with_fuel(dec_str, 3);
            assert(n as nat / 10 / 10 == n as nat / 100);
            assert(s@ =~= dec_str(n as nat));
        }
    } else if n >= 10 {
        push_char(&mut s, hex_char(n / 10));
        push_char(&mut s, hex_char(n % 10));
        proof {
            reveal_with_fuel(dec_str, 2);
            assert(s@ =~= dec_str(n as nat));
        }
    } else {
        push_char(&mut s, hex_char(n));
        assert(s@ =~= dec_str(n as nat));
    }
    s
}

fn push_hex2(s: &mut String, b: u8)
    ensures
        final(s)@ == old(s)@ + hex2(b),
{
    push_char(s, hex_char(b / 16));
    push_char(s, hex_char(b % 16));
    assert(final(s)@ =~= old(s)@ + hex2(b));
}

/// Writes a color for a style file.
pub fn color_to_str(c: Color) -> (r: String)
    ensures
        r@ == spec_color_str(c),
{
    match c {
        Color::Rgb(r, g, b) => {
            let mut s = owned("#");
            proof {
                reveal_strlit("#");
            }
            push_hex2(&mut s, r);
            push_hex2(&mut s, g);
            push_hex2(&mut s, b);
            assert(s@ =~= seq!['#'] + hex2(r) + hex2(g) + hex2(b));
            s
        },
        Color::Indexed(n) => dec_string(n),
        Color::Reset => owned("reset"),
        Color::Black => owned("black"),
        Color::Red => owned("red"),
        Color::Green => owned("green"),
        Color::Yellow => owned("yellow"),
        Color::Blue => owned("blue"),
        Color::Magenta => owned("magenta"),
        Color::Cyan => owned("cyan"),
        Color::Gray => owned("gray"),
        Color::White => owned("white"),
        Color::DarkGray => owned("dark-gray"),
        Color::LightRed => owned("light-red"),
        Color::LightGreen => owned("light-green"),
        Color::LightYellow => owned("light-yellow"),
        Color::LightBlue => owned("light-blue"),
        Color::LightMagenta => owned("light-magenta"),
        Color::LightCyan => owned("light-cyan"),
    }
}

proof fn lemma_hex_digit(k: int)
    requires
        0 <= k < 16,
    ensures
        hex_val(hex_digit_char(k)) == k,
        k < 10 ==> is_digit(hex_digit_char(k)),
{
}

proof fn lemma_dec_str(n: nat)
    requires
        n < 1000,
    ensures
        all_digits(dec_str(n)),
        digits_value(dec_str(n)) == n,
        1 <= dec_str(n).len() <= 3,
        n < 100 ==> dec_str(n).len() <= 2,
        n < 10 ==> dec_str(n).len() == 1,
    decreases n,
{
    let s = dec_str(n);
    if n < 10 {
        lemma_hex_digit(n as int);
        assert(s.drop_last() =~= Seq::<char>::empty());
        assert(digits_value(s) == digits_value(s.drop_last()) * 10 + (s.last() as int - '0' as int));
    } else {
        lemma_dec_str(n / 10);
        lemma_hex_digit((n % 10) as int);
        assert(s.drop_last() =~= dec_str(n / 10));
        vstd::arithmetic::div_mod::lemma_fundamental_div_mod(n as int, 10);
        assert(digits_value(s) == digits_value(s.drop_last()) * 10 + (s.last() as int - '0' as int));
        assert forall|i: int| 0 <= i < s.len() implies is_digit(#[trigger] s[i]) by {
            if i < s.len() - 1 {
                assert(s[i] == dec_str(n / 10)[i]);
            }
        }
    }
}

proof fn lemma_names_revealed()
    ensures
        "reset"@ =~= seq!['r', 'e', 's', 'e', 't'],
        "black"@ =~= seq!['b', 'l', 'a', 'c', 'k'],
        "red"@ =~= seq!['r', 'e', 'd'],
        "green"@ =~= seq!['g', 'r', 'e', 'e', 'n'],
        "yellow"@ =~= seq!['y', 'e', 'l', 'l', 'o', 'w'],
        "blue"@ =~= seq!['b', 'l', 'u', 'e'],
        "magenta"@ =~= seq!['m', 'a', 'g', 'e', 'n', 't', 'a'],
        "cyan"@ =~= seq!['c', 'y', 'a', 'n'],
        "gray"@ =~= seq!['g', 'r', 'a', 'y'],
        "white"@ =~= seq!['w', 'h', 'i', 't', 'e'],
        "dark-gray"@ =~= seq!['d', 'a', 'r', 'k', '-', 'g', 'r', 'a', 'y'],
        "light-red"@ =~= seq!['l', 'i', 'g', 'h', 't', '-', 'r', 'e', 'd'],
        "light-green"@ =~= seq!['l', 'i', 'g', 'h', 't', '-', 'g', 'r', 'e', 'e', 'n'],
        "light-yellow"@ =~= seq!['l', 'i', 'g', 'h', 't', '-', 'y', 'e', 'l', 'l', 'o', 'w'],
        "light-blue"@ =~= seq!['l', 'i', 'g', 'h', 't', '-', 'b', 'l', 'u', 'e'],
        "light-magenta"@ =~= seq!['l', 'i', 'g', 'h', 't', '-', 'm', 'a', 'g', 'e', 'n', 't', 'a'],
        "light-cyan"@ =~= seq!['l', 'i', 'g', 'h', 't', '-', 'c', 'y', 'a', 'n'],
        "none"@ =~= seq!['n', 'o', 'n', 'e'],
{
    reveal_strlit("reset");
    reveal_strlit("black");
    reveal_strlit("red");
    reveal_strlit("green");
    reveal_strlit("yellow");
    reveal_strlit("blue");
    reveal_strlit("magenta");
    reveal_strlit("cyan");
    reveal_strlit("gray");
    reveal_strlit("white");
    reveal_strlit("dark-gray");
    reveal_strlit("light-red");
    reveal_strlit("light-green");
    reveal_strlit("light-yellow");
    reveal_strlit("light-blue");
    reveal_strlit("light-magenta");
    reveal_strlit("light-cyan");
    reveal_strlit("none");
}

/// A color written by [`color_to_str`] reads back as the same color (with a
/// scheme that has no palette).
pub proof fn lemma_color_text_round_trip(c: Color, gs: GhosttyScheme)
    requires
        gs.palette@.len() == 0,
    ensures
        spec_parse_color_value(spec_color_str(c), gs) == Some(c),
{
    lemma_names_revealed();
    let s = spec_color_str(c);
    match c {
        Color::Rgb(r, g, b) => {
            lemma_hex_digit(r as int / 16);
            lemma_hex_digit(r as int % 16);
            lemma_hex_digit(g as int / 16);
            lemma_hex_digit(g as int % 16);
            lemma_hex_digit(b as int / 16);
            lemma_hex_digit(b as int % 16);
            vstd::arithmetic::div_mod::lemma_fundamental_div_mod(r as int, 16);
            vstd::arithmetic::div_mod::lemma_fundamental_div_mod(g as int, 16);
            vstd::arithmetic::div_mod::lemma_fundamental_div_mod(b as int, 16);
            assert(s.len() == 7 && s[0] == '#');
            assert(s[1] == hex_digit_char(r as int / 16) && s[2] == hex_digit_char(r as int % 16));
            assert(s[3] == hex_digit_char(g as int / 16) && s[4] == hex_digit_char(g as int % 16));
            assert(s[5] == hex_digit_char(b as int / 16) && s[6] == hex_digit_char(b as int % 16));
            assert(is_hex_color(s));
            assert(named_color(s) is None);
        },
        Color::Indexed(n) => {
            lemma_dec_str(n as nat);
            assert(is_digit(s[0]));
            assert(named_color(s) is None);
            assert(!is_hex_color(s));
            assert(s != "none"@);
        },
        _ => {},
    }
}

// ── Styles as declarations ───────────────────────────────────────────────────

/// A color field as written: the color's text, or the sentinel `none` when unset.
pub open spec fn color_text(c: Option<Color>) -> Seq<char> {
    match c {
        Some(c) => spec_color_str(c),
        None => "none"@,
    }
}

/// `Some(true)` for a set flag, else unset.
pub open spec fn flag(b: bool) -> Option<bool> {
    if b {
        Some(true)
    } else {
        None
    }
}

/// `d` is the declaration that writes style `s`: both colors spelled out
/// (`none` when unset, so that it wins over a base file on merge), each added
/// modifier as `true`, and nothing else set.
pub open spec fn writes_style(d: Decl, s: Style) -> bool {
    &&& d.fg matches Some(t) && t@ == color_text(s.fg)
    &&& d.bg matches Some(t) && t@ == color_text(s.bg)
    &&& d.bold == flag(s.add_modifier.bold)
    &&& d.italic == flag(s.add_modifier.italic)
    &&& d.underline == flag(s.add_modifier.underlined)
    &&& d.dim == flag(s.add_modifier.dim)
    &&& d.reversed == flag(s.add_modifier.reversed)
    &&& d.style is None
    &&& d.style_top is None
    &&& d.style_bottom is None
    &&& d.style_left is None
    &&& d.style_right is None
    &&& d.header is None
    &&& d.shadow is None
    &&& d.placement is None
    &&& d.margin is None
    &&& d.glyph_top is None
    &&& d.glyph_bottom is None
    &&& d.glyph_left is None
    &&& d.glyph_right is None
    &&& d.glyph_tl is None
    &&& d.glyph_tr is None
    &&& d.glyph_bl is None
    &&& d.glyph_br is None
}

fn color_field(c: Option<Color>) -> (r: String)
    ensures
        r@ == color_text(c),
{
    match c {
        Some(c) => color_to_str(c),
        None => owned("none"),
    }
}

fn flag_of(b: bool) -> (r: Option<bool>)
    ensures
        r == flag(b),
{
    if b {
        Some(true)
    } else {
        None
    }
}

/// The declaration that writes a style: the inverse of [`decl_to_style`].
pub fn style_to_decl(s: &Style) -> (d: Decl)
    ensures
        writes_style(d, *s),
{
    Decl {
        fg: Some(color_field(s.fg)),
        bg: Some(color_field(s.bg)),
        bold: flag_of(s.add_modifier.bold),
        italic: flag_of(s.add_modifier.italic),
        underline: flag_of(s.add_modifier.underlined),
        dim: flag_of(s.add_modifier.dim),
        reversed: flag_of(s.add_modifier.reversed),
        style: None,
        style_top: None,
        style_bottom: None,
        style_left: None,
        style_right: None,
        header: None,
        shadow: None,
        placement: None,
        margin: None,
        glyph_top: None,
        glyph_bottom: None,
        glyph_left: None,
        glyph_right: None,
        glyph_tl: None,
        glyph_tr: None,
        glyph_bl: None,
        glyph_br: None,
    }
}

/// Reading back the declaration that writes `s`, over a base style that `s`
/// extends (it keeps the base's modifiers and sets a color wherever the base
/// does), gives `s` again (with a scheme that has no palette): this is what
/// makes a full export reproduce the scheme it was written from.
pub proof fn lemma_style_round_trip(base: Style, s: Style, d: Decl, gs: GhosttyScheme)
    requires
        writes_style(d, s),
        gs.palette@.len() == 0,
        s.sub_modifier == no_mods(),
        base.sub_modifier == no_mods(),
        mods_contain(s.add_modifier, base.add_modifier),
        s.fg is None ==> base.fg is None,
        s.bg is None ==> base.bg is None,
    ensures
        spec_patch(base, spec_decl_to_style(d, gs)) == s,
{
    reveal_strlit("none");
    if let Some(c) = s.fg {
        lemma_color_text_round_trip(c, gs);
    }
    if let Some(c) = s.bg {
        lemma_color_text_round_trip(c, gs);
    }
}

// ── Describing a scheme ──────────────────────────────────────────────────────

/// A color in a description: its style-file text, or `default` when unset.
pub open spec fn color_label(c: Option<Color>) -> Seq<char> {
    match c {
        Some(c) => spec_color_str(c),
        None => "default"@,
    }
}

/// `acc` with `name` appended to a comma-separated attribute list when `on`
/// (the list starts with a space).
pub open spec fn add_attr(acc: Seq<char>, on: bool, name: Seq<char>) -> Seq<char> {
    if !on {
        acc
    } else if acc.len() == 0 {
        " "@ + name
    } else {
        acc + ","@ + name
    }
}

/// The modifiers of a description line: ` bold,italic,…`, or nothing.
pub open spec fn attr_suffix(m: Modifier) -> Seq<char> {
    add_attr(
        add_attr(
            add_attr(add_attr(add_attr(seq![], m.bold, "bold"@), m.italic, "italic"@), m.underlined, "underline"@),
            m.dim,
            "dim"@,
        ),
        m.reversed,
        "reversed"@,
    )
}

/// The description line of one selector.
pub open spec fn selector_line(cs: ColorScheme, sel: Seq<char>) -> Seq<char> {
    let st = spec_style_for_selector(cs, sel);
    "  "@ + sel + ": fg="@ + color_label(st.fg) + " bg="@ + color_label(st.bg) + attr_suffix(st.add_modifier)
}

/// The lines of the selectors `sels` (`border`, which has no color, skipped),
/// each with the style it describes.
pub open spec fn selector_lines(cs: ColorScheme, sels: Seq<&'static str>) -> Seq<(Seq<char>, Option<Style>)>
    decreases sels.len(),
{
    if sels.len() == 0 {
        seq![]
    } else {
        let front = selector_lines(cs, sels.drop_last());
        let s = sels.last()@;
        if s == "border"@ {
            front
        } else {
            front.push((selector_line(cs, s), Some(spec_style_for_selector(cs, s))))
        }
    }
}

/// The description of the groups `gs`: a header per group (with no style) and
/// then its selectors' lines.
pub open spec fn describe_groups(cs: ColorScheme, gs: Seq<(&'static str, Seq<&'static str>)>) -> Seq<(Seq<char>, Option<Style>)>
    decreases gs.len(),
{
    if gs.len() == 0 {
        seq![]
    } else {
        describe_groups(cs, gs.drop_last()).push(("── "@ + gs.last().0@ + " ──"@, None)) + selector_lines(cs, gs.last().1)
    }
}

/// The text of each line with its style.
pub open spec fn line_views(v: Seq<(String, Option<Style>)>) -> Seq<(Seq<char>, Option<Style>)> {
    v.map_values(|p: (String, Option<Style>)| (p.0@, p.1))
}

fn push_attr(acc: &mut String, on: bool, name: &str)
    ensures
        final(acc)@ == add_attr(old(acc)@, on, name@),
{
    if on {
        if acc.unicode_len() == 0 {
            acc.append(" ");
            acc.append(name);
        } else {
            acc.append(",");
            acc.append(name);
        }
    }
}

fn color_label_of(c: Option<Color>) -> (r: String)
    ensures
        r@ == color_label(c),
{
    match c {
        Some(c) => color_to_str(c),
        None => owned("default"),
    }
}

fn selector_line_of(cs: &ColorScheme, sel: &str) -> (r: (String, Option<Style>))
    ensures
        r.0@ == selector_line(*cs, sel@),
        r.1 == Some(spec_style_for_selector(*cs, sel@)),
{
    let st = style_for_selector(cs, sel);
    let mut line = owned("  ");
    line.append(sel);
    line.append(": fg=");
    let fg = color_label_of(st.fg);
    line.append(fg.as_str());
    line.append(" bg=");
    let bg = color_label_of(st.bg);
    line.append(bg.as_str());
    let mut attrs = String::new();
    push_attr(&mut attrs, st.add_modifier.bold, "bold");
    push_attr(&mut attrs, st.add_modifier.italic, "italic");
    push_attr(&mut attrs, st.add_modifier.underlined, "underline");
    push_attr(&mut attrs, st.add_modifier.dim, "dim");
    push_attr(&mut attrs, st.add_modifier.reversed, "reversed");
    line.append(attrs.as_str());
    (line, Some(st))
}

/// Describes the resolved scheme as printable lines: a header per selector
/// group (with no style), then `  <selector>: fg=<fg> bg=<bg><attrs>` for each of
/// its selectors, carrying that selector's style. `border` is skipped.
pub fn describe_scheme(cs: &ColorScheme) -> (r: Vec<(String, Option<Style>)>)
    ensures
        line_views(r@) == describe_groups(*cs, spec_selector_groups()),
{
    let groups = selector_groups();
    let ghost sg = spec_selector_groups();
    let mut out: Vec<(String, Option<Style>)> = Vec::new();
    let mut g: usize = 0;
    assert(sg.take(0) =~= Seq::<(&'static str, Seq<&'static str>)>::empty());
    assert(line_views(out@) =~= Seq::<(Seq<char>, Option<Style>)>::empty());
    while g < groups.len()
        invariant
            sg == spec_selector_groups(),
            groups@.len() == sg.len(),
            forall|i: int| 0 <= i < groups@.len() ==> (#[trigger] groups@[i]).0 == sg[i].0 && groups@[i].1@ == sg[i].1,
            g <= groups@.len(),
            line_views(out@) == describe_groups(*cs, sg.take(g as int)),
        decreases groups@.len() - g,
    {
        let (title, sels) = &groups[g];
        let ghost before = line_views(out@);
        let mut h = owned("── ");
        h.append(title);
        h.append(" ──");
        out.push((h, None));
        assert(line_views(out@) =~= before.push(("── "@ + sg[g as int].0@ + " ──"@, None)));
        let ghost mid = line_views(out@);
        let mut j: usize = 0;
        assert(sels@.take(0) =~= Seq::<&'static str>::empty());
        assert(mid + selector_lines(*cs, sels@.take(0)) =~= mid);
        while j < sels.len()
            invariant
                j <= sels@.len(),
                line_views(out@) == mid + selector_lines(*cs, sels@.take(j as int)),
            decreases sels@.len() - j,
        {
            let sel: &str = sels[j];
            let sc = chars_of(sel);
            let ghost prev = line_views(out@);
            assert(sels@.take(j + 1).drop_last() =~= sels@.take(j as int));
            assert(sels@.take(j + 1).last() == sel);
            if !eq_lit(&sc, "border") {
                out.push(selector_line_of(cs, sel));
                assert(line_views(out@) =~= prev.push((selector_line(*cs, sel@), Some(spec_style_for_selector(*cs, sel@)))));
            }
            j += 1;
        }
        assert(sels@.take(j as int) =~= sels@);
        assert(sg.take(g + 1).drop_last() =~= sg.take(g as int));
        assert(sg.take(g + 1).last() == sg[g as int]);
        g += 1;
    }
    assert(sg.take(g as int) =~= sg);
    out
}

// ── A self-contained export ──────────────────────────────────────────────────

/// The selectors of a full export, in the order they are written.
pub open spec fn full_key(i: int) -> Seq<char> {
    if i == 0 {
        "room"@
    } else if i == 1 {
        "room:current"@
    } else if i == 2 {
        "room:selected"@
    } else if i == 3 {
        "connector"@
    } else if i == 4 {
        "connector:distorted"@
    } else if i == 5 {
        "connector:portal"@
    } else if i == 6 {
        "shared_path"@
    } else if i == 7 {
        "border:focused"@
    } else if i == 8 {
        "statusbar"@
    } else if i == 9 {
        "transcript"@
    } else if i == 10 {
        "transcript:input"@
    } else if i == 11 {
        "transcript:meta"@
    } else if i == 12 {
        "transcript:warning"@
    } else if i == 13 {
        "transcript:crash"@
    } else if i == 14 {
        "transcript:location"@
    } else if i == 15 {
        "transcript:system"@
    } else if i == 16 {
        "warning_marker"@
    } else if i == 17 {
        "suggestion"@
    } else if i == 18 {
        "suggestion_line"@
    } else if i == 19 {
        "input:text"@
    } else if i == 20 {
        "input:prompt"@
    } else if i == 21 {
        "scrollbar"@
    } else if i == 22 {
        "tidy_progress"@
    } else if i == 23 {
        "meta_marker"@
    } else if i == 24 {
        "hyperlink"@
    } else if i == 25 {
        "helpbar"@
    } else if i == 26 {
        "map_border"@
    } else if i == 27 {
        "story_border"@
    } else if i == 28 {
        "story_title"@
    } else if i == 29 {
        "inventory:dock"@
    } else if i == 30 {
        "map_layer_tab"@
    } else if i == 31 {
        "map_layer_tab_active"@
    } else if i == 32 {
        "story_info"@
    } else if i == 33 {
        "story_info:title"@
    } else if i == 34 {
        "story_info:label"@
    } else if i == 35 {
        "story_info:value"@
    } else if i == 36 {
        "story_info:blurb"@
    } else if i == 37 {
        "story_info:link"@
    } else if i == 38 {
        "story_info:cover"@
    } else if i == 39 {
        "story_badge"@
    } else if i == 40 {
        "story_header"@
    } else if i == 41 {
        "story_header:active"@
    } else if i == 42 {
        "story_author"@
    } else if i == 43 {
        "story_year"@
    } else if i == 44 {
        "story_no_metadata"@
    } else if i == 45 {
        "story_tile"@
    } else if i == 46 {
        "story_tile:selected"@
    } else if i == 47 {
        "graphics"@
    } else if i == 48 {
        "inline_image"@
    } else if i == 49 {
        "status_header"@
    } else if i == 50 {
        "input_line"@
    } else if i == 51 {
        "dialog"@
    } else if i == 52 {
        "dialog:title"@
    } else if i == 53 {
        "hotkey:key"@
    } else if i == 54 {
        "dialog:button"@
    } else if i == 55 {
        "dialog:button:active"@
    } else if i == 56 {
        "dialog:shadow"@
    } else if i == 57 {
        "room_panel"@
    } else if i == 58 {
        "upper_window"@
    } else if i == 59 {
        "upper_window_border"@
    } else if i == 60 {
        "sound_beep_high"@
    } else if i == 61 {
        "sound_beep_low"@
    } else if i == 62 {
        "loc_indicator"@
    } else if i == 63 {
        "map.tile.wall"@
    } else if i == 64 {
        "map.tile.floor"@
    } else if i == 65 {
        "map.tile.corridor"@
    } else if i == 66 {
        "map.tile.door"@
    } else if i == 67 {
        "map.tile.bridge"@
    } else if i == 68 {
        "map.tile.stairs"@
    } else if i == 69 {
        "map.tile.chamber"@
    } else if i == 70 {
        "map.tile.shadow"@
    } else if i == 71 {
        "map.tile.player"@
    } else if i == 72 {
        "map.tile.room-number"@
    } else {
        seq![]
    }
}

/// The number of selectors in a full export.
pub open spec fn full_key_count() -> int {
    73
}

/// `d` writes the colors and modifiers of `s` (as [`style_to_decl`] does).
pub open spec fn writes_colors(d: Decl, s: Style) -> bool {
    &&& d.fg matches Some(t) && t@ == color_text(s.fg)
    &&& d.bg matches Some(t) && t@ == color_text(s.bg)
    &&& d.bold == flag(s.add_modifier.bold)
    &&& d.italic == flag(s.add_modifier.italic)
    &&& d.underline == flag(s.add_modifier.underlined)
    &&& d.dim == flag(s.add_modifier.dim)
    &&& d.reversed == flag(s.add_modifier.reversed)
}

/// A side's override as written: the side's style name where it differs from the base.
pub open spec fn side_text(side: BorderStyle, base: BorderStyle) -> Option<Seq<char>> {
    if side != base {
        Some(spec_border_style_name(side)@)
    } else {
        None
    }
}

/// `d` writes a pane border: its colors (none for a border-only selector), its
/// line style, each side that differs from it, its glyphs and its header flag.
pub open spec fn writes_border(
    d: Decl,
    color: Option<Style>,
    style: Option<Seq<char>>,
    base: BorderStyle,
    sides: PaneSides,
    glyphs: PaneGlyphs,
    header: Option<bool>,
) -> bool {
    &&& match color {
        Some(s) => writes_colors(d, s),
        None => d.fg is None && d.bg is None && d.bold is None && d.italic is None && d.underline is None
            && d.dim is None && d.reversed is None,
    }
    &&& opt_view(d.style) == style
    &&& opt_view(d.style_top) == side_text(sides.top, base)
    &&& opt_view(d.style_bottom) == side_text(sides.bottom, base)
    &&& opt_view(d.style_left) == side_text(sides.left, base)
    &&& opt_view(d.style_right) == side_text(sides.right, base)
    &&& d.header == header
    &&& d.shadow is None
    &&& d.placement is None
    &&& d.margin is None
    &&& spec_decl_glyphs(d) == glyphs
}

/// The style name of a line style that is written only when there is a line.
pub open spec fn style_if_lined(b: BorderStyle) -> Option<Seq<char>> {
    if b != BorderStyle::NoBorder {
        Some(spec_border_style_name(b)@)
    } else {
        None
    }
}

/// `d` writes the dialog settings of `cs`.
pub open spec fn writes_dialog(d: Decl, cs: ColorScheme) -> bool {
    &&& writes_colors(d, cs.dialog)
    &&& opt_view(d.style) == Some(spec_border_style_name(cs.dialog_box_style)@)
    &&& d.shadow == flag(cs.dialog_shadow_on)
    &&& opt_view(d.placement) == (if cs.dialog_placement != DialogPlacement::Center {
        Some(spec_placement_token(cs.dialog_placement)@)
    } else {
        None
    })
    &&& d.margin == (if cs.dialog_margin != 0 {
        Some(cs.dialog_margin)
    } else {
        None
    })
    &&& d.style_top is None && d.style_bottom is None && d.style_left is None && d.style_right is None
    &&& d.header is None
    &&& spec_decl_glyphs(d) == cs.dialog_glyphs
}

/// `d` is what a full export writes for selector number `i`.
pub open spec fn full_decl_ok(cs: ColorScheme, i: int, d: Decl) -> bool {
    if i == 0 {
        writes_style(d, cs.room_normal)
    } else if i == 1 {
        writes_style(d, cs.room_current)
    } else if i == 2 {
        writes_style(d, cs.room_selected)
    } else if i == 3 {
        writes_style(d, cs.connector)
    } else if i == 4 {
        writes_style(d, cs.connector_distorted)
    } else if i == 5 {
        writes_style(d, cs.portal_connector)
    } else if i == 6 {
        writes_style(d, cs.shared_path)
    } else if i == 7 {
        writes_style(d, cs.focused_border)
    } else if i == 8 {
        writes_style(d, cs.status_bar)
    } else if i == 9 {
        writes_style(d, cs.transcript)
    } else if i == 10 {
        writes_style(d, cs.transcript_input)
    } else if i == 11 {
        writes_style(d, cs.transcript_meta)
    } else if i == 12 {
        writes_style(d, cs.transcript_warning)
    } else if i == 13 {
        writes_style(d, cs.transcript_crash)
    } else if i == 14 {
        writes_style(d, cs.transcript_location)
    } else if i == 15 {
        writes_style(d, cs.transcript_system)
    } else if i == 16 {
        writes_style(d, cs.warning_marker)
    } else if i == 17 {
        writes_style(d, cs.suggestion)
    } else if i == 18 {
        writes_border(d, None, style_if_lined(cs.suggestion_line_style), cs.suggestion_line_style, cs.suggestion_line_sides, cs.suggestion_line_glyphs, None)
    } else if i == 19 {
        writes_style(d, cs.input_text)
    } else if i == 20 {
        writes_style(d, cs.input_prompt)
    } else if i == 21 {
        writes_style(d, cs.scrollbar)
    } else if i == 22 {
        writes_style(d, cs.tidy_progress)
    } else if i == 23 {
        writes_style(d, cs.meta_marker)
    } else if i == 24 {
        writes_style(d, cs.hyperlink)
    } else if i == 25 {
        writes_style(d, cs.help_bar)
    } else if i == 26 {
        writes_border(d, Some(cs.map_border), Some(spec_border_style_name(cs.map_border_style)@), cs.map_border_style, cs.map_border_sides, cs.map_border_glyphs, (if cs.map_header_on { None } else { Some(false) }))
    } else if i == 27 {
        writes_border(d, Some(cs.story_border), Some(spec_border_style_name(cs.story_border_style)@), cs.story_border_style, cs.story_border_sides, cs.story_border_glyphs, (if cs.story_header_on { None } else { Some(false) }))
    } else if i == 28 {
        writes_style(d, cs.story_title)
    } else if i == 29 {
        writes_style(d, cs.inventory_dock)
    } else if i == 30 {
        writes_style(d, cs.map_layer_tab)
    } else if i == 31 {
        writes_style(d, cs.map_layer_tab_active)
    } else if i == 32 {
        writes_style(d, cs.story_info)
    } else if i == 33 {
        writes_style(d, cs.story_info_title)
    } else if i == 34 {
        writes_style(d, cs.story_info_label)
    } else if i == 35 {
        writes_style(d, cs.story_info_value)
    } else if i == 36 {
        writes_style(d, cs.story_info_blurb)
    } else if i == 37 {
        writes_style(d, cs.story_info_link)
    } else if i == 38 {
        writes_style(d, cs.story_info_cover)
    } else if i == 39 {
        writes_style(d, cs.story_badge)
    } else if i == 40 {
        writes_style(d, cs.story_header)
    } else if i == 41 {
        writes_style(d, cs.story_header_active)
    } else if i == 42 {
        writes_style(d, cs.story_author)
    } else if i == 43 {
        writes_style(d, cs.story_year)
    } else if i == 44 {
        writes_style(d, cs.story_no_metadata)
    } else if i == 45 {
        writes_style(d, cs.story_tile)
    } else if i == 46 {
        writes_style(d, cs.story_tile_selected)
    } else if i == 47 {
        writes_style(d, cs.graphics)
    } else if i == 48 {
        writes_style(d, cs.inline_image)
    } else if i == 49 {
        writes_border(d, Some(cs.status_header), style_if_lined(cs.status_header_style), cs.status_header_style, cs.status_header_sides, cs.status_header_glyphs, None)
    } else if i == 50 {
        writes_border(d, Some(cs.input_line), style_if_lined(cs.input_line_style), cs.input_line_style, cs.input_line_sides, cs.input_line_glyphs, None)
    } else if i == 51 {
        writes_dialog(d, cs)
    } else if i == 52 {
        writes_style(d, cs.dialog_title)
    } else if i == 53 {
        writes_style(d, cs.hotkey_key)
    } else if i == 54 {
        writes_style(d, cs.dialog_button)
    } else if i == 55 {
        writes_style(d, cs.dialog_button_active)
    } else if i == 56 {
        writes_style(d, cs.dialog_shadow)
    } else if i == 57 {
        writes_style(d, cs.room_panel)
    } else if i == 58 {
        writes_style(d, cs.upper_window)
    } else if i == 59 {
        writes_border(d, Some(cs.upper_window_border), Some(spec_border_style_name(cs.virtual_window_border)@), cs.virtual_window_border, cs.upper_window_border_sides, cs.upper_window_border_glyphs, None)
    } else if i == 60 {
        writes_style(d, cs.sound_beep_high)
    } else if i == 61 {
        writes_style(d, cs.sound_beep_low)
    } else if i == 62 {
        writes_style(d, cs.loc_indicator)
    } else if i == 63 {
        writes_style(d, cs.tile_wall)
    } else if i == 64 {
        writes_style(d, cs.tile_floor)
    } else if i == 65 {
        writes_style(d, cs.tile_corridor)
    } else if i == 66 {
        writes_style(d, cs.tile_door)
    } else if i == 67 {
        writes_style(d, cs.tile_bridge)
    } else if i == 68 {
        writes_style(d, cs.tile_stairs)
    } else if i == 69 {
        writes_style(d, cs.tile_chamber)
    } else if i == 70 {
        writes_style(d, cs.tile_shadow)
    } else if i == 71 {
        writes_style(d, cs.tile_player)
    } else if i == 72 {
        writes_style(d, cs.tile_room_number)
    } else {
        false
    }
}

/// The entries `e` are, in order, the first `e.len()` selectors of a full export of `cs`.
pub open spec fn full_entries_ok(cs: ColorScheme, e: Seq<(String, Decl)>) -> bool
    decreases e.len(),
{
    if e.len() == 0 {
        true
    } else {
        full_entries_ok(cs, e.drop_last()) && e.last().0@ == full_key(e.len() - 1) && full_decl_ok(
            cs,
            e.len() - 1,
            e.last().1,
        )
    }
}

/// The side overrides of a border that differ from its base style.
fn decorate_sides(d: &mut Decl, base: BorderStyle, sides: PaneSides)
    requires
        old(d).style_top is None && old(d).style_bottom is None && old(d).style_left is None && old(d).style_right is None,
    ensures
        opt_view(final(d).style_top) == side_text(sides.top, base),
        opt_view(final(d).style_bottom) == side_text(sides.bottom, base),
        opt_view(final(d).style_left) == side_text(sides.left, base),
        opt_view(final(d).style_right) == side_text(sides.right, base),
        final(d).fg == old(d).fg && final(d).bg == old(d).bg,
        final(d).bold == old(d).bold && final(d).italic == old(d).italic && final(d).underline == old(d).underline,
        final(d).dim == old(d).dim && final(d).reversed == old(d).reversed,
        final(d).style == old(d).style && final(d).header == old(d).header && final(d).shadow == old(d).shadow,
        final(d).placement == old(d).placement && final(d).margin == old(d).margin,
        spec_decl_glyphs(*final(d)) == spec_decl_glyphs(*old(d)),
{
    if sides.top != base {
        d.style_top = Some(owned(border_style_name(sides.top)));
    }
    if sides.bottom != base {
        d.style_bottom = Some(owned(border_style_name(sides.bottom)));
    }
    if sides.left != base {
        d.style_left = Some(owned(border_style_name(sides.left)));
    }
    if sides.right != base {
        d.style_right = Some(owned(border_style_name(sides.right)));
    }
}

/// Copies glyph overrides onto a declaration.
fn decorate_glyphs(d: &mut Decl, g: &PaneGlyphs)
    ensures
        spec_decl_glyphs(*final(d)) == *g,
        final(d).fg == old(d).fg && final(d).bg == old(d).bg,
        final(d).bold == old(d).bold && final(d).italic == old(d).italic && final(d).underline == old(d).underline,
        final(d).dim == old(d).dim && final(d).reversed == old(d).reversed,
        final(d).style == old(d).style && final(d).header == old(d).header && final(d).shadow == old(d).shadow,
        final(d).placement == old(d).placement && final(d).margin == old(d).margin,
        final(d).style_top == old(d).style_top && final(d).style_bottom == old(d).style_bottom,
        final(d).style_left == old(d).style_left && final(d).style_right == old(d).style_right,
{
    d.glyph_top = dup_opt(&g.top);
    d.glyph_bottom = dup_opt(&g.bottom);
    d.glyph_left = dup_opt(&g.left);
    d.glyph_right = dup_opt(&g.right);
    d.glyph_tl = dup_opt(&g.tl);
    d.glyph_tr = dup_opt(&g.tr);
    d.glyph_bl = dup_opt(&g.bl);
    d.glyph_br = dup_opt(&g.br);
}

/// The declaration a full export writes for a pane border.
fn border_decl(
    color: Option<Style>,
    style_always: bool,
    base: BorderStyle,
    sides: PaneSides,
    glyphs: &PaneGlyphs,
    header_on: Option<bool>,
) -> (d: Decl)
    ensures
        writes_border(
            d,
            color,
            if style_always { Some(spec_border_style_name(base)@) } else { style_if_lined(base) },
            base,
            sides,
            *glyphs,
            match header_on {
                Some(on) => if on { None } else { Some(false) },
                None => None,
            },
        ),
{
    let mut d = match color {
        Some(s) => style_to_decl(&s),
        None => Decl::default(),
    };
    if style_always || base != BorderStyle::NoBorder {
        d.style = Some(owned(border_style_name(base)));
    }
    decorate_sides(&mut d, base, sides);
    decorate_glyphs(&mut d, glyphs);
    if let Some(on) = header_on {
        if !on {
            d.header = Some(false);
        }
    }
    d
}

/// The declaration a full export writes for `dialog`.
fn dialog_decl(cs: &ColorScheme) -> (d: Decl)
    ensures
        writes_dialog(d, *cs),
{
    let mut d = style_to_decl(&cs.dialog);
    d.style = Some(owned(border_style_name(cs.dialog_box_style)));
    if cs.dialog_shadow_on {
        d.shadow = Some(true);
    }
    if cs.dialog_placement != DialogPlacement::Center {
        d.placement = Some(owned(cs.dialog_placement.as_token()));
    }
    if cs.dialog_margin != 0 {
        d.margin = Some(cs.dialog_margin);
    }
    decorate_glyphs(&mut d, &cs.dialog_glyphs);
    d
}

#[verifier::rlimit(60)]
fn full_selectors_0(sel: &mut StrMap<Decl>, cs: &ColorScheme, Ghost(e0): Ghost<Seq<(String, Decl)>>) -> (e: Ghost<Seq<(String, Decl)>>)
    requires
        old(sel).pairs() == insert_all(Seq::<(String, Decl)>::empty(), e0),
        full_entries_ok(*cs, e0),
        e0.len() == 0,
    ensures
        final(sel).pairs() == insert_all(Seq::<(String, Decl)>::empty(), e@),
        full_entries_ok(*cs, e@),
        e@.len() == 10,
{
    let ghost mut e = e0;
    let k = owned("room");
    let d = style_to_decl(&cs.room_normal);
    proof {
        lemma_insert_all_push(Seq::<(String, Decl)>::empty(), e, (k, d));
        let e2 = e.push((k, d));
        assert(e2.drop_last() =~= e);
        assert(full_entries_ok(*cs, e2));
        e = e2;
    }
    sel.insert(k, d);
    let k = owned("room:current");
    let d = style_to_decl(&cs.room_current);
    proof {
        lemma_insert_all_push(Seq::<(String, Decl)>::empty(), e, (k, d));
        let e2 = e.push((k, d));
        assert(e2.drop_last() =~= e);
        assert(full_entries_ok(*cs, e2));
        e = e2;
    }
    sel.insert(k, d);
    let k = owned("room:selected");
    let d = style_to_decl(&cs.room_selected);
    proof {
        lemma_insert_all_push(Seq::<(String, Decl)>::empty(), e, (k, d));
        let e2 = e.push((k, d));
        assert(e2.drop_last() =~= e);
        assert(full_entries_ok(*cs, e2));
        e = e2;
    }
    sel.insert(k, d);
    let k = owned("connector");
    let d = style_to_decl(&cs.connector);
    proof {
        lemma_insert_all_push(Seq::<(String, Decl)>::empty(), e, (k, d));
        let e2 = e.push((k, d));
        assert(e2.drop_last() =~= e);
        assert(full_entries_ok(*cs, e2));
        e = e2;
    }
    sel.insert(k, d);
    let k = owned("connector:distorted");
    let d = style_to_decl(&cs.connector_distorted);
    proof {
        lemma_insert_all_push(Seq::<(String, Decl)>::empty(), e, (k, d));
        let e2 = e.push((k, d));
        assert(e2.drop_last() =~= e);
        assert(full_entries_ok(*cs, e2));
        e = e2;
    }
    sel.insert(k, d);
    let k = owned("connector:portal");
    let d = style_to_decl(&cs.portal_connector);
    proof {
        lemma_insert_all_push(Seq::<(String, Decl)>::empty(), e, (k, d));
        let e2 = e.push((k, d));
        assert(e2.drop_last() =~= e);
        assert(full_entries_ok(*cs, e2));
        e = e2;
    }
    sel.insert(k, d);
    let k = owned("shared_path");
    let d = style_to_decl(&cs.shared_path);
    proof {
        lemma_insert_all_push(Seq::<(String, Decl)>::empty(), e, (k, d));
        let e2 = e.push((k, d));
        assert(e2.drop_last() =~= e);
        assert(full_entries_ok(*cs, e2));
        e = e2;
    }
    sel.insert(k, d);
    let k = owned("border:focused");
    let d = style_to_decl(&cs.focused_border);
    proof {
        lemma_insert_all_push(Seq::<(String, Decl)>::empty(), e, (k, d));
        let e2 = e.push((k, d));
        assert(e2.drop_last() =~= e);
        assert(full_entries_ok(*cs, e2));
        e = e2;
    }
    sel.insert(k, d);
    let k = owned("statusbar");
    let d = style_to_decl(&cs.status_bar);
    proof {
        lemma_insert_all_push(Seq::<(String, Decl)>::empty(), e, (k, d));
        let e2 = e.push((k, d));
        assert(e2.drop_last() =~= e);
        assert(full_entries_ok(*cs, e2));
        e = e2;
    }
    sel.insert(k, d);
    let k = owned("transcript");
    let d = style_to_decl(&cs.transcript);
    proof {
        lemma_insert_all_push(Seq::<(String, Decl)>::empty(), e, (k, d));
        let e2 = e.push((k, d));
        assert(e2.drop_last() =~= e);
        assert(full_entries_ok(*cs, e2));
        e = e2;
    }
    sel.insert(k, d);
    Ghost(e)
}

#[verifier::rlimit(60)]
fn full_selectors_1(sel: &mut StrMap<Decl>, cs: &ColorScheme, Ghost(e0): Ghost<Seq<(String, Decl)>>) -> (e: Ghost<Seq<(String, Decl)>>)
    requires
        old(sel).pairs() == insert_all(Seq::<(String, Decl)>::empty(), e0),
        full_entries_ok(*cs, e0),
        e0.len() == 10,
    ensures
        final(sel).pairs() == insert_all(Seq::<(String, Decl)>::empty(), e@),
        full_entries_ok(*cs, e@),
        e@.len() == 20,
{
    let ghost mut e = e0;
    let k = owned("transcript:input");
    let d = style_to_decl(&cs.transcript_input);
    proof {
        lemma_insert_all_push(Seq::<(String, Decl)>::empty(), e, (k, d));
        let e2 = e.push((k, d));
        assert(e2.drop_last() =~= e);
        assert(full_entries_ok(*cs, e2));
        e = e2;
    }
    sel.insert(k, d);
    let k = owned("transcript:meta");
    let d = style_to_decl(&cs.transcript_meta);
    proof {
        lemma_insert_all_push(Seq::<(String, Decl)>::empty(), e, (k, d));
        let e2 = e.push((k, d));
        assert(e2.drop_last() =~= e);
        assert(full_entries_ok(*cs, e2));
        e = e2;
    }
    sel.insert(k, d);
    let k = owned("transcript:warning");
    let d = style_to_decl(&cs.transcript_warning);
    proof {
        lemma_insert_all_push(Seq::<(String, Decl)>::empty(), e, (k, d));
        let e2 = e.push((k, d));
        assert(e2.drop_last() =~= e);
        assert(full_entries_ok(*cs, e2));
        e = e2;
    }
    sel.insert(k, d);
    let k = owned("transcript:crash");
    let d = style_to_decl(&cs.transcript_crash);
    proof {
        lemma_insert_all_push(Seq::<(String, Decl)>::empty(), e, (k, d));
        let e2 = e.push((k, d));
        assert(e2.drop_last() =~= e);
        assert(full_entries_ok(*cs, e2));
        e = e2;
    }
    sel.insert(k, d);
    let k = owned("transcript:location");
    let d = style_to_decl(&cs.transcript_location);
    proof {
        lemma_insert_all_push(Seq::<(String, Decl)>::empty(), e, (k, d));
        let e2 = e.push((k, d));
        assert(e2.drop_last() =~= e);
        assert(full_entries_ok(*cs, e2));
        e = e2;
    }
    sel.insert(k, d);
    let k = owned("transcript:system");
    let d = style_to_decl(&cs.transcript_system);
    proof {
        lemma_insert_all_push(Seq::<(String, Decl)>::empty(), e, (k, d));
        let e2 = e.push((k, d));
        assert(e2.drop_last() =~= e);
        assert(full_entries_ok(*cs, e2));
        e = e2;
    }
    sel.insert(k, d);
    let k = owned("warning_marker");
    let d = style_to_decl(&cs.warning_marker);
    proof {
        lemma_insert_all_push(Seq::<(String, Decl)>::empty(), e, (k, d));
        let e2 = e.push((k, d));
        assert(e2.drop_last() =~= e);
        assert(full_entries_ok(*cs, e2));
        e = e2;
    }
    sel.insert(k, d);
    let k = owned("suggestion");
    let d = style_to_decl(&cs.suggestion);
    proof {
        lemma_insert_all_push(Seq::<(String, Decl)>::empty(), e, (k, d));
        let e2 = e.push((k, d));
        assert(e2.drop_last() =~= e);
        assert(full_entries_ok(*cs, e2));
        e = e2;
    }
    sel.insert(k, d);
    let k = owned("suggestion_line");
    let d = border_decl(None, false, cs.suggestion_line_style, cs.suggestion_line_sides, &cs.suggestion_line_glyphs, None);
    proof {
        lemma_insert_all_push(Seq::<(String, Decl)>::empty(), e, (k, d));
        let e2 = e.push((k, d));
        assert(e2.drop_last() =~= e);
        assert(full_entries_ok(*cs, e2));
        e = e2;
    }
    sel.insert(k, d);
    let k = owned("input:text");
    let d = style_to_decl(&cs.input_text);
    proof {
        lemma_insert_all_push(Seq::<(String, Decl)>::empty(), e, (k, d));
        let e2 = e.push((k, d));
        assert(e2.drop_last() =~= e);
        assert(full_entries_ok(*cs, e2));
        e = e2;
    }
    sel.insert(k, d);
    Ghost(e)
}

#[verifier::rlimit(60)]
fn full_selectors_2(sel: &mut StrMap<Decl>, cs: &ColorScheme, Ghost(e0): Ghost<Seq<(String, Decl)>>) -> (e: Ghost<Seq<(String, Decl)>>)
    requires
        old(sel).pairs() == insert_all(Seq::<(String, Decl)>::empty(), e0),
        full_entries_ok(*cs, e0),
        e0.len() == 20,
    ensures
        final(sel).pairs() == insert_all(Seq::<(String, Decl)>::empty(), e@),
        full_entries_ok(*cs, e@),
        e@.len() == 30,
{
    let ghost mut e = e0;
    let k = owned("input:prompt");
    let d = style_to_decl(&cs.input_prompt);
    proof {
        lemma_insert_all_push(Seq::<(String, Decl)>::empty(), e, (k, d));
        let e2 = e.push((k, d));
        assert(e2.drop_last() =~= e);
        assert(full_entries_ok(*cs, e2));
        e = e2;
    }
    sel.insert(k, d);
    let k = owned("scrollbar");
    let d = style_to_decl(&cs.scrollbar);
    proof {
        lemma_insert_all_push(Seq::<(String, Decl)>::empty(), e, (k, d));
        let e2 = e.push((k, d));
        assert(e2.drop_last() =~= e);
        assert(full_entries_ok(*cs, e2));
        e = e2;
    }
    sel.insert(k, d);
    let k = owned("tidy_progress");
    let d = style_to_decl(&cs.tidy_progress);
    proof {
        lemma_insert_all_push(Seq::<(String, Decl)>::empty(), e, (k, d));
        let e2 = e.push((k, d));
        assert(e2.drop_last() =~= e);
        assert(full_entries_ok(*cs, e2));
        e = e2;
    }
    sel.insert(k, d);
    let k = owned("meta_marker");
    let d = style_to_decl(&cs.meta_marker);
    proof {
        lemma_insert_all_push(Seq::<(String, Decl)>::empty(), e, (k, d));
        let e2 = e.push((k, d));
        assert(e2.drop_last() =~= e);
        assert(full_entries_ok(*cs, e2));
        e = e2;
    }
    sel.insert(k, d);
    let k = owned("hyperlink");
    let d = style_to_decl(&cs.hyperlink);
    proof {
        lemma_insert_all_push(Seq::<(String, Decl)>::empty(), e, (k, d));
        let e2 = e.push((k, d));
        assert(e2.drop_last() =~= e);
        assert(full_entries_ok(*cs, e2));
        e = e2;
    }
    sel.insert(k, d);
    let k = owned("helpbar");
    let d = style_to_decl(&cs.help_bar);
    proof {
        lemma_insert_all_push(Seq::<(String, Decl)>::empty(), e, (k, d));
        let e2 = e.push((k, d));
        assert(e2.drop_last() =~= e);
        assert(full_entries_ok(*cs, e2));
        e = e2;
    }
    sel.insert(k, d);
    let k = owned("map_border");
    let d = border_decl(Some(cs.map_border), true, cs.map_border_style, cs.map_border_sides, &cs.map_border_glyphs, Some(cs.map_header_on));
    proof {
        lemma_insert_all_push(Seq::<(String, Decl)>::empty(), e, (k, d));
        let e2 = e.push((k, d));
        assert(e2.drop_last() =~= e);
        assert(full_entries_ok(*cs, e2));
        e = e2;
    }
    sel.insert(k, d);
    let k = owned("story_border");
    let d = border_decl(Some(cs.story_border), true, cs.story_border_style, cs.story_border_sides, &cs.story_border_glyphs, Some(cs.story_header_on));
    proof {
        lemma_insert_all_push(Seq::<(String, Decl)>::empty(), e, (k, d));
        let e2 = e.push((k, d));
        assert(e2.drop_last() =~= e);
        assert(full_entries_ok(*cs, e2));
        e = e2;
    }
    sel.insert(k, d);
    let k = owned("story_title");
    let d = style_to_decl(&cs.story_title);
    proof {
        lemma_insert_all_push(Seq::<(String, Decl)>::empty(), e, (k, d));
        let e2 = e.push((k, d));
        assert(e2.drop_last() =~= e);
        assert(full_entries_ok(*cs, e2));
        e = e2;
    }
    sel.insert(k, d);
    let k = owned("inventory:dock");
    let d = style_to_decl(&cs.inventory_dock);
    proof {
        lemma_insert_all_push(Seq::<(String, Decl)>::empty(), e, (k, d));
        let e2 = e.push((k, d));
        assert(e2.drop_last() =~= e);
        assert(full_entries_ok(*cs, e2));
        e = e2;
    }
    sel.insert(k, d);
    Ghost(e)
}

#[verifier::rlimit(60)]
fn full_selectors_3(sel: &mut StrMap<Decl>, cs: &ColorScheme, Ghost(e0): Ghost<Seq<(String, Decl)>>) -> (e: Ghost<Seq<(String, Decl)>>)
    requires
        old(sel).pairs() == insert_all(Seq::<(String, Decl)>::empty(), e0),
        full_entries_ok(*cs, e0),
        e0.len() == 30,
    ensures
        final(sel).pairs() == insert_all(Seq::<(String, Decl)>::empty(), e@),
        full_entries_ok(*cs, e@),
        e@.len() == 40,
{
    let ghost mut e = e0;
    let k = owned("map_layer_tab");
    let d = style_to_decl(&cs.map_layer_tab);
    proof {
        lemma_insert_all_push(Seq::<(String, Decl)>::empty(), e, (k, d));
        let e2 = e.push((k, d));
        assert(e2.drop_last() =~= e);
        assert(full_entries_ok(*cs, e2));
        e = e2;
    }
    sel.insert(k, d);
    let k = owned("map_layer_tab_active");
    let d = style_to_decl(&cs.map_layer_tab_active);
    proof {
        lemma_insert_all_push(Seq::<(String, Decl)>::empty(), e, (k, d));
        let e2 = e.push((k, d));
        assert(e2.drop_last() =~= e);
        assert(full_entries_ok(*cs, e2));
        e = e2;
    }
    sel.insert(k, d);
    let k = owned("story_info");
    let d = style_to_decl(&cs.story_info);
    proof {
        lemma_insert_all_push(Seq::<(String, Decl)>::empty(), e, (k, d));
        let e2 = e.push((k, d));
        assert(e2.drop_last() =~= e);
        assert(full_entries_ok(*cs, e2));
        e = e2;
    }
    sel.insert(k, d);
    let k = owned("story_info:title");
    let d = style_to_decl(&cs.story_info_title);
    proof {
        lemma_insert_all_push(Seq::<(String, Decl)>::empty(), e, (k, d));
        let e2 = e.push((k, d));
        assert(e2.drop_last() =~= e);
        assert(full_entries_ok(*cs, e2));
        e = e2;
    }
    sel.insert(k, d);
    let k = owned("story_info:label");
    let d = style_to_decl(&cs.story_info_label);
    proof {
        lemma_insert_all_push(Seq::<(String, Decl)>::empty(), e, (k, d));
        let e2 = e.push((k, d));
        assert(e2.drop_last() =~= e);
        assert(full_entries_ok(*cs, e2));
        e = e2;
    }
    sel.insert(k, d);
    let k = owned("story_info:value");
    let d = style_to_decl(&cs.story_info_value);
    proof {
        lemma_insert_all_push(Seq::<(String, Decl)>::empty(), e, (k, d));
        let e2 = e.push((k, d));
        assert(e2.drop_last() =~= e);
        assert(full_entries_ok(*cs, e2));
        e = e2;
    }
    sel.insert(k, d);
    let k = owned("story_info:blurb");
    let d = style_to_decl(&cs.story_info_blurb);
    proof {
        lemma_insert_all_push(Seq::<(String, Decl)>::empty(), e, (k, d));
        let e2 = e.push((k, d));
        assert(e2.drop_last() =~= e);
        assert(full_entries_ok(*cs, e2));
        e = e2;
    }
    sel.insert(k, d);
    let k = owned("story_info:link");
    let d = style_to_decl(&cs.story_info_link);
    proof {
        lemma_insert_all_push(Seq::<(String, Decl)>::empty(), e, (k, d));
        let e2 = e.push((k, d));
        assert(e2.drop_last() =~= e);
        assert(full_entries_ok(*cs, e2));
        e = e2;
    }
    sel.insert(k, d);
    let k = owned("story_info:cover");
    let d = style_to_decl(&cs.story_info_cover);
    proof {
        lemma_insert_all_push(Seq::<(String, Decl)>::empty(), e, (k, d));
        let e2 = e.push((k, d));
        assert(e2.drop_last() =~= e);
        assert(full_entries_ok(*cs, e2));
        e = e2;
    }
    sel.insert(k, d);
    let k = owned("story_badge");
    let d = style_to_decl(&cs.story_badge);
    proof {
        lemma_insert_all_push(Seq::<(String, Decl)>::empty(), e, (k, d));
        let e2 = e.push((k, d));
        assert(e2.drop_last() =~= e);
        assert(full_entries_ok(*cs, e2));
        e = e2;
    }
    sel.insert(k, d);
    Ghost(e)
}

#[verifier::rlimit(60)]
fn full_selectors_4(sel: &mut StrMap<Decl>, cs: &ColorScheme, Ghost(e0): Ghost<Seq<(String, Decl)>>) -> (e: Ghost<Seq<(String, Decl)>>)
    requires
        old(sel).pairs() == insert_all(Seq::<(String, Decl)>::empty(), e0),
        full_entries_ok(*cs, e0),
        e0.len() == 40,
    ensures
        final(sel).pairs() == insert_all(Seq::<(String, Decl)>::empty(), e@),
        full_entries_ok(*cs, e@),
        e@.len() == 50,
{
    let ghost mut e = e0;
    let k = owned("story_header");
    let d = style_to_decl(&cs.story_header);
    proof {
        lemma_insert_all_push(Seq::<(String, Decl)>::empty(), e, (k, d));
        let e2 = e.push((k, d));
        assert(e2.drop_last() =~= e);
        assert(full_entries_ok(*cs, e2));
        e = e2;
    }
    sel.insert(k, d);
    let k = owned("story_header:active");
    let d = style_to_decl(&cs.story_header_active);
    proof {
        lemma_insert_all_push(Seq::<(String, Decl)>::empty(), e, (k, d));
        let e2 = e.push((k, d));
        assert(e2.drop_last() =~= e);
        assert(full_entries_ok(*cs, e2));
        e = e2;
    }
    sel.insert(k, d);
    let k = owned("story_author");
    let d = style_to_decl(&cs.story_author);
    proof {
        lemma_insert_all_push(Seq::<(String, Decl)>::empty(), e, (k, d));
        let e2 = e.push((k, d));
        assert(e2.drop_last() =~= e);
        assert(full_entries_ok(*cs, e2));
        e = e2;
    }
    sel.insert(k, d);
    let k = owned("story_year");
    let d = style_to_decl(&cs.story_year);
    proof {
        lemma_insert_all_push(Seq::<(String, Decl)>::empty(), e, (k, d));
        let e2 = e.push((k, d));
        assert(e2.drop_last() =~= e);
        assert(full_entries_ok(*cs, e2));
        e = e2;
    }
    sel.insert(k, d);
    let k = owned("story_no_metadata");
    let d = style_to_decl(&cs.story_no_metadata);
    proof {
        lemma_insert_all_push(Seq::<(String, Decl)>::empty(), e, (k, d));
        let e2 = e.push((k, d));
        assert(e2.drop_last() =~= e);
        assert(full_entries_ok(*cs, e2));
        e = e2;
    }
    sel.insert(k, d);
    let k = owned("story_tile");
    let d = style_to_decl(&cs.story_tile);
    proof {
        lemma_insert_all_push(Seq::<(String, Decl)>::empty(), e, (k, d));
        let e2 = e.push((k, d));
        assert(e2.drop_last() =~= e);
        assert(full_entries_ok(*cs, e2));
        e = e2;
    }
    sel.insert(k, d);
    let k = owned("story_tile:selected");
    let d = style_to_decl(&cs.story_tile_selected);
    proof {
        lemma_insert_all_push(Seq::<(String, Decl)>::empty(), e, (k, d));
        let e2 = e.push((k, d));
        assert(e2.drop_last() =~= e);
        assert(full_entries_ok(*cs, e2));
        e = e2;
    }
    sel.insert(k, d);
    let k = owned("graphics");
    let d = style_to_decl(&cs.graphics);
    proof {
        lemma_insert_all_push(Seq::<(String, Decl)>::empty(), e, (k, d));
        let e2 = e.push((k, d));
        assert(e2.drop_last() =~= e);
        assert(full_entries_ok(*cs, e2));
        e = e2;
    }
    sel.insert(k, d);
    let k = owned("inline_image");
    let d = style_to_decl(&cs.inline_image);
    proof {
        lemma_insert_all_push(Seq::<(String, Decl)>::empty(), e, (k, d));
        let e2 = e.push((k, d));
        assert(e2.drop_last() =~= e);
        assert(full_entries_ok(*cs, e2));
        e = e2;
    }
    sel.insert(k, d);
    let k = owned("status_header");
    let d = border_decl(Some(cs.status_header), false, cs.status_header_style, cs.status_header_sides, &cs.status_header_glyphs, None);
    proof {
        lemma_insert_all_push(Seq::<(String, Decl)>::empty(), e, (k, d));
        let e2 = e.push((k, d));
        assert(e2.drop_last() =~= e);
        assert(full_entries_ok(*cs, e2));
        e = e2;
    }
    sel.insert(k, d);
    Ghost(e)
}

#[verifier::rlimit(60)]
fn full_selectors_5(sel: &mut StrMap<Decl>, cs: &ColorScheme, Ghost(e0): Ghost<Seq<(String, Decl)>>) -> (e: Ghost<Seq<(String, Decl)>>)
    requires
        old(sel).pairs() == insert_all(Seq::<(String, Decl)>::empty(), e0),
        full_entries_ok(*cs, e0),
        e0.len() == 50,
    ensures
        final(sel).pairs() == insert_all(Seq::<(String, Decl)>::empty(), e@),
        full_entries_ok(*cs, e@),
        e@.len() == 60,
{
    let ghost mut e = e0;
    let k = owned("input_line");
    let d = border_decl(Some(cs.input_line), false, cs.input_line_style, cs.input_line_sides, &cs.input_line_glyphs, None);
    proof {
        lemma_insert_all_push(Seq::<(String, Decl)>::empty(), e, (k, d));
        let e2 = e.push((k, d));
        assert(e2.drop_last() =~= e);
        assert(full_entries_ok(*cs, e2));
        e = e2;
    }
    sel.insert(k, d);
    let k = owned("dialog");
    let d = dialog_decl(cs);
    proof {
        lemma_insert_all_push(Seq::<(String, Decl)>::empty(), e, (k, d));
        let e2 = e.push((k, d));
        assert(e2.drop_last() =~= e);
        assert(full_entries_ok(*cs, e2));
        e = e2;
    }
    sel.insert(k, d);
    let k = owned("dialog:title");
    let d = style_to_decl(&cs.dialog_title);
    proof {
        lemma_insert_all_push(Seq::<(String, Decl)>::empty(), e, (k, d));
        let e2 = e.push((k, d));
        assert(e2.drop_last() =~= e);
        assert(full_entries_ok(*cs, e2));
        e = e2;
    }
    sel.insert(k, d);
    let k = owned("hotkey:key");
    let d = style_to_decl(&cs.hotkey_key);
    proof {
        lemma_insert_all_push(Seq::<(String, Decl)>::empty(), e, (k, d));
        let e2 = e.push((k, d));
        assert(e2.drop_last() =~= e);
        assert(full_entries_ok(*cs, e2));
        e = e2;
    }
    sel.insert(k, d);
    let k = owned("dialog:button");
    let d = style_to_decl(&cs.dialog_button);
    proof {
        lemma_insert_all_push(Seq::<(String, Decl)>::empty(), e, (k, d));
        let e2 = e.push((k, d));
        assert(e2.drop_last() =~= e);
        assert(full_entries_ok(*cs, e2));
        e = e2;
    }
    sel.insert(k, d);
    let k = owned("dialog:button:active");
    let d = style_to_decl(&cs.dialog_button_active);
    proof {
        lemma_insert_all_push(Seq::<(String, Decl)>::empty(), e, (k, d));
        let e2 = e.push((k, d));
        assert(e2.drop_last() =~= e);
        assert(full_entries_ok(*cs, e2));
        e = e2;
    }
    sel.insert(k, d);
    let k = owned("dialog:shadow");
    let d = style_to_decl(&cs.dialog_shadow);
    proof {
        lemma_insert_all_push(Seq::<(String, Decl)>::empty(), e, (k, d));
        let e2 = e.push((k, d));
        assert(e2.drop_last() =~= e);
        assert(full_entries_ok(*cs, e2));
        e = e2;
    }
    sel.insert(k, d);
    let k = owned("room_panel");
    let d = style_to_decl(&cs.room_panel);
    proof {
        lemma_insert_all_push(Seq::<(String, Decl)>::empty(), e, (k, d));
        let e2 = e.push((k, d));
        assert(e2.drop_last() =~= e);
        assert(full_entries_ok(*cs, e2));
        e = e2;
    }
    sel.insert(k, d);
    let k = owned("upper_window");
    let d = style_to_decl(&cs.upper_window);
    proof {
        lemma_insert_all_push(Seq::<(String, Decl)>::empty(), e, (k, d));
        let e2 = e.push((k, d));
        assert(e2.drop_last() =~= e);
        assert(full_entries_ok(*cs, e2));
        e = e2;
    }
    sel.insert(k, d);
    let k = owned("upper_window_border");
    let d = border_decl(Some(cs.upper_window_border), true, cs.virtual_window_border, cs.upper_window_border_sides, &cs.upper_window_border_glyphs, None);
    proof {
        lemma_insert_all_push(Seq::<(String, Decl)>::empty(), e, (k, d));
        let e2 = e.push((k, d));
        assert(e2.drop_last() =~= e);
        assert(full_entries_ok(*cs, e2));
        e = e2;
    }
    sel.insert(k, d);
    Ghost(e)
}

#[verifier::rlimit(60)]
fn full_selectors_6(sel: &mut StrMap<Decl>, cs: &ColorScheme, Ghost(e0): Ghost<Seq<(String, Decl)>>) -> (e: Ghost<Seq<(String, Decl)>>)
    requires
        old(sel).pairs() == insert_all(Seq::<(String, Decl)>::empty(), e0),
        full_entries_ok(*cs, e0),
        e0.len() == 60,
    ensures
        final(sel).pairs() == insert_all(Seq::<(String, Decl)>::empty(), e@),
        full_entries_ok(*cs, e@),
        e@.len() == 70,
{
    let ghost mut e = e0;
    let k = owned("sound_beep_high");
    let d = style_to_decl(&cs.sound_beep_high);
    proof {
        lemma_insert_all_push(Seq::<(String, Decl)>::empty(), e, (k, d));
        let e2 = e.push((k, d));
        assert(e2.drop_last() =~= e);
        assert(full_entries_ok(*cs, e2));
        e = e2;
    }
    sel.insert(k, d);
    let k = owned("sound_beep_low");
    let d = style_to_decl(&cs.sound_beep_low);
    proof {
        lemma_insert_all_push(Seq::<(String, Decl)>::empty(), e, (k, d));
        let e2 = e.push((k, d));
        assert(e2.drop_last() =~= e);
        assert(full_entries_ok(*cs, e2));
        e = e2;
    }
    sel.insert(k, d);
    let k = owned("loc_indicator");
    let d = style_to_decl(&cs.loc_indicator);
    proof {
        lemma_insert_all_push(Seq::<(String, Decl)>::empty(), e, (k, d));
        let e2 = e.push((k, d));
        assert(e2.drop_last() =~= e);
        assert(full_entries_ok(*cs, e2));
        e = e2;
    }
    sel.insert(k, d);
    let k = owned("map.tile.wall");
    let d = style_to_decl(&cs.tile_wall);
    proof {
        lemma_insert_all_push(Seq::<(String, Decl)>::empty(), e, (k, d));
        let e2 = e.push((k, d));
        assert(e2.drop_last() =~= e);
        assert(full_entries_ok(*cs, e2));
        e = e2;
    }
    sel.insert(k, d);
    let k = owned("map.tile.floor");
    let d = style_to_decl(&cs.tile_floor);
    proof {
        lemma_insert_all_push(Seq::<(String, Decl)>::empty(), e, (k, d));
        let e2 = e.push((k, d));
        assert(e2.drop_last() =~= e);
        assert(full_entries_ok(*cs, e2));
        e = e2;
    }
    sel.insert(k, d);
    let k = owned("map.tile.corridor");
    let d = style_to_decl(&cs.tile_corridor);
    proof {
        lemma_insert_all_push(Seq::<(String, Decl)>::empty(), e, (k, d));
        let e2 = e.push((k, d));
        assert(e2.drop_last() =~= e);
        assert(full_entries_ok(*cs, e2));
        e = e2;
    }
    sel.insert(k, d);
    let k = owned("map.tile.door");
    let d = style_to_decl(&cs.tile_door);
    proof {
        lemma_insert_all_push(Seq::<(String, Decl)>::empty(), e, (k, d));
        let e2 = e.push((k, d));
        assert(e2.drop_last() =~= e);
        assert(full_entries_ok(*cs, e2));
        e = e2;
    }
    sel.insert(k, d);
    let k = owned("map.tile.bridge");
    let d = style_to_decl(&cs.tile_bridge);
    proof {
        lemma_insert_all_push(Seq::<(String, Decl)>::empty(), e, (k, d));
        let e2 = e.push((k, d));
        assert(e2.drop_last() =~= e);
        assert(full_entries_ok(*cs, e2));
        e = e2;
    }
    sel.insert(k, d);
    let k = owned("map.tile.stairs");
    let d = style_to_decl(&cs.tile_stairs);
    proof {
        lemma_insert_all_push(Seq::<(String, Decl)>::empty(), e, (k, d));
        let e2 = e.push((k, d));
        assert(e2.drop_last() =~= e);
        assert(full_entries_ok(*cs, e2));
        e = e2;
    }
    sel.insert(k, d);
    let k = owned("map.tile.chamber");
    let d = style_to_decl(&cs.tile_chamber);
    proof {
        lemma_insert_all_push(Seq::<(String, Decl)>::empty(), e, (k, d));
        let e2 = e.push((k, d));
        assert(e2.drop_last() =~= e);
        assert(full_entries_ok(*cs, e2));
        e = e2;
    }
    sel.insert(k, d);
    Ghost(e)
}

#[verifier::rlimit(60)]
fn full_selectors_7(sel: &mut StrMap<Decl>, cs: &ColorScheme, Ghost(e0): Ghost<Seq<(String, Decl)>>) -> (e: Ghost<Seq<(String, Decl)>>)
    requires
        old(sel).pairs() == insert_all(Seq::<(String, Decl)>::empty(), e0),
        full_entries_ok(*cs, e0),
        e0.len() == 70,
    ensures
        final(sel).pairs() == insert_all(Seq::<(String, Decl)>::empty(), e@),
        full_entries_ok(*cs, e@),
        e@.len() == 73,
{
    let ghost mut e = e0;
    let k = owned("map.tile.shadow");
    let d = style_to_decl(&cs.tile_shadow);
    proof {
        lemma_insert_all_push(Seq::<(String, Decl)>::empty(), e, (k, d));
        let e2 = e.push((k, d));
        assert(e2.drop_last() =~= e);
        assert(full_entries_ok(*cs, e2));
        e = e2;
    }
    sel.insert(k, d);
    let k = owned("map.tile.player");
    let d = style_to_decl(&cs.tile_player);
    proof {
        lemma_insert_all_push(Seq::<(String, Decl)>::empty(), e, (k, d));
        let e2 = e.push((k, d));
        assert(e2.drop_last() =~= e);
        assert(full_entries_ok(*cs, e2));
        e = e2;
    }
    sel.insert(k, d);
    let k = owned("map.tile.room-number");
    let d = style_to_decl(&cs.tile_room_number);
    proof {
        lemma_insert_all_push(Seq::<(String, Decl)>::empty(), e, (k, d));
        let e2 = e.push((k, d));
        assert(e2.drop_last() =~= e);
        assert(full_entries_ok(*cs, e2));
        e = e2;
    }
    sel.insert(k, d);
    Ghost(e)
}

/// The override slots of a full export, in the order they are written.
pub open spec fn full_override_key(i: int) -> Seq<char> {
    if i == 0 {
        "room.normal.tl"@
    } else if i == 1 {
        "room.normal.tr"@
    } else if i == 2 {
        "room.normal.bl"@
    } else if i == 3 {
        "room.normal.br"@
    } else if i == 4 {
        "room.normal.h"@
    } else if i == 5 {
        "room.normal.v"@
    } else if i == 6 {
        "room.current.tl"@
    } else if i == 7 {
        "room.current.tr"@
    } else if i == 8 {
        "room.current.bl"@
    } else if i == 9 {
        "room.current.br"@
    } else if i == 10 {
        "room.current.h"@
    } else if i == 11 {
        "room.current.v"@
    } else if i == 12 {
        "room.portal.tl"@
    } else if i == 13 {
        "room.portal.tr"@
    } else if i == 14 {
        "room.portal.bl"@
    } else if i == 15 {
        "room.portal.br"@
    } else if i == 16 {
        "room.portal.h"@
    } else if i == 17 {
        "room.portal.v"@
    } else if i == 18 {
        "room.selected.tl"@
    } else if i == 19 {
        "room.selected.tr"@
    } else if i == 20 {
        "room.selected.bl"@
    } else if i == 21 {
        "room.selected.br"@
    } else if i == 22 {
        "room.selected.h"@
    } else if i == 23 {
        "room.selected.v"@
    } else if i == 24 {
        "arrow.north"@
    } else if i == 25 {
        "arrow.south"@
    } else if i == 26 {
        "arrow.east"@
    } else if i == 27 {
        "arrow.west"@
    } else if i == 28 {
        "arrow.ne"@
    } else if i == 29 {
        "arrow.nw"@
    } else if i == 30 {
        "arrow.se"@
    } else if i == 31 {
        "arrow.sw"@
    } else if i == 32 {
        "path.ew"@
    } else if i == 33 {
        "path.ns"@
    } else if i == 34 {
        "path.se"@
    } else if i == 35 {
        "path.sw"@
    } else if i == 36 {
        "path.ne"@
    } else if i == 37 {
        "path.nw"@
    } else if i == 38 {
        "path.nse"@
    } else if i == 39 {
        "path.nsw"@
    } else if i == 40 {
        "path.ews"@
    } else if i == 41 {
        "path.ewn"@
    } else if i == 42 {
        "path.cross"@
    } else if i == 43 {
        "path.diag_ul"@
    } else if i == 44 {
        "path.diag_ur"@
    } else if i == 45 {
        "path.diag_ll"@
    } else if i == 46 {
        "path.diag_lr"@
    } else if i == 47 {
        "portal.up"@
    } else if i == 48 {
        "portal.down"@
    } else if i == 49 {
        "portal.in"@
    } else if i == 50 {
        "portal.out"@
    } else if i == 51 {
        "portal.unknown"@
    } else if i == 52 {
        "portal.path"@
    } else if i == 53 {
        "portal.marker"@
    } else if i == 54 {
        "gutter.meta"@
    } else if i == 55 {
        "gutter.warning"@
    } else if i == 56 {
        "tile.wall_h"@
    } else if i == 57 {
        "tile.wall_v"@
    } else if i == 58 {
        "tile.wall_tl"@
    } else if i == 59 {
        "tile.wall_tr"@
    } else if i == 60 {
        "tile.wall_bl"@
    } else if i == 61 {
        "tile.wall_br"@
    } else if i == 62 {
        "tile.wall_tee_n"@
    } else if i == 63 {
        "tile.wall_tee_s"@
    } else if i == 64 {
        "tile.wall_tee_e"@
    } else if i == 65 {
        "tile.wall_tee_w"@
    } else if i == 66 {
        "tile.wall_cross"@
    } else if i == 67 {
        "tile.floor"@
    } else if i == 68 {
        "tile.door_h"@
    } else if i == 69 {
        "tile.door_v"@
    } else if i == 70 {
        "tile.door_n"@
    } else if i == 71 {
        "tile.door_e"@
    } else if i == 72 {
        "tile.door_s"@
    } else if i == 73 {
        "tile.door_w"@
    } else if i == 74 {
        "tile.door_stub"@
    } else if i == 75 {
        "tile.dash_h"@
    } else if i == 76 {
        "tile.dash_v"@
    } else if i == 77 {
        "tile.diag_up"@
    } else if i == 78 {
        "tile.diag_down"@
    } else if i == 79 {
        "tile.bridge"@
    } else if i == 80 {
        "tile.bridge_v"@
    } else if i == 81 {
        "tile.stairs_up"@
    } else if i == 82 {
        "tile.stairs_down"@
    } else if i == 83 {
        "tile.portal_in"@
    } else if i == 84 {
        "tile.portal_out"@
    } else if i == 85 {
        "tile.player"@
    } else {
        seq![]
    }
}

/// The glyph of override slot number `i` in `set`.
pub open spec fn full_override_glyph(set: SymbolSet, i: int) -> char {
    if i == 0 {
        set.room_normal.tl
    } else if i == 1 {
        set.room_normal.tr
    } else if i == 2 {
        set.room_normal.bl
    } else if i == 3 {
        set.room_normal.br
    } else if i == 4 {
        set.room_normal.h
    } else if i == 5 {
        set.room_normal.v
    } else if i == 6 {
        set.room_current.tl
    } else if i == 7 {
        set.room_current.tr
    } else if i == 8 {
        set.room_current.bl
    } else if i == 9 {
        set.room_current.br
    } else if i == 10 {
        set.room_current.h
    } else if i == 11 {
        set.room_current.v
    } else if i == 12 {
        set.room_portal.tl
    } else if i == 13 {
        set.room_portal.tr
    } else if i == 14 {
        set.room_portal.bl
    } else if i == 15 {
        set.room_portal.br
    } else if i == 16 {
        set.room_portal.h
    } else if i == 17 {
        set.room_portal.v
    } else if i == 18 {
        set.room_selected.tl
    } else if i == 19 {
        set.room_selected.tr
    } else if i == 20 {
        set.room_selected.bl
    } else if i == 21 {
        set.room_selected.br
    } else if i == 22 {
        set.room_selected.h
    } else if i == 23 {
        set.room_selected.v
    } else if i == 24 {
        set.arrows.north
    } else if i == 25 {
        set.arrows.south
    } else if i == 26 {
        set.arrows.east
    } else if i == 27 {
        set.arrows.west
    } else if i == 28 {
        set.arrows.ne
    } else if i == 29 {
        set.arrows.nw
    } else if i == 30 {
        set.arrows.se
    } else if i == 31 {
        set.arrows.sw
    } else if i == 32 {
        set.path.ew
    } else if i == 33 {
        set.path.ns
    } else if i == 34 {
        set.path.se
    } else if i == 35 {
        set.path.sw
    } else if i == 36 {
        set.path.ne
    } else if i == 37 {
        set.path.nw
    } else if i == 38 {
        set.path.nse
    } else if i == 39 {
        set.path.nsw
    } else if i == 40 {
        set.path.ews
    } else if i == 41 {
        set.path.ewn
    } else if i == 42 {
        set.path.nesw
    } else if i == 43 {
        set.path.diag_ul
    } else if i == 44 {
        set.path.diag_ur
    } else if i == 45 {
        set.path.diag_ll
    } else if i == 46 {
        set.path.diag_lr
    } else if i == 47 {
        set.portal.up
    } else if i == 48 {
        set.portal.down
    } else if i == 49 {
        set.portal.in_
    } else if i == 50 {
        set.portal.out
    } else if i == 51 {
        set.portal.unknown
    } else if i == 52 {
        set.portal.path
    } else if i == 53 {
        set.portal.marker
    } else if i == 54 {
        set.meta_gutter
    } else if i == 55 {
        set.warning_gutter
    } else if i == 56 {
        set.tiles.walls.h
    } else if i == 57 {
        set.tiles.walls.v
    } else if i == 58 {
        set.tiles.walls.tl
    } else if i == 59 {
        set.tiles.walls.tr
    } else if i == 60 {
        set.tiles.walls.bl
    } else if i == 61 {
        set.tiles.walls.br
    } else if i == 62 {
        set.tiles.walls.tee_n
    } else if i == 63 {
        set.tiles.walls.tee_s
    } else if i == 64 {
        set.tiles.walls.tee_e
    } else if i == 65 {
        set.tiles.walls.tee_w
    } else if i == 66 {
        set.tiles.walls.cross
    } else if i == 67 {
        set.tiles.floor
    } else if i == 68 {
        set.tiles.door_h
    } else if i == 69 {
        set.tiles.door_v
    } else if i == 70 {
        set.tiles.door_n
    } else if i == 71 {
        set.tiles.door_e
    } else if i == 72 {
        set.tiles.door_s
    } else if i == 73 {
        set.tiles.door_w
    } else if i == 74 {
        set.tiles.door_stub
    } else if i == 75 {
        set.tiles.dash_h
    } else if i == 76 {
        set.tiles.dash_v
    } else if i == 77 {
        set.tiles.diag_up
    } else if i == 78 {
        set.tiles.diag_down
    } else if i == 79 {
        set.tiles.bridge
    } else if i == 80 {
        set.tiles.bridge_v
    } else if i == 81 {
        set.tiles.stairs_up
    } else if i == 82 {
        set.tiles.stairs_down
    } else if i == 83 {
        set.tiles.portal_in
    } else if i == 84 {
        set.tiles.portal_out
    } else if i == 85 {
        set.tiles.player
    } else {
        ' '
    }
}

/// The number of override slots in a full export.
pub open spec fn full_override_count() -> int {
    86
}

/// The entries `e` are, in order, the first `e.len()` override slots of a full
/// export of `set`, each with its glyph.
pub open spec fn full_overrides_ok(set: SymbolSet, e: Seq<(String, String)>) -> bool
    decreases e.len(),
{
    if e.len() == 0 {
        true
    } else {
        full_overrides_ok(set, e.drop_last()) && e.last().0@ == full_override_key(e.len() - 1)
            && e.last().1@ == seq![full_override_glyph(set, e.len() - 1)]
    }
}

fn glyph_string(c: char) -> (r: String)
    ensures
        r@ == seq![c],
{
    let mut s = String::new();
    push_char(&mut s, c);
    assert(s@ =~= seq![c]);
    s
}

#[verifier::rlimit(60)]
fn full_overrides_0(ov: &mut StrMap<String>, set: &SymbolSet, Ghost(e0): Ghost<Seq<(String, String)>>) -> (e: Ghost<Seq<(String, String)>>)
    requires
        old(ov).pairs() == insert_all(Seq::<(String, String)>::empty(), e0),
        full_overrides_ok(*set, e0),
        e0.len() == 0,
    ensures
        final(ov).pairs() == insert_all(Seq::<(String, String)>::empty(), e@),
        full_overrides_ok(*set, e@),
        e@.len() == 14,
{
    let ghost mut e = e0;
    let k = owned("room.normal.tl");
    let v = glyph_string(set.room_normal.tl);
    proof {
        lemma_insert_all_push(Seq::<(String, String)>::empty(), e, (k, v));
        let e2 = e.push((k, v));
        assert(e2.drop_last() =~= e);
        assert(full_overrides_ok(*set, e2));
        e = e2;
    }
    ov.insert(k, v);
    let k = owned("room.normal.tr");
    let v = glyph_string(set.room_normal.tr);
    proof {
        lemma_insert_all_push(Seq::<(String, String)>::empty(), e, (k, v));
        let e2 = e.push((k, v));
        assert(e2.drop_last() =~= e);
        assert(full_overrides_ok(*set, e2));
        e = e2;
    }
    ov.insert(k, v);
    let k = owned("room.normal.bl");
    let v = glyph_string(set.room_normal.bl);
    proof {
        lemma_insert_all_push(Seq::<(String, String)>::empty(), e, (k, v));
        let e2 = e.push((k, v));
        assert(e2.drop_last() =~= e);
        assert(full_overrides_ok(*set, e2));
        e = e2;
    }
    ov.insert(k, v);
    let k = owned("room.normal.br");
    let v = glyph_string(set.room_normal.br);
    proof {
        lemma_insert_all_push(Seq::<(String, String)>::empty(), e, (k, v));
        let e2 = e.push((k, v));
        assert(e2.drop_last() =~= e);
        assert(full_overrides_ok(*set, e2));
        e = e2;
    }
    ov.insert(k, v);
    let k = owned("room.normal.h");
    let v = glyph_string(set.room_normal.h);
    proof {
        lemma_insert_all_push(Seq::<(String, String)>::empty(), e, (k, v));
        let e2 = e.push((k, v));
        assert(e2.drop_last() =~= e);
        assert(full_overrides_ok(*set, e2));
        e = e2;
    }
    ov.insert(k, v);
    let k = owned("room.normal.v");
    let v = glyph_string(set.room_normal.v);
    proof {
        lemma_insert_all_push(Seq::<(String, String)>::empty(), e, (k, v));
        let e2 = e.push((k, v));
        assert(e2.drop_last() =~= e);
        assert(full_overrides_ok(*set, e2));
        e = e2;
    }
    ov.insert(k, v);
    let k = owned("room.current.tl");
    let v = glyph_string(set.room_current.tl);
    proof {
        lemma_insert_all_push(Seq::<(String, String)>::empty(), e, (k, v));
        let e2 = e.push((k, v));
        assert(e2.drop_last() =~= e);
        assert(full_overrides_ok(*set, e2));
        e = e2;
    }
    ov.insert(k, v);
    let k = owned("room.current.tr");
    let v = glyph_string(set.room_current.tr);
    proof {
        lemma_insert_all_push(Seq::<(String, String)>::empty(), e, (k, v));
        let e2 = e.push((k, v));
        assert(e2.drop_last() =~= e);
        assert(full_overrides_ok(*set, e2));
        e = e2;
    }
    ov.insert(k, v);
    let k = owned("room.current.bl");
    let v = glyph_string(set.room_current.bl);
    proof {
        lemma_insert_all_push(Seq::<(String, String)>::empty(), e, (k, v));
        let e2 = e.push((k, v));
        assert(e2.drop_last() =~= e);
        assert(full_overrides_ok(*set, e2));
        e = e2;
    }
    ov.insert(k, v);
    let k = owned("room.current.br");
    let v = glyph_string(set.room_current.br);
    proof {
        lemma_insert_all_push(Seq::<(String, String)>::empty(), e, (k, v));
        let e2 = e.push((k, v));
        assert(e2.drop_last() =~= e);
        assert(full_overrides_ok(*set, e2));
        e = e2;
    }
    ov.insert(k, v);
    let k = owned("room.current.h");
    let v = glyph_string(set.room_current.h);
    proof {
        lemma_insert_all_push(Seq::<(String, String)>::empty(), e, (k, v));
        let e2 = e.push((k, v));
        assert(e2.drop_last() =~= e);
        assert(full_overrides_ok(*set, e2));
        e = e2;
    }
    ov.insert(k, v);
    let k = owned("room.current.v");
    let v = glyph_string(set.room_current.v);
    proof {
        lemma_insert_all_push(Seq::<(String, String)>::empty(), e, (k, v));
        let e2 = e.push((k, v));
        assert(e2.drop_last() =~= e);
        assert(full_overrides_ok(*set, e2));
        e = e2;
    }
    ov.insert(k, v);
    let k = owned("room.portal.tl");
    let v = glyph_string(set.room_portal.tl);
    proof {
        lemma_insert_all_push(Seq::<(String, String)>::empty(), e, (k, v));
        let e2 = e.push((k, v));
        assert(e2.drop_last() =~= e);
        assert(full_overrides_ok(*set, e2));
        e = e2;
    }
    ov.insert(k, v);
    let k = owned("room.portal.tr");
    let v = glyph_string(set.room_portal.tr);
    proof {
        lemma_insert_all_push(Seq::<(String, String)>::empty(), e, (k, v));
        let e2 = e.push((k, v));
        assert(e2.drop_last() =~= e);
        assert(full_overrides_ok(*set, e2));
        e = e2;
    }
    ov.insert(k, v);
    Ghost(e)
}

#[verifier::rlimit(60)]
fn full_overrides_1(ov: &mut StrMap<String>, set: &SymbolSet, Ghost(e0): Ghost<Seq<(String, String)>>) -> (e: Ghost<Seq<(String, String)>>)
    requires
        old(ov).pairs() == insert_all(Seq::<(String, String)>::empty(), e0),
        full_overrides_ok(*set, e0),
        e0.len() == 14,
    ensures
        final(ov).pairs() == insert_all(Seq::<(String, String)>::empty(), e@),
        full_overrides_ok(*set, e@),
        e@.len() == 28,
{
    let ghost mut e = e0;
    let k = owned("room.portal.bl");
    let v = glyph_string(set.room_portal.bl);
    proof {
        lemma_insert_all_push(Seq::<(String, String)>::empty(), e, (k, v));
        let e2 = e.push((k, v));
        assert(e2.drop_last() =~= e);
        assert(full_overrides_ok(*set, e2));
        e = e2;
    }
    ov.insert(k, v);
    let k = owned("room.portal.br");
    let v = glyph_string(set.room_portal.br);
    proof {
        lemma_insert_all_push(Seq::<(String, String)>::empty(), e, (k, v));
        let e2 = e.push((k, v));
        assert(e2.drop_last() =~= e);
        assert(full_overrides_ok(*set, e2));
        e = e2;
    }
    ov.insert(k, v);
    let k = owned("room.portal.h");
    let v = glyph_string(set.room_portal.h);
    proof {
        lemma_insert_all_push(Seq::<(String, String)>::empty(), e, (k, v));
        let e2 = e.push((k, v));
        assert(e2.drop_last() =~= e);
        assert(full_overrides_ok(*set, e2));
        e = e2;
    }
    ov.insert(k, v);
    let k = owned("room.portal.v");
    let v = glyph_string(set.room_portal.v);
    proof {
        lemma_insert_all_push(Seq::<(String, String)>::empty(), e, (k, v));
        let e2 = e.push((k, v));
        assert(e2.drop_last() =~= e);
        assert(full_overrides_ok(*set, e2));
        e = e2;
    }
    ov.insert(k, v);
    let k = owned("room.selected.tl");
    let v = glyph_string(set.room_selected.tl);
    proof {
        lemma_insert_all_push(Seq::<(String, String)>::empty(), e, (k, v));
        let e2 = e.push((k, v));
        assert(e2.drop_last() =~= e);
        assert(full_overrides_ok(*set, e2));
        e = e2;
    }
    ov.insert(k, v);
    let k = owned("room.selected.tr");
    let v = glyph_string(set.room_selected.tr);
    proof {
        lemma_insert_all_push(Seq::<(String, String)>::empty(), e, (k, v));
        let e2 = e.push((k, v));
        assert(e2.drop_last() =~= e);
        assert(full_overrides_ok(*set, e2));
        e = e2;
    }
    ov.insert(k, v);
    let k = owned("room.selected.bl");
    let v = glyph_string(set.room_selected.bl);
    proof {
        lemma_insert_all_push(Seq::<(String, String)>::empty(), e, (k, v));
        let e2 = e.push((k, v));
        assert(e2.drop_last() =~= e);
        assert(full_overrides_ok(*set, e2));
        e = e2;
    }
    ov.insert(k, v);
    let k = owned("room.selected.br");
    let v = glyph_string(set.room_selected.br);
    proof {
        lemma_insert_all_push(Seq::<(String, String)>::empty(), e, (k, v));
        let e2 = e.push((k, v));
        assert(e2.drop_last() =~= e);
        assert(full_overrides_ok(*set, e2));
        e = e2;
    }
    ov.insert(k, v);
    let k = owned("room.selected.h");
    let v = glyph_string(set.room_selected.h);
    proof {
        lemma_insert_all_push(Seq::<(String, String)>::empty(), e, (k, v));
        let e2 = e.push((k, v));
        assert(e2.drop_last() =~= e);
        assert(full_overrides_ok(*set, e2));
        e = e2;
    }
    ov.insert(k, v);
    let k = owned("room.selected.v");
    let v = glyph_string(set.room_selected.v);
    proof {
        lemma_insert_all_push(Seq::<(String, String)>::empty(), e, (k, v));
        let e2 = e.push((k, v));
        assert(e2.drop_last() =~= e);
        assert(full_overrides_ok(*set, e2));
        e = e2;
    }
    ov.insert(k, v);
    let k = owned("arrow.north");
    let v = glyph_string(set.arrows.north);
    proof {
        lemma_insert_all_push(Seq::<(String, String)>::empty(), e, (k, v));
        let e2 = e.push((k, v));
        assert(e2.drop_last() =~= e);
        assert(full_overrides_ok(*set, e2));
        e = e2;
    }
    ov.insert(k, v);
    let k = owned("arrow.south");
    let v = glyph_string(set.arrows.south);
    proof {
        lemma_insert_all_push(Seq::<(String, String)>::empty(), e, (k, v));
        let e2 = e.push((k, v));
        assert(e2.drop_last() =~= e);
        assert(full_overrides_ok(*set, e2));
        e = e2;
    }
    ov.insert(k, v);
    let k = owned("arrow.east");
    let v = glyph_string(set.arrows.east);
    proof {
        lemma_insert_all_push(Seq::<(String, String)>::empty(), e, (k, v));
        let e2 = e.push((k, v));
        assert(e2.drop_last() =~= e);
        assert(full_overrides_ok(*set, e2));
        e = e2;
    }
    ov.insert(k, v);
    let k = owned("arrow.west");
    let v = glyph_string(set.arrows.west);
    proof {
        lemma_insert_all_push(Seq::<(String, String)>::empty(), e, (k, v));
        let e2 = e.push((k, v));
        assert(e2.drop_last() =~= e);
        assert(full_overrides_ok(*set, e2));
        e = e2;
    }
    ov.insert(k, v);
    Ghost(e)
}

#[verifier::rlimit(60)]
fn full_overrides_2(ov: &mut StrMap<String>, set: &SymbolSet, Ghost(e0): Ghost<Seq<(String, String)>>) -> (e: Ghost<Seq<(String, String)>>)
    requires
        old(ov).pairs() == insert_all(Seq::<(String, String)>::empty(), e0),
        full_overrides_ok(*set, e0),
        e0.len() == 28,
    ensures
        final(ov).pairs() == insert_all(Seq::<(String, String)>::empty(), e@),
        full_overrides_ok(*set, e@),
        e@.len() == 42,
{
    let ghost mut e = e0;
    let k = owned("arrow.ne");
    let v = glyph_string(set.arrows.ne);
    proof {
        lemma_insert_all_push(Seq::<(String, String)>::empty(), e, (k, v));
        let e2 = e.push((k, v));
        assert(e2.drop_last() =~= e);
        assert(full_overrides_ok(*set, e2));
        e = e2;
    }
    ov.insert(k, v);
    let k = owned("arrow.nw");
    let v = glyph_string(set.arrows.nw);
    proof {
        lemma_insert_all_push(Seq::<(String, String)>::empty(), e, (k, v));
        let e2 = e.push((k, v));
        assert(e2.drop_last() =~= e);
        assert(full_overrides_ok(*set, e2));
        e = e2;
    }
    ov.insert(k, v);
    let k = owned("arrow.se");
    let v = glyph_string(set.arrows.se);
    proof {
        lemma_insert_all_push(Seq::<(String, String)>::empty(), e, (k, v));
        let e2 = e.push((k, v));
        assert(e2.drop_last() =~= e);
        assert(full_overrides_ok(*set, e2));
        e = e2;
    }
    ov.insert(k, v);
    let k = owned("arrow.sw");
    let v = glyph_string(set.arrows.sw);
    proof {
        lemma_insert_all_push(Seq::<(String, String)>::empty(), e, (k, v));
        let e2 = e.push((k, v));
        assert(e2.drop_last() =~= e);
        assert(full_overrides_ok(*set, e2));
        e = e2;
    }
    ov.insert(k, v);
    let k = owned("path.ew");
    let v = glyph_string(set.path.ew);
    proof {
        lemma_insert_all_push(Seq::<(String, String)>::empty(), e, (k, v));
        let e2 = e.push((k, v));
        assert(e2.drop_last() =~= e);
        assert(full_overrides_ok(*set, e2));
        e = e2;
    }
    ov.insert(k, v);
    let k = owned("path.ns");
    let v = glyph_string(set.path.ns);
    proof {
        lemma_insert_all_push(Seq::<(String, String)>::empty(), e, (k, v));
        let e2 = e.push((k, v));
        assert(e2.drop_last() =~= e);
        assert(full_overrides_ok(*set, e2));
        e = e2;
    }
    ov.insert(k, v);
    let k = owned("path.se");
    let v = glyph_string(set.path.se);
    proof {
        lemma_insert_all_push(Seq::<(String, String)>::empty(), e, (k, v));
        let e2 = e.push((k, v));
        assert(e2.drop_last() =~= e);
        assert(full_overrides_ok(*set, e2));
        e = e2;
    }
    ov.insert(k, v);
    let k = owned("path.sw");
    let v = glyph_string(set.path.sw);
    proof {
        lemma_insert_all_push(Seq::<(String, String)>::empty(), e, (k, v));
        let e2 = e.push((k, v));
        assert(e2.drop_last() =~= e);
        assert(full_overrides_ok(*set, e2));
        e = e2;
    }
    ov.insert(k, v);
    let k = owned("path.ne");
    let v = glyph_string(set.path.ne);
    proof {
        lemma_insert_all_push(Seq::<(String, String)>::empty(), e, (k, v));
        let e2 = e.push((k, v));
        assert(e2.drop_last() =~= e);
        assert(full_overrides_ok(*set, e2));
        e = e2;
    }
    ov.insert(k, v);
    let k = owned("path.nw");
    let v = glyph_string(set.path.nw);
    proof {
        lemma_insert_all_push(Seq::<(String, String)>::empty(), e, (k, v));
        let e2 = e.push((k, v));
        assert(e2.drop_last() =~= e);
        assert(full_overrides_ok(*set, e2));
        e = e2;
    }
    ov.insert(k, v);
    let k = owned("path.nse");
    let v = glyph_string(set.path.nse);
    proof {
        lemma_insert_all_push(Seq::<(String, String)>::empty(), e, (k, v));
        let e2 = e.push((k, v));
        assert(e2.drop_last() =~= e);
        assert(full_overrides_ok(*set, e2));
        e = e2;
    }
    ov.insert(k, v);
    let k = owned("path.nsw");
    let v = glyph_string(set.path.nsw);
    proof {
        lemma_insert_all_push(Seq::<(String, String)>::empty(), e, (k, v));
        let e2 = e.push((k, v));
        assert(e2.drop_last() =~= e);
        assert(full_overrides_ok(*set, e2));
        e = e2;
    }
    ov.insert(k, v);
    let k = owned("path.ews");
    let v = glyph_string(set.path.ews);
    proof {
        lemma_insert_all_push(Seq::<(String, String)>::empty(), e, (k, v));
        let e2 = e.push((k, v));
        assert(e2.drop_last() =~= e);
        assert(full_overrides_ok(*set, e2));
        e = e2;
    }
    ov.insert(k, v);
    let k = owned("path.ewn");
    let v = glyph_string(set.path.ewn);
    proof {
        lemma_insert_all_push(Seq::<(String, String)>::empty(), e, (k, v));
        let e2 = e.push((k, v));
        assert(e2.drop_last() =~= e);
        assert(full_overrides_ok(*set, e2));
        e = e2;
    }
    ov.insert(k, v);
    Ghost(e)
}

#[verifier::rlimit(60)]
fn full_overrides_3(ov: &mut StrMap<String>, set: &SymbolSet, Ghost(e0): Ghost<Seq<(String, String)>>) -> (e: Ghost<Seq<(String, String)>>)
    requires
        old(ov).pairs() == insert_all(Seq::<(String, String)>::empty(), e0),
        full_overrides_ok(*set, e0),
        e0.len() == 42,
    ensures
        final(ov).pairs() == insert_all(Seq::<(String, String)>::empty(), e@),
        full_overrides_ok(*set, e@),
        e@.len() == 56,
{
    let ghost mut e = e0;
    let k = owned("path.cross");
    let v = glyph_string(set.path.nesw);
    proof {
        lemma_insert_all_push(Seq::<(String, String)>::empty(), e, (k, v));
        let e2 = e.push((k, v));
        assert(e2.drop_last() =~= e);
        assert(full_overrides_ok(*set, e2));
        e = e2;
    }
    ov.insert(k, v);
    let k = owned("path.diag_ul");
    let v = glyph_string(set.path.diag_ul);
    proof {
        lemma_insert_all_push(Seq::<(String, String)>::empty(), e, (k, v));
        let e2 = e.push((k, v));
        assert(e2.drop_last() =~= e);
        assert(full_overrides_ok(*set, e2));
        e = e2;
    }
    ov.insert(k, v);
    let k = owned("path.diag_ur");
    let v = glyph_string(set.path.diag_ur);
    proof {
        lemma_insert_all_push(Seq::<(String, String)>::empty(), e, (k, v));
        let e2 = e.push((k, v));
        assert(e2.drop_last() =~= e);
        assert(full_overrides_ok(*set, e2));
        e = e2;
    }
    ov.insert(k, v);
    let k = owned("path.diag_ll");
    let v = glyph_string(set.path.diag_ll);
    proof {
        lemma_insert_all_push(Seq::<(String, String)>::empty(), e, (k, v));
        let e2 = e.push((k, v));
        assert(e2.drop_last() =~= e);
        assert(full_overrides_ok(*set, e2));
        e = e2;
    }
    ov.insert(k, v);
    let k = owned("path.diag_lr");
    let v = glyph_string(set.path.diag_lr);
    proof {
        lemma_insert_all_push(Seq::<(String, String)>::empty(), e, (k, v));
        let e2 = e.push((k, v));
        assert(e2.drop_last() =~= e);
        assert(full_overrides_ok(*set, e2));
        e = e2;
    }
    ov.insert(k, v);
    let k = owned("portal.up");
    let v = glyph_string(set.portal.up);
    proof {
        lemma_insert_all_push(Seq::<(String, String)>::empty(), e, (k, v));
        let e2 = e.push((k, v));
        assert(e2.drop_last() =~= e);
        assert(full_overrides_ok(*set, e2));
        e = e2;
    }
    ov.insert(k, v);
    let k = owned("portal.down");
    let v = glyph_string(set.portal.down);
    proof {
        lemma_insert_all_push(Seq::<(String, String)>::empty(), e, (k, v));
        let e2 = e.push((k, v));
        assert(e2.drop_last() =~= e);
        assert(full_overrides_ok(*set, e2));
        e = e2;
    }
    ov.insert(k, v);
    let k = owned("portal.in");
    let v = glyph_string(set.portal.in_);
    proof {
        lemma_insert_all_push(Seq::<(String, String)>::empty(), e, (k, v));
        let e2 = e.push((k, v));
        assert(e2.drop_last() =~= e);
        assert(full_overrides_ok(*set, e2));
        e = e2;
    }
    ov.insert(k, v);
    let k = owned("portal.out");
    let v = glyph_string(set.portal.out);
    proof {
        lemma_insert_all_push(Seq::<(String, String)>::empty(), e, (k, v));
        let e2 = e.push((k, v));
        assert(e2.drop_last() =~= e);
        assert(full_overrides_ok(*set, e2));
        e = e2;
    }
    ov.insert(k, v);
    let k = owned("portal.unknown");
    let v = glyph_string(set.portal.unknown);
    proof {
        lemma_insert_all_push(Seq::<(String, String)>::empty(), e, (k, v));
        let e2 = e.push((k, v));
        assert(e2.drop_last() =~= e);
        assert(full_overrides_ok(*set, e2));
        e = e2;
    }
    ov.insert(k, v);
    let k = owned("portal.path");
    let v = glyph_string(set.portal.path);
    proof {
        lemma_insert_all_push(Seq::<(String, String)>::empty(), e, (k, v));
        let e2 = e.push((k, v));
        assert(e2.drop_last() =~= e);
        assert(full_overrides_ok(*set, e2));
        e = e2;
    }
    ov.insert(k, v);
    let k = owned("portal.marker");
    let v = glyph_string(set.portal.marker);
    proof {
        lemma_insert_all_push(Seq::<(String, String)>::empty(), e, (k, v));
        let e2 = e.push((k, v));
        assert(e2.drop_last() =~= e);
        assert(full_overrides_ok(*set, e2));
        e = e2;
    }
    ov.insert(k, v);
    let k = owned("gutter.meta");
    let v = glyph_string(set.meta_gutter);
    proof {
        lemma_insert_all_push(Seq::<(String, String)>::empty(), e, (k, v));
        let e2 = e.push((k, v));
        assert(e2.drop_last() =~= e);
        assert(full_overrides_ok(*set, e2));
        e = e2;
    }
    ov.insert(k, v);
    let k = owned("gutter.warning");
    let v = glyph_string(set.warning_gutter);
    proof {
        lemma_insert_all_push(Seq::<(String, String)>::empty(), e, (k, v));
        let e2 = e.push((k, v));
        assert(e2.drop_last() =~= e);
        assert(full_overrides_ok(*set, e2));
        e = e2;
    }
    ov.insert(k, v);
    Ghost(e)
}

#[verifier::rlimit(60)]
fn full_overrides_4(ov: &mut StrMap<String>, set: &SymbolSet, Ghost(e0): Ghost<Seq<(String, String)>>) -> (e: Ghost<Seq<(String, String)>>)
    requires
        old(ov).pairs() == insert_all(Seq::<(String, String)>::empty(), e0),
        full_overrides_ok(*set, e0),
        e0.len() == 56,
    ensures
        final(ov).pairs() == insert_all(Seq::<(String, String)>::empty(), e@),
        full_overrides_ok(*set, e@),
        e@.len() == 70,
{
    let ghost mut e = e0;
    let k = owned("tile.wall_h");
    let v = glyph_string(set.tiles.walls.h);
    proof {
        lemma_insert_all_push(Seq::<(String, String)>::empty(), e, (k, v));
        let e2 = e.push((k, v));
        assert(e2.drop_last() =~= e);
        assert(full_overrides_ok(*set, e2));
        e = e2;
    }
    ov.insert(k, v);
    let k = owned("tile.wall_v");
    let v = glyph_string(set.tiles.walls.v);
    proof {
        lemma_insert_all_push(Seq::<(String, String)>::empty(), e, (k, v));
        let e2 = e.push((k, v));
        assert(e2.drop_last() =~= e);
        assert(full_overrides_ok(*set, e2));
        e = e2;
    }
    ov.insert(k, v);
    let k = owned("tile.wall_tl");
    let v = glyph_string(set.tiles.walls.tl);
    proof {
        lemma_insert_all_push(Seq::<(String, String)>::empty(), e, (k, v));
        let e2 = e.push((k, v));
        assert(e2.drop_last() =~= e);
        assert(full_overrides_ok(*set, e2));
        e = e2;
    }
    ov.insert(k, v);
    let k = owned("tile.wall_tr");
    let v = glyph_string(set.tiles.walls.tr);
    proof {
        lemma_insert_all_push(Seq::<(String, String)>::empty(), e, (k, v));
        let e2 = e.push((k, v));
        assert(e2.drop_last() =~= e);
        assert(full_overrides_ok(*set, e2));
        e = e2;
    }
    ov.insert(k, v);
    let k = owned("tile.wall_bl");
    let v = glyph_string(set.tiles.walls.bl);
    proof {
        lemma_insert_all_push(Seq::<(String, String)>::empty(), e, (k, v));
        let e2 = e.push((k, v));
        assert(e2.drop_last() =~= e);
        assert(full_overrides_ok(*set, e2));
        e = e2;
    }
    ov.insert(k, v);
    let k = owned("tile.wall_br");
    let v = glyph_string(set.tiles.walls.br);
    proof {
        lemma_insert_all_push(Seq::<(String, String)>::empty(), e, (k, v));
        let e2 = e.push((k, v));
        assert(e2.drop_last() =~= e);
        assert(full_overrides_ok(*set, e2));
        e = e2;
    }
    ov.insert(k, v);
    let k = owned("tile.wall_tee_n");
    let v = glyph_string(set.tiles.walls.tee_n);
    proof {
        lemma_insert_all_push(Seq::<(String, String)>::empty(), e, (k, v));
        let e2 = e.push((k, v));
        assert(e2.drop_last() =~= e);
        assert(full_overrides_ok(*set, e2));
        e = e2;
    }
    ov.insert(k, v);
    let k = owned("tile.wall_tee_s");
    let v = glyph_string(set.tiles.walls.tee_s);
    proof {
        lemma_insert_all_push(Seq::<(String, String)>::empty(), e, (k, v));
        let e2 = e.push((k, v));
        assert(e2.drop_last() =~= e);
        assert(full_overrides_ok(*set, e2));
        e = e2;
    }
    ov.insert(k, v);
    let k = owned("tile.wall_tee_e");
    let v = glyph_string(set.tiles.walls.tee_e);
    proof {
        lemma_insert_all_push(Seq::<(String, String)>::empty(), e, (k, v));
        let e2 = e.push((k, v));
        assert(e2.drop_last() =~= e);
        assert(full_overrides_ok(*set, e2));
        e = e2;
    }
    ov.insert(k, v);
    let k = owned("tile.wall_tee_w");
    let v = glyph_string(set.tiles.walls.tee_w);
    proof {
        lemma_insert_all_push(Seq::<(String, String)>::empty(), e, (k, v));
        let e2 = e.push((k, v));
        assert(e2.drop_last() =~= e);
        assert(full_overrides_ok(*set, e2));
        e = e2;
    }
    ov.insert(k, v);
    let k = owned("tile.wall_cross");
    let v = glyph_string(set.tiles.walls.cross);
    proof {
        lemma_insert_all_push(Seq::<(String, String)>::empty(), e, (k, v));
        let e2 = e.push((k, v));
        assert(e2.drop_last() =~= e);
        assert(full_overrides_ok(*set, e2));
        e = e2;
    }
    ov.insert(k, v);
    let k = owned("tile.floor");
    let v = glyph_string(set.tiles.floor);
    proof {
        lemma_insert_all_push(Seq::<(String, String)>::empty(), e, (k, v));
        let e2 = e.push((k, v));
        assert(e2.drop_last() =~= e);
        assert(full_overrides_ok(*set, e2));
        e = e2;
    }
    ov.insert(k, v);
    let k = owned("tile.door_h");
    let v = glyph_string(set.tiles.door_h);
    proof {
        lemma_insert_all_push(Seq::<(String, String)>::empty(), e, (k, v));
        let e2 = e.push((k, v));
        assert(e2.drop_last() =~= e);
        assert(full_overrides_ok(*set, e2));
        e = e2;
    }
    ov.insert(k, v);
    let k = owned("tile.door_v");
    let v = glyph_string(set.tiles.door_v);
    proof {
        lemma_insert_all_push(Seq::<(String, String)>::empty(), e, (k, v));
        let e2 = e.push((k, v));
        assert(e2.drop_last() =~= e);
        assert(full_overrides_ok(*set, e2));
        e = e2;
    }
    ov.insert(k, v);
    Ghost(e)
}

#[verifier::rlimit(60)]
fn full_overrides_5(ov: &mut StrMap<String>, set: &SymbolSet, Ghost(e0): Ghost<Seq<(String, String)>>) -> (e: Ghost<Seq<(String, String)>>)
    requires
        old(ov).pairs() == insert_all(Seq::<(String, String)>::empty(), e0),
        full_overrides_ok(*set, e0),
        e0.len() == 70,
    ensures
        final(ov).pairs() == insert_all(Seq::<(String, String)>::empty(), e@),
        full_overrides_ok(*set, e@),
        e@.len() == 84,
{
    let ghost mut e = e0;
    let k = owned("tile.door_n");
    let v = glyph_string(set.tiles.door_n);
    proof {
        lemma_insert_all_push(Seq::<(String, String)>::empty(), e, (k, v));
        let e2 = e.push((k, v));
        assert(e2.drop_last() =~= e);
        assert(full_overrides_ok(*set, e2));
        e = e2;
    }
    ov.insert(k, v);
    let k = owned("tile.door_e");
    let v = glyph_string(set.tiles.door_e);
    proof {
        lemma_insert_all_push(Seq::<(String, String)>::empty(), e, (k, v));
        let e2 = e.push((k, v));
        assert(e2.drop_last() =~= e);
        assert(full_overrides_ok(*set, e2));
        e = e2;
    }
    ov.insert(k, v);
    let k = owned("tile.door_s");
    let v = glyph_string(set.tiles.door_s);
    proof {
        lemma_insert_all_push(Seq::<(String, String)>::empty(), e, (k, v));
        let e2 = e.push((k, v));
        assert(e2.drop_last() =~= e);
        assert(full_overrides_ok(*set, e2));
        e = e2;
    }
    ov.insert(k, v);
    let k = owned("tile.door_w");
    let v = glyph_string(set.tiles.door_w);
    proof {
        lemma_insert_all_push(Seq::<(String, String)>::empty(), e, (k, v));
        let e2 = e.push((k, v));
        assert(e2.drop_last() =~= e);
        assert(full_overrides_ok(*set, e2));
        e = e2;
    }
    ov.insert(k, v);
    let k = owned("tile.door_stub");
    let v = glyph_string(set.tiles.door_stub);
    proof {
        lemma_insert_all_push(Seq::<(String, String)>::empty(), e, (k, v));
        let e2 = e.push((k, v));
        assert(e2.drop_last() =~= e);
        assert(full_overrides_ok(*set, e2));
        e = e2;
    }
    ov.insert(k, v);
    let k = owned("tile.dash_h");
    let v = glyph_string(set.tiles.dash_h);
    proof {
        lemma_insert_all_push(Seq::<(String, String)>::empty(), e, (k, v));
        let e2 = e.push((k, v));
        assert(e2.drop_last() =~= e);
        assert(full_overrides_ok(*set, e2));
        e = e2;
    }
    ov.insert(k, v);
    let k = owned("tile.dash_v");
    let v = glyph_string(set.tiles.dash_v);
    proof {
        lemma_insert_all_push(Seq::<(String, String)>::empty(), e, (k, v));
        let e2 = e.push((k, v));
        assert(e2.drop_last() =~= e);
        assert(full_overrides_ok(*set, e2));
        e = e2;
    }
    ov.insert(k, v);
    let k = owned("tile.diag_up");
    let v = glyph_string(set.tiles.diag_up);
    proof {
        lemma_insert_all_push(Seq::<(String, String)>::empty(), e, (k, v));
        let e2 = e.push((k, v));
        assert(e2.drop_last() =~= e);
        assert(full_overrides_ok(*set, e2));
        e = e2;
    }
    ov.insert(k, v);
    let k = owned("tile.diag_down");
    let v = glyph_string(set.tiles.diag_down);
    proof {
        lemma_insert_all_push(Seq::<(String, String)>::empty(), e, (k, v));
        let e2 = e.push((k, v));
        assert(e2.drop_last() =~= e);
        assert(full_overrides_ok(*set, e2));
        e = e2;
    }
    ov.insert(k, v);
    let k = owned("tile.bridge");
    let v = glyph_string(set.tiles.bridge);
    proof {
        lemma_insert_all_push(Seq::<(String, String)>::empty(), e, (k, v));
        let e2 = e.push((k, v));
        assert(e2.drop_last() =~= e);
        assert(full_overrides_ok(*set, e2));
        e = e2;
    }
    ov.insert(k, v);
    let k = owned("tile.bridge_v");
    let v = glyph_string(set.tiles.bridge_v);
    proof {
        lemma_insert_all_push(Seq::<(String, String)>::empty(), e, (k, v));
        let e2 = e.push((k, v));
        assert(e2.drop_last() =~= e);
        assert(full_overrides_ok(*set, e2));
        e = e2;
    }
    ov.insert(k, v);
    let k = owned("tile.stairs_up");
    let v = glyph_string(set.tiles.stairs_up);
    proof {
        lemma_insert_all_push(Seq::<(String, String)>::empty(), e, (k, v));
        let e2 = e.push((k, v));
        assert(e2.drop_last() =~= e);
        assert(full_overrides_ok(*set, e2));
        e = e2;
    }
    ov.insert(k, v);
    let k = owned("tile.stairs_down");
    let v = glyph_string(set.tiles.stairs_down);
    proof {
        lemma_insert_all_push(Seq::<(String, String)>::empty(), e, (k, v));
        let e2 = e.push((k, v));
        assert(e2.drop_last() =~= e);
        assert(full_overrides_ok(*set, e2));
        e = e2;
    }
    ov.insert(k, v);
    let k = owned("tile.portal_in");
    let v = glyph_string(set.tiles.portal_in);
    proof {
        lemma_insert_all_push(Seq::<(String, String)>::empty(), e, (k, v));
        let e2 = e.push((k, v));
        assert(e2.drop_last() =~= e);
        assert(full_overrides_ok(*set, e2));
        e = e2;
    }
    ov.insert(k, v);
    Ghost(e)
}

#[verifier::rlimit(60)]
fn full_overrides_6(ov: &mut StrMap<String>, set: &SymbolSet, Ghost(e0): Ghost<Seq<(String, String)>>) -> (e: Ghost<Seq<(String, String)>>)
    requires
        old(ov).pairs() == insert_all(Seq::<(String, String)>::empty(), e0),
        full_overrides_ok(*set, e0),
        e0.len() == 84,
    ensures
        final(ov).pairs() == insert_all(Seq::<(String, String)>::empty(), e@),
        full_overrides_ok(*set, e@),
        e@.len() == 86,
{
    let ghost mut e = e0;
    let k = owned("tile.portal_out");
    let v = glyph_string(set.tiles.portal_out);
    proof {
        lemma_insert_all_push(Seq::<(String, String)>::empty(), e, (k, v));
        let e2 = e.push((k, v));
        assert(e2.drop_last() =~= e);
        assert(full_overrides_ok(*set, e2));
        e = e2;
    }
    ov.insert(k, v);
    let k = owned("tile.player");
    let v = glyph_string(set.tiles.player);
    proof {
        lemma_insert_all_push(Seq::<(String, String)>::empty(), e, (k, v));
        let e2 = e.push((k, v));
        assert(e2.drop_last() =~= e);
        assert(full_overrides_ok(*set, e2));
        e = e2;
    }
    ov.insert(k, v);
    Ghost(e)
}

/// `doc` is the self-contained export of `cs` and `set`: every selector with
/// its full declaration (both colors spelled out), every glyph slot as an
/// override, the default preset names and the diagonal switch, and the
/// transcript rules and status-bar segments of `cs`.
pub open spec fn is_full_export(doc: StyleDoc, cs: ColorScheme, set: SymbolSet) -> bool {
    &&& doc.colors.scheme is None
    &&& exists|e: Seq<(String, Decl)>| #![trigger full_entries_ok(cs, e)]
        e.len() == full_key_count() && full_entries_ok(cs, e)
            && doc.colors.selectors.pairs() == insert_all(Seq::<(String, Decl)>::empty(), e)
    &&& exists|e: Seq<(String, String)>| #![trigger full_overrides_ok(set, e)]
        e.len() == full_override_count() && full_overrides_ok(set, e)
            && doc.symbols.overrides.pairs() == insert_all(Seq::<(String, String)>::empty(), e)
    &&& opt_view(doc.symbols.box_style) == Some(spec_default_box_style())
    &&& opt_view(doc.symbols.arrow_set) == Some(spec_default_arrow_set())
    &&& opt_view(doc.symbols.portal_icons) == Some(spec_default_portal_icons())
    &&& opt_view(doc.symbols.path_style) == Some(spec_default_path_style())
    &&& doc.symbols.badge_zcode is None
    &&& doc.symbols.badge_glulx is None
    &&& doc.symbols.badge_blorb is None
    &&& doc.symbols.badge_save is None
    &&& doc.symbols.badge_hint is None
    &&& doc.symbols.diagonal_corners == Some(set.diagonal_corners)
    &&& doc.transcript_rules@.len() == cs.transcript_rules@.len()
    &&& forall|i: int| 0 <= i < doc.transcript_rules@.len() ==> {
        &&& (#[trigger] doc.transcript_rules@[i]).pattern@ == cs.transcript_rules@[i].pattern@
        &&& writes_style(doc.transcript_rules@[i].decl, cs.transcript_rules@[i].style)
    }
    &&& doc.status_bar.border is None
    &&& doc.status_bar.border_fg is None
    &&& doc.status_bar.segments@.len() == cs.statusbar_layout.segments@.len()
    &&& forall|i: int| 0 <= i < doc.status_bar.segments@.len() ==> {
        &&& (#[trigger] doc.status_bar.segments@[i]).text@ == cs.statusbar_layout.segments@[i].text@
        &&& doc.status_bar.segments@[i].align@ == spec_align_str(cs.statusbar_layout.segments@[i].align)@
        &&& writes_style(doc.status_bar.segments@[i].decl, cs.statusbar_layout.segments@[i].style)
    }
}

/// The fully expanded, self-contained style document of a scheme and a symbol
/// set (what a full style file holds), so that resolving it with no base scheme
/// reproduces them.
pub fn full_style_doc(cs: &ColorScheme, set: &SymbolSet) -> (doc: StyleDoc)
    ensures
        is_full_export(doc, *cs, *set),
{
    let mut sel: StrMap<Decl> = StrMap::new();
    let e = Ghost(Seq::<(String, Decl)>::empty());
    assert(insert_all(Seq::<(String, Decl)>::empty(), Seq::<(String, Decl)>::empty()) == Seq::<(String, Decl)>::empty());
    let e = full_selectors_0(&mut sel, cs, e);
    let e = full_selectors_1(&mut sel, cs, e);
    let e = full_selectors_2(&mut sel, cs, e);
    let e = full_selectors_3(&mut sel, cs, e);
    let e = full_selectors_4(&mut sel, cs, e);
    let e = full_selectors_5(&mut sel, cs, e);
    let e = full_selectors_6(&mut sel, cs, e);
    let e = full_selectors_7(&mut sel, cs, e);
    let mut ov: StrMap<String> = StrMap::new();
    let oe = Ghost(Seq::<(String, String)>::empty());
    assert(insert_all(Seq::<(String, String)>::empty(), Seq::<(String, String)>::empty()) == Seq::<(String, String)>::empty());
    let oe = full_overrides_0(&mut ov, set, oe);
    let oe = full_overrides_1(&mut ov, set, oe);
    let oe = full_overrides_2(&mut ov, set, oe);
    let oe = full_overrides_3(&mut ov, set, oe);
    let oe = full_overrides_4(&mut ov, set, oe);
    let oe = full_overrides_5(&mut ov, set, oe);
    let oe = full_overrides_6(&mut ov, set, oe);
    let mut rules: Vec<RawRule> = Vec::new();
    let mut i: usize = 0;
    while i < cs.transcript_rules.len()
        invariant
            i <= cs.transcript_rules@.len(),
            rules@.len() == i,
            forall|j: int| 0 <= j < i ==> {
                &&& (#[trigger] rules@[j]).pattern@ == cs.transcript_rules@[j].pattern@
                &&& writes_style(rules@[j].decl, cs.transcript_rules@[j].style)
            },
        decreases cs.transcript_rules@.len() - i,
    {
        let rule = &cs.transcript_rules[i];
        rules.push(RawRule { pattern: rule.pattern.clone(), decl: style_to_decl(&rule.style) });
        i += 1;
    }
    let mut segs: Vec<RawSegment> = Vec::new();
    let mut j: usize = 0;
    while j < cs.statusbar_layout.segments.len()
        invariant
            j <= cs.statusbar_layout.segments@.len(),
            segs@.len() == j,
            forall|k: int| 0 <= k < j ==> {
                &&& (#[trigger] segs@[k]).text@ == cs.statusbar_layout.segments@[k].text@
                &&& segs@[k].align@ == spec_align_str(cs.statusbar_layout.segments@[k].align)@
                &&& writes_style(segs@[k].decl, cs.statusbar_layout.segments@[k].style)
            },
        decreases cs.statusbar_layout.segments@.len() - j,
    {
        let seg = &cs.statusbar_layout.segments[j];
        segs.push(RawSegment { text: seg.text.clone(), align: owned(seg.align.as_str()), decl: style_to_decl(&seg.style) });
        j += 1;
    }
    let symbols = StyleSymbols {
        box_style: Some(default_box_style()),
        arrow_set: Some(default_arrow_set()),
        portal_icons: Some(default_portal_icons()),
        path_style: Some(default_path_style()),
        badge_zcode: None,
        badge_glulx: None,
        badge_blorb: None,
        badge_save: None,
        badge_hint: None,
        diagonal_corners: Some(set.diagonal_corners),
        overrides: ov,
    };
    let doc = StyleDoc {
        colors: StyleColors { scheme: None, selectors: sel },
        symbols,
        transcript_rules: rules,
        status_bar: RawStatusBar { border: None, border_fg: None, segments: segs },
    };
    assert(full_entries_ok(*cs, e@));
    assert(full_overrides_ok(*set, oe@));
    doc
}

// ── Resolving a document ─────────────────────────────────────────────────────

/// What compiling `pattern` with `regex::Regex::new` gives: `Ok` for a valid
/// regular expression, else the error's message.
pub uninterp spec fn regex_compile(pattern: Seq<char>) -> Result<(), Seq<char>>;

/// The message of the error that compiling `pattern` gives.
pub open spec fn compile_error_text(pattern: Seq<char>) -> Seq<char> {
    match regex_compile(pattern) {
        Ok(_) => seq![],
        Err(m) => m,
    }
}

/// Compiles a transcript-rule pattern with `regex::Regex::new`. Claimed: whether
/// the pattern compiles, and the error's message when it does not, are
/// `regex_compile` of the pattern. What the compiled expression matches is not
/// stated.
#[verifier::external_body]
fn compile_regex(pattern: &str) -> (r: Result<regex::Regex, String>)
    ensures
        r is Ok <==> regex_compile(pattern@) is Ok,
        r matches Err(e) ==> e@ == compile_error_text(pattern@),
{
    match regex::Regex::new(pattern) {
        Ok(re) => Ok(re),
        Err(e) => Err(e.to_string()),
    }
}

/// The rules of `rs` whose patterns compile, in order.
pub open spec fn compiling_rules(rs: Seq<RawRule>) -> Seq<RawRule>
    decreases rs.len(),
{
    if rs.len() == 0 {
        seq![]
    } else {
        let front = compiling_rules(rs.drop_last());
        if regex_compile(rs.last().pattern@) is Ok {
            front.push(rs.last())
        } else {
            front
        }
    }
}

/// One warning per rule of `rs` whose pattern does not compile, in order.
pub open spec fn rule_warnings(rs: Seq<RawRule>) -> Seq<Seq<char>>
    decreases rs.len(),
{
    if rs.len() == 0 {
        seq![]
    } else {
        let front = rule_warnings(rs.drop_last());
        match regex_compile(rs.last().pattern@) {
            Ok(_) => front,
            Err(e) => front.push("invalid transcript rule regex '"@ + rs.last().pattern@ + "': "@ + e),
        }
    }
}

/// The cluster a segment's `align` names; anything else is `Left`.
pub open spec fn spec_align_of(s: Seq<char>) -> Align {
    if s == "left"@ {
        Align::Left
    } else if s == "center"@ {
        Align::Center
    } else if s == "right"@ {
        Align::Right
    } else {
        Align::Left
    }
}

/// One warning per segment whose `align` is not a cluster name, in order.
pub open spec fn align_warnings(segs: Seq<RawSegment>) -> Seq<Seq<char>>
    decreases segs.len(),
{
    if segs.len() == 0 {
        seq![]
    } else {
        let front = align_warnings(segs.drop_last());
        let a = segs.last().align@;
        if a == "left"@ || a == "center"@ || a == "right"@ {
            front
        } else {
            front.push("unknown statusbar align '"@ + a + "'; using left"@)
        }
    }
}

/// `r` is the scheme that `doc` resolves to over the base `base`: the selector
/// declarations applied in key order; the compiling transcript rules appended
/// with their styles; the status-bar segments (when the document has any)
/// replacing the layout; the status-bar frame and frame color set on the
/// status header.
pub open spec fn is_resolution(doc: StyleDoc, base: ColorScheme, gs: GhosttyScheme, r: ColorScheme) -> bool {
    let a = spec_apply_decls(base, doc.colors.selectors.pairs(), gs);
    let ok = compiling_rules(doc.transcript_rules@);
    let n = a.transcript_rules@.len();
    let segs = doc.status_bar.segments@;
    &&& r == ColorScheme {
        transcript_rules: r.transcript_rules,
        statusbar_layout: r.statusbar_layout,
        status_header_style: r.status_header_style,
        status_header: r.status_header,
        ..a
    }
    &&& r.transcript_rules@.len() == n + ok.len()
    &&& forall|k: int| 0 <= k < n ==> #[trigger] r.transcript_rules@[k] == a.transcript_rules@[k]
    &&& forall|j: int| 0 <= j < ok.len() ==> {
        &&& (#[trigger] r.transcript_rules@[n + j]).pattern@ == ok[j].pattern@
        &&& r.transcript_rules@[n + j].style == spec_decl_to_style(ok[j].decl, gs)
    }
    &&& if segs.len() == 0 {
        r.statusbar_layout == a.statusbar_layout
    } else {
        &&& r.statusbar_layout.segments@.len() == segs.len()
        &&& forall|i: int| 0 <= i < segs.len() ==> {
            &&& (#[trigger] r.statusbar_layout.segments@[i]).text@ == segs[i].text@
            &&& r.statusbar_layout.segments@[i].align == spec_align_of(segs[i].align@)
            &&& r.statusbar_layout.segments@[i].style == spec_decl_to_style(segs[i].decl, gs)
        }
    }
    &&& r.status_header_style == side_style(doc.status_bar.border, a.status_header_style)
    &&& r.status_header == match doc.status_bar.border_fg {
        Some(c) => match spec_parse_color_value(c@, gs) {
            Some(col) => Style { fg: Some(col), ..a.status_header },
            None => a.status_header,
        },
        None => a.status_header,
    }
}

/// The warnings of resolving `doc`, after those of the base: unknown selectors,
/// then rules that do not compile, then unknown segment alignments.
pub open spec fn resolution_warnings(doc: StyleDoc) -> Seq<Seq<char>> {
    unknown_selector_warnings(doc.colors.selectors.pairs()) + rule_warnings(doc.transcript_rules@) + if doc.status_bar.segments@.len() == 0 {
        Seq::<Seq<char>>::empty()
    } else {
        align_warnings(doc.status_bar.segments@)
    }
}

/// `cfg` is what [`finalize_symbols`] makes of `s`.
pub open spec fn is_finalized(s: StyleSymbols, cfg: SymbolConfig) -> bool {
    &&& cfg.box_style@ == preset_or(s.box_style, spec_default_box_style())
    &&& cfg.arrow_set@ == preset_or(s.arrow_set, spec_default_arrow_set())
    &&& cfg.portal_icons@ == preset_or(s.portal_icons, spec_default_portal_icons())
    &&& cfg.path_style@ == preset_or(s.path_style, spec_default_path_style())
    &&& cfg.diagonal_corners == match s.diagonal_corners {
        Some(b) => b,
        None => true,
    }
    &&& cfg.overrides.pairs() == s.overrides.pairs()
}

fn compile_rules(
    cs: &mut ColorScheme,
    warnings: &mut Vec<String>,
    rules: &Vec<RawRule>,
    gs: &GhosttyScheme,
)
    ensures
        *final(cs) == (ColorScheme { transcript_rules: final(cs).transcript_rules, ..*old(cs) }),
        final(cs).transcript_rules@.len() == old(cs).transcript_rules@.len() + compiling_rules(rules@).len(),
        forall|k: int| 0 <= k < old(cs).transcript_rules@.len() ==> #[trigger] final(cs).transcript_rules@[k] == old(cs).transcript_rules@[k],
        forall|j: int| 0 <= j < compiling_rules(rules@).len() ==> {
            &&& (#[trigger] final(cs).transcript_rules@[old(cs).transcript_rules@.len() + j]).pattern@ == compiling_rules(rules@)[j].pattern@
            &&& final(cs).transcript_rules@[old(cs).transcript_rules@.len() + j].style == spec_decl_to_style(compiling_rules(rules@)[j].decl, *gs)
        },
        strings_view(final(warnings)@) == strings_view(old(warnings)@) + rule_warnings(rules@),
{
    let ghost cs0 = *cs;
    let ghost w0 = strings_view(warnings@);
    let ghost n = cs.transcript_rules@.len();
    let mut i: usize = 0;
    assert(rules@.take(0) =~= Seq::<RawRule>::empty());
    assert(w0 + rule_warnings(rules@.take(0)) =~= w0);
    while i < rules.len()
        invariant
            i <= rules@.len(),
            n == cs0.transcript_rules@.len(),
            *cs == (ColorScheme { transcript_rules: cs.transcript_rules, ..cs0 }),
            cs.transcript_rules@.len() == n + compiling_rules(rules@.take(i as int)).len(),
            forall|k: int| 0 <= k < n ==> #[trigger] cs.transcript_rules@[k] == cs0.transcript_rules@[k],
            forall|j: int| 0 <= j < compiling_rules(rules@.take(i as int)).len() ==> {
                &&& (#[trigger] cs.transcript_rules@[n + j]).pattern@ == compiling_rules(rules@.take(i as int))[j].pattern@
                &&& cs.transcript_rules@[n + j].style == spec_decl_to_style(compiling_rules(rules@.take(i as int))[j].decl, *gs)
            },
            strings_view(warnings@) == w0 + rule_warnings(rules@.take(i as int)),
        decreases rules@.len() - i,
    {
        let r = &rules[i];
        let ghost pre = rules@.take(i as int);
        let ghost post = rules@.take(i + 1);
        assert(post.drop_last() =~= pre);
        assert(post.last() == rules@[i as int]);
        let ghost wv = strings_view(warnings@);
        match compile_regex(r.pattern.as_str()) {
            Ok(rx) => {
                let st = decl_to_style(&r.decl, gs);
                cs.transcript_rules.push(CompiledRule { pattern: r.pattern.clone(), regex: rx, style: st });
                assert(compiling_rules(post) == compiling_rules(pre).push(rules@[i as int]));
            },
            Err(e) => {
                let mut m = owned("invalid transcript rule regex '");
                m.append(r.pattern.as_str());
                m.append("': ");
                m.append(e.as_str());
                warnings.push(m);
                assert(strings_view(warnings@) =~= wv.push(
                    "invalid transcript rule regex '"@ + rules@[i as int].pattern@ + "': "@ + e@,
                ));
            },
        }
        i += 1;
    }
    assert(rules@.take(i as int) =~= rules@);
}

fn align_of(s: &str) -> (r: (Align, bool))
    ensures
        r.0 == spec_align_of(s@),
        r.1 == (s@ == "left"@ || s@ == "center"@ || s@ == "right"@),
{
    let v = chars_of(s);
    if eq_lit(&v, "left") {
        (Align::Left, true)
    } else if eq_lit(&v, "center") {
        (Align::Center, true)
    } else if eq_lit(&v, "right") {
        (Align::Right, true)
    } else {
        (Align::Left, false)
    }
}

fn compile_segments(segs: &Vec<RawSegment>, warnings: &mut Vec<String>, gs: &GhosttyScheme) -> (r: Vec<StatusSegment>)
    ensures
        r@.len() == segs@.len(),
        forall|i: int| 0 <= i < segs@.len() ==> {
            &&& (#[trigger] r@[i]).text@ == segs@[i].text@
            &&& r@[i].align == spec_align_of(segs@[i].align@)
            &&& r@[i].style == spec_decl_to_style(segs@[i].decl, *gs)
        },
        strings_view(final(warnings)@) == strings_view(old(warnings)@) + align_warnings(segs@),
{
    let ghost w0 = strings_view(warnings@);
    let mut out: Vec<StatusSegment> = Vec::new();
    let mut i: usize = 0;
    assert(segs@.take(0) =~= Seq::<RawSegment>::empty());
    assert(w0 + align_warnings(segs@.take(0)) =~= w0);
    while i < segs.len()
        invariant
            i <= segs@.len(),
            out@.len() == i,
            forall|k: int| 0 <= k < i ==> {
                &&& (#[trigger] out@[k]).text@ == segs@[k].text@
                &&& out@[k].align == spec_align_of(segs@[k].align@)
                &&& out@[k].style == spec_decl_to_style(segs@[k].decl, *gs)
            },
            strings_view(warnings@) == w0 + align_warnings(segs@.take(i as int)),
        decreases segs@.len() - i,
    {
        let raw = &segs[i];
        let ghost pre = segs@.take(i as int);
        let ghost post = segs@.take(i + 1);
        assert(post.drop_last() =~= pre);
        assert(post.last() == segs@[i as int]);
        let ghost wv = strings_view(warnings@);
        let (align, known) = align_of(raw.align.as_str());
        if !known {
            let mut m = owned("unknown statusbar align '");
            m.append(raw.align.as_str());
            m.append("'; using left");
            warnings.push(m);
            assert(strings_view(warnings@) =~= wv.push("unknown statusbar align '"@ + segs@[i as int].align@ + "'; using left"@));
        }
        out.push(StatusSegment { text: raw.text.clone(), align, style: decl_to_style(&raw.decl, gs) });
        i += 1;
    }
    assert(segs@.take(i as int) =~= segs@);
    out
}

/// Appends `more` to `warnings`.
fn append_warnings(warnings: &mut Vec<String>, more: Vec<String>)
    ensures
        strings_view(final(warnings)@) == strings_view(old(warnings)@) + strings_view(more@),
{
    let ghost m0 = more@;
    let mut more = more;
    warnings.append(&mut more);
    assert(strings_view(final(warnings)@) =~= strings_view(old(warnings)@) + strings_view(m0));
}

/// Compiles the status-bar block onto the scheme.
#[verifier::rlimit(100)]
fn compile_status_bar(cs: &mut ColorScheme, warnings: &mut Vec<String>, sb: &RawStatusBar, gs: &GhosttyScheme)
    ensures
        *final(cs) == (ColorScheme {
            statusbar_layout: final(cs).statusbar_layout,
            status_header_style: final(cs).status_header_style,
            status_header: final(cs).status_header,
            ..*old(cs)
        }),
        if sb.segments@.len() == 0 {
            final(cs).statusbar_layout == old(cs).statusbar_layout
        } else {
            &&& final(cs).statusbar_layout.segments@.len() == sb.segments@.len()
            &&& forall|i: int| 0 <= i < sb.segments@.len() ==> {
                &&& (#[trigger] final(cs).statusbar_layout.segments@[i]).text@ == sb.segments@[i].text@
                &&& final(cs).statusbar_layout.segments@[i].align == spec_align_of(sb.segments@[i].align@)
                &&& final(cs).statusbar_layout.segments@[i].style == spec_decl_to_style(sb.segments@[i].decl, *gs)
            }
        },
        final(cs).status_header_style == side_style(sb.border, old(cs).status_header_style),
        final(cs).status_header == match sb.border_fg {
            Some(c) => match spec_parse_color_value(c@, *gs) {
                Some(col) => Style { fg: Some(col), ..old(cs).status_header },
                None => old(cs).status_header,
            },
            None => old(cs).status_header,
        },
        strings_view(final(warnings)@) == strings_view(old(warnings)@) + if sb.segments@.len() == 0 {
            Seq::<Seq<char>>::empty()
        } else {
            align_warnings(sb.segments@)
        },
{
    let layout: Option<StatusBarLayout> = if sb.segments.len() > 0 {
        Some(StatusBarLayout { segments: compile_segments(&sb.segments, warnings, gs) })
    } else {
        assert(strings_view(warnings@) =~= strings_view(warnings@) + Seq::<Seq<char>>::empty());
        None
    };
    let shs = side_style_of(&sb.border, cs.status_header_style);
    let sh = match &sb.border_fg {
        Some(c) => match parse_color_value(c.as_str(), gs) {
            Some(color) => cs.status_header.fg(color),
            None => cs.status_header,
        },
        None => cs.status_header,
    };
    cs.status_header_style = shs;
    cs.status_header = sh;
    if let Some(l) = layout {
        cs.statusbar_layout = l;
    }
}

/// Resolves a document over an already built base scheme: applies the
/// selector declarations, compiles the transcript rules (a pattern that does not
/// compile warns and is skipped), compiles the status bar (segments replace the
/// layout only when there are any; an unknown `align` warns and is `left`; the
/// frame and its color go to the status header), and resolves the symbols. The
/// warnings are the base's followed by those of the document.
#[verifier::rlimit(100)]
#[verifier::spinoff_prover]
pub fn resolve_with_base(doc: &StyleDoc, base: ColorScheme, gs: &GhosttyScheme, base_warnings: Vec<String>) -> (r: (ColorScheme, SymbolSet, Vec<String>))
    ensures
        is_resolution(*doc, base, *gs, r.0),
        forall|cfg: SymbolConfig| #![trigger spec_resolve(cfg)] is_finalized(doc.symbols, cfg) ==> r.1 == spec_resolve(cfg),
        strings_view(r.2@) == strings_view(base_warnings@) + resolution_warnings(*doc),
{
    let mut cs = base;
    let mut warnings = base_warnings;
    let sel_w = apply_color_decls(&mut cs, &doc.colors.selectors, gs);
    append_warnings(&mut warnings, sel_w);
    let ghost a = cs;
    compile_rules(&mut cs, &mut warnings, &doc.transcript_rules, gs);
    let ghost after_rules = cs;
    compile_status_bar(&mut cs, &mut warnings, &doc.status_bar, gs);
    let cfg = finalize_symbols(&doc.symbols);
    let set = SymbolSet::resolve(&cfg);
    proof {
        assert forall|c2: SymbolConfig| #![trigger spec_resolve(c2)] is_finalized(doc.symbols, c2) implies set == spec_resolve(c2) by {
            assert(spec_preset_base(c2) == spec_preset_base(cfg));
        }
    }
    (cs, set, warnings)
}

/// Resolves a document into a scheme, a symbol set and warnings. The base is
/// the terminal-default scheme; a named color scheme cannot be loaded by the
/// library, so naming one warns and keeps the terminal default.
pub fn resolve(doc: &StyleDoc) -> (r: (ColorScheme, SymbolSet, Vec<String>))
    ensures
        exists|base: ColorScheme, gs: GhosttyScheme|
            is_terminal_default(base) && gs.palette@.len() == 0 && is_resolution(*doc, base, gs, r.0),
        forall|cfg: SymbolConfig| #![trigger spec_resolve(cfg)] is_finalized(doc.symbols, cfg) ==> r.1 == spec_resolve(cfg),
        strings_view(r.2@) == scheme_warnings(doc.colors.scheme) + resolution_warnings(*doc),
{
    let base = ColorScheme::terminal_default();
    let gs = GhosttyScheme::default();
    let mut warnings: Vec<String> = Vec::new();
    if let Some(name) = &doc.colors.scheme {
        let mut m = owned("color scheme '");
        m.append(name.as_str());
        m.append("' is not available; using the terminal's colors");
        warnings.push(m);
    }
    assert(strings_view(warnings@) =~= scheme_warnings(doc.colors.scheme));
    let ghost b = base;
    let r = resolve_with_base(doc, base, &gs, warnings);
    assert(is_terminal_default(b) && gs.palette@.len() == 0 && is_resolution(*doc, b, gs, r.0));
    r
}

/// The warning for a named color scheme, which the library cannot load.
pub open spec fn scheme_warnings(scheme: Option<String>) -> Seq<Seq<char>> {
    match scheme {
        Some(name) => seq!["color scheme '"@ + name@ + "' is not available; using the terminal's colors"@],
        None => seq![],
    }
}

// ── Reading a style file ─────────────────────────────────────────────────────

/// A TOML value as the style parser reads it; floats and date-times, which no
/// style key takes, are `Other`.
#[derive(Debug)]
pub enum TomlValue {
    Str(String),
    Int(i64),
    Bool(bool),
    Array(Vec<TomlValue>),
    Table(Vec<(String, TomlValue)>),
    Other,
}

/// [`TomlValue`] with its strings as character sequences.
pub enum TomlView {
    Str(Seq<char>),
    Int(int),
    Bool(bool),
    Array(Seq<TomlView>),
    Table(Seq<(Seq<char>, TomlView)>),
    Other,
}

/// The view of a TOML value.
pub open spec fn toml_view(v: TomlValue) -> TomlView
    decreases v,
{
    match v {
        TomlValue::Str(s) => TomlView::Str(s@),
        TomlValue::Int(n) => TomlView::Int(n as int),
        TomlValue::Bool(b) => TomlView::Bool(b),
        TomlValue::Array(a) => TomlView::Array(
            Seq::new(
                a@.len(),
                |i: int|
                    if 0 <= i < a@.len() {
                        toml_view(a@[i])
                    } else {
                        TomlView::Other
                    },
            ),
        ),
        TomlValue::Table(t) => TomlView::Table(
            Seq::new(
                t@.len(),
                |i: int|
                    if 0 <= i < t@.len() {
                        (t@[i].0@, toml_view(t@[i].1))
                    } else {
                        (Seq::<char>::empty(), TomlView::Other)
                    },
            ),
        ),
        TomlValue::Other => TomlView::Other,
    }
}

impl View for TomlValue {
    type V = TomlView;

    open spec fn view(&self) -> TomlView {
        toml_view(*self)
    }
}

/// The view of a table's entries.
pub open spec fn tv(t: Seq<(String, TomlValue)>) -> Seq<(Seq<char>, TomlView)> {
    Seq::new(
        t.len(),
        |i: int|
            if 0 <= i < t.len() {
                (t[i].0@, toml_view(t[i].1))
            } else {
                (Seq::<char>::empty(), TomlView::Other)
            },
    )
}

/// The view of an array's items.
pub open spec fn av(a: Seq<TomlValue>) -> Seq<TomlView> {
    Seq::new(
        a.len(),
        |i: int|
            if 0 <= i < a.len() {
                toml_view(a[i])
            } else {
                TomlView::Other
            },
    )
}

/// The value bound to `key` in a table (the last binding: a parsed table has
/// no key twice).
pub open spec fn tget(t: Seq<(Seq<char>, TomlView)>, key: Seq<char>) -> Option<TomlView>
    decreases t.len(),
{
    if t.len() == 0 {
        None
    } else if t.last().0 == key {
        Some(t.last().1)
    } else {
        tget(t.drop_last(), key)
    }
}

/// The string bound to `key`, if it is one.
pub open spec fn get_str(t: Seq<(Seq<char>, TomlView)>, key: Seq<char>) -> Option<Seq<char>> {
    match tget(t, key) {
        Some(TomlView::Str(s)) => Some(s),
        _ => None,
    }
}

/// The boolean bound to `key`, if it is one.
pub open spec fn get_bool(t: Seq<(Seq<char>, TomlView)>, key: Seq<char>) -> Option<bool> {
    match tget(t, key) {
        Some(TomlView::Bool(b)) => Some(b),
        _ => None,
    }
}

/// The integer bound to `key`, if it is one.
pub open spec fn get_int(t: Seq<(Seq<char>, TomlView)>, key: Seq<char>) -> Option<int> {
    match tget(t, key) {
        Some(TomlView::Int(n)) => Some(n),
        _ => None,
    }
}

/// The table bound to `key`, if it is one.
pub open spec fn get_table(t: Seq<(Seq<char>, TomlView)>, key: Seq<char>) -> Option<Seq<(Seq<char>, TomlView)>> {
    match tget(t, key) {
        Some(TomlView::Table(x)) => Some(x),
        _ => None,
    }
}

/// The array bound to `key`, if it is one.
pub open spec fn get_array(t: Seq<(Seq<char>, TomlView)>, key: Seq<char>) -> Option<Seq<TomlView>> {
    match tget(t, key) {
        Some(TomlView::Array(x)) => Some(x),
        _ => None,
    }
}

/// A table's entries, or none.
pub open spec fn table_or_empty(t: Option<Seq<(Seq<char>, TomlView)>>) -> Seq<(Seq<char>, TomlView)> {
    match t {
        Some(x) => x,
        None => seq![],
    }
}

/// An array's items, or none.
pub open spec fn array_or_empty(a: Option<Seq<TomlView>>) -> Seq<TomlView> {
    match a {
        Some(x) => x,
        None => seq![],
    }
}

fn table_get<'a>(t: &'a Vec<(String, TomlValue)>, key: &str) -> (r: Option<&'a TomlValue>)
    ensures
        match r {
            Some(v) => tget(tv(t@), key@) == Some(toml_view(*v)),
            None => tget(tv(t@), key@) is None,
        },
{
    let k = chars_of(key);
    let mut i: usize = t.len();
    assert(tv(t@).take(t@.len() as int) =~= tv(t@));
    while i > 0
        invariant
            i <= t@.len(),
            k@ == key@,
            tget(tv(t@), key@) == tget(tv(t@).take(i as int), key@),
        decreases i,
    {
        let kc = chars_of(t[i - 1].0.as_str());
        let ghost s = tv(t@).take(i as int);
        assert(s.last() == (t@[i - 1].0@, toml_view(t@[i - 1].1)));
        if eq_lit(&kc, key) {
            return Some(&t[i - 1].1);
        }
        assert(s.drop_last() =~= tv(t@).take(i - 1));
        i -= 1;
    }
    None
}

fn str_of(v: Option<&TomlValue>) -> (r: Option<String>)
    ensures
        opt_view(r) == match v {
            Some(x) => match toml_view(*x) {
                TomlView::Str(s) => Some(s),
                _ => None,
            },
            None => None,
        },
{
    match v {
        Some(TomlValue::Str(s)) => Some(s.clone()),
        _ => None,
    }
}

fn bool_of(v: Option<&TomlValue>) -> (r: Option<bool>)
    ensures
        r == match v {
            Some(x) => match toml_view(*x) {
                TomlView::Bool(b) => Some(b),
                _ => None,
            },
            None => None,
        },
{
    match v {
        Some(TomlValue::Bool(b)) => Some(*b),
        _ => None,
    }
}

fn int_of(v: Option<&TomlValue>) -> (r: Option<i64>)
    ensures
        match r {
            Some(n) => match v {
                Some(x) => toml_view(*x) == TomlView::Int(n as int),
                None => false,
            },
            None => match v {
                Some(x) => !(toml_view(*x) is Int),
                None => true,
            },
        },
{
    match v {
        Some(TomlValue::Int(n)) => Some(*n),
        _ => None,
    }
}

fn table_of<'a>(v: Option<&'a TomlValue>) -> (r: Option<&'a Vec<(String, TomlValue)>>)
    ensures
        match r {
            Some(t) => match v {
                Some(x) => toml_view(*x) == TomlView::Table(tv(t@)),
                None => false,
            },
            None => match v {
                Some(x) => !(toml_view(*x) is Table),
                None => true,
            },
        },
{
    match v {
        Some(TomlValue::Table(t)) => {
            assert(toml_view(TomlValue::Table(*t)) == TomlView::Table(tv(t@))) by {
                assert(toml_view(TomlValue::Table(*t))->Table_0 =~= tv(t@));
            }
            Some(t)
        },
        _ => None,
    }
}

fn array_of<'a>(v: Option<&'a TomlValue>) -> (r: Option<&'a Vec<TomlValue>>)
    ensures
        match r {
            Some(a) => match v {
                Some(x) => toml_view(*x) == TomlView::Array(av(a@)),
                None => false,
            },
            None => match v {
                Some(x) => !(toml_view(*x) is Array),
                None => true,
            },
        },
{
    match v {
        Some(TomlValue::Array(a)) => {
            assert(toml_view(TomlValue::Array(*a)) == TomlView::Array(av(a@))) by {
                assert(toml_view(TomlValue::Array(*a))->Array_0 =~= av(a@));
            }
            Some(a)
        },
        _ => None,
    }
}

/// A margin as read: the integer, truncated to `u16`.
pub open spec fn margin_of(n: Option<int>) -> Option<u16> {
    match n {
        Some(n) => Some(n as u16),
        None => None,
    }
}

/// `d` is the declaration a table spells: each string, boolean and integer key
/// of [`Decl`] read from the table, anything missing or of another type unset.
pub open spec fn decl_from(d: Decl, t: Seq<(Seq<char>, TomlView)>) -> bool {
    &&& opt_view(d.fg) == get_str(t, "fg"@)
    &&& opt_view(d.bg) == get_str(t, "bg"@)
    &&& d.bold == get_bool(t, "bold"@)
    &&& d.italic == get_bool(t, "italic"@)
    &&& d.underline == get_bool(t, "underline"@)
    &&& d.dim == get_bool(t, "dim"@)
    &&& d.reversed == get_bool(t, "reversed"@)
    &&& opt_view(d.style) == get_str(t, "style"@)
    &&& opt_view(d.style_top) == get_str(t, "style_top"@)
    &&& opt_view(d.style_bottom) == get_str(t, "style_bottom"@)
    &&& opt_view(d.style_left) == get_str(t, "style_left"@)
    &&& opt_view(d.style_right) == get_str(t, "style_right"@)
    &&& d.header == get_bool(t, "header"@)
    &&& d.shadow == get_bool(t, "shadow"@)
    &&& opt_view(d.placement) == get_str(t, "placement"@)
    &&& d.margin == margin_of(get_int(t, "margin"@))
    &&& opt_view(d.glyph_top) == get_str(t, "glyph_top"@)
    &&& opt_view(d.glyph_bottom) == get_str(t, "glyph_bottom"@)
    &&& opt_view(d.glyph_left) == get_str(t, "glyph_left"@)
    &&& opt_view(d.glyph_right) == get_str(t, "glyph_right"@)
    &&& opt_view(d.glyph_tl) == get_str(t, "glyph_tl"@)
    &&& opt_view(d.glyph_tr) == get_str(t, "glyph_tr"@)
    &&& opt_view(d.glyph_bl) == get_str(t, "glyph_bl"@)
    &&& opt_view(d.glyph_br) == get_str(t, "glyph_br"@)
}

/// Reads a declaration from a TOML table, field by field.
pub fn parse_decl_from_table(t: &Vec<(String, TomlValue)>) -> (d: Decl)
    ensures
        decl_from(d, tv(t@)),
{
    Decl {
        fg: str_of(table_get(t, "fg")),
        bg: str_of(table_get(t, "bg")),
        bold: bool_of(table_get(t, "bold")),
        italic: bool_of(table_get(t, "italic")),
        underline: bool_of(table_get(t, "underline")),
        dim: bool_of(table_get(t, "dim")),
        reversed: bool_of(table_get(t, "reversed")),
        style: str_of(table_get(t, "style")),
        style_top: str_of(table_get(t, "style_top")),
        style_bottom: str_of(table_get(t, "style_bottom")),
        style_left: str_of(table_get(t, "style_left")),
        style_right: str_of(table_get(t, "style_right")),
        header: bool_of(table_get(t, "header")),
        shadow: bool_of(table_get(t, "shadow")),
        placement: str_of(table_get(t, "placement")),
        margin: match int_of(table_get(t, "margin")) {
            Some(n) => Some(n as u16),
            None => None,
        },
        glyph_top: str_of(table_get(t, "glyph_top")),
        glyph_bottom: str_of(table_get(t, "glyph_bottom")),
        glyph_left: str_of(table_get(t, "glyph_left")),
        glyph_right: str_of(table_get(t, "glyph_right")),
        glyph_tl: str_of(table_get(t, "glyph_tl")),
        glyph_tr: str_of(table_get(t, "glyph_tr")),
        glyph_bl: str_of(table_get(t, "glyph_bl")),
        glyph_br: str_of(table_get(t, "glyph_br")),
    }
}

/// The scheme a `[colors]` table names: the last `scheme` key with a string.
pub open spec fn scheme_in(c: Seq<(Seq<char>, TomlView)>) -> Option<Seq<char>>
    decreases c.len(),
{
    if c.len() == 0 {
        None
    } else if c.last().0 == "scheme"@ && c.last().1 is Str {
        Some(c.last().1->Str_0)
    } else {
        scheme_in(c.drop_last())
    }
}

/// `e` holds, in order, a selector entry for each key of `c` other than
/// `scheme` whose value is a table, with the declaration that table spells.
pub open spec fn selector_entries(c: Seq<(Seq<char>, TomlView)>, e: Seq<(String, Decl)>) -> bool
    decreases c.len(),
{
    if c.len() == 0 {
        e.len() == 0
    } else if c.last().0 != "scheme"@ && c.last().1 is Table {
        &&& e.len() > 0
        &&& e.last().0@ == c.last().0
        &&& decl_from(e.last().1, c.last().1->Table_0)
        &&& selector_entries(c.drop_last(), e.drop_last())
    } else {
        selector_entries(c.drop_last(), e)
    }
}

/// `e` holds, in order, the entries of `t` whose values are strings.
pub open spec fn string_entries(t: Seq<(Seq<char>, TomlView)>, e: Seq<(String, String)>) -> bool
    decreases t.len(),
{
    if t.len() == 0 {
        e.len() == 0
    } else if t.last().1 is Str {
        &&& e.len() > 0
        &&& e.last().0@ == t.last().0
        &&& e.last().1@ == t.last().1->Str_0
        &&& string_entries(t.drop_last(), e.drop_last())
    } else {
        string_entries(t.drop_last(), e)
    }
}

/// The entries of every `overrides` table of a `[symbols]` table, in order.
pub open spec fn override_source(s: Seq<(Seq<char>, TomlView)>) -> Seq<(Seq<char>, TomlView)>
    decreases s.len(),
{
    if s.len() == 0 {
        seq![]
    } else if s.last().0 == "overrides"@ && s.last().1 is Table {
        override_source(s.drop_last()) + s.last().1->Table_0
    } else {
        override_source(s.drop_last())
    }
}

/// `rs` holds, in order, a rule for each table item with a non-empty `match`
/// string: that pattern and the declaration the table spells.
pub open spec fn rules_from(items: Seq<TomlView>, rs: Seq<RawRule>) -> bool
    decreases items.len(),
{
    if items.len() == 0 {
        rs.len() == 0
    } else if items.last() is Table && (match get_str(items.last()->Table_0, "match"@) {
        Some(p) => p.len() > 0,
        None => false,
    }) {
        &&& rs.len() > 0
        &&& Some(rs.last().pattern@) == get_str(items.last()->Table_0, "match"@)
        &&& decl_from(rs.last().decl, items.last()->Table_0)
        &&& rules_from(items.drop_last(), rs.drop_last())
    } else {
        rules_from(items.drop_last(), rs)
    }
}

/// A string key's value, or `dflt` when it is missing or not a string.
pub open spec fn str_or(t: Seq<(Seq<char>, TomlView)>, key: Seq<char>, dflt: Seq<char>) -> Seq<char> {
    match get_str(t, key) {
        Some(s) => s,
        None => dflt,
    }
}

/// `ss` holds, in order, a segment for each table item: its `text` (default
/// empty), its `align` (default `left`) and the declaration the table spells.
pub open spec fn segments_from(items: Seq<TomlView>, ss: Seq<RawSegment>) -> bool
    decreases items.len(),
{
    if items.len() == 0 {
        ss.len() == 0
    } else if items.last() is Table {
        let t = items.last()->Table_0;
        &&& ss.len() > 0
        &&& ss.last().text@ == str_or(t, "text"@, seq![])
        &&& ss.last().align@ == str_or(t, "align"@, "left"@)
        &&& decl_from(ss.last().decl, t)
        &&& segments_from(items.drop_last(), ss.drop_last())
    } else {
        segments_from(items.drop_last(), ss)
    }
}

/// `sc` is what a `[colors]` table gives: its scheme, and its selector
/// declarations inserted in order.
pub open spec fn colors_parsed(sc: StyleColors, c: Seq<(Seq<char>, TomlView)>) -> bool {
    &&& opt_view(sc.scheme) == scheme_in(c)
    &&& exists|e: Seq<(String, Decl)>| #![trigger selector_entries(c, e)]
        selector_entries(c, e) && sc.selectors.pairs() == insert_all(Seq::<(String, Decl)>::empty(), e)
}

/// `sy` is what a `[symbols]` table gives: the four preset names, the diagonal
/// switch and the string overrides, inserted in order; badges are not read.
pub open spec fn symbols_parsed(sy: StyleSymbols, s: Seq<(Seq<char>, TomlView)>) -> bool {
    &&& opt_view(sy.box_style) == get_str(s, "box_style"@)
    &&& opt_view(sy.arrow_set) == get_str(s, "arrow_set"@)
    &&& opt_view(sy.portal_icons) == get_str(s, "portal_icons"@)
    &&& opt_view(sy.path_style) == get_str(s, "path_style"@)
    &&& sy.badge_zcode is None
    &&& sy.badge_glulx is None
    &&& sy.badge_blorb is None
    &&& sy.badge_save is None
    &&& sy.badge_hint is None
    &&& sy.diagonal_corners == get_bool(s, "diagonal_corners"@)
    &&& exists|e: Seq<(String, String)>| #![trigger string_entries(override_source(s), e)]
        string_entries(override_source(s), e) && sy.overrides.pairs() == insert_all(Seq::<(String, String)>::empty(), e)
}

/// `sb` is what a `[statusbar]` table gives: the frame, its color and the segments.
pub open spec fn status_bar_parsed(sb: RawStatusBar, t: Seq<(Seq<char>, TomlView)>) -> bool {
    &&& opt_view(sb.border) == get_str(t, "border"@)
    &&& opt_view(sb.border_fg) == get_str(t, "border_fg"@)
    &&& segments_from(array_or_empty(get_array(t, "segment"@)), sb.segments@)
}

/// The top-level table of a TOML document.
pub open spec fn top_table(root: TomlView) -> Seq<(Seq<char>, TomlView)> {
    match root {
        TomlView::Table(t) => t,
        _ => Seq::<(Seq<char>, TomlView)>::empty(),
    }
}

/// `doc` is the style document that the TOML document `root` describes:
/// `[colors]` gives the scheme and the selector declarations (inline tables);
/// `[symbols]` gives the four preset names, the diagonal switch and the string overrides of
/// `[symbols.overrides]`; `[[transcript.rule]]` gives the rules with a
/// non-empty `match`; `[statusbar]` gives the frame and the segments. Every
/// other key is ignored.
pub open spec fn is_parsed_doc(doc: StyleDoc, root: TomlView) -> bool {
    &&& colors_parsed(doc.colors, table_or_empty(get_table(top_table(root), "colors"@)))
    &&& symbols_parsed(doc.symbols, table_or_empty(get_table(top_table(root), "symbols"@)))
    &&& rules_from(
        array_or_empty(get_array(table_or_empty(get_table(top_table(root), "transcript"@)), "rule"@)),
        doc.transcript_rules@,
    )
    &&& status_bar_parsed(doc.status_bar, table_or_empty(get_table(top_table(root), "statusbar"@)))
}

fn parse_colors(c: &Vec<(String, TomlValue)>) -> (sc: StyleColors)
    ensures
        colors_parsed(sc, tv(c@)),
{
    let mut scheme: Option<String> = None;
    let mut sel: StrMap<Decl> = StrMap::new();
    let ghost mut e: Seq<(String, Decl)> = seq![];
    let ghost all = tv(c@);
    let mut i: usize = 0;
    assert(all.take(0) =~= Seq::<(Seq<char>, TomlView)>::empty());
    while i < c.len()
        invariant
            i <= c@.len(),
            all == tv(c@),
            opt_view(scheme) == scheme_in(all.take(i as int)),
            selector_entries(all.take(i as int), e),
            sel.pairs() == insert_all(Seq::<(String, Decl)>::empty(), e),
        decreases c@.len() - i,
    {
        let (k, v) = &c[i];
        let ghost pre = all.take(i as int);
        let ghost post = all.take(i + 1);
        assert(post.drop_last() =~= pre);
        assert(post.last() == (k@, toml_view(*v)));
        let kc = chars_of(k.as_str());
        if eq_lit(&kc, "scheme") {
            if let TomlValue::Str(s) = v {
                scheme = Some(s.clone());
            }
        } else {
            match table_of(Some(v)) {
                Some(t) => {
                    let d = parse_decl_from_table(t);
                    let key = k.clone();
                    proof {
                        lemma_insert_all_push(Seq::<(String, Decl)>::empty(), e, (key, d));
                        let e2 = e.push((key, d));
                        assert(e2.drop_last() =~= e);
                        e = e2;
                    }
                    sel.insert(key, d);
                },
                None => {},
            }
        }
        i += 1;
    }
    assert(all.take(i as int) =~= all);
    StyleColors { scheme, selectors: sel }
}

fn add_string_entries(
    ov: &mut StrMap<String>,
    t: &Vec<(String, TomlValue)>,
    Ghost(src): Ghost<Seq<(Seq<char>, TomlView)>>,
    Ghost(e0): Ghost<Seq<(String, String)>>,
) -> (e: Ghost<Seq<(String, String)>>)
    requires
        string_entries(src, e0),
        old(ov).pairs() == insert_all(Seq::<(String, String)>::empty(), e0),
    ensures
        string_entries(src + tv(t@), e@),
        final(ov).pairs() == insert_all(Seq::<(String, String)>::empty(), e@),
{
    let ghost mut e = e0;
    let ghost all = tv(t@);
    let mut j: usize = 0;
    assert(src + all.take(0) =~= src);
    while j < t.len()
        invariant
            j <= t@.len(),
            all == tv(t@),
            string_entries(src + all.take(j as int), e),
            ov.pairs() == insert_all(Seq::<(String, String)>::empty(), e),
        decreases t@.len() - j,
    {
        let (k, v) = &t[j];
        let ghost pre = src + all.take(j as int);
        let ghost post = src + all.take(j + 1);
        assert(post.drop_last() =~= pre);
        assert(post.last() == (k@, toml_view(*v)));
        if let TomlValue::Str(s) = v {
            let key = k.clone();
            let val = s.clone();
            proof {
                lemma_insert_all_push(Seq::<(String, String)>::empty(), e, (key, val));
                let e2 = e.push((key, val));
                assert(e2.drop_last() =~= e);
                e = e2;
            }
            ov.insert(key, val);
        }
        j += 1;
    }
    assert(all.take(j as int) =~= all);
    Ghost(e)
}

fn parse_overrides(s: &Vec<(String, TomlValue)>) -> (ov: StrMap<String>)
    ensures
        exists|e: Seq<(String, String)>| #![trigger string_entries(override_source(tv(s@)), e)]
            string_entries(override_source(tv(s@)), e) && ov.pairs() == insert_all(Seq::<(String, String)>::empty(), e),
{
    let mut ov: StrMap<String> = StrMap::new();
    let ghost mut e: Seq<(String, String)> = seq![];
    let ghost all = tv(s@);
    let mut i: usize = 0;
    assert(all.take(0) =~= Seq::<(Seq<char>, TomlView)>::empty());
    while i < s.len()
        invariant
            i <= s@.len(),
            all == tv(s@),
            string_entries(override_source(all.take(i as int)), e),
            ov.pairs() == insert_all(Seq::<(String, String)>::empty(), e),
        decreases s@.len() - i,
    {
        let (k, v) = &s[i];
        let ghost pre = all.take(i as int);
        let ghost post = all.take(i + 1);
        assert(post.drop_last() =~= pre);
        assert(post.last() == (k@, toml_view(*v)));
        let kc = chars_of(k.as_str());
        if eq_lit(&kc, "overrides") {
            match table_of(Some(v)) {
                Some(t) => {
                    let g = add_string_entries(&mut ov, t, Ghost(override_source(pre)), Ghost(e));
                    proof {
                        e = g@;
                    }
                },
                None => {},
            }
        }
        i += 1;
    }
    assert(all.take(i as int) =~= all);
    ov
}

fn parse_symbols(s: &Vec<(String, TomlValue)>) -> (sy: StyleSymbols)
    ensures
        symbols_parsed(sy, tv(s@)),
{
    StyleSymbols {
        box_style: str_of(table_get(s, "box_style")),
        arrow_set: str_of(table_get(s, "arrow_set")),
        portal_icons: str_of(table_get(s, "portal_icons")),
        path_style: str_of(table_get(s, "path_style")),
        badge_zcode: None,
        badge_glulx: None,
        badge_blorb: None,
        badge_save: None,
        badge_hint: None,
        diagonal_corners: bool_of(table_get(s, "diagonal_corners")),
        overrides: parse_overrides(s),
    }
}

fn parse_status_bar(sb: &Vec<(String, TomlValue)>) -> (r: RawStatusBar)
    ensures
        status_bar_parsed(r, tv(sb@)),
{
    let no_items: Vec<TomlValue> = Vec::new();
    assert(av(no_items@) =~= Seq::<TomlView>::empty());
    let seg_items: &Vec<TomlValue> = match array_of(table_get(sb, "segment")) {
        Some(a) => a,
        None => &no_items,
    };
    RawStatusBar {
        border: str_of(table_get(sb, "border")),
        border_fg: str_of(table_get(sb, "border_fg")),
        segments: parse_segments(seg_items),
    }
}

fn parse_rules(items: &Vec<TomlValue>) -> (rs: Vec<RawRule>)
    ensures
        rules_from(av(items@), rs@),
{
    let mut rs: Vec<RawRule> = Vec::new();
    let ghost all = av(items@);
    let mut i: usize = 0;
    assert(all.take(0) =~= Seq::<TomlView>::empty());
    while i < items.len()
        invariant
            i <= items@.len(),
            all == av(items@),
            rules_from(all.take(i as int), rs@),
        decreases items@.len() - i,
    {
        let ghost pre = all.take(i as int);
        let ghost post = all.take(i + 1);
        assert(post.drop_last() =~= pre);
        assert(post.last() == toml_view(items@[i as int]));
        let ghost before = rs@;
        match table_of(Some(&items[i])) {
            Some(t) => {
                let pattern = match str_of(table_get(t, "match")) {
                    Some(p) => p,
                    None => String::new(),
                };
                if pattern.unicode_len() > 0 {
                    let decl = parse_decl_from_table(t);
                    rs.push(RawRule { pattern, decl });
                    assert(rs@.drop_last() =~= before);
                }
            },
            None => {},
        }
        i += 1;
    }
    assert(all.take(i as int) =~= all);
    rs
}

fn parse_segments(items: &Vec<TomlValue>) -> (ss: Vec<RawSegment>)
    ensures
        segments_from(av(items@), ss@),
{
    let mut ss: Vec<RawSegment> = Vec::new();
    let ghost all = av(items@);
    let mut i: usize = 0;
    assert(all.take(0) =~= Seq::<TomlView>::empty());
    while i < items.len()
        invariant
            i <= items@.len(),
            all == av(items@),
            segments_from(all.take(i as int), ss@),
        decreases items@.len() - i,
    {
        let ghost pre = all.take(i as int);
        let ghost post = all.take(i + 1);
        assert(post.drop_last() =~= pre);
        assert(post.last() == toml_view(items@[i as int]));
        let ghost before = ss@;
        match table_of(Some(&items[i])) {
            Some(t) => {
                let text = match str_of(table_get(t, "text")) {
                    Some(x) => x,
                    None => String::new(),
                };
                let align = match str_of(table_get(t, "align")) {
                    Some(x) => x,
                    None => owned("left"),
                };
                let decl = parse_decl_from_table(t);
                ss.push(RawSegment { text, align, decl });
                assert(ss@.drop_last() =~= before);
            },
            None => {},
        }
        i += 1;
    }
    assert(all.take(i as int) =~= all);
    ss
}

/// Reads the style document that a TOML document describes (see [`is_parsed_doc`]).
pub fn style_doc_from_toml(root: &TomlValue) -> (doc: StyleDoc)
    ensures
        is_parsed_doc(doc, root@),
{
    let none: Vec<(String, TomlValue)> = Vec::new();
    let no_items: Vec<TomlValue> = Vec::new();
    assert(tv(none@) =~= Seq::<(Seq<char>, TomlView)>::empty());
    assert(av(no_items@) =~= Seq::<TomlView>::empty());
    let top: &Vec<(String, TomlValue)> = match root {
        TomlValue::Table(t) => t,
        _ => &none,
    };
    proof {
        if root@ is Table {
            assert(root@->Table_0 =~= tv(top@));
        }
    }
    assert(top_table(root@) == tv(top@));
    let c: &Vec<(String, TomlValue)> = match table_of(table_get(top, "colors")) {
        Some(t) => t,
        None => &none,
    };
    let s: &Vec<(String, TomlValue)> = match table_of(table_get(top, "symbols")) {
        Some(t) => t,
        None => &none,
    };
    let tr: &Vec<(String, TomlValue)> = match table_of(table_get(top, "transcript")) {
        Some(t) => t,
        None => &none,
    };
    let items: &Vec<TomlValue> = match array_of(table_get(tr, "rule")) {
        Some(a) => a,
        None => &no_items,
    };
    let sb: &Vec<(String, TomlValue)> = match table_of(table_get(top, "statusbar")) {
        Some(t) => t,
        None => &none,
    };
    StyleDoc {
        colors: parse_colors(c),
        symbols: parse_symbols(s),
        transcript_rules: parse_rules(items),
        status_bar: parse_status_bar(sb),
    }
}

#[verifier::external_type_specification]
#[verifier::external_body]
pub struct ExTomlValue(toml::Value);

/// What parsing a style file's text as a TOML document (`toml::from_str`, as
/// `str::parse::<toml::Value>` does) gives: the document, with floats and
/// date-times as `Other`, or the error's message.
pub uninterp spec fn toml_document(text: Seq<char>) -> Result<TomlView, Seq<char>>;

/// The document that `text` parses to.
pub open spec fn toml_doc_value(text: Seq<char>) -> TomlView {
    match toml_document(text) {
        Ok(v) => v,
        Err(_) => TomlView::Other,
    }
}

/// The message of the error that parsing `text` gives.
pub open spec fn toml_doc_error(text: Seq<char>) -> Seq<char> {
    match toml_document(text) {
        Ok(_) => seq![],
        Err(m) => m,
    }
}

/// A `toml::Value` as a [`TomlValue`], variant for variant (floats and
/// date-times become `Other`). Conversion only; no contract is claimed for it
/// beyond what [`parse_toml`] states of its result.
#[verifier::external_body]
fn toml_value_of(v: &toml::Value) -> TomlValue {
    match v {
        toml::Value::String(s) => TomlValue::Str(s.clone()),
        toml::Value::Integer(n) => TomlValue::Int(*n),
        toml::Value::Boolean(b) => TomlValue::Bool(*b),
        toml::Value::Array(a) => TomlValue::Array(a.iter().map(toml_value_of).collect()),
        toml::Value::Table(t) => TomlValue::Table(t.iter().map(|(k, x)| (k.clone(), toml_value_of(x))).collect()),
        _ => TomlValue::Other,
    }
}

/// Parses TOML text with `toml`'s `FromStr` for `toml::Value`. Claimed: the
/// outcome (the document, or the error's message) is `toml_document` of the
/// text, a function of the text alone.
#[verifier::external_body]
fn parse_toml(text: &str) -> (r: Result<TomlValue, String>)
    ensures
        r is Ok <==> toml_document(text@) is Ok,
        r matches Ok(v) ==> v@ == toml_doc_value(text@),
        r matches Err(e) ==> e@ == toml_doc_error(text@),
{
    match text.parse::<toml::Value>() {
        Ok(v) => Ok(toml_value_of(&v)),
        Err(e) => Err(e.to_string()),
    }
}

/// Parses a style document from TOML text (the format of style files and of
/// the style sections of the configuration). Unknown keys are ignored; text
/// that is not TOML gives `Err("TOML parse error: <message>")`.
pub fn parse_style_toml(text: &str) -> (r: Result<StyleDoc, String>)
    ensures
        r is Ok <==> toml_document(text@) is Ok,
        r matches Ok(doc) ==> is_parsed_doc(doc, toml_doc_value(text@)),
        r matches Err(e) ==> e@ == "TOML parse error: "@ + toml_doc_error(text@),
{
    match parse_toml(text) {
        Ok(root) => Ok(style_doc_from_toml(&root)),
        Err(e) => Err(join2("TOML parse error: ", e.as_str())),
    }
}

/// The embedded built-in `default` style: single-line map and story borders,
/// single-line dialogs with a few dialog colors, and factory symbol presets.
pub const DEFAULT_STYLE_TOML: &'static str = "# babelmap built-in default style
# map_border / story_border = single; other selectors use terminal defaults.
# Empty [symbols] means all presets resolve to their factory defaults via finalize_symbols.

[colors]
\"map_border\" = { style = \"single\" }
\"story_border\" = { style = \"single\" }
\"dialog\" = { style = \"single\", bg = \"black\" }
\"dialog:title\" = { fg = \"cyan\" }
\"dialog:button\" = { fg = \"white\" }
\"dialog:button:active\" = { fg = \"black\", bg = \"cyan\" }
\"dialog:shadow\" = { bg = \"dark-gray\" }

[symbols]
";

/// The built-in default style document: [`DEFAULT_STYLE_TOML`] parsed. The
/// embedded text is valid TOML; were it not, the document would be empty.
pub fn default_style_doc() -> (doc: StyleDoc)
    ensures
        toml_document(DEFAULT_STYLE_TOML@) is Ok ==> is_parsed_doc(doc, toml_doc_value(DEFAULT_STYLE_TOML@)),
{
    match parse_style_toml(DEFAULT_STYLE_TOML) {
        Ok(doc) => doc,
        Err(_) => StyleDoc::default(),
    }
}

/// How reading a style file went: its text, or the error's message.
pub enum StyleRead {
    Text(String),
    Failed(String),
}

/// The document and warnings that reading the style file `path` gives: its
/// parsed document; or, when it cannot be read or parsed, the built-in default
/// with one warning naming the file.
pub fn style_after_read(path: &str, outcome: &StyleRead) -> (r: (StyleDoc, Vec<String>))
    ensures
        match outcome {
            StyleRead::Text(t) => match toml_document(t@) {
                Ok(v) => is_parsed_doc(r.0, v) && r.1@.len() == 0,
                Err(m) => strings_view(r.1@) == seq![
                    "could not parse style file '"@ + path@ + "': "@ + "TOML parse error: "@ + m + "; using built-in default"@,
                ] && (toml_document(DEFAULT_STYLE_TOML@) is Ok ==> is_parsed_doc(r.0, toml_doc_value(DEFAULT_STYLE_TOML@))),
            },
            StyleRead::Failed(e) => strings_view(r.1@) == seq![
                "could not read style file '"@ + path@ + "': "@ + e@ + "; using built-in default"@,
            ] && (toml_document(DEFAULT_STYLE_TOML@) is Ok ==> is_parsed_doc(r.0, toml_doc_value(DEFAULT_STYLE_TOML@))),
        },
{
    match outcome {
        StyleRead::Text(t) => match parse_style_toml(t.as_str()) {
            Ok(doc) => (doc, Vec::new()),
            Err(e) => {
                let mut m = owned("could not parse style file '");
                m.append(path);
                m.append("': ");
                m.append(e.as_str());
                m.append("; using built-in default");
                assert(m@ =~= "could not parse style file '"@ + path@ + "': "@ + "TOML parse error: "@ + toml_doc_error(t@) + "; using built-in default"@);
                let mut w: Vec<String> = Vec::new();
                w.push(m);
                assert(strings_view(w@) =~= seq![
                    "could not parse style file '"@ + path@ + "': "@ + "TOML parse error: "@ + toml_doc_error(t@) + "; using built-in default"@,
                ]);
                (default_style_doc(), w)
            },
        },
        StyleRead::Failed(e) => {
            let mut m = owned("could not read style file '");
            m.append(path);
            m.append("': ");
            m.append(e.as_str());
            m.append("; using built-in default");
            assert(m@ =~= "could not read style file '"@ + path@ + "': "@ + e@ + "; using built-in default"@);
            let mut w: Vec<String> = Vec::new();
            w.push(m);
            assert(strings_view(w@) =~= seq!["could not read style file '"@ + path@ + "': "@ + e@ + "; using built-in default"@]);
            (default_style_doc(), w)
        },
    }
}

// ── A full export reads back ─────────────────────────────────────────────────

/// No two entries of `e` have the same key.
pub open spec fn distinct_keys<V>(e: Seq<(String, V)>) -> bool {
    forall|a: int, b: int| 0 <= a < b < e.len() ==> #[trigger] e[a].0@ != #[trigger] e[b].0@
}

proof fn lemma_insert_all_untouched<V>(ps: Seq<(String, V)>, over: Seq<(String, V)>, q: Seq<char>)
    requires
        sorted_keys(ps),
        forall|j: int| 0 <= j < over.len() ==> #[trigger] over[j].0@ != q,
    ensures
        sorted_keys(insert_all(ps, over)),
        lookup(insert_all(ps, over), q) == lookup(ps, q),
    decreases over.len(),
{
    if over.len() > 0 {
        lemma_insert_entry(ps, over[0].0, over[0].1);
        let ps2 = insert_entry(ps, over[0].0, over[0].1);
        assert(over[0].0@ != q);
        assert forall|j: int| 0 <= j < over.drop_first().len() implies #[trigger] over.drop_first()[j].0@ != q by {
            assert(over.drop_first()[j] == over[j + 1]);
        }
        lemma_insert_all_untouched(ps2, over.drop_first(), q);
    }
}

/// Inserting entries with distinct keys binds each key to its entry.
pub(crate) proof fn lemma_insert_all_distinct<V>(ps: Seq<(String, V)>, over: Seq<(String, V)>, i: int)
    requires
        sorted_keys(ps),
        distinct_keys(over),
        0 <= i < over.len(),
    ensures
        sorted_keys(insert_all(ps, over)),
        lookup(insert_all(ps, over), over[i].0@) == Some(over[i].1),
    decreases over.len(),
{
    lemma_insert_entry(ps, over[0].0, over[0].1);
    let ps2 = insert_entry(ps, over[0].0, over[0].1);
    let rest = over.drop_first();
    if i == 0 {
        assert forall|j: int| 0 <= j < rest.len() implies #[trigger] rest[j].0@ != over[0].0@ by {
            assert(rest[j] == over[j + 1]);
        }
        lemma_insert_all_untouched(ps2, rest, over[0].0@);
    } else {
        assert forall|a: int, b: int| 0 <= a < b < rest.len() implies #[trigger] rest[a].0@ != #[trigger] rest[b].0@ by {
            assert(rest[a] == over[a + 1] && rest[b] == over[b + 1]);
        }
        assert(rest[i - 1] == over[i]);
        lemma_insert_all_distinct(ps2, rest, i - 1);
    }
}

/// Reading back a declaration that writes the colors and modifiers of `s`, over
/// a base style that `s` extends, gives `s` (with a scheme that has no palette).
proof fn lemma_colors_round_trip(base: Style, s: Style, d: Decl, gs: GhosttyScheme)
    requires
        writes_colors(d, s),
        gs.palette@.len() == 0,
        extends_style(s, base),
    ensures
        spec_patch(base, spec_decl_to_style(d, gs)) == s,
{
    reveal_strlit("none");
    if let Some(c) = s.fg {
        lemma_color_text_round_trip(c, gs);
    }
    if let Some(c) = s.bg {
        lemma_color_text_round_trip(c, gs);
    }
}

/// `s` extends `base`: neither removes modifiers, `s` keeps every modifier
/// `base` adds, and `s` sets a color wherever `base` does.
pub open spec fn extends_style(s: Style, base: Style) -> bool {
    &&& s.sub_modifier == no_mods()
    &&& base.sub_modifier == no_mods()
    &&& mods_contain(s.add_modifier, base.add_modifier)
    &&& s.fg is None ==> base.fg is None
    &&& s.bg is None ==> base.bg is None
}

pub(crate) proof fn lemma_full_entries_at(cs: ColorScheme, e: Seq<(String, Decl)>, i: int)
    requires
        full_entries_ok(cs, e),
        0 <= i < e.len(),
    ensures
        e[i].0@ == full_key(i),
        full_decl_ok(cs, i, e[i].1),
    decreases e.len(),
{
    if i < e.len() - 1 {
        lemma_full_entries_at(cs, e.drop_last(), i);
    }
}

/// The position of a selector among those a full export writes (-1 for others).
pub open spec fn full_key_index(s: Seq<char>) -> int {
    if s == "room"@ {
        0
    } else if s == "room:current"@ {
        1
    } else if s == "room:selected"@ {
        2
    } else if s == "connector"@ {
        3
    } else if s == "connector:distorted"@ {
        4
    } else if s == "connector:portal"@ {
        5
    } else if s == "shared_path"@ {
        6
    } else if s == "border:focused"@ {
        7
    } else if s == "statusbar"@ {
        8
    } else if s == "transcript"@ {
        9
    } else if s == "transcript:input"@ {
        10
    } else if s == "transcript:meta"@ {
        11
    } else if s == "transcript:warning"@ {
        12
    } else if s == "transcript:crash"@ {
        13
    } else if s == "transcript:location"@ {
        14
    } else if s == "transcript:system"@ {
        15
    } else if s == "warning_marker"@ {
        16
    } else if s == "suggestion"@ {
        17
    } else if s == "suggestion_line"@ {
        18
    } else if s == "input:text"@ {
        19
    } else if s == "input:prompt"@ {
        20
    } else if s == "scrollbar"@ {
        21
    } else if s == "tidy_progress"@ {
        22
    } else if s == "meta_marker"@ {
        23
    } else if s == "hyperlink"@ {
        24
    } else if s == "helpbar"@ {
        25
    } else if s == "map_border"@ {
        26
    } else if s == "story_border"@ {
        27
    } else if s == "story_title"@ {
        28
    } else if s == "inventory:dock"@ {
        29
    } else if s == "map_layer_tab"@ {
        30
    } else if s == "map_layer_tab_active"@ {
        31
    } else if s == "story_info"@ {
        32
    } else if s == "story_info:title"@ {
        33
    } else if s == "story_info:label"@ {
        34
    } else if s == "story_info:value"@ {
        35
    } else if s == "story_info:blurb"@ {
        36
    } else if s == "story_info:link"@ {
        37
    } else if s == "story_info:cover"@ {
        38
    } else if s == "story_badge"@ {
        39
    } else if s == "story_header"@ {
        40
    } else if s == "story_header:active"@ {
        41
    } else if s == "story_author"@ {
        42
    } else if s == "story_year"@ {
        43
    } else if s == "story_no_metadata"@ {
        44
    } else if s == "story_tile"@ {
        45
    } else if s == "story_tile:selected"@ {
        46
    } else if s == "graphics"@ {
        47
    } else if s == "inline_image"@ {
        48
    } else if s == "status_header"@ {
        49
    } else if s == "input_line"@ {
        50
    } else if s == "dialog"@ {
        51
    } else if s == "dialog:title"@ {
        52
    } else if s == "hotkey:key"@ {
        53
    } else if s == "dialog:button"@ {
        54
    } else if s == "dialog:button:active"@ {
        55
    } else if s == "dialog:shadow"@ {
        56
    } else if s == "room_panel"@ {
        57
    } else if s == "upper_window"@ {
        58
    } else if s == "upper_window_border"@ {
        59
    } else if s == "sound_beep_high"@ {
        60
    } else if s == "sound_beep_low"@ {
        61
    } else if s == "loc_indicator"@ {
        62
    } else if s == "map.tile.wall"@ {
        63
    } else if s == "map.tile.floor"@ {
        64
    } else if s == "map.tile.corridor"@ {
        65
    } else if s == "map.tile.door"@ {
        66
    } else if s == "map.tile.bridge"@ {
        67
    } else if s == "map.tile.stairs"@ {
        68
    } else if s == "map.tile.chamber"@ {
        69
    } else if s == "map.tile.shadow"@ {
        70
    } else if s == "map.tile.player"@ {
        71
    } else if s == "map.tile.room-number"@ {
        72
    } else {
        -1
    }
}

proof fn lemma_full_keys_0(cs: ColorScheme, i: int, d: Decl)
    requires
        0 <= i < 10,
    ensures
        full_key_index(full_key(i)) == i,
        known_selector(full_key(i)),
        full_key(i) != "border"@,
        full_decl_ok(cs, i, d) && full_key(i) != "suggestion_line"@ ==> writes_colors(d, spec_style_for_selector(cs, full_key(i))),
{
    lemma_selector_shapes();
    if i == 0 {
        assert(full_key_index(full_key(i)) == i);
    } else if i == 1 {
        assert(full_key_index(full_key(i)) == i);
    } else if i == 2 {
        assert(full_key_index(full_key(i)) == i);
    } else if i == 3 {
        assert(full_key_index(full_key(i)) == i);
    } else if i == 4 {
        assert(full_key_index(full_key(i)) == i);
    } else if i == 5 {
        assert(full_key_index(full_key(i)) == i);
    } else if i == 6 {
        assert(full_key_index(full_key(i)) == i);
    } else if i == 7 {
        assert(full_key_index(full_key(i)) == i);
    } else if i == 8 {
        assert(full_key_index(full_key(i)) == i);
    } else if i == 9 {
        assert(full_key_index(full_key(i)) == i);
    }
}

proof fn lemma_full_keys_10(cs: ColorScheme, i: int, d: Decl)
    requires
        10 <= i < 20,
    ensures
        full_key_index(full_key(i)) == i,
        known_selector(full_key(i)),
        full_key(i) != "border"@,
        full_decl_ok(cs, i, d) && full_key(i) != "suggestion_line"@ ==> writes_colors(d, spec_style_for_selector(cs, full_key(i))),
{
    lemma_selector_shapes();
    if i == 10 {
        assert(full_key_index(full_key(i)) == i);
    } else if i == 11 {
        assert(full_key_index(full_key(i)) == i);
    } else if i == 12 {
        assert(full_key_index(full_key(i)) == i);
    } else if i == 13 {
        assert(full_key_index(full_key(i)) == i);
    } else if i == 14 {
        assert(full_key_index(full_key(i)) == i);
    } else if i == 15 {
        assert(full_key_index(full_key(i)) == i);
    } else if i == 16 {
        assert(full_key_index(full_key(i)) == i);
    } else if i == 17 {
        assert(full_key_index(full_key(i)) == i);
    } else if i == 18 {
        assert(full_key_index(full_key(i)) == i);
    } else if i == 19 {
        assert(full_key_index(full_key(i)) == i);
    }
}

proof fn lemma_full_keys_20(cs: ColorScheme, i: int, d: Decl)
    requires
        20 <= i < 30,
    ensures
        full_key_index(full_key(i)) == i,
        known_selector(full_key(i)),
        full_key(i) != "border"@,
        full_decl_ok(cs, i, d) && full_key(i) != "suggestion_line"@ ==> writes_colors(d, spec_style_for_selector(cs, full_key(i))),
{
    lemma_selector_shapes();
    if i == 20 {
        assert(full_key_index(full_key(i)) == i);
    } else if i == 21 {
        assert(full_key_index(full_key(i)) == i);
    } else if i == 22 {
        assert(full_key_index(full_key(i)) == i);
    } else if i == 23 {
        assert(full_key_index(full_key(i)) == i);
    } else if i == 24 {
        assert(full_key_index(full_key(i)) == i);
    } else if i == 25 {
        assert(full_key_index(full_key(i)) == i);
    } else if i == 26 {
        assert(full_key_index(full_key(i)) == i);
    } else if i == 27 {
        assert(full_key_index(full_key(i)) == i);
    } else if i == 28 {
        assert(full_key_index(full_key(i)) == i);
    } else if i == 29 {
        assert(full_key_index(full_key(i)) == i);
    }
}

proof fn lemma_full_keys_30(cs: ColorScheme, i: int, d: Decl)
    requires
        30 <= i < 40,
    ensures
        full_key_index(full_key(i)) == i,
        known_selector(full_key(i)),
        full_key(i) != "border"@,
        full_decl_ok(cs, i, d) && full_key(i) != "suggestion_line"@ ==> writes_colors(d, spec_style_for_selector(cs, full_key(i))),
{
    lemma_selector_shapes();
    if i == 30 {
        assert(full_key_index(full_key(i)) == i);
    } else if i == 31 {
        assert(full_key_index(full_key(i)) == i);
    } else if i == 32 {
        assert(full_key_index(full_key(i)) == i);
    } else if i == 33 {
        assert(full_key_index(full_key(i)) == i);
    } else if i == 34 {
        assert(full_key_index(full_key(i)) == i);
    } else if i == 35 {
        assert(full_key_index(full_key(i)) == i);
    } else if i == 36 {
        assert(full_key_index(full_key(i)) == i);
    } else if i == 37 {
        assert(full_key_index(full_key(i)) == i);
    } else if i == 38 {
        assert(full_key_index(full_key(i)) == i);
    } else if i == 39 {
        assert(full_key_index(full_key(i)) == i);
    }
}

proof fn lemma_full_keys_40(cs: ColorScheme, i: int, d: Decl)
    requires
        40 <= i < 50,
    ensures
        full_key_index(full_key(i)) == i,
        known_selector(full_key(i)),
        full_key(i) != "border"@,
        full_decl_ok(cs, i, d) && full_key(i) != "suggestion_line"@ ==> writes_colors(d, spec_style_for_selector(cs, full_key(i))),
{
    lemma_selector_shapes();
    if i == 40 {
        assert(full_key_index(full_key(i)) == i);
    } else if i == 41 {
        assert(full_key_index(full_key(i)) == i);
    } else if i == 42 {
        assert(full_key_index(full_key(i)) == i);
    } else if i == 43 {
        assert(full_key_index(full_key(i)) == i);
    } else if i == 44 {
        assert(full_key_index(full_key(i)) == i);
    } else if i == 45 {
        assert(full_key_index(full_key(i)) == i);
    } else if i == 46 {
        assert(full_key_index(full_key(i)) == i);
    } else if i == 47 {
        assert(full_key_index(full_key(i)) == i);
    } else if i == 48 {
        assert(full_key_index(full_key(i)) == i);
    } else if i == 49 {
        assert(full_key_index(full_key(i)) == i);
    }
}

proof fn lemma_full_keys_50(cs: ColorScheme, i: int, d: Decl)
    requires
        50 <= i < 60,
    ensures
        full_key_index(full_key(i)) == i,
        known_selector(full_key(i)),
        full_key(i) != "border"@,
        full_decl_ok(cs, i, d) && full_key(i) != "suggestion_line"@ ==> writes_colors(d, spec_style_for_selector(cs, full_key(i))),
{
    lemma_selector_shapes();
    if i == 50 {
        assert(full_key_index(full_key(i)) == i);
    } else if i == 51 {
        assert(full_key_index(full_key(i)) == i);
    } else if i == 52 {
        assert(full_key_index(full_key(i)) == i);
    } else if i == 53 {
        assert(full_key_index(full_key(i)) == i);
    } else if i == 54 {
        assert(full_key_index(full_key(i)) == i);
    } else if i == 55 {
        assert(full_key_index(full_key(i)) == i);
    } else if i == 56 {
        assert(full_key_index(full_key(i)) == i);
    } else if i == 57 {
        assert(full_key_index(full_key(i)) == i);
    } else if i == 58 {
        assert(full_key_index(full_key(i)) == i);
    } else if i == 59 {
        assert(full_key_index(full_key(i)) == i);
    }
}

proof fn lemma_full_keys_60(cs: ColorScheme, i: int, d: Decl)
    requires
        60 <= i < 70,
    ensures
        full_key_index(full_key(i)) == i,
        known_selector(full_key(i)),
        full_key(i) != "border"@,
        full_decl_ok(cs, i, d) && full_key(i) != "suggestion_line"@ ==> writes_colors(d, spec_style_for_selector(cs, full_key(i))),
{
    lemma_selector_shapes();
    if i == 60 {
        assert(full_key_index(full_key(i)) == i);
    } else if i == 61 {
        assert(full_key_index(full_key(i)) == i);
    } else if i == 62 {
        assert(full_key_index(full_key(i)) == i);
    } else if i == 63 {
        assert(full_key_index(full_key(i)) == i);
    } else if i == 64 {
        assert(full_key_index(full_key(i)) == i);
    } else if i == 65 {
        assert(full_key_index(full_key(i)) == i);
    } else if i == 66 {
        assert(full_key_index(full_key(i)) == i);
    } else if i == 67 {
        assert(full_key_index(full_key(i)) == i);
    } else if i == 68 {
        assert(full_key_index(full_key(i)) == i);
    } else if i == 69 {
        assert(full_key_index(full_key(i)) == i);
    }
}

proof fn lemma_full_keys_70(cs: ColorScheme, i: int, d: Decl)
    requires
        70 <= i < 73,
    ensures
        full_key_index(full_key(i)) == i,
        known_selector(full_key(i)),
        full_key(i) != "border"@,
        full_decl_ok(cs, i, d) && full_key(i) != "suggestion_line"@ ==> writes_colors(d, spec_style_for_selector(cs, full_key(i))),
{
    lemma_selector_shapes();
    if i == 70 {
        assert(full_key_index(full_key(i)) == i);
    } else if i == 71 {
        assert(full_key_index(full_key(i)) == i);
    } else if i == 72 {
        assert(full_key_index(full_key(i)) == i);
    }
}

pub(crate) proof fn lemma_full_key(cs: ColorScheme, i: int, d: Decl)
    requires
        0 <= i < full_key_count(),
    ensures
        full_key_index(full_key(i)) == i,
        known_selector(full_key(i)),
        full_key(i) != "border"@,
        full_decl_ok(cs, i, d) && full_key(i) != "suggestion_line"@ ==> writes_colors(d, spec_style_for_selector(cs, full_key(i))),
{
    if i < 10 {
        lemma_full_keys_0(cs, i, d);
    } else if i < 20 {
        lemma_full_keys_10(cs, i, d);
    } else if i < 30 {
        lemma_full_keys_20(cs, i, d);
    } else if i < 40 {
        lemma_full_keys_30(cs, i, d);
    } else if i < 50 {
        lemma_full_keys_40(cs, i, d);
    } else if i < 60 {
        lemma_full_keys_50(cs, i, d);
    } else if i < 70 {
        lemma_full_keys_60(cs, i, d);
    } else if i < 73 {
        lemma_full_keys_70(cs, i, d);
    }
}

/// Resolving the full export of a scheme gives back, for every selector the
/// export writes (but `suggestion_line`, which writes no colors), the style that
/// the scheme has, wherever that style extends the one the base scheme has:
/// what a full style file is written for.
pub proof fn lemma_full_export_reads_back(
    cs: ColorScheme,
    set: SymbolSet,
    doc: StyleDoc,
    base: ColorScheme,
    gs: GhosttyScheme,
    r: ColorScheme,
    i: int,
)
    requires
        is_full_export(doc, cs, set),
        gs.palette@.len() == 0,
        is_resolution(doc, base, gs, r),
        0 <= i < full_key_count(),
        full_key(i) != "suggestion_line"@,
        extends_style(spec_style_for_selector(cs, full_key(i)), spec_style_for_selector(base, full_key(i))),
    ensures
        spec_style_for_selector(r, full_key(i)) == spec_style_for_selector(cs, full_key(i)),
{
    let e = choose|e: Seq<(String, Decl)>|
        #![trigger full_entries_ok(cs, e)]
        e.len() == full_key_count() && full_entries_ok(cs, e) && doc.colors.selectors.pairs() == insert_all(
            Seq::<(String, Decl)>::empty(),
            e,
        );
    let key = full_key(i);
    assert forall|a: int, b: int| 0 <= a < b < e.len() implies #[trigger] e[a].0@ != #[trigger] e[b].0@ by {
        lemma_full_entries_at(cs, e, a);
        lemma_full_entries_at(cs, e, b);
        lemma_full_key(cs, a, e[a].1);
        lemma_full_key(cs, b, e[b].1);
    }
    lemma_full_entries_at(cs, e, i);
    lemma_full_key(cs, i, e[i].1);
    lemma_insert_all_distinct(Seq::<(String, Decl)>::empty(), e, i);
    let ps = doc.colors.selectors.pairs();
    lemma_apply_decls_read(base, ps, gs, key);
    let a = spec_apply_decls(base, ps, gs);
    lemma_colors_round_trip(spec_style_for_selector(base, key), spec_style_for_selector(cs, key), e[i].1, gs);
    assert(r.status_header == a.status_header);
    assert(spec_style_for_selector(r, key) == spec_style_for_selector(a, key));
}

proof fn lemma_keeps_lists_0(cs: ColorScheme, sel: Seq<char>, d: Decl, st: Style)
    ensures
        apply_chunk_0(cs, sel, d, st).transcript_rules == cs.transcript_rules,
        apply_chunk_0(cs, sel, d, st).statusbar_layout == cs.statusbar_layout,
{
}

proof fn lemma_keeps_lists_1(cs: ColorScheme, sel: Seq<char>, d: Decl, st: Style)
    ensures
        apply_chunk_1(cs, sel, d, st).transcript_rules == cs.transcript_rules,
        apply_chunk_1(cs, sel, d, st).statusbar_layout == cs.statusbar_layout,
{
}

proof fn lemma_keeps_lists_2(cs: ColorScheme, sel: Seq<char>, d: Decl, st: Style)
    ensures
        apply_chunk_2(cs, sel, d, st).transcript_rules == cs.transcript_rules,
        apply_chunk_2(cs, sel, d, st).statusbar_layout == cs.statusbar_layout,
{
}

proof fn lemma_keeps_lists_3(cs: ColorScheme, sel: Seq<char>, d: Decl, st: Style)
    ensures
        apply_chunk_3(cs, sel, d, st).transcript_rules == cs.transcript_rules,
        apply_chunk_3(cs, sel, d, st).statusbar_layout == cs.statusbar_layout,
{
}

proof fn lemma_keeps_lists_4(cs: ColorScheme, sel: Seq<char>, d: Decl, st: Style)
    ensures
        apply_chunk_4(cs, sel, d, st).transcript_rules == cs.transcript_rules,
        apply_chunk_4(cs, sel, d, st).statusbar_layout == cs.statusbar_layout,
{
}

proof fn lemma_keeps_lists_5(cs: ColorScheme, sel: Seq<char>, d: Decl, st: Style)
    ensures
        apply_chunk_5(cs, sel, d, st).transcript_rules == cs.transcript_rules,
        apply_chunk_5(cs, sel, d, st).statusbar_layout == cs.statusbar_layout,
{
}

proof fn lemma_keeps_lists_6(cs: ColorScheme, sel: Seq<char>, d: Decl, st: Style)
    ensures
        apply_chunk_6(cs, sel, d, st).transcript_rules == cs.transcript_rules,
        apply_chunk_6(cs, sel, d, st).statusbar_layout == cs.statusbar_layout,
{
}

proof fn lemma_keeps_lists_7(cs: ColorScheme, sel: Seq<char>, d: Decl, st: Style)
    ensures
        apply_chunk_7(cs, sel, d, st).transcript_rules == cs.transcript_rules,
        apply_chunk_7(cs, sel, d, st).statusbar_layout == cs.statusbar_layout,
{
}

proof fn lemma_keeps_lists_8(cs: ColorScheme, sel: Seq<char>, d: Decl, st: Style)
    ensures
        apply_chunk_8(cs, sel, d, st).transcript_rules == cs.transcript_rules,
        apply_chunk_8(cs, sel, d, st).statusbar_layout == cs.statusbar_layout,
{
}

proof fn lemma_keeps_lists_9(cs: ColorScheme, sel: Seq<char>, d: Decl, st: Style)
    ensures
        apply_chunk_9(cs, sel, d, st).transcript_rules == cs.transcript_rules,
        apply_chunk_9(cs, sel, d, st).statusbar_layout == cs.statusbar_layout,
{
}

proof fn lemma_keeps_lists_10(cs: ColorScheme, sel: Seq<char>, d: Decl, st: Style)
    ensures
        apply_chunk_10(cs, sel, d, st).transcript_rules == cs.transcript_rules,
        apply_chunk_10(cs, sel, d, st).statusbar_layout == cs.statusbar_layout,
{
}

proof fn lemma_keeps_lists_11(cs: ColorScheme, sel: Seq<char>, d: Decl, st: Style)
    ensures
        apply_chunk_11(cs, sel, d, st).transcript_rules == cs.transcript_rules,
        apply_chunk_11(cs, sel, d, st).statusbar_layout == cs.statusbar_layout,
{
}

proof fn lemma_keeps_lists_12(cs: ColorScheme, sel: Seq<char>, d: Decl, st: Style)
    ensures
        apply_chunk_12(cs, sel, d, st).transcript_rules == cs.transcript_rules,
        apply_chunk_12(cs, sel, d, st).statusbar_layout == cs.statusbar_layout,
{
}

proof fn lemma_keeps_lists_13(cs: ColorScheme, sel: Seq<char>, d: Decl, st: Style)
    ensures
        apply_chunk_13(cs, sel, d, st).transcript_rules == cs.transcript_rules,
        apply_chunk_13(cs, sel, d, st).statusbar_layout == cs.statusbar_layout,
{
}

proof fn lemma_keeps_lists_14(cs: ColorScheme, sel: Seq<char>, d: Decl, st: Style)
    ensures
        apply_chunk_14(cs, sel, d, st).transcript_rules == cs.transcript_rules,
        apply_chunk_14(cs, sel, d, st).statusbar_layout == cs.statusbar_layout,
{
}

proof fn lemma_apply_keeps_lists(cs: ColorScheme, sel: Seq<char>, d: Decl, gs: GhosttyScheme)
    ensures
        spec_apply_decl(cs, sel, d, gs).transcript_rules == cs.transcript_rules,
        spec_apply_decl(cs, sel, d, gs).statusbar_layout == cs.statusbar_layout,
{
    reveal(spec_apply_decl);
    if chunk_0_has(sel) {
        lemma_keeps_lists_0(cs, sel, d, spec_decl_to_style(d, gs));
    } else if chunk_1_has(sel) {
        lemma_keeps_lists_1(cs, sel, d, spec_decl_to_style(d, gs));
    } else if chunk_2_has(sel) {
        lemma_keeps_lists_2(cs, sel, d, spec_decl_to_style(d, gs));
    } else if chunk_3_has(sel) {
        lemma_keeps_lists_3(cs, sel, d, spec_decl_to_style(d, gs));
    } else if chunk_4_has(sel) {
        lemma_keeps_lists_4(cs, sel, d, spec_decl_to_style(d, gs));
    } else if chunk_5_has(sel) {
        lemma_keeps_lists_5(cs, sel, d, spec_decl_to_style(d, gs));
    } else if chunk_6_has(sel) {
        lemma_keeps_lists_6(cs, sel, d, spec_decl_to_style(d, gs));
    } else if chunk_7_has(sel) {
        lemma_keeps_lists_7(cs, sel, d, spec_decl_to_style(d, gs));
    } else if chunk_8_has(sel) {
        lemma_keeps_lists_8(cs, sel, d, spec_decl_to_style(d, gs));
    } else if chunk_9_has(sel) {
        lemma_keeps_lists_9(cs, sel, d, spec_decl_to_style(d, gs));
    } else if chunk_10_has(sel) {
        lemma_keeps_lists_10(cs, sel, d, spec_decl_to_style(d, gs));
    } else if chunk_11_has(sel) {
        lemma_keeps_lists_11(cs, sel, d, spec_decl_to_style(d, gs));
    } else if chunk_12_has(sel) {
        lemma_keeps_lists_12(cs, sel, d, spec_decl_to_style(d, gs));
    } else if chunk_13_has(sel) {
        lemma_keeps_lists_13(cs, sel, d, spec_decl_to_style(d, gs));
    } else if chunk_14_has(sel) {
        lemma_keeps_lists_14(cs, sel, d, spec_decl_to_style(d, gs));
    }
}

proof fn lemma_apply_decls_keep_lists(cs: ColorScheme, ps: Seq<(String, Decl)>, gs: GhosttyScheme)
    ensures
        spec_apply_decls(cs, ps, gs).transcript_rules == cs.transcript_rules,
        spec_apply_decls(cs, ps, gs).statusbar_layout == cs.statusbar_layout,
    decreases ps.len(),
{
    if ps.len() > 0 {
        lemma_apply_keeps_lists(cs, ps[0].0@, ps[0].1, gs);
        lemma_apply_decls_keep_lists(spec_apply_decl(cs, ps[0].0@, ps[0].1, gs), ps.drop_first(), gs);
    }
}

proof fn lemma_all_rules_compile(rs: Seq<RawRule>)
    requires
        forall|i: int| 0 <= i < rs.len() ==> regex_compile(#[trigger] rs[i].pattern@) is Ok,
    ensures
        compiling_rules(rs) == rs,
    decreases rs.len(),
{
    if rs.len() > 0 {
        let f = rs.drop_last();
        assert forall|i: int| 0 <= i < f.len() implies regex_compile(#[trigger] f[i].pattern@) is Ok by {
            assert(f[i] == rs[i]);
        }
        lemma_all_rules_compile(f);
        assert(regex_compile(rs[rs.len() - 1].pattern@) is Ok);
        assert(f.push(rs.last()) =~= rs);
    }
}

/// A declaration's style read over the empty style is the declaration's style.
proof fn lemma_decl_over_plain(d: Decl, gs: GhosttyScheme)
    ensures
        spec_patch(plain_style(), spec_decl_to_style(d, gs)) == spec_decl_to_style(d, gs),
{
}

/// Resolving a document that sets nothing gives back the base scheme.
pub proof fn lemma_resolve_empty_doc(doc: StyleDoc, base: ColorScheme, gs: GhosttyScheme, r: ColorScheme)
    requires
        is_empty_doc(doc),
        is_resolution(doc, base, gs, r),
    ensures
        r == (ColorScheme { transcript_rules: r.transcript_rules, ..base }),
        r.transcript_rules@ == base.transcript_rules@,
{
    let ps = doc.colors.selectors.pairs();
    assert(spec_apply_decls(base, ps, gs) == base);
    assert(compiling_rules(doc.transcript_rules@) =~= Seq::<RawRule>::empty());
    assert(r.transcript_rules@ =~= base.transcript_rules@);
}

/// Resolving the full export of a scheme whose transcript-rule patterns all
/// compile gives back, after the base's own rules, the scheme's rules in order
/// with their patterns and styles (styles that remove no modifier).
pub proof fn lemma_full_export_rules_read_back(
    cs: ColorScheme,
    set: SymbolSet,
    doc: StyleDoc,
    base: ColorScheme,
    gs: GhosttyScheme,
    r: ColorScheme,
)
    requires
        is_full_export(doc, cs, set),
        gs.palette@.len() == 0,
        is_resolution(doc, base, gs, r),
        forall|i: int|
            0 <= i < cs.transcript_rules@.len() ==> regex_compile(#[trigger] cs.transcript_rules@[i].pattern@) is Ok,
        forall|i: int|
            0 <= i < cs.transcript_rules@.len() ==> (#[trigger] cs.transcript_rules@[i]).style.sub_modifier == no_mods(),
    ensures
        r.transcript_rules@.len() == base.transcript_rules@.len() + cs.transcript_rules@.len(),
        forall|i: int|
            #![trigger cs.transcript_rules@[i]]
            0 <= i < cs.transcript_rules@.len() ==> {
                &&& r.transcript_rules@[base.transcript_rules@.len() + i].pattern@ == cs.transcript_rules@[i].pattern@
                &&& r.transcript_rules@[base.transcript_rules@.len() + i].style == cs.transcript_rules@[i].style
            },
{
    let rules = doc.transcript_rules@;
    let ps = doc.colors.selectors.pairs();
    lemma_apply_decls_keep_lists(base, ps, gs);
    assert forall|i: int| 0 <= i < rules.len() implies regex_compile(#[trigger] rules[i].pattern@) is Ok by {
        assert(rules[i].pattern@ == cs.transcript_rules@[i].pattern@);
    }
    lemma_all_rules_compile(rules);
    let n = base.transcript_rules@.len();
    assert forall|i: int| #![trigger cs.transcript_rules@[i]] 0 <= i < cs.transcript_rules@.len() implies {
        &&& r.transcript_rules@[n + i].pattern@ == cs.transcript_rules@[i].pattern@
        &&& r.transcript_rules@[n + i].style == cs.transcript_rules@[i].style
    } by {
        let s = cs.transcript_rules@[i].style;
        let d = rules[i].decl;
        assert(writes_style(d, s));
        lemma_colors_round_trip(plain_style(), s, d, gs);
        lemma_decl_over_plain(d, gs);
    }
}

/// Resolving the full export of a scheme that has status-bar segments gives
/// back its segments with their text, cluster and style (styles that remove no
/// modifier).
pub proof fn lemma_full_export_segments_read_back(
    cs: ColorScheme,
    set: SymbolSet,
    doc: StyleDoc,
    base: ColorScheme,
    gs: GhosttyScheme,
    r: ColorScheme,
)
    requires
        is_full_export(doc, cs, set),
        gs.palette@.len() == 0,
        is_resolution(doc, base, gs, r),
        cs.statusbar_layout.segments@.len() > 0,
        forall|i: int|
            0 <= i < cs.statusbar_layout.segments@.len() ==> (#[trigger] cs.statusbar_layout.segments@[i]).style.sub_modifier
                == no_mods(),
    ensures
        r.statusbar_layout.segments@.len() == cs.statusbar_layout.segments@.len(),
        forall|i: int|
            0 <= i < cs.statusbar_layout.segments@.len() ==> {
                &&& (#[trigger] r.statusbar_layout.segments@[i]).text@ == cs.statusbar_layout.segments@[i].text@
                &&& r.statusbar_layout.segments@[i].align == cs.statusbar_layout.segments@[i].align
                &&& r.statusbar_layout.segments@[i].style == cs.statusbar_layout.segments@[i].style
            },
{
    let segs = doc.status_bar.segments@;
    reveal_strlit("left");
    reveal_strlit("center");
    reveal_strlit("right");
    assert forall|i: int| 0 <= i < cs.statusbar_layout.segments@.len() implies {
        &&& (#[trigger] r.statusbar_layout.segments@[i]).text@ == cs.statusbar_layout.segments@[i].text@
        &&& r.statusbar_layout.segments@[i].align == cs.statusbar_layout.segments@[i].align
        &&& r.statusbar_layout.segments@[i].style == cs.statusbar_layout.segments@[i].style
    } by {
        let seg = cs.statusbar_layout.segments@[i];
        assert(segs[i].text@ == seg.text@);
        assert(segs[i].align@ == spec_align_str(seg.align)@);
        match seg.align {
            Align::Left => assert(spec_align_of("left"@) == Align::Left),
            Align::Center => {
                reveal_strlit("left");
                reveal_strlit("center");
                assert("center"@.len() == 6 && "left"@.len() == 4);
                assert("center"@ != "left"@);
            },
            Align::Right => {
                reveal_strlit("left");
                reveal_strlit("center");
                reveal_strlit("right");
                assert("right"@.len() == 5 && "left"@.len() == 4 && "center"@.len() == 6);
                assert("right"@ != "left"@ && "right"@ != "center"@);
            },
        }
        assert(writes_style(segs[i].decl, seg.style));
        lemma_colors_round_trip(plain_style(), seg.style, segs[i].decl, gs);
        lemma_decl_over_plain(segs[i].decl, gs);
        assert(r.statusbar_layout.segments@[i].style == spec_decl_to_style(segs[i].decl, gs));
    }
}

// ── Applying the same declarations again ─────────────────────────────────────

/// Layering a style twice layers it once.
pub proof fn lemma_patch_twice(a: Style, b: Style)
    ensures
        spec_patch(spec_patch(a, b), b) == spec_patch(a, b),
{
}

/// Applying the same color declarations a second time changes no selector's
/// style: every selector reads the same after the second application as after
/// the first.
pub proof fn lemma_apply_decls_twice_reads_as_once(cs: ColorScheme, ps: Seq<(String, Decl)>, gs: GhosttyScheme, sel: Seq<char>)
    requires
        sorted_keys(ps),
        known_selector(sel),
        sel != "border"@,
        sel != "suggestion_line"@,
    ensures
        spec_style_for_selector(spec_apply_decls(spec_apply_decls(cs, ps, gs), ps, gs), sel)
            == spec_style_for_selector(spec_apply_decls(cs, ps, gs), sel),
{
    let once = spec_apply_decls(cs, ps, gs);
    lemma_apply_decls_read(cs, ps, gs, sel);
    lemma_apply_decls_read(once, ps, gs, sel);
    match lookup(ps, sel) {
        Some(d) => lemma_patch_twice(spec_style_for_selector(cs, sel), spec_decl_to_style(d, gs)),
        None => {},
    }
}

} // verus!
