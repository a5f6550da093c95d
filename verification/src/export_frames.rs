//! What a full style export gives back when it is resolved: every pane frame
//! and the dialog settings of the scheme it was written from.

use vstd::prelude::*;
use crate::colors::{
    spec_border_style_name, spec_parse_border_style, spec_placement_from_token, spec_placement_token, BorderStyle,
    ColorScheme, DialogPlacement, GhosttyScheme, PaneGlyphs, PaneSides, Style,
};
use crate::strmap::{insert_all, lookup, sorted_keys};
use crate::style::{
    chunk_0_has, chunk_1_has, chunk_2_has, chunk_3_has, chunk_4_has, chunk_5_has, chunk_6_has, chunk_7_has, chunk_8_has, chunk_9_has, chunk_10_has, chunk_11_has, chunk_12_has, chunk_13_has, chunk_14_has, apply_chunk_0, apply_chunk_1, apply_chunk_2, apply_chunk_3, apply_chunk_4, apply_chunk_5, apply_chunk_6, apply_chunk_7, apply_chunk_8, apply_chunk_9, apply_chunk_10, apply_chunk_11, apply_chunk_12, apply_chunk_13, apply_chunk_14,
    distinct_keys, full_decl_ok, full_entries_ok, full_key, full_key_count, is_full_export, is_resolution,
    lemma_full_entries_at, lemma_full_key, lemma_insert_all_distinct, lemma_selector_shapes, lemma_sorted_tail,
    side_style, spec_apply_decl, spec_apply_decls, spec_decl_glyphs, spec_decl_to_style, spec_resolve_sides,
    style_if_lined, writes_border, writes_dialog, Decl, StyleDoc,
};
use crate::symbols::SymbolSet;

verus! {

// ── A full export reads back: frames ─────────────────────────────────────────

/// A pane frame: line style, per-side styles, glyph overrides and header switch.
pub type FrameView = (BorderStyle, PaneSides, PaneGlyphs, bool);

/// A frame after a border declaration: its line style (the declared one, else
/// the current one), the sides resolved against it, the declared glyphs, and
/// (for a pane with a header) the declared header switch, else the current one.
pub open spec fn frame_step(f: FrameView, d: Decl, has_header: bool) -> FrameView {
    let b = side_style(d.style, f.0);
    (b, spec_resolve_sides(b, d), spec_decl_glyphs(d), if has_header {
        match d.header {
            Some(h) => h,
            None => f.3,
        }
    } else {
        f.3
    })
}

/// The dialog settings: box style, shadow, placement, margin and glyph overrides.
pub type DialogView = (BorderStyle, bool, DialogPlacement, u16, PaneGlyphs);

/// The dialog settings after the `dialog` declaration.
pub open spec fn dialog_step(f: DialogView, d: Decl) -> DialogView {
    (side_style(d.style, f.0), match d.shadow {
        Some(x) => x,
        None => f.1,
    }, match d.placement {
        Some(p) => spec_placement_from_token(p@),
        None => f.2,
    }, match d.margin {
        Some(m) => m,
        None => f.3,
    }, spec_decl_glyphs(d))
}

pub open spec fn dialog_view(cs: ColorScheme) -> DialogView {
    (cs.dialog_box_style, cs.dialog_shadow_on, cs.dialog_placement, cs.dialog_margin, cs.dialog_glyphs)
}

/// The frame of the `map_border` pane.
pub open spec fn map_frame(cs: ColorScheme) -> FrameView {
    (cs.map_border_style, cs.map_border_sides, cs.map_border_glyphs, cs.map_header_on)
}

/// The frame of the `story_border` pane.
pub open spec fn story_frame(cs: ColorScheme) -> FrameView {
    (cs.story_border_style, cs.story_border_sides, cs.story_border_glyphs, cs.story_header_on)
}

/// The frame of the `status_header` pane.
pub open spec fn status_frame(cs: ColorScheme) -> FrameView {
    (cs.status_header_style, cs.status_header_sides, cs.status_header_glyphs, true)
}

/// The frame of the `input_line` pane.
pub open spec fn input_frame(cs: ColorScheme) -> FrameView {
    (cs.input_line_style, cs.input_line_sides, cs.input_line_glyphs, true)
}

/// The frame of the `upper_window_border` pane.
pub open spec fn upper_frame(cs: ColorScheme) -> FrameView {
    (cs.virtual_window_border, cs.upper_window_border_sides, cs.upper_window_border_glyphs, true)
}

/// The frame of the `suggestion_line` pane.
pub open spec fn suggestion_frame(cs: ColorScheme) -> FrameView {
    (cs.suggestion_line_style, cs.suggestion_line_sides, cs.suggestion_line_glyphs, true)
}

proof fn lemma_kept_map_0(cs: ColorScheme, sel: Seq<char>, d: Decl, st: Style)
    ensures
        map_frame(apply_chunk_0(cs, sel, d, st)) == map_frame(cs),
{
}

proof fn lemma_kept_map_1(cs: ColorScheme, sel: Seq<char>, d: Decl, st: Style)
    ensures
        map_frame(apply_chunk_1(cs, sel, d, st)) == map_frame(cs),
{
}

proof fn lemma_kept_map_2(cs: ColorScheme, sel: Seq<char>, d: Decl, st: Style)
    ensures
        map_frame(apply_chunk_2(cs, sel, d, st)) == map_frame(cs),
{
}

proof fn lemma_kept_map_3(cs: ColorScheme, sel: Seq<char>, d: Decl, st: Style)
    ensures
        map_frame(apply_chunk_3(cs, sel, d, st)) == map_frame(cs),
{
}

proof fn lemma_kept_map_4(cs: ColorScheme, sel: Seq<char>, d: Decl, st: Style)
    ensures
        map_frame(apply_chunk_4(cs, sel, d, st)) == map_frame(cs),
{
}

proof fn lemma_kept_map_5(cs: ColorScheme, sel: Seq<char>, d: Decl, st: Style)
    ensures
        map_frame(apply_chunk_5(cs, sel, d, st)) == map_frame(cs),
{
}

proof fn lemma_kept_map_6(cs: ColorScheme, sel: Seq<char>, d: Decl, st: Style)
    ensures
        map_frame(apply_chunk_6(cs, sel, d, st)) == map_frame(cs),
{
}

proof fn lemma_kept_map_7(cs: ColorScheme, sel: Seq<char>, d: Decl, st: Style)
    ensures
        map_frame(apply_chunk_7(cs, sel, d, st)) == map_frame(cs),
{
}

proof fn lemma_kept_map_8(cs: ColorScheme, sel: Seq<char>, d: Decl, st: Style)
    ensures
        map_frame(apply_chunk_8(cs, sel, d, st)) == map_frame(cs),
{
}

proof fn lemma_kept_map_9(cs: ColorScheme, sel: Seq<char>, d: Decl, st: Style)
    ensures
        sel != "map_border"@ ==> map_frame(apply_chunk_9(cs, sel, d, st)) == map_frame(cs),
{
}

proof fn lemma_kept_map_10(cs: ColorScheme, sel: Seq<char>, d: Decl, st: Style)
    ensures
        map_frame(apply_chunk_10(cs, sel, d, st)) == map_frame(cs),
{
}

proof fn lemma_kept_map_11(cs: ColorScheme, sel: Seq<char>, d: Decl, st: Style)
    ensures
        map_frame(apply_chunk_11(cs, sel, d, st)) == map_frame(cs),
{
}

proof fn lemma_kept_map_12(cs: ColorScheme, sel: Seq<char>, d: Decl, st: Style)
    ensures
        map_frame(apply_chunk_12(cs, sel, d, st)) == map_frame(cs),
{
}

proof fn lemma_kept_map_13(cs: ColorScheme, sel: Seq<char>, d: Decl, st: Style)
    ensures
        map_frame(apply_chunk_13(cs, sel, d, st)) == map_frame(cs),
{
}

proof fn lemma_kept_map_14(cs: ColorScheme, sel: Seq<char>, d: Decl, st: Style)
    ensures
        map_frame(apply_chunk_14(cs, sel, d, st)) == map_frame(cs),
{
}

proof fn lemma_apply_keeps_map(cs: ColorScheme, sel: Seq<char>, d: Decl, gs: GhosttyScheme)
    ensures
        sel != "map_border"@ ==> map_frame(spec_apply_decl(cs, sel, d, gs)) == map_frame(cs),
{
    reveal(spec_apply_decl);
    if chunk_0_has(sel) {
        lemma_kept_map_0(cs, sel, d, spec_decl_to_style(d, gs));
    } else if chunk_1_has(sel) {
        lemma_kept_map_1(cs, sel, d, spec_decl_to_style(d, gs));
    } else if chunk_2_has(sel) {
        lemma_kept_map_2(cs, sel, d, spec_decl_to_style(d, gs));
    } else if chunk_3_has(sel) {
        lemma_kept_map_3(cs, sel, d, spec_decl_to_style(d, gs));
    } else if chunk_4_has(sel) {
        lemma_kept_map_4(cs, sel, d, spec_decl_to_style(d, gs));
    } else if chunk_5_has(sel) {
        lemma_kept_map_5(cs, sel, d, spec_decl_to_style(d, gs));
    } else if chunk_6_has(sel) {
        lemma_kept_map_6(cs, sel, d, spec_decl_to_style(d, gs));
    } else if chunk_7_has(sel) {
        lemma_kept_map_7(cs, sel, d, spec_decl_to_style(d, gs));
    } else if chunk_8_has(sel) {
        lemma_kept_map_8(cs, sel, d, spec_decl_to_style(d, gs));
    } else if chunk_9_has(sel) {
        lemma_kept_map_9(cs, sel, d, spec_decl_to_style(d, gs));
    } else if chunk_10_has(sel) {
        lemma_kept_map_10(cs, sel, d, spec_decl_to_style(d, gs));
    } else if chunk_11_has(sel) {
        lemma_kept_map_11(cs, sel, d, spec_decl_to_style(d, gs));
    } else if chunk_12_has(sel) {
        lemma_kept_map_12(cs, sel, d, spec_decl_to_style(d, gs));
    } else if chunk_13_has(sel) {
        lemma_kept_map_13(cs, sel, d, spec_decl_to_style(d, gs));
    } else if chunk_14_has(sel) {
        lemma_kept_map_14(cs, sel, d, spec_decl_to_style(d, gs));
    }
}

proof fn lemma_kept_story_0(cs: ColorScheme, sel: Seq<char>, d: Decl, st: Style)
    ensures
        story_frame(apply_chunk_0(cs, sel, d, st)) == story_frame(cs),
{
}

proof fn lemma_kept_story_1(cs: ColorScheme, sel: Seq<char>, d: Decl, st: Style)
    ensures
        story_frame(apply_chunk_1(cs, sel, d, st)) == story_frame(cs),
{
}

proof fn lemma_kept_story_2(cs: ColorScheme, sel: Seq<char>, d: Decl, st: Style)
    ensures
        story_frame(apply_chunk_2(cs, sel, d, st)) == story_frame(cs),
{
}

proof fn lemma_kept_story_3(cs: ColorScheme, sel: Seq<char>, d: Decl, st: Style)
    ensures
        story_frame(apply_chunk_3(cs, sel, d, st)) == story_frame(cs),
{
}

proof fn lemma_kept_story_4(cs: ColorScheme, sel: Seq<char>, d: Decl, st: Style)
    ensures
        story_frame(apply_chunk_4(cs, sel, d, st)) == story_frame(cs),
{
}

proof fn lemma_kept_story_5(cs: ColorScheme, sel: Seq<char>, d: Decl, st: Style)
    ensures
        story_frame(apply_chunk_5(cs, sel, d, st)) == story_frame(cs),
{
}

proof fn lemma_kept_story_6(cs: ColorScheme, sel: Seq<char>, d: Decl, st: Style)
    ensures
        story_frame(apply_chunk_6(cs, sel, d, st)) == story_frame(cs),
{
}

proof fn lemma_kept_story_7(cs: ColorScheme, sel: Seq<char>, d: Decl, st: Style)
    ensures
        story_frame(apply_chunk_7(cs, sel, d, st)) == story_frame(cs),
{
}

proof fn lemma_kept_story_8(cs: ColorScheme, sel: Seq<char>, d: Decl, st: Style)
    ensures
        story_frame(apply_chunk_8(cs, sel, d, st)) == story_frame(cs),
{
}

proof fn lemma_kept_story_9(cs: ColorScheme, sel: Seq<char>, d: Decl, st: Style)
    ensures
        story_frame(apply_chunk_9(cs, sel, d, st)) == story_frame(cs),
{
}

proof fn lemma_kept_story_10(cs: ColorScheme, sel: Seq<char>, d: Decl, st: Style)
    ensures
        sel != "story_border"@ ==> story_frame(apply_chunk_10(cs, sel, d, st)) == story_frame(cs),
{
}

proof fn lemma_kept_story_11(cs: ColorScheme, sel: Seq<char>, d: Decl, st: Style)
    ensures
        story_frame(apply_chunk_11(cs, sel, d, st)) == story_frame(cs),
{
}

proof fn lemma_kept_story_12(cs: ColorScheme, sel: Seq<char>, d: Decl, st: Style)
    ensures
        story_frame(apply_chunk_12(cs, sel, d, st)) == story_frame(cs),
{
}

proof fn lemma_kept_story_13(cs: ColorScheme, sel: Seq<char>, d: Decl, st: Style)
    ensures
        story_frame(apply_chunk_13(cs, sel, d, st)) == story_frame(cs),
{
}

proof fn lemma_kept_story_14(cs: ColorScheme, sel: Seq<char>, d: Decl, st: Style)
    ensures
        story_frame(apply_chunk_14(cs, sel, d, st)) == story_frame(cs),
{
}

proof fn lemma_apply_keeps_story(cs: ColorScheme, sel: Seq<char>, d: Decl, gs: GhosttyScheme)
    ensures
        sel != "story_border"@ ==> story_frame(spec_apply_decl(cs, sel, d, gs)) == story_frame(cs),
{
    reveal(spec_apply_decl);
    if chunk_0_has(sel) {
        lemma_kept_story_0(cs, sel, d, spec_decl_to_style(d, gs));
    } else if chunk_1_has(sel) {
        lemma_kept_story_1(cs, sel, d, spec_decl_to_style(d, gs));
    } else if chunk_2_has(sel) {
        lemma_kept_story_2(cs, sel, d, spec_decl_to_style(d, gs));
    } else if chunk_3_has(sel) {
        lemma_kept_story_3(cs, sel, d, spec_decl_to_style(d, gs));
    } else if chunk_4_has(sel) {
        lemma_kept_story_4(cs, sel, d, spec_decl_to_style(d, gs));
    } else if chunk_5_has(sel) {
        lemma_kept_story_5(cs, sel, d, spec_decl_to_style(d, gs));
    } else if chunk_6_has(sel) {
        lemma_kept_story_6(cs, sel, d, spec_decl_to_style(d, gs));
    } else if chunk_7_has(sel) {
        lemma_kept_story_7(cs, sel, d, spec_decl_to_style(d, gs));
    } else if chunk_8_has(sel) {
        lemma_kept_story_8(cs, sel, d, spec_decl_to_style(d, gs));
    } else if chunk_9_has(sel) {
        lemma_kept_story_9(cs, sel, d, spec_decl_to_style(d, gs));
    } else if chunk_10_has(sel) {
        lemma_kept_story_10(cs, sel, d, spec_decl_to_style(d, gs));
    } else if chunk_11_has(sel) {
        lemma_kept_story_11(cs, sel, d, spec_decl_to_style(d, gs));
    } else if chunk_12_has(sel) {
        lemma_kept_story_12(cs, sel, d, spec_decl_to_style(d, gs));
    } else if chunk_13_has(sel) {
        lemma_kept_story_13(cs, sel, d, spec_decl_to_style(d, gs));
    } else if chunk_14_has(sel) {
        lemma_kept_story_14(cs, sel, d, spec_decl_to_style(d, gs));
    }
}

proof fn lemma_kept_status_0(cs: ColorScheme, sel: Seq<char>, d: Decl, st: Style)
    ensures
        status_frame(apply_chunk_0(cs, sel, d, st)) == status_frame(cs),
{
}

proof fn lemma_kept_status_1(cs: ColorScheme, sel: Seq<char>, d: Decl, st: Style)
    ensures
        status_frame(apply_chunk_1(cs, sel, d, st)) == status_frame(cs),
{
}

proof fn lemma_kept_status_2(cs: ColorScheme, sel: Seq<char>, d: Decl, st: Style)
    ensures
        status_frame(apply_chunk_2(cs, sel, d, st)) == status_frame(cs),
{
}

proof fn lemma_kept_status_3(cs: ColorScheme, sel: Seq<char>, d: Decl, st: Style)
    ensures
        status_frame(apply_chunk_3(cs, sel, d, st)) == status_frame(cs),
{
}

proof fn lemma_kept_status_4(cs: ColorScheme, sel: Seq<char>, d: Decl, st: Style)
    ensures
        status_frame(apply_chunk_4(cs, sel, d, st)) == status_frame(cs),
{
}

proof fn lemma_kept_status_5(cs: ColorScheme, sel: Seq<char>, d: Decl, st: Style)
    ensures
        status_frame(apply_chunk_5(cs, sel, d, st)) == status_frame(cs),
{
}

proof fn lemma_kept_status_6(cs: ColorScheme, sel: Seq<char>, d: Decl, st: Style)
    ensures
        status_frame(apply_chunk_6(cs, sel, d, st)) == status_frame(cs),
{
}

proof fn lemma_kept_status_7(cs: ColorScheme, sel: Seq<char>, d: Decl, st: Style)
    ensures
        status_frame(apply_chunk_7(cs, sel, d, st)) == status_frame(cs),
{
}

proof fn lemma_kept_status_8(cs: ColorScheme, sel: Seq<char>, d: Decl, st: Style)
    ensures
        status_frame(apply_chunk_8(cs, sel, d, st)) == status_frame(cs),
{
}

proof fn lemma_kept_status_9(cs: ColorScheme, sel: Seq<char>, d: Decl, st: Style)
    ensures
        status_frame(apply_chunk_9(cs, sel, d, st)) == status_frame(cs),
{
}

proof fn lemma_kept_status_10(cs: ColorScheme, sel: Seq<char>, d: Decl, st: Style)
    ensures
        status_frame(apply_chunk_10(cs, sel, d, st)) == status_frame(cs),
{
}

proof fn lemma_kept_status_11(cs: ColorScheme, sel: Seq<char>, d: Decl, st: Style)
    ensures
        sel != "status_header"@ ==> status_frame(apply_chunk_11(cs, sel, d, st)) == status_frame(cs),
{
}

proof fn lemma_kept_status_12(cs: ColorScheme, sel: Seq<char>, d: Decl, st: Style)
    ensures
        status_frame(apply_chunk_12(cs, sel, d, st)) == status_frame(cs),
{
}

proof fn lemma_kept_status_13(cs: ColorScheme, sel: Seq<char>, d: Decl, st: Style)
    ensures
        status_frame(apply_chunk_13(cs, sel, d, st)) == status_frame(cs),
{
}

proof fn lemma_kept_status_14(cs: ColorScheme, sel: Seq<char>, d: Decl, st: Style)
    ensures
        status_frame(apply_chunk_14(cs, sel, d, st)) == status_frame(cs),
{
}

proof fn lemma_apply_keeps_status(cs: ColorScheme, sel: Seq<char>, d: Decl, gs: GhosttyScheme)
    ensures
        sel != "status_header"@ ==> status_frame(spec_apply_decl(cs, sel, d, gs)) == status_frame(cs),
{
    reveal(spec_apply_decl);
    if chunk_0_has(sel) {
        lemma_kept_status_0(cs, sel, d, spec_decl_to_style(d, gs));
    } else if chunk_1_has(sel) {
        lemma_kept_status_1(cs, sel, d, spec_decl_to_style(d, gs));
    } else if chunk_2_has(sel) {
        lemma_kept_status_2(cs, sel, d, spec_decl_to_style(d, gs));
    } else if chunk_3_has(sel) {
        lemma_kept_status_3(cs, sel, d, spec_decl_to_style(d, gs));
    } else if chunk_4_has(sel) {
        lemma_kept_status_4(cs, sel, d, spec_decl_to_style(d, gs));
    } else if chunk_5_has(sel) {
        lemma_kept_status_5(cs, sel, d, spec_decl_to_style(d, gs));
    } else if chunk_6_has(sel) {
        lemma_kept_status_6(cs, sel, d, spec_decl_to_style(d, gs));
    } else if chunk_7_has(sel) {
        lemma_kept_status_7(cs, sel, d, spec_decl_to_style(d, gs));
    } else if chunk_8_has(sel) {
        lemma_kept_status_8(cs, sel, d, spec_decl_to_style(d, gs));
    } else if chunk_9_has(sel) {
        lemma_kept_status_9(cs, sel, d, spec_decl_to_style(d, gs));
    } else if chunk_10_has(sel) {
        lemma_kept_status_10(cs, sel, d, spec_decl_to_style(d, gs));
    } else if chunk_11_has(sel) {
        lemma_kept_status_11(cs, sel, d, spec_decl_to_style(d, gs));
    } else if chunk_12_has(sel) {
        lemma_kept_status_12(cs, sel, d, spec_decl_to_style(d, gs));
    } else if chunk_13_has(sel) {
        lemma_kept_status_13(cs, sel, d, spec_decl_to_style(d, gs));
    } else if chunk_14_has(sel) {
        lemma_kept_status_14(cs, sel, d, spec_decl_to_style(d, gs));
    }
}

proof fn lemma_kept_input_0(cs: ColorScheme, sel: Seq<char>, d: Decl, st: Style)
    ensures
        input_frame(apply_chunk_0(cs, sel, d, st)) == input_frame(cs),
{
}

proof fn lemma_kept_input_1(cs: ColorScheme, sel: Seq<char>, d: Decl, st: Style)
    ensures
        input_frame(apply_chunk_1(cs, sel, d, st)) == input_frame(cs),
{
}

proof fn lemma_kept_input_2(cs: ColorScheme, sel: Seq<char>, d: Decl, st: Style)
    ensures
        input_frame(apply_chunk_2(cs, sel, d, st)) == input_frame(cs),
{
}

proof fn lemma_kept_input_3(cs: ColorScheme, sel: Seq<char>, d: Decl, st: Style)
    ensures
        input_frame(apply_chunk_3(cs, sel, d, st)) == input_frame(cs),
{
}

proof fn lemma_kept_input_4(cs: ColorScheme, sel: Seq<char>, d: Decl, st: Style)
    ensures
        input_frame(apply_chunk_4(cs, sel, d, st)) == input_frame(cs),
{
}

proof fn lemma_kept_input_5(cs: ColorScheme, sel: Seq<char>, d: Decl, st: Style)
    ensures
        input_frame(apply_chunk_5(cs, sel, d, st)) == input_frame(cs),
{
}

proof fn lemma_kept_input_6(cs: ColorScheme, sel: Seq<char>, d: Decl, st: Style)
    ensures
        input_frame(apply_chunk_6(cs, sel, d, st)) == input_frame(cs),
{
}

proof fn lemma_kept_input_7(cs: ColorScheme, sel: Seq<char>, d: Decl, st: Style)
    ensures
        input_frame(apply_chunk_7(cs, sel, d, st)) == input_frame(cs),
{
}

proof fn lemma_kept_input_8(cs: ColorScheme, sel: Seq<char>, d: Decl, st: Style)
    ensures
        input_frame(apply_chunk_8(cs, sel, d, st)) == input_frame(cs),
{
}

proof fn lemma_kept_input_9(cs: ColorScheme, sel: Seq<char>, d: Decl, st: Style)
    ensures
        input_frame(apply_chunk_9(cs, sel, d, st)) == input_frame(cs),
{
}

proof fn lemma_kept_input_10(cs: ColorScheme, sel: Seq<char>, d: Decl, st: Style)
    ensures
        input_frame(apply_chunk_10(cs, sel, d, st)) == input_frame(cs),
{
}

proof fn lemma_kept_input_11(cs: ColorScheme, sel: Seq<char>, d: Decl, st: Style)
    ensures
        input_frame(apply_chunk_11(cs, sel, d, st)) == input_frame(cs),
{
}

proof fn lemma_kept_input_12(cs: ColorScheme, sel: Seq<char>, d: Decl, st: Style)
    ensures
        sel != "input_line"@ ==> input_frame(apply_chunk_12(cs, sel, d, st)) == input_frame(cs),
{
}

proof fn lemma_kept_input_13(cs: ColorScheme, sel: Seq<char>, d: Decl, st: Style)
    ensures
        input_frame(apply_chunk_13(cs, sel, d, st)) == input_frame(cs),
{
}

proof fn lemma_kept_input_14(cs: ColorScheme, sel: Seq<char>, d: Decl, st: Style)
    ensures
        input_frame(apply_chunk_14(cs, sel, d, st)) == input_frame(cs),
{
}

proof fn lemma_apply_keeps_input(cs: ColorScheme, sel: Seq<char>, d: Decl, gs: GhosttyScheme)
    ensures
        sel != "input_line"@ ==> input_frame(spec_apply_decl(cs, sel, d, gs)) == input_frame(cs),
{
    reveal(spec_apply_decl);
    if chunk_0_has(sel) {
        lemma_kept_input_0(cs, sel, d, spec_decl_to_style(d, gs));
    } else if chunk_1_has(sel) {
        lemma_kept_input_1(cs, sel, d, spec_decl_to_style(d, gs));
    } else if chunk_2_has(sel) {
        lemma_kept_input_2(cs, sel, d, spec_decl_to_style(d, gs));
    } else if chunk_3_has(sel) {
        lemma_kept_input_3(cs, sel, d, spec_decl_to_style(d, gs));
    } else if chunk_4_has(sel) {
        lemma_kept_input_4(cs, sel, d, spec_decl_to_style(d, gs));
    } else if chunk_5_has(sel) {
        lemma_kept_input_5(cs, sel, d, spec_decl_to_style(d, gs));
    } else if chunk_6_has(sel) {
        lemma_kept_input_6(cs, sel, d, spec_decl_to_style(d, gs));
    } else if chunk_7_has(sel) {
        lemma_kept_input_7(cs, sel, d, spec_decl_to_style(d, gs));
    } else if chunk_8_has(sel) {
        lemma_kept_input_8(cs, sel, d, spec_decl_to_style(d, gs));
    } else if chunk_9_has(sel) {
        lemma_kept_input_9(cs, sel, d, spec_decl_to_style(d, gs));
    } else if chunk_10_has(sel) {
        lemma_kept_input_10(cs, sel, d, spec_decl_to_style(d, gs));
    } else if chunk_11_has(sel) {
        lemma_kept_input_11(cs, sel, d, spec_decl_to_style(d, gs));
    } else if chunk_12_has(sel) {
        lemma_kept_input_12(cs, sel, d, spec_decl_to_style(d, gs));
    } else if chunk_13_has(sel) {
        lemma_kept_input_13(cs, sel, d, spec_decl_to_style(d, gs));
    } else if chunk_14_has(sel) {
        lemma_kept_input_14(cs, sel, d, spec_decl_to_style(d, gs));
    }
}

proof fn lemma_kept_upper_0(cs: ColorScheme, sel: Seq<char>, d: Decl, st: Style)
    ensures
        upper_frame(apply_chunk_0(cs, sel, d, st)) == upper_frame(cs),
{
}

proof fn lemma_kept_upper_1(cs: ColorScheme, sel: Seq<char>, d: Decl, st: Style)
    ensures
        upper_frame(apply_chunk_1(cs, sel, d, st)) == upper_frame(cs),
{
}

proof fn lemma_kept_upper_2(cs: ColorScheme, sel: Seq<char>, d: Decl, st: Style)
    ensures
        upper_frame(apply_chunk_2(cs, sel, d, st)) == upper_frame(cs),
{
}

proof fn lemma_kept_upper_3(cs: ColorScheme, sel: Seq<char>, d: Decl, st: Style)
    ensures
        upper_frame(apply_chunk_3(cs, sel, d, st)) == upper_frame(cs),
{
}

proof fn lemma_kept_upper_4(cs: ColorScheme, sel: Seq<char>, d: Decl, st: Style)
    ensures
        upper_frame(apply_chunk_4(cs, sel, d, st)) == upper_frame(cs),
{
}

proof fn lemma_kept_upper_5(cs: ColorScheme, sel: Seq<char>, d: Decl, st: Style)
    ensures
        upper_frame(apply_chunk_5(cs, sel, d, st)) == upper_frame(cs),
{
}

proof fn lemma_kept_upper_6(cs: ColorScheme, sel: Seq<char>, d: Decl, st: Style)
    ensures
        upper_frame(apply_chunk_6(cs, sel, d, st)) == upper_frame(cs),
{
}

proof fn lemma_kept_upper_7(cs: ColorScheme, sel: Seq<char>, d: Decl, st: Style)
    ensures
        upper_frame(apply_chunk_7(cs, sel, d, st)) == upper_frame(cs),
{
}

proof fn lemma_kept_upper_8(cs: ColorScheme, sel: Seq<char>, d: Decl, st: Style)
    ensures
        upper_frame(apply_chunk_8(cs, sel, d, st)) == upper_frame(cs),
{
}

proof fn lemma_kept_upper_9(cs: ColorScheme, sel: Seq<char>, d: Decl, st: Style)
    ensures
        upper_frame(apply_chunk_9(cs, sel, d, st)) == upper_frame(cs),
{
}

proof fn lemma_kept_upper_10(cs: ColorScheme, sel: Seq<char>, d: Decl, st: Style)
    ensures
        upper_frame(apply_chunk_10(cs, sel, d, st)) == upper_frame(cs),
{
}

proof fn lemma_kept_upper_11(cs: ColorScheme, sel: Seq<char>, d: Decl, st: Style)
    ensures
        upper_frame(apply_chunk_11(cs, sel, d, st)) == upper_frame(cs),
{
}

proof fn lemma_kept_upper_12(cs: ColorScheme, sel: Seq<char>, d: Decl, st: Style)
    ensures
        upper_frame(apply_chunk_12(cs, sel, d, st)) == upper_frame(cs),
{
}

proof fn lemma_kept_upper_13(cs: ColorScheme, sel: Seq<char>, d: Decl, st: Style)
    ensures
        sel != "upper_window_border"@ ==> upper_frame(apply_chunk_13(cs, sel, d, st)) == upper_frame(cs),
{
}

proof fn lemma_kept_upper_14(cs: ColorScheme, sel: Seq<char>, d: Decl, st: Style)
    ensures
        upper_frame(apply_chunk_14(cs, sel, d, st)) == upper_frame(cs),
{
}

proof fn lemma_apply_keeps_upper(cs: ColorScheme, sel: Seq<char>, d: Decl, gs: GhosttyScheme)
    ensures
        sel != "upper_window_border"@ ==> upper_frame(spec_apply_decl(cs, sel, d, gs)) == upper_frame(cs),
{
    reveal(spec_apply_decl);
    if chunk_0_has(sel) {
        lemma_kept_upper_0(cs, sel, d, spec_decl_to_style(d, gs));
    } else if chunk_1_has(sel) {
        lemma_kept_upper_1(cs, sel, d, spec_decl_to_style(d, gs));
    } else if chunk_2_has(sel) {
        lemma_kept_upper_2(cs, sel, d, spec_decl_to_style(d, gs));
    } else if chunk_3_has(sel) {
        lemma_kept_upper_3(cs, sel, d, spec_decl_to_style(d, gs));
    } else if chunk_4_has(sel) {
        lemma_kept_upper_4(cs, sel, d, spec_decl_to_style(d, gs));
    } else if chunk_5_has(sel) {
        lemma_kept_upper_5(cs, sel, d, spec_decl_to_style(d, gs));
    } else if chunk_6_has(sel) {
        lemma_kept_upper_6(cs, sel, d, spec_decl_to_style(d, gs));
    } else if chunk_7_has(sel) {
        lemma_kept_upper_7(cs, sel, d, spec_decl_to_style(d, gs));
    } else if chunk_8_has(sel) {
        lemma_kept_upper_8(cs, sel, d, spec_decl_to_style(d, gs));
    } else if chunk_9_has(sel) {
        lemma_kept_upper_9(cs, sel, d, spec_decl_to_style(d, gs));
    } else if chunk_10_has(sel) {
        lemma_kept_upper_10(cs, sel, d, spec_decl_to_style(d, gs));
    } else if chunk_11_has(sel) {
        lemma_kept_upper_11(cs, sel, d, spec_decl_to_style(d, gs));
    } else if chunk_12_has(sel) {
        lemma_kept_upper_12(cs, sel, d, spec_decl_to_style(d, gs));
    } else if chunk_13_has(sel) {
        lemma_kept_upper_13(cs, sel, d, spec_decl_to_style(d, gs));
    } else if chunk_14_has(sel) {
        lemma_kept_upper_14(cs, sel, d, spec_decl_to_style(d, gs));
    }
}

proof fn lemma_kept_suggestion_0(cs: ColorScheme, sel: Seq<char>, d: Decl, st: Style)
    ensures
        suggestion_frame(apply_chunk_0(cs, sel, d, st)) == suggestion_frame(cs),
{
}

proof fn lemma_kept_suggestion_1(cs: ColorScheme, sel: Seq<char>, d: Decl, st: Style)
    ensures
        suggestion_frame(apply_chunk_1(cs, sel, d, st)) == suggestion_frame(cs),
{
}

proof fn lemma_kept_suggestion_2(cs: ColorScheme, sel: Seq<char>, d: Decl, st: Style)
    ensures
        suggestion_frame(apply_chunk_2(cs, sel, d, st)) == suggestion_frame(cs),
{
}

proof fn lemma_kept_suggestion_3(cs: ColorScheme, sel: Seq<char>, d: Decl, st: Style)
    ensures
        suggestion_frame(apply_chunk_3(cs, sel, d, st)) == suggestion_frame(cs),
{
}

proof fn lemma_kept_suggestion_4(cs: ColorScheme, sel: Seq<char>, d: Decl, st: Style)
    ensures
        suggestion_frame(apply_chunk_4(cs, sel, d, st)) == suggestion_frame(cs),
{
}

proof fn lemma_kept_suggestion_5(cs: ColorScheme, sel: Seq<char>, d: Decl, st: Style)
    ensures
        suggestion_frame(apply_chunk_5(cs, sel, d, st)) == suggestion_frame(cs),
{
}

proof fn lemma_kept_suggestion_6(cs: ColorScheme, sel: Seq<char>, d: Decl, st: Style)
    ensures
        suggestion_frame(apply_chunk_6(cs, sel, d, st)) == suggestion_frame(cs),
{
}

proof fn lemma_kept_suggestion_7(cs: ColorScheme, sel: Seq<char>, d: Decl, st: Style)
    ensures
        suggestion_frame(apply_chunk_7(cs, sel, d, st)) == suggestion_frame(cs),
{
}

proof fn lemma_kept_suggestion_8(cs: ColorScheme, sel: Seq<char>, d: Decl, st: Style)
    ensures
        sel != "suggestion_line"@ ==> suggestion_frame(apply_chunk_8(cs, sel, d, st)) == suggestion_frame(cs),
{
}

proof fn lemma_kept_suggestion_9(cs: ColorScheme, sel: Seq<char>, d: Decl, st: Style)
    ensures
        suggestion_frame(apply_chunk_9(cs, sel, d, st)) == suggestion_frame(cs),
{
}

proof fn lemma_kept_suggestion_10(cs: ColorScheme, sel: Seq<char>, d: Decl, st: Style)
    ensures
        suggestion_frame(apply_chunk_10(cs, sel, d, st)) == suggestion_frame(cs),
{
}

proof fn lemma_kept_suggestion_11(cs: ColorScheme, sel: Seq<char>, d: Decl, st: Style)
    ensures
        suggestion_frame(apply_chunk_11(cs, sel, d, st)) == suggestion_frame(cs),
{
}

proof fn lemma_kept_suggestion_12(cs: ColorScheme, sel: Seq<char>, d: Decl, st: Style)
    ensures
        suggestion_frame(apply_chunk_12(cs, sel, d, st)) == suggestion_frame(cs),
{
}

proof fn lemma_kept_suggestion_13(cs: ColorScheme, sel: Seq<char>, d: Decl, st: Style)
    ensures
        suggestion_frame(apply_chunk_13(cs, sel, d, st)) == suggestion_frame(cs),
{
}

proof fn lemma_kept_suggestion_14(cs: ColorScheme, sel: Seq<char>, d: Decl, st: Style)
    ensures
        suggestion_frame(apply_chunk_14(cs, sel, d, st)) == suggestion_frame(cs),
{
}

proof fn lemma_apply_keeps_suggestion(cs: ColorScheme, sel: Seq<char>, d: Decl, gs: GhosttyScheme)
    ensures
        sel != "suggestion_line"@ ==> suggestion_frame(spec_apply_decl(cs, sel, d, gs)) == suggestion_frame(cs),
{
    reveal(spec_apply_decl);
    if chunk_0_has(sel) {
        lemma_kept_suggestion_0(cs, sel, d, spec_decl_to_style(d, gs));
    } else if chunk_1_has(sel) {
        lemma_kept_suggestion_1(cs, sel, d, spec_decl_to_style(d, gs));
    } else if chunk_2_has(sel) {
        lemma_kept_suggestion_2(cs, sel, d, spec_decl_to_style(d, gs));
    } else if chunk_3_has(sel) {
        lemma_kept_suggestion_3(cs, sel, d, spec_decl_to_style(d, gs));
    } else if chunk_4_has(sel) {
        lemma_kept_suggestion_4(cs, sel, d, spec_decl_to_style(d, gs));
    } else if chunk_5_has(sel) {
        lemma_kept_suggestion_5(cs, sel, d, spec_decl_to_style(d, gs));
    } else if chunk_6_has(sel) {
        lemma_kept_suggestion_6(cs, sel, d, spec_decl_to_style(d, gs));
    } else if chunk_7_has(sel) {
        lemma_kept_suggestion_7(cs, sel, d, spec_decl_to_style(d, gs));
    } else if chunk_8_has(sel) {
        lemma_kept_suggestion_8(cs, sel, d, spec_decl_to_style(d, gs));
    } else if chunk_9_has(sel) {
        lemma_kept_suggestion_9(cs, sel, d, spec_decl_to_style(d, gs));
    } else if chunk_10_has(sel) {
        lemma_kept_suggestion_10(cs, sel, d, spec_decl_to_style(d, gs));
    } else if chunk_11_has(sel) {
        lemma_kept_suggestion_11(cs, sel, d, spec_decl_to_style(d, gs));
    } else if chunk_12_has(sel) {
        lemma_kept_suggestion_12(cs, sel, d, spec_decl_to_style(d, gs));
    } else if chunk_13_has(sel) {
        lemma_kept_suggestion_13(cs, sel, d, spec_decl_to_style(d, gs));
    } else if chunk_14_has(sel) {
        lemma_kept_suggestion_14(cs, sel, d, spec_decl_to_style(d, gs));
    }
}

proof fn lemma_kept_dialog_0(cs: ColorScheme, sel: Seq<char>, d: Decl, st: Style)
    ensures
        dialog_view(apply_chunk_0(cs, sel, d, st)) == dialog_view(cs),
{
}

proof fn lemma_kept_dialog_1(cs: ColorScheme, sel: Seq<char>, d: Decl, st: Style)
    ensures
        dialog_view(apply_chunk_1(cs, sel, d, st)) == dialog_view(cs),
{
}

proof fn lemma_kept_dialog_2(cs: ColorScheme, sel: Seq<char>, d: Decl, st: Style)
    ensures
        dialog_view(apply_chunk_2(cs, sel, d, st)) == dialog_view(cs),
{
}

proof fn lemma_kept_dialog_3(cs: ColorScheme, sel: Seq<char>, d: Decl, st: Style)
    ensures
        dialog_view(apply_chunk_3(cs, sel, d, st)) == dialog_view(cs),
{
}

proof fn lemma_kept_dialog_4(cs: ColorScheme, sel: Seq<char>, d: Decl, st: Style)
    ensures
        dialog_view(apply_chunk_4(cs, sel, d, st)) == dialog_view(cs),
{
}

proof fn lemma_kept_dialog_5(cs: ColorScheme, sel: Seq<char>, d: Decl, st: Style)
    ensures
        dialog_view(apply_chunk_5(cs, sel, d, st)) == dialog_view(cs),
{
}

proof fn lemma_kept_dialog_6(cs: ColorScheme, sel: Seq<char>, d: Decl, st: Style)
    ensures
        dialog_view(apply_chunk_6(cs, sel, d, st)) == dialog_view(cs),
{
}

proof fn lemma_kept_dialog_7(cs: ColorScheme, sel: Seq<char>, d: Decl, st: Style)
    ensures
        dialog_view(apply_chunk_7(cs, sel, d, st)) == dialog_view(cs),
{
}

proof fn lemma_kept_dialog_8(cs: ColorScheme, sel: Seq<char>, d: Decl, st: Style)
    ensures
        dialog_view(apply_chunk_8(cs, sel, d, st)) == dialog_view(cs),
{
}

proof fn lemma_kept_dialog_9(cs: ColorScheme, sel: Seq<char>, d: Decl, st: Style)
    ensures
        dialog_view(apply_chunk_9(cs, sel, d, st)) == dialog_view(cs),
{
}

proof fn lemma_kept_dialog_10(cs: ColorScheme, sel: Seq<char>, d: Decl, st: Style)
    ensures
        dialog_view(apply_chunk_10(cs, sel, d, st)) == dialog_view(cs),
{
}

proof fn lemma_kept_dialog_11(cs: ColorScheme, sel: Seq<char>, d: Decl, st: Style)
    ensures
        dialog_view(apply_chunk_11(cs, sel, d, st)) == dialog_view(cs),
{
}

proof fn lemma_kept_dialog_12(cs: ColorScheme, sel: Seq<char>, d: Decl, st: Style)
    ensures
        dialog_view(apply_chunk_12(cs, sel, d, st)) == dialog_view(cs),
{
}

proof fn lemma_kept_dialog_13(cs: ColorScheme, sel: Seq<char>, d: Decl, st: Style)
    ensures
        dialog_view(apply_chunk_13(cs, sel, d, st)) == dialog_view(cs),
{
}

proof fn lemma_kept_dialog_14(cs: ColorScheme, sel: Seq<char>, d: Decl, st: Style)
    ensures
        sel != "dialog"@ ==> dialog_view(apply_chunk_14(cs, sel, d, st)) == dialog_view(cs),
{
}

proof fn lemma_apply_keeps_dialog(cs: ColorScheme, sel: Seq<char>, d: Decl, gs: GhosttyScheme)
    ensures
        sel != "dialog"@ ==> dialog_view(spec_apply_decl(cs, sel, d, gs)) == dialog_view(cs),
{
    reveal(spec_apply_decl);
    if chunk_0_has(sel) {
        lemma_kept_dialog_0(cs, sel, d, spec_decl_to_style(d, gs));
    } else if chunk_1_has(sel) {
        lemma_kept_dialog_1(cs, sel, d, spec_decl_to_style(d, gs));
    } else if chunk_2_has(sel) {
        lemma_kept_dialog_2(cs, sel, d, spec_decl_to_style(d, gs));
    } else if chunk_3_has(sel) {
        lemma_kept_dialog_3(cs, sel, d, spec_decl_to_style(d, gs));
    } else if chunk_4_has(sel) {
        lemma_kept_dialog_4(cs, sel, d, spec_decl_to_style(d, gs));
    } else if chunk_5_has(sel) {
        lemma_kept_dialog_5(cs, sel, d, spec_decl_to_style(d, gs));
    } else if chunk_6_has(sel) {
        lemma_kept_dialog_6(cs, sel, d, spec_decl_to_style(d, gs));
    } else if chunk_7_has(sel) {
        lemma_kept_dialog_7(cs, sel, d, spec_decl_to_style(d, gs));
    } else if chunk_8_has(sel) {
        lemma_kept_dialog_8(cs, sel, d, spec_decl_to_style(d, gs));
    } else if chunk_9_has(sel) {
        lemma_kept_dialog_9(cs, sel, d, spec_decl_to_style(d, gs));
    } else if chunk_10_has(sel) {
        lemma_kept_dialog_10(cs, sel, d, spec_decl_to_style(d, gs));
    } else if chunk_11_has(sel) {
        lemma_kept_dialog_11(cs, sel, d, spec_decl_to_style(d, gs));
    } else if chunk_12_has(sel) {
        lemma_kept_dialog_12(cs, sel, d, spec_decl_to_style(d, gs));
    } else if chunk_13_has(sel) {
        lemma_kept_dialog_13(cs, sel, d, spec_decl_to_style(d, gs));
    } else if chunk_14_has(sel) {
        lemma_kept_dialog_14(cs, sel, d, spec_decl_to_style(d, gs));
    }
}

#[verifier::rlimit(100)]
proof fn lemma_apply_step_map_border(cs: ColorScheme, sel: Seq<char>, d: Decl, gs: GhosttyScheme)
    requires
        sel == "map_border"@,
    ensures
        map_frame(spec_apply_decl(cs, sel, d, gs)) == frame_step(map_frame(cs), d, true),
{
    reveal(spec_apply_decl);
    lemma_selector_shapes();
    assert(!chunk_0_has(sel) && !chunk_1_has(sel) && !chunk_2_has(sel) && !chunk_3_has(sel) && !chunk_4_has(sel) && !chunk_5_has(sel) && !chunk_6_has(sel) && !chunk_7_has(sel) && !chunk_8_has(sel));
}

#[verifier::rlimit(100)]
proof fn lemma_apply_step_story_border(cs: ColorScheme, sel: Seq<char>, d: Decl, gs: GhosttyScheme)
    requires
        sel == "story_border"@,
    ensures
        story_frame(spec_apply_decl(cs, sel, d, gs)) == frame_step(story_frame(cs), d, true),
{
    reveal(spec_apply_decl);
    lemma_selector_shapes();
    assert(!chunk_0_has(sel) && !chunk_1_has(sel) && !chunk_2_has(sel) && !chunk_3_has(sel) && !chunk_4_has(sel) && !chunk_5_has(sel) && !chunk_6_has(sel) && !chunk_7_has(sel) && !chunk_8_has(sel) && !chunk_9_has(sel));
}

#[verifier::rlimit(100)]
proof fn lemma_apply_step_status_header(cs: ColorScheme, sel: Seq<char>, d: Decl, gs: GhosttyScheme)
    requires
        sel == "status_header"@,
    ensures
        status_frame(spec_apply_decl(cs, sel, d, gs)) == frame_step(status_frame(cs), d, false),
{
    reveal(spec_apply_decl);
    lemma_selector_shapes();
    assert(!chunk_0_has(sel) && !chunk_1_has(sel) && !chunk_2_has(sel) && !chunk_3_has(sel) && !chunk_4_has(sel) && !chunk_5_has(sel) && !chunk_6_has(sel) && !chunk_7_has(sel) && !chunk_8_has(sel) && !chunk_9_has(sel) && !chunk_10_has(sel));
}

#[verifier::rlimit(100)]
proof fn lemma_apply_step_input_line(cs: ColorScheme, sel: Seq<char>, d: Decl, gs: GhosttyScheme)
    requires
        sel == "input_line"@,
    ensures
        input_frame(spec_apply_decl(cs, sel, d, gs)) == frame_step(input_frame(cs), d, false),
{
    reveal(spec_apply_decl);
    lemma_selector_shapes();
    assert(!chunk_0_has(sel) && !chunk_1_has(sel) && !chunk_2_has(sel) && !chunk_3_has(sel) && !chunk_4_has(sel) && !chunk_5_has(sel) && !chunk_6_has(sel) && !chunk_7_has(sel) && !chunk_8_has(sel) && !chunk_9_has(sel) && !chunk_10_has(sel) && !chunk_11_has(sel));
}

#[verifier::rlimit(100)]
proof fn lemma_apply_step_upper_window_border(cs: ColorScheme, sel: Seq<char>, d: Decl, gs: GhosttyScheme)
    requires
        sel == "upper_window_border"@,
    ensures
        upper_frame(spec_apply_decl(cs, sel, d, gs)) == frame_step(upper_frame(cs), d, false),
{
    reveal(spec_apply_decl);
    lemma_selector_shapes();
    assert(!chunk_0_has(sel) && !chunk_1_has(sel) && !chunk_2_has(sel) && !chunk_3_has(sel) && !chunk_4_has(sel) && !chunk_5_has(sel) && !chunk_6_has(sel) && !chunk_7_has(sel) && !chunk_8_has(sel) && !chunk_9_has(sel) && !chunk_10_has(sel) && !chunk_11_has(sel) && !chunk_12_has(sel));
}

#[verifier::rlimit(100)]
proof fn lemma_apply_step_suggestion_line(cs: ColorScheme, sel: Seq<char>, d: Decl, gs: GhosttyScheme)
    requires
        sel == "suggestion_line"@,
    ensures
        suggestion_frame(spec_apply_decl(cs, sel, d, gs)) == frame_step(suggestion_frame(cs), d, false),
{
    reveal(spec_apply_decl);
    lemma_selector_shapes();
    assert(!chunk_0_has(sel) && !chunk_1_has(sel) && !chunk_2_has(sel) && !chunk_3_has(sel) && !chunk_4_has(sel) && !chunk_5_has(sel) && !chunk_6_has(sel) && !chunk_7_has(sel));
}

#[verifier::rlimit(100)]
proof fn lemma_apply_step_dialog(cs: ColorScheme, sel: Seq<char>, d: Decl, gs: GhosttyScheme)
    requires
        sel == "dialog"@,
    ensures
        dialog_view(spec_apply_decl(cs, sel, d, gs)) == dialog_step(dialog_view(cs), d),
{
    reveal(spec_apply_decl);
    lemma_selector_shapes();
    assert(!chunk_0_has(sel) && !chunk_1_has(sel) && !chunk_2_has(sel) && !chunk_3_has(sel) && !chunk_4_has(sel) && !chunk_5_has(sel) && !chunk_6_has(sel) && !chunk_7_has(sel) && !chunk_8_has(sel) && !chunk_9_has(sel) && !chunk_10_has(sel) && !chunk_11_has(sel) && !chunk_12_has(sel) && !chunk_13_has(sel));
}

proof fn lemma_apply_frames(cs: ColorScheme, sel: Seq<char>, d: Decl, gs: GhosttyScheme)
    ensures
        sel != "map_border"@ ==> map_frame(spec_apply_decl(cs, sel, d, gs)) == map_frame(cs),
        sel == "map_border"@ ==> map_frame(spec_apply_decl(cs, sel, d, gs)) == frame_step(map_frame(cs), d, true),
        sel != "story_border"@ ==> story_frame(spec_apply_decl(cs, sel, d, gs)) == story_frame(cs),
        sel == "story_border"@ ==> story_frame(spec_apply_decl(cs, sel, d, gs)) == frame_step(story_frame(cs), d, true),
        sel != "status_header"@ ==> status_frame(spec_apply_decl(cs, sel, d, gs)) == status_frame(cs),
        sel == "status_header"@ ==> status_frame(spec_apply_decl(cs, sel, d, gs)) == frame_step(status_frame(cs), d, false),
        sel != "input_line"@ ==> input_frame(spec_apply_decl(cs, sel, d, gs)) == input_frame(cs),
        sel == "input_line"@ ==> input_frame(spec_apply_decl(cs, sel, d, gs)) == frame_step(input_frame(cs), d, false),
        sel != "upper_window_border"@ ==> upper_frame(spec_apply_decl(cs, sel, d, gs)) == upper_frame(cs),
        sel == "upper_window_border"@ ==> upper_frame(spec_apply_decl(cs, sel, d, gs)) == frame_step(upper_frame(cs), d, false),
        sel != "suggestion_line"@ ==> suggestion_frame(spec_apply_decl(cs, sel, d, gs)) == suggestion_frame(cs),
        sel == "suggestion_line"@ ==> suggestion_frame(spec_apply_decl(cs, sel, d, gs)) == frame_step(suggestion_frame(cs), d, false),
        sel != "dialog"@ ==> dialog_view(spec_apply_decl(cs, sel, d, gs)) == dialog_view(cs),
        sel == "dialog"@ ==> dialog_view(spec_apply_decl(cs, sel, d, gs)) == dialog_step(dialog_view(cs), d),
{
    lemma_apply_keeps_map(cs, sel, d, gs);
    lemma_apply_keeps_story(cs, sel, d, gs);
    lemma_apply_keeps_status(cs, sel, d, gs);
    lemma_apply_keeps_input(cs, sel, d, gs);
    lemma_apply_keeps_upper(cs, sel, d, gs);
    lemma_apply_keeps_suggestion(cs, sel, d, gs);
    lemma_apply_keeps_dialog(cs, sel, d, gs);
    lemma_selector_shapes();
    if sel == "map_border"@ {
        lemma_apply_step_map_border(cs, sel, d, gs);
    } else if sel == "story_border"@ {
        lemma_apply_step_story_border(cs, sel, d, gs);
    } else if sel == "status_header"@ {
        lemma_apply_step_status_header(cs, sel, d, gs);
    } else if sel == "input_line"@ {
        lemma_apply_step_input_line(cs, sel, d, gs);
    } else if sel == "upper_window_border"@ {
        lemma_apply_step_upper_window_border(cs, sel, d, gs);
    } else if sel == "suggestion_line"@ {
        lemma_apply_step_suggestion_line(cs, sel, d, gs);
    } else if sel == "dialog"@ {
        lemma_apply_step_dialog(cs, sel, d, gs);
    }
}

pub(crate) proof fn lemma_apply_decls_frames(cs: ColorScheme, ps: Seq<(String, Decl)>, gs: GhosttyScheme)
    requires
        sorted_keys(ps),
    ensures
        map_frame(spec_apply_decls(cs, ps, gs)) == match lookup(ps, "map_border"@) {
            Some(d) => frame_step(map_frame(cs), d, true),
            None => map_frame(cs),
        },
        story_frame(spec_apply_decls(cs, ps, gs)) == match lookup(ps, "story_border"@) {
            Some(d) => frame_step(story_frame(cs), d, true),
            None => story_frame(cs),
        },
        status_frame(spec_apply_decls(cs, ps, gs)) == match lookup(ps, "status_header"@) {
            Some(d) => frame_step(status_frame(cs), d, false),
            None => status_frame(cs),
        },
        input_frame(spec_apply_decls(cs, ps, gs)) == match lookup(ps, "input_line"@) {
            Some(d) => frame_step(input_frame(cs), d, false),
            None => input_frame(cs),
        },
        upper_frame(spec_apply_decls(cs, ps, gs)) == match lookup(ps, "upper_window_border"@) {
            Some(d) => frame_step(upper_frame(cs), d, false),
            None => upper_frame(cs),
        },
        suggestion_frame(spec_apply_decls(cs, ps, gs)) == match lookup(ps, "suggestion_line"@) {
            Some(d) => frame_step(suggestion_frame(cs), d, false),
            None => suggestion_frame(cs),
        },
        dialog_view(spec_apply_decls(cs, ps, gs)) == match lookup(ps, "dialog"@) {
            Some(d) => dialog_step(dialog_view(cs), d),
            None => dialog_view(cs),
        },
    decreases ps.len(),
{
    if ps.len() > 0 {
        lemma_sorted_tail(ps);
        lemma_apply_frames(cs, ps[0].0@, ps[0].1, gs);
        lemma_apply_decls_frames(spec_apply_decl(cs, ps[0].0@, ps[0].1, gs), ps.drop_first(), gs);
    }
}


/// Every line style reads back from its name.
proof fn lemma_border_name_round_trip(b: BorderStyle)
    ensures
        spec_parse_border_style(spec_border_style_name(b)@) == b,
{
    reveal_strlit("none");
    reveal_strlit("single");
    reveal_strlit("double");
    reveal_strlit("thick");
    reveal_strlit("rounded");
    assert("none"@.len() == 4 && "single"@.len() == 6 && "double"@.len() == 6);
    assert("thick"@.len() == 5 && "rounded"@.len() == 7);
    assert("single"@[0] == 's' && "double"@[0] == 'd');
}

/// Every placement but `center` reads back from its token.
proof fn lemma_placement_round_trip(p: DialogPlacement)
    requires
        p != DialogPlacement::Center,
    ensures
        spec_placement_from_token(spec_placement_token(p)@) == p,
{
    reveal_strlit("top");
    reveal_strlit("bottom");
    reveal_strlit("left");
    reveal_strlit("right");
    reveal_strlit("top-left");
    reveal_strlit("top-right");
    reveal_strlit("bottom-left");
    reveal_strlit("bottom-right");
    assert("top"@.len() == 3 && "bottom"@.len() == 6 && "left"@.len() == 4 && "right"@.len() == 5);
    assert("top-left"@.len() == 8 && "top-right"@.len() == 9 && "bottom-left"@.len() == 11);
    assert("bottom-right"@.len() == 12);
}

/// A frame reads back from the declaration that writes it, over a base frame:
/// a line style that is not written is the base's, and so is a header switch
/// that is not written (the one written is "off").
proof fn lemma_frame_step_writes(
    fb: FrameView,
    f: FrameView,
    d: Decl,
    color: Option<Style>,
    style: Option<Seq<char>>,
    header: Option<bool>,
    has_header: bool,
)
    requires
        writes_border(d, color, style, f.0, f.1, f.2, header),
        match style {
            Some(n) => n == spec_border_style_name(f.0)@,
            None => f.0 == BorderStyle::NoBorder && fb.0 == BorderStyle::NoBorder,
        },
        if has_header {
            header == (if f.3 {
                None
            } else {
                Some(false)
            }) && (f.3 ==> fb.3)
        } else {
            header is None && fb.3 == f.3
        },
    ensures
        frame_step(fb, d, has_header) == f,
{
    lemma_border_name_round_trip(f.0);
    lemma_border_name_round_trip(f.1.top);
    lemma_border_name_round_trip(f.1.bottom);
    lemma_border_name_round_trip(f.1.left);
    lemma_border_name_round_trip(f.1.right);
    let b = side_style(d.style, fb.0);
    assert(b == f.0);
}

/// The dialog settings read back from the declaration that writes them, over
/// base settings: an unwritten shadow, placement or margin is the base's.
proof fn lemma_dialog_step_writes(fb: DialogView, cs: ColorScheme, d: Decl)
    requires
        writes_dialog(d, cs),
        !cs.dialog_shadow_on ==> !fb.1,
        cs.dialog_placement == DialogPlacement::Center ==> fb.2 == DialogPlacement::Center,
        cs.dialog_margin == 0 ==> fb.3 == 0,
    ensures
        dialog_step(fb, d) == dialog_view(cs),
{
    lemma_border_name_round_trip(cs.dialog_box_style);
    if cs.dialog_placement != DialogPlacement::Center {
        lemma_placement_round_trip(cs.dialog_placement);
    }
}

/// The declaration a full export writes for selector number `i` is what its
/// selector map binds that selector to.
proof fn lemma_export_entry(cs: ColorScheme, e: Seq<(String, Decl)>, i: int)
    requires
        e.len() == full_key_count(),
        full_entries_ok(cs, e),
        distinct_keys(e),
        0 <= i < full_key_count(),
    ensures
        sorted_keys(insert_all(Seq::<(String, Decl)>::empty(), e)),
        lookup(insert_all(Seq::<(String, Decl)>::empty(), e), full_key(i)) == Some(e[i].1),
        full_decl_ok(cs, i, e[i].1),
{
    lemma_insert_all_distinct(Seq::<(String, Decl)>::empty(), e, i);
    lemma_full_entries_at(cs, e, i);
}

proof fn lemma_export_keys_distinct(cs: ColorScheme, e: Seq<(String, Decl)>)
    requires
        e.len() == full_key_count(),
        full_entries_ok(cs, e),
    ensures
        distinct_keys(e),
{
    assert forall|a: int, b: int| 0 <= a < b < e.len() implies #[trigger] e[a].0@ != #[trigger] e[b].0@ by {
        lemma_full_entries_at(cs, e, a);
        lemma_full_entries_at(cs, e, b);
        lemma_full_key(cs, a, e[a].1);
        lemma_full_key(cs, b, e[b].1);
    }
}

proof fn lemma_export_map_frame(cs: ColorScheme, base: ColorScheme, gs: GhosttyScheme, e: Seq<(String, Decl)>)
    requires
        e.len() == full_key_count(),
        full_entries_ok(cs, e),
        distinct_keys(e),
        cs.map_header_on ==> base.map_header_on,
    ensures
        map_frame(spec_apply_decls(base, insert_all(Seq::<(String, Decl)>::empty(), e), gs)) == map_frame(cs),
{
    let ps = insert_all(Seq::<(String, Decl)>::empty(), e);
    lemma_export_entry(cs, e, 26);
    assert(full_key(26) == "map_border"@);
    lemma_apply_decls_frames(base, ps, gs);
    lemma_frame_step_writes(map_frame(base), map_frame(cs), e[26].1, Some(cs.map_border), Some(spec_border_style_name(cs.map_border_style)@), if cs.map_header_on { None } else { Some(false) }, true);
}

proof fn lemma_export_story_frame(cs: ColorScheme, base: ColorScheme, gs: GhosttyScheme, e: Seq<(String, Decl)>)
    requires
        e.len() == full_key_count(),
        full_entries_ok(cs, e),
        distinct_keys(e),
        cs.story_header_on ==> base.story_header_on,
    ensures
        story_frame(spec_apply_decls(base, insert_all(Seq::<(String, Decl)>::empty(), e), gs)) == story_frame(cs),
{
    let ps = insert_all(Seq::<(String, Decl)>::empty(), e);
    lemma_export_entry(cs, e, 27);
    assert(full_key(27) == "story_border"@);
    lemma_apply_decls_frames(base, ps, gs);
    lemma_frame_step_writes(story_frame(base), story_frame(cs), e[27].1, Some(cs.story_border), Some(spec_border_style_name(cs.story_border_style)@), if cs.story_header_on { None } else { Some(false) }, true);
}

proof fn lemma_export_status_frame(cs: ColorScheme, base: ColorScheme, gs: GhosttyScheme, e: Seq<(String, Decl)>)
    requires
        e.len() == full_key_count(),
        full_entries_ok(cs, e),
        distinct_keys(e),
        cs.status_header_style == BorderStyle::NoBorder ==> base.status_header_style == BorderStyle::NoBorder,
    ensures
        status_frame(spec_apply_decls(base, insert_all(Seq::<(String, Decl)>::empty(), e), gs)) == status_frame(cs),
{
    let ps = insert_all(Seq::<(String, Decl)>::empty(), e);
    lemma_export_entry(cs, e, 49);
    assert(full_key(49) == "status_header"@);
    lemma_apply_decls_frames(base, ps, gs);
    lemma_frame_step_writes(status_frame(base), status_frame(cs), e[49].1, Some(cs.status_header), style_if_lined(cs.status_header_style), None, false);
}

proof fn lemma_export_input_frame(cs: ColorScheme, base: ColorScheme, gs: GhosttyScheme, e: Seq<(String, Decl)>)
    requires
        e.len() == full_key_count(),
        full_entries_ok(cs, e),
        distinct_keys(e),
        cs.input_line_style == BorderStyle::NoBorder ==> base.input_line_style == BorderStyle::NoBorder,
    ensures
        input_frame(spec_apply_decls(base, insert_all(Seq::<(String, Decl)>::empty(), e), gs)) == input_frame(cs),
{
    let ps = insert_all(Seq::<(String, Decl)>::empty(), e);
    lemma_export_entry(cs, e, 50);
    assert(full_key(50) == "input_line"@);
    lemma_apply_decls_frames(base, ps, gs);
    lemma_frame_step_writes(input_frame(base), input_frame(cs), e[50].1, Some(cs.input_line), style_if_lined(cs.input_line_style), None, false);
}

proof fn lemma_export_upper_frame(cs: ColorScheme, base: ColorScheme, gs: GhosttyScheme, e: Seq<(String, Decl)>)
    requires
        e.len() == full_key_count(),
        full_entries_ok(cs, e),
        distinct_keys(e),
    ensures
        upper_frame(spec_apply_decls(base, insert_all(Seq::<(String, Decl)>::empty(), e), gs)) == upper_frame(cs),
{
    let ps = insert_all(Seq::<(String, Decl)>::empty(), e);
    lemma_export_entry(cs, e, 59);
    assert(full_key(59) == "upper_window_border"@);
    lemma_apply_decls_frames(base, ps, gs);
    lemma_frame_step_writes(upper_frame(base), upper_frame(cs), e[59].1, Some(cs.upper_window_border), Some(spec_border_style_name(cs.virtual_window_border)@), None, false);
}

proof fn lemma_export_suggestion_frame(cs: ColorScheme, base: ColorScheme, gs: GhosttyScheme, e: Seq<(String, Decl)>)
    requires
        e.len() == full_key_count(),
        full_entries_ok(cs, e),
        distinct_keys(e),
        cs.suggestion_line_style == BorderStyle::NoBorder ==> base.suggestion_line_style == BorderStyle::NoBorder,
    ensures
        suggestion_frame(spec_apply_decls(base, insert_all(Seq::<(String, Decl)>::empty(), e), gs)) == suggestion_frame(cs),
{
    let ps = insert_all(Seq::<(String, Decl)>::empty(), e);
    lemma_export_entry(cs, e, 18);
    assert(full_key(18) == "suggestion_line"@);
    lemma_apply_decls_frames(base, ps, gs);
    lemma_frame_step_writes(suggestion_frame(base), suggestion_frame(cs), e[18].1, None, style_if_lined(cs.suggestion_line_style), None, false);
}

proof fn lemma_export_dialog(cs: ColorScheme, base: ColorScheme, gs: GhosttyScheme, e: Seq<(String, Decl)>)
    requires
        e.len() == full_key_count(),
        full_entries_ok(cs, e),
        distinct_keys(e),
        !cs.dialog_shadow_on ==> !base.dialog_shadow_on,
        cs.dialog_placement == DialogPlacement::Center ==> base.dialog_placement == DialogPlacement::Center,
        cs.dialog_margin == 0 ==> base.dialog_margin == 0,
    ensures
        dialog_view(spec_apply_decls(base, insert_all(Seq::<(String, Decl)>::empty(), e), gs)) == dialog_view(cs),
{
    let ps = insert_all(Seq::<(String, Decl)>::empty(), e);
    lemma_export_entry(cs, e, 51);
    assert(full_key(51) == "dialog"@);
    lemma_apply_decls_frames(base, ps, gs);
    lemma_dialog_step_writes(dialog_view(base), cs, e[51].1);
}

/// Resolving the full export of a scheme gives back every pane frame (line
/// style, sides, glyph overrides, header switch) and the dialog settings of the
/// scheme, wherever what the export leaves unwritten (a line style of `none`
/// on a pane whose line is written only when there is one, a header that is
/// on, no shadow, the `center` placement, a zero margin) is also so in the base.
pub proof fn lemma_full_export_frames_read_back(
    cs: ColorScheme,
    set: SymbolSet,
    doc: StyleDoc,
    base: ColorScheme,
    gs: GhosttyScheme,
    r: ColorScheme,
)
    requires
        is_full_export(doc, cs, set),
        is_resolution(doc, base, gs, r),
        cs.map_header_on ==> base.map_header_on,
        cs.story_header_on ==> base.story_header_on,
        cs.status_header_style == BorderStyle::NoBorder ==> base.status_header_style == BorderStyle::NoBorder,
        cs.input_line_style == BorderStyle::NoBorder ==> base.input_line_style == BorderStyle::NoBorder,
        cs.suggestion_line_style == BorderStyle::NoBorder ==> base.suggestion_line_style == BorderStyle::NoBorder,
        !cs.dialog_shadow_on ==> !base.dialog_shadow_on,
        cs.dialog_placement == DialogPlacement::Center ==> base.dialog_placement == DialogPlacement::Center,
        cs.dialog_margin == 0 ==> base.dialog_margin == 0,
    ensures
        map_frame(r) == map_frame(cs),
        story_frame(r) == story_frame(cs),
        status_frame(r) == status_frame(cs),
        input_frame(r) == input_frame(cs),
        upper_frame(r) == upper_frame(cs),
        suggestion_frame(r) == suggestion_frame(cs),
        dialog_view(r) == dialog_view(cs),
{
    let e = choose|e: Seq<(String, Decl)>|
        #![trigger full_entries_ok(cs, e)]
        e.len() == full_key_count() && full_entries_ok(cs, e) && doc.colors.selectors.pairs() == insert_all(
            Seq::<(String, Decl)>::empty(),
            e,
        );
    lemma_export_keys_distinct(cs, e);
    lemma_export_map_frame(cs, base, gs, e);
    lemma_export_story_frame(cs, base, gs, e);
    lemma_export_status_frame(cs, base, gs, e);
    lemma_export_input_frame(cs, base, gs, e);
    lemma_export_upper_frame(cs, base, gs, e);
    lemma_export_suggestion_frame(cs, base, gs, e);
    lemma_export_dialog(cs, base, gs, e);
    let a = spec_apply_decls(base, doc.colors.selectors.pairs(), gs);
    assert(r.status_header_style == a.status_header_style);
}

} // verus!
