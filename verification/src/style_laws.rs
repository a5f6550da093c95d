//! Laws of style documents and of reading a scheme by selector.

use vstd::prelude::*;
use crate::colors::{plain_style, ColorScheme, GhosttyScheme};
use crate::export_frames::{
    dialog_step, dialog_view, frame_step, input_frame, lemma_apply_decls_frames, DialogView, FrameView, map_frame, status_frame, story_frame, suggestion_frame, upper_frame,
};
use crate::strmap::{lookup, sorted_keys};
use crate::style::{
    doc_wf, is_merge, spec_apply_decls, spec_merge_decl, Decl, known_selector, lemma_merge_per_key, lemma_selector_shapes, same_doc, spec_style_for_selector,
    StyleDoc,
};

verus! {

/// Merging a document over itself gives it back.
pub proof fn lemma_merge_idempotent(d: StyleDoc, r: StyleDoc)
    requires
        doc_wf(d),
        is_merge(d, d, r),
    ensures
        same_doc(r, d),
{
    assert forall|q: Seq<char>| #[trigger] r.colors.selectors.get_spec(q) == d.colors.selectors.get_spec(q) by {
        lemma_merge_per_key(d, d, r, q);
    }
    assert forall|q: Seq<char>| #[trigger] r.symbols.overrides.get_spec(q) == d.symbols.overrides.get_spec(q) by {
        lemma_merge_per_key(d, d, r, q);
    }
}

/// A name that is no selector reads as the plain style.
pub proof fn lemma_unknown_selector_reads_plain(cs: ColorScheme, sel: Seq<char>)
    requires
        !known_selector(sel),
    ensures
        spec_style_for_selector(cs, sel) == plain_style(),
{
}

/// The reserved `border` selector names no field and reads as the plain style.
pub proof fn lemma_border_selector_reads_plain(cs: ColorScheme)
    ensures
        spec_style_for_selector(cs, "border"@) == plain_style(),
{
    lemma_selector_shapes();
}


/// A frame stepped twice by one border declaration is stepped once.
proof fn lemma_frame_step_twice(f: FrameView, d: Decl, has_header: bool)
    ensures
        frame_step(frame_step(f, d, has_header), d, has_header) == frame_step(f, d, has_header),
{
}

/// The dialog settings stepped twice by one declaration are stepped once.
proof fn lemma_dialog_step_twice(f: DialogView, d: Decl)
    ensures
        dialog_step(dialog_step(f, d), d) == dialog_step(f, d),
{
}

/// Applying the same color declarations a second time changes no pane frame
/// (line style, sides, glyph overrides, header switch) and no dialog setting.
pub proof fn lemma_apply_decls_twice_keeps_frames(cs: ColorScheme, ps: Seq<(String, Decl)>, gs: GhosttyScheme)
    requires
        sorted_keys(ps),
    ensures
        map_frame(spec_apply_decls(spec_apply_decls(cs, ps, gs), ps, gs)) == map_frame(spec_apply_decls(cs, ps, gs)),
        story_frame(spec_apply_decls(spec_apply_decls(cs, ps, gs), ps, gs)) == story_frame(spec_apply_decls(cs, ps, gs)),
        status_frame(spec_apply_decls(spec_apply_decls(cs, ps, gs), ps, gs)) == status_frame(spec_apply_decls(cs, ps, gs)),
        input_frame(spec_apply_decls(spec_apply_decls(cs, ps, gs), ps, gs)) == input_frame(spec_apply_decls(cs, ps, gs)),
        upper_frame(spec_apply_decls(spec_apply_decls(cs, ps, gs), ps, gs)) == upper_frame(spec_apply_decls(cs, ps, gs)),
        suggestion_frame(spec_apply_decls(spec_apply_decls(cs, ps, gs), ps, gs)) == suggestion_frame(
            spec_apply_decls(cs, ps, gs),
        ),
        dialog_view(spec_apply_decls(spec_apply_decls(cs, ps, gs), ps, gs)) == dialog_view(spec_apply_decls(cs, ps, gs)),
{
    let once = spec_apply_decls(cs, ps, gs);
    lemma_apply_decls_frames(cs, ps, gs);
    lemma_apply_decls_frames(once, ps, gs);
    if let Some(d) = lookup(ps, "map_border"@) {
        lemma_frame_step_twice(map_frame(cs), d, true);
    }
    if let Some(d) = lookup(ps, "story_border"@) {
        lemma_frame_step_twice(story_frame(cs), d, true);
    }
    if let Some(d) = lookup(ps, "status_header"@) {
        lemma_frame_step_twice(status_frame(cs), d, false);
    }
    if let Some(d) = lookup(ps, "input_line"@) {
        lemma_frame_step_twice(input_frame(cs), d, false);
    }
    if let Some(d) = lookup(ps, "upper_window_border"@) {
        lemma_frame_step_twice(upper_frame(cs), d, false);
    }
    if let Some(d) = lookup(ps, "suggestion_line"@) {
        lemma_frame_step_twice(suggestion_frame(cs), d, false);
    }
    if let Some(d) = lookup(ps, "dialog"@) {
        lemma_dialog_step_twice(dialog_view(cs), d);
    }
}

/// Merging declarations field by field: a field that the overriding
/// declaration sets is the merged field, and a field that it leaves unset is
/// the base declaration's.
pub proof fn lemma_merge_decl_set_field_wins(base: Decl, over: Decl)
    ensures
        over.fg is Some ==> spec_merge_decl(base, over).fg == over.fg,
        over.fg is None ==> spec_merge_decl(base, over).fg == base.fg,
        over.bg is Some ==> spec_merge_decl(base, over).bg == over.bg,
        over.bg is None ==> spec_merge_decl(base, over).bg == base.bg,
        over.bold is Some ==> spec_merge_decl(base, over).bold == over.bold,
        over.bold is None ==> spec_merge_decl(base, over).bold == base.bold,
        over.italic is Some ==> spec_merge_decl(base, over).italic == over.italic,
        over.italic is None ==> spec_merge_decl(base, over).italic == base.italic,
        over.underline is Some ==> spec_merge_decl(base, over).underline == over.underline,
        over.underline is None ==> spec_merge_decl(base, over).underline == base.underline,
        over.dim is Some ==> spec_merge_decl(base, over).dim == over.dim,
        over.dim is None ==> spec_merge_decl(base, over).dim == base.dim,
        over.reversed is Some ==> spec_merge_decl(base, over).reversed == over.reversed,
        over.reversed is None ==> spec_merge_decl(base, over).reversed == base.reversed,
        over.style is Some ==> spec_merge_decl(base, over).style == over.style,
        over.style is None ==> spec_merge_decl(base, over).style == base.style,
        over.style_top is Some ==> spec_merge_decl(base, over).style_top == over.style_top,
        over.style_top is None ==> spec_merge_decl(base, over).style_top == base.style_top,
        over.style_bottom is Some ==> spec_merge_decl(base, over).style_bottom == over.style_bottom,
        over.style_bottom is None ==> spec_merge_decl(base, over).style_bottom == base.style_bottom,
        over.style_left is Some ==> spec_merge_decl(base, over).style_left == over.style_left,
        over.style_left is None ==> spec_merge_decl(base, over).style_left == base.style_left,
        over.style_right is Some ==> spec_merge_decl(base, over).style_right == over.style_right,
        over.style_right is None ==> spec_merge_decl(base, over).style_right == base.style_right,
        over.header is Some ==> spec_merge_decl(base, over).header == over.header,
        over.header is None ==> spec_merge_decl(base, over).header == base.header,
        over.shadow is Some ==> spec_merge_decl(base, over).shadow == over.shadow,
        over.shadow is None ==> spec_merge_decl(base, over).shadow == base.shadow,
        over.placement is Some ==> spec_merge_decl(base, over).placement == over.placement,
        over.placement is None ==> spec_merge_decl(base, over).placement == base.placement,
        over.margin is Some ==> spec_merge_decl(base, over).margin == over.margin,
        over.margin is None ==> spec_merge_decl(base, over).margin == base.margin,
        over.glyph_top is Some ==> spec_merge_decl(base, over).glyph_top == over.glyph_top,
        over.glyph_top is None ==> spec_merge_decl(base, over).glyph_top == base.glyph_top,
        over.glyph_bottom is Some ==> spec_merge_decl(base, over).glyph_bottom == over.glyph_bottom,
        over.glyph_bottom is None ==> spec_merge_decl(base, over).glyph_bottom == base.glyph_bottom,
        over.glyph_left is Some ==> spec_merge_decl(base, over).glyph_left == over.glyph_left,
        over.glyph_left is None ==> spec_merge_decl(base, over).glyph_left == base.glyph_left,
        over.glyph_right is Some ==> spec_merge_decl(base, over).glyph_right == over.glyph_right,
        over.glyph_right is None ==> spec_merge_decl(base, over).glyph_right == base.glyph_right,
        over.glyph_tl is Some ==> spec_merge_decl(base, over).glyph_tl == over.glyph_tl,
        over.glyph_tl is None ==> spec_merge_decl(base, over).glyph_tl == base.glyph_tl,
        over.glyph_tr is Some ==> spec_merge_decl(base, over).glyph_tr == over.glyph_tr,
        over.glyph_tr is None ==> spec_merge_decl(base, over).glyph_tr == base.glyph_tr,
        over.glyph_bl is Some ==> spec_merge_decl(base, over).glyph_bl == over.glyph_bl,
        over.glyph_bl is None ==> spec_merge_decl(base, over).glyph_bl == base.glyph_bl,
        over.glyph_br is Some ==> spec_merge_decl(base, over).glyph_br == over.glyph_br,
        over.glyph_br is None ==> spec_merge_decl(base, over).glyph_br == base.glyph_br,
{
}

/// Merging documents: for a selector of the overriding document, each field
/// that its declaration sets is the merged document's field for that selector,
/// and each field it leaves unset is the base document's, where the base has
/// the selector.
pub proof fn lemma_merge_selector_set_field_wins(base: StyleDoc, over: StyleDoc, r: StyleDoc, q: Seq<char>, o: Decl, b: Decl)
    requires
        doc_wf(base),
        doc_wf(over),
        is_merge(base, over, r),
        over.colors.selectors.get_spec(q) == Some(o),
        base.colors.selectors.get_spec(q) == Some(b),
    ensures
        r.colors.selectors.get_spec(q) is Some,
        o.fg is Some ==> r.colors.selectors.get_spec(q)->0.fg == o.fg,
        o.fg is None ==> r.colors.selectors.get_spec(q)->0.fg == b.fg,
        o.bg is Some ==> r.colors.selectors.get_spec(q)->0.bg == o.bg,
        o.bg is None ==> r.colors.selectors.get_spec(q)->0.bg == b.bg,
        o.bold is Some ==> r.colors.selectors.get_spec(q)->0.bold == o.bold,
        o.bold is None ==> r.colors.selectors.get_spec(q)->0.bold == b.bold,
        o.italic is Some ==> r.colors.selectors.get_spec(q)->0.italic == o.italic,
        o.italic is None ==> r.colors.selectors.get_spec(q)->0.italic == b.italic,
        o.underline is Some ==> r.colors.selectors.get_spec(q)->0.underline == o.underline,
        o.underline is None ==> r.colors.selectors.get_spec(q)->0.underline == b.underline,
        o.dim is Some ==> r.colors.selectors.get_spec(q)->0.dim == o.dim,
        o.dim is None ==> r.colors.selectors.get_spec(q)->0.dim == b.dim,
        o.reversed is Some ==> r.colors.selectors.get_spec(q)->0.reversed == o.reversed,
        o.reversed is None ==> r.colors.selectors.get_spec(q)->0.reversed == b.reversed,
        o.style is Some ==> r.colors.selectors.get_spec(q)->0.style == o.style,
        o.style is None ==> r.colors.selectors.get_spec(q)->0.style == b.style,
        o.style_top is Some ==> r.colors.selectors.get_spec(q)->0.style_top == o.style_top,
        o.style_top is None ==> r.colors.selectors.get_spec(q)->0.style_top == b.style_top,
        o.style_bottom is Some ==> r.colors.selectors.get_spec(q)->0.style_bottom == o.style_bottom,
        o.style_bottom is None ==> r.colors.selectors.get_spec(q)->0.style_bottom == b.style_bottom,
        o.style_left is Some ==> r.colors.selectors.get_spec(q)->0.style_left == o.style_left,
        o.style_left is None ==> r.colors.selectors.get_spec(q)->0.style_left == b.style_left,
        o.style_right is Some ==> r.colors.selectors.get_spec(q)->0.style_right == o.style_right,
        o.style_right is None ==> r.colors.selectors.get_spec(q)->0.style_right == b.style_right,
        o.header is Some ==> r.colors.selectors.get_spec(q)->0.header == o.header,
        o.header is None ==> r.colors.selectors.get_spec(q)->0.header == b.header,
        o.shadow is Some ==> r.colors.selectors.get_spec(q)->0.shadow == o.shadow,
        o.shadow is None ==> r.colors.selectors.get_spec(q)->0.shadow == b.shadow,
        o.placement is Some ==> r.colors.selectors.get_spec(q)->0.placement == o.placement,
        o.placement is None ==> r.colors.selectors.get_spec(q)->0.placement == b.placement,
        o.margin is Some ==> r.colors.selectors.get_spec(q)->0.margin == o.margin,
        o.margin is None ==> r.colors.selectors.get_spec(q)->0.margin == b.margin,
        o.glyph_top is Some ==> r.colors.selectors.get_spec(q)->0.glyph_top == o.glyph_top,
        o.glyph_top is None ==> r.colors.selectors.get_spec(q)->0.glyph_top == b.glyph_top,
        o.glyph_bottom is Some ==> r.colors.selectors.get_spec(q)->0.glyph_bottom == o.glyph_bottom,
        o.glyph_bottom is None ==> r.colors.selectors.get_spec(q)->0.glyph_bottom == b.glyph_bottom,
        o.glyph_left is Some ==> r.colors.selectors.get_spec(q)->0.glyph_left == o.glyph_left,
        o.glyph_left is None ==> r.colors.selectors.get_spec(q)->0.glyph_left == b.glyph_left,
        o.glyph_right is Some ==> r.colors.selectors.get_spec(q)->0.glyph_right == o.glyph_right,
        o.glyph_right is None ==> r.colors.selectors.get_spec(q)->0.glyph_right == b.glyph_right,
        o.glyph_tl is Some ==> r.colors.selectors.get_spec(q)->0.glyph_tl == o.glyph_tl,
        o.glyph_tl is None ==> r.colors.selectors.get_spec(q)->0.glyph_tl == b.glyph_tl,
        o.glyph_tr is Some ==> r.colors.selectors.get_spec(q)->0.glyph_tr == o.glyph_tr,
        o.glyph_tr is None ==> r.colors.selectors.get_spec(q)->0.glyph_tr == b.glyph_tr,
        o.glyph_bl is Some ==> r.colors.selectors.get_spec(q)->0.glyph_bl == o.glyph_bl,
        o.glyph_bl is None ==> r.colors.selectors.get_spec(q)->0.glyph_bl == b.glyph_bl,
        o.glyph_br is Some ==> r.colors.selectors.get_spec(q)->0.glyph_br == o.glyph_br,
        o.glyph_br is None ==> r.colors.selectors.get_spec(q)->0.glyph_br == b.glyph_br,
{
    lemma_merge_per_key(base, over, r, q);
    lemma_merge_decl_set_field_wins(b, o);
}

/// Merging documents: a selector that only the overriding document has comes
/// through as it is there, and one that it lacks keeps the base's declaration.
pub proof fn lemma_merge_selector_one_side(base: StyleDoc, over: StyleDoc, r: StyleDoc, q: Seq<char>)
    requires
        doc_wf(base),
        doc_wf(over),
        is_merge(base, over, r),
    ensures
        base.colors.selectors.get_spec(q) is None ==> r.colors.selectors.get_spec(q) == over.colors.selectors.get_spec(q),
        over.colors.selectors.get_spec(q) is None ==> r.colors.selectors.get_spec(q) == base.colors.selectors.get_spec(q),
{
    lemma_merge_per_key(base, over, r, q);
}

/// Merging documents: each setting that the overriding document sets is the
/// merged document's, each it leaves unset is the base's; a transcript-rule
/// or status-bar segment list of the overriding document replaces the base's
/// unless it is empty; a glyph override of the overriding document wins over
/// the base's for its slot key.
pub proof fn lemma_merge_doc_set_field_wins(base: StyleDoc, over: StyleDoc, r: StyleDoc, q: Seq<char>)
    requires
        doc_wf(base),
        doc_wf(over),
        is_merge(base, over, r),
    ensures
        over.colors.scheme is Some ==> r.colors.scheme == over.colors.scheme,
        over.colors.scheme is None ==> r.colors.scheme == base.colors.scheme,
        over.symbols.box_style is Some ==> r.symbols.box_style == over.symbols.box_style,
        over.symbols.box_style is None ==> r.symbols.box_style == base.symbols.box_style,
        over.symbols.arrow_set is Some ==> r.symbols.arrow_set == over.symbols.arrow_set,
        over.symbols.arrow_set is None ==> r.symbols.arrow_set == base.symbols.arrow_set,
        over.symbols.portal_icons is Some ==> r.symbols.portal_icons == over.symbols.portal_icons,
        over.symbols.portal_icons is None ==> r.symbols.portal_icons == base.symbols.portal_icons,
        over.symbols.path_style is Some ==> r.symbols.path_style == over.symbols.path_style,
        over.symbols.path_style is None ==> r.symbols.path_style == base.symbols.path_style,
        over.symbols.badge_zcode is Some ==> r.symbols.badge_zcode == over.symbols.badge_zcode,
        over.symbols.badge_zcode is None ==> r.symbols.badge_zcode == base.symbols.badge_zcode,
        over.symbols.badge_glulx is Some ==> r.symbols.badge_glulx == over.symbols.badge_glulx,
        over.symbols.badge_glulx is None ==> r.symbols.badge_glulx == base.symbols.badge_glulx,
        over.symbols.badge_blorb is Some ==> r.symbols.badge_blorb == over.symbols.badge_blorb,
        over.symbols.badge_blorb is None ==> r.symbols.badge_blorb == base.symbols.badge_blorb,
        over.symbols.badge_save is Some ==> r.symbols.badge_save == over.symbols.badge_save,
        over.symbols.badge_save is None ==> r.symbols.badge_save == base.symbols.badge_save,
        over.symbols.badge_hint is Some ==> r.symbols.badge_hint == over.symbols.badge_hint,
        over.symbols.badge_hint is None ==> r.symbols.badge_hint == base.symbols.badge_hint,
        over.symbols.diagonal_corners is Some ==> r.symbols.diagonal_corners == over.symbols.diagonal_corners,
        over.symbols.diagonal_corners is None ==> r.symbols.diagonal_corners == base.symbols.diagonal_corners,
        over.status_bar.border is Some ==> r.status_bar.border == over.status_bar.border,
        over.status_bar.border is None ==> r.status_bar.border == base.status_bar.border,
        over.status_bar.border_fg is Some ==> r.status_bar.border_fg == over.status_bar.border_fg,
        over.status_bar.border_fg is None ==> r.status_bar.border_fg == base.status_bar.border_fg,
        over.transcript_rules@.len() > 0 ==> r.transcript_rules@ == over.transcript_rules@,
        over.transcript_rules@.len() == 0 ==> r.transcript_rules@ == base.transcript_rules@,
        over.status_bar.segments@.len() > 0 ==> r.status_bar.segments@ == over.status_bar.segments@,
        over.status_bar.segments@.len() == 0 ==> r.status_bar.segments@ == base.status_bar.segments@,
        over.symbols.overrides.get_spec(q) is Some ==> r.symbols.overrides.get_spec(q) == over.symbols.overrides.get_spec(q),
        over.symbols.overrides.get_spec(q) is None ==> r.symbols.overrides.get_spec(q) == base.symbols.overrides.get_spec(q),
{
    lemma_merge_per_key(base, over, r, q);
}

} // verus!
