//! The style file's format read both ways: what the writer puts into a table
//! or a document, the reader takes back out.

use vstd::prelude::*;
use crate::slash::opt_view;
use crate::strmap::{insert_all, insert_entry, lemma_insert_all_push, lemma_lex_asym, lemma_lex_irreflexive, lex_lt, sorted_keys};
use crate::style::{
    colors_parsed, decl_from, get_array, get_bool, get_int, get_str, get_table, is_parsed_doc, margin_of, override_source,
    rules_from, scheme_in, segments_from, selector_entries, status_bar_parsed, str_or, string_entries, symbols_parsed,
    tget, Decl, RawRule, RawSegment, StyleDoc, TomlView,
};
use crate::style_file::{border_items, decl_items, dialog_items, glyph_items, paint_items, rule_items, segment_items, str_item, true_item};

verus! {

/// A key looked up in two tables laid end to end: the later one's binding
/// wins, else the earlier one's.
pub proof fn lemma_tget_concat(a: Seq<(Seq<char>, TomlView)>, b: Seq<(Seq<char>, TomlView)>, k: Seq<char>)
    ensures
        tget(a + b, k) == match tget(b, k) {
            Some(x) => Some(x),
            None => tget(a, k),
        },
    decreases b.len(),
{
    if b.len() == 0 {
        assert(a + b =~= a);
    } else {
        assert((a + b).drop_last() =~= a + b.drop_last());
        lemma_tget_concat(a, b.drop_last(), k);
    }
}

pub(crate) proof fn lemma_tget_concat_all(a: Seq<(Seq<char>, TomlView)>, b: Seq<(Seq<char>, TomlView)>)
    ensures
        forall|k: Seq<char>| #[trigger] tget(a + b, k) == match tget(b, k) {
            Some(x) => Some(x),
            None => tget(a, k),
        },
{
    assert forall|k: Seq<char>| #[trigger] tget(a + b, k) == match tget(b, k) {
        Some(x) => Some(x),
        None => tget(a, k),
    } by {
        lemma_tget_concat(a, b, k);
    }
}

/// A flag the writer can write: it writes `true` and leaves an unset flag out,
/// so a flag set to `false` does not come back.
pub open spec fn flag_writable(o: Option<bool>) -> bool {
    o != Some(false)
}

/// A declaration whose every field comes back from the inline table the writer
/// writes for it: no modifier or shadow set to `false`, no header set to `true`
/// (only `header = false` is written).
pub open spec fn decl_writable(d: Decl) -> bool {
    &&& flag_writable(d.bold)
    &&& flag_writable(d.italic)
    &&& flag_writable(d.underline)
    &&& flag_writable(d.dim)
    &&& flag_writable(d.reversed)
    &&& flag_writable(d.shadow)
    &&& d.header != Some(true)
}

/// A declaration that sets only colors and modifiers (what a transcript rule
/// or a status-bar segment writes), each modifier writable.
pub open spec fn paint_only(d: Decl) -> bool {
    &&& decl_writable(d)
    &&& d.style is None
    &&& d.style_top is None
    &&& d.style_bottom is None
    &&& d.style_left is None
    &&& d.style_right is None
    &&& d.header is None
    &&& d.shadow is None
    &&& d.placement is None
    &&& d.margin is None
    &&& d.glyph_top is None
    &&& d.glyph_bottom is None
    &&& d.glyph_left is None
    &&& d.glyph_right is None
    &&& d.glyph_tl is None
    &&& d.glyph_tr is None
    &&& d.glyph_bl is None
    &&& d.glyph_br is None
}

/// A string item looked up: its value under its own key when set, nothing else.
pub(crate) proof fn lemma_str_item(k2: Seq<char>, o: Option<String>)
    ensures
        forall|k: Seq<char>| #[trigger] tget(str_item(k2, o), k) == if k2 == k && o is Some {
            Some(TomlView::Str(o->0@))
        } else {
            None
        },
{
    assert forall|k: Seq<char>| #[trigger] tget(str_item(k2, o), k) == if k2 == k && o is Some {
        Some(TomlView::Str(o->0@))
    } else {
        None
    } by {
        reveal_with_fuel(tget, 2);
    }
}

/// A flag item looked up: `true` under its own key when set to `true`, nothing else.
proof fn lemma_true_item(k2: Seq<char>, o: Option<bool>)
    ensures
        forall|k: Seq<char>| #[trigger] tget(true_item(k2, o), k) == if k2 == k && o == Some(true) {
            Some(TomlView::Bool(true))
        } else {
            None
        },
{
    assert forall|k: Seq<char>| #[trigger] tget(true_item(k2, o), k) == if k2 == k && o == Some(true) {
        Some(TomlView::Bool(true))
    } else {
        None
    } by {
        reveal_with_fuel(tget, 2);
    }
}

/// A one-entry table looked up.
pub(crate) proof fn lemma_one_item(k2: Seq<char>, x: TomlView)
    ensures
        forall|k: Seq<char>| #[trigger] tget(seq![(k2, x)], k) == if k2 == k {
            Some(x)
        } else {
            None
        },
{
    assert forall|k: Seq<char>| #[trigger] tget(seq![(k2, x)], k) == if k2 == k {
        Some(x)
    } else {
        None
    } by {
        reveal_with_fuel(tget, 2);
    }
}


proof fn lemma_border_gets(d: Decl)
    ensures
        tget(border_items(d), "style"@) == (match d.style { Some(x) => Some(TomlView::Str(x@)), None => None }),
        tget(border_items(d), "style_top"@) == (match d.style_top { Some(x) => Some(TomlView::Str(x@)), None => None }),
        tget(border_items(d), "style_bottom"@) == (match d.style_bottom { Some(x) => Some(TomlView::Str(x@)), None => None }),
        tget(border_items(d), "style_left"@) == (match d.style_left { Some(x) => Some(TomlView::Str(x@)), None => None }),
        tget(border_items(d), "style_right"@) == (match d.style_right { Some(x) => Some(TomlView::Str(x@)), None => None }),
        tget(border_items(d), "header"@) == (if d.header == Some(false) { Some(TomlView::Bool(false)) } else { None }),
        tget(border_items(d), "fg"@) is None,
        tget(border_items(d), "bg"@) is None,
        tget(border_items(d), "bold"@) is None,
        tget(border_items(d), "italic"@) is None,
        tget(border_items(d), "underline"@) is None,
        tget(border_items(d), "dim"@) is None,
        tget(border_items(d), "reversed"@) is None,
        tget(border_items(d), "shadow"@) is None,
        tget(border_items(d), "placement"@) is None,
        tget(border_items(d), "margin"@) is None,
        tget(border_items(d), "glyph_top"@) is None,
        tget(border_items(d), "glyph_bottom"@) is None,
        tget(border_items(d), "glyph_left"@) is None,
        tget(border_items(d), "glyph_right"@) is None,
        tget(border_items(d), "glyph_tl"@) is None,
        tget(border_items(d), "glyph_tr"@) is None,
        tget(border_items(d), "glyph_bl"@) is None,
        tget(border_items(d), "glyph_br"@) is None,
        tget(border_items(d), "match"@) is None,
        tget(border_items(d), "text"@) is None,
        tget(border_items(d), "align"@) is None,
{
    reveal_strlit("style");
    assert("style"@.len() == 5);
    assert("style"@[0] == 's');
    reveal_strlit("style_top");
    assert("style_top"@.len() == 9);
    assert("style_top"@[0] == 's');
    reveal_strlit("style_bottom");
    assert("style_bottom"@.len() == 12);
    assert("style_bottom"@[0] == 's');
    reveal_strlit("style_left");
    assert("style_left"@.len() == 10);
    assert("style_left"@[0] == 's');
    reveal_strlit("style_right");
    assert("style_right"@.len() == 11);
    assert("style_right"@[0] == 's');
    reveal_strlit("header");
    assert("header"@.len() == 6);
    assert("header"@[0] == 'h');
    reveal_strlit("fg");
    assert("fg"@.len() == 2);
    assert("fg"@[0] == 'f');
    reveal_strlit("bg");
    assert("bg"@.len() == 2);
    assert("bg"@[0] == 'b');
    reveal_strlit("bold");
    assert("bold"@.len() == 4);
    assert("bold"@[0] == 'b');
    reveal_strlit("italic");
    assert("italic"@.len() == 6);
    assert("italic"@[0] == 'i');
    reveal_strlit("underline");
    assert("underline"@.len() == 9);
    assert("underline"@[0] == 'u');
    reveal_strlit("dim");
    assert("dim"@.len() == 3);
    reveal_strlit("reversed");
    assert("reversed"@.len() == 8);
    assert("reversed"@[0] == 'r');
    reveal_strlit("shadow");
    assert("shadow"@.len() == 6);
    assert("shadow"@[0] == 's');
    reveal_strlit("placement");
    assert("placement"@.len() == 9);
    assert("placement"@[0] == 'p');
    reveal_strlit("margin");
    assert("margin"@.len() == 6);
    assert("margin"@[0] == 'm');
    reveal_strlit("glyph_top");
    assert("glyph_top"@.len() == 9);
    assert("glyph_top"@[0] == 'g');
    reveal_strlit("glyph_bottom");
    assert("glyph_bottom"@.len() == 12);
    assert("glyph_bottom"@[0] == 'g');
    reveal_strlit("glyph_left");
    assert("glyph_left"@.len() == 10);
    assert("glyph_left"@[0] == 'g');
    reveal_strlit("glyph_right");
    assert("glyph_right"@.len() == 11);
    assert("glyph_right"@[0] == 'g');
    reveal_strlit("glyph_tl");
    assert("glyph_tl"@.len() == 8);
    assert("glyph_tl"@[0] == 'g');
    assert("glyph_tl"@[6] == 't');
    assert("glyph_tl"@[7] == 'l');
    reveal_strlit("glyph_tr");
    assert("glyph_tr"@.len() == 8);
    assert("glyph_tr"@[0] == 'g');
    assert("glyph_tr"@[6] == 't');
    assert("glyph_tr"@[7] == 'r');
    reveal_strlit("glyph_bl");
    assert("glyph_bl"@.len() == 8);
    assert("glyph_bl"@[0] == 'g');
    assert("glyph_bl"@[6] == 'b');
    assert("glyph_bl"@[7] == 'l');
    reveal_strlit("glyph_br");
    assert("glyph_br"@.len() == 8);
    assert("glyph_br"@[0] == 'g');
    assert("glyph_br"@[6] == 'b');
    assert("glyph_br"@[7] == 'r');
    reveal_strlit("match");
    assert("match"@.len() == 5);
    assert("match"@[0] == 'm');
    reveal_strlit("text");
    assert("text"@.len() == 4);
    assert("text"@[0] == 't');
    reveal_strlit("align");
    assert("align"@.len() == 5);
    assert("align"@[0] == 'a');
    lemma_str_item("style"@, d.style);
    lemma_str_item("style_top"@, d.style_top);
    lemma_str_item("style_bottom"@, d.style_bottom);
    lemma_str_item("style_left"@, d.style_left);
    lemma_str_item("style_right"@, d.style_right);
    lemma_one_item("header"@, TomlView::Bool(false));
    lemma_tget_concat_all(str_item("style"@, d.style), str_item("style_top"@, d.style_top));
    lemma_tget_concat_all(str_item("style"@, d.style) + str_item("style_top"@, d.style_top), str_item("style_bottom"@, d.style_bottom));
    lemma_tget_concat_all(str_item("style"@, d.style) + str_item("style_top"@, d.style_top) + str_item("style_bottom"@, d.style_bottom), str_item("style_left"@, d.style_left));
    lemma_tget_concat_all(str_item("style"@, d.style) + str_item("style_top"@, d.style_top) + str_item("style_bottom"@, d.style_bottom) + str_item("style_left"@, d.style_left), str_item("style_right"@, d.style_right));
    lemma_tget_concat_all(str_item("style"@, d.style) + str_item("style_top"@, d.style_top) + str_item("style_bottom"@, d.style_bottom) + str_item("style_left"@, d.style_left) + str_item("style_right"@, d.style_right), (if d.header == Some(false) { seq![("header"@, TomlView::Bool(false))] } else { seq![] }));
}

proof fn lemma_paint_gets(d: Decl)
    ensures
        tget(paint_items(d), "fg"@) == (match d.fg { Some(x) => Some(TomlView::Str(x@)), None => None }),
        tget(paint_items(d), "bg"@) == (match d.bg { Some(x) => Some(TomlView::Str(x@)), None => None }),
        tget(paint_items(d), "bold"@) == (if d.bold == Some(true) { Some(TomlView::Bool(true)) } else { None }),
        tget(paint_items(d), "italic"@) == (if d.italic == Some(true) { Some(TomlView::Bool(true)) } else { None }),
        tget(paint_items(d), "underline"@) == (if d.underline == Some(true) { Some(TomlView::Bool(true)) } else { None }),
        tget(paint_items(d), "dim"@) == (if d.dim == Some(true) { Some(TomlView::Bool(true)) } else { None }),
        tget(paint_items(d), "reversed"@) == (if d.reversed == Some(true) { Some(TomlView::Bool(true)) } else { None }),
        tget(paint_items(d), "style"@) is None,
        tget(paint_items(d), "style_top"@) is None,
        tget(paint_items(d), "style_bottom"@) is None,
        tget(paint_items(d), "style_left"@) is None,
        tget(paint_items(d), "style_right"@) is None,
        tget(paint_items(d), "header"@) is None,
        tget(paint_items(d), "shadow"@) is None,
        tget(paint_items(d), "placement"@) is None,
        tget(paint_items(d), "margin"@) is None,
        tget(paint_items(d), "glyph_top"@) is None,
        tget(paint_items(d), "glyph_bottom"@) is None,
        tget(paint_items(d), "glyph_left"@) is None,
        tget(paint_items(d), "glyph_right"@) is None,
        tget(paint_items(d), "glyph_tl"@) is None,
        tget(paint_items(d), "glyph_tr"@) is None,
        tget(paint_items(d), "glyph_bl"@) is None,
        tget(paint_items(d), "glyph_br"@) is None,
        tget(paint_items(d), "match"@) is None,
        tget(paint_items(d), "text"@) is None,
        tget(paint_items(d), "align"@) is None,
{
    reveal_strlit("style");
    assert("style"@.len() == 5);
    assert("style"@[0] == 's');
    reveal_strlit("style_top");
    assert("style_top"@.len() == 9);
    assert("style_top"@[0] == 's');
    reveal_strlit("style_bottom");
    assert("style_bottom"@.len() == 12);
    assert("style_bottom"@[0] == 's');
    reveal_strlit("style_left");
    assert("style_left"@.len() == 10);
    assert("style_left"@[0] == 's');
    reveal_strlit("style_right");
    assert("style_right"@.len() == 11);
    assert("style_right"@[0] == 's');
    reveal_strlit("header");
    assert("header"@.len() == 6);
    assert("header"@[0] == 'h');
    reveal_strlit("fg");
    assert("fg"@.len() == 2);
    assert("fg"@[0] == 'f');
    reveal_strlit("bg");
    assert("bg"@.len() == 2);
    assert("bg"@[0] == 'b');
    reveal_strlit("bold");
    assert("bold"@.len() == 4);
    assert("bold"@[0] == 'b');
    reveal_strlit("italic");
    assert("italic"@.len() == 6);
    assert("italic"@[0] == 'i');
    reveal_strlit("underline");
    assert("underline"@.len() == 9);
    assert("underline"@[0] == 'u');
    reveal_strlit("dim");
    assert("dim"@.len() == 3);
    reveal_strlit("reversed");
    assert("reversed"@.len() == 8);
    assert("reversed"@[0] == 'r');
    reveal_strlit("shadow");
    assert("shadow"@.len() == 6);
    assert("shadow"@[0] == 's');
    reveal_strlit("placement");
    assert("placement"@.len() == 9);
    assert("placement"@[0] == 'p');
    reveal_strlit("margin");
    assert("margin"@.len() == 6);
    assert("margin"@[0] == 'm');
    reveal_strlit("glyph_top");
    assert("glyph_top"@.len() == 9);
    assert("glyph_top"@[0] == 'g');
    reveal_strlit("glyph_bottom");
    assert("glyph_bottom"@.len() == 12);
    assert("glyph_bottom"@[0] == 'g');
    reveal_strlit("glyph_left");
    assert("glyph_left"@.len() == 10);
    assert("glyph_left"@[0] == 'g');
    reveal_strlit("glyph_right");
    assert("glyph_right"@.len() == 11);
    assert("glyph_right"@[0] == 'g');
    reveal_strlit("glyph_tl");
    assert("glyph_tl"@.len() == 8);
    assert("glyph_tl"@[0] == 'g');
    assert("glyph_tl"@[6] == 't');
    assert("glyph_tl"@[7] == 'l');
    reveal_strlit("glyph_tr");
    assert("glyph_tr"@.len() == 8);
    assert("glyph_tr"@[0] == 'g');
    assert("glyph_tr"@[6] == 't');
    assert("glyph_tr"@[7] == 'r');
    reveal_strlit("glyph_bl");
    assert("glyph_bl"@.len() == 8);
    assert("glyph_bl"@[0] == 'g');
    assert("glyph_bl"@[6] == 'b');
    assert("glyph_bl"@[7] == 'l');
    reveal_strlit("glyph_br");
    assert("glyph_br"@.len() == 8);
    assert("glyph_br"@[0] == 'g');
    assert("glyph_br"@[6] == 'b');
    assert("glyph_br"@[7] == 'r');
    reveal_strlit("match");
    assert("match"@.len() == 5);
    assert("match"@[0] == 'm');
    reveal_strlit("text");
    assert("text"@.len() == 4);
    assert("text"@[0] == 't');
    reveal_strlit("align");
    assert("align"@.len() == 5);
    assert("align"@[0] == 'a');
    lemma_str_item("fg"@, d.fg);
    lemma_str_item("bg"@, d.bg);
    lemma_true_item("bold"@, d.bold);
    lemma_true_item("italic"@, d.italic);
    lemma_true_item("underline"@, d.underline);
    lemma_true_item("dim"@, d.dim);
    lemma_true_item("reversed"@, d.reversed);
    lemma_tget_concat_all(str_item("fg"@, d.fg), str_item("bg"@, d.bg));
    lemma_tget_concat_all(str_item("fg"@, d.fg) + str_item("bg"@, d.bg), true_item("bold"@, d.bold));
    lemma_tget_concat_all(str_item("fg"@, d.fg) + str_item("bg"@, d.bg) + true_item("bold"@, d.bold), true_item("italic"@, d.italic));
    lemma_tget_concat_all(str_item("fg"@, d.fg) + str_item("bg"@, d.bg) + true_item("bold"@, d.bold) + true_item("italic"@, d.italic), true_item("underline"@, d.underline));
    lemma_tget_concat_all(str_item("fg"@, d.fg) + str_item("bg"@, d.bg) + true_item("bold"@, d.bold) + true_item("italic"@, d.italic) + true_item("underline"@, d.underline), true_item("dim"@, d.dim));
    lemma_tget_concat_all(str_item("fg"@, d.fg) + str_item("bg"@, d.bg) + true_item("bold"@, d.bold) + true_item("italic"@, d.italic) + true_item("underline"@, d.underline) + true_item("dim"@, d.dim), true_item("reversed"@, d.reversed));
}

proof fn lemma_dialog_gets(d: Decl)
    ensures
        tget(dialog_items(d), "shadow"@) == (if d.shadow == Some(true) { Some(TomlView::Bool(true)) } else { None }),
        tget(dialog_items(d), "placement"@) == (match d.placement { Some(x) => Some(TomlView::Str(x@)), None => None }),
        tget(dialog_items(d), "margin"@) == (match d.margin { Some(m) => Some(TomlView::Int(m as int)), None => None }),
        tget(dialog_items(d), "style"@) is None,
        tget(dialog_items(d), "style_top"@) is None,
        tget(dialog_items(d), "style_bottom"@) is None,
        tget(dialog_items(d), "style_left"@) is None,
        tget(dialog_items(d), "style_right"@) is None,
        tget(dialog_items(d), "header"@) is None,
        tget(dialog_items(d), "fg"@) is None,
        tget(dialog_items(d), "bg"@) is None,
        tget(dialog_items(d), "bold"@) is None,
        tget(dialog_items(d), "italic"@) is None,
        tget(dialog_items(d), "underline"@) is None,
        tget(dialog_items(d), "dim"@) is None,
        tget(dialog_items(d), "reversed"@) is None,
        tget(dialog_items(d), "glyph_top"@) is None,
        tget(dialog_items(d), "glyph_bottom"@) is None,
        tget(dialog_items(d), "glyph_left"@) is None,
        tget(dialog_items(d), "glyph_right"@) is None,
        tget(dialog_items(d), "glyph_tl"@) is None,
        tget(dialog_items(d), "glyph_tr"@) is None,
        tget(dialog_items(d), "glyph_bl"@) is None,
        tget(dialog_items(d), "glyph_br"@) is None,
        tget(dialog_items(d), "match"@) is None,
        tget(dialog_items(d), "text"@) is None,
        tget(dialog_items(d), "align"@) is None,
{
    reveal_strlit("style");
    assert("style"@.len() == 5);
    assert("style"@[0] == 's');
    reveal_strlit("style_top");
    assert("style_top"@.len() == 9);
    assert("style_top"@[0] == 's');
    reveal_strlit("style_bottom");
    assert("style_bottom"@.len() == 12);
    assert("style_bottom"@[0] == 's');
    reveal_strlit("style_left");
    assert("style_left"@.len() == 10);
    assert("style_left"@[0] == 's');
    reveal_strlit("style_right");
    assert("style_right"@.len() == 11);
    assert("style_right"@[0] == 's');
    reveal_strlit("header");
    assert("header"@.len() == 6);
    assert("header"@[0] == 'h');
    reveal_strlit("fg");
    assert("fg"@.len() == 2);
    assert("fg"@[0] == 'f');
    reveal_strlit("bg");
    assert("bg"@.len() == 2);
    assert("bg"@[0] == 'b');
    reveal_strlit("bold");
    assert("bold"@.len() == 4);
    assert("bold"@[0] == 'b');
    reveal_strlit("italic");
    assert("italic"@.len() == 6);
    assert("italic"@[0] == 'i');
    reveal_strlit("underline");
    assert("underline"@.len() == 9);
    assert("underline"@[0] == 'u');
    reveal_strlit("dim");
    assert("dim"@.len() == 3);
    reveal_strlit("reversed");
    assert("reversed"@.len() == 8);
    assert("reversed"@[0] == 'r');
    reveal_strlit("shadow");
    assert("shadow"@.len() == 6);
    assert("shadow"@[0] == 's');
    reveal_strlit("placement");
    assert("placement"@.len() == 9);
    assert("placement"@[0] == 'p');
    reveal_strlit("margin");
    assert("margin"@.len() == 6);
    assert("margin"@[0] == 'm');
    reveal_strlit("glyph_top");
    assert("glyph_top"@.len() == 9);
    assert("glyph_top"@[0] == 'g');
    reveal_strlit("glyph_bottom");
    assert("glyph_bottom"@.len() == 12);
    assert("glyph_bottom"@[0] == 'g');
    reveal_strlit("glyph_left");
    assert("glyph_left"@.len() == 10);
    assert("glyph_left"@[0] == 'g');
    reveal_strlit("glyph_right");
    assert("glyph_right"@.len() == 11);
    assert("glyph_right"@[0] == 'g');
    reveal_strlit("glyph_tl");
    assert("glyph_tl"@.len() == 8);
    assert("glyph_tl"@[0] == 'g');
    assert("glyph_tl"@[6] == 't');
    assert("glyph_tl"@[7] == 'l');
    reveal_strlit("glyph_tr");
    assert("glyph_tr"@.len() == 8);
    assert("glyph_tr"@[0] == 'g');
    assert("glyph_tr"@[6] == 't');
    assert("glyph_tr"@[7] == 'r');
    reveal_strlit("glyph_bl");
    assert("glyph_bl"@.len() == 8);
    assert("glyph_bl"@[0] == 'g');
    assert("glyph_bl"@[6] == 'b');
    assert("glyph_bl"@[7] == 'l');
    reveal_strlit("glyph_br");
    assert("glyph_br"@.len() == 8);
    assert("glyph_br"@[0] == 'g');
    assert("glyph_br"@[6] == 'b');
    assert("glyph_br"@[7] == 'r');
    reveal_strlit("match");
    assert("match"@.len() == 5);
    assert("match"@[0] == 'm');
    reveal_strlit("text");
    assert("text"@.len() == 4);
    assert("text"@[0] == 't');
    reveal_strlit("align");
    assert("align"@.len() == 5);
    assert("align"@[0] == 'a');
    lemma_true_item("shadow"@, d.shadow);
    lemma_str_item("placement"@, d.placement);
    if let Some(m) = d.margin {
        lemma_one_item("margin"@, TomlView::Int(m as int));
    }
    lemma_tget_concat_all(true_item("shadow"@, d.shadow), str_item("placement"@, d.placement));
    lemma_tget_concat_all(true_item("shadow"@, d.shadow) + str_item("placement"@, d.placement), (match d.margin { Some(m) => seq![("margin"@, TomlView::Int(m as int))], None => seq![] }));
}

proof fn lemma_glyph_gets(d: Decl)
    ensures
        tget(glyph_items(d), "glyph_top"@) == (match d.glyph_top { Some(x) => Some(TomlView::Str(x@)), None => None }),
        tget(glyph_items(d), "glyph_bottom"@) == (match d.glyph_bottom { Some(x) => Some(TomlView::Str(x@)), None => None }),
        tget(glyph_items(d), "glyph_left"@) == (match d.glyph_left { Some(x) => Some(TomlView::Str(x@)), None => None }),
        tget(glyph_items(d), "glyph_right"@) == (match d.glyph_right { Some(x) => Some(TomlView::Str(x@)), None => None }),
        tget(glyph_items(d), "glyph_tl"@) == (match d.glyph_tl { Some(x) => Some(TomlView::Str(x@)), None => None }),
        tget(glyph_items(d), "glyph_tr"@) == (match d.glyph_tr { Some(x) => Some(TomlView::Str(x@)), None => None }),
        tget(glyph_items(d), "glyph_bl"@) == (match d.glyph_bl { Some(x) => Some(TomlView::Str(x@)), None => None }),
        tget(glyph_items(d), "glyph_br"@) == (match d.glyph_br { Some(x) => Some(TomlView::Str(x@)), None => None }),
        tget(glyph_items(d), "style"@) is None,
        tget(glyph_items(d), "style_top"@) is None,
        tget(glyph_items(d), "style_bottom"@) is None,
        tget(glyph_items(d), "style_left"@) is None,
        tget(glyph_items(d), "style_right"@) is None,
        tget(glyph_items(d), "header"@) is None,
        tget(glyph_items(d), "fg"@) is None,
        tget(glyph_items(d), "bg"@) is None,
        tget(glyph_items(d), "bold"@) is None,
        tget(glyph_items(d), "italic"@) is None,
        tget(glyph_items(d), "underline"@) is None,
        tget(glyph_items(d), "dim"@) is None,
        tget(glyph_items(d), "reversed"@) is None,
        tget(glyph_items(d), "shadow"@) is None,
        tget(glyph_items(d), "placement"@) is None,
        tget(glyph_items(d), "margin"@) is None,
        tget(glyph_items(d), "match"@) is None,
        tget(glyph_items(d), "text"@) is None,
        tget(glyph_items(d), "align"@) is None,
{
    reveal_strlit("style");
    assert("style"@.len() == 5);
    assert("style"@[0] == 's');
    reveal_strlit("style_top");
    assert("style_top"@.len() == 9);
    assert("style_top"@[0] == 's');
    reveal_strlit("style_bottom");
    assert("style_bottom"@.len() == 12);
    assert("style_bottom"@[0] == 's');
    reveal_strlit("style_left");
    assert("style_left"@.len() == 10);
    assert("style_left"@[0] == 's');
    reveal_strlit("style_right");
    assert("style_right"@.len() == 11);
    assert("style_right"@[0] == 's');
    reveal_strlit("header");
    assert("header"@.len() == 6);
    assert("header"@[0] == 'h');
    reveal_strlit("fg");
    assert("fg"@.len() == 2);
    assert("fg"@[0] == 'f');
    reveal_strlit("bg");
    assert("bg"@.len() == 2);
    assert("bg"@[0] == 'b');
    reveal_strlit("bold");
    assert("bold"@.len() == 4);
    assert("bold"@[0] == 'b');
    reveal_strlit("italic");
    assert("italic"@.len() == 6);
    assert("italic"@[0] == 'i');
    reveal_strlit("underline");
    assert("underline"@.len() == 9);
    assert("underline"@[0] == 'u');
    reveal_strlit("dim");
    assert("dim"@.len() == 3);
    reveal_strlit("reversed");
    assert("reversed"@.len() == 8);
    assert("reversed"@[0] == 'r');
    reveal_strlit("shadow");
    assert("shadow"@.len() == 6);
    assert("shadow"@[0] == 's');
    reveal_strlit("placement");
    assert("placement"@.len() == 9);
    assert("placement"@[0] == 'p');
    reveal_strlit("margin");
    assert("margin"@.len() == 6);
    assert("margin"@[0] == 'm');
    reveal_strlit("glyph_top");
    assert("glyph_top"@.len() == 9);
    assert("glyph_top"@[0] == 'g');
    reveal_strlit("glyph_bottom");
    assert("glyph_bottom"@.len() == 12);
    assert("glyph_bottom"@[0] == 'g');
    reveal_strlit("glyph_left");
    assert("glyph_left"@.len() == 10);
    assert("glyph_left"@[0] == 'g');
    reveal_strlit("glyph_right");
    assert("glyph_right"@.len() == 11);
    assert("glyph_right"@[0] == 'g');
    reveal_strlit("glyph_tl");
    assert("glyph_tl"@.len() == 8);
    assert("glyph_tl"@[0] == 'g');
    assert("glyph_tl"@[6] == 't');
    assert("glyph_tl"@[7] == 'l');
    reveal_strlit("glyph_tr");
    assert("glyph_tr"@.len() == 8);
    assert("glyph_tr"@[0] == 'g');
    assert("glyph_tr"@[6] == 't');
    assert("glyph_tr"@[7] == 'r');
    reveal_strlit("glyph_bl");
    assert("glyph_bl"@.len() == 8);
    assert("glyph_bl"@[0] == 'g');
    assert("glyph_bl"@[6] == 'b');
    assert("glyph_bl"@[7] == 'l');
    reveal_strlit("glyph_br");
    assert("glyph_br"@.len() == 8);
    assert("glyph_br"@[0] == 'g');
    assert("glyph_br"@[6] == 'b');
    assert("glyph_br"@[7] == 'r');
    reveal_strlit("match");
    assert("match"@.len() == 5);
    assert("match"@[0] == 'm');
    reveal_strlit("text");
    assert("text"@.len() == 4);
    assert("text"@[0] == 't');
    reveal_strlit("align");
    assert("align"@.len() == 5);
    assert("align"@[0] == 'a');
    lemma_str_item("glyph_top"@, d.glyph_top);
    lemma_str_item("glyph_bottom"@, d.glyph_bottom);
    lemma_str_item("glyph_left"@, d.glyph_left);
    lemma_str_item("glyph_right"@, d.glyph_right);
    lemma_str_item("glyph_tl"@, d.glyph_tl);
    lemma_str_item("glyph_tr"@, d.glyph_tr);
    lemma_str_item("glyph_bl"@, d.glyph_bl);
    lemma_str_item("glyph_br"@, d.glyph_br);
    lemma_tget_concat_all(str_item("glyph_top"@, d.glyph_top), str_item("glyph_bottom"@, d.glyph_bottom));
    lemma_tget_concat_all(str_item("glyph_top"@, d.glyph_top) + str_item("glyph_bottom"@, d.glyph_bottom), str_item("glyph_left"@, d.glyph_left));
    lemma_tget_concat_all(str_item("glyph_top"@, d.glyph_top) + str_item("glyph_bottom"@, d.glyph_bottom) + str_item("glyph_left"@, d.glyph_left), str_item("glyph_right"@, d.glyph_right));
    lemma_tget_concat_all(str_item("glyph_top"@, d.glyph_top) + str_item("glyph_bottom"@, d.glyph_bottom) + str_item("glyph_left"@, d.glyph_left) + str_item("glyph_right"@, d.glyph_right), str_item("glyph_tl"@, d.glyph_tl));
    lemma_tget_concat_all(str_item("glyph_top"@, d.glyph_top) + str_item("glyph_bottom"@, d.glyph_bottom) + str_item("glyph_left"@, d.glyph_left) + str_item("glyph_right"@, d.glyph_right) + str_item("glyph_tl"@, d.glyph_tl), str_item("glyph_tr"@, d.glyph_tr));
    lemma_tget_concat_all(str_item("glyph_top"@, d.glyph_top) + str_item("glyph_bottom"@, d.glyph_bottom) + str_item("glyph_left"@, d.glyph_left) + str_item("glyph_right"@, d.glyph_right) + str_item("glyph_tl"@, d.glyph_tl) + str_item("glyph_tr"@, d.glyph_tr), str_item("glyph_bl"@, d.glyph_bl));
    lemma_tget_concat_all(str_item("glyph_top"@, d.glyph_top) + str_item("glyph_bottom"@, d.glyph_bottom) + str_item("glyph_left"@, d.glyph_left) + str_item("glyph_right"@, d.glyph_right) + str_item("glyph_tl"@, d.glyph_tl) + str_item("glyph_tr"@, d.glyph_tr) + str_item("glyph_bl"@, d.glyph_bl), str_item("glyph_br"@, d.glyph_br));
}

/// A declaration comes back from the inline table the writer writes for it,
/// whenever the writer can write it (see [`decl_writable`]).
pub proof fn lemma_decl_items_read_back(d: Decl)
    requires
        decl_writable(d),
    ensures
        decl_from(d, decl_items(d)),
{
    lemma_border_gets(d);
    lemma_paint_gets(d);
    lemma_dialog_gets(d);
    lemma_glyph_gets(d);
    lemma_tget_concat_all(border_items(d), paint_items(d));
    lemma_tget_concat_all(border_items(d) + paint_items(d), dialog_items(d));
    lemma_tget_concat_all(border_items(d) + paint_items(d) + dialog_items(d), glyph_items(d));
    assert(decl_items(d) == border_items(d) + paint_items(d) + dialog_items(d) + glyph_items(d));
    assert(tget(decl_items(d), "style"@) == tget(border_items(d), "style"@));
    assert(tget(decl_items(d), "style_top"@) == tget(border_items(d), "style_top"@));
    assert(tget(decl_items(d), "style_bottom"@) == tget(border_items(d), "style_bottom"@));
    assert(tget(decl_items(d), "style_left"@) == tget(border_items(d), "style_left"@));
    assert(tget(decl_items(d), "style_right"@) == tget(border_items(d), "style_right"@));
    assert(tget(decl_items(d), "header"@) == tget(border_items(d), "header"@));
    assert(tget(decl_items(d), "fg"@) == tget(paint_items(d), "fg"@));
    assert(tget(decl_items(d), "bg"@) == tget(paint_items(d), "bg"@));
    assert(tget(decl_items(d), "bold"@) == tget(paint_items(d), "bold"@));
    assert(tget(decl_items(d), "italic"@) == tget(paint_items(d), "italic"@));
    assert(tget(decl_items(d), "underline"@) == tget(paint_items(d), "underline"@));
    assert(tget(decl_items(d), "dim"@) == tget(paint_items(d), "dim"@));
    assert(tget(decl_items(d), "reversed"@) == tget(paint_items(d), "reversed"@));
    assert(tget(decl_items(d), "shadow"@) == tget(dialog_items(d), "shadow"@));
    assert(tget(decl_items(d), "placement"@) == tget(dialog_items(d), "placement"@));
    assert(tget(decl_items(d), "margin"@) == tget(dialog_items(d), "margin"@));
    assert(tget(decl_items(d), "glyph_top"@) == tget(glyph_items(d), "glyph_top"@));
    assert(tget(decl_items(d), "glyph_bottom"@) == tget(glyph_items(d), "glyph_bottom"@));
    assert(tget(decl_items(d), "glyph_left"@) == tget(glyph_items(d), "glyph_left"@));
    assert(tget(decl_items(d), "glyph_right"@) == tget(glyph_items(d), "glyph_right"@));
    assert(tget(decl_items(d), "glyph_tl"@) == tget(glyph_items(d), "glyph_tl"@));
    assert(tget(decl_items(d), "glyph_tr"@) == tget(glyph_items(d), "glyph_tr"@));
    assert(tget(decl_items(d), "glyph_bl"@) == tget(glyph_items(d), "glyph_bl"@));
    assert(tget(decl_items(d), "glyph_br"@) == tget(glyph_items(d), "glyph_br"@));
    assert(d.bold is None || d.bold == Some(true));
    assert(d.italic is None || d.italic == Some(true));
    assert(d.underline is None || d.underline == Some(true));
    assert(d.dim is None || d.dim == Some(true));
    assert(d.reversed is None || d.reversed == Some(true));
    assert(d.shadow is None || d.shadow == Some(true));
    assert(d.header is None || d.header == Some(false));
}


/// A transcript rule comes back from the table the writer writes for it: its
/// pattern (when it is not empty) and its paint.
pub proof fn lemma_rule_items_read_back(r: RawRule)
    requires
        paint_only(r.decl),
    ensures
        get_str(rule_items(r), "match"@) == Some(r.pattern@),
        decl_from(r.decl, rule_items(r)),
{
    let d = r.decl;
    lemma_paint_gets(d);
    lemma_one_item("match"@, TomlView::Str(r.pattern@));
    lemma_tget_concat_all(seq![("match"@, TomlView::Str(r.pattern@))], paint_items(d));
    reveal_strlit("style");
    assert("style"@.len() == 5);
    assert("style"@[0] == 's');
    reveal_strlit("style_top");
    assert("style_top"@.len() == 9);
    assert("style_top"@[0] == 's');
    reveal_strlit("style_bottom");
    assert("style_bottom"@.len() == 12);
    assert("style_bottom"@[0] == 's');
    reveal_strlit("style_left");
    assert("style_left"@.len() == 10);
    assert("style_left"@[0] == 's');
    reveal_strlit("style_right");
    assert("style_right"@.len() == 11);
    assert("style_right"@[0] == 's');
    reveal_strlit("header");
    assert("header"@.len() == 6);
    assert("header"@[0] == 'h');
    reveal_strlit("fg");
    assert("fg"@.len() == 2);
    assert("fg"@[0] == 'f');
    reveal_strlit("bg");
    assert("bg"@.len() == 2);
    assert("bg"@[0] == 'b');
    reveal_strlit("bold");
    assert("bold"@.len() == 4);
    assert("bold"@[0] == 'b');
    reveal_strlit("italic");
    assert("italic"@.len() == 6);
    assert("italic"@[0] == 'i');
    reveal_strlit("underline");
    assert("underline"@.len() == 9);
    assert("underline"@[0] == 'u');
    reveal_strlit("dim");
    assert("dim"@.len() == 3);
    reveal_strlit("reversed");
    assert("reversed"@.len() == 8);
    assert("reversed"@[0] == 'r');
    reveal_strlit("shadow");
    assert("shadow"@.len() == 6);
    assert("shadow"@[0] == 's');
    reveal_strlit("placement");
    assert("placement"@.len() == 9);
    assert("placement"@[0] == 'p');
    reveal_strlit("margin");
    assert("margin"@.len() == 6);
    assert("margin"@[0] == 'm');
    reveal_strlit("glyph_top");
    assert("glyph_top"@.len() == 9);
    assert("glyph_top"@[0] == 'g');
    reveal_strlit("glyph_bottom");
    assert("glyph_bottom"@.len() == 12);
    assert("glyph_bottom"@[0] == 'g');
    reveal_strlit("glyph_left");
    assert("glyph_left"@.len() == 10);
    assert("glyph_left"@[0] == 'g');
    reveal_strlit("glyph_right");
    assert("glyph_right"@.len() == 11);
    assert("glyph_right"@[0] == 'g');
    reveal_strlit("glyph_tl");
    assert("glyph_tl"@.len() == 8);
    assert("glyph_tl"@[0] == 'g');
    assert("glyph_tl"@[6] == 't');
    assert("glyph_tl"@[7] == 'l');
    reveal_strlit("glyph_tr");
    assert("glyph_tr"@.len() == 8);
    assert("glyph_tr"@[0] == 'g');
    assert("glyph_tr"@[6] == 't');
    assert("glyph_tr"@[7] == 'r');
    reveal_strlit("glyph_bl");
    assert("glyph_bl"@.len() == 8);
    assert("glyph_bl"@[0] == 'g');
    assert("glyph_bl"@[6] == 'b');
    assert("glyph_bl"@[7] == 'l');
    reveal_strlit("glyph_br");
    assert("glyph_br"@.len() == 8);
    assert("glyph_br"@[0] == 'g');
    assert("glyph_br"@[6] == 'b');
    assert("glyph_br"@[7] == 'r');
    reveal_strlit("match");
    assert("match"@.len() == 5);
    assert("match"@[0] == 'm');
    reveal_strlit("text");
    assert("text"@.len() == 4);
    assert("text"@[0] == 't');
    reveal_strlit("align");
    assert("align"@.len() == 5);
    assert("align"@[0] == 'a');
    assert(tget(rule_items(r), "style"@) == tget(paint_items(d), "style"@));
    assert(tget(rule_items(r), "style_top"@) == tget(paint_items(d), "style_top"@));
    assert(tget(rule_items(r), "style_bottom"@) == tget(paint_items(d), "style_bottom"@));
    assert(tget(rule_items(r), "style_left"@) == tget(paint_items(d), "style_left"@));
    assert(tget(rule_items(r), "style_right"@) == tget(paint_items(d), "style_right"@));
    assert(tget(rule_items(r), "header"@) == tget(paint_items(d), "header"@));
    assert(tget(rule_items(r), "fg"@) == tget(paint_items(d), "fg"@));
    assert(tget(rule_items(r), "bg"@) == tget(paint_items(d), "bg"@));
    assert(tget(rule_items(r), "bold"@) == tget(paint_items(d), "bold"@));
    assert(tget(rule_items(r), "italic"@) == tget(paint_items(d), "italic"@));
    assert(tget(rule_items(r), "underline"@) == tget(paint_items(d), "underline"@));
    assert(tget(rule_items(r), "dim"@) == tget(paint_items(d), "dim"@));
    assert(tget(rule_items(r), "reversed"@) == tget(paint_items(d), "reversed"@));
    assert(tget(rule_items(r), "shadow"@) == tget(paint_items(d), "shadow"@));
    assert(tget(rule_items(r), "placement"@) == tget(paint_items(d), "placement"@));
    assert(tget(rule_items(r), "margin"@) == tget(paint_items(d), "margin"@));
    assert(tget(rule_items(r), "glyph_top"@) == tget(paint_items(d), "glyph_top"@));
    assert(tget(rule_items(r), "glyph_bottom"@) == tget(paint_items(d), "glyph_bottom"@));
    assert(tget(rule_items(r), "glyph_left"@) == tget(paint_items(d), "glyph_left"@));
    assert(tget(rule_items(r), "glyph_right"@) == tget(paint_items(d), "glyph_right"@));
    assert(tget(rule_items(r), "glyph_tl"@) == tget(paint_items(d), "glyph_tl"@));
    assert(tget(rule_items(r), "glyph_tr"@) == tget(paint_items(d), "glyph_tr"@));
    assert(tget(rule_items(r), "glyph_bl"@) == tget(paint_items(d), "glyph_bl"@));
    assert(tget(rule_items(r), "glyph_br"@) == tget(paint_items(d), "glyph_br"@));
    assert(d.bold is None || d.bold == Some(true));
    assert(d.italic is None || d.italic == Some(true));
    assert(d.underline is None || d.underline == Some(true));
    assert(d.dim is None || d.dim == Some(true));
    assert(d.reversed is None || d.reversed == Some(true));
}

/// A status-bar segment comes back from the table the writer writes for it:
/// its text, its cluster and its paint.
pub proof fn lemma_segment_items_read_back(sg: RawSegment)
    requires
        paint_only(sg.decl),
    ensures
        str_or(segment_items(sg), "text"@, seq![]) == sg.text@,
        str_or(segment_items(sg), "align"@, "left"@) == sg.align@,
        decl_from(sg.decl, segment_items(sg)),
{
    let d = sg.decl;
    let head = seq![("text"@, TomlView::Str(sg.text@)), ("align"@, TomlView::Str(sg.align@))];
    assert(head =~= seq![("text"@, TomlView::Str(sg.text@))] + seq![("align"@, TomlView::Str(sg.align@))]);
    lemma_paint_gets(d);
    lemma_one_item("text"@, TomlView::Str(sg.text@));
    lemma_one_item("align"@, TomlView::Str(sg.align@));
    lemma_tget_concat_all(seq![("text"@, TomlView::Str(sg.text@))], seq![("align"@, TomlView::Str(sg.align@))]);
    lemma_tget_concat_all(head, paint_items(d));
    reveal_strlit("style");
    assert("style"@.len() == 5);
    assert("style"@[0] == 's');
    reveal_strlit("style_top");
    assert("style_top"@.len() == 9);
    assert("style_top"@[0] == 's');
    reveal_strlit("style_bottom");
    assert("style_bottom"@.len() == 12);
    assert("style_bottom"@[0] == 's');
    reveal_strlit("style_left");
    assert("style_left"@.len() == 10);
    assert("style_left"@[0] == 's');
    reveal_strlit("style_right");
    assert("style_right"@.len() == 11);
    assert("style_right"@[0] == 's');
    reveal_strlit("header");
    assert("header"@.len() == 6);
    assert("header"@[0] == 'h');
    reveal_strlit("fg");
    assert("fg"@.len() == 2);
    assert("fg"@[0] == 'f');
    reveal_strlit("bg");
    assert("bg"@.len() == 2);
    assert("bg"@[0] == 'b');
    reveal_strlit("bold");
    assert("bold"@.len() == 4);
    assert("bold"@[0] == 'b');
    reveal_strlit("italic");
    assert("italic"@.len() == 6);
    assert("italic"@[0] == 'i');
    reveal_strlit("underline");
    assert("underline"@.len() == 9);
    assert("underline"@[0] == 'u');
    reveal_strlit("dim");
    assert("dim"@.len() == 3);
    reveal_strlit("reversed");
    assert("reversed"@.len() == 8);
    assert("reversed"@[0] == 'r');
    reveal_strlit("shadow");
    assert("shadow"@.len() == 6);
    assert("shadow"@[0] == 's');
    reveal_strlit("placement");
    assert("placement"@.len() == 9);
    assert("placement"@[0] == 'p');
    reveal_strlit("margin");
    assert("margin"@.len() == 6);
    assert("margin"@[0] == 'm');
    reveal_strlit("glyph_top");
    assert("glyph_top"@.len() == 9);
    assert("glyph_top"@[0] == 'g');
    reveal_strlit("glyph_bottom");
    assert("glyph_bottom"@.len() == 12);
    assert("glyph_bottom"@[0] == 'g');
    reveal_strlit("glyph_left");
    assert("glyph_left"@.len() == 10);
    assert("glyph_left"@[0] == 'g');
    reveal_strlit("glyph_right");
    assert("glyph_right"@.len() == 11);
    assert("glyph_right"@[0] == 'g');
    reveal_strlit("glyph_tl");
    assert("glyph_tl"@.len() == 8);
    assert("glyph_tl"@[0] == 'g');
    assert("glyph_tl"@[6] == 't');
    assert("glyph_tl"@[7] == 'l');
    reveal_strlit("glyph_tr");
    assert("glyph_tr"@.len() == 8);
    assert("glyph_tr"@[0] == 'g');
    assert("glyph_tr"@[6] == 't');
    assert("glyph_tr"@[7] == 'r');
    reveal_strlit("glyph_bl");
    assert("glyph_bl"@.len() == 8);
    assert("glyph_bl"@[0] == 'g');
    assert("glyph_bl"@[6] == 'b');
    assert("glyph_bl"@[7] == 'l');
    reveal_strlit("glyph_br");
    assert("glyph_br"@.len() == 8);
    assert("glyph_br"@[0] == 'g');
    assert("glyph_br"@[6] == 'b');
    assert("glyph_br"@[7] == 'r');
    reveal_strlit("match");
    assert("match"@.len() == 5);
    assert("match"@[0] == 'm');
    reveal_strlit("text");
    assert("text"@.len() == 4);
    assert("text"@[0] == 't');
    reveal_strlit("align");
    assert("align"@.len() == 5);
    assert("align"@[0] == 'a');
    assert(tget(segment_items(sg), "style"@) == tget(paint_items(d), "style"@));
    assert(tget(segment_items(sg), "style_top"@) == tget(paint_items(d), "style_top"@));
    assert(tget(segment_items(sg), "style_bottom"@) == tget(paint_items(d), "style_bottom"@));
    assert(tget(segment_items(sg), "style_left"@) == tget(paint_items(d), "style_left"@));
    assert(tget(segment_items(sg), "style_right"@) == tget(paint_items(d), "style_right"@));
    assert(tget(segment_items(sg), "header"@) == tget(paint_items(d), "header"@));
    assert(tget(segment_items(sg), "fg"@) == tget(paint_items(d), "fg"@));
    assert(tget(segment_items(sg), "bg"@) == tget(paint_items(d), "bg"@));
    assert(tget(segment_items(sg), "bold"@) == tget(paint_items(d), "bold"@));
    assert(tget(segment_items(sg), "italic"@) == tget(paint_items(d), "italic"@));
    assert(tget(segment_items(sg), "underline"@) == tget(paint_items(d), "underline"@));
    assert(tget(segment_items(sg), "dim"@) == tget(paint_items(d), "dim"@));
    assert(tget(segment_items(sg), "reversed"@) == tget(paint_items(d), "reversed"@));
    assert(tget(segment_items(sg), "shadow"@) == tget(paint_items(d), "shadow"@));
    assert(tget(segment_items(sg), "placement"@) == tget(paint_items(d), "placement"@));
    assert(tget(segment_items(sg), "margin"@) == tget(paint_items(d), "margin"@));
    assert(tget(segment_items(sg), "glyph_top"@) == tget(paint_items(d), "glyph_top"@));
    assert(tget(segment_items(sg), "glyph_bottom"@) == tget(paint_items(d), "glyph_bottom"@));
    assert(tget(segment_items(sg), "glyph_left"@) == tget(paint_items(d), "glyph_left"@));
    assert(tget(segment_items(sg), "glyph_right"@) == tget(paint_items(d), "glyph_right"@));
    assert(tget(segment_items(sg), "glyph_tl"@) == tget(paint_items(d), "glyph_tl"@));
    assert(tget(segment_items(sg), "glyph_tr"@) == tget(paint_items(d), "glyph_tr"@));
    assert(tget(segment_items(sg), "glyph_bl"@) == tget(paint_items(d), "glyph_bl"@));
    assert(tget(segment_items(sg), "glyph_br"@) == tget(paint_items(d), "glyph_br"@));
    assert(d.bold is None || d.bold == Some(true));
    assert(d.italic is None || d.italic == Some(true));
    assert(d.underline is None || d.underline == Some(true));
    assert(d.dim is None || d.dim == Some(true));
    assert(d.reversed is None || d.reversed == Some(true));
    assert(tget(segment_items(sg), "text"@) == Some(TomlView::Str(sg.text@)));
    assert(tget(segment_items(sg), "align"@) == Some(TomlView::Str(sg.align@)));
}


// ── Whole documents ──────────────────────────────────────────────────────────

/// The `[colors]` selector entries the writer writes: each selector, in key
/// order, with the inline table of its declaration.
pub open spec fn selector_table(ps: Seq<(String, Decl)>) -> Seq<(Seq<char>, TomlView)> {
    Seq::new(ps.len(), |i: int| (ps[i].0@, TomlView::Table(decl_items(ps[i].1))))
}

/// The `[symbols.overrides]` entries the writer writes, in key order.
pub open spec fn override_table(ps: Seq<(String, String)>) -> Seq<(Seq<char>, TomlView)> {
    Seq::new(ps.len(), |i: int| (ps[i].0@, TomlView::Str(ps[i].1@)))
}

/// The `[colors]` table the writer writes: the scheme when set, then the selectors.
pub open spec fn colors_table(d: StyleDoc) -> Seq<(Seq<char>, TomlView)> {
    str_item("scheme"@, d.colors.scheme) + selector_table(d.colors.selectors.pairs())
}

/// The diagonal switch as the writer writes it, when set.
pub open spec fn diagonal_item(o: Option<bool>) -> Seq<(Seq<char>, TomlView)> {
    match o {
        Some(b) => seq![("diagonal_corners"@, TomlView::Bool(b))],
        None => seq![],
    }
}

/// The overrides table as the writer writes it, when there is any override.
pub open spec fn overrides_item(ps: Seq<(String, String)>) -> Seq<(Seq<char>, TomlView)> {
    if ps.len() == 0 {
        seq![]
    } else {
        seq![("overrides"@, TomlView::Table(override_table(ps)))]
    }
}

/// The `[symbols]` table the writer writes: the presets and the diagonal
/// switch that are set, then the overrides.
pub open spec fn symbols_table(d: StyleDoc) -> Seq<(Seq<char>, TomlView)> {
    str_item("box_style"@, d.symbols.box_style) + str_item("arrow_set"@, d.symbols.arrow_set) + str_item(
        "portal_icons"@,
        d.symbols.portal_icons,
    ) + str_item("path_style"@, d.symbols.path_style) + diagonal_item(d.symbols.diagonal_corners) + overrides_item(
        d.symbols.overrides.pairs(),
    )
}

/// The tables of the transcript rules, in order.
pub open spec fn rule_tables(rs: Seq<RawRule>) -> Seq<TomlView> {
    Seq::new(rs.len(), |i: int| TomlView::Table(rule_items(rs[i])))
}

/// The tables of the status-bar segments, in order.
pub open spec fn segment_tables(ss: Seq<RawSegment>) -> Seq<TomlView> {
    Seq::new(ss.len(), |i: int| TomlView::Table(segment_items(ss[i])))
}

/// `[transcript]` as the writer writes it: the rules as `[[transcript.rule]]`,
/// nothing when there are none.
pub open spec fn transcript_item(rs: Seq<RawRule>) -> Seq<(Seq<char>, TomlView)> {
    if rs.len() == 0 {
        seq![]
    } else {
        seq![("transcript"@, TomlView::Table(seq![("rule"@, TomlView::Array(rule_tables(rs)))]))]
    }
}

/// The entries of `[statusbar]` as the writer writes them.
pub open spec fn statusbar_table(d: StyleDoc) -> Seq<(Seq<char>, TomlView)> {
    str_item("border"@, d.status_bar.border) + str_item("border_fg"@, d.status_bar.border_fg)
        + if d.status_bar.segments@.len() == 0 {
        Seq::<(Seq<char>, TomlView)>::empty()
    } else {
        seq![("segment"@, TomlView::Array(segment_tables(d.status_bar.segments@)))]
    }
}

/// `[statusbar]` as the writer writes it, nothing when it would be empty.
pub open spec fn statusbar_item(d: StyleDoc) -> Seq<(Seq<char>, TomlView)> {
    if statusbar_table(d).len() == 0 {
        seq![]
    } else {
        seq![("statusbar"@, TomlView::Table(statusbar_table(d)))]
    }
}

/// The TOML document the writer writes for `d` into an empty file, each table
/// with its entries in the order they are written.
pub open spec fn written_tree(d: StyleDoc) -> TomlView {
    TomlView::Table(
        seq![("colors"@, TomlView::Table(colors_table(d))), ("symbols"@, TomlView::Table(symbols_table(d)))]
            + transcript_item(d.transcript_rules@) + statusbar_item(d),
    )
}

/// A document whose every part comes back from what the writer writes for it:
/// each selector's declaration writable and no selector named `scheme`, no
/// badge set (the writer leaves badges out), each transcript rule with a
/// non-empty pattern, and each rule and segment setting only paint.
pub open spec fn doc_writable(d: StyleDoc) -> bool {
    &&& forall|i: int| 0 <= i < d.colors.selectors.pairs().len() ==> {
        &&& (#[trigger] d.colors.selectors.pairs()[i]).0@ != "scheme"@
        &&& decl_writable(d.colors.selectors.pairs()[i].1)
    }
    &&& d.symbols.badge_zcode is None
    &&& d.symbols.badge_glulx is None
    &&& d.symbols.badge_blorb is None
    &&& d.symbols.badge_save is None
    &&& d.symbols.badge_hint is None
    &&& forall|i: int| 0 <= i < d.transcript_rules@.len() ==> {
        &&& (#[trigger] d.transcript_rules@[i]).pattern@.len() > 0
        &&& paint_only(d.transcript_rules@[i].decl)
    }
    &&& forall|i: int| 0 <= i < d.status_bar.segments@.len() ==> paint_only(#[trigger] d.status_bar.segments@[i].decl)
}

/// An entry inserted after every key already there goes last.
proof fn lemma_insert_entry_last<V>(ps: Seq<(String, V)>, k: String, v: V)
    requires
        forall|i: int| 0 <= i < ps.len() ==> lex_lt(#[trigger] ps[i].0@, k@),
    ensures
        insert_entry(ps, k, v) == ps.push((k, v)),
    decreases ps.len(),
{
    if ps.len() > 0 {
        assert(lex_lt(ps[0].0@, k@));
        lemma_lex_irreflexive(k@);
        lemma_lex_asym(ps[0].0@, k@);
        let rest = ps.drop_first();
        assert forall|i: int| 0 <= i < rest.len() implies lex_lt(#[trigger] rest[i].0@, k@) by {
            assert(rest[i] == ps[i + 1]);
        }
        lemma_insert_entry_last(rest, k, v);
        assert(seq![ps[0]] + rest.push((k, v)) =~= ps.push((k, v)));
    }
}

/// Inserting entries already in key order, one by one, into an empty map
/// gives them back.
pub proof fn lemma_insert_all_in_order<V>(ps: Seq<(String, V)>)
    requires
        sorted_keys(ps),
    ensures
        insert_all(Seq::<(String, V)>::empty(), ps) == ps,
    decreases ps.len(),
{
    if ps.len() > 0 {
        let front = ps.drop_last();
        assert(sorted_keys(front));
        lemma_insert_all_in_order(front);
        lemma_insert_all_push(Seq::<(String, V)>::empty(), front, ps.last());
        assert(front.push(ps.last()) =~= ps);
        assert forall|i: int| 0 <= i < front.len() implies lex_lt(#[trigger] front[i].0@, ps.last().0@) by {
            assert(front[i] == ps[i]);
        }
        lemma_insert_entry_last(front, ps.last().0, ps.last().1);
    }
}

/// The selector entries the writer writes after a table with no selector
/// read back as those selectors, in order.
proof fn lemma_selector_entries(pre: Seq<(Seq<char>, TomlView)>, ps: Seq<(String, Decl)>)
    requires
        selector_entries(pre, Seq::<(String, Decl)>::empty()),
        forall|i: int| 0 <= i < ps.len() ==> {
            &&& (#[trigger] ps[i]).0@ != "scheme"@
            &&& decl_writable(ps[i].1)
        },
    ensures
        selector_entries(pre + selector_table(ps), ps),
        scheme_in(pre + selector_table(ps)) == scheme_in(pre),
    decreases ps.len(),
{
    if ps.len() == 0 {
        assert(pre + selector_table(ps) =~= pre);
        assert(ps =~= Seq::<(String, Decl)>::empty());
    } else {
        let front = ps.drop_last();
        assert forall|i: int| 0 <= i < front.len() implies {
            &&& (#[trigger] front[i]).0@ != "scheme"@
            &&& decl_writable(front[i].1)
        } by {
            assert(front[i] == ps[i]);
        }
        lemma_selector_entries(pre, front);
        let c = pre + selector_table(ps);
        assert(c.drop_last() =~= pre + selector_table(front));
        assert(c.last() == (ps.last().0@, TomlView::Table(decl_items(ps.last().1))));
        assert(ps.last() == ps[ps.len() - 1]);
        lemma_decl_items_read_back(ps.last().1);
        assert(ps.drop_last() == front);
    }
}

/// The override entries the writer writes read back as those overrides, in order.
proof fn lemma_string_entries(ps: Seq<(String, String)>)
    ensures
        string_entries(override_table(ps), ps),
    decreases ps.len(),
{
    if ps.len() > 0 {
        let front = ps.drop_last();
        lemma_string_entries(front);
        assert(override_table(ps).drop_last() =~= override_table(front));
    }
}

/// The rule tables the writer writes read back as those rules, in order.
proof fn lemma_rules_from(rs: Seq<RawRule>)
    requires
        forall|i: int| 0 <= i < rs.len() ==> {
            &&& (#[trigger] rs[i]).pattern@.len() > 0
            &&& paint_only(rs[i].decl)
        },
    ensures
        rules_from(rule_tables(rs), rs),
    decreases rs.len(),
{
    if rs.len() > 0 {
        let front = rs.drop_last();
        assert forall|i: int| 0 <= i < front.len() implies {
            &&& (#[trigger] front[i]).pattern@.len() > 0
            &&& paint_only(front[i].decl)
        } by {
            assert(front[i] == rs[i]);
        }
        lemma_rules_from(front);
        assert(rule_tables(rs).drop_last() =~= rule_tables(front));
        assert(rs.last() == rs[rs.len() - 1]);
        lemma_rule_items_read_back(rs.last());
    }
}

/// The segment tables the writer writes read back as those segments, in order.
proof fn lemma_segments_from(ss: Seq<RawSegment>)
    requires
        forall|i: int| 0 <= i < ss.len() ==> paint_only(#[trigger] ss[i].decl),
    ensures
        segments_from(segment_tables(ss), ss),
    decreases ss.len(),
{
    if ss.len() > 0 {
        let front = ss.drop_last();
        assert forall|i: int| 0 <= i < front.len() implies paint_only(#[trigger] front[i].decl) by {
            assert(front[i] == ss[i]);
        }
        lemma_segments_from(front);
        assert(segment_tables(ss).drop_last() =~= segment_tables(front));
        assert(ss.last() == ss[ss.len() - 1]);
        lemma_segment_items_read_back(ss.last());
    }
}


/// The overrides found in a table laid end to end with another: those of the
/// first, then those of the second.
proof fn lemma_override_source_concat(a: Seq<(Seq<char>, TomlView)>, b: Seq<(Seq<char>, TomlView)>)
    ensures
        override_source(a + b) == override_source(a) + override_source(b),
    decreases b.len(),
{
    if b.len() == 0 {
        assert(a + b =~= a);
        assert(override_source(a) + override_source(b) =~= override_source(a));
    } else {
        assert((a + b).drop_last() =~= a + b.drop_last());
        lemma_override_source_concat(a, b.drop_last());
        if b.last().0 == "overrides"@ && b.last().1 is Table {
            assert(override_source(a) + override_source(b.drop_last()) + b.last().1->Table_0 =~= override_source(a) + (
            override_source(b.drop_last()) + b.last().1->Table_0));
        }
    }
}

/// A table with at most one entry, not named `overrides`, holds no overrides.
proof fn lemma_no_overrides(t: Seq<(Seq<char>, TomlView)>)
    requires
        t.len() <= 1,
        t.len() == 1 ==> t[0].0 != "overrides"@,
    ensures
        override_source(t) =~= Seq::<(Seq<char>, TomlView)>::empty(),
{
    reveal_with_fuel(override_source, 2);
}

/// The `[colors]` table the writer writes reads back as the document's colors.
proof fn lemma_colors_read_back(d: StyleDoc)
    requires
        d.colors.selectors.wf(),
        doc_writable(d),
    ensures
        colors_parsed(d.colors, colors_table(d)),
{
    let ps = d.colors.selectors.pairs();
    let pre = str_item("scheme"@, d.colors.scheme);
    reveal_with_fuel(selector_entries, 2);
    reveal_with_fuel(scheme_in, 2);
    assert(selector_entries(pre, Seq::<(String, Decl)>::empty()));
    lemma_selector_entries(pre, ps);
    lemma_insert_all_in_order(ps);
    assert(selector_entries(colors_table(d), ps) && d.colors.selectors.pairs() == insert_all(
        Seq::<(String, Decl)>::empty(),
        ps,
    ));
}

/// The `[symbols]` table the writer writes reads back as the document's symbols.
proof fn lemma_symbols_read_back(d: StyleDoc)
    requires
        d.symbols.overrides.wf(),
        doc_writable(d),
    ensures
        symbols_parsed(d.symbols, symbols_table(d)),
{
    reveal_strlit("box_style");
    assert("box_style"@.len() == 9);
    assert("box_style"@[0] == 'b');
    reveal_strlit("arrow_set");
    assert("arrow_set"@.len() == 9);
    assert("arrow_set"@[0] == 'a');
    reveal_strlit("portal_icons");
    assert("portal_icons"@.len() == 12);
    reveal_strlit("path_style");
    assert("path_style"@.len() == 10);
    reveal_strlit("diagonal_corners");
    assert("diagonal_corners"@.len() == 16);
    reveal_strlit("overrides");
    assert("overrides"@.len() == 9);
    assert("overrides"@[0] == 'o');
    let ps = d.symbols.overrides.pairs();
    let a1 = str_item("box_style"@, d.symbols.box_style);
    let a2 = str_item("arrow_set"@, d.symbols.arrow_set);
    let a3 = str_item("portal_icons"@, d.symbols.portal_icons);
    let a4 = str_item("path_style"@, d.symbols.path_style);
    let a5 = diagonal_item(d.symbols.diagonal_corners);
    let a6 = overrides_item(ps);
    lemma_str_item("box_style"@, d.symbols.box_style);
    lemma_str_item("arrow_set"@, d.symbols.arrow_set);
    lemma_str_item("portal_icons"@, d.symbols.portal_icons);
    lemma_str_item("path_style"@, d.symbols.path_style);
    if let Some(b) = d.symbols.diagonal_corners {
        lemma_one_item("diagonal_corners"@, TomlView::Bool(b));
    }
    if ps.len() > 0 {
        lemma_one_item("overrides"@, TomlView::Table(override_table(ps)));
    }
    lemma_tget_concat_all(a1, a2);
    lemma_tget_concat_all(a1 + a2, a3);
    lemma_tget_concat_all(a1 + a2 + a3, a4);
    lemma_tget_concat_all(a1 + a2 + a3 + a4, a5);
    lemma_tget_concat_all(a1 + a2 + a3 + a4 + a5, a6);
    let t = symbols_table(d);
    assert(t == a1 + a2 + a3 + a4 + a5 + a6);
    assert(tget(t, "box_style"@) == tget(a1, "box_style"@));
    assert(tget(t, "arrow_set"@) == tget(a2, "arrow_set"@));
    assert(tget(t, "portal_icons"@) == tget(a3, "portal_icons"@));
    assert(tget(t, "path_style"@) == tget(a4, "path_style"@));
    assert(tget(t, "diagonal_corners"@) == tget(a5, "diagonal_corners"@));
    lemma_no_overrides(a1);
    lemma_no_overrides(a2);
    lemma_no_overrides(a3);
    lemma_no_overrides(a4);
    lemma_no_overrides(a5);
    lemma_override_source_concat(a1, a2);
    lemma_override_source_concat(a1 + a2, a3);
    lemma_override_source_concat(a1 + a2 + a3, a4);
    lemma_override_source_concat(a1 + a2 + a3 + a4, a5);
    lemma_override_source_concat(a1 + a2 + a3 + a4 + a5, a6);
    reveal_with_fuel(override_source, 2);
    assert(override_source(a6) =~= override_table(ps));
    assert(override_source(t) =~= override_table(ps));
    lemma_string_entries(ps);
    lemma_insert_all_in_order(ps);
    assert(string_entries(override_source(t), ps) && d.symbols.overrides.pairs() == insert_all(
        Seq::<(String, String)>::empty(),
        ps,
    ));
}

/// The `[statusbar]` entries the writer writes read back as the document's status bar.
proof fn lemma_statusbar_read_back(d: StyleDoc)
    requires
        doc_writable(d),
    ensures
        status_bar_parsed(d.status_bar, statusbar_table(d)),
{
    reveal_strlit("border");
    assert("border"@.len() == 6);
    reveal_strlit("border_fg");
    assert("border_fg"@.len() == 9);
    reveal_strlit("segment");
    assert("segment"@.len() == 7);
    let segs = d.status_bar.segments@;
    let b1 = str_item("border"@, d.status_bar.border);
    let b2 = str_item("border_fg"@, d.status_bar.border_fg);
    let b3 = if segs.len() == 0 {
        Seq::<(Seq<char>, TomlView)>::empty()
    } else {
        seq![("segment"@, TomlView::Array(segment_tables(segs)))]
    };
    lemma_str_item("border"@, d.status_bar.border);
    lemma_str_item("border_fg"@, d.status_bar.border_fg);
    if segs.len() > 0 {
        lemma_one_item("segment"@, TomlView::Array(segment_tables(segs)));
    } else {
        assert(segs =~= Seq::<RawSegment>::empty());
    }
    lemma_tget_concat_all(b1, b2);
    lemma_tget_concat_all(b1 + b2, b3);
    let t = statusbar_table(d);
    assert(t == b1 + b2 + b3);
    assert(tget(t, "border"@) == tget(b1, "border"@));
    assert(tget(t, "border_fg"@) == tget(b2, "border_fg"@));
    assert(tget(t, "segment"@) == tget(b3, "segment"@));
    lemma_segments_from(segs);
}

/// A style document comes back from the TOML document the writer writes for
/// it into an empty file, whenever every part of it can be written (see
/// [`doc_writable`]): reading that document gives this one.
pub proof fn lemma_written_tree_reads_back(d: StyleDoc)
    requires
        d.colors.selectors.wf(),
        d.symbols.overrides.wf(),
        doc_writable(d),
    ensures
        is_parsed_doc(d, written_tree(d)),
{
    reveal_strlit("colors");
    assert("colors"@.len() == 6);
    reveal_strlit("symbols");
    assert("symbols"@.len() == 7);
    reveal_strlit("transcript");
    assert("transcript"@.len() == 10);
    reveal_strlit("statusbar");
    assert("statusbar"@.len() == 9);
    reveal_strlit("rule");
    assert("rule"@.len() == 4);
    let c = seq![("colors"@, TomlView::Table(colors_table(d)))];
    let s = seq![("symbols"@, TomlView::Table(symbols_table(d)))];
    let tr = transcript_item(d.transcript_rules@);
    let sb = statusbar_item(d);
    assert(seq![("colors"@, TomlView::Table(colors_table(d))), ("symbols"@, TomlView::Table(symbols_table(d)))] =~= c + s);
    lemma_one_item("colors"@, TomlView::Table(colors_table(d)));
    lemma_one_item("symbols"@, TomlView::Table(symbols_table(d)));
    let rs = d.transcript_rules@;
    if rs.len() > 0 {
        lemma_one_item("transcript"@, TomlView::Table(seq![("rule"@, TomlView::Array(rule_tables(rs)))]));
        lemma_one_item("rule"@, TomlView::Array(rule_tables(rs)));
    } else {
        assert(rs =~= Seq::<RawRule>::empty());
        reveal_with_fuel(rules_from, 1);
    }
    if statusbar_table(d).len() > 0 {
        lemma_one_item("statusbar"@, TomlView::Table(statusbar_table(d)));
    } else {
        assert(statusbar_table(d) =~= Seq::<(Seq<char>, TomlView)>::empty());
    }
    lemma_tget_concat_all(c, s);
    lemma_tget_concat_all(c + s, tr);
    lemma_tget_concat_all(c + s + tr, sb);
    let top = c + s + tr + sb;
    assert(written_tree(d) == TomlView::Table(top));
    assert(tget(top, "colors"@) == tget(c, "colors"@));
    assert(tget(top, "symbols"@) == tget(s, "symbols"@));
    assert(tget(top, "transcript"@) == tget(tr, "transcript"@));
    assert(tget(top, "statusbar"@) == tget(sb, "statusbar"@));
    lemma_colors_read_back(d);
    lemma_symbols_read_back(d);
    lemma_rules_from(rs);
    lemma_statusbar_read_back(d);
}

} // verus!
