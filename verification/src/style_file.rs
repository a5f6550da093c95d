//! Style files: which file a style setting points at, and the edits that write
//! a style document into an existing file's TOML, leaving every other table and
//! key of the file as it was.

use vstd::prelude::*;
use crate::style::{av, toml_view, tv, Decl, RawRule, RawSegment, StyleDoc, TomlValue, TomlView};
use crate::text::{chars_of, eq_lit, owned, path_join, spec_path_join, strings_view, string_of};
use crate::style::personal_style_path;
use crate::style_codec::{doc_writable, written_tree};
use crate::written_doc::{laid_out, lemma_edits_write_the_tree};

verus! {

// ── Items of a table ─────────────────────────────────────────────────────────

/// `key = "text"` when the option is set.
pub open spec fn str_item(k: Seq<char>, o: Option<String>) -> Seq<(Seq<char>, TomlView)> {
    match o {
        Some(s) => seq![(k, TomlView::Str(s@))],
        None => seq![],
    }
}

/// `key = true` when the flag is set to `true`; an unset or `false` flag is not written.
pub open spec fn true_item(k: Seq<char>, o: Option<bool>) -> Seq<(Seq<char>, TomlView)> {
    if o == Some(true) {
        seq![(k, TomlView::Bool(true))]
    } else {
        seq![]
    }
}

/// The colors and set modifiers of a declaration, as a rule or a segment writes them.
pub open spec fn paint_items(d: Decl) -> Seq<(Seq<char>, TomlView)> {
    str_item("fg"@, d.fg) + str_item("bg"@, d.bg) + true_item("bold"@, d.bold) + true_item("italic"@, d.italic)
        + true_item("underline"@, d.underline) + true_item("dim"@, d.dim) + true_item("reversed"@, d.reversed)
}

/// The border items of a declaration: its line style and per-side styles, and
/// `header = false` when the header is switched off.
pub open spec fn border_items(d: Decl) -> Seq<(Seq<char>, TomlView)> {
    str_item("style"@, d.style) + str_item("style_top"@, d.style_top) + str_item("style_bottom"@, d.style_bottom)
        + str_item("style_left"@, d.style_left) + str_item("style_right"@, d.style_right) + if d.header == Some(
        false,
    ) {
        seq![("header"@, TomlView::Bool(false))]
    } else {
        seq![]
    }
}

/// The dialog items of a declaration: shadow, placement and margin.
pub open spec fn dialog_items(d: Decl) -> Seq<(Seq<char>, TomlView)> {
    true_item("shadow"@, d.shadow) + str_item("placement"@, d.placement) + match d.margin {
        Some(m) => seq![("margin"@, TomlView::Int(m as int))],
        None => seq![],
    }
}

/// The glyph override items of a declaration.
pub open spec fn glyph_items(d: Decl) -> Seq<(Seq<char>, TomlView)> {
    str_item("glyph_top"@, d.glyph_top) + str_item("glyph_bottom"@, d.glyph_bottom) + str_item(
        "glyph_left"@,
        d.glyph_left,
    ) + str_item("glyph_right"@, d.glyph_right) + str_item("glyph_tl"@, d.glyph_tl) + str_item(
        "glyph_tr"@,
        d.glyph_tr,
    ) + str_item("glyph_bl"@, d.glyph_bl) + str_item("glyph_br"@, d.glyph_br)
}

/// The inline table that a selector's declaration is written as: border items,
/// colors and modifiers, dialog items, then glyph overrides; unset fields are left out.
pub open spec fn decl_items(d: Decl) -> Seq<(Seq<char>, TomlView)> {
    border_items(d) + paint_items(d) + dialog_items(d) + glyph_items(d)
}

/// The table of a transcript rule: its pattern as `match`, then its paint.
pub open spec fn rule_items(r: RawRule) -> Seq<(Seq<char>, TomlView)> {
    seq![("match"@, TomlView::Str(r.pattern@))] + paint_items(r.decl)
}

/// The table of a status-bar segment: its text and cluster, then its paint.
pub open spec fn segment_items(s: RawSegment) -> Seq<(Seq<char>, TomlView)> {
    seq![("text"@, TomlView::Str(s.text@)), ("align"@, TomlView::Str(s.align@))] + paint_items(s.decl)
}

fn push_str_item(v: &mut Vec<(String, TomlValue)>, k: &str, o: &Option<String>)
    ensures
        tv(final(v)@) == tv(old(v)@) + str_item(k@, *o),
{
    if let Some(s) = o {
        let ghost before = v@;
        v.push((owned(k), TomlValue::Str(s.clone())));
        assert(tv(v@) =~= tv(before) + str_item(k@, *o));
    } else {
        assert(tv(v@) =~= tv(v@) + str_item(k@, *o));
    }
}

fn push_true_item(v: &mut Vec<(String, TomlValue)>, k: &str, o: Option<bool>)
    ensures
        tv(final(v)@) == tv(old(v)@) + true_item(k@, o),
{
    if o == Some(true) {
        let ghost before = v@;
        v.push((owned(k), TomlValue::Bool(true)));
        assert(tv(v@) =~= tv(before) + true_item(k@, o));
    } else {
        assert(tv(v@) =~= tv(v@) + true_item(k@, o));
    }
}

fn push_paint(v: &mut Vec<(String, TomlValue)>, d: &Decl)
    ensures
        tv(final(v)@) == tv(old(v)@) + paint_items(*d),
{
    let ghost v0 = tv(v@);
    push_str_item(v, "fg", &d.fg);
    push_str_item(v, "bg", &d.bg);
    push_true_item(v, "bold", d.bold);
    push_true_item(v, "italic", d.italic);
    push_true_item(v, "underline", d.underline);
    push_true_item(v, "dim", d.dim);
    push_true_item(v, "reversed", d.reversed);
    assert(tv(v@) =~= v0 + paint_items(*d));
}

fn push_border(v: &mut Vec<(String, TomlValue)>, d: &Decl)
    ensures
        tv(final(v)@) == tv(old(v)@) + border_items(*d),
{
    let ghost v0 = tv(v@);
    push_str_item(v, "style", &d.style);
    push_str_item(v, "style_top", &d.style_top);
    push_str_item(v, "style_bottom", &d.style_bottom);
    push_str_item(v, "style_left", &d.style_left);
    push_str_item(v, "style_right", &d.style_right);
    let ghost v1 = tv(v@);
    if d.header == Some(false) {
        v.push((owned("header"), TomlValue::Bool(false)));
        assert(tv(v@) =~= v1 + seq![("header"@, TomlView::Bool(false))]);
    } else {
        assert(tv(v@) =~= v1 + Seq::<(Seq<char>, TomlView)>::empty());
    }
    assert(tv(v@) =~= v0 + border_items(*d));
}

fn push_dialog(v: &mut Vec<(String, TomlValue)>, d: &Decl)
    ensures
        tv(final(v)@) == tv(old(v)@) + dialog_items(*d),
{
    let ghost v0 = tv(v@);
    push_true_item(v, "shadow", d.shadow);
    push_str_item(v, "placement", &d.placement);
    let ghost v1 = tv(v@);
    if let Some(m) = d.margin {
        v.push((owned("margin"), TomlValue::Int(m as i64)));
        assert(tv(v@) =~= v1 + seq![("margin"@, TomlView::Int(m as int))]);
    } else {
        assert(tv(v@) =~= v1 + Seq::<(Seq<char>, TomlView)>::empty());
    }
    assert(tv(v@) =~= v0 + dialog_items(*d));
}

fn push_glyphs(v: &mut Vec<(String, TomlValue)>, d: &Decl)
    ensures
        tv(final(v)@) == tv(old(v)@) + glyph_items(*d),
{
    let ghost v0 = tv(v@);
    push_str_item(v, "glyph_top", &d.glyph_top);
    push_str_item(v, "glyph_bottom", &d.glyph_bottom);
    push_str_item(v, "glyph_left", &d.glyph_left);
    push_str_item(v, "glyph_right", &d.glyph_right);
    push_str_item(v, "glyph_tl", &d.glyph_tl);
    push_str_item(v, "glyph_tr", &d.glyph_tr);
    push_str_item(v, "glyph_bl", &d.glyph_bl);
    push_str_item(v, "glyph_br", &d.glyph_br);
    assert(tv(v@) =~= v0 + glyph_items(*d));
}

/// The inline table a selector's declaration is written as.
pub fn decl_table(d: &Decl) -> (r: Vec<(String, TomlValue)>)
    ensures
        tv(r@) == decl_items(*d),
{
    let mut v: Vec<(String, TomlValue)> = Vec::new();
    assert(tv(v@) =~= Seq::<(Seq<char>, TomlView)>::empty());
    push_border(&mut v, d);
    push_paint(&mut v, d);
    push_dialog(&mut v, d);
    push_glyphs(&mut v, d);
    assert(tv(v@) =~= decl_items(*d));
    v
}

/// The table a transcript rule is written as.
pub fn rule_table(r: &RawRule) -> (t: Vec<(String, TomlValue)>)
    ensures
        tv(t@) == rule_items(*r),
{
    let mut v: Vec<(String, TomlValue)> = Vec::new();
    v.push((owned("match"), TomlValue::Str(r.pattern.clone())));
    assert(tv(v@) =~= seq![("match"@, TomlView::Str(r.pattern@))]);
    push_paint(&mut v, &r.decl);
    v
}

/// The table a status-bar segment is written as.
pub fn segment_table(s: &RawSegment) -> (t: Vec<(String, TomlValue)>)
    ensures
        tv(t@) == segment_items(*s),
{
    let mut v: Vec<(String, TomlValue)> = Vec::new();
    v.push((owned("text"), TomlValue::Str(s.text.clone())));
    v.push((owned("align"), TomlValue::Str(s.align.clone())));
    assert(tv(v@) =~= seq![("text"@, TomlView::Str(s.text@)), ("align"@, TomlView::Str(s.align@))]);
    push_paint(&mut v, &s.decl);
    v
}

// ── The edits of a style file ────────────────────────────────────────────────

/// A table of a style file that the writer edits.
#[derive(Debug, Clone, Copy, PartialEq, Eq, Structural)]
pub enum TomlTable {
    /// The document itself.
    Root,
    Colors,
    Symbols,
    SymbolOverrides,
    Transcript,
    StatusBar,
}

/// The names leading from the document to a table.
pub open spec fn spec_table_path(t: TomlTable) -> Seq<Seq<char>> {
    match t {
        TomlTable::Root => seq![],
        TomlTable::Colors => seq!["colors"@],
        TomlTable::Symbols => seq!["symbols"@],
        TomlTable::SymbolOverrides => seq!["symbols"@, "overrides"@],
        TomlTable::Transcript => seq!["transcript"@],
        TomlTable::StatusBar => seq!["statusbar"@],
    }
}

impl TomlTable {
    /// The names leading from the document to this table.
    pub fn path(self) -> (r: Vec<String>)
        ensures
            strings_view(r@) == spec_table_path(self),
    {
        let mut v: Vec<String> = Vec::new();
        match self {
            TomlTable::Root => {},
            TomlTable::Colors => v.push(owned("colors")),
            TomlTable::Symbols => v.push(owned("symbols")),
            TomlTable::SymbolOverrides => {
                v.push(owned("symbols"));
                v.push(owned("overrides"));
            },
            TomlTable::Transcript => v.push(owned("transcript")),
            TomlTable::StatusBar => v.push(owned("statusbar")),
        }
        assert(strings_view(v@) =~= spec_table_path(self));
        v
    }
}

/// One edit of a style file. A table that an edit names is created when the
/// file lacks it; a name on its path that holds something other than a table
/// makes the write fail.
#[derive(Debug)]
pub enum TomlEdit {
    /// Sets a key of a table to a value (an inline table for a `Table`).
    Assign(TomlTable, String, TomlValue),
    /// Removes a key from a table.
    Remove(TomlTable, String),
    /// Sets a key of a table to an array of tables (each value a `Table`).
    SetTables(TomlTable, String, Vec<TomlValue>),
}

/// [`TomlEdit`] over views.
pub enum EditView {
    Assign(TomlTable, Seq<char>, TomlView),
    Remove(TomlTable, Seq<char>),
    SetTables(TomlTable, Seq<char>, Seq<TomlView>),
}

pub open spec fn edit_view(e: TomlEdit) -> EditView {
    match e {
        TomlEdit::Assign(t, k, v) => EditView::Assign(t, k@, toml_view(v)),
        TomlEdit::Remove(t, k) => EditView::Remove(t, k@),
        TomlEdit::SetTables(t, k, v) => EditView::SetTables(t, k@, av(v@)),
    }
}

pub open spec fn edits_view(s: Seq<TomlEdit>) -> Seq<EditView> {
    s.map_values(|e: TomlEdit| edit_view(e))
}

/// `key = "text"` in table `t` when the option is set.
pub open spec fn set_str(t: TomlTable, k: Seq<char>, o: Option<String>) -> Seq<EditView> {
    match o {
        Some(s) => seq![EditView::Assign(t, k, TomlView::Str(s@))],
        None => seq![],
    }
}

/// `key = "text"` in table `t` when the option is set; the key removed when not.
pub open spec fn set_or_remove(t: TomlTable, k: Seq<char>, o: Option<String>) -> EditView {
    match o {
        Some(s) => EditView::Assign(t, k, TomlView::Str(s@)),
        None => EditView::Remove(t, k),
    }
}

/// The removal of every key of the file's `[colors]` other than `scheme`, in order.
pub open spec fn key_removals(keys: Seq<Seq<char>>) -> Seq<EditView>
    decreases keys.len(),
{
    if keys.len() == 0 {
        seq![]
    } else {
        key_removals(keys.drop_last()) + if keys.last() == "scheme"@ {
            Seq::<EditView>::empty()
        } else {
            seq![EditView::Remove(TomlTable::Colors, keys.last())]
        }
    }
}

/// Every selector declaration written into `[colors]`, in key order.
pub open spec fn selector_sets(ps: Seq<(String, Decl)>) -> Seq<EditView> {
    Seq::new(ps.len(), |i: int| EditView::Assign(TomlTable::Colors, ps[i].0@, TomlView::Table(decl_items(ps[i].1))))
}

/// Every glyph override written into `[symbols.overrides]`, in key order.
pub open spec fn override_sets(ps: Seq<(String, String)>) -> Seq<EditView> {
    Seq::new(ps.len(), |i: int| EditView::Assign(TomlTable::SymbolOverrides, ps[i].0@, TomlView::Str(ps[i].1@)))
}

/// The `[symbols]` presets and diagonal switch: each written when set, removed when not.
pub open spec fn symbol_edits(doc: StyleDoc) -> Seq<EditView> {
    seq![
        set_or_remove(TomlTable::Symbols, "box_style"@, doc.symbols.box_style),
        set_or_remove(TomlTable::Symbols, "arrow_set"@, doc.symbols.arrow_set),
        set_or_remove(TomlTable::Symbols, "portal_icons"@, doc.symbols.portal_icons),
        set_or_remove(TomlTable::Symbols, "path_style"@, doc.symbols.path_style),
        match doc.symbols.diagonal_corners {
            Some(b) => EditView::Assign(TomlTable::Symbols, "diagonal_corners"@, TomlView::Bool(b)),
            None => EditView::Remove(TomlTable::Symbols, "diagonal_corners"@),
        },
    ]
}

/// `[transcript]` dropped, then rewritten with the rules as `[[transcript.rule]]` when there are any.
pub open spec fn transcript_edits(rules: Seq<RawRule>) -> Seq<EditView> {
    seq![EditView::Remove(TomlTable::Root, "transcript"@)] + if rules.len() == 0 {
        Seq::<EditView>::empty()
    } else {
        seq![
            EditView::SetTables(
                TomlTable::Transcript,
                "rule"@,
                Seq::new(rules.len(), |i: int| TomlView::Table(rule_items(rules[i]))),
            ),
        ]
    }
}

/// `[statusbar]` dropped, then rewritten with its frame and its segments as
/// `[[statusbar.segment]]` (a status bar that sets nothing leaves no table).
pub open spec fn status_bar_edits(doc: StyleDoc) -> Seq<EditView> {
    let segs = doc.status_bar.segments@;
    seq![EditView::Remove(TomlTable::Root, "statusbar"@)] + set_str(TomlTable::StatusBar, "border"@, doc.status_bar.border)
        + set_str(TomlTable::StatusBar, "border_fg"@, doc.status_bar.border_fg) + if segs.len() == 0 {
        Seq::<EditView>::empty()
    } else {
        seq![
            EditView::SetTables(
                TomlTable::StatusBar,
                "segment"@,
                Seq::new(segs.len(), |i: int| TomlView::Table(segment_items(segs[i]))),
            ),
        ]
    }
}

/// The edits that write `doc` into a style file whose `[colors]` table holds
/// `keys`: the scheme (set or removed), the file's other color keys removed,
/// every selector written, the symbol presets and switch, every override, then
/// the transcript rules and the status bar rewritten.
pub open spec fn spec_style_edits(doc: StyleDoc, keys: Seq<Seq<char>>) -> Seq<EditView> {
    seq![set_or_remove(TomlTable::Colors, "scheme"@, doc.colors.scheme)] + key_removals(keys) + selector_sets(
        doc.colors.selectors.pairs(),
    ) + symbol_edits(doc) + override_sets(doc.symbols.overrides.pairs()) + transcript_edits(doc.transcript_rules@)
        + status_bar_edits(doc)
}

proof fn lemma_table_view(t: Vec<(String, TomlValue)>)
    ensures
        toml_view(TomlValue::Table(t)) == TomlView::Table(tv(t@)),
{
    if let TomlView::Table(s) = toml_view(TomlValue::Table(t)) {
        assert(s =~= tv(t@));
    }
}

fn push_edit(out: &mut Vec<TomlEdit>, e: TomlEdit)
    ensures
        edits_view(final(out)@) == edits_view(old(out)@).push(edit_view(e)),
{
    let ghost before = out@;
    out.push(e);
    assert(edits_view(out@) =~= edits_view(before).push(edit_view(e)));
}

fn str_or_remove(out: &mut Vec<TomlEdit>, t: TomlTable, k: &str, o: &Option<String>)
    ensures
        edits_view(final(out)@) == edits_view(old(out)@).push(set_or_remove(t, k@, *o)),
{
    match o {
        Some(s) => push_edit(out, TomlEdit::Assign(t, owned(k), TomlValue::Str(s.clone()))),
        None => push_edit(out, TomlEdit::Remove(t, owned(k))),
    }
}

fn push_set_str(out: &mut Vec<TomlEdit>, t: TomlTable, k: &str, o: &Option<String>)
    ensures
        edits_view(final(out)@) == edits_view(old(out)@) + set_str(t, k@, *o),
{
    let ghost before = edits_view(out@);
    match o {
        Some(s) => push_edit(out, TomlEdit::Assign(t, owned(k), TomlValue::Str(s.clone()))),
        None => {},
    }
    assert(edits_view(out@) =~= before + set_str(t, k@, *o));
}

fn push_key_removals(out: &mut Vec<TomlEdit>, keys: &Vec<String>)
    ensures
        edits_view(final(out)@) == edits_view(old(out)@) + key_removals(strings_view(keys@)),
{
    let ghost before = edits_view(out@);
    let mut i: usize = 0;
    assert(strings_view(keys@).take(0) =~= Seq::<Seq<char>>::empty());
    assert(edits_view(out@) =~= before + key_removals(strings_view(keys@).take(0)));
    while i < keys.len()
        invariant
            i <= keys@.len(),
            edits_view(out@) == before + key_removals(strings_view(keys@).take(i as int)),
        decreases keys@.len() - i,
    {
        let ghost ks = strings_view(keys@).take(i + 1);
        assert(ks.drop_last() =~= strings_view(keys@).take(i as int));
        assert(ks.last() == keys@[i as int]@);
        if !eq_lit(&chars_of(keys[i].as_str()), "scheme") {
            push_edit(out, TomlEdit::Remove(TomlTable::Colors, keys[i].clone()));
            assert(edits_view(out@) =~= before + key_removals(ks));
        } else {
            assert(edits_view(out@) =~= before + key_removals(ks));
        }
        i += 1;
    }
    assert(strings_view(keys@).take(keys@.len() as int) =~= strings_view(keys@));
}

/// The edits that write `doc` into a style file whose `[colors]` table holds
/// the keys `existing_color_keys`.
pub fn style_edits(doc: &StyleDoc, existing_color_keys: &Vec<String>) -> (r: Vec<TomlEdit>)
    ensures
        edits_view(r@) == spec_style_edits(*doc, strings_view(existing_color_keys@)),
{
    let mut out: Vec<TomlEdit> = Vec::new();
    str_or_remove(&mut out, TomlTable::Colors, "scheme", &doc.colors.scheme);
    let ghost e0 = edits_view(out@);
    assert(e0 =~= seq![set_or_remove(TomlTable::Colors, "scheme"@, doc.colors.scheme)]);
    push_key_removals(&mut out, existing_color_keys);
    let ghost e1 = edits_view(out@);
    let sel = &doc.colors.selectors;
    let mut i: usize = 0;
    while i < sel.len()
        invariant
            i <= sel.pairs().len(),
            edits_view(out@) == e1 + selector_sets(sel.pairs()).take(i as int),
        decreases sel.pairs().len() - i,
    {
        let (k, d) = sel.entry(i);
        let t = decl_table(d);
        proof {
            lemma_table_view(t);
        }
        let ghost before = edits_view(out@);
        push_edit(&mut out, TomlEdit::Assign(TomlTable::Colors, k.clone(), TomlValue::Table(t)));
        assert(selector_sets(sel.pairs()).take(i + 1) =~= selector_sets(sel.pairs()).take(i as int).push(
            selector_sets(sel.pairs())[i as int],
        ));
        assert(edits_view(out@) =~= e1 + selector_sets(sel.pairs()).take(i + 1));
        i += 1;
    }
    assert(selector_sets(sel.pairs()).take(i as int) =~= selector_sets(sel.pairs()));
    let ghost e2 = edits_view(out@);
    str_or_remove(&mut out, TomlTable::Symbols, "box_style", &doc.symbols.box_style);
    str_or_remove(&mut out, TomlTable::Symbols, "arrow_set", &doc.symbols.arrow_set);
    str_or_remove(&mut out, TomlTable::Symbols, "portal_icons", &doc.symbols.portal_icons);
    str_or_remove(&mut out, TomlTable::Symbols, "path_style", &doc.symbols.path_style);
    match doc.symbols.diagonal_corners {
        Some(b) => push_edit(&mut out, TomlEdit::Assign(TomlTable::Symbols, owned("diagonal_corners"), TomlValue::Bool(b))),
        None => push_edit(&mut out, TomlEdit::Remove(TomlTable::Symbols, owned("diagonal_corners"))),
    }
    assert(edits_view(out@) =~= e2 + symbol_edits(*doc));
    let ghost e3 = edits_view(out@);
    let ov = &doc.symbols.overrides;
    let mut i: usize = 0;
    while i < ov.len()
        invariant
            i <= ov.pairs().len(),
            edits_view(out@) == e3 + override_sets(ov.pairs()).take(i as int),
        decreases ov.pairs().len() - i,
    {
        let (k, v) = ov.entry(i);
        push_edit(&mut out, TomlEdit::Assign(TomlTable::SymbolOverrides, k.clone(), TomlValue::Str(v.clone())));
        assert(edits_view(out@) =~= e3 + override_sets(ov.pairs()).take(i + 1));
        i += 1;
    }
    assert(override_sets(ov.pairs()).take(i as int) =~= override_sets(ov.pairs()));
    let ghost e4 = edits_view(out@);
    push_edit(&mut out, TomlEdit::Remove(TomlTable::Root, owned("transcript")));
    let rules = &doc.transcript_rules;
    if rules.len() > 0 {
        let mut tables: Vec<TomlValue> = Vec::new();
        let mut j: usize = 0;
        while j < rules.len()
            invariant
                j <= rules@.len(),
                av(tables@) == Seq::new(rules@.len(), |i: int| TomlView::Table(rule_items(rules@[i]))).take(j as int),
            decreases rules@.len() - j,
        {
            let t = rule_table(&rules[j]);
            proof {
                lemma_table_view(t);
            }
            let ghost before = tables@;
            tables.push(TomlValue::Table(t));
            assert(av(tables@) =~= av(before).push(TomlView::Table(tv(t@))));
            assert(av(tables@) =~= Seq::new(rules@.len(), |i: int| TomlView::Table(rule_items(rules@[i]))).take(j + 1));
            j += 1;
        }
        assert(av(tables@) =~= Seq::new(rules@.len(), |i: int| TomlView::Table(rule_items(rules@[i]))));
        push_edit(&mut out, TomlEdit::SetTables(TomlTable::Transcript, owned("rule"), tables));
    }
    assert(edits_view(out@) =~= e4 + transcript_edits(doc.transcript_rules@));
    let ghost e5 = edits_view(out@);
    push_edit(&mut out, TomlEdit::Remove(TomlTable::Root, owned("statusbar")));
    push_set_str(&mut out, TomlTable::StatusBar, "border", &doc.status_bar.border);
    push_set_str(&mut out, TomlTable::StatusBar, "border_fg", &doc.status_bar.border_fg);
    let segs = &doc.status_bar.segments;
    if segs.len() > 0 {
        let mut tables: Vec<TomlValue> = Vec::new();
        let mut j: usize = 0;
        while j < segs.len()
            invariant
                j <= segs@.len(),
                av(tables@) == Seq::new(segs@.len(), |i: int| TomlView::Table(segment_items(segs@[i]))).take(j as int),
            decreases segs@.len() - j,
        {
            let t = segment_table(&segs[j]);
            proof {
                lemma_table_view(t);
            }
            let ghost before = tables@;
            tables.push(TomlValue::Table(t));
            assert(av(tables@) =~= av(before).push(TomlView::Table(tv(t@))));
            assert(av(tables@) =~= Seq::new(segs@.len(), |i: int| TomlView::Table(segment_items(segs@[i]))).take(j + 1));
            j += 1;
        }
        assert(av(tables@) =~= Seq::new(segs@.len(), |i: int| TomlView::Table(segment_items(segs@[i]))));
        push_edit(&mut out, TomlEdit::SetTables(TomlTable::StatusBar, owned("segment"), tables));
    }
    assert(edits_view(out@) =~= e5 + status_bar_edits(*doc));
    assert(edits_view(out@) =~= spec_style_edits(*doc, strings_view(existing_color_keys@)));
    out
}

// ── Which style file ─────────────────────────────────────────────────────────

/// Where a style setting points: the built-in default, the personal style file
/// (used when it exists), or a named file.
#[derive(Debug, Clone, PartialEq)]
pub enum StyleSource {
    Builtin,
    /// The personal style file; the built-in default when there is no such file.
    Personal(String),
    File(String),
}

/// A named style path: `~/…` under the home directory (when known), an absolute
/// path as it is, anything else relative to the user directory.
pub open spec fn spec_expand_path(p: Seq<char>, user_dir: Seq<char>, home: Option<Seq<char>>) -> Seq<char> {
    if p.len() >= 2 && p[0] == '~' && p[1] == '/' && home is Some {
        spec_path_join(home->0, p.skip(2))
    } else if p.len() > 0 && p[0] == '/' {
        p
    } else {
        spec_path_join(user_dir, p)
    }
}

/// Expands a named style path.
pub fn expand_path(p: &str, user_dir: &str, home: Option<&str>) -> (r: String)
    ensures
        r@ == spec_expand_path(p@, user_dir@, match home {
            Some(h) => Some(h@),
            None => None,
        }),
{
    let v = chars_of(p);
    match home {
        Some(h) => {
            if v.len() >= 2 && v[0] == '~' && v[1] == '/' {
                let mut rest: Vec<char> = Vec::new();
                let mut i: usize = 2;
                while i < v.len()
                    invariant
                        2 <= i <= v@.len(),
                        rest@ == v@.subrange(2, i as int),
                    decreases v@.len() - i,
                {
                    rest.push(v[i]);
                    i += 1;
                    assert(rest@ =~= v@.subrange(2, i as int));
                }
                assert(rest@ =~= p@.skip(2));
                let tail = string_of(&rest);
                return path_join(h, tail.as_str());
            }
        },
        None => {},
    }
    if v.len() > 0 && v[0] == '/' {
        owned(p)
    } else {
        path_join(user_dir, p)
    }
}

/// The file a style setting points at: no setting means the personal style
/// file, `default` the built-in style, anything else a (named) path.
pub fn style_source(pointer: Option<&str>, user_dir: &str, home: Option<&str>) -> (r: StyleSource)
    ensures
        match pointer {
            None => r matches StyleSource::Personal(f) && f@ == spec_path_join(user_dir@, "style.toml"@),
            Some(s) => if s@ == "default"@ {
                r == StyleSource::Builtin
            } else {
                r matches StyleSource::File(f) && f@ == spec_expand_path(s@, user_dir@, match home {
                    Some(h) => Some(h@),
                    None => None,
                })
            },
        },
{
    match pointer {
        None => StyleSource::Personal(personal_style_path(user_dir)),
        Some(s) => if eq_lit(&chars_of(s), "default") {
            StyleSource::Builtin
        } else {
            StyleSource::File(expand_path(s, user_dir, home))
        },
    }
}

// ── Writing into a style file's TOML ─────────────────────────────────────────

#[verifier::external_type_specification]
#[verifier::external_body]
pub struct ExDocumentMut(toml_edit::DocumentMut);

#[verifier::external_type_specification]
#[verifier::external_body]
pub struct ExEditValue(toml_edit::Value);

#[verifier::external_type_specification]
#[verifier::external_body]
pub struct ExEditItem(toml_edit::Item);

/// What a TOML document holds at a key path: a table, a value (an inline table
/// or array included), or an array of tables (each table as a value).
pub enum DocLeaf {
    Table,
    Value(TomlView),
    Tables(Seq<TomlView>),
}

/// A document's contents, by key path from the top: every table, value and
/// array of tables it holds (`toml_edit`'s `DocumentMut`).
pub uninterp spec fn doc_entries(d: toml_edit::DocumentMut) -> Map<Seq<Seq<char>>, DocLeaf>;

/// What parsing `text` as a document with `toml_edit` gives: its contents, or
/// `None` when the text is not TOML.
pub uninterp spec fn edit_parse(text: Seq<char>) -> Option<Map<Seq<Seq<char>>, DocLeaf>>;

/// The key path of key `k` in the top-level table `t`.
pub open spec fn key2(t: Seq<char>, k: Seq<char>) -> Seq<Seq<char>> {
    seq![t, k]
}

/// `q` lies under the key path `r` (or is `r`).
pub open spec fn under(q: Seq<Seq<char>>, r: Seq<Seq<char>>) -> bool {
    r.len() <= q.len() && q.take(r.len() as int) == r
}

/// Every table on the path `p` is a table or absent.
pub open spec fn path_open(m: Map<Seq<Seq<char>>, DocLeaf>, p: Seq<Seq<char>>) -> bool {
    forall|n: int| 1 <= n <= p.len() && #[trigger] m.contains_key(p.take(n)) ==> m[p.take(n)] is Table
}

/// `m` with the missing tables on the path `p` created.
pub open spec fn with_tables(m: Map<Seq<Seq<char>>, DocLeaf>, p: Seq<Seq<char>>) -> Map<Seq<Seq<char>>, DocLeaf> {
    Map::new(
        |q: Seq<Seq<char>>| m.contains_key(q) || (1 <= q.len() <= p.len() && p.take(q.len() as int) == q),
        |q: Seq<Seq<char>>| if m.contains_key(q) {
            m[q]
        } else {
            DocLeaf::Table
        },
    )
}

/// `m` without the key path `r` and everything under it.
pub open spec fn without_subtree(m: Map<Seq<Seq<char>>, DocLeaf>, r: Seq<Seq<char>>) -> Map<Seq<Seq<char>>, DocLeaf> {
    m.restrict(m.dom().filter(|q: Seq<Seq<char>>| !under(q, r)))
}

/// A plain value as it is written: a string, integer or boolean as it is;
/// anything else (none is written) as an empty string.
pub open spec fn scalar_view(x: TomlView) -> TomlView {
    match x {
        TomlView::Str(_) => x,
        TomlView::Int(_) => x,
        TomlView::Bool(_) => x,
        _ => TomlView::Str(seq![]),
    }
}

/// The position of key `k` among the entries `acc`, if it is there.
pub open spec fn entry_pos(acc: Seq<(Seq<char>, TomlView)>, k: Seq<char>) -> Option<int>
    decreases acc.len(),
{
    if acc.len() == 0 {
        None
    } else if acc.last().0 == k {
        Some(acc.len() - 1)
    } else {
        entry_pos(acc.drop_last(), k)
    }
}

/// The entries of a table written key by key: a key already there has its
/// value replaced in place, a new key goes last; values are plain values.
pub open spec fn table_written(es: Seq<(Seq<char>, TomlView)>) -> Seq<(Seq<char>, TomlView)>
    decreases es.len(),
{
    if es.len() == 0 {
        seq![]
    } else {
        let acc = table_written(es.drop_last());
        let (k, x) = es.last();
        match entry_pos(acc, k) {
            Some(j) => acc.update(j, (k, scalar_view(x))),
            None => acc.push((k, scalar_view(x))),
        }
    }
}

/// A value as it is written: a table as an inline table of plain values.
pub open spec fn written_value(v: TomlView) -> TomlView {
    match v {
        TomlView::Table(es) => TomlView::Table(table_written(es)),
        x => scalar_view(x),
    }
}

/// A table of an array of tables as it is written (anything else as an empty table).
pub open spec fn written_table(v: TomlView) -> TomlView {
    match v {
        TomlView::Table(es) => TomlView::Table(table_written(es)),
        _ => TomlView::Table(seq![]),
    }
}

/// `m` after one edit: the tables on its path created, the key (and whatever
/// was under it) replaced or removed; `None` when the path is blocked by
/// something other than a table.
pub open spec fn apply_edit(m: Map<Seq<Seq<char>>, DocLeaf>, e: EditView) -> Option<Map<Seq<Seq<char>>, DocLeaf>> {
    match e {
        EditView::Assign(t, k, v) => {
            let p = spec_table_path(t);
            if path_open(m, p) {
                Some(without_subtree(with_tables(m, p), p.push(k)).insert(p.push(k), DocLeaf::Value(written_value(v))))
            } else {
                None
            }
        },
        EditView::Remove(t, k) => {
            let p = spec_table_path(t);
            if path_open(m, p) {
                Some(without_subtree(with_tables(m, p), p.push(k)))
            } else {
                None
            }
        },
        EditView::SetTables(t, k, ts) => {
            let p = spec_table_path(t);
            if path_open(m, p) {
                Some(
                    without_subtree(with_tables(m, p), p.push(k)).insert(
                        p.push(k),
                        DocLeaf::Tables(Seq::new(ts.len(), |i: int| written_table(ts[i]))),
                    ),
                )
            } else {
                None
            }
        },
    }
}

/// `m` after the edits, in order; `None` when one of them is blocked.
pub open spec fn apply_edits(m: Map<Seq<Seq<char>>, DocLeaf>, es: Seq<EditView>) -> Option<Map<Seq<Seq<char>>, DocLeaf>>
    decreases es.len(),
{
    if es.len() == 0 {
        Some(m)
    } else {
        match apply_edit(m, es[0]) {
            Some(m2) => apply_edits(m2, es.drop_first()),
            None => None,
        }
    }
}

/// The values of a document by key path: what it holds apart from its tables
/// (an empty array of tables holds nothing).
pub open spec fn doc_values(m: Map<Seq<Seq<char>>, DocLeaf>) -> Map<Seq<Seq<char>>, DocLeaf> {
    m.restrict(
        m.dom().filter(
            |q: Seq<Seq<char>>| !(m[q] is Table) && !(m[q] matches DocLeaf::Tables(ts) && ts.len() == 0),
        ),
    )
}

/// The contents a style file starts from: its text parsed, or nothing when
/// the text is not TOML.
pub open spec fn start_entries(text: Seq<char>) -> Map<Seq<Seq<char>>, DocLeaf> {
    match edit_parse(text) {
        Some(m) => m,
        None => Map::empty(),
    }
}

/// Parses a style file's text with `toml_edit` (`str::parse::<DocumentMut>`),
/// starting from an empty document when it is not TOML. Claimed: the contents
/// are `edit_parse` of the text, or empty; an empty text is an empty document.
#[verifier::external_body]
fn open_document(text: &str) -> (d: toml_edit::DocumentMut)
    ensures
        doc_entries(d) == start_entries(text@),
        doc_entries(d).dom() == Set::<Seq<Seq<char>>>::empty() || text@.len() != 0,
{
    text.parse::<toml_edit::DocumentMut>().unwrap_or_default()
}

/// The text of a document (`toml_edit`'s `Display`). Claimed: parsing it back
/// gives a document with the same values at the same key paths (tables that
/// hold nothing may not be written).
#[verifier::external_body]
fn document_text(d: &toml_edit::DocumentMut) -> (r: String)
    ensures
        edit_parse(r@) is Some,
        doc_values(edit_parse(r@)->0) == doc_values(doc_entries(*d)),
{
    d.to_string()
}

/// The keys of the top-level table `name` (`Table::iter`), none when there is
/// no such key, `None` when it holds something other than a table.
#[verifier::external_body]
fn top_table_keys(d: &toml_edit::DocumentMut, name: &str) -> (r: Option<Vec<String>>)
    ensures
        (r is None) == (doc_entries(*d).contains_key(seq![name@]) && !(doc_entries(*d)[seq![name@]] is Table)),
        r matches Some(ks) ==> forall|k: Seq<char>|
            strings_view(ks@).contains(k) <==> #[trigger] doc_entries(*d).contains_key(key2(name@, k)),
{
    match d.get(name) {
        None => Some(Vec::new()),
        Some(item) => item.as_table().map(|t| t.iter().map(|(k, _)| k.to_string()).collect()),
    }
}

/// A value of the library as a `toml_edit` value: strings, integers and
/// booleans as they are, a table as an inline table of those; conversion only.
#[verifier::external_body]
fn edit_value(v: &TomlValue) -> toml_edit::Value {
    match v {
        TomlValue::Str(s) => toml_edit::Value::from(s.as_str()),
        TomlValue::Int(n) => toml_edit::Value::from(*n),
        TomlValue::Bool(b) => toml_edit::Value::from(*b),
        TomlValue::Table(es) => toml_edit::Value::InlineTable(es.iter().map(|(k, x)| (k.clone(), edit_scalar(x))).collect()),
        _ => toml_edit::Value::from(""),
    }
}

/// A plain value of the library as a `toml_edit` value (anything else as an
/// empty string); conversion only.
#[verifier::external_body]
fn edit_scalar(v: &TomlValue) -> toml_edit::Value {
    match v {
        TomlValue::Str(s) => toml_edit::Value::from(s.as_str()),
        TomlValue::Int(n) => toml_edit::Value::from(*n),
        TomlValue::Bool(b) => toml_edit::Value::from(*b),
        _ => toml_edit::Value::from(""),
    }
}

/// Tables of the library's values as a `toml_edit` array of tables, each
/// table's plain values as they are (anything but a table as an empty table);
/// conversion only.
#[verifier::external_body]
fn edit_tables(ts: &Vec<TomlValue>) -> toml_edit::Item {
    toml_edit::Item::ArrayOfTables(ts.iter().map(|x| match x {
        TomlValue::Table(es) => es.iter().map(|(k, y)| (k.clone(), toml_edit::Item::Value(edit_scalar(y)))).collect(),
        _ => toml_edit::Table::new(),
    }).collect())
}

/// Applies one edit to a document with `toml_edit`: each table on the path is
/// taken with `Table::entry(..).or_insert(Table::new())` (the edit is refused
/// when one is not a table), then the key is set (`IndexMut`, an inline table
/// built with `InlineTable`'s `FromIterator`), removed (`Table::remove`) or set
/// to an array of tables (`Table::insert`). Claimed: the contents change as
/// `apply_edit` says, and stay as they were when the edit is refused.
#[verifier::external_body]
fn edit_document(d: &mut toml_edit::DocumentMut, path: &Vec<String>, e: &TomlEdit) -> (ok: bool)
    requires
        strings_view(path@) == spec_table_path(edit_table(*e)),
    ensures
        ok == apply_edit(doc_entries(*old(d)), edit_view(*e)) is Some,
        ok ==> apply_edit(doc_entries(*old(d)), edit_view(*e)) == Some(doc_entries(*final(d))),
        !ok ==> doc_entries(*final(d)) == doc_entries(*old(d)),
{
    let mut t = d.as_table_mut();
    for name in path.iter() {
        t = match t.entry(name).or_insert(toml_edit::Item::Table(toml_edit::Table::new())).as_table_mut() {
            Some(x) => x,
            None => return false,
        };
    }
    match e {
        TomlEdit::Assign(_, k, v) => t[k.as_str()] = toml_edit::Item::Value(edit_value(v)),
        TomlEdit::Remove(_, k) => { t.remove(k); },
        TomlEdit::SetTables(_, k, ts) => { t.insert(k, edit_tables(ts)); },
    }
    true
}

/// The table an edit addresses.
pub open spec fn edit_table(e: TomlEdit) -> TomlTable {
    match e {
        TomlEdit::Assign(t, _, _) => t,
        TomlEdit::Remove(t, _) => t,
        TomlEdit::SetTables(t, _, _) => t,
    }
}

/// The dotted name of a table, as a refusal names it.
fn table_label(t: TomlTable) -> (r: &'static str) {
    match t {
        TomlTable::Root => "",
        TomlTable::Colors => "colors",
        TomlTable::Symbols => "symbols",
        TomlTable::SymbolOverrides => "symbols.overrides",
        TomlTable::Transcript => "transcript",
        TomlTable::StatusBar => "statusbar",
    }
}

/// Writes a style document into the text of an existing style file (not TOML:
/// an empty one): the file's `[colors]` keys are replaced by the document's
/// selectors, its presets, diagonal switch and overrides are written, and its
/// transcript rules and status bar are rewritten (see [`spec_style_edits`]);
/// every other table and key of the file is kept. A table on the way that is
/// not a table (`[colors]` first) refuses the write.
pub fn write_style_text(existing: &str, doc: &StyleDoc) -> (r: Result<String, String>)
    ensures
        ({
            let m = start_entries(existing@);
            if m.contains_key(seq!["colors"@]) && !(m[seq!["colors"@]] is Table) {
                r matches Err(msg) && msg@ == "[colors] is not a table"@
            } else {
                exists|ks: Seq<Seq<char>>|
                    #![trigger spec_style_edits(*doc, ks)]
                    (forall|k: Seq<char>| ks.contains(k) <==> #[trigger] m.contains_key(key2("colors"@, k))) && match apply_edits(
                        m,
                        spec_style_edits(*doc, ks),
                    ) {
                        None => r is Err,
                        Some(m2) => r matches Ok(t) && edit_parse(t@) matches Some(m3) && doc_values(m3) == doc_values(m2),
                    }
            }
        }),
        existing@.len() == 0 && doc.colors.selectors.wf() && doc.symbols.overrides.wf() && doc_writable(*doc) ==> (r matches Ok(
            t,
        ) && edit_parse(t@) matches Some(m3) && doc_values(m3) == doc_values(laid_out(written_tree(*doc)))),
{
    let mut d = open_document(existing);
    let ghost m = doc_entries(d);
    let keys = match top_table_keys(&d, "colors") {
        Some(ks) => ks,
        None => return Err(owned("[colors] is not a table")),
    };
    let edits = style_edits(doc, &keys);
    let ghost ks = strings_view(keys@);
    let ghost es = edits_view(edits@);
    assert(es == spec_style_edits(*doc, ks));
    assert(forall|k: Seq<char>| ks.contains(k) <==> #[trigger] m.contains_key(key2("colors"@, k)));
    assert(es.skip(0) =~= es);
    let ghost fresh = existing@.len() == 0 && doc.colors.selectors.wf() && doc.symbols.overrides.wf() && doc_writable(*doc);
    proof {
        if fresh {
            assert(m =~= Map::<Seq<Seq<char>>, DocLeaf>::empty()) by {
                assert(m.dom() == Set::<Seq<Seq<char>>>::empty());
            }
            assert(ks =~= Seq::<Seq<char>>::empty()) by {
                if ks.len() > 0 {
                    assert(ks.contains(ks[0]));
                    assert(!m.contains_key(key2("colors"@, ks[0])));
                }
            }
            lemma_edits_write_the_tree(*doc);
        }
    }
    let mut i: usize = 0;
    while i < edits.len()
        invariant
            i <= edits@.len(),
            es == edits_view(edits@),
            es == spec_style_edits(*doc, ks),
            m == start_entries(existing@),
            !(m.contains_key(seq!["colors"@]) && !(m[seq!["colors"@]] is Table)),
            forall|k: Seq<char>| ks.contains(k) <==> #[trigger] m.contains_key(key2("colors"@, k)),
            apply_edits(m, es) == apply_edits(doc_entries(d), es.skip(i as int)),
            fresh == (existing@.len() == 0 && doc.colors.selectors.wf() && doc.symbols.overrides.wf() && doc_writable(*doc)),
            fresh ==> apply_edits(m, es) == Some(laid_out(written_tree(*doc))),
        decreases edits@.len() - i,
    {
        let e = &edits[i];
        let path = edit_path(e);
        assert(es.skip(i as int)[0] == edit_view(edits@[i as int]));
        assert(es.skip(i as int).drop_first() =~= es.skip(i + 1));
        let ghost before = doc_entries(d);
        if !edit_document(&mut d, &path, e) {
            assert(apply_edits(before, es.skip(i as int)) is None);
            let mut msg = owned("[");
            msg.append(table_label(edit_table_of(e)));
            msg.append("] is not a table");
            return Err(msg);
        }
        i += 1;
    }
    assert(es.skip(i as int) =~= Seq::<EditView>::empty());
    assert(apply_edits(m, es) == Some(doc_entries(d)));
    Ok(document_text(&d))
}

fn edit_table_of(e: &TomlEdit) -> (t: TomlTable)
    ensures
        t == edit_table(*e),
{
    match e {
        TomlEdit::Assign(t, _, _) => *t,
        TomlEdit::Remove(t, _) => *t,
        TomlEdit::SetTables(t, _, _) => *t,
    }
}

fn edit_path(e: &TomlEdit) -> (p: Vec<String>)
    ensures
        strings_view(p@) == spec_table_path(edit_table(*e)),
{
    edit_table_of(e).path()
}

} // verus!
