//! What the writer's edits build when they write a style document into an
//! empty file: the TOML document [`written_tree`] lays out, key path by key path.

use vstd::prelude::*;
use crate::strmap::{lemma_lookup_absent, lemma_lookup_index, lookup, sorted_keys};
use crate::style::{Decl, StyleDoc, TomlView};
use crate::style::{get_table, table_or_empty, tget, top_table};
use crate::style::is_parsed_doc;
use crate::style_codec::{
    lemma_written_tree_reads_back, colors_table, diagonal_item, doc_writable, lemma_one_item, lemma_str_item, lemma_tget_concat_all, override_table,
    overrides_item, rule_tables, segment_tables, selector_table, statusbar_item, statusbar_table, symbols_table,
    transcript_item, written_tree,
};
use crate::style_file::{
    decl_items, key_removals, spec_style_edits, str_item, override_sets, selector_sets, set_or_remove, set_str, status_bar_edits, symbol_edits,
    transcript_edits,
    apply_edit, apply_edits, path_open, spec_table_path, under, with_tables, without_subtree, written_table, written_value, DocLeaf, EditView,
    TomlTable,
};

verus! {

/// Edits laid end to end: the second run applies to what the first one built.
pub proof fn lemma_apply_edits_concat(m: Map<Seq<Seq<char>>, DocLeaf>, a: Seq<EditView>, b: Seq<EditView>)
    ensures
        apply_edits(m, a + b) == match apply_edits(m, a) {
            Some(m2) => apply_edits(m2, b),
            None => None,
        },
    decreases a.len(),
{
    if a.len() == 0 {
        assert(a + b =~= b);
    } else {
        assert((a + b)[0] == a[0]);
        assert((a + b).drop_first() =~= a.drop_first() + b);
        match apply_edit(m, a[0]) {
            Some(m1) => lemma_apply_edits_concat(m1, a.drop_first(), b),
            None => {},
        }
    }
}

/// One more edit at the end.
pub proof fn lemma_apply_edits_push(m: Map<Seq<Seq<char>>, DocLeaf>, a: Seq<EditView>, e: EditView)
    ensures
        apply_edits(m, a.push(e)) == match apply_edits(m, a) {
            Some(m2) => apply_edit(m2, e),
            None => None,
        },
{
    lemma_apply_edits_concat(m, a, seq![e]);
    assert(a + seq![e] =~= a.push(e));
    match apply_edits(m, a) {
        Some(m2) => {
            reveal_with_fuel(apply_edits, 2);
            assert(seq![e].drop_first() =~= Seq::<EditView>::empty());
        },
        None => {},
    }
}

/// Every table on the path `p` is there.
pub open spec fn tables_present(m: Map<Seq<Seq<char>>, DocLeaf>, p: Seq<Seq<char>>) -> bool {
    forall|n: int| 1 <= n <= p.len() ==> m.contains_key(#[trigger] p.take(n)) && m[p.take(n)] is Table
}

/// Nothing of `m` lies at or under `r`.
pub open spec fn clear_at(m: Map<Seq<Seq<char>>, DocLeaf>, r: Seq<Seq<char>>) -> bool {
    forall|q: Seq<Seq<char>>| #[trigger] m.contains_key(q) ==> !under(q, r)
}



/// An edit at a table whose path is open, where nothing lies at the key yet:
/// the missing tables on the path are created, then the key is set, removed
/// or set to an array of tables.
pub proof fn lemma_edit_step(m: Map<Seq<Seq<char>>, DocLeaf>, e: EditView, t: TomlTable, k: Seq<char>)
    requires
        e matches EditView::Assign(t2, k2, _) ==> t2 == t && k2 == k,
        e matches EditView::Remove(t2, k2) ==> t2 == t && k2 == k,
        e matches EditView::SetTables(t2, k2, _) ==> t2 == t && k2 == k,
        path_open(m, spec_table_path(t)),
        clear_at(m, spec_table_path(t).push(k)),
    ensures
        apply_edit(m, e) == Some(
            match e {
                EditView::Assign(_, _, v) => with_tables(m, spec_table_path(t)).insert(
                    spec_table_path(t).push(k),
                    DocLeaf::Value(written_value(v)),
                ),
                EditView::Remove(_, _) => with_tables(m, spec_table_path(t)),
                EditView::SetTables(_, _, ts) => with_tables(m, spec_table_path(t)).insert(
                    spec_table_path(t).push(k),
                    DocLeaf::Tables(Seq::new(ts.len(), |i: int| written_table(ts[i]))),
                ),
            },
        ),
{
    let p = spec_table_path(t);
    let w = with_tables(m, p);
    assert forall|q: Seq<Seq<char>>| #[trigger] w.contains_key(q) implies !under(q, p.push(k)) by {
        if !m.contains_key(q) {
            assert(q.len() <= p.len());
        }
    }
    assert(without_subtree(w, p.push(k)) =~= w);
}

/// `m` with an entry of `ps` at `p` and each key that `ps` binds, its leaf
/// made by `leaf`.
pub open spec fn with_entries<V>(
    m: Map<Seq<Seq<char>>, DocLeaf>,
    p: Seq<Seq<char>>,
    ps: Seq<(String, V)>,
    leaf: spec_fn(V) -> DocLeaf,
) -> Map<Seq<Seq<char>>, DocLeaf> {
    Map::new(
        |q: Seq<Seq<char>>|
            m.contains_key(q) || (q.len() == p.len() + 1 && q.take(p.len() as int) == p && lookup(ps, q.last()) is Some),
        |q: Seq<Seq<char>>|
            if q.len() == p.len() + 1 && q.take(p.len() as int) == p && lookup(ps, q.last()) is Some {
                leaf(lookup(ps, q.last())->0)
            } else {
                m[q]
            },
    )
}

/// In a map whose keys increase, the last entry binds its key and the others
/// bind theirs as before it.
pub proof fn lemma_lookup_last<V>(ps: Seq<(String, V)>, k: Seq<char>)
    requires
        sorted_keys(ps),
        ps.len() > 0,
    ensures
        sorted_keys(ps.drop_last()),
        lookup(ps, k) == if k == ps.last().0@ {
            Some(ps.last().1)
        } else {
            lookup(ps.drop_last(), k)
        },
{
    let f = ps.drop_last();
    assert(sorted_keys(f)) by {
        assert forall|a: int, b: int| 0 <= a < b < f.len() implies crate::strmap::lex_lt(
            #[trigger] f[a].0@,
            #[trigger] f[b].0@,
        ) by {
            assert(f[a] == ps[a] && f[b] == ps[b]);
        }
    }
    if k == ps.last().0@ {
        lemma_lookup_index(ps, k, ps.len() - 1);
    } else if exists|i: int| 0 <= i < f.len() && f[i].0@ == k {
        let i = choose|i: int| 0 <= i < f.len() && f[i].0@ == k;
        assert(f[i] == ps[i]);
        lemma_lookup_index(ps, k, i);
        lemma_lookup_index(f, k, i);
    } else {
        assert forall|i: int| 0 <= i < ps.len() implies #[trigger] ps[i].0@ != k by {
            if i < f.len() {
                assert(f[i] == ps[i]);
            }
        }
        lemma_lookup_absent(ps, k);
        lemma_lookup_absent(f, k);
    }
}

/// The tables on a path that are all there need no creating.
pub proof fn lemma_tables_there(m: Map<Seq<Seq<char>>, DocLeaf>, p: Seq<Seq<char>>)
    requires
        tables_present(m, p),
    ensures
        with_tables(m, p) == m,
        path_open(m, p),
{
    assert forall|q: Seq<Seq<char>>| 1 <= q.len() <= p.len() && p.take(q.len() as int) == q implies m.contains_key(q) by {
        assert(m.contains_key(p.take(q.len() as int)));
    }
    assert(with_tables(m, p) =~= m);
}

/// After the tables on a path are created, they are all there.
pub proof fn lemma_tables_made(m: Map<Seq<Seq<char>>, DocLeaf>, p: Seq<Seq<char>>)
    requires
        path_open(m, p),
    ensures
        tables_present(with_tables(m, p), p),
{
    let w = with_tables(m, p);
    assert forall|n: int| 1 <= n <= p.len() implies w.contains_key(#[trigger] p.take(n)) && w[p.take(n)] is Table by {
        assert(p.take(n).len() == n);
        assert(p.take(p.take(n).len() as int) =~= p.take(n));
    }
}

/// Setting every key of `ps`, in key order, in a table at `p` whose path is
/// open and which holds none of them yet: the tables on the path are created
/// (when there is a key to set), then exactly those entries are added.
pub proof fn lemma_assign_all<V>(
    m: Map<Seq<Seq<char>>, DocLeaf>,
    t: TomlTable,
    ps: Seq<(String, V)>,
    val: spec_fn(V) -> TomlView,
    edits: Seq<EditView>,
)
    requires
        sorted_keys(ps),
        path_open(m, spec_table_path(t)),
        forall|q: Seq<Seq<char>>| #[trigger] m.contains_key(q) ==> !(q.len() > spec_table_path(t).len() && q.take(
            spec_table_path(t).len() as int,
        ) == spec_table_path(t) && lookup(ps, q[spec_table_path(t).len() as int]) is Some),
        edits == Seq::new(ps.len(), |i: int| EditView::Assign(t, ps[i].0@, val(ps[i].1))),
    ensures
        apply_edits(m, edits) == Some(
            if ps.len() == 0 {
                m
            } else {
                with_entries(
                    with_tables(m, spec_table_path(t)),
                    spec_table_path(t),
                    ps,
                    |x: V| DocLeaf::Value(written_value(val(x))),
                )
            },
        ),
    decreases ps.len(),
{
    let p = spec_table_path(t);
    let leaf = |x: V| DocLeaf::Value(written_value(val(x)));
    if ps.len() == 0 {
        assert(edits =~= Seq::<EditView>::empty());
    } else {
        let f = ps.drop_last();
        let k = ps.last().0@;
        lemma_lookup_last(ps, k);
        let fe = Seq::new(f.len(), |i: int| EditView::Assign(t, f[i].0@, val(f[i].1)));
        assert(edits =~= fe.push(EditView::Assign(t, k, val(ps.last().1))));
        assert forall|q: Seq<Seq<char>>| #[trigger] m.contains_key(q) implies !(q.len() > p.len() && q.take(p.len() as int)
            == p && lookup(f, q[p.len() as int]) is Some) by {
            lemma_lookup_last(ps, q[p.len() as int]);
        }
        lemma_assign_all(m, t, f, val, fe);
        lemma_apply_edits_push(m, fe, EditView::Assign(t, k, val(ps.last().1)));
        let m1 = with_tables(m, p);
        lemma_tables_made(m, p);
        let w = if f.len() == 0 {
            m
        } else {
            with_entries(m1, p, f, leaf)
        };
        assert forall|i: int| 0 <= i < f.len() implies #[trigger] f[i].0@ != k by {
            assert(f[i] == ps[i]);
            assert(crate::strmap::lex_lt(ps[i].0@, ps[ps.len() - 1].0@));
            crate::strmap::lemma_lex_irreflexive(k);
        }
        lemma_lookup_absent(f, k);
        assert(path_open(w, p)) by {
            if f.len() > 0 {
                assert forall|n: int| 1 <= n <= p.len() && #[trigger] w.contains_key(p.take(n)) implies w[p.take(n)] is Table by {
                    assert(m1.contains_key(p.take(n)));
                }
            }
        }
        assert(clear_at(w, p.push(k))) by {
            let r = p.push(k);
            assert forall|q: Seq<Seq<char>>| #[trigger] w.contains_key(q) implies !under(q, r) by {
                if under(q, r) {
                    assert(q.take(r.len() as int) == r);
                    assert(q[p.len() as int] == q.take(r.len() as int)[p.len() as int]);
                    assert(q[p.len() as int] == k);
                    assert forall|i: int| 0 <= i < p.len() implies q.take(p.len() as int)[i] == p[i] by {
                        assert(q[i] == q.take(r.len() as int)[i]);
                    }
                    assert(q.take(p.len() as int) =~= p);
                    if !m.contains_key(q) {
                        if m1.contains_key(q) {
                            assert(q.len() <= p.len());
                        } else {
                            assert(q.last() == q[p.len() as int]);
                        }
                    }
                }
            }
        }
        lemma_edit_step(w, EditView::Assign(t, k, val(ps.last().1)), t, k);
        if f.len() > 0 {
            lemma_tables_there(m1, p);
            assert(tables_present(w, p)) by {
                assert forall|n: int| 1 <= n <= p.len() implies w.contains_key(#[trigger] p.take(n)) && w[p.take(n)] is Table by {
                    assert(m1.contains_key(p.take(n)));
                }
            }
            lemma_tables_there(w, p);
        }
        assert forall|q: Seq<Seq<char>>| true implies #[trigger] lookup(ps, q.last()) == if q.last() == k {
            Some(ps.last().1)
        } else {
            lookup(f, q.last())
        } by {
            lemma_lookup_last(ps, q.last());
        }
        assert(with_tables(w, p).insert(p.push(k), leaf(ps.last().1)) =~= with_entries(m1, p, ps, leaf)) by {
            assert forall|q: Seq<Seq<char>>| q.len() == p.len() + 1 && q.take(p.len() as int) == p && q.last() == k implies q
                == p.push(k) by {
                assert(q =~= p.push(k));
            }
            assert(p.push(k).take(p.len() as int) =~= p);
        }
    }
}


/// The `[colors]` part of what the writer builds for `d` in an empty file: the
/// table, the scheme when set, and each selector's inline table as written.
pub open spec fn colors_part(d: StyleDoc) -> Map<Seq<Seq<char>>, DocLeaf> {
    let sel = d.colors.selectors.pairs();
    Map::new(
        |q: Seq<Seq<char>>|
            q == seq!["colors"@] || (q == seq!["colors"@, "scheme"@] && d.colors.scheme is Some) || (q.len() == 2
                && q[0] == "colors"@ && lookup(sel, q[1]) is Some),
        |q: Seq<Seq<char>>|
            if q == seq!["colors"@] {
                DocLeaf::Table
            } else if q.len() == 2 && q[0] == "colors"@ && lookup(sel, q[1]) is Some {
                DocLeaf::Value(written_value(TomlView::Table(decl_items(lookup(sel, q[1])->0))))
            } else {
                DocLeaf::Value(TomlView::Str(d.colors.scheme->0@))
            },
    )
}

/// Writing the scheme and the selectors into an empty file builds [`colors_part`].
proof fn lemma_colors_built(d: StyleDoc)
    requires
        d.colors.selectors.wf(),
        doc_writable(d),
    ensures
        apply_edits(
            Map::empty(),
            seq![set_or_remove(TomlTable::Colors, "scheme"@, d.colors.scheme)] + key_removals(Seq::empty())
                + selector_sets(d.colors.selectors.pairs()),
        ) == Some(colors_part(d)),
{
    let sel = d.colors.selectors.pairs();
    let m0 = Map::<Seq<Seq<char>>, DocLeaf>::empty();
    let pc = seq!["colors"@];
    assert(spec_table_path(TomlTable::Colors) == pc);
    let e0 = set_or_remove(TomlTable::Colors, "scheme"@, d.colors.scheme);
    lemma_edit_step(m0, e0, TomlTable::Colors, "scheme"@);
    let w0 = with_tables(m0, pc);
    lemma_tables_made(m0, pc);
    assert(w0 =~= map![pc => DocLeaf::Table]) by {
        assert forall|q: Seq<Seq<char>>| w0.contains_key(q) implies q == pc by {
            assert(pc.take(q.len() as int) == q);
            assert(pc.take(1) =~= pc);
        }
        assert(pc.take(1) =~= pc);
    }
    let m1 = match d.colors.scheme {
        Some(x) => w0.insert(pc.push("scheme"@), DocLeaf::Value(TomlView::Str(x@))),
        None => w0,
    };
    assert(apply_edits(m0, seq![e0]) == Some(m1)) by {
        reveal_with_fuel(apply_edits, 2);
        assert(seq![e0].drop_first() =~= Seq::<EditView>::empty());
    }
    assert(key_removals(Seq::<Seq<char>>::empty()) =~= Seq::<EditView>::empty());
    assert(seq![e0] + key_removals(Seq::empty()) =~= seq![e0]);
    let val = |x: Decl| TomlView::Table(decl_items(x));
    assert(selector_sets(sel) =~= Seq::new(sel.len(), |i: int| EditView::Assign(TomlTable::Colors, sel[i].0@, val(sel[i].1))));
    assert(tables_present(m1, pc)) by {
        assert(pc.take(1) =~= pc);
        assert(w0.contains_key(pc.take(1)));
    }
    lemma_tables_there(m1, pc);
    assert forall|i: int| 0 <= i < sel.len() implies #[trigger] sel[i].0@ != "scheme"@ by {}
    lemma_lookup_absent(sel, "scheme"@);
    assert forall|q: Seq<Seq<char>>| #[trigger] m1.contains_key(q) implies !(q.len() > 1 && q.take(1) == pc && lookup(
        sel,
        q[1],
    ) is Some) by {
        if q.len() > 1 {
            assert(!w0.contains_key(q));
            assert(q == pc.push("scheme"@));
        }
    }
    lemma_assign_all(m1, TomlTable::Colors, sel, val, selector_sets(sel));
    lemma_apply_edits_concat(m0, seq![e0], selector_sets(sel));
    let leaf = |x: Decl| DocLeaf::Value(written_value(val(x)));
    assert(pc.push("scheme"@) =~= seq!["colors"@, "scheme"@]);
    if sel.len() == 0 {
        assert(m1 =~= colors_part(d)) by {
            assert forall|q: Seq<Seq<char>>| true implies #[trigger] lookup(sel, q[1]) is None by {
                lemma_lookup_absent(sel, q[1]);
            }
        }
    } else {
        assert(with_entries(m1, pc, sel, leaf) =~= colors_part(d)) by {
            assert forall|q: Seq<Seq<char>>| q.len() == 2 && q[0] == "colors"@ implies q.take(1) == pc && q.last() == q[1] by {
                assert(q.take(1) =~= pc);
            }
            assert forall|q: Seq<Seq<char>>| q.len() == 2 && q.take(1) == pc implies q[0] == "colors"@ by {
                assert(q[0] == q.take(1)[0]);
            }
        }
    }
}


/// An edit of the key `k` of a table that is there, where nothing lies at the
/// key yet: a value is set, or nothing changes.
proof fn lemma_key_step(m: Map<Seq<Seq<char>>, DocLeaf>, e: EditView, t: TomlTable, k: Seq<char>)
    requires
        e matches EditView::Assign(t2, k2, _) ==> t2 == t && k2 == k,
        e matches EditView::Remove(t2, k2) ==> t2 == t && k2 == k,
        !(e is SetTables),
        tables_present(m, spec_table_path(t)),
        clear_at(m, spec_table_path(t).push(k)),
    ensures
        apply_edit(m, e) == Some(
            match e {
                EditView::Assign(_, _, v) => m.insert(spec_table_path(t).push(k), DocLeaf::Value(written_value(v))),
                _ => m,
            },
        ),
{
    lemma_tables_there(m, spec_table_path(t));
    lemma_edit_step(m, e, t, k);
}

/// Creating a top-level table that is not there adds just that table.
proof fn lemma_top_table_made(m: Map<Seq<Seq<char>>, DocLeaf>, name: Seq<char>)
    requires
        !m.contains_key(seq![name]),
    ensures
        path_open(m, seq![name]),
        with_tables(m, seq![name]) == m.insert(seq![name], DocLeaf::Table),
{
    let p = seq![name];
    assert(p.take(1) =~= p);
    assert forall|q: Seq<Seq<char>>| 1 <= q.len() <= p.len() && p.take(q.len() as int) == q implies q == p by {}
    assert(with_tables(m, p) =~= m.insert(p, DocLeaf::Table));
}


/// A key path that differs from `r` at one of `r`'s positions lies outside it.
proof fn lemma_not_under_at(q: Seq<Seq<char>>, r: Seq<Seq<char>>, i: int)
    requires
        0 <= i < r.len(),
        i < q.len() ==> q[i] != r[i],
    ensures
        !under(q, r),
{
    if under(q, r) {
        assert(q[i] == q.take(r.len() as int)[i]);
    }
}

/// What the presets written so far leave clear: the key of the next one.
proof fn lemma_symbols_clear(m: Map<Seq<Seq<char>>, DocLeaf>, done: Set<Seq<char>>, k: Seq<char>)
    requires
        forall|q: Seq<Seq<char>>| #[trigger] m.contains_key(q) ==> (q.len() >= 1 && q[0] == "colors"@) || q == seq![
            "symbols"@] || (q.len() == 2 && q[0] == "symbols"@ && done.contains(q[1])),
        !done.contains(k),
        "colors"@ != "symbols"@,
    ensures
        clear_at(m, seq!["symbols"@].push(k)),
{
    let r = seq!["symbols"@].push(k);
    assert forall|q: Seq<Seq<char>>| #[trigger] m.contains_key(q) implies !under(q, r) by {
        if q.len() >= 1 && q[0] == "colors"@ {
            lemma_not_under_at(q, r, 0);
        } else if q.len() == 2 {
            lemma_not_under_at(q, r, 1);
        }
    }
}

/// A set option as the key it writes into a table at `p`.
pub open spec fn opt_entry(p: Seq<Seq<char>>, k: Seq<char>, o: Option<String>, q: Seq<Seq<char>>) -> bool {
    q == p.push(k) && o is Some
}

/// The `[symbols]` part of what the writer builds for `d`: the table, the
/// presets and the diagonal switch that are set, and the overrides table with
/// each override when there is any.
pub open spec fn symbols_part(d: StyleDoc) -> Map<Seq<Seq<char>>, DocLeaf> {
    let ov = d.symbols.overrides.pairs();
    let ps = seq!["symbols"@];
    let po = seq!["symbols"@, "overrides"@];
    Map::new(
        |q: Seq<Seq<char>>|
            q == ps || opt_entry(ps, "box_style"@, d.symbols.box_style, q) || opt_entry(ps, "arrow_set"@, d.symbols.arrow_set, q)
                || opt_entry(ps, "portal_icons"@, d.symbols.portal_icons, q) || opt_entry(ps, "path_style"@, d.symbols.path_style, q)
                || (q == ps.push("diagonal_corners"@) && d.symbols.diagonal_corners is Some) || (q == po && ov.len() > 0) || (
            q.len() == 3 && q.take(2) == po && lookup(ov, q[2]) is Some),
        |q: Seq<Seq<char>>|
            if q == ps || q == po {
                DocLeaf::Table
            } else if q == ps.push("box_style"@) {
                DocLeaf::Value(TomlView::Str(d.symbols.box_style->0@))
            } else if q == ps.push("arrow_set"@) {
                DocLeaf::Value(TomlView::Str(d.symbols.arrow_set->0@))
            } else if q == ps.push("portal_icons"@) {
                DocLeaf::Value(TomlView::Str(d.symbols.portal_icons->0@))
            } else if q == ps.push("path_style"@) {
                DocLeaf::Value(TomlView::Str(d.symbols.path_style->0@))
            } else if q == ps.push("diagonal_corners"@) {
                DocLeaf::Value(TomlView::Bool(d.symbols.diagonal_corners->0))
            } else {
                DocLeaf::Value(TomlView::Str(lookup(ov, q[2])->0@))
            },
    )
}


/// `m` with the `[symbols]` table and the presets and the switch that are set.
pub open spec fn presets_map(m: Map<Seq<Seq<char>>, DocLeaf>, d: StyleDoc) -> Map<Seq<Seq<char>>, DocLeaf> {
    let ps = seq!["symbols"@];
    let m0 = m.insert(ps, DocLeaf::Table);
    let m1 = match d.symbols.box_style {
        Some(x) => m0.insert(ps.push("box_style"@), DocLeaf::Value(TomlView::Str(x@))),
        None => m0,
    };
    let m2 = match d.symbols.arrow_set {
        Some(x) => m1.insert(ps.push("arrow_set"@), DocLeaf::Value(TomlView::Str(x@))),
        None => m1,
    };
    let m3 = match d.symbols.portal_icons {
        Some(x) => m2.insert(ps.push("portal_icons"@), DocLeaf::Value(TomlView::Str(x@))),
        None => m2,
    };
    let m4 = match d.symbols.path_style {
        Some(x) => m3.insert(ps.push("path_style"@), DocLeaf::Value(TomlView::Str(x@))),
        None => m3,
    };
    match d.symbols.diagonal_corners {
        Some(b) => m4.insert(ps.push("diagonal_corners"@), DocLeaf::Value(TomlView::Bool(b))),
        None => m4,
    }
}

/// Writing the symbol presets and the switch after the colors adds the
/// `[symbols]` table and the presets and the switch that are set.
#[verifier::rlimit(30)]
proof fn lemma_presets_built(d: StyleDoc, m: Map<Seq<Seq<char>>, DocLeaf>)
    requires
        forall|q: Seq<Seq<char>>| #[trigger] m.contains_key(q) ==> q.len() >= 1 && q[0] == "colors"@,
    ensures
        apply_edits(m, symbol_edits(d)) == Some(presets_map(m, d)),
{
    reveal_strlit("colors");
    assert("colors"@.len() == 6);
    reveal_strlit("symbols");
    assert("symbols"@.len() == 7);
    reveal_strlit("box_style");
    assert("box_style"@.len() == 9);
    assert("box_style"@[0] == 'b');
    reveal_strlit("arrow_set");
    assert("arrow_set"@.len() == 9);
    assert("arrow_set"@[0] == 'a');
    reveal_strlit("portal_icons");
    assert("portal_icons"@.len() == 12);
    reveal_strlit("path_style");
    assert("path_style"@.len() == 10);
    reveal_strlit("diagonal_corners");
    assert("diagonal_corners"@.len() == 16);
    reveal_strlit("overrides");
    assert("overrides"@.len() == 9);
    assert("overrides"@[0] == 'o');
    let ps = seq!["symbols"@];
    assert(spec_table_path(TomlTable::Symbols) == ps);
    let es = symbol_edits(d);
    let e1 = es[0];
    let e2 = es[1];
    let e3 = es[2];
    let e4 = es[3];
    let e5 = es[4];
    assert(!m.contains_key(ps));
    lemma_top_table_made(m, "symbols"@);
    lemma_symbols_clear(m, Set::empty(), "box_style"@);
    lemma_edit_step(m, e1, TomlTable::Symbols, "box_style"@);
    let m0 = m.insert(ps, DocLeaf::Table);
    assert(tables_present(m0, ps)) by {
        assert(ps.take(1) =~= ps);
    }
    let m1 = match d.symbols.box_style {
        Some(x) => m0.insert(ps.push("box_style"@), DocLeaf::Value(TomlView::Str(x@))),
        None => m0,
    };
    assert(tables_present(m1, ps)) by {
        assert(ps.take(1) =~= ps);
    }
    lemma_symbols_clear(m1, set!["box_style"@], "arrow_set"@);
    lemma_key_step(m1, e2, TomlTable::Symbols, "arrow_set"@);
    let m2 = match d.symbols.arrow_set {
        Some(x) => m1.insert(ps.push("arrow_set"@), DocLeaf::Value(TomlView::Str(x@))),
        None => m1,
    };
    assert(tables_present(m2, ps)) by {
        assert(ps.take(1) =~= ps);
    }
    lemma_symbols_clear(m2, set!["box_style"@, "arrow_set"@], "portal_icons"@);
    lemma_key_step(m2, e3, TomlTable::Symbols, "portal_icons"@);
    let m3 = match d.symbols.portal_icons {
        Some(x) => m2.insert(ps.push("portal_icons"@), DocLeaf::Value(TomlView::Str(x@))),
        None => m2,
    };
    assert(tables_present(m3, ps)) by {
        assert(ps.take(1) =~= ps);
    }
    lemma_symbols_clear(m3, set!["box_style"@, "arrow_set"@, "portal_icons"@], "path_style"@);
    lemma_key_step(m3, e4, TomlTable::Symbols, "path_style"@);
    let m4 = match d.symbols.path_style {
        Some(x) => m3.insert(ps.push("path_style"@), DocLeaf::Value(TomlView::Str(x@))),
        None => m3,
    };
    assert(tables_present(m4, ps)) by {
        assert(ps.take(1) =~= ps);
    }
    lemma_symbols_clear(m4, set!["box_style"@, "arrow_set"@, "portal_icons"@, "path_style"@], "diagonal_corners"@);
    lemma_key_step(m4, e5, TomlTable::Symbols, "diagonal_corners"@);
    let m5 = match d.symbols.diagonal_corners {
        Some(b) => m4.insert(ps.push("diagonal_corners"@), DocLeaf::Value(TomlView::Bool(b))),
        None => m4,
    };
    assert(apply_edits(m, es) == Some(m5)) by {
        reveal_with_fuel(apply_edits, 6);
        assert(es.drop_first() =~= seq![e2, e3, e4, e5]);
        assert(es.drop_first().drop_first() =~= seq![e3, e4, e5]);
        assert(es.drop_first().drop_first().drop_first() =~= seq![e4, e5]);
        assert(es.drop_first().drop_first().drop_first().drop_first() =~= seq![e5]);
        assert(seq![e5].drop_first() =~= Seq::<EditView>::empty());
    }
}

/// Every key path of [`symbols_part`] starts at `symbols`.
proof fn lemma_symbols_part_keys(d: StyleDoc)
    ensures
        forall|q: Seq<Seq<char>>| #[trigger] symbols_part(d).contains_key(q) ==> q.len() >= 1 && q[0] == "symbols"@,
{
    let ps = seq!["symbols"@];
    let po = seq!["symbols"@, "overrides"@];
    assert forall|q: Seq<Seq<char>>| #[trigger] symbols_part(d).contains_key(q) implies q.len() >= 1 && q[0] == "symbols"@ by {
        if q.len() == 3 && q.take(2) == po {
            assert(q[0] == q.take(2)[0]);
        }
    }
}

/// Writing the symbol presets, the switch and the overrides after the colors
/// adds [`symbols_part`].
#[verifier::rlimit(30)]
proof fn lemma_symbols_built(d: StyleDoc, m: Map<Seq<Seq<char>>, DocLeaf>)
    requires
        d.symbols.overrides.wf(),
        forall|q: Seq<Seq<char>>| #[trigger] m.contains_key(q) ==> q.len() >= 1 && q[0] == "colors"@,
    ensures
        apply_edits(m, symbol_edits(d) + override_sets(d.symbols.overrides.pairs())) == Some(
            m.union_prefer_right(symbols_part(d)),
        ),
{
    reveal_strlit("colors");
    assert("colors"@.len() == 6);
    reveal_strlit("symbols");
    assert("symbols"@.len() == 7);
    reveal_strlit("box_style");
    assert("box_style"@.len() == 9);
    assert("box_style"@[0] == 'b');
    reveal_strlit("arrow_set");
    assert("arrow_set"@.len() == 9);
    assert("arrow_set"@[0] == 'a');
    reveal_strlit("portal_icons");
    assert("portal_icons"@.len() == 12);
    reveal_strlit("path_style");
    assert("path_style"@.len() == 10);
    reveal_strlit("diagonal_corners");
    assert("diagonal_corners"@.len() == 16);
    reveal_strlit("overrides");
    assert("overrides"@.len() == 9);
    assert("overrides"@[0] == 'o');
    let ov = d.symbols.overrides.pairs();
    let ps = seq!["symbols"@];
    let po = seq!["symbols"@, "overrides"@];
    assert(spec_table_path(TomlTable::SymbolOverrides) == po);
    let es = symbol_edits(d);
    lemma_presets_built(d, m);
    let m5 = presets_map(m, d);
    assert(path_open(m5, po)) by {
        assert(po.take(1) =~= ps);
        assert(po.take(2) =~= po);
    }
    let val = |x: String| TomlView::Str(x@);
    assert(override_sets(ov) =~= Seq::new(ov.len(), |i: int| EditView::Assign(TomlTable::SymbolOverrides, ov[i].0@, val(ov[i].1))));
    assert forall|q: Seq<Seq<char>>| #[trigger] m5.contains_key(q) implies !(q.len() > 2 && q.take(2) == po && lookup(
        ov,
        q[2],
    ) is Some) by {
        if q.len() > 2 && q.take(2) == po {
            assert(q[0] == q.take(2)[0]);
            assert(q[1] == q.take(2)[1]);
        }
    }
    lemma_assign_all(m5, TomlTable::SymbolOverrides, ov, val, override_sets(ov));
    lemma_apply_edits_concat(m, es, override_sets(ov));
    let leaf = |x: String| DocLeaf::Value(written_value(val(x)));
    let target = m.union_prefer_right(symbols_part(d));
    if ov.len() == 0 {
        assert(m5 =~= target) by {
            assert forall|q: Seq<Seq<char>>| q.len() == 3 implies #[trigger] lookup(ov, q[2]) is None by {}
            lemma_symbols_part_keys(d);
            assert forall|q: Seq<Seq<char>>| #[trigger] m5.contains_key(q) implies target.contains_key(q) && m5[q] == target[q] by {
                if m.contains_key(q) {
                    assert(!symbols_part(d).contains_key(q));
                } else {
                    assert(ps.push("box_style"@)[1] != po[1]);
                    assert(ps.push("arrow_set"@)[1] != po[1]);
                    assert(ps.push("portal_icons"@)[1] != po[1]);
                    assert(ps.push("path_style"@)[1] != po[1]);
                    assert(ps.push("diagonal_corners"@)[1] != po[1]);
                    assert(ps.push("box_style"@)[1] != ps.push("arrow_set"@)[1]);
                    if q == ps {
                    } else if q == ps.push("box_style"@) {
                        assert(q != po);
                        assert(symbols_part(d)[q] == DocLeaf::Value(TomlView::Str(d.symbols.box_style->0@)));
                    } else if q == ps.push("arrow_set"@) {
                        assert(q != po);
                        assert(q != ps.push("box_style"@));
                    } else if q == ps.push("portal_icons"@) {
                        assert(q != po);
                    } else if q == ps.push("path_style"@) {
                        assert(q != po);
                    } else {
                        assert(q != po);
                    }
                }
            }
            assert forall|q: Seq<Seq<char>>| #[trigger] target.contains_key(q) implies m5.contains_key(q) by {}
        }
    } else {
        let w = with_tables(m5, po);
        assert(w =~= m5.insert(po, DocLeaf::Table)) by {
            assert(po.take(1) =~= ps);
            assert(po.take(2) =~= po);
            assert forall|q: Seq<Seq<char>>| 1 <= q.len() <= po.len() && po.take(q.len() as int) == q implies q == ps || q == po by {
                if q.len() == 1 {
                    assert(q =~= ps);
                } else {
                    assert(q =~= po);
                }
            }
        }
        assert(with_entries(w, po, ov, leaf) =~= target) by {
            assert forall|q: Seq<Seq<char>>| q.len() == 3 && q.take(2) == po implies q.last() == q[2] && q[0] == "symbols"@ by {
                assert(q[0] == q.take(2)[0]);
            }
        }
    }
}


/// Tables written as an array of tables.
pub open spec fn written_tables(ts: Seq<TomlView>) -> DocLeaf {
    DocLeaf::Tables(Seq::new(ts.len(), |i: int| written_table(ts[i])))
}

/// The key path `[name]`, with nothing of `m` at or under it.
pub open spec fn section_clear(m: Map<Seq<Seq<char>>, DocLeaf>, name: Seq<char>) -> bool {
    forall|q: Seq<Seq<char>>| #[trigger] m.contains_key(q) ==> q.len() >= 1 && q[0] != name
}

/// The `[transcript]` part of what the writer builds for `d`: the rules as an
/// array of tables when there are any.
pub open spec fn transcript_part(d: StyleDoc) -> Map<Seq<Seq<char>>, DocLeaf> {
    if d.transcript_rules@.len() == 0 {
        Map::empty()
    } else {
        map![seq!["transcript"@] => DocLeaf::Table, seq!["transcript"@, "rule"@] => written_tables(rule_tables(d.transcript_rules@))]
    }
}

/// Dropping `[transcript]` and writing the rules adds [`transcript_part`].
proof fn lemma_transcript_built(d: StyleDoc, m: Map<Seq<Seq<char>>, DocLeaf>)
    requires
        section_clear(m, "transcript"@),
    ensures
        apply_edits(m, transcript_edits(d.transcript_rules@)) == Some(m.union_prefer_right(transcript_part(d))),
{
    let rs = d.transcript_rules@;
    let pt = seq!["transcript"@];
    assert(spec_table_path(TomlTable::Root) =~= Seq::<Seq<char>>::empty());
    assert(spec_table_path(TomlTable::Transcript) == pt);
    let e0 = EditView::Remove(TomlTable::Root, "transcript"@);
    assert(Seq::<Seq<char>>::empty().push("transcript"@) =~= pt);
    assert(clear_at(m, pt)) by {
        assert forall|q: Seq<Seq<char>>| #[trigger] m.contains_key(q) implies !under(q, pt) by {
            lemma_not_under_at(q, pt, 0);
        }
    }
    assert(tables_present(m, Seq::<Seq<char>>::empty()));
    lemma_key_step(m, e0, TomlTable::Root, "transcript"@);
    if rs.len() == 0 {
        assert(transcript_edits(rs) =~= seq![e0]);
        reveal_with_fuel(apply_edits, 2);
        assert(seq![e0].drop_first() =~= Seq::<EditView>::empty());
        assert(m.union_prefer_right(transcript_part(d)) =~= m);
    } else {
        let e1 = EditView::SetTables(TomlTable::Transcript, "rule"@, rule_tables(rs));
        assert(transcript_edits(rs) =~= seq![e0, e1]);
        assert(!m.contains_key(pt));
        lemma_top_table_made(m, "transcript"@);
        assert(clear_at(m, pt.push("rule"@))) by {
            assert forall|q: Seq<Seq<char>>| #[trigger] m.contains_key(q) implies !under(q, pt.push("rule"@)) by {
                lemma_not_under_at(q, pt.push("rule"@), 0);
            }
        }
        lemma_edit_step(m, e1, TomlTable::Transcript, "rule"@);
        reveal_with_fuel(apply_edits, 3);
        assert(seq![e0, e1].drop_first() =~= seq![e1]);
        assert(seq![e1].drop_first() =~= Seq::<EditView>::empty());
        assert(pt.push("rule"@) =~= seq!["transcript"@, "rule"@]);
        assert(m.insert(pt, DocLeaf::Table).insert(pt.push("rule"@), written_tables(rule_tables(rs))) =~= m.union_prefer_right(
            transcript_part(d),
        ));
    }
}

/// The entries of `[statusbar]` the writer builds: the frame and its color
/// when set, and the segments as an array of tables when there are any.
pub open spec fn statusbar_part(d: StyleDoc) -> Map<Seq<Seq<char>>, DocLeaf> {
    let sb = d.status_bar;
    let segs = sb.segments@;
    let p = seq!["statusbar"@];
    let any = sb.border is Some || sb.border_fg is Some || segs.len() > 0;
    Map::new(
        |q: Seq<Seq<char>>|
            (q == p && any) || opt_entry(p, "border"@, sb.border, q) || opt_entry(p, "border_fg"@, sb.border_fg, q) || (q
                == p.push("segment"@) && segs.len() > 0),
        |q: Seq<Seq<char>>|
            if q == p {
                DocLeaf::Table
            } else if q == p.push("border"@) {
                DocLeaf::Value(TomlView::Str(sb.border->0@))
            } else if q == p.push("border_fg"@) {
                DocLeaf::Value(TomlView::Str(sb.border_fg->0@))
            } else {
                written_tables(segment_tables(segs))
            },
    )
}

/// `m` with the table at `[name]` made when missing and `leaf` set at `k` in it.
pub open spec fn add_entry(m: Map<Seq<Seq<char>>, DocLeaf>, name: Seq<char>, k: Seq<char>, leaf: DocLeaf) -> Map<
    Seq<Seq<char>>,
    DocLeaf,
> {
    if m.contains_key(seq![name]) {
        m.insert(seq![name, k], leaf)
    } else {
        m.insert(seq![name], DocLeaf::Table).insert(seq![name, k], leaf)
    }
}

/// A key set in a top-level table that is there or missing, where nothing
/// lies at the key.
proof fn lemma_section_step(m: Map<Seq<Seq<char>>, DocLeaf>, e: EditView, t: TomlTable, name: Seq<char>, k: Seq<char>)
    requires
        spec_table_path(t) == seq![name],
        e matches EditView::Assign(t2, k2, _) ==> t2 == t && k2 == k,
        e matches EditView::SetTables(t2, k2, _) ==> t2 == t && k2 == k,
        !(e is Remove),
        !m.contains_key(seq![name]) || m[seq![name]] is Table,
        !m.contains_key(seq![name, k]),
        forall|q: Seq<Seq<char>>| #[trigger] m.contains_key(q) && q.len() >= 2 && q[0] == name ==> q[1] != k,
    ensures
        apply_edit(m, e) == Some(
            match e {
                EditView::Assign(_, _, v) => add_entry(m, name, k, DocLeaf::Value(written_value(v))),
                EditView::SetTables(_, _, ts) => add_entry(m, name, k, written_tables(ts)),
                _ => m,
            },
        ),
{
    let p = seq![name];
    assert(p.take(1) =~= p);
    assert(p.push(k) =~= seq![name, k]);
    assert(clear_at(m, p.push(k))) by {
        assert forall|q: Seq<Seq<char>>| #[trigger] m.contains_key(q) implies !under(q, p.push(k)) by {
            if q.len() >= 2 && q[0] == name {
                lemma_not_under_at(q, p.push(k), 1);
            } else if q.len() >= 2 {
                lemma_not_under_at(q, p.push(k), 0);
            }
        }
    }
    if m.contains_key(p) {
        assert(tables_present(m, p));
        lemma_tables_there(m, p);
    } else {
        lemma_top_table_made(m, name);
    }
    lemma_edit_step(m, e, t, k);
}

/// Dropping `[statusbar]` and writing the frame, its color and the segments
/// adds [`statusbar_part`].
#[verifier::rlimit(30)]
proof fn lemma_statusbar_built(d: StyleDoc, m: Map<Seq<Seq<char>>, DocLeaf>)
    requires
        section_clear(m, "statusbar"@),
    ensures
        apply_edits(m, status_bar_edits(d)) == Some(m.union_prefer_right(statusbar_part(d))),
{
    reveal_strlit("statusbar");
    assert("statusbar"@.len() == 9);
    assert("statusbar"@[0] == 's');
    reveal_strlit("border");
    assert("border"@.len() == 6);
    assert("border"@[0] == 'b');
    reveal_strlit("border_fg");
    assert("border_fg"@.len() == 9);
    assert("border_fg"@[0] == 'b');
    reveal_strlit("segment");
    assert("segment"@.len() == 7);
    assert("segment"@[1] == 'e');
    reveal_strlit("colors");
    assert("colors"@.len() == 6);
    assert("colors"@[0] == 'c');
    reveal_strlit("symbols");
    assert("symbols"@.len() == 7);
    assert("symbols"@[1] == 'y');
    reveal_strlit("transcript");
    assert("transcript"@.len() == 10);
    let sb = d.status_bar;
    let segs = sb.segments@;
    let p = seq!["statusbar"@];
    assert(spec_table_path(TomlTable::Root) =~= Seq::<Seq<char>>::empty());
    assert(spec_table_path(TomlTable::StatusBar) == p);
    let e0 = EditView::Remove(TomlTable::Root, "statusbar"@);
    assert(Seq::<Seq<char>>::empty().push("statusbar"@) =~= p);
    assert(clear_at(m, p)) by {
        assert forall|q: Seq<Seq<char>>| #[trigger] m.contains_key(q) implies !under(q, p) by {
            lemma_not_under_at(q, p, 0);
        }
    }
    assert(tables_present(m, Seq::<Seq<char>>::empty()));
    lemma_key_step(m, e0, TomlTable::Root, "statusbar"@);
    let a = set_str(TomlTable::StatusBar, "border"@, sb.border);
    let b = set_str(TomlTable::StatusBar, "border_fg"@, sb.border_fg);
    let c = if segs.len() == 0 {
        Seq::<EditView>::empty()
    } else {
        seq![EditView::SetTables(TomlTable::StatusBar, "segment"@, segment_tables(segs))]
    };
    assert(status_bar_edits(d) == seq![e0] + a + b + c);
    assert(apply_edits(m, seq![e0]) == Some(m)) by {
        reveal_with_fuel(apply_edits, 2);
        assert(seq![e0].drop_first() =~= Seq::<EditView>::empty());
    }
    let m1 = match sb.border {
        Some(x) => add_entry(m, "statusbar"@, "border"@, DocLeaf::Value(TomlView::Str(x@))),
        None => m,
    };
    assert(apply_edits(m, a) == Some(m1)) by {
        if let Some(x) = sb.border {
            lemma_section_step(m, a[0], TomlTable::StatusBar, "statusbar"@, "border"@);
            reveal_with_fuel(apply_edits, 2);
            assert(a.drop_first() =~= Seq::<EditView>::empty());
        } else {
            assert(a =~= Seq::<EditView>::empty());
        }
    }
    let m2 = match sb.border_fg {
        Some(x) => add_entry(m1, "statusbar"@, "border_fg"@, DocLeaf::Value(TomlView::Str(x@))),
        None => m1,
    };
    assert(apply_edits(m1, b) == Some(m2)) by {
        if let Some(x) = sb.border_fg {
            lemma_section_step(m1, b[0], TomlTable::StatusBar, "statusbar"@, "border_fg"@);
            reveal_with_fuel(apply_edits, 2);
            assert(b.drop_first() =~= Seq::<EditView>::empty());
        } else {
            assert(b =~= Seq::<EditView>::empty());
        }
    }
    let m3 = if segs.len() == 0 {
        m2
    } else {
        add_entry(m2, "statusbar"@, "segment"@, written_tables(segment_tables(segs)))
    };
    assert(apply_edits(m2, c) == Some(m3)) by {
        if segs.len() > 0 {
            lemma_section_step(m2, c[0], TomlTable::StatusBar, "statusbar"@, "segment"@);
            reveal_with_fuel(apply_edits, 2);
            assert(c.drop_first() =~= Seq::<EditView>::empty());
        } else {
            assert(c =~= Seq::<EditView>::empty());
        }
    }
    lemma_apply_edits_concat(m, seq![e0], a);
    lemma_apply_edits_concat(m, seq![e0] + a, b);
    lemma_apply_edits_concat(m, seq![e0] + a + b, c);
    assert(p.push("border"@) =~= seq!["statusbar"@, "border"@]);
    assert(p.push("border_fg"@) =~= seq!["statusbar"@, "border_fg"@]);
    assert(p.push("segment"@) =~= seq!["statusbar"@, "segment"@]);
    assert(m3 =~= m.union_prefer_right(statusbar_part(d)));
}


/// Everything the writer builds for `d` in an empty file, key path by key path.
pub open spec fn written_entries(d: StyleDoc) -> Map<Seq<Seq<char>>, DocLeaf> {
    colors_part(d).union_prefer_right(symbols_part(d)).union_prefer_right(transcript_part(d)).union_prefer_right(
        statusbar_part(d),
    )
}

/// The edits that write `d` into an empty file succeed and build exactly
/// [`written_entries`], whenever every part of `d` can be written.
pub proof fn lemma_edits_build(d: StyleDoc)
    requires
        d.colors.selectors.wf(),
        d.symbols.overrides.wf(),
        doc_writable(d),
    ensures
        apply_edits(Map::empty(), spec_style_edits(d, Seq::empty())) == Some(written_entries(d)),
{
    reveal_strlit("colors");
    reveal_strlit("symbols");
    reveal_strlit("transcript");
    reveal_strlit("statusbar");
    assert("colors"@.len() == 6 && "symbols"@.len() == 7 && "transcript"@.len() == 10 && "statusbar"@.len() == 9);
    let m0 = Map::<Seq<Seq<char>>, DocLeaf>::empty();
    let a = seq![set_or_remove(TomlTable::Colors, "scheme"@, d.colors.scheme)] + key_removals(Seq::empty())
        + selector_sets(d.colors.selectors.pairs());
    let sy = symbol_edits(d);
    let ov = override_sets(d.symbols.overrides.pairs());
    let tr = transcript_edits(d.transcript_rules@);
    let sb = status_bar_edits(d);
    assert(spec_style_edits(d, Seq::empty()) == a + sy + ov + tr + sb);
    lemma_colors_built(d);
    let c = colors_part(d);
    assert forall|q: Seq<Seq<char>>| #[trigger] c.contains_key(q) implies q.len() >= 1 && q[0] == "colors"@ by {}
    lemma_symbols_built(d, c);
    lemma_apply_edits_concat(m0, a, sy);
    lemma_apply_edits_concat(c, sy, ov);
    lemma_apply_edits_concat(m0, a + sy, ov);
    let cs = c.union_prefer_right(symbols_part(d));
    lemma_symbols_part_keys(d);
    assert(section_clear(cs, "transcript"@));
    lemma_transcript_built(d, cs);
    lemma_apply_edits_concat(m0, a + sy + ov, tr);
    let ct = cs.union_prefer_right(transcript_part(d));
    assert(section_clear(ct, "statusbar"@));
    lemma_statusbar_built(d, ct);
    lemma_apply_edits_concat(m0, a + sy + ov + tr, sb);
}


// ── The same document, read off the tree ─────────────────────────────────────

/// A style file's document read off a TOML tree, key path by key path, as the
/// writer lays one out: every top-level table is a table, and so is the one
/// nested table `[symbols.overrides]`; an array directly in a top-level table
/// is an array of tables; everything else is a value. Values and the tables
/// of arrays are taken as they are written.
pub open spec fn laid_out(root: TomlView) -> Map<Seq<Seq<char>>, DocLeaf> {
    let top = top_table(root);
    Map::new(|q: Seq<Seq<char>>| laid_out_has(top, q), |q: Seq<Seq<char>>| laid_out_leaf(top, q))
}

/// The one nested table of a style file.
pub open spec fn nested_table(a: Seq<char>, b: Seq<char>) -> bool {
    seq![a, b] == spec_table_path(TomlTable::SymbolOverrides)
}

pub open spec fn laid_out_has(top: Seq<(Seq<char>, TomlView)>, q: Seq<Seq<char>>) -> bool {
    ||| q.len() == 1 && get_table(top, q[0]) is Some
    ||| q.len() == 2 && get_table(top, q[0]) is Some && tget(table_or_empty(get_table(top, q[0])), q[1]) is Some
    ||| q.len() == 3 && nested_table(q[0], q[1]) && get_table(top, q[0]) is Some && get_table(
        table_or_empty(get_table(top, q[0])),
        q[1],
    ) is Some && tget(table_or_empty(get_table(table_or_empty(get_table(top, q[0])), q[1])), q[2]) is Some
}

pub open spec fn laid_out_leaf(top: Seq<(Seq<char>, TomlView)>, q: Seq<Seq<char>>) -> DocLeaf {
    if q.len() == 1 {
        DocLeaf::Table
    } else if q.len() == 2 {
        if nested_table(q[0], q[1]) {
            DocLeaf::Table
        } else {
            match tget(table_or_empty(get_table(top, q[0])), q[1]) {
                Some(TomlView::Array(items)) => written_tables(items),
                Some(x) => DocLeaf::Value(written_value(x)),
                None => DocLeaf::Table,
            }
        }
    } else {
        DocLeaf::Value(
            written_value(tget(table_or_empty(get_table(table_or_empty(get_table(top, q[0])), q[1])), q[2])->0),
        )
    }
}

/// A selector table looked up by key: the inline table of the selector's declaration.
proof fn lemma_tget_selector_table(ps: Seq<(String, Decl)>, k: Seq<char>)
    requires
        sorted_keys(ps),
    ensures
        tget(selector_table(ps), k) == match lookup(ps, k) {
            Some(x) => Some(TomlView::Table(decl_items(x))),
            None => None,
        },
    decreases ps.len(),
{
    if ps.len() > 0 {
        lemma_lookup_last(ps, k);
        assert(selector_table(ps).drop_last() =~= selector_table(ps.drop_last()));
        lemma_tget_selector_table(ps.drop_last(), k);
    }
}

/// An overrides table looked up by key: the override's glyph text.
proof fn lemma_tget_override_table(ps: Seq<(String, String)>, k: Seq<char>)
    requires
        sorted_keys(ps),
    ensures
        tget(override_table(ps), k) == match lookup(ps, k) {
            Some(x) => Some(TomlView::Str(x@)),
            None => None,
        },
    decreases ps.len(),
{
    if ps.len() > 0 {
        lemma_lookup_last(ps, k);
        assert(override_table(ps).drop_last() =~= override_table(ps.drop_last()));
        lemma_tget_override_table(ps.drop_last(), k);
    }
}

/// The top-level tables of the tree the writer writes, by name.
proof fn lemma_top_of_written(d: StyleDoc)
    ensures
        forall|k: Seq<char>| #[trigger] get_table(top_table(written_tree(d)), k) == if k == "colors"@ {
            Some(colors_table(d))
        } else if k == "symbols"@ {
            Some(symbols_table(d))
        } else if k == "transcript"@ && d.transcript_rules@.len() > 0 {
            Some(seq![("rule"@, TomlView::Array(rule_tables(d.transcript_rules@)))])
        } else if k == "statusbar"@ && statusbar_table(d).len() > 0 {
            Some(statusbar_table(d))
        } else {
            None
        },
{
    reveal_strlit("colors");
    assert("colors"@.len() == 6);
    reveal_strlit("symbols");
    assert("symbols"@.len() == 7);
    reveal_strlit("transcript");
    assert("transcript"@.len() == 10);
    reveal_strlit("statusbar");
    assert("statusbar"@.len() == 9);
    let c = seq![("colors"@, TomlView::Table(colors_table(d)))];
    let s = seq![("symbols"@, TomlView::Table(symbols_table(d)))];
    let tr = transcript_item(d.transcript_rules@);
    let sb = statusbar_item(d);
    assert(seq![("colors"@, TomlView::Table(colors_table(d))), ("symbols"@, TomlView::Table(symbols_table(d)))] =~= c + s);
    lemma_one_item("colors"@, TomlView::Table(colors_table(d)));
    lemma_one_item("symbols"@, TomlView::Table(symbols_table(d)));
    if d.transcript_rules@.len() > 0 {
        lemma_one_item("transcript"@, TomlView::Table(seq![("rule"@, TomlView::Array(rule_tables(d.transcript_rules@)))]));
    }
    if statusbar_table(d).len() > 0 {
        lemma_one_item("statusbar"@, TomlView::Table(statusbar_table(d)));
    }
    lemma_tget_concat_all(c, s);
    lemma_tget_concat_all(c + s, tr);
    lemma_tget_concat_all(c + s + tr, sb);
    assert(top_table(written_tree(d)) == c + s + tr + sb);
}


/// The `[colors]` part read off the tree is the part the edits build.
#[verifier::rlimit(30)]
proof fn lemma_colors_laid(d: StyleDoc)
    requires
        d.colors.selectors.wf(),
        doc_writable(d),
    ensures
        forall|q: Seq<Seq<char>>| q.len() >= 1 && q[0] == "colors"@ ==> (#[trigger] laid_out(written_tree(d)).contains_key(q)
            == colors_part(d).contains_key(q)) && (colors_part(d).contains_key(q) ==> laid_out(written_tree(d))[q]
            == colors_part(d)[q]),
{
    reveal_strlit("colors");
    assert("colors"@.len() == 6);
    assert("colors"@[0] == 'c');
    reveal_strlit("symbols");
    assert("symbols"@.len() == 7);
    reveal_strlit("scheme");
    assert("scheme"@.len() == 6);
    assert("scheme"@[0] == 's');
    reveal_strlit("overrides");
    assert("overrides"@.len() == 9);
    let sel = d.colors.selectors.pairs();
    lemma_top_of_written(d);
    lemma_str_item("scheme"@, d.colors.scheme);
    lemma_tget_concat_all(str_item("scheme"@, d.colors.scheme), selector_table(sel));
    assert forall|k: Seq<char>| true implies #[trigger] tget(selector_table(sel), k) == match lookup(sel, k) {
        Some(x) => Some(TomlView::Table(decl_items(x))),
        None => None,
    } by {
        lemma_tget_selector_table(sel, k);
    }
    lemma_lookup_absent(sel, "scheme"@);
    let lo = laid_out(written_tree(d));
    let top = top_table(written_tree(d));
    assert(get_table(top, "colors"@) == Some(colors_table(d)));
    assert forall|q: Seq<Seq<char>>| q.len() >= 1 && q[0] == "colors"@ implies (#[trigger] lo.contains_key(q)
        == colors_part(d).contains_key(q)) && (colors_part(d).contains_key(q) ==> lo[q] == colors_part(d)[q]) by {
        assert(get_table(top, q[0]) == Some(colors_table(d)));
        assert(!nested_table(q[0], q[1]));
        if q.len() == 1 {
            assert(q =~= seq!["colors"@]);
        } else if q.len() == 2 {
            let k = q[1];
            assert(tget(colors_table(d), k) == tget(str_item("scheme"@, d.colors.scheme) + selector_table(sel), k));
            if k == "scheme"@ {
                assert(q =~= seq!["colors"@, "scheme"@]);
            } else {
                assert(q != seq!["colors"@, "scheme"@]);
            }
        } else {
            assert(q != seq!["colors"@]);
            assert(q != seq!["colors"@, "scheme"@]);
        }
    }
}


/// The `[symbols]` part read off the tree is the part the edits build.
#[verifier::rlimit(40)]
proof fn lemma_symbols_laid(d: StyleDoc)
    requires
        d.symbols.overrides.wf(),
    ensures
        forall|q: Seq<Seq<char>>| q.len() >= 1 && q[0] == "symbols"@ ==> (#[trigger] laid_out(written_tree(d)).contains_key(q)
            == symbols_part(d).contains_key(q)) && (symbols_part(d).contains_key(q) ==> laid_out(written_tree(d))[q]
            == symbols_part(d)[q]),
{
    reveal_strlit("colors");
    assert("colors"@.len() == 6);
    reveal_strlit("symbols");
    assert("symbols"@.len() == 7);
    reveal_strlit("box_style");
    assert("box_style"@.len() == 9);
    assert("box_style"@[0] == 'b');
    reveal_strlit("arrow_set");
    assert("arrow_set"@.len() == 9);
    assert("arrow_set"@[0] == 'a');
    reveal_strlit("portal_icons");
    assert("portal_icons"@.len() == 12);
    reveal_strlit("path_style");
    assert("path_style"@.len() == 10);
    reveal_strlit("diagonal_corners");
    assert("diagonal_corners"@.len() == 16);
    reveal_strlit("overrides");
    assert("overrides"@.len() == 9);
    assert("overrides"@[0] == 'o');
    let ov = d.symbols.overrides.pairs();
    let ps = seq!["symbols"@];
    let po = seq!["symbols"@, "overrides"@];
    assert(spec_table_path(TomlTable::SymbolOverrides) == po);
    lemma_top_of_written(d);
    let a1 = str_item("box_style"@, d.symbols.box_style);
    let a2 = str_item("arrow_set"@, d.symbols.arrow_set);
    let a3 = str_item("portal_icons"@, d.symbols.portal_icons);
    let a4 = str_item("path_style"@, d.symbols.path_style);
    let a5 = diagonal_item(d.symbols.diagonal_corners);
    let a6 = overrides_item(ov);
    lemma_str_item("box_style"@, d.symbols.box_style);
    lemma_str_item("arrow_set"@, d.symbols.arrow_set);
    lemma_str_item("portal_icons"@, d.symbols.portal_icons);
    lemma_str_item("path_style"@, d.symbols.path_style);
    if let Some(b) = d.symbols.diagonal_corners {
        lemma_one_item("diagonal_corners"@, TomlView::Bool(b));
    }
    if ov.len() > 0 {
        lemma_one_item("overrides"@, TomlView::Table(override_table(ov)));
    }
    lemma_tget_concat_all(a1, a2);
    lemma_tget_concat_all(a1 + a2, a3);
    lemma_tget_concat_all(a1 + a2 + a3, a4);
    lemma_tget_concat_all(a1 + a2 + a3 + a4, a5);
    lemma_tget_concat_all(a1 + a2 + a3 + a4 + a5, a6);
    let t = symbols_table(d);
    assert(t == a1 + a2 + a3 + a4 + a5 + a6);
    assert forall|k: Seq<char>| true implies #[trigger] tget(override_table(ov), k) == match lookup(ov, k) {
        Some(x) => Some(TomlView::Str(x@)),
        None => None,
    } by {
        lemma_tget_override_table(ov, k);
    }
    let lo = laid_out(written_tree(d));
    let top = top_table(written_tree(d));
    assert(get_table(top, "symbols"@) == Some(t));
    assert(get_table(t, "overrides"@) == if ov.len() > 0 {
        Some(override_table(ov))
    } else {
        None::<Seq<(Seq<char>, TomlView)>>
    });
    assert forall|q: Seq<Seq<char>>| q.len() >= 1 && q[0] == "symbols"@ implies (#[trigger] lo.contains_key(q)
        == symbols_part(d).contains_key(q)) && (symbols_part(d).contains_key(q) ==> lo[q] == symbols_part(d)[q]) by {
        assert(get_table(top, q[0]) == Some(t));
        if q.len() == 1 {
            assert(q =~= ps);
        } else if q.len() == 2 {
            let k = q[1];
            assert(q =~= ps.push(k));
            if k == "overrides"@ {
                assert(q =~= po);
            } else {
                assert(q != po);
                assert(!nested_table(q[0], q[1]));
            }
        } else if q.len() == 3 {
            if q[1] == "overrides"@ {
                assert(q.take(2) =~= po);
                assert(nested_table(q[0], q[1]));
            } else {
                assert(q.take(2) != po) by {
                    assert(q.take(2)[1] == q[1]);
                }
                assert(!nested_table(q[0], q[1]));
            }
        } else {
            assert(q.take(2) != po || q.len() != 3);
        }
    }
}


/// The `[transcript]` part read off the tree is the part the edits build.
proof fn lemma_transcript_laid(d: StyleDoc)
    ensures
        forall|q: Seq<Seq<char>>| q.len() >= 1 && q[0] == "transcript"@ ==> (#[trigger] laid_out(written_tree(d)).contains_key(q)
            == transcript_part(d).contains_key(q)) && (transcript_part(d).contains_key(q) ==> laid_out(written_tree(d))[q]
            == transcript_part(d)[q]),
{
    reveal_strlit("colors");
    assert("colors"@.len() == 6);
    reveal_strlit("symbols");
    assert("symbols"@.len() == 7);
    reveal_strlit("transcript");
    assert("transcript"@.len() == 10);
    reveal_strlit("statusbar");
    assert("statusbar"@.len() == 9);
    reveal_strlit("rule");
    assert("rule"@.len() == 4);
    let rs = d.transcript_rules@;
    lemma_top_of_written(d);
    let sec = seq![("rule"@, TomlView::Array(rule_tables(rs)))];
    lemma_one_item("rule"@, TomlView::Array(rule_tables(rs)));
    let lo = laid_out(written_tree(d));
    let top = top_table(written_tree(d));
    assert forall|q: Seq<Seq<char>>| q.len() >= 1 && q[0] == "transcript"@ implies (#[trigger] lo.contains_key(q)
        == transcript_part(d).contains_key(q)) && (transcript_part(d).contains_key(q) ==> lo[q] == transcript_part(d)[q]) by {
        if rs.len() > 0 {
            assert(get_table(top, q[0]) == Some(sec));
            if q.len() == 1 {
                assert(q =~= seq!["transcript"@]);
            } else if q.len() == 2 {
                assert(!nested_table(q[0], q[1]));
                if q[1] == "rule"@ {
                    assert(q =~= seq!["transcript"@, "rule"@]);
                } else {
                    assert(q != seq!["transcript"@, "rule"@]);
                }
            } else {
                assert(q != seq!["transcript"@, "rule"@] && q != seq!["transcript"@]);
                assert(!nested_table(q[0], q[1]));
            }
        } else {
            assert(get_table(top, q[0]) is None);
        }
    }
}

/// The `[statusbar]` part read off the tree is the part the edits build.
#[verifier::rlimit(30)]
proof fn lemma_statusbar_laid(d: StyleDoc)
    ensures
        forall|q: Seq<Seq<char>>| q.len() >= 1 && q[0] == "statusbar"@ ==> (#[trigger] laid_out(written_tree(d)).contains_key(q)
            == statusbar_part(d).contains_key(q)) && (statusbar_part(d).contains_key(q) ==> laid_out(written_tree(d))[q]
            == statusbar_part(d)[q]),
{
    reveal_strlit("colors");
    assert("colors"@.len() == 6);
    assert("colors"@[0] == 'c');
    reveal_strlit("symbols");
    assert("symbols"@.len() == 7);
    assert("symbols"@[1] == 'y');
    reveal_strlit("transcript");
    assert("transcript"@.len() == 10);
    reveal_strlit("statusbar");
    assert("statusbar"@.len() == 9);
    assert("statusbar"@[0] == 's');
    reveal_strlit("border");
    assert("border"@.len() == 6);
    assert("border"@[0] == 'b');
    reveal_strlit("border_fg");
    assert("border_fg"@.len() == 9);
    assert("border_fg"@[0] == 'b');
    reveal_strlit("segment");
    assert("segment"@.len() == 7);
    assert("segment"@[1] == 'e');
    let sb = d.status_bar;
    let segs = sb.segments@;
    let p = seq!["statusbar"@];
    lemma_top_of_written(d);
    let b1 = str_item("border"@, sb.border);
    let b2 = str_item("border_fg"@, sb.border_fg);
    let b3 = if segs.len() == 0 {
        Seq::<(Seq<char>, TomlView)>::empty()
    } else {
        seq![("segment"@, TomlView::Array(segment_tables(segs)))]
    };
    lemma_str_item("border"@, sb.border);
    lemma_str_item("border_fg"@, sb.border_fg);
    if segs.len() > 0 {
        lemma_one_item("segment"@, TomlView::Array(segment_tables(segs)));
    }
    lemma_tget_concat_all(b1, b2);
    lemma_tget_concat_all(b1 + b2, b3);
    let t = statusbar_table(d);
    assert(t == b1 + b2 + b3);
    let any = sb.border is Some || sb.border_fg is Some || segs.len() > 0;
    assert(any == (t.len() > 0));
    let lo = laid_out(written_tree(d));
    let top = top_table(written_tree(d));
    assert forall|q: Seq<Seq<char>>| q.len() >= 1 && q[0] == "statusbar"@ implies (#[trigger] lo.contains_key(q)
        == statusbar_part(d).contains_key(q)) && (statusbar_part(d).contains_key(q) ==> lo[q] == statusbar_part(d)[q]) by {
        if any {
            assert(get_table(top, q[0]) == Some(t));
            if q.len() == 1 {
                assert(q =~= p);
            } else if q.len() == 2 {
                assert(!nested_table(q[0], q[1]));
                assert(q =~= p.push(q[1]));
            } else {
                assert(q != p.push("border"@) && q != p.push("border_fg"@) && q != p.push("segment"@) && q != p);
                assert(!nested_table(q[0], q[1]));
            }
        } else {
            assert(get_table(top, q[0]) is None);
        }
    }
}

/// The edits that write `d` into an empty file build exactly the document
/// that [`written_tree`] lays out, whenever every part of `d` can be written;
/// that tree reads back as `d` (see `lemma_written_tree_reads_back`).
pub proof fn lemma_edits_write_the_tree(d: StyleDoc)
    requires
        d.colors.selectors.wf(),
        d.symbols.overrides.wf(),
        doc_writable(d),
    ensures
        apply_edits(Map::empty(), spec_style_edits(d, Seq::empty())) == Some(laid_out(written_tree(d))),
{
    reveal_strlit("colors");
    assert("colors"@.len() == 6);
    reveal_strlit("symbols");
    assert("symbols"@.len() == 7);
    reveal_strlit("transcript");
    assert("transcript"@.len() == 10);
    reveal_strlit("statusbar");
    assert("statusbar"@.len() == 9);
    lemma_edits_build(d);
    lemma_colors_laid(d);
    lemma_symbols_laid(d);
    lemma_transcript_laid(d);
    lemma_statusbar_laid(d);
    lemma_symbols_part_keys(d);
    lemma_top_of_written(d);
    let lo = laid_out(written_tree(d));
    let w = written_entries(d);
    assert forall|q: Seq<Seq<char>>| #[trigger] colors_part(d).contains_key(q) implies q.len() >= 1 && q[0] == "colors"@ by {}
    assert forall|q: Seq<Seq<char>>| #[trigger] transcript_part(d).contains_key(q) implies q.len() >= 1 && q[0] == "transcript"@ by {}
    assert forall|q: Seq<Seq<char>>| #[trigger] statusbar_part(d).contains_key(q) implies q.len() >= 1 && q[0] == "statusbar"@ by {}
    assert forall|q: Seq<Seq<char>>| true implies #[trigger] lo.contains_key(q) == w.contains_key(q) && (w.contains_key(q) ==> lo[q] == w[q]) by {
        if q.len() == 0 {
        } else if q[0] == "colors"@ {
        } else if q[0] == "symbols"@ {
        } else if q[0] == "transcript"@ {
        } else if q[0] == "statusbar"@ {
        } else {
            assert(get_table(top_table(written_tree(d)), q[0]) is None);
        }
    }
    assert(lo =~= w);
}


/// Written into an empty file, a style document reads back as itself: the
/// writer's edits build exactly the document [`written_tree`] lays out, and
/// reading that tree gives `d` back, whenever every part of `d` can be written.
pub proof fn lemma_written_document_reads_back(d: StyleDoc)
    requires
        d.colors.selectors.wf(),
        d.symbols.overrides.wf(),
        doc_writable(d),
    ensures
        apply_edits(Map::empty(), spec_style_edits(d, Seq::empty())) == Some(laid_out(written_tree(d))),
        is_parsed_doc(d, written_tree(d)),
{
    lemma_edits_write_the_tree(d);
    lemma_written_tree_reads_back(d);
}

} // verus!
