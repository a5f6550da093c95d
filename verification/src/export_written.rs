//! A full style export is a document the writer can write whole: written into
//! an empty file, it reads back as itself.

use vstd::prelude::*;
use crate::colors::ColorScheme;
use crate::strmap::{insert_all, insert_entry};
use crate::style::{
    doc_wf, full_decl_ok, full_entries_ok, full_key, full_key_count, is_full_export, is_parsed_doc, known_selector,
    lemma_full_entries_at, lemma_full_key, lemma_selector_shapes, Decl, StyleDoc,
};
use crate::style_codec::{decl_writable, doc_writable, lemma_written_tree_reads_back, paint_only, written_tree};
use crate::symbols::SymbolSet;

verus! {

/// Every entry of a map after an insertion is the inserted one or was there before.
proof fn lemma_insert_entry_members<V>(ps: Seq<(String, V)>, k: String, v: V)
    ensures
        forall|i: int| 0 <= i < insert_entry(ps, k, v).len() ==> #[trigger] insert_entry(ps, k, v)[i] == (k, v)
            || ps.contains(insert_entry(ps, k, v)[i]),
    decreases ps.len(),
{
    let r = insert_entry(ps, k, v);
    if ps.len() > 0 {
        lemma_insert_entry_members(ps.drop_first(), k, v);
        assert forall|i: int| 0 <= i < r.len() implies #[trigger] r[i] == (k, v) || ps.contains(r[i]) by {
            if ps[0].0@ == k@ {
                if i > 0 {
                    assert(r[i] == ps[i]);
                }
            } else if crate::strmap::lex_lt(k@, ps[0].0@) {
                if i > 0 {
                    assert(r[i] == ps[i - 1]);
                }
            } else {
                if i == 0 {
                    assert(r[0] == ps[0]);
                } else {
                    let t = insert_entry(ps.drop_first(), k, v);
                    assert(r[i] == t[i - 1]);
                    if t[i - 1] != (k, v) {
                        let j = choose|j: int| 0 <= j < ps.drop_first().len() && ps.drop_first()[j] == t[i - 1];
                        assert(ps[j + 1] == t[i - 1]);
                    }
                }
            }
        }
    }
}

/// Every entry of a map built by insertions is one of the inserted entries or
/// was there before.
proof fn lemma_insert_all_members<V>(ps: Seq<(String, V)>, over: Seq<(String, V)>)
    ensures
        forall|i: int| 0 <= i < insert_all(ps, over).len() ==> ps.contains(#[trigger] insert_all(ps, over)[i])
            || over.contains(insert_all(ps, over)[i]),
    decreases over.len(),
{
    if over.len() > 0 {
        let ps2 = insert_entry(ps, over[0].0, over[0].1);
        lemma_insert_entry_members(ps, over[0].0, over[0].1);
        lemma_insert_all_members(ps2, over.drop_first());
        let r = insert_all(ps, over);
        assert(r == insert_all(ps2, over.drop_first()));
        assert forall|i: int| 0 <= i < r.len() implies ps.contains(#[trigger] r[i]) || over.contains(r[i]) by {
            if ps2.contains(r[i]) {
                let j = choose|j: int| 0 <= j < ps2.len() && ps2[j] == r[i];
                if ps2[j] == over[0] {
                    assert(over[0] == r[i]);
                } else {
                    assert(ps.contains(r[i]));
                }
            } else {
                let j = choose|j: int| 0 <= j < over.drop_first().len() && over.drop_first()[j] == r[i];
                assert(over[j + 1] == r[i]);
            }
        }
    }
}

// One lemma per selector of a full export: its declaration is one the writer can write.

proof fn lemma_full_decl_writable_0(cs: ColorScheme, d: Decl)
    requires
        full_decl_ok(cs, 0, d),
    ensures
        decl_writable(d),
{
}

proof fn lemma_full_decl_writable_1(cs: ColorScheme, d: Decl)
    requires
        full_decl_ok(cs, 1, d),
    ensures
        decl_writable(d),
{
}

proof fn lemma_full_decl_writable_2(cs: ColorScheme, d: Decl)
    requires
        full_decl_ok(cs, 2, d),
    ensures
        decl_writable(d),
{
}

proof fn lemma_full_decl_writable_3(cs: ColorScheme, d: Decl)
    requires
        full_decl_ok(cs, 3, d),
    ensures
        decl_writable(d),
{
}

proof fn lemma_full_decl_writable_4(cs: ColorScheme, d: Decl)
    requires
        full_decl_ok(cs, 4, d),
    ensures
        decl_writable(d),
{
}

proof fn lemma_full_decl_writable_5(cs: ColorScheme, d: Decl)
    requires
        full_decl_ok(cs, 5, d),
    ensures
        decl_writable(d),
{
}

proof fn lemma_full_decl_writable_6(cs: ColorScheme, d: Decl)
    requires
        full_decl_ok(cs, 6, d),
    ensures
        decl_writable(d),
{
}

proof fn lemma_full_decl_writable_7(cs: ColorScheme, d: Decl)
    requires
        full_decl_ok(cs, 7, d),
    ensures
        decl_writable(d),
{
}

proof fn lemma_full_decl_writable_8(cs: ColorScheme, d: Decl)
    requires
        full_decl_ok(cs, 8, d),
    ensures
        decl_writable(d),
{
}

proof fn lemma_full_decl_writable_9(cs: ColorScheme, d: Decl)
    requires
        full_decl_ok(cs, 9, d),
    ensures
        decl_writable(d),
{
}

proof fn lemma_full_decl_writable_10(cs: ColorScheme, d: Decl)
    requires
        full_decl_ok(cs, 10, d),
    ensures
        decl_writable(d),
{
}

proof fn lemma_full_decl_writable_11(cs: ColorScheme, d: Decl)
    requires
        full_decl_ok(cs, 11, d),
    ensures
        decl_writable(d),
{
}

proof fn lemma_full_decl_writable_12(cs: ColorScheme, d: Decl)
    requires
        full_decl_ok(cs, 12, d),
    ensures
        decl_writable(d),
{
}

proof fn lemma_full_decl_writable_13(cs: ColorScheme, d: Decl)
    requires
        full_decl_ok(cs, 13, d),
    ensures
        decl_writable(d),
{
}

proof fn lemma_full_decl_writable_14(cs: ColorScheme, d: Decl)
    requires
        full_decl_ok(cs, 14, d),
    ensures
        decl_writable(d),
{
}

proof fn lemma_full_decl_writable_15(cs: ColorScheme, d: Decl)
    requires
        full_decl_ok(cs, 15, d),
    ensures
        decl_writable(d),
{
}

proof fn lemma_full_decl_writable_16(cs: ColorScheme, d: Decl)
    requires
        full_decl_ok(cs, 16, d),
    ensures
        decl_writable(d),
{
}

proof fn lemma_full_decl_writable_17(cs: ColorScheme, d: Decl)
    requires
        full_decl_ok(cs, 17, d),
    ensures
        decl_writable(d),
{
}

proof fn lemma_full_decl_writable_18(cs: ColorScheme, d: Decl)
    requires
        full_decl_ok(cs, 18, d),
    ensures
        decl_writable(d),
{
}

proof fn lemma_full_decl_writable_19(cs: ColorScheme, d: Decl)
    requires
        full_decl_ok(cs, 19, d),
    ensures
        decl_writable(d),
{
}

proof fn lemma_full_decl_writable_20(cs: ColorScheme, d: Decl)
    requires
        full_decl_ok(cs, 20, d),
    ensures
        decl_writable(d),
{
}

proof fn lemma_full_decl_writable_21(cs: ColorScheme, d: Decl)
    requires
        full_decl_ok(cs, 21, d),
    ensures
        decl_writable(d),
{
}

proof fn lemma_full_decl_writable_22(cs: ColorScheme, d: Decl)
    requires
        full_decl_ok(cs, 22, d),
    ensures
        decl_writable(d),
{
}

proof fn lemma_full_decl_writable_23(cs: ColorScheme, d: Decl)
    requires
        full_decl_ok(cs, 23, d),
    ensures
        decl_writable(d),
{
}

proof fn lemma_full_decl_writable_24(cs: ColorScheme, d: Decl)
    requires
        full_decl_ok(cs, 24, d),
    ensures
        decl_writable(d),
{
}

proof fn lemma_full_decl_writable_25(cs: ColorScheme, d: Decl)
    requires
        full_decl_ok(cs, 25, d),
    ensures
        decl_writable(d),
{
}

proof fn lemma_full_decl_writable_26(cs: ColorScheme, d: Decl)
    requires
        full_decl_ok(cs, 26, d),
    ensures
        decl_writable(d),
{
}

proof fn lemma_full_decl_writable_27(cs: ColorScheme, d: Decl)
    requires
        full_decl_ok(cs, 27, d),
    ensures
        decl_writable(d),
{
}

proof fn lemma_full_decl_writable_28(cs: ColorScheme, d: Decl)
    requires
        full_decl_ok(cs, 28, d),
    ensures
        decl_writable(d),
{
}

proof fn lemma_full_decl_writable_29(cs: ColorScheme, d: Decl)
    requires
        full_decl_ok(cs, 29, d),
    ensures
        decl_writable(d),
{
}

proof fn lemma_full_decl_writable_30(cs: ColorScheme, d: Decl)
    requires
        full_decl_ok(cs, 30, d),
    ensures
        decl_writable(d),
{
}

proof fn lemma_full_decl_writable_31(cs: ColorScheme, d: Decl)
    requires
        full_decl_ok(cs, 31, d),
    ensures
        decl_writable(d),
{
}

proof fn lemma_full_decl_writable_32(cs: ColorScheme, d: Decl)
    requires
        full_decl_ok(cs, 32, d),
    ensures
        decl_writable(d),
{
}

proof fn lemma_full_decl_writable_33(cs: ColorScheme, d: Decl)
    requires
        full_decl_ok(cs, 33, d),
    ensures
        decl_writable(d),
{
}

proof fn lemma_full_decl_writable_34(cs: ColorScheme, d: Decl)
    requires
        full_decl_ok(cs, 34, d),
    ensures
        decl_writable(d),
{
}

proof fn lemma_full_decl_writable_35(cs: ColorScheme, d: Decl)
    requires
        full_decl_ok(cs, 35, d),
    ensures
        decl_writable(d),
{
}

proof fn lemma_full_decl_writable_36(cs: ColorScheme, d: Decl)
    requires
        full_decl_ok(cs, 36, d),
    ensures
        decl_writable(d),
{
}

proof fn lemma_full_decl_writable_37(cs: ColorScheme, d: Decl)
    requires
        full_decl_ok(cs, 37, d),
    ensures
        decl_writable(d),
{
}

proof fn lemma_full_decl_writable_38(cs: ColorScheme, d: Decl)
    requires
        full_decl_ok(cs, 38, d),
    ensures
        decl_writable(d),
{
}

proof fn lemma_full_decl_writable_39(cs: ColorScheme, d: Decl)
    requires
        full_decl_ok(cs, 39, d),
    ensures
        decl_writable(d),
{
}

proof fn lemma_full_decl_writable_40(cs: ColorScheme, d: Decl)
    requires
        full_decl_ok(cs, 40, d),
    ensures
        decl_writable(d),
{
}

proof fn lemma_full_decl_writable_41(cs: ColorScheme, d: Decl)
    requires
        full_decl_ok(cs, 41, d),
    ensures
        decl_writable(d),
{
}

proof fn lemma_full_decl_writable_42(cs: ColorScheme, d: Decl)
    requires
        full_decl_ok(cs, 42, d),
    ensures
        decl_writable(d),
{
}

proof fn lemma_full_decl_writable_43(cs: ColorScheme, d: Decl)
    requires
        full_decl_ok(cs, 43, d),
    ensures
        decl_writable(d),
{
}

proof fn lemma_full_decl_writable_44(cs: ColorScheme, d: Decl)
    requires
        full_decl_ok(cs, 44, d),
    ensures
        decl_writable(d),
{
}

proof fn lemma_full_decl_writable_45(cs: ColorScheme, d: Decl)
    requires
        full_decl_ok(cs, 45, d),
    ensures
        decl_writable(d),
{
}

proof fn lemma_full_decl_writable_46(cs: ColorScheme, d: Decl)
    requires
        full_decl_ok(cs, 46, d),
    ensures
        decl_writable(d),
{
}

proof fn lemma_full_decl_writable_47(cs: ColorScheme, d: Decl)
    requires
        full_decl_ok(cs, 47, d),
    ensures
        decl_writable(d),
{
}

proof fn lemma_full_decl_writable_48(cs: ColorScheme, d: Decl)
    requires
        full_decl_ok(cs, 48, d),
    ensures
        decl_writable(d),
{
}

proof fn lemma_full_decl_writable_49(cs: ColorScheme, d: Decl)
    requires
        full_decl_ok(cs, 49, d),
    ensures
        decl_writable(d),
{
}

proof fn lemma_full_decl_writable_50(cs: ColorScheme, d: Decl)
    requires
        full_decl_ok(cs, 50, d),
    ensures
        decl_writable(d),
{
}

proof fn lemma_full_decl_writable_51(cs: ColorScheme, d: Decl)
    requires
        full_decl_ok(cs, 51, d),
    ensures
        decl_writable(d),
{
}

proof fn lemma_full_decl_writable_52(cs: ColorScheme, d: Decl)
    requires
        full_decl_ok(cs, 52, d),
    ensures
        decl_writable(d),
{
}

proof fn lemma_full_decl_writable_53(cs: ColorScheme, d: Decl)
    requires
        full_decl_ok(cs, 53, d),
    ensures
        decl_writable(d),
{
}

proof fn lemma_full_decl_writable_54(cs: ColorScheme, d: Decl)
    requires
        full_decl_ok(cs, 54, d),
    ensures
        decl_writable(d),
{
}

proof fn lemma_full_decl_writable_55(cs: ColorScheme, d: Decl)
    requires
        full_decl_ok(cs, 55, d),
    ensures
        decl_writable(d),
{
}

proof fn lemma_full_decl_writable_56(cs: ColorScheme, d: Decl)
    requires
        full_decl_ok(cs, 56, d),
    ensures
        decl_writable(d),
{
}

proof fn lemma_full_decl_writable_57(cs: ColorScheme, d: Decl)
    requires
        full_decl_ok(cs, 57, d),
    ensures
        decl_writable(d),
{
}

proof fn lemma_full_decl_writable_58(cs: ColorScheme, d: Decl)
    requires
        full_decl_ok(cs, 58, d),
    ensures
        decl_writable(d),
{
}

proof fn lemma_full_decl_writable_59(cs: ColorScheme, d: Decl)
    requires
        full_decl_ok(cs, 59, d),
    ensures
        decl_writable(d),
{
}

proof fn lemma_full_decl_writable_60(cs: ColorScheme, d: Decl)
    requires
        full_decl_ok(cs, 60, d),
    ensures
        decl_writable(d),
{
}

proof fn lemma_full_decl_writable_61(cs: ColorScheme, d: Decl)
    requires
        full_decl_ok(cs, 61, d),
    ensures
        decl_writable(d),
{
}

proof fn lemma_full_decl_writable_62(cs: ColorScheme, d: Decl)
    requires
        full_decl_ok(cs, 62, d),
    ensures
        decl_writable(d),
{
}

proof fn lemma_full_decl_writable_63(cs: ColorScheme, d: Decl)
    requires
        full_decl_ok(cs, 63, d),
    ensures
        decl_writable(d),
{
}

proof fn lemma_full_decl_writable_64(cs: ColorScheme, d: Decl)
    requires
        full_decl_ok(cs, 64, d),
    ensures
        decl_writable(d),
{
}

proof fn lemma_full_decl_writable_65(cs: ColorScheme, d: Decl)
    requires
        full_decl_ok(cs, 65, d),
    ensures
        decl_writable(d),
{
}

proof fn lemma_full_decl_writable_66(cs: ColorScheme, d: Decl)
    requires
        full_decl_ok(cs, 66, d),
    ensures
        decl_writable(d),
{
}

proof fn lemma_full_decl_writable_67(cs: ColorScheme, d: Decl)
    requires
        full_decl_ok(cs, 67, d),
    ensures
        decl_writable(d),
{
}

proof fn lemma_full_decl_writable_68(cs: ColorScheme, d: Decl)
    requires
        full_decl_ok(cs, 68, d),
    ensures
        decl_writable(d),
{
}

proof fn lemma_full_decl_writable_69(cs: ColorScheme, d: Decl)
    requires
        full_decl_ok(cs, 69, d),
    ensures
        decl_writable(d),
{
}

proof fn lemma_full_decl_writable_70(cs: ColorScheme, d: Decl)
    requires
        full_decl_ok(cs, 70, d),
    ensures
        decl_writable(d),
{
}

proof fn lemma_full_decl_writable_71(cs: ColorScheme, d: Decl)
    requires
        full_decl_ok(cs, 71, d),
    ensures
        decl_writable(d),
{
}

proof fn lemma_full_decl_writable_72(cs: ColorScheme, d: Decl)
    requires
        full_decl_ok(cs, 72, d),
    ensures
        decl_writable(d),
{
}

/// Each declaration of a full export is one the writer can write.
proof fn lemma_full_decl_writable(cs: ColorScheme, i: int, d: Decl)
    requires
        0 <= i < full_key_count(),
        full_decl_ok(cs, i, d),
    ensures
        decl_writable(d),
{
    if i == 0 {
        lemma_full_decl_writable_0(cs, d);
    } else if i == 1 {
        lemma_full_decl_writable_1(cs, d);
    } else if i == 2 {
        lemma_full_decl_writable_2(cs, d);
    } else if i == 3 {
        lemma_full_decl_writable_3(cs, d);
    } else if i == 4 {
        lemma_full_decl_writable_4(cs, d);
    } else if i == 5 {
        lemma_full_decl_writable_5(cs, d);
    } else if i == 6 {
        lemma_full_decl_writable_6(cs, d);
    } else if i == 7 {
        lemma_full_decl_writable_7(cs, d);
    } else if i == 8 {
        lemma_full_decl_writable_8(cs, d);
    } else if i == 9 {
        lemma_full_decl_writable_9(cs, d);
    } else if i == 10 {
        lemma_full_decl_writable_10(cs, d);
    } else if i == 11 {
        lemma_full_decl_writable_11(cs, d);
    } else if i == 12 {
        lemma_full_decl_writable_12(cs, d);
    } else if i == 13 {
        lemma_full_decl_writable_13(cs, d);
    } else if i == 14 {
        lemma_full_decl_writable_14(cs, d);
    } else if i == 15 {
        lemma_full_decl_writable_15(cs, d);
    } else if i == 16 {
        lemma_full_decl_writable_16(cs, d);
    } else if i == 17 {
        lemma_full_decl_writable_17(cs, d);
    } else if i == 18 {
        lemma_full_decl_writable_18(cs, d);
    } else if i == 19 {
        lemma_full_decl_writable_19(cs, d);
    } else if i == 20 {
        lemma_full_decl_writable_20(cs, d);
    } else if i == 21 {
        lemma_full_decl_writable_21(cs, d);
    } else if i == 22 {
        lemma_full_decl_writable_22(cs, d);
    } else if i == 23 {
        lemma_full_decl_writable_23(cs, d);
    } else if i == 24 {
        lemma_full_decl_writable_24(cs, d);
    } else if i == 25 {
        lemma_full_decl_writable_25(cs, d);
    } else if i == 26 {
        lemma_full_decl_writable_26(cs, d);
    } else if i == 27 {
        lemma_full_decl_writable_27(cs, d);
    } else if i == 28 {
        lemma_full_decl_writable_28(cs, d);
    } else if i == 29 {
        lemma_full_decl_writable_29(cs, d);
    } else if i == 30 {
        lemma_full_decl_writable_30(cs, d);
    } else if i == 31 {
        lemma_full_decl_writable_31(cs, d);
    } else if i == 32 {
        lemma_full_decl_writable_32(cs, d);
    } else if i == 33 {
        lemma_full_decl_writable_33(cs, d);
    } else if i == 34 {
        lemma_full_decl_writable_34(cs, d);
    } else if i == 35 {
        lemma_full_decl_writable_35(cs, d);
    } else if i == 36 {
        lemma_full_decl_writable_36(cs, d);
    } else if i == 37 {
        lemma_full_decl_writable_37(cs, d);
    } else if i == 38 {
        lemma_full_decl_writable_38(cs, d);
    } else if i == 39 {
        lemma_full_decl_writable_39(cs, d);
    } else if i == 40 {
        lemma_full_decl_writable_40(cs, d);
    } else if i == 41 {
        lemma_full_decl_writable_41(cs, d);
    } else if i == 42 {
        lemma_full_decl_writable_42(cs, d);
    } else if i == 43 {
        lemma_full_decl_writable_43(cs, d);
    } else if i == 44 {
        lemma_full_decl_writable_44(cs, d);
    } else if i == 45 {
        lemma_full_decl_writable_45(cs, d);
    } else if i == 46 {
        lemma_full_decl_writable_46(cs, d);
    } else if i == 47 {
        lemma_full_decl_writable_47(cs, d);
    } else if i == 48 {
        lemma_full_decl_writable_48(cs, d);
    } else if i == 49 {
        lemma_full_decl_writable_49(cs, d);
    } else if i == 50 {
        lemma_full_decl_writable_50(cs, d);
    } else if i == 51 {
        lemma_full_decl_writable_51(cs, d);
    } else if i == 52 {
        lemma_full_decl_writable_52(cs, d);
    } else if i == 53 {
        lemma_full_decl_writable_53(cs, d);
    } else if i == 54 {
        lemma_full_decl_writable_54(cs, d);
    } else if i == 55 {
        lemma_full_decl_writable_55(cs, d);
    } else if i == 56 {
        lemma_full_decl_writable_56(cs, d);
    } else if i == 57 {
        lemma_full_decl_writable_57(cs, d);
    } else if i == 58 {
        lemma_full_decl_writable_58(cs, d);
    } else if i == 59 {
        lemma_full_decl_writable_59(cs, d);
    } else if i == 60 {
        lemma_full_decl_writable_60(cs, d);
    } else if i == 61 {
        lemma_full_decl_writable_61(cs, d);
    } else if i == 62 {
        lemma_full_decl_writable_62(cs, d);
    } else if i == 63 {
        lemma_full_decl_writable_63(cs, d);
    } else if i == 64 {
        lemma_full_decl_writable_64(cs, d);
    } else if i == 65 {
        lemma_full_decl_writable_65(cs, d);
    } else if i == 66 {
        lemma_full_decl_writable_66(cs, d);
    } else if i == 67 {
        lemma_full_decl_writable_67(cs, d);
    } else if i == 68 {
        lemma_full_decl_writable_68(cs, d);
    } else if i == 69 {
        lemma_full_decl_writable_69(cs, d);
    } else if i == 70 {
        lemma_full_decl_writable_70(cs, d);
    } else if i == 71 {
        lemma_full_decl_writable_71(cs, d);
    } else if i == 72 {
        lemma_full_decl_writable_72(cs, d);
    }
}

/// No selector is named `scheme`.
proof fn lemma_scheme_is_no_selector()
    ensures
        !known_selector("scheme"@),
{
    lemma_selector_shapes();
    reveal_strlit("scheme");
}

/// A full export of a scheme is a document the writer can write whole, when
/// every transcript rule of the scheme has a pattern; so, written into an
/// empty file, it reads back as itself.
pub proof fn lemma_full_export_written_reads_back(doc: StyleDoc, cs: ColorScheme, set: SymbolSet)
    requires
        is_full_export(doc, cs, set),
        doc_wf(doc),
        forall|i: int| 0 <= i < cs.transcript_rules@.len() ==> (#[trigger] cs.transcript_rules@[i]).pattern@.len() > 0,
    ensures
        doc_writable(doc),
        is_parsed_doc(doc, written_tree(doc)),
{
    let e = choose|e: Seq<(String, Decl)>|
        #![trigger full_entries_ok(cs, e)]
        e.len() == full_key_count() && full_entries_ok(cs, e) && doc.colors.selectors.pairs() == insert_all(
            Seq::<(String, Decl)>::empty(),
            e,
        );
    let ps = doc.colors.selectors.pairs();
    lemma_insert_all_members(Seq::<(String, Decl)>::empty(), e);
    lemma_scheme_is_no_selector();
    assert forall|i: int| 0 <= i < ps.len() implies {
        &&& (#[trigger] ps[i]).0@ != "scheme"@
        &&& decl_writable(ps[i].1)
    } by {
        assert(e.contains(ps[i]));
        let j = choose|j: int| 0 <= j < e.len() && e[j] == ps[i];
        lemma_full_entries_at(cs, e, j);
        lemma_full_key(cs, j, e[j].1);
        lemma_full_decl_writable(cs, j, e[j].1);
    }
    assert forall|i: int| 0 <= i < doc.transcript_rules@.len() implies {
        &&& (#[trigger] doc.transcript_rules@[i]).pattern@.len() > 0
        &&& paint_only(doc.transcript_rules@[i].decl)
    } by {
        assert(doc.transcript_rules@[i].pattern@ == cs.transcript_rules@[i].pattern@);
    }
    lemma_written_tree_reads_back(doc);
}

} // verus!
