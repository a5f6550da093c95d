//! What the symbol settings of a full style export resolve to: the symbol set
//! the export was written from.

use vstd::prelude::*;
use crate::colors::ColorScheme;
use crate::config::SymbolConfig;
use crate::strmap::{insert_all, lookup, sorted_keys};
use crate::style::{
    distinct_keys, full_override_count, full_override_glyph, full_override_key, full_overrides_ok, is_finalized,
    is_full_export, lemma_insert_all_distinct, lemma_sorted_tail, StyleDoc,
};
use crate::symbols::{
    spec_apply_override, spec_apply_overrides, spec_is_wide, spec_preset_base, spec_resolve, valid_override, SymbolSet,
};

verus! {

/// The glyph slot an override key names: its position among the slot keys as
/// [`full_override_key`] lists them, or -1 for a key that names no slot.
pub open spec fn override_slot(key: Seq<char>) -> int {
    if key == "room.normal.tl"@ {
        0
    } else if key == "room.normal.tr"@ {
        1
    } else if key == "room.normal.bl"@ {
        2
    } else if key == "room.normal.br"@ {
        3
    } else if key == "room.normal.h"@ {
        4
    } else if key == "room.normal.v"@ {
        5
    } else if key == "room.current.tl"@ {
        6
    } else if key == "room.current.tr"@ {
        7
    } else if key == "room.current.bl"@ {
        8
    } else if key == "room.current.br"@ {
        9
    } else if key == "room.current.h"@ {
        10
    } else if key == "room.current.v"@ {
        11
    } else if key == "room.portal.tl"@ {
        12
    } else if key == "room.portal.tr"@ {
        13
    } else if key == "room.portal.bl"@ {
        14
    } else if key == "room.portal.br"@ {
        15
    } else if key == "room.portal.h"@ {
        16
    } else if key == "room.portal.v"@ {
        17
    } else if key == "room.selected.tl"@ {
        18
    } else if key == "room.selected.tr"@ {
        19
    } else if key == "room.selected.bl"@ {
        20
    } else if key == "room.selected.br"@ {
        21
    } else if key == "room.selected.h"@ {
        22
    } else if key == "room.selected.v"@ {
        23
    } else if key == "arrow.north"@ {
        24
    } else if key == "arrow.south"@ {
        25
    } else if key == "arrow.east"@ {
        26
    } else if key == "arrow.west"@ {
        27
    } else if key == "arrow.ne"@ {
        28
    } else if key == "arrow.nw"@ {
        29
    } else if key == "arrow.se"@ {
        30
    } else if key == "arrow.sw"@ {
        31
    } else if key == "path.ew"@ {
        32
    } else if key == "path.ns"@ {
        33
    } else if key == "path.se"@ {
        34
    } else if key == "path.sw"@ {
        35
    } else if key == "path.ne"@ {
        36
    } else if key == "path.nw"@ {
        37
    } else if key == "path.nse"@ {
        38
    } else if key == "path.nsw"@ {
        39
    } else if key == "path.ews"@ {
        40
    } else if key == "path.ewn"@ {
        41
    } else if key == "path.cross"@ {
        42
    } else if key == "path.diag_ul"@ {
        43
    } else if key == "path.diag_ur"@ {
        44
    } else if key == "path.diag_ll"@ {
        45
    } else if key == "path.diag_lr"@ {
        46
    } else if key == "portal.up"@ {
        47
    } else if key == "portal.down"@ {
        48
    } else if key == "portal.in"@ {
        49
    } else if key == "portal.out"@ {
        50
    } else if key == "portal.unknown"@ {
        51
    } else if key == "portal.path"@ {
        52
    } else if key == "portal.marker"@ {
        53
    } else if key == "gutter.meta"@ {
        54
    } else if key == "gutter.warning"@ {
        55
    } else if key == "tile.wall_h"@ {
        56
    } else if key == "tile.wall_v"@ {
        57
    } else if key == "tile.wall_tl"@ {
        58
    } else if key == "tile.wall_tr"@ {
        59
    } else if key == "tile.wall_bl"@ {
        60
    } else if key == "tile.wall_br"@ {
        61
    } else if key == "tile.wall_tee_n"@ {
        62
    } else if key == "tile.wall_tee_s"@ {
        63
    } else if key == "tile.wall_tee_e"@ {
        64
    } else if key == "tile.wall_tee_w"@ {
        65
    } else if key == "tile.wall_cross"@ {
        66
    } else if key == "tile.floor"@ {
        67
    } else if key == "tile.door_h"@ {
        68
    } else if key == "tile.door_v"@ {
        69
    } else if key == "tile.door_n"@ {
        70
    } else if key == "tile.door_e"@ {
        71
    } else if key == "tile.door_s"@ {
        72
    } else if key == "tile.door_w"@ {
        73
    } else if key == "tile.door_stub"@ {
        74
    } else if key == "tile.dash_h"@ {
        75
    } else if key == "tile.dash_v"@ {
        76
    } else if key == "tile.diag_up"@ {
        77
    } else if key == "tile.diag_down"@ {
        78
    } else if key == "tile.bridge"@ {
        79
    } else if key == "tile.bridge_v"@ {
        80
    } else if key == "tile.stairs_up"@ {
        81
    } else if key == "tile.stairs_down"@ {
        82
    } else if key == "tile.portal_in"@ {
        83
    } else if key == "tile.portal_out"@ {
        84
    } else if key == "tile.player"@ {
        85
    } else {
        -1
    }
}

/// An override keeps the horizontal portal path and the diagonal switch.
proof fn lemma_override_keeps(s: SymbolSet, k: Seq<char>, c: char)
    ensures
        spec_apply_override(s, k, c).portal.path_h == s.portal.path_h,
        spec_apply_override(s, k, c).diagonal_corners == s.diagonal_corners,
{
}

// One lemma per slot: an override sets that slot exactly when its key names it.

proof fn lemma_sets_slot_0(s: SymbolSet, k: Seq<char>, c: char)
    ensures
        full_override_glyph(spec_apply_override(s, k, c), 0) == if override_slot(k) == 0 {
            c
        } else {
            full_override_glyph(s, 0)
        },
{
}

proof fn lemma_sets_slot_1(s: SymbolSet, k: Seq<char>, c: char)
    ensures
        full_override_glyph(spec_apply_override(s, k, c), 1) == if override_slot(k) == 1 {
            c
        } else {
            full_override_glyph(s, 1)
        },
{
}

proof fn lemma_sets_slot_2(s: SymbolSet, k: Seq<char>, c: char)
    ensures
        full_override_glyph(spec_apply_override(s, k, c), 2) == if override_slot(k) == 2 {
            c
        } else {
            full_override_glyph(s, 2)
        },
{
}

proof fn lemma_sets_slot_3(s: SymbolSet, k: Seq<char>, c: char)
    ensures
        full_override_glyph(spec_apply_override(s, k, c), 3) == if override_slot(k) == 3 {
            c
        } else {
            full_override_glyph(s, 3)
        },
{
}

proof fn lemma_sets_slot_4(s: SymbolSet, k: Seq<char>, c: char)
    ensures
        full_override_glyph(spec_apply_override(s, k, c), 4) == if override_slot(k) == 4 {
            c
        } else {
            full_override_glyph(s, 4)
        },
{
}

proof fn lemma_sets_slot_5(s: SymbolSet, k: Seq<char>, c: char)
    ensures
        full_override_glyph(spec_apply_override(s, k, c), 5) == if override_slot(k) == 5 {
            c
        } else {
            full_override_glyph(s, 5)
        },
{
}

proof fn lemma_sets_slot_6(s: SymbolSet, k: Seq<char>, c: char)
    ensures
        full_override_glyph(spec_apply_override(s, k, c), 6) == if override_slot(k) == 6 {
            c
        } else {
            full_override_glyph(s, 6)
        },
{
}

proof fn lemma_sets_slot_7(s: SymbolSet, k: Seq<char>, c: char)
    ensures
        full_override_glyph(spec_apply_override(s, k, c), 7) == if override_slot(k) == 7 {
            c
        } else {
            full_override_glyph(s, 7)
        },
{
}

proof fn lemma_sets_slot_8(s: SymbolSet, k: Seq<char>, c: char)
    ensures
        full_override_glyph(spec_apply_override(s, k, c), 8) == if override_slot(k) == 8 {
            c
        } else {
            full_override_glyph(s, 8)
        },
{
}

proof fn lemma_sets_slot_9(s: SymbolSet, k: Seq<char>, c: char)
    ensures
        full_override_glyph(spec_apply_override(s, k, c), 9) == if override_slot(k) == 9 {
            c
        } else {
            full_override_glyph(s, 9)
        },
{
}

proof fn lemma_sets_slot_10(s: SymbolSet, k: Seq<char>, c: char)
    ensures
        full_override_glyph(spec_apply_override(s, k, c), 10) == if override_slot(k) == 10 {
            c
        } else {
            full_override_glyph(s, 10)
        },
{
}

proof fn lemma_sets_slot_11(s: SymbolSet, k: Seq<char>, c: char)
    ensures
        full_override_glyph(spec_apply_override(s, k, c), 11) == if override_slot(k) == 11 {
            c
        } else {
            full_override_glyph(s, 11)
        },
{
}

proof fn lemma_sets_slot_12(s: SymbolSet, k: Seq<char>, c: char)
    ensures
        full_override_glyph(spec_apply_override(s, k, c), 12) == if override_slot(k) == 12 {
            c
        } else {
            full_override_glyph(s, 12)
        },
{
}

proof fn lemma_sets_slot_13(s: SymbolSet, k: Seq<char>, c: char)
    ensures
        full_override_glyph(spec_apply_override(s, k, c), 13) == if override_slot(k) == 13 {
            c
        } else {
            full_override_glyph(s, 13)
        },
{
}

proof fn lemma_sets_slot_14(s: SymbolSet, k: Seq<char>, c: char)
    ensures
        full_override_glyph(spec_apply_override(s, k, c), 14) == if override_slot(k) == 14 {
            c
        } else {
            full_override_glyph(s, 14)
        },
{
}

proof fn lemma_sets_slot_15(s: SymbolSet, k: Seq<char>, c: char)
    ensures
        full_override_glyph(spec_apply_override(s, k, c), 15) == if override_slot(k) == 15 {
            c
        } else {
            full_override_glyph(s, 15)
        },
{
}

proof fn lemma_sets_slot_16(s: SymbolSet, k: Seq<char>, c: char)
    ensures
        full_override_glyph(spec_apply_override(s, k, c), 16) == if override_slot(k) == 16 {
            c
        } else {
            full_override_glyph(s, 16)
        },
{
}

proof fn lemma_sets_slot_17(s: SymbolSet, k: Seq<char>, c: char)
    ensures
        full_override_glyph(spec_apply_override(s, k, c), 17) == if override_slot(k) == 17 {
            c
        } else {
            full_override_glyph(s, 17)
        },
{
}

proof fn lemma_sets_slot_18(s: SymbolSet, k: Seq<char>, c: char)
    ensures
        full_override_glyph(spec_apply_override(s, k, c), 18) == if override_slot(k) == 18 {
            c
        } else {
            full_override_glyph(s, 18)
        },
{
}

proof fn lemma_sets_slot_19(s: SymbolSet, k: Seq<char>, c: char)
    ensures
        full_override_glyph(spec_apply_override(s, k, c), 19) == if override_slot(k) == 19 {
            c
        } else {
            full_override_glyph(s, 19)
        },
{
}

proof fn lemma_sets_slot_20(s: SymbolSet, k: Seq<char>, c: char)
    ensures
        full_override_glyph(spec_apply_override(s, k, c), 20) == if override_slot(k) == 20 {
            c
        } else {
            full_override_glyph(s, 20)
        },
{
}

proof fn lemma_sets_slot_21(s: SymbolSet, k: Seq<char>, c: char)
    ensures
        full_override_glyph(spec_apply_override(s, k, c), 21) == if override_slot(k) == 21 {
            c
        } else {
            full_override_glyph(s, 21)
        },
{
}

proof fn lemma_sets_slot_22(s: SymbolSet, k: Seq<char>, c: char)
    ensures
        full_override_glyph(spec_apply_override(s, k, c), 22) == if override_slot(k) == 22 {
            c
        } else {
            full_override_glyph(s, 22)
        },
{
}

proof fn lemma_sets_slot_23(s: SymbolSet, k: Seq<char>, c: char)
    ensures
        full_override_glyph(spec_apply_override(s, k, c), 23) == if override_slot(k) == 23 {
            c
        } else {
            full_override_glyph(s, 23)
        },
{
}

proof fn lemma_sets_slot_24(s: SymbolSet, k: Seq<char>, c: char)
    ensures
        full_override_glyph(spec_apply_override(s, k, c), 24) == if override_slot(k) == 24 {
            c
        } else {
            full_override_glyph(s, 24)
        },
{
}

proof fn lemma_sets_slot_25(s: SymbolSet, k: Seq<char>, c: char)
    ensures
        full_override_glyph(spec_apply_override(s, k, c), 25) == if override_slot(k) == 25 {
            c
        } else {
            full_override_glyph(s, 25)
        },
{
}

proof fn lemma_sets_slot_26(s: SymbolSet, k: Seq<char>, c: char)
    ensures
        full_override_glyph(spec_apply_override(s, k, c), 26) == if override_slot(k) == 26 {
            c
        } else {
            full_override_glyph(s, 26)
        },
{
}

proof fn lemma_sets_slot_27(s: SymbolSet, k: Seq<char>, c: char)
    ensures
        full_override_glyph(spec_apply_override(s, k, c), 27) == if override_slot(k) == 27 {
            c
        } else {
            full_override_glyph(s, 27)
        },
{
}

proof fn lemma_sets_slot_28(s: SymbolSet, k: Seq<char>, c: char)
    ensures
        full_override_glyph(spec_apply_override(s, k, c), 28) == if override_slot(k) == 28 {
            c
        } else {
            full_override_glyph(s, 28)
        },
{
}

proof fn lemma_sets_slot_29(s: SymbolSet, k: Seq<char>, c: char)
    ensures
        full_override_glyph(spec_apply_override(s, k, c), 29) == if override_slot(k) == 29 {
            c
        } else {
            full_override_glyph(s, 29)
        },
{
}

proof fn lemma_sets_slot_30(s: SymbolSet, k: Seq<char>, c: char)
    ensures
        full_override_glyph(spec_apply_override(s, k, c), 30) == if override_slot(k) == 30 {
            c
        } else {
            full_override_glyph(s, 30)
        },
{
}

proof fn lemma_sets_slot_31(s: SymbolSet, k: Seq<char>, c: char)
    ensures
        full_override_glyph(spec_apply_override(s, k, c), 31) == if override_slot(k) == 31 {
            c
        } else {
            full_override_glyph(s, 31)
        },
{
}

proof fn lemma_sets_slot_32(s: SymbolSet, k: Seq<char>, c: char)
    ensures
        full_override_glyph(spec_apply_override(s, k, c), 32) == if override_slot(k) == 32 {
            c
        } else {
            full_override_glyph(s, 32)
        },
{
}

proof fn lemma_sets_slot_33(s: SymbolSet, k: Seq<char>, c: char)
    ensures
        full_override_glyph(spec_apply_override(s, k, c), 33) == if override_slot(k) == 33 {
            c
        } else {
            full_override_glyph(s, 33)
        },
{
}

proof fn lemma_sets_slot_34(s: SymbolSet, k: Seq<char>, c: char)
    ensures
        full_override_glyph(spec_apply_override(s, k, c), 34) == if override_slot(k) == 34 {
            c
        } else {
            full_override_glyph(s, 34)
        },
{
}

proof fn lemma_sets_slot_35(s: SymbolSet, k: Seq<char>, c: char)
    ensures
        full_override_glyph(spec_apply_override(s, k, c), 35) == if override_slot(k) == 35 {
            c
        } else {
            full_override_glyph(s, 35)
        },
{
}

proof fn lemma_sets_slot_36(s: SymbolSet, k: Seq<char>, c: char)
    ensures
        full_override_glyph(spec_apply_override(s, k, c), 36) == if override_slot(k) == 36 {
            c
        } else {
            full_override_glyph(s, 36)
        },
{
}

proof fn lemma_sets_slot_37(s: SymbolSet, k: Seq<char>, c: char)
    ensures
        full_override_glyph(spec_apply_override(s, k, c), 37) == if override_slot(k) == 37 {
            c
        } else {
            full_override_glyph(s, 37)
        },
{
}

proof fn lemma_sets_slot_38(s: SymbolSet, k: Seq<char>, c: char)
    ensures
        full_override_glyph(spec_apply_override(s, k, c), 38) == if override_slot(k) == 38 {
            c
        } else {
            full_override_glyph(s, 38)
        },
{
}

proof fn lemma_sets_slot_39(s: SymbolSet, k: Seq<char>, c: char)
    ensures
        full_override_glyph(spec_apply_override(s, k, c), 39) == if override_slot(k) == 39 {
            c
        } else {
            full_override_glyph(s, 39)
        },
{
}

proof fn lemma_sets_slot_40(s: SymbolSet, k: Seq<char>, c: char)
    ensures
        full_override_glyph(spec_apply_override(s, k, c), 40) == if override_slot(k) == 40 {
            c
        } else {
            full_override_glyph(s, 40)
        },
{
}

proof fn lemma_sets_slot_41(s: SymbolSet, k: Seq<char>, c: char)
    ensures
        full_override_glyph(spec_apply_override(s, k, c), 41) == if override_slot(k) == 41 {
            c
        } else {
            full_override_glyph(s, 41)
        },
{
}

proof fn lemma_sets_slot_42(s: SymbolSet, k: Seq<char>, c: char)
    ensures
        full_override_glyph(spec_apply_override(s, k, c), 42) == if override_slot(k) == 42 {
            c
        } else {
            full_override_glyph(s, 42)
        },
{
}

proof fn lemma_sets_slot_43(s: SymbolSet, k: Seq<char>, c: char)
    ensures
        full_override_glyph(spec_apply_override(s, k, c), 43) == if override_slot(k) == 43 {
            c
        } else {
            full_override_glyph(s, 43)
        },
{
}

proof fn lemma_sets_slot_44(s: SymbolSet, k: Seq<char>, c: char)
    ensures
        full_override_glyph(spec_apply_override(s, k, c), 44) == if override_slot(k) == 44 {
            c
        } else {
            full_override_glyph(s, 44)
        },
{
}

proof fn lemma_sets_slot_45(s: SymbolSet, k: Seq<char>, c: char)
    ensures
        full_override_glyph(spec_apply_override(s, k, c), 45) == if override_slot(k) == 45 {
            c
        } else {
            full_override_glyph(s, 45)
        },
{
}

proof fn lemma_sets_slot_46(s: SymbolSet, k: Seq<char>, c: char)
    ensures
        full_override_glyph(spec_apply_override(s, k, c), 46) == if override_slot(k) == 46 {
            c
        } else {
            full_override_glyph(s, 46)
        },
{
}

proof fn lemma_sets_slot_47(s: SymbolSet, k: Seq<char>, c: char)
    ensures
        full_override_glyph(spec_apply_override(s, k, c), 47) == if override_slot(k) == 47 {
            c
        } else {
            full_override_glyph(s, 47)
        },
{
}

proof fn lemma_sets_slot_48(s: SymbolSet, k: Seq<char>, c: char)
    ensures
        full_override_glyph(spec_apply_override(s, k, c), 48) == if override_slot(k) == 48 {
            c
        } else {
            full_override_glyph(s, 48)
        },
{
}

proof fn lemma_sets_slot_49(s: SymbolSet, k: Seq<char>, c: char)
    ensures
        full_override_glyph(spec_apply_override(s, k, c), 49) == if override_slot(k) == 49 {
            c
        } else {
            full_override_glyph(s, 49)
        },
{
}

proof fn lemma_sets_slot_50(s: SymbolSet, k: Seq<char>, c: char)
    ensures
        full_override_glyph(spec_apply_override(s, k, c), 50) == if override_slot(k) == 50 {
            c
        } else {
            full_override_glyph(s, 50)
        },
{
}

proof fn lemma_sets_slot_51(s: SymbolSet, k: Seq<char>, c: char)
    ensures
        full_override_glyph(spec_apply_override(s, k, c), 51) == if override_slot(k) == 51 {
            c
        } else {
            full_override_glyph(s, 51)
        },
{
}

proof fn lemma_sets_slot_52(s: SymbolSet, k: Seq<char>, c: char)
    ensures
        full_override_glyph(spec_apply_override(s, k, c), 52) == if override_slot(k) == 52 {
            c
        } else {
            full_override_glyph(s, 52)
        },
{
}

proof fn lemma_sets_slot_53(s: SymbolSet, k: Seq<char>, c: char)
    ensures
        full_override_glyph(spec_apply_override(s, k, c), 53) == if override_slot(k) == 53 {
            c
        } else {
            full_override_glyph(s, 53)
        },
{
}

proof fn lemma_sets_slot_54(s: SymbolSet, k: Seq<char>, c: char)
    ensures
        full_override_glyph(spec_apply_override(s, k, c), 54) == if override_slot(k) == 54 {
            c
        } else {
            full_override_glyph(s, 54)
        },
{
}

proof fn lemma_sets_slot_55(s: SymbolSet, k: Seq<char>, c: char)
    ensures
        full_override_glyph(spec_apply_override(s, k, c), 55) == if override_slot(k) == 55 {
            c
        } else {
            full_override_glyph(s, 55)
        },
{
}

proof fn lemma_sets_slot_56(s: SymbolSet, k: Seq<char>, c: char)
    ensures
        full_override_glyph(spec_apply_override(s, k, c), 56) == if override_slot(k) == 56 {
            c
        } else {
            full_override_glyph(s, 56)
        },
{
}

proof fn lemma_sets_slot_57(s: SymbolSet, k: Seq<char>, c: char)
    ensures
        full_override_glyph(spec_apply_override(s, k, c), 57) == if override_slot(k) == 57 {
            c
        } else {
            full_override_glyph(s, 57)
        },
{
}

proof fn lemma_sets_slot_58(s: SymbolSet, k: Seq<char>, c: char)
    ensures
        full_override_glyph(spec_apply_override(s, k, c), 58) == if override_slot(k) == 58 {
            c
        } else {
            full_override_glyph(s, 58)
        },
{
}

proof fn lemma_sets_slot_59(s: SymbolSet, k: Seq<char>, c: char)
    ensures
        full_override_glyph(spec_apply_override(s, k, c), 59) == if override_slot(k) == 59 {
            c
        } else {
            full_override_glyph(s, 59)
        },
{
}

proof fn lemma_sets_slot_60(s: SymbolSet, k: Seq<char>, c: char)
    ensures
        full_override_glyph(spec_apply_override(s, k, c), 60) == if override_slot(k) == 60 {
            c
        } else {
            full_override_glyph(s, 60)
        },
{
}

proof fn lemma_sets_slot_61(s: SymbolSet, k: Seq<char>, c: char)
    ensures
        full_override_glyph(spec_apply_override(s, k, c), 61) == if override_slot(k) == 61 {
            c
        } else {
            full_override_glyph(s, 61)
        },
{
}

proof fn lemma_sets_slot_62(s: SymbolSet, k: Seq<char>, c: char)
    ensures
        full_override_glyph(spec_apply_override(s, k, c), 62) == if override_slot(k) == 62 {
            c
        } else {
            full_override_glyph(s, 62)
        },
{
}

proof fn lemma_sets_slot_63(s: SymbolSet, k: Seq<char>, c: char)
    ensures
        full_override_glyph(spec_apply_override(s, k, c), 63) == if override_slot(k) == 63 {
            c
        } else {
            full_override_glyph(s, 63)
        },
{
}

proof fn lemma_sets_slot_64(s: SymbolSet, k: Seq<char>, c: char)
    ensures
        full_override_glyph(spec_apply_override(s, k, c), 64) == if override_slot(k) == 64 {
            c
        } else {
            full_override_glyph(s, 64)
        },
{
}

proof fn lemma_sets_slot_65(s: SymbolSet, k: Seq<char>, c: char)
    ensures
        full_override_glyph(spec_apply_override(s, k, c), 65) == if override_slot(k) == 65 {
            c
        } else {
            full_override_glyph(s, 65)
        },
{
}

proof fn lemma_sets_slot_66(s: SymbolSet, k: Seq<char>, c: char)
    ensures
        full_override_glyph(spec_apply_override(s, k, c), 66) == if override_slot(k) == 66 {
            c
        } else {
            full_override_glyph(s, 66)
        },
{
}

proof fn lemma_sets_slot_67(s: SymbolSet, k: Seq<char>, c: char)
    ensures
        full_override_glyph(spec_apply_override(s, k, c), 67) == if override_slot(k) == 67 {
            c
        } else {
            full_override_glyph(s, 67)
        },
{
}

proof fn lemma_sets_slot_68(s: SymbolSet, k: Seq<char>, c: char)
    ensures
        full_override_glyph(spec_apply_override(s, k, c), 68) == if override_slot(k) == 68 {
            c
        } else {
            full_override_glyph(s, 68)
        },
{
}

proof fn lemma_sets_slot_69(s: SymbolSet, k: Seq<char>, c: char)
    ensures
        full_override_glyph(spec_apply_override(s, k, c), 69) == if override_slot(k) == 69 {
            c
        } else {
            full_override_glyph(s, 69)
        },
{
}

proof fn lemma_sets_slot_70(s: SymbolSet, k: Seq<char>, c: char)
    ensures
        full_override_glyph(spec_apply_override(s, k, c), 70) == if override_slot(k) == 70 {
            c
        } else {
            full_override_glyph(s, 70)
        },
{
}

proof fn lemma_sets_slot_71(s: SymbolSet, k: Seq<char>, c: char)
    ensures
        full_override_glyph(spec_apply_override(s, k, c), 71) == if override_slot(k) == 71 {
            c
        } else {
            full_override_glyph(s, 71)
        },
{
}

proof fn lemma_sets_slot_72(s: SymbolSet, k: Seq<char>, c: char)
    ensures
        full_override_glyph(spec_apply_override(s, k, c), 72) == if override_slot(k) == 72 {
            c
        } else {
            full_override_glyph(s, 72)
        },
{
}

proof fn lemma_sets_slot_73(s: SymbolSet, k: Seq<char>, c: char)
    ensures
        full_override_glyph(spec_apply_override(s, k, c), 73) == if override_slot(k) == 73 {
            c
        } else {
            full_override_glyph(s, 73)
        },
{
}

proof fn lemma_sets_slot_74(s: SymbolSet, k: Seq<char>, c: char)
    ensures
        full_override_glyph(spec_apply_override(s, k, c), 74) == if override_slot(k) == 74 {
            c
        } else {
            full_override_glyph(s, 74)
        },
{
}

proof fn lemma_sets_slot_75(s: SymbolSet, k: Seq<char>, c: char)
    ensures
        full_override_glyph(spec_apply_override(s, k, c), 75) == if override_slot(k) == 75 {
            c
        } else {
            full_override_glyph(s, 75)
        },
{
}

proof fn lemma_sets_slot_76(s: SymbolSet, k: Seq<char>, c: char)
    ensures
        full_override_glyph(spec_apply_override(s, k, c), 76) == if override_slot(k) == 76 {
            c
        } else {
            full_override_glyph(s, 76)
        },
{
}

proof fn lemma_sets_slot_77(s: SymbolSet, k: Seq<char>, c: char)
    ensures
        full_override_glyph(spec_apply_override(s, k, c), 77) == if override_slot(k) == 77 {
            c
        } else {
            full_override_glyph(s, 77)
        },
{
}

proof fn lemma_sets_slot_78(s: SymbolSet, k: Seq<char>, c: char)
    ensures
        full_override_glyph(spec_apply_override(s, k, c), 78) == if override_slot(k) == 78 {
            c
        } else {
            full_override_glyph(s, 78)
        },
{
}

proof fn lemma_sets_slot_79(s: SymbolSet, k: Seq<char>, c: char)
    ensures
        full_override_glyph(spec_apply_override(s, k, c), 79) == if override_slot(k) == 79 {
            c
        } else {
            full_override_glyph(s, 79)
        },
{
}

proof fn lemma_sets_slot_80(s: SymbolSet, k: Seq<char>, c: char)
    ensures
        full_override_glyph(spec_apply_override(s, k, c), 80) == if override_slot(k) == 80 {
            c
        } else {
            full_override_glyph(s, 80)
        },
{
}

proof fn lemma_sets_slot_81(s: SymbolSet, k: Seq<char>, c: char)
    ensures
        full_override_glyph(spec_apply_override(s, k, c), 81) == if override_slot(k) == 81 {
            c
        } else {
            full_override_glyph(s, 81)
        },
{
}

proof fn lemma_sets_slot_82(s: SymbolSet, k: Seq<char>, c: char)
    ensures
        full_override_glyph(spec_apply_override(s, k, c), 82) == if override_slot(k) == 82 {
            c
        } else {
            full_override_glyph(s, 82)
        },
{
}

proof fn lemma_sets_slot_83(s: SymbolSet, k: Seq<char>, c: char)
    ensures
        full_override_glyph(spec_apply_override(s, k, c), 83) == if override_slot(k) == 83 {
            c
        } else {
            full_override_glyph(s, 83)
        },
{
}

proof fn lemma_sets_slot_84(s: SymbolSet, k: Seq<char>, c: char)
    ensures
        full_override_glyph(spec_apply_override(s, k, c), 84) == if override_slot(k) == 84 {
            c
        } else {
            full_override_glyph(s, 84)
        },
{
}

proof fn lemma_sets_slot_85(s: SymbolSet, k: Seq<char>, c: char)
    ensures
        full_override_glyph(spec_apply_override(s, k, c), 85) == if override_slot(k) == 85 {
            c
        } else {
            full_override_glyph(s, 85)
        },
{
}

/// An override sets the glyph of the slot its key names and no other.
proof fn lemma_override_sets_one_slot(s: SymbolSet, k: Seq<char>, c: char, i: int)
    requires
        0 <= i < full_override_count(),
    ensures
        full_override_glyph(spec_apply_override(s, k, c), i) == if override_slot(k) == i {
            c
        } else {
            full_override_glyph(s, i)
        },
        spec_apply_override(s, k, c).portal.path_h == s.portal.path_h,
        spec_apply_override(s, k, c).diagonal_corners == s.diagonal_corners,
{
    lemma_override_keeps(s, k, c);
        if i == 0 {
            lemma_sets_slot_0(s, k, c);
        } else if i == 1 {
            lemma_sets_slot_1(s, k, c);
        } else if i == 2 {
            lemma_sets_slot_2(s, k, c);
        } else if i == 3 {
            lemma_sets_slot_3(s, k, c);
        } else if i == 4 {
            lemma_sets_slot_4(s, k, c);
        } else if i == 5 {
            lemma_sets_slot_5(s, k, c);
        } else if i == 6 {
            lemma_sets_slot_6(s, k, c);
        } else if i == 7 {
            lemma_sets_slot_7(s, k, c);
        } else if i == 8 {
            lemma_sets_slot_8(s, k, c);
        } else if i == 9 {
            lemma_sets_slot_9(s, k, c);
        } else if i == 10 {
            lemma_sets_slot_10(s, k, c);
        } else if i == 11 {
            lemma_sets_slot_11(s, k, c);
        } else if i == 12 {
            lemma_sets_slot_12(s, k, c);
        } else if i == 13 {
            lemma_sets_slot_13(s, k, c);
        } else if i == 14 {
            lemma_sets_slot_14(s, k, c);
        } else if i == 15 {
            lemma_sets_slot_15(s, k, c);
        } else if i == 16 {
            lemma_sets_slot_16(s, k, c);
        } else if i == 17 {
            lemma_sets_slot_17(s, k, c);
        } else if i == 18 {
            lemma_sets_slot_18(s, k, c);
        } else if i == 19 {
            lemma_sets_slot_19(s, k, c);
        } else if i == 20 {
            lemma_sets_slot_20(s, k, c);
        } else if i == 21 {
            lemma_sets_slot_21(s, k, c);
        } else if i == 22 {
            lemma_sets_slot_22(s, k, c);
        } else if i == 23 {
            lemma_sets_slot_23(s, k, c);
        } else if i == 24 {
            lemma_sets_slot_24(s, k, c);
        } else if i == 25 {
            lemma_sets_slot_25(s, k, c);
        } else if i == 26 {
            lemma_sets_slot_26(s, k, c);
        } else if i == 27 {
            lemma_sets_slot_27(s, k, c);
        } else if i == 28 {
            lemma_sets_slot_28(s, k, c);
        } else if i == 29 {
            lemma_sets_slot_29(s, k, c);
        } else if i == 30 {
            lemma_sets_slot_30(s, k, c);
        } else if i == 31 {
            lemma_sets_slot_31(s, k, c);
        } else if i == 32 {
            lemma_sets_slot_32(s, k, c);
        } else if i == 33 {
            lemma_sets_slot_33(s, k, c);
        } else if i == 34 {
            lemma_sets_slot_34(s, k, c);
        } else if i == 35 {
            lemma_sets_slot_35(s, k, c);
        } else if i == 36 {
            lemma_sets_slot_36(s, k, c);
        } else if i == 37 {
            lemma_sets_slot_37(s, k, c);
        } else if i == 38 {
            lemma_sets_slot_38(s, k, c);
        } else if i == 39 {
            lemma_sets_slot_39(s, k, c);
        } else if i == 40 {
            lemma_sets_slot_40(s, k, c);
        } else if i == 41 {
            lemma_sets_slot_41(s, k, c);
        } else if i == 42 {
            lemma_sets_slot_42(s, k, c);
        } else if i == 43 {
            lemma_sets_slot_43(s, k, c);
        } else if i == 44 {
            lemma_sets_slot_44(s, k, c);
        } else if i == 45 {
            lemma_sets_slot_45(s, k, c);
        } else if i == 46 {
            lemma_sets_slot_46(s, k, c);
        } else if i == 47 {
            lemma_sets_slot_47(s, k, c);
        } else if i == 48 {
            lemma_sets_slot_48(s, k, c);
        } else if i == 49 {
            lemma_sets_slot_49(s, k, c);
        } else if i == 50 {
            lemma_sets_slot_50(s, k, c);
        } else if i == 51 {
            lemma_sets_slot_51(s, k, c);
        } else if i == 52 {
            lemma_sets_slot_52(s, k, c);
        } else if i == 53 {
            lemma_sets_slot_53(s, k, c);
        } else if i == 54 {
            lemma_sets_slot_54(s, k, c);
        } else if i == 55 {
            lemma_sets_slot_55(s, k, c);
        } else if i == 56 {
            lemma_sets_slot_56(s, k, c);
        } else if i == 57 {
            lemma_sets_slot_57(s, k, c);
        } else if i == 58 {
            lemma_sets_slot_58(s, k, c);
        } else if i == 59 {
            lemma_sets_slot_59(s, k, c);
        } else if i == 60 {
            lemma_sets_slot_60(s, k, c);
        } else if i == 61 {
            lemma_sets_slot_61(s, k, c);
        } else if i == 62 {
            lemma_sets_slot_62(s, k, c);
        } else if i == 63 {
            lemma_sets_slot_63(s, k, c);
        } else if i == 64 {
            lemma_sets_slot_64(s, k, c);
        } else if i == 65 {
            lemma_sets_slot_65(s, k, c);
        } else if i == 66 {
            lemma_sets_slot_66(s, k, c);
        } else if i == 67 {
            lemma_sets_slot_67(s, k, c);
        } else if i == 68 {
            lemma_sets_slot_68(s, k, c);
        } else if i == 69 {
            lemma_sets_slot_69(s, k, c);
        } else if i == 70 {
            lemma_sets_slot_70(s, k, c);
        } else if i == 71 {
            lemma_sets_slot_71(s, k, c);
        } else if i == 72 {
            lemma_sets_slot_72(s, k, c);
        } else if i == 73 {
            lemma_sets_slot_73(s, k, c);
        } else if i == 74 {
            lemma_sets_slot_74(s, k, c);
        } else if i == 75 {
            lemma_sets_slot_75(s, k, c);
        } else if i == 76 {
            lemma_sets_slot_76(s, k, c);
        } else if i == 77 {
            lemma_sets_slot_77(s, k, c);
        } else if i == 78 {
            lemma_sets_slot_78(s, k, c);
        } else if i == 79 {
            lemma_sets_slot_79(s, k, c);
        } else if i == 80 {
            lemma_sets_slot_80(s, k, c);
        } else if i == 81 {
            lemma_sets_slot_81(s, k, c);
        } else if i == 82 {
            lemma_sets_slot_82(s, k, c);
        } else if i == 83 {
            lemma_sets_slot_83(s, k, c);
        } else if i == 84 {
            lemma_sets_slot_84(s, k, c);
        } else if i == 85 {
            lemma_sets_slot_85(s, k, c);
        }
}

/// A key that names a slot is that slot's key.
proof fn lemma_override_slot_key(k: Seq<char>)
    ensures
        override_slot(k) < full_override_count(),
        0 <= override_slot(k) ==> k == full_override_key(override_slot(k)),
{
}

/// A position of the slot list is one of its 86 positions.
proof fn lemma_slot_cases(i: int)
    requires
        0 <= i < 86,
    ensures
        i < 43 ==> i == 0 || i == 1 || i == 2 || i == 3 || i == 4 || i == 5 || i == 6 || i == 7 || i == 8 || i == 9 || i == 10 || i == 11 || i == 12 || i == 13 || i == 14 || i == 15 || i == 16 || i == 17 || i == 18 || i == 19 || i == 20 || i == 21 || i == 22 || i == 23 || i == 24 || i == 25 || i == 26 || i == 27 || i == 28 || i == 29 || i == 30 || i == 31 || i == 32 || i == 33 || i == 34 || i == 35 || i == 36 || i == 37 || i == 38 || i == 39 || i == 40 || i == 41 || i == 42,
        43 <= i ==> i == 43 || i == 44 || i == 45 || i == 46 || i == 47 || i == 48 || i == 49 || i == 50 || i == 51 || i == 52 || i == 53 || i == 54 || i == 55 || i == 56 || i == 57 || i == 58 || i == 59 || i == 60 || i == 61 || i == 62 || i == 63 || i == 64 || i == 65 || i == 66 || i == 67 || i == 68 || i == 69 || i == 70 || i == 71 || i == 72 || i == 73 || i == 74 || i == 75 || i == 76 || i == 77 || i == 78 || i == 79 || i == 80 || i == 81 || i == 82 || i == 83 || i == 84 || i == 85,
{
}

/// The key of slot `i` names slot `i` (no two slots share a key).
proof fn lemma_slot_of_key(i: int)
    requires
        0 <= i < full_override_count(),
    ensures
        override_slot(full_override_key(i)) == i,
{
    reveal_strlit("room.normal.tl");
    assert("room.normal.tl"@.len() == 14);
    assert("room.normal.tl"@[0] == 'r');
    assert("room.normal.tl"@[5] == 'n');
    assert("room.normal.tl"@[12] == 't');
    assert("room.normal.tl"@[13] == 'l');
    reveal_strlit("room.normal.tr");
    assert("room.normal.tr"@.len() == 14);
    assert("room.normal.tr"@[0] == 'r');
    assert("room.normal.tr"@[5] == 'n');
    assert("room.normal.tr"@[12] == 't');
    assert("room.normal.tr"@[13] == 'r');
    reveal_strlit("room.normal.bl");
    assert("room.normal.bl"@.len() == 14);
    assert("room.normal.bl"@[0] == 'r');
    assert("room.normal.bl"@[5] == 'n');
    assert("room.normal.bl"@[12] == 'b');
    assert("room.normal.bl"@[13] == 'l');
    reveal_strlit("room.normal.br");
    assert("room.normal.br"@.len() == 14);
    assert("room.normal.br"@[0] == 'r');
    assert("room.normal.br"@[5] == 'n');
    assert("room.normal.br"@[12] == 'b');
    assert("room.normal.br"@[13] == 'r');
    reveal_strlit("room.normal.h");
    assert("room.normal.h"@.len() == 13);
    assert("room.normal.h"@[0] == 'r');
    assert("room.normal.h"@[5] == 'n');
    assert("room.normal.h"@[12] == 'h');
    reveal_strlit("room.normal.v");
    assert("room.normal.v"@.len() == 13);
    assert("room.normal.v"@[0] == 'r');
    assert("room.normal.v"@[5] == 'n');
    assert("room.normal.v"@[12] == 'v');
    reveal_strlit("room.current.tl");
    assert("room.current.tl"@.len() == 15);
    assert("room.current.tl"@[0] == 'r');
    assert("room.current.tl"@[5] == 'c');
    assert("room.current.tl"@[13] == 't');
    assert("room.current.tl"@[14] == 'l');
    reveal_strlit("room.current.tr");
    assert("room.current.tr"@.len() == 15);
    assert("room.current.tr"@[0] == 'r');
    assert("room.current.tr"@[5] == 'c');
    assert("room.current.tr"@[13] == 't');
    assert("room.current.tr"@[14] == 'r');
    reveal_strlit("room.current.bl");
    assert("room.current.bl"@.len() == 15);
    assert("room.current.bl"@[0] == 'r');
    assert("room.current.bl"@[5] == 'c');
    assert("room.current.bl"@[13] == 'b');
    assert("room.current.bl"@[14] == 'l');
    reveal_strlit("room.current.br");
    assert("room.current.br"@.len() == 15);
    assert("room.current.br"@[0] == 'r');
    assert("room.current.br"@[5] == 'c');
    assert("room.current.br"@[13] == 'b');
    assert("room.current.br"@[14] == 'r');
    reveal_strlit("room.current.h");
    assert("room.current.h"@.len() == 14);
    assert("room.current.h"@[0] == 'r');
    assert("room.current.h"@[5] == 'c');
    assert("room.current.h"@[13] == 'h');
    reveal_strlit("room.current.v");
    assert("room.current.v"@.len() == 14);
    assert("room.current.v"@[0] == 'r');
    assert("room.current.v"@[5] == 'c');
    assert("room.current.v"@[13] == 'v');
    reveal_strlit("room.portal.tl");
    assert("room.portal.tl"@.len() == 14);
    assert("room.portal.tl"@[0] == 'r');
    assert("room.portal.tl"@[5] == 'p');
    assert("room.portal.tl"@[12] == 't');
    assert("room.portal.tl"@[13] == 'l');
    reveal_strlit("room.portal.tr");
    assert("room.portal.tr"@.len() == 14);
    assert("room.portal.tr"@[0] == 'r');
    assert("room.portal.tr"@[5] == 'p');
    assert("room.portal.tr"@[12] == 't');
    assert("room.portal.tr"@[13] == 'r');
    reveal_strlit("room.portal.bl");
    assert("room.portal.bl"@.len() == 14);
    assert("room.portal.bl"@[0] == 'r');
    assert("room.portal.bl"@[5] == 'p');
    assert("room.portal.bl"@[12] == 'b');
    assert("room.portal.bl"@[13] == 'l');
    reveal_strlit("room.portal.br");
    assert("room.portal.br"@.len() == 14);
    assert("room.portal.br"@[0] == 'r');
    assert("room.portal.br"@[5] == 'p');
    assert("room.portal.br"@[12] == 'b');
    assert("room.portal.br"@[13] == 'r');
    reveal_strlit("room.portal.h");
    assert("room.portal.h"@.len() == 13);
    assert("room.portal.h"@[0] == 'r');
    assert("room.portal.h"@[5] == 'p');
    assert("room.portal.h"@[12] == 'h');
    reveal_strlit("room.portal.v");
    assert("room.portal.v"@.len() == 13);
    assert("room.portal.v"@[0] == 'r');
    assert("room.portal.v"@[5] == 'p');
    assert("room.portal.v"@[12] == 'v');
    reveal_strlit("room.selected.tl");
    assert("room.selected.tl"@.len() == 16);
    assert("room.selected.tl"@[0] == 'r');
    assert("room.selected.tl"@[14] == 't');
    assert("room.selected.tl"@[15] == 'l');
    reveal_strlit("room.selected.tr");
    assert("room.selected.tr"@.len() == 16);
    assert("room.selected.tr"@[0] == 'r');
    assert("room.selected.tr"@[14] == 't');
    assert("room.selected.tr"@[15] == 'r');
    reveal_strlit("room.selected.bl");
    assert("room.selected.bl"@.len() == 16);
    assert("room.selected.bl"@[0] == 'r');
    assert("room.selected.bl"@[14] == 'b');
    assert("room.selected.bl"@[15] == 'l');
    reveal_strlit("room.selected.br");
    assert("room.selected.br"@.len() == 16);
    assert("room.selected.br"@[0] == 'r');
    assert("room.selected.br"@[14] == 'b');
    assert("room.selected.br"@[15] == 'r');
    reveal_strlit("room.selected.h");
    assert("room.selected.h"@.len() == 15);
    assert("room.selected.h"@[0] == 'r');
    assert("room.selected.h"@[5] == 's');
    assert("room.selected.h"@[14] == 'h');
    reveal_strlit("room.selected.v");
    assert("room.selected.v"@.len() == 15);
    assert("room.selected.v"@[0] == 'r');
    assert("room.selected.v"@[5] == 's');
    assert("room.selected.v"@[14] == 'v');
    reveal_strlit("arrow.north");
    assert("arrow.north"@.len() == 11);
    assert("arrow.north"@[0] == 'a');
    assert("arrow.north"@[6] == 'n');
    reveal_strlit("arrow.south");
    assert("arrow.south"@.len() == 11);
    assert("arrow.south"@[0] == 'a');
    assert("arrow.south"@[6] == 's');
    reveal_strlit("arrow.east");
    assert("arrow.east"@.len() == 10);
    assert("arrow.east"@[0] == 'a');
    assert("arrow.east"@[6] == 'e');
    reveal_strlit("arrow.west");
    assert("arrow.west"@.len() == 10);
    assert("arrow.west"@[0] == 'a');
    assert("arrow.west"@[6] == 'w');
    reveal_strlit("arrow.ne");
    assert("arrow.ne"@.len() == 8);
    assert("arrow.ne"@[0] == 'a');
    assert("arrow.ne"@[6] == 'n');
    assert("arrow.ne"@[7] == 'e');
    reveal_strlit("arrow.nw");
    assert("arrow.nw"@.len() == 8);
    assert("arrow.nw"@[0] == 'a');
    assert("arrow.nw"@[6] == 'n');
    assert("arrow.nw"@[7] == 'w');
    reveal_strlit("arrow.se");
    assert("arrow.se"@.len() == 8);
    assert("arrow.se"@[0] == 'a');
    assert("arrow.se"@[6] == 's');
    assert("arrow.se"@[7] == 'e');
    reveal_strlit("arrow.sw");
    assert("arrow.sw"@.len() == 8);
    assert("arrow.sw"@[0] == 'a');
    assert("arrow.sw"@[6] == 's');
    assert("arrow.sw"@[7] == 'w');
    reveal_strlit("path.ew");
    assert("path.ew"@.len() == 7);
    assert("path.ew"@[5] == 'e');
    reveal_strlit("path.ns");
    assert("path.ns"@.len() == 7);
    assert("path.ns"@[5] == 'n');
    assert("path.ns"@[6] == 's');
    reveal_strlit("path.se");
    assert("path.se"@.len() == 7);
    assert("path.se"@[5] == 's');
    assert("path.se"@[6] == 'e');
    reveal_strlit("path.sw");
    assert("path.sw"@.len() == 7);
    assert("path.sw"@[5] == 's');
    assert("path.sw"@[6] == 'w');
    reveal_strlit("path.ne");
    assert("path.ne"@.len() == 7);
    assert("path.ne"@[5] == 'n');
    assert("path.ne"@[6] == 'e');
    reveal_strlit("path.nw");
    assert("path.nw"@.len() == 7);
    assert("path.nw"@[5] == 'n');
    assert("path.nw"@[6] == 'w');
    reveal_strlit("path.nse");
    assert("path.nse"@.len() == 8);
    assert("path.nse"@[0] == 'p');
    assert("path.nse"@[5] == 'n');
    assert("path.nse"@[7] == 'e');
    reveal_strlit("path.nsw");
    assert("path.nsw"@.len() == 8);
    assert("path.nsw"@[0] == 'p');
    assert("path.nsw"@[5] == 'n');
    assert("path.nsw"@[7] == 'w');
    reveal_strlit("path.ews");
    assert("path.ews"@.len() == 8);
    assert("path.ews"@[0] == 'p');
    assert("path.ews"@[5] == 'e');
    assert("path.ews"@[7] == 's');
    reveal_strlit("path.ewn");
    assert("path.ewn"@.len() == 8);
    assert("path.ewn"@[0] == 'p');
    assert("path.ewn"@[5] == 'e');
    assert("path.ewn"@[7] == 'n');
    reveal_strlit("path.cross");
    assert("path.cross"@.len() == 10);
    assert("path.cross"@[0] == 'p');
    assert("path.cross"@[1] == 'a');
    reveal_strlit("path.diag_ul");
    assert("path.diag_ul"@.len() == 12);
    assert("path.diag_ul"@[0] == 'p');
    assert("path.diag_ul"@[10] == 'u');
    assert("path.diag_ul"@[11] == 'l');
    reveal_strlit("path.diag_ur");
    assert("path.diag_ur"@.len() == 12);
    assert("path.diag_ur"@[0] == 'p');
    assert("path.diag_ur"@[10] == 'u');
    assert("path.diag_ur"@[11] == 'r');
    reveal_strlit("path.diag_ll");
    assert("path.diag_ll"@.len() == 12);
    assert("path.diag_ll"@[0] == 'p');
    assert("path.diag_ll"@[10] == 'l');
    assert("path.diag_ll"@[11] == 'l');
    reveal_strlit("path.diag_lr");
    assert("path.diag_lr"@.len() == 12);
    assert("path.diag_lr"@[0] == 'p');
    assert("path.diag_lr"@[10] == 'l');
    assert("path.diag_lr"@[11] == 'r');
    reveal_strlit("portal.up");
    assert("portal.up"@.len() == 9);
    assert("portal.up"@[7] == 'u');
    reveal_strlit("portal.down");
    assert("portal.down"@.len() == 11);
    assert("portal.down"@[0] == 'p');
    assert("portal.down"@[7] == 'd');
    reveal_strlit("portal.in");
    assert("portal.in"@.len() == 9);
    assert("portal.in"@[7] == 'i');
    reveal_strlit("portal.out");
    assert("portal.out"@.len() == 10);
    assert("portal.out"@[0] == 'p');
    assert("portal.out"@[1] == 'o');
    reveal_strlit("portal.unknown");
    assert("portal.unknown"@.len() == 14);
    assert("portal.unknown"@[0] == 'p');
    reveal_strlit("portal.path");
    assert("portal.path"@.len() == 11);
    assert("portal.path"@[0] == 'p');
    assert("portal.path"@[7] == 'p');
    reveal_strlit("portal.marker");
    assert("portal.marker"@.len() == 13);
    assert("portal.marker"@[0] == 'p');
    reveal_strlit("gutter.meta");
    assert("gutter.meta"@.len() == 11);
    assert("gutter.meta"@[0] == 'g');
    reveal_strlit("gutter.warning");
    assert("gutter.warning"@.len() == 14);
    assert("gutter.warning"@[0] == 'g');
    reveal_strlit("tile.wall_h");
    assert("tile.wall_h"@.len() == 11);
    assert("tile.wall_h"@[0] == 't');
    assert("tile.wall_h"@[5] == 'w');
    assert("tile.wall_h"@[10] == 'h');
    reveal_strlit("tile.wall_v");
    assert("tile.wall_v"@.len() == 11);
    assert("tile.wall_v"@[0] == 't');
    assert("tile.wall_v"@[5] == 'w');
    assert("tile.wall_v"@[10] == 'v');
    reveal_strlit("tile.wall_tl");
    assert("tile.wall_tl"@.len() == 12);
    assert("tile.wall_tl"@[0] == 't');
    assert("tile.wall_tl"@[5] == 'w');
    assert("tile.wall_tl"@[10] == 't');
    assert("tile.wall_tl"@[11] == 'l');
    reveal_strlit("tile.wall_tr");
    assert("tile.wall_tr"@.len() == 12);
    assert("tile.wall_tr"@[0] == 't');
    assert("tile.wall_tr"@[5] == 'w');
    assert("tile.wall_tr"@[10] == 't');
    assert("tile.wall_tr"@[11] == 'r');
    reveal_strlit("tile.wall_bl");
    assert("tile.wall_bl"@.len() == 12);
    assert("tile.wall_bl"@[0] == 't');
    assert("tile.wall_bl"@[5] == 'w');
    assert("tile.wall_bl"@[10] == 'b');
    assert("tile.wall_bl"@[11] == 'l');
    reveal_strlit("tile.wall_br");
    assert("tile.wall_br"@.len() == 12);
    assert("tile.wall_br"@[0] == 't');
    assert("tile.wall_br"@[5] == 'w');
    assert("tile.wall_br"@[10] == 'b');
    assert("tile.wall_br"@[11] == 'r');
    reveal_strlit("tile.wall_tee_n");
    assert("tile.wall_tee_n"@.len() == 15);
    assert("tile.wall_tee_n"@[0] == 't');
    assert("tile.wall_tee_n"@[5] == 'w');
    assert("tile.wall_tee_n"@[10] == 't');
    assert("tile.wall_tee_n"@[14] == 'n');
    reveal_strlit("tile.wall_tee_s");
    assert("tile.wall_tee_s"@.len() == 15);
    assert("tile.wall_tee_s"@[0] == 't');
    assert("tile.wall_tee_s"@[5] == 'w');
    assert("tile.wall_tee_s"@[10] == 't');
    assert("tile.wall_tee_s"@[14] == 's');
    reveal_strlit("tile.wall_tee_e");
    assert("tile.wall_tee_e"@.len() == 15);
    assert("tile.wall_tee_e"@[0] == 't');
    assert("tile.wall_tee_e"@[5] == 'w');
    assert("tile.wall_tee_e"@[10] == 't');
    assert("tile.wall_tee_e"@[14] == 'e');
    reveal_strlit("tile.wall_tee_w");
    assert("tile.wall_tee_w"@.len() == 15);
    assert("tile.wall_tee_w"@[0] == 't');
    assert("tile.wall_tee_w"@[5] == 'w');
    assert("tile.wall_tee_w"@[10] == 't');
    assert("tile.wall_tee_w"@[14] == 'w');
    reveal_strlit("tile.wall_cross");
    assert("tile.wall_cross"@.len() == 15);
    assert("tile.wall_cross"@[0] == 't');
    assert("tile.wall_cross"@[5] == 'w');
    assert("tile.wall_cross"@[10] == 'c');
    reveal_strlit("tile.floor");
    assert("tile.floor"@.len() == 10);
    assert("tile.floor"@[0] == 't');
    reveal_strlit("tile.door_h");
    assert("tile.door_h"@.len() == 11);
    assert("tile.door_h"@[0] == 't');
    assert("tile.door_h"@[5] == 'd');
    assert("tile.door_h"@[6] == 'o');
    assert("tile.door_h"@[10] == 'h');
    reveal_strlit("tile.door_v");
    assert("tile.door_v"@.len() == 11);
    assert("tile.door_v"@[0] == 't');
    assert("tile.door_v"@[5] == 'd');
    assert("tile.door_v"@[6] == 'o');
    assert("tile.door_v"@[10] == 'v');
    reveal_strlit("tile.door_n");
    assert("tile.door_n"@.len() == 11);
    assert("tile.door_n"@[0] == 't');
    assert("tile.door_n"@[5] == 'd');
    assert("tile.door_n"@[6] == 'o');
    assert("tile.door_n"@[10] == 'n');
    reveal_strlit("tile.door_e");
    assert("tile.door_e"@.len() == 11);
    assert("tile.door_e"@[0] == 't');
    assert("tile.door_e"@[5] == 'd');
    assert("tile.door_e"@[6] == 'o');
    assert("tile.door_e"@[10] == 'e');
    reveal_strlit("tile.door_s");
    assert("tile.door_s"@.len() == 11);
    assert("tile.door_s"@[0] == 't');
    assert("tile.door_s"@[5] == 'd');
    assert("tile.door_s"@[6] == 'o');
    assert("tile.door_s"@[10] == 's');
    reveal_strlit("tile.door_w");
    assert("tile.door_w"@.len() == 11);
    assert("tile.door_w"@[0] == 't');
    assert("tile.door_w"@[5] == 'd');
    assert("tile.door_w"@[6] == 'o');
    assert("tile.door_w"@[10] == 'w');
    reveal_strlit("tile.door_stub");
    assert("tile.door_stub"@.len() == 14);
    assert("tile.door_stub"@[0] == 't');
    assert("tile.door_stub"@[5] == 'd');
    assert("tile.door_stub"@[6] == 'o');
    reveal_strlit("tile.dash_h");
    assert("tile.dash_h"@.len() == 11);
    assert("tile.dash_h"@[0] == 't');
    assert("tile.dash_h"@[5] == 'd');
    assert("tile.dash_h"@[6] == 'a');
    assert("tile.dash_h"@[10] == 'h');
    reveal_strlit("tile.dash_v");
    assert("tile.dash_v"@.len() == 11);
    assert("tile.dash_v"@[0] == 't');
    assert("tile.dash_v"@[5] == 'd');
    assert("tile.dash_v"@[6] == 'a');
    assert("tile.dash_v"@[10] == 'v');
    reveal_strlit("tile.diag_up");
    assert("tile.diag_up"@.len() == 12);
    assert("tile.diag_up"@[0] == 't');
    assert("tile.diag_up"@[5] == 'd');
    reveal_strlit("tile.diag_down");
    assert("tile.diag_down"@.len() == 14);
    assert("tile.diag_down"@[0] == 't');
    assert("tile.diag_down"@[5] == 'd');
    assert("tile.diag_down"@[6] == 'i');
    reveal_strlit("tile.bridge");
    assert("tile.bridge"@.len() == 11);
    assert("tile.bridge"@[0] == 't');
    assert("tile.bridge"@[5] == 'b');
    reveal_strlit("tile.bridge_v");
    assert("tile.bridge_v"@.len() == 13);
    assert("tile.bridge_v"@[0] == 't');
    reveal_strlit("tile.stairs_up");
    assert("tile.stairs_up"@.len() == 14);
    assert("tile.stairs_up"@[0] == 't');
    assert("tile.stairs_up"@[5] == 's');
    reveal_strlit("tile.stairs_down");
    assert("tile.stairs_down"@.len() == 16);
    assert("tile.stairs_down"@[0] == 't');
    reveal_strlit("tile.portal_in");
    assert("tile.portal_in"@.len() == 14);
    assert("tile.portal_in"@[0] == 't');
    assert("tile.portal_in"@[5] == 'p');
    reveal_strlit("tile.portal_out");
    assert("tile.portal_out"@.len() == 15);
    assert("tile.portal_out"@[0] == 't');
    assert("tile.portal_out"@[5] == 'p');
    reveal_strlit("tile.player");
    assert("tile.player"@.len() == 11);
    assert("tile.player"@[0] == 't');
    assert("tile.player"@[5] == 'p');
    lemma_slot_cases(i);
}

/// After overrides with distinct keys, in key order, a slot holds the glyph of
/// the override that names it when that one is usable, and its old glyph
/// otherwise; the horizontal portal path and the diagonal switch stay.
pub(crate) proof fn lemma_overrides_read(s: SymbolSet, ps: Seq<(String, String)>, i: int)
    requires
        sorted_keys(ps),
        0 <= i < full_override_count(),
    ensures
        full_override_glyph(spec_apply_overrides(s, ps), i) == match lookup(ps, full_override_key(i)) {
            Some(v) => if valid_override(v@) {
                v@[0]
            } else {
                full_override_glyph(s, i)
            },
            None => full_override_glyph(s, i),
        },
        spec_apply_overrides(s, ps).portal.path_h == s.portal.path_h,
        spec_apply_overrides(s, ps).diagonal_corners == s.diagonal_corners,
    decreases ps.len(),
{
    if ps.len() > 0 {
        let k = ps[0].0@;
        let v = ps[0].1@;
        let next = if valid_override(v) {
            spec_apply_override(s, k, v[0])
        } else {
            s
        };
        lemma_sorted_tail(ps);
        lemma_overrides_read(next, ps.drop_first(), i);
        lemma_override_sets_one_slot(s, k, v[0], i);
        lemma_slot_of_key(i);
        lemma_override_slot_key(k);
    }
}

/// Entry `j` of the override entries of a full export: the key of slot `j`
/// and its glyph.
proof fn lemma_full_override_entry(set: SymbolSet, e: Seq<(String, String)>, j: int)
    requires
        full_overrides_ok(set, e),
        0 <= j < e.len(),
    ensures
        e[j].0@ == full_override_key(j),
        e[j].1@ == seq![full_override_glyph(set, j)],
    decreases e.len(),
{
    if j < e.len() - 1 {
        lemma_full_override_entry(set, e.drop_last(), j);
    }
}

/// Slot `i` of the set the export's symbol settings resolve to.
proof fn lemma_full_export_slot(doc: StyleDoc, cs: ColorScheme, set: SymbolSet, cfg: SymbolConfig, e: Seq<(String, String)>, i: int)
    requires
        e.len() == full_override_count(),
        full_overrides_ok(set, e),
        doc.symbols.overrides.pairs() == insert_all(Seq::<(String, String)>::empty(), e),
        is_finalized(doc.symbols, cfg),
        !spec_is_wide(full_override_glyph(set, i)),
        0 <= i < full_override_count(),
    ensures
        full_override_glyph(spec_resolve(cfg), i) == full_override_glyph(set, i),
        spec_resolve(cfg).portal.path_h == spec_preset_base(cfg).portal.path_h,
        spec_resolve(cfg).diagonal_corners == spec_preset_base(cfg).diagonal_corners,
{
    assert forall|a: int, b: int| 0 <= a < b < e.len() implies #[trigger] e[a].0@ != #[trigger] e[b].0@ by {
        lemma_full_override_entry(set, e, a);
        lemma_full_override_entry(set, e, b);
        lemma_slot_of_key(a);
        lemma_slot_of_key(b);
    }
    assert(distinct_keys(e));
    lemma_full_override_entry(set, e, i);
    lemma_insert_all_distinct(Seq::<(String, String)>::empty(), e, i);
    lemma_overrides_read(spec_preset_base(cfg), cfg.overrides.pairs(), i);
}


/// A full style export's symbol settings resolve to the symbol set the export
/// was written from, for every set whose glyphs the export can write: each
/// glyph is one character of single width, and the horizontal portal path,
/// which no override names, is the presets' `┄`.
pub proof fn lemma_full_export_symbols_read_back(doc: StyleDoc, cs: ColorScheme, set: SymbolSet, cfg: SymbolConfig)
    requires
        is_full_export(doc, cs, set),
        is_finalized(doc.symbols, cfg),
        set.portal.path_h == '┄',
        forall|i: int| 0 <= i < full_override_count() ==> !spec_is_wide(#[trigger] full_override_glyph(set, i)),
    ensures
        spec_resolve(cfg) == set,
{
    let e = choose|e: Seq<(String, String)>|
        #![trigger full_overrides_ok(set, e)]
        e.len() == full_override_count() && full_overrides_ok(set, e)
            && doc.symbols.overrides.pairs() == insert_all(Seq::<(String, String)>::empty(), e);
    let r = spec_resolve(cfg);
    lemma_full_export_slot(doc, cs, set, cfg, e, 0);
    lemma_full_export_slot(doc, cs, set, cfg, e, 1);
    lemma_full_export_slot(doc, cs, set, cfg, e, 2);
    lemma_full_export_slot(doc, cs, set, cfg, e, 3);
    lemma_full_export_slot(doc, cs, set, cfg, e, 4);
    lemma_full_export_slot(doc, cs, set, cfg, e, 5);
    lemma_full_export_slot(doc, cs, set, cfg, e, 6);
    lemma_full_export_slot(doc, cs, set, cfg, e, 7);
    lemma_full_export_slot(doc, cs, set, cfg, e, 8);
    lemma_full_export_slot(doc, cs, set, cfg, e, 9);
    lemma_full_export_slot(doc, cs, set, cfg, e, 10);
    lemma_full_export_slot(doc, cs, set, cfg, e, 11);
    lemma_full_export_slot(doc, cs, set, cfg, e, 12);
    lemma_full_export_slot(doc, cs, set, cfg, e, 13);
    lemma_full_export_slot(doc, cs, set, cfg, e, 14);
    lemma_full_export_slot(doc, cs, set, cfg, e, 15);
    lemma_full_export_slot(doc, cs, set, cfg, e, 16);
    lemma_full_export_slot(doc, cs, set, cfg, e, 17);
    lemma_full_export_slot(doc, cs, set, cfg, e, 18);
    lemma_full_export_slot(doc, cs, set, cfg, e, 19);
    lemma_full_export_slot(doc, cs, set, cfg, e, 20);
    lemma_full_export_slot(doc, cs, set, cfg, e, 21);
    lemma_full_export_slot(doc, cs, set, cfg, e, 22);
    lemma_full_export_slot(doc, cs, set, cfg, e, 23);
    lemma_full_export_slot(doc, cs, set, cfg, e, 24);
    lemma_full_export_slot(doc, cs, set, cfg, e, 25);
    lemma_full_export_slot(doc, cs, set, cfg, e, 26);
    lemma_full_export_slot(doc, cs, set, cfg, e, 27);
    lemma_full_export_slot(doc, cs, set, cfg, e, 28);
    lemma_full_export_slot(doc, cs, set, cfg, e, 29);
    lemma_full_export_slot(doc, cs, set, cfg, e, 30);
    lemma_full_export_slot(doc, cs, set, cfg, e, 31);
    lemma_full_export_slot(doc, cs, set, cfg, e, 32);
    lemma_full_export_slot(doc, cs, set, cfg, e, 33);
    lemma_full_export_slot(doc, cs, set, cfg, e, 34);
    lemma_full_export_slot(doc, cs, set, cfg, e, 35);
    lemma_full_export_slot(doc, cs, set, cfg, e, 36);
    lemma_full_export_slot(doc, cs, set, cfg, e, 37);
    lemma_full_export_slot(doc, cs, set, cfg, e, 38);
    lemma_full_export_slot(doc, cs, set, cfg, e, 39);
    lemma_full_export_slot(doc, cs, set, cfg, e, 40);
    lemma_full_export_slot(doc, cs, set, cfg, e, 41);
    lemma_full_export_slot(doc, cs, set, cfg, e, 42);
    lemma_full_export_slot(doc, cs, set, cfg, e, 43);
    lemma_full_export_slot(doc, cs, set, cfg, e, 44);
    lemma_full_export_slot(doc, cs, set, cfg, e, 45);
    lemma_full_export_slot(doc, cs, set, cfg, e, 46);
    lemma_full_export_slot(doc, cs, set, cfg, e, 47);
    lemma_full_export_slot(doc, cs, set, cfg, e, 48);
    lemma_full_export_slot(doc, cs, set, cfg, e, 49);
    lemma_full_export_slot(doc, cs, set, cfg, e, 50);
    lemma_full_export_slot(doc, cs, set, cfg, e, 51);
    lemma_full_export_slot(doc, cs, set, cfg, e, 52);
    lemma_full_export_slot(doc, cs, set, cfg, e, 53);
    lemma_full_export_slot(doc, cs, set, cfg, e, 54);
    lemma_full_export_slot(doc, cs, set, cfg, e, 55);
    lemma_full_export_slot(doc, cs, set, cfg, e, 56);
    lemma_full_export_slot(doc, cs, set, cfg, e, 57);
    lemma_full_export_slot(doc, cs, set, cfg, e, 58);
    lemma_full_export_slot(doc, cs, set, cfg, e, 59);
    lemma_full_export_slot(doc, cs, set, cfg, e, 60);
    lemma_full_export_slot(doc, cs, set, cfg, e, 61);
    lemma_full_export_slot(doc, cs, set, cfg, e, 62);
    lemma_full_export_slot(doc, cs, set, cfg, e, 63);
    lemma_full_export_slot(doc, cs, set, cfg, e, 64);
    lemma_full_export_slot(doc, cs, set, cfg, e, 65);
    lemma_full_export_slot(doc, cs, set, cfg, e, 66);
    lemma_full_export_slot(doc, cs, set, cfg, e, 67);
    lemma_full_export_slot(doc, cs, set, cfg, e, 68);
    lemma_full_export_slot(doc, cs, set, cfg, e, 69);
    lemma_full_export_slot(doc, cs, set, cfg, e, 70);
    lemma_full_export_slot(doc, cs, set, cfg, e, 71);
    lemma_full_export_slot(doc, cs, set, cfg, e, 72);
    lemma_full_export_slot(doc, cs, set, cfg, e, 73);
    lemma_full_export_slot(doc, cs, set, cfg, e, 74);
    lemma_full_export_slot(doc, cs, set, cfg, e, 75);
    lemma_full_export_slot(doc, cs, set, cfg, e, 76);
    lemma_full_export_slot(doc, cs, set, cfg, e, 77);
    lemma_full_export_slot(doc, cs, set, cfg, e, 78);
    lemma_full_export_slot(doc, cs, set, cfg, e, 79);
    lemma_full_export_slot(doc, cs, set, cfg, e, 80);
    lemma_full_export_slot(doc, cs, set, cfg, e, 81);
    lemma_full_export_slot(doc, cs, set, cfg, e, 82);
    lemma_full_export_slot(doc, cs, set, cfg, e, 83);
    lemma_full_export_slot(doc, cs, set, cfg, e, 84);
    lemma_full_export_slot(doc, cs, set, cfg, e, 85);
    assert(r.room_normal == set.room_normal);
    assert(r.room_current == set.room_current);
    assert(r.room_portal == set.room_portal);
    assert(r.room_selected == set.room_selected);
    assert(r.arrows == set.arrows);
    assert(r.path == set.path);
    assert(r.portal == set.portal);
    assert(r.tiles.walls == set.tiles.walls);
    assert(r.tiles == set.tiles);
}

} // verus!
