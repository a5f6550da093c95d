//! Laws of resolving a symbol configuration into the map's glyph set.

use vstd::prelude::*;
use crate::config::SymbolConfig;
use crate::export_symbols::lemma_overrides_read;
use crate::style::{full_override_count, full_override_glyph, full_override_key};
use crate::symbols::{
    default_symbol_set, spec_arrows_preset, spec_boxstyle_preset, spec_pathglyphs_preset, spec_portalglyphs_preset,
    spec_preset_base, spec_resolve, valid_override, BoxStyle,
};

verus! {

/// The box-style preset a configuration names draws the rooms whose glyphs
/// it does not override: a plain room with no `room.normal.*` override and a
/// selected room with no `room.selected.*` override are both drawn in exactly
/// that preset.
pub proof fn lemma_box_style_draws_plain_and_selected_rooms(cfg: SymbolConfig, b: BoxStyle)
    requires
        cfg.overrides.wf(),
        spec_boxstyle_preset(cfg.box_style@) == Some(b),
    ensures
        ({
            &&& cfg.overrides.get_spec("room.selected.tl"@) is None
            &&& cfg.overrides.get_spec("room.selected.tr"@) is None
            &&& cfg.overrides.get_spec("room.selected.bl"@) is None
            &&& cfg.overrides.get_spec("room.selected.br"@) is None
            &&& cfg.overrides.get_spec("room.selected.h"@) is None
            &&& cfg.overrides.get_spec("room.selected.v"@) is None
        }) ==> spec_resolve(cfg).room_selected == b,
        ({
            &&& cfg.overrides.get_spec("room.normal.tl"@) is None
            &&& cfg.overrides.get_spec("room.normal.tr"@) is None
            &&& cfg.overrides.get_spec("room.normal.bl"@) is None
            &&& cfg.overrides.get_spec("room.normal.br"@) is None
            &&& cfg.overrides.get_spec("room.normal.h"@) is None
            &&& cfg.overrides.get_spec("room.normal.v"@) is None
        }) ==> spec_resolve(cfg).room_normal == b,
{
    let base = spec_preset_base(cfg);
    let ps = cfg.overrides.pairs();
    let r = spec_resolve(cfg);
    assert forall|i: int| 0 <= i < 24 implies #[trigger] full_override_glyph(r, i) == full_override_glyph(base, i)
        || cfg.overrides.get_spec(full_override_key(i)) is Some by {
        lemma_overrides_read(base, ps, i);
    }
    assert(full_override_glyph(r, 0) == full_override_glyph(base, 0) || cfg.overrides.get_spec(full_override_key(0)) is Some);
    assert(full_override_glyph(r, 1) == full_override_glyph(base, 1) || cfg.overrides.get_spec(full_override_key(1)) is Some);
    assert(full_override_glyph(r, 2) == full_override_glyph(base, 2) || cfg.overrides.get_spec(full_override_key(2)) is Some);
    assert(full_override_glyph(r, 3) == full_override_glyph(base, 3) || cfg.overrides.get_spec(full_override_key(3)) is Some);
    assert(full_override_glyph(r, 4) == full_override_glyph(base, 4) || cfg.overrides.get_spec(full_override_key(4)) is Some);
    assert(full_override_glyph(r, 5) == full_override_glyph(base, 5) || cfg.overrides.get_spec(full_override_key(5)) is Some);
    assert(full_override_glyph(r, 18) == full_override_glyph(base, 18) || cfg.overrides.get_spec(full_override_key(18)) is Some);
    assert(full_override_glyph(r, 19) == full_override_glyph(base, 19) || cfg.overrides.get_spec(full_override_key(19)) is Some);
    assert(full_override_glyph(r, 20) == full_override_glyph(base, 20) || cfg.overrides.get_spec(full_override_key(20)) is Some);
    assert(full_override_glyph(r, 21) == full_override_glyph(base, 21) || cfg.overrides.get_spec(full_override_key(21)) is Some);
    assert(full_override_glyph(r, 22) == full_override_glyph(base, 22) || cfg.overrides.get_spec(full_override_key(22)) is Some);
    assert(full_override_glyph(r, 23) == full_override_glyph(base, 23) || cfg.overrides.get_spec(full_override_key(23)) is Some);
}

/// No override of `cfg` names a glyph slot numbered `lo` up to `hi - 1`, the
/// slots counted in the order of [`full_override_key`]: 0 to 5 are
/// `room.normal.*`, 6 to 11 `room.current.*`, 12 to 17 `room.portal.*`, 18 to
/// 23 `room.selected.*`, 24 to 31 `arrow.*`, 32 to 46 `path.*`, 47 to 53
/// `portal.*`, 54 and 55 the gutters and 56 to 85 `tile.*`.
pub open spec fn no_override_in(cfg: SymbolConfig, lo: int, hi: int) -> bool {
    forall|i: int| lo <= i < hi ==> #[trigger] cfg.overrides.get_spec(full_override_key(i)) is None
}

proof fn lemma_unoverridden_room_normal(cfg: SymbolConfig)
    requires
        cfg.overrides.wf(),
        no_override_in(cfg, 0, 6),
    ensures
        forall|i: int| 0 <= i < 6 ==> #[trigger] full_override_glyph(spec_resolve(cfg), i) == full_override_glyph(spec_preset_base(cfg), i),
{
    let base = spec_preset_base(cfg);
    let ps = cfg.overrides.pairs();
    lemma_overrides_read(base, ps, 0);
    lemma_overrides_read(base, ps, 1);
    lemma_overrides_read(base, ps, 2);
    lemma_overrides_read(base, ps, 3);
    lemma_overrides_read(base, ps, 4);
    lemma_overrides_read(base, ps, 5);
    assert forall|i: int| 0 <= i < 6 implies #[trigger] full_override_glyph(spec_resolve(cfg), i) == full_override_glyph(base, i) by {
        lemma_overrides_read(base, ps, i);
        assert(cfg.overrides.get_spec(full_override_key(i)) is None);
    }
}

proof fn lemma_unoverridden_room_current(cfg: SymbolConfig)
    requires
        cfg.overrides.wf(),
        no_override_in(cfg, 6, 12),
    ensures
        forall|i: int| 6 <= i < 12 ==> #[trigger] full_override_glyph(spec_resolve(cfg), i) == full_override_glyph(spec_preset_base(cfg), i),
{
    let base = spec_preset_base(cfg);
    let ps = cfg.overrides.pairs();
    lemma_overrides_read(base, ps, 6);
    lemma_overrides_read(base, ps, 7);
    lemma_overrides_read(base, ps, 8);
    lemma_overrides_read(base, ps, 9);
    lemma_overrides_read(base, ps, 10);
    lemma_overrides_read(base, ps, 11);
    assert forall|i: int| 6 <= i < 12 implies #[trigger] full_override_glyph(spec_resolve(cfg), i) == full_override_glyph(base, i) by {
        lemma_overrides_read(base, ps, i);
        assert(cfg.overrides.get_spec(full_override_key(i)) is None);
    }
}

proof fn lemma_unoverridden_room_portal(cfg: SymbolConfig)
    requires
        cfg.overrides.wf(),
        no_override_in(cfg, 12, 18),
    ensures
        forall|i: int| 12 <= i < 18 ==> #[trigger] full_override_glyph(spec_resolve(cfg), i) == full_override_glyph(spec_preset_base(cfg), i),
{
    let base = spec_preset_base(cfg);
    let ps = cfg.overrides.pairs();
    lemma_overrides_read(base, ps, 12);
    lemma_overrides_read(base, ps, 13);
    lemma_overrides_read(base, ps, 14);
    lemma_overrides_read(base, ps, 15);
    lemma_overrides_read(base, ps, 16);
    lemma_overrides_read(base, ps, 17);
    assert forall|i: int| 12 <= i < 18 implies #[trigger] full_override_glyph(spec_resolve(cfg), i) == full_override_glyph(base, i) by {
        lemma_overrides_read(base, ps, i);
        assert(cfg.overrides.get_spec(full_override_key(i)) is None);
    }
}

proof fn lemma_unoverridden_room_selected(cfg: SymbolConfig)
    requires
        cfg.overrides.wf(),
        no_override_in(cfg, 18, 24),
    ensures
        forall|i: int| 18 <= i < 24 ==> #[trigger] full_override_glyph(spec_resolve(cfg), i) == full_override_glyph(spec_preset_base(cfg), i),
{
    let base = spec_preset_base(cfg);
    let ps = cfg.overrides.pairs();
    lemma_overrides_read(base, ps, 18);
    lemma_overrides_read(base, ps, 19);
    lemma_overrides_read(base, ps, 20);
    lemma_overrides_read(base, ps, 21);
    lemma_overrides_read(base, ps, 22);
    lemma_overrides_read(base, ps, 23);
    assert forall|i: int| 18 <= i < 24 implies #[trigger] full_override_glyph(spec_resolve(cfg), i) == full_override_glyph(base, i) by {
        lemma_overrides_read(base, ps, i);
        assert(cfg.overrides.get_spec(full_override_key(i)) is None);
    }
}

proof fn lemma_unoverridden_arrows(cfg: SymbolConfig)
    requires
        cfg.overrides.wf(),
        no_override_in(cfg, 24, 32),
    ensures
        forall|i: int| 24 <= i < 32 ==> #[trigger] full_override_glyph(spec_resolve(cfg), i) == full_override_glyph(spec_preset_base(cfg), i),
{
    let base = spec_preset_base(cfg);
    let ps = cfg.overrides.pairs();
    lemma_overrides_read(base, ps, 24);
    lemma_overrides_read(base, ps, 25);
    lemma_overrides_read(base, ps, 26);
    lemma_overrides_read(base, ps, 27);
    lemma_overrides_read(base, ps, 28);
    lemma_overrides_read(base, ps, 29);
    lemma_overrides_read(base, ps, 30);
    lemma_overrides_read(base, ps, 31);
    assert forall|i: int| 24 <= i < 32 implies #[trigger] full_override_glyph(spec_resolve(cfg), i) == full_override_glyph(base, i) by {
        lemma_overrides_read(base, ps, i);
        assert(cfg.overrides.get_spec(full_override_key(i)) is None);
    }
}

proof fn lemma_unoverridden_path(cfg: SymbolConfig)
    requires
        cfg.overrides.wf(),
        no_override_in(cfg, 32, 47),
    ensures
        forall|i: int| 32 <= i < 47 ==> #[trigger] full_override_glyph(spec_resolve(cfg), i) == full_override_glyph(spec_preset_base(cfg), i),
{
    let base = spec_preset_base(cfg);
    let ps = cfg.overrides.pairs();
    lemma_overrides_read(base, ps, 32);
    lemma_overrides_read(base, ps, 33);
    lemma_overrides_read(base, ps, 34);
    lemma_overrides_read(base, ps, 35);
    lemma_overrides_read(base, ps, 36);
    lemma_overrides_read(base, ps, 37);
    lemma_overrides_read(base, ps, 38);
    lemma_overrides_read(base, ps, 39);
    lemma_overrides_read(base, ps, 40);
    lemma_overrides_read(base, ps, 41);
    lemma_overrides_read(base, ps, 42);
    lemma_overrides_read(base, ps, 43);
    lemma_overrides_read(base, ps, 44);
    lemma_overrides_read(base, ps, 45);
    lemma_overrides_read(base, ps, 46);
    assert forall|i: int| 32 <= i < 47 implies #[trigger] full_override_glyph(spec_resolve(cfg), i) == full_override_glyph(base, i) by {
        lemma_overrides_read(base, ps, i);
        assert(cfg.overrides.get_spec(full_override_key(i)) is None);
    }
}

proof fn lemma_unoverridden_portal(cfg: SymbolConfig)
    requires
        cfg.overrides.wf(),
        no_override_in(cfg, 47, 54),
    ensures
        forall|i: int| 47 <= i < 54 ==> #[trigger] full_override_glyph(spec_resolve(cfg), i) == full_override_glyph(spec_preset_base(cfg), i),
{
    let base = spec_preset_base(cfg);
    let ps = cfg.overrides.pairs();
    lemma_overrides_read(base, ps, 47);
    lemma_overrides_read(base, ps, 48);
    lemma_overrides_read(base, ps, 49);
    lemma_overrides_read(base, ps, 50);
    lemma_overrides_read(base, ps, 51);
    lemma_overrides_read(base, ps, 52);
    lemma_overrides_read(base, ps, 53);
    assert forall|i: int| 47 <= i < 54 implies #[trigger] full_override_glyph(spec_resolve(cfg), i) == full_override_glyph(base, i) by {
        lemma_overrides_read(base, ps, i);
        assert(cfg.overrides.get_spec(full_override_key(i)) is None);
    }
}

proof fn lemma_unoverridden_gutters(cfg: SymbolConfig)
    requires
        cfg.overrides.wf(),
        no_override_in(cfg, 54, 56),
    ensures
        forall|i: int| 54 <= i < 56 ==> #[trigger] full_override_glyph(spec_resolve(cfg), i) == full_override_glyph(spec_preset_base(cfg), i),
{
    let base = spec_preset_base(cfg);
    let ps = cfg.overrides.pairs();
    lemma_overrides_read(base, ps, 54);
    lemma_overrides_read(base, ps, 55);
    assert forall|i: int| 54 <= i < 56 implies #[trigger] full_override_glyph(spec_resolve(cfg), i) == full_override_glyph(base, i) by {
        lemma_overrides_read(base, ps, i);
        assert(cfg.overrides.get_spec(full_override_key(i)) is None);
    }
}

proof fn lemma_unoverridden_tiles(cfg: SymbolConfig)
    requires
        cfg.overrides.wf(),
        no_override_in(cfg, 56, 86),
    ensures
        forall|i: int| 56 <= i < 86 ==> #[trigger] full_override_glyph(spec_resolve(cfg), i) == full_override_glyph(spec_preset_base(cfg), i),
{
    let base = spec_preset_base(cfg);
    let ps = cfg.overrides.pairs();
    lemma_overrides_read(base, ps, 56);
    lemma_overrides_read(base, ps, 57);
    lemma_overrides_read(base, ps, 58);
    lemma_overrides_read(base, ps, 59);
    lemma_overrides_read(base, ps, 60);
    lemma_overrides_read(base, ps, 61);
    lemma_overrides_read(base, ps, 62);
    lemma_overrides_read(base, ps, 63);
    lemma_overrides_read(base, ps, 64);
    lemma_overrides_read(base, ps, 65);
    lemma_overrides_read(base, ps, 66);
    lemma_overrides_read(base, ps, 67);
    lemma_overrides_read(base, ps, 68);
    lemma_overrides_read(base, ps, 69);
    lemma_overrides_read(base, ps, 70);
    lemma_overrides_read(base, ps, 71);
    lemma_overrides_read(base, ps, 72);
    lemma_overrides_read(base, ps, 73);
    lemma_overrides_read(base, ps, 74);
    lemma_overrides_read(base, ps, 75);
    lemma_overrides_read(base, ps, 76);
    lemma_overrides_read(base, ps, 77);
    lemma_overrides_read(base, ps, 78);
    lemma_overrides_read(base, ps, 79);
    lemma_overrides_read(base, ps, 80);
    lemma_overrides_read(base, ps, 81);
    lemma_overrides_read(base, ps, 82);
    lemma_overrides_read(base, ps, 83);
    lemma_overrides_read(base, ps, 84);
    lemma_overrides_read(base, ps, 85);
    assert forall|i: int| 56 <= i < 86 implies #[trigger] full_override_glyph(spec_resolve(cfg), i) == full_override_glyph(base, i) by {
        lemma_overrides_read(base, ps, i);
        assert(cfg.overrides.get_spec(full_override_key(i)) is None);
    }
}

/// Resolving a symbol configuration, slot by slot: an override that is one
/// narrow character sets its slot, and a slot with no usable override keeps
/// the glyph of the configured presets.
pub proof fn lemma_resolve_override_slot(cfg: SymbolConfig, i: int)
    requires
        cfg.overrides.wf(),
        0 <= i < full_override_count(),
    ensures
        full_override_glyph(spec_resolve(cfg), i) == match cfg.overrides.get_spec(full_override_key(i)) {
            Some(v) => if valid_override(v@) {
                v@[0]
            } else {
                full_override_glyph(spec_preset_base(cfg), i)
            },
            None => full_override_glyph(spec_preset_base(cfg), i),
        },
{
    lemma_overrides_read(spec_preset_base(cfg), cfg.overrides.pairs(), i);
}

/// Each glyph category of a resolved configuration comes from the preset its
/// name selects (the category's default for a name that is no preset) unless
/// an override names one of its slots; the current and portal rooms' boxes,
/// the gutters and the tiles come from the defaults, the box-style preset
/// applying to plain and selected rooms only; the diagonal-corner switch is
/// the configuration's.
pub proof fn lemma_resolve_uses_presets(cfg: SymbolConfig)
    requires
        cfg.overrides.wf(),
    ensures
        ({
            let r = spec_resolve(cfg);
            let d = default_symbol_set();
            &&& r.diagonal_corners == cfg.diagonal_corners
            &&& no_override_in(cfg, 0, 6) ==> r.room_normal == match spec_boxstyle_preset(cfg.box_style@) {
                Some(b) => b,
                None => d.room_normal,
            }
            &&& no_override_in(cfg, 6, 12) ==> r.room_current == d.room_current
            &&& no_override_in(cfg, 12, 18) ==> r.room_portal == d.room_portal
            &&& no_override_in(cfg, 18, 24) ==> r.room_selected == match spec_boxstyle_preset(cfg.box_style@) {
                Some(b) => b,
                None => d.room_selected,
            }
            &&& no_override_in(cfg, 24, 32) ==> r.arrows == match spec_arrows_preset(cfg.arrow_set@) {
                Some(a) => a,
                None => d.arrows,
            }
            &&& no_override_in(cfg, 32, 47) ==> r.path == match spec_pathglyphs_preset(cfg.path_style@) {
                Some(p) => p,
                None => d.path,
            }
            &&& no_override_in(cfg, 47, 54) ==> r.portal == match spec_portalglyphs_preset(cfg.portal_icons@) {
                Some(p) => p,
                None => d.portal,
            }
            &&& no_override_in(cfg, 54, 56) ==> r.meta_gutter == d.meta_gutter && r.warning_gutter == d.warning_gutter
            &&& no_override_in(cfg, 56, 86) ==> r.tiles == d.tiles
        }),
{
    let base = spec_preset_base(cfg);
    let r = spec_resolve(cfg);
    lemma_overrides_read(base, cfg.overrides.pairs(), 0);
    if no_override_in(cfg, 0, 6) {
        lemma_unoverridden_room_normal(cfg);
        assert(full_override_glyph(r, 0) == full_override_glyph(base, 0));
        assert(full_override_glyph(r, 1) == full_override_glyph(base, 1));
        assert(full_override_glyph(r, 2) == full_override_glyph(base, 2));
        assert(full_override_glyph(r, 3) == full_override_glyph(base, 3));
        assert(full_override_glyph(r, 4) == full_override_glyph(base, 4));
        assert(full_override_glyph(r, 5) == full_override_glyph(base, 5));
    }
    if no_override_in(cfg, 6, 12) {
        lemma_unoverridden_room_current(cfg);
        assert(full_override_glyph(r, 6) == full_override_glyph(base, 6));
        assert(full_override_glyph(r, 7) == full_override_glyph(base, 7));
        assert(full_override_glyph(r, 8) == full_override_glyph(base, 8));
        assert(full_override_glyph(r, 9) == full_override_glyph(base, 9));
        assert(full_override_glyph(r, 10) == full_override_glyph(base, 10));
        assert(full_override_glyph(r, 11) == full_override_glyph(base, 11));
    }
    if no_override_in(cfg, 12, 18) {
        lemma_unoverridden_room_portal(cfg);
        assert(full_override_glyph(r, 12) == full_override_glyph(base, 12));
        assert(full_override_glyph(r, 13) == full_override_glyph(base, 13));
        assert(full_override_glyph(r, 14) == full_override_glyph(base, 14));
        assert(full_override_glyph(r, 15) == full_override_glyph(base, 15));
        assert(full_override_glyph(r, 16) == full_override_glyph(base, 16));
        assert(full_override_glyph(r, 17) == full_override_glyph(base, 17));
    }
    if no_override_in(cfg, 18, 24) {
        lemma_unoverridden_room_selected(cfg);
        assert(full_override_glyph(r, 18) == full_override_glyph(base, 18));
        assert(full_override_glyph(r, 19) == full_override_glyph(base, 19));
        assert(full_override_glyph(r, 20) == full_override_glyph(base, 20));
        assert(full_override_glyph(r, 21) == full_override_glyph(base, 21));
        assert(full_override_glyph(r, 22) == full_override_glyph(base, 22));
        assert(full_override_glyph(r, 23) == full_override_glyph(base, 23));
    }
    if no_override_in(cfg, 24, 32) {
        lemma_unoverridden_arrows(cfg);
        assert(full_override_glyph(r, 24) == full_override_glyph(base, 24));
        assert(full_override_glyph(r, 25) == full_override_glyph(base, 25));
        assert(full_override_glyph(r, 26) == full_override_glyph(base, 26));
        assert(full_override_glyph(r, 27) == full_override_glyph(base, 27));
        assert(full_override_glyph(r, 28) == full_override_glyph(base, 28));
        assert(full_override_glyph(r, 29) == full_override_glyph(base, 29));
        assert(full_override_glyph(r, 30) == full_override_glyph(base, 30));
        assert(full_override_glyph(r, 31) == full_override_glyph(base, 31));
    }
    if no_override_in(cfg, 32, 47) {
        lemma_unoverridden_path(cfg);
        assert(full_override_glyph(r, 32) == full_override_glyph(base, 32));
        assert(full_override_glyph(r, 33) == full_override_glyph(base, 33));
        assert(full_override_glyph(r, 34) == full_override_glyph(base, 34));
        assert(full_override_glyph(r, 35) == full_override_glyph(base, 35));
        assert(full_override_glyph(r, 36) == full_override_glyph(base, 36));
        assert(full_override_glyph(r, 37) == full_override_glyph(base, 37));
        assert(full_override_glyph(r, 38) == full_override_glyph(base, 38));
        assert(full_override_glyph(r, 39) == full_override_glyph(base, 39));
        assert(full_override_glyph(r, 40) == full_override_glyph(base, 40));
        assert(full_override_glyph(r, 41) == full_override_glyph(base, 41));
        assert(full_override_glyph(r, 42) == full_override_glyph(base, 42));
        assert(full_override_glyph(r, 43) == full_override_glyph(base, 43));
        assert(full_override_glyph(r, 44) == full_override_glyph(base, 44));
        assert(full_override_glyph(r, 45) == full_override_glyph(base, 45));
        assert(full_override_glyph(r, 46) == full_override_glyph(base, 46));
    }
    if no_override_in(cfg, 47, 54) {
        lemma_unoverridden_portal(cfg);
        assert(full_override_glyph(r, 47) == full_override_glyph(base, 47));
        assert(full_override_glyph(r, 48) == full_override_glyph(base, 48));
        assert(full_override_glyph(r, 49) == full_override_glyph(base, 49));
        assert(full_override_glyph(r, 50) == full_override_glyph(base, 50));
        assert(full_override_glyph(r, 51) == full_override_glyph(base, 51));
        assert(full_override_glyph(r, 52) == full_override_glyph(base, 52));
        assert(full_override_glyph(r, 53) == full_override_glyph(base, 53));
    }
    if no_override_in(cfg, 54, 56) {
        lemma_unoverridden_gutters(cfg);
        assert(full_override_glyph(r, 54) == full_override_glyph(base, 54));
        assert(full_override_glyph(r, 55) == full_override_glyph(base, 55));
    }
    if no_override_in(cfg, 56, 86) {
        lemma_unoverridden_tiles(cfg);
        assert(full_override_glyph(r, 56) == full_override_glyph(base, 56));
        assert(full_override_glyph(r, 57) == full_override_glyph(base, 57));
        assert(full_override_glyph(r, 58) == full_override_glyph(base, 58));
        assert(full_override_glyph(r, 59) == full_override_glyph(base, 59));
        assert(full_override_glyph(r, 60) == full_override_glyph(base, 60));
        assert(full_override_glyph(r, 61) == full_override_glyph(base, 61));
        assert(full_override_glyph(r, 62) == full_override_glyph(base, 62));
        assert(full_override_glyph(r, 63) == full_override_glyph(base, 63));
        assert(full_override_glyph(r, 64) == full_override_glyph(base, 64));
        assert(full_override_glyph(r, 65) == full_override_glyph(base, 65));
        assert(full_override_glyph(r, 66) == full_override_glyph(base, 66));
        assert(full_override_glyph(r, 67) == full_override_glyph(base, 67));
        assert(full_override_glyph(r, 68) == full_override_glyph(base, 68));
        assert(full_override_glyph(r, 69) == full_override_glyph(base, 69));
        assert(full_override_glyph(r, 70) == full_override_glyph(base, 70));
        assert(full_override_glyph(r, 71) == full_override_glyph(base, 71));
        assert(full_override_glyph(r, 72) == full_override_glyph(base, 72));
        assert(full_override_glyph(r, 73) == full_override_glyph(base, 73));
        assert(full_override_glyph(r, 74) == full_override_glyph(base, 74));
        assert(full_override_glyph(r, 75) == full_override_glyph(base, 75));
        assert(full_override_glyph(r, 76) == full_override_glyph(base, 76));
        assert(full_override_glyph(r, 77) == full_override_glyph(base, 77));
        assert(full_override_glyph(r, 78) == full_override_glyph(base, 78));
        assert(full_override_glyph(r, 79) == full_override_glyph(base, 79));
        assert(full_override_glyph(r, 80) == full_override_glyph(base, 80));
        assert(full_override_glyph(r, 81) == full_override_glyph(base, 81));
        assert(full_override_glyph(r, 82) == full_override_glyph(base, 82));
        assert(full_override_glyph(r, 83) == full_override_glyph(base, 83));
        assert(full_override_glyph(r, 84) == full_override_glyph(base, 84));
        assert(full_override_glyph(r, 85) == full_override_glyph(base, 85));
    }
}

} // verus!
