use babelmap::config::{
    default_badge_blorb, default_badge_glulx, default_badge_hint, default_badge_save, default_badge_zcode,
    default_diagonal_corners, SymbolConfig,
};
use babelmap::strmap::StrMap;
use babelmap::symbols::{is_wide_estimate, Arrows, BoxStyle, PathGlyphs, PortalGlyphs, SymbolSet};

#[test]
fn gutter_glyph_defaults_and_overrides() {
    let s = SymbolSet::default();
    assert_eq!(s.meta_gutter, '▏');
    assert_eq!(s.warning_gutter, '!');
    assert_eq!(SymbolSet::resolve(&SymbolConfig::default()), SymbolSet::default());
    let mut cfg = SymbolConfig::default();
    cfg.overrides.insert("gutter.meta".into(), "|".into());
    cfg.overrides.insert("gutter.warning".into(), "*".into());
    let r = SymbolSet::resolve(&cfg);
    assert_eq!(r.meta_gutter, '|');
    assert_eq!(r.warning_gutter, '*');
}

#[test]
fn tile_diag_defaults_and_selector_overrides() {
    let s = SymbolSet::default();
    assert_eq!((s.tiles.diag_up, s.tiles.diag_down), ('╱', '╲'));
    let mut cfg = SymbolConfig::default();
    cfg.overrides.insert("tile.diag_up".into(), "/".into());
    cfg.overrides.insert("tile.diag_down".into(), "\\".into());
    let r = SymbolSet::resolve(&cfg);
    assert_eq!((r.tiles.diag_up, r.tiles.diag_down), ('/', '\\'));
}

#[test]
fn default_matches_todays_glyphs() {
    let s = SymbolSet::default();
    assert_eq!((s.room_normal.tl, s.room_normal.br, s.room_normal.h), ('╭', '╯', '─'));
    assert_eq!((s.room_current.tl, s.room_current.v), ('┏', '┃'));
    assert_eq!((s.room_portal.tl, s.room_portal.v), ('╔', '║'));
    assert_eq!((s.room_selected.tl, s.room_selected.v), (s.room_normal.tl, s.room_normal.v));
    assert_eq!((s.arrows.north, s.arrows.east, s.arrows.ne), ('▲', '▶', '↗'));
    assert_eq!((s.path.ew, s.path.nesw, s.path.se), ('─', '┼', '┌'));
    assert_eq!(s.portal.marker, '●');
}

#[test]
fn presets_resolve_and_default_names_match_default_set() {
    assert_eq!(BoxStyle::preset("rounded"), Some(SymbolSet::default().room_normal));
    let ascii = BoxStyle::preset("ascii").unwrap();
    assert_eq!((ascii.tl, ascii.h, ascii.v), ('+', '-', '|'));
    let borderless = BoxStyle::preset("borderless").unwrap();
    assert_eq!(borderless.h, ' ');
    assert_eq!(Arrows::preset("filled"), Some(SymbolSet::default().arrows));
    assert_eq!(PathGlyphs::preset("light"), Some(SymbolSet::default().path));
    assert!(BoxStyle::preset("nonsense").is_none());
}

#[test]
fn resolve_default_config_equals_default_set() {
    let cfg = SymbolConfig::default();
    assert_eq!(SymbolSet::resolve(&cfg), SymbolSet::default());
}

#[test]
fn resolve_applies_preset_then_override() {
    let mut cfg = SymbolConfig::default();
    cfg.box_style = "ascii".into();
    cfg.overrides.insert("room.normal.tl".into(), "#".into());
    let s = SymbolSet::resolve(&cfg);
    assert_eq!(s.room_normal.tl, '#');
    assert_eq!(s.room_normal.h, '-');
}

#[test]
fn resolve_rejects_bad_width_override() {
    let mut cfg = SymbolConfig::default();
    cfg.overrides.insert("arrow.north".into(), "ab".into());
    cfg.overrides.insert("arrow.south".into(), "".into());
    let s = SymbolSet::resolve(&cfg);
    assert_eq!(s.arrows.north, SymbolSet::default().arrows.north);
    assert_eq!(s.arrows.south, SymbolSet::default().arrows.south);
}

#[test]
fn legacy_computing_diagonals_are_not_rejected_as_wide() {
    for cp in 0x1FBA0..=0x1FBAFu32 {
        let ch = char::from_u32(cp).unwrap();
        assert!(!is_wide_estimate(ch), "U+{cp:05X} {ch:?} must be accepted as narrow");
    }
    assert!(is_wide_estimate('\u{1F600}'), "emoji outside the carve-out stay rejected");
    assert!(is_wide_estimate('\u{1FB00}'), "0x1FB00 is below the carve-out and stays rejected");
}

#[test]
fn diagonal_slots_default_to_legacy_computing_and_accept_overrides() {
    let d = SymbolSet::default().path;
    assert_eq!((d.diag_ul, d.diag_ur, d.diag_ll, d.diag_lr), ('🮠', '🮡', '🮢', '🮣'));
    for name in PathGlyphs::preset_names() {
        let p = PathGlyphs::preset(name).unwrap();
        assert_eq!((p.diag_ul, p.diag_ur, p.diag_ll, p.diag_lr), ('🮠', '🮡', '🮢', '🮣'), "preset {name}");
    }
    let mut cfg = SymbolConfig::default();
    cfg.overrides.insert("path.diag_ul".into(), "🮣".into());
    cfg.overrides.insert("path.diag_lr".into(), "/".into());
    let s = SymbolSet::resolve(&cfg);
    assert_eq!(s.path.diag_ul, '🮣', "a Legacy Computing override is accepted");
    assert_eq!(s.path.diag_lr, '/', "an ASCII override is accepted");
}

#[test]
fn diagonal_corners_defaults_on_and_follows_config() {
    assert!(SymbolSet::default().diagonal_corners, "diagonals are on out of the box");
    assert!(SymbolSet::resolve(&SymbolConfig::default()).diagonal_corners);
    let cfg = SymbolConfig { diagonal_corners: false, ..Default::default() };
    assert!(!SymbolSet::resolve(&cfg).diagonal_corners);
}

#[test]
fn preset_names_cover_all_known_presets() {
    assert!(BoxStyle::preset_names().contains(&"ascii"));
    assert!(BoxStyle::preset_names().contains(&"rounded"));
    assert!(Arrows::preset_names().contains(&"filled"));
    assert!(PathGlyphs::preset_names().contains(&"light"));
    assert!(PortalGlyphs::preset_names().contains(&"ascii"));
}

#[test]
fn from_preset_names_matches_resolve() {
    let cfg = SymbolConfig {
        box_style: "ascii".into(),
        arrow_set: "filled".into(),
        portal_icons: "ascii".into(),
        path_style: "light".into(),
        badge_zcode: default_badge_zcode(),
        badge_glulx: default_badge_glulx(),
        badge_blorb: default_badge_blorb(),
        badge_save: default_badge_save(),
        badge_hint: default_badge_hint(),
        diagonal_corners: default_diagonal_corners(),
        overrides: StrMap::new(),
    };
    let expected = SymbolSet::resolve(&cfg);
    let got = SymbolSet::from_preset_names("ascii", "filled", "ascii", "light");
    assert_eq!(got, expected);
}

#[test]
fn nerdfont_stairs_portal_has_four_distinct_single_width_icons() {
    assert!(PortalGlyphs::preset_names().contains(&"nerdfont-stairs"));
    let p = PortalGlyphs::preset("nerdfont-stairs").unwrap();
    let four = [p.up, p.down, p.in_, p.out];
    for ch in four {
        assert!(!is_wide_estimate(ch));
    }
    assert_eq!(four.iter().collect::<std::collections::HashSet<_>>().len(), 4, "up/down/in/out must differ");
}

#[test]
fn nf_arrow_presets_exist_and_are_single_width() {
    for name in ["nf-bold", "nf-box", "nf-circle", "nf-outline"] {
        assert!(Arrows::preset_names().contains(&name), "{name} missing");
        let a = Arrows::preset(name).expect("preset");
        for ch in [a.north, a.south, a.east, a.west, a.ne, a.nw, a.se, a.sw] {
            assert!(!is_wide_estimate(ch), "{name}: wide char {:?}", ch);
        }
    }
    let b = Arrows::preset("nf-bold").unwrap();
    assert_eq!(b.north, '\u{F0737}');
    assert_eq!(b.south, '\u{F072E}');
    assert_eq!(b.east, '\u{F0734}');
    assert_eq!(b.west, '\u{F0731}');
    let bx = Arrows::preset("nf-box").unwrap();
    assert_eq!(bx.ne, '\u{F196A}');
    assert_eq!(bx.nw, '\u{F1968}');
    assert_eq!(bx.se, '\u{F1966}');
    assert_eq!(bx.sw, '\u{F1964}');
}
