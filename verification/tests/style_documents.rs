use std::collections::BTreeSet;
use babelmap::colors::{
    Align, BorderStyle, Color, ColorScheme, DialogPlacement, GhosttyScheme, Modifier, PaneSides, StatusBarLayout,
    Style,
};
use babelmap::config::{default_arrow_set, SymbolConfig};
use babelmap::strmap::StrMap;
use babelmap::style::{
    apply_color_decls, decl_to_style, describe_scheme, finalize_symbols, merge, parse_decl_from_table,
    parse_style_toml, resolve, selector_fields, selector_groups, style_for_selector, Decl, RawRule, RawSegment,
    StyleDoc, StyleSymbols, TomlValue, DEFAULT_STYLE_TOML,
};
use babelmap::symbols::SymbolSet;

fn decls_of(entries: Vec<(&str, Decl)>) -> StrMap<Decl> {
    let mut m = StrMap::new();
    for (k, d) in entries {
        m.insert(k.to_string(), d);
    }
    m
}

fn fg(c: &str) -> Decl {
    Decl { fg: Some(c.into()), ..Default::default() }
}

fn in_fields(sel: &str) -> bool {
    selector_fields().contains(&sel)
}

fn in_groups(sel: &str) -> bool {
    selector_groups().iter().any(|(_, s)| s.contains(&sel))
}

#[test]
fn per_side_overrides_and_header_apply() {
    let doc = parse_style_toml(
        "[colors]\n\
         \"map_border\" = { style = \"none\", style_left = \"single\", style_right = \"single\" }\n\
         \"story_border\" = { style = \"single\", style_top = \"thick\", header = false }\n",
    )
    .unwrap();
    let (cs, _set, warnings) = resolve(&doc);
    assert!(warnings.is_empty(), "{warnings:?}");
    assert_eq!(cs.map_border_sides.top, BorderStyle::NoBorder);
    assert_eq!(cs.map_border_sides.left, BorderStyle::Single);
    assert_eq!(cs.map_border_sides.right, BorderStyle::Single);
    assert_eq!(cs.story_border_sides.top, BorderStyle::Thick);
    assert_eq!(cs.story_border_sides.left, BorderStyle::Single);
    assert!(!cs.story_header_on);
}

#[test]
fn statusbar_block_parses_segments_and_border() {
    let text = r##"
[statusbar]
border = "single"
border_fg = "cyan"

[[statusbar.segment]]
text = "{location}"
align = "left"
fg = "cyan"
bold = true

[[statusbar.segment]]
text = "Score: {score}"
align = "right"
"##;
    let doc = parse_style_toml(text).unwrap();
    assert_eq!(doc.status_bar.border.as_deref(), Some("single"));
    assert_eq!(doc.status_bar.border_fg.as_deref(), Some("cyan"));
    assert_eq!(doc.status_bar.segments.len(), 2);
    assert_eq!(doc.status_bar.segments[0].text, "{location}");
    assert_eq!(doc.status_bar.segments[0].align, "left");
    assert_eq!(doc.status_bar.segments[0].decl.fg.as_deref(), Some("cyan"));
    assert_eq!(doc.status_bar.segments[0].decl.bold, Some(true));
    assert_eq!(doc.status_bar.segments[1].align, "right");
}

#[test]
fn map_tile_selectors_resolve_from_toml() {
    let text = r##"
[colors]
"map.tile.wall"        = { fg = "red" }
"map.tile.floor"       = { fg = "green", dim = true }
"map.tile.corridor"    = { fg = "blue" }
"map.tile.door"        = { fg = "magenta" }
"map.tile.bridge"      = { fg = "yellow" }
"map.tile.stairs"      = { fg = "white" }
"map.tile.chamber"     = { fg = "dark-gray" }
"map.tile.shadow"      = { fg = "black" }
"map.tile.player"      = { fg = "cyan", bold = true }
"map.tile.room-number" = { fg = "gray" }
"##;
    let doc = parse_style_toml(text).unwrap();
    let (cs, _set, warnings) = resolve(&doc);
    assert!(warnings.is_empty(), "all map.tile.* selectors are known: {warnings:?}");
    assert_eq!(cs.tile_wall.fg, Some(Color::Red));
    assert_eq!(cs.tile_floor.fg, Some(Color::Green));
    assert!(cs.tile_floor.add_modifier.contains(Modifier::dim_only()));
    assert_eq!(cs.tile_corridor.fg, Some(Color::Blue));
    assert_eq!(cs.tile_door.fg, Some(Color::Magenta));
    assert_eq!(cs.tile_bridge.fg, Some(Color::Yellow));
    assert_eq!(cs.tile_stairs.fg, Some(Color::White));
    assert_eq!(cs.tile_chamber.fg, Some(Color::DarkGray));
    assert_eq!(cs.tile_shadow.fg, Some(Color::Black));
    assert_eq!(cs.tile_player.fg, Some(Color::Cyan));
    assert!(cs.tile_player.add_modifier.contains(Modifier::bold_only()));
    assert_eq!(cs.tile_room_number.fg, Some(Color::Gray));
    for sel in ["map.tile.wall", "map.tile.floor", "map.tile.corridor", "map.tile.door",
                "map.tile.bridge", "map.tile.stairs", "map.tile.chamber", "map.tile.shadow",
                "map.tile.player", "map.tile.room-number"] {
        assert!(in_fields(sel), "{sel} missing from SELECTOR_FIELDS");
        assert!(in_groups(sel), "{sel} missing from SELECTOR_GROUPS");
    }
    assert_eq!(style_for_selector(&cs, "map.tile.wall").fg, Some(Color::Red));
}

#[test]
fn resolve_statusbar_segments_border_and_align() {
    let text = r##"
[statusbar]
border = "single"
border_fg = "cyan"
[[statusbar.segment]]
text = "{location}"
align = "left"
fg = "yellow"
[[statusbar.segment]]
text = "{title}"
align = "center"
[[statusbar.segment]]
text = "{score}"
align = "bogus"
"##;
    let doc = parse_style_toml(text).unwrap();
    let (cs, _set, warnings) = resolve(&doc);
    assert_eq!(cs.statusbar_layout.segments.len(), 3);
    assert!(matches!(cs.statusbar_layout.segments[0].align, Align::Left));
    assert!(matches!(cs.statusbar_layout.segments[1].align, Align::Center));
    assert!(matches!(cs.statusbar_layout.segments[2].align, Align::Left));
    assert_eq!(cs.statusbar_layout.segments[0].style.fg, Some(Color::Yellow));
    assert!(warnings.iter().any(|w| w.contains("align")), "unknown align warns: {warnings:?}");
    assert!(matches!(cs.status_header_style, BorderStyle::Single));
    assert_eq!(cs.status_header.fg, Some(Color::Cyan));
}

#[test]
fn resolve_no_statusbar_keeps_default_layout() {
    let (cs, _set, _w) = resolve(&StyleDoc::default());
    assert_eq!(cs.statusbar_layout, StatusBarLayout::default());
}

#[test]
fn merge_replaces_statusbar_segments_when_override_has_any() {
    let mut base = StyleDoc::default();
    base.status_bar.segments.push(RawSegment { text: "a".into(), align: "left".into(), decl: Decl::default() });
    let mut over = StyleDoc::default();
    over.status_bar.segments.push(RawSegment { text: "b".into(), align: "right".into(), decl: Decl::default() });
    over.status_bar.border = Some("double".into());
    let m = merge(&base, &over);
    assert_eq!(m.status_bar.segments.len(), 1);
    assert_eq!(m.status_bar.segments[0].text, "b");
    assert_eq!(m.status_bar.border.as_deref(), Some("double"));
    let m2 = merge(&base, &StyleDoc::default());
    assert_eq!(m2.status_bar.segments[0].text, "a");
}

#[test]
fn transcript_rules_parse_compile_in_order() {
    let text = r##"
[colors]
[[transcript.rule]]
match = "^>.*"
fg = "magenta"
bold = true

[[transcript.rule]]
match = "(?i)\\bgrue\\b"
fg = "red"
"##;
    let doc = parse_style_toml(text).unwrap();
    assert_eq!(doc.transcript_rules.len(), 2);
    assert_eq!(doc.transcript_rules[0].pattern, "^>.*");
    let (cs, _set, warnings) = resolve(&doc);
    assert!(warnings.is_empty(), "{warnings:?}");
    assert_eq!(cs.transcript_rules.len(), 2);
    assert!(cs.transcript_rules[0].regex.is_match("> go north"));
    assert!(cs.transcript_rules[1].regex.is_match("A lurking GRUE!"));
    assert_eq!(cs.transcript_rules[0].style.fg, Some(Color::Magenta));
}

#[test]
fn invalid_transcript_rule_warns_and_skips() {
    let text = r##"
[colors]
[[transcript.rule]]
match = "("
fg = "red"

[[transcript.rule]]
match = "ok"
fg = "green"
"##;
    let doc = parse_style_toml(text).unwrap();
    let (cs, _set, warnings) = resolve(&doc);
    assert_eq!(warnings.len(), 1, "exactly one invalid-regex warning: {warnings:?}");
    assert_eq!(cs.transcript_rules.len(), 1, "valid rule still loads");
    assert!(cs.transcript_rules[0].regex.is_match("ok"));
}

#[test]
fn merge_replaces_transcript_rules_when_override_has_any() {
    let mut base = StyleDoc::default();
    base.transcript_rules.push(RawRule { pattern: "a".into(), decl: Decl::default() });
    let mut over = StyleDoc::default();
    over.transcript_rules.push(RawRule { pattern: "b".into(), decl: Decl::default() });
    let m = merge(&base, &over);
    assert_eq!(m.transcript_rules.len(), 1);
    assert_eq!(m.transcript_rules[0].pattern, "b");
    let m2 = merge(&base, &StyleDoc::default());
    assert_eq!(m2.transcript_rules[0].pattern, "a");
}

#[test]
fn transcript_category_selectors_parse_and_apply() {
    let doc = parse_style_toml(
        "[colors]\n\
         \"transcript:input\" = { fg = \"green\" }\n\
         \"transcript:meta\" = { fg = \"blue\" }\n\
         \"transcript:warning\" = { fg = \"red\" }\n\
         \"transcript:location\" = { bold = true }\n\
         \"transcript:system\" = { fg = \"magenta\" }\n\
         \"warning_marker\" = { fg = \"red\" }\n",
    )
    .unwrap();
    let (cs, _set, warnings) = resolve(&doc);
    assert!(warnings.is_empty(), "{warnings:?}");
    assert_eq!(cs.transcript_input.fg, Some(Color::Green));
    assert_eq!(cs.transcript_meta.fg, Some(Color::Blue));
    assert_eq!(cs.transcript_warning.fg, Some(Color::Red));
    assert!(cs.transcript_location.add_modifier.contains(Modifier::bold_only()));
    assert_eq!(cs.transcript_system.fg, Some(Color::Magenta));
    assert_eq!(cs.warning_marker.fg, Some(Color::Red));
}

#[test]
fn decl_to_style_sets_fg_and_modifiers() {
    let scheme = GhosttyScheme::default();
    let d = Decl { fg: Some("cyan".into()), bold: Some(true), reversed: Some(true), ..Default::default() };
    let s = decl_to_style(&d, &scheme);
    assert_eq!(s.fg, Some(Color::Cyan));
    assert!(s.add_modifier.contains(Modifier::bold_only()));
    assert!(s.add_modifier.contains(Modifier::reversed_only()));
    assert_eq!(s.bg, None);
}

#[test]
fn crash_selector_maps_to_transcript_crash_field() {
    let scheme = GhosttyScheme::default();
    let mut cs = ColorScheme::terminal_default();
    let _ = style_for_selector(&cs, "transcript:crash");
    let decls = decls_of(vec![("transcript:crash", fg("red"))]);
    let warns = apply_color_decls(&mut cs, &decls, &scheme);
    assert!(warns.is_empty());
    assert_eq!(style_for_selector(&cs, "transcript:crash").fg, Some(Color::Red));
}

#[test]
fn hotkey_key_selector_round_trips() {
    let scheme = GhosttyScheme::default();
    let mut cs = ColorScheme::terminal_default();
    let _ = style_for_selector(&cs, "hotkey:key");
    let decls = decls_of(vec![("hotkey:key", Decl { fg: Some("magenta".into()), bold: Some(true), ..Default::default() })]);
    let warns = apply_color_decls(&mut cs, &decls, &scheme);
    assert!(warns.is_empty());
    let s = style_for_selector(&cs, "hotkey:key");
    assert_eq!(s.fg, Some(Color::Magenta));
    assert!(s.add_modifier.contains(Modifier::bold_only()));
    assert!(in_fields("hotkey:key"));
    assert!(in_groups("hotkey:key"));
}

#[test]
fn apply_color_decls_patches_correct_fields() {
    let scheme = GhosttyScheme::default();
    let mut cs = ColorScheme::terminal_default();
    let decls = decls_of(vec![
        ("connector", fg("magenta")),
        ("border:focused", Decl { fg: Some("yellow".into()), bold: Some(true), ..Default::default() }),
    ]);
    let warns = apply_color_decls(&mut cs, &decls, &scheme);
    assert!(warns.is_empty());
    assert_eq!(cs.connector.fg, Some(Color::Magenta));
    assert_eq!(cs.focused_border.fg, Some(Color::Yellow));
    assert!(cs.focused_border.add_modifier.contains(Modifier::bold_only()));
}

#[test]
fn decl_parses_placement_and_margin() {
    let t = vec![
        ("placement".to_string(), TomlValue::Str("bottom".into())),
        ("margin".to_string(), TomlValue::Int(2)),
    ];
    let d = parse_decl_from_table(&t);
    assert_eq!(d.placement.as_deref(), Some("bottom"));
    assert_eq!(d.margin, Some(2));
    let empty = vec![("fg".to_string(), TomlValue::Str("cyan".into()))];
    let d2 = parse_decl_from_table(&empty);
    assert_eq!(d2.placement, None);
    assert_eq!(d2.margin, None);
}

#[test]
fn apply_color_decls_resolves_dialog_placement_and_margin() {
    let scheme = GhosttyScheme::default();
    let cs0 = ColorScheme::terminal_default();
    assert_eq!(cs0.dialog_placement, DialogPlacement::Center);
    assert_eq!(cs0.dialog_margin, 0);

    let mut cs = ColorScheme::terminal_default();
    let decls = decls_of(vec![("dialog", Decl { placement: Some("top-right".into()), margin: Some(3), ..Default::default() })]);
    let warns = apply_color_decls(&mut cs, &decls, &scheme);
    assert!(warns.is_empty());
    assert_eq!(cs.dialog_placement, DialogPlacement::TopRight);
    assert_eq!(cs.dialog_margin, 3);

    let mut cs2 = ColorScheme::terminal_default();
    let decls2 = decls_of(vec![("dialog", Decl { placement: Some("nonsense".into()), ..Default::default() })]);
    apply_color_decls(&mut cs2, &decls2, &scheme);
    assert_eq!(cs2.dialog_placement, DialogPlacement::Center);
}

#[test]
fn apply_color_decls_warns_on_unknown_selector() {
    let scheme = GhosttyScheme::default();
    let mut cs = ColorScheme::terminal_default();
    let decls = decls_of(vec![("bogus", fg("red"))]);
    let warns = apply_color_decls(&mut cs, &decls, &scheme);
    assert_eq!(warns.len(), 1);
}

#[test]
fn finalize_symbols_fills_defaults_and_keeps_overrides() {
    let mut s = StyleSymbols::default();
    s.box_style = Some("thick".into());
    s.overrides.insert("arrow.north".into(), "^".into());
    let cfg = finalize_symbols(&s);
    assert_eq!(cfg.box_style, "thick");
    assert_eq!(cfg.arrow_set, default_arrow_set());
    assert_eq!(cfg.overrides.get("arrow.north").map(String::as_str), Some("^"));
    let _set = SymbolSet::resolve(&cfg);
}

#[test]
fn merge_override_only_affects_present_keys() {
    let mut base = StyleDoc::default();
    base.colors.selectors.insert("room".into(), fg("white"));
    base.colors.selectors.insert("connector".into(), fg("cyan"));
    base.symbols.box_style = Some("rounded".into());

    let mut over = StyleDoc::default();
    over.colors.selectors.insert("room".into(), fg("red"));

    let m = merge(&base, &over);
    assert_eq!(m.colors.selectors.get("room").unwrap().fg.as_deref(), Some("red"));
    assert_eq!(m.colors.selectors.get("connector").unwrap().fg.as_deref(), Some("cyan"));
    assert_eq!(m.symbols.box_style.as_deref(), Some("rounded"));
}

#[test]
fn merge_field_level_decl_patch() {
    let mut base = StyleDoc::default();
    base.colors.selectors.insert("room".into(), Decl { fg: Some("white".into()), bold: Some(true), ..Default::default() });
    let mut over = StyleDoc::default();
    over.colors.selectors.insert("room".into(), fg("red"));
    let m = merge(&base, &over);
    assert_eq!(m.colors.selectors.get("room").unwrap().fg.as_deref(), Some("red"));
    assert_eq!(m.colors.selectors.get("room").unwrap().bold, Some(true));
}

#[test]
fn loc_indicator_selector_parses() {
    let doc = parse_style_toml("[colors]\n\"loc_indicator\" = { fg = \"green\" }\n").unwrap();
    let (cs, _set, warnings) = resolve(&doc);
    assert!(warnings.is_empty(), "{warnings:?}");
    assert_eq!(cs.loc_indicator.fg, Some(Color::Green));
}

#[test]
fn resolve_terminal_default_with_selector_override() {
    let mut doc = StyleDoc::default();
    doc.colors.selectors.insert("connector".into(), fg("magenta"));
    let (cs, _set, warns) = resolve(&doc);
    assert!(warns.is_empty());
    assert_eq!(cs.connector.fg, Some(Color::Magenta));
    let def = ColorScheme::terminal_default();
    assert_eq!(cs.transcript, def.transcript);
}

#[test]
fn story_info_cover_selector_round_trips() {
    let mut cs = ColorScheme::default();
    cs.story_info_cover = Style::new().bg(Color::Rgb(10, 20, 30));
    assert_eq!(style_for_selector(&cs, "story_info:cover"), Style::new().bg(Color::Rgb(10, 20, 30)));
    assert!(in_fields("story_info:cover"));
    assert!(in_groups("story_info:cover"));
}

#[test]
fn inventory_dock_selector_round_trips() {
    let mut cs = ColorScheme::default();
    cs.inventory_dock = Style::new().fg(Color::Rgb(10, 20, 30));
    assert_eq!(style_for_selector(&cs, "inventory:dock"), Style::new().fg(Color::Rgb(10, 20, 30)));
    let scheme = GhosttyScheme::default();
    let decls = decls_of(vec![("inventory:dock", fg("magenta"))]);
    let mut cs2 = ColorScheme::terminal_default();
    let warnings = apply_color_decls(&mut cs2, &decls, &scheme);
    assert!(warnings.is_empty(), "{warnings:?}");
    assert_eq!(cs2.inventory_dock.fg, Some(Color::Magenta));
    assert!(in_fields("inventory:dock"));
    assert!(in_groups("inventory:dock"));
}

#[test]
fn graphics_selector_round_trips() {
    let mut cs = ColorScheme::default();
    cs.graphics = Style::new().bg(Color::Rgb(1, 2, 3));
    assert_eq!(style_for_selector(&cs, "graphics"), Style::new().bg(Color::Rgb(1, 2, 3)));
    assert!(in_fields("graphics"));
    assert!(in_groups("graphics"));
}

#[test]
fn inline_image_selector_round_trips() {
    let mut cs = ColorScheme::default();
    cs.inline_image = Style::new().bg(Color::Rgb(1, 2, 3));
    assert_eq!(style_for_selector(&cs, "inline_image"), Style::new().bg(Color::Rgb(1, 2, 3)));
    assert!(in_fields("inline_image"));
    assert!(in_groups("inline_image"));
}

#[test]
fn resolve_empty_doc_equals_terminal_default() {
    let doc = StyleDoc::default();
    let (cs, set, _w) = resolve(&doc);
    assert_eq!(cs, ColorScheme::terminal_default());
    assert_eq!(set, SymbolSet::resolve(&SymbolConfig::default()));
}

#[test]
fn parse_style_toml_reads_selectors_scheme_symbols() {
    let text = r##"
[colors]
scheme = "tomorrow-night"
"room" = { fg = "white" }
"room:current" = { reversed = true }
"suggestion" = { fg = "#7a7a7a" }

[symbols]
box_style = "rounded"
[symbols.overrides]
"arrow.north" = "^"
"##;
    let doc = parse_style_toml(text).unwrap();
    assert_eq!(doc.colors.scheme.as_deref(), Some("tomorrow-night"));
    assert_eq!(doc.colors.selectors.get("room").unwrap().fg.as_deref(), Some("white"));
    assert_eq!(doc.colors.selectors.get("room:current").unwrap().reversed, Some(true));
    assert_eq!(doc.colors.selectors.get("suggestion").unwrap().fg.as_deref(), Some("#7a7a7a"));
    assert_eq!(doc.symbols.box_style.as_deref(), Some("rounded"));
    assert_eq!(doc.symbols.overrides.get("arrow.north").unwrap(), "^");
}

#[test]
fn per_game_reset_freezes_over_global_color() {
    let global = parse_style_toml("[colors]\n\"room\" = { fg = \"white\" }\n[symbols]\n").unwrap();
    let per_game = parse_style_toml("[colors]\n\"room\" = { fg = \"reset\" }\n[symbols]\n").unwrap();
    let merged = merge(&global, &per_game);
    let (cs, _set, _w) = resolve(&merged);
    assert_eq!(cs.room_normal.fg, Some(Color::Reset),
        "per-game reset must win over the global color and resolve to terminal default");
}

#[test]
fn describe_scheme_lists_selectors_with_styles() {
    let cs = ColorScheme::terminal_default();
    let lines = describe_scheme(&cs);
    let texts: Vec<&str> = lines.iter().map(|(t, _)| t.as_str()).collect();
    assert!(texts.iter().any(|t| t.contains("Map")), "group title present");
    assert!(texts.iter().any(|t| t.contains("room:") && t.contains("fg=white") && t.contains("bg=reset")),
        "room line shows fg=white bg=reset");
    assert!(texts.iter().any(|t| t.contains("connector:") && t.contains("fg=cyan")),
        "connector line shows fg=cyan");
    assert!(texts.iter().any(|t| t.contains("map_layer_tab_active:") && t.contains("bold")),
        "an attribute is listed");
    let conn = lines.iter().find(|(t, _)| t.contains("connector:") && !t.contains("distorted") && !t.contains("portal")).unwrap();
    assert_eq!(conn.1, Some(style_for_selector(&cs, "connector")), "selector line carries its style");
    let hdr = lines.iter().find(|(t, _)| t.contains("Map") && !t.contains(':')).unwrap();
    assert_eq!(hdr.1, None, "group header has no style");
}

#[test]
fn resolve_sets_border_style_and_default_is_single() {
    let doc = parse_style_toml(DEFAULT_STYLE_TOML).unwrap();
    let (cs, _set, _w) = resolve(&doc);
    assert!(matches!(cs.map_border_style, BorderStyle::Single));
    assert!(matches!(cs.story_border_style, BorderStyle::Single));
}

#[test]
fn border_selector_reads_style_and_color() {
    let doc = parse_style_toml("[colors]\n\"map_border\" = { style = \"double\", fg = \"cyan\" }\n").unwrap();
    let (cs, _s, _w) = resolve(&doc);
    assert!(matches!(cs.map_border_style, BorderStyle::Double));
    assert_eq!(cs.map_border.fg, Some(Color::Cyan));
}

#[test]
fn dialog_selectors_resolve_with_box_style_and_default() {
    let doc = parse_style_toml(DEFAULT_STYLE_TOML).unwrap();
    let (cs, _s, _w) = resolve(&doc);
    assert!(matches!(cs.dialog_box_style, BorderStyle::Single));
    let d2 = parse_style_toml("[colors]\n\"dialog\" = { style = \"double\", bg = \"black\" }\n\"dialog:button\" = { fg = \"cyan\" }\n").unwrap();
    let (cs2, _s, _w) = resolve(&d2);
    assert!(matches!(cs2.dialog_box_style, BorderStyle::Double));
    assert_eq!(cs2.dialog_button.fg, Some(Color::Cyan));
}

#[test]
fn upper_window_selectors_parse_and_default() {
    let (cs, _, _) = resolve(&parse_style_toml(DEFAULT_STYLE_TOML).unwrap());
    assert_eq!(cs.virtual_window_border, BorderStyle::Single);
    let doc = parse_style_toml("[colors]\n\"upper_window\" = { fg = \"cyan\" }\n").unwrap();
    let (cs2, _, _) = resolve(&doc);
    assert_eq!(cs2.upper_window.fg, Some(Color::Cyan));
}

#[test]
fn sound_beep_selectors_parse_and_apply() {
    let doc = parse_style_toml(
        "[colors]\n\"sound_beep_high\" = { fg = \"red\" }\n\"sound_beep_low\" = { fg = \"blue\" }\n",
    )
    .unwrap();
    let (cs, _set, warnings) = resolve(&doc);
    assert!(warnings.is_empty(), "known selectors must not warn: {warnings:?}");
    assert_eq!(cs.sound_beep_high.fg, Some(Color::Red));
    assert_eq!(cs.sound_beep_low.fg, Some(Color::Blue));
}

#[test]
fn style_for_selector_reads_the_right_field() {
    let mut cs = ColorScheme::terminal_default();
    cs.room_current = Style::new().fg(Color::Green);
    assert_eq!(style_for_selector(&cs, "room:current").fg, Some(Color::Green));
    assert_eq!(style_for_selector(&cs, "nope"), Style::default());
}

#[test]
fn story_info_and_badge_selectors_are_grouped() {
    let groups = selector_groups();
    for sel in ["story_info", "story_info:title", "story_info:label", "story_info:value", "story_badge"] {
        assert!(in_fields(sel), "{sel} missing from SELECTOR_FIELDS");
        let count = groups.iter().filter(|(_, xs)| xs.contains(&sel)).count();
        assert_eq!(count, 1, "{sel} must be in exactly one group, found {count}");
    }
}

#[test]
fn story_badge_selector_reads_the_badge_style() {
    let mut cs = ColorScheme::terminal_default();
    cs.story_badge = Style::new().fg(Color::Black).bg(Color::Magenta);
    let got = style_for_selector(&cs, "story_badge");
    assert_eq!(got.bg, Some(Color::Magenta));
}

#[test]
fn selector_groups_cover_all_selector_fields() {
    let groups = selector_groups();
    let grouped: BTreeSet<&str> = groups.iter().flat_map(|(_, s)| s.iter().copied()).collect();
    for sel in selector_fields() {
        assert!(grouped.contains(sel), "selector {sel} missing from SELECTOR_GROUPS");
    }
}

#[test]
fn glyph_overrides_parse_and_resolve() {
    let toml = r#"[colors]
"map_border" = { style = "single", glyph_top = "═", glyph_tl = "╔" }
"#;
    let doc = parse_style_toml(toml).unwrap();
    let d = doc.colors.selectors.get("map_border").unwrap();
    assert_eq!(d.glyph_top.as_deref(), Some("═"));
    assert_eq!(d.glyph_tl.as_deref(), Some("╔"));
    let (cs, _set, _w) = resolve(&doc);
    assert_eq!(cs.map_border_glyphs.top.as_deref(), Some("═"));
    assert_eq!(cs.map_border_glyphs.tl.as_deref(), Some("╔"));
}

#[test]
fn suggestion_line_selector_sets_all_sides() {
    let doc = parse_style_toml("[colors]\n\"suggestion_line\" = { style = \"double\" }\n").unwrap();
    let (cs, _set, warnings) = resolve(&doc);
    assert!(warnings.is_empty(), "{warnings:?}");
    assert!(matches!(cs.suggestion_line_style, BorderStyle::Double));
    assert_eq!(cs.suggestion_line_sides, PaneSides::all(BorderStyle::Double));
    assert!(in_fields("suggestion_line"));
    assert!(in_groups("suggestion_line"));
}

#[test]
fn shared_path_selector_round_trips() {
    let mut cs = ColorScheme::default();
    cs.shared_path = Style::new().fg(Color::Rgb(255, 0, 255));
    assert_eq!(style_for_selector(&cs, "shared_path"), Style::new().fg(Color::Rgb(255, 0, 255)));
    assert!(in_fields("shared_path"));
    assert!(in_groups("shared_path"));
    let doc = parse_style_toml("[colors]\n\"shared_path\" = { fg = \"#ff00ff\" }\n").unwrap();
    let (cs2, _set, warnings) = resolve(&doc);
    assert!(warnings.is_empty(), "known selector must not warn: {warnings:?}");
    assert_eq!(cs2.shared_path.fg, Some(Color::Rgb(255, 0, 255)));
}
