use babelmap::colors::{
    border_style_name, parse_border_style, parse_color_value, BorderStyle, Color, ColorScheme, DialogPlacement,
    GhosttyScheme, Modifier, Style,
};
use babelmap::config::SymbolConfig;
use babelmap::strmap::StrMap;
use babelmap::style::{
    apply_color_decls, style_for_selector,
    color_to_str, decl_to_style, default_style_doc, full_style_doc, merge, parse_style_toml, resolve,
    style_after_read, style_to_decl, Decl, StyleDoc, StyleRead, DEFAULT_STYLE_TOML,
};
use babelmap::symbols::SymbolSet;

#[test]
fn color_values_parse_names_hex_indices_and_none() {
    let gs = GhosttyScheme::default();
    assert_eq!(parse_color_value("red", &gs), Some(Color::Red));
    assert_eq!(parse_color_value("dark-gray", &gs), Some(Color::DarkGray));
    assert_eq!(parse_color_value("#ff00ff", &gs), Some(Color::Rgb(255, 0, 255)));
    assert_eq!(parse_color_value("#7a7a7a", &gs), Some(Color::Rgb(0x7a, 0x7a, 0x7a)));
    assert_eq!(parse_color_value("42", &gs), Some(Color::Indexed(42)));
    assert_eq!(parse_color_value("none", &gs), None);
    assert_eq!(parse_color_value("256", &gs), None);
    assert_eq!(parse_color_value("chartreuse", &gs), None);
    assert_eq!(parse_color_value("#12345", &gs), None);
}

#[test]
fn a_theme_palette_replaces_named_colors() {
    let mut palette = Vec::new();
    for i in 0..16u8 {
        palette.push((i, i, i));
    }
    let gs = GhosttyScheme { palette };
    assert_eq!(parse_color_value("red", &gs), Some(Color::Rgb(1, 1, 1)));
    assert_eq!(parse_color_value("#010203", &gs), Some(Color::Rgb(1, 2, 3)));
}

#[test]
fn color_text_round_trips_through_parse() {
    let gs = GhosttyScheme::default();
    for c in [Color::Reset, Color::Red, Color::LightCyan, Color::Gray, Color::Rgb(1, 20, 255), Color::Indexed(7)] {
        let text = color_to_str(c);
        assert_eq!(parse_color_value(&text, &gs), Some(c), "{text}");
    }
    assert_eq!(color_to_str(Color::Rgb(255, 0, 255)), "#ff00ff");
    assert_eq!(color_to_str(Color::Indexed(200)), "200");
}

#[test]
fn style_round_trips_through_its_declaration() {
    let gs = GhosttyScheme::default();
    let s = Style::new().fg(Color::Yellow).bg(Color::Rgb(1, 2, 3)).add_modifier(Modifier::underlined_only());
    let d = style_to_decl(&s);
    assert_eq!(d.fg.as_deref(), Some("yellow"));
    assert_eq!(d.underline, Some(true));
    assert_eq!(d.bold, None);
    assert_eq!(decl_to_style(&d, &gs), s);
}

#[test]
fn patch_layers_colors_and_modifiers() {
    let a = Style::new().fg(Color::Red).add_modifier(Modifier::bold_only());
    let b = Style::new().bg(Color::Blue).add_modifier(Modifier::italic_only());
    let p = a.patch(b);
    assert_eq!(p.fg, Some(Color::Red));
    assert_eq!(p.bg, Some(Color::Blue));
    assert!(p.add_modifier.contains(Modifier::bold_only()));
    assert!(p.add_modifier.contains(Modifier::italic_only()));
}

#[test]
fn border_styles_and_placements_read_their_names() {
    assert_eq!(parse_border_style("double"), BorderStyle::Double);
    assert_eq!(parse_border_style("rounded"), BorderStyle::Rounded);
    assert_eq!(parse_border_style("none"), BorderStyle::NoBorder);
    assert_eq!(parse_border_style("wavy"), BorderStyle::NoBorder);
    assert_eq!(border_style_name(BorderStyle::Thick), "thick");
    assert_eq!(DialogPlacement::from_token("bottom-left"), DialogPlacement::BottomLeft);
    assert_eq!(DialogPlacement::from_token("sideways"), DialogPlacement::Center);
    assert_eq!(DialogPlacement::BottomRight.as_token(), "bottom-right");
}

#[test]
fn str_map_keeps_keys_sorted_and_last_insert_wins() {
    let mut m: StrMap<String> = StrMap::new();
    m.insert("b".into(), "1".into());
    m.insert("a".into(), "2".into());
    m.insert("b".into(), "3".into());
    assert_eq!(m.len(), 2);
    assert_eq!(m.entry(0).0, "a");
    assert_eq!(m.get("b").map(String::as_str), Some("3"));
    assert!(!m.contains_key("c"));
}

#[test]
fn merge_with_an_empty_document_changes_nothing() {
    let doc = parse_style_toml("[colors]\n\"room\" = { fg = \"red\", bold = true }\n[symbols]\nbox_style = \"ascii\"\n").unwrap();
    assert_eq!(merge(&doc, &StyleDoc::default()), doc);
    assert_eq!(merge(&StyleDoc::default(), &doc), doc);
}

#[test]
fn merge_is_associative_on_an_example() {
    let a = parse_style_toml("[colors]\n\"room\" = { fg = \"red\" }\n").unwrap();
    let b = parse_style_toml("[colors]\n\"room\" = { bold = true }\n\"connector\" = { fg = \"blue\" }\n").unwrap();
    let c = parse_style_toml("[colors]\n\"connector\" = { bg = \"white\" }\n").unwrap();
    assert_eq!(merge(&merge(&a, &b), &c), merge(&a, &merge(&b, &c)));
}

#[test]
fn text_that_is_not_toml_is_refused() {
    let e = parse_style_toml("[colors\n").unwrap_err();
    assert!(e.starts_with("TOML parse error: "), "{e}");
}

#[test]
fn a_named_scheme_warns_and_keeps_terminal_colors() {
    let doc = parse_style_toml("[colors]\nscheme = \"tomorrow-night\"\n").unwrap();
    let (cs, _set, warnings) = resolve(&doc);
    assert_eq!(warnings, vec!["color scheme 'tomorrow-night' is not available; using the terminal's colors".to_string()]);
    assert_eq!(cs, ColorScheme::terminal_default());
}

#[test]
fn unknown_selector_warning_names_it() {
    let doc = parse_style_toml("[colors]\n\"bogus\" = { fg = \"red\" }\n").unwrap();
    let (_cs, _set, warnings) = resolve(&doc);
    assert_eq!(warnings, vec!["unknown selector: bogus".to_string()]);
}

#[test]
fn the_built_in_style_parses() {
    let doc = default_style_doc();
    assert_eq!(doc, parse_style_toml(DEFAULT_STYLE_TOML).unwrap());
    assert!(doc.colors.selectors.contains_key("dialog:button:active"));
}

#[test]
fn load_style_default_name_parses_builtin() {
    let (doc, warns) = style_after_read("default", &StyleRead::Text(DEFAULT_STYLE_TOML.to_string()));
    assert!(warns.is_empty());
    assert_eq!(doc, default_style_doc());
}

#[test]
fn load_style_missing_path_warns_and_falls_back() {
    let (doc, warns) = style_after_read("/no/such/style.toml", &StyleRead::Failed("No such file or directory".into()));
    assert_eq!(warns.len(), 1);
    assert_eq!(
        warns[0],
        "could not read style file '/no/such/style.toml': No such file or directory; using built-in default"
    );
    assert_eq!(doc, parse_style_toml(DEFAULT_STYLE_TOML).unwrap());
}

#[test]
fn a_style_file_that_does_not_parse_warns_and_falls_back() {
    let (doc, warns) = style_after_read("s.toml", &StyleRead::Text("[[[".into()));
    assert_eq!(warns.len(), 1);
    assert!(warns[0].starts_with("could not parse style file 's.toml': TOML parse error: "), "{}", warns[0]);
    assert_eq!(doc, default_style_doc());
}

#[test]
fn full_export_of_the_terminal_default_resolves_to_itself() {
    let cs = ColorScheme::terminal_default();
    let set = SymbolSet::default();
    let doc = full_style_doc(&cs, &set);
    assert!(doc.colors.selectors.contains_key("connector"));
    assert!(doc.symbols.overrides.contains_key("tile.player"));
    let (cs2, set2, warnings) = resolve(&doc);
    assert!(warnings.is_empty(), "{warnings:?}");
    assert_eq!(cs2, cs);
    assert_eq!(set2, set);
}

#[test]
fn full_export_round_trips_changed_fields() {
    let mut cs = ColorScheme::terminal_default();
    cs.tidy_progress = Style::new().fg(Color::Magenta);
    cs.hyperlink = Style::new().fg(Color::Magenta);
    cs.transcript_input = Style::new().fg(Color::Green);
    cs.map_border_style = BorderStyle::Rounded;
    cs.story_border_style = BorderStyle::Double;
    cs.dialog_placement = DialogPlacement::BottomRight;
    cs.dialog_margin = 3;
    cs.dialog_shadow_on = true;
    let doc = full_style_doc(&cs, &SymbolSet::default());
    let d = doc.colors.selectors.get("dialog").unwrap();
    assert_eq!(d.placement.as_deref(), Some("bottom-right"));
    assert_eq!(d.margin, Some(3));
    let (cs2, _set2, _w) = resolve(&doc);
    assert_eq!(cs2.tidy_progress.fg, Some(Color::Magenta));
    assert_eq!(cs2.hyperlink.fg, Some(Color::Magenta));
    assert_eq!(cs2.transcript_input.fg, Some(Color::Green));
    assert!(matches!(cs2.map_border_style, BorderStyle::Rounded));
    assert!(matches!(cs2.story_border_style, BorderStyle::Double));
    assert_eq!(cs2.dialog_placement, DialogPlacement::BottomRight);
    assert_eq!(cs2.dialog_margin, 3);
    assert!(cs2.dialog_shadow_on);
}

#[test]
fn decl_with_no_fields_sets_nothing() {
    let gs = GhosttyScheme::default();
    assert_eq!(decl_to_style(&Decl::default(), &gs), Style::new());
}

#[test]
fn applying_one_selector_leaves_the_others_alone() {
    let before = ColorScheme::terminal_default();
    let mut cs = ColorScheme::terminal_default();
    let mut decls = StrMap::new();
    decls.insert("connector".to_string(), Decl { fg: Some("magenta".into()), bold: Some(true), ..Default::default() });
    let _ = apply_color_decls(&mut cs, &decls, &GhosttyScheme::default());
    assert_eq!(style_for_selector(&cs, "connector"), style_for_selector(&before, "connector").patch(Style::new().fg(Color::Magenta).add_modifier(Modifier::bold_only())));
    for sel in ["room", "connector:portal", "transcript", "dialog", "map_border"] {
        assert_eq!(style_for_selector(&cs, sel), style_for_selector(&before, sel), "{sel}");
    }
}

#[test]
fn applying_the_same_declarations_twice_equals_applying_them_once() {
    let gs = GhosttyScheme::default();
    let mut decls = StrMap::new();
    decls.insert("connector".to_string(), Decl { fg: Some("magenta".into()), bold: Some(true), ..Default::default() });
    decls.insert("room".to_string(), Decl { bg: Some("#102030".into()), italic: Some(true), ..Default::default() });
    decls.insert("map_border".to_string(), Decl { style: Some("double".into()), fg: Some("cyan".into()), ..Default::default() });
    decls.insert("dialog".to_string(), Decl { placement: Some("top-left".into()), margin: Some(2), ..Default::default() });
    let mut once = ColorScheme::terminal_default();
    let w1 = apply_color_decls(&mut once, &decls, &gs);
    let mut twice = ColorScheme::terminal_default();
    let _ = apply_color_decls(&mut twice, &decls, &gs);
    let w2 = apply_color_decls(&mut twice, &decls, &gs);
    assert_eq!(w1, w2);
    assert_eq!(twice, once);
    for sel in ["connector", "room", "map_border", "dialog", "transcript"] {
        assert_eq!(style_for_selector(&twice, sel), style_for_selector(&once, sel), "{sel}");
    }
}

#[test]
fn a_full_export_gives_back_a_symbol_set_with_its_own_glyphs() {
    let mut cfg = SymbolConfig::default();
    cfg.box_style = "ascii".into();
    cfg.arrow_set = "line".into();
    cfg.overrides.insert("tile.player".to_string(), "&".to_string());
    cfg.overrides.insert("gutter.meta".to_string(), "~".to_string());
    let set = SymbolSet::resolve(&cfg);
    assert_eq!(set.tiles.player, '&');
    let doc = full_style_doc(&ColorScheme::terminal_default(), &set);
    let (_cs2, set2, _w) = resolve(&doc);
    assert_eq!(set2, set);
}
