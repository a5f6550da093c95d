use babelmap::colors::{
    Align, BorderStyle, Color, ColorScheme, CompiledRule, DialogPlacement, Modifier, PaneSides, StatusBarLayout,
    StatusSegment, Style,
};
use babelmap::config::SymbolConfig;
use babelmap::style::{
    full_style_doc, merge, parse_style_toml, resolve, selector_fields, style_for_selector, Decl, RawRule, RawSegment,
    StyleDoc, DEFAULT_STYLE_TOML,
};
use babelmap::style_file::write_style_text;
use babelmap::symbols::SymbolSet;

/// Writes the full export of `cs` and `set` into an empty file, then parses and
/// resolves the text with no base scheme.
fn full_round_trip(cs: &ColorScheme, set: &SymbolSet) -> (String, ColorScheme, SymbolSet, Vec<String>) {
    let text = write_style_text("", &full_style_doc(cs, set)).unwrap();
    let doc = parse_style_toml(&text).unwrap();
    let (cs2, set2, warnings) = resolve(&doc);
    (text, cs2, set2, warnings)
}

fn default_set() -> SymbolSet {
    SymbolSet::resolve(&SymbolConfig::default())
}

#[test]
fn write_style_preserves_unknown_sections() {
    let mut doc = StyleDoc::default();
    doc.colors.selectors.insert("connector".into(), Decl { fg: Some("cyan".into()), ..Default::default() });
    let text = write_style_text("# my style\n[header]\ntitle = \"book\"\n", &doc).unwrap();
    assert!(text.contains("[header]"));
    assert!(text.contains("title = \"book\""));
    let reparsed = parse_style_toml(&text).unwrap();
    assert_eq!(reparsed.colors.selectors.get("connector").unwrap().fg.as_deref(), Some("cyan"));
}

#[test]
fn write_style_replaces_the_old_color_keys_and_keeps_the_rest() {
    let existing = "[colors]\nscheme = \"old\"\n\"room\" = { fg = \"red\" }\n[symbols]\nbox_style = \"ascii\"\n[extra]\nn = 1\n";
    let mut doc = StyleDoc::default();
    doc.colors.selectors.insert("connector".into(), Decl { fg: Some("cyan".into()), ..Default::default() });
    let text = write_style_text(existing, &doc).unwrap();
    let reparsed = parse_style_toml(&text).unwrap();
    assert_eq!(reparsed.colors.scheme, None);
    assert!(reparsed.colors.selectors.get("room").is_none());
    assert_eq!(reparsed.colors.selectors.get("connector").unwrap().fg.as_deref(), Some("cyan"));
    assert_eq!(reparsed.symbols.box_style, None, "a preset the document leaves unset is removed");
    assert!(text.contains("[extra]"));
    assert!(text.contains("n = 1"));
}

#[test]
fn write_style_into_text_that_is_not_toml_starts_empty() {
    let mut doc = StyleDoc::default();
    doc.colors.scheme = Some("nord".into());
    let text = write_style_text("[[[ not toml", &doc).unwrap();
    let reparsed = parse_style_toml(&text).unwrap();
    assert_eq!(reparsed.colors.scheme.as_deref(), Some("nord"));
}

#[test]
fn write_style_refuses_colors_that_is_not_a_table() {
    let r = write_style_text("colors = 3\n", &StyleDoc::default());
    assert_eq!(r, Err("[colors] is not a table".to_string()));
}

#[test]
fn write_style_refuses_symbols_that_is_not_a_table() {
    let mut doc = StyleDoc::default();
    doc.symbols.box_style = Some("ascii".into());
    let r = write_style_text("symbols = \"x\"\n", &doc);
    assert_eq!(r, Err("[symbols] is not a table".to_string()));
}

#[test]
fn write_style_full_is_self_contained() {
    let cs = ColorScheme::terminal_default();
    let set = default_set();
    let (text, cs2, set2, _w) = full_round_trip(&cs, &set);
    let doc = parse_style_toml(&text).unwrap();
    for sel in selector_fields() {
        if sel == "border" {
            continue;
        }
        assert!(doc.colors.selectors.contains_key(sel), "write_style_full never emits selector {sel:?}");
    }
    assert_eq!(cs2, cs);
    assert_eq!(set2, set);
}

#[test]
fn write_style_full_round_trips_a_symbol_set_without_diagonal_corners() {
    let cs = ColorScheme::terminal_default();
    let mut cfg = SymbolConfig::default();
    cfg.diagonal_corners = false;
    cfg.box_style = "ascii".into();
    let set = SymbolSet::resolve(&cfg);
    assert!(!set.diagonal_corners);
    let (text, cs2, set2, _w) = full_round_trip(&cs, &set);
    assert!(text.contains("diagonal_corners = false"));
    assert_eq!(cs2, cs);
    assert_eq!(set2, set);
}

#[test]
fn write_style_full_round_trips_statusbar_and_transcript_rules() {
    let mut cs = ColorScheme::terminal_default();
    cs.transcript_rules.push(CompiledRule {
        pattern: "(?i)grue".into(),
        regex: regex::Regex::new("(?i)grue").unwrap(),
        style: Style::new().fg(Color::Red),
    });
    cs.statusbar_layout = StatusBarLayout {
        segments: vec![
            StatusSegment {
                text: "{location}".into(),
                align: Align::Left,
                style: Style::new().fg(Color::Cyan).add_modifier(Modifier::underlined_only()),
            },
            StatusSegment { text: "{title}".into(), align: Align::Center, style: Style::default() },
            StatusSegment { text: "Score {score}".into(), align: Align::Right, style: Style::new().fg(Color::Yellow) },
        ],
    };
    let (_text, cs2, _set2, _w) = full_round_trip(&cs, &default_set());
    assert_eq!(cs2.transcript_rules.len(), 1);
    assert_eq!(cs2.transcript_rules[0].pattern, "(?i)grue");
    assert_eq!(cs2.transcript_rules[0].style.fg, Some(Color::Red));
    assert_eq!(cs2.statusbar_layout.segments.len(), 3);
    assert_eq!(cs2.statusbar_layout.segments[0].text, "{location}");
    assert!(cs2.statusbar_layout.segments[0].style.add_modifier.contains(Modifier::underlined_only()));
    assert!(matches!(cs2.statusbar_layout.segments[1].align, Align::Center));
    assert_eq!(cs2.statusbar_layout.segments[2].style.fg, Some(Color::Yellow));
}

#[test]
fn write_style_full_round_trips_dialog_placement_and_margin() {
    let mut cs = ColorScheme::terminal_default();
    cs.dialog_placement = DialogPlacement::BottomRight;
    cs.dialog_margin = 3;
    let (text, cs2, _set2, _w) = full_round_trip(&cs, &default_set());
    assert!(text.contains("placement = \"bottom-right\""));
    assert!(text.contains("margin = 3"));
    assert_eq!(cs2.dialog_placement, DialogPlacement::BottomRight);
    assert_eq!(cs2.dialog_margin, 3);
}

#[test]
fn write_style_full_round_trips_per_side_and_header() {
    let mut cs = ColorScheme::terminal_default();
    cs.map_border_style = BorderStyle::NoBorder;
    cs.map_border_sides = PaneSides {
        top: BorderStyle::NoBorder,
        bottom: BorderStyle::NoBorder,
        left: BorderStyle::Single,
        right: BorderStyle::Single,
    };
    cs.story_border_style = BorderStyle::Single;
    cs.story_border_sides = PaneSides {
        top: BorderStyle::Thick,
        bottom: BorderStyle::Single,
        left: BorderStyle::Single,
        right: BorderStyle::Single,
    };
    cs.story_header_on = false;
    let (_text, cs2, _set2, _w) = full_round_trip(&cs, &default_set());
    assert_eq!(cs2.map_border_sides.left, BorderStyle::Single);
    assert_eq!(cs2.map_border_sides.top, BorderStyle::NoBorder);
    assert_eq!(cs2.story_border_sides.top, BorderStyle::Thick);
    assert!(!cs2.story_header_on);
}

#[test]
fn write_style_full_round_trips_dialog_shadow_and_box_style() {
    let mut cs = ColorScheme::terminal_default();
    cs.dialog_shadow_on = true;
    cs.dialog_box_style = BorderStyle::Double;
    let (_text, cs2, _set2, _w) = full_round_trip(&cs, &default_set());
    assert!(cs2.dialog_shadow_on);
    assert!(matches!(cs2.dialog_box_style, BorderStyle::Double));
}

#[test]
fn write_style_full_is_stable_and_back_compatible() {
    let cs = ColorScheme::terminal_default();
    let set = SymbolSet::default();
    let (text1, cs_rt, set_rt, _w) = full_round_trip(&cs, &set);
    let text2 = write_style_text("", &full_style_doc(&cs_rt, &set_rt)).unwrap();
    assert_eq!(text1, text2, "write -> read -> write must be byte-stable");
    let legacy = "[colors]\n\"input:prompt\" = { bold = true }\n";
    let doc = parse_style_toml(legacy).unwrap();
    assert_eq!(doc.colors.selectors.get("input:prompt").unwrap().fg, None, "legacy omitted fg stays unset");
}

#[test]
fn writing_a_full_style_over_its_own_text_changes_nothing() {
    let cs = ColorScheme::terminal_default();
    let set = default_set();
    let (a, _cs2, _set2, _w) = full_round_trip(&cs, &set);
    let b = write_style_text(&a, &full_style_doc(&cs, &set)).unwrap();
    assert_eq!(a, b);
}

#[test]
fn a_writable_document_written_into_an_empty_file_reads_back_as_itself() {
    let mut doc = StyleDoc::default();
    doc.colors.scheme = Some("nord".into());
    doc.colors.selectors.insert(
        "connector".into(),
        Decl { fg: Some("cyan".into()), bold: Some(true), italic: Some(true), ..Default::default() },
    );
    doc.colors.selectors.insert(
        "map_border".into(),
        Decl { style: Some("double".into()), header: Some(false), glyph_tl: Some("+".into()), ..Default::default() },
    );
    doc.colors.selectors.insert(
        "dialog".into(),
        Decl { shadow: Some(true), placement: Some("top".into()), margin: Some(2), ..Default::default() },
    );
    doc.symbols.box_style = Some("ascii".into());
    doc.symbols.diagonal_corners = Some(false);
    doc.symbols.overrides.insert("tile.player".into(), "&".into());
    doc.transcript_rules.push(RawRule {
        pattern: "(?i)grue".into(),
        decl: Decl { fg: Some("red".into()), underline: Some(true), ..Default::default() },
    });
    doc.status_bar.border = Some("single".into());
    doc.status_bar.segments.push(RawSegment {
        text: "{title}".into(),
        align: "center".into(),
        decl: Decl { reversed: Some(true), ..Default::default() },
    });
    let text = write_style_text("", &doc).unwrap();
    assert_eq!(parse_style_toml(&text).unwrap(), doc);
}

#[test]
fn a_flag_set_to_false_is_not_written() {
    let mut doc = StyleDoc::default();
    doc.colors.selectors.insert("connector".into(), Decl { bold: Some(false), ..Default::default() });
    let text = write_style_text("", &doc).unwrap();
    let back = parse_style_toml(&text).unwrap();
    assert_eq!(back.colors.selectors.get("connector").unwrap().bold, None);
}

#[test]
fn merging_a_document_over_itself_gives_it_back() {
    let d = parse_style_toml(DEFAULT_STYLE_TOML).unwrap();
    assert_eq!(merge(&d, &d), d);
}

#[test]
fn the_border_selector_and_unknown_names_read_as_the_plain_style() {
    let cs = ColorScheme::terminal_default();
    assert_eq!(style_for_selector(&cs, "border"), Style::default());
    assert_eq!(style_for_selector(&cs, "nope"), Style::default());
}
