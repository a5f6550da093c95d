use babelmap::frontend::abbreviate_home;
use babelmap::slash::{parse, SlashOutcome};
use babelmap::style::{parse_style_toml, Decl, RawRule, StyleDoc, TomlValue};
use babelmap::style_file::{decl_table, expand_path, style_edits, style_source, StyleSource, TomlEdit, TomlTable};

fn keys_of(t: &[(String, TomlValue)]) -> Vec<&str> {
    t.iter().map(|(k, _)| k.as_str()).collect()
}

#[test]
fn decl_table_writes_only_set_fields_in_order() {
    let d = Decl {
        style: Some("double".into()),
        header: Some(false),
        fg: Some("cyan".into()),
        bold: Some(true),
        italic: Some(false),
        shadow: Some(true),
        margin: Some(3),
        glyph_tl: Some("╔".into()),
        ..Default::default()
    };
    let t = decl_table(&d);
    assert_eq!(keys_of(&t), vec!["style", "header", "fg", "bold", "shadow", "margin", "glyph_tl"]);
    assert!(matches!(&t[1].1, TomlValue::Bool(false)));
    assert!(matches!(&t[5].1, TomlValue::Int(3)));
    assert!(decl_table(&Decl { header: Some(true), ..Default::default() }).is_empty());
}

#[test]
fn style_edits_rewrite_colors_and_keep_scheme_key_out_of_removals() {
    let doc = parse_style_toml(
        "[colors]\n\"room\" = { fg = \"red\" }\n[symbols]\nbox_style = \"ascii\"\n[symbols.overrides]\n\"arrow.north\" = \"^\"\n",
    )
    .unwrap();
    let existing = vec!["scheme".to_string(), "connector".to_string()];
    let edits = style_edits(&doc, &existing);
    assert!(matches!(&edits[0], TomlEdit::Remove(TomlTable::Colors, k) if k == "scheme"));
    assert!(matches!(&edits[1], TomlEdit::Remove(TomlTable::Colors, k) if k == "connector"));
    assert!(matches!(&edits[2], TomlEdit::Assign(TomlTable::Colors, k, TomlValue::Table(_)) if k == "room"));
    assert!(matches!(&edits[3], TomlEdit::Assign(TomlTable::Symbols, k, TomlValue::Str(v)) if k == "box_style" && v == "ascii"));
    assert!(matches!(&edits[4], TomlEdit::Remove(TomlTable::Symbols, k) if k == "arrow_set"));
    assert!(matches!(&edits[7], TomlEdit::Remove(TomlTable::Symbols, k) if k == "diagonal_corners"));
    assert!(matches!(&edits[8], TomlEdit::Assign(TomlTable::SymbolOverrides, k, TomlValue::Str(v)) if k == "arrow.north" && v == "^"));
    assert!(matches!(&edits[9], TomlEdit::Remove(TomlTable::Root, k) if k == "transcript"));
    assert!(matches!(&edits[10], TomlEdit::Remove(TomlTable::Root, k) if k == "statusbar"));
    assert_eq!(edits.len(), 11);
}

#[test]
fn style_edits_write_rules_and_segments_as_arrays_of_tables() {
    let mut doc = StyleDoc::default();
    doc.colors.scheme = Some("tomorrow".into());
    doc.transcript_rules.push(RawRule { pattern: "grue".into(), decl: Decl { fg: Some("red".into()), ..Default::default() } });
    doc.status_bar.border = Some("single".into());
    let edits = style_edits(&doc, &Vec::new());
    assert!(matches!(&edits[0], TomlEdit::Assign(TomlTable::Colors, k, TomlValue::Str(v)) if k == "scheme" && v == "tomorrow"));
    let rules = edits.iter().find_map(|e| match e {
        TomlEdit::SetTables(TomlTable::Transcript, k, ts) if k == "rule" => Some(ts),
        _ => None,
    });
    let rules = rules.expect("rules are written");
    assert_eq!(rules.len(), 1);
    match &rules[0] {
        TomlValue::Table(t) => assert_eq!(keys_of(t), vec!["match", "fg"]),
        _ => panic!("a rule is a table"),
    }
    assert!(edits.iter().any(|e| matches!(e, TomlEdit::Assign(TomlTable::StatusBar, k, _) if k == "border")));
    assert!(!edits.iter().any(|e| matches!(e, TomlEdit::SetTables(TomlTable::StatusBar, _, _))));
    assert_eq!(TomlTable::SymbolOverrides.path(), vec!["symbols".to_string(), "overrides".to_string()]);
    assert!(TomlTable::Root.path().is_empty());
}

#[test]
fn style_source_follows_the_setting() {
    assert_eq!(style_source(None, "/u", None), StyleSource::Personal("/u/style.toml".into()));
    assert_eq!(style_source(Some("default"), "/u", None), StyleSource::Builtin);
    assert_eq!(style_source(Some("themes/dark.toml"), "/u", None), StyleSource::File("/u/themes/dark.toml".into()));
    assert_eq!(style_source(Some("/etc/s.toml"), "/u", None), StyleSource::File("/etc/s.toml".into()));
    assert_eq!(style_source(Some("~/s.toml"), "/u", Some("/home/p")), StyleSource::File("/home/p/s.toml".into()));
    assert_eq!(expand_path("~/s.toml", "/u", None), "/u/~/s.toml");
}

#[test]
fn abbreviate_home_shortens_only_a_home_prefix() {
    assert_eq!(abbreviate_home("/home/p/games/x.z5", Some("/home/p")), "~/games/x.z5");
    assert_eq!(abbreviate_home("/srv/x.z5", Some("/home/p")), "/srv/x.z5");
    assert_eq!(abbreviate_home("/home/p", Some("/home/p")), "~");
    assert_eq!(abbreviate_home("/home/p/x", Some("")), "/home/p/x");
    assert_eq!(abbreviate_home("/home/p/x", None), "/home/p/x");
}

#[test]
fn search_query_is_the_rest_after_the_command_word() {
    assert!(matches!(parse(" search-transcript foo", '/'), SlashOutcome::Search(Some(q)) if q == "foo"));
    let six_wide_spaces = "\u{3000}".repeat(6);
    assert!(matches!(parse(&format!("{six_wide_spaces}search-transcript x  y "), '/'), SlashOutcome::Search(Some(q)) if q == "x  y"));
    assert!(matches!(parse("search-transcript   ", '/'), SlashOutcome::Search(None)));
    assert!(matches!(parse("search-transcript\tfoo", '/'), SlashOutcome::Search(Some(q)) if q == "\tfoo"));
}
