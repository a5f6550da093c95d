use babelmap::frontend::{
    combined_saves, format_rfc3339, game_echoes_command, is_slash, loading_line, saves_dir, scroll_for_match,
    should_prompt_save_on_quit, SaveInfo,
};
use babelmap::style::personal_style_path;

fn mk(name: &str, ts: &str) -> SaveInfo {
    SaveInfo {
        path: format!("/tmp/{name}.qzl"),
        name: name.to_string(),
        turns: 0,
        saved_at: ts.to_string(),
        is_default: false,
    }
}

#[test]
fn combined_saves_sorts_newest_first_untimestamped_last() {
    let v = vec![
        mk("old", "2026-06-01T10:00:00Z"),
        mk("legacy", ""),
        mk("new", "2026-07-09T12:00:00Z"),
        mk("mid", "2026-06-30T08:00:00Z"),
    ];
    let sorted = combined_saves(v, Vec::new());
    let order: Vec<&str> = sorted.iter().map(|s| s.name.as_str()).collect();
    assert_eq!(order, vec!["new", "mid", "old", "legacy"],
        "newest first; untimestamped/legacy saves sort to the bottom");
}

#[test]
fn combined_saves_merges_both_lists_and_keeps_ties_in_order() {
    let states = vec![mk("a", "2026-01-01T00:00:00Z"), mk("b", "")];
    let games = vec![mk("c", "2026-01-01T00:00:00Z"), mk("d", "2027-01-01T00:00:00Z"), mk("e", "")];
    let sorted = combined_saves(states, games);
    let order: Vec<&str> = sorted.iter().map(|s| s.name.as_str()).collect();
    assert_eq!(order, vec!["d", "a", "c", "b", "e"]);
    assert!(combined_saves(Vec::new(), Vec::new()).is_empty());
}

#[test]
fn game_echoes_command_detects_self_echo() {
    assert!(game_echoes_command("yes\n\nGood, you're conscious.", "yes"));
    assert!(game_echoes_command("YES\n\n...", "yes"), "case-insensitive");
    assert!(game_echoes_command("examine me\n\nYou see nothing special.", "examine me"));
    assert!(game_echoes_command("  look\nA room.", "look"), "leading whitespace ok");
    assert!(!game_echoes_command("You can't go that way.\n>", "north"));
    assert!(!game_echoes_command("", "look"), "empty output");
    assert!(!game_echoes_command("anything", ""), "empty command never matches");
    assert!(!game_echoes_command("gospel music plays.", "go"));
}

#[test]
fn game_echoes_command_accepts_end_of_output_and_punctuation_boundary() {
    assert!(game_echoes_command("look", "look"));
    assert!(game_echoes_command("look.", "look"));
    assert!(!game_echoes_command("lookout", "look"));
}

#[test]
fn scroll_for_match_brings_row_into_view() {
    assert_eq!(scroll_for_match(0, 100, 10), 90);
    assert_eq!(scroll_for_match(99, 100, 10), 0);
    assert_eq!(scroll_for_match(50, 100, 10), 40);
    assert_eq!(scroll_for_match(0, 5, 10), 0);
}

#[test]
fn is_slash_uses_prefix() {
    assert!(is_slash("/save", '/'));
    assert!(!is_slash("look", '/'));
    assert!(is_slash(";help", ';'));
    assert!(!is_slash("/help", ';'));
}

#[test]
fn prompt_save_on_quit_all_conditions_required() {
    let (mut auto_save, mut prompt_on_quit, mut unsaved) = (false, true, false);
    assert!(!should_prompt_save_on_quit(auto_save, prompt_on_quit, unsaved), "no unsaved progress => no prompt");
    unsaved = true;
    assert!(should_prompt_save_on_quit(auto_save, prompt_on_quit, unsaved), "unsaved progress => prompt");
    unsaved = false;
    assert!(!should_prompt_save_on_quit(auto_save, prompt_on_quit, unsaved), "after a save/load => no prompt");
    unsaved = true;
    auto_save = true;
    assert!(!should_prompt_save_on_quit(auto_save, prompt_on_quit, unsaved), "auto_save=true => no prompt");
    auto_save = false;
    prompt_on_quit = false;
    assert!(!should_prompt_save_on_quit(auto_save, prompt_on_quit, unsaved), "prompt_save_on_quit=false => no prompt");
}

#[test]
fn saves_dir_is_user_dir_join_saves() {
    assert_eq!(saves_dir("/tmp/bm"), "/tmp/bm/saves");
}

#[test]
fn personal_style_path_is_user_dir_style_toml() {
    assert_eq!(personal_style_path("/home/u/.babelmap"), "/home/u/.babelmap/style.toml");
}

#[test]
fn loading_line_reports_name_size_and_frame() {
    let line = loading_line("CounterfeitMonkey-11.gblorb", 11_855_360, '/');
    assert!(line.contains("CounterfeitMonkey-11.gblorb"), "names the story");
    assert!(line.contains("11.3 MB"), "shows size in MB, got: {line}");
    assert!(line.ends_with('/'), "ends with the spinner frame glyph");
}

#[test]
fn loading_line_rounds_to_one_decimal() {
    let line = loading_line("x", 0, '|');
    assert!(line.contains("0.0 MB"), "got: {line}");
    let line = loading_line("x", 1_048_576, '|');
    assert!(line.contains("1.0 MB"), "got: {line}");
}

#[test]
fn format_rfc3339_formats_epoch_and_a_leap_day() {
    assert_eq!(format_rfc3339(0), "1970-01-01T00:00:00Z");
    assert_eq!(format_rfc3339(951_782_400), "2000-02-29T00:00:00Z");
    assert_eq!(format_rfc3339(1_700_000_000), "2023-11-14T22:13:20Z");
}
