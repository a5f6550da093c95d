use std::collections::HashSet;
use babelmap::slash::{
    commands, find_command, help_for_command, help_text, parse, parse_in_context, slash_names, Action,
    Category, Context, Direction, SlashOutcome, TranscriptFilterArg,
};

#[test]
fn peel_layer_takes_an_optional_direction() {
    assert!(matches!(parse("peel-layer", '/'), SlashOutcome::Action(Action::PeelLayer(None))));
    assert!(matches!(
        parse("peel-layer east", '/'),
        SlashOutcome::Action(Action::PeelLayer(Some(Direction::E)))
    ));
    assert!(matches!(
        parse("peel-layer nw", '/'),
        SlashOutcome::Action(Action::PeelLayer(Some(Direction::NW)))
    ));
    assert!(matches!(parse("peel-layer sideways", '/'), SlashOutcome::Error(_)));
}

#[test]
fn parse_registry_and_errors() {
    assert!(matches!(parse("pan-map -1 0", '/'), SlashOutcome::Action(Action::Pan(-1, 0))));
    assert!(matches!(parse("pan-map 0 2", '/'), SlashOutcome::Action(Action::Pan(0, 2))));
    assert!(matches!(parse("zoom-map reset", '/'), SlashOutcome::Action(Action::ZoomReset)));
    assert!(matches!(parse("zoom-map 2", '/'), SlashOutcome::Action(Action::ZoomBy(2))));
    assert!(matches!(parse("zoom-map -3", '/'), SlashOutcome::Action(Action::ZoomBy(-3))));
    assert!(matches!(parse("zoom-map 1", '/'), SlashOutcome::Action(Action::ZoomBy(1))));
    assert!(matches!(parse("zoom-map 0", '/'), SlashOutcome::Action(Action::ZoomReset)));
    assert!(matches!(parse("zoom-map wat", '/'), SlashOutcome::Error(_)));
    assert!(matches!(parse("nudge-room -1 0", '/'), SlashOutcome::Action(Action::NudgeSelected(-1, 0))));
    assert!(matches!(parse("cycle-layer next", '/'), SlashOutcome::Action(Action::CycleLayer(1))));
    assert!(matches!(parse("save-state foo", '/'), SlashOutcome::Save(Some(_))));
    assert!(matches!(parse("save-state", '/'), SlashOutcome::Save(None)));
    assert!(matches!(parse("reset-game map", '/'), SlashOutcome::Reset { map: true, data: false }));
    assert!(matches!(parse("reset-game", '/'), SlashOutcome::Reset { map: false, data: false }));
    assert!(matches!(parse("reset-game data", '/'), SlashOutcome::Reset { map: false, data: true }));
    assert!(matches!(parse("reset-game map data", '/'), SlashOutcome::Reset { map: true, data: true }));
    assert!(matches!(parse("reset-game data map", '/'), SlashOutcome::Reset { map: true, data: true }));
    assert!(matches!(parse("quit", '/'), SlashOutcome::Quit));
    assert!(matches!(parse("help", '/'), SlashOutcome::Help));
    assert!(matches!(parse("open-config", '/'), SlashOutcome::Action(_)));
    assert!(matches!(parse("panh", '/'), SlashOutcome::Error(_)));
    assert!(matches!(parse("nope", '/'), SlashOutcome::Error(_)));
    assert!(matches!(parse("", '/'), SlashOutcome::Error(_)));
    assert!(matches!(parse("save", '/'), SlashOutcome::Error(_)));
    assert!(matches!(parse("pan", '/'), SlashOutcome::Error(_)));
    assert!(matches!(parse("zoom", '/'), SlashOutcome::Error(_)));
}

#[test]
fn slash_names_returns_registry() {
    let n = slash_names();
    assert!(n.iter().any(|s| s == "pan-map"));
    assert!(n.iter().any(|s| s == "open-config"));
    assert!(!n.iter().any(|s| s == "panh"));
}

#[test]
fn help_text_uses_prefix() {
    let lines = help_text('/');
    assert!(lines[0].contains('/'));
    let lines_semi = help_text(';');
    assert!(lines_semi[0].contains(';'));
    assert!(!lines_semi[0].contains('/'));
}

#[test]
fn help_text_lists_registry_commands() {
    let lines = help_text('/');
    assert!(lines.iter().any(|l| l.contains("/open-config")), "open-config should appear in /help");
    assert!(lines.iter().any(|l| l.contains("/save-state")), "save-state should appear in /help");
    assert!(lines.iter().any(|l| l.contains("/zoom-map")), "zoom-map should appear in /help");
}

#[test]
fn slash_hint_parses_to_open_hints() {
    assert!(matches!(parse("open-hints", '/'), SlashOutcome::OpenHints));
    assert!(matches!(parse("hint", '/'), SlashOutcome::Error(_)));
    assert!(matches!(parse("hints", '/'), SlashOutcome::Error(_)));
}

#[test]
fn load_map_parses_path_argument() {
    assert!(matches!(parse("load-map ~/Downloads/map.json", '/'),
        SlashOutcome::LoadMap(p) if p == "~/Downloads/map.json"));
}

#[test]
fn load_map_without_path_is_an_error() {
    assert!(matches!(parse("load-map", '/'), SlashOutcome::Error(_)));
}

#[test]
fn slash_style_opens_editor() {
    assert!(matches!(parse("open-style-editor", '/'), SlashOutcome::Action(Action::OpenStyleEditor)));
    assert!(matches!(parse("style", '/'), SlashOutcome::Error(_)));
}

#[test]
fn parse_search_filter_export() {
    assert!(matches!(parse("search-transcript twisty maze", '/'), SlashOutcome::Search(Some(q)) if q == "twisty maze"));
    assert!(matches!(parse("search-transcript a  b", '/'), SlashOutcome::Search(Some(q)) if q == "a  b"));
    assert!(matches!(parse("search-transcript", '/'), SlashOutcome::Search(None)));
    assert!(matches!(parse("filter-transcript meta", '/'), SlashOutcome::Filter(TranscriptFilterArg::Meta)));
    assert!(matches!(parse("filter-transcript both", '/'), SlashOutcome::Filter(TranscriptFilterArg::Both)));
    assert!(matches!(parse("filter-transcript nope", '/'), SlashOutcome::Error(_)));
    assert!(matches!(parse("export-transcript", '/'), SlashOutcome::Export(None)));
    assert!(matches!(parse("export-transcript out.txt", '/'), SlashOutcome::Export(Some(f)) if f == "out.txt"));
    assert!(matches!(parse("search", '/'), SlashOutcome::Error(_)));
    assert!(matches!(parse("filter", '/'), SlashOutcome::Error(_)));
    assert!(matches!(parse("export", '/'), SlashOutcome::Error(_)));
}

#[test]
fn parse_routes_registry_and_gates_anim() {
    assert!(matches!(parse("pan-map -1 0", '/'), SlashOutcome::Action(Action::Pan(-1, 0))));
    assert!(matches!(parse("zoom-map in", '/'), SlashOutcome::Action(Action::ZoomIn)));
    assert!(matches!(parse("select-room next", '/'), SlashOutcome::Action(Action::SelectNext)));
    assert!(matches!(parse("save-state foo", '/'), SlashOutcome::Save(Some(_))));
    assert!(matches!(parse("reset-game map", '/'), SlashOutcome::Reset { map: true, data: false }));
    assert!(matches!(parse("quit", '/'), SlashOutcome::Quit));
    assert!(matches!(parse("center", '/'), SlashOutcome::Error(_)));
    assert!(matches!(parse("panh", '/'), SlashOutcome::Error(_)));
    assert!(matches!(parse("nope", '/'), SlashOutcome::Error(_)));
    assert!(matches!(parse("", '/'), SlashOutcome::Error(_)));
    assert!(matches!(parse_in_context("anim-step forward", '/', Context::Global), SlashOutcome::Error(_)));
    assert!(matches!(parse_in_context("anim-step forward", '/', Context::Anim), SlashOutcome::Action(Action::AnimStep(1))));
    assert!(matches!(parse("search-transcript a  b", '/'), SlashOutcome::Search(Some(q)) if q == "a  b"));
}

#[test]
fn category_order_and_titles() {
    assert_eq!(Category::ORDER.len(), 8);
    assert_eq!(Category::ORDER[0], Category::Game);
    assert_eq!(Category::ORDER[7], Category::Help);
    assert_eq!(Category::Game.title(), "Game");
    assert_eq!(Category::Animation.title(), "Animation");
}

#[test]
fn registry_is_complete_and_well_formed() {
    let all = commands();
    let mut seen = HashSet::new();
    for c in &all {
        assert!(seen.insert(c.name), "duplicate command name: {}", c.name);
        assert!(!c.usage.is_empty(), "{} has empty usage", c.name);
        assert!(!c.description.is_empty(), "{} has empty description", c.name);
    }
    for c in &all {
        if c.name == "quit" || c.name == "help" || c.name == "volume" {
            continue;
        }
        assert!(c.name.contains('-'), "non-verb-noun command name: {}", c.name);
    }
    let by = |n: &str| *all.iter().find(|c| c.name == n).expect(n);
    assert_eq!(by("save-state").category, Category::Game);
    assert_eq!(by("zoom-map").category, Category::Mapping);
    assert_eq!(by("anim-step").context, Context::Anim);
    assert_eq!(all.len(), 59, "registry must match the spec's Full command table");
}

#[test]
fn toggle_map_renderer_command_present() {
    let c = find_command("toggle-map-renderer").expect("toggle-map-renderer");
    assert_eq!(c.category, Category::Mapping);
    assert!(matches!(parse("toggle-map-renderer", '/'), SlashOutcome::Action(Action::ToggleMapRenderer)));
}

#[test]
fn sound_commands_present() {
    let all = commands();
    let by = |n: &str| *all.iter().find(|c| c.name == n).expect(n);
    assert_eq!(by("toggle-sound").category, Category::Game);
    assert_eq!(by("volume").category, Category::Game);
}

#[test]
fn help_text_grouped_and_per_command() {
    let lines = help_text('/');
    let game_at = lines.iter().position(|l| l.contains("Game")).unwrap();
    let map_at = lines.iter().position(|l| l.contains("Map")).unwrap();
    assert!(game_at < map_at, "Game group precedes Map group");
    assert!(lines.iter().any(|l| l.contains("/zoom-map")));

    let one = help_for_command('/', "zoom-map");
    assert!(one.iter().any(|l| l.contains("zoom-map in|out|reset")));
    assert!(one.iter().any(|l| l.contains("zoom the map")));
    let bad = help_for_command('/', "nope");
    assert!(bad.iter().any(|l| l.contains("unknown command")));

    assert!(matches!(parse("help", '/'), SlashOutcome::Help));
    assert!(matches!(parse("help zoom-map", '/'), SlashOutcome::HelpCommand(n) if n == "zoom-map"));
}

#[test]
fn print_colors_command_parses_flag() {
    assert!(find_command("print-colors").is_some());
    assert!(matches!(parse("print-colors", '/'), SlashOutcome::PrintColors { actual: false }));
    assert!(matches!(parse("print-colors color", '/'), SlashOutcome::PrintColors { actual: true }));
}

#[test]
fn dump_windows_command_parses() {
    assert!(find_command("dump-windows").is_some());
    assert!(matches!(parse("dump-windows", '/'), SlashOutcome::DumpWindows));
}

#[test]
fn play_sound_command_parses_optional_number() {
    assert!(matches!(parse("play-sound", '/'), SlashOutcome::PlaySound(None)));
    assert!(matches!(parse("play-sound 3", '/'), SlashOutcome::PlaySound(Some(3))));
    assert!(matches!(parse("play-sound nope", '/'), SlashOutcome::Error(_)));
}

#[test]
fn play_sound_command_present() {
    assert_eq!(find_command("play-sound").expect("play-sound").category, Category::Game);
}

#[test]
fn help_for_command_round_trip() {
    assert!(!help_for_command('/', "save-state").is_empty());
}

#[test]
fn set_game_colours_parses_on_off_auto() {
    assert!(matches!(parse("set-game-colours on", '/'), SlashOutcome::SetGameColours(Some(true))));
    assert!(matches!(parse("set-game-colours off", '/'), SlashOutcome::SetGameColours(Some(false))));
    assert!(matches!(parse("set-game-colours auto", '/'), SlashOutcome::SetGameColours(None)));
    assert!(matches!(parse("set-game-colours", '/'), SlashOutcome::Error(_)));
    assert!(matches!(parse("set-game-colours maybe", '/'), SlashOutcome::Error(_)));
    assert_eq!(find_command("set-game-colours").expect("set-game-colours").category, Category::Style);
}

#[test]
fn set_game_borders_parses_on_off_auto() {
    assert!(matches!(parse("set-game-borders on", '/'), SlashOutcome::SetGameBorderless(Some(false))));
    assert!(matches!(parse("set-game-borders off", '/'), SlashOutcome::SetGameBorderless(Some(true))));
    assert!(matches!(parse("set-game-borders auto", '/'), SlashOutcome::SetGameBorderless(None)));
    assert!(matches!(parse("set-game-borders", '/'), SlashOutcome::Error(_)));
    assert!(matches!(parse("set-game-borders maybe", '/'), SlashOutcome::Error(_)));
    assert_eq!(find_command("set-game-borders").expect("set-game-borders").category, Category::Style);
}

#[test]
fn create_game_style_command_removed() {
    assert!(find_command("create-game-style").is_none(),
        "create-game-style is replaced by the Save Game Style button");
}
