//! Slash-command registry and parser.
//!
//! The registry returned by [`commands`] is the **single source of truth** for
//! every command: typed slash input and key bindings both go through
//! [`parse_in_context`], which looks the command up there and dispatches it,
//! producing a [`SlashOutcome`]. Adding one entry to the registry gives a command
//! slash parsing, `/help` grouping + `help <command>` detail, and Tab completion.
//! Names are verb-noun kebab-case; `quit`, `help` and `volume` are the one-word
//! exceptions. Directional behaviour is expressed by arguments (e.g.
//! `pan-map <dx> <dy>`), not by per-direction commands.
//!
//! `parse` receives the input AFTER the leading prefix character has been
//! stripped. It does not know what the prefix was.

use vstd::prelude::*;
use crate::strmap::{key_order, lemma_lex_asym, lemma_lex_total, lemma_lex_trans, lex_lt, KeyOrder};
use crate::text::{
    after_first_token, first_token_end, eq_lit, eq_lit_ignore_case, join2,
    owned, parse_in, push_char, seq_eq_ignore_case, skip_spaces, spec_parse_in, split_tokens, strings_view,
    string_of, tokens, trim_end_ws, trimmed_tail, chars_of,
};

verus! {

// ── Directions, contexts, actions ────────────────────────────────────────────

/// A compass, vertical or in/out direction, as exits are named in a game.
#[derive(Debug, Clone, Copy, PartialEq, Eq, Structural)]
pub enum Direction {
    N,
    NE,
    E,
    SE,
    S,
    SW,
    W,
    NW,
    Up,
    Down,
    In,
    Out,
}

/// The direction a word names, ignoring ASCII case: full names and the usual
/// abbreviations (`n`, `ne`, …, `u`, `d`).
pub open spec fn spec_parse_direction(s: Seq<char>) -> Option<Direction> {
    if seq_eq_ignore_case(s, "n"@) || seq_eq_ignore_case(s, "north"@) {
        Some(Direction::N)
    } else if seq_eq_ignore_case(s, "ne"@) || seq_eq_ignore_case(s, "northeast"@) {
        Some(Direction::NE)
    } else if seq_eq_ignore_case(s, "e"@) || seq_eq_ignore_case(s, "east"@) {
        Some(Direction::E)
    } else if seq_eq_ignore_case(s, "se"@) || seq_eq_ignore_case(s, "southeast"@) {
        Some(Direction::SE)
    } else if seq_eq_ignore_case(s, "s"@) || seq_eq_ignore_case(s, "south"@) {
        Some(Direction::S)
    } else if seq_eq_ignore_case(s, "sw"@) || seq_eq_ignore_case(s, "southwest"@) {
        Some(Direction::SW)
    } else if seq_eq_ignore_case(s, "w"@) || seq_eq_ignore_case(s, "west"@) {
        Some(Direction::W)
    } else if seq_eq_ignore_case(s, "nw"@) || seq_eq_ignore_case(s, "northwest"@) {
        Some(Direction::NW)
    } else if seq_eq_ignore_case(s, "u"@) || seq_eq_ignore_case(s, "up"@) {
        Some(Direction::Up)
    } else if seq_eq_ignore_case(s, "d"@) || seq_eq_ignore_case(s, "down"@) {
        Some(Direction::Down)
    } else if seq_eq_ignore_case(s, "in"@) {
        Some(Direction::In)
    } else if seq_eq_ignore_case(s, "out"@) {
        Some(Direction::Out)
    } else {
        None
    }
}

/// Reads a direction word.
pub fn parse_direction(s: &[char]) -> (r: Option<Direction>)
    ensures
        r == spec_parse_direction(s@),
{
    if eq_lit_ignore_case(s, "n") || eq_lit_ignore_case(s, "north") {
        Some(Direction::N)
    } else if eq_lit_ignore_case(s, "ne") || eq_lit_ignore_case(s, "northeast") {
        Some(Direction::NE)
    } else if eq_lit_ignore_case(s, "e") || eq_lit_ignore_case(s, "east") {
        Some(Direction::E)
    } else if eq_lit_ignore_case(s, "se") || eq_lit_ignore_case(s, "southeast") {
        Some(Direction::SE)
    } else if eq_lit_ignore_case(s, "s") || eq_lit_ignore_case(s, "south") {
        Some(Direction::S)
    } else if eq_lit_ignore_case(s, "sw") || eq_lit_ignore_case(s, "southwest") {
        Some(Direction::SW)
    } else if eq_lit_ignore_case(s, "w") || eq_lit_ignore_case(s, "west") {
        Some(Direction::W)
    } else if eq_lit_ignore_case(s, "nw") || eq_lit_ignore_case(s, "northwest") {
        Some(Direction::NW)
    } else if eq_lit_ignore_case(s, "u") || eq_lit_ignore_case(s, "up") {
        Some(Direction::Up)
    } else if eq_lit_ignore_case(s, "d") || eq_lit_ignore_case(s, "down") {
        Some(Direction::Down)
    } else if eq_lit_ignore_case(s, "in") {
        Some(Direction::In)
    } else if eq_lit_ignore_case(s, "out") {
        Some(Direction::Out)
    } else {
        None
    }
}

/// Where a command is available: everywhere, or only while the map or the tidy
/// animation has the keyboard.
#[derive(Debug, Clone, Copy, PartialEq, Eq, Structural)]
pub enum Context {
    Global,
    MapPane,
    Anim,
}

/// A user-interface action that a command asks the run loop to perform.
#[derive(Debug, Clone, PartialEq)]
pub enum Action {
    OpenHistory,
    OpenVerbMenu,
    OpenSaves,
    ToggleTimedInput,
    ToggleSound,
    ZoomIn,
    ZoomOut,
    ZoomReset,
    Recenter,
    Retidy,
    SelectNext,
    SelectPrev,
    RenameRoom,
    RenameLayer,
    EditNotes,
    DeleteSelectedConnection,
    RelabelSelectedEdge,
    MergeLayer,
    ToggleInspector,
    ToggleRoomNumbers,
    ToggleMapRenderer,
    ToggleLocMethod,
    ToggleAlignment,
    TogglePortalLabels,
    OpenGallery,
    ToggleMap,
    ToggleFocus,
    ToggleInventory,
    ToggleStatusBar,
    ResizePanes,
    ResizeReset,
    OpenStyleEditor,
    OpenConfig,
    ReloadStyle,
    ToggleWatch,
    AnimateTidy,
    AnimTogglePlay,
    AnimExit,
    SetVolume(u8),
    Pan(i32, i32),
    ZoomBy(i32),
    CycleLayer(i32),
    NudgeSelected(i32, i32),
    PeelLayer(Option<Direction>),
    AnimStep(i32),
    ExportSvg(Option<String>),
    ExportDot(Option<String>),
    ExportDump(Option<String>),
}

/// [`Action`] with its text payloads as character sequences.
pub enum ActionView {
    OpenHistory,
    OpenVerbMenu,
    OpenSaves,
    ToggleTimedInput,
    ToggleSound,
    ZoomIn,
    ZoomOut,
    ZoomReset,
    Recenter,
    Retidy,
    SelectNext,
    SelectPrev,
    RenameRoom,
    RenameLayer,
    EditNotes,
    DeleteSelectedConnection,
    RelabelSelectedEdge,
    MergeLayer,
    ToggleInspector,
    ToggleRoomNumbers,
    ToggleMapRenderer,
    ToggleLocMethod,
    ToggleAlignment,
    TogglePortalLabels,
    OpenGallery,
    ToggleMap,
    ToggleFocus,
    ToggleInventory,
    ToggleStatusBar,
    ResizePanes,
    ResizeReset,
    OpenStyleEditor,
    OpenConfig,
    ReloadStyle,
    ToggleWatch,
    AnimateTidy,
    AnimTogglePlay,
    AnimExit,
    SetVolume(u8),
    Pan(i32, i32),
    ZoomBy(i32),
    CycleLayer(i32),
    NudgeSelected(i32, i32),
    PeelLayer(Option<Direction>),
    AnimStep(i32),
    ExportSvg(Option<Seq<char>>),
    ExportDot(Option<Seq<char>>),
    ExportDump(Option<Seq<char>>),
}

/// The characters of an optional string.
pub open spec fn opt_view(o: Option<String>) -> Option<Seq<char>> {
    match o {
        Some(s) => Some(s@),
        None => None,
    }
}

impl View for Action {
    type V = ActionView;

    open spec fn view(&self) -> ActionView {
        match self {
            Action::OpenHistory => ActionView::OpenHistory,
            Action::OpenVerbMenu => ActionView::OpenVerbMenu,
            Action::OpenSaves => ActionView::OpenSaves,
            Action::ToggleTimedInput => ActionView::ToggleTimedInput,
            Action::ToggleSound => ActionView::ToggleSound,
            Action::ZoomIn => ActionView::ZoomIn,
            Action::ZoomOut => ActionView::ZoomOut,
            Action::ZoomReset => ActionView::ZoomReset,
            Action::Recenter => ActionView::Recenter,
            Action::Retidy => ActionView::Retidy,
            Action::SelectNext => ActionView::SelectNext,
            Action::SelectPrev => ActionView::SelectPrev,
            Action::RenameRoom => ActionView::RenameRoom,
            Action::RenameLayer => ActionView::RenameLayer,
            Action::EditNotes => ActionView::EditNotes,
            Action::DeleteSelectedConnection => ActionView::DeleteSelectedConnection,
            Action::RelabelSelectedEdge => ActionView::RelabelSelectedEdge,
            Action::MergeLayer => ActionView::MergeLayer,
            Action::ToggleInspector => ActionView::ToggleInspector,
            Action::ToggleRoomNumbers => ActionView::ToggleRoomNumbers,
            Action::ToggleMapRenderer => ActionView::ToggleMapRenderer,
            Action::ToggleLocMethod => ActionView::ToggleLocMethod,
            Action::ToggleAlignment => ActionView::ToggleAlignment,
            Action::TogglePortalLabels => ActionView::TogglePortalLabels,
            Action::OpenGallery => ActionView::OpenGallery,
            Action::ToggleMap => ActionView::ToggleMap,
            Action::ToggleFocus => ActionView::ToggleFocus,
            Action::ToggleInventory => ActionView::ToggleInventory,
            Action::ToggleStatusBar => ActionView::ToggleStatusBar,
            Action::ResizePanes => ActionView::ResizePanes,
            Action::ResizeReset => ActionView::ResizeReset,
            Action::OpenStyleEditor => ActionView::OpenStyleEditor,
            Action::OpenConfig => ActionView::OpenConfig,
            Action::ReloadStyle => ActionView::ReloadStyle,
            Action::ToggleWatch => ActionView::ToggleWatch,
            Action::AnimateTidy => ActionView::AnimateTidy,
            Action::AnimTogglePlay => ActionView::AnimTogglePlay,
            Action::AnimExit => ActionView::AnimExit,
            Action::SetVolume(x0) => ActionView::SetVolume(*x0),
            Action::Pan(x0, x1) => ActionView::Pan(*x0, *x1),
            Action::ZoomBy(x0) => ActionView::ZoomBy(*x0),
            Action::CycleLayer(x0) => ActionView::CycleLayer(*x0),
            Action::NudgeSelected(x0, x1) => ActionView::NudgeSelected(*x0, *x1),
            Action::PeelLayer(x0) => ActionView::PeelLayer(*x0),
            Action::AnimStep(x0) => ActionView::AnimStep(*x0),
            Action::ExportSvg(p) => ActionView::ExportSvg(opt_view(*p)),
            Action::ExportDot(p) => ActionView::ExportDot(opt_view(*p)),
            Action::ExportDump(p) => ActionView::ExportDump(opt_view(*p)),
        }
    }
}

/// Argument for the `filter-transcript` command.
#[derive(Debug, Clone, Copy, PartialEq, Eq, Structural)]
pub enum TranscriptFilterArg {
    Both,
    Story,
    Meta,
}

/// The result of parsing a slash-command body.
#[derive(Debug, Clone, PartialEq)]
pub enum SlashOutcome {
    /// Dispatch an action (pan, zoom, center, tidy, layer, …).
    Action(Action),
    /// Show an informational message on the status line (no effect).
    Message(String),
    /// Show an error message on the status line.
    Error(String),
    /// Print `/help` lines to the transcript as Meta entries.
    Help,
    /// Save the game; optionally to a named slot.
    Save(Option<String>),
    /// Load a save; optionally a named slot.
    Load(Option<String>),
    /// Reset the app; `map: true` also clears the automapper state; `data: true`
    /// also deletes the game's auto persistent data (VFS cache + aux + auto save).
    Reset { map: bool, data: bool },
    /// Quit the application.
    Quit,
    /// Search the transcript; `None` repeats the last search.
    Search(Option<String>),
    /// Filter the transcript by category.
    Filter(TranscriptFilterArg),
    /// Export the visible transcript; `None` uses the default path.
    Export(Option<String>),
    /// Open the Hints panel (caller-handled, like Save/Load).
    OpenHints,
    /// Show per-command detail for `help <name>`.
    HelpCommand(String),
    /// Print the resolved color scheme to the transcript. `actual` = render each
    /// selector line in its own style instead of the plain meta color.
    PrintColors { actual: bool },
    /// Diagnostic: dump the live Glk window layout to the transcript.
    DumpWindows,
    /// Diagnostic: list Blorb `Snd` resources (`None`) or play resource `n`.
    PlaySound(Option<u32>),
    /// Load a standalone map file (path argument) into the current session.
    LoadMap(String),
    /// Force this game's `honor_game_colours` on/off (`Some`) or clear the
    /// per-game override (`None` = `auto`).
    SetGameColours(Option<bool>),
    /// Set this game's `borderless_windows` override: `Some(true)` = abut (no
    /// borders), `Some(false)` = keep borders, `None` = clear the override.
    SetGameBorderless(Option<bool>),
}

/// [`SlashOutcome`] with its text payloads as character sequences.
pub enum OutcomeView {
    Action(ActionView),
    Message(Seq<char>),
    Error(Seq<char>),
    Help,
    Save(Option<Seq<char>>),
    Load(Option<Seq<char>>),
    Reset { map: bool, data: bool },
    Quit,
    Search(Option<Seq<char>>),
    Filter(TranscriptFilterArg),
    Export(Option<Seq<char>>),
    OpenHints,
    HelpCommand(Seq<char>),
    PrintColors { actual: bool },
    DumpWindows,
    PlaySound(Option<u32>),
    LoadMap(Seq<char>),
    SetGameColours(Option<bool>),
    SetGameBorderless(Option<bool>),
}

impl View for SlashOutcome {
    type V = OutcomeView;

    open spec fn view(&self) -> OutcomeView {
        match self {
            SlashOutcome::Action(a) => OutcomeView::Action(a@),
            SlashOutcome::Message(m) => OutcomeView::Message(m@),
            SlashOutcome::Error(m) => OutcomeView::Error(m@),
            SlashOutcome::Help => OutcomeView::Help,
            SlashOutcome::Save(n) => OutcomeView::Save(opt_view(*n)),
            SlashOutcome::Load(n) => OutcomeView::Load(opt_view(*n)),
            SlashOutcome::Reset { map, data } => OutcomeView::Reset { map: *map, data: *data },
            SlashOutcome::Quit => OutcomeView::Quit,
            SlashOutcome::Search(q) => OutcomeView::Search(opt_view(*q)),
            SlashOutcome::Filter(f) => OutcomeView::Filter(*f),
            SlashOutcome::Export(p) => OutcomeView::Export(opt_view(*p)),
            SlashOutcome::OpenHints => OutcomeView::OpenHints,
            SlashOutcome::HelpCommand(n) => OutcomeView::HelpCommand(n@),
            SlashOutcome::PrintColors { actual } => OutcomeView::PrintColors { actual: *actual },
            SlashOutcome::DumpWindows => OutcomeView::DumpWindows,
            SlashOutcome::PlaySound(n) => OutcomeView::PlaySound(*n),
            SlashOutcome::LoadMap(p) => OutcomeView::LoadMap(p@),
            SlashOutcome::SetGameColours(o) => OutcomeView::SetGameColours(*o),
            SlashOutcome::SetGameBorderless(o) => OutcomeView::SetGameBorderless(*o),
        }
    }
}

// ── Category ─────────────────────────────────────────────────────────────────

/// User-facing grouping for `/help` and the hotkey dialog.
#[derive(Debug, Clone, Copy, PartialEq, Eq, Structural)]
pub enum Category {
    Game,
    Mapping,
    View,
    Transcript,
    Style,
    Export,
    Animation,
    Help,
}

pub open spec fn spec_title(c: Category) -> &'static str {
    match c {
        Category::Game => "Game",
        Category::Mapping => "Map",
        Category::View => "View",
        Category::Transcript => "Transcript",
        Category::Style => "Style",
        Category::Export => "Export",
        Category::Animation => "Animation",
        Category::Help => "Help",
    }
}

/// The display order of the categories.
pub open spec fn spec_category_order() -> Seq<Category> {
    seq![
        Category::Game,
        Category::Mapping,
        Category::View,
        Category::Transcript,
        Category::Style,
        Category::Export,
        Category::Animation,
        Category::Help,
    ]
}

impl Category {
    pub const ORDER: [Category; 8] = [
        Category::Game,
        Category::Mapping,
        Category::View,
        Category::Transcript,
        Category::Style,
        Category::Export,
        Category::Animation,
        Category::Help,
    ];

    pub fn title(self) -> (r: &'static str)
        ensures
            r == spec_title(self),
    {
        match self {
            Category::Game => "Game",
            Category::Mapping => "Map",
            Category::View => "View",
            Category::Transcript => "Transcript",
            Category::Style => "Style",
            Category::Export => "Export",
            Category::Animation => "Animation",
            Category::Help => "Help",
        }
    }
}

// ── The registry ─────────────────────────────────────────────────────────────

/// One command: its name, `/help` group, availability, usage line and description.
#[derive(Debug, Clone, Copy, PartialEq, Eq)]
pub struct CommandSpec {
    pub name: &'static str,
    pub category: Category,
    pub context: Context,
    pub usage: &'static str,
    pub description: &'static str,
}

/// Every command, grouped by category in display order.
pub open spec fn command_table() -> Seq<CommandSpec> {
    seq![
        CommandSpec { name: "save-state", category: Category::Game, context: Context::Global,
                usage: "save-state [name]",
                description: "save an emulator Save State, optionally to a named slot" },
            CommandSpec { name: "restore-state", category: Category::Game, context: Context::Global,
                usage: "restore-state [name]",
                description: "restore an emulator Save State, optionally a named slot" },
            CommandSpec { name: "reset-game", category: Category::Game, context: Context::Global,
                usage: "reset-game [map] [data]",
                description: "restart the game — bare opens the options dialog; 'map' also clears the map, 'data' deletes the game's saved progress/cache so it starts fresh" },
            CommandSpec { name: "quit", category: Category::Game, context: Context::Global,
                usage: "quit",
                description: "exit babelmap" },
            CommandSpec { name: "open-hints", category: Category::Game, context: Context::Global,
                usage: "open-hints",
                description: "open the hints panel" },
            CommandSpec { name: "open-history", category: Category::Game, context: Context::Global,
                usage: "open-history",
                description: "open the rewind/replay history" },
            CommandSpec { name: "open-verb-menu", category: Category::Game, context: Context::Global,
                usage: "open-verb-menu",
                description: "open the verb/item palette" },
            CommandSpec { name: "open-saves", category: Category::Game, context: Context::Global,
                usage: "open-saves",
                description: "open the saves manager" },
            CommandSpec { name: "toggle-timed-input", category: Category::Game, context: Context::Global,
                usage: "toggle-timed-input",
                description: "toggle honoring the game's timed-input timers" },
            CommandSpec { name: "toggle-sound", category: Category::Game, context: Context::Global,
                usage: "toggle-sound",
                description: "toggle audio playback (bleeps + sampled sounds)" },
            CommandSpec { name: "volume", category: Category::Game, context: Context::Global,
                usage: "volume <0-100>",
                description: "set the master audio volume (0-100)" },
            CommandSpec { name: "play-sound", category: Category::Game, context: Context::Global,
                usage: "play-sound [n]",
                description: "diagnostic: list Snd resources, or play resource n" },
            CommandSpec { name: "pan-map", category: Category::Mapping, context: Context::MapPane,
                usage: "pan-map <dx> <dy>",
                description: "pan the map by dx columns and dy rows" },
            CommandSpec { name: "zoom-map", category: Category::Mapping, context: Context::MapPane,
                usage: "zoom-map in|out|reset|<n>",
                description: "zoom the map in/out, reset, or step by signed n" },
            CommandSpec { name: "center-map", category: Category::Mapping, context: Context::MapPane,
                usage: "center-map",
                description: "re-center the map on the selected room, or the current one" },
            CommandSpec { name: "tidy-map", category: Category::Mapping, context: Context::MapPane,
                usage: "tidy-map",
                description: "re-run the layout tidy" },
            CommandSpec { name: "cycle-layer", category: Category::Mapping, context: Context::MapPane,
                usage: "cycle-layer next|prev|<n>",
                description: "switch map layer; n is a signed delta" },
            CommandSpec { name: "select-room", category: Category::Mapping, context: Context::MapPane,
                usage: "select-room next|prev",
                description: "move the room selection" },
            CommandSpec { name: "nudge-room", category: Category::Mapping, context: Context::MapPane,
                usage: "nudge-room <dx> <dy>",
                description: "nudge the selected room by dx, dy cells" },
            CommandSpec { name: "rename-room", category: Category::Mapping, context: Context::MapPane,
                usage: "rename-room",
                description: "rename the selected room" },
            CommandSpec { name: "rename-layer", category: Category::Mapping, context: Context::MapPane,
                usage: "rename-layer",
                description: "rename the current layer" },
            CommandSpec { name: "edit-notes", category: Category::Mapping, context: Context::MapPane,
                usage: "edit-notes",
                description: "edit the selected room's notes" },
            CommandSpec { name: "delete-connection", category: Category::Mapping, context: Context::MapPane,
                usage: "delete-connection",
                description: "delete the selected connection" },
            CommandSpec { name: "relabel-edge", category: Category::Mapping, context: Context::MapPane,
                usage: "relabel-edge",
                description: "relabel the selected edge" },
            CommandSpec { name: "peel-layer", category: Category::Mapping, context: Context::MapPane,
                usage: "peel-layer [direction]",
                description: "peel a region into its own layer; a direction cuts at that passage" },
            CommandSpec { name: "merge-layer", category: Category::Mapping, context: Context::MapPane,
                usage: "merge-layer",
                description: "merge the selected layer down" },
            CommandSpec { name: "toggle-inspector", category: Category::Mapping, context: Context::MapPane,
                usage: "toggle-inspector",
                description: "toggle the room-inspector overlay" },
            CommandSpec { name: "load-map", category: Category::Mapping, context: Context::Global,
                usage: "load-map <path>",
                description: "load a standalone map file into the current session" },
            CommandSpec { name: "toggle-room-numbers", category: Category::Mapping, context: Context::Global,
                usage: "toggle-room-numbers",
                description: "toggle room-number labels" },
            CommandSpec { name: "toggle-map-renderer", category: Category::Mapping, context: Context::Global,
                usage: "toggle-map-renderer",
                description: "switch the map between the classic and tile renderers" },
            CommandSpec { name: "toggle-loc-method", category: Category::Mapping, context: Context::Global,
                usage: "toggle-loc-method",
                description: "toggle the room-detection-method indicator" },
            CommandSpec { name: "toggle-alignment", category: Category::Mapping, context: Context::Global,
                usage: "toggle-alignment",
                description: "toggle alignment guides" },
            CommandSpec { name: "toggle-portal-labels", category: Category::Mapping, context: Context::Global,
                usage: "toggle-portal-labels",
                description: "toggle portal labels" },
            CommandSpec { name: "open-gallery", category: Category::Mapping, context: Context::MapPane,
                usage: "open-gallery",
                description: "open the symbol gallery" },
            CommandSpec { name: "toggle-map", category: Category::View, context: Context::Global,
                usage: "toggle-map",
                description: "show or hide the map panel" },
            CommandSpec { name: "toggle-focus", category: Category::View, context: Context::Global,
                usage: "toggle-focus",
                description: "switch focus between panes" },
            CommandSpec { name: "toggle-inventory", category: Category::View, context: Context::Global,
                usage: "toggle-inventory",
                description: "toggle the inventory strip" },
            CommandSpec { name: "toggle-status-bar", category: Category::View, context: Context::Global,
                usage: "toggle-status-bar",
                description: "toggle the status/score bar" },
            CommandSpec { name: "resize-panes", category: Category::View, context: Context::Global,
                usage: "resize-panes",
                description: "enter interactive pane-resize mode" },
            CommandSpec { name: "reset-pane-size", category: Category::View, context: Context::Global,
                usage: "reset-pane-size",
                description: "reset all pane sizes to their defaults" },
            CommandSpec { name: "search-transcript", category: Category::Transcript, context: Context::Global,
                usage: "search-transcript [query]",
                description: "search the transcript; no query repeats the last search" },
            CommandSpec { name: "filter-transcript", category: Category::Transcript, context: Context::Global,
                usage: "filter-transcript story|meta|both",
                description: "filter the transcript by category" },
            CommandSpec { name: "export-transcript", category: Category::Transcript, context: Context::Global,
                usage: "export-transcript [file]",
                description: "export the visible transcript; default path when omitted" },
            CommandSpec { name: "open-style-editor", category: Category::Style, context: Context::Global,
                usage: "open-style-editor",
                description: "open the live style editor" },
            CommandSpec { name: "open-config", category: Category::Style, context: Context::Global,
                usage: "open-config",
                description: "open the settings screen" },
            CommandSpec { name: "reload-style", category: Category::Style, context: Context::Global,
                usage: "reload-style",
                description: "reload style.toml from disk" },
            CommandSpec { name: "toggle-watch", category: Category::Style, context: Context::Global,
                usage: "toggle-watch",
                description: "toggle live style-file watching" },
            CommandSpec { name: "print-colors", category: Category::Style, context: Context::Global,
                usage: "print-colors [color]",
                description: "print the current color scheme (color = actual colors)" },
            CommandSpec { name: "set-game-colours", category: Category::Style, context: Context::Global,
                usage: "set-game-colours on|off|auto",
                description: "force this game's own colours on/off (auto follows garglk.ini/global); persisted per-game" },
            CommandSpec { name: "set-game-borders", category: Category::Style, context: Context::Global,
                usage: "set-game-borders on|off|auto",
                description: "show this game's Glk window borders (on), or render borderless/abutting (off); auto = default (on); persisted per-game" },
            CommandSpec { name: "export-svg", category: Category::Export, context: Context::Global,
                usage: "export-svg [file]",
                description: "export the map as SVG; default path when omitted" },
            CommandSpec { name: "export-dot", category: Category::Export, context: Context::Global,
                usage: "export-dot [file]",
                description: "export the map as Graphviz DOT; default path when omitted" },
            CommandSpec { name: "export-dump", category: Category::Export, context: Context::Global,
                usage: "export-dump [file]",
                description: "dump the map structure; default path when omitted" },
            CommandSpec { name: "animate-tidy", category: Category::Animation, context: Context::Global,
                usage: "animate-tidy",
                description: "animate a tidy pass" },
            CommandSpec { name: "anim-step", category: Category::Animation, context: Context::Anim,
                usage: "anim-step forward|back",
                description: "step the animation one frame" },
            CommandSpec { name: "anim-play", category: Category::Animation, context: Context::Anim,
                usage: "anim-play",
                description: "toggle animation play/pause" },
            CommandSpec { name: "anim-exit", category: Category::Animation, context: Context::Anim,
                usage: "anim-exit",
                description: "exit the animation view" },
            CommandSpec { name: "dump-windows", category: Category::Help, context: Context::Global,
                usage: "dump-windows",
                description: "dump the live Glk window layout (sizes, borders, colours)" },
            CommandSpec { name: "help", category: Category::Help, context: Context::Global,
                usage: "help [command]",
                description: "list all commands by category; with a name, show one command's detail" },
    ]
}

/// The command registry — the single source of truth for every command.
pub fn commands() -> (r: Vec<CommandSpec>)
    ensures
        r@ == command_table(),
{
    vec![
        CommandSpec { name: "save-state", category: Category::Game, context: Context::Global,
            usage: "save-state [name]",
            description: "save an emulator Save State, optionally to a named slot" },
        CommandSpec { name: "restore-state", category: Category::Game, context: Context::Global,
            usage: "restore-state [name]",
            description: "restore an emulator Save State, optionally a named slot" },
        CommandSpec { name: "reset-game", category: Category::Game, context: Context::Global,
            usage: "reset-game [map] [data]",
            description: "restart the game — bare opens the options dialog; 'map' also clears the map, 'data' deletes the game's saved progress/cache so it starts fresh" },
        CommandSpec { name: "quit", category: Category::Game, context: Context::Global,
            usage: "quit",
            description: "exit babelmap" },
        CommandSpec { name: "open-hints", category: Category::Game, context: Context::Global,
            usage: "open-hints",
            description: "open the hints panel" },
        CommandSpec { name: "open-history", category: Category::Game, context: Context::Global,
            usage: "open-history",
            description: "open the rewind/replay history" },
        CommandSpec { name: "open-verb-menu", category: Category::Game, context: Context::Global,
            usage: "open-verb-menu",
            description: "open the verb/item palette" },
        CommandSpec { name: "open-saves", category: Category::Game, context: Context::Global,
            usage: "open-saves",
            description: "open the saves manager" },
        CommandSpec { name: "toggle-timed-input", category: Category::Game, context: Context::Global,
            usage: "toggle-timed-input",
            description: "toggle honoring the game's timed-input timers" },
        CommandSpec { name: "toggle-sound", category: Category::Game, context: Context::Global,
            usage: "toggle-sound",
            description: "toggle audio playback (bleeps + sampled sounds)" },
        CommandSpec { name: "volume", category: Category::Game, context: Context::Global,
            usage: "volume <0-100>",
            description: "set the master audio volume (0-100)" },
        CommandSpec { name: "play-sound", category: Category::Game, context: Context::Global,
            usage: "play-sound [n]",
            description: "diagnostic: list Snd resources, or play resource n" },
        CommandSpec { name: "pan-map", category: Category::Mapping, context: Context::MapPane,
            usage: "pan-map <dx> <dy>",
            description: "pan the map by dx columns and dy rows" },
        CommandSpec { name: "zoom-map", category: Category::Mapping, context: Context::MapPane,
            usage: "zoom-map in|out|reset|<n>",
            description: "zoom the map in/out, reset, or step by signed n" },
        CommandSpec { name: "center-map", category: Category::Mapping, context: Context::MapPane,
            usage: "center-map",
            description: "re-center the map on the selected room, or the current one" },
        CommandSpec { name: "tidy-map", category: Category::Mapping, context: Context::MapPane,
            usage: "tidy-map",
            description: "re-run the layout tidy" },
        CommandSpec { name: "cycle-layer", category: Category::Mapping, context: Context::MapPane,
            usage: "cycle-layer next|prev|<n>",
            description: "switch map layer; n is a signed delta" },
        CommandSpec { name: "select-room", category: Category::Mapping, context: Context::MapPane,
            usage: "select-room next|prev",
            description: "move the room selection" },
        CommandSpec { name: "nudge-room", category: Category::Mapping, context: Context::MapPane,
            usage: "nudge-room <dx> <dy>",
            description: "nudge the selected room by dx, dy cells" },
        CommandSpec { name: "rename-room", category: Category::Mapping, context: Context::MapPane,
            usage: "rename-room",
            description: "rename the selected room" },
        CommandSpec { name: "rename-layer", category: Category::Mapping, context: Context::MapPane,
            usage: "rename-layer",
            description: "rename the current layer" },
        CommandSpec { name: "edit-notes", category: Category::Mapping, context: Context::MapPane,
            usage: "edit-notes",
            description: "edit the selected room's notes" },
        CommandSpec { name: "delete-connection", category: Category::Mapping, context: Context::MapPane,
            usage: "delete-connection",
            description: "delete the selected connection" },
        CommandSpec { name: "relabel-edge", category: Category::Mapping, context: Context::MapPane,
            usage: "relabel-edge",
            description: "relabel the selected edge" },
        CommandSpec { name: "peel-layer", category: Category::Mapping, context: Context::MapPane,
            usage: "peel-layer [direction]",
            description: "peel a region into its own layer; a direction cuts at that passage" },
        CommandSpec { name: "merge-layer", category: Category::Mapping, context: Context::MapPane,
            usage: "merge-layer",
            description: "merge the selected layer down" },
        CommandSpec { name: "toggle-inspector", category: Category::Mapping, context: Context::MapPane,
            usage: "toggle-inspector",
            description: "toggle the room-inspector overlay" },
        CommandSpec { name: "load-map", category: Category::Mapping, context: Context::Global,
            usage: "load-map <path>",
            description: "load a standalone map file into the current session" },
        CommandSpec { name: "toggle-room-numbers", category: Category::Mapping, context: Context::Global,
            usage: "toggle-room-numbers",
            description: "toggle room-number labels" },
        CommandSpec { name: "toggle-map-renderer", category: Category::Mapping, context: Context::Global,
            usage: "toggle-map-renderer",
            description: "switch the map between the classic and tile renderers" },
        CommandSpec { name: "toggle-loc-method", category: Category::Mapping, context: Context::Global,
            usage: "toggle-loc-method",
            description: "toggle the room-detection-method indicator" },
        CommandSpec { name: "toggle-alignment", category: Category::Mapping, context: Context::Global,
            usage: "toggle-alignment",
            description: "toggle alignment guides" },
        CommandSpec { name: "toggle-portal-labels", category: Category::Mapping, context: Context::Global,
            usage: "toggle-portal-labels",
            description: "toggle portal labels" },
        CommandSpec { name: "open-gallery", category: Category::Mapping, context: Context::MapPane,
            usage: "open-gallery",
            description: "open the symbol gallery" },
        CommandSpec { name: "toggle-map", category: Category::View, context: Context::Global,
            usage: "toggle-map",
            description: "show or hide the map panel" },
        CommandSpec { name: "toggle-focus", category: Category::View, context: Context::Global,
            usage: "toggle-focus",
            description: "switch focus between panes" },
        CommandSpec { name: "toggle-inventory", category: Category::View, context: Context::Global,
            usage: "toggle-inventory",
            description: "toggle the inventory strip" },
        CommandSpec { name: "toggle-status-bar", category: Category::View, context: Context::Global,
            usage: "toggle-status-bar",
            description: "toggle the status/score bar" },
        CommandSpec { name: "resize-panes", category: Category::View, context: Context::Global,
            usage: "resize-panes",
            description: "enter interactive pane-resize mode" },
        CommandSpec { name: "reset-pane-size", category: Category::View, context: Context::Global,
            usage: "reset-pane-size",
            description: "reset all pane sizes to their defaults" },
        CommandSpec { name: "search-transcript", category: Category::Transcript, context: Context::Global,
            usage: "search-transcript [query]",
            description: "search the transcript; no query repeats the last search" },
        CommandSpec { name: "filter-transcript", category: Category::Transcript, context: Context::Global,
            usage: "filter-transcript story|meta|both",
            description: "filter the transcript by category" },
        CommandSpec { name: "export-transcript", category: Category::Transcript, context: Context::Global,
            usage: "export-transcript [file]",
            description: "export the visible transcript; default path when omitted" },
        CommandSpec { name: "open-style-editor", category: Category::Style, context: Context::Global,
            usage: "open-style-editor",
            description: "open the live style editor" },
        CommandSpec { name: "open-config", category: Category::Style, context: Context::Global,
            usage: "open-config",
            description: "open the settings screen" },
        CommandSpec { name: "reload-style", category: Category::Style, context: Context::Global,
            usage: "reload-style",
            description: "reload style.toml from disk" },
        CommandSpec { name: "toggle-watch", category: Category::Style, context: Context::Global,
            usage: "toggle-watch",
            description: "toggle live style-file watching" },
        CommandSpec { name: "print-colors", category: Category::Style, context: Context::Global,
            usage: "print-colors [color]",
            description: "print the current color scheme (color = actual colors)" },
        CommandSpec { name: "set-game-colours", category: Category::Style, context: Context::Global,
            usage: "set-game-colours on|off|auto",
            description: "force this game's own colours on/off (auto follows garglk.ini/global); persisted per-game" },
        CommandSpec { name: "set-game-borders", category: Category::Style, context: Context::Global,
            usage: "set-game-borders on|off|auto",
            description: "show this game's Glk window borders (on), or render borderless/abutting (off); auto = default (on); persisted per-game" },
        CommandSpec { name: "export-svg", category: Category::Export, context: Context::Global,
            usage: "export-svg [file]",
            description: "export the map as SVG; default path when omitted" },
        CommandSpec { name: "export-dot", category: Category::Export, context: Context::Global,
            usage: "export-dot [file]",
            description: "export the map as Graphviz DOT; default path when omitted" },
        CommandSpec { name: "export-dump", category: Category::Export, context: Context::Global,
            usage: "export-dump [file]",
            description: "dump the map structure; default path when omitted" },
        CommandSpec { name: "animate-tidy", category: Category::Animation, context: Context::Global,
            usage: "animate-tidy",
            description: "animate a tidy pass" },
        CommandSpec { name: "anim-step", category: Category::Animation, context: Context::Anim,
            usage: "anim-step forward|back",
            description: "step the animation one frame" },
        CommandSpec { name: "anim-play", category: Category::Animation, context: Context::Anim,
            usage: "anim-play",
            description: "toggle animation play/pause" },
        CommandSpec { name: "anim-exit", category: Category::Animation, context: Context::Anim,
            usage: "anim-exit",
            description: "exit the animation view" },
        CommandSpec { name: "dump-windows", category: Category::Help, context: Context::Global,
            usage: "dump-windows",
            description: "dump the live Glk window layout (sizes, borders, colours)" },
        CommandSpec { name: "help", category: Category::Help, context: Context::Global,
            usage: "help [command]",
            description: "list all commands by category; with a name, show one command's detail" },
    ]
}

/// The first argument, if any.
pub open spec fn first_arg(a: Seq<Seq<char>>) -> Option<Seq<char>> {
    if a.len() > 0 { Some(a[0]) } else { None }
}

/// Whether `w` is one of the arguments.
pub open spec fn has_word(a: Seq<Seq<char>>, w: Seq<char>) -> bool {
    exists|i: int| 0 <= i < a.len() && a[i] == w
}

/// Argument `i` read as an `i32`.
pub open spec fn arg_i32(a: Seq<Seq<char>>, i: int) -> Option<int> {
    if 0 <= i < a.len() { spec_parse_in(a[i], true, -0x8000_0000, 0x7fff_ffff) } else { None }
}

/// The arguments joined with single spaces.
pub open spec fn join_words(a: Seq<Seq<char>>) -> Seq<char>
    decreases a.len(),
{
    if a.len() == 0 {
        seq![]
    } else if a.len() == 1 {
        a[0]
    } else {
        join_words(a.drop_last()) + " "@ + a.last()
    }
}

/// What the command named `name` yields for the arguments `a`.
pub open spec fn spec_dispatch(name: Seq<char>, a: Seq<Seq<char>>) -> OutcomeView {
    if name == "save-state"@ {
        OutcomeView::Save(first_arg(a))
    } else     if name == "restore-state"@ {
        OutcomeView::Load(first_arg(a))
    } else     if name == "reset-game"@ {
        OutcomeView::Reset { map: has_word(a, "map"@), data: has_word(a, "data"@) }
    } else     if name == "quit"@ {
        OutcomeView::Quit
    } else     if name == "open-hints"@ {
        OutcomeView::OpenHints
    } else     if name == "open-history"@ {
        OutcomeView::Action(ActionView::OpenHistory)
    } else     if name == "open-verb-menu"@ {
        OutcomeView::Action(ActionView::OpenVerbMenu)
    } else     if name == "open-saves"@ {
        OutcomeView::Action(ActionView::OpenSaves)
    } else     if name == "toggle-timed-input"@ {
        OutcomeView::Action(ActionView::ToggleTimedInput)
    } else     if name == "toggle-sound"@ {
        OutcomeView::Action(ActionView::ToggleSound)
    } else     if name == "volume"@ {
        match first_arg(a) {
            Some(s) => match spec_parse_in(s, false, 0, 255) {
                Some(v) => if v <= 100 {
                    OutcomeView::Action(ActionView::SetVolume(v as u8))
                } else {
                    OutcomeView::Error("volume requires an integer 0-100 (e.g. volume 60)"@)
                },
                None => OutcomeView::Error("volume requires an integer 0-100 (e.g. volume 60)"@),
            },
            None => OutcomeView::Error("volume requires an integer 0-100 (e.g. volume 60)"@),
        }
    } else     if name == "play-sound"@ {
        match first_arg(a) {
            None => OutcomeView::PlaySound(None),
            Some(s) => match spec_parse_in(s, false, 0, 0xffff_ffff) {
                Some(n) => OutcomeView::PlaySound(Some(n as u32)),
                None => OutcomeView::Error("play-sound: expected a resource number, got '"@ + s + "'"@),
            },
        }
    } else     if name == "pan-map"@ {
        match (arg_i32(a, 0), arg_i32(a, 1)) {
            (Some(x), Some(y)) => OutcomeView::Action(ActionView::Pan(x as i32, y as i32)),
            _ => OutcomeView::Error("pan-map requires two integers (e.g. pan-map -3 0)"@),
        }
    } else     if name == "zoom-map"@ {
        match first_arg(a) {
            Some(s) => if s == "in"@ {
                OutcomeView::Action(ActionView::ZoomIn)
            } else if s == "out"@ {
                OutcomeView::Action(ActionView::ZoomOut)
            } else if s == "reset"@ {
                OutcomeView::Action(ActionView::ZoomReset)
            } else {
                match arg_i32(a, 0) {
                    Some(n) => if n == 0 {
                        OutcomeView::Action(ActionView::ZoomReset)
                    } else {
                        OutcomeView::Action(ActionView::ZoomBy(n as i32))
                    },
                    None => OutcomeView::Error("zoom-map: expected in|out|reset|<integer>, got '"@ + s + "'"@),
                }
            },
            None => OutcomeView::Error("zoom-map requires an argument: in|out|reset|<n>"@),
        }
    } else     if name == "center-map"@ {
        OutcomeView::Action(ActionView::Recenter)
    } else     if name == "tidy-map"@ {
        OutcomeView::Action(ActionView::Retidy)
    } else     if name == "cycle-layer"@ {
        match first_arg(a) {
            Some(s) => if s == "next"@ {
                OutcomeView::Action(ActionView::CycleLayer(1))
            } else if s == "prev"@ {
                OutcomeView::Action(ActionView::CycleLayer(-1i32))
            } else {
                match arg_i32(a, 0) {
                    Some(n) => OutcomeView::Action(ActionView::CycleLayer(n as i32)),
                    None => OutcomeView::Error("cycle-layer: expected next|prev|<integer delta>, got '"@ + s + "'"@),
                }
            },
            None => OutcomeView::Error("cycle-layer requires an argument: next|prev|<n>"@),
        }
    } else     if name == "select-room"@ {
        if first_arg(a) == Some("next"@) {
            OutcomeView::Action(ActionView::SelectNext)
        } else if first_arg(a) == Some("prev"@) {
            OutcomeView::Action(ActionView::SelectPrev)
        } else {
            OutcomeView::Error("select-room requires an argument: next|prev"@)
        }
    } else     if name == "nudge-room"@ {
        match (arg_i32(a, 0), arg_i32(a, 1)) {
            (Some(x), Some(y)) => OutcomeView::Action(ActionView::NudgeSelected(x as i32, y as i32)),
            _ => OutcomeView::Error("nudge-room requires two integers (e.g. nudge-room -1 0)"@),
        }
    } else     if name == "rename-room"@ {
        OutcomeView::Action(ActionView::RenameRoom)
    } else     if name == "rename-layer"@ {
        OutcomeView::Action(ActionView::RenameLayer)
    } else     if name == "edit-notes"@ {
        OutcomeView::Action(ActionView::EditNotes)
    } else     if name == "delete-connection"@ {
        OutcomeView::Action(ActionView::DeleteSelectedConnection)
    } else     if name == "relabel-edge"@ {
        OutcomeView::Action(ActionView::RelabelSelectedEdge)
    } else     if name == "peel-layer"@ {
        match first_arg(a) {
            None => OutcomeView::Action(ActionView::PeelLayer(None)),
            Some(s) => match spec_parse_direction(s) {
                Some(d) => OutcomeView::Action(ActionView::PeelLayer(Some(d))),
                None => OutcomeView::Error("peel-layer: '"@ + s + "' is not a direction"@),
            },
        }
    } else     if name == "merge-layer"@ {
        OutcomeView::Action(ActionView::MergeLayer)
    } else     if name == "toggle-inspector"@ {
        OutcomeView::Action(ActionView::ToggleInspector)
    } else     if name == "load-map"@ {
        match first_arg(a) {
            Some(p) => OutcomeView::LoadMap(p),
            None => OutcomeView::Error("load-map: a file path is required"@),
        }
    } else     if name == "toggle-room-numbers"@ {
        OutcomeView::Action(ActionView::ToggleRoomNumbers)
    } else     if name == "toggle-map-renderer"@ {
        OutcomeView::Action(ActionView::ToggleMapRenderer)
    } else     if name == "toggle-loc-method"@ {
        OutcomeView::Action(ActionView::ToggleLocMethod)
    } else     if name == "toggle-alignment"@ {
        OutcomeView::Action(ActionView::ToggleAlignment)
    } else     if name == "toggle-portal-labels"@ {
        OutcomeView::Action(ActionView::TogglePortalLabels)
    } else     if name == "open-gallery"@ {
        OutcomeView::Action(ActionView::OpenGallery)
    } else     if name == "toggle-map"@ {
        OutcomeView::Action(ActionView::ToggleMap)
    } else     if name == "toggle-focus"@ {
        OutcomeView::Action(ActionView::ToggleFocus)
    } else     if name == "toggle-inventory"@ {
        OutcomeView::Action(ActionView::ToggleInventory)
    } else     if name == "toggle-status-bar"@ {
        OutcomeView::Action(ActionView::ToggleStatusBar)
    } else     if name == "resize-panes"@ {
        OutcomeView::Action(ActionView::ResizePanes)
    } else     if name == "reset-pane-size"@ {
        OutcomeView::Action(ActionView::ResizeReset)
    } else     if name == "search-transcript"@ {
        if a.len() == 0 {
            OutcomeView::Search(None)
        } else {
            OutcomeView::Search(Some(join_words(a)))
        }
    } else     if name == "filter-transcript"@ {
        if first_arg(a) == Some("story"@) {
            OutcomeView::Filter(TranscriptFilterArg::Story)
        } else if first_arg(a) == Some("meta"@) {
            OutcomeView::Filter(TranscriptFilterArg::Meta)
        } else if first_arg(a) == Some("both"@) {
            OutcomeView::Filter(TranscriptFilterArg::Both)
        } else {
            OutcomeView::Error("filter-transcript: use story | meta | both"@)
        }
    } else     if name == "export-transcript"@ {
        OutcomeView::Export(first_arg(a))
    } else     if name == "open-style-editor"@ {
        OutcomeView::Action(ActionView::OpenStyleEditor)
    } else     if name == "open-config"@ {
        OutcomeView::Action(ActionView::OpenConfig)
    } else     if name == "reload-style"@ {
        OutcomeView::Action(ActionView::ReloadStyle)
    } else     if name == "toggle-watch"@ {
        OutcomeView::Action(ActionView::ToggleWatch)
    } else     if name == "print-colors"@ {
        OutcomeView::PrintColors { actual: first_arg(a) == Some("color"@) }
    } else     if name == "set-game-colours"@ {
        if first_arg(a) == Some("on"@) {
            OutcomeView::SetGameColours(Some(true))
        } else if first_arg(a) == Some("off"@) {
            OutcomeView::SetGameColours(Some(false))
        } else if first_arg(a) == Some("auto"@) {
            OutcomeView::SetGameColours(None)
        } else {
            OutcomeView::Error("set-game-colours requires an argument: on | off | auto"@)
        }
    } else     if name == "set-game-borders"@ {
        if first_arg(a) == Some("on"@) {
            OutcomeView::SetGameBorderless(Some(false))
        } else if first_arg(a) == Some("off"@) {
            OutcomeView::SetGameBorderless(Some(true))
        } else if first_arg(a) == Some("auto"@) {
            OutcomeView::SetGameBorderless(None)
        } else {
            OutcomeView::Error("set-game-borders requires an argument: on | off | auto"@)
        }
    } else     if name == "export-svg"@ {
        OutcomeView::Action(ActionView::ExportSvg(first_arg(a)))
    } else     if name == "export-dot"@ {
        OutcomeView::Action(ActionView::ExportDot(first_arg(a)))
    } else     if name == "export-dump"@ {
        OutcomeView::Action(ActionView::ExportDump(first_arg(a)))
    } else     if name == "animate-tidy"@ {
        OutcomeView::Action(ActionView::AnimateTidy)
    } else     if name == "anim-step"@ {
        if first_arg(a) == Some("forward"@) {
            OutcomeView::Action(ActionView::AnimStep(1))
        } else if first_arg(a) == Some("back"@) {
            OutcomeView::Action(ActionView::AnimStep(-1i32))
        } else {
            OutcomeView::Error("anim-step requires an argument: forward|back"@)
        }
    } else     if name == "anim-play"@ {
        OutcomeView::Action(ActionView::AnimTogglePlay)
    } else     if name == "anim-exit"@ {
        OutcomeView::Action(ActionView::AnimExit)
    } else     if name == "dump-windows"@ {
        OutcomeView::DumpWindows
    } else     if name == "help"@ {
        OutcomeView::Help
    } else {
        OutcomeView::Error("unknown command"@)
    }
}

/// The views of a list of character vectors.
pub open spec fn views(v: Seq<Vec<char>>) -> Seq<Seq<char>> {
    v.map_values(|x: Vec<char>| x@)
}

fn first_string(args: &[Vec<char>]) -> (r: Option<String>)
    ensures
        opt_view(r) == first_arg(views(args@)),
{
    if args.len() > 0 { Some(string_of(&args[0])) } else { None }
}

fn first_is(args: &[Vec<char>], w: &str) -> (r: bool)
    ensures
        r == (first_arg(views(args@)) == Some(w@)),
{
    args.len() > 0 && eq_lit(&args[0], w)
}

fn has_word_exec(args: &[Vec<char>], w: &str) -> (r: bool)
    ensures
        r == has_word(views(args@), w@),
{
    let mut i: usize = 0;
    while i < args.len()
        invariant
            i <= args@.len(),
            forall|j: int| 0 <= j < i ==> views(args@)[j] != w@,
        decreases args@.len() - i,
    {
        if eq_lit(&args[i], w) {
            assert(views(args@)[i as int] == w@);
            return true;
        }
        i += 1;
    }
    false
}

fn arg_i32_exec(args: &[Vec<char>], i: usize) -> (r: Option<i32>)
    ensures
        r is Some <==> arg_i32(views(args@), i as int) is Some,
        r matches Some(v) ==> arg_i32(views(args@), i as int) == Some(v as int),
{
    if i < args.len() {
        match parse_in(&args[i], true, -0x8000_0000, 0x7fff_ffff) {
            Some(v) => Some(v as i32),
            None => None,
        }
    } else {
        None
    }
}

fn join_words_exec(args: &[Vec<char>]) -> (r: String)
    ensures
        r@ == join_words(views(args@)),
{
    let mut s = String::new();
    let mut i: usize = 0;
    while i < args.len()
        invariant
            i <= args@.len(),
            s@ == join_words(views(args@).take(i as int)),
        decreases args@.len() - i,
    {
        if i > 0 {
            s.append(" ");
        }
        let w = string_of(&args[i]);
        s.append(w.as_str());
        proof {
            let t = views(args@).take(i + 1);
            assert(t.drop_last() =~= views(args@).take(i as int));
            if i == 0 {
                assert(views(args@).take(0) =~= Seq::<Seq<char>>::empty());
            }
        }
        i += 1;
    }
    assert(views(args@).take(i as int) =~= views(args@));
    s
}

/// `pre`, the characters `s`, then `post`.
fn framed(pre: &str, s: &[char], post: &str) -> (r: String)
    ensures
        r@ == pre@ + s@ + post@,
{
    let mut r = owned(pre);
    let m = string_of(s);
    r.append(m.as_str());
    r.append(post);
    r
}

impl CommandSpec {
    /// Runs this command on its (already split) arguments.
    #[verifier::rlimit(100)]
    pub fn dispatch(&self, args: &[Vec<char>]) -> (r: SlashOutcome)
        ensures
            r@ == spec_dispatch(self.name@, views(args@)),
    {
        let n = chars_of(self.name);
        if eq_lit(&n, "save-state") {
            SlashOutcome::Save(first_string(args))
        } else         if eq_lit(&n, "restore-state") {
            SlashOutcome::Load(first_string(args))
        } else         if eq_lit(&n, "reset-game") {
            SlashOutcome::Reset { map: has_word_exec(args, "map"), data: has_word_exec(args, "data") }
        } else         if eq_lit(&n, "quit") {
            SlashOutcome::Quit
        } else         if eq_lit(&n, "open-hints") {
            SlashOutcome::OpenHints
        } else         if eq_lit(&n, "open-history") {
            SlashOutcome::Action(Action::OpenHistory)
        } else         if eq_lit(&n, "open-verb-menu") {
            SlashOutcome::Action(Action::OpenVerbMenu)
        } else         if eq_lit(&n, "open-saves") {
            SlashOutcome::Action(Action::OpenSaves)
        } else         if eq_lit(&n, "toggle-timed-input") {
            SlashOutcome::Action(Action::ToggleTimedInput)
        } else         if eq_lit(&n, "toggle-sound") {
            SlashOutcome::Action(Action::ToggleSound)
        } else         if eq_lit(&n, "volume") {
            if args.len() > 0 {
                match parse_in(&args[0], false, 0, 255) {
                    Some(v) => if v <= 100 {
                        SlashOutcome::Action(Action::SetVolume(v as u8))
                    } else {
                        SlashOutcome::Error(owned("volume requires an integer 0-100 (e.g. volume 60)"))
                    },
                    None => SlashOutcome::Error(owned("volume requires an integer 0-100 (e.g. volume 60)")),
                }
            } else {
                SlashOutcome::Error(owned("volume requires an integer 0-100 (e.g. volume 60)"))
            }
        } else         if eq_lit(&n, "play-sound") {
            if args.len() == 0 {
                SlashOutcome::PlaySound(None)
            } else {
                match parse_in(&args[0], false, 0, 0xffff_ffff) {
                    Some(n) => SlashOutcome::PlaySound(Some(n as u32)),
                    None => SlashOutcome::Error(framed("play-sound: expected a resource number, got '", &args[0], "'")),
                }
            }
        } else         if eq_lit(&n, "pan-map") {
            match (arg_i32_exec(args, 0), arg_i32_exec(args, 1)) {
                (Some(x), Some(y)) => SlashOutcome::Action(Action::Pan(x, y)),
                _ => SlashOutcome::Error(owned("pan-map requires two integers (e.g. pan-map -3 0)")),
            }
        } else         if eq_lit(&n, "zoom-map") {
            if args.len() > 0 {
                if eq_lit(&args[0], "in") {
                    SlashOutcome::Action(Action::ZoomIn)
                } else if eq_lit(&args[0], "out") {
                    SlashOutcome::Action(Action::ZoomOut)
                } else if eq_lit(&args[0], "reset") {
                    SlashOutcome::Action(Action::ZoomReset)
                } else {
                    match arg_i32_exec(args, 0) {
                        Some(n) => if n == 0 {
                            SlashOutcome::Action(Action::ZoomReset)
                        } else {
                            SlashOutcome::Action(Action::ZoomBy(n))
                        },
                        None => SlashOutcome::Error(framed("zoom-map: expected in|out|reset|<integer>, got '", &args[0], "'")),
                    }
                }
            } else {
                SlashOutcome::Error(owned("zoom-map requires an argument: in|out|reset|<n>"))
            }
        } else         if eq_lit(&n, "center-map") {
            SlashOutcome::Action(Action::Recenter)
        } else         if eq_lit(&n, "tidy-map") {
            SlashOutcome::Action(Action::Retidy)
        } else         if eq_lit(&n, "cycle-layer") {
            if args.len() > 0 {
                if eq_lit(&args[0], "next") {
                    SlashOutcome::Action(Action::CycleLayer(1))
                } else if eq_lit(&args[0], "prev") {
                    SlashOutcome::Action(Action::CycleLayer(-1))
                } else {
                    match arg_i32_exec(args, 0) {
                        Some(n) => SlashOutcome::Action(Action::CycleLayer(n)),
                        None => SlashOutcome::Error(framed("cycle-layer: expected next|prev|<integer delta>, got '", &args[0], "'")),
                    }
                }
            } else {
                SlashOutcome::Error(owned("cycle-layer requires an argument: next|prev|<n>"))
            }
        } else         if eq_lit(&n, "select-room") {
            if first_is(args, "next") {
                SlashOutcome::Action(Action::SelectNext)
            } else if first_is(args, "prev") {
                SlashOutcome::Action(Action::SelectPrev)
            } else {
                SlashOutcome::Error(owned("select-room requires an argument: next|prev"))
            }
        } else         if eq_lit(&n, "nudge-room") {
            match (arg_i32_exec(args, 0), arg_i32_exec(args, 1)) {
                (Some(x), Some(y)) => SlashOutcome::Action(Action::NudgeSelected(x, y)),
                _ => SlashOutcome::Error(owned("nudge-room requires two integers (e.g. nudge-room -1 0)")),
            }
        } else         if eq_lit(&n, "rename-room") {
            SlashOutcome::Action(Action::RenameRoom)
        } else         if eq_lit(&n, "rename-layer") {
            SlashOutcome::Action(Action::RenameLayer)
        } else         if eq_lit(&n, "edit-notes") {
            SlashOutcome::Action(Action::EditNotes)
        } else         if eq_lit(&n, "delete-connection") {
            SlashOutcome::Action(Action::DeleteSelectedConnection)
        } else         if eq_lit(&n, "relabel-edge") {
            SlashOutcome::Action(Action::RelabelSelectedEdge)
        } else         if eq_lit(&n, "peel-layer") {
            if args.len() == 0 {
                SlashOutcome::Action(Action::PeelLayer(None))
            } else {
                match parse_direction(&args[0]) {
                    Some(d) => SlashOutcome::Action(Action::PeelLayer(Some(d))),
                    None => SlashOutcome::Error(framed("peel-layer: '", &args[0], "' is not a direction")),
                }
            }
        } else         if eq_lit(&n, "merge-layer") {
            SlashOutcome::Action(Action::MergeLayer)
        } else         if eq_lit(&n, "toggle-inspector") {
            SlashOutcome::Action(Action::ToggleInspector)
        } else         if eq_lit(&n, "load-map") {
            if args.len() > 0 {
                SlashOutcome::LoadMap(string_of(&args[0]))
            } else {
                SlashOutcome::Error(owned("load-map: a file path is required"))
            }
        } else         if eq_lit(&n, "toggle-room-numbers") {
            SlashOutcome::Action(Action::ToggleRoomNumbers)
        } else         if eq_lit(&n, "toggle-map-renderer") {
            SlashOutcome::Action(Action::ToggleMapRenderer)
        } else         if eq_lit(&n, "toggle-loc-method") {
            SlashOutcome::Action(Action::ToggleLocMethod)
        } else         if eq_lit(&n, "toggle-alignment") {
            SlashOutcome::Action(Action::ToggleAlignment)
        } else         if eq_lit(&n, "toggle-portal-labels") {
            SlashOutcome::Action(Action::TogglePortalLabels)
        } else         if eq_lit(&n, "open-gallery") {
            SlashOutcome::Action(Action::OpenGallery)
        } else         if eq_lit(&n, "toggle-map") {
            SlashOutcome::Action(Action::ToggleMap)
        } else         if eq_lit(&n, "toggle-focus") {
            SlashOutcome::Action(Action::ToggleFocus)
        } else         if eq_lit(&n, "toggle-inventory") {
            SlashOutcome::Action(Action::ToggleInventory)
        } else         if eq_lit(&n, "toggle-status-bar") {
            SlashOutcome::Action(Action::ToggleStatusBar)
        } else         if eq_lit(&n, "resize-panes") {
            SlashOutcome::Action(Action::ResizePanes)
        } else         if eq_lit(&n, "reset-pane-size") {
            SlashOutcome::Action(Action::ResizeReset)
        } else         if eq_lit(&n, "search-transcript") {
            if args.len() == 0 {
                SlashOutcome::Search(None)
            } else {
                SlashOutcome::Search(Some(join_words_exec(args)))
            }
        } else         if eq_lit(&n, "filter-transcript") {
            if first_is(args, "story") {
                SlashOutcome::Filter(TranscriptFilterArg::Story)
            } else if first_is(args, "meta") {
                SlashOutcome::Filter(TranscriptFilterArg::Meta)
            } else if first_is(args, "both") {
                SlashOutcome::Filter(TranscriptFilterArg::Both)
            } else {
                SlashOutcome::Error(owned("filter-transcript: use story | meta | both"))
            }
        } else         if eq_lit(&n, "export-transcript") {
            SlashOutcome::Export(first_string(args))
        } else         if eq_lit(&n, "open-style-editor") {
            SlashOutcome::Action(Action::OpenStyleEditor)
        } else         if eq_lit(&n, "open-config") {
            SlashOutcome::Action(Action::OpenConfig)
        } else         if eq_lit(&n, "reload-style") {
            SlashOutcome::Action(Action::ReloadStyle)
        } else         if eq_lit(&n, "toggle-watch") {
            SlashOutcome::Action(Action::ToggleWatch)
        } else         if eq_lit(&n, "print-colors") {
            SlashOutcome::PrintColors { actual: first_is(args, "color") }
        } else         if eq_lit(&n, "set-game-colours") {
            if first_is(args, "on") {
                SlashOutcome::SetGameColours(Some(true))
            } else if first_is(args, "off") {
                SlashOutcome::SetGameColours(Some(false))
            } else if first_is(args, "auto") {
                SlashOutcome::SetGameColours(None)
            } else {
                SlashOutcome::Error(owned("set-game-colours requires an argument: on | off | auto"))
            }
        } else         if eq_lit(&n, "set-game-borders") {
            if first_is(args, "on") {
                SlashOutcome::SetGameBorderless(Some(false))
            } else if first_is(args, "off") {
                SlashOutcome::SetGameBorderless(Some(true))
            } else if first_is(args, "auto") {
                SlashOutcome::SetGameBorderless(None)
            } else {
                SlashOutcome::Error(owned("set-game-borders requires an argument: on | off | auto"))
            }
        } else         if eq_lit(&n, "export-svg") {
            SlashOutcome::Action(Action::ExportSvg(first_string(args)))
        } else         if eq_lit(&n, "export-dot") {
            SlashOutcome::Action(Action::ExportDot(first_string(args)))
        } else         if eq_lit(&n, "export-dump") {
            SlashOutcome::Action(Action::ExportDump(first_string(args)))
        } else         if eq_lit(&n, "animate-tidy") {
            SlashOutcome::Action(Action::AnimateTidy)
        } else         if eq_lit(&n, "anim-step") {
            if first_is(args, "forward") {
                SlashOutcome::Action(Action::AnimStep(1))
            } else if first_is(args, "back") {
                SlashOutcome::Action(Action::AnimStep(-1))
            } else {
                SlashOutcome::Error(owned("anim-step requires an argument: forward|back"))
            }
        } else         if eq_lit(&n, "anim-play") {
            SlashOutcome::Action(Action::AnimTogglePlay)
        } else         if eq_lit(&n, "anim-exit") {
            SlashOutcome::Action(Action::AnimExit)
        } else         if eq_lit(&n, "dump-windows") {
            SlashOutcome::DumpWindows
        } else         if eq_lit(&n, "help") {
            SlashOutcome::Help
        } else {
            SlashOutcome::Error(owned("unknown command"))
        }
    }
}

// ── The registry's names ─────────────────────────────────────────────────────

/// An index of the registry is one of its entries' positions.
proof fn lemma_registry_index_cases(i: int)
    requires 0 <= i < 59,
    ensures i == 0 || i == 1 || i == 2 || i == 3 || i == 4 || i == 5 || i == 6 || i == 7 || i == 8 || i == 9 || i == 10 || i == 11 || i == 12 || i == 13 || i == 14 || i == 15 || i == 16 || i == 17 || i == 18 || i == 19 || i == 20 || i == 21 || i == 22 || i == 23 || i == 24 || i == 25 || i == 26 || i == 27 || i == 28 || i == 29 || i == 30 || i == 31 || i == 32 || i == 33 || i == 34 || i == 35 || i == 36 || i == 37 || i == 38 || i == 39 || i == 40 || i == 41 || i == 42 || i == 43 || i == 44 || i == 45 || i == 46 || i == 47 || i == 48 || i == 49 || i == 50 || i == 51 || i == 52 || i == 53 || i == 54 || i == 55 || i == 56 || i == 57 || i == 58,
{
}

/// No two commands of the registry share a name, and every name is hyphenated
/// except `quit`, `help` and `volume`.
#[verifier::rlimit(100)]
pub proof fn lemma_registry_names_well_formed()
    ensures
        command_table().len() == 59,
        command_table()[12].name@ == "pan-map"@,
        command_table()[44].name@ == "open-config"@,
        forall|i: int| 0 <= i < command_table().len() ==> #[trigger] command_table()[i].name@ != "panh"@,
        forall|i: int, j: int|
            0 <= i < j < command_table().len() ==> #[trigger] command_table()[i].name@ != #[trigger] command_table()[j].name@,
        forall|i: int|
            0 <= i < command_table().len() ==> (#[trigger] command_table()[i].name@).contains('-')
                || command_table()[i].name@ == "quit"@ || command_table()[i].name@ == "help"@ || command_table()[i].name@ == "volume"@,

{
    reveal_strlit("save-state");
    assert(command_table()[0].name@ == "save-state"@);
    assert("save-state"@.len() == 10);
    assert("save-state"@[0] == 's');
    assert("save-state"@[1] == 'a');
    assert("save-state"@[2] == 'v');
    assert("save-state"@[3] == 'e');
    assert("save-state"@[4] == '-');
    assert("save-state"@[5] == 's');
    assert("save-state"@[6] == 't');
    assert("save-state"@[7] == 'a');
    assert("save-state"@[8] == 't');
    assert("save-state"@[9] == 'e');
    reveal_strlit("restore-state");
    assert(command_table()[1].name@ == "restore-state"@);
    assert("restore-state"@.len() == 13);
    assert("restore-state"@[0] == 'r');
    assert("restore-state"@[1] == 'e');
    assert("restore-state"@[2] == 's');
    assert("restore-state"@[3] == 't');
    assert("restore-state"@[4] == 'o');
    assert("restore-state"@[5] == 'r');
    assert("restore-state"@[6] == 'e');
    assert("restore-state"@[7] == '-');
    assert("restore-state"@[8] == 's');
    assert("restore-state"@[9] == 't');
    assert("restore-state"@[10] == 'a');
    assert("restore-state"@[11] == 't');
    assert("restore-state"@[12] == 'e');
    reveal_strlit("reset-game");
    assert(command_table()[2].name@ == "reset-game"@);
    assert("reset-game"@.len() == 10);
    assert("reset-game"@[0] == 'r');
    assert("reset-game"@[1] == 'e');
    assert("reset-game"@[2] == 's');
    assert("reset-game"@[3] == 'e');
    assert("reset-game"@[4] == 't');
    assert("reset-game"@[5] == '-');
    assert("reset-game"@[6] == 'g');
    assert("reset-game"@[7] == 'a');
    assert("reset-game"@[8] == 'm');
    assert("reset-game"@[9] == 'e');
    reveal_strlit("quit");
    assert(command_table()[3].name@ == "quit"@);
    assert("quit"@.len() == 4);
    assert("quit"@[0] == 'q');
    assert("quit"@[1] == 'u');
    assert("quit"@[2] == 'i');
    assert("quit"@[3] == 't');
    reveal_strlit("open-hints");
    assert(command_table()[4].name@ == "open-hints"@);
    assert("open-hints"@.len() == 10);
    assert("open-hints"@[0] == 'o');
    assert("open-hints"@[1] == 'p');
    assert("open-hints"@[2] == 'e');
    assert("open-hints"@[3] == 'n');
    assert("open-hints"@[4] == '-');
    assert("open-hints"@[5] == 'h');
    assert("open-hints"@[6] == 'i');
    assert("open-hints"@[7] == 'n');
    assert("open-hints"@[8] == 't');
    assert("open-hints"@[9] == 's');
    reveal_strlit("open-history");
    assert(command_table()[5].name@ == "open-history"@);
    assert("open-history"@.len() == 12);
    assert("open-history"@[0] == 'o');
    assert("open-history"@[1] == 'p');
    assert("open-history"@[2] == 'e');
    assert("open-history"@[3] == 'n');
    assert("open-history"@[4] == '-');
    assert("open-history"@[5] == 'h');
    assert("open-history"@[6] == 'i');
    assert("open-history"@[7] == 's');
    assert("open-history"@[8] == 't');
    assert("open-history"@[9] == 'o');
    assert("open-history"@[10] == 'r');
    assert("open-history"@[11] == 'y');
    reveal_strlit("open-verb-menu");
    assert(command_table()[6].name@ == "open-verb-menu"@);
    assert("open-verb-menu"@.len() == 14);
    assert("open-verb-menu"@[0] == 'o');
    assert("open-verb-menu"@[1] == 'p');
    assert("open-verb-menu"@[2] == 'e');
    assert("open-verb-menu"@[3] == 'n');
    assert("open-verb-menu"@[4] == '-');
    assert("open-verb-menu"@[5] == 'v');
    assert("open-verb-menu"@[6] == 'e');
    assert("open-verb-menu"@[7] == 'r');
    assert("open-verb-menu"@[8] == 'b');
    assert("open-verb-menu"@[9] == '-');
    assert("open-verb-menu"@[10] == 'm');
    assert("open-verb-menu"@[11] == 'e');
    assert("open-verb-menu"@[12] == 'n');
    assert("open-verb-menu"@[13] == 'u');
    reveal_strlit("open-saves");
    assert(command_table()[7].name@ == "open-saves"@);
    assert("open-saves"@.len() == 10);
    assert("open-saves"@[0] == 'o');
    assert("open-saves"@[1] == 'p');
    assert("open-saves"@[2] == 'e');
    assert("open-saves"@[3] == 'n');
    assert("open-saves"@[4] == '-');
    assert("open-saves"@[5] == 's');
    assert("open-saves"@[6] == 'a');
    assert("open-saves"@[7] == 'v');
    assert("open-saves"@[8] == 'e');
    assert("open-saves"@[9] == 's');
    reveal_strlit("toggle-timed-input");
    assert(command_table()[8].name@ == "toggle-timed-input"@);
    assert("toggle-timed-input"@.len() == 18);
    assert("toggle-timed-input"@[0] == 't');
    assert("toggle-timed-input"@[1] == 'o');
    assert("toggle-timed-input"@[2] == 'g');
    assert("toggle-timed-input"@[3] == 'g');
    assert("toggle-timed-input"@[4] == 'l');
    assert("toggle-timed-input"@[5] == 'e');
    assert("toggle-timed-input"@[6] == '-');
    assert("toggle-timed-input"@[7] == 't');
    assert("toggle-timed-input"@[8] == 'i');
    assert("toggle-timed-input"@[9] == 'm');
    assert("toggle-timed-input"@[10] == 'e');
    assert("toggle-timed-input"@[11] == 'd');
    assert("toggle-timed-input"@[12] == '-');
    assert("toggle-timed-input"@[13] == 'i');
    assert("toggle-timed-input"@[14] == 'n');
    assert("toggle-timed-input"@[15] == 'p');
    assert("toggle-timed-input"@[16] == 'u');
    assert("toggle-timed-input"@[17] == 't');
    reveal_strlit("toggle-sound");
    assert(command_table()[9].name@ == "toggle-sound"@);
    assert("toggle-sound"@.len() == 12);
    assert("toggle-sound"@[0] == 't');
    assert("toggle-sound"@[1] == 'o');
    assert("toggle-sound"@[2] == 'g');
    assert("toggle-sound"@[3] == 'g');
    assert("toggle-sound"@[4] == 'l');
    assert("toggle-sound"@[5] == 'e');
    assert("toggle-sound"@[6] == '-');
    assert("toggle-sound"@[7] == 's');
    assert("toggle-sound"@[8] == 'o');
    assert("toggle-sound"@[9] == 'u');
    assert("toggle-sound"@[10] == 'n');
    assert("toggle-sound"@[11] == 'd');
    reveal_strlit("volume");
    assert(command_table()[10].name@ == "volume"@);
    assert("volume"@.len() == 6);
    assert("volume"@[0] == 'v');
    assert("volume"@[1] == 'o');
    assert("volume"@[2] == 'l');
    assert("volume"@[3] == 'u');
    assert("volume"@[4] == 'm');
    assert("volume"@[5] == 'e');
    reveal_strlit("play-sound");
    assert(command_table()[11].name@ == "play-sound"@);
    assert("play-sound"@.len() == 10);
    assert("play-sound"@[0] == 'p');
    assert("play-sound"@[1] == 'l');
    assert("play-sound"@[2] == 'a');
    assert("play-sound"@[3] == 'y');
    assert("play-sound"@[4] == '-');
    assert("play-sound"@[5] == 's');
    assert("play-sound"@[6] == 'o');
    assert("play-sound"@[7] == 'u');
    assert("play-sound"@[8] == 'n');
    assert("play-sound"@[9] == 'd');
    reveal_strlit("pan-map");
    assert(command_table()[12].name@ == "pan-map"@);
    assert("pan-map"@.len() == 7);
    assert("pan-map"@[0] == 'p');
    assert("pan-map"@[1] == 'a');
    assert("pan-map"@[2] == 'n');
    assert("pan-map"@[3] == '-');
    assert("pan-map"@[4] == 'm');
    assert("pan-map"@[5] == 'a');
    assert("pan-map"@[6] == 'p');
    reveal_strlit("zoom-map");
    assert(command_table()[13].name@ == "zoom-map"@);
    assert("zoom-map"@.len() == 8);
    assert("zoom-map"@[0] == 'z');
    assert("zoom-map"@[1] == 'o');
    assert("zoom-map"@[2] == 'o');
    assert("zoom-map"@[3] == 'm');
    assert("zoom-map"@[4] == '-');
    assert("zoom-map"@[5] == 'm');
    assert("zoom-map"@[6] == 'a');
    assert("zoom-map"@[7] == 'p');
    reveal_strlit("center-map");
    assert(command_table()[14].name@ == "center-map"@);
    assert("center-map"@.len() == 10);
    assert("center-map"@[0] == 'c');
    assert("center-map"@[1] == 'e');
    assert("center-map"@[2] == 'n');
    assert("center-map"@[3] == 't');
    assert("center-map"@[4] == 'e');
    assert("center-map"@[5] == 'r');
    assert("center-map"@[6] == '-');
    assert("center-map"@[7] == 'm');
    assert("center-map"@[8] == 'a');
    assert("center-map"@[9] == 'p');
    reveal_strlit("tidy-map");
    assert(command_table()[15].name@ == "tidy-map"@);
    assert("tidy-map"@.len() == 8);
    assert("tidy-map"@[0] == 't');
    assert("tidy-map"@[1] == 'i');
    assert("tidy-map"@[2] == 'd');
    assert("tidy-map"@[3] == 'y');
    assert("tidy-map"@[4] == '-');
    assert("tidy-map"@[5] == 'm');
    assert("tidy-map"@[6] == 'a');
    assert("tidy-map"@[7] == 'p');
    reveal_strlit("cycle-layer");
    assert(command_table()[16].name@ == "cycle-layer"@);
    assert("cycle-layer"@.len() == 11);
    assert("cycle-layer"@[0] == 'c');
    assert("cycle-layer"@[1] == 'y');
    assert("cycle-layer"@[2] == 'c');
    assert("cycle-layer"@[3] == 'l');
    assert("cycle-layer"@[4] == 'e');
    assert("cycle-layer"@[5] == '-');
    assert("cycle-layer"@[6] == 'l');
    assert("cycle-layer"@[7] == 'a');
    assert("cycle-layer"@[8] == 'y');
    assert("cycle-layer"@[9] == 'e');
    assert("cycle-layer"@[10] == 'r');
    reveal_strlit("select-room");
    assert(command_table()[17].name@ == "select-room"@);
    assert("select-room"@.len() == 11);
    assert("select-room"@[0] == 's');
    assert("select-room"@[1] == 'e');
    assert("select-room"@[2] == 'l');
    assert("select-room"@[3] == 'e');
    assert("select-room"@[4] == 'c');
    assert("select-room"@[5] == 't');
    assert("select-room"@[6] == '-');
    assert("select-room"@[7] == 'r');
    assert("select-room"@[8] == 'o');
    assert("select-room"@[9] == 'o');
    assert("select-room"@[10] == 'm');
    reveal_strlit("nudge-room");
    assert(command_table()[18].name@ == "nudge-room"@);
    assert("nudge-room"@.len() == 10);
    assert("nudge-room"@[0] == 'n');
    assert("nudge-room"@[1] == 'u');
    assert("nudge-room"@[2] == 'd');
    assert("nudge-room"@[3] == 'g');
    assert("nudge-room"@[4] == 'e');
    assert("nudge-room"@[5] == '-');
    assert("nudge-room"@[6] == 'r');
    assert("nudge-room"@[7] == 'o');
    assert("nudge-room"@[8] == 'o');
    assert("nudge-room"@[9] == 'm');
    reveal_strlit("rename-room");
    assert(command_table()[19].name@ == "rename-room"@);
    assert("rename-room"@.len() == 11);
    assert("rename-room"@[0] == 'r');
    assert("rename-room"@[1] == 'e');
    assert("rename-room"@[2] == 'n');
    assert("rename-room"@[3] == 'a');
    assert("rename-room"@[4] == 'm');
    assert("rename-room"@[5] == 'e');
    assert("rename-room"@[6] == '-');
    assert("rename-room"@[7] == 'r');
    assert("rename-room"@[8] == 'o');
    assert("rename-room"@[9] == 'o');
    assert("rename-room"@[10] == 'm');
    reveal_strlit("rename-layer");
    assert(command_table()[20].name@ == "rename-layer"@);
    assert("rename-layer"@.len() == 12);
    assert("rename-layer"@[0] == 'r');
    assert("rename-layer"@[1] == 'e');
    assert("rename-layer"@[2] == 'n');
    assert("rename-layer"@[3] == 'a');
    assert("rename-layer"@[4] == 'm');
    assert("rename-layer"@[5] == 'e');
    assert("rename-layer"@[6] == '-');
    assert("rename-layer"@[7] == 'l');
    assert("rename-layer"@[8] == 'a');
    assert("rename-layer"@[9] == 'y');
    assert("rename-layer"@[10] == 'e');
    assert("rename-layer"@[11] == 'r');
    reveal_strlit("edit-notes");
    assert(command_table()[21].name@ == "edit-notes"@);
    assert("edit-notes"@.len() == 10);
    assert("edit-notes"@[0] == 'e');
    assert("edit-notes"@[1] == 'd');
    assert("edit-notes"@[2] == 'i');
    assert("edit-notes"@[3] == 't');
    assert("edit-notes"@[4] == '-');
    assert("edit-notes"@[5] == 'n');
    assert("edit-notes"@[6] == 'o');
    assert("edit-notes"@[7] == 't');
    assert("edit-notes"@[8] == 'e');
    assert("edit-notes"@[9] == 's');
    reveal_strlit("delete-connection");
    assert(command_table()[22].name@ == "delete-connection"@);
    assert("delete-connection"@.len() == 17);
    assert("delete-connection"@[0] == 'd');
    assert("delete-connection"@[1] == 'e');
    assert("delete-connection"@[2] == 'l');
    assert("delete-connection"@[3] == 'e');
    assert("delete-connection"@[4] == 't');
    assert("delete-connection"@[5] == 'e');
    assert("delete-connection"@[6] == '-');
    assert("delete-connection"@[7] == 'c');
    assert("delete-connection"@[8] == 'o');
    assert("delete-connection"@[9] == 'n');
    assert("delete-connection"@[10] == 'n');
    assert("delete-connection"@[11] == 'e');
    assert("delete-connection"@[12] == 'c');
    assert("delete-connection"@[13] == 't');
    assert("delete-connection"@[14] == 'i');
    assert("delete-connection"@[15] == 'o');
    assert("delete-connection"@[16] == 'n');
    reveal_strlit("relabel-edge");
    assert(command_table()[23].name@ == "relabel-edge"@);
    assert("relabel-edge"@.len() == 12);
    assert("relabel-edge"@[0] == 'r');
    assert("relabel-edge"@[1] == 'e');
    assert("relabel-edge"@[2] == 'l');
    assert("relabel-edge"@[3] == 'a');
    assert("relabel-edge"@[4] == 'b');
    assert("relabel-edge"@[5] == 'e');
    assert("relabel-edge"@[6] == 'l');
    assert("relabel-edge"@[7] == '-');
    assert("relabel-edge"@[8] == 'e');
    assert("relabel-edge"@[9] == 'd');
    assert("relabel-edge"@[10] == 'g');
    assert("relabel-edge"@[11] == 'e');
    reveal_strlit("peel-layer");
    assert(command_table()[24].name@ == "peel-layer"@);
    assert("peel-layer"@.len() == 10);
    assert("peel-layer"@[0] == 'p');
    assert("peel-layer"@[1] == 'e');
    assert("peel-layer"@[2] == 'e');
    assert("peel-layer"@[3] == 'l');
    assert("peel-layer"@[4] == '-');
    assert("peel-layer"@[5] == 'l');
    assert("peel-layer"@[6] == 'a');
    assert("peel-layer"@[7] == 'y');
    assert("peel-layer"@[8] == 'e');
    assert("peel-layer"@[9] == 'r');
    reveal_strlit("merge-layer");
    assert(command_table()[25].name@ == "merge-layer"@);
    assert("merge-layer"@.len() == 11);
    assert("merge-layer"@[0] == 'm');
    assert("merge-layer"@[1] == 'e');
    assert("merge-layer"@[2] == 'r');
    assert("merge-layer"@[3] == 'g');
    assert("merge-layer"@[4] == 'e');
    assert("merge-layer"@[5] == '-');
    assert("merge-layer"@[6] == 'l');
    assert("merge-layer"@[7] == 'a');
    assert("merge-layer"@[8] == 'y');
    assert("merge-layer"@[9] == 'e');
    assert("merge-layer"@[10] == 'r');
    reveal_strlit("toggle-inspector");
    assert(command_table()[26].name@ == "toggle-inspector"@);
    assert("toggle-inspector"@.len() == 16);
    assert("toggle-inspector"@[0] == 't');
    assert("toggle-inspector"@[1] == 'o');
    assert("toggle-inspector"@[2] == 'g');
    assert("toggle-inspector"@[3] == 'g');
    assert("toggle-inspector"@[4] == 'l');
    assert("toggle-inspector"@[5] == 'e');
    assert("toggle-inspector"@[6] == '-');
    assert("toggle-inspector"@[7] == 'i');
    assert("toggle-inspector"@[8] == 'n');
    assert("toggle-inspector"@[9] == 's');
    assert("toggle-inspector"@[10] == 'p');
    assert("toggle-inspector"@[11] == 'e');
    assert("toggle-inspector"@[12] == 'c');
    assert("toggle-inspector"@[13] == 't');
    assert("toggle-inspector"@[14] == 'o');
    assert("toggle-inspector"@[15] == 'r');
    reveal_strlit("load-map");
    assert(command_table()[27].name@ == "load-map"@);
    assert("load-map"@.len() == 8);
    assert("load-map"@[0] == 'l');
    assert("load-map"@[1] == 'o');
    assert("load-map"@[2] == 'a');
    assert("load-map"@[3] == 'd');
    assert("load-map"@[4] == '-');
    assert("load-map"@[5] == 'm');
    assert("load-map"@[6] == 'a');
    assert("load-map"@[7] == 'p');
    reveal_strlit("toggle-room-numbers");
    assert(command_table()[28].name@ == "toggle-room-numbers"@);
    assert("toggle-room-numbers"@.len() == 19);
    assert("toggle-room-numbers"@[0] == 't');
    assert("toggle-room-numbers"@[1] == 'o');
    assert("toggle-room-numbers"@[2] == 'g');
    assert("toggle-room-numbers"@[3] == 'g');
    assert("toggle-room-numbers"@[4] == 'l');
    assert("toggle-room-numbers"@[5] == 'e');
    assert("toggle-room-numbers"@[6] == '-');
    assert("toggle-room-numbers"@[7] == 'r');
    assert("toggle-room-numbers"@[8] == 'o');
    assert("toggle-room-numbers"@[9] == 'o');
    assert("toggle-room-numbers"@[10] == 'm');
    assert("toggle-room-numbers"@[11] == '-');
    assert("toggle-room-numbers"@[12] == 'n');
    assert("toggle-room-numbers"@[13] == 'u');
    assert("toggle-room-numbers"@[14] == 'm');
    assert("toggle-room-numbers"@[15] == 'b');
    assert("toggle-room-numbers"@[16] == 'e');
    assert("toggle-room-numbers"@[17] == 'r');
    assert("toggle-room-numbers"@[18] == 's');
    reveal_strlit("toggle-map-renderer");
    assert(command_table()[29].name@ == "toggle-map-renderer"@);
    assert("toggle-map-renderer"@.len() == 19);
    assert("toggle-map-renderer"@[0] == 't');
    assert("toggle-map-renderer"@[1] == 'o');
    assert("toggle-map-renderer"@[2] == 'g');
    assert("toggle-map-renderer"@[3] == 'g');
    assert("toggle-map-renderer"@[4] == 'l');
    assert("toggle-map-renderer"@[5] == 'e');
    assert("toggle-map-renderer"@[6] == '-');
    assert("toggle-map-renderer"@[7] == 'm');
    assert("toggle-map-renderer"@[8] == 'a');
    assert("toggle-map-renderer"@[9] == 'p');
    assert("toggle-map-renderer"@[10] == '-');
    assert("toggle-map-renderer"@[11] == 'r');
    assert("toggle-map-renderer"@[12] == 'e');
    assert("toggle-map-renderer"@[13] == 'n');
    assert("toggle-map-renderer"@[14] == 'd');
    assert("toggle-map-renderer"@[15] == 'e');
    assert("toggle-map-renderer"@[16] == 'r');
    assert("toggle-map-renderer"@[17] == 'e');
    assert("toggle-map-renderer"@[18] == 'r');
    reveal_strlit("toggle-loc-method");
    assert(command_table()[30].name@ == "toggle-loc-method"@);
    assert("toggle-loc-method"@.len() == 17);
    assert("toggle-loc-method"@[0] == 't');
    assert("toggle-loc-method"@[1] == 'o');
    assert("toggle-loc-method"@[2] == 'g');
    assert("toggle-loc-method"@[3] == 'g');
    assert("toggle-loc-method"@[4] == 'l');
    assert("toggle-loc-method"@[5] == 'e');
    assert("toggle-loc-method"@[6] == '-');
    assert("toggle-loc-method"@[7] == 'l');
    assert("toggle-loc-method"@[8] == 'o');
    assert("toggle-loc-method"@[9] == 'c');
    assert("toggle-loc-method"@[10] == '-');
    assert("toggle-loc-method"@[11] == 'm');
    assert("toggle-loc-method"@[12] == 'e');
    assert("toggle-loc-method"@[13] == 't');
    assert("toggle-loc-method"@[14] == 'h');
    assert("toggle-loc-method"@[15] == 'o');
    assert("toggle-loc-method"@[16] == 'd');
    reveal_strlit("toggle-alignment");
    assert(command_table()[31].name@ == "toggle-alignment"@);
    assert("toggle-alignment"@.len() == 16);
    assert("toggle-alignment"@[0] == 't');
    assert("toggle-alignment"@[1] == 'o');
    assert("toggle-alignment"@[2] == 'g');
    assert("toggle-alignment"@[3] == 'g');
    assert("toggle-alignment"@[4] == 'l');
    assert("toggle-alignment"@[5] == 'e');
    assert("toggle-alignment"@[6] == '-');
    assert("toggle-alignment"@[7] == 'a');
    assert("toggle-alignment"@[8] == 'l');
    assert("toggle-alignment"@[9] == 'i');
    assert("toggle-alignment"@[10] == 'g');
    assert("toggle-alignment"@[11] == 'n');
    assert("toggle-alignment"@[12] == 'm');
    assert("toggle-alignment"@[13] == 'e');
    assert("toggle-alignment"@[14] == 'n');
    assert("toggle-alignment"@[15] == 't');
    reveal_strlit("toggle-portal-labels");
    assert(command_table()[32].name@ == "toggle-portal-labels"@);
    assert("toggle-portal-labels"@.len() == 20);
    assert("toggle-portal-labels"@[0] == 't');
    assert("toggle-portal-labels"@[1] == 'o');
    assert("toggle-portal-labels"@[2] == 'g');
    assert("toggle-portal-labels"@[3] == 'g');
    assert("toggle-portal-labels"@[4] == 'l');
    assert("toggle-portal-labels"@[5] == 'e');
    assert("toggle-portal-labels"@[6] == '-');
    assert("toggle-portal-labels"@[7] == 'p');
    assert("toggle-portal-labels"@[8] == 'o');
    assert("toggle-portal-labels"@[9] == 'r');
    assert("toggle-portal-labels"@[10] == 't');
    assert("toggle-portal-labels"@[11] == 'a');
    assert("toggle-portal-labels"@[12] == 'l');
    assert("toggle-portal-labels"@[13] == '-');
    assert("toggle-portal-labels"@[14] == 'l');
    assert("toggle-portal-labels"@[15] == 'a');
    assert("toggle-portal-labels"@[16] == 'b');
    assert("toggle-portal-labels"@[17] == 'e');
    assert("toggle-portal-labels"@[18] == 'l');
    assert("toggle-portal-labels"@[19] == 's');
    reveal_strlit("open-gallery");
    assert(command_table()[33].name@ == "open-gallery"@);
    assert("open-gallery"@.len() == 12);
    assert("open-gallery"@[0] == 'o');
    assert("open-gallery"@[1] == 'p');
    assert("open-gallery"@[2] == 'e');
    assert("open-gallery"@[3] == 'n');
    assert("open-gallery"@[4] == '-');
    assert("open-gallery"@[5] == 'g');
    assert("open-gallery"@[6] == 'a');
    assert("open-gallery"@[7] == 'l');
    assert("open-gallery"@[8] == 'l');
    assert("open-gallery"@[9] == 'e');
    assert("open-gallery"@[10] == 'r');
    assert("open-gallery"@[11] == 'y');
    reveal_strlit("toggle-map");
    assert(command_table()[34].name@ == "toggle-map"@);
    assert("toggle-map"@.len() == 10);
    assert("toggle-map"@[0] == 't');
    assert("toggle-map"@[1] == 'o');
    assert("toggle-map"@[2] == 'g');
    assert("toggle-map"@[3] == 'g');
    assert("toggle-map"@[4] == 'l');
    assert("toggle-map"@[5] == 'e');
    assert("toggle-map"@[6] == '-');
    assert("toggle-map"@[7] == 'm');
    assert("toggle-map"@[8] == 'a');
    assert("toggle-map"@[9] == 'p');
    reveal_strlit("toggle-focus");
    assert(command_table()[35].name@ == "toggle-focus"@);
    assert("toggle-focus"@.len() == 12);
    assert("toggle-focus"@[0] == 't');
    assert("toggle-focus"@[1] == 'o');
    assert("toggle-focus"@[2] == 'g');
    assert("toggle-focus"@[3] == 'g');
    assert("toggle-focus"@[4] == 'l');
    assert("toggle-focus"@[5] == 'e');
    assert("toggle-focus"@[6] == '-');
    assert("toggle-focus"@[7] == 'f');
    assert("toggle-focus"@[8] == 'o');
    assert("toggle-focus"@[9] == 'c');
    assert("toggle-focus"@[10] == 'u');
    assert("toggle-focus"@[11] == 's');
    reveal_strlit("toggle-inventory");
    assert(command_table()[36].name@ == "toggle-inventory"@);
    assert("toggle-inventory"@.len() == 16);
    assert("toggle-inventory"@[0] == 't');
    assert("toggle-inventory"@[1] == 'o');
    assert("toggle-inventory"@[2] == 'g');
    assert("toggle-inventory"@[3] == 'g');
    assert("toggle-inventory"@[4] == 'l');
    assert("toggle-inventory"@[5] == 'e');
    assert("toggle-inventory"@[6] == '-');
    assert("toggle-inventory"@[7] == 'i');
    assert("toggle-inventory"@[8] == 'n');
    assert("toggle-inventory"@[9] == 'v');
    assert("toggle-inventory"@[10] == 'e');
    assert("toggle-inventory"@[11] == 'n');
    assert("toggle-inventory"@[12] == 't');
    assert("toggle-inventory"@[13] == 'o');
    assert("toggle-inventory"@[14] == 'r');
    assert("toggle-inventory"@[15] == 'y');
    reveal_strlit("toggle-status-bar");
    assert(command_table()[37].name@ == "toggle-status-bar"@);
    assert("toggle-status-bar"@.len() == 17);
    assert("toggle-status-bar"@[0] == 't');
    assert("toggle-status-bar"@[1] == 'o');
    assert("toggle-status-bar"@[2] == 'g');
    assert("toggle-status-bar"@[3] == 'g');
    assert("toggle-status-bar"@[4] == 'l');
    assert("toggle-status-bar"@[5] == 'e');
    assert("toggle-status-bar"@[6] == '-');
    assert("toggle-status-bar"@[7] == 's');
    assert("toggle-status-bar"@[8] == 't');
    assert("toggle-status-bar"@[9] == 'a');
    assert("toggle-status-bar"@[10] == 't');
    assert("toggle-status-bar"@[11] == 'u');
    assert("toggle-status-bar"@[12] == 's');
    assert("toggle-status-bar"@[13] == '-');
    assert("toggle-status-bar"@[14] == 'b');
    assert("toggle-status-bar"@[15] == 'a');
    assert("toggle-status-bar"@[16] == 'r');
    reveal_strlit("resize-panes");
    assert(command_table()[38].name@ == "resize-panes"@);
    assert("resize-panes"@.len() == 12);
    assert("resize-panes"@[0] == 'r');
    assert("resize-panes"@[1] == 'e');
    assert("resize-panes"@[2] == 's');
    assert("resize-panes"@[3] == 'i');
    assert("resize-panes"@[4] == 'z');
    assert("resize-panes"@[5] == 'e');
    assert("resize-panes"@[6] == '-');
    assert("resize-panes"@[7] == 'p');
    assert("resize-panes"@[8] == 'a');
    assert("resize-panes"@[9] == 'n');
    assert("resize-panes"@[10] == 'e');
    assert("resize-panes"@[11] == 's');
    reveal_strlit("reset-pane-size");
    assert(command_table()[39].name@ == "reset-pane-size"@);
    assert("reset-pane-size"@.len() == 15);
    assert("reset-pane-size"@[0] == 'r');
    assert("reset-pane-size"@[1] == 'e');
    assert("reset-pane-size"@[2] == 's');
    assert("reset-pane-size"@[3] == 'e');
    assert("reset-pane-size"@[4] == 't');
    assert("reset-pane-size"@[5] == '-');
    assert("reset-pane-size"@[6] == 'p');
    assert("reset-pane-size"@[7] == 'a');
    assert("reset-pane-size"@[8] == 'n');
    assert("reset-pane-size"@[9] == 'e');
    assert("reset-pane-size"@[10] == '-');
    assert("reset-pane-size"@[11] == 's');
    assert("reset-pane-size"@[12] == 'i');
    assert("reset-pane-size"@[13] == 'z');
    assert("reset-pane-size"@[14] == 'e');
    reveal_strlit("search-transcript");
    assert(command_table()[40].name@ == "search-transcript"@);
    assert("search-transcript"@.len() == 17);
    assert("search-transcript"@[0] == 's');
    assert("search-transcript"@[1] == 'e');
    assert("search-transcript"@[2] == 'a');
    assert("search-transcript"@[3] == 'r');
    assert("search-transcript"@[4] == 'c');
    assert("search-transcript"@[5] == 'h');
    assert("search-transcript"@[6] == '-');
    assert("search-transcript"@[7] == 't');
    assert("search-transcript"@[8] == 'r');
    assert("search-transcript"@[9] == 'a');
    assert("search-transcript"@[10] == 'n');
    assert("search-transcript"@[11] == 's');
    assert("search-transcript"@[12] == 'c');
    assert("search-transcript"@[13] == 'r');
    assert("search-transcript"@[14] == 'i');
    assert("search-transcript"@[15] == 'p');
    assert("search-transcript"@[16] == 't');
    reveal_strlit("filter-transcript");
    assert(command_table()[41].name@ == "filter-transcript"@);
    assert("filter-transcript"@.len() == 17);
    assert("filter-transcript"@[0] == 'f');
    assert("filter-transcript"@[1] == 'i');
    assert("filter-transcript"@[2] == 'l');
    assert("filter-transcript"@[3] == 't');
    assert("filter-transcript"@[4] == 'e');
    assert("filter-transcript"@[5] == 'r');
    assert("filter-transcript"@[6] == '-');
    assert("filter-transcript"@[7] == 't');
    assert("filter-transcript"@[8] == 'r');
    assert("filter-transcript"@[9] == 'a');
    assert("filter-transcript"@[10] == 'n');
    assert("filter-transcript"@[11] == 's');
    assert("filter-transcript"@[12] == 'c');
    assert("filter-transcript"@[13] == 'r');
    assert("filter-transcript"@[14] == 'i');
    assert("filter-transcript"@[15] == 'p');
    assert("filter-transcript"@[16] == 't');
    reveal_strlit("export-transcript");
    assert(command_table()[42].name@ == "export-transcript"@);
    assert("export-transcript"@.len() == 17);
    assert("export-transcript"@[0] == 'e');
    assert("export-transcript"@[1] == 'x');
    assert("export-transcript"@[2] == 'p');
    assert("export-transcript"@[3] == 'o');
    assert("export-transcript"@[4] == 'r');
    assert("export-transcript"@[5] == 't');
    assert("export-transcript"@[6] == '-');
    assert("export-transcript"@[7] == 't');
    assert("export-transcript"@[8] == 'r');
    assert("export-transcript"@[9] == 'a');
    assert("export-transcript"@[10] == 'n');
    assert("export-transcript"@[11] == 's');
    assert("export-transcript"@[12] == 'c');
    assert("export-transcript"@[13] == 'r');
    assert("export-transcript"@[14] == 'i');
    assert("export-transcript"@[15] == 'p');
    assert("export-transcript"@[16] == 't');
    reveal_strlit("open-style-editor");
    assert(command_table()[43].name@ == "open-style-editor"@);
    assert("open-style-editor"@.len() == 17);
    assert("open-style-editor"@[0] == 'o');
    assert("open-style-editor"@[1] == 'p');
    assert("open-style-editor"@[2] == 'e');
    assert("open-style-editor"@[3] == 'n');
    assert("open-style-editor"@[4] == '-');
    assert("open-style-editor"@[5] == 's');
    assert("open-style-editor"@[6] == 't');
    assert("open-style-editor"@[7] == 'y');
    assert("open-style-editor"@[8] == 'l');
    assert("open-style-editor"@[9] == 'e');
    assert("open-style-editor"@[10] == '-');
    assert("open-style-editor"@[11] == 'e');
    assert("open-style-editor"@[12] == 'd');
    assert("open-style-editor"@[13] == 'i');
    assert("open-style-editor"@[14] == 't');
    assert("open-style-editor"@[15] == 'o');
    assert("open-style-editor"@[16] == 'r');
    reveal_strlit("open-config");
    assert(command_table()[44].name@ == "open-config"@);
    assert("open-config"@.len() == 11);
    assert("open-config"@[0] == 'o');
    assert("open-config"@[1] == 'p');
    assert("open-config"@[2] == 'e');
    assert("open-config"@[3] == 'n');
    assert("open-config"@[4] == '-');
    assert("open-config"@[5] == 'c');
    assert("open-config"@[6] == 'o');
    assert("open-config"@[7] == 'n');
    assert("open-config"@[8] == 'f');
    assert("open-config"@[9] == 'i');
    assert("open-config"@[10] == 'g');
    reveal_strlit("reload-style");
    assert(command_table()[45].name@ == "reload-style"@);
    assert("reload-style"@.len() == 12);
    assert("reload-style"@[0] == 'r');
    assert("reload-style"@[1] == 'e');
    assert("reload-style"@[2] == 'l');
    assert("reload-style"@[3] == 'o');
    assert("reload-style"@[4] == 'a');
    assert("reload-style"@[5] == 'd');
    assert("reload-style"@[6] == '-');
    assert("reload-style"@[7] == 's');
    assert("reload-style"@[8] == 't');
    assert("reload-style"@[9] == 'y');
    assert("reload-style"@[10] == 'l');
    assert("reload-style"@[11] == 'e');
    reveal_strlit("toggle-watch");
    assert(command_table()[46].name@ == "toggle-watch"@);
    assert("toggle-watch"@.len() == 12);
    assert("toggle-watch"@[0] == 't');
    assert("toggle-watch"@[1] == 'o');
    assert("toggle-watch"@[2] == 'g');
    assert("toggle-watch"@[3] == 'g');
    assert("toggle-watch"@[4] == 'l');
    assert("toggle-watch"@[5] == 'e');
    assert("toggle-watch"@[6] == '-');
    assert("toggle-watch"@[7] == 'w');
    assert("toggle-watch"@[8] == 'a');
    assert("toggle-watch"@[9] == 't');
    assert("toggle-watch"@[10] == 'c');
    assert("toggle-watch"@[11] == 'h');
    reveal_strlit("print-colors");
    assert(command_table()[47].name@ == "print-colors"@);
    assert("print-colors"@.len() == 12);
    assert("print-colors"@[0] == 'p');
    assert("print-colors"@[1] == 'r');
    assert("print-colors"@[2] == 'i');
    assert("print-colors"@[3] == 'n');
    assert("print-colors"@[4] == 't');
    assert("print-colors"@[5] == '-');
    assert("print-colors"@[6] == 'c');
    assert("print-colors"@[7] == 'o');
    assert("print-colors"@[8] == 'l');
    assert("print-colors"@[9] == 'o');
    assert("print-colors"@[10] == 'r');
    assert("print-colors"@[11] == 's');
    reveal_strlit("set-game-colours");
    assert(command_table()[48].name@ == "set-game-colours"@);
    assert("set-game-colours"@.len() == 16);
    assert("set-game-colours"@[0] == 's');
    assert("set-game-colours"@[1] == 'e');
    assert("set-game-colours"@[2] == 't');
    assert("set-game-colours"@[3] == '-');
    assert("set-game-colours"@[4] == 'g');
    assert("set-game-colours"@[5] == 'a');
    assert("set-game-colours"@[6] == 'm');
    assert("set-game-colours"@[7] == 'e');
    assert("set-game-colours"@[8] == '-');
    assert("set-game-colours"@[9] == 'c');
    assert("set-game-colours"@[10] == 'o');
    assert("set-game-colours"@[11] == 'l');
    assert("set-game-colours"@[12] == 'o');
    assert("set-game-colours"@[13] == 'u');
    assert("set-game-colours"@[14] == 'r');
    assert("set-game-colours"@[15] == 's');
    reveal_strlit("set-game-borders");
    assert(command_table()[49].name@ == "set-game-borders"@);
    assert("set-game-borders"@.len() == 16);
    assert("set-game-borders"@[0] == 's');
    assert("set-game-borders"@[1] == 'e');
    assert("set-game-borders"@[2] == 't');
    assert("set-game-borders"@[3] == '-');
    assert("set-game-borders"@[4] == 'g');
    assert("set-game-borders"@[5] == 'a');
    assert("set-game-borders"@[6] == 'm');
    assert("set-game-borders"@[7] == 'e');
    assert("set-game-borders"@[8] == '-');
    assert("set-game-borders"@[9] == 'b');
    assert("set-game-borders"@[10] == 'o');
    assert("set-game-borders"@[11] == 'r');
    assert("set-game-borders"@[12] == 'd');
    assert("set-game-borders"@[13] == 'e');
    assert("set-game-borders"@[14] == 'r');
    assert("set-game-borders"@[15] == 's');
    reveal_strlit("export-svg");
    assert(command_table()[50].name@ == "export-svg"@);
    assert("export-svg"@.len() == 10);
    assert("export-svg"@[0] == 'e');
    assert("export-svg"@[1] == 'x');
    assert("export-svg"@[2] == 'p');
    assert("export-svg"@[3] == 'o');
    assert("export-svg"@[4] == 'r');
    assert("export-svg"@[5] == 't');
    assert("export-svg"@[6] == '-');
    assert("export-svg"@[7] == 's');
    assert("export-svg"@[8] == 'v');
    assert("export-svg"@[9] == 'g');
    reveal_strlit("export-dot");
    assert(command_table()[51].name@ == "export-dot"@);
    assert("export-dot"@.len() == 10);
    assert("export-dot"@[0] == 'e');
    assert("export-dot"@[1] == 'x');
    assert("export-dot"@[2] == 'p');
    assert("export-dot"@[3] == 'o');
    assert("export-dot"@[4] == 'r');
    assert("export-dot"@[5] == 't');
    assert("export-dot"@[6] == '-');
    assert("export-dot"@[7] == 'd');
    assert("export-dot"@[8] == 'o');
    assert("export-dot"@[9] == 't');
    reveal_strlit("export-dump");
    assert(command_table()[52].name@ == "export-dump"@);
    assert("export-dump"@.len() == 11);
    assert("export-dump"@[0] == 'e');
    assert("export-dump"@[1] == 'x');
    assert("export-dump"@[2] == 'p');
    assert("export-dump"@[3] == 'o');
    assert("export-dump"@[4] == 'r');
    assert("export-dump"@[5] == 't');
    assert("export-dump"@[6] == '-');
    assert("export-dump"@[7] == 'd');
    assert("export-dump"@[8] == 'u');
    assert("export-dump"@[9] == 'm');
    assert("export-dump"@[10] == 'p');
    reveal_strlit("animate-tidy");
    assert(command_table()[53].name@ == "animate-tidy"@);
    assert("animate-tidy"@.len() == 12);
    assert("animate-tidy"@[0] == 'a');
    assert("animate-tidy"@[1] == 'n');
    assert("animate-tidy"@[2] == 'i');
    assert("animate-tidy"@[3] == 'm');
    assert("animate-tidy"@[4] == 'a');
    assert("animate-tidy"@[5] == 't');
    assert("animate-tidy"@[6] == 'e');
    assert("animate-tidy"@[7] == '-');
    assert("animate-tidy"@[8] == 't');
    assert("animate-tidy"@[9] == 'i');
    assert("animate-tidy"@[10] == 'd');
    assert("animate-tidy"@[11] == 'y');
    reveal_strlit("anim-step");
    assert(command_table()[54].name@ == "anim-step"@);
    assert("anim-step"@.len() == 9);
    assert("anim-step"@[0] == 'a');
    assert("anim-step"@[1] == 'n');
    assert("anim-step"@[2] == 'i');
    assert("anim-step"@[3] == 'm');
    assert("anim-step"@[4] == '-');
    assert("anim-step"@[5] == 's');
    assert("anim-step"@[6] == 't');
    assert("anim-step"@[7] == 'e');
    assert("anim-step"@[8] == 'p');
    reveal_strlit("anim-play");
    assert(command_table()[55].name@ == "anim-play"@);
    assert("anim-play"@.len() == 9);
    assert("anim-play"@[0] == 'a');
    assert("anim-play"@[1] == 'n');
    assert("anim-play"@[2] == 'i');
    assert("anim-play"@[3] == 'm');
    assert("anim-play"@[4] == '-');
    assert("anim-play"@[5] == 'p');
    assert("anim-play"@[6] == 'l');
    assert("anim-play"@[7] == 'a');
    assert("anim-play"@[8] == 'y');
    reveal_strlit("anim-exit");
    assert(command_table()[56].name@ == "anim-exit"@);
    assert("anim-exit"@.len() == 9);
    assert("anim-exit"@[0] == 'a');
    assert("anim-exit"@[1] == 'n');
    assert("anim-exit"@[2] == 'i');
    assert("anim-exit"@[3] == 'm');
    assert("anim-exit"@[4] == '-');
    assert("anim-exit"@[5] == 'e');
    assert("anim-exit"@[6] == 'x');
    assert("anim-exit"@[7] == 'i');
    assert("anim-exit"@[8] == 't');
    reveal_strlit("dump-windows");
    assert(command_table()[57].name@ == "dump-windows"@);
    assert("dump-windows"@.len() == 12);
    assert("dump-windows"@[0] == 'd');
    assert("dump-windows"@[1] == 'u');
    assert("dump-windows"@[2] == 'm');
    assert("dump-windows"@[3] == 'p');
    assert("dump-windows"@[4] == '-');
    assert("dump-windows"@[5] == 'w');
    assert("dump-windows"@[6] == 'i');
    assert("dump-windows"@[7] == 'n');
    assert("dump-windows"@[8] == 'd');
    assert("dump-windows"@[9] == 'o');
    assert("dump-windows"@[10] == 'w');
    assert("dump-windows"@[11] == 's');
    reveal_strlit("help");
    assert(command_table()[58].name@ == "help"@);
    assert("help"@.len() == 4);
    assert("help"@[0] == 'h');
    assert("help"@[1] == 'e');
    assert("help"@[2] == 'l');
    assert("help"@[3] == 'p');
    assert(command_table().len() == 59);
    assert forall|i: int, j: int| 0 <= i < j < 59 implies #[trigger] command_table()[i].name@ != #[trigger] command_table()[j].name@ by {
        lemma_registry_index_cases(i);
        lemma_registry_index_cases(j);
    }
    reveal_strlit("panh");
    assert("panh"@.len() == 4);
    assert("panh"@[0] == 'p');
    assert("panh"@[3] == 'h');
    assert forall|i: int| 0 <= i < 59 implies #[trigger] command_table()[i].name@ != "panh"@ by {
        lemma_registry_index_cases(i);
    }
    assert forall|i: int| 0 <= i < 59 implies (#[trigger] command_table()[i].name@).contains('-')
        || command_table()[i].name@ == "quit"@ || command_table()[i].name@ == "help"@ || command_table()[i].name@ == "volume"@ by {
        lemma_registry_index_cases(i);
    }
}


// ── Lookup and parsing ───────────────────────────────────────────────────────

/// Entry `i` of `t` is the first one named `name`.
pub open spec fn first_named(t: Seq<CommandSpec>, name: Seq<char>, i: int) -> bool {
    &&& 0 <= i < t.len()
    &&& t[i].name@ == name
    &&& forall|j: int| 0 <= j < i ==> (#[trigger] t[j]).name@ != name
}

/// The registry entry named `name` (the first, should two share it).
pub open spec fn spec_find(name: Seq<char>) -> Option<CommandSpec> {
    if exists|i: int| first_named(command_table(), name, i) {
        Some(command_table()[choose|i: int| first_named(command_table(), name, i)])
    } else {
        None
    }
}

/// Each command of the registry is found by its own name.
pub proof fn lemma_registry_finds_each_name()
    ensures
        forall|i: int| 0 <= i < command_table().len() ==> #[trigger] spec_find(command_table()[i].name@) == Some(command_table()[i]),
{
    lemma_registry_names_well_formed();
    assert forall|i: int| 0 <= i < command_table().len() implies #[trigger] spec_find(command_table()[i].name@) == Some(command_table()[i]) by {
        let t = command_table();
        let name = t[i].name@;
        assert forall|j: int| 0 <= j < i implies (#[trigger] t[j]).name@ != name by {
            assert(t[j].name@ != t[i].name@);
        }
        assert(first_named(t, name, i));
        let c = choose|c: int| first_named(t, name, c);
        if c < i {
            assert(t[c].name@ != t[i].name@);
        } else if c > i {
            assert(t[i].name@ != name);
        }
    }
}

fn find_chars(name: &[char]) -> (r: Option<CommandSpec>)
    ensures
        r == spec_find(name@),
{
    let cmds = commands();
    let mut i: usize = 0;
    while i < cmds.len()
        invariant
            cmds@ == command_table(),
            i <= cmds@.len(),
            forall|j: int| 0 <= j < i ==> (#[trigger] command_table()[j]).name@ != name@,
        decreases cmds@.len() - i,
    {
        let c = cmds[i];
        if eq_lit(name, c.name) {
            proof {
                let t = command_table();
                assert(first_named(t, name@, i as int));
                let k = choose|k: int| first_named(t, name@, k);
                assert(first_named(t, name@, k));
                if k < i {
                    assert(t[k].name@ != name@);
                } else if k > i {
                    assert(t[i as int].name@ == name@);
                }
                assert(k == i);
            }
            return Some(c);
        }
        i += 1;
    }
    proof {
        let t = command_table();
        if exists|k: int| first_named(t, name@, k) {
            let k = choose|k: int| first_named(t, name@, k);
            assert(t[k].name@ == name@);
        }
    }
    None
}

/// The registry entry named `name`.
pub fn find_command(name: &str) -> (r: Option<CommandSpec>)
    ensures
        r == spec_find(name@),
{
    let n = chars_of(name);
    find_chars(&n)
}

/// The query of a `search-transcript` line: the raw rest of the line after the
/// command word, without leading spaces and trailing whitespace (internal
/// whitespace is kept).
pub open spec fn search_query(body: Seq<char>) -> Seq<char> {
    trim_end_ws(skip_spaces(after_first_token(body)))
}

/// What parsing `body` in context `ctx` yields; `prefix` only appears in messages.
pub open spec fn spec_parse_in_context(body: Seq<char>, prefix: char, ctx: Context) -> OutcomeView {
    let t = tokens(body);
    if t.len() == 0 {
        OutcomeView::Error("type "@.push(prefix) + "help for commands"@)
    } else if t[0] == "help"@ {
        if t.len() > 1 {
            OutcomeView::HelpCommand(t[1])
        } else {
            OutcomeView::Help
        }
    } else if t[0] == "search-transcript"@ {
        let q = search_query(body);
        if q.len() == 0 {
            OutcomeView::Search(None)
        } else {
            OutcomeView::Search(Some(q))
        }
    } else {
        match spec_find(t[0]) {
            None => OutcomeView::Error(
                "unknown command: "@.push(prefix) + t[0] + " — try "@.push(prefix) + "help"@,
            ),
            Some(c) => if c.context == Context::Anim && ctx != Context::Anim {
                OutcomeView::Error(c.name@ + " is only available during animation playback"@)
            } else {
                spec_dispatch(c.name@, t.drop_first())
            },
        }
    }
}

/// Parses a slash-command body (the text after the prefix) in the global context.
pub fn parse(body: &str, prefix: char) -> (r: SlashOutcome)
    ensures
        r@ == spec_parse_in_context(body@, prefix, Context::Global),
{
    parse_in_context(body, prefix, Context::Global)
}

/// Parses a slash-command body in context `ctx`: commands of the animation
/// context are refused outside it.
#[verifier::rlimit(50)]
pub fn parse_in_context(body: &str, prefix: char, ctx: Context) -> (r: SlashOutcome)
    ensures
        r@ == spec_parse_in_context(body@, prefix, ctx),
{
    let b = chars_of(body);
    let mut toks = split_tokens(&b);
    let ghost t = tokens(body@);
    assert(views(toks@) =~= t);
    if toks.len() == 0 {
        let mut m = owned("type ");
        push_char(&mut m, prefix);
        m.append("help for commands");
        return SlashOutcome::Error(m);
    }
    assert(toks@[0]@ == t[0]);
    if eq_lit(&toks[0], "help") {
        if toks.len() > 1 {
            assert(toks@[1]@ == t[1]);
            return SlashOutcome::HelpCommand(string_of(&toks[1]));
        }
        return SlashOutcome::Help;
    }
    if eq_lit(&toks[0], "search-transcript") {
        let k = first_token_end(&b);
        let q = trimmed_tail(&b, k);
        if q.len() == 0 {
            return SlashOutcome::Search(None);
        } else {
            return SlashOutcome::Search(Some(string_of(&q)));
        }
    }
    match find_chars(&toks[0]) {
        None => {
            let mut m = owned("unknown command: ");
            push_char(&mut m, prefix);
            let w = string_of(&toks[0]);
            m.append(w.as_str());
            m.append(" — try ");
            push_char(&mut m, prefix);
            m.append("help");
            SlashOutcome::Error(m)
        },
        Some(c) => {
            if c.context == Context::Anim && ctx != Context::Anim {
                SlashOutcome::Error(join2(c.name, " is only available during animation playback"))
            } else {
                let _ = toks.remove(0);
                assert(views(toks@) =~= t.drop_first());
                c.dispatch(&toks)
            }
        },
    }
}

/// All command names, in registry order (for Tab completion).
pub fn slash_names() -> (r: Vec<String>)
    ensures
        r@.len() == command_table().len(),
        forall|i: int| 0 <= i < r@.len() ==> (#[trigger] r@[i])@ == command_table()[i].name@,
{
    let cmds = commands();
    let mut out: Vec<String> = Vec::new();
    let mut i: usize = 0;
    while i < cmds.len()
        invariant
            cmds@ == command_table(),
            i <= cmds@.len(),
            out@.len() == i,
            forall|j: int| 0 <= j < i ==> (#[trigger] out@[j])@ == command_table()[j].name@,
        decreases cmds@.len() - i,
    {
        out.push(owned(cmds[i].name));
        i += 1;
    }
    out
}

// ── /help ────────────────────────────────────────────────────────────────────

/// The `/help` line of one command.
pub open spec fn help_line(p: char, c: CommandSpec) -> Seq<char> {
    "  "@.push(p) + c.usage@ + "  — "@ + c.description@
}

/// The entries of `t` in category `cat`, in order.
pub open spec fn group_of(t: Seq<CommandSpec>, cat: Category) -> Seq<CommandSpec>
    decreases t.len(),
{
    if t.len() == 0 {
        seq![]
    } else if t.last().category == cat {
        group_of(t.drop_last(), cat).push(t.last())
    } else {
        group_of(t.drop_last(), cat)
    }
}

/// `x` inserted into `s` after every entry whose name is not greater than its own.
pub open spec fn insert_by_name(s: Seq<CommandSpec>, x: CommandSpec) -> Seq<CommandSpec>
    decreases s.len(),
{
    if s.len() == 0 {
        seq![x]
    } else if lex_lt(x.name@, s[0].name@) {
        seq![x] + s
    } else {
        seq![s[0]] + insert_by_name(s.drop_first(), x)
    }
}

/// `s` sorted by name; entries with equal names keep their order.
pub open spec fn sort_by_name(s: Seq<CommandSpec>) -> Seq<CommandSpec>
    decreases s.len(),
{
    if s.len() == 0 {
        seq![]
    } else {
        insert_by_name(sort_by_name(s.drop_last()), s.last())
    }
}

/// The `/help` section of one category: its title, one line per command sorted
/// by name, and a blank line; nothing for a category without commands.
pub open spec fn section_lines(p: char, cat: Category) -> Seq<Seq<char>> {
    let g = sort_by_name(group_of(command_table(), cat));
    if g.len() == 0 {
        seq![]
    } else {
        seq![spec_title(cat)@ + ":"@] + g.map_values(|c: CommandSpec| help_line(p, c)) + seq![
            Seq::<char>::empty(),
        ]
    }
}

/// The sections of the categories `cats`, in order.
pub open spec fn sections(p: char, cats: Seq<Category>) -> Seq<Seq<char>>
    decreases cats.len(),
{
    if cats.len() == 0 {
        seq![]
    } else {
        sections(p, cats.drop_last()) + section_lines(p, cats.last())
    }
}

/// The heading of `/help`.
pub open spec fn help_header(p: char) -> Seq<Seq<char>> {
    seq!["Slash commands (type "@.push(p) + "<command> [args]):"@, Seq::<char>::empty()]
}

/// All `/help` lines: the heading, then each category's section in display order.
pub open spec fn spec_help_text(p: char) -> Seq<Seq<char>> {
    help_header(p) + sections(p, spec_category_order())
}

/// The lines `help <name>` shows.
pub open spec fn spec_help_for_command(p: char, name: Seq<char>) -> Seq<Seq<char>> {
    match spec_find(name) {
        Some(c) => seq![help_line(p, c)],
        None => seq!["unknown command: "@.push(p) + name + " — try "@.push(p) + "help"@],
    }
}

fn category_order() -> (r: Vec<Category>)
    ensures
        r@ == spec_category_order(),
{
    vec![
        Category::Game,
        Category::Mapping,
        Category::View,
        Category::Transcript,
        Category::Style,
        Category::Export,
        Category::Animation,
        Category::Help,
    ]
}

fn help_line_of(p: char, c: &CommandSpec) -> (r: String)
    ensures
        r@ == help_line(p, *c),
{
    let mut s = owned("  ");
    push_char(&mut s, p);
    s.append(c.usage);
    s.append("  — ");
    s.append(c.description);
    s
}

fn group_in(cmds: &Vec<CommandSpec>, cat: Category) -> (r: Vec<CommandSpec>)
    ensures
        r@ == group_of(cmds@, cat),
{
    let mut out: Vec<CommandSpec> = Vec::new();
    let mut i: usize = 0;
    assert(cmds@.take(0) =~= Seq::<CommandSpec>::empty());
    while i < cmds.len()
        invariant
            i <= cmds@.len(),
            out@ == group_of(cmds@.take(i as int), cat),
        decreases cmds@.len() - i,
    {
        assert(cmds@.take(i + 1).drop_last() =~= cmds@.take(i as int));
        if cmds[i].category == cat {
            out.push(cmds[i]);
        }
        i += 1;
    }
    assert(cmds@.take(i as int) =~= cmds@);
    out
}

proof fn lemma_insert_by_name_at(s: Seq<CommandSpec>, x: CommandSpec, j: int)
    requires
        0 <= j <= s.len(),
        forall|k: int| 0 <= k < j ==> !lex_lt(x.name@, (#[trigger] s[k]).name@),
        j == s.len() || lex_lt(x.name@, s[j].name@),
    ensures
        insert_by_name(s, x) == s.insert(j, x),
    decreases s.len(),
{
    if s.len() == 0 {
        assert(s.insert(j, x) =~= seq![x]);
    } else if j == 0 {
        assert(s.insert(0, x) =~= seq![x] + s);
    } else {
        let r = s.drop_first();
        assert forall|k: int| 0 <= k < j - 1 implies !lex_lt(x.name@, (#[trigger] r[k]).name@) by {
            assert(r[k] == s[k + 1]);
        }
        assert(!lex_lt(x.name@, s[0].name@));
        lemma_insert_by_name_at(r, x, j - 1);
        assert(s.insert(j, x) =~= seq![s[0]] + r.insert(j - 1, x));
    }
}

fn sort_group(g: &Vec<CommandSpec>) -> (r: Vec<CommandSpec>)
    ensures
        r@ == sort_by_name(g@),
{
    let mut out: Vec<CommandSpec> = Vec::new();
    let mut i: usize = 0;
    assert(g@.take(0) =~= Seq::<CommandSpec>::empty());
    while i < g.len()
        invariant
            i <= g@.len(),
            out@ == sort_by_name(g@.take(i as int)),
        decreases g@.len() - i,
    {
        let x = g[i];
        let xn = chars_of(x.name);
        let mut j: usize = 0;
        while j < out.len() && !(key_order(&xn, &chars_of(out[j].name)) == KeyOrder::Less)
            invariant
                j <= out@.len(),
                xn@ == x.name@,
                forall|k: int| 0 <= k < j ==> !lex_lt(x.name@, (#[trigger] out@[k]).name@),
            decreases out@.len() - j,
        {
            j += 1;
        }
        proof {
            lemma_insert_by_name_at(out@, x, j as int);
            assert(g@.take(i + 1).drop_last() =~= g@.take(i as int));
            assert(g@.take(i + 1).last() == x);
        }
        out.insert(j, x);
        i += 1;
    }
    assert(g@.take(i as int) =~= g@);
    out
}

/// The lines to show for the help command: commands grouped by category in
/// display order, sorted by name within each group.
pub fn help_text(prefix: char) -> (r: Vec<String>)
    ensures
        strings_view(r@) == spec_help_text(prefix),
{
    let mut lines: Vec<String> = Vec::new();
    let mut h = owned("Slash commands (type ");
    push_char(&mut h, prefix);
    h.append("<command> [args]):");
    lines.push(h);
    lines.push(String::new());
    let cats = category_order();
    let cmds = commands();
    let mut ci: usize = 0;
    assert(strings_view(lines@) =~= help_header(prefix));
    assert(spec_category_order().take(0) =~= Seq::<Category>::empty());
    while ci < cats.len()
        invariant
            cats@ == spec_category_order(),
            cmds@ == command_table(),
            ci <= cats@.len(),
            strings_view(lines@) == help_header(prefix) + sections(prefix, spec_category_order().take(ci as int)),
        decreases cats@.len() - ci,
    {
        let cat = cats[ci];
        let g = group_in(&cmds, cat);
        let sorted = sort_group(&g);
        let ghost before = strings_view(lines@);
        if sorted.len() > 0 {
            lines.push(join2(cat.title(), ":"));
            let mut k: usize = 0;
            while k < sorted.len()
                invariant
                    k <= sorted@.len(),
                    strings_view(lines@) == before + seq![spec_title(cat)@ + ":"@]
                        + sorted@.take(k as int).map_values(|c: CommandSpec| help_line(prefix, c)),
                decreases sorted@.len() - k,
            {
                let ghost prev = strings_view(lines@);
                lines.push(help_line_of(prefix, &sorted[k]));
                proof {
                    assert(sorted@.take(k + 1).map_values(|c: CommandSpec| help_line(prefix, c))
                        =~= sorted@.take(k as int).map_values(|c: CommandSpec| help_line(prefix, c)).push(
                        help_line(prefix, sorted@[k as int])));
                    assert(strings_view(lines@) =~= prev.push(help_line(prefix, sorted@[k as int])));
                }
                k += 1;
            }
            let ghost prev = strings_view(lines@);
            lines.push(String::new());
            assert(strings_view(lines@) =~= prev.push(Seq::<char>::empty()));
            assert(sorted@.take(k as int) =~= sorted@);
        }
        proof {
            let cs = spec_category_order().take(ci + 1);
            assert(cs.drop_last() =~= spec_category_order().take(ci as int));
            assert(cs.last() == cat);
            if sorted.len() == 0 {
                assert(strings_view(lines@) =~= before + section_lines(prefix, cat));
            } else {
                assert(strings_view(lines@) =~= before + section_lines(prefix, cat));
            }
        }
        ci += 1;
    }
    assert(spec_category_order().take(ci as int) =~= spec_category_order());
    lines
}

/// The lines to show for `help <name>`: the command's usage and description, or
/// an unknown-command message.
pub fn help_for_command(prefix: char, name: &str) -> (r: Vec<String>)
    ensures
        strings_view(r@) == spec_help_for_command(prefix, name@),
{
    let mut out: Vec<String> = Vec::new();
    match find_command(name) {
        Some(c) => {
            out.push(help_line_of(prefix, &c));
        },
        None => {
            let mut m = owned("unknown command: ");
            push_char(&mut m, prefix);
            m.append(name);
            m.append(" — try ");
            push_char(&mut m, prefix);
            m.append("help");
            out.push(m);
        },
    }
    assert(strings_view(out@) =~= spec_help_for_command(prefix, name@));
    out
}

// ── Laws of the registry and /help ───────────────────────────────────────────

proof fn lemma_group_of_has(t: Seq<CommandSpec>, i: int)
    requires
        0 <= i < t.len(),
    ensures
        group_of(t, t[i].category).contains(t[i]),
    decreases t.len(),
{
    let cat = t[i].category;
    if i == t.len() - 1 {
        assert(group_of(t, cat)[group_of(t, cat).len() - 1] == t[i]);
    } else {
        assert(t.drop_last()[i] == t[i]);
        lemma_group_of_has(t.drop_last(), i);
        let g = group_of(t.drop_last(), cat);
        let k = choose|k: int| 0 <= k < g.len() && g[k] == t[i];
        if t.last().category == cat {
            assert(g.push(t.last())[k] == t[i]);
        }
    }
}

proof fn lemma_insert_by_name_has(s: Seq<CommandSpec>, x: CommandSpec, y: CommandSpec)
    requires
        y == x || s.contains(y),
    ensures
        insert_by_name(s, x).contains(y),
    decreases s.len(),
{
    let r = insert_by_name(s, x);
    if s.len() == 0 {
        assert(r[0] == x);
    } else if lex_lt(x.name@, s[0].name@) {
        if y == x {
            assert(r[0] == x);
        } else {
            let k = choose|k: int| 0 <= k < s.len() && s[k] == y;
            assert(r[k + 1] == y);
        }
    } else {
        if y == s[0] {
            assert(r[0] == y);
        } else {
            if y != x {
                let k = choose|k: int| 0 <= k < s.len() && s[k] == y;
                assert(s.drop_first()[k - 1] == y);
            }
            lemma_insert_by_name_has(s.drop_first(), x, y);
            let rest = insert_by_name(s.drop_first(), x);
            let k = choose|k: int| 0 <= k < rest.len() && rest[k] == y;
            assert(r[k + 1] == y);
        }
    }
}

proof fn lemma_sort_by_name_has(s: Seq<CommandSpec>, y: CommandSpec)
    requires
        s.contains(y),
    ensures
        sort_by_name(s).contains(y),
    decreases s.len(),
{
    if y == s.last() {
        lemma_insert_by_name_has(sort_by_name(s.drop_last()), s.last(), y);
    } else {
        let k = choose|k: int| 0 <= k < s.len() && s[k] == y;
        assert(s.drop_last()[k] == y);
        lemma_sort_by_name_has(s.drop_last(), y);
        lemma_insert_by_name_has(sort_by_name(s.drop_last()), s.last(), y);
    }
}

proof fn lemma_sections_have(p: char, cats: Seq<Category>, k: int, line: Seq<char>)
    requires
        0 <= k < cats.len(),
        section_lines(p, cats[k]).contains(line),
    ensures
        sections(p, cats).contains(line),
    decreases cats.len(),
{
    let front = sections(p, cats.drop_last());
    let sec = section_lines(p, cats.last());
    if k == cats.len() - 1 {
        let m = choose|m: int| 0 <= m < sec.len() && sec[m] == line;
        assert((front + sec)[front.len() + m] == line);
    } else {
        assert(cats.drop_last()[k] == cats[k]);
        lemma_sections_have(p, cats.drop_last(), k, line);
        let m = choose|m: int| 0 <= m < front.len() && front[m] == line;
        assert((front + sec)[m] == line);
    }
}

/// Every registered command has its usage line in `/help`, under its category:
/// a command can never be missing from the help listing.
pub proof fn lemma_help_lists_every_command(p: char, i: int)
    requires
        0 <= i < command_table().len(),
    ensures
        spec_help_text(p).contains(help_line(p, command_table()[i])),
{
    let t = command_table();
    let c = t[i];
    let cat = c.category;
    lemma_group_of_has(t, i);
    lemma_sort_by_name_has(group_of(t, cat), c);
    let g = sort_by_name(group_of(t, cat));
    let m = choose|m: int| 0 <= m < g.len() && g[m] == c;
    let sec = section_lines(p, cat);
    assert(sec[m + 1] == help_line(p, c));
    let order = spec_category_order();
    let k: int = match cat {
        Category::Game => 0,
        Category::Mapping => 1,
        Category::View => 2,
        Category::Transcript => 3,
        Category::Style => 4,
        Category::Export => 5,
        Category::Animation => 6,
        Category::Help => 7,
    };
    assert(order[k] == cat);
    lemma_sections_have(p, order, k, help_line(p, c));
    let s = sections(p, order);
    let n = choose|n: int| 0 <= n < s.len() && s[n] == help_line(p, c);
    assert(spec_help_text(p)[2 + n] == help_line(p, c));
}

/// No entry's name is less than that of an entry before it.
pub open spec fn names_sorted(s: Seq<CommandSpec>) -> bool {
    forall|i: int, j: int| 0 <= i < j < s.len() ==> !lex_lt((#[trigger] s[j]).name@, (#[trigger] s[i]).name@)
}

proof fn lemma_insert_by_name_sorted(s: Seq<CommandSpec>, x: CommandSpec)
    requires
        names_sorted(s),
    ensures
        names_sorted(insert_by_name(s, x)),
        insert_by_name(s, x).len() == s.len() + 1,
        forall|k: int| 0 <= k < s.len() + 1 ==> {
            let e = #[trigger] insert_by_name(s, x)[k];
            e == x || s.contains(e)
        },
    decreases s.len(),
{
    let r = insert_by_name(s, x);
    if s.len() == 0 {
    } else if lex_lt(x.name@, s[0].name@) {
        assert forall|k: int| 0 <= k < s.len() + 1 implies {
            let e = #[trigger] r[k];
            e == x || s.contains(e)
        } by {
            if k > 0 {
                assert(r[k] == s[k - 1]);
            }
        }
        assert forall|i: int, j: int| 0 <= i < j < r.len() implies !lex_lt(
            (#[trigger] r[j]).name@,
            (#[trigger] r[i]).name@,
        ) by {
            if i == 0 {
                assert(r[j] == s[j - 1]);
                lemma_lex_total(s[0].name@, s[j - 1].name@);
                if lex_lt(s[0].name@, s[j - 1].name@) {
                    lemma_lex_trans(x.name@, s[0].name@, s[j - 1].name@);
                }
                lemma_lex_asym(x.name@, s[j - 1].name@);
            } else {
                assert(r[i] == s[i - 1] && r[j] == s[j - 1]);
            }
        }
    } else {
        let rest = s.drop_first();
        assert(names_sorted(rest)) by {
            assert forall|i: int, j: int| 0 <= i < j < rest.len() implies !lex_lt(
                (#[trigger] rest[j]).name@,
                (#[trigger] rest[i]).name@,
            ) by {
                assert(rest[i] == s[i + 1] && rest[j] == s[j + 1]);
            }
        }
        lemma_insert_by_name_sorted(rest, x);
        let ir = insert_by_name(rest, x);
        assert forall|k: int| 0 <= k < s.len() + 1 implies {
            let e = #[trigger] r[k];
            e == x || s.contains(e)
        } by {
            if k > 0 {
                assert(r[k] == ir[k - 1]);
                let e = ir[k - 1];
                if e != x {
                    let m = choose|m: int| 0 <= m < rest.len() && rest[m] == e;
                    assert(s[m + 1] == e);
                }
            } else {
                assert(s[0] == r[0]);
            }
        }
        assert forall|i: int, j: int| 0 <= i < j < r.len() implies !lex_lt(
            (#[trigger] r[j]).name@,
            (#[trigger] r[i]).name@,
        ) by {
            if i == 0 {
                assert(r[j] == ir[j - 1]);
                let e = ir[j - 1];
                if e != x {
                    let m = choose|m: int| 0 <= m < rest.len() && rest[m] == e;
                    assert(s[m + 1] == e);
                }
            } else {
                assert(r[i] == ir[i - 1] && r[j] == ir[j - 1]);
            }
        }
    }
}

/// Sorting by name gives entries in name order.
pub proof fn lemma_sort_by_name_sorted(s: Seq<CommandSpec>)
    ensures
        names_sorted(sort_by_name(s)),
        sort_by_name(s).len() == s.len(),
    decreases s.len(),
{
    if s.len() > 0 {
        lemma_sort_by_name_sorted(s.drop_last());
        lemma_insert_by_name_sorted(sort_by_name(s.drop_last()), s.last());
    }
}

/// Within each category of `/help`, the commands are listed in name order.
pub proof fn lemma_help_groups_sorted(cat: Category)
    ensures
        names_sorted(sort_by_name(group_of(command_table(), cat))),
{
    lemma_sort_by_name_sorted(group_of(command_table(), cat));
}

} // verus!
