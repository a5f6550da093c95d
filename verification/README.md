# babelmap

The verified core of babelmap, a terminal front end for interactive fiction
with an automapper: its map glyph sets, its slash-command registry and parser,
and its style documents (reading, merging, resolving and exporting the colors,
borders and symbols the interface is drawn with).

Layout:

- `src/text.rs`, `src/strmap.rs`: character-sequence helpers and a sorted
  string-keyed map, the building blocks of the rest.
- `src/config.rs`, `src/symbols.rs`: symbol settings and the glyph sets they
  resolve to (presets, then per-slot overrides of single-width glyphs).
- `src/slash.rs`: the command registry, the parser of slash commands and the
  `/help` text.
- `src/colors.rs`: colors, styles, borders and the resolved color scheme.
- `src/style.rs`: style documents: their TOML reading, merging, resolution
  onto a scheme, and the self-contained export of a scheme.
- `src/style_file.rs`: which style file a setting points at, the edits that
  write a style document into an existing file, and that write itself
  (through `toml_edit`, keeping the file's other tables and keys).
- `src/export_symbols.rs`, `src/export_frames.rs`: the proofs that a full
  export resolves to the symbol set it was written from, and gives back the
  scheme's pane frames and dialog settings.
- `src/style_codec.rs`, `src/written_doc.rs`, `src/export_written.rs`: the
  proofs that what the writer writes reads back: each declaration, rule and
  segment from its table; a whole document from the TOML tree the writer
  writes for it; that tree being exactly what the file edits build in an empty
  file; and every full export being a document the writer can write whole.
- `src/style_laws.rs`: laws of merging documents and of reading a scheme by
  selector.
- `src/tiles.rs`: the screen arithmetic of the tile-map renderer.
- `src/frontend.rs`: small decisions of the interactive front end (saves list
  order, timestamps, loading line, command echo detection).
- `app/main.rs`: a command-line tool over the library that reads and writes
  style files.

The code in `src/` is verified by Verus against its contracts. The calls into
`regex`, `toml`, `toml_edit` and a few standard-library functions sit behind small trusted
wrappers whose contracts are stated in their doc comments.
