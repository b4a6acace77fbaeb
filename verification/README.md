# mob_editor

The editing model of a mob editor for Thetawave-style games: mob files are TOML documents,
and the editor's panels change them field by field. This crate holds that model, with every
operation specified and proved with Verus.

Layout:

- `src/document.rs` — the document model: TOML values (floats by their bit patterns) and
  tables without repeated keys, viewed as mathematical maps. The tables are the crate's own:
  Verus does not let a value type that nests tables live inside an outside map type such as
  `toml::Table`, whose declaration must reject recursive types.
- `src/session.rs` — the current and original documents of an editing session and the
  top-level field edits, including the rule that keeps default values out of new fields.
- `src/colliders.rs`, `src/decorations.rs`, `src/jointed.rs`, `src/spawners.rs`,
  `src/behavior.rs` — the edits of each part of a mob; emptied lists and tables are pruned.
- `src/sections.rs`, `src/fields.rs`, `src/properties.rs`, `src/sprites.rs` — what the properties panel reads and
  how its results, overrides and sprite choices are applied.
- `src/dialogs.rs`, `src/forms.rs`, `src/names.rs`, `src/chars.rs`, `src/text.rs` — dialog
  states, the file browser's decisions, names typed by the user and the texts shown.
- `src/laws.rs`, `src/behavior_laws.rs` — properties that relate several operations.
- `app/lib.rs` — conversion from and to `toml` values, directory walking and the
  floating-point formatting that the user interface needs.
