# pwr_ext

Verified planning logic behind the `view!` / `component!` message DSL for
serenity builders.

- `src/` — the Verus library. A macro body arrives as a plain item tree
  (`tree`); `root::expand` and `root::expand_component` decide the message
  family, enforce every compile-time child rule (button laws, action-row,
  section, select-menu and media-gallery counts, family separation, splice
  placement, attribute names with "did you mean" suggestions) and return
  either a flat plan of builder steps (`plan::Emit`) or the error with the
  item it points at. `view_support` holds the runtime child-rule checks that
  spliced child lists go through, `laws` the properties proved of the
  library as a whole, `data_uri` and `json_tag` the two wire-format checks.
- `app/` — the proc-macro front end: syn parsing into the item tree, and
  rendering of a plan (or an error) as tokens.
- `tests/` — plans, errors, runtime checks and wire formats on concrete
  inputs.
