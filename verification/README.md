# iced_forms

The core of a visual form designer, verified with Verus: a store of widget
blueprints kept in an ordered map, a typed table of widget properties, and
the rules that add, re-parent, move, delete, save and restore widgets.

## Layout

- `src/` — the verified library
  - `factory.rs`: the widget store (`Factory`): makers by type name,
    blueprints in order, the property table; adding with container search,
    re-parenting with protection against circles, deleting a subtree,
    moving among siblings, and the laws about them.
  - `storage.rs`: the property table, at most one value per widget and
    property hash.
  - `blueprint.rs`: the widget kinds, their blueprints and makers, and
    the properties the inspector lists for each kind.
  - `index_map.rs`: the trusted contracts of the `indexmap` calls the store
    makes.
  - `app.rs`, `message.rs`, `update_ui.rs`, `update_property.rs`: the
    designer state, its messages, and what each menu action and property
    update does.
  - `json.rs`: the parsed JSON document (`JsonValue`), the trusted
    contract of the `serde_json` parse, and member lookup.
  - `serialization.rs`: the outline and the document a project file
    keeps, loading a project from its JSON text (counter, saved
    properties, and the rebuild of the widgets), and the law that loading
    a saved document gives the widgets back.
  - `utils.rs`, `align.rs`, `hash.rs`, `text.rs`, `options.rs`: the text
    forms of values, FNV-1a hashing, and the option lists of the inspector.
- `tests/` — tests of the library on concrete values.
- `app/` — a headless driver: writing JSON project files (with
  `serde_json`), reading the `f32` values a load hands back, and the
  numeric editor ranges.
