# maplibre-style-spec

Types for the MapLibre style specification, read from and written to JSON, and a code
writer that turns the specification's reference document into Rust type definitions.

The library under `src/` is verified with Verus:

- `json` — the JSON document model (`JsonValue`, its mathematical model `Json`), the
  `JsonDecode` / `JsonEncode` traits whose contracts say exactly which documents a type reads,
  what it reads them as, the message of each refusal, and what it writes; and the law that what
  is written reads back as the same value.
- `colors` — colour values, parsed with the `color` crate.
- `spec::layers`, `spec::named_types`, `spec` — the style's layer, paint, layout and other
  named types, with their defaults.
- `spec::expression` — the expression types that style properties refer to.
- `spec::decoder` — the reference document: items, groups and choices.
- `spec::scope` — what the `codegen` crate's builders hold, and the calls into them.
- `spec::generator` — the code writer, whose contract names the text it returns as what
  `codegen` prints for the items that the contract lists.

`app/` reads and writes JSON text and `serde_json` values, offers `serde` support through a
wrapper type, and holds the parts that need floating-point numbers.

Colours are read and written as CSS colour text (such as `"#ffffff"`), parsed with the
`color` crate. This differs from reading `color::DynamicColor` through its derived `serde`
form, an object `{cs, flags, components}` whose components are 32-bit floats: that form is
floating-point data, which the verified library does not hold. So a colour written in that
object form is refused here, and a CSS colour string is accepted where a derived reader
would refuse it.

Some types of the specification module are not in the library, because their definitions do
not compile as written:

- names defined more than once in the same module: `Type`, `Maxzoom`, `Minzoom`, `Tilesize`,
  `Promoteid`, `Layout`, `Paint` and `Source` (where such duplicates are plain enumerations that
  agree, as `Visibility`, `Scheme` and the first `Encoding`, the first definition is kept);
- types whose fields name one of those ambiguous names: `Function`, `Layer`, `Projection`,
  `SourceGeojson`, `SourceImage`, `SourceRaster`, `SourceRasterDem`, `SourceVector`,
  `SourceVideo`, `Sources`, `Terrain`;
- types whose fields name types that are defined nowhere: `MaplibreStyleSpecification` and
  `PaintHillshade`.

Defaults whose bodies do not compile (a bare number, boolean, list or string where the type is
expected, a float converted into a JSON number, an empty body, or a list handed to the colour
parser, as for `HeatmapColor`) are left out; the heatmap's default colour ramp stands as the
default of the heatmap layer's `heatmap-color` paint property.
