# n2a2ui

Conversion of Notion block trees into A2UI v0.9 components (the Elmethis
block catalog), with the conversion proved against its specification by
Verus.

- `src/` is the verified library. `notion` models the part of a Notion block
  tree that conversion reads; `convert`, `blocks`, `rich_text`, `color` and
  `id` turn it into components; `surface`, `message` and `stream` build
  surfaces and the progressive v0.9 message sequence; `laws` states what the
  conversions promise across calls; `minimal` is a converter for paragraphs
  and headings alone. `outside` declares the types of outside crates that the
  library carries.
- `tests/` runs the library on concrete trees.
- `app/` is the network side: clients that read block trees from the Notion
  API with `notionrs` and `reqwest`, call the library, and hand back
  serializable copies of its values.
