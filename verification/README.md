# c41_ui

The logic behind the user interface of a photo editor, written and proved in Verus.

- `src/` is the library. It is verified, apart from a few declarations about code from
  outside that are believed: the specification of `String::push` (`text`), the functions
  around `str::to_lowercase` and `char::is_alphanumeric` (`exif`), and the one around the
  error code of `rusqlite` with the declaration of its error type (`tags`).
  - The edit of an image: its parameters (`params`, `fields`, `float32`), the bytes they are
    stored as (`codec`), the stages that they switch on (`curves`, `pipeline`, `planlaws`,
    `render`), and the groups of them that a style carries (`stylemodules`, `stylelaws`).
  - What is kept: the catalogue (`catalogue`, `tables`, `paths`), the metadata of images
    (`metadata`), styles and collection filters (`styles`).
  - The panels: collections and rules (`collections`, `rules`), tags (`tags`), the image
    information (`exif`), the metadata editor (`editor`), the history and the styles panel
    (`history`, `stylepanel`), the watched folder (`tether`), printing (`print`), the theme
    (`theme`).
  - Pixels: packing, histograms and previews (`raster`, `raw_preview`).
  - Text and lists of text (`text`, `lists`).
- `tests/` holds the tests of the library.
- `app/` is the ordinary Rust around it: the database, the arithmetic on floating-point
  numbers, the watched folder and the widgets.

A floating-point number is held by its bit pattern. The library compares and clamps such
numbers; `app/` computes with them.

Facts about the parts together are stated as public proof functions whose names begin with
`law_`.
