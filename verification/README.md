# phirlie

The loading screens of PhirLie, as a verified library.

- `src/` (Verus): the startup and chart loading scenes as state machines
  (`startup.rs`, `loading.rs`), their timing (`timing.rs`), the charter
  mention markup (`charter.rs`), tip selection (`tips.rs`), the illustration
  loading through `image` and `color-thief` (`illustration.rs`) and the pixel
  buffers and theme-color brightness rule (`pixels.rs`).
- `app/`: polling of the asynchronous loaders, blurring with `fastblur`,
  texture upload with `macroquad`, and the floating-point animation math.
- `tests/`: runs of the library, including a comparison of the charter markup
  with the regular expression `\[!:[0-9]+:([^:]*)\]`.
