# reader_fw

The logic of an e-paper reader's firmware, written and proved in Verus: what
the reader does with its card, its panel and its books, apart from the drivers
that carry it out.

Each task of the firmware is a machine here. It is asked what to do, is told
what came of it, and says what to do next. A machine has a mathematical model
beside it, every step is proved to be the model's, and the laws that hold of
all its runs are proved over the model.

## Layout

- `src/` — the verified library.
  - Tasks: `app_loop`, `display_loop`, `slice`, `sleep_frame`, `storage`,
    `upload`, with `app_model`, `storage_model` and the laws in `app_laws`,
    `app_runs`, `display_runs` and `storage_laws`.
  - Queues between them: `messages`, `delivery`, `progress`, `background`.
  - Books: `book_open`, `zip_build`, `resume`, `replay`, `spine`, `sections`,
    `toc`, `href`, `read_budget`, `cache_error`.
  - Text: `text`, `chars`, `line`, `sink` with `sink_laws`, `sink_runs` and
    `sink_anchors`, `ink`, `bounded`.
  - The card: `session`, `spi`, `catalog`, `catalog_write`, `walk`, `listing`,
    `recovery`, `cache_clear`, `evidence`, `place`, `position`, `wifi`.
- `tests/` — the library at work on concrete values.
- `app/` — the tasks around the library: queues, the bus, the card's file
  system, and the traits through which the device's own crates plug in.

Strings of bounded length are `heapless::String`; `src/bounded.rs` holds all
that the library takes on trust about them.
