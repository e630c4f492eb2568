# session_cells

The cells a terminal chat client shows when a session starts — the session
header (as a small bordered card or as a full landing screen), a tip, and a
notice when the session runs another model than the one asked for — with
their layout verified in Verus.

Layout of `src/`:

- `width.rs` — display widths of text, from the `unicode-width` crate.
- `text.rs` — colors, styles, spans and lines, and their widths.
- `line_truncation.rs` — cutting lines to a width, with an ellipsis.
- `border.rs` — rounded borders around a block of lines.
- `permissions.rs` — approval and sandbox settings, and "YOLO" mode.
- `directory.rs` — the working directory as shown, shortened in the middle.
- `session_header.rs` — the header's settings and how they are built up.
- `card.rs` — the header as a card, and as plain text.
- `wordmark.rs` — the shaded block-letter wordmark and its sweeping highlight.
- `landing.rs` — the header as the landing screen.
- `session.rs` — the tip, the session cell, and how a session's cell is built.

`app/` turns the cells' lines into `ratatui` lines and finds the working
directory relative to the home directory.
