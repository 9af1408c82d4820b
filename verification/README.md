# texteditor

A small terminal text editor. The library (`src/`) holds its logic, verified with Verus:

- `line`: a line as its grapheme clusters, with how each is drawn and how wide it is;
- `buffer`: the document's lines, loading a text and the text to save;
- `view`: caret movement, scrolling, editing and the rows drawn, over the model `ViewModel`;
- `command`, `editorcommand`: decoding keys and resizes into commands;
- `documentstatus`, `statusbar`, `messagebar`: the status line and timed messages;
- `editor`: the quit protocol, saving, and the frame to draw;
- `text`, `style`, `fileinfo`, `location`, `uicomponent`: small helpers.

Grapheme segmentation and display widths come from `unicode-segmentation` and
`unicode-width`, the terminal's escape sequences from `crossterm`; the library calls them
through a few trusted wrappers whose contracts name what they return.

`app/` is the program around the library: it sets the terminal up, reads and writes files,
turns terminal events into the library's events and prints the frames the editor lays out.
