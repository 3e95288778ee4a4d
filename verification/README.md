# edit_wasm

The browser platform layer and front-end logic of a terminal text editor
compiled to WebAssembly, written in Verus and verified.

`src/` is the verified library:

- `terminal` – the in-memory terminal: input pushed by the host page, output
  taken by it, and the size report injected into the input after a resize.
- `session` – what starting a session, resizing and each editor step hand to
  and take from that terminal.
- `vfs` – files kept in the browser's `localStorage` under the `vfs:` prefix;
  `order` – the lexicographic order and sort used to list them.
- `documents`, `file_picker`, `state`, `shortcuts` – the decisions of quitting,
  saving, opening, the open / save-as dialog, pending dialogs and the global
  keyboard shortcuts, over a plain model of the open documents.
- `title`, `clipboard`, `base64` – the terminal title sequence, and handing the
  clipboard to the host terminal as an OSC 52 sequence.
- `text` – character and decimal helpers.

`app/` holds what the library cannot: the per-thread terminal state behind
the free-function platform API, file-identity hashing, the ICU stubs, and the
raw-memory shim for arenas.
