# light_pdf

The core of a light PDF viewer, verified with Verus.

- `src/` is the library: page navigation, the cache of rendered pages and the
  window of pages it keeps, the reading position and where it is persisted,
  the viewer's decisions on user input, the file browser's listing order,
  where the pdfium library is looked for, and whether an embedded copy of it
  must be written out again. Every function there carries a
  contract that Verus proves; the calls into std's path functions,
  pdfium-render and image stand behind small trusted wrappers.
- `app/` is the desktop program around it: the egui window, the file system,
  the metadata file's JSON, loading pdfium, and the zoom arithmetic on the
  `f32` zoom factor (the library holds that factor by its bit pattern).
- `tests/` runs the library on concrete values.
