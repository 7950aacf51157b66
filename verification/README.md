# Circle to Search — verified core

The decision logic of the Circle to Search desktop application, written in Verus and
proved against its contracts.

- `src/` — the verified library: capture buffers and cropping, OCR text clean-up and
  assembly, settings and their validation, image-hosting and search addresses, the global
  hotkey recognizer, and the orchestrator that decides, for every message, the new state
  and the effects the windowing layer carries out (`dispatch::update`).
  `src/laws.rs` states the properties that hold across calls.
- `tests/` — tests of the library on concrete values.
- `app/` — the program around the library. It runs headless: window requests are logged, and
  there is no window UI, tray icon or text recognition engine (an OCR request is answered with
  the library's raw-image check, and otherwise as not processed). It holds the settings file,
  the single-instance lock, the macOS permission probes, the image upload (the library prepares
  the address, form fields and header and reads the reply), opening the search page, launch at
  login, and the loop that runs the orchestrator's effects. The library's `ClipboardProvider`
  is the clipboard port of the capture-and-search service; the program's own
  `copy_text_to_clipboard` (pbcopy on macOS, arboard elsewhere) belongs to the OCR text view,
  which this headless program does not have.
