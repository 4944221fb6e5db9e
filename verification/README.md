# grammarlens

The verified core of GrammarLens, a Windows tray utility that corrects the
selected text in any application with Google's Gemini model.

- `src/` is the library, verified with Verus: the correction data, the
  settings and their stored form, the system prompt and the request to
  Gemini, how each reply is judged, the placement of the floating panel, the
  application filter, and the decisions taken when the shortcut is pressed
  (`shortcuts::CorrectionTrigger`, a step function that the application drives).
- `tests/` runs the library on concrete values.
- `app/` is the Tauri application around it: windows, tray, global shortcut,
  clipboard and keyboard, credential store, settings store and HTTP.
