# voice_type

A hold-to-talk voice typing tool for Windows: hold F9 and speak, release it,
and the speech is transcribed (Groq Whisper), corrected by a language model
with the last five corrected sentences as context, and pasted at the cursor.

- `src/` is the verified library (Verus): the sentence history (`history`),
  the correction prompt and the reading of the service's replies (`api`), the
  settings checks (`config`), the recorder's session bookkeeping
  (`recording`), the F9 key state machine (`hotkey`), the
  record/transcribe/correct/paste pipeline (`pipeline`) and the start-at-login
  entry (`autostart`).
- `app/` is the program around it: the Tauri window and commands, microphone
  capture (cpal, hound), the clock (chrono), HTTP requests (reqwest), JSON
  files (serde), the
  clipboard (arboard), the keyboard hook and registry access (winapi, winreg).
- `tests/` exercises the library.
