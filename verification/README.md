# blixt

The decision logic of Blixt, a Windows tray app for speech-to-text: press a
hotkey, speak, press again, and the (optionally rewritten) text is pasted at
the cursor. The library is written in Verus and verified; the program around
it (tray, hotkeys, audio, HTTP, clipboard, Win32 input) lives in `app/`.

Layout of `src/`:

| Module     | What it holds |
|------------|---------------|
| `modes`    | The eight modes: labels, hotkeys, system prompts, temperatures |
| `provider` | Groq / OpenAI / local providers: base URLs, requests, reading replies, error messages |
| `settings` | The settings, their defaults, and the rules for stored API keys |
| `pipeline` | The processing after a recording, as a state machine that decides one command at a time; the text-model step falls back to the local server when no Groq key is stored or Groq cannot be reached |
| `codeword` | The codeword `vertraulich` that keeps a dictation's text-model step local |
| `paste`    | Pasting at the cursor (focus restore, Ctrl+V), as a state machine |
| `session`  | The recording state behind the hotkeys, tray and window decisions |
| `text`     | String helpers with specifications: trimming, replacing, decimal numbers |

`app/` performs the commands the state machines return and feeds the
answers back. `tests/` runs the library on concrete values.
