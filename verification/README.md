# sai

The verified core of an Arma 3 extension that lets field units talk to an AI
artillery commander.

- `src/` is the library, verified with Verus: settings (`settings`), the
  artillery registry and the artillery tools' rules (`artillery`), the tool
  schemas offered to the model (`tools`), the commander's conversation steps
  (`commander`), the player's recording and WAV format (`recording`), stereo
  panning order (`audio`), the HTTP endpoints' answers (`http`) and exact
  string operations (`text`).
- `app/` is the extension around it: Arma commands, the Tokio runtime, the
  HTTP server, the OpenAI calls and the audio devices.
- `tests/` runs the library on concrete values.
