# translate_dock

A tray translator for the Qwen MT service. The library under `src/` holds
what the program decides, with its contracts proved by Verus:

- `language`: the languages, their service names and their labels.
- `codec`: base64 text through the `base64` crate.
- `text`: UTF-8 decoding, white space, and taking one character out of a text.
- `vault`: the API key's stored form (system data protection, then base64;
  or the key as it is where the system has none)
  and the configuration that holds it; the saved key reads back unchanged.
- `translate`: the request to send, or the simulated translation without a
  key, and the outcome of the exchange.
- `dock`: the window's state and how it answers tray clicks, menu items,
  focus changes, edits, buttons and finished translations.

`app/` is the program: egui drawing, the tray icon, DPAPI calls, the
configuration file, the HTTP exchange, and the window's placement.
