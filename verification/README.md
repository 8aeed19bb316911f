# lol_clip_tool

The backend logic of a desktop tool that records League of Legends
highlights through OBS (WebSocket v5) or an ffmpeg replay buffer, verified
with Verus.

- `src/` is the verified library: the recording status and the recorder
  action each command or game event asks for (`status`), the once-only
  intake and delayed release of polled game events (`events`), the ffmpeg
  replay-buffer command lines (`ffmpeg`), the OBS messages, the URL of the
  configured port and the handshake with its password authentication
  (`obs`), capture-device listings (`devices`), the clip listing order
  (`videos`), settings (`settings`), desktop notices (`notify`), the player list
  (`lol`), and the text helpers they share
  (`text`, `scan`).
- `app/` is the Tauri application around it: commands, the polling loop,
  WebSocket and process I/O, serde types, and the floating-point time
  mapping.
- `tests/` runs the library on concrete inputs.
