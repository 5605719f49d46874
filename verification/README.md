# rylus

Rylus turns a tablet or phone into a drawing tablet, touch screen, mouse and
keyboard for a Linux desktop: the browser on the device shows the screen as a
video stream and sends pen, touch, mouse and key events back over a WebSocket.

## Layout

- `src/` — the library, verified with Verus. It holds the logic of the server:
  the web server's routing, access-code authentication, rate limiting and
  sessions; the WebSocket frame policy and message compression; the protocol
  handshake, client configuration and adaptive video quality; the capture
  pipeline's pacing and failure handling; cursor compositing; the uinput state
  machine for stylus, touch, mouse and keyboard (with the key map); the enigo and
  Windows input mappings; encoder sizes, timestamps, filters and codec strings;
  themes, TLS mode, log level, mDNS names and the settings window's helpers.
  Calls into argon2, rand, url, flate2, percent-encoding, rcgen, rustls and
  tracing stand behind small trusted wrappers whose contracts are stated in
  their doc comments.
- `app/` — the program around the library: command line and configuration
  file, logging, the hyper/tokio web server, the WebSocket transport, X11
  capture, the FFmpeg encoder, the uinput and enigo devices, mDNS, TLS files and
  the `--self-test` routine.
- `tests/` — tests of the library's public functions.
