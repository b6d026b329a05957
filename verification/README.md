# slovo

Aggregates the live viewer counts of Twitch, Kick, VK Video and YouTube.

- `src/` is the verified library: what each platform's replies mean
  (`twitch`, `kick`, `vk`, `youtube`, `error`), the OAuth token form
  (`oauth`), the counts and the decision to show them again only when they
  changed (`counts`), the socket server's addresses and defaults (`server`),
  its per-client sessions (`session`) and the state machine of one socket
  (`socket`).
- `app/` runs the network: the platform clients, the CLI that prints the
  counts as JSON lines, and the WebSocket server (`POST /config`,
  `GET /ws/:id`). The binary runs the server when invoked as `slovo_ws`.
- `tests/` exercises the library on concrete values.
