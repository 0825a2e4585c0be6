# cross-kvm

A peer-to-peer software KVM: one keyboard and mouse drive several machines on a
LAN. When the pointer reaches a screen edge that has a neighbour, input is
forwarded to that neighbour until it comes back, the user breaks out with a
hotkey, or someone touches the neighbour's own mouse. The clipboard is shared,
packets are encrypted with a key derived from a shared passphrase, and peers find
each other by broadcast beacons.

## Layout

- `src/` is the library, written in Verus and verified:
  - `protocol` — the messages peers exchange;
  - `state` — the session state machine (local, controlling a peer, controlled by a peer);
  - `session` — what the daemon does with a packet from a peer and with a captured event;
  - `hotkey` — the exit and breakout hotkeys, with their time windows;
  - `topology` — which neighbour sits at which screen edge;
  - `crypto` — AES-256-GCM packet sealing under a SHA-256 passphrase key;
  - `transport` — length-prefixed framing and freshness of mouse deltas;
  - `clipboard` — change polling, the digest-addressed payload cache, file transfers;
  - `config`, `discovery`, `web_ui` — defaults, beacons, the status page's routes;
  - `platform` — the clipboard and display traits and the Linux backends;
  - `quartz`, `win32` — what macOS and Windows input events, key states, flags,
    monitor descriptions and clipboard text mean to the protocol.
- `tests/` exercises the library from outside.
- `app/` is the daemon: argument parsing, sockets, the async runtime, the web page,
  the operating-system calls (event taps, hooks, injection, pasteboards), and the
  screen-edge geometry, which works in floating point.

Values the peers exchange as single-precision floats (pointer positions, ratios,
scale factors) are carried by the library as their 32-bit patterns; only `app/`
does arithmetic on them.
