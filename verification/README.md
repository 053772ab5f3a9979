# libvnc

Bindings-side logic of a VNC client and server built on libvncserver, with
its contracts proved by Verus.

- `src/` — the verified library:
  - `client/config.rs`: client pixel layout (`ClientConfig`) and pixel
    formats (`RfbPixelFormat`, and its flat form `RawPixelFormat`).
  - `client/mod.rs`: what a client is created with (`ClientSetup`) and the
    decisions of its message loop (`ClientSession`).
  - `server/config.rs`: server screen settings (`ServerConfig`) and the
    frame buffer's length.
  - `server/mod.rs`: what a server screen is created with (`ServerSetup`).
  - `utils/argv.rs`: the C argument vector (`Argv`) and C-string checks.
- `app/` — the calls into libvncserver/libvncclient through `libvnc_sys`.
- `tests/` — tests of the library.
