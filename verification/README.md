# why2

WHY2 is a grid-based symmetric block cipher run in counter mode, and a chat built on it. This
crate is its library, verified with Verus: every function in `src/` carries a contract, and the
properties that span functions are stated and proved as `law_*` proof functions.

## Layout

- `src/` — the verified library.
  - `grid.rs`, `gf.rs`, `diffusion.rs`, `consts.rs`: the cipher's state and its
    substitution-permutation rounds; `diffusion.rs` proves that column mixing undoes itself.
  - `crypto.rs`, `encrypter.rs`, `decrypter.rs`, `types.rs`: key derivation, counter mode, and
    one-shot encryption and decryption; decryption undoes encryption.
  - `stream.rs`: incremental counter mode over arbitrarily chunked input.
  - `auth.rs`: HMAC-SHA256 over the encrypted data.
  - `chat/`: the chat's protocol rules and state machines — option holders, packet framing and
    replay checks, the server's authentication flow, handshake budget, channels, voice slots,
    screen-share forwarding, uploads and their integrity check, the server's decision on each
    request of a logged-in client (`dispatch.rs`) and the client's on each packet from the server
    (`client_flow.rs`), keepalive sweeps, and the parsing of user
    selections.
- `tests/` — tests on concrete values, run against the compiled library with the real outside
  crates.
- `app/` — what stays outside the proofs: process-wide option holders, floating-point audio
  gains, text forms of grids, and terminal prompts. It is not a runnable client or server: the
  network and audio loops (connecting, the client's and server's packet loops, key exchange,
  file transfer, capture and playback) are not part of it. Those loops would perform the
  actions that the library's step functions (such as `chat::dispatch::server_step`,
  `chat::client_flow::client_step` and `chat::login::auth_step`) decide.

Calls into outside crates (`sha2`, `hmac`, `rand`, `rand_chacha`, `subtle`, `zstd`, `p521`,
`ml-kem`) go through small trusted wrappers whose contracts say what the crates document;
everything around them is verified.
