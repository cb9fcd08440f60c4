# wow_bot

The verified core of a World of Warcraft 3.3.5a (build 12340) bot proxy. A player's
client and a bot worker share one account: the proxy sits between them and the realm,
decides who owns the character at each moment, answers Warden, and turns world packets
into observations of the game state.

## Layout

- `src/` — the library, verified with Verus. Every public function states its result in
  its contract, except where the result rests on chance or the clock (the SRP6 login
  answer, drawn from a random private key; the world session's random client seed; clock
  readings): there the contract says when it succeeds, what it was computed from, and what
  holds of every outcome. The world-session proof is stated as the SHA-1 digest of the
  normalized account, the two seeds and the session key. Laws that span functions are public proof
  functions named `law_*`.
  - `bytes`, `text`, `crypto` — little-endian fields, packed GUIDs, C strings, UTF-8,
    SHA-1 and MD5.
  - `domain`, `ids` — positions (numbers as IEEE-754 bit patterns), gameplay commands,
    missions and the counters that fence stale work.
  - `state` — the authoritative game state and the reducer that folds observations
    into it.
  - `adapter` — update fields of world objects, the entities they project to, and the
    runtime that reports what changed between two views of the object map.
  - `proxy` — ownership and its transitions, player presence, authentication and
    admission, Warden (relay and headless client), packet parsing and encoding, local
    chat commands, and the decisions of the world bridge and of the headless session.
  - `supervisor` — lanes, workers, leases, restart policy and start-up order.
- `tests/` — tests run against the compiled library.
- `app/` — the input and output around the library: the login exchange over the network,
  framed world streams, the headless session loop, the object-update processor, files on disk, and
  the floating-point geometry of movement.
