# sm64_blockchain

A blockchain whose blocks are sealed by recorded Mario 64 gameplay, with its
core logic verified in Verus.

`src/` is the verified library:

- `block`, `hash`, `timestamp`, `text`, `digest`: blocks and their limits,
  heads, and the seed a block's gameplay is played under (SHA-256 over the
  block's text).
- `sync`: the walk that decides whether a proposed head is adopted, as a
  state machine that asks for lookups, downloads, replays and storage.
- `replay_check`: the check that a block's solution matches the game's
  random pads and wins.
- `client`: a miner's session (start, submit, finish).
- `replay`, `record`, `input_gen`, `buttons`, `gamepad`, `game_state`,
  `info_file`: the solution byte format, the recorder's decisions, the
  forced-input window, controller words and the game's state bytes.
- `ticket`, `tags`, `web`, `config`, `legacy`: join tickets, storage tag
  names, browser-facing values, limits, and the first chain format (its
  evaluator, recorder settings and seed).

`app/` holds the networking (iroh), the browser bindings, the command-line
node, the game libraries and the recorder and evaluator programs. Where these
run a loop (adopting a head, evaluating or recording a solution, retrying a
recording), the library decides each next step and `app/` performs it. What
`app/` still decides is which network event goes to which library call, and
what rests on floats: the input generator's random draws from the game's
position, the win distance, and the pacing of frames.
