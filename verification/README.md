# sbfcam

A Twitch-controlled Roblox bot: viewers type commands in chat (`!move w 2`,
`!warp poolside`, `!m hello`, ...), and the bot turns them into keystrokes and
mouse moves in the game window. It also keeps the player in the busiest public
server, recovers from crashes, warns before the nightly restart, sweeps the
camera so the game does not idle out, and feeds a stream overlay.

## Layout

- `src/` is the library, verified with Verus. It holds every decision the bot
  makes: reading chat lines and planning commands (`command`), the steps after
  a plan meets the outside world (`relay`), the instruction batches and their
  stable ordering (`instruction`, `pair_order`), the queue's history (`queue`),
  the warp and hat tables (`catalog`), the server choice and the move and
  recovery batches (`servers`, `listing`), the timers (`schedule`), the CPU
  report (`hardware`), the overlay clients and messages (`hud`), what is typed
  and posted (`outbound`), the pixel probes and the wait for the game to load
  (`vision`), and the text helpers they share (`text`).
- `app/` is the program around it: the async loops, the HTTP calls, the
  websocket server, keyboard and mouse input, the Windows window helpers, the
  helper processes, and the reading of typed numbers as floats.
- `tests/` runs the library on concrete values.
