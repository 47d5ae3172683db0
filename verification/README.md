# Smart chessboard

An electronic chessboard with a sensor under each square. The library holds its rules, verified
with Verus; `app/` is the firmware around it.

- `piece`: pieces, sides, and the words and letters that name them.
- `board`: the position, as one bit per square and piece.
- `tracker`: from lifted and placed pieces to moves, captures and promotions.
- `sensor`: the filter that lets a square change only after five equal readings.
- `squares`: the names of the squares, and which sensor watches which square.
- `game`: sensor readings in, notices of what happened out.
- `display`: what the two-line display shows of a move.
- `ble`: what radio clients read and write.
- `storage`: the fixed-capacity text and bytes of `heapless`, with the contracts that the rest of
  the library relies on.

Each module states its laws as public proof functions named `law_...`.

A piece that is held for longer than the capture timeout can still be put down: the timeout ends
the wait for a capture, and the placement then counts as an ordinary move.
