# chess

A two-player chess game played at one console, with its rules verified by Verus.

- `src/pieces`: the pieces, their sides, and the shape of each piece's moves
  (`validator/`), with the check that no piece stands in the way.
- `src/game/board.rs`, `square.rs`: the 8x8 board, its starting position, the count
  of pieces of each kind, and the text the board is shown as.
- `src/game/check.rs`: where the kings stand, which pieces attack a square, and when
  an attack on a king is check or checkmate.
- `src/game/play.rs`: what a move and a command do to a game, and when they are
  refused.
- `src/game/command.rs`: the text of the commands (white space, words, square names).
- `src/game/game.rs`: the game itself; every public operation is stated over the
  game's view (`GameView`) and the specifications above.
- `app/main.rs`: the console loop that reads commands and prints the board and the
  answers.

Commands: `move a2 a4` (a letter after the second square names the piece a pawn
reaching the last rank becomes: `q`, `r`, `b` or `n`), `help`, `exit`.
