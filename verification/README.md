# quizbackend

The state machines of a two-player quiz server, with their contracts proved by Verus. The server
is authoritative for the lobby, the phases of a game, the questions, the timing and the scoring;
clients only say what they want.

## Layout

```
src/
  messages.rs                      the messages, and their models
  text.rs, ids.rs, clock.rs        strings, id counters, time
  questions.rs                     question pools and the random choice from them
  game.rs, game_model.rs           one game: phases, timer, scoring, reveals, results
  lobby.rs, lobby_model.rs         the lobby: subscribers, waiting games, snapshots
  connection.rs, connection_model.rs   one client's session
  *_laws.rs                        what holds of each machine at all times
tests/                             the library from outside
app/                               the server: sockets, JSON, tasks and timers
```

Each machine takes one event at a time and returns what is to be sent. It knows a queue by its
number; the tasks in `app/` hold the queues themselves. A `*_model.rs` file says what each event
does; the functions of the file beside it are proved to do that.

## Server

It listens on `127.0.0.1:9002` and reads its questions from `./questions/`, one JSON file for each
topic. `RUST_LOG` sets how much it logs (default: `info`). A question is open for 15 seconds; the
protocol version is 1.

## What is trusted

Proofs rest on the stated contracts of a few outside functions: `str::trim`, the clocks of `tokio`
and `chrono`, `chrono`'s addition of seconds, and `rand`'s `sample` and `shuffle`.
