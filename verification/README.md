# juno

A command-line music player. Started on a socket that is free, it serves a
play queue over gRPC; started on a socket that is taken, it sends one command
to the server there and exits.

- `src/` is the player's logic, verified with Verus: paths and the check that
  keeps listings inside the served directory (`path`, `file_explorer`), the
  configuration (`configuration`), the play queue (`player`), what each
  command does to the player (`control`), and the gRPC requests and replies
  (`grpc`).
- `app/` is the program around it: command-line parsing (clap), walking the
  file system (ignore), audio output (rodio), and the gRPC transport (tonic,
  tokio).
- `tests/` runs the library on concrete cases.
