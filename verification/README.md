# nu_pipes

Persistent named pipes for nushell: `pipe new` registers a named, bounded
first-in first-out pipe, `pipe write` streams values into it, `pipe recv` and
`pipe read` take values out of it, `pipe list` names the registered pipes and
`pipe close` drops one. A pipe lives until it is closed, not just for one
command.

Layout:

- `src/` is the verified library.
  - `pipe_id.rs`: pipe names and handles.
  - `pipe.rs`: the bounded channel, the peekable receiver and the pipe that
    combines them, with their first-in first-out and capacity guarantees.
  - `state.rs`: the registry of pipes by name.
  - `read.rs`: the step-by-step logic of a read (all, count, filter).
  - `names.rs`: random pipe names.
  - `pipe_arg.rs`: which argument values name a pipe.
  - `cmds.rs`, `cmds/`: what each command decides.
  - `laws.rs`: properties that span several operations.
- `app/` is the plugin binary: the nushell protocol, locking and waiting.
- `tests/` exercises the library.
