# qubeherd

Shows how many coding agents are working, idle or blocked on the screen of an
Ergohaven Qube dongle, and keeps the dongle's header clock and keyboard layout
in step with the host.

## Layout

- `src/` decides. Every function in it is verified with Verus against its
  contract, and the `law_*` proof functions state what holds of the whole.
  - `daemon` runs sessions, `session` picks what comes first in one,
    `supervisor` paces the next one; `course` holds what is proved of whole
    runs.
  - `bridge` brings the dongle up to date one outside step at a time;
    `bridge_laws` holds what is proved of it.
  - `herdr`, `layout`, `hidraw`, `qube`, `usage`, `notify` know the peers: what
    they are asked, what their answers mean, what the bytes look like.
  - `options` turns the command line and the environment into a start,
    `summary` counts what the daemon has been doing.
  - `text`, `number`, `path`, `time` are what the rest is made of.
- `app/` acts: sockets, the session bus, hidraw nodes, clocks, logging. It
  performs the tasks that the daemon names and reports how they went.
- `tests/` runs the library on concrete values.

## What is taken on trust

Three calls into other crates stand behind small wrappers whose contracts are
believed: the rendering of a JSON string (`herdr`), and the reading of epoch
seconds and of RFC 3339 times (`usage`).
