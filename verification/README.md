# mtpdb_manager

Supervisor of the database instances of one server. It hands out ports, sets instances
up, lists and stops them, and registers the server with a master server.

- `src/` is the logic, verified with Verus.
  - `port_pool`: a pool of ports.
  - `model`: what the supervisor holds, and how each request changes it.
  - `manager`: the supervisor itself. Files, processes and the network are left to the
    caller: the supervisor names the next action, and is told what came of it.
  - `register`: registration with the master server, as a step function.
  - `args`, `startup`: command-line arguments, and what is settled at the start.
  - `config_toml`: the configuration file of an instance; `toml_text` says what such a text
    means, and `config_laws` that reading it gives back what it was written from.
  - `password`, `text`, `id_map`, `instance`, `api`: what the others use.
  - `source`: random numbers, identifiers and the time, which come from outside crates.
  - `laws`: what holds of the supervisor as a whole.
- `app/` is the program: HTTP handlers, files, processes and requests to the master.
- `tests/` runs the library on concrete values.
