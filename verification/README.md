# bsdev

The decision logic of `bsdev`, a launcher that brings up a permanently
running dev container with Docker and connects to it over ssh, verified with
Verus.

- `src/` is the library. It builds every `docker` and `ssh` command line,
  reads what those commands report, resolves the settings from the
  environment and the persisted config, places the key and the pid files
  beside each other (`paths` states what `std::path` does on every platform),
  reads and writes the pid files of the adb tunnel and of port forwards, and
  runs each subcommand as a state machine (`session`) that asks for
  one action at a time and is told how it went. `laws` states properties that
  span several steps: resets delete only with consent, no other flow removes
  the home volume, bringing up always authorizes the key, every flow ends.
- `app/` is the program around it: command-line parsing with clap, the
  environment, files, processes, the loopback `code` listener and the
  self-update through `self_update`.
- `tests/` runs the library on concrete values.
