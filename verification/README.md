# nix-fhs

A tool for managing FHS environments on nixOS, with its logic written and proved in
Verus.

An FHS environment is one with `/usr/bin`, `/usr/lib`, `/usr/include` and the other
directories that most Linux distributions have and nixOS does not. The tool keeps a
list of packages for each environment, builds the environment with nix and enters it.

```
fhs add -e headers zlib
fhs enter headers
```

## Layout

- `src/` is the library. It does nothing outside of itself: a command is a `Session`
  that says what is to be done next (`request`) and goes on with what came of it
  (`advance`), along with what there is to tell the user.
  - `text`, `paths`, `package`: texts, paths and references to packages.
  - `storage`, `removals`: the packages of an environment and their file.
  - `process`, `effect`, `notice`, `failure`: what can be asked for, what comes back,
    what is said.
  - `update`, `check`, `sources`, `supply`, `housekeeping`: fetching sources, looking
    for packages, and keeping roots in step with the packages.
  - `nix`, `site`, `rebuild`: the generated expression and the build.
  - `additions`, `storing`, `report`, `plan`, `session`: the commands.
  - `storage_laws`, `session_laws`, `run_laws`, `progress`: what holds of all of them.
- `app/` is the program around it: the command line, the disk and other programs.
- `tests/` runs the library on concrete values, with a world kept in memory.
