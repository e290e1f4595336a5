# ancient_launcher

The logic of a Minecraft launcher, verified with Verus, and a small command-line
program around it.

- `src/` — the verified library:
  - `text` — character-level string operations (equality, prefixes, suffixes, code-point order);
  - `catalog`, `mod_state` — the catalogue of pre-defined mods and the user's per-mod state;
  - `predefined` — the mod list and the toggle cascade along mod dependencies;
  - `custom_mods` — which files of the mods folder are user mods, listed in filename order;
  - `setup`, `modrinth`, `github` — decisions taken while the mods folder is prepared for a launch;
  - `account` — offline identities, refresh decisions of Microsoft accounts, launch identities;
  - `options`, `launch` — stored options, data paths and launch parameters;
  - `runner` — the slot that admits one game run at a time.
- `app/` — file and network I/O, JSON (de)serialisation and the command-line front end.
- `tests/` — tests of the library's public functions.
