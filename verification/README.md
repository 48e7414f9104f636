# Kwick

A small command launcher for Windows: a hotkey shows a search box that fuzzy
matches Start Menu apps, PATH executables, curated Windows tools, well-known
folders, custom commands, web searches and Lua plugin results.

The crate is split in two:

- `src/` is the library, verified with Verus: the settings and their
  write-back into config.toml, the launch history, the keyboard-hook and
  polling state machines of the hotkey, hotkey registration with fallbacks,
  every source of items (how a found file, registry entry or folder becomes an
  item, and which duplicates are dropped), fuzzy ranking with history bonuses,
  the result list of a query, the window's show/hide decisions, icon pixel
  conversion, plugin results and the startup registration command line.
  Calls into nucleo-matcher, toml_edit, toml, global-hotkey, dirs and
  std's path and character functions go through small trusted wrappers whose
  contracts are documented where they are declared.
- `app/` is the program around it: the egui window, the threads, the Win32
  calls, walking folders and the registry, the Lua interpreter and the tray
  icon. It hands what it found to the library and performs what the library
  decides.

`tests/` exercises the library with concrete values.
