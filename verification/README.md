# pola

pola switches the system between light and dark appearance: by hand, with a
global shortcut, and on a weekly schedule with several transitions a day. Each
switch can run configurations of actions (a color, a theme, a wallpaper, a
program with its arguments).

The library under `src/` holds the logic and is verified with Verus:

- `mode`, `locale`, `text`: appearances, languages and the text helpers.
- `schedule`, `describe`: the weekly schedule, the current and next transition,
  and how rules and transitions are described.
- `config`: configurations, profiles and actions, their checks and edits.
- `runtime`, `ipc`: the daemon's state machine and the client's session.
- `shortcut`, `keys`, `recorder`: the global shortcut, key names and recording.
- `cli`, `system`: the command line and the pieces of the platform glue that
  compute.
- `schedule_editor`, `profile_editor`, `action_editor`, `main_window`: the
  decisions of the settings window.

`app/` is the program around it: argument handling, files, sockets, threads
and the platform calls. `tests/` runs the library on concrete values.
