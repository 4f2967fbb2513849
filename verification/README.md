# monitor_manager

The verified core of a Windows display-topology guard: it keeps the display
in the mode (Clone, Extend, Internal, External, or a single monitor) that the
user chose through the program, switching it back when anything else (such
as Win+P) changes it, and restores the start-up mode before logoff or
shutdown.

- `src/` is the library, verified with Verus. Each module states its
  decisions over mathematical models (`Seq<char>` for text, views of each
  type) and proves the library's laws as public proof functions:
  - `topology`: the modes, their agent-protocol text and its parsers;
  - `enforcement`: the enforcement loop as a state machine;
  - `shutdown`: the end-session guard and its background watch;
  - `display`: the monitor list and single-monitor ids;
  - `session`: console-session state, the session agent's token and
    command line, the detached relaunch, the tray's session mutex;
  - `hotkey`, `tray`, `logger`, `control`: hotkeys, tray menu and tooltip,
    log lines, shared state and web-API replies;
  - `text`: character-level string functions, each proved against its
    specification.
- `app/` is the program around it: Win32 calls, the tray UI, the Windows
  service, the web server and the command line. It performs what the
  library's state machines ask and hands back what it observed.
- `tests/` runs the library on concrete values.
