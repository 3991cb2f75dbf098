# loudeq

A one-click toggle for the Loudness Equalization of Windows: a command line tool
and a tray program, on top of a library whose logic is verified with Verus.

- `src/` is the library: how settings are stored and read, which calls change
  them and in which order, how devices are listed and picked, the command line,
  and what a run or the tray program does and says. Every function has a
  contract; what holds of several functions together stands in public proof
  functions.
- `app/` is the program around it: COM, the registry, the service control
  manager, windows and files. It performs what the library's scripts ask for.
  Built with `--cfg tray` it is the tray program, else the command line tool.
- `tests/` runs the library.
