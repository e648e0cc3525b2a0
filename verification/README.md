# breeze_wh

Breeze confirms the Windows Hello credential dialog once face recognition has
succeeded, and leaves it alone in PIN mode. It runs as a Windows service that
keeps a UI Automation helper alive in the user's session.

- `src/` is the verified library (Verus): paths and settings (`constants`,
  `config`), argument handling for the elevated relaunch (`elevation`) and the
  quoted command line that carries it (`cmdline`), the
  command-line decisions and the upgrade plan (`cli`), the helper's restart
  policy (`supervisor`, with `clock`), the service loop's event handling (`service_loop`,
  `session`) and the dialog rules (`dialog`, `handlers`).
- `app/` is the Windows program around it: service control, process launch,
  UI Automation, files, HTTP and logging.
- `tests/` exercises the library on concrete values.
