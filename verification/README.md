# cloud_pe_plugin_market

The verified core of the Cloud-PE plugin market, a Windows program that lists,
installs, updates, enables and disables plugins of the Cloud-PE, HotPE and
Edgeless boot environments.

- `src/` is the library, verified with Verus: start-up arguments and modes
  (`mode`), plugin file names (`plugin`), button click tracking (`widgets`),
  the market's tab state and duplicate filtering (`market`), card actions
  (`cards`), the manage page (`manage`), the settings combos (`settings`), the
  main window's start-up and navigation (`shell`), the source selector
  (`selector`), the connectivity probe and loading window (`loading`), and the
  window host's message decoding and frame loop (`host`).
- `app/` is the program around it: the Win32/Direct2D host, drawing with the
  fluentpx widget set, network requests, file dialogs and background tasks.
- `tests/` runs the library on concrete values.
