# citybound-ui

The user interface of Citybound, split in two:

- `src/` is the verified library (Verus): the session state of the UI
  (`model`), the global keyboard shortcuts (`shortcuts`), the state changes
  that the toolbar, window and menu controls make (`actions`), which controls
  and overlays are shown (`layout`), the zone types (`land_use`), the labels
  derived from the state (`text`), and the laws that relate several
  operations (`laws`).
- `app/` renders the UI with repose and forwards pointer and key input to the
  library.

Every operation keeps `UiState::well_formed`: the speed step stays on the
slider's scale, the projects are exactly `prj001`, `prj002`, ... in the order
they were started, and the open project is one of them.
