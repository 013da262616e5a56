# dsv_gui

The decision logic of a viewer for Nintendo DS games running in an emulator,
verified with Verus.

- `src/views.rs`, `src/views/nsmb.rs`: reading typed objects out of game
  memory (type lookup, memory requests, little-endian pointers, error texts),
  the New Super Mario Bros. windows and the walk from the scene graph to the
  current scene.
- `src/tasks/load_types.rs`: gathering header files, the lifecycle of the
  type-loading task and the steps of its worker.
- `src/app.rs`, `src/config.rs`: the main window's state and what each of its
  buttons and fields decides, including which view a game code selects.
- `app/`: the egui window, file dialogs, the file system walk, the worker
  thread and the emulator connection, around the library.
- `tests/`: tests of the library on concrete values.
