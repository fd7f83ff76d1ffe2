# bijou

Controller for the Bijou espresso machine.

- `src/` is the verified library: the message console (`console`), the
  machine settings (`device`), the decisions of the interface's controls
  (`controls`), the handling of save requests and their console reports
  (`saving`), and the CSV layout of the recorded samples (`table`).
- `app/` is the program around it: the egui window and widgets, the worker
  threads and their shared locks, file writing and the preferences store.
- `tests/` exercises the library on concrete values.
