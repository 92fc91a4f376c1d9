# room_lifecycle

A verified model of rooms that are born, collect readings, learn to predict,
settle, and dissolve once they are perfectly adapted.

- `src/phase.rs`: the phases, their names and how they are written.
- `src/durations.rs`: ticks spent per phase, looked up by phase or by name.
- `src/lifecycle.rs`: the room, the events it takes, and the state machine
  (`RoomState::next`) that every call of `process_event` follows.
- `src/laws.rs`: proved properties of the state machine.
- `app/`: the floating-point face: measured readings and predictions are
  turned into signal buckets and order keys of accuracies, which the library
  compares.
