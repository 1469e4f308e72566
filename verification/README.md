# flight_sim

The verified core of a quadcopter flight stack, written in Verus.

`src/` is the library.  Every function in it carries a contract that Verus
proves, except one trusted wrapper, `fields::color32_from_rgba_unmultiplied`:
it calls egui's `Color32::from_rgba_unmultiplied`, and its contract (which
restates what ecolor computes) is assumed, not proved.

- `controller`: the pilot's flight mode and stick input.  Stick axes are
  carried as the bit patterns of their `f32` values.
- `float_bits`: IEEE-754 equality, `<` and total order on those bit patterns.
- `input`: input recordings: recording only changes, replaying by time
  (binary search), and detecting the end of a recording, with the laws that
  tie them together.
- `sim`: the decisions of one simulation step (stop, which input, whether
  the controller runs).
- `fields`: telemetry fields, their names and plot colours (premultiplied
  through egui's colour type).
- `spectrum`: sizing of the sample windows of a plot.
- `fusion`: the unfiltered sensor fusion strategy.

`app/` holds the floating-point flight controller, motor mixer, sensor model,
the rapier3d physics simulation, file I/O and the egui telemetry viewer; it
calls the library for everything above.  `tests/` exercises the library.
