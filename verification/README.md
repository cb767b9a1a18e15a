# voxtype-osd-gtk4

An on-screen mic visualizer for the Voxtype daemon: a click-through dictation
pill that floats over the other windows while audio arrives and disappears when
it stops.

- `src/` is the library: the program's decisions, as far as they can be made on
  integers, verified with Verus.
  - `config`: how defaults, config file and command line are layered
  - `placement`, `monitor`: where the surface is anchored and by which height
  - `render`: the redraw timer (show, hide, repaint)
  - `frames`: frame numbering, periodic reports, decay of the held peak
  - `layout`, `outline`, `animation`: the pill, its columns and their easing
  - `exit`: how the program ends
- `tests/` runs the library on concrete values.
- `app/` is the program: GTK, Cairo, the frame socket, and what is computed in
  floating point: the step of a level, the height of a column, and the bounds on
  corner radius, opacity and top margin.

Lengths in `layout` are integers, 3600 to the pixel, which makes all of them
exact. Levels, gains and loudness are floating-point numbers; the library carries
them as a type parameter and leaves arithmetic on them to its caller.
