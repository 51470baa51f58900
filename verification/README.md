# creative_coding_project

The interaction logic and integer arithmetic of a generative audio-visual
instrument, verified with Verus, and the drawing and signal-processing layer
around it.

- `src/` — the verified library:
  - `menu_enum` — the enums shown in menus and the `MenuEnum` trait that lays
    them out by index, with the index round trip proved for each enum;
  - `gui::menu`, `gui::button`, `gui::label`, `gui::eq_display` — the click
    logic of the UI components, as functions from a frame of mouse input to
    the next state and what the component reports;
  - `gui::rdp` — the range stack of the Ramer-Douglas-Peucker path
    decimation, which always keeps the first and last point;
  - `gui::gradient` — colour gradients, the colour blended at each point and
    the triangles of a gradient strip;
  - `musical` — notes, transposition and the keyboard layout;
  - `generative` — L-system rules, the field of draggable points, the work
    split of the contour generator and the SmoothLife index wrapping;
  - `dsp` — the stereo wrapper's channel routing.
- `app/` — the nannou and egui drawing, the oscillators and the SmoothLife
  simulation, which compute in floating point.
- `tests/` — tests of the library.
