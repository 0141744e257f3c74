# scryglass

The decision core of a multi-window image and video viewer, verified with Verus.

- `src/` is the library: listings and navigation, the shared image store and its
  tiers, animation playback, background decay, message handling, and what each
  window shows. Handlers change the state and answer with the actions the
  program has to perform. Every handler's contract says exactly which state and
  which actions come out.
- `tests/` runs the library on concrete values.
- `app/` is the program around it: runtime events, floating-point geometry, the
  file system, the clipboard, and the recycle bin.
