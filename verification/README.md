# real_gpu_app

A transparent, click-through, always-on-top overlay for Windows that draws with the
GPU and listens to global keyboard and mouse input.

- `src/` is the verified core: how hook messages become events and whether the
  overlay swallows them (`events`), the records that inject an event (`input`), the
  vertices of each shape (`geometry`), the bounded vertex batch and when it is
  submitted (`batch`), the frame loop's decisions (`runtime`), the window's answers
  to messages (`window`), text colors (`text`) and pixel-copy sizes (`texture`).
- `app/` creates the window, the composition surface and the GPU pipelines,
  installs the hooks and runs the loop, asking the core at every decision.
- `tests/` runs the core on concrete values.
