# dioxus_bar

A status bar for a tiling window manager: tag buttons, a layout switch, and pills for the
processor, the memory, the battery, the brightness, the volume, screenshots, the time and
the monitor.

- `src/` is the bar's logic, verified with Verus: what every pill shows (`system`, `audio`,
  `brightness`, `clock`, `screenshot`, `layout`, `buttons`, `drawing`), how the bar's state
  changes (`bar`, with its laws in `laws`), the commands it sends (`command`), and the
  worker that hands the window manager's messages on (`worker`). `binary64`, `rounding`,
  `decimal`, `size` and `text` hold the arithmetic and the texts beneath.
- `tests/` runs the library on concrete values.
- `app/` draws the bar with dioxus and talks to the window manager, the audio system, the
  backlight and the system monitor.

Readings that come as floating-point numbers enter the library as their IEEE 754 bits.
