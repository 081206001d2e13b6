# murale

A video wallpaper player for Wayland compositors. It shows a looping video on a
layer surface below all windows, drawn by mpv through EGL.

    murale ~/Videos/wallpaper.mp4
    murale ~/Videos/wallpaper.mp4 --output DP-2
    murale ~/Videos/wallpaper.mp4 --mpv-options "input-ipc-server=/tmp/murale.sock"
    murale ~/Videos/wallpaper.mp4 --stats

## Layout

- `src/` is a library, verified with Verus. It holds the decisions: the course of
  the program, its layer surface and its main loop (`run`), the handling of
  compositor and player events and the order in which a frame is drawn and shown
  (`wallpaper`), the two taken together (`program`), the set-up of EGL (`egl`) and of
  the player (`player`), the order in which things are given back (`release`), the
  choice of the display (`outputs`), and the timing of frames (`stats`, with the
  numbers of `wide`). It performs no input or output: it says what to do next, and
  is told how that went.
- `app/` is the program around it, which makes the calls.
- `tests/` runs the library on concrete values.

## What is trusted

One function of an outside crate is called from `src/`: the `Debug` implementation
of `khronos_egl::Error`, in `error::egl_error_debug`.

## Drawing without blocking

Frames are drawn with `MPV_RENDER_PARAM_BLOCK_FOR_TARGET_TIME` set to 0. Otherwise
mpv waits until a frame is due, which on displays with a high refresh rate means
missed frame callbacks. The `render` method of `libmpv2` does not set the parameter,
and its context is private, so `app/mpv.rs` uses the C interface.
