//! A video wallpaper for Wayland compositors: its rules, verified.
//!
//! The library reaches neither the compositor nor EGL nor the player. It says what
//! is to be done next, and is told how that went:
//!
//! - `run` is the course of the program, with its main loop.
//! - `wallpaper` is the wallpaper itself: when a frame is drawn, and when it waits.
//! - `program` ties the two together.
//! - `egl` brings EGL up, and `player` the player; `release` is the order in which
//!   things are given back.
//! - `render`, `stats` and `outputs` are the frames, their timing, and the display;
//!   `wide` holds the numbers that the timing takes.

pub mod egl;
pub mod error;
pub mod outputs;
pub mod player;
pub mod program;
pub mod release;
pub mod render;
pub mod run;
pub mod stats;
pub mod text;
pub mod wallpaper;
pub mod wide;
