//! Android platform integration for the egui toolkit: the decisions that turn
//! host input, window lifecycle signals and repaint requests into toolkit
//! input, surface transitions and host calls.
//!
//! - `keycodes`: host key codes and the toolkit keys they name.
//! - `input`: key events (with dead keys) and motion events into toolkit events.
//! - `surface`: the lifecycle of the graphics surface and rendering context.
//! - `repaint`: the repaint deadline and the poll timeout.
//! - `runner`: what each host signal sets off; keyboard, viewport commands.
//! - `output`: the host's text input state from widget output.
//! - `config`: theme, pixels-per-point, screen size and margin.
//! - `navigation`: the data of a navigation bar.
//! - `toolkit`: the toolkit's plain types that the contracts speak of.

pub mod config;
pub mod input;
pub mod keycodes;
pub mod navigation;
pub mod output;
pub mod repaint;
pub mod runner;
pub mod surface;
pub mod toolkit;
