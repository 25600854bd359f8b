// A tiling window manager's engine: keybinding resolution, the per-desktop
// window model, grid tiling, pointer drag and scale, the key and button handlers,
// and the status-line coordination, each with its contract.

pub mod bar;
pub mod command;
pub mod config;
pub mod keys;
pub mod manager;
pub mod pointer;
pub mod status;
pub mod tiling;
pub mod windows;
