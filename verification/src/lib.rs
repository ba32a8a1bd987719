//! Verified core logic of a rhythm game about staying close to the light:
//! integer timing of light movements, level editing operations, edit
//! history, scoring of rhythm hits, themes and menu/editor state machines.

pub mod time;
pub mod change;
pub mod movement;
pub mod snapshot;
pub mod level;
pub mod history;
pub mod light;
pub mod level_state;
pub mod score;
pub mod theme;
pub mod config;
pub mod meta;
pub mod menu;
pub mod editor;
pub mod input;
pub mod level_editor;
pub mod widgets;
pub mod game;
