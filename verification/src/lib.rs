//! Decision core of StreamPainter, a drawing overlay for OBS projectors.

pub mod autostart;
pub mod canvas_actions;
pub mod canvas_input;
pub mod clipboard;
pub mod dialogs;
pub mod frame;
pub mod hotkey;
pub mod input;
pub mod logging;
pub mod menu;
pub mod monitor;
pub mod overlay;
pub mod pixels;
pub mod pointer;
pub mod projector;
pub mod radial_menu;
pub mod radial_scene;
pub mod render;
pub mod settings;
pub mod settings_form;
pub mod settings_layout;
pub mod settings_save;
pub mod single_instance;
pub mod stamps;
pub mod startup;
pub mod text;
pub mod tray;
pub mod update;
