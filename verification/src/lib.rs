//! UI runtime for a hardware control surface: a screen-stack engine over
//! menus, patches and bounded parameters, fed by logical input symbols and
//! emitting notifications for an external audio engine.
pub mod config;
pub mod framebuffer;
pub mod input;
pub mod menu;
pub mod text;
pub mod ui;
