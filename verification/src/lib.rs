pub mod keyboard_controller;
pub mod keyboard_input;
pub mod logger;
pub mod logging;
pub mod text;
pub mod window;
