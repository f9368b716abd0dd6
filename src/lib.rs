//! A skinned, animated window frame and a typewriter text engine that reveals
//! text into it one character per tick, driven by inline escape codes.

pub mod database_items;
pub mod escape_code;
pub mod game_settings_manager;
pub mod graphics;
pub mod iconset;
pub mod text_window;
pub mod window;
