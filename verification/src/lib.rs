pub mod logic;
pub mod platform_win;
pub mod service;
pub mod tray;
