pub mod caps_logic;
pub mod config;
pub mod mode_manager;
