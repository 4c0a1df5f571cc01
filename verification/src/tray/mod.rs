pub mod tray;
