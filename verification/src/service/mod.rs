pub mod caps_interceptor;
pub mod window_monitor;
