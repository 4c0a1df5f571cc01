pub mod ime;
pub mod tsf;
